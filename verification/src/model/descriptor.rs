//! Descriptors: what a player can observe of a value.

use crate::model::builder::{Builder, BuilderMode, Field, FieldValueType, FieldView, ModifyResult};
use crate::model::error::{field_not_set, Error, ErrorView};
use crate::text::same_text;
use vstd::prelude::*;

verus! {

/// A descriptor as a mathematical value.
pub struct DescriptorView {
    pub name: Seq<char>,
    pub keywords: Seq<Seq<char>>,
    pub key: Option<Seq<char>>,
    pub short_description: Option<Seq<char>>,
    pub description: Option<Seq<char>>,
}

impl DescriptorView {
    /// The description that is shown: the detailed one, or the short one where
    /// there is no detailed one.
    pub open spec fn shown_description(self) -> Option<Seq<char>> {
        match self.description {
            Some(description) => Some(description),
            None => self.short_description,
        }
    }

    /// Whether the descriptor has a given key.
    pub open spec fn has_key(self, key: Seq<char>) -> bool {
        self.key == Some(key)
    }
}

/// The characters of a text that may be missing.
pub open spec fn text_of(text: Option<String>) -> Option<Seq<char>> {
    match text {
        Some(text) => Some(text@),
        None => None,
    }
}

/// The characters of a borrowed text that may be missing.
pub open spec fn text_of_ref(text: Option<&String>) -> Option<Seq<char>> {
    match text {
        Some(text) => Some(text@),
        None => None,
    }
}

/// The characters of each text of a run.
pub open spec fn texts_of(texts: Seq<String>) -> Seq<Seq<char>> {
    texts.map_values(|text: String| text@)
}

/// All descriptive information about a value that a player can observe.
#[derive(Debug)]
pub struct Descriptor {
    /// The title.
    name: String,
    /// Any term that might be used to refer to the value.
    keywords: Vec<String>,
    /// Unique to the world. Use it to refer to a value for good.
    key: Option<String>,
    /// A one-line summary.
    short_description: Option<String>,
    /// A detailed, narrative description.
    description: Option<String>,
}

impl View for Descriptor {
    type V = DescriptorView;

    closed spec fn view(&self) -> DescriptorView {
        DescriptorView {
            name: self.name@,
            keywords: texts_of(self.keywords@),
            key: text_of(self.key),
            short_description: text_of(self.short_description),
            description: text_of(self.description),
        }
    }
}

/// Read access to a descriptor.
pub trait Descriptive {
    /// The descriptor as a mathematical value.
    spec fn descriptor_view(&self) -> DescriptorView;

    /// The descriptor of this value.
    fn descriptor(&self) -> (descriptor: &Descriptor)
        ensures
            descriptor@ == self.descriptor_view(),
    ;

    /// The title.
    fn name(&self) -> (name: &str)
        ensures
            name@ == self.descriptor_view().name,
    {
        self.descriptor().name.as_str()
    }

    /// Any term that might be used to refer to the value.
    fn keywords(&self) -> (keywords: &Vec<String>)
        ensures
            texts_of(keywords@) == self.descriptor_view().keywords,
    {
        &self.descriptor().keywords
    }

    /// The key, unique to the world.
    fn key(&self) -> (key: Option<&String>)
        ensures
            text_of_ref(key) == self.descriptor_view().key,
    {
        match &self.descriptor().key {
            Some(key) => Some(key),
            None => None,
        }
    }

    /// The one-line summary.
    fn short_description(&self) -> (text: Option<&String>)
        ensures
            text_of_ref(text) == self.descriptor_view().short_description,
    {
        match &self.descriptor().short_description {
            Some(text) => Some(text),
            None => None,
        }
    }

    /// The detailed description, or the one-line summary where there is none.
    fn description(&self) -> (text: Option<&String>)
        ensures
            text_of_ref(text) == self.descriptor_view().shown_description(),
    {
        match &self.descriptor().description {
            Some(text) => Some(text),
            None => self.short_description(),
        }
    }
}

/// Write access to a descriptor.
pub trait DescriptiveMut: Descriptive {
    /// The descriptor of this value, for writing. What is written to it is
    /// written to the value.
    fn descriptor_mut(&mut self) -> (descriptor: &mut Descriptor)
        ensures
            descriptor@ == old(self).descriptor_view(),
            final(self).descriptor_view() == final(descriptor)@,
    ;
}

impl Descriptive for Descriptor {
    open spec fn descriptor_view(&self) -> DescriptorView {
        self@
    }

    fn descriptor(&self) -> (descriptor: &Descriptor) {
        self
    }
}

impl DescriptiveMut for Descriptor {
    fn descriptor_mut(&mut self) -> (descriptor: &mut Descriptor) {
        self
    }
}

/// The fields of a descriptor.
#[allow(non_camel_case_types)]
#[derive(Debug, Clone, Copy, PartialEq, Eq, Structural)]
pub enum DescriptorField {
    name,
    keywords,
    key,
    short_description,
    description,
}

impl DescriptorField {
    pub const CLASSNAME: &'static str = "Descriptor";

    /// The description of a field.
    pub open spec fn described(self) -> FieldView {
        match self {
            DescriptorField::name => FieldView { name: "name"@, value_type: FieldValueType::String },
            DescriptorField::keywords => FieldView {
                name: "keywords"@,
                value_type: FieldValueType::StringArray,
            },
            DescriptorField::key => FieldView { name: "key"@, value_type: FieldValueType::String },
            DescriptorField::short_description => FieldView {
                name: "short_description"@,
                value_type: FieldValueType::String,
            },
            DescriptorField::description => FieldView {
                name: "description"@,
                value_type: FieldValueType::String,
            },
        }
    }

    /// The description of this field.
    pub fn field(&self) -> (field: Field)
        ensures
            field@ == self.described(),
    {
        match self {
            Self::name => Field {
                name: DescriptorBuilder::FIELD_NAME,
                value_type: FieldValueType::String,
            },
            Self::keywords => Field { name: "keywords", value_type: FieldValueType::StringArray },
            Self::key => Field { name: "key", value_type: FieldValueType::String },
            Self::short_description => Field {
                name: "short_description",
                value_type: FieldValueType::String,
            },
            Self::description => Field {
                name: DescriptorBuilder::FIELD_DESCRIPTION,
                value_type: FieldValueType::String,
            },
        }
    }
}

/// The fields that a descriptor builder holds.
pub struct DescriptorBuilderView {
    pub mode: BuilderMode,
    pub name: Option<Seq<char>>,
    pub keywords: Option<Seq<Seq<char>>>,
    pub key: Option<Seq<char>>,
    pub short_description: Option<Seq<char>>,
    pub description: Option<Seq<char>>,
}

impl DescriptorBuilderView {
    /// A builder with no field set.
    pub open spec fn empty(mode: BuilderMode) -> DescriptorBuilderView {
        DescriptorBuilderView {
            mode,
            name: None,
            keywords: None,
            key: None,
            short_description: None,
            description: None,
        }
    }

    /// What `create` gives: the descriptor, or the report that the name is
    /// missing. Keywords that were not set are none.
    pub open spec fn created(self) -> Result<DescriptorView, ErrorView> {
        match self.name {
            Some(name) => Ok(
                DescriptorView {
                    name,
                    keywords: match self.keywords {
                        Some(keywords) => keywords,
                        None => Seq::empty(),
                    },
                    key: self.key,
                    short_description: self.short_description,
                    description: self.description,
                },
            ),
            None => Err(field_not_set("Descriptor", "name")),
        }
    }

    /// What `modify` leaves of a descriptor: a name and a description that were
    /// set replace the descriptor's; nothing else is written.
    pub open spec fn modified(self, target: DescriptorView) -> DescriptorView {
        DescriptorView {
            name: match self.name {
                Some(name) => name,
                None => target.name,
            },
            description: match self.description {
                Some(description) => Some(description),
                None => target.description,
            },
            ..target
        }
    }

    /// The fields that `modify` reports: name and description, as far as they
    /// were set.
    pub open spec fn changed(self) -> Seq<FieldView> {
        (if self.name.is_some() {
            seq![DescriptorField::name.described()]
        } else {
            seq![]
        }) + (if self.description.is_some() {
            seq![DescriptorField::description.described()]
        } else {
            seq![]
        })
    }
}

/// Collects the fields of a descriptor.
#[derive(Debug)]
pub struct DescriptorBuilder {
    builder_mode: BuilderMode,
    name: Option<String>,
    keywords: Option<Vec<String>>,
    key: Option<String>,
    short_description: Option<String>,
    description: Option<String>,
}

impl View for DescriptorBuilder {
    type V = DescriptorBuilderView;

    closed spec fn view(&self) -> DescriptorBuilderView {
        DescriptorBuilderView {
            mode: self.builder_mode,
            name: text_of(self.name),
            keywords: match self.keywords {
                Some(keywords) => Some(texts_of(keywords@)),
                None => None,
            },
            key: text_of(self.key),
            short_description: text_of(self.short_description),
            description: text_of(self.description),
        }
    }
}

impl DescriptorBuilder {
    pub const FIELD_NAME: &'static str = "name";

    pub const FIELD_DESCRIPTION: &'static str = "description";

    /// A builder with no field set, in a mode.
    pub fn with_mode(mode: BuilderMode) -> (builder: Self)
        ensures
            builder@ == DescriptorBuilderView::empty(mode),
    {
        Self {
            builder_mode: mode,
            name: None,
            keywords: None,
            key: None,
            short_description: None,
            description: None,
        }
    }

    /// Sets the key.
    pub fn key(&mut self, key: String) -> (result: Result<(), Error>)
        ensures
            result is Ok,
            final(self)@ == (DescriptorBuilderView { key: Some(key@), ..old(self)@ }),
    {
        self.key = Some(key);
        Ok(())
    }

    /// Sets the name.
    pub fn name(&mut self, name: String) -> (result: Result<(), Error>)
        ensures
            result is Ok,
            final(self)@ == (DescriptorBuilderView { name: Some(name@), ..old(self)@ }),
    {
        self.name = Some(name);
        Ok(())
    }

    /// Sets the detailed description.
    pub fn description(&mut self, description: String) -> (result: Result<(), Error>)
        ensures
            result is Ok,
            final(self)@ == (DescriptorBuilderView {
                description: Some(description@),
                ..old(self)@
            }),
    {
        self.description = Some(description);
        Ok(())
    }

    /// Sets a field by its name from a raw value. Only the name and the
    /// description can be set this way; any other field name is refused.
    pub fn set(&mut self, field: &str, raw_value: String) -> (result: Result<(), ()>)
        ensures
            if field@ == "name"@ {
                result is Ok && final(self)@ == (DescriptorBuilderView {
                    name: Some(raw_value@),
                    ..old(self)@
                })
            } else if field@ == "description"@ {
                result is Ok && final(self)@ == (DescriptorBuilderView {
                    description: Some(raw_value@),
                    ..old(self)@
                })
            } else {
                result is Err && final(self)@ == old(self)@
            },
    {
        if same_text(field, Self::FIELD_NAME) {
            let _ = self.name(raw_value);
        } else if same_text(field, Self::FIELD_DESCRIPTION) {
            let _ = self.description(raw_value);
        } else {
            return Err(());
        }
        Ok(())
    }
}

impl Builder for DescriptorBuilder {
    type Type = Descriptor;

    open spec fn mode(&self) -> BuilderMode {
        self@.mode
    }

    fn creator() -> (builder: Self)
        ensures
            builder@ == DescriptorBuilderView::empty(BuilderMode::Creator),
    {
        Self::with_mode(BuilderMode::Creator)
    }

    fn editor() -> (builder: Self)
        ensures
            builder@ == DescriptorBuilderView::empty(BuilderMode::Editor),
    {
        Self::with_mode(BuilderMode::Editor)
    }

    fn builder_mode(&self) -> (mode: BuilderMode) {
        self.builder_mode
    }

    fn create(self) -> (result: Result<Descriptor, Error>)
        ensures
            match result {
                Ok(descriptor) => self@.created() == Ok::<DescriptorView, ErrorView>(descriptor@),
                Err(error) => self@.created() == Err::<DescriptorView, ErrorView>(error@),
            },
    {
        let name = match self.name {
            Some(name) => name,
            None => {
                return Err(
                    Error::FieldNotSet {
                        class: DescriptorField::CLASSNAME,
                        field: DescriptorBuilder::FIELD_NAME,
                    },
                );
            },
        };
        let keywords = match self.keywords {
            Some(keywords) => keywords,
            None => Vec::new(),
        };
        let descriptor = Descriptor {
            name,
            keywords,
            key: self.key,
            short_description: self.short_description,
            description: self.description,
        };
        proof {
            assert(descriptor@.keywords =~= self@.created()->Ok_0.keywords);
        }
        Ok(descriptor)
    }

    fn modify(self, target: &mut Descriptor) -> (result: Result<ModifyResult, Error>)
        ensures
            result matches Ok(changed) && changed@ == self@.changed(),
            final(target)@ == self@.modified(old(target)@),
    {
        let mut fields_changed: Vec<Field> = Vec::new();
        if let Some(name) = self.name {
            target.name = name;
            fields_changed.push(DescriptorField::name.field());
        }
        if self.description.is_some() {
            target.description = self.description;
            fields_changed.push(DescriptorField::description.field());
        }
        proof {
            assert(fields_changed@.map_values(|field: Field| field@) =~= self@.changed());
        }
        Ok(ModifyResult::new(fields_changed))
    }
}

impl Descriptor {
    /// A builder for a new descriptor.
    pub fn builder() -> (builder: DescriptorBuilder)
        ensures
            builder@ == DescriptorBuilderView::empty(BuilderMode::Creator),
    {
        DescriptorBuilder::creator()
    }

    /// A builder for a new descriptor.
    pub fn creator() -> (builder: DescriptorBuilder)
        ensures
            builder@ == DescriptorBuilderView::empty(BuilderMode::Creator),
    {
        DescriptorBuilder::creator()
    }

    /// A builder for changing a descriptor.
    pub fn editor() -> (builder: DescriptorBuilder)
        ensures
            builder@ == DescriptorBuilderView::empty(BuilderMode::Editor),
    {
        DescriptorBuilder::editor()
    }
}

} // verus!
