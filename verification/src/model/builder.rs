//! What all builders share.

use crate::model::error::Error;
use vstd::prelude::*;

verus! {

/// Whether a builder makes a new value or changes an existing one.
#[derive(Debug, Clone, Copy, PartialEq, Eq, Structural)]
pub enum BuilderMode {
    Creator,
    Editor,
}

/// The kind of value that a field holds.
#[derive(Debug, Clone, Copy, PartialEq, Eq, Structural)]
pub enum FieldValueType {
    String,
    Integer,
    Float,
    Boolean,
    StringArray,
    Object,
    ObjectArray,
}

/// A field of a class: its name and the kind of its value.
#[derive(Debug, Clone, Copy)]
pub struct Field {
    pub name: &'static str,
    pub value_type: FieldValueType,
}

/// A field as a mathematical value.
pub struct FieldView {
    pub name: Seq<char>,
    pub value_type: FieldValueType,
}

impl View for Field {
    type V = FieldView;

    open spec fn view(&self) -> FieldView {
        FieldView { name: self.name@, value_type: self.value_type }
    }
}

impl Field {
    /// A field from its name and kind.
    pub fn new(name: &'static str, value_type: FieldValueType) -> (field: Self)
        ensures
            field.name == name,
            field.value_type == value_type,
            field@ == (FieldView { name: name@, value_type }),
    {
        Self { name, value_type }
    }
}

/// The fields that a builder changed.
#[derive(Debug)]
pub struct ModifyResult {
    fields_changed: Vec<Field>,
}

impl View for ModifyResult {
    type V = Seq<FieldView>;

    closed spec fn view(&self) -> Seq<FieldView> {
        self.fields_changed@.map_values(|field: Field| field@)
    }
}

impl ModifyResult {
    /// A result from the changed fields.
    pub fn new(fields_changed: Vec<Field>) -> (result: Self)
        ensures
            result@ == fields_changed@.map_values(|field: Field| field@),
    {
        Self { fields_changed }
    }

    /// The changed fields, in the order in which they were changed.
    pub fn fields_changed(&self) -> (fields: &Vec<Field>)
        ensures
            fields@.map_values(|field: Field| field@) == self@,
    {
        &self.fields_changed
    }
}

/// A builder: it collects the fields of a value and then makes the value, or
/// changes an existing one.
pub trait Builder: Sized {
    /// What the builder makes.
    type Type;

    /// The mode in which the builder was made.
    spec fn mode(&self) -> BuilderMode;

    /// A builder with no field set, for a new value.
    fn creator() -> (builder: Self)
        ensures
            builder.mode() == BuilderMode::Creator,
    ;

    /// A builder with no field set, for changing a value.
    fn editor() -> (builder: Self)
        ensures
            builder.mode() == BuilderMode::Editor,
    ;

    /// The mode in which the builder was made.
    fn builder_mode(&self) -> (mode: BuilderMode)
        ensures
            mode == self.mode(),
    ;

    /// Makes the value, or reports the first field that is missing.
    fn create(self) -> Result<Self::Type, Error>;

    /// Writes the fields that were set into an existing value, and reports which.
    fn modify(self, target: &mut Self::Type) -> Result<ModifyResult, Error>;
}

} // verus!
