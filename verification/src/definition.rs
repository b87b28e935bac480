//! Account definitions: the named categories of a chart of accounts.
//!
//! A definition is either standard, one of a fixed catalogue, or custom, made at
//! run time under a parent. A definition names its parent by identifier; the
//! chart resolves the identifier. No definition changes once made.

pub mod standard;

use crate::equation::Equation;
use crate::id::{AccountClassIdentity, ClassIdentity, SystemID, ID};
use crate::index::Index;
use vstd::prelude::*;

verus! {

/// The system under which the ledger's own identifiers are issued.
pub const ACCT_SYSTEM_ID: SystemID = 1;

/// A definition as a mathematical value.
pub struct DefinitionView {
    pub id: ID,
    pub name: Seq<char>,
    pub equation_variable: Equation,
    pub parent_id: Option<ID>,
    pub standard: bool,
}

/// What every definition can tell of itself.
pub trait AccountDefinitionTrait {
    /// The definition as a mathematical value.
    spec fn definition_view(&self) -> DefinitionView;

    /// The definition's stable identifier.
    fn id(&self) -> (id: ID)
        ensures
            id == self.definition_view().id,
    ;

    /// The definition's name.
    fn name(&self) -> (name: &str)
        ensures
            name@ == self.definition_view().name,
    ;

    /// The variable of the accounting equation that the definition counts under.
    fn equation_variable(&self) -> (variable: Equation)
        ensures
            variable == self.definition_view().equation_variable,
    ;

    /// The identifier of the parent definition; none for a root.
    fn parent_id(&self) -> (parent_id: Option<ID>)
        ensures
            parent_id == self.definition_view().parent_id,
    ;

    /// The parent definition, resolved through a chart; none for a root, and none
    /// where the chart does not hold the parent.
    fn parent<'index>(&self, index: &'index Index) -> (parent: Option<&'index AccountDefinition>)
        ensures
            match self.definition_view().parent_id {
                Some(parent_id) => match parent {
                    Some(definition) => index@.definition(parent_id) == Some(definition@),
                    None => index@.definition(parent_id).is_none(),
                },
                None => parent.is_none(),
            },
    ;

    /// Whether the definition belongs to the fixed catalogue.
    fn is_standard(&self) -> (standard: bool)
        ensures
            standard == self.definition_view().standard,
    ;
}

/// A definition of the fixed catalogue.
#[derive(Debug, Clone)]
pub struct StandardAccountDefinition {
    id: ID,
    name: &'static str,
    equation_variable: Equation,
    parent_id: Option<ID>,
}

/// A definition made at run time.
#[derive(Debug, Clone)]
pub struct CustomAccountDefinition {
    id: ID,
    name: String,
    equation_variable: Equation,
    parent_id: Option<ID>,
}

/// A definition of either kind.
#[derive(Debug, Clone)]
pub enum AccountDefinition {
    Standard(StandardAccountDefinition),
    Custom(CustomAccountDefinition),
}

impl View for StandardAccountDefinition {
    type V = DefinitionView;

    closed spec fn view(&self) -> DefinitionView {
        DefinitionView {
            id: self.id,
            name: self.name@,
            equation_variable: self.equation_variable,
            parent_id: self.parent_id,
            standard: true,
        }
    }
}

impl View for CustomAccountDefinition {
    type V = DefinitionView;

    closed spec fn view(&self) -> DefinitionView {
        DefinitionView {
            id: self.id,
            name: self.name@,
            equation_variable: self.equation_variable,
            parent_id: self.parent_id,
            standard: false,
        }
    }
}

impl View for AccountDefinition {
    type V = DefinitionView;

    open spec fn view(&self) -> DefinitionView {
        match self {
            AccountDefinition::Standard(definition) => definition@,
            AccountDefinition::Custom(definition) => definition@,
        }
    }
}

/// The identifier of the standard definition with a given serial.
pub open spec fn standard_id(serial: u32) -> ID {
    ID { class: 1, system: ACCT_SYSTEM_ID, domain: 0, segment: 0, serial }
}

impl StandardAccountDefinition {
    /// The class of every standard definition.
    pub fn class() -> (class: AccountClassIdentity)
        ensures
            class == AccountClassIdentity::StandardAccountDefinition,
    {
        AccountClassIdentity::StandardAccountDefinition
    }

    /// A standard definition without a parent.
    pub fn root(id_serial: u32, name: &'static str, equation_variable: Equation) -> (definition:
        AccountDefinition)
        ensures
            definition is Standard,
            definition@ == (DefinitionView {
                id: standard_id(id_serial),
                name: name@,
                equation_variable,
                parent_id: None,
                standard: true,
            }),
    {
        AccountDefinition::Standard(
            Self {
                id: ID::v1_system(ACCT_SYSTEM_ID, Self::class().into_class_id(), id_serial),
                name,
                equation_variable,
                parent_id: None,
            },
        )
    }

    /// A standard definition under another standard definition, whose equation
    /// variable it takes over.
    pub fn sub(id_serial: u32, name: &'static str, parent: &AccountDefinition) -> (definition:
        AccountDefinition)
        requires
            parent is Standard,
        ensures
            definition is Standard,
            definition@ == (DefinitionView {
                id: standard_id(id_serial),
                name: name@,
                equation_variable: parent@.equation_variable,
                parent_id: Some(parent@.id),
                standard: true,
            }),
    {
        AccountDefinition::Standard(
            Self {
                id: ID::v1_system(ACCT_SYSTEM_ID, Self::class().into_class_id(), id_serial),
                name,
                equation_variable: parent.equation_variable(),
                parent_id: Some(parent.id()),
            },
        )
    }

    /// The definition's equation variable.
    pub fn equation_variable_const(&self) -> (variable: Equation)
        ensures
            variable == self@.equation_variable,
    {
        self.equation_variable
    }
}

impl CustomAccountDefinition {
    /// The class of every custom definition.
    pub fn class() -> (class: AccountClassIdentity)
        ensures
            class == AccountClassIdentity::CustomAccountDefinition,
    {
        AccountClassIdentity::CustomAccountDefinition
    }

    /// A custom definition under a parent.
    pub fn new(id: ID, name: String, equation_variable: Equation, parent_id: ID) -> (definition:
        Self)
        ensures
            definition@ == (DefinitionView {
                id,
                name: name@,
                equation_variable,
                parent_id: Some(parent_id),
                standard: false,
            }),
    {
        Self { id, name, equation_variable, parent_id: Some(parent_id) }
    }

    /// A custom definition without a parent.
    pub fn new_root(id: ID, equation_variable: Equation, name: String) -> (definition: Self)
        ensures
            definition@ == (DefinitionView {
                id,
                name: name@,
                equation_variable,
                parent_id: None,
                standard: false,
            }),
    {
        Self { id, name, equation_variable, parent_id: None }
    }
}

impl ClassIdentity<AccountClassIdentity> for StandardAccountDefinition {
    fn class_identity(&self) -> (class: AccountClassIdentity)
        ensures
            class == AccountClassIdentity::StandardAccountDefinition,
    {
        Self::class()
    }
}

impl ClassIdentity<AccountClassIdentity> for CustomAccountDefinition {
    fn class_identity(&self) -> (class: AccountClassIdentity)
        ensures
            class == AccountClassIdentity::CustomAccountDefinition,
    {
        Self::class()
    }
}

impl AccountDefinitionTrait for StandardAccountDefinition {
    open spec fn definition_view(&self) -> DefinitionView {
        self@
    }

    fn id(&self) -> (id: ID) {
        self.id
    }

    fn name(&self) -> (name: &str) {
        self.name
    }

    fn equation_variable(&self) -> (variable: Equation) {
        self.equation_variable
    }

    fn parent_id(&self) -> (parent_id: Option<ID>) {
        self.parent_id
    }

    fn parent<'index>(&self, index: &'index Index) -> (parent: Option<&'index AccountDefinition>) {
        match self.parent_id {
            Some(id) => index.definition(id),
            None => None,
        }
    }

    fn is_standard(&self) -> (standard: bool) {
        true
    }
}

impl AccountDefinitionTrait for CustomAccountDefinition {
    open spec fn definition_view(&self) -> DefinitionView {
        self@
    }

    fn id(&self) -> (id: ID) {
        self.id
    }

    fn name(&self) -> (name: &str) {
        self.name.as_str()
    }

    fn equation_variable(&self) -> (variable: Equation) {
        self.equation_variable
    }

    fn parent_id(&self) -> (parent_id: Option<ID>) {
        self.parent_id
    }

    fn parent<'index>(&self, index: &'index Index) -> (parent: Option<&'index AccountDefinition>) {
        match self.parent_id {
            Some(id) => index.definition(id),
            None => None,
        }
    }

    fn is_standard(&self) -> (standard: bool) {
        false
    }
}

impl AccountDefinitionTrait for AccountDefinition {
    open spec fn definition_view(&self) -> DefinitionView {
        self@
    }

    fn id(&self) -> (id: ID) {
        match self {
            AccountDefinition::Standard(def) => def.id(),
            AccountDefinition::Custom(def) => def.id(),
        }
    }

    fn name(&self) -> (name: &str) {
        match self {
            AccountDefinition::Standard(def) => def.name(),
            AccountDefinition::Custom(def) => def.name(),
        }
    }

    fn equation_variable(&self) -> (variable: Equation) {
        match self {
            AccountDefinition::Standard(def) => def.equation_variable(),
            AccountDefinition::Custom(def) => def.equation_variable(),
        }
    }

    fn parent_id(&self) -> (parent_id: Option<ID>) {
        match self {
            AccountDefinition::Standard(def) => def.parent_id(),
            AccountDefinition::Custom(def) => def.parent_id(),
        }
    }

    fn parent<'index>(&self, index: &'index Index) -> (parent: Option<&'index AccountDefinition>) {
        match self {
            AccountDefinition::Standard(def) => def.parent(index),
            AccountDefinition::Custom(def) => def.parent(index),
        }
    }

    fn is_standard(&self) -> (standard: bool) {
        match self {
            AccountDefinition::Standard(def) => def.is_standard(),
            AccountDefinition::Custom(def) => def.is_standard(),
        }
    }
}

impl<T: AccountDefinitionTrait> AccountDefinitionTrait for &T {
    open spec fn definition_view(&self) -> DefinitionView {
        (**self).definition_view()
    }

    fn id(&self) -> (id: ID) {
        (**self).id()
    }

    fn name(&self) -> (name: &str) {
        (**self).name()
    }

    fn equation_variable(&self) -> (variable: Equation) {
        (**self).equation_variable()
    }

    fn parent_id(&self) -> (parent_id: Option<ID>) {
        (**self).parent_id()
    }

    fn parent<'index>(&self, index: &'index Index) -> (parent: Option<&'index AccountDefinition>) {
        (**self).parent(index)
    }

    fn is_standard(&self) -> (standard: bool) {
        (**self).is_standard()
    }
}

} // verus!
