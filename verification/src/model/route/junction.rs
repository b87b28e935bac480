//! Junctions: where several routes run into one.

use crate::model::builder::{Field, FieldValueType, FieldView};
use crate::model::route::{Endpoint, EndpointView};
use vstd::prelude::*;

verus! {

/// A junction as a mathematical value.
pub struct JunctionView {
    pub entrances: Seq<EndpointView>,
    pub exit: EndpointView,
}

/// Several entrances that lead to one exit.
#[derive(Debug)]
pub struct Junction {
    entrances: Vec<Endpoint>,
    exit: Endpoint,
}

impl View for Junction {
    type V = JunctionView;

    closed spec fn view(&self) -> JunctionView {
        JunctionView {
            entrances: self.entrances@.map_values(|endpoint: Endpoint| endpoint@),
            exit: self.exit@,
        }
    }
}

/// The fields of a junction.
#[derive(Clone, Copy, Debug, PartialEq, Eq, Structural)]
pub enum JunctionField {
    Entrances,
    Exit,
}

impl JunctionField {
    pub const CLASSNAME: &'static str = "Junction";

    pub const FIELDNAME_ENTRANCES: &'static str = "entrances";

    pub const FIELDNAME_EXIT: &'static str = "exit";

    /// The description of a field.
    pub open spec fn described(self) -> FieldView {
        match self {
            JunctionField::Entrances => FieldView {
                name: "entrances"@,
                value_type: FieldValueType::Object,
            },
            JunctionField::Exit => FieldView { name: "exit"@, value_type: FieldValueType::Object },
        }
    }

    /// The description of this field.
    pub fn field(&self) -> (field: Field)
        ensures
            field@ == self.described(),
    {
        match self {
            Self::Entrances => Field::new(Self::FIELDNAME_ENTRANCES, FieldValueType::Object),
            Self::Exit => Field::new(Self::FIELDNAME_EXIT, FieldValueType::Object),
        }
    }
}

impl Junction {
    /// A junction from its entrances and its exit.
    pub fn new(entrances: Vec<Endpoint>, exit: Endpoint) -> (junction: Self)
        ensures
            junction@ == (JunctionView {
                entrances: entrances@.map_values(|endpoint: Endpoint| endpoint@),
                exit: exit@,
            }),
    {
        Self { entrances, exit }
    }

    /// The entrances.
    pub fn entrances(&self) -> (entrances: &Vec<Endpoint>)
        ensures
            entrances@.map_values(|endpoint: Endpoint| endpoint@) == self@.entrances,
    {
        &self.entrances
    }

    /// The exit.
    pub fn exit(&self) -> (exit: &Endpoint)
        ensures
            exit@ == self@.exit,
    {
        &self.exit
    }
}

} // verus!
