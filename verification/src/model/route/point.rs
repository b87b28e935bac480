//! Points of a route.

use crate::model::route::junction::{Junction, JunctionView};
use crate::model::route::{Endpoint, EndpointView};
use vstd::prelude::*;

verus! {

/// A point as a mathematical value.
pub enum PointView {
    Endpoint(EndpointView),
    Junction(JunctionView),
}

/// Where a route ends or meets others.
#[derive(Debug)]
pub enum Point {
    Endpoint(Endpoint),
    Junction(Junction),
}

impl View for Point {
    type V = PointView;

    open spec fn view(&self) -> PointView {
        match self {
            Point::Endpoint(endpoint) => PointView::Endpoint(endpoint@),
            Point::Junction(junction) => PointView::Junction(junction@),
        }
    }
}

} // verus!
