//! Routes between areas.

pub mod junction;
pub mod point;

use crate::model::descriptor::{Descriptive, Descriptor, DescriptorView};
use crate::model::identity::{Ident, Identity, IdentityView};
use vstd::prelude::*;

verus! {

/// The direction in which a route leaves an area.
#[derive(Debug, Clone, Copy, PartialEq, Eq, Structural)]
pub enum Direction {
    North,
    East,
    South,
    West,
    Up,
    Down,
    UpNorth,
    UpEast,
    UpSouth,
    UpWest,
    DownNorth,
    DownEast,
    DownSouth,
    DownWest,
}

/// An endpoint as a mathematical value.
pub struct EndpointView {
    pub area_identity: IdentityView,
    pub area_pov_descriptor: DescriptorView,
    pub area_pov_direction: Direction,
}

/// One end of a route: the area it stands in, and how the route looks and where
/// it leads, seen from that area.
#[derive(Debug)]
pub struct Endpoint {
    area_identity: Identity,
    area_pov_descriptor: Descriptor,
    area_pov_direction: Direction,
}

impl View for Endpoint {
    type V = EndpointView;

    closed spec fn view(&self) -> EndpointView {
        EndpointView {
            area_identity: self.area_identity@,
            area_pov_descriptor: self.area_pov_descriptor@,
            area_pov_direction: self.area_pov_direction,
        }
    }
}

impl Endpoint {
    /// An endpoint in an area.
    pub fn new(
        area_identity: Identity,
        area_pov_descriptor: Descriptor,
        area_pov_direction: Direction,
    ) -> (endpoint: Self)
        ensures
            endpoint@ == (EndpointView {
                area_identity: area_identity@,
                area_pov_descriptor: area_pov_descriptor@,
                area_pov_direction,
            }),
    {
        Self { area_identity, area_pov_descriptor, area_pov_direction }
    }

    /// The direction in which the route leaves the area.
    pub fn direction(&self) -> (direction: Direction)
        ensures
            direction == self@.area_pov_direction,
    {
        self.area_pov_direction
    }
}

impl Ident for Endpoint {
    open spec fn identity_view(&self) -> IdentityView {
        self@.area_identity
    }

    fn identity(&self) -> (identity: &Identity) {
        &self.area_identity
    }
}

impl Descriptive for Endpoint {
    open spec fn descriptor_view(&self) -> DescriptorView {
        self@.area_pov_descriptor
    }

    fn descriptor(&self) -> (descriptor: &Descriptor) {
        &self.area_pov_descriptor
    }
}

/// A route as a mathematical value.
pub struct RouteView {
    pub identity: IdentityView,
    pub descriptor: DescriptorView,
    pub endpoints: (EndpointView, EndpointView),
}

/// A way between two areas.
#[derive(Debug)]
pub struct Route {
    identity: Identity,
    descriptor: Descriptor,
    endpoints: (Endpoint, Endpoint),
}

impl View for Route {
    type V = RouteView;

    closed spec fn view(&self) -> RouteView {
        RouteView {
            identity: self.identity@,
            descriptor: self.descriptor@,
            endpoints: (self.endpoints.0@, self.endpoints.1@),
        }
    }
}

impl Route {
    /// A route between two endpoints.
    pub fn new(identity: Identity, descriptor: Descriptor, endpoints: (Endpoint, Endpoint)) -> (route:
        Self)
        ensures
            route@ == (RouteView {
                identity: identity@,
                descriptor: descriptor@,
                endpoints: (endpoints.0@, endpoints.1@),
            }),
    {
        Self { identity, descriptor, endpoints }
    }

    /// The two ends of the route.
    pub fn endpoints(&self) -> (endpoints: &(Endpoint, Endpoint))
        ensures
            (endpoints.0@, endpoints.1@) == self@.endpoints,
    {
        &self.endpoints
    }
}

impl Ident for Route {
    open spec fn identity_view(&self) -> IdentityView {
        self@.identity
    }

    fn identity(&self) -> (identity: &Identity) {
        &self.identity
    }
}

impl Descriptive for Route {
    open spec fn descriptor_view(&self) -> DescriptorView {
        self@.descriptor
    }

    fn descriptor(&self) -> (descriptor: &Descriptor) {
        &self.descriptor
    }
}

} // verus!
