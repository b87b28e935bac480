//! A small world model: areas, and the things and characters in them, each made
//! by a builder that reports the fields it misses.

pub mod area;
pub mod builder;
pub mod character;
pub mod component;
pub mod descriptor;
pub mod entity;
pub mod error;
pub mod identity;
pub mod inventory;
pub mod item;
pub mod route;
pub mod something;
pub mod thing;
pub mod world;

pub use area::{Area, AreaBuilder, Exit};
pub use builder::{Builder, BuilderMode, Field, FieldValueType, ModifyResult};
pub use character::{Character, CharacterBuilder};
pub use component::ComponentSlot;
pub use descriptor::{Descriptive, DescriptiveMut, Descriptor, DescriptorBuilder, DescriptorField};
pub use entity::{Entity, EntityBuilder};
pub use error::Error;
pub use identity::{
    Ident, IdentMut, Identity, IdentityBuilder, IdentityField, RegionID, UniverseID, WorldID, ID,
};
pub use inventory::InventorySlot;
pub use item::Item;
pub use route::junction::{Junction, JunctionField};
pub use route::point::Point;
pub use route::{Direction, Endpoint, Route};
pub use something::{Something, Thingy};
pub use thing::{Thing, ThingBuilder};
pub use world::{World, WorldBuilder, WorldField};
