//! Models of the berry families.

use vstd::prelude::*;
use super::common::{Id, Integer, Name};
use super::resource::NamedResource;

verus! {

/// Berries are small fruits that can provide HP and status condition
/// restoration, stat enhancement, and even damage negation when eaten.
#[derive(Clone, Debug)]
pub struct Berry {
    /// The identifier for this resource.
    pub id: Id,
    /// The name for this resource.
    pub name: String,
    /// Time it takes the tree to grow one stage, in hours. Berry trees go
    /// through four of these growth stages before they can be picked.
    pub growth_time: Integer,
    /// The maximum number of these berries that can grow on one tree.
    pub max_harvest: Integer,
    /// The power of the move "Natural Gift" when used with this berry.
    pub natural_gift_power: Integer,
    /// The size of this berry, in millimeters.
    pub size: Integer,
    /// The smoothness of this berry.
    pub smoothness: Integer,
    /// The speed at which this berry dries out the soil as it grows. A
    /// higher rate means the soil dries more quickly.
    pub soil_dryness: Integer,
    /// The firmness of this berry.
    pub firmness: NamedResource,
    /// Each flavor this berry can have, with the potency of that flavor.
    pub flavors: Vec<BerryFlavorMap>,
    /// Berries are items too: the item data for this berry.
    pub item: NamedResource,
    /// The type inherited by "Natural Gift" when used with this berry.
    pub natural_gift_type: NamedResource,
}

/// One flavor of a berry.
#[derive(Clone, Debug)]
pub struct BerryFlavorMap {
    /// How powerful the referenced flavor is for this berry.
    pub potency: Integer,
    /// The referenced berry flavor.
    pub flavor: NamedResource,
}

/// Berries can be soft or hard.
#[derive(Clone, Debug)]
pub struct BerryFirmness {
    /// The identifier for this resource.
    pub id: Id,
    /// The name for this resource.
    pub name: String,
    /// The berries with this firmness.
    pub berries: Vec<NamedResource>,
    /// The name of this resource in different languages.
    pub names: Vec<Name>,
}

/// Flavors determine whether eating a berry benefits or harms, depending
/// on the eater's nature.
#[derive(Clone, Debug)]
pub struct BerryFlavor {
    /// The identifier for this resource.
    pub id: Id,
    /// The name for this resource.
    pub name: String,
    /// The berries with this flavor.
    pub berries: Vec<FlavorBerryMap>,
    /// The contest type that correlates with this berry flavor.
    pub contest_type: NamedResource,
    /// The name of this resource in different languages.
    pub names: Vec<Name>,
}

/// One berry of a flavor.
#[derive(Clone, Debug)]
pub struct FlavorBerryMap {
    /// How powerful the referenced flavor is for this berry.
    pub potency: Integer,
    /// The berry with the referenced flavor.
    pub berry: NamedResource,
}

} // verus!
