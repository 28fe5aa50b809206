//! The berry families.

use vstd::prelude::*;
use crate::api::v2::client::ApiClient;
use crate::api::v2::endpoint::ApiEndpoint;
use crate::api::v2::resource::{
    NamedResourceHandle,
    NamedResourceListHandle,
    ResourceHandle,
    ResourceListHandle,
};
use crate::models::v2::berry::{Berry, BerryFirmness};
use crate::models::v2::resource::NamedResourceList;

verus! {

/// A handle to a berry, from an unnamed reference.
pub type BerryResource = ResourceHandle<Berry>;

/// A handle to a berry, from a named reference.
pub type BerryNamedResource = NamedResourceHandle<Berry>;

/// A page of unnamed references to berries.
pub type BerryResourceList = ResourceListHandle<Berry>;

/// A page of named references to berries.
pub type BerryNamedResourceList = NamedResourceListHandle<Berry>;

/// A handle to a firmness, from an unnamed reference.
pub type BerryFirmnessResource = ResourceHandle<BerryFirmness>;

/// A handle to a firmness, from a named reference.
pub type BerryFirmnessNamedResource = NamedResourceHandle<BerryFirmness>;

/// A page of unnamed references to firmnesses.
pub type BerryFirmnessResourceList = ResourceListHandle<BerryFirmness>;

/// A page of named references to firmnesses.
pub type BerryFirmnessNamedResourceList = NamedResourceListHandle<BerryFirmness>;

/// The endpoint of the berries, at `berry` below the root.
pub struct BerryEndpoint {
    client: ApiClient,
}

impl BerryEndpoint {
    /// The endpoint bound to `client`.
    pub fn new(client: ApiClient) -> (e: Self)
        ensures
            e.transport() == client@,
    {
        BerryEndpoint { client }
    }
}

impl Clone for BerryEndpoint {
    fn clone(&self) -> (e: Self)
        ensures
            e.transport() == self.transport(),
    {
        BerryEndpoint { client: self.client.clone() }
    }
}

impl ApiEndpoint for BerryEndpoint {
    type Model = Berry;

    type NamedResourceList = BerryNamedResourceList;

    open spec fn family() -> Seq<char> {
        "berry"@
    }

    closed spec fn transport(&self) -> Seq<char> {
        self.client@
    }

    fn client(&self) -> (c: &ApiClient) {
        &self.client
    }

    fn name() -> (s: &'static str) {
        "berry"
    }

    fn create_named_resource_list(&self, model: NamedResourceList) -> (l: Self::NamedResourceList) {
        BerryNamedResourceList::new(self.client.clone(), model)
    }
}

/// The endpoint of the berries' firmnesses, at `berry-firmness` below
/// the root.
pub struct BerryFirmnessEndpoint {
    client: ApiClient,
}

impl BerryFirmnessEndpoint {
    /// The endpoint bound to `client`.
    pub fn new(client: ApiClient) -> (e: Self)
        ensures
            e.transport() == client@,
    {
        BerryFirmnessEndpoint { client }
    }
}

impl Clone for BerryFirmnessEndpoint {
    fn clone(&self) -> (e: Self)
        ensures
            e.transport() == self.transport(),
    {
        BerryFirmnessEndpoint { client: self.client.clone() }
    }
}

impl ApiEndpoint for BerryFirmnessEndpoint {
    type Model = BerryFirmness;

    type NamedResourceList = BerryFirmnessNamedResourceList;

    open spec fn family() -> Seq<char> {
        "berry-firmness"@
    }

    closed spec fn transport(&self) -> Seq<char> {
        self.client@
    }

    fn client(&self) -> (c: &ApiClient) {
        &self.client
    }

    fn name() -> (s: &'static str) {
        "berry-firmness"
    }

    fn create_named_resource_list(&self, model: NamedResourceList) -> (l: Self::NamedResourceList) {
        BerryFirmnessNamedResourceList::new(self.client().clone(), model)
    }
}

} // verus!
