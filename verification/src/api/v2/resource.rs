//! Handles to single remote objects and to pages of a listing.
//!
//! A handle never fetches by itself. It says which request is to be
//! issued, and a page takes what the request brought and becomes the
//! neighbouring page.

use vstd::prelude::*;
use core::marker::PhantomData;
use crate::api::v2::client::{ApiClient, Request};
use crate::error::Result;
use crate::models::v2::resource::{
    link_view,
    NamedResource,
    NamedResourceList,
    NamedResourceListView,
    Resource,
    ResourceList,
    ResourceListView,
};

verus! {

/// The request, if any, that a page's link asks for.
pub open spec fn link_request(link: Option<Seq<char>>, request: Option<Request>) -> bool {
    match link {
        None => request is None,
        Some(u) => request is Some && request->0@ == u,
    }
}

/// A pointer to one remote object.
pub trait ApiResource {
    /// The type that the remote object decodes into.
    type ResourceType;

    /// The root of the transport that the handle is bound to.
    spec fn transport(&self) -> Seq<char>;

    /// The locator that the handle points to.
    spec fn locator(&self) -> Seq<char>;

    /// The stored locator.
    fn url(&self) -> (s: String)
        ensures
            s@ == self.locator(),
    ;

    /// The request that dereferences the handle: a GET to its locator.
    fn get(&self) -> (r: Request)
        ensures
            r@ == self.locator(),
    ;
}

/// A pointer to one remote object that knows the object's name.
pub trait ApiNamedResource: ApiResource {
    /// The name that the handle carries.
    spec fn label(&self) -> Seq<char>;

    /// The stored name.
    fn name(&self) -> (s: String)
        ensures
            s@ == self.label(),
    ;
}

/// One page of a listing of unnamed references, with the way to its
/// neighbours.
pub trait ApiResourceList: Sized {
    /// The type that an entry's remote object decodes into.
    type ResourceType;

    /// The handle that stands for one entry of the page.
    type Entry: ApiResource;

    /// The root of the transport that the page is bound to.
    spec fn transport(&self) -> Seq<char>;

    /// The envelope that the page wraps.
    spec fn page(&self) -> ResourceListView;

    /// The number of entries in the whole listing.
    fn count(&self) -> (n: usize)
        ensures
            n == self.page().count,
    ;

    /// The request for the page after this one: none on the last page,
    /// else a GET to exactly the envelope's `next` link.
    fn next_list(&self) -> (r: Option<Request>)
        ensures
            link_request(self.page().next, r),
    ;

    /// The request for the page before this one: none on the first page,
    /// else a GET to exactly the envelope's `previous` link.
    fn previous_list(&self) -> (r: Option<Request>)
        ensures
            link_request(self.page().previous, r),
    ;

    /// The neighbouring page, from what its request brought: no page
    /// where no request was due, the failure where the request failed,
    /// else the envelope that came, bound to this page's transport.
    fn adjacent_list(&self, fetched: Option<Result<ResourceList>>) -> (r: Result<Option<Self>>)
        ensures
            match fetched {
                None => r is Ok && r->Ok_0 is None,
                Some(Err(e)) => r is Err && r->Err_0 == e,
                Some(Ok(model)) => r is Ok && r->Ok_0 is Some && r->Ok_0->0.page() == model@
                    && r->Ok_0->0.transport() == self.transport(),
            },
    ;

    /// The entries of the page as handles, in the page's order, each
    /// bound to this page's transport.
    fn resources(&self) -> (v: Vec<Self::Entry>)
        ensures
            v.len() == self.page().results.len(),
            forall|i: int|
                0 <= i < v.len() ==> (#[trigger] v[i]).locator() == self.page().results[i].url,
            forall|i: int| 0 <= i < v.len() ==> (#[trigger] v[i]).transport() == self.transport(),
    ;
}

/// One page of a listing of named references, with the way to its
/// neighbours.
pub trait ApiNamedResourceList: Sized {
    /// The type that an entry's remote object decodes into.
    type ResourceType;

    /// The handle that stands for one entry of the page.
    type Entry: ApiNamedResource;

    /// The root of the transport that the page is bound to.
    spec fn transport(&self) -> Seq<char>;

    /// The envelope that the page wraps.
    spec fn page(&self) -> NamedResourceListView;

    /// The number of entries in the whole listing.
    fn count(&self) -> (n: usize)
        ensures
            n == self.page().count,
    ;

    /// The request for the page after this one: none on the last page,
    /// else a GET to exactly the envelope's `next` link.
    fn next_list(&self) -> (r: Option<Request>)
        ensures
            link_request(self.page().next, r),
    ;

    /// The request for the page before this one: none on the first page,
    /// else a GET to exactly the envelope's `previous` link.
    fn previous_list(&self) -> (r: Option<Request>)
        ensures
            link_request(self.page().previous, r),
    ;

    /// The neighbouring page, from what its request brought: no page
    /// where no request was due, the failure where the request failed,
    /// else the envelope that came, bound to this page's transport.
    fn adjacent_list(&self, fetched: Option<Result<NamedResourceList>>) -> (r: Result<
        Option<Self>,
    >)
        ensures
            match fetched {
                None => r is Ok && r->Ok_0 is None,
                Some(Err(e)) => r is Err && r->Err_0 == e,
                Some(Ok(model)) => r is Ok && r->Ok_0 is Some && r->Ok_0->0.page() == model@
                    && r->Ok_0->0.transport() == self.transport(),
            },
    ;

    /// The entries of the page as handles, in the page's order, each
    /// bound to this page's transport.
    fn resources(&self) -> (v: Vec<Self::Entry>)
        ensures
            v.len() == self.page().results.len(),
            forall|i: int|
                0 <= i < v.len() ==> (#[trigger] v[i]).label() == self.page().results[i].name,
            forall|i: int|
                0 <= i < v.len() ==> (#[trigger] v[i]).locator() == self.page().results[i].url,
            forall|i: int| 0 <= i < v.len() ==> (#[trigger] v[i]).transport() == self.transport(),
    ;
}

/// The request that a stored link asks for.
fn link_to_request(client: &ApiClient, link: &Option<String>) -> (r: Option<Request>)
    ensures
        link_request(link_view(*link), r),
{
    match link {
        None => None,
        Some(url) => Some(client.request(url.as_str())),
    }
}

/// A handle to one remote object of type `T`, from an unnamed reference.
pub struct ResourceHandle<T> {
    client: ApiClient,
    resource: Resource,
    model: PhantomData<T>,
}

impl<T> ResourceHandle<T> {
    /// The handle for `resource`, bound to `client`.
    pub fn new(client: ApiClient, resource: Resource) -> (h: Self)
        ensures
            h.transport() == client@,
            h.locator() == resource@.url,
    {
        ResourceHandle { client, resource, model: PhantomData }
    }
}

impl<T> Clone for ResourceHandle<T> {
    fn clone(&self) -> (h: Self)
        ensures
            h.transport() == self.transport(),
            h.locator() == self.locator(),
    {
        ResourceHandle {
            client: self.client.clone(),
            resource: self.resource.clone(),
            model: PhantomData,
        }
    }
}

impl<T> ApiResource for ResourceHandle<T> {
    type ResourceType = T;

    closed spec fn transport(&self) -> Seq<char> {
        self.client@
    }

    closed spec fn locator(&self) -> Seq<char> {
        self.resource@.url
    }

    fn url(&self) -> (s: String) {
        self.resource.url.clone()
    }

    fn get(&self) -> (r: Request) {
        self.client.request(self.resource.url.as_str())
    }
}

/// A handle to one remote object of type `T`, from a named reference.
pub struct NamedResourceHandle<T> {
    client: ApiClient,
    resource: NamedResource,
    model: PhantomData<T>,
}

impl<T> NamedResourceHandle<T> {
    /// The handle for `resource`, bound to `client`.
    pub fn new(client: ApiClient, resource: NamedResource) -> (h: Self)
        ensures
            h.transport() == client@,
            h.locator() == resource@.url,
            h.label() == resource@.name,
    {
        NamedResourceHandle { client, resource, model: PhantomData }
    }
}

impl<T> Clone for NamedResourceHandle<T> {
    fn clone(&self) -> (h: Self)
        ensures
            h.transport() == self.transport(),
            h.locator() == self.locator(),
            h.label() == self.label(),
    {
        NamedResourceHandle {
            client: self.client.clone(),
            resource: self.resource.clone(),
            model: PhantomData,
        }
    }
}

impl<T> ApiResource for NamedResourceHandle<T> {
    type ResourceType = T;

    closed spec fn transport(&self) -> Seq<char> {
        self.client@
    }

    closed spec fn locator(&self) -> Seq<char> {
        self.resource@.url
    }

    fn url(&self) -> (s: String) {
        self.resource.url.clone()
    }

    fn get(&self) -> (r: Request) {
        self.client.request(self.resource.url.as_str())
    }
}

impl<T> ApiNamedResource for NamedResourceHandle<T> {
    closed spec fn label(&self) -> Seq<char> {
        self.resource@.name
    }

    fn name(&self) -> (s: String) {
        self.resource.name.clone()
    }
}

/// A page of unnamed references to objects of type `T`.
pub struct ResourceListHandle<T> {
    client: ApiClient,
    resource_list: ResourceList,
    model: PhantomData<T>,
}

impl<T> ResourceListHandle<T> {
    /// The page that wraps `resource_list`, bound to `client`.
    pub fn new(client: ApiClient, resource_list: ResourceList) -> (l: Self)
        ensures
            l.transport() == client@,
            l.page() == resource_list@,
    {
        ResourceListHandle { client, resource_list, model: PhantomData }
    }
}

impl<T> ApiResourceList for ResourceListHandle<T> {
    type ResourceType = T;

    type Entry = ResourceHandle<T>;

    closed spec fn transport(&self) -> Seq<char> {
        self.client@
    }

    closed spec fn page(&self) -> ResourceListView {
        self.resource_list@
    }

    fn count(&self) -> (n: usize) {
        self.resource_list.count
    }

    fn next_list(&self) -> (r: Option<Request>) {
        link_to_request(&self.client, &self.resource_list.next)
    }

    fn previous_list(&self) -> (r: Option<Request>) {
        link_to_request(&self.client, &self.resource_list.previous)
    }

    fn adjacent_list(&self, fetched: Option<Result<ResourceList>>) -> (r: Result<Option<Self>>) {
        match fetched {
            None => Ok(None),
            Some(Err(e)) => Err(e),
            Some(Ok(model)) => Ok(Some(Self::new(self.client.clone(), model))),
        }
    }

    fn resources(&self) -> (v: Vec<Self::Entry>) {
        let mut resources: Vec<ResourceHandle<T>> = Vec::new();
        let mut i: usize = 0;
        while i < self.resource_list.results.len()
            invariant
                i <= self.resource_list.results.len(),
                resources.len() == i,
                forall|k: int|
                    0 <= k < i ==> (#[trigger] resources[k]).locator()
                        == self.resource_list.results[k]@.url,
                forall|k: int| 0 <= k < i ==> (#[trigger] resources[k]).transport() == self.client@,
            decreases self.resource_list.results.len() - i,
        {
            resources.push(
                ResourceHandle::new(self.client.clone(), self.resource_list.results[i].clone()),
            );
            i += 1;
        }
        resources
    }
}

/// A page of named references to objects of type `T`.
pub struct NamedResourceListHandle<T> {
    client: ApiClient,
    resource_list: NamedResourceList,
    model: PhantomData<T>,
}

impl<T> NamedResourceListHandle<T> {
    /// The page that wraps `resource_list`, bound to `client`.
    pub fn new(client: ApiClient, resource_list: NamedResourceList) -> (l: Self)
        ensures
            l.transport() == client@,
            l.page() == resource_list@,
    {
        NamedResourceListHandle { client, resource_list, model: PhantomData }
    }
}

impl<T> ApiNamedResourceList for NamedResourceListHandle<T> {
    type ResourceType = T;

    type Entry = NamedResourceHandle<T>;

    closed spec fn transport(&self) -> Seq<char> {
        self.client@
    }

    closed spec fn page(&self) -> NamedResourceListView {
        self.resource_list@
    }

    fn count(&self) -> (n: usize) {
        self.resource_list.count
    }

    fn next_list(&self) -> (r: Option<Request>) {
        link_to_request(&self.client, &self.resource_list.next)
    }

    fn previous_list(&self) -> (r: Option<Request>) {
        link_to_request(&self.client, &self.resource_list.previous)
    }

    fn adjacent_list(&self, fetched: Option<Result<NamedResourceList>>) -> (r: Result<
        Option<Self>,
    >) {
        match fetched {
            None => Ok(None),
            Some(Err(e)) => Err(e),
            Some(Ok(model)) => Ok(Some(Self::new(self.client.clone(), model))),
        }
    }

    fn resources(&self) -> (v: Vec<Self::Entry>) {
        let mut resources: Vec<NamedResourceHandle<T>> = Vec::new();
        let mut i: usize = 0;
        while i < self.resource_list.results.len()
            invariant
                i <= self.resource_list.results.len(),
                resources.len() == i,
                forall|k: int|
                    0 <= k < i ==> (#[trigger] resources[k]).label()
                        == self.resource_list.results[k]@.name,
                forall|k: int|
                    0 <= k < i ==> (#[trigger] resources[k]).locator()
                        == self.resource_list.results[k]@.url,
                forall|k: int| 0 <= k < i ==> (#[trigger] resources[k]).transport() == self.client@,
            decreases self.resource_list.results.len() - i,
        {
            resources.push(
                NamedResourceHandle::new(self.client.clone(), self.resource_list.results[i].clone()),
            );
            i += 1;
        }
        resources
    }
}

} // verus!
