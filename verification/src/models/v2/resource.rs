//! Point references and page envelopes as the server sends them.

use vstd::prelude::*;

verus! {

/// A reference to one remote object that carries no label.
#[derive(Debug)]
pub struct Resource {
    /// Where the object is fetched from.
    pub url: String,
}

/// What a [`Resource`] holds, as plain text.
pub struct ResourceView {
    pub url: Seq<char>,
}

impl View for Resource {
    type V = ResourceView;

    open spec fn view(&self) -> ResourceView {
        ResourceView { url: self.url@ }
    }
}

impl Clone for Resource {
    fn clone(&self) -> (r: Self)
        ensures
            r@ == self@,
    {
        Resource { url: self.url.clone() }
    }
}

/// A reference to one remote object together with its display name.
#[derive(Debug)]
pub struct NamedResource {
    /// The name of the referenced object.
    pub name: String,
    /// Where the object is fetched from.
    pub url: String,
}

/// What a [`NamedResource`] holds, as plain text.
pub struct NamedResourceView {
    pub name: Seq<char>,
    pub url: Seq<char>,
}

impl View for NamedResource {
    type V = NamedResourceView;

    open spec fn view(&self) -> NamedResourceView {
        NamedResourceView { name: self.name@, url: self.url@ }
    }
}

impl Clone for NamedResource {
    fn clone(&self) -> (r: Self)
        ensures
            r@ == self@,
    {
        NamedResource { name: self.name.clone(), url: self.url.clone() }
    }
}

/// The view of an optional link.
pub open spec fn link_view(link: Option<String>) -> Option<Seq<char>> {
    match link {
        Some(u) => Some(u@),
        None => None,
    }
}

/// Copies an optional link.
pub fn clone_link(link: &Option<String>) -> (r: Option<String>)
    ensures
        link_view(r) == link_view(*link),
{
    match link {
        Some(u) => Some(u.clone()),
        None => None,
    }
}

/// One page of a listing of unnamed references.
#[derive(Debug)]
pub struct ResourceList {
    /// The number of entries in the whole listing, over all its pages.
    pub count: usize,
    /// The page after this one, where there is one.
    pub next: Option<String>,
    /// The page before this one, where there is one.
    pub previous: Option<String>,
    /// The entries of this page, in the server's order.
    pub results: Vec<Resource>,
}

/// What a [`ResourceList`] holds.
pub struct ResourceListView {
    pub count: nat,
    pub next: Option<Seq<char>>,
    pub previous: Option<Seq<char>>,
    pub results: Seq<ResourceView>,
}

impl View for ResourceList {
    type V = ResourceListView;

    open spec fn view(&self) -> ResourceListView {
        ResourceListView {
            count: self.count as nat,
            next: link_view(self.next),
            previous: link_view(self.previous),
            results: self.results@.map_values(|r: Resource| r@),
        }
    }
}

impl Clone for ResourceList {
    fn clone(&self) -> (r: Self)
        ensures
            r@ == self@,
    {
        let mut results: Vec<Resource> = Vec::new();
        let mut i: usize = 0;
        while i < self.results.len()
            invariant
                i <= self.results.len(),
                results.len() == i,
                forall|k: int| 0 <= k < i ==> (#[trigger] results[k])@ == self.results[k]@,
            decreases self.results.len() - i,
        {
            results.push(self.results[i].clone());
            i += 1;
        }
        let r = ResourceList {
            count: self.count,
            next: clone_link(&self.next),
            previous: clone_link(&self.previous),
            results,
        };
        assert(r@.results =~= self@.results);
        r
    }
}

/// One page of a listing of named references.
#[derive(Debug)]
pub struct NamedResourceList {
    /// The number of entries in the whole listing, over all its pages.
    pub count: usize,
    /// The page after this one, where there is one.
    pub next: Option<String>,
    /// The page before this one, where there is one.
    pub previous: Option<String>,
    /// The entries of this page, in the server's order.
    pub results: Vec<NamedResource>,
}

/// What a [`NamedResourceList`] holds.
pub struct NamedResourceListView {
    pub count: nat,
    pub next: Option<Seq<char>>,
    pub previous: Option<Seq<char>>,
    pub results: Seq<NamedResourceView>,
}

impl View for NamedResourceList {
    type V = NamedResourceListView;

    open spec fn view(&self) -> NamedResourceListView {
        NamedResourceListView {
            count: self.count as nat,
            next: link_view(self.next),
            previous: link_view(self.previous),
            results: self.results@.map_values(|r: NamedResource| r@),
        }
    }
}

impl Clone for NamedResourceList {
    fn clone(&self) -> (r: Self)
        ensures
            r@ == self@,
    {
        let mut results: Vec<NamedResource> = Vec::new();
        let mut i: usize = 0;
        while i < self.results.len()
            invariant
                i <= self.results.len(),
                results.len() == i,
                forall|k: int| 0 <= k < i ==> (#[trigger] results[k])@ == self.results[k]@,
            decreases self.results.len() - i,
        {
            results.push(self.results[i].clone());
            i += 1;
        }
        let r = NamedResourceList {
            count: self.count,
            next: clone_link(&self.next),
            previous: clone_link(&self.previous),
            results,
        };
        assert(r@.results =~= self@.results);
        r
    }
}

} // verus!
