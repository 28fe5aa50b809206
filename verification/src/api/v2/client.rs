//! The transport's side of version 2 of the API: which locator each
//! request goes to.

use vstd::prelude::*;
use vstd::string::*;
use crate::api::base::{base_url_text, client_name_text, poke_api_base_url, poke_api_client_name};
use crate::api::v2::berry::BerryEndpoint;
use crate::api::v2::endpoint::ApiEndpoint;
use crate::text::{decimal, decimal_text};

verus! {

/// The text of the version's path segment.
pub open spec fn version_text() -> Seq<char> {
    "v2"@
}

/// The root of version 2 of the API.
pub open spec fn api_root() -> Seq<char> {
    base_url_text() + "/"@ + version_text()
}

/// The locator of `path` below `root`.
pub open spec fn api_locator(root: Seq<char>, path: Seq<char>) -> Seq<char> {
    root + "/"@ + path
}

/// The locator of the window of `path` below `root` that skips `offset`
/// entries and holds at most `limit`.
pub open spec fn paginated_locator(root: Seq<char>, path: Seq<char>, offset: nat, limit: nat) -> Seq<
    char,
> {
    api_locator(root, path) + "?offset="@ + decimal(offset) + "&limit="@ + decimal(limit)
}

/// One GET that is to be issued.
#[derive(Debug)]
pub struct Request {
    /// The absolute locator that the GET goes to.
    pub url: String,
}

impl View for Request {
    type V = Seq<char>;

    open spec fn view(&self) -> Seq<char> {
        self.url@
    }
}

/// Client for version 2 of the API: it knows the root that relative paths
/// are resolved against.
#[derive(Debug)]
pub struct ApiClient {
    /// Root for requesting API resources.
    url: String,
}

impl View for ApiClient {
    type V = Seq<char>;

    closed spec fn view(&self) -> Seq<char> {
        self.url@
    }
}

impl Clone for ApiClient {
    fn clone(&self) -> (r: Self)
        ensures
            r@ == self@,
    {
        ApiClient { url: self.url.clone() }
    }
}

impl ApiClient {
    /// A client for the public API.
    pub fn new() -> (c: ApiClient)
        ensures
            c@ == api_root(),
    {
        let url = String::from_str(poke_api_base_url()).concat("/").concat("v2");
        ApiClient { url }
    }

    /// Access to the berries.
    pub fn berries(&self) -> (e: BerryEndpoint)
        ensures
            e.transport() == self@,
    {
        BerryEndpoint::new(self.clone())
    }

    /// The name that the client sends with every request.
    pub fn agent(&self) -> (s: &'static str)
        ensures
            s@ == client_name_text(),
    {
        poke_api_client_name()
    }

    /// The root that relative paths are resolved against.
    pub fn root(&self) -> (s: String)
        ensures
            s@ == self@,
    {
        self.url.clone()
    }

    /// The request for the resource at `req`, a path below the root.
    pub fn request_api(&self, req: &str) -> (r: Request)
        ensures
            r@ == api_locator(self@, req@),
    {
        Request { url: self.url.clone().concat("/").concat(req) }
    }

    /// The request for one window of the listing at `req`, a path below
    /// the root. `offset` and `limit` are written as they are given.
    pub fn request_api_paginated(&self, req: &str, offset: usize, limit: usize) -> (r: Request)
        ensures
            r@ == paginated_locator(self@, req@, offset as nat, limit as nat),
    {
        let mut url = self.url.clone().concat("/").concat(req);
        url.append("?offset=");
        url.append(decimal_text(offset).as_str());
        url.append("&limit=");
        url.append(decimal_text(limit).as_str());
        Request { url }
    }

    /// The request for an absolute locator, such as a link that the
    /// server sent.
    pub fn request(&self, req: &str) -> (r: Request)
        ensures
            r@ == req@,
    {
        Request { url: String::from_str(req) }
    }
}

} // verus!
