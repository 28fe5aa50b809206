//! The root object of one resource family: direct lookup and paginated
//! listing.

use vstd::prelude::*;
use vstd::string::*;
use crate::api::v2::client::{api_locator, paginated_locator, ApiClient, Request};
use crate::api::v2::resource::ApiNamedResourceList;
use crate::error::Result;
use crate::models::v2::resource::NamedResourceList;
use crate::text::{decimal, decimal_text, lemma_decimal_injective};

verus! {

/// The path of one member of `family`, below the root.
pub open spec fn member_path(family: Seq<char>, member: Seq<char>) -> Seq<char> {
    family + "/"@ + member
}

/// A member's locator names the member: below one root and in one
/// family, two members with the same locator are the same member.
pub proof fn lemma_member_locator_injective(
    root: Seq<char>,
    family: Seq<char>,
    a: Seq<char>,
    b: Seq<char>,
)
    requires
        api_locator(root, member_path(family, a)) == api_locator(root, member_path(family, b)),
    ensures
        a == b,
{
    let prefix = root + "/"@ + family + "/"@;
    let la = api_locator(root, member_path(family, a));
    let lb = api_locator(root, member_path(family, b));
    assert(la =~= prefix + a);
    assert(lb =~= prefix + b);
    assert(a.len() == b.len()) by {
        assert(la.len() == prefix.len() + a.len());
        assert(lb.len() == prefix.len() + b.len());
    }
    assert forall|i: int| 0 <= i < a.len() implies a[i] == b[i] by {
        assert(a[i] == (prefix + a)[prefix.len() + i]);
        assert(b[i] == (prefix + b)[prefix.len() + i]);
    }
    assert(a =~= b);
}

/// The locator of a lookup by identifier names the identifier: below
/// one root and in one family, two identifiers with the same locator are
/// equal.
pub proof fn lemma_id_locator_injective(root: Seq<char>, family: Seq<char>, a: nat, b: nat)
    requires
        api_locator(root, member_path(family, decimal(a))) == api_locator(
            root,
            member_path(family, decimal(b)),
        ),
    ensures
        a == b,
{
    lemma_member_locator_injective(root, family, decimal(a), decimal(b));
    lemma_decimal_injective(a, b);
}

/// Access to one resource family.
pub trait ApiEndpoint: Sized {
    /// The type that a member of the family decodes into.
    type Model;

    /// The type of a page of the family's listing.
    type NamedResourceList: ApiNamedResourceList;

    /// The family's path segment.
    spec fn family() -> Seq<char>;

    /// The root of the transport that the endpoint is bound to.
    spec fn transport(&self) -> Seq<char>;

    /// The client that the endpoint is bound to.
    fn client(&self) -> (c: &ApiClient)
        ensures
            c@ == self.transport(),
    ;

    /// The family's path segment, the same for every endpoint of the
    /// family.
    fn name() -> (s: &'static str)
        ensures
            s@ == Self::family(),
    ;

    /// The page of the family that wraps `model`, bound to this
    /// endpoint's transport.
    fn create_named_resource_list(&self, model: NamedResourceList) -> (l: Self::NamedResourceList)
        ensures
            l.page() == model@,
            l.transport() == self.transport(),
    ;

    /// The request for the first page of the family's listing, in the
    /// server's default size.
    fn all(&self) -> (r: Request)
        ensures
            r@ == api_locator(self.transport(), Self::family()),
    {
        self.client().request_api(Self::name())
    }

    /// The request for one window of the family's listing. `offset` and
    /// `limit` go to the server as they are: no bound is checked here.
    fn all_paginated(&self, offset: usize, limit: usize) -> (r: Request)
        ensures
            r@ == paginated_locator(
                self.transport(),
                Self::family(),
                offset as nat,
                limit as nat,
            ),
    {
        self.client().request_api_paginated(Self::name(), offset, limit)
    }

    /// The page that a listing request brought: the failure where the
    /// request failed, else the envelope that came, wrapped.
    fn listing(&self, fetched: Result<NamedResourceList>) -> (r: Result<Self::NamedResourceList>)
        ensures
            match fetched {
                Err(e) => r is Err && r->Err_0 == e,
                Ok(model) => r is Ok && r->Ok_0.page() == model@ && r->Ok_0.transport()
                    == self.transport(),
            },
    {
        match fetched {
            Err(e) => Err(e),
            Ok(model) => Ok(self.create_named_resource_list(model)),
        }
    }

    /// The request for the member with the identifier `id`, written in
    /// decimal below the family's path.
    fn get_by_id(&self, id: usize) -> (r: Request)
        ensures
            r@ == api_locator(self.transport(), member_path(Self::family(), decimal(id as nat))),
    {
        let path = String::from_str(Self::name()).concat("/").concat(decimal_text(id).as_str());
        self.client().request_api(path.as_str())
    }

    /// The request for the member called `name`, below the family's
    /// path.
    fn get_by_name(&self, name: &str) -> (r: Request)
        ensures
            r@ == api_locator(self.transport(), member_path(Self::family(), name@)),
    {
        let path = String::from_str(Self::name()).concat("/").concat(name);
        self.client().request_api(path.as_str())
    }
}

} // verus!
