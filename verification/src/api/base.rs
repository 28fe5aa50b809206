//! What every version of the API shares: where it lives and how this
//! client names itself to it.

use vstd::prelude::*;

verus! {

/// The text of the API's root, without a version.
pub open spec fn base_url_text() -> Seq<char> {
    "https://pokeapi.co/api"@
}

/// The API's root, without a version.
pub fn poke_api_base_url() -> (s: &'static str)
    ensures
        s@ == base_url_text(),
{
    "https://pokeapi.co/api"
}

/// The text by which this client names itself in each request.
pub open spec fn client_name_text() -> Seq<char> {
    "rs-pokeapi/0.1.0"@
}

/// The name that this client sends as its user agent.
pub fn poke_api_client_name() -> (s: &'static str)
    ensures
        s@ == client_name_text(),
{
    "rs-pokeapi/0.1.0"
}

} // verus!
