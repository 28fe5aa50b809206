//! Types shared by the models of several resource families.

use vstd::prelude::*;
use super::resource::NamedResource;

verus! {

/// The integer type of the models' numeric fields.
pub type Integer = i32;

/// The type of a resource's identifier.
pub type Id = Integer;

/// A name of a resource in one language.
#[derive(Clone, Debug)]
pub struct Name {
    /// The localized name for an API resource in a specific language.
    pub name: String,
    /// The language this name is in.
    pub language: NamedResource,
}

} // verus!
