//! Hash-based identities for tracked resources.
//!
//! An [`Id`] folds a human-readable name into a 64-bit value, so that
//! identity comparison is cheap and identity equality follows the name:
//! building an `Id` twice from the same text gives the same value.

use crate::hashing::{spec_str_hash, str_hash};
use vstd::prelude::*;

verus! {

/// The reserved identity of the root of a tree-like resource.
pub const ROOT_ID: u64 = 42;

/// A 64-bit identity, derived from a number or from a name's hash.
#[derive(Clone, Copy, Debug, PartialEq, Eq, Hash, Structural)]
pub struct Id(pub u64);

impl Id {
    /// The semantic id representing the root of a tree-like resource.
    pub fn root() -> (r: Id)
        ensures
            r == Id(ROOT_ID),
    {
        Id(ROOT_ID)
    }
}

impl core::convert::From<u64> for Id {
    /// Wraps a raw 64-bit value as an identity.
    fn from(id: u64) -> (r: Id) {
        Id(id)
    }
}

impl vstd::std_specs::convert::FromSpecImpl<u64> for Id {
    open spec fn obeys_from_spec() -> bool {
        true
    }

    open spec fn from_spec(id: u64) -> Id {
        Id(id)
    }
}

impl<'a> core::convert::From<&'a str> for Id {
    /// Derives an identity from a name by hashing it.
    fn from(id: &'a str) -> (r: Id) {
        Id(str_hash(id))
    }
}

impl<'a> vstd::std_specs::convert::FromSpecImpl<&'a str> for Id {
    open spec fn obeys_from_spec() -> bool {
        true
    }

    open spec fn from_spec(id: &'a str) -> Id {
        Id(spec_str_hash(id@))
    }
}

} // verus!
