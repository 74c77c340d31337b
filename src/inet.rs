//! The engine's network address type, held as its text form.

use vstd::prelude::*;

verus! {

/// A network address in the engine's `inet` text form.
#[derive(Debug, Ord, PartialOrd, Eq, PartialEq)]
pub struct Inet(pub String);

impl From<String> for Inet {
    fn from(val: String) -> Inet {
        Inet(val)
    }
}

impl vstd::std_specs::convert::FromSpecImpl<String> for Inet {
    open spec fn obeys_from_spec() -> bool {
        true
    }

    open spec fn from_spec(v: String) -> Inet {
        Inet(v)
    }
}

} // verus!
