//! The kind of system the host runs on.

use vstd::prelude::*;

verus! {

/// Windows, or anything else. Anything else is taken to be like Unix.
#[derive(Clone, Copy, Debug, PartialEq, Eq, Structural)]
pub enum Platform {
    Windows,
    Unix,
}

} // verus!
