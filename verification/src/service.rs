//! What a service tells the partition manager about itself.
use vstd::prelude::*;

verus! {

/// A service's description.
#[derive(Clone, Copy, Debug, PartialEq, Eq, Structural)]
pub struct Info {
    pub version: u32,
}

} // verus!
