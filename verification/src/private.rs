//! Sealing of the sample-mode trait.

use vstd::prelude::*;

verus! {

/// Marker that only this crate's sample modes carry.
pub trait Sealed {

}

} // verus!
