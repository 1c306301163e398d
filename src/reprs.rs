//! The raw data representations that the library holds.
use vstd::prelude::*;
use crate::traits::ColorRepr;

verus! {

/// Three 8-bit lanes.
pub type U8Repr = [u8; 3];

/// Four 8-bit lanes, the last one alpha.
pub type U8aRepr = [u8; 4];

impl ColorRepr for U8Repr {
    type Element = u8;
}

impl ColorRepr for U8aRepr {
    type Element = u8;
}

} // verus!
