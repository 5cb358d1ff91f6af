//! The index calculators, one per formula.
//!
//! A calculator knows which input band plays which role in its formula, how
//! many bands it needs, what it is called, and whether its inputs have to be
//! brought to reflectance scale first. It combines its bands sample by
//! sample; the arithmetic on one sample is handed to it as a kernel.

use crate::processing::tile::Tile;
use vstd::prelude::*;

pub mod bsi;
pub mod evi;
pub mod msavi2;
pub mod ndi;
pub mod ndsi;
pub mod ndwi;
pub mod osavi;
pub mod savi;

pub use bsi::BSI;
pub use evi::EVI;
pub use msavi2::MSAVI2;
pub use ndi::NDI;
pub use ndsi::NDSI;
pub use ndwi::NDWI;
pub use osavi::OSAVI;
pub use savi::SAVI;

verus! {

/// The bands that play a role are all present among the inputs and all have
/// the shape of the band of the first role.
pub open spec fn spec_bands_aligned<T>(inputs: Seq<Tile<T>>, roles: Seq<usize>) -> bool {
    forall|r: int|
        0 <= r < roles.len() ==> (#[trigger] roles[r]) < inputs.len() && inputs[roles[r] as int].spec_shape()
            == inputs[roles[0] as int].spec_shape()
}

/// Tests whether the inputs hold an aligned band for every role.
pub fn bands_aligned<T>(inputs: &[Tile<T>], roles: &[usize]) -> (ok: bool)
    ensures
        ok == spec_bands_aligned(inputs@, roles@),
{
    let n: usize = roles.len();
    let mut r: usize = 0;
    while r < n
        invariant
            n == roles@.len(),
            r <= n,
            forall|q: int|
                0 <= q < r ==> (#[trigger] roles@[q]) < inputs@.len() && inputs@[roles@[q] as int].spec_shape()
                    == inputs@[roles@[0] as int].spec_shape(),
        decreases n - r,
    {
        if roles[r] >= inputs.len() {
            return false;
        }
        let first = inputs[roles[0]].shape();
        let shape = inputs[roles[r]].shape();
        if shape.0 != first.0 || shape.1 != first.1 {
            return false;
        }
        r += 1;
    }
    true
}

} // verus!
