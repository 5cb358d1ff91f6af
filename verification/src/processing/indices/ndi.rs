//! Normalized Difference Index: `(A - B) / (A + B)`.

use crate::processing::indices::{bands_aligned, spec_bands_aligned};
use crate::processing::parallel::IndexCalculator;
use crate::processing::tile::Tile;
use vstd::prelude::*;

verus! {

/// Normalized Difference Index calculator.
pub struct NDI {
    band_a_index: usize,
    band_b_index: usize,
    name: String,
}

impl NDI {
    pub closed spec fn spec_band_a_index(&self) -> usize {
        self.band_a_index
    }

    pub closed spec fn spec_band_b_index(&self) -> usize {
        self.band_b_index
    }

    pub closed spec fn spec_label(&self) -> Seq<char> {
        self.name@
    }

    /// The input bands by role: A, then B.
    pub open spec fn spec_roles(&self) -> Seq<usize> {
        seq![self.spec_band_a_index(), self.spec_band_b_index()]
    }

    /// A calculator that takes band A and band B from the
    /// given input positions. Without a name of its own it is called "NDI".
    pub fn new(band_a_index: usize, band_b_index: usize, name: Option<String>) -> (calc: NDI)
        ensures
            calc.spec_band_a_index() == band_a_index,
            calc.spec_band_b_index() == band_b_index,
            calc.spec_label() == match name {
                Some(n) => n@,
                None => "NDI"@,
            },
    {
        let name = match name {
            Some(n) => n,
            None => "NDI".to_owned(),
        };
        NDI { band_a_index, band_b_index, name }
    }

    pub fn band_a_index(&self) -> (i: usize)
        ensures
            i == self.spec_band_a_index(),
    {
        self.band_a_index
    }

    pub fn band_b_index(&self) -> (i: usize)
        ensures
            i == self.spec_band_b_index(),
    {
        self.band_b_index
    }

    /// Whether `calculate` can be applied to these inputs.
    pub fn accepts<T>(&self, inputs: &[Tile<T>]) -> (ok: bool)
        ensures
            ok == spec_bands_aligned(inputs@, self.spec_roles()),
    {
        let roles: [usize; 2] = [self.band_a_index, self.band_b_index];
        assert(roles@ =~= self.spec_roles());
        bands_aligned(inputs, roles.as_slice())
    }

    /// Computes the index tile: sample `i` of the result is what the kernel
    /// makes of sample `i` of band A and sample `i` of band B.
    pub fn calculate<T: Copy, K: Fn(T, T) -> T>(&self, inputs: &[Tile<T>], kernel: &K) -> (out: Tile<T>)
        requires
            spec_bands_aligned(inputs@, self.spec_roles()),
            forall|band_a: T, band_b: T| call_requires(kernel, (band_a, band_b)),
        ensures
            out.spec_shape() == inputs@[self.spec_band_a_index() as int].spec_shape(),
            out@.len() == inputs@[self.spec_band_a_index() as int]@.len(),
            out.is_well_formed(),
            forall|i: int|
                0 <= i < out@.len() ==> call_ensures(
                    kernel,
                    (
                        inputs@[self.spec_band_a_index() as int]@[i],
                        inputs@[self.spec_band_b_index() as int]@[i],
                    ),
                    #[trigger] out@[i],
                ),
    {
        proof {
            let roles = self.spec_roles();
            assert(roles[0] == self.band_a_index && roles[1] == self.band_b_index);
        }
        Tile::zip2(&inputs[self.band_a_index], &inputs[self.band_b_index], kernel)
    }
}

impl IndexCalculator for NDI {
    open spec fn spec_required_bands(&self) -> usize {
        2
    }

    open spec fn spec_name(&self) -> Seq<char> {
        self.spec_label()
    }

    open spec fn spec_needs_input_scaling(&self) -> bool {
        false
    }

    fn required_bands(&self) -> (n: usize)
        ensures
            n == 2,
    {
        2
    }

    fn name(&self) -> (s: &str) {
        self.name.as_str()
    }

    /// A pure ratio: the scale of the inputs cancels out.
    fn needs_input_scaling(&self) -> (b: bool)
        ensures
            !b,
    {
        false
    }
}

} // verus!
