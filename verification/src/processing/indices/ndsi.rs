//! Normalized Difference Snow Index: `(GREEN - SWIR) / (GREEN + SWIR)`.

use crate::processing::indices::{bands_aligned, spec_bands_aligned};
use crate::processing::parallel::IndexCalculator;
use crate::processing::tile::Tile;
use vstd::prelude::*;

verus! {

/// Normalized Difference Snow Index calculator.
pub struct NDSI {
    green_index: usize,
    swir_index: usize,
    name: String,
}

impl NDSI {
    pub closed spec fn spec_green_index(&self) -> usize {
        self.green_index
    }

    pub closed spec fn spec_swir_index(&self) -> usize {
        self.swir_index
    }

    pub closed spec fn spec_label(&self) -> Seq<char> {
        self.name@
    }

    /// The input bands by role: green, then short-wave infrared.
    pub open spec fn spec_roles(&self) -> Seq<usize> {
        seq![self.spec_green_index(), self.spec_swir_index()]
    }

    /// A calculator that takes the green band and the short-wave infrared band from the
    /// given input positions. Without a name of its own it is called "NDSI".
    pub fn new(green_index: usize, swir_index: usize, name: Option<String>) -> (calc: NDSI)
        ensures
            calc.spec_green_index() == green_index,
            calc.spec_swir_index() == swir_index,
            calc.spec_label() == match name {
                Some(n) => n@,
                None => "NDSI"@,
            },
    {
        let name = match name {
            Some(n) => n,
            None => "NDSI".to_owned(),
        };
        NDSI { green_index, swir_index, name }
    }

    pub fn green_index(&self) -> (i: usize)
        ensures
            i == self.spec_green_index(),
    {
        self.green_index
    }

    pub fn swir_index(&self) -> (i: usize)
        ensures
            i == self.spec_swir_index(),
    {
        self.swir_index
    }

    /// Whether `calculate` can be applied to these inputs.
    pub fn accepts<T>(&self, inputs: &[Tile<T>]) -> (ok: bool)
        ensures
            ok == spec_bands_aligned(inputs@, self.spec_roles()),
    {
        let roles: [usize; 2] = [self.green_index, self.swir_index];
        assert(roles@ =~= self.spec_roles());
        bands_aligned(inputs, roles.as_slice())
    }

    /// Computes the index tile: sample `i` of the result is what the kernel
    /// makes of sample `i` of the green band and sample `i` of the short-wave infrared band.
    pub fn calculate<T: Copy, K: Fn(T, T) -> T>(&self, inputs: &[Tile<T>], kernel: &K) -> (out: Tile<T>)
        requires
            spec_bands_aligned(inputs@, self.spec_roles()),
            forall|green: T, swir: T| call_requires(kernel, (green, swir)),
        ensures
            out.spec_shape() == inputs@[self.spec_green_index() as int].spec_shape(),
            out@.len() == inputs@[self.spec_green_index() as int]@.len(),
            out.is_well_formed(),
            forall|i: int|
                0 <= i < out@.len() ==> call_ensures(
                    kernel,
                    (
                        inputs@[self.spec_green_index() as int]@[i],
                        inputs@[self.spec_swir_index() as int]@[i],
                    ),
                    #[trigger] out@[i],
                ),
    {
        proof {
            let roles = self.spec_roles();
            assert(roles[0] == self.green_index && roles[1] == self.swir_index);
        }
        Tile::zip2(&inputs[self.green_index], &inputs[self.swir_index], kernel)
    }
}

impl IndexCalculator for NDSI {
    open spec fn spec_required_bands(&self) -> usize {
        2
    }

    open spec fn spec_name(&self) -> Seq<char> {
        self.spec_label()
    }

    open spec fn spec_needs_input_scaling(&self) -> bool {
        false
    }

    fn required_bands(&self) -> (n: usize)
        ensures
            n == 2,
    {
        2
    }

    fn name(&self) -> (s: &str) {
        self.name.as_str()
    }

    /// A pure ratio: the scale of the inputs cancels out.
    fn needs_input_scaling(&self) -> (b: bool)
        ensures
            !b,
    {
        false
    }
}

} // verus!
