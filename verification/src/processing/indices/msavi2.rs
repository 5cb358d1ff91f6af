//! Modified Soil Adjusted Vegetation Index 2: `(2 * NIR + 1 - sqrt((2 * NIR + 1)^2 - 8 * (NIR - RED))) / 2`.

use crate::processing::indices::{bands_aligned, spec_bands_aligned};
use crate::processing::parallel::IndexCalculator;
use crate::processing::tile::Tile;
use vstd::prelude::*;

verus! {

/// Modified Soil Adjusted Vegetation Index 2 calculator.
pub struct MSAVI2 {
    nir_index: usize,
    red_index: usize,
    name: String,
}

impl MSAVI2 {
    pub closed spec fn spec_nir_index(&self) -> usize {
        self.nir_index
    }

    pub closed spec fn spec_red_index(&self) -> usize {
        self.red_index
    }

    pub closed spec fn spec_label(&self) -> Seq<char> {
        self.name@
    }

    /// The input bands by role: near-infrared, then red.
    pub open spec fn spec_roles(&self) -> Seq<usize> {
        seq![self.spec_nir_index(), self.spec_red_index()]
    }

    /// A calculator that takes the near-infrared band and the red band from the
    /// given input positions. Without a name of its own it is called "MSAVI2".
    pub fn new(nir_index: usize, red_index: usize, name: Option<String>) -> (calc: MSAVI2)
        ensures
            calc.spec_nir_index() == nir_index,
            calc.spec_red_index() == red_index,
            calc.spec_label() == match name {
                Some(n) => n@,
                None => "MSAVI2"@,
            },
    {
        let name = match name {
            Some(n) => n,
            None => "MSAVI2".to_owned(),
        };
        MSAVI2 { nir_index, red_index, name }
    }

    pub fn nir_index(&self) -> (i: usize)
        ensures
            i == self.spec_nir_index(),
    {
        self.nir_index
    }

    pub fn red_index(&self) -> (i: usize)
        ensures
            i == self.spec_red_index(),
    {
        self.red_index
    }

    /// Whether `calculate` can be applied to these inputs.
    pub fn accepts<T>(&self, inputs: &[Tile<T>]) -> (ok: bool)
        ensures
            ok == spec_bands_aligned(inputs@, self.spec_roles()),
    {
        let roles: [usize; 2] = [self.nir_index, self.red_index];
        assert(roles@ =~= self.spec_roles());
        bands_aligned(inputs, roles.as_slice())
    }

    /// Computes the index tile: sample `i` of the result is what the kernel
    /// makes of sample `i` of the near-infrared band and sample `i` of the red band.
    pub fn calculate<T: Copy, K: Fn(T, T) -> T>(&self, inputs: &[Tile<T>], kernel: &K) -> (out: Tile<T>)
        requires
            spec_bands_aligned(inputs@, self.spec_roles()),
            forall|nir: T, red: T| call_requires(kernel, (nir, red)),
        ensures
            out.spec_shape() == inputs@[self.spec_nir_index() as int].spec_shape(),
            out@.len() == inputs@[self.spec_nir_index() as int]@.len(),
            out.is_well_formed(),
            forall|i: int|
                0 <= i < out@.len() ==> call_ensures(
                    kernel,
                    (
                        inputs@[self.spec_nir_index() as int]@[i],
                        inputs@[self.spec_red_index() as int]@[i],
                    ),
                    #[trigger] out@[i],
                ),
    {
        proof {
            let roles = self.spec_roles();
            assert(roles[0] == self.nir_index && roles[1] == self.red_index);
        }
        Tile::zip2(&inputs[self.nir_index], &inputs[self.red_index], kernel)
    }
}

impl IndexCalculator for MSAVI2 {
    open spec fn spec_required_bands(&self) -> usize {
        2
    }

    open spec fn spec_name(&self) -> Seq<char> {
        self.spec_label()
    }

    open spec fn spec_needs_input_scaling(&self) -> bool {
        true
    }

    fn required_bands(&self) -> (n: usize)
        ensures
            n == 2,
    {
        2
    }

    fn name(&self) -> (s: &str) {
        self.name.as_str()
    }

    /// The constants 1, 2 and 8 of the formula only fit reflectance values.
    fn needs_input_scaling(&self) -> (b: bool)
        ensures
            b,
    {
        true
    }
}

} // verus!
