//! Bare Soil Index:
//! `((SWIR + RED) - (NIR + BLUE)) / ((SWIR + RED) + (NIR + BLUE))`.

use crate::processing::indices::{bands_aligned, spec_bands_aligned};
use crate::processing::parallel::IndexCalculator;
use crate::processing::tile::Tile;
use vstd::prelude::*;

verus! {

/// Bare Soil Index calculator.
pub struct BSI {
    swir_index: usize,
    red_index: usize,
    nir_index: usize,
    blue_index: usize,
    name: String,
}

impl BSI {
    pub closed spec fn spec_swir_index(&self) -> usize {
        self.swir_index
    }

    pub closed spec fn spec_red_index(&self) -> usize {
        self.red_index
    }

    pub closed spec fn spec_nir_index(&self) -> usize {
        self.nir_index
    }

    pub closed spec fn spec_blue_index(&self) -> usize {
        self.blue_index
    }

    pub closed spec fn spec_label(&self) -> Seq<char> {
        self.name@
    }

    /// The input bands by role: short-wave infrared, red, near-infrared, blue.
    pub open spec fn spec_roles(&self) -> Seq<usize> {
        seq![self.spec_swir_index(), self.spec_red_index(), self.spec_nir_index(), self.spec_blue_index()]
    }

    /// A calculator that takes the short-wave infrared, red, near-infrared
    /// and blue bands from the given input positions. Without a name of its
    /// own it is called "BSI".
    pub fn new(
        swir_index: usize,
        red_index: usize,
        nir_index: usize,
        blue_index: usize,
        name: Option<String>,
    ) -> (calc: BSI)
        ensures
            calc.spec_swir_index() == swir_index,
            calc.spec_red_index() == red_index,
            calc.spec_nir_index() == nir_index,
            calc.spec_blue_index() == blue_index,
            calc.spec_label() == match name {
                Some(n) => n@,
                None => "BSI"@,
            },
    {
        let name = match name {
            Some(n) => n,
            None => "BSI".to_owned(),
        };
        BSI { swir_index, red_index, nir_index, blue_index, name }
    }

    pub fn swir_index(&self) -> (i: usize)
        ensures
            i == self.spec_swir_index(),
    {
        self.swir_index
    }

    pub fn red_index(&self) -> (i: usize)
        ensures
            i == self.spec_red_index(),
    {
        self.red_index
    }

    pub fn nir_index(&self) -> (i: usize)
        ensures
            i == self.spec_nir_index(),
    {
        self.nir_index
    }

    pub fn blue_index(&self) -> (i: usize)
        ensures
            i == self.spec_blue_index(),
    {
        self.blue_index
    }

    /// Whether `calculate` can be applied to these inputs.
    pub fn accepts<T>(&self, inputs: &[Tile<T>]) -> (ok: bool)
        ensures
            ok == spec_bands_aligned(inputs@, self.spec_roles()),
    {
        let roles: [usize; 4] = [self.swir_index, self.red_index, self.nir_index, self.blue_index];
        assert(roles@ =~= self.spec_roles());
        bands_aligned(inputs, roles.as_slice())
    }

    /// Computes the index tile: sample `i` of the result is what the kernel
    /// makes of sample `i` of the short-wave infrared, red, near-infrared
    /// and blue bands.
    pub fn calculate<T: Copy, K: Fn(T, T, T, T) -> T>(&self, inputs: &[Tile<T>], kernel: &K) -> (out: Tile<
        T,
    >)
        requires
            spec_bands_aligned(inputs@, self.spec_roles()),
            forall|swir: T, red: T, nir: T, blue: T| call_requires(kernel, (swir, red, nir, blue)),
        ensures
            out.spec_shape() == inputs@[self.spec_swir_index() as int].spec_shape(),
            out@.len() == inputs@[self.spec_swir_index() as int]@.len(),
            out.is_well_formed(),
            forall|i: int|
                0 <= i < out@.len() ==> call_ensures(
                    kernel,
                    (
                        inputs@[self.spec_swir_index() as int]@[i],
                        inputs@[self.spec_red_index() as int]@[i],
                        inputs@[self.spec_nir_index() as int]@[i],
                        inputs@[self.spec_blue_index() as int]@[i],
                    ),
                    #[trigger] out@[i],
                ),
    {
        proof {
            let roles = self.spec_roles();
            assert(roles[0] == self.swir_index && roles[1] == self.red_index && roles[2]
                == self.nir_index && roles[3] == self.blue_index);
        }
        Tile::zip4(
            &inputs[self.swir_index],
            &inputs[self.red_index],
            &inputs[self.nir_index],
            &inputs[self.blue_index],
            kernel,
        )
    }
}

impl IndexCalculator for BSI {
    open spec fn spec_required_bands(&self) -> usize {
        4
    }

    open spec fn spec_name(&self) -> Seq<char> {
        self.spec_label()
    }

    open spec fn spec_needs_input_scaling(&self) -> bool {
        false
    }

    fn required_bands(&self) -> (n: usize)
        ensures
            n == 4,
    {
        4
    }

    fn name(&self) -> (s: &str) {
        self.name.as_str()
    }

    /// A pure ratio: the scale of the inputs cancels out.
    fn needs_input_scaling(&self) -> (b: bool)
        ensures
            !b,
    {
        false
    }
}

} // verus!
