//! Enhanced Vegetation Index:
//! `G * (NIR - RED) / (NIR + C1 * RED - C2 * BLUE + L)`.

use crate::processing::indices::{bands_aligned, spec_bands_aligned};
use crate::processing::parallel::IndexCalculator;
use crate::processing::tile::Tile;
use vstd::prelude::*;

verus! {

/// Enhanced Vegetation Index calculator.
///
/// Where the blue band is saturated the three-band formula breaks down, and
/// a kernel may fall back on a two-band form. Whether it should is a policy
/// of the run, not a physical rule: the calculator carries the choice, which
/// is on unless it is switched off.
pub struct EVI {
    nir_index: usize,
    red_index: usize,
    blue_index: usize,
    blue_fallback: bool,
    name: String,
}

impl EVI {
    pub closed spec fn spec_nir_index(&self) -> usize {
        self.nir_index
    }

    pub closed spec fn spec_red_index(&self) -> usize {
        self.red_index
    }

    pub closed spec fn spec_blue_index(&self) -> usize {
        self.blue_index
    }

    pub closed spec fn spec_blue_fallback(&self) -> bool {
        self.blue_fallback
    }

    pub closed spec fn spec_label(&self) -> Seq<char> {
        self.name@
    }

    /// The input bands by role: near-infrared, red, blue.
    pub open spec fn spec_roles(&self) -> Seq<usize> {
        seq![self.spec_nir_index(), self.spec_red_index(), self.spec_blue_index()]
    }

    /// A calculator that takes the near-infrared, red and blue bands from the
    /// given input positions. Without a name of its own it is called "EVI".
    pub fn new(nir_index: usize, red_index: usize, blue_index: usize, name: Option<String>) -> (calc: EVI)
        ensures
            calc.spec_nir_index() == nir_index,
            calc.spec_red_index() == red_index,
            calc.spec_blue_index() == blue_index,
            calc.spec_blue_fallback(),
            calc.spec_label() == match name {
                Some(n) => n@,
                None => "EVI"@,
            },
    {
        let name = match name {
            Some(n) => n,
            None => "EVI".to_owned(),
        };
        EVI { nir_index, red_index, blue_index, blue_fallback: true, name }
    }

    /// The same calculator with the two-band fallback switched on or off.
    pub fn with_blue_fallback(self, enabled: bool) -> (calc: EVI)
        ensures
            calc.spec_nir_index() == self.spec_nir_index(),
            calc.spec_red_index() == self.spec_red_index(),
            calc.spec_blue_index() == self.spec_blue_index(),
            calc.spec_label() == self.spec_label(),
            calc.spec_blue_fallback() == enabled,
    {
        EVI {
            nir_index: self.nir_index,
            red_index: self.red_index,
            blue_index: self.blue_index,
            blue_fallback: enabled,
            name: self.name,
        }
    }

    pub fn nir_index(&self) -> (i: usize)
        ensures
            i == self.spec_nir_index(),
    {
        self.nir_index
    }

    pub fn red_index(&self) -> (i: usize)
        ensures
            i == self.spec_red_index(),
    {
        self.red_index
    }

    pub fn blue_index(&self) -> (i: usize)
        ensures
            i == self.spec_blue_index(),
    {
        self.blue_index
    }

    /// Whether a kernel may fall back on the two-band form.
    pub fn blue_fallback(&self) -> (enabled: bool)
        ensures
            enabled == self.spec_blue_fallback(),
    {
        self.blue_fallback
    }

    /// Whether `calculate` can be applied to these inputs.
    pub fn accepts<T>(&self, inputs: &[Tile<T>]) -> (ok: bool)
        ensures
            ok == spec_bands_aligned(inputs@, self.spec_roles()),
    {
        let roles: [usize; 3] = [self.nir_index, self.red_index, self.blue_index];
        assert(roles@ =~= self.spec_roles());
        bands_aligned(inputs, roles.as_slice())
    }

    /// Computes the index tile: sample `i` of the result is what the kernel
    /// makes of sample `i` of the near-infrared, red and blue bands.
    pub fn calculate<T: Copy, K: Fn(T, T, T) -> T>(&self, inputs: &[Tile<T>], kernel: &K) -> (out: Tile<T>)
        requires
            spec_bands_aligned(inputs@, self.spec_roles()),
            forall|nir: T, red: T, blue: T| call_requires(kernel, (nir, red, blue)),
        ensures
            out.spec_shape() == inputs@[self.spec_nir_index() as int].spec_shape(),
            out@.len() == inputs@[self.spec_nir_index() as int]@.len(),
            out.is_well_formed(),
            forall|i: int|
                0 <= i < out@.len() ==> call_ensures(
                    kernel,
                    (
                        inputs@[self.spec_nir_index() as int]@[i],
                        inputs@[self.spec_red_index() as int]@[i],
                        inputs@[self.spec_blue_index() as int]@[i],
                    ),
                    #[trigger] out@[i],
                ),
    {
        proof {
            let roles = self.spec_roles();
            assert(roles[0] == self.nir_index && roles[1] == self.red_index && roles[2]
                == self.blue_index);
        }
        Tile::zip3(&inputs[self.nir_index], &inputs[self.red_index], &inputs[self.blue_index], kernel)
    }
}

impl IndexCalculator for EVI {
    open spec fn spec_required_bands(&self) -> usize {
        3
    }

    open spec fn spec_name(&self) -> Seq<char> {
        self.spec_label()
    }

    open spec fn spec_needs_input_scaling(&self) -> bool {
        true
    }

    fn required_bands(&self) -> (n: usize)
        ensures
            n == 3,
    {
        3
    }

    fn name(&self) -> (s: &str) {
        self.name.as_str()
    }

    /// The constants `L`, `C1` and `C2` of the formula only fit reflectance
    /// values.
    fn needs_input_scaling(&self) -> (b: bool)
        ensures
            b,
    {
        true
    }
}

} // verus!
