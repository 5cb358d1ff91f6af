//! Band tiles: a rectangular buffer of samples with an explicit shape, and the
//! sample-by-sample combination of aligned tiles.

use vstd::prelude::*;

verus! {

/// A two-dimensional buffer of samples of one band, stored row by row.
///
/// The sample type is left open: the tile logic never looks inside a sample.
#[derive(Debug)]
pub struct Tile<T> {
    shape: (usize, usize),
    data: Vec<T>,
}

impl<T> View for Tile<T> {
    type V = Seq<T>;

    /// The samples, row by row.
    closed spec fn view(&self) -> Seq<T> {
        self.data@
    }
}

impl<T> Tile<T> {
    /// A tile holds exactly `width * height` samples.
    #[verifier::type_invariant]
    pub closed spec fn wf(self) -> bool {
        self.data@.len() == self.shape.0 * self.shape.1
    }

    /// Width and height of the tile.
    pub closed spec fn spec_shape(self) -> (usize, usize) {
        self.shape
    }

    /// The tile covers no pixel.
    pub open spec fn spec_is_empty(self) -> bool {
        self.spec_shape().0 == 0 || self.spec_shape().1 == 0
    }

    /// The sample count matches the shape.
    pub open spec fn is_well_formed(self) -> bool {
        self@.len() == self.spec_shape().0 * self.spec_shape().1
    }

    /// Builds a tile from its shape and its samples. The samples must fill the
    /// shape exactly; otherwise there is no such tile.
    pub fn new(shape: (usize, usize), data: Vec<T>) -> (tile: Option<Tile<T>>)
        ensures
            tile is Some <==> data@.len() == shape.0 * shape.1,
            tile matches Some(t) ==> t.spec_shape() == shape && t@ == data@ && t.is_well_formed(),
    {
        let count: usize = data.len();
        match shape.0.checked_mul(shape.1) {
            Some(area) => {
                if area == count {
                    Some(Tile { shape, data })
                } else {
                    None
                }
            },
            None => None,
        }
    }

    /// The tile of a window that lies wholly outside the raster.
    pub fn empty() -> (tile: Tile<T>)
        ensures
            tile.spec_shape() == (0usize, 0usize),
            tile@ == Seq::<T>::empty(),
            tile.spec_is_empty(),
            tile.is_well_formed(),
    {
        Tile { shape: (0, 0), data: Vec::new() }
    }

    pub fn shape(&self) -> (shape: (usize, usize))
        ensures
            shape == self.spec_shape(),
            self.is_well_formed(),
    {
        proof {
            use_type_invariant(self);
        }
        self.shape
    }

    /// The samples, row by row.
    pub fn data(&self) -> (data: &Vec<T>)
        ensures
            data@ == self@,
            self.is_well_formed(),
    {
        proof {
            use_type_invariant(self);
        }
        &self.data
    }

    /// Gives up the tile for its samples.
    pub fn into_data(self) -> (data: Vec<T>)
        ensures
            data@ == self@,
    {
        self.data
    }

    /// Whether the tile covers no pixel.
    pub fn is_empty(&self) -> (e: bool)
        ensures
            e == self.spec_is_empty(),
    {
        self.shape.0 == 0 || self.shape.1 == 0
    }
}

impl<T: Copy> Tile<T> {
    /// Applies `kernel` to every sample of a tile. Sample `i` of the result
    /// is what the kernel makes of sample `i` of the input, so no output
    /// sample depends on a neighbouring pixel.
    pub fn map<U, K: Fn(T) -> U>(&self, kernel: &K) -> (out: Tile<U>)
        requires
            forall|s: T| call_requires(kernel, (s,)),
        ensures
            out.spec_shape() == self.spec_shape(),
            out@.len() == self@.len(),
            out.is_well_formed(),
            forall|i: int| 0 <= i < out@.len() ==> call_ensures(kernel, (self@[i],), #[trigger] out@[i]),
    {
        proof {
            use_type_invariant(self);
        }
        let n: usize = self.data.len();
        let mut data: Vec<U> = Vec::new();
        let mut i: usize = 0;
        while i < n
            invariant
                n == self.data@.len(),
                i <= n,
                data@.len() == i,
                forall|s: T| call_requires(kernel, (s,)),
                forall|j: int| 0 <= j < i ==> call_ensures(kernel, (self.data@[j],), #[trigger] data@[j]),
            decreases n - i,
        {
            data.push(kernel(self.data[i]));
            i += 1;
        }
        Tile { shape: self.shape, data }
    }

    /// Combines two aligned tiles sample by sample.
    pub fn zip2<K: Fn(T, T) -> T>(a: &Tile<T>, b: &Tile<T>, kernel: &K) -> (out: Tile<T>)
        requires
            b.spec_shape() == a.spec_shape(),
            forall|s: T, t: T| call_requires(kernel, (s, t)),
        ensures
            out.spec_shape() == a.spec_shape(),
            out@.len() == a@.len(),
            out.is_well_formed(),
            forall|i: int|
                0 <= i < out@.len() ==> call_ensures(kernel, (a@[i], b@[i]), #[trigger] out@[i]),
    {
        proof {
            use_type_invariant(a);
            use_type_invariant(b);
        }
        let n: usize = a.data.len();
        let mut data: Vec<T> = Vec::new();
        let mut i: usize = 0;
        while i < n
            invariant
                n == a.data@.len(),
                n == b.data@.len(),
                i <= n,
                data@.len() == i,
                forall|s: T, t: T| call_requires(kernel, (s, t)),
                forall|j: int|
                    0 <= j < i ==> call_ensures(kernel, (a.data@[j], b.data@[j]), #[trigger] data@[j]),
            decreases n - i,
        {
            data.push(kernel(a.data[i], b.data[i]));
            i += 1;
        }
        Tile { shape: a.shape, data }
    }

    /// Combines three aligned tiles sample by sample.
    pub fn zip3<K: Fn(T, T, T) -> T>(a: &Tile<T>, b: &Tile<T>, c: &Tile<T>, kernel: &K) -> (out: Tile<T>)
        requires
            b.spec_shape() == a.spec_shape(),
            c.spec_shape() == a.spec_shape(),
            forall|s: T, t: T, u: T| call_requires(kernel, (s, t, u)),
        ensures
            out.spec_shape() == a.spec_shape(),
            out@.len() == a@.len(),
            out.is_well_formed(),
            forall|i: int|
                0 <= i < out@.len() ==> call_ensures(kernel, (a@[i], b@[i], c@[i]), #[trigger] out@[i]),
    {
        proof {
            use_type_invariant(a);
            use_type_invariant(b);
            use_type_invariant(c);
        }
        let n: usize = a.data.len();
        let mut data: Vec<T> = Vec::new();
        let mut i: usize = 0;
        while i < n
            invariant
                n == a.data@.len(),
                n == b.data@.len(),
                n == c.data@.len(),
                i <= n,
                data@.len() == i,
                forall|s: T, t: T, u: T| call_requires(kernel, (s, t, u)),
                forall|j: int|
                    0 <= j < i ==> call_ensures(
                        kernel,
                        (a.data@[j], b.data@[j], c.data@[j]),
                        #[trigger] data@[j],
                    ),
            decreases n - i,
        {
            data.push(kernel(a.data[i], b.data[i], c.data[i]));
            i += 1;
        }
        Tile { shape: a.shape, data }
    }

    /// Combines four aligned tiles sample by sample.
    pub fn zip4<K: Fn(T, T, T, T) -> T>(
        a: &Tile<T>,
        b: &Tile<T>,
        c: &Tile<T>,
        d: &Tile<T>,
        kernel: &K,
    ) -> (out: Tile<T>)
        requires
            b.spec_shape() == a.spec_shape(),
            c.spec_shape() == a.spec_shape(),
            d.spec_shape() == a.spec_shape(),
            forall|s: T, t: T, u: T, v: T| call_requires(kernel, (s, t, u, v)),
        ensures
            out.spec_shape() == a.spec_shape(),
            out@.len() == a@.len(),
            out.is_well_formed(),
            forall|i: int|
                0 <= i < out@.len() ==> call_ensures(
                    kernel,
                    (a@[i], b@[i], c@[i], d@[i]),
                    #[trigger] out@[i],
                ),
    {
        proof {
            use_type_invariant(a);
            use_type_invariant(b);
            use_type_invariant(c);
            use_type_invariant(d);
        }
        let n: usize = a.data.len();
        let mut data: Vec<T> = Vec::new();
        let mut i: usize = 0;
        while i < n
            invariant
                n == a.data@.len(),
                n == b.data@.len(),
                n == c.data@.len(),
                n == d.data@.len(),
                i <= n,
                data@.len() == i,
                forall|s: T, t: T, u: T, v: T| call_requires(kernel, (s, t, u, v)),
                forall|j: int|
                    0 <= j < i ==> call_ensures(
                        kernel,
                        (a.data@[j], b.data@[j], c.data@[j], d.data@[j]),
                        #[trigger] data@[j],
                    ),
            decreases n - i,
        {
            data.push(kernel(a.data[i], b.data[i], c.data[i], d.data[i]));
            i += 1;
        }
        Tile { shape: a.shape, data }
    }
}

} // verus!
