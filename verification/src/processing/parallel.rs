//! Planning and steering a run.
//!
//! Reading and writing rasters, worker threads and queues are the caller's
//! part. What is decided here is everything between them: whether a run may
//! start, whether the raster is computed in one piece or tile by tile, how
//! the raster is cut into tiles, which read requests a tile position gives
//! rise to, where a computed tile is written, and how a run ends.

use crate::processing::grid::{spec_region_size, spec_tile_window, tile_window, BlockGrid, Window};
use crate::processing::join::BlockReadState;
use crate::processing::options::{spec_creation_options, OutputOptions, PixelFormat};
use crate::processing::tile::Tile;
use crate::utils::cache::RasterCache;
use crate::utils::text::{decimal, spec_decimal, spec_texts, spec_uppercase};
use vstd::prelude::*;
use vstd::string::StringExecFns;

verus! {

/// A raster that is no wider and no higher than this is computed in one
/// piece, without worker threads.
pub const SMALL_RASTER_EDGE: usize = 512;

/// The least number of worker threads that is chosen when none is asked for.
pub const MIN_IO_THREADS: usize = 4;

/// What every index calculator declares about itself.
pub trait IndexCalculator: Send + Sync {
    /// The number of input bands that the formula reads.
    spec fn spec_required_bands(&self) -> usize;

    /// The name under which the result is described.
    spec fn spec_name(&self) -> Seq<char>;

    /// Whether the formula holds constants that only fit reflectance values.
    spec fn spec_needs_input_scaling(&self) -> bool;

    /// The number of input bands that the formula reads.
    fn required_bands(&self) -> (n: usize)
        ensures
            n == self.spec_required_bands(),
    ;

    /// The name of the index.
    fn name(&self) -> (s: &str)
        ensures
            s@ == self.spec_name(),
    ;

    /// Whether the inputs have to be divided by the input scale factor
    /// before the formula is applied. Pure ratios do not need it.
    fn needs_input_scaling(&self) -> (b: bool)
        ensures
            b == self.spec_needs_input_scaling(),
    ;
}

/// Why a run did not start or did not end well.
#[derive(Clone, Copy, Debug, PartialEq, Eq, Structural)]
pub enum ProcessError {
    /// Fewer inputs were given than the calculator reads.
    NotEnoughBands { required: usize, provided: usize },
    /// Worker threads died before the run was over.
    WorkerFailure { failed: usize },
}

impl ProcessError {
    /// The error in words.
    pub open spec fn spec_message(self) -> Seq<char> {
        match self {
            ProcessError::NotEnoughBands { required, provided } =>
                "Not enough input bands provided. Required: "@ + spec_decimal(required as nat)
                    + ", provided: "@ + spec_decimal(provided as nat),
            ProcessError::WorkerFailure { failed } => "Worker threads failed: "@ + spec_decimal(failed as nat),
        }
    }

    pub fn message(&self) -> (text: String)
        ensures
            text@ == self.spec_message(),
    {
        match self {
            ProcessError::NotEnoughBands { required, provided } => {
                let mut text: String = "Not enough input bands provided. Required: ".to_owned();
                let needed = decimal(*required as u64);
                text.append(needed.as_str());
                text.append(", provided: ");
                let given = decimal(*provided as u64);
                text.append(given.as_str());
                text
            },
            ProcessError::WorkerFailure { failed } => {
                let mut text: String = "Worker threads failed: ".to_owned();
                let count = decimal(*failed as u64);
                text.append(count.as_str());
                text
            },
        }
    }
}

/// One unit of work for a reader thread: read band `dataset_idx` at tile
/// position `(x, y)`, as one of the `num_datasets` bands of that position.
#[derive(Clone, Copy, Debug, PartialEq, Eq, Structural)]
pub struct BlockReadRequest {
    pub dataset_idx: usize,
    pub num_datasets: usize,
    pub x: usize,
    pub y: usize,
}

impl BlockReadRequest {
    /// The pixels to read for this request from a band of size `band_size`,
    /// with tiles of size `region_size`. A position that lies wholly outside
    /// the band gives the empty rectangle, for which an empty tile is
    /// recorded and nothing is read.
    pub fn window(&self, region_size: (usize, usize), band_size: (usize, usize)) -> (w: Window)
        ensures
            w == spec_tile_window(self.x as int, self.y as int, region_size, band_size),
            w.within(band_size.0 as int, band_size.1 as int),
    {
        tile_window(self.x, self.y, region_size, band_size)
    }
}

/// The tiling of one run and the shape of its pool of reader threads.
#[derive(Clone, Copy, Debug)]
pub struct ParallelBlockReader {
    grid: BlockGrid,
    band_count: usize,
    workers: usize,
    cached: bool,
}

impl ParallelBlockReader {
    pub closed spec fn spec_grid(self) -> BlockGrid {
        self.grid
    }

    pub closed spec fn spec_band_count(self) -> usize {
        self.band_count
    }

    pub closed spec fn spec_workers(self) -> usize {
        self.workers
    }

    pub closed spec fn spec_cached(self) -> bool {
        self.cached
    }

    /// The reader that `new` or `with_cache` builds for these arguments.
    pub open spec fn describes(
        self,
        band_count: usize,
        threads: usize,
        raster_size: (usize, usize),
        block_size: (usize, usize),
        cached: bool,
    ) -> bool {
        &&& self.spec_grid().describes(raster_size, spec_region_size(block_size, raster_size))
        &&& self.spec_band_count() == band_count
        &&& self.spec_workers() == threads
        &&& self.spec_cached() == cached
    }

    /// A reader over `band_count` band sources with `threads` workers, each
    /// of which holds a handle of its own to every source. The tile size is
    /// taken from the block size that the first source reports.
    pub fn new(band_count: usize, threads: usize, raster_size: (usize, usize), block_size: (usize, usize)) -> (reader:
        ParallelBlockReader)
        ensures
            reader.describes(band_count, threads, raster_size, block_size, false),
    {
        ParallelBlockReader {
            grid: BlockGrid::for_raster(raster_size, block_size),
            band_count,
            workers: threads,
            cached: false,
        }
    }

    /// A reader over `band_count` band sources with `threads` workers that
    /// take their handles from a shared cache.
    pub fn with_cache(
        band_count: usize,
        threads: usize,
        raster_size: (usize, usize),
        block_size: (usize, usize),
    ) -> (reader: ParallelBlockReader)
        ensures
            reader.describes(band_count, threads, raster_size, block_size, true),
    {
        ParallelBlockReader {
            grid: BlockGrid::for_raster(raster_size, block_size),
            band_count,
            workers: threads,
            cached: true,
        }
    }

    /// The tiling of the run.
    pub fn grid(&self) -> (grid: BlockGrid)
        ensures
            grid == self.spec_grid(),
    {
        self.grid
    }

    /// The tile size.
    pub fn region_size(&self) -> (size: (usize, usize))
        ensures
            size == self.spec_grid().spec_region_size(),
    {
        self.grid.region_size()
    }

    /// The number of tiles along each axis.
    pub fn blocks(&self) -> (count: (usize, usize))
        ensures
            count == self.spec_grid().spec_blocks(),
    {
        self.grid.blocks()
    }

    /// The number of band sources.
    pub fn band_count(&self) -> (n: usize)
        ensures
            n == self.spec_band_count(),
    {
        self.band_count
    }

    /// The number of worker threads.
    pub fn workers(&self) -> (n: usize)
        ensures
            n == self.spec_workers(),
    {
        self.workers
    }

    /// Whether the workers take their handles from a shared cache.
    pub fn is_cached(&self) -> (cached: bool)
        ensures
            cached == self.spec_cached(),
    {
        self.cached
    }

    /// Whether a request names one of this reader's band sources.
    pub fn serves(&self, request: &BlockReadRequest) -> (ok: bool)
        ensures
            ok == (request.dataset_idx < self.spec_band_count()),
    {
        request.dataset_idx < self.band_count
    }

    /// The read requests of one tile position: one per band index, in the
    /// order given, all of them to be recorded in the one fresh state that
    /// is returned with them. The state is complete when as many bands have
    /// been recorded as there are band indices.
    pub fn run<T>(&self, block_x: usize, block_y: usize, dataset_indices: &[usize]) -> (submitted: (
        BlockReadState<T>,
        Vec<BlockReadRequest>,
    ))
        ensures
            submitted.0.spec_blocks() == Map::<usize, T>::empty(),
            submitted.0.spec_expected() == dataset_indices@.len(),
            submitted.0.spec_region_size() == self.spec_grid().spec_region_size(),
            submitted.1@.len() == dataset_indices@.len(),
            forall|i: int|
                0 <= i < dataset_indices@.len() ==> #[trigger] submitted.1@[i] == (BlockReadRequest {
                    dataset_idx: dataset_indices@[i],
                    num_datasets: dataset_indices@.len() as usize,
                    x: block_x,
                    y: block_y,
                }),
    {
        let count: usize = dataset_indices.len();
        let state: BlockReadState<T> = BlockReadState::new(count, self.grid.region_size());
        let mut requests: Vec<BlockReadRequest> = Vec::new();
        let mut i: usize = 0;
        while i < count
            invariant
                count == dataset_indices@.len(),
                i <= count,
                requests@.len() == i,
                forall|j: int|
                    0 <= j < i ==> #[trigger] requests@[j] == (BlockReadRequest {
                        dataset_idx: dataset_indices@[j],
                        num_datasets: count,
                        x: block_x,
                        y: block_y,
                    }),
            decreases count - i,
        {
            requests.push(
                BlockReadRequest { dataset_idx: dataset_indices[i], num_datasets: count, x: block_x, y: block_y },
            );
            i += 1;
        }
        (state, requests)
    }

    /// Where the result of tile position `(x, y)` goes in the output: a
    /// rectangle of the result's shape at the tile's pixel offset. A tile
    /// whose offset lies outside the raster is not written.
    pub open spec fn spec_output_window(self, x: int, y: int, shape: (usize, usize)) -> Option<Window> {
        let left = x * self.spec_grid().spec_region_size().0;
        let top = y * self.spec_grid().spec_region_size().1;
        if left < self.spec_grid().spec_raster_size().0 && top < self.spec_grid().spec_raster_size().1 {
            Some(Window { x: left as usize, y: top as usize, width: shape.0, height: shape.1 })
        } else {
            None
        }
    }

    pub fn output_window(&self, x: usize, y: usize, shape: (usize, usize)) -> (target: Option<Window>)
        ensures
            target == self.spec_output_window(x as int, y as int, shape),
    {
        let region = self.grid.region_size();
        let raster = self.grid.raster_size();
        proof {
            assert(x * region.0 >= 0 && y * region.1 >= 0) by (nonlinear_arith)
                requires
                    x >= 0,
                    y >= 0,
                    region.0 >= 0,
                    region.1 >= 0,
            ;
        }
        match (x.checked_mul(region.0), y.checked_mul(region.1)) {
            (Some(left), Some(top)) => {
                if left < raster.0 && top < raster.1 {
                    Some(Window { x: left, y: top, width: shape.0, height: shape.1 })
                } else {
                    None
                }
            },
            _ => None,
        }
    }

    /// A result of the shape of its tile is written exactly over the
    /// pixels that the tile was read from.
    pub proof fn lemma_output_covers_input(self, x: int, y: int)
        requires
            self.spec_grid().is_well_formed(),
            self.spec_grid().has_position(x, y),
        ensures
            self.spec_output_window(
                x,
                y,
                (self.spec_grid().spec_window(x, y).width, self.spec_grid().spec_window(x, y).height),
            ) == Some(self.spec_grid().spec_window(x, y)),
    {
        self.spec_grid().lemma_tiles_inside_raster(x, y);
    }

    /// How the run ends once the request queue is closed and every worker
    /// has been waited for: well if no worker failed, and with the number of
    /// failed workers otherwise.
    pub fn join(self, failed_workers: usize) -> (outcome: Result<(), ProcessError>)
        ensures
            failed_workers == 0 ==> outcome is Ok,
            failed_workers > 0 ==> outcome == Err::<(), ProcessError>(
                ProcessError::WorkerFailure { failed: failed_workers },
            ),
    {
        if failed_workers == 0 {
            Ok(())
        } else {
            Err(ProcessError::WorkerFailure { failed: failed_workers })
        }
    }
}

/// No tile of the bundle is without pixels.
pub open spec fn spec_bundle_usable<T>(inputs: Seq<Tile<T>>) -> bool {
    forall|i: int| 0 <= i < inputs.len() ==> !(#[trigger] inputs[i]).spec_is_empty()
}

/// Whether a completed bundle is computed at all. A bundle with a tile
/// without pixels, as positions at the raster's edge may give, is skipped.
pub fn bundle_usable<T>(inputs: &[Tile<T>]) -> (usable: bool)
    ensures
        usable == spec_bundle_usable(inputs@),
{
    let n: usize = inputs.len();
    let mut i: usize = 0;
    while i < n
        invariant
            n == inputs@.len(),
            i <= n,
            forall|j: int| 0 <= j < i ==> !(#[trigger] inputs@[j]).spec_is_empty(),
        decreases n - i,
    {
        if inputs[i].is_empty() {
            return false;
        }
        i += 1;
    }
    true
}

/// How the raster of a run is computed.
#[derive(Clone, Copy, Debug)]
pub enum RunMode {
    /// In one piece: every band is read whole, the index is computed once
    /// and written once.
    Small { window: Window },
    /// Tile by tile, with a pool of reader threads.
    Tiled { reader: ParallelBlockReader },
}

/// Everything that is settled about a run before the first pixel is read.
#[derive(Debug)]
pub struct RunPlan {
    /// In one piece or tile by tile.
    pub mode: RunMode,
    /// The pixel representation of the output.
    pub format: PixelFormat,
    /// The options under which the output raster is created.
    pub creation_options: Vec<String>,
    /// The description of the output band.
    pub description: String,
    /// Whether every input sample is divided by the input scale factor
    /// before the index is computed.
    pub scale_inputs: bool,
    /// The bands that are read for every tile position: all the inputs.
    pub band_indices: Vec<usize>,
}

/// The number of worker threads of a processor: the number asked for, or
/// else the parallelism that the machine offers and at least
/// `MIN_IO_THREADS`.
pub open spec fn spec_io_threads(requested: Option<usize>, available: Option<usize>) -> usize {
    match requested {
        Some(n) => n,
        None => match available {
            Some(a) => if a >= MIN_IO_THREADS {
                a
            } else {
                MIN_IO_THREADS
            },
            None => MIN_IO_THREADS,
        },
    }
}

/// Which mode a raster of the given size is computed in.
pub open spec fn spec_is_small(raster_size: (usize, usize)) -> bool {
    raster_size.0 <= SMALL_RASTER_EDGE && raster_size.1 <= SMALL_RASTER_EDGE
}

/// The band indices `0, 1, .., count - 1`.
pub open spec fn spec_all_bands(count: usize) -> Seq<usize> {
    Seq::new(count as nat, |i: int| i as usize)
}

fn io_threads_for(requested: Option<usize>, available: Option<usize>) -> (n: usize)
    ensures
        n == spec_io_threads(requested, available),
{
    match requested {
        Some(n) => n,
        None => match available {
            Some(a) => if a >= MIN_IO_THREADS {
                a
            } else {
                MIN_IO_THREADS
            },
            None => MIN_IO_THREADS,
        },
    }
}

fn all_bands(count: usize) -> (bands: Vec<usize>)
    ensures
        bands@ == spec_all_bands(count),
{
    let mut bands: Vec<usize> = Vec::new();
    let mut i: usize = 0;
    while i < count
        invariant
            i <= count,
            bands@.len() == i,
            forall|j: int| 0 <= j < i ==> #[trigger] bands@[j] == j as usize,
        decreases count - i,
    {
        bands.push(i);
        i += 1;
    }
    assert(bands@ =~= spec_all_bands(count));
    bands
}

/// Steers the computation of one index raster. `C` is the handle of the
/// dataset cache that the processor shares with others, if it has one.
#[derive(Debug)]
pub struct ParallelProcessor<C> {
    io_threads: usize,
    cache: Option<C>,
}

impl ParallelProcessor<()> {
    /// A processor without a cache. `io_threads` is the number of worker
    /// threads asked for, `available` the parallelism that the machine
    /// reports, if it reports any.
    pub fn new(io_threads: Option<usize>, available: Option<usize>) -> (processor: ParallelProcessor<()>)
        ensures
            processor.spec_io_threads() == spec_io_threads(io_threads, available),
            processor.spec_cache() is None,
    {
        ParallelProcessor { io_threads: io_threads_for(io_threads, available), cache: None }
    }
}

impl<C> ParallelProcessor<C> {
    pub closed spec fn spec_io_threads(self) -> usize {
        self.io_threads
    }

    pub closed spec fn spec_cache(self) -> Option<C> {
        self.cache
    }

    /// A processor whose readers take their handles from `cache`.
    pub fn with_cache(io_threads: Option<usize>, available: Option<usize>, cache: C) -> (processor:
        ParallelProcessor<C>)
        ensures
            processor.spec_io_threads() == spec_io_threads(io_threads, available),
            processor.spec_cache() == Some(cache),
    {
        ParallelProcessor { io_threads: io_threads_for(io_threads, available), cache: Some(cache) }
    }

    /// The number of worker threads of a tiled run.
    pub fn io_threads(&self) -> (n: usize)
        ensures
            n == self.spec_io_threads(),
    {
        self.io_threads
    }

    /// The cache, if the processor has one.
    pub fn cache(&self) -> (cache: Option<&C>)
        ensures
            cache is Some <==> self.spec_cache() is Some,
            cache matches Some(c) ==> *c == self.spec_cache()->0,
    {
        match &self.cache {
            Some(c) => Some(c),
            None => None,
        }
    }

    /// Whether a run may start: it may not when fewer inputs are given than
    /// the calculator reads. This is settled before any input is opened.
    pub fn check_inputs<I: IndexCalculator>(calculator: &I, input_count: usize) -> (checked: Result<
        (),
        ProcessError,
    >)
        ensures
            input_count >= calculator.spec_required_bands() ==> checked is Ok,
            input_count < calculator.spec_required_bands() ==> checked == Err::<(), ProcessError>(
                ProcessError::NotEnoughBands {
                    required: calculator.spec_required_bands(),
                    provided: input_count,
                },
            ),
    {
        let required: usize = calculator.required_bands();
        if input_count < required {
            Err(ProcessError::NotEnoughBands { required, provided: input_count })
        } else {
            Ok(())
        }
    }

    /// What this processor plans for a run that is not refused.
    pub open spec fn plans<I: IndexCalculator>(
        self,
        plan: RunPlan,
        calculator: &I,
        input_count: usize,
        raster_size: (usize, usize),
        block_size: (usize, usize),
        options: &OutputOptions,
        rescale_requested: bool,
    ) -> bool {
        &&& match plan.mode {
            RunMode::Small { window } => spec_is_small(raster_size) && window == Window {
                x: 0,
                y: 0,
                width: raster_size.0,
                height: raster_size.1,
            },
            RunMode::Tiled { reader } => !spec_is_small(raster_size) && reader.describes(
                input_count,
                self.spec_io_threads(),
                raster_size,
                block_size,
                self.spec_cache() is Some,
            ),
        }
        &&& plan.format == PixelFormat::spec_select(options.use_fixed_point, options.scale_factor)
        &&& spec_texts(plan.creation_options@) == spec_creation_options(
            spec_uppercase(options.compress@),
            options.compress_level,
            options.tiled,
        )
        &&& plan.description@ == plan.format.spec_description(calculator.spec_name())
        &&& plan.scale_inputs == (calculator.spec_needs_input_scaling() && rescale_requested)
        &&& plan.band_indices@ == spec_all_bands(input_count)
    }

    /// Plans the computation of an index raster.
    ///
    /// `input_count` is the number of input bands given, `raster_size` and
    /// `block_size` are what the first input reports, and
    /// `rescale_requested` says whether an input scale factor other than one
    /// was configured. The run is refused when too few inputs are given. A
    /// raster of at most `SMALL_RASTER_EDGE` pixels each way is computed in
    /// one piece, a larger one tile by tile.
    pub fn process<I: IndexCalculator>(
        &self,
        calculator: &I,
        input_count: usize,
        raster_size: (usize, usize),
        block_size: (usize, usize),
        options: &OutputOptions,
        rescale_requested: bool,
    ) -> (planned: Result<RunPlan, ProcessError>)
        ensures
            match planned {
                Ok(plan) => input_count >= calculator.spec_required_bands() && self.plans(
                    plan,
                    calculator,
                    input_count,
                    raster_size,
                    block_size,
                    options,
                    rescale_requested,
                ),
                Err(e) => input_count < calculator.spec_required_bands() && e
                    == (ProcessError::NotEnoughBands {
                    required: calculator.spec_required_bands(),
                    provided: input_count,
                }),
            },
    {
        let required: usize = calculator.required_bands();
        if input_count < required {
            return Err(ProcessError::NotEnoughBands { required, provided: input_count });
        }
        let mode = if raster_size.0 <= SMALL_RASTER_EDGE && raster_size.1 <= SMALL_RASTER_EDGE {
            RunMode::Small { window: Window { x: 0, y: 0, width: raster_size.0, height: raster_size.1 } }
        } else if self.cache.is_some() {
            RunMode::Tiled {
                reader: ParallelBlockReader::with_cache(input_count, self.io_threads, raster_size, block_size),
            }
        } else {
            RunMode::Tiled {
                reader: ParallelBlockReader::new(input_count, self.io_threads, raster_size, block_size),
            }
        };
        let format = options.format();
        let description = format.description(calculator.name());
        let scale_inputs = calculator.needs_input_scaling() && rescale_requested;
        Ok(
            RunPlan {
                mode,
                format,
                creation_options: options.creation_options(),
                description,
                scale_inputs,
                band_indices: all_bands(input_count),
            },
        )
    }
}

impl<H> ParallelProcessor<RasterCache<H>> {
    /// The number of sources in the processor's cache; none without a cache.
    pub fn cache_size(&self) -> (n: usize)
        requires
            self.spec_cache() matches Some(c) ==> c.is_well_formed(),
        ensures
            n == match self.spec_cache() {
                Some(c) => c@.len(),
                None => 0,
            },
    {
        match &self.cache {
            Some(cache) => cache.len(),
            None => 0,
        }
    }

    /// Empties the processor's cache, if it has one.
    pub fn clear_cache(&mut self)
        ensures
            final(self).spec_io_threads() == old(self).spec_io_threads(),
            match old(self).spec_cache() {
                Some(c) => final(self).spec_cache() matches Some(d) && d@ == Map::<Seq<char>, H>::empty()
                    && d.is_well_formed(),
                None => final(self).spec_cache() is None,
            },
    {
        match &mut self.cache {
            Some(cache) => {
                cache.clear();
            },
            None => {},
        }
    }
}

} // verus!
