//! Batches: several index computations described by one configuration.
//!
//! Reading the configuration and running the computations is the caller's
//! part. Decided here is what each operation of a batch amounts to: which
//! index it names, which inputs it reads in which role, under which output
//! settings it runs, which sources the whole batch reads, and how the
//! outcomes of the operations add up to the outcome of the batch.

use crate::processing::indices::{BSI, EVI, MSAVI2, NDI, NDSI, NDWI, OSAVI, SAVI};
use crate::processing::options::OutputOptions;
use crate::processing::parallel::IndexCalculator;
use crate::utils::text::{decimal, lowercase, same_text, spec_decimal, spec_lowercase, spec_texts};
use vstd::prelude::*;
use vstd::string::StringExecFns;

verus! {

/// The least number of threads that a batch runs with when none is asked for.
pub const MIN_BATCH_THREADS: usize = 4;

/// The codec of an output whose settings name none.
pub fn default_compress() -> (codec: String)
    ensures
        codec@ == "DEFLATE"@,
{
    "DEFLATE".to_owned()
}

/// The compression level of an output whose settings name none.
pub fn default_compress_level() -> (level: u8)
    ensures
        level == 6,
{
    6
}

/// The fixed-point scale factor of an output whose settings name none.
pub fn default_scale_factor() -> (factor: i32)
    ensures
        factor == 10000,
{
    10000
}

/// The value of a switch that is on unless it is switched off.
pub fn default_true() -> (on: bool)
    ensures
        on,
{
    true
}

/// The output settings that hold for every operation that has none of its own.
#[derive(Debug)]
pub struct GlobalParams {
    pub compress: String,
    pub compress_level: u8,
    pub float: bool,
    pub scale_factor: i32,
    pub tiled: bool,
    pub threads: Option<usize>,
}

impl Default for GlobalParams {
    /// The settings of a configuration that has no global section at all:
    /// every field at the zero of its type.
    fn default() -> (params: GlobalParams)
        ensures
            params.compress@ == Seq::<char>::empty(),
            params.compress_level == 0,
            !params.float,
            params.scale_factor == 0,
            !params.tiled,
            params.threads is None,
    {
        GlobalParams {
            compress: String::new(),
            compress_level: 0,
            float: false,
            scale_factor: 0,
            tiled: false,
            threads: None,
        }
    }
}

impl GlobalParams {
    /// The number of threads of the batch: the number asked for, or else
    /// the given share of the machine's processors and at least
    /// `MIN_BATCH_THREADS`.
    pub open spec fn spec_thread_count(self, cpu_share: usize) -> usize {
        match self.threads {
            Some(n) => n,
            None => if cpu_share >= MIN_BATCH_THREADS {
                cpu_share
            } else {
                MIN_BATCH_THREADS
            },
        }
    }

    pub fn thread_count(&self, cpu_share: usize) -> (n: usize)
        ensures
            n == self.spec_thread_count(cpu_share),
    {
        match self.threads {
            Some(n) => n,
            None => if cpu_share >= MIN_BATCH_THREADS {
                cpu_share
            } else {
                MIN_BATCH_THREADS
            },
        }
    }
}

/// The indices that a batch can ask for.
#[derive(Clone, Copy, Debug, PartialEq, Eq, Structural)]
pub enum IndexKind {
    Ndi,
    Evi,
    Savi,
    Ndwi,
    Ndsi,
    Bsi,
    Msavi2,
    Osavi,
}

impl IndexKind {
    /// The index that a name in lower case stands for.
    pub open spec fn spec_from_lowercase(name: Seq<char>) -> Option<IndexKind> {
        if name == "ndi"@ {
            Some(IndexKind::Ndi)
        } else if name == "evi"@ {
            Some(IndexKind::Evi)
        } else if name == "savi"@ {
            Some(IndexKind::Savi)
        } else if name == "ndwi"@ {
            Some(IndexKind::Ndwi)
        } else if name == "ndsi"@ {
            Some(IndexKind::Ndsi)
        } else if name == "bsi"@ {
            Some(IndexKind::Bsi)
        } else if name == "msavi2"@ {
            Some(IndexKind::Msavi2)
        } else if name == "osavi"@ {
            Some(IndexKind::Osavi)
        } else {
            None
        }
    }

    /// The index that an operation type stands for, whatever its case.
    pub open spec fn spec_parse(op_type: Seq<char>) -> Option<IndexKind> {
        IndexKind::spec_from_lowercase(spec_lowercase(op_type))
    }

    /// The name of the index in capitals.
    pub open spec fn spec_label(self) -> Seq<char> {
        match self {
            IndexKind::Ndi => "NDI"@,
            IndexKind::Evi => "EVI"@,
            IndexKind::Savi => "SAVI"@,
            IndexKind::Ndwi => "NDWI"@,
            IndexKind::Ndsi => "NDSI"@,
            IndexKind::Bsi => "BSI"@,
            IndexKind::Msavi2 => "MSAVI2"@,
            IndexKind::Osavi => "OSAVI"@,
        }
    }

    /// Reads an index name that is already in lower case.
    pub fn from_lowercase(name: &str) -> (kind: Option<IndexKind>)
        ensures
            kind == IndexKind::spec_from_lowercase(name@),
    {
        if same_text(name, "ndi") {
            Some(IndexKind::Ndi)
        } else if same_text(name, "evi") {
            Some(IndexKind::Evi)
        } else if same_text(name, "savi") {
            Some(IndexKind::Savi)
        } else if same_text(name, "ndwi") {
            Some(IndexKind::Ndwi)
        } else if same_text(name, "ndsi") {
            Some(IndexKind::Ndsi)
        } else if same_text(name, "bsi") {
            Some(IndexKind::Bsi)
        } else if same_text(name, "msavi2") {
            Some(IndexKind::Msavi2)
        } else if same_text(name, "osavi") {
            Some(IndexKind::Osavi)
        } else {
            None
        }
    }

    /// Reads the type of an operation: its name is brought to lower case and
    /// then read as an index name.
    pub fn parse(op_type: &str) -> (kind: Option<IndexKind>)
        ensures
            kind == IndexKind::spec_parse(op_type@),
    {
        let name = lowercase(op_type);
        IndexKind::from_lowercase(name.as_str())
    }

    pub fn label(&self) -> (text: &'static str)
        ensures
            text@ == self.spec_label(),
    {
        match self {
            IndexKind::Ndi => "NDI",
            IndexKind::Evi => "EVI",
            IndexKind::Savi => "SAVI",
            IndexKind::Ndwi => "NDWI",
            IndexKind::Ndsi => "NDSI",
            IndexKind::Bsi => "BSI",
            IndexKind::Msavi2 => "MSAVI2",
            IndexKind::Osavi => "OSAVI",
        }
    }
}

/// The inputs of an EVI operation: near-infrared, red, blue.
#[derive(Debug)]
pub struct EviParams {
    pub a: String,
    pub b: String,
    pub c: String,
}

/// The inputs of an NDI operation: band A, band B.
#[derive(Debug)]
pub struct NdiParams {
    pub a: String,
    pub b: String,
}

/// The inputs of a SAVI operation, near-infrared and red, and the soil
/// adjustment factor if the operation names one.
#[derive(Debug)]
pub struct SaviParams<F> {
    pub a: String,
    pub b: String,
    pub l: Option<F>,
}

/// The inputs of an NDWI operation: green, near-infrared.
#[derive(Debug)]
pub struct NdwiParams {
    pub a: String,
    pub b: String,
}

/// The inputs of an NDSI operation: green, short-wave infrared.
#[derive(Debug)]
pub struct NdsiParams {
    pub a: String,
    pub b: String,
}

/// The inputs of a BSI operation: short-wave infrared, red, near-infrared,
/// blue.
#[derive(Debug)]
pub struct BsiParams {
    pub s: String,
    pub r: String,
    pub n: String,
    pub b: String,
}

/// The inputs of an MSAVI2 operation: near-infrared, red.
#[derive(Debug)]
pub struct MsaviParams {
    pub a: String,
    pub b: String,
}

/// The inputs of an OSAVI operation: near-infrared, red.
#[derive(Debug)]
pub struct OsaviParams {
    pub a: String,
    pub b: String,
}

/// The parameters of an operation, read according to its type.
#[derive(Debug)]
pub enum IndexParams<F> {
    Ndi(NdiParams),
    Evi(EviParams),
    Savi(SaviParams<F>),
    Ndwi(NdwiParams),
    Ndsi(NdsiParams),
    Bsi(BsiParams),
    Msavi2(MsaviParams),
    Osavi(OsaviParams),
}

impl<F> IndexParams<F> {
    /// The index that the parameters were read for.
    pub open spec fn spec_kind(self) -> IndexKind {
        match self {
            IndexParams::Ndi(_) => IndexKind::Ndi,
            IndexParams::Evi(_) => IndexKind::Evi,
            IndexParams::Savi(_) => IndexKind::Savi,
            IndexParams::Ndwi(_) => IndexKind::Ndwi,
            IndexParams::Ndsi(_) => IndexKind::Ndsi,
            IndexParams::Bsi(_) => IndexKind::Bsi,
            IndexParams::Msavi2(_) => IndexKind::Msavi2,
            IndexParams::Osavi(_) => IndexKind::Osavi,
        }
    }

    /// The input sources in the order of the roles that they play.
    pub open spec fn spec_inputs(self) -> Seq<Seq<char>> {
        match self {
            IndexParams::Ndi(p) => seq![p.a@, p.b@],
            IndexParams::Evi(p) => seq![p.a@, p.b@, p.c@],
            IndexParams::Savi(p) => seq![p.a@, p.b@],
            IndexParams::Ndwi(p) => seq![p.a@, p.b@],
            IndexParams::Ndsi(p) => seq![p.a@, p.b@],
            IndexParams::Bsi(p) => seq![p.s@, p.r@, p.n@, p.b@],
            IndexParams::Msavi2(p) => seq![p.a@, p.b@],
            IndexParams::Osavi(p) => seq![p.a@, p.b@],
        }
    }

    pub fn kind(&self) -> (kind: IndexKind)
        ensures
            kind == self.spec_kind(),
    {
        match self {
            IndexParams::Ndi(_) => IndexKind::Ndi,
            IndexParams::Evi(_) => IndexKind::Evi,
            IndexParams::Savi(_) => IndexKind::Savi,
            IndexParams::Ndwi(_) => IndexKind::Ndwi,
            IndexParams::Ndsi(_) => IndexKind::Ndsi,
            IndexParams::Bsi(_) => IndexKind::Bsi,
            IndexParams::Msavi2(_) => IndexKind::Msavi2,
            IndexParams::Osavi(_) => IndexKind::Osavi,
        }
    }

    pub fn inputs(&self) -> (paths: Vec<String>)
        ensures
            spec_texts(paths@) == self.spec_inputs(),
    {
        let mut paths: Vec<String> = Vec::new();
        match self {
            IndexParams::Ndi(p) => {
                paths.push(p.a.clone());
                paths.push(p.b.clone());
            },
            IndexParams::Evi(p) => {
                paths.push(p.a.clone());
                paths.push(p.b.clone());
                paths.push(p.c.clone());
            },
            IndexParams::Savi(p) => {
                paths.push(p.a.clone());
                paths.push(p.b.clone());
            },
            IndexParams::Ndwi(p) => {
                paths.push(p.a.clone());
                paths.push(p.b.clone());
            },
            IndexParams::Ndsi(p) => {
                paths.push(p.a.clone());
                paths.push(p.b.clone());
            },
            IndexParams::Bsi(p) => {
                paths.push(p.s.clone());
                paths.push(p.r.clone());
                paths.push(p.n.clone());
                paths.push(p.b.clone());
            },
            IndexParams::Msavi2(p) => {
                paths.push(p.a.clone());
                paths.push(p.b.clone());
            },
            IndexParams::Osavi(p) => {
                paths.push(p.a.clone());
                paths.push(p.b.clone());
            },
        }
        assert(spec_texts(paths@) =~= self.spec_inputs());
        paths
    }
}

/// What reading the parameters of an operation gave.
#[derive(Debug)]
pub enum OperationParams<F> {
    /// The parameters, read for the index that the operation names.
    Parsed(IndexParams<F>),
    /// The parameters could not be read; the text says why.
    Malformed(String),
}

/// One operation of a batch.
#[derive(Debug)]
pub struct Operation<F> {
    /// The name of the index, in any case.
    pub op_type: String,
    pub params: OperationParams<F>,
    /// The output raster.
    pub output: String,
    pub float: Option<bool>,
    pub scale_factor: Option<i32>,
    pub compress: Option<String>,
    pub compress_level: Option<u8>,
    pub tiled: Option<bool>,
}

/// A batch: global settings and the operations to run under them.
#[derive(Debug)]
pub struct BatchConfig<F> {
    pub global: GlobalParams,
    pub operations: Vec<Operation<F>>,
}

/// A calculator of any of the indices.
pub enum Calculator<F> {
    Ndi(NDI),
    Evi(EVI),
    Savi(SAVI<F>),
    Ndwi(NDWI),
    Ndsi(NDSI),
    Bsi(BSI),
    Msavi2(MSAVI2),
    Osavi(OSAVI),
}

impl<F> Calculator<F> {
    /// The calculator is the one that a batch builds for these parameters:
    /// it takes its bands from the inputs in the order of their roles,
    /// carries the index's own name, and for SAVI the soil factor that the
    /// parameters name or else the default.
    pub open spec fn built_for(self, params: IndexParams<F>, default_soil_factor: F) -> bool {
        match (self, params) {
            (Calculator::Ndi(c), IndexParams::Ndi(_)) => c.spec_band_a_index() == 0 && c.spec_band_b_index() == 1
                && c.spec_label() == "NDI"@,
            (Calculator::Evi(c), IndexParams::Evi(_)) => c.spec_nir_index() == 0 && c.spec_red_index() == 1
                && c.spec_blue_index() == 2 && c.spec_blue_fallback() && c.spec_label() == "EVI"@,
            (Calculator::Savi(c), IndexParams::Savi(p)) => c.spec_nir_index() == 0 && c.spec_red_index() == 1
                && c.spec_label() == "SAVI"@ && c.spec_soil_factor() == (match p.l {
                Some(l) => l,
                None => default_soil_factor,
            }),
            (Calculator::Ndwi(c), IndexParams::Ndwi(_)) => c.spec_green_index() == 0 && c.spec_nir_index() == 1
                && c.spec_label() == "NDWI"@,
            (Calculator::Ndsi(c), IndexParams::Ndsi(_)) => c.spec_green_index() == 0 && c.spec_swir_index() == 1
                && c.spec_label() == "NDSI"@,
            (Calculator::Bsi(c), IndexParams::Bsi(_)) => c.spec_swir_index() == 0 && c.spec_red_index() == 1
                && c.spec_nir_index() == 2 && c.spec_blue_index() == 3 && c.spec_label() == "BSI"@,
            (Calculator::Msavi2(c), IndexParams::Msavi2(_)) => c.spec_nir_index() == 0 && c.spec_red_index() == 1
                && c.spec_label() == "MSAVI2"@,
            (Calculator::Osavi(c), IndexParams::Osavi(_)) => c.spec_nir_index() == 0 && c.spec_red_index() == 1
                && c.spec_label() == "OSAVI"@,
            _ => false,
        }
    }
}

impl<F: Send + Sync> IndexCalculator for Calculator<F> {
    open spec fn spec_required_bands(&self) -> usize {
        match self {
            Calculator::Ndi(c) => c.spec_required_bands(),
            Calculator::Evi(c) => c.spec_required_bands(),
            Calculator::Savi(c) => c.spec_required_bands(),
            Calculator::Ndwi(c) => c.spec_required_bands(),
            Calculator::Ndsi(c) => c.spec_required_bands(),
            Calculator::Bsi(c) => c.spec_required_bands(),
            Calculator::Msavi2(c) => c.spec_required_bands(),
            Calculator::Osavi(c) => c.spec_required_bands(),
        }
    }

    open spec fn spec_name(&self) -> Seq<char> {
        match self {
            Calculator::Ndi(c) => c.spec_name(),
            Calculator::Evi(c) => c.spec_name(),
            Calculator::Savi(c) => c.spec_name(),
            Calculator::Ndwi(c) => c.spec_name(),
            Calculator::Ndsi(c) => c.spec_name(),
            Calculator::Bsi(c) => c.spec_name(),
            Calculator::Msavi2(c) => c.spec_name(),
            Calculator::Osavi(c) => c.spec_name(),
        }
    }

    open spec fn spec_needs_input_scaling(&self) -> bool {
        match self {
            Calculator::Ndi(c) => c.spec_needs_input_scaling(),
            Calculator::Evi(c) => c.spec_needs_input_scaling(),
            Calculator::Savi(c) => c.spec_needs_input_scaling(),
            Calculator::Ndwi(c) => c.spec_needs_input_scaling(),
            Calculator::Ndsi(c) => c.spec_needs_input_scaling(),
            Calculator::Bsi(c) => c.spec_needs_input_scaling(),
            Calculator::Msavi2(c) => c.spec_needs_input_scaling(),
            Calculator::Osavi(c) => c.spec_needs_input_scaling(),
        }
    }

    fn required_bands(&self) -> (n: usize) {
        match self {
            Calculator::Ndi(c) => c.required_bands(),
            Calculator::Evi(c) => c.required_bands(),
            Calculator::Savi(c) => c.required_bands(),
            Calculator::Ndwi(c) => c.required_bands(),
            Calculator::Ndsi(c) => c.required_bands(),
            Calculator::Bsi(c) => c.required_bands(),
            Calculator::Msavi2(c) => c.required_bands(),
            Calculator::Osavi(c) => c.required_bands(),
        }
    }

    fn name(&self) -> (s: &str) {
        match self {
            Calculator::Ndi(c) => c.name(),
            Calculator::Evi(c) => c.name(),
            Calculator::Savi(c) => c.name(),
            Calculator::Ndwi(c) => c.name(),
            Calculator::Ndsi(c) => c.name(),
            Calculator::Bsi(c) => c.name(),
            Calculator::Msavi2(c) => c.name(),
            Calculator::Osavi(c) => c.name(),
        }
    }

    fn needs_input_scaling(&self) -> (b: bool) {
        match self {
            Calculator::Ndi(c) => c.needs_input_scaling(),
            Calculator::Evi(c) => c.needs_input_scaling(),
            Calculator::Savi(c) => c.needs_input_scaling(),
            Calculator::Ndwi(c) => c.needs_input_scaling(),
            Calculator::Ndsi(c) => c.needs_input_scaling(),
            Calculator::Bsi(c) => c.needs_input_scaling(),
            Calculator::Msavi2(c) => c.needs_input_scaling(),
            Calculator::Osavi(c) => c.needs_input_scaling(),
        }
    }
}

impl<F: Copy> Calculator<F> {
    /// Builds the calculator for the parameters of an operation.
    pub fn for_params(params: &IndexParams<F>, default_soil_factor: F) -> (calc: Calculator<F>)
        ensures
            calc.built_for(*params, default_soil_factor),
    {
        match params {
            IndexParams::Ndi(_) => Calculator::Ndi(NDI::new(0, 1, None)),
            IndexParams::Evi(_) => Calculator::Evi(EVI::new(0, 1, 2, None)),
            IndexParams::Savi(p) => {
                let l = match p.l {
                    Some(l) => l,
                    None => default_soil_factor,
                };
                Calculator::Savi(SAVI::new(0, 1, l, None))
            },
            IndexParams::Ndwi(_) => Calculator::Ndwi(NDWI::new(0, 1, None)),
            IndexParams::Ndsi(_) => Calculator::Ndsi(NDSI::new(0, 1, None)),
            IndexParams::Bsi(_) => Calculator::Bsi(BSI::new(0, 1, 2, 3, None)),
            IndexParams::Msavi2(_) => Calculator::Msavi2(MSAVI2::new(0, 1, None)),
            IndexParams::Osavi(_) => Calculator::Osavi(OSAVI::new(0, 1, None)),
        }
    }
}

/// Why an operation of a batch failed. Operations are numbered from one.
#[derive(Debug)]
pub enum BatchError {
    /// The operation names no known index.
    UnknownOperation { operation: usize, op_type: String },
    /// The parameters of the operation could not be read.
    MalformedParams { operation: usize, kind: IndexKind, detail: String },
    /// The operation was run and failed.
    Failed { operation: usize, detail: String },
}

impl BatchError {
    /// The number of the operation that failed.
    pub open spec fn spec_operation(self) -> usize {
        match self {
            BatchError::UnknownOperation { operation, .. } => operation,
            BatchError::MalformedParams { operation, .. } => operation,
            BatchError::Failed { operation, .. } => operation,
        }
    }

    /// The error in words.
    pub open spec fn spec_message(self) -> Seq<char> {
        match self {
            BatchError::UnknownOperation { operation, op_type } => "Unknown operation type for operation "@
                + spec_decimal(operation as nat) + ": "@ + op_type@,
            BatchError::MalformedParams { operation, kind, detail } => "Error parsing "@ + kind.spec_label()
                + " params for operation "@ + spec_decimal(operation as nat) + ": "@ + detail@,
            BatchError::Failed { operation, detail } => "Error processing operation "@ + spec_decimal(
                operation as nat,
            ) + ": "@ + detail@,
        }
    }

    pub fn message(&self) -> (text: String)
        ensures
            text@ == self.spec_message(),
    {
        match self {
            BatchError::UnknownOperation { operation, op_type } => {
                let mut text: String = "Unknown operation type for operation ".to_owned();
                let number = decimal(*operation as u64);
                text.append(number.as_str());
                text.append(": ");
                text.append(op_type.as_str());
                text
            },
            BatchError::MalformedParams { operation, kind, detail } => {
                let mut text: String = "Error parsing ".to_owned();
                text.append(kind.label());
                text.append(" params for operation ");
                let number = decimal(*operation as u64);
                text.append(number.as_str());
                text.append(": ");
                text.append(detail.as_str());
                text
            },
            BatchError::Failed { operation, detail } => {
                let mut text: String = "Error processing operation ".to_owned();
                let number = decimal(*operation as u64);
                text.append(number.as_str());
                text.append(": ");
                text.append(detail.as_str());
                text
            },
        }
    }
}

/// One computation of a batch, ready to run.
pub struct Job<F> {
    pub calculator: Calculator<F>,
    /// The input sources in the order of their roles.
    pub inputs: Vec<String>,
    /// The output raster.
    pub output: String,
    /// The output settings: the operation's own where it has them, the
    /// global ones elsewhere.
    pub options: OutputOptions,
}

/// The settings of an operation's output: each of the operation's own
/// settings where it is given, and the global one where it is not. The
/// output is fixed-point unless floating point is asked for.
pub open spec fn spec_resolved<F>(options: OutputOptions, op: Operation<F>, global: GlobalParams) -> bool {
    &&& options.use_fixed_point == !(match op.float {
        Some(f) => f,
        None => global.float,
    })
    &&& options.scale_factor == (match op.scale_factor {
        Some(s) => s,
        None => global.scale_factor,
    })
    &&& options.compress@ == (match op.compress {
        Some(c) => c@,
        None => global.compress@,
    })
    &&& options.compress_level == (match op.compress_level {
        Some(l) => l,
        None => global.compress_level,
    })
    &&& options.tiled == (match op.tiled {
        Some(t) => t,
        None => global.tiled,
    })
}

/// Resolves the output settings of an operation against the global ones.
pub fn resolve_options<F>(op: &Operation<F>, global: &GlobalParams) -> (options: OutputOptions)
    ensures
        spec_resolved(options, *op, *global),
{
    let float: bool = match op.float {
        Some(f) => f,
        None => global.float,
    };
    let scale_factor: i32 = match op.scale_factor {
        Some(s) => s,
        None => global.scale_factor,
    };
    let compress: String = match &op.compress {
        Some(c) => c.clone(),
        None => global.compress.clone(),
    };
    let compress_level: u8 = match op.compress_level {
        Some(l) => l,
        None => global.compress_level,
    };
    let tiled: bool = match op.tiled {
        Some(t) => t,
        None => global.tiled,
    };
    OutputOptions { use_fixed_point: !float, scale_factor, compress, compress_level, tiled }
}

/// What becomes of operation number `index` (counted from zero) of a batch,
/// given the index `kind` that its type was read as.
///
/// An operation of unknown type fails as such, whatever its parameters. One
/// whose parameters could not be read, or were read for another index than
/// its type names, fails with malformed parameters. Every other operation
/// becomes a job.
pub open spec fn spec_planned<F>(
    planned: Result<Job<F>, BatchError>,
    index: usize,
    op: Operation<F>,
    global: GlobalParams,
    default_soil_factor: F,
    kind: Option<IndexKind>,
) -> bool {
    match kind {
        None => planned matches Err(BatchError::UnknownOperation { operation, op_type }) && operation == index
            + 1 && op_type@ == op.op_type@,
        Some(k) => match op.params {
            OperationParams::Parsed(p) => if p.spec_kind() == k {
                planned matches Ok(job) && job.calculator.built_for(p, default_soil_factor) && spec_texts(
                    job.inputs@,
                ) == p.spec_inputs() && job.output@ == op.output@ && spec_resolved(job.options, op, global)
            } else {
                planned matches Err(BatchError::MalformedParams { operation, kind, detail }) && operation
                    == index + 1 && kind == k && detail@ == "parameters do not belong to this operation type"@
            },
            OperationParams::Malformed(why) => planned matches Err(
                BatchError::MalformedParams { operation, kind, detail },
            ) && operation == index + 1 && kind == k && detail@ == why@,
        },
    }
}

/// Plans one operation whose type has already been read as `kind`.
pub fn plan_operation_as<F: Copy>(
    index: usize,
    op: &Operation<F>,
    global: &GlobalParams,
    default_soil_factor: F,
    kind: Option<IndexKind>,
) -> (planned: Result<Job<F>, BatchError>)
    requires
        index < usize::MAX,
    ensures
        spec_planned(planned, index, *op, *global, default_soil_factor, kind),
{
    let operation: usize = index + 1;
    let kind: IndexKind = match kind {
        Some(k) => k,
        None => {
            return Err(BatchError::UnknownOperation { operation, op_type: op.op_type.clone() });
        },
    };
    match &op.params {
        OperationParams::Parsed(p) => {
            if p.kind() == kind {
                Ok(
                    Job {
                        calculator: Calculator::for_params(p, default_soil_factor),
                        inputs: p.inputs(),
                        output: op.output.clone(),
                        options: resolve_options(op, global),
                    },
                )
            } else {
                Err(
                    BatchError::MalformedParams {
                        operation,
                        kind,
                        detail: "parameters do not belong to this operation type".to_owned(),
                    },
                )
            }
        },
        OperationParams::Malformed(why) => Err(
            BatchError::MalformedParams { operation, kind, detail: why.clone() },
        ),
    }
}

/// Plans one operation of a batch: reads its type and then plans it as the
/// index that the type names.
pub fn plan_operation<F: Copy>(
    index: usize,
    op: &Operation<F>,
    global: &GlobalParams,
    default_soil_factor: F,
) -> (planned: Result<Job<F>, BatchError>)
    requires
        index < usize::MAX,
    ensures
        spec_planned(planned, index, *op, *global, default_soil_factor, IndexKind::spec_parse(op.op_type@)),
{
    let kind = IndexKind::parse(op.op_type.as_str());
    plan_operation_as(index, op, global, default_soil_factor, kind)
}

/// Plans every operation of a batch, in order. One operation that cannot be
/// planned does not keep the others from being planned.
pub fn process_batch<F: Copy>(config: &BatchConfig<F>, default_soil_factor: F) -> (planned: Vec<
    Result<Job<F>, BatchError>,
>)
    ensures
        planned@.len() == config.operations@.len(),
        forall|i: int|
            0 <= i < planned@.len() ==> spec_planned(
                #[trigger] planned@[i],
                i as usize,
                config.operations@[i],
                config.global,
                default_soil_factor,
                IndexKind::spec_parse(config.operations@[i].op_type@),
            ),
{
    let count: usize = config.operations.len();
    let mut planned: Vec<Result<Job<F>, BatchError>> = Vec::new();
    let mut i: usize = 0;
    while i < count
        invariant
            count == config.operations@.len(),
            i <= count,
            planned@.len() == i,
            forall|j: int|
                0 <= j < i ==> spec_planned(
                    #[trigger] planned@[j],
                    j as usize,
                    config.operations@[j],
                    config.global,
                    default_soil_factor,
                    IndexKind::spec_parse(config.operations@[j].op_type@),
                ),
        decreases count - i,
    {
        planned.push(plan_operation(i, &config.operations[i], &config.global, default_soil_factor));
        i += 1;
    }
    planned
}

/// The inputs that an operation contributes to the sources of its batch,
/// given the index `kind` that its type was read as: its input sources if it
/// can be planned, and none otherwise.
pub open spec fn spec_operation_inputs<F>(op: Operation<F>, kind: Option<IndexKind>) -> Seq<Seq<char>> {
    match (kind, op.params) {
        (Some(k), OperationParams::Parsed(p)) => if p.spec_kind() == k {
            p.spec_inputs()
        } else {
            Seq::empty()
        },
        _ => Seq::empty(),
    }
}

/// The inputs of the first `n` operations, one operation after the other.
pub open spec fn spec_all_inputs<F>(ops: Seq<Operation<F>>, kinds: Seq<Option<IndexKind>>, n: int) -> Seq<
    Seq<char>,
>
    decreases n,
{
    if n <= 0 {
        Seq::empty()
    } else {
        spec_all_inputs(ops, kinds, n - 1) + spec_operation_inputs(ops[n - 1], kinds[n - 1])
    }
}

/// A list without its repetitions: every text stays where it first occurs.
pub open spec fn spec_unique(paths: Seq<Seq<char>>) -> Seq<Seq<char>>
    decreases paths.len(),
{
    if paths.len() == 0 {
        Seq::empty()
    } else {
        let earlier = spec_unique(paths.drop_last());
        if earlier.contains(paths.last()) {
            earlier
        } else {
            earlier.push(paths.last())
        }
    }
}

proof fn lemma_contains_push(list: Seq<Seq<char>>, last: Seq<char>, p: Seq<char>)
    ensures
        list.push(last).contains(p) <==> list.contains(p) || p == last,
{
    let longer = list.push(last);
    if longer.contains(p) {
        let i = choose|i: int| 0 <= i < longer.len() && longer[i] == p;
        if i < list.len() {
            assert(list[i] == p);
        }
    }
    if list.contains(p) {
        let i = choose|i: int| 0 <= i < list.len() && list[i] == p;
        assert(longer[i] == p);
    }
    if p == last {
        assert(longer[list.len() as int] == p);
    }
}

/// The list without repetitions holds every text of the list, each once,
/// and nothing else.
pub proof fn lemma_unique_paths(paths: Seq<Seq<char>>)
    ensures
        spec_unique(paths).no_duplicates(),
        forall|p: Seq<char>| spec_unique(paths).contains(p) <==> paths.contains(p),
        spec_unique(paths).len() <= paths.len(),
    decreases paths.len(),
{
    if paths.len() > 0 {
        let earlier = paths.drop_last();
        lemma_unique_paths(earlier);
        let kept = spec_unique(earlier);
        let last = paths.last();
        assert(paths =~= earlier.push(last));
        assert forall|p: Seq<char>| spec_unique(paths).contains(p) <==> paths.contains(p) by {
            lemma_contains_push(earlier, last, p);
            lemma_contains_push(kept, last, p);
            assert(kept.contains(p) <==> earlier.contains(p));
            assert(kept.contains(last) <==> earlier.contains(last));
        }
    }
}

fn holds_text(list: &Vec<String>, text: &String) -> (found: bool)
    ensures
        found == spec_texts(list@).contains(text@),
{
    let n: usize = list.len();
    let mut i: usize = 0;
    while i < n
        invariant
            n == list@.len(),
            i <= n,
            forall|j: int| 0 <= j < i ==> spec_texts(list@)[j] != text@,
        decreases n - i,
    {
        if list[i] == *text {
            assert(spec_texts(list@)[i as int] == text@);
            return true;
        }
        i += 1;
    }
    false
}

/// Drops the repetitions from a list of sources.
pub fn unique_paths(paths: &Vec<String>) -> (unique: Vec<String>)
    ensures
        spec_texts(unique@) == spec_unique(spec_texts(paths@)),
{
    let n: usize = paths.len();
    let mut unique: Vec<String> = Vec::new();
    let mut i: usize = 0;
    assert(spec_texts(paths@).take(0) =~= Seq::<Seq<char>>::empty());
    while i < n
        invariant
            n == paths@.len(),
            i <= n,
            spec_texts(unique@) == spec_unique(spec_texts(paths@).take(i as int)),
        decreases n - i,
    {
        proof {
            let upto = spec_texts(paths@).take(i + 1);
            assert(upto.drop_last() =~= spec_texts(paths@).take(i as int));
            assert(upto.last() == paths@[i as int]@);
        }
        if !holds_text(&unique, &paths[i]) {
            let ghost before = spec_texts(unique@);
            unique.push(paths[i].clone());
            assert(spec_texts(unique@) =~= before.push(paths@[i as int]@));
        }
        i += 1;
    }
    assert(spec_texts(paths@).take(n as int) =~= spec_texts(paths@));
    unique
}

/// The index that each operation names, in order.
pub open spec fn spec_operation_kinds<F>(ops: Seq<Operation<F>>) -> Seq<Option<IndexKind>> {
    Seq::new(ops.len(), |i: int| IndexKind::spec_parse(ops[i].op_type@))
}

/// The index that each operation of a batch names, in order.
pub fn operation_kinds<F>(config: &BatchConfig<F>) -> (kinds: Vec<Option<IndexKind>>)
    ensures
        kinds@ == spec_operation_kinds(config.operations@),
{
    let n: usize = config.operations.len();
    let mut kinds: Vec<Option<IndexKind>> = Vec::new();
    let mut i: usize = 0;
    while i < n
        invariant
            n == config.operations@.len(),
            i <= n,
            kinds@.len() == i,
            forall|j: int|
                0 <= j < i ==> #[trigger] kinds@[j] == IndexKind::spec_parse(config.operations@[j].op_type@),
        decreases n - i,
    {
        kinds.push(IndexKind::parse(config.operations[i].op_type.as_str()));
        i += 1;
    }
    assert(kinds@ =~= spec_operation_kinds(config.operations@));
    kinds
}

/// The sources that a batch reads, each once and in the order of first use,
/// given the index that each operation's type was read as. Operations that
/// cannot be planned contribute nothing.
pub fn collect_unique_paths_as<F>(config: &BatchConfig<F>, kinds: &Vec<Option<IndexKind>>) -> (paths: Vec<
    String,
>)
    requires
        kinds@.len() == config.operations@.len(),
    ensures
        spec_texts(paths@) == spec_unique(
            spec_all_inputs(config.operations@, kinds@, config.operations@.len() as int),
        ),
{
    let n: usize = config.operations.len();
    let mut all: Vec<String> = Vec::new();
    let mut i: usize = 0;
    assert(spec_texts(all@) =~= spec_all_inputs(config.operations@, kinds@, 0));
    while i < n
        invariant
            n == config.operations@.len(),
            n == kinds@.len(),
            i <= n,
            spec_texts(all@) == spec_all_inputs(config.operations@, kinds@, i as int),
        decreases n - i,
    {
        let ghost before = spec_texts(all@);
        match (&kinds[i], &config.operations[i].params) {
            (Some(k), OperationParams::Parsed(p)) => {
                if p.kind() == *k {
                    let mut inputs = p.inputs();
                    let ghost added = spec_texts(inputs@);
                    all.append(&mut inputs);
                    assert(spec_texts(all@) =~= before + added);
                }
            },
            _ => {},
        }
        assert(spec_texts(all@) =~= before + spec_operation_inputs(config.operations@[i as int], kinds@[i as int]));
        i += 1;
    }
    unique_paths(&all)
}

/// The sources that a batch reads, each once and in the order of first use.
pub fn collect_unique_paths<F>(config: &BatchConfig<F>) -> (paths: Vec<String>)
    ensures
        spec_texts(paths@) == spec_unique(
            spec_all_inputs(
                config.operations@,
                spec_operation_kinds(config.operations@),
                config.operations@.len() as int,
            ),
        ),
{
    let kinds = operation_kinds(config);
    collect_unique_paths_as(config, &kinds)
}

impl BatchError {
    /// A copy of the error.
    pub fn duplicate(&self) -> (copy: BatchError)
        ensures
            copy == *self,
    {
        match self {
            BatchError::UnknownOperation { operation, op_type } => BatchError::UnknownOperation {
                operation: *operation,
                op_type: op_type.clone(),
            },
            BatchError::MalformedParams { operation, kind, detail } => BatchError::MalformedParams {
                operation: *operation,
                kind: *kind,
                detail: detail.clone(),
            },
            BatchError::Failed { operation, detail } => BatchError::Failed {
                operation: *operation,
                detail: detail.clone(),
            },
        }
    }
}

/// The outcome of running job number `index` (counted from zero) of a
/// batch: a failure is recorded under the operation's number, with the
/// reason that the run gave.
pub fn job_outcome(index: usize, result: Result<(), String>) -> (outcome: Result<(), BatchError>)
    requires
        index < usize::MAX,
    ensures
        match result {
            Ok(_) => outcome is Ok,
            Err(why) => outcome matches Err(BatchError::Failed { operation, detail }) && operation == index + 1
                && detail@ == why@,
        },
{
    match result {
        Ok(_) => Ok(()),
        Err(why) => Err(BatchError::Failed { operation: index + 1, detail: why }),
    }
}

/// The failures among the outcomes of a batch, in the order of the operations.
pub open spec fn spec_failures(outcomes: Seq<Result<(), BatchError>>) -> Seq<BatchError>
    decreases outcomes.len(),
{
    if outcomes.len() == 0 {
        Seq::empty()
    } else {
        let earlier = spec_failures(outcomes.drop_last());
        match outcomes.last() {
            Ok(_) => earlier,
            Err(e) => earlier.push(e),
        }
    }
}

/// A batch has no failure exactly when every one of its operations went well.
pub proof fn lemma_no_failures(outcomes: Seq<Result<(), BatchError>>)
    ensures
        spec_failures(outcomes).len() == 0 <==> (forall|i: int|
            0 <= i < outcomes.len() ==> (#[trigger] outcomes[i]) is Ok),
        spec_failures(outcomes).len() <= outcomes.len(),
    decreases outcomes.len(),
{
    if outcomes.len() > 0 {
        let earlier = outcomes.drop_last();
        lemma_no_failures(earlier);
        if spec_failures(outcomes).len() == 0 {
            assert forall|i: int| 0 <= i < outcomes.len() implies (#[trigger] outcomes[i]) is Ok by {
                if i < outcomes.len() - 1 {
                    assert(earlier[i] is Ok);
                }
            }
        }
        if forall|i: int| 0 <= i < outcomes.len() ==> (#[trigger] outcomes[i]) is Ok {
            assert(outcomes[outcomes.len() - 1] is Ok);
            assert forall|i: int| 0 <= i < earlier.len() implies (#[trigger] earlier[i]) is Ok by {
                assert(outcomes[i] is Ok);
            }
        }
    }
}

/// Why a batch failed: the failures of its operations, all of them.
#[derive(Debug)]
pub struct BatchFailure {
    pub errors: Vec<BatchError>,
}

impl BatchFailure {
    /// The failure of the batch in words. The single failures have their
    /// own messages.
    pub fn message(&self) -> (text: &'static str)
        ensures
            text@ == "Errors occurred during batch processing"@,
    {
        "Errors occurred during batch processing"
    }
}

/// The outcome of a batch: it went well if every operation did. Otherwise
/// it fails with the failures of all its operations, so that one failure
/// does not hide another.
pub fn finish_batch(outcomes: &Vec<Result<(), BatchError>>) -> (outcome: Result<(), BatchFailure>)
    ensures
        match outcome {
            Ok(_) => spec_failures(outcomes@).len() == 0,
            Err(failure) => failure.errors@ == spec_failures(outcomes@) && failure.errors@.len() > 0,
        },
{
    let n: usize = outcomes.len();
    let mut errors: Vec<BatchError> = Vec::new();
    let mut i: usize = 0;
    assert(outcomes@.take(0) =~= Seq::<Result<(), BatchError>>::empty());
    while i < n
        invariant
            n == outcomes@.len(),
            i <= n,
            errors@ == spec_failures(outcomes@.take(i as int)),
        decreases n - i,
    {
        proof {
            let upto = outcomes@.take(i + 1);
            assert(upto.drop_last() =~= outcomes@.take(i as int));
            assert(upto.last() == outcomes@[i as int]);
        }
        match &outcomes[i] {
            Ok(_) => {},
            Err(e) => {
                errors.push(e.duplicate());
            },
        }
        i += 1;
    }
    assert(outcomes@.take(n as int) =~= outcomes@);
    if errors.len() == 0 {
        Ok(())
    } else {
        Err(BatchFailure { errors })
    }
}

} // verus!
