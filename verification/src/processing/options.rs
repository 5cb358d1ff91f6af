//! What a run is asked to produce: the pixel representation of the output,
//! the options under which the output raster is created, and the text that
//! describes its band.

use crate::utils::text::{decimal, signed_decimal, spec_decimal, spec_signed_decimal, spec_texts, uppercase, spec_uppercase};
use vstd::prelude::*;
use vstd::string::StringExecFns;

verus! {

/// The value that marks a fixed-point sample as invalid.
pub const NODATA_VALUE_INT: i16 = -10000;

/// The highest level that is passed on for the DEFLATE codec.
pub const MAX_DEFLATE_LEVEL: u8 = 9;

/// The highest level that is passed on for the ZSTD codec.
pub const MAX_ZSTD_LEVEL: u8 = 22;

/// How the samples of the output raster are stored.
#[derive(Clone, Copy, Debug, PartialEq, Eq, Structural)]
pub enum PixelFormat {
    /// 16-bit integers: the index value times `scale_factor`, with `no_data`
    /// standing for an invalid sample.
    FixedPoint { scale_factor: i32, no_data: i16 },
    /// 32-bit floating point, the index value as it is.
    Float,
}

impl PixelFormat {
    /// The representation that the two output settings ask for.
    pub open spec fn spec_select(use_fixed_point: bool, scale_factor: i32) -> PixelFormat {
        if use_fixed_point {
            PixelFormat::FixedPoint { scale_factor, no_data: NODATA_VALUE_INT }
        } else {
            PixelFormat::Float
        }
    }

    pub fn select(use_fixed_point: bool, scale_factor: i32) -> (format: PixelFormat)
        ensures
            format == PixelFormat::spec_select(use_fixed_point, scale_factor),
    {
        if use_fixed_point {
            PixelFormat::FixedPoint { scale_factor, no_data: NODATA_VALUE_INT }
        } else {
            PixelFormat::Float
        }
    }

    /// The description of the output band: the index name, followed for a
    /// fixed-point band by the factor it was scaled by.
    pub open spec fn spec_description(self, index_name: Seq<char>) -> Seq<char> {
        match self {
            PixelFormat::FixedPoint { scale_factor, no_data } => index_name + " (scaled by "@
                + spec_signed_decimal(scale_factor as int) + ")"@,
            PixelFormat::Float => index_name,
        }
    }

    pub fn description(&self, index_name: &str) -> (text: String)
        ensures
            text@ == self.spec_description(index_name@),
    {
        match self {
            PixelFormat::FixedPoint { scale_factor, no_data } => {
                let mut text: String = index_name.to_owned();
                text.append(" (scaled by ");
                let factor = signed_decimal(*scale_factor as i64);
                text.append(factor.as_str());
                text.append(")");
                text
            },
            PixelFormat::Float => index_name.to_owned(),
        }
    }
}

/// The settings of one output raster.
#[derive(Debug)]
pub struct OutputOptions {
    /// Store 16-bit fixed-point samples rather than 32-bit floats.
    pub use_fixed_point: bool,
    /// The factor by which fixed-point samples are scaled.
    pub scale_factor: i32,
    /// The compression codec: NONE, DEFLATE, LZW or ZSTD, in any case.
    pub compress: String,
    /// The compression level, for the codecs that have one.
    pub compress_level: u8,
    /// Ask for a tiled physical layout.
    pub tiled: bool,
}

pub open spec fn spec_min_level(level: u8, cap: u8) -> u8 {
    if level <= cap {
        level
    } else {
        cap
    }
}

/// The options that name the codec and its level. `codec` is the codec's
/// name in upper case. No codec is named for NONE, and a level only for
/// DEFLATE and ZSTD, cut down to what the codec takes.
pub open spec fn spec_codec_options(codec: Seq<char>, level: u8) -> Seq<Seq<char>> {
    if codec == "NONE"@ {
        Seq::empty()
    } else if codec == "DEFLATE"@ {
        seq![
            "COMPRESS="@ + codec,
            "ZLEVEL="@ + spec_decimal(spec_min_level(level, MAX_DEFLATE_LEVEL) as nat),
        ]
    } else if codec == "ZSTD"@ {
        seq![
            "COMPRESS="@ + codec,
            "ZSTD_LEVEL="@ + spec_decimal(spec_min_level(level, MAX_ZSTD_LEVEL) as nat),
        ]
    } else {
        seq!["COMPRESS="@ + codec]
    }
}

/// The creation options of an output raster, in the order in which they are
/// handed to the raster store: codec and level, the tiling request, and the
/// thread hint, which is always given.
pub open spec fn spec_creation_options(codec: Seq<char>, level: u8, tiled: bool) -> Seq<Seq<char>> {
    spec_codec_options(codec, level) + (if tiled {
        seq!["TILED=YES"@]
    } else {
        Seq::empty()
    }) + seq!["NUM_THREADS=ALL_CPUS"@]
}

fn min_level(level: u8, cap: u8) -> (m: u8)
    ensures
        m == spec_min_level(level, cap),
{
    if level <= cap {
        level
    } else {
        cap
    }
}

fn level_option(key: &str, level: u8) -> (text: String)
    ensures
        text@ == key@ + spec_decimal(level as nat),
{
    let mut text: String = key.to_owned();
    let digits = decimal(level as u64);
    text.append(digits.as_str());
    text
}

/// Builds the creation options for a codec whose name is already in upper
/// case.
pub fn creation_options_for(codec: &str, level: u8, tiled: bool) -> (options: Vec<String>)
    ensures
        spec_texts(options@) == spec_creation_options(codec@, level, tiled),
{
    let name: String = codec.to_owned();
    let mut options: Vec<String> = Vec::new();
    if name != "NONE".to_owned() {
        let mut first: String = "COMPRESS=".to_owned();
        first.append(codec);
        options.push(first);
        if name == "DEFLATE".to_owned() {
            options.push(level_option("ZLEVEL=", min_level(level, MAX_DEFLATE_LEVEL)));
        } else if name == "ZSTD".to_owned() {
            options.push(level_option("ZSTD_LEVEL=", min_level(level, MAX_ZSTD_LEVEL)));
        }
    }
    if tiled {
        options.push("TILED=YES".to_owned());
    }
    options.push("NUM_THREADS=ALL_CPUS".to_owned());
    proof {
        reveal_strlit("NONE");
        reveal_strlit("DEFLATE");
        reveal_strlit("ZSTD");
        assert(spec_texts(options@) =~= spec_creation_options(codec@, level, tiled));
    }
    options
}

/// Builds the creation options for a codec named in any case: the name is
/// brought to upper case first.
pub fn creation_options(compress: &str, level: u8, tiled: bool) -> (options: Vec<String>)
    ensures
        spec_texts(options@) == spec_creation_options(spec_uppercase(compress@), level, tiled),
{
    let codec = uppercase(compress);
    creation_options_for(codec.as_str(), level, tiled)
}

impl OutputOptions {
    /// The pixel representation that these settings ask for.
    pub fn format(&self) -> (format: PixelFormat)
        ensures
            format == PixelFormat::spec_select(self.use_fixed_point, self.scale_factor),
    {
        PixelFormat::select(self.use_fixed_point, self.scale_factor)
    }

    /// The creation options that these settings ask for.
    pub fn creation_options(&self) -> (options: Vec<String>)
        ensures
            spec_texts(options@) == spec_creation_options(
                spec_uppercase(self.compress@),
                self.compress_level,
                self.tiled,
            ),
    {
        creation_options(self.compress.as_str(), self.compress_level, self.tiled)
    }
}

} // verus!
