//! What a host configures: the parameters of a session, the options of its
//! document, and the settings that the two clustering passes are run with.

use vstd::prelude::*;
use vstd::string::StringExecFns;
use crate::engine::EngineConfig;

verus! {

/// The depth setting by which the engine builds the full hierarchy.
pub const HIERARCHICAL_MAX: u32 = 4_294_967_295;

/// The number of pixels that the engine takes in one batch.
pub const BATCH_SIZE: i32 = 25_600;

/// How the outline of a region is simplified.
#[derive(Clone, Copy, Debug, PartialEq, Eq, Structural)]
pub enum SimplifyMode {
    /// The outline is left as the boundary of the pixels.
    Pixel,
    /// The outline becomes a polygon.
    Polygon,
    /// The outline becomes a smooth spline.
    Spline,
}

/// How regions that lie in one another are put into the document.
#[derive(Clone, Copy, Debug, PartialEq, Eq, Structural)]
pub enum Hierarchical {
    /// The regions of one clustering pass, one above the other.
    Stacked,
    /// The regions of a second pass over the flattened result of the first.
    Cutout,
}

/// Why a session refuses a call.
#[derive(Clone, Copy, Debug, PartialEq, Eq, Structural)]
pub enum TraceError {
    /// A step was asked of a session that was not initialized.
    Uninitialized,
    /// A session that has left its first stage was initialized again.
    AlreadyInitialized,
    /// The simplification mode is none of `polygon`, `spline` and `none`.
    UnknownMode,
    /// The hierarchical mode is neither `stacked` nor `cutout`.
    UnknownHierarchical,
    /// The bitmap has an empty side, too many pixels, or a buffer of the
    /// wrong length.
    InvalidImage,
    /// The color precision is not a shift of zero to seven bits.
    InvalidColorPrecision,
}

/// The parameters of a session.
#[allow(non_snake_case)]
pub struct ColorImageConverterParams {
    pub debug: Option<bool>,
    /// One of `polygon`, `spline` and `none`.
    pub mode: String,
    pub maxIterations: usize,
    pub filterSpeckle: usize,
    pub pathPrecision: u32,
    /// Zero selects diagonal connectivity; the value is also the color
    /// difference from which a region is kept as a layer of its own.
    pub layer_difference: i32,
    /// Regions of at most this many pixels are not kept as layers.
    pub filter_speckle: usize,
    /// The number of low bits of each channel that clustering ignores.
    pub color_precision: i32,
    /// One of `stacked` and `cutout`.
    pub hierarchical: String,
    pub max_iterations: usize,
    pub path_precision: u32,
}

/// The options of a session's document.
#[allow(non_snake_case)]
pub struct Options {
    pub invert: Option<bool>,
    pub pathFill: Option<String>,
    pub backgroundColor: Option<String>,
    pub attributes: Option<String>,
    /// The scale factor, as it is to be written into the document.
    pub scale: String,
}

/// What a tracer is asked to do for one region.
#[derive(Clone, Copy, Debug, PartialEq, Eq, Structural)]
pub struct TraceJob {
    /// The position of the region in the output order of its clusters.
    pub position: usize,
    pub mode: SimplifyMode,
    pub max_iterations: usize,
    /// The number of decimal places of the path data.
    pub precision: u32,
}

/// The simplification mode that a word names, if it names one.
pub open spec fn mode_of(word: Seq<char>) -> Option<SimplifyMode> {
    if word == "polygon"@ {
        Some(SimplifyMode::Polygon)
    } else if word == "spline"@ {
        Some(SimplifyMode::Spline)
    } else if word == "none"@ {
        Some(SimplifyMode::Pixel)
    } else {
        None
    }
}

/// The hierarchical mode that a word names, if it names one.
pub open spec fn hierarchical_of(word: Seq<char>) -> Option<Hierarchical> {
    if word == "stacked"@ {
        Some(Hierarchical::Stacked)
    } else if word == "cutout"@ {
        Some(Hierarchical::Cutout)
    } else {
        None
    }
}

/// The settings of the first clustering pass over a bitmap of the given sides.
pub open spec fn first_pass(params: &ColorImageConverterParams, width: nat, height: nat) -> EngineConfig {
    EngineConfig {
        diagonal: params.layer_difference == 0,
        hierarchical: HIERARCHICAL_MAX,
        batch_size: BATCH_SIZE,
        good_min_area: params.filter_speckle,
        good_max_area: (width * height) as usize,
        is_same_color_a: params.color_precision,
        is_same_color_b: 1,
        deepen_diff: params.layer_difference,
        hollow_neighbours: 1,
    }
}

/// The settings of the second pass of the cutout mode, which runs over the
/// flattened result of the first.
pub open spec fn second_pass(width: nat, height: nat) -> EngineConfig {
    EngineConfig {
        diagonal: false,
        hierarchical: 64,
        batch_size: BATCH_SIZE,
        good_min_area: 0,
        good_max_area: (width * height) as usize,
        is_same_color_a: 0,
        is_same_color_b: 1,
        deepen_diff: 0,
        hollow_neighbours: 0,
    }
}

fn same_text(left: &str, right: &str) -> (same: bool)
    ensures
        same == (left@ == right@),
{
    let left = String::from_str(left);
    let right = String::from_str(right);
    left == right
}

/// Reads a simplification mode. Any word but `polygon`, `spline` and `none`
/// is refused.
pub fn path_simplify_mode(s: &str) -> (mode: Result<SimplifyMode, TraceError>)
    ensures
        mode == match mode_of(s@) {
            Some(known) => Ok::<SimplifyMode, TraceError>(known),
            None => Err(TraceError::UnknownMode),
        },
{
    if same_text(s, "polygon") {
        Ok(SimplifyMode::Polygon)
    } else if same_text(s, "spline") {
        Ok(SimplifyMode::Spline)
    } else if same_text(s, "none") {
        Ok(SimplifyMode::Pixel)
    } else {
        Err(TraceError::UnknownMode)
    }
}

/// Reads a hierarchical mode. Any word but `stacked` and `cutout` is refused.
pub fn hierarchical_mode(s: &str) -> (mode: Result<Hierarchical, TraceError>)
    ensures
        mode == match hierarchical_of(s@) {
            Some(known) => Ok::<Hierarchical, TraceError>(known),
            None => Err(TraceError::UnknownHierarchical),
        },
{
    if same_text(s, "stacked") {
        Ok(Hierarchical::Stacked)
    } else if same_text(s, "cutout") {
        Ok(Hierarchical::Cutout)
    } else {
        Err(TraceError::UnknownHierarchical)
    }
}

/// Builds the settings of the first clustering pass. Whatever hierarchical
/// mode the parameters name, this pass builds the full hierarchy.
pub fn first_pass_config(params: &ColorImageConverterParams, width: usize, height: usize) -> (config:
    EngineConfig)
    requires
        width * height <= usize::MAX,
    ensures
        config == first_pass(params, width as nat, height as nat),
{
    EngineConfig {
        diagonal: params.layer_difference == 0,
        hierarchical: HIERARCHICAL_MAX,
        batch_size: BATCH_SIZE,
        good_min_area: params.filter_speckle,
        good_max_area: width * height,
        is_same_color_a: params.color_precision,
        is_same_color_b: 1,
        deepen_diff: params.layer_difference,
        hollow_neighbours: 1,
    }
}

/// Builds the settings of the second pass of the cutout mode.
pub fn second_pass_config(width: usize, height: usize) -> (config: EngineConfig)
    requires
        width * height <= usize::MAX,
    ensures
        config == second_pass(width as nat, height as nat),
        config.valid(),
{
    EngineConfig {
        diagonal: false,
        hierarchical: 64,
        batch_size: BATCH_SIZE,
        good_min_area: 0,
        good_max_area: width * height,
        is_same_color_a: 0,
        is_same_color_b: 1,
        deepen_diff: 0,
        hollow_neighbours: 0,
    }
}

} // verus!
