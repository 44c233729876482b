//! A steppable raster-to-vector tracing session.
//!
//! A bitmap is clustered into regions of similar color, one batch of pixels
//! per step, and each region is then turned into one path element of a
//! vector document, one region per step. The host decides when the next
//! step runs and may read the progress and the document between steps.

pub mod image;
pub mod engine;
pub mod svg;
pub mod params;
pub mod converter;
pub mod laws;

pub use crate::image::{DebugImageData, ImageView, RawImageData, MAX_PIXELS};
pub use crate::engine::{EngineConfig, Rgba};
pub use crate::svg::{Svg, SvgOptions, TracedPath};
pub use crate::params::{
    hierarchical_mode, path_simplify_mode, ColorImageConverterParams, Hierarchical, Options,
    SimplifyMode, TraceError, TraceJob,
};
pub use crate::converter::{ColorImageConverter, Stage};
