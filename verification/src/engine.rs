//! The clustering engine of `visioncortex`, as the session sees it.
//!
//! Nothing in this file is proved. Each function here makes one call into
//! the engine, and its contract is what the rest of the library believes of
//! that call.

use vstd::prelude::*;
use visioncortex::color_clusters::{Clusters, IncrementalBuilder, KeyingAction, Runner, RunnerConfig};
use visioncortex::{Color, ColorImage};
use crate::image::{ImageView, RawImageData};

verus! {

/// A clustering run in progress.
#[verifier::external_type_specification]
#[verifier::external_body]
pub struct ExIncrementalBuilder(IncrementalBuilder);

/// The regions that a finished clustering run found.
#[verifier::external_type_specification]
#[verifier::external_body]
pub struct ExClusters(Clusters);

/// The settings of one clustering run.
#[derive(Clone, Copy, Debug, PartialEq, Eq)]
pub struct EngineConfig {
    pub diagonal: bool,
    pub hierarchical: u32,
    pub batch_size: i32,
    pub good_min_area: usize,
    pub good_max_area: usize,
    pub is_same_color_a: i32,
    pub is_same_color_b: i32,
    pub deepen_diff: i32,
    pub hollow_neighbours: usize,
}

/// A color with its opacity.
#[derive(Clone, Copy, Debug, PartialEq, Eq)]
pub struct Rgba {
    pub r: u8,
    pub g: u8,
    pub b: u8,
    pub a: u8,
}

/// The run that `Runner::start` hands back for these settings and this bitmap.
pub uninterp spec fn engine_started(config: EngineConfig, image: ImageView) -> IncrementalBuilder;

/// Whether a run can still be stepped and asked for its progress and its
/// result: it was started on a valid bitmap and its result was not taken.
pub uninterp spec fn engine_ready(run: IncrementalBuilder) -> bool;

/// The run after one more batch, and whether the engine then calls it finished.
pub uninterp spec fn engine_stepped(run: IncrementalBuilder) -> (IncrementalBuilder, bool);

/// What the engine reports as the progress of a run.
pub uninterp spec fn engine_progress(run: IncrementalBuilder) -> u32;

/// The regions that a run hands out as its result.
pub uninterp spec fn engine_clusters(run: IncrementalBuilder) -> Clusters;

/// Whether regions are the result of a run that was ready: their bitmap is
/// a valid one, and each region of the output order holds a pixel of it.
pub uninterp spec fn clusters_whole(clusters: Clusters) -> bool;

/// The regions' indices in the engine's output order.
pub uninterp spec fn cluster_order(clusters: Clusters) -> Seq<u32>;

/// The bitmap in which every region is painted in its residue color.
pub uninterp spec fn flattened(clusters: Clusters) -> ImageView;

/// The residue color of the region at a position of the output order.
pub uninterp spec fn residue_color(clusters: Clusters, position: int) -> Rgba;

impl EngineConfig {
    /// The engine shifts each color channel right by `is_same_color_a` bits
    /// and accepts only shifts that leave a bit of an eight-bit channel.
    pub open spec fn valid(self) -> bool {
        0 <= self.is_same_color_a < 8
    }
}

/// `Runner::new` followed by `Runner::start`, with the default key color and
/// keying action: the run is ready, it is the one run that belongs to these
/// settings and this bitmap, and its progress is a percentage.
#[verifier::external_body]
pub(crate) fn start_engine(config: &EngineConfig, image: &RawImageData) -> (run: IncrementalBuilder)
    requires
        config.valid(),
        image@.valid(),
    ensures
        run == engine_started(*config, image@),
        engine_ready(run),
        engine_progress(run) <= 100,
{
    let settings = RunnerConfig {
        diagonal: config.diagonal,
        hierarchical: config.hierarchical,
        batch_size: config.batch_size,
        good_min_area: config.good_min_area,
        good_max_area: config.good_max_area,
        is_same_color_a: config.is_same_color_a,
        is_same_color_b: config.is_same_color_b,
        deepen_diff: config.deepen_diff,
        hollow_neighbours: config.hollow_neighbours,
        key_color: Color::default(),
        keying_action: KeyingAction::default(),
    };
    let bitmap = ColorImage { pixels: image.data.clone(), width: image.width, height: image.height };
    Runner::new(settings, bitmap).start()
}

/// `IncrementalBuilder::tick`: one more batch of work. The run stays ready
/// and its progress a percentage, and the result tells whether the engine
/// has finished.
#[verifier::external_body]
pub(crate) fn step_engine(run: &mut IncrementalBuilder) -> (done: bool)
    requires
        engine_ready(*old(run)),
    ensures
        (*final(run), done) == engine_stepped(*old(run)),
        engine_ready(*final(run)),
        engine_progress(*final(run)) <= 100,
{
    run.tick()
}

/// `IncrementalBuilder::progress`: what the engine reports of the run.
#[verifier::external_body]
pub(crate) fn report_progress(run: &IncrementalBuilder) -> (percent: u32)
    requires
        engine_ready(*run),
    ensures
        percent == engine_progress(*run),
{
    run.progress()
}

/// `IncrementalBuilder::result`: takes the regions out of a run, which is
/// then gone. The regions of a ready run are whole.
#[verifier::external_body]
pub(crate) fn take_clusters(run: IncrementalBuilder) -> (clusters: Clusters)
    requires
        engine_ready(run),
    ensures
        clusters == engine_clusters(run),
        clusters_whole(clusters),
{
    let mut run = run;
    run.result()
}

/// `Clusters::output_len`: how many regions the output order holds.
#[verifier::external_body]
pub(crate) fn count_clusters(clusters: &Clusters) -> (count: usize)
    ensures
        count == cluster_order(*clusters).len(),
{
    clusters.output_len()
}

/// `ClustersView::to_color_image` on the view of the regions: a bitmap of
/// the sides of the one that was clustered, and so a valid one.
#[verifier::external_body]
pub(crate) fn flatten_clusters(clusters: &Clusters) -> (image: RawImageData)
    requires
        clusters_whole(*clusters),
    ensures
        image@ == flattened(*clusters),
        image@.valid(),
{
    let painted = clusters.view().to_color_image();
    RawImageData { data: painted.pixels, width: painted.width, height: painted.height }
}

/// `Cluster::residue_color` of the region that stands at `position` in the
/// output order.
#[verifier::external_body]
pub(crate) fn cluster_residue_color(clusters: &Clusters, position: usize) -> (color: Rgba)
    requires
        clusters_whole(*clusters),
        position < cluster_order(*clusters).len(),
    ensures
        color == residue_color(*clusters, position as int),
{
    let view = clusters.view();
    let color = view.get_cluster(view.clusters_output[position]).residue_color();
    Rgba { r: color.r, g: color.g, b: color.b, a: color.a }
}

} // verus!
