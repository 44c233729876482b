//! The session: a bitmap, its parameters, the document that grows, and the
//! stage that the work has reached.

use vstd::prelude::*;
use visioncortex::color_clusters::{Clusters, IncrementalBuilder};
use crate::engine::{
    cluster_order, cluster_residue_color, clusters_whole, count_clusters, engine_clusters,
    engine_progress, engine_ready, engine_started, engine_stepped, flatten_clusters, flattened,
    report_progress, residue_color, start_engine, step_engine, take_clusters,
};
use crate::image::{ImageView, RawImageData};
use crate::params::{
    first_pass, first_pass_config, hierarchical_mode, hierarchical_of, mode_of, path_simplify_mode,
    second_pass, second_pass_config, ColorImageConverterParams, Hierarchical, Options,
    SimplifyMode, TraceError, TraceJob,
};
use crate::svg::{document_text, fill_of, path_element, Svg, SvgOptions, TracedPath};

verus! {

/// Where a session stands. A session moves through the stages in the order
/// in which they are written here, and never back.
pub enum Stage {
    /// Nothing was started.
    New,
    /// The first clustering pass is running.
    Clustering(IncrementalBuilder),
    /// The second pass of the cutout mode is running.
    Reclustering(IncrementalBuilder),
    /// The clusters are final and are traced one by one.
    Vectorize(Clusters),
}

/// A tracing session over one bitmap.
pub struct ColorImageConverter {
    debug: bool,
    counter: usize,
    mode: SimplifyMode,
    params: ColorImageConverterParams,
    image: RawImageData,
    svg: Svg,
    stage: Stage,
    height: usize,
    width: usize,
}

/// The document options that a session takes from the options of its host.
pub open spec fn document_options(options: &Options) -> SvgOptions {
    SvgOptions {
        scale: options.scale,
        backgroundColor: options.backgroundColor,
        pathFill: options.pathFill,
        attributes: options.attributes,
    }
}

impl ColorImageConverter {
    /// The stage that the session is in.
    pub closed spec fn stage(&self) -> Stage {
        self.stage
    }

    /// The number of clusters that were traced: the position of the next one.
    pub closed spec fn cursor(&self) -> nat {
        self.counter as nat
    }

    /// The path elements of the document, first to last.
    pub closed spec fn elements(&self) -> Seq<Seq<char>> {
        self.svg.elements()
    }

    /// The options of the document.
    pub closed spec fn options(&self) -> SvgOptions {
        self.svg.options
    }

    /// The parameters that the session was made with.
    pub closed spec fn params(&self) -> ColorImageConverterParams {
        self.params
    }

    /// The bitmap that the session was made with.
    pub closed spec fn image(&self) -> ImageView {
        self.image@
    }

    /// The simplification mode that the parameters name.
    pub closed spec fn mode(&self) -> SimplifyMode {
        self.mode
    }

    /// Whether diagnostics were asked for.
    pub closed spec fn verbose(&self) -> bool {
        self.debug
    }

    /// The sides that the session keeps are those of its bitmap.
    pub closed spec fn sized(&self) -> bool {
        self.width == self.image.width && self.height == self.image.height
    }

    /// What holds of every session: a clustering run is ready and reports
    /// its progress as a percentage, nothing was traced before the clusters
    /// are final, and from then on the document holds one path for each
    /// cluster that was traced.
    pub open spec fn wf(&self) -> bool {
        &&& self.sized()
        &&& match self.stage() {
            Stage::New => self.cursor() == 0 && self.elements().len() == 0,
            Stage::Clustering(run) => engine_ready(run) && engine_progress(run) <= 100
                && self.cursor() == 0 && self.elements().len() == 0,
            Stage::Reclustering(run) => engine_ready(run) && engine_progress(run) <= 100
                && self.cursor() == 0 && self.elements().len() == 0,
            Stage::Vectorize(clusters) => clusters_whole(clusters) && self.cursor()
                <= cluster_order(clusters).len() && self.elements().len() == self.cursor(),
        }
    }

    /// Whether two sessions have the same bitmap, parameters, mode and
    /// document options: all that a step leaves alone.
    pub open spec fn same_setup(&self, other: &Self) -> bool {
        &&& self.params() == other.params()
        &&& self.image() == other.image()
        &&& self.mode() == other.mode()
        &&& self.options() == other.options()
        &&& self.verbose() == other.verbose()
    }

    /// The cluster that the next step will trace, if it will trace one.
    pub open spec fn pending(&self) -> Option<Clusters> {
        match self.stage() {
            Stage::Vectorize(clusters) => if self.cursor() < cluster_order(clusters).len() {
                Some(clusters)
            } else {
                None
            },
            _ => None,
        }
    }

    /// What the tracer is asked when the next step traces a cluster.
    pub open spec fn job(&self) -> TraceJob {
        TraceJob {
            position: self.cursor() as usize,
            mode: self.mode(),
            max_iterations: self.params().max_iterations,
            precision: self.params().path_precision,
        }
    }

    /// Whether the session has done all its work.
    pub open spec fn complete(&self) -> bool {
        match self.stage() {
            Stage::Vectorize(clusters) => self.cursor() == cluster_order(clusters).len(),
            _ => false,
        }
    }

    /// The progress of the session in percent. Clustering fills the lower
    /// half by the engine's own progress, a second pass stands at the middle,
    /// and tracing fills the upper half by the share of clusters traced. Where
    /// there is no cluster to trace, the work is done.
    pub open spec fn progress_value(&self) -> int {
        match self.stage() {
            Stage::New => 0,
            Stage::Clustering(run) => engine_progress(run) as int / 2,
            Stage::Reclustering(_) => 50,
            Stage::Vectorize(clusters) => if cluster_order(clusters).len() == 0 {
                100
            } else {
                50 + 50 * self.cursor() as int / cluster_order(clusters).len() as int
            },
        }
    }

    /// What initializing makes of a session: `post` and `result` for `self`.
    pub open spec fn initialized(&self, post: &Self, result: Result<(), TraceError>) -> bool {
        &&& post.same_setup(self)
        &&& post.cursor() == self.cursor()
        &&& post.elements() == self.elements()
        &&& if !(self.stage() is New) {
            post.stage() == self.stage() && result == Err::<(), TraceError>(
                TraceError::AlreadyInitialized,
            )
        } else if !self.image().valid() {
            post.stage() == self.stage() && result == Err::<(), TraceError>(
                TraceError::InvalidImage,
            )
        } else if !(0 <= self.params().color_precision < 8) {
            post.stage() == self.stage() && result == Err::<(), TraceError>(
                TraceError::InvalidColorPrecision,
            )
        } else {
            post.stage() == Stage::Clustering(
                engine_started(
                    first_pass(&self.params(), self.image().width, self.image().height),
                    self.image(),
                ),
            ) && result == Ok::<(), TraceError>(())
        }
    }

    /// What one step makes of a session: `post` and `result` for `self`,
    /// where `traced` is what the tracer handed over if it was asked.
    pub open spec fn stepped(
        &self,
        post: &Self,
        traced: &TracedPath,
        result: Result<bool, TraceError>,
    ) -> bool {
        &&& post.same_setup(self)
        &&& match self.stage() {
            Stage::New => {
                &&& post.stage() == self.stage()
                &&& post.cursor() == self.cursor()
                &&& post.elements() == self.elements()
                &&& result == Err::<bool, TraceError>(TraceError::Uninitialized)
            },
            Stage::Clustering(run) => {
                let (next, done) = engine_stepped(run);
                let clusters = engine_clusters(next);
                let flat = flattened(clusters);
                &&& post.cursor() == self.cursor()
                &&& post.elements() == self.elements()
                &&& if !done {
                    post.stage() == Stage::Clustering(next) && result == Ok::<bool, TraceError>(
                        false,
                    )
                } else {
                    match hierarchical_of(self.params().hierarchical@) {
                        Some(Hierarchical::Stacked) => post.stage() == Stage::Vectorize(clusters)
                            && result == Ok::<bool, TraceError>(false),
                        Some(Hierarchical::Cutout) => post.stage() == Stage::Reclustering(
                            engine_started(second_pass(flat.width, flat.height), flat),
                        ) && result == Ok::<bool, TraceError>(false),
                        None => post.stage() == Stage::Clustering(next) && result == Err::<
                            bool,
                            TraceError,
                        >(TraceError::UnknownHierarchical),
                    }
                }
            },
            Stage::Reclustering(run) => {
                let (next, done) = engine_stepped(run);
                &&& post.cursor() == self.cursor()
                &&& post.elements() == self.elements()
                &&& result == Ok::<bool, TraceError>(false)
                &&& if done {
                    post.stage() == Stage::Vectorize(engine_clusters(next))
                } else {
                    post.stage() == Stage::Reclustering(next)
                }
            },
            Stage::Vectorize(clusters) => {
                &&& post.stage() == self.stage()
                &&& if self.cursor() < cluster_order(clusters).len() {
                    &&& post.cursor() == self.cursor() + 1
                    &&& post.elements() == seq![
                        path_element(
                            traced,
                            fill_of(&self.options(), residue_color(clusters, self.cursor() as int)),
                        ),
                    ] + self.elements()
                    &&& result == Ok::<bool, TraceError>(false)
                } else {
                    &&& post.cursor() == self.cursor()
                    &&& post.elements() == self.elements()
                    &&& result == Ok::<bool, TraceError>(true)
                }
            },
        }
    }

    /// Makes a session in its first stage, with an empty document. The mode
    /// is read here, and a word that names none is refused; the hierarchical
    /// mode is not looked at yet.
    pub fn new(image: RawImageData, params: ColorImageConverterParams, options: Options) -> (made:
        Result<Self, TraceError>)
        ensures
            match made {
                Ok(session) => {
                    &&& mode_of(params.mode@) == Some(session.mode())
                    &&& session.wf()
                    &&& session.stage() is New
                    &&& session.cursor() == 0
                    &&& session.elements() == Seq::<Seq<char>>::empty()
                    &&& session.params() == params
                    &&& session.image() == image@
                    &&& session.options() == document_options(&options)
                    &&& session.verbose() == (params.debug == Some(true))
                },
                Err(error) => mode_of(params.mode@) is None && error == TraceError::UnknownMode,
            },
    {
        let mode = match path_simplify_mode(params.mode.as_str()) {
            Ok(mode) => mode,
            Err(error) => {
                return Err(error);
            },
        };
        let debug = match params.debug {
            Some(debug) => debug,
            None => false,
        };
        let height = image.height;
        let width = image.width;
        let svg = Svg::new(
            SvgOptions {
                scale: options.scale,
                backgroundColor: options.backgroundColor,
                pathFill: options.pathFill,
                attributes: options.attributes,
            },
        );
        Ok(
            ColorImageConverter {
                debug,
                stage: Stage::New,
                counter: 0,
                mode,
                image,
                params,
                svg,
                height,
                width,
            },
        )
    }

    /// Starts the first clustering pass. It builds the full hierarchy
    /// whatever hierarchical mode the parameters name: that word is read
    /// only when the pass has finished. A session that was initialized
    /// before, a bitmap that is not valid and a color precision that is no
    /// shift of an eight-bit channel are refused, and the session stays as
    /// it was.
    pub fn init(&mut self) -> (result: Result<(), TraceError>)
        requires
            old(self).wf(),
        ensures
            final(self).wf(),
            old(self).initialized(final(self), result),
    {
        match &self.stage {
            Stage::New => {},
            _ => {
                return Err(TraceError::AlreadyInitialized);
            },
        }
        if !self.image.is_valid() {
            return Err(TraceError::InvalidImage);
        }
        if self.params.color_precision < 0 || self.params.color_precision >= 8 {
            return Err(TraceError::InvalidColorPrecision);
        }
        let config = first_pass_config(&self.params, self.width, self.height);
        let run = start_engine(&config, &self.image);
        self.stage = Stage::Clustering(run);
        Ok(())
    }

    /// Does one unit of work: one batch of a clustering pass, or the tracing
    /// of one cluster, whose path is put before all the paths of the
    /// document. The outline of that cluster is asked of `tracer`, with the
    /// final clusters and the job; in a step that traces nothing the tracer
    /// is not called. The result is `true` when nothing is left to do, and
    /// the session then stays as it is. A session that was not initialized
    /// is refused. A hierarchical mode that names none is refused when the
    /// first pass has finished, and not before.
    pub fn tick<F>(&mut self, tracer: F) -> (result: Result<bool, TraceError>)
        where F: Fn(&Clusters, &TraceJob) -> TracedPath
        requires
            old(self).wf(),
            old(self).pending() matches Some(clusters) ==> tracer.requires(
                (&clusters, &old(self).job()),
            ),
        ensures
            final(self).wf(),
            exists|traced: TracedPath|
                {
                    &&& #[trigger] old(self).stepped(final(self), &traced, result)
                    &&& old(self).pending() matches Some(clusters) ==> tracer.ensures(
                        (&clusters, &old(self).job()),
                        traced,
                    )
                },
    {
        let mut stage = Stage::New;
        std::mem::swap(&mut self.stage, &mut stage);
        match stage {
            Stage::New => {
                proof {
                    let ghost unused: TracedPath = arbitrary();
                    assert(old(self).stepped(self, &unused, Err(TraceError::Uninitialized)));
                }
                Err(TraceError::Uninitialized)
            },
            Stage::Clustering(run) => {
                let mut run = run;
                let done = step_engine(&mut run);
                let result = if !done {
                    self.stage = Stage::Clustering(run);
                    Ok(false)
                } else {
                    match hierarchical_mode(self.params.hierarchical.as_str()) {
                        Ok(Hierarchical::Stacked) => {
                            self.stage = Stage::Vectorize(take_clusters(run));
                            Ok(false)
                        },
                        Ok(Hierarchical::Cutout) => {
                            let clusters = take_clusters(run);
                            let image = flatten_clusters(&clusters);
                            let config = second_pass_config(image.width, image.height);
                            self.stage = Stage::Reclustering(start_engine(&config, &image));
                            Ok(false)
                        },
                        Err(error) => {
                            self.stage = Stage::Clustering(run);
                            Err(error)
                        },
                    }
                };
                proof {
                    let ghost unused: TracedPath = arbitrary();
                    assert(old(self).stepped(self, &unused, result));
                }
                result
            },
            Stage::Reclustering(run) => {
                let mut run = run;
                let done = step_engine(&mut run);
                if done {
                    self.stage = Stage::Vectorize(take_clusters(run));
                } else {
                    self.stage = Stage::Reclustering(run);
                }
                proof {
                    let ghost unused: TracedPath = arbitrary();
                    assert(old(self).stepped(self, &unused, Ok(false)));
                }
                Ok(false)
            },
            Stage::Vectorize(clusters) => {
                let count = count_clusters(&clusters);
                if self.counter < count {
                    let job = TraceJob {
                        position: self.counter,
                        mode: self.mode,
                        max_iterations: self.params.max_iterations,
                        precision: self.params.path_precision,
                    };
                    let color = cluster_residue_color(&clusters, self.counter);
                    let traced = tracer(&clusters, &job);
                    self.svg.prepend_path(&traced, &color);
                    self.counter = self.counter + 1;
                    self.stage = Stage::Vectorize(clusters);
                    proof {
                        assert(old(self).stepped(self, &traced, Ok(false)));
                    }
                    Ok(false)
                } else {
                    self.stage = Stage::Vectorize(clusters);
                    proof {
                        let ghost unused: TracedPath = arbitrary();
                        assert(old(self).stepped(self, &unused, Ok(true)));
                    }
                    Ok(true)
                }
            },
        }
    }

    /// The stage that the session is in, for a host to look at.
    pub fn current_stage(&self) -> (stage: &Stage)
        ensures
            *stage == self.stage(),
    {
        &self.stage
    }

    /// Tells whether the parameters asked for diagnostics.
    pub fn debug(&self) -> (debug: bool)
        ensures
            debug == self.verbose(),
    {
        self.debug
    }

    /// Writes out the document as it stands: at any stage, any number of
    /// times, without changing the session.
    #[allow(non_snake_case)]
    pub fn getResult(&self) -> (text: String)
        ensures
            text@ == document_text(&self.options(), self.elements()),
    {
        self.svg.get_svg_string()
    }

    /// The progress of the session in percent.
    pub fn progress(&self) -> (percent: i32)
        requires
            self.wf(),
        ensures
            percent == self.progress_value(),
            0 <= percent <= 100,
    {
        match &self.stage {
            Stage::New => 0,
            Stage::Clustering(run) => {
                let engine: u32 = report_progress(run);
                (engine / 2) as i32
            },
            Stage::Reclustering(_) => 50,
            Stage::Vectorize(clusters) => {
                let count = count_clusters(clusters);
                if count == 0 {
                    100
                } else {
                    let traced: u128 = self.counter as u128;
                    let share: u128 = 50 * traced / (count as u128);
                    assert(share <= 50 && share == 50 * (traced as int) / (count as int))
                        by (nonlinear_arith)
                        requires
                            share == (50 * (traced as int)) / (count as int),
                            0 <= traced <= count,
                            count > 0,
                    ;
                    50 + share as i32
                }
            },
        }
    }
}

} // verus!
