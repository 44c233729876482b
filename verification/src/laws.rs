//! What holds of every session, whatever the engine and the tracer hand
//! back. Each statement speaks of a session before a step, `pre`, of the
//! session after it, `post`, and of the step's result.

use vstd::prelude::*;
use crate::converter::{ColorImageConverter, Stage};
use crate::engine::{cluster_order, engine_clusters, engine_progress, engine_stepped};
use crate::params::{hierarchical_of, Hierarchical, TraceError};
use crate::svg::{document_text, TracedPath};

verus! {

/// The document that a session would write out.
pub open spec fn rendered(session: &ColorImageConverter) -> Seq<char> {
    document_text(&session.options(), session.elements())
}

/// A step answers `true` only from a session that has traced all its
/// clusters, and leaves such a session as it is.
pub proof fn lemma_true_only_when_complete(
    pre: &ColorImageConverter,
    post: &ColorImageConverter,
    traced: &TracedPath,
)
    requires
        pre.wf(),
        pre.stepped(post, traced, Ok(true)),
    ensures
        pre.complete(),
        post.complete(),
{
}

/// Once a step has answered `true`, every later step answers `true` too,
/// and neither the progress nor the document changes.
pub proof fn lemma_terminal_state_stays(
    first: &ColorImageConverter,
    pre: &ColorImageConverter,
    post: &ColorImageConverter,
    traced_before: &TracedPath,
    traced: &TracedPath,
    result: Result<bool, TraceError>,
)
    requires
        first.wf(),
        first.stepped(pre, traced_before, Ok(true)),
        pre.stepped(post, traced, result),
    ensures
        result == Ok::<bool, TraceError>(true),
        post.progress_value() == pre.progress_value(),
        rendered(post) == rendered(pre),
        post.stage() == pre.stage(),
        post.cursor() == pre.cursor(),
{
}

/// The progress lies between 0 and 100.
pub proof fn lemma_progress_is_a_percentage(session: &ColorImageConverter)
    requires
        session.wf(),
    ensures
        0 <= session.progress_value() <= 100,
{
    match session.stage() {
        Stage::Vectorize(clusters) => {
            let count = cluster_order(clusters).len() as int;
            let cursor = session.cursor() as int;
            if count > 0 {
                assert(0 <= 50 * cursor / count <= 50) by (nonlinear_arith)
                    requires
                        0 <= cursor <= count,
                        count > 0,
                ;
            }
        },
        _ => {},
    }
}

/// Whether the next step leaves the session in the first pass with an
/// engine that reports less than before. The engine measures the second half
/// of a pass against a list that may grow while it works, so this can
/// happen; nothing else makes the progress of a session fall.
pub open spec fn engine_report_falls(session: &ColorImageConverter) -> bool {
    match session.stage() {
        Stage::Clustering(run) => {
            let (next, done) = engine_stepped(run);
            &&& !done || hierarchical_of(session.params().hierarchical@) is None
            &&& engine_progress(next) < engine_progress(run)
        },
        _ => false,
    }
}

/// A step does not lower the progress, unless the engine's own report falls
/// within the first pass.
pub proof fn lemma_progress_never_falls(
    pre: &ColorImageConverter,
    post: &ColorImageConverter,
    traced: &TracedPath,
    result: Result<bool, TraceError>,
)
    requires
        pre.wf(),
        post.wf(),
        pre.stepped(post, traced, result),
        !engine_report_falls(pre),
    ensures
        pre.progress_value() <= post.progress_value(),
{
    match pre.stage() {
        Stage::New => {},
        Stage::Clustering(run) => {
            if engine_stepped(run).1 && hierarchical_of(pre.params().hierarchical@) is Some {
                lemma_entered_upper_half(post);
            }
        },
        Stage::Reclustering(run) => {
            lemma_entered_upper_half(post);
        },
        Stage::Vectorize(clusters) => {
            let count = cluster_order(clusters).len() as int;
            let cursor = pre.cursor() as int;
            if cursor < count {
                vstd::arithmetic::div_mod::lemma_div_is_ordered(50 * cursor, 50 * (cursor + 1), count);
            }
        },
    }
}

/// From the second pass on, the progress is at least 50.
pub proof fn lemma_entered_upper_half(session: &ColorImageConverter)
    requires
        session.wf(),
        session.stage() is Reclustering || session.stage() is Vectorize,
    ensures
        50 <= session.progress_value(),
{
    match session.stage() {
        Stage::Vectorize(clusters) => {
            let count = cluster_order(clusters).len() as int;
            let cursor = session.cursor() as int;
            if count > 0 {
                assert(0 <= 50 * cursor / count) by (nonlinear_arith)
                    requires
                        0 <= cursor <= count,
                        count > 0,
                ;
            }
        },
        _ => {},
    }
}

/// A session that has done all its work stands at 100, and its document
/// holds one path for each of the clusters that it traced.
pub proof fn lemma_complete_document_has_every_cluster(session: &ColorImageConverter)
    requires
        session.wf(),
        session.complete(),
    ensures
        session.progress_value() == 100,
        session.stage() matches Stage::Vectorize(clusters) && session.elements().len()
            == cluster_order(clusters).len(),
{
    match session.stage() {
        Stage::Vectorize(clusters) => {
            let count = cluster_order(clusters).len() as int;
            if count > 0 {
                assert(50 * count / count == 50) by (nonlinear_arith)
                    requires
                        count > 0,
                ;
            }
        },
        _ => {},
    }
}

/// In the stacked mode, the clusters that are traced are those of the one
/// clustering pass.
pub proof fn lemma_stacked_traces_the_first_pass(
    pre: &ColorImageConverter,
    post: &ColorImageConverter,
    traced: &TracedPath,
    result: Result<bool, TraceError>,
)
    requires
        pre.stepped(post, traced, result),
        hierarchical_of(pre.params().hierarchical@) == Some(Hierarchical::Stacked),
        pre.stage() matches Stage::Clustering(run) && engine_stepped(run).1,
    ensures
        pre.stage() matches Stage::Clustering(run) && post.stage() == Stage::Vectorize(
            engine_clusters(engine_stepped(run).0),
        ),
{
}

/// In the cutout mode, the first pass leads into a second one, and the
/// clusters that are traced are those of the second.
pub proof fn lemma_cutout_traces_the_second_pass(
    pre: &ColorImageConverter,
    post: &ColorImageConverter,
    traced: &TracedPath,
    result: Result<bool, TraceError>,
)
    requires
        pre.stepped(post, traced, result),
        hierarchical_of(pre.params().hierarchical@) == Some(Hierarchical::Cutout),
    ensures
        match pre.stage() {
            Stage::Clustering(run) => engine_stepped(run).1 ==> post.stage() is Reclustering,
            Stage::Reclustering(run) => engine_stepped(run).1 ==> post.stage() == Stage::Vectorize(
                engine_clusters(engine_stepped(run).0),
            ),
            _ => true,
        },
{
}

/// Once the clusters are final they stay the same, and the stage is never
/// left again.
pub proof fn lemma_final_clusters_are_kept(
    pre: &ColorImageConverter,
    post: &ColorImageConverter,
    traced: &TracedPath,
    result: Result<bool, TraceError>,
)
    requires
        pre.stepped(post, traced, result),
        pre.stage() is Vectorize,
    ensures
        post.stage() == pre.stage(),
{
}

/// A step never leads back: not into the first stage from a later one, not
/// from the second pass into the first, and not out of the last stage.
pub proof fn lemma_stages_go_one_way(
    pre: &ColorImageConverter,
    post: &ColorImageConverter,
    traced: &TracedPath,
    result: Result<bool, TraceError>,
)
    requires
        pre.stepped(post, traced, result),
    ensures
        post.stage() is New ==> pre.stage() is New,
        post.stage() is Clustering ==> pre.stage() is Clustering,
        post.stage() is Reclustering ==> pre.stage() is Clustering || pre.stage() is Reclustering,
{
}

/// While clusters are traced, the document holds as many paths as clusters
/// were traced.
pub proof fn lemma_document_holds_the_traced_paths(session: &ColorImageConverter)
    requires
        session.wf(),
        session.stage() is Vectorize,
    ensures
        session.elements().len() == session.cursor(),
{
}

/// Two sessions that agree in all they hold, and are handed the same
/// outline, agree after a step too: in the result, the stage, the cursor
/// and the document.
pub proof fn lemma_step_is_determined(
    left: &ColorImageConverter,
    right: &ColorImageConverter,
    left_post: &ColorImageConverter,
    right_post: &ColorImageConverter,
    traced: &TracedPath,
    left_result: Result<bool, TraceError>,
    right_result: Result<bool, TraceError>,
)
    requires
        left.same_setup(right),
        left.stage() == right.stage(),
        left.cursor() == right.cursor(),
        left.elements() == right.elements(),
        left.stepped(left_post, traced, left_result),
        right.stepped(right_post, traced, right_result),
    ensures
        left_result == right_result,
        left_post.same_setup(right_post),
        left_post.stage() == right_post.stage(),
        left_post.cursor() == right_post.cursor(),
        left_post.elements() == right_post.elements(),
        rendered(left_post) == rendered(right_post),
{
}

/// Two sessions that agree in all they hold agree after they were
/// initialized too.
pub proof fn lemma_init_is_determined(
    left: &ColorImageConverter,
    right: &ColorImageConverter,
    left_post: &ColorImageConverter,
    right_post: &ColorImageConverter,
    left_result: Result<(), TraceError>,
    right_result: Result<(), TraceError>,
)
    requires
        left.same_setup(right),
        left.stage() == right.stage(),
        left.cursor() == right.cursor(),
        left.elements() == right.elements(),
        left.initialized(left_post, left_result),
        right.initialized(right_post, right_result),
    ensures
        left_result == right_result,
        left_post.same_setup(right_post),
        left_post.stage() == right_post.stage(),
        left_post.cursor() == right_post.cursor(),
        left_post.elements() == right_post.elements(),
{
}

/// A step of a session that was not initialized is refused, and the
/// session stays as it was.
pub proof fn lemma_step_before_init_is_refused(
    pre: &ColorImageConverter,
    post: &ColorImageConverter,
    traced: &TracedPath,
    result: Result<bool, TraceError>,
)
    requires
        pre.stage() is New,
        pre.stepped(post, traced, result),
    ensures
        result == Err::<bool, TraceError>(TraceError::Uninitialized),
        post.stage() is New,
        post.cursor() == pre.cursor(),
        post.elements() == pre.elements(),
{
}

/// Initializing does not look at the hierarchical mode: a valid bitmap and
/// color precision are accepted whatever that word is.
pub proof fn lemma_init_accepts_any_hierarchical(
    pre: &ColorImageConverter,
    post: &ColorImageConverter,
    result: Result<(), TraceError>,
)
    requires
        pre.stage() is New,
        pre.image().valid(),
        0 <= pre.params().color_precision < 8,
        pre.initialized(post, result),
    ensures
        result == Ok::<(), TraceError>(()),
        post.stage() is Clustering,
{
}

/// A hierarchical mode that names none is refused by the step in which the
/// first pass finishes, by every step after it, and by no step before.
pub proof fn lemma_unknown_hierarchical_fails_late(
    pre: &ColorImageConverter,
    post: &ColorImageConverter,
    traced: &TracedPath,
    result: Result<bool, TraceError>,
)
    requires
        pre.stepped(post, traced, result),
        hierarchical_of(pre.params().hierarchical@) is None,
        pre.stage() is Clustering,
    ensures
        pre.stage() matches Stage::Clustering(run) && result == (if engine_stepped(run).1 {
            Err::<bool, TraceError>(TraceError::UnknownHierarchical)
        } else {
            Ok::<bool, TraceError>(false)
        }),
        post.stage() is Clustering,
        post.elements() == pre.elements(),
{
}

} // verus!
