//! The pipeline's laws: what holds of every run, stated over the machine's
//! invariant and proved once and for all.

use vstd::prelude::*;

use crate::command::import_plan;
use crate::paths::artifact_of;
use crate::paths::is_shapefile;
use crate::paths::lemma_artifact_set_membership;
use crate::pipeline::CanonicalFate;
use crate::pipeline::Phase;
use crate::pipeline::Pipeline;
use crate::pipeline::StagingState;
use crate::pipeline::conversion_error;
use crate::pipeline::before_swap_error;

verus! {

/// After a successful rebuild the canonical output directory holds exactly
/// one artifact per valid input file — a name is in it precisely when it is
/// `<logical name>.sql` for one of the listed inputs with the shapefile
/// extension — and no directory remains under the staging name.
pub proof fn lemma_rebuild_publishes_exact_artifacts(p: Pipeline, name: Seq<char>)
    requires
        p.wf(),
        p.rebuild,
        p.phase == Phase::ListOutput || p.phase == Phase::Import || p.phase == Phase::Done,
    ensures
        p.canonical_fate == CanonicalFate::Promoted,
        p.staging == StagingState::Absent,
        p.canonical_names@.contains(name) <==> (exists|i: int|
            0 <= i < p.input_entries@.len() && is_shapefile(p.input_entries@[i]) && name
                == artifact_of(p.input_entries@[i])),
{
    lemma_artifact_set_membership(p.input_entries@, name);
}

/// When the canonical output directory exists and no rebuild is forced, the
/// pipeline runs zero conversion-tool invocations and leaves the canonical
/// directory untouched, whatever else happens to the run.
pub proof fn lemma_fresh_output_skips_rebuild(p: Pipeline)
    requires
        p.wf(),
        !p.rebuild,
    ensures
        p.conversions_run == 0,
        p.canonical_fate == CanonicalFate::Untouched,
        !p.guard_armed,
{
}

/// A conversion-tool failure leaves the canonical output directory exactly
/// as it was before the run started, and — once the cleanup guard has fired
/// successfully — no directory remains under the staging name.
pub proof fn lemma_conversion_failure_preserves_canonical(p: Pipeline)
    requires
        p.wf(),
        p.phase == Phase::Cleanup || p.phase == Phase::Failed,
        (match p.error {
            Some(e) => conversion_error(e),
            None => false,
        }),
    ensures
        p.canonical_fate == CanonicalFate::Untouched,
{
    let e = p.error->Some_0;
    assert(before_swap_error(e));
}

/// The cleanup guard never fires after a successful swap: once the staged
/// generation has been promoted to the canonical name, the guard is disarmed
/// and the machine never again asks for a removal under the staging name.
pub proof fn lemma_guard_never_fires_after_swap(p: Pipeline)
    requires
        p.wf(),
        p.canonical_fate == CanonicalFate::Promoted,
    ensures
        !p.guard_armed,
        p.phase != Phase::Cleanup,
{
}

/// Re-running the import phase against the same unchanged canonical listing
/// issues exactly the same tool invocations: the import plan is a function of
/// the connection parameters and the listing alone, and a completed run has
/// issued exactly that plan.
pub proof fn lemma_reimport_same_invocations(p: Pipeline, q: Pipeline)
    requires
        p.wf(),
        q.wf(),
        p.phase == Phase::Done,
        q.phase == Phase::Done,
        p.cfg.db_host@ == q.cfg.db_host@,
        p.cfg.db_user@ == q.cfg.db_user@,
        p.cfg.db_name@ == q.cfg.db_name@,
        p.outputs.deep_view() == q.outputs.deep_view(),
    ensures
        p.imports_issued@ == q.imports_issued@,
{
    assert(p.outputs.deep_view().take(p.imported as int) =~= p.outputs.deep_view());
    assert(q.outputs.deep_view().take(q.imported as int) =~= q.outputs.deep_view());
}

} // verus!
