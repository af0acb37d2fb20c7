//! The build-and-refresh pipeline as a state machine.
//!
//! The machine decides everything; a thin driver performs each [`Action`] it
//! returns (a filesystem operation or an external-tool invocation) and feeds
//! the outcome back through the matching method.  The machine's fields model
//! the state of the two directories under that driver's faithful execution:
//! `staging` tracks whether a directory exists under the staging name,
//! `canonical_fate` how far the canonical directory has been disturbed, and
//! `canonical_names` what the canonical directory holds once the staged
//! generation has been promoted.
//!
//! The well-formedness predicate [`Pipeline::wf`] carries the pipeline's
//! invariants, among them: the canonical directory is never touched before
//! every conversion has succeeded and its artifact been staged; once the
//! cleanup guard is disarmed the machine can never again ask for the staging
//! directory's removal; and without a rebuild decision no conversion is ever
//! requested and both directories stay untouched.

use vstd::prelude::*;
use vstd::seq_lib::group_filter_ensures;

use crate::command::Config;
use crate::command::ToolCommand;
use crate::command::conversion_argv;
use crate::command::conversion_command;
use crate::command::import_argv;
use crate::command::import_command;
use crate::command::import_plan;
use crate::paths::artifact_of;
use crate::paths::artifact_path;
use crate::paths::artifact_path_view;
use crate::paths::artifact_set;
use crate::paths::filter_shapefiles;
use crate::paths::lemma_artifact_set_filter;
use crate::paths::logical_name_of;
use crate::paths::shapefile_logical_name;
use crate::paths::shp_pred;
use crate::paths::sql_suffix;
use crate::policy::should_rebuild;

verus! {

broadcast use group_filter_ensures;

/// Where the machine stands.
#[derive(Clone, Copy, PartialEq, Eq, Structural, Debug)]
pub enum Phase {
    /// Waiting to learn whether the canonical output directory exists.
    ProbeCanonical,
    /// Rebuild decided; waiting to learn whether a stale staging directory
    /// is left over from an earlier crashed run.
    ProbeStaging,
    /// Waiting for the stale staging directory's removal.
    RemoveStale,
    /// Waiting for the staging directory's creation.
    CreateStaging,
    /// Staging ready, cleanup guard armed; waiting for the input listing.
    ListInput,
    /// Waiting for the conversion tool's outcome on the next source file.
    Convert,
    /// Waiting for the captured output to be written into staging.
    WriteArtifact,
    /// All artifacts staged; waiting for the old canonical directory's
    /// removal.
    RemoveOld,
    /// Waiting for the rename of staging to the canonical name.
    Promote,
    /// Swap done or skipped; waiting for the canonical directory's listing.
    ListOutput,
    /// Waiting for the import tool's outcome on the next script.
    Import,
    /// A failure happened while the guard was armed; waiting for the staging
    /// directory's removal.
    Cleanup,
    /// Every script applied.
    Done,
    /// Aborted; `error` says why.
    Failed,
}

/// How far the canonical output directory has been disturbed by this run.
#[derive(Clone, Copy, PartialEq, Eq, Structural, Debug)]
pub enum CanonicalFate {
    /// Exactly as it was before the run started.
    Untouched,
    /// Its removal was requested and failed; its state is unknown.
    Damaged,
    /// Removed, nothing promoted in its place yet.
    Removed,
    /// The staged generation now lives under the canonical name.
    Promoted,
}

/// Whether a directory exists under the staging name.
#[derive(Clone, Copy, PartialEq, Eq, Structural, Debug)]
pub enum StagingState {
    /// Not probed yet.
    Unknown,
    Absent,
    Present,
}

/// The one operation the driver is asked to perform next.
pub enum Action {
    /// Report whether a directory exists at the path.
    Probe(String),
    /// Remove the directory at the path, recursively.
    RemoveDir(String),
    /// Create the directory at the path, with its parents.
    CreateDir(String),
    /// List the file paths inside the directory.
    ListDir(String),
    /// Run the conversion tool, capturing stdout, stderr and exit status.
    RunConversion(ToolCommand),
    /// Write the bytes to the file at the path.
    WriteFile(String, Vec<u8>),
    /// Rename the first path to the second.
    Rename(String, String),
    /// Run the import tool.
    RunImport(ToolCommand),
    /// Nothing left to do; the run succeeded iff the flag is set.
    Finish(bool),
}

/// The outcome of one external-tool invocation.
pub enum ToolOutcome {
    /// Exit status zero; the captured standard output.
    Success(Vec<u8>),
    /// Non-zero exit status: the code (if any) and the captured standard
    /// error.
    Nonzero(Option<i32>, Vec<u8>),
    /// The tool could not be executed at all; the error's text.
    NotRun(String),
}

/// Why a run aborted.  Filesystem variants carry the error's text; tool
/// variants carry the offending path and what the tool reported.
#[derive(PartialEq, Eq, Debug)]
pub enum PipelineError {
    RemoveStaleFailed(String),
    CreateStagingFailed(String),
    ListInputFailed(String),
    ConversionNotRun(String, String),
    ConversionFailed(String, Option<i32>, Vec<u8>),
    ArtifactWriteFailed(String, String),
    RemoveOldFailed(String),
    RenameFailed(String),
    ListOutputFailed(String),
    ImportNotRun(String, String),
    ImportFailed(String, Option<i32>, Vec<u8>),
}

/// Errors that can only arise before the swap begins.  While one of these is
/// the recorded error, the canonical directory has not been touched.
pub open spec fn before_swap_error(e: PipelineError) -> bool {
    match e {
        PipelineError::RemoveStaleFailed(_) => true,
        PipelineError::CreateStagingFailed(_) => true,
        PipelineError::ListInputFailed(_) => true,
        PipelineError::ConversionNotRun(_, _) => true,
        PipelineError::ConversionFailed(_, _, _) => true,
        PipelineError::ArtifactWriteFailed(_, _) => true,
        PipelineError::RemoveOldFailed(_) => false,
        PipelineError::RenameFailed(_) => false,
        PipelineError::ListOutputFailed(_) => false,
        PipelineError::ImportNotRun(_, _) => false,
        PipelineError::ImportFailed(_, _, _) => false,
    }
}

/// Errors reported by or around the conversion tool.
pub open spec fn conversion_error(e: PipelineError) -> bool {
    match e {
        PipelineError::ConversionNotRun(_, _) => true,
        PipelineError::ConversionFailed(_, _, _) => true,
        _ => false,
    }
}

/// The build-and-refresh state machine.
pub struct Pipeline {
    pub cfg: Config,
    /// Whether a rebuild was demanded on the command line.
    pub force: bool,
    pub phase: Phase,
    /// The refresh decision, once made.
    pub rebuild: bool,
    /// Whether the canonical directory existed when probed.
    pub canonical_existed: bool,
    /// The input paths that passed the shapefile filter.
    pub sources: Vec<String>,
    /// Their logical names, one per source.
    pub names: Vec<String>,
    /// How many artifacts have been written into staging.
    pub converted: usize,
    /// How many times the conversion tool has run.
    pub conversions_run: usize,
    /// The canonical directory's listing, for the import phase.
    pub outputs: Vec<String>,
    /// How many scripts have been applied.
    pub imported: usize,
    /// Whether the cleanup guard is armed.
    pub guard_armed: bool,
    pub canonical_fate: CanonicalFate,
    pub staging: StagingState,
    pub error: Option<PipelineError>,
    /// The raw input listing, as handed in.
    pub input_entries: Ghost<Seq<Seq<char>>>,
    /// The artifact names written into staging so far.
    pub staged: Ghost<Set<Seq<char>>>,
    /// What the canonical directory holds, once promoted.
    pub canonical_names: Ghost<Set<Seq<char>>>,
    /// The argument lists of the import invocations issued so far.
    pub imports_issued: Ghost<Seq<Seq<Seq<char>>>>,
}

impl Pipeline {
    /// The listing has been taken: `sources` are exactly its shapefiles, in
    /// order, and `names` their logical names.
    pub open spec fn src_ok(self) -> bool {
        &&& self.sources.deep_view() == self.input_entries@.filter(shp_pred())
        &&& self.names@.len() == self.sources@.len()
        &&& forall|i: int|
            0 <= i < self.names@.len() ==> self.names@[i]@ == logical_name_of(self.sources@[i]@)
    }

    /// The import phase has not begun.
    pub open spec fn import_side_idle(self) -> bool {
        &&& self.imported == 0
        &&& self.outputs@.len() == 0
        &&& self.imports_issued@ == Seq::<Seq<Seq<char>>>::empty()
    }

    /// Staging holds exactly the artifacts of the sources converted so far.
    pub open spec fn staged_ok(self) -> bool {
        self.staged@ == artifact_set(self.sources.deep_view().take(self.converted as int))
    }

    /// Invariants of the rebuild phases before the input listing is taken.
    pub open spec fn pre_listing(self) -> bool {
        &&& self.rebuild
        &&& self.sources@.len() == 0
        &&& self.names@.len() == 0
        &&& self.converted == 0
        &&& self.conversions_run == 0
        &&& self.canonical_fate == CanonicalFate::Untouched
        &&& self.import_side_idle()
        &&& self.error is None
    }

    /// Invariants of the phases between the input listing and the swap.
    pub open spec fn building(self) -> bool {
        &&& self.rebuild
        &&& self.guard_armed
        &&& self.src_ok()
        &&& self.staged_ok()
        &&& self.staging == StagingState::Present
        &&& self.converted <= self.sources@.len()
        &&& self.import_side_idle()
        &&& self.error is None
    }

    /// What holds of the build once the import side is reached: after a
    /// rebuild, the canonical directory holds exactly the staged generation
    /// and the staging name is gone; without one, it was never touched.
    pub open spec fn post_build(self) -> bool {
        if self.rebuild {
            &&& self.src_ok()
            &&& self.converted == self.sources@.len()
            &&& self.conversions_run == self.converted
            &&& self.canonical_fate == CanonicalFate::Promoted
            &&& self.staging == StagingState::Absent
            &&& self.canonical_names@ == artifact_set(self.input_entries@)
        } else {
            self.canonical_fate == CanonicalFate::Untouched
        }
    }

    /// The import invocations issued so far are exactly the plan's prefix.
    pub open spec fn issued_ok(self) -> bool {
        self.imports_issued@ == import_plan(
            self.cfg.db_host@,
            self.cfg.db_user@,
            self.cfg.db_name@,
            self.outputs.deep_view().take(self.imported as int),
        )
    }

    /// The machine's invariant.
    pub open spec fn wf(self) -> bool {
        &&& (!self.rebuild ==> {
            &&& self.conversions_run == 0
            &&& self.converted == 0
            &&& self.sources@.len() == 0
            &&& self.names@.len() == 0
            &&& !self.guard_armed
            &&& self.canonical_fate == CanonicalFate::Untouched
        })
        &&& match self.phase {
            Phase::ProbeCanonical => {
                &&& !self.rebuild
                &&& self.import_side_idle()
                &&& self.error is None
            },
            Phase::ProbeStaging => self.pre_listing() && !self.guard_armed,
            Phase::RemoveStale => {
                &&& self.pre_listing()
                &&& !self.guard_armed
                &&& self.staging == StagingState::Present
            },
            Phase::CreateStaging => {
                &&& self.pre_listing()
                &&& !self.guard_armed
                &&& self.staging == StagingState::Absent
            },
            Phase::ListInput => {
                &&& self.pre_listing()
                &&& self.guard_armed
                &&& self.staging == StagingState::Present
            },
            Phase::Convert => {
                &&& self.building()
                &&& self.converted < self.sources@.len()
                &&& self.conversions_run == self.converted
                &&& self.canonical_fate == CanonicalFate::Untouched
            },
            Phase::WriteArtifact => {
                &&& self.building()
                &&& self.converted < self.sources@.len()
                &&& self.conversions_run == self.converted + 1
                &&& self.canonical_fate == CanonicalFate::Untouched
            },
            Phase::RemoveOld => {
                &&& self.building()
                &&& self.converted == self.sources@.len()
                &&& self.conversions_run == self.converted
                &&& self.canonical_fate == CanonicalFate::Untouched
                &&& self.canonical_existed
            },
            Phase::Promote => {
                &&& self.building()
                &&& self.converted == self.sources@.len()
                &&& self.conversions_run == self.converted
                &&& self.canonical_fate == (if self.canonical_existed {
                    CanonicalFate::Removed
                } else {
                    CanonicalFate::Untouched
                })
            },
            Phase::ListOutput => {
                &&& !self.guard_armed
                &&& self.error is None
                &&& self.import_side_idle()
                &&& self.post_build()
            },
            Phase::Import => {
                &&& !self.guard_armed
                &&& self.error is None
                &&& self.post_build()
                &&& self.imported < self.outputs@.len()
                &&& self.issued_ok()
            },
            Phase::Done => {
                &&& !self.guard_armed
                &&& self.error is None
                &&& self.post_build()
                &&& self.imported == self.outputs@.len()
                &&& self.issued_ok()
            },
            Phase::Cleanup => {
                &&& self.rebuild
                &&& self.guard_armed
                &&& self.canonical_fate != CanonicalFate::Promoted
                &&& self.staging == StagingState::Present
                &&& self.error is Some
                &&& match self.error {
                    Some(e) => before_swap_error(e) ==> self.canonical_fate
                        == CanonicalFate::Untouched,
                    None => true,
                }
                &&& self.import_side_idle()
            },
            Phase::Failed => {
                &&& !self.guard_armed
                &&& self.error is Some
                &&& match self.error {
                    Some(e) => before_swap_error(e) ==> self.canonical_fate
                        == CanonicalFate::Untouched,
                    None => true,
                }
            },
        }
    }

    /// A fresh machine; nothing probed, nothing touched.
    pub fn new(cfg: Config, force: bool) -> (p: Pipeline)
        ensures
            p.wf(),
            p.phase == Phase::ProbeCanonical,
            p.force == force,
            p.cfg == cfg,
            !p.rebuild,
            p.conversions_run == 0,
            p.canonical_fate == CanonicalFate::Untouched,
            p.error is None,
    {
        Pipeline {
            cfg,
            force,
            phase: Phase::ProbeCanonical,
            rebuild: false,
            canonical_existed: false,
            sources: Vec::new(),
            names: Vec::new(),
            converted: 0,
            conversions_run: 0,
            outputs: Vec::new(),
            imported: 0,
            guard_armed: false,
            canonical_fate: CanonicalFate::Untouched,
            staging: StagingState::Unknown,
            error: None,
            input_entries: Ghost(Seq::empty()),
            staged: Ghost(Set::empty()),
            canonical_names: Ghost(Set::empty()),
            imports_issued: Ghost(Seq::empty()),
        }
    }

    /// The run's first step: probe the canonical output directory.
    pub fn start(&self) -> (a: Action)
        requires
            self.wf(),
            self.phase == Phase::ProbeCanonical,
        ensures
            (a matches Action::Probe(p) && p@ == self.cfg.canonical_dir@),
    {
        Action::Probe(self.cfg.canonical_dir.clone())
    }

    /// Feeds in whether the canonical directory exists.  This is the one
    /// place the refresh policy is evaluated: rebuild when forced or when
    /// the canonical directory is missing, and then probe the staging name;
    /// otherwise go straight to the import side.
    pub fn canonical_probed(&mut self, exists: bool) -> (a: Action)
        requires
            old(self).wf(),
            old(self).phase == Phase::ProbeCanonical,
        ensures
            final(self).wf(),
            final(self).rebuild == (old(self).force || !exists),
            final(self).canonical_existed == exists,
            final(self).cfg == old(self).cfg,
            final(self).conversions_run == 0,
            final(self).canonical_fate == CanonicalFate::Untouched,
            final(self).rebuild ==> final(self).phase == Phase::ProbeStaging && (
            a matches Action::Probe(p) && p@ == old(self).cfg.staging_dir@),
            !final(self).rebuild ==> final(self).phase == Phase::ListOutput && (
            a matches Action::ListDir(p) && p@ == old(self).cfg.canonical_dir@),
    {
        self.canonical_existed = exists;
        self.rebuild = should_rebuild(self.force, exists);
        if self.rebuild {
            self.phase = Phase::ProbeStaging;
            Action::Probe(self.cfg.staging_dir.clone())
        } else {
            self.phase = Phase::ListOutput;
            Action::ListDir(self.cfg.canonical_dir.clone())
        }
    }

    /// Feeds in whether a stale staging directory exists.  A leftover from a
    /// crashed run is never trusted: it is removed before the fresh staging
    /// directory is created.
    pub fn staging_probed(&mut self, exists: bool) -> (a: Action)
        requires
            old(self).wf(),
            old(self).phase == Phase::ProbeStaging,
        ensures
            final(self).wf(),
            final(self).cfg == old(self).cfg,
            exists ==> final(self).phase == Phase::RemoveStale && (
            a matches Action::RemoveDir(p) && p@ == old(self).cfg.staging_dir@),
            !exists ==> final(self).phase == Phase::CreateStaging && (
            a matches Action::CreateDir(p) && p@ == old(self).cfg.staging_dir@),
    {
        if exists {
            self.staging = StagingState::Present;
            self.phase = Phase::RemoveStale;
            Action::RemoveDir(self.cfg.staging_dir.clone())
        } else {
            self.staging = StagingState::Absent;
            self.phase = Phase::CreateStaging;
            Action::CreateDir(self.cfg.staging_dir.clone())
        }
    }

    /// Feeds in the outcome of removing the stale staging directory.  A
    /// failure is fatal; the guard is not armed yet, so nothing is cleaned.
    pub fn stale_removed(&mut self, outcome: Result<(), String>) -> (a: Action)
        requires
            old(self).wf(),
            old(self).phase == Phase::RemoveStale,
        ensures
            final(self).wf(),
            final(self).cfg == old(self).cfg,
            outcome is Ok ==> final(self).phase == Phase::CreateStaging && final(self).staging
                == StagingState::Absent && (
            a matches Action::CreateDir(p) && p@ == old(self).cfg.staging_dir@),
            outcome matches Err(e) ==> final(self).phase == Phase::Failed && final(self).error
                == Some(PipelineError::RemoveStaleFailed(e)) && final(self).canonical_fate
                == CanonicalFate::Untouched && (a matches Action::Finish(ok) && !ok),
    {
        match outcome {
            Ok(()) => {
                self.staging = StagingState::Absent;
                self.phase = Phase::CreateStaging;
                Action::CreateDir(self.cfg.staging_dir.clone())
            },
            Err(e) => {
                self.error = Some(PipelineError::RemoveStaleFailed(e));
                self.phase = Phase::Failed;
                Action::Finish(false)
            },
        }
    }

    /// Feeds in the outcome of creating the staging directory.  On success
    /// the cleanup guard is armed: from here until the swap, every failure
    /// path asks for the staging directory's removal.
    pub fn staging_created(&mut self, outcome: Result<(), String>) -> (a: Action)
        requires
            old(self).wf(),
            old(self).phase == Phase::CreateStaging,
        ensures
            final(self).wf(),
            final(self).cfg == old(self).cfg,
            final(self).canonical_existed == old(self).canonical_existed,
            outcome is Ok ==> final(self).phase == Phase::ListInput && final(self).guard_armed
                && final(self).staging == StagingState::Present && (
            a matches Action::ListDir(p) && p@ == old(self).cfg.input_dir@),
            outcome matches Err(e) ==> final(self).phase == Phase::Failed && final(self).error
                == Some(PipelineError::CreateStagingFailed(e)) && final(self).canonical_fate
                == CanonicalFate::Untouched && (a matches Action::Finish(ok) && !ok),
    {
        match outcome {
            Ok(()) => {
                self.staging = StagingState::Present;
                self.guard_armed = true;
                self.phase = Phase::ListInput;
                Action::ListDir(self.cfg.input_dir.clone())
            },
            Err(e) => {
                self.error = Some(PipelineError::CreateStagingFailed(e));
                self.phase = Phase::Failed;
                Action::Finish(false)
            },
        }
    }

    /// The conversion request for the next source file.
    fn convert_action(&self) -> (a: Action)
        requires
            self.wf(),
            self.phase == Phase::Convert,
        ensures
            (a matches Action::RunConversion(c) && c.program@ == "shp2pgsql"@
                && c.args.deep_view() == conversion_argv(
                self.cfg.srid@,
                self.sources@[self.converted as int]@,
                self.names@[self.converted as int]@,
            )),
    {
        Action::RunConversion(
            conversion_command(&self.cfg, &self.sources[self.converted], &self.names[self.converted]),
        )
    }

    /// Moves on to the swap once every artifact is staged: remove the old
    /// canonical directory if there is one, else rename staging directly.
    fn begin_swap(&mut self) -> (a: Action)
        requires
            old(self).building(),
            old(self).converted == old(self).sources@.len(),
            old(self).conversions_run == old(self).converted,
            old(self).canonical_fate == CanonicalFate::Untouched,
        ensures
            final(self).wf(),
            *final(self) == (Pipeline { phase: final(self).phase, ..*old(self) }),
            old(self).canonical_existed ==> final(self).phase == Phase::RemoveOld && (
            a matches Action::RemoveDir(p) && p@ == old(self).cfg.canonical_dir@),
            !old(self).canonical_existed ==> final(self).phase == Phase::Promote && (
            a matches Action::Rename(f, t) && f@ == old(self).cfg.staging_dir@ && t@ == old(
                self,
            ).cfg.canonical_dir@),
    {
        if self.canonical_existed {
            self.phase = Phase::RemoveOld;
            Action::RemoveDir(self.cfg.canonical_dir.clone())
        } else {
            self.phase = Phase::Promote;
            Action::Rename(self.cfg.staging_dir.clone(), self.cfg.canonical_dir.clone())
        }
    }

    /// Feeds in the input directory's listing.  The listing is filtered to
    /// shapefiles and their logical names derived; an empty result is a
    /// warning (the second component), not an error, and the pipeline goes on
    /// to promote an empty generation.  A listing failure is fatal.
    pub fn input_listed(&mut self, listing: Result<Vec<String>, String>) -> (r: (Action, bool))
        requires
            old(self).wf(),
            old(self).phase == Phase::ListInput,
        ensures
            final(self).wf(),
            final(self).cfg == old(self).cfg,
            listing matches Ok(entries) ==> {
                &&& final(self).input_entries@ == entries.deep_view()
                &&& final(self).sources.deep_view() == entries.deep_view().filter(shp_pred())
                &&& final(self).error is None
                &&& r.1 == (final(self).sources@.len() == 0)
                &&& final(self).canonical_fate == CanonicalFate::Untouched
                &&& if final(self).sources@.len() == 0 {
                    (if old(self).canonical_existed {
                        final(self).phase == Phase::RemoveOld && (
                        r.0 matches Action::RemoveDir(p) && p@ == old(self).cfg.canonical_dir@)
                    } else {
                        final(self).phase == Phase::Promote && (
                        r.0 matches Action::Rename(f, t) && f@ == old(self).cfg.staging_dir@
                            && t@ == old(self).cfg.canonical_dir@)
                    })
                } else {
                    final(self).phase == Phase::Convert && final(self).converted == 0 && (
                    r.0 matches Action::RunConversion(c) && c.program@ == "shp2pgsql"@
                        && c.args.deep_view() == conversion_argv(
                        old(self).cfg.srid@,
                        final(self).sources@[0]@,
                        final(self).names@[0]@,
                    ))
                }
            },
            listing matches Err(e) ==> {
                &&& final(self).phase == Phase::Cleanup
                &&& final(self).error == Some(PipelineError::ListInputFailed(e))
                &&& final(self).canonical_fate == CanonicalFate::Untouched
                &&& (r.0 matches Action::RemoveDir(p) && p@ == old(self).cfg.staging_dir@)
                &&& !r.1
            },
    {
        match listing {
            Ok(entries) => {
                self.input_entries = Ghost(entries.deep_view());
                let sources = filter_shapefiles(&entries);
                let mut names: Vec<String> = Vec::new();
                let n = sources.len();
                let mut i: usize = 0;
                while i < n
                    invariant
                        i <= n,
                        n == sources@.len(),
                        sources.deep_view() == self.input_entries@.filter(shp_pred()),
                        names@.len() == i,
                        forall|j: int|
                            0 <= j < i ==> names@[j]@ == logical_name_of(sources@[j]@),
                    decreases n - i,
                {
                    proof {
                        assert(sources.deep_view()[i as int] == self.input_entries@.filter(
                            shp_pred(),
                        )[i as int]);
                        assert(shp_pred()(sources.deep_view()[i as int]));
                    }
                    let name = shapefile_logical_name(sources[i].as_str());
                    names.push(name);
                    i += 1;
                }
                self.sources = sources;
                self.names = names;
                self.converted = 0;
                self.staged = Ghost(Set::empty());
                proof {
                    assert(self.sources.deep_view().take(0) =~= Seq::<Seq<char>>::empty());
                    assert(artifact_set(Seq::<Seq<char>>::empty()) =~= Set::<Seq<char>>::empty());
                }
                if n == 0 {
                    let a = self.begin_swap();
                    (a, true)
                } else {
                    self.phase = Phase::Convert;
                    (self.convert_action(), false)
                }
            },
            Err(e) => {
                self.error = Some(PipelineError::ListInputFailed(e));
                self.phase = Phase::Cleanup;
                (Action::RemoveDir(self.cfg.staging_dir.clone()), false)
            },
        }
    }

    /// Feeds in the conversion tool's outcome for the current source file.
    /// Success hands back the captured bytes as a write request; any failure
    /// is fatal and asks for the staging directory's removal, leaving the
    /// canonical directory untouched.
    pub fn converted_one(&mut self, outcome: ToolOutcome) -> (a: Action)
        requires
            old(self).wf(),
            old(self).phase == Phase::Convert,
        ensures
            final(self).wf(),
            final(self).cfg == old(self).cfg,
            final(self).canonical_fate == CanonicalFate::Untouched,
            outcome matches ToolOutcome::Success(bytes) ==> {
                &&& final(self).phase == Phase::WriteArtifact
                &&& final(self).conversions_run == old(self).conversions_run + 1
                &&& (a matches Action::WriteFile(p, b) && p@ == artifact_path_view(
                    old(self).cfg.staging_dir@,
                    old(self).names@[old(self).converted as int]@,
                ) && b == bytes)
            },
            outcome matches ToolOutcome::Nonzero(code, stderr) ==> {
                &&& final(self).phase == Phase::Cleanup
                &&& final(self).conversions_run == old(self).conversions_run + 1
                &&& final(self).error matches Some(PipelineError::ConversionFailed(p, c, s))
                    && p@ == old(self).sources@[old(self).converted as int]@ && c == code && s
                    == stderr
                &&& (a matches Action::RemoveDir(p) && p@ == old(self).cfg.staging_dir@)
            },
            outcome matches ToolOutcome::NotRun(e) ==> {
                &&& final(self).phase == Phase::Cleanup
                &&& final(self).conversions_run == old(self).conversions_run
                &&& final(self).error matches Some(PipelineError::ConversionNotRun(p, m)) && p@
                    == old(self).sources@[old(self).converted as int]@ && m == e
                &&& (a matches Action::RemoveDir(p) && p@ == old(self).cfg.staging_dir@)
            },
    {
        // conversions_run stays below the source count, which fits in usize.
        let _bound = self.sources.len();
        match outcome {
            ToolOutcome::Success(bytes) => {
                self.conversions_run = self.conversions_run + 1;
                self.phase = Phase::WriteArtifact;
                let path = artifact_path(&self.cfg.staging_dir, &self.names[self.converted]);
                Action::WriteFile(path, bytes)
            },
            ToolOutcome::Nonzero(code, stderr) => {
                self.conversions_run = self.conversions_run + 1;
                self.error = Some(
                    PipelineError::ConversionFailed(
                        self.sources[self.converted].clone(),
                        code,
                        stderr,
                    ),
                );
                self.phase = Phase::Cleanup;
                Action::RemoveDir(self.cfg.staging_dir.clone())
            },
            ToolOutcome::NotRun(e) => {
                self.error = Some(
                    PipelineError::ConversionNotRun(self.sources[self.converted].clone(), e),
                );
                self.phase = Phase::Cleanup;
                Action::RemoveDir(self.cfg.staging_dir.clone())
            },
        }
    }

    /// Feeds in the outcome of writing the current artifact into staging.
    /// On success the artifact joins the staged set and the pipeline moves to
    /// the next source, or to the swap when this was the last one.
    pub fn artifact_written(&mut self, outcome: Result<(), String>) -> (a: Action)
        requires
            old(self).wf(),
            old(self).phase == Phase::WriteArtifact,
        ensures
            final(self).wf(),
            final(self).cfg == old(self).cfg,
            outcome is Ok ==> {
                &&& final(self).converted == old(self).converted + 1
                &&& final(self).staged@ == old(self).staged@.insert(
                    artifact_of(old(self).sources@[old(self).converted as int]@),
                )
                &&& if final(self).converted < final(self).sources@.len() {
                    final(self).phase == Phase::Convert && (
                    a matches Action::RunConversion(c) && c.program@ == "shp2pgsql"@
                        && c.args.deep_view() == conversion_argv(
                        old(self).cfg.srid@,
                        old(self).sources@[old(self).converted as int + 1]@,
                        old(self).names@[old(self).converted as int + 1]@,
                    ))
                } else {
                    (if old(self).canonical_existed {
                        final(self).phase == Phase::RemoveOld && (
                        a matches Action::RemoveDir(p) && p@ == old(self).cfg.canonical_dir@)
                    } else {
                        final(self).phase == Phase::Promote && (
                        a matches Action::Rename(f, t) && f@ == old(self).cfg.staging_dir@
                            && t@ == old(self).cfg.canonical_dir@)
                    })
                }
            },
            outcome matches Err(e) ==> {
                &&& final(self).phase == Phase::Cleanup
                &&& final(self).error matches Some(PipelineError::ArtifactWriteFailed(p, m))
                    && p@ == old(self).sources@[old(self).converted as int]@ && m == e
                &&& final(self).canonical_fate == CanonicalFate::Untouched
                &&& (a matches Action::RemoveDir(p) && p@ == old(self).cfg.staging_dir@)
            },
    {
        match outcome {
            Ok(()) => {
                let ghost c = self.converted as int;
                let ghost d = self.sources.deep_view();
                let art = artifact_path(&self.cfg.staging_dir, &self.names[self.converted]);
                self.staged = Ghost(self.staged@.insert(self.names@[c]@ + sql_suffix()));
                self.converted = self.converted + 1;
                proof {
                    assert(d[c] == self.input_entries@.filter(shp_pred())[c]);
                    assert(shp_pred()(d[c]));
                    assert(d.take(c + 1).drop_last() =~= d.take(c));
                    assert(d.take(c + 1).last() == d[c]);
                    assert(self.staged@ =~= artifact_set(d.take(c + 1)));
                }
                if self.converted < self.sources.len() {
                    self.phase = Phase::Convert;
                    self.convert_action()
                } else {
                    self.begin_swap()
                }
            },
            Err(e) => {
                self.error = Some(
                    PipelineError::ArtifactWriteFailed(self.sources[self.converted].clone(), e),
                );
                self.phase = Phase::Cleanup;
                Action::RemoveDir(self.cfg.staging_dir.clone())
            },
        }
    }

    /// Feeds in the outcome of removing the old canonical directory.  Only
    /// reached when every conversion succeeded; a failure here leaves the
    /// canonical directory in an unknown state and is fatal.
    pub fn old_removed(&mut self, outcome: Result<(), String>) -> (a: Action)
        requires
            old(self).wf(),
            old(self).phase == Phase::RemoveOld,
        ensures
            final(self).wf(),
            final(self).cfg == old(self).cfg,
            outcome is Ok ==> final(self).phase == Phase::Promote && final(self).canonical_fate
                == CanonicalFate::Removed && (
            a matches Action::Rename(f, t) && f@ == old(self).cfg.staging_dir@ && t@ == old(
                self,
            ).cfg.canonical_dir@),
            outcome matches Err(e) ==> final(self).phase == Phase::Cleanup && final(self).error
                == Some(PipelineError::RemoveOldFailed(e)) && final(self).canonical_fate
                == CanonicalFate::Damaged && (
            a matches Action::RemoveDir(p) && p@ == old(self).cfg.staging_dir@),
    {
        match outcome {
            Ok(()) => {
                self.canonical_fate = CanonicalFate::Removed;
                self.phase = Phase::Promote;
                Action::Rename(self.cfg.staging_dir.clone(), self.cfg.canonical_dir.clone())
            },
            Err(e) => {
                self.canonical_fate = CanonicalFate::Damaged;
                self.error = Some(PipelineError::RemoveOldFailed(e));
                self.phase = Phase::Cleanup;
                Action::RemoveDir(self.cfg.staging_dir.clone())
            },
        }
    }

    /// Feeds in the outcome of the rename.  On success the staged generation
    /// is now the canonical directory, the staging name is gone, and the
    /// cleanup guard is disarmed; the canonical directory holds exactly one
    /// artifact per input shapefile.
    pub fn promoted(&mut self, outcome: Result<(), String>) -> (a: Action)
        requires
            old(self).wf(),
            old(self).phase == Phase::Promote,
        ensures
            final(self).wf(),
            final(self).cfg == old(self).cfg,
            outcome is Ok ==> {
                &&& final(self).phase == Phase::ListOutput
                &&& !final(self).guard_armed
                &&& final(self).staging == StagingState::Absent
                &&& final(self).canonical_fate == CanonicalFate::Promoted
                &&& final(self).canonical_names@ == artifact_set(old(self).input_entries@)
                &&& (a matches Action::ListDir(p) && p@ == old(self).cfg.canonical_dir@)
            },
            outcome matches Err(e) ==> {
                &&& final(self).phase == Phase::Cleanup
                &&& final(self).error == Some(PipelineError::RenameFailed(e))
                &&& final(self).canonical_fate == old(self).canonical_fate
                &&& (a matches Action::RemoveDir(p) && p@ == old(self).cfg.staging_dir@)
            },
    {
        match outcome {
            Ok(()) => {
                proof {
                    assert(self.sources.deep_view().take(self.converted as int)
                        =~= self.sources.deep_view());
                    lemma_artifact_set_filter(self.input_entries@);
                }
                self.canonical_names = Ghost(self.staged@);
                self.staged = Ghost(Set::empty());
                self.staging = StagingState::Absent;
                self.canonical_fate = CanonicalFate::Promoted;
                self.guard_armed = false;
                self.phase = Phase::ListOutput;
                Action::ListDir(self.cfg.canonical_dir.clone())
            },
            Err(e) => {
                self.error = Some(PipelineError::RenameFailed(e));
                self.phase = Phase::Cleanup;
                Action::RemoveDir(self.cfg.staging_dir.clone())
            },
        }
    }

    /// The import request for the next script.
    fn import_action(&self) -> (a: Action)
        requires
            self.wf(),
            self.phase == Phase::Import,
        ensures
            (a matches Action::RunImport(c) && c.program@ == "psql"@ && c.args.deep_view()
                == import_argv(
                self.cfg.db_host@,
                self.cfg.db_user@,
                self.cfg.db_name@,
                self.outputs@[self.imported as int]@,
            )),
    {
        Action::RunImport(import_command(&self.cfg, &self.outputs[self.imported]))
    }

    /// Feeds in the canonical directory's listing; every entry will be
    /// handed to the import tool, in listing order.  An empty listing is a
    /// warning (the second component) and the run is already complete.
    pub fn output_listed(&mut self, listing: Result<Vec<String>, String>) -> (r: (Action, bool))
        requires
            old(self).wf(),
            old(self).phase == Phase::ListOutput,
        ensures
            final(self).wf(),
            final(self).cfg == old(self).cfg,
            final(self).canonical_fate == old(self).canonical_fate,
            listing matches Ok(files) ==> {
                &&& final(self).outputs@ == files@
                &&& final(self).imported == 0
                &&& final(self).error is None
                &&& r.1 == (files@.len() == 0)
                &&& if files@.len() == 0 {
                    final(self).phase == Phase::Done && (r.0 matches Action::Finish(ok) && ok)
                } else {
                    final(self).phase == Phase::Import && (
                    r.0 matches Action::RunImport(c) && c.program@ == "psql"@
                        && c.args.deep_view() == import_argv(
                        old(self).cfg.db_host@,
                        old(self).cfg.db_user@,
                        old(self).cfg.db_name@,
                        files.deep_view()[0],
                    ))
                }
            },
            listing matches Err(e) ==> {
                &&& final(self).phase == Phase::Failed
                &&& final(self).error == Some(PipelineError::ListOutputFailed(e))
                &&& (r.0 matches Action::Finish(ok) && !ok)
                &&& !r.1
            },
    {
        match listing {
            Ok(files) => {
                let empty = files.len() == 0;
                self.outputs = files;
                self.imported = 0;
                proof {
                    assert(self.outputs.deep_view().take(0) =~= Seq::<Seq<char>>::empty());
                    assert(import_plan(
                        self.cfg.db_host@,
                        self.cfg.db_user@,
                        self.cfg.db_name@,
                        Seq::<Seq<char>>::empty(),
                    ) =~= Seq::<Seq<Seq<char>>>::empty());
                }
                if empty {
                    self.phase = Phase::Done;
                    (Action::Finish(true), true)
                } else {
                    self.phase = Phase::Import;
                    (self.import_action(), false)
                }
            },
            Err(e) => {
                self.error = Some(PipelineError::ListOutputFailed(e));
                self.phase = Phase::Failed;
                (Action::Finish(false), false)
            },
        }
    }

    /// Feeds in the import tool's outcome for the current script.  The first
    /// failure aborts the remaining imports; nothing is retried.
    pub fn imported_one(&mut self, outcome: ToolOutcome) -> (a: Action)
        requires
            old(self).wf(),
            old(self).phase == Phase::Import,
        ensures
            final(self).wf(),
            final(self).cfg == old(self).cfg,
            final(self).canonical_fate == old(self).canonical_fate,
            outcome matches ToolOutcome::Success(_) ==> {
                &&& final(self).imported == old(self).imported + 1
                &&& final(self).imports_issued@ == old(self).imports_issued@.push(
                    import_argv(
                        old(self).cfg.db_host@,
                        old(self).cfg.db_user@,
                        old(self).cfg.db_name@,
                        old(self).outputs@[old(self).imported as int]@,
                    ),
                )
                &&& if final(self).imported < final(self).outputs@.len() {
                    final(self).phase == Phase::Import && (
                    a matches Action::RunImport(c) && c.program@ == "psql"@
                        && c.args.deep_view() == import_argv(
                        old(self).cfg.db_host@,
                        old(self).cfg.db_user@,
                        old(self).cfg.db_name@,
                        old(self).outputs@[old(self).imported as int + 1]@,
                    ))
                } else {
                    final(self).phase == Phase::Done && (a matches Action::Finish(ok) && ok)
                }
            },
            outcome matches ToolOutcome::Nonzero(code, stderr) ==> {
                &&& final(self).phase == Phase::Failed
                &&& final(self).error matches Some(PipelineError::ImportFailed(p, c, s)) && p@
                    == old(self).outputs@[old(self).imported as int]@ && c == code && s == stderr
                &&& (a matches Action::Finish(ok) && !ok)
            },
            outcome matches ToolOutcome::NotRun(e) ==> {
                &&& final(self).phase == Phase::Failed
                &&& final(self).error matches Some(PipelineError::ImportNotRun(p, m)) && p@
                    == old(self).outputs@[old(self).imported as int]@ && m == e
                &&& (a matches Action::Finish(ok) && !ok)
            },
    {
        let n = self.outputs.len();
        match outcome {
            ToolOutcome::Success(_) => {
                let ghost i = self.imported as int;
                let ghost d = self.outputs.deep_view();
                let ghost argv = import_argv(
                    self.cfg.db_host@,
                    self.cfg.db_user@,
                    self.cfg.db_name@,
                    d[i],
                );
                self.imports_issued = Ghost(self.imports_issued@.push(argv));
                self.imported = self.imported + 1;
                proof {
                    assert(d.take(i + 1) =~= d.take(i).push(d[i]));
                    assert(import_plan(
                        self.cfg.db_host@,
                        self.cfg.db_user@,
                        self.cfg.db_name@,
                        d.take(i + 1),
                    ) =~= self.imports_issued@);
                }
                if self.imported < n {
                    self.phase = Phase::Import;
                    self.import_action()
                } else {
                    self.phase = Phase::Done;
                    Action::Finish(true)
                }
            },
            ToolOutcome::Nonzero(code, stderr) => {
                self.error = Some(
                    PipelineError::ImportFailed(self.outputs[self.imported].clone(), code, stderr),
                );
                self.phase = Phase::Failed;
                Action::Finish(false)
            },
            ToolOutcome::NotRun(e) => {
                self.error = Some(
                    PipelineError::ImportNotRun(self.outputs[self.imported].clone(), e),
                );
                self.phase = Phase::Failed;
                Action::Finish(false)
            },
        }
    }

    /// Feeds in the outcome of the cleanup guard's removal of the staging
    /// directory.  Cleanup is best-effort: either way the run has failed with
    /// the error recorded earlier; a removal failure never replaces it.
    pub fn cleaned_up(&mut self, removed: bool) -> (a: Action)
        requires
            old(self).wf(),
            old(self).phase == Phase::Cleanup,
        ensures
            final(self).wf(),
            final(self).cfg == old(self).cfg,
            final(self).phase == Phase::Failed,
            !final(self).guard_armed,
            final(self).error == old(self).error,
            final(self).canonical_fate == old(self).canonical_fate,
            removed ==> final(self).staging == StagingState::Absent,
            !removed ==> final(self).staging == StagingState::Present,
            (a matches Action::Finish(ok) && !ok),
    {
        if removed {
            self.staging = StagingState::Absent;
        }
        self.guard_armed = false;
        self.phase = Phase::Failed;
        Action::Finish(false)
    }
}

} // verus!
