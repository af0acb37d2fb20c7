use exporter::command::Config;
use exporter::pipeline::Action;
use exporter::pipeline::CanonicalFate;
use exporter::pipeline::Phase;
use exporter::pipeline::Pipeline;
use exporter::pipeline::PipelineError;
use exporter::pipeline::StagingState;
use exporter::pipeline::ToolOutcome;

fn failure_config() -> Config {
    Config {
        input_dir: "in".to_string(),
        staging_dir: "tmp".to_string(),
        canonical_dir: "out".to_string(),
        srid: "26918".to_string(),
        db_host: "localhost".to_string(),
        db_user: "postgres".to_string(),
        db_name: "postgres".to_string(),
        db_password: "postgres".to_string(),
    }
}

/// Drives a forced rebuild up to the input listing.
fn rebuild_at_listing() -> Pipeline {
    let mut p = Pipeline::new(failure_config(), true);
    p.start();
    p.canonical_probed(true);
    p.staging_probed(false);
    p.staging_created(Ok(()));
    p
}

/// Drives a forced rebuild to the point where the conversion of the given
/// listing's first shapefile is awaited.
fn rebuild_at_first_conversion(listing: Vec<String>) -> Pipeline {
    let mut p = rebuild_at_listing();
    let (a, _) = p.input_listed(Ok(listing));
    match a {
        Action::RunConversion(_) => {}
        _ => panic!("expected a conversion request"),
    }
    p
}

#[test]
fn conversion_failure_cleans_up_and_spares_the_canonical_directory() {
    // Three inputs; the tool fails on the second.
    let mut p = rebuild_at_first_conversion(vec![
        "in/a.shp".to_string(),
        "in/b.shp".to_string(),
        "in/c.shp".to_string(),
    ]);
    p.converted_one(ToolOutcome::Success(b"a".to_vec()));
    let a = p.artifact_written(Ok(()));
    match a {
        Action::RunConversion(_) => {}
        _ => panic!("expected the second conversion"),
    }

    // The failure aborts the whole build: the staging directory is removed,
    // the canonical directory was never touched.
    match p.converted_one(ToolOutcome::Nonzero(Some(1), b"boom".to_vec())) {
        Action::RemoveDir(d) => assert_eq!(d, "tmp"),
        _ => panic!("expected the cleanup of the staging directory"),
    }
    assert_eq!(p.phase, Phase::Cleanup);
    assert_eq!(p.conversions_run, 2);
    assert_eq!(
        p.error,
        Some(PipelineError::ConversionFailed("in/b.shp".to_string(), Some(1), b"boom".to_vec()))
    );

    match p.cleaned_up(true) {
        Action::Finish(ok) => assert!(!ok),
        _ => panic!("expected the run to finish"),
    }
    assert_eq!(p.phase, Phase::Failed);
    assert_eq!(p.canonical_fate, CanonicalFate::Untouched);
    assert_eq!(p.staging, StagingState::Absent);
    assert!(!p.guard_armed);
}

#[test]
fn conversion_spawn_failure_cleans_up() {
    let mut p = rebuild_at_first_conversion(vec!["in/a.shp".to_string()]);
    match p.converted_one(ToolOutcome::NotRun("not found".to_string())) {
        Action::RemoveDir(d) => assert_eq!(d, "tmp"),
        _ => panic!("expected the cleanup of the staging directory"),
    }
    assert_eq!(p.conversions_run, 0);
    assert_eq!(
        p.error,
        Some(PipelineError::ConversionNotRun("in/a.shp".to_string(), "not found".to_string()))
    );
    p.cleaned_up(true);
    assert_eq!(p.canonical_fate, CanonicalFate::Untouched);
}

#[test]
fn artifact_write_failure_cleans_up() {
    let mut p = rebuild_at_first_conversion(vec!["in/a.shp".to_string()]);
    p.converted_one(ToolOutcome::Success(b"a".to_vec()));
    match p.artifact_written(Err("disk full".to_string())) {
        Action::RemoveDir(d) => assert_eq!(d, "tmp"),
        _ => panic!("expected the cleanup of the staging directory"),
    }
    assert_eq!(
        p.error,
        Some(PipelineError::ArtifactWriteFailed("in/a.shp".to_string(), "disk full".to_string()))
    );
    p.cleaned_up(true);
    assert_eq!(p.canonical_fate, CanonicalFate::Untouched);
}

#[test]
fn cleanup_failure_is_reported_but_keeps_the_original_error() {
    let mut p = rebuild_at_first_conversion(vec!["in/a.shp".to_string()]);
    p.converted_one(ToolOutcome::Nonzero(None, Vec::new()));
    p.cleaned_up(false);
    assert_eq!(p.phase, Phase::Failed);
    assert_eq!(p.staging, StagingState::Present);
    assert_eq!(
        p.error,
        Some(PipelineError::ConversionFailed("in/a.shp".to_string(), None, Vec::new()))
    );
}

#[test]
fn stale_staging_removal_failure_is_fatal() {
    let mut p = Pipeline::new(failure_config(), true);
    p.start();
    p.canonical_probed(false);
    p.staging_probed(true);
    match p.stale_removed(Err("permission denied".to_string())) {
        Action::Finish(ok) => assert!(!ok),
        _ => panic!("expected the run to finish"),
    }
    assert_eq!(p.phase, Phase::Failed);
    assert_eq!(p.error, Some(PipelineError::RemoveStaleFailed("permission denied".to_string())));
    assert_eq!(p.canonical_fate, CanonicalFate::Untouched);
}

#[test]
fn staging_creation_failure_is_fatal() {
    let mut p = Pipeline::new(failure_config(), true);
    p.start();
    p.canonical_probed(false);
    p.staging_probed(false);
    match p.staging_created(Err("read-only".to_string())) {
        Action::Finish(ok) => assert!(!ok),
        _ => panic!("expected the run to finish"),
    }
    assert_eq!(p.error, Some(PipelineError::CreateStagingFailed("read-only".to_string())));
    assert!(!p.guard_armed);
}

#[test]
fn input_listing_failure_cleans_up() {
    let mut p = rebuild_at_listing();
    let (a, warn) = p.input_listed(Err("no such directory".to_string()));
    assert!(!warn);
    match a {
        Action::RemoveDir(d) => assert_eq!(d, "tmp"),
        _ => panic!("expected the cleanup of the staging directory"),
    }
    assert_eq!(p.error, Some(PipelineError::ListInputFailed("no such directory".to_string())));
    p.cleaned_up(true);
    assert_eq!(p.canonical_fate, CanonicalFate::Untouched);
}

#[test]
fn old_canonical_removal_failure_cleans_up() {
    let mut p = rebuild_at_first_conversion(vec!["in/a.shp".to_string()]);
    p.converted_one(ToolOutcome::Success(b"a".to_vec()));
    match p.artifact_written(Ok(())) {
        Action::RemoveDir(d) => assert_eq!(d, "out"),
        _ => panic!("expected removal of the old canonical directory"),
    }
    match p.old_removed(Err("busy".to_string())) {
        Action::RemoveDir(d) => assert_eq!(d, "tmp"),
        _ => panic!("expected the cleanup of the staging directory"),
    }
    assert_eq!(p.error, Some(PipelineError::RemoveOldFailed("busy".to_string())));
    assert_eq!(p.canonical_fate, CanonicalFate::Damaged);
}

#[test]
fn rename_failure_cleans_up() {
    let mut p = Pipeline::new(failure_config(), true);
    p.start();
    p.canonical_probed(false);
    p.staging_probed(false);
    p.staging_created(Ok(()));
    let (a, _) = p.input_listed(Ok(vec!["in/a.shp".to_string()]));
    match a {
        Action::RunConversion(_) => {}
        _ => panic!("expected a conversion request"),
    }
    p.converted_one(ToolOutcome::Success(b"a".to_vec()));
    match p.artifact_written(Ok(())) {
        Action::Rename(from, to) => {
            assert_eq!(from, "tmp");
            assert_eq!(to, "out");
        }
        _ => panic!("expected the rename"),
    }
    match p.promoted(Err("cross-device".to_string())) {
        Action::RemoveDir(d) => assert_eq!(d, "tmp"),
        _ => panic!("expected the cleanup of the staging directory"),
    }
    assert_eq!(p.error, Some(PipelineError::RenameFailed("cross-device".to_string())));
    p.cleaned_up(true);
    assert_eq!(p.staging, StagingState::Absent);
}

#[test]
fn output_listing_failure_is_fatal() {
    let mut p = Pipeline::new(failure_config(), false);
    p.start();
    p.canonical_probed(true);
    let (a, warn) = p.output_listed(Err("gone".to_string()));
    assert!(!warn);
    match a {
        Action::Finish(ok) => assert!(!ok),
        _ => panic!("expected the run to finish"),
    }
    assert_eq!(p.error, Some(PipelineError::ListOutputFailed("gone".to_string())));
}

#[test]
fn import_failure_stops_the_remaining_imports() {
    let mut p = Pipeline::new(failure_config(), false);
    p.start();
    p.canonical_probed(true);
    let (a, _) = p.output_listed(Ok(vec!["out/a.sql".to_string(), "out/b.sql".to_string()]));
    match a {
        Action::RunImport(_) => {}
        _ => panic!("expected an import request"),
    }
    match p.imported_one(ToolOutcome::Nonzero(Some(2), b"syntax error".to_vec())) {
        Action::Finish(ok) => assert!(!ok),
        _ => panic!("expected the run to finish"),
    }
    assert_eq!(p.phase, Phase::Failed);
    assert_eq!(
        p.error,
        Some(PipelineError::ImportFailed("out/a.sql".to_string(), Some(2), b"syntax error".to_vec()))
    );
}

#[test]
fn import_spawn_failure_is_fatal() {
    let mut p = Pipeline::new(failure_config(), false);
    p.start();
    p.canonical_probed(true);
    p.output_listed(Ok(vec!["out/a.sql".to_string()]));
    match p.imported_one(ToolOutcome::NotRun("not found".to_string())) {
        Action::Finish(ok) => assert!(!ok),
        _ => panic!("expected the run to finish"),
    }
    assert_eq!(
        p.error,
        Some(PipelineError::ImportNotRun("out/a.sql".to_string(), "not found".to_string()))
    );
}
