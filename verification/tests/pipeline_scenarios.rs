use exporter::command::Config;
use exporter::pipeline::Action;
use exporter::pipeline::CanonicalFate;
use exporter::pipeline::Phase;
use exporter::pipeline::Pipeline;
use exporter::pipeline::StagingState;
use exporter::pipeline::ToolOutcome;

fn scenario_config() -> Config {
    Config {
        input_dir: "shp_files".to_string(),
        staging_dir: "shp_to_sql_tmp".to_string(),
        canonical_dir: "shp_to_sql".to_string(),
        srid: "26918".to_string(),
        db_host: "localhost".to_string(),
        db_user: "postgres".to_string(),
        db_name: "postgres".to_string(),
        db_password: "postgres".to_string(),
    }
}

fn expect_conversion(a: Action, path: &str, name: &str) {
    match a {
        Action::RunConversion(c) => {
            assert_eq!(c.program, "shp2pgsql");
            assert_eq!(
                c.args,
                vec![
                    "-D".to_string(),
                    "-I".to_string(),
                    "-s".to_string(),
                    "26918".to_string(),
                    path.to_string(),
                    name.to_string(),
                ]
            );
            assert!(c.env.is_empty());
        }
        _ => panic!("expected a conversion request"),
    }
}

fn expect_import(a: Action, script: &str) {
    match a {
        Action::RunImport(c) => {
            assert_eq!(c.program, "psql");
            assert_eq!(
                c.args,
                vec![
                    "-h".to_string(),
                    "localhost".to_string(),
                    "-U".to_string(),
                    "postgres".to_string(),
                    "-d".to_string(),
                    "postgres".to_string(),
                    "-f".to_string(),
                    script.to_string(),
                ]
            );
            assert_eq!(c.env, vec![("PGPASSWORD".to_string(), "postgres".to_string())]);
        }
        _ => panic!("expected an import request"),
    }
}

#[test]
fn forced_rebuild_of_two_shapefiles() {
    let mut p = Pipeline::new(scenario_config(), true);
    match p.start() {
        Action::Probe(d) => assert_eq!(d, "shp_to_sql"),
        _ => panic!("expected a probe of the canonical directory"),
    }

    // The canonical directory exists, but the rebuild is forced.
    match p.canonical_probed(true) {
        Action::Probe(d) => assert_eq!(d, "shp_to_sql_tmp"),
        _ => panic!("expected a probe of the staging directory"),
    }
    assert!(p.rebuild);

    // A stale staging directory is removed before the fresh one is created.
    match p.staging_probed(true) {
        Action::RemoveDir(d) => assert_eq!(d, "shp_to_sql_tmp"),
        _ => panic!("expected removal of the stale staging directory"),
    }
    match p.stale_removed(Ok(())) {
        Action::CreateDir(d) => assert_eq!(d, "shp_to_sql_tmp"),
        _ => panic!("expected creation of the staging directory"),
    }
    match p.staging_created(Ok(())) {
        Action::ListDir(d) => assert_eq!(d, "shp_files"),
        _ => panic!("expected the input listing"),
    }
    assert!(p.guard_armed);

    let listing = vec![
        "shp_files/parcels.shp".to_string(),
        "shp_files/readme.txt".to_string(),
        "shp_files/roads.shp".to_string(),
    ];
    let (a, warn) = p.input_listed(Ok(listing));
    assert!(!warn);
    expect_conversion(a, "shp_files/parcels.shp", "parcels");

    match p.converted_one(ToolOutcome::Success(b"create table parcels;".to_vec())) {
        Action::WriteFile(path, bytes) => {
            assert_eq!(path, "shp_to_sql_tmp/parcels.sql");
            assert_eq!(bytes, b"create table parcels;".to_vec());
        }
        _ => panic!("expected the artifact write"),
    }
    let a = p.artifact_written(Ok(()));
    expect_conversion(a, "shp_files/roads.shp", "roads");

    match p.converted_one(ToolOutcome::Success(b"create table roads;".to_vec())) {
        Action::WriteFile(path, _) => assert_eq!(path, "shp_to_sql_tmp/roads.sql"),
        _ => panic!("expected the artifact write"),
    }

    // Last artifact staged: the old canonical directory goes, then the rename.
    match p.artifact_written(Ok(())) {
        Action::RemoveDir(d) => assert_eq!(d, "shp_to_sql"),
        _ => panic!("expected removal of the old canonical directory"),
    }
    match p.old_removed(Ok(())) {
        Action::Rename(from, to) => {
            assert_eq!(from, "shp_to_sql_tmp");
            assert_eq!(to, "shp_to_sql");
        }
        _ => panic!("expected the rename"),
    }
    match p.promoted(Ok(())) {
        Action::ListDir(d) => assert_eq!(d, "shp_to_sql"),
        _ => panic!("expected the canonical listing"),
    }

    // The swap is done: the guard is disarmed and no staging directory
    // remains under its original name.
    assert!(!p.guard_armed);
    assert_eq!(p.staging, StagingState::Absent);
    assert_eq!(p.canonical_fate, CanonicalFate::Promoted);
    assert_eq!(p.conversions_run, 2);

    let scripts = vec![
        "shp_to_sql/parcels.sql".to_string(),
        "shp_to_sql/roads.sql".to_string(),
    ];
    let (a, warn) = p.output_listed(Ok(scripts));
    assert!(!warn);
    expect_import(a, "shp_to_sql/parcels.sql");
    let a = p.imported_one(ToolOutcome::Success(Vec::new()));
    expect_import(a, "shp_to_sql/roads.sql");
    match p.imported_one(ToolOutcome::Success(Vec::new())) {
        Action::Finish(ok) => assert!(ok),
        _ => panic!("expected the run to finish"),
    }
    assert_eq!(p.phase, Phase::Done);
}

#[test]
fn empty_input_still_promotes_an_empty_generation() {
    let mut p = Pipeline::new(scenario_config(), true);
    p.start();
    // No canonical directory yet, and the rebuild is forced anyway.
    p.canonical_probed(false);
    match p.staging_probed(false) {
        Action::CreateDir(d) => assert_eq!(d, "shp_to_sql_tmp"),
        _ => panic!("expected creation of the staging directory"),
    }
    p.staging_created(Ok(()));

    // An empty listing is a warning, not an error; with no old canonical
    // directory the staging directory is renamed directly.
    let (a, warn) = p.input_listed(Ok(Vec::new()));
    assert!(warn);
    match a {
        Action::Rename(from, to) => {
            assert_eq!(from, "shp_to_sql_tmp");
            assert_eq!(to, "shp_to_sql");
        }
        _ => panic!("expected the rename"),
    }
    assert_eq!(p.conversions_run, 0);

    p.promoted(Ok(()));
    assert_eq!(p.canonical_fate, CanonicalFate::Promoted);
    assert_eq!(p.staging, StagingState::Absent);

    // The empty canonical directory is a warning too, and the run succeeds.
    let (a, warn) = p.output_listed(Ok(Vec::new()));
    assert!(warn);
    match a {
        Action::Finish(ok) => assert!(ok),
        _ => panic!("expected the run to finish"),
    }
    assert_eq!(p.phase, Phase::Done);
}

#[test]
fn existing_output_skips_the_rebuild() {
    let mut p = Pipeline::new(scenario_config(), false);
    p.start();
    // The canonical directory exists and no rebuild is forced: the pipeline
    // goes straight to the import phase, without a single conversion.
    match p.canonical_probed(true) {
        Action::ListDir(d) => assert_eq!(d, "shp_to_sql"),
        _ => panic!("expected the canonical listing"),
    }
    assert!(!p.rebuild);
    assert_eq!(p.conversions_run, 0);
    assert_eq!(p.canonical_fate, CanonicalFate::Untouched);

    let (a, warn) = p.output_listed(Ok(vec!["shp_to_sql/parcels.sql".to_string()]));
    assert!(!warn);
    expect_import(a, "shp_to_sql/parcels.sql");
    match p.imported_one(ToolOutcome::Success(Vec::new())) {
        Action::Finish(ok) => assert!(ok),
        _ => panic!("expected the run to finish"),
    }
    assert_eq!(p.phase, Phase::Done);
    assert_eq!(p.conversions_run, 0);
    assert_eq!(p.canonical_fate, CanonicalFate::Untouched);
}

#[test]
fn missing_output_triggers_a_rebuild_without_force() {
    let mut p = Pipeline::new(scenario_config(), false);
    p.start();
    match p.canonical_probed(false) {
        Action::Probe(d) => assert_eq!(d, "shp_to_sql_tmp"),
        _ => panic!("expected a probe of the staging directory"),
    }
    assert!(p.rebuild);
}

#[test]
fn duplicate_logical_names_share_one_artifact_path() {
    // Two inputs with the same stem stage under the same artifact name; the
    // second write overwrites the first, and the build still completes.
    let mut p = Pipeline::new(scenario_config(), true);
    p.start();
    p.canonical_probed(false);
    p.staging_probed(false);
    p.staging_created(Ok(()));
    let (a, _) = p.input_listed(Ok(vec![
        "shp_files/old/parcels.shp".to_string(),
        "shp_files/new/parcels.shp".to_string(),
    ]));
    expect_conversion(a, "shp_files/old/parcels.shp", "parcels");
    let first = match p.converted_one(ToolOutcome::Success(b"v1".to_vec())) {
        Action::WriteFile(path, _) => path,
        _ => panic!("expected the artifact write"),
    };
    let a = p.artifact_written(Ok(()));
    expect_conversion(a, "shp_files/new/parcels.shp", "parcels");
    let second = match p.converted_one(ToolOutcome::Success(b"v2".to_vec())) {
        Action::WriteFile(path, _) => path,
        _ => panic!("expected the artifact write"),
    };
    assert_eq!(first, second);
    assert_eq!(first, "shp_to_sql_tmp/parcels.sql");
    match p.artifact_written(Ok(())) {
        Action::Rename(_, _) => {}
        _ => panic!("expected the rename"),
    }
}

#[test]
fn import_runs_in_listing_order_both_times() {
    // Two runs over the same unchanged canonical listing issue the same
    // import invocations, in the same order.
    let scripts = vec![
        "shp_to_sql/b.sql".to_string(),
        "shp_to_sql/a.sql".to_string(),
    ];
    let mut issued: Vec<Vec<Vec<String>>> = Vec::new();
    for _ in 0..2 {
        let mut run: Vec<Vec<String>> = Vec::new();
        let mut p = Pipeline::new(scenario_config(), false);
        p.start();
        let (mut a, _) = {
            p.canonical_probed(true);
            p.output_listed(Ok(scripts.clone()))
        };
        loop {
            match a {
                Action::RunImport(c) => run.push(c.args.clone()),
                Action::Finish(ok) => {
                    assert!(ok);
                    break;
                }
                _ => panic!("expected only import requests"),
            }
            a = p.imported_one(ToolOutcome::Success(Vec::new()));
        }
        issued.push(run);
    }
    assert_eq!(issued[0], issued[1]);
    assert_eq!(issued[0].len(), 2);
    assert_eq!(issued[0][0][7], "shp_to_sql/b.sql");
    assert_eq!(issued[0][1][7], "shp_to_sql/a.sql");
}
