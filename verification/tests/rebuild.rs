use frb_run::path::FilePath;
use frb_run::rebuild::RebuildTask::{Check, Codegen, LoadConfig};
use frb_run::rebuild::{
    cargo_check, cargo_checked, prepare_restart, rebuild, rebuilt, run_codegen, task_notice,
    CheckError, RebuildStep, RebuildTask,
};

#[test]
fn codegen_runs_without_its_own_watch() {
    let run = run_codegen("config", 3);
    assert_eq!(run.config, "config");
    assert!(!run.watch);
    assert_eq!(run.fvm_install_mode, 3);
}

#[test]
fn the_check_names_features_only_where_there_are_some() {
    let dir = FilePath::new("/proj/rust");
    let plain = ["cargo", "check", "--manifest-path", "/proj/rust/Cargo.toml"];
    assert_eq!(cargo_check(&dir, false, None).unwrap(), plain);
    assert_eq!(cargo_check(&dir, false, Some(&[])).unwrap(), plain);
    let features = ["a".to_owned(), "b".to_owned(), "c".to_owned()];
    let argv = cargo_check(&dir, false, Some(&features)).unwrap();
    assert_eq!(argv[..4], plain);
    assert_eq!(argv[4..], ["--features", "a,b,c"]);
    let argv = cargo_check(&dir, false, Some(&features[..1])).unwrap();
    assert_eq!(argv[5], "a");
}

#[test]
fn the_manifest_is_named_as_the_system_spells_it() {
    let dir = FilePath::new(r"\\?\C:/proj/rust");
    let argv = cargo_check(&dir, true, None).unwrap();
    assert_eq!(argv[3], r"\\?\C:\proj\rust\Cargo.toml");
}

#[test]
fn a_crate_whose_path_is_no_text_cannot_be_checked() {
    let dir = FilePath::from_bytes(b"/proj/\xff".to_vec());
    for windows in [false, true] {
        assert_eq!(
            cargo_check(&dir, windows, None),
            Err(CheckError::PathIsNoText)
        );
    }
    assert!(CheckError::PathIsNoText.message().contains("UTF-8"));
}

#[test]
fn a_failed_check_is_an_error() {
    assert_eq!(cargo_checked(true), Ok(()));
    let error = cargo_checked(false).unwrap_err();
    assert_eq!(error, CheckError::CheckFailed);
    assert_eq!(
        error.message(),
        "`cargo check` failed; keeping the current app running"
    );
}

fn end(no_check: bool, needs_codegen: bool, failing: Option<RebuildTask>) -> (Vec<RebuildTask>, RebuildStep<String>) {
    let mut done = vec![];
    let mut step = prepare_restart(no_check, needs_codegen);
    while let RebuildStep::Do(task) = step {
        done.push(task);
        let result = if failing == Some(task) {
            Err("no".to_owned())
        } else {
            Ok(())
        };
        step = rebuild(no_check, task, result);
    }
    (done, step)
}

#[test]
fn a_rebuild_does_what_is_due_in_order() {
    assert!(matches!(end(false, true, None), (t, RebuildStep::Restart) if t == [LoadConfig, Codegen, Check]));
    assert!(matches!(end(false, false, None), (t, RebuildStep::Restart) if t == [Check]));
    assert!(matches!(end(true, true, None), (t, RebuildStep::Restart) if t == [LoadConfig, Codegen]));
    assert!(matches!(end(true, false, None), (t, RebuildStep::Restart) if t.is_empty()));
}

#[test]
fn a_failed_rebuild_keeps_the_app() {
    for task in [LoadConfig, Codegen, Check] {
        let (done, step) = end(false, true, Some(task));
        assert_eq!(done.last(), Some(&task));
        assert!(matches!(step, RebuildStep::KeepRunning(why) if why == "no"));
    }
    assert!(matches!(end(true, true, Some(Codegen)).1, RebuildStep::KeepRunning(_)));
    // Where nothing is checked, a config that cannot be read ends the run.
    assert!(matches!(end(true, true, Some(LoadConfig)).1, RebuildStep::Abort(why) if why == "no"));
}

#[test]
fn a_rebuild_ends_with_whether_to_restart() {
    let step: RebuildStep<String> = RebuildStep::Do(Check);
    assert_eq!(rebuilt(step), None);
    assert_eq!(rebuilt(end(false, true, None).1), Some(Ok(true)));
    assert_eq!(rebuilt(end(false, true, Some(Check)).1), Some(Ok(false)));
    assert_eq!(rebuilt(end(true, true, Some(LoadConfig)).1), Some(Err("no".to_owned())));
}

#[test]
fn only_checked_rebuilds_announce_their_tasks() {
    assert_eq!(task_notice(false, LoadConfig), Some("Running code generation..."));
    assert_eq!(task_notice(false, Codegen), None);
    assert_eq!(task_notice(false, Check), Some("Checking Rust..."));
    assert_eq!(task_notice(true, LoadConfig), None);
}
