use frb_run::change_kind::{classify_one, ChangeAction, WatchPaths};
use frb_run::daemon::{DaemonEvent, FlutterDaemon};
use frb_run::keys::{KeyCommand, Overlay, Pending};
use frb_run::path::FilePath;
use frb_run::session::{
    after_rebuild, after_reload, after_run, begin_run, compute_watch_paths, config_lookup,
    drain_extra_changes, drain_pending, flutter_args, load_codegen_config, restart_notice, run_once,
    CodegenPaths, ConfigLookup, Event,
    LoadError, Outcome, Reloaded, RunConfig, RunReport, RunStage, Session, State, Turn, CONFIG_SUMMARY,
};

fn run_config(config_file: Option<&str>, device_id: Option<&str>) -> RunConfig<()> {
    RunConfig {
        config_file: config_file.map(str::to_owned),
        device_id: device_id.map(str::to_owned),
        flutter_args: vec!["--release".to_owned(), "-v".to_owned()],
        no_check: false,
        fvm_install_mode: (),
    }
}

fn codegen_paths() -> CodegenPaths {
    CodegenPaths {
        rust_crate_dir: FilePath::new("/proj/rust"),
        rust_output_path: FilePath::new("/proj/rust/src/out.rs"),
        dart_output: FilePath::new("/proj/lib/src/rust"),
        dart_root: FilePath::new("/proj"),
    }
}

fn watch() -> WatchPaths {
    let here: Result<FilePath, String> = Ok(FilePath::new("/proj"));
    compute_watch_paths(codegen_paths(), None, here).unwrap()
}

fn session(app_id: Option<&str>) -> Session {
    let (mut daemon, _) = FlutterDaemon::spawn(None, false, &[]);
    if let Some(id) = app_id {
        daemon.set_app_id(id.to_owned());
    }
    Session::new(daemon)
}

fn changed(paths: &[&str]) -> Event {
    Event::FsChange(paths.iter().map(|p| FilePath::new(p)).collect())
}

fn texts(paths: &[FilePath]) -> Vec<String> {
    paths.iter().map(|p| p.to_text()).collect()
}

#[test]
fn the_device_comes_before_the_other_arguments() {
    assert_eq!(
        flutter_args(&run_config(None, Some("linux"))),
        ["-d", "linux", "--release", "-v"]
    );
    assert_eq!(flutter_args(&run_config(None, None)), ["--release", "-v"]);
}

#[test]
fn a_named_config_file_is_what_is_looked_for() {
    assert_eq!(
        config_lookup(&run_config(Some("x.yaml"), None)),
        ConfigLookup::File("x.yaml".to_owned())
    );
    assert_eq!(config_lookup(&run_config(None, None)), ConfigLookup::Auto);
}

#[test]
fn a_missing_config_is_an_error() {
    let named = run_config(Some("frb.yaml"), None);
    let auto = run_config(None, None);
    let found: Result<Option<i32>, String> = Ok(Some(5));
    assert!(matches!(load_codegen_config(&named, found), Ok(5)));

    let nothing: Result<Option<i32>, String> = Ok(None);
    let error = load_codegen_config(&named, nothing.clone()).unwrap_err();
    assert_eq!(
        error.message().as_deref(),
        Some("Cannot find config_file frb.yaml")
    );
    let error = load_codegen_config(&auto, nothing).unwrap_err();
    assert!(matches!(error, LoadError::NoConfig));
    assert_eq!(
        error.message().as_deref(),
        Some("Cannot find any flutter_rust_bridge config. Please run inside the Flutter package, or pass --config-file.")
    );

    let failed: Result<Option<i32>, String> = Err("bad yaml".to_owned());
    let error = load_codegen_config(&auto, failed).unwrap_err();
    assert!(error.message().is_none());
    assert!(matches!(error, LoadError::Read(e) if e == "bad yaml"));
}

#[test]
fn config_is_resolved_from_its_directory_or_the_current_one() {
    let here: Result<FilePath, String> = Ok(FilePath::new("/here"));
    let base = Some(FilePath::new("/base"));
    let watch = compute_watch_paths(codegen_paths(), base, here.clone()).unwrap();
    assert_eq!(watch.base_dir.to_text(), "/base");
    let watch = compute_watch_paths(codegen_paths(), None, here).unwrap();
    assert_eq!(watch.base_dir.to_text(), "/here");
    assert_eq!(
        texts(&watch.generated_paths),
        [
            "/proj/rust/src/out.rs",
            "/proj/lib/src/rust/frb_generated.dart"
        ]
    );

    let nowhere: Result<FilePath, String> = Err("gone".to_owned());
    let failed = compute_watch_paths(codegen_paths(), None, nowhere.clone());
    assert!(matches!(failed, Err(e) if e == "gone"));
    // The current directory does not matter where there is another.
    let base = Some(FilePath::new("/base"));
    assert!(compute_watch_paths(codegen_paths(), base, nowhere).is_ok());
}

#[test]
fn outputs_of_codegen_are_ignored() {
    let watch = watch();
    for path in &watch.generated_paths {
        assert_eq!(classify_one(path, &watch), ChangeAction::Ignore);
    }
}

#[test]
fn the_summary_shows_what_can_be_shown() {
    let here: Result<FilePath, String> = Ok(FilePath::new("/proj"));
    let features = Some(vec!["x".to_owned()]);
    let state = State::load(codegen_paths(), features, None, here.clone()).unwrap();
    assert_eq!(state.rust_features, Some(vec!["x".to_owned()]));
    assert_eq!(
        state.watch_summary(false),
        ["/proj/rust/src", "/proj/lib", CONFIG_SUMMARY]
    );

    // Prefixes are not shown, and the rest is as the system spells it.
    let mut paths = codegen_paths();
    paths.rust_crate_dir = FilePath::new(r"\\?\C:/proj/rust");
    paths.dart_root = FilePath::from_bytes(b"/\xff".to_vec());
    let state = State::load(paths, None, None, here).unwrap();
    assert_eq!(
        state.watch_summary(true),
        [r"C:\proj\rust\src", CONFIG_SUMMARY]
    );
    assert_eq!(
        state.watch_summary(false),
        ["C:/proj/rust/src", CONFIG_SUMMARY]
    );

    let nowhere: Result<FilePath, String> = Err("gone".to_owned());
    assert!(State::load(codegen_paths(), None, None, nowhere).is_err());
}

#[test]
fn a_burst_becomes_one_change() {
    let mut queue = vec![
        changed(&["b", "a"]),
        Event::Key(KeyCommand::HotReload),
        Event::Daemon(DaemonEvent::AppStarted),
        changed(&["c", "./a", "b/."]),
        Event::Key(KeyCommand::Quit),
    ];
    let all = drain_extra_changes(vec![FilePath::new("a")], &mut queue);
    assert_eq!(texts(&all), ["a", "b", "c", "./a"]);
    assert!(matches!(
        queue[..],
        [
            Event::Key(KeyCommand::HotReload),
            Event::Key(KeyCommand::Quit)
        ]
    ));
}

#[test]
fn nothing_is_left_over_for_the_next_process() {
    let mut queue = vec![Event::Key(KeyCommand::Quit), changed(&["a"])];
    drain_pending(&mut queue);
    assert!(queue.is_empty());
    let mut queue = vec![Event::Key(KeyCommand::Quit)];
    let stage: RunStage<String> = begin_run(&mut queue);
    assert!(queue.is_empty());
    assert!(matches!(stage, RunStage::Watch));
}

#[test]
fn events_of_the_daemon_are_served() {
    let mut session = session(None);
    let watch = watch();
    let mut queue = vec![];
    let mut turn = |event| session.serve(Some(Event::Daemon(event)), &watch, &mut queue);
    let start = DaemonEvent::AppStart {
        app_id: "abc".to_owned(),
    };
    assert!(matches!(turn(start), Turn::Continue));
    let port = DaemonEvent::DebugPort {
        ws_uri: "ws://x".to_owned(),
    };
    assert!(matches!(turn(port), Turn::Print(t) if t == "Dart VM Service: ws://x"));
    assert!(matches!(
        turn(DaemonEvent::AppStarted),
        Turn::Print(t) if t == "App started. Press `h` for the key commands."
    ));
    let log = DaemonEvent::Log {
        text: "hi".to_owned(),
        is_error: true,
    };
    assert!(matches!(turn(log), Turn::Log { text, is_error: true } if text == "hi"));
    for event in [DaemonEvent::AppStop, DaemonEvent::ProcessExited] {
        assert!(matches!(
            turn(event),
            Turn::End {
                notice: Some("App exited."),
                outcome: Outcome::Finished
            }
        ));
    }
    assert_eq!(session.daemon.app_id(), Some("abc"));
    assert!(matches!(
        session.serve(None, &watch, &mut queue),
        Turn::End {
            notice: None,
            outcome: Outcome::Finished
        }
    ));
}

#[test]
fn changes_are_served_by_cost() {
    let mut session = session(Some("abc"));
    let watch = watch();
    let mut queue = vec![];
    let mut turn = |paths: &[&str]| session.serve(Some(changed(paths)), &watch, &mut queue);
    assert!(matches!(turn(&["/proj/README.md"]), Turn::Continue));
    assert!(matches!(
        turn(&["/proj/lib/main.dart"]),
        Turn::Restart { full: false, request } if request.id == 0
            && request.line.contains("frb run: dart change")
    ));
    assert!(matches!(
        turn(&["/proj/rust/Cargo.toml", "/proj/lib/main.dart"]),
        Turn::Rebuild {
            needs_codegen: false
        }
    ));
    assert!(matches!(
        turn(&["/proj/rust/src/a.rs"]),
        Turn::Rebuild {
            needs_codegen: true
        }
    ));
    assert!(matches!(turn(&["/proj/pubspec.yaml"]), Turn::ReloadConfig));
    // What arrived meanwhile counts too, and keys wait their turn.
    let mut queue = vec![
        changed(&["/proj/pubspec.yaml"]),
        Event::Key(KeyCommand::Help),
    ];
    let event = Some(changed(&["/proj/rust/src/out.rs"]));
    let turn = session.serve(event, &watch, &mut queue);
    assert!(matches!(turn, Turn::ReloadConfig));
    assert!(matches!(queue[..], [Event::Key(KeyCommand::Help)]));
}

#[test]
fn keys_are_served() {
    let mut session = session(Some("abc"));
    assert!(matches!(session.handle_key(KeyCommand::Help), Turn::Help));
    assert!(matches!(
        session.handle_key(KeyCommand::Quit),
        Turn::End {
            notice: Some("Quitting..."),
            outcome: Outcome::Finished
        }
    ));
    assert!(matches!(
        session.handle_key(KeyCommand::HotReload),
        Turn::Restart { full: false, .. }
    ));
    assert!(matches!(
        session.handle_key(KeyCommand::HotRestart),
        Turn::Restart { full: true, request } if request.id == 1
            && request.line.contains("\"fullRestart\":true")
            && request.line.contains("frb run: manual hot restart")
    ));
    assert!(matches!(
        session.handle_key(KeyCommand::RebuildRust),
        Turn::Rebuild {
            needs_codegen: true
        }
    ));
    let Turn::Call(pending) = session.handle_key(KeyCommand::ToggleDebugPaint) else {
        panic!("expect a call");
    };
    assert_eq!(
        pending,
        Pending::Switch {
            overlay: Overlay::DebugPaint,
            on: true
        }
    );
    let request = session.call(pending).unwrap();
    assert_eq!(request.id, 2);
    assert!(request.line.contains("ext.flutter.debugPaint"));
}

#[test]
fn an_unknown_app_is_left_alone() {
    let mut session = session(None);
    for command in [
        KeyCommand::HotReload,
        KeyCommand::HotRestart,
        KeyCommand::ToggleDebugPaint,
        KeyCommand::TogglePlatform,
        KeyCommand::DumpWidgetHierarchy,
    ] {
        assert!(matches!(session.handle_key(command), Turn::Continue));
    }
    assert!(!session.toggles.debug_paint);
    assert!(matches!(session.hot_reload(), Turn::Continue));
    assert!(session.call(Pending::Dump).is_err());
    // Rebuilding does not need it.
    assert!(matches!(
        session.handle_key(KeyCommand::RebuildRust),
        Turn::Rebuild { .. }
    ));
}

fn ready(ready: bool) -> Result<bool, String> {
    Ok(ready)
}

#[test]
fn a_reloaded_config_always_restarts() {
    assert_eq!(after_rebuild(true, ready(false)), Some(Ok(Outcome::Restart)));
    assert_eq!(after_rebuild(true, ready(true)), Some(Ok(Outcome::Restart)));
    assert_eq!(after_rebuild(false, ready(true)), Some(Ok(Outcome::Restart)));
    assert_eq!(after_rebuild(false, ready(false)), None);
    for reloaded in [false, true] {
        let given_up: Result<bool, &str> = Err("gone");
        assert_eq!(after_rebuild(reloaded, given_up), Some(Err("gone")));
    }
    assert_eq!(restart_notice(true), "Hot restarting (Dart only)...");
    assert_eq!(restart_notice(false), "Hot reloading...");
}

#[test]
fn a_failed_reload_changes_nothing_but_ends_the_lifetime() {
    let here: Result<FilePath, String> = Ok(FilePath::new("/proj"));
    let mut state = State::load(codegen_paths(), None, None, here).unwrap();

    let failed: Result<State, &str> = Err("gone");
    assert!(matches!(after_reload(&mut state, failed), Reloaded::End("gone")));
    assert_eq!(state.watch.base_dir.to_text(), "/proj");
    assert_eq!(state.rust_features, None);

    let there: Result<FilePath, &str> = Ok(FilePath::new("/other"));
    let features = Some(vec!["x".to_owned()]);
    let loaded = State::load(codegen_paths(), features, None, there);
    assert!(matches!(
        after_reload(&mut state, loaded),
        Reloaded::Rebuild {
            needs_codegen: true
        }
    ));
    assert_eq!(state.watch.base_dir.to_text(), "/other");
    assert_eq!(state.rust_features, Some(vec!["x".to_owned()]));
}

#[test]
fn the_app_is_run_again_only_for_a_restart() {
    let restart: Result<Outcome, &str> = Ok(Outcome::Restart);
    assert_eq!(after_run(restart), None);
    let finished: Result<Outcome, &str> = Ok(Outcome::Finished);
    assert_eq!(after_run(finished), Some(Ok(())));
    let failed: Result<Outcome, &str> = Err("gone");
    assert_eq!(after_run(failed), Some(Err("gone")));
}

#[test]
fn the_app_is_torn_down_before_the_watcher() {
    let mut queue = vec![];
    let mut stage: RunStage<String> = begin_run(&mut queue);
    stage = run_once(stage, RunReport::Started(Ok(())));
    assert!(matches!(stage, RunStage::Spawn));
    stage = run_once(stage, RunReport::Started(Ok(())));
    assert!(matches!(stage, RunStage::Serve));
    // A report on something else changes nothing.
    stage = run_once(stage, RunReport::Unwatched);
    assert!(matches!(stage, RunStage::Serve));
    stage = run_once(stage, RunReport::Served(Ok(Outcome::Restart)));
    assert!(matches!(stage, RunStage::Stop(Ok(Outcome::Restart))));
    // Trouble with stopping is only worth a warning.
    stage = run_once(stage, RunReport::Stopped(Err("stuck".to_owned())));
    assert!(matches!(stage, RunStage::Unwatch(Ok(Outcome::Restart))));
    stage = run_once(stage, RunReport::Unwatched);
    assert!(matches!(stage, RunStage::Done(Ok(Outcome::Restart))));
}

#[test]
fn a_failed_start_ends_the_lifetime() {
    let stage: RunStage<String> = run_once(RunStage::Watch, RunReport::Started(Err("a".to_owned())));
    assert!(matches!(stage, RunStage::Done(Err(e)) if e == "a"));
    let stage: RunStage<String> = run_once(RunStage::Spawn, RunReport::Started(Err("b".to_owned())));
    assert!(matches!(&stage, RunStage::Unwatch(Err(e)) if e == "b"));
    let stage = run_once(stage, RunReport::Unwatched);
    assert!(matches!(stage, RunStage::Done(Err(e)) if e == "b"));
}
