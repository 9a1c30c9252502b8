use frb_run::change_kind::{classify_one, ChangeAction, WatchPaths, CONFIG_FILE_NAMES};
use frb_run::path::FilePath;
use frb_run::watcher::{
    changes_to_report, config_files, manifest_files, watch_dirs, watch_targets, watched_files, Probe,
};

fn watch_in(base: &str, dart: &str, rust: &str) -> WatchPaths {
    WatchPaths {
        base_dir: FilePath::new(base),
        rust_crate_dir: FilePath::new(rust),
        dart_root: FilePath::new(dart),
        generated_paths: vec![],
    }
}

fn texts(paths: &[FilePath]) -> Vec<String> {
    paths.iter().map(|p| p.to_text()).collect()
}

#[test]
fn sources_of_both_languages_are_watched() {
    let dirs = watch_dirs(&watch_in("/proj", "/proj", "/proj/rust"));
    assert_eq!(texts(&dirs), ["/proj/rust/src", "/proj/lib"]);
}

#[test]
fn each_config_place_is_watched_once() {
    let files = texts(&config_files(&watch_in("/proj", "/proj/.", "/proj/rust")));
    // Seven names in two directories, and two manifests.
    assert_eq!(files.len(), 16);
    for (i, name) in CONFIG_FILE_NAMES.iter().enumerate() {
        assert_eq!(files[i], format!("/proj/{name}"));
        assert_eq!(files[7 + i], format!("/proj/rust/{name}"));
    }
    assert_eq!(files[14..], ["/proj/rust/Cargo.toml", "/proj/rust/build.rs"]);

    let apart = config_files(&watch_in("/a", "/b", "/c"));
    assert_eq!(apart.len(), 23);
    assert_eq!(apart[7].to_text(), "/b/.flutter_rust_bridge.yml");
}

#[test]
fn watched_configs_and_manifests_are_acted_on() {
    let watch = watch_in("/a", "/b", "/c");
    let files = watched_files(&watch);
    assert_eq!(files.len(), 24);
    for file in &files[..14] {
        assert_eq!(classify_one(file, &watch), ChangeAction::ReloadConfig);
    }
    for file in &files[21..] {
        assert_eq!(
            classify_one(file, &watch),
            ChangeAction::RestartRust {
                needs_codegen: false
            }
        );
    }
}

#[test]
fn every_manifest_is_among_the_watched_files() {
    let watch = watch_in("/proj", "/proj", "/proj/rust");
    assert_eq!(texts(&manifest_files(&watch)), ["/proj/rust/Cargo.lock"]);
    let files = texts(&watched_files(&watch));
    assert_eq!(files.len(), 17);
    assert_eq!(files[..16], texts(&config_files(&watch)));
    for name in ["Cargo.toml", "Cargo.lock", "build.rs"] {
        assert!(files.contains(&format!("/proj/rust/{name}")), "{name}");
    }

    // What exists of them is watched.
    let probes: Vec<Probe> = watched_files(&watch)
        .into_iter()
        .map(|path| Probe {
            found: path.to_text().ends_with("Cargo.lock"),
            path,
        })
        .collect();
    let targets = watch_targets(&[], &probes);
    assert_eq!(targets.len(), 1);
    assert_eq!(targets[0].path.to_text(), "/proj/rust/Cargo.lock");
    assert!(!targets[0].recursive);
}

fn probe(path: &str, found: bool) -> Probe {
    Probe {
        path: FilePath::new(path),
        found,
    }
}

#[test]
fn only_what_exists_is_watched() {
    let dirs = [probe("src", true), probe("lib", false)];
    let files = [probe("a", false), probe("b", true), probe("c", true)];
    let targets = watch_targets(&dirs, &files);
    let found: Vec<(String, bool)> = targets
        .iter()
        .map(|t| (t.path.to_text(), t.recursive))
        .collect();
    assert_eq!(
        found,
        [
            ("src".to_owned(), true),
            ("b".to_owned(), false),
            ("c".to_owned(), false)
        ]
    );
}

#[test]
fn empty_deliveries_are_not_reported() {
    let none: Result<Vec<FilePath>, String> = Ok(vec![]);
    assert!(changes_to_report(none).is_none());
    let failed: Result<Vec<FilePath>, String> = Err("overflow".to_owned());
    assert!(changes_to_report(failed).is_none());
    let some: Result<Vec<FilePath>, String> = Ok(vec![FilePath::new("a")]);
    assert_eq!(changes_to_report(some).unwrap().len(), 1);
}
