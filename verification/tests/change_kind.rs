use frb_run::change_kind::{
    classify_batch, classify_one, is_generated, normalize, paths_eq, strip_verbatim, ChangeAction, WatchPaths,
};
use frb_run::path::FilePath;

fn watch_paths() -> WatchPaths {
    let root = FilePath::new("/proj");
    WatchPaths {
        base_dir: root.clone(),
        rust_crate_dir: root.join("rust"),
        dart_root: root.clone(),
        generated_paths: vec![
            root.join("rust").join("src").join("frb_generated.rs"),
            root.join("lib")
                .join("src")
                .join("rust")
                .join("frb_generated.dart"),
        ],
    }
}

fn classify(path: &str) -> ChangeAction {
    classify_one(&FilePath::new(path), &watch_paths())
}

#[test]
fn test_classify_config_files() {
    // Every name that config is looked up by must be recognized, since editing
    // any of them can change the generated output.
    for name in [
        ".flutter_rust_bridge.yml",
        ".flutter_rust_bridge.yaml",
        ".flutter_rust_bridge.json",
        "flutter_rust_bridge.yml",
        "flutter_rust_bridge.yaml",
        "flutter_rust_bridge.json",
        "pubspec.yaml",
    ] {
        assert_eq!(
            classify(&format!("/proj/{name}")),
            ChangeAction::ReloadConfig,
            "{name} should be treated as a config change"
        );
    }
}

#[test]
fn test_classify_unrelated_pubspec_is_ignored() {
    // A pubspec belonging to some nested package is not our config.
    assert_eq!(classify("/proj/example/pubspec.yaml"), ChangeAction::Ignore);
}

#[test]
fn test_classify_rust_inside_codegen_input_needs_codegen() {
    assert_eq!(
        classify("/proj/rust/src/api/minimal.rs"),
        ChangeAction::RestartRust {
            needs_codegen: true
        }
    );
}

#[test]
fn test_classify_rust_outside_codegen_input_still_needs_codegen() {
    // A struct definition outside `rust_input` can still change the
    // generated code, so every Rust file re-runs codegen.
    assert_eq!(
        classify("/proj/rust/src/helper.rs"),
        ChangeAction::RestartRust {
            needs_codegen: true
        }
    );
}

#[test]
fn test_classify_manifest_skips_codegen() {
    for name in ["Cargo.toml", "Cargo.lock", "build.rs"] {
        assert_eq!(
            classify(&format!("/proj/rust/{name}")),
            ChangeAction::RestartRust {
                needs_codegen: false
            },
            "{name} should rebuild without re-running codegen"
        );
    }
}

#[test]
fn test_classify_dart_source_hot_reloads() {
    assert_eq!(classify("/proj/lib/main.dart"), ChangeAction::HotReload);
}

#[test]
fn test_classify_generated_files_are_ignored() {
    // Otherwise codegen writing its own output would trigger another round.
    for path in [
        "/proj/rust/src/frb_generated.rs",
        "/proj/lib/src/rust/frb_generated.dart",
        "/proj/lib/src/rust/frb_generated.io.dart",
        "/proj/lib/model.freezed.dart",
        "/proj/lib/model.g.dart",
    ] {
        assert_eq!(classify(path), ChangeAction::Ignore, "{path}");
    }
}

#[test]
fn test_classify_batch_takes_most_expensive() {
    let watch = watch_paths();
    let paths = vec![
        FilePath::new("/proj/lib/main.dart"),
        FilePath::new("/proj/rust/src/api/minimal.rs"),
    ];
    assert_eq!(
        classify_batch(&paths, &watch),
        ChangeAction::RestartRust {
            needs_codegen: true
        }
    );

    // Config outranks Rust, because it can move where Rust even lives.
    let paths = vec![
        FilePath::new("/proj/rust/src/api/minimal.rs"),
        FilePath::new("/proj/flutter_rust_bridge.yaml"),
    ];
    assert_eq!(classify_batch(&paths, &watch), ChangeAction::ReloadConfig);
}

#[test]
fn test_classify_batch_empty_is_ignore() {
    assert_eq!(classify_batch(&[], &watch_paths()), ChangeAction::Ignore);
}

#[test]
fn test_action_ordering() {
    // `classify_batch` relies on this ordering to pick the winner.
    assert!(ChangeAction::Ignore < ChangeAction::HotReload);
    assert!(
        ChangeAction::HotReload
            < ChangeAction::RestartRust {
                needs_codegen: false
            }
    );
    assert!(
        ChangeAction::RestartRust {
            needs_codegen: true
        } < ChangeAction::ReloadConfig
    );
}

#[test]
fn test_paths_eq_tolerates_windows_prefix_and_separators() {
    assert!(paths_eq(
        &FilePath::new(r"\\?\C:\proj"),
        &FilePath::new(r"C:\proj")
    ));
    assert!(paths_eq(&FilePath::new("/proj/"), &FilePath::new("/proj")));
    assert!(!paths_eq(
        &FilePath::new("/proj"),
        &FilePath::new("/other")
    ));
}

#[test]
fn derived_order_agrees_with_the_order_of_cost() {
    let all = [
        ChangeAction::Ignore,
        ChangeAction::HotReload,
        ChangeAction::RestartRust {
            needs_codegen: false,
        },
        ChangeAction::RestartRust {
            needs_codegen: true,
        },
        ChangeAction::ReloadConfig,
    ];
    for a in all {
        for b in all {
            assert_eq!(a.partial_cmp(&b), Some(a.cmp(&b)));
        }
    }
}

#[test]
fn batch_does_not_depend_on_order_or_cutting() {
    let watch = watch_paths();
    let a = FilePath::new("/proj/lib/main.dart");
    let b = FilePath::new("/proj/rust/Cargo.toml");
    let c = FilePath::new("/proj/README.md");
    let expected = ChangeAction::RestartRust {
        needs_codegen: false,
    };
    assert_eq!(
        classify_batch(&[a.clone(), b.clone(), c.clone()], &watch),
        expected
    );
    assert_eq!(
        classify_batch(&[c.clone(), b.clone(), a.clone(), b.clone()], &watch),
        expected
    );
    let first = classify_batch(&[a], &watch);
    let second = classify_batch(&[b, c], &watch);
    assert_eq!(std::cmp::max(first, second), expected);
}

#[test]
fn manifests_count_only_inside_the_crate() {
    assert_eq!(classify("/proj/Cargo.toml"), ChangeAction::Ignore);
    assert_eq!(classify("/proj/rusty/Cargo.toml"), ChangeAction::Ignore);
    assert_eq!(
        classify("/proj/rust/nested/Cargo.lock"),
        ChangeAction::RestartRust {
            needs_codegen: false
        }
    );
}

#[test]
fn sources_count_only_where_they_belong() {
    assert_eq!(classify("/proj/main.dart"), ChangeAction::Ignore);
    assert_eq!(classify("/proj/library/a.dart"), ChangeAction::Ignore);
    assert_eq!(classify("/other/src/lib.rs"), ChangeAction::Ignore);
    assert_eq!(classify("/proj/lib/.dart"), ChangeAction::Ignore);
    assert_eq!(classify("/proj/lib/notes.txt"), ChangeAction::Ignore);
    // A Dart file inside the crate is nothing to Rust.
    assert_eq!(classify("/proj/rust/lib/a.dart"), ChangeAction::Ignore);
}

#[test]
fn config_next_to_the_dart_root_is_recognized() {
    let mut watch = watch_paths();
    watch.dart_root = FilePath::new("/proj/app/");
    let action = classify_one(&FilePath::new("/proj/app/pubspec.yaml"), &watch);
    assert_eq!(action, ChangeAction::ReloadConfig);
    // A base directory that ends in `.` reads otherwise than its entries' parent.
    watch.base_dir = FilePath::new("/proj/.");
    let action = classify_one(&FilePath::new("/proj/./pubspec.yaml"), &watch);
    assert_eq!(action, ChangeAction::Ignore);
}

#[test]
fn names_that_are_not_utf8_are_no_names() {
    let watch = watch_paths();
    let rust = FilePath::from_bytes(b"/proj/rust/src/\xff.rs".to_vec());
    assert_eq!(classify_one(&rust, &watch), ChangeAction::Ignore);
    // The extension alone is still text, and that is what Dart sources go by.
    let dart = FilePath::from_bytes(b"/proj/lib/\xff.dart".to_vec());
    assert_eq!(classify_one(&dart, &watch), ChangeAction::HotReload);
    // A directory that is not UTF-8 does not matter.
    let below = FilePath::from_bytes(b"/proj/rust/\xff/a.rs".to_vec());
    assert_eq!(
        classify_one(&below, &watch),
        ChangeAction::RestartRust {
            needs_codegen: true
        }
    );
}

#[test]
fn paths_read_alike_when_replaced_bytes_do() {
    let a = FilePath::from_bytes(b"/proj/\xff".to_vec());
    let b = FilePath::from_bytes(b"/proj/\xfe/".to_vec());
    assert!(paths_eq(&a, &b));
    assert!(paths_eq(&a, &FilePath::new("/proj/\u{fffd}")));
    assert!(!paths_eq(&a, &FilePath::new("/proj/x")));
}

#[test]
fn only_one_windows_prefix_is_dropped() {
    assert_eq!(strip_verbatim(r"\\?\C:\proj"), r"C:\proj");
    assert_eq!(strip_verbatim(r"\\?\\\?\C:"), r"\\?\C:");
    assert_eq!(strip_verbatim("/proj"), "/proj");
    assert!(paths_eq(
        &FilePath::new(r"C:\proj\lib"),
        &FilePath::new("C:/proj/lib//")
    ));
}

#[test]
fn reported_outputs_are_generated_whatever_their_name() {
    let mut watch = watch_paths();
    watch.generated_paths.push(FilePath::new("/proj/lib/api.dart"));
    assert!(is_generated(&FilePath::new("/proj/lib/api.dart"), &watch));
    assert_eq!(
        classify_one(&FilePath::new("/proj/lib/api.dart"), &watch),
        ChangeAction::Ignore
    );
    watch.generated_paths.push(FilePath::new("/proj/pubspec.yaml"));
    assert_eq!(
        classify_one(&FilePath::new("/proj/pubspec.yaml"), &watch),
        ChangeAction::Ignore
    );
}

#[test]
fn compared_text_has_one_form() {
    let form = |text: &str| normalize(text).into_iter().collect::<String>();
    assert_eq!(form(r"\\?\C:\proj\"), "C:/proj");
    assert_eq!(form("/proj//"), "/proj");
    assert_eq!(form("/"), "");
}
