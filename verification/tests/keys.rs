use frb_run::json::Json;
use frb_run::keys::{
    keys_enabled, read_string, Brightness, KeyCommand, Overlay, Pending, Platform, ToggleReply,
    ToggleState, HELP,
};

#[test]
fn test_key_mapping_matches_flutter_run() {
    assert_eq!(KeyCommand::from_byte(b'r'), Some(KeyCommand::HotReload));
    assert_eq!(KeyCommand::from_byte(b'R'), Some(KeyCommand::HotRestart));
    assert_eq!(KeyCommand::from_byte(b'q'), Some(KeyCommand::Quit));
    assert_eq!(KeyCommand::from_byte(b'h'), Some(KeyCommand::Help));
}

#[test]
fn test_hot_reload_and_restart_are_case_sensitive() {
    // `flutter run` distinguishes these two, so we must not fold the case.
    assert_ne!(
        KeyCommand::from_byte(b'r'),
        KeyCommand::from_byte(b'R'),
        "r and R must stay distinct"
    );
    // Same for the two overlay toggles.
    assert_ne!(
        KeyCommand::from_byte(b'p'),
        KeyCommand::from_byte(b'P'),
        "p and P must stay distinct"
    );
}

#[test]
fn test_rebuild_rust_key() {
    assert_eq!(KeyCommand::from_byte(b'F'), Some(KeyCommand::RebuildRust));
    // Lowercase `f` is unassigned in `flutter run`; leave it that way rather
    // than surprise anyone with a full rebuild.
    assert_eq!(KeyCommand::from_byte(b'f'), None);
}

#[test]
fn test_unknown_keys_ignored() {
    for byte in [b'x', b'1', b' ', b'\n', b'\t'] {
        assert_eq!(KeyCommand::from_byte(byte), None, "byte {byte}");
    }
}

#[test]
fn test_toggle_state_starts_disabled() {
    // The overlays start off, so the first press must turn them on.
    let state = ToggleState::default();
    assert!(!state.debug_paint);
    assert!(!state.performance_overlay);
    assert!(state.platform.is_none());
    assert!(state.brightness.is_none());
}

#[test]
fn every_other_key_has_its_command() {
    let table = [
        (b'Q', KeyCommand::Quit),
        (b'H', KeyCommand::Help),
        (b'?', KeyCommand::Help),
        (b'p', KeyCommand::ToggleDebugPaint),
        (b'P', KeyCommand::TogglePerformanceOverlay),
        (b'o', KeyCommand::TogglePlatform),
        (b'O', KeyCommand::TogglePlatform),
        (b'b', KeyCommand::ToggleBrightness),
        (b'B', KeyCommand::ToggleBrightness),
        (b'w', KeyCommand::DumpWidgetHierarchy),
        (b'W', KeyCommand::DumpWidgetHierarchy),
    ];
    for (byte, command) in table {
        assert_eq!(KeyCommand::from_byte(byte), Some(command));
        assert_eq!(KeyCommand::from_key(byte as char), Some(command));
    }
}

#[test]
fn keys_of_more_than_one_byte_are_ignored() {
    // The second byte of neither is looked at.
    assert_eq!(KeyCommand::from_key('\u{172}'), None);
    assert_eq!(KeyCommand::from_key('é'), None);
    assert_eq!(KeyCommand::from_key('r'), Some(KeyCommand::HotReload));
}

#[test]
fn keys_are_only_read_from_a_terminal() {
    assert!(keys_enabled(true, true));
    assert!(!keys_enabled(false, true));
    assert!(!keys_enabled(true, false));
}

#[test]
fn help_lists_a_key_of_every_command() {
    for key in "rRFpPobwhq".chars() {
        assert!(KeyCommand::from_key(key).is_some());
        assert!(HELP.contains(&format!("\n  {key}  ")), "{key}");
    }
    assert!(HELP.starts_with("\nFlutter run key commands:\n"));
    assert!(HELP.ends_with("\n  q  Quit\n"));
}

fn object(name: &str, value: &str) -> Json {
    Json::Object(vec![(name.to_owned(), Json::Text(value.to_owned()))])
}

fn text(json: &Json, key: &str) -> Option<String> {
    json.text_of(key)
}

#[test]
fn overlay_keys_switch_back_and_forth() {
    let mut state = ToggleState::default();
    let first = state.handle(KeyCommand::ToggleDebugPaint).unwrap();
    assert_eq!(
        first,
        Pending::Switch {
            overlay: Overlay::DebugPaint,
            on: true
        }
    );
    let call = first.call();
    assert_eq!(call.method, "ext.flutter.debugPaint");
    assert_eq!(text(&call.params, "enabled").as_deref(), Some("true"));
    // Switched from the press on, even if the call fails.
    let reply = state.reply(first, Err("no".to_owned()));
    assert!(matches!(reply, ToggleReply::Failed(t) if t == "Key command failed: no"));
    assert!(state.debug_paint);

    let second = state.handle(KeyCommand::ToggleDebugPaint).unwrap();
    let call = second.call();
    assert_eq!(text(&call.params, "enabled").as_deref(), Some("false"));
    let reply = state.reply(second, Ok(Json::Null));
    assert!(matches!(reply, ToggleReply::Print(t) if t == "ext.flutter.debugPaint: false"));
    assert!(!state.debug_paint);

    let third = state.handle(KeyCommand::TogglePerformanceOverlay).unwrap();
    assert_eq!(third.call().method, "ext.flutter.showPerformanceOverlay");
    assert!(state.performance_overlay);
    assert!(!state.debug_paint);
}

#[test]
fn platform_is_asked_for_and_then_cycled() {
    let mut state = ToggleState::default();
    let read = state.handle(KeyCommand::TogglePlatform).unwrap();
    assert_eq!(read, Pending::ReadPlatform);
    let call = read.call();
    assert_eq!(call.method, "ext.flutter.platformOverride");
    assert!(matches!(call.params, Json::Object(fields) if fields.is_empty()));

    let reply = state.reply(read, Ok(object("value", "iOS")));
    let set = Pending::SetPlatform {
        platform: Platform::Android,
    };
    assert!(matches!(reply, ToggleReply::Next(p) if p == set));
    assert!(state.platform.is_none());
    let call = set.call();
    assert_eq!(call.method, "ext.flutter.platformOverride");
    assert_eq!(text(&call.params, "value").as_deref(), Some("android"));

    // The app has the last word on what was applied.
    let reply = state.reply(set, Ok(object("value", "fuchsia")));
    assert!(matches!(reply, ToggleReply::Print(t) if t == "Platform: fuchsia"));
    assert_eq!(state.platform.as_deref(), Some("fuchsia"));
    assert_eq!(
        state.handle(KeyCommand::TogglePlatform),
        Some(Pending::SetPlatform {
            platform: Platform::Ios
        })
    );
}

#[test]
fn platform_falls_back_to_what_was_set() {
    let mut state = ToggleState::default();
    // An answer without a value reads as neither platform.
    let reply = state.reply(Pending::ReadPlatform, Ok(Json::Null));
    let set = Pending::SetPlatform {
        platform: Platform::Ios,
    };
    assert!(matches!(reply, ToggleReply::Next(p) if p == set));
    let reply = state.reply(set, Ok(Json::Null));
    assert!(matches!(reply, ToggleReply::Print(t) if t == "Platform: iOS"));
    assert_eq!(state.platform.as_deref(), Some("iOS"));
}

#[test]
fn brightness_is_asked_for_and_then_cycled() {
    let mut state = ToggleState::default();
    let read = state.handle(KeyCommand::ToggleBrightness).unwrap();
    assert_eq!(read, Pending::ReadBrightness);
    assert_eq!(read.call().method, "ext.flutter.brightnessOverride");
    let reply = state.reply(read, Ok(object("value", "Brightness.light")));
    let set = Pending::SetBrightness {
        brightness: Brightness::Dark,
    };
    assert!(matches!(reply, ToggleReply::Next(p) if p == set));
    let call = set.call();
    assert_eq!(text(&call.params, "value").as_deref(), Some("Brightness.dark"));
    let reply = state.reply(set, Ok(Json::Null));
    assert!(matches!(reply, ToggleReply::Print(t) if t == "Brightness: Brightness.dark"));
    assert_eq!(
        state.handle(KeyCommand::ToggleBrightness),
        Some(Pending::SetBrightness {
            brightness: Brightness::Light
        })
    );
}

#[test]
fn a_failed_question_changes_nothing() {
    let mut state = ToggleState::default();
    let reply = state.reply(Pending::ReadBrightness, Err("timeout".to_owned()));
    assert!(matches!(reply, ToggleReply::Failed(t) if t == "Key command failed: timeout"));
    assert!(state.brightness.is_none());
}

#[test]
fn the_dump_is_printed_if_there_is_one() {
    let mut state = ToggleState::default();
    let dump = state.handle(KeyCommand::DumpWidgetHierarchy).unwrap();
    assert_eq!(dump.call().method, "ext.flutter.debugDumpApp");
    let reply = state.reply(dump, Ok(object("data", "MyApp\n  Text")));
    assert!(matches!(reply, ToggleReply::Print(t) if t == "MyApp\n  Text"));
    let reply = state.reply(dump, Ok(object("other", "x")));
    assert!(matches!(reply, ToggleReply::Quiet));
}

#[test]
fn other_keys_are_not_backed_by_service_extensions() {
    let mut state = ToggleState::default();
    for command in [
        KeyCommand::HotReload,
        KeyCommand::HotRestart,
        KeyCommand::RebuildRust,
        KeyCommand::Quit,
        KeyCommand::Help,
    ] {
        assert_eq!(state.handle(command), None);
    }
    assert!(!state.debug_paint && !state.performance_overlay);
}

#[test]
fn missing_text_reads_as_its_replacement() {
    assert_eq!(read_string(&object("value", "x"), "value", "y"), "x");
    assert_eq!(read_string(&object("value", "x"), "other", "y"), "y");
    let number = Json::Object(vec![("value".to_owned(), Json::Int(1))]);
    assert_eq!(read_string(&number, "value", ""), "");
}
