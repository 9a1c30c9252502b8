use frb_run::daemon::{
    await_response, direct_flutter_binary, must_kill, parse_items, parse_line, pump_stdout,
    reported_message, route_line, stop_next, translate_event, Awaited, DaemonError, DaemonEvent, FlutterDaemon, ParsedLine, ProcessState,
    PumpStep, RawEvent, RawResponse, StopEvent, StopStep, Waited,
};
use frb_run::json::Json;

#[test]
fn test_parse_line_event() {
    let line = r#"[{"event":"app.start","params":{"appId":"abc","deviceId":"windows"}}]"#;
    let Some(ParsedLine::Event(raw)) = parse_line(line) else {
        panic!("expect event");
    };
    assert_eq!(raw.event, "app.start");
    assert!(matches!(
        translate_event(raw),
        Some(DaemonEvent::AppStart { app_id }) if app_id == "abc"
    ));
}

#[test]
fn test_parse_line_debug_port() {
    let line = r#"[{"event":"app.debugPort","params":{"appId":"abc","port":52341,"wsUri":"ws://127.0.0.1:52341/AbCd=/ws"}}]"#;
    let Some(ParsedLine::Event(raw)) = parse_line(line) else {
        panic!("expect event");
    };
    assert!(matches!(
        translate_event(raw),
        Some(DaemonEvent::DebugPort { ws_uri }) if ws_uri.ends_with("/ws")
    ));
}

#[test]
fn test_parse_line_response() {
    let line = r#"[{"id":3,"result":{"code":0}}]"#;
    let Some(ParsedLine::Response(response)) = parse_line(line) else {
        panic!("expect response");
    };
    assert_eq!(response.id, 3);
    assert!(response.error.is_none());
}

#[test]
fn test_parse_line_response_error() {
    let line = r#"[{"id":4,"error":"something went wrong"}]"#;
    let Some(ParsedLine::Response(response)) = parse_line(line) else {
        panic!("expect response");
    };
    assert_eq!(response.id, 4);
    assert!(response.error.is_some());
}

#[test]
fn test_parse_line_plain_output_is_not_protocol() {
    assert!(parse_line("Launching lib/main.dart on Windows...").is_none());
    assert!(parse_line("").is_none());
    // A JSON array of something unrecognized is not a protocol line either
    assert!(parse_line("[1, 2, 3]").is_none());
}

#[test]
fn test_translate_event_ignores_uninteresting() {
    let raw = RawEvent {
        event: "daemon.connected".to_owned(),
        params: Json::Object(vec![("pid".to_owned(), Json::Int(123))]),
    };
    assert!(translate_event(raw).is_none());
}

#[test]
fn test_translate_event_log() {
    let raw = RawEvent {
        event: "app.log".to_owned(),
        params: Json::Object(vec![
            ("appId".to_owned(), Json::Text("abc".to_owned())),
            ("log".to_owned(), Json::Text("hello".to_owned())),
            ("error".to_owned(), Json::Bool(true)),
        ]),
    };
    assert!(matches!(
        translate_event(raw),
        Some(DaemonEvent::Log { text, is_error: true }) if text == "hello"
    ));
}

fn request_object(line: &str) -> Json {
    assert!(!line.contains('\n'));
    let value: serde_json::Value = serde_json::from_str(line).unwrap();
    let items = value.as_array().unwrap();
    assert_eq!(items.len(), 1);
    let object = items[0].as_object().unwrap();
    assert_eq!(object.len(), 3);
    Json::Object(vec![
        ("id".to_owned(), Json::Int(object["id"].as_i64().unwrap())),
        (
            "method".to_owned(),
            Json::Text(object["method"].as_str().unwrap().to_owned()),
        ),
        (
            "params".to_owned(),
            Json::Text(object["params"].to_string()),
        ),
    ])
}

fn started() -> FlutterDaemon {
    let (mut daemon, _) = FlutterDaemon::spawn(None, false, &[]);
    daemon.set_app_id("abc".to_owned());
    daemon
}

#[test]
fn several_items_on_a_line_are_not_protocol() {
    assert!(parse_line(r#"[{"event":"app.stop"},{"event":"app.stop"}]"#).is_none());
    assert!(parse_line("[]").is_none());
    assert!(parse_line(r#"{"event":"app.stop"}"#).is_none());
    assert!(parse_line(r#"[{"event":"app.stop"}"#).is_none());
    assert!(parse_line(r#" [{"event":"app.stop"}]"#).is_none());
}

#[test]
fn malformed_objects_are_not_protocol() {
    // An event is not taken for a response, even where it is none.
    assert!(parse_line(r#"[{"event":1,"id":2}]"#).is_none());
    assert!(parse_line(r#"[{"id":"3"}]"#).is_none());
    assert!(parse_line(r#"[{"id":1.5}]"#).is_none());
    assert!(parse_line(r#"[{"id":9223372036854775808}]"#).is_none());
    assert!(parse_line(r#"[{"method":"x"}]"#).is_none());
}

#[test]
fn missing_fields_have_defaults() {
    let Some(ParsedLine::Event(raw)) = parse_line(r#"[{"event":"app.started"}]"#) else {
        panic!("expect event");
    };
    assert!(matches!(raw.params, Json::Null));
    assert!(matches!(translate_event(raw), Some(DaemonEvent::AppStarted)));

    let Some(ParsedLine::Response(response)) = parse_line(r#"[{"id":-7,"error":null}]"#) else {
        panic!("expect response");
    };
    assert_eq!(response.id, -7);
    assert!(matches!(response.result, Json::Null));
    assert!(response.error.is_none());
}

#[test]
fn values_of_every_kind_are_read() {
    let line = r#"[{"id":1,"result":{"a":null,"b":[true,-2],"c":1.5,"d":"x\n","e":18446744073709551615}}]"#;
    let Some(ParsedLine::Response(response)) = parse_line(line) else {
        panic!("expect response");
    };
    let result = response.result;
    assert!(matches!(result.get("a"), Some(Json::Null)));
    let Some(Json::Array(items)) = result.get("b") else {
        panic!("expect array");
    };
    assert!(matches!(items[..], [Json::Bool(true), Json::Int(-2)]));
    assert!(matches!(result.get("c"), Some(Json::Number(n)) if n.to_string() == "1.5"));
    assert_eq!(result.text_of("d").as_deref(), Some("x\n"));
    assert!(matches!(result.get("e"), Some(Json::Number(n)) if n.as_u64() == Some(u64::MAX)));
    assert!(result.get("f").is_none());
    assert!(result.clone().get("b").is_some());
}

#[test]
fn the_later_of_two_fields_counts() {
    let Some(ParsedLine::Response(response)) = parse_line(r#"[{"id":1,"id":2}]"#) else {
        panic!("expect response");
    };
    assert_eq!(response.id, 2);
    let twice = Json::Object(vec![
        ("a".to_owned(), Json::Int(1)),
        ("a".to_owned(), Json::Int(2)),
    ]);
    assert!(matches!(twice.get("a"), Some(Json::Int(2))));
}

#[test]
fn events_without_what_they_need_are_dropped() {
    for event in ["app.start", "app.debugPort", "app.log"] {
        let raw = RawEvent {
            event: event.to_owned(),
            params: Json::Object(vec![("appId".to_owned(), Json::Int(1))]),
        };
        assert!(translate_event(raw).is_none(), "{event}");
    }
    let raw = RawEvent {
        event: "app.log".to_owned(),
        params: Json::Object(vec![("log".to_owned(), Json::Text("x".to_owned()))]),
    };
    assert!(matches!(
        translate_event(raw),
        Some(DaemonEvent::Log { is_error: false, .. })
    ));
    let raw = RawEvent {
        event: "app.stop".to_owned(),
        params: Json::Null,
    };
    assert!(matches!(translate_event(raw), Some(DaemonEvent::AppStop)));
}

#[test]
fn output_is_sorted_by_line() {
    assert!(matches!(pump_stdout(Some(" \t\u{2003} ")), PumpStep::Skip));
    assert!(matches!(
        pump_stdout(Some("  [{\"event\":\"app.stop\"}]\r")),
        PumpStep::Event(DaemonEvent::AppStop)
    ));
    assert!(matches!(
        pump_stdout(Some(r#"[{"event":"daemon.connected"}]"#)),
        PumpStep::Skip
    ));
    assert!(matches!(
        pump_stdout(Some(r#"[{"id":5}]"#)),
        PumpStep::Response(response) if response.id == 5
    ));
    assert!(matches!(
        pump_stdout(Some("  Launching...  ")),
        PumpStep::Print(line) if line == "Launching..."
    ));
    assert!(matches!(
        pump_stdout(None),
        PumpStep::Finish(DaemonEvent::ProcessExited)
    ));
}

#[test]
fn flutter_is_run_directly_or_through_fvm() {
    let extra = ["-d".to_owned(), "linux".to_owned()];
    let (_, argv) = FlutterDaemon::spawn(None, false, &extra);
    assert_eq!(argv, ["flutter", "run", "--machine", "-d", "linux"]);
    let (_, argv) = FlutterDaemon::spawn(None, true, &[]);
    assert_eq!(argv, ["flutter.bat", "run", "--machine"]);
    let (daemon, argv) = FlutterDaemon::spawn(Some("fvm".to_owned()), true, &[]);
    assert_eq!(argv, ["fvm", "flutter", "run", "--machine"]);
    assert_eq!(daemon.app_id(), None);
    assert_eq!(direct_flutter_binary(true), "flutter.bat");
    assert_eq!(direct_flutter_binary(false), "flutter");
}

#[test]
fn requests_need_an_app() {
    let (mut daemon, _) = FlutterDaemon::spawn(None, false, &[]);
    assert!(matches!(
        daemon.restart(false, "why"),
        Err(DaemonError::AppIdUnknown)
    ));
    assert!(matches!(
        daemon.call_service_extension("ext.x", Json::Null),
        Err(DaemonError::AppIdUnknown)
    ));
    assert!(matches!(daemon.stop_and_wait(30), StopStep::Look));
    // None of them used up an id.
    daemon.set_app_id("abc".to_owned());
    assert_eq!(daemon.app_id(), Some("abc"));
    assert_eq!(daemon.restart(true, "why").unwrap().id, 0);
}

#[test]
fn requests_are_lines_of_the_protocol() {
    let mut daemon = started();
    let reload = daemon.restart(false, "a \"b\"\nc").unwrap();
    assert_eq!(
        reload.line,
        r#"[{"id":0,"method":"app.restart","params":{"appId":"abc","fullRestart":false,"pause":false,"reason":"a \"b\"\nc"}}]"#
    );
    assert_eq!(reload.timeout_secs, 120);

    let params = Json::Object(vec![("enabled".to_owned(), Json::Text("true".to_owned()))]);
    let call = daemon.call_service_extension("ext.x", params).unwrap();
    assert_eq!(call.id, 1);
    assert_eq!(call.timeout_secs, 30);
    let object = request_object(&call.line);
    assert!(matches!(object.get("id"), Some(Json::Int(1))));
    assert_eq!(
        object.text_of("method").as_deref(),
        Some("app.callServiceExtension")
    );
    assert_eq!(
        object.text_of("params").as_deref(),
        Some(r#"{"appId":"abc","methodName":"ext.x","params":{"enabled":"true"}}"#)
    );

    let StopStep::Ask(stop) = daemon.stop_and_wait(7) else {
        panic!("expect a request");
    };
    assert_eq!(stop.id, 2);
    assert_eq!(stop.timeout_secs, 7);
    assert_eq!(
        stop.line,
        r#"[{"id":2,"method":"app.stop","params":{"appId":"abc"}}]"#
    );
}

#[test]
fn requests_read_back_as_they_were() {
    let mut daemon = started();
    let params = Json::Object(vec![
        ("b".to_owned(), Json::Array(vec![Json::Null, Json::Int(i64::MIN)])),
        ("a".to_owned(), Json::Text("\u{7f}\u{1}é".to_owned())),
    ]);
    let request = daemon.send("m", params, 1);
    // A request reads like a response, since both carry an id.
    let Some(ParsedLine::Response(response)) = parse_line(&request.line) else {
        panic!("expect a line of the protocol");
    };
    assert_eq!(response.id, request.id);
    let object = request_object(&request.line);
    assert_eq!(
        object.text_of("params").as_deref(),
        Some("{\"a\":\"\u{7f}\\u0001é\",\"b\":[null,-9223372036854775808]}")
    );
}

fn response(id: i64, error: Option<Json>) -> Waited {
    Waited::Response(RawResponse {
        id,
        result: Json::Int(9),
        error,
    })
}

#[test]
fn a_request_waits_for_its_own_response() {
    assert!(matches!(
        await_response(4, response(3, Some(Json::Null))),
        Awaited::KeepWaiting
    ));
    assert!(matches!(
        await_response(4, response(4, None)),
        Awaited::Settled(Ok(Json::Int(9)))
    ));
    let Awaited::Settled(Err(error)) =
        await_response(4, response(4, Some(Json::Text("bad \"x\"".to_owned()))))
    else {
        panic!("expect an error");
    };
    assert_eq!(
        error.message(),
        r#"Daemon reported error for request 4: "bad \"x\"""#
    );
    let Awaited::Settled(Err(error)) = await_response(-12, Waited::DeadlinePassed) else {
        panic!("expect an error");
    };
    assert_eq!(
        error.message(),
        "Timed out waiting for response to request -12"
    );
    let Awaited::Settled(Err(error)) = await_response(4, Waited::Lost("gone".to_owned())) else {
        panic!("expect an error");
    };
    assert_eq!(error.message(), "gone");
    assert_eq!(DaemonError::AppIdUnknown.message(), "app_id not known yet");
}

#[test]
fn numbers_outside_i64_are_written_as_they_came() {
    let error = DaemonError::Reported {
        id: 1,
        error: Json::Array(vec![
            Json::Number(serde_json::Number::from_f64(1.5).unwrap()),
            Json::Number(serde_json::Number::from(u64::MAX)),
        ]),
    };
    assert_eq!(
        error.message(),
        "Daemon reported error for request 1: [1.5,18446744073709551615]"
    );
}

#[test]
fn the_later_of_two_fields_is_written() {
    let error = DaemonError::Reported {
        id: 1,
        error: Json::Object(vec![
            ("b".to_owned(), Json::Int(1)),
            ("a".to_owned(), Json::Null),
            ("b".to_owned(), Json::Int(2)),
        ]),
    };
    assert_eq!(
        error.message(),
        r#"Daemon reported error for request 1: {"a":null,"b":2}"#
    );
}

fn text_response(id: i64, text: &str) -> RawResponse {
    RawResponse {
        id,
        result: Json::Text(text.to_owned()),
        error: None,
    }
}

#[test]
fn the_first_own_response_of_a_queue_settles() {
    let mut queue = vec![
        text_response(1, "stale"),
        text_response(3, "other"),
        text_response(2, "own"),
        text_response(2, "late"),
    ];
    let settled = loop {
        match await_response(2, Waited::Response(queue.remove(0))) {
            Awaited::KeepWaiting => {}
            Awaited::Settled(result) => break result,
        }
    };
    assert_eq!(settled.unwrap().as_str(), Some("own"));
    assert_eq!(queue.len(), 1);
    assert_eq!(queue[0].result.as_str(), Some("late"));
}

#[test]
fn reported_numbers_are_not_read_twice() {
    // Some of these change in the last digit each time they are read.
    for i in 1..2000u64 {
        let number = format!("{}.{}e{}", i, i * 7919, i % 300);
        let value: serde_json::Value = serde_json::from_str(&number).unwrap();
        let line = format!(r#"[{{"id":1,"error":[{number}]}}]"#);
        let Some(ParsedLine::Response(response)) = parse_line(&line) else {
            panic!("expect response");
        };
        let Awaited::Settled(Err(error)) = await_response(1, Waited::Response(response)) else {
            panic!("expect an error");
        };
        assert_eq!(
            error.message(),
            format!("Daemon reported error for request 1: [{value}]")
        );
    }
}

#[test]
fn a_process_is_given_time_to_exit() {
    assert!(matches!(
        stop_next(StopEvent::Asked { answered: false }),
        StopStep::Look
    ));
    assert!(matches!(
        stop_next(StopEvent::Looked(ProcessState::Running)),
        StopStep::Pause
    ));
    assert!(matches!(
        stop_next(StopEvent::Looked(ProcessState::Exited)),
        StopStep::Gone
    ));
    assert!(matches!(
        stop_next(StopEvent::Looked(ProcessState::Unknown)),
        StopStep::Fail
    ));
    assert!(matches!(
        stop_next(StopEvent::DeadlinePassed),
        StopStep::Kill
    ));
    assert!(matches!(stop_next(StopEvent::Killed), StopStep::Gone));
    assert!(must_kill(ProcessState::Running));
    assert!(must_kill(ProcessState::Unknown));
    assert!(!must_kill(ProcessState::Exited));
}

#[test]
fn nesting_is_read_to_a_depth() {
    let nested = |depth: usize| {
        let mut json = Json::Array(vec![]);
        for _ in 1..depth {
            json = Json::Array(vec![json]);
        }
        json
    };
    // The request itself nests twice.
    let mut daemon = started();
    assert!(parse_line(&daemon.send("m", nested(125), 1).line).is_some());
    assert!(parse_line(&daemon.send("m", nested(126), 1).line).is_none());
}

#[test]
fn ids_count_up() {
    let mut daemon = started();
    for id in 0..5 {
        assert_eq!(daemon.send("m", Json::Null, 1).id, id);
    }
}

#[test]
fn what_was_read_is_routed() {
    assert!(matches!(route_line("x", None), PumpStep::Print(line) if line == "x"));
    let items = [Json::Object(vec![("id".to_owned(), Json::Int(8))])];
    let parsed = parse_items(&items);
    assert!(matches!(route_line("x", parsed), PumpStep::Response(r) if r.id == 8));
    assert!(parse_items(&[]).is_none());
    assert_eq!(
        reported_message(-1, "why"),
        "Daemon reported error for request -1: why"
    );
}
