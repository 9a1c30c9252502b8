//! The `flutter run --machine` daemon protocol.
//!
//! The protocol is line based: every line on stdout is a JSON array holding one
//! object, which is either an event (`{"event": ..., "params": ...}`) or a
//! response to a request we sent (`{"id": ..., "result"/"error": ...}`).
//! Requests go to stdin in the same shape.

use crate::json::{
    fields_view, json_array, json_text, max_depth, one_field, one_item, push_field, read_array,
    reads_back, write_json, Json, JsonView,
};
use crate::text::{
    all_white, chars_of, decimal, decimal_text, str_eq, trim, trimmed,
    trimming_drops_white_space_only,
};
use vstd::prelude::*;
use vstd::string::*;

verus! {

/// Interesting things the daemon told us. Uninteresting events are dropped.
#[derive(Debug, Clone)]
pub enum DaemonEvent {
    /// The app is registered and has an id we can send commands for.
    AppStart { app_id: String },
    /// The Dart VM Service is listening. Carries what a debugger would attach to.
    DebugPort { ws_uri: String },
    /// The app finished starting up.
    AppStarted,
    /// The app is gone.
    AppStop,
    /// A log line from the app.
    Log { text: String, is_error: bool },
    /// The `flutter` process itself exited.
    ProcessExited,
}

/// What a [`DaemonEvent`] holds.
pub ghost enum DaemonEventView {
    AppStart { app_id: Seq<char> },
    DebugPort { ws_uri: Seq<char> },
    AppStarted,
    AppStop,
    Log { text: Seq<char>, is_error: bool },
    ProcessExited,
}

impl View for DaemonEvent {
    type V = DaemonEventView;

    open spec fn view(&self) -> DaemonEventView {
        match *self {
            DaemonEvent::AppStart { app_id } => DaemonEventView::AppStart { app_id: app_id@ },
            DaemonEvent::DebugPort { ws_uri } => DaemonEventView::DebugPort { ws_uri: ws_uri@ },
            DaemonEvent::AppStarted => DaemonEventView::AppStarted,
            DaemonEvent::AppStop => DaemonEventView::AppStop,
            DaemonEvent::Log { text, is_error } => DaemonEventView::Log { text: text@, is_error },
            DaemonEvent::ProcessExited => DaemonEventView::ProcessExited,
        }
    }
}

/// An event as the daemon words it.
#[derive(Debug)]
pub struct RawEvent {
    pub event: String,
    pub params: Json,
}

/// The daemon's response to a request.
#[derive(Debug)]
pub struct RawResponse {
    pub id: i64,
    pub result: Json,
    pub error: Option<Json>,
}

/// What a line of the protocol says.
#[derive(Debug)]
pub enum ParsedLine {
    Event(RawEvent),
    Response(RawResponse),
}

/// What a [`ParsedLine`] holds.
pub ghost enum ParsedView {
    Event { event: Seq<char>, params: JsonView },
    Response { id: int, result: JsonView, error: Option<JsonView> },
}

impl View for RawResponse {
    type V = ParsedView;

    open spec fn view(&self) -> ParsedView {
        ParsedView::Response {
            id: self.id as int,
            result: self.result@,
            error: self.error.deep_view(),
        }
    }
}

impl View for ParsedLine {
    type V = ParsedView;

    open spec fn view(&self) -> ParsedView {
        match *self {
            ParsedLine::Event(raw) => ParsedView::Event {
                event: raw.event@,
                params: raw.params@,
            },
            ParsedLine::Response(raw) => raw@,
        }
    }
}

/// A field of an object, or null where it is missing.
pub open spec fn field_or_null(item: JsonView, key: Seq<char>) -> JsonView {
    match item.get(key) {
        Some(field) => field,
        None => JsonView::Null,
    }
}

/// What the object on a line says. An event is named by text; a response
/// carries an integer id, and a null error is none.
pub open spec fn parsed_item(item: JsonView) -> Option<ParsedView> {
    match item.get("event"@) {
        Some(JsonView::Text(event)) => Some(
            ParsedView::Event { event, params: field_or_null(item, "params"@) },
        ),
        Some(_) => None,
        None => match item.get("id"@) {
            Some(JsonView::Int(id)) => Some(
                ParsedView::Response {
                    id,
                    result: field_or_null(item, "result"@),
                    error: if field_or_null(item, "error"@) is Null {
                        None
                    } else {
                        item.get("error"@)
                    },
                },
            ),
            _ => None,
        },
    }
}

/// What the items of the array on a line say: something only if there is
/// exactly one.
pub open spec fn parsed_items(items: Seq<JsonView>) -> Option<ParsedView> {
    if items.len() == 1 {
        parsed_item(items[0])
    } else {
        None
    }
}

/// What a line says. Anything that is no array is ordinary console output.
pub open spec fn parsed_line(line: Seq<char>) -> Option<ParsedView> {
    if line.len() > 0 && line[0] == '[' {
        match json_array(line) {
            Some(items) => parsed_items(items),
            None => None,
        }
    } else {
        None
    }
}

fn copy_field(item: &Json, key: &str) -> (field: Json)
    ensures
        field@ == field_or_null(item@, key@),
{
    match item.get(key) {
        Some(field) => field.clone(),
        None => Json::Null,
    }
}

/// Reads the object on a line.
pub fn parse_item(item: &Json) -> (parsed: Option<ParsedLine>)
    ensures
        match parsed {
            Some(p) => parsed_item(item@) == Some(p@),
            None => parsed_item(item@) is None,
        },
{
    if let Some(event) = item.get("event") {
        return match event.as_str() {
            Some(event) => Some(
                ParsedLine::Event(
                    RawEvent { event: event.to_owned(), params: copy_field(item, "params") },
                ),
            ),
            None => None,
        };
    }
    match item.get("id") {
        Some(Json::Int(id)) => {
            let error = copy_field(item, "error");
            Some(
                ParsedLine::Response(
                    RawResponse {
                        id: *id,
                        result: copy_field(item, "result"),
                        error: match error {
                            Json::Null => None,
                            error => Some(error),
                        },
                    },
                ),
            )
        },
        _ => None,
    }
}

/// Reads the items of the array on a line.
pub fn parse_items(items: &[Json]) -> (parsed: Option<ParsedLine>)
    ensures
        match parsed {
            Some(p) => parsed_items(items.deep_view()) == Some(p@),
            None => parsed_items(items.deep_view()) is None,
        },
{
    if items.len() == 1 {
        assert(items.deep_view()[0] == items@[0]@);
        parse_item(&items[0])
    } else {
        None
    }
}

fn begins_array(line: &str) -> (found: bool)
    ensures
        found == (line@.len() > 0 && line@[0] == '['),
{
    let chars = chars_of(line);
    chars.len() > 0 && chars[0] == '['
}

/// Protocol lines are a JSON array holding exactly one object. Anything else is
/// ordinary console output.
pub fn parse_line(line: &str) -> (parsed: Option<ParsedLine>)
    ensures
        match parsed {
            Some(p) => parsed_line(line@) == Some(p@),
            None => parsed_line(line@) is None,
        },
{
    if !begins_array(line) {
        return None;
    }
    match read_array(line) {
        Some(items) => parse_items(items.as_slice()),
        None => None,
    }
}

/// The event that the daemon words as `event` with `params`, if it is of
/// interest and says what it should.
pub open spec fn translated(event: Seq<char>, params: JsonView) -> Option<DaemonEventView> {
    if event == "app.start"@ {
        match params.text_of("appId"@) {
            Some(app_id) => Some(DaemonEventView::AppStart { app_id }),
            None => None,
        }
    } else if event == "app.debugPort"@ {
        match params.text_of("wsUri"@) {
            Some(ws_uri) => Some(DaemonEventView::DebugPort { ws_uri }),
            None => None,
        }
    } else if event == "app.started"@ {
        Some(DaemonEventView::AppStarted)
    } else if event == "app.stop"@ {
        Some(DaemonEventView::AppStop)
    } else if event == "app.log"@ {
        match params.text_of("log"@) {
            Some(text) => Some(
                DaemonEventView::Log {
                    text,
                    is_error: params.get("error"@) == Some(JsonView::Bool(true)),
                },
            ),
            None => None,
        }
    } else {
        None
    }
}

/// Translates an event, and drops it where it is not of interest.
pub fn translate_event(raw: RawEvent) -> (event: Option<DaemonEvent>)
    ensures
        match event {
            Some(e) => translated(raw.event@, raw.params@) == Some(e@),
            None => translated(raw.event@, raw.params@) is None,
        },
{
    let name = raw.event.as_str();
    let params = &raw.params;
    if str_eq(name, "app.start") {
        match params.text_of("appId") {
            Some(app_id) => Some(DaemonEvent::AppStart { app_id }),
            None => None,
        }
    } else if str_eq(name, "app.debugPort") {
        match params.text_of("wsUri") {
            Some(ws_uri) => Some(DaemonEvent::DebugPort { ws_uri }),
            None => None,
        }
    } else if str_eq(name, "app.started") {
        Some(DaemonEvent::AppStarted)
    } else if str_eq(name, "app.stop") {
        Some(DaemonEvent::AppStop)
    } else if str_eq(name, "app.log") {
        match params.text_of("log") {
            Some(text) => {
                let is_error = match params.get("error") {
                    Some(Json::Bool(b)) => *b,
                    _ => false,
                };
                Some(DaemonEvent::Log { text, is_error })
            },
            None => None,
        }
    } else {
        None
    }
}

/// What to do about a line of the daemon's output.
#[derive(Debug)]
pub enum PumpStep {
    /// Nothing; read on.
    Skip,
    /// Hand the event on.
    Event(DaemonEvent),
    /// Hand the response to whoever waits for it.
    Response(RawResponse),
    /// Show the line. Flutter interleaves plain human-readable output with the
    /// protocol.
    Print(String),
    /// Hand the event on and stop reading.
    Finish(DaemonEvent),
}

/// What a [`PumpStep`] holds.
pub ghost enum PumpView {
    Skip,
    Event(DaemonEventView),
    Response(ParsedView),
    Print(Seq<char>),
    Finish(DaemonEventView),
}

impl View for PumpStep {
    type V = PumpView;

    open spec fn view(&self) -> PumpView {
        match *self {
            PumpStep::Skip => PumpView::Skip,
            PumpStep::Event(event) => PumpView::Event(event@),
            PumpStep::Response(response) => PumpView::Response(response@),
            PumpStep::Print(line) => PumpView::Print(line@),
            PumpStep::Finish(event) => PumpView::Finish(event@),
        }
    }
}

/// What to do about a line, given what it says.
pub open spec fn pump_parsed(line: Seq<char>, parsed: Option<ParsedView>) -> PumpView {
    match parsed {
        Some(ParsedView::Event { event, params }) => match translated(event, params) {
            Some(event) => PumpView::Event(event),
            None => PumpView::Skip,
        },
        Some(response) => PumpView::Response(response),
        None => PumpView::Print(line),
    }
}

/// What to do about a line of output; `None` where the output ended.
pub open spec fn pumped(line: Option<Seq<char>>) -> PumpView {
    match line {
        None => PumpView::Finish(DaemonEventView::ProcessExited),
        Some(line) => if trimmed(line).len() == 0 {
            PumpView::Skip
        } else {
            pump_parsed(trimmed(line), parsed_line(trimmed(line)))
        },
    }
}

/// Decides what to do about `line`, given what it says.
pub fn route_line(line: &str, parsed: Option<ParsedLine>) -> (step: PumpStep)
    ensures
        step@ == pump_parsed(
            line@,
            match parsed {
                Some(p) => Some(p@),
                None => None,
            },
        ),
{
    match parsed {
        Some(ParsedLine::Event(raw)) => match translate_event(raw) {
            Some(event) => PumpStep::Event(event),
            None => PumpStep::Skip,
        },
        Some(ParsedLine::Response(response)) => PumpStep::Response(response),
        None => PumpStep::Print(line.to_owned()),
    }
}

/// Decides what to do about one line of the daemon's output. The output has
/// ended, or cannot be read any further, where there is none.
pub fn pump_stdout(line: Option<&str>) -> (step: PumpStep)
    ensures
        step@ == pumped(line.deep_view()),
{
    match line {
        None => PumpStep::Finish(DaemonEvent::ProcessExited),
        Some(line) => {
            let line = trim(line);
            if line.is_empty() {
                return PumpStep::Skip;
            }
            route_line(line, parse_line(line))
        },
    }
}

/// Why a request got no result.
#[derive(Debug)]
pub enum DaemonError {
    /// The app has not told its id yet, so there is nothing to address.
    AppIdUnknown,
    /// No response came in time.
    TimedOut { id: i64 },
    /// Responses cannot be received any more, for the reason given.
    Lost(String),
    /// The daemon answered with an error.
    Reported { id: i64, error: Json },
}

/// What is said of a request that the daemon answered with an error.
pub open spec fn reported_words(id: int, error: Seq<char>) -> Seq<char> {
    "Daemon reported error for request "@ + decimal(id) + ": "@ + error
}

/// Says that the daemon answered a request with an error.
pub fn reported_message(id: i64, error: &str) -> (text: String)
    ensures
        text@ == reported_words(id as int, error@),
{
    let mut text = "Daemon reported error for request ".to_owned();
    text.append(decimal_text(id).as_str());
    text.append(": ");
    text.append(error);
    text
}

impl DaemonError {
    /// The error in words.
    pub open spec fn words(self) -> Seq<char> {
        match self {
            DaemonError::AppIdUnknown => "app_id not known yet"@,
            DaemonError::TimedOut { id } => "Timed out waiting for response to request "@ + decimal(
                id as int,
            ),
            DaemonError::Lost(why) => why@,
            DaemonError::Reported { id, error } => reported_words(id as int, json_text(error@)),
        }
    }

    /// Puts the error in words.
    pub fn message(&self) -> (text: String)
        ensures
            text@ == self.words(),
    {
        match self {
            DaemonError::AppIdUnknown => "app_id not known yet".to_owned(),
            DaemonError::TimedOut { id } => {
                let mut text = "Timed out waiting for response to request ".to_owned();
                text.append(decimal_text(*id).as_str());
                text
            },
            DaemonError::Lost(why) => why.clone(),
            DaemonError::Reported { id, error } => reported_message(
                *id,
                write_json(error).as_str(),
            ),
        }
    }
}

/// A request to the daemon.
#[derive(Debug)]
pub struct Request {
    /// By which the response is recognized.
    pub id: i64,
    /// What to write to the daemon, without the line break.
    pub line: String,
    /// How long to wait for the response, in seconds.
    pub timeout_secs: u64,
}

/// What came of waiting for a response.
#[derive(Debug)]
pub enum Waited {
    /// The time is up.
    DeadlinePassed,
    /// Nothing can be received any more, for the reason given.
    Lost(String),
    /// Some response came.
    Response(RawResponse),
}

/// What to do next about a request.
#[derive(Debug)]
pub enum Awaited {
    /// Go on waiting until the same deadline.
    KeepWaiting,
    /// The request is settled.
    Settled(Result<Json, DaemonError>),
}

/// The object that a request is.
pub open spec fn request_object(id: int, method: Seq<char>, params: JsonView) -> JsonView {
    JsonView::Object(
        map![
            "id"@ => JsonView::Int(id),
            "method"@ => JsonView::Text(method),
            "params"@ => params,
        ],
    )
}

/// The line that a request is.
pub open spec fn request_line(id: int, method: Seq<char>, params: JsonView) -> Seq<char> {
    json_text(JsonView::Array(seq![request_object(id, method, params)]))
}

/// How long a hot reload or restart may take, in seconds.
pub const RESTART_TIMEOUT_SECS: u64 = 120;

/// How long a service extension may take, in seconds.
pub const SERVICE_TIMEOUT_SECS: u64 = 30;

/// The parameters of a hot reload or restart.
pub open spec fn restart_params(
    app_id: Seq<char>,
    full_restart: bool,
    reason: Seq<char>,
) -> JsonView {
    JsonView::Object(
        map![
            "appId"@ => JsonView::Text(app_id),
            "fullRestart"@ => JsonView::Bool(full_restart),
            "pause"@ => JsonView::Bool(false),
            "reason"@ => JsonView::Text(reason),
        ],
    )
}

/// The parameters of a call of a service extension.
pub open spec fn service_params(
    app_id: Seq<char>,
    method: Seq<char>,
    params: JsonView,
) -> JsonView {
    JsonView::Object(
        map![
            "appId"@ => JsonView::Text(app_id),
            "methodName"@ => JsonView::Text(method),
            "params"@ => params,
        ],
    )
}

/// The parameters of the request to stop.
pub open spec fn stop_params(app_id: Seq<char>) -> JsonView {
    JsonView::Object(map!["appId"@ => JsonView::Text(app_id)])
}

/// Whether `request` is what a daemon that knows `daemon` sends to run `method`:
/// it carries the next id, it fits on one line, and what is on that line is an
/// array holding exactly the request, as far as its parameters can be read back.
pub open spec fn is_request(
    request: Request,
    daemon: FlutterDaemonView,
    method: Seq<char>,
    params: JsonView,
    timeout_secs: u64,
) -> bool {
    &&& request.id == daemon.next_id
    &&& request.timeout_secs == timeout_secs
    &&& request.line@ == request_line(daemon.next_id as int, method, params)
    &&& !request.line@.contains('\n')
    &&& request.line@.len() > 0 && request.line@[0] == '['
    &&& reads_back(params, (max_depth() - 2) as nat) ==> json_array(request.line@) == Some(
        seq![request_object(daemon.next_id as int, method, params)],
    )
}

/// What a daemon knows after it sent a request.
pub open spec fn sent(daemon: FlutterDaemonView) -> FlutterDaemonView {
    FlutterDaemonView {
        next_id: if daemon.next_id == i64::MAX {
            i64::MIN
        } else {
            (daemon.next_id + 1) as i64
        },
        ..daemon
    }
}

/// The protocol's side of a running `flutter run --machine` process.
#[derive(Debug)]
pub struct FlutterDaemon {
    next_id: i64,
    app_id: Option<String>,
}

/// What a [`FlutterDaemon`] knows.
pub ghost struct FlutterDaemonView {
    /// The id of the next request.
    pub next_id: i64,
    /// The id of the app, once it is known.
    pub app_id: Option<Seq<char>>,
}

impl View for FlutterDaemon {
    type V = FlutterDaemonView;

    closed spec fn view(&self) -> FlutterDaemonView {
        FlutterDaemonView {
            next_id: self.next_id,
            app_id: self.app_id.deep_view(),
        }
    }
}

/// The file name of Flutter's tool: on Windows it is a batch file, which is not
/// found without the extension.
pub fn direct_flutter_binary(windows: bool) -> (name: &'static str)
    ensures
        name@ == (if windows {
            "flutter.bat"@
        } else {
            "flutter"@
        }),
{
    if windows {
        "flutter.bat"
    } else {
        "flutter"
    }
}

/// The command that runs the app, with its program first.
pub open spec fn spawn_argv(
    fvm: Option<Seq<char>>,
    windows: bool,
    extra_args: Seq<Seq<char>>,
) -> Seq<Seq<char>> {
    (match fvm {
        Some(fvm) => seq![fvm, "flutter"@],
        None => seq![if windows {
            "flutter.bat"@
        } else {
            "flutter"@
        }],
    }) + seq!["run"@, "--machine"@] + extra_args
}

impl FlutterDaemon {
    /// A daemon that is about to be spawned by the command returned beside it.
    /// Its first request gets the id 0, and its app is not known yet.
    pub fn spawn(fvm: Option<String>, windows: bool, extra_args: &[String]) -> (started: (
        Self,
        Vec<String>,
    ))
        ensures
            started.0@ == (FlutterDaemonView { next_id: 0, app_id: None }),
            started.1.deep_view() == spawn_argv(
                fvm.deep_view(),
                windows,
                extra_args.deep_view(),
            ),
    {
        let ghost tool = fvm.deep_view();
        let mut argv: Vec<String> = Vec::new();
        match fvm {
            // The subcommand is always the plain name, and `fvm` itself is a
            // real executable so it resolves on every platform.
            Some(fvm) => {
                argv.push(fvm);
                argv.push("flutter".to_owned());
            },
            None => {
                argv.push(direct_flutter_binary(windows).to_owned());
            },
        }
        argv.push("run".to_owned());
        argv.push("--machine".to_owned());
        let ghost first = argv.deep_view();
        assert(first =~= spawn_argv(tool, windows, Seq::empty()));
        for i in 0..extra_args.len()
            invariant
                argv.deep_view() == first + extra_args.deep_view().take(i as int),
        {
            let ghost before = argv.deep_view();
            argv.push(extra_args[i].clone());
            assert(argv.deep_view() =~= before.push(extra_args.deep_view()[i as int]));
            assert(argv.deep_view() =~= first + extra_args.deep_view().take(i + 1));
        }
        assert(argv.deep_view() =~= spawn_argv(tool, windows, extra_args.deep_view()));
        (FlutterDaemon { next_id: 0, app_id: None }, argv)
    }

    /// Learns the id of the app.
    pub fn set_app_id(&mut self, app_id: String)
        ensures
            final(self)@ == (FlutterDaemonView { app_id: Some(app_id@), ..old(self)@ }),
    {
        self.app_id = Some(app_id);
    }

    /// The id of the app, once it is known.
    pub fn app_id(&self) -> (app_id: Option<&str>)
        ensures
            match app_id {
                Some(id) => self@.app_id == Some(id@),
                None => self@.app_id is None,
            },
    {
        match &self.app_id {
            Some(id) => Some(id.as_str()),
            None => None,
        }
    }

    /// A request to run `method` with `params`. Every request gets an id of its
    /// own, and is one line that the daemon can read.
    pub fn send(&mut self, method: &str, params: Json, timeout_secs: u64) -> (request: Request)
        ensures
            is_request(request, old(self)@, method@, params@, timeout_secs),
            final(self)@ == sent(old(self)@),
    {
        let id: i64 = self.next_id;
        self.next_id = id.wrapping_add(1);
        let mut fields: Vec<(String, Json)> = Vec::new();
        push_field(&mut fields, "id", Json::Int(id));
        push_field(&mut fields, "method", Json::Text(method.to_owned()));
        push_field(&mut fields, "params", params);
        let ghost object = request_object(id as int, method@, params@);
        assert(fields_view(fields@) =~= object->Object_0);
        let message = one_item(Json::Object(fields));
        let line = write_json(&message);
        proof {
            if reads_back(params@, (max_depth() - 2) as nat) {
                let inner = (max_depth() - 1) as nat;
                let all = object->Object_0;
                assert forall|key: Seq<char>| all.contains_key(key) implies reads_back(
                    #[trigger] all[key],
                    (inner - 1) as nat,
                ) by {}
                assert(reads_back(object, inner));
                let items = seq![object];
                assert forall|i: int| 0 <= i < items.len() implies reads_back(
                    #[trigger] items[i],
                    inner,
                ) by {}
                assert(reads_back(message@, max_depth()));
            }
        }
        Request { id, line, timeout_secs }
    }

    /// Hot reload (`full_restart == false`) or Dart-level hot restart.
    ///
    /// Note neither reloads the Rust cdylib: for that the process has to be
    /// stopped and spawned afresh.
    pub fn restart(&mut self, full_restart: bool, reason: &str) -> (request: Result<
        Request,
        DaemonError,
    >)
        ensures
            match old(self)@.app_id {
                Some(app_id) => {
                    &&& final(self)@ == sent(old(self)@)
                    &&& request matches Ok(r) && is_request(
                        r,
                        old(self)@,
                        "app.restart"@,
                        restart_params(app_id, full_restart, reason@),
                        RESTART_TIMEOUT_SECS,
                    )
                },
                None => *final(self) == *old(self) && request matches Err(
                    DaemonError::AppIdUnknown,
                ),
            },
    {
        match self.app_id.clone() {
            None => Err(DaemonError::AppIdUnknown),
            Some(app_id) => {
                let mut fields: Vec<(String, Json)> = Vec::new();
                let ghost id = app_id@;
                push_field(&mut fields, "appId", Json::Text(app_id));
                push_field(&mut fields, "fullRestart", Json::Bool(full_restart));
                push_field(&mut fields, "pause", Json::Bool(false));
                push_field(&mut fields, "reason", Json::Text(reason.to_owned()));
                assert(fields_view(fields@) =~= restart_params(
                    id,
                    full_restart,
                    reason@,
                )->Object_0);
                Ok(self.send("app.restart", Json::Object(fields), RESTART_TIMEOUT_SECS))
            },
        }
    }

    /// Call a Flutter service extension, e.g. `ext.flutter.debugPaint`.
    ///
    /// This is how the interactive keys that toggle debug overlays are served;
    /// `flutter run` does the same thing when you press them.
    pub fn call_service_extension(&mut self, method: &str, params: Json) -> (request: Result<
        Request,
        DaemonError,
    >)
        ensures
            match old(self)@.app_id {
                Some(app_id) => {
                    &&& final(self)@ == sent(old(self)@)
                    &&& request matches Ok(r) && is_request(
                        r,
                        old(self)@,
                        "app.callServiceExtension"@,
                        service_params(app_id, method@, params@),
                        SERVICE_TIMEOUT_SECS,
                    )
                },
                None => *final(self) == *old(self) && request matches Err(
                    DaemonError::AppIdUnknown,
                ),
            },
    {
        match self.app_id.clone() {
            None => Err(DaemonError::AppIdUnknown),
            Some(app_id) => {
                let ghost id = app_id@;
                let mut fields: Vec<(String, Json)> = Vec::new();
                push_field(&mut fields, "appId", Json::Text(app_id));
                push_field(&mut fields, "methodName", Json::Text(method.to_owned()));
                push_field(&mut fields, "params", params);
                assert(fields_view(fields@) =~= service_params(id, method@, params@)->Object_0);
                Ok(
                    self.send(
                        "app.callServiceExtension",
                        Json::Object(fields),
                        SERVICE_TIMEOUT_SECS,
                    ),
                )
            },
        }
    }

    /// Begins to stop the app: asks it to, where its id is known, and otherwise
    /// goes straight to looking whether the process is gone.
    ///
    /// Waiting matters: on Windows the cdylib stays locked until the process
    /// dies, so `cargo build` would fail with a sharing violation if we started
    /// building too early.
    pub fn stop_and_wait(&mut self, timeout_secs: u64) -> (step: StopStep)
        ensures
            match old(self)@.app_id {
                Some(app_id) => {
                    &&& final(self)@ == sent(old(self)@)
                    &&& step matches StopStep::Ask(r) && is_request(
                        r,
                        old(self)@,
                        "app.stop"@,
                        stop_params(app_id),
                        timeout_secs,
                    )
                },
                None => *final(self) == *old(self) && step is Look,
            },
    {
        match self.app_id.clone() {
            None => StopStep::Look,
            Some(app_id) => StopStep::Ask(
                self.send("app.stop", one_field("appId", Json::Text(app_id)), timeout_secs),
            ),
        }
    }
}

/// What a response that is the one to the request `id` settles it with.
pub open spec fn settlement(id: i64, response: RawResponse) -> Result<Json, DaemonError> {
    match response.error {
        Some(error) => Err(DaemonError::Reported { id, error }),
        None => Ok(response.result),
    }
}

/// What follows for the request `id` from what came of waiting.
pub open spec fn after_waiting(id: i64, waited: Waited) -> Awaited {
    match waited {
        Waited::DeadlinePassed => Awaited::Settled(Err(DaemonError::TimedOut { id })),
        Waited::Lost(why) => Awaited::Settled(Err(DaemonError::Lost(why))),
        Waited::Response(response) => if response.id != id {
            Awaited::KeepWaiting
        } else {
            Awaited::Settled(settlement(id, response))
        },
    }
}

/// Decides what to do about the request `id`, given what came of waiting. A
/// response to another request (e.g. one that timed out) is skipped rather than
/// taken for a failure.
pub fn await_response(id: i64, waited: Waited) -> (next: Awaited)
    ensures
        next == after_waiting(id, waited),
{
    match waited {
        Waited::DeadlinePassed => Awaited::Settled(Err(DaemonError::TimedOut { id })),
        Waited::Lost(why) => Awaited::Settled(Err(DaemonError::Lost(why))),
        Waited::Response(response) => {
            if response.id != id {
                return Awaited::KeepWaiting;
            }
            match response.error {
                Some(error) => Awaited::Settled(Err(DaemonError::Reported { id, error })),
                None => Awaited::Settled(Ok(response.result)),
            }
        },
    }
}

/// How long to pause between two looks at a process that should exit, in
/// milliseconds.
pub const EXIT_POLL_MILLIS: u64 = 50;

/// What a look at the `flutter` process showed.
#[derive(Debug, Clone, Copy, PartialEq, Eq, Structural)]
pub enum ProcessState {
    Exited,
    Running,
    /// The process could not be looked at.
    Unknown,
}

/// What to do next to stop the app.
#[derive(Debug)]
pub enum StopStep {
    /// Send the request, and wait for the response if it could be sent.
    Ask(Request),
    /// Look whether the process is gone, unless the time for that is up. It
    /// starts with the first look.
    Look,
    /// Pause, and then do as for `Look`.
    Pause,
    /// Kill the process and wait for it.
    Kill,
    /// Nothing: the process is gone.
    Gone,
    /// Give up: it cannot be said what became of the process.
    Fail,
}

/// What came of a [`StopStep`].
#[derive(Debug, Clone, Copy, PartialEq, Eq, Structural)]
pub enum StopEvent {
    /// The app was asked. `answered` says whether a response came; without one
    /// the process may already be on its way out.
    Asked { answered: bool },
    /// This is what a look at the process showed.
    Looked(ProcessState),
    /// There was no time left for a look.
    DeadlinePassed,
    /// The process was killed.
    Killed,
}

/// How stopping the app goes on after an event.
pub open spec fn after_stop_event(event: StopEvent) -> StopStep {
    match event {
        StopEvent::Asked { .. } => StopStep::Look,
        StopEvent::Looked(ProcessState::Exited) => StopStep::Gone,
        StopEvent::Looked(ProcessState::Running) => StopStep::Pause,
        StopEvent::Looked(ProcessState::Unknown) => StopStep::Fail,
        StopEvent::DeadlinePassed => StopStep::Kill,
        StopEvent::Killed => StopStep::Gone,
    }
}

/// Decides how to go on stopping the app.
pub fn stop_next(event: StopEvent) -> (step: StopStep)
    ensures
        step == after_stop_event(event),
{
    match event {
        StopEvent::Asked { .. } => StopStep::Look,
        StopEvent::Looked(state) => match state {
            ProcessState::Exited => StopStep::Gone,
            ProcessState::Running => StopStep::Pause,
            ProcessState::Unknown => StopStep::Fail,
        },
        StopEvent::DeadlinePassed => StopStep::Kill,
        StopEvent::Killed => StopStep::Gone,
    }
}

/// Whether a process that is no longer looked after has to be killed, so that
/// no orphaned app stays behind: unless it is known to have exited.
pub fn must_kill(state: ProcessState) -> (kill: bool)
    ensures
        kill == (state != ProcessState::Exited),
{
    match state {
        ProcessState::Exited => false,
        _ => true,
    }
}

/// Stopping is only over once the process is known to be gone: it was seen to
/// have exited, or it was killed. It is killed exactly where the time is up, and
/// given up only where it cannot be looked at; while it runs it is looked at again
/// after a pause. Whether the app answered does not matter.
pub proof fn stopping_waits_for_the_process(event: StopEvent)
    ensures
        after_stop_event(event) is Gone <==> event == StopEvent::Looked(ProcessState::Exited)
            || event == StopEvent::Killed,
        after_stop_event(event) is Kill <==> event == StopEvent::DeadlinePassed,
        after_stop_event(event) is Fail <==> event == StopEvent::Looked(ProcessState::Unknown),
        after_stop_event(event) is Look <==> event is Asked,
        after_stop_event(event) is Pause <==> event == StopEvent::Looked(ProcessState::Running),
{
}

/// What this crate asks of the daemon can be read back: an id, a method and
/// parameters, in one array.
pub proof fn own_requests_read_back(
    app_id: Seq<char>,
    full_restart: bool,
    reason: Seq<char>,
    method: Seq<char>,
    params: JsonView,
)
    ensures
        reads_back(restart_params(app_id, full_restart, reason), (max_depth() - 2) as nat),
        reads_back(stop_params(app_id), (max_depth() - 2) as nat),
        reads_back(params, (max_depth() - 3) as nat) ==> reads_back(
            service_params(app_id, method, params),
            (max_depth() - 2) as nat,
        ),
{
    let depth = (max_depth() - 2) as nat;
    let restart = restart_params(app_id, full_restart, reason)->Object_0;
    assert forall|key: Seq<char>| restart.contains_key(key) implies reads_back(
        #[trigger] restart[key],
        (depth - 1) as nat,
    ) by {}
    let stop = stop_params(app_id)->Object_0;
    assert forall|key: Seq<char>| stop.contains_key(key) implies reads_back(
        #[trigger] stop[key],
        (depth - 1) as nat,
    ) by {}
    if reads_back(params, (depth - 1) as nat) {
        let service = service_params(app_id, method, params)->Object_0;
        assert forall|key: Seq<char>| service.contains_key(key) implies reads_back(
            #[trigger] service[key],
            (depth - 1) as nat,
        ) by {}
    }
}

/// Requests have the shape of the protocol: the line of a request is read as one
/// that carries its id, and not as an event.
pub proof fn requests_have_the_shape_of_the_protocol(
    request: Request,
    daemon: FlutterDaemonView,
    method: Seq<char>,
    params: JsonView,
    timeout_secs: u64,
)
    requires
        is_request(request, daemon, method, params, timeout_secs),
        reads_back(params, (max_depth() - 2) as nat),
    ensures
        parsed_line(request.line@) == Some(
            (ParsedView::Response { id: request.id as int, result: JsonView::Null, error: None }),
        ),
{
    reveal_strlit("id");
    reveal_strlit("method");
    reveal_strlit("params");
    reveal_strlit("event");
    reveal_strlit("result");
    reveal_strlit("error");
    let object = request_object(daemon.next_id as int, method, params);
    let items = seq![object];
    assert("id"@.len() == 2 && "event"@.len() == 5 && "error"@.len() == 5);
    assert("method"@.len() == 6 && "params"@.len() == 6 && "result"@.len() == 6);
    assert("method"@[0] == 'm' && "params"@[0] == 'p' && "result"@[0] == 'r');
    assert(object.get("event"@) is None);
    assert(object.get("id"@) == Some(JsonView::Int(request.id as int)));
    assert(object.get("result"@) is None);
    assert(object.get("error"@) is None);
    assert(items[0] == object);
}

/// What a daemon knows after it sent `n` requests.
pub open spec fn sent_times(daemon: FlutterDaemonView, n: nat) -> FlutterDaemonView
    decreases n,
{
    if n == 0 {
        daemon
    } else {
        sent(sent_times(daemon, (n - 1) as nat))
    }
}

/// The ids of requests count up by one: the request after `n` others has an id
/// that is greater by `n`, until the greatest id is used up. Sending changes
/// nothing else.
pub proof fn request_ids_count_up(daemon: FlutterDaemonView, n: nat)
    requires
        daemon.next_id + n <= i64::MAX,
    ensures
        sent_times(daemon, n).next_id == daemon.next_id + n,
        sent_times(daemon, n).app_id == daemon.app_id,
    decreases n,
{
    if n > 0 {
        request_ids_count_up(daemon, (n - 1) as nat);
    }
}

/// How many ids there are.
pub open spec fn id_count() -> nat {
    0x1_0000_0000_0000_0000
}

proof fn lemma_ids_wrap(daemon: FlutterDaemonView, n: nat)
    ensures
        (daemon.next_id + n - sent_times(daemon, n).next_id) % (id_count() as int) == 0,
    decreases n,
{
    if n > 0 {
        lemma_ids_wrap(daemon, (n - 1) as nat);
    }
}

/// No two requests share an id, unless every id was used between them.
pub proof fn request_ids_differ(daemon: FlutterDaemonView, m: nat, n: nat)
    requires
        m < n < m + id_count(),
    ensures
        sent_times(daemon, m).next_id != sent_times(daemon, n).next_id,
{
    lemma_ids_wrap(daemon, m);
    lemma_ids_wrap(daemon, n);
}

/// What the request `id` is settled with, and which responses are left, where
/// `responses` come in time and then `end` ends the waiting.
pub open spec fn awaited(id: i64, responses: Seq<RawResponse>, end: Waited) -> (
    Awaited,
    Seq<RawResponse>,
)
    decreases responses.len(),
{
    if responses.len() == 0 {
        (after_waiting(id, end), responses)
    } else {
        match after_waiting(id, Waited::Response(responses[0])) {
            Awaited::KeepWaiting => awaited(id, responses.skip(1), end),
            settled => (settled, responses.skip(1)),
        }
    }
}

/// The first response to a request settles it: those before it are skipped, and
/// those after it stay in the queue.
pub proof fn the_first_own_response_settles(
    id: i64,
    responses: Seq<RawResponse>,
    end: Waited,
    first: int,
)
    requires
        0 <= first < responses.len(),
        responses[first].id == id,
        forall|i: int| 0 <= i < first ==> (#[trigger] responses[i]).id != id,
    ensures
        awaited(id, responses, end) == (
            Awaited::Settled(settlement(id, responses[first])),
            responses.skip(first + 1),
        ),
    decreases responses.len(),
{
    if first > 0 {
        let rest = responses.skip(1);
        assert(responses[0].id != id);
        assert forall|i: int| 0 <= i < first - 1 implies (#[trigger] rest[i]).id != id by {
            assert(rest[i] == responses[i + 1]);
        }
        the_first_own_response_settles(id, rest, end, first - 1);
        assert(rest.skip(first) =~= responses.skip(first + 1));
    }
}

/// Responses to other requests settle nothing: without one of its own, a request
/// is settled by what ends the waiting, and every response is skipped.
pub proof fn stale_responses_settle_nothing(id: i64, responses: Seq<RawResponse>, end: Waited)
    requires
        forall|i: int| 0 <= i < responses.len() ==> (#[trigger] responses[i]).id != id,
    ensures
        awaited(id, responses, end) == (after_waiting(id, end), Seq::<RawResponse>::empty()),
    decreases responses.len(),
{
    if responses.len() > 0 {
        let rest = responses.skip(1);
        assert(responses[0].id != id);
        assert forall|i: int| 0 <= i < rest.len() implies (#[trigger] rest[i]).id != id by {
            assert(rest[i] == responses[i + 1]);
        }
        stale_responses_settle_nothing(id, rest, end);
    } else {
        assert(responses =~= Seq::empty());
    }
}

/// The value of a field, or null where an object has no such field.
pub open spec fn value_or_null(fields: Map<Seq<char>, JsonView>, key: Seq<char>) -> JsonView {
    if fields.contains_key(key) {
        fields[key]
    } else {
        JsonView::Null
    }
}

/// A line that holds one object with an event is that event, named by text and
/// with its parameters, whatever else the object has; it says nothing where the
/// event is not named by text.
pub proof fn event_lines_are_events(line: Seq<char>, fields: Map<Seq<char>, JsonView>)
    requires
        line.len() > 0,
        line[0] == '[',
        json_array(line) == Some(seq![JsonView::Object(fields)]),
        fields.contains_key("event"@),
    ensures
        parsed_line(line) == (match fields["event"@] {
            JsonView::Text(event) => Some(
                (ParsedView::Event { event, params: value_or_null(fields, "params"@) }),
            ),
            _ => None,
        }),
{
    let items = seq![JsonView::Object(fields)];
    assert(items[0] == JsonView::Object(fields));
}

/// A line that holds one object with an id and no event is the response to that
/// request, with its result, and with its error unless that is missing or null.
/// It says nothing where the id is no integer.
pub proof fn response_lines_are_responses(line: Seq<char>, fields: Map<Seq<char>, JsonView>)
    requires
        line.len() > 0,
        line[0] == '[',
        json_array(line) == Some(seq![JsonView::Object(fields)]),
        !fields.contains_key("event"@),
        fields.contains_key("id"@),
    ensures
        parsed_line(line) == (match fields["id"@] {
            JsonView::Int(id) => Some(
                (ParsedView::Response {
                    id,
                    result: value_or_null(fields, "result"@),
                    error: if value_or_null(fields, "error"@) == JsonView::Null {
                        None
                    } else {
                        Some(fields["error"@])
                    },
                }),
            ),
            _ => None,
        }),
{
    let items = seq![JsonView::Object(fields)];
    assert(items[0] == JsonView::Object(fields));
}

/// Any other line says nothing: one that does not begin with a bracket, that is
/// no array, that holds no item or several, or whose item is no object or one
/// with neither an event nor an id.
pub proof fn other_lines_say_nothing(line: Seq<char>)
    requires
        line.len() == 0 || line[0] != '[' || (match json_array(line) {
            None => true,
            Some(items) => items.len() != 1 || !(items[0] is Object) || (
            !items[0]->Object_0.contains_key("event"@) && !items[0]->Object_0.contains_key("id"@)),
        }),
    ensures
        parsed_line(line) is None,
{
}

/// Events of interest are translated with what they carry, and only where they
/// carry it as text; all others are dropped.
pub proof fn events_are_translated(params: JsonView, other: Seq<char>)
    requires
        other != "app.start"@,
        other != "app.debugPort"@,
        other != "app.started"@,
        other != "app.stop"@,
        other != "app.log"@,
    ensures
        translated("app.start"@, params) == (match params.get("appId"@) {
            Some(JsonView::Text(app_id)) => Some((DaemonEventView::AppStart { app_id })),
            _ => None,
        }),
        translated("app.debugPort"@, params) == (match params.get("wsUri"@) {
            Some(JsonView::Text(ws_uri)) => Some((DaemonEventView::DebugPort { ws_uri })),
            _ => None,
        }),
        translated("app.started"@, params) == Some(DaemonEventView::AppStarted),
        translated("app.stop"@, params) == Some(DaemonEventView::AppStop),
        translated("app.log"@, params) == (match params.get("log"@) {
            Some(JsonView::Text(text)) => Some(
                (DaemonEventView::Log {
                    text,
                    is_error: params.get("error"@) == Some(JsonView::Bool(true)),
                }),
            ),
            _ => None,
        }),
        translated(other, params) is None,
{
    reveal_strlit("app.start");
    reveal_strlit("app.debugPort");
    reveal_strlit("app.started");
    reveal_strlit("app.stop");
    reveal_strlit("app.log");
    assert("app.start"@.len() == 9 && "app.debugPort"@.len() == 13 && "app.started"@.len() == 11
        && "app.stop"@.len() == 8 && "app.log"@.len() == 7);
}

/// Output that is no line of the protocol is always shown, without the white
/// space around it and whatever it begins with; a line without anything else is
/// passed over.
pub proof fn plain_output_is_shown(line: Seq<char>)
    ensures
        all_white(line) ==> pumped(Some(line)) == PumpView::Skip,
        !all_white(line) && parsed_line(trimmed(line)) is None ==> pumped(Some(line))
            == PumpView::Print(trimmed(line)),
        pump_parsed(line, None) == PumpView::Print(line),
{
    trimming_drops_white_space_only(line);
}

/// Every response is handed on as it came, and every event as it is translated;
/// nothing of the protocol is shown. Where the output ends, so does the process.
pub proof fn protocol_lines_are_handed_on(line: Seq<char>)
    ensures
        !all_white(line) ==> (match parsed_line(trimmed(line)) {
            Some(ParsedView::Response { id, result, error }) => pumped(Some(line))
                == PumpView::Response(ParsedView::Response { id, result, error }),
            Some(ParsedView::Event { event, params }) => match translated(event, params) {
                Some(known) => pumped(Some(line)) == PumpView::Event(known),
                None => pumped(Some(line)) == PumpView::Skip,
            },
            None => pumped(Some(line)) is Print,
        }),
        forall|parsed: ParsedView|
            parsed is Response ==> #[trigger] pump_parsed(line, Some(parsed)) == PumpView::Response(
                parsed,
            ),
        forall|event: Seq<char>, params: JsonView|
            #[trigger] pump_parsed(line, Some(ParsedView::Event { event, params })) == (
            match translated(event, params) {
                Some(known) => PumpView::Event(known),
                None => PumpView::Skip,
            }),
        pumped(None) == PumpView::Finish(DaemonEventView::ProcessExited),
{
    trimming_drops_white_space_only(line);
}

/// What carries over from the wire: an event and a response hold what they show.
pub proof fn events_show_what_they_hold(event: DaemonEvent, response: RawResponse)
    ensures
        event matches DaemonEvent::AppStart { app_id } ==> event@ == (DaemonEventView::AppStart {
            app_id: app_id@,
        }),
        event matches DaemonEvent::DebugPort { ws_uri } ==> event@ == (DaemonEventView::DebugPort {
            ws_uri: ws_uri@,
        }),
        event matches DaemonEvent::Log { text, is_error } ==> event@ == (DaemonEventView::Log {
            text: text@,
            is_error,
        }),
        event is AppStarted <==> event@ is AppStarted,
        event is AppStop <==> event@ is AppStop,
        event is ProcessExited <==> event@ is ProcessExited,
        response@ == (ParsedView::Response {
            id: response.id as int,
            result: response.result@,
            error: match response.error {
                Some(error) => Some(error@),
                None => None,
            },
        }),
        ParsedLine::Response(response)@ == response@,
        forall|raw: RawEvent| #[trigger]
            ParsedLine::Event(raw)@ == (ParsedView::Event {
                event: raw.event@,
                params: raw.params@,
            }),
        forall|line: String| #[trigger] PumpStep::Print(line)@ == PumpView::Print(line@),
        PumpStep::Skip@ == PumpView::Skip,
        PumpStep::Response(response)@ == PumpView::Response(response@),
        PumpStep::Event(event)@ == PumpView::Event(event@),
        PumpStep::Finish(event)@ == PumpView::Finish(event@),
{
}

/// Errors say what went wrong: which request, and why.
pub proof fn errors_name_the_request(id: i64, why: String, error: Json)
    ensures
        DaemonError::AppIdUnknown.words() == "app_id not known yet"@,
        (DaemonError::TimedOut { id }).words() == "Timed out waiting for response to request "@
            + decimal(id as int),
        DaemonError::Lost(why).words() == why@,
        (DaemonError::Reported { id, error }).words() == "Daemon reported error for request "@
            + decimal(id as int) + ": "@ + json_text(error@),
        reported_words(id as int, why@) == "Daemon reported error for request "@ + decimal(
            id as int,
        ) + ": "@ + why@,
{
}

/// A request holds its id, its method and its parameters, and nothing else.
pub proof fn requests_hold_what_was_asked(id: int, method: Seq<char>, params: JsonView)
    ensures
        request_object(id, method, params).get("id"@) == Some(JsonView::Int(id)),
        request_object(id, method, params).get("method"@) == Some(JsonView::Text(method)),
        request_object(id, method, params).get("params"@) == Some(params),
        forall|key: Seq<char>| #[trigger]
            request_object(id, method, params).get(key) is Some ==> key == "id"@ || key
                == "method"@ || key == "params"@,
        request_line(id, method, params) == json_text(
            JsonView::Array(seq![request_object(id, method, params)]),
        ),
{
    reveal_strlit("id");
    reveal_strlit("method");
    reveal_strlit("params");
    assert("id"@.len() == 2 && "method"@[0] == 'm' && "params"@[0] == 'p');
}

/// A hot reload or restart names the app, whether it is a restart, and the
/// reason, and does not ask to pause.
pub proof fn restarts_say_which_kind(app_id: Seq<char>, full_restart: bool, reason: Seq<char>)
    ensures
        restart_params(app_id, full_restart, reason).get("appId"@) == Some(JsonView::Text(app_id)),
        restart_params(app_id, full_restart, reason).get("fullRestart"@) == Some(
            JsonView::Bool(full_restart),
        ),
        restart_params(app_id, full_restart, reason).get("pause"@) == Some(JsonView::Bool(false)),
        restart_params(app_id, full_restart, reason).get("reason"@) == Some(JsonView::Text(reason)),
        forall|key: Seq<char>| #[trigger]
            restart_params(app_id, full_restart, reason).get(key) is Some ==> key == "appId"@ || key
                == "fullRestart"@ || key == "pause"@ || key == "reason"@,
{
    reveal_strlit("appId");
    reveal_strlit("fullRestart");
    reveal_strlit("pause");
    reveal_strlit("reason");
    assert("appId"@[0] == 'a' && "fullRestart"@[0] == 'f' && "pause"@[0] == 'p' && "reason"@[0]
        == 'r');
}

/// A call of a service extension names the app and the extension, and hands its
/// parameters on; the request to stop names the app.
pub proof fn calls_name_app_and_extension(app_id: Seq<char>, method: Seq<char>, params: JsonView)
    ensures
        service_params(app_id, method, params).get("appId"@) == Some(JsonView::Text(app_id)),
        service_params(app_id, method, params).get("methodName"@) == Some(JsonView::Text(method)),
        service_params(app_id, method, params).get("params"@) == Some(params),
        forall|key: Seq<char>| #[trigger]
            service_params(app_id, method, params).get(key) is Some ==> key == "appId"@ || key
                == "methodName"@ || key == "params"@,
        stop_params(app_id).get("appId"@) == Some(JsonView::Text(app_id)),
        forall|key: Seq<char>| #[trigger] stop_params(app_id).get(key) is Some ==> key == "appId"@,
{
    reveal_strlit("appId");
    reveal_strlit("methodName");
    reveal_strlit("params");
    assert("appId"@[0] == 'a' && "methodName"@[0] == 'm' && "params"@[0] == 'p');
}

/// A request is one line for the daemon that carries the next id, and reads as
/// the request it is.
pub proof fn a_request_is_one_line(
    request: Request,
    daemon: FlutterDaemonView,
    method: Seq<char>,
    params: JsonView,
    timeout_secs: u64,
)
    requires
        is_request(request, daemon, method, params, timeout_secs),
    ensures
        request.id == daemon.next_id,
        request.timeout_secs == timeout_secs,
        request.line@ == json_text(
            JsonView::Array(seq![request_object(request.id as int, method, params)]),
        ),
        forall|i: int| 0 <= i < request.line@.len() ==> request.line@[i] != '\n',
        reads_back(params, 125) ==> json_array(request.line@) == Some(
            seq![request_object(request.id as int, method, params)],
        ),
{
    assert forall|i: int| 0 <= i < request.line@.len() implies request.line@[i] != '\n' by {
        if request.line@[i] == '\n' {
            assert(request.line@.contains('\n'));
        }
    }
}

/// The app is run by Flutter's tool, through `fvm` where there is one, in the
/// mode for machines, and with the extra arguments behind all others.
pub proof fn the_app_is_run_for_machines(
    fvm: Option<Seq<char>>,
    windows: bool,
    extra_args: Seq<Seq<char>>,
)
    ensures
        ({
            let argv = spawn_argv(fvm, windows, extra_args);
            let tool: int = if fvm is Some {
                2
            } else {
                1
            };
            &&& argv.len() == tool + 2 + extra_args.len()
            &&& fvm matches Some(f) ==> argv[0] == f && argv[1] == "flutter"@
            &&& fvm is None ==> argv[0] == (if windows {
                "flutter.bat"@
            } else {
                "flutter"@
            })
            &&& argv[tool] == "run"@
            &&& argv[tool + 1] == "--machine"@
            &&& argv.skip(tool + 2) == extra_args
        }),
{
    let tool: int = if fvm is Some {
        2
    } else {
        1
    };
    assert(spawn_argv(fvm, windows, extra_args).skip(tool + 2) =~= extra_args);
}

/// What settles a request: its own response, with the error if it has one and
/// the result otherwise; that the time is up; or that nothing can come any more.
/// Only the response to another request leaves it open.
pub proof fn what_settles_a_request(id: i64, response: RawResponse, why: String)
    ensures
        response.id != id ==> after_waiting(id, Waited::Response(response)) is KeepWaiting,
        response.id == id && response.error is None ==> after_waiting(
            id,
            Waited::Response(response),
        ) == Awaited::Settled(Ok::<Json, DaemonError>(response.result)),
        response.id == id && response.error is Some ==> after_waiting(
            id,
            Waited::Response(response),
        ) == Awaited::Settled(
            Err::<Json, DaemonError>(DaemonError::Reported { id, error: response.error->0 }),
        ),
        after_waiting(id, Waited::DeadlinePassed) == Awaited::Settled(
            Err::<Json, DaemonError>(DaemonError::TimedOut { id }),
        ),
        after_waiting(id, Waited::Lost(why)) == Awaited::Settled(
            Err::<Json, DaemonError>(DaemonError::Lost(why)),
        ),
{
}

/// How long is waited: for a reload or restart, for a service extension, and
/// between two looks at a process that should exit.
pub proof fn the_daemon_is_given_time()
    ensures
        RESTART_TIMEOUT_SECS == 120,
        SERVICE_TIMEOUT_SECS == 30,
        EXIT_POLL_MILLIS == 50,
{
}

} // verus!
