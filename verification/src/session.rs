//! `frb run`: run the app and keep it in sync with Rust and config changes.
//!
//! The problem this solves: Flutter's hot reload and hot restart are both
//! Dart-level, so neither picks up a rebuilt Rust cdylib. Once a shared library
//! is mapped into the process the dynamic linker will not re-read it from disk,
//! so the only reliable way to pick up Rust changes is to restart the process.
//! This module decides the cheapest correct action for each change.

use crate::change_kind::{
    action_for, actions_grow_in_cost, batch_action, batch_takes_the_most_expensive, classify_batch,
    dart_lib, generated,
    reported_outputs_are_ignored, strip_verbatim, without_verbatim, ChangeAction, WatchPaths,
    WatchView,
};
use crate::daemon::{
    is_request, restart_params, sent, service_params, DaemonError, DaemonEvent, FlutterDaemon,
    FlutterDaemonView, Request, RESTART_TIMEOUT_SECS, SERVICE_TIMEOUT_SECS,
};
use crate::keys::{pressed, KeyCommand, Pending, ToggleState, ToggleView};
use crate::path::{
    holds_path, joined_path, same_path, unique, unique_keeps_each_path_once, unique_paths,
    system_chars, FilePath,
};
use crate::rebuild::{
    end_of, first_step, rebuild_end, restart_needs_every_task, RebuildTask,
};
use crate::watcher::{rust_src, watch_dirs};
use vstd::prelude::*;
use vstd::string::*;
use vstd::utf8::*;

verus! {

/// How long to wait for the app to shut down before killing it, in seconds.
pub const STOP_TIMEOUT_SECS: u64 = 30;

/// How long changes may be apart and still count as one burst, in milliseconds.
pub const BURST_MILLIS: u64 = 50;

/// Options of a run, mirroring the CLI arguments. `F` is how fvm installs are
/// dealt with, which is handed on to the commands that are run.
#[derive(Debug, Clone)]
pub struct RunConfig<F> {
    /// Path to a codegen YAML config file, if not auto-detected.
    pub config_file: Option<String>,
    /// Device id forwarded to `flutter run -d`.
    pub device_id: Option<String>,
    /// Extra arguments forwarded verbatim to `flutter run`.
    pub flutter_args: Vec<String>,
    /// Skip the `cargo check` gate before restarting.
    pub no_check: bool,
    pub fvm_install_mode: F,
}

/// Anything that can make us act. Merged into one queue so the main loop has a
/// single place to block.
#[derive(Debug)]
pub enum Event {
    Daemon(DaemonEvent),
    FsChange(Vec<FilePath>),
    Key(KeyCommand),
}

/// Why the process's lifetime ended.
#[derive(Debug, Clone, Copy, PartialEq, Eq, Structural)]
pub enum Outcome {
    /// The Rust library changed, so the process must be recreated.
    Restart,
    /// The app exited and we are done.
    Finished,
}

/// Why there is no codegen config.
#[derive(Debug)]
pub enum LoadError<E> {
    /// Looking for it failed.
    Read(E),
    /// The file that was asked for does not exist.
    NoSuchFile(String),
    /// None was found.
    NoConfig,
}

impl<E> LoadError<E> {
    /// The error in words, where it is ours.
    pub open spec fn words(self) -> Option<Seq<char>> {
        match self {
            LoadError::Read(_) => None,
            LoadError::NoSuchFile(file) => Some("Cannot find config_file "@ + file@),
            LoadError::NoConfig => Some(
                "Cannot find any flutter_rust_bridge config. Please run inside the Flutter package, or pass --config-file."@,
            ),
        }
    }

    /// Puts the error in words, where it is ours.
    pub fn message(&self) -> (text: Option<String>)
        ensures
            text.deep_view() == self.words(),
    {
        match self {
            LoadError::Read(_) => None,
            LoadError::NoSuchFile(file) => {
                let mut text = "Cannot find config_file ".to_owned();
                text.append(file.as_str());
                Some(text)
            },
            LoadError::NoConfig => Some(
                "Cannot find any flutter_rust_bridge config. Please run inside the Flutter package, or pass --config-file.".to_owned(),
            ),
        }
    }
}

/// Where a codegen config is looked for.
#[derive(Debug, PartialEq, Eq)]
pub enum ConfigLookup {
    /// In the file of this name only.
    File(String),
    /// Wherever one may be.
    Auto,
}

/// Where the codegen config of a run is looked for: in the file that the run
/// names, or wherever one may be where it names none.
pub fn config_lookup<F>(run_config: &RunConfig<F>) -> (lookup: ConfigLookup)
    ensures
        match run_config.config_file {
            Some(file) => lookup matches ConfigLookup::File(name) && name@ == file@,
            None => lookup is Auto,
        },
{
    match &run_config.config_file {
        Some(file) => ConfigLookup::File(file.clone()),
        None => ConfigLookup::Auto,
    }
}

/// The codegen config of a run, given what the lookup by [`config_lookup`]
/// found.
pub fn load_codegen_config<F, C, E>(
    run_config: &RunConfig<F>,
    found: Result<Option<C>, E>,
) -> (config: Result<C, LoadError<E>>)
    ensures
        match found {
            Ok(Some(c)) => config == Ok::<C, LoadError<E>>(c),
            Ok(None) => match run_config.config_file {
                Some(file) => config matches Err(LoadError::NoSuchFile(f)) && f@ == file@,
                None => config == Err::<C, LoadError<E>>(LoadError::NoConfig),
            },
            Err(e) => config == Err::<C, LoadError<E>>(LoadError::Read(e)),
        },
{
    match found {
        Ok(Some(config)) => Ok(config),
        Ok(None) => match &run_config.config_file {
            Some(file) => Err(LoadError::NoSuchFile(file.clone())),
            None => Err(LoadError::NoConfig),
        },
        Err(e) => Err(LoadError::Read(e)),
    }
}

/// What the arguments of a run make of those of `flutter run`.
pub open spec fn flutter_argv(
    device_id: Option<Seq<char>>,
    flutter_args: Seq<Seq<char>>,
) -> Seq<Seq<char>> {
    (match device_id {
        Some(id) => seq!["-d"@, id],
        None => Seq::empty(),
    }) + flutter_args
}

/// The arguments for `flutter run`.
pub fn flutter_args<F>(run_config: &RunConfig<F>) -> (args: Vec<String>)
    ensures
        args.deep_view() == flutter_argv(
            run_config.device_id.deep_view(),
            run_config.flutter_args.deep_view(),
        ),
{
    let mut args: Vec<String> = Vec::new();
    if let Some(device_id) = &run_config.device_id {
        args.push("-d".to_owned());
        args.push(device_id.clone());
    }
    let ghost first = args.deep_view();
    let ghost device = run_config.device_id.deep_view();
    assert(first =~= flutter_argv(device, Seq::empty()));
    let ghost rest = run_config.flutter_args.deep_view();
    for i in 0..run_config.flutter_args.len()
        invariant
            rest == run_config.flutter_args.deep_view(),
            args.deep_view() == first + rest.take(i as int),
    {
        let ghost before = args.deep_view();
        args.push(run_config.flutter_args[i].clone());
        assert(args.deep_view() =~= before.push(rest[i as int]));
        assert(args.deep_view() =~= first + rest.take(i + 1));
    }
    assert(args.deep_view() =~= flutter_argv(device, rest));
    args
}

/// Where codegen reads and writes.
#[derive(Debug)]
pub struct CodegenPaths {
    pub rust_crate_dir: FilePath,
    pub rust_output_path: FilePath,
    pub dart_output: FilePath,
    pub dart_root: FilePath,
}

/// What to watch, given where codegen reads and writes.
pub open spec fn watched(paths: CodegenPaths, base_dir: Seq<u8>) -> WatchView {
    WatchView {
        base_dir,
        rust_crate_dir: paths.rust_crate_dir@,
        dart_root: paths.dart_root@,
        generated_paths: seq![
            paths.rust_output_path@,
            joined_path(paths.dart_output@, encode_utf8("frb_generated.dart"@)),
        ],
    }
}

/// Derives what to watch from the codegen config. Config is resolved relative to
/// `base_dir`, or to the current directory where there is no such directory.
pub fn compute_watch_paths<E>(
    paths: CodegenPaths,
    base_dir: Option<FilePath>,
    current_dir: Result<FilePath, E>,
) -> (watch: Result<WatchPaths, E>)
    ensures
        match base_dir {
            Some(dir) => watch matches Ok(w) && w@ == watched(paths, dir@),
            None => match current_dir {
                Ok(dir) => watch matches Ok(w) && w@ == watched(paths, dir@),
                Err(e) => watch == Err::<WatchPaths, E>(e),
            },
        },
{
    let base_dir = match base_dir {
        Some(dir) => dir,
        None => match current_dir {
            Ok(dir) => dir,
            Err(e) => return Err(e),
        },
    };
    let ghost base = base_dir@;
    let dart_file = paths.dart_output.join("frb_generated.dart");
    let mut generated_paths: Vec<FilePath> = Vec::new();
    generated_paths.push(paths.rust_output_path);
    generated_paths.push(dart_file);
    assert(generated_paths.deep_view() =~= watched(paths, base).generated_paths);
    Ok(
        WatchPaths {
            base_dir,
            rust_crate_dir: paths.rust_crate_dir,
            dart_root: paths.dart_root,
            generated_paths,
        },
    )
}

/// Config-derived state. Rebuilt whenever a config file changes, because config
/// controls where the inputs and outputs live.
#[derive(Debug)]
pub struct State {
    pub watch: WatchPaths,
    pub rust_features: Option<Vec<String>>,
}

/// The line that says that config files are watched too.
pub const CONFIG_SUMMARY: &'static str =
    "codegen config files (flutter_rust_bridge.yaml, pubspec.yaml, ...)";

/// How paths are shown to the user: those that are text, and without the prefix
/// that canonicalization adds.
pub open spec fn shown(dirs: Seq<Option<Seq<char>>>) -> Seq<Seq<char>>
    decreases dirs.len(),
{
    if dirs.len() == 0 {
        Seq::empty()
    } else {
        match dirs.last() {
            Some(text) => shown(dirs.drop_last()).push(without_verbatim(text)),
            None => shown(dirs.drop_last()),
        }
    }
}

/// The lines for directories that are spelled as `dirs` says.
fn summary_lines(dirs: &[Option<String>]) -> (lines: Vec<String>)
    ensures
        lines.deep_view() == shown(dirs.deep_view()).push(CONFIG_SUMMARY@),
{
    let mut lines: Vec<String> = Vec::new();
    let ghost all = dirs.deep_view();
    assert(lines.deep_view() =~= shown(all.take(0)));
    for i in 0..dirs.len()
        invariant
            all == dirs.deep_view(),
            lines.deep_view() == shown(all.take(i as int)),
    {
        let ghost before = lines.deep_view();
        assert(all.take(i + 1).drop_last() =~= all.take(i as int));
        assert(all[i as int] == dirs[i as int].deep_view());
        if let Some(text) = &dirs[i] {
            lines.push(strip_verbatim(text.as_str()).to_owned());
            assert(lines.deep_view() =~= before.push(without_verbatim(text@)));
        }
        assert(lines.deep_view() =~= shown(all.take(i + 1)));
    }
    assert(all.take(all.len() as int) =~= all);
    lines.push(CONFIG_SUMMARY.to_owned());
    assert(lines.deep_view() =~= shown(all).push(CONFIG_SUMMARY@));
    lines
}

impl State {
    /// The state that a codegen config leads to.
    pub fn load<E>(
        paths: CodegenPaths,
        rust_features: Option<Vec<String>>,
        base_dir: Option<FilePath>,
        current_dir: Result<FilePath, E>,
    ) -> (state: Result<Self, E>)
        ensures
            match base_dir {
                Some(dir) => state matches Ok(s) && s.watch@ == watched(paths, dir@)
                    && s.rust_features == rust_features,
                None => match current_dir {
                    Ok(dir) => state matches Ok(s) && s.watch@ == watched(paths, dir@)
                        && s.rust_features == rust_features,
                    Err(e) => state == Err::<State, E>(e),
                },
            },
    {
        match compute_watch_paths(paths, base_dir, current_dir) {
            Ok(watch) => Ok(State { watch, rust_features }),
            Err(e) => Err(e),
        }
    }

    /// What is watched, in lines for the user: the directories, as the system
    /// spells them, and that config files are watched too.
    pub fn watch_summary(&self, windows: bool) -> (lines: Vec<String>)
        ensures
            lines.deep_view() == shown(
                seq![
                    system_chars(rust_src(self.watch@), windows),
                    system_chars(dart_lib(self.watch@), windows),
                ],
            ).push(CONFIG_SUMMARY@),
    {
        let dirs = watch_dirs(&self.watch);
        let mut texts: Vec<Option<String>> = Vec::new();
        assert(dirs.deep_view().len() == 2);
        assert(dirs@[0]@ == dirs.deep_view()[0] && dirs@[1]@ == dirs.deep_view()[1]);
        texts.push(dirs[0].system_text(windows));
        texts.push(dirs[1].system_text(windows));
        assert(texts.deep_view() =~= seq![
            system_chars(rust_src(self.watch@), windows),
            system_chars(dart_lib(self.watch@), windows),
        ]);
        summary_lines(texts.as_slice())
    }
}

/// The paths that `events` report as changed, in order.
pub open spec fn changed_paths(events: Seq<Event>) -> Seq<Seq<u8>>
    decreases events.len(),
{
    if events.len() == 0 {
        Seq::empty()
    } else {
        changed_paths(events.drop_last()) + (match events.last() {
            Event::FsChange(paths) => paths.deep_view(),
            _ => Seq::empty(),
        })
    }
}

/// The key presses among `events`, in order.
pub open spec fn key_presses(events: Seq<Event>) -> Seq<Event>
    decreases events.len(),
{
    if events.len() == 0 {
        Seq::empty()
    } else if events.last() is Key {
        key_presses(events.drop_last()).push(events.last())
    } else {
        key_presses(events.drop_last())
    }
}

fn push_all(from: &Vec<FilePath>, to: &mut Vec<FilePath>)
    ensures
        final(to).deep_view() == old(to).deep_view() + from.deep_view(),
{
    let ghost before = to.deep_view();
    let ghost all = from.deep_view();
    for i in 0..from.len()
        invariant
            all == from.deep_view(),
            to.deep_view() == before + all.take(i as int),
    {
        let ghost now = to.deep_view();
        to.push(from[i].clone());
        assert(to.deep_view() =~= now.push(all[i as int]));
        assert(to.deep_view() =~= before + all.take(i + 1));
    }
    assert(all.take(from@.len() as int) =~= all);
}

/// Collects changes that arrived while we were busy, so a burst of saves causes
/// one rebuild instead of several. `queue` holds what arrived; a key pressed
/// mid-burst still deserves to run and stays in it, while daemon chatter is not
/// worth keeping.
pub fn drain_extra_changes(paths: Vec<FilePath>, queue: &mut Vec<Event>) -> (all: Vec<FilePath>)
    ensures
        all.deep_view() == unique(paths.deep_view() + changed_paths(old(queue)@)),
        final(queue)@ == key_presses(old(queue)@),
{
    let ghost first = paths.deep_view();
    let ghost events = queue@;
    let mut paths = paths;
    let mut keys: Vec<Event> = Vec::new();
    assert(paths.deep_view() =~= first + changed_paths(events.take(0)));
    assert(keys@ =~= key_presses(events.take(0)));
    for i in 0..queue.len()
        invariant
            events == queue@,
            paths.deep_view() == first + changed_paths(events.take(i as int)),
            keys@ == key_presses(events.take(i as int)),
    {
        assert(events.take(i + 1).drop_last() =~= events.take(i as int));
        match &queue[i] {
            Event::FsChange(more) => push_all(more, &mut paths),
            Event::Daemon(_) => {},
            Event::Key(command) => keys.push(Event::Key(*command)),
        }
        assert(paths.deep_view() =~= first + changed_paths(events.take(i + 1)));
    }
    assert(events.take(events.len() as int) =~= events);
    *queue = keys;
    unique_paths(paths.as_slice())
}

/// Throws away whatever queued up while the previous process was being replaced,
/// so a key pressed during a rebuild does not fire against the new app.
pub fn drain_pending(queue: &mut Vec<Event>)
    ensures
        final(queue)@.len() == 0,
{
    queue.clear();
}

/// One process lifetime, as far as decisions depend on it.
#[derive(Debug)]
pub struct Session {
    pub toggles: ToggleState,
    pub daemon: FlutterDaemon,
}

/// What a [`Session`] holds.
pub ghost struct SessionView {
    pub toggles: ToggleView,
    pub daemon: FlutterDaemonView,
}

impl View for Session {
    type V = SessionView;

    open spec fn view(&self) -> SessionView {
        SessionView { toggles: self.toggles@, daemon: self.daemon@ }
    }
}

/// What to do about an event.
#[derive(Debug)]
pub enum Turn {
    /// Nothing; wait for the next event.
    Continue,
    /// Print the text on a line of its own.
    Print(String),
    /// Print the text as it is, to stderr if it is an error.
    Log { text: String, is_error: bool },
    /// Print the help.
    Help,
    /// Send the request for a hot reload, or a hot restart if it is `full`. A
    /// failure is reported and changes nothing.
    Restart { full: bool, request: Request },
    /// Call a service extension, and reply to what came of it.
    Call(Pending),
    /// Rebuild, and go by what came of it.
    Rebuild { needs_codegen: bool },
    /// Load the config afresh, and go by what came of it. Reload before
    /// rebuilding: the new config decides both what codegen reads and where it
    /// writes.
    ReloadConfig,
    /// Print the notice, if there is one, and end this process's lifetime.
    End { notice: Option<&'static str>, outcome: Outcome },
}

/// What is decided about an event.
pub ghost enum Plan {
    Continue,
    Print(Seq<char>),
    Log { text: Seq<char>, is_error: bool },
    Help,
    Restart { full: bool },
    Call(Pending),
    Rebuild { needs_codegen: bool },
    ReloadConfig,
    End { notice: Option<Seq<char>>, outcome: Outcome },
}

/// The reason that is given for a hot reload or restart.
pub open spec fn restart_reason(full: bool) -> Seq<char> {
    if full {
        "frb run: manual hot restart"@
    } else {
        "frb run: dart change"@
    }
}

/// Whether `turn` is what `plan` says, for a daemon that knows `daemon`.
pub open spec fn carries_out(turn: Turn, plan: Plan, daemon: FlutterDaemonView) -> bool {
    match plan {
        Plan::Continue => turn is Continue,
        Plan::Print(text) => turn matches Turn::Print(t) && t@ == text,
        Plan::Log { text, is_error } => turn matches Turn::Log { text: t, is_error: e } && t@ == text
            && e == is_error,
        Plan::Help => turn is Help,
        Plan::Restart { full } => {
            &&& turn matches Turn::Restart { full: f, request }
            &&& f == full
            &&& daemon.app_id matches Some(app_id)
            &&& is_request(
                request,
                daemon,
                "app.restart"@,
                restart_params(app_id, full, restart_reason(full)),
                RESTART_TIMEOUT_SECS,
            )
        },
        Plan::Call(pending) => turn == Turn::Call(pending),
        Plan::Rebuild { needs_codegen } => turn == (Turn::Rebuild { needs_codegen }),
        Plan::ReloadConfig => turn is ReloadConfig,
        Plan::End { notice, outcome } => turn matches Turn::End { notice: n, outcome: o }
            && n.deep_view() == notice && o == outcome,
    }
}

/// A hot reload or restart, where the app can be addressed; nothing otherwise.
pub open spec fn on_restart(session: SessionView, full: bool) -> (SessionView, Plan) {
    if session.daemon.app_id is Some {
        (SessionView { daemon: sent(session.daemon), ..session }, Plan::Restart { full })
    } else {
        (session, Plan::Continue)
    }
}

/// What a key press leads to.
pub open spec fn on_key(session: SessionView, command: KeyCommand) -> (SessionView, Plan) {
    match command {
        KeyCommand::Help => (session, Plan::Help),
        KeyCommand::Quit => (
            session,
            Plan::End { notice: Some("Quitting..."@), outcome: Outcome::Finished },
        ),
        KeyCommand::HotReload => on_restart(session, false),
        KeyCommand::HotRestart => on_restart(session, true),
        KeyCommand::RebuildRust => (session, Plan::Rebuild { needs_codegen: true }),
        _ => if session.daemon.app_id is Some {
            let (toggles, pending) = pressed(session.toggles, command);
            (SessionView { toggles, ..session }, Plan::Call(pending->0))
        } else {
            (session, Plan::Continue)
        },
    }
}

/// What an event of the daemon leads to.
pub open spec fn on_daemon_event(session: SessionView, event: DaemonEvent) -> (SessionView, Plan) {
    match event {
        DaemonEvent::AppStart { app_id } => (
            SessionView {
                daemon: FlutterDaemonView { app_id: Some(app_id@), ..session.daemon },
                ..session
            },
            Plan::Continue,
        ),
        DaemonEvent::DebugPort { ws_uri } => (
            session,
            Plan::Print("Dart VM Service: "@ + ws_uri@),
        ),
        DaemonEvent::AppStarted => (
            session,
            Plan::Print("App started. Press `h` for the key commands."@),
        ),
        DaemonEvent::Log { text, is_error } => (session, Plan::Log { text: text@, is_error }),
        DaemonEvent::AppStop | DaemonEvent::ProcessExited => (
            session,
            Plan::End { notice: Some("App exited."@), outcome: Outcome::Finished },
        ),
    }
}

/// What a change that requires `action` leads to.
pub open spec fn on_change(session: SessionView, action: ChangeAction) -> (SessionView, Plan) {
    match action {
        ChangeAction::Ignore => (session, Plan::Continue),
        ChangeAction::HotReload => on_restart(session, false),
        ChangeAction::RestartRust { needs_codegen } => (session, Plan::Rebuild { needs_codegen }),
        ChangeAction::ReloadConfig => (session, Plan::ReloadConfig),
    }
}

/// What an event leads to, with `queue` behind it. No event ever comes again
/// where there is none.
pub open spec fn on_event(
    session: SessionView,
    event: Option<Event>,
    watch: WatchView,
    queue: Seq<Event>,
) -> (SessionView, Plan) {
    match event {
        None => (session, Plan::End { notice: None, outcome: Outcome::Finished }),
        Some(Event::Daemon(event)) => on_daemon_event(session, event),
        Some(Event::Key(command)) => on_key(session, command),
        Some(Event::FsChange(paths)) => on_change(
            session,
            batch_action(unique(paths.deep_view() + changed_paths(queue)), watch),
        ),
    }
}

impl Session {
    /// The session of a daemon that was just spawned.
    pub fn new(daemon: FlutterDaemon) -> (session: Self)
        ensures
            session@.daemon == daemon@,
            session@.toggles == (ToggleView {
                debug_paint: false,
                performance_overlay: false,
                platform: None,
                brightness: None,
            }),
    {
        Session { toggles: ToggleState::default(), daemon }
    }

    fn restart(&mut self, full: bool) -> (turn: Turn)
        ensures
            final(self)@ == on_restart(old(self)@, full).0,
            carries_out(turn, on_restart(old(self)@, full).1, old(self)@.daemon),
    {
        let reason = if full {
            "frb run: manual hot restart"
        } else {
            "frb run: dart change"
        };
        match self.daemon.restart(full, reason) {
            Ok(request) => Turn::Restart { full, request },
            Err(_) => Turn::Continue,
        }
    }

    /// A hot reload, where the app can be addressed.
    pub fn hot_reload(&mut self) -> (turn: Turn)
        ensures
            final(self)@ == on_restart(old(self)@, false).0,
            carries_out(turn, on_restart(old(self)@, false).1, old(self)@.daemon),
    {
        self.restart(false)
    }

    /// Decides what to do about a key press.
    pub fn handle_key(&mut self, command: KeyCommand) -> (turn: Turn)
        ensures
            final(self)@ == on_key(old(self)@, command).0,
            carries_out(turn, on_key(old(self)@, command).1, old(self)@.daemon),
    {
        match command {
            KeyCommand::Help => Turn::Help,
            KeyCommand::Quit => Turn::End {
                notice: Some("Quitting..."),
                outcome: Outcome::Finished,
            },
            KeyCommand::HotReload => self.hot_reload(),
            KeyCommand::HotRestart => self.restart(true),
            // The one key `flutter run` cannot offer, since it has no idea Rust
            // is involved.
            KeyCommand::RebuildRust => Turn::Rebuild { needs_codegen: true },
            _ => {
                if self.daemon.app_id().is_none() {
                    return Turn::Continue;
                }
                match self.toggles.handle(command) {
                    Some(pending) => Turn::Call(pending),
                    None => Turn::Continue,
                }
            },
        }
    }

    /// Decides what to do about an event; `None` once no event can come any
    /// more, which only happens on shutdown. `queue` holds what arrived since,
    /// and is drained where a change is dealt with.
    pub fn serve(
        &mut self,
        event: Option<Event>,
        watch: &WatchPaths,
        queue: &mut Vec<Event>,
    ) -> (turn: Turn)
        ensures
            final(self)@ == on_event(old(self)@, event, watch@, old(queue)@).0,
            carries_out(
                turn,
                on_event(old(self)@, event, watch@, old(queue)@).1,
                old(self)@.daemon,
            ),
            final(queue)@ == (if event matches Some(Event::FsChange(_)) {
                key_presses(old(queue)@)
            } else {
                old(queue)@
            }),
    {
        match event {
            None => Turn::End { notice: None, outcome: Outcome::Finished },
            Some(Event::Daemon(event)) => match event {
                DaemonEvent::AppStart { app_id } => {
                    self.daemon.set_app_id(app_id);
                    Turn::Continue
                },
                DaemonEvent::DebugPort { ws_uri } => {
                    let mut text = "Dart VM Service: ".to_owned();
                    text.append(ws_uri.as_str());
                    Turn::Print(text)
                },
                DaemonEvent::AppStarted => Turn::Print(
                    "App started. Press `h` for the key commands.".to_owned(),
                ),
                DaemonEvent::Log { text, is_error } => Turn::Log { text, is_error },
                DaemonEvent::AppStop | DaemonEvent::ProcessExited => Turn::End {
                    notice: Some("App exited."),
                    outcome: Outcome::Finished,
                },
            },
            Some(Event::Key(command)) => self.handle_key(command),
            Some(Event::FsChange(paths)) => {
                let paths = drain_extra_changes(paths, queue);
                match classify_batch(paths.as_slice(), watch) {
                    ChangeAction::Ignore => Turn::Continue,
                    ChangeAction::HotReload => self.hot_reload(),
                    ChangeAction::RestartRust { needs_codegen } => Turn::Rebuild { needs_codegen },
                    ChangeAction::ReloadConfig => Turn::ReloadConfig,
                }
            },
        }
    }

    /// The request for a call of a service extension.
    pub fn call(&mut self, pending: Pending) -> (request: Result<Request, DaemonError>)
        ensures
            final(self)@.toggles == old(self)@.toggles,
            match old(self)@.daemon.app_id {
                Some(app_id) => {
                    &&& final(self)@.daemon == sent(old(self)@.daemon)
                    &&& request matches Ok(r) && is_request(
                        r,
                        old(self)@.daemon,
                        "app.callServiceExtension"@,
                        service_params(app_id, pending.method(), pending.params()),
                        SERVICE_TIMEOUT_SECS,
                    )
                },
                None => final(self)@.daemon == old(self)@.daemon && request matches Err(
                    DaemonError::AppIdUnknown,
                ),
            },
    {
        let call = pending.call();
        self.daemon.call_service_extension(call.method, call.params)
    }
}

/// What announces a reload of the config.
pub const RELOAD_NOTICE: &'static str = "Config changed, reloading...";

/// What is said before a hot reload or restart.
pub fn restart_notice(full: bool) -> (notice: &'static str)
    ensures
        notice@ == (if full {
            "Hot restarting (Dart only)..."@
        } else {
            "Hot reloading..."@
        }),
{
    if full {
        "Hot restarting (Dart only)..."
    } else {
        "Hot reloading..."
    }
}

/// What follows a reload of the config.
#[derive(Debug)]
pub enum Reloaded<E> {
    /// Rebuild with what was loaded.
    Rebuild { needs_codegen: bool },
    /// Rebuild nothing, and end with why there is no config.
    End(E),
}

/// The state after a reload of the config, and what follows it. A reload that
/// failed leaves the state as it was.
pub open spec fn reloaded<E>(state: State, loaded: Result<State, E>) -> (State, Reloaded<E>) {
    match loaded {
        Ok(fresh) => (fresh, Reloaded::Rebuild { needs_codegen: true }),
        Err(e) => (state, Reloaded::End(e)),
    }
}

/// Takes over what a reload of the config gave, if it gave anything.
pub fn after_reload<E>(state: &mut State, loaded: Result<State, E>) -> (next: Reloaded<E>)
    ensures
        *final(state) == reloaded(*old(state), loaded).0,
        next == reloaded(*old(state), loaded).1,
{
    match loaded {
        Ok(fresh) => {
            *state = fresh;
            Reloaded::Rebuild { needs_codegen: true }
        },
        Err(e) => Reloaded::End(e),
    }
}

/// What this process's lifetime ends with after a rebuild, if it ends.
pub open spec fn lifetime_end<E>(config_reloaded: bool, ready: Result<bool, E>) -> Option<
    Result<Outcome, E>,
> {
    match ready {
        Ok(ready) => if config_reloaded || ready {
            Some(Ok(Outcome::Restart))
        } else {
            None
        },
        Err(e) => Some(Err(e)),
    }
}

/// What this process's lifetime ends with after a rebuild, if it ends. After a
/// reload of the config it ends regardless of whether the rebuild succeeded: the
/// watched paths may have moved, so this process's watcher is stale either way.
pub fn after_rebuild<E>(config_reloaded: bool, ready: Result<bool, E>) -> (end: Option<
    Result<Outcome, E>,
>)
    ensures
        end == lifetime_end(config_reloaded, ready),
{
    match ready {
        Ok(ready) => if config_reloaded || ready {
            Some(Ok(Outcome::Restart))
        } else {
            None
        },
        Err(e) => Some(Err(e)),
    }
}

/// How far one process lifetime has come. What it ends with is known once
/// serving is over, and is carried along.
#[derive(Debug)]
pub enum RunStage<E> {
    /// Start watching.
    Watch,
    /// Spawn the daemon.
    Spawn,
    /// Serve events.
    Serve,
    /// Stop the app and wait until it is gone. Always tear the app down before
    /// returning, so the next spawn is not fighting this one over the cdylib
    /// file lock.
    Stop(Result<Outcome, E>),
    /// Stop watching. Only after the app is down, so changes during the rebuild
    /// are not silently missed.
    Unwatch(Result<Outcome, E>),
    /// This is why we stopped.
    Done(Result<Outcome, E>),
}

/// What came of a [`RunStage`].
#[derive(Debug)]
pub enum RunReport<E> {
    /// Watching or spawning was tried.
    Started(Result<(), E>),
    /// Serving ended.
    Served(Result<Outcome, E>),
    /// The app was stopped, or could not be; that is only worth a warning.
    Stopped(Result<(), E>),
    /// Nothing is watched any more.
    Unwatched,
}

/// The stage after `stage`. A report that does not fit changes nothing.
pub open spec fn next_stage<E>(stage: RunStage<E>, report: RunReport<E>) -> RunStage<E> {
    match (stage, report) {
        (RunStage::Watch, RunReport::Started(Ok(_))) => RunStage::Spawn,
        (RunStage::Watch, RunReport::Started(Err(e))) => RunStage::Done(Err(e)),
        (RunStage::Spawn, RunReport::Started(Ok(_))) => RunStage::Serve,
        (RunStage::Spawn, RunReport::Started(Err(e))) => RunStage::Unwatch(Err(e)),
        (RunStage::Serve, RunReport::Served(result)) => RunStage::Stop(result),
        (RunStage::Stop(result), RunReport::Stopped(_)) => RunStage::Unwatch(result),
        (RunStage::Unwatch(result), RunReport::Unwatched) => RunStage::Done(result),
        (stage, _) => stage,
    }
}

/// Goes on with one process lifetime.
pub fn run_once<E>(stage: RunStage<E>, report: RunReport<E>) -> (next: RunStage<E>)
    ensures
        next == next_stage(stage, report),
{
    match stage {
        RunStage::Watch => match report {
            RunReport::Started(Ok(_)) => RunStage::Spawn,
            RunReport::Started(Err(e)) => RunStage::Done(Err(e)),
            _ => RunStage::Watch,
        },
        RunStage::Spawn => match report {
            RunReport::Started(Ok(_)) => RunStage::Serve,
            RunReport::Started(Err(e)) => RunStage::Unwatch(Err(e)),
            _ => RunStage::Spawn,
        },
        RunStage::Serve => match report {
            RunReport::Served(result) => RunStage::Stop(result),
            _ => RunStage::Serve,
        },
        RunStage::Stop(result) => match report {
            RunReport::Stopped(_) => RunStage::Unwatch(result),
            _ => RunStage::Stop(result),
        },
        RunStage::Unwatch(result) => match report {
            RunReport::Unwatched => RunStage::Done(result),
            _ => RunStage::Unwatch(result),
        },
        RunStage::Done(result) => RunStage::Done(result),
    }
}

/// Begins one process lifetime, with nothing left over from the last.
pub fn begin_run<E>(queue: &mut Vec<Event>) -> (stage: RunStage<E>)
    ensures
        final(queue)@.len() == 0,
        stage == RunStage::<E>::Watch,
{
    drain_pending(queue);
    RunStage::Watch
}

/// What the run ends with after a lifetime that ended with `result`; `None`
/// where the app is run again.
pub fn after_run<E>(result: Result<Outcome, E>) -> (end: Option<Result<(), E>>)
    ensures
        end == (match result {
            Ok(Outcome::Restart) => None,
            Ok(Outcome::Finished) => Some(Ok::<(), E>(())),
            Err(e) => Some(Err::<(), E>(e)),
        }),
{
    match result {
        Ok(Outcome::Restart) => None,
        Ok(Outcome::Finished) => Some(Ok(())),
        Err(e) => Some(Err(e)),
    }
}

/// A lifetime that was served ends with what serving ended with, and not before
/// the app was stopped and, after that, the watching: whatever came of
/// stopping.
pub proof fn teardown_keeps_the_result<E>(
    result: Result<Outcome, E>,
    stopped: Result<(), E>,
)
    ensures
        ({
            let stop = next_stage(RunStage::Serve, RunReport::Served(result));
            let unwatch = next_stage(stop, RunReport::Stopped(stopped));
            let done = next_stage(unwatch, RunReport::Unwatched);
            &&& stop == RunStage::Stop(result)
            &&& unwatch == RunStage::Unwatch(result)
            &&& done == RunStage::Done(result)
        }),
{
}

/// The stage that a lifetime has come to after `reports`.
pub open spec fn stage_after<E>(reports: Seq<RunReport<E>>) -> RunStage<E>
    decreases reports.len(),
{
    if reports.len() == 0 {
        RunStage::Watch
    } else {
        next_stage(stage_after(reports.drop_last()), reports.last())
    }
}

/// Once events were served, a lifetime does not end, and watching does not
/// stop, before the app was stopped.
pub proof fn the_app_is_stopped_first<E>(reports: Seq<RunReport<E>>, served: int)
    requires
        0 <= served <= reports.len(),
        stage_after(reports.take(served)) is Serve,
        stage_after(reports) is Unwatch || stage_after(reports) is Done,
    ensures
        exists|i: int|
            served <= i < reports.len() && #[trigger] reports[i] is Stopped && stage_after(
                reports.take(i),
            ) is Stop,
{
    lemma_serving_ends_with_a_stop(reports, served);
}

proof fn lemma_serving_ends_with_a_stop<E>(reports: Seq<RunReport<E>>, served: int)
    requires
        0 <= served <= reports.len(),
        stage_after(reports.take(served)) is Serve,
    ensures
        stage_after(reports) is Serve || stage_after(reports) is Stop || exists|i: int|
            served <= i < reports.len() && #[trigger] reports[i] is Stopped && stage_after(
                reports.take(i),
            ) is Stop,
    decreases reports.len(),
{
    assert(reports.take(reports.len() as int) =~= reports);
    if served < reports.len() {
        let before = reports.drop_last();
        let last = reports.len() - 1;
        assert(before.take(served) =~= reports.take(served));
        assert(before =~= reports.take(last));
        lemma_serving_ends_with_a_stop(before, served);
        if stage_after(before) is Stop {
            if reports.last() is Stopped {
                assert(reports[last] is Stopped);
            }
        } else if !(stage_after(before) is Serve) {
            let i = choose|i: int|
                served <= i < before.len() && #[trigger] before[i] is Stopped && stage_after(
                    before.take(i),
                ) is Stop;
            assert(before.take(i) =~= reports.take(i));
            assert(reports[i] is Stopped);
        }
    }
}

/// A lifetime is only over once nothing is watched any more, or where watching
/// could not even be started.
pub proof fn watching_ends_last<E>(reports: Seq<RunReport<E>>)
    requires
        reports.len() > 0,
        stage_after(reports) is Done,
        !(stage_after(reports.drop_last()) is Done),
    ensures
        stage_after(reports.drop_last()) is Unwatch && reports.last() is Unwatched
            || stage_after(reports.drop_last()) is Watch && reports.last() is Started,
{
}

/// How a lifetime ends in which the config is reloaded, if `results` says what
/// comes of each task of the rebuild: the state it leaves, and its result.
pub open spec fn reload_end<E>(
    state: State,
    loaded: Result<State, E>,
    no_check: bool,
    results: spec_fn(RebuildTask) -> Result<(), E>,
) -> (State, Option<Result<Outcome, E>>) {
    let (after, next) = reloaded(state, loaded);
    (
        after,
        match next {
            Reloaded::Rebuild { needs_codegen } => match end_of(
                rebuild_end(no_check, first_step(no_check, needs_codegen), results, 3),
            ) {
                Some(ready) => lifetime_end(true, ready),
                None => None,
            },
            Reloaded::End(e) => Some(Err(e)),
        },
    )
}

/// A reload of the config always ends this process's lifetime. Where the config
/// cannot be loaded it ends with that error, the state is as it was, and the
/// results of rebuilding do not matter, as nothing is rebuilt. Otherwise the
/// process is restarted with the new state, whether the rebuild succeeded or
/// failed; unless the check is skipped and the config cannot be read again,
/// which ends it with that error.
pub proof fn a_reload_ends_the_lifetime<E>(
    state: State,
    loaded: Result<State, E>,
    no_check: bool,
    results: spec_fn(RebuildTask) -> Result<(), E>,
)
    ensures
        reload_end(state, loaded, no_check, results) == (match loaded {
            Err(e) => (state, Some(Err::<Outcome, E>(e))),
            Ok(fresh) => (
                fresh,
                match results(RebuildTask::LoadConfig) {
                    Err(e) => if no_check {
                        Some(Err::<Outcome, E>(e))
                    } else {
                        Some(Ok::<Outcome, E>(Outcome::Restart))
                    },
                    Ok(_) => Some(Ok::<Outcome, E>(Outcome::Restart)),
                },
            ),
        }),
{
    restart_needs_every_task(no_check, true, results);
}

/// Whatever happens, nothing is sent to an app that has not told its id: no
/// request id is used up, and the toggles stay as they are.
pub proof fn unknown_app_is_left_alone(
    session: SessionView,
    event: Option<Event>,
    watch: WatchView,
    queue: Seq<Event>,
)
    requires
        session.daemon.app_id is None,
    ensures
        !(on_event(session, event, watch, queue).1 is Restart),
        !(on_event(session, event, watch, queue).1 is Call),
        on_event(session, event, watch, queue).0.daemon.next_id == session.daemon.next_id,
        on_event(session, event, watch, queue).0.toggles == session.toggles,
{
}

/// Changes of nothing but generated files lead to nothing.
pub proof fn generated_changes_lead_to_nothing(
    session: SessionView,
    paths: Vec<FilePath>,
    watch: WatchView,
    queue: Seq<Event>,
)
    requires
        forall|i: int|
            0 <= i < (paths.deep_view() + changed_paths(queue)).len() ==> generated(
                #[trigger] (paths.deep_view() + changed_paths(queue))[i],
                watch,
            ),
    ensures
        on_event(session, Some(Event::FsChange(paths)), watch, queue) == (session, Plan::Continue),
{
    let all = paths.deep_view() + changed_paths(queue);
    let kept = unique(all);
    unique_keeps_each_path_once(all);
    batch_takes_the_most_expensive(kept, watch);
    if batch_action(kept, watch) != ChangeAction::Ignore {
        let i = choose|i: int|
            0 <= i < kept.len() && #[trigger] action_for(kept[i], watch) == batch_action(
                kept,
                watch,
            );
        assert(all.contains(kept[i]));
        let j = choose|j: int| 0 <= j < all.len() && all[j] == kept[i];
        assert(generated(all[j], watch));
    }
}

/// Codegen writing its outputs triggers nothing: the paths it writes to are
/// ignored by what is derived from them.
pub proof fn codegen_outputs_are_ignored(paths: CodegenPaths, base_dir: Seq<u8>)
    ensures
        action_for(paths.rust_output_path@, watched(paths, base_dir)) == ChangeAction::Ignore,
        action_for(
            joined_path(paths.dart_output@, encode_utf8("frb_generated.dart"@)),
            watched(paths, base_dir),
        ) == ChangeAction::Ignore,
{
    let watch = watched(paths, base_dir);
    reported_outputs_are_ignored(watch, 0);
    reported_outputs_are_ignored(watch, 1);
}

/// Draining a burst loses no change: every path that was reported, first or
/// later, is among those that are dealt with.
pub proof fn a_burst_loses_no_change(paths: Seq<Seq<u8>>, queue: Seq<Event>, path: Seq<u8>)
    requires
        paths.contains(path) || changed_paths(queue).contains(path),
    ensures
        holds_path(unique(paths + changed_paths(queue)), path),
{
    let all = paths + changed_paths(queue);
    unique_keeps_each_path_once(all);
    if paths.contains(path) {
        let i = choose|i: int| 0 <= i < paths.len() && paths[i] == path;
        assert(same_path(all[i], path));
    } else {
        let more = changed_paths(queue);
        let i = choose|i: int| 0 <= i < more.len() && more[i] == path;
        assert(same_path(all[paths.len() + i], path));
    }
}

/// Draining a burst loses no key press.
pub proof fn a_burst_loses_no_key(queue: Seq<Event>, i: int)
    requires
        0 <= i < queue.len(),
        queue[i] is Key,
    ensures
        key_presses(queue).contains(queue[i]),
    decreases queue.len(),
{
    let rest = queue.drop_last();
    if i < rest.len() {
        a_burst_loses_no_key(rest, i);
        let j = choose|j: int| 0 <= j < key_presses(rest).len() && key_presses(rest)[j] == queue[i];
        assert(key_presses(queue)[j] == queue[i]);
    } else {
        assert(key_presses(queue)[key_presses(rest).len() as int] == queue[i]);
    }
}

/// Errors say what is missing, and which file was asked for.
pub proof fn load_errors_say_what_is_missing<E>(file: String, why: E)
    ensures
        LoadError::<E>::NoSuchFile(file).words() == Some("Cannot find config_file "@ + file@),
        LoadError::<E>::NoConfig.words() == Some(
            "Cannot find any flutter_rust_bridge config. Please run inside the Flutter package, or pass --config-file."@,
        ),
        LoadError::Read(why).words() is None,
{
}

/// The arguments are handed on as they were given, in order and behind the
/// device, which is named behind its flag exactly where there is one.
pub proof fn arguments_are_handed_on(device_id: Option<Seq<char>>, flutter_args: Seq<Seq<char>>)
    ensures
        device_id is None ==> flutter_argv(device_id, flutter_args) == flutter_args,
        device_id matches Some(id) ==> {
            &&& flutter_argv(device_id, flutter_args).len() == 2 + flutter_args.len()
            &&& flutter_argv(device_id, flutter_args)[0] == "-d"@
            &&& flutter_argv(device_id, flutter_args)[1] == id
            &&& flutter_argv(device_id, flutter_args).skip(2) == flutter_args
        },
{
    if device_id is None {
        assert(flutter_argv(device_id, flutter_args) =~= flutter_args);
    } else {
        assert(flutter_argv(device_id, flutter_args).skip(2) =~= flutter_args);
    }
}

/// What is watched is where codegen reads, and both of its outputs are known as
/// such: the Rust one, and `frb_generated.dart` in the directory of the Dart
/// ones.
pub proof fn outputs_are_known(paths: CodegenPaths, base_dir: Seq<u8>)
    ensures
        watched(paths, base_dir).base_dir == base_dir,
        watched(paths, base_dir).rust_crate_dir == paths.rust_crate_dir@,
        watched(paths, base_dir).dart_root == paths.dart_root@,
        watched(paths, base_dir).generated_paths.len() == 2,
        watched(paths, base_dir).generated_paths.contains(paths.rust_output_path@),
        watched(paths, base_dir).generated_paths.contains(
            joined_path(paths.dart_output@, encode_utf8("frb_generated.dart"@)),
        ),
{
    let all = watched(paths, base_dir).generated_paths;
    assert(all[0] == paths.rust_output_path@);
    assert(all[1] == joined_path(paths.dart_output@, encode_utf8("frb_generated.dart"@)));
}

/// Directories are shown in order, each that is text on its own, without the
/// prefix that canonicalization adds; the others are left out.
pub proof fn directories_are_shown_in_order(
    a: Seq<Option<Seq<char>>>,
    b: Seq<Option<Seq<char>>>,
    text: Seq<char>,
)
    ensures
        shown(a + b) == shown(a) + shown(b),
        shown(seq![Some(text)]) == seq![without_verbatim(text)],
        shown(seq![None]) == Seq::<Seq<char>>::empty(),
    decreases b.len(),
{
    let one = seq![Some(text)];
    assert(one.drop_last() =~= Seq::<Option<Seq<char>>>::empty());
    assert(shown(one.drop_last()) =~= Seq::empty());
    assert(shown(one) =~= seq![without_verbatim(text)]);
    let none: Seq<Option<Seq<char>>> = seq![None];
    assert(none.drop_last() =~= Seq::<Option<Seq<char>>>::empty());
    if b.len() == 0 {
        assert(a + b =~= a);
    } else {
        assert((a + b).drop_last() =~= a + b.drop_last());
        directories_are_shown_in_order(a, b.drop_last(), text);
    }
    assert(shown(a + b) =~= shown(a) + shown(b));
}

/// The changes of two queues are those of one and then those of the other: what
/// stands before or behind an event makes no difference to what it reports.
pub proof fn changes_add_up(a: Seq<Event>, b: Seq<Event>)
    ensures
        changed_paths(a + b) == changed_paths(a) + changed_paths(b),
        key_presses(a + b) == key_presses(a) + key_presses(b),
    decreases b.len(),
{
    if b.len() == 0 {
        assert(a + b =~= a);
    } else {
        assert((a + b).drop_last() =~= a + b.drop_last());
        changes_add_up(a, b.drop_last());
    }
    assert(changed_paths(a + b) =~= changed_paths(a) + changed_paths(b));
    assert(key_presses(a + b) =~= key_presses(a) + key_presses(b));
}

/// A change reports exactly its paths, and no other event reports any; a key
/// press is kept as it is, and no other event is.
pub proof fn one_event_in_a_queue(event: Event)
    ensures
        event matches Event::FsChange(paths) ==> changed_paths(seq![event]) == paths.deep_view(),
        !(event is FsChange) ==> changed_paths(seq![event]).len() == 0,
        key_presses(seq![event]) == (if event is Key {
            seq![event]
        } else {
            Seq::empty()
        }),
{
    let one = seq![event];
    assert(one.drop_last() =~= Seq::<Event>::empty());
    assert(changed_paths(one.drop_last()) =~= Seq::<Seq<u8>>::empty());
    assert(key_presses(one.drop_last()) =~= Seq::<Event>::empty());
    if let Event::FsChange(paths) = event {
        assert(changed_paths(one) =~= paths.deep_view());
    }
    if event is Key {
        assert(key_presses(one) =~= seq![event]);
    }
}

/// Every path of every queued change is collected, and is among those that the
/// burst is dealt with as.
pub proof fn every_queued_change_is_collected(
    paths: Seq<Seq<u8>>,
    queue: Seq<Event>,
    more: Vec<FilePath>,
    i: int,
    j: int,
)
    requires
        0 <= i < queue.len(),
        queue[i] == Event::FsChange(more),
        0 <= j < more@.len(),
    ensures
        changed_paths(queue).contains(more@[j]@),
        holds_path(unique(paths + changed_paths(queue)), more@[j]@),
{
    let before = queue.take(i);
    let here = seq![queue[i]];
    let after = queue.skip(i + 1);
    assert(queue =~= before + here + after);
    changes_add_up(before + here, after);
    changes_add_up(before, here);
    one_event_in_a_queue(queue[i]);
    let first = changed_paths(before);
    assert(more.deep_view()[j] == more@[j]@);
    assert(changed_paths(queue)[first.len() + j] == more@[j]@);
    a_burst_loses_no_change(paths, queue, more@[j]@);
}

/// Nothing is collected that no queued change reported.
pub proof fn only_queued_changes_are_collected(queue: Seq<Event>, path: Seq<u8>)
    requires
        changed_paths(queue).contains(path),
    ensures
        exists|i: int|
            0 <= i < queue.len() && (#[trigger] queue[i] matches Event::FsChange(more)
                && more.deep_view().contains(path)),
    decreases queue.len(),
{
    let rest = queue.drop_last();
    let at = choose|at: int| 0 <= at < changed_paths(queue).len() && changed_paths(queue)[at] == path;
    if at < changed_paths(rest).len() {
        assert(changed_paths(rest)[at] == path);
        only_queued_changes_are_collected(rest, path);
        let i = choose|i: int|
            0 <= i < rest.len() && (#[trigger] rest[i] matches Event::FsChange(more)
                && more.deep_view().contains(path));
        assert(queue[i] == rest[i]);
    } else {
        let last = queue[queue.len() - 1];
        assert(last is FsChange);
        let more = last->FsChange_0;
        assert(more.deep_view()[at - changed_paths(rest).len()] == path);
        assert(more.deep_view().contains(path));
    }
}

/// Every line that the app logs is shown with its text, on the error output
/// exactly where it is an error.
pub proof fn every_log_line_is_shown(
    session: SessionView,
    text: String,
    is_error: bool,
    watch: WatchView,
    queue: Seq<Event>,
)
    ensures
        on_event(
            session,
            Some(Event::Daemon(DaemonEvent::Log { text, is_error })),
            watch,
            queue,
        ) == (session, Plan::Log { text: text@, is_error }),
{
}

/// The id that the app tells is the one that it is addressed by from then on;
/// all else stays as it was.
pub proof fn the_app_id_is_learned(
    session: SessionView,
    app_id: String,
    watch: WatchView,
    queue: Seq<Event>,
)
    ensures
        ({
            let (after, plan) = on_event(
                session,
                Some(Event::Daemon(DaemonEvent::AppStart { app_id })),
                watch,
                queue,
            );
            &&& after.daemon.app_id == Some(app_id@)
            &&& after.daemon.next_id == session.daemon.next_id
            &&& after.toggles == session.toggles
            &&& plan == Plan::Continue
        }),
{
}

/// The user is told where a debugger can attach and that the app has started.
pub proof fn milestones_are_told(
    session: SessionView,
    ws_uri: String,
    watch: WatchView,
    queue: Seq<Event>,
)
    ensures
        on_event(session, Some(Event::Daemon(DaemonEvent::DebugPort { ws_uri })), watch, queue) == (
            session,
            Plan::Print("Dart VM Service: "@ + ws_uri@),
        ),
        on_event(session, Some(Event::Daemon(DaemonEvent::AppStarted)), watch, queue) == (
            session,
            Plan::Print("App started. Press `h` for the key commands."@),
        ),
{
}

/// Serving ends, and the app is not run again, exactly where the app or its
/// process is gone, where the user quits, and where no event can come any more.
pub proof fn serving_ends_with_the_app(
    session: SessionView,
    event: Option<Event>,
    watch: WatchView,
    queue: Seq<Event>,
)
    ensures
        on_event(session, event, watch, queue).1 is End <==> (match event {
            None => true,
            Some(Event::Daemon(told)) => told is AppStop || told is ProcessExited,
            Some(Event::Key(command)) => command == KeyCommand::Quit,
            Some(Event::FsChange(_)) => false,
        }),
        on_event(session, event, watch, queue).1 matches Plan::End { notice, outcome } ==> outcome
            == Outcome::Finished && notice == (match event {
            None => None,
            Some(Event::Key(_)) => Some("Quitting..."@),
            Some(_) => Some("App exited."@),
        }),
        on_event(session, event, watch, queue).1 is End ==> on_event(
            session,
            event,
            watch,
            queue,
        ).0 == session,
{
}

/// What a key does: help and rebuilding need no app; reloading, restarting and
/// the calls of service extensions do, and do nothing where it is not known.
pub proof fn keys_do_what_they_are_for(
    session: SessionView,
    command: KeyCommand,
    watch: WatchView,
    queue: Seq<Event>,
)
    ensures
        ({
            let (after, plan) = on_event(session, Some(Event::Key(command)), watch, queue);
            let known = session.daemon.app_id is Some;
            &&& command == KeyCommand::Help ==> after == session && plan == Plan::Help
            &&& command == KeyCommand::RebuildRust ==> after == session && plan == (Plan::Rebuild {
                needs_codegen: true,
            })
            &&& command == KeyCommand::HotReload && known ==> plan == (Plan::Restart {
                full: false,
            }) && after == (SessionView { daemon: sent(session.daemon), ..session })
            &&& command == KeyCommand::HotRestart && known ==> plan == (Plan::Restart { full: true })
                && after == (SessionView { daemon: sent(session.daemon), ..session })
            &&& pressed(session.toggles, command).1 is Some && known ==> plan == Plan::Call(
                pressed(session.toggles, command).1->0,
            ) && after == (SessionView { toggles: pressed(session.toggles, command).0, ..session })
            &&& !known && command != KeyCommand::Help && command != KeyCommand::RebuildRust
                && command != KeyCommand::Quit ==> after == session && plan == Plan::Continue
        }),
{
}

/// What the most expensive of the changes in a burst requires is what is done
/// about it. A hot reload is sent where the app is known, and left out where it
/// is not; the rest goes on whether or not it is.
pub proof fn changes_lead_to_what_they_require(
    session: SessionView,
    paths: Vec<FilePath>,
    watch: WatchView,
    queue: Seq<Event>,
)
    ensures
        ({
            let action = batch_action(unique(paths.deep_view() + changed_paths(queue)), watch);
            let (after, plan) = on_event(session, Some(Event::FsChange(paths)), watch, queue);
            &&& action == ChangeAction::Ignore ==> after == session && plan == Plan::Continue
            &&& action == ChangeAction::HotReload ==> if session.daemon.app_id is Some {
                plan == (Plan::Restart { full: false }) && after == (SessionView {
                    daemon: sent(session.daemon),
                    ..session
                })
            } else {
                after == session && plan == Plan::Continue
            }
            &&& action matches ChangeAction::RestartRust { needs_codegen } ==> after == session
                && plan == (Plan::Rebuild { needs_codegen })
            &&& action == ChangeAction::ReloadConfig ==> after == session && plan
                == Plan::ReloadConfig
        }),
{
}

/// A change of the config in a burst reloads it, whatever else changed, and one
/// of Rust rebuilds unless the config changed too.
pub proof fn no_change_is_outdone_by_a_cheaper_one(
    session: SessionView,
    paths: Vec<FilePath>,
    watch: WatchView,
    queue: Seq<Event>,
    i: int,
)
    requires
        0 <= i < unique(paths.deep_view() + changed_paths(queue)).len(),
    ensures
        ({
            let action = action_for(unique(paths.deep_view() + changed_paths(queue))[i], watch);
            let plan = on_event(session, Some(Event::FsChange(paths)), watch, queue).1;
            &&& action == ChangeAction::ReloadConfig ==> plan == Plan::ReloadConfig
            &&& action == (ChangeAction::RestartRust { needs_codegen: true }) ==> plan
                == Plan::ReloadConfig || plan == (Plan::Rebuild { needs_codegen: true })
            &&& action is RestartRust ==> plan == Plan::ReloadConfig || plan is Rebuild
            &&& action == ChangeAction::HotReload && session.daemon.app_id is Some ==> plan
                == Plan::ReloadConfig || plan is Rebuild || plan == (Plan::Restart { full: false })
        }),
{
    let kept = unique(paths.deep_view() + changed_paths(queue));
    batch_takes_the_most_expensive(kept, watch);
    assert(action_for(kept[i], watch).cost() <= batch_action(kept, watch).cost());
    actions_grow_in_cost();
}

/// What is done is what was decided, to the letter: the text that is shown, the
/// call that is made, the request for a reload or restart with the reason that
/// goes with it, and how serving ends.
pub proof fn turns_do_what_was_decided(turn: Turn, plan: Plan, daemon: FlutterDaemonView)
    requires
        carries_out(turn, plan, daemon),
    ensures
        plan is Continue ==> turn is Continue,
        plan is Help ==> turn is Help,
        plan is ReloadConfig ==> turn is ReloadConfig,
        plan matches Plan::Print(text) ==> (turn matches Turn::Print(t) && t@ == text),
        plan matches Plan::Log { text, is_error } ==> (turn matches Turn::Log {
            text: t,
            is_error: e,
        } && t@ == text && e == is_error),
        plan matches Plan::Call(pending) ==> turn == Turn::Call(pending),
        plan matches Plan::Rebuild { needs_codegen } ==> turn == (Turn::Rebuild { needs_codegen }),
        plan matches Plan::Restart { full } ==> {
            &&& turn matches Turn::Restart { full: f, request }
            &&& f == full
            &&& daemon.app_id matches Some(app_id)
            &&& is_request(
                request,
                daemon,
                "app.restart"@,
                restart_params(
                    app_id,
                    full,
                    if full {
                        "frb run: manual hot restart"@
                    } else {
                        "frb run: dart change"@
                    },
                ),
                RESTART_TIMEOUT_SECS,
            )
        },
        plan matches Plan::End { notice, outcome } ==> (turn matches Turn::End {
            notice: n,
            outcome: o,
        } && o == outcome && (match n {
            Some(text) => notice == Some(text@),
            None => notice is None,
        })),
{
}

/// A session holds what it shows.
pub proof fn a_session_shows_what_it_holds(session: Session)
    ensures
        session@.toggles == session.toggles@,
        session@.daemon == session.daemon@,
{
}

/// A rebuild ends this process's lifetime where it is ready, where the config
/// was reloaded, and where it was given up; otherwise serving goes on.
pub proof fn a_rebuild_that_failed_keeps_the_app<E>(config_reloaded: bool, ready: bool, why: E)
    ensures
        lifetime_end::<E>(config_reloaded, Ok(ready)) is None <==> !config_reloaded && !ready,
        lifetime_end::<E>(config_reloaded, Ok(ready)) matches Some(end) ==> end == Ok::<Outcome, E>(
            Outcome::Restart,
        ),
        lifetime_end(config_reloaded, Err::<bool, E>(why)) == Some(Err::<Outcome, E>(why)),
{
}

/// A lifetime goes from watching to the app to serving, one after the other.
/// What cannot be started ends it with that error, and what was already begun
/// is ended first.
pub proof fn a_lifetime_begins_in_order<E>(why: E)
    ensures
        next_stage(RunStage::<E>::Watch, RunReport::Started(Ok(()))) == RunStage::<E>::Spawn,
        next_stage(RunStage::<E>::Spawn, RunReport::Started(Ok(()))) == RunStage::<E>::Serve,
        next_stage(RunStage::<E>::Watch, RunReport::Started(Err(why))) == RunStage::<E>::Done(
            Err(why),
        ),
        next_stage(RunStage::<E>::Spawn, RunReport::Started(Err(why))) == RunStage::<E>::Unwatch(
            Err(why),
        ),
{
}

/// A lifetime stays where it is until what it waits for is reported, and what
/// it ends with never changes again.
pub proof fn a_lifetime_waits_for_its_report<E>(stage: RunStage<E>, report: RunReport<E>)
    ensures
        stage is Done ==> next_stage(stage, report) == stage,
        (stage is Watch || stage is Spawn) && !(report is Started) ==> next_stage(stage, report)
            == stage,
        stage is Serve && !(report is Served) ==> next_stage(stage, report) == stage,
        stage is Stop && !(report is Stopped) ==> next_stage(stage, report) == stage,
        stage is Unwatch && !(report is Unwatched) ==> next_stage(stage, report) == stage,
{
}

/// What a reload gave is taken over and rebuilt with codegen; one that failed
/// leaves the state as it was and ends with its error, with nothing rebuilt.
pub proof fn a_reload_is_all_or_nothing<E>(state: State, fresh: State, why: E)
    ensures
        reloaded(state, Ok::<State, E>(fresh)) == (
            fresh,
            Reloaded::<E>::Rebuild { needs_codegen: true },
        ),
        reloaded(state, Err::<State, E>(why)) == (state, Reloaded::End(why)),
{
}

/// How long is waited, and what is said meanwhile.
pub proof fn a_run_takes_its_time()
    ensures
        STOP_TIMEOUT_SECS == 30,
        BURST_MILLIS == 50,
        RELOAD_NOTICE@ == "Config changed, reloading..."@,
        CONFIG_SUMMARY@ == "codegen config files (flutter_rust_bridge.yaml, pubspec.yaml, ...)"@,
{
}

} // verus!
