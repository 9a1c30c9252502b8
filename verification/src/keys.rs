//! Interactive keyboard commands, mirroring what `flutter run` offers.
//!
//! `flutter run --machine` speaks JSON on stdin, which means the usual
//! interactive keys are gone: pressing `r` there does nothing. Since we own the
//! terminal we read the keys ourselves and translate them into daemon requests,
//! so the familiar keys keep working.

use crate::json::{no_fields, one_field, Json, JsonView};
use crate::text::str_eq;
use vstd::prelude::*;
use vstd::string::*;

verus! {

/// What the user asked for by pressing a key.
#[derive(Debug, Clone, Copy, PartialEq, Eq, Structural)]
pub enum KeyCommand {
    /// `r`: Dart hot reload.
    HotReload,
    /// `R`: Dart hot restart. Note this still does not reload Rust; `F` does.
    HotRestart,
    /// `F`: our addition: rebuild Rust and restart the process.
    RebuildRust,
    /// `q`: quit.
    Quit,
    /// `h`: print the help.
    Help,
    /// `p`: toggle the debug paint overlay.
    ToggleDebugPaint,
    /// `o`: cycle the platform between Android and iOS.
    TogglePlatform,
    /// `b`: toggle between light and dark theme.
    ToggleBrightness,
    /// `P`: toggle the performance overlay.
    TogglePerformanceOverlay,
    /// `w`: dump the widget hierarchy.
    DumpWidgetHierarchy,
}

/// The command of a key.
pub open spec fn command_of(key: char) -> Option<KeyCommand> {
    if key == 'r' {
        Some(KeyCommand::HotReload)
    } else if key == 'R' {
        Some(KeyCommand::HotRestart)
    } else if key == 'F' {
        Some(KeyCommand::RebuildRust)
    } else if key == 'q' || key == 'Q' {
        Some(KeyCommand::Quit)
    } else if key == 'h' || key == 'H' || key == '?' {
        Some(KeyCommand::Help)
    } else if key == 'p' {
        Some(KeyCommand::ToggleDebugPaint)
    } else if key == 'o' || key == 'O' {
        Some(KeyCommand::TogglePlatform)
    } else if key == 'b' || key == 'B' {
        Some(KeyCommand::ToggleBrightness)
    } else if key == 'P' {
        Some(KeyCommand::TogglePerformanceOverlay)
    } else if key == 'w' || key == 'W' {
        Some(KeyCommand::DumpWidgetHierarchy)
    } else {
        None
    }
}

impl KeyCommand {
    /// The command of the key with the code `byte`.
    pub fn from_byte(byte: u8) -> (command: Option<Self>)
        ensures
            command == command_of(byte as char),
    {
        match byte as char {
            'r' => Some(Self::HotReload),
            'R' => Some(Self::HotRestart),
            'F' => Some(Self::RebuildRust),
            // Ctrl-C is handled by the OS, but `q` is what `flutter run` uses.
            'q' | 'Q' => Some(Self::Quit),
            'h' | 'H' | '?' => Some(Self::Help),
            'p' => Some(Self::ToggleDebugPaint),
            'o' | 'O' => Some(Self::TogglePlatform),
            'b' | 'B' => Some(Self::ToggleBrightness),
            'P' => Some(Self::TogglePerformanceOverlay),
            'w' | 'W' => Some(Self::DumpWidgetHierarchy),
            _ => None,
        }
    }

    /// The command of a key that was read. What takes more than one byte to
    /// write is never one of our keys.
    pub fn from_key(key: char) -> (command: Option<Self>)
        ensures
            command == command_of(key),
    {
        let code: u32 = key as u32;
        if code >= 0x80 {
            return None;
        }
        Self::from_byte(code as u8)
    }
}

/// Whether keys are read at all: only from a terminal, and only while one shows
/// the output. In a CI run, or with the output piped elsewhere, reading them
/// would fail or steal input.
pub fn keys_enabled(input_is_terminal: bool, output_is_terminal: bool) -> (enabled: bool)
    ensures
        enabled == (input_is_terminal && output_is_terminal),
{
    input_is_terminal && output_is_terminal
}

/// The help that is printed at the start and on request.
pub const HELP: &'static str = "
Flutter run key commands:
  r  Hot reload (Dart only)
  R  Hot restart (Dart only, does NOT reload Rust)
  F  Rebuild Rust and restart the process
  p  Toggle the debug paint overlay
  P  Toggle the performance overlay
  o  Toggle between Android and iOS platform
  b  Toggle light/dark brightness
  w  Dump the widget hierarchy
  h  Show this help
  q  Quit
";

/// An overlay that a key switches on and off.
#[derive(Debug, Clone, Copy, PartialEq, Eq, Structural)]
pub enum Overlay {
    DebugPaint,
    Performance,
}

/// A platform that the app can be made to look like.
#[derive(Debug, Clone, Copy, PartialEq, Eq, Structural)]
pub enum Platform {
    Android,
    Ios,
}

/// A brightness of the app's theme.
#[derive(Debug, Clone, Copy, PartialEq, Eq, Structural)]
pub enum Brightness {
    Light,
    Dark,
}

impl Overlay {
    /// The service extension that switches the overlay.
    pub open spec fn extension(self) -> Seq<char> {
        match self {
            Overlay::DebugPaint => "ext.flutter.debugPaint"@,
            Overlay::Performance => "ext.flutter.showPerformanceOverlay"@,
        }
    }

    fn method(self) -> (method: &'static str)
        ensures
            method@ == self.extension(),
    {
        match self {
            Overlay::DebugPaint => "ext.flutter.debugPaint",
            Overlay::Performance => "ext.flutter.showPerformanceOverlay",
        }
    }
}

impl Platform {
    /// How the app calls the platform.
    pub open spec fn word(self) -> Seq<char> {
        match self {
            Platform::Android => "android"@,
            Platform::Ios => "iOS"@,
        }
    }

    fn name(self) -> (name: &'static str)
        ensures
            name@ == self.word(),
    {
        match self {
            Platform::Android => "android",
            Platform::Ios => "iOS",
        }
    }
}

impl Brightness {
    /// How the app calls the brightness.
    pub open spec fn word(self) -> Seq<char> {
        match self {
            Brightness::Light => "Brightness.light"@,
            Brightness::Dark => "Brightness.dark"@,
        }
    }

    fn name(self) -> (name: &'static str)
        ensures
            name@ == self.word(),
    {
        match self {
            Brightness::Light => "Brightness.light",
            Brightness::Dark => "Brightness.dark",
        }
    }
}

/// The platform after the one that the app calls `current`.
pub open spec fn next_platform(current: Seq<char>) -> Platform {
    if current == "iOS"@ {
        Platform::Android
    } else {
        Platform::Ios
    }
}

/// The brightness after the one that the app calls `current`.
pub open spec fn next_brightness(current: Seq<char>) -> Brightness {
    if current == "Brightness.light"@ {
        Brightness::Dark
    } else {
        Brightness::Light
    }
}

fn platform_after(current: &str) -> (next: Platform)
    ensures
        next == next_platform(current@),
{
    if str_eq(current, "iOS") {
        Platform::Android
    } else {
        Platform::Ios
    }
}

fn brightness_after(current: &str) -> (next: Brightness)
    ensures
        next == next_brightness(current@),
{
    if str_eq(current, "Brightness.light") {
        Brightness::Dark
    } else {
        Brightness::Light
    }
}

/// A call of a service extension that is under way, and thereby what its result
/// is for.
#[derive(Debug, Clone, Copy, PartialEq, Eq, Structural)]
pub enum Pending {
    /// Switches an overlay.
    Switch { overlay: Overlay, on: bool },
    /// Asks which platform the app currently uses.
    ReadPlatform,
    /// Sets the platform.
    SetPlatform { platform: Platform },
    /// Asks for the app's current brightness.
    ReadBrightness,
    /// Sets the brightness.
    SetBrightness { brightness: Brightness },
    /// Dumps the widget hierarchy.
    Dump,
}

/// A call of a service extension.
#[derive(Debug)]
pub struct ServiceCall {
    pub method: &'static str,
    pub params: Json,
}

/// A boolean as service extensions take it.
pub open spec fn bool_word(value: bool) -> Seq<char> {
    if value {
        "true"@
    } else {
        "false"@
    }
}

fn bool_name(value: bool) -> (name: &'static str)
    ensures
        name@ == bool_word(value),
{
    if value {
        "true"
    } else {
        "false"
    }
}

impl Pending {
    /// The service extension that is called.
    pub open spec fn method(self) -> Seq<char> {
        match self {
            Pending::Switch { overlay, on } => overlay.extension(),
            Pending::ReadPlatform => "ext.flutter.platformOverride"@,
            Pending::SetPlatform { platform } => "ext.flutter.platformOverride"@,
            Pending::ReadBrightness => "ext.flutter.brightnessOverride"@,
            Pending::SetBrightness { brightness } => "ext.flutter.brightnessOverride"@,
            Pending::Dump => "ext.flutter.debugDumpApp"@,
        }
    }

    /// What it is called with. An override extension that is called with
    /// nothing tells the current value, and booleans are passed as text.
    pub open spec fn params(self) -> JsonView {
        match self {
            Pending::Switch { overlay, on } => JsonView::Object(
                map!["enabled"@ => JsonView::Text(bool_word(on))],
            ),
            Pending::SetPlatform { platform } => JsonView::Object(
                map!["value"@ => JsonView::Text(platform.word())],
            ),
            Pending::SetBrightness { brightness } => JsonView::Object(
                map!["value"@ => JsonView::Text(brightness.word())],
            ),
            _ => JsonView::Object(Map::empty()),
        }
    }

    /// The call to make.
    pub fn call(self) -> (call: ServiceCall)
        ensures
            call.method@ == self.method(),
            call.params@ == self.params(),
    {
        match self {
            Pending::Switch { overlay, on } => ServiceCall {
                method: overlay.method(),
                params: one_field("enabled", Json::Text(bool_name(on).to_owned())),
            },
            Pending::ReadPlatform => ServiceCall {
                method: "ext.flutter.platformOverride",
                params: no_fields(),
            },
            Pending::SetPlatform { platform } => ServiceCall {
                method: "ext.flutter.platformOverride",
                params: one_field("value", Json::Text(platform.name().to_owned())),
            },
            Pending::ReadBrightness => ServiceCall {
                method: "ext.flutter.brightnessOverride",
                params: no_fields(),
            },
            Pending::SetBrightness { brightness } => ServiceCall {
                method: "ext.flutter.brightnessOverride",
                params: one_field("value", Json::Text(brightness.name().to_owned())),
            },
            Pending::Dump => ServiceCall { method: "ext.flutter.debugDumpApp", params: no_fields() },
        }
    }
}

/// Toggles need the new value sent explicitly, so remember what we last set.
#[derive(Debug)]
pub struct ToggleState {
    pub debug_paint: bool,
    pub performance_overlay: bool,
    /// `None` until we have asked the app which platform it currently uses.
    pub platform: Option<String>,
    /// `None` until we have asked the app for its current brightness.
    pub brightness: Option<String>,
}

/// What a [`ToggleState`] holds.
pub ghost struct ToggleView {
    pub debug_paint: bool,
    pub performance_overlay: bool,
    pub platform: Option<Seq<char>>,
    pub brightness: Option<Seq<char>>,
}

impl View for ToggleState {
    type V = ToggleView;

    open spec fn view(&self) -> ToggleView {
        ToggleView {
            debug_paint: self.debug_paint,
            performance_overlay: self.performance_overlay,
            platform: self.platform.deep_view(),
            brightness: self.brightness.deep_view(),
        }
    }
}

impl Default for ToggleState {
    fn default() -> (state: Self)
        ensures
            state@ == (ToggleView {
                debug_paint: false,
                performance_overlay: false,
                platform: None,
                brightness: None,
            }),
    {
        ToggleState {
            debug_paint: false,
            performance_overlay: false,
            platform: None,
            brightness: None,
        }
    }
}

/// The call that a key starts, and the state after the press. An overlay counts
/// as switched from the press on, whatever comes of the call.
pub open spec fn pressed(state: ToggleView, command: KeyCommand) -> (ToggleView, Option<Pending>) {
    match command {
        KeyCommand::ToggleDebugPaint => (
            ToggleView { debug_paint: !state.debug_paint, ..state },
            Some(Pending::Switch { overlay: Overlay::DebugPaint, on: !state.debug_paint }),
        ),
        KeyCommand::TogglePerformanceOverlay => (
            ToggleView { performance_overlay: !state.performance_overlay, ..state },
            Some(Pending::Switch { overlay: Overlay::Performance, on: !state.performance_overlay }),
        ),
        KeyCommand::TogglePlatform => (
            state,
            Some(
                match state.platform {
                    Some(current) => Pending::SetPlatform { platform: next_platform(current) },
                    None => Pending::ReadPlatform,
                },
            ),
        ),
        KeyCommand::ToggleBrightness => (
            state,
            Some(
                match state.brightness {
                    Some(current) => Pending::SetBrightness { brightness: next_brightness(current) },
                    None => Pending::ReadBrightness,
                },
            ),
        ),
        KeyCommand::DumpWidgetHierarchy => (state, Some(Pending::Dump)),
        _ => (state, None),
    }
}

/// What to do once a service extension has been called.
#[derive(Debug)]
pub enum ToggleReply {
    /// Make another call.
    Next(Pending),
    /// Print the text on a line of its own.
    Print(String),
    /// Nothing.
    Quiet,
    /// Report the failure, and go on: a failed overlay toggle should not take
    /// the session down.
    Failed(String),
}

/// What a [`ToggleReply`] holds.
pub ghost enum ReplyView {
    Next(Pending),
    Print(Seq<char>),
    Quiet,
    Failed(Seq<char>),
}

impl View for ToggleReply {
    type V = ReplyView;

    open spec fn view(&self) -> ReplyView {
        match *self {
            ToggleReply::Next(pending) => ReplyView::Next(pending),
            ToggleReply::Print(text) => ReplyView::Print(text@),
            ToggleReply::Quiet => ReplyView::Quiet,
            ToggleReply::Failed(text) => ReplyView::Failed(text@),
        }
    }
}

/// The text of a field, or what stands for it where it has none.
pub open spec fn text_or(result: JsonView, field: Seq<char>, otherwise: Seq<char>) -> Seq<char> {
    match result.text_of(field) {
        Some(text) => text,
        None => otherwise,
    }
}

/// What the result of a successful call leads to.
pub open spec fn answered(state: ToggleView, pending: Pending, result: JsonView) -> (
    ToggleView,
    ReplyView,
) {
    match pending {
        Pending::Switch { overlay, on } => (
            state,
            ReplyView::Print(overlay.extension() + ": "@ + bool_word(on)),
        ),
        Pending::ReadPlatform => (
            state,
            ReplyView::Next(
                Pending::SetPlatform { platform: next_platform(text_or(result, "value"@, ""@)) },
            ),
        ),
        Pending::SetPlatform { platform } => {
            let applied = text_or(result, "value"@, platform.word());
            (
                ToggleView { platform: Some(applied), ..state },
                ReplyView::Print("Platform: "@ + applied),
            )
        },
        Pending::ReadBrightness => (
            state,
            ReplyView::Next(
                Pending::SetBrightness { brightness: next_brightness(text_or(result, "value"@, ""@)) },
            ),
        ),
        Pending::SetBrightness { brightness } => {
            let applied = text_or(result, "value"@, brightness.word());
            (
                ToggleView { brightness: Some(applied), ..state },
                ReplyView::Print("Brightness: "@ + applied),
            )
        },
        // The dump comes back in the response rather than the log stream.
        Pending::Dump => (
            state,
            match result.text_of("data"@) {
                Some(data) => ReplyView::Print(data),
                None => ReplyView::Quiet,
            },
        ),
    }
}

/// The text of a field, or `otherwise` where it has none.
pub fn read_string(result: &Json, field: &str, otherwise: &str) -> (text: String)
    ensures
        text@ == text_or(result@, field@, otherwise@),
{
    match result.text_of(field) {
        Some(text) => text,
        None => otherwise.to_owned(),
    }
}

impl ToggleState {
    /// Begins to serve a key that is backed by a service extension. `None` for
    /// the others, which the caller deals with.
    pub fn handle(&mut self, command: KeyCommand) -> (pending: Option<Pending>)
        ensures
            final(self)@ == pressed(old(self)@, command).0,
            pending == pressed(old(self)@, command).1,
    {
        match command {
            KeyCommand::ToggleDebugPaint => {
                self.debug_paint = !self.debug_paint;
                Some(Pending::Switch { overlay: Overlay::DebugPaint, on: self.debug_paint })
            },
            KeyCommand::TogglePerformanceOverlay => {
                self.performance_overlay = !self.performance_overlay;
                Some(Pending::Switch { overlay: Overlay::Performance, on: self.performance_overlay })
            },
            KeyCommand::TogglePlatform => Some(self.toggle_platform()),
            KeyCommand::ToggleBrightness => Some(self.toggle_brightness()),
            KeyCommand::DumpWidgetHierarchy => Some(Pending::Dump),
            _ => None,
        }
    }

    /// Ask before setting: the app may have been launched on either platform,
    /// and guessing would flip it the wrong way on the first press.
    pub fn toggle_platform(&self) -> (pending: Pending)
        ensures
            Some(pending) == pressed(self@, KeyCommand::TogglePlatform).1,
    {
        match &self.platform {
            Some(current) => Pending::SetPlatform { platform: platform_after(current.as_str()) },
            None => Pending::ReadPlatform,
        }
    }

    /// Ask before setting, as for the platform.
    pub fn toggle_brightness(&self) -> (pending: Pending)
        ensures
            Some(pending) == pressed(self@, KeyCommand::ToggleBrightness).1,
    {
        match &self.brightness {
            Some(current) => Pending::SetBrightness { brightness: brightness_after(current.as_str()) },
            None => Pending::ReadBrightness,
        }
    }

    /// Goes on once a service extension has been called, with its result or
    /// why there is none.
    pub fn reply(&mut self, pending: Pending, result: Result<Json, String>) -> (reply: ToggleReply)
        ensures
            match result {
                Ok(json) => final(self)@ == answered(old(self)@, pending, json@).0 && reply@
                    == answered(old(self)@, pending, json@).1,
                Err(why) => final(self)@ == old(self)@ && reply@ == ReplyView::Failed(
                    "Key command failed: "@ + why@,
                ),
            },
    {
        let result = match result {
            Ok(json) => json,
            Err(why) => {
                let mut text = "Key command failed: ".to_owned();
                text.append(why.as_str());
                return ToggleReply::Failed(text);
            },
        };
        match pending {
            Pending::Switch { overlay, on } => {
                let mut text = overlay.method().to_owned();
                text.append(": ");
                text.append(bool_name(on));
                ToggleReply::Print(text)
            },
            Pending::ReadPlatform => {
                let current = read_string(&result, "value", "");
                ToggleReply::Next(Pending::SetPlatform { platform: platform_after(current.as_str()) })
            },
            Pending::SetPlatform { platform } => {
                let applied = read_string(&result, "value", platform.name());
                let mut text = "Platform: ".to_owned();
                text.append(applied.as_str());
                self.platform = Some(applied);
                ToggleReply::Print(text)
            },
            Pending::ReadBrightness => {
                let current = read_string(&result, "value", "");
                ToggleReply::Next(
                    Pending::SetBrightness { brightness: brightness_after(current.as_str()) },
                )
            },
            Pending::SetBrightness { brightness } => {
                let applied = read_string(&result, "value", brightness.name());
                let mut text = "Brightness: ".to_owned();
                text.append(applied.as_str());
                self.brightness = Some(applied);
                ToggleReply::Print(text)
            },
            Pending::Dump => match result.text_of("data") {
                Some(data) => ToggleReply::Print(data),
                None => ToggleReply::Quiet,
            },
        }
    }
}

/// Pressing the key of an overlay twice leaves the overlays as they were, and
/// the two presses ask for opposite states.
pub proof fn overlay_keys_undo_themselves(state: ToggleView, command: KeyCommand)
    requires
        command == KeyCommand::ToggleDebugPaint || command == KeyCommand::TogglePerformanceOverlay,
    ensures
        pressed(pressed(state, command).0, command).0 == state,
        pressed(state, command).1->0->on != pressed(pressed(state, command).0, command).1->0->on,
{
}

/// Once the platform is known to be one of the two, the key cycles between
/// them, as long as the app applies what it is told.
pub proof fn platform_key_cycles(platform: Platform)
    ensures
        next_platform(platform.word()) != platform,
        next_platform(next_platform(platform.word()).word()) == platform,
{
    reveal_strlit("iOS");
    reveal_strlit("android");
    assert("iOS"@.len() != "android"@.len());
}

/// Once the brightness is known to be one of the two, the key cycles between
/// them, as long as the app applies what it is told.
pub proof fn brightness_key_cycles(brightness: Brightness)
    ensures
        next_brightness(brightness.word()) != brightness,
        next_brightness(next_brightness(brightness.word()).word()) == brightness,
{
    reveal_strlit("Brightness.light");
    reveal_strlit("Brightness.dark");
    assert("Brightness.light"@.len() != "Brightness.dark"@.len());
}

/// The first press on an unknown platform asks for the current one and then
/// moves away from it, whichever it is.
pub proof fn unknown_platform_is_asked_for(state: ToggleView, result: JsonView, current: Platform)
    requires
        state.platform is None,
        result.text_of("value"@) == Some(current.word()),
    ensures
        pressed(state, KeyCommand::TogglePlatform) == (state, Some(Pending::ReadPlatform)),
        answered(state, Pending::ReadPlatform, result).1 matches ReplyView::Next(
            Pending::SetPlatform { platform },
        ) && platform != current,
{
    platform_key_cycles(current);
}

/// The first press on an unknown brightness asks for the current one and then
/// moves away from it, whichever it is.
pub proof fn unknown_brightness_is_asked_for(
    state: ToggleView,
    result: JsonView,
    current: Brightness,
)
    requires
        state.brightness is None,
        result.text_of("value"@) == Some(current.word()),
    ensures
        pressed(state, KeyCommand::ToggleBrightness) == (state, Some(Pending::ReadBrightness)),
        answered(state, Pending::ReadBrightness, result).1 matches ReplyView::Next(
            Pending::SetBrightness { brightness },
        ) && brightness != current,
{
    brightness_key_cycles(current);
}

/// A key takes at most two calls: what answers a call leads to another only
/// where the call asked for the current value, and that other one is the last.
pub proof fn a_key_takes_at_most_two_calls(
    state: ToggleView,
    pending: Pending,
    result: JsonView,
    later: JsonView,
)
    ensures
        answered(state, pending, result).1 matches ReplyView::Next(next) ==> (pending
            == Pending::ReadPlatform || pending == Pending::ReadBrightness) && !(answered(
            answered(state, pending, result).0,
            next,
            later,
        ).1 is Next),
{
}

/// The overlays start off, so the first press turns them on.
pub proof fn the_first_press_turns_on(state: ToggleView)
    requires
        !state.debug_paint,
        !state.performance_overlay,
    ensures
        pressed(state, KeyCommand::ToggleDebugPaint).1 == Some(
            (Pending::Switch { overlay: Overlay::DebugPaint, on: true }),
        ),
        pressed(state, KeyCommand::TogglePerformanceOverlay).1 == Some(
            (Pending::Switch { overlay: Overlay::Performance, on: true }),
        ),
{
}

/// Which key does what: `r` and `R`, and `p` and `P`, are different keys, the
/// others are the same in both cases where `flutter run` has them so, and no
/// other key does anything.
pub proof fn keys_are_those_of_flutter_run(key: char)
    ensures
        command_of(key) == Some(KeyCommand::HotReload) <==> key == 'r',
        command_of(key) == Some(KeyCommand::HotRestart) <==> key == 'R',
        command_of(key) == Some(KeyCommand::RebuildRust) <==> key == 'F',
        command_of(key) == Some(KeyCommand::Quit) <==> key == 'q' || key == 'Q',
        command_of(key) == Some(KeyCommand::Help) <==> key == 'h' || key == 'H' || key == '?',
        command_of(key) == Some(KeyCommand::ToggleDebugPaint) <==> key == 'p',
        command_of(key) == Some(KeyCommand::TogglePerformanceOverlay) <==> key == 'P',
        command_of(key) == Some(KeyCommand::TogglePlatform) <==> key == 'o' || key == 'O',
        command_of(key) == Some(KeyCommand::ToggleBrightness) <==> key == 'b' || key == 'B',
        command_of(key) == Some(KeyCommand::DumpWidgetHierarchy) <==> key == 'w' || key == 'W',
{
}

/// A switch calls the extension of its overlay with what the overlay is to be,
/// as text, and with nothing else.
pub proof fn a_switch_sends_what_is_wanted(overlay: Overlay, on: bool)
    ensures
        ({
            let call = Pending::Switch { overlay, on };
            &&& call.method() == (match overlay {
                Overlay::DebugPaint => "ext.flutter.debugPaint"@,
                Overlay::Performance => "ext.flutter.showPerformanceOverlay"@,
            })
            &&& call.params().text_of("enabled"@) == Some(
                if on {
                    "true"@
                } else {
                    "false"@
                },
            )
            &&& forall|key: Seq<char>| #[trigger]
                call.params().get(key) is Some ==> key == "enabled"@
        }),
{
}

/// Setting the platform or the brightness sends the value that is wanted and
/// nothing else; asking for it, and asking for a dump, sends nothing. Asking and
/// setting go to the same extension.
pub proof fn overrides_send_what_is_wanted(platform: Platform, brightness: Brightness)
    ensures
        (Pending::SetPlatform { platform }).method() == "ext.flutter.platformOverride"@,
        (Pending::SetPlatform { platform }).params().text_of("value"@) == Some(
            match platform {
                Platform::Android => "android"@,
                Platform::Ios => "iOS"@,
            },
        ),
        forall|key: Seq<char>| #[trigger]
            (Pending::SetPlatform { platform }).params().get(key) is Some ==> key == "value"@,
        (Pending::SetBrightness { brightness }).method() == "ext.flutter.brightnessOverride"@,
        (Pending::SetBrightness { brightness }).params().text_of("value"@) == Some(
            match brightness {
                Brightness::Light => "Brightness.light"@,
                Brightness::Dark => "Brightness.dark"@,
            },
        ),
        forall|key: Seq<char>| #[trigger]
            (Pending::SetBrightness { brightness }).params().get(key) is Some ==> key == "value"@,
        Pending::ReadPlatform.method() == "ext.flutter.platformOverride"@,
        Pending::ReadBrightness.method() == "ext.flutter.brightnessOverride"@,
        Pending::Dump.method() == "ext.flutter.debugDumpApp"@,
        Pending::ReadPlatform.params() == JsonView::Object(Map::empty()),
        Pending::ReadBrightness.params() == JsonView::Object(Map::empty()),
        Pending::Dump.params() == JsonView::Object(Map::empty()),
{
}

/// Away from iOS goes to Android and from anything else to iOS; away from light
/// goes to dark and from anything else to light.
pub proof fn the_other_one_is_next(current: Seq<char>)
    ensures
        next_platform(current) == Platform::Android <==> current == "iOS"@,
        next_platform(current) == Platform::Ios <==> current != "iOS"@,
        next_brightness(current) == Brightness::Dark <==> current == "Brightness.light"@,
        next_brightness(current) == Brightness::Light <==> current != "Brightness.light"@,
{
}

/// The key of an overlay turns that overlay, asks for what it now is, and leaves
/// all else as it was.
pub proof fn overlay_keys_turn_their_overlay(state: ToggleView)
    ensures
        ({
            let (after, call) = pressed(state, KeyCommand::ToggleDebugPaint);
            &&& after == ToggleView { debug_paint: !state.debug_paint, ..state }
            &&& call == Some(
                (Pending::Switch { overlay: Overlay::DebugPaint, on: after.debug_paint }),
            )
        }),
        ({
            let (after, call) = pressed(state, KeyCommand::TogglePerformanceOverlay);
            &&& after == ToggleView { performance_overlay: !state.performance_overlay, ..state }
            &&& call == Some(
                (Pending::Switch { overlay: Overlay::Performance, on: after.performance_overlay }),
            )
        }),
{
}

/// The keys for platform and brightness change nothing by themselves: they set
/// the other of the two where the current one is known, and ask for it where it
/// is not. The key for the dump asks for it, and no other key calls anything.
pub proof fn other_keys_only_ask(state: ToggleView, command: KeyCommand)
    requires
        command != KeyCommand::ToggleDebugPaint,
        command != KeyCommand::TogglePerformanceOverlay,
    ensures
        pressed(state, command).0 == state,
        command == KeyCommand::TogglePlatform ==> pressed(state, command).1 == Some(
            match state.platform {
                Some(current) => (Pending::SetPlatform {
                    platform: if current == "iOS"@ {
                        Platform::Android
                    } else {
                        Platform::Ios
                    },
                }),
                None => Pending::ReadPlatform,
            },
        ),
        command == KeyCommand::ToggleBrightness ==> pressed(state, command).1 == Some(
            match state.brightness {
                Some(current) => (Pending::SetBrightness {
                    brightness: if current == "Brightness.light"@ {
                        Brightness::Dark
                    } else {
                        Brightness::Light
                    },
                }),
                None => Pending::ReadBrightness,
            },
        ),
        command == KeyCommand::DumpWidgetHierarchy ==> pressed(state, command).1 == Some(
            Pending::Dump,
        ),
        command != KeyCommand::TogglePlatform && command != KeyCommand::ToggleBrightness && command
            != KeyCommand::DumpWidgetHierarchy ==> pressed(state, command).1 is None,
{
}

/// What the app says its platform or brightness now is, is what is shown and
/// remembered; where it does not say, it is what it was told. Nothing else is
/// remembered by that.
pub proof fn what_the_app_applied_is_remembered(
    state: ToggleView,
    platform: Platform,
    brightness: Brightness,
    result: JsonView,
)
    ensures
        ({
            let (after, reply) = answered(state, Pending::SetPlatform { platform }, result);
            let applied = match result.text_of("value"@) {
                Some(said) => said,
                None => match platform {
                    Platform::Android => "android"@,
                    Platform::Ios => "iOS"@,
                },
            };
            &&& after == ToggleView { platform: Some(applied), ..state }
            &&& reply == ReplyView::Print("Platform: "@ + applied)
        }),
        ({
            let (after, reply) = answered(state, Pending::SetBrightness { brightness }, result);
            let applied = match result.text_of("value"@) {
                Some(said) => said,
                None => match brightness {
                    Brightness::Light => "Brightness.light"@,
                    Brightness::Dark => "Brightness.dark"@,
                },
            };
            &&& after == ToggleView { brightness: Some(applied), ..state }
            &&& reply == ReplyView::Print("Brightness: "@ + applied)
        }),
{
}

/// The next press goes by what was remembered: after the app applied what it was
/// told, the same key sets the other one, without asking.
pub proof fn the_next_press_goes_back(
    state: ToggleView,
    platform: Platform,
    brightness: Brightness,
    result: JsonView,
)
    requires
        result.text_of("value"@) is None,
    ensures
        pressed(
            answered(state, Pending::SetPlatform { platform }, result).0,
            KeyCommand::TogglePlatform,
        ).1 matches Some(Pending::SetPlatform { platform: next }) && next != platform,
        pressed(
            answered(state, Pending::SetBrightness { brightness }, result).0,
            KeyCommand::ToggleBrightness,
        ).1 matches Some(Pending::SetBrightness { brightness: next }) && next != brightness,
{
    platform_key_cycles(platform);
    brightness_key_cycles(brightness);
}

/// Reading the current value changes nothing and leads to setting the other one,
/// where a value that is missing or no text counts as unknown; switching and
/// dumping change nothing either, and show what was switched and what was dumped.
pub proof fn other_answers_change_nothing(
    state: ToggleView,
    overlay: Overlay,
    on: bool,
    result: JsonView,
)
    ensures
        answered(state, Pending::Switch { overlay, on }, result) == (
            state,
            ReplyView::Print(
                (match overlay {
                    Overlay::DebugPaint => "ext.flutter.debugPaint"@,
                    Overlay::Performance => "ext.flutter.showPerformanceOverlay"@,
                }) + ": "@ + (if on {
                    "true"@
                } else {
                    "false"@
                }),
            ),
        ),
        answered(state, Pending::ReadPlatform, result) == (
            state,
            ReplyView::Next(
                Pending::SetPlatform {
                    platform: if result.text_of("value"@) == Some("iOS"@) {
                        Platform::Android
                    } else {
                        Platform::Ios
                    },
                },
            ),
        ),
        answered(state, Pending::ReadBrightness, result) == (
            state,
            ReplyView::Next(
                Pending::SetBrightness {
                    brightness: if result.text_of("value"@) == Some("Brightness.light"@) {
                        Brightness::Dark
                    } else {
                        Brightness::Light
                    },
                },
            ),
        ),
        answered(state, Pending::Dump, result) == (
            state,
            match result.text_of("data"@) {
                Some(data) => ReplyView::Print(data),
                None => ReplyView::Quiet,
            },
        ),
{
    reveal_strlit("");
    reveal_strlit("iOS");
    reveal_strlit("Brightness.light");
    assert(""@.len() == 0 && "iOS"@.len() == 3 && "Brightness.light"@.len() == 16);
}

/// A field gives its text, and what stands for it exactly where it has none.
pub proof fn missing_text_is_replaced(result: JsonView, field: Seq<char>, otherwise: Seq<char>)
    ensures
        result.text_of(field) matches Some(text) ==> text_or(result, field, otherwise) == text,
        result.text_of(field) is None ==> text_or(result, field, otherwise) == otherwise,
{
}

/// The state and the replies hold what they show.
pub proof fn toggles_show_what_they_hold(state: ToggleState, reply: ToggleReply)
    ensures
        state@.debug_paint == state.debug_paint,
        state@.performance_overlay == state.performance_overlay,
        state@.platform == (match state.platform {
            Some(platform) => Some(platform@),
            None => None,
        }),
        state@.brightness == (match state.brightness {
            Some(brightness) => Some(brightness@),
            None => None,
        }),
        reply matches ToggleReply::Next(pending) ==> reply@ == ReplyView::Next(pending),
        reply matches ToggleReply::Print(text) ==> reply@ == ReplyView::Print(text@),
        reply matches ToggleReply::Failed(text) ==> reply@ == ReplyView::Failed(text@),
        reply is Quiet <==> reply@ is Quiet,
{
}

/// The help names each key and what it does, as the keys are: those for Dart
/// alone say so.
pub proof fn the_help_lists_the_keys()
    ensures
        HELP@ == "
Flutter run key commands:
  r  Hot reload (Dart only)
  R  Hot restart (Dart only, does NOT reload Rust)
  F  Rebuild Rust and restart the process
  p  Toggle the debug paint overlay
  P  Toggle the performance overlay
  o  Toggle between Android and iOS platform
  b  Toggle light/dark brightness
  w  Dump the widget hierarchy
  h  Show this help
  q  Quit
"@,
{
}

} // verus!
