//! Classify a file system change into the action it should trigger.

use crate::path::{
    current_part, extension_bytes, extension_chars, is_plain, is_under, join_adds_one_part,
    joined_files_stay_below, joined_path, lemma_last_dot, name_bytes, name_chars, parent_bytes,
    parent_part, parts, path_text, texts_are_read_as_encoded, the_extension_follows_the_last_dot,
    the_name_is_the_last_part, trimmed_path, FilePath, SLASH,
};
use crate::text::{
    a_prefix_leaves_a_rest, a_suffix_leaves_a_start, chars_of, has_prefix, has_suffix,
    str_ends_with, str_eq, str_starts_with,
};
use std::cmp::Ordering;
use vstd::prelude::*;
use vstd::string::*;
use vstd::utf8::*;

verus! {

/// The names under which a codegen config is looked up, in that order.
pub const CONFIG_FILE_NAMES: [&'static str; 7] = [
    ".flutter_rust_bridge.yml",
    ".flutter_rust_bridge.yaml",
    ".flutter_rust_bridge.json",
    "flutter_rust_bridge.yml",
    "flutter_rust_bridge.yaml",
    "flutter_rust_bridge.json",
    // The `flutter_rust_bridge:` section inside pubspec.yaml is a config source too
    "pubspec.yaml",
];

/// What a batch of file changes requires us to do.
///
/// Ordered by increasing cost, so that of a batch of mixed changes the most
/// expensive action wins.
#[derive(Debug, Clone, Copy, PartialEq, Eq, Structural, Ord)]
pub enum ChangeAction {
    /// Nothing of interest changed (e.g. a file we generated ourselves).
    Ignore,
    /// Dart-only change: a plain hot reload suffices.
    HotReload,
    /// Rust changed: re-run codegen if needed, then restart the process.
    ///
    /// Restarting is unavoidable because an already-`dlopen`ed cdylib is never
    /// re-read from disk.
    RestartRust { needs_codegen: bool },
    /// A codegen config file changed. Codegen inputs and output paths may both
    /// have moved, so config must be re-parsed and the watcher rebuilt.
    ReloadConfig,
}

impl ChangeAction {
    /// The place of an action in the order of cost.
    pub open spec fn cost(self) -> nat {
        match self {
            ChangeAction::Ignore => 0,
            ChangeAction::HotReload => 1,
            ChangeAction::RestartRust { needs_codegen: false } => 2,
            ChangeAction::RestartRust { needs_codegen: true } => 3,
            ChangeAction::ReloadConfig => 4,
        }
    }

    fn rank(self) -> (cost: u8)
        ensures
            cost == self.cost(),
    {
        match self {
            ChangeAction::Ignore => 0,
            ChangeAction::HotReload => 1,
            ChangeAction::RestartRust { needs_codegen } => if needs_codegen {
                3
            } else {
                2
            },
            ChangeAction::ReloadConfig => 4,
        }
    }
}

impl PartialOrd for ChangeAction {
    fn partial_cmp(&self, other: &Self) -> (order: Option<Ordering>) {
        let a: u8 = self.rank();
        let b: u8 = other.rank();
        if a < b {
            Some(Ordering::Less)
        } else if a > b {
            Some(Ordering::Greater)
        } else {
            Some(Ordering::Equal)
        }
    }
}

impl vstd::std_specs::cmp::PartialOrdSpecImpl for ChangeAction {
    open spec fn obeys_partial_cmp_spec() -> bool {
        true
    }

    open spec fn partial_cmp_spec(&self, other: &Self) -> Option<Ordering> {
        if self.cost() < other.cost() {
            Some(Ordering::Less)
        } else if self.cost() > other.cost() {
            Some(Ordering::Greater)
        } else {
            Some(Ordering::Equal)
        }
    }
}

/// Paths needed to classify changes. Derived from the parsed config, so it must
/// be recomputed whenever [`ChangeAction::ReloadConfig`] fires.
#[derive(Debug, Clone)]
pub struct WatchPaths {
    /// Directory the config files are resolved relative to.
    pub base_dir: FilePath,
    pub rust_crate_dir: FilePath,
    pub dart_root: FilePath,
    /// Files we generate ourselves. Changes here must never trigger a rebuild,
    /// otherwise codegen would loop forever.
    pub generated_paths: Vec<FilePath>,
}

/// What [`WatchPaths`] holds.
pub ghost struct WatchView {
    pub base_dir: Seq<u8>,
    pub rust_crate_dir: Seq<u8>,
    pub dart_root: Seq<u8>,
    pub generated_paths: Seq<Seq<u8>>,
}

impl View for WatchPaths {
    type V = WatchView;

    open spec fn view(&self) -> WatchView {
        WatchView {
            base_dir: self.base_dir@,
            rust_crate_dir: self.rust_crate_dir@,
            dart_root: self.dart_root@,
            generated_paths: self.generated_paths.deep_view(),
        }
    }
}

/// What canonicalization puts before a path on Windows.
pub open spec fn verbatim_prefix() -> Seq<char> {
    seq!['\\', '\\', '?', '\\']
}

/// `text` without the prefix that canonicalization adds on Windows.
pub open spec fn without_verbatim(text: Seq<char>) -> Seq<char> {
    if has_prefix(text, verbatim_prefix()) {
        text.skip(4)
    } else {
        text
    }
}

/// `text` with forward slashes only.
pub open spec fn forward_slashes(text: Seq<char>) -> Seq<char> {
    text.map_values(
        |c: char|
            if c == '\\' {
                '/'
            } else {
                c
            },
    )
}

/// `text` without the slashes it ends with.
pub open spec fn without_trailing_slashes(text: Seq<char>) -> Seq<char>
    decreases text.len(),
{
    if text.len() > 0 && text.last() == '/' {
        without_trailing_slashes(text.drop_last())
    } else {
        text
    }
}

/// The form of a path's text by which [`paths_eq`] compares.
pub open spec fn normalized(text: Seq<char>) -> Seq<char> {
    without_trailing_slashes(forward_slashes(without_verbatim(text)))
}

/// Whether two paths read the same but for a Windows prefix, the direction of
/// their slashes and slashes at their end.
pub open spec fn reads_same(a: Seq<u8>, b: Seq<u8>) -> bool {
    normalized(path_text(a)) == normalized(path_text(b))
}

/// Whether `name` is one that generated files have.
pub open spec fn generated_name(name: Seq<char>) -> bool {
    ||| has_prefix(name, "frb_generated"@)
    ||| has_suffix(name, ".freezed.dart"@)
    ||| has_suffix(name, ".g.dart"@)
}

/// Whether `path` is one of the outputs that codegen reported.
pub open spec fn reported_output(path: Seq<u8>, watch: WatchView) -> bool {
    exists|i: int|
        0 <= i < watch.generated_paths.len() && reads_same(#[trigger] watch.generated_paths[i], path)
}

/// Whether `path` is a generated output.
pub open spec fn generated(path: Seq<u8>, watch: WatchView) -> bool {
    reported_output(path, watch) || (name_chars(path) matches Some(name) && generated_name(name))
}

/// Whether a config may be looked up under `name`.
pub open spec fn config_name(name: Seq<char>) -> bool {
    exists|i: int| 0 <= i < 7 && name == #[trigger] CONFIG_FILE_NAMES@[i]@
}

/// Whether `path` is a config file that is looked up: one with the right name,
/// next to where config is resolved from.
pub open spec fn config_file(path: Seq<u8>, watch: WatchView) -> bool {
    &&& name_chars(path) matches Some(name)
    &&& config_name(name)
    &&& parent_bytes(path) matches Some(parent)
    &&& reads_same(parent, watch.base_dir) || reads_same(parent, watch.dart_root)
}

/// Whether `name` is that of a file that changes what gets compiled but is not
/// parsed by codegen.
pub open spec fn manifest_name(name: Seq<char>) -> bool {
    name == "Cargo.toml"@ || name == "Cargo.lock"@ || name == "build.rs"@
}

/// What a change inside the Rust crate requires.
pub open spec fn rust_action(path: Seq<u8>, watch: WatchView) -> Option<ChangeAction> {
    match name_chars(path) {
        None => None,
        Some(name) => if !is_under(path, watch.rust_crate_dir) {
            None
        } else if manifest_name(name) {
            Some(ChangeAction::RestartRust { needs_codegen: false })
        } else if extension_chars(path) == Some("rs"@) {
            Some(ChangeAction::RestartRust { needs_codegen: true })
        } else {
            None
        },
    }
}

/// The directory with the Dart sources.
pub open spec fn dart_lib(watch: WatchView) -> Seq<u8> {
    joined_path(watch.dart_root, encode_utf8("lib"@))
}

/// Whether `path` is a Dart source of the app.
pub open spec fn dart_source(path: Seq<u8>, watch: WatchView) -> bool {
    extension_chars(path) == Some("dart"@) && is_under(path, dart_lib(watch))
}

/// What a change of `path` requires.
pub open spec fn action_for(path: Seq<u8>, watch: WatchView) -> ChangeAction {
    if generated(path, watch) {
        ChangeAction::Ignore
    } else if config_file(path, watch) {
        ChangeAction::ReloadConfig
    } else if let Some(action) = rust_action(path, watch) {
        action
    } else if dart_source(path, watch) {
        ChangeAction::HotReload
    } else {
        ChangeAction::Ignore
    }
}

/// The more expensive of two actions.
pub open spec fn costlier(a: ChangeAction, b: ChangeAction) -> ChangeAction {
    if a.cost() < b.cost() {
        b
    } else {
        a
    }
}

/// The most expensive action that a path of the batch requires.
pub open spec fn batch_action(paths: Seq<Seq<u8>>, watch: WatchView) -> ChangeAction
    decreases paths.len(),
{
    if paths.len() == 0 {
        ChangeAction::Ignore
    } else {
        costlier(batch_action(paths.drop_last(), watch), action_for(paths.last(), watch))
    }
}

/// Classifies a batch of changed paths: the most expensive action wins.
pub fn classify_batch(paths: &[FilePath], watch: &WatchPaths) -> (action: ChangeAction)
    ensures
        action == batch_action(paths.deep_view(), watch@),
{
    let mut action = ChangeAction::Ignore;
    let ghost all = paths.deep_view();
    for i in 0..paths.len()
        invariant
            all == paths.deep_view(),
            action == batch_action(all.take(i as int), watch@),
    {
        let next = classify_one(&paths[i], watch);
        assert(all.take(i + 1).drop_last() =~= all.take(i as int));
        if action < next {
            action = next;
        }
    }
    assert(all.take(paths@.len() as int) =~= all);
    action
}

/// Classifies one changed path.
pub fn classify_one(path: &FilePath, watch: &WatchPaths) -> (action: ChangeAction)
    ensures
        action == action_for(path@, watch@),
{
    if is_generated(path, watch) {
        return ChangeAction::Ignore;
    }
    if is_config_file(path, watch) {
        return ChangeAction::ReloadConfig;
    }
    if let Some(action) = classify_rust(path, watch) {
        return action;
    }
    if is_dart_source(path, watch) {
        return ChangeAction::HotReload;
    }
    ChangeAction::Ignore
}

/// Generated outputs: the exact output paths codegen reported, and names that
/// only generated files have.
pub fn is_generated(path: &FilePath, watch: &WatchPaths) -> (found: bool)
    ensures
        found == generated(path@, watch@),
{
    for i in 0..watch.generated_paths.len()
        invariant
            forall|j: int|
                0 <= j < i ==> !reads_same(#[trigger] watch@.generated_paths[j], path@),
    {
        if paths_eq(&watch.generated_paths[i], path) {
            assert(reads_same(watch@.generated_paths[i as int], path@));
            return true;
        }
    }
    match file_name(path) {
        None => false,
        Some(name) => str_starts_with(name.as_str(), "frb_generated") || str_ends_with(
            name.as_str(),
            ".freezed.dart",
        ) || str_ends_with(name.as_str(), ".g.dart"),
    }
}

fn is_config_name(name: &str) -> (found: bool)
    ensures
        found == config_name(name@),
{
    for i in 0..7usize
        invariant
            forall|j: int| 0 <= j < i ==> name@ != #[trigger] CONFIG_FILE_NAMES@[j]@,
    {
        if str_eq(name, CONFIG_FILE_NAMES[i]) {
            assert(name@ == CONFIG_FILE_NAMES@[i as int]@);
            return true;
        }
    }
    false
}

/// Whether `path` is a config file that is looked up. A `pubspec.yaml` deeper
/// in the tree (e.g. in an example app) is somebody else's.
pub fn is_config_file(path: &FilePath, watch: &WatchPaths) -> (found: bool)
    ensures
        found == config_file(path@, watch@),
{
    match file_name(path) {
        None => false,
        Some(name) => {
            if !is_config_name(name.as_str()) {
                return false;
            }
            match path.parent() {
                None => false,
                Some(parent) => paths_eq(&parent, &watch.base_dir) || paths_eq(
                    &parent,
                    &watch.dart_root,
                ),
            }
        },
    }
}

/// What a change inside the Rust crate requires. Any Rust file counts, not just
/// the codegen input: a struct definition in a non-input file can still change
/// the generated code.
pub fn classify_rust(path: &FilePath, watch: &WatchPaths) -> (action: Option<ChangeAction>)
    ensures
        action == rust_action(path@, watch@),
{
    match file_name(path) {
        None => None,
        Some(name) => {
            let n = name.as_str();
            if (str_eq(n, "Cargo.toml") || str_eq(n, "Cargo.lock") || str_eq(n, "build.rs"))
                && path.starts_with(&watch.rust_crate_dir) {
                return Some(ChangeAction::RestartRust { needs_codegen: false });
            }
            match path.extension() {
                None => None,
                Some(extension) => if str_eq(extension.as_str(), "rs") && path.starts_with(
                    &watch.rust_crate_dir,
                ) {
                    Some(ChangeAction::RestartRust { needs_codegen: true })
                } else {
                    None
                },
            }
        },
    }
}

/// Whether `path` is a Dart source of the app.
pub fn is_dart_source(path: &FilePath, watch: &WatchPaths) -> (found: bool)
    ensures
        found == dart_source(path@, watch@),
{
    match path.extension() {
        None => false,
        Some(extension) => str_eq(extension.as_str(), "dart") && path.starts_with(
            &watch.dart_root.join("lib"),
        ),
    }
}

/// The name of the file, if it has one that is UTF-8.
pub fn file_name(path: &FilePath) -> (name: Option<String>)
    ensures
        match name {
            Some(n) => name_chars(path@) == Some(n@),
            None => name_chars(path@) is None,
        },
{
    path.file_name()
}

/// Drops the prefix that canonicalization adds on Windows.
pub fn strip_verbatim(text: &str) -> (rest: &str)
    ensures
        rest@ == without_verbatim(text@),
{
    let all = chars_of(text);
    let verbatim = all.len() >= 4 && all[0] == '\\' && all[1] == '\\' && all[2] == '?' && all[3]
        == '\\';
    let ghost t = text@;
    assert(verbatim == has_prefix(t, verbatim_prefix())) by {
        if verbatim {
            assert(t.take(4) =~= verbatim_prefix());
        } else if t.len() >= 4 {
            assert(t.take(4)[0] == t[0] && t.take(4)[1] == t[1] && t.take(4)[2] == t[2] && t.take(
                4,
            )[3] == t[3]);
        }
    }
    if verbatim {
        text.substring_char(4, all.len())
    } else {
        text
    }
}

/// Brings the text of a path into the form by which paths are compared.
pub fn normalize(text: &str) -> (chars: Vec<char>)
    ensures
        chars@ == normalized(text@),
{
    let all = chars_of(strip_verbatim(text));
    let ghost rest = without_verbatim(text@);
    let mut chars: Vec<char> = Vec::new();
    for i in 0..all.len()
        invariant
            all@ == rest,
            chars@ == forward_slashes(rest.take(i as int)),
    {
        let c = if all[i] == '\\' {
            '/'
        } else {
            all[i]
        };
        chars.push(c);
        assert(chars@ =~= forward_slashes(rest.take(i + 1)));
    }
    assert(rest.take(rest.len() as int) =~= rest);
    let ghost flat = forward_slashes(rest);
    while chars.len() > 0 && chars[chars.len() - 1] == '/'
        invariant
            without_trailing_slashes(chars@) == without_trailing_slashes(flat),
        decreases chars@.len(),
    {
        let ghost before = chars@;
        chars.pop();
        assert(chars@ =~= before.drop_last());
    }
    chars
}

/// Compares paths tolerating the prefix that canonicalization adds on Windows,
/// since watcher events and config-derived paths disagree about it.
pub fn paths_eq(a: &FilePath, b: &FilePath) -> (equal: bool)
    ensures
        equal == reads_same(a@, b@),
{
    let x = normalize(a.to_text().as_str());
    let y = normalize(b.to_text().as_str());
    if x.len() != y.len() {
        return false;
    }
    for i in 0..x.len()
        invariant
            x@ == normalized(path_text(a@)),
            y@ == normalized(path_text(b@)),
            x@.len() == y@.len(),
            forall|j: int| 0 <= j < i ==> x@[j] == y@[j],
    {
        if x[i] != y[i] {
            return false;
        }
    }
    assert(x@ =~= y@);
    true
}

/// A change of a generated file requires nothing, whatever else holds of it.
/// Otherwise codegen writing its own output would trigger another round.
pub proof fn generated_files_are_ignored(path: Seq<u8>, watch: WatchView)
    requires
        generated(path, watch),
    ensures
        action_for(path, watch) == ChangeAction::Ignore,
{
}

/// The very paths that codegen reported as its outputs are ignored.
pub proof fn reported_outputs_are_ignored(watch: WatchView, i: int)
    requires
        0 <= i < watch.generated_paths.len(),
    ensures
        action_for(watch.generated_paths[i], watch) == ChangeAction::Ignore,
{
    assert(reads_same(watch.generated_paths[i], watch.generated_paths[i]));
}

/// A batch requires exactly the most expensive of what its paths require: none
/// of them requires more, and one of them requires that, or it is `Ignore`.
pub proof fn batch_takes_the_most_expensive(paths: Seq<Seq<u8>>, watch: WatchView)
    ensures
        forall|i: int|
            0 <= i < paths.len() ==> (#[trigger] action_for(paths[i], watch)).cost()
                <= batch_action(paths, watch).cost(),
        batch_action(paths, watch) == ChangeAction::Ignore || exists|i: int|
            0 <= i < paths.len() && #[trigger] action_for(paths[i], watch) == batch_action(
                paths,
                watch,
            ),
    decreases paths.len(),
{
    if paths.len() > 0 {
        let rest = paths.drop_last();
        batch_takes_the_most_expensive(rest, watch);
        assert forall|i: int| 0 <= i < paths.len() implies (#[trigger] action_for(
            paths[i],
            watch,
        )).cost() <= batch_action(paths, watch).cost() by {
            if i < rest.len() {
                assert(rest[i] == paths[i]);
            }
        }
        if batch_action(rest, watch) == batch_action(paths, watch) && batch_action(rest, watch)
            != ChangeAction::Ignore {
            let i = choose|i: int|
                0 <= i < rest.len() && #[trigger] action_for(rest[i], watch) == batch_action(
                    rest,
                    watch,
                );
            assert(rest[i] == paths[i]);
        } else {
            assert(paths[paths.len() - 1] == paths.last());
        }
    }
}

/// Neither the order of the paths in a batch nor how often one occurs matters.
pub proof fn batch_order_is_irrelevant(a: Seq<Seq<u8>>, b: Seq<Seq<u8>>, watch: WatchView)
    requires
        forall|path: Seq<u8>| a.contains(path) <==> b.contains(path),
    ensures
        batch_action(a, watch) == batch_action(b, watch),
{
    lemma_batch_at_most(a, b, watch);
    lemma_batch_at_most(b, a, watch);
}

proof fn lemma_batch_at_most(a: Seq<Seq<u8>>, b: Seq<Seq<u8>>, watch: WatchView)
    requires
        forall|path: Seq<u8>| a.contains(path) ==> b.contains(path),
    ensures
        batch_action(a, watch).cost() <= batch_action(b, watch).cost(),
{
    batch_takes_the_most_expensive(a, watch);
    batch_takes_the_most_expensive(b, watch);
    if batch_action(a, watch) != ChangeAction::Ignore {
        let i = choose|i: int|
            0 <= i < a.len() && #[trigger] action_for(a[i], watch) == batch_action(a, watch);
        assert(a.contains(a[i]));
        let j = choose|j: int| 0 <= j < b.len() && b[j] == a[i];
        assert(action_for(b[j], watch).cost() <= batch_action(b, watch).cost());
    }
}

/// Two batches together require what the more expensive of them does, so it
/// makes no difference how changes are cut into batches.
pub proof fn batches_combine(a: Seq<Seq<u8>>, b: Seq<Seq<u8>>, watch: WatchView)
    ensures
        batch_action(a + b, watch) == costlier(batch_action(a, watch), batch_action(b, watch)),
    decreases b.len(),
{
    if b.len() == 0 {
        assert(a + b =~= a);
    } else {
        assert((a + b).drop_last() =~= a + b.drop_last());
        batches_combine(a, b.drop_last(), watch);
    }
}

/// Comparing paths by how they read is an equivalence.
pub proof fn reading_same_is_an_equivalence(a: Seq<u8>, b: Seq<u8>, c: Seq<u8>)
    ensures
        reads_same(a, a),
        reads_same(a, b) == reads_same(b, a),
        reads_same(a, b) && reads_same(b, c) ==> reads_same(a, c),
{
}

/// The prefix that canonicalization adds on Windows makes no difference to how
/// a path reads.
pub proof fn verbatim_prefix_is_tolerated(text: Seq<char>)
    requires
        !has_prefix(text, verbatim_prefix()),
    ensures
        normalized(verbatim_prefix() + text) == normalized(text),
{
    let prefixed = verbatim_prefix() + text;
    assert(prefixed.take(4) =~= verbatim_prefix());
    assert(prefixed.skip(4) =~= text);
}

/// A slash at the end makes no difference to how a path reads.
pub proof fn trailing_slash_is_tolerated(text: Seq<char>)
    ensures
        normalized(text.push('/')) == normalized(text),
{
    let longer = text.push('/');
    let prefix = verbatim_prefix();
    assert(has_prefix(longer, prefix) == has_prefix(text, prefix)) by {
        if text.len() >= 4 {
            assert(longer.take(4) =~= text.take(4));
        } else if longer.len() == 4 {
            assert(longer.take(4)[3] != prefix[3]);
        }
    }
    assert(without_verbatim(longer) =~= without_verbatim(text).push('/'));
    let flat = forward_slashes(without_verbatim(text));
    assert(forward_slashes(without_verbatim(longer)) =~= flat.push('/'));
    assert(flat.push('/').drop_last() =~= flat);
}

/// The direction of the slashes makes no difference to how a path reads.
pub proof fn slash_direction_is_tolerated(text: Seq<char>)
    requires
        !has_prefix(text, verbatim_prefix()),
    ensures
        normalized(forward_slashes(text)) == normalized(text),
{
    let flat = forward_slashes(text);
    if flat.len() >= 4 {
        assert(flat.take(4)[0] != verbatim_prefix()[0]);
    }
    assert(forward_slashes(flat) =~= flat);
}

/// Whether `name` is ASCII text that can name a file.
pub open spec fn ascii_file_name(name: Seq<char>) -> bool {
    &&& name.len() > 2
    &&& is_ascii_chars(name)
    &&& forall|i: int| 0 <= i < name.len() ==> name[i] != '/'
}

/// A file that is joined to a directory has the name it was joined by.
pub proof fn joined_file_has_its_name(dir: Seq<u8>, name: Seq<char>)
    requires
        ascii_file_name(name),
    ensures
        is_plain(encode_utf8(name)),
        name_chars(joined_path(dir, encode_utf8(name))) == Some(name),
{
    let bytes = encode_utf8(name);
    is_ascii_chars_encode_utf8(name);
    assert forall|i: int| 0 <= i < bytes.len() implies bytes[i] != SLASH by {
        is_ascii_chars_nat_bound(name);
        assert(bytes[i] == name[i] as u8);
        assert(name[i] as u32 != 0x2f);
    }
    assert(bytes.len() == name.len());
    assert(is_plain(bytes));
    join_adds_one_part(dir, bytes);
    encode_utf8_valid_utf8(name);
    encode_utf8_decode_utf8(name);
    let path = joined_path(dir, bytes);
    assert(parts(path).last() == bytes);
    assert(bytes != parent_part());
}

proof fn lemma_config_name(i: int)
    requires
        0 <= i < 7,
    ensures
        ascii_file_name(CONFIG_FILE_NAMES@[i]@),
        !generated_name(CONFIG_FILE_NAMES@[i]@),
        CONFIG_FILE_NAMES@[i]@.last() == 'l' || CONFIG_FILE_NAMES@[i]@.last() == 'n',
{
    reveal_strlit(".flutter_rust_bridge.yml");
    reveal_strlit(".flutter_rust_bridge.yaml");
    reveal_strlit(".flutter_rust_bridge.json");
    reveal_strlit("flutter_rust_bridge.yml");
    reveal_strlit("flutter_rust_bridge.yaml");
    reveal_strlit("flutter_rust_bridge.json");
    reveal_strlit("pubspec.yaml");
    let name = CONFIG_FILE_NAMES@[i]@;
    assert(name.last() == 'l' || name.last() == 'n');
    assert(name[1] == 'f' || name[1] == 'l' || name[1] == 'u');
    lemma_not_generated(name);
}

proof fn lemma_not_generated(name: Seq<char>)
    requires
        name.len() > 1,
        name[1] != 'r',
        name.last() != 't',
    ensures
        !generated_name(name),
{
    reveal_strlit("frb_generated");
    reveal_strlit(".freezed.dart");
    reveal_strlit(".g.dart");
    let prefix = "frb_generated"@;
    if prefix.len() <= name.len() {
        assert(name.take(prefix.len() as int)[1] == name[1]);
    }
    let frozen = ".freezed.dart"@;
    if frozen.len() <= name.len() {
        assert(name.skip(name.len() - frozen.len()).last() == name.last());
    }
    let built = ".g.dart"@;
    if built.len() <= name.len() {
        assert(name.skip(name.len() - built.len()).last() == name.last());
    }
}

/// A file next to where config is resolved from, under any name that config is
/// looked up by, is recognized as a config change, unless codegen reported it
/// as an output. The directory has to read like itself without the idle
/// segments at its end.
pub proof fn every_config_name_is_recognized(dir: Seq<u8>, i: int, watch: WatchView)
    requires
        0 <= i < 7,
        dir == watch.base_dir || dir == watch.dart_root,
        reads_same(trimmed_path(dir), watch.base_dir) || reads_same(
            trimmed_path(dir),
            watch.dart_root,
        ),
        !reported_output(joined_path(dir, encode_utf8(CONFIG_FILE_NAMES@[i]@)), watch),
    ensures
        action_for(joined_path(dir, encode_utf8(CONFIG_FILE_NAMES@[i]@)), watch)
            == ChangeAction::ReloadConfig,
{
    let name = CONFIG_FILE_NAMES@[i]@;
    lemma_config_name(i);
    joined_file_has_its_name(dir, name);
    join_adds_one_part(dir, encode_utf8(name));
    assert(config_name(name));
}

/// A manifest at the root of the crate rebuilds without codegen, unless
/// codegen reported it as an output.
pub proof fn manifests_rebuild_without_codegen(name: Seq<char>, watch: WatchView)
    requires
        manifest_name(name),
        !reported_output(joined_path(watch.rust_crate_dir, encode_utf8(name)), watch),
    ensures
        action_for(joined_path(watch.rust_crate_dir, encode_utf8(name)), watch)
            == (ChangeAction::RestartRust { needs_codegen: false }),
{
    let dir = watch.rust_crate_dir;
    reveal_strlit("Cargo.toml");
    reveal_strlit("Cargo.lock");
    reveal_strlit("build.rs");
    joined_file_has_its_name(dir, name);
    join_adds_one_part(dir, encode_utf8(name));
    let path = joined_path(dir, encode_utf8(name));
    assert(parts(path).take(parts(dir).len() as int) =~= parts(dir));
    assert(name.last() == 'l' || name.last() == 'k' || name.last() == 's');
    assert(name[1] == 'a' || name[1] == 'u');
    lemma_not_generated(name);
    assert(!config_name(name)) by {
        reveal_strlit(".flutter_rust_bridge.yml");
        reveal_strlit(".flutter_rust_bridge.yaml");
        reveal_strlit(".flutter_rust_bridge.json");
        reveal_strlit("flutter_rust_bridge.yml");
        reveal_strlit("flutter_rust_bridge.yaml");
        reveal_strlit("flutter_rust_bridge.json");
        reveal_strlit("pubspec.yaml");
        assert forall|i: int| 0 <= i < 7 implies name != #[trigger] CONFIG_FILE_NAMES@[i]@ by {
            assert(CONFIG_FILE_NAMES@[i]@[0] == '.' || CONFIG_FILE_NAMES@[i]@[0] == 'f'
                || CONFIG_FILE_NAMES@[i]@[0] == 'p');
        }
    }
}

proof fn lemma_name_ends_like_extension(path: Seq<u8>, name: Seq<char>, extension: Seq<char>)
    requires
        name_chars(path) == Some(name),
        extension_chars(path) == Some(extension),
        is_ascii_chars(name),
        is_ascii_chars(extension),
        name.len() > 0,
        extension.len() > 0,
    ensures
        name.last() == extension.last(),
{
    let whole = name_bytes(path)->0;
    let end = extension_bytes(path)->0;
    decode_utf8_encode_utf8(whole);
    decode_utf8_encode_utf8(end);
    is_ascii_chars_encode_utf8(name);
    is_ascii_chars_encode_utf8(extension);
    is_ascii_chars_nat_bound(name);
    is_ascii_chars_nat_bound(extension);
    lemma_last_dot(whole);
    assert(end.last() == whole.last());
    assert(whole.last() == name.last() as u8);
    assert(end.last() == extension.last() as u8);
}

/// Any Rust file of the crate re-runs codegen, not just the codegen input,
/// unless it is generated or only steers the build.
pub proof fn every_rust_file_needs_codegen(path: Seq<u8>, name: Seq<char>, watch: WatchView)
    requires
        name_chars(path) == Some(name),
        extension_chars(path) == Some("rs"@),
        is_under(path, watch.rust_crate_dir),
        !manifest_name(name),
        !generated(path, watch),
    ensures
        action_for(path, watch) == (ChangeAction::RestartRust { needs_codegen: true }),
{
    reveal_strlit("rs");
    if config_name(name) {
        let i = choose|i: int| 0 <= i < 7 && name == #[trigger] CONFIG_FILE_NAMES@[i]@;
        lemma_config_name(i);
        lemma_name_ends_like_extension(path, name, "rs"@);
    }
}

/// A Dart source of the app only ever needs a hot reload, unless it is
/// generated.
pub proof fn dart_sources_hot_reload(path: Seq<u8>, watch: WatchView)
    requires
        dart_source(path, watch),
        !generated(path, watch),
    ensures
        action_for(path, watch) == ChangeAction::HotReload,
{
    reveal_strlit("dart");
    reveal_strlit("rs");
    assert("dart"@.len() != "rs"@.len());
    if name_chars(path) is Some {
        let name = name_chars(path)->0;
        if config_name(name) {
            let i = choose|i: int| 0 <= i < 7 && name == #[trigger] CONFIG_FILE_NAMES@[i]@;
            lemma_config_name(i);
            lemma_name_ends_like_extension(path, name, "dart"@);
        }
        if manifest_name(name) {
            reveal_strlit("Cargo.toml");
            reveal_strlit("Cargo.lock");
            reveal_strlit("build.rs");
            lemma_name_ends_like_extension(path, name, "dart"@);
        }
    }
}

/// The order of cost, from doing nothing to reloading the config.
pub proof fn actions_grow_in_cost()
    ensures
        ChangeAction::Ignore.cost() < ChangeAction::HotReload.cost(),
        ChangeAction::HotReload.cost() < (ChangeAction::RestartRust {
            needs_codegen: false,
        }).cost(),
        (ChangeAction::RestartRust { needs_codegen: false }).cost() < (ChangeAction::RestartRust {
            needs_codegen: true,
        }).cost(),
        (ChangeAction::RestartRust { needs_codegen: true }).cost()
            < ChangeAction::ReloadConfig.cost(),
        forall|a: ChangeAction, b: ChangeAction| #[trigger] a.cost() == #[trigger] b.cost() ==> a == b,
{
}

/// The more expensive of two actions is one of them and costs no less than
/// either.
pub proof fn costlier_is_the_greater(a: ChangeAction, b: ChangeAction)
    ensures
        costlier(a, b) == a || costlier(a, b) == b,
        costlier(a, b).cost() >= a.cost(),
        costlier(a, b).cost() >= b.cost(),
{
}

/// Turning slashes changes backslashes and nothing else.
pub proof fn turning_changes_backslashes_only(text: Seq<char>)
    ensures
        forward_slashes(text).len() == text.len(),
        forall|i: int|
            #![trigger text[i]]
            #![trigger forward_slashes(text)[i]]
            0 <= i < text.len() ==> forward_slashes(text)[i] == (if text[i] == '\\' {
                '/'
            } else {
                text[i]
            }),
{
}

/// The prefix that canonicalization adds is taken off once, whatever follows
/// it; what does not begin with it is left whole.
pub proof fn the_verbatim_prefix_comes_off_once(text: Seq<char>)
    ensures
        without_verbatim(seq!['\\', '\\', '?', '\\'] + text) == text,
        !(text.len() >= 4 && text[0] == '\\' && text[1] == '\\' && text[2] == '?' && text[3]
            == '\\') ==> without_verbatim(text) == text,
        normalized(seq!['\\', '\\', '?', '\\'] + text) == normalized(forward_slashes(text)),
{
    let prefix = verbatim_prefix();
    let whole = prefix + text;
    assert(prefix =~= seq!['\\', '\\', '?', '\\']);
    assert(whole.take(4) =~= prefix);
    assert(whole.skip(4) =~= text);
    if has_prefix(text, prefix) {
        assert(text.take(4)[0] == text[0] && text.take(4)[1] == text[1] && text.take(4)[2]
            == text[2] && text.take(4)[3] == text[3]);
    }
    let flat = forward_slashes(text);
    if flat.len() >= 4 {
        assert(flat.take(4)[0] != prefix[0]);
    }
    assert(forward_slashes(flat) =~= flat);
}

/// A path that is written without backslashes and without a slash at its end is
/// compared as it is written, so that two such paths read the same only where
/// they are.
pub proof fn plain_paths_are_compared_as_written(a: Seq<char>, b: Seq<char>)
    requires
        forall|i: int| 0 <= i < a.len() ==> a[i] != '\\',
        forall|i: int| 0 <= i < b.len() ==> b[i] != '\\',
        a.len() > 0 ==> a.last() != '/',
        b.len() > 0 ==> b.last() != '/',
    ensures
        normalized(a) == a,
        reads_same(encode_utf8(a), encode_utf8(b)) <==> a == b,
{
    lemma_plain_is_normal(a);
    lemma_plain_is_normal(b);
    texts_are_read_as_encoded(a, encode_utf8(a), encode_utf8(a));
    texts_are_read_as_encoded(b, encode_utf8(b), encode_utf8(b));
}

proof fn lemma_plain_is_normal(a: Seq<char>)
    requires
        forall|i: int| 0 <= i < a.len() ==> a[i] != '\\',
        a.len() > 0 ==> a.last() != '/',
    ensures
        normalized(a) == a,
{
    if a.len() >= 4 {
        assert(a.take(4)[0] == a[0]);
        assert(a[0] != verbatim_prefix()[0]);
    }
    assert(forward_slashes(a) =~= a);
}

/// What counts as generated: what reads like an output that codegen reported,
/// and what has a name that begins or ends as those of generated files do.
/// Nothing else does.
pub proof fn what_is_generated(path: Seq<u8>, watch: WatchView)
    ensures
        generated(path, watch) <==> ((exists|i: int|
            0 <= i < watch.generated_paths.len() && normalized(
                path_text(#[trigger] watch.generated_paths[i]),
            ) == normalized(path_text(path))) || (exists|rest: Seq<char>|
            name_chars(path) == Some(#[trigger] ("frb_generated"@ + rest))) || (exists|
            start: Seq<char>,
        | name_chars(path) == Some(#[trigger] (start + ".freezed.dart"@))) || (exists|
            start: Seq<char>,
        | name_chars(path) == Some(#[trigger] (start + ".g.dart"@)))),
{
    if reported_output(path, watch) {
        let i = choose|i: int|
            0 <= i < watch.generated_paths.len() && reads_same(
                #[trigger] watch.generated_paths[i],
                path,
            );
        assert(normalized(path_text(watch.generated_paths[i])) == normalized(path_text(path)));
    }
    if exists|i: int|
        0 <= i < watch.generated_paths.len() && normalized(
            path_text(#[trigger] watch.generated_paths[i]),
        ) == normalized(path_text(path)) {
        let i = choose|i: int|
            0 <= i < watch.generated_paths.len() && normalized(
                path_text(#[trigger] watch.generated_paths[i]),
            ) == normalized(path_text(path));
        assert(reads_same(watch.generated_paths[i], path));
    }
    if let Some(name) = name_chars(path) {
        a_prefix_leaves_a_rest(name, "frb_generated"@);
        a_suffix_leaves_a_start(name, ".freezed.dart"@);
        a_suffix_leaves_a_start(name, ".g.dart"@);
    }
}

/// The config is reloaded for exactly these: a file that may hold it, by its
/// name, whose directory reads like the one that config is resolved from or the
/// root of the Dart package. Only generated files are left out. A file of that
/// name elsewhere is somebody else's.
pub proof fn config_is_reloaded_for_config_files(path: Seq<u8>, watch: WatchView)
    ensures
        action_for(path, watch) == ChangeAction::ReloadConfig <==> {
            &&& !generated(path, watch)
            &&& name_chars(path) matches Some(name)
            &&& name == ".flutter_rust_bridge.yml"@ || name == ".flutter_rust_bridge.yaml"@ || name
                == ".flutter_rust_bridge.json"@ || name == "flutter_rust_bridge.yml"@ || name
                == "flutter_rust_bridge.yaml"@ || name == "flutter_rust_bridge.json"@ || name
                == "pubspec.yaml"@
            &&& parent_bytes(path) matches Some(parent)
            &&& normalized(path_text(parent)) == normalized(path_text(watch.base_dir))
                || normalized(path_text(parent)) == normalized(path_text(watch.dart_root))
        },
{
    if let Some(name) = name_chars(path) {
        assert(CONFIG_FILE_NAMES@[0]@ == ".flutter_rust_bridge.yml"@);
        assert(CONFIG_FILE_NAMES@[1]@ == ".flutter_rust_bridge.yaml"@);
        assert(CONFIG_FILE_NAMES@[2]@ == ".flutter_rust_bridge.json"@);
        assert(CONFIG_FILE_NAMES@[3]@ == "flutter_rust_bridge.yml"@);
        assert(CONFIG_FILE_NAMES@[4]@ == "flutter_rust_bridge.yaml"@);
        assert(CONFIG_FILE_NAMES@[5]@ == "flutter_rust_bridge.json"@);
        assert(CONFIG_FILE_NAMES@[6]@ == "pubspec.yaml"@);
    }
}

/// Rust is rebuilt without codegen for exactly these: the files that say how
/// the crate is built, by their names, anywhere in the crate, unless they are
/// generated.
pub proof fn rust_is_rebuilt_for_manifests(path: Seq<u8>, watch: WatchView)
    ensures
        action_for(path, watch) == (ChangeAction::RestartRust { needs_codegen: false }) <==> {
            &&& !generated(path, watch)
            &&& name_chars(path) matches Some(name)
            &&& name == "Cargo.toml"@ || name == "Cargo.lock"@ || name == "build.rs"@
            &&& is_under(path, watch.rust_crate_dir)
        },
{
    if let Some(name) = name_chars(path) {
        if manifest_name(name) {
            lemma_manifest_is_no_config(name);
        }
    }
}

proof fn lemma_manifest_is_no_config(name: Seq<char>)
    requires
        manifest_name(name),
    ensures
        !config_name(name),
{
    reveal_strlit("Cargo.toml");
    reveal_strlit("Cargo.lock");
    reveal_strlit("build.rs");
    reveal_strlit(".flutter_rust_bridge.yml");
    reveal_strlit(".flutter_rust_bridge.yaml");
    reveal_strlit(".flutter_rust_bridge.json");
    reveal_strlit("flutter_rust_bridge.yml");
    reveal_strlit("flutter_rust_bridge.yaml");
    reveal_strlit("flutter_rust_bridge.json");
    reveal_strlit("pubspec.yaml");
    assert forall|i: int| 0 <= i < 7 implies name != #[trigger] CONFIG_FILE_NAMES@[i]@ by {
        assert(CONFIG_FILE_NAMES@[i]@[0] == '.' || CONFIG_FILE_NAMES@[i]@[0] == 'f'
            || CONFIG_FILE_NAMES@[i]@[0] == 'p');
    }
}

/// Rust is rebuilt with codegen for exactly these: the Rust sources anywhere in
/// the crate, unless they are generated or only say how the crate is built.
pub proof fn rust_is_rebuilt_with_codegen_for_sources(path: Seq<u8>, watch: WatchView)
    ensures
        action_for(path, watch) == (ChangeAction::RestartRust { needs_codegen: true }) <==> {
            &&& !generated(path, watch)
            &&& name_chars(path) matches Some(name)
            &&& name != "Cargo.toml"@ && name != "Cargo.lock"@ && name != "build.rs"@
            &&& extension_chars(path) == Some("rs"@)
            &&& is_under(path, watch.rust_crate_dir)
        },
{
    if let Some(name) = name_chars(path) {
        if extension_chars(path) == Some("rs"@) && is_under(path, watch.rust_crate_dir)
            && !manifest_name(name) && !generated(path, watch) {
            every_rust_file_needs_codegen(path, name, watch);
        }
    }
}

/// The app is hot reloaded for exactly these: the Dart files at any depth below
/// `lib` in the root of the Dart package, unless they are generated.
pub proof fn the_app_is_reloaded_for_dart_sources(path: Seq<u8>, watch: WatchView)
    ensures
        action_for(path, watch) == ChangeAction::HotReload <==> {
            &&& !generated(path, watch)
            &&& extension_chars(path) == Some("dart"@)
            &&& is_under(path, joined_path(watch.dart_root, encode_utf8("lib"@)))
        },
{
    if extension_chars(path) == Some("dart"@) && is_under(
        path,
        joined_path(watch.dart_root, encode_utf8("lib"@)),
    ) && !generated(path, watch) {
        dart_sources_hot_reload(path, watch);
    }
}

/// A Dart file hot reloads wherever its directory lies in `lib`: directly, or
/// below directories there.
pub proof fn depth_does_not_matter_for_dart_sources(
    dir: Seq<u8>,
    stem: Seq<u8>,
    watch: WatchView,
)
    requires
        is_under(dir, joined_path(watch.dart_root, encode_utf8("lib"@))),
        stem.len() > 0,
        forall|i: int| 0 <= i < stem.len() ==> stem[i] != SLASH,
        !generated(joined_path(dir, stem.push(0x2e) + encode_utf8("dart"@)), watch),
    ensures
        action_for(joined_path(dir, stem.push(0x2e) + encode_utf8("dart"@)), watch)
            == ChangeAction::HotReload,
{
    let end = encode_utf8("dart"@);
    let name = stem.push(0x2e) + end;
    let path = joined_path(dir, name);
    reveal_strlit("dart");
    is_ascii_chars_encode_utf8("dart"@);
    assert(end.len() == 4);
    assert(end[0] == 'd' as u8 && end[1] == 'a' as u8 && end[2] == 'r' as u8 && end[3] == 't' as u8);
    assert(is_plain(name)) by {
        assert forall|i: int| 0 <= i < name.len() implies name[i] != SLASH by {
            if i > stem.len() {
                assert(name[i] == end[i - stem.len() - 1]);
            }
        }
        assert(name.len() != current_part().len());
    }
    joined_files_stay_below(joined_path(watch.dart_root, encode_utf8("lib"@)), dir, name);
    the_name_is_the_last_part(dir, name, path);
    assert(name.len() != seq![0x2eu8, 0x2eu8].len());
    the_extension_follows_the_last_dot(path, stem, end);
    texts_are_read_as_encoded("dart"@, end, path);
    the_app_is_reloaded_for_dart_sources(path, watch);
}

/// What is needed to classify changes shows what it holds.
pub proof fn watch_paths_show_what_they_hold(watch: WatchPaths, i: int)
    ensures
        watch@.base_dir == watch.base_dir@,
        watch@.rust_crate_dir == watch.rust_crate_dir@,
        watch@.dart_root == watch.dart_root@,
        watch@.generated_paths.len() == watch.generated_paths@.len(),
        0 <= i < watch.generated_paths@.len() ==> watch@.generated_paths[i]
            == watch.generated_paths@[i]@,
{
}

} // verus!
