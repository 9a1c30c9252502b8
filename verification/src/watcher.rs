//! What to watch for changes that should re-run the app.

use crate::change_kind::{
    action_for, dart_lib, every_rust_file_needs_codegen, generated, joined_file_has_its_name,
    manifest_name, the_app_is_reloaded_for_dart_sources, ChangeAction, WatchPaths, WatchView,
    CONFIG_FILE_NAMES,
};
use crate::path::{
    extension_chars, holds_path, is_under, join_adds_one_part, joined_path, name_chars, parts,
    same_path, unique, unique_keeps_each_path_once, unique_paths, FilePath,
};
use vstd::prelude::*;
use vstd::utf8::*;

verus! {

/// How long changes are collected before they are reported, in milliseconds.
/// Small enough to feel instant, large enough to coalesce the bursts editors
/// emit when saving.
pub const DEBOUNCE_MILLIS: u64 = 300;

/// The directory with the Rust sources.
pub open spec fn rust_src(watch: WatchView) -> Seq<u8> {
    joined_path(watch.rust_crate_dir, encode_utf8("src"@))
}

/// The directories that are watched with everything below them. All of the
/// crate's `src`, not just the codegen input: a struct definition in a non-input
/// file can still change the generated code.
pub fn watch_dirs(watch: &WatchPaths) -> (dirs: Vec<FilePath>)
    ensures
        dirs.deep_view() == seq![rust_src(watch@), dart_lib(watch@)],
{
    let mut dirs: Vec<FilePath> = Vec::new();
    dirs.push(watch.rust_crate_dir.join("src"));
    dirs.push(watch.dart_root.join("lib"));
    assert(dirs.deep_view() =~= seq![rust_src(watch@), dart_lib(watch@)]);
    dirs
}

/// The places inside `dir` where a config may be.
pub open spec fn config_places(dir: Seq<u8>) -> Seq<Seq<u8>> {
    Seq::new(7, |i: int| joined_path(dir, encode_utf8(CONFIG_FILE_NAMES@[i]@)))
}

/// Where a config may be and what says how the crate is built, with
/// repetitions.
pub open spec fn config_candidates(watch: WatchView) -> Seq<Seq<u8>> {
    config_places(watch.base_dir) + config_places(watch.dart_root) + config_places(
        watch.rust_crate_dir,
    ) + seq![
        joined_path(watch.rust_crate_dir, encode_utf8("Cargo.toml"@)),
        joined_path(watch.rust_crate_dir, encode_utf8("build.rs"@)),
    ]
}

/// The file at the root of the crate that pins what is built with it.
pub open spec fn lock_file(watch: WatchView) -> Seq<u8> {
    joined_path(watch.rust_crate_dir, encode_utf8("Cargo.lock"@))
}

/// Every single file that is watched: each once, and in order.
pub open spec fn watched_paths(watch: WatchView) -> Seq<Seq<u8>> {
    unique(config_candidates(watch).push(lock_file(watch)))
}

fn push_config_places(dir: &FilePath, files: &mut Vec<FilePath>)
    ensures
        final(files).deep_view() == old(files).deep_view() + config_places(dir@),
{
    let ghost before = files.deep_view();
    for i in 0..7usize
        invariant
            files.deep_view() == before + config_places(dir@).take(i as int),
    {
        let ghost now = files.deep_view();
        let place = dir.join(CONFIG_FILE_NAMES[i]);
        files.push(place);
        assert(files.deep_view() =~= now.push(place@));
        assert(config_places(dir@).take(i + 1) =~= config_places(dir@).take(i as int).push(place@));
        assert(files.deep_view() =~= before + config_places(dir@).take(i + 1));
    }
    assert(config_places(dir@).take(7) =~= config_places(dir@));
}

/// Where a config may be and what says how the crate is built, with
/// repetitions.
fn candidates(watch: &WatchPaths) -> (files: Vec<FilePath>)
    ensures
        files.deep_view() == config_candidates(watch@),
{
    let mut files: Vec<FilePath> = Vec::new();
    push_config_places(&watch.base_dir, &mut files);
    push_config_places(&watch.dart_root, &mut files);
    push_config_places(&watch.rust_crate_dir, &mut files);
    // Cargo.toml / build.rs live at the crate root rather than under `src`, so
    // they need explicit entries too.
    files.push(watch.rust_crate_dir.join("Cargo.toml"));
    files.push(watch.rust_crate_dir.join("build.rs"));
    assert(files.deep_view() =~= config_candidates(watch@));
    files
}

/// Every path the config could be read from, and the files at the root of the
/// crate that say how it is built. Each is listed once.
pub fn config_files(watch: &WatchPaths) -> (files: Vec<FilePath>)
    ensures
        files.deep_view() == unique(config_candidates(watch@)),
{
    unique_paths(candidates(watch).as_slice())
}

/// The file at the root of the crate that pins what is built with it. A change
/// of it changes the app as much as one of the manifest does.
pub fn manifest_files(watch: &WatchPaths) -> (files: Vec<FilePath>)
    ensures
        files.deep_view() == seq![lock_file(watch@)],
{
    let mut files: Vec<FilePath> = Vec::new();
    files.push(watch.rust_crate_dir.join("Cargo.lock"));
    assert(files.deep_view() =~= seq![lock_file(watch@)]);
    files
}

/// Every single file that is watched: the config files and the manifest files,
/// each once.
pub fn watched_files(watch: &WatchPaths) -> (files: Vec<FilePath>)
    ensures
        files.deep_view() == watched_paths(watch@),
{
    let mut files = candidates(watch);
    let ghost before = files.deep_view();
    let mut manifests = manifest_files(watch);
    let ghost more = manifests.deep_view();
    files.append(&mut manifests);
    assert(files.deep_view() =~= before + more);
    assert(files.deep_view() =~= config_candidates(watch@).push(lock_file(watch@)));
    unique_paths(files.as_slice())
}

/// Whether a path that should be watched is there.
#[derive(Debug)]
pub struct Probe {
    pub path: FilePath,
    /// For a directory, whether it is one; for a file, whether it is one.
    pub found: bool,
}

/// A path to watch.
#[derive(Debug)]
pub struct WatchTarget {
    pub path: FilePath,
    /// Whether everything below the path is watched too.
    pub recursive: bool,
}

impl View for Probe {
    type V = (Seq<u8>, bool);

    open spec fn view(&self) -> (Seq<u8>, bool) {
        (self.path@, self.found)
    }
}

impl DeepView for Probe {
    type V = (Seq<u8>, bool);

    open spec fn deep_view(&self) -> (Seq<u8>, bool) {
        self@
    }
}

impl View for WatchTarget {
    type V = (Seq<u8>, bool);

    open spec fn view(&self) -> (Seq<u8>, bool) {
        (self.path@, self.recursive)
    }
}

impl DeepView for WatchTarget {
    type V = (Seq<u8>, bool);

    open spec fn deep_view(&self) -> (Seq<u8>, bool) {
        self@
    }
}

/// The targets for those of `probes` that are there, in order.
pub open spec fn targets(probes: Seq<(Seq<u8>, bool)>, recursive: bool) -> Seq<(Seq<u8>, bool)>
    decreases probes.len(),
{
    if probes.len() == 0 {
        Seq::empty()
    } else if probes.last().1 {
        targets(probes.drop_last(), recursive).push((probes.last().0, recursive))
    } else {
        targets(probes.drop_last(), recursive)
    }
}

fn push_targets(probes: &[Probe], recursive: bool, found: &mut Vec<WatchTarget>)
    ensures
        final(found).deep_view() == old(found).deep_view() + targets(probes.deep_view(), recursive),
{
    let ghost before = found.deep_view();
    let ghost all = probes.deep_view();
    assert(found.deep_view() =~= before + targets(all.take(0), recursive));
    for i in 0..probes.len()
        invariant
            all == probes.deep_view(),
            found.deep_view() == before + targets(all.take(i as int), recursive),
    {
        assert(all.take(i + 1).drop_last() =~= all.take(i as int));
        let ghost now = found.deep_view();
        if probes[i].found {
            found.push(WatchTarget { path: probes[i].path.clone(), recursive });
            assert(found.deep_view() =~= now.push((all[i as int].0, recursive)));
        }
        assert(found.deep_view() =~= before + targets(all.take(i + 1), recursive));
    }
    assert(all.take(probes@.len() as int) =~= all);
}

/// What to watch: the directories that exist, with everything below them, and
/// then the single files that exist. Those are watched individually rather than
/// by watching their parent directory, which would drown us in events from
/// sibling files.
pub fn watch_targets(dirs: &[Probe], files: &[Probe]) -> (found: Vec<WatchTarget>)
    ensures
        found.deep_view() == targets(dirs.deep_view(), true) + targets(files.deep_view(), false),
{
    let mut found: Vec<WatchTarget> = Vec::new();
    push_targets(dirs, true, &mut found);
    push_targets(files, false, &mut found);
    assert(found.deep_view() =~= targets(dirs.deep_view(), true) + targets(
        files.deep_view(),
        false,
    ));
    found
}

/// Which changed paths to report of what the watcher delivered: all of them,
/// unless it failed or there are none.
pub fn changes_to_report<E>(delivered: Result<Vec<FilePath>, E>) -> (report: Option<Vec<FilePath>>)
    ensures
        report == (match delivered {
            Ok(paths) => if paths@.len() > 0 {
                Some(paths)
            } else {
                None
            },
            Err(_) => None,
        }),
{
    match delivered {
        Ok(paths) => if paths.len() > 0 {
            Some(paths)
        } else {
            None
        },
        Err(_) => None,
    }
}

/// Every place that a config is looked up in is among the watched files.
pub proof fn every_config_place_is_watched(watch: WatchView, dir: Seq<u8>, i: int)
    requires
        dir == watch.base_dir || dir == watch.dart_root || dir == watch.rust_crate_dir,
        0 <= i < 7,
    ensures
        holds_path(
            watched_paths(watch),
            joined_path(dir, encode_utf8(CONFIG_FILE_NAMES@[i]@)),
        ),
{
    let all = config_candidates(watch).push(lock_file(watch));
    let place = joined_path(dir, encode_utf8(CONFIG_FILE_NAMES@[i]@));
    unique_keeps_each_path_once(all);
    let at = if dir == watch.base_dir {
        i
    } else if dir == watch.dart_root {
        7 + i
    } else {
        14 + i
    };
    assert(all[at] == place);
    assert(same_path(all[at], place));
}

/// Every file at the root of the crate whose change rebuilds it is among the
/// watched files.
pub proof fn every_manifest_is_watched(watch: WatchView, name: Seq<char>)
    requires
        manifest_name(name),
    ensures
        holds_path(watched_paths(watch), joined_path(watch.rust_crate_dir, encode_utf8(name))),
{
    let all = config_candidates(watch).push(lock_file(watch));
    let place = joined_path(watch.rust_crate_dir, encode_utf8(name));
    unique_keeps_each_path_once(all);
    let at: int = if name == "Cargo.toml"@ {
        21
    } else if name == "build.rs"@ {
        22
    } else {
        23
    };
    assert(all[at] == place);
    assert(same_path(all[at], place));
}

/// No file is watched twice.
pub proof fn no_file_is_watched_twice(watch: WatchView, i: int, j: int)
    requires
        0 <= i < j < watched_paths(watch).len(),
    ensures
        !same_path(watched_paths(watch)[i], watched_paths(watch)[j]),
{
    unique_keeps_each_path_once(config_candidates(watch).push(lock_file(watch)));
}

/// The paths that were looked for.
pub open spec fn probed(probes: Seq<(Seq<u8>, bool)>) -> Seq<Seq<u8>> {
    Seq::new(probes.len(), |i: int| probes[i].0)
}

/// What is watched is what was looked for and is there, and nothing else.
pub proof fn targets_are_what_was_found(
    probes: Seq<(Seq<u8>, bool)>,
    recursive: bool,
    path: Seq<u8>,
    below: bool,
)
    ensures
        targets(probes, recursive).contains((path, below)) <==> below == recursive
            && probes.contains((path, true)),
    decreases probes.len(),
{
    let all = targets(probes, recursive);
    if probes.len() > 0 {
        let rest = probes.drop_last();
        let last = probes.last();
        let kept = targets(rest, recursive);
        targets_are_what_was_found(rest, recursive, path, below);
        assert(probes =~= rest.push(last));
        if probes.contains((path, true)) && !rest.contains((path, true)) {
            let i = choose|i: int| 0 <= i < probes.len() && probes[i] == (path, true);
            assert(i == rest.len() || rest[i] == probes[i]);
        }
        if rest.contains((path, true)) {
            let i = choose|i: int| 0 <= i < rest.len() && rest[i] == (path, true);
            assert(probes[i] == (path, true));
        }
        if last == (path, true) {
            assert(probes[rest.len() as int] == (path, true));
        }
        if kept.contains((path, below)) {
            let i = choose|i: int| 0 <= i < kept.len() && kept[i] == (path, below);
            assert(all[i] == (path, below));
        }
        if all.contains((path, below)) && !kept.contains((path, below)) {
            let i = choose|i: int| 0 <= i < all.len() && all[i] == (path, below);
            assert(i == kept.len() || kept[i] == all[i]);
        }
        if last.1 && last.0 == path && below == recursive {
            assert(all[kept.len() as int] == (path, below));
        }
    }
}

/// A file at the root of the crate whose change rebuilds it is watched wherever
/// it exists: `files` says which of the files to watch are there.
pub proof fn existing_manifests_are_watched(
    watch: WatchView,
    name: Seq<char>,
    dirs: Seq<(Seq<u8>, bool)>,
    files: Seq<(Seq<u8>, bool)>,
)
    requires
        manifest_name(name),
        probed(files) == watched_paths(watch),
        forall|i: int|
            0 <= i < files.len() && same_path(
                #[trigger] files[i].0,
                joined_path(watch.rust_crate_dir, encode_utf8(name)),
            ) ==> files[i].1,
    ensures
        exists|path: Seq<u8>|
            same_path(path, joined_path(watch.rust_crate_dir, encode_utf8(name)))
                && #[trigger] (targets(dirs, true) + targets(files, false)).contains((path, false)),
{
    let place = joined_path(watch.rust_crate_dir, encode_utf8(name));
    every_manifest_is_watched(watch, name);
    let i = choose|i: int|
        0 <= i < watched_paths(watch).len() && same_path(#[trigger] watched_paths(watch)[i], place);
    assert(probed(files)[i] == files[i].0);
    let path = files[i].0;
    assert(files[i] == (path, true));
    targets_are_what_was_found(files, false, path, false);
    let kept = targets(files, false);
    let before = targets(dirs, true);
    let j = choose|j: int| 0 <= j < kept.len() && kept[j] == (path, false);
    assert((before + kept)[before.len() + j] == (path, false));
    assert((before + kept).contains((path, false)));
    assert(same_path(path, place));
}

/// What changes below the watched Rust sources re-runs codegen, unless it is
/// generated or only steers the build.
pub proof fn watched_rust_sources_need_codegen(path: Seq<u8>, name: Seq<char>, watch: WatchView)
    requires
        is_under(path, rust_src(watch)),
        name_chars(path) == Some(name),
        extension_chars(path) == Some("rs"@),
        !manifest_name(name),
        !generated(path, watch),
    ensures
        action_for(path, watch) == (ChangeAction::RestartRust { needs_codegen: true }),
{
    let dir = watch.rust_crate_dir;
    reveal_strlit("src");
    joined_file_has_its_name(dir, "src"@);
    join_adds_one_part(dir, encode_utf8("src"@));
    let all = parts(path);
    let above = parts(dir);
    let base = parts(rust_src(watch));
    assert(all.take(above.len() as int) =~= all.take(base.len() as int).take(above.len() as int));
    assert(base.take(above.len() as int) =~= above);
    every_rust_file_needs_codegen(path, name, watch);
}

/// What is watched with everything below it are the sources of the crate and
/// those of the Dart package, and every change that hot reloads lies there.
pub proof fn sources_are_watched(watch: WatchView, path: Seq<u8>)
    ensures
        parts(rust_src(watch)) == parts(watch.rust_crate_dir).push(encode_utf8("src"@)),
        parts(dart_lib(watch)) == parts(watch.dart_root).push(encode_utf8("lib"@)),
        action_for(path, watch) == ChangeAction::HotReload ==> is_under(path, dart_lib(watch)),
        is_under(path, joined_path(watch.rust_crate_dir, encode_utf8("src"@))) ==> is_under(
            path,
            rust_src(watch),
        ),
{
    reveal_strlit("src");
    reveal_strlit("lib");
    joined_file_has_its_name(watch.rust_crate_dir, "src"@);
    joined_file_has_its_name(watch.dart_root, "lib"@);
    join_adds_one_part(watch.rust_crate_dir, encode_utf8("src"@));
    join_adds_one_part(watch.dart_root, encode_utf8("lib"@));
    the_app_is_reloaded_for_dart_sources(path, watch);
}

/// No single file is watched but where a config may be and what says how the
/// crate is built.
pub proof fn nothing_else_is_watched(watch: WatchView, i: int)
    requires
        0 <= i < watched_paths(watch).len(),
    ensures
        ({
            let path = watched_paths(watch)[i];
            ||| exists|k: int|
                0 <= k < 7 && (path == joined_path(
                    watch.base_dir,
                    encode_utf8(#[trigger] CONFIG_FILE_NAMES@[k]@),
                ) || path == joined_path(watch.dart_root, encode_utf8(CONFIG_FILE_NAMES@[k]@))
                    || path == joined_path(
                    watch.rust_crate_dir,
                    encode_utf8(CONFIG_FILE_NAMES@[k]@),
                ))
            ||| path == joined_path(watch.rust_crate_dir, encode_utf8("Cargo.toml"@))
            ||| path == joined_path(watch.rust_crate_dir, encode_utf8("build.rs"@))
            ||| path == joined_path(watch.rust_crate_dir, encode_utf8("Cargo.lock"@))
        }),
{
    let all = config_candidates(watch).push(lock_file(watch));
    unique_keeps_each_path_once(all);
    let path = watched_paths(watch)[i];
    assert(all.contains(path));
    let at = choose|at: int| 0 <= at < all.len() && all[at] == path;
    assert(all.len() == 24);
    if at < 21 {
        let k = if at < 7 {
            at
        } else if at < 14 {
            at - 7
        } else {
            at - 14
        };
        let name = CONFIG_FILE_NAMES@[k]@;
        if at < 7 {
            assert(path == joined_path(watch.base_dir, encode_utf8(name)));
        } else if at < 14 {
            assert(path == joined_path(watch.dart_root, encode_utf8(name)));
        } else {
            assert(path == joined_path(watch.rust_crate_dir, encode_utf8(name)));
        }
    }
}

/// The files where a config may be hold every such place and both files that
/// say how the crate is built.
pub proof fn config_files_hold_every_place(watch: WatchView, dir: Seq<u8>, i: int)
    requires
        dir == watch.base_dir || dir == watch.dart_root || dir == watch.rust_crate_dir,
        0 <= i < 7,
    ensures
        holds_path(
            unique(config_candidates(watch)),
            joined_path(dir, encode_utf8(CONFIG_FILE_NAMES@[i]@)),
        ),
        holds_path(
            unique(config_candidates(watch)),
            joined_path(watch.rust_crate_dir, encode_utf8("Cargo.toml"@)),
        ),
        holds_path(
            unique(config_candidates(watch)),
            joined_path(watch.rust_crate_dir, encode_utf8("build.rs"@)),
        ),
{
    let all = config_candidates(watch);
    let place = joined_path(dir, encode_utf8(CONFIG_FILE_NAMES@[i]@));
    unique_keeps_each_path_once(all);
    let at = if dir == watch.base_dir {
        i
    } else if dir == watch.dart_root {
        7 + i
    } else {
        14 + i
    };
    assert(all[at] == place);
    assert(same_path(all[at], place));
    assert(same_path(all[21], joined_path(watch.rust_crate_dir, encode_utf8("Cargo.toml"@))));
    assert(same_path(all[22], joined_path(watch.rust_crate_dir, encode_utf8("build.rs"@))));
}

/// The targets of two lists are those of one and then those of the other, and
/// one path gives a target exactly where it is there.
pub proof fn targets_keep_the_order(
    a: Seq<(Seq<u8>, bool)>,
    b: Seq<(Seq<u8>, bool)>,
    path: Seq<u8>,
    found: bool,
    recursive: bool,
)
    ensures
        targets(a + b, recursive) == targets(a, recursive) + targets(b, recursive),
        targets(seq![(path, found)], recursive) == (if found {
            seq![(path, recursive)]
        } else {
            Seq::empty()
        }),
    decreases b.len(),
{
    let one = seq![(path, found)];
    assert(one.drop_last() =~= Seq::<(Seq<u8>, bool)>::empty());
    assert(targets(one.drop_last(), recursive) =~= Seq::empty());
    if found {
        assert(targets(one, recursive) =~= seq![(path, recursive)]);
    }
    if b.len() == 0 {
        assert(a + b =~= a);
    } else {
        assert((a + b).drop_last() =~= a + b.drop_last());
        targets_keep_the_order(a, b.drop_last(), path, found, recursive);
    }
    assert(targets(a + b, recursive) =~= targets(a, recursive) + targets(b, recursive));
}

/// Changes are collected for less than a third of a second.
pub proof fn changes_are_reported_soon()
    ensures
        DEBOUNCE_MILLIS == 300,
{
}

/// What was looked for and what is watched show what they hold.
pub proof fn probes_show_what_they_hold(probe: Probe, target: WatchTarget)
    ensures
        probe@.0 == probe.path@,
        probe@.1 == probe.found,
        target@.0 == target.path@,
        target@.1 == target.recursive,
{
}

} // verus!
