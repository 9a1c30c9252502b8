//! Re-run codegen and rebuild the Rust crate.

use crate::path::{joined_path, system_chars, FilePath};
use crate::text::{join_texts, joined};
use vstd::prelude::*;
use vstd::string::*;
use vstd::utf8::*;

verus! {

/// A run of codegen.
#[derive(Debug)]
pub struct CodegenRun<C, F> {
    pub config: C,
    /// Whether codegen watches for changes itself.
    pub watch: bool,
    pub fvm_install_mode: F,
}

/// Run codegen once, without the watch loop (we own the watching here).
pub fn run_codegen<C, F>(config: C, fvm_install_mode: F) -> (run: CodegenRun<C, F>)
    ensures
        run == (CodegenRun { config, watch: false, fvm_install_mode }),
{
    CodegenRun { config, watch: false, fvm_install_mode }
}

/// Why the crate could not be checked.
#[derive(Debug, Clone, Copy, PartialEq, Eq, Structural)]
pub enum CheckError {
    /// The path of the manifest is not UTF-8, so it cannot be an argument.
    PathIsNoText,
    /// `cargo check` reported errors.
    CheckFailed,
}

impl CheckError {
    /// The error in words.
    pub open spec fn words(self) -> Seq<char> {
        match self {
            CheckError::PathIsNoText => "the path of the manifest is not UTF-8"@,
            CheckError::CheckFailed => "`cargo check` failed; keeping the current app running"@,
        }
    }

    /// Puts the error in words.
    pub fn message(self) -> (text: &'static str)
        ensures
            text@ == self.words(),
    {
        match self {
            CheckError::PathIsNoText => "the path of the manifest is not UTF-8",
            CheckError::CheckFailed => "`cargo check` failed; keeping the current app running",
        }
    }
}

/// The path of the crate's manifest.
pub open spec fn manifest_path(rust_crate_dir: Seq<u8>) -> Seq<u8> {
    joined_path(rust_crate_dir, encode_utf8("Cargo.toml"@))
}

/// The command that checks the crate whose manifest is at `manifest`. Features
/// are named only where there are some.
pub open spec fn check_argv(
    manifest: Seq<char>,
    features: Option<Seq<Seq<char>>>,
) -> Seq<Seq<char>> {
    seq!["cargo"@, "check"@, "--manifest-path"@, manifest] + (match features {
        Some(names) => if names.len() > 0 {
            seq!["--features"@, joined(names, ","@)]
        } else {
            Seq::empty()
        },
        None => Seq::empty(),
    })
}

/// The command that compiles the crate to surface errors before we tear the app
/// down.
///
/// `flutter run` would build it again anyway, but doing it first means a Rust
/// compile error costs a few seconds instead of a full stop-and-restart cycle,
/// and the second build hits the cargo cache.
///
/// The manifest is named as the system spells its path.
pub fn cargo_check(
    rust_crate_dir: &FilePath,
    windows: bool,
    rust_features: Option<&[String]>,
) -> (argv: Result<Vec<String>, CheckError>)
    ensures
        match system_chars(manifest_path(rust_crate_dir@), windows) {
            Some(manifest) => argv matches Ok(words) && words.deep_view() == check_argv(
                manifest,
                rust_features.deep_view(),
            ),
            None => argv == Err::<Vec<String>, CheckError>(CheckError::PathIsNoText),
        },
{
    let manifest = match rust_crate_dir.join("Cargo.toml").system_text(windows) {
        Some(text) => text,
        None => return Err(CheckError::PathIsNoText),
    };
    let ghost place = manifest@;
    let mut argv: Vec<String> = Vec::new();
    argv.push("cargo".to_owned());
    argv.push("check".to_owned());
    argv.push("--manifest-path".to_owned());
    argv.push(manifest);
    if let Some(features) = rust_features {
        if features.len() > 0 {
            argv.push("--features".to_owned());
            argv.push(join_texts(features, ","));
        }
    }
    assert(argv.deep_view() =~= check_argv(place, rust_features.deep_view()));
    Ok(argv)
}

/// What the exit of `cargo check` means.
pub fn cargo_checked(success: bool) -> (result: Result<(), CheckError>)
    ensures
        result == (if success {
            Ok::<(), CheckError>(())
        } else {
            Err::<(), CheckError>(CheckError::CheckFailed)
        }),
{
    if success {
        Ok(())
    } else {
        Err(CheckError::CheckFailed)
    }
}

/// A part of rebuilding.
#[derive(Debug, Clone, Copy, PartialEq, Eq, Structural)]
pub enum RebuildTask {
    /// Read the codegen config afresh.
    LoadConfig,
    /// Run codegen with that config.
    Codegen,
    /// Check that the crate compiles.
    Check,
}

/// What to do next about a rebuild.
#[derive(Debug)]
pub enum RebuildStep<E> {
    /// Do this, and report what came of it.
    Do(RebuildTask),
    /// Everything is ready: restart the process.
    Restart,
    /// The build failed, for the reason given, and the old app is still usable:
    /// a compile error should cost a few seconds, not the whole session.
    KeepRunning(E),
    /// There is no config to build with, for the reason given.
    Abort(E),
}

/// The step that a rebuild begins with.
pub open spec fn first_step<E>(no_check: bool, needs_codegen: bool) -> RebuildStep<E> {
    if needs_codegen {
        RebuildStep::Do(RebuildTask::LoadConfig)
    } else {
        after_codegen(no_check)
    }
}

/// Begins what a Rust-side change needs before the app can be restarted.
/// Without `no_check` that ends with the compile gate.
pub fn prepare_restart<E>(no_check: bool, needs_codegen: bool) -> (step: RebuildStep<E>)
    ensures
        step == first_step::<E>(no_check, needs_codegen),
{
    if needs_codegen {
        RebuildStep::Do(RebuildTask::LoadConfig)
    } else {
        skip_to_check(no_check)
    }
}

/// What follows codegen: the compile gate, if there is one.
pub open spec fn after_codegen<E>(no_check: bool) -> RebuildStep<E> {
    if no_check {
        RebuildStep::Restart
    } else {
        RebuildStep::Do(RebuildTask::Check)
    }
}

fn skip_to_check<E>(no_check: bool) -> (step: RebuildStep<E>)
    ensures
        step == after_codegen::<E>(no_check),
{
    if no_check {
        RebuildStep::Restart
    } else {
        RebuildStep::Do(RebuildTask::Check)
    }
}

/// What follows a task.
pub open spec fn after_task<E>(
    no_check: bool,
    task: RebuildTask,
    result: Result<(), E>,
) -> RebuildStep<E> {
    match (task, result) {
        (RebuildTask::LoadConfig, Ok(_)) => RebuildStep::Do(RebuildTask::Codegen),
        (RebuildTask::Codegen, Ok(_)) => after_codegen(no_check),
        (RebuildTask::Check, Ok(_)) => RebuildStep::Restart,
        (RebuildTask::LoadConfig, Err(why)) => if no_check {
            RebuildStep::Abort(why)
        } else {
            RebuildStep::KeepRunning(why)
        },
        (_, Err(why)) => RebuildStep::KeepRunning(why),
    }
}

/// Goes on with a rebuild once a task is done.
pub fn rebuild<E>(no_check: bool, task: RebuildTask, result: Result<(), E>) -> (step: RebuildStep<
    E,
>)
    ensures
        step == after_task(no_check, task, result),
{
    match result {
        Ok(_) => match task {
            RebuildTask::LoadConfig => RebuildStep::Do(RebuildTask::Codegen),
            RebuildTask::Codegen => skip_to_check(no_check),
            RebuildTask::Check => RebuildStep::Restart,
        },
        Err(why) => match task {
            RebuildTask::LoadConfig => if no_check {
                RebuildStep::Abort(why)
            } else {
                RebuildStep::KeepRunning(why)
            },
            _ => RebuildStep::KeepRunning(why),
        },
    }
}

/// What a rebuild that has come to `step` ended with, if it ended: whether the
/// process should be restarted, or why it was given up.
pub open spec fn end_of<E>(step: RebuildStep<E>) -> Option<Result<bool, E>> {
    match step {
        RebuildStep::Do(_) => None,
        RebuildStep::Restart => Some(Ok(true)),
        RebuildStep::KeepRunning(_) => Some(Ok(false)),
        RebuildStep::Abort(why) => Some(Err(why)),
    }
}

/// What a rebuild ended with, if it ended: whether the process should be
/// restarted, or why it was given up.
pub fn rebuilt<E>(step: RebuildStep<E>) -> (end: Option<Result<bool, E>>)
    ensures
        end == end_of(step),
{
    match step {
        RebuildStep::Do(_) => None,
        RebuildStep::Restart => Some(Ok(true)),
        RebuildStep::KeepRunning(_) => Some(Ok(false)),
        RebuildStep::Abort(why) => Some(Err(why)),
    }
}

/// What is said before a task, if anything is. Only a rebuild with the compile
/// gate speaks of its parts.
pub fn task_notice(no_check: bool, task: RebuildTask) -> (notice: Option<&'static str>)
    ensures
        match notice {
            Some(text) => !no_check && task_words(task) == Some(text@),
            None => no_check || task_words(task) is None,
        },
{
    if no_check {
        return None;
    }
    match task {
        RebuildTask::LoadConfig => Some("Running code generation..."),
        RebuildTask::Codegen => None,
        RebuildTask::Check => Some("Checking Rust..."),
    }
}

/// What announces a task.
pub open spec fn task_words(task: RebuildTask) -> Option<Seq<char>> {
    match task {
        RebuildTask::LoadConfig => Some("Running code generation..."@),
        RebuildTask::Codegen => None,
        RebuildTask::Check => Some("Checking Rust..."@),
    }
}

/// What announces a rebuild.
pub const REBUILD_NOTICE: &'static str = "Rust changed, rebuilding...";

/// What announces the restart after it.
pub const RESTART_NOTICE: &'static str = "Restarting the process to pick up the new Rust library...";

/// What stands before the reason of a failed rebuild.
pub const REBUILD_FAILED: &'static str = "Rebuild failed, keeping the current app running:";

/// Where a rebuild ends that has come to `step`, if `results` says what comes
/// of each task.
pub open spec fn rebuild_end<E>(
    no_check: bool,
    step: RebuildStep<E>,
    results: spec_fn(RebuildTask) -> Result<(), E>,
    fuel: nat,
) -> RebuildStep<E>
    decreases fuel,
{
    match step {
        RebuildStep::Do(task) => if fuel == 0 {
            step
        } else {
            rebuild_end(
                no_check,
                after_task(no_check, task, results(task)),
                results,
                (fuel - 1) as nat,
            )
        },
        _ => step,
    }
}

/// A rebuild takes at most three tasks, and the process is restarted exactly
/// when all that was due has succeeded: codegen where it is needed, and the
/// check unless it is skipped. It is only given up where the config cannot be
/// read and the check is skipped; all other failures leave the old app running.
pub proof fn restart_needs_every_task<E>(
    no_check: bool,
    needs_codegen: bool,
    results: spec_fn(RebuildTask) -> Result<(), E>,
)
    ensures
        ({
            let end = rebuild_end(no_check, first_step(no_check, needs_codegen), results, 3);
            let config = results(RebuildTask::LoadConfig);
            let codegen = results(RebuildTask::Codegen);
            let check = results(RebuildTask::Check);
            &&& !(end is Do)
            &&& end is Restart <==> (needs_codegen ==> config is Ok && codegen is Ok) && (no_check
                || check is Ok)
            &&& end is Abort <==> no_check && needs_codegen && config is Err
            &&& end matches RebuildStep::Abort(why) ==> config == Err::<(), E>(why)
        }),
{
    reveal_with_fuel(rebuild_end, 4);
}

/// The check names the manifest behind its flag, and the features behind theirs,
/// with commas between them, exactly where there are some.
pub proof fn the_check_names_manifest_and_features(
    manifest: Seq<char>,
    features: Option<Seq<Seq<char>>>,
)
    ensures
        ({
            let argv = check_argv(manifest, features);
            let some = features matches Some(names) && names.len() > 0;
            &&& argv.len() == (if some {
                6int
            } else {
                4
            })
            &&& argv[0] == "cargo"@
            &&& argv[1] == "check"@
            &&& argv[2] == "--manifest-path"@
            &&& argv[3] == manifest
            &&& some ==> argv[4] == "--features"@ && argv[5] == joined(features->0, ","@)
        }),
{
}

/// The manifest is the `Cargo.toml` in the directory of the crate.
pub proof fn the_manifest_is_in_the_crate(rust_crate_dir: Seq<u8>)
    ensures
        manifest_path(rust_crate_dir) == joined_path(rust_crate_dir, encode_utf8("Cargo.toml"@)),
{
}

/// Only what is due is done, and in order: codegen with a fresh config, where it
/// is needed, and then the check, unless it is skipped.
pub proof fn tasks_come_in_order<E>(no_check: bool, needs_codegen: bool)
    ensures
        needs_codegen ==> first_step::<E>(no_check, needs_codegen) == RebuildStep::<E>::Do(
            RebuildTask::LoadConfig,
        ),
        !needs_codegen && !no_check ==> first_step::<E>(no_check, needs_codegen) == RebuildStep::<
            E,
        >::Do(RebuildTask::Check),
        !needs_codegen && no_check ==> first_step::<E>(no_check, needs_codegen) == RebuildStep::<
            E,
        >::Restart,
        after_task(no_check, RebuildTask::LoadConfig, Ok::<(), E>(())) == RebuildStep::<E>::Do(
            RebuildTask::Codegen,
        ),
        after_task(no_check, RebuildTask::Codegen, Ok::<(), E>(())) == (if no_check {
            RebuildStep::<E>::Restart
        } else {
            RebuildStep::<E>::Do(RebuildTask::Check)
        }),
        after_task(no_check, RebuildTask::Check, Ok::<(), E>(())) == RebuildStep::<E>::Restart,
{
}

/// A task that fails ends the rebuild with its reason. The old app is kept,
/// unless the check is skipped and it is the config that cannot be read.
pub proof fn a_failed_task_ends_the_rebuild<E>(no_check: bool, task: RebuildTask, why: E)
    ensures
        after_task(no_check, task, Err::<(), E>(why)) == (if no_check && task
            == RebuildTask::LoadConfig {
            RebuildStep::Abort(why)
        } else {
            RebuildStep::KeepRunning(why)
        }),
{
}

/// What is reported is the failure that came first among the tasks that were
/// due.
pub proof fn the_first_failure_is_reported<E>(
    no_check: bool,
    needs_codegen: bool,
    results: spec_fn(RebuildTask) -> Result<(), E>,
)
    ensures
        rebuild_end(
            no_check,
            first_step(no_check, needs_codegen),
            results,
            3,
        ) matches RebuildStep::KeepRunning(why) ==> why == (if needs_codegen && results(
            RebuildTask::LoadConfig,
        ) is Err {
            results(RebuildTask::LoadConfig)->Err_0
        } else if needs_codegen && results(RebuildTask::Codegen) is Err {
            results(RebuildTask::Codegen)->Err_0
        } else {
            results(RebuildTask::Check)->Err_0
        }),
{
    reveal_with_fuel(rebuild_end, 4);
}

/// A rebuild says whether to restart once it has ended, and why it was given up
/// where it was.
pub proof fn a_rebuild_ends_with_an_answer<E>(task: RebuildTask, why: E)
    ensures
        end_of(RebuildStep::<E>::Do(task)) is None,
        end_of(RebuildStep::<E>::Restart) == Some(Ok::<bool, E>(true)),
        end_of(RebuildStep::KeepRunning(why)) == Some(Ok::<bool, E>(false)),
        end_of(RebuildStep::Abort(why)) == Some(Err::<bool, E>(why)),
{
}

/// What the user is told of a rebuild.
pub proof fn rebuilds_are_announced()
    ensures
        task_words(RebuildTask::LoadConfig) == Some("Running code generation..."@),
        task_words(RebuildTask::Codegen) is None,
        task_words(RebuildTask::Check) == Some("Checking Rust..."@),
        CheckError::CheckFailed.words() == "`cargo check` failed; keeping the current app running"@,
        CheckError::PathIsNoText.words() == "the path of the manifest is not UTF-8"@,
{
}

/// What is said around a rebuild.
pub proof fn rebuilds_are_framed()
    ensures
        REBUILD_NOTICE@ == "Rust changed, rebuilding..."@,
        RESTART_NOTICE@ == "Restarting the process to pick up the new Rust library..."@,
        REBUILD_FAILED@ == "Rebuild failed, keeping the current app running:"@,
{
}

} // verus!
