//! Opener dispatch: given a target (a filesystem path or a URL) and the
//! operating system the build is for, resolve the system's default-opener
//! program, build the exact command invocation for it, and map a spawn
//! failure to the caller-facing error message.
//!
//! Spawning the child process itself is the caller's affair: the functions
//! here compute the invocation before the spawn and the reported result
//! after it, and both are pure.

use vstd::prelude::*;

verus! {

/// The operating system a build targets. Exactly one opener program
/// variant is selected per platform at build time.
#[derive(Clone, Copy, Debug, PartialEq, Eq, Structural)]
pub enum Platform {
    Linux,
    MacOs,
    Windows,
}

/// The two dispatch operations: opening a filesystem path and opening a URL.
/// They differ only in the opener selected on Windows and in the error
/// message reported on a failed spawn.
#[derive(Clone, Copy, Debug, PartialEq, Eq, Structural)]
pub enum Operation {
    OpenFile,
    OpenUrl,
}

/// The opener program name, as a function of platform and operation alone.
///
/// Windows is the one platform where the two operations select different
/// openers; that asymmetry is deliberate and preserved.
pub open spec fn opener_program_spec(platform: Platform, op: Operation) -> Seq<char> {
    match (platform, op) {
        (Platform::Linux, _) => "xdg-open"@,
        (Platform::MacOs, _) => "open"@,
        (Platform::Windows, Operation::OpenFile) => "cmd /c start"@,
        (Platform::Windows, Operation::OpenUrl) => "start"@,
    }
}

/// Returns the opener program for the given platform and operation.
pub fn opener_program(platform: Platform, op: Operation) -> (r: &'static str)
    ensures
        r@ == opener_program_spec(platform, op),
{
    match (platform, op) {
        (Platform::Linux, _) => "xdg-open",
        (Platform::MacOs, _) => "open",
        (Platform::Windows, Operation::OpenFile) => "cmd /c start",
        (Platform::Windows, Operation::OpenUrl) => "start",
    }
}

/// The fixed prefix of the message reported when the opener process could
/// not be created, as a function of the operation alone.
pub open spec fn failure_prefix_spec(op: Operation) -> Seq<char> {
    match op {
        Operation::OpenFile => "Failed to open file: "@,
        Operation::OpenUrl => "Failed to open URL: "@,
    }
}

/// Builds the caller-facing message for a failed spawn: the operation's
/// fixed prefix followed by the operating system's own error text,
/// unmodified.
pub fn launch_failure_message(op: Operation, os_error: &str) -> (r: String)
    ensures
        r@ == failure_prefix_spec(op) + os_error@,
{
    let prefix: &'static str = match op {
        Operation::OpenFile => "Failed to open file: ",
        Operation::OpenUrl => "Failed to open URL: ",
    };
    let mut message = prefix.to_owned();
    message.append(os_error);
    message
}

/// A fully resolved opener command line: the program to spawn and its
/// argument list. The caller spawns it fire-and-forget, without waiting
/// for or observing the child.
pub struct Invocation {
    pub program: &'static str,
    pub args: Vec<String>,
}

/// Builds the command line that opens `target`: the platform's opener
/// program for the operation, with `target` as its sole argument,
/// unmodified — no validation, normalization, or escaping.
pub fn opener_invocation(platform: Platform, op: Operation, target: String) -> (r: Invocation)
    ensures
        r.program@ == opener_program_spec(platform, op),
        r.args@.len() == 1,
        r.args@[0] == target,
{
    let program = opener_program(platform, op);
    let mut args: Vec<String> = Vec::new();
    args.push(target);
    Invocation { program, args }
}

/// What the operating system answered when asked to create the opener
/// process: either the child was launched, or it could not be created,
/// with the system's error text.
pub enum SpawnOutcome {
    Launched,
    Failed(String),
}

/// Maps a spawn outcome to the dispatcher's result: success exactly when
/// the child was launched, and otherwise the operation's failure message
/// carrying the system's error text.
pub fn dispatch_result(op: Operation, outcome: SpawnOutcome) -> (r: Result<(), String>)
    ensures
        (outcome is Launched) <==> (r is Ok),
        (outcome matches SpawnOutcome::Failed(e) ==> (r matches Err(m)
            && m@ == failure_prefix_spec(op) + e@)),
{
    match outcome {
        SpawnOutcome::Launched => Ok(()),
        SpawnOutcome::Failed(e) => Err(launch_failure_message(op, e.as_str())),
    }
}

/// The opener program is a function of platform and operation alone, and
/// the operation matters only on Windows: on Linux and on macOS the two
/// operations select the same opener, while on Windows they select
/// different ones.
pub proof fn lemma_opener_selection()
    ensures
        opener_program_spec(Platform::Linux, Operation::OpenFile)
            == opener_program_spec(Platform::Linux, Operation::OpenUrl),
        opener_program_spec(Platform::MacOs, Operation::OpenFile)
            == opener_program_spec(Platform::MacOs, Operation::OpenUrl),
        opener_program_spec(Platform::Windows, Operation::OpenFile)
            != opener_program_spec(Platform::Windows, Operation::OpenUrl),
{
    reveal_strlit("cmd /c start");
    reveal_strlit("start");
    assert(opener_program_spec(Platform::Windows, Operation::OpenFile).len() == 12);
    assert(opener_program_spec(Platform::Windows, Operation::OpenUrl).len() == 5);
}

} // verus!
