//! What the launcher decides around enforcement: whether the configuration
//! is complete, what it tells the operator, and which exit code it reports.

use crate::sandbox::{EnforcementStatus, PolicyError};
use vstd::prelude::*;
use vstd::string::*;

verus! {

/// The exit code of every failure of the launcher itself, and of a command
/// that a signal ended.
pub const FAILURE_CODE: i32 = 1;

/// A required input is missing or invalid: nothing is enforced and nothing
/// is launched.
#[derive(Clone, Copy, Debug, PartialEq, Eq, Structural)]
pub enum ConfigError {
    /// No command was named.
    MissingCommand,
    /// The sandbox root is not configured.
    MissingRoot,
    /// The runtime directory is not configured.
    MissingRuntimeDir,
    /// The home directory is not configured.
    MissingHome,
    /// Nothing exists at the sandbox root.
    RootNotFound,
}

/// A complete configuration: the command to launch and the three paths that
/// the allowlist is made of.
#[derive(Clone, Debug)]
pub struct Invocation {
    pub command: String,
    pub args: Vec<String>,
    pub root: String,
    pub runtime_dir: String,
    pub home: String,
}

/// How the launch of the command ended.
#[derive(Clone, Copy, Debug, PartialEq, Eq, Structural)]
pub enum LaunchOutcome {
    /// The command ran and exited with this code.
    Exited(i32),
    /// The command ran and a signal ended it: it left no exit code.
    Signaled,
    /// The command could not be started.
    SpawnFailed,
}

/// The first thing that a configuration lacks, if any: the command, then
/// the sandbox root, the runtime directory and the home directory.
pub open spec fn config_fault(words: nat, root: bool, runtime_dir: bool, home: bool) -> Option<
    ConfigError,
> {
    if words < 2 {
        Some(ConfigError::MissingCommand)
    } else if !root {
        Some(ConfigError::MissingRoot)
    } else if !runtime_dir {
        Some(ConfigError::MissingRuntimeDir)
    } else if !home {
        Some(ConfigError::MissingHome)
    } else {
        None
    }
}

/// The views of a list of strings.
pub open spec fn texts(words: Seq<String>) -> Seq<Seq<char>> {
    words.map_values(|word: String| word@)
}

impl Invocation {
    /// The arguments of the command, in order.
    pub open spec fn arg_texts(self) -> Seq<Seq<char>> {
        texts(self.args@)
    }
}

/// Reads the configuration from the words of the command line, the first
/// of which names the launcher itself, and from the three configured paths.
/// It is complete when a command is named and all three paths are set; else
/// the first thing that is missing is the error.
pub fn read_invocation(
    argv: &Vec<String>,
    root: Option<String>,
    runtime_dir: Option<String>,
    home: Option<String>,
) -> (outcome: Result<Invocation, ConfigError>)
    ensures
        match outcome {
            Ok(invocation) => {
                &&& config_fault(argv@.len(), root is Some, runtime_dir is Some, home is Some)
                    is None
                &&& invocation.command@ == argv@[1]@
                &&& invocation.arg_texts() == texts(argv@).skip(2)
                &&& Some(invocation.root) == root
                &&& Some(invocation.runtime_dir) == runtime_dir
                &&& Some(invocation.home) == home
            },
            Err(error) => config_fault(
                argv@.len(),
                root is Some,
                runtime_dir is Some,
                home is Some,
            ) == Some(error),
        },
{
    if argv.len() < 2 {
        return Err(ConfigError::MissingCommand);
    }
    let root = match root {
        Some(path) => path,
        None => {
            return Err(ConfigError::MissingRoot);
        },
    };
    let runtime_dir = match runtime_dir {
        Some(path) => path,
        None => {
            return Err(ConfigError::MissingRuntimeDir);
        },
    };
    let home = match home {
        Some(path) => path,
        None => {
            return Err(ConfigError::MissingHome);
        },
    };
    let command = argv[1].clone();
    let mut args: Vec<String> = Vec::new();
    let mut index: usize = 2;
    while index < argv.len()
        invariant
            2 <= index <= argv@.len(),
            args@.len() == index - 2,
            forall|k: int| 0 <= k < args@.len() ==> args@[k]@ == argv@[k + 2]@,
        decreases argv@.len() - index,
    {
        args.push(argv[index].clone());
        index = index + 1;
    }
    let invocation = Invocation { command, args, root, runtime_dir, home };
    assert(invocation.arg_texts() =~= texts(argv@).skip(2));
    Ok(invocation)
}

/// Lets a configuration pass when something exists at its sandbox root.
/// Where nothing does, no policy may be built from it.
pub fn confirm_root(invocation: Invocation, root_exists: bool) -> (outcome: Result<
    Invocation,
    ConfigError,
>)
    ensures
        root_exists ==> outcome == Ok::<Invocation, ConfigError>(invocation),
        !root_exists ==> outcome == Err::<Invocation, ConfigError>(ConfigError::RootNotFound),
{
    if root_exists {
        Ok(invocation)
    } else {
        Err(ConfigError::RootNotFound)
    }
}

/// What the operator is told of an enforcement that went through.
pub open spec fn status_text(status: EnforcementStatus, root: Seq<char>) -> Seq<char> {
    match status {
        EnforcementStatus::FullyEnforced => "Landlock: Fully sandboxed to "@ + root,
        EnforcementStatus::PartiallyEnforced => "Landlock: Partially sandboxed to "@ + root,
        EnforcementStatus::NotEnforced => "Landlock: Not sandboxed! Please update your kernel."@,
    }
}

/// What the operator is told of an incomplete configuration.
pub open spec fn config_text(error: ConfigError, program: Seq<char>, root: Seq<char>) -> Seq<
    char,
> {
    match error {
        ConfigError::MissingCommand => "Usage: "@ + program + " <command> [args...]"@,
        ConfigError::MissingRoot => "DEVENV_ROOT environment variable is not set"@,
        ConfigError::MissingRuntimeDir => "XDG_RUNTIME_DIR environment variable is not set"@,
        ConfigError::MissingHome => "HOME environment variable is not set"@,
        ConfigError::RootNotFound => "DEVENV_ROOT path does not exist: "@ + root,
    }
}

impl EnforcementStatus {
    /// The line that reports this status for the sandbox root.
    pub fn report(self, root: &str) -> (line: String)
        ensures
            line@ == status_text(self, root@),
    {
        match self {
            EnforcementStatus::FullyEnforced => String::from_str(
                "Landlock: Fully sandboxed to ",
            ).concat(root),
            EnforcementStatus::PartiallyEnforced => String::from_str(
                "Landlock: Partially sandboxed to ",
            ).concat(root),
            EnforcementStatus::NotEnforced => String::from_str(
                "Landlock: Not sandboxed! Please update your kernel.",
            ),
        }
    }
}

impl ConfigError {
    /// The line that reports this error; `program` is the launcher's own
    /// name and `root` the configured sandbox root.
    pub fn message(self, program: &str, root: &str) -> (line: String)
        ensures
            line@ == config_text(self, program@, root@),
    {
        match self {
            ConfigError::MissingCommand => String::from_str("Usage: ").concat(program).concat(
                " <command> [args...]",
            ),
            ConfigError::MissingRoot => String::from_str(
                "DEVENV_ROOT environment variable is not set",
            ),
            ConfigError::MissingRuntimeDir => String::from_str(
                "XDG_RUNTIME_DIR environment variable is not set",
            ),
            ConfigError::MissingHome => String::from_str("HOME environment variable is not set"),
            ConfigError::RootNotFound => String::from_str(
                "DEVENV_ROOT path does not exist: ",
            ).concat(root),
        }
    }
}

impl PolicyError {
    /// The line that reports this error.
    pub fn message(&self) -> (line: String)
        ensures
            line@ == "Failed to set up landlock sandbox: "@ + self.detail@,
    {
        String::from_str("Failed to set up landlock sandbox: ").concat(self.detail.as_str())
    }
}

/// The exit code that the launcher reports for a launch: the command's own
/// where it left one, the failure code where a signal ended it or it never
/// started.
pub open spec fn exit_code_of(outcome: LaunchOutcome) -> i32 {
    match outcome {
        LaunchOutcome::Exited(code) => code,
        LaunchOutcome::Signaled => FAILURE_CODE,
        LaunchOutcome::SpawnFailed => FAILURE_CODE,
    }
}

/// What a finished child leaves: its exit code, or none where a signal
/// ended it.
pub fn child_outcome(code: Option<i32>) -> (outcome: LaunchOutcome)
    ensures
        outcome == match code {
            Some(code) => LaunchOutcome::Exited(code),
            None => LaunchOutcome::Signaled,
        },
{
    match code {
        Some(code) => LaunchOutcome::Exited(code),
        None => LaunchOutcome::Signaled,
    }
}

/// The exit code that the launcher reports for a launch.
pub fn exit_code(outcome: LaunchOutcome) -> (code: i32)
    ensures
        code == exit_code_of(outcome),
{
    match outcome {
        LaunchOutcome::Exited(code) => code,
        LaunchOutcome::Signaled => FAILURE_CODE,
        LaunchOutcome::SpawnFailed => FAILURE_CODE,
    }
}

} // verus!
