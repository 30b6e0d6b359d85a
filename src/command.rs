use vstd::prelude::*;
use crate::config::{BackupConfig, BackupJobConfig};

verus! {

/// Where the tool's standard output and error go.
#[derive(Clone, Copy, Debug, PartialEq, Eq, Structural)]
pub enum OutputMode {
    /// Piped back to the caller.
    Captured,
    /// Shared with this process's own streams.
    Inherited,
}

/// One invocation of the backup tool: program, environment, arguments and where
/// its output goes.
#[derive(Clone, Debug)]
pub struct CommandLine {
    pub program: String,
    pub env: Vec<(String, String)>,
    pub args: Vec<String>,
    pub output: OutputMode,
}

/// The texts of a list of strings.
pub open spec fn strings_view(v: Seq<String>) -> Seq<Seq<char>> {
    v.map_values(|s: String| s@)
}

/// The texts of a list of name and value pairs.
pub open spec fn pairs_view(v: Seq<(String, String)>) -> Seq<(Seq<char>, Seq<char>)> {
    v.map_values(|p: (String, String)| (p.0@, p.1@))
}

/// The environment of every invocation: the configured `PATH` and the password command.
pub open spec fn tool_env(config: BackupConfig) -> Seq<(Seq<char>, Seq<char>)> {
    seq![("PATH"@, config.env_path@), ("RESTIC_PASSWORD_COMMAND"@, config.password_command@)]
}

/// The arguments of a backup of `path`, in the order the tool expects.
pub open spec fn backup_args(config: BackupConfig, path: Seq<char>) -> Seq<Seq<char>> {
    seq![
        "-r"@,
        config.repo@,
        "--json"@,
        "-q"@,
        "--exclude-file"@,
        config.exclude_file@,
        "backup"@,
        path,
    ]
}

/// The arguments that remove a stale lock from the repository.
pub open spec fn unlock_args(config: BackupConfig) -> Seq<Seq<char>> {
    seq!["-r"@, config.repo@, "unlock"@]
}

fn env_of(config: &BackupConfig) -> (r: Vec<(String, String)>)
    ensures
        pairs_view(r@) == tool_env(*config),
{
    let mut r: Vec<(String, String)> = Vec::new();
    r.push((String::from_str("PATH"), config.env_path.clone()));
    r.push((String::from_str("RESTIC_PASSWORD_COMMAND"), config.password_command.clone()));
    assert(pairs_view(r@) =~= tool_env(*config));
    r
}

/// The invocation that backs up the job's watched path, with its output captured.
pub fn backup_command(job: &BackupJobConfig, config: &BackupConfig) -> (r: CommandLine)
    ensures
        r.program@ == config.restic_path@,
        pairs_view(r.env@) == tool_env(*config),
        strings_view(r.args@) == backup_args(*config, job.path@),
        r.output == OutputMode::Captured,
{
    let mut args: Vec<String> = Vec::new();
    args.push(String::from_str("-r"));
    args.push(config.repo.clone());
    args.push(String::from_str("--json"));
    args.push(String::from_str("-q"));
    args.push(String::from_str("--exclude-file"));
    args.push(config.exclude_file.clone());
    args.push(String::from_str("backup"));
    args.push(job.path.clone());
    assert(strings_view(args@) =~= backup_args(*config, job.path@));
    CommandLine {
        program: config.restic_path.clone(),
        env: env_of(config),
        args,
        output: OutputMode::Captured,
    }
}

/// The invocation that clears a stale repository lock; its output goes to this
/// process's own streams.
pub fn unlock_command(config: &BackupConfig) -> (r: CommandLine)
    ensures
        r.program@ == config.restic_path@,
        pairs_view(r.env@) == tool_env(*config),
        strings_view(r.args@) == unlock_args(*config),
        r.output == OutputMode::Inherited,
{
    let mut args: Vec<String> = Vec::new();
    args.push(String::from_str("-r"));
    args.push(config.repo.clone());
    args.push(String::from_str("unlock"));
    assert(strings_view(args@) =~= unlock_args(*config));
    CommandLine {
        program: config.restic_path.clone(),
        env: env_of(config),
        args,
        output: OutputMode::Inherited,
    }
}

} // verus!
