use vstd::prelude::*;

verus! {

/// Settings shared by every job of a process: where the repository is and how
/// the backup tool is reached.
#[derive(Clone, Debug)]
pub struct BackupConfig {
    /// The repository target handed to the tool.
    pub repo: String,
    /// A file of exclusion patterns.
    pub exclude_file: String,
    /// A command that prints the repository password.
    pub password_command: String,
    /// Where the log is written.
    pub logfile: String,
    /// The `PATH` seen by the tool.
    pub env_path: String,
    /// The tool's executable.
    pub restic_path: String,
}

/// One watched directory.
#[derive(Clone, Debug)]
pub struct BackupJobConfig {
    pub name: String,
    pub path: String,
    /// Quiet period in seconds before a backup starts.
    pub throttle: u64,
}

/// A configuration document as plain values: scalars, lists and tables whose
/// entries keep their order.
#[derive(Debug)]
pub enum ConfigValue {
    Text(String),
    Integer(i64),
    List(Vec<ConfigValue>),
    Table(Vec<(String, ConfigValue)>),
    /// Any other scalar (a boolean, a real number, null).
    Other,
}

/// Why a configuration document was refused.
#[derive(Clone, Debug)]
pub enum ConfigError {
    /// A top-level setting is missing or not of its kind (`dirs` must be a list,
    /// the others text).
    MissingField { key: String },
    /// Entry `index` of `dirs` lacks a text `name` or `path`, or a non-negative
    /// integer `throttle`.
    BadDir { index: usize },
}

/// The settings of a process: the shared configuration and one job per watched directory.
#[derive(Clone, Debug)]
pub struct Settings {
    pub config: BackupConfig,
    pub jobs: Vec<BackupJobConfig>,
}

/// The value of the first entry named `key`.
pub open spec fn lookup(entries: Seq<(String, ConfigValue)>, key: Seq<char>) -> Option<ConfigValue>
    decreases entries.len(),
{
    if entries.len() == 0 {
        None
    } else if entries[0].0@ == key {
        Some(entries[0].1)
    } else {
        lookup(entries.drop_first(), key)
    }
}

/// Member `key` of a table; nothing for any other value.
pub open spec fn member(v: ConfigValue, key: Seq<char>) -> Option<ConfigValue> {
    match v {
        ConfigValue::Table(entries) => lookup(entries@, key),
        _ => None,
    }
}

/// Member `key` of a table, where it is text.
pub open spec fn text_member(v: ConfigValue, key: Seq<char>) -> Option<Seq<char>> {
    match member(v, key) {
        Some(ConfigValue::Text(s)) => Some(s@),
        _ => None,
    }
}

/// The `dirs` list of a document.
pub open spec fn dirs_member(v: ConfigValue) -> Option<Seq<ConfigValue>> {
    match member(v, "dirs"@) {
        Some(ConfigValue::List(l)) => Some(l@),
        _ => None,
    }
}

/// The `throttle` member of a table, where it is a non-negative integer.
pub open spec fn throttle_member(v: ConfigValue) -> Option<u64> {
    match member(v, "throttle"@) {
        Some(ConfigValue::Integer(n)) => if n >= 0 {
            Some(n as u64)
        } else {
            None
        },
        _ => None,
    }
}

/// A `dirs` entry with a text `name` and `path` and a valid `throttle`.
pub open spec fn dir_ok(d: ConfigValue) -> bool {
    text_member(d, "name"@) is Some && text_member(d, "path"@) is Some && throttle_member(d) is Some
}

/// The first top-level setting, in the order the document is read, that is missing.
pub open spec fn first_missing(doc: ConfigValue) -> Option<Seq<char>> {
    if text_member(doc, "repo"@) is None {
        Some("repo"@)
    } else if text_member(doc, "exclude-file"@) is None {
        Some("exclude-file"@)
    } else if text_member(doc, "password-command"@) is None {
        Some("password-command"@)
    } else if text_member(doc, "logfile"@) is None {
        Some("logfile"@)
    } else if text_member(doc, "env-path"@) is None {
        Some("env-path"@)
    } else if text_member(doc, "restic-path"@) is None {
        Some("restic-path"@)
    } else if dirs_member(doc) is None {
        Some("dirs"@)
    } else {
        None
    }
}

/// The job that a well-formed `dirs` entry describes.
pub open spec fn job_matches(j: BackupJobConfig, d: ConfigValue) -> bool {
    &&& Some(j.name@) == text_member(d, "name"@)
    &&& Some(j.path@) == text_member(d, "path"@)
    &&& Some(j.throttle) == throttle_member(d)
}

/// The shared configuration that a document with every top-level setting describes.
pub open spec fn config_matches(c: BackupConfig, doc: ConfigValue) -> bool {
    &&& Some(c.repo@) == text_member(doc, "repo"@)
    &&& Some(c.exclude_file@) == text_member(doc, "exclude-file"@)
    &&& Some(c.password_command@) == text_member(doc, "password-command"@)
    &&& Some(c.logfile@) == text_member(doc, "logfile"@)
    &&& Some(c.env_path@) == text_member(doc, "env-path"@)
    &&& Some(c.restic_path@) == text_member(doc, "restic-path"@)
}

fn find_member<'a>(v: &'a ConfigValue, key: &str) -> (r: Option<&'a ConfigValue>)
    ensures
        r is Some == member(*v, key@) is Some,
        r matches Some(x) ==> member(*v, key@) == Some(*x),
{
    match v {
        ConfigValue::Table(entries) => {
            let k = String::from_str(key);
            let mut i: usize = 0;
            assert(entries@.subrange(0, entries@.len() as int) =~= entries@);
            while i < entries.len()
                invariant
                    i <= entries@.len(),
                    k@ == key@,
                    member(*v, key@) == lookup(entries@, key@),
                    lookup(entries@, key@) == lookup(entries@.subrange(i as int, entries@.len() as int), key@),
                decreases entries@.len() - i,
            {
                let ghost rest = entries@.subrange(i as int, entries@.len() as int);
                assert(rest.drop_first() =~= entries@.subrange(i + 1, entries@.len() as int));
                if entries[i].0 == k {
                    assert(rest[0] == entries@[i as int]);
                    return Some(&entries[i].1);
                }
                i = i + 1;
            }
            assert(entries@.subrange(i as int, entries@.len() as int).len() == 0);
            None
        },
        _ => None,
    }
}

fn text_field(v: &ConfigValue, key: &str) -> (r: Option<String>)
    ensures
        r is Some == text_member(*v, key@) is Some,
        r matches Some(s) ==> text_member(*v, key@) == Some(s@),
{
    match find_member(v, key) {
        Some(ConfigValue::Text(s)) => Some(s.clone()),
        _ => None,
    }
}

fn dir_job(d: &ConfigValue) -> (r: Option<BackupJobConfig>)
    ensures
        r is Some == dir_ok(*d),
        r matches Some(j) ==> job_matches(j, *d),
{
    let name = match text_field(d, "name") {
        Some(s) => s,
        None => return None,
    };
    let path = match text_field(d, "path") {
        Some(s) => s,
        None => return None,
    };
    let throttle: u64 = match find_member(d, "throttle") {
        Some(ConfigValue::Integer(n)) => {
            if *n >= 0 {
                *n as u64
            } else {
                return None;
            }
        },
        _ => return None,
    };
    Some(BackupJobConfig { name, path, throttle })
}

/// Reads the settings of a process from its configuration document: six text
/// settings and a list `dirs` of tables with `name`, `path` and `throttle`.
pub fn load_settings(doc: &ConfigValue) -> (r: Result<Settings, ConfigError>)
    ensures
        first_missing(*doc) is Some <==> r matches Err(ConfigError::MissingField { .. }),
        r matches Err(ConfigError::MissingField { key }) ==> first_missing(*doc) == Some(key@),
        r matches Err(ConfigError::BadDir { index }) ==> first_missing(*doc) is None && index
            < dirs_member(*doc)->0.len() && !dir_ok(dirs_member(*doc)->0[index as int]) && forall|i: int|
            0 <= i < index ==> dir_ok(dirs_member(*doc)->0[i]),
        r is Ok <==> first_missing(*doc) is None && forall|i: int|
            0 <= i < dirs_member(*doc)->0.len() ==> dir_ok(dirs_member(*doc)->0[i]),
        r matches Ok(s) ==> config_matches(s.config, *doc) && s.jobs@.len() == dirs_member(*doc)->0.len()
            && forall|i: int| 0 <= i < s.jobs@.len() ==> job_matches(#[trigger] s.jobs@[i], dirs_member(*doc)->0[i]),
{
    let repo = match text_field(doc, "repo") {
        Some(s) => s,
        None => return Err(ConfigError::MissingField { key: String::from_str("repo") }),
    };
    let exclude_file = match text_field(doc, "exclude-file") {
        Some(s) => s,
        None => return Err(ConfigError::MissingField { key: String::from_str("exclude-file") }),
    };
    let password_command = match text_field(doc, "password-command") {
        Some(s) => s,
        None => return Err(ConfigError::MissingField { key: String::from_str("password-command") }),
    };
    let logfile = match text_field(doc, "logfile") {
        Some(s) => s,
        None => return Err(ConfigError::MissingField { key: String::from_str("logfile") }),
    };
    let env_path = match text_field(doc, "env-path") {
        Some(s) => s,
        None => return Err(ConfigError::MissingField { key: String::from_str("env-path") }),
    };
    let restic_path = match text_field(doc, "restic-path") {
        Some(s) => s,
        None => return Err(ConfigError::MissingField { key: String::from_str("restic-path") }),
    };
    let dirs = match find_member(doc, "dirs") {
        Some(ConfigValue::List(l)) => l,
        _ => return Err(ConfigError::MissingField { key: String::from_str("dirs") }),
    };
    let mut jobs: Vec<BackupJobConfig> = Vec::new();
    let mut i: usize = 0;
    while i < dirs.len()
        invariant
            i <= dirs@.len(),
            dirs_member(*doc) == Some(dirs@),
            first_missing(*doc) is None,
            jobs@.len() == i,
            forall|k: int| 0 <= k < i ==> dir_ok(dirs@[k]),
            forall|k: int| 0 <= k < i ==> job_matches(#[trigger] jobs@[k], dirs@[k]),
        decreases dirs@.len() - i,
    {
        match dir_job(&dirs[i]) {
            Some(j) => jobs.push(j),
            None => {
                assert(!dir_ok(dirs_member(*doc)->0[i as int]));
                return Err(ConfigError::BadDir { index: i });
            },
        }
        i = i + 1;
    }
    let config = BackupConfig { repo, exclude_file, password_command, logfile, env_path, restic_path };
    Ok(Settings { config, jobs })
}

} // verus!
