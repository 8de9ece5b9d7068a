//! What the logging setup decides before anything is written: where the
//! lines go, in which format, and which old files make room.

use vstd::prelude::*;
use vstd::string::StringExecFns;
use crate::text::{has_prefix, same_text};

verus! {

/// Settings of the logging system.
#[derive(Debug, Clone)]
pub struct LoggingSettings {
    pub rust_log: String,
    pub rust_backtrace: String,
    pub enable_file_logging: bool,
    pub log_directory: String,
    pub rotation: String,
    pub log_file_prefix: String,
    pub console_format: String,
    pub file_format: String,
    pub max_log_files: usize,
}

/// How often a new log file is begun.
#[derive(Debug, Clone, Copy, PartialEq, Eq, Structural)]
pub enum LogRotation {
    Hourly,
    Daily,
}

/// How a line is written.
#[derive(Debug, Clone, Copy, PartialEq, Eq, Structural)]
pub enum LogFormat {
    Human,
    Json,
}

/// Where the lines of the file log go.
#[derive(Debug, Clone)]
pub struct FileLog {
    pub directory: String,
    pub file_name: String,
    pub rotation: LogRotation,
    pub format: LogFormat,
}

/// The whole of the logging setup.
#[derive(Debug, Clone)]
pub struct LoggingPlan {
    /// The filter directive for the log lines.
    pub filter: String,
    /// The backtrace setting handed on to the process.
    pub backtrace: String,
    pub console: LogFormat,
    /// `None` where lines go to the console only.
    pub file: Option<FileLog>,
}

/// The rotation that `name` asks for: hourly for `hourly`, daily for
/// `daily` and for anything else.
pub open spec fn rotation_named(name: Seq<char>) -> LogRotation {
    if name == "hourly"@ {
        LogRotation::Hourly
    } else {
        LogRotation::Daily
    }
}

/// The format that `name` asks for: JSON for `json`, human-readable for
/// `human` and for anything else.
pub open spec fn format_named(name: Seq<char>) -> LogFormat {
    if name == "json"@ {
        LogFormat::Json
    } else {
        LogFormat::Human
    }
}

/// The rotation that `name` asks for.
pub fn rotation_for(name: &str) -> (rotation: LogRotation)
    ensures
        rotation == rotation_named(name@),
{
    if same_text(name, "hourly") {
        LogRotation::Hourly
    } else {
        LogRotation::Daily
    }
}

/// The format that `name` asks for.
pub fn format_for(name: &str) -> (format: LogFormat)
    ensures
        format == format_named(name@),
{
    if same_text(name, "json") {
        LogFormat::Json
    } else {
        LogFormat::Human
    }
}

/// The name of the log file for `prefix`: the prefix, then `.log`.
pub fn log_file_name(prefix: &str) -> (name: String)
    ensures
        name@ == prefix@ + ".log"@,
{
    String::from_str(prefix).concat(".log")
}

/// Whether `plan` is what `settings` ask for.
///
/// With file logging the console and the file each get the format their
/// setting names. Without it, lines go to the console only, human-readable
/// whatever the console setting says.
pub open spec fn plan_fits(plan: LoggingPlan, settings: LoggingSettings) -> bool {
    &&& plan.filter == settings.rust_log
    &&& plan.backtrace == settings.rust_backtrace
    &&& if settings.enable_file_logging {
        &&& plan.console == format_named(settings.console_format@)
        &&& plan.file matches Some(file)
        &&& file.directory == settings.log_directory
        &&& file.file_name@ == settings.log_file_prefix@ + ".log"@
        &&& file.rotation == rotation_named(settings.rotation@)
        &&& file.format == format_named(settings.file_format@)
    } else {
        &&& plan.console == LogFormat::Human
        &&& plan.file is None
    }
}

/// Works out the logging setup that `settings` ask for.
pub fn plan_logging(settings: &LoggingSettings) -> (plan: LoggingPlan)
    ensures
        plan_fits(plan, *settings),
{
    if settings.enable_file_logging {
        LoggingPlan {
            filter: settings.rust_log.clone(),
            backtrace: settings.rust_backtrace.clone(),
            console: format_for(settings.console_format.as_str()),
            file: Some(
                FileLog {
                    directory: settings.log_directory.clone(),
                    file_name: log_file_name(settings.log_file_prefix.as_str()),
                    rotation: rotation_for(settings.rotation.as_str()),
                    format: format_for(settings.file_format.as_str()),
                },
            ),
        }
    } else {
        LoggingPlan {
            filter: settings.rust_log.clone(),
            backtrace: settings.rust_backtrace.clone(),
            console: LogFormat::Human,
            file: None,
        }
    }
}

/// One file found in the log directory.
#[derive(Debug, Clone)]
pub struct LogFile {
    pub name: String,
    /// When the file was last written, in nanoseconds since the Unix epoch;
    /// zero where the time is not known.
    pub modified: u64,
}

/// Whether the file at `j` comes before the file at `i` in age: it was
/// written earlier, or at the same time and listed earlier.
pub open spec fn precedes(files: Seq<LogFile>, j: int, i: int) -> bool {
    files[j].modified < files[i].modified || (files[j].modified == files[i].modified && j < i)
}

/// Whether the file at `i` is one of this log: its name begins with `prefix`.
pub open spec fn is_log(files: Seq<LogFile>, prefix: Seq<char>, i: int) -> bool {
    prefix.is_prefix_of(files[i].name@)
}

/// How many of the first `upto` files are of this log.
pub open spec fn count_logs(files: Seq<LogFile>, prefix: Seq<char>, upto: int) -> nat
    decreases upto,
{
    if upto <= 0 {
        0
    } else {
        count_logs(files, prefix, upto - 1) + if is_log(files, prefix, upto - 1) {
            1nat
        } else {
            0nat
        }
    }
}

/// How many of the first `upto` files are of this log and come before the
/// file at `i` in age.
pub open spec fn count_older(files: Seq<LogFile>, prefix: Seq<char>, i: int, upto: int) -> nat
    decreases upto,
{
    if upto <= 0 {
        0
    } else {
        count_older(files, prefix, i, upto - 1) + if is_log(files, prefix, upto - 1) && precedes(
            files,
            upto - 1,
            i,
        ) {
            1nat
        } else {
            0nat
        }
    }
}

/// Whether the file at `i` has to go to keep at most `keep` files of this
/// log: it is one of them, and fewer files come before it in age than there
/// are files too many. Nothing goes for a `keep` of zero.
pub open spec fn is_surplus(files: Seq<LogFile>, prefix: Seq<char>, keep: nat, i: int) -> bool {
    &&& keep > 0
    &&& is_log(files, prefix, i)
    &&& count_older(files, prefix, i, files.len() as int) + keep < count_logs(
        files,
        prefix,
        files.len() as int,
    )
}

/// The positions of the surplus files among the first `upto`, in listing order.
pub open spec fn surplus(files: Seq<LogFile>, prefix: Seq<char>, keep: nat, upto: int) -> Seq<int>
    decreases upto,
{
    if upto <= 0 {
        Seq::empty()
    } else if is_surplus(files, prefix, keep, upto - 1) {
        surplus(files, prefix, keep, upto - 1).push(upto - 1)
    } else {
        surplus(files, prefix, keep, upto - 1)
    }
}

fn count_log_files(files: &Vec<LogFile>, prefix: &str) -> (n: usize)
    ensures
        n == count_logs(files@, prefix@, files.len() as int),
{
    let mut n: usize = 0;
    let mut j: usize = 0;
    while j < files.len()
        invariant
            j <= files.len(),
            n <= j,
            n == count_logs(files@, prefix@, j as int),
        decreases files.len() - j,
    {
        if has_prefix(files[j].name.as_str(), prefix) {
            n = n + 1;
        }
        j = j + 1;
    }
    n
}

fn count_older_files(files: &Vec<LogFile>, prefix: &str, i: usize) -> (n: usize)
    requires
        i < files.len(),
    ensures
        n == count_older(files@, prefix@, i as int, files.len() as int),
{
    let mut n: usize = 0;
    let mut j: usize = 0;
    while j < files.len()
        invariant
            j <= files.len(),
            i < files.len(),
            n <= j,
            n == count_older(files@, prefix@, i as int, j as int),
        decreases files.len() - j,
    {
        let earlier: bool = files[j].modified < files[i].modified || (files[j].modified
            == files[i].modified && j < i);
        if earlier && has_prefix(files[j].name.as_str(), prefix) {
            n = n + 1;
        }
        j = j + 1;
    }
    n
}

/// The files to remove from the log directory so that at most
/// `max_log_files` files of the log `prefix` stay: the oldest ones, ties in
/// age broken by listing order. Nothing is removed for a limit of zero.
/// The result gives positions in `files`, in listing order.
pub fn logs_to_delete(files: &Vec<LogFile>, prefix: &str, max_log_files: usize) -> (doomed: Vec<
    usize,
>)
    ensures
        doomed@.map_values(|i: usize| i as int) == surplus(
            files@,
            prefix@,
            max_log_files as nat,
            files.len() as int,
        ),
        forall|k: int| 0 <= k < doomed.len() ==> (#[trigger] doomed[k]) < files.len(),
{
    let mut doomed: Vec<usize> = Vec::new();
    let total: usize = count_log_files(files, prefix);
    let mut i: usize = 0;
    proof {
        assert(doomed@.map_values(|i: usize| i as int) =~= Seq::<int>::empty());
    }
    while i < files.len()
        invariant
            i <= files.len(),
            total == count_logs(files@, prefix@, files.len() as int),
            doomed@.map_values(|i: usize| i as int) == surplus(
                files@,
                prefix@,
                max_log_files as nat,
                i as int,
            ),
            forall|k: int| 0 <= k < doomed.len() ==> (#[trigger] doomed[k]) < files.len(),
        decreases files.len() - i,
    {
        let ghost before = doomed@;
        if max_log_files > 0 && has_prefix(files[i].name.as_str(), prefix) {
            let older: usize = count_older_files(files, prefix, i);
            if older < total && max_log_files < total - older {
                doomed.push(i);
                proof {
                    assert(doomed@.map_values(|i: usize| i as int) =~= before.map_values(
                        |i: usize| i as int,
                    ).push(i as int));
                }
            }
        }
        i = i + 1;
    }
    doomed
}

} // verus!
