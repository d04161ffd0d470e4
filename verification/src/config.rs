use vstd::prelude::*;

use crate::init::InitError;
use crate::severity::{parse_severity, spec_parse_severity, Severity};

verus! {

/// Size, in bytes, at which the active log file triggers rotation.
pub const ROTATION_THRESHOLD_BYTES: u64 = 50_000_000;

/// How many archived generations the rotation keeps: exactly one, replaced
/// at each rotation.
pub const ARCHIVED_GENERATIONS: u32 = 1;

/// Format of a console record: colorized level, timestamp to the
/// millisecond, source file and line, then the message.
pub open spec fn console_pattern_spec() -> Seq<char> {
    "{h({l})} {d(%Y-%m-%d %H:%M:%S%.3f)} [{f}:{L}] {m}{n}"@
}

/// The pattern string the console sink formats records with.
pub fn console_pattern() -> (r: &'static str)
    ensures
        r@ == console_pattern_spec(),
{
    "{h({l})} {d(%Y-%m-%d %H:%M:%S%.3f)} [{f}:{L}] {m}{n}"
}

/// Name of the logical channel registered for this service.
pub open spec fn service_channel_spec() -> Seq<char> {
    "session_open_group_server"@
}

/// The logical channel this service registers at the effective level. The
/// channel attaches no sink of its own: records it receives route through
/// the root's sinks.
pub fn service_channel_name() -> (r: &'static str)
    ensures
        r@ == service_channel_spec(),
{
    "session_open_group_server"
}

/// The archive naming pattern derived from the active file's path; the
/// generation index is substituted for the trailing `{}` at rotation time.
pub open spec fn spec_archive_pattern(path: Seq<char>) -> Seq<char> {
    path + "-archive.{}"@
}

/// Derives the archive naming pattern from the active file's path.
pub fn archive_pattern(path: &str) -> (r: String)
    ensures
        r@ == spec_archive_pattern(path@),
{
    let p = String::from_str(path);
    p.concat("-archive.{}")
}

/// How the active log file is rotated once it reaches a size threshold.
pub struct RotationPolicy {
    /// Active-file size, in bytes, at which the next write rotates it.
    pub threshold_bytes: u64,
    /// How many archived generations are kept; the oldest is replaced when a
    /// new rotation occurs.
    pub archived_generations: u32,
    /// Naming pattern of archived files, with `{}` standing for the
    /// generation index.
    pub archive_pattern: String,
}

/// The console sink: always present, filtered at the effective severity.
pub struct ConsoleSink {
    /// Pattern each record is formatted with.
    pub pattern: String,
    /// Only records at or above this severity are written.
    pub threshold: Severity,
}

/// The file sink: present only when a log-file path was configured, filtered
/// at the effective severity and rotated by its policy.
pub struct FileSink {
    /// Path of the active log file.
    pub path: String,
    /// Only records at or above this severity are written.
    pub threshold: Severity,
    /// When and how the active file is archived.
    pub rotation: RotationPolicy,
}

/// The assembled logging configuration: built once at startup, then handed
/// to the backend for its single process-wide installation.
pub struct Config {
    /// Effective severity threshold of the root route.
    pub level: Severity,
    /// The console sink, attached to the root route.
    pub console: ConsoleSink,
    /// The file sink, attached to the root route only when a path was given.
    pub file: Option<FileSink>,
    /// Name of the logical channel registered for this service.
    pub channel_name: String,
    /// Severity the service channel is registered at.
    pub channel_level: Severity,
}

/// The effective severity threshold: `Info` when no name is given, the named
/// severity when the name parses, and nothing — a fatal configuration
/// error — otherwise.
pub open spec fn spec_effective_level(log_level: Option<Seq<char>>) -> Option<Severity> {
    match log_level {
        Option::None => Some(Severity::Info),
        Option::Some(s) => spec_parse_severity(s),
    }
}

/// Resolves the effective severity threshold from the optional level name.
pub fn effective_level(log_level: &Option<String>) -> (r: Option<Severity>)
    ensures
        r == spec_effective_level(log_level.deep_view()),
{
    match log_level {
        Option::None => Some(Severity::Info),
        Option::Some(s) => parse_severity(s.as_str()),
    }
}

/// What the configuration built from the given inputs holds: both sinks and
/// the service channel gated at the effective level, the console pattern and
/// channel name fixed, and a file sink — with the rotation policy over the
/// derived archive pattern — exactly when a path was given.
pub open spec fn spec_config_for(c: Config, log_file: Option<Seq<char>>, level: Severity) -> bool {
    &&& c.level == level
    &&& c.console.pattern@ == console_pattern_spec()
    &&& c.console.threshold == level
    &&& c.channel_name@ == service_channel_spec()
    &&& c.channel_level == level
    &&& match (log_file, c.file) {
        (Option::None, Option::None) => true,
        (Option::Some(p), Option::Some(f)) => {
            &&& f.path@ == p
            &&& f.threshold == level
            &&& f.rotation.threshold_bytes == ROTATION_THRESHOLD_BYTES
            &&& f.rotation.archived_generations == ARCHIVED_GENERATIONS
            &&& f.rotation.archive_pattern@ == spec_archive_pattern(p)
        },
        _ => false,
    }
}

/// Resolves the effective severity and assembles the complete configuration:
/// the console sink always, the file sink only when a path is given. Fails
/// with `InvalidLevel` exactly when a level name is present and does not
/// parse.
pub fn build_config(log_file: Option<String>, log_level: Option<String>) -> (r: Result<
    Config,
    InitError,
>)
    ensures
        match spec_effective_level(log_level.deep_view()) {
            Option::None => r == Err::<Config, InitError>(InitError::InvalidLevel),
            Option::Some(level) => match r {
                Result::Ok(c) => spec_config_for(c, log_file.deep_view(), level),
                Result::Err(_) => false,
            },
        },
{
    let level = match effective_level(&log_level) {
        Option::Some(l) => l,
        Option::None => {
            return Err(InitError::InvalidLevel);
        },
    };
    let console = ConsoleSink { pattern: String::from_str(console_pattern()), threshold: level };
    let file = match &log_file {
        Option::None => None,
        Option::Some(p) => {
            let rotation = RotationPolicy {
                threshold_bytes: ROTATION_THRESHOLD_BYTES,
                archived_generations: ARCHIVED_GENERATIONS,
                archive_pattern: archive_pattern(p.as_str()),
            };
            Some(FileSink { path: p.clone(), threshold: level, rotation })
        },
    };
    Ok(
        Config {
            level,
            console,
            file,
            channel_name: String::from_str(service_channel_name()),
            channel_level: level,
        },
    )
}

} // verus!
