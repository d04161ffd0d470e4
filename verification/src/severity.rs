use vstd::prelude::*;

verus! {

/// Severity of a log record, or threshold of a sink, ordered from the most
/// silent (`Off`, which lets nothing through when used as a threshold) to the
/// most verbose (`Trace`).
#[derive(Clone, Copy, Debug, PartialEq, Eq, Structural)]
pub enum Severity {
    Off,
    Error,
    Warn,
    Info,
    Debug,
    Trace,
}

/// Position of a severity in the order `Off < Error < Warn < Info < Debug < Trace`.
pub open spec fn severity_rank(s: Severity) -> int {
    match s {
        Severity::Off => 0,
        Severity::Error => 1,
        Severity::Warn => 2,
        Severity::Info => 3,
        Severity::Debug => 4,
        Severity::Trace => 5,
    }
}

impl Severity {
    /// Position of this severity in the verbosity order.
    pub fn rank(&self) -> (r: u8)
        ensures
            r as int == severity_rank(*self),
    {
        match self {
            Severity::Off => 0,
            Severity::Error => 1,
            Severity::Warn => 2,
            Severity::Info => 3,
            Severity::Debug => 4,
            Severity::Trace => 5,
        }
    }
}

/// A record of severity `level` passes a sink whose filter is set to
/// `threshold` exactly when the record is at or above the threshold in
/// importance, that is, at or below it in verbosity rank.
pub open spec fn spec_record_passes(threshold: Severity, level: Severity) -> bool {
    severity_rank(level) <= severity_rank(threshold)
}

/// Decides whether a record of severity `level` is let through by a sink
/// whose filter is set to `threshold`.
pub fn record_passes(threshold: Severity, level: Severity) -> (r: bool)
    ensures
        r == spec_record_passes(threshold, level),
{
    level.rank() <= threshold.rank()
}

/// One character of a candidate matches a letter of a name when it is that
/// letter in either case.
pub open spec fn char_matches(c: char, lo: char, up: char) -> bool {
    c == lo || c == up
}

/// Case-insensitive match of `s` against a name given in its lower-case and
/// upper-case spellings, character by character.
pub open spec fn name_matches(s: Seq<char>, lo: Seq<char>, up: Seq<char>) -> bool {
    &&& s.len() == lo.len()
    &&& forall|i: int| 0 <= i < s.len() ==> char_matches(s[i], lo[i], up[i])
}

/// The severity denoted by a name, if any. The recognized names are `off`,
/// `error`, `warn`, `info`, `debug` and `trace`, in any mixture of ASCII case.
pub open spec fn spec_parse_severity(s: Seq<char>) -> Option<Severity> {
    if name_matches(s, "off"@, "OFF"@) {
        Some(Severity::Off)
    } else if name_matches(s, "error"@, "ERROR"@) {
        Some(Severity::Error)
    } else if name_matches(s, "warn"@, "WARN"@) {
        Some(Severity::Warn)
    } else if name_matches(s, "info"@, "INFO"@) {
        Some(Severity::Info)
    } else if name_matches(s, "debug"@, "DEBUG"@) {
        Some(Severity::Debug)
    } else if name_matches(s, "trace"@, "TRACE"@) {
        Some(Severity::Trace)
    } else {
        None
    }
}

/// Case-insensitive comparison of `s` with one recognized name.
fn name_eq(s: &str, lo: &str, up: &str) -> (r: bool)
    requires
        lo@.len() == up@.len(),
    ensures
        r == name_matches(s@, lo@, up@),
{
    let n = s.unicode_len();
    if n != lo.unicode_len() {
        return false;
    }
    let mut i: usize = 0;
    while i < n
        invariant
            n == s@.len(),
            s@.len() == lo@.len(),
            lo@.len() == up@.len(),
            i <= n,
            forall|j: int| 0 <= j < i ==> char_matches(s@[j], lo@[j], up@[j]),
        decreases n - i,
    {
        let c = s.get_char(i);
        if !(c == lo.get_char(i) || c == up.get_char(i)) {
            return false;
        }
        i = i + 1;
    }
    true
}

/// Parses a severity name the way the logging backend recognizes one: the six
/// names above, compared without regard to ASCII case. Returns nothing on any
/// other string.
pub fn parse_severity(s: &str) -> (r: Option<Severity>)
    ensures
        r == spec_parse_severity(s@),
{
    proof {
        reveal_strlit("off");
        reveal_strlit("OFF");
        reveal_strlit("error");
        reveal_strlit("ERROR");
        reveal_strlit("warn");
        reveal_strlit("WARN");
        reveal_strlit("info");
        reveal_strlit("INFO");
        reveal_strlit("debug");
        reveal_strlit("DEBUG");
        reveal_strlit("trace");
        reveal_strlit("TRACE");
    }
    if name_eq(s, "off", "OFF") {
        Some(Severity::Off)
    } else if name_eq(s, "error", "ERROR") {
        Some(Severity::Error)
    } else if name_eq(s, "warn", "WARN") {
        Some(Severity::Warn)
    } else if name_eq(s, "info", "INFO") {
        Some(Severity::Info)
    } else if name_eq(s, "debug", "DEBUG") {
        Some(Severity::Debug)
    } else if name_eq(s, "trace", "TRACE") {
        Some(Severity::Trace)
    } else {
        None
    }
}

} // verus!
