//! Outcomes of checking a rule.

use vstd::prelude::*;

verus! {

/// One of the five severities a check can end with: `Great` and `Good`
/// say the restriction holds, `Ugly` and `Bad` say it does not, and
/// `Maybe` is reserved for informational results.
#[derive(Debug, Clone, Copy, PartialEq, Eq, Structural)]
pub enum Verdict {
    Great,
    Good,
    Maybe,
    Ugly,
    Bad,
}

/// How many points a verdict costs: a minor violation one, a major
/// violation two, anything compliant or informational nothing.
pub open spec fn verdict_penalty(v: Verdict) -> u16 {
    match v {
        Verdict::Ugly => 1,
        Verdict::Bad => 2,
        _ => 0,
    }
}

/// What checking one rule found. Capability-class reports carry major
/// verdicts, path reports minor ones; the probe-failure reports carry no
/// verdict at all (the check is logged and left unresolved).
#[derive(Debug, Clone, Copy, PartialEq, Eq, Structural)]
pub enum Report {
    /// The capability bounding set is empty.
    CapsEmpty,
    /// The capability bounding set is not empty.
    CapsNotEmpty,
    /// The no-new-privileges flag is set.
    NnpSet,
    /// The no-new-privileges flag is clear.
    NnpClear,
    /// The no-new-privileges flag could not be queried.
    NnpUnknown,
    /// The path can be read.
    CanRead,
    /// The path cannot be read.
    CannotRead,
    /// The path cannot be read because it does not exist.
    CannotReadAbsent,
    /// The read probe failed for another reason.
    ReadProbeFailed,
    /// The path itself can be written.
    CanWrite,
    /// The path is owned by the auditing user, so a mode change would make
    /// it writable.
    CanWriteAfterChmod,
    /// The path does not exist, but an existing ancestor directory is
    /// writable and the run is against the real home directory.
    CanCreate,
    /// Neither the path nor any existing ancestor is writable.
    CannotWrite,
    /// A write probe failed for another reason.
    WriteProbeFailed,
    /// The ancestor chain was exhausted without a decisive probe.
    WriteUnresolved,
}

/// The verdict a report carries, if any.
pub open spec fn report_verdict(r: Report) -> Option<Verdict> {
    match r {
        Report::CapsEmpty => Some(Verdict::Great),
        Report::CapsNotEmpty => Some(Verdict::Bad),
        Report::NnpSet => Some(Verdict::Great),
        Report::NnpClear => Some(Verdict::Bad),
        Report::NnpUnknown => None,
        Report::CanRead => Some(Verdict::Ugly),
        Report::CannotRead => Some(Verdict::Good),
        Report::CannotReadAbsent => Some(Verdict::Good),
        Report::ReadProbeFailed => None,
        Report::CanWrite => Some(Verdict::Ugly),
        Report::CanWriteAfterChmod => Some(Verdict::Ugly),
        Report::CanCreate => Some(Verdict::Ugly),
        Report::CannotWrite => Some(Verdict::Good),
        Report::WriteProbeFailed => None,
        Report::WriteUnresolved => None,
    }
}

/// The points a report costs.
pub open spec fn report_penalty(r: Report) -> u16 {
    match report_verdict(r) {
        Some(v) => verdict_penalty(v),
        None => 0,
    }
}

/// Reports that a capability-bounding-set check can yield.
pub open spec fn is_caps_report(r: Report) -> bool {
    r == Report::CapsEmpty || r == Report::CapsNotEmpty
}

/// Reports that a no-new-privileges check can yield.
pub open spec fn is_nnp_report(r: Report) -> bool {
    r == Report::NnpSet || r == Report::NnpClear || r == Report::NnpUnknown
}

/// Reports that a read check can yield.
pub open spec fn is_read_report(r: Report) -> bool {
    r == Report::CanRead || r == Report::CannotRead || r == Report::CannotReadAbsent || r
        == Report::ReadProbeFailed
}

/// Reports that a write check can yield.
pub open spec fn is_write_report(r: Report) -> bool {
    r == Report::CanWrite || r == Report::CanWriteAfterChmod || r == Report::CanCreate || r
        == Report::CannotWrite || r == Report::WriteProbeFailed || r == Report::WriteUnresolved
}

/// The verdict a report carries, if any.
pub fn verdict_of(r: Report) -> (v: Option<Verdict>)
    ensures
        v == report_verdict(r),
{
    match r {
        Report::CapsEmpty => Some(Verdict::Great),
        Report::CapsNotEmpty => Some(Verdict::Bad),
        Report::NnpSet => Some(Verdict::Great),
        Report::NnpClear => Some(Verdict::Bad),
        Report::NnpUnknown => None,
        Report::CanRead => Some(Verdict::Ugly),
        Report::CannotRead => Some(Verdict::Good),
        Report::CannotReadAbsent => Some(Verdict::Good),
        Report::ReadProbeFailed => None,
        Report::CanWrite => Some(Verdict::Ugly),
        Report::CanWriteAfterChmod => Some(Verdict::Ugly),
        Report::CanCreate => Some(Verdict::Ugly),
        Report::CannotWrite => Some(Verdict::Good),
        Report::WriteProbeFailed => None,
        Report::WriteUnresolved => None,
    }
}

/// The points a report costs.
pub fn penalty_of(r: Report) -> (p: u16)
    ensures
        p == report_penalty(r),
{
    match verdict_of(r) {
        Some(Verdict::Ugly) => 1,
        Some(Verdict::Bad) => 2,
        _ => 0,
    }
}

/// Severity classes are fixed per rule kind: a capability-class report
/// never costs more than its weight of two, a path report never more
/// than its weight of one.
pub proof fn lemma_penalty_within_weight(r: Report)
    ensures
        is_caps_report(r) || is_nnp_report(r) ==> report_penalty(r) <= 2,
        is_read_report(r) || is_write_report(r) ==> report_penalty(r) <= 1,
{
}

/// A fatal environment error: the host violates an assumption the audit
/// needs, so no result would be meaningful.
#[derive(Debug, Clone, Copy, PartialEq, Eq, Structural)]
pub enum EnvError {
    /// The per-process capability state could not be read.
    StatusUnreadable,
    /// The capability state lacks the bounding-set field.
    CapBndMissing,
}

impl EnvError {
    /// A human-readable description of the error.
    pub fn message(&self) -> (r: String)
        ensures
            *self == EnvError::StatusUnreadable ==> r@ == "Failed to read the process capability state."@,
            *self == EnvError::CapBndMissing ==> r@ == "The process capability state does not name the bounding set."@,
    {
        match self {
            EnvError::StatusUnreadable => "Failed to read the process capability state.".to_owned(),
            EnvError::CapBndMissing => "The process capability state does not name the bounding set.".to_owned(),
        }
    }
}

/// One entry in the transcript of a run, in input order.
#[derive(Debug, Clone)]
pub enum Event {
    /// The text of a `print` rule, to be echoed verbatim.
    Announced(String),
    /// A rule was checked: its report, the path it concerned (empty for
    /// the capability-class rules), and whether the path deserves a
    /// relative-path warning.
    Audited { report: Report, path: String, warn_relative: bool },
    /// A line that parses as no rule; it is skipped.
    ParseFailed(String),
}

} // verus!
