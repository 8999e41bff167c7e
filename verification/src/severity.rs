//! The severity normalizer: a total mapping from an arbitrary severity
//! vocabulary to the 3-level critical/warning/info scale.

use vstd::prelude::*;
use vstd::string::*;
use crate::model::RawIssue;
use crate::text::str_eq;

verus! {

/// The normalized 3-level severity scale.
#[derive(PartialEq, Eq, Structural, Clone, Copy, Debug)]
pub enum Severity {
    Critical,
    Warning,
    Info,
}

/// The canonical label of a normalized severity.
pub open spec fn severity_label_spec(s: Severity) -> Seq<char> {
    match s {
        Severity::Critical => "critical"@,
        Severity::Warning => "warning"@,
        Severity::Info => "info"@,
    }
}

/// Normalization of a severity string: high/error/critical map to critical,
/// medium/warning/warn to warning, everything else (including the explicit
/// low/info/note/informational vocabulary) to info.  Matching is exact; it
/// is total and never rejects an input.
pub open spec fn normalize_severity_spec(s: Seq<char>) -> Severity {
    if s == "high"@ || s == "error"@ || s == "critical"@ {
        Severity::Critical
    } else if s == "medium"@ || s == "warning"@ || s == "warn"@ {
        Severity::Warning
    } else {
        Severity::Info
    }
}

/// Maps any severity string to the 3-level scale.
pub fn normalize_severity(s: &str) -> (r: Severity)
    ensures
        r == normalize_severity_spec(s@),
{
    if str_eq(s, "high") || str_eq(s, "error") || str_eq(s, "critical") {
        Severity::Critical
    } else if str_eq(s, "medium") || str_eq(s, "warning") || str_eq(s, "warn") {
        Severity::Warning
    } else {
        Severity::Info
    }
}

/// The canonical label of a normalized severity.
pub fn severity_label(s: Severity) -> (r: String)
    ensures
        r@ == severity_label_spec(s),
{
    match s {
        Severity::Critical => "critical".to_owned(),
        Severity::Warning => "warning".to_owned(),
        Severity::Info => "info".to_owned(),
    }
}

/// The normalized severity label of an issue record.
pub fn get_issue_severity(issue: &RawIssue) -> (r: String)
    ensures
        r@ == severity_label_spec(normalize_severity_spec(issue.severity@)),
{
    severity_label(normalize_severity(issue.severity.as_str()))
}

/// Normalization is idempotent: normalizing the canonical label of an
/// already-normalized value returns the same value.
pub proof fn lemma_normalize_idempotent(s: Seq<char>)
    ensures
        normalize_severity_spec(severity_label_spec(normalize_severity_spec(s)))
            == normalize_severity_spec(s),
{
    broadcast use vstd::string::group_string_axioms;

    reveal_strlit("high");
    reveal_strlit("error");
    reveal_strlit("critical");
    reveal_strlit("medium");
    reveal_strlit("warning");
    reveal_strlit("warn");
    reveal_strlit("info");
    assert("high"@.len() == 4);
    assert("error"@.len() == 5);
    assert("critical"@.len() == 8);
    assert("medium"@.len() == 6);
    assert("warning"@.len() == 7);
    assert("warn"@.len() == 4);
    assert("info"@.len() == 4);
    assert("info"@[0] == 'i' && "high"@[0] == 'h' && "warn"@[0] == 'w');
}

} // verus!
