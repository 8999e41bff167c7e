//! The pipeline spine: turns the engine process's stdout and exit status
//! into an `AnalysisResult`, reading the parsed payload tree through the
//! trusted boundary and falling back to log scraping when the candidate
//! document does not parse.

use vstd::prelude::*;
use vstd::string::*;
use crate::ext::{
    json_parses, parse_json, value_get, value_as_str, value_as_i64, value_as_bool, value_as_array,
    to_pretty_json,
};
use crate::extract::{
    json_candidate_spec, json_start_index, fallback_counts, fallback_file_count,
    fallback_issue_count,
};
use crate::lines::{split_lines, split_lines_spec, join_from};
use crate::model::{AnalysisResult, EnginePayload, RawIssue};
use crate::numbers::{dec_str, dec_str_signed, u64_to_string, i64_to_string};
use crate::report::{html_report_spec, results_html_spec, payload_size_ok, render_html_report};

verus! {

/// The message of a run whose payload parsed, for the given counts.
pub open spec fn success_message_spec(file_count: int, issue_count: int) -> Seq<char> {
    if issue_count > 0 {
        "\u{2705} Analysis completed successfully!\n\u{1f4c1} "@ + dec_str_signed(file_count)
            + " files scanned\n\u{1f50d} "@ + dec_str_signed(issue_count) + " issues found"@
    } else {
        "\u{2705} Analysis completed successfully!\n\u{1f4c1} "@ + dec_str_signed(file_count)
            + " files scanned\n\u{1f389} No issues found!"@
    }
}

/// The message of a run that fell back to count scraping, for the given
/// counts.
pub open spec fn fallback_message_spec(file_count: int, issue_count: int) -> Seq<char> {
    if issue_count > 0 {
        "\u{2705} Analysis completed!\n\u{1f4c1} "@ + dec_str(file_count)
            + " files scanned\n\u{1f50d} "@ + dec_str(issue_count) + " issues found"@
    } else {
        "\u{2705} Analysis completed!\n\u{1f4c1} "@ + dec_str(file_count)
            + " files scanned\n\u{1f389} No issues found!"@
    }
}

/// The success message of a run whose payload parsed.
pub fn success_message(file_count: i64, issue_count: i64) -> (r: String)
    ensures
        r@ == success_message_spec(file_count as int, issue_count as int),
{
    let mut r = "\u{2705} Analysis completed successfully!\n\u{1f4c1} ".to_owned();
    let files_text = i64_to_string(file_count);
    r.append(files_text.as_str());
    if issue_count > 0 {
        r.append(" files scanned\n\u{1f50d} ");
        let issues_text = i64_to_string(issue_count);
        r.append(issues_text.as_str());
        r.append(" issues found");
    } else {
        r.append(" files scanned\n\u{1f389} No issues found!");
    }
    r
}

/// The message of a run that fell back to count scraping.
pub fn fallback_message(file_count: u32, issue_count: u32) -> (r: String)
    ensures
        r@ == fallback_message_spec(file_count as int, issue_count as int),
{
    let mut r = "\u{2705} Analysis completed!\n\u{1f4c1} ".to_owned();
    let files_text = u64_to_string(file_count as u64);
    r.append(files_text.as_str());
    if issue_count > 0 {
        r.append(" files scanned\n\u{1f50d} ");
        let issues_text = u64_to_string(issue_count as u64);
        r.append(issues_text.as_str());
        r.append(" issues found");
    } else {
        r.append(" files scanned\n\u{1f389} No issues found!");
    }
    r
}

/// The note carried by the synthesized fallback payload.
pub open spec fn fallback_note() -> Seq<char> {
    "Analysis completed but detailed results not available in JSON format"@
}

/// The synthesized payload of a fallback run: the two scraped counts, an
/// empty issue list, and the note that detailed results are unavailable.
pub open spec fn fallback_payload_spec(file_count: int, issue_count: int, p: EnginePayload) -> bool {
    &&& p.summary_total_files == Some(file_count as i64)
    &&& p.summary_issues_found == Some(issue_count as i64)
    &&& p.files is None
    &&& p.issues is Some
    &&& p.issues->0@.len() == 0
    &&& p.analyzers_used is None
    &&& p.note is Some
    &&& p.note->0@ == fallback_note()
}

/// A string field of a payload record, with a default for a missing or
/// non-string member.
fn string_field(v: &serde_json::Value, key: &str, default: &str) -> (r: String) {
    match value_get(v, key) {
        Some(f) => match value_as_str(f) {
            Some(s) => s.to_owned(),
            None => default.to_owned(),
        },
        None => default.to_owned(),
    }
}

/// An optional integer field of a payload record.
fn i64_field(v: &serde_json::Value, key: &str) -> (r: Option<i64>) {
    match value_get(v, key) {
        Some(f) => value_as_i64(f),
        None => None,
    }
}

/// One raw issue record read from the payload tree.  Missing text fields
/// default to the empty string, except the file, whose render-time
/// default names it unknown.
fn issue_of_value(v: &serde_json::Value) -> (r: RawIssue) {
    let suggestion: Option<String> = match value_get(v, "suggestion") {
        Some(f) => match value_as_str(f) {
            Some(s) => Some(s.to_owned()),
            None => None,
        },
        None => None,
    };
    RawIssue {
        issue_type: string_field(v, "type", ""),
        description: string_field(v, "description", ""),
        severity: string_field(v, "severity", ""),
        file: string_field(v, "file", "Unknown file"),
        line: i64_field(v, "line"),
        suggestion,
    }
}

/// The structured payload read from a parsed value: each recognized
/// top-level field, `None` where it is missing, with list lengths capped
/// at the renderer's 32-bit machine limit.  The tree is opaque, so only
/// size bounds can be promised of the result; everything downstream is
/// verified exactly against whatever payload this reader produced.
fn payload_of_value(v: &serde_json::Value) -> (r: EnginePayload)
    ensures
        payload_size_ok(Some(r)),
        r.files is Some ==> r.files->0@.len() <= 0xffffffff,
{
    let summary_total_files: Option<i64> = match value_get(v, "summary") {
        Some(s) => i64_field(s, "total_files"),
        None => None,
    };
    let summary_issues_found: Option<i64> = match value_get(v, "summary") {
        Some(s) => i64_field(s, "issues_found"),
        None => None,
    };
    let files: Option<Vec<String>> = match value_get(v, "files") {
        Some(f) => match value_as_array(f) {
            Some(arr) => {
                let n = if arr.len() > 0xffffffff {
                    0xffffffff
                } else {
                    arr.len()
                };
                let mut out: Vec<String> = Vec::new();
                let mut i: usize = 0;
                while i < n
                    invariant
                        n <= 0xffffffff,
                        n <= arr@.len(),
                        out@.len() == i,
                        i <= n,
                    decreases n - i,
                {
                    match value_as_str(&arr[i]) {
                        Some(s) => out.push(s.to_owned()),
                        None => out.push(String::new()),
                    }
                    i += 1;
                }
                Some(out)
            },
            None => None,
        },
        None => None,
    };
    let issues: Option<Vec<RawIssue>> = match value_get(v, "issues") {
        Some(f) => match value_as_array(f) {
            Some(arr) => {
                let n = if arr.len() > 0xffffffff {
                    0xffffffff
                } else {
                    arr.len()
                };
                let mut out: Vec<RawIssue> = Vec::new();
                let mut i: usize = 0;
                while i < n
                    invariant
                        n <= 0xffffffff,
                        n <= arr@.len(),
                        out@.len() == i,
                        i <= n,
                    decreases n - i,
                {
                    out.push(issue_of_value(&arr[i]));
                    i += 1;
                }
                Some(out)
            },
            None => None,
        },
        None => None,
    };
    let analyzers_used: Option<Vec<String>> = match value_get(v, "analyzers_used") {
        Some(f) => match value_as_array(f) {
            Some(arr) => {
                let mut out: Vec<String> = Vec::new();
                let mut i: usize = 0;
                while i < arr.len()
                    invariant
                        i <= arr@.len(),
                    decreases arr@.len() - i,
                {
                    match value_as_str(&arr[i]) {
                        Some(s) => out.push(s.to_owned()),
                        None => {},
                    }
                    i += 1;
                }
                Some(out)
            },
            None => None,
        },
        None => None,
    };
    let note: Option<String> = match value_get(v, "message") {
        Some(f) => match value_as_str(f) {
            Some(s) => Some(s.to_owned()),
            None => None,
        },
        None => None,
    };
    EnginePayload {
        summary_total_files,
        summary_issues_found,
        files,
        issues,
        analyzers_used,
        note,
    }
}

/// The file count a payload reports: the length of its files array when
/// one exists, else its summary field, else 0.
pub open spec fn payload_file_count_spec(p: EnginePayload) -> int {
    match p.files {
        Some(fs) => fs@.len() as int,
        None => match p.summary_total_files {
            Some(v) => v as int,
            None => 0,
        },
    }
}

/// The issue count a payload reports: the length of its issues array
/// when one exists, else its summary field, else 0.
pub open spec fn payload_issue_count_spec(p: EnginePayload) -> int {
    match p.issues {
        Some(issues) => issues@.len() as int,
        None => match p.summary_issues_found {
            Some(v) => v as int,
            None => 0,
        },
    }
}

/// The counts a parsed payload reports: the array lengths when the
/// arrays exist, else the summary fields, else 0.
pub fn payload_counts(p: &EnginePayload) -> (r: (i64, i64))
    requires
        p.files is Some ==> p.files->0@.len() <= 0xffffffff,
        payload_size_ok(Some(*p)),
    ensures
        r.0 as int == payload_file_count_spec(*p),
        r.1 as int == payload_issue_count_spec(*p),
{
    let file_count: i64 = match &p.files {
        Some(fs) => fs.len() as i64,
        None => match p.summary_total_files {
            Some(v) => v,
            None => 0,
        },
    };
    let issue_count: i64 = match &p.issues {
        Some(is_) => is_.len() as i64,
        None => match p.summary_issues_found {
            Some(v) => v,
            None => 0,
        },
    };
    (file_count, issue_count)
}

/// The successful result carrying a parsed payload: for every payload
/// value, the result holds exactly that payload and the success message
/// built from the counts the payload reports.
pub fn result_of_parsed_payload(payload: EnginePayload) -> (r: AnalysisResult)
    requires
        payload.files is Some ==> payload.files->0@.len() <= 0xffffffff,
        payload_size_ok(Some(payload)),
    ensures
        r.success == true,
        r.results == Some(payload),
        r.message@ == success_message_spec(
            payload_file_count_spec(payload),
            payload_issue_count_spec(payload),
        ),
{
    let (file_count, issue_count) = payload_counts(&payload);
    let message = success_message(file_count, issue_count);
    AnalysisResult { success: true, message, results: Some(payload) }
}

/// Turns the engine's stdout and exit status into an analysis result.
///
/// A failed exit surfaces the stdout in a failed result.  On a clean
/// exit, the candidate JSON document is extracted and parsed: a parsed
/// payload yields a successful result carrying it, with the message
/// built from the counts that carried payload reports, and a parse
/// failure yields a successful result carrying the synthesized fallback
/// payload with the two counts scraped from the log lines.
pub fn process_engine_output(stdout: &str, exit_ok: bool) -> (r: AnalysisResult)
    ensures
        r.success == exit_ok,
        payload_size_ok(r.results),
        !exit_ok ==> {
            &&& r.message@ == "Analysis failed: "@ + stdout@
            &&& r.results is None
        },
        exit_ok ==> r.results is Some,
        exit_ok && json_parses(json_candidate_spec(stdout@)) ==> r.message@
            == success_message_spec(
            payload_file_count_spec(r.results->0),
            payload_issue_count_spec(r.results->0),
        ),
        exit_ok && !json_parses(json_candidate_spec(stdout@)) ==> {
            &&& fallback_payload_spec(
                fallback_file_count(split_lines_spec(stdout@)),
                fallback_issue_count(split_lines_spec(stdout@)),
                r.results->0,
            )
            &&& r.message@ == fallback_message_spec(
                fallback_file_count(split_lines_spec(stdout@)),
                fallback_issue_count(split_lines_spec(stdout@)),
            )
        },
{
    if !exit_ok {
        let mut message = "Analysis failed: ".to_owned();
        message.append(stdout);
        return AnalysisResult { success: false, message, results: None };
    }
    let ls = split_lines(stdout);
    let start = json_start_index(&ls);
    let candidate = join_from(&ls, start, "\n");
    match parse_json(candidate.as_str()) {
        Some(v) => {
            let payload = payload_of_value(&v);
            result_of_parsed_payload(payload)
        },
        None => {
            let (file_count, issue_count) = fallback_counts(&ls);
            let message = fallback_message(file_count, issue_count);
            let empty_issues: Vec<RawIssue> = Vec::new();
            let payload = EnginePayload {
                summary_total_files: Some(file_count as i64),
                summary_issues_found: Some(issue_count as i64),
                files: None,
                issues: Some(empty_issues),
                analyzers_used: None,
                note: Some(
                    "Analysis completed but detailed results not available in JSON format".to_owned(),
                ),
            };
            AnalysisResult { success: true, message, results: Some(payload) }
        },
    }
}

/// The result a transport-level value describes: its `success` flag
/// (default false), its `message` (default placeholder), and the payload
/// under its `results` member — or, when it has none, the value itself
/// read as the payload.
fn analysis_result_of_value(v: &serde_json::Value) -> (r: AnalysisResult)
    ensures
        payload_size_ok(r.results),
        r.results is Some,
{
    let success: bool = match value_get(v, "success") {
        Some(f) => match value_as_bool(f) {
            Some(b) => b,
            None => false,
        },
        None => false,
    };
    let message = string_field(v, "message", "No message");
    let payload = match value_get(v, "results") {
        Some(actual) => payload_of_value(actual),
        None => payload_of_value(v),
    };
    AnalysisResult { success, message, results: Some(payload) }
}

/// The report contents for a transport-level value: the HTML document
/// (stamped with the current UTC time), the pretty-printed JSON artifact
/// text of the value's payload part, and the result read from the value.
/// The document is exactly the rendering of that returned result around
/// the returned artifact text; only the timestamp, being the clock's,
/// stays existential.
pub fn report_contents_for_value(v: &serde_json::Value, project_name: &str) -> (r: (
    String,
    String,
    AnalysisResult,
))
    ensures
        payload_size_ok(r.2.results),
        exists|ts: Seq<char>|
            r.0@ == html_report_spec(
                r.2.success,
                r.2.message@,
                project_name@,
                ts,
                results_html_spec(r.2.results),
                r.1@,
            ),
{
    let raw_json: String = {
        let actual = match value_get(v, "results") {
            Some(actual) => actual,
            None => v,
        };
        match to_pretty_json(actual) {
            Some(s) => s,
            None => "Error serializing data".to_owned(),
        }
    };
    let result = analysis_result_of_value(v);
    let timestamp = crate::ext::now_utc_string();
    let html = render_html_report(&result, project_name, timestamp.as_str(), raw_json.as_str());
    let r = (html, raw_json, result);
    proof {
        assert(r.0@ == html_report_spec(
            r.2.success,
            r.2.message@,
            project_name@,
            timestamp@,
            results_html_spec(r.2.results),
            r.1@,
        ));
    }
    r
}

} // verus!
