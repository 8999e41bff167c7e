use analysis_pipeline::model::{AnalysisResult, EnginePayload, RawIssue};
use analysis_pipeline::numbers::{i64_to_string, u64_to_string};
use analysis_pipeline::paths::{after_last_slash, with_extension};
use analysis_pipeline::pipeline::report_contents_for_value;
use analysis_pipeline::report::{
    default_report_filename, generate_results_html, render_html_report, reports_saved_message,
};
use analysis_pipeline::scoring::extract_category_scores;
use analysis_pipeline::text::replace_underscores;

fn empty_payload() -> EnginePayload {
    EnginePayload {
        summary_total_files: None,
        summary_issues_found: None,
        files: None,
        issues: None,
        analyzers_used: None,
        note: None,
    }
}

fn issue(issue_type: &str, severity: &str, file: &str) -> RawIssue {
    RawIssue {
        issue_type: String::from(issue_type),
        description: String::from("something is off"),
        severity: String::from(severity),
        file: String::from(file),
        line: None,
        suggestion: Some(String::from("fix it")),
    }
}

#[test]
fn failed_report_marks_status_failed_with_the_message() {
    let result = AnalysisResult {
        success: false,
        message: String::from("engine exploded badly"),
        results: None,
    };
    let html = render_html_report(&result, "proj", "2024-01-01 00:00:00 UTC", "{}");
    assert!(html.contains("FAILED"));
    assert!(html.contains("engine exploded badly"));
    assert!(!html.contains(">SUCCESS<"));
}

#[test]
fn successful_report_marks_status_success() {
    let result = AnalysisResult {
        success: true,
        message: String::from("all good"),
        results: Some(empty_payload()),
    };
    let html = render_html_report(&result, "proj", "2024-01-01 00:00:00 UTC", "{}");
    assert!(html.contains("SUCCESS"));
    assert!(html.contains("status-success"));
    assert!(html.contains("proj"));
    assert!(html.contains("2024-01-01 00:00:00 UTC"));
}

#[test]
fn issues_are_grouped_by_raw_severity() {
    let mut p = empty_payload();
    p.issues = Some(vec![
        issue("sql_injection_risk", "critical", "a/b/one.go"),
        issue("slow_response_time", "high", "two.go"),
        issue("comment_issue", "weird", "three.go"),
        issue("test_missing", "low", "four.go"),
        issue("unused_import", "medium", "five.go"),
    ]);
    let html = generate_results_html(Some(&p));
    assert!(html.contains("Critical Issues (1 issues)"));
    assert!(html.contains("High Priority (1 issues)"));
    // The unrecognized severity joins the medium group.
    assert!(html.contains("Medium Priority (2 issues)"));
    assert!(html.contains("Low Priority (1 issues)"));
    // The issue header shows the file's base name, the meta line the type
    // tag with underscores presented as spaces.
    assert!(html.contains("one.go"));
    assert!(html.contains("sql injection risk"));
    assert!(html.contains("fix it"));
}

#[test]
fn counts_come_from_arrays_when_present() {
    let mut p = empty_payload();
    p.files = Some(vec![String::from("a"), String::from("b")]);
    p.summary_total_files = Some(99);
    p.issues = Some(vec![issue("x", "low", "f")]);
    p.summary_issues_found = Some(42);
    let html = generate_results_html(Some(&p));
    // The array lengths win over the summary counts.
    assert!(html.contains(">2</span>"));
    assert!(html.contains(">1</span>"));
}

#[test]
fn counts_fall_back_to_summary_then_zero() {
    let mut p = empty_payload();
    p.summary_total_files = Some(7);
    let html = generate_results_html(Some(&p));
    assert!(html.contains(">7</span>"));
    assert!(html.contains(">0</span>"));
    let html_none = generate_results_html(None);
    assert!(html_none.contains(">0</span>"));
}

#[test]
fn empty_issue_list_congratulates() {
    let mut p = empty_payload();
    p.issues = Some(Vec::new());
    let html = generate_results_html(Some(&p));
    assert!(html.contains("Congratulations"));
}

#[test]
fn missing_issue_list_with_nonzero_count_says_no_details() {
    let mut p = empty_payload();
    p.summary_issues_found = Some(5);
    let html = generate_results_html(Some(&p));
    assert!(html.contains("detailed issue information is not available"));
}

#[test]
fn analyzers_used_are_listed_with_display_names() {
    let mut p = empty_payload();
    p.analyzers_used = Some(vec![String::from("security"), String::from("custom_probe")]);
    let html = generate_results_html(Some(&p));
    assert!(html.contains("Analyzers Used"));
    assert!(html.contains("Security"));
    // An unknown analyzer identifier is shown as itself.
    assert!(html.contains("custom_probe"));
}

#[test]
fn report_contents_for_a_transport_value() {
    let v: serde_json::Value = serde_json::from_str(
        "{\"success\":false,\"message\":\"it broke\",\"results\":{\"summary\":{\"total_files\":1,\"issues_found\":0}}}",
    )
    .unwrap();
    let (html, raw_json, result) = report_contents_for_value(&v, "myproj");
    assert!(!result.success);
    assert_eq!(result.message, "it broke");
    assert!(html.contains("FAILED"));
    assert!(html.contains("it broke"));
    assert!(html.contains("myproj"));
    // The raw artifact text is the pretty-printed payload part.
    assert!(raw_json.contains("total_files"));
    let reparsed: serde_json::Value = serde_json::from_str(&raw_json).unwrap();
    assert_eq!(reparsed["summary"]["total_files"].as_i64(), Some(1));
}

#[test]
fn artifact_paths_share_the_base_name() {
    assert_eq!(with_extension("report.pdf", "html"), "report.html");
    assert_eq!(with_extension("report.pdf", "json"), "report.json");
    assert_eq!(with_extension("a/b.tar.gz", "json"), "a/b.tar.json");
    assert_eq!(with_extension("noext", "html"), "noext.html");
    assert_eq!(with_extension(".hidden", "html"), ".hidden.html");
    assert_eq!(with_extension("dir.d/file", "html"), "dir.d/file.html");
    // A dot inside a backslash-separated directory is not an extension.
    assert_eq!(with_extension("C:\\dir.x\\file", "html"), "C:\\dir.x\\file.html");
    assert_eq!(with_extension("a\\b.txt", "html"), "a\\b.html");
    // A path ending in a separator gets the extension appended.
    assert_eq!(with_extension("dir/", "html"), "dir/.html");
}

#[test]
fn default_filename_carries_the_timestamp() {
    assert_eq!(
        default_report_filename(1700000000),
        "ElyAnalyzer-Report-1700000000.pdf"
    );
}

#[test]
fn saved_message_names_both_artifacts() {
    assert_eq!(
        reports_saved_message("r.html", "r.json"),
        "Reports saved:\n- HTML: r.html\n- JSON: r.json"
    );
}

#[test]
fn decimal_rendering() {
    assert_eq!(u64_to_string(0), "0");
    assert_eq!(u64_to_string(10), "10");
    assert_eq!(u64_to_string(123456789), "123456789");
    assert_eq!(i64_to_string(-5), "-5");
    assert_eq!(i64_to_string(i64::MIN), "-9223372036854775808");
    assert_eq!(i64_to_string(i64::MAX), "9223372036854775807");
}

#[test]
fn small_text_helpers() {
    assert_eq!(replace_underscores("a_b_c"), "a b c");
    assert_eq!(replace_underscores(""), "");
    assert_eq!(after_last_slash("a/b/c.txt"), "c.txt");
    assert_eq!(after_last_slash("noslash"), "noslash");
    // A backslash is not a separator here.
    assert_eq!(after_last_slash("a\\b"), "a\\b");
}

#[test]
fn category_scores_count_by_category_and_severity() {
    let issues = vec![
        issue("sql_injection_risk", "high", "a.go"),
        issue("sql_injection_risk", "low", "a.go"),
        issue("test_missing", "warning", "b.go"),
    ];
    let scores = extract_category_scores(&issues);
    assert_eq!(scores.len(), 15);
    let security = scores.iter().find(|s| s.category_name == "security").unwrap();
    assert_eq!(security.critical_issues, 1);
    assert_eq!(security.warning_issues, 0);
    assert_eq!(security.info_issues, 1);
    assert!(security.score < 100_000_000);
    assert_eq!(security.display_name, "Security Analysis");
    let testing = scores.iter().find(|s| s.category_name == "testing").unwrap();
    assert_eq!(testing.warning_issues, 1);
    let perf = scores.iter().find(|s| s.category_name == "performance").unwrap();
    assert_eq!(perf.score, 100_000_000);
    assert_eq!(perf.critical_issues, 0);
}
