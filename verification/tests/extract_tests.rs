use analysis_pipeline::extract::extract_json_candidate;
use analysis_pipeline::lines::{split_lines, join_from};
use analysis_pipeline::extract::fallback_counts;
use analysis_pipeline::numbers::scan_count;
use analysis_pipeline::pipeline::process_engine_output;

#[test]
fn split_lines_matches_std_lines() {
    let cases = [
        "",
        "a",
        "a\n",
        "a\nb",
        "a\r\nb",
        "a\n\nb",
        "bare\r",
        "log line 1\nlog line 2\n{\"x\":1}",
    ];
    for s in cases {
        let mine = split_lines(s);
        let std_lines: Vec<&str> = s.lines().collect();
        assert_eq!(mine.len(), std_lines.len(), "line count for {:?}", s);
        for (a, b) in mine.iter().zip(std_lines.iter()) {
            assert_eq!(a, b, "line content for {:?}", s);
        }
    }
}

#[test]
fn join_from_rebuilds_a_tail() {
    let v = vec![String::from("a"), String::from("b"), String::from("c")];
    assert_eq!(join_from(&v, 0, "\n"), "a\nb\nc");
    assert_eq!(join_from(&v, 1, "\n"), "b\nc");
    assert_eq!(join_from(&v, 3, "\n"), "");
}

#[test]
fn extraction_round_trip_recovers_the_document() {
    let json_text = "{\"summary\":{\"total_files\":3,\"issues_found\":1},\"issues\":[{\"type\":\"sql_injection_risk\",\"severity\":\"high\",\"description\":\"x\",\"file\":\"a/b.go\"}]}";
    let stdout = format!("log line 1\nlog line 2\n{}", json_text);
    assert_eq!(extract_json_candidate(&stdout), json_text);

    // The recovered payload equals what parsing the document directly
    // yields.
    let direct: serde_json::Value = serde_json::from_str(json_text).unwrap();
    let result = process_engine_output(&stdout, true);
    assert!(result.success);
    let payload = result.results.unwrap();
    assert_eq!(
        payload.summary_total_files,
        direct["summary"]["total_files"].as_i64()
    );
    assert_eq!(
        payload.summary_issues_found,
        direct["summary"]["issues_found"].as_i64()
    );
    let issues = payload.issues.unwrap();
    let direct_issues = direct["issues"].as_array().unwrap();
    assert_eq!(issues.len(), direct_issues.len());
    assert_eq!(issues[0].issue_type, direct_issues[0]["type"].as_str().unwrap());
    assert_eq!(issues[0].severity, direct_issues[0]["severity"].as_str().unwrap());
    assert_eq!(issues[0].file, direct_issues[0]["file"].as_str().unwrap());
}

#[test]
fn extraction_with_indented_json_line() {
    let stdout = "starting\n  {\"a\": 1}";
    // The first line whose first non-whitespace character is a brace
    // starts the candidate.
    assert_eq!(extract_json_candidate(stdout), "  {\"a\": 1}");
}

#[test]
fn extraction_without_brace_takes_whole_stdout() {
    let stdout = "abc\ndef";
    assert_eq!(extract_json_candidate(stdout), "abc\ndef");
}

#[test]
fn fallback_counts_scrape_the_log() {
    let stdout = "Starting engine\nFound 42 files to analyze\nworking\nSummary: 7 issues\n";
    let ls = split_lines(stdout);
    let (files, issues) = fallback_counts(&ls);
    assert_eq!(files, 42);
    assert_eq!(issues, 7);
}

#[test]
fn fallback_result_carries_the_scraped_counts() {
    let stdout = "Found 42 files to analyze\nSummary: 7 issues\n";
    let result = process_engine_output(stdout, true);
    assert!(result.success);
    assert!(result.message.contains("42 files scanned"));
    assert!(result.message.contains("7 issues found"));
    let payload = result.results.unwrap();
    assert_eq!(payload.summary_total_files, Some(42));
    assert_eq!(payload.summary_issues_found, Some(7));
    assert_eq!(payload.issues.unwrap().len(), 0);
    assert_eq!(
        payload.note.unwrap(),
        "Analysis completed but detailed results not available in JSON format"
    );
    assert!(payload.files.is_none());
    assert!(payload.analyzers_used.is_none());
}

#[test]
fn fallback_counts_default_to_zero() {
    let stdout = "nothing to see here\n";
    let result = process_engine_output(stdout, true);
    assert!(result.success);
    assert!(result.message.contains("0 files scanned"));
    assert!(result.message.contains("No issues found!"));
    let payload = result.results.unwrap();
    assert_eq!(payload.summary_total_files, Some(0));
    assert_eq!(payload.summary_issues_found, Some(0));
}

#[test]
fn scan_count_takes_leftmost_match_and_rejects_overflow() {
    assert_eq!(scan_count("Found 12 files and 34 files", " files"), Some(12));
    assert_eq!(scan_count("12 bananas", " files"), None);
    // A count that overflows a 32-bit signed parse falls back to 0.
    assert_eq!(
        scan_count("Found 99999999999999999999 files to analyze", " files"),
        Some(0)
    );
    assert_eq!(scan_count("Found 2147483647 files", " files"), Some(2147483647));
    assert_eq!(scan_count("Found 2147483648 files", " files"), Some(0));
}

#[test]
fn failed_exit_surfaces_stdout() {
    let result = process_engine_output("boom happened", false);
    assert!(!result.success);
    assert_eq!(result.message, "Analysis failed: boom happened");
    assert!(result.results.is_none());
}
