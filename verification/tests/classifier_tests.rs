use analysis_pipeline::category::get_category_id;
use analysis_pipeline::category::get_issue_category;
use analysis_pipeline::model::RawIssue;
use analysis_pipeline::severity::{get_issue_severity, normalize_severity, severity_label};

fn issue(issue_type: &str, description: &str, severity: &str) -> RawIssue {
    RawIssue {
        issue_type: String::from(issue_type),
        description: String::from(description),
        severity: String::from(severity),
        file: String::from("src/main.go"),
        line: Some(1),
        suggestion: None,
    }
}

fn category_of(issue_type: &str, description: &str) -> String {
    get_issue_category(&issue(issue_type, description, "high")).unwrap()
}

#[test]
fn known_type_tags_map_to_their_categories() {
    assert_eq!(category_of("sql_injection_risk", ""), "security");
    assert_eq!(category_of("performance_bottleneck", ""), "performance");
    assert_eq!(category_of("code_duplication", ""), "code_quality");
    assert_eq!(category_of("ux_issue", ""), "accessibility");
    assert_eq!(category_of("api_documentation_missing", ""), "documentation");
    assert_eq!(category_of("test_missing", ""), "testing");
    assert_eq!(category_of("missing_required_import", ""), "dependencies");
    assert_eq!(category_of("circular_dependency", ""), "architecture");
    assert_eq!(category_of("error_handling_issue", ""), "error_handling");
    assert_eq!(category_of("api_design_issue", ""), "api_design");
    assert_eq!(category_of("database_issue", ""), "database");
    assert_eq!(category_of("gdpr_violation", ""), "compliance");
    assert_eq!(category_of("localstorage_in_mobile", ""), "mobile");
    assert_eq!(category_of("logging_insufficient", ""), "logging");
    assert_eq!(category_of("ai_hallucination", ""), "ai_hallucinations");
}

#[test]
fn classifier_is_total_with_code_quality_default() {
    // An empty or unknown type with no matching keyword still yields a
    // non-empty category token.
    let c = category_of("", "");
    assert!(!c.is_empty());
    assert_eq!(c, "code_quality");
    assert_eq!(category_of("unknown_tag_xyz", "nothing matches here"), "code_quality");
}

#[test]
fn keyword_fallback_follows_priority_order() {
    // The complexity and reliability keyword rules fold into the scored
    // code_quality and compliance categories.
    assert_eq!(category_of("mystery", "a security hole"), "security");
    assert_eq!(category_of("mystery", "possible vulnerability"), "security");
    assert_eq!(category_of("mystery", "memory pressure"), "performance");
    assert_eq!(category_of("mystery", "missing test"), "testing");
    assert_eq!(category_of("mystery", "update the documents"), "documentation");
    assert_eq!(category_of("mystery", "unhandled error"), "error_handling");
    assert_eq!(category_of("mystery", "overly complex code"), "code_quality");
    assert_eq!(category_of("mystery", "bad architecture"), "architecture");
    assert_eq!(category_of("mystery", "outdated dependency"), "dependencies");
    assert_eq!(category_of("mystery", "gdpr concern"), "compliance");
    // Security outranks performance when both keywords appear.
    assert_eq!(category_of("mystery", "security and memory"), "security");
}

#[test]
fn keyword_fallback_lowercases_the_description() {
    // The match is over the lower-cased description, so upper-case text
    // still hits the keyword rules.
    assert_eq!(category_of("mystery", "SECURITY ISSUE"), "security");
    assert_eq!(category_of("mystery", "Memory Leak"), "performance");
}

#[test]
fn category_ids_are_stable() {
    assert_eq!(get_category_id("security"), "11111111-1111-1111-1111-111111111111");
    assert_eq!(get_category_id("code_quality"), "22222222-2222-2222-2222-222222222222");
    assert_eq!(get_category_id("ai_hallucinations"), "ffffffff-ffff-ffff-ffff-ffffffffffff");
    assert_eq!(get_category_id("not_a_category"), "00000000-0000-0000-0000-000000000000");
    assert_eq!(get_category_id(""), "00000000-0000-0000-0000-000000000000");
}

#[test]
fn severity_normalization_is_total() {
    let label = |s: &str| severity_label(normalize_severity(s));
    assert_eq!(label("high"), "critical");
    assert_eq!(label("error"), "critical");
    assert_eq!(label("critical"), "critical");
    assert_eq!(label("medium"), "warning");
    assert_eq!(label("warning"), "warning");
    assert_eq!(label("warn"), "warning");
    assert_eq!(label("low"), "info");
    assert_eq!(label("info"), "info");
    assert_eq!(label("note"), "info");
    assert_eq!(label("informational"), "info");
    assert_eq!(label(""), "info");
    assert_eq!(label("catastrophic"), "info");
    // Matching is exact, not case-folded.
    assert_eq!(label("HIGH"), "info");
}

#[test]
fn severity_normalization_is_idempotent() {
    let inputs = ["high", "error", "critical", "medium", "warning", "warn", "low", "info", "note",
        "informational", "", "whatever"];
    for s in inputs {
        let once = severity_label(normalize_severity(s));
        let twice = severity_label(normalize_severity(&once));
        assert_eq!(once, twice);
    }
}

#[test]
fn issue_severity_reads_the_record() {
    assert_eq!(get_issue_severity(&issue("x", "", "high")), "critical");
    assert_eq!(get_issue_severity(&issue("x", "", "note")), "info");
    assert_eq!(get_issue_severity(&issue("x", "", "")), "info");
}
