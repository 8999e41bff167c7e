//! The issue classifier: a total mapping from a raw issue record to a
//! category token, via a closed lookup table over the engine's issue-type
//! tags with a description-keyword fallback, plus the closed 15-category
//! table (names, display names, identifiers) used for scoring.

use vstd::prelude::*;
use vstd::string::*;
use crate::ext::{lower_of, lowercase};
use crate::model::RawIssue;
use crate::text::{has_substring, contains_sub, str_eq};

verus! {

/// A category token the classifier can yield: exactly the closed, ordered
/// fifteen-category table that scoring iterates.  The classifier is total
/// onto this set; see `keyword_category_spec` for the explicit fold of the
/// two keyword rules whose natural tokens would fall outside it.
#[derive(PartialEq, Eq, Structural, Clone, Copy, Debug)]
pub enum IssueCategory {
    Security,
    CodeQuality,
    Performance,
    Accessibility,
    Documentation,
    Testing,
    Dependencies,
    Architecture,
    ErrorHandling,
    ApiDesign,
    Database,
    Compliance,
    Mobile,
    Logging,
    AiHallucinations,
}

/// The string token of a category, as the classifier reports it.
pub open spec fn category_token_spec(c: IssueCategory) -> Seq<char> {
    match c {
        IssueCategory::Security => "security"@,
        IssueCategory::CodeQuality => "code_quality"@,
        IssueCategory::Performance => "performance"@,
        IssueCategory::Accessibility => "accessibility"@,
        IssueCategory::Documentation => "documentation"@,
        IssueCategory::Testing => "testing"@,
        IssueCategory::Dependencies => "dependencies"@,
        IssueCategory::Architecture => "architecture"@,
        IssueCategory::ErrorHandling => "error_handling"@,
        IssueCategory::ApiDesign => "api_design"@,
        IssueCategory::Database => "database"@,
        IssueCategory::Compliance => "compliance"@,
        IssueCategory::Mobile => "mobile"@,
        IssueCategory::Logging => "logging"@,
        IssueCategory::AiHallucinations => "ai_hallucinations"@,
    }
}

/// The string token of a category.
pub fn category_token(c: IssueCategory) -> (r: String)
    ensures
        r@ == category_token_spec(c),
{
    match c {
        IssueCategory::Security => "security".to_owned(),
        IssueCategory::CodeQuality => "code_quality".to_owned(),
        IssueCategory::Performance => "performance".to_owned(),
        IssueCategory::Accessibility => "accessibility".to_owned(),
        IssueCategory::Documentation => "documentation".to_owned(),
        IssueCategory::Testing => "testing".to_owned(),
        IssueCategory::Dependencies => "dependencies".to_owned(),
        IssueCategory::Architecture => "architecture".to_owned(),
        IssueCategory::ErrorHandling => "error_handling".to_owned(),
        IssueCategory::ApiDesign => "api_design".to_owned(),
        IssueCategory::Database => "database".to_owned(),
        IssueCategory::Compliance => "compliance".to_owned(),
        IssueCategory::Mobile => "mobile".to_owned(),
        IssueCategory::Logging => "logging".to_owned(),
        IssueCategory::AiHallucinations => "ai_hallucinations".to_owned(),
    }
}

/// Every category token is non-empty.
pub proof fn lemma_token_nonempty(c: IssueCategory)
    ensures
        category_token_spec(c).len() > 0,
{
    broadcast use vstd::string::group_string_axioms;

    reveal_strlit("security");
    reveal_strlit("code_quality");
    reveal_strlit("performance");
    reveal_strlit("accessibility");
    reveal_strlit("documentation");
    reveal_strlit("testing");
    reveal_strlit("dependencies");
    reveal_strlit("architecture");
    reveal_strlit("error_handling");
    reveal_strlit("api_design");
    reveal_strlit("database");
    reveal_strlit("compliance");
    reveal_strlit("mobile");
    reveal_strlit("logging");
    reveal_strlit("ai_hallucinations");
}

/// The stable display name of a scored category.
pub open spec fn category_display_spec(c: IssueCategory) -> Seq<char> {
    match c {
        IssueCategory::Security => "Security Analysis"@,
        IssueCategory::CodeQuality => "Code Quality"@,
        IssueCategory::Performance => "Performance"@,
        IssueCategory::Accessibility => "Accessibility"@,
        IssueCategory::Documentation => "Documentation"@,
        IssueCategory::Testing => "Testing Coverage"@,
        IssueCategory::Dependencies => "Dependencies"@,
        IssueCategory::Architecture => "Architecture"@,
        IssueCategory::ErrorHandling => "Error Handling"@,
        IssueCategory::ApiDesign => "API Design"@,
        IssueCategory::Database => "Database Analysis"@,
        IssueCategory::Compliance => "Compliance & Privacy"@,
        IssueCategory::Mobile => "Mobile & Cross-Platform"@,
        IssueCategory::Logging => "Logging & Observability"@,
        IssueCategory::AiHallucinations => "AI Hallucinations"@,
    }
}

/// The stable display name of a category.
pub fn category_display(c: IssueCategory) -> (r: String)
    ensures
        r@ == category_display_spec(c),
{
    match c {
        IssueCategory::Security => "Security Analysis".to_owned(),
        IssueCategory::CodeQuality => "Code Quality".to_owned(),
        IssueCategory::Performance => "Performance".to_owned(),
        IssueCategory::Accessibility => "Accessibility".to_owned(),
        IssueCategory::Documentation => "Documentation".to_owned(),
        IssueCategory::Testing => "Testing Coverage".to_owned(),
        IssueCategory::Dependencies => "Dependencies".to_owned(),
        IssueCategory::Architecture => "Architecture".to_owned(),
        IssueCategory::ErrorHandling => "Error Handling".to_owned(),
        IssueCategory::ApiDesign => "API Design".to_owned(),
        IssueCategory::Database => "Database Analysis".to_owned(),
        IssueCategory::Compliance => "Compliance & Privacy".to_owned(),
        IssueCategory::Mobile => "Mobile & Cross-Platform".to_owned(),
        IssueCategory::Logging => "Logging & Observability".to_owned(),
        IssueCategory::AiHallucinations => "AI Hallucinations".to_owned(),
    }
}

/// The closed, ordered table of the fifteen scored categories.
pub open spec fn scored_categories() -> Seq<IssueCategory> {
    seq![
        IssueCategory::Security,
        IssueCategory::CodeQuality,
        IssueCategory::Performance,
        IssueCategory::Accessibility,
        IssueCategory::Documentation,
        IssueCategory::Testing,
        IssueCategory::Dependencies,
        IssueCategory::Architecture,
        IssueCategory::ErrorHandling,
        IssueCategory::ApiDesign,
        IssueCategory::Database,
        IssueCategory::Compliance,
        IssueCategory::Mobile,
        IssueCategory::Logging,
        IssueCategory::AiHallucinations,
    ]
}

/// The closed, ordered table of the fifteen scored categories.
pub fn scored_category_list() -> (r: Vec<IssueCategory>)
    ensures
        r@ == scored_categories(),
{
    let mut r: Vec<IssueCategory> = Vec::new();
    r.push(IssueCategory::Security);
    r.push(IssueCategory::CodeQuality);
    r.push(IssueCategory::Performance);
    r.push(IssueCategory::Accessibility);
    r.push(IssueCategory::Documentation);
    r.push(IssueCategory::Testing);
    r.push(IssueCategory::Dependencies);
    r.push(IssueCategory::Architecture);
    r.push(IssueCategory::ErrorHandling);
    r.push(IssueCategory::ApiDesign);
    r.push(IssueCategory::Database);
    r.push(IssueCategory::Compliance);
    r.push(IssueCategory::Mobile);
    r.push(IssueCategory::Logging);
    r.push(IssueCategory::AiHallucinations);
    proof {
        assert(r@ =~= scored_categories());
    }
    r
}

/// The stable identifier bound to a scored category name; unknown names
/// map to the all-zero identifier.
pub open spec fn category_id_spec(name: Seq<char>) -> Seq<char> {
    if name == "security"@ {
        "11111111-1111-1111-1111-111111111111"@
    } else if name == "code_quality"@ {
        "22222222-2222-2222-2222-222222222222"@
    } else if name == "performance"@ {
        "33333333-3333-3333-3333-333333333333"@
    } else if name == "accessibility"@ {
        "44444444-4444-4444-4444-444444444444"@
    } else if name == "documentation"@ {
        "55555555-5555-5555-5555-555555555555"@
    } else if name == "testing"@ {
        "66666666-6666-6666-6666-666666666666"@
    } else if name == "dependencies"@ {
        "77777777-7777-7777-7777-777777777777"@
    } else if name == "architecture"@ {
        "88888888-8888-8888-8888-888888888888"@
    } else if name == "error_handling"@ {
        "99999999-9999-9999-9999-999999999999"@
    } else if name == "api_design"@ {
        "aaaaaaaa-aaaa-aaaa-aaaa-aaaaaaaaaaaa"@
    } else if name == "database"@ {
        "bbbbbbbb-bbbb-bbbb-bbbb-bbbbbbbbbbbb"@
    } else if name == "compliance"@ {
        "cccccccc-cccc-cccc-cccc-cccccccccccc"@
    } else if name == "mobile"@ {
        "dddddddd-dddd-dddd-dddd-dddddddddddd"@
    } else if name == "logging"@ {
        "eeeeeeee-eeee-eeee-eeee-eeeeeeeeeeee"@
    } else if name == "ai_hallucinations"@ {
        "ffffffff-ffff-ffff-ffff-ffffffffffff"@
    } else {
        "00000000-0000-0000-0000-000000000000"@
    }
}

/// Resolves a category name to its stable identifier.
pub fn get_category_id(category_name: &str) -> (r: String)
    ensures
        r@ == category_id_spec(category_name@),
{
    if str_eq(category_name, "security") {
        "11111111-1111-1111-1111-111111111111".to_owned()
    } else if str_eq(category_name, "code_quality") {
        "22222222-2222-2222-2222-222222222222".to_owned()
    } else if str_eq(category_name, "performance") {
        "33333333-3333-3333-3333-333333333333".to_owned()
    } else if str_eq(category_name, "accessibility") {
        "44444444-4444-4444-4444-444444444444".to_owned()
    } else if str_eq(category_name, "documentation") {
        "55555555-5555-5555-5555-555555555555".to_owned()
    } else if str_eq(category_name, "testing") {
        "66666666-6666-6666-6666-666666666666".to_owned()
    } else if str_eq(category_name, "dependencies") {
        "77777777-7777-7777-7777-777777777777".to_owned()
    } else if str_eq(category_name, "architecture") {
        "88888888-8888-8888-8888-888888888888".to_owned()
    } else if str_eq(category_name, "error_handling") {
        "99999999-9999-9999-9999-999999999999".to_owned()
    } else if str_eq(category_name, "api_design") {
        "aaaaaaaa-aaaa-aaaa-aaaa-aaaaaaaaaaaa".to_owned()
    } else if str_eq(category_name, "database") {
        "bbbbbbbb-bbbb-bbbb-bbbb-bbbbbbbbbbbb".to_owned()
    } else if str_eq(category_name, "compliance") {
        "cccccccc-cccc-cccc-cccc-cccccccccccc".to_owned()
    } else if str_eq(category_name, "mobile") {
        "dddddddd-dddd-dddd-dddd-dddddddddddd".to_owned()
    } else if str_eq(category_name, "logging") {
        "eeeeeeee-eeee-eeee-eeee-eeeeeeeeeeee".to_owned()
    } else if str_eq(category_name, "ai_hallucinations") {
        "ffffffff-ffff-ffff-ffff-ffffffffffff".to_owned()
    } else {
        "00000000-0000-0000-0000-000000000000".to_owned()
    }
}

/// The issue-type tags of the security analyzer.
pub open spec fn is_security_type(t: Seq<char>) -> bool {
    t == "input_validation_missing"@
        || t == "sql_injection_risk"@
        || t == "xss_vulnerability"@
        || t == "csrf_vulnerability"@
        || t == "authentication_weakness"@
        || t == "authorization_missing"@
        || t == "insecure_data_storage"@
        || t == "insecure_api_call"@
        || t == "https_missing"@
        || t == "outdated_dependency"@
        || t == "session_management_issue"@
        || t == "security_logging_missing"@
        || t == "rate_limiting_missing"@
        || t == "vulnerable_dependency"@
        || t == "secret_exposure"@
        || t == "deployment_security_issue"@
}

fn security_type(t: &str) -> (r: bool)
    ensures
        r == is_security_type(t@),
{
    str_eq(t, "input_validation_missing")
        || str_eq(t, "sql_injection_risk")
        || str_eq(t, "xss_vulnerability")
        || str_eq(t, "csrf_vulnerability")
        || str_eq(t, "authentication_weakness")
        || str_eq(t, "authorization_missing")
        || str_eq(t, "insecure_data_storage")
        || str_eq(t, "insecure_api_call")
        || str_eq(t, "https_missing")
        || str_eq(t, "outdated_dependency")
        || str_eq(t, "session_management_issue")
        || str_eq(t, "security_logging_missing")
        || str_eq(t, "rate_limiting_missing")
        || str_eq(t, "vulnerable_dependency")
        || str_eq(t, "secret_exposure")
        || str_eq(t, "deployment_security_issue")
}

/// The issue-type tags of the performance analyzer.
pub open spec fn is_performance_type(t: Seq<char>) -> bool {
    t == "performance_issue"@
        || t == "caching_missing"@
        || t == "memory_leak_risk"@
        || t == "slow_database_query"@
        || t == "slow_response_time"@
        || t == "performance_bottleneck"@
}

fn performance_type(t: &str) -> (r: bool)
    ensures
        r == is_performance_type(t@),
{
    str_eq(t, "performance_issue")
        || str_eq(t, "caching_missing")
        || str_eq(t, "memory_leak_risk")
        || str_eq(t, "slow_database_query")
        || str_eq(t, "slow_response_time")
        || str_eq(t, "performance_bottleneck")
}

/// The issue-type tags of the code_quality analyzer.
pub open spec fn is_code_quality_type(t: Seq<char>) -> bool {
    t == "code_duplication"@
        || t == "high_cyclomatic_complexity"@
        || t == "poor_code_readability"@
        || t == "solid_principle_violation"@
        || t == "comment_issue"@
        || t == "refactor_needed"@
        || t == "testability_issue"@
        || t == "design_pattern_missing"@
        || t == "dependency_injection_missing"@
        || t == "inconsistent_naming_pattern"@
        || t == "ai_generated_placeholder"@
        || t == "unused_import"@
        || t == "incomplete_implementation"@
        || t == "framework_mismatch"@
        || t == "over_engineering"@
        || t == "deprecated_import"@
        || t == "missing_header_guard"@
}

fn code_quality_type(t: &str) -> (r: bool)
    ensures
        r == is_code_quality_type(t@),
{
    str_eq(t, "code_duplication")
        || str_eq(t, "high_cyclomatic_complexity")
        || str_eq(t, "poor_code_readability")
        || str_eq(t, "solid_principle_violation")
        || str_eq(t, "comment_issue")
        || str_eq(t, "refactor_needed")
        || str_eq(t, "testability_issue")
        || str_eq(t, "design_pattern_missing")
        || str_eq(t, "dependency_injection_missing")
        || str_eq(t, "inconsistent_naming_pattern")
        || str_eq(t, "ai_generated_placeholder")
        || str_eq(t, "unused_import")
        || str_eq(t, "incomplete_implementation")
        || str_eq(t, "framework_mismatch")
        || str_eq(t, "over_engineering")
        || str_eq(t, "deprecated_import")
        || str_eq(t, "missing_header_guard")
}

/// The issue-type tags of the accessibility analyzer.
pub open spec fn is_accessibility_type(t: Seq<char>) -> bool {
    t == "accessibility_issue"@
        || t == "ux_issue"@
        || t == "mobile_compatibility_issue"@
        || t == "contrast_issue"@
}

fn accessibility_type(t: &str) -> (r: bool)
    ensures
        r == is_accessibility_type(t@),
{
    str_eq(t, "accessibility_issue")
        || str_eq(t, "ux_issue")
        || str_eq(t, "mobile_compatibility_issue")
        || str_eq(t, "contrast_issue")
}

/// The issue-type tags of the documentation analyzer.
pub open spec fn is_documentation_type(t: Seq<char>) -> bool {
    t == "documentation_missing"@
        || t == "documentation_quality_issue"@
        || t == "api_documentation_missing"@
        || t == "user_documentation_missing"@
        || t == "architecture_documentation_missing"@
}

fn documentation_type(t: &str) -> (r: bool)
    ensures
        r == is_documentation_type(t@),
{
    str_eq(t, "documentation_missing")
        || str_eq(t, "documentation_quality_issue")
        || str_eq(t, "api_documentation_missing")
        || str_eq(t, "user_documentation_missing")
        || str_eq(t, "architecture_documentation_missing")
}

/// The issue-type tags of the testing analyzer.
pub open spec fn is_testing_type(t: Seq<char>) -> bool {
    t == "test_missing"@
        || t == "low_test_coverage"@
        || t == "test_not_isolated"@
        || t == "mocking_issue"@
        || t == "ci_pipeline_missing"@
}

fn testing_type(t: &str) -> (r: bool)
    ensures
        r == is_testing_type(t@),
{
    str_eq(t, "test_missing")
        || str_eq(t, "low_test_coverage")
        || str_eq(t, "test_not_isolated")
        || str_eq(t, "mocking_issue")
        || str_eq(t, "ci_pipeline_missing")
}

/// The issue-type tags of the dependencies analyzer.
pub open spec fn is_dependencies_type(t: Seq<char>) -> bool {
    t == "missing_required_import"@
        || t == "unused_dependency"@
        || t == "too_many_dependencies"@
        || t == "singleton_misuse"@
        || t == "typescript_type_error"@
        || t == "license_conflict"@
        || t == "legal_risk"@
        || t == "missing_package_dependency"@
        || t == "versioning_issue"@
}

fn dependencies_type(t: &str) -> (r: bool)
    ensures
        r == is_dependencies_type(t@),
{
    str_eq(t, "missing_required_import")
        || str_eq(t, "unused_dependency")
        || str_eq(t, "too_many_dependencies")
        || str_eq(t, "singleton_misuse")
        || str_eq(t, "typescript_type_error")
        || str_eq(t, "license_conflict")
        || str_eq(t, "legal_risk")
        || str_eq(t, "missing_package_dependency")
        || str_eq(t, "versioning_issue")
}

/// The issue-type tags of the architecture analyzer.
pub open spec fn is_architecture_type(t: Seq<char>) -> bool {
    t == "multiple_same_services"@
        || t == "config_file_conflict"@
        || t == "wrong_directory_structure"@
        || t == "backend_frontend_integration_error"@
        || t == "architecture_issue"@
        || t == "dip_violation"@
        || t == "isp_violation"@
        || t == "missing_dependency_injection"@
        || t == "lsp_violation_type_check"@
        || t == "ocp_violation_ifelse"@
        || t == "ocp_violation_switch"@
        || t == "duplicate_entity_files"@
        || t == "circular_dependency"@
}

fn architecture_type(t: &str) -> (r: bool)
    ensures
        r == is_architecture_type(t@),
{
    str_eq(t, "multiple_same_services")
        || str_eq(t, "config_file_conflict")
        || str_eq(t, "wrong_directory_structure")
        || str_eq(t, "backend_frontend_integration_error")
        || str_eq(t, "architecture_issue")
        || str_eq(t, "dip_violation")
        || str_eq(t, "isp_violation")
        || str_eq(t, "missing_dependency_injection")
        || str_eq(t, "lsp_violation_type_check")
        || str_eq(t, "ocp_violation_ifelse")
        || str_eq(t, "ocp_violation_switch")
        || str_eq(t, "duplicate_entity_files")
        || str_eq(t, "circular_dependency")
}

/// The issue-type tags of the error_handling analyzer.
pub open spec fn is_error_handling_type(t: Seq<char>) -> bool {
    t == "error_handling_issue"@
        || t == "insufficient_logging"@
        || t == "wrong_log_level"@
        || t == "pii_exposure_in_logs"@
        || t == "monitoring_missing"@
        || t == "distributed_tracing_missing"@
}

fn error_handling_type(t: &str) -> (r: bool)
    ensures
        r == is_error_handling_type(t@),
{
    str_eq(t, "error_handling_issue")
        || str_eq(t, "insufficient_logging")
        || str_eq(t, "wrong_log_level")
        || str_eq(t, "pii_exposure_in_logs")
        || str_eq(t, "monitoring_missing")
        || str_eq(t, "distributed_tracing_missing")
}

/// The issue-type tags of the api_design analyzer.
pub open spec fn is_api_design_type(t: Seq<char>) -> bool {
    t == "api_design_issue"@
        || t == "missing_api_versioning"@
        || t == "missing_pagination"@
        || t == "caching_missing_api"@
        || t == "insecure_api_design"@
        || t == "performance_issue_api"@
        || t == "graphql_issue"@
        || t == "microservices_issue"@
        || t == "rest_compliance_issue"@
        || t == "api_consistency_issue"@
        || t == "content_negotiation_issue"@
        || t == "async_pattern_missing"@
        || t == "security_headers_missing"@
}

fn api_design_type(t: &str) -> (r: bool)
    ensures
        r == is_api_design_type(t@),
{
    str_eq(t, "api_design_issue")
        || str_eq(t, "missing_api_versioning")
        || str_eq(t, "missing_pagination")
        || str_eq(t, "caching_missing_api")
        || str_eq(t, "insecure_api_design")
        || str_eq(t, "performance_issue_api")
        || str_eq(t, "graphql_issue")
        || str_eq(t, "microservices_issue")
        || str_eq(t, "rest_compliance_issue")
        || str_eq(t, "api_consistency_issue")
        || str_eq(t, "content_negotiation_issue")
        || str_eq(t, "async_pattern_missing")
        || str_eq(t, "security_headers_missing")
}

/// The issue-type tags of the database analyzer.
pub open spec fn is_database_type(t: Seq<char>) -> bool {
    t == "database_column_mismatch"@
        || t == "database_index_missing"@
        || t == "database_issue"@
}

fn database_type(t: &str) -> (r: bool)
    ensures
        r == is_database_type(t@),
{
    str_eq(t, "database_column_mismatch")
        || str_eq(t, "database_index_missing")
        || str_eq(t, "database_issue")
}

/// The issue-type tags of the compliance analyzer.
pub open spec fn is_compliance_type(t: Seq<char>) -> bool {
    t == "gdpr_violation"@
        || t == "compliance_issue"@
        || t == "privacy_policy_missing"@
}

fn compliance_type(t: &str) -> (r: bool)
    ensures
        r == is_compliance_type(t@),
{
    str_eq(t, "gdpr_violation")
        || str_eq(t, "compliance_issue")
        || str_eq(t, "privacy_policy_missing")
}

/// The issue-type tags of the mobile analyzer.
pub open spec fn is_mobile_type(t: Seq<char>) -> bool {
    t == "missing_expo_config"@
        || t == "localstorage_in_mobile"@
}

fn mobile_type(t: &str) -> (r: bool)
    ensures
        r == is_mobile_type(t@),
{
    str_eq(t, "missing_expo_config")
        || str_eq(t, "localstorage_in_mobile")
}

/// The issue-type tags of the logging analyzer.
pub open spec fn is_logging_type(t: Seq<char>) -> bool {
    t == "logging_insufficient"@
}

fn logging_type(t: &str) -> (r: bool)
    ensures
        r == is_logging_type(t@),
{
    str_eq(t, "logging_insufficient")
}

/// The issue-type tags of the ai_hallucinations analyzer.
pub open spec fn is_ai_hallucinations_type(t: Seq<char>) -> bool {
    t == "ai_hallucination"@
        || t == "missing_auth_context"@
}

fn ai_hallucinations_type(t: &str) -> (r: bool)
    ensures
        r == is_ai_hallucinations_type(t@),
{
    str_eq(t, "ai_hallucination")
        || str_eq(t, "missing_auth_context")
}

/// The category bound to a known issue-type tag, if any.
pub open spec fn type_category_spec(t: Seq<char>) -> Option<IssueCategory> {
    if is_security_type(t) {
        Some(IssueCategory::Security)
    } else if is_performance_type(t) {
        Some(IssueCategory::Performance)
    } else if is_code_quality_type(t) {
        Some(IssueCategory::CodeQuality)
    } else if is_accessibility_type(t) {
        Some(IssueCategory::Accessibility)
    } else if is_documentation_type(t) {
        Some(IssueCategory::Documentation)
    } else if is_testing_type(t) {
        Some(IssueCategory::Testing)
    } else if is_dependencies_type(t) {
        Some(IssueCategory::Dependencies)
    } else if is_architecture_type(t) {
        Some(IssueCategory::Architecture)
    } else if is_error_handling_type(t) {
        Some(IssueCategory::ErrorHandling)
    } else if is_api_design_type(t) {
        Some(IssueCategory::ApiDesign)
    } else if is_database_type(t) {
        Some(IssueCategory::Database)
    } else if is_compliance_type(t) {
        Some(IssueCategory::Compliance)
    } else if is_mobile_type(t) {
        Some(IssueCategory::Mobile)
    } else if is_logging_type(t) {
        Some(IssueCategory::Logging)
    } else if is_ai_hallucinations_type(t) {
        Some(IssueCategory::AiHallucinations)
    } else {
        None
    }
}

fn type_category(t: &str) -> (r: Option<IssueCategory>)
    ensures
        r == type_category_spec(t@),
{
    if security_type(t) {
        Some(IssueCategory::Security)
    } else if performance_type(t) {
        Some(IssueCategory::Performance)
    } else if code_quality_type(t) {
        Some(IssueCategory::CodeQuality)
    } else if accessibility_type(t) {
        Some(IssueCategory::Accessibility)
    } else if documentation_type(t) {
        Some(IssueCategory::Documentation)
    } else if testing_type(t) {
        Some(IssueCategory::Testing)
    } else if dependencies_type(t) {
        Some(IssueCategory::Dependencies)
    } else if architecture_type(t) {
        Some(IssueCategory::Architecture)
    } else if error_handling_type(t) {
        Some(IssueCategory::ErrorHandling)
    } else if api_design_type(t) {
        Some(IssueCategory::ApiDesign)
    } else if database_type(t) {
        Some(IssueCategory::Database)
    } else if compliance_type(t) {
        Some(IssueCategory::Compliance)
    } else if mobile_type(t) {
        Some(IssueCategory::Mobile)
    } else if logging_type(t) {
        Some(IssueCategory::Logging)
    } else if ai_hallucinations_type(t) {
        Some(IssueCategory::AiHallucinations)
    } else {
        None
    }
}

/// The keyword fallback over the lower-cased description, checked in a
/// fixed priority order; no match defaults to the code-quality category.
///
/// Two of the keyword rules name urgencies outside the closed category
/// table: complexity and reliability.  They are folded here, explicitly,
/// into their nearest scored categories — complexity findings into
/// code quality, compliance/GDPR findings into compliance — so that every
/// classified issue contributes to exactly one scored category.
pub open spec fn keyword_category_spec(lo: Seq<char>) -> IssueCategory {
    if has_substring(lo, "security"@) || has_substring(lo, "vulnerability"@) {
        IssueCategory::Security
    } else if has_substring(lo, "performance"@) || has_substring(lo, "memory"@) {
        IssueCategory::Performance
    } else if has_substring(lo, "test"@) {
        IssueCategory::Testing
    } else if has_substring(lo, "document"@) {
        IssueCategory::Documentation
    } else if has_substring(lo, "error"@) {
        IssueCategory::ErrorHandling
    } else if has_substring(lo, "complex"@) {
        IssueCategory::CodeQuality
    } else if has_substring(lo, "architect"@) {
        IssueCategory::Architecture
    } else if has_substring(lo, "depend"@) {
        IssueCategory::Dependencies
    } else if has_substring(lo, "compliance"@) || has_substring(lo, "gdpr"@) {
        IssueCategory::Compliance
    } else {
        IssueCategory::CodeQuality
    }
}

/// Classification of one issue: the type-tag table first, then the
/// keyword fallback over the lower-cased description.
pub open spec fn classify_issue_spec(t: Seq<char>, d: Seq<char>) -> IssueCategory {
    match type_category_spec(t) {
        Some(c) => c,
        None => keyword_category_spec(lower_of(d)),
    }
}

/// Maps an issue-type tag and description to a category token.
pub fn classify_issue(issue_type: &str, description: &str) -> (r: IssueCategory)
    ensures
        r == classify_issue_spec(issue_type@, description@),
{
    match type_category(issue_type) {
        Some(c) => c,
        None => {
            let lo = lowercase(description);
            if contains_sub(lo.as_str(), "security") || contains_sub(lo.as_str(), "vulnerability") {
                IssueCategory::Security
            } else if contains_sub(lo.as_str(), "performance") || contains_sub(lo.as_str(), "memory") {
                IssueCategory::Performance
            } else if contains_sub(lo.as_str(), "test") {
                IssueCategory::Testing
            } else if contains_sub(lo.as_str(), "document") {
                IssueCategory::Documentation
            } else if contains_sub(lo.as_str(), "error") {
                IssueCategory::ErrorHandling
            } else if contains_sub(lo.as_str(), "complex") {
                IssueCategory::CodeQuality
            } else if contains_sub(lo.as_str(), "architect") {
                IssueCategory::Architecture
            } else if contains_sub(lo.as_str(), "depend") {
                IssueCategory::Dependencies
            } else if contains_sub(lo.as_str(), "compliance") || contains_sub(lo.as_str(), "gdpr") {
                IssueCategory::Compliance
            } else {
                IssueCategory::CodeQuality
            }
        },
    }
}

/// The category token of one raw issue record.  The classifier is total:
/// it always yields a token, and the token is never empty.
pub fn get_issue_category(issue: &RawIssue) -> (r: Option<String>)
    ensures
        r is Some,
        r->0@ == category_token_spec(classify_issue_spec(issue.issue_type@, issue.description@)),
        r->0@.len() > 0,
{
    let c = classify_issue(issue.issue_type.as_str(), issue.description.as_str());
    proof {
        lemma_token_nonempty(classify_issue_spec(issue.issue_type@, issue.description@));
    }
    Some(category_token(c))
}

} // verus!
