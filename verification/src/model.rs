//! The data model of the analysis pipeline: requests, raw engine findings,
//! the recovered payload, results, and per-category scores.

use vstd::prelude::*;

verus! {

/// A request to analyze a project or a set of individual files.  When
/// `files` is present and non-empty it takes precedence over `project_path`
/// as the analysis target; the project path is always carried for context.
pub struct AnalysisRequest {
    pub project_path: String,
    pub scan_types: Vec<String>,
    pub files: Option<Vec<String>>,
}

/// One finding reported by the external analysis engine.  Duplicates are
/// possible and are not deduplicated.
pub struct RawIssue {
    /// The engine's issue-type tag (the `type` field of the record).
    pub issue_type: String,
    pub description: String,
    /// Free severity vocabulary; an absent field is carried as the empty
    /// string, which every reader treats by its documented default.
    pub severity: String,
    pub file: String,
    pub line: Option<i64>,
    pub suggestion: Option<String>,
}

/// The structured payload recovered from the engine's stdout.  Every
/// recognized top-level field is optional: a missing field stays `None`
/// and each reader substitutes its documented default.
pub struct EnginePayload {
    pub summary_total_files: Option<i64>,
    pub summary_issues_found: Option<i64>,
    pub files: Option<Vec<String>>,
    pub issues: Option<Vec<RawIssue>>,
    pub analyzers_used: Option<Vec<String>>,
    /// Annotation carried by the synthesized fallback payload when the
    /// stdout held no parseable document.
    pub note: Option<String>,
}

/// The outcome of one analysis run, immutable after construction.
pub struct AnalysisResult {
    pub success: bool,
    pub message: String,
    pub results: Option<EnginePayload>,
}

/// A per-category health score.  The score is a fixed-point value counted
/// in millionths of a point: 100_000_000 stands for a perfect 100.0.
pub struct CategoryScore {
    pub category_name: String,
    pub display_name: String,
    pub score: u64,
    pub critical_issues: u32,
    pub warning_issues: u32,
    pub info_issues: u32,
}

/// Per-project scores as handed to an external dashboard.
pub struct DashboardData {
    pub project_name: String,
    pub user_id: String,
    pub category_scores: Vec<CategoryScore>,
}

} // verus!
