//! The report assembler: renders an analysis result as a self-contained
//! HTML document grouping issues by severity, with a summary block and the
//! list of analyzers exercised, and derives the names of the two sibling
//! report artifacts.

use vstd::prelude::*;
use vstd::string::*;
use crate::lines::line_views;
use crate::model::{AnalysisResult, EnginePayload, RawIssue};
use crate::numbers::{dec_str, dec_str_signed, u64_to_string, i64_to_string};
use crate::paths::{basename_spec, after_last_slash, with_extension_spec, with_extension};
use crate::text::{
    has_substring, lemma_substring_of_concat, str_eq, underscores_to_spaces, replace_underscores,
};

verus! {

/// The four presentation groups of the report, keyed by the raw severity
/// string of an issue: `critical`, `high`, `medium` and `low`, with every
/// other value (an absent severity included) presented as medium.
#[derive(PartialEq, Eq, Structural, Clone, Copy, Debug)]
pub enum SeverityGroup {
    Critical,
    High,
    Medium,
    Low,
}

/// The presentation group of a raw severity string.
pub open spec fn severity_group_spec(s: Seq<char>) -> SeverityGroup {
    if s == "critical"@ {
        SeverityGroup::Critical
    } else if s == "high"@ {
        SeverityGroup::High
    } else if s == "medium"@ {
        SeverityGroup::Medium
    } else if s == "low"@ {
        SeverityGroup::Low
    } else {
        SeverityGroup::Medium
    }
}

/// Maps a raw severity string to its presentation group.
pub fn severity_group(s: &str) -> (r: SeverityGroup)
    ensures
        r == severity_group_spec(s@),
{
    if str_eq(s, "critical") {
        SeverityGroup::Critical
    } else if str_eq(s, "high") {
        SeverityGroup::High
    } else if str_eq(s, "medium") {
        SeverityGroup::Medium
    } else if str_eq(s, "low") {
        SeverityGroup::Low
    } else {
        SeverityGroup::Medium
    }
}

/// The section title of a presentation group.
pub open spec fn group_title_spec(g: SeverityGroup) -> Seq<char> {
    match g {
        SeverityGroup::Critical => "\u{1f6a8} Critical Issues"@,
        SeverityGroup::High => "\u{1f525} High Priority"@,
        SeverityGroup::Medium => "\u{26a0}\u{fe0f} Medium Priority"@,
        SeverityGroup::Low => "\u{2139}\u{fe0f} Low Priority"@,
    }
}

fn group_title(g: SeverityGroup) -> (r: &'static str)
    ensures
        r@ == group_title_spec(g),
{
    match g {
        SeverityGroup::Critical => "\u{1f6a8} Critical Issues",
        SeverityGroup::High => "\u{1f525} High Priority",
        SeverityGroup::Medium => "\u{26a0}\u{fe0f} Medium Priority",
        SeverityGroup::Low => "\u{2139}\u{fe0f} Low Priority",
    }
}

/// The CSS class of a presentation group.
pub open spec fn group_css_spec(g: SeverityGroup) -> Seq<char> {
    match g {
        SeverityGroup::Critical => "critical"@,
        SeverityGroup::High => "high"@,
        SeverityGroup::Medium => "medium"@,
        SeverityGroup::Low => "low"@,
    }
}

fn group_css(g: SeverityGroup) -> (r: &'static str)
    ensures
        r@ == group_css_spec(g),
{
    match g {
        SeverityGroup::Critical => "critical",
        SeverityGroup::High => "high",
        SeverityGroup::Medium => "medium",
        SeverityGroup::Low => "low",
    }
}

/// How many issues fall in a presentation group.
pub open spec fn count_group(issues: Seq<RawIssue>, g: SeverityGroup) -> int
    decreases issues.len(),
{
    if issues.len() == 0 {
        0
    } else {
        count_group(issues.drop_last(), g) + if severity_group_spec(issues.last().severity@) == g {
            1int
        } else {
            0int
        }
    }
}

pub proof fn lemma_count_group_bound(issues: Seq<RawIssue>, g: SeverityGroup)
    ensures
        0 <= count_group(issues, g) <= issues.len(),
    decreases issues.len(),
{
    if issues.len() > 0 {
        lemma_count_group_bound(issues.drop_last(), g);
    }
}

/// The rendered description of an issue: its description text, or the
/// placeholder for an absent (empty) one.
pub open spec fn description_text_spec(d: Seq<char>) -> Seq<char> {
    if d.len() == 0 {
        "No description"@
    } else {
        d
    }
}

/// The rendered suggestion of an issue.
pub open spec fn suggestion_text_spec(s: Option<String>) -> Seq<char> {
    match s {
        Some(t) => t@,
        None => "No suggestion available"@,
    }
}

/// The rendered type tag of an issue: underscores presented as spaces,
/// with a placeholder for an absent (empty) tag.
pub open spec fn type_text_spec(t: Seq<char>) -> Seq<char> {
    if t.len() == 0 {
        underscores_to_spaces("General Issue"@)
    } else {
        underscores_to_spaces(t)
    }
}

/// One rendered issue item: header with the file's base name, the
/// description, the suggestion, and the file/type meta line.
pub open spec fn issue_item_spec(issue: RawIssue, g: SeverityGroup) -> Seq<char> {
    "\n<div class=\"issue-item "@ + group_css_spec(g)
        + "\">\n  <div class=\"issue-header\">\u{1f4c1} "@ + basename_spec(issue.file@)
        + "</div>\n  <div class=\"issue-description\"><strong>\u{1f50d} Problem:</strong> "@
        + description_text_spec(issue.description@)
        + "</div>\n  <div class=\"issue-suggestion\"><strong>\u{1f4a1} Solution:</strong> "@
        + suggestion_text_spec(issue.suggestion)
        + "</div>\n  <div class=\"issue-meta\">\u{1f4c2} File: "@ + issue.file@ + " | Type: "@
        + type_text_spec(issue.issue_type@) + "</div>\n</div>\n"@
}

/// Renders one issue item.
fn render_issue_item(issue: &RawIssue, g: SeverityGroup) -> (r: String)
    ensures
        r@ == issue_item_spec(*issue, g),
{
    let mut r = "\n<div class=\"issue-item ".to_owned();
    r.append(group_css(g));
    r.append("\">\n  <div class=\"issue-header\">\u{1f4c1} ");
    r.append(after_last_slash(issue.file.as_str()));
    r.append("</div>\n  <div class=\"issue-description\"><strong>\u{1f50d} Problem:</strong> ");
    if issue.description.as_str().is_empty() {
        r.append("No description");
    } else {
        r.append(issue.description.as_str());
    }
    r.append("</div>\n  <div class=\"issue-suggestion\"><strong>\u{1f4a1} Solution:</strong> ");
    match &issue.suggestion {
        Some(t) => {
            r.append(t.as_str());
        },
        None => {
            r.append("No suggestion available");
        },
    }
    r.append("</div>\n  <div class=\"issue-meta\">\u{1f4c2} File: ");
    r.append(issue.file.as_str());
    r.append(" | Type: ");
    if issue.issue_type.as_str().is_empty() {
        let t = replace_underscores("General Issue");
        r.append(t.as_str());
    } else {
        let t = replace_underscores(issue.issue_type.as_str());
        r.append(t.as_str());
    }
    r.append("</div>\n</div>\n");
    r
}

/// The rendered items of one presentation group, in input order.
pub open spec fn group_items_spec(issues: Seq<RawIssue>, g: SeverityGroup) -> Seq<char>
    decreases issues.len(),
{
    if issues.len() == 0 {
        Seq::empty()
    } else {
        group_items_spec(issues.drop_last(), g) + if severity_group_spec(issues.last().severity@)
            == g {
            issue_item_spec(issues.last(), g)
        } else {
            Seq::empty()
        }
    }
}

/// The rendered section of one presentation group: nothing when the group
/// is empty, else a titled block carrying the issue count and the items.
pub open spec fn severity_section_spec(issues: Seq<RawIssue>, g: SeverityGroup) -> Seq<char> {
    if count_group(issues, g) == 0 {
        Seq::empty()
    } else {
        "\n<div class=\"severity-section\">\n  <div class=\"severity-title\">"@ + group_title_spec(
            g,
        ) + " ("@ + dec_str(count_group(issues, g)) + " issues)</div>\n"@ + group_items_spec(
            issues,
            g,
        ) + "</div>\n"@
    }
}

/// Renders the section of one presentation group.
fn render_severity_section(issues: &Vec<RawIssue>, g: SeverityGroup) -> (r: String)
    requires
        issues@.len() <= 0xffffffff,
    ensures
        r@ == severity_section_spec(issues@, g),
{
    let mut count: u32 = 0;
    let mut i: usize = 0;
    proof {
        assert(issues@.take(0) =~= Seq::<RawIssue>::empty());
    }
    while i < issues.len()
        invariant
            i <= issues@.len() <= 0xffffffff,
            count as int == count_group(issues@.take(i as int), g),
        decreases issues@.len() - i,
    {
        proof {
            lemma_count_group_bound(issues@.take(i as int), g);
            assert(issues@.take(i + 1).drop_last() =~= issues@.take(i as int));
            assert(issues@.take(i + 1).last() == issues@[i as int]);
        }
        if severity_group(issues[i].severity.as_str()) == g {
            count += 1;
        }
        i += 1;
    }
    proof {
        assert(issues@.take(issues@.len() as int) =~= issues@);
    }
    if count == 0 {
        let empty = String::new();
        proof {
            assert(empty@ =~= severity_section_spec(issues@, g));
        }
        return empty;
    }
    let mut r = "\n<div class=\"severity-section\">\n  <div class=\"severity-title\">".to_owned();
    r.append(group_title(g));
    r.append(" (");
    let count_text = u64_to_string(count as u64);
    r.append(count_text.as_str());
    r.append(" issues)</div>\n");
    let mut j: usize = 0;
    let ghost head = r@;
    proof {
        assert(issues@.take(0) =~= Seq::<RawIssue>::empty());
        assert(head + Seq::<char>::empty() =~= head);
    }
    while j < issues.len()
        invariant
            j <= issues@.len(),
            r@ == head + group_items_spec(issues@.take(j as int), g),
        decreases issues@.len() - j,
    {
        proof {
            assert(issues@.take(j + 1).drop_last() =~= issues@.take(j as int));
            assert(issues@.take(j + 1).last() == issues@[j as int]);
        }
        if severity_group(issues[j].severity.as_str()) == g {
            let item = render_issue_item(&issues[j], g);
            r.append(item.as_str());
        } else {
            proof {
                assert(r@ + Seq::<char>::empty() =~= r@);
            }
        }
        proof {
            assert(head + group_items_spec(issues@.take(j as int), g) + issue_item_spec(
                issues@[j as int],
                g,
            ) =~= head + (group_items_spec(issues@.take(j as int), g) + issue_item_spec(
                issues@[j as int],
                g,
            )));
            assert(head + group_items_spec(issues@.take(j as int), g) + Seq::<char>::empty() =~= head
                + (group_items_spec(issues@.take(j as int), g) + Seq::<char>::empty()));
        }
        j += 1;
    }
    r.append("</div>\n");
    proof {
        assert(issues@.take(issues@.len() as int) =~= issues@);
        assert(r@ =~= severity_section_spec(issues@, g));
    }
    r
}

/// The display label of an analyzer identifier in the "analyzers used"
/// block; an unknown identifier is shown as itself.
pub open spec fn analyzer_display_spec(name: Seq<char>) -> Seq<char> {
    if name == "security"@ {
        "\u{1f512} Security"@
    } else if name == "code_quality"@ {
        "\u{2728} Code Quality"@
    } else if name == "performance"@ {
        "\u{26a1} Performance"@
    } else if name == "accessibility"@ {
        "\u{267f} Accessibility"@
    } else if name == "compliance"@ {
        "\u{1f3db}\u{fe0f} Compliance"@
    } else if name == "architecture"@ {
        "\u{1f3d7}\u{fe0f} Architecture"@
    } else if name == "testing"@ {
        "\u{1f9ea} Testing"@
    } else if name == "documentation"@ {
        "\u{1f4da} Documentation"@
    } else if name == "dependencies"@ {
        "\u{1f4e6} Dependencies"@
    } else if name == "logging"@ {
        "\u{1f4dd} Logging"@
    } else if name == "error_handling"@ {
        "\u{1f6a8} Error Handling"@
    } else if name == "api_design"@ {
        "\u{1f50c} API Design"@
    } else if name == "database"@ {
        "\u{1f5c4}\u{fe0f} Database"@
    } else if name == "ai_hallucinations"@ {
        "\u{1f916} AI Hallucinations"@
    } else if name == "mobile_crossplatform"@ {
        "\u{1f4f1} Mobile & Cross-Platform"@
    } else {
        name
    }
}

/// The display label of an analyzer identifier.
pub fn analyzer_display(name: &str) -> (r: String)
    ensures
        r@ == analyzer_display_spec(name@),
{
    if str_eq(name, "security") {
        "\u{1f512} Security".to_owned()
    } else if str_eq(name, "code_quality") {
        "\u{2728} Code Quality".to_owned()
    } else if str_eq(name, "performance") {
        "\u{26a1} Performance".to_owned()
    } else if str_eq(name, "accessibility") {
        "\u{267f} Accessibility".to_owned()
    } else if str_eq(name, "compliance") {
        "\u{1f3db}\u{fe0f} Compliance".to_owned()
    } else if str_eq(name, "architecture") {
        "\u{1f3d7}\u{fe0f} Architecture".to_owned()
    } else if str_eq(name, "testing") {
        "\u{1f9ea} Testing".to_owned()
    } else if str_eq(name, "documentation") {
        "\u{1f4da} Documentation".to_owned()
    } else if str_eq(name, "dependencies") {
        "\u{1f4e6} Dependencies".to_owned()
    } else if str_eq(name, "logging") {
        "\u{1f4dd} Logging".to_owned()
    } else if str_eq(name, "error_handling") {
        "\u{1f6a8} Error Handling".to_owned()
    } else if str_eq(name, "api_design") {
        "\u{1f50c} API Design".to_owned()
    } else if str_eq(name, "database") {
        "\u{1f5c4}\u{fe0f} Database".to_owned()
    } else if str_eq(name, "ai_hallucinations") {
        "\u{1f916} AI Hallucinations".to_owned()
    } else if str_eq(name, "mobile_crossplatform") {
        "\u{1f4f1} Mobile & Cross-Platform".to_owned()
    } else {
        name.to_owned()
    }
}

/// The rendered badges of the analyzers used, in input order.
pub open spec fn badges_spec(names: Seq<Seq<char>>) -> Seq<char>
    decreases names.len(),
{
    if names.len() == 0 {
        Seq::empty()
    } else {
        badges_spec(names.drop_last()) + "\n<span class=\"analyzer-badge\">"@
            + analyzer_display_spec(names.last()) + "</span>"@
    }
}

/// The "analyzers used" block: nothing when the list is empty.
pub open spec fn analyzers_section_spec(names: Seq<Seq<char>>) -> Seq<char> {
    if names.len() == 0 {
        Seq::empty()
    } else {
        "\n<div class=\"analyzers-used\">\n  <h3>\u{1f527} Analyzers Used</h3>\n  <div class=\"analyzer-badges\">"@
            + badges_spec(names) + "\n  </div>\n</div>\n"@
    }
}

/// Renders the "analyzers used" block.
fn render_analyzers_section(names: &Vec<String>) -> (r: String)
    ensures
        r@ == analyzers_section_spec(line_views(names@)),
{
    if names.len() == 0 {
        let empty = String::new();
        proof {
            assert(empty@ =~= analyzers_section_spec(line_views(names@)));
        }
        return empty;
    }
    let mut r =
        "\n<div class=\"analyzers-used\">\n  <h3>\u{1f527} Analyzers Used</h3>\n  <div class=\"analyzer-badges\">".to_owned();
    let ghost head = r@;
    let mut i: usize = 0;
    proof {
        assert(line_views(names@).take(0) =~= Seq::<Seq<char>>::empty());
        assert(head + Seq::<char>::empty() =~= head);
    }
    while i < names.len()
        invariant
            i <= names@.len(),
            r@ == head + badges_spec(line_views(names@).take(i as int)),
        decreases names@.len() - i,
    {
        proof {
            assert(line_views(names@).take(i + 1).drop_last() =~= line_views(names@).take(i as int));
            assert(line_views(names@).take(i + 1).last() == names@[i as int]@);
        }
        r.append("\n<span class=\"analyzer-badge\">");
        let label = analyzer_display(names[i].as_str());
        r.append(label.as_str());
        r.append("</span>");
        proof {
            let pre = badges_spec(line_views(names@).take(i as int));
            assert(head + pre + "\n<span class=\"analyzer-badge\">"@ + analyzer_display_spec(
                names@[i as int]@,
            ) + "</span>"@ =~= head + (pre + "\n<span class=\"analyzer-badge\">"@
                + analyzer_display_spec(names@[i as int]@) + "</span>"@));
        }
        i += 1;
    }
    r.append("\n  </div>\n</div>\n");
    proof {
        assert(line_views(names@).take(names@.len() as int) =~= line_views(names@));
        assert(r@ =~= analyzers_section_spec(line_views(names@)));
    }
    r
}

/// The value of an optional count field, with the documented default 0.
pub open spec fn opt_count(o: Option<i64>) -> int {
    match o {
        Some(v) => v as int,
        None => 0,
    }
}

/// The rendered files-scanned count: the length of the files array when
/// one is present, else the summary's total, else 0.
pub open spec fn files_scanned_text_spec(results: Option<EnginePayload>) -> Seq<char> {
    match results {
        None => dec_str_signed(0),
        Some(p) => if p.files is Some {
            dec_str(p.files->0@.len() as int)
        } else {
            dec_str_signed(opt_count(p.summary_total_files))
        },
    }
}

/// The rendered issues-found count: the length of the issues array when
/// one is present, else the summary's count, else 0.
pub open spec fn issues_found_text_spec(results: Option<EnginePayload>) -> Seq<char> {
    match results {
        None => dec_str_signed(0),
        Some(p) => if p.issues is Some {
            dec_str(p.issues->0@.len() as int)
        } else {
            dec_str_signed(opt_count(p.summary_issues_found))
        },
    }
}

/// The style block of the results section.
pub open spec fn results_css() -> Seq<char> {
    ".summary-stats { display: flex; gap: 30px; margin: 20px 0; justify-content: center; }\n.stat-item { text-align: center; padding: 20px; background: #f8f9fa; border-radius: 8px; border-left: 4px solid #667eea; min-width: 150px; }\n.stat-number { display: block; font-size: 2.5em; font-weight: bold; color: #667eea; }\n.stat-label { color: #6c757d; font-size: 0.9em; text-transform: uppercase; letter-spacing: 1px; }\n.issue-item { margin: 15px 0; padding: 20px; border-radius: 8px; border-left: 4px solid #dc3545; background: #fff; box-shadow: 0 2px 8px rgba(0,0,0,0.1); }\n.issue-item.critical { border-left-color: #8b5cf6; }\n.issue-item.high { border-left-color: #dc3545; }\n.issue-item.medium { border-left-color: #f59e0b; }\n.issue-item.low { border-left-color: #10b981; }\n.issue-header { font-weight: bold; color: #1f2937; margin-bottom: 10px; font-size: 1.1em; }\n.issue-description { color: #4b5563; margin-bottom: 12px; line-height: 1.6; }\n.issue-suggestion { background: #f3f4f6; padding: 12px; border-radius: 6px; font-size: 0.9em; color: #374151; border-left: 3px solid #6b7280; }\n.issue-meta { font-size: 0.85em; color: #9ca3af; margin-top: 10px; font-style: italic; }\n.severity-section { margin: 30px 0; }\n.severity-title { font-size: 1.3em; font-weight: bold; margin-bottom: 15px; padding: 10px 0; border-bottom: 2px solid #e5e7eb; }\n.no-issues { text-align: center; padding: 40px; color: #10b981; background: #f0fdf4; border-radius: 8px; margin: 20px 0; }\n.no-details { text-align: center; padding: 20px; color: #6b7280; }\n.analyzers-used { background: #f8f9fa; padding: 20px; border-radius: 8px; margin: 20px 0; border-left: 4px solid #28a745; }\n.analyzer-badge { background: #28a745; color: white; padding: 5px 12px; border-radius: 15px; font-size: 0.9em; font-weight: bold; display: inline-block; margin: 3px; }\n"@
}

/// The success block shown when no issues were found.
pub open spec fn no_issues_block() -> Seq<char> {
    "\n<div class=\"no-issues\">\n  <h3>\u{1f389} Congratulations!</h3>\n  <p>No issues found in your code. Great job!</p>\n</div>\n"@
}

/// The block shown when only counts, not detailed issues, are known.
pub open spec fn no_details_block() -> Seq<char> {
    "\n<div class=\"no-details\">\n  <p>Analysis completed but detailed issue information is not available.</p>\n</div>\n"@
}

/// The issues part of the results section: the four severity sections
/// when detailed issues exist, the success block for an empty issue list
/// (or a zero count without a list), else the no-details block.
pub open spec fn issues_part_spec(results: Option<EnginePayload>) -> Seq<char> {
    match results {
        Some(p) => match p.issues {
            Some(issues) => if issues@.len() > 0 {
                severity_section_spec(issues@, SeverityGroup::Critical) + severity_section_spec(
                    issues@,
                    SeverityGroup::High,
                ) + severity_section_spec(issues@, SeverityGroup::Medium) + severity_section_spec(
                    issues@,
                    SeverityGroup::Low,
                )
            } else {
                no_issues_block()
            },
            None => if opt_count(p.summary_issues_found) == 0 {
                no_issues_block()
            } else {
                no_details_block()
            },
        },
        None => no_issues_block(),
    }
}

/// The analyzers part of the results section.
pub open spec fn analyzers_part_spec(results: Option<EnginePayload>) -> Seq<char> {
    match results {
        Some(p) => match p.analyzers_used {
            Some(names) => analyzers_section_spec(line_views(names@)),
            None => Seq::empty(),
        },
        None => Seq::empty(),
    }
}

/// The whole results section of the report.
pub open spec fn results_html_spec(results: Option<EnginePayload>) -> Seq<char> {
    "<style>\n"@ + results_css() + "</style>\n"@
        + "\n<div class=\"summary-stats\">\n  <div class=\"stat-item\">\n    <span class=\"stat-number\">"@
        + files_scanned_text_spec(results)
        + "</span>\n    <span class=\"stat-label\">Files Scanned</span>\n  </div>\n  <div class=\"stat-item\">\n    <span class=\"stat-number\">"@
        + issues_found_text_spec(results)
        + "</span>\n    <span class=\"stat-label\">Issues Found</span>\n  </div>\n</div>\n"@
        + analyzers_part_spec(results) + issues_part_spec(results)
}

/// A payload small enough to render (its issue list is indexable by a
/// 32-bit count, a machine limit of the renderer).
pub open spec fn payload_size_ok(results: Option<EnginePayload>) -> bool {
    match results {
        Some(p) => match p.issues {
            Some(issues) => issues@.len() <= 0xffffffff,
            None => true,
        },
        None => true,
    }
}

/// Renders the results section of the report: summary statistics with the
/// documented defaults for missing fields, the analyzers used, and the
/// issues grouped by severity (critical, high, medium, low).
pub fn generate_results_html(results: Option<&EnginePayload>) -> (r: String)
    requires
        payload_size_ok(match results {
            Some(p) => Some(*p),
            None => None,
        }),
    ensures
        r@ == results_html_spec(
            match results {
                Some(p) => Some(*p),
                None => None,
            },
        ),
{
    let ghost gres: Option<EnginePayload> = match results {
        Some(p) => Some(*p),
        None => None,
    };
    let mut r = "<style>\n".to_owned();
    r.append(
        ".summary-stats { display: flex; gap: 30px; margin: 20px 0; justify-content: center; }\n.stat-item { text-align: center; padding: 20px; background: #f8f9fa; border-radius: 8px; border-left: 4px solid #667eea; min-width: 150px; }\n.stat-number { display: block; font-size: 2.5em; font-weight: bold; color: #667eea; }\n.stat-label { color: #6c757d; font-size: 0.9em; text-transform: uppercase; letter-spacing: 1px; }\n.issue-item { margin: 15px 0; padding: 20px; border-radius: 8px; border-left: 4px solid #dc3545; background: #fff; box-shadow: 0 2px 8px rgba(0,0,0,0.1); }\n.issue-item.critical { border-left-color: #8b5cf6; }\n.issue-item.high { border-left-color: #dc3545; }\n.issue-item.medium { border-left-color: #f59e0b; }\n.issue-item.low { border-left-color: #10b981; }\n.issue-header { font-weight: bold; color: #1f2937; margin-bottom: 10px; font-size: 1.1em; }\n.issue-description { color: #4b5563; margin-bottom: 12px; line-height: 1.6; }\n.issue-suggestion { background: #f3f4f6; padding: 12px; border-radius: 6px; font-size: 0.9em; color: #374151; border-left: 3px solid #6b7280; }\n.issue-meta { font-size: 0.85em; color: #9ca3af; margin-top: 10px; font-style: italic; }\n.severity-section { margin: 30px 0; }\n.severity-title { font-size: 1.3em; font-weight: bold; margin-bottom: 15px; padding: 10px 0; border-bottom: 2px solid #e5e7eb; }\n.no-issues { text-align: center; padding: 40px; color: #10b981; background: #f0fdf4; border-radius: 8px; margin: 20px 0; }\n.no-details { text-align: center; padding: 20px; color: #6b7280; }\n.analyzers-used { background: #f8f9fa; padding: 20px; border-radius: 8px; margin: 20px 0; border-left: 4px solid #28a745; }\n.analyzer-badge { background: #28a745; color: white; padding: 5px 12px; border-radius: 15px; font-size: 0.9em; font-weight: bold; display: inline-block; margin: 3px; }\n",
    );
    r.append("</style>\n");
    r.append(
        "\n<div class=\"summary-stats\">\n  <div class=\"stat-item\">\n    <span class=\"stat-number\">",
    );
    let files_text: String = match results {
        None => i64_to_string(0),
        Some(p) => match &p.files {
            Some(fs) => u64_to_string(fs.len() as u64),
            None => match p.summary_total_files {
                Some(v) => i64_to_string(v),
                None => i64_to_string(0),
            },
        },
    };
    r.append(files_text.as_str());
    r.append(
        "</span>\n    <span class=\"stat-label\">Files Scanned</span>\n  </div>\n  <div class=\"stat-item\">\n    <span class=\"stat-number\">",
    );
    let issues_text: String = match results {
        None => i64_to_string(0),
        Some(p) => match &p.issues {
            Some(issues) => u64_to_string(issues.len() as u64),
            None => match p.summary_issues_found {
                Some(v) => i64_to_string(v),
                None => i64_to_string(0),
            },
        },
    };
    r.append(issues_text.as_str());
    r.append("</span>\n    <span class=\"stat-label\">Issues Found</span>\n  </div>\n</div>\n");
    let analyzers_part: String = match results {
        Some(p) => match &p.analyzers_used {
            Some(names) => render_analyzers_section(names),
            None => String::new(),
        },
        None => String::new(),
    };
    proof {
        assert(analyzers_part@ == analyzers_part_spec(gres));
    }
    r.append(analyzers_part.as_str());
    let issues_part: String = match results {
        Some(p) => match &p.issues {
            Some(issues) => {
                if issues.len() > 0 {
                    let mut part = render_severity_section(issues, SeverityGroup::Critical);
                    let s_high = render_severity_section(issues, SeverityGroup::High);
                    part.append(s_high.as_str());
                    let s_med = render_severity_section(issues, SeverityGroup::Medium);
                    part.append(s_med.as_str());
                    let s_low = render_severity_section(issues, SeverityGroup::Low);
                    part.append(s_low.as_str());
                    part
                } else {
                    "\n<div class=\"no-issues\">\n  <h3>\u{1f389} Congratulations!</h3>\n  <p>No issues found in your code. Great job!</p>\n</div>\n".to_owned()
                }
            },
            None => {
                let zero_count = match p.summary_issues_found {
                    Some(v) => v == 0,
                    None => true,
                };
                if zero_count {
                    "\n<div class=\"no-issues\">\n  <h3>\u{1f389} Congratulations!</h3>\n  <p>No issues found in your code. Great job!</p>\n</div>\n".to_owned()
                } else {
                    "\n<div class=\"no-details\">\n  <p>Analysis completed but detailed issue information is not available.</p>\n</div>\n".to_owned()
                }
            },
        },
        None => {
            "\n<div class=\"no-issues\">\n  <h3>\u{1f389} Congratulations!</h3>\n  <p>No issues found in your code. Great job!</p>\n</div>\n".to_owned()
        },
    };
    proof {
        assert(issues_part@ == issues_part_spec(gres));
    }
    r.append(issues_part.as_str());
    proof {
        assert(r@ =~= results_html_spec(gres));
    }
    r
}

/// The opening of the report document, up to the title's project name.
pub open spec fn report_head1() -> Seq<char> {
    "<!DOCTYPE html>\n<html lang=\"en\">\n<head>\n<meta charset=\"UTF-8\">\n<meta name=\"viewport\" content=\"width=device-width, initial-scale=1.0\">\n<title>ElyAnalyzer Analysis Report - "@
}

/// The document styles and header, between the title and the header's
/// project name.
pub open spec fn report_head2() -> Seq<char> {
    "</title>\n<style>\nbody { font-family: 'Segoe UI', Tahoma, Geneva, Verdana, sans-serif; line-height: 1.6; color: #333; max-width: 1200px; margin: 0 auto; padding: 20px; background: #f8f9fa; }\n.header { background: linear-gradient(135deg, #667eea 0%, #764ba2 100%); color: white; padding: 30px; border-radius: 10px; margin-bottom: 30px; text-align: center; }\n.header h1 { margin: 0; font-size: 2.5em; }\n.header p { margin: 10px 0 0 0; opacity: 0.9; }\n.section { background: white; padding: 25px; margin-bottom: 20px; border-radius: 8px; box-shadow: 0 2px 10px rgba(0,0,0,0.1); }\n.section h2 { color: #4a5568; border-bottom: 3px solid #667eea; padding-bottom: 10px; margin-top: 0; }\npre { background: #f7fafc; padding: 15px; border-radius: 5px; border-left: 4px solid #667eea; overflow-x: auto; font-size: 0.9em; }\n.footer { text-align: center; color: #718096; margin-top: 40px; padding-top: 20px; border-top: 1px solid #e2e8f0; }\n.status-badge { display: inline-block; padding: 4px 12px; border-radius: 20px; font-size: 0.8em; font-weight: bold; text-transform: uppercase; }\n.status-success { background: #c6f6d5; color: #22543d; }\n.status-error { background: #fed7d7; color: #742a2a; }\n</style>\n</head>\n<body>\n<div class=\"header\">\n  <h1>\u{1f33c} ElyAnalyzer Analysis Report</h1>\n  <p>Project: <strong>"@
}

/// Between the header's project name and the timestamp.
pub open spec fn report_head3() -> Seq<char> {
    "</strong></p>\n  <p>Generated: "@
}

/// Between the timestamp and the status badge's class.
pub open spec fn report_head4() -> Seq<char> {
    "</p>\n</div>\n\n<div class=\"section\">\n  <h2>\u{1f4ca} Analysis Summary</h2>\n  <p><strong>Status:</strong>\n    <span class=\"status-badge "@
}

/// Between the status badge's class and its text.
pub open spec fn report_mid1() -> Seq<char> {
    "\">\n      "@
}

/// Between the status text and the message.
pub open spec fn report_mid2() -> Seq<char> {
    "\n    </span>\n  </p>\n  <p><strong>Message:</strong> "@
}

/// Between the message and the results section.
pub open spec fn report_mid3() -> Seq<char> {
    "</p>\n</div>\n\n<div class=\"section\">\n  <h2>\u{1f50d} Analysis Results</h2>\n"@
}

/// Between the results section and the raw JSON block.
pub open spec fn report_mid4() -> Seq<char> {
    "</div>\n\n<div class=\"section\">\n  <h2>\u{1f4cb} Raw Data</h2>\n  <details>\n    <summary>Click to view raw JSON data</summary>\n    <pre>"@
}

/// Between the raw JSON block and the footer's timestamp.
pub open spec fn report_foot1() -> Seq<char> {
    "</pre>\n  </details>\n</div>\n\n<div class=\"footer\">\n  <p>Generated by <strong>ElyAnalyzer</strong> - Advanced Code Analysis Tool</p>\n  <p>Report generated at "@
}

/// The end of the document.
pub open spec fn report_foot2() -> Seq<char> {
    "</p>\n</div>\n</body>\n</html>\n"@
}

/// The whole report document for a result, a project name, a timestamp,
/// the rendered results section, and the raw JSON text: a header block, a
/// summary block whose status badge reads SUCCESS or FAILED and carries
/// the result's message, the results section, the raw data block, and a
/// footer.
pub open spec fn html_report_spec(
    success: bool,
    message: Seq<char>,
    project_name: Seq<char>,
    timestamp: Seq<char>,
    results_html: Seq<char>,
    raw_json: Seq<char>,
) -> Seq<char> {
    report_head1() + project_name + report_head2() + project_name + report_head3() + timestamp
        + report_head4() + (if success {
        "status-success"@
    } else {
        "status-error"@
    }) + report_mid1() + (if success {
        "SUCCESS"@
    } else {
        "FAILED"@
    }) + report_mid2() + message + report_mid3() + results_html + report_mid4() + raw_json
        + report_foot1() + timestamp + report_foot2()
}

/// Renders the whole report document for a result.
pub fn render_html_report(
    result: &AnalysisResult,
    project_name: &str,
    timestamp: &str,
    raw_json: &str,
) -> (r: String)
    requires
        payload_size_ok(result.results),
    ensures
        r@ == html_report_spec(
            result.success,
            result.message@,
            project_name@,
            timestamp@,
            results_html_spec(result.results),
            raw_json@,
        ),
{
    let mut r =
        "<!DOCTYPE html>\n<html lang=\"en\">\n<head>\n<meta charset=\"UTF-8\">\n<meta name=\"viewport\" content=\"width=device-width, initial-scale=1.0\">\n<title>ElyAnalyzer Analysis Report - ".to_owned();
    r.append(project_name);
    r.append(
        "</title>\n<style>\nbody { font-family: 'Segoe UI', Tahoma, Geneva, Verdana, sans-serif; line-height: 1.6; color: #333; max-width: 1200px; margin: 0 auto; padding: 20px; background: #f8f9fa; }\n.header { background: linear-gradient(135deg, #667eea 0%, #764ba2 100%); color: white; padding: 30px; border-radius: 10px; margin-bottom: 30px; text-align: center; }\n.header h1 { margin: 0; font-size: 2.5em; }\n.header p { margin: 10px 0 0 0; opacity: 0.9; }\n.section { background: white; padding: 25px; margin-bottom: 20px; border-radius: 8px; box-shadow: 0 2px 10px rgba(0,0,0,0.1); }\n.section h2 { color: #4a5568; border-bottom: 3px solid #667eea; padding-bottom: 10px; margin-top: 0; }\npre { background: #f7fafc; padding: 15px; border-radius: 5px; border-left: 4px solid #667eea; overflow-x: auto; font-size: 0.9em; }\n.footer { text-align: center; color: #718096; margin-top: 40px; padding-top: 20px; border-top: 1px solid #e2e8f0; }\n.status-badge { display: inline-block; padding: 4px 12px; border-radius: 20px; font-size: 0.8em; font-weight: bold; text-transform: uppercase; }\n.status-success { background: #c6f6d5; color: #22543d; }\n.status-error { background: #fed7d7; color: #742a2a; }\n</style>\n</head>\n<body>\n<div class=\"header\">\n  <h1>\u{1f33c} ElyAnalyzer Analysis Report</h1>\n  <p>Project: <strong>",
    );
    r.append(project_name);
    r.append("</strong></p>\n  <p>Generated: ");
    r.append(timestamp);
    r.append(
        "</p>\n</div>\n\n<div class=\"section\">\n  <h2>\u{1f4ca} Analysis Summary</h2>\n  <p><strong>Status:</strong>\n    <span class=\"status-badge ",
    );
    if result.success {
        r.append("status-success");
    } else {
        r.append("status-error");
    }
    r.append("\">\n      ");
    if result.success {
        r.append("SUCCESS");
    } else {
        r.append("FAILED");
    }
    r.append("\n    </span>\n  </p>\n  <p><strong>Message:</strong> ");
    r.append(result.message.as_str());
    r.append("</p>\n</div>\n\n<div class=\"section\">\n  <h2>\u{1f50d} Analysis Results</h2>\n");
    let results_html = generate_results_html(result.results.as_ref());
    r.append(results_html.as_str());
    r.append(
        "</div>\n\n<div class=\"section\">\n  <h2>\u{1f4cb} Raw Data</h2>\n  <details>\n    <summary>Click to view raw JSON data</summary>\n    <pre>",
    );
    r.append(raw_json);
    r.append(
        "</pre>\n  </details>\n</div>\n\n<div class=\"footer\">\n  <p>Generated by <strong>ElyAnalyzer</strong> - Advanced Code Analysis Tool</p>\n  <p>Report generated at ",
    );
    r.append(timestamp);
    r.append("</p>\n</div>\n</body>\n</html>\n");
    proof {
        assert(r@ =~= html_report_spec(
            result.success,
            result.message@,
            project_name@,
            timestamp@,
            results_html_spec(result.results),
            raw_json@,
        ));
    }
    r
}

/// Renders the report document stamped with the current UTC time.
pub fn generate_html_report(result: &AnalysisResult, project_name: &str, raw_json: &str) -> (r:
    String)
    requires
        payload_size_ok(result.results),
    ensures
        exists|ts: Seq<char>|
            r@ == html_report_spec(
                result.success,
                result.message@,
                project_name@,
                ts,
                results_html_spec(result.results),
                raw_json@,
            ),
{
    let timestamp = crate::ext::now_utc_string();
    let r = render_html_report(result, project_name, timestamp.as_str(), raw_json);
    proof {
        let ts = timestamp@;
        assert(r@ == html_report_spec(
            result.success,
            result.message@,
            project_name@,
            ts,
            results_html_spec(result.results),
            raw_json@,
        ));
    }
    r
}

/// A failed result's report marks the status FAILED and carries the
/// result's message text.
pub proof fn lemma_failed_report_marks_failed(
    message: Seq<char>,
    project_name: Seq<char>,
    timestamp: Seq<char>,
    results_html: Seq<char>,
    raw_json: Seq<char>,
)
    ensures
        has_substring(
            html_report_spec(false, message, project_name, timestamp, results_html, raw_json),
            "FAILED"@,
        ),
        has_substring(
            html_report_spec(false, message, project_name, timestamp, results_html, raw_json),
            message,
        ),
{
    let html = html_report_spec(false, message, project_name, timestamp, results_html, raw_json);
    let a = report_head1() + project_name + report_head2() + project_name + report_head3()
        + timestamp + report_head4() + "status-error"@ + report_mid1();
    let c = report_mid2() + message + report_mid3() + results_html + report_mid4() + raw_json
        + report_foot1() + timestamp + report_foot2();
    assert(html =~= a + "FAILED"@ + c);
    lemma_substring_of_concat(a, "FAILED"@, c);
    let a2 = a + "FAILED"@ + report_mid2();
    let c2 = report_mid3() + results_html + report_mid4() + raw_json + report_foot1() + timestamp
        + report_foot2();
    assert(html =~= a2 + message + c2);
    lemma_substring_of_concat(a2, message, c2);
}

/// The default artifact file name for a report generated at the given
/// Unix time.
pub fn default_report_filename(secs: u64) -> (r: String)
    ensures
        r@ == "ElyAnalyzer-Report-"@ + dec_str(secs as int) + ".pdf"@,
{
    let mut r = "ElyAnalyzer-Report-".to_owned();
    let digits = u64_to_string(secs);
    r.append(digits.as_str());
    r.append(".pdf");
    r
}

/// The two sibling artifact paths of a report: the chosen path with its
/// extension replaced by `html` and by `json`.
pub fn report_paths(chosen_path: &str) -> (r: (String, String))
    ensures
        r.0@ == with_extension_spec(chosen_path@, "html"@),
        r.1@ == with_extension_spec(chosen_path@, "json"@),
{
    let html_path = with_extension(chosen_path, "html");
    let json_path = with_extension(chosen_path, "json");
    (html_path, json_path)
}

/// The confirmation message naming both written artifacts.
pub fn reports_saved_message(html_path: &str, json_path: &str) -> (r: String)
    ensures
        r@ == "Reports saved:\n- HTML: "@ + html_path@ + "\n- JSON: "@ + json_path@,
{
    let mut r = "Reports saved:\n- HTML: ".to_owned();
    r.append(html_path);
    r.append("\n- JSON: ");
    r.append(json_path);
    r
}

} // verus!
