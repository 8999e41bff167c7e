//! Per-category scoring of a list of raw issues: counts each scored
//! category's issues by normalized severity and converts the counts into
//! health scores, plus the overall average score.

use vstd::prelude::*;
use crate::category::{
    classify_issue_spec, classify_issue, scored_categories, scored_category_list, category_token,
    category_display, category_token_spec, category_display_spec, IssueCategory,
};
use crate::model::{CategoryScore, RawIssue};
use crate::score::{category_score, category_score_spec};
use crate::severity::{normalize_severity_spec, normalize_severity, Severity};

verus! {

/// The category a raw issue record falls under.
pub open spec fn issue_class(i: RawIssue) -> IssueCategory {
    classify_issue_spec(i.issue_type@, i.description@)
}

/// The normalized severity of a raw issue record.
pub open spec fn issue_sev(i: RawIssue) -> Severity {
    normalize_severity_spec(i.severity@)
}

/// How many issues of the sequence fall under the category with the
/// normalized severity.
pub open spec fn count_matching(issues: Seq<RawIssue>, cat: IssueCategory, sev: Severity) -> int
    decreases issues.len(),
{
    if issues.len() == 0 {
        0
    } else {
        count_matching(issues.drop_last(), cat, sev) + if issue_class(issues.last()) == cat
            && issue_sev(issues.last()) == sev {
            1int
        } else {
            0int
        }
    }
}

pub proof fn lemma_count_bound(issues: Seq<RawIssue>, cat: IssueCategory, sev: Severity)
    ensures
        0 <= count_matching(issues, cat, sev) <= issues.len(),
    decreases issues.len(),
{
    if issues.len() > 0 {
        lemma_count_bound(issues.drop_last(), cat, sev);
    }
}

/// Counts the issues of one category, split by normalized severity.
fn count_category(issues: &Vec<RawIssue>, cat: IssueCategory) -> (r: (u32, u32, u32))
    requires
        issues@.len() <= 0xffffffff,
    ensures
        r.0 as int == count_matching(issues@, cat, Severity::Critical),
        r.1 as int == count_matching(issues@, cat, Severity::Warning),
        r.2 as int == count_matching(issues@, cat, Severity::Info),
{
    let mut critical_count: u32 = 0;
    let mut warning_count: u32 = 0;
    let mut info_count: u32 = 0;
    let mut j: usize = 0;
    proof {
        assert(issues@.take(0) =~= Seq::<RawIssue>::empty());
    }
    while j < issues.len()
        invariant
            j <= issues@.len() <= 0xffffffff,
            critical_count as int == count_matching(issues@.take(j as int), cat, Severity::Critical),
            warning_count as int == count_matching(issues@.take(j as int), cat, Severity::Warning),
            info_count as int == count_matching(issues@.take(j as int), cat, Severity::Info),
        decreases issues@.len() - j,
    {
        proof {
            lemma_count_bound(issues@.take(j as int), cat, Severity::Critical);
            lemma_count_bound(issues@.take(j as int), cat, Severity::Warning);
            lemma_count_bound(issues@.take(j as int), cat, Severity::Info);
            assert(issues@.take(j + 1).drop_last() =~= issues@.take(j as int));
            assert(issues@.take(j + 1).last() == issues@[j as int]);
        }
        let issue = &issues[j];
        let c = classify_issue(issue.issue_type.as_str(), issue.description.as_str());
        if c == cat {
            let sev = normalize_severity(issue.severity.as_str());
            match sev {
                Severity::Critical => {
                    critical_count += 1;
                },
                Severity::Warning => {
                    warning_count += 1;
                },
                Severity::Info => {
                    info_count += 1;
                },
            }
        }
        j += 1;
    }
    proof {
        assert(issues@.take(issues@.len() as int) =~= issues@);
    }
    (critical_count, warning_count, info_count)
}

/// Builds the fifteen per-category scores for a list of raw issues: for
/// each category of the closed table, the issue counts by normalized
/// severity and the health score computed from those counts.
pub fn extract_category_scores(issues: &Vec<RawIssue>) -> (r: Vec<CategoryScore>)
    requires
        issues@.len() <= 0xffffffff,
    ensures
        r@.len() == scored_categories().len(),
        forall|k: int|
            0 <= k < r@.len() ==> {
                let cat = scored_categories()[k];
                &&& (#[trigger] r@[k]).category_name@ == category_token_spec(cat)
                &&& r@[k].display_name@ == category_display_spec(cat)
                &&& r@[k].critical_issues as int == count_matching(issues@, cat, Severity::Critical)
                &&& r@[k].warning_issues as int == count_matching(issues@, cat, Severity::Warning)
                &&& r@[k].info_issues as int == count_matching(issues@, cat, Severity::Info)
                &&& r@[k].score as int == category_score_spec(
                    count_matching(issues@, cat, Severity::Critical),
                    count_matching(issues@, cat, Severity::Warning),
                    count_matching(issues@, cat, Severity::Info),
                )
            },
{
    let cats = scored_category_list();
    let mut r: Vec<CategoryScore> = Vec::new();
    let mut k: usize = 0;
    while k < cats.len()
        invariant
            cats@ == scored_categories(),
            k <= cats@.len(),
            issues@.len() <= 0xffffffff,
            r@.len() == k,
            forall|m: int|
                0 <= m < k ==> {
                    let cat = scored_categories()[m];
                    &&& (#[trigger] r@[m]).category_name@ == category_token_spec(cat)
                    &&& r@[m].display_name@ == category_display_spec(cat)
                    &&& r@[m].critical_issues as int == count_matching(
                        issues@,
                        cat,
                        Severity::Critical,
                    )
                    &&& r@[m].warning_issues as int == count_matching(
                        issues@,
                        cat,
                        Severity::Warning,
                    )
                    &&& r@[m].info_issues as int == count_matching(issues@, cat, Severity::Info)
                    &&& r@[m].score as int == category_score_spec(
                        count_matching(issues@, cat, Severity::Critical),
                        count_matching(issues@, cat, Severity::Warning),
                        count_matching(issues@, cat, Severity::Info),
                    )
                },
        decreases cats@.len() - k,
    {
        let cat = cats[k];
        let (critical_count, warning_count, info_count) = count_category(issues, cat);
        let score = category_score(critical_count, warning_count, info_count);
        r.push(
            CategoryScore {
                category_name: category_token(cat),
                display_name: category_display(cat),
                score,
                critical_issues: critical_count,
                warning_issues: warning_count,
                info_issues: info_count,
            },
        );
        k += 1;
    }
    r
}

/// The total number of issues a sequence of category scores reports,
/// all severities counted.
pub open spec fn sum_issue_counts(v: Seq<CategoryScore>) -> int
    decreases v.len(),
{
    if v.len() == 0 {
        0
    } else {
        sum_issue_counts(v.drop_last()) + v.last().critical_issues + v.last().warning_issues
            + v.last().info_issues
    }
}

/// The total number of critical issues a sequence of category scores
/// reports.
pub open spec fn sum_critical_counts(v: Seq<CategoryScore>) -> int
    decreases v.len(),
{
    if v.len() == 0 {
        0
    } else {
        sum_critical_counts(v.drop_last()) + v.last().critical_issues
    }
}

/// The dashboard's totals over the per-category scores: all issues, and
/// the critical ones alone.
pub fn dashboard_totals(category_scores: &Vec<CategoryScore>) -> (r: (u64, u64))
    requires
        category_scores@.len() <= 0x40000000,
    ensures
        r.0 as int == sum_issue_counts(category_scores@),
        r.1 as int == sum_critical_counts(category_scores@),
{
    let mut total: u64 = 0;
    let mut critical: u64 = 0;
    let mut k: usize = 0;
    proof {
        assert(category_scores@.take(0) =~= Seq::<CategoryScore>::empty());
    }
    while k < category_scores.len()
        invariant
            k <= category_scores@.len() <= 0x40000000,
            total as int == sum_issue_counts(category_scores@.take(k as int)),
            critical as int == sum_critical_counts(category_scores@.take(k as int)),
            total <= k * 0x300000000,
            critical <= k * 0x100000000,
        decreases category_scores@.len() - k,
    {
        proof {
            assert(category_scores@.take(k + 1).drop_last() =~= category_scores@.take(k as int));
            assert(category_scores@.take(k + 1).last() == category_scores@[k as int]);
        }
        let cs = &category_scores[k];
        total = total + cs.critical_issues as u64 + cs.warning_issues as u64 + cs.info_issues as u64;
        critical = critical + cs.critical_issues as u64;
        k += 1;
    }
    proof {
        assert(category_scores@.take(category_scores@.len() as int) =~= category_scores@);
    }
    (total, critical)
}

/// The sum of the scores of a sequence of category scores.
pub open spec fn sum_scores(v: Seq<CategoryScore>) -> int
    decreases v.len(),
{
    if v.len() == 0 {
        0
    } else {
        sum_scores(v.drop_last()) + v.last().score
    }
}

/// The overall score: the average of the per-category scores (in
/// millionths of a point, rounded down), or 0 for an empty list.
pub open spec fn overall_score_spec(v: Seq<CategoryScore>) -> int {
    if v.len() == 0 {
        0
    } else {
        sum_scores(v) / v.len() as int
    }
}


/// The average of the per-category scores, in millionths of a point; an
/// empty list yields 0.
pub fn calculate_overall_score(category_scores: &Vec<CategoryScore>) -> (r: u64)
    requires
        category_scores@.len() <= 0xffffffff,
        forall|k: int|
            0 <= k < category_scores@.len() ==> (#[trigger] category_scores@[k]).score
                <= 100000000,
    ensures
        r as int == overall_score_spec(category_scores@),
{
    if category_scores.len() == 0 {
        return 0;
    }
    let mut total: u64 = 0;
    let mut k: usize = 0;
    proof {
        assert(category_scores@.take(0) =~= Seq::<CategoryScore>::empty());
    }
    while k < category_scores.len()
        invariant
            k <= category_scores@.len() <= 0xffffffff,
            forall|m: int|
                0 <= m < category_scores@.len() ==> (#[trigger] category_scores@[m]).score
                    <= 100000000,
            total as int == sum_scores(category_scores@.take(k as int)),
            total <= k * 100000000,
        decreases category_scores@.len() - k,
    {
        proof {
            assert(category_scores@.take(k + 1).drop_last() =~= category_scores@.take(k as int));
            assert(category_scores@.take(k + 1).last() == category_scores@[k as int]);
        }
        total = total + category_scores[k].score;
        k += 1;
    }
    proof {
        assert(category_scores@.take(category_scores@.len() as int) =~= category_scores@);
    }
    total / (category_scores.len() as u64)
}

} // verus!
