use analysis_pipeline::model::CategoryScore;
use analysis_pipeline::scoring::dashboard_totals;
use analysis_pipeline::score::category_score;
use analysis_pipeline::scoring::calculate_overall_score;

#[test]
fn perfect_score_for_zero_counts() {
    assert_eq!(category_score(0, 0, 0), 100_000_000);
}

#[test]
fn score_is_not_perfect_when_any_count_is_nonzero() {
    assert_ne!(category_score(1, 0, 0), 100_000_000);
    assert_ne!(category_score(0, 1, 0), 100_000_000);
    assert_ne!(category_score(0, 0, 1), 100_000_000);
}

#[test]
fn score_exact_values() {
    // critical penalty: 30_000_000 * 100 / (100 + 100) = 15_000_000
    assert_eq!(category_score(100, 0, 0), 85_000_000);
    // warning penalty: 25_000_000 * 1000 / (1000 + 1000) = 12_500_000
    assert_eq!(category_score(0, 1000, 0), 87_500_000);
    // info penalty: 15_000_000 * 5000 / (5000 + 5000) = 7_500_000
    assert_eq!(category_score(0, 0, 5000), 92_500_000);
    // one of each: 297_029 + 24_975 + 2_999
    assert_eq!(category_score(1, 1, 1), 100_000_000 - 325_003);
}

#[test]
fn score_stays_in_range_for_extreme_counts() {
    let s = category_score(u32::MAX, u32::MAX, u32::MAX);
    assert!(s <= 100_000_000);
    // The saturating curves bound the total penalty by 70 points.
    assert!(s >= 30_000_000);
}

#[test]
fn score_is_monotonically_non_increasing() {
    let mut prev = category_score(0, 5, 10);
    for c in 1..50u32 {
        let s = category_score(c, 5, 10);
        assert!(s <= prev);
        prev = s;
    }
    assert!(category_score(3, 8, 10) <= category_score(3, 7, 10));
    assert!(category_score(3, 7, 11) <= category_score(3, 7, 10));
}

fn score_entry(score: u64) -> CategoryScore {
    CategoryScore {
        category_name: String::from("security"),
        display_name: String::from("Security Analysis"),
        score,
        critical_issues: 0,
        warning_issues: 0,
        info_issues: 0,
    }
}

#[test]
fn overall_score_averages_category_scores() {
    let v = vec![score_entry(100_000_000), score_entry(0)];
    assert_eq!(calculate_overall_score(&v), 50_000_000);
    let w = vec![score_entry(90_000_000), score_entry(80_000_000), score_entry(70_000_000)];
    assert_eq!(calculate_overall_score(&w), 80_000_000);
}

#[test]
fn overall_score_of_no_categories_is_zero() {
    let v: Vec<CategoryScore> = Vec::new();
    assert_eq!(calculate_overall_score(&v), 0);
}

#[test]
fn dashboard_totals_sum_the_counts() {
    let mut a = score_entry(50_000_000);
    a.critical_issues = 2;
    a.warning_issues = 3;
    a.info_issues = 4;
    let mut b = score_entry(60_000_000);
    b.critical_issues = 1;
    b.info_issues = 7;
    let (total, critical) = dashboard_totals(&vec![a, b]);
    assert_eq!(total, 17);
    assert_eq!(critical, 3);
}
