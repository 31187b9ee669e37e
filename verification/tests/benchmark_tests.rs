use fluid_lab::launch::parse_steps;
use fluid_lab::benchmark::{
    calculate_grade, chrono_like_timestamp, overall_score, plan_benchmark, tier_score, timestamp_label,
};
use fluid_lab::text::decimal_text;
use fluid_lab::vtk::{dimensions_line, export_path, point_data_line, scalars_header, state_record_header};

#[test]
fn grades_follow_score_thresholds() {
    assert_eq!(calculate_grade(100_000), "S+");
    assert_eq!(calculate_grade(99_999), "S");
    assert_eq!(calculate_grade(60_000), "S");
    assert_eq!(calculate_grade(35_000), "A");
    assert_eq!(calculate_grade(18_000), "B");
    assert_eq!(calculate_grade(8_000), "C");
    assert_eq!(calculate_grade(7_999), "D");
    assert_eq!(calculate_grade(0), "D");
    assert_eq!(tier_score(0), 1);
    assert_eq!(tier_score(42), 42);
}

#[test]
fn benchmark_plans() {
    let p = plan_benchmark(None, None);
    assert_eq!(p.gpu_tiers, vec![10_000, 25_000, 50_000, 100_000]);
    assert_eq!(p.cpu_tiers, vec![5_000, 10_000, 20_000]);
    let p = plan_benchmark(Some(777), Some("cpu"));
    assert!(p.gpu_tiers.is_empty());
    assert_eq!(p.cpu_tiers, vec![777]);
    let p = plan_benchmark(None, Some("gpu"));
    assert_eq!(p.gpu_tiers.len(), 4);
    assert!(p.cpu_tiers.is_empty());
    let p = plan_benchmark(None, Some("tpu"));
    assert!(p.gpu_tiers.is_empty() && p.cpu_tiers.is_empty());
}

#[test]
fn overall_score_is_the_integer_mean() {
    assert_eq!(overall_score(&vec![]), 0);
    assert_eq!(overall_score(&vec![10, 20, 31]), 20);
    assert_eq!(overall_score(&vec![7]), 7);
}

#[test]
fn timestamps_and_numerals() {
    assert_eq!(timestamp_label(0), "UNIX-0");
    assert_eq!(timestamp_label(1_725_029_869), "UNIX-1725029869");
    let now = chrono_like_timestamp();
    assert!(now.starts_with("UNIX-") && now.len() > 14);
    assert_eq!(decimal_text(0), "0");
    assert_eq!(decimal_text(9), "9");
    assert_eq!(decimal_text(10), "10");
    assert_eq!(decimal_text(u128::MAX), u128::MAX.to_string());
}

#[test]
fn export_lines() {
    assert_eq!(export_path(1700000000123, 42), "exports/fluid-1700000000123-42.vtk");
    assert_eq!(dimensions_line([42, 28, 28]), "DIMENSIONS 42 28 28");
    assert_eq!(point_data_line(32928), "POINT_DATA 32928");
    assert_eq!(scalars_header("pressure"), "SCALARS pressure double 1\nLOOKUP_TABLE default");
    assert_eq!(state_record_header("initial_integrals"), "initial_integrals 5 1 double");
}

#[test]
fn better_scores_never_earn_worse_grades() {
    let rank = |g: &str| ["D", "C", "B", "A", "S", "S+"].iter().position(|x| *x == g).unwrap();
    let mut last = 0;
    for score in (0..130_000u64).step_by(500) {
        let r = rank(&calculate_grade(score));
        assert!(r >= last);
        last = r;
    }
    assert_eq!(last, 5);
}

#[test]
fn overall_score_lies_between_tier_scores() {
    let scores = vec![120, 90_000, 4_000, 33];
    let o = overall_score(&scores);
    assert!(o >= 33 && o <= 90_000);
    assert_eq!(o, (120 + 90_000 + 4_000 + 33) / 4);
}

#[test]
fn written_numerals_read_back() {
    for n in [0u64, 7, 10, 99, 1_000_001, u64::MAX] {
        assert_eq!(parse_steps(&decimal_text(n as u128)).unwrap(), n);
    }
}
