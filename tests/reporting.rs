use coverage_report::coverage::{Coverage, CounterType};
use coverage_report::extract::extract_coverage;
use coverage_report::report::{report, Ratio};

fn lines(text: &str) -> Vec<String> {
    let c = extract_coverage(text).unwrap();
    report(&c).iter().map(|r| r.line()).collect()
}

#[test]
fn instruction_ratio_is_two_thirds() {
    let c = extract_coverage(r#"<report><counter type="INSTRUCTION" missed="1" covered="2"/></report>"#).unwrap();
    let rs = report(&c);
    assert_eq!(rs, vec![Ratio { metric: CounterType::Instruction, covered: 2, missed: 1 }]);
    assert_eq!(rs[0].hundredths(), 67);
    assert!((rs[0].covered as f64 / (rs[0].covered + rs[0].missed) as f64 - 0.67).abs() < 0.005);
    assert_eq!(rs[0].line(), "instruction: 0.67");
}

#[test]
fn no_counters_give_no_lines() {
    assert!(report(&Coverage::new()).is_empty());
    assert!(lines("<report/>").is_empty());
}

#[test]
fn metrics_without_units_are_omitted() {
    let mut c = Coverage::new();
    c.set_counts(CounterType::Class, 0, 4);
    c.set_counts(CounterType::Branch, 3, 0);
    c.set_counts(CounterType::Line, 0, 0);
    let rs = report(&c);
    assert_eq!(rs.len(), 2);
    assert_eq!(rs[0].metric, CounterType::Branch);
    assert_eq!(rs[1].metric, CounterType::Class);
    assert_eq!(rs[0].line(), "branch: 1.00");
    assert_eq!(rs[1].line(), "class: 0.00");
}

#[test]
fn ratios_stay_within_unit_range() {
    let mut c = Coverage::new();
    c.set_counts(CounterType::Instruction, u64::MAX, u64::MAX);
    c.set_counts(CounterType::Method, u64::MAX, 0);
    c.set_counts(CounterType::Complexity, 0, u64::MAX);
    for r in report(&c) {
        let h = r.hundredths();
        assert!(h <= 100);
        let f = r.covered as f64 / (r.covered as f64 + r.missed as f64);
        assert!((0.0..=1.0).contains(&f));
    }
    let rs = report(&c);
    assert_eq!(rs[0].line(), "instruction: 0.50");
    assert_eq!(rs[1].line(), "complexity: 0.00");
    assert_eq!(rs[2].line(), "method: 1.00");
}

#[test]
fn halves_round_up() {
    let r = Ratio { metric: CounterType::Line, covered: 1, missed: 7 };
    assert_eq!(r.hundredths(), 13);
    assert_eq!(r.line(), "line: 0.13");
    let r = Ratio { metric: CounterType::Line, covered: 1, missed: 199 };
    assert_eq!(r.hundredths(), 1);
    let r = Ratio { metric: CounterType::Line, covered: 1, missed: 201 };
    assert_eq!(r.hundredths(), 0);
    let r = Ratio { metric: CounterType::Method, covered: 199, missed: 1 };
    assert_eq!(r.line(), "method: 1.00");
}

#[test]
fn duplicate_counter_reports_only_the_later_values() {
    let out = lines(
        r#"<report><counter type="BRANCH" missed="1" covered="1"/><counter type="BRANCH" missed="3" covered="1"/></report>"#,
    );
    assert_eq!(out, vec!["branch: 0.25".to_string()]);
}

#[test]
fn six_counters_give_six_ordered_lines() {
    let out = lines(
        r#"<report>
            <counter type="CLASS" missed="11" covered="12"/>
            <counter type="METHOD" missed="9" covered="10"/>
            <counter type="COMPLEXITY" missed="7" covered="8"/>
            <counter type="LINE" missed="5" covered="6"/>
            <counter type="BRANCH" missed="3" covered="4"/>
            <counter type="INSTRUCTION" missed="1" covered="2"/>
        </report>"#,
    );
    assert_eq!(
        out,
        vec![
            "instruction: 0.67".to_string(),
            "branch: 0.57".to_string(),
            "line: 0.55".to_string(),
            "complexity: 0.53".to_string(),
            "method: 0.53".to_string(),
            "class: 0.52".to_string(),
        ]
    );
}

#[test]
fn metric_names() {
    assert_eq!(CounterType::Instruction.name(), "instruction");
    assert_eq!(CounterType::Complexity.name(), "complexity");
    assert_eq!(CounterType::nth(5), CounterType::Class);
}
