use coverage_report::coverage::{counter_type_of, Coverage, CounterType};
use coverage_report::extract::{extract_coverage, ExtractionError};
use coverage_report::text::parse_count;

fn missing(attribute: &str) -> ExtractionError {
    ExtractionError::MissingAttribute {
        attribute: attribute.to_string(),
        element: "counter".to_string(),
    }
}

#[test]
fn test_parse_xml() {
    let data: &'static str = r##"
<?xml version="1.0" encoding="UTF-8" standalone="yes"?><!DOCTYPE report PUBLIC "-//JACOCO//DTD Report 1.1//EN" "report.dtd">
<report name="test-service">
    <sessioninfo id="object-21061aa9" start="1683895529957" dump="1683895566710"/>
    <counter type="INSTRUCTION" missed="1" covered="2"/>
    <counter type="BRANCH" missed="3" covered="4"/>
    <counter type="LINE" missed="5" covered="6"/>
    <counter type="COMPLEXITY" missed="7" covered="8"/>
    <counter type="METHOD" missed="9" covered="10"/>
    <counter type="CLASS" missed="11" covered="12"/>
</report>
"##;

    let coverage = extract_coverage(&data).unwrap();
    println!("type = instruction covered = {:#?} missed = {:#?}",
             coverage.instruction_missed, coverage.instruction_missed);
    assert_eq!(coverage.instruction_covered, 2);
    assert_eq!(coverage.instruction_missed, 1);
    assert_eq!(coverage.branch_covered, 4);
    assert_eq!(coverage.branch_missed, 3);
    assert_eq!(coverage.line_covered, 6);
    assert_eq!(coverage.line_missed, 5);
    assert_eq!(coverage.complexity_covered, 8);
    assert_eq!(coverage.complexity_missed, 7);
    assert_eq!(coverage.method_covered, 10);
    assert_eq!(coverage.method_missed, 9);
    assert_eq!(coverage.class_covered, 12);
    assert_eq!(coverage.class_missed, 11);
}

#[test]
fn new_coverage_is_all_zero() {
    let c = Coverage::new();
    for i in 0..6 {
        assert_eq!(c.counts(CounterType::nth(i)), (0, 0));
    }
}

#[test]
fn set_counts_changes_only_its_metric() {
    let mut c = Coverage::new();
    c.set_counts(CounterType::Method, 4, 9);
    assert_eq!(c.counts(CounterType::Method), (4, 9));
    assert_eq!(c.method_covered, 4);
    assert_eq!(c.counts(CounterType::Class), (0, 0));
    assert_eq!(c.counts(CounterType::Instruction), (0, 0));
}

#[test]
fn single_instruction_counter() {
    let c = extract_coverage(r#"<report><counter type="INSTRUCTION" missed="1" covered="2"/></report>"#).unwrap();
    assert_eq!(c.counts(CounterType::Instruction), (2, 1));
    assert_eq!(c.counts(CounterType::Branch), (0, 0));
}

#[test]
fn no_counters_gives_empty_aggregate() {
    let c = extract_coverage("<report><sessioninfo id=\"x\"/></report>").unwrap();
    assert_eq!(c, Coverage::new());
    let c = extract_coverage("<report/>").unwrap();
    assert_eq!(c, Coverage::new());
}

#[test]
fn later_counter_of_same_type_wins() {
    let c = extract_coverage(
        r#"<report>
            <counter type="LINE" missed="1" covered="1"/>
            <counter type="BRANCH" missed="2" covered="2"/>
            <counter type="LINE" missed="30" covered="70"/>
        </report>"#,
    )
    .unwrap();
    assert_eq!(c.counts(CounterType::Line), (70, 30));
    assert_eq!(c.counts(CounterType::Branch), (2, 2));
}

#[test]
fn unknown_counter_type_is_refused() {
    let r = extract_coverage(r#"<report><counter type="FOO" missed="1" covered="1"/></report>"#);
    assert_eq!(r, Err(ExtractionError::UnknownCounterType { literal: "FOO".to_string() }));
}

#[test]
fn counter_type_match_is_case_sensitive() {
    let r = extract_coverage(r#"<report><counter type="line" missed="1" covered="1"/></report>"#);
    assert_eq!(r, Err(ExtractionError::UnknownCounterType { literal: "line".to_string() }));
    assert_eq!(counter_type_of("LINE"), Some(CounterType::Line));
    assert_eq!(counter_type_of("Line"), None);
    assert_eq!(counter_type_of(""), None);
}

#[test]
fn missing_covered_attribute_is_refused() {
    let r = extract_coverage(r#"<report><counter type="LINE" missed="1"/></report>"#);
    assert_eq!(r, Err(missing("covered")));
}

#[test]
fn missing_type_attribute_is_reported_first() {
    let r = extract_coverage(r#"<report><counter/></report>"#);
    assert_eq!(r, Err(missing("type")));
    let r = extract_coverage(r#"<report><counter type="LINE" covered="1"/></report>"#);
    assert_eq!(r, Err(missing("missed")));
}

#[test]
fn failure_returns_no_aggregate_even_after_valid_counters() {
    let r = extract_coverage(
        r#"<report><counter type="LINE" missed="1" covered="1"/><counter type="CLASS" missed="1"/></report>"#,
    );
    assert_eq!(r, Err(missing("covered")));
}

#[test]
fn invalid_numbers_are_refused() {
    let r = extract_coverage(r#"<report><counter type="LINE" missed="1" covered="abc"/></report>"#);
    assert_eq!(
        r,
        Err(ExtractionError::InvalidNumericValue {
            attribute: "covered".to_string(),
            value: "abc".to_string()
        })
    );
    let r = extract_coverage(r#"<report><counter type="LINE" missed="-1" covered="3"/></report>"#);
    assert_eq!(
        r,
        Err(ExtractionError::InvalidNumericValue {
            attribute: "missed".to_string(),
            value: "-1".to_string()
        })
    );
}

#[test]
fn numbers_are_read_before_the_type() {
    let r = extract_coverage(r#"<report><counter type="FOO" missed="x" covered="1"/></report>"#);
    assert_eq!(
        r,
        Err(ExtractionError::InvalidNumericValue {
            attribute: "missed".to_string(),
            value: "x".to_string()
        })
    );
}

#[test]
fn largest_count_is_accepted() {
    let c = extract_coverage(
        r#"<report><counter type="CLASS" missed="0" covered="18446744073709551615"/></report>"#,
    )
    .unwrap();
    assert_eq!(c.counts(CounterType::Class), (u64::MAX, 0));
    let r = extract_coverage(
        r#"<report><counter type="CLASS" missed="0" covered="18446744073709551616"/></report>"#,
    );
    assert_eq!(
        r,
        Err(ExtractionError::InvalidNumericValue {
            attribute: "covered".to_string(),
            value: "18446744073709551616".to_string()
        })
    );
}

#[test]
fn malformed_document_is_refused() {
    let r = extract_coverage(r#"<report><counter type="LINE" missed="1" covered="1"></report>"#);
    assert_eq!(r, Err(ExtractionError::MalformedDocument));
    assert_eq!(extract_coverage(""), Err(ExtractionError::MalformedDocument));
    assert_eq!(extract_coverage("<report>"), Err(ExtractionError::MalformedDocument));
}

#[test]
fn only_direct_counter_children_are_read() {
    let c = extract_coverage(
        r#"<report>text<!-- note --><package><counter type="LINE" missed="5" covered="5"/></package>
            <counter type="METHOD" missed="1" covered="3"/></report>"#,
    )
    .unwrap();
    assert_eq!(c.counts(CounterType::Line), (0, 0));
    assert_eq!(c.counts(CounterType::Method), (3, 1));
}

#[test]
fn parse_count_reads_decimal_digits_only() {
    assert_eq!(parse_count("0"), Some(0));
    assert_eq!(parse_count("007"), Some(7));
    assert_eq!(parse_count("1234"), Some(1234));
    assert_eq!(parse_count(""), None);
    assert_eq!(parse_count("12a"), None);
    assert_eq!(parse_count(" 1"), None);
    assert_eq!(parse_count("+1"), None);
    assert_eq!(parse_count("18446744073709551615"), Some(u64::MAX));
    assert_eq!(parse_count("99999999999999999999"), None);
}
