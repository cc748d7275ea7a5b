use failfast::entry::{run, run_on, sample_data, PROBE};
use failfast::helper::process_data;
use failfast::trace::{Halt, Trace};

const CLOSING_LINE: &str = "This will never execute";

#[test]
fn entry_reads_past_the_end_and_writes_nothing() {
    let trace = run_on(vec![1, 2, 3], 10);
    assert!(trace.lines.is_empty());
    assert_eq!(trace.halt, Halt::OutOfRange { index: 10, len: 3 });
}

#[test]
fn entry_on_its_own_input_halts_out_of_range() {
    assert_eq!(sample_data(), vec![1, 2, 3]);
    assert_eq!(PROBE, 10);
    let trace = run();
    assert_eq!(trace, Trace { lines: vec![], halt: Halt::OutOfRange { index: 10, len: 3 } });
    assert_eq!(trace, run_on(sample_data(), PROBE));
}

#[test]
fn entry_on_an_empty_sequence_is_out_of_range() {
    let trace = run_on(vec![], 0);
    assert!(trace.lines.is_empty());
    assert_eq!(trace.halt, Halt::OutOfRange { index: 0, len: 0 });
}

#[test]
fn entry_at_the_length_is_out_of_range() {
    let trace = run_on(vec![1, 2, 3], 3);
    assert!(trace.lines.is_empty());
    assert_eq!(trace.halt, Halt::OutOfRange { index: 3, len: 3 });
}

#[test]
fn entry_within_range_writes_the_value_and_aborts() {
    let trace = run_on(vec![1, 2, 3], 0);
    assert_eq!(trace.lines, vec!["Value: 1".to_string()]);
    assert_eq!(trace.halt, Halt::EntryAbort);
    let trace = run_on(vec![1, 2, 3], 2);
    assert_eq!(trace.lines, vec!["Value: 3".to_string()]);
    assert_eq!(trace.halt, Halt::EntryAbort);
    let trace = run_on(vec![-40, i32::MIN], 1);
    assert_eq!(trace.lines, vec!["Value: -2147483648".to_string()]);
    assert_eq!(trace.halt, Halt::EntryAbort);
}

#[test]
fn entry_never_reaches_the_helper() {
    let data = vec![1, 2, 3, 5000, -5000];
    for index in 0..12 {
        let trace = run_on(data.clone(), index);
        assert!(trace.lines.len() <= 1);
        assert!(matches!(trace.halt, Halt::OutOfRange { .. } | Halt::EntryAbort));
        for line in &trace.lines {
            assert!(!line.starts_with("Result: "));
        }
    }
}

#[test]
fn helper_writes_three_result_lines_then_aborts() {
    let trace = process_data(vec![1, 2, 3]);
    assert_eq!(
        trace.lines,
        vec![
            "Result: 1000000".to_string(),
            "Result: 2000000".to_string(),
            "Result: 3000000".to_string(),
        ]
    );
    assert_eq!(trace.halt, Halt::HelperAbort);
}

#[test]
fn helper_on_nothing_aborts_at_once() {
    let trace = process_data(vec![]);
    assert!(trace.lines.is_empty());
    assert_eq!(trace.halt, Halt::HelperAbort);
}

#[test]
fn helper_scales_negative_and_zero_elements() {
    let trace = process_data(vec![-5, 0, 2147, -2147]);
    assert_eq!(
        trace.lines,
        vec![
            "Result: -5000000".to_string(),
            "Result: 0".to_string(),
            "Result: 2147000000".to_string(),
            "Result: -2147000000".to_string(),
        ]
    );
    assert_eq!(trace.halt, Halt::HelperAbort);
}

#[test]
fn helper_stops_at_the_first_overflow() {
    let trace = process_data(vec![1, 3000, 2, -9000]);
    assert_eq!(trace.lines, vec!["Result: 1000000".to_string()]);
    assert_eq!(trace.halt, Halt::Overflow { position: 1, value: 3000 });
}

#[test]
fn helper_overflows_on_the_first_element() {
    let trace = process_data(vec![-2148, 1]);
    assert!(trace.lines.is_empty());
    assert_eq!(trace.halt, Halt::Overflow { position: 0, value: -2148 });
}

#[test]
fn helper_overflows_on_the_last_element() {
    let trace = process_data(vec![7, 8, 2148]);
    assert_eq!(trace.lines, vec!["Result: 7000000".to_string(), "Result: 8000000".to_string()]);
    assert_eq!(trace.halt, Halt::Overflow { position: 2, value: 2148 });
}

#[test]
fn helper_never_writes_the_closing_line() {
    let inputs: Vec<Vec<i32>> = vec![
        vec![],
        vec![1, 2, 3],
        vec![0, 0, 0, 0],
        vec![2147, 2148],
        vec![i32::MIN],
        vec![-1, -2, i32::MAX, 4],
    ];
    for data in inputs {
        let len = data.len();
        let trace = process_data(data);
        assert!(trace.lines.len() <= len);
        for line in &trace.lines {
            assert!(line.starts_with("Result: "));
            assert_ne!(line, CLOSING_LINE);
        }
        assert!(matches!(trace.halt, Halt::HelperAbort | Halt::Overflow { .. }));
    }
}

#[test]
fn helper_is_deterministic() {
    let first = process_data(vec![3, 2, 1, 4000]);
    let second = process_data(vec![3, 2, 1, 4000]);
    assert_eq!(first, second);
}
