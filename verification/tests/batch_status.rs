use unheic::failures::ConversionErrors;
use unheic::progress::{Aggregator, ConversionProgress, Percent, SingleConversionResult};

fn failure(path: &str, message: &str) -> SingleConversionResult {
    SingleConversionResult::Error(path.to_string(), message.to_string())
}

#[test]
fn batch_without_failures_completes_after_exactly_n_reports() {
    for n in [1u16, 2, 3, 7, 250] {
        let mut aggregator = Aggregator::start(n);
        for received in 1..=n {
            assert_eq!(aggregator.remaining(), n - received + 1);
            aggregator.record(SingleConversionResult::Done);
            match aggregator.progress() {
                ConversionProgress::InProgress(completed, total, _) => {
                    assert_eq!(*completed, received);
                    assert_eq!(*total, n);
                },
                other => panic!("not in progress: {other:?}"),
            }
        }
        assert_eq!(aggregator.remaining(), 0);
        assert!(matches!(aggregator.progress(), ConversionProgress::InProgress(c, t, _) if *c == n && *t == n));
        aggregator.finish();
        assert!(matches!(aggregator.progress(), ConversionProgress::Completed(t) if *t == n));
    }
}

#[test]
fn empty_batch_completes_without_a_report() {
    let mut aggregator = Aggregator::start(0);
    assert_eq!(aggregator.remaining(), 0);
    match aggregator.progress() {
        ConversionProgress::InProgress(0, 0, percent) => {
            assert_eq!(*percent, Percent { numerator: 0, denominator: 1 });
        },
        other => panic!("unexpected start: {other:?}"),
    }
    aggregator.finish();
    assert!(matches!(aggregator.into_progress(), ConversionProgress::Completed(0)));
}

#[test]
fn failed_item_is_kept_and_batch_never_completes() {
    let mut aggregator = Aggregator::start(4);
    aggregator.record(SingleConversionResult::Done);
    aggregator.record(failure("/in/k.heic", "cannot decode"));
    match aggregator.progress() {
        ConversionProgress::Error(errors) => {
            assert_eq!(errors.len(), 1);
            assert_eq!(errors.get("/in/k.heic").map(|m| m.as_str()), Some("cannot decode"));
        },
        other => panic!("not in error: {other:?}"),
    }
    aggregator.record(SingleConversionResult::Done);
    assert!(matches!(aggregator.progress(), ConversionProgress::Error(_)));
    aggregator.record(SingleConversionResult::Done);
    assert_eq!(aggregator.remaining(), 0);
    aggregator.finish();
    match aggregator.into_progress() {
        ConversionProgress::Error(errors) => {
            assert!(errors.contains("/in/k.heic"));
            assert_eq!(errors.len(), 1);
        },
        other => panic!("not in error: {other:?}"),
    }
}

#[test]
fn failures_accumulate_in_the_error_map() {
    let mut aggregator = Aggregator::start(3);
    aggregator.record(failure("a.heic", "first"));
    aggregator.record(failure("b.heic", "second"));
    aggregator.record(failure("a.heic", "third"));
    aggregator.finish();
    match aggregator.progress() {
        ConversionProgress::Error(errors) => {
            assert_eq!(errors.len(), 2);
            assert_eq!(errors.get("a.heic").map(|m| m.as_str()), Some("third"));
            assert_eq!(errors.get("b.heic").map(|m| m.as_str()), Some("second"));
            assert!(errors.get("c.heic").is_none());
            let first = errors.get_index(0).unwrap();
            assert_eq!((first.0.as_str(), first.1.as_str()), ("a.heic", "third"));
            let second = errors.get_index(1).unwrap();
            assert_eq!((second.0.as_str(), second.1.as_str()), ("b.heic", "second"));
            assert!(errors.get_index(2).is_none());
        },
        other => panic!("not in error: {other:?}"),
    }
}

#[test]
fn failure_of_the_last_item_keeps_the_batch_from_completing() {
    let mut aggregator = Aggregator::start(2);
    aggregator.record(SingleConversionResult::Done);
    aggregator.record(failure("last.heic", "disk full"));
    aggregator.finish();
    assert!(matches!(aggregator.progress(), ConversionProgress::Error(e) if e.contains("last.heic")));
}

#[test]
fn percent_is_exactly_hundred_times_completed_over_total() {
    let total = 7u16;
    let mut aggregator = Aggregator::start(total);
    for step in 0..=total {
        match aggregator.progress() {
            ConversionProgress::InProgress(completed, all, percent) => {
                assert_eq!(*completed, step);
                assert_eq!(*all, total);
                assert_eq!(percent.numerator, 100 * u32::from(step));
                assert_eq!(percent.denominator, total);
            },
            other => panic!("not in progress: {other:?}"),
        }
        if step < total {
            aggregator.record(SingleConversionResult::Done);
        }
    }
}

#[test]
fn percent_values() {
    assert_eq!(Percent::of(1, 3), Percent { numerator: 100, denominator: 3 });
    assert_eq!(Percent::of(2, 3), Percent { numerator: 200, denominator: 3 });
    assert_eq!(Percent::of(3, 3), Percent { numerator: 300, denominator: 3 });
    assert_eq!(Percent::of(65535, 65535), Percent { numerator: 6_553_500, denominator: 65535 });
    assert_eq!(Percent::of(0, 0), Percent { numerator: 0, denominator: 1 });
    let shown = f64::from(Percent::of(1, 8).numerator) / f64::from(Percent::of(1, 8).denominator);
    assert_eq!(shown, 12.5);
}

#[test]
fn progress_bar_and_running_flag() {
    let full = Percent { numerator: 100, denominator: 1 };
    assert_eq!(ConversionProgress::Inactive.bar_percent(), Percent { numerator: 0, denominator: 1 });
    assert_eq!(ConversionProgress::default().bar_percent(), Percent { numerator: 0, denominator: 1 });
    assert_eq!(ConversionProgress::Completed(5).bar_percent(), full);
    assert_eq!(ConversionProgress::Error(ConversionErrors::new()).bar_percent(), full);
    let running = ConversionProgress::InProgress(1, 4, Percent::of(1, 4));
    assert_eq!(running.bar_percent(), Percent { numerator: 100, denominator: 4 });
    assert!(running.is_in_progress());
    assert!(!ConversionProgress::Inactive.is_in_progress());
    assert!(!ConversionProgress::Completed(5).is_in_progress());
    assert!(!ConversionProgress::Error(ConversionErrors::new()).is_in_progress());
}

#[test]
fn error_map_insert_and_lookup() {
    let mut errors = ConversionErrors::new();
    assert_eq!(errors.len(), 0);
    assert!(!errors.contains("x"));
    errors.insert("x".to_string(), "one".to_string());
    errors.insert("y".to_string(), "two".to_string());
    errors.insert("x".to_string(), "three".to_string());
    assert_eq!(errors.len(), 2);
    assert!(errors.contains("x"));
    assert_eq!(errors.get("x").unwrap(), "three");
    assert_eq!(errors.get("y").unwrap(), "two");
    assert!(errors.get("").is_none());
}

#[test]
fn report_of_an_item_follows_its_outcome() {
    assert!(matches!(
        SingleConversionResult::from_outcome("a.heic".to_string(), Ok(())),
        SingleConversionResult::Done
    ));
    match SingleConversionResult::from_outcome("a.heic".to_string(), Err("no such file".to_string())) {
        SingleConversionResult::Error(path, message) => {
            assert_eq!(path, "a.heic");
            assert_eq!(message, "no such file");
        },
        other => panic!("not a failure: {other:?}"),
    }
}
