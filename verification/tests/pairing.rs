//! The begin/end pairing discipline, exercised on the facility model with
//! concrete labels and bodies.

use console_timer::model::{Facility, Measurement, Signal};

/// The observed stream, flattened for comparison: `true` for a begin signal,
/// `false` for an end signal, each with its label.
fn signals(fac: &Facility) -> Vec<(bool, String)> {
    let mut out: Vec<(bool, String)> = Vec::new();
    for i in 0..fac.len() {
        let s = fac.signal(i);
        out.push((s.is_begin(), s.label().to_string()));
    }
    out
}

#[test]
fn new_facility_has_observed_nothing() {
    let fac = Facility::new();
    assert_eq!(fac.len(), 0);
}

#[test]
fn start_then_finish_pairs_once() {
    let mut fac = Facility::new();
    let m = Measurement::start(&mut fac, "L");
    m.finish(&mut fac);
    assert_eq!(
        signals(&fac),
        vec![(true, "L".to_string()), (false, "L".to_string())]
    );
}

#[test]
fn scope_returns_forty_two_and_pairs_render() {
    let mut fac = Facility::new();
    let v = Measurement::scope(&mut fac, "render", || 42);
    assert_eq!(v, 42);
    assert_eq!(
        signals(&fac),
        vec![(true, "render".to_string()), (false, "render".to_string())]
    );
}

#[test]
fn scope_hands_an_owned_value_through() {
    let mut fac = Facility::new();
    let word = String::from("done");
    let text = Measurement::scope(&mut fac, "work", move || word);
    assert_eq!(text, "done");
}

#[test]
fn scope_emits_the_same_pair_as_direct_use() {
    let mut by_scope = Facility::new();
    let v = Measurement::scope(&mut by_scope, "work", || 7);
    assert_eq!(v, 7);

    let mut by_hand = Facility::new();
    let m = Measurement::start(&mut by_hand, "work");
    m.finish(&mut by_hand);

    assert_eq!(signals(&by_scope), signals(&by_hand));
}

#[test]
fn sequenced_labels_pair_independently() {
    let mut fac = Facility::new();
    let a = Measurement::start(&mut fac, "a");
    a.finish(&mut fac);
    let b = Measurement::start(&mut fac, "b");
    b.finish(&mut fac);
    assert_eq!(
        signals(&fac),
        vec![
            (true, "a".to_string()),
            (false, "a".to_string()),
            (true, "b".to_string()),
            (false, "b".to_string()),
        ]
    );
}

#[test]
fn nested_labels_pair_independently() {
    let mut fac = Facility::new();
    let a = Measurement::start(&mut fac, "a");
    let b = Measurement::start(&mut fac, "b");
    b.finish(&mut fac);
    a.finish(&mut fac);
    assert_eq!(
        signals(&fac),
        vec![
            (true, "a".to_string()),
            (true, "b".to_string()),
            (false, "b".to_string()),
            (false, "a".to_string()),
        ]
    );
}

#[test]
fn labels_pair_independently_in_the_other_order() {
    let mut fac = Facility::new();
    let b = Measurement::start(&mut fac, "b");
    b.finish(&mut fac);
    let a = Measurement::start(&mut fac, "a");
    a.finish(&mut fac);
    assert_eq!(
        signals(&fac),
        vec![
            (true, "b".to_string()),
            (false, "b".to_string()),
            (true, "a".to_string()),
            (false, "a".to_string()),
        ]
    );
}

#[test]
fn one_end_signal_per_measurement() {
    let mut fac = Facility::new();
    let v = Measurement::scope(&mut fac, "once", || 7);
    assert_eq!(v, 7);
    let mut ends: usize = 0;
    for i in 0..fac.len() {
        if !fac.signal(i).is_begin() {
            ends += 1;
        }
    }
    assert_eq!(ends, 1);
}

#[test]
fn signals_tell_their_kind_and_label_apart() {
    let mut fac = Facility::new();
    fac.observe_begin("x");
    fac.observe_end("y");
    assert!(fac.signal(0).is_begin());
    assert!(!fac.signal(1).is_begin());
    assert_eq!(fac.signal(0).label(), "x");
    assert_eq!(fac.signal(1).label(), "y");
    assert!(matches!(fac.signal(0), Signal::Begin(l) if l == "x"));
    assert!(matches!(fac.signal(1), Signal::End(l) if l == "y"));
}

#[test]
fn identical_labels_keep_their_own_pairs() {
    let mut fac = Facility::new();
    let first = Measurement::start(&mut fac, "same");
    let second = Measurement::start(&mut fac, "same");
    second.finish(&mut fac);
    first.finish(&mut fac);
    assert_eq!(
        signals(&fac),
        vec![
            (true, "same".to_string()),
            (true, "same".to_string()),
            (false, "same".to_string()),
            (false, "same".to_string()),
        ]
    );
}
