use quantum_op_core::{race, Operation, TemporalShadow, Timeline};

#[test]
fn race_identity_yields_zero_severity() {
    let record = race(Operation::Identity, vec![1, 2, 3, 4], 8);
    assert!(record.is_complete());
    assert_eq!(record.severity_score(), 0);
    assert_eq!(record.offset_count(), 0);
}

#[test]
fn race_invert_duplicate_yields_zero_severity() {
    let record = race(Operation::Invert, vec![0x0F, 0xAA, 0x00], 1);
    assert!(record.is_complete());
    assert_eq!(record.severity_score(), 0);
    assert_eq!(record.offset_count(), 0);
}

#[test]
fn race_with_zero_timeout_returns_incomplete() {
    let record = race(Operation::Identity, vec![9, 9, 9], 0);
    assert!(!record.is_complete());
    assert_eq!(record.severity_score(), 0);
    assert_eq!(record.offset_count(), 0);
}

#[test]
fn identical_timelines_produce_empty_paradox() {
    let a = Timeline::new(Operation::Constant(vec![0x01, 0x02, 0x03, 0x04]), Vec::new());
    let b = Timeline::new(Operation::Constant(vec![0x01, 0x02, 0x03, 0x04]), Vec::new());
    let mut shadow = TemporalShadow::new(a, b);
    let record = shadow.create_time_paradox();
    assert!(record.is_complete());
    assert_eq!(record.severity_score(), 0);
    assert_eq!(record.offset_count(), 0);
}

#[test]
fn divergent_timelines_name_the_exact_offset() {
    let a = Timeline::new(Operation::Constant(vec![0x01, 0x02, 0x03, 0x04]), Vec::new());
    let b = Timeline::new(Operation::Constant(vec![0x01, 0x02, 0xFF, 0x04]), Vec::new());
    let mut shadow = TemporalShadow::new(a, b);
    let record = shadow.create_time_paradox();
    assert!(record.is_complete());
    assert_eq!(record.offset_count(), 1);
    assert_eq!(record.offset_at(0), 2);
    assert_eq!(record.severity_score(), 1);
}

#[test]
fn length_mismatch_counts_as_divergence() {
    let a = Timeline::new(Operation::Constant(vec![7, 7]), Vec::new());
    let b = Timeline::new(Operation::Constant(vec![7, 7, 9]), Vec::new());
    let mut shadow = TemporalShadow::new(a, b);
    let record = shadow.create_time_paradox();
    assert_eq!(record.offset_count(), 1);
    assert_eq!(record.offset_at(0), 2);
}

#[test]
fn paradox_extraction_bumps_the_anchor() {
    let a = Timeline::new(Operation::Identity, vec![5]);
    let b = Timeline::new(Operation::Identity, vec![5]);
    let mut shadow = TemporalShadow::new(a, b);
    assert_eq!(shadow.anchor_count(), 0);
    let _ = shadow.create_time_paradox();
    assert_eq!(shadow.anchor_count(), 1);
    let _ = shadow.create_time_paradox();
    assert_eq!(shadow.anchor_count(), 2);
}

#[test]
fn operations_compute_their_documented_outputs() {
    let inverted = Operation::Invert.run(&vec![0x0F, 0x00]);
    assert_eq!(inverted, vec![0xF0, 0xFF]);
    let identity = Operation::Identity.run(&vec![1, 2, 3]);
    assert_eq!(identity, vec![1, 2, 3]);
    let constant = Operation::Constant(vec![8, 9]).run(&vec![1]);
    assert_eq!(constant, vec![8, 9]);
    assert_eq!(Operation::Identity.id(), 1);
    assert_eq!(Operation::Constant(Vec::new()).id(), 2);
    assert_eq!(Operation::Invert.id(), 3);
}
