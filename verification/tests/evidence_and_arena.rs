use quantum_op_core::evidence::{detect_capability_drift, detect_temporal_anomaly};
use quantum_op_core::{
    BeliefDetector, CacheProbe, CapabilityEcho, CapabilitySet, ExecutionContext, QuantumContext,
    QuantumEvidence, RealityGapAnalyzer, SnapshotArena, SystemMindReader, TimingSource,
};

#[test]
fn evidence_on_a_consistent_system_is_quiet() {
    let words: [u64; 8] = [1, 1, 2, 3, 5, 8, 13, 21];
    let context: QuantumContext<16> = QuantumContext::new(words);
    let detector = BeliefDetector::from_states(words, words, 5);
    let reader = SystemMindReader::new(detector, RealityGapAnalyzer::new(2));
    let mut timing = TimingSource::new_counter(3);
    let evidence = QuantumEvidence::collect_silent(&context, &reader, &mut timing);
    assert_eq!(evidence.behavioral_hash, 3 ^ 6);
    assert_eq!(evidence.reality_gap, 0);
    assert!(!evidence.temporal_anomaly);
    assert_eq!(evidence.system_delusion, "");
    assert!(evidence.raw_memory.iter().all(|b| *b == 0));
    // The fresh context still holds the absent snapshot: its zero words
    // drift from the measured state wherever that state is non-zero.
    assert_eq!(evidence.capability_drift, 8);
}

#[test]
fn evidence_names_the_delusion_when_belief_diverges() {
    let belief: [u64; 8] = [0; 8];
    let mut measured = belief;
    measured[4] = 1;
    let context: QuantumContext<16> = QuantumContext::new(belief);
    let detector = BeliefDetector::from_states(belief, measured, 5);
    let reader = SystemMindReader::new(detector, RealityGapAnalyzer::new(2));
    let mut timing = TimingSource::new_counter(1);
    let evidence = QuantumEvidence::collect_silent(&context, &reader, &mut timing);
    assert_eq!(evidence.reality_gap, 2);
    assert_eq!(evidence.system_delusion, "belief diverges from measured state");
    assert_eq!(evidence.capability_drift, 1);
    assert!(!evidence.temporal_anomaly);
}

#[test]
fn evidence_reflects_installed_capabilities() {
    let words: [u64; 8] = [3, 0, 0xFF, 7, 0, 1, 2, 9];
    let mut context: QuantumContext<16> = QuantumContext::new(words);
    let target = ExecutionContext::new(words);
    let probe = CacheProbe::new(TimingSource::new_counter(1), 100);
    let mut echo = CapabilityEcho::new(probe, 2, 3);
    let snapshot = echo.execute(&target);
    context.install_capabilities(snapshot);
    let detector = BeliefDetector::from_states(words, words, 5);
    let reader = SystemMindReader::new(detector, RealityGapAnalyzer::new(1));
    let mut timing = TimingSource::new_counter(2);
    let evidence = QuantumEvidence::collect_silent(&context, &reader, &mut timing);
    // The echoed snapshot now matches the measured state word for word.
    assert_eq!(evidence.capability_drift, 0);
}

#[test]
fn temporal_anomaly_is_never_reported() {
    let mut counter = TimingSource::new_counter(7);
    assert!(!detect_temporal_anomaly(&mut counter));
    let mut clock = TimingSource::new_clock();
    assert!(!detect_temporal_anomaly(&mut clock));
}

#[test]
fn capability_drift_counts_word_mismatches() {
    let absent = CapabilitySet::absent();
    let mut measured: [u64; 8] = [0; 8];
    measured[0] = 5;
    measured[7] = 1;
    let detector = BeliefDetector::from_states([0; 8], measured, 1);
    assert_eq!(detect_capability_drift(&absent, &detector), 2);
}

#[test]
fn arena_defers_reclamation_until_readers_leave() {
    let first = CapabilitySet::absent();
    let mut arena = SnapshotArena::new(first);
    let gen0 = arena.pin();
    assert_eq!(gen0, 0);
    assert_eq!(arena.reader_count(0), 1);

    arena.install(CapabilitySet::absent());
    assert_eq!(arena.generation_count(), 2);
    assert_eq!(arena.current_generation(), 1);

    // The old generation is still pinned: retirement must skip it.
    arena.retire_stale();
    assert!(!arena.is_retired(0));
    let pinned = arena.read(gen0);
    assert_eq!(pinned.confidence_count(), 0);

    // Once the reader leaves, the stale generation goes.
    arena.unpin(gen0);
    arena.retire_stale();
    assert!(arena.is_retired(0));
    assert!(!arena.is_retired(1));
}

#[test]
fn arena_never_retires_the_current_generation() {
    let mut arena = SnapshotArena::new(CapabilitySet::absent());
    arena.retire_stale();
    assert!(!arena.is_retired(0));
    arena.install(CapabilitySet::absent());
    arena.install(CapabilitySet::absent());
    arena.retire_stale();
    assert!(arena.is_retired(0));
    assert!(arena.is_retired(1));
    assert!(!arena.is_retired(2));
}
