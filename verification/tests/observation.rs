use quantum_op_core::distance::{digest_distance, popcount};
use quantum_op_core::capability::hamming_words;
use quantum_op_core::{
    hash_behavior, collect_fingerprint, BeliefDetector, CacheProbe, CapabilityEcho,
    ExecutionContext, Operation, QuantumContext, RealityGapAnalyzer, SystemMindReader,
    TimingSource,
};

const TARGET_WORDS: [u64; 8] = [3, 0, 0xFF, 7, 0, 1, 2, 9];

#[test]
fn counter_source_is_exact_and_monotonic() {
    let mut timing = TimingSource::new_counter(5);
    assert_eq!(timing.now(), 5);
    assert_eq!(timing.now(), 10);
    assert_eq!(timing.now(), 15);
}

#[test]
fn clock_source_never_runs_backwards() {
    let mut timing = TimingSource::new_clock();
    let mut prev: u64 = 0;
    for _ in 0..200 {
        let t = timing.now();
        assert!(t >= prev);
        prev = t;
    }
}

#[test]
fn popcount_and_digest_distance_are_exact() {
    assert_eq!(popcount(0), 0);
    assert_eq!(popcount(u64::MAX), 64);
    assert_eq!(popcount(0xF0), 4);
    assert_eq!(digest_distance(0b1011, 0b0001), 2);
    assert_eq!(digest_distance(42, 42), 0);
}

#[test]
fn hamming_words_counts_differing_bits() {
    let a: [u64; 8] = [0, 0, 0, 0, 0, 0, 0, 0];
    let mut b = a;
    b[1] = 0b101;
    b[6] = 0b1;
    assert_eq!(hamming_words(&a, &b), 3);
    assert_eq!(hamming_words(&a, &a), 0);
}

#[test]
fn fingerprints_are_stable_under_a_deterministic_source() {
    let context: QuantumContext<16> = QuantumContext::new([1, 2, 4, 8, 16, 32, 64, 128]);
    let mut timing_a = TimingSource::new_counter(3);
    let mut timing_b = TimingSource::new_counter(3);
    let digest_a = hash_behavior(&context, &mut timing_a, 100);
    let digest_b = hash_behavior(&context, &mut timing_b, 100);
    assert_eq!(digest_a, digest_b);
    assert_eq!(digest_distance(digest_a, digest_b), 0);
    // Two readings of the step-3 counter bracket the burst at ticks 3 and 6.
    assert_eq!(digest_a, 3 ^ 6);
}

#[test]
fn collecting_a_fingerprint_records_the_digest_bytes() {
    let mut context: QuantumContext<16> = QuantumContext::new([0; 8]);
    let mut timing = TimingSource::new_counter(1);
    let print = collect_fingerprint(&mut context, &mut timing, 4);
    assert_eq!(print.digest_value(), 1 ^ 2);
    assert_eq!(print.iteration_count(), 4);
    assert_eq!(context.hash_byte(0), 3);
    for i in 1..8 {
        assert_eq!(context.hash_byte(i), 0);
    }
}

#[test]
fn silent_observation_folds_the_belief_state() {
    let context: QuantumContext<8> = QuantumContext::new([1, 2, 4, 8, 16, 32, 64, 128]);
    assert_eq!(context.observe_silent(), 255);
}

#[test]
fn silent_execution_only_bumps_phase_and_trail() {
    let mut context: QuantumContext<4> = QuantumContext::new([9; 8]);
    assert_eq!(context.phase_count(), 0);
    assert!(context.execute_silent(&Operation::Identity).is_ok());
    assert_eq!(context.phase_count(), 1);
    assert!(context.execute_silent(&Operation::Invert).is_ok());
    assert_eq!(context.phase_count(), 2);
    assert_eq!(context.belief_word(0), 9);
}

#[test]
fn capability_echo_reconstructs_without_mutating_the_target() {
    let target = ExecutionContext::new(TARGET_WORDS);
    let probe = CacheProbe::new(TimingSource::new_counter(1), 100);
    let mut echo = CapabilityEcho::new(probe, 2, 3);
    assert_eq!(echo.shadow_snapshot(), [0; 8]);
    let set = echo.execute(&target);
    for i in 0..8 {
        assert_eq!(set.word_at(i), TARGET_WORDS[i]);
        // Non-mutation: the original still reads back byte-identical.
        assert_eq!(target.word_at(i), TARGET_WORDS[i]);
    }
    assert_eq!(set.confidence_count(), 8);
    assert_eq!(echo.shadow_snapshot(), TARGET_WORDS);
}

#[test]
fn slow_reads_lower_the_confidence_annotation() {
    let target = ExecutionContext::new(TARGET_WORDS);
    // Threshold zero: every one-tick read classifies as slow.
    let probe = CacheProbe::new(TimingSource::new_counter(1), 0);
    let mut echo = CapabilityEcho::new(probe, 2, 3);
    let set = echo.execute(&target);
    assert_eq!(set.confidence_count(), 0);
    for i in 0..8 {
        assert_eq!(set.word_at(i), TARGET_WORDS[i]);
    }
}

#[test]
fn probe_classification_follows_the_cutoff() {
    let mut probe = CacheProbe::new(TimingSource::new_counter(4), 5);
    let target = ExecutionContext::new(TARGET_WORDS);
    probe.evict(2);
    let (value, elapsed) = probe.measure_access(&target, 2);
    assert_eq!(value, 0xFF);
    assert_eq!(elapsed, 4);
    assert!(probe.classify(elapsed));
    assert!(!probe.classify(6));
}

#[test]
fn consistent_belief_yields_no_gaps() {
    let words: [u64; 8] = [4, 4, 4, 4, 0, 0, 0, 1];
    let detector = BeliefDetector::from_states(words, words, 3);
    assert!(detector.find_gaps().is_empty());
    let reader = SystemMindReader::new(detector, RealityGapAnalyzer::new(1));
    assert!(reader.discover_system_delusions().is_empty());
    assert_eq!(reader.reality_gap(), 0);
}

#[test]
fn each_mismatching_word_becomes_one_gap() {
    let belief: [u64; 8] = [0, 1, 2, 3, 4, 5, 6, 7];
    let mut measured = belief;
    measured[2] = 99;
    measured[5] = 55;
    let detector = BeliefDetector::from_states(belief, measured, 7);
    let gaps = detector.find_gaps();
    assert_eq!(gaps.len(), 2);
    assert_eq!(gaps[0].index, 2);
    assert_eq!(gaps[0].expected, 2);
    assert_eq!(gaps[0].actual, 99);
    assert_eq!(gaps[0].confidence, 7);
    assert_eq!(gaps[1].index, 5);
    assert_eq!(gaps[1].expected, 5);
    assert_eq!(gaps[1].actual, 55);
    let analyzer = RealityGapAnalyzer::new(2);
    let reader = SystemMindReader::new(detector, analyzer);
    assert_eq!(reader.reality_gap(), 4);
}

#[test]
fn observation_measures_through_the_probe() {
    let belief: [u64; 8] = [3, 0, 0, 7, 0, 1, 2, 9];
    let context: QuantumContext<8> = QuantumContext::new(belief);
    let target = ExecutionContext::new(TARGET_WORDS);
    let mut probe = CacheProbe::new(TimingSource::new_counter(1), 100);
    let detector = BeliefDetector::observe(&context, &mut probe, &target, 3);
    let gaps = detector.find_gaps();
    // Belief and measurement disagree exactly at word 2 (0 vs 0xFF).
    assert_eq!(gaps.len(), 1);
    assert_eq!(gaps[0].index, 2);
    assert_eq!(gaps[0].expected, 0);
    assert_eq!(gaps[0].actual, 0xFF);
    assert_eq!(gaps[0].confidence, 3);
}
