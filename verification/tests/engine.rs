use rust_fuzzer::corpus::default_corpus;
use rust_fuzzer::corpus::initial_corpus;
use rust_fuzzer::engine::mutate;

#[test]
fn determinism_two_runs() {
    let a = mutate(default_corpus(), 7, 1000);
    let b = mutate(default_corpus(), 7, 1000);
    assert_eq!(a, b);
}

#[test]
fn zero_iterations_identity() {
    let initial = b"InitialSeedData".to_vec();
    let out = mutate(initial.clone(), 42, 0);
    assert_eq!(out, initial);
}

#[test]
fn zero_iterations_identity_other_inputs() {
    let initial = vec![0u8, 255u8, 17u8];
    let out = mutate(initial.clone(), 123456789, 0);
    assert_eq!(out, initial);
}

#[test]
fn growth_law_two_blocks() {
    let out = mutate(vec![0u8; 15], 9, 1200);
    assert_eq!(out.len(), 35);
}

#[test]
fn growth_law_one_block() {
    let initial = b"InitialSeedData".to_vec();
    let out = mutate(initial, 1, 500);
    assert_eq!(out.len(), 25);
}

#[test]
fn growth_law_below_interval() {
    let out = mutate(vec![0u8; 15], 3, 499);
    assert_eq!(out.len(), 15);
}

#[test]
fn growth_law_empty_initial() {
    let out = mutate(Vec::new(), 5, 1000);
    assert_eq!(out.len(), 20);
}

#[test]
fn default_bootstrap() {
    assert_eq!(initial_corpus(None), b"InitialSeedData".to_vec());
}

#[test]
fn existing_corpus_is_kept() {
    let existing = vec![1u8, 2u8, 3u8];
    assert_eq!(initial_corpus(Some(existing.clone())), existing);
}

#[test]
fn mutation_rate_converges() {
    let trials: usize = 100_000;
    let mut hits: usize = 0;
    for seed in 0..trials {
        let out = mutate(vec![0xAAu8], seed as u64, 1);
        if out[0] != 0xAA {
            hits += 1;
        }
    }
    let rate = hits as f64 / trials as f64;
    assert!(rate > 0.12 && rate < 0.14);
}

#[test]
fn mutation_changes_bytes() {
    let initial = b"InitialSeedData".to_vec();
    let out = mutate(initial.clone(), 1, 100);
    assert_eq!(out.len(), initial.len());
    assert_ne!(out, initial);
}

#[test]
fn grown_bytes_are_drawn() {
    let initial = vec![7u8; 15];
    let out = mutate(initial, 123, 500);
    let appended = &out[15..];
    assert_eq!(appended.len(), 10);
    assert!(!appended.iter().all(|&b| b == appended[0]));
}
