use vad_stream::amplitude::exceeds;
use vad_stream::vad::{
    energy_without_samples, VadConfig, VadState, VadStatus, DEFAULT_ENERGY_THRESHOLD, DEFAULT_SILENCE_CHUNKS,
};

fn rms(samples: &[f32]) -> u32 {
    if samples.is_empty() {
        return 0.0f32.to_bits();
    }
    let sum_squares: f32 = samples.iter().map(|&x| x * x).sum();
    (sum_squares / samples.len() as f32).sqrt().to_bits()
}

fn config(threshold: f32, chunks: usize) -> VadConfig {
    VadConfig { energy_threshold: threshold.to_bits(), silence_threshold_chunks: chunks }
}

#[test]
fn default_config_is_one_hundredth_and_fifteen_chunks() {
    let c = VadConfig::default();
    assert_eq!(c.energy_threshold, 0.01f32.to_bits());
    assert_eq!(c.energy_threshold, DEFAULT_ENERGY_THRESHOLD);
    assert_eq!(c.silence_threshold_chunks, 15);
    assert_eq!(DEFAULT_SILENCE_CHUNKS, 15);
}

#[test]
fn new_session_is_idle() {
    let s = VadState::new(config(0.25, 3));
    assert!(!s.is_speaking());
    assert_eq!(s.silence_counter(), 0);
    assert_eq!(s.config(), config(0.25, 3));
}

#[test]
fn utterance_with_default_config() {
    let mut s = VadState::new(VadConfig::default());
    let loud = rms(&[0.5f32; 160]);
    assert_eq!(loud, 0.5f32.to_bits());
    assert_eq!(s.process(loud), VadStatus::SpeechStarted);
    let quiet = rms(&[0.0f32; 160]);
    for k in 1..=15usize {
        assert_eq!(s.process(quiet), VadStatus::SilenceDuringSpeech);
        assert!(s.is_speaking());
        assert_eq!(s.silence_counter(), k);
    }
    assert_eq!(s.process(quiet), VadStatus::SpeechEnded);
    assert!(!s.is_speaking());
    assert_eq!(s.silence_counter(), 0);
}

#[test]
fn empty_batch_is_silence_when_idle() {
    let mut s = VadState::new(VadConfig::default());
    assert_eq!(s.process(rms(&[])), VadStatus::Silence);
    assert!(!s.is_speaking());
    assert_eq!(s.silence_counter(), 0);
}

#[test]
fn empty_batch_counts_as_silent_while_speaking() {
    let mut s = VadState::new(config(0.01, 2));
    assert_eq!(s.process(0.3f32.to_bits()), VadStatus::SpeechStarted);
    assert_eq!(s.process(rms(&[])), VadStatus::SilenceDuringSpeech);
    assert_eq!(s.silence_counter(), 1);
    assert_eq!(s.process(rms(&[])), VadStatus::SilenceDuringSpeech);
    assert_eq!(s.process(rms(&[])), VadStatus::SpeechEnded);
}

#[test]
fn quiet_batches_leave_an_idle_session_unchanged() {
    let mut s = VadState::new(config(0.01, 15));
    for e in [0.0f32, 0.001, 0.0099, 0.01, -0.0, f32::NAN, -1.0] {
        assert_eq!(s.process(e.to_bits()), VadStatus::Silence);
        assert!(!s.is_speaking());
        assert_eq!(s.silence_counter(), 0);
        assert_eq!(s.config(), config(0.01, 15));
    }
}

#[test]
fn energy_equal_to_threshold_is_silence() {
    let mut s = VadState::new(config(0.01, 15));
    assert_eq!(s.process(0.01f32.to_bits()), VadStatus::Silence);
    let just_above = f32::from_bits(0.01f32.to_bits() + 1);
    assert_eq!(s.process(just_above.to_bits()), VadStatus::SpeechStarted);
}

#[test]
fn speech_started_fires_once_per_onset() {
    let mut s = VadState::new(config(0.01, 1));
    assert_eq!(s.process(0.011f32.to_bits()), VadStatus::SpeechStarted);
    assert_eq!(s.process(1.0f32.to_bits()), VadStatus::Speaking);
    assert_eq!(s.process(f32::INFINITY.to_bits()), VadStatus::Speaking);
    assert_eq!(s.process(0.0f32.to_bits()), VadStatus::SilenceDuringSpeech);
    assert_eq!(s.process(0.0f32.to_bits()), VadStatus::SpeechEnded);
    assert_eq!(s.process(0.0f32.to_bits()), VadStatus::Silence);
    assert_eq!(s.process(1000.0f32.to_bits()), VadStatus::SpeechStarted);
    assert_eq!(s.process(0.02f32.to_bits()), VadStatus::Speaking);
}

#[test]
fn n_silent_batches_are_tolerated_and_the_next_ends_speech() {
    for n in [1usize, 2, 5, 40] {
        let mut s = VadState::new(config(0.05, n));
        assert_eq!(s.process(0.9f32.to_bits()), VadStatus::SpeechStarted);
        for _ in 0..n {
            assert_eq!(s.process(0.05f32.to_bits()), VadStatus::SilenceDuringSpeech);
            assert!(s.is_speaking());
        }
        assert_eq!(s.process(0.01f32.to_bits()), VadStatus::SpeechEnded);
        assert!(!s.is_speaking());
        assert_eq!(s.silence_counter(), 0);
    }
}

#[test]
fn zero_chunk_limit_ends_on_first_silent_batch() {
    let mut s = VadState::new(config(0.05, 0));
    assert_eq!(s.process(0.9f32.to_bits()), VadStatus::SpeechStarted);
    assert_eq!(s.process(0.0f32.to_bits()), VadStatus::SpeechEnded);
}

#[test]
fn largest_chunk_limit_does_not_overflow() {
    let mut s = VadState::new(config(0.05, usize::MAX));
    assert_eq!(s.process(0.9f32.to_bits()), VadStatus::SpeechStarted);
    for k in 1..=100usize {
        assert_eq!(s.process(0.0f32.to_bits()), VadStatus::SilenceDuringSpeech);
        assert_eq!(s.silence_counter(), k);
    }
}

#[test]
fn voiced_batch_resets_the_counter() {
    let mut s = VadState::new(config(0.01, 3));
    assert_eq!(s.process(0.5f32.to_bits()), VadStatus::SpeechStarted);
    for _ in 0..3 {
        assert_eq!(s.process(0.0f32.to_bits()), VadStatus::SilenceDuringSpeech);
    }
    assert_eq!(s.silence_counter(), 3);
    assert_eq!(s.process(0.5f32.to_bits()), VadStatus::Speaking);
    assert_eq!(s.silence_counter(), 0);
    for _ in 0..3 {
        assert_eq!(s.process(0.0f32.to_bits()), VadStatus::SilenceDuringSpeech);
    }
    assert_eq!(s.process(0.0f32.to_bits()), VadStatus::SpeechEnded);
}

#[test]
fn sessions_do_not_share_state() {
    let mut a = VadState::new(config(0.01, 2));
    let mut b = VadState::new(config(0.01, 2));
    let mut alone = VadState::new(config(0.01, 2));
    let for_a = [0.5f32, 0.0, 0.0, 0.0, 0.0, 0.7];
    let for_b = [0.0f32, 0.0, 0.9, 0.9, 0.0, 0.0];
    for i in 0..6 {
        let got = a.process(for_a[i].to_bits());
        let _ = b.process(for_b[i].to_bits());
        assert_eq!(got, alone.process(for_a[i].to_bits()));
        assert_eq!(a.is_speaking(), alone.is_speaking());
        assert_eq!(a.silence_counter(), alone.silence_counter());
    }
    assert!(a.is_speaking());
    assert!(b.is_speaking());
    assert_eq!(b.silence_counter(), 2);
}

#[test]
fn rms_of_a_batch_feeds_the_detector() {
    let mut s = VadState::new(VadConfig::default());
    assert_eq!(s.process(rms(&[0.005, -0.005, 0.005, -0.005])), VadStatus::Silence);
    assert_eq!(s.process(rms(&[0.3, -0.4])), VadStatus::SpeechStarted);
}

#[test]
fn exceeds_agrees_with_float_comparison() {
    let values = [
        0.0f32,
        -0.0,
        f32::MIN_POSITIVE,
        -f32::MIN_POSITIVE,
        f32::from_bits(1),
        f32::from_bits(0x8000_0001),
        0.01,
        0.5,
        1.0,
        -1.0,
        -0.5,
        3.5e20,
        -3.5e20,
        f32::MAX,
        f32::MIN,
        f32::INFINITY,
        f32::NEG_INFINITY,
        f32::NAN,
        f32::from_bits(0xffc0_0001),
        f32::from_bits(0x7f80_0001),
    ];
    for a in values {
        for b in values {
            assert_eq!(exceeds(a.to_bits(), b.to_bits()), a > b, "{a:?} > {b:?}");
        }
    }
}

#[test]
fn exceeds_is_strict() {
    assert!(!exceeds(0.01f32.to_bits(), 0.01f32.to_bits()));
    assert!(exceeds(0.5f32.to_bits(), 0.01f32.to_bits()));
    assert!(!exceeds(0.01f32.to_bits(), 0.5f32.to_bits()));
    assert!(!exceeds(0x8000_0000, 0));
    assert!(!exceeds(0, 0x8000_0000));
}

#[test]
fn config_range_is_zero_exclusive_to_one_inclusive() {
    assert!(VadConfig::default().is_in_range());
    assert!(config(1.0, 1).is_in_range());
    assert!(config(f32::MIN_POSITIVE, 1).is_in_range());
    assert!(!config(0.0, 1).is_in_range());
    assert!(!config(-0.5, 1).is_in_range());
    assert!(!config(1.5, 1).is_in_range());
    assert!(!config(f32::NAN, 1).is_in_range());
    assert!(!config(0.5, 0).is_in_range());
}

#[test]
fn batch_without_samples_has_energy_zero() {
    assert_eq!(energy_without_samples(&[]), Some(0.0f32.to_bits()));
    assert_eq!(energy_without_samples(&[]), Some(0));
    assert_eq!(energy_without_samples(&[0]), None);
    assert_eq!(energy_without_samples(&[0.5f32.to_bits(), 0]), None);
}

#[test]
fn energy_of_empty_batch_is_silent_for_the_detector() {
    let mut s = VadState::new(VadConfig::default());
    let e = energy_without_samples(&[]).unwrap();
    assert_eq!(s.process(e), VadStatus::Silence);
    assert_eq!(s.process(0.5f32.to_bits()), VadStatus::SpeechStarted);
    assert_eq!(s.process(e), VadStatus::SilenceDuringSpeech);
    assert_eq!(s.silence_counter(), 1);
}
