use minibreak::audio::{
    samples_needed, AudioSynth, AUDIO_DEATH_BLOOP, AUDIO_REFLECT_BLEEP, AUDIO_TARGET,
};

fn idle_synth() -> AudioSynth {
    AudioSynth {
        wave: 0,
        lfo: 12000,
        bleep_high: false,
        bleeping: 0,
        blooping: 0,
    }
}

#[test]
fn backpressure_counts_toward_target() {
    assert_eq!(samples_needed(AUDIO_TARGET), 0);
    assert_eq!(samples_needed(AUDIO_TARGET - 10), 10);
    assert_eq!(samples_needed(0), AUDIO_TARGET);
    assert_eq!(samples_needed(AUDIO_TARGET + 500), 0);
}

#[test]
fn idle_hum_applies_envelope() {
    let mut a = idle_synth();
    let (value, now_paused) = a.next_sample(false, false);
    assert!(!now_paused);
    // Base step 150, scaled to 12 bits: 150 >> 4 = 9; envelope 9 * 12001
    // / 48000 = 2; packed into both stereo half-words.
    assert_eq!(a.wave, 150);
    assert_eq!(a.lfo, 12001);
    assert_eq!(value, 0x0002_0002);
}

#[test]
fn paused_sample_holds_level_without_envelope() {
    let mut a = idle_synth();
    a.wave = 320;
    let before = a;
    let (value, now_paused) = a.next_sample(true, false);
    assert!(now_paused);
    assert_eq!(a, before);
    // 320 >> 4 = 20, no envelope while paused.
    assert_eq!(value, 0x0014_0014);
}

#[test]
fn bleep_plays_one_octave_up() {
    let mut a = idle_synth();
    a.bleeping = AUDIO_REFLECT_BLEEP;
    let (value, _) = a.next_sample(false, false);
    assert_eq!(a.wave, 300);
    assert_eq!(a.bleeping, AUDIO_REFLECT_BLEEP - 1);
    assert_eq!(value, (300 >> 4) | ((300 >> 4) << 16));
}

#[test]
fn high_bleep_plays_two_octaves_up() {
    let mut a = idle_synth();
    a.bleeping = AUDIO_REFLECT_BLEEP;
    a.bleep_high = true;
    let (value, _) = a.next_sample(false, false);
    assert_eq!(a.wave, 600);
    assert_eq!(value, (600 >> 4) | ((600 >> 4) << 16));
}

#[test]
fn bloop_strobe_alternates_loud_and_silent() {
    // In the first strobe window after the counter starts, (blooping - 1) /
    // strobe is odd, so a losing game plays one octave down from base.
    let mut loud = idle_synth();
    loud.blooping = AUDIO_DEATH_BLOOP;
    let (_, paused) = loud.next_sample(false, false);
    assert!(!paused);
    assert_eq!(loud.wave, 75);
    assert_eq!(loud.blooping, AUDIO_DEATH_BLOOP - 1);
    // A window with an even quotient is silent.
    let mut silent = idle_synth();
    silent.blooping = 6400;
    silent.next_sample(false, false);
    assert_eq!(silent.wave, 0);
}

#[test]
fn winning_bloop_plays_two_octaves_up() {
    let mut a = idle_synth();
    a.blooping = AUDIO_DEATH_BLOOP;
    a.next_sample(false, true);
    assert_eq!(a.wave, 600);
}

#[test]
fn bloop_takes_priority_over_bleep() {
    let mut a = idle_synth();
    a.blooping = AUDIO_DEATH_BLOOP;
    a.bleeping = AUDIO_REFLECT_BLEEP;
    a.next_sample(false, false);
    assert_eq!(a.wave, 75);
    assert_eq!(a.bleeping, AUDIO_REFLECT_BLEEP);
    assert_eq!(a.blooping, AUDIO_DEATH_BLOOP - 1);
}

#[test]
fn bloop_pauses_exactly_when_exhausted() {
    let mut a = idle_synth();
    a.blooping = AUDIO_DEATH_BLOOP;
    let mut paused = false;
    for sample in 0..AUDIO_DEATH_BLOOP as u32 {
        assert!(!paused, "paused too early, at sample {}", sample);
        let (_, now_paused) = a.next_sample(paused, false);
        paused = now_paused;
    }
    assert!(paused);
    assert_eq!(a.blooping, 0);
    // Once paused, further samples never unpause and never move the state.
    let frozen = a;
    for _ in 0..100 {
        let (_, now_paused) = a.next_sample(paused, false);
        paused = now_paused;
        assert!(paused);
    }
    assert_eq!(a, frozen);
}

#[test]
fn lfo_wraps_at_its_period() {
    let mut a = idle_synth();
    a.lfo = 47999;
    a.next_sample(false, false);
    assert_eq!(a.lfo, 0);
}

#[test]
fn wave_wraps_modulo_two_to_the_sixteen() {
    let mut a = idle_synth();
    a.wave = 65500;
    a.next_sample(false, false);
    assert_eq!(a.wave, (65500u32 + 150 - 65536) as u16);
}
