use additive_synth::constants::{FADE_DURATION, NUM_KEYS};
use additive_synth::engine::shared_params::SharedParams;
use additive_synth::voice::Voice;

fn with_buffer(key: usize, buffer: Vec<f32>) -> SharedParams<f32> {
    let mut params: SharedParams<f32> = SharedParams::new(4, 30);
    assert!(params.try_claim_buffer(key));
    assert!(params.complete_buffer(key, buffer));
    params
}

#[test]
fn new_voice_fades_before_and_after_its_fade_out_starts() {
    let mut voice: Voice<f32> = Voice::new(vec![0.5, 0.25]);
    assert!(voice.fade_in_active);
    assert_eq!(voice.idx, 0);
    assert!(voice.is_fading());
    voice.start_fade_out();
    assert!(voice.fade_out_active);
    assert_eq!(voice.fade_out_pos, 0);
    assert!(voice.is_fading());
    assert!(voice.fade_in_active);
    assert_eq!(voice.buffer, vec![0.5, 0.25]);
}

#[test]
fn start_fade_out_starts_over() {
    let mut voice: Voice<f32> = Voice::new(vec![0.5, 0.25]);
    voice.start_fade_out();
    assert!(voice.advance(128));
    assert!(voice.advance(128));
    assert_eq!(voice.fade_out_pos, 2);
    voice.start_fade_out();
    assert!(voice.fade_out_active);
    assert_eq!(voice.fade_out_pos, 0);
    assert_eq!(voice.idx, 0);
    assert_eq!(voice.fade_in_pos, 2);
}

#[test]
fn cursor_wraps_at_the_end_of_the_buffer() {
    let mut voice: Voice<f32> = Voice::new(vec![0.1, 0.2, 0.3]);
    let mut played: Vec<f32> = Vec::new();
    for _ in 0..7 {
        played.push(*voice.current_sample().unwrap());
        assert!(voice.advance(128));
    }
    assert_eq!(played, vec![0.1, 0.2, 0.3, 0.1, 0.2, 0.3, 0.1]);
    assert_eq!(voice.idx, 7 % 3);
}

#[test]
fn voice_without_samples_plays_nothing() {
    let mut voice: Voice<f32> = Voice::new(Vec::new());
    assert!(voice.current_sample().is_none());
    assert!(voice.advance(128));
    assert_eq!(voice.idx, 0);
    voice.idx = 5;
    assert!(voice.current_sample().is_none());
    assert!(voice.advance(128));
    assert_eq!(voice.idx, 0);
}

#[test]
fn fade_in_runs_for_the_fade_duration() {
    let mut voice: Voice<f32> = Voice::new(vec![0.0; 10]);
    for played in 1..128 {
        assert!(voice.advance(128));
        assert!(voice.fade_in_active);
        assert_eq!(voice.fade_in_pos, played);
    }
    assert!(voice.advance(128));
    assert!(!voice.fade_in_active);
    assert_eq!(voice.fade_in_pos, 128);
    assert!(!voice.is_fading());
    assert!(voice.advance(128));
    assert_eq!(voice.fade_in_pos, 128);
    assert_eq!(voice.fade_out_pos, 0);
}

#[test]
fn fade_out_ends_the_voice_after_the_fade_duration() {
    let mut voice: Voice<f32> = Voice::new(vec![0.0; 10]);
    voice.fade_in_active = false;
    voice.start_fade_out();
    for played in 1..128 {
        assert!(voice.advance(128));
        assert_eq!(voice.fade_out_pos, played);
        assert!(voice.is_fading());
    }
    assert!(!voice.advance(128));
    assert_eq!(voice.fade_out_pos, 128);
    assert!(!voice.advance(128));
    assert_eq!(voice.fade_out_pos, 128);
}

#[test]
fn fade_of_no_duration_is_over_at_once() {
    let mut voice: Voice<f32> = Voice::new(vec![0.0; 10]);
    assert!(voice.advance(0));
    assert!(!voice.fade_in_active);
    assert_eq!(voice.fade_in_pos, 0);
    voice.start_fade_out();
    assert!(!voice.advance(0));
}

#[test]
fn note_on_plays_a_copy_of_the_key_buffer() {
    let mut params = with_buffer(40, vec![0.5, -0.5, 0.25]);
    assert!(params.note_on(40));
    let voice = params.voices[40].as_ref().unwrap();
    assert_eq!(voice.buffer, vec![0.5, -0.5, 0.25]);
    assert_eq!(voice.idx, 0);
    assert!(voice.fade_in_active);
    assert!(!voice.fade_out_active);
    assert_eq!(params.key_buffers[40], Some(vec![0.5, -0.5, 0.25]));
    assert_eq!(params.voices.iter().filter(|v| v.is_some()).count(), 1);
}

#[test]
fn note_on_without_a_buffer_starts_nothing() {
    let mut params = with_buffer(40, vec![0.5]);
    assert!(!params.note_on(41));
    assert!(!params.note_on(NUM_KEYS));
    assert!(!params.note_on(usize::MAX));
    assert!(params.voices.iter().all(|v| v.is_none()));
}

#[test]
fn note_on_again_starts_the_voice_anew() {
    let mut params = with_buffer(40, vec![0.5, -0.5, 0.25]);
    assert!(params.note_on(40));
    assert!(params.advance_voice(40));
    params.note_off(40);
    assert!(params.note_on(40));
    let voice = params.voices[40].as_ref().unwrap();
    assert_eq!(voice.idx, 0);
    assert_eq!(voice.fade_in_pos, 0);
    assert!(!voice.fade_out_active);
}

#[test]
fn note_off_fades_the_voice_out_until_it_ends() {
    let mut params = with_buffer(40, vec![0.5, -0.5, 0.25]);
    assert_eq!(params.fade_duration, FADE_DURATION);
    assert!(params.note_on(40));
    params.note_off(40);
    assert!(params.voices[40].as_ref().unwrap().fade_out_active);
    assert!(params.voices[40].as_ref().unwrap().is_fading());
    for _ in 1..FADE_DURATION {
        assert!(params.advance_voice(40));
        assert!(params.voices[40].is_some());
    }
    assert!(!params.advance_voice(40));
    assert!(params.voices[40].is_none());
    assert!(!params.advance_voice(40));
}

#[test]
fn note_off_without_a_voice_changes_nothing() {
    let mut params = with_buffer(40, vec![0.5]);
    params.note_off(40);
    params.note_off(NUM_KEYS);
    assert!(params.voices.iter().all(|v| v.is_none()));
    assert!(!params.advance_voice(40));
    assert!(!params.advance_voice(NUM_KEYS));
}

#[test]
fn advance_voice_moves_the_cursor() {
    let mut params = with_buffer(40, vec![0.5, -0.5, 0.25]);
    assert!(params.note_on(40));
    for step in 1..8 {
        assert!(params.advance_voice(40));
        let voice = params.voices[40].as_ref().unwrap();
        assert_eq!(voice.idx, step % 3);
        assert_eq!(voice.fade_in_pos, step);
    }
}

#[test]
fn stop_voice_ends_it_at_once() {
    let mut params = with_buffer(40, vec![0.5, -0.5, 0.25]);
    assert!(params.note_on(40));
    params.stop_voice(41);
    params.stop_voice(NUM_KEYS);
    assert!(params.voices[40].is_some());
    params.stop_voice(40);
    assert!(params.voices[40].is_none());
}
