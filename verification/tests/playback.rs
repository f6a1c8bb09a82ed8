use audio_player::format::interleave;
use audio_player::player::{DecodeEvent, Player};

fn playing_player_with(samples: Vec<f32>) -> Player<f32> {
    let mut p: Player<f32> = Player::new();
    p.play(String::from("track"));
    p.on_decode_event(DecodeEvent::Samples(samples));
    p
}

#[test]
fn underrun_pads_with_silence() {
    // Popping 5 from a queue of 3 yields the 3 real samples then 2 zeros,
    // and the queue ends empty.
    let mut p = playing_player_with(vec![0.1, 0.2, 0.3]);
    let out = p.on_callback(5, 0.0);
    assert_eq!(out, vec![0.1, 0.2, 0.3, 0.0, 0.0]);
    assert_eq!(p.queue.len(), 0);
}

#[test]
fn pause_preserves_queue_and_outputs_silence() {
    // While paused, repeated callback invocations never decrease the queue
    // length and always hand out all-zero blocks.
    let mut p = playing_player_with(vec![0.1, 0.2, 0.3, 0.4]);
    p.pause();
    assert!(p.is_paused);
    for _ in 0..3 {
        let out = p.on_callback(8, 0.0);
        assert_eq!(out, vec![0.0; 8]);
        assert_eq!(p.queue.len(), 4);
    }
    p.resume();
    let out = p.on_callback(4, 0.0);
    assert_eq!(out, vec![0.1, 0.2, 0.3, 0.4]);
}

#[test]
fn empty_queue_before_decode_ends_is_not_completion() {
    // A buffering stall — empty queue while decoding is still in progress —
    // must not raise the autoplay trigger; the callback just emits silence.
    let mut p: Player<f32> = Player::new();
    p.play(String::from("track"));
    let out = p.on_callback(4, 0.0);
    assert_eq!(out, vec![0.0; 4]);
    assert!(!p.state.autoplay_trigger);
}

#[test]
fn completion_fires_once_drained_after_decode_ends() {
    let mut p = playing_player_with(vec![0.5, 0.6]);
    p.on_decode_event(DecodeEvent::EndOfStream);
    assert!(p.state.decode_finished);
    // Still samples left: no completion yet.
    let out = p.on_callback(1, 0.0);
    assert_eq!(out, vec![0.5]);
    assert!(!p.state.autoplay_trigger);
    // Draining the queue completes the track.
    let out = p.on_callback(1, 0.0);
    assert_eq!(out, vec![0.6]);
    assert!(p.state.autoplay_trigger);
    // Raising it again is harmless and it stays up.
    p.on_callback(1, 0.0);
    assert!(p.state.autoplay_trigger);
}

#[test]
fn bad_packets_are_skipped() {
    let mut p = playing_player_with(vec![0.1]);
    p.on_decode_event(DecodeEvent::PacketError);
    p.on_decode_event(DecodeEvent::UnsupportedFormat);
    assert_eq!(p.queue.len(), 1);
    assert!(!p.state.decode_finished);
}

#[test]
fn stop_clears_queue() {
    // After stop(), nothing is loaded and the queue is empty regardless of
    // prior content.
    let mut p = playing_player_with(vec![0.1; 50]);
    assert!(p.is_loaded());
    p.stop();
    assert!(!p.is_loaded());
    assert_eq!(p.queue.len(), 0);
}

#[test]
fn play_resets_session_signals() {
    let mut p = playing_player_with(vec![0.1]);
    p.on_decode_event(DecodeEvent::EndOfStream);
    p.on_callback(2, 0.0);
    assert!(p.state.autoplay_trigger);
    p.play(String::from("next-track"));
    assert!(p.is_loaded());
    assert!(!p.state.autoplay_trigger);
    assert!(!p.state.decode_finished);
    assert_eq!(p.queue.len(), 0);
}

#[test]
fn is_done_is_queue_empty_while_playing() {
    let mut p: Player<f32> = Player::new();
    assert!(!p.is_done());
    p.play(String::from("track"));
    assert!(p.is_done());
    p.on_decode_event(DecodeEvent::Samples(vec![0.1]));
    assert!(!p.is_done());
    p.on_callback(1, 0.0);
    assert!(p.is_done());
}

#[test]
fn set_paused_mirrors_flag() {
    let mut p: Player<f32> = Player::new();
    p.set_paused(true);
    assert!(p.is_paused && p.state.paused);
    p.set_paused(false);
    assert!(!p.is_paused && !p.state.paused);
}

#[test]
fn end_to_end_int16_packet() {
    // A synthetic 2-channel, 2-frame signed 16-bit packet
    // [ (100,-100), (32767,-32768) ], normalized and interleaved, sits in
    // the queue as ≈ [0.00305, -0.00305, 1.0, -1.00003].
    let full_scale = 32767.0f32;
    let chans: Vec<Vec<f32>> = vec![
        vec![100.0 / full_scale, 32767.0 / full_scale],
        vec![-100.0 / full_scale, -32768.0 / full_scale],
    ];
    let samples = interleave(&chans, 2);
    let mut p: Player<f32> = Player::new();
    p.play(String::from("synthetic"));
    p.on_decode_event(DecodeEvent::Samples(samples));
    assert_eq!(p.queue.len(), 4);
    let (got, count) = p.queue.pop_front(4);
    assert_eq!(count, 4);
    let expected = [0.00305, -0.00305, 1.0, -1.00003];
    for (g, e) in got.iter().zip(expected.iter()) {
        assert!((g - e).abs() < 1e-4, "sample {g} differs from {e}");
    }
}
