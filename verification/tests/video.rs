use gallery_core::frac::Frac;
use gallery_core::frame::RawImageFrame;
use gallery_core::video::{AudioCmd, FramesBuffer, VideoEntry, VideoPlayer, LOOKAHEAD_CAPACITY};

fn frame(shade: u8) -> RawImageFrame {
    RawImageFrame {
        width: 1,
        height: 1,
        pixels: vec![shade, shade, shade, 255],
        delay: Frac { num: 33, den: 1 },
    }
}

fn session(duration_ms: u64, fps: u64) -> VideoEntry {
    VideoEntry::new(String::from("clip.mkv"), duration_ms, Frac { num: fps, den: 1 })
}

/// Feeds decoded frames while the session asks for them, with timestamps
/// spaced one frame period apart.
fn refill(v: &mut VideoEntry, now_ms: u64, next_pts: &mut u64, step_ms: u64) {
    while v.needs_decode(now_ms) {
        let shade = (*next_pts / step_ms % 250) as u8;
        v.accept_frame(frame(shade), *next_pts);
        *next_pts += step_ms;
    }
}

#[test]
fn buffer_keeps_presentation_order() {
    let mut buffer = FramesBuffer::new();
    assert!(buffer.is_empty());
    assert!(buffer.should_fill_buffer());
    buffer.push(frame(1));
    buffer.push(frame(2));
    assert!(!buffer.is_empty());
    let first = buffer.pop().expect("front frame");
    assert_eq!(first.pixels[0], 1);
    let second = buffer.front().expect("second frame");
    assert_eq!(second.pixels[0], 2);
    buffer.clear();
    assert!(buffer.is_empty());
    assert!(buffer.pop().is_none());
}

#[test]
fn buffer_reports_capacity() {
    let mut buffer = FramesBuffer::new();
    for i in 0..LOOKAHEAD_CAPACITY {
        assert!(buffer.should_fill_buffer());
        buffer.push(frame(i as u8));
    }
    assert!(!buffer.should_fill_buffer());
}

#[test]
fn three_ticks_advance_monotonically_within_duration() {
    let duration = 10_000;
    let mut v = session(duration, 30);
    let mut next_pts: u64 = 0;
    // pre-decode one frame while paused, as the session asks
    refill(&mut v, 0, &mut next_pts, 33);
    let _ = v.get_current_frame(0);
    v.play();
    let mut seen: Vec<u64> = Vec::new();
    let mut now: u64 = 34;
    for _ in 0..3 {
        refill(&mut v, now, &mut next_pts, 33);
        let _ = v.get_current_frame(now);
        seen.push(v.current_time);
        now += 34;
    }
    assert_eq!(seen.len(), 3);
    assert!(seen[0] < seen[1] && seen[1] < seen[2], "positions increase: {:?}", seen);
    assert!(seen.iter().all(|t| *t <= duration));
}

#[test]
fn paused_session_presents_without_consuming() {
    let mut v = session(5_000, 30);
    v.accept_frame(frame(7), 0);
    let cmd = v.get_current_frame(100);
    assert_eq!(cmd, AudioCmd::Pause);
    let presented = v.current_frame().expect("a frame is available");
    assert_eq!(presented.pixels[0], 7);
    // the look-ahead buffer still holds the frame
    assert!(!v.frames_buffer.is_empty());
    // repeated ticks re-present the cached frame
    let _ = v.get_current_frame(200);
    assert_eq!(v.current_frame().expect("cached").pixels[0], 7);
}

#[test]
fn playing_ticks_respect_the_frame_period() {
    let mut v = session(5_000, 30);
    v.accept_frame(frame(1), 0);
    v.accept_frame(frame(2), 33);
    v.play();
    // 10 ms after the last advance: 30 fps means a 33.3 ms period, no advance
    let cmd = v.get_current_frame(10);
    assert_eq!(cmd, AudioCmd::Play);
    assert_eq!(v.current_frame().expect("presented").pixels[0], 1);
    assert!(!v.frames_buffer.is_empty());
    // once the period has elapsed the front frame is consumed
    let _ = v.get_current_frame(40);
    assert_eq!(v.current_frame().expect("advanced").pixels[0], 1);
    let _ = v.get_current_frame(80);
    assert_eq!(v.current_frame().expect("advanced").pixels[0], 2);
}

#[test]
fn audio_pauses_when_the_buffer_drains() {
    let mut v = session(5_000, 30);
    v.accept_frame(frame(1), 0);
    v.play();
    let cmd = v.get_current_frame(40);
    // the only frame was popped; an empty buffer rests the audio sink
    assert_eq!(cmd, AudioCmd::Pause);
}

#[test]
fn seek_clamps_to_duration_and_clears_the_buffer() {
    let mut v = session(10_000, 30);
    v.accept_frame(frame(1), 0);
    let landed = v.seek(25_000);
    assert_eq!(landed, 10_000);
    assert_eq!(v.current_time, 10_000);
    assert!(v.frames_buffer.is_empty());
}

#[test]
fn seek_twice_lands_where_one_seek_does() {
    for target in [0u64, 1, 4_999, 10_000, 99_999] {
        let mut a = session(10_000, 30);
        let mut b = session(10_000, 30);
        let once = a.seek(target);
        let _ = b.seek(target);
        let twice = b.seek(target);
        assert_eq!(once, twice);
        assert_eq!(a.current_time, b.current_time);
        assert_eq!(a.frames_buffer.is_empty(), b.frames_buffer.is_empty());
    }
}

#[test]
fn seek_relative_clamps_backwards_to_zero() {
    let mut v = session(10_000, 30);
    v.accept_frame(frame(1), 2_000);
    assert_eq!(v.current_time, 2_000);
    let landed = v.seek_relative(-5_000);
    assert_eq!(landed, 0);
    assert_eq!(v.current_time, 0);
}

#[test]
fn seek_relative_moves_forward_and_clamps_to_duration() {
    let mut v = session(10_000, 30);
    v.accept_frame(frame(1), 2_000);
    let landed = v.seek_relative(5_000);
    assert_eq!(landed, 7_000);
    let landed = v.seek_relative(9_000);
    assert_eq!(landed, 10_000);
}

#[test]
fn accept_frame_clamps_the_position() {
    let mut v = session(1_000, 30);
    v.accept_frame(frame(1), 5_000);
    assert_eq!(v.current_time, 1_000);
}

#[test]
fn toggle_flips_the_playing_flag_only() {
    let mut v = session(1_000, 30);
    assert!(!v.is_playing);
    v.toggle_playback();
    assert!(v.is_playing);
    v.toggle_playback();
    assert!(!v.is_playing);
    v.play();
    assert!(v.is_playing);
    v.pause();
    assert!(!v.is_playing);
}

#[test]
fn eof_stops_decode_requests_until_a_seek() {
    let mut v = session(1_000, 30);
    assert!(v.needs_decode(0));
    v.mark_eof();
    assert!(!v.needs_decode(0));
    let _ = v.seek(0);
    assert!(v.needs_decode(0));
}

#[test]
fn player_snapshot_reflects_the_session() {
    let mut v = session(8_000, 30);
    v.accept_frame(frame(9), 500);
    let (player, cmd) = VideoPlayer::new(&mut v, 0);
    assert_eq!(cmd, AudioCmd::Pause);
    assert_eq!(player.duration, 8_000);
    assert_eq!(player.current_time, 500);
    assert_eq!(player.frame.expect("snapshot frame").pixels[0], 9);
}
