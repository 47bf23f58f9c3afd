use std::collections::VecDeque;

use av1_player::audio::AudioChunk;
use av1_player::decode::{CacheBlock, DecodeEvent, VideoFrame};
use av1_player::image::Yuv420Image;
use av1_player::playback::{
    Command, ElementState, MouseButton, Playback, PlaybackClock, Redraw, WindowEvent,
};
use av1_player::startup::{Startup, StartupStep};

fn frame(timestamp: u128) -> VideoFrame {
    VideoFrame {
        timestamp,
        image: Yuv420Image {
            width: 0,
            height: 0,
            y: vec![],
            u: vec![],
            v: vec![],
            chroma_width: 0,
            chroma_height: 0,
        },
    }
}

fn chunk(sample: i16) -> AudioChunk {
    AudioChunk { channels: 1, sample_rate: 8_000, samples: vec![sample] }
}

fn block(times: &[u128], samples: &[i16]) -> CacheBlock {
    CacheBlock {
        frames: times.iter().map(|t| frame(*t)).collect(),
        audio: samples.iter().map(|s| chunk(*s)).collect(),
    }
}

fn nothing() -> VecDeque<DecodeEvent> {
    VecDeque::new()
}

fn redraw(audio: Vec<AudioChunk>, exit: bool) -> Redraw {
    Redraw { audio, errors: vec![], exit }
}

fn click() -> WindowEvent {
    WindowEvent::MouseInput { state: ElementState::Released, button: MouseButton::Left }
}

#[test]
fn clock_counts_from_the_start() {
    let clock = PlaybackClock::start(1_000);
    assert_eq!(clock.elapsed(1_000), 0);
    assert_eq!(clock.elapsed(1_250), 250);
    assert_eq!(clock.elapsed(900), 0);
}

#[test]
fn pause_keeps_the_position_and_resume_goes_on() {
    let mut clock = PlaybackClock::start(1_000);
    clock.toggle(1_250);
    assert!(clock.paused);
    assert_eq!(clock.elapsed(1_250), 250);
    assert_eq!(clock.elapsed(9_000), 250);
    clock.toggle(10_000);
    assert!(!clock.paused);
    assert_eq!(clock.elapsed(10_000), 250);
    assert_eq!(clock.elapsed(10_040), 290);
}

#[test]
fn startup_waits_for_a_frame() {
    let mut startup = Startup::new();
    assert_eq!(startup.receive(DecodeEvent::Block(block(&[], &[1]))), StartupStep::Wait);
    assert_eq!(
        startup.receive(DecodeEvent::Block(block(&[0], &[2]))),
        StartupStep::Ready(block(&[0], &[2]))
    );
    assert_eq!(startup.into_pending(), VecDeque::from(vec![DecodeEvent::Block(block(&[], &[1]))]));
}

#[test]
fn startup_fails_without_frames() {
    assert_eq!(
        Startup::new().receive(DecodeEvent::End),
        StartupStep::Failed("output.mkv contains no decoded AV1 frames".to_string())
    );
    assert_eq!(
        Startup::new().receive(DecodeEvent::Error("broken".to_string())),
        StartupStep::Failed("broken".to_string())
    );
}

#[test]
fn first_frame_is_shown_first() {
    let mut playback = Playback::new(block(&[0, 40], &[1, 2]), nothing(), 500);
    assert_eq!(playback.current_frame(), &frame(0));
    assert_eq!(playback.take_initial_audio(), vec![chunk(1), chunk(2)]);
    assert_eq!(playback.take_initial_audio(), vec![]);
}

#[test]
fn latest_due_frame_is_shown() {
    let mut playback = Playback::new(block(&[0, 40, 80, 120], &[]), nothing(), 500);
    assert_eq!(playback.redraw(nothing(), 539), redraw(vec![], false));
    assert_eq!(playback.current_frame(), &frame(0));
    playback.redraw(nothing(), 580);
    assert_eq!(playback.current_frame(), &frame(80));
    playback.redraw(nothing(), 619);
    assert_eq!(playback.current_frame(), &frame(80));
    playback.redraw(nothing(), 620);
    assert_eq!(playback.current_frame(), &frame(120));
}

#[test]
fn late_frames_wait_behind_an_early_one() {
    let mut playback = Playback::new(block(&[0, 100, 40], &[]), nothing(), 0);
    playback.redraw(nothing(), 50);
    assert_eq!(playback.current_frame(), &frame(0));
    playback.redraw(nothing(), 100);
    assert_eq!(playback.current_frame(), &frame(40));
}

#[test]
fn next_block_is_opened_when_the_queue_is_empty() {
    let mut playback = Playback::new(block(&[0], &[]), nothing(), 0);
    let received = VecDeque::from(vec![
        DecodeEvent::Block(block(&[10, 20], &[5])),
        DecodeEvent::Block(block(&[30], &[6, 7])),
    ]);
    assert_eq!(playback.redraw(received, 15), redraw(vec![chunk(5)], false));
    assert_eq!(playback.current_frame(), &frame(0));
    assert_eq!(playback.redraw(nothing(), 15), redraw(vec![], false));
    assert_eq!(playback.current_frame(), &frame(10));
    assert_eq!(playback.redraw(nothing(), 20), redraw(vec![chunk(6), chunk(7)], false));
    assert_eq!(playback.current_frame(), &frame(20));
}

#[test]
fn pending_events_come_before_received_ones() {
    let pending = VecDeque::from(vec![DecodeEvent::Block(block(&[], &[1]))]);
    let mut playback = Playback::new(block(&[0], &[]), pending, 0);
    let received = VecDeque::from(vec![DecodeEvent::Block(block(&[9], &[2]))]);
    assert_eq!(playback.redraw(received, 0), redraw(vec![chunk(1)], false));
    assert_eq!(playback.redraw(nothing(), 0), redraw(vec![chunk(2)], false));
}

#[test]
fn playing_ends_when_everything_is_shown() {
    let mut playback = Playback::new(block(&[0, 10], &[]), nothing(), 0);
    let received = VecDeque::from(vec![DecodeEvent::Block(block(&[20], &[])), DecodeEvent::End]);
    assert!(!playback.redraw(received, 5).exit);
    assert!(!playback.redraw(nothing(), 10).exit);
    assert!(!playback.redraw(nothing(), 19).exit);
    assert!(playback.redraw(nothing(), 20).exit);
    assert_eq!(playback.current_frame(), &frame(20));
}

#[test]
fn errors_are_reported_and_do_not_end_playing() {
    let mut playback = Playback::new(block(&[0], &[]), nothing(), 0);
    let received = VecDeque::from(vec![
        DecodeEvent::Error("first".to_string()),
        DecodeEvent::Error("second".to_string()),
    ]);
    let redraw = playback.redraw(received, 1_000);
    assert_eq!(redraw.errors, vec!["first".to_string(), "second".to_string()]);
    assert!(!redraw.exit);
}

#[test]
fn click_pauses_and_resumes() {
    let mut playback = Playback::new(block(&[0, 10, 500], &[]), nothing(), 0);
    assert!(playback.can_toggle(20));
    assert_eq!(playback.window_event(click(), 20), Command::PauseAudio);
    assert!(!playback.can_toggle(19));
    playback.redraw(nothing(), 10_000);
    assert_eq!(playback.current_frame(), &frame(10));
    assert_eq!(playback.window_event(click(), 10_000), Command::PlayAudio);
    playback.redraw(nothing(), 10_479);
    assert_eq!(playback.current_frame(), &frame(10));
    playback.redraw(nothing(), 10_480);
    assert_eq!(playback.current_frame(), &frame(500));
}

#[test]
fn window_events_give_commands() {
    let mut playback = Playback::new(block(&[0], &[]), nothing(), 0);
    assert_eq!(playback.window_event(WindowEvent::CloseRequested, 1), Command::Exit);
    assert_eq!(
        playback.window_event(WindowEvent::Resized { width: 3, height: 0 }, 1),
        Command::Resize { width: 3, height: 0 }
    );
    let pressed = WindowEvent::MouseInput { state: ElementState::Pressed, button: MouseButton::Left };
    assert_eq!(playback.window_event(pressed, 1), Command::Nothing);
    let other = WindowEvent::MouseInput { state: ElementState::Released, button: MouseButton::Other };
    assert_eq!(playback.window_event(other, 1), Command::Nothing);
    assert_eq!(playback.window_event(WindowEvent::Other, 1), Command::Nothing);
    let received = VecDeque::from(vec![DecodeEvent::End]);
    assert_eq!(
        playback.window_event(WindowEvent::RedrawRequested { received }, 1),
        Command::Redraw(redraw(vec![], true))
    );
}
