use std::collections::VecDeque;

use av1_player::decode::{
    DecodeEvent, DecodeWorker, Packet, SendOutcome, WorkerAction, WorkerEvent,
};
use av1_player::image::{Picture, PlaneBuffer};
use av1_player::playback::Playback;
use av1_player::startup::{Startup, StartupStep};
use av1_player::stream::{StreamSelection, TimeBase};

fn picture(shade: u8) -> Picture {
    let plane = || PlaneBuffer { data: vec![shade], stride: 1 };
    Picture { width: 1, height: 1, y: plane(), u: plane(), v: plane(), timestamp: None }
}

/// Runs the worker on a stream of 30 pictures, one per packet, each after an audio packet.
fn decode() -> Vec<DecodeEvent> {
    let mut worker = DecodeWorker::new(StreamSelection {
        video_index: 0,
        video_time_base: TimeBase { num: 1, den: 1_000 },
        audio_index: Some(1),
        audio_channels: 1,
        audio_rate: 8_000,
    });
    let mut sent = Vec::new();
    let mut packets: VecDeque<Packet> = (0..60u8)
        .map(|n| Packet {
            stream_index: if n % 2 == 0 { 1 } else { 0 },
            pts: Some(n as i64),
            duration: None,
            data: vec![n, 0],
        })
        .collect();
    let mut ready: VecDeque<u8> = VecDeque::new();
    let mut event = WorkerEvent::Opened;
    loop {
        assert!(worker.accepts(&event));
        event = match worker.step(event) {
            WorkerAction::ReadPacket => match packets.pop_front() {
                Some(packet) => WorkerEvent::Packet(packet),
                None => WorkerEvent::EndOfInput,
            },
            WorkerAction::Submit { data, .. } => {
                ready.push_back(data[0]);
                WorkerEvent::Submitted(SendOutcome::Accepted)
            }
            WorkerAction::SubmitPending => panic!("nothing was kept"),
            WorkerAction::PollPicture => match ready.pop_front() {
                Some(n) => WorkerEvent::Picture { picture: picture(n), timestamp: 1_000 + n as u128 },
                None => WorkerEvent::NoPicture,
            },
            WorkerAction::FlushDecoder => WorkerEvent::Flushed,
            WorkerAction::Send(message) => {
                sent.push(message);
                WorkerEvent::Delivered(true)
            }
            WorkerAction::Stop => return sent,
        };
    }
}

#[test]
fn blocks_are_full_but_the_last() {
    let sizes: Vec<Option<usize>> = decode()
        .iter()
        .map(|event| match event {
            DecodeEvent::Block(block) => Some(block.frames.len()),
            _ => None,
        })
        .collect();
    assert_eq!(sizes, vec![Some(12), Some(12), Some(6), None]);
}

#[test]
fn every_picture_is_shown_and_every_sample_heard() {
    let mut events = VecDeque::from(decode());
    let mut startup = Startup::new();
    let first = match startup.receive(events.pop_front().unwrap()) {
        StartupStep::Ready(block) => block,
        other => panic!("{other:?}"),
    };
    let mut playback = Playback::new(first, startup.into_pending(), 0);
    let mut heard: Vec<i16> = playback.take_initial_audio().iter().flat_map(|c| c.samples.clone()).collect();
    let mut shown = vec![playback.current_frame().image.y[0]];
    let mut now = 0;
    loop {
        let received: VecDeque<DecodeEvent> = events.pop_front().into_iter().collect();
        let redraw = playback.redraw(received, now);
        heard.extend(redraw.audio.iter().flat_map(|c| c.samples.clone()));
        let shade = playback.current_frame().image.y[0];
        if shown.last() != Some(&shade) {
            shown.push(shade);
        }
        if redraw.exit {
            break;
        }
        now += 1;
    }
    assert_eq!(shown, (0..60).filter(|n| n % 2 == 1).collect::<Vec<u8>>());
    assert_eq!(heard, (0..60).filter(|n| n % 2 == 0).collect::<Vec<i16>>());
}
