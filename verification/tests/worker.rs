use av1_player::audio::AudioChunk;
use av1_player::decode::{
    decoder_settings, presentation_ticks, send_picture, settings_for, CacheBlock, DecodeEvent,
    DecodeWorker, Packet, SendOutcome, VideoFrame, WorkerAction, WorkerEvent,
};
use av1_player::image::{Picture, PlaneBuffer, Yuv420Image};
use av1_player::stream::{StreamSelection, TimeBase};

fn streams() -> StreamSelection {
    StreamSelection {
        video_index: 1,
        video_time_base: TimeBase { num: 1, den: 1_000 },
        audio_index: Some(2),
        audio_channels: 2,
        audio_rate: 48_000,
    }
}

fn picture(shade: u8) -> Picture {
    Picture {
        width: 1,
        height: 1,
        y: PlaneBuffer { data: vec![shade], stride: 1 },
        u: PlaneBuffer { data: vec![shade.wrapping_add(1)], stride: 1 },
        v: PlaneBuffer { data: vec![shade.wrapping_add(2)], stride: 1 },
        timestamp: None,
    }
}

fn shown(shade: u8, timestamp: u128) -> VideoFrame {
    VideoFrame {
        timestamp,
        image: Yuv420Image {
            width: 1,
            height: 1,
            y: vec![shade],
            u: vec![shade.wrapping_add(1)],
            v: vec![shade.wrapping_add(2)],
            chroma_width: 1,
            chroma_height: 1,
        },
    }
}

fn packet(stream_index: u32, data: Vec<u8>) -> WorkerEvent {
    WorkerEvent::Packet(Packet { stream_index, pts: Some(5), duration: Some(6), data })
}

fn decoded(shade: u8, timestamp: u128) -> WorkerEvent {
    WorkerEvent::Picture { picture: picture(shade), timestamp }
}

fn step(worker: &mut DecodeWorker, event: WorkerEvent) -> WorkerAction {
    assert!(worker.accepts(&event));
    worker.step(event)
}

fn reading() -> DecodeWorker {
    let mut worker = DecodeWorker::new(streams());
    assert_eq!(step(&mut worker, WorkerEvent::Opened), WorkerAction::ReadPacket);
    worker
}

fn draining(outcome: SendOutcome) -> DecodeWorker {
    let mut worker = reading();
    step(&mut worker, packet(1, vec![7]));
    assert_eq!(step(&mut worker, WorkerEvent::Submitted(outcome)), WorkerAction::PollPicture);
    worker
}

fn error(message: &str) -> WorkerAction {
    WorkerAction::Send(DecodeEvent::Error(message.to_string()))
}

#[test]
fn settings_follow_the_pool() {
    let settings = settings_for(8);
    assert_eq!((settings.n_threads, settings.max_frame_delay), (8, 12));
    assert_eq!(decoder_settings().n_threads as usize, rayon::current_num_threads());
    assert_eq!(decoder_settings().max_frame_delay, 12);
}

#[test]
fn unknown_presentation_time_is_zero() {
    assert_eq!(presentation_ticks(None), 0);
    assert_eq!(presentation_ticks(Some(-3)), -3);
}

#[test]
fn first_picture_sets_the_time() {
    let mut frames = Vec::new();
    let mut first = None;
    send_picture(&mut frames, &picture(1), 100, &mut first);
    send_picture(&mut frames, &picture(2), 140, &mut first);
    send_picture(&mut frames, &picture(3), 60, &mut first);
    assert_eq!(first, Some(100));
    assert_eq!(frames, vec![shown(1, 0), shown(2, 40), shown(3, 0)]);
}

#[test]
fn decoder_that_cannot_be_opened_is_an_error() {
    let mut worker = DecodeWorker::new(streams());
    assert_eq!(step(&mut worker, WorkerEvent::OpenFailed("no memory".to_string())), error("no memory"));
    assert_eq!(step(&mut worker, WorkerEvent::Delivered(true)), WorkerAction::Stop);
    assert!(!worker.accepts(&WorkerEvent::Opened));
}

#[test]
fn video_packets_go_to_the_decoder() {
    let mut worker = reading();
    assert_eq!(
        step(&mut worker, packet(1, vec![7, 8])),
        WorkerAction::Submit { data: vec![7, 8], ticks: 5, duration: Some(6) }
    );
    let untimed = Packet { stream_index: 1, pts: None, duration: None, data: vec![] };
    let mut worker = reading();
    assert_eq!(
        step(&mut worker, WorkerEvent::Packet(untimed)),
        WorkerAction::Submit { data: vec![], ticks: 0, duration: None }
    );
}

#[test]
fn other_packets_are_passed_over() {
    let mut worker = reading();
    assert_eq!(step(&mut worker, packet(9, vec![1, 2])), WorkerAction::ReadPacket);
    assert_eq!(step(&mut worker, WorkerEvent::EndOfInput), WorkerAction::FlushDecoder);
    assert_eq!(step(&mut worker, WorkerEvent::Flushed), WorkerAction::PollPicture);
    assert_eq!(step(&mut worker, WorkerEvent::NoPicture), WorkerAction::Send(DecodeEvent::End));
    assert_eq!(step(&mut worker, WorkerEvent::Delivered(true)), WorkerAction::Stop);
}

#[test]
fn full_block_is_sent_at_once() {
    let mut worker = reading();
    assert_eq!(step(&mut worker, packet(2, vec![1, 0, 2, 0])), WorkerAction::ReadPacket);
    step(&mut worker, packet(1, vec![7]));
    step(&mut worker, WorkerEvent::Submitted(SendOutcome::Accepted));
    for n in 0..11u8 {
        assert_eq!(step(&mut worker, decoded(n, 10 * n as u128 + 3)), WorkerAction::PollPicture);
    }
    let block = CacheBlock {
        frames: (0..12u8).map(|n| shown(n, 10 * n as u128)).collect(),
        audio: vec![AudioChunk { channels: 2, sample_rate: 48_000, samples: vec![1, 2] }],
    };
    assert_eq!(step(&mut worker, decoded(11, 113)), WorkerAction::Send(DecodeEvent::Block(block)));
    assert_eq!(step(&mut worker, WorkerEvent::Delivered(true)), WorkerAction::PollPicture);
    assert_eq!(step(&mut worker, WorkerEvent::NoPicture), WorkerAction::ReadPacket);
}

#[test]
fn last_block_may_be_larger() {
    let mut worker = reading();
    step(&mut worker, WorkerEvent::EndOfInput);
    step(&mut worker, WorkerEvent::Flushed);
    for n in 0..15u8 {
        assert_eq!(step(&mut worker, decoded(n, n as u128)), WorkerAction::PollPicture);
    }
    let frames: Vec<VideoFrame> = (0..15u8).map(|n| shown(n, n as u128)).collect();
    assert_eq!(
        step(&mut worker, WorkerEvent::NoPicture),
        WorkerAction::Send(DecodeEvent::Block(CacheBlock { frames, audio: vec![] }))
    );
    assert_eq!(step(&mut worker, WorkerEvent::Delivered(true)), WorkerAction::Send(DecodeEvent::End));
    assert_eq!(step(&mut worker, WorkerEvent::Delivered(true)), WorkerAction::Stop);
}

#[test]
fn audio_alone_makes_a_last_block() {
    let mut worker = reading();
    step(&mut worker, packet(2, vec![3, 0]));
    step(&mut worker, WorkerEvent::EndOfInput);
    step(&mut worker, WorkerEvent::Flushed);
    let audio = vec![AudioChunk { channels: 2, sample_rate: 48_000, samples: vec![3] }];
    assert_eq!(
        step(&mut worker, WorkerEvent::NoPicture),
        WorkerAction::Send(DecodeEvent::Block(CacheBlock { frames: vec![], audio }))
    );
}

#[test]
fn kept_data_is_handed_over_again() {
    let mut worker = draining(SendOutcome::TryAgain);
    assert_eq!(step(&mut worker, decoded(1, 0)), WorkerAction::PollPicture);
    assert_eq!(step(&mut worker, WorkerEvent::NoPicture), WorkerAction::SubmitPending);
    assert_eq!(step(&mut worker, WorkerEvent::Submitted(SendOutcome::Accepted)), WorkerAction::PollPicture);
    assert_eq!(step(&mut worker, WorkerEvent::NoPicture), WorkerAction::ReadPacket);
}

#[test]
fn decoder_errors_come_after_the_pictures() {
    let mut worker = draining(SendOutcome::Failed("bad data".to_string()));
    assert_eq!(step(&mut worker, decoded(1, 0)), WorkerAction::PollPicture);
    assert_eq!(step(&mut worker, WorkerEvent::NoPicture), error("bad data"));
    assert_eq!(step(&mut worker, WorkerEvent::Delivered(false)), WorkerAction::Stop);
}

#[test]
fn closed_window_stops_the_worker() {
    let mut worker = draining(SendOutcome::Accepted);
    for n in 0..12u8 {
        step(&mut worker, decoded(n, 0));
    }
    assert_eq!(step(&mut worker, WorkerEvent::Delivered(false)), error("playback window closed"));
    assert_eq!(step(&mut worker, WorkerEvent::Delivered(false)), WorkerAction::Stop);

    let mut worker = reading();
    step(&mut worker, WorkerEvent::EndOfInput);
    step(&mut worker, WorkerEvent::Flushed);
    step(&mut worker, WorkerEvent::NoPicture);
    assert_eq!(step(&mut worker, WorkerEvent::Delivered(false)), error("playback window closed"));

    let mut worker = reading();
    step(&mut worker, WorkerEvent::EndOfInput);
    step(&mut worker, WorkerEvent::Flushed);
    step(&mut worker, decoded(1, 0));
    step(&mut worker, WorkerEvent::NoPicture);
    assert_eq!(step(&mut worker, WorkerEvent::Delivered(false)), error("playback window closed"));
}

#[test]
fn unexpected_events_are_told_apart() {
    let worker = reading();
    assert!(!worker.accepts(&WorkerEvent::NoPicture));
    assert!(!worker.accepts(&WorkerEvent::Delivered(true)));
    let worker = draining(SendOutcome::Accepted);
    assert!(!worker.accepts(&WorkerEvent::EndOfInput));
    let mut torn = picture(1);
    torn.u.data.clear();
    assert!(!worker.accepts(&WorkerEvent::Picture { picture: torn, timestamp: 0 }));
}
