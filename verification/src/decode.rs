//! The decoding worker: it turns packets into blocks of frames and audio.
use vstd::prelude::*;
use crate::audio::{pcm_samples, AudioChunk, ChunkModel};
use crate::image::{ImageModel, Picture, Yuv420Image};
use crate::stream::StreamSelection;

verus! {

/// How many frames the worker gathers before it hands them over.
pub const CACHE_BLOCK_FRAMES: usize = 12;

/// How the decoder is set up.
#[derive(Debug, Clone, Copy, PartialEq, Eq)]
pub struct DecoderSettings {
    pub n_threads: u32,
    pub max_frame_delay: u32,
}

/// An image and when it is due, in nanoseconds after the first frame of the stream.
#[derive(Debug, PartialEq, Eq)]
pub struct VideoFrame {
    pub timestamp: u128,
    pub image: Yuv420Image,
}

/// Frames and audio that are handed to the player together.
#[derive(Debug, PartialEq, Eq)]
pub struct CacheBlock {
    pub frames: Vec<VideoFrame>,
    pub audio: Vec<AudioChunk>,
}

/// What the worker tells the player.
#[derive(Debug, PartialEq, Eq)]
pub enum DecodeEvent {
    Block(CacheBlock),
    End,
    Error(String),
}

/// What a [`VideoFrame`] holds.
pub struct FrameModel {
    pub timestamp: int,
    pub image: ImageModel,
}

/// What a [`CacheBlock`] holds.
#[verifier::ext_equal]
pub struct BlockModel {
    pub frames: Seq<FrameModel>,
    pub audio: Seq<ChunkModel>,
}

/// What a [`DecodeEvent`] holds.
pub enum EventModel {
    Block(BlockModel),
    End,
    Error(Seq<char>),
}

/// What the frames of a sequence hold.
pub open spec fn frame_models(frames: Seq<VideoFrame>) -> Seq<FrameModel> {
    Seq::new(frames.len(), |i: int| frames[i]@)
}

/// What the chunks of a sequence hold.
pub open spec fn chunk_models(chunks: Seq<AudioChunk>) -> Seq<ChunkModel> {
    Seq::new(chunks.len(), |i: int| chunks[i]@)
}

impl View for VideoFrame {
    type V = FrameModel;

    open spec fn view(&self) -> FrameModel {
        FrameModel { timestamp: self.timestamp as int, image: self.image@ }
    }
}

impl View for CacheBlock {
    type V = BlockModel;

    open spec fn view(&self) -> BlockModel {
        BlockModel { frames: frame_models(self.frames@), audio: chunk_models(self.audio@) }
    }
}

impl View for DecodeEvent {
    type V = EventModel;

    open spec fn view(&self) -> EventModel {
        match self {
            DecodeEvent::Block(block) => EventModel::Block(block@),
            DecodeEvent::End => EventModel::End,
            DecodeEvent::Error(message) => EventModel::Error(message@),
        }
    }
}

/// The blocks among the events, in order.
pub open spec fn blocks_in(events: Seq<EventModel>) -> Seq<BlockModel>
    decreases events.len(),
{
    if events.len() == 0 {
        Seq::empty()
    } else {
        match events.last() {
            EventModel::Block(block) => blocks_in(events.drop_last()).push(block),
            _ => blocks_in(events.drop_last()),
        }
    }
}

/// The frames of blocks, in order.
pub open spec fn frames_of(blocks: Seq<BlockModel>) -> Seq<FrameModel>
    decreases blocks.len(),
{
    if blocks.len() == 0 {
        Seq::empty()
    } else {
        frames_of(blocks.drop_last()) + blocks.last().frames
    }
}

/// The audio of blocks, in order.
pub open spec fn audio_of(blocks: Seq<BlockModel>) -> Seq<ChunkModel>
    decreases blocks.len(),
{
    if blocks.len() == 0 {
        Seq::empty()
    } else {
        audio_of(blocks.drop_last()) + blocks.last().audio
    }
}

/// A presentation time counted from `first`; what lies before it is due at once.
pub open spec fn relative_time(timestamp: int, first: int) -> int {
    if timestamp >= first {
        timestamp - first
    } else {
        0
    }
}

/// The frame that shows a picture which is due at `timestamp` in a stream that began at
/// `first`.
pub open spec fn relative_frame(picture: Picture, timestamp: int, first: int) -> FrameModel {
    FrameModel { timestamp: relative_time(timestamp, first), image: picture.image() }
}

/// No frame is due before an earlier one.
pub open spec fn in_time_order(frames: Seq<FrameModel>) -> bool {
    forall|i: int, j: int|
        0 <= i < j < frames.len() ==> (#[trigger] frames[i]).timestamp <= (
        #[trigger] frames[j]).timestamp
}

/// The settings for a pool of `threads` threads: as many for the decoder, and a delay of at
/// most one block.
pub fn settings_for(threads: usize) -> (settings: DecoderSettings)
    ensures
        settings.n_threads as int == threads as int % 0x1_0000_0000,
        settings.max_frame_delay == CACHE_BLOCK_FRAMES,
{
    let wide: u64 = threads as u64;
    assert(wide as u32 as u64 == wide % 0x1_0000_0000) by (bit_vector);
    DecoderSettings {
        n_threads: #[verifier::truncate] (wide as u32),
        max_frame_delay: CACHE_BLOCK_FRAMES as u32,
    }
}

/// The settings for the thread pool of this process: as many threads as the pool says that it
/// has.
pub fn decoder_settings() -> (settings: DecoderSettings)
    ensures
        exists|threads: usize| #[trigger]
            call_ensures(rayon::current_num_threads, (), threads) && settings.n_threads as int
                == threads as int % 0x1_0000_0000,
        settings.max_frame_delay == CACHE_BLOCK_FRAMES,
{
    settings_for(rayon::current_num_threads())
}

/// The ticks of a presentation time that may be unknown.
pub fn presentation_ticks(pts: Option<i64>) -> (ticks: i64)
    ensures
        ticks == pts.unwrap_or(0),
{
    pts.unwrap_or(0)
}

/// Appends the frame of a picture. The first picture of a stream sets the time from which
/// the timestamps of all frames count.
pub fn send_picture(
    frames: &mut Vec<VideoFrame>,
    picture: &Picture,
    timestamp: u128,
    first_timestamp: &mut Option<u128>,
)
    requires
        picture.complete(),
    ensures
        *final(first_timestamp) == Some(old(first_timestamp).unwrap_or(timestamp)),
        frame_models(final(frames)@) == frame_models(old(frames)@).push(
            relative_frame(
                *picture,
                timestamp as int,
                old(first_timestamp).unwrap_or(timestamp) as int,
            ),
        ),
        final(frames)@.len() == old(frames)@.len() + 1,
        final(frames)@.drop_last() == old(frames)@,
        final(frames)@.last().image@ == picture.image(),
        *old(first_timestamp) is None ==> final(frames)@.last().timestamp == 0,
        *old(first_timestamp) matches Some(first) ==> (first <= timestamp ==> first
            + final(frames)@.last().timestamp == timestamp),
        *old(first_timestamp) matches Some(first) ==> (timestamp < first
            ==> final(frames)@.last().timestamp == 0),
{
    let first: u128 = match *first_timestamp {
        Some(first) => first,
        None => timestamp,
    };
    *first_timestamp = Some(first);
    frames.push(
        VideoFrame {
            timestamp: timestamp.saturating_sub(first),
            image: Yuv420Image::from_picture(picture),
        },
    );
    assert(frame_models(frames@) =~= frame_models(old(frames)@).push(
        relative_frame(*picture, timestamp as int, first as int),
    ));
}

/// A packet of the container.
#[derive(Debug, PartialEq, Eq)]
pub struct Packet {
    pub stream_index: u32,
    pub pts: Option<i64>,
    pub duration: Option<i64>,
    pub data: Vec<u8>,
}

/// What came of handing data to the decoder.
#[derive(Debug, PartialEq, Eq)]
pub enum SendOutcome {
    Accepted,
    /// The decoder keeps the data but cannot take it before pictures are fetched.
    TryAgain,
    Failed(String),
}

/// What the worker waits for.
pub enum Phase {
    /// The decoder is being opened.
    Opening,
    /// The next packet is being read.
    Reading,
    /// Data is being handed to the decoder.
    Submitting,
    /// Pictures are being fetched, after data was handed over with this outcome.
    Draining(SendOutcome),
    /// A full block is being sent, in the middle of fetching pictures.
    Delivering(SendOutcome),
    /// The input has ended and the decoder is being flushed.
    Flushing,
    /// The last pictures are being fetched.
    FinalDraining,
    /// The last block is being sent.
    FinalDelivering,
    /// The end of the stream is being announced.
    Ending,
    /// An error is being announced.
    Failing,
    /// Nothing is left to do.
    Stopped,
}

/// What happened outside the worker.
pub enum WorkerEvent {
    Opened,
    OpenFailed(String),
    Packet(Packet),
    EndOfInput,
    Submitted(SendOutcome),
    /// A picture and its presentation time in nanoseconds.
    Picture { picture: Picture, timestamp: u128 },
    NoPicture,
    Flushed,
    /// An event was sent; whether the player could receive it.
    Delivered(bool),
}

/// What the worker asks for.
#[derive(Debug, PartialEq, Eq)]
pub enum WorkerAction {
    ReadPacket,
    Submit { data: Vec<u8>, ticks: i64, duration: Option<i64> },
    /// Hand over the data that the decoder kept.
    SubmitPending,
    PollPicture,
    FlushDecoder,
    Send(DecodeEvent),
    Stop,
}

/// What a [`WorkerAction`] holds.
pub enum ActionModel {
    ReadPacket,
    Submit { data: Seq<u8>, ticks: int, duration: Option<i64> },
    SubmitPending,
    PollPicture,
    FlushDecoder,
    Send(EventModel),
    Stop,
}

impl View for WorkerAction {
    type V = ActionModel;

    open spec fn view(&self) -> ActionModel {
        match self {
            WorkerAction::ReadPacket => ActionModel::ReadPacket,
            WorkerAction::Submit { data, ticks, duration } => ActionModel::Submit {
                data: data@,
                ticks: *ticks as int,
                duration: *duration,
            },
            WorkerAction::SubmitPending => ActionModel::SubmitPending,
            WorkerAction::PollPicture => ActionModel::PollPicture,
            WorkerAction::FlushDecoder => ActionModel::FlushDecoder,
            WorkerAction::Send(event) => ActionModel::Send(event@),
            WorkerAction::Stop => ActionModel::Stop,
        }
    }
}

/// The state of a [`DecodeWorker`].
#[verifier::ext_equal]
pub struct WorkerModel {
    pub streams: StreamSelection,
    /// The presentation time of the first picture.
    pub first: Option<int>,
    /// The frames that have not been handed over.
    pub frames: Seq<FrameModel>,
    /// The audio that has not been handed over.
    pub audio: Seq<ChunkModel>,
    pub phase: Phase,
}

/// Decides what to do with packets and pictures. It reads, decodes and sends nothing
/// itself: each step names an action, and the next step takes what came of it.
pub struct DecodeWorker {
    streams: StreamSelection,
    first_timestamp: Option<u128>,
    frames: Vec<VideoFrame>,
    audio: Vec<AudioChunk>,
    phase: Phase,
}

impl View for DecodeWorker {
    type V = WorkerModel;

    closed spec fn view(&self) -> WorkerModel {
        WorkerModel {
            streams: self.streams,
            first: match self.first_timestamp {
                Some(first) => Some(first as int),
                None => None,
            },
            frames: frame_models(self.frames@),
            audio: chunk_models(self.audio@),
            phase: self.phase,
        }
    }
}

impl WorkerModel {
    /// A worker that has seen nothing yet.
    pub open spec fn start(streams: StreamSelection) -> Self {
        WorkerModel {
            streams,
            first: None,
            frames: Seq::empty(),
            audio: Seq::empty(),
            phase: Phase::Opening,
        }
    }

    /// Before the input ends a full block is handed over at once, so fewer frames wait;
    /// nothing waits while a block is on its way or once the end is announced.
    pub open spec fn wf(self) -> bool {
        match self.phase {
            Phase::Opening => self.first is None && self.frames.len() == 0 && self.audio.len() == 0,
            Phase::Reading
            | Phase::Submitting
            | Phase::Draining(_)
            | Phase::Flushing => self.frames.len() < CACHE_BLOCK_FRAMES,
            Phase::Delivering(_)
            | Phase::FinalDelivering
            | Phase::Ending => self.frames.len() == 0 && self.audio.len() == 0,
            Phase::FinalDraining | Phase::Failing | Phase::Stopped => true,
        }
    }

    /// The event answers what the worker waits for, and a picture has all its pixels.
    pub open spec fn accepts(self, event: WorkerEvent) -> bool {
        match self.phase {
            Phase::Opening => event is Opened || event is OpenFailed,
            Phase::Reading => event is Packet || event is EndOfInput,
            Phase::Submitting => event is Submitted,
            Phase::Draining(_) | Phase::FinalDraining => match event {
                WorkerEvent::NoPicture => true,
                WorkerEvent::Picture { picture, .. } => picture.complete(),
                _ => false,
            },
            Phase::Flushing => event is Flushed,
            Phase::Delivering(_)
            | Phase::FinalDelivering
            | Phase::Ending
            | Phase::Failing => event is Delivered,
            Phase::Stopped => false,
        }
    }

    /// Goes on to a phase, with nothing else changed.
    pub open spec fn to(self, phase: Phase, action: ActionModel) -> (Self, ActionModel) {
        (WorkerModel { phase, ..self }, action)
    }

    /// Announces an error.
    pub open spec fn fail(self, message: Seq<char>) -> (Self, ActionModel) {
        self.to(Phase::Failing, ActionModel::Send(EventModel::Error(message)))
    }

    /// Hands over everything that waits.
    pub open spec fn deliver(self, phase: Phase) -> (Self, ActionModel) {
        let block = BlockModel { frames: self.frames, audio: self.audio };
        (
            WorkerModel { frames: Seq::empty(), audio: Seq::empty(), phase, ..self },
            ActionModel::Send(EventModel::Block(block)),
        )
    }

    /// Keeps the frame of a picture; the first picture sets the time.
    pub open spec fn with_picture(self, picture: Picture, timestamp: int) -> Self {
        let first = self.first.unwrap_or(timestamp);
        WorkerModel {
            first: Some(first),
            frames: self.frames.push(relative_frame(picture, timestamp, first)),
            ..self
        }
    }

    /// Keeps the samples of an audio packet.
    pub open spec fn with_audio(self, data: Seq<u8>) -> Self {
        let chunk = ChunkModel {
            channels: self.streams.audio_channels as int,
            sample_rate: self.streams.audio_rate as int,
            samples: pcm_samples(data),
        };
        WorkerModel { audio: self.audio.push(chunk), ..self }
    }

    /// A video packet goes to the decoder, an audio packet is decoded at once, and others
    /// are passed over. No block is ever full here, so audio alone never completes one.
    pub open spec fn on_packet(self, packet: Packet) -> (Self, ActionModel) {
        if packet.stream_index == self.streams.video_index {
            self.to(
                Phase::Submitting,
                ActionModel::Submit {
                    data: packet.data@,
                    ticks: packet.pts.unwrap_or(0) as int,
                    duration: packet.duration,
                },
            )
        } else if self.streams.audio_index == Some(packet.stream_index) {
            self.with_audio(packet.data@).to(Phase::Reading, ActionModel::ReadPacket)
        } else {
            self.to(Phase::Reading, ActionModel::ReadPacket)
        }
    }

    /// When the decoder has no more pictures, the outcome of the last handover decides.
    pub open spec fn on_drained(self, outcome: SendOutcome) -> (Self, ActionModel) {
        match outcome {
            SendOutcome::Accepted => self.to(Phase::Reading, ActionModel::ReadPacket),
            SendOutcome::TryAgain => self.to(Phase::Submitting, ActionModel::SubmitPending),
            SendOutcome::Failed(message) => self.fail(message@),
        }
    }

    /// The state after an accepted event, and the next action.
    pub open spec fn step(self, event: WorkerEvent) -> (Self, ActionModel) {
        match (self.phase, event) {
            (Phase::Opening, WorkerEvent::Opened) => self.to(
                Phase::Reading,
                ActionModel::ReadPacket,
            ),
            (Phase::Opening, WorkerEvent::OpenFailed(message)) => self.fail(message@),
            (Phase::Reading, WorkerEvent::Packet(packet)) => self.on_packet(packet),
            (Phase::Reading, WorkerEvent::EndOfInput) => self.to(
                Phase::Flushing,
                ActionModel::FlushDecoder,
            ),
            (Phase::Submitting, WorkerEvent::Submitted(outcome)) => self.to(
                Phase::Draining(outcome),
                ActionModel::PollPicture,
            ),
            (Phase::Draining(outcome), WorkerEvent::Picture { picture, timestamp }) => {
                let next = self.with_picture(picture, timestamp as int);
                if next.frames.len() >= CACHE_BLOCK_FRAMES {
                    next.deliver(Phase::Delivering(outcome))
                } else {
                    next.to(Phase::Draining(outcome), ActionModel::PollPicture)
                }
            },
            (Phase::Draining(outcome), WorkerEvent::NoPicture) => self.on_drained(outcome),
            (Phase::Delivering(outcome), WorkerEvent::Delivered(true)) => self.to(
                Phase::Draining(outcome),
                ActionModel::PollPicture,
            ),
            (Phase::Flushing, WorkerEvent::Flushed) => self.to(
                Phase::FinalDraining,
                ActionModel::PollPicture,
            ),
            (Phase::FinalDraining, WorkerEvent::Picture { picture, timestamp }) => self.with_picture(
                picture,
                timestamp as int,
            ).to(Phase::FinalDraining, ActionModel::PollPicture),
            (Phase::FinalDraining, WorkerEvent::NoPicture) => {
                if self.frames.len() > 0 || self.audio.len() > 0 {
                    self.deliver(Phase::FinalDelivering)
                } else {
                    self.to(Phase::Ending, ActionModel::Send(EventModel::End))
                }
            },
            (Phase::FinalDelivering, WorkerEvent::Delivered(true)) => self.to(
                Phase::Ending,
                ActionModel::Send(EventModel::End),
            ),
            (Phase::Ending, WorkerEvent::Delivered(true)) => self.to(
                Phase::Stopped,
                ActionModel::Stop,
            ),
            (Phase::Failing, WorkerEvent::Delivered(_)) => self.to(
                Phase::Stopped,
                ActionModel::Stop,
            ),
            // The only other events that are accepted are failed deliveries.
            _ => self.fail("playback window closed"@),
        }
    }
}

impl DecodeWorker {
    /// A worker for the given streams, which waits for the decoder to be opened.
    pub fn new(streams: StreamSelection) -> (worker: Self)
        ensures
            worker@ == WorkerModel::start(streams),
            worker@.wf(),
    {
        let worker = DecodeWorker {
            streams,
            first_timestamp: None,
            frames: Vec::with_capacity(CACHE_BLOCK_FRAMES),
            audio: Vec::new(),
            phase: Phase::Opening,
        };
        assert(worker@ =~= WorkerModel::start(streams));
        worker
    }

    /// Whether the event answers what the worker waits for.
    pub fn accepts(&self, event: &WorkerEvent) -> (accepted: bool)
        ensures
            accepted == self@.accepts(*event),
    {
        match (&self.phase, event) {
            (Phase::Opening, WorkerEvent::Opened) => true,
            (Phase::Opening, WorkerEvent::OpenFailed(_)) => true,
            (Phase::Reading, WorkerEvent::Packet(_)) => true,
            (Phase::Reading, WorkerEvent::EndOfInput) => true,
            (Phase::Submitting, WorkerEvent::Submitted(_)) => true,
            (Phase::Draining(_), WorkerEvent::NoPicture) => true,
            (Phase::Draining(_), WorkerEvent::Picture { picture, .. }) => picture.is_complete(),
            (Phase::FinalDraining, WorkerEvent::NoPicture) => true,
            (Phase::FinalDraining, WorkerEvent::Picture { picture, .. }) => picture.is_complete(),
            (Phase::Flushing, WorkerEvent::Flushed) => true,
            (Phase::Delivering(_), WorkerEvent::Delivered(_)) => true,
            (Phase::FinalDelivering, WorkerEvent::Delivered(_)) => true,
            (Phase::Ending, WorkerEvent::Delivered(_)) => true,
            (Phase::Failing, WorkerEvent::Delivered(_)) => true,
            _ => false,
        }
    }

    /// Takes in what happened and names the next action.
    pub fn step(&mut self, event: WorkerEvent) -> (action: WorkerAction)
        requires
            old(self)@.wf(),
            old(self)@.accepts(event),
        ensures
            (final(self)@, action@) == old(self)@.step(event),
            final(self)@.wf(),
    {
        let mut phase: Phase = Phase::Stopped;
        std::mem::swap(&mut self.phase, &mut phase);
        match (phase, event) {
            (Phase::Opening, WorkerEvent::Opened) => {
                self.phase = Phase::Reading;
                WorkerAction::ReadPacket
            },
            (Phase::Opening, WorkerEvent::OpenFailed(message)) => self.fail(message),
            (Phase::Reading, WorkerEvent::Packet(packet)) => self.take_packet(packet),
            (Phase::Reading, WorkerEvent::EndOfInput) => {
                self.phase = Phase::Flushing;
                WorkerAction::FlushDecoder
            },
            (Phase::Submitting, WorkerEvent::Submitted(outcome)) => {
                self.phase = Phase::Draining(outcome);
                WorkerAction::PollPicture
            },
            (Phase::Draining(outcome), WorkerEvent::Picture { picture, timestamp }) => {
                self.take_picture(&picture, timestamp);
                if self.frames.len() >= CACHE_BLOCK_FRAMES {
                    self.deliver(Phase::Delivering(outcome))
                } else {
                    self.phase = Phase::Draining(outcome);
                    WorkerAction::PollPicture
                }
            },
            (Phase::Draining(SendOutcome::Accepted), WorkerEvent::NoPicture) => {
                self.phase = Phase::Reading;
                WorkerAction::ReadPacket
            },
            (Phase::Draining(SendOutcome::TryAgain), WorkerEvent::NoPicture) => {
                self.phase = Phase::Submitting;
                WorkerAction::SubmitPending
            },
            (Phase::Draining(SendOutcome::Failed(message)), WorkerEvent::NoPicture) => self.fail(
                message,
            ),
            (Phase::Delivering(outcome), WorkerEvent::Delivered(true)) => {
                self.phase = Phase::Draining(outcome);
                WorkerAction::PollPicture
            },
            (Phase::Flushing, WorkerEvent::Flushed) => {
                self.phase = Phase::FinalDraining;
                WorkerAction::PollPicture
            },
            (Phase::FinalDraining, WorkerEvent::Picture { picture, timestamp }) => {
                self.take_picture(&picture, timestamp);
                self.phase = Phase::FinalDraining;
                WorkerAction::PollPicture
            },
            (Phase::FinalDraining, WorkerEvent::NoPicture) => {
                if self.frames.len() > 0 || self.audio.len() > 0 {
                    self.deliver(Phase::FinalDelivering)
                } else {
                    self.phase = Phase::Ending;
                    WorkerAction::Send(DecodeEvent::End)
                }
            },
            (Phase::FinalDelivering, WorkerEvent::Delivered(true)) => {
                self.phase = Phase::Ending;
                WorkerAction::Send(DecodeEvent::End)
            },
            (Phase::Ending, WorkerEvent::Delivered(true)) => {
                self.phase = Phase::Stopped;
                WorkerAction::Stop
            },
            (Phase::Failing, WorkerEvent::Delivered(_)) => {
                self.phase = Phase::Stopped;
                WorkerAction::Stop
            },
            _ => self.fail("playback window closed".to_string()),
        }
    }

    fn fail(&mut self, message: String) -> (action: WorkerAction)
        ensures
            (final(self)@, action@) == old(self)@.fail(message@),
    {
        self.phase = Phase::Failing;
        WorkerAction::Send(DecodeEvent::Error(message))
    }

    fn deliver(&mut self, phase: Phase) -> (action: WorkerAction)
        ensures
            (final(self)@, action@) == old(self)@.deliver(phase),
    {
        let mut frames: Vec<VideoFrame> = Vec::with_capacity(CACHE_BLOCK_FRAMES);
        let mut audio: Vec<AudioChunk> = Vec::new();
        std::mem::swap(&mut self.frames, &mut frames);
        std::mem::swap(&mut self.audio, &mut audio);
        self.phase = phase;
        assert(self@.frames =~= Seq::empty());
        assert(self@.audio =~= Seq::empty());
        WorkerAction::Send(DecodeEvent::Block(CacheBlock { frames, audio }))
    }

    fn take_picture(&mut self, picture: &Picture, timestamp: u128)
        requires
            picture.complete(),
        ensures
            final(self)@ == old(self)@.with_picture(*picture, timestamp as int),
    {
        send_picture(&mut self.frames, picture, timestamp, &mut self.first_timestamp);
    }

    fn take_packet(&mut self, packet: Packet) -> (action: WorkerAction)
        ensures
            (final(self)@, action@) == old(self)@.on_packet(packet),
    {
        if packet.stream_index == self.streams.video_index {
            self.phase = Phase::Submitting;
            WorkerAction::Submit {
                data: packet.data,
                ticks: presentation_ticks(packet.pts),
                duration: packet.duration,
            }
        } else {
            if let Some(audio_index) = self.streams.audio_index {
                if audio_index == packet.stream_index {
                    let chunk = AudioChunk::decode(
                        self.streams.audio_channels,
                        self.streams.audio_rate,
                        &packet.data,
                    );
                    self.audio.push(chunk);
                    assert(self@.audio =~= old(self)@.with_audio(packet.data@).audio);
                }
            }
            self.phase = Phase::Reading;
            WorkerAction::ReadPacket
        }
    }
}

/// Frame times keep the distances of presentation times: with both at or after the first, the
/// due times of two frames differ by exactly as much, without bound, and the first is due at
/// once.
pub proof fn law_frame_times_keep_distances(a: int, b: int, first: int)
    requires
        first <= a,
        first <= b,
    ensures
        relative_time(b, first) - relative_time(a, first) == b - a,
        relative_time(first, first) == 0,
{
}

/// The frame of a picture shows the image of the picture, whatever its time, and is due as long
/// after the first as the picture is.
pub proof fn law_frame_shows_picture(picture: Picture, timestamp: int, first: int)
    ensures
        relative_frame(picture, timestamp, first).image == picture.image(),
        first <= timestamp ==> first + relative_frame(picture, timestamp, first).timestamp
            == timestamp,
        timestamp < first ==> relative_frame(picture, timestamp, first).timestamp == 0,
{
}

/// What a frame is taken for is what its fields hold.
pub proof fn law_frame_shows_fields(frame: VideoFrame)
    ensures
        frame@.timestamp == frame.timestamp,
        frame@.image == frame.image@,
{
}

/// What a block is taken for is what its frames and chunks hold, one for one and in order.
pub proof fn law_block_shows_fields(block: CacheBlock)
    ensures
        block@.frames.len() == block.frames@.len(),
        block@.audio.len() == block.audio@.len(),
        forall|i: int|
            0 <= i < block.frames@.len() ==> #[trigger] block@.frames[i] == block.frames@[i]@,
        forall|i: int|
            0 <= i < block.audio@.len() ==> #[trigger] block@.audio[i] == block.audio@[i]@,
{
}

/// An event of the decoder is taken for what it is, with all that it carries.
pub proof fn law_event_shows_fields(event: DecodeEvent)
    ensures
        event@ is Block <==> event is Block,
        event@ is End <==> event is End,
        event@ is Error <==> event is Error,
        event matches DecodeEvent::Block(block) ==> event@->Block_0 == block@,
        event matches DecodeEvent::Error(message) ==> event@->Error_0 == message@,
{
}

/// An action of the worker is taken for what it is, with all that it carries.
pub proof fn law_action_shows_fields(action: WorkerAction)
    ensures
        action@ is ReadPacket <==> action is ReadPacket,
        action@ is Submit <==> action is Submit,
        action@ is SubmitPending <==> action is SubmitPending,
        action@ is PollPicture <==> action is PollPicture,
        action@ is FlushDecoder <==> action is FlushDecoder,
        action@ is Send <==> action is Send,
        action@ is Stop <==> action is Stop,
        action matches WorkerAction::Submit { data, ticks, duration } ==> action@->data == data@
            && action@->ticks == ticks && action@->duration == duration,
        action matches WorkerAction::Send(event) ==> action@->Send_0 == event@,
{
}

/// The decoder gets as many threads as the pool has, if that can be counted in 32 bits, and may
/// hold back as many frames as make up a block.
pub proof fn law_settings_follow_pool(threads: usize, settings: DecoderSettings)
    requires
        call_ensures(settings_for, (threads,), settings),
    ensures
        threads <= 0xffff_ffff ==> settings.n_threads == threads,
        settings.max_frame_delay == 12,
{
}

/// A known presentation time is taken as it is, and an unknown one as zero.
pub proof fn law_known_ticks_are_kept(pts: Option<i64>, ticks: i64)
    requires
        call_ensures(presentation_ticks, (pts,), ticks),
    ensures
        pts matches Some(known) ==> ticks == known,
        pts is None ==> ticks == 0,
{
}

} // verus!
