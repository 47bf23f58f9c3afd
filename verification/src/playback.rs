//! Playback: which frame is shown when, which audio is queued, and when playing ends.
use vstd::prelude::*;
use std::collections::VecDeque;
use crate::audio::{AudioChunk, ChunkModel};
use crate::decode::{
    blocks_in, chunk_models, frame_models, BlockModel, CacheBlock, DecodeEvent, EventModel, FrameModel,
    VideoFrame,
};

verus! {

/// Tells the position in the stream from the time of a clock that never runs backwards. All
/// times are in nanoseconds.
#[derive(Debug, Clone, Copy, PartialEq, Eq)]
pub struct PlaybackClock {
    /// The time at which the stream would have begun had it never been paused.
    pub started_at: u128,
    /// The position at the last pause.
    pub paused_at: u128,
    pub paused: bool,
}

impl PlaybackClock {
    /// The position in the stream at the time `now`.
    pub open spec fn position(self, now: u128) -> u128 {
        if self.paused {
            self.paused_at
        } else if now >= self.started_at {
            (now - self.started_at) as u128
        } else {
            0
        }
    }

    /// If the clock is paused, the stream has not been paused at a position beyond `now`.
    pub open spec fn can_toggle(self, now: u128) -> bool {
        self.paused ==> self.paused_at <= now
    }

    /// Paused at the present position, or running on from it.
    pub open spec fn toggled(self, now: u128) -> Self {
        if self.paused {
            PlaybackClock {
                started_at: (now - self.paused_at) as u128,
                paused_at: self.paused_at,
                paused: false,
            }
        } else {
            PlaybackClock {
                started_at: self.started_at,
                paused_at: self.position(now),
                paused: true,
            }
        }
    }

    /// A running clock whose stream begins at `now`.
    pub fn start(now: u128) -> (clock: Self)
        ensures
            clock == (PlaybackClock { started_at: now, paused_at: 0, paused: false }),
    {
        PlaybackClock { started_at: now, paused_at: 0, paused: false }
    }

    /// The position in the stream at the time `now`.
    pub fn elapsed(&self, now: u128) -> (position: u128)
        ensures
            position == self.position(now),
    {
        if self.paused {
            self.paused_at
        } else {
            now.saturating_sub(self.started_at)
        }
    }

    /// Pauses a running clock and resumes a paused one.
    pub fn toggle(&mut self, now: u128)
        requires
            old(self).can_toggle(now),
        ensures
            *final(self) == old(self).toggled(now),
    {
        self.paused = !self.paused;
        if self.paused {
            self.paused_at = now.saturating_sub(self.started_at);
        } else {
            self.started_at = now - self.paused_at;
        }
    }
}

/// What the blocks of a sequence hold.
pub open spec fn block_models(blocks: Seq<CacheBlock>) -> Seq<BlockModel> {
    Seq::new(blocks.len(), |i: int| blocks[i]@)
}

/// What the events of a sequence hold.
pub open spec fn event_models(events: Seq<DecodeEvent>) -> Seq<EventModel> {
    Seq::new(events.len(), |i: int| events[i]@)
}

/// What the messages of a sequence hold.
pub open spec fn text_models(texts: Seq<String>) -> Seq<Seq<char>> {
    Seq::new(texts.len(), |i: int| texts[i]@)
}

/// The error messages among the events, in order.
pub open spec fn errors_in(events: Seq<EventModel>) -> Seq<Seq<char>>
    decreases events.len(),
{
    if events.len() == 0 {
        Seq::empty()
    } else {
        match events.last() {
            EventModel::Error(message) => errors_in(events.drop_last()).push(message),
            _ => errors_in(events.drop_last()),
        }
    }
}

/// How many frames at the front are due at `position`: the index of the first frame, from
/// `from` on, that is not due yet.
pub open spec fn due_from(frames: Seq<FrameModel>, position: int, from: int) -> int
    decreases frames.len() - from,
{
    if from < frames.len() && frames[from].timestamp <= position {
        due_from(frames, position, from + 1)
    } else {
        from
    }
}

/// What is to be done after the state was brought up to date for a redraw.
#[derive(Debug, PartialEq, Eq)]
pub struct Redraw {
    /// The audio that is to be queued.
    pub audio: Vec<AudioChunk>,
    /// The decoder errors that are to be reported.
    pub errors: Vec<String>,
    /// Whether playing is over once the current frame has been drawn.
    pub exit: bool,
}

/// What a [`Redraw`] holds.
#[verifier::ext_equal]
pub struct RedrawModel {
    pub audio: Seq<ChunkModel>,
    pub errors: Seq<Seq<char>>,
    pub exit: bool,
}

impl View for Redraw {
    type V = RedrawModel;

    open spec fn view(&self) -> RedrawModel {
        RedrawModel {
            audio: chunk_models(self.audio@),
            errors: text_models(self.errors@),
            exit: self.exit,
        }
    }
}

/// The state of a [`Playback`].
#[verifier::ext_equal]
pub struct PlaybackModel {
    /// Events that were received but not taken in.
    pub pending: Seq<EventModel>,
    /// The frame that is shown.
    pub current: FrameModel,
    /// The frames that follow in the present block.
    pub queue: Seq<FrameModel>,
    /// The blocks that follow.
    pub blocks: Seq<BlockModel>,
    /// The audio of the first block.
    pub initial_audio: Seq<ChunkModel>,
    pub clock: PlaybackClock,
    pub end_received: bool,
}

impl PlaybackModel {
    /// Shows the first frame of a block, with the others to follow.
    pub open spec fn start(first_block: BlockModel, pending: Seq<EventModel>, now: u128) -> Self {
        PlaybackModel {
            pending,
            current: first_block.frames[0],
            queue: first_block.frames.skip(1),
            blocks: Seq::empty(),
            initial_audio: first_block.audio,
            clock: PlaybackClock { started_at: now, paused_at: 0, paused: false },
            end_received: false,
        }
    }

    /// Takes in events: blocks line up, and the end is remembered.
    pub open spec fn with_events(self, events: Seq<EventModel>) -> Self {
        PlaybackModel {
            pending: Seq::empty(),
            blocks: self.blocks + blocks_in(events),
            end_received: self.end_received || events.contains(EventModel::End),
            ..self
        }
    }

    /// Shows the last of the frames at the front of the queue that are due.
    pub open spec fn advanced(self, position: int) -> Self {
        let due = due_from(self.queue, position, 0);
        PlaybackModel {
            current: if due > 0 {
                self.queue[due - 1]
            } else {
                self.current
            },
            queue: self.queue.skip(due),
            ..self
        }
    }

    /// Opens the next block, if there is one, once the frames of the present one are used up.
    pub open spec fn refilled(self) -> (Self, Seq<ChunkModel>) {
        if self.queue.len() == 0 && self.blocks.len() > 0 {
            (
                PlaybackModel {
                    queue: self.blocks[0].frames,
                    blocks: self.blocks.skip(1),
                    ..self
                },
                self.blocks[0].audio,
            )
        } else {
            (self, Seq::empty())
        }
    }

    /// The end was announced and nothing is left to show.
    pub open spec fn finished(self) -> bool {
        self.end_received && self.queue.len() == 0 && self.blocks.len() == 0
    }

    /// A redraw at the time `now`, with the events received since the last one.
    pub open spec fn redrawn(self, received: Seq<EventModel>, now: u128) -> (Self, RedrawModel) {
        let events = self.pending + received;
        let (next, audio) = self.with_events(events).advanced(
            self.clock.position(now) as int,
        ).refilled();
        (next, RedrawModel { audio, errors: errors_in(events), exit: next.finished() })
    }
}

/// Whether a button or key went down or up.
#[derive(Debug, Clone, Copy, PartialEq, Eq)]
pub enum ElementState {
    Pressed,
    Released,
}

/// A mouse button, as far as it matters.
#[derive(Debug, Clone, Copy, PartialEq, Eq)]
pub enum MouseButton {
    Left,
    Other,
}

/// What happened to the window.
pub enum WindowEvent {
    CloseRequested,
    Resized { width: u32, height: u32 },
    /// The window is to be drawn; these events of the decoder have come in.
    RedrawRequested { received: VecDeque<DecodeEvent> },
    MouseInput { state: ElementState, button: MouseButton },
    Other,
}

/// What is to be done about a window event.
#[derive(Debug, PartialEq, Eq)]
pub enum Command {
    Nothing,
    Exit,
    Resize { width: u32, height: u32 },
    Redraw(Redraw),
    PauseAudio,
    PlayAudio,
}

/// What a [`Command`] holds.
pub enum CommandModel {
    Nothing,
    Exit,
    Resize { width: u32, height: u32 },
    Redraw(RedrawModel),
    PauseAudio,
    PlayAudio,
}

impl View for Command {
    type V = CommandModel;

    open spec fn view(&self) -> CommandModel {
        match self {
            Command::Nothing => CommandModel::Nothing,
            Command::Exit => CommandModel::Exit,
            Command::Resize { width, height } => CommandModel::Resize {
                width: *width,
                height: *height,
            },
            Command::Redraw(redraw) => CommandModel::Redraw(redraw@),
            Command::PauseAudio => CommandModel::PauseAudio,
            Command::PlayAudio => CommandModel::PlayAudio,
        }
    }
}

impl WindowEvent {
    /// The left mouse button was let go: playing pauses or resumes.
    pub open spec fn is_click(self) -> bool {
        self matches WindowEvent::MouseInput { state, button } && state is Released
            && button is Left
    }
}

impl PlaybackModel {
    /// The state after a window event at the time `now`, and what is to be done.
    pub open spec fn handled(self, event: WindowEvent, now: u128) -> (Self, CommandModel) {
        match event {
            WindowEvent::CloseRequested => (self, CommandModel::Exit),
            WindowEvent::Resized { width, height } => (
                self,
                CommandModel::Resize { width, height },
            ),
            WindowEvent::RedrawRequested { received } => {
                let (next, redraw) = self.redrawn(event_models(received@), now);
                (next, CommandModel::Redraw(redraw))
            },
            _ => if event.is_click() {
                let clock = self.clock.toggled(now);
                let next = PlaybackModel { clock, ..self };
                if clock.paused {
                    (next, CommandModel::PauseAudio)
                } else {
                    (next, CommandModel::PlayAudio)
                }
            } else {
                (self, CommandModel::Nothing)
            },
        }
    }
}

/// Plays a stream: holds what was decoded and says what is shown, heard and reported.
pub struct Playback {
    pending_events: VecDeque<DecodeEvent>,
    current_frame: VideoFrame,
    current_block_frames: VecDeque<VideoFrame>,
    cache_blocks: VecDeque<CacheBlock>,
    initial_audio: Vec<AudioChunk>,
    clock: PlaybackClock,
    end_received: bool,
}

impl View for Playback {
    type V = PlaybackModel;

    closed spec fn view(&self) -> PlaybackModel {
        PlaybackModel {
            pending: event_models(self.pending_events@),
            current: self.current_frame@,
            queue: frame_models(self.current_block_frames@),
            blocks: block_models(self.cache_blocks@),
            initial_audio: chunk_models(self.initial_audio@),
            clock: self.clock,
            end_received: self.end_received,
        }
    }
}

impl Playback {
    /// Starts with the first frame of a block that has one.
    pub fn new(first_block: CacheBlock, pending_events: VecDeque<DecodeEvent>, now: u128) -> (playback:
        Self)
        requires
            first_block.frames@.len() > 0,
        ensures
            playback@ == PlaybackModel::start(first_block@, event_models(pending_events@), now),
    {
        let ghost block = first_block@;
        let CacheBlock { mut frames, audio } = first_block;
        let current_frame: VideoFrame = frames.remove(0);
        let playback = Playback {
            pending_events,
            current_frame,
            current_block_frames: into_queue(frames),
            cache_blocks: VecDeque::new(),
            initial_audio: audio,
            clock: PlaybackClock::start(now),
            end_received: false,
        };
        assert(playback@ =~= PlaybackModel::start(block, event_models(pending_events@), now));
        playback
    }

    /// The frame that is shown.
    pub fn current_frame(&self) -> (frame: &VideoFrame)
        ensures
            frame@ == self@.current,
    {
        &self.current_frame
    }

    /// Whether the time `now` fits the present state, so that playing can be paused or resumed.
    pub fn can_toggle(&self, now: u128) -> (possible: bool)
        ensures
            possible == self@.clock.can_toggle(now),
    {
        !self.clock.paused || self.clock.paused_at <= now
    }

    /// Hands out the audio of the first block, once.
    pub fn take_initial_audio(&mut self) -> (audio: Vec<AudioChunk>)
        ensures
            chunk_models(audio@) == old(self)@.initial_audio,
            final(self)@ == (PlaybackModel { initial_audio: Seq::empty(), ..old(self)@ }),
    {
        let mut audio: Vec<AudioChunk> = Vec::new();
        std::mem::swap(&mut self.initial_audio, &mut audio);
        assert(self@.initial_audio =~= Seq::empty());
        audio
    }

    /// Takes in a window event and says what is to be done.
    pub fn window_event(&mut self, event: WindowEvent, now: u128) -> (command: Command)
        requires
            event.is_click() ==> old(self)@.clock.can_toggle(now),
        ensures
            (final(self)@, command@) == old(self)@.handled(event, now),
            event matches WindowEvent::Resized { width, height } ==> command == (Command::Resize {
                width,
                height,
            }) && final(self)@ == old(self)@,
            !event.is_click() ==> final(self)@.clock == old(self)@.clock,
    {
        match event {
            WindowEvent::CloseRequested => Command::Exit,
            WindowEvent::Resized { width, height } => Command::Resize { width, height },
            WindowEvent::RedrawRequested { received } => Command::Redraw(self.redraw(received, now)),
            WindowEvent::MouseInput {
                state: ElementState::Released,
                button: MouseButton::Left,
            } => {
                self.clock.toggle(now);
                if self.clock.paused {
                    Command::PauseAudio
                } else {
                    Command::PlayAudio
                }
            },
            _ => Command::Nothing,
        }
    }

    /// Brings the state up to date for a redraw at the time `now`.
    pub fn redraw(&mut self, received: VecDeque<DecodeEvent>, now: u128) -> (redraw: Redraw)
        ensures
            (final(self)@, redraw@) == old(self)@.redrawn(event_models(received@), now),
            final(self)@.clock == old(self)@.clock,
    {
        let elapsed: u128 = self.clock.elapsed(now);
        let errors: Vec<String> = self.take_events(received);
        self.advance(elapsed);
        let audio: Vec<AudioChunk> = self.refill();
        let exit: bool = self.end_received && self.current_block_frames.len() == 0
            && self.cache_blocks.len() == 0;
        Redraw { audio, errors, exit }
    }

    fn take_events(&mut self, received: VecDeque<DecodeEvent>) -> (errors: Vec<String>)
        ensures
            final(self)@ == old(self)@.with_events(old(self)@.pending + event_models(received@)),
            text_models(errors@) == errors_in(old(self)@.pending + event_models(received@)),
    {
        let mut received = received;
        let ghost events = self@.pending + event_models(received@);
        self.pending_events.append(&mut received);
        assert(self@.pending =~= events);
        let mut errors: Vec<String> = Vec::new();
        let ghost mut taken: int = 0;
        assert(events.take(0) =~= Seq::empty());
        assert(self@ =~= (PlaybackModel {
            pending: events.skip(taken),
            ..old(self)@.with_events(events.take(taken))
        }));
        while self.pending_events.len() > 0
            invariant
                0 <= taken <= events.len(),
                self@ == (PlaybackModel {
                    pending: events.skip(taken),
                    ..old(self)@.with_events(events.take(taken))
                }),
                text_models(errors@) == errors_in(events.take(taken)),
            decreases events.len() - taken,
        {
            let ghost before = self@;
            let ghost errors_before = text_models(errors@);
            assert(before.pending.len() == self.pending_events@.len());
            assert(before.pending[0] == self.pending_events@[0]@);
            assert(before.pending[0] == events[taken]);
            match self.pending_events.pop_front() {
                Some(DecodeEvent::Block(block)) => {
                    self.cache_blocks.push_back(block);
                    assert(self@.blocks =~= before.blocks.push(block@));
                },
                Some(DecodeEvent::End) => {
                    self.end_received = true;
                },
                Some(DecodeEvent::Error(error)) => {
                    errors.push(error);
                    assert(text_models(errors@) =~= errors_before.push(error@));
                },
                None => {},
            }
            assert(self@.pending =~= before.pending.skip(1));
            assert(before.pending.skip(1) =~= events.skip(taken + 1));
            proof {
                lemma_one_more_event(events, taken);
                taken = taken + 1;
            }
            assert(self@ =~= (PlaybackModel {
                pending: events.skip(taken),
                ..old(self)@.with_events(events.take(taken))
            }));
        }
        assert(self@.pending.len() == 0);
        assert(events.take(taken) =~= events);
        assert(self@ =~= old(self)@.with_events(events));
        errors
    }

    fn advance(&mut self, elapsed: u128)
        ensures
            final(self)@ == old(self)@.advanced(elapsed as int),
    {
        let ghost frames = self@.queue;
        let ghost mut shown: int = 0;
        assert(frames.skip(0) =~= frames);
        while self.current_block_frames.len() > 0 && self.current_block_frames[0].timestamp <= elapsed
            invariant
                0 <= shown <= frames.len(),
                frames == old(self)@.queue,
                self@ == (PlaybackModel {
                    current: if shown > 0 {
                        frames[shown - 1]
                    } else {
                        old(self)@.current
                    },
                    queue: frames.skip(shown),
                    ..old(self)@
                }),
                due_from(frames, elapsed as int, 0) == due_from(frames, elapsed as int, shown),
            decreases frames.len() - shown,
        {
            let ghost before = self@.queue;
            assert(before.len() == self.current_block_frames@.len());
            assert(before[0] == self.current_block_frames@[0]@);
            assert(before[0] == frames[shown]);
            if let Some(frame) = self.current_block_frames.pop_front() {
                self.current_frame = frame;
            }
            assert(self@.queue =~= before.skip(1));
            assert(before.skip(1) =~= frames.skip(shown + 1));
            proof {
                shown = shown + 1;
            }
        }
        assert(self@.queue.len() == self.current_block_frames@.len());
        if self.current_block_frames.len() > 0 {
            assert(self@.queue[0] == self.current_block_frames@[0]@);
            assert(frames.skip(shown)[0] == frames[shown]);
        }
    }

    fn refill(&mut self) -> (audio: Vec<AudioChunk>)
        ensures
            (final(self)@, chunk_models(audio@)) == old(self)@.refilled(),
    {
        if self.current_block_frames.len() == 0 {
            if let Some(block) = self.cache_blocks.pop_front() {
                let CacheBlock { frames, audio } = block;
                self.current_block_frames = into_queue(frames);
                assert(self@ =~= old(self)@.refilled().0);
                return audio;
            }
        }
        let audio: Vec<AudioChunk> = Vec::new();
        assert(chunk_models(audio@) =~= Seq::empty());
        audio
    }
}

proof fn lemma_one_more_event(events: Seq<EventModel>, taken: int)
    requires
        0 <= taken < events.len(),
    ensures
        blocks_in(events.take(taken + 1)) == match events[taken] {
            EventModel::Block(block) => blocks_in(events.take(taken)).push(block),
            _ => blocks_in(events.take(taken)),
        },
        errors_in(events.take(taken + 1)) == match events[taken] {
            EventModel::Error(message) => errors_in(events.take(taken)).push(message),
            _ => errors_in(events.take(taken)),
        },
        events.take(taken + 1).contains(EventModel::End) <==> events.take(taken).contains(
            EventModel::End,
        ) || events[taken] is End,
{
    let longer = events.take(taken + 1);
    let shorter = events.take(taken);
    assert(longer.drop_last() =~= shorter);
    assert(longer.last() == events[taken]);
    if longer.contains(EventModel::End) && events[taken] !is End {
        let i = longer.index_of(EventModel::End);
        assert(shorter[i] is End);
    }
    if shorter.contains(EventModel::End) {
        let i = shorter.index_of(EventModel::End);
        assert(longer[i] is End);
    }
    if events[taken] is End {
        assert(longer[taken] is End);
    }
}

fn into_queue(frames: Vec<VideoFrame>) -> (queue: VecDeque<VideoFrame>)
    ensures
        queue@ == frames@,
{
    let mut frames = frames;
    let ghost all = frames@;
    let mut queue: VecDeque<VideoFrame> = VecDeque::with_capacity(frames.len());
    while frames.len() > 0
        invariant
            frames@ + queue@ == all,
        decreases frames@.len(),
    {
        if let Some(frame) = frames.pop() {
            queue.push_front(frame);
        }
        assert(frames@ + queue@ =~= all);
    }
    assert(frames@ + queue@ =~= queue@);
    queue
}

/// What is to be done after a redraw is taken for what its fields hold, one for one and in
/// order.
pub proof fn law_redraw_shows_fields(redraw: Redraw)
    ensures
        redraw@.exit == redraw.exit,
        redraw@.audio.len() == redraw.audio@.len(),
        redraw@.errors.len() == redraw.errors@.len(),
        forall|i: int|
            0 <= i < redraw.audio@.len() ==> #[trigger] redraw@.audio[i] == redraw.audio@[i]@,
        forall|i: int|
            0 <= i < redraw.errors@.len() ==> #[trigger] redraw@.errors[i] == redraw.errors@[i]@,
{
}

/// A command is taken for what it is, with all that it carries.
pub proof fn law_command_shows_fields(command: Command)
    ensures
        command@ is Nothing <==> command is Nothing,
        command@ is Exit <==> command is Exit,
        command@ is Resize <==> command is Resize,
        command@ is Redraw <==> command is Redraw,
        command@ is PauseAudio <==> command is PauseAudio,
        command@ is PlayAudio <==> command is PlayAudio,
        command matches Command::Resize { width, height } ==> command@->width == width
            && command@->height == height,
        command matches Command::Redraw(redraw) ==> command@->Redraw_0 == redraw@,
{
}

/// Events, blocks and messages in a row are taken for what each of them holds, in order.
pub proof fn law_rows_show_items(
    events: Seq<DecodeEvent>,
    blocks: Seq<CacheBlock>,
    texts: Seq<String>,
)
    ensures
        event_models(events).len() == events.len(),
        block_models(blocks).len() == blocks.len(),
        text_models(texts).len() == texts.len(),
        forall|i: int| 0 <= i < events.len() ==> #[trigger] event_models(events)[i] == events[i]@,
        forall|i: int| 0 <= i < blocks.len() ==> #[trigger] block_models(blocks)[i] == blocks[i]@,
        forall|i: int| 0 <= i < texts.len() ==> #[trigger] text_models(texts)[i] == texts[i]@,
{
}

} // verus!
