//! What holds of playback: nothing is lost between the decoder and the screen.
use vstd::prelude::*;
use std::collections::VecDeque;
use crate::audio::ChunkModel;
use crate::decode::{
    audio_of, blocks_in, frames_of, in_time_order, BlockModel, DecodeEvent, EventModel, FrameModel,
    WorkerEvent, WorkerModel,
};
use crate::playback::{
    due_from, errors_in, event_models, ElementState, MouseButton, PlaybackClock, PlaybackModel,
    WindowEvent,
};
use crate::startup::{startup_step, StepModel};
use crate::stream::StreamSelection;
use crate::surface::SurfaceSize;
use crate::worker_laws::{
    accepted, all_frames, decoded_audio, law_end_means_complete, law_events_are_in_order,
    law_frames_follow_pictures, law_nothing_is_lost, pictures, run, sent, sent_audio, sent_frames,
};

verus! {

/// The blocks that are still to be opened, those among the pending events last.
pub open spec fn waiting_blocks(playback: PlaybackModel) -> Seq<BlockModel> {
    playback.blocks + blocks_in(playback.pending)
}

/// The frames that are still to be shown.
pub open spec fn waiting_frames(playback: PlaybackModel) -> Seq<FrameModel> {
    playback.queue + frames_of(waiting_blocks(playback))
}

/// The audio that is still to be queued.
pub open spec fn waiting_audio(playback: PlaybackModel) -> Seq<ChunkModel> {
    audio_of(waiting_blocks(playback))
}

/// The end of the stream is known, or among the pending events.
pub open spec fn end_announced(playback: PlaybackModel) -> bool {
    playback.end_received || playback.pending.contains(EventModel::End)
}

/// The frames that a window event makes due, in order. The last of them is shown.
pub open spec fn reached_by(playback: PlaybackModel, event: WindowEvent, now: u128) -> Seq<
    FrameModel,
> {
    if event is RedrawRequested {
        playback.queue.take(
            due_from(playback.queue, playback.clock.position(now) as int, 0),
        )
    } else {
        Seq::empty()
    }
}

/// The audio that a window event hands out.
pub open spec fn queued_by(playback: PlaybackModel, event: WindowEvent, now: u128) -> Seq<
    ChunkModel,
> {
    match event {
        WindowEvent::RedrawRequested { received } => playback.redrawn(
            event_models(received@),
            now,
        ).1.audio,
        _ => Seq::empty(),
    }
}

/// The state after window events, each with the time at which it came.
pub open spec fn played(playback: PlaybackModel, inputs: Seq<(WindowEvent, u128)>) -> PlaybackModel
    decreases inputs.len(),
{
    if inputs.len() == 0 {
        playback
    } else {
        let (event, now) = inputs.last();
        played(playback, inputs.drop_last()).handled(event, now).0
    }
}

/// The events of the decoder that came in with the window events.
pub open spec fn received_in(inputs: Seq<(WindowEvent, u128)>) -> Seq<EventModel>
    decreases inputs.len(),
{
    if inputs.len() == 0 {
        Seq::empty()
    } else {
        match inputs.last().0 {
            WindowEvent::RedrawRequested { received } => received_in(inputs.drop_last())
                + event_models(received@),
            _ => received_in(inputs.drop_last()),
        }
    }
}

/// The frames that became due, in order.
pub open spec fn reached(playback: PlaybackModel, inputs: Seq<(WindowEvent, u128)>) -> Seq<
    FrameModel,
>
    decreases inputs.len(),
{
    if inputs.len() == 0 {
        Seq::empty()
    } else {
        let (event, now) = inputs.last();
        reached(playback, inputs.drop_last()) + reached_by(
            played(playback, inputs.drop_last()),
            event,
            now,
        )
    }
}

/// The audio that was handed out, in order.
pub open spec fn queued(playback: PlaybackModel, inputs: Seq<(WindowEvent, u128)>) -> Seq<ChunkModel>
    decreases inputs.len(),
{
    if inputs.len() == 0 {
        Seq::empty()
    } else {
        let (event, now) = inputs.last();
        queued(playback, inputs.drop_last()) + queued_by(
            played(playback, inputs.drop_last()),
            event,
            now,
        )
    }
}

proof fn lemma_blocks_in_add(a: Seq<EventModel>, b: Seq<EventModel>)
    ensures
        blocks_in(a + b) == blocks_in(a) + blocks_in(b),
    decreases b.len(),
{
    if b.len() == 0 {
        assert(a + b =~= a);
        assert(blocks_in(a) + blocks_in(b) =~= blocks_in(a));
    } else {
        lemma_blocks_in_add(a, b.drop_last());
        assert((a + b).drop_last() =~= a + b.drop_last());
        assert(blocks_in(a + b) =~= blocks_in(a) + blocks_in(b));
    }
}

proof fn lemma_content_add(a: Seq<BlockModel>, b: Seq<BlockModel>)
    ensures
        frames_of(a + b) == frames_of(a) + frames_of(b),
        audio_of(a + b) == audio_of(a) + audio_of(b),
    decreases b.len(),
{
    if b.len() == 0 {
        assert(a + b =~= a);
        assert(frames_of(a) + frames_of(b) =~= frames_of(a));
        assert(audio_of(a) + audio_of(b) =~= audio_of(a));
    } else {
        lemma_content_add(a, b.drop_last());
        assert((a + b).drop_last() =~= a + b.drop_last());
        assert(frames_of(a + b) =~= frames_of(a) + frames_of(b));
        assert(audio_of(a + b) =~= audio_of(a) + audio_of(b));
    }
}

proof fn lemma_content_first(blocks: Seq<BlockModel>)
    requires
        blocks.len() > 0,
    ensures
        frames_of(blocks) == blocks[0].frames + frames_of(blocks.skip(1)),
        audio_of(blocks) == blocks[0].audio + audio_of(blocks.skip(1)),
{
    let first = seq![blocks[0]];
    lemma_content_add(first, blocks.skip(1));
    assert(first + blocks.skip(1) =~= blocks);
    reveal_with_fuel(frames_of, 2);
    reveal_with_fuel(audio_of, 2);
    assert(frames_of(first) =~= blocks[0].frames);
    assert(audio_of(first) =~= blocks[0].audio);
}

/// Exactly the frames at the front of the queue are counted as due that lie before the first
/// one which is not due yet.
pub proof fn law_due_frames(frames: Seq<FrameModel>, position: int, from: int)
    requires
        0 <= from <= frames.len(),
    ensures
        from <= due_from(frames, position, from) <= frames.len(),
        forall|i: int|
            from <= i < due_from(frames, position, from) ==> (#[trigger] frames[i]).timestamp
                <= position,
        due_from(frames, position, from) < frames.len() ==> frames[due_from(
            frames,
            position,
            from,
        )].timestamp > position,
    decreases frames.len() - from,
{
    if from < frames.len() && frames[from].timestamp <= position {
        law_due_frames(frames, position, from + 1);
    }
}

/// A redraw takes frames from the front of what waits, hands out audio from the front of what
/// waits, and appends what has come in: nothing is lost, doubled or reordered.
pub proof fn law_redraw_loses_nothing(playback: PlaybackModel, received: Seq<EventModel>, now: u128)
    ensures
        ({
            let blocks = blocks_in(received);
            let due = due_from(playback.queue, playback.clock.position(now) as int, 0);
            let (next, redraw) = playback.redrawn(received, now);
            &&& waiting_frames(playback) + frames_of(blocks) == playback.queue.take(due)
                + waiting_frames(next)
            &&& waiting_audio(playback) + audio_of(blocks) == redraw.audio + waiting_audio(next)
            &&& end_announced(next) <==> end_announced(playback) || received.contains(
                EventModel::End,
            )
        }),
{
    let blocks = blocks_in(received);
    let position = playback.clock.position(now) as int;
    let due = due_from(playback.queue, position, 0);
    let (next, redraw) = playback.redrawn(received, now);
    let all = playback.blocks + blocks_in(playback.pending + received);
    law_due_frames(playback.queue, position, 0);
    lemma_blocks_in_add(playback.pending, received);
    assert(all =~= waiting_blocks(playback) + blocks);
    lemma_content_add(waiting_blocks(playback), blocks);
    lemma_contains_add(playback.pending, received, EventModel::End);
    assert(waiting_blocks(next) =~= next.blocks);
    assert(playback.queue =~= playback.queue.take(due) + playback.queue.skip(due));
    if playback.queue.skip(due).len() == 0 && all.len() > 0 {
        lemma_content_first(all);
    }
    assert(waiting_frames(playback) + frames_of(blocks) =~= playback.queue.take(due)
        + waiting_frames(next));
    assert(waiting_audio(playback) + audio_of(blocks) =~= redraw.audio + waiting_audio(next));
}

/// After a redraw the frame that is shown is the last one that became due, or the same as
/// before if none did; in a block whose frames are in time order every frame that is left is
/// due later.
pub proof fn law_shown_frame_is_latest_due(
    playback: PlaybackModel,
    received: Seq<EventModel>,
    now: u128,
)
    ensures
        ({
            let position = playback.clock.position(now) as int;
            let due = due_from(playback.queue, position, 0);
            let next = playback.redrawn(received, now).0;
            &&& 0 <= due <= playback.queue.len()
            &&& next.current == if due == 0 {
                playback.current
            } else {
                playback.queue[due - 1]
            }
            &&& due > 0 ==> next.current.timestamp <= position
            &&& in_time_order(playback.queue) ==> forall|i: int|
                0 <= i < playback.queue.len() ==> (i < due <==> (
                #[trigger] playback.queue[i]).timestamp <= position)
        }),
{
    law_due_frames(playback.queue, playback.clock.position(now) as int, 0);
}

/// Playing ends only after the end was announced and when no frame and no audio waits; an
/// error of the decoder does not end it.
pub proof fn law_exit_means_done(playback: PlaybackModel, received: Seq<EventModel>, now: u128)
    ensures
        ({
            let (next, redraw) = playback.redrawn(received, now);
            &&& redraw.exit ==> next.pending.len() == 0
            &&& redraw.exit ==> waiting_frames(next).len() == 0 && waiting_audio(next).len() == 0
            &&& redraw.exit ==> playback.end_received || (playback.pending + received).contains(
                EventModel::End,
            )
        }),
{
    let next = playback.redrawn(received, now).0;
    assert(waiting_blocks(next) =~= next.blocks);
}

/// While playing is paused a redraw gives the same result at any time.
pub proof fn law_pause_freezes_picture(
    playback: PlaybackModel,
    received: Seq<EventModel>,
    now: u128,
    later: u128,
)
    requires
        playback.clock.paused,
    ensures
        playback.redrawn(received, now) == playback.redrawn(received, later),
{
}

/// Pausing keeps the position, however long the pause lasts.
pub proof fn law_pause_keeps_position(clock: PlaybackClock, now: u128, later: u128)
    requires
        !clock.paused,
    ensures
        clock.toggled(now).position(later) == clock.position(now),
{
}

/// After a pause the position runs on from where it was.
pub proof fn law_resume_continues(clock: PlaybackClock, now: u128, later: u128)
    requires
        clock.paused,
        clock.can_toggle(now),
        now <= later,
    ensures
        clock.toggled(now).position(later) == clock.position(now) + (later - now),
{
}

/// The position never runs backwards.
pub proof fn law_position_is_monotone(clock: PlaybackClock, now: u128, later: u128)
    requires
        now <= later,
    ensures
        clock.position(now) <= clock.position(later),
{
}

/// A clock after it was toggled at the given times.
pub open spec fn toggled_at(clock: PlaybackClock, times: Seq<u128>) -> PlaybackClock
    decreases times.len(),
{
    if times.len() == 0 {
        clock
    } else {
        toggled_at(clock, times.drop_last()).toggled(times.last())
    }
}

/// A clock that started at some time can be toggled at any later time, however often it was
/// toggled in between, and its stream never begins in the future.
pub proof fn law_can_always_toggle(begin: u128, times: Seq<u128>, now: u128)
    requires
        forall|i: int| 0 <= i < times.len() ==> begin <= #[trigger] times[i] <= now,
        forall|i: int, j: int|
            0 <= i < j < times.len() ==> #[trigger] times[i] <= #[trigger] times[j],
        begin <= now,
    ensures
        toggled_at(
            PlaybackClock { started_at: begin, paused_at: 0, paused: false },
            times,
        ).can_toggle(now),
        toggled_at(
            PlaybackClock { started_at: begin, paused_at: 0, paused: false },
            times,
        ).started_at <= now,
    decreases times.len(),
{
    if times.len() > 0 {
        let earlier = times.drop_last();
        assert(forall|i: int| 0 <= i < earlier.len() ==> #[trigger] earlier[i] == times[i]);
        assert(times.last() == times[times.len() - 1]);
        law_can_always_toggle(begin, earlier, times.last());
    }
}

/// Over any course of window events nothing is lost, doubled or reordered: what waited at
/// first, followed by what came in, is what became due, followed by what waits in the end; and
/// the frame that is shown is the last one that became due. Events that were pending at first
/// stay so until the first redraw.
pub proof fn law_playback_loses_nothing(
    playback: PlaybackModel,
    inputs: Seq<(WindowEvent, u128)>,
)
    ensures
        ({
            let end = played(playback, inputs);
            let blocks = blocks_in(received_in(inputs));
            &&& waiting_frames(playback) + frames_of(blocks) == reached(playback, inputs)
                + waiting_frames(end)
            &&& waiting_audio(playback) + audio_of(blocks) == queued(playback, inputs)
                + waiting_audio(end)
            &&& end.pending.len() == 0 || end.pending == playback.pending
            &&& end_announced(end) <==> end_announced(playback) || received_in(inputs).contains(
                EventModel::End,
            )
            &&& end.current == if reached(playback, inputs).len() > 0 {
                reached(playback, inputs).last()
            } else {
                playback.current
            }
        }),
    decreases inputs.len(),
{
    let blocks = blocks_in(received_in(inputs));
    let end = played(playback, inputs);
    if inputs.len() == 0 {
        assert(waiting_frames(playback) + frames_of(blocks) =~= reached(playback, inputs)
            + waiting_frames(end));
        assert(waiting_audio(playback) + audio_of(blocks) =~= queued(playback, inputs)
            + waiting_audio(end));
    } else {
        let earlier = inputs.drop_last();
        let (event, now) = inputs.last();
        let before = played(playback, earlier);
        law_playback_loses_nothing(playback, earlier);
        if let WindowEvent::RedrawRequested { received } = event {
            let fresh = event_models(received@);
            law_redraw_loses_nothing(before, fresh, now);
            law_due_frames(before.queue, before.clock.position(now) as int, 0);
            lemma_blocks_in_add(received_in(earlier), fresh);
            lemma_content_add(blocks_in(received_in(earlier)), blocks_in(fresh));
            lemma_contains_add(received_in(earlier), fresh, EventModel::End);
            lemma_chain(
                waiting_frames(playback),
                frames_of(blocks_in(received_in(earlier))),
                frames_of(blocks_in(fresh)),
                reached(playback, earlier),
                waiting_frames(before),
                reached_by(before, event, now),
                waiting_frames(end),
            );
            lemma_chain(
                waiting_audio(playback),
                audio_of(blocks_in(received_in(earlier))),
                audio_of(blocks_in(fresh)),
                queued(playback, earlier),
                waiting_audio(before),
                queued_by(before, event, now),
                waiting_audio(end),
            );
        } else {
            assert(reached(playback, inputs) =~= reached(playback, earlier));
            assert(queued(playback, inputs) =~= queued(playback, earlier));
        }
    }
}

proof fn lemma_chain<A>(
    start: Seq<A>,
    first_in: Seq<A>,
    second_in: Seq<A>,
    first_out: Seq<A>,
    middle: Seq<A>,
    second_out: Seq<A>,
    end: Seq<A>,
)
    requires
        start + first_in == first_out + middle,
        middle + second_in == second_out + end,
    ensures
        start + (first_in + second_in) == (first_out + second_out) + end,
{
    assert(start + (first_in + second_in) =~= (start + first_in) + second_in);
    assert((first_out + middle) + second_in =~= first_out + (middle + second_in));
    assert(first_out + (second_out + end) =~= (first_out + second_out) + end);
}

proof fn lemma_contains_add<A>(a: Seq<A>, b: Seq<A>, x: A)
    ensures
        (a + b).contains(x) <==> a.contains(x) || b.contains(x),
{
    if a.contains(x) {
        assert((a + b)[a.index_of(x)] == x);
    }
    if b.contains(x) {
        assert((a + b)[a.len() + b.index_of(x)] == x);
    }
}

/// If playback starts at all, it starts with the first thing that the worker sends, so nothing
/// is kept from before.
pub proof fn law_first_event_decides(
    streams: StreamSelection,
    events: Seq<WorkerEvent>,
    ready: int,
)
    requires
        accepted(WorkerModel::start(streams), events),
        0 <= ready < sent(WorkerModel::start(streams), events).len(),
        startup_step(sent(WorkerModel::start(streams), events)[ready]) is Ready,
        forall|i: int|
            0 <= i < ready ==> startup_step(
                #[trigger] sent(WorkerModel::start(streams), events)[i],
            ) is Wait,
    ensures
        ready == 0,
{
    law_events_are_in_order(streams, events);
    let output = sent(WorkerModel::start(streams), events);
    if ready > 0 {
        assert(startup_step(output[0]) is Wait);
    }
}

/// From end to end: if the player receives what the worker sends and finishes, then every
/// picture that was decoded became due in its turn and all audio was handed out, in order.
pub proof fn law_everything_is_played(
    streams: StreamSelection,
    events: Seq<WorkerEvent>,
    begin: u128,
    inputs: Seq<(WindowEvent, u128)>,
)
    requires
        accepted(WorkerModel::start(streams), events),
        sent(WorkerModel::start(streams), events).len() > 0,
        startup_step(sent(WorkerModel::start(streams), events)[0]) is Ready,
        received_in(inputs) == sent(WorkerModel::start(streams), events).skip(1),
        ({
            let first = startup_step(sent(WorkerModel::start(streams), events)[0])->Ready_0;
            played(PlaybackModel::start(first, Seq::empty(), begin), inputs).finished()
        }),
    ensures
        ({
            let first = startup_step(sent(WorkerModel::start(streams), events)[0])->Ready_0;
            let start = PlaybackModel::start(first, Seq::empty(), begin);
            &&& seq![start.current] + reached(start, inputs) == all_frames(events)
            &&& start.initial_audio + queued(start, inputs) == decoded_audio(streams, events)
        }),
{
    let output = sent(WorkerModel::start(streams), events);
    let first = startup_step(output[0])->Ready_0;
    let start = PlaybackModel::start(first, Seq::empty(), begin);
    let end = played(start, inputs);
    let rest = output.skip(1);
    law_playback_loses_nothing(start, inputs);
    assert(waiting_blocks(start) =~= Seq::empty());
    assert(waiting_blocks(end) =~= Seq::empty());
    assert(output.contains(EventModel::End)) by {
        let i = rest.index_of(EventModel::End);
        assert(output[i + 1] == EventModel::End);
    }
    law_end_means_complete(streams, events);
    let head = seq![output[0]];
    assert(head + rest =~= output);
    lemma_blocks_in_add(head, rest);
    reveal_with_fuel(blocks_in, 2);
    assert(blocks_in(head) =~= seq![first]);
    lemma_content_add(seq![first], blocks_in(rest));
    lemma_content_first(seq![first]);
    assert(seq![first].skip(1) =~= Seq::empty());
    assert(seq![start.current] + first.frames.skip(1) =~= first.frames);
    assert(seq![start.current] + reached(start, inputs) =~= sent_frames(output));
    assert(start.initial_audio + queued(start, inputs) =~= sent_audio(output));
}

/// Playback starts with the first frame of the block on the screen and the others behind it, in
/// order; the audio of the block is still to be handed out, the events kept from before are
/// still to be taken in, and the end is not known. The position is zero at that time.
pub proof fn law_playback_starts_with_block(
    block: BlockModel,
    pending: Seq<EventModel>,
    begin: u128,
    now: u128,
)
    requires
        block.frames.len() > 0,
        begin <= now,
    ensures
        ({
            let playback = PlaybackModel::start(block, pending, begin);
            &&& seq![playback.current] + playback.queue == block.frames
            &&& playback.initial_audio == block.audio
            &&& playback.pending == pending
            &&& playback.blocks.len() == 0
            &&& !playback.end_received
            &&& !playback.clock.paused
            &&& playback.clock.position(now) == now - begin
            &&& playback.clock.position(begin) == 0
        }),
{
    let playback = PlaybackModel::start(block, pending, begin);
    assert(seq![playback.current] + playback.queue =~= block.frames);
}

/// A running clock advances as time does, from zero at the time at which its stream began; a
/// paused one stands still.
pub proof fn law_position_follows_time(clock: PlaybackClock, now: u128, later: u128)
    requires
        now <= later,
    ensures
        !clock.paused && clock.started_at <= now ==> clock.position(later) - clock.position(now)
            == later - now,
        !clock.paused ==> clock.position(clock.started_at) == 0,
        !clock.paused && later <= clock.started_at ==> clock.position(later) == 0,
        clock.paused ==> clock.position(later) == clock.position(now),
{
}

/// Toggling a clock pauses it if it runs and lets it run if it is paused, and does not move it.
pub proof fn law_toggle_keeps_position(clock: PlaybackClock, now: u128)
    requires
        clock.can_toggle(now),
    ensures
        clock.toggled(now).paused == !clock.paused,
        clock.toggled(now).position(now) == clock.position(now),
{
}

/// A running clock can be toggled at any time, and a paused one exactly at times that are not
/// before its position.
pub proof fn law_when_clock_can_toggle(clock: PlaybackClock, now: u128)
    ensures
        !clock.paused ==> clock.can_toggle(now),
        clock.paused ==> (clock.can_toggle(now) <==> clock.position(now) <= now),
{
}

/// Pausing and resuming takes out exactly the time in between: afterwards the position is what
/// it would have been, less the length of the pause.
pub proof fn law_pause_is_taken_out(clock: PlaybackClock, paused: u128, resumed: u128, later: u128)
    requires
        !clock.paused,
        clock.started_at <= paused <= resumed <= later,
    ensures
        clock.toggled(paused).toggled(resumed).position(later) == clock.position(later) - (resumed
            - paused),
{
}

/// A redraw leaves the clock and the audio of the first block as they are, whatever has come in
/// and whenever it happens; all events that came in are taken in.
pub proof fn law_redraw_keeps_clock(playback: PlaybackModel, received: Seq<EventModel>, now: u128)
    ensures
        playback.redrawn(received, now).0.clock == playback.clock,
        playback.redrawn(received, now).0.initial_audio == playback.initial_audio,
        playback.redrawn(received, now).0.pending.len() == 0,
{
}

/// A redraw knows of the end exactly if it was known before or is among the events that were
/// pending or have come in. Only then can it be the last one, and it is, if nothing is left to
/// show.
pub proof fn law_end_is_remembered(playback: PlaybackModel, received: Seq<EventModel>, now: u128)
    ensures
        ({
            let (next, redraw) = playback.redrawn(received, now);
            &&& next.end_received <==> playback.end_received || (exists|i: int|
                0 <= i < playback.pending.len() && #[trigger] playback.pending[i] is End) || (exists|
                i: int,
            |
                0 <= i < received.len() && #[trigger] received[i] is End)
            &&& redraw.exit <==> next.end_received && next.queue.len() == 0 && next.blocks.len()
                == 0
        }),
{
    let events = playback.pending + received;
    lemma_contains_add(playback.pending, received, EventModel::End);
    if playback.pending.contains(EventModel::End) {
        assert(playback.pending[playback.pending.index_of(EventModel::End)] is End);
    }
    if received.contains(EventModel::End) {
        assert(received[received.index_of(EventModel::End)] is End);
    }
    if exists|i: int| 0 <= i < playback.pending.len() && #[trigger] playback.pending[i] is End {
        let i = choose|i: int|
            0 <= i < playback.pending.len() && #[trigger] playback.pending[i] is End;
        assert(playback.pending[i] == EventModel::End);
    }
    if exists|i: int| 0 <= i < received.len() && #[trigger] received[i] is End {
        let i = choose|i: int| 0 <= i < received.len() && #[trigger] received[i] is End;
        assert(received[i] == EventModel::End);
    }
}

/// While frames of the present block are not due yet, a redraw opens no block and hands out no
/// audio. Otherwise it opens exactly one, the first of those that were lined up, pending or have
/// come in: its frames follow and its audio is handed out. What else there is stays lined up.
pub proof fn law_blocks_open_one_by_one(
    playback: PlaybackModel,
    received: Seq<EventModel>,
    now: u128,
)
    ensures
        ({
            let (next, redraw) = playback.redrawn(received, now);
            let lined_up = playback.blocks + blocks_in(playback.pending) + blocks_in(received);
            let left = exists|i: int|
                0 <= i < playback.queue.len() && (#[trigger] playback.queue[i]).timestamp
                    > playback.clock.position(now);
            &&& left ==> {
                &&& redraw.audio.len() == 0
                &&& next.blocks == lined_up
                &&& next.queue.len() > 0
                &&& next.queue[0].timestamp > playback.clock.position(now)
            }
            &&& !left && lined_up.len() > 0 ==> {
                &&& redraw.audio == lined_up[0].audio
                &&& next.queue == lined_up[0].frames
                &&& seq![lined_up[0]] + next.blocks == lined_up
            }
            &&& !left && lined_up.len() == 0 ==> {
                &&& redraw.audio.len() == 0
                &&& next.queue.len() == 0
                &&& next.blocks.len() == 0
            }
        }),
{
    let position = playback.clock.position(now) as int;
    let due = due_from(playback.queue, position, 0);
    let (next, redraw) = playback.redrawn(received, now);
    let lined_up = playback.blocks + blocks_in(playback.pending) + blocks_in(received);
    law_due_frames(playback.queue, position, 0);
    lemma_blocks_in_add(playback.pending, received);
    assert(playback.blocks + blocks_in(playback.pending + received) =~= lined_up);
    if due < playback.queue.len() {
        assert(playback.queue[due].timestamp > position);
        assert(playback.queue.skip(due)[0] == playback.queue[due]);
    } else if lined_up.len() > 0 {
        assert(seq![lined_up[0]] + next.blocks =~= lined_up);
    }
}

/// The frames that a redraw passes are those before the first one which is not due yet; the last
/// of them is shown. If none is due, the frame that was shown stays.
pub proof fn law_redraw_shows_latest_due(
    playback: PlaybackModel,
    received: Seq<EventModel>,
    now: u128,
    due: int,
)
    requires
        0 <= due <= playback.queue.len(),
        forall|i: int|
            0 <= i < due ==> (#[trigger] playback.queue[i]).timestamp <= playback.clock.position(
                now,
            ),
        due < playback.queue.len() ==> playback.queue[due].timestamp > playback.clock.position(now),
    ensures
        ({
            let next = playback.redrawn(received, now).0;
            &&& due == 0 ==> next.current == playback.current
            &&& due > 0 ==> next.current == playback.queue[due - 1]
            &&& due < playback.queue.len() ==> next.queue == playback.queue.skip(due)
        }),
{
    let position = playback.clock.position(now) as int;
    let counted = due_from(playback.queue, position, 0);
    law_due_frames(playback.queue, position, 0);
    if counted < due {
        assert(playback.queue[counted].timestamp <= position);
    }
    if due < counted {
        assert(playback.queue[due].timestamp <= position);
    }
}

/// Of two rows of events one after the other, the blocks, and likewise the messages, are those of
/// the first, followed by those of the second. A single event gives the block or the message that
/// it carries, and nothing else.
pub proof fn law_events_are_taken_in_turn(a: Seq<EventModel>, b: Seq<EventModel>, event: EventModel)
    ensures
        blocks_in(a + b) == blocks_in(a) + blocks_in(b),
        errors_in(a + b) == errors_in(a) + errors_in(b),
        blocks_in(Seq::empty()).len() == 0,
        errors_in(Seq::empty()).len() == 0,
        event matches EventModel::Block(block) ==> blocks_in(seq![event]) == seq![block],
        event !is Block ==> blocks_in(seq![event]).len() == 0,
        event matches EventModel::Error(message) ==> errors_in(seq![event]) == seq![message],
        event !is Error ==> errors_in(seq![event]).len() == 0,
{
    lemma_blocks_in_add(a, b);
    lemma_errors_in_add(a, b);
    reveal_with_fuel(blocks_in, 2);
    reveal_with_fuel(errors_in, 2);
    let single = seq![event];
    assert(single.drop_last() =~= Seq::empty());
    assert(single.last() == event);
    if let EventModel::Block(block) = event {
        assert(blocks_in(single) =~= seq![block]);
    }
    if let EventModel::Error(message) = event {
        assert(errors_in(single) =~= seq![message]);
    }
}

/// Of two rows of blocks one after the other, the frames, and likewise the audio, are those of
/// the first, followed by those of the second. A single block gives what it holds.
pub proof fn law_blocks_are_taken_in_turn(a: Seq<BlockModel>, b: Seq<BlockModel>, block: BlockModel)
    ensures
        frames_of(a + b) == frames_of(a) + frames_of(b),
        audio_of(a + b) == audio_of(a) + audio_of(b),
        frames_of(Seq::empty()).len() == 0,
        audio_of(Seq::empty()).len() == 0,
        frames_of(seq![block]) == block.frames,
        audio_of(seq![block]) == block.audio,
{
    lemma_content_add(a, b);
    lemma_content_first(seq![block]);
    assert(seq![block].skip(1) =~= Seq::empty());
    assert(frames_of(seq![block]) =~= block.frames);
    assert(audio_of(seq![block]) =~= block.audio);
}

proof fn lemma_errors_in_add(a: Seq<EventModel>, b: Seq<EventModel>)
    ensures
        errors_in(a + b) == errors_in(a) + errors_in(b),
    decreases b.len(),
{
    if b.len() == 0 {
        assert(a + b =~= a);
        assert(errors_in(a) + errors_in(b) =~= errors_in(a));
    } else {
        lemma_errors_in_add(a, b.drop_last());
        assert((a + b).drop_last() =~= a + b.drop_last());
        assert(errors_in(a + b) =~= errors_in(a) + errors_in(b));
    }
}

/// A redraw reports every error among the events that were pending or have come in, in order,
/// each once, and nothing else.
pub proof fn law_errors_are_reported(playback: PlaybackModel, received: Seq<EventModel>, now: u128)
    ensures
        playback.redrawn(received, now).1.errors == errors_in(playback.pending) + errors_in(
            received,
        ),
        forall|i: int|
            0 <= i < received.len() && (#[trigger] received[i]) is Error ==> playback.redrawn(
                received,
                now,
            ).1.errors.contains(received[i]->Error_0),
{
    lemma_errors_in_add(playback.pending, received);
    let errors = playback.redrawn(received, now).1.errors;
    assert forall|i: int| 0 <= i < received.len() && (#[trigger] received[i]) is Error implies
        errors.contains(received[i]->Error_0) by {
        lemma_error_is_found(received, i);
        lemma_contains_add(errors_in(playback.pending), errors_in(received), received[i]->Error_0);
    }
}

proof fn lemma_error_is_found(events: Seq<EventModel>, i: int)
    requires
        0 <= i < events.len(),
        events[i] is Error,
    ensures
        errors_in(events).contains(events[i]->Error_0),
    decreases events.len(),
{
    let earlier = events.drop_last();
    if i < earlier.len() {
        assert(earlier[i] == events[i]);
        lemma_error_is_found(earlier, i);
        let k = errors_in(earlier).index_of(events[i]->Error_0);
        assert(errors_in(events)[k] == events[i]->Error_0);
    } else {
        assert(errors_in(events).last() == events[i]->Error_0);
    }
}

/// Every resize of the window is passed on with the same size and changes nothing in the state;
/// a surface that follows it has that size from then on, if it has pixels.
pub proof fn law_resize_reaches_surface(
    playback: PlaybackModel,
    width: u32,
    height: u32,
    now: u128,
    surface: SurfaceSize,
)
    ensures
        ({
            let (next, command) = playback.handled(WindowEvent::Resized { width, height }, now);
            &&& next == playback
            &&& command is Resize
            &&& command->width == width
            &&& command->height == height
            &&& width > 0 && height > 0 ==> surface.resized(command->width, command->height)
                == (SurfaceSize { width, height })
            &&& width == 0 || height == 0 ==> surface.resized(command->width, command->height)
                == surface
        }),
{
}

/// A request to close the window ends the program at once, and nothing else does but the end of
/// the stream.
pub proof fn law_close_exits(playback: PlaybackModel, event: WindowEvent, now: u128)
    ensures
        playback.handled(event, now).1 is Exit <==> event is CloseRequested,
        event is CloseRequested ==> playback.handled(event, now).0 == playback,
{
}

/// Letting go of the left mouse button pauses playing and its audio if it runs, and resumes both
/// if it is paused. Nothing but the clock changes, and the position stays where it is.
pub proof fn law_click_toggles(playback: PlaybackModel, now: u128)
    requires
        playback.clock.can_toggle(now),
    ensures
        ({
            let click = WindowEvent::MouseInput {
                state: ElementState::Released,
                button: MouseButton::Left,
            };
            let (next, command) = playback.handled(click, now);
            &&& click.is_click()
            &&& next == (PlaybackModel { clock: next.clock, ..playback })
            &&& next.clock.paused == !playback.clock.paused
            &&& next.clock.position(now) == playback.clock.position(now)
            &&& !playback.clock.paused ==> command is PauseAudio
            &&& playback.clock.paused ==> command is PlayAudio
        }),
{
}

/// No other mouse input and no event of another kind is a click; each leaves the state as it is
/// and asks for nothing.
pub proof fn law_other_events_do_nothing(playback: PlaybackModel, event: WindowEvent, now: u128)
    requires
        event is Other || (event is MouseInput && (event->state is Pressed || event->button is Other)),
    ensures
        !event.is_click(),
        playback.handled(event, now).0 == playback,
        playback.handled(event, now).1 is Nothing,
{
}

/// A request to draw does what a redraw with the received events does, and asks for that.
pub proof fn law_redraw_request_redraws(
    playback: PlaybackModel,
    received: VecDeque<DecodeEvent>,
    now: u128,
)
    ensures
        ({
            let (next, command) = playback.handled(WindowEvent::RedrawRequested { received }, now);
            let (redrawn, redraw) = playback.redrawn(event_models(received@), now);
            &&& next == redrawn
            &&& command is Redraw
            &&& command->Redraw_0 == redraw
        }),
{
}

/// The times at which the left mouse button was let go, in order.
pub open spec fn click_times(inputs: Seq<(WindowEvent, u128)>) -> Seq<u128>
    decreases inputs.len(),
{
    if inputs.len() == 0 {
        Seq::empty()
    } else {
        let (event, now) = inputs.last();
        match event {
            WindowEvent::MouseInput {
                state: ElementState::Released,
                button: MouseButton::Left,
            } => click_times(inputs.drop_last()).push(now),
            _ => click_times(inputs.drop_last()),
        }
    }
}

/// Over any course of window events the clock is the first one, toggled at exactly the times of
/// the clicks: neither what comes in nor drawing changes it. The audio of the first block stays
/// where it is.
pub proof fn law_clock_follows_clicks(playback: PlaybackModel, inputs: Seq<(WindowEvent, u128)>)
    ensures
        played(playback, inputs).clock == toggled_at(playback.clock, click_times(inputs)),
        played(playback, inputs).initial_audio == playback.initial_audio,
    decreases inputs.len(),
{
    if inputs.len() > 0 {
        let earlier = inputs.drop_last();
        let (event, now) = inputs.last();
        law_clock_follows_clicks(playback, earlier);
        if event.is_click() {
            assert(click_times(inputs).drop_last() =~= click_times(earlier));
        }
    }
}

/// Over any course of window events playing is paused exactly after an odd number of clicks.
pub proof fn law_pause_follows_clicks(playback: PlaybackModel, inputs: Seq<(WindowEvent, u128)>)
    ensures
        played(playback, inputs).clock.paused <==> (playback.clock.paused <==> click_times(
            inputs,
        ).len() % 2 == 0),
    decreases inputs.len(),
{
    if inputs.len() > 0 {
        law_pause_follows_clicks(playback, inputs.drop_last());
        law_clock_follows_clicks(playback, inputs);
        law_clock_follows_clicks(playback, inputs.drop_last());
        if inputs.last().0.is_click() {
            assert(click_times(inputs).drop_last() =~= click_times(inputs.drop_last()));
        }
    }
}

/// Over a whole run: if the first thing that the worker sends is a block with a frame, whatever
/// audio it holds, playback starts with exactly that block; if it is the end or an error,
/// starting fails.
pub proof fn law_first_block_starts_playback(streams: StreamSelection, events: Seq<WorkerEvent>)
    requires
        accepted(WorkerModel::start(streams), events),
        sent(WorkerModel::start(streams), events).len() > 0,
    ensures
        ({
            let first = sent(WorkerModel::start(streams), events)[0];
            &&& first is Block && first->Block_0.frames.len() > 0 ==> startup_step(first)
                == StepModel::Ready(first->Block_0)
            &&& first is Block && first->Block_0.frames.len() == 0 ==> startup_step(first) is Wait
            &&& first !is Block ==> startup_step(first) is Failed
        }),
{
}

/// The frame that playback starts with shows the first picture that was decoded, and is due at
/// once.
pub proof fn law_first_picture_is_shown_first(
    streams: StreamSelection,
    events: Seq<WorkerEvent>,
    begin: u128,
)
    requires
        accepted(WorkerModel::start(streams), events),
        sent(WorkerModel::start(streams), events).len() > 0,
        startup_step(sent(WorkerModel::start(streams), events)[0]) is Ready,
    ensures
        ({
            let first = startup_step(sent(WorkerModel::start(streams), events)[0])->Ready_0;
            let playback = PlaybackModel::start(first, Seq::empty(), begin);
            &&& pictures(events).len() > 0
            &&& playback.current.image == pictures(events)[0].0.image()
            &&& playback.current.timestamp == 0
        }),
{
    let output = sent(WorkerModel::start(streams), events);
    let waiting = run(WorkerModel::start(streams), events).frames;
    let first = startup_step(output[0])->Ready_0;
    let rest = blocks_in(output.skip(1));
    law_nothing_is_lost(streams, events);
    law_frames_follow_pictures(events);
    law_events_are_taken_in_turn(seq![output[0]], output.skip(1), output[0]);
    law_blocks_are_taken_in_turn(seq![first], rest, first);
    assert(seq![output[0]] + output.skip(1) =~= output);
    assert(sent_frames(output) == first.frames + frames_of(rest));
    assert((sent_frames(output) + waiting)[0] == first.frames[0]);
    assert(all_frames(events)[0] == first.frames[0]);
}

} // verus!
