//! What follows from the contracts of the operations for those who call them: what a call gives,
//! and how the results of two calls relate.
use vstd::prelude::*;
use std::collections::VecDeque;
use crate::audio::AudioChunk;
use crate::decode::{
    chunk_models, send_picture, CacheBlock, DecodeEvent, DecodeWorker, Packet, VideoFrame,
    WorkerAction, WorkerEvent,
};
use crate::image::Picture;
use crate::playback::{
    Command, ElementState, MouseButton, Playback, PlaybackClock, Redraw, WindowEvent,
};
use crate::startup::{Startup, StartupStep};
use crate::surface::SurfaceSize;

verus! {

/// Pausing a running clock makes it tell, at any later time, what it told when it was paused.
pub proof fn law_paused_clock_tells_same(
    clock: &mut PlaybackClock,
    now: u128,
    later: u128,
    before: u128,
    after: u128,
)
    requires
        !old(clock).paused,
        call_ensures(PlaybackClock::elapsed, (&*old(clock), now), before),
        call_ensures(PlaybackClock::toggle, (clock, now), ()),
        call_ensures(PlaybackClock::elapsed, (&*final(clock), later), after),
    ensures
        final(clock).paused,
        after == before,
{
}

/// Resuming a paused clock makes it tell, at any later time, what it told during the pause and
/// the time since.
pub proof fn law_resumed_clock_runs_on(
    clock: &mut PlaybackClock,
    now: u128,
    later: u128,
    before: u128,
    after: u128,
)
    requires
        old(clock).paused,
        now <= later,
        call_ensures(PlaybackClock::elapsed, (&*old(clock), now), before),
        before <= now,
        call_ensures(PlaybackClock::toggle, (clock, now), ()),
        call_ensures(PlaybackClock::elapsed, (&*final(clock), later), after),
    ensures
        !final(clock).paused,
        after - before == later - now,
{
}

/// A clock that was started tells the time since.
pub proof fn law_started_clock_tells_time(
    clock: PlaybackClock,
    begin: u128,
    now: u128,
    position: u128,
)
    requires
        begin <= now,
        call_ensures(PlaybackClock::start, (begin,), clock),
        call_ensures(PlaybackClock::elapsed, (&clock, now), position),
    ensures
        position == now - begin,
{
}

/// Two pictures that are appended one after the other, to whatever frames, give frames that are
/// due as far from each other as the pictures are, if they are not before the first of the
/// stream. The frames before them stay as they are.
pub proof fn law_appended_frames_keep_distance(
    frames: &mut Vec<VideoFrame>,
    more_frames: &mut Vec<VideoFrame>,
    picture: Picture,
    next_picture: Picture,
    timestamp: u128,
    next_timestamp: u128,
    first: &mut Option<u128>,
    same_first: &mut Option<u128>,
)
    requires
        call_ensures(send_picture, (frames, &picture, timestamp, first), ()),
        *old(more_frames) == *final(frames),
        *old(same_first) == *final(first),
        call_ensures(send_picture, (more_frames, &next_picture, next_timestamp, same_first), ()),
        *old(first) matches Some(known) ==> known <= timestamp && known <= next_timestamp,
        timestamp <= next_timestamp,
    ensures
        ({
            let all = final(more_frames)@;
            let count = old(frames)@.len() as int;
            &&& all.len() == count + 2
            &&& all.take(count) == old(frames)@
            &&& all[count + 1].timestamp - all[count].timestamp == next_timestamp - timestamp
            &&& all[count].image@ == picture.image()
            &&& all[count + 1].image@ == next_picture.image()
            &&& *old(first) is None ==> all[count].timestamp == 0
        }),
{
    let all = final(more_frames)@;
    let count = old(frames)@.len() as int;
    assert(all.drop_last() == final(frames)@);
    assert(final(frames)@.drop_last() == old(frames)@);
    assert(all[count] == all.drop_last()[count]);
    assert(all.take(count) =~= old(frames)@) by {
        assert forall|i: int| 0 <= i < count implies all[i] == old(frames)@[i] by {
            assert(all[i] == all.drop_last()[i]);
            assert(final(frames)@[i] == final(frames)@.drop_last()[i]);
        }
    }
}

/// A block with a frame, whatever audio it holds, is handed on as it is, and what was kept stays
/// as it is.
pub proof fn law_received_block_is_ready(
    startup: &mut Startup,
    block: CacheBlock,
    step: StartupStep,
)
    requires
        block.frames@.len() > 0,
        call_ensures(Startup::receive, (startup, DecodeEvent::Block(block)), step),
    ensures
        step == StartupStep::Ready(block),
        final(startup)@ == old(startup)@,
{
}

/// A block without a frame is kept behind what was kept before; the end and errors are not kept.
pub proof fn law_received_block_is_kept(startup: &mut Startup, event: DecodeEvent, step: StartupStep)
    requires
        call_ensures(Startup::receive, (startup, event), step),
    ensures
        event matches DecodeEvent::Block(block) ==> (block.frames@.len() == 0 ==> step is Wait
            && final(startup)@.len() == old(startup)@.len() + 1 && final(startup)@.drop_last()
            == old(startup)@ && final(startup)@.last() == event@),
        event !is Block ==> step is Failed && final(startup)@ == old(startup)@,
        event matches DecodeEvent::Error(message) ==> step matches StartupStep::Failed(told)
            && told@ == message@,
{
    if event matches DecodeEvent::Block(block) && block.frames@.len() == 0 {
        assert(final(startup)@.drop_last() =~= old(startup)@);
    }
}

/// A reading worker hands every video packet to the decoder with its own data, duration and
/// presentation time.
pub proof fn law_worker_submits_packet(
    worker: &mut DecodeWorker,
    packet: Packet,
    action: WorkerAction,
)
    requires
        old(worker)@.phase is Reading,
        packet.stream_index == old(worker)@.streams.video_index,
        call_ensures(DecodeWorker::step, (worker, WorkerEvent::Packet(packet)), action),
    ensures
        action is Submit,
        action->data@ == packet.data@,
        action->duration == packet.duration,
        packet.pts matches Some(ticks) ==> action->ticks == ticks,
        packet.pts is None ==> action->ticks == 0,
        final(worker)@.phase is Submitting,
        final(worker)@.frames == old(worker)@.frames,
        final(worker)@.audio == old(worker)@.audio,
{
}

/// A redraw changes nothing in the clock, so that the position at any time is the same before
/// and after it.
pub proof fn law_redraw_does_not_move_clock(
    playback: &mut Playback,
    received: VecDeque<DecodeEvent>,
    now: u128,
    redraw: Redraw,
    later: u128,
)
    requires
        call_ensures(Playback::redraw, (playback, received, now), redraw),
    ensures
        final(playback)@.clock == old(playback)@.clock,
        final(playback)@.clock.position(later) == old(playback)@.clock.position(later),
{
}

/// After the window was resized to a size with pixels, the surface that follows the command has
/// that size, and playback is as it was.
pub proof fn law_resized_window_resizes_surface(
    playback: &mut Playback,
    surface: &mut SurfaceSize,
    width: u32,
    height: u32,
    now: u128,
    command: Command,
    changed: bool,
)
    requires
        width > 0,
        height > 0,
        call_ensures(
            Playback::window_event,
            (playback, WindowEvent::Resized { width, height }, now),
            command,
        ),
        call_ensures(SurfaceSize::resize, (surface, command->width, command->height), changed),
    ensures
        command == (Command::Resize { width, height }),
        changed,
        final(surface).width == width,
        final(surface).height == height,
        final(playback)@ == old(playback)@,
{
}

/// A surface that is resized to a size without pixels stays as it is and need not be configured
/// again.
pub proof fn law_empty_size_is_ignored(
    surface: &mut SurfaceSize,
    width: u32,
    height: u32,
    changed: bool,
)
    requires
        width == 0 || height == 0,
        call_ensures(SurfaceSize::resize, (surface, width, height), changed),
    ensures
        !changed,
        *final(surface) == *old(surface),
{
}

/// Two clicks, with nothing in between, pause and resume: the first silences the audio if
/// playing runs, the second lets it sound again, and the position is the same throughout.
pub proof fn law_two_clicks_pause_and_resume(
    playback: &mut Playback,
    again: &mut Playback,
    now: u128,
    later: u128,
    first: Command,
    second: Command,
)
    requires
        !old(playback)@.clock.paused,
        call_ensures(
            Playback::window_event,
            (
                playback,
                WindowEvent::MouseInput {
                    state: ElementState::Released,
                    button: MouseButton::Left,
                },
                now,
            ),
            first,
        ),
        *old(again) == *final(playback),
        old(again)@.clock.can_toggle(later),
        call_ensures(
            Playback::window_event,
            (
                again,
                WindowEvent::MouseInput {
                    state: ElementState::Released,
                    button: MouseButton::Left,
                },
                later,
            ),
            second,
        ),
    ensures
        first is PauseAudio,
        second is PlayAudio,
        final(playback)@.clock.paused,
        !final(again)@.clock.paused,
        final(again)@.clock.position(later) == old(playback)@.clock.position(now),
        final(again)@.queue == old(playback)@.queue,
        final(again)@.current == old(playback)@.current,
{
}

/// The audio of the first block is handed out once: a second call gives nothing, and neither
/// changes anything else.
pub proof fn law_initial_audio_is_handed_out_once(
    playback: &mut Playback,
    again: &mut Playback,
    audio: Vec<AudioChunk>,
    more: Vec<AudioChunk>,
)
    requires
        call_ensures(Playback::take_initial_audio, (playback,), audio),
        *old(again) == *final(playback),
        call_ensures(Playback::take_initial_audio, (again,), more),
    ensures
        audio@.len() == old(playback)@.initial_audio.len(),
        forall|i: int|
            0 <= i < audio@.len() ==> (#[trigger] audio@[i])@ == old(playback)@.initial_audio[i],
        more@.len() == 0,
        final(again)@.queue == old(playback)@.queue,
        final(again)@.blocks == old(playback)@.blocks,
        final(again)@.pending == old(playback)@.pending,
        final(again)@.current == old(playback)@.current,
        final(again)@.clock == old(playback)@.clock,
        final(again)@.end_received == old(playback)@.end_received,
{
    let taken = chunk_models(audio@);
    assert forall|i: int| 0 <= i < audio@.len() implies (#[trigger] audio@[i])@
        == old(playback)@.initial_audio[i] by {
        assert(taken[i] == audio@[i]@);
    }
    assert(taken.len() == audio@.len());
    assert(chunk_models(more@).len() == more@.len());
}

} // verus!
