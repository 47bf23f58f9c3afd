//! What one step of the decoding worker does, event by event.
use vstd::prelude::*;
use crate::audio::{law_samples_are_byte_pairs, ChunkModel};
use crate::decode::{
    ActionModel, BlockModel, EventModel, FrameModel, Packet, Phase, SendOutcome, WorkerEvent,
    WorkerModel,
};
use crate::image::Picture;
use crate::stream::StreamSelection;
use crate::worker_laws::{accepted, run};

verus! {

/// The frames that an action hands over to the player.
pub open spec fn handed_frames(action: ActionModel) -> Seq<FrameModel> {
    match action {
        ActionModel::Send(EventModel::Block(block)) => block.frames,
        _ => Seq::empty(),
    }
}

/// The audio that an action hands over to the player.
pub open spec fn handed_audio(action: ActionModel) -> Seq<ChunkModel> {
    match action {
        ActionModel::Send(EventModel::Block(block)) => block.audio,
        _ => Seq::empty(),
    }
}

/// The two states differ in nothing but the phase.
pub open spec fn same_content(before: WorkerModel, after: WorkerModel) -> bool {
    &&& after.streams == before.streams
    &&& after.first == before.first
    &&& after.frames == before.frames
    &&& after.audio == before.audio
}

/// The packet belongs to the audio stream and not to the video stream.
pub open spec fn is_audio(streams: StreamSelection, packet: Packet) -> bool {
    &&& packet.stream_index != streams.video_index
    &&& streams.audio_index is Some
    &&& packet.stream_index == streams.audio_index->0
}

/// A worker begins with the streams that it was given and with nothing else; it waits for the
/// decoder.
pub proof fn law_worker_begins_with_nothing(streams: StreamSelection)
    ensures
        ({
            let worker = WorkerModel::start(streams);
            &&& worker.streams == streams
            &&& worker.first is None
            &&& worker.frames.len() == 0
            &&& worker.audio.len() == 0
            &&& worker.phase is Opening
        }),
{
}

/// An event is accepted exactly in the phase that it answers, and a picture only if it is
/// complete. Nothing is accepted once the worker has stopped.
pub proof fn law_events_answer_phases(worker: WorkerModel, event: WorkerEvent)
    ensures
        event is Opened || event is OpenFailed ==> (worker.accepts(event) <==> worker.phase is Opening),
        event is Packet || event is EndOfInput ==> (worker.accepts(event)
            <==> worker.phase is Reading),
        event is Submitted ==> (worker.accepts(event) <==> worker.phase is Submitting),
        event is NoPicture ==> (worker.accepts(event) <==> worker.phase is Draining
            || worker.phase is FinalDraining),
        event matches WorkerEvent::Picture { picture, .. } ==> (worker.accepts(event)
            <==> picture.complete() && (worker.phase is Draining || worker.phase is FinalDraining)),
        event is Flushed ==> (worker.accepts(event) <==> worker.phase is Flushing),
        event is Delivered ==> (worker.accepts(event) <==> worker.phase is Delivering
            || worker.phase is FinalDelivering || worker.phase is Ending
            || worker.phase is Failing),
        worker.phase is Stopped ==> !worker.accepts(event),
{
}

/// Reading begins once the decoder is open; if it cannot be opened, the player is told why.
pub proof fn law_opening_decides(worker: WorkerModel, message: String)
    requires
        worker.phase is Opening,
    ensures
        ({
            let (opened, action) = worker.step(WorkerEvent::Opened);
            &&& action is ReadPacket
            &&& opened.phase is Reading
            &&& same_content(worker, opened)
        }),
        ({
            let (failed, action) = worker.step(WorkerEvent::OpenFailed(message));
            &&& action == ActionModel::Send(EventModel::Error(message@))
            &&& failed.phase is Failing
            &&& same_content(worker, failed)
        }),
{
}

/// Every packet of the video stream goes to the decoder as it is, with its data, its duration
/// and its presentation time; only a time that is not known becomes zero. Nothing else changes.
pub proof fn law_video_packet_goes_to_decoder(worker: WorkerModel, packet: Packet)
    requires
        worker.phase is Reading,
        packet.stream_index == worker.streams.video_index,
    ensures
        ({
            let (next, action) = worker.step(WorkerEvent::Packet(packet));
            &&& action is Submit
            &&& action->data == packet.data@
            &&& action->duration == packet.duration
            &&& packet.pts is Some ==> action->ticks == packet.pts->0
            &&& packet.pts is None ==> action->ticks == 0
            &&& next.phase is Submitting
            &&& same_content(worker, next)
        }),
{
}

/// Video packets that differ in their times are told apart by the decoder, whatever their
/// durations: the ticks handed over differ by as much as the times.
pub proof fn law_ticks_keep_distances(worker: WorkerModel, a: Packet, b: Packet)
    requires
        worker.phase is Reading,
        a.stream_index == worker.streams.video_index,
        b.stream_index == worker.streams.video_index,
        a.pts is Some,
        b.pts is Some,
    ensures
        worker.step(WorkerEvent::Packet(b)).1->ticks - worker.step(WorkerEvent::Packet(a)).1->ticks
            == b.pts->0 - a.pts->0,
{
}

/// Every packet of the audio stream becomes one chunk behind the audio that waits, in the format
/// of the stream and with one sample for every two bytes, low byte first. Nothing else changes,
/// and the next packet is read.
pub proof fn law_audio_packet_is_kept(worker: WorkerModel, packet: Packet)
    requires
        worker.phase is Reading,
        is_audio(worker.streams, packet),
    ensures
        ({
            let (next, action) = worker.step(WorkerEvent::Packet(packet));
            let chunk = next.audio.last();
            &&& action is ReadPacket
            &&& next.phase is Reading
            &&& next.streams == worker.streams
            &&& next.first == worker.first
            &&& next.frames == worker.frames
            &&& next.audio.len() == worker.audio.len() + 1
            &&& next.audio.drop_last() == worker.audio
            &&& chunk.channels == worker.streams.audio_channels
            &&& chunk.sample_rate == worker.streams.audio_rate
            &&& chunk.samples.len() == packet.data@.len() / 2
            &&& forall|i: int|
                0 <= i < chunk.samples.len() ==> ((#[trigger] chunk.samples[i]) - (
                packet.data@[2 * i] + 256 * packet.data@[2 * i + 1])) % 0x1_0000 == 0
        }),
{
    law_samples_are_byte_pairs(packet.data@);
    let next = worker.step(WorkerEvent::Packet(packet)).0;
    assert(next.audio.drop_last() =~= worker.audio);
}

/// When the input ends the decoder is flushed, and then its last pictures are fetched.
pub proof fn law_end_of_input_flushes(worker: WorkerModel)
    requires
        worker.phase is Reading,
    ensures
        ({
            let (flushing, flush) = worker.step(WorkerEvent::EndOfInput);
            let (draining, poll) = flushing.step(WorkerEvent::Flushed);
            &&& flush is FlushDecoder
            &&& flushing.phase is Flushing
            &&& same_content(worker, flushing)
            &&& poll is PollPicture
            &&& draining.phase is FinalDraining
            &&& same_content(worker, draining)
        }),
{
}

/// After data was handed over, whatever came of it, pictures are fetched; what came of it is
/// remembered.
pub proof fn law_outcome_is_remembered(worker: WorkerModel, outcome: SendOutcome)
    requires
        worker.phase is Submitting,
    ensures
        ({
            let (next, action) = worker.step(WorkerEvent::Submitted(outcome));
            &&& action is PollPicture
            &&& next.phase == Phase::Draining(outcome)
            &&& same_content(worker, next)
        }),
{
}

/// However many pictures are fetched and blocks are delivered in between, what came of the last
/// handover stays remembered.
pub proof fn law_outcome_stays_remembered(
    worker: WorkerModel,
    outcome: SendOutcome,
    events: Seq<WorkerEvent>,
)
    requires
        worker.phase == Phase::Draining(outcome),
        accepted(worker, events),
        forall|i: int|
            0 <= i < events.len() ==> (#[trigger] events[i]) is Picture || events[i]
                == WorkerEvent::Delivered(true),
    ensures
        run(worker, events).phase == Phase::Draining(outcome) || run(worker, events).phase
            == Phase::Delivering(outcome),
    decreases events.len(),
{
    if events.len() > 0 {
        let earlier = events.drop_last();
        assert(forall|i: int| 0 <= i < earlier.len() ==> #[trigger] earlier[i] == events[i]);
        assert(events.last() == events[events.len() - 1]);
        law_outcome_stays_remembered(worker, outcome, earlier);
    }
}

/// When no picture is left, the next packet is read if the data was accepted, the kept data is
/// handed over again if the decoder could not take it yet, and otherwise the player is told what
/// went wrong. What waits goes on waiting.
pub proof fn law_outcome_decides(worker: WorkerModel, outcome: SendOutcome)
    requires
        worker.phase == Phase::Draining(outcome),
    ensures
        ({
            let (next, action) = worker.step(WorkerEvent::NoPicture);
            &&& same_content(worker, next)
            &&& outcome is Accepted ==> action is ReadPacket && next.phase is Reading
            &&& outcome is TryAgain ==> action is SubmitPending && next.phase is Submitting
            &&& outcome matches SendOutcome::Failed(message) ==> action == ActionModel::Send(
                EventModel::Error(message@),
            ) && next.phase is Failing
        }),
{
}

/// Every picture becomes one frame behind all that wait, with the image of the picture. The
/// first picture of the stream is due at once and sets the time; a later one is due as long
/// after that as its presentation time is after the first, or at once if it is not after it.
pub proof fn law_picture_becomes_frame(worker: WorkerModel, picture: Picture, timestamp: u128)
    requires
        worker.phase is Draining || worker.phase is FinalDraining,
    ensures
        ({
            let (next, action) = worker.step(WorkerEvent::Picture { picture, timestamp });
            let frames = handed_frames(action) + next.frames;
            &&& frames.len() == worker.frames.len() + 1
            &&& frames.drop_last() == worker.frames
            &&& frames.last().image == picture.image()
            &&& worker.first is None ==> frames.last().timestamp == 0 && next.first == Some(
                timestamp as int,
            )
            &&& worker.first is Some ==> next.first == worker.first
            &&& worker.first is Some && timestamp >= worker.first->0 ==> frames.last().timestamp
                == timestamp - worker.first->0
            &&& worker.first is Some && timestamp < worker.first->0 ==> frames.last().timestamp
                == 0
            &&& handed_audio(action) + next.audio == worker.audio
            &&& next.streams == worker.streams
        }),
{
    let (next, action) = worker.step(WorkerEvent::Picture { picture, timestamp });
    let frames = handed_frames(action) + next.frames;
    assert(frames.drop_last() =~= worker.frames);
    assert(handed_audio(action) + next.audio =~= worker.audio);
}

/// Frame times keep the distances of presentation times: two pictures at or after the first one
/// become frames that are due as far from each other as the pictures are.
pub proof fn law_pictures_keep_distances(
    worker: WorkerModel,
    picture: Picture,
    other: Picture,
    a: u128,
    b: u128,
)
    requires
        worker.phase is Draining || worker.phase is FinalDraining,
        worker.first is Some,
        worker.first->0 <= a,
        worker.first->0 <= b,
    ensures
        ({
            let (one, to_one) = worker.step(
                WorkerEvent::Picture { picture, timestamp: a },
            );
            let (two, to_two) = worker.step(
                WorkerEvent::Picture { picture: other, timestamp: b },
            );
            (handed_frames(to_two) + two.frames).last().timestamp - (handed_frames(to_one)
                + one.frames).last().timestamp == b - a
        }),
{
    law_picture_becomes_frame(worker, picture, a);
    law_picture_becomes_frame(worker, other, b);
}

/// While the input lasts, the twelfth frame completes a block: it is handed over at once, with
/// all audio that waits, and nothing is left. Until then pictures are fetched on.
pub proof fn law_twelve_frames_make_a_block(
    worker: WorkerModel,
    outcome: SendOutcome,
    picture: Picture,
    timestamp: u128,
)
    requires
        worker.phase == Phase::Draining(outcome),
        worker.frames.len() < 12,
    ensures
        ({
            let (next, action) = worker.step(WorkerEvent::Picture { picture, timestamp });
            &&& worker.frames.len() < 11 ==> {
                &&& action is PollPicture
                &&& next.phase == worker.phase
                &&& next.audio == worker.audio
                &&& next.frames.len() == worker.frames.len() + 1
            }
            &&& worker.frames.len() == 11 ==> {
                &&& action is Send
                &&& action->Send_0 is Block
                &&& handed_frames(action).len() == 12
                &&& handed_audio(action) == worker.audio
                &&& next.frames.len() == 0
                &&& next.audio.len() == 0
                &&& next.phase == Phase::Delivering(outcome)
            }
        }),
{
}

/// After the input has ended, frames gather without limit until no picture is left; then all
/// that waits is handed over as one block, or the end is announced if nothing waits.
pub proof fn law_last_block_takes_all(worker: WorkerModel, picture: Picture, timestamp: u128)
    requires
        worker.phase is FinalDraining,
    ensures
        ({
            let (next, action) = worker.step(WorkerEvent::Picture { picture, timestamp });
            &&& action is PollPicture
            &&& next.phase is FinalDraining
            &&& next.frames.len() == worker.frames.len() + 1
            &&& next.audio == worker.audio
        }),
        ({
            let (next, action) = worker.step(WorkerEvent::NoPicture);
            &&& next.frames.len() == 0
            &&& next.audio.len() == 0
            &&& next.first == worker.first
            &&& next.streams == worker.streams
            &&& worker.frames.len() > 0 || worker.audio.len() > 0 ==> {
                &&& action == ActionModel::Send(
                    EventModel::Block(BlockModel { frames: worker.frames, audio: worker.audio }),
                )
                &&& next.phase is FinalDelivering
            }
            &&& worker.frames.len() == 0 && worker.audio.len() == 0 ==> {
                &&& action == ActionModel::Send(EventModel::End)
                &&& next.phase is Ending
            }
        }),
{
}

/// After a delivered block pictures are fetched on; after the last block the end is announced;
/// after the end or an error the worker stops. Nothing else changes.
pub proof fn law_delivery_goes_on(worker: WorkerModel)
    requires
        worker.accepts(WorkerEvent::Delivered(true)),
    ensures
        ({
            let (next, action) = worker.step(WorkerEvent::Delivered(true));
            &&& same_content(worker, next)
            &&& worker.phase matches Phase::Delivering(outcome) ==> action is PollPicture
                && next.phase == Phase::Draining(outcome)
            &&& worker.phase is FinalDelivering ==> action == ActionModel::Send(EventModel::End)
                && next.phase is Ending
            &&& worker.phase is Ending || worker.phase is Failing ==> action is Stop
                && next.phase is Stopped
        }),
{
}

/// Only pictures bring frames and only packets of the audio stream bring audio: with any other
/// event, what is handed over together with what waits is what waited before. The streams never
/// change, and the time is set once.
pub proof fn law_step_conserves_content(worker: WorkerModel, event: WorkerEvent)
    requires
        worker.accepts(event),
    ensures
        ({
            let (next, action) = worker.step(event);
            &&& next.streams == worker.streams
            &&& worker.first is Some || event !is Picture ==> next.first == worker.first
            &&& event !is Picture ==> handed_frames(action) + next.frames == worker.frames
            &&& !(event matches WorkerEvent::Packet(packet) && is_audio(worker.streams, packet))
                ==> handed_audio(action) + next.audio == worker.audio
        }),
{
    let (next, action) = worker.step(event);
    if event !is Picture {
        assert(handed_frames(action) + next.frames =~= worker.frames);
    }
    if !(event matches WorkerEvent::Packet(packet) && is_audio(worker.streams, packet)) {
        assert(handed_audio(action) + next.audio =~= worker.audio);
    }
}

/// A block is sent in two cases only: a picture completes it, or no picture is left after the
/// input has ended. The end is announced only after the last pictures, and an error only where
/// something failed.
pub proof fn law_what_is_sent_when(worker: WorkerModel, event: WorkerEvent)
    requires
        worker.accepts(event),
    ensures
        ({
            let action = worker.step(event).1;
            &&& action matches ActionModel::Send(EventModel::Block(_)) ==> (event is Picture
                && worker.phase is Draining) || (event is NoPicture && worker.phase is FinalDraining)
            &&& action == ActionModel::Send(EventModel::End) ==> (event is NoPicture
                && worker.phase is FinalDraining) || (event == WorkerEvent::Delivered(true)
                && worker.phase is FinalDelivering)
            &&& action matches ActionModel::Send(EventModel::Error(_)) ==> event is OpenFailed
                || event == WorkerEvent::Delivered(false) || (event is NoPicture
                && worker.phase is Draining && worker.phase->Draining_0 is Failed)
        }),
{
}

/// Once an error was announced the worker stops, whether or not the player could receive it.
pub proof fn law_failure_stops_worker(worker: WorkerModel, delivered: bool)
    requires
        worker.phase is Failing,
    ensures
        worker.step(WorkerEvent::Delivered(delivered)).1 is Stop,
        worker.step(WorkerEvent::Delivered(delivered)).0.phase is Stopped,
        same_content(worker, worker.step(WorkerEvent::Delivered(delivered)).0),
{
}

} // verus!
