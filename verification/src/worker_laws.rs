//! What holds of a decoding worker over a whole run.
use vstd::prelude::*;
use crate::audio::{pcm_samples, ChunkModel};
use crate::decode::{
    audio_of, blocks_in, frames_of, in_time_order, relative_frame, relative_time, ActionModel,
    BlockModel, EventModel, FrameModel, Packet, Phase, WorkerEvent, WorkerModel, CACHE_BLOCK_FRAMES,
};
use crate::image::{law_image_of_picture_is_wf, Picture};
use crate::stream::StreamSelection;

verus! {

/// The worker after a run of events.
pub open spec fn run(worker: WorkerModel, events: Seq<WorkerEvent>) -> WorkerModel
    decreases events.len(),
{
    if events.len() == 0 {
        worker
    } else {
        run(worker, events.drop_last()).step(events.last()).0
    }
}

/// Each event of the run answers what the worker waits for.
pub open spec fn accepted(worker: WorkerModel, events: Seq<WorkerEvent>) -> bool
    decreases events.len(),
{
    events.len() == 0 || {
        &&& accepted(worker, events.drop_last())
        &&& run(worker, events.drop_last()).accepts(events.last())
    }
}

/// What the worker sends to the player during a run.
pub open spec fn sent(worker: WorkerModel, events: Seq<WorkerEvent>) -> Seq<EventModel>
    decreases events.len(),
{
    if events.len() == 0 {
        Seq::empty()
    } else {
        let before = sent(worker, events.drop_last());
        match run(worker, events.drop_last()).step(events.last()).1 {
            ActionModel::Send(event) => before.push(event),
            _ => before,
        }
    }
}

/// The frames of all blocks among the events, in order.
pub open spec fn sent_frames(output: Seq<EventModel>) -> Seq<FrameModel> {
    frames_of(blocks_in(output))
}

/// The audio of all blocks among the events, in order.
pub open spec fn sent_audio(output: Seq<EventModel>) -> Seq<ChunkModel> {
    audio_of(blocks_in(output))
}

/// The presentation time of the first picture that was decoded.
pub open spec fn first_time(events: Seq<WorkerEvent>) -> Option<int>
    decreases events.len(),
{
    if events.len() == 0 {
        None
    } else {
        match (first_time(events.drop_last()), events.last()) {
            (Some(first), _) => Some(first),
            (None, WorkerEvent::Picture { timestamp, .. }) => Some(timestamp as int),
            _ => None,
        }
    }
}

/// The frames of all decoded pictures, in the order of decoding, timed from `first`.
pub open spec fn decoded_frames(events: Seq<WorkerEvent>, first: int) -> Seq<FrameModel>
    decreases events.len(),
{
    if events.len() == 0 {
        Seq::empty()
    } else {
        let before = decoded_frames(events.drop_last(), first);
        match events.last() {
            WorkerEvent::Picture { picture, timestamp } => before.push(
                relative_frame(picture, timestamp as int, first),
            ),
            _ => before,
        }
    }
}

/// The frames of all decoded pictures, timed from the first of them.
pub open spec fn all_frames(events: Seq<WorkerEvent>) -> Seq<FrameModel> {
    decoded_frames(events, first_time(events).unwrap_or(0))
}

/// The audio of all packets of the audio stream, in the order of reading.
pub open spec fn decoded_audio(streams: StreamSelection, events: Seq<WorkerEvent>) -> Seq<ChunkModel>
    decreases events.len(),
{
    if events.len() == 0 {
        Seq::empty()
    } else {
        let before = decoded_audio(streams, events.drop_last());
        match events.last() {
            WorkerEvent::Packet(packet) => if packet.stream_index != streams.video_index
                && streams.audio_index == Some(packet.stream_index) {
                before.push(
                    ChunkModel {
                        channels: streams.audio_channels as int,
                        sample_rate: streams.audio_rate as int,
                        samples: pcm_samples(packet.data@),
                    },
                )
            } else {
                before
            },
            _ => before,
        }
    }
}

/// A block that holds something.
pub open spec fn nonempty(block: BlockModel) -> bool {
    block.frames.len() > 0 || block.audio.len() > 0
}

/// No picture and no audio packet is lost, doubled or reordered: at any time, what was sent
/// together with what waits is all that was decoded, with every frame timed from the first
/// picture.
pub proof fn law_nothing_is_lost(streams: StreamSelection, events: Seq<WorkerEvent>)
    requires
        accepted(WorkerModel::start(streams), events),
    ensures
        ({
            let worker = run(WorkerModel::start(streams), events);
            let output = sent(WorkerModel::start(streams), events);
            &&& worker.wf()
            &&& worker.streams == streams
            &&& worker.first == first_time(events)
            &&& sent_frames(output) + worker.frames == all_frames(events)
            &&& sent_audio(output) + worker.audio == decoded_audio(streams, events)
        }),
    decreases events.len(),
{
    let start = WorkerModel::start(streams);
    if events.len() > 0 {
        let earlier = events.drop_last();
        let event = events.last();
        law_nothing_is_lost(streams, earlier);
        let before = run(start, earlier);
        let output = sent(start, earlier);
        let (after, action) = before.step(event);
        lemma_first_time(earlier, first_time(earlier).unwrap_or(0));
        lemma_first_time(earlier, first_time(events).unwrap_or(0));
        assert(decoded_frames(earlier, first_time(events).unwrap_or(0)) =~= all_frames(earlier));
        if let ActionModel::Send(message) = action {
            assert(output.push(message).drop_last() =~= output);
            if let EventModel::Block(block) = message {
                assert(blocks_in(output).push(block).drop_last() =~= blocks_in(output));
            }
        }
        assert(sent_frames(sent(start, events)) + after.frames =~= all_frames(events));
        assert(sent_audio(sent(start, events)) + after.audio =~= decoded_audio(streams, events));
    } else {
        assert(sent_frames(sent(start, events)) + start.frames =~= all_frames(events));
        assert(sent_audio(sent(start, events)) + start.audio =~= decoded_audio(streams, events));
    }
}

/// A block of exactly as many frames as a block takes.
pub open spec fn is_full(event: EventModel) -> bool {
    event matches EventModel::Block(block) && block.frames.len() == CACHE_BLOCK_FRAMES
}

/// What may stand after what among the events sent: a block only after full blocks, the end
/// only after blocks, and nothing after an error.
pub open spec fn in_order(earlier: EventModel, later: EventModel) -> bool {
    match later {
        EventModel::Block(_) => is_full(earlier),
        EventModel::End => earlier is Block,
        EventModel::Error(_) => earlier !is Error,
    }
}

/// The events sent are in order, no block is empty, and what the last of them is depends on
/// the phase.
spec fn shaped(phase: Phase, output: Seq<EventModel>) -> bool {
    &&& forall|i: int, j: int|
        0 <= i < j < output.len() ==> in_order(#[trigger] output[i], #[trigger] output[j])
    &&& forall|i: int|
        0 <= i < output.len() ==> ((#[trigger] output[i]) matches EventModel::Block(block)
            ==> nonempty(block))
    &&& match phase {
        Phase::FinalDelivering => forall|i: int|
            0 <= i < output.len() ==> (#[trigger] output[i]) is Block,
        Phase::Ending => output.len() > 0 && output.last() is End,
        Phase::Failing => output.len() > 0 && output.last() is Error,
        Phase::Stopped => output.len() > 0 && output.last() !is Block,
        _ => forall|i: int| 0 <= i < output.len() ==> is_full(#[trigger] output[i]),
    }
}

proof fn lemma_shaped(streams: StreamSelection, events: Seq<WorkerEvent>)
    requires
        accepted(WorkerModel::start(streams), events),
    ensures
        shaped(
            run(WorkerModel::start(streams), events).phase,
            sent(WorkerModel::start(streams), events),
        ),
    decreases events.len(),
{
    if events.len() > 0 {
        lemma_shaped(streams, events.drop_last());
        law_nothing_is_lost(streams, events.drop_last());
    }
}

/// Whatever the worker sends comes in this order: full blocks, then perhaps one block of any
/// size, then perhaps the end, then perhaps an error. No block is empty, and a worker that has
/// stopped has announced the end or an error last.
pub proof fn law_events_are_in_order(streams: StreamSelection, events: Seq<WorkerEvent>)
    requires
        accepted(WorkerModel::start(streams), events),
    ensures
        ({
            let output = sent(WorkerModel::start(streams), events);
            &&& forall|i: int, j: int|
                0 <= i < j < output.len() ==> in_order(#[trigger] output[i], #[trigger] output[j])
            &&& forall|i: int|
                0 <= i < output.len() ==> ((#[trigger] output[i]) matches EventModel::Block(block)
                    ==> nonempty(block))
            &&& run(WorkerModel::start(streams), events).phase is Stopped ==> output.len() > 0
                && output.last() !is Block
        }),
{
    lemma_shaped(streams, events);
}

/// Once the end is announced, everything that was decoded has been sent.
pub proof fn law_end_means_complete(streams: StreamSelection, events: Seq<WorkerEvent>)
    requires
        accepted(WorkerModel::start(streams), events),
        sent(WorkerModel::start(streams), events).contains(EventModel::End),
    ensures
        sent_frames(sent(WorkerModel::start(streams), events)) == all_frames(events),
        sent_audio(sent(WorkerModel::start(streams), events)) == decoded_audio(streams, events),
{
    lemma_nothing_waits_after_end(streams, events);
    law_nothing_is_lost(streams, events);
    let worker = run(WorkerModel::start(streams), events);
    let output = sent(WorkerModel::start(streams), events);
    assert(sent_frames(output) + worker.frames =~= sent_frames(output));
    assert(sent_audio(output) + worker.audio =~= sent_audio(output));
}

proof fn lemma_nothing_waits_after_end(streams: StreamSelection, events: Seq<WorkerEvent>)
    requires
        accepted(WorkerModel::start(streams), events),
        sent(WorkerModel::start(streams), events).contains(EventModel::End),
    ensures
        run(WorkerModel::start(streams), events).frames.len() == 0,
        run(WorkerModel::start(streams), events).audio.len() == 0,
    decreases events.len(),
{
    let start = WorkerModel::start(streams);
    let output = sent(start, events);
    let earlier = events.drop_last();
    lemma_shaped(streams, earlier);
    law_nothing_is_lost(streams, earlier);
    if sent(start, earlier).contains(EventModel::End) {
        lemma_nothing_waits_after_end(streams, earlier);
        let k = sent(start, earlier).index_of(EventModel::End);
        assert(!is_full(sent(start, earlier)[k]));
    } else {
        let k = output.index_of(EventModel::End);
        assert(output[k] is End);
        assert(k == output.len() - 1);
    }
}

/// The first frame is due at once, and no frame is due before it.
pub proof fn law_time_starts_with_first_frame(events: Seq<WorkerEvent>)
    ensures
        all_frames(events).len() > 0 ==> all_frames(events)[0].timestamp == 0,
        forall|i: int|
            0 <= i < all_frames(events).len() ==> (#[trigger] all_frames(events)[i]).timestamp >= 0,
    decreases events.len(),
{
    if events.len() > 0 {
        let earlier = events.drop_last();
        let before = all_frames(earlier);
        let frames = all_frames(events);
        law_time_starts_with_first_frame(earlier);
        lemma_first_time(earlier, first_time(events).unwrap_or(0));
        if first_time(earlier) is Some {
            assert(frames.len() >= before.len());
            assert(forall|i: int| 0 <= i < before.len() ==> #[trigger] frames[i] == before[i]);
        }
    }
}

/// The pictures are decoded in the order of their presentation times.
pub open spec fn pictures_in_time_order(events: Seq<WorkerEvent>) -> bool {
    forall|i: int, j: int|
        0 <= i < j < events.len() && (#[trigger] events[i]) is Picture && (#[trigger] events[j]) is Picture
            ==> events[i]->timestamp <= events[j]->timestamp
}

/// Pictures that are decoded in the order of their presentation times give frames that are due
/// in the order in which they are sent.
pub proof fn law_order_of_times_is_kept(events: Seq<WorkerEvent>, first: int)
    requires
        pictures_in_time_order(events),
    ensures
        in_time_order(decoded_frames(events, first)),
    decreases events.len(),
{
    if events.len() > 0 {
        let earlier = events.drop_last();
        assert(forall|i: int| 0 <= i < earlier.len() ==> #[trigger] earlier[i] == events[i]);
        assert(events.last() == events[events.len() - 1]);
        law_order_of_times_is_kept(earlier, first);
        let before = decoded_frames(earlier, first);
        let frames = decoded_frames(events, first);
        if let WorkerEvent::Picture { picture, timestamp } = events.last() {
            lemma_times_bounded(earlier, first, timestamp as int);
            assert forall|i: int, j: int| 0 <= i < j < frames.len() implies (
            #[trigger] frames[i]).timestamp <= (#[trigger] frames[j]).timestamp by {
                assert(frames[i] == before[i]);
                if j < before.len() {
                    assert(frames[j] == before[j]);
                }
            }
        }
    }
}

proof fn lemma_times_bounded(events: Seq<WorkerEvent>, first: int, bound: int)
    requires
        forall|i: int|
            0 <= i < events.len() && (#[trigger] events[i]) is Picture ==> events[i]->timestamp
                <= bound,
    ensures
        forall|i: int|
            0 <= i < decoded_frames(events, first).len() ==> (#[trigger] decoded_frames(
                events,
                first,
            )[i]).timestamp <= relative_time(bound, first),
    decreases events.len(),
{
    if events.len() > 0 {
        let earlier = events.drop_last();
        assert(forall|i: int| 0 <= i < earlier.len() ==> #[trigger] earlier[i] == events[i]);
        assert(events.last() == events[events.len() - 1]);
        lemma_times_bounded(earlier, first, bound);
        let before = decoded_frames(earlier, first);
        let frames = decoded_frames(events, first);
        assert forall|i: int| 0 <= i < frames.len() implies (#[trigger] frames[i]).timestamp
            <= relative_time(bound, first) by {
            if i < before.len() {
                assert(frames[i] == before[i]);
            }
        }
    }
}

/// Every frame that is sent has an image with half-resolution chroma and a byte for every
/// sample, so that it fills the textures it is drawn from.
pub proof fn law_sent_images_are_wf(streams: StreamSelection, events: Seq<WorkerEvent>, i: int)
    requires
        accepted(WorkerModel::start(streams), events),
        0 <= i < sent_frames(sent(WorkerModel::start(streams), events)).len(),
    ensures
        sent_frames(sent(WorkerModel::start(streams), events))[i].image.wf(),
{
    law_nothing_is_lost(streams, events);
    let output = sent_frames(sent(WorkerModel::start(streams), events));
    let waiting = run(WorkerModel::start(streams), events).frames;
    lemma_images_wf(events, first_time(events).unwrap_or(0));
    assert((output + waiting)[i] == output[i]);
    assert(all_frames(events)[i].image.wf());
}

proof fn lemma_images_wf(events: Seq<WorkerEvent>, first: int)
    ensures
        forall|i: int|
            0 <= i < decoded_frames(events, first).len() ==> (#[trigger] decoded_frames(
                events,
                first,
            )[i]).image.wf(),
    decreases events.len(),
{
    if events.len() > 0 {
        let before = decoded_frames(events.drop_last(), first);
        let frames = decoded_frames(events, first);
        lemma_images_wf(events.drop_last(), first);
        if let WorkerEvent::Picture { picture, .. } = events.last() {
            law_image_of_picture_is_wf(picture);
        }
        assert forall|i: int| 0 <= i < frames.len() implies (#[trigger] frames[i]).image.wf() by {
            if i < before.len() {
                assert(frames[i] == before[i]);
            }
        }
    }
}

/// A packet of a stream that is not played changes nothing: the next one is read.
pub proof fn law_other_packets_are_passed_over(worker: WorkerModel, packet: Packet)
    requires
        worker.phase is Reading,
        packet.stream_index != worker.streams.video_index,
        worker.streams.audio_index != Some(packet.stream_index),
    ensures
        worker.step(WorkerEvent::Packet(packet)) == (worker, ActionModel::ReadPacket),
{
}

/// A worker whose block or end cannot be delivered says that the window was closed, and then
/// stops, whether or not that can be delivered.
pub proof fn law_closed_window_stops_worker(worker: WorkerModel, delivered: bool)
    requires
        worker.phase is Delivering || worker.phase is FinalDelivering || worker.phase is Ending,
    ensures
        ({
            let (failing, action) = worker.step(WorkerEvent::Delivered(false));
            &&& action == ActionModel::Send(EventModel::Error("playback window closed"@))
            &&& failing.accepts(WorkerEvent::Delivered(delivered))
            &&& failing.step(WorkerEvent::Delivered(delivered)).1 is Stop
            &&& failing.step(WorkerEvent::Delivered(delivered)).0.phase is Stopped
        }),
{
}

proof fn lemma_first_time(events: Seq<WorkerEvent>, first: int)
    ensures
        first_time(events) is None <==> decoded_frames(events, first).len() == 0,
    decreases events.len(),
{
    if events.len() > 0 {
        lemma_first_time(events.drop_last(), first);
    }
}

/// The decoded pictures with their presentation times, in the order of decoding.
pub open spec fn pictures(events: Seq<WorkerEvent>) -> Seq<(Picture, int)>
    decreases events.len(),
{
    if events.len() == 0 {
        Seq::empty()
    } else {
        match events.last() {
            WorkerEvent::Picture { picture, timestamp } => pictures(events.drop_last()).push(
                (picture, timestamp as int),
            ),
            _ => pictures(events.drop_last()),
        }
    }
}

/// There is one frame for every decoded picture, in the same order. It shows the image of its
/// picture and is due as long after the start as its picture is after the first one, or at once
/// if it is not after it.
pub proof fn law_frames_follow_pictures(events: Seq<WorkerEvent>)
    ensures
        all_frames(events).len() == pictures(events).len(),
        forall|i: int|
            0 <= i < pictures(events).len() ==> (#[trigger] all_frames(events)[i]).image
                == pictures(events)[i].0.image(),
        forall|i: int|
            0 <= i < pictures(events).len() && pictures(events)[0].1 <= pictures(events)[i].1
                ==> pictures(events)[0].1 + (#[trigger] all_frames(events)[i]).timestamp
                == pictures(events)[i].1,
        forall|i: int|
            0 <= i < pictures(events).len() && pictures(events)[i].1 < pictures(events)[0].1 ==> (
            #[trigger] all_frames(events)[i]).timestamp == 0,
{
    lemma_first_picture(events);
    lemma_decoded_frames(events, first_time(events).unwrap_or(0));
}

/// Over a whole run, frames whose pictures are at or after the first one are due as far from
/// each other as their pictures are.
pub proof fn law_run_keeps_distances(events: Seq<WorkerEvent>, i: int, j: int)
    requires
        0 <= i < pictures(events).len(),
        0 <= j < pictures(events).len(),
        pictures(events)[0].1 <= pictures(events)[i].1,
        pictures(events)[0].1 <= pictures(events)[j].1,
    ensures
        all_frames(events)[j].timestamp - all_frames(events)[i].timestamp == pictures(events)[j].1
            - pictures(events)[i].1,
{
    law_frames_follow_pictures(events);
}

proof fn lemma_first_picture(events: Seq<WorkerEvent>)
    ensures
        first_time(events) == if pictures(events).len() == 0 {
            None
        } else {
            Some(pictures(events)[0].1)
        },
    decreases events.len(),
{
    if events.len() > 0 {
        lemma_first_picture(events.drop_last());
    }
}

proof fn lemma_decoded_frames(events: Seq<WorkerEvent>, first: int)
    ensures
        decoded_frames(events, first) == Seq::new(
            pictures(events).len(),
            |i: int| relative_frame(pictures(events)[i].0, pictures(events)[i].1, first),
        ),
    decreases events.len(),
{
    if events.len() > 0 {
        lemma_decoded_frames(events.drop_last(), first);
    }
    assert(decoded_frames(events, first) =~= Seq::new(
        pictures(events).len(),
        |i: int| relative_frame(pictures(events)[i].0, pictures(events)[i].1, first),
    ));
}

} // verus!
