//! The wait for the first block that has something to show.
use vstd::prelude::*;
use std::collections::VecDeque;
use crate::decode::{CacheBlock, DecodeEvent, EventModel, BlockModel};
use crate::playback::event_models;

verus! {

/// What came of an event while waiting.
#[derive(Debug, PartialEq, Eq)]
pub enum StartupStep {
    /// Nothing can be shown yet.
    Wait,
    /// Playback can start with this block, which has a frame.
    Ready(CacheBlock),
    /// Playback cannot start.
    Failed(String),
}

/// What a [`StartupStep`] holds.
pub enum StepModel {
    Wait,
    Ready(BlockModel),
    Failed(Seq<char>),
}

impl View for StartupStep {
    type V = StepModel;

    open spec fn view(&self) -> StepModel {
        match self {
            StartupStep::Wait => StepModel::Wait,
            StartupStep::Ready(block) => StepModel::Ready(block@),
            StartupStep::Failed(message) => StepModel::Failed(message@),
        }
    }
}

/// What an event means while waiting: a block with frames ends the wait, a block without is
/// kept for later, and the end or an error is a failure.
pub open spec fn startup_step(event: EventModel) -> StepModel {
    match event {
        EventModel::Block(block) => if block.frames.len() > 0 {
            StepModel::Ready(block)
        } else {
            StepModel::Wait
        },
        EventModel::End => StepModel::Failed("output.mkv contains no decoded AV1 frames"@),
        EventModel::Error(message) => StepModel::Failed(message),
    }
}

/// Waits for the first block with a frame and keeps what comes before it.
pub struct Startup {
    pending: VecDeque<DecodeEvent>,
}

impl View for Startup {
    type V = Seq<EventModel>;

    /// The events that were kept for later.
    closed spec fn view(&self) -> Seq<EventModel> {
        event_models(self.pending@)
    }
}

impl Startup {
    pub fn new() -> (startup: Self)
        ensures
            startup@ == Seq::<EventModel>::empty(),
    {
        let startup = Startup { pending: VecDeque::new() };
        assert(startup@ =~= Seq::empty());
        startup
    }

    /// Takes in the next event of the decoder.
    pub fn receive(&mut self, event: DecodeEvent) -> (step: StartupStep)
        ensures
            step@ == startup_step(event@),
            final(self)@ == if startup_step(event@) is Wait {
                old(self)@.push(event@)
            } else {
                old(self)@
            },
            step matches StartupStep::Ready(block) ==> block.frames@.len() > 0,
            event matches DecodeEvent::Block(block) ==> (block.frames@.len() > 0 ==> step
                == StartupStep::Ready(block)),
    {
        match event {
            DecodeEvent::Block(block) => {
                if block.frames.len() > 0 {
                    StartupStep::Ready(block)
                } else {
                    self.pending.push_back(DecodeEvent::Block(block));
                    assert(self@ =~= old(self)@.push(event@));
                    StartupStep::Wait
                }
            },
            DecodeEvent::End => StartupStep::Failed(
                "output.mkv contains no decoded AV1 frames".to_string(),
            ),
            DecodeEvent::Error(message) => StartupStep::Failed(message),
        }
    }

    /// The events that were kept for later, in order.
    pub fn into_pending(self) -> (pending: VecDeque<DecodeEvent>)
        ensures
            event_models(pending@) == self@,
    {
        self.pending
    }
}

/// Every block with a frame, whatever audio it holds, ends the wait, and playback starts with
/// exactly that block; a block without a frame never does.
pub proof fn law_block_with_frame_is_ready(block: BlockModel)
    ensures
        block.frames.len() > 0 ==> startup_step(EventModel::Block(block)) == StepModel::Ready(block),
        block.frames.len() == 0 ==> startup_step(EventModel::Block(block)) is Wait,
{
}

/// Only the end and errors make starting fail: the end with a message of its own, an error with
/// the message that it carries.
pub proof fn law_only_end_and_errors_fail(event: EventModel)
    ensures
        startup_step(event) is Failed <==> event is End || event is Error,
        event is End ==> startup_step(event)->Failed_0
            == "output.mkv contains no decoded AV1 frames"@,
        event is Error ==> startup_step(event)->Failed_0 == event->Error_0,
{
}

/// What came of an event is taken for what it is, with all that it carries.
pub proof fn law_step_shows_fields(step: StartupStep)
    ensures
        step@ is Wait <==> step is Wait,
        step@ is Ready <==> step is Ready,
        step@ is Failed <==> step is Failed,
        step matches StartupStep::Ready(block) ==> step@->Ready_0 == block@,
        step matches StartupStep::Failed(message) ==> step@->Failed_0 == message@,
{
}

} // verus!
