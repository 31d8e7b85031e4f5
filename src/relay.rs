//! The decisions of the background relay, which decodes each raw log and
//! forwards it to the consumer, and of the monitoring stream, which turns the
//! forwarded items into initiator events. The tasks and the channel between
//! them run outside; each step of theirs is decided here.
use vstd::prelude::*;
use crate::decode::{convert_log_to_event, log_spec, result_model, DecodeError, EventSignatures, RawLog};
use crate::types::{BridgeContractInitiatorEvent, InitiatorEventModel, MoveCounterpartyEvent};

verus! {

/// What the relay forwards: a contract event or its decode error, tagged by
/// the contract's role, or nothing to report.
#[derive(Debug, PartialEq, Eq)]
pub enum AbstractBlockainEvent {
    InitiatorContractEvent(Result<BridgeContractInitiatorEvent, DecodeError>),
    CounterpartyContractEvent(Result<MoveCounterpartyEvent, DecodeError>),
    Noop,
}

/// The content of a forwarded item that the initiator stream reads.
pub enum AbstractModel {
    Initiator(Result<InitiatorEventModel, DecodeError>),
    Counterparty,
    Noop,
}

impl View for AbstractBlockainEvent {
    type V = AbstractModel;

    open spec fn view(&self) -> AbstractModel {
        match self {
            AbstractBlockainEvent::InitiatorContractEvent(r) => AbstractModel::Initiator(result_model(*r)),
            AbstractBlockainEvent::CounterpartyContractEvent(_) => AbstractModel::Counterparty,
            AbstractBlockainEvent::Noop => AbstractModel::Noop,
        }
    }
}

/// Whether the relay still forwards.
#[derive(Debug, Clone, Copy, PartialEq, Eq, Structural)]
pub enum RelayState {
    Running,
    Stopped,
}

/// What happened since the relay's last step.
#[derive(Debug, PartialEq, Eq)]
pub enum RelayInput {
    /// The subscription delivered a raw log.
    LogArrived(RawLog),
    /// The subscription ended.
    SubscriptionEnded,
    /// The last forwarded item reached the channel.
    Delivered,
    /// The channel's receiving end is gone.
    ReceiverGone,
}

/// What the relay does next.
#[derive(Debug, PartialEq, Eq)]
pub enum RelayAction {
    /// Send this item on the channel.
    Forward(AbstractBlockainEvent),
    /// Wait for the subscription's next log.
    AwaitNext,
    /// End the relay task.
    Stop,
}

pub enum RelayActionModel {
    Forward(AbstractModel),
    AwaitNext,
    Stop,
}

impl View for RelayAction {
    type V = RelayActionModel;

    open spec fn view(&self) -> RelayActionModel {
        match self {
            RelayAction::Forward(e) => RelayActionModel::Forward(e@),
            RelayAction::AwaitNext => RelayActionModel::AwaitNext,
            RelayAction::Stop => RelayActionModel::Stop,
        }
    }
}

/// The relay's next state and action.
pub open spec fn relay_step_spec(sigs: EventSignatures, state: RelayState, input: RelayInput) -> (RelayState, RelayActionModel) {
    match state {
        RelayState::Stopped => (RelayState::Stopped, RelayActionModel::Stop),
        RelayState::Running => match input {
            RelayInput::LogArrived(log) => (
                RelayState::Running,
                RelayActionModel::Forward(AbstractModel::Initiator(log_spec(sigs, log))),
            ),
            RelayInput::Delivered => (RelayState::Running, RelayActionModel::AwaitNext),
            RelayInput::SubscriptionEnded => (RelayState::Stopped, RelayActionModel::Stop),
            RelayInput::ReceiverGone => (RelayState::Stopped, RelayActionModel::Stop),
        },
    }
}

/// One step of the relay: a raw log is decoded and forwarded, success or
/// failure alike; the end of the subscription or of the receiver stops it for good.
pub fn relay_step(sigs: &EventSignatures, state: RelayState, input: RelayInput) -> (r: (RelayState, RelayAction))
    ensures
        (r.0, r.1@) == relay_step_spec(*sigs, state, input),
{
    match state {
        RelayState::Stopped => (RelayState::Stopped, RelayAction::Stop),
        RelayState::Running => match input {
            RelayInput::LogArrived(log) => {
                let event = convert_log_to_event(sigs, &log);
                (RelayState::Running, RelayAction::Forward(AbstractBlockainEvent::InitiatorContractEvent(event)))
            },
            RelayInput::Delivered => (RelayState::Running, RelayAction::AwaitNext),
            RelayInput::SubscriptionEnded => (RelayState::Stopped, RelayAction::Stop),
            RelayInput::ReceiverGone => (RelayState::Stopped, RelayAction::Stop),
        },
    }
}

/// What a poll of the channel's receiving end found.
#[derive(Debug, PartialEq, Eq)]
pub enum ChannelPoll {
    /// No item yet; the sender is still there.
    Pending,
    /// The sender is gone and every item was taken.
    Closed,
    /// The next item.
    Ready(AbstractBlockainEvent),
}

pub enum ChannelPollModel {
    Pending,
    Closed,
    Ready(AbstractModel),
}

impl View for ChannelPoll {
    type V = ChannelPollModel;

    open spec fn view(&self) -> ChannelPollModel {
        match self {
            ChannelPoll::Pending => ChannelPollModel::Pending,
            ChannelPoll::Closed => ChannelPollModel::Closed,
            ChannelPoll::Ready(e) => ChannelPollModel::Ready(e@),
        }
    }
}

/// What the initiator monitoring stream does with a poll's result.
#[derive(Debug, PartialEq, Eq)]
pub enum StreamStep {
    /// Hand this event to the consumer.
    Emit(BridgeContractInitiatorEvent),
    /// Log this decode error and poll again.
    SkipError(DecodeError),
    /// Log an item of another contract role and poll again.
    SkipUnexpected,
    /// Poll again: the item reports nothing.
    SkipNoop,
    /// Nothing is ready yet.
    Pending,
    /// Nothing will ever come again.
    Exhausted,
}

pub enum StreamStepModel {
    Emit(InitiatorEventModel),
    SkipError(DecodeError),
    SkipUnexpected,
    SkipNoop,
    Pending,
    Exhausted,
}

impl View for StreamStep {
    type V = StreamStepModel;

    open spec fn view(&self) -> StreamStepModel {
        match self {
            StreamStep::Emit(e) => StreamStepModel::Emit(e@),
            StreamStep::SkipError(x) => StreamStepModel::SkipError(*x),
            StreamStep::SkipUnexpected => StreamStepModel::SkipUnexpected,
            StreamStep::SkipNoop => StreamStepModel::SkipNoop,
            StreamStep::Pending => StreamStepModel::Pending,
            StreamStep::Exhausted => StreamStepModel::Exhausted,
        }
    }
}

pub open spec fn stream_step_spec(poll: ChannelPollModel) -> StreamStepModel {
    match poll {
        ChannelPollModel::Pending => StreamStepModel::Pending,
        ChannelPollModel::Closed => StreamStepModel::Exhausted,
        ChannelPollModel::Ready(AbstractModel::Initiator(Ok(e))) => StreamStepModel::Emit(e),
        ChannelPollModel::Ready(AbstractModel::Initiator(Err(x))) => StreamStepModel::SkipError(x),
        ChannelPollModel::Ready(AbstractModel::Counterparty) => StreamStepModel::SkipUnexpected,
        ChannelPollModel::Ready(AbstractModel::Noop) => StreamStepModel::SkipNoop,
    }
}

/// One step of the initiator monitoring stream: decoded events go to the
/// consumer, decode errors and foreign items are skipped, and a closed,
/// drained channel ends the stream.
pub fn stream_step(poll: ChannelPoll) -> (r: StreamStep)
    ensures
        r@ == stream_step_spec(poll@),
{
    match poll {
        ChannelPoll::Pending => StreamStep::Pending,
        ChannelPoll::Closed => StreamStep::Exhausted,
        ChannelPoll::Ready(AbstractBlockainEvent::InitiatorContractEvent(Ok(e))) => StreamStep::Emit(e),
        ChannelPoll::Ready(AbstractBlockainEvent::InitiatorContractEvent(Err(x))) => StreamStep::SkipError(x),
        ChannelPoll::Ready(AbstractBlockainEvent::CounterpartyContractEvent(_)) => StreamStep::SkipUnexpected,
        ChannelPoll::Ready(AbstractBlockainEvent::Noop) => StreamStep::SkipNoop,
    }
}

} // verus!
