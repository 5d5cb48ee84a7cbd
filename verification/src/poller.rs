//! The decisions of one poll pass.
//!
//! A pass visits the descriptors in table order. For each it asks for one
//! bounded-time read, decodes what came back and asks for the reading to be
//! published; after the last it asks for the time and publishes a liveness
//! message. Any failure ends the pass at once: nothing is retried and
//! nothing is skipped.
//!
//! The work itself (reading, publishing) is done by the caller. It hands
//! each outcome to [`poll_step`] as an event and performs the action that
//! comes back, until that action is `Finish` or `Abort`.

use crate::clock::unix_time;
use crate::decode::{decode, decoded, DecodeError, Reading};
use crate::descriptor::{DescriptorTable, DescriptorView};
use crate::message::{liveness, liveness_message, Delivery, MessageView, PublishedMessage};
use crate::topic::{derive_topic, topic_of};
use vstd::prelude::*;

verus! {

/// The bound on one transport read, in seconds.
pub const READ_TIMEOUT_SECS: u64 = 5;

/// Why a read did not deliver words.
#[derive(Clone, Copy, Debug, PartialEq, Eq, Structural)]
pub enum TransportError {
    /// The bound elapsed before the transport responded.
    Timeout,
    /// The transport reported a fault: a bad response, a disconnected line,
    /// a checksum failure.
    Fault,
}

/// Why a pass was aborted.
#[derive(Clone, Copy, Debug, PartialEq, Eq, Structural)]
pub enum PassError {
    /// A read timed out or failed.
    Transport(TransportError),
    /// The words of a read did not fit the descriptor.
    Decode(DecodeError),
    /// The publish capability reported a failure.
    Publish,
    /// The system clock is set to a time before the Unix epoch.
    Clock,
    /// The caller reported an event that the pass was not waiting for.
    UnexpectedEvent,
}

/// Where a pass stands.
#[derive(Clone, Copy, Debug, PartialEq, Eq, Structural)]
pub enum PollState {
    /// Not started.
    Idle,
    /// The read for the descriptor at `index` is under way.
    ReadPending { index: usize },
    /// The reading of the descriptor at `index` is being published.
    PublishPending { index: usize },
    /// Every reading is published; the time is being taken.
    ClockPending,
    /// The liveness message is being published.
    LivenessPublish,
    /// The pass completed.
    Done,
    /// The pass was aborted.
    Failed { error: PassError },
}

/// What the caller reports to a pass.
#[derive(Clone, Debug, PartialEq, Eq)]
pub enum PollEvent {
    /// The pass is to begin.
    Start,
    /// The transport returned these words.
    Words(Vec<u16>),
    /// The read timed out or failed.
    ReadFailed(TransportError),
    /// The publish capability accepted the message.
    Published,
    /// The publish capability reported a failure.
    PublishFailed,
    /// The time, in whole seconds since the Unix epoch.
    Clock(u64),
    /// The time could not be taken.
    ClockFailed,
}

/// An event as a mathematical value.
pub enum EventView {
    Start,
    Words(Seq<u16>),
    ReadFailed(TransportError),
    Published,
    PublishFailed,
    Clock(u64),
    ClockFailed,
}

impl View for PollEvent {
    type V = EventView;

    open spec fn view(&self) -> EventView {
        match *self {
            PollEvent::Start => EventView::Start,
            PollEvent::Words(w) => EventView::Words(w@),
            PollEvent::ReadFailed(e) => EventView::ReadFailed(e),
            PollEvent::Published => EventView::Published,
            PollEvent::PublishFailed => EventView::PublishFailed,
            PollEvent::Clock(secs) => EventView::Clock(secs),
            PollEvent::ClockFailed => EventView::ClockFailed,
        }
    }
}

/// What a pass asks of the caller.
#[derive(Clone, Debug, PartialEq, Eq)]
pub enum PollAction {
    /// Read `count` words starting at `address`, and give up after
    /// `timeout_secs` seconds.
    Read { address: u16, count: u16, timeout_secs: u64 },
    /// Publish, under `topic` and with the guarantee `delivery`, the reading
    /// of the descriptor at `index`. The payload is the reading's quantity
    /// in decimal, which the caller writes out.
    PublishReading { index: usize, topic: String, reading: Reading, delivery: Delivery },
    /// Take the time: report [`clock_event`].
    ReadClock,
    /// Publish the liveness message.
    PublishLiveness(PublishedMessage),
    /// Stop: the pass completed.
    Finish,
    /// Stop: the pass was aborted.
    Abort(PassError),
}

/// An action as a mathematical value.
pub enum ActionView {
    Read { address: u16, count: u16, timeout_secs: u64 },
    PublishReading { index: usize, topic: Seq<char>, reading: Reading, delivery: Delivery },
    ReadClock,
    PublishLiveness(MessageView),
    Finish,
    Abort(PassError),
}

impl View for PollAction {
    type V = ActionView;

    open spec fn view(&self) -> ActionView {
        match *self {
            PollAction::Read { address, count, timeout_secs } => ActionView::Read {
                address,
                count,
                timeout_secs,
            },
            PollAction::PublishReading { index, topic, reading, delivery } => {
                ActionView::PublishReading { index, topic: topic@, reading, delivery }
            },
            PollAction::ReadClock => ActionView::ReadClock,
            PollAction::PublishLiveness(m) => ActionView::PublishLiveness(m@),
            PollAction::Finish => ActionView::Finish,
            PollAction::Abort(e) => ActionView::Abort(e),
        }
    }
}

/// The read that a descriptor asks for: its words, from its address, within
/// the bound.
pub open spec fn read_of(d: DescriptorView) -> ActionView {
    ActionView::Read {
        address: d.address,
        count: d.width.words() as u16,
        timeout_secs: READ_TIMEOUT_SECS,
    }
}

/// How a pass goes on once the descriptors before `index` are done: with
/// the read of the next one, or with the time when none is left.
pub open spec fn proceed(table: Seq<DescriptorView>, index: int) -> (PollState, ActionView) {
    if 0 <= index < table.len() {
        (PollState::ReadPending { index: index as usize }, read_of(table[index]))
    } else {
        (PollState::ClockPending, ActionView::ReadClock)
    }
}

/// The end of a pass that fails with `error`.
pub open spec fn fail(error: PassError) -> (PollState, ActionView) {
    (PollState::Failed { error }, ActionView::Abort(error))
}

/// What follows the words `raw` of the read for the descriptor at `index`:
/// the reading is published under the descriptor's topic, or the pass fails
/// with the decode error.
pub open spec fn after_read(table: Seq<DescriptorView>, index: usize, raw: Seq<u16>) -> (
    PollState,
    ActionView,
) {
    let d = table[index as int];
    match decoded(d.width, d.scale, raw) {
        Ok(reading) => (
            PollState::PublishPending { index },
            ActionView::PublishReading {
                index,
                topic: topic_of(d.name, d.unit),
                reading,
                delivery: Delivery::AtLeastOnce,
            },
        ),
        Err(e) => fail(PassError::Decode(e)),
    }
}

/// The next state of a pass over `table` and the action it asks for, when
/// `event` is reported in `state`.
pub open spec fn step(table: Seq<DescriptorView>, state: PollState, event: EventView) -> (
    PollState,
    ActionView,
) {
    match state {
        PollState::Done => (PollState::Done, ActionView::Finish),
        PollState::Failed { error } => fail(error),
        PollState::Idle => match event {
            EventView::Start => proceed(table, 0),
            _ => fail(PassError::UnexpectedEvent),
        },
        PollState::ReadPending { index } => match event {
            EventView::Words(raw) if index < table.len() => after_read(table, index, raw),
            EventView::ReadFailed(e) => fail(PassError::Transport(e)),
            _ => fail(PassError::UnexpectedEvent),
        },
        PollState::PublishPending { index } => match event {
            EventView::Published if index < table.len() => proceed(table, index + 1),
            EventView::PublishFailed => fail(PassError::Publish),
            _ => fail(PassError::UnexpectedEvent),
        },
        PollState::ClockPending => match event {
            EventView::Clock(secs) => (
                PollState::LivenessPublish,
                ActionView::PublishLiveness(liveness(secs)),
            ),
            EventView::ClockFailed => fail(PassError::Clock),
            _ => fail(PassError::UnexpectedEvent),
        },
        PollState::LivenessPublish => match event {
            EventView::Published => (PollState::Done, ActionView::Finish),
            EventView::PublishFailed => fail(PassError::Publish),
            _ => fail(PassError::UnexpectedEvent),
        },
    }
}

fn begin(table: &DescriptorTable, index: usize) -> (r: (PollState, PollAction))
    ensures
        (r.0, r.1@) == proceed(table@, index as int),
{
    match table.get(index) {
        Some(d) => (
            PollState::ReadPending { index },
            PollAction::Read {
                address: d.address,
                count: d.width.word_count(),
                timeout_secs: READ_TIMEOUT_SECS,
            },
        ),
        None => (PollState::ClockPending, PollAction::ReadClock),
    }
}

fn abort(error: PassError) -> (r: (PollState, PollAction))
    ensures
        (r.0, r.1@) == fail(error),
{
    (PollState::Failed { error }, PollAction::Abort(error))
}

/// Takes one step of a pass over `table`: from the state the pass is in and
/// the event the caller reports, to the next state and the action the
/// caller is to perform.
pub fn poll_step(table: &DescriptorTable, state: PollState, event: PollEvent) -> (r: (
    PollState,
    PollAction,
))
    ensures
        (r.0, r.1@) == step(table@, state, event@),
{
    match state {
        PollState::Done => (PollState::Done, PollAction::Finish),
        PollState::Failed { error } => abort(error),
        PollState::Idle => match event {
            PollEvent::Start => begin(table, 0),
            _ => abort(PassError::UnexpectedEvent),
        },
        PollState::ReadPending { index } => match event {
            PollEvent::Words(words) => match table.get(index) {
                Some(d) => match decode(d, words.as_slice()) {
                    Ok(reading) => (
                        PollState::PublishPending { index },
                        PollAction::PublishReading {
                            index,
                            topic: derive_topic(d.name.as_str(), d.unit.as_str()),
                            reading,
                            delivery: Delivery::AtLeastOnce,
                        },
                    ),
                    Err(e) => abort(PassError::Decode(e)),
                },
                None => abort(PassError::UnexpectedEvent),
            },
            PollEvent::ReadFailed(e) => abort(PassError::Transport(e)),
            _ => abort(PassError::UnexpectedEvent),
        },
        PollState::PublishPending { index } => match event {
            PollEvent::Published => if index < table.len() {
                begin(table, index + 1)
            } else {
                abort(PassError::UnexpectedEvent)
            },
            PollEvent::PublishFailed => abort(PassError::Publish),
            _ => abort(PassError::UnexpectedEvent),
        },
        PollState::ClockPending => match event {
            PollEvent::Clock(secs) => (
                PollState::LivenessPublish,
                PollAction::PublishLiveness(liveness_message(secs)),
            ),
            PollEvent::ClockFailed => abort(PassError::Clock),
            _ => abort(PassError::UnexpectedEvent),
        },
        PollState::LivenessPublish => match event {
            PollEvent::Published => (PollState::Done, PollAction::Finish),
            PollEvent::PublishFailed => abort(PassError::Publish),
            _ => abort(PassError::UnexpectedEvent),
        },
    }
}

/// Takes the time and makes of it the event that a pass awaits after
/// `ReadClock`. Which of the two events comes back, and with which number,
/// is decided by the system clock.
pub fn clock_event() -> (e: PollEvent)
    ensures
        e is Clock || e is ClockFailed,
{
    match unix_time() {
        Some(secs) => PollEvent::Clock(secs),
        None => PollEvent::ClockFailed,
    }
}

} // verus!
