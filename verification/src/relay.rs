//! The two relays, as state machines.
//!
//! A relay sits between an inbound queue, a device and an outbound queue. In
//! each tick it drains at most one report from the inbound queue and writes it
//! to the device, then reads the device once and forwards what it read. The
//! relay on the gadget side also splices a pending MIDI patch into each input
//! report before writing it. A failure of the device is reported and the relay
//! goes on; a queue whose other end is gone is fatal, since neither relay is
//! of any use without the other.
//!
//! The relay itself touches no queue and no device. [`Relay::step`] takes the
//! outcome of the last action and answers with the next one; the driver
//! performs it and comes back with its outcome.

use vstd::prelude::*;
use crate::report::{is_input_report, splice, spliced_with, takes_patch, SplicePatch};

verus! {

/// The pause at the end of a tick, in milliseconds.
pub const TICK_PERIOD_MS: u64 = 5;

/// Which side a relay serves.
#[derive(Debug, Clone, Copy, PartialEq, Eq, Structural)]
pub enum RelayKind {
    /// Between the physical controller and the queues; never splices.
    Controller,
    /// Between the queues and the gadget; splices MIDI patches.
    Gadget,
}

/// What a non-blocking drain of the inbound queue found.
#[derive(Debug, PartialEq, Eq)]
pub enum Drained {
    /// The oldest report in the queue.
    Entry(Vec<u8>),
    /// The queue holds nothing just now.
    Empty,
    /// The queue holds nothing and its producer, the other relay, is gone.
    Disconnected,
}

/// How a non-blocking read of the device ended.
#[derive(Debug, PartialEq, Eq)]
pub enum ReadOutcome {
    /// The read buffer, whole, after a read that transferred something.
    Data(Vec<u8>),
    /// The device has nothing ready.
    WouldBlock,
    /// Any other read error.
    Failed,
}

/// The outcome of an action, handed to the relay by its driver.
#[derive(Debug, PartialEq, Eq)]
pub enum Event {
    /// A tick begins: at the start, and after each pause.
    Tick,
    /// The answer to [`Action::DrainInbound`].
    Drained(Drained),
    /// The answer to [`Action::PollMidi`]: the oldest pending patch, or none
    /// where the MIDI queue is empty or without a producer.
    MidiPolled(Option<SplicePatch>),
    /// The answer to [`Action::WriteDevice`]: whether the write succeeded.
    Written(bool),
    /// The answer to [`Action::ReadDevice`].
    Read(ReadOutcome),
    /// The answer to [`Action::Forward`]: whether the outbound queue took the
    /// report. It refuses only when its consumer is gone.
    Forwarded(bool),
}

/// What the driver is to do next.
#[derive(Debug, PartialEq, Eq)]
pub enum Action {
    /// Take at most one report from the inbound queue, without blocking.
    DrainInbound,
    /// Take at most one patch from the MIDI queue, without blocking.
    PollMidi,
    /// Write the report to the device.
    WriteDevice(Vec<u8>),
    /// Read the device once, without blocking.
    ReadDevice,
    /// Push the report onto the outbound queue.
    Forward(Vec<u8>),
    /// Pause for so many milliseconds, then begin the next tick.
    Sleep(u64),
    /// Stop the whole process: the other relay is gone.
    Terminate,
}

/// A failure that the driver should report. The two that tell of a lost
/// peer, [`Fault::InboundClosed`] and [`Fault::PeerGone`], stop the relay;
/// the device's failures do not.
#[derive(Debug, Clone, Copy, PartialEq, Eq, Structural)]
pub enum Fault {
    /// The inbound queue is empty and has lost its producer.
    InboundClosed,
    /// The device refused a write. The report is lost.
    WriteFailed,
    /// The device failed a read in another way than by having nothing ready.
    ReadFailed,
    /// The outbound queue has lost its consumer.
    PeerGone,
}

/// The relay's answer to an event.
#[derive(Debug, PartialEq, Eq)]
pub struct Reaction {
    /// What to do next.
    pub action: Action,
    /// What to report of the event just handled, if anything.
    pub fault: Option<Fault>,
}

/// Where a relay stands within its tick: which outcome it waits for.
#[derive(Debug, PartialEq, Eq)]
pub enum Phase {
    /// Between two ticks; waits for [`Event::Tick`].
    Idle,
    /// Waits for [`Event::Drained`].
    AwaitDrain,
    /// Holds a report and waits for [`Event::MidiPolled`].
    AwaitMidi(Vec<u8>),
    /// Waits for [`Event::Written`].
    AwaitWrite,
    /// Waits for [`Event::Read`].
    AwaitRead,
    /// Waits for [`Event::Forwarded`].
    AwaitForward,
    /// Stopped for good, after [`Action::Terminate`].
    Halted,
}

/// Why a relay refused an event. A refused event changes nothing.
#[derive(Debug, Clone, Copy, PartialEq, Eq, Structural)]
pub enum StepError {
    /// The relay has stopped and takes no more events.
    Halted,
    /// The event is not the outcome that the relay waits for.
    Unexpected,
}

/// A relay: its side, and where it stands in its tick.
#[derive(Debug, PartialEq, Eq)]
pub struct Relay {
    kind: RelayKind,
    phase: Phase,
}

/// The model of [`Drained`].
pub enum DrainedView {
    Entry(Seq<u8>),
    Empty,
    Disconnected,
}

/// The model of [`ReadOutcome`].
pub enum ReadOutcomeView {
    Data(Seq<u8>),
    WouldBlock,
    Failed,
}

/// The model of [`Event`].
pub enum EventView {
    Tick,
    Drained(DrainedView),
    MidiPolled(Option<SplicePatch>),
    Written(bool),
    Read(ReadOutcomeView),
    Forwarded(bool),
}

/// The model of [`Action`].
pub enum ActionView {
    DrainInbound,
    PollMidi,
    WriteDevice(Seq<u8>),
    ReadDevice,
    Forward(Seq<u8>),
    Sleep(u64),
    Terminate,
}

/// The model of [`Reaction`].
pub struct ReactionView {
    pub action: ActionView,
    pub fault: Option<Fault>,
}

/// The model of [`Phase`].
pub enum PhaseView {
    Idle,
    AwaitDrain,
    AwaitMidi(Seq<u8>),
    AwaitWrite,
    AwaitRead,
    AwaitForward,
    Halted,
}

/// The model of [`Relay`].
pub struct RelayView {
    pub kind: RelayKind,
    pub phase: PhaseView,
}

impl View for Drained {
    type V = DrainedView;

    open spec fn view(&self) -> DrainedView {
        match *self {
            Drained::Entry(report) => DrainedView::Entry(report@),
            Drained::Empty => DrainedView::Empty,
            Drained::Disconnected => DrainedView::Disconnected,
        }
    }
}

impl View for ReadOutcome {
    type V = ReadOutcomeView;

    open spec fn view(&self) -> ReadOutcomeView {
        match *self {
            ReadOutcome::Data(bytes) => ReadOutcomeView::Data(bytes@),
            ReadOutcome::WouldBlock => ReadOutcomeView::WouldBlock,
            ReadOutcome::Failed => ReadOutcomeView::Failed,
        }
    }
}

impl View for Event {
    type V = EventView;

    open spec fn view(&self) -> EventView {
        match *self {
            Event::Tick => EventView::Tick,
            Event::Drained(drained) => EventView::Drained(drained@),
            Event::MidiPolled(pending) => EventView::MidiPolled(pending),
            Event::Written(done) => EventView::Written(done),
            Event::Read(outcome) => EventView::Read(outcome@),
            Event::Forwarded(taken) => EventView::Forwarded(taken),
        }
    }
}

impl View for Action {
    type V = ActionView;

    open spec fn view(&self) -> ActionView {
        match *self {
            Action::DrainInbound => ActionView::DrainInbound,
            Action::PollMidi => ActionView::PollMidi,
            Action::WriteDevice(report) => ActionView::WriteDevice(report@),
            Action::ReadDevice => ActionView::ReadDevice,
            Action::Forward(report) => ActionView::Forward(report@),
            Action::Sleep(millis) => ActionView::Sleep(millis),
            Action::Terminate => ActionView::Terminate,
        }
    }
}

impl View for Reaction {
    type V = ReactionView;

    open spec fn view(&self) -> ReactionView {
        ReactionView { action: self.action@, fault: self.fault }
    }
}

impl View for Phase {
    type V = PhaseView;

    open spec fn view(&self) -> PhaseView {
        match *self {
            Phase::Idle => PhaseView::Idle,
            Phase::AwaitDrain => PhaseView::AwaitDrain,
            Phase::AwaitMidi(report) => PhaseView::AwaitMidi(report@),
            Phase::AwaitWrite => PhaseView::AwaitWrite,
            Phase::AwaitRead => PhaseView::AwaitRead,
            Phase::AwaitForward => PhaseView::AwaitForward,
            Phase::Halted => PhaseView::Halted,
        }
    }
}

impl View for Relay {
    type V = RelayView;

    closed spec fn view(&self) -> RelayView {
        RelayView { kind: self.kind, phase: self.phase@ }
    }
}

/// A reaction with nothing to report.
pub open spec fn quiet(action: ActionView) -> ReactionView {
    ReactionView { action, fault: None }
}

/// A reaction that reports a fault.
pub open spec fn faulty(action: ActionView, fault: Fault) -> ReactionView {
    ReactionView { action, fault: Some(fault) }
}

/// Whether a relay of this kind polls the MIDI queue for this report: only
/// the gadget side does, and only for an input report with room for a patch.
pub open spec fn polls_midi(kind: RelayKind, report: Seq<u8>) -> bool {
    kind == RelayKind::Gadget && takes_patch(report)
}

/// The transition function: the phase that follows and the reaction, or
/// nothing where the event is not the one that the phase waits for.
///
/// - A tick begins with a drain of the inbound queue.
/// - A drained report goes to the device as it is, unless the relay polls
///   the MIDI queue for it; then it goes with what the poll gave spliced in.
/// - With nothing in the inbound queue the tick goes on with the read.
/// - An inbound queue that lost its producer is fatal: the other relay is
///   gone, and this one stops without reading.
/// - A write that failed is reported, and the read follows all the same.
/// - What was read is forwarded. A device with nothing ready ends the tick
///   in silence, another read error ends it with a report.
/// - A refused forward is fatal too: the outbound queue has lost its
///   consumer.
pub open spec fn next(kind: RelayKind, phase: PhaseView, event: EventView) -> Option<
    (PhaseView, ReactionView),
> {
    match (phase, event) {
        (PhaseView::Idle, EventView::Tick) => Some(
            (PhaseView::AwaitDrain, quiet(ActionView::DrainInbound)),
        ),
        (PhaseView::AwaitDrain, EventView::Drained(DrainedView::Entry(report))) => if polls_midi(
            kind,
            report,
        ) {
            Some((PhaseView::AwaitMidi(report), quiet(ActionView::PollMidi)))
        } else {
            Some((PhaseView::AwaitWrite, quiet(ActionView::WriteDevice(report))))
        },
        (PhaseView::AwaitDrain, EventView::Drained(DrainedView::Empty)) => Some(
            (PhaseView::AwaitRead, quiet(ActionView::ReadDevice)),
        ),
        (PhaseView::AwaitDrain, EventView::Drained(DrainedView::Disconnected)) => Some(
            (PhaseView::Halted, faulty(ActionView::Terminate, Fault::InboundClosed)),
        ),
        (PhaseView::AwaitMidi(report), EventView::MidiPolled(pending)) => Some(
            (
                PhaseView::AwaitWrite,
                quiet(ActionView::WriteDevice(spliced_with(report, pending))),
            ),
        ),
        (PhaseView::AwaitWrite, EventView::Written(done)) => Some(
            (
                PhaseView::AwaitRead,
                if done {
                    quiet(ActionView::ReadDevice)
                } else {
                    faulty(ActionView::ReadDevice, Fault::WriteFailed)
                },
            ),
        ),
        (PhaseView::AwaitRead, EventView::Read(ReadOutcomeView::Data(bytes))) => Some(
            (PhaseView::AwaitForward, quiet(ActionView::Forward(bytes))),
        ),
        (PhaseView::AwaitRead, EventView::Read(ReadOutcomeView::WouldBlock)) => Some(
            (PhaseView::Idle, quiet(ActionView::Sleep(TICK_PERIOD_MS))),
        ),
        (PhaseView::AwaitRead, EventView::Read(ReadOutcomeView::Failed)) => Some(
            (PhaseView::Idle, faulty(ActionView::Sleep(TICK_PERIOD_MS), Fault::ReadFailed)),
        ),
        (PhaseView::AwaitForward, EventView::Forwarded(taken)) => if taken {
            Some((PhaseView::Idle, quiet(ActionView::Sleep(TICK_PERIOD_MS))))
        } else {
            Some((PhaseView::Halted, faulty(ActionView::Terminate, Fault::PeerGone)))
        },
        _ => None,
    }
}

/// Whether the phase waits for this kind of event.
pub open spec fn awaits(phase: PhaseView, event: EventView) -> bool {
    match phase {
        PhaseView::Idle => event is Tick,
        PhaseView::AwaitDrain => event is Drained,
        PhaseView::AwaitMidi(_) => event is MidiPolled,
        PhaseView::AwaitWrite => event is Written,
        PhaseView::AwaitRead => event is Read,
        PhaseView::AwaitForward => event is Forwarded,
        PhaseView::Halted => false,
    }
}

impl Relay {
    /// The side that the relay serves.
    pub fn kind(&self) -> (kind: RelayKind)
        ensures
            kind == self@.kind,
    {
        self.kind
    }

    /// Where the relay stands in its tick.
    pub fn phase(&self) -> (phase: &Phase)
        ensures
            phase@ == self@.phase,
    {
        &self.phase
    }

    /// Whether the relay has stopped for good.
    pub fn is_halted(&self) -> (halted: bool)
        ensures
            halted == (self@.phase is Halted),
    {
        match self.phase {
            Phase::Halted => true,
            _ => false,
        }
    }

    /// Takes the outcome of the last action and says what to do next.
    ///
    /// The relay moves as [`next`] says. An event that the current phase does
    /// not wait for is refused and leaves the relay as it was.
    pub fn step(&mut self, event: Event) -> (result: Result<Reaction, StepError>)
        ensures
            final(self)@.kind == old(self)@.kind,
            match next(old(self)@.kind, old(self)@.phase, event@) {
                Some((phase, reaction)) => {
                    &&& final(self)@.phase == phase
                    &&& result matches Ok(given)
                    &&& given@ == reaction
                },
                None => {
                    &&& final(self)@ == old(self)@
                    &&& result == Err::<Reaction, StepError>(
                        if old(self)@.phase is Halted {
                            StepError::Halted
                        } else {
                            StepError::Unexpected
                        },
                    )
                },
            },
            result is Ok <==> awaits(old(self)@.phase, event@),
    {
        let mut phase = Phase::Halted;
        core::mem::swap(&mut self.phase, &mut phase);
        let (following, result) = match (phase, event) {
            (Phase::Idle, Event::Tick) => (Phase::AwaitDrain, Ok(silent(Action::DrainInbound))),
            (Phase::AwaitDrain, Event::Drained(Drained::Entry(report))) => {
                let polls = match self.kind {
                    RelayKind::Gadget => is_input_report(report.as_slice()),
                    RelayKind::Controller => false,
                };
                if polls {
                    (Phase::AwaitMidi(report), Ok(silent(Action::PollMidi)))
                } else {
                    (Phase::AwaitWrite, Ok(silent(Action::WriteDevice(report))))
                }
            },
            (Phase::AwaitDrain, Event::Drained(Drained::Empty)) => (
                Phase::AwaitRead,
                Ok(silent(Action::ReadDevice)),
            ),
            (Phase::AwaitDrain, Event::Drained(Drained::Disconnected)) => (
                Phase::Halted,
                Ok(reporting(Action::Terminate, Fault::InboundClosed)),
            ),
            (Phase::AwaitMidi(report), Event::MidiPolled(pending)) => {
                let mut report = report;
                match pending {
                    Some(patch) => splice(&mut report, &patch),
                    None => {},
                }
                (Phase::AwaitWrite, Ok(silent(Action::WriteDevice(report))))
            },
            (Phase::AwaitWrite, Event::Written(done)) => if done {
                (Phase::AwaitRead, Ok(silent(Action::ReadDevice)))
            } else {
                (Phase::AwaitRead, Ok(reporting(Action::ReadDevice, Fault::WriteFailed)))
            },
            (Phase::AwaitRead, Event::Read(ReadOutcome::Data(bytes))) => (
                Phase::AwaitForward,
                Ok(silent(Action::Forward(bytes))),
            ),
            (Phase::AwaitRead, Event::Read(ReadOutcome::WouldBlock)) => (
                Phase::Idle,
                Ok(silent(Action::Sleep(TICK_PERIOD_MS))),
            ),
            (Phase::AwaitRead, Event::Read(ReadOutcome::Failed)) => (
                Phase::Idle,
                Ok(reporting(Action::Sleep(TICK_PERIOD_MS), Fault::ReadFailed)),
            ),
            (Phase::AwaitForward, Event::Forwarded(taken)) => if taken {
                (Phase::Idle, Ok(silent(Action::Sleep(TICK_PERIOD_MS))))
            } else {
                (Phase::Halted, Ok(reporting(Action::Terminate, Fault::PeerGone)))
            },
            (Phase::Halted, _) => (Phase::Halted, Err(StepError::Halted)),
            (other, _) => (other, Err(StepError::Unexpected)),
        };
        self.phase = following;
        result
    }
}

/// The relay of the gadget side, before its first tick. It waits for
/// [`Event::Tick`]; the queues and the device stay with its driver.
pub fn start_gadget() -> (relay: Relay)
    ensures
        relay@ == (RelayView { kind: RelayKind::Gadget, phase: PhaseView::Idle }),
{
    Relay { kind: RelayKind::Gadget, phase: Phase::Idle }
}

/// The relay of the controller side, before its first tick. It waits for
/// [`Event::Tick`]; the queues and the device stay with its driver.
pub fn start_controller() -> (relay: Relay)
    ensures
        relay@ == (RelayView { kind: RelayKind::Controller, phase: PhaseView::Idle }),
{
    Relay { kind: RelayKind::Controller, phase: Phase::Idle }
}

/// A reaction with nothing to report.
fn silent(action: Action) -> (reaction: Reaction)
    ensures
        reaction@ == quiet(action@),
{
    Reaction { action, fault: None }
}

/// A reaction that reports a fault.
fn reporting(action: Action, fault: Fault) -> (reaction: Reaction)
    ensures
        reaction@ == faulty(action@, fault),
{
    Reaction { action, fault: Some(fault) }
}

} // verus!
