//! A whole tick of a relay, as a model, and what holds of every tick.
//!
//! The driver of a relay performs each action and hands its outcome back.
//! Here the driver is modelled: [`run`] feeds the relay, step by step, with
//! what the surroundings answer, and records what the relay had the driver
//! do. [`lemma_tick`] shows that a tick so driven does what [`effects_of`]
//! says in one piece; the other statements follow from it.

use vstd::prelude::*;
use crate::midi::{decoded_message, forwarded, MidiMessageData, MidiMessageTypes};
use crate::relay::{
    next, polls_midi, ActionView, DrainedView, EventView, Fault, PhaseView, ReactionView,
    ReadOutcomeView, RelayKind, TICK_PERIOD_MS,
};
use crate::report::{spliced, spliced_with, takes_patch, SplicePatch, INPUT_REPORT_MARKER};

verus! {

/// What the surroundings of a relay hold in store for one tick: the outcome
/// of each action, should the relay ask for it.
pub struct Surroundings {
    /// What a drain of the inbound queue finds.
    pub drained: DrainedView,
    /// What a poll of the MIDI queue finds.
    pub pending: Option<SplicePatch>,
    /// Whether a write to the device succeeds.
    pub written: bool,
    /// How a read of the device ends.
    pub read: ReadOutcomeView,
    /// Whether the outbound queue takes a report.
    pub forwarded: bool,
}

/// What a relay had its driver do within one tick.
pub struct Effects {
    /// How many times the inbound queue was drained.
    pub drains: nat,
    /// How many times the MIDI queue was polled.
    pub polls: nat,
    /// The reports that were handed to the device, in order.
    pub written: Seq<Seq<u8>>,
    /// How many times the device was read.
    pub reads: nat,
    /// The reports that were handed to the outbound queue, in order, whether
    /// it took them or not.
    pub forwarded: Seq<Seq<u8>>,
    /// The pauses that were asked for, in milliseconds.
    pub pauses: Seq<u64>,
    /// The faults that were reported, in order.
    pub faults: Seq<Fault>,
    /// Whether the relay asked for the process to stop.
    pub halted: bool,
}

/// The effects of a tick in which nothing has happened yet.
pub open spec fn nothing() -> Effects {
    Effects {
        drains: 0,
        polls: 0,
        written: Seq::empty(),
        reads: 0,
        forwarded: Seq::empty(),
        pauses: Seq::empty(),
        faults: Seq::empty(),
        halted: false,
    }
}

/// The outcome that the surroundings give to an action; none for the two
/// actions that end a tick.
pub open spec fn answer(action: ActionView, around: Surroundings) -> Option<EventView> {
    match action {
        ActionView::DrainInbound => Some(EventView::Drained(around.drained)),
        ActionView::PollMidi => Some(EventView::MidiPolled(around.pending)),
        ActionView::WriteDevice(_) => Some(EventView::Written(around.written)),
        ActionView::ReadDevice => Some(EventView::Read(around.read)),
        ActionView::Forward(_) => Some(EventView::Forwarded(around.forwarded)),
        ActionView::Sleep(_) => None,
        ActionView::Terminate => None,
    }
}

/// The faults so far, with one more if there is one.
pub open spec fn with_fault(faults: Seq<Fault>, fault: Option<Fault>) -> Seq<Fault> {
    match fault {
        Some(fault) => faults.push(fault),
        None => faults,
    }
}

/// The effects so far, with those of one more reaction: its fault, then its
/// action.
pub open spec fn noted(so_far: Effects, reaction: ReactionView) -> Effects {
    let reported = Effects { faults: with_fault(so_far.faults, reaction.fault), ..so_far };
    match reaction.action {
        ActionView::DrainInbound => Effects { drains: reported.drains + 1, ..reported },
        ActionView::PollMidi => Effects { polls: reported.polls + 1, ..reported },
        ActionView::WriteDevice(report) => Effects {
            written: reported.written.push(report),
            ..reported
        },
        ActionView::ReadDevice => Effects { reads: reported.reads + 1, ..reported },
        ActionView::Forward(report) => Effects {
            forwarded: reported.forwarded.push(report),
            ..reported
        },
        ActionView::Sleep(millis) => Effects { pauses: reported.pauses.push(millis), ..reported },
        ActionView::Terminate => Effects { halted: true, ..reported },
    }
}

/// The driver's loop: performs the reaction, hands the relay the outcome, and
/// goes on with the relay's answer until the tick ends. Gives the phase in
/// which the relay is left and all that it had the driver do; nothing where
/// the relay refuses an outcome or `budget` steps do not end the tick.
pub open spec fn run(
    kind: RelayKind,
    phase: PhaseView,
    reaction: ReactionView,
    around: Surroundings,
    so_far: Effects,
    budget: nat,
) -> Option<(PhaseView, Effects)>
    decreases budget,
{
    let effects = noted(so_far, reaction);
    match answer(reaction.action, around) {
        None => Some((phase, effects)),
        Some(event) => if budget == 0 {
            None
        } else {
            match next(kind, phase, event) {
                Some((following, reply)) => run(
                    kind,
                    following,
                    reply,
                    around,
                    effects,
                    (budget - 1) as nat,
                ),
                None => None,
            }
        },
    }
}

/// The most outcomes that a relay takes within one tick: of the drain, the
/// poll, the write, the read and the forward.
pub open spec fn tick_budget() -> nat {
    5
}

/// One tick of an idle relay, driven to its end.
pub open spec fn tick(kind: RelayKind, around: Surroundings) -> Option<(PhaseView, Effects)> {
    match next(kind, PhaseView::Idle, EventView::Tick) {
        Some((phase, reaction)) => run(kind, phase, reaction, around, nothing(), tick_budget()),
        None => None,
    }
}

/// Whether the tick drains a report for which the relay polls the MIDI queue.
pub open spec fn polls_queue(kind: RelayKind, around: Surroundings) -> bool {
    around.drained matches DrainedView::Entry(report) && polls_midi(kind, report)
}

/// The report as a relay of this kind hands it to the device: with the
/// pending patch spliced in where the relay polls the MIDI queue for it, and
/// as drained where it does not.
pub open spec fn outgoing(kind: RelayKind, report: Seq<u8>, pending: Option<SplicePatch>) -> Seq<u8> {
    if polls_midi(kind, report) {
        spliced_with(report, pending)
    } else {
        report
    }
}

/// Whether the tick finds the inbound queue without its producer. Such a
/// tick ends with the drain.
pub open spec fn cut_off(around: Surroundings) -> bool {
    around.drained is Disconnected
}

/// The fault that a tick reports on the way from the inbound queue to the
/// device: a lost producer, or a failed write of the drained report.
pub open spec fn write_fault(around: Surroundings) -> Option<Fault> {
    match around.drained {
        DrainedView::Entry(_) => if around.written {
            None
        } else {
            Some(Fault::WriteFailed)
        },
        DrainedView::Empty => None,
        DrainedView::Disconnected => Some(Fault::InboundClosed),
    }
}

/// The fault that a tick reports on the way from the device to the outbound
/// queue: a failed read, or a lost consumer. A device with nothing ready is
/// none, and a tick that ends with the drain has none.
pub open spec fn read_fault(around: Surroundings) -> Option<Fault> {
    if cut_off(around) {
        None
    } else {
        match around.read {
            ReadOutcomeView::Data(_) => if around.forwarded {
                None
            } else {
                Some(Fault::PeerGone)
            },
            ReadOutcomeView::WouldBlock => None,
            ReadOutcomeView::Failed => Some(Fault::ReadFailed),
        }
    }
}

/// Whether the tick finds the outbound queue without its consumer: the
/// device is read, it gives a report, and the queue refuses it.
pub open spec fn refused(around: Surroundings) -> bool {
    !cut_off(around) && around.read is Data && !around.forwarded
}

/// Whether the tick ends the relay: it finds the other relay gone, at the
/// inbound queue or at the outbound one.
pub open spec fn stops(around: Surroundings) -> bool {
    cut_off(around) || refused(around)
}

/// What a tick does, said in one piece.
///
/// - The inbound queue is drained once. A drained report is handed to the
///   device, once; on the gadget side an input report is handed on with the
///   pending patch spliced in. Nothing else is written.
/// - The MIDI queue is polled once for such an input report, and not at all
///   in any other tick.
/// - An inbound queue without its producer ends the tick and the relay at
///   once: nothing is written, read or forwarded.
/// - In every other tick the device is read once. What the read gave is
///   handed to the outbound queue, once, and nothing else is.
/// - The tick ends with one pause of the fixed period, unless the relay
///   stops: then it ends without a pause.
/// - At most two faults are reported: first that of the way to the device,
///   then that of the way back.
pub open spec fn effects_of(kind: RelayKind, around: Surroundings) -> Effects {
    Effects {
        drains: 1,
        polls: if polls_queue(kind, around) {
            1
        } else {
            0
        },
        written: match around.drained {
            DrainedView::Entry(report) => Seq::empty().push(
                outgoing(kind, report, around.pending),
            ),
            _ => Seq::empty(),
        },
        reads: if cut_off(around) {
            0
        } else {
            1
        },
        forwarded: match around.read {
            ReadOutcomeView::Data(bytes) => if cut_off(around) {
                Seq::empty()
            } else {
                Seq::empty().push(bytes)
            },
            _ => Seq::empty(),
        },
        pauses: if stops(around) {
            Seq::empty()
        } else {
            Seq::empty().push(TICK_PERIOD_MS)
        },
        faults: with_fault(with_fault(Seq::empty(), write_fault(around)), read_fault(around)),
        halted: stops(around),
    }
}

/// The phase in which a tick leaves the relay.
pub open spec fn phase_after(around: Surroundings) -> PhaseView {
    if stops(around) {
        PhaseView::Halted
    } else {
        PhaseView::Idle
    }
}

/// Every tick runs to its end, whatever the surroundings answer: the relay
/// refuses none of the outcomes that it asked for, does what [`effects_of`]
/// says, and is left idle, ready for the next tick, unless it found the other
/// relay gone.
pub proof fn lemma_tick(kind: RelayKind, around: Surroundings)
    ensures
        tick(kind, around) == Some((phase_after(around), effects_of(kind, around))),
{
    reveal_with_fuel(run, 6);
}

/// A report that does not start with the marker is handed to the device as
/// it was drained, on either side and whatever the MIDI queue holds; the
/// queue is not even polled for it.
pub proof fn lemma_unmarked_report_passes_untouched(kind: RelayKind, around: Surroundings)
    requires
        around.drained is Entry,
        !(around.drained->Entry_0.len() > 0 && around.drained->Entry_0[0] == INPUT_REPORT_MARKER),
    ensures
        tick(kind, around) matches Some((_, effects)) && {
            &&& effects.written == seq![around.drained->Entry_0]
            &&& effects.polls == 0
        },
{
    lemma_tick(kind, around);
}

/// With no patch pending, every drained report is handed to the device as it
/// was drained.
pub proof fn lemma_no_pending_patch_no_change(kind: RelayKind, around: Surroundings)
    requires
        around.drained is Entry,
        around.pending is None,
    ensures
        tick(kind, around) matches Some((_, effects)) && effects.written == seq![
            around.drained->Entry_0,
        ],
{
    lemma_tick(kind, around);
}

/// On the gadget side an input report with room for a patch is handed to the
/// device with the pending patch at offsets 3 to 5, with its length and with
/// every other byte as drained. The controller side hands it on as drained.
pub proof fn lemma_pending_patch_fills_the_window(
    kind: RelayKind,
    around: Surroundings,
    patch: SplicePatch,
)
    requires
        around.drained is Entry,
        takes_patch(around.drained->Entry_0),
        around.pending == Some(patch),
    ensures
        tick(kind, around) matches Some((_, effects)) && {
            let report = around.drained->Entry_0;
            let sent = effects.written[0];
            &&& effects.written.len() == 1
            &&& sent.len() == report.len()
            &&& forall|i: int| 0 <= i < 3 || 6 <= i < report.len() ==> sent[i] == report[i]
            &&& kind == RelayKind::Gadget ==> sent == spliced(report, patch) && forall|k: int|
                0 <= k < 3 ==> sent[3 + k] == patch.bytes@[k]
            &&& kind == RelayKind::Controller ==> sent == report
        },
{
    lemma_tick(kind, around);
}

/// A failed write changes nothing in the tick but the report of it: the
/// device is read all the same, what it gave is forwarded, and the relay is
/// left as after a write that succeeded, so that the next tick begins as
/// ever.
pub proof fn lemma_failed_write_does_not_stop_the_tick(kind: RelayKind, around: Surroundings)
    requires
        around.drained is Entry,
        !around.written,
    ensures
        ({
            let fine = Surroundings { written: true, ..around };
            &&& tick(kind, around) matches Some((phase, effects))
            &&& tick(kind, fine) matches Some((phase_fine, effects_fine))
            &&& phase == phase_fine
            &&& effects.reads == 1
            &&& effects == Effects { faults: effects.faults, ..effects_fine }
            &&& effects.faults == seq![Fault::WriteFailed] + effects_fine.faults
            &&& !stops(around) ==> phase == PhaseView::Idle
        }),
{
    let fine = Surroundings { written: true, ..around };
    lemma_tick(kind, around);
    lemma_tick(kind, fine);
}

/// A read that finds nothing ready is no fault: nothing is reported of it
/// and nothing is handed to the outbound queue. The tick in which the device
/// was so read ends with the pause, the relay idle.
pub proof fn lemma_would_block_is_silent(kind: RelayKind, around: Surroundings)
    requires
        around.read is WouldBlock,
    ensures
        tick(kind, around) matches Some((phase, effects)) && {
            &&& effects.faults == with_fault(Seq::empty(), write_fault(around))
            &&& !effects.faults.contains(Fault::ReadFailed)
            &&& !effects.faults.contains(Fault::PeerGone)
            &&& effects.forwarded == Seq::<Seq<u8>>::empty()
            &&& effects.reads == 1 ==> {
                &&& effects.pauses == seq![TICK_PERIOD_MS]
                &&& !effects.halted
                &&& phase == PhaseView::Idle
            }
        },
{
    lemma_tick(kind, around);
}

/// A relay that finds the inbound queue without its producer stops in that
/// very tick, on either side: it reports the loss and asks for the process to
/// end, and it neither writes, nor reads, nor forwards, nor pauses.
pub proof fn lemma_lost_producer_stops_the_relay(kind: RelayKind, around: Surroundings)
    requires
        around.drained is Disconnected,
    ensures
        tick(kind, around) matches Some((phase, effects)) && {
            &&& phase == PhaseView::Halted
            &&& effects.halted
            &&& effects.faults == seq![Fault::InboundClosed]
            &&& effects.drains == 1
            &&& effects.polls == 0
            &&& effects.written == Seq::<Seq<u8>>::empty()
            &&& effects.reads == 0
            &&& effects.forwarded == Seq::<Seq<u8>>::empty()
            &&& effects.pauses == Seq::<u64>::empty()
        },
{
    lemma_tick(kind, around);
}

/// The relay stops in a tick exactly when it finds the other relay gone:
/// the inbound queue has lost its producer, or the device gave a report and
/// the outbound queue refused it. No failure of the device ends it.
pub proof fn lemma_only_a_lost_peer_stops_the_relay(kind: RelayKind, around: Surroundings)
    ensures
        tick(kind, around) matches Some((phase, effects)) && {
            &&& effects.halted == (around.drained is Disconnected || (around.read is Data
                && !around.forwarded))
            &&& effects.halted == (phase == PhaseView::Halted)
            &&& effects.halted == (effects.faults.contains(Fault::InboundClosed)
                || effects.faults.contains(Fault::PeerGone))
            &&& !effects.halted ==> phase == PhaseView::Idle
        },
{
    lemma_tick(kind, around);
    let faults = effects_of(kind, around).faults;
    if stops(around) {
        assert(faults[faults.len() - 1] == if cut_off(around) {
            Fault::InboundClosed
        } else {
            Fault::PeerGone
        });
    }
}

/// The phase in which the first `upto` ticks of a run leave a relay that was
/// idle before them. A relay that has stopped takes no further tick.
pub open spec fn phase_after_ticks(kind: RelayKind, ticks: Seq<Surroundings>, upto: int) -> PhaseView
    decreases upto,
{
    if upto <= 0 {
        PhaseView::Idle
    } else {
        match phase_after_ticks(kind, ticks, upto - 1) {
            PhaseView::Idle => match tick(kind, ticks[upto - 1]) {
                Some((phase, _)) => phase,
                None => PhaseView::Halted,
            },
            other => other,
        }
    }
}

/// Whether none of the first `upto` ticks finds the other relay gone.
pub open spec fn peer_stays(ticks: Seq<Surroundings>, upto: int) -> bool {
    forall|i: int| 0 <= i < upto ==> !stops(#[trigger] ticks[i])
}

/// A relay goes on from tick to tick for as long as the other relay is
/// there: after any number of ticks it is idle again, however many writes and
/// reads have failed on the way. Once it has found the inbound queue without
/// its producer, or had a forward refused, it stays stopped.
pub proof fn lemma_relay_keeps_ticking(kind: RelayKind, ticks: Seq<Surroundings>, upto: int)
    requires
        0 <= upto <= ticks.len(),
    ensures
        peer_stays(ticks, upto) ==> phase_after_ticks(kind, ticks, upto) == PhaseView::Idle,
        !peer_stays(ticks, upto) ==> phase_after_ticks(kind, ticks, upto) == PhaseView::Halted,
    decreases upto,
{
    if upto > 0 {
        lemma_relay_keeps_ticking(kind, ticks, upto - 1);
        lemma_tick(kind, ticks[upto - 1]);
    }
}

/// The reports that the first `upto` ticks of a run hand to the device, in
/// order. Ticks that come after the relay has stopped do not take place.
pub open spec fn written_by(kind: RelayKind, ticks: Seq<Surroundings>, upto: int) -> Seq<Seq<u8>>
    decreases upto,
{
    if upto <= 0 {
        Seq::empty()
    } else {
        let before = written_by(kind, ticks, upto - 1);
        match (phase_after_ticks(kind, ticks, upto - 1), tick(kind, ticks[upto - 1])) {
            (PhaseView::Idle, Some((_, effects))) => before + effects.written,
            _ => before,
        }
    }
}

/// The reports that the first `upto` ticks of a run hand to the outbound
/// queue, in order. Ticks that come after the relay has stopped do not take
/// place.
pub open spec fn forwarded_by(kind: RelayKind, ticks: Seq<Surroundings>, upto: int) -> Seq<Seq<u8>>
    decreases upto,
{
    if upto <= 0 {
        Seq::empty()
    } else {
        let before = forwarded_by(kind, ticks, upto - 1);
        match (phase_after_ticks(kind, ticks, upto - 1), tick(kind, ticks[upto - 1])) {
            (PhaseView::Idle, Some((_, effects))) => before + effects.forwarded,
            _ => before,
        }
    }
}

/// Reports keep their order on the way to the device: over a run of ticks
/// that each drain a report, with the other relay there throughout, the
/// device is handed one report for each tick, in the order in which they
/// were drained. The controller side hands each on as drained, and so does
/// the gadget side but for the patches that it splices in.
pub proof fn lemma_reports_are_written_in_order(
    kind: RelayKind,
    ticks: Seq<Surroundings>,
    upto: int,
)
    requires
        0 <= upto <= ticks.len(),
        peer_stays(ticks, upto),
        forall|i: int| 0 <= i < upto ==> (#[trigger] ticks[i]).drained is Entry,
    ensures
        written_by(kind, ticks, upto) == Seq::new(
            upto as nat,
            |i: int| outgoing(kind, ticks[i].drained->Entry_0, ticks[i].pending),
        ),
        kind == RelayKind::Controller ==> written_by(kind, ticks, upto) == Seq::new(
            upto as nat,
            |i: int| ticks[i].drained->Entry_0,
        ),
    decreases upto,
{
    if upto > 0 {
        lemma_reports_are_written_in_order(kind, ticks, upto - 1);
        lemma_relay_keeps_ticking(kind, ticks, upto - 1);
        lemma_tick(kind, ticks[upto - 1]);
    }
}

/// Reports keep their order on the way from the device: over a run of ticks
/// in which each read gives a report, with the other relay there throughout,
/// the outbound queue is handed one report for each tick, whole and in the
/// order in which they were read.
pub proof fn lemma_reports_are_forwarded_in_order(
    kind: RelayKind,
    ticks: Seq<Surroundings>,
    upto: int,
)
    requires
        0 <= upto <= ticks.len(),
        peer_stays(ticks, upto),
        forall|i: int| 0 <= i < upto ==> (#[trigger] ticks[i]).read is Data,
    ensures
        forwarded_by(kind, ticks, upto) == Seq::new(upto as nat, |i: int| ticks[i].read->Data_0),
    decreases upto,
{
    if upto > 0 {
        lemma_reports_are_forwarded_in_order(kind, ticks, upto - 1);
        lemma_relay_keeps_ticking(kind, ticks, upto - 1);
        lemma_tick(kind, ticks[upto - 1]);
    }
}

/// The oldest patch of a MIDI queue, which is what a poll finds.
pub open spec fn oldest(queue: Seq<SplicePatch>) -> Option<SplicePatch> {
    if queue.len() > 0 {
        Some(queue[0])
    } else {
        None
    }
}

/// The MIDI queue as a tick leaves it: without its oldest patch where the
/// tick polled it, and as it was where the tick did not.
pub open spec fn queue_after(kind: RelayKind, around: Surroundings, queue: Seq<SplicePatch>) -> Seq<
    SplicePatch,
> {
    if polls_queue(kind, around) && queue.len() > 0 {
        queue.drop_first()
    } else {
        queue
    }
}

/// The number of ticks among the first `upto` that poll the MIDI queue.
pub open spec fn polling_ticks(kind: RelayKind, ticks: Seq<Surroundings>, upto: int) -> nat
    decreases upto,
{
    if upto <= 0 {
        0
    } else {
        polling_ticks(kind, ticks, upto - 1) + if polls_queue(kind, ticks[upto - 1]) {
            1nat
        } else {
            0nat
        }
    }
}

/// The MIDI queue as the first `upto` ticks leave it.
pub open spec fn queue_before(
    kind: RelayKind,
    queue: Seq<SplicePatch>,
    ticks: Seq<Surroundings>,
    upto: int,
) -> Seq<SplicePatch>
    decreases upto,
{
    if upto <= 0 {
        queue
    } else {
        queue_after(kind, ticks[upto - 1], queue_before(kind, queue, ticks, upto - 1))
    }
}

/// Whether each tick of a run finds, when it polls, the oldest patch that
/// the ticks before it have left in the queue.
pub open spec fn fed_from(kind: RelayKind, queue: Seq<SplicePatch>, ticks: Seq<Surroundings>) -> bool {
    forall|i: int|
        0 <= i < ticks.len() ==> (#[trigger] ticks[i]).pending == oldest(
            queue_before(kind, queue, ticks, i),
        )
}

/// Each polling tick takes one patch off the queue, from its front, and no
/// other tick takes any.
pub proof fn lemma_queue_before(
    kind: RelayKind,
    queue: Seq<SplicePatch>,
    ticks: Seq<Surroundings>,
    upto: int,
)
    requires
        0 <= upto <= ticks.len(),
    ensures
        polling_ticks(kind, ticks, upto) <= queue.len() ==> queue_before(kind, queue, ticks, upto)
            == queue.skip(polling_ticks(kind, ticks, upto) as int),
        polling_ticks(kind, ticks, upto) > queue.len() ==> queue_before(kind, queue, ticks, upto)
            == Seq::<SplicePatch>::empty(),
    decreases upto,
{
    if upto > 0 {
        lemma_queue_before(kind, queue, ticks, upto - 1);
        let taken = polling_ticks(kind, ticks, upto - 1);
        let before = queue_before(kind, queue, ticks, upto - 1);
        if polls_queue(kind, ticks[upto - 1]) && taken < queue.len() {
            assert(before.drop_first() =~= queue.skip(taken as int + 1));
        }
    }
}

/// Patches are spliced in the order in which they were queued, one for each
/// tick of the gadget side that drains an input report with room for one:
/// the first such tick writes its report with the oldest patch, the next
/// with the one after it, and so on until the queue is used up; from then on
/// the reports are written as drained. Ticks that drain no such report take
/// no patch.
pub proof fn lemma_patches_are_spliced_in_order(
    queue: Seq<SplicePatch>,
    ticks: Seq<Surroundings>,
    i: int,
)
    requires
        fed_from(RelayKind::Gadget, queue, ticks),
        0 <= i < ticks.len(),
        ticks[i].drained is Entry,
    ensures
        ({
            let report = ticks[i].drained->Entry_0;
            let earlier = polling_ticks(RelayKind::Gadget, ticks, i);
            &&& tick(RelayKind::Gadget, ticks[i]) matches Some((_, effects))
            &&& effects.written == seq![
                if takes_patch(report) && earlier < queue.len() {
                    spliced(report, queue[earlier as int])
                } else {
                    report
                },
            ]
            &&& effects.polls == if takes_patch(report) {
                1nat
            } else {
                0nat
            }
        }),
{
    lemma_tick(RelayKind::Gadget, ticks[i]);
    lemma_queue_before(RelayKind::Gadget, queue, ticks, i);
}

/// A NoteOn that was forwarded `repeat` times shows in the next `repeat`
/// input reports: with its events at the front of the MIDI queue, each of the
/// first `repeat` ticks of the gadget side that drain an input report with
/// room for a patch writes that report with the patch of the note, whatever
/// mapping `encode` gives the patches.
pub proof fn lemma_repeated_note_shows_in_consecutive_reports(
    message: Seq<u8>,
    repeat: nat,
    encode: spec_fn(MidiMessageData) -> SplicePatch,
    later: Seq<SplicePatch>,
    ticks: Seq<Surroundings>,
    i: int,
)
    requires
        decoded_message(message) is Ok,
        decoded_message(message)->Ok_0.status_byte == MidiMessageTypes::NoteOn,
        fed_from(
            RelayKind::Gadget,
            forwarded(message, repeat)->Ok_0.map_values(encode) + later,
            ticks,
        ),
        0 <= i < ticks.len(),
        ticks[i].drained is Entry,
        takes_patch(ticks[i].drained->Entry_0),
        polling_ticks(RelayKind::Gadget, ticks, i) < repeat,
    ensures
        tick(RelayKind::Gadget, ticks[i]) matches Some((_, effects)) && effects.written == seq![
            spliced(ticks[i].drained->Entry_0, encode(decoded_message(message)->Ok_0)),
        ],
{
    let queue = forwarded(message, repeat)->Ok_0.map_values(encode) + later;
    lemma_patches_are_spliced_in_order(queue, ticks, i);
}

} // verus!
