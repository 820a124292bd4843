use midi_hid_relay::midi::{note_events, MidiMessageData, MidiMessageTypes, NOTE_REPEAT};
use midi_hid_relay::relay::{
    start_controller, start_gadget, Action, Drained, Event, Fault, Phase, Reaction, ReadOutcome,
    Relay, RelayKind, StepError, TICK_PERIOD_MS,
};
use midi_hid_relay::report::SplicePatch;
use std::collections::VecDeque;

fn quiet(action: Action) -> Result<Reaction, StepError> {
    Ok(Reaction { action, fault: None })
}

fn faulty(action: Action, fault: Fault) -> Result<Reaction, StepError> {
    Ok(Reaction { action, fault: Some(fault) })
}

fn marker_report() -> Vec<u8> {
    let mut report = vec![0u8; 64];
    report[0] = 0x30;
    report[3] = 0xFF;
    report[4] = 0xFF;
    report[5] = 0xFF;
    report
}

/// A mapping from a note to a patch, standing in for the one that the
/// relay's user brings.
fn patch_for(data: &MidiMessageData) -> SplicePatch {
    SplicePatch { bytes: [0xA0 | data.channel, data.data_byte1, 0x0C] }
}

/// In-memory surroundings of one relay.
struct Bench {
    inbound: VecDeque<Vec<u8>>,
    inbound_open: bool,
    midi: VecDeque<MidiMessageData>,
    device_reads: VecDeque<ReadOutcome>,
    write_fails: bool,
    peer_alive: bool,
    written: Vec<Vec<u8>>,
    forwarded: Vec<Vec<u8>>,
    faults: Vec<Fault>,
    polls: usize,
    reads: usize,
    slept: Vec<u64>,
}

impl Bench {
    fn new() -> Bench {
        Bench {
            inbound: VecDeque::new(),
            inbound_open: true,
            midi: VecDeque::new(),
            device_reads: VecDeque::new(),
            write_fails: false,
            peer_alive: true,
            written: Vec::new(),
            forwarded: Vec::new(),
            faults: Vec::new(),
            polls: 0,
            reads: 0,
            slept: Vec::new(),
        }
    }

    /// Runs one tick as a driver does. Tells whether the relay goes on.
    fn tick(&mut self, relay: &mut Relay) -> bool {
        let mut event = Event::Tick;
        loop {
            let reaction = relay.step(event).unwrap();
            if let Some(fault) = reaction.fault {
                self.faults.push(fault);
            }
            event = match reaction.action {
                Action::DrainInbound => Event::Drained(match self.inbound.pop_front() {
                    Some(report) => Drained::Entry(report),
                    None if self.inbound_open => Drained::Empty,
                    None => Drained::Disconnected,
                }),
                Action::PollMidi => {
                    self.polls += 1;
                    Event::MidiPolled(self.midi.pop_front().map(|data| patch_for(&data)))
                }
                Action::WriteDevice(report) => {
                    if self.write_fails {
                        Event::Written(false)
                    } else {
                        self.written.push(report);
                        Event::Written(true)
                    }
                }
                Action::ReadDevice => {
                    self.reads += 1;
                    Event::Read(self.device_reads.pop_front().unwrap_or(ReadOutcome::WouldBlock))
                }
                Action::Forward(report) => {
                    if self.peer_alive {
                        self.forwarded.push(report);
                    }
                    Event::Forwarded(self.peer_alive)
                }
                Action::Sleep(millis) => {
                    self.slept.push(millis);
                    return true;
                }
                Action::Terminate => return false,
            };
        }
    }
}

#[test]
fn relays_start_idle() {
    let gadget = start_gadget();
    assert_eq!(gadget.kind(), RelayKind::Gadget);
    assert_eq!(gadget.phase(), &Phase::Idle);
    assert!(!gadget.is_halted());
    let controller = start_controller();
    assert_eq!(controller.kind(), RelayKind::Controller);
    assert_eq!(controller.phase(), &Phase::Idle);
    assert!(!controller.is_halted());
}

#[test]
fn tick_period_is_five_milliseconds() {
    assert_eq!(TICK_PERIOD_MS, 5);
}

#[test]
fn quiet_tick_drains_reads_and_sleeps() {
    for mut relay in [start_gadget(), start_controller()] {
        assert_eq!(relay.step(Event::Tick), quiet(Action::DrainInbound));
        assert_eq!(relay.phase(), &Phase::AwaitDrain);
        assert_eq!(relay.step(Event::Drained(Drained::Empty)), quiet(Action::ReadDevice));
        assert_eq!(relay.phase(), &Phase::AwaitRead);
        assert_eq!(
            relay.step(Event::Read(ReadOutcome::WouldBlock)),
            quiet(Action::Sleep(5))
        );
        assert_eq!(relay.phase(), &Phase::Idle);
        assert_eq!(relay.step(Event::Tick), quiet(Action::DrainInbound));
    }
}

#[test]
fn marker_report_with_pending_note_is_spliced() {
    let note = MidiMessageData::new(0x92, 5, 100).unwrap();
    assert_eq!(note.status_byte, MidiMessageTypes::NoteOn);
    assert_eq!(note.channel, 2);
    assert_eq!(note.data_byte1, 5);
    let patch = patch_for(&note);

    let mut relay = start_gadget();
    assert_eq!(relay.step(Event::Tick), quiet(Action::DrainInbound));
    assert_eq!(
        relay.step(Event::Drained(Drained::Entry(marker_report()))),
        quiet(Action::PollMidi)
    );
    assert_eq!(relay.phase(), &Phase::AwaitMidi(marker_report()));
    let reaction = relay.step(Event::MidiPolled(Some(patch))).unwrap();
    assert_eq!(reaction.fault, None);
    let sent = match reaction.action {
        Action::WriteDevice(sent) => sent,
        other => panic!("unexpected action {:?}", other),
    };
    let before = marker_report();
    assert_eq!(sent.len(), before.len());
    assert_eq!(sent[3..6], patch.bytes);
    assert_eq!(sent[3..6], [0xA2, 5, 0x0C]);
    assert_eq!(sent[..3], before[..3]);
    assert_eq!(sent[..3], [0x30, 0, 0]);
    assert_eq!(sent[6..], before[6..]);
    assert_eq!(relay.phase(), &Phase::AwaitWrite);
}

#[test]
fn marker_report_without_pending_note_is_written_as_it_came() {
    let mut relay = start_gadget();
    relay.step(Event::Tick).unwrap();
    assert_eq!(
        relay.step(Event::Drained(Drained::Entry(marker_report()))),
        quiet(Action::PollMidi)
    );
    assert_eq!(
        relay.step(Event::MidiPolled(None)),
        quiet(Action::WriteDevice(marker_report()))
    );
}

#[test]
fn other_report_is_written_without_a_poll() {
    for first in [0x00u8, 0x21, 0x31, 0x80, 0xFF] {
        let mut report = marker_report();
        report[0] = first;
        let mut relay = start_gadget();
        relay.step(Event::Tick).unwrap();
        assert_eq!(
            relay.step(Event::Drained(Drained::Entry(report.clone()))),
            quiet(Action::WriteDevice(report))
        );
        assert_eq!(relay.phase(), &Phase::AwaitWrite);
    }
}

#[test]
fn other_report_is_not_touched_with_notes_pending() {
    let mut bench = Bench::new();
    bench.midi.extend(note_events(&[0x92, 5, 100], NOTE_REPEAT).unwrap());
    let mut report = marker_report();
    report[0] = 0x21;
    bench.inbound.push_back(report.clone());
    let mut relay = start_gadget();
    assert!(bench.tick(&mut relay));
    assert_eq!(bench.written, vec![report]);
    assert_eq!(bench.polls, 0);
    assert_eq!(bench.midi.len(), 2);
}

#[test]
fn empty_and_short_reports_pass_without_a_poll() {
    for report in [vec![], vec![0x30], vec![0x30, 1, 2, 3, 4]] {
        let mut relay = start_gadget();
        relay.step(Event::Tick).unwrap();
        assert_eq!(
            relay.step(Event::Drained(Drained::Entry(report.clone()))),
            quiet(Action::WriteDevice(report))
        );
    }
}

#[test]
fn controller_side_never_polls() {
    let mut relay = start_controller();
    relay.step(Event::Tick).unwrap();
    assert_eq!(
        relay.step(Event::Drained(Drained::Entry(marker_report()))),
        quiet(Action::WriteDevice(marker_report()))
    );
}

#[test]
fn failed_write_is_reported_and_the_read_follows() {
    for mut relay in [start_gadget(), start_controller()] {
        relay.step(Event::Tick).unwrap();
        relay.step(Event::Drained(Drained::Entry(vec![0x21, 1, 2]))).unwrap();
        assert_eq!(
            relay.step(Event::Written(false)),
            faulty(Action::ReadDevice, Fault::WriteFailed)
        );
        assert_eq!(relay.phase(), &Phase::AwaitRead);
        assert_eq!(
            relay.step(Event::Read(ReadOutcome::Data(vec![7; 64]))),
            quiet(Action::Forward(vec![7; 64]))
        );
        assert_eq!(relay.step(Event::Forwarded(true)), quiet(Action::Sleep(5)));
        assert_eq!(relay.step(Event::Tick), quiet(Action::DrainInbound));
    }
}

#[test]
fn successful_write_is_followed_by_the_read_in_silence() {
    let mut relay = start_controller();
    relay.step(Event::Tick).unwrap();
    relay.step(Event::Drained(Drained::Entry(vec![0x80, 5]))).unwrap();
    assert_eq!(relay.step(Event::Written(true)), quiet(Action::ReadDevice));
}

#[test]
fn failed_writes_do_not_stop_later_ticks() {
    let mut bench = Bench::new();
    bench.write_fails = true;
    for i in 0..4u8 {
        bench.inbound.push_back(vec![0x21, i]);
        bench.device_reads.push_back(ReadOutcome::Data(vec![i; 64]));
    }
    let mut relay = start_controller();
    for _ in 0..4 {
        assert!(bench.tick(&mut relay));
    }
    assert_eq!(bench.faults, vec![Fault::WriteFailed; 4]);
    assert_eq!(bench.reads, 4);
    assert_eq!(
        bench.forwarded,
        vec![vec![0u8; 64], vec![1; 64], vec![2; 64], vec![3; 64]]
    );
    assert_eq!(bench.slept, vec![5; 4]);
    assert!(!relay.is_halted());
}

#[test]
fn would_block_read_is_silent_and_forwards_nothing() {
    let mut bench = Bench::new();
    bench.inbound.push_back(vec![0x21, 0]);
    for mut relay in [start_gadget(), start_controller()] {
        assert!(bench.tick(&mut relay));
        assert!(bench.tick(&mut relay));
    }
    assert_eq!(bench.reads, 4);
    assert!(bench.forwarded.is_empty());
    assert!(bench.faults.is_empty());
}

#[test]
fn failed_read_is_reported_and_ends_the_tick() {
    for mut relay in [start_gadget(), start_controller()] {
        relay.step(Event::Tick).unwrap();
        relay.step(Event::Drained(Drained::Empty)).unwrap();
        assert_eq!(
            relay.step(Event::Read(ReadOutcome::Failed)),
            faulty(Action::Sleep(5), Fault::ReadFailed)
        );
        assert_eq!(relay.phase(), &Phase::Idle);
    }
}

#[test]
fn read_data_is_forwarded_whole() {
    let mut relay = start_gadget();
    relay.step(Event::Tick).unwrap();
    relay.step(Event::Drained(Drained::Empty)).unwrap();
    let mut buffer = vec![0u8; 64];
    buffer[0] = 0x80;
    buffer[1] = 0x05;
    assert_eq!(
        relay.step(Event::Read(ReadOutcome::Data(buffer.clone()))),
        quiet(Action::Forward(buffer))
    );
    assert_eq!(relay.phase(), &Phase::AwaitForward);
    assert_eq!(relay.step(Event::Forwarded(true)), quiet(Action::Sleep(5)));
}

#[test]
fn refused_forward_is_fatal() {
    for mut relay in [start_gadget(), start_controller()] {
        relay.step(Event::Tick).unwrap();
        relay.step(Event::Drained(Drained::Empty)).unwrap();
        relay.step(Event::Read(ReadOutcome::Data(vec![1; 64]))).unwrap();
        assert_eq!(
            relay.step(Event::Forwarded(false)),
            faulty(Action::Terminate, Fault::PeerGone)
        );
        assert!(relay.is_halted());
        assert_eq!(relay.phase(), &Phase::Halted);
    }
}

#[test]
fn halted_relay_refuses_every_event() {
    let mut relay = start_gadget();
    relay.step(Event::Tick).unwrap();
    relay.step(Event::Drained(Drained::Empty)).unwrap();
    relay.step(Event::Read(ReadOutcome::Data(vec![1; 64]))).unwrap();
    relay.step(Event::Forwarded(false)).unwrap();
    for event in [
        Event::Tick,
        Event::Drained(Drained::Empty),
        Event::MidiPolled(None),
        Event::Written(true),
        Event::Read(ReadOutcome::WouldBlock),
        Event::Forwarded(true),
    ] {
        assert_eq!(relay.step(event), Err(StepError::Halted));
        assert!(relay.is_halted());
    }
}

#[test]
fn unexpected_event_is_refused_and_changes_nothing() {
    let mut relay = start_gadget();
    assert_eq!(relay.step(Event::Written(true)), Err(StepError::Unexpected));
    assert_eq!(relay.step(Event::Drained(Drained::Empty)), Err(StepError::Unexpected));
    assert_eq!(relay.phase(), &Phase::Idle);
    relay.step(Event::Tick).unwrap();
    assert_eq!(relay.step(Event::Tick), Err(StepError::Unexpected));
    assert_eq!(relay.step(Event::MidiPolled(None)), Err(StepError::Unexpected));
    assert_eq!(relay.phase(), &Phase::AwaitDrain);
    relay.step(Event::Drained(Drained::Entry(marker_report()))).unwrap();
    assert_eq!(relay.step(Event::Written(true)), Err(StepError::Unexpected));
    assert_eq!(relay.step(Event::Forwarded(true)), Err(StepError::Unexpected));
    assert_eq!(relay.phase(), &Phase::AwaitMidi(marker_report()));
    assert_eq!(
        relay.step(Event::MidiPolled(None)),
        quiet(Action::WriteDevice(marker_report()))
    );
    assert_eq!(
        relay.step(Event::Read(ReadOutcome::WouldBlock)),
        Err(StepError::Unexpected)
    );
    assert_eq!(relay.phase(), &Phase::AwaitWrite);
}

#[test]
fn lost_producer_is_fatal() {
    for mut relay in [start_gadget(), start_controller()] {
        relay.step(Event::Tick).unwrap();
        assert_eq!(
            relay.step(Event::Drained(Drained::Disconnected)),
            faulty(Action::Terminate, Fault::InboundClosed)
        );
        assert_eq!(relay.phase(), &Phase::Halted);
        assert!(relay.is_halted());
        assert_eq!(
            relay.step(Event::Read(ReadOutcome::WouldBlock)),
            Err(StepError::Halted)
        );
        assert_eq!(relay.step(Event::Tick), Err(StepError::Halted));
    }
}

#[test]
fn lost_producer_ends_the_tick_before_the_read() {
    for mut relay in [start_gadget(), start_controller()] {
        let mut bench = Bench::new();
        bench.inbound_open = false;
        bench.midi.extend(note_events(&[0x92, 5, 100], NOTE_REPEAT).unwrap());
        bench.device_reads.push_back(ReadOutcome::Data(vec![3; 64]));
        assert!(!bench.tick(&mut relay));
        assert_eq!(bench.faults, vec![Fault::InboundClosed]);
        assert_eq!(bench.reads, 0);
        assert_eq!(bench.polls, 0);
        assert!(bench.written.is_empty());
        assert!(bench.forwarded.is_empty());
        assert!(bench.slept.is_empty());
        assert_eq!(bench.device_reads.len(), 1);
        assert!(relay.is_halted());
    }
}

#[test]
fn queued_reports_are_still_written_after_the_producer_is_gone() {
    let mut bench = Bench::new();
    bench.inbound_open = false;
    bench.inbound.push_back(vec![0x21, 1]);
    bench.inbound.push_back(vec![0x21, 2]);
    let mut relay = start_controller();
    assert!(bench.tick(&mut relay));
    assert!(bench.tick(&mut relay));
    assert_eq!(bench.written, vec![vec![0x21, 1], vec![0x21, 2]]);
    assert!(bench.faults.is_empty());
    assert!(!bench.tick(&mut relay));
    assert_eq!(bench.faults, vec![Fault::InboundClosed]);
    assert_eq!(bench.reads, 2);
}

#[test]
fn empty_inbound_queue_is_no_fault() {
    let mut bench = Bench::new();
    let mut relay = start_gadget();
    for _ in 0..3 {
        assert!(bench.tick(&mut relay));
    }
    assert!(bench.faults.is_empty());
    assert_eq!(bench.reads, 3);
    assert_eq!(bench.slept, vec![5; 3]);
}

#[test]
fn notes_are_spliced_in_the_order_of_their_arrival() {
    let mut bench = Bench::new();
    bench.midi.extend(note_events(&[0x91, 10, 100], 1).unwrap());
    bench.midi.extend(note_events(&[0x92, 20, 100], 1).unwrap());
    bench.inbound.push_back(marker_report());
    bench.inbound.push_back(vec![0x21; 64]);
    bench.inbound.push_back(marker_report());
    bench.inbound.push_back(marker_report());
    let mut relay = start_gadget();
    for _ in 0..5 {
        assert!(bench.tick(&mut relay));
    }
    let mut first = marker_report();
    first[3..6].copy_from_slice(&[0xA1, 10, 0x0C]);
    let mut second = marker_report();
    second[3..6].copy_from_slice(&[0xA2, 20, 0x0C]);
    assert_eq!(
        bench.written,
        vec![first, vec![0x21; 64], second, marker_report()]
    );
    assert_eq!(bench.polls, 3);
    assert!(bench.midi.is_empty());
    assert!(bench.faults.is_empty());
}

#[test]
fn repeated_note_reaches_two_consecutive_input_reports() {
    let mut bench = Bench::new();
    bench.midi.extend(note_events(&[0x92, 5, 100], NOTE_REPEAT).unwrap());
    for _ in 0..3 {
        bench.inbound.push_back(marker_report());
    }
    let mut relay = start_gadget();
    for _ in 0..3 {
        assert!(bench.tick(&mut relay));
    }
    let mut hit = marker_report();
    hit[3..6].copy_from_slice(&[0xA2, 5, 0x0C]);
    assert_eq!(bench.written, vec![hit.clone(), hit, marker_report()]);
}

#[test]
fn at_most_one_report_is_drained_in_a_tick() {
    let mut bench = Bench::new();
    for i in 0..3u8 {
        bench.inbound.push_back(vec![0x21, i]);
    }
    let mut relay = start_controller();
    assert!(bench.tick(&mut relay));
    assert_eq!(bench.written, vec![vec![0x21, 0]]);
    assert_eq!(bench.inbound.len(), 2);
    assert!(bench.tick(&mut relay));
    assert_eq!(bench.written, vec![vec![0x21, 0], vec![0x21, 1]]);
}

#[test]
fn lost_consumer_stops_the_relay_when_there_is_something_to_forward() {
    let mut bench = Bench::new();
    bench.peer_alive = false;
    bench.device_reads.push_back(ReadOutcome::WouldBlock);
    bench.device_reads.push_back(ReadOutcome::Data(vec![3; 64]));
    let mut relay = start_gadget();
    assert!(bench.tick(&mut relay));
    assert!(!bench.tick(&mut relay));
    assert_eq!(bench.faults, vec![Fault::PeerGone]);
    assert_eq!(bench.slept, vec![5]);
    assert!(relay.is_halted());
    assert!(bench.forwarded.is_empty());
}

#[test]
fn reports_keep_their_order_in_both_directions() {
    let mut bench = Bench::new();
    for i in 0..10u8 {
        bench.inbound.push_back(vec![0x21, i]);
        bench.device_reads.push_back(ReadOutcome::Data(vec![i; 64]));
    }
    let mut relay = start_controller();
    for _ in 0..10 {
        assert!(bench.tick(&mut relay));
    }
    let drained: Vec<Vec<u8>> = (0..10u8).map(|i| vec![0x21, i]).collect();
    let read: Vec<Vec<u8>> = (0..10u8).map(|i| vec![i; 64]).collect();
    assert_eq!(bench.written, drained);
    assert_eq!(bench.forwarded, read);
    assert!(bench.faults.is_empty());
}
