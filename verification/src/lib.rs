//! Decision logic of a relay that bridges a physical game controller and a USB
//! HID gadget, and that splices the note events of a MIDI input into the
//! input reports on their way to the gadget.
//!
//! The crate performs no I/O and owns no queue. Each of the two relays is a
//! state machine: its driver carries out the action that a step asks for and
//! hands the outcome back as the next event.
//!
//! - [`midi`] decodes raw MIDI messages, picks the input port and says which
//!   events a message puts on the MIDI queue.
//! - [`report`] holds the splice of a patch into an input report.
//! - [`relay`] holds the two relays.
//! - [`tick`] models a driven relay and proves what holds of every tick and
//!   of every run of ticks.
//! - [`logging`] holds the rule by which the logger lets records through.

pub mod logging;
pub mod midi;
pub mod relay;
pub mod report;
pub mod tick;
