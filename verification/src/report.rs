//! Raw controller reports, and the splice that writes a patch into an input
//! report.
//!
//! A report is a sequence of bytes whose first byte tells its type. Nothing
//! else is assumed of it.

use vstd::prelude::*;

verus! {

/// The first byte of an input report, the only type of report that is spliced.
pub const INPUT_REPORT_MARKER: u8 = 0x30;

/// The offset in an input report at which a patch is written.
pub const PATCH_OFFSET: usize = 3;

/// The number of bytes of a patch.
pub const PATCH_LEN: usize = 3;

/// The size of the buffer that a device is read into. A read hands on the
/// whole buffer, however many bytes the device has filled in.
pub const REPORT_LEN: usize = 64;

/// The three bytes that stand for a note event in an input report. How they
/// follow from the event is for the caller to say.
#[derive(Debug, Clone, Copy, PartialEq, Eq)]
pub struct SplicePatch {
    pub bytes: [u8; 3],
}

/// Whether a report is an input report with room for a patch.
pub open spec fn takes_patch(report: Seq<u8>) -> bool {
    report.len() >= PATCH_OFFSET + PATCH_LEN && report[0] == INPUT_REPORT_MARKER
}

/// The report with the patch written over the bytes at offsets 3, 4 and 5,
/// where it takes a patch; the report itself where it does not.
pub open spec fn spliced(report: Seq<u8>, patch: SplicePatch) -> Seq<u8> {
    if takes_patch(report) {
        Seq::new(
            report.len(),
            |i: int|
                if PATCH_OFFSET <= i < PATCH_OFFSET + PATCH_LEN {
                    patch.bytes@[i - PATCH_OFFSET]
                } else {
                    report[i]
                },
        )
    } else {
        report
    }
}

/// The report as it leaves the splice step when `pending` is what the MIDI
/// queue held for it.
pub open spec fn spliced_with(report: Seq<u8>, pending: Option<SplicePatch>) -> Seq<u8> {
    match pending {
        Some(patch) => spliced(report, patch),
        None => report,
    }
}

/// Tells whether a report is an input report with room for a patch: one of at
/// least six bytes that starts with the marker.
pub fn is_input_report(report: &[u8]) -> (yes: bool)
    ensures
        yes == takes_patch(report@),
        yes ==> report@.len() > 0 && report@[0] == INPUT_REPORT_MARKER,
{
    report.len() >= PATCH_OFFSET + PATCH_LEN && report[0] == INPUT_REPORT_MARKER
}

/// Writes `patch` into `report` where the report takes one, and leaves every
/// other report as it is.
///
/// The length never changes, and no byte outside offsets 3 to 5 does. A
/// report that does not start with the marker is not touched at all.
pub fn splice(report: &mut Vec<u8>, patch: &SplicePatch)
    ensures
        final(report)@ == spliced(old(report)@, *patch),
        final(report)@.len() == old(report)@.len(),
        forall|i: int|
            0 <= i < old(report)@.len() && !(PATCH_OFFSET <= i < PATCH_OFFSET + PATCH_LEN)
                ==> final(report)@[i] == old(report)@[i],
        takes_patch(old(report)@) ==> forall|k: int|
            0 <= k < PATCH_LEN ==> final(report)@[PATCH_OFFSET + k] == patch.bytes@[k],
        !(old(report)@.len() > 0 && old(report)@[0] == INPUT_REPORT_MARKER) ==> final(report)@
            == old(report)@,
{
    if is_input_report(report.as_slice()) {
        report[PATCH_OFFSET] = patch.bytes[0];
        report[PATCH_OFFSET + 1] = patch.bytes[1];
        report[PATCH_OFFSET + 2] = patch.bytes[2];
    }
}

} // verus!
