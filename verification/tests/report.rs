use midi_hid_relay::report::{
    is_input_report, splice, SplicePatch, INPUT_REPORT_MARKER, PATCH_LEN, PATCH_OFFSET, REPORT_LEN,
};

fn marker_report() -> Vec<u8> {
    let mut report = vec![0u8; REPORT_LEN];
    report[0] = 0x30;
    report[3] = 0xFF;
    report[4] = 0xFF;
    report[5] = 0xFF;
    report
}

#[test]
fn constants() {
    assert_eq!(INPUT_REPORT_MARKER, 0x30);
    assert_eq!(PATCH_OFFSET, 3);
    assert_eq!(PATCH_LEN, 3);
    assert_eq!(REPORT_LEN, 64);
}

#[test]
fn splice_overwrites_offsets_three_to_five() {
    let mut report = marker_report();
    splice(&mut report, &SplicePatch { bytes: [0x12, 0x34, 0x56] });
    let mut expected = vec![0u8; 64];
    expected[0] = 0x30;
    expected[3] = 0x12;
    expected[4] = 0x34;
    expected[5] = 0x56;
    assert_eq!(report, expected);
}

#[test]
fn splice_keeps_the_other_bytes() {
    let mut report: Vec<u8> = (0..64).map(|i| 0x80 + i as u8).collect();
    report[0] = 0x30;
    let before = report.clone();
    splice(&mut report, &SplicePatch { bytes: [1, 2, 3] });
    assert_eq!(report.len(), before.len());
    assert_eq!(report[..3], before[..3]);
    assert_eq!(report[3..6], [1, 2, 3]);
    assert_eq!(report[6..], before[6..]);
}

#[test]
fn splice_leaves_other_report_types_alone() {
    for first in [0x00u8, 0x21, 0x2F, 0x31, 0x80, 0x81, 0xFF] {
        let mut report = marker_report();
        report[0] = first;
        let before = report.clone();
        splice(&mut report, &SplicePatch { bytes: [1, 2, 3] });
        assert_eq!(report, before);
    }
}

#[test]
fn splice_leaves_a_report_without_room_alone() {
    for len in 0..6 {
        let mut report = vec![0x30u8; len];
        let before = report.clone();
        splice(&mut report, &SplicePatch { bytes: [1, 2, 3] });
        assert_eq!(report, before);
    }
}

#[test]
fn splice_fills_a_report_of_exactly_six_bytes() {
    let mut report = vec![0x30, 9, 9, 9, 9, 9];
    splice(&mut report, &SplicePatch { bytes: [1, 2, 3] });
    assert_eq!(report, vec![0x30, 9, 9, 1, 2, 3]);
}

#[test]
fn input_report_needs_marker_and_room() {
    assert!(is_input_report(&marker_report()));
    assert!(is_input_report(&[0x30, 0, 0, 0, 0, 0]));
    assert!(!is_input_report(&[0x30, 0, 0, 0, 0]));
    assert!(!is_input_report(&[0x30]));
    assert!(!is_input_report(&[]));
    assert!(!is_input_report(&[0x31, 0, 0, 0, 0, 0]));
    assert!(!is_input_report(&[0x00, 0x30, 0, 0, 0, 0, 0]));
}
