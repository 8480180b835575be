use rvemu_harness::profile::FreqEntry;
use rvemu_harness::render::{render_report, u64_to_dec, u64_to_hex, Report};

const DASHES: &str = "-------------------------------------------------------------------------------------------";
const EQUALS: &str = "===========================================================================================";

#[test]
fn decimal_rendering() {
    assert_eq!(u64_to_dec(0), "0");
    assert_eq!(u64_to_dec(7), "7");
    assert_eq!(u64_to_dec(42), "42");
    assert_eq!(u64_to_dec(100), "100");
    assert_eq!(u64_to_dec(u64::MAX), "18446744073709551615");
}

#[test]
fn hexadecimal_rendering() {
    assert_eq!(u64_to_hex(0), "0");
    assert_eq!(u64_to_hex(10), "a");
    assert_eq!(u64_to_hex(0x8000_0000), "80000000");
    assert_eq!(u64_to_hex(0xdead_beef), "deadbeef");
    assert_eq!(u64_to_hex(u64::MAX), "ffffffffffffffff");
}

fn sample_report(freq: Option<Vec<FreqEntry>>) -> Report {
    Report {
        xregs_text: "x0 0".to_string(),
        fregs_text: "f0 0".to_string(),
        state_text: "mstatus 0".to_string(),
        pc: 0x8000_0004,
        freq,
    }
}

#[test]
fn report_without_table_has_eight_lines() {
    let lines = render_report(&sample_report(None));
    assert_eq!(lines.len(), 8);
    assert_eq!(lines[0], DASHES);
    assert_eq!(lines[1], "x0 0");
    assert_eq!(lines[2], DASHES);
    assert_eq!(lines[3], "f0 0");
    assert_eq!(lines[4], DASHES);
    assert_eq!(lines[5], "mstatus 0");
    assert_eq!(lines[6], DASHES);
    assert_eq!(lines[7], "pc: 0x80000004");
}

#[test]
fn report_with_table_frames_one_line_per_entry() {
    let freq = vec![
        FreqEntry { name: "addi".to_string(), count: 2 },
        FreqEntry { name: "sw".to_string(), count: 1 },
    ];
    let lines = render_report(&sample_report(Some(freq)));
    assert_eq!(lines.len(), 12);
    assert_eq!(lines[7], "pc: 0x80000004");
    assert_eq!(lines[8], EQUALS);
    assert_eq!(lines[9], "addi, 2");
    assert_eq!(lines[10], "sw, 1");
    assert_eq!(lines[11], EQUALS);
}

#[test]
fn report_with_empty_table_still_frames_it() {
    let lines = render_report(&sample_report(Some(Vec::new())));
    assert_eq!(lines.len(), 10);
    assert_eq!(lines[8], EQUALS);
    assert_eq!(lines[9], EQUALS);
}
