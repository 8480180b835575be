use rvemu_harness::flags::RunFlags;
use rvemu_harness::harness::run_with;
use rvemu_harness::images::storage_or_empty;
use rvemu_harness::machine::{Machine, BOOT_BASE};
use rvemu_harness::render::render_report;

// addi x31, x0, 42
const ADDI_X31: [u8; 4] = [0x93, 0x0f, 0xa0, 0x02];

// sw x0, 0(x0): stores to an unmapped address, which the machine reports
// as a fatal trap and stops on, after counting the one executed instruction.
const SW_FAULT: [u8; 4] = [0x23, 0x20, 0x00, 0x00];

fn run_machine(boot: Vec<u8>, storage: Vec<u8>, flags: RunFlags) -> Machine {
    let mut m = Machine::new();
    assert!(boot.len() as u64 <= 0x4000_0000);
    m.load_boot(boot);
    m.attach_storage(storage);
    m.set_start_pc();
    m.apply_flags(flags);
    m.run();
    m
}

#[test]
fn no_storage_path_gives_empty_buffer() {
    let empty = storage_or_empty(None);
    assert!(empty.is_empty());
    let kept = storage_or_empty(Some(vec![1, 2, 3]));
    assert_eq!(kept, vec![1, 2, 3]);
}

#[test]
fn pc_is_configured_to_boot_base_even_for_empty_image() {
    let mut m = Machine::new();
    m.load_boot(Vec::new());
    m.attach_storage(Vec::new());
    m.set_start_pc();
    assert_eq!(m.configured_pc(), BOOT_BASE);
    assert_eq!(m.configured_pc(), 0x8000_0000);
}

#[test]
fn run_executes_loaded_instruction() {
    let m = run_machine(ADDI_X31.to_vec(), Vec::new(), RunFlags::off());
    assert_eq!(m.xreg(31), 42);
}

#[test]
fn empty_boot_image_still_reports() {
    let report = run_with(Vec::new(), Vec::new(), RunFlags::off());
    let lines = render_report(&report);
    assert_eq!(lines.len(), 8);
    assert!(report.freq.is_none());
}

#[test]
fn attaching_empty_storage_is_not_an_error() {
    let report = run_with(ADDI_X31.to_vec(), storage_or_empty(None), RunFlags::off());
    let lines = render_report(&report);
    assert_eq!(lines.len(), 8);
}

#[test]
fn profiling_disabled_omits_table() {
    let report = run_with(ADDI_X31.to_vec(), Vec::new(), RunFlags::new(false, false));
    assert!(report.freq.is_none());
    let lines = render_report(&report);
    assert_eq!(lines.len(), 8);
}

#[test]
fn profiling_counts_each_executed_instruction() {
    // addi x1, x0, 1; addi x2, x0, 2; then the faulting store.
    let mut boot = Vec::new();
    boot.extend_from_slice(&[0x93, 0x00, 0x10, 0x00]);
    boot.extend_from_slice(&[0x13, 0x01, 0x20, 0x00]);
    boot.extend_from_slice(&SW_FAULT);
    let report = run_with(boot, Vec::new(), RunFlags::new(false, true));
    let table = report.freq.expect("profiling was enabled");
    assert_eq!(table.len(), 2);
    assert_eq!(table[0].name, "addi");
    assert_eq!(table[0].count, 2);
    assert_eq!(table[1].name, "sw");
    assert_eq!(table[1].count, 1);
    for entry in &table {
        assert!(entry.count >= 1);
    }
    for w in table.windows(2) {
        assert!(w[0].count >= w[1].count);
    }
}

#[test]
fn halt_scenario_single_instruction() {
    let report = run_with(SW_FAULT.to_vec(), Vec::new(), RunFlags::new(false, true));
    let table = report.freq.expect("profiling was enabled");
    assert_eq!(table.len(), 1);
    assert_eq!(table[0].name, "sw");
    assert_eq!(table[0].count, 1);
    // The machine's one defined outcome for a fatal trap: the program
    // counter is redirected to the (zero) trap vector.
    assert_eq!(report.pc, 0);
}

#[test]
fn identical_runs_are_identical() {
    let flags = RunFlags::new(false, true);
    let m1 = run_machine(ADDI_X31.to_vec(), vec![7, 8, 9], flags);
    let m2 = run_machine(ADDI_X31.to_vec(), vec![7, 8, 9], flags);
    for i in 0..32 {
        assert_eq!(m1.xreg(i), m2.xreg(i));
    }
    let o1 = m1.observe();
    let o2 = m2.observe();
    assert_eq!(o1.pc, o2.pc);
    assert_eq!(o1.xregs_text, o2.xregs_text);
    assert_eq!(o1.fregs_text, o2.fregs_text);
    assert_eq!(o1.freq_pairs.len(), o2.freq_pairs.len());
    for (a, b) in o1.freq_pairs.iter().zip(o2.freq_pairs.iter()) {
        assert_eq!(a.name, b.name);
        assert_eq!(a.count, b.count);
    }
}

#[test]
fn tracing_does_not_change_results() {
    let quiet = run_machine(ADDI_X31.to_vec(), Vec::new(), RunFlags::new(false, true));
    let traced = run_machine(ADDI_X31.to_vec(), Vec::new(), RunFlags::new(true, true));
    for i in 0..32 {
        assert_eq!(quiet.xreg(i), traced.xreg(i));
    }
    let oq = quiet.observe();
    let ot = traced.observe();
    assert_eq!(oq.pc, ot.pc);
    assert_eq!(oq.xregs_text, ot.xregs_text);
    assert_eq!(oq.freq_pairs.len(), ot.freq_pairs.len());
    for (a, b) in oq.freq_pairs.iter().zip(ot.freq_pairs.iter()) {
        assert_eq!(a.name, b.name);
        assert_eq!(a.count, b.count);
    }
}
