//! The machine collaborator, behind a narrow trusted interface.
//!
//! The machine itself — CPU, register files, memory bus, peripheral
//! devices and the execution loop — is the `rvemu` crate's emulator and is
//! opaque here. This module wraps the handful of calls the harness makes
//! into trusted items with the contracts the emulator's source supports,
//! and wraps the emulator in a [`Machine`] whose verified methods enforce
//! the setup order the lifecycle demands: boot image before program
//! counter, everything before the run, diagnostics only after it.

use vstd::prelude::*;

use crate::flags::RunFlags;
use crate::profile::{all_counts_positive, distinct_names, FreqEntry};

verus! {

/// The fixed base address of DRAM in the machine's address space: boot
/// images are loaded there, and execution always begins there.
pub const BOOT_BASE: u64 = 0x8000_0000;

/// The machine's DRAM capacity in bytes; a boot image must fit in DRAM.
pub const DRAM_CAPACITY: u64 = 0x4000_0000;

#[verifier::external_type_specification]
#[verifier::external_body]
pub struct ExEmulator(rvemu::emulator::Emulator);

/// Relies on `rvemu::bus::DRAM_BASE`: the base address of DRAM, where
/// `initialize_dram` places a boot image.
#[verifier::external_body]
fn dram_base() -> (r: u64)
    ensures
        r == BOOT_BASE,
{
    rvemu::bus::DRAM_BASE
}

/// Relies on `Emulator::new`: a fresh machine with default state and an
/// empty instruction counter.
#[verifier::external_body]
fn emu_new() -> rvemu::emulator::Emulator {
    rvemu::emulator::Emulator::new()
}

/// Relies on `Emulator::initialize_dram`: copies the image to the start
/// of DRAM. The image must fit in DRAM's capacity, or the copy panics.
#[verifier::external_body]
fn emu_load_boot(emu: &mut rvemu::emulator::Emulator, data: Vec<u8>)
    requires
        data@.len() <= DRAM_CAPACITY,
{
    emu.initialize_dram(data);
}

/// Relies on `Emulator::initialize_disk`: attaches the bytes as the
/// contents of the virtio block device; empty bytes are accepted.
#[verifier::external_body]
fn emu_load_storage(emu: &mut rvemu::emulator::Emulator, data: Vec<u8>) {
    emu.initialize_disk(data);
}

/// Relies on `Emulator::initialize_pc`: sets the CPU's program counter.
#[verifier::external_body]
fn emu_set_pc(emu: &mut rvemu::emulator::Emulator, pc: u64) {
    emu.initialize_pc(pc);
}

/// Relies on the emulator's `is_debug` field: when set, the execution
/// loop prints a trace line per executed instruction and nothing else.
#[verifier::external_body]
fn emu_set_debug(emu: &mut rvemu::emulator::Emulator, debug: bool) {
    emu.is_debug = debug;
}

/// Relies on the CPU's `is_count` field: when set, each executed
/// instruction increments the instruction counter under its identifier.
#[verifier::external_body]
fn emu_set_count(emu: &mut rvemu::emulator::Emulator, count: bool) {
    emu.cpu.is_count = count;
}

/// Relies on `Emulator::start`: executes one instruction at a time until
/// the machine reaches its own stop condition (a fatal trap, or the
/// instruction-count bound when counting). Run-to-completion is blocking:
/// the call returns only when the machine itself stops, and a program
/// that never faults can keep it from returning. The boot image's bytes
/// are not validated at this layer, so what a malformed image does while
/// executing is the machine's own concern.
#[verifier::external_body]
fn emu_start(emu: &mut rvemu::emulator::Emulator) {
    emu.start();
}

/// Relies on the CPU's `pc` field: the current program counter.
#[verifier::external_body]
fn emu_pc(emu: &rvemu::emulator::Emulator) -> u64 {
    emu.cpu.pc
}

/// Relies on `XRegisters::read`: the value of one integer register; the
/// index must name one of the 32 registers, or the read panics.
#[verifier::external_body]
fn emu_xreg(emu: &rvemu::emulator::Emulator, index: u64) -> u64
    requires
        index < 32,
{
    emu.cpu.xregs.read(index)
}

/// Relies on `XRegisters`' display: renders every integer register with
/// its names and current value.
#[verifier::external_body]
fn emu_xregs_text(emu: &rvemu::emulator::Emulator) -> String {
    format!("{}", emu.cpu.xregs)
}

/// Relies on `FRegisters`' display: renders every floating-point register
/// with its names and current value.
#[verifier::external_body]
fn emu_fregs_text(emu: &rvemu::emulator::Emulator) -> String {
    format!("{}", emu.cpu.fregs)
}

/// Relies on `State`'s display: renders the control-and-status registers,
/// displayed opaquely as auxiliary machine state.
#[verifier::external_body]
fn emu_state_text(emu: &rvemu::emulator::Emulator) -> String {
    format!("{}", emu.cpu.state)
}

/// Relies on the CPU's instruction counter, an ordered map from
/// instruction identifier to execution count: keys are unique, and an
/// entry is created at an identifier's first occurrence with count 1 and
/// only ever incremented afterwards, so every count is at least one.
#[verifier::external_body]
fn emu_counter_pairs(emu: &rvemu::emulator::Emulator) -> (r: Vec<FreqEntry>)
    ensures
        distinct_names(r@),
        all_counts_positive(r@),
{
    emu.cpu
        .inst_counter
        .iter()
        .map(|(name, count)| FreqEntry { name: name.clone(), count: *count })
        .collect()
}

/// The machine of one run: the emulator together with the setup progress
/// the harness has made. The methods' contracts enforce the lifecycle
/// order: the boot image is loaded before the program counter is set, and
/// every setup step happens before the run; the flags are fixed once the
/// run starts.
pub struct Machine {
    emu: rvemu::emulator::Emulator,
    boot_loaded: bool,
    storage_loaded: bool,
    pc_set: bool,
    flags_set: bool,
    ran: bool,
    start_pc: u64,
    flags: RunFlags,
}

/// The machine's final observable state, read after a run: the three text
/// blocks the machine renders of itself, the final program counter, and
/// the raw (identifier, count) pairs of the instruction counter.
pub struct Observation {
    /// The integer register file, as the machine renders it.
    pub xregs_text: String,
    /// The floating-point register file, as the machine renders it.
    pub fregs_text: String,
    /// Auxiliary machine state, as the machine renders it.
    pub state_text: String,
    /// The final program counter.
    pub pc: u64,
    /// The raw instruction counter contents: unique identifiers, each
    /// with the positive number of times it was executed.
    pub freq_pairs: Vec<FreqEntry>,
}

impl Machine {
    /// Whether the boot image has been loaded into DRAM.
    pub closed spec fn boot_loaded(self) -> bool {
        self.boot_loaded
    }

    /// Whether storage contents (possibly empty) have been attached.
    pub closed spec fn storage_loaded(self) -> bool {
        self.storage_loaded
    }

    /// Whether the program counter has been set to the boot base.
    pub closed spec fn pc_set(self) -> bool {
        self.pc_set
    }

    /// Whether the run flags have been applied.
    pub closed spec fn flags_set(self) -> bool {
        self.flags_set
    }

    /// Whether the machine has run to completion.
    pub closed spec fn ran(self) -> bool {
        self.ran
    }

    /// The address execution will start from, once set.
    pub closed spec fn start_pc(self) -> u64 {
        self.start_pc
    }

    /// The flags applied to this run.
    pub closed spec fn flags(self) -> RunFlags {
        self.flags
    }

    /// A fresh machine: nothing loaded, nothing configured, not yet run.
    pub fn new() -> (m: Machine)
        ensures
            !m.boot_loaded(),
            !m.storage_loaded(),
            !m.pc_set(),
            !m.flags_set(),
            !m.ran(),
            !m.flags().debug,
            !m.flags().profile,
    {
        Machine {
            emu: emu_new(),
            boot_loaded: false,
            storage_loaded: false,
            pc_set: false,
            flags_set: false,
            ran: false,
            start_pc: 0,
            flags: RunFlags::off(),
        }
    }

    /// Load the boot image into DRAM at the boot base address. Any image
    /// that fits in DRAM is accepted, the empty image included.
    pub fn load_boot(&mut self, data: Vec<u8>)
        requires
            !old(self).boot_loaded(),
            !old(self).ran(),
            data@.len() <= DRAM_CAPACITY,
        ensures
            final(self).boot_loaded(),
            final(self).storage_loaded() == old(self).storage_loaded(),
            final(self).pc_set() == old(self).pc_set(),
            final(self).flags_set() == old(self).flags_set(),
            !final(self).ran(),
            final(self).start_pc() == old(self).start_pc(),
            final(self).flags() == old(self).flags(),
    {
        emu_load_boot(&mut self.emu, data);
        self.boot_loaded = true;
    }

    /// Attach storage contents. An empty buffer is a valid configuration
    /// and stands for "no storage attached"; it is never an error.
    pub fn attach_storage(&mut self, data: Vec<u8>)
        requires
            !old(self).ran(),
        ensures
            final(self).storage_loaded(),
            final(self).boot_loaded() == old(self).boot_loaded(),
            final(self).pc_set() == old(self).pc_set(),
            final(self).flags_set() == old(self).flags_set(),
            !final(self).ran(),
            final(self).start_pc() == old(self).start_pc(),
            final(self).flags() == old(self).flags(),
    {
        emu_load_storage(&mut self.emu, data);
        self.storage_loaded = true;
    }

    /// Set the program counter to the boot base address, so execution
    /// begins at the start of the loaded boot image. The boot image must
    /// already be loaded: the lifecycle order is load, then configure the
    /// program counter, then run.
    pub fn set_start_pc(&mut self)
        requires
            old(self).boot_loaded(),
            !old(self).ran(),
        ensures
            final(self).pc_set(),
            final(self).start_pc() == BOOT_BASE,
            final(self).boot_loaded() == old(self).boot_loaded(),
            final(self).storage_loaded() == old(self).storage_loaded(),
            final(self).flags_set() == old(self).flags_set(),
            !final(self).ran(),
            final(self).flags() == old(self).flags(),
    {
        let base = dram_base();
        emu_set_pc(&mut self.emu, base);
        self.start_pc = base;
        self.pc_set = true;
    }

    /// Apply the run flags to the machine. Flags are applied before the
    /// run starts and stay fixed once it has.
    pub fn apply_flags(&mut self, flags: RunFlags)
        requires
            !old(self).ran(),
        ensures
            final(self).flags_set(),
            final(self).flags() == flags,
            final(self).boot_loaded() == old(self).boot_loaded(),
            final(self).storage_loaded() == old(self).storage_loaded(),
            final(self).pc_set() == old(self).pc_set(),
            !final(self).ran(),
            final(self).start_pc() == old(self).start_pc(),
    {
        emu_set_debug(&mut self.emu, flags.debug);
        emu_set_count(&mut self.emu, flags.profile);
        self.flags = flags;
        self.flags_set = true;
    }

    /// Run the machine to completion. Every setup step must have
    /// happened: boot image, storage, program counter and flags. The call
    /// blocks until the machine reaches its own stop condition; a fatal
    /// trap is a normal termination at this layer, never an error. The
    /// flags do not change during the run.
    pub fn run(&mut self)
        requires
            old(self).boot_loaded(),
            old(self).storage_loaded(),
            old(self).pc_set(),
            old(self).flags_set(),
            !old(self).ran(),
        ensures
            final(self).ran(),
            final(self).boot_loaded() == old(self).boot_loaded(),
            final(self).storage_loaded() == old(self).storage_loaded(),
            final(self).pc_set() == old(self).pc_set(),
            final(self).flags_set() == old(self).flags_set(),
            final(self).start_pc() == old(self).start_pc(),
            final(self).flags() == old(self).flags(),
    {
        emu_start(&mut self.emu);
        self.ran = true;
    }

    /// The program counter the run will start from: always the boot base
    /// address, whatever boot image was loaded.
    pub fn configured_pc(&self) -> (pc: u64)
        requires
            self.pc_set(),
        ensures
            pc == self.start_pc(),
    {
        self.start_pc
    }

    /// The value of one integer register, for read-only introspection.
    pub fn xreg(&self, index: u64) -> u64
        requires
            index < 32,
    {
        emu_xreg(&self.emu, index)
    }

    /// The machine's final observable state, read after the run: text
    /// renderings of the register files and auxiliary state, the final
    /// program counter, and the raw instruction-counter pairs, whose
    /// identifiers are unique and whose counts are all positive.
    pub fn observe(&self) -> (obs: Observation)
        requires
            self.ran(),
        ensures
            distinct_names(obs.freq_pairs@),
            all_counts_positive(obs.freq_pairs@),
    {
        Observation {
            xregs_text: emu_xregs_text(&self.emu),
            fregs_text: emu_fregs_text(&self.emu),
            state_text: emu_state_text(&self.emu),
            pc: emu_pc(&self.emu),
            freq_pairs: emu_counter_pairs(&self.emu),
        }
    }
}

} // verus!
