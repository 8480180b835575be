//! The execution harness: one run, from raw images to the final report.
//!
//! The harness sequences machine setup and execution exactly once per
//! invocation, in the fixed order the lifecycle demands: fresh machine,
//! boot image at the boot base, storage (possibly empty), program counter
//! at the boot base, run flags, run to completion — and then, whatever
//! way the machine stopped, the diagnostics.

use vstd::prelude::*;

use crate::flags::RunFlags;
use crate::machine::{Machine, Observation, DRAM_CAPACITY};
use crate::profile::{
    all_counts_positive, distinct_names, lemma_sort_desc_counts_positive, lemma_sort_desc_distinct,
    lemma_sort_desc_ensures, sort_by_count, sort_desc, sorted_by_count_desc, FreqEntry,
};
use crate::render::Report;

verus! {

/// The reported frequency view of a run: absent when profiling was off,
/// and the sorted table of the raw pairs when it was on. Of the run
/// flags, only the profiling toggle enters this view.
pub open spec fn freq_of(profile: bool, pairs: Seq<FreqEntry>) -> Option<Seq<FreqEntry>> {
    if profile {
        Some(sort_desc(pairs))
    } else {
        None
    }
}

/// Build the report of an observation: the text blocks and the program
/// counter pass through unchanged, and the frequency table is present if
/// and only if profiling was enabled, holding exactly the sorted view of
/// the raw pairs.
pub fn report_of(obs: Observation, flags: RunFlags) -> (r: Report)
    ensures
        r.xregs_text@ == obs.xregs_text@,
        r.fregs_text@ == obs.fregs_text@,
        r.state_text@ == obs.state_text@,
        r.pc == obs.pc,
        r.freq is Some <==> freq_of(flags.profile, obs.freq_pairs@) is Some,
        r.freq is Some ==> r.freq->Some_0@ == freq_of(flags.profile, obs.freq_pairs@)->Some_0,
        r.freq is Some <==> flags.profile,
{
    let freq = if flags.profile {
        Some(sort_by_count(obs.freq_pairs))
    } else {
        None
    };
    Report {
        xregs_text: obs.xregs_text,
        fregs_text: obs.fregs_text,
        state_text: obs.state_text,
        pc: obs.pc,
        freq,
    }
}

/// One full run: load the boot image and the storage bytes, set the
/// program counter to the boot base, apply the flags, run the machine to
/// completion, and report its final state. Diagnostics are produced
/// unconditionally — a machine-level halt or fault is a normal
/// termination, not a harness error — and the frequency table exists if
/// and only if profiling was enabled, sorted by count in descending
/// order, with unique identifiers and all counts positive.
pub fn run_with(boot: Vec<u8>, storage: Vec<u8>, flags: RunFlags) -> (r: Report)
    requires
        boot@.len() <= DRAM_CAPACITY,
    ensures
        r.freq is Some <==> flags.profile,
        r.freq is Some ==> sorted_by_count_desc(r.freq->Some_0@) && all_counts_positive(
            r.freq->Some_0@,
        ) && distinct_names(r.freq->Some_0@),
{
    let mut m = Machine::new();
    m.load_boot(boot);
    m.attach_storage(storage);
    m.set_start_pc();
    m.apply_flags(flags);
    m.run();
    let obs = m.observe();
    proof {
        lemma_sort_desc_ensures(obs.freq_pairs@);
        lemma_sort_desc_counts_positive(obs.freq_pairs@);
        lemma_sort_desc_distinct(obs.freq_pairs@);
    }
    report_of(obs, flags)
}

/// Debug tracing is observational: the reported frequency view depends
/// only on the profiling toggle and the raw counter pairs, never on the
/// debug toggle, so two runs that observed the same machine state report
/// the same table whether or not tracing was on.
pub proof fn lemma_tracing_observational(f1: RunFlags, f2: RunFlags, pairs: Seq<FreqEntry>)
    requires
        f1.profile == f2.profile,
    ensures
        freq_of(f1.profile, pairs) == freq_of(f2.profile, pairs),
{
}

} // verus!
