//! The diagnostics reporter.
//!
//! After a run completes, the reporter renders the machine's final
//! observable state as a sequence of output lines, in a fixed order:
//! integer registers, floating-point registers, auxiliary machine state,
//! the final program counter, and — if and only if profiling was enabled —
//! the instruction-frequency table. Every line is pinned down exactly by
//! the specification functions here.

use vstd::prelude::*;
use vstd::string::StringExecFns;

use crate::profile::FreqEntry;

verus! {

/// The decimal rendering of a digit.
pub open spec fn dec_digit(d: int) -> char {
    if d == 0 {
        '0'
    } else if d == 1 {
        '1'
    } else if d == 2 {
        '2'
    } else if d == 3 {
        '3'
    } else if d == 4 {
        '4'
    } else if d == 5 {
        '5'
    } else if d == 6 {
        '6'
    } else if d == 7 {
        '7'
    } else if d == 8 {
        '8'
    } else {
        '9'
    }
}

/// The decimal rendering of a non-negative number, most significant
/// digit first, without leading zeroes (zero itself is "0").
pub open spec fn dec_seq(n: int) -> Seq<char>
    recommends
        n >= 0,
    decreases n,
{
    if n < 10 {
        seq![dec_digit(n)]
    } else {
        dec_seq(n / 10).push(dec_digit(n % 10))
    }
}

/// The lower-case hexadecimal rendering of a digit.
pub open spec fn hex_digit(d: int) -> char {
    if d < 10 {
        dec_digit(d)
    } else if d == 10 {
        'a'
    } else if d == 11 {
        'b'
    } else if d == 12 {
        'c'
    } else if d == 13 {
        'd'
    } else if d == 14 {
        'e'
    } else {
        'f'
    }
}

/// The lower-case hexadecimal rendering of a non-negative number, most
/// significant digit first, without leading zeroes (zero itself is "0").
pub open spec fn hex_seq(n: int) -> Seq<char>
    recommends
        n >= 0,
    decreases n,
{
    if n < 16 {
        seq![hex_digit(n)]
    } else {
        hex_seq(n / 16).push(hex_digit(n % 16))
    }
}

fn dec_digit_str(d: u64) -> (s: String)
    requires
        d < 10,
    ensures
        s@ == seq![dec_digit(d as int)],
{
    proof {
        reveal_strlit("0");
        reveal_strlit("1");
        reveal_strlit("2");
        reveal_strlit("3");
        reveal_strlit("4");
        reveal_strlit("5");
        reveal_strlit("6");
        reveal_strlit("7");
        reveal_strlit("8");
        reveal_strlit("9");
    }
    let s = if d == 0 {
        String::from_str("0")
    } else if d == 1 {
        String::from_str("1")
    } else if d == 2 {
        String::from_str("2")
    } else if d == 3 {
        String::from_str("3")
    } else if d == 4 {
        String::from_str("4")
    } else if d == 5 {
        String::from_str("5")
    } else if d == 6 {
        String::from_str("6")
    } else if d == 7 {
        String::from_str("7")
    } else if d == 8 {
        String::from_str("8")
    } else {
        String::from_str("9")
    };
    proof {
        assert(s@ =~= seq![dec_digit(d as int)]);
    }
    s
}

fn hex_digit_str(d: u64) -> (s: String)
    requires
        d < 16,
    ensures
        s@ == seq![hex_digit(d as int)],
{
    proof {
        reveal_strlit("a");
        reveal_strlit("b");
        reveal_strlit("c");
        reveal_strlit("d");
        reveal_strlit("e");
        reveal_strlit("f");
    }
    let s = if d < 10 {
        dec_digit_str(d)
    } else if d == 10 {
        String::from_str("a")
    } else if d == 11 {
        String::from_str("b")
    } else if d == 12 {
        String::from_str("c")
    } else if d == 13 {
        String::from_str("d")
    } else if d == 14 {
        String::from_str("e")
    } else {
        String::from_str("f")
    };
    proof {
        assert(s@ =~= seq![hex_digit(d as int)]);
    }
    s
}

/// Render a number in decimal, exactly as the specification `dec_seq` says.
pub fn u64_to_dec(n: u64) -> (s: String)
    ensures
        s@ == dec_seq(n as int),
    decreases n,
{
    if n < 10 {
        dec_digit_str(n)
    } else {
        let mut s = u64_to_dec(n / 10);
        let last = dec_digit_str(n % 10);
        s.append(last.as_str());
        proof {
            assert(s@ =~= dec_seq(n as int));
        }
        s
    }
}

/// Render a number in lower-case hexadecimal, exactly as `hex_seq` says.
pub fn u64_to_hex(n: u64) -> (s: String)
    ensures
        s@ == hex_seq(n as int),
    decreases n,
{
    if n < 16 {
        hex_digit_str(n)
    } else {
        let mut s = u64_to_hex(n / 16);
        let last = hex_digit_str(n % 16);
        s.append(last.as_str());
        proof {
            assert(s@ =~= hex_seq(n as int));
        }
        s
    }
}

/// The horizontal rule printed around the register and state sections.
pub open spec fn dash_rule() -> Seq<char> {
    "-------------------------------------------------------------------------------------------"@
}

/// The rule that frames the instruction-frequency table.
pub open spec fn eq_rule() -> Seq<char> {
    "==========================================================================================="@
}

/// The line that reports the final program counter, as a hexadecimal address.
pub open spec fn pc_line_spec(pc: u64) -> Seq<char> {
    "pc: 0x"@ + hex_seq(pc as int)
}

/// One line of the instruction-frequency table: identifier, then count.
pub open spec fn freq_line_spec(e: FreqEntry) -> Seq<char> {
    e.name@ + ", "@ + dec_seq(e.count as int)
}

/// The lines of the instruction-frequency table, one per entry, in order.
pub open spec fn freq_lines_of(t: Seq<FreqEntry>) -> Seq<Seq<char>> {
    t.map_values(|e: FreqEntry| freq_line_spec(e))
}

fn dash_rule_line() -> (s: String)
    ensures
        s@ == dash_rule(),
{
    String::from_str(
        "-------------------------------------------------------------------------------------------",
    )
}

fn eq_rule_line() -> (s: String)
    ensures
        s@ == eq_rule(),
{
    String::from_str(
        "===========================================================================================",
    )
}

fn pc_line(pc: u64) -> (s: String)
    ensures
        s@ == pc_line_spec(pc),
{
    let mut s = String::from_str("pc: 0x");
    let h = u64_to_hex(pc);
    s.append(h.as_str());
    s
}

fn freq_line(e: &FreqEntry) -> (s: String)
    ensures
        s@ == freq_line_spec(*e),
{
    let mut s = e.name.clone();
    s.append(", ");
    let c = u64_to_dec(e.count);
    s.append(c.as_str());
    proof {
        assert(s@ =~= freq_line_spec(*e));
    }
    s
}

/// The machine's final observable state, ready for reporting: the three
/// opaque text blocks the machine renders of itself, the final program
/// counter, and — only when profiling was enabled — the sorted
/// instruction-frequency table.
pub struct Report {
    /// The integer register file, as the machine renders it.
    pub xregs_text: String,
    /// The floating-point register file, as the machine renders it.
    pub fregs_text: String,
    /// Auxiliary machine state (mode, control and status registers),
    /// displayed opaquely.
    pub state_text: String,
    /// The final program counter.
    pub pc: u64,
    /// The instruction-frequency table, present if and only if profiling
    /// was enabled for the run.
    pub freq: Option<Vec<FreqEntry>>,
}

/// The views of a sequence of rendered lines.
pub open spec fn views_of(v: Seq<String>) -> Seq<Seq<char>> {
    v.map_values(|s: String| s@)
}

/// Every output line of a report, in the order they are to be emitted:
/// integer registers, floating-point registers, auxiliary state — each
/// between horizontal rules — then the program counter, and, only when
/// the frequency table is present, the table framed by its own rules.
pub open spec fn report_lines_spec(r: Report) -> Seq<Seq<char>> {
    let head = seq![
        dash_rule(),
        r.xregs_text@,
        dash_rule(),
        r.fregs_text@,
        dash_rule(),
        r.state_text@,
        dash_rule(),
        pc_line_spec(r.pc),
    ];
    match r.freq {
        Some(t) => head + seq![eq_rule()] + freq_lines_of(t@) + seq![eq_rule()],
        None => head,
    }
}

/// The shape of a report: eight lines always — the three machine-state
/// sections between rules, then the program counter — and, exactly when
/// the frequency table is present, its own framed section with one line
/// per entry. When the table is absent, nothing of it is emitted.
pub proof fn lemma_report_lines_shape(r: Report)
    ensures
        r.freq is None ==> report_lines_spec(r).len() == 8,
        r.freq is Some ==> report_lines_spec(r).len() == 10 + r.freq->Some_0@.len(),
{
}

/// Reporting is deterministic: two reports that agree on the rendered
/// texts, the program counter, and the frequency-table contents are
/// emitted as identical lines, however they were produced.
pub proof fn lemma_report_lines_deterministic(r1: Report, r2: Report)
    requires
        r1.xregs_text@ == r2.xregs_text@,
        r1.fregs_text@ == r2.fregs_text@,
        r1.state_text@ == r2.state_text@,
        r1.pc == r2.pc,
        r1.freq is Some <==> r2.freq is Some,
        r1.freq is Some ==> r1.freq->Some_0@ == r2.freq->Some_0@,
    ensures
        report_lines_spec(r1) == report_lines_spec(r2),
{
    assert(report_lines_spec(r1) =~= report_lines_spec(r2));
}

/// Render a report as its output lines, exactly as `report_lines_spec`
/// says: the frequency-table section exists if and only if the table does.
pub fn render_report(r: &Report) -> (lines: Vec<String>)
    ensures
        views_of(lines@) == report_lines_spec(*r),
{
    let mut lines: Vec<String> = Vec::new();
    lines.push(dash_rule_line());
    lines.push(r.xregs_text.clone());
    lines.push(dash_rule_line());
    lines.push(r.fregs_text.clone());
    lines.push(dash_rule_line());
    lines.push(r.state_text.clone());
    lines.push(dash_rule_line());
    lines.push(pc_line(r.pc));
    match &r.freq {
        Some(t) => {
            let ghost head = views_of(lines@);
            lines.push(eq_rule_line());
            let mut i: usize = 0;
            while i < t.len()
                invariant
                    i <= t@.len(),
                    views_of(lines@) =~= head + seq![eq_rule()] + freq_lines_of(t@.take(i as int)),
                decreases t@.len() - i,
            {
                let ghost prev = lines@;
                let line = freq_line(&t[i]);
                lines.push(line);
                proof {
                    assert(views_of(lines@) =~= views_of(prev).push(freq_line_spec(t@[i as int])));
                    assert(freq_lines_of(t@.take(i + 1)) =~= freq_lines_of(t@.take(i as int)).push(
                        freq_line_spec(t@[i as int]),
                    ));
                    assert(views_of(lines@) =~= head + seq![eq_rule()] + freq_lines_of(
                        t@.take(i + 1),
                    ));
                }
                i = i + 1;
            }
            let ghost before_tail = lines@;
            lines.push(eq_rule_line());
            proof {
                assert(views_of(lines@) =~= views_of(before_tail).push(eq_rule()));
                assert(t@.take(t@.len() as int) =~= t@);
                assert(freq_lines_of(t@.take(t@.len() as int)) =~= freq_lines_of(t@));
                assert(views_of(lines@) =~= report_lines_spec(*r));
            }
        },
        None => {
            proof {
                assert(views_of(lines@) =~= report_lines_spec(*r));
            }
        },
    }
    lines
}

} // verus!
