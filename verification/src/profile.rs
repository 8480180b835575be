//! The instruction profiler's aggregation view.
//!
//! A run that was profiled leaves behind raw (identifier, count) pairs, one
//! per distinct executed instruction. Reporting orders them by count,
//! largest first; entries with equal counts keep their incoming order, so
//! the reported table is a function of the raw pairs alone.

use vstd::prelude::*;
use vstd::seq_lib::lemma_multiset_commutative;

verus! {

/// One row of the instruction-frequency table: an instruction identifier
/// and how many times the machine retired such an instruction in the run.
pub struct FreqEntry {
    pub name: String,
    pub count: u64,
}

/// The table is ordered by count, largest first.
pub open spec fn sorted_by_count_desc(s: Seq<FreqEntry>) -> bool {
    forall|i: int, j: int| 0 <= i < j < s.len() ==> s[i].count >= s[j].count
}

/// Every count is at least one: an identifier has an entry only because
/// an instruction with that identifier was executed at least once.
pub open spec fn all_counts_positive(s: Seq<FreqEntry>) -> bool {
    forall|i: int| 0 <= i < s.len() ==> s[i].count >= 1
}

/// No identifier occurs in two entries.
pub open spec fn distinct_names(s: Seq<FreqEntry>) -> bool {
    forall|i: int, j: int| 0 <= i < j < s.len() ==> s[i].name@ != s[j].name@
}

/// Where one entry lands in a table that is already sorted: behind every
/// entry whose count is at least as large, in front of all the rest. An
/// entry never passes one with an equal count, which keeps the sort stable.
pub open spec fn place_desc(s: Seq<FreqEntry>, x: FreqEntry) -> Seq<FreqEntry>
    decreases s.len(),
{
    if s.len() == 0 {
        seq![x]
    } else if s[0].count >= x.count {
        seq![s[0]] + place_desc(s.drop_first(), x)
    } else {
        seq![x] + s
    }
}

/// The reported order of a sequence of entries: each entry in turn is
/// placed into the table built from the entries before it.
pub open spec fn sort_desc(s: Seq<FreqEntry>) -> Seq<FreqEntry>
    decreases s.len(),
{
    if s.len() == 0 {
        Seq::<FreqEntry>::empty()
    } else {
        place_desc(sort_desc(s.drop_last()), s.last())
    }
}

proof fn lemma_place_desc_len(s: Seq<FreqEntry>, x: FreqEntry)
    ensures
        place_desc(s, x).len() == s.len() + 1,
    decreases s.len(),
{
    if s.len() > 0 && s[0].count >= x.count {
        lemma_place_desc_len(s.drop_first(), x);
    }
}

proof fn lemma_place_desc_elems(s: Seq<FreqEntry>, x: FreqEntry)
    ensures
        forall|k: int|
            0 <= k < place_desc(s, x).len() ==> (#[trigger] place_desc(s, x)[k] == x
                || s.contains(place_desc(s, x)[k])),
    decreases s.len(),
{
    if s.len() > 0 && s[0].count >= x.count {
        lemma_place_desc_elems(s.drop_first(), x);
        assert forall|k: int| 0 <= k < place_desc(s, x).len() implies (#[trigger] place_desc(
            s,
            x,
        )[k] == x || s.contains(place_desc(s, x)[k])) by {
            if k > 0 {
                let e = place_desc(s.drop_first(), x)[k - 1];
                assert(place_desc(s, x)[k] == e);
                if e != x {
                    let i = choose|i: int|
                        0 <= i < s.drop_first().len() && s.drop_first()[i] == e;
                    assert(s[i + 1] == e);
                }
            }
        }
    }
}

proof fn lemma_place_desc_sorted(s: Seq<FreqEntry>, x: FreqEntry)
    requires
        sorted_by_count_desc(s),
    ensures
        sorted_by_count_desc(place_desc(s, x)),
    decreases s.len(),
{
    if s.len() == 0 {
    } else if s[0].count >= x.count {
        assert(sorted_by_count_desc(s.drop_first()));
        lemma_place_desc_sorted(s.drop_first(), x);
        lemma_place_desc_elems(s.drop_first(), x);
        let r = place_desc(s, x);
        assert forall|i: int, j: int| 0 <= i < j < r.len() implies r[i].count >= r[j].count by {
            if i == 0 {
                let e = place_desc(s.drop_first(), x)[j - 1];
                assert(r[j] == e);
                if e != x {
                    let k = choose|k: int|
                        0 <= k < s.drop_first().len() && s.drop_first()[k] == e;
                    assert(s[k + 1] == e);
                }
            }
        }
    }
}

proof fn lemma_place_desc_multiset(s: Seq<FreqEntry>, x: FreqEntry)
    ensures
        place_desc(s, x).to_multiset() =~= s.to_multiset().insert(x),
    decreases s.len(),
{
    broadcast use vstd::seq_lib::group_to_multiset_ensures;

    if s.len() == 0 {
        assert(seq![x] =~= Seq::<FreqEntry>::empty().push(x));
    } else if s[0].count >= x.count {
        lemma_place_desc_multiset(s.drop_first(), x);
        lemma_multiset_commutative(seq![s[0]], place_desc(s.drop_first(), x));
        lemma_multiset_commutative(seq![s[0]], s.drop_first());
        assert(s =~= seq![s[0]] + s.drop_first());
        assert(seq![s[0]] =~= Seq::<FreqEntry>::empty().push(s[0]));
    } else {
        lemma_multiset_commutative(seq![x], s);
        assert(seq![x] =~= Seq::<FreqEntry>::empty().push(x));
    }
}

proof fn lemma_place_desc_distinct(s: Seq<FreqEntry>, x: FreqEntry)
    requires
        distinct_names(s),
        forall|i: int| 0 <= i < s.len() ==> (#[trigger] s[i]).name@ != x.name@,
    ensures
        distinct_names(place_desc(s, x)),
    decreases s.len(),
{
    if s.len() == 0 {
    } else if s[0].count >= x.count {
        assert(distinct_names(s.drop_first()));
        assert forall|i: int|
            0 <= i < s.drop_first().len() implies (#[trigger] s.drop_first()[i]).name@
            != x.name@ by {
            assert(s.drop_first()[i] == s[i + 1]);
        }
        lemma_place_desc_distinct(s.drop_first(), x);
        lemma_place_desc_elems(s.drop_first(), x);
        let r = place_desc(s, x);
        assert forall|i: int, j: int| 0 <= i < j < r.len() implies r[i].name@ != r[j].name@ by {
            if i == 0 {
                let e = place_desc(s.drop_first(), x)[j - 1];
                assert(r[j] == e);
                if e != x {
                    let k = choose|k: int|
                        0 <= k < s.drop_first().len() && s.drop_first()[k] == e;
                    assert(s[k + 1] == e);
                }
            }
        }
    }
}

/// The reported table holds exactly the raw pairs, reordered: same
/// multiset of entries, hence the same number of entries, in an order
/// that is non-increasing by count.
pub proof fn lemma_sort_desc_ensures(s: Seq<FreqEntry>)
    ensures
        sort_desc(s).len() == s.len(),
        sorted_by_count_desc(sort_desc(s)),
        sort_desc(s).to_multiset() =~= s.to_multiset(),
    decreases s.len(),
{
    broadcast use vstd::seq_lib::group_to_multiset_ensures;

    if s.len() == 0 {
    } else {
        lemma_sort_desc_ensures(s.drop_last());
        lemma_place_desc_len(sort_desc(s.drop_last()), s.last());
        lemma_place_desc_sorted(sort_desc(s.drop_last()), s.last());
        lemma_place_desc_multiset(sort_desc(s.drop_last()), s.last());
        assert(s =~= s.drop_last().push(s.last()));
        assert(s.drop_last().push(s.last()).to_multiset() =~= s.drop_last().to_multiset().insert(
            s.last(),
        ));
    }
}

/// Every entry of the reported table is one of the raw pairs, and the
/// other way round: membership is preserved in both directions.
pub proof fn lemma_sort_desc_membership(s: Seq<FreqEntry>, e: FreqEntry)
    ensures
        sort_desc(s).contains(e) <==> s.contains(e),
{
    broadcast use vstd::seq_lib::group_to_multiset_ensures;

    lemma_sort_desc_ensures(s);
    assert(sort_desc(s).to_multiset().count(e) == s.to_multiset().count(e));
    assert(sort_desc(s).contains(e) <==> sort_desc(s).to_multiset().count(e) > 0);
    assert(s.contains(e) <==> s.to_multiset().count(e) > 0);
}

/// When every raw count is at least one, so is every reported count.
pub proof fn lemma_sort_desc_counts_positive(s: Seq<FreqEntry>)
    requires
        all_counts_positive(s),
    ensures
        all_counts_positive(sort_desc(s)),
{
    broadcast use vstd::seq_lib::group_to_multiset_ensures;

    lemma_sort_desc_ensures(s);
    let r = sort_desc(s);
    assert forall|i: int| 0 <= i < r.len() implies (#[trigger] r[i]).count >= 1 by {
        assert(r.contains(r[i]));
        lemma_sort_desc_membership(s, r[i]);
        let k = choose|k: int| 0 <= k < s.len() && s[k] == r[i];
        assert(s[k].count >= 1);
    }
}

/// When the raw identifiers are pairwise distinct, so are the reported ones.
pub proof fn lemma_sort_desc_distinct(s: Seq<FreqEntry>)
    requires
        distinct_names(s),
    ensures
        distinct_names(sort_desc(s)),
    decreases s.len(),
{
    broadcast use vstd::seq_lib::group_to_multiset_ensures;

    if s.len() > 0 {
        let d = s.drop_last();
        let x = s.last();
        assert(distinct_names(d));
        assert forall|i: int| 0 <= i < d.len() implies (#[trigger] d[i]).name@ != x.name@ by {
            assert(d[i] == s[i]);
            assert(s[i].name@ != s[s.len() - 1].name@);
        }
        lemma_sort_desc_distinct(d);
        lemma_sort_desc_ensures(d);
        assert forall|i: int|
            0 <= i < sort_desc(d).len() implies (#[trigger] sort_desc(d)[i]).name@ != x.name@ by {
            assert(sort_desc(d).contains(sort_desc(d)[i]));
            lemma_sort_desc_membership(d, sort_desc(d)[i]);
            let k = choose|k: int| 0 <= k < d.len() && d[k] == sort_desc(d)[i];
        }
        lemma_place_desc_distinct(sort_desc(d), x);
    }
}

proof fn lemma_place_desc_at(s: Seq<FreqEntry>, x: FreqEntry, j: int)
    requires
        sorted_by_count_desc(s),
        0 <= j <= s.len(),
        forall|k: int| 0 <= k < j ==> (#[trigger] s[k]).count >= x.count,
        j < s.len() ==> s[j].count < x.count,
    ensures
        place_desc(s, x) == s.insert(j, x),
    decreases s.len(),
{
    if s.len() == 0 {
        assert(place_desc(s, x) =~= s.insert(0, x));
    } else if j == 0 {
        assert(s[0].count < x.count);
        assert(place_desc(s, x) =~= s.insert(0, x));
    } else {
        assert(s[0].count >= x.count);
        assert(sorted_by_count_desc(s.drop_first()));
        assert forall|k: int|
            0 <= k < j - 1 implies (#[trigger] s.drop_first()[k]).count >= x.count by {
            assert(s.drop_first()[k] == s[k + 1]);
        }
        assert(j - 1 < s.drop_first().len() ==> s.drop_first()[j - 1].count < x.count);
        lemma_place_desc_at(s.drop_first(), x, j - 1);
        assert(place_desc(s, x) =~= s.insert(j, x)) by {
            s.drop_first().insert_ensures(j - 1, x);
            s.insert_ensures(j, x);
            lemma_place_desc_len(s.drop_first(), x);
        }
    }
}

/// Order the entries of a profiled run for reporting: by count, largest
/// first, with entries of equal count kept in their incoming order. The
/// result is exactly the sorted view of the input.
pub fn sort_by_count(table: Vec<FreqEntry>) -> (r: Vec<FreqEntry>)
    ensures
        r@ == sort_desc(table@),
{
    let ghost orig = table@;
    let mut rest = table;
    let mut out: Vec<FreqEntry> = Vec::new();
    while rest.len() > 0
        invariant
            rest@.len() <= orig.len(),
            rest@ == orig.skip(orig.len() - rest@.len()),
            out@ == sort_desc(orig.take(orig.len() - rest@.len())),
        decreases rest@.len(),
    {
        let ghost i = orig.len() - rest@.len();
        let x = rest.remove(0);
        proof {
            assert(x == orig[i]);
            assert(rest@ =~= orig.skip(i + 1));
            lemma_sort_desc_ensures(orig.take(i));
        }
        let mut j: usize = 0;
        while j < out.len() && out[j].count >= x.count
            invariant
                j <= out@.len(),
                forall|k: int| 0 <= k < j ==> (#[trigger] out@[k]).count >= x.count,
            decreases out@.len() - j,
        {
            j = j + 1;
        }
        proof {
            lemma_place_desc_at(out@, x, j as int);
        }
        out.insert(j, x);
        proof {
            assert(orig.take(i + 1).drop_last() =~= orig.take(i));
            assert(orig.take(i + 1).last() == orig[i]);
            assert(out@ == sort_desc(orig.take(i + 1)));
        }
    }
    proof {
        assert(orig.take(orig.len() - rest@.len()) =~= orig);
    }
    out
}

} // verus!
