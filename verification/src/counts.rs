//! The count table: a mapping from syscall number to an unsigned
//! occurrence counter, keys unique, insertion order irrelevant.
//!
//! The table is backed by a vector of rows; well-formedness keeps the
//! keys distinct and every stored counter positive. The summary view
//! orders the rows by descending count, ties broken by ascending syscall
//! number.
use vstd::prelude::*;
use vstd::seq_lib::group_to_multiset_ensures;
use vstd::pervasive::VecAdditionalExecFns;

verus! {

/// A counter bumped by one, held at the type's ceiling.
pub open spec fn sat_inc(c: u64) -> u64 {
    if c == u64::MAX {
        c
    } else {
        (c + 1) as u64
    }
}

/// The counter stored with key `n` in a row sequence (first match), or
/// zero when no row carries that key.
pub open spec fn seq_count_of(s: Seq<(i64, u64)>, n: i64) -> u64
    decreases s.len(),
{
    if s.len() == 0 {
        0
    } else if s[0].0 == n {
        s[0].1
    } else {
        seq_count_of(s.drop_first(), n)
    }
}

/// Summary order: `a` may stand at or before `b` when `a` has the larger
/// count, or an equal count and the smaller-or-equal syscall number.
pub open spec fn summary_le(a: (i64, u64), b: (i64, u64)) -> bool {
    a.1 > b.1 || (a.1 == b.1 && a.0 <= b.0)
}

/// Every pair of positions respects the summary order.
pub open spec fn summary_sorted(s: Seq<(i64, u64)>) -> bool {
    forall|i: int, j: int| 0 <= i < j < s.len() ==> summary_le(s[i], s[j])
}

/// A key-free sequence yields a zero count.
proof fn lemma_count_absent(s: Seq<(i64, u64)>, n: i64)
    requires
        forall|k: int| 0 <= k < s.len() ==> (#[trigger] s[k]).0 != n,
    ensures
        seq_count_of(s, n) == 0,
    decreases s.len(),
{
    if s.len() != 0 {
        assert(s[0].0 != n);
        lemma_count_absent(s.drop_first(), n);
    }
}

/// The first row carrying a key determines that key's count.
proof fn lemma_count_found(s: Seq<(i64, u64)>, n: i64, i: int)
    requires
        0 <= i < s.len(),
        s[i].0 == n,
        forall|k: int| 0 <= k < i ==> (#[trigger] s[k]).0 != n,
    ensures
        seq_count_of(s, n) == s[i].1,
    decreases i,
{
    if i == 0 {
    } else {
        assert(s[0].0 != n);
        lemma_count_found(s.drop_first(), n, i - 1);
    }
}

/// The count table.
pub struct CountTable {
    entries: Vec<(i64, u64)>,
}

impl View for CountTable {
    type V = Seq<(i64, u64)>;

    closed spec fn view(&self) -> Seq<(i64, u64)> {
        self.entries@
    }
}

impl CountTable {
    /// Keys are unique and every stored counter is positive.
    pub open spec fn wf(&self) -> bool {
        &&& forall|i: int, j: int|
            0 <= i < j < self@.len() ==> (#[trigger] self@[i]).0 != (#[trigger] self@[j]).0
        &&& forall|i: int| 0 <= i < self@.len() ==> (#[trigger] self@[i]).1 >= 1
    }

    /// The occurrence counter recorded for syscall number `n`; zero when
    /// the number was never recorded.
    pub open spec fn count_of(&self, n: i64) -> u64 {
        seq_count_of(self@, n)
    }

    /// An empty table: every number counts zero.
    pub fn new() -> (t: CountTable)
        ensures
            t.wf(),
            t@ == Seq::<(i64, u64)>::empty(),
            forall|n: i64| t.count_of(n) == 0,
    {
        let t = CountTable { entries: Vec::new() };
        proof {
            assert forall|n: i64| t.count_of(n) == 0 by {
                lemma_count_absent(t@, n);
            }
        }
        t
    }

    /// Position of the row carrying key `n`, when one exists.
    fn find_index(&self, n: i64) -> (r: Option<usize>)
        ensures
            r matches Some(i) ==> i < self@.len() && self@[i as int].0 == n && (forall|k: int|
                0 <= k < i ==> (#[trigger] self@[k]).0 != n),
            r is None ==> forall|k: int| 0 <= k < self@.len() ==> (#[trigger] self@[k]).0 != n,
    {
        let ghost s = self@;
        let len = self.entries.len();
        let mut i: usize = 0;
        while i < len
            invariant
                self@ == s,
                len == s.len(),
                0 <= i <= len,
                forall|k: int| 0 <= k < i ==> (#[trigger] s[k]).0 != n,
            decreases len - i,
        {
            if self.entries[i].0 == n {
                return Some(i);
            }
            i = i + 1;
        }
        None
    }

    /// Records one more occurrence of syscall number `n`: its counter is
    /// bumped by one (held at the ceiling once it reaches the largest
    /// representable count) and every other counter is untouched.
    pub fn increment(&mut self, n: i64)
        requires
            old(self).wf(),
        ensures
            final(self).wf(),
            final(self).count_of(n) == sat_inc(old(self).count_of(n)),
            forall|m: i64| m != n ==> final(self).count_of(m) == old(self).count_of(m),
            final(self)@.len() == old(self)@.len() + (if old(self).count_of(n) == 0 {
                1int
            } else {
                0int
            }),
    {
        let ghost pre = self@;
        match self.find_index(n) {
            Some(i) => {
                let row = self.entries[i];
                let bumped: u64 = if row.1 == u64::MAX {
                    row.1
                } else {
                    row.1 + 1
                };
                self.entries.set(i, (n, bumped));
                proof {
                    let post = self@;
                    lemma_count_found(pre, n, i as int);
                    lemma_count_found(post, n, i as int);
                    assert(post[i as int].1 == sat_inc(pre[i as int].1));
                    assert forall|m: i64| m != n implies seq_count_of(post, m) == seq_count_of(
                        pre,
                        m,
                    ) by {
                        lemma_count_agree(pre, post, m);
                    }
                }
            },
            None => {
                self.entries.push((n, 1));
                proof {
                    let post = self@;
                    lemma_count_absent(pre, n);
                    lemma_count_found(post, n, pre.len() as int);
                    assert forall|m: i64| m != n implies seq_count_of(post, m) == seq_count_of(
                        pre,
                        m,
                    ) by {
                        lemma_count_agree(pre, post, m);
                    }
                }
            },
        }
    }

    /// Reads the recorded counter for syscall number `n`.
    pub fn get_count(&self, n: i64) -> (c: u64)
        ensures
            c == self.count_of(n),
    {
        let ghost s = self@;
        let len = self.entries.len();
        let mut i: usize = 0;
        while i < len
            invariant
                self@ == s,
                len == s.len(),
                0 <= i <= len,
                forall|k: int| 0 <= k < i ==> (#[trigger] s[k]).0 != n,
            decreases len - i,
        {
            let row = self.entries[i];
            if row.0 == n {
                proof {
                    lemma_count_found(s, n, i as int);
                }
                return row.1;
            }
            i = i + 1;
        }
        proof {
            lemma_count_absent(s, n);
        }
        0
    }

    /// The number of distinct syscall numbers recorded so far.
    pub fn distinct_len(&self) -> (l: usize)
        ensures
            l == self@.len(),
    {
        self.entries.len()
    }

    /// Produces the rows in summary order: descending by count, ties
    /// broken by ascending syscall number; the rows themselves are
    /// exactly those of the table, none lost, none invented, each
    /// carrying exactly the count recorded for its syscall number.
    pub fn sorted_entries(&self) -> (r: Vec<(i64, u64)>)
        requires
            self.wf(),
        ensures
            summary_sorted(r@),
            r@.to_multiset() == self@.to_multiset(),
            r@.len() == self@.len(),
            forall|k: int|
                0 <= k < r@.len() ==> (#[trigger] r@[k]).1 == self.count_of(r@[k].0),
            forall|n: i64|
                self.count_of(n) >= 1 ==> exists|k: int| 0 <= k < r@.len() && (#[trigger] r@[k]).0
                    == n,
    {
        broadcast use group_to_multiset_ensures;

        let ghost s = self@;
        let len = self.entries.len();
        let mut r: Vec<(i64, u64)> = Vec::new();
        let mut idx: usize = 0;
        while idx < len
            invariant
                self@ == s,
                len == s.len(),
                0 <= idx <= len,
                summary_sorted(r@),
                r@.to_multiset() == s.subrange(0, idx as int).to_multiset(),
                r@.len() == idx,
            decreases len - idx,
        {
            let x = self.entries[idx];
            let ghost before = r@;
            let mut k: usize = 0;
            while k < r.len() && precedes(&r[k], &x)
                invariant
                    r@ == before,
                    0 <= k <= before.len(),
                    forall|j: int| 0 <= j < k ==> summary_le(#[trigger] before[j], x),
                decreases before.len() - k,
            {
                k = k + 1;
            }
            r.insert(k, x);
            proof {
                before.insert_ensures(k as int, x);
                assert(summary_sorted(r@)) by {
                    assert forall|a: int, b: int| 0 <= a < b < r@.len() implies summary_le(
                        r@[a],
                        r@[b],
                    ) by {
                        if a < k && b > k {
                            assert(summary_le(before[a], before[b - 1]));
                        }
                        if a == k && b > k {
                            assert(!summary_le(before[k as int], x));
                            assert(summary_le(x, before[k as int]));
                            assert(summary_le(before[k as int], before[b - 1]));
                        }
                    }
                }
                broadcast use group_to_multiset_ensures;

                lemma_insert_to_multiset(before, k as int, x);
                assert(s.subrange(0, idx as int).push(x) =~= s.subrange(0, idx as int + 1));
                assert(s.subrange(0, idx as int).push(x).to_multiset() =~= s.subrange(
                    0,
                    idx as int,
                ).to_multiset().insert(x));
            }
            idx = idx + 1;
        }
        proof {
            broadcast use group_to_multiset_ensures;

            assert(s.subrange(0, len as int) =~= s);
            assert forall|k: int|
                0 <= k < r@.len() implies (#[trigger] r@[k]).1 == self.count_of(r@[k].0) by {
                assert(r@.contains(r@[k]));
                assert(s.to_multiset().count(r@[k]) > 0);
                assert(s.contains(r@[k]));
                lemma_row_count(s, r@[k]);
            }
            assert forall|n: i64|
                self.count_of(n) >= 1 implies exists|k: int|
                0 <= k < r@.len() && (#[trigger] r@[k]).0 == n by {
                if forall|j: int| 0 <= j < s.len() ==> (#[trigger] s[j]).0 != n {
                    lemma_count_absent(s, n);
                } else {
                    let j = choose|j: int| 0 <= j < s.len() && (#[trigger] s[j]).0 == n;
                    assert(s.contains(s[j]));
                    assert(r@.to_multiset().count(s[j]) > 0);
                    assert(r@.contains(s[j]));
                    let k = choose|k: int| 0 <= k < r@.len() && r@[k] == s[j];
                    assert(r@[k].0 == n);
                }
            }
        }
        r
    }
}

/// In a row sequence with unique keys, any row it holds carries exactly
/// the count looked up under that row's key.
proof fn lemma_row_count(s: Seq<(i64, u64)>, row: (i64, u64))
    requires
        forall|i: int, j: int|
            0 <= i < j < s.len() ==> (#[trigger] s[i]).0 != (#[trigger] s[j]).0,
        s.contains(row),
    ensures
        seq_count_of(s, row.0) == row.1,
{
    let k = choose|k: int| 0 <= k < s.len() && s[k] == row;
    assert forall|j: int| 0 <= j < k implies (#[trigger] s[j]).0 != row.0 by {
        assert(s[j].0 != s[k].0);
    }
    lemma_count_found(s, row.0, k);
}

/// Whether row `a` belongs at or before row `b` in the summary order.
fn precedes(a: &(i64, u64), b: &(i64, u64)) -> (r: bool)
    ensures
        r == summary_le(*a, *b),
{
    a.1 > b.1 || (a.1 == b.1 && a.0 <= b.0)
}

/// Two row sequences that agree on every row with key `m` (position for
/// position) agree on `m`'s count; used when one row of another key
/// changed or was appended.
proof fn lemma_count_agree(pre: Seq<(i64, u64)>, post: Seq<(i64, u64)>, m: i64)
    requires
        pre.len() <= post.len(),
        forall|k: int| 0 <= k < pre.len() ==> (#[trigger] post[k]).0 == (#[trigger] pre[k]).0,
        forall|k: int|
            0 <= k < pre.len() && (#[trigger] pre[k]).0 == m ==> (#[trigger] post[k]).1 == pre[k].1,
        forall|k: int| pre.len() <= k < post.len() ==> (#[trigger] post[k]).0 != m,
    ensures
        seq_count_of(post, m) == seq_count_of(pre, m),
    decreases post.len(),
{
    if pre.len() == 0 {
        lemma_count_absent(post, m);
    } else if pre[0].0 == m {
        assert(post[0].0 == m && post[0].1 == pre[0].1);
    } else {
        lemma_count_agree(pre.drop_first(), post.drop_first(), m);
    }
}

/// Inserting a row anywhere adds exactly that row to the multiset view.
proof fn lemma_insert_to_multiset(s: Seq<(i64, u64)>, i: int, x: (i64, u64))
    requires
        0 <= i <= s.len(),
    ensures
        s.insert(i, x).to_multiset() =~= s.to_multiset().insert(x),
{
    broadcast use group_to_multiset_ensures;
    broadcast use vstd::multiset::group_multiset_axioms;

    let t = s.insert(i, x);
    s.insert_ensures(i, x);
    assert(t.remove(i) =~= s);
    assert(t[i] == x);
    assert(t.remove(i).to_multiset() =~= t.to_multiset().remove(t[i]));
    assert(t.to_multiset().count(x) > 0);
    assert forall|y: (i64, u64)|
        t.to_multiset().count(y) == #[trigger] s.to_multiset().insert(x).count(y) by {
        if y == x {
            assert(s.to_multiset().count(x) == t.to_multiset().remove(x).count(x));
        } else {
            assert(s.to_multiset().count(y) == t.to_multiset().remove(x).count(y));
        }
    }
    assert(t.to_multiset() =~= s.to_multiset().insert(x));
}

} // verus!
