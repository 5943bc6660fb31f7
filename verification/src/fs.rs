use vstd::prelude::*;

use crate::path::DirEntryEx;
use crate::path::DirPath;
use crate::path::EntryKind;

verus! {

/// An entry produced by directory enumeration: its full path and its
/// best-effort file type.
#[derive(Debug)]
pub struct DirEntry {
    pub path: DirPath,
    pub kind: EntryKind,
}

impl DirEntryEx for DirEntry {
    open spec fn spec_is_file(&self) -> bool {
        self.kind is File
    }

    open spec fn spec_is_dir(&self) -> bool {
        self.kind is Directory
    }

    fn is_file(&self) -> (r: bool)
        ensures
            r == self.spec_is_file(),
    {
        matches!(self.kind, EntryKind::File)
    }

    fn is_dir(&self) -> (r: bool)
        ensures
            r == self.spec_is_dir(),
    {
        matches!(self.kind, EntryKind::Directory)
    }
}

/// Iterative, stack-driven directory enumeration. The caller supplies each
/// directory's listing and decides which popped directories to expand, which
/// allows selective descent without recursion.
pub struct DirWalker {
    pending_entries: Vec<DirEntry>,
}

impl View for DirWalker {
    type V = Seq<DirEntry>;

    closed spec fn view(&self) -> Seq<DirEntry> {
        self.pending_entries@
    }
}

impl DirWalker {
    pub fn new() -> (r: DirWalker)
        ensures
            r@ == Seq::<DirEntry>::empty(),
    {
        DirWalker { pending_entries: Vec::new() }
    }

    /// Pops the most recently inserted entry, or signals exhaustion.
    pub fn next_item(&mut self) -> (r: Option<DirEntry>)
        ensures
            old(self)@.len() == 0 ==> r is None && final(self)@ == old(self)@,
            old(self)@.len() > 0 ==> r == Some(old(self)@.last()) && final(self)@ == old(
                self,
            )@.drop_last(),
    {
        self.pending_entries.pop()
    }

    /// Queues one directory level's entries, in the order enumerated.
    pub fn insert_entries(&mut self, entries: Vec<DirEntry>)
        ensures
            final(self)@ == old(self)@ + entries@,
    {
        let ghost orig_entries = entries@;
        let mut entries = entries;
        let total = entries.len();
        let mut i: usize = 0;
        proof {
            assert(entries@ =~= orig_entries.skip(0));
            assert(self@ =~= old(self)@ + orig_entries.take(0));
        }
        while i < total
            invariant
                i <= total,
                total == orig_entries.len(),
                entries@ == orig_entries.skip(i as int),
                self@ == old(self)@ + orig_entries.take(i as int),
            decreases total - i,
        {
            let ghost pre = entries@;
            let entry = entries.remove(0);
            self.pending_entries.push(entry);
            i += 1;
            proof {
                assert forall|m: int| 0 <= m < entries@.len() implies entries@[m]
                    == orig_entries.skip(i as int)[m] by {
                    assert(entries@[m] == pre[m + 1]);
                }
                assert(entries@ =~= orig_entries.skip(i as int));
                assert(self@ =~= old(self)@ + orig_entries.take(i as int));
            }
        }
        proof {
            assert(orig_entries.take(total as int) =~= orig_entries);
        }
    }
}

/// Number of further files the estimator consumes after the one that opens a
/// batch before it reports a new cumulative total.
pub const SIZE_YIELD_BATCH: usize = 1000;

/// Sum of a sequence of file sizes.
pub open spec fn sum_sizes(s: Seq<u64>) -> int
    decreases s.len(),
{
    if s.len() == 0 {
        0
    } else {
        sum_sizes(s.drop_last()) + s.last()
    }
}

pub proof fn lemma_sum_sizes_non_negative(s: Seq<u64>)
    ensures
        sum_sizes(s) >= 0,
    decreases s.len(),
{
    if s.len() > 0 {
        lemma_sum_sizes_non_negative(s.drop_last());
    }
}

pub proof fn lemma_sum_sizes_take_succ(s: Seq<u64>, i: int)
    requires
        0 <= i < s.len(),
    ensures
        sum_sizes(s.take(i + 1)) == sum_sizes(s.take(i)) + s[i],
{
    assert(s.take(i + 1).drop_last() =~= s.take(i));
    assert(s.take(i + 1).last() == s[i]);
}

pub proof fn lemma_sum_sizes_take_le(s: Seq<u64>, i: int)
    requires
        0 <= i <= s.len(),
    ensures
        sum_sizes(s.take(i)) <= sum_sizes(s),
    decreases s.len() - i,
{
    if i == s.len() {
        assert(s.take(i) =~= s);
    } else {
        lemma_sum_sizes_take_succ(s, i);
        lemma_sum_sizes_take_le(s, i + 1);
    }
}

/// Where the estimator cuts the size sequence for its yield number `k`: after
/// each full batch of files, and at the end for a final partial batch.
pub open spec fn size_yield_cut(k: int, n: int) -> int {
    if (k + 1) * (SIZE_YIELD_BATCH + 1) < n {
        (k + 1) * (SIZE_YIELD_BATCH + 1)
    } else {
        n
    }
}

/// How many cumulative totals the estimator reports for `n` files.
pub open spec fn size_yield_count(n: int) -> int {
    (n + SIZE_YIELD_BATCH as int) / (SIZE_YIELD_BATCH as int + 1)
}

/// The finite sequence of cumulative byte totals the estimator reports for a
/// given sequence of file sizes.
pub open spec fn size_yields(s: Seq<u64>) -> Seq<int> {
    Seq::new(size_yield_count(s.len() as int) as nat, |k: int| sum_sizes(s.take(size_yield_cut(k, s.len() as int))))
}

/// The reported cumulative totals never decrease.
pub proof fn lemma_size_yields_non_decreasing(s: Seq<u64>, j: int, k: int)
    requires
        0 <= j <= k < size_yields(s).len(),
    ensures
        size_yields(s)[j] <= size_yields(s)[k],
{
    let n = s.len() as int;
    let cut_j = size_yield_cut(j, n);
    let cut_k = size_yield_cut(k, n);
    assert(cut_j <= cut_k);
    lemma_sum_sizes_take_le(s.take(cut_k), cut_j);
    assert(s.take(cut_k).take(cut_j) =~= s.take(cut_j));
}

/// Draining the estimator to its last report yields the total size.
pub proof fn lemma_size_yields_total(s: Seq<u64>)
    requires
        s.len() > 0,
    ensures
        size_yields(s).len() > 0,
        size_yields(s).last() == sum_sizes(s),
{
    let n = s.len() as int;
    let last = size_yield_count(n) - 1;
    assert(size_yield_cut(last, n) == n);
    assert(s.take(n) =~= s);
}

/// Lazy, batched accumulator of per-file sizes: it tracks the running byte
/// total of the sizes consumed so far and reports a new cumulative total once
/// per full batch; a final partial batch is reported when the walk ends.
pub struct SizeEstimator {
    size_total: u64,
    batch_fill: usize,
    sizes_seen: Ghost<Seq<u64>>,
}

impl SizeEstimator {
    /// All file sizes consumed so far.
    pub closed spec fn consumed(&self) -> Seq<u64> {
        self.sizes_seen@
    }

    pub closed spec fn wf(&self) -> bool {
        &&& self.size_total == sum_sizes(self.sizes_seen@)
        &&& self.batch_fill == self.sizes_seen@.len() as int % (SIZE_YIELD_BATCH as int + 1)
    }

    pub fn new() -> (r: SizeEstimator)
        ensures
            r.wf(),
            r.consumed() == Seq::<u64>::empty(),
    {
        SizeEstimator { size_total: 0, batch_fill: 0, sizes_seen: Ghost(Seq::empty()) }
    }

    /// Accounts one regular file's size. Reports the running total exactly
    /// when this file completes a batch.
    pub fn consume(&mut self, file_size: u64) -> (y: Option<u64>)
        requires
            old(self).wf(),
            sum_sizes(old(self).consumed()) + file_size <= u64::MAX,
        ensures
            final(self).wf(),
            final(self).consumed() == old(self).consumed().push(file_size),
            sum_sizes(final(self).consumed()) == sum_sizes(old(self).consumed()) + file_size,
            y == (if final(self).consumed().len() as int % (SIZE_YIELD_BATCH as int + 1) == 0 {
                Some((sum_sizes(final(self).consumed()) as u64))
            } else {
                None::<u64>
            }),
    {
        proof {
            assert(self.sizes_seen@.push(file_size).drop_last() =~= self.sizes_seen@);
        }
        self.size_total = self.size_total + file_size;
        self.batch_fill = self.batch_fill + 1;
        proof {
            self.sizes_seen@ = self.sizes_seen@.push(file_size);
        }
        if self.batch_fill == SIZE_YIELD_BATCH + 1 {
            self.batch_fill = 0;
            Some(self.size_total)
        } else {
            None
        }
    }

    /// The final report when the walk is exhausted: the total of a trailing
    /// partial batch, or nothing when the last batch was already reported.
    pub fn finish(&self) -> (y: Option<u64>)
        requires
            self.wf(),
        ensures
            y == (if self.consumed().len() as int % (SIZE_YIELD_BATCH as int + 1) == 0 {
                None::<u64>
            } else {
                Some((sum_sizes(self.consumed()) as u64))
            }),
    {
        if self.batch_fill == 0 {
            None
        } else {
            Some(self.size_total)
        }
    }
}

/// A step of integer division by the batch group size.
proof fn lemma_group_div_step(i: int)
    requires
        i > 0,
    ensures
        i % (SIZE_YIELD_BATCH as int + 1) == 0 ==> i / (SIZE_YIELD_BATCH as int + 1) == (i - 1) / (
        SIZE_YIELD_BATCH as int + 1) + 1,
        i % (SIZE_YIELD_BATCH as int + 1) != 0 ==> i / (SIZE_YIELD_BATCH as int + 1) == (i - 1) / (
        SIZE_YIELD_BATCH as int + 1),
{
    let g = SIZE_YIELD_BATCH as int + 1;
    vstd::arithmetic::div_mod::lemma_fundamental_div_mod(i - 1, g);
    vstd::arithmetic::div_mod::lemma_mod_bound(i - 1, g);
    let d = (i - 1) / g;
    let m = (i - 1) % g;
    if m + 1 < g {
        vstd::arithmetic::div_mod::lemma_fundamental_div_mod_converse(i, g, d, m + 1);
    } else {
        assert(i == (d + 1) * g + 0) by (nonlinear_arith)
            requires
                i - 1 == d * g + m,
                m == g - 1,
        ;
        vstd::arithmetic::div_mod::lemma_fundamental_div_mod_converse(i, g, d + 1, 0);
    }
}

/// The batched cumulative size sequence for a subtree whose regular-file
/// sizes, in the order the walk meets them, are `sizes`.
pub fn estimate_size_async(sizes: &Vec<u64>) -> (r: Vec<u64>)
    requires
        sum_sizes(sizes@) <= u64::MAX,
    ensures
        r@.len() == size_yields(sizes@).len(),
        forall|k: int| 0 <= k < r@.len() ==> r@[k] as int == size_yields(sizes@)[k],
{
    let ghost s = sizes@;
    let ghost n = s.len() as int;
    let ghost group = SIZE_YIELD_BATCH as int + 1;
    let mut estimator = SizeEstimator::new();
    let mut r: Vec<u64> = Vec::new();
    let mut i: usize = 0;
    proof {
        assert(estimator.consumed() =~= s.take(0));
    }
    while i < sizes.len()
        invariant
            i <= sizes.len(),
            s == sizes@,
            n == s.len() as int,
            group == SIZE_YIELD_BATCH as int + 1,
            sum_sizes(s) <= u64::MAX,
            estimator.wf(),
            estimator.consumed() == s.take(i as int),
            r@.len() == i as int / group,
            forall|k: int| 0 <= k < r@.len() ==> r@[k] as int == sum_sizes(s.take((k + 1) * group)),
        decreases sizes.len() - i,
    {
        proof {
            lemma_sum_sizes_take_succ(s, i as int);
            lemma_sum_sizes_take_le(s, i + 1);
            lemma_sum_sizes_non_negative(s.take(i as int));
        }
        let y = estimator.consume(sizes[i]);
        proof {
            assert(estimator.consumed() =~= s.take(i + 1));
            lemma_group_div_step(i + 1);
        }
        i += 1;
        if let Some(total) = y {
            r.push(total);
            proof {
                assert(i as int == ((i as int / group - 1) + 1) * group) by (nonlinear_arith)
                    requires
                        group > 0,
                        i as int % group == 0,
                        i > 0,
                ;
            }
        }
    }
    proof {
        assert(s.take(n) =~= s);
        lemma_sum_sizes_non_negative(s);
    }
    let ghost full_yields = n / group;
    if let Some(total) = estimator.finish() {
        r.push(total);
    }
    proof {
        vstd::arithmetic::div_mod::lemma_fundamental_div_mod(n, group);
        vstd::arithmetic::div_mod::lemma_mod_bound(n, group);
        let d = n / group;
        let m = n % group;
        if m == 0 {
            assert(n + group - 1 == d * group + (group - 1));
            vstd::arithmetic::div_mod::lemma_fundamental_div_mod_converse(
                n + group - 1,
                group,
                d,
                group - 1,
            );
        } else {
            assert(n + group - 1 == (d + 1) * group + (m - 1)) by (nonlinear_arith)
                requires
                    n == d * group + m,
                    0 < m < group,
            ;
            vstd::arithmetic::div_mod::lemma_fundamental_div_mod_converse(
                n + group - 1,
                group,
                d + 1,
                m - 1,
            );
        }
        assert(r@.len() == size_yield_count(n));
        assert forall|k: int| 0 <= k < r@.len() implies r@[k] as int == size_yields(s)[k] by {
            if k < full_yields {
                assert((k + 1) * group <= d * group) by (nonlinear_arith)
                    requires
                        group > 0,
                        k + 1 <= d,
                ;
                assert(d * group <= n);
                if (k + 1) * group == n {
                    assert(size_yield_cut(k, n) == n);
                    assert(s.take((k + 1) * group) == s.take(n));
                } else {
                    assert(size_yield_cut(k, n) == (k + 1) * group);
                }
            } else {
                assert(k == full_yields && m != 0);
                assert((k + 1) * group >= n) by (nonlinear_arith)
                    requires
                        group > 0,
                        k + 1 > n / group,
                        n == (n / group) * group + n % group,
                        n % group < group,
                ;
                assert(size_yield_cut(k, n) == n);
            }
        }
    }
    r
}

/// Snapshot of a size estimation in progress: the best value seen so far and
/// whether it is the final total. Readers poll it; a writer never publishes a
/// half-written pair.
#[derive(Clone, Copy, PartialEq, Eq, Structural, Debug)]
pub struct SizeProgress {
    pub bytes: u64,
    pub is_final: bool,
}

impl SizeProgress {
    /// The state before any estimate arrived.
    pub fn new() -> (r: SizeProgress)
        ensures
            r.bytes == 0,
            !r.is_final,
    {
        SizeProgress { bytes: 0, is_final: false }
    }

    /// Records an intermediate cumulative total.
    pub fn record_partial(&mut self, bytes: u64)
        ensures
            final(self).bytes == bytes,
            !final(self).is_final,
    {
        self.bytes = bytes;
        self.is_final = false;
    }

    /// Records the final total; nothing may follow it.
    pub fn record_final(&mut self, bytes: u64)
        ensures
            final(self).bytes == bytes,
            final(self).is_final,
    {
        self.bytes = bytes;
        self.is_final = true;
    }
}

} // verus!
