use vstd::prelude::*;

use crate::target::Target;
use crate::target::TargetModel;

verus! {

/// One row of the selection list: a discovered target and whether the
/// operator marked it for cleanup.
#[derive(Debug)]
pub struct SelectionEntry {
    pub target: Target,
    pub selected: bool,
}

/// The models of the marked targets of a selection, in list order.
pub open spec fn spec_selected(entries: Seq<SelectionEntry>) -> Seq<TargetModel>
    decreases entries.len(),
{
    if entries.len() == 0 {
        Seq::empty()
    } else {
        spec_selected(entries.drop_last()) + (if entries.last().selected {
            seq![entries.last().target@]
        } else {
            Seq::empty()
        })
    }
}

/// The rows a selection keeps after the marked targets move out.
pub open spec fn spec_retained(entries: Seq<SelectionEntry>) -> Seq<SelectionEntry>
    decreases entries.len(),
{
    if entries.len() == 0 {
        Seq::empty()
    } else {
        spec_retained(entries.drop_last()) + (if entries.last().selected {
            Seq::empty()
        } else {
            seq![entries.last()]
        })
    }
}

/// The selection list between discovery and cleanup: targets stream in from
/// the scan, the operator marks some of them, and the marked ones move out
/// as one batch for the cleanup executor. Each target has exactly one holder
/// at any time: the list owns it from `add_target` until
/// `remove_selected_targets` hands it on.
#[derive(Debug)]
pub struct TargetSelection {
    entries: Vec<SelectionEntry>,
}

impl TargetSelection {
    /// The rows of the list, in the order the targets arrived.
    pub closed spec fn entries(&self) -> Seq<SelectionEntry> {
        self.entries@
    }

    pub fn new() -> (r: TargetSelection)
        ensures
            r.entries() == Seq::<SelectionEntry>::empty(),
    {
        TargetSelection { entries: Vec::new() }
    }

    /// Appends one discovered target, unmarked.
    pub fn add_target(&mut self, target: Target)
        ensures
            final(self).entries() == old(self).entries().push(
                SelectionEntry { target, selected: false },
            ),
    {
        self.entries.push(SelectionEntry { target, selected: false });
    }

    pub fn len(&self) -> (r: usize)
        ensures
            r == self.entries().len(),
    {
        self.entries.len()
    }

    /// A snapshot of one row.
    pub fn entry(&self, index: usize) -> (r: &SelectionEntry)
        requires
            index < self.entries().len(),
        ensures
            *r == self.entries()[index as int],
    {
        &self.entries[index]
    }

    /// Flips one row's mark.
    pub fn toggle(&mut self, index: usize)
        requires
            index < old(self).entries().len(),
        ensures
            final(self).entries() == old(self).entries().update(
                index as int,
                SelectionEntry {
                    target: old(self).entries()[index as int].target,
                    selected: !old(self).entries()[index as int].selected,
                },
            ),
    {
        let mut entry = self.entries.remove(index);
        entry.selected = !entry.selected;
        self.entries.insert(index, entry);
        proof {
            assert(self.entries@ =~= old(self).entries().update(
                index as int,
                SelectionEntry {
                    target: old(self).entries()[index as int].target,
                    selected: !old(self).entries()[index as int].selected,
                },
            ));
        }
    }

    /// Marks or unmarks every row at once.
    pub fn set_all(&mut self, selected: bool)
        ensures
            final(self).entries().len() == old(self).entries().len(),
            forall|i: int|
                0 <= i < old(self).entries().len() ==> #[trigger] final(self).entries()[i]
                    == (SelectionEntry { target: old(self).entries()[i].target, selected }),
    {
        let total = self.entries.len();
        let mut i: usize = 0;
        while i < total
            invariant
                i <= total,
                total == old(self).entries().len(),
                self.entries@.len() == total,
                forall|j: int|
                    0 <= j < i ==> #[trigger] self.entries@[j] == (SelectionEntry {
                        target: old(self).entries()[j].target,
                        selected,
                    }),
                forall|j: int| i <= j < total ==> self.entries@[j] == old(self).entries()[j],
            decreases total - i,
        {
            let mut entry = self.entries.remove(i);
            entry.selected = selected;
            self.entries.insert(i, entry);
            i += 1;
        }
    }

    /// How many rows are marked.
    pub fn selected_target_count(&self) -> (r: usize)
        ensures
            r == spec_selected(self.entries()).len(),
    {
        let ghost entries_seq = self.entries@;
        let mut count: usize = 0;
        let mut i: usize = 0;
        proof {
            assert(entries_seq.take(0) =~= Seq::<SelectionEntry>::empty());
        }
        while i < self.entries.len()
            invariant
                i <= self.entries@.len(),
                self.entries@ == entries_seq,
                count <= i,
                count == spec_selected(entries_seq.take(i as int)).len(),
            decreases self.entries@.len() - i,
        {
            let is_selected = self.entries[i].selected;
            if is_selected {
                count = count + 1;
            }
            i += 1;
            proof {
                assert(entries_seq.take(i as int).drop_last() =~= entries_seq.take(i - 1));
                assert(entries_seq.take(i as int).last() == entries_seq[i - 1]);
            }
        }
        proof {
            assert(entries_seq.take(entries_seq.len() as int) =~= entries_seq);
        }
        count
    }

    /// Moves every marked target out, in list order; the unmarked rows stay.
    pub fn remove_selected_targets(&mut self) -> (removed: Vec<Target>)
        ensures
            crate::sweeper::target_models(removed@) == spec_selected(old(self).entries()),
            final(self).entries() == spec_retained(old(self).entries()),
    {
        let ghost entries_seq = self.entries@;
        let total = self.entries.len();
        let mut kept: Vec<SelectionEntry> = Vec::new();
        let mut removed: Vec<Target> = Vec::new();
        let mut i: usize = 0;
        proof {
            assert(self.entries@ =~= entries_seq.skip(0));
            assert(crate::sweeper::target_models(removed@) =~= spec_selected(entries_seq.take(0)));
            assert(kept@ =~= spec_retained(entries_seq.take(0)));
        }
        while i < total
            invariant
                i <= total,
                total == entries_seq.len(),
                self.entries@ == entries_seq.skip(i as int),
                crate::sweeper::target_models(removed@) == spec_selected(entries_seq.take(i as int)),
                kept@ == spec_retained(entries_seq.take(i as int)),
            decreases total - i,
        {
            let ghost pre = self.entries@;
            let entry = self.entries.remove(0);
            if entry.selected {
                removed.push(entry.target);
            } else {
                kept.push(entry);
            }
            i += 1;
            proof {
                assert forall|m: int| 0 <= m < self.entries@.len() implies self.entries@[m]
                    == entries_seq.skip(i as int)[m] by {
                    assert(self.entries@[m] == pre[m + 1]);
                }
                assert(self.entries@ =~= entries_seq.skip(i as int));
                assert(entries_seq.take(i as int).drop_last() =~= entries_seq.take(i - 1));
                assert(entries_seq.take(i as int).last() == entries_seq[i - 1]);
                assert(crate::sweeper::target_models(removed@) =~= spec_selected(
                    entries_seq.take(i as int),
                ));
                assert(kept@ =~= spec_retained(entries_seq.take(i as int)));
            }
        }
        self.entries = kept;
        proof {
            assert(entries_seq.take(total as int) =~= entries_seq);
        }
        removed
    }
}

} // verus!
