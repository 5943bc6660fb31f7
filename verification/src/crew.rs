use vstd::prelude::*;

use crate::fs::DirEntry;
use crate::fs::DirWalker;
use crate::path::DirPath;
use crate::sweeper::DirEvidence;
use crate::sweeper::Sweeper;
use crate::sweeper::SweeperError;
use crate::sweeper::SweeperKind;
use crate::target::Target;
use crate::target::TargetModel;

verus! {

/// An observability event of a running scan; reported, never persisted.
#[derive(Debug)]
pub enum CrewReport {
    /// The scan is inspecting this path right now.
    StatusInspecting(DirPath),
    /// One sweeper's detection call failed; the scan goes on.
    ErrorSweeper { sweeper: String, error: SweeperError },
    /// A directory could not be read; the scan goes on.
    ErrorFs(String),
}

/// A sink for scan reports.
pub trait CrewReportConsumer {
    fn consume_report(&mut self, report: CrewReport);
}

/// The default report sink: it discards every report.
#[derive(Debug)]
pub struct VoidCrewReportConsumer;

impl CrewReportConsumer for VoidCrewReportConsumer {
    fn consume_report(&mut self, _report: CrewReport) {
    }
}

/// Configuration of a scan.
pub struct CrewOptions<C> {
    /// Keep searching a directory's subtree even though the directory itself
    /// has already been identified as a sweepable target.
    pub search_recursively: bool,
    pub report_consumer: C,
}

impl Default for CrewOptions<VoidCrewReportConsumer> {
    fn default() -> (r: Self)
        ensures
            !r.search_recursively,
    {
        CrewOptions { search_recursively: false, report_consumer: VoidCrewReportConsumer }
    }
}

/// Every target the registered sweepers identify at one inspected path, in
/// registration order.
pub open spec fn crew_targets(
    members: Seq<SweeperKind>,
    directory: DirPath,
    evidence: DirEvidence,
) -> Seq<TargetModel>
    decreases members.len(),
{
    if members.len() == 0 {
        Seq::empty()
    } else {
        crew_targets(members.drop_last(), directory, evidence) + members.last().spec_targets(
            directory,
            evidence,
        )
    }
}

/// The set of sweepers to run against a directory tree.
#[derive(Debug)]
pub struct SweeperCrew {
    members: Vec<SweeperKind>,
}

impl SweeperCrew {
    /// The registered sweepers, in registration order.
    pub closed spec fn members(&self) -> Seq<SweeperKind> {
        self.members@
    }

    pub fn new() -> (r: SweeperCrew)
        ensures
            r.members() == Seq::<SweeperKind>::empty(),
    {
        SweeperCrew { members: Vec::new() }
    }

    pub fn register(&mut self, sweeper: SweeperKind)
        ensures
            final(self).members() == old(self).members().push(sweeper),
    {
        self.members.push(sweeper)
    }

    pub fn register_boxed(&mut self, sweeper: Box<SweeperKind>)
        ensures
            final(self).members() == old(self).members().push(*sweeper),
    {
        self.members.push(*sweeper)
    }

    /// Starts a scan session rooted at a directory whose listing (or read
    /// error) the caller supplies. A read error of the root is reported and
    /// leaves nothing to scan.
    pub fn execute<C: CrewReportConsumer>(
        self,
        root_entries: Result<Vec<DirEntry>, String>,
        options: CrewOptions<C>,
    ) -> (s: ScanSession<C>)
        ensures
            s.members() == self.members(),
            s.search_recursively() == options.search_recursively,
            !s.is_aborted(),
            root_entries matches Ok(entries) ==> s.pending() == entries@,
            root_entries is Err ==> s.pending().len() == 0,
    {
        let mut options = options;
        let mut walker = DirWalker::new();
        match root_entries {
            Ok(entries) => walker.insert_entries(entries),
            Err(message) => options.report_consumer.consume_report(CrewReport::ErrorFs(message)),
        }
        ScanSession { walker, members: self.members, options, aborted: false }
    }
}

/// One scan of a directory tree: the walker's stack of pending entries, the
/// registered sweepers, and the options. The driving loop pops entries with
/// `next_entry`, runs the sweepers over each with `inspect`, and expands the
/// subtrees `inspect` approves with `descend`.
pub struct ScanSession<C> {
    walker: DirWalker,
    members: Vec<SweeperKind>,
    options: CrewOptions<C>,
    aborted: bool,
}

impl<C: CrewReportConsumer> ScanSession<C> {
    /// The entries enumerated but not yet inspected.
    pub closed spec fn pending(&self) -> Seq<DirEntry> {
        self.walker@
    }

    pub closed spec fn members(&self) -> Seq<SweeperKind> {
        self.members@
    }

    pub closed spec fn search_recursively(&self) -> bool {
        self.options.search_recursively
    }

    pub closed spec fn is_aborted(&self) -> bool {
        self.aborted
    }

    /// Pops the entry to inspect next, or signals that the scan is done.
    pub fn next_entry(&mut self) -> (r: Option<DirEntry>)
        ensures
            final(self).members() == old(self).members(),
            final(self).search_recursively() == old(self).search_recursively(),
            final(self).is_aborted() == old(self).is_aborted(),
            old(self).pending().len() == 0 ==> r is None && final(self).pending() == old(self).pending(),
            old(self).pending().len() > 0 ==> r == Some(old(self).pending().last())
                && final(self).pending() == old(self).pending().drop_last(),
    {
        self.walker.next_item()
    }

    /// Reports the inspected path, runs every registered sweeper against it
    /// in registration order, and returns the identified targets in discovery
    /// order, together with whether the pruning policy asks to descend into
    /// the entry: into every unmatched directory, and into a matched one only
    /// when the scan is recursive. A sweeper's error is reported with the
    /// sweeper's name; the remaining sweepers still run.
    pub fn inspect(&mut self, entry: &DirEntry, evidence: &DirEvidence) -> (r: (Vec<Target>, bool))
        ensures
            final(self).members() == old(self).members(),
            final(self).search_recursively() == old(self).search_recursively(),
            final(self).is_aborted() == old(self).is_aborted(),
            final(self).pending() == old(self).pending(),
            crate::sweeper::target_models(r.0@) == crew_targets(
                old(self).members(),
                entry.path,
                *evidence,
            ),
            r.1 == (entry.kind is Directory && (old(self).search_recursively() || r.0@.len()
                == 0)),
    {
        let ghost members_seq = self.members@;
        self.options.report_consumer.consume_report(
            CrewReport::StatusInspecting(entry.path.duplicate()),
        );
        let mut collected: Vec<Target> = Vec::new();
        proof {
            assert(crate::sweeper::target_models(collected@) =~= crew_targets(
                members_seq.take(0),
                entry.path,
                *evidence,
            ));
        }
        let mut m: usize = 0;
        while m < self.members.len()
            invariant
                m <= self.members.len(),
                self.members@ == members_seq,
                self.options.search_recursively == old(self).search_recursively(),
                self.walker@ == old(self).pending(),
                self.aborted == old(self).is_aborted(),
                crate::sweeper::target_models(collected@) == crew_targets(
                    members_seq.take(m as int),
                    entry.path,
                    *evidence,
                ),
            decreases self.members.len() - m,
        {
            let ghost collected_pre = collected@;
            match self.members[m].identify_targets(&entry.path, evidence) {
                Ok(mut targets) => {
                    let ghost targets_seq = targets@;
                    collected.append(&mut targets);
                    proof {
                        assert(collected@ =~= collected_pre + targets_seq);
                    }
                },
                Err(error) => {
                    let sweeper_name = String::from_str(self.members[m].name());
                    self.options.report_consumer.consume_report(
                        CrewReport::ErrorSweeper { sweeper: sweeper_name, error },
                    );
                    proof {
                        assert(collected@ =~= collected_pre + Seq::<Target>::empty());
                    }
                },
            }
            m += 1;
            proof {
                assert(members_seq.take(m as int).drop_last() =~= members_seq.take(m - 1));
                assert(members_seq.take(m as int).last() == members_seq[m - 1]);
                assert(crate::sweeper::target_models(collected@) =~= crew_targets(
                    members_seq.take(m as int),
                    entry.path,
                    *evidence,
                ));
            }
        }
        proof {
            assert(members_seq.take(members_seq.len() as int) =~= members_seq);
        }
        let target_found = collected.len() > 0;
        let descend = matches!(entry.kind, crate::path::EntryKind::Directory) && (
        self.options.search_recursively || !target_found);
        (collected, descend)
    }

    /// Queues one approved directory's entries for inspection.
    pub fn descend(&mut self, entries: Vec<DirEntry>)
        ensures
            final(self).members() == old(self).members(),
            final(self).search_recursively() == old(self).search_recursively(),
            final(self).is_aborted() == old(self).is_aborted(),
            final(self).pending() == old(self).pending() + entries@,
    {
        self.walker.insert_entries(entries)
    }

    /// Reports a directory that could not be read; the scan itself goes on.
    pub fn report_read_error(&mut self, message: String)
        ensures
            final(self).members() == old(self).members(),
            final(self).search_recursively() == old(self).search_recursively(),
            final(self).is_aborted() == old(self).is_aborted(),
            final(self).pending() == old(self).pending(),
    {
        self.options.report_consumer.consume_report(CrewReport::ErrorFs(message))
    }

    /// Ends the scan because the target stream's receiving side is gone:
    /// every pending entry is dropped, so the session offers no further work.
    pub fn abort(&mut self)
        ensures
            final(self).members() == old(self).members(),
            final(self).search_recursively() == old(self).search_recursively(),
            final(self).is_aborted(),
            final(self).pending().len() == 0,
    {
        self.aborted = true;
        self.walker = DirWalker::new();
    }
}

/// A scan identifies nothing at a directory matching no detector's markers,
/// whatever sweepers are registered.
pub proof fn lemma_no_markers_empty_scan(
    members: Seq<SweeperKind>,
    directory: DirPath,
    evidence: DirEvidence,
)
    requires
        !crate::rust::rust_target_match(directory, evidence),
        !crate::node::node_target_match(directory, evidence),
        !crate::cmake::cmake_target_match(directory, evidence),
    ensures
        crew_targets(members, directory, evidence).len() == 0,
    decreases members.len(),
{
    crate::sweeper::lemma_no_markers_no_targets(directory, evidence);
    if members.len() > 0 {
        lemma_no_markers_empty_scan(members.drop_last(), directory, evidence);
    }
}

} // verus!
