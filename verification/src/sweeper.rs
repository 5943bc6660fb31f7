use vstd::prelude::*;

use crate::cmake::CMakeSweeper;
use crate::node::NodeSweeper;
use crate::path::DirPath;
use crate::path::EntryInfo;
use crate::path::EntryKind;
use crate::rust::RustSweeper;
use crate::target::Target;
use crate::target::TargetModel;

verus! {

/// Why a sweeper's detection call failed.
#[derive(Debug)]
pub enum SweeperError {
    /// An I/O failure, carried as its message.
    IoError(String),
    /// Any other failure of the detector's own logic.
    Other(String),
}

/// What a sweeper may inspect about one enumerated path: the path's own file
/// type, the listing of the directory at the path, and the listing of its
/// parent directory. The caller enumerates both listings; whatever it could
/// not read is simply absent, so an unreadable directory looks empty.
#[derive(Debug)]
pub struct DirEvidence {
    pub kind: EntryKind,
    pub entries: Vec<EntryInfo>,
    pub parent_entries: Vec<EntryInfo>,
}

/// The models of a sequence of targets, in order.
pub open spec fn target_models(targets: Seq<Target>) -> Seq<TargetModel> {
    targets.map_values(|t: Target| t@)
}

/// A detector for one kind of build artifact. Sweepers never recurse into
/// subdirectories and never mutate the filesystem: they judge exactly the
/// inspected path from the evidence before them.
pub trait Sweeper: Sized {
    spec fn spec_name(&self) -> Seq<char>;

    /// The targets this sweeper identifies at the inspected path.
    spec fn spec_targets(&self, directory: DirPath, evidence: DirEvidence) -> Seq<TargetModel>;

    /// Stable identifier of the sweeper, used for error attribution.
    fn name(&self) -> (r: &str)
        ensures
            r@ == self.spec_name(),
    ;

    /// All targets found at exactly this path, in a stable order, or a
    /// detection error.
    fn identify_targets(&self, directory: &DirPath, evidence: &DirEvidence) -> (r: Result<
        Vec<Target>,
        SweeperError,
    >)
        ensures
            r matches Ok(targets) ==> target_models(targets@) == self.spec_targets(
                *directory,
                *evidence,
            ),
    ;
}

/// The closed set of registered sweepers, dispatched by kind.
#[derive(Debug)]
pub enum SweeperKind {
    CMake(CMakeSweeper),
    Node(NodeSweeper),
    Rust(RustSweeper),
}

impl Sweeper for SweeperKind {
    open spec fn spec_name(&self) -> Seq<char> {
        match self {
            SweeperKind::CMake(s) => s.spec_name(),
            SweeperKind::Node(s) => s.spec_name(),
            SweeperKind::Rust(s) => s.spec_name(),
        }
    }

    open spec fn spec_targets(&self, directory: DirPath, evidence: DirEvidence) -> Seq<
        TargetModel,
    > {
        match self {
            SweeperKind::CMake(s) => s.spec_targets(directory, evidence),
            SweeperKind::Node(s) => s.spec_targets(directory, evidence),
            SweeperKind::Rust(s) => s.spec_targets(directory, evidence),
        }
    }

    fn name(&self) -> (r: &str)
        ensures
            r@ == self.spec_name(),
    {
        match self {
            SweeperKind::CMake(s) => s.name(),
            SweeperKind::Node(s) => s.name(),
            SweeperKind::Rust(s) => s.name(),
        }
    }

    fn identify_targets(&self, directory: &DirPath, evidence: &DirEvidence) -> (r: Result<
        Vec<Target>,
        SweeperError,
    >)
        ensures
            r is Ok,
    {
        match self {
            SweeperKind::CMake(s) => s.identify_targets(directory, evidence),
            SweeperKind::Node(s) => s.identify_targets(directory, evidence),
            SweeperKind::Rust(s) => s.identify_targets(directory, evidence),
        }
    }
}

/// A directory matching no detector's markers yields nothing: every sweeper
/// returns an empty collection for it.
pub proof fn lemma_no_markers_no_targets(directory: DirPath, evidence: DirEvidence)
    requires
        !crate::rust::rust_target_match(directory, evidence),
        !crate::node::node_target_match(directory, evidence),
        !crate::cmake::cmake_target_match(directory, evidence),
    ensures
        forall|s: SweeperKind| (#[trigger] s.spec_targets(directory, evidence)).len() == 0,
{
    assert forall|s: SweeperKind| (#[trigger] s.spec_targets(directory, evidence)).len() == 0 by {
        match s {
            SweeperKind::CMake(inner) => {
                assert(inner.spec_targets(directory, evidence).len() == 0);
            },
            SweeperKind::Node(inner) => {
                assert(inner.spec_targets(directory, evidence).len() == 0);
            },
            SweeperKind::Rust(inner) => {
                assert(inner.spec_targets(directory, evidence).len() == 0);
            },
        }
    }
}

/// Identifying targets is idempotent on unchanged evidence: what a sweeper
/// returns is a function of the inspected directory and its evidence alone,
/// so two detection calls over the same state agree.
pub proof fn lemma_identify_targets_idempotent(
    s: SweeperKind,
    directory: DirPath,
    evidence: DirEvidence,
    first_result: Seq<TargetModel>,
    second_result: Seq<TargetModel>,
)
    requires
        first_result == s.spec_targets(directory, evidence),
        second_result == s.spec_targets(directory, evidence),
    ensures
        first_result == second_result,
{
}

} // verus!
