use vstd::prelude::*;

use crate::path::listing_contains_file_ignore_case;
use crate::path::str_eq;
use crate::path::DirPath;
use crate::path::PathEx;
use crate::sweeper::DirEvidence;
use crate::sweeper::Sweeper;
use crate::sweeper::SweeperError;
use crate::target::NodeTarget;
use crate::target::Target;
use crate::target::TargetKind;
use crate::target::TargetModel;

verus! {

/// Detector for Node dependency install trees.
#[derive(Debug)]
pub struct NodeSweeper;

impl NodeSweeper {
    pub fn new() -> (r: NodeSweeper) {
        NodeSweeper
    }
}

/// A Node dependency tree: a directory named `node_modules` whose parent
/// holds a file named `package.json` in any casing.
pub open spec fn node_target_match(directory: DirPath, evidence: DirEvidence) -> bool {
    &&& evidence.kind is Directory
    &&& directory.spec_file_name() == "node_modules"@
    &&& listing_contains_file_ignore_case(evidence.parent_entries@, "package.json"@)
}

impl Sweeper for NodeSweeper {
    open spec fn spec_name(&self) -> Seq<char> {
        "node_modules"@
    }

    open spec fn spec_targets(&self, directory: DirPath, evidence: DirEvidence) -> Seq<
        TargetModel,
    > {
        if node_target_match(directory, evidence) {
            seq![TargetModel { kind: TargetKind::Node, path: directory@ }]
        } else {
            Seq::empty()
        }
    }

    fn name(&self) -> (r: &str)
        ensures
            r@ == self.spec_name(),
    {
        "node_modules"
    }

    fn identify_targets(&self, directory: &DirPath, evidence: &DirEvidence) -> (r: Result<
        Vec<Target>,
        SweeperError,
    >)
        ensures
            r is Ok,
    {
        let file_name = directory.file_name_truncate();
        if !matches!(evidence.kind, crate::path::EntryKind::Directory) || !str_eq(
            file_name.as_str(),
            "node_modules",
        ) {
            let empty: Vec<Target> = Vec::new();
            proof {
                assert(crate::sweeper::target_models(empty@) =~= Seq::<TargetModel>::empty());
            }
            return Ok(empty);
        }
        if !directory.contains_file_ignore_case(&evidence.parent_entries, "package.json") {
            let empty: Vec<Target> = Vec::new();
            proof {
                assert(crate::sweeper::target_models(empty@) =~= Seq::<TargetModel>::empty());
            }
            return Ok(empty);
        }
        let mut found: Vec<Target> = Vec::new();
        found.push(Target::Node(NodeTarget { target_dir: directory.duplicate() }));
        proof {
            assert(crate::sweeper::target_models(found@) =~= seq![
                TargetModel { kind: TargetKind::Node, path: directory@ },
            ]);
        }
        Ok(found)
    }
}

/// A `node_modules` directory with a sibling `package.json`, whatever the
/// ASCII casing of that file's name, yields exactly one Node target at that
/// path; without such a sibling it yields none.
pub proof fn lemma_node_detection_exact(
    sweeper: NodeSweeper,
    directory: DirPath,
    evidence: DirEvidence,
)
    ensures
        node_target_match(directory, evidence) ==> sweeper.spec_targets(directory, evidence)
            =~= seq![TargetModel { kind: TargetKind::Node, path: directory@ }],
        !listing_contains_file_ignore_case(evidence.parent_entries@, "package.json"@)
            ==> sweeper.spec_targets(directory, evidence).len() == 0,
{
}

} // verus!
