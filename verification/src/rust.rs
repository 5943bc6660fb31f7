use vstd::prelude::*;

use crate::path::listing_contains_file;
use crate::path::listing_has_file;
use crate::path::str_eq;
use crate::path::DirPath;
use crate::path::PathEx;
use crate::sweeper::DirEvidence;
use crate::sweeper::Sweeper;
use crate::sweeper::SweeperError;
use crate::target::RustTarget;
use crate::target::Target;
use crate::target::TargetKind;
use crate::target::TargetModel;

verus! {

/// Detector for Rust build directories.
#[derive(Debug)]
pub struct RustSweeper;

impl RustSweeper {
    pub fn new() -> (r: RustSweeper) {
        RustSweeper
    }
}

/// A Rust build directory: named `target` and holding both of cargo's marker
/// files.
pub open spec fn rust_target_match(directory: DirPath, evidence: DirEvidence) -> bool {
    &&& directory.spec_file_name() == "target"@
    &&& listing_contains_file(evidence.entries@, "CACHEDIR.TAG"@)
    &&& listing_contains_file(evidence.entries@, ".rustc_info.json"@)
}

impl Sweeper for RustSweeper {
    open spec fn spec_name(&self) -> Seq<char> {
        "rust"@
    }

    open spec fn spec_targets(&self, directory: DirPath, evidence: DirEvidence) -> Seq<
        TargetModel,
    > {
        if rust_target_match(directory, evidence) {
            seq![TargetModel { kind: TargetKind::Rust, path: directory@ }]
        } else {
            Seq::empty()
        }
    }

    fn name(&self) -> (r: &str)
        ensures
            r@ == self.spec_name(),
    {
        "rust"
    }

    fn identify_targets(&self, directory: &DirPath, evidence: &DirEvidence) -> (r: Result<
        Vec<Target>,
        SweeperError,
    >)
        ensures
            r is Ok,
    {
        let file_name = directory.file_name_truncate();
        if !str_eq(file_name.as_str(), "target") {
            let empty: Vec<Target> = Vec::new();
            proof {
                assert(crate::sweeper::target_models(empty@) =~= Seq::<TargetModel>::empty());
            }
            return Ok(empty);
        }
        if !listing_has_file(&evidence.entries, "CACHEDIR.TAG") {
            let empty: Vec<Target> = Vec::new();
            proof {
                assert(crate::sweeper::target_models(empty@) =~= Seq::<TargetModel>::empty());
            }
            return Ok(empty);
        }
        if !listing_has_file(&evidence.entries, ".rustc_info.json") {
            let empty: Vec<Target> = Vec::new();
            proof {
                assert(crate::sweeper::target_models(empty@) =~= Seq::<TargetModel>::empty());
            }
            return Ok(empty);
        }
        let mut found: Vec<Target> = Vec::new();
        found.push(Target::Rust(RustTarget { target_dir: directory.duplicate() }));
        proof {
            assert(crate::sweeper::target_models(found@) =~= seq![
                TargetModel { kind: TargetKind::Rust, path: directory@ },
            ]);
        }
        Ok(found)
    }
}

/// A directory whose final component is `target` and whose listing holds
/// both of cargo's marker files yields exactly one Rust target, at that very
/// path; with either marker absent, or under another name, it yields none.
pub proof fn lemma_rust_detection_exact(
    sweeper: RustSweeper,
    directory: DirPath,
    evidence: DirEvidence,
)
    ensures
        rust_target_match(directory, evidence) ==> sweeper.spec_targets(directory, evidence)
            =~= seq![TargetModel { kind: TargetKind::Rust, path: directory@ }],
        directory.spec_file_name() != "target"@ ==> sweeper.spec_targets(
            directory,
            evidence,
        ).len() == 0,
        !listing_contains_file(evidence.entries@, "CACHEDIR.TAG"@) ==> sweeper.spec_targets(
            directory,
            evidence,
        ).len() == 0,
        !listing_contains_file(evidence.entries@, ".rustc_info.json"@) ==> sweeper.spec_targets(
            directory,
            evidence,
        ).len() == 0,
{
}

} // verus!
