use vstd::prelude::*;

use crate::path::listing_contains_file;
use crate::path::listing_has_file;
use crate::path::str_eq;
use crate::path::DirPath;
use crate::path::EntryKind;
use crate::path::PathEx;
use crate::sweeper::DirEvidence;
use crate::sweeper::Sweeper;
use crate::sweeper::SweeperError;
use crate::target::DirectoryTarget;
use crate::target::Target;
use crate::target::TargetKind;
use crate::target::TargetModel;

verus! {

/// Detector for CMake build directories.
#[derive(Debug)]
pub struct CMakeSweeper;

impl CMakeSweeper {
    pub fn new() -> (r: CMakeSweeper) {
        CMakeSweeper
    }
}

/// The directory names CMake-based IDE setups generate for their build
/// profiles.
pub open spec fn cmake_build_dir_name(name: Seq<char>) -> bool {
    ||| name == "cmake-build-debug"@
    ||| name == "cmake-build-release"@
    ||| name == "cmake-build-relwithdebinfo"@
    ||| name == "cmake-build-minsizerel"@
}

/// A CMake build directory: a generated build-profile directory holding a
/// CMake cache file.
pub open spec fn cmake_target_match(directory: DirPath, evidence: DirEvidence) -> bool {
    &&& evidence.kind is Directory
    &&& cmake_build_dir_name(directory.spec_file_name())
    &&& listing_contains_file(evidence.entries@, "CMakeCache.txt"@)
}

impl Sweeper for CMakeSweeper {
    open spec fn spec_name(&self) -> Seq<char> {
        "cmake"@
    }

    open spec fn spec_targets(&self, directory: DirPath, evidence: DirEvidence) -> Seq<
        TargetModel,
    > {
        if cmake_target_match(directory, evidence) {
            seq![TargetModel { kind: TargetKind::Directory, path: directory@ }]
        } else {
            Seq::empty()
        }
    }

    fn name(&self) -> (r: &str)
        ensures
            r@ == self.spec_name(),
    {
        "cmake"
    }

    fn identify_targets(&self, directory: &DirPath, evidence: &DirEvidence) -> (r: Result<
        Vec<Target>,
        SweeperError,
    >)
        ensures
            r is Ok,
    {
        let file_name = directory.file_name_truncate();
        let name_matches = str_eq(file_name.as_str(), "cmake-build-debug") || str_eq(
            file_name.as_str(),
            "cmake-build-release",
        ) || str_eq(file_name.as_str(), "cmake-build-relwithdebinfo") || str_eq(
            file_name.as_str(),
            "cmake-build-minsizerel",
        );
        if !matches!(evidence.kind, EntryKind::Directory) || !name_matches {
            let empty: Vec<Target> = Vec::new();
            proof {
                assert(crate::sweeper::target_models(empty@) =~= Seq::<TargetModel>::empty());
            }
            return Ok(empty);
        }
        if !listing_has_file(&evidence.entries, "CMakeCache.txt") {
            let empty: Vec<Target> = Vec::new();
            proof {
                assert(crate::sweeper::target_models(empty@) =~= Seq::<TargetModel>::empty());
            }
            return Ok(empty);
        }
        let mut found: Vec<Target> = Vec::new();
        found.push(Target::Directory(DirectoryTarget { target_dir: directory.duplicate() }));
        proof {
            assert(crate::sweeper::target_models(found@) =~= seq![
                TargetModel { kind: TargetKind::Directory, path: directory@ },
            ]);
        }
        Ok(found)
    }
}

} // verus!
