use vstd::prelude::*;

use crate::fs::SizeEstimator;
use crate::path::DirPath;

verus! {

/// The kind of build artifact a target stands for.
#[derive(Clone, Copy, PartialEq, Eq, Structural, Debug)]
pub enum TargetKind {
    Rust,
    Node,
    Directory,
}

/// Mathematical model of a target: its kind tag and the path of the
/// directory it would remove.
pub struct TargetModel {
    pub kind: TargetKind,
    pub path: Seq<Seq<char>>,
}

/// What a completed cleanup reports: the number of bytes erased, absent when
/// the estimate was skipped or could not be computed.
#[derive(Debug)]
pub struct CleanupResult {
    pub bytes_erased: Option<u64>,
}

/// A removable filesystem unit: something a sweeper identified as safely
/// deletable build output.
pub trait SweepableTarget: Sized {
    spec fn spec_name(&self) -> Seq<char>;

    spec fn spec_path(&self) -> Seq<Seq<char>>;

    /// A stable label for this kind of target.
    fn name(&self) -> (r: &str)
        ensures
            r@ == self.spec_name(),
    ;

    /// The directory this target would remove.
    fn path(&self) -> (r: &DirPath)
        ensures
            r@ == self.spec_path(),
    ;

    /// A fresh, independent size estimator for the subtree at this target's
    /// path; the caller feeds it the sizes of the regular files it walks.
    fn estimated_size(&self) -> (r: SizeEstimator)
        ensures
            r.wf(),
            r.consumed() == Seq::<u64>::empty(),
    ;
}

/// A Rust build directory.
#[derive(Debug)]
pub struct RustTarget {
    pub target_dir: DirPath,
}

impl View for RustTarget {
    type V = TargetModel;

    open spec fn view(&self) -> TargetModel {
        TargetModel { kind: TargetKind::Rust, path: self.target_dir@ }
    }
}

impl SweepableTarget for RustTarget {
    open spec fn spec_name(&self) -> Seq<char> {
        "rust target"@
    }

    open spec fn spec_path(&self) -> Seq<Seq<char>> {
        self.target_dir@
    }

    fn name(&self) -> (r: &str)
        ensures
            r@ == self.spec_name(),
    {
        "rust target"
    }

    fn path(&self) -> (r: &DirPath)
        ensures
            r@ == self.spec_path(),
    {
        &self.target_dir
    }

    fn estimated_size(&self) -> (r: SizeEstimator)
        ensures
            r.wf(),
            r.consumed() == Seq::<u64>::empty(),
    {
        SizeEstimator::new()
    }
}

/// A Node dependency install tree.
#[derive(Debug)]
pub struct NodeTarget {
    pub target_dir: DirPath,
}

impl View for NodeTarget {
    type V = TargetModel;

    open spec fn view(&self) -> TargetModel {
        TargetModel { kind: TargetKind::Node, path: self.target_dir@ }
    }
}

impl SweepableTarget for NodeTarget {
    open spec fn spec_name(&self) -> Seq<char> {
        "node_modules"@
    }

    open spec fn spec_path(&self) -> Seq<Seq<char>> {
        self.target_dir@
    }

    fn name(&self) -> (r: &str)
        ensures
            r@ == self.spec_name(),
    {
        "node_modules"
    }

    fn path(&self) -> (r: &DirPath)
        ensures
            r@ == self.spec_path(),
    {
        &self.target_dir
    }

    fn estimated_size(&self) -> (r: SizeEstimator)
        ensures
            r.wf(),
            r.consumed() == Seq::<u64>::empty(),
    {
        SizeEstimator::new()
    }
}

/// A plain directory target, removed as one unit.
#[derive(Debug)]
pub struct DirectoryTarget {
    pub target_dir: DirPath,
}

impl DirectoryTarget {
    pub fn new(target: DirPath) -> (r: DirectoryTarget)
        ensures
            r@.path == target@,
    {
        DirectoryTarget { target_dir: target }
    }
}

impl View for DirectoryTarget {
    type V = TargetModel;

    open spec fn view(&self) -> TargetModel {
        TargetModel { kind: TargetKind::Directory, path: self.target_dir@ }
    }
}

impl SweepableTarget for DirectoryTarget {
    open spec fn spec_name(&self) -> Seq<char> {
        "directory"@
    }

    open spec fn spec_path(&self) -> Seq<Seq<char>> {
        self.target_dir@
    }

    fn name(&self) -> (r: &str)
        ensures
            r@ == self.spec_name(),
    {
        "directory"
    }

    fn path(&self) -> (r: &DirPath)
        ensures
            r@ == self.spec_path(),
    {
        &self.target_dir
    }

    fn estimated_size(&self) -> (r: SizeEstimator)
        ensures
            r.wf(),
            r.consumed() == Seq::<u64>::empty(),
    {
        SizeEstimator::new()
    }
}

/// The closed set of target kinds the built-in sweepers produce.
#[derive(Debug)]
pub enum Target {
    Rust(RustTarget),
    Node(NodeTarget),
    Directory(DirectoryTarget),
}

impl View for Target {
    type V = TargetModel;

    open spec fn view(&self) -> TargetModel {
        match self {
            Target::Rust(t) => t@,
            Target::Node(t) => t@,
            Target::Directory(t) => t@,
        }
    }
}

impl SweepableTarget for Target {
    open spec fn spec_name(&self) -> Seq<char> {
        match self {
            Target::Rust(t) => t.spec_name(),
            Target::Node(t) => t.spec_name(),
            Target::Directory(t) => t.spec_name(),
        }
    }

    open spec fn spec_path(&self) -> Seq<Seq<char>> {
        self@.path
    }

    fn name(&self) -> (r: &str)
        ensures
            r@ == self.spec_name(),
    {
        match self {
            Target::Rust(t) => t.name(),
            Target::Node(t) => t.name(),
            Target::Directory(t) => t.name(),
        }
    }

    fn path(&self) -> (r: &DirPath)
        ensures
            r@ == self.spec_path(),
    {
        match self {
            Target::Rust(t) => t.path(),
            Target::Node(t) => t.path(),
            Target::Directory(t) => t.path(),
        }
    }

    fn estimated_size(&self) -> (r: SizeEstimator)
        ensures
            r.wf(),
            r.consumed() == Seq::<u64>::empty(),
    {
        SizeEstimator::new()
    }
}

} // verus!
