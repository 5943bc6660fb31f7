use std::cell::RefCell;
use std::rc::Rc;

use bclean::estimate_size_async;
use bclean::CMakeSweeper;
use bclean::CleanupExecutor;
use bclean::CleanupResult;
use bclean::CrewOptions;
use bclean::CrewReport;
use bclean::CrewReportConsumer;
use bclean::DirEntry;
use bclean::DirEvidence;
use bclean::DirPath;
use bclean::EntryInfo;
use bclean::EntryKind;
use bclean::NodeSweeper;
use bclean::RustSweeper;
use bclean::SweepableTarget;
use bclean::SweeperCrew;
use bclean::SweeperKind;
use bclean::SweepingTargetState;
use bclean::Target;
use bclean::VoidCrewReportConsumer;

#[derive(Clone)]
struct FsNode {
    path: Vec<String>,
    kind: EntryKind,
    size: u64,
}

/// A small in-memory stand-in for a directory tree, listing full paths.
struct FakeFs {
    nodes: Vec<FsNode>,
}

fn to_components(path: &[&str]) -> Vec<String> {
    path.iter().map(|c| c.to_string()).collect()
}

impl FakeFs {
    fn new() -> FakeFs {
        FakeFs { nodes: Vec::new() }
    }

    fn add_dir(&mut self, path: &[&str]) {
        self.nodes.push(FsNode {
            path: to_components(path),
            kind: EntryKind::Directory,
            size: 0,
        });
    }

    fn add_file(&mut self, path: &[&str], size: u64) {
        self.nodes.push(FsNode {
            path: to_components(path),
            kind: EntryKind::File,
            size,
        });
    }

    fn remove_tree(&mut self, prefix: &[String]) {
        self.nodes.retain(|node| {
            !(node.path.len() >= prefix.len() && node.path[..prefix.len()] == *prefix)
        });
    }

    fn kind_of(&self, path: &[String]) -> EntryKind {
        self.nodes
            .iter()
            .find(|node| node.path == path)
            .map(|node| node.kind)
            .unwrap_or(EntryKind::Directory)
    }

    fn children(&self, path: &[String]) -> Vec<&FsNode> {
        self.nodes
            .iter()
            .filter(|node| node.path.len() == path.len() + 1 && node.path[..path.len()] == *path)
            .collect()
    }

    fn listing(&self, path: &[String]) -> Vec<EntryInfo> {
        self.children(path)
            .into_iter()
            .map(|node| EntryInfo {
                name: node.path.last().unwrap().clone(),
                kind: node.kind,
            })
            .collect()
    }

    fn dir_entries(&self, path: &[String]) -> Vec<DirEntry> {
        self.children(path)
            .into_iter()
            .map(|node| DirEntry {
                path: DirPath::new(node.path.clone()),
                kind: node.kind,
            })
            .collect()
    }

    fn evidence(&self, path: &[String]) -> DirEvidence {
        let parent_entries = if path.is_empty() {
            Vec::new()
        } else {
            self.listing(&path[..path.len() - 1])
        };
        DirEvidence {
            kind: self.kind_of(path),
            entries: self.listing(path),
            parent_entries,
        }
    }

    fn file_sizes_under(&self, prefix: &[String]) -> Vec<u64> {
        self.nodes
            .iter()
            .filter(|node| {
                node.kind == EntryKind::File
                    && node.path.len() > prefix.len()
                    && node.path[..prefix.len()] == *prefix
            })
            .map(|node| node.size)
            .collect()
    }
}

fn default_crew() -> SweeperCrew {
    let mut crew = SweeperCrew::new();
    crew.register(SweeperKind::Node(NodeSweeper::new()));
    crew.register(SweeperKind::Rust(RustSweeper::new()));
    crew.register_boxed(Box::new(SweeperKind::CMake(CMakeSweeper::new())));
    crew
}

fn scan(fs: &FakeFs, root: &[&str], search_recursively: bool) -> Vec<Target> {
    let crew = default_crew();
    let options = CrewOptions {
        search_recursively,
        report_consumer: VoidCrewReportConsumer,
    };
    let root_path = to_components(root);
    let mut session = crew.execute(Ok(fs.dir_entries(&root_path)), options);
    let mut found = Vec::new();
    while let Some(entry) = session.next_entry() {
        let evidence = fs.evidence(&entry.path.components);
        let (targets, descend) = session.inspect(&entry, &evidence);
        found.extend(targets);
        if descend {
            session.descend(fs.dir_entries(&entry.path.components));
        }
    }
    found
}

fn project_tree() -> FakeFs {
    let mut fs = FakeFs::new();
    fs.add_dir(&["proj"]);
    fs.add_dir(&["proj", "target"]);
    fs.add_file(&["proj", "target", "CACHEDIR.TAG"], 190);
    fs.add_file(&["proj", "target", ".rustc_info.json"], 40);
    fs.add_file(&["proj", "target", "big_file"], 5000);
    fs.add_dir(&["proj", "node_modules"]);
    fs.add_file(&["proj", "package.json"], 25);
    fs
}

#[test]
fn end_to_end_scan_dry_run_then_real_cleanup() {
    let mut fs = project_tree();

    let targets = scan(&fs, &["proj"], false);
    assert_eq!(targets.len(), 2);
    let mut names: Vec<&str> = targets.iter().map(|t| t.name()).collect();
    names.sort();
    assert_eq!(names, vec!["node_modules", "rust target"]);

    // Dry run: compute sizes, touch nothing.
    let mut executor = CleanupExecutor::new(targets, true);
    assert!(executor.start());
    let mut combined: u64 = 0;
    while let Some(step) = executor.begin_next() {
        assert!(!step.remove_tree);
        let sizes = fs.file_sizes_under(&step.target.path().components);
        let bytes_erased = estimate_size_async(&sizes).last().copied();
        combined += bytes_erased.unwrap_or(0);
        executor.finish(Ok(CleanupResult { bytes_erased }), 1);
    }
    assert!(executor.is_complete());
    assert!(combined > 0);

    // The dry run removed nothing: a second scan still matches both.
    assert_eq!(scan(&fs, &["proj"], false).len(), 2);

    // Real cleanup removes both directories.
    let targets = scan(&fs, &["proj"], false);
    let mut executor = CleanupExecutor::new(targets, false);
    executor.start();
    while let Some(step) = executor.begin_next() {
        assert!(step.remove_tree);
        let sizes = fs.file_sizes_under(&step.target.path().components);
        let bytes_erased = estimate_size_async(&sizes).last().copied();
        fs.remove_tree(&step.target.path().components);
        executor.finish(Ok(CleanupResult { bytes_erased }), 1);
    }
    assert!(executor.is_complete());
    for i in 0..executor.len() {
        assert!(matches!(executor.state(i), SweepingTargetState::Cleaned { .. }));
    }

    assert_eq!(scan(&fs, &["proj"], false).len(), 0);
}

#[test]
fn pruning_skips_a_matched_subtree_unless_recursive() {
    let mut fs = FakeFs::new();
    fs.add_dir(&["proj"]);
    fs.add_dir(&["proj", "target"]);
    fs.add_file(&["proj", "target", "CACHEDIR.TAG"], 1);
    fs.add_file(&["proj", "target", ".rustc_info.json"], 1);
    fs.add_dir(&["proj", "target", "nested"]);
    fs.add_dir(&["proj", "target", "nested", "target"]);
    fs.add_file(&["proj", "target", "nested", "target", "CACHEDIR.TAG"], 1);
    fs.add_file(&["proj", "target", "nested", "target", ".rustc_info.json"], 1);

    let shallow = scan(&fs, &["proj"], false);
    assert_eq!(shallow.len(), 1);
    assert_eq!(shallow[0].path().components, to_components(&["proj", "target"]));

    let deep = scan(&fs, &["proj"], true);
    assert_eq!(deep.len(), 2);
}

#[test]
fn unmatched_directories_are_always_descended_into() {
    let mut fs = FakeFs::new();
    fs.add_dir(&["root"]);
    fs.add_dir(&["root", "a"]);
    fs.add_dir(&["root", "a", "b"]);
    fs.add_dir(&["root", "a", "b", "cmake-build-debug"]);
    fs.add_file(&["root", "a", "b", "cmake-build-debug", "CMakeCache.txt"], 7);

    let found = scan(&fs, &["root"], false);
    assert_eq!(found.len(), 1);
    assert_eq!(found[0].name(), "directory");
}

#[test]
fn aborting_a_session_ends_it_at_once() {
    let fs = project_tree();
    let crew = default_crew();
    let options = CrewOptions {
        search_recursively: false,
        report_consumer: VoidCrewReportConsumer,
    };
    let mut session = crew.execute(Ok(fs.dir_entries(&to_components(&["proj"]))), options);
    let first = session.next_entry();
    assert!(first.is_some());
    // The receiving side is gone: drop all pending work.
    session.abort();
    assert!(session.next_entry().is_none());
}

struct CollectingConsumer {
    inspected: Rc<RefCell<Vec<Vec<String>>>>,
    errors: Rc<RefCell<Vec<String>>>,
}

impl CrewReportConsumer for CollectingConsumer {
    fn consume_report(&mut self, report: CrewReport) {
        match report {
            CrewReport::StatusInspecting(path) => {
                self.inspected.borrow_mut().push(path.components);
            }
            CrewReport::ErrorFs(message) => {
                self.errors.borrow_mut().push(message);
            }
            CrewReport::ErrorSweeper { .. } => {}
        }
    }
}

#[test]
fn every_inspected_path_is_reported() {
    let fs = project_tree();
    let inspected = Rc::new(RefCell::new(Vec::new()));
    let errors = Rc::new(RefCell::new(Vec::new()));
    let options = CrewOptions {
        search_recursively: false,
        report_consumer: CollectingConsumer {
            inspected: inspected.clone(),
            errors: errors.clone(),
        },
    };
    let crew = default_crew();
    let root_path = to_components(&["proj"]);
    let mut session = crew.execute(Ok(fs.dir_entries(&root_path)), options);
    while let Some(entry) = session.next_entry() {
        let evidence = fs.evidence(&entry.path.components);
        let (_, descend) = session.inspect(&entry, &evidence);
        if descend {
            session.descend(fs.dir_entries(&entry.path.components));
        }
    }
    let inspected = inspected.borrow();
    // Every child of proj was inspected.
    assert!(inspected.contains(&to_components(&["proj", "target"])));
    assert!(inspected.contains(&to_components(&["proj", "node_modules"])));
    assert!(inspected.contains(&to_components(&["proj", "package.json"])));
    assert!(errors.borrow().is_empty());
}

#[test]
fn an_unreadable_root_is_reported_and_leaves_nothing_to_scan() {
    let inspected = Rc::new(RefCell::new(Vec::new()));
    let errors = Rc::new(RefCell::new(Vec::new()));
    let options = CrewOptions {
        search_recursively: false,
        report_consumer: CollectingConsumer {
            inspected: inspected.clone(),
            errors: errors.clone(),
        },
    };
    let crew = default_crew();
    let mut session = crew.execute(Err("permission denied".to_string()), options);
    assert!(session.next_entry().is_none());
    assert_eq!(errors.borrow().as_slice(), &["permission denied".to_string()]);
}
