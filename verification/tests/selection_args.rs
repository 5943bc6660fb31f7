use bclean::ArgSweeper;
use bclean::DirPath;
use bclean::DirectoryTarget;
use bclean::PathEx;
use bclean::SweepableTarget;
use bclean::Sweeper;
use bclean::Target;
use bclean::TargetSelection;

fn plain_target(name: &str) -> Target {
    let path = DirPath::new(vec![name.to_string()]);
    Target::Directory(DirectoryTarget::new(path))
}

#[test]
fn selection_marks_and_counts() {
    let mut selection = TargetSelection::new();
    assert_eq!(selection.len(), 0);
    assert_eq!(selection.selected_target_count(), 0);
    selection.add_target(plain_target("a"));
    selection.add_target(plain_target("b"));
    selection.add_target(plain_target("c"));
    assert_eq!(selection.len(), 3);
    assert_eq!(selection.selected_target_count(), 0);
    selection.toggle(0);
    selection.toggle(2);
    assert_eq!(selection.selected_target_count(), 2);
    selection.toggle(2);
    assert_eq!(selection.selected_target_count(), 1);
}

#[test]
fn removing_selected_targets_keeps_the_rest_in_order() {
    let mut selection = TargetSelection::new();
    for name in ["a", "b", "c", "d"] {
        selection.add_target(plain_target(name));
    }
    selection.toggle(1);
    selection.toggle(3);
    let removed = selection.remove_selected_targets();
    let removed_names: Vec<String> = removed
        .iter()
        .map(|t| t.path().components[0].clone())
        .collect();
    assert_eq!(removed_names, vec!["b".to_string(), "d".to_string()]);
    assert_eq!(selection.len(), 2);
    assert_eq!(selection.entry(0).target.path().components[0], "a");
    assert_eq!(selection.entry(1).target.path().components[0], "c");
    assert_eq!(selection.selected_target_count(), 0);
}

#[test]
fn select_all_and_clear_all() {
    let mut selection = TargetSelection::new();
    for name in ["a", "b", "c"] {
        selection.add_target(plain_target(name));
    }
    selection.set_all(true);
    assert_eq!(selection.selected_target_count(), 3);
    selection.set_all(false);
    assert_eq!(selection.selected_target_count(), 0);
}

#[test]
fn parse_args_accepts_known_sweepers() {
    assert_eq!(ArgSweeper::parse_args("rust").unwrap(), (ArgSweeper::Rust, None));
    assert_eq!(ArgSweeper::parse_args("node").unwrap(), (ArgSweeper::Node, None));
    assert_eq!(ArgSweeper::parse_args("c-make").unwrap(), (ArgSweeper::CMake, None));
}

#[test]
fn parse_args_ignores_ascii_casing() {
    assert_eq!(ArgSweeper::parse_args("RUST").unwrap(), (ArgSweeper::Rust, None));
    assert_eq!(ArgSweeper::parse_args("C-Make").unwrap(), (ArgSweeper::CMake, None));
}

#[test]
fn parse_args_splits_options_at_the_first_equals_sign() {
    assert_eq!(
        ArgSweeper::parse_args("rust=dirname=cmake,build").unwrap(),
        (ArgSweeper::Rust, Some("dirname=cmake,build".to_string()))
    );
    assert_eq!(
        ArgSweeper::parse_args("node=").unwrap(),
        (ArgSweeper::Node, Some(String::new()))
    );
}

#[test]
fn parse_args_rejects_unknown_names() {
    assert!(ArgSweeper::parse_args("cmake").is_err());
    assert!(ArgSweeper::parse_args("").is_err());
    assert!(ArgSweeper::parse_args("gradle=x").is_err());
}

#[test]
fn default_configuration_registers_node_rust_cmake() {
    let configuration = ArgSweeper::default_configuration();
    assert_eq!(
        configuration,
        vec![
            (ArgSweeper::Node, None),
            (ArgSweeper::Rust, None),
            (ArgSweeper::CMake, None),
        ]
    );
}

#[test]
fn create_from_options_builds_the_matching_sweeper() {
    assert_eq!(ArgSweeper::Rust.create_from_options(None).name(), "rust");
    assert_eq!(ArgSweeper::Node.create_from_options(None).name(), "node_modules");
    assert_eq!(ArgSweeper::CMake.create_from_options(Some("x")).name(), "cmake");
}

#[test]
fn file_name_truncate_returns_the_last_component_or_nothing() {
    let path = DirPath::new(vec!["a".to_string(), "b".to_string()]);
    assert_eq!(path.file_name_truncate(), "b");
    let empty = DirPath::new(Vec::new());
    assert_eq!(empty.file_name_truncate(), "");
}

#[test]
fn targets_report_their_paths() {
    let target = plain_target("build");
    assert_eq!(target.path().components, vec!["build".to_string()]);
    assert_eq!(target.name(), "directory");
    let estimator = target.estimated_size();
    assert_eq!(estimator.finish(), None);
}
