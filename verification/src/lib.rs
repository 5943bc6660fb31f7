pub mod args;
pub mod cmake;
pub mod crew;
pub mod fs;
pub mod node;
pub mod path;
pub mod rust;
pub mod selection;
pub mod sweeper;
pub mod sweeping;
pub mod target;
pub mod utils;

pub use args::ArgSweeper;
pub use args::Args;
pub use cmake::CMakeSweeper;
pub use crew::CrewOptions;
pub use crew::CrewReport;
pub use crew::CrewReportConsumer;
pub use crew::ScanSession;
pub use crew::SweeperCrew;
pub use crew::VoidCrewReportConsumer;
pub use fs::estimate_size_async;
pub use fs::DirEntry;
pub use fs::DirWalker;
pub use fs::SizeEstimator;
pub use fs::SizeProgress;
pub use node::NodeSweeper;
pub use path::DirEntryEx;
pub use path::DirPath;
pub use path::EntryInfo;
pub use path::EntryKind;
pub use path::PathEx;
pub use rust::RustSweeper;
pub use selection::SelectionEntry;
pub use selection::TargetSelection;
pub use sweeper::DirEvidence;
pub use sweeper::Sweeper;
pub use sweeper::SweeperError;
pub use sweeper::SweeperKind;
pub use sweeping::CleanupExecutor;
pub use sweeping::CleanupStep;
pub use sweeping::SweepingTargetState;
pub use target::CleanupResult;
pub use target::DirectoryTarget;
pub use target::NodeTarget;
pub use target::RustTarget;
pub use target::SweepableTarget;
pub use target::Target;
pub use target::TargetKind;
pub use target::TargetModel;
pub use utils::format_duration;
pub use utils::format_file_size;
pub use utils::u64_to_dec;
