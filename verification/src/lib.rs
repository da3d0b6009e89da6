//! Decision logic for keeping a fleet of local repository mirrors in step
//! with their remotes.
//!
//! For every declared project the mirror is either created by a full
//! clone or, if it is there already, reset to the default branch that the
//! remote advertises now. Local divergence is not kept.
//!
//! Nothing here reads a file, opens a connection or prints a line. The
//! path resolver ([`resolve`]) is a pure function. The initializer
//! ([`init`]), the updater ([`update`]) and the pass over all projects
//! ([`sync`]) are state machines: each says which operation comes next and
//! takes in how it ended, so that the program around them only has to
//! carry the operations out.

pub mod config;
pub mod init;
pub mod outcome;
pub mod paths;
pub mod resolve;
pub mod sync;
pub mod update;
pub mod utils;

pub use config::Config;
pub use config::ProjectConfig;
pub use init::InitAction;
pub use init::InitError;
pub use init::InitErrorKind;
pub use init::InitState;
pub use outcome::StepOutcome;
pub use paths::description_file;
pub use paths::join_path;
pub use resolve::find_collision;
pub use resolve::plan;
pub use resolve::resolve;
pub use resolve::MirrorTarget;
pub use sync::dispatch;
pub use sync::ProjectReport;
pub use sync::SyncOutcome;
pub use sync::SyncRun;
pub use sync::Task;
pub use update::UpdateAction;
pub use update::UpdateError;
pub use update::UpdateErrorKind;
pub use update::UpdateState;
pub use utils::get_repo_name;
