//! Repository-synchronization helper library.
//!
//! The library holds the decision logic of a small tool that keeps a local
//! checkout in step with a remote repository: parsing the settings file,
//! validating it, choosing between cloning and reusing a checkout, deciding
//! whether a hard reset is due, and shaping progress and status output.
//! The surrounding program performs the version-control and terminal I/O.

pub mod scan;
pub mod settings;
pub mod sync;
pub mod text;

pub use settings::ParseError;
pub use settings::Settings;
pub use settings::parse_settings;
pub use settings::settings_usable;
pub use sync::AcquireAction;
pub use sync::CloneFollowUp;
pub use sync::CloneOutcome;
pub use sync::ProgressUpdate;
pub use sync::UpdateAction;
pub use sync::acquire_action;
pub use sync::clone_follow_up;
pub use sync::fetch_refspec;
pub use sync::progress_update;
pub use sync::update_action;
pub use text::choose_message;
