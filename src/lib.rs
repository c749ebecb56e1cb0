//! Picks the current version of a spreadsheet among version-suffixed files and
//! follows the open / modify / close lifecycle of its editor lock file, deciding
//! exactly when a completed edit session should trigger the processing action.

pub mod alphabet;
pub mod path_ops;
pub mod selector;
pub mod classifier;
pub mod lifecycle;
pub mod dispatch;
