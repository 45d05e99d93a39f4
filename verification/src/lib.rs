//! Pure logic of a link-creation shell extension: Windows path handling,
//! link planning, picked-source state, Explorer menu composition, helper
//! command dispatch, the setup payload format and the diagnostics report.

pub mod text;
pub mod path;
pub mod state;
pub mod links;
pub mod junction;
pub mod menu;
pub mod helper;
pub mod setup;
pub mod diagnostics;
