//! Links and desktop settings, declared in a script and brought about on the host.
//!
//! The library holds the decisions: how the entries that a script declares resolve to
//! links, what is to be done for a link given what stands on disk, what a script is told of
//! its surroundings, and how a setting is written. The caller looks at the disk, carries
//! out what was decided, and runs the script.

pub mod args;
pub mod context;
pub mod disk;
pub mod error;
pub mod laws;
pub mod link;
pub mod lua_engine;
pub mod settings;
pub mod sync;
pub mod text;
