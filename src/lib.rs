//! Content resolution for a development server: a negotiation protocol
//! between content sources, and a source that traces error stack frames to
//! their original source positions through source maps; also the workspace
//! rules of the package managers.

pub mod package_manager;
pub mod protocol;
pub mod source_map;
pub mod stack_frame;
pub mod text;
pub mod trace;
