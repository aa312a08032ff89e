//! Local mirror of remote page repositories: the progress model of a fetch,
//! the decoding of a fetch tool's progress output, per-repository sync jobs,
//! the planning of a sync run, the configuration it reads, and the block
//! state of the markdown renderer that shows pages.

pub mod phase;
pub mod progress;
pub mod line;
pub mod text_source;
pub mod descriptor;
pub mod job;
pub mod sync;
pub mod config;
pub mod md_render;
pub mod page;
