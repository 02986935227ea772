//! Core engine of a shell-prompt status line: a verified path-shortening
//! transformation, repository status classification, in-progress-operation
//! detection over filesystem probes, and the renderer that composes the
//! resulting segments.

pub mod action;
pub mod file_status;
pub mod head;
pub mod host;
pub mod icons;
pub mod render;
pub mod shorten;
pub mod text;
