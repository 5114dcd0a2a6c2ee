//! Window placement for a single floating desktop panel.
//!
//! The crate computes where the panel's top-left corner belongs on a monitor
//! for each anchor, keeps the result on screen, and holds the small
//! decisions that surround it: the keys under which custom positions are
//! stored, the severity of messages forwarded from the web view, and the action
//! that each shell event stands for.

pub mod geometry;
pub mod logging;
pub mod placement;
pub mod settings;
pub mod shell;
pub mod text;
