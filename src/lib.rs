//! Path resolution and OSC 8 hyperlink construction for a diff pager that is
//! spawned by git.
pub mod config;
pub mod diff_so_fancy;
pub mod features;
pub mod hyperlinks;
pub mod path;
pub mod remote;
pub mod text;
