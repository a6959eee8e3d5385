//! Text buffers and the find/replace engine of a multi-tab plain-text editor.

pub mod close;
pub mod commands;
pub mod document;
pub mod editor;
pub mod index;
pub mod pattern;
pub mod quit;
pub mod search;
pub mod session;
pub mod text;
