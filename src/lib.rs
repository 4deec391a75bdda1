//! A terminal file manager's state model: the sorted directory listing, the
//! selection, the clipboard, the bounded undo history and the key-driven
//! input state machine. Filesystem and terminal access happen outside; the
//! model decides what to do and takes the results back as plain values.

pub mod names;
pub mod path;
pub mod file_info;
pub mod file_ops;
pub mod file_system_info;
pub mod laws;
pub mod commands;
pub mod size;
