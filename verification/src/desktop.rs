//! The logic of the desktop shell: its error values, its session and settings, what its
//! commands decide, and how it ranks path suggestions. The window, the file system and the
//! locks stay with the shell, which performs the writes these functions prepare.
pub mod error;
pub mod state;
pub mod commands;
pub mod paths;
pub mod preferences;
