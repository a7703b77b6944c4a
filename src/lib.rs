//! Process control for a small native-code debugger: starting or attaching to a
//! traced process, driving its run/stop state, and leaving it consistent when the
//! session ends.
pub mod command;
pub mod process;
pub mod text;
