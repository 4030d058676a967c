//! Bootstrap of a desktop application shell.
//!
//! The shell assembles a startup configuration — the two capability plugins
//! (native dialogs and scoped filesystem access) together with the immutable
//! application context — and hands it to the host runtime's blocking event
//! loop. Every decision of that bootstrap sequence is made here, as a pure
//! function from outcome to prescribed action, so that the host around the
//! library only performs actions and reports outcomes back.

pub mod bootstrap;
pub mod laws;
pub mod shell;
