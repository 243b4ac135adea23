//! Decisions of a watcher that relaunches a Cargo project's run command when a
//! relevant source file changes and the project still checks: which paths are
//! relevant, what the build tool is handed, and the watch loop as a state
//! machine whose whole sessions are proved to keep at most one child alive.
pub mod text;
pub mod filter;
pub mod event;
pub mod launch;
pub mod session;
pub mod laws;
