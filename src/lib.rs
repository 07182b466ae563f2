//! Lifecycle logic for the desktop shell's backend process: where the
//! backend is started, with which command line, how its output lines are
//! forwarded to the UI, and how its single process handle is supervised.

pub mod launch;
pub mod supervisor;
pub mod forward;
