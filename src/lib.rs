//! Entry dispatch for a Lox-style interpreter front end: the argument count
//! picks one of three modes (usage, run a file, interactive loop), and the
//! chosen collaborator's outcome is handed back unchanged.

pub mod dispatch;
pub mod eval;
pub mod session;
