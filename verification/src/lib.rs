//! A verified interpreter for Dockerfile-style build scripts.
//!
//! The library holds the logic of the interpreter: recognizing instruction
//! lines, resolving and expanding build-time variables, merging multi-line
//! commands, tracking the working directory, and driving the whole run as a
//! state machine that tells its caller which external action to perform next.
//! The caller (a thin binary) performs the actions: it reads the script file,
//! spawns the shell commands, fetches URLs, and prompts the user.

pub mod aggregate;
pub mod context;
pub mod instr;
pub mod interp;
pub mod laws;
pub mod text;
pub mod vars;
