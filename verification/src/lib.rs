//! Core logic of a one-shot serial TTL pulse tool: command-line argument
//! resolution, port-directory validation, transport formatting, and the
//! fixed one-byte pulse payload. All I/O (enumerating ports, opening a
//! port, writing) lives outside this crate; these functions compute the
//! decisions and the texts, and their contracts pin the results down.

pub mod args;
pub mod directory;
pub mod messages;
pub mod pulse;
pub mod text;
pub mod transport;
