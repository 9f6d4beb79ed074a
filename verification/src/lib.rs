//! Typed access to the per-process records that the Darwin kernel hands out
//! through its `proc_info` query family.
//!
//! The crate never talks to the kernel itself. Each query is split in two
//! halves that the caller joins with the actual system call:
//!
//! * a *request* says which entry point to call and with which arguments,
//!   buffer size included;
//! * an *answer* (return code, `errno` and the buffer the kernel filled) is
//!   turned into a typed record, a list or a text, or into a [`ProcError`].
//!
//! Records are read from the buffer by fixed byte offsets, in the byte order
//! of the hosts the kernel runs on (little-endian); no layout is taken from
//! the compiler.
//!
//! The modules, from the bottom up:
//!
//! * [`wire`] reads the scalar fields of a record from a buffer;
//! * [`flavor`] holds the numeric codes of the protocol;
//! * [`record`] and [`socket`] hold the records and their layouts;
//! * [`inet`] turns ports and addresses from network byte order into host
//!   order and into text;
//! * [`proc_pid`] holds the queries;
//! * [`error`] says how a query can fail.
//!
//! [`ProcError`]: crate::error::ProcError

pub mod error;
pub mod flavor;
pub mod inet;
pub mod proc_pid;
pub mod record;
pub mod socket;
pub mod wire;
