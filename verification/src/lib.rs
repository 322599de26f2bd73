//! A terminal "fetch" report renderer: labeled host facts are aligned into a
//! padded info column and merged with a fixed-width ASCII-art logo column.
//!
//! The crate holds the rendering engine only: record construction, label
//! alignment, line rendering, ANSI colorization, uptime and memory value
//! formatting, and the logo/info compositor. Reading the live host facts is
//! left to the caller, which hands them in as plain strings and integers.

pub mod compose;
pub mod facts;
pub mod header;
pub mod logo;
pub mod memory;
pub mod pipeline;
pub mod record;
pub mod style;
pub mod text;
pub mod uptime;
