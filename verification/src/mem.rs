//! Guest memory: where each region lies, and what the host reads and writes there.

pub mod layout;
pub mod mgr;
pub mod peb;
