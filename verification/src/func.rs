//! Types of Rust that can go through the call protocol.

pub mod ret_type;
