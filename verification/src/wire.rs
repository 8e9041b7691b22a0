//! The binary wire format of the call protocol.
//!
//! Every multi-byte integer is little-endian. Byte strings and text carry a
//! four-byte length in front; text is UTF-8. A frame is a four-byte payload
//! length followed by the payload, whose first byte says what it holds.

pub mod prim;
pub mod call;
pub mod value;
