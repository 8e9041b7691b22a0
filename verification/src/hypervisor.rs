//! What the host keeps of a partition: register banks, mapped memory, and the order in
//! which its parts come and go.

pub mod partition;
pub mod regs;
