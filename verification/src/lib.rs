//! The core of a micro-VM sandbox.
//!
//! A sandbox runs untrusted guest code in a partition of the hypervisor. Host and guest
//! call each other's functions through frames that they leave in two buffers of the
//! guest's memory. This library holds what the two sides compute and decide:
//!
//! - [`types`]: the values, calls and errors that travel;
//! - [`wire`]: the frames they travel in, and the proof that reading gives back what
//!   was written;
//! - [`mem`]: where each region of guest memory lies, the header record that tells the
//!   guest so, and the host's reads and writes;
//! - [`registry`]: the functions that one side offers to the other, and the validation
//!   of calls against them;
//! - [`outb`]: the ports on which the guest talks to the host, and the reasons for which
//!   a virtual CPU stops;
//! - [`sandbox`]: the sandbox itself, from its making over each stop of the virtual CPU
//!   to the result of a guest call;
//! - [`guest`]: the guest's side of the protocol;
//! - [`func`]: the types of Rust that a function can hand back;
//! - [`hypervisor`]: register banks, mapped memory, and the order in which the parts of
//!   a partition come and go;
//! - [`capi`]: the registry behind the handles that foreign callers hold;
//! - [`error`]: what can go wrong on the host side.
//!
//! The library talks to no hypervisor and runs no guest. Whoever does hands it each
//! stop of the virtual CPU and the memory as the guest left it, and does what it says.

pub mod capi;
pub mod error;
pub mod func;
pub mod guest;
pub mod hypervisor;
pub mod mem;
pub mod outb;
pub mod registry;
pub mod sandbox;
pub mod types;
pub mod wire;
