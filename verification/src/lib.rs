//! A uniform interface to heterogeneous hardware debug probes.
//!
//! Discovery classifies the host's enumerable devices by vendor/product
//! identity and descriptor strings; a selector then picks one transport, and
//! the constructed probe value walks a small connection state machine
//! (connected, protocol selected, attached) whose transitions are stated as
//! specification functions and proved of every operation.

pub mod bmp;
pub mod probe;
pub mod registry;
