//! An execution-inspection multiplexer for an EVM interpreter: it shows each
//! lifecycle event to the observers that are present, in a fixed order, and
//! never lets them change how execution goes on.

pub mod primitives;
pub mod trace;
pub mod collector;
pub mod inspector;
pub mod console;
