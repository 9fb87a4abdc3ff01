//! USB side of the driver: vendor requests and the order in which they are sent.

pub mod bytes;
pub mod control;
pub mod sequence;
