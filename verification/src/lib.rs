//! Verified model of a RISC-V core's interrupt subsystem: the bit-field
//! codec, the CLIC register file, the dual system timer and the
//! control-and-status registers that steer trap delivery.

pub mod bits;
pub mod interrupt;
pub mod peripheral;
pub mod register;
