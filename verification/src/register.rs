//! Images of the control-and-status registers that steer trap delivery and
//! interrupt masking. Each type holds one machine word as it was read from
//! its register, and decodes the fields of that word.

pub mod field;
pub mod mcountinhibit;
pub mod mintstatus;
pub mod mintthresh;
pub mod mtvec;
pub mod mtvt;
