//! Verified core of an HTTP bridge between a DApp backend and a rollup
//! character device: the finish-loop protocol state machine, the request
//! recorders' validation and index accounting, and the bounds-checked
//! accessor for the memory-mapped state drive.

pub mod errors;
pub mod records;
pub mod requests;
pub mod session;
pub mod state_drive;
