//! Lighting-control logic for a vehicle switch panel.
//!
//! The crate turns one sampling of the panel's six inputs into the lighting
//! state they call for, packs that state into the status byte understood by
//! the lighting hardware, and decides whether the byte has to go out on the
//! serial link. Hardware access is left to the caller: the functions here
//! work on plain values.

pub mod acquisition;
pub mod data_transfer;
pub mod dispatch;
