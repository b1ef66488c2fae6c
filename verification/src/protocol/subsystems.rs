//! The routes of each subsystem, addressed by route id.

pub mod keymap;
pub mod lighting;
pub mod qmk;
pub mod remap;
pub mod xap;
