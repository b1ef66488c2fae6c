//! The XAP routes: one request type per route, with its id, the first
//! protocol version that has it, its arguments and its response type.

pub mod audio;
pub mod keymap;
pub mod lighting;
pub mod qmk;
pub mod remapping;
pub mod types;
pub mod xap;
