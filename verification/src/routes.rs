//! Request and response types of every route, one module per subsystem, each
//! response type named after its route.

pub mod xap_routes;
pub mod qmk_routes;
pub mod keymap_routes;
pub mod remapping_routes;
pub mod lighting_routes;
pub mod audio_routes;
