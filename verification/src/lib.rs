//! Verified core of a QMK XAP client: the XAP wire format, the generated
//! route definitions, the constant tables and the decision logic of a
//! device session.

pub mod client;
pub mod codegen;
pub mod constants;
pub mod device;
pub mod effects;
pub mod error;
pub mod event_loop;
pub mod layout;
pub mod status;
pub mod aggregation;
pub mod broadcast;
pub mod probe;
pub mod protocol;
pub mod request;
pub mod response;
pub mod routes;
pub mod sort;
pub mod spec;
pub mod text;
pub mod token;
pub mod user;
pub mod wire;

pub use error::{XapError, XapResult};
pub use token::Token;
