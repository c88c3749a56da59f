//! The SIP side of the engine: the message model, what is answered to each
//! request, and digest authentication.

pub mod message;
pub mod response;
pub mod utils;
pub mod digest;
pub mod register;
pub mod invite;
pub mod dispatch;
pub mod wire;
