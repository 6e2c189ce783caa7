//! The sending side: messages, addresses, MIME framing, the SMTP dialogue
//! and the providers' message logic.

pub mod error;
pub mod message;
pub mod mime;
pub mod smtp;
pub mod console;
pub mod sender;
pub mod direct;
pub mod mx_session;
pub mod mx_delivery;
pub mod shield;
pub mod vault;
