//! A USSD-over-SMPP simulation library: the SMPP v3.4 wire codec,
//! the gateway's routing and disposition engine, the built-in USSD
//! dialog state machine, and the configurable menu interpreter used
//! by forwarding handlers.

pub mod client;
pub mod clock;
pub mod codec;
pub mod config;
pub mod dialog;
pub mod handler;
pub mod router;
pub mod text;
pub mod user;
