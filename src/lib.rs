//! A real-time connection gateway: authentication, session set-up, request
//! routing and teardown for one client connection, stated as verified step
//! functions, with the wire envelopes and the process-wide client registry.

pub mod envelope;
pub mod request;
pub mod session;
pub mod connection;
pub mod lifecycle;
pub mod registry;
pub mod config;
