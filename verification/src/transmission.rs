//! Transports that carry a session.

pub mod tcp;
