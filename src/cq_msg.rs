//! The gateway's envelopes: what arrives and what is sent.

pub mod recv;
pub mod send;
