//! A chat bot core for a CQ-style relay gateway: message models, the inbound
//! classifier, the command router and the dispatch decisions, with contracts.

pub mod text;
pub mod cq_msg;
pub mod msg;
pub mod bot;
