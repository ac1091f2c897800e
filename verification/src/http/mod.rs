//! The HTTP interface: the shapes of requests and responses, and the
//! decisions the handlers take between their reads of the stores.

pub mod dto;
pub mod handlers;
