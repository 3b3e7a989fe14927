//! The decision half of every route the service exposes. Each handler here
//! takes the plain values the transport extracted and fully determines the
//! reply; the transport only carries bytes in and the decided reply out.

pub mod form;
pub mod greets;
pub mod health_check;
pub mod subscriptions;
