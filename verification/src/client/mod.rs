//! The state of a client, its mathematical model and the laws it obeys.
pub mod calls;
pub mod effects;
pub mod laws;
pub mod session;
pub mod state;
