//! Dispatch of batched tool calls to a reminder store and a question forwarder.
//!
//! A request carries an ordered list of named calls. Each call is routed, by
//! its name together with the shape of its arguments, to one of four
//! handlers, or answered with a fixed message when no handler fits. The
//! library decides and keeps the books; whoever drives it performs the
//! storage and network work and reports back what happened.

pub mod call;
pub mod dispatch;
pub mod due;
pub mod forward;
pub mod ident;
pub mod models;
pub mod serve;
pub mod store;
