//! Client side of a duplex JSON-RPC connection.
//!
//! One connection carries many requests in flight and many subscriptions at
//! once. This crate matches each response to the call that asked for it,
//! hands each pushed notification to the stream of its subscription, and
//! makes sure that giving up a subscription removes its channel from the
//! connection.
//!
//! The connection itself is a capability: a [`transport::Transport`] sends
//! requests, a [`transport::DuplexTransport`] also keeps the registry of
//! subscription channels. Their contracts speak of one mathematical model,
//! [`transport::Connection`], and every function of this crate states its
//! effect as a step of that model. [`laws`] puts the steps together.
//!
//! Nothing here waits or blocks. A call in flight is a
//! [`helpers::CallFuture`], a subscription an
//! [`api::platon_subscribe::SubscriptionStream`]; both are polled, with the
//! connection handed to each poll, so that any number of them can share
//! one connection.
//!
//! - [`api`]: the namespaces of remote methods, and subscriptions.
//! - [`helpers`]: the handle on one call in flight.
//! - [`transport`]: the two capabilities and the model of a connection.
//! - [`transports`]: a connection in memory.
//! - [`json`]: raw values, and the types that they are read as.
//! - [`types`]: the values that requests are made of.
//! - [`error`]: the failures.
//! - [`laws`]: what holds of every connection.
pub mod api;
pub mod error;
pub mod helpers;
pub mod json;
pub mod laws;
pub mod transport;
pub mod transports;
pub mod types;
