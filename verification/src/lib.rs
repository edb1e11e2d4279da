//! Assembly of an HTTP server's request pipeline.
//!
//! Four cross-cutting concerns stand between an incoming request and the
//! application: authentication, the cross-origin policy, metrics and logging.
//! Three of them are optional. This crate decides which of them take part and
//! fixes the order in which they act, and it states, for every request, what
//! each of them gets to see.
//!
//! - [`stage`] holds the two variants of a stage, active and pass-through,
//!   and the selector that picks one from an optional setting.
//! - [`app`] holds the configuration, the pipeline and [`app::new_app`].
//! - [`request`] holds the path of one request through a pipeline.
//! - [`laws`] states what holds of every pipeline and every request.

pub mod app;
pub mod laws;
pub mod request;
pub mod stage;
