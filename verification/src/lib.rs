//! The request-handling core of an HTTP middleware framework.
//!
//! An [`App`] holds middleware in the order in which they were added, a
//! status handler and a model. For each connection it gives an
//! [`HttpService`], which serves the requests of that connection: it builds
//! a [`Context`] for the request, runs the middleware around one another,
//! the first added outermost, hands an error that comes out of them to the
//! status handler, and returns the response, or the error with which the
//! status handler failed.
//!
//! A middleware is a [`Handler`]: code that runs before the rest of the
//! chain, and code that runs after it and sees its result. What a handler
//! may do is a relation that the handler states of itself; what a chain
//! and a dispatch do is stated over those relations, in [`handler::runs`]
//! and [`app::dispatches`]. The module [`laws`] holds what follows for
//! every chain and every dispatch.

pub mod app;
pub mod context;
pub mod convert;
pub mod handler;
pub mod laws;
pub mod message;
pub mod model;
pub mod phase;
pub mod status;

pub use app::{
    default_status_handler, App, DefaultStatusHandler, DynStatusHandler, HttpService,
    StatusHandler,
};
pub use context::{Context, RemoteAddr};
pub use handler::{DynHandler, Flow, Handler, Last, Middleware, Next, Step};
pub use message::{Header, Request, RequestView, Response, ResponseView, Version};
pub use model::Model;
pub use phase::{Event, Phase};
pub use status::{Error, ErrorKind, InvalidStatusCode, StatusCode};
