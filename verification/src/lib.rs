//! The rules of a client for the Yahoo! Finance data service, with their proofs.
//!
//! The service wants every request for data to carry a crumb: a short-lived
//! token that belongs to a session cookie. This library decides how a crumb is
//! obtained, how long it is kept and how it is put on a request:
//!
//! - [`crumb`] holds the one crumb that all requests share and tells each
//!   caller whether to use it, to wait for the cache, or to obtain a new one;
//! - [`flight`] shows that callers who follow the cache under a lock share
//!   one acquisition, in whatever order they move;
//! - [`acquire`] runs an attempt to obtain a crumb, first directly and then,
//!   where the service refuses, through the consent negotiation of [`consent`];
//! - [`extract`] finds the tokens of the consent page;
//! - [`yahoo_error`] sorts the failures of the transport into kinds.
//!
//! Nothing here sends a request or waits for one. The attempt and the
//! negotiation are state machines: the caller sends what they ask for and
//! reports back what came of it. Beside them stand the addresses of the data
//! requests ([`request`], [`fundamentals`], [`quote_summary`]) and the first
//! reading of the responses.

pub mod acquire;
pub mod consent;
pub mod crumb;
pub mod exchange;
pub mod extract;
pub mod flight;
pub mod fundamentals;
pub mod quote_summary;
pub mod request;
pub mod text;
pub mod uri;
pub mod yahoo_error;

pub use yahoo_error::{TransportFailure, YahooError};
