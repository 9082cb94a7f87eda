//! The request types and traits, for a single `use`.

pub use crate::api::{Initializer, Rdata, Request, Rreq};
