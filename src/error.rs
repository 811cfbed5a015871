//! Errors that the library reports before any request leaves the process.
use vstd::prelude::*;

verus! {

/// Why a request could not be prepared.
#[derive(Debug, Clone, Copy, PartialEq, Eq, Structural)]
pub enum BinanceError {
    /// The secret key could not key the message authentication code.
    Configuration,
    /// The HTTP verb is not one of GET, POST or DELETE.
    UnsupportedMethod,
    /// The base origin and the endpoint path do not join into a URL.
    UrlConstruction,
    /// A field that names the order (symbol, side or type) was not given.
    MissingField,
    /// The system clock reads earlier than the Unix epoch.
    Clock,
}

} // verus!
