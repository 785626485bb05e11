//! Run HTTP-handling code against a capability-based host whose only I/O
//! primitives are non-blocking, readiness-based resources.
//!
//! The crate models the host's resource table as explicit data (`host`),
//! drives cooperative tasks with a reactor that batches readiness queries
//! (`poll`), adapts the host's buffer-oriented streams and HTTP resources
//! (`wasi`), exposes an incoming body as a lazy chunks-then-trailers
//! sequence (`incoming`, `body`), pumps an abstract body into a destination
//! stream with backpressure (`outgoing`), and wires a request-handling
//! service into one request/response cycle (`service`).
//!
//! The host model stands for one capability ABI revision; supporting
//! another means writing another thin adapter over the same core, outside
//! the verified library, the way an unverified bridge adapts the hyperium
//! interfaces.

pub mod body;
pub mod host;
pub mod incoming;
pub mod outgoing;
pub mod poll;
pub mod service;
pub mod wasi;

use vstd::prelude::*;

verus! {

use crate::host::{HostErrorCode, HostStreamError};

/// Failures surfaced by this crate.
#[derive(Debug, Clone, PartialEq, Eq)]
pub enum Error {
    /// Opaque failure reported by a body producer or consumer.
    BodyError(String),
    /// Host-reported failure code from a fallible capability call.
    WasiErrorCode(String),
    /// The host rejected a header list.
    WasiFieldsError(String),
    /// A capability resource was used out of order; indicates a caller bug.
    WasiInvalidState(&'static str),
    /// A value was rejected by the host as malformed.
    WasiInvalidValue(&'static str),
    /// A stream operation failed on the host side.
    WasiStreamOperationFailed(String),
    /// The stream reported end-of-data; not a failure in itself.
    WasiStreamClosed,
    /// No progress is possible and no readiness source is outstanding.
    Stalled,
}

impl Error {
    /// A human-readable description of the failure.
    pub fn describe(&self) -> (r: String)
        ensures
            self matches Error::BodyError(m) ==> r@ == m@,
            self matches Error::WasiErrorCode(m) ==> r@ == m@,
            self matches Error::WasiFieldsError(m) ==> r@ == m@,
            self matches Error::WasiInvalidState(m) ==> r@ == m@,
            self matches Error::WasiInvalidValue(m) ==> r@ == m@,
            self matches Error::WasiStreamOperationFailed(m) ==> r@ == m@,
            self is WasiStreamClosed ==> r@ == "stream closed"@,
            self is Stalled ==> r@ == "no progress possible and no readiness outstanding"@,
    {
        match self {
            Error::BodyError(m) => m.clone(),
            Error::WasiErrorCode(m) => m.clone(),
            Error::WasiFieldsError(m) => m.clone(),
            Error::WasiInvalidState(m) => (*m).to_owned(),
            Error::WasiInvalidValue(m) => (*m).to_owned(),
            Error::WasiStreamOperationFailed(m) => m.clone(),
            Error::WasiStreamClosed => "stream closed".to_owned(),
            Error::Stalled => "no progress possible and no readiness outstanding".to_owned(),
        }
    }

    /// Wraps a host failure code, keeping its description.
    pub fn wasi_error_code(err: HostErrorCode) -> (r: Self)
        ensures
            r matches Error::WasiErrorCode(m) && m@ == err.message(),
    {
        Self::WasiErrorCode(err.into_message())
    }

    /// Maps a host stream error: an operation failure keeps its description,
    /// while the distinct "closed" signal maps to `WasiStreamClosed`.
    pub fn wasi_stream_error(err: HostStreamError) -> (r: Self)
        ensures
            err matches HostStreamError::LastOperationFailed(msg) ==> r
                == Error::WasiStreamOperationFailed(msg),
            err is Closed ==> r == Error::WasiStreamClosed,
    {
        match err {
            HostStreamError::LastOperationFailed(msg) => Self::WasiStreamOperationFailed(msg),
            HostStreamError::Closed => Self::WasiStreamClosed,
        }
    }
}

} // verus!
