//! The connector integration adapter and the wire transport it runs over.
//!
//! Each connector provides one adapter implementation per flow it
//! supports: a pure transform from the canonical envelope into a wire
//! request, a parse of the connector's response back into the envelope,
//! and a mapping of connector error payloads into the canonical error
//! shape. The transport performs the one network exchange and is
//! implemented outside the library; nothing is promised of it.

use vstd::prelude::*;
use crate::enums::Method;
use crate::envelope::RouterData;
use crate::error::ConnectorError;
use crate::error::ErrorResponse;
use crate::error::TransportError;

verus! {

/// One wire request, with a typed body. The transport serializes the
/// body; the library never handles serialized bytes itself.
pub struct WireRequest<B> {
    pub url: String,
    pub method: Method,
    /// Header name/value pairs, credentials included.
    pub headers: Vec<(String, String)>,
    pub body: B,
}

/// An error body the connector answered with, and the HTTP status it
/// arrived under.
pub struct WireErrorBody<EW> {
    pub body: EW,
    pub status_code: u16,
}

/// The per-connector, per-flow adapter: `F`, `Req`, `Res` type the
/// canonical side; `B`, `W`, `EW` type the connector's wire request,
/// success response and error response bodies.
///
/// Implementations must not perform I/O: each operation is a pure
/// transform, and each failure is a typed [`ConnectorError`], never a
/// panic.
pub trait ConnectorIntegration<F, Req, Res, B, W, EW> {
    /// Build the wire request for this envelope, or say which typed fault
    /// prevents it.
    fn build_request(
        &self,
        data: &RouterData<F, Req, Res>,
    ) -> Result<WireRequest<B>, ConnectorError>;

    /// Parse the connector's success response into the envelope, filling
    /// the response slot; a parse failure is a typed fault, never an
    /// empty success.
    fn handle_response(
        &self,
        data: RouterData<F, Req, Res>,
        response: W,
    ) -> Result<RouterData<F, Req, Res>, ConnectorError>;

    /// Map the connector's error payload into the canonical error shape.
    fn get_error_response(&self, error: WireErrorBody<EW>) -> ErrorResponse;
}

/// The one suspension point of a connector call: ship the wire request,
/// wait, and hand back either the connector's parsed success body, its
/// parsed error body, or the transport fault that ended the exchange.
/// Implemented outside the library (HTTP in deployment, fakes in tests).
pub trait WireTransport<B, W, EW> {
    /// Perform the exchange.
    fn call(
        &mut self,
        request: &WireRequest<B>,
    ) -> Result<Result<W, WireErrorBody<EW>>, TransportError>;
}

} // verus!
