//! Tracing spans of client requests, as the attributes they carry.
use vstd::prelude::*;

verus! {

/// What a client library says about itself in its spans.
pub struct InstrumentationClientInfo {
    pub service_name: &'static str,
    pub client_version: &'static str,
    pub client_artifact: &'static str,
    pub default_host: &'static str,
}

/// The attributes of the span that covers one logical client request,
/// retries included.
pub struct ClientRequestSpan {
    /// Marks the span as a client request span.
    pub client_span: bool,
    pub name: String,
    pub kind: String,
    pub rpc_system: String,
    pub rpc_service: String,
    pub rpc_method: String,
    pub client_service: String,
    pub client_version: String,
    pub client_repo: String,
    pub client_artifact: String,
    pub client_language: String,
    /// The status of the request, set once it ends.
    pub status_code: String,
}

/// Creates the span of a client request named `span_name`, for the method
/// `method_name` of the service that `instrumentation` describes. The
/// request is assumed to go over HTTP, and its status is not set yet.
pub fn create_client_request_span(
    span_name: &str,
    method_name: &str,
    instrumentation: &InstrumentationClientInfo,
) -> (r: ClientRequestSpan)
    ensures
        r.client_span,
        r.name@ == span_name@,
        r.kind@ == "Internal"@,
        r.rpc_system@ == "http"@,
        r.rpc_service@ == instrumentation.service_name@,
        r.rpc_method@ == method_name@,
        r.client_service@ == instrumentation.service_name@,
        r.client_version@ == instrumentation.client_version@,
        r.client_repo@ == "googleapis/google-cloud-rust"@,
        r.client_artifact@ == instrumentation.client_artifact@,
        r.client_language@ == "rust"@,
        r.status_code@ == "UNSET"@,
{
    ClientRequestSpan {
        client_span: true,
        name: span_name.to_owned(),
        kind: "Internal".to_owned(),
        rpc_system: "http".to_owned(),
        rpc_service: instrumentation.service_name.to_owned(),
        rpc_method: method_name.to_owned(),
        client_service: instrumentation.service_name.to_owned(),
        client_version: instrumentation.client_version.to_owned(),
        client_repo: "googleapis/google-cloud-rust".to_owned(),
        client_artifact: instrumentation.client_artifact.to_owned(),
        client_language: "rust".to_owned(),
        status_code: "UNSET".to_owned(),
    }
}

/// A streamed response whose reads are recorded in the span of its request.
pub struct TracingResponse<T> {
    inner: T,
    span: ClientRequestSpan,
}

impl<T> TracingResponse<T> {
    pub closed spec fn inner_spec(&self) -> T {
        self.inner
    }

    pub closed spec fn span_spec(&self) -> ClientRequestSpan {
        self.span
    }

    /// Wraps `inner`, recording its reads in `span`.
    pub fn new(inner: T, span: ClientRequestSpan) -> (r: Self)
        ensures
            r.inner_spec() == inner,
            r.span_spec() == span,
    {
        TracingResponse { inner, span }
    }

    /// The wrapped response.
    pub fn inner(&self) -> (r: &T)
        ensures
            *r == self.inner_spec(),
    {
        &self.inner
    }

    /// The span that records the reads.
    pub fn span(&self) -> (r: &ClientRequestSpan)
        ensures
            *r == self.span_spec(),
    {
        &self.span
    }
}

} // verus!
