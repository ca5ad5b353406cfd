//! The values that contracts and the host exchange through the chain
//! extension.

use vstd::prelude::*;

verus! {

/// The public key of a worker.
pub type EcdhPublicKey = [u8; 32];

/// An HTTP request of a contract.
#[derive(Debug, Clone, PartialEq, Eq)]
pub struct HttpRequest {
    /// Where the request goes.
    pub url: String,
    /// The method of the request.
    pub method: String,
    /// The header lines, name and value.
    pub headers: Vec<(String, String)>,
    /// The body.
    pub body: Vec<u8>,
}

/// The response to an HTTP request.
#[derive(Debug, Clone, PartialEq, Eq)]
pub struct HttpResponse {
    /// The status code.
    pub status_code: u16,
    /// The reason phrase that goes with the status.
    pub reason_phrase: String,
    /// The header lines, name and value.
    pub headers: Vec<(String, String)>,
    /// The body.
    pub body: Vec<u8>,
}

/// The mathematical content of an [`HttpResponse`].
pub struct HttpResponseView {
    pub status_code: u16,
    pub reason_phrase: Seq<char>,
    pub headers: Seq<(Seq<char>, Seq<char>)>,
    pub body: Seq<u8>,
}

impl View for HttpResponse {
    type V = HttpResponseView;

    open spec fn view(&self) -> HttpResponseView {
        HttpResponseView {
            status_code: self.status_code,
            reason_phrase: self.reason_phrase@,
            headers: Seq::new(
                self.headers@.len(),
                |i: int| (self.headers@[i].0@, self.headers@[i].1@),
            ),
            body: self.body@,
        }
    }
}

/// Why an HTTP request was not made or got no response.
#[derive(Debug, Clone, Copy, PartialEq, Eq, Structural)]
pub enum HttpRequestError {
    InvalidUrl,
    InvalidMethod,
    InvalidHeaderName,
    InvalidHeaderValue,
    FailedToCreateClient,
    Timeout,
    NotAllowed,
    TooManyRequests,
    NetworkError,
    ResponseTooLarge,
}

/// What a batch of HTTP requests gives: one result for each request, or the
/// reason why none was made.
pub type BatchHttpResult = Result<Vec<Result<HttpResponse, HttpRequestError>>, HttpRequestError>;

/// The signature schemes that the host offers.
#[derive(Debug, Clone, Copy, PartialEq, Eq, Structural)]
pub enum SigType {
    Ed25519,
    Sr25519,
    Ecdsa,
}

/// The cache has no room for the entry.
#[derive(Debug, Clone, Copy, PartialEq, Eq, Structural)]
pub struct StorageQuotaExceeded;

/// The kinds of attestation of an enclave.
#[derive(Debug, Clone, Copy, PartialEq, Eq, Structural)]
pub enum AttestationType {
    Epid,
    Dcap,
}

/// A quote that attests the enclave of a worker.
#[derive(Debug, Clone, PartialEq, Eq)]
pub struct SgxQuote {
    /// The kind of the attestation.
    pub attestation_type: AttestationType,
    /// The quote.
    pub quote: Vec<u8>,
}

/// The failures that the runtime itself raises in a host call.
#[derive(Debug, Clone, Copy, PartialEq, Eq, Structural)]
pub enum PinkError {
    /// The call names an extension that does not exist.
    UnknownChainExtensionId,
    /// The call names a function that the extension does not have.
    UnknownChainExtensionFunction,
    /// The output does not fit the buffer that the contract offers.
    ContractIoBufferOverflow,
    /// No system contract is registered.
    SystemContractMissing,
}

/// Why a host call failed.
#[derive(Debug, Clone, PartialEq, Eq)]
pub enum DispatchError {
    /// The caller may not make this call.
    BadOrigin,
    /// The runtime refused the call.
    Pink(PinkError),
    /// Any other failure, as text.
    Other(String),
}

/// The mathematical content of a [`DispatchError`].
pub enum DispatchErrorView {
    BadOrigin,
    Pink(PinkError),
    Other(Seq<char>),
}

impl View for DispatchError {
    type V = DispatchErrorView;

    open spec fn view(&self) -> DispatchErrorView {
        match self {
            DispatchError::BadOrigin => DispatchErrorView::BadOrigin,
            DispatchError::Pink(e) => DispatchErrorView::Pink(*e),
            DispatchError::Other(text) => DispatchErrorView::Other(text@),
        }
    }
}

} // verus!
