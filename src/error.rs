use vstd::prelude::*;

verus! {

/// Which of the two credentials of a call could not be found.
#[derive(Debug, Clone, Copy, PartialEq, Eq, Structural)]
pub enum CredentialField {
    /// The base URL of the server (`HA_URL`).
    Url,
    /// The bearer token (`HA_TOKEN`).
    Token,
}

/// Every way in which a call of this library can fail.
#[derive(Debug, Clone, PartialEq, Eq)]
pub enum HaError {
    /// Neither an explicit value nor a fallback was available.
    MissingCredential(CredentialField),
    /// The server answered with a status outside `200..=299`.
    HttpError(u16),
    /// A successful answer did not have the shape that the endpoint expects.
    DecodeError(String),
    /// The request body could not be encoded.
    EncodeError(String),
    /// The connection, the send or the read of the answer failed.
    TransportError(String),
    /// The operation is not implemented by this client.
    NotSupported,
}

} // verus!
