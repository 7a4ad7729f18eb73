use vstd::prelude::*;

verus! {

/// Every way in which an operation of this library can fail.
#[derive(Clone, Copy, Debug, PartialEq, Eq, Structural)]
pub enum FetchError {
    /// The overlay client could not be built or its storage set up.
    ConfigurationError,
    /// A bootstrap attempt failed; calling bootstrap again may succeed.
    BootstrapError,
    /// A connection was asked for before the session could carry traffic.
    NotReady,
    /// The URL could not be parsed or names no host.
    InvalidUrl,
    /// The host is not an onion-service address.
    DisallowedDomain,
    /// The scheme is not plain HTTP.
    DisallowedScheme,
    /// The overlay transport failed to open or carry a stream.
    ConnectError,
    /// The response did not follow HTTP/1.1.
    ProtocolError,
}

} // verus!
