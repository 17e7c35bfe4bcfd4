//! The channel factory: turns a backend address into a connection endpoint,
//! with encrypted transport when the address asks for it. Connecting the
//! endpoint is left to the caller, which owns the network.

use crate::address::{is_https, tls_server_name};
use tonic::codegen::http::uri::InvalidUri;
use tonic::transport::{Channel, ClientTlsConfig, Endpoint};
use vstd::prelude::*;
use vstd::string::StringExecFns;

verus! {

#[verifier::external_type_specification]
#[verifier::external_body]
pub struct ExEndpoint(Endpoint);

#[verifier::external_type_specification]
#[verifier::external_body]
pub struct ExClientTlsConfig(ClientTlsConfig);

#[verifier::external_type_specification]
#[verifier::external_body]
pub struct ExTransportError(tonic::transport::Error);

#[verifier::external_type_specification]
#[verifier::external_body]
pub struct ExInvalidUri(InvalidUri);

/// Whether the URI parser accepts `address` as a URI.
pub uninterp spec fn uri_accepts(address: Seq<char>) -> bool;

/// Relies on tonic's `Channel::from_shared`: it parses the address as a URI
/// and fails exactly where parsing fails; an empty string is refused.
#[verifier::external_body]
fn endpoint_from_address(address: String) -> (r: Result<Endpoint, InvalidUri>)
    ensures
        r is Ok <==> uri_accepts(address@),
        address@.len() == 0 ==> r is Err,
{
    Channel::from_shared(address)
}

/// Relies on tonic's `ClientTlsConfig::new`: a default TLS configuration.
pub assume_specification[ ClientTlsConfig::new ]() -> ClientTlsConfig;

/// Relies on tonic's `ClientTlsConfig::with_native_roots`: the configuration
/// trusts the platform's root certificates.
pub assume_specification[ ClientTlsConfig::with_native_roots ](
    config: ClientTlsConfig,
) -> ClientTlsConfig;

/// Relies on tonic's `ClientTlsConfig::domain_name`: the server certificate is
/// checked against `name`.
#[verifier::external_body]
fn with_server_name(config: ClientTlsConfig, name: String) -> ClientTlsConfig {
    config.domain_name(name)
}

/// Relies on tonic's `Endpoint::tls_config`: it builds the TLS connector, which
/// loads the platform's roots, so its outcome depends on the machine.
pub assume_specification[ Endpoint::tls_config ](
    endpoint: Endpoint,
    config: ClientTlsConfig,
) -> Result<Endpoint, tonic::transport::Error>;

/// Why no endpoint could be made for a backend address.
#[derive(Debug, Clone, Copy, PartialEq, Eq, Structural)]
pub enum ChannelError {
    /// The address is empty or is no URI.
    InvalidAddress,
    /// The encrypted transport could not be set up.
    TlsSetup,
}

/// Prepares the endpoint of the authentication backend at `address`.
///
/// An address that starts with `https://` gets encrypted transport whose
/// certificate check uses the platform's roots and the host part of the
/// address as server name; any other address gets plaintext transport.
pub fn backend_endpoint(address: &str) -> (r: Result<Endpoint, ChannelError>)
    ensures
        (r matches Err(ChannelError::InvalidAddress)) <==> (address@.len() == 0 || !uri_accepts(
            address@,
        )),
        (r matches Err(ChannelError::TlsSetup)) ==> is_https(address@),
        !is_https(address@) ==> (r is Ok <==> (address@.len() > 0 && uri_accepts(address@))),
        r is Ok ==> address@.len() > 0 && uri_accepts(address@),
{
    if address.unicode_len() == 0 {
        return Err(ChannelError::InvalidAddress);
    }
    let endpoint = match endpoint_from_address(String::from_str(address)) {
        Ok(e) => e,
        Err(_) => {
            return Err(ChannelError::InvalidAddress);
        },
    };
    match tls_server_name(address) {
        None => Ok(endpoint),
        Some(name) => {
            let config = with_server_name(ClientTlsConfig::new().with_native_roots(), name);
            match endpoint.tls_config(config) {
                Ok(e) => Ok(e),
                Err(_) => Err(ChannelError::TlsSetup),
            }
        },
    }
}

} // verus!
