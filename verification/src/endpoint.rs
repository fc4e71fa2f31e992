//! The address of the discovery service.
//!
//! Whether a string is a usable address is decided by the transport
//! library, tonic, whose URI grammar is not restated here: its verdict on a
//! string is given a name, and the rest of the crate reasons about that
//! name. Nothing in this module is proved; it is the boundary to tonic.

use tonic::transport::Endpoint;
use vstd::prelude::*;

verus! {

/// `tonic::transport::Endpoint`, the channel builder of the transport
/// library. A value is carried from configuration to the caller that opens
/// the connection; nothing is known of its contents.
#[verifier::external_type_specification]
#[verifier::external_body]
pub struct ExEndpoint(tonic::transport::Endpoint);

/// Whether `Endpoint::from_shared` of tonic accepts `url` as the address of
/// an endpoint.
pub uninterp spec fn is_endpoint_url(url: Seq<char>) -> bool;

/// Builds an endpoint from its address with `Endpoint::from_shared` of
/// tonic.
///
/// That function parses the UTF-8 bytes of the string as a URI and wraps the
/// URI without touching the network. The contract claims two things of it:
/// whether it succeeds depends on the string alone, and the empty string is
/// refused, which is the first thing the URI parser checks.
#[verifier::external_body]
pub(crate) fn endpoint_from_url(url: &str) -> (r: Option<Endpoint>)
    ensures
        (r is Some) == is_endpoint_url(url@),
        url@.len() == 0 ==> r is None,
{
    match Endpoint::from_shared(url.to_owned()) {
        Ok(endpoint) => Some(endpoint),
        Err(_) => None,
    }
}

} // verus!
