//! Best-guess client address, derived from proxy headers.

use vstd::prelude::*;
use crate::text::{before_comma, first_entry_trimmed, trimmed};

verus! {

/// The client address that the proxy headers report: the first
/// `x-forwarded-for` entry (before any comma, whitespace-trimmed) when that
/// is non-empty; otherwise `x-real-ip` when non-empty; otherwise the peer
/// socket's address.
pub open spec fn spec_client_ip(
    forwarded_for: Seq<char>,
    real_ip: Seq<char>,
    peer_ip: Seq<char>,
) -> Seq<char> {
    if trimmed(before_comma(forwarded_for)).len() > 0 {
        trimmed(before_comma(forwarded_for))
    } else if real_ip.len() > 0 {
        real_ip
    } else {
        peer_ip
    }
}

/// Resolve the best-guess client address from the `x-forwarded-for` and
/// `x-real-ip` header values (empty string when a header is absent) and the
/// peer socket's address. Header values are untrusted and are passed through
/// without validation; when no forwarding header contributes, the result is
/// the peer address itself.
pub fn resolve_client_ip(forwarded_for: &str, real_ip: &str, peer_ip: &str) -> (r: String)
    ensures
        r@ == spec_client_ip(forwarded_for@, real_ip@, peer_ip@),
        forwarded_for@.len() == 0 && real_ip@.len() == 0 ==> r@ == peer_ip@,
{
    let candidate = first_entry_trimmed(forwarded_for);
    if !candidate.as_str().is_empty() {
        candidate
    } else if !real_ip.is_empty() {
        real_ip.to_owned()
    } else {
        peer_ip.to_owned()
    }
}

} // verus!
