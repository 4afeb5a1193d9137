//! Parsing of IP address text, through the standard library's parser.
use vstd::prelude::*;

verus! {

/// What `<IpAddr as FromStr>::from_str` decides for `text`: `None` when the
/// text is no IPv4 or IPv6 address, `Some(false)` for an IPv4 address and
/// `Some(true)` for an IPv6 address.
pub uninterp spec fn spec_ip_family(text: Seq<char>) -> Option<bool>;

/// `text` is an IPv4 address.
pub open spec fn is_ipv4_text(text: Seq<char>) -> bool {
    spec_ip_family(text) == Some(false)
}

/// `text` is an IPv6 address.
pub open spec fn is_ipv6_text(text: Seq<char>) -> bool {
    spec_ip_family(text) == Some(true)
}

/// Calls `<core::net::IpAddr as FromStr>::from_str` and tells the two address
/// families apart. The claim is only that the outcome depends on the
/// characters of `text` alone; the address grammar itself is not stated.
#[verifier::external_body]
pub(crate) fn ip_family(text: &str) -> (r: Option<bool>)
    ensures
        r == spec_ip_family(text@),
{
    match text.parse::<core::net::IpAddr>() {
        Ok(core::net::IpAddr::V4(_)) => Some(false),
        Ok(core::net::IpAddr::V6(_)) => Some(true),
        Err(_) => None,
    }
}

} // verus!
