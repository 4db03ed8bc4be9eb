//! Ensures that only a GitHub address can force a pull.

use vstd::prelude::*;
use crate::text::{chars_of, split_chars, split_on, string_of, lemma_split_nonempty};

verus! {

/// The address of a request that comes from GitHub.
pub struct GithubIP(pub String);

/// Why a request is refused.
#[derive(Clone, Copy, Debug, PartialEq, Eq, Structural)]
pub enum GithubIPError {
    WrongIP,
}

/// What ip-in-subnet's `iface_in_any_subnet` gives for an address and a list
/// of subnets, walked in order: `Some(true)` at the first subnet that
/// contains the address; `None` (the crate's error) when a subnet that does
/// not parse is reached before such a match; `Some(false)` when the list
/// ends without either.
pub uninterp spec fn iface_in_any_subnet_result(iface: Seq<char>, subnets: Seq<Seq<char>>) -> Option<bool>;

/// ip-in-subnet's `iface_in_any_subnet`, its error mapped to `None`.
/// Claimed: the result is `iface_in_any_subnet_result` of the arguments, and
/// with no subnets it is `Some(false)` (the crate's loop then ends in `Ok(false)`).
#[verifier::external_body]
fn in_any_subnet(iface: &str, subnets: &Vec<String>) -> (r: Option<bool>)
    ensures
        r == iface_in_any_subnet_result(iface@, subnets@.map_values(|s: String| s@)),
        subnets@.len() == 0 ==> r == Some(false),
{
    let list: Vec<&str> = subnets.iter().map(|s| s.as_str()).collect();
    ip_in_subnet::iface_in_any_subnet(iface, &list).ok()
}

/// The address part of a socket address: what precedes its first `:`.
pub open spec fn host_of(socket_addr: Seq<char>) -> Seq<char> {
    split_on(socket_addr, ':')[0]
}

pub open spec fn subnet_views(subnets: Seq<String>) -> Seq<Seq<char>> {
    subnets.map_values(|s: String| s@)
}

/// The address part of a socket address.
pub fn host_part(socket_addr: &str) -> (host: String)
    ensures
        host@ == host_of(socket_addr@),
{
    let parts = split_chars(&chars_of(socket_addr), ':');
    proof {
        lemma_split_nonempty(socket_addr@, ':');
        assert(parts@.map_values(|p: Vec<char>| p@)[0] == parts@[0]@);
    }
    string_of(&parts[0])
}

impl GithubIP {
    /// Admits a request from `socket_addr` when its address lies in one of
    /// GitHub's published subnets `ip_list`.
    pub fn from_parts(socket_addr: &str, ip_list: &Vec<String>) -> (r: Result<GithubIP, GithubIPError>)
        requires
            iface_in_any_subnet_result(host_of(socket_addr@), subnet_views(ip_list@)) is Some,
        ensures
            match iface_in_any_subnet_result(host_of(socket_addr@), subnet_views(ip_list@)) {
                Some(true) => r matches Ok(g) && g.0@ == socket_addr@,
                _ => r == Err::<GithubIP, GithubIPError>(GithubIPError::WrongIP),
            },
    {
        let ip_addr = host_part(socket_addr);
        let allowed = in_any_subnet(ip_addr.as_str(), ip_list);
        match allowed {
            Some(true) => Ok(GithubIP(String::from_str(socket_addr))),
            _ => Err(GithubIPError::WrongIP),
        }
    }

    /// As `from_parts`, but gives `None` instead when one of the subnets
    /// cannot be read.
    pub fn try_from_parts(socket_addr: &str, ip_list: &Vec<String>) -> (r: Option<Result<GithubIP, GithubIPError>>)
        ensures
            match iface_in_any_subnet_result(host_of(socket_addr@), subnet_views(ip_list@)) {
                None => r is None,
                Some(true) => r matches Some(Ok(g)) && g.0@ == socket_addr@,
                Some(false) => r == Some(Err::<GithubIP, GithubIPError>(GithubIPError::WrongIP)),
            },
    {
        let ip_addr = host_part(socket_addr);
        match in_any_subnet(ip_addr.as_str(), ip_list) {
            None => None,
            Some(_) => Some(GithubIP::from_parts(socket_addr, ip_list)),
        }
    }
}

} // verus!
