//! The metrics endpoint: who may read the counters.

use crate::reply::{Reply, FORBIDDEN, OK};
use vstd::prelude::*;

verus! {

/// The network address of a caller: the four octets of an IPv4 address or
/// the eight segments of an IPv6 address, first to last.
#[derive(Debug, Clone, Copy)]
pub enum PeerAddress {
    V4([u8; 4]),
    V6([u16; 8]),
}

/// The address is a loopback address: `127.0.0.0/8`, or `::1`.
pub open spec fn is_loopback_address(address: PeerAddress) -> bool {
    match address {
        PeerAddress::V4(octets) => octets[0] == 127,
        PeerAddress::V6(segments) => {
            &&& forall|i: int| 0 <= i < 7 ==> segments[i] == 0
            &&& segments[7] == 1
        },
    }
}

/// The address is the unspecified address: `0.0.0.0`, or `::`.
pub open spec fn is_unspecified_address(address: PeerAddress) -> bool {
    match address {
        PeerAddress::V4(octets) => forall|i: int| 0 <= i < 4 ==> octets[i] == 0,
        PeerAddress::V6(segments) => forall|i: int| 0 <= i < 8 ==> segments[i] == 0,
    }
}

/// The caller is local: its address is known, and a loopback address or the
/// unspecified one.
pub open spec fn is_local(peer: Option<PeerAddress>) -> bool {
    peer matches Some(address) && (is_loopback_address(address) || is_unspecified_address(
        address,
    ))
}

/// The body of the reply to a caller that may not read the counters.
pub open spec fn forbidden_body() -> Seq<char> {
    "Forbidden"@
}

impl PeerAddress {
    /// Decides whether the address is a loopback address.
    pub fn is_loopback(&self) -> (b: bool)
        ensures
            b == is_loopback_address(*self),
    {
        match self {
            PeerAddress::V4(octets) => octets[0] == 127,
            PeerAddress::V6(segments) => {
                segments[0] == 0 && segments[1] == 0 && segments[2] == 0 && segments[3] == 0
                    && segments[4] == 0 && segments[5] == 0 && segments[6] == 0 && segments[7]
                    == 1
            },
        }
    }

    /// Decides whether the address is the unspecified address.
    pub fn is_unspecified(&self) -> (b: bool)
        ensures
            b == is_unspecified_address(*self),
    {
        match self {
            PeerAddress::V4(octets) => {
                octets[0] == 0 && octets[1] == 0 && octets[2] == 0 && octets[3] == 0
            },
            PeerAddress::V6(segments) => {
                segments[0] == 0 && segments[1] == 0 && segments[2] == 0 && segments[3] == 0
                    && segments[4] == 0 && segments[5] == 0 && segments[6] == 0 && segments[7]
                    == 0
            },
        }
    }
}

/// Decides whether the caller may read the counters: only a local one may.
pub fn may_read_metrics(peer: &Option<PeerAddress>) -> (allowed: bool)
    ensures
        allowed == is_local(*peer),
{
    match peer {
        Some(address) => address.is_loopback() || address.is_unspecified(),
        None => false,
    }
}

/// Answers a request for the counters, whose exposition is `exposition`: a
/// local caller gets it, any other is turned away.
pub fn metrics(peer: &Option<PeerAddress>, exposition: String) -> (reply: Reply)
    ensures
        is_local(*peer) ==> reply.says(OK, exposition@),
        !is_local(*peer) ==> reply.says(FORBIDDEN, forbidden_body()),
{
    if may_read_metrics(peer) {
        Reply::plain(OK, exposition)
    } else {
        Reply::plain(FORBIDDEN, String::from_str("Forbidden"))
    }
}

} // verus!
