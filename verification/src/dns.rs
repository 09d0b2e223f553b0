//! The captive portal's DNS hijacker.
//!
//! While the device is an access point, every DNS query that reaches it is
//! answered with a single A record pointing at the device's own gateway
//! address, whatever name or type was asked for.  That is the standard
//! captive-portal trick: any lookup a client performs leads it to the
//! provisioning page.  There is no recursion, no caching and no other
//! record type.

use vstd::prelude::*;

use crate::bytes::push_slice_range;

verus! {

/// An IPv4 address as four plain octets.
#[derive(Eq, PartialEq, Copy, Clone, Debug, Structural)]
pub struct Ipv4(pub u8, pub u8, pub u8, pub u8);

/// The gateway address of the access-point subnet: 192.168.2.1.
pub fn gateway_ip() -> (ip: Ipv4)
    ensures
        ip == Ipv4(192, 168, 2, 1),
{
    Ipv4(192, 168, 2, 1)
}

/// Time-to-live of the hijacked A record, in seconds.
pub const DNS_TTL_SECS: u8 = 60;

/// The reply to a query `req` of at least header size: the request's
/// transaction id, flags "response, no error" (0x8180), the request's
/// question count, answer count one, zero authority and additional
/// counts, the question section copied verbatim, and one A record —
/// a compressed pointer to the question name, type A, class IN, a fixed
/// TTL and the four octets of `ip`.
pub open spec fn spec_dns_response(ip: Ipv4, req: Seq<u8>) -> Seq<u8> {
    req.subrange(0, 2) + seq![0x81u8, 0x80u8] + req.subrange(4, 6) + seq![0x00u8, 0x01u8]
        + seq![0x00u8, 0x00u8] + seq![0x00u8, 0x00u8] + req.subrange(12, req.len() as int)
        + seq![0xc0u8, 0x0cu8] + seq![0x00u8, 0x01u8] + seq![0x00u8, 0x01u8]
        + seq![0x00u8, 0x00u8, 0x00u8, DNS_TTL_SECS] + seq![0x00u8, 0x04u8]
        + seq![ip.0, ip.1, ip.2, ip.3]
}

/// Build the hijacked reply for a query that is at least a full DNS
/// header.  Malformed (shorter) datagrams never reach this function; the
/// service loop drops them through `dns_respond`.
pub fn create_dns_response(ip: Ipv4, request: &[u8]) -> (r: Vec<u8>)
    requires
        request@.len() >= 12,
    ensures
        r@ == spec_dns_response(ip, request@),
{
    let n = request.len();
    let mut response: Vec<u8> = Vec::new();
    push_slice_range(&mut response, request, 0, 2);
    response.push(0x81);
    response.push(0x80);
    push_slice_range(&mut response, request, 4, 6);
    response.push(0x00);
    response.push(0x01);
    response.push(0x00);
    response.push(0x00);
    response.push(0x00);
    response.push(0x00);
    push_slice_range(&mut response, request, 12, n);
    response.push(0xc0);
    response.push(0x0c);
    response.push(0x00);
    response.push(0x01);
    response.push(0x00);
    response.push(0x01);
    response.push(0x00);
    response.push(0x00);
    response.push(0x00);
    response.push(DNS_TTL_SECS);
    response.push(0x00);
    response.push(0x04);
    response.push(ip.0);
    response.push(ip.1);
    response.push(ip.2);
    response.push(ip.3);
    proof {
        assert(response@ =~= spec_dns_response(ip, request@));
    }
    response
}

/// One datagram of the DNS service loop: queries shorter than a DNS
/// header are dropped silently, everything else gets the hijacked reply.
pub fn dns_respond(ip: Ipv4, request: &[u8]) -> (r: Option<Vec<u8>>)
    ensures
        request@.len() < 12 ==> r is None,
        request@.len() >= 12 ==> (match r {
            Some(out) => out@ == spec_dns_response(ip, request@),
            None => false,
        }),
{
    if request.len() < 12 {
        None
    } else {
        Some(create_dns_response(ip, request))
    }
}

/// What the hijacked reply looks like, field by field: same transaction
/// id as the query, response flags, the query's question count, answer
/// count one, and an A record carrying exactly the configured address as
/// its last four octets.
pub proof fn lemma_dns_answer_fields(ip: Ipv4, req: Seq<u8>)
    requires
        req.len() >= 12,
    ensures
        spec_dns_response(ip, req).len() == req.len() + 16,
        spec_dns_response(ip, req)[0] == req[0],
        spec_dns_response(ip, req)[1] == req[1],
        spec_dns_response(ip, req)[2] == 0x81,
        spec_dns_response(ip, req)[3] == 0x80,
        spec_dns_response(ip, req)[4] == req[4],
        spec_dns_response(ip, req)[5] == req[5],
        spec_dns_response(ip, req)[6] == 0x00,
        spec_dns_response(ip, req)[7] == 0x01,
        spec_dns_response(ip, req)[req.len() - 4 + 16] == ip.0,
        spec_dns_response(ip, req)[req.len() - 3 + 16] == ip.1,
        spec_dns_response(ip, req)[req.len() - 2 + 16] == ip.2,
        spec_dns_response(ip, req)[req.len() - 1 + 16] == ip.3,
{
}

} // verus!
