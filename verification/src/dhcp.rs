//! The captive portal's one-lease DHCP responder.
//!
//! While the device is an access point it answers a DISCOVER with an
//! OFFER and a REQUEST with an ACK, always for the same single client
//! address — the portal serves exactly one client during provisioning, so
//! there is no lease table and no conflict detection.  Everything else is
//! ignored, and a datagram that is not a DHCP message at all is dropped.

use vstd::prelude::*;

use crate::bytes::push_repeat;
use crate::bytes::push_slice_range;

verus! {

/// DHCP message type option value of a client DISCOVER.
pub const DHCP_DISCOVER: u8 = 1;

/// DHCP message type option value of a server OFFER.
pub const DHCP_OFFER: u8 = 2;

/// DHCP message type option value of a client REQUEST.
pub const DHCP_REQUEST: u8 = 3;

/// DHCP message type option value of a server ACK.
pub const DHCP_ACK: u8 = 5;

/// Seconds of the fixed address lease.
pub const LEASE_SECS: u32 = 3600;

/// Length of every reply datagram the responder broadcasts.
pub const DHCP_REPLY_LEN: usize = 512;

/// A sequence of `n` zero bytes.
pub open spec fn zeros(n: int) -> Seq<u8> {
    Seq::new(n as nat, |i: int| 0u8)
}

/// A datagram that is a BOOTP/DHCP message: at least the fixed header and
/// the magic cookie that introduces the options.
pub open spec fn spec_is_dhcp(b: Seq<u8>) -> bool {
    b.len() >= 240 && b[236] == 99 && b[237] == 130 && b[238] == 83 && b[239] == 99
}

/// The first message-type option (code 53) found scanning the options
/// from position `p`: pad options are skipped, the end option or a
/// truncated list stops the scan.
pub open spec fn spec_find_msg_type(b: Seq<u8>, p: int) -> Option<u8>
    decreases b.len() - p,
{
    if p < 0 || p >= b.len() {
        None
    } else if b[p] == 255 {
        None
    } else if b[p] == 0 {
        spec_find_msg_type(b, p + 1)
    } else if p + 1 >= b.len() {
        None
    } else if b[p] == 53 {
        if b[p + 1] >= 1 && p + 2 < b.len() {
            Some(b[p + 2])
        } else {
            None
        }
    } else if p + 2 + b[p + 1] > b.len() {
        None
    } else {
        spec_find_msg_type(b, p + 2 + b[p + 1])
    }
}

/// Scan the options of a DHCP message for its message type.
pub fn find_msg_type(buf: &[u8], start: usize) -> (r: Option<u8>)
    ensures
        r == spec_find_msg_type(buf@, start as int),
{
    let n = buf.len();
    let mut p = start;
    loop
        invariant
            spec_find_msg_type(buf@, start as int) == spec_find_msg_type(buf@, p as int),
            n == buf@.len(),
        decreases n - p,
    {
        if p >= n {
            return None;
        }
        let code = buf[p];
        if code == 255 {
            return None;
        }
        if code == 0 {
            p = p + 1;
            continue;
        }
        if p + 1 >= n {
            return None;
        }
        let olen = buf[p + 1];
        if code == 53 {
            if olen >= 1 && p + 2 < n {
                return Some(buf[p + 2]);
            }
            return None;
        }
        if (olen as usize) > n - (p + 2) {
            return None;
        }
        p = p + 2 + (olen as usize);
    }
}

/// The reply the responder broadcasts, as one 512-byte datagram: a BOOTP
/// reply header carrying the request's transaction id and hardware
/// address, the fixed lease (client 192.168.2.2, server 192.168.2.1),
/// and the options message-type (`code`), router, subnet mask, lease
/// time, server identifier and domain name server, closed by the end
/// option and zero padding.
pub open spec fn spec_dhcp_reply(code: u8, xid: Seq<u8>, chaddr: Seq<u8>) -> Seq<u8> {
    seq![2u8, 1u8, 6u8, 0u8]  // op BOOTREPLY, htype ethernet, hlen, hops
     + xid  // transaction id, 4 bytes
     + zeros(8)  // secs, flags, ciaddr
     + seq![192u8, 168u8, 2u8, 2u8]  // yiaddr: the one offered lease
     + seq![192u8, 168u8, 2u8, 1u8]  // siaddr: this device
     + zeros(4)  // giaddr
     + chaddr  // client hardware address, 16 bytes
     + zeros(192)  // sname, file
     + seq![99u8, 130u8, 83u8, 99u8]  // option magic cookie
     + seq![53u8, 1u8, code]  // message type
     + seq![3u8, 4u8, 192u8, 168u8, 2u8, 1u8]  // router
     + seq![1u8, 4u8, 255u8, 255u8, 255u8, 0u8]  // subnet mask
     + seq![51u8, 4u8, 0u8, 0u8, 0x0eu8, 0x10u8]  // lease time 3600s
     + seq![54u8, 4u8, 192u8, 168u8, 2u8, 1u8]  // server identifier
     + seq![6u8, 4u8, 192u8, 168u8, 2u8, 1u8]  // domain name server
     + seq![255u8]  // end option
     + zeros(238)  // padding up to 512 bytes
}

/// Build the OFFER or ACK (`code`) for a request with transaction id
/// `xid` and hardware address field `chaddr`.
pub fn build_dhcp_reply(code: u8, xid: &[u8], chaddr: &[u8]) -> (r: Vec<u8>)
    requires
        xid@.len() == 4,
        chaddr@.len() == 16,
    ensures
        r@ == spec_dhcp_reply(code, xid@, chaddr@),
        r@.len() == DHCP_REPLY_LEN,
{
    let mut out: Vec<u8> = Vec::new();
    out.push(2);
    out.push(1);
    out.push(6);
    out.push(0);
    push_slice_range(&mut out, xid, 0, 4);
    push_repeat(&mut out, 0, 8);
    out.push(192);
    out.push(168);
    out.push(2);
    out.push(2);
    out.push(192);
    out.push(168);
    out.push(2);
    out.push(1);
    push_repeat(&mut out, 0, 4);
    push_slice_range(&mut out, chaddr, 0, 16);
    push_repeat(&mut out, 0, 192);
    out.push(99);
    out.push(130);
    out.push(83);
    out.push(99);
    out.push(53);
    out.push(1);
    out.push(code);
    out.push(3);
    out.push(4);
    out.push(192);
    out.push(168);
    out.push(2);
    out.push(1);
    out.push(1);
    out.push(4);
    out.push(255);
    out.push(255);
    out.push(255);
    out.push(0);
    out.push(51);
    out.push(4);
    out.push(0);
    out.push(0);
    out.push(0x0e);
    out.push(0x10);
    out.push(54);
    out.push(4);
    out.push(192);
    out.push(168);
    out.push(2);
    out.push(1);
    out.push(6);
    out.push(4);
    out.push(192);
    out.push(168);
    out.push(2);
    out.push(1);
    out.push(255);
    push_repeat(&mut out, 0, 238);
    proof {
        assert(out@ =~= spec_dhcp_reply(code, xid@, chaddr@));
    }
    out
}

/// One datagram of the DHCP service loop.  A DISCOVER gets an OFFER, a
/// REQUEST gets an ACK, both carrying the request's transaction id and
/// hardware address and the fixed lease; every other datagram — other
/// message types, a missing type option, or no DHCP message at all — is
/// dropped silently and the loop goes on.
pub fn dhcp_respond(buf: &[u8]) -> (r: Option<Vec<u8>>)
    ensures
        !spec_is_dhcp(buf@) ==> r is None,
        spec_is_dhcp(buf@) ==> (match spec_find_msg_type(buf@, 240) {
            Some(t) => {
                if t == DHCP_DISCOVER {
                    r matches Some(v) && v@ == spec_dhcp_reply(
                        DHCP_OFFER,
                        buf@.subrange(4, 8),
                        buf@.subrange(28, 44),
                    )
                } else if t == DHCP_REQUEST {
                    r matches Some(v) && v@ == spec_dhcp_reply(
                        DHCP_ACK,
                        buf@.subrange(4, 8),
                        buf@.subrange(28, 44),
                    )
                } else {
                    r is None
                }
            },
            None => r is None,
        }),
{
    if buf.len() < 240 {
        return None;
    }
    if !(buf[236] == 99 && buf[237] == 130 && buf[238] == 83 && buf[239] == 99) {
        return None;
    }
    let t = match find_msg_type(buf, 240) {
        Some(t) => t,
        None => {
            return None;
        },
    };
    let code = if t == DHCP_DISCOVER {
        DHCP_OFFER
    } else if t == DHCP_REQUEST {
        DHCP_ACK
    } else {
        return None;
    };
    let mut xid: Vec<u8> = Vec::new();
    push_slice_range(&mut xid, buf, 4, 8);
    let mut chaddr: Vec<u8> = Vec::new();
    push_slice_range(&mut chaddr, buf, 28, 44);
    let reply = build_dhcp_reply(code, xid.as_slice(), chaddr.as_slice());
    Some(reply)
}

/// The reply's fields, byte by byte: a BOOTP reply (op 2) whose
/// transaction id bytes are exactly the request's, whose offered address
/// is 192.168.2.2, whose server address is 192.168.2.1, whose hardware
/// address bytes are exactly the request's, and whose message-type option
/// carries `code`.  A DISCOVER's OFFER and a REQUEST's ACK differ in that
/// option byte alone.
pub proof fn lemma_dhcp_reply_fields(code: u8, xid: Seq<u8>, chaddr: Seq<u8>)
    requires
        xid.len() == 4,
        chaddr.len() == 16,
    ensures
        spec_dhcp_reply(code, xid, chaddr).len() == DHCP_REPLY_LEN,
        spec_dhcp_reply(code, xid, chaddr)[0] == 2,
        spec_dhcp_reply(code, xid, chaddr).subrange(4, 8) == xid,
        spec_dhcp_reply(code, xid, chaddr).subrange(16, 20) == seq![192u8, 168u8, 2u8, 2u8],
        spec_dhcp_reply(code, xid, chaddr).subrange(20, 24) == seq![192u8, 168u8, 2u8, 1u8],
        spec_dhcp_reply(code, xid, chaddr).subrange(28, 44) == chaddr,
        spec_dhcp_reply(code, xid, chaddr)[240] == 53,
        spec_dhcp_reply(code, xid, chaddr)[242] == code,
{
    let r = spec_dhcp_reply(code, xid, chaddr);
    assert(r.subrange(4, 8) =~= xid);
    assert(r.subrange(16, 20) =~= seq![192u8, 168u8, 2u8, 2u8]);
    assert(r.subrange(20, 24) =~= seq![192u8, 168u8, 2u8, 1u8]);
    assert(r.subrange(28, 44) =~= chaddr);
}

} // verus!
