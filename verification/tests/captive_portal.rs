use smartclock::dhcp::{build_dhcp_reply, dhcp_respond, DHCP_ACK, DHCP_OFFER};
use smartclock::dns::{create_dns_response, dns_respond, gateway_ip, Ipv4};

fn discover_packet(xid: [u8; 4], chaddr: [u8; 16], msg_type: u8) -> Vec<u8> {
    let mut p = vec![0u8; 512];
    p[0] = 1; // BOOTREQUEST
    p[1] = 1;
    p[2] = 6;
    p[4..8].copy_from_slice(&xid);
    p[28..44].copy_from_slice(&chaddr);
    p[236] = 99;
    p[237] = 130;
    p[238] = 83;
    p[239] = 99;
    p[240] = 53;
    p[241] = 1;
    p[242] = msg_type;
    p[243] = 255;
    p
}

const XID: [u8; 4] = [0xde, 0xad, 0xbe, 0xef];
const CHADDR: [u8; 16] = [
    0x52, 0x54, 0x00, 0x12, 0x34, 0x56, 0, 0, 0, 0, 0, 0, 0, 0, 0, 0,
];

#[test]
fn dhcp_discover_gets_offer_with_same_xid_and_chaddr() {
    let req = discover_packet(XID, CHADDR, 1);
    let reply = dhcp_respond(&req).expect("a DISCOVER deserves an OFFER");
    assert_eq!(reply.len(), 512);
    assert_eq!(reply[0], 2, "BOOTREPLY");
    assert_eq!(&reply[4..8], &XID, "transaction id copied");
    assert_eq!(&reply[28..44], &CHADDR, "hardware address copied");
    assert_eq!(&reply[16..20], &[192, 168, 2, 2], "yiaddr is the fixed lease");
    assert_eq!(&reply[20..24], &[192, 168, 2, 1], "siaddr is the device");
    assert_eq!(&reply[236..240], &[99, 130, 83, 99], "magic cookie");
    assert_eq!(&reply[240..243], &[53, 1, DHCP_OFFER], "message type OFFER");
}

#[test]
fn dhcp_request_gets_ack_with_same_lease() {
    let req = discover_packet(XID, CHADDR, 3);
    let reply = dhcp_respond(&req).expect("a REQUEST deserves an ACK");
    assert_eq!(&reply[4..8], &XID);
    assert_eq!(&reply[28..44], &CHADDR);
    assert_eq!(&reply[16..20], &[192, 168, 2, 2]);
    assert_eq!(&reply[240..243], &[53, 1, DHCP_ACK]);
}

#[test]
fn dhcp_offer_and_ack_options_hold_the_fixed_network() {
    let reply = build_dhcp_reply(DHCP_OFFER, &XID, &CHADDR);
    // router, subnet mask, lease time, server id, dns, end
    assert_eq!(&reply[243..249], &[3, 4, 192, 168, 2, 1]);
    assert_eq!(&reply[249..255], &[1, 4, 255, 255, 255, 0]);
    assert_eq!(&reply[255..261], &[51, 4, 0, 0, 0x0e, 0x10]);
    assert_eq!(&reply[261..267], &[54, 4, 192, 168, 2, 1]);
    assert_eq!(&reply[267..273], &[6, 4, 192, 168, 2, 1]);
    assert_eq!(reply[273], 255);
}

#[test]
fn dhcp_other_message_types_are_ignored() {
    let req = discover_packet(XID, CHADDR, 8); // INFORM
    assert!(dhcp_respond(&req).is_none());
}

#[test]
fn dhcp_short_or_cookieless_datagrams_are_dropped() {
    assert!(dhcp_respond(&[1, 2, 3]).is_none());
    let mut nocookie = discover_packet(XID, CHADDR, 1);
    nocookie[236] = 0;
    assert!(dhcp_respond(&nocookie).is_none());
}

#[test]
fn dhcp_missing_type_option_is_dropped() {
    let mut req = discover_packet(XID, CHADDR, 1);
    req[240] = 255; // end option right away
    assert!(dhcp_respond(&req).is_none());
}

fn dns_query(id: [u8; 2]) -> Vec<u8> {
    let mut q = vec![id[0], id[1], 0x01, 0x00, 0x00, 0x01, 0, 0, 0, 0, 0, 0];
    q.extend_from_slice(b"\x03www\x07example\x03com\x00\x00\x01\x00\x01");
    q
}

#[test]
fn dns_answer_reuses_id_and_question_and_answers_once() {
    let q = dns_query([0xab, 0xcd]);
    let r = create_dns_response(gateway_ip(), &q);
    assert_eq!(r.len(), q.len() + 16);
    assert_eq!(&r[0..2], &[0xab, 0xcd], "transaction id reused");
    assert_eq!(&r[2..4], &[0x81, 0x80], "response, no error");
    assert_eq!(&r[4..6], &q[4..6], "question count copied");
    assert_eq!(&r[6..8], &[0x00, 0x01], "answer count one");
    assert_eq!(&r[8..12], &[0, 0, 0, 0], "no authority, no additional");
    assert_eq!(&r[12..q.len()], &q[12..], "question copied verbatim");
    let tail = &r[q.len()..];
    assert_eq!(
        tail,
        &[0xc0, 0x0c, 0, 1, 0, 1, 0, 0, 0, 60, 0, 4, 192, 168, 2, 1],
        "one A record at the device address with a 60s TTL"
    );
}

#[test]
fn dns_answer_points_at_the_configured_address() {
    let q = dns_query([0x00, 0x07]);
    let r = create_dns_response(Ipv4(10, 0, 0, 1), &q);
    assert_eq!(&r[r.len() - 4..], &[10, 0, 0, 1]);
}

#[test]
fn dns_truncated_header_is_dropped() {
    assert!(dns_respond(gateway_ip(), &[0xab, 0xcd, 0x01]).is_none());
    let q = dns_query([9, 9]);
    assert!(dns_respond(gateway_ip(), &q).is_some());
}
