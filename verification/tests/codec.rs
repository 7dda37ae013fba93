//! Frame codec tests: layouts, round trips and checksum recomputation.

use netmanager::bytes::internet_checksum;
use netmanager::codec::{
    build_arp_reply, build_arp_request, build_icmp_echo, build_tcp_syn, build_tcp_syn_probe,
    parse, DecodedFrame,
};

const OWN_MAC: u64 = 0x112233445566;
const OWN_IP: u32 = 0xC0A8010A; // 192.168.1.10
const PEER_MAC: u64 = 0xAABBCCDDEEFF;
const PEER_IP: u32 = 0xC0A80105; // 192.168.1.5

fn read_u16(b: &[u8], i: usize) -> u16 {
    (b[i] as u16) * 0x100 + (b[i + 1] as u16)
}

fn read_u32(b: &[u8], i: usize) -> u32 {
    (b[i] as u32) * 0x1000000 + (b[i + 1] as u32) * 0x10000 + (b[i + 2] as u32) * 0x100 + (b[i
        + 3] as u32)
}

fn read_mac(b: &[u8], i: usize) -> u64 {
    let mut v: u64 = 0;
    for k in 0..6 {
        v = v * 0x100 + (b[i + k] as u64);
    }
    v
}

#[test]
fn test_arp_request_layout() {
    let f = build_arp_request(OWN_MAC, OWN_IP, PEER_IP);
    assert_eq!(f.len(), 42);
    assert_eq!(&f[0..6], &[0xff, 0xff, 0xff, 0xff, 0xff, 0xff]);
    assert_eq!(read_mac(&f, 6), OWN_MAC);
    assert_eq!(read_u16(&f, 12), 0x0806);
    assert_eq!(read_u16(&f, 14), 1); // hardware type: Ethernet
    assert_eq!(read_u16(&f, 16), 0x0800); // protocol type: IPv4
    assert_eq!(f[18], 6);
    assert_eq!(f[19], 4);
    assert_eq!(read_u16(&f, 20), 1); // operation: request
    assert_eq!(read_mac(&f, 22), OWN_MAC);
    assert_eq!(read_u32(&f, 28), OWN_IP);
    assert_eq!(read_mac(&f, 32), 0);
    assert_eq!(read_u32(&f, 38), PEER_IP);
}

#[test]
fn test_arp_request_round_trip() {
    let f = build_arp_request(OWN_MAC, OWN_IP, PEER_IP);
    let decoded = parse(&f).expect("a built request must parse");
    assert_eq!(
        decoded,
        DecodedFrame::ArpRequest {
            sender_mac: OWN_MAC,
            sender_ip: OWN_IP,
            target_mac: 0,
            target_ip: PEER_IP,
        }
    );
}

#[test]
fn test_arp_reply_round_trip() {
    let f = build_arp_reply(PEER_MAC, PEER_IP, OWN_MAC, OWN_IP);
    let decoded = parse(&f).expect("a built reply must parse");
    assert_eq!(
        decoded,
        DecodedFrame::ArpReply {
            sender_mac: PEER_MAC,
            sender_ip: PEER_IP,
            target_mac: OWN_MAC,
            target_ip: OWN_IP,
        }
    );
    assert_eq!(read_mac(&f, 0), OWN_MAC); // addressed to the target
}

#[test]
fn test_internet_checksum_known_value() {
    let data = [0x00u8, 0x01, 0xf2, 0x03, 0xf4, 0xf5, 0xf6, 0xf7];
    assert_eq!(internet_checksum(&data), 0x220d);
}

#[test]
fn test_internet_checksum_odd_length() {
    // A trailing odd byte counts as the high byte of a final word.
    assert_eq!(internet_checksum(&[0xab]), !0xab00);
    assert_eq!(internet_checksum(&[]), 0xffff);
}

#[test]
fn test_icmp_echo_checksum_recomputes() {
    let f = build_icmp_echo(OWN_MAC, OWN_IP, PEER_IP);
    assert_eq!(f.len(), 42);
    let embedded = read_u16(&f, 36);
    let mut icmp = f[34..42].to_vec();
    icmp[2] = 0;
    icmp[3] = 0;
    assert_eq!(internet_checksum(&icmp), embedded);
}

#[test]
fn test_icmp_echo_layout() {
    let f = build_icmp_echo(OWN_MAC, OWN_IP, PEER_IP);
    assert_eq!(read_u16(&f, 12), 0x0800); // ethertype IPv4
    assert_eq!(f[14], 0x45); // version 4, header length 5
    assert_eq!(read_u16(&f, 16), 28); // total length
    assert_eq!(f[22], 64); // TTL
    assert_eq!(f[23], 1); // protocol: ICMP
    assert_eq!(read_u32(&f, 26), OWN_IP);
    assert_eq!(read_u32(&f, 30), PEER_IP);
    assert_eq!(f[34], 8); // echo request
    assert_eq!(f[35], 0); // code
}

#[test]
fn test_ipv4_header_checksum_recomputes() {
    let f = build_icmp_echo(OWN_MAC, OWN_IP, PEER_IP);
    let embedded = read_u16(&f, 24);
    let mut header = f[14..34].to_vec();
    header[10] = 0;
    header[11] = 0;
    assert_eq!(internet_checksum(&header), embedded);
}

#[test]
fn test_tcp_syn_layout() {
    let f = build_tcp_syn(OWN_MAC, OWN_IP, PEER_IP, 443, 54321, 0x01020304);
    assert_eq!(f.len(), 54);
    assert_eq!(f[23], 6); // protocol: TCP
    assert_eq!(read_u16(&f, 16), 40); // total length
    assert_eq!(read_u16(&f, 34), 54321); // source port
    assert_eq!(read_u16(&f, 36), 443); // destination port
    assert_eq!(read_u32(&f, 38), 0x01020304); // sequence
    assert_eq!(read_u32(&f, 42), 0); // acknowledgement
    assert_eq!(f[46], 0x50); // data offset 5
    assert_eq!(f[47], 0x02); // SYN
    assert_eq!(read_u16(&f, 48), 65535); // window
    assert_eq!(read_u16(&f, 52), 0); // urgent pointer
}

#[test]
fn test_tcp_syn_checksum_recomputes() {
    let f = build_tcp_syn(OWN_MAC, OWN_IP, PEER_IP, 80, 40000, 7);
    let embedded = read_u16(&f, 50);
    // Pseudo-header: source, destination, zero, protocol, TCP length.
    let mut data = Vec::new();
    data.extend_from_slice(&f[26..34]);
    data.push(0);
    data.push(6);
    data.push(0);
    data.push(20);
    let mut segment = f[34..54].to_vec();
    segment[16] = 0;
    segment[17] = 0;
    data.extend_from_slice(&segment);
    assert_eq!(internet_checksum(&data), embedded);
}

#[test]
fn test_tcp_syn_probe_checksum_recomputes() {
    // Whatever source port and sequence the probe drew, its checksum must
    // recompute over its own bytes.
    let f = build_tcp_syn_probe(OWN_MAC, OWN_IP, PEER_IP, 8080);
    assert_eq!(f.len(), 54);
    assert_eq!(read_u16(&f, 36), 8080);
    let embedded = read_u16(&f, 50);
    let mut data = Vec::new();
    data.extend_from_slice(&f[26..34]);
    data.push(0);
    data.push(6);
    data.push(0);
    data.push(20);
    let mut segment = f[34..54].to_vec();
    segment[16] = 0;
    segment[17] = 0;
    data.extend_from_slice(&segment);
    assert_eq!(internet_checksum(&data), embedded);
}

#[test]
fn test_parse_rejects_short_input() {
    assert_eq!(parse(&[]), None);
    assert_eq!(parse(&[0u8; 13]), None);
    // An ARP ethertype with a truncated payload is malformed.
    let mut short_arp = vec![0u8; 20];
    short_arp[12] = 0x08;
    short_arp[13] = 0x06;
    assert_eq!(parse(&short_arp), None);
    // An IPv4 ethertype with a truncated header is malformed.
    let mut short_ip = vec![0u8; 20];
    short_ip[12] = 0x08;
    short_ip[13] = 0x00;
    assert_eq!(parse(&short_ip), None);
}

#[test]
fn test_parse_other_ethertype() {
    let mut f = vec![0u8; 60];
    f[12] = 0x86; // IPv6
    f[13] = 0xdd;
    assert_eq!(parse(&f), Some(DecodedFrame::Other));
}

#[test]
fn test_parse_ipv4_traffic() {
    let f = build_icmp_echo(PEER_MAC, PEER_IP, OWN_IP);
    assert_eq!(
        parse(&f),
        Some(DecodedFrame::Ipv4Traffic { sender_mac: PEER_MAC, sender_ip: PEER_IP })
    );
}

#[test]
fn test_parse_arp_other_operation() {
    let mut f = build_arp_request(OWN_MAC, OWN_IP, PEER_IP);
    f[21] = 9; // an operation that is neither request nor reply
    assert_eq!(parse(&f), Some(DecodedFrame::Other));
}
