//! Frame codec: builds and parses the raw Ethernet frames the engine sends
//! and receives — ARP requests and replies, ICMP echo requests and TCP SYN
//! segments over IPv4 — with the protocol-mandated checksums.

use vstd::prelude::*;

use crate::bytes::{
    be16, be32, checksum16, internet_checksum, mac6, mac_ok, push_be16, push_be32, push_mac,
    read16, read16_at, read32, read32_at, read48, read48_at, lemma_read16_be16, lemma_read32_be32,
    lemma_read48_mac6,
};

verus! {

pub const ETHERTYPE_IPV4: u16 = 0x0800;

pub const ETHERTYPE_ARP: u16 = 0x0806;

pub const ARP_OP_REQUEST: u16 = 1;

pub const ARP_OP_REPLY: u16 = 2;

pub const BROADCAST_MAC: u64 = 0xffffffffffff;

pub const ZERO_MAC: u64 = 0;

/// The 14-byte Ethernet II header.
pub open spec fn eth_header(dst: u64, src: u64, ethertype: u16) -> Seq<u8> {
    mac6(dst) + mac6(src) + be16(ethertype)
}

/// A complete 42-byte Ethernet + ARP frame: hardware type Ethernet,
/// protocol type IPv4, 6-byte hardware and 4-byte protocol addresses.
pub open spec fn arp_frame(
    eth_dst: u64,
    eth_src: u64,
    oper: u16,
    sender_mac: u64,
    sender_ip: u32,
    target_mac: u64,
    target_ip: u32,
) -> Seq<u8> {
    eth_header(eth_dst, eth_src, ETHERTYPE_ARP) + be16(1) + be16(ETHERTYPE_IPV4) + seq![6u8, 4u8]
        + be16(oper) + mac6(sender_mac) + be32(sender_ip) + mac6(target_mac) + be32(target_ip)
}

/// A 20-byte IPv4 header (version 4, header length 5, TTL 64, no options)
/// with the given checksum field.
pub open spec fn ipv4_header_with_checksum(
    proto: u8,
    total_len: u16,
    source_ip: u32,
    dest_ip: u32,
    ck: u16,
) -> Seq<u8> {
    seq![0x45u8, 0u8] + be16(total_len) + seq![0u8, 0u8, 0u8, 0u8, 64u8, proto] + be16(ck) + be32(
        source_ip,
    ) + be32(dest_ip)
}

/// The header checksum: the internet checksum of the header with its
/// checksum field zeroed.
pub open spec fn ipv4_checksum(proto: u8, total_len: u16, source_ip: u32, dest_ip: u32) -> u16 {
    checksum16(ipv4_header_with_checksum(proto, total_len, source_ip, dest_ip, 0))
}

/// A 20-byte IPv4 header carrying its own checksum.
pub open spec fn ipv4_header(proto: u8, total_len: u16, source_ip: u32, dest_ip: u32) -> Seq<u8> {
    ipv4_header_with_checksum(
        proto,
        total_len,
        source_ip,
        dest_ip,
        ipv4_checksum(proto, total_len, source_ip, dest_ip),
    )
}

/// An 8-byte ICMP echo request (type 8, code 0, identifier and sequence
/// zero) with the given checksum field.
pub open spec fn icmp_echo_payload_with_checksum(ck: u16) -> Seq<u8> {
    seq![8u8, 0u8] + be16(ck) + seq![0u8, 0u8, 0u8, 0u8]
}

/// The echo request checksum: the internet checksum of the message with its
/// checksum field zeroed.
pub open spec fn icmp_echo_checksum() -> u16 {
    checksum16(icmp_echo_payload_with_checksum(0))
}

/// A complete 42-byte broadcast Ethernet + IPv4 + ICMP echo request frame.
pub open spec fn icmp_echo_frame(source_mac: u64, source_ip: u32, target_ip: u32) -> Seq<u8> {
    eth_header(BROADCAST_MAC, source_mac, ETHERTYPE_IPV4) + ipv4_header(1, 28, source_ip, target_ip)
        + icmp_echo_payload_with_checksum(icmp_echo_checksum())
}

/// A 20-byte TCP SYN segment (data offset 5, window 65535, no options)
/// with the given checksum field.
pub open spec fn tcp_syn_segment_with_checksum(
    source_port: u16,
    target_port: u16,
    sequence: u32,
    ck: u16,
) -> Seq<u8> {
    be16(source_port) + be16(target_port) + be32(sequence) + be32(0) + seq![0x50u8, 0x02u8] + be16(
        0xffff,
    ) + be16(ck) + be16(0)
}

/// The TCP pseudo-header the checksum is computed over: source and
/// destination address, a zero byte, the TCP protocol number and the
/// segment length.
pub open spec fn tcp_pseudo_header(source_ip: u32, dest_ip: u32, tcp_len: u16) -> Seq<u8> {
    be32(source_ip) + be32(dest_ip) + seq![0u8, 6u8] + be16(tcp_len)
}

/// The SYN segment checksum: the internet checksum of the pseudo-header
/// followed by the segment with its checksum field zeroed.
pub open spec fn tcp_syn_checksum(
    source_ip: u32,
    target_ip: u32,
    source_port: u16,
    target_port: u16,
    sequence: u32,
) -> u16 {
    checksum16(
        tcp_pseudo_header(source_ip, target_ip, 20) + tcp_syn_segment_with_checksum(
            source_port,
            target_port,
            sequence,
            0,
        ),
    )
}

/// A complete 54-byte broadcast Ethernet + IPv4 + TCP SYN frame.
pub open spec fn tcp_syn_frame(
    source_mac: u64,
    source_ip: u32,
    target_ip: u32,
    target_port: u16,
    source_port: u16,
    sequence: u32,
) -> Seq<u8> {
    eth_header(BROADCAST_MAC, source_mac, ETHERTYPE_IPV4) + ipv4_header(6, 40, source_ip, target_ip)
        + tcp_syn_segment_with_checksum(
        source_port,
        target_port,
        sequence,
        tcp_syn_checksum(source_ip, target_ip, source_port, target_port, sequence),
    )
}

/// Build an Ethernet + ARP frame with the given header fields.
fn build_arp_frame(
    eth_dst: u64,
    eth_src: u64,
    oper: u16,
    sender_mac: u64,
    sender_ip: u32,
    target_mac: u64,
    target_ip: u32,
) -> (r: Vec<u8>)
    ensures
        r@ == arp_frame(eth_dst, eth_src, oper, sender_mac, sender_ip, target_mac, target_ip),
        r@.len() == 42,
{
    let mut out: Vec<u8> = Vec::new();
    push_mac(&mut out, eth_dst);
    push_mac(&mut out, eth_src);
    push_be16(&mut out, ETHERTYPE_ARP);
    push_be16(&mut out, 1);
    push_be16(&mut out, ETHERTYPE_IPV4);
    out.push(6);
    out.push(4);
    push_be16(&mut out, oper);
    push_mac(&mut out, sender_mac);
    push_be32(&mut out, sender_ip);
    push_mac(&mut out, target_mac);
    push_be32(&mut out, target_ip);
    proof {
        assert(out@ =~= arp_frame(
            eth_dst,
            eth_src,
            oper,
            sender_mac,
            sender_ip,
            target_mac,
            target_ip,
        ));
    }
    out
}

/// Build an ARP request probing for `target_ip`: broadcast destination,
/// sender fields taken from the probing interface, target hardware address
/// all-zero.
pub fn build_arp_request(source_mac: u64, source_ip: u32, target_ip: u32) -> (r: Vec<u8>)
    ensures
        r@ == arp_frame(
            BROADCAST_MAC,
            source_mac,
            ARP_OP_REQUEST,
            source_mac,
            source_ip,
            ZERO_MAC,
            target_ip,
        ),
        r@.len() == 42,
{
    build_arp_frame(
        BROADCAST_MAC,
        source_mac,
        ARP_OP_REQUEST,
        source_mac,
        source_ip,
        ZERO_MAC,
        target_ip,
    )
}

/// Build an ARP reply announcing that `source_ip` is at `source_mac`,
/// addressed to `target_mac`/`target_ip`.
pub fn build_arp_reply(source_mac: u64, source_ip: u32, target_mac: u64, target_ip: u32) -> (r: Vec<
    u8,
>)
    ensures
        r@ == arp_frame(
            target_mac,
            source_mac,
            ARP_OP_REPLY,
            source_mac,
            source_ip,
            target_mac,
            target_ip,
        ),
        r@.len() == 42,
{
    build_arp_frame(
        target_mac,
        source_mac,
        ARP_OP_REPLY,
        source_mac,
        source_ip,
        target_mac,
        target_ip,
    )
}

/// Build an IPv4 header with its checksum filled in.
fn build_ipv4_header(proto: u8, total_len: u16, source_ip: u32, dest_ip: u32) -> (r: Vec<u8>)
    ensures
        r@ == ipv4_header(proto, total_len, source_ip, dest_ip),
        r@.len() == 20,
{
    let mut zeroed: Vec<u8> = Vec::new();
    zeroed.push(0x45);
    zeroed.push(0);
    push_be16(&mut zeroed, total_len);
    zeroed.push(0);
    zeroed.push(0);
    zeroed.push(0);
    zeroed.push(0);
    zeroed.push(64);
    zeroed.push(proto);
    push_be16(&mut zeroed, 0);
    push_be32(&mut zeroed, source_ip);
    push_be32(&mut zeroed, dest_ip);
    proof {
        assert(zeroed@ =~= ipv4_header_with_checksum(proto, total_len, source_ip, dest_ip, 0));
    }
    let ck = internet_checksum(zeroed.as_slice());
    let mut out: Vec<u8> = Vec::new();
    out.push(0x45);
    out.push(0);
    push_be16(&mut out, total_len);
    out.push(0);
    out.push(0);
    out.push(0);
    out.push(0);
    out.push(64);
    out.push(proto);
    push_be16(&mut out, ck);
    push_be32(&mut out, source_ip);
    push_be32(&mut out, dest_ip);
    proof {
        assert(out@ =~= ipv4_header_with_checksum(
            proto,
            total_len,
            source_ip,
            dest_ip,
            ipv4_checksum(proto, total_len, source_ip, dest_ip),
        ));
    }
    out
}

/// Build a broadcast ICMP echo request frame, an auxiliary liveness probe
/// for hosts that suppress ARP but answer IP traffic.
pub fn build_icmp_echo(source_mac: u64, source_ip: u32, target_ip: u32) -> (r: Vec<u8>)
    ensures
        r@ == icmp_echo_frame(source_mac, source_ip, target_ip),
        r@.len() == 42,
{
    let mut zeroed: Vec<u8> = Vec::new();
    zeroed.push(8);
    zeroed.push(0);
    push_be16(&mut zeroed, 0);
    zeroed.push(0);
    zeroed.push(0);
    zeroed.push(0);
    zeroed.push(0);
    proof {
        assert(zeroed@ =~= icmp_echo_payload_with_checksum(0));
    }
    let ck = internet_checksum(zeroed.as_slice());
    let mut out: Vec<u8> = Vec::new();
    push_mac(&mut out, BROADCAST_MAC);
    push_mac(&mut out, source_mac);
    push_be16(&mut out, ETHERTYPE_IPV4);
    let mut ip = build_ipv4_header(1, 28, source_ip, target_ip);
    out.append(&mut ip);
    out.push(8);
    out.push(0);
    push_be16(&mut out, ck);
    out.push(0);
    out.push(0);
    out.push(0);
    out.push(0);
    proof {
        assert(out@ =~= icmp_echo_frame(source_mac, source_ip, target_ip));
    }
    out
}

/// Build a broadcast TCP SYN frame towards `target_port`, an auxiliary
/// liveness probe; the caller supplies the source port and sequence number.
pub fn build_tcp_syn(
    source_mac: u64,
    source_ip: u32,
    target_ip: u32,
    target_port: u16,
    source_port: u16,
    sequence: u32,
) -> (r: Vec<u8>)
    ensures
        r@ == tcp_syn_frame(source_mac, source_ip, target_ip, target_port, source_port, sequence),
        r@.len() == 54,
{
    let mut zeroed: Vec<u8> = Vec::new();
    push_be32(&mut zeroed, source_ip);
    push_be32(&mut zeroed, target_ip);
    zeroed.push(0);
    zeroed.push(6);
    push_be16(&mut zeroed, 20);
    push_be16(&mut zeroed, source_port);
    push_be16(&mut zeroed, target_port);
    push_be32(&mut zeroed, sequence);
    push_be32(&mut zeroed, 0);
    zeroed.push(0x50);
    zeroed.push(0x02);
    push_be16(&mut zeroed, 0xffff);
    push_be16(&mut zeroed, 0);
    push_be16(&mut zeroed, 0);
    proof {
        assert(zeroed@ =~= tcp_pseudo_header(source_ip, target_ip, 20)
            + tcp_syn_segment_with_checksum(source_port, target_port, sequence, 0));
    }
    let ck = internet_checksum(zeroed.as_slice());
    let mut out: Vec<u8> = Vec::new();
    push_mac(&mut out, BROADCAST_MAC);
    push_mac(&mut out, source_mac);
    push_be16(&mut out, ETHERTYPE_IPV4);
    let mut ip = build_ipv4_header(6, 40, source_ip, target_ip);
    out.append(&mut ip);
    push_be16(&mut out, source_port);
    push_be16(&mut out, target_port);
    push_be32(&mut out, sequence);
    push_be32(&mut out, 0);
    out.push(0x50);
    out.push(0x02);
    push_be16(&mut out, 0xffff);
    push_be16(&mut out, ck);
    push_be16(&mut out, 0);
    proof {
        assert(out@ =~= tcp_syn_frame(
            source_mac,
            source_ip,
            target_ip,
            target_port,
            source_port,
            sequence,
        ));
    }
    out
}

/// Relies on rand::random: draws a value from the thread-local generator.
/// Nothing is promised of the result.
pub assume_specification<T>[ rand::random::<T> ]() -> (r: T)
    where
        rand::distr::StandardUniform: rand::distr::Distribution<T>,
;

/// Build a TCP SYN probe with a fresh random source port and sequence
/// number, so probe traffic does not reuse predictable values.
pub fn build_tcp_syn_probe(source_mac: u64, source_ip: u32, target_ip: u32, target_port: u16) -> (r:
    Vec<u8>)
    ensures
        exists|source_port: u16, sequence: u32|
            r@ == tcp_syn_frame(
                source_mac,
                source_ip,
                target_ip,
                target_port,
                source_port,
                sequence,
            ),
{
    let source_port: u16 = rand::random();
    let sequence: u32 = rand::random();
    build_tcp_syn(source_mac, source_ip, target_ip, target_port, source_port, sequence)
}

/// What an inbound frame decodes to: the ARP variants carry the four ARP
/// address fields; IPv4 traffic carries the Ethernet source address and the
/// IPv4 source address; anything else recognisable is `Other`.
#[derive(Clone, Copy, Debug, PartialEq, Eq, Structural)]
pub enum DecodedFrame {
    ArpRequest { sender_mac: u64, sender_ip: u32, target_mac: u64, target_ip: u32 },
    ArpReply { sender_mac: u64, sender_ip: u32, target_mac: u64, target_ip: u32 },
    Ipv4Traffic { sender_mac: u64, sender_ip: u32 },
    Other,
}

/// What `parse` returns on each input: `None` for frames too short to carry
/// the headers they announce, the ARP variants for well-formed Ethernet ARP
/// frames, `Ipv4Traffic` for IPv4 frames, and `Other` for the rest.
pub open spec fn parse_spec(b: Seq<u8>) -> Option<DecodedFrame> {
    if b.len() < 14 {
        None
    } else if read16(b, 12) == ETHERTYPE_ARP {
        if b.len() < 42 {
            None
        } else if read16(b, 14) == 1 && read16(b, 16) == ETHERTYPE_IPV4 && b[18] == 6 && b[19]
            == 4 {
            if read16(b, 20) == ARP_OP_REQUEST {
                Some(
                    DecodedFrame::ArpRequest {
                        sender_mac: read48(b, 22),
                        sender_ip: read32(b, 28),
                        target_mac: read48(b, 32),
                        target_ip: read32(b, 38),
                    },
                )
            } else if read16(b, 20) == ARP_OP_REPLY {
                Some(
                    DecodedFrame::ArpReply {
                        sender_mac: read48(b, 22),
                        sender_ip: read32(b, 28),
                        target_mac: read48(b, 32),
                        target_ip: read32(b, 38),
                    },
                )
            } else {
                Some(DecodedFrame::Other)
            }
        } else {
            Some(DecodedFrame::Other)
        }
    } else if read16(b, 12) == ETHERTYPE_IPV4 {
        if b.len() < 34 {
            None
        } else {
            Some(DecodedFrame::Ipv4Traffic { sender_mac: read48(b, 6), sender_ip: read32(b, 26) })
        }
    } else {
        Some(DecodedFrame::Other)
    }
}

/// Decode an inbound frame. Malformed input yields `None` and is never an
/// error: the listener silently drops it.
pub fn parse(bytes: &[u8]) -> (r: Option<DecodedFrame>)
    ensures
        r == parse_spec(bytes@),
{
    if bytes.len() < 14 {
        return None;
    }
    let ethertype = read16_at(bytes, 12);
    if ethertype == ETHERTYPE_ARP {
        if bytes.len() < 42 {
            return None;
        }
        if read16_at(bytes, 14) == 1 && read16_at(bytes, 16) == ETHERTYPE_IPV4 && bytes[18] == 6
            && bytes[19] == 4 {
            let oper = read16_at(bytes, 20);
            if oper == ARP_OP_REQUEST {
                Some(
                    DecodedFrame::ArpRequest {
                        sender_mac: read48_at(bytes, 22),
                        sender_ip: read32_at(bytes, 28),
                        target_mac: read48_at(bytes, 32),
                        target_ip: read32_at(bytes, 38),
                    },
                )
            } else if oper == ARP_OP_REPLY {
                Some(
                    DecodedFrame::ArpReply {
                        sender_mac: read48_at(bytes, 22),
                        sender_ip: read32_at(bytes, 28),
                        target_mac: read48_at(bytes, 32),
                        target_ip: read32_at(bytes, 38),
                    },
                )
            } else {
                Some(DecodedFrame::Other)
            }
        } else {
            Some(DecodedFrame::Other)
        }
    } else if ethertype == ETHERTYPE_IPV4 {
        if bytes.len() < 34 {
            return None;
        }
        Some(DecodedFrame::Ipv4Traffic { sender_mac: read48_at(bytes, 6), sender_ip: read32_at(bytes, 26) })
    } else {
        Some(DecodedFrame::Other)
    }
}

/// Every field of a built ARP frame reads back as written.
pub proof fn lemma_arp_frame_fields(
    eth_dst: u64,
    eth_src: u64,
    oper: u16,
    sender_mac: u64,
    sender_ip: u32,
    target_mac: u64,
    target_ip: u32,
)
    requires
        mac_ok(sender_mac),
        mac_ok(target_mac),
    ensures
        ({
            let b = arp_frame(eth_dst, eth_src, oper, sender_mac, sender_ip, target_mac, target_ip);
            &&& b.len() == 42
            &&& read16(b, 12) == ETHERTYPE_ARP
            &&& read16(b, 14) == 1
            &&& read16(b, 16) == ETHERTYPE_IPV4
            &&& b[18] == 6
            &&& b[19] == 4
            &&& read16(b, 20) == oper
            &&& read48(b, 22) == sender_mac
            &&& read32(b, 28) == sender_ip
            &&& read48(b, 32) == target_mac
            &&& read32(b, 38) == target_ip
        }),
{
    let b = arp_frame(eth_dst, eth_src, oper, sender_mac, sender_ip, target_mac, target_ip);
    assert(b.subrange(12, 14) =~= be16(ETHERTYPE_ARP));
    lemma_read16_be16(b, 12, ETHERTYPE_ARP);
    assert(b.subrange(14, 16) =~= be16(1));
    lemma_read16_be16(b, 14, 1);
    assert(b.subrange(16, 18) =~= be16(ETHERTYPE_IPV4));
    lemma_read16_be16(b, 16, ETHERTYPE_IPV4);
    assert(b.subrange(20, 22) =~= be16(oper));
    lemma_read16_be16(b, 20, oper);
    assert(b.subrange(22, 28) =~= mac6(sender_mac));
    lemma_read48_mac6(b, 22, sender_mac);
    assert(b.subrange(28, 32) =~= be32(sender_ip));
    lemma_read32_be32(b, 28, sender_ip);
    assert(b.subrange(32, 38) =~= mac6(target_mac));
    lemma_read48_mac6(b, 32, target_mac);
    assert(b.subrange(38, 42) =~= be32(target_ip));
    lemma_read32_be32(b, 38, target_ip);
}

/// Round trip: for every valid address pair, a built ARP request parses
/// back to an `ArpRequest` with identical sender and target fields.
pub proof fn lemma_arp_request_round_trip(source_mac: u64, source_ip: u32, target_ip: u32)
    requires
        mac_ok(source_mac),
    ensures
        parse_spec(
            arp_frame(
                BROADCAST_MAC,
                source_mac,
                ARP_OP_REQUEST,
                source_mac,
                source_ip,
                ZERO_MAC,
                target_ip,
            ),
        ) == Some(
            DecodedFrame::ArpRequest {
                sender_mac: source_mac,
                sender_ip: source_ip,
                target_mac: ZERO_MAC,
                target_ip: target_ip,
            },
        ),
{
    lemma_arp_frame_fields(
        BROADCAST_MAC,
        source_mac,
        ARP_OP_REQUEST,
        source_mac,
        source_ip,
        ZERO_MAC,
        target_ip,
    );
}

/// Round trip for replies: a built ARP reply parses back to an `ArpReply`
/// with identical sender and target fields.
pub proof fn lemma_arp_reply_round_trip(
    source_mac: u64,
    source_ip: u32,
    target_mac: u64,
    target_ip: u32,
)
    requires
        mac_ok(source_mac),
        mac_ok(target_mac),
    ensures
        parse_spec(
            arp_frame(
                target_mac,
                source_mac,
                ARP_OP_REPLY,
                source_mac,
                source_ip,
                target_mac,
                target_ip,
            ),
        ) == Some(
            DecodedFrame::ArpReply {
                sender_mac: source_mac,
                sender_ip: source_ip,
                target_mac: target_mac,
                target_ip: target_ip,
            },
        ),
{
    lemma_arp_frame_fields(
        target_mac,
        source_mac,
        ARP_OP_REPLY,
        source_mac,
        source_ip,
        target_mac,
        target_ip,
    );
}

/// Checksum correctness for echo requests: the checksum embedded in a built
/// ICMP echo frame equals the internet checksum recomputed over the ICMP
/// bytes of that same frame with the checksum field zeroed.
pub proof fn lemma_icmp_echo_checksum_matches(source_mac: u64, source_ip: u32, target_ip: u32)
    ensures
        ({
            let f = icmp_echo_frame(source_mac, source_ip, target_ip);
            read16(f, 36) == checksum16(f.subrange(34, 42).update(2, 0u8).update(3, 0u8))
        }),
{
    let f = icmp_echo_frame(source_mac, source_ip, target_ip);
    assert(f.subrange(34, 42).update(2, 0u8).update(3, 0u8) =~= icmp_echo_payload_with_checksum(0));
    assert(f.subrange(36, 38) =~= be16(icmp_echo_checksum()));
    lemma_read16_be16(f, 36, icmp_echo_checksum());
}

/// Checksum correctness for SYN segments: the checksum embedded in a built
/// TCP SYN frame equals the internet checksum recomputed over the
/// pseudo-header and the TCP bytes of that same frame with the checksum
/// field zeroed.
pub proof fn lemma_tcp_syn_checksum_matches(
    source_mac: u64,
    source_ip: u32,
    target_ip: u32,
    target_port: u16,
    source_port: u16,
    sequence: u32,
)
    ensures
        ({
            let f = tcp_syn_frame(
                source_mac,
                source_ip,
                target_ip,
                target_port,
                source_port,
                sequence,
            );
            read16(f, 50) == checksum16(
                tcp_pseudo_header(source_ip, target_ip, 20) + f.subrange(34, 54).update(
                    16,
                    0u8,
                ).update(17, 0u8),
            )
        }),
{
    let f = tcp_syn_frame(source_mac, source_ip, target_ip, target_port, source_port, sequence);
    let ck = tcp_syn_checksum(source_ip, target_ip, source_port, target_port, sequence);
    assert(f.subrange(34, 54).update(16, 0u8).update(17, 0u8) =~= tcp_syn_segment_with_checksum(
        source_port,
        target_port,
        sequence,
        0,
    ));
    assert(f.subrange(50, 52) =~= be16(ck));
    lemma_read16_be16(f, 50, ck);
}

/// Checksum correctness for IPv4 headers: the checksum embedded in a built
/// header equals the internet checksum recomputed over that same header
/// with the checksum field zeroed.
pub proof fn lemma_ipv4_checksum_matches(proto: u8, total_len: u16, source_ip: u32, dest_ip: u32)
    ensures
        ({
            let h = ipv4_header(proto, total_len, source_ip, dest_ip);
            read16(h, 10) == checksum16(h.update(10, 0u8).update(11, 0u8))
        }),
{
    let h = ipv4_header(proto, total_len, source_ip, dest_ip);
    assert(h.update(10, 0u8).update(11, 0u8) =~= ipv4_header_with_checksum(
        proto,
        total_len,
        source_ip,
        dest_ip,
        0,
    ));
    assert(h.subrange(10, 12) =~= be16(ipv4_checksum(proto, total_len, source_ip, dest_ip)));
    lemma_read16_be16(h, 10, ipv4_checksum(proto, total_len, source_ip, dest_ip));
}

} // verus!
