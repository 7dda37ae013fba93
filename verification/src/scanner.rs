//! Discovery engine: enumerate the interface's local subnet for probing,
//! assemble the probe frames for each candidate host, keep the
//! scan-in-progress state that prevents overlapping sweeps, and feed
//! decoded inbound frames into the registry.

use vstd::prelude::*;

use vstd::arithmetic::div_mod::{lemma_fundamental_div_mod, lemma_mod_bound};
use vstd::arithmetic::power2::{
    pow2, lemma_pow2_adds, lemma_pow2_strictly_increases, lemma_pow2_unfold, lemma2_to64,
};

use crate::codec::{
    arp_frame, build_arp_request, build_icmp_echo, build_tcp_syn_probe, icmp_echo_frame, parse,
    parse_spec, tcp_syn_frame, DecodedFrame, ARP_OP_REQUEST, BROADCAST_MAC, ZERO_MAC,
};
use crate::models::{fresh_device, NetworkDevice, NetworkInfo};
use crate::registry::{upsert_creates, upserted_map, Registry};

verus! {

/// The number of addresses in a subnet block of the given prefix length.
pub open spec fn subnet_size(prefix: u8) -> int
    recommends
        prefix <= 32,
{
    pow2((32 - prefix) as nat) as int
}

/// The network address of the block holding `own_ip`.
pub open spec fn network_base(own_ip: u32, prefix: u8) -> int
    recommends
        prefix <= 32,
{
    (own_ip as int) - ((own_ip as int) % subnet_size(prefix))
}

/// The addresses a sweep probes: every host address of the local block —
/// the network and broadcast addresses excluded — except the interface's
/// own.
pub open spec fn is_sweep_target(own_ip: u32, prefix: u8, a: u32) -> bool
    recommends
        prefix <= 32,
{
    &&& network_base(own_ip, prefix) < a
    &&& a < network_base(own_ip, prefix) + subnet_size(prefix) - 1
    &&& a != own_ip
}

/// Compute the subnet block size as a machine integer.
fn subnet_block_size(prefix: u8) -> (r: u64)
    requires
        prefix <= 32,
    ensures
        r == subnet_size(prefix),
        1 <= r <= 0x100000000,
{
    let n: u8 = 32 - prefix;
    let mut e: u8 = 0;
    let mut block: u64 = 1;
    proof {
        lemma2_to64();
    }
    while e < n
        invariant
            e <= n <= 32,
            block == pow2(e as nat),
        decreases n - e,
    {
        proof {
            lemma_pow2_unfold((e + 1) as nat);
            lemma2_to64();
            if ((e + 1) as nat) < 33 {
                lemma_pow2_strictly_increases((e + 1) as nat, 33);
            }
        }
        block = block * 2;
        e = e + 1;
    }
    proof {
        lemma2_to64();
        if (n as nat) < 32 {
            lemma_pow2_strictly_increases(n as nat, 32);
        }
    }
    block
}

/// Enumerate the sweep targets for an interface at `own_ip` with the given
/// prefix length, in ascending order: exactly the host addresses of the
/// local block other than the interface's own.
pub fn sweep_targets(own_ip: u32, prefix: u8) -> (r: Vec<u32>)
    requires
        prefix <= 32,
    ensures
        forall|j: int| 0 <= j < r@.len() ==> is_sweep_target(own_ip, prefix, #[trigger] r@[j]),
        forall|a: u32| is_sweep_target(own_ip, prefix, a) ==> r@.contains(a),
        forall|j1: int, j2: int| 0 <= j1 < j2 < r@.len() ==> r@[j1] < r@[j2],
{
    let block = subnet_block_size(prefix);
    let own: u64 = own_ip as u64;
    proof {
        lemma_fundamental_div_mod(own as int, block as int);
        lemma_mod_bound(own as int, block as int);
        assert((block as int) * ((own as int) / (block as int)) + ((own as int) % (block as int))
            == own as int);
        assert(((own as int) / (block as int)) * (block as int) <= own as int) by (nonlinear_arith)
            requires
                (block as int) * ((own as int) / (block as int)) + ((own as int) % (block as int))
                    == own as int,
                (own as int) % (block as int) >= 0,
        ;
    }
    let q: u64 = own / block;
    let base: u64 = q * block;
    let hi: u64 = base + block;
    proof {
        lemma_pow2_adds(prefix as nat, (32 - prefix) as nat);
        lemma2_to64();
        let qi = own as int / block as int;
        let bi = block as int;
        let mi = pow2(prefix as nat) as int;
        assert(qi * bi < mi * bi);
        assert(qi < mi) by (nonlinear_arith)
            requires
                qi * bi < mi * bi,
                bi >= 1,
        ;
        assert((qi + 1) * bi <= mi * bi) by (nonlinear_arith)
            requires
                qi < mi,
                bi >= 1,
        ;
        assert((qi + 1) * bi == qi * bi + bi) by (nonlinear_arith);
        assert(mi * bi == 0x100000000);
        assert(hi <= 0x100000000);
        assert(base == network_base(own_ip, prefix));
    }
    let mut out: Vec<u32> = Vec::new();
    let mut a: u64 = base + 1;
    while a + 1 < hi
        invariant
            prefix <= 32,
            base == network_base(own_ip, prefix),
            block == subnet_size(prefix),
            base + block == hi <= 0x100000000,
            base + 1 <= a <= hi,
            forall|j: int| 0 <= j < out@.len() ==> is_sweep_target(own_ip, prefix, #[trigger] out@[j]),
            forall|j: int| 0 <= j < out@.len() ==> (#[trigger] out@[j]) < a,
            forall|j1: int, j2: int| 0 <= j1 < j2 < out@.len() ==> out@[j1] < out@[j2],
            forall|x: u32| is_sweep_target(own_ip, prefix, x) && x < a ==> out@.contains(x),
        decreases hi - a,
    {
        let addr = a as u32;
        let ghost out_pre = out@;
        if addr != own_ip {
            out.push(addr);
        }
        proof {
            assert forall|x: u32|
                is_sweep_target(own_ip, prefix, x) && x < a + 1 implies out@.contains(x) by {
                if x < a {
                    let j = choose|j: int| 0 <= j < out_pre.len() && out_pre[j] == x;
                    assert(out@[j] == x);
                } else {
                    assert(out@[out@.len() - 1] == x);
                }
            }
        }
        a = a + 1;
    }
    proof {
        assert forall|x: u32| is_sweep_target(own_ip, prefix, x) implies out@.contains(x) by {
            assert(x < a);
        }
    }
    out
}

/// Decide the probe frame set for one candidate host: one ARP request, one
/// ICMP echo, and one TCP SYN towards each of the five common service
/// ports, in that order.
pub fn probe_frames(source_mac: u64, source_ip: u32, target_ip: u32) -> (r: Vec<Vec<u8>>)
    ensures
        r@.len() == 7,
        r@[0]@ == arp_frame(
            BROADCAST_MAC,
            source_mac,
            ARP_OP_REQUEST,
            source_mac,
            source_ip,
            ZERO_MAC,
            target_ip,
        ),
        r@[1]@ == icmp_echo_frame(source_mac, source_ip, target_ip),
        exists|sp: u16, sq: u32|
            r@[2]@ == tcp_syn_frame(source_mac, source_ip, target_ip, 22, sp, sq),
        exists|sp: u16, sq: u32|
            r@[3]@ == tcp_syn_frame(source_mac, source_ip, target_ip, 80, sp, sq),
        exists|sp: u16, sq: u32|
            r@[4]@ == tcp_syn_frame(source_mac, source_ip, target_ip, 443, sp, sq),
        exists|sp: u16, sq: u32|
            r@[5]@ == tcp_syn_frame(source_mac, source_ip, target_ip, 3389, sp, sq),
        exists|sp: u16, sq: u32|
            r@[6]@ == tcp_syn_frame(source_mac, source_ip, target_ip, 8080, sp, sq),
{
    let mut out: Vec<Vec<u8>> = Vec::new();
    out.push(build_arp_request(source_mac, source_ip, target_ip));
    out.push(build_icmp_echo(source_mac, source_ip, target_ip));
    out.push(build_tcp_syn_probe(source_mac, source_ip, target_ip, 22));
    out.push(build_tcp_syn_probe(source_mac, source_ip, target_ip, 80));
    out.push(build_tcp_syn_probe(source_mac, source_ip, target_ip, 443));
    out.push(build_tcp_syn_probe(source_mac, source_ip, target_ip, 3389));
    out.push(build_tcp_syn_probe(source_mac, source_ip, target_ip, 8080));
    out
}

/// The command an external caller sends to trigger a re-scan.
pub enum ScanCommand {
    Scan,
}

/// Whether a sweep is in progress. The inbound listener runs continuously
/// and is independent of this state.
#[derive(Clone, Copy, Debug, PartialEq, Eq, Structural)]
pub enum ScanState {
    Idle,
    Probing,
}

/// Decide on a command: a `Scan` starts a sweep only from `Idle`; a command
/// arriving mid-sweep is ignored, so sweeps never overlap. Returns the next
/// state and whether to start emitting a sweep.
pub fn on_scan_command(state: ScanState, command: &ScanCommand) -> (r: (ScanState, bool))
    ensures
        r.0 == ScanState::Probing,
        r.1 == (state == ScanState::Idle),
{
    match command {
        ScanCommand::Scan => {
            match state {
                ScanState::Idle => (ScanState::Probing, true),
                ScanState::Probing => (ScanState::Probing, false),
            }
        },
    }
}

/// A finished sweep returns the engine to `Idle`, ready for the next
/// command.
pub fn on_sweep_complete(state: ScanState) -> (r: ScanState)
    ensures
        r == ScanState::Idle,
{
    let _ = state;
    ScanState::Idle
}

/// The (identity, address) observation a decoded frame contributes: the ARP
/// sender fields of either ARP variant, or the source addresses of IPv4
/// traffic; nothing from anything else.
pub open spec fn observation_of(f: Option<DecodedFrame>) -> Option<(u64, u32)> {
    match f {
        Some(
            DecodedFrame::ArpRequest { sender_mac, sender_ip, .. },
        ) => Some((sender_mac, sender_ip)),
        Some(DecodedFrame::ArpReply { sender_mac, sender_ip, .. }) => Some(
            (sender_mac, sender_ip),
        ),
        Some(DecodedFrame::Ipv4Traffic { sender_mac, sender_ip }) => Some(
            (sender_mac, sender_ip),
        ),
        _ => None,
    }
}

/// Decode one inbound frame and feed its observation, if any, into the
/// registry. Returns the "new device" event when the observation created a
/// record; malformed or irrelevant frames change nothing.
pub fn handle_frame(reg: &mut Registry, frame: &[u8], timestamp: u64) -> (created: Option<
    NetworkDevice,
>)
    requires
        old(reg).wf(),
    ensures
        final(reg).wf(),
        match observation_of(parse_spec(frame@)) {
            Some(obs) => final(reg).contents() == upserted_map(
                old(reg).contents(),
                obs.0,
                obs.1,
                timestamp,
            ) && created == if upsert_creates(old(reg).contents(), obs.0) {
                Some(fresh_device(obs.0, obs.1, timestamp))
            } else {
                None::<NetworkDevice>
            },
            None => final(reg).contents() == old(reg).contents() && created is None,
        },
{
    match parse(frame) {
        Some(DecodedFrame::ArpRequest { sender_mac, sender_ip, .. }) => reg.upsert_observed(
            sender_mac,
            sender_ip,
            timestamp,
        ),
        Some(DecodedFrame::ArpReply { sender_mac, sender_ip, .. }) => reg.upsert_observed(
            sender_mac,
            sender_ip,
            timestamp,
        ),
        Some(DecodedFrame::Ipv4Traffic { sender_mac, sender_ip }) => reg.upsert_observed(
            sender_mac,
            sender_ip,
            timestamp,
        ),
        _ => None,
    }
}

/// Compute the process-wide network snapshot: the local network range, the
/// gateway, and the number of registry entries.
pub fn get_local_network_info(own_ip: u32, prefix: u8, gateway_ip: u32, reg: &Registry) -> (r:
    NetworkInfo)
    requires
        prefix <= 32,
    ensures
        r.network_ip == network_base(own_ip, prefix),
        r.prefix == prefix,
        r.gateway_ip == gateway_ip,
        r.active_devices == reg.contents().dom().len(),
{
    let block = subnet_block_size(prefix);
    let own: u64 = own_ip as u64;
    proof {
        lemma_fundamental_div_mod(own as int, block as int);
        lemma_mod_bound(own as int, block as int);
        assert(((own as int) / (block as int)) * (block as int) <= own as int) by (nonlinear_arith)
            requires
                (block as int) * ((own as int) / (block as int)) + ((own as int) % (block as int))
                    == own as int,
                (own as int) % (block as int) >= 0,
        ;
    }
    let base: u64 = (own / block) * block;
    NetworkInfo {
        network_ip: base as u32,
        prefix,
        gateway_ip,
        active_devices: reg.len(),
    }
}

} // verus!
