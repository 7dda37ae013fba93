//! Spoofing and restoration tests: the forged reply pairs of one poisoning
//! tick and the corrective pair sent on un-killing.

use netmanager::codec::{build_arp_reply, parse, DecodedFrame};
use netmanager::registry::Registry;
use netmanager::spoof::{detect_proxy_arp, poison_frames, poison_plans, restore_frames};

const ATTACKER_MAC: u64 = 0x112233445566;
const GATEWAY_MAC: u64 = 0x0A0B0C0D0E0F;
const GATEWAY_IP: u32 = 0xC0A80101; // 192.168.1.1
const VICTIM_MAC: u64 = 0xAABBCCDDEEFF;
const VICTIM_IP: u32 = 0xC0A80105; // 192.168.1.5

#[test]
fn test_poison_pair_forges_both_sides() {
    let pair = poison_frames(ATTACKER_MAC, GATEWAY_IP, Some(GATEWAY_MAC), VICTIM_MAC, VICTIM_IP);
    // To the victim: "the gateway's address is at the attacker's interface".
    assert_eq!(
        parse(&pair.to_victim),
        Some(DecodedFrame::ArpReply {
            sender_mac: ATTACKER_MAC,
            sender_ip: GATEWAY_IP,
            target_mac: VICTIM_MAC,
            target_ip: VICTIM_IP,
        })
    );
    // To the gateway: "the victim's address is at the attacker's interface".
    assert_eq!(
        parse(&pair.to_gateway),
        Some(DecodedFrame::ArpReply {
            sender_mac: ATTACKER_MAC,
            sender_ip: VICTIM_IP,
            target_mac: GATEWAY_MAC,
            target_ip: GATEWAY_IP,
        })
    );
}

#[test]
fn test_poison_pair_gateway_fallback() {
    // An unresolved gateway degrades to the all-zero address; the loop
    // continues rather than aborting.
    let pair = poison_frames(ATTACKER_MAC, GATEWAY_IP, None, VICTIM_MAC, VICTIM_IP);
    assert_eq!(
        parse(&pair.to_gateway),
        Some(DecodedFrame::ArpReply {
            sender_mac: ATTACKER_MAC,
            sender_ip: VICTIM_IP,
            target_mac: 0,
            target_ip: GATEWAY_IP,
        })
    );
}

#[test]
fn test_one_tick_poisons_each_killed_target() {
    // Marking the record killed yields, within one tick, exactly its two
    // forged replies.
    let mut reg = Registry::new();
    reg.upsert_observed(VICTIM_MAC, VICTIM_IP, 1_000);
    reg.upsert_observed(0x020203040506, 0xC0A80107, 1_000);
    reg.set_killed(VICTIM_MAC, true);
    let targets = reg.killed_targets();
    assert_eq!(targets.len(), 1);
    let plans = poison_plans(&targets, ATTACKER_MAC, GATEWAY_IP, Some(GATEWAY_MAC));
    assert_eq!(plans.len(), 1);
    let expected = poison_frames(ATTACKER_MAC, GATEWAY_IP, Some(GATEWAY_MAC), VICTIM_MAC, VICTIM_IP);
    assert_eq!(plans[0].to_victim, expected.to_victim);
    assert_eq!(plans[0].to_gateway, expected.to_gateway);
    // Un-flagging stops the poisoning on the next tick.
    reg.set_killed(VICTIM_MAC, false);
    assert!(reg.killed_targets().is_empty());
}

#[test]
fn test_restore_pair_reasserts_true_mappings() {
    let plan = restore_frames(VICTIM_MAC, VICTIM_IP, GATEWAY_IP, Some(GATEWAY_MAC));
    assert!(!plan.degraded);
    // To the gateway: the victim's true mapping.
    assert_eq!(
        parse(&plan.to_gateway),
        Some(DecodedFrame::ArpReply {
            sender_mac: VICTIM_MAC,
            sender_ip: VICTIM_IP,
            target_mac: GATEWAY_MAC,
            target_ip: GATEWAY_IP,
        })
    );
    // To the victim: the gateway's true mapping.
    let to_victim = plan.to_victim.expect("full restoration with a known gateway");
    assert_eq!(
        parse(&to_victim),
        Some(DecodedFrame::ArpReply {
            sender_mac: GATEWAY_MAC,
            sender_ip: GATEWAY_IP,
            target_mac: VICTIM_MAC,
            target_ip: VICTIM_IP,
        })
    );
    assert_eq!(to_victim, build_arp_reply(GATEWAY_MAC, GATEWAY_IP, VICTIM_MAC, VICTIM_IP));
}

#[test]
fn test_restore_without_gateway_mac_is_degraded() {
    let plan = restore_frames(VICTIM_MAC, VICTIM_IP, GATEWAY_IP, None);
    assert!(plan.degraded);
    assert!(plan.to_victim.is_none());
}

#[test]
fn test_detect_proxy_arp() {
    let mut reg = Registry::new();
    reg.upsert_observed(VICTIM_MAC, VICTIM_IP, 1_000);
    assert!(!detect_proxy_arp(&reg, GATEWAY_MAC));
    // The gateway's hardware address answering among the discovered devices
    // is the proxy-ARP signature.
    reg.upsert_observed(GATEWAY_MAC, VICTIM_IP, 2_000);
    assert!(detect_proxy_arp(&reg, GATEWAY_MAC));
}
