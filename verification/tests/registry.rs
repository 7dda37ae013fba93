//! Registry tests: creation events, liveness demotion, flags and snapshots.

use netmanager::models::{effective_status, DeviceStatus};
use netmanager::registry::Registry;

const MAC_A: u64 = 0xAABBCCDDEEFF;
const MAC_B: u64 = 0x010203040506;
const IP_A: u32 = 0xC0A80105;
const IP_B: u32 = 0xC0A80106;

#[test]
fn test_new_device_event_once() {
    let mut reg = Registry::new();
    let first = reg.upsert_observed(MAC_A, IP_A, 1_000);
    assert!(first.is_some());
    let created = first.unwrap();
    assert_eq!(created.mac_address, MAC_A);
    assert_eq!(created.ip_address, IP_A);
    assert_eq!(created.status, DeviceStatus::Active);
    assert!(!created.selected);
    assert!(!created.is_killed);
    assert_eq!(created.last_arp_time, Some(1_000));
    assert_eq!(created.hostname, None);
    assert_eq!(created.vendor, None);

    // Re-observing the same identity reports nothing, however often.
    assert!(reg.upsert_observed(MAC_A, IP_A, 2_000).is_none());
    assert!(reg.upsert_observed(MAC_A, IP_B, 3_000).is_none());
    assert_eq!(reg.len(), 1);
}

#[test]
fn test_upsert_updates_in_place() {
    let mut reg = Registry::new();
    reg.upsert_observed(MAC_A, IP_A, 1_000);
    // The address may legitimately change (DHCP); the identity is the MAC.
    reg.upsert_observed(MAC_A, IP_B, 5_000);
    let d = reg.get(MAC_A).unwrap();
    assert_eq!(d.ip_address, IP_B);
    assert_eq!(d.last_arp_time, Some(5_000));
    assert_eq!(reg.len(), 1);
}

#[test]
fn test_last_seen_never_decreases() {
    // An observation carrying an earlier clock reading refreshes the
    // address but never moves the last-seen time backwards.
    let mut reg = Registry::new();
    reg.upsert_observed(MAC_A, IP_A, 5_000);
    reg.upsert_observed(MAC_A, IP_B, 3_000);
    let d = reg.get(MAC_A).unwrap();
    assert_eq!(d.ip_address, IP_B);
    assert_eq!(d.last_arp_time, Some(5_000));
}

#[test]
fn test_observation_resurrects_but_keeps_kill_flag() {
    let mut reg = Registry::new();
    reg.upsert_observed(MAC_A, IP_A, 1_000);
    reg.mark_stale(100_000, 60_000);
    assert_eq!(reg.get(MAC_A).unwrap().status, DeviceStatus::Inactive);
    reg.set_killed(MAC_A, true);
    // An observation resurrects the record whatever its prior status...
    reg.upsert_observed(MAC_A, IP_A, 101_000);
    let d = reg.get(MAC_A).unwrap();
    assert_eq!(d.status, DeviceStatus::Active);
    // ...but the poisoning state is untouched.
    assert!(d.is_killed);
}

#[test]
fn test_killed_record_reads_blocked_not_inactive() {
    let mut reg = Registry::new();
    reg.upsert_observed(MAC_A, IP_A, 1_000);
    reg.set_killed(MAC_A, true);
    // A killed record reads Blocked at once, whatever is stored.
    let d = reg.get(MAC_A).unwrap();
    assert_eq!(d.status, DeviceStatus::Active);
    assert_eq!(effective_status(&d), DeviceStatus::Blocked);
    // Long past the inactivity threshold.
    reg.mark_stale(1_000_000, 60_000);
    let d = reg.get(MAC_A).unwrap();
    assert_eq!(d.status, DeviceStatus::Blocked);
    assert_eq!(effective_status(&d), DeviceStatus::Blocked);
    // Un-killing clears the stored Blocked at once; nothing reads Blocked
    // any more, and the monitor demotes normally from here on.
    reg.set_killed(MAC_A, false);
    let d = reg.get(MAC_A).unwrap();
    assert_eq!(d.status, DeviceStatus::Inactive);
    assert_ne!(effective_status(&d), DeviceStatus::Blocked);
    reg.mark_stale(1_000_000, 60_000);
    assert_eq!(reg.get(MAC_A).unwrap().status, DeviceStatus::Inactive);
}

#[test]
fn test_restored_record_not_shown_blocked() {
    // Blocked is shown iff the kill flag is set: within one restore, a
    // previously blocked record stops reading Blocked on every path.
    let mut reg = Registry::new();
    reg.upsert_observed(MAC_A, IP_A, 1_000);
    reg.upsert_observed(MAC_B, IP_B, 1_000);
    reg.kill_all_devices();
    reg.mark_stale(1_000_000, 60_000);
    assert_eq!(effective_status(&reg.get(MAC_A).unwrap()), DeviceStatus::Blocked);
    assert_eq!(effective_status(&reg.get(MAC_B).unwrap()), DeviceStatus::Blocked);
    let restored = reg.restore_all_devices();
    assert_eq!(restored.len(), 2);
    for mac in [MAC_A, MAC_B] {
        let d = reg.get(mac).unwrap();
        assert!(!d.is_killed);
        assert_ne!(d.status, DeviceStatus::Blocked);
        assert_ne!(effective_status(&d), DeviceStatus::Blocked);
    }
}

#[test]
fn test_demotion_reported_once() {
    let mut reg = Registry::new();
    reg.upsert_observed(MAC_A, IP_A, 1_000);
    reg.upsert_observed(MAC_B, IP_B, 99_000);
    let demoted = reg.mark_stale(100_000, 60_000);
    assert_eq!(demoted, vec![MAC_A]);
    let before = reg.get(MAC_A).unwrap();
    // Later ticks, whatever their clock or threshold, find the unkilled
    // record already Inactive: they report nothing and change nothing.
    let again = reg.mark_stale(130_000, 60_000);
    assert!(again.is_empty());
    // A much later, stricter tick newly demotes the other record — once —
    // but never re-reports the one already Inactive.
    let later = reg.mark_stale(5_000_000, 10_000);
    assert_eq!(later, vec![MAC_B]);
    let after = reg.get(MAC_A).unwrap();
    assert_eq!(after.status, before.status);
    assert_eq!(after.ip_address, before.ip_address);
    assert_eq!(after.mac_address, before.mac_address);
    assert_eq!(after.last_arp_time, before.last_arp_time);
    assert_eq!(after.selected, before.selected);
    assert_eq!(after.is_killed, before.is_killed);
    assert_eq!(after.hostname, before.hostname);
    assert_eq!(after.vendor, before.vendor);
    assert_eq!(reg.get(MAC_A).unwrap().status, DeviceStatus::Inactive);
    assert_eq!(reg.get(MAC_B).unwrap().status, DeviceStatus::Inactive);
}

#[test]
fn test_never_seen_record_not_demoted() {
    let mut reg = Registry::new();
    reg.upsert_observed(MAC_A, IP_A, 50_000);
    // Within the threshold: nothing happens.
    let demoted = reg.mark_stale(100_000, 60_000);
    assert!(demoted.is_empty());
    assert_eq!(reg.get(MAC_A).unwrap().status, DeviceStatus::Active);
}

#[test]
fn test_set_flags_idempotent() {
    let mut reg = Registry::new();
    reg.upsert_observed(MAC_A, IP_A, 1_000);
    reg.set_selected(MAC_A, true);
    reg.set_selected(MAC_A, true);
    assert!(reg.get(MAC_A).unwrap().selected);
    let was = reg.set_killed(MAC_A, true);
    assert!(!was);
    let was = reg.set_killed(MAC_A, true);
    assert!(was);
    assert!(reg.get(MAC_A).unwrap().is_killed);
    // Flags on an unknown identity change nothing.
    reg.set_selected(MAC_B, true);
    assert!(reg.get(MAC_B).is_none());
    assert_eq!(reg.len(), 1);
}

#[test]
fn test_kill_and_restore_selected() {
    let mut reg = Registry::new();
    reg.upsert_observed(MAC_A, IP_A, 1_000);
    reg.upsert_observed(MAC_B, IP_B, 1_000);
    reg.set_selected(MAC_A, true);
    reg.kill_selected_devices();
    assert!(reg.get(MAC_A).unwrap().is_killed);
    assert!(!reg.get(MAC_B).unwrap().is_killed);
    let restored = reg.restore_selected_devices();
    assert_eq!(restored.len(), 1);
    assert_eq!(restored[0].mac_address, MAC_A);
    assert!(!reg.get(MAC_A).unwrap().is_killed);
}

#[test]
fn test_select_all_and_deselect_all() {
    let mut reg = Registry::new();
    reg.upsert_observed(MAC_A, IP_A, 1_000);
    reg.upsert_observed(MAC_B, IP_B, 1_000);
    reg.set_all_selected(true);
    assert!(reg.get(MAC_A).unwrap().selected);
    assert!(reg.get(MAC_B).unwrap().selected);
    reg.kill_selected_devices();
    assert!(reg.get(MAC_A).unwrap().is_killed);
    assert!(reg.get(MAC_B).unwrap().is_killed);
    reg.set_all_selected(false);
    assert!(!reg.get(MAC_A).unwrap().selected);
    // Deselecting clears only the selection, never the poisoning state.
    assert!(reg.get(MAC_A).unwrap().is_killed);
}

#[test]
fn test_kill_and_restore_all() {
    let mut reg = Registry::new();
    reg.upsert_observed(MAC_A, IP_A, 1_000);
    reg.upsert_observed(MAC_B, IP_B, 1_000);
    reg.kill_all_devices();
    assert!(reg.get(MAC_A).unwrap().is_killed);
    assert!(reg.get(MAC_B).unwrap().is_killed);
    let restored = reg.restore_all_devices();
    assert_eq!(restored.len(), 2);
    assert!(!reg.get(MAC_A).unwrap().is_killed);
    assert!(!reg.get(MAC_B).unwrap().is_killed);
}

#[test]
fn test_registry_never_removes() {
    let mut reg = Registry::new();
    reg.upsert_observed(MAC_A, IP_A, 1_000);
    reg.upsert_observed(MAC_B, IP_B, 1_000);
    reg.mark_stale(1_000_000, 60_000);
    reg.kill_all_devices();
    reg.restore_all_devices();
    reg.upsert_observed(MAC_A, IP_B, 2_000_000);
    assert_eq!(reg.len(), 2);
}

#[test]
fn test_snapshot_and_killed_targets() {
    let mut reg = Registry::new();
    reg.upsert_observed(MAC_A, IP_A, 1_000);
    reg.upsert_observed(MAC_B, IP_B, 1_000);
    let snap = reg.snapshot();
    assert_eq!(snap.len(), 2);
    let mut macs: Vec<u64> = snap.iter().map(|d| d.mac_address).collect();
    macs.sort();
    assert_eq!(macs, vec![MAC_B, MAC_A]);

    assert!(reg.killed_targets().is_empty());
    reg.set_killed(MAC_B, true);
    let targets = reg.killed_targets();
    assert_eq!(targets.len(), 1);
    assert_eq!(targets[0].mac_address, MAC_B);
    assert_eq!(targets[0].ip_address, IP_B);
}
