//! The device record and its transitions: what an observation, a liveness
//! pass, and the selection/kill flags do to a record.

use vstd::prelude::*;

verus! {

/// Liveness state of a device. `Blocked` is a derived, advisory view: the
/// authoritative poisoning state is the record's `is_killed` flag.
#[derive(Clone, Copy, Debug, PartialEq, Eq, Structural)]
pub enum DeviceStatus {
    Active,
    Inactive,
    Blocked,
    Unknown,
}

/// One observed host. The hardware address is the stable identity key; the
/// IPv4 address may legitimately change across observations. `hostname` and
/// `vendor` are best-effort and `None` until resolved. `selected` and
/// `is_killed` are set only by the external caller, never by the engine on
/// its own initiative.
#[derive(Clone, Debug)]
pub struct NetworkDevice {
    pub ip_address: u32,
    pub hostname: Option<String>,
    pub mac_address: u64,
    pub vendor: Option<String>,
    pub status: DeviceStatus,
    pub last_arp_time: Option<u64>,
    pub selected: bool,
    pub is_killed: bool,
}

/// Process-wide snapshot of the scanned network; recomputed on each scan,
/// never persisted.
#[derive(Clone, Copy, Debug, PartialEq, Eq, Structural)]
pub struct NetworkInfo {
    pub network_ip: u32,
    pub prefix: u8,
    pub gateway_ip: u32,
    pub active_devices: usize,
}

/// The record created on the first frame attributed to an identity: active,
/// unselected, not killed, names unresolved.
pub open spec fn fresh_device(mac: u64, ip: u32, timestamp: u64) -> NetworkDevice {
    NetworkDevice {
        ip_address: ip,
        hostname: None,
        mac_address: mac,
        vendor: None,
        status: DeviceStatus::Active,
        last_arp_time: Some(timestamp),
        selected: false,
        is_killed: false,
    }
}

/// Build the record created on first observation.
pub fn new_device(mac: u64, ip: u32, timestamp: u64) -> (r: NetworkDevice)
    ensures
        r == fresh_device(mac, ip, timestamp),
{
    NetworkDevice {
        ip_address: ip,
        hostname: None,
        mac_address: mac,
        vendor: None,
        status: DeviceStatus::Active,
        last_arp_time: Some(timestamp),
        selected: false,
        is_killed: false,
    }
}

/// The last-seen time after an observation: never earlier than what is
/// already stored, so the field is monotone even if the caller's clock
/// steps backwards.
pub open spec fn latest_seen(prev: Option<u64>, timestamp: u64) -> u64 {
    match prev {
        Some(t) => if t > timestamp {
            t
        } else {
            timestamp
        },
        None => timestamp,
    }
}

/// What a repeated observation does to an existing record: the address and
/// last-seen time are refreshed and the device is resurrected to `Active`
/// whatever its prior status; the poisoning and selection flags are
/// untouched.
pub open spec fn observed(d: NetworkDevice, ip: u32, timestamp: u64) -> NetworkDevice {
    NetworkDevice {
        ip_address: ip,
        status: DeviceStatus::Active,
        last_arp_time: Some(latest_seen(d.last_arp_time, timestamp)),
        ..d
    }
}

/// Apply an observation to an existing record.
pub fn apply_observation(d: NetworkDevice, ip: u32, timestamp: u64) -> (r: NetworkDevice)
    ensures
        r == observed(d, ip, timestamp),
{
    let seen = match d.last_arp_time {
        Some(t) => if t > timestamp {
            t
        } else {
            timestamp
        },
        None => timestamp,
    };
    NetworkDevice {
        ip_address: ip,
        status: DeviceStatus::Active,
        last_arp_time: Some(seen),
        ..d
    }
}

/// A record is stale when it has been seen and its last-seen time lies more
/// than `timeout` before `now`. A record never observed is not stale.
pub open spec fn is_stale(d: NetworkDevice, now: u64, timeout: u64) -> bool {
    match d.last_arp_time {
        Some(t) => t + timeout < now,
        None => false,
    }
}

/// What one liveness pass does to a record: a stale record is demoted to
/// `Inactive`, unless it is killed — a killed-and-silent target reads as
/// `Blocked`, never `Inactive`. A record that is not stale is untouched.
pub open spec fn stale_step(d: NetworkDevice, now: u64, timeout: u64) -> NetworkDevice {
    if is_stale(d, now, timeout) {
        if d.is_killed {
            NetworkDevice { status: DeviceStatus::Blocked, ..d }
        } else {
            NetworkDevice { status: DeviceStatus::Inactive, ..d }
        }
    } else {
        d
    }
}

/// Apply one liveness pass to a record.
pub fn apply_stale_step(d: NetworkDevice, now: u64, timeout: u64) -> (r: NetworkDevice)
    ensures
        r == stale_step(d, now, timeout),
{
    let stale = match d.last_arp_time {
        Some(t) => now > t && now - t > timeout,
        None => false,
    };
    if stale {
        if d.is_killed {
            NetworkDevice { status: DeviceStatus::Blocked, ..d }
        } else {
            NetworkDevice { status: DeviceStatus::Inactive, ..d }
        }
    } else {
        d
    }
}

/// Whether a liveness pass newly demotes the record to `Inactive`.
pub open spec fn demotes(d: NetworkDevice, now: u64, timeout: u64) -> bool {
    d.status != DeviceStatus::Inactive && stale_step(d, now, timeout).status
        == DeviceStatus::Inactive
}

/// The record with its selection flag set.
pub open spec fn with_selected(d: NetworkDevice, value: bool) -> NetworkDevice {
    NetworkDevice { selected: value, ..d }
}

/// The record with its kill flag set. An explicit restore also clears a
/// stored `Blocked` status — written only by the liveness pass for a stale
/// killed record — back to `Inactive`, so the stored status never outlives
/// the flag it derives from.
pub open spec fn with_killed(d: NetworkDevice, value: bool) -> NetworkDevice {
    if !value && d.status == DeviceStatus::Blocked {
        NetworkDevice { is_killed: false, status: DeviceStatus::Inactive, ..d }
    } else {
        NetworkDevice { is_killed: value, ..d }
    }
}

/// Apply a kill-flag transition to one record.
pub fn apply_with_killed(d: NetworkDevice, value: bool) -> (r: NetworkDevice)
    ensures
        r == with_killed(d, value),
{
    if !value && matches!(d.status, DeviceStatus::Blocked) {
        NetworkDevice { is_killed: false, status: DeviceStatus::Inactive, ..d }
    } else {
        NetworkDevice { is_killed: value, ..d }
    }
}

/// The status a caller should display. The kill flag is authoritative:
/// `Blocked` is shown exactly when the flag is set, whatever the stored
/// status holds. An un-killed record mirrors its stored `Active` or
/// `Inactive`; any other stored status reads `Unknown`.
pub open spec fn display_status(d: NetworkDevice) -> DeviceStatus {
    if d.is_killed {
        DeviceStatus::Blocked
    } else {
        match d.status {
            DeviceStatus::Active => DeviceStatus::Active,
            DeviceStatus::Inactive => DeviceStatus::Inactive,
            _ => DeviceStatus::Unknown,
        }
    }
}

/// Compute the status a caller should display: `Blocked` if and only if the
/// record is killed.
pub fn effective_status(d: &NetworkDevice) -> (r: DeviceStatus)
    ensures
        r == display_status(*d),
        (r == DeviceStatus::Blocked) <==> d.is_killed,
{
    if d.is_killed {
        DeviceStatus::Blocked
    } else {
        match d.status {
            DeviceStatus::Active => DeviceStatus::Active,
            DeviceStatus::Inactive => DeviceStatus::Inactive,
            _ => DeviceStatus::Unknown,
        }
    }
}

/// A killed record is never demoted to `Inactive` and always reads
/// `Blocked`: the liveness pass turns a stale killed record `Blocked`, an
/// observation leaves the kill flag (and so this protection) in place, and
/// only an explicit restore removes it — after which neither the shown nor
/// the stored status is `Blocked` any more.
pub proof fn lemma_killed_never_inactive(d: NetworkDevice, now: u64, timeout: u64, ip: u32, ts: u64)
    requires
        d.is_killed,
    ensures
        d.status != DeviceStatus::Inactive ==> stale_step(d, now, timeout).status
            != DeviceStatus::Inactive,
        is_stale(d, now, timeout) ==> stale_step(d, now, timeout).status == DeviceStatus::Blocked,
        observed(d, ip, ts).is_killed,
        stale_step(observed(d, ip, ts), now, timeout).status != DeviceStatus::Inactive,
        display_status(d) == DeviceStatus::Blocked,
        !with_killed(d, false).is_killed,
        display_status(with_killed(d, false)) != DeviceStatus::Blocked,
        with_killed(d, false).status != DeviceStatus::Blocked,
{
}

/// Per-record last-seen time never decreases: an observation stamps the
/// later of the stored and the given time, and no other transition touches
/// the field — so the invariant holds even against a stepping clock.
pub proof fn lemma_last_seen_monotonic(
    d: NetworkDevice,
    ip: u32,
    ts: u64,
    now: u64,
    timeout: u64,
    value: bool,
)
    ensures
        observed(d, ip, ts).last_arp_time == Some(latest_seen(d.last_arp_time, ts)),
        latest_seen(d.last_arp_time, ts) >= ts,
        stale_step(d, now, timeout).last_arp_time == d.last_arp_time,
        with_selected(d, value).last_arp_time == d.last_arp_time,
        with_killed(d, value).last_arp_time == d.last_arp_time,
        match d.last_arp_time {
            Some(t) => latest_seen(d.last_arp_time, ts) >= t,
            None => true,
        },
{
}

/// A stale record is demoted at most once per stale period: one liveness
/// pass is idempotent; once a pass has run, no later pass — whatever its
/// clock or threshold — reports a demotion again; and an `Inactive` record
/// that is not killed is left entirely unchanged by every later pass.
pub proof fn lemma_demotion_reported_once(
    d: NetworkDevice,
    now: u64,
    timeout: u64,
    later: u64,
    timeout2: u64,
)
    ensures
        stale_step(stale_step(d, now, timeout), now, timeout) == stale_step(d, now, timeout),
        !demotes(stale_step(d, now, timeout), now, timeout),
        demotes(d, now, timeout) ==> !demotes(stale_step(d, now, timeout), later, timeout2),
        d.status == DeviceStatus::Inactive && !d.is_killed ==> stale_step(d, later, timeout2) == d,
        d.status == DeviceStatus::Inactive ==> !demotes(d, later, timeout2),
{
}

} // verus!
