//! Device registry: a concurrent map from hardware-address identity to
//! device record, with the upsert, liveness and flag operations the engines
//! run against it. The map itself is dashmap's; every rule applied to its
//! records is verified here.

use vstd::prelude::*;

use dashmap::DashMap;

use crate::models::{
    fresh_device, new_device, apply_observation, apply_stale_step, apply_with_killed, observed,
    stale_step, demotes, with_killed, with_selected, NetworkDevice,
};

verus! {

/// The concurrent map the registry is built on, held opaquely: Verus sees
/// its entries only through `device_map_view`.
#[verifier::external_body]
pub struct DeviceMap {
    inner: DashMap<u64, NetworkDevice>,
}

/// The entries a device map holds, as a mathematical map from identity key
/// to record.
pub uninterp spec fn device_map_view(m: DeviceMap) -> Map<u64, NetworkDevice>;

impl View for DeviceMap {
    type V = Map<u64, NetworkDevice>;

    closed spec fn view(&self) -> Map<u64, NetworkDevice> {
        device_map_view(*self)
    }
}

/// The empty registry contents.
pub open spec fn no_devices() -> Map<u64, NetworkDevice> {
    Map::empty()
}

/// Relies on dashmap::DashMap::new: creates an empty map.
#[verifier::external_body]
fn device_map_new() -> (created: DeviceMap)
    ensures
        created@ == no_devices(),
{
    DeviceMap { inner: DashMap::new() }
}

/// Relies on dashmap::DashMap::get: returns a guard for the entry under the
/// key, if present; the body clones the record out of the guard.
#[verifier::external_body]
fn device_map_get(m: &DeviceMap, key: u64) -> (r: Option<NetworkDevice>)
    ensures
        r == if device_map_view(*m).dom().contains(key) {
            Some(device_map_view(*m)[key])
        } else {
            None::<NetworkDevice>
        },
{
    m.inner.get(&key).map(|entry| entry.value().clone())
}

/// Relies on dashmap::DashMap::insert: maps the key to the value, replacing
/// any previous entry.
#[verifier::external_body]
fn device_map_insert(m: &mut DeviceMap, key: u64, value: NetworkDevice)
    ensures
        final(m)@ == old(m)@.insert(key, value),
{
    m.inner.insert(key, value);
}

/// Relies on dashmap::DashMap::iter: visits every entry exactly once, in no
/// fixed order; the body collects the keys.
#[verifier::external_body]
fn device_map_keys(m: &DeviceMap) -> (r: Vec<u64>)
    ensures
        r@.no_duplicates(),
        forall|k: u64| #[trigger] r@.contains(k) <==> device_map_view(*m).dom().contains(k),
        r@.len() == device_map_view(*m).dom().len(),
{
    m.inner.iter().map(|entry| *entry.key()).collect()
}

/// Relies on dashmap::DashMap::len: the number of entries.
#[verifier::external_body]
fn device_map_len(m: &DeviceMap) -> (r: usize)
    ensures
        r == device_map_view(*m).dom().len(),
{
    m.inner.len()
}

/// Whether an upsert of this identity reports a "new device" event.
pub open spec fn upsert_creates(m: Map<u64, NetworkDevice>, mac: u64) -> bool {
    !m.dom().contains(mac)
}

/// The record an upsert leaves under the identity: a fresh record for an
/// unknown identity, the observation applied to the existing record
/// otherwise.
pub open spec fn upserted_device(
    m: Map<u64, NetworkDevice>,
    mac: u64,
    ip: u32,
    timestamp: u64,
) -> NetworkDevice {
    if m.dom().contains(mac) {
        observed(m[mac], ip, timestamp)
    } else {
        fresh_device(mac, ip, timestamp)
    }
}

/// The registry contents after an upsert.
pub open spec fn upserted_map(
    m: Map<u64, NetworkDevice>,
    mac: u64,
    ip: u32,
    timestamp: u64,
) -> Map<u64, NetworkDevice> {
    m.insert(mac, upserted_device(m, mac, ip, timestamp))
}

/// The registry of discovered devices, keyed by hardware address. Records
/// are created on first observation and never removed; absence from the
/// network is represented by status, not by removal.
pub struct Registry {
    devices: DeviceMap,
}

impl Registry {
    /// The registry contents as a mathematical map.
    pub closed spec fn contents(self) -> Map<u64, NetworkDevice> {
        device_map_view(self.devices)
    }

    /// Every record sits under its own hardware address.
    pub open spec fn wf(self) -> bool {
        forall|k: u64| #[trigger]
            self.contents().dom().contains(k) ==> self.contents()[k].mac_address == k
    }

    /// Create an empty registry.
    pub fn new() -> (r: Registry)
        ensures
            r.wf(),
            r.contents() == no_devices(),
    {
        Registry { devices: device_map_new() }
    }

    /// Look up the record under an identity.
    pub fn get(&self, mac: u64) -> (r: Option<NetworkDevice>)
        ensures
            r == if self.contents().dom().contains(mac) {
                Some(self.contents()[mac])
            } else {
                None::<NetworkDevice>
            },
    {
        device_map_get(&self.devices, mac)
    }

    /// The number of records.
    pub fn len(&self) -> (r: usize)
        ensures
            r == self.contents().dom().len(),
    {
        device_map_len(&self.devices)
    }

    /// Record an observation of `mac` at `ip`. An unknown identity gets a
    /// fresh active record, returned as the "new device" event — reported
    /// exactly once per identity. A known identity has its address and
    /// last-seen time refreshed and is resurrected to `Active`; its flags
    /// are untouched and no event is reported.
    pub fn upsert_observed(&mut self, mac: u64, ip: u32, timestamp: u64) -> (created: Option<
        NetworkDevice,
    >)
        requires
            old(self).wf(),
        ensures
            final(self).wf(),
            final(self).contents() == upserted_map(old(self).contents(), mac, ip, timestamp),
            created == if upsert_creates(old(self).contents(), mac) {
                Some(fresh_device(mac, ip, timestamp))
            } else {
                None::<NetworkDevice>
            },
    {
        match device_map_get(&self.devices, mac) {
            Some(existing) => {
                let updated = apply_observation(existing, ip, timestamp);
                device_map_insert(&mut self.devices, mac, updated);
                None
            },
            None => {
                device_map_insert(&mut self.devices, mac, new_device(mac, ip, timestamp));
                Some(new_device(mac, ip, timestamp))
            },
        }
    }

    /// Set the selection flag of an identity, if present; idempotent.
    pub fn set_selected(&mut self, mac: u64, value: bool)
        requires
            old(self).wf(),
        ensures
            final(self).wf(),
            final(self).contents() == if old(self).contents().dom().contains(mac) {
                old(self).contents().insert(mac, with_selected(old(self).contents()[mac], value))
            } else {
                old(self).contents()
            },
    {
        match device_map_get(&self.devices, mac) {
            Some(existing) => {
                let updated = NetworkDevice { selected: value, ..existing };
                device_map_insert(&mut self.devices, mac, updated);
            },
            None => {},
        }
    }

    /// Set the kill flag of an identity, if present; idempotent. Returns
    /// whether the record was killed before the call, so a caller can see
    /// the flag transition that obliges a corrective re-announcement.
    pub fn set_killed(&mut self, mac: u64, value: bool) -> (was_killed: bool)
        requires
            old(self).wf(),
        ensures
            final(self).wf(),
            final(self).contents() == if old(self).contents().dom().contains(mac) {
                old(self).contents().insert(mac, with_killed(old(self).contents()[mac], value))
            } else {
                old(self).contents()
            },
            was_killed == (old(self).contents().dom().contains(mac)
                && old(self).contents()[mac].is_killed),
    {
        match device_map_get(&self.devices, mac) {
            Some(existing) => {
                let was = existing.is_killed;
                let updated = apply_with_killed(existing, value);
                device_map_insert(&mut self.devices, mac, updated);
                was
            },
            None => false,
        }
    }

    /// One liveness pass: apply `stale_step` to every record, demoting stale
    /// unkilled records to `Inactive` and stale killed ones to `Blocked`.
    /// Returns exactly the identities newly demoted to `Inactive`, so a
    /// caller logs each demotion once, not on every tick.
    pub fn mark_stale(&mut self, now: u64, timeout: u64) -> (demoted: Vec<u64>)
        requires
            old(self).wf(),
        ensures
            final(self).wf(),
            final(self).contents().dom() == old(self).contents().dom(),
            forall|k: u64| #[trigger]
                old(self).contents().dom().contains(k) ==> final(self).contents()[k] == stale_step(
                    old(self).contents()[k],
                    now,
                    timeout,
                ),
            demoted@.no_duplicates(),
            forall|jd: int|
                0 <= jd < demoted@.len() ==> old(self).contents().dom().contains(
                    #[trigger] demoted@[jd],
                ) && demotes(old(self).contents()[demoted@[jd]], now, timeout),
            forall|k: u64|
                old(self).contents().dom().contains(k) && demotes(
                    #[trigger] old(self).contents()[k],
                    now,
                    timeout,
                ) ==> demoted@.contains(k),
    {
        let keys = device_map_keys(&self.devices);
        let mut demoted: Vec<u64> = Vec::new();
        let mut i: usize = 0;
        while i < keys.len()
            invariant
                old(self).wf(),
                i <= keys@.len(),
                keys@.no_duplicates(),
                forall|k: u64| #[trigger]
                    keys@.contains(k) <==> old(self).contents().dom().contains(k),
                self.contents().dom() == old(self).contents().dom(),
                forall|j: int|
                    0 <= j < i ==> self.contents()[#[trigger] keys@[j]] == stale_step(
                        old(self).contents()[keys@[j]],
                        now,
                        timeout,
                    ),
                forall|j: int|
                    i <= j < keys@.len() ==> self.contents()[#[trigger] keys@[j]] == old(
                        self,
                    ).contents()[keys@[j]],
                demoted@.no_duplicates(),
                forall|jd: int|
                    0 <= jd < demoted@.len() ==> old(self).contents().dom().contains(
                        #[trigger] demoted@[jd],
                    ) && demotes(old(self).contents()[demoted@[jd]], now, timeout),
                forall|jd: int|
                    0 <= jd < demoted@.len() ==> exists|j: int|
                        0 <= j < i && keys@[j] == #[trigger] demoted@[jd],
                forall|j: int|
                    0 <= j < i && demotes(old(self).contents()[#[trigger] keys@[j]], now, timeout)
                        ==> demoted@.contains(keys@[j]),
            decreases keys@.len() - i,
        {
            let k = keys[i];
            proof {
                assert(keys@.contains(keys@[i as int]));
            }
            match device_map_get(&self.devices, k) {
                Some(d) => {
                    let ghost d0 = d;
                    proof {
                        assert(self.contents()[keys@[i as int]] == old(self).contents()[keys@[
                            i as int]]);
                        assert(d0 == old(self).contents()[k]);
                    }
                    let was_inactive = matches!(d.status, crate::models::DeviceStatus::Inactive);
                    let nd = apply_stale_step(d, now, timeout);
                    let newly_inactive = !was_inactive && matches!(
                        nd.status,
                        crate::models::DeviceStatus::Inactive,
                    );
                    proof {
                        assert(newly_inactive == demotes(d0, now, timeout));
                    }
                    let ghost demoted_pre = demoted@;
                    if newly_inactive {
                        proof {
                            assert forall|jd: int| 0 <= jd < demoted@.len() implies demoted@[jd]
                                != k by {
                                let j = choose|j: int| 0 <= j < i && keys@[j] == demoted@[jd];
                                assert(keys@[j] != keys@[i as int]);
                            }
                        }
                        demoted.push(k);
                        proof {
                            assert(demoted@.no_duplicates()) by {
                                assert forall|a: int, b: int|
                                    0 <= a < b < demoted@.len() implies demoted@[a]
                                    != demoted@[b] by {
                                    if b + 1 < demoted@.len() + 1 && b < demoted_pre.len() {
                                        assert(demoted_pre[a] != demoted_pre[b]);
                                    }
                                }
                            }
                            assert(exists|j: int|
                                0 <= j < i + 1 && keys@[j] == demoted@[demoted@.len() - 1]) by {
                                assert(keys@[i as int] == demoted@[demoted@.len() - 1]);
                            }
                        }
                    }
                    device_map_insert(&mut self.devices, k, nd);
                    proof {
                        assert(self.contents().dom() =~= old(self).contents().dom());
                        assert forall|j: int|
                            0 <= j < i + 1 && demotes(
                                old(self).contents()[keys@[j]],
                                now,
                                timeout,
                            ) implies demoted@.contains(keys@[j]) by {
                            if j < i {
                                let jd = choose|jd: int|
                                    0 <= jd < demoted_pre.len() && demoted_pre[jd] == keys@[j];
                                assert(demoted@[jd] == keys@[j]);
                            } else {
                                assert(demoted@[demoted@.len() - 1] == k);
                            }
                        }
                    }
                },
                None => {
                    proof {
                        assert(false);
                    }
                },
            }
            i = i + 1;
        }
        proof {
            assert forall|k: u64| old(self).contents().dom().contains(k) implies self.contents()[k]
                == stale_step(old(self).contents()[k], now, timeout) by {
                assert(keys@.contains(k));
                let j = choose|j: int| 0 <= j < keys@.len() && keys@[j] == k;
            }
            assert forall|k: u64|
                old(self).contents().dom().contains(k) && demotes(
                    old(self).contents()[k],
                    now,
                    timeout,
                ) implies demoted@.contains(k) by {
                assert(keys@.contains(k));
                let j = choose|j: int| 0 <= j < keys@.len() && keys@[j] == k;
            }
            assert forall|k: u64| self.contents().dom().contains(k) implies self.contents()[k].mac_address
                == k by {
                assert(old(self).contents().dom().contains(k));
            }
        }
        demoted
    }

    /// Apply a flag transition to every record, returning the records whose
    /// kill flag the transition cleared — those owed a corrective
    /// re-announcement.
    fn apply_flag_op(&mut self, op: FlagOp) -> (restored: Vec<NetworkDevice>)
        requires
            old(self).wf(),
        ensures
            final(self).wf(),
            final(self).contents().dom() == old(self).contents().dom(),
            forall|k: u64| #[trigger]
                old(self).contents().dom().contains(k) ==> final(self).contents()[k] == flag_step(
                    op,
                    old(self).contents()[k],
                ),
            forall|j: int|
                0 <= j < restored@.len() ==> {
                    let d = #[trigger] restored@[j];
                    &&& old(self).contents().dom().contains(d.mac_address)
                    &&& old(self).contents()[d.mac_address] == d
                    &&& d.is_killed
                    &&& !flag_step(op, d).is_killed
                },
            forall|k: u64|
                old(self).contents().dom().contains(k) && (#[trigger] old(
                    self,
                ).contents()[k]).is_killed && !flag_step(op, old(self).contents()[k]).is_killed
                    ==> exists|j: int| 0 <= j < restored@.len() && restored@[j].mac_address == k,
    {
        let keys = device_map_keys(&self.devices);
        let mut restored: Vec<NetworkDevice> = Vec::new();
        let mut i: usize = 0;
        while i < keys.len()
            invariant
                old(self).wf(),
                i <= keys@.len(),
                keys@.no_duplicates(),
                forall|k: u64| #[trigger]
                    keys@.contains(k) <==> old(self).contents().dom().contains(k),
                self.contents().dom() == old(self).contents().dom(),
                forall|j: int|
                    0 <= j < i ==> self.contents()[#[trigger] keys@[j]] == flag_step(
                        op,
                        old(self).contents()[keys@[j]],
                    ),
                forall|j: int|
                    i <= j < keys@.len() ==> self.contents()[#[trigger] keys@[j]] == old(
                        self,
                    ).contents()[keys@[j]],
                forall|j: int|
                    0 <= j < restored@.len() ==> {
                        let d = #[trigger] restored@[j];
                        &&& old(self).contents().dom().contains(d.mac_address)
                        &&& old(self).contents()[d.mac_address] == d
                        &&& d.is_killed
                        &&& !flag_step(op, d).is_killed
                    },
                forall|jr: int|
                    0 <= jr < restored@.len() ==> exists|j: int|
                        0 <= j < i && keys@[j] == (#[trigger] restored@[jr]).mac_address,
                forall|j: int|
                    0 <= j < i && (#[trigger] old(self).contents()[keys@[j]]).is_killed
                        && !flag_step(op, old(self).contents()[keys@[j]]).is_killed ==> exists|
                        jr: int,
                    | 0 <= jr < restored@.len() && restored@[jr].mac_address == keys@[j],
            decreases keys@.len() - i,
        {
            let k = keys[i];
            proof {
                assert(keys@.contains(keys@[i as int]));
            }
            match device_map_get(&self.devices, k) {
                Some(d) => {
                    let ghost d0 = d;
                    proof {
                        assert(self.contents()[keys@[i as int]] == old(self).contents()[keys@[
                            i as int]]);
                        assert(d0 == old(self).contents()[k]);
                        assert(d0.mac_address == k);
                    }
                    let was_killed = d.is_killed;
                    let nd = apply_flag_step(op, d);
                    let cleared = was_killed && !nd.is_killed;
                    let ghost restored_pre = restored@;
                    if cleared {
                        match device_map_get(&self.devices, k) {
                            Some(again) => {
                                restored.push(again);
                            },
                            None => {
                                proof {
                                    assert(false);
                                }
                            },
                        }
                        proof {
                            assert(restored@[restored@.len() - 1] == d0);
                            assert(exists|j: int|
                                0 <= j < i + 1 && keys@[j] == restored@[restored@.len()
                                    - 1].mac_address) by {
                                assert(keys@[i as int] == restored@[restored@.len()
                                    - 1].mac_address);
                            }
                        }
                    }
                    device_map_insert(&mut self.devices, k, nd);
                    proof {
                        assert(self.contents().dom() =~= old(self).contents().dom());
                        assert forall|j: int|
                            0 <= j < i + 1 && (old(self).contents()[keys@[j]]).is_killed
                                && !flag_step(op, old(self).contents()[keys@[j]]).is_killed implies
                            exists|jr: int|
                                0 <= jr < restored@.len() && restored@[jr].mac_address
                                    == keys@[j] by {
                            if j < i {
                                let jr = choose|jr: int|
                                    0 <= jr < restored_pre.len() && restored_pre[jr].mac_address
                                        == keys@[j];
                                assert(restored@[jr].mac_address == keys@[j]);
                            } else {
                                assert(restored@[restored@.len() - 1].mac_address == k);
                            }
                        }
                    }
                },
                None => {
                    proof {
                        assert(false);
                    }
                },
            }
            i = i + 1;
        }
        proof {
            assert forall|k: u64| old(self).contents().dom().contains(k) implies self.contents()[k]
                == flag_step(op, old(self).contents()[k]) by {
                assert(keys@.contains(k));
                let j = choose|j: int| 0 <= j < keys@.len() && keys@[j] == k;
            }
            assert forall|k: u64|
                old(self).contents().dom().contains(k) && (old(self).contents()[k]).is_killed
                    && !flag_step(op, old(self).contents()[k]).is_killed implies exists|j: int|
                0 <= j < restored@.len() && restored@[j].mac_address == k by {
                assert(keys@.contains(k));
                let j = choose|j: int| 0 <= j < keys@.len() && keys@[j] == k;
            }
            assert forall|k: u64| self.contents().dom().contains(k) implies self.contents()[k].mac_address
                == k by {
                assert(old(self).contents().dom().contains(k));
            }
        }
        restored
    }

    /// A snapshot of every record, in no fixed order, one per identity.
    pub fn snapshot(&self) -> (r: Vec<NetworkDevice>)
        requires
            self.wf(),
        ensures
            r@.len() == self.contents().dom().len(),
            forall|j: int|
                0 <= j < r@.len() ==> {
                    let d = #[trigger] r@[j];
                    &&& self.contents().dom().contains(d.mac_address)
                    &&& self.contents()[d.mac_address] == d
                },
            forall|k: u64| #[trigger]
                self.contents().dom().contains(k) ==> exists|j: int|
                    0 <= j < r@.len() && r@[j].mac_address == k,
            forall|j1: int, j2: int|
                0 <= j1 < j2 < r@.len() ==> (#[trigger] r@[j1]).mac_address != (
                #[trigger] r@[j2]).mac_address,
    {
        let keys = device_map_keys(&self.devices);
        let mut out: Vec<NetworkDevice> = Vec::new();
        let mut i: usize = 0;
        while i < keys.len()
            invariant
                self.wf(),
                i <= keys@.len(),
                keys@.no_duplicates(),
                forall|k: u64| #[trigger] keys@.contains(k) <==> self.contents().dom().contains(k),
                out@.len() == i,
                forall|j: int|
                    0 <= j < i ==> #[trigger] out@[j] == self.contents()[keys@[j]]
                        && out@[j].mac_address == keys@[j],
            decreases keys@.len() - i,
        {
            let k = keys[i];
            proof {
                assert(keys@.contains(keys@[i as int]));
            }
            match device_map_get(&self.devices, k) {
                Some(d) => {
                    out.push(d);
                },
                None => {
                    proof {
                        assert(false);
                    }
                },
            }
            i = i + 1;
        }
        proof {
            assert forall|j: int| 0 <= j < out@.len() implies {
                let d = #[trigger] out@[j];
                &&& self.contents().dom().contains(d.mac_address)
                &&& self.contents()[d.mac_address] == d
            } by {
                assert(keys@.contains(keys@[j]));
            }
            assert forall|k: u64| self.contents().dom().contains(k) implies exists|j: int|
                0 <= j < out@.len() && out@[j].mac_address == k by {
                assert(keys@.contains(k));
                let j = choose|j: int| 0 <= j < keys@.len() && keys@[j] == k;
                assert(out@[j].mac_address == k);
            }
        }
        out
    }

    /// The records currently flagged killed — the spoofing engine's targets
    /// for one poisoning tick — one per killed identity, in no fixed order.
    pub fn killed_targets(&self) -> (r: Vec<NetworkDevice>)
        requires
            self.wf(),
        ensures
            forall|j: int|
                0 <= j < r@.len() ==> {
                    let d = #[trigger] r@[j];
                    &&& self.contents().dom().contains(d.mac_address)
                    &&& self.contents()[d.mac_address] == d
                    &&& d.is_killed
                },
            forall|k: u64|
                self.contents().dom().contains(k) && (#[trigger] self.contents()[k]).is_killed
                    ==> exists|j: int| 0 <= j < r@.len() && r@[j].mac_address == k,
            forall|j1: int, j2: int|
                0 <= j1 < j2 < r@.len() ==> (#[trigger] r@[j1]).mac_address != (
                #[trigger] r@[j2]).mac_address,
    {
        let keys = device_map_keys(&self.devices);
        let mut out: Vec<NetworkDevice> = Vec::new();
        let mut i: usize = 0;
        while i < keys.len()
            invariant
                self.wf(),
                i <= keys@.len(),
                keys@.no_duplicates(),
                forall|k: u64| #[trigger] keys@.contains(k) <==> self.contents().dom().contains(k),
                forall|j: int|
                    0 <= j < out@.len() ==> {
                        let d = #[trigger] out@[j];
                        &&& self.contents().dom().contains(d.mac_address)
                        &&& self.contents()[d.mac_address] == d
                        &&& d.is_killed
                    },
                forall|jr: int|
                    0 <= jr < out@.len() ==> exists|j: int|
                        0 <= j < i && keys@[j] == (#[trigger] out@[jr]).mac_address,
                forall|j: int|
                    0 <= j < i && (#[trigger] self.contents()[keys@[j]]).is_killed ==> exists|
                        jr: int,
                    | 0 <= jr < out@.len() && out@[jr].mac_address == keys@[j],
                forall|j1: int, j2: int|
                    0 <= j1 < j2 < out@.len() ==> (#[trigger] out@[j1]).mac_address != (
                    #[trigger] out@[j2]).mac_address,
            decreases keys@.len() - i,
        {
            let k = keys[i];
            proof {
                assert(keys@.contains(keys@[i as int]));
            }
            match device_map_get(&self.devices, k) {
                Some(d) => {
                    let ghost out_pre = out@;
                    if d.is_killed {
                        proof {
                            assert forall|jr: int| 0 <= jr < out@.len() implies out@[jr].mac_address
                                != k by {
                                let j = choose|j: int|
                                    0 <= j < i && keys@[j] == out@[jr].mac_address;
                                assert(keys@[j] != keys@[i as int]);
                            }
                        }
                        out.push(d);
                        proof {
                            assert(out@[out@.len() - 1].mac_address == k);
                            assert(exists|j: int|
                                0 <= j < i + 1 && keys@[j] == out@[out@.len() - 1].mac_address) by {
                                assert(keys@[i as int] == out@[out@.len() - 1].mac_address);
                            }
                        }
                    }
                    proof {
                        assert forall|j: int|
                            0 <= j < i + 1 && (self.contents()[keys@[j]]).is_killed implies exists|
                                jr: int,
                            | 0 <= jr < out@.len() && out@[jr].mac_address == keys@[j] by {
                            if j < i {
                                let jr = choose|jr: int|
                                    0 <= jr < out_pre.len() && out_pre[jr].mac_address == keys@[j];
                                assert(out@[jr].mac_address == keys@[j]);
                            } else {
                                assert(out@[out@.len() - 1].mac_address == k);
                            }
                        }
                    }
                },
                None => {
                    proof {
                        assert(false);
                    }
                },
            }
            i = i + 1;
        }
        proof {
            assert forall|k: u64|
                self.contents().dom().contains(k) && (self.contents()[k]).is_killed implies exists|
                    j: int,
                | 0 <= j < out@.len() && out@[j].mac_address == k by {
                assert(keys@.contains(k));
                let j = choose|j: int| 0 <= j < keys@.len() && keys@[j] == k;
            }
        }
        out
    }

    /// Flag every selected record killed; records are only read and
    /// re-flagged, never removed.
    pub fn kill_selected_devices(&mut self)
        requires
            old(self).wf(),
        ensures
            final(self).wf(),
            final(self).contents().dom() == old(self).contents().dom(),
            forall|k: u64| #[trigger]
                old(self).contents().dom().contains(k) ==> final(self).contents()[k]
                    == kill_selected_step(old(self).contents()[k]),
    {
        let _ = self.apply_flag_op(FlagOp::KillSelected);
    }

    /// Clear the kill flag of every selected record; returns the records
    /// whose flag was actually cleared, each owed a corrective
    /// re-announcement.
    pub fn restore_selected_devices(&mut self) -> (restored: Vec<NetworkDevice>)
        requires
            old(self).wf(),
        ensures
            final(self).wf(),
            final(self).contents().dom() == old(self).contents().dom(),
            forall|k: u64| #[trigger]
                old(self).contents().dom().contains(k) ==> final(self).contents()[k]
                    == restore_selected_step(old(self).contents()[k]),
            forall|j: int|
                0 <= j < restored@.len() ==> {
                    let d = #[trigger] restored@[j];
                    &&& old(self).contents().dom().contains(d.mac_address)
                    &&& old(self).contents()[d.mac_address] == d
                    &&& d.is_killed
                    &&& d.selected
                },
            forall|k: u64|
                old(self).contents().dom().contains(k) && (#[trigger] old(
                    self,
                ).contents()[k]).is_killed && old(self).contents()[k].selected ==> exists|j: int|
                    0 <= j < restored@.len() && restored@[j].mac_address == k,
    {
        self.apply_flag_op(FlagOp::RestoreSelected)
    }

    /// Flag every record killed.
    pub fn kill_all_devices(&mut self)
        requires
            old(self).wf(),
        ensures
            final(self).wf(),
            final(self).contents().dom() == old(self).contents().dom(),
            forall|k: u64| #[trigger]
                old(self).contents().dom().contains(k) ==> final(self).contents()[k] == with_killed(
                    old(self).contents()[k],
                    true,
                ),
    {
        let _ = self.apply_flag_op(FlagOp::KillAll);
    }

    /// Set or clear the selection flag of every record at once.
    pub fn set_all_selected(&mut self, value: bool)
        requires
            old(self).wf(),
        ensures
            final(self).wf(),
            final(self).contents().dom() == old(self).contents().dom(),
            forall|k: u64| #[trigger]
                old(self).contents().dom().contains(k) ==> final(self).contents()[k]
                    == with_selected(old(self).contents()[k], value),
    {
        let _ = self.apply_flag_op(
            if value {
                FlagOp::SelectAll
            } else {
                FlagOp::DeselectAll
            },
        );
    }

    /// Clear the kill flag of every record; returns the records whose flag
    /// was actually cleared, each owed a corrective re-announcement.
    pub fn restore_all_devices(&mut self) -> (restored: Vec<NetworkDevice>)
        requires
            old(self).wf(),
        ensures
            final(self).wf(),
            final(self).contents().dom() == old(self).contents().dom(),
            forall|k: u64| #[trigger]
                old(self).contents().dom().contains(k) ==> final(self).contents()[k] == with_killed(
                    old(self).contents()[k],
                    false,
                ),
            forall|j: int|
                0 <= j < restored@.len() ==> {
                    let d = #[trigger] restored@[j];
                    &&& old(self).contents().dom().contains(d.mac_address)
                    &&& old(self).contents()[d.mac_address] == d
                    &&& d.is_killed
                },
            forall|k: u64|
                old(self).contents().dom().contains(k) && (#[trigger] old(
                    self,
                ).contents()[k]).is_killed ==> exists|j: int|
                    0 <= j < restored@.len() && restored@[j].mac_address == k,
    {
        self.apply_flag_op(FlagOp::RestoreAll)
    }
}

/// The four flag transitions the external caller can trigger over the whole
/// registry.
#[derive(Clone, Copy, Debug, PartialEq, Eq, Structural)]
enum FlagOp {
    KillSelected,
    RestoreSelected,
    KillAll,
    RestoreAll,
    SelectAll,
    DeselectAll,
}

/// What a flag operation does to one record.
spec fn flag_step(op: FlagOp, d: NetworkDevice) -> NetworkDevice {
    match op {
        FlagOp::KillSelected => kill_selected_step(d),
        FlagOp::RestoreSelected => restore_selected_step(d),
        FlagOp::KillAll => with_killed(d, true),
        FlagOp::RestoreAll => with_killed(d, false),
        FlagOp::SelectAll => with_selected(d, true),
        FlagOp::DeselectAll => with_selected(d, false),
    }
}

/// What killing the selected records does to one record.
pub open spec fn kill_selected_step(d: NetworkDevice) -> NetworkDevice {
    if d.selected {
        with_killed(d, true)
    } else {
        d
    }
}

/// What restoring the selected records does to one record.
pub open spec fn restore_selected_step(d: NetworkDevice) -> NetworkDevice {
    if d.selected {
        with_killed(d, false)
    } else {
        d
    }
}

/// Apply a flag transition to one record.
fn apply_flag_step(op: FlagOp, d: NetworkDevice) -> (r: NetworkDevice)
    ensures
        r == flag_step(op, d),
{
    match op {
        FlagOp::KillSelected => {
            if d.selected {
                apply_with_killed(d, true)
            } else {
                d
            }
        },
        FlagOp::RestoreSelected => {
            if d.selected {
                apply_with_killed(d, false)
            } else {
                d
            }
        },
        FlagOp::KillAll => apply_with_killed(d, true),
        FlagOp::RestoreAll => apply_with_killed(d, false),
        FlagOp::SelectAll => NetworkDevice { selected: true, ..d },
        FlagOp::DeselectAll => NetworkDevice { selected: false, ..d },
    }
}

/// A "new device" event is reported only for an identity not yet present; an
/// upsert always leaves the identity present and removes no other; so over
/// any run of registry operations — none of which shrinks the identity set —
/// at most one event is reported per identity.
pub proof fn lemma_new_device_event_once(m: Map<u64, NetworkDevice>, mac: u64, ip: u32, ts: u64)
    ensures
        upserted_map(m, mac, ip, ts).dom() == m.dom().insert(mac),
        !upsert_creates(upserted_map(m, mac, ip, ts), mac),
        m.dom().contains(mac) ==> !upsert_creates(upserted_map(m, mac, ip, ts), mac)
            && !upsert_creates(m, mac),
{
}

} // verus!
