//! The devices that are driven, and what becomes of their outputs when a device
//! is added, changes or goes away.

use super::manager::SessionFd;
use super::resources::{Candidate, DrmResources};
use super::scan::{is_injective, ConnectorScan, OutputMap};
use vstd::prelude::*;

verus! {

/// Where a device stands in its life.
#[derive(Clone, Copy, Debug, PartialEq, Eq)]
pub enum DeviceState {
    /// Not opened: never seen, not eligible, or failed to open.
    Unopened,
    /// Opened, with the modesetting and buffer layers initialised.
    Opened,
    /// Scanned: its outputs are known.
    Scanned,
    /// Registered with the session and bound to the event loop.
    Active,
    /// Removed, with everything it owned torn down. The device is remembered
    /// as revoked until it is opened again.
    Revoked,
}

/// One graphics device that was opened: while it is live, it owns its
/// descriptor, its registration with the session, its event-loop source and its
/// outputs; once revoked, it owns nothing.
pub struct GpuDevice {
    pub id: u64,
    /// The descriptor that the session opened the device file under.
    pub fd: SessionFd,
    pub state: DeviceState,
    /// The identifier under which the device observes the session, once it is
    /// active.
    pub observer: Option<u64>,
    /// The token of the device's event-loop source, once it is active.
    pub source: Option<u64>,
    pub outputs: OutputMap,
}

/// What is to be torn down for a device that goes away, in this order: the
/// outputs as listed, then the session observer, then the event-loop source;
/// the descriptor goes back to the session last.
#[derive(Debug, PartialEq, Eq)]
pub struct Teardown {
    pub device: u64,
    pub fd: SessionFd,
    /// The outputs to destroy, the one made last first.
    pub outputs: Vec<Candidate>,
    pub observer: Option<u64>,
    pub source: Option<u64>,
    /// Whether no live device is left. The process then has no output left,
    /// which its caller has to hear of.
    pub last: bool,
}

/// What a change of a device asks for.
pub struct Rescan {
    /// The outputs whose connector is no longer connected: to be destroyed.
    pub revoked: Vec<Candidate>,
    /// The scan for new outputs. It begins with the outputs that stay.
    pub scan: ConnectorScan,
}

/// Some device has this identifier.
pub open spec fn tracks(devices: Seq<GpuDevice>, id: u64) -> bool {
    exists|i: int| 0 <= i < devices.len() && devices[i].id == id
}

/// The place of the device with this identifier.
pub open spec fn position(devices: Seq<GpuDevice>, id: u64) -> int {
    choose|i: int| 0 <= i < devices.len() && devices[i].id == id
}

/// No two devices have the same identifier.
pub open spec fn distinct_ids(devices: Seq<GpuDevice>) -> bool {
    forall|i: int, j: int| 0 <= i < j < devices.len() ==> devices[i].id != devices[j].id
}

/// The state of the device with this identifier. A device that is not tracked
/// is unopened.
pub open spec fn state_of(devices: Seq<GpuDevice>, id: u64) -> DeviceState {
    if tracks(devices, id) {
        devices[position(devices, id)].state
    } else {
        DeviceState::Unopened
    }
}

/// The device is opened and not removed: it owns what a device owns.
pub open spec fn is_live(state: DeviceState) -> bool {
    state is Opened || state is Scanned || state is Active
}

/// The device with this identifier is live.
pub open spec fn live(devices: Seq<GpuDevice>, id: u64) -> bool {
    is_live(state_of(devices, id))
}

/// No device is live.
pub open spec fn no_live_device(devices: Seq<GpuDevice>) -> bool {
    forall|i: int| 0 <= i < devices.len() ==> !is_live(#[trigger] devices[i].state)
}

/// The device is revoked, and owns nothing.
pub open spec fn is_revoked(device: GpuDevice) -> bool {
    &&& device.state is Revoked
    &&& device.observer is None
    &&& device.source is None
    &&& device.outputs@.len() == 0
}

/// The device is opened under `fd`, and nothing more.
pub open spec fn is_fresh(device: GpuDevice, id: u64, fd: SessionFd) -> bool {
    &&& device.id == id
    &&& device.fd == fd
    &&& device.state is Opened
    &&& device.observer is None
    &&& device.source is None
    &&& device.outputs@.len() == 0
}

/// `after` is `before` but for the device at `at`.
pub open spec fn same_but_at(before: Seq<GpuDevice>, after: Seq<GpuDevice>, at: int) -> bool {
    &&& after.len() == before.len()
    &&& forall|j: int| 0 <= j < before.len() && j != at ==> after[j] == before[j]
}

/// `after` is `before` with the live device `id` revoked: the device is still
/// known, under its identifier and its descriptor, and owns nothing any more;
/// every other device is as it was.
pub open spec fn is_removal(before: Seq<GpuDevice>, after: Seq<GpuDevice>, id: u64) -> bool {
    let at = position(before, id);
    &&& live(before, id)
    &&& same_but_at(before, after, at)
    &&& after[at].id == id
    &&& after[at].fd == before[at].fd
    &&& is_revoked(after[at])
}

/// The places of the live devices among the first `count`, in ascending order.
pub open spec fn live_places(devices: Seq<GpuDevice>, count: nat) -> Seq<int>
    decreases count,
{
    if count == 0 {
        Seq::empty()
    } else {
        let before = live_places(devices, (count - 1) as nat);
        if is_live(devices[count - 1].state) {
            before.push(count - 1)
        } else {
            before
        }
    }
}

/// What is torn down for `device` when it goes away.
pub open spec fn tears_down(teardown: Teardown, device: GpuDevice) -> bool {
    &&& teardown.device == device.id
    &&& teardown.fd == device.fd
    &&& teardown.outputs@ == device.outputs@.reverse()
    &&& teardown.observer == device.observer
    &&& teardown.source == device.source
}

/// The steps that the life of a device can take: an unopened or revoked device
/// can be opened, an opened device scanned, a scanned device made active, and
/// a live device revoked.
pub open spec fn may_become(before: DeviceState, after: DeviceState) -> bool {
    ||| after == before
    ||| (before is Unopened || before is Revoked) && after is Opened
    ||| before is Opened && after is Scanned
    ||| before is Scanned && after is Active
    ||| is_live(before) && after is Revoked
}

/// No device other than `id` is in another state than before.
pub open spec fn changes_only(before: Seq<GpuDevice>, after: Seq<GpuDevice>, id: u64) -> bool {
    forall|other: u64| other != id ==> #[trigger] state_of(after, other) == state_of(before, other)
}

/// Every device took a step that its life can take, or none.
pub open spec fn steps(before: Seq<GpuDevice>, after: Seq<GpuDevice>) -> bool {
    forall|id: u64| may_become(state_of(before, id), #[trigger] state_of(after, id))
}

/// The first `count` of the bindings whose connector is, or is not, connected.
pub open spec fn select(
    bindings: Seq<Candidate>,
    resources: DrmResources,
    connected: bool,
    count: nat,
) -> Seq<Candidate>
    decreases count,
{
    if count == 0 {
        Seq::empty()
    } else {
        let before = select(bindings, resources, connected, (count - 1) as nat);
        if resources.is_connected(bindings[count - 1].connector) == connected {
            before.push(bindings[count - 1])
        } else {
            before
        }
    }
}

/// The bindings that stay after a change: those on a connector that is still
/// connected.
pub open spec fn kept(bindings: Seq<Candidate>, resources: DrmResources) -> Seq<Candidate> {
    select(bindings, resources, true, bindings.len())
}

/// The bindings that a change revokes: those on a connector that is no longer
/// connected.
pub open spec fn revoked(bindings: Seq<Candidate>, resources: DrmResources) -> Seq<Candidate> {
    select(bindings, resources, false, bindings.len())
}

/// The devices that are driven, each with its outputs.
pub struct UdevHandlerImpl {
    devices: Vec<GpuDevice>,
}

impl UdevHandlerImpl {
    #[verifier::type_invariant]
    spec fn inv(self) -> bool {
        &&& distinct_ids(self.devices@)
        &&& forall|i: int|
            0 <= i < self.devices@.len() ==> {
                let device = #[trigger] self.devices@[i];
                &&& !(device.state is Unopened)
                &&& device.state is Revoked ==> is_revoked(device)
            }
    }

    /// The devices that were opened, in the order in which they were first
    /// opened. A device that was removed is among them, revoked.
    pub closed spec fn devices(self) -> Seq<GpuDevice> {
        self.devices@
    }

    /// A registry without devices.
    pub fn new() -> (registry: UdevHandlerImpl)
        ensures
            registry.devices() == Seq::<GpuDevice>::empty(),
    {
        UdevHandlerImpl { devices: Vec::new() }
    }

    fn find(&self, id: u64) -> (found: Option<usize>)
        ensures
            found is Some <==> tracks(self.devices@, id),
            found is Some ==> found->Some_0 == position(self.devices@, id) && found->Some_0
                < self.devices@.len() && self.devices@[found->Some_0 as int].id == id,
            distinct_ids(self.devices@),
    {
        proof {
            use_type_invariant(self);
        }
        let n = self.devices.len();
        let mut i: usize = 0;
        while i < n
            invariant
                i <= n,
                n == self.devices@.len(),
                distinct_ids(self.devices@),
                forall|j: int| 0 <= j < i ==> self.devices@[j].id != id,
            decreases n - i,
        {
            if self.devices[i].id == id {
                return Some(i);
            }
            i += 1;
        }
        None
    }

    fn is_live_at(&self, at: usize) -> (r: bool)
        requires
            at < self.devices@.len(),
        ensures
            r == is_live(self.devices@[at as int].state),
    {
        match self.devices[at].state {
            DeviceState::Opened | DeviceState::Scanned | DeviceState::Active => true,
            _ => false,
        }
    }

    /// The identifiers of the live devices, in the order in which the devices
    /// were first opened.
    pub fn live_devices(&self) -> (ids: Vec<u64>)
        ensures
            ids@.len() == live_places(self.devices(), self.devices().len()).len(),
            forall|k: int|
                0 <= k < ids@.len() ==> ids@[k] == self.devices()[live_places(
                    self.devices(),
                    self.devices().len(),
                )[k]].id,
            ids@.len() == 0 <==> no_live_device(self.devices()),
    {
        let n = self.devices.len();
        let mut ids: Vec<u64> = Vec::new();
        let mut i: usize = 0;
        while i < n
            invariant
                i <= n,
                n == self.devices@.len(),
                ids@.len() == live_places(self.devices@, i as nat).len(),
                forall|k: int|
                    0 <= k < ids@.len() ==> ids@[k] == self.devices@[live_places(
                        self.devices@,
                        i as nat,
                    )[k]].id,
                ids@.len() == 0 <==> forall|j: int|
                    0 <= j < i ==> !is_live(#[trigger] self.devices@[j].state),
            decreases n - i,
        {
            if self.is_live_at(i) {
                ids.push(self.devices[i].id);
            }
            i += 1;
        }
        ids
    }

    /// The state of a device.
    pub fn state(&self, id: u64) -> (state: DeviceState)
        ensures
            state == state_of(self.devices(), id),
            state is Unopened <==> !tracks(self.devices(), id),
    {
        proof {
            use_type_invariant(self);
        }
        match self.find(id) {
            Some(i) => self.devices[i].state,
            None => DeviceState::Unopened,
        }
    }

    /// Whether a device that was added is to be opened: the policy must have
    /// found it eligible, and it must not be open already. A device that is
    /// not to be opened is ignored.
    pub fn device_added(&self, id: u64, eligible: bool) -> (open: bool)
        ensures
            open == (eligible && !live(self.devices(), id)),
    {
        if !eligible {
            return false;
        }
        match self.find(id) {
            Some(at) => !self.is_live_at(at),
            None => true,
        }
    }

    /// Records that a device was opened under `fd` and its layers initialised.
    /// A device that failed to open is never recorded: it stays as it was, and
    /// the other devices are not affected.
    ///
    /// Returns whether the device was recorded; it is not if it is live
    /// already. A device that was revoked begins a new life.
    pub fn device_opened(&mut self, id: u64, fd: SessionFd) -> (recorded: bool)
        ensures
            recorded == !live(old(self).devices(), id),
            !recorded ==> final(self).devices() == old(self).devices(),
            recorded && tracks(old(self).devices(), id) ==> {
                let at = position(old(self).devices(), id);
                &&& same_but_at(old(self).devices(), final(self).devices(), at)
                &&& is_fresh(final(self).devices()[at], id, fd)
            },
            recorded && !tracks(old(self).devices(), id) ==> {
                &&& final(self).devices().len() == old(self).devices().len() + 1
                &&& final(self).devices().drop_last() == old(self).devices()
                &&& is_fresh(final(self).devices().last(), id, fd)
            },
            recorded ==> state_of(final(self).devices(), id) is Opened,
            changes_only(old(self).devices(), final(self).devices(), id),
            steps(old(self).devices(), final(self).devices()),
    {
        let device = GpuDevice {
            id,
            fd,
            state: DeviceState::Opened,
            observer: None,
            source: None,
            outputs: OutputMap::new(),
        };
        match self.find(id) {
            Some(at) => {
                if self.is_live_at(at) {
                    return false;
                }
                self.replace(at, device);
                true
            },
            None => {
                proof {
                    use_type_invariant(&*self);
                }
                let mut devices: Vec<GpuDevice> = Vec::new();
                core::mem::swap(&mut self.devices, &mut devices);
                devices.push(device);
                proof {
                    assert(devices@.drop_last() =~= old(self).devices@);
                    lemma_push_keeps_others(old(self).devices@, devices@, id);
                }
                core::mem::swap(&mut self.devices, &mut devices);
                true
            },
        }
    }

    fn replace(&mut self, at: usize, device: GpuDevice)
        requires
            at < old(self).devices@.len(),
            device.id == old(self).devices@[at as int].id,
            !(device.state is Unopened),
            device.state is Revoked ==> is_revoked(device),
        ensures
            final(self).devices@ == old(self).devices@.update(at as int, device),
            distinct_ids(old(self).devices@),
            distinct_ids(final(self).devices@),
            state_of(old(self).devices@, device.id) == old(self).devices@[at as int].state,
            state_of(final(self).devices@, device.id) == device.state,
            changes_only(old(self).devices@, final(self).devices@, device.id),
    {
        proof {
            use_type_invariant(&*self);
        }
        let mut devices: Vec<GpuDevice> = Vec::new();
        core::mem::swap(&mut self.devices, &mut devices);
        devices.set(at, device);
        proof {
            lemma_update_keeps_others(old(self).devices@, devices@, at as int);
        }
        core::mem::swap(&mut self.devices, &mut devices);
    }

    /// Records the outputs that the scan of an opened device found.
    ///
    /// The outputs are handed back where the device is not tracked or was
    /// scanned already.
    pub fn device_scanned(&mut self, id: u64, outputs: OutputMap) -> (r: Result<(), OutputMap>)
        ensures
            r is Ok <==> state_of(old(self).devices(), id) is Opened,
            r is Err ==> r->Err_0 == outputs && final(self).devices() == old(self).devices(),
            r is Ok ==> final(self).devices() == old(self).devices().update(
                position(old(self).devices(), id),
                GpuDevice {
                    state: DeviceState::Scanned,
                    outputs,
                    ..old(self).devices()[position(old(self).devices(), id)]
                },
            ),
            r is Ok ==> state_of(final(self).devices(), id) is Scanned,
            changes_only(old(self).devices(), final(self).devices(), id),
            steps(old(self).devices(), final(self).devices()),
    {
        match self.find(id) {
            Some(at) => {
                match self.devices[at].state {
                    DeviceState::Opened => {
                        let device = GpuDevice {
                            id,
                            fd: self.devices[at].fd,
                            state: DeviceState::Scanned,
                            observer: self.devices[at].observer,
                            source: self.devices[at].source,
                            outputs,
                        };
                        self.replace(at, device);
                        Ok(())
                    },
                    _ => Err(outputs),
                }
            },
            None => Err(outputs),
        }
    }

    /// Whether a vertical blank on `crtc` of the device concerns a live
    /// output. The notification is advisory: nothing waits for it.
    pub fn vblank(&self, id: u64, crtc: u32) -> (live: bool)
        ensures
            live == (tracks(self.devices(), id) && super::scan::claims(
                self.devices()[position(self.devices(), id)].outputs@,
                crtc,
            )),
    {
        match self.find(id) {
            Some(at) => self.devices[at].outputs.get(crtc).is_some(),
            None => false,
        }
    }
}

impl UdevHandlerImpl {
    /// Records that a scanned device was registered with the session under
    /// `observer` and bound to the event loop as `source`: the device is active
    /// from now on.
    ///
    /// Returns whether the device was in the state for it.
    pub fn device_bound(&mut self, id: u64, observer: u64, source: u64) -> (bound: bool)
        ensures
            bound == state_of(old(self).devices(), id) is Scanned,
            !bound ==> final(self).devices() == old(self).devices(),
            bound ==> final(self).devices() == old(self).devices().update(
                position(old(self).devices(), id),
                GpuDevice {
                    state: DeviceState::Active,
                    observer: Some(observer),
                    source: Some(source),
                    ..old(self).devices()[position(old(self).devices(), id)]
                },
            ),
            bound ==> state_of(final(self).devices(), id) is Active,
            changes_only(old(self).devices(), final(self).devices(), id),
            steps(old(self).devices(), final(self).devices()),
    {
        match self.find(id) {
            Some(at) => {
                match self.devices[at].state {
                    DeviceState::Scanned => {
                        proof {
                            use_type_invariant(&*self);
                        }
                        let mut devices: Vec<GpuDevice> = Vec::new();
                        core::mem::swap(&mut self.devices, &mut devices);
                        let mut device = devices.remove(at);
                        device.state = DeviceState::Active;
                        device.observer = Some(observer);
                        device.source = Some(source);
                        devices.insert(at, device);
                        proof {
                            lemma_update_keeps_others(old(self).devices@, devices@, at as int);
                        }
                        core::mem::swap(&mut self.devices, &mut devices);
                        true
                    },
                    _ => false,
                }
            },
            None => false,
        }
    }

    /// Records the outputs of an active device after a change was dealt with:
    /// the outputs that stayed and those that the rescan made.
    ///
    /// The outputs are handed back where the device is not active.
    pub fn device_rescanned(&mut self, id: u64, outputs: OutputMap) -> (r: Result<(), OutputMap>)
        ensures
            r is Ok <==> state_of(old(self).devices(), id) is Active,
            r is Err ==> r->Err_0 == outputs && final(self).devices() == old(self).devices(),
            r is Ok ==> final(self).devices() == old(self).devices().update(
                position(old(self).devices(), id),
                GpuDevice { outputs, ..old(self).devices()[position(old(self).devices(), id)] },
            ),
            forall|any: u64|
                #[trigger] state_of(final(self).devices(), any) == state_of(
                    old(self).devices(),
                    any,
                ),
    {
        match self.find(id) {
            Some(at) => {
                match self.devices[at].state {
                    DeviceState::Active => {
                        let device = GpuDevice {
                            id,
                            fd: self.devices[at].fd,
                            state: DeviceState::Active,
                            observer: self.devices[at].observer,
                            source: self.devices[at].source,
                            outputs,
                        };
                        self.replace(at, device);
                        Ok(())
                    },
                    _ => Err(outputs),
                }
            },
            None => Err(outputs),
        }
    }

    /// Begins to deal with a change of an active device, whose resources were
    /// read afresh: the outputs on connectors that are no longer connected are
    /// to be destroyed, and a scan looks for new outputs. The scan begins with
    /// the outputs that stay and leaves them untouched.
    ///
    /// The registry itself does not change before
    /// [`UdevHandlerImpl::device_rescanned`]. `None` where the device is not
    /// active.
    pub fn device_changed(&self, id: u64, resources: &DrmResources) -> (rescan: Option<Rescan>)
        ensures
            rescan is Some <==> state_of(self.devices(), id) is Active,
            rescan is Some ==> ({
                let outputs = self.devices()[position(self.devices(), id)].outputs@;
                &&& rescan->Some_0.revoked@ == revoked(outputs, *resources)
                &&& rescan->Some_0.scan.outputs() == kept(outputs, *resources)
                &&& rescan->Some_0.scan.candidates() == resources.candidates()
                &&& rescan->Some_0.scan.cursor() == 0
                &&& !rescan->Some_0.scan.awaiting()
            }),
    {
        let at = match self.find(id) {
            Some(at) => at,
            None => {
                return None;
            },
        };
        match self.devices[at].state {
            DeviceState::Active => {},
            _ => {
                return None;
            },
        }
        let bindings = self.devices[at].outputs.bindings();
        let mut stay = OutputMap::new();
        let mut revoke: Vec<Candidate> = Vec::new();
        let n = bindings.len();
        let mut i: usize = 0;
        while i < n
            invariant
                i <= n,
                n == bindings@.len(),
                is_injective(bindings@),
                stay@ == select(bindings@, *resources, true, i as nat),
                revoke@ == select(bindings@, *resources, false, i as nat),
            decreases n - i,
        {
            let binding = bindings[i];
            if resources.has_connected(binding.connector) {
                proof {
                    lemma_select_admits(bindings@, *resources, i as nat);
                }
                stay.insert(binding);
            } else {
                revoke.push(binding);
            }
            i += 1;
        }
        Some(Rescan { revoked: revoke, scan: ConnectorScan::resume(resources, stay) })
    }

    fn none_live(&self) -> (r: bool)
        ensures
            r == no_live_device(self.devices@),
    {
        let n = self.devices.len();
        let mut i: usize = 0;
        while i < n
            invariant
                i <= n,
                n == self.devices@.len(),
                forall|j: int| 0 <= j < i ==> !is_live(#[trigger] self.devices@[j].state),
            decreases n - i,
        {
            if self.is_live_at(i) {
                return false;
            }
            i += 1;
        }
        true
    }

    /// Removes a device and says what is to be torn down for it: every output
    /// it owned, its session observer, its event-loop source and its
    /// descriptor. The device is revoked.
    ///
    /// A device that is not live, because it was never opened or was removed
    /// before, has nothing to tear down: the answer is `None`, and the registry
    /// stays as it is. So nothing is torn down twice.
    pub fn device_removed(&mut self, id: u64) -> (teardown: Option<Teardown>)
        ensures
            teardown is Some <==> live(old(self).devices(), id),
            teardown is None ==> final(self).devices() == old(self).devices(),
            teardown is Some ==> {
                &&& is_removal(old(self).devices(), final(self).devices(), id)
                &&& tears_down(
                    teardown->Some_0,
                    old(self).devices()[position(old(self).devices(), id)],
                )
                &&& teardown->Some_0.last == no_live_device(final(self).devices())
            },
            !live(final(self).devices(), id),
            teardown is Some ==> state_of(final(self).devices(), id) is Revoked,
            changes_only(old(self).devices(), final(self).devices(), id),
            steps(old(self).devices(), final(self).devices()),
            distinct_ids(old(self).devices()),
            distinct_ids(final(self).devices()),
    {
        let at = match self.find(id) {
            Some(at) => at,
            None => {
                return None;
            },
        };
        if !self.is_live_at(at) {
            return None;
        }
        proof {
            use_type_invariant(&*self);
        }
        let mut devices: Vec<GpuDevice> = Vec::new();
        core::mem::swap(&mut self.devices, &mut devices);
        let device = devices.remove(at);
        let revoked = GpuDevice {
            id,
            fd: device.fd,
            state: DeviceState::Revoked,
            observer: None,
            source: None,
            outputs: OutputMap::new(),
        };
        devices.insert(at, revoked);
        proof {
            lemma_update_keeps_others(old(self).devices@, devices@, at as int);
        }
        core::mem::swap(&mut self.devices, &mut devices);
        let last = self.none_live();
        let outputs = reversed(device.outputs.bindings());
        Some(
            Teardown {
                device: id,
                fd: device.fd,
                outputs,
                observer: device.observer,
                source: device.source,
                last,
            },
        )
    }

    /// Revokes every live device, the one opened last first, and says what is to
    /// be torn down for each. No device is live afterwards.
    pub fn cleanup(&mut self) -> (teardowns: Vec<Teardown>)
        ensures
            final(self).devices().len() == old(self).devices().len(),
            forall|i: int|
                0 <= i < old(self).devices().len() ==> {
                    let device = #[trigger] final(self).devices()[i];
                    &&& device.id == old(self).devices()[i].id
                    &&& device.fd == old(self).devices()[i].fd
                    &&& is_revoked(device)
                },
            no_live_device(final(self).devices()),
            steps(old(self).devices(), final(self).devices()),
            teardowns@.len() == live_places(old(self).devices(), old(self).devices().len()).len(),
            forall|k: int|
                0 <= k < teardowns@.len() ==> {
                    let places = live_places(old(self).devices(), old(self).devices().len());
                    &&& tears_down(
                        #[trigger] teardowns@[k],
                        old(self).devices()[places[places.len() - 1 - k]],
                    )
                    &&& teardowns@[k].last == (k == teardowns@.len() - 1)
                },
    {
        proof {
            use_type_invariant(&*self);
        }
        let mut teardowns: Vec<Teardown> = Vec::new();
        let mut devices: Vec<GpuDevice> = Vec::new();
        core::mem::swap(&mut self.devices, &mut devices);
        let ghost all = devices@;
        let ghost places = live_places(all, all.len());
        let total = devices.len();
        let mut left: usize = count_live(&devices);
        let mut i: usize = total;
        while i > 0
            invariant
                self.devices@ == Seq::<GpuDevice>::empty(),
                all == old(self).devices@,
                places == live_places(all, all.len()),
                total == all.len(),
                devices@.len() == total,
                i <= total,
                forall|j: int| 0 <= j < i ==> devices@[j] == all[j],
                forall|j: int|
                    i <= j < total ==> {
                        let device = #[trigger] devices@[j];
                        &&& device.id == all[j].id
                        &&& device.fd == all[j].fd
                        &&& is_revoked(device)
                    },
                forall|j: int|
                    0 <= j < total ==> {
                        let device = #[trigger] all[j];
                        &&& !(device.state is Unopened)
                        &&& device.state is Revoked ==> is_revoked(device)
                    },
                left == live_places(all, i as nat).len(),
                teardowns@.len() + left == places.len(),
                forall|k: int|
                    0 <= k < teardowns@.len() ==> {
                        &&& tears_down(#[trigger] teardowns@[k], all[places[places.len() - 1 - k]])
                        &&& teardowns@[k].last == (k == places.len() - 1)
                    },
            decreases i,
        {
            i -= 1;
            match devices[i].state {
                DeviceState::Opened | DeviceState::Scanned | DeviceState::Active => {
                    proof {
                        lemma_live_places_prefix(all, (i + 1) as nat, all.len());
                    }
                    left = left - 1;
                    let outputs = reversed(devices[i].outputs.bindings());
                    teardowns.push(
                        Teardown {
                            device: devices[i].id,
                            fd: devices[i].fd,
                            outputs,
                            observer: devices[i].observer,
                            source: devices[i].source,
                            last: left == 0,
                        },
                    );
                    let revoked = GpuDevice {
                        id: devices[i].id,
                        fd: devices[i].fd,
                        state: DeviceState::Revoked,
                        observer: None,
                        source: None,
                        outputs: OutputMap::new(),
                    };
                    devices.set(i, revoked);
                },
                _ => {},
            }
        }
        proof {
            lemma_all_revoked(all, devices@);
        }
        core::mem::swap(&mut self.devices, &mut devices);
        teardowns
    }
}

/// Where a device is replaced by one with the same identifier, the identifiers
/// stay distinct, the device is found where it was, and every other device is
/// in the state it was in.
proof fn lemma_update_keeps_others(before: Seq<GpuDevice>, after: Seq<GpuDevice>, at: int)
    requires
        distinct_ids(before),
        0 <= at < before.len(),
        same_but_at(before, after, at),
        after[at].id == before[at].id,
    ensures
        distinct_ids(after),
        state_of(before, before[at].id) == before[at].state,
        state_of(after, before[at].id) == after[at].state,
        changes_only(before, after, before[at].id),
{
    // every device is where it was, and a device is found by its identifier
    assert forall|other: u64| other != before[at].id implies #[trigger] state_of(after, other)
        == state_of(before, other) by {
        if tracks(before, other) {
            assert(after[position(before, other)].id == other);
        }
        if tracks(after, other) {
            assert(before[position(after, other)].id == other);
        }
    }
}

/// Where a device with a new identifier joins, the identifiers stay distinct,
/// the device is found at the end, and every other device is in the state it
/// was in.
proof fn lemma_push_keeps_others(before: Seq<GpuDevice>, after: Seq<GpuDevice>, id: u64)
    requires
        distinct_ids(before),
        !tracks(before, id),
        after.len() == before.len() + 1,
        after.drop_last() == before,
        after.last().id == id,
    ensures
        distinct_ids(after),
        state_of(before, id) is Unopened,
        state_of(after, id) == after.last().state,
        changes_only(before, after, id),
{
    // the devices that were there are where they were
    assert forall|i: int| 0 <= i < before.len() implies #[trigger] after[i] == before[i] by {
        assert(after.drop_last()[i] == after[i]);
    }
    assert forall|other: u64| other != id implies #[trigger] state_of(after, other) == state_of(
        before,
        other,
    ) by {
        if tracks(before, other) {
            assert(after[position(before, other)].id == other);
        }
        if tracks(after, other) {
            assert(before[position(after, other)].id == other);
        }
    }
}

/// Where every device is revoked, under the identifier it had, every device
/// that was live took the step to revoked, and no other took any.
proof fn lemma_all_revoked(before: Seq<GpuDevice>, after: Seq<GpuDevice>)
    requires
        distinct_ids(before),
        after.len() == before.len(),
        forall|j: int|
            0 <= j < before.len() ==> {
                let device = #[trigger] after[j];
                &&& device.id == before[j].id
                &&& is_revoked(device)
            },
        forall|j: int| 0 <= j < before.len() ==> !((#[trigger] before[j]).state is Unopened),
    ensures
        distinct_ids(after),
        no_live_device(after),
        steps(before, after),
{
    // every device is where it was, and a device is found by its identifier
    assert forall|id: u64| may_become(state_of(before, id), #[trigger] state_of(after, id)) by {
        if tracks(before, id) {
            assert(after[position(before, id)].id == id);
        }
        if tracks(after, id) {
            assert(before[position(after, id)].id == id);
        }
    }
}

/// Number of live devices.
fn count_live(devices: &Vec<GpuDevice>) -> (n: usize)
    ensures
        n == live_places(devices@, devices@.len()).len(),
{
    let total = devices.len();
    let mut n: usize = 0;
    let mut i: usize = 0;
    while i < total
        invariant
            i <= total,
            total == devices@.len(),
            n == live_places(devices@, i as nat).len(),
            n <= i,
        decreases total - i,
    {
        match devices[i].state {
            DeviceState::Opened | DeviceState::Scanned | DeviceState::Active => {
                n += 1;
            },
            _ => {},
        }
        i += 1;
    }
    n
}

/// The places of the live devices among the first `count` are the first of the
/// places of the live devices among more.
proof fn lemma_live_places_prefix(devices: Seq<GpuDevice>, count: nat, more: nat)
    requires
        count <= more <= devices.len(),
    ensures
        live_places(devices, count).len() <= live_places(devices, more).len(),
        forall|k: int|
            0 <= k < live_places(devices, count).len() ==> live_places(devices, more)[k]
                == live_places(devices, count)[k],
    decreases more,
{
    if count < more {
        lemma_live_places_prefix(devices, count, (more - 1) as nat);
    }
}

/// The bindings in reverse order.
fn reversed(bindings: &Vec<Candidate>) -> (out: Vec<Candidate>)
    ensures
        out@ == bindings@.reverse(),
{
    let n = bindings.len();
    let mut out: Vec<Candidate> = Vec::new();
    let mut i: usize = n;
    while i > 0
        invariant
            i <= n,
            n == bindings@.len(),
            out@.len() == n - i,
            forall|k: int| 0 <= k < out@.len() ==> out@[k] == bindings@[n - 1 - k],
        decreases i,
    {
        i -= 1;
        out.push(bindings[i]);
    }
    out
}

/// `binding` is one of the first `count` bindings, and its connector is
/// connected, or not, as asked.
pub open spec fn is_selected(
    bindings: Seq<Candidate>,
    resources: DrmResources,
    connected: bool,
    count: nat,
    binding: Candidate,
) -> bool {
    exists|i: int|
        0 <= i < count && bindings[i] == binding && resources.is_connected(
            bindings[i].connector,
        ) == connected
}

/// Every binding that was selected is one of the bindings considered, with a
/// connector in the state asked for.
pub proof fn lemma_select_members(
    bindings: Seq<Candidate>,
    resources: DrmResources,
    connected: bool,
    count: nat,
)
    requires
        count <= bindings.len(),
    ensures
        select(bindings, resources, connected, count).len() <= count,
        forall|k: int|
            0 <= k < select(bindings, resources, connected, count).len() ==> is_selected(
                bindings,
                resources,
                connected,
                count,
                #[trigger] select(bindings, resources, connected, count)[k],
            ),
    decreases count,
{
    if count > 0 {
        lemma_select_members(bindings, resources, connected, (count - 1) as nat);
    }
}

/// Among bindings of which no two share a CRTC or a connector, the next one can
/// join those selected before it.
proof fn lemma_select_admits(bindings: Seq<Candidate>, resources: DrmResources, count: nat)
    requires
        count < bindings.len(),
        is_injective(bindings),
    ensures
        super::scan::admits(select(bindings, resources, true, count), bindings[count as int]),
{
    lemma_select_members(bindings, resources, true, count);
}

/// After a change every output either stays or is revoked, never both: it
/// stays exactly where its connector is still connected.
pub proof fn lemma_change_partitions_outputs(
    bindings: Seq<Candidate>,
    resources: DrmResources,
    count: nat,
)
    requires
        count <= bindings.len(),
    ensures
        select(bindings, resources, true, count).len() + select(
            bindings,
            resources,
            false,
            count,
        ).len() == count,
    decreases count,
{
    if count > 0 {
        lemma_change_partitions_outputs(bindings, resources, (count - 1) as nat);
    }
}

/// Removal of a device is idempotent: once a device is removed it is not
/// live, so a second removal finds nothing to tear down and changes nothing.
/// The other devices are not affected by either.
pub proof fn lemma_removal_is_idempotent(
    before: Seq<GpuDevice>,
    after: Seq<GpuDevice>,
    id: u64,
)
    requires
        distinct_ids(before),
        is_removal(before, after, id),
    ensures
        distinct_ids(after),
        state_of(after, id) is Revoked,
        !live(after, id),
        forall|other: u64| other != id ==> state_of(after, other) == state_of(before, other),
{
}

} // verus!
