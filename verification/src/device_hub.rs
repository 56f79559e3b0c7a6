//! The hub: a bounded list of attached devices and the routing of packets
//! between them and one upstream session.
//!
//! The hub does no I/O. Each operation takes an event, updates the device
//! list, and returns what is to be delivered; the caller delivers it. Taking
//! the operations one at a time, under whatever lock or owner task the
//! caller has, gives the upstream session its messages in the order of the
//! events.

use crate::mux::{DevicePacket, MuxMsg, SendTo};
use crate::packet::Packet;
use crate::roster::{
    find_uuid, roster_as_slice, roster_clone, roster_ids, roster_new, roster_push, roster_remove,
    Roster, Uuid, MAX_DEVICES,
};
use vstd::prelude::*;

verus! {

/// How an attach ended.
#[derive(Clone, Copy, Debug, PartialEq, Eq, Structural)]
pub enum AttachOutcome {
    /// The device was added at the end of the list.
    Attached,
    /// The device was in the list already, which is left as it was.
    AlreadyAttached,
    /// The list was full: the device was not added.
    Full,
}

/// State of a hub.
pub struct DeviceHub {
    roster: Roster,
    subscribed: bool,
}

/// The device list after `id` has connected: `id` is added at the end unless
/// it is in the list already or the list is full.
pub open spec fn devices_after_attach(devices: Seq<Uuid>, id: Uuid) -> Seq<Uuid> {
    if devices.contains(id) || devices.len() >= MAX_DEVICES {
        devices
    } else {
        devices.push(id)
    }
}

/// The device list after `id` has disconnected: `id` is taken out and the
/// others keep their order.
pub open spec fn devices_after_detach(devices: Seq<Uuid>, id: Uuid) -> Seq<Uuid> {
    if devices.contains(id) {
        devices.remove(devices.index_of(id))
    } else {
        devices
    }
}

/// Two different devices attached to an empty hub are listed in the order of
/// their attaching, and after the first has detached the second is listed
/// alone.
pub proof fn lemma_attach_order(a: Uuid, b: Uuid)
    requires
        a != b,
    ensures
        devices_after_attach(devices_after_attach(Seq::empty(), a), b) == seq![a, b],
        devices_after_detach(seq![a, b], a) == seq![b],
{
    let none = Seq::<Uuid>::empty();
    let one = devices_after_attach(none, a);
    assert(one =~= seq![a]);
    assert(!one.contains(b));
    let two = devices_after_attach(one, b);
    assert(two =~= seq![a, b]);
    assert(two[0] == a);
    assert(two.contains(a));
    let i = two.index_of(a);
    assert(i == 0);
    assert(two.remove(0) =~= seq![b]);
}

/// Attaching and detaching keep the list free of duplicates and within its
/// capacity, and a detached device is no longer listed.
pub proof fn lemma_roster_stays_a_set(devices: Seq<Uuid>, id: Uuid)
    requires
        devices.no_duplicates(),
        devices.len() <= MAX_DEVICES,
    ensures
        devices_after_attach(devices, id).no_duplicates(),
        devices_after_attach(devices, id).len() <= MAX_DEVICES,
        devices_after_detach(devices, id).no_duplicates(),
        devices_after_detach(devices, id).len() <= devices.len(),
        !devices_after_detach(devices, id).contains(id),
{
    if devices.contains(id) {
        let i = devices.index_of(id);
        let after = devices.remove(i);
        devices.remove_ensures(i);
        assert forall|a: int, b: int|
            0 <= a < after.len() && 0 <= b < after.len() && a != b implies after[a]
            != after[b] by {
            let a0 = if a < i { a } else { a + 1 };
            let b0 = if b < i { b } else { b + 1 };
            assert(after[a] == devices[a0] && after[b] == devices[b0]);
        }
        assert forall|a: int| 0 <= a < after.len() implies after[a] != id by {
            let a0 = if a < i { a } else { a + 1 };
            assert(after[a] == devices[a0]);
        }
    }
}

/// Whether `msg` is a snapshot of exactly the devices `devices`.
pub open spec fn is_snapshot_of(msg: MuxMsg, devices: Seq<Uuid>) -> bool {
    msg matches MuxMsg::DevicesSnapshot(list) && roster_ids(list) == devices
}

impl DeviceHub {
    /// The attached devices, in the order of their attaching.
    pub closed spec fn devices(&self) -> Seq<Uuid> {
        roster_ids(self.roster)
    }

    /// Whether the upstream session has asked to be told of changes.
    pub closed spec fn subscribed(&self) -> bool {
        self.subscribed
    }

    /// No device is in the list twice, and the list is within its capacity.
    /// This holds of every hub at all times.
    pub open spec fn wf(&self) -> bool {
        &&& self.devices().no_duplicates()
        &&& self.devices().len() <= MAX_DEVICES
    }

    #[verifier::type_invariant]
    spec fn roster_is_a_set(self) -> bool {
        &&& roster_ids(self.roster).no_duplicates()
        &&& roster_ids(self.roster).len() <= MAX_DEVICES
    }

    /// A hub with no device attached and no subscription.
    pub fn new() -> (hub: DeviceHub)
        ensures
            hub.wf(),
            hub.devices() == Seq::<Uuid>::empty(),
            !hub.subscribed(),
    {
        DeviceHub { roster: roster_new(), subscribed: false }
    }

    /// Whether `id` is attached.
    pub fn is_attached(&self, id: &Uuid) -> (r: bool)
        ensures
            r == self.devices().contains(*id),
    {
        find_uuid(roster_as_slice(&self.roster), id).is_some()
    }

    /// The number of attached devices.
    pub fn device_count(&self) -> (n: usize)
        ensures
            n == self.devices().len(),
    {
        roster_as_slice(&self.roster).len()
    }

    /// A snapshot of the device list as it is now.
    fn snapshot(&self) -> (msg: MuxMsg)
        ensures
            is_snapshot_of(msg, self.devices()),
    {
        MuxMsg::DevicesSnapshot(roster_clone(&self.roster))
    }

    /// A device has connected. It is added at the end of the list unless it
    /// is there already or the list is full; in those two cases nothing
    /// changes. Where the list changed and the upstream session is
    /// subscribed, the snapshot to push is returned.
    pub fn attach(&mut self, id: Uuid) -> (r: (AttachOutcome, Option<MuxMsg>))
        ensures
            final(self).wf(),
            final(self).subscribed() == old(self).subscribed(),
            r.0 == if old(self).devices().contains(id) {
                AttachOutcome::AlreadyAttached
            } else if old(self).devices().len() >= MAX_DEVICES {
                AttachOutcome::Full
            } else {
                AttachOutcome::Attached
            },
            final(self).devices() == devices_after_attach(old(self).devices(), id),
            r.1 is Some <==> r.0 == AttachOutcome::Attached && old(self).subscribed(),
            r.1 matches Some(msg) ==> is_snapshot_of(msg, final(self).devices()),
    {
        proof {
            use_type_invariant(&*self);
        }
        if find_uuid(roster_as_slice(&self.roster), &id).is_some() {
            return (AttachOutcome::AlreadyAttached, None);
        }
        if roster_push(&mut self.roster, id).is_err() {
            return (AttachOutcome::Full, None);
        }
        if self.subscribed {
            (AttachOutcome::Attached, Some(self.snapshot()))
        } else {
            (AttachOutcome::Attached, None)
        }
    }

    /// A device has disconnected. It is taken out of the list, and the
    /// devices behind it keep their order. Where the list changed and the
    /// upstream session is subscribed, the snapshot to push is returned.
    /// Returns whether the device was attached.
    pub fn detach(&mut self, id: Uuid) -> (r: (bool, Option<MuxMsg>))
        ensures
            final(self).wf(),
            final(self).subscribed() == old(self).subscribed(),
            r.0 == old(self).devices().contains(id),
            !final(self).devices().contains(id),
            final(self).devices() == devices_after_detach(old(self).devices(), id),
            r.1 is Some <==> r.0 && old(self).subscribed(),
            r.1 matches Some(msg) ==> is_snapshot_of(msg, final(self).devices()),
    {
        proof {
            use_type_invariant(&*self);
        }
        let ghost before = self.devices();
        match find_uuid(roster_as_slice(&self.roster), &id) {
            None => (false, None),
            Some(i) => {
                proof {
                    let j = before.index_of(id);
                    assert(before[i as int] == id);
                    assert(j == i);
                    lemma_roster_stays_a_set(before, id);
                }
                let _ = roster_remove(&mut self.roster, i);
                if self.subscribed {
                    (true, Some(self.snapshot()))
                } else {
                    (true, None)
                }
            },
        }
    }

    /// A packet from the upstream session for device `dev`. Where `dev` is
    /// attached, the delivery to make to it is returned. Where it is not,
    /// the packet is dropped: nothing is returned, nothing changes, and
    /// nothing is reported upstream.
    pub fn route_outbound(&self, dev: Uuid, pkt: Packet) -> (r: Option<SendTo>)
        ensures
            r == if self.devices().contains(dev) {
                Some(SendTo { dev, pkt })
            } else {
                None
            },
    {
        if find_uuid(roster_as_slice(&self.roster), &dev).is_some() {
            Some(SendTo { dev, pkt })
        } else {
            None
        }
    }

    /// A packet from device `dev`. It is always passed on to the upstream
    /// session, whether that is subscribed to the device list or not.
    pub fn route_inbound(&self, dev: Uuid, pkt: Packet) -> (msg: MuxMsg)
        ensures
            msg == MuxMsg::DevicePacket(DevicePacket { dev, pkt }),
    {
        MuxMsg::DevicePacket(DevicePacket { dev, pkt })
    }

    /// The upstream session has asked for the device list: a snapshot is
    /// returned at once, whether it is subscribed or not.
    pub fn request_devices(&self) -> (msg: MuxMsg)
        ensures
            is_snapshot_of(msg, self.devices()),
    {
        self.snapshot()
    }

    /// The upstream session subscribes to the device list: from now on every
    /// change is pushed, and one snapshot is returned at once.
    pub fn subscribe(&mut self) -> (msg: MuxMsg)
        ensures
            final(self).wf(),
            final(self).subscribed(),
            final(self).devices() == old(self).devices(),
            is_snapshot_of(msg, final(self).devices()),
    {
        proof {
            use_type_invariant(&*self);
        }
        self.subscribed = true;
        self.snapshot()
    }

    /// The upstream session ends its subscription.
    pub fn unsubscribe(&mut self)
        ensures
            final(self).wf(),
            !final(self).subscribed(),
            final(self).devices() == old(self).devices(),
    {
        proof {
            use_type_invariant(&*self);
        }
        self.subscribed = false;
    }
}

} // verus!
