use ats_wire::device_hub::{AttachOutcome, DeviceHub};
use ats_wire::hub::HubMsg;
use ats_wire::mux::{DevicePacket, MuxMsg, SendTo};
use ats_wire::roster::MAX_DEVICES;
use ats_wire::{Packet, PacketData};

const A: [u8; 6] = [1, 2, 3, 4, 5, 6];
const B: [u8; 6] = [6, 5, 4, 3, 2, 1];
const C: [u8; 6] = [0, 0, 0, 0, 0, 1];
const D: [u8; 6] = [0, 0, 0, 0, 0, 2];

fn ack(id: u8) -> Packet {
    Packet { data: PacketData::Ack(), id }
}

fn snapshot_ids(msg: &MuxMsg) -> Vec<[u8; 6]> {
    msg.devices_snapshot().expect("a snapshot").as_slice().to_vec()
}

#[test]
fn subscribe_after_two_attaches_gives_one_snapshot_in_attach_order() {
    let mut hub = DeviceHub::new();
    assert_eq!(hub.attach(A).0, AttachOutcome::Attached);
    assert_eq!(hub.attach(B).0, AttachOutcome::Attached);
    let msg = hub.subscribe();
    assert_eq!(snapshot_ids(&msg), vec![A, B]);
}

#[test]
fn detach_while_subscribed_pushes_the_new_list() {
    let mut hub = DeviceHub::new();
    hub.attach(A);
    hub.attach(B);
    hub.subscribe();
    let (was_attached, pushed) = hub.detach(A);
    assert!(was_attached);
    assert_eq!(snapshot_ids(&pushed.unwrap()), vec![B]);
}

#[test]
fn attach_while_subscribed_pushes_the_new_list() {
    let mut hub = DeviceHub::new();
    let first = hub.subscribe();
    assert_eq!(snapshot_ids(&first), Vec::<[u8; 6]>::new());
    let (outcome, pushed) = hub.attach(A);
    assert_eq!(outcome, AttachOutcome::Attached);
    assert_eq!(snapshot_ids(&pushed.unwrap()), vec![A]);
    let (_, pushed) = hub.attach(B);
    assert_eq!(snapshot_ids(&pushed.unwrap()), vec![A, B]);
}

#[test]
fn nothing_is_pushed_without_a_subscription() {
    let mut hub = DeviceHub::new();
    assert!(hub.attach(A).1.is_none());
    assert!(hub.detach(A).1.is_none());
    hub.subscribe();
    hub.unsubscribe();
    assert!(hub.attach(B).1.is_none());
}

#[test]
fn attach_beyond_capacity_is_rejected() {
    let mut hub = DeviceHub::new();
    hub.subscribe();
    assert_eq!(MAX_DEVICES, 3);
    assert_eq!(hub.attach(A).0, AttachOutcome::Attached);
    assert_eq!(hub.attach(B).0, AttachOutcome::Attached);
    assert_eq!(hub.attach(C).0, AttachOutcome::Attached);
    let (outcome, pushed) = hub.attach(D);
    assert_eq!(outcome, AttachOutcome::Full);
    assert!(pushed.is_none());
    assert!(!hub.is_attached(&D));
    assert_eq!(hub.device_count(), 3);
    assert_eq!(snapshot_ids(&hub.request_devices()), vec![A, B, C]);
}

#[test]
fn attach_of_an_attached_device_changes_nothing() {
    let mut hub = DeviceHub::new();
    hub.subscribe();
    hub.attach(A);
    let (outcome, pushed) = hub.attach(A);
    assert_eq!(outcome, AttachOutcome::AlreadyAttached);
    assert!(pushed.is_none());
    assert_eq!(hub.device_count(), 1);
}

#[test]
fn detach_keeps_the_order_of_the_others() {
    let mut hub = DeviceHub::new();
    hub.attach(A);
    hub.attach(B);
    hub.attach(C);
    assert_eq!(hub.detach(B).0, true);
    assert_eq!(snapshot_ids(&hub.request_devices()), vec![A, C]);
    assert_eq!(hub.detach(B).0, false);
    assert_eq!(hub.attach(B).0, AttachOutcome::Attached);
    assert_eq!(snapshot_ids(&hub.request_devices()), vec![A, C, B]);
}

#[test]
fn detach_of_an_unknown_device_changes_nothing() {
    let mut hub = DeviceHub::new();
    hub.subscribe();
    hub.attach(A);
    let (was_attached, pushed) = hub.detach(B);
    assert!(!was_attached);
    assert!(pushed.is_none());
    assert_eq!(snapshot_ids(&hub.request_devices()), vec![A]);
}

#[test]
fn outbound_to_an_absent_device_is_dropped() {
    let mut hub = DeviceHub::new();
    hub.attach(B);
    assert_eq!(hub.route_outbound(A, ack(7)), None);
    assert_eq!(snapshot_ids(&hub.request_devices()), vec![B]);
}

#[test]
fn outbound_to_an_attached_device_is_delivered() {
    let mut hub = DeviceHub::new();
    hub.attach(A);
    assert_eq!(
        hub.route_outbound(A, ack(7)),
        Some(SendTo { dev: A, pkt: ack(7) })
    );
    hub.detach(A);
    assert_eq!(hub.route_outbound(A, ack(7)), None);
}

#[test]
fn inbound_is_always_forwarded() {
    let hub = DeviceHub::new();
    let msg = hub.route_inbound(A, ack(9));
    assert_eq!(msg.device_uuid(), Some(A));
    match msg {
        MuxMsg::DevicePacket(dp) => assert_eq!(dp, DevicePacket { dev: A, pkt: ack(9) }),
        _ => panic!("not a device packet"),
    }
}

#[test]
fn request_devices_answers_without_a_subscription() {
    let mut hub = DeviceHub::new();
    hub.attach(A);
    assert_eq!(snapshot_ids(&hub.request_devices()), vec![A]);
}

#[test]
fn a_cloned_snapshot_lists_the_same_devices() {
    let mut hub = DeviceHub::new();
    hub.attach(A);
    hub.attach(B);
    let msg = hub.request_devices();
    let copy = msg.clone();
    assert_eq!(snapshot_ids(&copy), vec![A, B]);
    assert!(copy.device_uuid().is_none());
}

#[test]
fn mux_versions_carry_the_protocol_version() {
    let v = ats_wire::mux::Version::new([1, 2, 3]);
    assert_eq!(v.protocol_semver, [0, 1, 0]);
    assert_eq!(v.firmware_semver, [1, 2, 3]);
    let v = ats_wire::hub::Version::new([4, 5, 6]);
    assert_eq!(v.protocol_semver, [0, 1, 0]);
    assert_eq!(v.firmware_semver, [4, 5, 6]);
    let v = ats_wire::control::device::Version::new([7, 8, 9]);
    assert_eq!(v.protocol_semver, [0, 1, 0]);
    assert_eq!(v.firmware_semver, [7, 8, 9]);
    let v = ats_wire::control::usb_mux::UsbMuxVersion::new([7, 8, 9]);
    assert_eq!(v.protocol_semver, [0, 1, 0]);
    assert_eq!(v.firmware_semver, [7, 8, 9]);
    let v = ats_wire::Version::new([1, 0, 0]);
    assert_eq!(v.protocol_semver, [0, 1, 0]);
    assert_eq!(v.firmware_semver, [1, 0, 0]);
}

#[test]
fn hub_messages_name_their_device() {
    let mut list: heapless::Vec<[u8; 6], 3> = heapless::Vec::new();
    list.push(A).unwrap();
    let snap = HubMsg::DevicesSnapshot(list);
    assert_eq!(snap.device_uuid(), None);
    assert_eq!(snap.devices_snapshot().unwrap().as_slice(), &[A]);
    assert_eq!(snap.clone().devices_snapshot().unwrap().as_slice(), &[A]);
    let send = HubMsg::SendTo(ats_wire::hub::SendTo { dev: B, pkt: ack(1) });
    assert_eq!(send.device_uuid(), Some(B));
    assert!(send.devices_snapshot().is_none());
    let from = HubMsg::DevicePacket(ats_wire::hub::DevicePacket { dev: C, pkt: ack(1) });
    assert_eq!(from.device_uuid(), Some(C));
    assert_eq!(HubMsg::PairingResult(A).device_uuid(), None);
    let mux = MuxMsg::SendTo(SendTo { dev: B, pkt: ack(1) });
    assert_eq!(mux.device_uuid(), Some(B));
    assert!(mux.devices_snapshot().is_none());
    assert_eq!(MuxMsg::RequestDevices.device_uuid(), None);
}
