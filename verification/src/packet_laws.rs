//! What holds of the packet codec and of the session as a whole.

use vstd::prelude::*;
use vstd::utf8::{encode_utf8, encode_utf8_decode_utf8, encode_utf8_valid_utf8, valid_utf8};
use crate::connection::{ConnectionState, SessionView};
use crate::frame::{FrameDataType, FrameView};
use crate::frame_laws::{encode_frames, lemma_frames_round_trip};
use crate::mdr::{
    decode_device, decode_devices, decode_packet, encode_packet, packets_of_frame,
    packets_of_frames, MDRPacketView, PacketErrorKind, MAC_TEXT_LEN,
};
use crate::opcodes::MDRPacketType;
use crate::properties::HeadphonePropertiesView;
use crate::scanner::{scan, ScannerState};

verus! {

/// Every device entry that is read lies inside the payload and takes at
/// least twenty-two bytes.
pub proof fn lemma_device_within_payload(payload: Seq<u8>, index: int)
    requires
        0 <= index,
    ensures
        decode_device(payload, index) matches Ok((_, next)) ==> index + 22 <= next
            <= payload.len(),
{
}

/// A device list that is read holds as many entries as were asked for,
/// and all of them lie inside the payload.
pub proof fn lemma_devices_within_payload(payload: Seq<u8>, count: nat)
    requires
        payload.len() >= 3,
    ensures
        decode_devices(payload, count) matches Ok((devices, end)) ==> devices.len() == count && 3
            + 22 * count <= end <= payload.len(),
    decreases count,
{
    if count > 0 {
        lemma_devices_within_payload(payload, (count - 1) as nat);
        match decode_devices(payload, (count - 1) as nat) {
            Ok((_, index)) => {
                lemma_device_within_payload(payload, index);
            },
            Err(_) => {},
        }
    }
}

/// A decoder never reads past the end: the number of bytes that a decoded
/// packet takes is at most the length of the payload.
pub proof fn lemma_decode_within_payload(packet_type: MDRPacketType, payload: Seq<u8>)
    ensures
        decode_packet(packet_type, payload) matches Ok((_, size)) ==> size <= payload.len(),
{
    if payload.len() >= 3 {
        lemma_devices_within_payload(payload, payload[2] as nat);
    }
}

/// A device-list reply decodes only if the payload has room for every entry
/// that it declares; it then holds exactly that many entries.
pub proof fn lemma_device_list_needs_room(payload: Seq<u8>)
    ensures
        decode_packet(MDRPacketType::ConnectedDeviecesRet, payload) matches Ok((packet, size))
            ==> {
            &&& payload.len() >= 3 + 22 * payload[2]
            &&& packet matches MDRPacketView::ConnectedDeviecesRet { paired_count, devices, .. }
            &&& paired_count == payload[2]
            &&& devices.len() == payload[2]
        },
{
    if payload.len() >= 3 {
        lemma_devices_within_payload(payload, payload[2] as nat);
    }
}

/// With well-formed text throughout, reading device entries fails only for
/// want of bytes.
proof fn lemma_devices_fail_short(payload: Seq<u8>, count: nat)
    requires
        payload.len() >= 3,
        forall|from: int, to: int|
            0 <= from <= to <= payload.len() ==> valid_utf8(#[trigger] payload.subrange(from, to)),
    ensures
        decode_devices(payload, count) matches Err(e) ==> e == PacketErrorKind::BufferTooShort,
    decreases count,
{
    if count > 0 {
        lemma_devices_fail_short(payload, (count - 1) as nat);
        lemma_devices_within_payload(payload, (count - 1) as nat);
    }
}

/// A device-list reply that declares more entries than its payload has room
/// for fails as too short, whenever the text it does hold is well-formed.
pub proof fn lemma_short_device_list(payload: Seq<u8>)
    requires
        payload.len() >= 3,
        payload.len() < 3 + 22 * payload[2],
        forall|from: int, to: int|
            0 <= from <= to <= payload.len() ==> valid_utf8(#[trigger] payload.subrange(from, to)),
    ensures
        decode_packet(MDRPacketType::ConnectedDeviecesRet, payload) == Err::<
            (MDRPacketView, nat),
            PacketErrorKind,
        >(PacketErrorKind::BufferTooShort),
{
    lemma_devices_fail_short(payload, payload[2] as nat);
    lemma_devices_within_payload(payload, payload[2] as nat);
}

/// A frame of the MDR class whose first content byte is in no opcode table
/// carries the unrecognized packet with the whole content, never an error.
pub proof fn lemma_unrecognized_opcode(frame: FrameView)
    requires
        frame.data_type == FrameDataType::DataMdr,
        frame.content.len() > 0,
        MDRPacketType::of_byte(frame.content[0]) is None,
    ensures
        packets_of_frame(frame) == seq![MDRPacketView::Unknown { payload: frame.content }],
{
}

/// The pinning packet is read back from its bytes as it was sent.
pub proof fn lemma_pinning_round_trip(payload: Seq<u8>)
    ensures
        decode_packet(
            MDRPacketType::MultipointPinningSet,
            encode_packet(MDRPacketView::MultipointPinningSet { payload })->0,
        ) == Ok::<(MDRPacketView, nat), PacketErrorKind>(
            (MDRPacketView::MultipointPinningSet { payload }, payload.len() + 1),
        ),
{
    let bytes = encode_packet(MDRPacketView::MultipointPinningSet { payload })->0;
    assert(bytes.skip(1) =~= payload);
}

/// The active-device packet is read back from its bytes as it was sent,
/// when its address text takes the seventeen bytes that the packet has for
/// it.
pub proof fn lemma_active_device_round_trip(flag1: u8, mac_address: Seq<char>)
    requires
        encode_utf8(mac_address).len() == MAC_TEXT_LEN,
    ensures
        decode_packet(
            MDRPacketType::MultipointActiveDeviceSet,
            encode_packet(MDRPacketView::MultipointActiveDeviceSet { flag1, mac_address })->0,
        ) == Ok::<(MDRPacketView, nat), PacketErrorKind>(
            (MDRPacketView::MultipointActiveDeviceSet { flag1, mac_address }, 19nat),
        ),
{
    let bytes = encode_packet(MDRPacketView::MultipointActiveDeviceSet { flag1, mac_address })->0;
    assert(bytes.subrange(2, 19) =~= encode_utf8(mac_address));
    encode_utf8_valid_utf8(mac_address);
    encode_utf8_decode_utf8(mac_address);
}

/// What is decoded from a stream of frames sent back to back is what the
/// frames carry, in their order: nothing is lost or reordered between the
/// bytes on the link and the packets.
pub proof fn lemma_stream_packets(state: ScannerState, frames: Seq<FrameView>)
    requires
        forall|i: int| 0 <= i < frames.len() ==> (#[trigger] frames[i]).content.len() <= u32::MAX,
    ensures
        packets_of_frames(scan(state, encode_frames(frames)).1) == packets_of_frames(frames),
{
    lemma_frames_round_trip(state, frames);
}

/// Folding the same packet in twice leaves the snapshot as after the first
/// time.
pub proof fn lemma_update_idempotent(properties: HeadphonePropertiesView, packet: MDRPacketView)
    ensures
        properties.updated(packet).updated(packet) == properties.updated(packet),
{
}

/// A packet that can be sent reports nothing: folding it in leaves the
/// snapshot as it was.
pub proof fn lemma_commands_report_nothing(
    properties: HeadphonePropertiesView,
    packet: MDRPacketView,
)
    requires
        encode_packet(packet) is Some,
    ensures
        properties.updated(packet) == properties,
{
}

/// The sequence numbers of outbound frames alternate: a session that
/// numbers a frame 0 or 1 numbers the next one with the other of the two,
/// and the one after that like the first.
pub proof fn lemma_sequence_alternates(
    session: SessionView,
    first: MDRPacketView,
    second: MDRPacketView,
)
    requires
        session.sequence_number <= 1,
        encode_packet(first) is Some,
        encode_packet(second) is Some,
    ensures
        session.after_send(first).sequence_number == 1 - session.sequence_number,
        session.after_send(first).after_send(second).sequence_number == session.sequence_number,
{
}

/// Inbound frames never touch the outbound sequence number, and a session
/// is active after any of them.
pub proof fn lemma_inbound_keeps_sequence(session: SessionView, frame: FrameView)
    ensures
        session.after_frame(frame).sequence_number == session.sequence_number,
        session.after_frame(frame).state == ConnectionState::Active,
{
}

} // verus!
