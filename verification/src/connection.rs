//! The session with one device: which frames go out when the session opens,
//! what is sent back for every frame that comes in, and how the known state
//! of the device follows from the packets received.
//!
//! The session decides and keeps state; reading from and writing to the
//! link is left to its caller, who hands in each frame that arrived and
//! sends the bytes that the session returns.

use vstd::prelude::*;
use crate::frame::{encode_frame, Frame, FrameDataType, FrameView};
use crate::mdr::{
    encode_packet, packet_views, packets_of_frame, MDRPacket, MDRPacketView,
};
use crate::platforms::{address_wire_text, MacAddress};
use crate::properties::{HeadphoneProperties, HeadphonePropertiesView};

verus! {

/// Where a session stands.
#[derive(Debug, Clone, Copy, PartialEq, Eq, Structural)]
pub enum ConnectionState {
    /// The session was opened and no frame has come in yet.
    Handshaking,
    /// At least one inbound frame was processed.
    Active,
}

/// What an application asks of the device.
#[derive(Debug, Clone, Copy)]
pub enum HeadphoneAppCommand {
    /// Make the device with this address the active one.
    SwitchDevice(MacAddress),
    /// Switch multipoint pinning on or off.
    EnablePinning(bool),
}

/// The flag byte sent with a request to switch the active device.
pub const SWITCH_DEVICE_FLAG: u8 = 0x01;

/// The value of the first startup query for the list of paired devices.
pub const PAIRED_DEVICES_QUERY: u8 = 0x02;

/// The packet that carries a command: the active-device packet with the
/// address as text, or the pinning packet with one byte, 1 for on and 0 for
/// off.
pub open spec fn command_packet(command: HeadphoneAppCommand) -> MDRPacketView {
    match command {
        HeadphoneAppCommand::SwitchDevice(address) => MDRPacketView::MultipointActiveDeviceSet {
            flag1: SWITCH_DEVICE_FLAG,
            mac_address: address_wire_text(address@),
        },
        HeadphoneAppCommand::EnablePinning(on) => MDRPacketView::MultipointPinningSet {
            payload: seq![if on { 1u8 } else { 0u8 }],
        },
    }
}

impl HeadphoneAppCommand {
    /// The packet that carries this command.
    pub fn to_packet(&self) -> (packet: MDRPacket)
        ensures
            packet@ == command_packet(*self),
    {
        match self {
            HeadphoneAppCommand::SwitchDevice(address) => MDRPacket::MultipointActiveDeviceSet {
                flag1: SWITCH_DEVICE_FLAG,
                mac_address: address.to_wire_text(),
            },
            HeadphoneAppCommand::EnablePinning(on) => {
                let mut payload: Vec<u8> = Vec::new();
                payload.push(if *on { 1 } else { 0 });
                assert(payload@ =~= seq![if *on { 1u8 } else { 0u8 }]);
                MDRPacket::MultipointPinningSet { payload }
            },
        }
    }
}

/// The other of the two sequence numbers: 1 after 0, 0 after anything else.
pub open spec fn toggled(sequence_number: u8) -> u8 {
    if sequence_number == 0 {
        1
    } else {
        0
    }
}

/// The frame that carries a packet's bytes under the given sequence number.
pub open spec fn data_frame(sequence_number: u8, payload: Seq<u8>) -> FrameView {
    FrameView { data_type: FrameDataType::DataMdr, sequence_number, content: payload }
}

/// The acknowledgement of a frame that carried `sequence_number`.
pub open spec fn ack_frame(sequence_number: u8) -> FrameView {
    FrameView {
        data_type: FrameDataType::Ack,
        sequence_number: ((1 - sequence_number as int) % 0x100) as u8,
        content: Seq::empty(),
    }
}

/// The packets that a session sends when it opens, in this order: the query
/// for the protocol version, then the query for the paired devices.
pub open spec fn startup_packets() -> Seq<MDRPacketView> {
    seq![
        MDRPacketView::ConnectGetProtocolInfo,
        MDRPacketView::ConnectedDeviecesGet { b1: PAIRED_DEVICES_QUERY },
    ]
}

/// A session as a mathematical value.
pub struct SessionView {
    /// What is known of the device.
    pub properties: HeadphonePropertiesView,
    /// The sequence number of the next frame that the session sends.
    pub sequence_number: u8,
    pub state: ConnectionState,
}

impl SessionView {
    /// The session before anything was sent or received.
    pub open spec fn initial() -> SessionView {
        SessionView {
            properties: HeadphonePropertiesView::unknown(),
            sequence_number: 0,
            state: ConnectionState::Handshaking,
        }
    }

    /// The bytes that go out for a packet, if it can be sent: its bytes in a
    /// data frame with the session's sequence number.
    pub open spec fn outbound(self, packet: MDRPacketView) -> Option<Seq<u8>> {
        match encode_packet(packet) {
            Some(payload) => Some(encode_frame(data_frame(self.sequence_number, payload))),
            None => None,
        }
    }

    /// The session after it was asked to send a packet: the sequence number
    /// toggles when the packet went out, and nothing changes when it cannot
    /// be sent.
    pub open spec fn after_send(self, packet: MDRPacketView) -> SessionView {
        if encode_packet(packet) is Some {
            SessionView { sequence_number: toggled(self.sequence_number), ..self }
        } else {
            self
        }
    }

    /// The session after an inbound frame: active, with the packets of the
    /// frame folded into what is known of the device.
    pub open spec fn after_frame(self, frame: FrameView) -> SessionView {
        SessionView {
            properties: self.properties.updated_all(packets_of_frame(frame)),
            sequence_number: self.sequence_number,
            state: ConnectionState::Active,
        }
    }
}

/// The views of a sequence of byte strings.
pub open spec fn byte_views(chunks: Seq<Vec<u8>>) -> Seq<Seq<u8>> {
    chunks.map_values(|chunk: Vec<u8>| chunk@)
}

/// What a session answers to one inbound frame.
#[derive(Debug)]
pub struct InboundOutcome {
    /// The bytes of the acknowledgement, to be sent at once.
    pub ack: Vec<u8>,
    /// The packets that the frame carried, already folded into the
    /// session's snapshot. One snapshot is to be published for each.
    pub packets: Vec<MDRPacket>,
}

/// The session with one device.
#[derive(Debug)]
pub struct ConnectionSession {
    properties: HeadphoneProperties,
    sequence_number: u8,
    state: ConnectionState,
}

impl View for ConnectionSession {
    type V = SessionView;

    closed spec fn view(&self) -> SessionView {
        SessionView {
            properties: self.properties@,
            sequence_number: self.sequence_number,
            state: self.state,
        }
    }
}

impl ConnectionSession {
    /// Opens a session. Returns it together with the frames that are to be
    /// sent first, in order: one for each startup query, numbered 0 and 1.
    pub fn new() -> (opened: (ConnectionSession, Vec<Vec<u8>>))
        ensures
            opened.0@ == SessionView::initial().after_send(startup_packets()[0]).after_send(
                startup_packets()[1],
            ),
            opened.0@ == SessionView::initial(),
            byte_views(opened.1@) == seq![
                SessionView::initial().outbound(startup_packets()[0])->0,
                SessionView::initial().after_send(startup_packets()[0]).outbound(
                    startup_packets()[1],
                )->0,
            ],
    {
        let mut session = ConnectionSession {
            properties: HeadphoneProperties::new(),
            sequence_number: 0,
            state: ConnectionState::Handshaking,
        };
        let mut frames: Vec<Vec<u8>> = Vec::new();
        let first = session.send_packet(&MDRPacket::ConnectGetProtocolInfo);
        match first {
            Some(bytes) => {
                frames.push(bytes);
            },
            None => {},
        }
        let second = session.send_packet(
            &MDRPacket::ConnectedDeviecesGet { b1: PAIRED_DEVICES_QUERY },
        );
        match second {
            Some(bytes) => {
                frames.push(bytes);
            },
            None => {},
        }
        assert(byte_views(frames@) =~= seq![
            SessionView::initial().outbound(startup_packets()[0])->0,
            SessionView::initial().after_send(startup_packets()[0]).outbound(
                startup_packets()[1],
            )->0,
        ]);
        (session, frames)
    }

    /// What is known of the device.
    pub fn properties(&self) -> (properties: &HeadphoneProperties)
        ensures
            properties@ == self@.properties,
    {
        &self.properties
    }

    /// Where the session stands.
    pub fn state(&self) -> (state: ConnectionState)
        ensures
            state == self@.state,
    {
        self.state
    }

    /// The sequence number of the next frame that the session sends.
    pub fn sequence_number(&self) -> (sequence_number: u8)
        ensures
            sequence_number == self@.sequence_number,
    {
        self.sequence_number
    }

    /// Frames a packet for sending. Returns the bytes of the frame and moves
    /// on to the other sequence number; returns `None` and changes nothing
    /// for a packet that is only ever received.
    pub fn send_packet(&mut self, packet: &MDRPacket) -> (bytes: Option<Vec<u8>>)
        ensures
            final(self)@ == old(self)@.after_send(packet@),
            match bytes {
                Some(bytes) => old(self)@.outbound(packet@) == Some(bytes@),
                None => old(self)@.outbound(packet@) is None,
            },
    {
        match packet.to_bytes() {
            None => None,
            Some(payload) => {
                let frame = Frame::new(
                    FrameDataType::DataMdr,
                    self.sequence_number,
                    payload.as_slice(),
                );
                self.sequence_number = if self.sequence_number == 0 {
                    1
                } else {
                    0
                };
                Some(frame.to_bytes())
            },
        }
    }

    /// Frames a command for sending. Every command can be sent: the result
    /// is the frame of the command's packet, and the session moves on to the
    /// other sequence number without waiting for an acknowledgement.
    pub fn send(&mut self, command: HeadphoneAppCommand) -> (bytes: Vec<u8>)
        ensures
            old(self)@.outbound(command_packet(command)) == Some(bytes@),
            final(self)@ == (SessionView {
                sequence_number: toggled(old(self)@.sequence_number),
                ..old(self)@
            }),
    {
        let packet = command.to_packet();
        match self.send_packet(&packet) {
            Some(bytes) => bytes,
            None => Vec::new(),
        }
    }

    /// Takes one inbound frame. The acknowledgement is owed for every
    /// frame, whatever it carries; the packets of the frame, if any, are
    /// folded into the snapshot in order, and the session is active
    /// afterwards.
    pub fn on_frame(&mut self, frame: Frame) -> (outcome: InboundOutcome)
        ensures
            outcome.ack@ == encode_frame(ack_frame(frame.sequence_number)),
            packet_views(outcome.packets@) == packets_of_frame(frame@),
            final(self)@ == old(self)@.after_frame(frame@),
    {
        let ack = Frame::new_ack(frame.sequence_number).to_bytes();
        let packets = MDRPacket::from_frame(frame);
        let ghost views = packet_views(packets@);
        let mut i: usize = 0;
        while i < packets.len()
            invariant
                i <= packets.len(),
                views == packet_views(packets@),
                self.properties@ == old(self).properties@.updated_all(views.take(i as int)),
                self.sequence_number == old(self).sequence_number,
            decreases packets.len() - i,
        {
            proof {
                assert(views.take(i + 1).drop_last() =~= views.take(i as int));
                assert(views.take(i + 1).last() == packets@[i as int]@);
            }
            self.properties.update(&packets[i]);
            i += 1;
        }
        assert(views.take(i as int) =~= views);
        self.state = ConnectionState::Active;
        InboundOutcome { ack, packets }
    }
}

} // verus!
