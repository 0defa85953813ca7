use mdr_headphones::connection::{
    ConnectionSession, ConnectionState, HeadphoneAppCommand,
};
use mdr_headphones::frame::{Frame, FrameDataType};
use mdr_headphones::mdr::{CommonRetBatteryLevel, ConnectRetDeviceInfo, ConnectedDevice, MDRPacket};
use mdr_headphones::opcodes::{ModelColor, ModelSeries};
use mdr_headphones::platforms::MacAddress;
use mdr_headphones::properties::{BatteryStatus, HeadphoneProperties};

const PROTOCOL_INFO_REPLY: [u8; 12] =
    [0x3e, 0x0c, 0x00, 0x00, 0x00, 0x00, 0x03, 0x01, 0x02, 0x03, 0x15, 0x3c];
const BATTERY_NOTIFY: [u8; 13] =
    [0x3e, 0x0c, 0x01, 0x00, 0x00, 0x00, 0x04, 0x13, 0x00, 0x50, 0x01, 0x75, 0x3c];
const ACK_OF_ZERO: [u8; 9] = [0x3e, 0x01, 0x01, 0x00, 0x00, 0x00, 0x00, 0x02, 0x3c];
const ACK_OF_ONE: [u8; 9] = [0x3e, 0x01, 0x00, 0x00, 0x00, 0x00, 0x00, 0x01, 0x3c];

#[test]
fn session_opens_with_the_two_startup_queries() {
    let (session, frames) = ConnectionSession::new();
    assert_eq!(frames.len(), 2);
    assert_eq!(
        frames[0],
        vec![0x3e, 0x0c, 0x00, 0x00, 0x00, 0x00, 0x02, 0x00, 0x00, 0x0e, 0x3c]
    );
    assert_eq!(
        frames[1],
        vec![0x3e, 0x0c, 0x01, 0x00, 0x00, 0x00, 0x02, 0x36, 0x02, 0x47, 0x3c]
    );
    assert_eq!(session.state(), ConnectionState::Handshaking);
    assert_eq!(session.sequence_number(), 0);
    assert_eq!(session.properties().protocol_version, None);
}

#[test]
fn startup_queries_are_read_back_as_frames() {
    let (_, frames) = ConnectionSession::new();
    let mut stream = frames[0].clone();
    stream.extend_from_slice(&frames[1]);
    let read = Frame::from_byte_stream(&stream);
    assert_eq!(read.len(), 2);
    assert_eq!(read[0].data_type, FrameDataType::DataMdr);
    assert_eq!(read[0].sequence_number, 0);
    assert_eq!(read[0].content, vec![0x00, 0x00]);
    assert_eq!(read[1].data_type, FrameDataType::DataMdr);
    assert_eq!(read[1].sequence_number, 1);
    assert_eq!(read[1].content, vec![0x36, 0x02]);
}

#[test]
fn end_to_end_two_frames_are_acknowledged_and_decoded_in_order() {
    let mut stream = PROTOCOL_INFO_REPLY.to_vec();
    stream.extend_from_slice(&BATTERY_NOTIFY);
    let frames = Frame::from_byte_stream(&stream);
    assert_eq!(frames.len(), 2);

    let (mut session, _) = ConnectionSession::new();
    let mut sent: Vec<Vec<u8>> = Vec::new();
    let mut packets: Vec<MDRPacket> = Vec::new();
    let mut log: Vec<&str> = Vec::new();
    for frame in frames {
        let outcome = session.on_frame(frame);
        sent.push(outcome.ack);
        log.push("ack");
        for packet in outcome.packets {
            packets.push(packet);
            log.push("packet");
        }
    }
    assert_eq!(log, vec!["ack", "packet", "ack", "packet"]);
    assert_eq!(sent, vec![ACK_OF_ZERO.to_vec(), ACK_OF_ONE.to_vec()]);
    assert_eq!(packets.len(), 2);
    assert!(matches!(packets[0], MDRPacket::ConnectRetProtocolInfo { protocol_version: 0x0203 }));
    assert!(matches!(
        packets[1],
        MDRPacket::CommonNtfyBatteryLevel(CommonRetBatteryLevel::Battery {
            level: 0x50,
            is_charging: true
        })
    ));
    assert_eq!(session.state(), ConnectionState::Active);
    assert_eq!(session.properties().protocol_version, Some(0x0203));
    assert_eq!(
        session.properties().battery,
        Some(BatteryStatus { level: 0x50, is_charging: true })
    );
}

#[test]
fn frame_that_does_not_decode_is_still_acknowledged() {
    let (mut session, _) = ConnectionSession::new();
    let outcome = session.on_frame(Frame::new(FrameDataType::DataMdr, 0, &[0x01, 0x02]));
    assert_eq!(outcome.ack, ACK_OF_ZERO.to_vec());
    assert!(outcome.packets.is_empty());
    assert_eq!(session.state(), ConnectionState::Active);
    assert_eq!(session.properties().protocol_version, None);

    let outcome = session.on_frame(Frame::new(FrameDataType::DataCommon, 1, &[0x01, 0x02, 0x03]));
    assert_eq!(outcome.ack, ACK_OF_ONE.to_vec());
    assert!(outcome.packets.is_empty());

    let outcome = session.on_frame(Frame::new(FrameDataType::DataMdr, 1, &[]));
    assert_eq!(outcome.ack, ACK_OF_ONE.to_vec());
    assert!(outcome.packets.is_empty());
}

#[test]
fn inbound_frames_leave_the_outbound_sequence_number_alone() {
    let (mut session, _) = ConnectionSession::new();
    session.send(HeadphoneAppCommand::EnablePinning(true));
    assert_eq!(session.sequence_number(), 1);
    session.on_frame(Frame::new(FrameDataType::DataMdr, 0, &[0xa9, 0x00, 0x05]));
    assert_eq!(session.sequence_number(), 1);
    assert_eq!(session.properties().volume, Some(5));
}

#[test]
fn commands_alternate_the_sequence_number() {
    let (mut session, _) = ConnectionSession::new();
    let first = session.send(HeadphoneAppCommand::EnablePinning(true));
    assert_eq!(
        first,
        vec![0x3e, 0x0c, 0x00, 0x00, 0x00, 0x00, 0x02, 0x38, 0x01, 0x47, 0x3c]
    );
    assert_eq!(session.sequence_number(), 1);
    let second = session.send(HeadphoneAppCommand::EnablePinning(false));
    assert_eq!(
        second,
        vec![0x3e, 0x0c, 0x01, 0x00, 0x00, 0x00, 0x02, 0x38, 0x00, 0x47, 0x3c]
    );
    assert_eq!(session.sequence_number(), 0);
    let third = session.send(HeadphoneAppCommand::EnablePinning(false));
    assert_eq!(Frame::from_byte_stream(&third)[0].sequence_number, 0);
}

#[test]
fn switch_device_sends_the_address_as_text() {
    let (mut session, _) = ConnectionSession::new();
    let address = MacAddress::new(&[0x66, 0x55, 0x44, 0x33, 0x22, 0xab]);
    let bytes = session.send(HeadphoneAppCommand::SwitchDevice(address));
    let frames = Frame::from_byte_stream(&bytes);
    assert_eq!(frames.len(), 1);
    assert_eq!(frames[0].data_type, FrameDataType::DataMdr);
    assert_eq!(frames[0].sequence_number, 0);
    let mut expected = vec![0x3c, 0x01];
    expected.extend_from_slice(b"AB:22:33:44:55:66");
    assert_eq!(frames[0].content, expected);
    // the opcode is a reserved byte and travels escaped
    assert_eq!(&bytes[7..9], &[0x3d, 0x2c]);
}

#[test]
fn command_packets() {
    let packet = HeadphoneAppCommand::EnablePinning(true).to_packet();
    assert!(matches!(packet, MDRPacket::MultipointPinningSet { payload } if payload == vec![1]));
    let packet = HeadphoneAppCommand::EnablePinning(false).to_packet();
    assert!(matches!(packet, MDRPacket::MultipointPinningSet { payload } if payload == vec![0]));
    let address = MacAddress::new(&[0x01, 0x02, 0x03, 0x04, 0x05, 0x06]);
    let packet = HeadphoneAppCommand::SwitchDevice(address).to_packet();
    assert!(matches!(
        packet,
        MDRPacket::MultipointActiveDeviceSet { flag1: 0x01, mac_address }
            if mac_address == "06:05:04:03:02:01"
    ));
}

#[test]
fn packet_that_cannot_be_sent_changes_nothing() {
    let (mut session, _) = ConnectionSession::new();
    let bytes = session.send_packet(&MDRPacket::VolumeChangedNotify { volume: 1 });
    assert_eq!(bytes, None);
    assert_eq!(session.sequence_number(), 0);
    let bytes = session.send_packet(&MDRPacket::ConnectGetSupportFunction);
    assert_eq!(
        bytes,
        Some(vec![0x3e, 0x0c, 0x00, 0x00, 0x00, 0x00, 0x02, 0x06, 0x00, 0x14, 0x3c])
    );
    assert_eq!(session.sequence_number(), 1);
}

#[test]
fn new_snapshot_knows_nothing() {
    let properties = HeadphoneProperties::new();
    assert_eq!(properties.protocol_version, None);
    assert_eq!(properties.model_name, None);
    assert_eq!(properties.fw_version, None);
    assert_eq!(properties.series_and_color, None);
    assert_eq!(properties.instruction_guide, None);
    assert_eq!(properties.battery, None);
    assert_eq!(properties.left_battery, None);
    assert_eq!(properties.right_battery, None);
    assert_eq!(properties.cradle_battery, None);
    assert!(properties.paired_devices.is_none());
    assert_eq!(properties.volume, None);
}

#[test]
fn snapshot_keeps_the_last_report_of_each_kind() {
    let mut properties = HeadphoneProperties::new();
    properties.update(&MDRPacket::ConnectRetProtocolInfo { protocol_version: 7 });
    properties.update(&MDRPacket::ConnectRetDeviceInfo(ConnectRetDeviceInfo::ModelName(
        String::from("WH-1000XM4"),
    )));
    properties.update(&MDRPacket::ConnectRetDeviceInfo(ConnectRetDeviceInfo::FwVersion(
        String::from("2.5.0"),
    )));
    properties.update(&MDRPacket::ConnectRetDeviceInfo(ConnectRetDeviceInfo::SeriesAndColorInfo(
        ModelSeries::Premium,
        ModelColor::Black,
    )));
    properties.update(&MDRPacket::ConnectRetDeviceInfo(ConnectRetDeviceInfo::InstructionGuide(
        vec![1, 2, 3],
    )));
    properties.update(&MDRPacket::CommonNtfyBatteryLevel(CommonRetBatteryLevel::Battery {
        level: 40,
        is_charging: false,
    }));
    properties.update(&MDRPacket::CommonNtfyBatteryLevel(
        CommonRetBatteryLevel::LeftRightBattery {
            left_level: 90,
            left_charging: true,
            right_level: 80,
            right_charging: false,
        },
    ));
    properties.update(&MDRPacket::CommonNtfyBatteryLevel(CommonRetBatteryLevel::CradleBattery {
        level: 10,
        is_charging: true,
    }));
    properties.update(&MDRPacket::VolumeChangedNotify { volume: 12 });
    properties.update(&MDRPacket::ConnectedDeviecesRet {
        connected_count: 1,
        paired_count: 1,
        devices: vec![ConnectedDevice {
            mac_address: String::from("AA:BB:CC:DD:EE:FF"),
            flags: 9,
            name: String::from("Phone"),
        }],
    });
    properties.update(&MDRPacket::VolumeChangedNotify { volume: 13 });

    assert_eq!(properties.protocol_version, Some(7));
    assert_eq!(properties.model_name.as_deref(), Some("WH-1000XM4"));
    assert_eq!(properties.fw_version.as_deref(), Some("2.5.0"));
    assert_eq!(properties.series_and_color, Some((ModelSeries::Premium, ModelColor::Black)));
    assert_eq!(properties.instruction_guide, Some(vec![1, 2, 3]));
    assert_eq!(properties.battery, Some(BatteryStatus { level: 40, is_charging: false }));
    assert_eq!(properties.left_battery, Some(BatteryStatus { level: 90, is_charging: true }));
    assert_eq!(properties.right_battery, Some(BatteryStatus { level: 80, is_charging: false }));
    assert_eq!(properties.cradle_battery, Some(BatteryStatus { level: 10, is_charging: true }));
    assert_eq!(properties.volume, Some(13));
    let list = properties.paired_devices.unwrap();
    assert_eq!(list.connected_count, 1);
    assert_eq!(list.paired_count, 1);
    assert_eq!(list.devices.len(), 1);
    assert_eq!(list.devices[0].mac_address, "AA:BB:CC:DD:EE:FF");
    assert_eq!(list.devices[0].flags, 9);
    assert_eq!(list.devices[0].name, "Phone");
}

#[test]
fn packets_that_report_nothing_leave_the_snapshot_alone() {
    let mut properties = HeadphoneProperties::new();
    properties.update(&MDRPacket::VolumeChangedNotify { volume: 12 });
    properties.update(&MDRPacket::ConnectGetProtocolInfo);
    properties.update(&MDRPacket::Unknown { payload: vec![0x99, 1] });
    properties.update(&MDRPacket::MultipointPinningSet { payload: vec![1] });
    properties.update(&MDRPacket::ConnectedDeviecesGet { b1: 2 });
    assert_eq!(properties.volume, Some(12));
    assert_eq!(properties.protocol_version, None);
    assert!(properties.paired_devices.is_none());
}
