//! The packet layer: typed packets decoded from the content of a frame, and
//! the bytes of the packets that are sent to a device.

use std::string::FromUtf8Error;
use vstd::prelude::*;
use vstd::slice::{slice_subrange, slice_to_vec};
use vstd::string::StringExecFns;
use vstd::utf8::{decode_utf8, encode_utf8, encode_utf8_decode_utf8, valid_utf8};
use crate::bytes::{be16, be32, u16_from_be, u32_from_be};
use crate::frame::{Frame, FrameDataType, FrameView};
use crate::hex::{lower_hex_pair, push_lower_hex};
use crate::scanner::frame_views;
use crate::opcodes::{
    BatteryInquiredType, DeviceInfoInquiredType, MDRPacketType, ModelColor, ModelSeries,
};

verus! {

/// The error of `String::from_utf8`, carried through unopened.
#[verifier::external_type_specification]
#[verifier::external_body]
pub struct ExFromUtf8Error(FromUtf8Error);

/// `String::from_utf8` of the standard library: it succeeds exactly when the
/// bytes are well-formed UTF-8, and the string it then returns consists of
/// those bytes.
pub assume_specification[ String::from_utf8 ](vec: Vec<u8>) -> (result: Result<
    String,
    FromUtf8Error,
>)
    ensures
        result is Ok <==> valid_utf8(vec@),
        result matches Ok(text) ==> encode_utf8(text@) == vec@,
;

/// Why the content of a frame is not the packet that its opcode announces.
#[derive(Debug)]
pub enum PacketError {
    /// A field reaches past the end of the payload.
    BufferTooShort,
    /// A text field is not well-formed UTF-8.
    InvalidUtf8(FromUtf8Error),
    /// The opcode is known but has no decoder.
    UnimplementedPacketType(u8),
    /// A byte inside a packet stands for no value of its field.
    InvalidPacketBody(u8),
}

/// A packet error without the description that the text decoder attached.
pub enum PacketErrorKind {
    BufferTooShort,
    InvalidUtf8,
    UnimplementedPacketType(u8),
    InvalidPacketBody(u8),
}

impl View for PacketError {
    type V = PacketErrorKind;

    open spec fn view(&self) -> PacketErrorKind {
        match self {
            PacketError::BufferTooShort => PacketErrorKind::BufferTooShort,
            PacketError::InvalidUtf8(_) => PacketErrorKind::InvalidUtf8,
            PacketError::UnimplementedPacketType(t) => PacketErrorKind::UnimplementedPacketType(*t),
            PacketError::InvalidPacketBody(b) => PacketErrorKind::InvalidPacketBody(*b),
        }
    }
}

impl PacketErrorKind {
    /// The message of an error, up to the description that the text
    /// decoder adds behind the message of a malformed text.
    pub open spec fn message(self) -> Seq<char> {
        match self {
            PacketErrorKind::BufferTooShort => "Buffer too short"@,
            PacketErrorKind::InvalidUtf8 => "Invalid UTF-8: "@,
            PacketErrorKind::UnimplementedPacketType(t) => "Unimplemented packet type: 0x"@
                + lower_hex_pair(t),
            PacketErrorKind::InvalidPacketBody(t) => "Invalid packet body for type: 0x"@
                + lower_hex_pair(t),
        }
    }
}

impl PacketError {
    /// The error as a message for a log. For a malformed text the message
    /// ends with the description that the text decoder gave.
    pub fn to_text(&self) -> (text: String)
        ensures
            self@ != PacketErrorKind::InvalidUtf8 ==> text@ == self@.message(),
            self@ == PacketErrorKind::InvalidUtf8 ==> self@.message().is_prefix_of(text@),
    {
        let mut text = String::new();
        match self {
            PacketError::BufferTooShort => {
                text.append("Buffer too short");
            },
            PacketError::InvalidUtf8(e) => {
                text.append("Invalid UTF-8: ");
                let detail = e.to_string();
                text.append(detail.as_str());
            },
            PacketError::UnimplementedPacketType(t) => {
                text.append("Unimplemented packet type: 0x");
                push_lower_hex(&mut text, *t);
            },
            PacketError::InvalidPacketBody(t) => {
                text.append("Invalid packet body for type: 0x");
                push_lower_hex(&mut text, *t);
            },
        }
        text
    }
}

/// The text that a byte field holds.
pub open spec fn decode_text(bytes: Seq<u8>) -> Result<Seq<char>, PacketErrorKind> {
    if valid_utf8(bytes) {
        Ok(decode_utf8(bytes))
    } else {
        Err(PacketErrorKind::InvalidUtf8)
    }
}

/// The view of a decoded text field.
pub open spec fn text_result_view(result: Result<String, PacketError>) -> Result<
    Seq<char>,
    PacketErrorKind,
> {
    match result {
        Ok(text) => Ok(text@),
        Err(e) => Err(e@),
    }
}

/// Decodes a text field.
fn text_from_bytes(bytes: &[u8]) -> (result: Result<String, PacketError>)
    ensures
        text_result_view(result) == decode_text(bytes@),
{
    match String::from_utf8(slice_to_vec(bytes)) {
        Ok(text) => {
            proof {
                encode_utf8_decode_utf8(text@);
            }
            Ok(text)
        },
        Err(e) => Err(PacketError::InvalidUtf8(e)),
    }
}

/// One entry of the list of paired devices.
#[derive(Debug, Clone)]
pub struct ConnectedDevice {
    /// The address of the device as text, seventeen bytes on the wire.
    pub mac_address: String,
    pub flags: u32,
    pub name: String,
}

/// An entry of the list of paired devices as a mathematical value.
pub struct ConnectedDeviceView {
    pub mac_address: Seq<char>,
    pub flags: u32,
    pub name: Seq<char>,
}

impl View for ConnectedDevice {
    type V = ConnectedDeviceView;

    open spec fn view(&self) -> ConnectedDeviceView {
        ConnectedDeviceView {
            mac_address: self.mac_address@,
            flags: self.flags,
            name: self.name@,
        }
    }
}

/// The body of a device-info reply.
#[derive(Debug, Clone)]
pub enum ConnectRetDeviceInfo {
    ModelName(String),
    FwVersion(String),
    SeriesAndColorInfo(ModelSeries, ModelColor),
    InstructionGuide(Vec<u8>),
}

/// The body of a device-info reply as a mathematical value.
pub enum ConnectRetDeviceInfoView {
    ModelName(Seq<char>),
    FwVersion(Seq<char>),
    SeriesAndColorInfo(ModelSeries, ModelColor),
    InstructionGuide(Seq<u8>),
}

impl View for ConnectRetDeviceInfo {
    type V = ConnectRetDeviceInfoView;

    open spec fn view(&self) -> ConnectRetDeviceInfoView {
        match self {
            ConnectRetDeviceInfo::ModelName(name) => ConnectRetDeviceInfoView::ModelName(name@),
            ConnectRetDeviceInfo::FwVersion(version) => ConnectRetDeviceInfoView::FwVersion(
                version@,
            ),
            ConnectRetDeviceInfo::SeriesAndColorInfo(series, color) => {
                ConnectRetDeviceInfoView::SeriesAndColorInfo(*series, *color)
            },
            ConnectRetDeviceInfo::InstructionGuide(guide) => {
                ConnectRetDeviceInfoView::InstructionGuide(guide@)
            },
        }
    }
}

/// The text field of a device-info reply: a length byte at offset 1, then
/// that many bytes of text. Gives the text and the bytes consumed.
pub open spec fn decode_prefixed_text(payload: Seq<u8>) -> Result<(Seq<char>, nat), PacketErrorKind>
    recommends
        payload.len() >= 2,
{
    let len = payload[1] as int;
    if payload.len() < 2 + len {
        Err(PacketErrorKind::BufferTooShort)
    } else {
        match decode_text(payload.subrange(2, 2 + len)) {
            Ok(text) => Ok((text, (2 + len) as nat)),
            Err(e) => Err(e),
        }
    }
}

/// The device-info reply that a payload holds, with the number of bytes it
/// takes. The payload starts at the byte that says which information
/// follows.
pub open spec fn decode_device_info(payload: Seq<u8>) -> Result<
    (ConnectRetDeviceInfoView, nat),
    PacketErrorKind,
> {
    if payload.len() < 2 {
        Err(PacketErrorKind::BufferTooShort)
    } else {
        match DeviceInfoInquiredType::of_byte(payload[0]) {
            None => Err(PacketErrorKind::InvalidPacketBody(payload[0])),
            Some(DeviceInfoInquiredType::ModelName) => match decode_prefixed_text(payload) {
                Ok((name, size)) => Ok((ConnectRetDeviceInfoView::ModelName(name), size)),
                Err(e) => Err(e),
            },
            Some(DeviceInfoInquiredType::FwVersion) => match decode_prefixed_text(payload) {
                Ok((version, size)) => Ok((ConnectRetDeviceInfoView::FwVersion(version), size)),
                Err(e) => Err(e),
            },
            Some(DeviceInfoInquiredType::SeriesAndColorInfo) => {
                if payload.len() < 3 {
                    Err(PacketErrorKind::BufferTooShort)
                } else {
                    match ModelSeries::of_byte(payload[1]) {
                        None => Err(PacketErrorKind::InvalidPacketBody(payload[1])),
                        Some(series) => match ModelColor::of_byte(payload[2]) {
                            None => Err(PacketErrorKind::InvalidPacketBody(payload[2])),
                            Some(color) => Ok(
                                (ConnectRetDeviceInfoView::SeriesAndColorInfo(series, color), 3nat),
                            ),
                        },
                    }
                }
            },
            Some(DeviceInfoInquiredType::InstructionGuide) => {
                let len = payload[1] as int;
                if payload.len() < 2 + len {
                    Err(PacketErrorKind::BufferTooShort)
                } else {
                    Ok(
                        (
                            ConnectRetDeviceInfoView::InstructionGuide(payload.subrange(2, 2 + len)),
                            (2 + len) as nat,
                        ),
                    )
                }
            },
        }
    }
}

/// The view of a decoded device-info reply.
pub open spec fn device_info_result_view(
    result: Result<(ConnectRetDeviceInfo, usize), PacketError>,
) -> Result<(ConnectRetDeviceInfoView, nat), PacketErrorKind> {
    match result {
        Ok((info, size)) => Ok((info@, size as nat)),
        Err(e) => Err(e@),
    }
}

/// Reads the text field of a device-info reply.
fn prefixed_text_from_bytes(payload: &[u8]) -> (result: Result<(String, usize), PacketError>)
    requires
        payload@.len() >= 2,
    ensures
        match result {
            Ok((text, size)) => decode_prefixed_text(payload@) == Ok::<
                (Seq<char>, nat),
                PacketErrorKind,
            >((text@, size as nat)),
            Err(e) => decode_prefixed_text(payload@) == Err::<(Seq<char>, nat), PacketErrorKind>(
                e@,
            ),
        },
{
    let len = payload[1] as usize;
    if payload.len() < 2 + len {
        return Err(PacketError::BufferTooShort);
    }
    match text_from_bytes(slice_subrange(payload, 2, 2 + len)) {
        Ok(text) => Ok((text, 2 + len)),
        Err(e) => Err(e),
    }
}

impl ConnectRetDeviceInfo {
    /// Decodes the body of a device-info reply. `payload` starts at the byte
    /// that says which information follows; bytes behind the decoded field
    /// are left alone.
    pub fn from_bytes(payload: &[u8]) -> (result: Result<(ConnectRetDeviceInfo, usize), PacketError>)
        ensures
            device_info_result_view(result) == decode_device_info(payload@),
    {
        if payload.len() < 2 {
            return Err(PacketError::BufferTooShort);
        }
        let inquired_type = match DeviceInfoInquiredType::from_u8(payload[0]) {
            Some(t) => t,
            None => {
                return Err(PacketError::InvalidPacketBody(payload[0]));
            },
        };
        match inquired_type {
            DeviceInfoInquiredType::ModelName => {
                match prefixed_text_from_bytes(payload) {
                    Ok((name, size)) => Ok((ConnectRetDeviceInfo::ModelName(name), size)),
                    Err(e) => Err(e),
                }
            },
            DeviceInfoInquiredType::FwVersion => {
                match prefixed_text_from_bytes(payload) {
                    Ok((version, size)) => Ok((ConnectRetDeviceInfo::FwVersion(version), size)),
                    Err(e) => Err(e),
                }
            },
            DeviceInfoInquiredType::SeriesAndColorInfo => {
                if payload.len() < 3 {
                    return Err(PacketError::BufferTooShort);
                }
                let series = match ModelSeries::from_u8(payload[1]) {
                    Some(s) => s,
                    None => {
                        return Err(PacketError::InvalidPacketBody(payload[1]));
                    },
                };
                let color = match ModelColor::from_u8(payload[2]) {
                    Some(c) => c,
                    None => {
                        return Err(PacketError::InvalidPacketBody(payload[2]));
                    },
                };
                Ok((ConnectRetDeviceInfo::SeriesAndColorInfo(series, color), 3))
            },
            DeviceInfoInquiredType::InstructionGuide => {
                let len = payload[1] as usize;
                if payload.len() < 2 + len {
                    return Err(PacketError::BufferTooShort);
                }
                let guide = slice_to_vec(slice_subrange(payload, 2, 2 + len));
                Ok((ConnectRetDeviceInfo::InstructionGuide(guide), 2 + len))
            },
        }
    }
}

/// The body of a battery notification.
#[derive(Debug, Clone, Copy, PartialEq, Eq, Structural)]
pub enum CommonRetBatteryLevel {
    Battery { level: u8, is_charging: bool },
    LeftRightBattery { left_level: u8, left_charging: bool, right_level: u8, right_charging: bool },
    CradleBattery { level: u8, is_charging: bool },
}

/// The battery notification that a payload holds, with the number of bytes
/// it takes. The payload starts at the byte that says which battery is
/// reported; a charging byte other than zero means charging.
pub open spec fn decode_battery_level(payload: Seq<u8>) -> Result<
    (CommonRetBatteryLevel, nat),
    PacketErrorKind,
> {
    if payload.len() < 1 {
        Err(PacketErrorKind::BufferTooShort)
    } else {
        match BatteryInquiredType::of_byte(payload[0]) {
            None => Err(PacketErrorKind::InvalidPacketBody(payload[0])),
            Some(BatteryInquiredType::Battery) => if payload.len() < 3 {
                Err(PacketErrorKind::BufferTooShort)
            } else {
                Ok(
                    (
                        CommonRetBatteryLevel::Battery {
                            level: payload[1],
                            is_charging: payload[2] != 0,
                        },
                        3nat,
                    ),
                )
            },
            Some(BatteryInquiredType::LeftRightBattery) => if payload.len() < 5 {
                Err(PacketErrorKind::BufferTooShort)
            } else {
                Ok(
                    (
                        CommonRetBatteryLevel::LeftRightBattery {
                            left_level: payload[1],
                            left_charging: payload[2] != 0,
                            right_level: payload[3],
                            right_charging: payload[4] != 0,
                        },
                        5nat,
                    ),
                )
            },
            Some(BatteryInquiredType::CradleBattery) => if payload.len() < 3 {
                Err(PacketErrorKind::BufferTooShort)
            } else {
                Ok(
                    (
                        CommonRetBatteryLevel::CradleBattery {
                            level: payload[1],
                            is_charging: payload[2] != 0,
                        },
                        3nat,
                    ),
                )
            },
        }
    }
}

/// The view of a decoded battery notification.
pub open spec fn battery_result_view(
    result: Result<(CommonRetBatteryLevel, usize), PacketError>,
) -> Result<(CommonRetBatteryLevel, nat), PacketErrorKind> {
    match result {
        Ok((level, size)) => Ok((level, size as nat)),
        Err(e) => Err(e@),
    }
}

impl CommonRetBatteryLevel {
    /// Decodes the body of a battery notification. `payload` starts at the
    /// byte that says which battery is reported; bytes behind the decoded
    /// fields are left alone.
    pub fn from_bytes(payload: &[u8]) -> (result: Result<
        (CommonRetBatteryLevel, usize),
        PacketError,
    >)
        ensures
            battery_result_view(result) == decode_battery_level(payload@),
    {
        if payload.len() < 1 {
            return Err(PacketError::BufferTooShort);
        }
        let inquired_type = match BatteryInquiredType::from_u8(payload[0]) {
            Some(t) => t,
            None => {
                return Err(PacketError::InvalidPacketBody(payload[0]));
            },
        };
        match inquired_type {
            BatteryInquiredType::Battery => {
                if payload.len() < 3 {
                    return Err(PacketError::BufferTooShort);
                }
                Ok(
                    (
                        CommonRetBatteryLevel::Battery {
                            level: payload[1],
                            is_charging: payload[2] != 0,
                        },
                        3,
                    ),
                )
            },
            BatteryInquiredType::LeftRightBattery => {
                if payload.len() < 5 {
                    return Err(PacketError::BufferTooShort);
                }
                Ok(
                    (
                        CommonRetBatteryLevel::LeftRightBattery {
                            left_level: payload[1],
                            left_charging: payload[2] != 0,
                            right_level: payload[3],
                            right_charging: payload[4] != 0,
                        },
                        5,
                    ),
                )
            },
            BatteryInquiredType::CradleBattery => {
                if payload.len() < 3 {
                    return Err(PacketError::BufferTooShort);
                }
                Ok(
                    (
                        CommonRetBatteryLevel::CradleBattery {
                            level: payload[1],
                            is_charging: payload[2] != 0,
                        },
                        3,
                    ),
                )
            },
        }
    }
}

/// A packet of the application layer.
#[derive(Debug, Clone)]
pub enum MDRPacket {
    ConnectGetProtocolInfo,
    ConnectRetProtocolInfo { protocol_version: u16 },
    ConnectGetCapabilityInfo,
    ConnectGetDeviceInfo { inquired_type: DeviceInfoInquiredType },
    ConnectRetDeviceInfo(ConnectRetDeviceInfo),
    ConnectGetSupportFunction,
    CommonNtfyBatteryLevel(CommonRetBatteryLevel),
    ConnectedDeviecesGet { b1: u8 },
    ConnectedDeviecesRet { connected_count: u8, paired_count: u8, devices: Vec<ConnectedDevice> },
    MultipointPinningSet { payload: Vec<u8> },
    MultipointActiveDeviceSet { flag1: u8, mac_address: String },
    VolumeChangedNotify { volume: u8 },
    /// A packet whose opcode has no decoder, with the whole content of its
    /// frame.
    Unknown { payload: Vec<u8> },
}

/// A packet as a mathematical value.
pub enum MDRPacketView {
    ConnectGetProtocolInfo,
    ConnectRetProtocolInfo { protocol_version: u16 },
    ConnectGetCapabilityInfo,
    ConnectGetDeviceInfo { inquired_type: DeviceInfoInquiredType },
    ConnectRetDeviceInfo(ConnectRetDeviceInfoView),
    ConnectGetSupportFunction,
    CommonNtfyBatteryLevel(CommonRetBatteryLevel),
    ConnectedDeviecesGet { b1: u8 },
    ConnectedDeviecesRet {
        connected_count: u8,
        paired_count: u8,
        devices: Seq<ConnectedDeviceView>,
    },
    MultipointPinningSet { payload: Seq<u8> },
    MultipointActiveDeviceSet { flag1: u8, mac_address: Seq<char> },
    VolumeChangedNotify { volume: u8 },
    Unknown { payload: Seq<u8> },
}

/// The views of a sequence of device entries.
pub open spec fn device_views(devices: Seq<ConnectedDevice>) -> Seq<ConnectedDeviceView> {
    devices.map_values(|device: ConnectedDevice| device@)
}

impl View for MDRPacket {
    type V = MDRPacketView;

    open spec fn view(&self) -> MDRPacketView {
        match self {
            MDRPacket::ConnectGetProtocolInfo => MDRPacketView::ConnectGetProtocolInfo,
            MDRPacket::ConnectRetProtocolInfo { protocol_version } => {
                MDRPacketView::ConnectRetProtocolInfo { protocol_version: *protocol_version }
            },
            MDRPacket::ConnectGetCapabilityInfo => MDRPacketView::ConnectGetCapabilityInfo,
            MDRPacket::ConnectGetDeviceInfo { inquired_type } => {
                MDRPacketView::ConnectGetDeviceInfo { inquired_type: *inquired_type }
            },
            MDRPacket::ConnectRetDeviceInfo(info) => MDRPacketView::ConnectRetDeviceInfo(info@),
            MDRPacket::ConnectGetSupportFunction => MDRPacketView::ConnectGetSupportFunction,
            MDRPacket::CommonNtfyBatteryLevel(level) => MDRPacketView::CommonNtfyBatteryLevel(
                *level,
            ),
            MDRPacket::ConnectedDeviecesGet { b1 } => MDRPacketView::ConnectedDeviecesGet {
                b1: *b1,
            },
            MDRPacket::ConnectedDeviecesRet { connected_count, paired_count, devices } => {
                MDRPacketView::ConnectedDeviecesRet {
                    connected_count: *connected_count,
                    paired_count: *paired_count,
                    devices: device_views(devices@),
                }
            },
            MDRPacket::MultipointPinningSet { payload } => MDRPacketView::MultipointPinningSet {
                payload: payload@,
            },
            MDRPacket::MultipointActiveDeviceSet { flag1, mac_address } => {
                MDRPacketView::MultipointActiveDeviceSet {
                    flag1: *flag1,
                    mac_address: mac_address@,
                }
            },
            MDRPacket::VolumeChangedNotify { volume } => MDRPacketView::VolumeChangedNotify {
                volume: *volume,
            },
            MDRPacket::Unknown { payload } => MDRPacketView::Unknown { payload: payload@ },
        }
    }
}

/// The views of a sequence of packets.
pub open spec fn packet_views(packets: Seq<MDRPacket>) -> Seq<MDRPacketView> {
    packets.map_values(|packet: MDRPacket| packet@)
}

/// Length of the address text of a device entry.
pub const MAC_TEXT_LEN: usize = 17;

/// The device entry that starts at `index`, and the index behind it:
/// seventeen bytes of address text, four bytes of big-endian flags, a length
/// byte and that many bytes of name. Every field is checked against the end
/// of the payload before it is read.
pub open spec fn decode_device(payload: Seq<u8>, index: int) -> Result<
    (ConnectedDeviceView, int),
    PacketErrorKind,
> {
    if index + MAC_TEXT_LEN > payload.len() {
        Err(PacketErrorKind::BufferTooShort)
    } else {
        match decode_text(payload.subrange(index, index + MAC_TEXT_LEN)) {
            Err(e) => Err(e),
            Ok(mac_address) => {
                let flags_at = index + MAC_TEXT_LEN;
                if flags_at + 5 > payload.len() {
                    Err(PacketErrorKind::BufferTooShort)
                } else {
                    let flags = be32(
                        payload[flags_at],
                        payload[flags_at + 1],
                        payload[flags_at + 2],
                        payload[flags_at + 3],
                    ) as u32;
                    let name_at = flags_at + 5;
                    let name_len = payload[flags_at + 4] as int;
                    if name_at + name_len > payload.len() {
                        Err(PacketErrorKind::BufferTooShort)
                    } else {
                        match decode_text(payload.subrange(name_at, name_at + name_len)) {
                            Err(e) => Err(e),
                            Ok(name) => Ok(
                                (
                                    ConnectedDeviceView { mac_address, flags, name },
                                    name_at + name_len,
                                ),
                            ),
                        }
                    }
                }
            },
        }
    }
}

/// The first `count` device entries of a device list, which start behind the
/// three bytes of opcode and counts, and the index behind the last of them.
/// The first entry that cannot be read decides the error.
pub open spec fn decode_devices(payload: Seq<u8>, count: nat) -> Result<
    (Seq<ConnectedDeviceView>, int),
    PacketErrorKind,
>
    decreases count,
{
    if count == 0 {
        Ok((Seq::empty(), 3int))
    } else {
        match decode_devices(payload, (count - 1) as nat) {
            Err(e) => Err(e),
            Ok((devices, index)) => match decode_device(payload, index) {
                Err(e) => Err(e),
                Ok((device, next)) => Ok((devices.push(device), next)),
            },
        }
    }
}

/// The packet that the content of a frame holds under the given opcode, and
/// the number of content bytes that it takes, the opcode byte included.
/// Content behind that is reserved and ignored. An opcode without a decoder
/// gives the unrecognized packet with the whole content.
pub open spec fn decode_packet(packet_type: MDRPacketType, payload: Seq<u8>) -> Result<
    (MDRPacketView, nat),
    PacketErrorKind,
> {
    match packet_type {
        MDRPacketType::ConnectRetProtocolInfo => if payload.len() < 3 {
            Err(PacketErrorKind::BufferTooShort)
        } else {
            Ok(
                (
                    MDRPacketView::ConnectRetProtocolInfo {
                        protocol_version: be16(payload[1], payload[2]) as u16,
                    },
                    3nat,
                ),
            )
        },
        MDRPacketType::ConnectRetDeviceInfo => if payload.len() < 1 {
            Err(PacketErrorKind::BufferTooShort)
        } else {
            match decode_device_info(payload.skip(1)) {
                Err(e) => Err(e),
                Ok((info, size)) => Ok((MDRPacketView::ConnectRetDeviceInfo(info), size + 1)),
            }
        },
        MDRPacketType::CommonNtfyBatteryLevel => if payload.len() < 1 {
            Err(PacketErrorKind::BufferTooShort)
        } else {
            match decode_battery_level(payload.skip(1)) {
                Err(e) => Err(e),
                Ok((level, size)) => Ok((MDRPacketView::CommonNtfyBatteryLevel(level), size + 1)),
            }
        },
        MDRPacketType::ConnectedDeviecesRet => if payload.len() < 3 {
            Err(PacketErrorKind::BufferTooShort)
        } else {
            match decode_devices(payload, payload[2] as nat) {
                Err(e) => Err(e),
                Ok((devices, end)) => Ok(
                    (
                        MDRPacketView::ConnectedDeviecesRet {
                            connected_count: payload[1],
                            paired_count: payload[2],
                            devices,
                        },
                        end as nat,
                    ),
                ),
            }
        },
        MDRPacketType::MultipointActiveDeviceSet => if payload.len() < 2 + MAC_TEXT_LEN {
            Err(PacketErrorKind::BufferTooShort)
        } else {
            match decode_text(payload.subrange(2, 2 + MAC_TEXT_LEN)) {
                Err(e) => Err(e),
                Ok(mac_address) => Ok(
                    (
                        MDRPacketView::MultipointActiveDeviceSet { flag1: payload[1], mac_address },
                        (2 + MAC_TEXT_LEN) as nat,
                    ),
                ),
            }
        },
        MDRPacketType::MultipointPinningSet => if payload.len() < 1 {
            Err(PacketErrorKind::BufferTooShort)
        } else {
            Ok((MDRPacketView::MultipointPinningSet { payload: payload.skip(1) }, payload.len()))
        },
        MDRPacketType::VolumeChangedNotify => if payload.len() < 3 {
            Err(PacketErrorKind::BufferTooShort)
        } else {
            Ok((MDRPacketView::VolumeChangedNotify { volume: payload[2] }, 3nat))
        },
        _ => Ok((MDRPacketView::Unknown { payload }, payload.len())),
    }
}

/// The opcode under which content that starts with `byte` is decoded: a
/// byte outside the opcode table is treated as the reserved test opcode,
/// which has no decoder.
pub open spec fn packet_type_of(byte: u8) -> MDRPacketType {
    match MDRPacketType::of_byte(byte) {
        Some(packet_type) => packet_type,
        None => MDRPacketType::Test,
    }
}

/// The packets that a frame carries: none when the frame is not of the MDR
/// data class, has no content or holds a malformed packet, else the one
/// packet that its content decodes to.
pub open spec fn packets_of_frame(frame: FrameView) -> Seq<MDRPacketView> {
    if frame.content.len() == 0 || frame.data_type != FrameDataType::DataMdr {
        Seq::empty()
    } else {
        match decode_packet(packet_type_of(frame.content[0]), frame.content) {
            Ok((packet, _)) => seq![packet],
            Err(_) => Seq::empty(),
        }
    }
}

/// The packets that a sequence of frames carries, in the order of the
/// frames.
pub open spec fn packets_of_frames(frames: Seq<FrameView>) -> Seq<MDRPacketView>
    decreases frames.len(),
{
    if frames.len() == 0 {
        Seq::empty()
    } else {
        packets_of_frames(frames.drop_last()) + packets_of_frame(frames.last())
    }
}

/// The bytes of a packet that can be sent, opcode first; `None` for a packet
/// that is only ever received.
pub open spec fn encode_packet(packet: MDRPacketView) -> Option<Seq<u8>> {
    match packet {
        MDRPacketView::ConnectGetProtocolInfo => Some(
            seq![MDRPacketType::ConnectGetProtocolInfo.byte(), 0x00u8],
        ),
        MDRPacketView::ConnectGetCapabilityInfo => Some(
            seq![MDRPacketType::ConnectGetCapabilityInfo.byte(), 0x00u8],
        ),
        MDRPacketView::ConnectGetDeviceInfo { inquired_type } => Some(
            seq![MDRPacketType::ConnectGetDeviceInfo.byte(), inquired_type.byte()],
        ),
        MDRPacketView::ConnectGetSupportFunction => Some(
            seq![MDRPacketType::ConnectGetSupportFunction.byte(), 0x00u8],
        ),
        MDRPacketView::ConnectedDeviecesGet { b1 } => Some(
            seq![MDRPacketType::ConnectedDeviecesGet.byte(), b1],
        ),
        MDRPacketView::MultipointPinningSet { payload } => Some(
            seq![MDRPacketType::MultipointPinningSet.byte()] + payload,
        ),
        MDRPacketView::MultipointActiveDeviceSet { flag1, mac_address } => Some(
            seq![MDRPacketType::MultipointActiveDeviceSet.byte(), flag1] + encode_utf8(
                mac_address,
            ),
        ),
        _ => None,
    }
}

/// The view of a decoded packet.
pub open spec fn packet_result_view(result: Result<(MDRPacket, usize), PacketError>) -> Result<
    (MDRPacketView, nat),
    PacketErrorKind,
> {
    match result {
        Ok((packet, size)) => Ok((packet@, size as nat)),
        Err(e) => Err(e@),
    }
}

/// The view of a decoded device entry.
pub open spec fn device_result_view(result: Result<(ConnectedDevice, usize), PacketError>) -> Result<
    (ConnectedDeviceView, int),
    PacketErrorKind,
> {
    match result {
        Ok((device, next)) => Ok((device@, next as int)),
        Err(e) => Err(e@),
    }
}

/// An entry that cannot be read makes every longer list fail with the same
/// error.
proof fn lemma_devices_error(payload: Seq<u8>, failed: nat, count: nat)
    requires
        failed <= count,
        decode_devices(payload, failed) is Err,
    ensures
        decode_devices(payload, count) == decode_devices(payload, failed),
    decreases count,
{
    if failed < count {
        lemma_devices_error(payload, failed, (count - 1) as nat);
    }
}

/// Reads the device entry that starts at `index`.
fn device_from_bytes(payload: &[u8], index: usize) -> (result: Result<
    (ConnectedDevice, usize),
    PacketError,
>)
    requires
        index <= payload@.len(),
    ensures
        device_result_view(result) == decode_device(payload@, index as int),
        result matches Ok((_, next)) ==> index <= next <= payload@.len(),
{
    let len = payload.len();
    if len - index < MAC_TEXT_LEN {
        return Err(PacketError::BufferTooShort);
    }
    let flags_at = index + MAC_TEXT_LEN;
    let mac_address = match text_from_bytes(slice_subrange(payload, index, flags_at)) {
        Ok(text) => text,
        Err(e) => {
            return Err(e);
        },
    };
    if len - flags_at < 5 {
        return Err(PacketError::BufferTooShort);
    }
    let flags = u32_from_be(
        payload[flags_at],
        payload[flags_at + 1],
        payload[flags_at + 2],
        payload[flags_at + 3],
    );
    let name_len = payload[flags_at + 4] as usize;
    let name_at = flags_at + 5;
    if len - name_at < name_len {
        return Err(PacketError::BufferTooShort);
    }
    let name = match text_from_bytes(slice_subrange(payload, name_at, name_at + name_len)) {
        Ok(text) => text,
        Err(e) => {
            return Err(e);
        },
    };
    Ok((ConnectedDevice { mac_address, flags, name }, name_at + name_len))
}

/// Reads the list of paired devices of a device-list reply.
fn device_list_from_bytes(payload: &[u8]) -> (result: Result<(MDRPacket, usize), PacketError>)
    ensures
        packet_result_view(result) == decode_packet(
            MDRPacketType::ConnectedDeviecesRet,
            payload@,
        ),
{
    if payload.len() < 3 {
        return Err(PacketError::BufferTooShort);
    }
    let connected_count = payload[1];
    let paired_count = payload[2];
    let mut devices: Vec<ConnectedDevice> = Vec::new();
    let mut index: usize = 3;
    let mut read: u8 = 0;
    assert(device_views(devices@) =~= Seq::<ConnectedDeviceView>::empty());
    while read < paired_count
        invariant
            read <= paired_count,
            paired_count == payload@[2],
            3 <= index <= payload@.len(),
            decode_devices(payload@, read as nat) == Ok::<
                (Seq<ConnectedDeviceView>, int),
                PacketErrorKind,
            >((device_views(devices@), index as int)),
        decreases paired_count - read,
    {
        match device_from_bytes(payload, index) {
            Err(e) => {
                proof {
                    assert(((read + 1) as nat - 1) as nat == read as nat);
                    assert(decode_devices(payload@, (read + 1) as nat) == Err::<
                        (Seq<ConnectedDeviceView>, int),
                        PacketErrorKind,
                    >(e@));
                    lemma_devices_error(payload@, (read + 1) as nat, paired_count as nat);
                }
                return Err(e);
            },
            Ok((device, next)) => {
                let ghost before = devices@;
                devices.push(device);
                assert(device_views(devices@) =~= device_views(before).push(device@));
                index = next;
            },
        }
        read += 1;
    }
    Ok((MDRPacket::ConnectedDeviecesRet { connected_count, paired_count, devices }, index))
}

/// The packets that a frame carries.
fn packets_in_frame(frame: &Frame) -> (packets: Vec<MDRPacket>)
    ensures
        packet_views(packets@) == packets_of_frame(frame@),
{
    let mut packets: Vec<MDRPacket> = Vec::new();
    assert(packet_views(packets@) =~= Seq::<MDRPacketView>::empty());
    if frame.content.len() == 0 || frame.data_type != FrameDataType::DataMdr {
        return packets;
    }
    let packet_type = match MDRPacketType::from_u8(frame.content[0]) {
        Some(packet_type) => packet_type,
        None => MDRPacketType::Test,
    };
    match MDRPacket::parse_packet(packet_type, frame.content.as_slice()) {
        Ok((packet, _)) => {
            packets.push(packet);
            assert(packet_views(packets@) =~= seq![packet@]);
        },
        Err(_) => {},
    }
    packets
}

impl MDRPacket {
    /// Decodes the content of a frame as a packet of the given opcode.
    /// `payload` is the whole content, opcode byte included. Returns the
    /// packet and the number of bytes that it takes; what follows them is
    /// ignored.
    pub fn parse_packet(packet_type: MDRPacketType, payload: &[u8]) -> (result: Result<
        (MDRPacket, usize),
        PacketError,
    >)
        ensures
            packet_result_view(result) == decode_packet(packet_type, payload@),
    {
        match packet_type {
            MDRPacketType::ConnectRetProtocolInfo => {
                if payload.len() < 3 {
                    return Err(PacketError::BufferTooShort);
                }
                let protocol_version = u16_from_be(payload[1], payload[2]);
                Ok((MDRPacket::ConnectRetProtocolInfo { protocol_version }, 3))
            },
            MDRPacketType::ConnectRetDeviceInfo => {
                if payload.len() < 1 {
                    return Err(PacketError::BufferTooShort);
                }
                let body = slice_subrange(payload, 1, payload.len());
                match ConnectRetDeviceInfo::from_bytes(body) {
                    Ok((info, size)) => Ok((MDRPacket::ConnectRetDeviceInfo(info), size + 1)),
                    Err(e) => Err(e),
                }
            },
            MDRPacketType::CommonNtfyBatteryLevel => {
                if payload.len() < 1 {
                    return Err(PacketError::BufferTooShort);
                }
                let body = slice_subrange(payload, 1, payload.len());
                match CommonRetBatteryLevel::from_bytes(body) {
                    Ok((level, size)) => Ok((MDRPacket::CommonNtfyBatteryLevel(level), size + 1)),
                    Err(e) => Err(e),
                }
            },
            MDRPacketType::ConnectedDeviecesRet => device_list_from_bytes(payload),
            MDRPacketType::MultipointActiveDeviceSet => {
                if payload.len() < 2 + MAC_TEXT_LEN {
                    return Err(PacketError::BufferTooShort);
                }
                let flag1 = payload[1];
                match text_from_bytes(slice_subrange(payload, 2, 2 + MAC_TEXT_LEN)) {
                    Ok(mac_address) => Ok(
                        (
                            MDRPacket::MultipointActiveDeviceSet { flag1, mac_address },
                            2 + MAC_TEXT_LEN,
                        ),
                    ),
                    Err(e) => Err(e),
                }
            },
            MDRPacketType::MultipointPinningSet => {
                if payload.len() < 1 {
                    return Err(PacketError::BufferTooShort);
                }
                let rest = slice_to_vec(slice_subrange(payload, 1, payload.len()));
                Ok((MDRPacket::MultipointPinningSet { payload: rest }, payload.len()))
            },
            MDRPacketType::VolumeChangedNotify => {
                if payload.len() < 3 {
                    return Err(PacketError::BufferTooShort);
                }
                Ok((MDRPacket::VolumeChangedNotify { volume: payload[2] }, 3))
            },
            _ => Ok((MDRPacket::Unknown { payload: slice_to_vec(payload) }, payload.len())),
        }
    }

    /// The packets that a frame carries: at most one. A frame of another
    /// data class, a frame without content and a frame whose content is
    /// malformed carry none.
    pub fn from_frame(frame: Frame) -> (packets: Vec<MDRPacket>)
        ensures
            packet_views(packets@) == packets_of_frame(frame@),
    {
        packets_in_frame(&frame)
    }

    /// The packets that a run of frames carries, in the order of the frames.
    pub fn from_frame_stream(frames: Vec<Frame>) -> (packets: Vec<MDRPacket>)
        ensures
            packet_views(packets@) == packets_of_frames(frame_views(frames@)),
    {
        let ghost all = frame_views(frames@);
        let mut packets: Vec<MDRPacket> = Vec::new();
        assert(packet_views(packets@) =~= Seq::<MDRPacketView>::empty());
        let mut i: usize = 0;
        while i < frames.len()
            invariant
                i <= frames.len(),
                all == frame_views(frames@),
                packet_views(packets@) == packets_of_frames(all.take(i as int)),
            decreases frames.len() - i,
        {
            proof {
                assert(all.take(i + 1).drop_last() =~= all.take(i as int));
                assert(all.take(i + 1).last() == frames@[i as int]@);
            }
            let ghost before = packets@;
            let mut found = packets_in_frame(&frames[i]);
            let ghost found_view = packet_views(found@);
            packets.append(&mut found);
            assert(packet_views(packets@) =~= packet_views(before) + found_view);
            i += 1;
        }
        assert(all.take(i as int) =~= all);
        packets
    }

    /// The bytes of this packet, opcode first, if it is one that can be
    /// sent; `None` if it is one that is only ever received.
    pub fn to_bytes(&self) -> (bytes: Option<Vec<u8>>)
        ensures
            match bytes {
                Some(bytes) => encode_packet(self@) == Some(bytes@),
                None => encode_packet(self@) is None,
            },
    {
        match self {
            MDRPacket::ConnectGetProtocolInfo => {
                let mut bytes: Vec<u8> = Vec::new();
                bytes.push(MDRPacketType::ConnectGetProtocolInfo.to_u8());
                bytes.push(0x00);
                assert(bytes@ =~= encode_packet(self@)->0);
                Some(bytes)
            },
            MDRPacket::ConnectGetCapabilityInfo => {
                let mut bytes: Vec<u8> = Vec::new();
                bytes.push(MDRPacketType::ConnectGetCapabilityInfo.to_u8());
                bytes.push(0x00);
                assert(bytes@ =~= encode_packet(self@)->0);
                Some(bytes)
            },
            MDRPacket::ConnectGetDeviceInfo { inquired_type } => {
                let mut bytes: Vec<u8> = Vec::new();
                bytes.push(MDRPacketType::ConnectGetDeviceInfo.to_u8());
                bytes.push(inquired_type.to_u8());
                assert(bytes@ =~= encode_packet(self@)->0);
                Some(bytes)
            },
            MDRPacket::ConnectGetSupportFunction => {
                let mut bytes: Vec<u8> = Vec::new();
                bytes.push(MDRPacketType::ConnectGetSupportFunction.to_u8());
                bytes.push(0x00);
                assert(bytes@ =~= encode_packet(self@)->0);
                Some(bytes)
            },
            MDRPacket::ConnectedDeviecesGet { b1 } => {
                let mut bytes: Vec<u8> = Vec::new();
                bytes.push(MDRPacketType::ConnectedDeviecesGet.to_u8());
                bytes.push(*b1);
                assert(bytes@ =~= encode_packet(self@)->0);
                Some(bytes)
            },
            MDRPacket::MultipointPinningSet { payload } => {
                let mut bytes: Vec<u8> = Vec::new();
                bytes.push(MDRPacketType::MultipointPinningSet.to_u8());
                bytes.extend_from_slice(payload.as_slice());
                assert(bytes@ =~= encode_packet(self@)->0);
                Some(bytes)
            },
            MDRPacket::MultipointActiveDeviceSet { flag1, mac_address } => {
                let mut bytes: Vec<u8> = Vec::new();
                bytes.push(MDRPacketType::MultipointActiveDeviceSet.to_u8());
                bytes.push(*flag1);
                bytes.extend_from_slice(mac_address.as_str().as_bytes());
                assert(bytes@ =~= encode_packet(self@)->0);
                Some(bytes)
            },
            _ => None,
        }
    }
}

} // verus!
