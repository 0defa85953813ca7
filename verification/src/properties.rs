//! The known state of a device, gathered from the packets it has sent.

use vstd::prelude::*;
use vstd::slice::slice_to_vec;
use crate::mdr::{
    device_views, CommonRetBatteryLevel, ConnectRetDeviceInfo, ConnectRetDeviceInfoView,
    ConnectedDevice, ConnectedDeviceView, MDRPacket, MDRPacketView,
};
use crate::opcodes::{ModelColor, ModelSeries};

verus! {

/// The charge of one battery.
#[derive(Debug, Clone, Copy, PartialEq, Eq, Structural)]
pub struct BatteryStatus {
    pub level: u8,
    pub is_charging: bool,
}

/// The devices that a headset is paired with, as it last reported them.
#[derive(Debug, Clone)]
pub struct DeviceList {
    pub connected_count: u8,
    pub paired_count: u8,
    pub devices: Vec<ConnectedDevice>,
}

/// A device list as a mathematical value.
pub struct DeviceListView {
    pub connected_count: u8,
    pub paired_count: u8,
    pub devices: Seq<ConnectedDeviceView>,
}

impl View for DeviceList {
    type V = DeviceListView;

    open spec fn view(&self) -> DeviceListView {
        DeviceListView {
            connected_count: self.connected_count,
            paired_count: self.paired_count,
            devices: device_views(self.devices@),
        }
    }
}

/// A snapshot of what is known of a device. Each field holds the value that
/// the device reported last, or `None` while it has reported none.
#[derive(Debug, Clone)]
pub struct HeadphoneProperties {
    pub protocol_version: Option<u16>,
    pub model_name: Option<String>,
    pub fw_version: Option<String>,
    pub series_and_color: Option<(ModelSeries, ModelColor)>,
    pub instruction_guide: Option<Vec<u8>>,
    pub battery: Option<BatteryStatus>,
    pub left_battery: Option<BatteryStatus>,
    pub right_battery: Option<BatteryStatus>,
    pub cradle_battery: Option<BatteryStatus>,
    pub paired_devices: Option<DeviceList>,
    pub volume: Option<u8>,
}

/// A snapshot as a mathematical value.
pub struct HeadphonePropertiesView {
    pub protocol_version: Option<u16>,
    pub model_name: Option<Seq<char>>,
    pub fw_version: Option<Seq<char>>,
    pub series_and_color: Option<(ModelSeries, ModelColor)>,
    pub instruction_guide: Option<Seq<u8>>,
    pub battery: Option<BatteryStatus>,
    pub left_battery: Option<BatteryStatus>,
    pub right_battery: Option<BatteryStatus>,
    pub cradle_battery: Option<BatteryStatus>,
    pub paired_devices: Option<DeviceListView>,
    pub volume: Option<u8>,
}

impl View for HeadphoneProperties {
    type V = HeadphonePropertiesView;

    open spec fn view(&self) -> HeadphonePropertiesView {
        HeadphonePropertiesView {
            protocol_version: self.protocol_version,
            model_name: match self.model_name {
                Some(name) => Some(name@),
                None => None,
            },
            fw_version: match self.fw_version {
                Some(version) => Some(version@),
                None => None,
            },
            series_and_color: self.series_and_color,
            instruction_guide: match self.instruction_guide {
                Some(guide) => Some(guide@),
                None => None,
            },
            battery: self.battery,
            left_battery: self.left_battery,
            right_battery: self.right_battery,
            cradle_battery: self.cradle_battery,
            paired_devices: match self.paired_devices {
                Some(list) => Some(list@),
                None => None,
            },
            volume: self.volume,
        }
    }
}

impl HeadphonePropertiesView {
    /// The snapshot of a device that has reported nothing.
    pub open spec fn unknown() -> HeadphonePropertiesView {
        HeadphonePropertiesView {
            protocol_version: None,
            model_name: None,
            fw_version: None,
            series_and_color: None,
            instruction_guide: None,
            battery: None,
            left_battery: None,
            right_battery: None,
            cradle_battery: None,
            paired_devices: None,
            volume: None,
        }
    }

    /// The snapshot after one more packet: what the packet reports replaces
    /// what was known of it, everything else stays. A packet that reports
    /// nothing, such as a query or an unrecognized packet, changes nothing.
    pub open spec fn updated(self, packet: MDRPacketView) -> HeadphonePropertiesView {
        match packet {
            MDRPacketView::ConnectRetProtocolInfo { protocol_version } => HeadphonePropertiesView {
                protocol_version: Some(protocol_version),
                ..self
            },
            MDRPacketView::ConnectRetDeviceInfo(ConnectRetDeviceInfoView::ModelName(name)) => {
                HeadphonePropertiesView { model_name: Some(name), ..self }
            },
            MDRPacketView::ConnectRetDeviceInfo(ConnectRetDeviceInfoView::FwVersion(version)) => {
                HeadphonePropertiesView { fw_version: Some(version), ..self }
            },
            MDRPacketView::ConnectRetDeviceInfo(
                ConnectRetDeviceInfoView::SeriesAndColorInfo(series, color),
            ) => HeadphonePropertiesView { series_and_color: Some((series, color)), ..self },
            MDRPacketView::ConnectRetDeviceInfo(
                ConnectRetDeviceInfoView::InstructionGuide(guide),
            ) => HeadphonePropertiesView { instruction_guide: Some(guide), ..self },
            MDRPacketView::CommonNtfyBatteryLevel(
                CommonRetBatteryLevel::Battery { level, is_charging },
            ) => HeadphonePropertiesView {
                battery: Some(BatteryStatus { level, is_charging }),
                ..self
            },
            MDRPacketView::CommonNtfyBatteryLevel(
                CommonRetBatteryLevel::LeftRightBattery {
                    left_level,
                    left_charging,
                    right_level,
                    right_charging,
                },
            ) => HeadphonePropertiesView {
                left_battery: Some(BatteryStatus { level: left_level, is_charging: left_charging }),
                right_battery: Some(
                    BatteryStatus { level: right_level, is_charging: right_charging },
                ),
                ..self
            },
            MDRPacketView::CommonNtfyBatteryLevel(
                CommonRetBatteryLevel::CradleBattery { level, is_charging },
            ) => HeadphonePropertiesView {
                cradle_battery: Some(BatteryStatus { level, is_charging }),
                ..self
            },
            MDRPacketView::ConnectedDeviecesRet { connected_count, paired_count, devices } => {
                HeadphonePropertiesView {
                    paired_devices: Some(DeviceListView { connected_count, paired_count, devices }),
                    ..self
                }
            },
            MDRPacketView::VolumeChangedNotify { volume } => HeadphonePropertiesView {
                volume: Some(volume),
                ..self
            },
            _ => self,
        }
    }

    /// The snapshot after a run of packets, folded in one after the other.
    pub open spec fn updated_all(self, packets: Seq<MDRPacketView>) -> HeadphonePropertiesView
        decreases packets.len(),
    {
        if packets.len() == 0 {
            self
        } else {
            self.updated_all(packets.drop_last()).updated(packets.last())
        }
    }
}

/// A copy of a list of device entries.
fn copy_devices(devices: &Vec<ConnectedDevice>) -> (copy: Vec<ConnectedDevice>)
    ensures
        device_views(copy@) == device_views(devices@),
{
    let mut copy: Vec<ConnectedDevice> = Vec::new();
    let mut i: usize = 0;
    while i < devices.len()
        invariant
            i <= devices.len(),
            device_views(copy@) =~= device_views(devices@).take(i as int),
        decreases devices.len() - i,
    {
        let device = &devices[i];
        let ghost before = copy@;
        let entry = ConnectedDevice {
            mac_address: device.mac_address.clone(),
            flags: device.flags,
            name: device.name.clone(),
        };
        assert(entry@ == devices@[i as int]@);
        copy.push(entry);
        assert(device_views(copy@) =~= device_views(before).push(entry@));
        assert(device_views(devices@).take(i + 1) =~= device_views(devices@).take(i as int).push(
            entry@,
        ));
        i += 1;
    }
    assert(device_views(devices@).take(i as int) =~= device_views(devices@));
    copy
}

impl HeadphoneProperties {
    /// The snapshot of a device that has reported nothing yet.
    pub fn new() -> (properties: HeadphoneProperties)
        ensures
            properties@ == HeadphonePropertiesView::unknown(),
    {
        HeadphoneProperties {
            protocol_version: None,
            model_name: None,
            fw_version: None,
            series_and_color: None,
            instruction_guide: None,
            battery: None,
            left_battery: None,
            right_battery: None,
            cradle_battery: None,
            paired_devices: None,
            volume: None,
        }
    }

    /// Folds one packet into the snapshot.
    pub fn update(&mut self, packet: &MDRPacket)
        ensures
            final(self)@ == old(self)@.updated(packet@),
    {
        match packet {
            MDRPacket::ConnectRetProtocolInfo { protocol_version } => {
                self.protocol_version = Some(*protocol_version);
            },
            MDRPacket::ConnectRetDeviceInfo(info) => match info {
                ConnectRetDeviceInfo::ModelName(name) => {
                    self.model_name = Some(name.clone());
                },
                ConnectRetDeviceInfo::FwVersion(version) => {
                    self.fw_version = Some(version.clone());
                },
                ConnectRetDeviceInfo::SeriesAndColorInfo(series, color) => {
                    self.series_and_color = Some((*series, *color));
                },
                ConnectRetDeviceInfo::InstructionGuide(guide) => {
                    self.instruction_guide = Some(slice_to_vec(guide.as_slice()));
                },
            },
            MDRPacket::CommonNtfyBatteryLevel(level) => match level {
                CommonRetBatteryLevel::Battery { level, is_charging } => {
                    self.battery = Some(BatteryStatus { level: *level, is_charging: *is_charging });
                },
                CommonRetBatteryLevel::LeftRightBattery {
                    left_level,
                    left_charging,
                    right_level,
                    right_charging,
                } => {
                    self.left_battery = Some(
                        BatteryStatus { level: *left_level, is_charging: *left_charging },
                    );
                    self.right_battery = Some(
                        BatteryStatus { level: *right_level, is_charging: *right_charging },
                    );
                },
                CommonRetBatteryLevel::CradleBattery { level, is_charging } => {
                    self.cradle_battery = Some(
                        BatteryStatus { level: *level, is_charging: *is_charging },
                    );
                },
            },
            MDRPacket::ConnectedDeviecesRet { connected_count, paired_count, devices } => {
                self.paired_devices = Some(
                    DeviceList {
                        connected_count: *connected_count,
                        paired_count: *paired_count,
                        devices: copy_devices(devices),
                    },
                );
            },
            MDRPacket::VolumeChangedNotify { volume } => {
                self.volume = Some(*volume);
            },
            _ => {},
        }
    }
}

} // verus!
