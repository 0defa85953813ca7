//! The byte-coded enumerations of the packet layer, each with the byte that
//! stands for it on the wire.

use vstd::prelude::*;

verus! {

/// The opcode of a packet: the first byte of a frame's content.
#[derive(Debug, Clone, Copy, PartialEq, Eq, Structural)]
pub enum MDRPacketType {
    ConnectGetProtocolInfo,
    ConnectRetProtocolInfo,
    ConnectGetCapabilityInfo,
    ConnectGetDeviceInfo,
    ConnectRetDeviceInfo,
    ConnectGetSupportFunction,
    CommonNtfyBatteryLevel,
    ConnectedDeviecesGet,
    ConnectedDeviecesRet,
    MultipointPinningSet,
    MultipointActiveDeviceSet,
    VolumeChangedNotify,
    Test,
}

impl MDRPacketType {
    /// The byte that stands for this value on the wire.
    pub open spec fn byte(self) -> u8 {
        match self {
            MDRPacketType::ConnectGetProtocolInfo => 0x00,
            MDRPacketType::ConnectRetProtocolInfo => 0x01,
            MDRPacketType::ConnectGetCapabilityInfo => 0x02,
            MDRPacketType::ConnectGetDeviceInfo => 0x04,
            MDRPacketType::ConnectRetDeviceInfo => 0x05,
            MDRPacketType::ConnectGetSupportFunction => 0x06,
            MDRPacketType::CommonNtfyBatteryLevel => 0x13,
            MDRPacketType::ConnectedDeviecesGet => 0x36,
            MDRPacketType::ConnectedDeviecesRet => 0x37,
            MDRPacketType::MultipointPinningSet => 0x38,
            MDRPacketType::MultipointActiveDeviceSet => 0x3c,
            MDRPacketType::VolumeChangedNotify => 0xa9,
            MDRPacketType::Test => 0xff,
        }
    }

    /// The value that a byte stands for, if it stands for one.
    pub open spec fn of_byte(byte: u8) -> Option<MDRPacketType> {
        if byte == 0x00 {
            Some(MDRPacketType::ConnectGetProtocolInfo)
        } else if byte == 0x01 {
            Some(MDRPacketType::ConnectRetProtocolInfo)
        } else if byte == 0x02 {
            Some(MDRPacketType::ConnectGetCapabilityInfo)
        } else if byte == 0x04 {
            Some(MDRPacketType::ConnectGetDeviceInfo)
        } else if byte == 0x05 {
            Some(MDRPacketType::ConnectRetDeviceInfo)
        } else if byte == 0x06 {
            Some(MDRPacketType::ConnectGetSupportFunction)
        } else if byte == 0x13 {
            Some(MDRPacketType::CommonNtfyBatteryLevel)
        } else if byte == 0x36 {
            Some(MDRPacketType::ConnectedDeviecesGet)
        } else if byte == 0x37 {
            Some(MDRPacketType::ConnectedDeviecesRet)
        } else if byte == 0x38 {
            Some(MDRPacketType::MultipointPinningSet)
        } else if byte == 0x3c {
            Some(MDRPacketType::MultipointActiveDeviceSet)
        } else if byte == 0xa9 {
            Some(MDRPacketType::VolumeChangedNotify)
        } else if byte == 0xff {
            Some(MDRPacketType::Test)
        } else {
            None
        }
    }

    /// The byte that stands for this value on the wire.
    pub fn to_u8(self) -> (byte: u8)
        ensures
            byte == self.byte(),
    {
        match self {
            MDRPacketType::ConnectGetProtocolInfo => 0x00,
            MDRPacketType::ConnectRetProtocolInfo => 0x01,
            MDRPacketType::ConnectGetCapabilityInfo => 0x02,
            MDRPacketType::ConnectGetDeviceInfo => 0x04,
            MDRPacketType::ConnectRetDeviceInfo => 0x05,
            MDRPacketType::ConnectGetSupportFunction => 0x06,
            MDRPacketType::CommonNtfyBatteryLevel => 0x13,
            MDRPacketType::ConnectedDeviecesGet => 0x36,
            MDRPacketType::ConnectedDeviecesRet => 0x37,
            MDRPacketType::MultipointPinningSet => 0x38,
            MDRPacketType::MultipointActiveDeviceSet => 0x3c,
            MDRPacketType::VolumeChangedNotify => 0xa9,
            MDRPacketType::Test => 0xff,
        }
    }

    /// The value that `byte` stands for, or `None` for a byte outside the
    /// table.
    pub fn from_u8(byte: u8) -> (value: Option<MDRPacketType>)
        ensures
            value == MDRPacketType::of_byte(byte),
    {
        match byte {
            0x00 => Some(MDRPacketType::ConnectGetProtocolInfo),
            0x01 => Some(MDRPacketType::ConnectRetProtocolInfo),
            0x02 => Some(MDRPacketType::ConnectGetCapabilityInfo),
            0x04 => Some(MDRPacketType::ConnectGetDeviceInfo),
            0x05 => Some(MDRPacketType::ConnectRetDeviceInfo),
            0x06 => Some(MDRPacketType::ConnectGetSupportFunction),
            0x13 => Some(MDRPacketType::CommonNtfyBatteryLevel),
            0x36 => Some(MDRPacketType::ConnectedDeviecesGet),
            0x37 => Some(MDRPacketType::ConnectedDeviecesRet),
            0x38 => Some(MDRPacketType::MultipointPinningSet),
            0x3c => Some(MDRPacketType::MultipointActiveDeviceSet),
            0xa9 => Some(MDRPacketType::VolumeChangedNotify),
            0xff => Some(MDRPacketType::Test),
            _ => None,
        }
    }

    /// Every value is found again from its byte, and a byte that stands for
    /// a value is the byte of that value.
    pub proof fn lemma_byte_round_trip(value: MDRPacketType, byte: u8)
        ensures
            MDRPacketType::of_byte(value.byte()) == Some(value),
            MDRPacketType::of_byte(byte) matches Some(v) ==> v.byte() == byte,
    {
    }
}

/// Which piece of device information a device-info packet asks for or carries.
#[derive(Debug, Clone, Copy, PartialEq, Eq, Structural)]
pub enum DeviceInfoInquiredType {
    ModelName,
    FwVersion,
    SeriesAndColorInfo,
    InstructionGuide,
}

impl DeviceInfoInquiredType {
    /// The byte that stands for this value on the wire.
    pub open spec fn byte(self) -> u8 {
        match self {
            DeviceInfoInquiredType::ModelName => 0x01,
            DeviceInfoInquiredType::FwVersion => 0x02,
            DeviceInfoInquiredType::SeriesAndColorInfo => 0x03,
            DeviceInfoInquiredType::InstructionGuide => 0x04,
        }
    }

    /// The value that a byte stands for, if it stands for one.
    pub open spec fn of_byte(byte: u8) -> Option<DeviceInfoInquiredType> {
        if byte == 0x01 {
            Some(DeviceInfoInquiredType::ModelName)
        } else if byte == 0x02 {
            Some(DeviceInfoInquiredType::FwVersion)
        } else if byte == 0x03 {
            Some(DeviceInfoInquiredType::SeriesAndColorInfo)
        } else if byte == 0x04 {
            Some(DeviceInfoInquiredType::InstructionGuide)
        } else {
            None
        }
    }

    /// The byte that stands for this value on the wire.
    pub fn to_u8(self) -> (byte: u8)
        ensures
            byte == self.byte(),
    {
        match self {
            DeviceInfoInquiredType::ModelName => 0x01,
            DeviceInfoInquiredType::FwVersion => 0x02,
            DeviceInfoInquiredType::SeriesAndColorInfo => 0x03,
            DeviceInfoInquiredType::InstructionGuide => 0x04,
        }
    }

    /// The value that `byte` stands for, or `None` for a byte outside the
    /// table.
    pub fn from_u8(byte: u8) -> (value: Option<DeviceInfoInquiredType>)
        ensures
            value == DeviceInfoInquiredType::of_byte(byte),
    {
        match byte {
            0x01 => Some(DeviceInfoInquiredType::ModelName),
            0x02 => Some(DeviceInfoInquiredType::FwVersion),
            0x03 => Some(DeviceInfoInquiredType::SeriesAndColorInfo),
            0x04 => Some(DeviceInfoInquiredType::InstructionGuide),
            _ => None,
        }
    }

    /// Every value is found again from its byte, and a byte that stands for
    /// a value is the byte of that value.
    pub proof fn lemma_byte_round_trip(value: DeviceInfoInquiredType, byte: u8)
        ensures
            DeviceInfoInquiredType::of_byte(value.byte()) == Some(value),
            DeviceInfoInquiredType::of_byte(byte) matches Some(v) ==> v.byte() == byte,
    {
    }
}

/// The product line of a device.
#[derive(Debug, Clone, Copy, PartialEq, Eq, Structural)]
pub enum ModelSeries {
    NoSeries,
    ExtraBass,
    Hear,
    Premium,
    Sports,
    Casual,
}

impl ModelSeries {
    /// The byte that stands for this value on the wire.
    pub open spec fn byte(self) -> u8 {
        match self {
            ModelSeries::NoSeries => 0x00,
            ModelSeries::ExtraBass => 0x10,
            ModelSeries::Hear => 0x20,
            ModelSeries::Premium => 0x30,
            ModelSeries::Sports => 0x40,
            ModelSeries::Casual => 0x50,
        }
    }

    /// The value that a byte stands for, if it stands for one.
    pub open spec fn of_byte(byte: u8) -> Option<ModelSeries> {
        if byte == 0x00 {
            Some(ModelSeries::NoSeries)
        } else if byte == 0x10 {
            Some(ModelSeries::ExtraBass)
        } else if byte == 0x20 {
            Some(ModelSeries::Hear)
        } else if byte == 0x30 {
            Some(ModelSeries::Premium)
        } else if byte == 0x40 {
            Some(ModelSeries::Sports)
        } else if byte == 0x50 {
            Some(ModelSeries::Casual)
        } else {
            None
        }
    }

    /// The byte that stands for this value on the wire.
    pub fn to_u8(self) -> (byte: u8)
        ensures
            byte == self.byte(),
    {
        match self {
            ModelSeries::NoSeries => 0x00,
            ModelSeries::ExtraBass => 0x10,
            ModelSeries::Hear => 0x20,
            ModelSeries::Premium => 0x30,
            ModelSeries::Sports => 0x40,
            ModelSeries::Casual => 0x50,
        }
    }

    /// The value that `byte` stands for, or `None` for a byte outside the
    /// table.
    pub fn from_u8(byte: u8) -> (value: Option<ModelSeries>)
        ensures
            value == ModelSeries::of_byte(byte),
    {
        match byte {
            0x00 => Some(ModelSeries::NoSeries),
            0x10 => Some(ModelSeries::ExtraBass),
            0x20 => Some(ModelSeries::Hear),
            0x30 => Some(ModelSeries::Premium),
            0x40 => Some(ModelSeries::Sports),
            0x50 => Some(ModelSeries::Casual),
            _ => None,
        }
    }

    /// Every value is found again from its byte, and a byte that stands for
    /// a value is the byte of that value.
    pub proof fn lemma_byte_round_trip(value: ModelSeries, byte: u8)
        ensures
            ModelSeries::of_byte(value.byte()) == Some(value),
            ModelSeries::of_byte(byte) matches Some(v) ==> v.byte() == byte,
    {
    }
}

/// The colour of a device.
#[derive(Debug, Clone, Copy, PartialEq, Eq, Structural)]
pub enum ModelColor {
    Default,
    Black,
    White,
    Silver,
    Red,
    Blue,
    Pink,
    Yellow,
    Green,
    Gray,
    Gold,
    Cream,
    Orange,
    Brown,
    Violet,
}

impl ModelColor {
    /// The byte that stands for this value on the wire.
    pub open spec fn byte(self) -> u8 {
        match self {
            ModelColor::Default => 0x00,
            ModelColor::Black => 0x01,
            ModelColor::White => 0x02,
            ModelColor::Silver => 0x03,
            ModelColor::Red => 0x04,
            ModelColor::Blue => 0x05,
            ModelColor::Pink => 0x06,
            ModelColor::Yellow => 0x07,
            ModelColor::Green => 0x08,
            ModelColor::Gray => 0x09,
            ModelColor::Gold => 0x0a,
            ModelColor::Cream => 0x0b,
            ModelColor::Orange => 0x0c,
            ModelColor::Brown => 0x0d,
            ModelColor::Violet => 0x0e,
        }
    }

    /// The value that a byte stands for, if it stands for one.
    pub open spec fn of_byte(byte: u8) -> Option<ModelColor> {
        if byte == 0x00 {
            Some(ModelColor::Default)
        } else if byte == 0x01 {
            Some(ModelColor::Black)
        } else if byte == 0x02 {
            Some(ModelColor::White)
        } else if byte == 0x03 {
            Some(ModelColor::Silver)
        } else if byte == 0x04 {
            Some(ModelColor::Red)
        } else if byte == 0x05 {
            Some(ModelColor::Blue)
        } else if byte == 0x06 {
            Some(ModelColor::Pink)
        } else if byte == 0x07 {
            Some(ModelColor::Yellow)
        } else if byte == 0x08 {
            Some(ModelColor::Green)
        } else if byte == 0x09 {
            Some(ModelColor::Gray)
        } else if byte == 0x0a {
            Some(ModelColor::Gold)
        } else if byte == 0x0b {
            Some(ModelColor::Cream)
        } else if byte == 0x0c {
            Some(ModelColor::Orange)
        } else if byte == 0x0d {
            Some(ModelColor::Brown)
        } else if byte == 0x0e {
            Some(ModelColor::Violet)
        } else {
            None
        }
    }

    /// The byte that stands for this value on the wire.
    pub fn to_u8(self) -> (byte: u8)
        ensures
            byte == self.byte(),
    {
        match self {
            ModelColor::Default => 0x00,
            ModelColor::Black => 0x01,
            ModelColor::White => 0x02,
            ModelColor::Silver => 0x03,
            ModelColor::Red => 0x04,
            ModelColor::Blue => 0x05,
            ModelColor::Pink => 0x06,
            ModelColor::Yellow => 0x07,
            ModelColor::Green => 0x08,
            ModelColor::Gray => 0x09,
            ModelColor::Gold => 0x0a,
            ModelColor::Cream => 0x0b,
            ModelColor::Orange => 0x0c,
            ModelColor::Brown => 0x0d,
            ModelColor::Violet => 0x0e,
        }
    }

    /// The value that `byte` stands for, or `None` for a byte outside the
    /// table.
    pub fn from_u8(byte: u8) -> (value: Option<ModelColor>)
        ensures
            value == ModelColor::of_byte(byte),
    {
        match byte {
            0x00 => Some(ModelColor::Default),
            0x01 => Some(ModelColor::Black),
            0x02 => Some(ModelColor::White),
            0x03 => Some(ModelColor::Silver),
            0x04 => Some(ModelColor::Red),
            0x05 => Some(ModelColor::Blue),
            0x06 => Some(ModelColor::Pink),
            0x07 => Some(ModelColor::Yellow),
            0x08 => Some(ModelColor::Green),
            0x09 => Some(ModelColor::Gray),
            0x0a => Some(ModelColor::Gold),
            0x0b => Some(ModelColor::Cream),
            0x0c => Some(ModelColor::Orange),
            0x0d => Some(ModelColor::Brown),
            0x0e => Some(ModelColor::Violet),
            _ => None,
        }
    }

    /// Every value is found again from its byte, and a byte that stands for
    /// a value is the byte of that value.
    pub proof fn lemma_byte_round_trip(value: ModelColor, byte: u8)
        ensures
            ModelColor::of_byte(value.byte()) == Some(value),
            ModelColor::of_byte(byte) matches Some(v) ==> v.byte() == byte,
    {
    }
}

/// Which battery a battery packet reports on.
#[derive(Debug, Clone, Copy, PartialEq, Eq, Structural)]
pub enum BatteryInquiredType {
    Battery,
    LeftRightBattery,
    CradleBattery,
}

impl BatteryInquiredType {
    /// The byte that stands for this value on the wire.
    pub open spec fn byte(self) -> u8 {
        match self {
            BatteryInquiredType::Battery => 0x00,
            BatteryInquiredType::LeftRightBattery => 0x02,
            BatteryInquiredType::CradleBattery => 0x03,
        }
    }

    /// The value that a byte stands for, if it stands for one.
    pub open spec fn of_byte(byte: u8) -> Option<BatteryInquiredType> {
        if byte == 0x00 {
            Some(BatteryInquiredType::Battery)
        } else if byte == 0x02 {
            Some(BatteryInquiredType::LeftRightBattery)
        } else if byte == 0x03 {
            Some(BatteryInquiredType::CradleBattery)
        } else {
            None
        }
    }

    /// The byte that stands for this value on the wire.
    pub fn to_u8(self) -> (byte: u8)
        ensures
            byte == self.byte(),
    {
        match self {
            BatteryInquiredType::Battery => 0x00,
            BatteryInquiredType::LeftRightBattery => 0x02,
            BatteryInquiredType::CradleBattery => 0x03,
        }
    }

    /// The value that `byte` stands for, or `None` for a byte outside the
    /// table.
    pub fn from_u8(byte: u8) -> (value: Option<BatteryInquiredType>)
        ensures
            value == BatteryInquiredType::of_byte(byte),
    {
        match byte {
            0x00 => Some(BatteryInquiredType::Battery),
            0x02 => Some(BatteryInquiredType::LeftRightBattery),
            0x03 => Some(BatteryInquiredType::CradleBattery),
            _ => None,
        }
    }

    /// Every value is found again from its byte, and a byte that stands for
    /// a value is the byte of that value.
    pub proof fn lemma_byte_round_trip(value: BatteryInquiredType, byte: u8)
        ensures
            BatteryInquiredType::of_byte(value.byte()) == Some(value),
            BatteryInquiredType::of_byte(byte) matches Some(v) ==> v.byte() == byte,
    {
    }
}

/// A function that a device may support.
#[derive(Debug, Clone, Copy, PartialEq, Eq, Structural)]
pub enum FunctionType {
    BatteryLevel,
    UpscalingIndicator,
    CodecIndicator,
    BleSetup,
    LeftRightBatteryLevel,
    LeftRightConnectionStatus,
    CradleBatteryLevel,
    PowerOff,
    ConciergeData,
    TandemKeepAlive,
    FwUpdate,
    PairingDeviceManagementClassicBt,
    VoiceGuidance,
    Vpt,
    SoundPosition,
    PresetEq,
    Ebb,
    PresetEqNoncustomizable,
    NoiseCancelling,
    NoiseCancellingAndAmbientSoundMode,
    AmbientSoundMode,
    AutoNcAsm,
    NcOptimizer,
    VibratorAlertNotification,
    PlaybackController,
    TrainingMode,
    ActionLogNotifier,
    GeneralSetting1,
    GeneralSetting2,
    GeneralSetting3,
    ConnectionMode,
    Upscaling,
    Vibrator,
    PowerSavingMode,
    ControlByWearing,
    SmartTalkingMode,
    AutoPowerOff,
    AssignableSettings,
}

impl FunctionType {
    /// The byte that stands for this value on the wire.
    pub open spec fn byte(self) -> u8 {
        match self {
            FunctionType::BatteryLevel => 0x11,
            FunctionType::UpscalingIndicator => 0x12,
            FunctionType::CodecIndicator => 0x13,
            FunctionType::BleSetup => 0x14,
            FunctionType::LeftRightBatteryLevel => 0x15,
            FunctionType::LeftRightConnectionStatus => 0x17,
            FunctionType::CradleBatteryLevel => 0x18,
            FunctionType::PowerOff => 0x21,
            FunctionType::ConciergeData => 0x22,
            FunctionType::TandemKeepAlive => 0x23,
            FunctionType::FwUpdate => 0x30,
            FunctionType::PairingDeviceManagementClassicBt => 0x38,
            FunctionType::VoiceGuidance => 0x39,
            FunctionType::Vpt => 0x41,
            FunctionType::SoundPosition => 0x42,
            FunctionType::PresetEq => 0x51,
            FunctionType::Ebb => 0x52,
            FunctionType::PresetEqNoncustomizable => 0x53,
            FunctionType::NoiseCancelling => 0x61,
            FunctionType::NoiseCancellingAndAmbientSoundMode => 0x62,
            FunctionType::AmbientSoundMode => 0x63,
            FunctionType::AutoNcAsm => 0x71,
            FunctionType::NcOptimizer => 0x81,
            FunctionType::VibratorAlertNotification => 0x92,
            FunctionType::PlaybackController => 0xa1,
            FunctionType::TrainingMode => 0xb1,
            FunctionType::ActionLogNotifier => 0xc1,
            FunctionType::GeneralSetting1 => 0xd1,
            FunctionType::GeneralSetting2 => 0xd2,
            FunctionType::GeneralSetting3 => 0xd3,
            FunctionType::ConnectionMode => 0xe1,
            FunctionType::Upscaling => 0xe2,
            FunctionType::Vibrator => 0xf1,
            FunctionType::PowerSavingMode => 0xf2,
            FunctionType::ControlByWearing => 0xf3,
            FunctionType::SmartTalkingMode => 0xf5,
            FunctionType::AutoPowerOff => 0xf4,
            FunctionType::AssignableSettings => 0xf6,
        }
    }

    /// The value that a byte stands for, if it stands for one.
    pub open spec fn of_byte(byte: u8) -> Option<FunctionType> {
        if byte == 0x11 {
            Some(FunctionType::BatteryLevel)
        } else if byte == 0x12 {
            Some(FunctionType::UpscalingIndicator)
        } else if byte == 0x13 {
            Some(FunctionType::CodecIndicator)
        } else if byte == 0x14 {
            Some(FunctionType::BleSetup)
        } else if byte == 0x15 {
            Some(FunctionType::LeftRightBatteryLevel)
        } else if byte == 0x17 {
            Some(FunctionType::LeftRightConnectionStatus)
        } else if byte == 0x18 {
            Some(FunctionType::CradleBatteryLevel)
        } else if byte == 0x21 {
            Some(FunctionType::PowerOff)
        } else if byte == 0x22 {
            Some(FunctionType::ConciergeData)
        } else if byte == 0x23 {
            Some(FunctionType::TandemKeepAlive)
        } else if byte == 0x30 {
            Some(FunctionType::FwUpdate)
        } else if byte == 0x38 {
            Some(FunctionType::PairingDeviceManagementClassicBt)
        } else if byte == 0x39 {
            Some(FunctionType::VoiceGuidance)
        } else if byte == 0x41 {
            Some(FunctionType::Vpt)
        } else if byte == 0x42 {
            Some(FunctionType::SoundPosition)
        } else if byte == 0x51 {
            Some(FunctionType::PresetEq)
        } else if byte == 0x52 {
            Some(FunctionType::Ebb)
        } else if byte == 0x53 {
            Some(FunctionType::PresetEqNoncustomizable)
        } else if byte == 0x61 {
            Some(FunctionType::NoiseCancelling)
        } else if byte == 0x62 {
            Some(FunctionType::NoiseCancellingAndAmbientSoundMode)
        } else if byte == 0x63 {
            Some(FunctionType::AmbientSoundMode)
        } else if byte == 0x71 {
            Some(FunctionType::AutoNcAsm)
        } else if byte == 0x81 {
            Some(FunctionType::NcOptimizer)
        } else if byte == 0x92 {
            Some(FunctionType::VibratorAlertNotification)
        } else if byte == 0xa1 {
            Some(FunctionType::PlaybackController)
        } else if byte == 0xb1 {
            Some(FunctionType::TrainingMode)
        } else if byte == 0xc1 {
            Some(FunctionType::ActionLogNotifier)
        } else if byte == 0xd1 {
            Some(FunctionType::GeneralSetting1)
        } else if byte == 0xd2 {
            Some(FunctionType::GeneralSetting2)
        } else if byte == 0xd3 {
            Some(FunctionType::GeneralSetting3)
        } else if byte == 0xe1 {
            Some(FunctionType::ConnectionMode)
        } else if byte == 0xe2 {
            Some(FunctionType::Upscaling)
        } else if byte == 0xf1 {
            Some(FunctionType::Vibrator)
        } else if byte == 0xf2 {
            Some(FunctionType::PowerSavingMode)
        } else if byte == 0xf3 {
            Some(FunctionType::ControlByWearing)
        } else if byte == 0xf5 {
            Some(FunctionType::SmartTalkingMode)
        } else if byte == 0xf4 {
            Some(FunctionType::AutoPowerOff)
        } else if byte == 0xf6 {
            Some(FunctionType::AssignableSettings)
        } else {
            None
        }
    }

    /// The byte that stands for this value on the wire.
    pub fn to_u8(self) -> (byte: u8)
        ensures
            byte == self.byte(),
    {
        match self {
            FunctionType::BatteryLevel => 0x11,
            FunctionType::UpscalingIndicator => 0x12,
            FunctionType::CodecIndicator => 0x13,
            FunctionType::BleSetup => 0x14,
            FunctionType::LeftRightBatteryLevel => 0x15,
            FunctionType::LeftRightConnectionStatus => 0x17,
            FunctionType::CradleBatteryLevel => 0x18,
            FunctionType::PowerOff => 0x21,
            FunctionType::ConciergeData => 0x22,
            FunctionType::TandemKeepAlive => 0x23,
            FunctionType::FwUpdate => 0x30,
            FunctionType::PairingDeviceManagementClassicBt => 0x38,
            FunctionType::VoiceGuidance => 0x39,
            FunctionType::Vpt => 0x41,
            FunctionType::SoundPosition => 0x42,
            FunctionType::PresetEq => 0x51,
            FunctionType::Ebb => 0x52,
            FunctionType::PresetEqNoncustomizable => 0x53,
            FunctionType::NoiseCancelling => 0x61,
            FunctionType::NoiseCancellingAndAmbientSoundMode => 0x62,
            FunctionType::AmbientSoundMode => 0x63,
            FunctionType::AutoNcAsm => 0x71,
            FunctionType::NcOptimizer => 0x81,
            FunctionType::VibratorAlertNotification => 0x92,
            FunctionType::PlaybackController => 0xa1,
            FunctionType::TrainingMode => 0xb1,
            FunctionType::ActionLogNotifier => 0xc1,
            FunctionType::GeneralSetting1 => 0xd1,
            FunctionType::GeneralSetting2 => 0xd2,
            FunctionType::GeneralSetting3 => 0xd3,
            FunctionType::ConnectionMode => 0xe1,
            FunctionType::Upscaling => 0xe2,
            FunctionType::Vibrator => 0xf1,
            FunctionType::PowerSavingMode => 0xf2,
            FunctionType::ControlByWearing => 0xf3,
            FunctionType::SmartTalkingMode => 0xf5,
            FunctionType::AutoPowerOff => 0xf4,
            FunctionType::AssignableSettings => 0xf6,
        }
    }

    /// The value that `byte` stands for, or `None` for a byte outside the
    /// table.
    pub fn from_u8(byte: u8) -> (value: Option<FunctionType>)
        ensures
            value == FunctionType::of_byte(byte),
    {
        match byte {
            0x11 => Some(FunctionType::BatteryLevel),
            0x12 => Some(FunctionType::UpscalingIndicator),
            0x13 => Some(FunctionType::CodecIndicator),
            0x14 => Some(FunctionType::BleSetup),
            0x15 => Some(FunctionType::LeftRightBatteryLevel),
            0x17 => Some(FunctionType::LeftRightConnectionStatus),
            0x18 => Some(FunctionType::CradleBatteryLevel),
            0x21 => Some(FunctionType::PowerOff),
            0x22 => Some(FunctionType::ConciergeData),
            0x23 => Some(FunctionType::TandemKeepAlive),
            0x30 => Some(FunctionType::FwUpdate),
            0x38 => Some(FunctionType::PairingDeviceManagementClassicBt),
            0x39 => Some(FunctionType::VoiceGuidance),
            0x41 => Some(FunctionType::Vpt),
            0x42 => Some(FunctionType::SoundPosition),
            0x51 => Some(FunctionType::PresetEq),
            0x52 => Some(FunctionType::Ebb),
            0x53 => Some(FunctionType::PresetEqNoncustomizable),
            0x61 => Some(FunctionType::NoiseCancelling),
            0x62 => Some(FunctionType::NoiseCancellingAndAmbientSoundMode),
            0x63 => Some(FunctionType::AmbientSoundMode),
            0x71 => Some(FunctionType::AutoNcAsm),
            0x81 => Some(FunctionType::NcOptimizer),
            0x92 => Some(FunctionType::VibratorAlertNotification),
            0xa1 => Some(FunctionType::PlaybackController),
            0xb1 => Some(FunctionType::TrainingMode),
            0xc1 => Some(FunctionType::ActionLogNotifier),
            0xd1 => Some(FunctionType::GeneralSetting1),
            0xd2 => Some(FunctionType::GeneralSetting2),
            0xd3 => Some(FunctionType::GeneralSetting3),
            0xe1 => Some(FunctionType::ConnectionMode),
            0xe2 => Some(FunctionType::Upscaling),
            0xf1 => Some(FunctionType::Vibrator),
            0xf2 => Some(FunctionType::PowerSavingMode),
            0xf3 => Some(FunctionType::ControlByWearing),
            0xf5 => Some(FunctionType::SmartTalkingMode),
            0xf4 => Some(FunctionType::AutoPowerOff),
            0xf6 => Some(FunctionType::AssignableSettings),
            _ => None,
        }
    }

    /// Every value is found again from its byte, and a byte that stands for
    /// a value is the byte of that value.
    pub proof fn lemma_byte_round_trip(value: FunctionType, byte: u8)
        ensures
            FunctionType::of_byte(value.byte()) == Some(value),
            FunctionType::of_byte(byte) matches Some(v) ==> v.byte() == byte,
    {
    }
}

} // verus!
