//! HID++ 2.0 protocol constants: feature identifiers, feature flags,
//! device kinds, onboard modes, charge levels and types, error codes.

use vstd::prelude::*;

verus! {

/// HID++ 2.0 features of Logitech devices. A device supports a subset.
#[derive(Debug, Clone, Copy, PartialEq, Eq, Structural, Hash)]
pub enum SupportedFeature {
    Root,
    FeatureSet,
    FeatureInfo,
    // Common
    DeviceFwVersion,
    DeviceUnitId,
    DeviceName,
    DeviceGroups,
    DeviceFriendlyName,
    KeepAlive,
    PropertyAccess,
    ConfigChange,
    CryptoId,
    TargetSoftware,
    WirelessSignalStrength,
    DfucontrolLegacy,
    DfucontrolUnsigned,
    DfucontrolSigned,
    Dfucontrol,
    Dfu,
    BatteryStatus,
    BatteryVoltage,
    UnifiedBattery,
    ChargingControl,
    LedControl,
    ForcePairing,
    GenericTest,
    DeviceReset,
    Oobstate,
    ConfigDeviceProps,
    ChangeHost,
    HostsInfo,
    BleProPrePairing,
    Backlight,
    Backlight2,
    Backlight3,
    Illumination,
    ForceSensingButton,
    Haptic,
    PresenterControl,
    Sensor3D,
    ReprogControls,
    ReprogControlsV2,
    ReprogControlsV2_2,
    ReprogControlsV3,
    ReprogControlsV4,
    FullKeyCustomization,
    ControlList,
    SwitchSwapability,
    DeviceMode,
    ReportHidUsage,
    PersistentRemappableAction,
    WirelessDeviceStatus,
    RemainingPairing,
    EnableHiddenFeatures,
    FirmwareProperties,
    AdcMeasurement,
    // Mouse
    LeftRightSwap,
    SwapButtonCancel,
    PointerAxisOrientation,
    VerticalScrolling,
    SmartShift,
    SmartShiftEnhanced,
    HiResScrolling,
    HiresWheel,
    LowresWheel,
    ThumbWheel,
    MousePointer,
    AdjustableDpi,
    ExtendedAdjustableDpi,
    PointerSpeed,
    AngleSnapping,
    SurfaceTuning,
    XyStats,
    WheelStats,
    HybridTracking,
    // Keyboard
    FnInversion,
    NewFnInversion,
    K375sFnInversion,
    Encryption,
    LockKeyState,
    SolarDashboard,
    KeyboardLayout,
    KeyboardDisableKeys,
    KeyboardDisableByUsage,
    KeyboardDisableControls,
    Dualplatform,
    Multiplatform,
    KeyboardLayout2,
    Crown,
    // Touchpad
    TouchpadFwItems,
    TouchpadSwItems,
    TouchpadWin8FwItems,
    TapEnable,
    TapEnableExtended,
    CursorBallistic,
    TouchpadResolution,
    TouchpadRawXy,
    TouchmouseRawPoints,
    Touchmouse6120,
    Gesture,
    Gesture2,
    // Gaming
    Gkey,
    Mkeys,
    Mr,
    BrightnessControl,
    LogiModifiers,
    ReportRate,
    ExtendedAdjustableReportRate,
    ColorLedEffects,
    RgbEffects,
    RpmIndicator,
    RpmLedPattern,
    PerKeyLighting,
    PerKeyLightingV2,
    ModeStatus,
    LegacyAxisResponseCurve,
    AxisResponseCurve,
    BandedAxis,
    CombinedPedals,
    BunnyHopping,
    OnboardProfiles,
    ProfileManagement,
    MouseButtonSpy,
    LatencyMonitoring,
    GamingAttachments,
    ForceFeedback,
    DualClutch,
    WheelCenterPosition,
    DisplayGameData,
    CenterSpring,
    AxisMapping,
    GlobalDamping,
    BrakeForce,
    PedalStatus,
    TorqueLimit,
    ConfigurationProfiles,
    OperatingRange,
    TrueForce,
    FfbFilter,
    // Headsets
    Sidetone,
    Equalizer,
    HeadsetOut,
    // Solaar internal
    MouseGesture,
}

/// The 16-bit identifier of a feature.
pub open spec fn spec_feature_id(f: SupportedFeature) -> u16 {
    match f {
        SupportedFeature::Root => 0x0000,
        SupportedFeature::FeatureSet => 0x0001,
        SupportedFeature::FeatureInfo => 0x0002,
        SupportedFeature::DeviceFwVersion => 0x0003,
        SupportedFeature::DeviceUnitId => 0x0004,
        SupportedFeature::DeviceName => 0x0005,
        SupportedFeature::DeviceGroups => 0x0006,
        SupportedFeature::DeviceFriendlyName => 0x0007,
        SupportedFeature::KeepAlive => 0x0008,
        SupportedFeature::PropertyAccess => 0x0011,
        SupportedFeature::ConfigChange => 0x0020,
        SupportedFeature::CryptoId => 0x0021,
        SupportedFeature::TargetSoftware => 0x0030,
        SupportedFeature::WirelessSignalStrength => 0x0080,
        SupportedFeature::DfucontrolLegacy => 0x00C0,
        SupportedFeature::DfucontrolUnsigned => 0x00C1,
        SupportedFeature::DfucontrolSigned => 0x00C2,
        SupportedFeature::Dfucontrol => 0x00C3,
        SupportedFeature::Dfu => 0x00D0,
        SupportedFeature::BatteryStatus => 0x1000,
        SupportedFeature::BatteryVoltage => 0x1001,
        SupportedFeature::UnifiedBattery => 0x1004,
        SupportedFeature::ChargingControl => 0x1010,
        SupportedFeature::LedControl => 0x1300,
        SupportedFeature::ForcePairing => 0x1500,
        SupportedFeature::GenericTest => 0x1800,
        SupportedFeature::DeviceReset => 0x1802,
        SupportedFeature::Oobstate => 0x1805,
        SupportedFeature::ConfigDeviceProps => 0x1806,
        SupportedFeature::ChangeHost => 0x1814,
        SupportedFeature::HostsInfo => 0x1815,
        SupportedFeature::BleProPrePairing => 0x1816,
        SupportedFeature::Backlight => 0x1981,
        SupportedFeature::Backlight2 => 0x1982,
        SupportedFeature::Backlight3 => 0x1983,
        SupportedFeature::Illumination => 0x1990,
        SupportedFeature::ForceSensingButton => 0x19C0,
        SupportedFeature::Haptic => 0x19B0,
        SupportedFeature::PresenterControl => 0x1A00,
        SupportedFeature::Sensor3D => 0x1A01,
        SupportedFeature::ReprogControls => 0x1B00,
        SupportedFeature::ReprogControlsV2 => 0x1B01,
        SupportedFeature::ReprogControlsV2_2 => 0x1B02,
        SupportedFeature::ReprogControlsV3 => 0x1B03,
        SupportedFeature::ReprogControlsV4 => 0x1B04,
        SupportedFeature::FullKeyCustomization => 0x1B05,
        SupportedFeature::ControlList => 0x1B10,
        SupportedFeature::SwitchSwapability => 0x1B20,
        SupportedFeature::DeviceMode => 0x1B30,
        SupportedFeature::ReportHidUsage => 0x1BC0,
        SupportedFeature::PersistentRemappableAction => 0x1C00,
        SupportedFeature::WirelessDeviceStatus => 0x1D4B,
        SupportedFeature::RemainingPairing => 0x1DF0,
        SupportedFeature::EnableHiddenFeatures => 0x1E00,
        SupportedFeature::FirmwareProperties => 0x1F1F,
        SupportedFeature::AdcMeasurement => 0x1F20,
        SupportedFeature::LeftRightSwap => 0x2001,
        SupportedFeature::SwapButtonCancel => 0x2005,
        SupportedFeature::PointerAxisOrientation => 0x2006,
        SupportedFeature::VerticalScrolling => 0x2100,
        SupportedFeature::SmartShift => 0x2110,
        SupportedFeature::SmartShiftEnhanced => 0x2111,
        SupportedFeature::HiResScrolling => 0x2120,
        SupportedFeature::HiresWheel => 0x2121,
        SupportedFeature::LowresWheel => 0x2130,
        SupportedFeature::ThumbWheel => 0x2150,
        SupportedFeature::MousePointer => 0x2200,
        SupportedFeature::AdjustableDpi => 0x2201,
        SupportedFeature::ExtendedAdjustableDpi => 0x2202,
        SupportedFeature::PointerSpeed => 0x2205,
        SupportedFeature::AngleSnapping => 0x2230,
        SupportedFeature::SurfaceTuning => 0x2240,
        SupportedFeature::XyStats => 0x2250,
        SupportedFeature::WheelStats => 0x2251,
        SupportedFeature::HybridTracking => 0x2400,
        SupportedFeature::FnInversion => 0x40A0,
        SupportedFeature::NewFnInversion => 0x40A2,
        SupportedFeature::K375sFnInversion => 0x40A3,
        SupportedFeature::Encryption => 0x4100,
        SupportedFeature::LockKeyState => 0x4220,
        SupportedFeature::SolarDashboard => 0x4301,
        SupportedFeature::KeyboardLayout => 0x4520,
        SupportedFeature::KeyboardDisableKeys => 0x4521,
        SupportedFeature::KeyboardDisableByUsage => 0x4522,
        SupportedFeature::KeyboardDisableControls => 0x4523,
        SupportedFeature::Dualplatform => 0x4530,
        SupportedFeature::Multiplatform => 0x4531,
        SupportedFeature::KeyboardLayout2 => 0x4540,
        SupportedFeature::Crown => 0x4600,
        SupportedFeature::TouchpadFwItems => 0x6010,
        SupportedFeature::TouchpadSwItems => 0x6011,
        SupportedFeature::TouchpadWin8FwItems => 0x6012,
        SupportedFeature::TapEnable => 0x6020,
        SupportedFeature::TapEnableExtended => 0x6021,
        SupportedFeature::CursorBallistic => 0x6030,
        SupportedFeature::TouchpadResolution => 0x6040,
        SupportedFeature::TouchpadRawXy => 0x6100,
        SupportedFeature::TouchmouseRawPoints => 0x6110,
        SupportedFeature::Touchmouse6120 => 0x6120,
        SupportedFeature::Gesture => 0x6500,
        SupportedFeature::Gesture2 => 0x6501,
        SupportedFeature::Gkey => 0x8010,
        SupportedFeature::Mkeys => 0x8020,
        SupportedFeature::Mr => 0x8030,
        SupportedFeature::BrightnessControl => 0x8040,
        SupportedFeature::LogiModifiers => 0x8051,
        SupportedFeature::ReportRate => 0x8060,
        SupportedFeature::ExtendedAdjustableReportRate => 0x8061,
        SupportedFeature::ColorLedEffects => 0x8070,
        SupportedFeature::RgbEffects => 0x8071,
        SupportedFeature::RpmIndicator => 0x807A,
        SupportedFeature::RpmLedPattern => 0x807B,
        SupportedFeature::PerKeyLighting => 0x8080,
        SupportedFeature::PerKeyLightingV2 => 0x8081,
        SupportedFeature::ModeStatus => 0x8090,
        SupportedFeature::LegacyAxisResponseCurve => 0x80A3,
        SupportedFeature::AxisResponseCurve => 0x80A4,
        SupportedFeature::BandedAxis => 0x80B1,
        SupportedFeature::CombinedPedals => 0x80D0,
        SupportedFeature::BunnyHopping => 0x80E0,
        SupportedFeature::OnboardProfiles => 0x8100,
        SupportedFeature::ProfileManagement => 0x8101,
        SupportedFeature::MouseButtonSpy => 0x8110,
        SupportedFeature::LatencyMonitoring => 0x8111,
        SupportedFeature::GamingAttachments => 0x8120,
        SupportedFeature::ForceFeedback => 0x8123,
        SupportedFeature::DualClutch => 0x8127,
        SupportedFeature::WheelCenterPosition => 0x812C,
        SupportedFeature::DisplayGameData => 0x8130,
        SupportedFeature::CenterSpring => 0x8131,
        SupportedFeature::AxisMapping => 0x8132,
        SupportedFeature::GlobalDamping => 0x8133,
        SupportedFeature::BrakeForce => 0x8134,
        SupportedFeature::PedalStatus => 0x8135,
        SupportedFeature::TorqueLimit => 0x8136,
        SupportedFeature::ConfigurationProfiles => 0x8137,
        SupportedFeature::OperatingRange => 0x8138,
        SupportedFeature::TrueForce => 0x8139,
        SupportedFeature::FfbFilter => 0x8140,
        SupportedFeature::Sidetone => 0x8300,
        SupportedFeature::Equalizer => 0x8310,
        SupportedFeature::HeadsetOut => 0x8320,
        SupportedFeature::MouseGesture => 0xFE00,
    }
}

/// The feature a 16-bit identifier names, if any.
pub open spec fn spec_feature_of_id(v: u16) -> Option<SupportedFeature> {
    match v {
        0x0000 => Some(SupportedFeature::Root),
        0x0001 => Some(SupportedFeature::FeatureSet),
        0x0002 => Some(SupportedFeature::FeatureInfo),
        0x0003 => Some(SupportedFeature::DeviceFwVersion),
        0x0004 => Some(SupportedFeature::DeviceUnitId),
        0x0005 => Some(SupportedFeature::DeviceName),
        0x0006 => Some(SupportedFeature::DeviceGroups),
        0x0007 => Some(SupportedFeature::DeviceFriendlyName),
        0x0008 => Some(SupportedFeature::KeepAlive),
        0x0011 => Some(SupportedFeature::PropertyAccess),
        0x0020 => Some(SupportedFeature::ConfigChange),
        0x0021 => Some(SupportedFeature::CryptoId),
        0x0030 => Some(SupportedFeature::TargetSoftware),
        0x0080 => Some(SupportedFeature::WirelessSignalStrength),
        0x00C0 => Some(SupportedFeature::DfucontrolLegacy),
        0x00C1 => Some(SupportedFeature::DfucontrolUnsigned),
        0x00C2 => Some(SupportedFeature::DfucontrolSigned),
        0x00C3 => Some(SupportedFeature::Dfucontrol),
        0x00D0 => Some(SupportedFeature::Dfu),
        0x1000 => Some(SupportedFeature::BatteryStatus),
        0x1001 => Some(SupportedFeature::BatteryVoltage),
        0x1004 => Some(SupportedFeature::UnifiedBattery),
        0x1010 => Some(SupportedFeature::ChargingControl),
        0x1300 => Some(SupportedFeature::LedControl),
        0x1500 => Some(SupportedFeature::ForcePairing),
        0x1800 => Some(SupportedFeature::GenericTest),
        0x1802 => Some(SupportedFeature::DeviceReset),
        0x1805 => Some(SupportedFeature::Oobstate),
        0x1806 => Some(SupportedFeature::ConfigDeviceProps),
        0x1814 => Some(SupportedFeature::ChangeHost),
        0x1815 => Some(SupportedFeature::HostsInfo),
        0x1816 => Some(SupportedFeature::BleProPrePairing),
        0x1981 => Some(SupportedFeature::Backlight),
        0x1982 => Some(SupportedFeature::Backlight2),
        0x1983 => Some(SupportedFeature::Backlight3),
        0x1990 => Some(SupportedFeature::Illumination),
        0x19C0 => Some(SupportedFeature::ForceSensingButton),
        0x19B0 => Some(SupportedFeature::Haptic),
        0x1A00 => Some(SupportedFeature::PresenterControl),
        0x1A01 => Some(SupportedFeature::Sensor3D),
        0x1B00 => Some(SupportedFeature::ReprogControls),
        0x1B01 => Some(SupportedFeature::ReprogControlsV2),
        0x1B02 => Some(SupportedFeature::ReprogControlsV2_2),
        0x1B03 => Some(SupportedFeature::ReprogControlsV3),
        0x1B04 => Some(SupportedFeature::ReprogControlsV4),
        0x1B05 => Some(SupportedFeature::FullKeyCustomization),
        0x1B10 => Some(SupportedFeature::ControlList),
        0x1B20 => Some(SupportedFeature::SwitchSwapability),
        0x1B30 => Some(SupportedFeature::DeviceMode),
        0x1BC0 => Some(SupportedFeature::ReportHidUsage),
        0x1C00 => Some(SupportedFeature::PersistentRemappableAction),
        0x1D4B => Some(SupportedFeature::WirelessDeviceStatus),
        0x1DF0 => Some(SupportedFeature::RemainingPairing),
        0x1E00 => Some(SupportedFeature::EnableHiddenFeatures),
        0x1F1F => Some(SupportedFeature::FirmwareProperties),
        0x1F20 => Some(SupportedFeature::AdcMeasurement),
        0x2001 => Some(SupportedFeature::LeftRightSwap),
        0x2005 => Some(SupportedFeature::SwapButtonCancel),
        0x2006 => Some(SupportedFeature::PointerAxisOrientation),
        0x2100 => Some(SupportedFeature::VerticalScrolling),
        0x2110 => Some(SupportedFeature::SmartShift),
        0x2111 => Some(SupportedFeature::SmartShiftEnhanced),
        0x2120 => Some(SupportedFeature::HiResScrolling),
        0x2121 => Some(SupportedFeature::HiresWheel),
        0x2130 => Some(SupportedFeature::LowresWheel),
        0x2150 => Some(SupportedFeature::ThumbWheel),
        0x2200 => Some(SupportedFeature::MousePointer),
        0x2201 => Some(SupportedFeature::AdjustableDpi),
        0x2202 => Some(SupportedFeature::ExtendedAdjustableDpi),
        0x2205 => Some(SupportedFeature::PointerSpeed),
        0x2230 => Some(SupportedFeature::AngleSnapping),
        0x2240 => Some(SupportedFeature::SurfaceTuning),
        0x2250 => Some(SupportedFeature::XyStats),
        0x2251 => Some(SupportedFeature::WheelStats),
        0x2400 => Some(SupportedFeature::HybridTracking),
        0x40A0 => Some(SupportedFeature::FnInversion),
        0x40A2 => Some(SupportedFeature::NewFnInversion),
        0x40A3 => Some(SupportedFeature::K375sFnInversion),
        0x4100 => Some(SupportedFeature::Encryption),
        0x4220 => Some(SupportedFeature::LockKeyState),
        0x4301 => Some(SupportedFeature::SolarDashboard),
        0x4520 => Some(SupportedFeature::KeyboardLayout),
        0x4521 => Some(SupportedFeature::KeyboardDisableKeys),
        0x4522 => Some(SupportedFeature::KeyboardDisableByUsage),
        0x4523 => Some(SupportedFeature::KeyboardDisableControls),
        0x4530 => Some(SupportedFeature::Dualplatform),
        0x4531 => Some(SupportedFeature::Multiplatform),
        0x4540 => Some(SupportedFeature::KeyboardLayout2),
        0x4600 => Some(SupportedFeature::Crown),
        0x6010 => Some(SupportedFeature::TouchpadFwItems),
        0x6011 => Some(SupportedFeature::TouchpadSwItems),
        0x6012 => Some(SupportedFeature::TouchpadWin8FwItems),
        0x6020 => Some(SupportedFeature::TapEnable),
        0x6021 => Some(SupportedFeature::TapEnableExtended),
        0x6030 => Some(SupportedFeature::CursorBallistic),
        0x6040 => Some(SupportedFeature::TouchpadResolution),
        0x6100 => Some(SupportedFeature::TouchpadRawXy),
        0x6110 => Some(SupportedFeature::TouchmouseRawPoints),
        0x6120 => Some(SupportedFeature::Touchmouse6120),
        0x6500 => Some(SupportedFeature::Gesture),
        0x6501 => Some(SupportedFeature::Gesture2),
        0x8010 => Some(SupportedFeature::Gkey),
        0x8020 => Some(SupportedFeature::Mkeys),
        0x8030 => Some(SupportedFeature::Mr),
        0x8040 => Some(SupportedFeature::BrightnessControl),
        0x8051 => Some(SupportedFeature::LogiModifiers),
        0x8060 => Some(SupportedFeature::ReportRate),
        0x8061 => Some(SupportedFeature::ExtendedAdjustableReportRate),
        0x8070 => Some(SupportedFeature::ColorLedEffects),
        0x8071 => Some(SupportedFeature::RgbEffects),
        0x807A => Some(SupportedFeature::RpmIndicator),
        0x807B => Some(SupportedFeature::RpmLedPattern),
        0x8080 => Some(SupportedFeature::PerKeyLighting),
        0x8081 => Some(SupportedFeature::PerKeyLightingV2),
        0x8090 => Some(SupportedFeature::ModeStatus),
        0x80A3 => Some(SupportedFeature::LegacyAxisResponseCurve),
        0x80A4 => Some(SupportedFeature::AxisResponseCurve),
        0x80B1 => Some(SupportedFeature::BandedAxis),
        0x80D0 => Some(SupportedFeature::CombinedPedals),
        0x80E0 => Some(SupportedFeature::BunnyHopping),
        0x8100 => Some(SupportedFeature::OnboardProfiles),
        0x8101 => Some(SupportedFeature::ProfileManagement),
        0x8110 => Some(SupportedFeature::MouseButtonSpy),
        0x8111 => Some(SupportedFeature::LatencyMonitoring),
        0x8120 => Some(SupportedFeature::GamingAttachments),
        0x8123 => Some(SupportedFeature::ForceFeedback),
        0x8127 => Some(SupportedFeature::DualClutch),
        0x812C => Some(SupportedFeature::WheelCenterPosition),
        0x8130 => Some(SupportedFeature::DisplayGameData),
        0x8131 => Some(SupportedFeature::CenterSpring),
        0x8132 => Some(SupportedFeature::AxisMapping),
        0x8133 => Some(SupportedFeature::GlobalDamping),
        0x8134 => Some(SupportedFeature::BrakeForce),
        0x8135 => Some(SupportedFeature::PedalStatus),
        0x8136 => Some(SupportedFeature::TorqueLimit),
        0x8137 => Some(SupportedFeature::ConfigurationProfiles),
        0x8138 => Some(SupportedFeature::OperatingRange),
        0x8139 => Some(SupportedFeature::TrueForce),
        0x8140 => Some(SupportedFeature::FfbFilter),
        0x8300 => Some(SupportedFeature::Sidetone),
        0x8310 => Some(SupportedFeature::Equalizer),
        0x8320 => Some(SupportedFeature::HeadsetOut),
        0xFE00 => Some(SupportedFeature::MouseGesture),
        _ => None,
    }
}

impl SupportedFeature {
    /// The feature with identifier `v`, or `None` for an unknown identifier.
    pub fn from_u16(v: u16) -> (r: Option<SupportedFeature>)
        ensures
            r == spec_feature_of_id(v),
    {
        match v {
            0x0000 => Some(SupportedFeature::Root),
            0x0001 => Some(SupportedFeature::FeatureSet),
            0x0002 => Some(SupportedFeature::FeatureInfo),
            0x0003 => Some(SupportedFeature::DeviceFwVersion),
            0x0004 => Some(SupportedFeature::DeviceUnitId),
            0x0005 => Some(SupportedFeature::DeviceName),
            0x0006 => Some(SupportedFeature::DeviceGroups),
            0x0007 => Some(SupportedFeature::DeviceFriendlyName),
            0x0008 => Some(SupportedFeature::KeepAlive),
            0x0011 => Some(SupportedFeature::PropertyAccess),
            0x0020 => Some(SupportedFeature::ConfigChange),
            0x0021 => Some(SupportedFeature::CryptoId),
            0x0030 => Some(SupportedFeature::TargetSoftware),
            0x0080 => Some(SupportedFeature::WirelessSignalStrength),
            0x00C0 => Some(SupportedFeature::DfucontrolLegacy),
            0x00C1 => Some(SupportedFeature::DfucontrolUnsigned),
            0x00C2 => Some(SupportedFeature::DfucontrolSigned),
            0x00C3 => Some(SupportedFeature::Dfucontrol),
            0x00D0 => Some(SupportedFeature::Dfu),
            0x1000 => Some(SupportedFeature::BatteryStatus),
            0x1001 => Some(SupportedFeature::BatteryVoltage),
            0x1004 => Some(SupportedFeature::UnifiedBattery),
            0x1010 => Some(SupportedFeature::ChargingControl),
            0x1300 => Some(SupportedFeature::LedControl),
            0x1500 => Some(SupportedFeature::ForcePairing),
            0x1800 => Some(SupportedFeature::GenericTest),
            0x1802 => Some(SupportedFeature::DeviceReset),
            0x1805 => Some(SupportedFeature::Oobstate),
            0x1806 => Some(SupportedFeature::ConfigDeviceProps),
            0x1814 => Some(SupportedFeature::ChangeHost),
            0x1815 => Some(SupportedFeature::HostsInfo),
            0x1816 => Some(SupportedFeature::BleProPrePairing),
            0x1981 => Some(SupportedFeature::Backlight),
            0x1982 => Some(SupportedFeature::Backlight2),
            0x1983 => Some(SupportedFeature::Backlight3),
            0x1990 => Some(SupportedFeature::Illumination),
            0x19C0 => Some(SupportedFeature::ForceSensingButton),
            0x19B0 => Some(SupportedFeature::Haptic),
            0x1A00 => Some(SupportedFeature::PresenterControl),
            0x1A01 => Some(SupportedFeature::Sensor3D),
            0x1B00 => Some(SupportedFeature::ReprogControls),
            0x1B01 => Some(SupportedFeature::ReprogControlsV2),
            0x1B02 => Some(SupportedFeature::ReprogControlsV2_2),
            0x1B03 => Some(SupportedFeature::ReprogControlsV3),
            0x1B04 => Some(SupportedFeature::ReprogControlsV4),
            0x1B05 => Some(SupportedFeature::FullKeyCustomization),
            0x1B10 => Some(SupportedFeature::ControlList),
            0x1B20 => Some(SupportedFeature::SwitchSwapability),
            0x1B30 => Some(SupportedFeature::DeviceMode),
            0x1BC0 => Some(SupportedFeature::ReportHidUsage),
            0x1C00 => Some(SupportedFeature::PersistentRemappableAction),
            0x1D4B => Some(SupportedFeature::WirelessDeviceStatus),
            0x1DF0 => Some(SupportedFeature::RemainingPairing),
            0x1E00 => Some(SupportedFeature::EnableHiddenFeatures),
            0x1F1F => Some(SupportedFeature::FirmwareProperties),
            0x1F20 => Some(SupportedFeature::AdcMeasurement),
            0x2001 => Some(SupportedFeature::LeftRightSwap),
            0x2005 => Some(SupportedFeature::SwapButtonCancel),
            0x2006 => Some(SupportedFeature::PointerAxisOrientation),
            0x2100 => Some(SupportedFeature::VerticalScrolling),
            0x2110 => Some(SupportedFeature::SmartShift),
            0x2111 => Some(SupportedFeature::SmartShiftEnhanced),
            0x2120 => Some(SupportedFeature::HiResScrolling),
            0x2121 => Some(SupportedFeature::HiresWheel),
            0x2130 => Some(SupportedFeature::LowresWheel),
            0x2150 => Some(SupportedFeature::ThumbWheel),
            0x2200 => Some(SupportedFeature::MousePointer),
            0x2201 => Some(SupportedFeature::AdjustableDpi),
            0x2202 => Some(SupportedFeature::ExtendedAdjustableDpi),
            0x2205 => Some(SupportedFeature::PointerSpeed),
            0x2230 => Some(SupportedFeature::AngleSnapping),
            0x2240 => Some(SupportedFeature::SurfaceTuning),
            0x2250 => Some(SupportedFeature::XyStats),
            0x2251 => Some(SupportedFeature::WheelStats),
            0x2400 => Some(SupportedFeature::HybridTracking),
            0x40A0 => Some(SupportedFeature::FnInversion),
            0x40A2 => Some(SupportedFeature::NewFnInversion),
            0x40A3 => Some(SupportedFeature::K375sFnInversion),
            0x4100 => Some(SupportedFeature::Encryption),
            0x4220 => Some(SupportedFeature::LockKeyState),
            0x4301 => Some(SupportedFeature::SolarDashboard),
            0x4520 => Some(SupportedFeature::KeyboardLayout),
            0x4521 => Some(SupportedFeature::KeyboardDisableKeys),
            0x4522 => Some(SupportedFeature::KeyboardDisableByUsage),
            0x4523 => Some(SupportedFeature::KeyboardDisableControls),
            0x4530 => Some(SupportedFeature::Dualplatform),
            0x4531 => Some(SupportedFeature::Multiplatform),
            0x4540 => Some(SupportedFeature::KeyboardLayout2),
            0x4600 => Some(SupportedFeature::Crown),
            0x6010 => Some(SupportedFeature::TouchpadFwItems),
            0x6011 => Some(SupportedFeature::TouchpadSwItems),
            0x6012 => Some(SupportedFeature::TouchpadWin8FwItems),
            0x6020 => Some(SupportedFeature::TapEnable),
            0x6021 => Some(SupportedFeature::TapEnableExtended),
            0x6030 => Some(SupportedFeature::CursorBallistic),
            0x6040 => Some(SupportedFeature::TouchpadResolution),
            0x6100 => Some(SupportedFeature::TouchpadRawXy),
            0x6110 => Some(SupportedFeature::TouchmouseRawPoints),
            0x6120 => Some(SupportedFeature::Touchmouse6120),
            0x6500 => Some(SupportedFeature::Gesture),
            0x6501 => Some(SupportedFeature::Gesture2),
            0x8010 => Some(SupportedFeature::Gkey),
            0x8020 => Some(SupportedFeature::Mkeys),
            0x8030 => Some(SupportedFeature::Mr),
            0x8040 => Some(SupportedFeature::BrightnessControl),
            0x8051 => Some(SupportedFeature::LogiModifiers),
            0x8060 => Some(SupportedFeature::ReportRate),
            0x8061 => Some(SupportedFeature::ExtendedAdjustableReportRate),
            0x8070 => Some(SupportedFeature::ColorLedEffects),
            0x8071 => Some(SupportedFeature::RgbEffects),
            0x807A => Some(SupportedFeature::RpmIndicator),
            0x807B => Some(SupportedFeature::RpmLedPattern),
            0x8080 => Some(SupportedFeature::PerKeyLighting),
            0x8081 => Some(SupportedFeature::PerKeyLightingV2),
            0x8090 => Some(SupportedFeature::ModeStatus),
            0x80A3 => Some(SupportedFeature::LegacyAxisResponseCurve),
            0x80A4 => Some(SupportedFeature::AxisResponseCurve),
            0x80B1 => Some(SupportedFeature::BandedAxis),
            0x80D0 => Some(SupportedFeature::CombinedPedals),
            0x80E0 => Some(SupportedFeature::BunnyHopping),
            0x8100 => Some(SupportedFeature::OnboardProfiles),
            0x8101 => Some(SupportedFeature::ProfileManagement),
            0x8110 => Some(SupportedFeature::MouseButtonSpy),
            0x8111 => Some(SupportedFeature::LatencyMonitoring),
            0x8120 => Some(SupportedFeature::GamingAttachments),
            0x8123 => Some(SupportedFeature::ForceFeedback),
            0x8127 => Some(SupportedFeature::DualClutch),
            0x812C => Some(SupportedFeature::WheelCenterPosition),
            0x8130 => Some(SupportedFeature::DisplayGameData),
            0x8131 => Some(SupportedFeature::CenterSpring),
            0x8132 => Some(SupportedFeature::AxisMapping),
            0x8133 => Some(SupportedFeature::GlobalDamping),
            0x8134 => Some(SupportedFeature::BrakeForce),
            0x8135 => Some(SupportedFeature::PedalStatus),
            0x8136 => Some(SupportedFeature::TorqueLimit),
            0x8137 => Some(SupportedFeature::ConfigurationProfiles),
            0x8138 => Some(SupportedFeature::OperatingRange),
            0x8139 => Some(SupportedFeature::TrueForce),
            0x8140 => Some(SupportedFeature::FfbFilter),
            0x8300 => Some(SupportedFeature::Sidetone),
            0x8310 => Some(SupportedFeature::Equalizer),
            0x8320 => Some(SupportedFeature::HeadsetOut),
            0xFE00 => Some(SupportedFeature::MouseGesture),
            _ => None,
        }
    }

    /// The 16-bit identifier of this feature.
    pub fn as_u16(self) -> (r: u16)
        ensures
            r == spec_feature_id(self),
    {
        match self {
            SupportedFeature::Root => 0x0000,
            SupportedFeature::FeatureSet => 0x0001,
            SupportedFeature::FeatureInfo => 0x0002,
            SupportedFeature::DeviceFwVersion => 0x0003,
            SupportedFeature::DeviceUnitId => 0x0004,
            SupportedFeature::DeviceName => 0x0005,
            SupportedFeature::DeviceGroups => 0x0006,
            SupportedFeature::DeviceFriendlyName => 0x0007,
            SupportedFeature::KeepAlive => 0x0008,
            SupportedFeature::PropertyAccess => 0x0011,
            SupportedFeature::ConfigChange => 0x0020,
            SupportedFeature::CryptoId => 0x0021,
            SupportedFeature::TargetSoftware => 0x0030,
            SupportedFeature::WirelessSignalStrength => 0x0080,
            SupportedFeature::DfucontrolLegacy => 0x00C0,
            SupportedFeature::DfucontrolUnsigned => 0x00C1,
            SupportedFeature::DfucontrolSigned => 0x00C2,
            SupportedFeature::Dfucontrol => 0x00C3,
            SupportedFeature::Dfu => 0x00D0,
            SupportedFeature::BatteryStatus => 0x1000,
            SupportedFeature::BatteryVoltage => 0x1001,
            SupportedFeature::UnifiedBattery => 0x1004,
            SupportedFeature::ChargingControl => 0x1010,
            SupportedFeature::LedControl => 0x1300,
            SupportedFeature::ForcePairing => 0x1500,
            SupportedFeature::GenericTest => 0x1800,
            SupportedFeature::DeviceReset => 0x1802,
            SupportedFeature::Oobstate => 0x1805,
            SupportedFeature::ConfigDeviceProps => 0x1806,
            SupportedFeature::ChangeHost => 0x1814,
            SupportedFeature::HostsInfo => 0x1815,
            SupportedFeature::BleProPrePairing => 0x1816,
            SupportedFeature::Backlight => 0x1981,
            SupportedFeature::Backlight2 => 0x1982,
            SupportedFeature::Backlight3 => 0x1983,
            SupportedFeature::Illumination => 0x1990,
            SupportedFeature::ForceSensingButton => 0x19C0,
            SupportedFeature::Haptic => 0x19B0,
            SupportedFeature::PresenterControl => 0x1A00,
            SupportedFeature::Sensor3D => 0x1A01,
            SupportedFeature::ReprogControls => 0x1B00,
            SupportedFeature::ReprogControlsV2 => 0x1B01,
            SupportedFeature::ReprogControlsV2_2 => 0x1B02,
            SupportedFeature::ReprogControlsV3 => 0x1B03,
            SupportedFeature::ReprogControlsV4 => 0x1B04,
            SupportedFeature::FullKeyCustomization => 0x1B05,
            SupportedFeature::ControlList => 0x1B10,
            SupportedFeature::SwitchSwapability => 0x1B20,
            SupportedFeature::DeviceMode => 0x1B30,
            SupportedFeature::ReportHidUsage => 0x1BC0,
            SupportedFeature::PersistentRemappableAction => 0x1C00,
            SupportedFeature::WirelessDeviceStatus => 0x1D4B,
            SupportedFeature::RemainingPairing => 0x1DF0,
            SupportedFeature::EnableHiddenFeatures => 0x1E00,
            SupportedFeature::FirmwareProperties => 0x1F1F,
            SupportedFeature::AdcMeasurement => 0x1F20,
            SupportedFeature::LeftRightSwap => 0x2001,
            SupportedFeature::SwapButtonCancel => 0x2005,
            SupportedFeature::PointerAxisOrientation => 0x2006,
            SupportedFeature::VerticalScrolling => 0x2100,
            SupportedFeature::SmartShift => 0x2110,
            SupportedFeature::SmartShiftEnhanced => 0x2111,
            SupportedFeature::HiResScrolling => 0x2120,
            SupportedFeature::HiresWheel => 0x2121,
            SupportedFeature::LowresWheel => 0x2130,
            SupportedFeature::ThumbWheel => 0x2150,
            SupportedFeature::MousePointer => 0x2200,
            SupportedFeature::AdjustableDpi => 0x2201,
            SupportedFeature::ExtendedAdjustableDpi => 0x2202,
            SupportedFeature::PointerSpeed => 0x2205,
            SupportedFeature::AngleSnapping => 0x2230,
            SupportedFeature::SurfaceTuning => 0x2240,
            SupportedFeature::XyStats => 0x2250,
            SupportedFeature::WheelStats => 0x2251,
            SupportedFeature::HybridTracking => 0x2400,
            SupportedFeature::FnInversion => 0x40A0,
            SupportedFeature::NewFnInversion => 0x40A2,
            SupportedFeature::K375sFnInversion => 0x40A3,
            SupportedFeature::Encryption => 0x4100,
            SupportedFeature::LockKeyState => 0x4220,
            SupportedFeature::SolarDashboard => 0x4301,
            SupportedFeature::KeyboardLayout => 0x4520,
            SupportedFeature::KeyboardDisableKeys => 0x4521,
            SupportedFeature::KeyboardDisableByUsage => 0x4522,
            SupportedFeature::KeyboardDisableControls => 0x4523,
            SupportedFeature::Dualplatform => 0x4530,
            SupportedFeature::Multiplatform => 0x4531,
            SupportedFeature::KeyboardLayout2 => 0x4540,
            SupportedFeature::Crown => 0x4600,
            SupportedFeature::TouchpadFwItems => 0x6010,
            SupportedFeature::TouchpadSwItems => 0x6011,
            SupportedFeature::TouchpadWin8FwItems => 0x6012,
            SupportedFeature::TapEnable => 0x6020,
            SupportedFeature::TapEnableExtended => 0x6021,
            SupportedFeature::CursorBallistic => 0x6030,
            SupportedFeature::TouchpadResolution => 0x6040,
            SupportedFeature::TouchpadRawXy => 0x6100,
            SupportedFeature::TouchmouseRawPoints => 0x6110,
            SupportedFeature::Touchmouse6120 => 0x6120,
            SupportedFeature::Gesture => 0x6500,
            SupportedFeature::Gesture2 => 0x6501,
            SupportedFeature::Gkey => 0x8010,
            SupportedFeature::Mkeys => 0x8020,
            SupportedFeature::Mr => 0x8030,
            SupportedFeature::BrightnessControl => 0x8040,
            SupportedFeature::LogiModifiers => 0x8051,
            SupportedFeature::ReportRate => 0x8060,
            SupportedFeature::ExtendedAdjustableReportRate => 0x8061,
            SupportedFeature::ColorLedEffects => 0x8070,
            SupportedFeature::RgbEffects => 0x8071,
            SupportedFeature::RpmIndicator => 0x807A,
            SupportedFeature::RpmLedPattern => 0x807B,
            SupportedFeature::PerKeyLighting => 0x8080,
            SupportedFeature::PerKeyLightingV2 => 0x8081,
            SupportedFeature::ModeStatus => 0x8090,
            SupportedFeature::LegacyAxisResponseCurve => 0x80A3,
            SupportedFeature::AxisResponseCurve => 0x80A4,
            SupportedFeature::BandedAxis => 0x80B1,
            SupportedFeature::CombinedPedals => 0x80D0,
            SupportedFeature::BunnyHopping => 0x80E0,
            SupportedFeature::OnboardProfiles => 0x8100,
            SupportedFeature::ProfileManagement => 0x8101,
            SupportedFeature::MouseButtonSpy => 0x8110,
            SupportedFeature::LatencyMonitoring => 0x8111,
            SupportedFeature::GamingAttachments => 0x8120,
            SupportedFeature::ForceFeedback => 0x8123,
            SupportedFeature::DualClutch => 0x8127,
            SupportedFeature::WheelCenterPosition => 0x812C,
            SupportedFeature::DisplayGameData => 0x8130,
            SupportedFeature::CenterSpring => 0x8131,
            SupportedFeature::AxisMapping => 0x8132,
            SupportedFeature::GlobalDamping => 0x8133,
            SupportedFeature::BrakeForce => 0x8134,
            SupportedFeature::PedalStatus => 0x8135,
            SupportedFeature::TorqueLimit => 0x8136,
            SupportedFeature::ConfigurationProfiles => 0x8137,
            SupportedFeature::OperatingRange => 0x8138,
            SupportedFeature::TrueForce => 0x8139,
            SupportedFeature::FfbFilter => 0x8140,
            SupportedFeature::Sidetone => 0x8300,
            SupportedFeature::Equalizer => 0x8310,
            SupportedFeature::HeadsetOut => 0x8320,
            SupportedFeature::MouseGesture => 0xFE00,
        }
    }
}
/// Every feature's identifier names that feature again.
pub proof fn lemma_feature_id_roundtrip(f: SupportedFeature)
    ensures
        spec_feature_of_id(spec_feature_id(f)) == Some(f),
{
}

/// An identifier that names a feature is that feature's identifier.
pub proof fn lemma_feature_of_id_roundtrip(v: u16)
    ensures
        spec_feature_of_id(v) matches Some(f) ==> spec_feature_id(f) == v,
{
}

/// The identifiers of the features the library itself reads, in both
/// directions: ROOT 0x0000, FEATURE_SET 0x0001, DEVICE_FW_VERSION 0x0003,
/// DEVICE_NAME 0x0005, DEVICE_FRIENDLY_NAME 0x0007, the battery features
/// 0x1000, 0x1001 and 0x1004, the wheel and pointer settings (0x21xx,
/// 0x22xx), the Fn inversions 0x40A0 and 0x40A2, REPORT_RATE 0x8060,
/// ONBOARD_PROFILES 0x8100 and SIDETONE 0x8300.
pub proof fn lemma_used_feature_ids()
    ensures
        spec_feature_id(SupportedFeature::Root) == 0x0000u16 && spec_feature_of_id(0x0000u16) == Some(SupportedFeature::Root),
        spec_feature_id(SupportedFeature::FeatureSet) == 0x0001u16 && spec_feature_of_id(0x0001u16) == Some(SupportedFeature::FeatureSet),
        spec_feature_id(SupportedFeature::DeviceFwVersion) == 0x0003u16 && spec_feature_of_id(0x0003u16) == Some(SupportedFeature::DeviceFwVersion),
        spec_feature_id(SupportedFeature::DeviceName) == 0x0005u16 && spec_feature_of_id(0x0005u16) == Some(SupportedFeature::DeviceName),
        spec_feature_id(SupportedFeature::DeviceFriendlyName) == 0x0007u16 && spec_feature_of_id(0x0007u16) == Some(SupportedFeature::DeviceFriendlyName),
        spec_feature_id(SupportedFeature::BatteryStatus) == 0x1000u16 && spec_feature_of_id(0x1000u16) == Some(SupportedFeature::BatteryStatus),
        spec_feature_id(SupportedFeature::BatteryVoltage) == 0x1001u16 && spec_feature_of_id(0x1001u16) == Some(SupportedFeature::BatteryVoltage),
        spec_feature_id(SupportedFeature::UnifiedBattery) == 0x1004u16 && spec_feature_of_id(0x1004u16) == Some(SupportedFeature::UnifiedBattery),
        spec_feature_id(SupportedFeature::SmartShift) == 0x2110u16 && spec_feature_of_id(0x2110u16) == Some(SupportedFeature::SmartShift),
        spec_feature_id(SupportedFeature::SmartShiftEnhanced) == 0x2111u16 && spec_feature_of_id(0x2111u16) == Some(SupportedFeature::SmartShiftEnhanced),
        spec_feature_id(SupportedFeature::HiResScrolling) == 0x2120u16 && spec_feature_of_id(0x2120u16) == Some(SupportedFeature::HiResScrolling),
        spec_feature_id(SupportedFeature::HiresWheel) == 0x2121u16 && spec_feature_of_id(0x2121u16) == Some(SupportedFeature::HiresWheel),
        spec_feature_id(SupportedFeature::LowresWheel) == 0x2130u16 && spec_feature_of_id(0x2130u16) == Some(SupportedFeature::LowresWheel),
        spec_feature_id(SupportedFeature::ThumbWheel) == 0x2150u16 && spec_feature_of_id(0x2150u16) == Some(SupportedFeature::ThumbWheel),
        spec_feature_id(SupportedFeature::AdjustableDpi) == 0x2201u16 && spec_feature_of_id(0x2201u16) == Some(SupportedFeature::AdjustableDpi),
        spec_feature_id(SupportedFeature::PointerSpeed) == 0x2205u16 && spec_feature_of_id(0x2205u16) == Some(SupportedFeature::PointerSpeed),
        spec_feature_id(SupportedFeature::FnInversion) == 0x40A0u16 && spec_feature_of_id(0x40A0u16) == Some(SupportedFeature::FnInversion),
        spec_feature_id(SupportedFeature::NewFnInversion) == 0x40A2u16 && spec_feature_of_id(0x40A2u16) == Some(SupportedFeature::NewFnInversion),
        spec_feature_id(SupportedFeature::ReportRate) == 0x8060u16 && spec_feature_of_id(0x8060u16) == Some(SupportedFeature::ReportRate),
        spec_feature_id(SupportedFeature::OnboardProfiles) == 0x8100u16 && spec_feature_of_id(0x8100u16) == Some(SupportedFeature::OnboardProfiles),
        spec_feature_id(SupportedFeature::Sidetone) == 0x8300u16 && spec_feature_of_id(0x8300u16) == Some(SupportedFeature::Sidetone),
{
}

/// Distinct features have distinct identifiers.
pub proof fn lemma_feature_id_injective(a: SupportedFeature, b: SupportedFeature)
    requires
        spec_feature_id(a) == spec_feature_id(b),
    ensures
        a == b,
{
    lemma_feature_id_roundtrip(a);
    lemma_feature_id_roundtrip(b);
}

/// Per-feature flags returned in the feature enumeration reply.
#[derive(Debug, Clone, Copy, PartialEq, Eq, Structural)]
pub struct FeatureFlag {
    pub bits: u8,
}

/// All feature flag bits that have a name.
pub const FEATURE_FLAG_ALL: u8 = 0xE0;

impl FeatureFlag {
    pub fn internal() -> (r: FeatureFlag)
        ensures
            r.bits == 0x20,
    {
        FeatureFlag { bits: 0x20 }
    }

    pub fn hidden() -> (r: FeatureFlag)
        ensures
            r.bits == 0x40,
    {
        FeatureFlag { bits: 0x40 }
    }

    pub fn obsolete() -> (r: FeatureFlag)
        ensures
            r.bits == 0x80,
    {
        FeatureFlag { bits: 0x80 }
    }

    /// The flag set with no flag.
    pub fn empty() -> (r: FeatureFlag)
        ensures
            r.bits == 0,
    {
        FeatureFlag { bits: 0 }
    }

    /// The raw bits of this flag set.
    pub fn bits(&self) -> (r: u8)
        ensures
            r == self.bits,
    {
        self.bits
    }

    /// The flag set of the named bits among `bits`; other bits are dropped.
    pub fn from_bits_truncate(bits: u8) -> (r: FeatureFlag)
        ensures
            r.bits == bits & FEATURE_FLAG_ALL,
    {
        FeatureFlag { bits: bits & FEATURE_FLAG_ALL }
    }

    /// Whether every flag of `other` is set in `self`.
    pub fn contains(&self, other: FeatureFlag) -> (r: bool)
        ensures
            r == (self.bits & other.bits == other.bits),
    {
        self.bits & other.bits == other.bits
    }
}

/// Device kind codes as used by HID++ 2.0 (different from 1.0).
#[derive(Debug, Clone, Copy, PartialEq, Eq, Structural)]
pub enum DeviceKind {
    Keyboard,
    RemoteControl,
    Numpad,
    Mouse,
    Touchpad,
    Trackball,
    Presenter,
    Receiver,
}

/// The HID++ 2.0 device kind a kind byte denotes.
pub open spec fn spec_device_kind(v: u8) -> DeviceKind {
    if v == 0x00 {
        DeviceKind::Keyboard
    } else if v == 0x01 {
        DeviceKind::RemoteControl
    } else if v == 0x02 {
        DeviceKind::Numpad
    } else if v == 0x03 {
        DeviceKind::Mouse
    } else if v == 0x04 {
        DeviceKind::Touchpad
    } else if v == 0x05 {
        DeviceKind::Trackball
    } else if v == 0x06 {
        DeviceKind::Presenter
    } else {
        DeviceKind::Receiver
    }
}

impl From<u8> for DeviceKind {
    fn from(v: u8) -> (r: Self) {
        match v {
            0x00 => DeviceKind::Keyboard,
            0x01 => DeviceKind::RemoteControl,
            0x02 => DeviceKind::Numpad,
            0x03 => DeviceKind::Mouse,
            0x04 => DeviceKind::Touchpad,
            0x05 => DeviceKind::Trackball,
            0x06 => DeviceKind::Presenter,
            _ => DeviceKind::Receiver,
        }
    }
}

impl vstd::std_specs::convert::FromSpecImpl<u8> for DeviceKind {
    open spec fn obeys_from_spec() -> bool {
        true
    }

    open spec fn from_spec(v: u8) -> DeviceKind {
        spec_device_kind(v)
    }
}

/// Onboard profile modes.
#[derive(Debug, Clone, Copy, PartialEq, Eq, Structural)]
pub enum OnboardMode {
    NoChange,
    Onboard,
    Host,
}

impl OnboardMode {
    /// The mode byte.
    pub fn as_u8(self) -> (r: u8)
        ensures
            r == (match self {
                OnboardMode::NoChange => 0x00u8,
                OnboardMode::Onboard => 0x01u8,
                OnboardMode::Host => 0x02u8,
            }),
    {
        match self {
            OnboardMode::NoChange => 0x00,
            OnboardMode::Onboard => 0x01,
            OnboardMode::Host => 0x02,
        }
    }
}

/// Approximate charge levels of the UNIFIED_BATTERY feature.
#[derive(Debug, Clone, Copy, PartialEq, Eq, Structural)]
pub enum ChargeLevel {
    Average,
    Full,
    Critical,
}

impl ChargeLevel {
    /// The percentage that stands for this level.
    pub fn as_u8(self) -> (r: u8)
        ensures
            r == (match self {
                ChargeLevel::Average => 50u8,
                ChargeLevel::Full => 90u8,
                ChargeLevel::Critical => 5u8,
            }),
    {
        match self {
            ChargeLevel::Average => 50,
            ChargeLevel::Full => 90,
            ChargeLevel::Critical => 5,
        }
    }
}

/// Charge type reported by devices.
#[derive(Debug, Clone, Copy, PartialEq, Eq, Structural)]
pub enum ChargeType {
    Standard,
    Fast,
    Slow,
}

/// The charge type a charge type byte denotes.
pub open spec fn spec_charge_type(v: u8) -> ChargeType {
    if v == 0x01 {
        ChargeType::Fast
    } else if v == 0x02 {
        ChargeType::Slow
    } else {
        ChargeType::Standard
    }
}

impl From<u8> for ChargeType {
    fn from(v: u8) -> (r: Self) {
        match v {
            0x01 => ChargeType::Fast,
            0x02 => ChargeType::Slow,
            _ => ChargeType::Standard,
        }
    }
}

impl vstd::std_specs::convert::FromSpecImpl<u8> for ChargeType {
    open spec fn obeys_from_spec() -> bool {
        true
    }

    open spec fn from_spec(v: u8) -> ChargeType {
        spec_charge_type(v)
    }
}

/// HID++ 2.0 error codes returned in a sub-ID 0xFF reply.
#[derive(Debug, Clone, Copy, PartialEq, Eq, Structural)]
pub enum ErrorCode {
    Unknown,
    InvalidArgument,
    OutOfRange,
    HardwareError,
    LogitechError,
    InvalidFeatureIndex,
    InvalidFunction,
    Busy,
    Unsupported,
    UnknownCode(u8),
}

/// The HID++ 2.0 error code an error byte denotes.
pub open spec fn spec_error_code(v: u8) -> ErrorCode {
    if v == 0x01 {
        ErrorCode::Unknown
    } else if v == 0x02 {
        ErrorCode::InvalidArgument
    } else if v == 0x03 {
        ErrorCode::OutOfRange
    } else if v == 0x04 {
        ErrorCode::HardwareError
    } else if v == 0x05 {
        ErrorCode::LogitechError
    } else if v == 0x06 {
        ErrorCode::InvalidFeatureIndex
    } else if v == 0x07 {
        ErrorCode::InvalidFunction
    } else if v == 0x08 {
        ErrorCode::Busy
    } else if v == 0x09 {
        ErrorCode::Unsupported
    } else {
        ErrorCode::UnknownCode(v)
    }
}

impl From<u8> for ErrorCode {
    fn from(v: u8) -> (r: Self) {
        match v {
            0x01 => ErrorCode::Unknown,
            0x02 => ErrorCode::InvalidArgument,
            0x03 => ErrorCode::OutOfRange,
            0x04 => ErrorCode::HardwareError,
            0x05 => ErrorCode::LogitechError,
            0x06 => ErrorCode::InvalidFeatureIndex,
            0x07 => ErrorCode::InvalidFunction,
            0x08 => ErrorCode::Busy,
            0x09 => ErrorCode::Unsupported,
            other => ErrorCode::UnknownCode(other),
        }
    }
}

impl vstd::std_specs::convert::FromSpecImpl<u8> for ErrorCode {
    open spec fn obeys_from_spec() -> bool {
        true
    }

    open spec fn from_spec(v: u8) -> ErrorCode {
        spec_error_code(v)
    }
}

} // verus!
