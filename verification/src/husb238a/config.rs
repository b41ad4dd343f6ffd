//! Protocol detection configuration for the HUSB238A.
use vstd::prelude::*;

verus! {

/// Sink PDO1 current capability (USER_CFG3 bits [1:0])
#[derive(Debug, Clone, Copy, PartialEq, Eq, Structural)]
pub enum SinkPdo1Current {
    /// 3A (default)
    Amps3,
    /// 2.4A
    Amps2_4,
    /// 2.1A
    Amps2_1,
    /// 1.5A
    Amps1_5,
}

impl SinkPdo1Current {
    /// The two-bit USER_CFG3[1:0] code of this capability.
    pub open spec fn code(self) -> u8 {
        match self {
            SinkPdo1Current::Amps3 => 0,
            SinkPdo1Current::Amps2_4 => 1,
            SinkPdo1Current::Amps2_1 => 2,
            SinkPdo1Current::Amps1_5 => 3,
        }
    }

    /// The two-bit USER_CFG3[1:0] code of this capability.
    pub fn bits(self) -> (r: u8)
        ensures
            r == self.code(),
    {
        match self {
            SinkPdo1Current::Amps3 => 0,
            SinkPdo1Current::Amps2_4 => 1,
            SinkPdo1Current::Amps2_1 => 2,
            SinkPdo1Current::Amps1_5 => 3,
        }
    }
}

/// Protocol detection configuration for USER_CFG1/USER_CFG3/CONTROL1 registers.
///
/// Controls which charging protocols the HUSB238A will detect and advertise
/// in its Sink_Capabilities message to the connected Source.
#[derive(Debug, Clone, Copy, PartialEq, Eq, Structural)]
pub struct ProtocolConfig {
    /// Enable HVDCP detection after BC1.2 (USER_CFG1[6]).
    pub enable_hvdcp: bool,
    /// Enable VBUS under-voltage detection (USER_CFG1[3]).
    pub enable_vbus_uv_detection: bool,
    /// Enable PPS Sink Capability (USER_CFG3[6]).
    pub enable_pps: bool,
    /// Enable AVS Sink Capability (USER_CFG3[5]).
    pub enable_avs: bool,
    /// Enable EPR AVS Sink Capability (USER_CFG3[3]).
    pub enable_epr_avs: bool,
    /// Enable modal operation for SOP Discover SVIDs/Modes/Enter/Exit (USER_CFG3[4]).
    pub enable_modal_operation: bool,
    /// Min Voltage in Sink_Capabilities PDO2 (USER_CFG3[2]): false = 5V, true = 3.3V.
    pub snk_cap_min_voltage_3v3: bool,
    /// PDO1 current in Sink_Capabilities (USER_CFG3[1:0]).
    pub snk_pdo1_current: SinkPdo1Current,
    /// Keep D+/D- connected for BC1.2/QC detection (CONTROL1[5] EN_DPM_HIZ inverted).
    pub enable_legacy_detection: bool,
    /// PD protocol priority (USER_CFG2[2]): PD runs immediately after connection.
    pub pd_priority: bool,
}

/// The default configuration: PD only, 3 A on PDO1, PD priority on, all else off.
pub open spec fn default_config() -> ProtocolConfig {
    ProtocolConfig {
        enable_hvdcp: false,
        enable_vbus_uv_detection: false,
        enable_pps: false,
        enable_avs: false,
        enable_epr_avs: false,
        enable_modal_operation: false,
        snk_cap_min_voltage_3v3: false,
        snk_pdo1_current: SinkPdo1Current::Amps3,
        enable_legacy_detection: false,
        pd_priority: true,
    }
}

impl Default for ProtocolConfig {
    fn default() -> (r: Self)
        ensures
            r == default_config(),
    {
        ProtocolConfig::pd_only()
    }
}

impl ProtocolConfig {
    /// Create a PD-only config (no legacy protocols, no PPS/AVS).
    pub fn pd_only() -> (r: Self)
        ensures
            r == default_config(),
    {
        ProtocolConfig {
            enable_hvdcp: false,
            enable_vbus_uv_detection: false,
            enable_pps: false,
            enable_avs: false,
            enable_epr_avs: false,
            enable_modal_operation: false,
            snk_cap_min_voltage_3v3: false,
            snk_pdo1_current: SinkPdo1Current::Amps3,
            enable_legacy_detection: false,
            pd_priority: true,
        }
    }

    /// Create a config with PPS support enabled.
    pub fn with_pps() -> (r: Self)
        ensures
            r == (ProtocolConfig { enable_pps: true, ..default_config() }),
    {
        ProtocolConfig { enable_pps: true, ..ProtocolConfig::pd_only() }
    }

    /// Create a config with PPS + AVS support enabled.
    pub fn with_pps_avs() -> (r: Self)
        ensures
            r == (ProtocolConfig { enable_pps: true, enable_avs: true, ..default_config() }),
    {
        ProtocolConfig { enable_pps: true, enable_avs: true, ..ProtocolConfig::pd_only() }
    }

    /// Create a full-featured config enabling all protocols.
    pub fn full() -> (r: Self)
        ensures
            r == (ProtocolConfig {
                enable_hvdcp: true,
                enable_vbus_uv_detection: true,
                enable_pps: true,
                enable_avs: true,
                enable_epr_avs: true,
                enable_legacy_detection: true,
                ..default_config()
            }),
    {
        ProtocolConfig {
            enable_hvdcp: true,
            enable_vbus_uv_detection: true,
            enable_pps: true,
            enable_avs: true,
            enable_epr_avs: true,
            enable_legacy_detection: true,
            ..ProtocolConfig::pd_only()
        }
    }
}

} // verus!
