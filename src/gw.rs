//! The gateway wire messages exchanged with the network server.
use vstd::prelude::*;

verus! {

/// Code rate as carried on the wire.
#[derive(Debug, Clone, Copy, PartialEq, Eq, Structural)]
pub enum CodeRate {
    CrUndefined,
    Cr45,
    Cr46,
    Cr47,
    Cr48,
    Cr38,
    Cr26,
    Cr14,
    Cr16,
    Cr56,
    CrLi45,
    CrLi46,
    CrLi48,
}

#[derive(Debug, Clone, Copy, PartialEq, Eq, Structural)]
pub struct LoraModulationInfo {
    pub bandwidth: u32,
    pub spreading_factor: u32,
    pub code_rate: CodeRate,
    pub polarization_inversion: bool,
}

#[derive(Debug, Clone, Copy, PartialEq, Eq, Structural)]
pub struct FskModulationInfo {
    /// Frequency deviation, in Hz.
    pub frequency_deviation: u32,
    /// Datarate, in Hz.
    pub datarate: u32,
}

#[derive(Debug, Clone, Copy, PartialEq, Eq, Structural)]
pub struct LrFhssModulationInfo {
    pub operating_channel_width: u32,
    pub code_rate: CodeRate,
    pub grid_steps: u32,
}

/// Modulation parameters, one variant per modulation.
#[derive(Debug, Clone, Copy, PartialEq, Eq, Structural)]
pub enum Modulation {
    Lora(LoraModulationInfo),
    Fsk(FskModulationInfo),
    LrFhss(LrFhssModulationInfo),
}

/// A span of time: seconds and nanoseconds.
#[derive(Debug, Clone, Copy, PartialEq, Eq, Structural)]
pub struct Duration {
    pub seconds: i64,
    pub nanos: i32,
}

/// An instant: seconds and nanoseconds since the Unix epoch.
#[derive(Debug, Clone, Copy, PartialEq, Eq, Structural)]
pub struct Timestamp {
    pub seconds: i64,
    pub nanos: i32,
}

/// When a downlink is to be sent.
#[derive(Debug, Clone, Copy, PartialEq, Eq, Structural)]
pub enum Timing {
    /// As soon as possible.
    Immediately,
    /// After the given delay, counted from the uplink that the context names.
    Delay(Option<Duration>),
    /// At the given time since the GPS epoch.
    GpsEpoch(Option<Duration>),
}

#[derive(Debug, Clone)]
pub struct UplinkTxInfo {
    pub frequency: u32,
    pub modulation: Modulation,
}

#[derive(Debug, Clone)]
pub struct UplinkRxInfo {
    pub uplink_id: u32,
    /// The reception counter, big-endian.
    pub context: Vec<u8>,
    /// Gateway identity, in lowercase hex.
    pub gateway_id: String,
    pub rssi: i32,
    pub time: Option<Timestamp>,
    pub time_since_gps_epoch: Option<Duration>,
}

#[derive(Debug, Clone)]
pub struct UplinkFrame {
    pub phy_payload: Vec<u8>,
    pub tx_info: UplinkTxInfo,
    pub rx_info: UplinkRxInfo,
}

#[derive(Debug, Clone)]
pub struct DownlinkTxInfo {
    pub frequency: u32,
    pub power: i32,
    pub modulation: Option<Modulation>,
    pub timing: Option<Timing>,
    pub context: Vec<u8>,
}

#[derive(Debug, Clone)]
pub struct DownlinkFrameItem {
    pub phy_payload: Vec<u8>,
    pub tx_info: Option<DownlinkTxInfo>,
}

} // verus!
