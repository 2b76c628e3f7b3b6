//! The concentrator driver's view of radio frames.
use vstd::prelude::*;

verus! {

/// Size of the driver's payload buffer.
pub const PAYLOAD_CAPACITY: usize = 256;

/// Modulation kind of a radio frame.
#[derive(Debug, Clone, Copy, PartialEq, Eq, Structural)]
pub enum Modulation {
    Undefined,
    LoRa,
    FSK,
}

/// LoRa spreading factor, or FSK datarate in kHz.
#[derive(Debug, Clone, Copy, PartialEq, Eq, Structural)]
pub enum DataRate {
    Undefined,
    SF7,
    SF8,
    SF9,
    SF10,
    SF11,
    SF12,
    FSK(u32),
}

/// LoRa code rate.
#[derive(Debug, Clone, Copy, PartialEq, Eq, Structural)]
pub enum CodeRate {
    Undefined,
    LoRa4_5,
    LoRa4_6,
    LoRa4_7,
    LoRa4_8,
}

/// When the driver sends a frame.
#[derive(Debug, Clone, Copy, PartialEq, Eq, Structural)]
pub enum TxMode {
    Immediate,
    Timestamped,
    OnGPS,
}

/// A frame as received by the concentrator.
#[derive(Debug, Clone)]
pub struct RxPacket {
    pub freq_hz: u32,
    pub modulation: Modulation,
    pub bandwidth: u32,
    pub datarate: DataRate,
    pub coderate: CodeRate,
    /// Signal strength, in whole dBm.
    pub rssi: i32,
    /// Counter snapshot at reception, in microseconds.
    pub count_us: u32,
    /// Number of bytes of `payload` that hold the frame.
    pub size: u16,
    pub payload: Vec<u8>,
}

impl RxPacket {
    /// The declared size lies within the buffer.
    pub open spec fn wf(&self) -> bool {
        self.size as int <= self.payload@.len()
    }
}

/// A frame handed to the concentrator for transmission.
#[derive(Debug, Clone)]
pub struct TxPacket {
    pub freq_hz: u32,
    pub tx_mode: TxMode,
    /// Counter value at which to send; unused when `tx_mode` is `Immediate`.
    pub count_us: u32,
    pub rf_chain: u8,
    pub rf_power: i8,
    pub modulation: Modulation,
    pub bandwidth: u32,
    pub datarate: DataRate,
    pub coderate: CodeRate,
    pub invert_pol: bool,
    /// FSK frequency deviation, in kHz.
    pub f_dev: u8,
    pub preamble: u16,
    pub no_crc: bool,
    pub no_header: bool,
    pub size: u16,
    pub payload: Vec<u8>,
}

impl TxPacket {
    /// The two frames hold the same values.
    pub open spec fn same(&self, o: &TxPacket) -> bool {
        &&& self.freq_hz == o.freq_hz
        &&& self.tx_mode == o.tx_mode
        &&& self.count_us == o.count_us
        &&& self.rf_chain == o.rf_chain
        &&& self.rf_power == o.rf_power
        &&& self.modulation == o.modulation
        &&& self.bandwidth == o.bandwidth
        &&& self.datarate == o.datarate
        &&& self.coderate == o.coderate
        &&& self.invert_pol == o.invert_pol
        &&& self.f_dev == o.f_dev
        &&& self.preamble == o.preamble
        &&& self.no_crc == o.no_crc
        &&& self.no_header == o.no_header
        &&& self.size == o.size
        &&& self.payload@ == o.payload@
    }

    /// A copy of the frame.
    pub fn duplicate(&self) -> (r: TxPacket)
        ensures
            r.same(self),
    {
        let payload = self.payload.clone();
        proof {
            assert(payload@ =~= self.payload@);
        }
        TxPacket {
            freq_hz: self.freq_hz,
            tx_mode: self.tx_mode,
            count_us: self.count_us,
            rf_chain: self.rf_chain,
            rf_power: self.rf_power,
            modulation: self.modulation,
            bandwidth: self.bandwidth,
            datarate: self.datarate,
            coderate: self.coderate,
            invert_pol: self.invert_pol,
            f_dev: self.f_dev,
            preamble: self.preamble,
            no_crc: self.no_crc,
            no_header: self.no_header,
            size: self.size,
            payload,
        }
    }
}

} // verus!
