use vstd::prelude::*;

verus! {

/// Why a frame or message could not be converted.
#[derive(Debug, Clone)]
pub enum Error {
    /// The downlink payload does not fit the 256-byte radio buffer.
    PayloadTooLarge,
    /// The downlink carries no tx-info.
    TxInfoBlank,
    /// The downlink tx-info carries no timing.
    TimingBlank,
    /// The downlink tx-info carries no modulation.
    ModulationBlank,
    /// A delay-timed downlink whose context is not 4 bytes long.
    ContextLength,
    /// A delay-timed downlink without its delay.
    DelayNil,
    /// A GPS-epoch-timed downlink without its time.
    TimeSinceGpsEpochNil,
    /// A LoRa spreading factor outside 7 to 12.
    UnexpectedSpreadingFactor,
    /// An FSK frame whose datarate is not an FSK datarate.
    UnexpectedDatarate,
    /// FSK parameters that are not whole kHz, or a deviation of 256 kHz or more.
    UnexpectedFskParameters,
    /// An FSK datarate whose value in Hz does not fit in 32 bits.
    DatarateOutOfRange,
    /// A frame whose modulation is undefined.
    UndefinedModulation,
    /// LR-FHSS was requested for a downlink.
    LrFhssNotSupported,
    /// The timing oracle could not map a GPS time to the counter.
    Gps(String),
}

impl Error {
    /// The description of each error.
    pub open spec fn message_of(self) -> Seq<char> {
        match self {
            Error::PayloadTooLarge => "phy_payload must not exceed 256 bytes"@,
            Error::TxInfoBlank => "tx_info must not be blank"@,
            Error::TimingBlank => "timing must not be blank"@,
            Error::ModulationBlank => "modulation must not be blank"@,
            Error::ContextLength => "context must be exactly 4 bytes"@,
            Error::DelayNil => "delay must not be nil"@,
            Error::TimeSinceGpsEpochNil => "time_since_gps_epoch must not be nil"@,
            Error::UnexpectedSpreadingFactor => "unexpected spreading-factor"@,
            Error::UnexpectedDatarate => "unexpected datarate"@,
            Error::UnexpectedFskParameters => "unexpected FSK datarate or frequency deviation"@,
            Error::DatarateOutOfRange => "datarate out of range"@,
            Error::UndefinedModulation => "undefined modulation"@,
            Error::LrFhssNotSupported => "LR-FHSS is not supported for downlink"@,
            Error::Gps(m) => m@,
        }
    }

    /// A description of the error.
    pub fn message(&self) -> (r: String)
        ensures
            r@ == self.message_of(),
    {
        proof {
            reveal_strlit("phy_payload must not exceed 256 bytes");
            reveal_strlit("tx_info must not be blank");
            reveal_strlit("timing must not be blank");
            reveal_strlit("modulation must not be blank");
            reveal_strlit("context must be exactly 4 bytes");
            reveal_strlit("delay must not be nil");
            reveal_strlit("time_since_gps_epoch must not be nil");
            reveal_strlit("unexpected spreading-factor");
            reveal_strlit("unexpected datarate");
            reveal_strlit("unexpected FSK datarate or frequency deviation");
            reveal_strlit("datarate out of range");
            reveal_strlit("undefined modulation");
            reveal_strlit("LR-FHSS is not supported for downlink");
        }
        match self {
            Error::PayloadTooLarge => "phy_payload must not exceed 256 bytes".to_string(),
            Error::TxInfoBlank => "tx_info must not be blank".to_string(),
            Error::TimingBlank => "timing must not be blank".to_string(),
            Error::ModulationBlank => "modulation must not be blank".to_string(),
            Error::ContextLength => "context must be exactly 4 bytes".to_string(),
            Error::DelayNil => "delay must not be nil".to_string(),
            Error::TimeSinceGpsEpochNil => "time_since_gps_epoch must not be nil".to_string(),
            Error::UnexpectedSpreadingFactor => "unexpected spreading-factor".to_string(),
            Error::UnexpectedDatarate => "unexpected datarate".to_string(),
            Error::UnexpectedFskParameters => {
                "unexpected FSK datarate or frequency deviation".to_string()
            },
            Error::DatarateOutOfRange => "datarate out of range".to_string(),
            Error::UndefinedModulation => "undefined modulation".to_string(),
            Error::LrFhssNotSupported => "LR-FHSS is not supported for downlink".to_string(),
            Error::Gps(m) => m.clone(),
        }
    }
}

} // verus!
