//! The mapping between wire modulation parameters and driver frame settings.
use vstd::prelude::*;

use crate::error::Error;
use crate::gw;
use crate::hal::{CodeRate, DataRate, Modulation};

verus! {

/// The modulation settings of a driver frame.
#[derive(Debug, Clone, Copy, PartialEq, Eq, Structural)]
pub struct ModulationSettings {
    pub modulation: Modulation,
    pub bandwidth: u32,
    pub datarate: DataRate,
    pub coderate: CodeRate,
    pub invert_pol: bool,
    /// FSK frequency deviation, in kHz.
    pub f_dev: u8,
}

/// The driver datarate of a LoRa spreading factor, for 7 to 12.
pub open spec fn sf_to_datarate(sf: u32) -> Option<DataRate> {
    if sf == 7 {
        Some(DataRate::SF7)
    } else if sf == 8 {
        Some(DataRate::SF8)
    } else if sf == 9 {
        Some(DataRate::SF9)
    } else if sf == 10 {
        Some(DataRate::SF10)
    } else if sf == 11 {
        Some(DataRate::SF11)
    } else if sf == 12 {
        Some(DataRate::SF12)
    } else {
        None
    }
}

/// The spreading factor of a LoRa driver datarate.
pub open spec fn datarate_to_sf(dr: DataRate) -> Option<u32> {
    match dr {
        DataRate::SF7 => Some(7),
        DataRate::SF8 => Some(8),
        DataRate::SF9 => Some(9),
        DataRate::SF10 => Some(10),
        DataRate::SF11 => Some(11),
        DataRate::SF12 => Some(12),
        _ => None,
    }
}

/// The wire code rate of a driver code rate.
pub open spec fn code_rate_to_wire(c: CodeRate) -> gw::CodeRate {
    match c {
        CodeRate::LoRa4_5 => gw::CodeRate::Cr45,
        CodeRate::LoRa4_6 => gw::CodeRate::Cr46,
        CodeRate::LoRa4_7 => gw::CodeRate::Cr47,
        CodeRate::LoRa4_8 => gw::CodeRate::Cr48,
        CodeRate::Undefined => gw::CodeRate::CrUndefined,
    }
}

/// The driver code rate of a wire code rate; those the driver lacks are undefined.
pub open spec fn code_rate_from_wire(c: gw::CodeRate) -> CodeRate {
    match c {
        gw::CodeRate::Cr45 => CodeRate::LoRa4_5,
        gw::CodeRate::Cr46 => CodeRate::LoRa4_6,
        gw::CodeRate::Cr47 => CodeRate::LoRa4_7,
        gw::CodeRate::Cr48 => CodeRate::LoRa4_8,
        _ => CodeRate::Undefined,
    }
}

/// FSK parameters that the driver's kHz fields hold exactly: datarate and
/// deviation in whole kHz, and a deviation under 256 kHz.
pub open spec fn fsk_representable(v: gw::FskModulationInfo) -> bool {
    &&& v.datarate % 1000 == 0
    &&& v.frequency_deviation % 1000 == 0
    &&& v.frequency_deviation < 256000
}

/// The driver settings that a wire modulation asks for in a downlink.
/// FSK datarate and deviation go from Hz to kHz; FSK parameters that the
/// driver cannot hold exactly are rejected.
pub open spec fn modulation_settings(m: gw::Modulation) -> Result<ModulationSettings, Error> {
    match m {
        gw::Modulation::Lora(v) => match sf_to_datarate(v.spreading_factor) {
            Some(dr) => Ok(
                ModulationSettings {
                    modulation: Modulation::LoRa,
                    bandwidth: v.bandwidth,
                    datarate: dr,
                    coderate: code_rate_from_wire(v.code_rate),
                    invert_pol: v.polarization_inversion,
                    f_dev: 0,
                },
            ),
            None => Err(Error::UnexpectedSpreadingFactor),
        },
        gw::Modulation::Fsk(v) => if fsk_representable(v) {
            Ok(
                ModulationSettings {
                    modulation: Modulation::FSK,
                    bandwidth: 0,
                    datarate: DataRate::FSK(v.datarate / 1000),
                    coderate: CodeRate::Undefined,
                    invert_pol: false,
                    f_dev: (v.frequency_deviation / 1000) as u8,
                },
            )
        } else {
            Err(Error::UnexpectedFskParameters)
        },
        gw::Modulation::LrFhss(_) => Err(Error::LrFhssNotSupported),
    }
}

/// The wire modulation that reports driver settings. FSK datarate and
/// deviation go from kHz to Hz.
pub open spec fn wire_modulation(s: ModulationSettings) -> Result<gw::Modulation, Error> {
    match s.modulation {
        Modulation::LoRa => match datarate_to_sf(s.datarate) {
            Some(sf) => Ok(
                gw::Modulation::Lora(
                    gw::LoraModulationInfo {
                        bandwidth: s.bandwidth,
                        spreading_factor: sf,
                        code_rate: code_rate_to_wire(s.coderate),
                        polarization_inversion: s.invert_pol,
                    },
                ),
            ),
            None => Err(Error::UnexpectedSpreadingFactor),
        },
        Modulation::FSK => match s.datarate {
            DataRate::FSK(v) => if v * 1000 <= u32::MAX {
                Ok(
                    gw::Modulation::Fsk(
                        gw::FskModulationInfo {
                            frequency_deviation: (s.f_dev * 1000) as u32,
                            datarate: (v * 1000) as u32,
                        },
                    ),
                )
            } else {
                Err(Error::DatarateOutOfRange)
            },
            _ => Err(Error::UnexpectedDatarate),
        },
        Modulation::Undefined => Err(Error::UndefinedModulation),
    }
}

/// A wire modulation that a downlink can carry and that reads back unchanged:
/// LoRa with a spreading factor of 7 to 12 and a code rate the driver has, or
/// FSK with whole kHz for datarate and deviation and a deviation under 256 kHz.
pub open spec fn downlink_legal(m: gw::Modulation) -> bool {
    match m {
        gw::Modulation::Lora(v) => {
            &&& 7 <= v.spreading_factor <= 12
            &&& (v.code_rate is CrUndefined || v.code_rate is Cr45 || v.code_rate is Cr46
                || v.code_rate is Cr47 || v.code_rate is Cr48)
        },
        gw::Modulation::Fsk(v) => fsk_representable(v),
        gw::Modulation::LrFhss(_) => false,
    }
}

/// The driver datarate of a spreading factor.
pub fn datarate_of_sf(sf: u32) -> (r: Option<DataRate>)
    ensures
        r == sf_to_datarate(sf),
{
    match sf {
        7 => Some(DataRate::SF7),
        8 => Some(DataRate::SF8),
        9 => Some(DataRate::SF9),
        10 => Some(DataRate::SF10),
        11 => Some(DataRate::SF11),
        12 => Some(DataRate::SF12),
        _ => None,
    }
}

/// The spreading factor of a driver datarate.
pub fn sf_of_datarate(dr: DataRate) -> (r: Option<u32>)
    ensures
        r == datarate_to_sf(dr),
{
    match dr {
        DataRate::SF7 => Some(7),
        DataRate::SF8 => Some(8),
        DataRate::SF9 => Some(9),
        DataRate::SF10 => Some(10),
        DataRate::SF11 => Some(11),
        DataRate::SF12 => Some(12),
        _ => None,
    }
}

/// The wire code rate of a driver code rate.
pub fn code_rate_to_proto(c: CodeRate) -> (r: gw::CodeRate)
    ensures
        r == code_rate_to_wire(c),
{
    match c {
        CodeRate::LoRa4_5 => gw::CodeRate::Cr45,
        CodeRate::LoRa4_6 => gw::CodeRate::Cr46,
        CodeRate::LoRa4_7 => gw::CodeRate::Cr47,
        CodeRate::LoRa4_8 => gw::CodeRate::Cr48,
        CodeRate::Undefined => gw::CodeRate::CrUndefined,
    }
}

/// The driver code rate of a wire code rate.
pub fn code_rate_from_proto(c: gw::CodeRate) -> (r: CodeRate)
    ensures
        r == code_rate_from_wire(c),
{
    match c {
        gw::CodeRate::Cr45 => CodeRate::LoRa4_5,
        gw::CodeRate::Cr46 => CodeRate::LoRa4_6,
        gw::CodeRate::Cr47 => CodeRate::LoRa4_7,
        gw::CodeRate::Cr48 => CodeRate::LoRa4_8,
        _ => CodeRate::Undefined,
    }
}

/// Resolves a downlink's wire modulation into driver settings.
pub fn modulation_from_proto(m: &gw::Modulation) -> (r: Result<ModulationSettings, Error>)
    ensures
        r == modulation_settings(*m),
{
    match m {
        gw::Modulation::Lora(v) => match datarate_of_sf(v.spreading_factor) {
            Some(dr) => Ok(
                ModulationSettings {
                    modulation: Modulation::LoRa,
                    bandwidth: v.bandwidth,
                    datarate: dr,
                    coderate: code_rate_from_proto(v.code_rate),
                    invert_pol: v.polarization_inversion,
                    f_dev: 0,
                },
            ),
            None => Err(Error::UnexpectedSpreadingFactor),
        },
        gw::Modulation::Fsk(v) => if v.datarate % 1000 == 0 && v.frequency_deviation % 1000 == 0
            && v.frequency_deviation < 256000 {
            Ok(
                ModulationSettings {
                    modulation: Modulation::FSK,
                    bandwidth: 0,
                    datarate: DataRate::FSK(v.datarate / 1000),
                    coderate: CodeRate::Undefined,
                    invert_pol: false,
                    f_dev: (v.frequency_deviation / 1000) as u8,
                },
            )
        } else {
            Err(Error::UnexpectedFskParameters)
        },
        gw::Modulation::LrFhss(_) => Err(Error::LrFhssNotSupported),
    }
}

/// Reports driver settings as a wire modulation.
pub fn modulation_to_proto(s: &ModulationSettings) -> (r: Result<gw::Modulation, Error>)
    ensures
        r == wire_modulation(*s),
{
    match s.modulation {
        Modulation::LoRa => match sf_of_datarate(s.datarate) {
            Some(sf) => Ok(
                gw::Modulation::Lora(
                    gw::LoraModulationInfo {
                        bandwidth: s.bandwidth,
                        spreading_factor: sf,
                        code_rate: code_rate_to_proto(s.coderate),
                        polarization_inversion: s.invert_pol,
                    },
                ),
            ),
            None => Err(Error::UnexpectedSpreadingFactor),
        },
        Modulation::FSK => match s.datarate {
            DataRate::FSK(v) => if v <= u32::MAX / 1000 {
                Ok(
                    gw::Modulation::Fsk(
                        gw::FskModulationInfo {
                            frequency_deviation: s.f_dev as u32 * 1000,
                            datarate: v * 1000,
                        },
                    ),
                )
            } else {
                Err(Error::DatarateOutOfRange)
            },
            _ => Err(Error::UnexpectedDatarate),
        },
        Modulation::Undefined => Err(Error::UndefinedModulation),
    }
}

/// Modulation round trip: every legal wire modulation of a downlink resolves to
/// driver settings, and reporting those settings gives back the same modulation.
pub proof fn lemma_modulation_round_trip(m: gw::Modulation)
    requires
        downlink_legal(m),
    ensures
        modulation_settings(m) is Ok,
        wire_modulation(modulation_settings(m)->Ok_0) == Ok::<gw::Modulation, Error>(m),
{
    match m {
        gw::Modulation::Fsk(v) => {
            let dev = v.frequency_deviation / 1000;
            assert(dev < 256);
            assert(((dev as u8) * 1000) as u32 == v.frequency_deviation);
            assert(((v.datarate / 1000) * 1000) as u32 == v.datarate);
        },
        _ => {},
    }
}

/// Every FSK modulation that a downlink accepts is legal, so it reads back
/// unchanged; the others are rejected.
pub proof fn lemma_fsk_accepted_reads_back(v: gw::FskModulationInfo)
    ensures
        modulation_settings(gw::Modulation::Fsk(v)) is Ok <==> downlink_legal(
            gw::Modulation::Fsk(v),
        ),
        modulation_settings(gw::Modulation::Fsk(v)) is Ok ==> wire_modulation(
            modulation_settings(gw::Modulation::Fsk(v))->Ok_0,
        ) == Ok::<gw::Modulation, Error>(gw::Modulation::Fsk(v)),
{
    if fsk_representable(v) {
        lemma_modulation_round_trip(gw::Modulation::Fsk(v));
    }
}

/// FSK units: a driver datarate of `khz` is reported as `khz * 1000` Hz, and a
/// wire datarate of `khz * 1000` Hz resolves to a driver datarate of `khz`.
pub proof fn lemma_fsk_datarate_units(khz: u32, f_dev: u8)
    requires
        khz * 1000 <= u32::MAX,
    ensures
        ({
            let s = ModulationSettings {
                modulation: Modulation::FSK,
                bandwidth: 0,
                datarate: DataRate::FSK(khz),
                coderate: CodeRate::Undefined,
                invert_pol: false,
                f_dev,
            };
            &&& wire_modulation(s) is Ok
            &&& wire_modulation(s)->Ok_0 is Fsk
            &&& wire_modulation(s)->Ok_0->Fsk_0.datarate == khz * 1000
            &&& modulation_settings(wire_modulation(s)->Ok_0) == Ok::<ModulationSettings, Error>(s)
        }),
{
    assert((f_dev * 1000) / 1000 == f_dev);
}

} // verus!
