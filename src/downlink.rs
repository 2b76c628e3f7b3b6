//! Resolution of wire downlinks into driver frames, and the reverse report.
use vstd::prelude::*;
use vstd::arithmetic::div_mod::{lemma_fundamental_div_mod, lemma_mod_multiples_vanish};

use crate::codec::{
    downlink_legal, modulation_from_proto, modulation_settings, modulation_to_proto,
    wire_modulation, ModulationSettings,
};
use crate::error::Error;
use crate::gw;
use crate::hal::{self, TxMode, PAYLOAD_CAPACITY};

verus! {

/// What a downlink's timing asks for, before any oracle query.
#[derive(Debug, Clone, Copy, PartialEq, Eq, Structural)]
pub enum TimingRequest {
    /// Send at once.
    Immediate,
    /// Send when the counter reaches the value.
    Counter(u32),
    /// Send at this time since the GPS epoch.
    GpsEpoch(gw::Duration),
}

/// The counter value that four big-endian bytes hold.
pub open spec fn be_value(b: Seq<u8>) -> int {
    b[0] as int * 0x100_0000 + b[1] as int * 0x1_0000 + b[2] as int * 0x100 + b[3] as int
}

/// A delay in whole microseconds, its fields read as unsigned 64-bit values.
pub open spec fn delay_micros(d: gw::Duration) -> int {
    (d.seconds as u64) as int * 1_000_000 + (d.nanos as u64) as int / 1000
}

/// The counter value `d` after `base`, wrapping at 2^32.
pub open spec fn delayed_count(base: u32, d: gw::Duration) -> u32 {
    ((base as int + delay_micros(d)) % 0x1_0000_0000) as u32
}

/// The timing that a downlink's tx-info asks for.
pub open spec fn timing_request(tx: gw::DownlinkTxInfo) -> Result<TimingRequest, Error> {
    match tx.timing {
        None => Err(Error::TimingBlank),
        Some(gw::Timing::Immediately) => Ok(TimingRequest::Immediate),
        Some(gw::Timing::Delay(d)) => if tx.context@.len() != 4 {
            Err(Error::ContextLength)
        } else {
            match d {
                None => Err(Error::DelayNil),
                Some(d) => Ok(TimingRequest::Counter(delayed_count(be_value(tx.context@) as u32, d))),
            }
        },
        Some(gw::Timing::GpsEpoch(d)) => match d {
            None => Err(Error::TimeSinceGpsEpochNil),
            Some(d) => Ok(TimingRequest::GpsEpoch(d)),
        },
    }
}

/// What a downlink asks for: its modulation settings and timing, or the first
/// validation error (payload size, tx-info, modulation, then timing).
pub open spec fn downlink_request(df: gw::DownlinkFrameItem) -> Result<
    (ModulationSettings, TimingRequest),
    Error,
> {
    if df.phy_payload@.len() > PAYLOAD_CAPACITY {
        Err(Error::PayloadTooLarge)
    } else {
        match df.tx_info {
            None => Err(Error::TxInfoBlank),
            Some(tx) => match tx.modulation {
                None => Err(Error::ModulationBlank),
                Some(m) => match modulation_settings(m) {
                    Err(e) => Err(e),
                    Ok(s) => match timing_request(tx) {
                        Err(e) => Err(e),
                        Ok(t) => Ok((s, t)),
                    },
                },
            },
        }
    }
}

/// The modulation settings that a driver frame carries.
pub open spec fn tx_settings(p: hal::TxPacket) -> ModulationSettings {
    ModulationSettings {
        modulation: p.modulation,
        bandwidth: p.bandwidth,
        datarate: p.datarate,
        coderate: p.coderate,
        invert_pol: p.invert_pol,
        f_dev: p.f_dev,
    }
}

/// A payload zero-padded to the driver's buffer size.
pub open spec fn padded(payload: Seq<u8>) -> Seq<u8> {
    payload + Seq::new((PAYLOAD_CAPACITY - payload.len()) as nat, |i: int| 0u8)
}

/// `p` is the driver frame for the payload, tx-info, settings and timing given.
pub open spec fn frame_of(
    p: hal::TxPacket,
    payload: Seq<u8>,
    tx: gw::DownlinkTxInfo,
    s: ModulationSettings,
    mode: TxMode,
    count: u32,
) -> bool {
    &&& p.freq_hz == tx.frequency
    &&& p.tx_mode == mode
    &&& p.count_us == count
    &&& p.rf_chain == 0
    &&& p.rf_power == tx.power as i8
    &&& tx_settings(p) == s
    &&& p.preamble == 0
    &&& !p.no_crc
    &&& !p.no_header
    &&& p.size as int == payload.len()
    &&& p.payload@ == padded(payload)
}

/// The counter value `d` after `base`, wrapping at 2^32.
pub fn delayed_counter(base: u32, d: gw::Duration) -> (r: u32)
    ensures
        r == delayed_count(base, d),
{
    let s: u64 = #[verifier::truncate] (d.seconds as u64);
    let n: u64 = #[verifier::truncate] (d.nanos as u64);
    let a: u64 = (s % 0x1_0000_0000) * 1_000_000;
    let b: u64 = (n / 1000) % 0x1_0000_0000;
    let t: u64 = (base as u64 + a % 0x1_0000_0000 + b) % 0x1_0000_0000;
    proof {
        let m: int = 0x1_0000_0000;
        let y: int = n as int / 1000;
        lemma_fundamental_div_mod(s as int, m);
        lemma_fundamental_div_mod(a as int, m);
        lemma_fundamental_div_mod(y, m);
        let k: int = -((s as int / m) * 1_000_000 + a as int / m + y / m);
        assert(base as int + a as int % m + y % m == m * k + (base as int + s as int * 1_000_000
            + y)) by (nonlinear_arith)
            requires
                s as int == m * (s as int / m) + s as int % m,
                a as int == m * (a as int / m) + a as int % m,
                y == m * (y / m) + y % m,
                a as int == (s as int % m) * 1_000_000,
                k == -((s as int / m) * 1_000_000 + a as int / m + y / m),
        ;
        lemma_mod_multiples_vanish(k, base as int + s as int * 1_000_000 + y, m);
    }
    t as u32
}

/// Resolves the timing that a downlink's tx-info asks for.
pub fn timing_from_proto(tx: &gw::DownlinkTxInfo) -> (r: Result<TimingRequest, Error>)
    ensures
        r == timing_request(*tx),
{
    match tx.timing {
        None => Err(Error::TimingBlank),
        Some(gw::Timing::Immediately) => Ok(TimingRequest::Immediate),
        Some(gw::Timing::Delay(d)) => {
            if tx.context.len() != 4 {
                return Err(Error::ContextLength);
            }
            match d {
                None => Err(Error::DelayNil),
                Some(d) => {
                    let base: u32 = tx.context[0] as u32 * 0x100_0000 + tx.context[1] as u32
                        * 0x1_0000 + tx.context[2] as u32 * 0x100 + tx.context[3] as u32;
                    Ok(TimingRequest::Counter(delayed_counter(base, d)))
                },
            }
        },
        Some(gw::Timing::GpsEpoch(d)) => match d {
            None => Err(Error::TimeSinceGpsEpochNil),
            Some(d) => Ok(TimingRequest::GpsEpoch(d)),
        },
    }
}

/// Builds the driver frame for a payload, tx-info, modulation settings and a
/// resolved timing.
pub fn tx_packet_from(
    payload: &Vec<u8>,
    tx: &gw::DownlinkTxInfo,
    s: ModulationSettings,
    tx_mode: TxMode,
    count_us: u32,
) -> (r: hal::TxPacket)
    requires
        payload@.len() <= PAYLOAD_CAPACITY,
    ensures
        frame_of(r, payload@, *tx, s, tx_mode, count_us),
{
    let mut data: Vec<u8> = Vec::new();
    let mut i: usize = 0;
    while i < payload.len()
        invariant
            payload@.len() <= PAYLOAD_CAPACITY,
            i <= payload@.len(),
            data@ == payload@.subrange(0, i as int),
        decreases payload@.len() - i,
    {
        data.push(payload[i]);
        i = i + 1;
    }
    while data.len() < PAYLOAD_CAPACITY
        invariant
            payload@.len() <= data@.len() <= PAYLOAD_CAPACITY,
            data@.subrange(0, payload@.len() as int) == payload@,
            forall|j: int| payload@.len() <= j < data@.len() ==> data@[j] == 0u8,
        decreases PAYLOAD_CAPACITY - data@.len(),
    {
        data.push(0u8);
    }
    proof {
        assert(data@ =~= padded(payload@));
    }
    hal::TxPacket {
        freq_hz: tx.frequency,
        tx_mode,
        count_us,
        rf_chain: 0,
        rf_power: #[verifier::truncate] (tx.power as i8),
        modulation: s.modulation,
        bandwidth: s.bandwidth,
        datarate: s.datarate,
        coderate: s.coderate,
        invert_pol: s.invert_pol,
        f_dev: s.f_dev,
        preamble: 0,
        no_crc: false,
        no_header: false,
        size: payload.len() as u16,
        payload: data,
    }
}

/// Builds the driver frame for a wire downlink. A GPS-epoch timing is mapped to
/// the counter by `epoch_to_counter`, the timing oracle's query; its failure
/// fails the downlink.
pub fn downlink_from_proto<F: Fn(gw::Duration) -> Result<u32, String>>(
    df: &gw::DownlinkFrameItem,
    epoch_to_counter: F,
) -> (r: Result<hal::TxPacket, Error>)
    requires
        forall|d: gw::Duration| epoch_to_counter.requires((d,)),
    ensures
        match downlink_request(*df) {
            Err(e) => r == Err::<hal::TxPacket, Error>(e),
            Ok((s, t)) => {
                let tx = df.tx_info->Some_0;
                match t {
                    TimingRequest::Immediate => r is Ok && frame_of(
                        r->Ok_0,
                        df.phy_payload@,
                        tx,
                        s,
                        TxMode::Immediate,
                        0,
                    ),
                    TimingRequest::Counter(c) => r is Ok && frame_of(
                        r->Ok_0,
                        df.phy_payload@,
                        tx,
                        s,
                        TxMode::Timestamped,
                        c,
                    ),
                    TimingRequest::GpsEpoch(d) => match r {
                        Ok(p) => epoch_to_counter.ensures((d,), Ok::<u32, String>(p.count_us))
                            && frame_of(p, df.phy_payload@, tx, s, TxMode::Timestamped, p.count_us),
                        Err(e) => e is Gps && epoch_to_counter.ensures(
                            (d,),
                            Err::<u32, String>(e->Gps_0),
                        ),
                    },
                }
            },
        },
{
    if df.phy_payload.len() > PAYLOAD_CAPACITY {
        return Err(Error::PayloadTooLarge);
    }
    let tx = match &df.tx_info {
        Some(v) => v,
        None => return Err(Error::TxInfoBlank),
    };
    let s = match &tx.modulation {
        Some(m) => match modulation_from_proto(m) {
            Ok(s) => s,
            Err(e) => return Err(e),
        },
        None => return Err(Error::ModulationBlank),
    };
    let (tx_mode, count_us) = match timing_from_proto(tx) {
        Err(e) => return Err(e),
        Ok(TimingRequest::Immediate) => (TxMode::Immediate, 0u32),
        Ok(TimingRequest::Counter(c)) => (TxMode::Timestamped, c),
        Ok(TimingRequest::GpsEpoch(d)) => match epoch_to_counter(d) {
            Ok(c) => (TxMode::Timestamped, c),
            Err(msg) => return Err(Error::Gps(msg)),
        },
    };
    Ok(tx_packet_from(&df.phy_payload, tx, s, tx_mode, count_us))
}

/// Reports a driver frame's frequency and modulation as a downlink tx-info;
/// the other fields are left empty.
pub fn downlink_to_tx_info_proto(packet: &hal::TxPacket) -> (r: Result<gw::DownlinkTxInfo, Error>)
    ensures
        match wire_modulation(tx_settings(*packet)) {
            Ok(m) => r is Ok && r->Ok_0.frequency == packet.freq_hz && r->Ok_0.modulation == Some(
                m,
            ) && r->Ok_0.power == 0 && r->Ok_0.timing is None && r->Ok_0.context@.len() == 0,
            Err(e) => r == Err::<gw::DownlinkTxInfo, Error>(e),
        },
{
    let s = ModulationSettings {
        modulation: packet.modulation,
        bandwidth: packet.bandwidth,
        datarate: packet.datarate,
        coderate: packet.coderate,
        invert_pol: packet.invert_pol,
        f_dev: packet.f_dev,
    };
    match modulation_to_proto(&s) {
        Ok(m) => Ok(
            gw::DownlinkTxInfo {
                frequency: packet.freq_hz,
                power: 0,
                modulation: Some(m),
                timing: None,
                context: Vec::new(),
            },
        ),
        Err(e) => Err(e),
    }
}

/// Downlink round trip: when a downlink with a legal modulation resolves, a
/// frame carrying its settings reports that same modulation again.
pub proof fn lemma_downlink_round_trip(df: gw::DownlinkFrameItem, p: hal::TxPacket)
    requires
        downlink_request(df) is Ok,
        downlink_legal(df.tx_info->Some_0.modulation->Some_0),
        tx_settings(p) == downlink_request(df)->Ok_0.0,
    ensures
        wire_modulation(tx_settings(p)) == Ok::<gw::Modulation, Error>(
            df.tx_info->Some_0.modulation->Some_0,
        ),
{
    crate::codec::lemma_modulation_round_trip(df.tx_info->Some_0.modulation->Some_0);
}

/// LR-FHSS is never sent: a downlink that asks for it is rejected, whatever its
/// timing.
pub proof fn lemma_lr_fhss_rejected(df: gw::DownlinkFrameItem)
    requires
        df.tx_info is Some,
        df.tx_info->Some_0.modulation matches Some(gw::Modulation::LrFhss(_)),
    ensures
        downlink_request(df) is Err,
        df.phy_payload@.len() <= PAYLOAD_CAPACITY ==> downlink_request(df) == Err::<
            (ModulationSettings, TimingRequest),
            Error,
        >(Error::LrFhssNotSupported),
{
}

} // verus!
