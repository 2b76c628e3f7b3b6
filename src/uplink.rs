//! Conversion of received frames into wire uplinks.
use vstd::prelude::*;

use crate::codec::{modulation_to_proto, wire_modulation, ModulationSettings};
use crate::error::Error;
use crate::gw;
use crate::hal;

verus! {

/// The lowercase hex digit of a value under 16.
pub open spec fn hex_digit(n: u8) -> char {
    if n < 10 {
        (n + 48) as char
    } else {
        (n + 87) as char
    }
}

/// Bytes in lowercase hex, two digits per byte, high digit first.
pub open spec fn hex_of(b: Seq<u8>) -> Seq<char>
    decreases b.len(),
{
    if b.len() == 0 {
        Seq::empty()
    } else {
        hex_of(b.drop_last()) + seq![hex_digit(b.last() / 16), hex_digit(b.last() % 16)]
    }
}

/// The four big-endian bytes of a counter value.
pub open spec fn be_bytes(c: u32) -> Seq<u8> {
    seq![
        (c / 0x100_0000) as u8,
        ((c / 0x1_0000) % 0x100) as u8,
        ((c / 0x100) % 0x100) as u8,
        (c % 0x100) as u8,
    ]
}

/// The modulation settings of a received frame.
pub open spec fn rx_settings(p: hal::RxPacket) -> ModulationSettings {
    ModulationSettings {
        modulation: p.modulation,
        bandwidth: p.bandwidth,
        datarate: p.datarate,
        coderate: p.coderate,
        invert_pol: false,
        f_dev: 0,
    }
}

/// `f` is the wire uplink for a received frame, reported with modulation `m`,
/// the correlation id and the oracle's times given.
pub open spec fn uplink_of(
    f: gw::UplinkFrame,
    gateway_id: Seq<u8>,
    p: hal::RxPacket,
    m: gw::Modulation,
    uplink_id: u32,
    time: Option<gw::Timestamp>,
    time_since_gps_epoch: Option<gw::Duration>,
) -> bool {
    &&& f.phy_payload@ == p.payload@.subrange(0, p.size as int)
    &&& f.tx_info.frequency == p.freq_hz
    &&& f.tx_info.modulation == m
    &&& f.rx_info.uplink_id == uplink_id
    &&& f.rx_info.context@ == be_bytes(p.count_us)
    &&& f.rx_info.gateway_id@ == hex_of(gateway_id)
    &&& f.rx_info.rssi == p.rssi
    &&& f.rx_info.time == time
    &&& f.rx_info.time_since_gps_epoch == time_since_gps_epoch
}

/// Relies on hex::encode: lowercase hex, two digits per byte, high digit first.
#[verifier::external_body]
fn encode_hex(b: &[u8]) -> (r: String)
    ensures
        r@ == hex_of(b@),
{
    hex::encode(b)
}

/// Relies on rand::random: a u32 drawn from the thread-local generator.
#[verifier::external_body]
fn random_u32() -> u32 {
    rand::random::<u32>()
}

/// The four big-endian bytes of a counter value.
pub fn counter_context(c: u32) -> (r: Vec<u8>)
    ensures
        r@ == be_bytes(c),
{
    let r = vec![
        (c / 0x100_0000) as u8,
        ((c / 0x1_0000) % 0x100) as u8,
        ((c / 0x100) % 0x100) as u8,
        (c % 0x100) as u8,
    ];
    proof {
        assert(r@ =~= be_bytes(c));
    }
    r
}

/// Builds the wire uplink for a received frame, with the correlation id and the
/// oracle's times given; a time the oracle could not give is left out.
pub fn uplink_frame(
    gateway_id: &[u8],
    packet: &hal::RxPacket,
    uplink_id: u32,
    time: Option<gw::Timestamp>,
    time_since_gps_epoch: Option<gw::Duration>,
) -> (r: Result<gw::UplinkFrame, Error>)
    requires
        packet.wf(),
    ensures
        match wire_modulation(rx_settings(*packet)) {
            Err(e) => r == Err::<gw::UplinkFrame, Error>(e),
            Ok(m) => r is Ok && uplink_of(
                r->Ok_0,
                gateway_id@,
                *packet,
                m,
                uplink_id,
                time,
                time_since_gps_epoch,
            ),
        },
{
    let s = ModulationSettings {
        modulation: packet.modulation,
        bandwidth: packet.bandwidth,
        datarate: packet.datarate,
        coderate: packet.coderate,
        invert_pol: false,
        f_dev: 0,
    };
    let modulation = match modulation_to_proto(&s) {
        Ok(m) => m,
        Err(e) => return Err(e),
    };
    let size = packet.size as usize;
    let mut phy_payload: Vec<u8> = Vec::new();
    let mut i: usize = 0;
    while i < size
        invariant
            size <= packet.payload@.len(),
            i <= size,
            phy_payload@ == packet.payload@.subrange(0, i as int),
        decreases size - i,
    {
        phy_payload.push(packet.payload[i]);
        i = i + 1;
    }
    Ok(
        gw::UplinkFrame {
            phy_payload,
            tx_info: gw::UplinkTxInfo { frequency: packet.freq_hz, modulation },
            rx_info: gw::UplinkRxInfo {
                uplink_id,
                context: counter_context(packet.count_us),
                gateway_id: encode_hex(gateway_id),
                rssi: packet.rssi,
                time,
                time_since_gps_epoch,
            },
        },
    )
}

/// Builds the wire uplink for a received frame under a fresh random
/// correlation id. `time` and `time_since_gps_epoch` are what the timing oracle
/// gave for the frame's counter, `None` where it had no fix; the conversion
/// succeeds without them.
pub fn uplink_to_proto(
    gateway_id: &[u8],
    packet: &hal::RxPacket,
    time: Option<gw::Timestamp>,
    time_since_gps_epoch: Option<gw::Duration>,
) -> (r: Result<gw::UplinkFrame, Error>)
    requires
        packet.wf(),
    ensures
        match wire_modulation(rx_settings(*packet)) {
            Err(e) => r == Err::<gw::UplinkFrame, Error>(e),
            Ok(m) => r is Ok && uplink_of(
                r->Ok_0,
                gateway_id@,
                *packet,
                m,
                r->Ok_0.rx_info.uplink_id,
                time,
                time_since_gps_epoch,
            ),
        },
{
    let uplink_id = random_u32();
    uplink_frame(gateway_id, packet, uplink_id, time, time_since_gps_epoch)
}

} // verus!
