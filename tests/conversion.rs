use concentratord_sx1301::codec::ModulationSettings;
use concentratord_sx1301::envelope::QueueTxMode;
use concentratord_sx1301::gw::{
    CodeRate as WireCodeRate, DownlinkFrameItem, DownlinkTxInfo, Duration, FskModulationInfo,
    LoraModulationInfo, LrFhssModulationInfo, Modulation as WireModulation, Timestamp, Timing,
};
use concentratord_sx1301::hal::{CodeRate, DataRate, Modulation, RxPacket, TxMode};
use concentratord_sx1301::{
    downlink_from_proto, downlink_to_tx_info_proto, uplink_to_proto, Error, TxPacket,
};

fn no_gps(_d: Duration) -> Result<u32, String> {
    Err("no gps fix".to_string())
}

fn lora(sf: u32) -> WireModulation {
    WireModulation::Lora(LoraModulationInfo {
        bandwidth: 125000,
        spreading_factor: sf,
        code_rate: WireCodeRate::Cr45,
        polarization_inversion: true,
    })
}

fn item(payload: Vec<u8>, modulation: WireModulation, timing: Timing, context: Vec<u8>) -> DownlinkFrameItem {
    DownlinkFrameItem {
        phy_payload: payload,
        tx_info: Some(DownlinkTxInfo {
            frequency: 868100000,
            power: 14,
            modulation: Some(modulation),
            timing: Some(timing),
            context,
        }),
    }
}

fn rx(modulation: Modulation, datarate: DataRate) -> RxPacket {
    let mut payload = vec![0u8; 256];
    payload[0] = 1;
    payload[1] = 2;
    payload[2] = 3;
    RxPacket {
        freq_hz: 868300000,
        modulation,
        bandwidth: 125000,
        datarate,
        coderate: CodeRate::LoRa4_5,
        rssi: -57,
        count_us: 0x12345678,
        size: 3,
        payload,
    }
}

#[test]
fn delay_wraps_the_counter() {
    let df = item(
        vec![1, 2, 3],
        lora(7),
        Timing::Delay(Some(Duration { seconds: 0, nanos: 100_000 })),
        vec![0xff, 0xff, 0xff, 0xf0],
    );
    let p = downlink_from_proto(&df, no_gps).unwrap();
    assert_eq!(p.count_us, 0x0000_0054);
    assert_eq!(p.tx_mode, TxMode::Timestamped);
}

#[test]
fn delay_adds_seconds_in_microseconds() {
    let df = item(
        vec![1],
        lora(9),
        Timing::Delay(Some(Duration { seconds: 1, nanos: 2_500 })),
        vec![0x00, 0x00, 0x01, 0x00],
    );
    let p = downlink_from_proto(&df, no_gps).unwrap();
    assert_eq!(p.count_us, 256 + 1_000_000 + 2);
}

#[test]
fn spreading_factor_bounds_downlink() {
    for sf in [6u32, 13] {
        let df = item(vec![1], lora(sf), Timing::Immediately, vec![]);
        assert!(matches!(downlink_from_proto(&df, no_gps), Err(Error::UnexpectedSpreadingFactor)));
    }
    let df = item(vec![1], lora(7), Timing::Immediately, vec![]);
    assert_eq!(downlink_from_proto(&df, no_gps).unwrap().datarate, DataRate::SF7);
    let df = item(vec![1], lora(12), Timing::Immediately, vec![]);
    assert_eq!(downlink_from_proto(&df, no_gps).unwrap().datarate, DataRate::SF12);
}

#[test]
fn spreading_factor_bounds_uplink() {
    let f = uplink_to_proto(&[1], &rx(Modulation::LoRa, DataRate::SF7), None, None).unwrap();
    assert!(matches!(f.tx_info.modulation, WireModulation::Lora(v) if v.spreading_factor == 7));
    let f = uplink_to_proto(&[1], &rx(Modulation::LoRa, DataRate::SF12), None, None).unwrap();
    assert!(matches!(f.tx_info.modulation, WireModulation::Lora(v) if v.spreading_factor == 12));
    let r = uplink_to_proto(&[1], &rx(Modulation::LoRa, DataRate::Undefined), None, None);
    assert!(matches!(r, Err(Error::UnexpectedSpreadingFactor)));
}

#[test]
fn payload_of_256_bytes_is_accepted() {
    let df = item(vec![7u8; 256], lora(7), Timing::Immediately, vec![]);
    let p = downlink_from_proto(&df, no_gps).unwrap();
    assert_eq!(p.size, 256);
    assert_eq!(p.payload, vec![7u8; 256]);
}

#[test]
fn payload_of_257_bytes_is_rejected() {
    let df = item(vec![7u8; 257], lora(7), Timing::Immediately, vec![]);
    assert!(matches!(downlink_from_proto(&df, no_gps), Err(Error::PayloadTooLarge)));
}

#[test]
fn short_payload_is_zero_padded() {
    let df = item(vec![9, 8], lora(7), Timing::Immediately, vec![]);
    let p = downlink_from_proto(&df, no_gps).unwrap();
    assert_eq!(p.size, 2);
    assert_eq!(p.payload.len(), 256);
    assert_eq!(&p.payload[..3], &[9, 8, 0]);
    assert_eq!(p.tx_mode, TxMode::Immediate);
    assert_eq!(p.freq_hz, 868100000);
    assert_eq!(p.rf_power, 14);
}

#[test]
fn context_must_be_four_bytes() {
    let delay = Timing::Delay(Some(Duration { seconds: 1, nanos: 0 }));
    for ctx in [vec![1u8, 2, 3], vec![1u8, 2, 3, 4, 5]] {
        let df = item(vec![1], lora(7), delay, ctx);
        assert!(matches!(downlink_from_proto(&df, no_gps), Err(Error::ContextLength)));
    }
    let df = item(vec![1], lora(7), delay, vec![0, 0, 0, 0]);
    assert_eq!(downlink_from_proto(&df, no_gps).unwrap().count_us, 1_000_000);
}

#[test]
fn uplink_without_gps_omits_times() {
    let f = uplink_to_proto(&[0xaa], &rx(Modulation::LoRa, DataRate::SF9), None, None).unwrap();
    assert!(f.rx_info.time.is_none());
    assert!(f.rx_info.time_since_gps_epoch.is_none());
    assert_eq!(f.phy_payload, vec![1, 2, 3]);
}

#[test]
fn uplink_with_gps_keeps_times() {
    let t = Timestamp { seconds: 1_700_000_000, nanos: 5 };
    let d = Duration { seconds: 1_400_000_000, nanos: 7 };
    let f = uplink_to_proto(&[0xaa], &rx(Modulation::LoRa, DataRate::SF9), Some(t), Some(d)).unwrap();
    assert_eq!(f.rx_info.time, Some(t));
    assert_eq!(f.rx_info.time_since_gps_epoch, Some(d));
}

#[test]
fn uplink_fields() {
    let f = uplink_to_proto(
        &[0x01, 0x02, 0xab, 0xcd, 0xef, 0x00, 0x10, 0xff],
        &rx(Modulation::LoRa, DataRate::SF10),
        None,
        None,
    )
    .unwrap();
    assert_eq!(f.rx_info.gateway_id, "0102abcdef0010ff");
    assert_eq!(f.rx_info.context, vec![0x12, 0x34, 0x56, 0x78]);
    assert_eq!(f.rx_info.rssi, -57);
    assert_eq!(f.tx_info.frequency, 868300000);
    assert_eq!(
        f.tx_info.modulation,
        WireModulation::Lora(LoraModulationInfo {
            bandwidth: 125000,
            spreading_factor: 10,
            code_rate: WireCodeRate::Cr45,
            polarization_inversion: false,
        })
    );
}

#[test]
fn uplink_undefined_modulation_is_rejected() {
    let r = uplink_to_proto(&[1], &rx(Modulation::Undefined, DataRate::SF7), None, None);
    assert!(matches!(r, Err(Error::UndefinedModulation)));
}

#[test]
fn uplink_fsk_with_lora_datarate_is_rejected() {
    let r = uplink_to_proto(&[1], &rx(Modulation::FSK, DataRate::SF7), None, None);
    assert!(matches!(r, Err(Error::UnexpectedDatarate)));
}

#[test]
fn uplink_fsk_datarate_out_of_range() {
    let r = uplink_to_proto(&[1], &rx(Modulation::FSK, DataRate::FSK(5_000_000)), None, None);
    assert!(matches!(r, Err(Error::DatarateOutOfRange)));
}

#[test]
fn lr_fhss_downlink_is_rejected() {
    let m = WireModulation::LrFhss(LrFhssModulationInfo {
        operating_channel_width: 137000,
        code_rate: WireCodeRate::Cr26,
        grid_steps: 52,
    });
    let timings = [
        Timing::Immediately,
        Timing::Delay(Some(Duration { seconds: 1, nanos: 0 })),
        Timing::GpsEpoch(Some(Duration { seconds: 1, nanos: 0 })),
    ];
    for t in timings {
        let df = item(vec![1], m, t, vec![0, 0, 0, 0]);
        assert!(matches!(downlink_from_proto(&df, |_d: Duration| Ok(5u32)), Err(Error::LrFhssNotSupported)));
    }
}

#[test]
fn fsk_units() {
    let r = uplink_to_proto(&[1], &rx(Modulation::FSK, DataRate::FSK(125)), None, None).unwrap();
    assert!(matches!(r.tx_info.modulation, WireModulation::Fsk(v) if v.datarate == 125000));
    let m = WireModulation::Fsk(FskModulationInfo { frequency_deviation: 25000, datarate: 125000 });
    let p = downlink_from_proto(&item(vec![1], m, Timing::Immediately, vec![]), no_gps).unwrap();
    assert_eq!(p.datarate, DataRate::FSK(125));
    assert_eq!(p.f_dev, 25);
    assert_eq!(p.modulation, Modulation::FSK);
}

#[test]
fn round_trip_lora() {
    for sf in 7u32..=12 {
        for cr in [WireCodeRate::CrUndefined, WireCodeRate::Cr45, WireCodeRate::Cr46, WireCodeRate::Cr47, WireCodeRate::Cr48] {
            for pol in [false, true] {
                let m = WireModulation::Lora(LoraModulationInfo {
                    bandwidth: 250000,
                    spreading_factor: sf,
                    code_rate: cr,
                    polarization_inversion: pol,
                });
                let p = downlink_from_proto(&item(vec![1], m, Timing::Immediately, vec![]), no_gps).unwrap();
                let back = downlink_to_tx_info_proto(&p).unwrap();
                assert_eq!(back.modulation, Some(m));
                assert_eq!(back.frequency, 868100000);
            }
        }
    }
}

#[test]
fn round_trip_fsk() {
    let m = WireModulation::Fsk(FskModulationInfo { frequency_deviation: 50000, datarate: 50000 });
    let p = downlink_from_proto(&item(vec![1], m, Timing::Immediately, vec![]), no_gps).unwrap();
    assert_eq!(downlink_to_tx_info_proto(&p).unwrap().modulation, Some(m));
}

#[test]
fn gps_epoch_uses_the_oracle() {
    let t = Timing::GpsEpoch(Some(Duration { seconds: 1_300_000_000, nanos: 0 }));
    let df = item(vec![1], lora(8), t, vec![]);
    let p = downlink_from_proto(&df, |d: Duration| {
        assert_eq!(d.seconds, 1_300_000_000);
        Ok(4242u32)
    })
    .unwrap();
    assert_eq!(p.count_us, 4242);
    assert_eq!(p.tx_mode, TxMode::Timestamped);
    match downlink_from_proto(&df, no_gps) {
        Err(e) => assert_eq!(e.message(), "no gps fix"),
        Ok(_) => panic!("expected the oracle's error"),
    }
}

#[test]
fn missing_parts_are_rejected() {
    let df = DownlinkFrameItem { phy_payload: vec![1], tx_info: None };
    let r = downlink_from_proto(&df, no_gps);
    assert!(matches!(r, Err(Error::TxInfoBlank)));
    assert_eq!(r.unwrap_err().message(), "tx_info must not be blank");

    let mut df = item(vec![1], lora(7), Timing::Immediately, vec![]);
    df.tx_info.as_mut().unwrap().timing = None;
    assert!(matches!(downlink_from_proto(&df, no_gps), Err(Error::TimingBlank)));

    let mut df = item(vec![1], lora(7), Timing::Immediately, vec![]);
    df.tx_info.as_mut().unwrap().modulation = None;
    assert!(matches!(downlink_from_proto(&df, no_gps), Err(Error::ModulationBlank)));

    let df = item(vec![1], lora(7), Timing::Delay(None), vec![0, 0, 0, 0]);
    assert!(matches!(downlink_from_proto(&df, no_gps), Err(Error::DelayNil)));

    let df = item(vec![1], lora(7), Timing::GpsEpoch(None), vec![]);
    assert!(matches!(downlink_from_proto(&df, no_gps), Err(Error::TimeSinceGpsEpochNil)));
}

#[test]
fn reverse_report_rejects_bad_frames() {
    let df = item(vec![1], lora(7), Timing::Immediately, vec![]);
    let mut p = downlink_from_proto(&df, no_gps).unwrap();
    p.datarate = DataRate::FSK(3);
    assert!(matches!(downlink_to_tx_info_proto(&p), Err(Error::UnexpectedSpreadingFactor)));
    p.modulation = Modulation::Undefined;
    assert!(matches!(downlink_to_tx_info_proto(&p), Err(Error::UndefinedModulation)));
    p.modulation = Modulation::FSK;
    p.datarate = DataRate::SF7;
    assert!(matches!(downlink_to_tx_info_proto(&p), Err(Error::UnexpectedDatarate)));
}

#[test]
fn envelope_accessors() {
    let df = item(vec![1, 2], lora(7), Timing::Immediately, vec![]);
    let p = downlink_from_proto(&df, no_gps).unwrap();
    let mut e = TxPacket::new(77, p);
    assert_eq!(e.get_id(), 77);
    assert_eq!(e.get_tx_mode(), QueueTxMode::Immediate);
    e.set_tx_mode(QueueTxMode::OnGPS);
    assert_eq!(e.get_tx_mode(), QueueTxMode::OnGPS);
    assert_eq!(e.tx_packet().tx_mode, TxMode::OnGPS);
    e.set_tx_mode(QueueTxMode::Timestamped);
    assert_eq!(e.tx_packet().tx_mode, TxMode::Timestamped);
    e.set_count_us(123456);
    assert_eq!(e.get_count_us(), 123456);
    assert_eq!(e.tx_packet().count_us, 123456);
    assert_eq!(e.tx_packet().payload[..2], [1, 2]);
    assert_eq!(e.get_id(), 77);
}

#[test]
fn modulation_settings_of_lora() {
    let s = concentratord_sx1301::codec::modulation_from_proto(&lora(11)).unwrap();
    assert_eq!(
        s,
        ModulationSettings {
            modulation: Modulation::LoRa,
            bandwidth: 125000,
            datarate: DataRate::SF11,
            coderate: CodeRate::LoRa4_5,
            invert_pol: true,
            f_dev: 0,
        }
    );
}

#[test]
fn fsk_values_the_driver_cannot_hold_are_rejected() {
    let cases = [
        FskModulationInfo { frequency_deviation: 25000, datarate: 1500 },
        FskModulationInfo { frequency_deviation: 300000, datarate: 50000 },
        FskModulationInfo { frequency_deviation: 256000, datarate: 50000 },
        FskModulationInfo { frequency_deviation: 25500, datarate: 50000 },
    ];
    for v in cases {
        let df = item(vec![1], WireModulation::Fsk(v), Timing::Immediately, vec![]);
        let r = downlink_from_proto(&df, no_gps);
        assert!(matches!(r, Err(Error::UnexpectedFskParameters)));
        assert_eq!(r.unwrap_err().message(), "unexpected FSK datarate or frequency deviation");
    }
}

#[test]
fn largest_fsk_deviation_reads_back() {
    let m = WireModulation::Fsk(FskModulationInfo { frequency_deviation: 255000, datarate: 1000 });
    let p = downlink_from_proto(&item(vec![1], m, Timing::Immediately, vec![]), no_gps).unwrap();
    assert_eq!(p.f_dev, 255);
    assert_eq!(downlink_to_tx_info_proto(&p).unwrap().modulation, Some(m));
}
