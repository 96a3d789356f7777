use cat_scale::bthome::{
    build_bthome_payload, setup_ble_advertising, AdvertisingKind, AdvertisingParameters,
    ADVERTISE_TIMEOUT_MS, BTHOME_UUID, BTHOME_V2, GAP_FLAGS, OBJECT_BATTERY, OBJECT_MASS, OBJECT_RAW,
};
use cat_scale::bytes::{le16, le32};
use cat_scale::gap::{AD_COMPLETE_LOCAL_NAME, AD_FLAGS, AD_SERVICE_DATA, LEGACY_CAPACITY};

/// The structures of advertising data, by their length bytes.
fn split(data: &[u8]) -> Vec<(u8, Vec<u8>)> {
    let mut out = Vec::new();
    let mut at = 0;
    while at < data.len() {
        let len = data[at] as usize;
        assert!(len > 0 && at + len < data.len() + 1);
        out.push((data[at + 1], data[at + 2..at + 1 + len].to_vec()));
        at += 1 + len;
    }
    out
}

#[test]
fn payload_of_an_ordinary_weight() {
    assert_eq!(
        build_bthome_payload(452, 258345, 90),
        [
            0x02, 0x01, 0x06, 0x0F, 0x16, 0xD2, 0xFC, 0x40, 0x06, 0xC4, 0x01, 0x01, 90, 0x54, 0x04,
            0x29, 0xF1, 0x03, 0x00,
        ]
    );
}

#[test]
fn payload_of_a_negative_raw_reading() {
    assert_eq!(
        build_bthome_payload(0, -2, 0),
        [
            0x02, 0x01, 0x06, 0x0F, 0x16, 0xD2, 0xFC, 0x40, 0x06, 0x00, 0x00, 0x01, 0, 0x54, 0x04,
            0xFE, 0xFF, 0xFF, 0xFF,
        ]
    );
}

#[test]
fn payload_at_the_limits() {
    let low = build_bthome_payload(u16::MAX, i32::MIN, u8::MAX);
    assert_eq!(low[9..11], [0xFF, 0xFF]);
    assert_eq!(low[12], 0xFF);
    assert_eq!(low[15..19], [0x00, 0x00, 0x00, 0x80]);
    let high = build_bthome_payload(u16::MAX, i32::MAX, u8::MAX);
    assert_eq!(high[15..19], [0xFF, 0xFF, 0xFF, 0x7F]);
}

#[test]
fn scanner_takes_the_advertisement_apart() {
    let structures = split(&build_bthome_payload(1234, -56789, 55));
    assert_eq!(structures.len(), 2);
    assert_eq!(structures[0], (AD_FLAGS, vec![GAP_FLAGS]));
    assert_eq!(structures[1].0, AD_SERVICE_DATA);
    assert_eq!(structures[1].1.len(), 14);
}

#[test]
fn receiver_reads_back_what_was_sent() {
    for (weight, raw, battery) in [
        (0u16, 0i32, 0u8),
        (452, 258345, 90),
        (1234, -56789, 55),
        (65535, i32::MIN, 100),
        (1, i32::MAX, 255),
    ] {
        let service = split(&build_bthome_payload(weight, raw, battery))[1].1.clone();
        assert_eq!(u16::from_le_bytes([service[0], service[1]]), BTHOME_UUID);
        assert_eq!(service[2], BTHOME_V2);
        assert_eq!(service[3], OBJECT_MASS);
        assert_eq!(u16::from_le_bytes([service[4], service[5]]), weight);
        assert_eq!(service[6], OBJECT_BATTERY);
        assert_eq!(service[7], battery);
        assert_eq!(service[8], OBJECT_RAW);
        assert_eq!(service[9], 4);
        assert_eq!(
            i32::from_le_bytes([service[10], service[11], service[12], service[13]]),
            raw
        );
    }
}

#[test]
fn different_readings_look_different() {
    let one = build_bthome_payload(100, 5, 90);
    assert_ne!(one, build_bthome_payload(101, 5, 90));
    assert_ne!(one, build_bthome_payload(100, -5, 90));
    assert_ne!(one, build_bthome_payload(100, 5, 91));
    assert_eq!(one, build_bthome_payload(100, 5, 90));
}

#[test]
fn scan_response_is_the_name() {
    let adv = setup_ble_advertising(452, 258345, 90);
    let structures = split(&adv.scan_data);
    assert_eq!(
        structures,
        vec![(AD_COMPLETE_LOCAL_NAME, b"Cat Scale".to_vec())]
    );
    assert_eq!(adv.scan_data[0], 0x0A);
}

#[test]
fn broadcast_carries_the_payload_for_two_seconds() {
    let adv = setup_ble_advertising(452, 258345, 90);
    assert_eq!(adv.adv_data, build_bthome_payload(452, 258345, 90));
    assert_eq!(adv.timeout_ms, 2000);
    assert_eq!(adv.timeout_ms, ADVERTISE_TIMEOUT_MS);
    assert!(adv.adv_data.len() <= LEGACY_CAPACITY);
    assert!(adv.scan_data.len() <= LEGACY_CAPACITY);
}

#[test]
fn nobody_can_connect_and_everybody_can_scan() {
    let adv = setup_ble_advertising(452, 258345, 90);
    assert_eq!(
        adv.kind,
        AdvertisingKind::NonconnectableScannableUndirected
    );
    assert_eq!(adv.parameters, AdvertisingParameters::StackDefault);
}

#[test]
fn little_endian_as_the_processor_does_it() {
    for value in [0u16, 1, 255, 256, 0x1234, 0xFCD2, 0xFFFF] {
        assert_eq!(le16(value), value.to_le_bytes());
    }
    for value in [0i32, 1, -1, 255, -256, 0x12345678, i32::MIN, i32::MAX] {
        assert_eq!(le32(value), value.to_le_bytes());
    }
}
