//! The broadcast: a BTHome V2 advertisement with the weight, and a scan response
//! with the name of the scale.

use vstd::prelude::*;
use vstd::arithmetic::power::pow;
use crate::bytes::{le16, le32};
#[allow(unused_imports)]
use crate::bytes::{
    from_twos_complement, law_le_reads_back, law_le_width, law_twos_complement_reads_back, le_bytes,
    le_value, twos_complement,
};
#[allow(unused_imports)]
use crate::gap::{
    ad_structures, encoded_all, law_scanner_finds_structures, AdStructure, AD_COMPLETE_LOCAL_NAME,
    AD_FLAGS, AD_SERVICE_DATA, LEGACY_CAPACITY,
};

verus! {

/// General discoverable, no classic Bluetooth.
pub const GAP_FLAGS: u8 = 0x06;

/// The 16-bit UUID of BTHome.
pub const BTHOME_UUID: u16 = 0xFCD2;

/// Device information byte: version 2, not encrypted.
pub const BTHOME_V2: u8 = 0x40;

/// Object: mass in hundredths of a kilogram, two bytes.
pub const OBJECT_MASS: u8 = 0x06;

/// Object: battery level in percent, one byte.
pub const OBJECT_BATTERY: u8 = 0x01;

/// Object: raw bytes, led by their number.
pub const OBJECT_RAW: u8 = 0x54;

/// How long one advertisement is kept on the air.
pub const ADVERTISE_TIMEOUT_MS: u64 = 2000;

/// One BTHome measurement: what it is, and its bytes.
pub struct Object {
    pub id: u8,
    pub value: Seq<u8>,
}

impl Object {
    /// The value has the width that its kind prescribes.
    pub open spec fn fits(self) -> bool {
        match fixed_width(self.id) {
            Some(width) => self.value.len() == width,
            None => self.id == OBJECT_RAW && self.value.len() <= 0xFF,
        }
    }

    /// The object on the air: its id, for raw bytes their number, its value.
    pub open spec fn encoded(self) -> Seq<u8> {
        if self.id == OBJECT_RAW {
            seq![self.id, self.value.len() as u8] + self.value
        } else {
            seq![self.id] + self.value
        }
    }
}

/// The width of the value of an object, where its kind alone fixes it.
pub open spec fn fixed_width(id: u8) -> Option<nat> {
    if id == OBJECT_MASS {
        Some(2)
    } else if id == OBJECT_BATTERY {
        Some(1)
    } else {
        None
    }
}

/// Objects one after the other.
pub open spec fn encoded_objects(objects: Seq<Object>) -> Seq<u8>
    decreases objects.len(),
{
    if objects.len() == 0 {
        Seq::empty()
    } else {
        objects[0].encoded() + encoded_objects(objects.skip(1))
    }
}

/// What a receiver makes of BTHome objects: it goes from one to the next by their
/// widths. `None` where it meets an unknown kind or the data ends too early.
pub open spec fn objects_in(data: Seq<u8>) -> Option<Seq<Object>>
    decreases data.len(),
{
    if data.len() == 0 {
        Some(Seq::empty())
    } else {
        let start: int = if data[0] == OBJECT_RAW { 2 } else { 1 };
        let width: Option<nat> = if data[0] == OBJECT_RAW && data.len() >= 2 {
            Some(data[1] as nat)
        } else {
            fixed_width(data[0])
        };
        match width {
            None => None,
            Some(w) => if data.len() < start + w {
                None
            } else {
                match objects_in(data.skip(start + w)) {
                    None => None,
                    Some(rest) => Some(
                        seq![Object { id: data[0], value: data.subrange(start, start + w) }] + rest,
                    ),
                }
            },
        }
    }
}

/// The first value of the given kind.
pub open spec fn value_of(objects: Seq<Object>, id: u8) -> Option<Seq<u8>>
    decreases objects.len(),
{
    if objects.len() == 0 {
        None
    } else if objects[0].id == id {
        Some(objects[0].value)
    } else {
        value_of(objects.skip(1), id)
    }
}

/// The three measurements of the scale, in the order in which they are sent.
pub open spec fn measurements(weight_converted: u16, weight_raw: i32, battery_pct: u8) -> Seq<
    Object,
> {
    seq![
        Object { id: OBJECT_MASS, value: le_bytes(weight_converted as nat, 2) },
        Object { id: OBJECT_BATTERY, value: seq![battery_pct] },
        Object { id: OBJECT_RAW, value: le_bytes(twos_complement(weight_raw), 4) },
    ]
}

/// The structures of the advertisement: the flags, then the BTHome service data.
pub open spec fn advertised(weight_converted: u16, weight_raw: i32, battery_pct: u8) -> Seq<
    AdStructure,
> {
    seq![
        AdStructure { kind: AD_FLAGS, payload: seq![GAP_FLAGS] },
        AdStructure {
            kind: AD_SERVICE_DATA,
            payload: le_bytes(BTHOME_UUID as nat, 2) + seq![BTHOME_V2] + encoded_objects(
                measurements(weight_converted, weight_raw, battery_pct),
            ),
        },
    ]
}

/// The name of the scale, in ASCII.
pub open spec fn local_name() -> Seq<u8> {
    "Cat Scale"@.map_values(|c: char| c as u8)
}

/// The one structure of the scan response: the complete name.
pub open spec fn scan_response() -> Seq<AdStructure> {
    seq![AdStructure { kind: AD_COMPLETE_LOCAL_NAME, payload: local_name() }]
}

/// The advertisement byte by byte.
pub open spec fn advertisement_bytes(
    weight_converted: u16,
    weight_raw: i32,
    battery_pct: u8,
) -> Seq<u8> {
    let raw = twos_complement(weight_raw);
    seq![
        0x02,
        0x01,
        0x06,
        0x0F,
        0x16,
        0xD2,
        0xFC,
        0x40,
        0x06,
        (weight_converted as nat % 256) as u8,
        (weight_converted as nat / 256) as u8,
        0x01,
        battery_pct,
        0x54,
        0x04,
        (raw % 256) as u8,
        (raw / 0x100 % 256) as u8,
        (raw / 0x1_0000 % 256) as u8,
        (raw / 0x100_0000) as u8,
    ]
}

/// The scan response byte by byte.
pub open spec fn scan_response_bytes() -> Seq<u8> {
    seq![0x0A, 0x09, 0x43, 0x61, 0x74, 0x20, 0x53, 0x63, 0x61, 0x6C, 0x65]
}

/// The bytes of the advertisement are its structures, and the objects in them, written out.
pub proof fn law_advertisement_layout(weight_converted: u16, weight_raw: i32, battery_pct: u8)
    ensures
        encoded_all(advertised(weight_converted, weight_raw, battery_pct)) == advertisement_bytes(
            weight_converted,
            weight_raw,
            battery_pct,
        ),
        advertised(weight_converted, weight_raw, battery_pct)[1].payload.len() == 14,
{
    law_le_width(BTHOME_UUID as nat, 2);
    law_le_width(weight_converted as nat, 2);
    law_le_width(twos_complement(weight_raw), 4);
    let objects = measurements(weight_converted, weight_raw, battery_pct);
    assert(objects.skip(1).skip(1).skip(1) =~= Seq::empty());
    assert(encoded_objects(objects) =~= objects[0].encoded() + objects[1].encoded()
        + objects[2].encoded()) by {
        reveal_with_fuel(encoded_objects, 4);
    }
    let structures = advertised(weight_converted, weight_raw, battery_pct);
    assert(structures.skip(1).skip(1) =~= Seq::empty());
    assert(encoded_all(structures) =~= structures[0].encoded() + structures[1].encoded()) by {
        reveal_with_fuel(encoded_all, 3);
    }
    assert(encoded_all(structures) =~= advertisement_bytes(
        weight_converted,
        weight_raw,
        battery_pct,
    )) by {
        reveal_with_fuel(le_bytes, 5);
    }
}

/// The bytes of the scan response are its structure written out.
pub proof fn law_scan_response_layout()
    ensures
        encoded_all(scan_response()) == scan_response_bytes(),
{
    reveal_strlit("Cat Scale");
    assert(scan_response().skip(1) =~= Seq::empty());
    reveal_with_fuel(encoded_all, 2);
    assert(encoded_all(scan_response()) =~= scan_response_bytes());
}

/// The advertisement for a weight in hundredths of a kilogram, the raw reading
/// behind it and the battery level.
pub fn build_bthome_payload(weight_converted: u16, weight_raw: i32, battery_pct: u8) -> (payload:
    [u8; 19])
    ensures
        payload@ == advertisement_bytes(weight_converted, weight_raw, battery_pct),
        payload@ == encoded_all(advertised(weight_converted, weight_raw, battery_pct)),
        payload@.take(3) == seq![0x02u8, 0x01, 0x06],
        payload@.subrange(3, 9) == seq![0x0Fu8, 0x16, 0xD2, 0xFC, 0x40, 0x06],
        payload@[11] == 0x01,
        payload@.subrange(13, 15) == seq![0x54u8, 0x04],
        payload@[9] + 256 * payload@[10] == weight_converted,
        payload@[12] == battery_pct,
        payload@[15] + 0x100 * payload@[16] + 0x1_0000 * payload@[17] + 0x100_0000 * payload@[18] == (if weight_raw
            >= 0 {
            weight_raw as int
        } else {
            weight_raw + 0x1_0000_0000
        }),
{
    let uuid: [u8; 2] = le16(BTHOME_UUID);
    let mass: [u8; 2] = le16(weight_converted);
    let raw: [u8; 4] = le32(weight_raw);
    let payload: [u8; 19] = [
        0x02,
        AD_FLAGS,
        GAP_FLAGS,
        0x0F,
        AD_SERVICE_DATA,
        uuid[0],
        uuid[1],
        BTHOME_V2,
        OBJECT_MASS,
        mass[0],
        mass[1],
        OBJECT_BATTERY,
        battery_pct,
        OBJECT_RAW,
        0x04,
        raw[0],
        raw[1],
        raw[2],
        raw[3],
    ];
    proof {
        assert(payload@ =~= advertisement_bytes(weight_converted, weight_raw, battery_pct)) by {
            reveal_with_fuel(le_bytes, 5);
        }
        law_advertisement_layout(weight_converted, weight_raw, battery_pct);
        assert(payload@.take(3) =~= seq![0x02u8, 0x01, 0x06]);
        assert(payload@.subrange(3, 9) =~= seq![0x0Fu8, 0x16, 0xD2, 0xFC, 0x40, 0x06]);
        assert(payload@.subrange(13, 15) =~= seq![0x54u8, 0x04]);
    }
    payload
}

/// How a broadcast can be met. Nobody can connect to one, whichever it is.
#[derive(Clone, Copy, Debug, PartialEq, Eq, Structural)]
pub enum AdvertisingKind {
    /// For everybody, with a scan response.
    NonconnectableScannableUndirected,
    /// For everybody, without one.
    NonconnectableNonscannableUndirected,
}

/// How a broadcast is sent.
#[derive(Clone, Copy, Debug, PartialEq, Eq, Structural)]
pub enum AdvertisingParameters {
    /// As the radio stack does it by default.
    StackDefault,
    /// As by default, but every so many steps of 0.625 ms.
    Interval { steps: u32 },
}

/// What one round of broadcasting puts on the air, how, and for how long.
pub struct Advertisement {
    pub kind: AdvertisingKind,
    pub parameters: AdvertisingParameters,
    pub adv_data: [u8; 19],
    pub scan_data: [u8; 11],
    pub timeout_ms: u64,
}

/// The broadcast of a weight in hundredths of a kilogram, the raw reading behind it
/// and the battery level.
pub fn setup_ble_advertising(weight_converted: u16, weight_raw: i32, battery: u8) -> (adv:
    Advertisement)
    ensures
        adv.kind == AdvertisingKind::NonconnectableScannableUndirected,
        adv.parameters == AdvertisingParameters::StackDefault,
        adv.adv_data@ == advertisement_bytes(weight_converted, weight_raw, battery),
        adv.adv_data@ == encoded_all(advertised(weight_converted, weight_raw, battery)),
        adv.scan_data@ == scan_response_bytes(),
        adv.scan_data@ == encoded_all(scan_response()),
        adv.timeout_ms == ADVERTISE_TIMEOUT_MS,
{
    let adv_data: [u8; 19] = build_bthome_payload(weight_converted, weight_raw, battery);
    let scan_data: [u8; 11] = [
        0x0A,
        AD_COMPLETE_LOCAL_NAME,
        0x43,
        0x61,
        0x74,
        0x20,
        0x53,
        0x63,
        0x61,
        0x6C,
        0x65,
    ];
    proof {
        law_scan_response_layout();
        assert(scan_data@ =~= scan_response_bytes());
    }
    Advertisement {
        kind: AdvertisingKind::NonconnectableScannableUndirected,
        parameters: AdvertisingParameters::StackDefault,
        adv_data,
        scan_data,
        timeout_ms: ADVERTISE_TIMEOUT_MS,
    }
}

/// What a receiver reports.
pub struct Reading {
    pub weight_converted: nat,
    pub weight_raw: int,
    pub battery_pct: nat,
}

/// The reading that a BTHome receiver takes from an advertisement: it looks at the
/// second structure, wants the service data of BTHome V2 there, and picks the mass,
/// the battery level and four raw bytes from its objects.
pub open spec fn received(data: Seq<u8>) -> Option<Reading> {
    match ad_structures(data) {
        None => None,
        Some(structures) => if structures.len() == 2 && structures[1].kind == AD_SERVICE_DATA
            && structures[1].payload.len() >= 3 && le_value(structures[1].payload.take(2))
            == BTHOME_UUID && structures[1].payload[2] == BTHOME_V2 {
            match objects_in(structures[1].payload.skip(3)) {
                None => None,
                Some(objects) => reading_in(objects),
            }
        } else {
            None
        },
    }
}

/// The reading that BTHome objects hold, where they hold a whole one.
pub open spec fn reading_in(objects: Seq<Object>) -> Option<Reading> {
    match (
        value_of(objects, OBJECT_MASS),
        value_of(objects, OBJECT_BATTERY),
        value_of(objects, OBJECT_RAW),
    ) {
        (Some(mass), Some(battery), Some(raw)) => if raw.len() == 4 {
            Some(
                Reading {
                    weight_converted: le_value(mass),
                    weight_raw: from_twos_complement(le_value(raw)),
                    battery_pct: le_value(battery),
                },
            )
        } else {
            None
        },
        _ => None,
    }
}

/// A receiver finds exactly the objects that were sent.
pub proof fn law_receiver_finds_objects(objects: Seq<Object>)
    requires
        forall|i: int| 0 <= i < objects.len() ==> (#[trigger] objects[i]).fits(),
    ensures
        objects_in(encoded_objects(objects)) == Some(objects),
    decreases objects.len(),
{
    if objects.len() > 0 {
        let first = objects[0];
        let data = encoded_objects(objects);
        let start: int = if first.id == OBJECT_RAW { 2 } else { 1 };
        let width = first.value.len() as int;
        assert(first.fits());
        law_receiver_finds_objects(objects.skip(1));
        assert(data[0] == first.id);
        assert(first.id == OBJECT_RAW ==> data[1] == width);
        assert(data.skip(start + width) =~= encoded_objects(objects.skip(1)));
        assert(data.subrange(start, start + width) =~= first.value);
        assert(seq![first] + objects.skip(1) =~= objects);
    } else {
        assert(objects =~= Seq::empty());
    }
}

/// A scanner takes the advertisement apart into the flags and the service data.
pub proof fn law_advertisement_is_well_formed(
    weight_converted: u16,
    weight_raw: i32,
    battery_pct: u8,
)
    ensures
        ad_structures(encoded_all(advertised(weight_converted, weight_raw, battery_pct))) == Some(
            advertised(weight_converted, weight_raw, battery_pct),
        ),
{
    let structures = advertised(weight_converted, weight_raw, battery_pct);
    law_advertisement_layout(weight_converted, weight_raw, battery_pct);
    assert forall|i: int| 0 <= i < structures.len() implies (#[trigger] structures[i]).fits() by {}
    law_scanner_finds_structures(structures);
}

/// A scanner takes the scan response apart into the name alone.
pub proof fn law_scan_response_is_well_formed()
    ensures
        ad_structures(encoded_all(scan_response())) == Some(scan_response()),
{
    reveal_strlit("Cat Scale");
    let structures = scan_response();
    assert forall|i: int| 0 <= i < structures.len() implies (#[trigger] structures[i]).fits() by {}
    law_scanner_finds_structures(structures);
}

/// The advertisement and the scan response both fit a legacy broadcast.
pub proof fn law_broadcast_fits(weight_converted: u16, weight_raw: i32, battery_pct: u8)
    ensures
        encoded_all(advertised(weight_converted, weight_raw, battery_pct)).len() <= LEGACY_CAPACITY,
        encoded_all(scan_response()).len() <= LEGACY_CAPACITY,
{
    law_advertisement_layout(weight_converted, weight_raw, battery_pct);
    law_scan_response_layout();
}

/// A receiver reads back the very weight, raw reading and battery level that the
/// scale sent.
pub proof fn law_receiver_reads_back(weight_converted: u16, weight_raw: i32, battery_pct: u8)
    ensures
        received(encoded_all(advertised(weight_converted, weight_raw, battery_pct))) == Some(
            Reading {
                weight_converted: weight_converted as nat,
                weight_raw: weight_raw as int,
                battery_pct: battery_pct as nat,
            },
        ),
{
    let structures = advertised(weight_converted, weight_raw, battery_pct);
    let objects = measurements(weight_converted, weight_raw, battery_pct);
    let payload = structures[1].payload;
    law_advertisement_is_well_formed(weight_converted, weight_raw, battery_pct);
    law_le_width(BTHOME_UUID as nat, 2);
    law_le_width(weight_converted as nat, 2);
    law_le_width(twos_complement(weight_raw), 4);
    law_twos_complement_reads_back(weight_raw);
    assert(pow(256, 2) == 0x1_0000 && pow(256, 4) == 0x1_0000_0000) by {
        reveal_with_fuel(pow, 5);
    }
    law_le_reads_back(BTHOME_UUID as nat, 2);
    law_le_reads_back(weight_converted as nat, 2);
    law_le_reads_back(twos_complement(weight_raw), 4);
    assert(payload.take(2) =~= le_bytes(BTHOME_UUID as nat, 2));
    assert(payload.skip(3) =~= encoded_objects(objects));
    assert forall|i: int| 0 <= i < objects.len() implies (#[trigger] objects[i]).fits() by {}
    law_receiver_finds_objects(objects);
    assert(value_of(objects, OBJECT_MASS) == Some(objects[0].value));
    reveal_with_fuel(value_of, 4);
    assert(value_of(objects, OBJECT_BATTERY) == Some(objects[1].value));
    assert(value_of(objects, OBJECT_RAW) == Some(objects[2].value));
    reveal_with_fuel(le_value, 3);
}

/// Two broadcasts look alike only if they carry the same measurements.
pub proof fn law_broadcasts_tell_readings_apart(
    weight_a: u16,
    raw_a: i32,
    battery_a: u8,
    weight_b: u16,
    raw_b: i32,
    battery_b: u8,
)
    requires
        encoded_all(advertised(weight_a, raw_a, battery_a)) == encoded_all(
            advertised(weight_b, raw_b, battery_b),
        ),
    ensures
        weight_a == weight_b,
        raw_a == raw_b,
        battery_a == battery_b,
{
    law_receiver_reads_back(weight_a, raw_a, battery_a);
    law_receiver_reads_back(weight_b, raw_b, battery_b);
}

/// A scanner finds first of all, in every advertisement, the flags of a device that is generally
/// discoverable and has no classic Bluetooth; and then, and last, service data that is led by the
/// UUID and the version of BTHome.
pub proof fn law_every_advertisement_is_discoverable(
    weight_converted: u16,
    weight_raw: i32,
    battery_pct: u8,
)
    ensures
        ad_structures(advertisement_bytes(weight_converted, weight_raw, battery_pct)) is Some,
        ({
            let found = ad_structures(
                advertisement_bytes(weight_converted, weight_raw, battery_pct),
            )->0;
            &&& found.len() == 2
            &&& found[0].kind == 0x01
            &&& found[0].payload == seq![0x06u8]
            &&& found[1].kind == 0x16
            &&& found[1].payload.len() == 14
            &&& found[1].payload.take(3) == seq![0xD2u8, 0xFC, 0x40]
        }),
{
    law_advertisement_layout(weight_converted, weight_raw, battery_pct);
    law_advertisement_is_well_formed(weight_converted, weight_raw, battery_pct);
    let found = advertised(weight_converted, weight_raw, battery_pct);
    reveal_with_fuel(le_bytes, 3);
    assert(found[1].payload.take(3) =~= seq![0xD2u8, 0xFC, 0x40]);
}

/// Two advertisements agree in every byte but those of the weight, the battery level and the raw
/// reading; and each of those bytes depends on its own value alone.
pub proof fn law_only_the_values_differ(
    weight_a: u16,
    raw_a: i32,
    battery_a: u8,
    weight_b: u16,
    raw_b: i32,
    battery_b: u8,
    i: int,
)
    requires
        0 <= i < 19,
        i == 9 || i == 10 ==> weight_a == weight_b,
        i == 12 ==> battery_a == battery_b,
        15 <= i ==> raw_a == raw_b,
    ensures
        advertisement_bytes(weight_a, raw_a, battery_a).len() == 19,
        advertisement_bytes(weight_a, raw_a, battery_a)[i] == advertisement_bytes(
            weight_b,
            raw_b,
            battery_b,
        )[i],
{
}

/// The bytes that hold the values spell them: the weight in two, the battery level in one, the raw
/// reading in four, each with its lowest byte first, and the raw reading with 2 to the power of 32
/// added to it if it is negative.
pub proof fn law_advertisement_spells_its_values(
    weight_converted: u16,
    weight_raw: i32,
    battery_pct: u8,
)
    ensures
        ({
            let sent = advertisement_bytes(weight_converted, weight_raw, battery_pct);
            &&& sent[9] + 256 * sent[10] == weight_converted
            &&& sent[12] == battery_pct
            &&& sent[15] + 0x100 * sent[16] + 0x1_0000 * sent[17] + 0x100_0000 * sent[18] == (
            if weight_raw >= 0 {
                weight_raw as int
            } else {
                weight_raw + 0x1_0000_0000
            })
        }),
{
}

/// Every advertisement has the same frame: the flags structure, the head of the service data, and
/// the marks of the three objects at their places.
pub proof fn law_advertisement_frame(weight_converted: u16, weight_raw: i32, battery_pct: u8)
    ensures
        ({
            let sent = advertisement_bytes(weight_converted, weight_raw, battery_pct);
            &&& sent.len() == 19
            &&& sent[0] == 2 && sent[1] == 0x01 && sent[2] == 0x06
            &&& sent[3] == sent.len() - 4 && sent[4] == 0x16
            &&& sent[5] + 256 * sent[6] == 0xFCD2 && sent[7] == 0x40
            &&& sent[8] == 0x06 && sent[11] == 0x01 && sent[13] == 0x54
            &&& sent[14] == sent.len() - 15
        }),
{
}

} // verus!
