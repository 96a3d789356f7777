//! Advertising data: a string of structures, each led by its length and its type.

use vstd::prelude::*;

verus! {

/// Structure type: advertising flags.
pub const AD_FLAGS: u8 = 0x01;

/// Structure type: complete local name.
pub const AD_COMPLETE_LOCAL_NAME: u8 = 0x09;

/// Structure type: service data led by a 16-bit UUID.
pub const AD_SERVICE_DATA: u8 = 0x16;

/// What a legacy advertisement or scan response can carry.
pub const LEGACY_CAPACITY: usize = 31;

/// One structure of advertising data.
pub struct AdStructure {
    pub kind: u8,
    pub payload: Seq<u8>,
}

impl AdStructure {
    /// The length byte can count the type byte and the payload.
    pub open spec fn fits(self) -> bool {
        self.payload.len() + 1 <= 0xFF
    }

    /// The structure on the air: length, type, payload.
    pub open spec fn encoded(self) -> Seq<u8> {
        seq![(self.payload.len() + 1) as u8, self.kind] + self.payload
    }
}

/// Structures one after the other.
pub open spec fn encoded_all(structures: Seq<AdStructure>) -> Seq<u8>
    decreases structures.len(),
{
    if structures.len() == 0 {
        Seq::empty()
    } else {
        structures[0].encoded() + encoded_all(structures.skip(1))
    }
}

/// What a scanner makes of advertising data: it goes from structure to structure by
/// their length bytes. `None` where a length byte is zero or points past the end.
pub open spec fn ad_structures(data: Seq<u8>) -> Option<Seq<AdStructure>>
    decreases data.len(),
{
    if data.len() == 0 {
        Some(Seq::empty())
    } else if data[0] == 0 || data.len() < 1 + data[0] {
        None
    } else {
        match ad_structures(data.skip(1 + data[0])) {
            None => None,
            Some(rest) => Some(
                seq![AdStructure { kind: data[1], payload: data.subrange(2, 1 + data[0]) }] + rest,
            ),
        }
    }
}

/// A scanner finds exactly the structures that were put into the data.
pub proof fn law_scanner_finds_structures(structures: Seq<AdStructure>)
    requires
        forall|i: int| 0 <= i < structures.len() ==> (#[trigger] structures[i]).fits(),
    ensures
        ad_structures(encoded_all(structures)) == Some(structures),
    decreases structures.len(),
{
    if structures.len() > 0 {
        let first = structures[0];
        let data = encoded_all(structures);
        law_scanner_finds_structures(structures.skip(1));
        assert(data[0] == first.payload.len() + 1);
        assert(data[1] == first.kind);
        assert(data.skip(1 + data[0]) =~= encoded_all(structures.skip(1)));
        assert(data.subrange(2, 1 + data[0]) =~= first.payload);
        assert(seq![first] + structures.skip(1) =~= structures);
    } else {
        assert(structures =~= Seq::empty());
    }
}

/// The first byte of a structure counts the bytes behind it, the second is its type, and the rest
/// is its payload.
pub proof fn law_length_byte_counts_the_rest(structure: AdStructure)
    requires
        structure.payload.len() + 1 <= 0xFF,
    ensures
        structure.encoded().len() == structure.encoded()[0] + 1,
        structure.encoded()[1] == structure.kind,
        structure.encoded().skip(2) == structure.payload,
{
    assert(structure.encoded().skip(2) =~= structure.payload);
}

/// Structures are put one behind the other: nothing comes between them, before or behind.
pub proof fn law_structures_are_joined(earlier: Seq<AdStructure>, last: AdStructure)
    ensures
        encoded_all(Seq::empty()) == Seq::<u8>::empty(),
        encoded_all(earlier.push(last)) == encoded_all(earlier) + last.encoded(),
    decreases earlier.len(),
{
    let all = earlier.push(last);
    if earlier.len() == 0 {
        assert(all.skip(1) =~= Seq::empty());
        assert(encoded_all(all.skip(1)) =~= Seq::empty());
        assert(encoded_all(all) =~= encoded_all(earlier) + last.encoded());
    } else {
        law_structures_are_joined(earlier.skip(1), last);
        assert(all.skip(1) =~= earlier.skip(1).push(last));
        assert(encoded_all(all) =~= encoded_all(earlier) + last.encoded());
    }
}

} // verus!
