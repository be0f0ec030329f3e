//! The field catalog as data: where each field lies in the digest and how its
//! raw bits are mapped onto its domain.

use crate::digest::{bits_value, DIGEST_BITS};
use vstd::arithmetic::power2::pow2;
use vstd::prelude::*;

verus! {

/// How a field's raw bits become its value.
#[derive(Clone, Copy, Debug, PartialEq, Eq)]
pub enum Mapping {
    /// The raw unsigned value as it is.
    Identity,
    /// `raw % modulus + offset`; biased towards small values where the raw
    /// range is not a multiple of the modulus.
    Modulo { modulus: u32, offset: i32 },
    /// `1 << raw`.
    PowerOfTwo,
    /// `raw % len` indexes a fixed table of `len` entries.
    Table { len: u32 },
}

/// One field of the catalog: `bit_width` bits from `bit_offset` on.
#[derive(Clone, Copy, Debug, PartialEq, Eq)]
pub struct FieldSpec {
    pub name: &'static str,
    pub bit_offset: usize,
    pub bit_width: usize,
    pub mapping: Mapping,
}

/// Shorthand for a catalog entry.
pub open spec fn entry(name: &'static str, bit_offset: usize, bit_width: usize, mapping: Mapping) -> FieldSpec {
    FieldSpec { name, bit_offset, bit_width, mapping }
}

/// The catalog, in bit order. The sixteen luck scores share one entry of
/// 128 bits, read as consecutive bytes.
pub open spec fn catalog() -> Seq<FieldSpec> {
    seq![
        entry("lucky_number", 0, 8, Mapping::Identity),
        entry("lucky_hex", 8, 8, Mapping::Identity),
        entry("lucky_bits", 16, 16, Mapping::Identity),
        entry("lucky_day", 32, 9, Mapping::Modulo { modulus: 365, offset: 1 }),
        entry("lucky_hour", 41, 5, Mapping::Modulo { modulus: 24, offset: 0 }),
        entry("lucky_minute", 46, 6, Mapping::Modulo { modulus: 60, offset: 0 }),
        entry("lucky_power_of_2", 52, 3, Mapping::PowerOfTwo),
        entry("lucky_ascii", 55, 7, Mapping::Modulo { modulus: 95, offset: 32 }),
        entry("lucky_logic_gate", 62, 3, Mapping::Table { len: 8 }),
        entry("luck_scores", 65, 128, Mapping::Identity),
        entry("entropy_check", 193, 12, Mapping::Identity),
        entry("lucky_emoji", 205, 6, Mapping::Modulo { modulus: 64, offset: 0x1F600 }),
        entry("lucky_direction", 211, 3, Mapping::Table { len: 8 }),
        entry("lucky_element", 214, 4, Mapping::Table { len: 16 }),
        entry("lucky_percent", 218, 7, Mapping::Modulo { modulus: 101, offset: 0 }),
        entry("lucky_latitude", 225, 8, Mapping::Modulo { modulus: 181, offset: -90i32 }),
        entry("lucky_longitude", 233, 9, Mapping::Modulo { modulus: 361, offset: -180i32 }),
    ]
}

/// The value that `mapping` gives to the raw bits `raw`; for a table, the
/// index of the entry.
pub open spec fn mapped_value(mapping: Mapping, raw: nat) -> int {
    match mapping {
        Mapping::Identity => raw as int,
        Mapping::Modulo { modulus, offset } => (raw % (modulus as nat)) as int + offset,
        Mapping::PowerOfTwo => pow2(raw) as int,
        Mapping::Table { len } => (raw % (len as nat)) as int,
    }
}

/// The value that entry `k` of the catalog reads out of the digest `b`.
pub open spec fn catalog_value(b: Seq<u8>, k: int) -> int {
    let f = catalog()[k];
    mapped_value(f.mapping, bits_value(b, f.bit_offset as nat, f.bit_width as nat))
}

/// The catalog as a vector, entry by entry.
pub fn field_catalog() -> (r: Vec<FieldSpec>)
    ensures
        r@ == catalog(),
{
    let r = vec![
        FieldSpec { name: "lucky_number", bit_offset: 0, bit_width: 8, mapping: Mapping::Identity },
        FieldSpec { name: "lucky_hex", bit_offset: 8, bit_width: 8, mapping: Mapping::Identity },
        FieldSpec { name: "lucky_bits", bit_offset: 16, bit_width: 16, mapping: Mapping::Identity },
        FieldSpec {
            name: "lucky_day",
            bit_offset: 32,
            bit_width: 9,
            mapping: Mapping::Modulo { modulus: 365, offset: 1 },
        },
        FieldSpec {
            name: "lucky_hour",
            bit_offset: 41,
            bit_width: 5,
            mapping: Mapping::Modulo { modulus: 24, offset: 0 },
        },
        FieldSpec {
            name: "lucky_minute",
            bit_offset: 46,
            bit_width: 6,
            mapping: Mapping::Modulo { modulus: 60, offset: 0 },
        },
        FieldSpec {
            name: "lucky_power_of_2",
            bit_offset: 52,
            bit_width: 3,
            mapping: Mapping::PowerOfTwo,
        },
        FieldSpec {
            name: "lucky_ascii",
            bit_offset: 55,
            bit_width: 7,
            mapping: Mapping::Modulo { modulus: 95, offset: 32 },
        },
        FieldSpec {
            name: "lucky_logic_gate",
            bit_offset: 62,
            bit_width: 3,
            mapping: Mapping::Table { len: 8 },
        },
        FieldSpec { name: "luck_scores", bit_offset: 65, bit_width: 128, mapping: Mapping::Identity },
        FieldSpec {
            name: "entropy_check",
            bit_offset: 193,
            bit_width: 12,
            mapping: Mapping::Identity,
        },
        FieldSpec {
            name: "lucky_emoji",
            bit_offset: 205,
            bit_width: 6,
            mapping: Mapping::Modulo { modulus: 64, offset: 0x1F600 },
        },
        FieldSpec {
            name: "lucky_direction",
            bit_offset: 211,
            bit_width: 3,
            mapping: Mapping::Table { len: 8 },
        },
        FieldSpec {
            name: "lucky_element",
            bit_offset: 214,
            bit_width: 4,
            mapping: Mapping::Table { len: 16 },
        },
        FieldSpec {
            name: "lucky_percent",
            bit_offset: 218,
            bit_width: 7,
            mapping: Mapping::Modulo { modulus: 101, offset: 0 },
        },
        FieldSpec {
            name: "lucky_latitude",
            bit_offset: 225,
            bit_width: 8,
            mapping: Mapping::Modulo { modulus: 181, offset: -90 },
        },
        FieldSpec {
            name: "lucky_longitude",
            bit_offset: 233,
            bit_width: 9,
            mapping: Mapping::Modulo { modulus: 361, offset: -180 },
        },
    ];
    assert(r@ =~= catalog());
    r
}

/// Every field of the catalog lies inside the 256-bit digest, and the fields
/// follow one another without overlapping.
pub proof fn lemma_catalog_well_placed()
    ensures
        forall|i: int|
            0 <= i < catalog().len() ==> #[trigger] catalog()[i].bit_offset
                + catalog()[i].bit_width <= DIGEST_BITS,
        forall|i: int, j: int|
            #![trigger catalog()[i], catalog()[j]]
            0 <= i < j < catalog().len() ==> catalog()[i].bit_offset + catalog()[i].bit_width
                <= catalog()[j].bit_offset,
{
    let c = catalog();
    assert(c.len() == 17);
    assert(c[0].bit_offset + c[0].bit_width <= DIGEST_BITS);
    assert(c[0].bit_offset + c[0].bit_width <= c[1].bit_offset);
    assert(c[1].bit_offset + c[1].bit_width <= c[2].bit_offset);
    assert(c[2].bit_offset + c[2].bit_width <= c[3].bit_offset);
    assert(c[3].bit_offset + c[3].bit_width <= c[4].bit_offset);
    assert(c[4].bit_offset + c[4].bit_width <= c[5].bit_offset);
    assert(c[5].bit_offset + c[5].bit_width <= c[6].bit_offset);
    assert(c[6].bit_offset + c[6].bit_width <= c[7].bit_offset);
    assert(c[7].bit_offset + c[7].bit_width <= c[8].bit_offset);
    assert(c[8].bit_offset + c[8].bit_width <= c[9].bit_offset);
    assert(c[9].bit_offset + c[9].bit_width <= c[10].bit_offset);
    assert(c[10].bit_offset + c[10].bit_width <= c[11].bit_offset);
    assert(c[11].bit_offset + c[11].bit_width <= c[12].bit_offset);
    assert(c[12].bit_offset + c[12].bit_width <= c[13].bit_offset);
    assert(c[13].bit_offset + c[13].bit_width <= c[14].bit_offset);
    assert(c[14].bit_offset + c[14].bit_width <= c[15].bit_offset);
    assert(c[15].bit_offset + c[15].bit_width <= c[16].bit_offset);
    assert(c[16].bit_offset + c[16].bit_width <= DIGEST_BITS);
    assert forall|k: int| 0 <= k && k + 1 < c.len() implies c[k].bit_offset + c[k].bit_width
        <= #[trigger] c[k + 1].bit_offset && c[k + 1].bit_offset + c[k + 1].bit_width
        <= DIGEST_BITS by {
        assert(k == 0 || k == 1 || k == 2 || k == 3 || k == 4 || k == 5 || k == 6 || k == 7 || k == 8 || k == 9 || k == 10 || k == 11 || k == 12 || k == 13 || k == 14 || k == 15);
    }
    assert forall|i: int, j: int|
        #![trigger c[i], c[j]]
        0 <= i < j < c.len() implies c[i].bit_offset + c[i].bit_width <= c[j].bit_offset by {
        lemma_ends_before(i, j);
    }
}

/// Inductive step of the placement law: an entry ends before any later one
/// starts.
proof fn lemma_ends_before(i: int, j: int)
    requires
        0 <= i < j < catalog().len(),
        forall|k: int| 0 <= k && k + 1 < catalog().len() ==> catalog()[k].bit_offset
            + catalog()[k].bit_width <= #[trigger] catalog()[k + 1].bit_offset,
    ensures
        catalog()[i].bit_offset + catalog()[i].bit_width <= catalog()[j].bit_offset,
    decreases j - i,
{
    if j > i + 1 {
        lemma_ends_before(i, j - 1);
        assert(catalog()[j - 1].bit_offset + catalog()[j - 1].bit_width <= catalog()[j].bit_offset);
    }
}

} // verus!
