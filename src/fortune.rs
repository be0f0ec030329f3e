//! Decoding the whole catalog at once, and what holds of every decoded
//! fortune.

use crate::digest::{bits_value, lemma_bits_value_bound, seed_of, sha256_of, HashBits, DIGEST_LEN};
use vstd::arithmetic::power2::{lemma2_to64, pow2};
use crate::fields::{
    directions, elements, entropy_check_of, logic_gates, luck_score_of, lucky_ascii_of,
    lucky_bits_of, lucky_day_of, lucky_direction_of, lucky_element_of, lucky_emoji_of,
    lucky_hex_of, lucky_hour_of, lucky_latitude_of, lucky_logic_gate_of, lucky_longitude_of,
    lucky_minute_of, lucky_number_of, lucky_percent_of, lucky_power_of_2_of, EMOJI_BASE,
    EMOJI_COUNT,
};
use crate::catalog::catalog_value;
use vstd::prelude::*;

verus! {

/// Every field of the catalog, decoded from one digest.
#[derive(Clone, Copy, Debug, PartialEq, Eq)]
pub struct Fortune {
    pub lucky_number: u8,
    pub lucky_hex: u8,
    pub lucky_bits: u16,
    pub lucky_day: u16,
    pub lucky_hour: u8,
    pub lucky_minute: u8,
    pub lucky_power_of_2: u8,
    pub lucky_ascii: char,
    pub lucky_logic_gate: &'static str,
    pub luck_scores: [u8; 16],
    pub entropy_check: u16,
    pub lucky_emoji: char,
    pub lucky_direction: &'static str,
    pub lucky_element: &'static str,
    pub lucky_percent: u8,
    pub lucky_latitude: i8,
    pub lucky_longitude: i16,
}

/// `f` holds exactly the fields that the catalog reads out of `b`.
pub open spec fn decodes(b: Seq<u8>, f: Fortune) -> bool {
    &&& f.lucky_number == lucky_number_of(b)
    &&& f.lucky_hex == lucky_hex_of(b)
    &&& f.lucky_bits == lucky_bits_of(b)
    &&& f.lucky_day == lucky_day_of(b)
    &&& f.lucky_hour == lucky_hour_of(b)
    &&& f.lucky_minute == lucky_minute_of(b)
    &&& f.lucky_power_of_2 == lucky_power_of_2_of(b)
    &&& f.lucky_ascii as u32 == lucky_ascii_of(b)
    &&& f.lucky_logic_gate == lucky_logic_gate_of(b)
    &&& forall|i: int| 0 <= i < 16 ==> #[trigger] f.luck_scores[i] == luck_score_of(b, i as nat)
    &&& f.entropy_check == entropy_check_of(b)
    &&& f.lucky_emoji as u32 == lucky_emoji_of(b)
    &&& f.lucky_direction == lucky_direction_of(b)
    &&& f.lucky_element == lucky_element_of(b)
    &&& f.lucky_percent == lucky_percent_of(b)
    &&& f.lucky_latitude == lucky_latitude_of(b)
    &&& f.lucky_longitude == lucky_longitude_of(b)
}

impl HashBits {
    /// Reads every field of the catalog.
    pub fn decode_all(&self) -> (r: Fortune)
        ensures
            decodes(self@, r),
    {
        Fortune {
            lucky_number: self.lucky_number(),
            lucky_hex: self.lucky_hex(),
            lucky_bits: self.lucky_bits(),
            lucky_day: self.lucky_day(),
            lucky_hour: self.lucky_hour(),
            lucky_minute: self.lucky_minute(),
            lucky_power_of_2: self.lucky_power_of_2(),
            lucky_ascii: self.lucky_ascii(),
            lucky_logic_gate: self.lucky_logic_gate(),
            luck_scores: self.luck_scores(),
            entropy_check: self.entropy_check(),
            lucky_emoji: self.lucky_emoji(),
            lucky_direction: self.lucky_direction(),
            lucky_element: self.lucky_element(),
            lucky_percent: self.lucky_percent(),
            lucky_latitude: self.lucky_latitude(),
            lucky_longitude: self.lucky_longitude(),
        }
    }
}

/// Hashes the (year, user) seed and decodes the whole catalog from the digest.
pub fn derive_and_decode(year: u32, user: &str) -> (r: (HashBits, Fortune))
    ensures
        r.0@ == sha256_of(seed_of(year as nat, user@)),
        decodes(r.0@, r.1),
{
    let digest = HashBits::from_seed(year, user);
    let fortune = digest.decode_all();
    (digest, fortune)
}

/// One digest decodes to one fortune: reading the catalog again gives the
/// same values.
pub proof fn lemma_decode_unique(b: Seq<u8>, f1: Fortune, f2: Fortune)
    requires
        decodes(b, f1),
        decodes(b, f2),
    ensures
        f1 == f2,
{
    assert(f1.luck_scores@ =~= f2.luck_scores@);
    assert(f1.luck_scores == f2.luck_scores);
    assert(f1.lucky_ascii == f2.lucky_ascii);
    assert(f1.lucky_emoji == f2.lucky_emoji);
}

/// Deriving twice from the same year and user gives the same digest and the
/// same fortune.
pub proof fn lemma_derive_deterministic(
    year: u32,
    user: Seq<char>,
    d1: Seq<u8>,
    f1: Fortune,
    d2: Seq<u8>,
    f2: Fortune,
)
    requires
        d1 == sha256_of(seed_of(year as nat, user)),
        d2 == sha256_of(seed_of(year as nat, user)),
        decodes(d1, f1),
        decodes(d2, f2),
    ensures
        d1 == d2,
        f1 == f2,
{
    lemma_decode_unique(d1, f1, f2);
}

/// Each decoded field is what its catalog entry reads out of the digest; a
/// table field is the entry of its table at that index.
pub proof fn lemma_fortune_follows_catalog(b: Seq<u8>, f: Fortune)
    requires
        decodes(b, f),
    ensures
        f.lucky_number == catalog_value(b, 0),
        f.lucky_hex == catalog_value(b, 1),
        f.lucky_bits == catalog_value(b, 2),
        f.lucky_day == catalog_value(b, 3),
        f.lucky_hour == catalog_value(b, 4),
        f.lucky_minute == catalog_value(b, 5),
        f.lucky_power_of_2 == catalog_value(b, 6),
        f.lucky_ascii as u32 == catalog_value(b, 7),
        f.lucky_logic_gate == logic_gates()[catalog_value(b, 8)],
        f.entropy_check == catalog_value(b, 10),
        f.lucky_emoji as u32 == catalog_value(b, 11),
        f.lucky_direction == directions()[catalog_value(b, 12)],
        f.lucky_element == elements()[catalog_value(b, 13)],
        f.lucky_percent == catalog_value(b, 14),
        f.lucky_latitude == catalog_value(b, 15),
        f.lucky_longitude == catalog_value(b, 16),
{
}

/// Every decoded field lies in its documented domain: the day in 1..=365,
/// the hour in 0..=23, the minute in 0..=59, the power of two among
/// 1, 2, 4, ..., 128, the character printable ASCII, the percentage in
/// 0..=100, the latitude in -90..=90, the longitude in -180..=180, the
/// emoji in its 64-face block, and each table entry one of its table.
pub proof fn lemma_fortune_in_range(b: Seq<u8>, f: Fortune)
    requires
        b.len() == DIGEST_LEN,
        decodes(b, f),
    ensures
        1 <= f.lucky_day <= 365,
        f.lucky_hour <= 23,
        f.lucky_minute <= 59,
        f.lucky_power_of_2 == 1 || f.lucky_power_of_2 == 2 || f.lucky_power_of_2 == 4
            || f.lucky_power_of_2 == 8 || f.lucky_power_of_2 == 16 || f.lucky_power_of_2 == 32
            || f.lucky_power_of_2 == 64 || f.lucky_power_of_2 == 128,
        0x20 <= (f.lucky_ascii as u32) <= 0x7e,
        logic_gates().contains(f.lucky_logic_gate),
        f.entropy_check <= 0xfff,
        EMOJI_BASE <= (f.lucky_emoji as u32) < EMOJI_BASE + EMOJI_COUNT,
        directions().contains(f.lucky_direction),
        elements().contains(f.lucky_element),
        f.lucky_percent <= 100,
        -90 <= f.lucky_latitude <= 90,
        -180 <= f.lucky_longitude <= 180,
{
    lemma2_to64();
    lemma_bits_value_bound(b, 52, 3);
    lemma_bits_value_bound(b, 193, 12);
    let p = bits_value(b, 52, 3);
    assert(p < 8);
    assert(pow2(p) == 1 || pow2(p) == 2 || pow2(p) == 4 || pow2(p) == 8 || pow2(p) == 16
        || pow2(p) == 32 || pow2(p) == 64 || pow2(p) == 128);
    let g = (bits_value(b, 62, 3) % 8) as int;
    assert(logic_gates()[g] == f.lucky_logic_gate);
    let d = (bits_value(b, 211, 3) % 8) as int;
    assert(directions()[d] == f.lucky_direction);
    let e = (bits_value(b, 214, 4) % 16) as int;
    assert(elements()[e] == f.lucky_element);
}

} // verus!
