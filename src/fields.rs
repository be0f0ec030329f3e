//! The catalog of fortune fields, each a fixed bit range of the digest with
//! its own mapping onto a domain.

use crate::digest::{bits_value, lemma_bits_value_bound, HashBits, DIGEST_LEN};
use vstd::arithmetic::power2::{lemma2_to64, pow2};
use vstd::prelude::*;

verus! {

/// First code point of the emoticon block that fortunes draw from.
pub const EMOJI_BASE: u32 = 0x1F600;

/// Number of faces in the emoticon block.
pub const EMOJI_COUNT: u32 = 64;

/// Documented by std: `char::from_u32` yields the character with that code
/// point exactly when the number is a Unicode scalar value.
pub assume_specification[ char::from_u32 ](i: u32) -> (r: Option<char>)
    ensures
        r is Some <==> (i <= 0xD7FF || (0xE000 <= i && i <= 0x10FFFF)),
        r matches Some(c) ==> c as u32 == i,
;

/// The eight logic gates, in catalog order.
pub open spec fn logic_gates() -> Seq<&'static str> {
    seq!["AND", "OR", "XOR", "NOT", "NAND", "NOR", "XNOR", "BUFFER"]
}

/// The eight compass arrows, clockwise from north.
pub open spec fn directions() -> Seq<&'static str> {
    seq![
        "\u{2191}",
        "\u{2197}",
        "\u{2192}",
        "\u{2198}",
        "\u{2193}",
        "\u{2199}",
        "\u{2190}",
        "\u{2196}",
    ]
}

/// The sixteen chemical elements, each with its atomic number.
pub open spec fn elements() -> Seq<&'static str> {
    seq![
        "H (1)",
        "He (2)",
        "C (6)",
        "N (7)",
        "O (8)",
        "Na (11)",
        "Mg (12)",
        "Al (13)",
        "Si (14)",
        "Fe (26)",
        "Cu (29)",
        "Ag (47)",
        "Au (79)",
        "Pt (78)",
        "Pb (82)",
        "U (92)",
    ]
}

/// The `lucky_number` field of the digest `b`.
pub open spec fn lucky_number_of(b: Seq<u8>) -> nat {
    bits_value(b, 0, 8)
}

/// The `lucky_hex` field of the digest `b`.
pub open spec fn lucky_hex_of(b: Seq<u8>) -> nat {
    bits_value(b, 8, 8)
}

/// The `lucky_bits` field of the digest `b`.
pub open spec fn lucky_bits_of(b: Seq<u8>) -> nat {
    bits_value(b, 16, 16)
}

/// The `lucky_day` field of the digest `b`.
pub open spec fn lucky_day_of(b: Seq<u8>) -> nat {
    bits_value(b, 32, 9) % 365 + 1
}

/// The `lucky_hour` field of the digest `b`.
pub open spec fn lucky_hour_of(b: Seq<u8>) -> nat {
    bits_value(b, 41, 5) % 24
}

/// The `lucky_minute` field of the digest `b`.
pub open spec fn lucky_minute_of(b: Seq<u8>) -> nat {
    bits_value(b, 46, 6) % 60
}

/// The `lucky_power_of_2` field of the digest `b`.
pub open spec fn lucky_power_of_2_of(b: Seq<u8>) -> nat {
    pow2(bits_value(b, 52, 3))
}

/// The `lucky_ascii` field of the digest `b`.
pub open spec fn lucky_ascii_of(b: Seq<u8>) -> nat {
    32 + bits_value(b, 55, 7) % 95
}

/// The `lucky_logic_gate` field of the digest `b`.
pub open spec fn lucky_logic_gate_of(b: Seq<u8>) -> &'static str {
    logic_gates()[(bits_value(b, 62, 3) % 8) as int]
}

/// The `i`-th of the sixteen luck scores.
pub open spec fn luck_score_of(b: Seq<u8>, i: nat) -> nat {
    bits_value(b, 65 + 8 * i, 8)
}

/// The `entropy_check` field of the digest `b`.
pub open spec fn entropy_check_of(b: Seq<u8>) -> nat {
    bits_value(b, 193, 12)
}

/// The `lucky_emoji` field of the digest `b`.
pub open spec fn lucky_emoji_of(b: Seq<u8>) -> nat {
    (EMOJI_BASE + bits_value(b, 205, 6) % (EMOJI_COUNT as nat)) as nat
}

/// The `lucky_direction` field of the digest `b`.
pub open spec fn lucky_direction_of(b: Seq<u8>) -> &'static str {
    directions()[(bits_value(b, 211, 3) % 8) as int]
}

/// The `lucky_element` field of the digest `b`.
pub open spec fn lucky_element_of(b: Seq<u8>) -> &'static str {
    elements()[(bits_value(b, 214, 4) % 16) as int]
}

/// The `lucky_percent` field of the digest `b`.
pub open spec fn lucky_percent_of(b: Seq<u8>) -> nat {
    bits_value(b, 218, 7) % 101
}

/// The `lucky_latitude` field of the digest `b`.
pub open spec fn lucky_latitude_of(b: Seq<u8>) -> int {
    (bits_value(b, 225, 8) % 181) as int - 90
}

/// The `lucky_longitude` field of the digest `b`.
pub open spec fn lucky_longitude_of(b: Seq<u8>) -> int {
    (bits_value(b, 233, 9) % 361) as int - 180
}

impl HashBits {
    /// Reads a field of at most 16 bits, with its bound.
    fn field(&self, start_bit: usize, num_bits: usize) -> (r: u64)
        requires
            num_bits <= 16,
            start_bit + num_bits <= DIGEST_LEN * 8,
        ensures
            r == bits_value(self@, start_bit as nat, num_bits as nat),
            r < pow2(num_bits as nat),
    {
        proof {
            self.lemma_view_len();
            lemma_bits_value_bound(self@, start_bit as nat, num_bits as nat);
        }
        self.get_bits(start_bit, num_bits)
    }

    /// Bits 0..8, as they are.
    pub fn lucky_number(&self) -> (r: u8)
        ensures
            r == lucky_number_of(self@),
    {
        proof { lemma2_to64(); }
        self.field(0, 8) as u8
    }

    /// Bits 8..16, as they are.
    pub fn lucky_hex(&self) -> (r: u8)
        ensures
            r == lucky_hex_of(self@),
    {
        proof { lemma2_to64(); }
        self.field(8, 8) as u8
    }

    /// Bits 16..32, as they are.
    pub fn lucky_bits(&self) -> (r: u16)
        ensures
            r == lucky_bits_of(self@),
    {
        proof { lemma2_to64(); }
        self.field(16, 16) as u16
    }

    /// Bits 32..41 taken modulo 365, plus one: a day of the year.
    pub fn lucky_day(&self) -> (r: u16)
        ensures
            r == lucky_day_of(self@),
    {
        proof { lemma2_to64(); }
        let value = self.field(32, 9) as u16;
        (value % 365) + 1
    }

    /// Bits 41..46 taken modulo 24: an hour.
    pub fn lucky_hour(&self) -> (r: u8)
        ensures
            r == lucky_hour_of(self@),
    {
        proof { lemma2_to64(); }
        let value = self.field(41, 5) as u8;
        value % 24
    }

    /// Bits 46..52 taken modulo 60: a minute.
    pub fn lucky_minute(&self) -> (r: u8)
        ensures
            r == lucky_minute_of(self@),
    {
        proof { lemma2_to64(); }
        let value = self.field(46, 6) as u8;
        value % 60
    }

    /// Two raised to bits 52..55.
    pub fn lucky_power_of_2(&self) -> (r: u8)
        ensures
            r == lucky_power_of_2_of(self@),
    {
        proof { lemma2_to64(); }
        let n = self.field(52, 3) as u8;
        assert(1u8 << n == pow2(n as nat)) by {
            assert(n < 8);
            vstd::bits::lemma_u8_shl_is_mul(1u8, n);
            vstd::arithmetic::power2::lemma_pow2(n as nat);
        }
        1u8 << n
    }
    /// Bits 55..62 taken modulo 95, above the space character: a printable
    /// ASCII character.
    pub fn lucky_ascii(&self) -> (r: char)
        ensures
            r as u32 == lucky_ascii_of(self@),
    {
        proof { lemma2_to64(); }
        let value = self.field(55, 7) as u8;
        let ascii_code = 32 + (value % 95);
        ascii_code as char
    }

    /// Bits 62..65 pick one of the eight logic gates.
    pub fn lucky_logic_gate(&self) -> (r: &'static str)
        ensures
            r == lucky_logic_gate_of(self@),
    {
        proof { lemma2_to64(); }
        let value = self.field(62, 3) as usize;
        match value % 8 {
            0 => "AND",
            1 => "OR",
            2 => "XOR",
            3 => "NOT",
            4 => "NAND",
            5 => "NOR",
            6 => "XNOR",
            _ => "BUFFER",
        }
    }

    /// Sixteen bytes read one after another from bit 65 on.
    pub fn luck_scores(&self) -> (r: [u8; 16])
        ensures
            forall|i: int| 0 <= i < 16 ==> #[trigger] r[i] == luck_score_of(self@, i as nat),
    {
        let mut scores: [u8; 16] = [0u8; 16];
        let mut i: usize = 0;
        while i < 16
            invariant
                i <= 16,
                forall|j: int| 0 <= j < i ==> #[trigger] scores[j] == luck_score_of(self@, j as nat),
            decreases 16 - i,
        {
            proof { lemma2_to64(); }
            scores[i] = self.field(65 + i * 8, 8) as u8;
            i = i + 1;
        }
        scores
    }

    /// Bits 193..205, as they are.
    pub fn entropy_check(&self) -> (r: u16)
        ensures
            r == entropy_check_of(self@),
    {
        proof { lemma2_to64(); }
        self.field(193, 12) as u16
    }

    /// Bits 205..211 pick one face of the emoticon block.
    pub fn lucky_emoji(&self) -> (r: char)
        ensures
            r as u32 == lucky_emoji_of(self@),
    {
        proof { lemma2_to64(); }
        let value = self.field(205, 6) as u32;
        match char::from_u32(EMOJI_BASE + (value % EMOJI_COUNT)) {
            Some(c) => c,
            None => '\u{1F600}',
        }
    }

    /// Bits 211..214 pick one of the eight compass arrows.
    pub fn lucky_direction(&self) -> (r: &'static str)
        ensures
            r == lucky_direction_of(self@),
    {
        proof { lemma2_to64(); }
        let value = self.field(211, 3) as usize;
        match value % 8 {
            0 => "\u{2191}",
            1 => "\u{2197}",
            2 => "\u{2192}",
            3 => "\u{2198}",
            4 => "\u{2193}",
            5 => "\u{2199}",
            6 => "\u{2190}",
            _ => "\u{2196}",
        }
    }

    /// Bits 214..218 pick one of the sixteen chemical elements.
    pub fn lucky_element(&self) -> (r: &'static str)
        ensures
            r == lucky_element_of(self@),
    {
        proof { lemma2_to64(); }
        let value = self.field(214, 4) as usize;
        match value % 16 {
            0 => "H (1)",
            1 => "He (2)",
            2 => "C (6)",
            3 => "N (7)",
            4 => "O (8)",
            5 => "Na (11)",
            6 => "Mg (12)",
            7 => "Al (13)",
            8 => "Si (14)",
            9 => "Fe (26)",
            10 => "Cu (29)",
            11 => "Ag (47)",
            12 => "Au (79)",
            13 => "Pt (78)",
            14 => "Pb (82)",
            _ => "U (92)",
        }
    }

    /// Bits 218..225 taken modulo 101: a percentage.
    pub fn lucky_percent(&self) -> (r: u8)
        ensures
            r == lucky_percent_of(self@),
    {
        proof { lemma2_to64(); }
        let value = self.field(218, 7) as u8;
        value % 101
    }

    /// Bits 225..233 taken modulo 181, less 90: a latitude in degrees.
    pub fn lucky_latitude(&self) -> (r: i8)
        ensures
            r == lucky_latitude_of(self@),
    {
        proof { lemma2_to64(); }
        let value = self.field(225, 8) as u8;
        ((value % 181) as i16 - 90) as i8
    }

    /// Bits 233..242 taken modulo 361, less 180: a longitude in degrees.
    pub fn lucky_longitude(&self) -> (r: i16)
        ensures
            r == lucky_longitude_of(self@),
    {
        proof { lemma2_to64(); }
        let value = self.field(233, 9) as u16;
        (value % 361) as i16 - 180
    }
}

} // verus!
