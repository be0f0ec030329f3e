//! The digest of a (year, user) seed and big-endian reads of its bits.

use sha2::{Digest, Sha256};
use vstd::arithmetic::power2::{
    lemma2_to64, lemma_pow2_pos, lemma_pow2_strictly_increases, lemma_pow2_unfold, pow2,
};
use vstd::prelude::*;
use vstd::string::StringExecFns;

verus! {

/// Number of bytes in a digest.
pub const DIGEST_LEN: usize = 32;

/// Number of bits in a digest.
pub const DIGEST_BITS: usize = 256;

/// The bit at absolute position `i` of `bytes`, most significant bit of each
/// byte first.
pub open spec fn bit_at(bytes: Seq<u8>, i: nat) -> nat {
    ((bytes[(i / 8) as int] >> ((7 - i % 8) as u8)) & 1u8) as nat
}

/// The big-endian value of the `n` bits starting at bit `start`.  Bits that
/// lie past the end of the 256-bit digest contribute nothing: they are
/// skipped, not read as zeros.
pub open spec fn bits_value(bytes: Seq<u8>, start: nat, n: nat) -> nat
    decreases n,
{
    if n == 0 {
        0
    } else {
        let prev = bits_value(bytes, start, (n - 1) as nat);
        let idx = (start + n - 1) as nat;
        if idx / 8 < DIGEST_LEN {
            prev * 2 + bit_at(bytes, idx)
        } else {
            prev
        }
    }
}

/// Every bit read is 0 or 1.
proof fn lemma_bit_at_le_one(bytes: Seq<u8>, i: nat)
    requires
        i / 8 < bytes.len(),
    ensures
        bit_at(bytes, i) <= 1,
{
    let b = bytes[(i / 8) as int];
    let s = (7 - i % 8) as u8;
    assert((b >> s) & 1u8 <= 1u8) by (bit_vector);
}

/// A read of `n` bits stays below `2^n`.
pub proof fn lemma_bits_value_bound(bytes: Seq<u8>, start: nat, n: nat)
    requires
        bytes.len() == DIGEST_LEN,
    ensures
        bits_value(bytes, start, n) < pow2(n),
    decreases n,
{
    lemma_pow2_pos(n);
    if n > 0 {
        lemma_pow2_unfold(n);
        lemma_bits_value_bound(bytes, start, (n - 1) as nat);
        let idx = (start + n - 1) as nat;
        if idx / 8 < DIGEST_LEN {
            lemma_bit_at_le_one(bytes, idx);
        }
    }
}

/// Namespace mixed into every seed, so that the same (year, user) pair used
/// elsewhere gives an unrelated digest.
pub const SALT: &'static str = "sha-omikuji-2026";

/// The decimal digit `d` (below ten) as a character.
pub open spec fn digit_char(d: nat) -> char {
    seq!['0', '1', '2', '3', '4', '5', '6', '7', '8', '9'][d as int]
}

/// The decimal notation of `n`, without leading zeros.
pub open spec fn decimal(n: nat) -> Seq<char>
    decreases n,
{
    if n < 10 {
        seq![digit_char(n)]
    } else {
        decimal(n / 10).push(digit_char(n % 10))
    }
}

/// The seed string `"{year}-{user}-{SALT}"` that a digest is taken of.
pub open spec fn seed_of(year: nat, user: Seq<char>) -> Seq<char> {
    decimal(year) + seq!['-'] + user + seq!['-'] + SALT@
}

/// The SHA-256 digest of the UTF-8 encoding of a string.
pub uninterp spec fn sha256_of(s: Seq<char>) -> Seq<u8>;

/// Relies on sha2's `Sha256::digest` (through the `Digest` trait): the 32-byte
/// SHA-256 digest of the string's UTF-8 bytes, a function of the string alone.
#[verifier::external_body]
fn sha256(s: &str) -> (r: [u8; 32])
    ensures
        r@ == sha256_of(s@),
{
    Sha256::digest(s.as_bytes()).into()
}

/// The lower-case hexadecimal digit for `d` (below sixteen).
pub open spec fn hex_char(d: nat) -> char {
    seq!['0', '1', '2', '3', '4', '5', '6', '7', '8', '9', 'a', 'b', 'c', 'd', 'e', 'f'][d as int]
}

/// Two lower-case hexadecimal digits per byte, high digit first.
pub open spec fn hex_of(bytes: Seq<u8>) -> Seq<char> {
    Seq::new(
        2 * bytes.len(),
        |j: int|
            if j % 2 == 0 {
                hex_char((bytes[j / 2] / 16) as nat)
            } else {
                hex_char((bytes[j / 2] % 16) as nat)
            },
    )
}

/// The decimal digit `d` as a one-character string.
fn digit_str(d: u32) -> (r: &'static str)
    requires
        d < 10,
    ensures
        r@ == seq![digit_char(d as nat)],
{
    proof {
        reveal_strlit("0");
        reveal_strlit("1");
        reveal_strlit("2");
        reveal_strlit("3");
        reveal_strlit("4");
        reveal_strlit("5");
        reveal_strlit("6");
        reveal_strlit("7");
        reveal_strlit("8");
        reveal_strlit("9");
    }
    match d {
        0 => "0",
        1 => "1",
        2 => "2",
        3 => "3",
        4 => "4",
        5 => "5",
        6 => "6",
        7 => "7",
        8 => "8",
        _ => "9",
    }
}

/// The hexadecimal digit `d` as a one-character string.
fn hex_str(d: u8) -> (r: &'static str)
    requires
        d < 16,
    ensures
        r@ == seq![hex_char(d as nat)],
{
    proof {
        reveal_strlit("0");
        reveal_strlit("1");
        reveal_strlit("2");
        reveal_strlit("3");
        reveal_strlit("4");
        reveal_strlit("5");
        reveal_strlit("6");
        reveal_strlit("7");
        reveal_strlit("8");
        reveal_strlit("9");
        reveal_strlit("a");
        reveal_strlit("b");
        reveal_strlit("c");
        reveal_strlit("d");
        reveal_strlit("e");
        reveal_strlit("f");
    }
    match d {
        0 => "0",
        1 => "1",
        2 => "2",
        3 => "3",
        4 => "4",
        5 => "5",
        6 => "6",
        7 => "7",
        8 => "8",
        9 => "9",
        10 => "a",
        11 => "b",
        12 => "c",
        13 => "d",
        14 => "e",
        _ => "f",
    }
}

/// Appends the decimal notation of `n` to `s`.
fn push_decimal(s: &mut String, n: u32)
    ensures
        final(s)@ == old(s)@ + decimal(n as nat),
    decreases n,
{
    if n >= 10 {
        push_decimal(s, n / 10);
    }
    let ghost before = s@;
    s.append(digit_str(n % 10));
    proof {
        if n >= 10 {
            assert(before == old(s)@ + decimal((n / 10) as nat));
        }
        assert(s@ =~= old(s)@ + decimal(n as nat));
    }
}

/// Builds the seed string `"{year}-{user}-{SALT}"`.
pub fn seed_string(year: u32, user: &str) -> (r: String)
    ensures
        r@ == seed_of(year as nat, user@),
{
    let mut seed = String::new();
    push_decimal(&mut seed, year);
    seed.append("-");
    seed.append(user);
    seed.append("-");
    seed.append(SALT);
    proof {
        reveal_strlit("-");
        assert(seed@ =~= seed_of(year as nat, user@));
    }
    seed
}

/// Decimal notation holds digits only, at least one of them.
proof fn lemma_decimal_digits(n: nat)
    ensures
        decimal(n).len() >= 1,
        n >= 10 ==> decimal(n).len() >= 2,
        forall|i: int| 0 <= i < decimal(n).len() ==> #[trigger] decimal(n)[i] != '-',
    decreases n,
{
    if n >= 10 {
        lemma_decimal_digits(n / 10);
    }
}

/// Distinct numbers have distinct decimal notations.
proof fn lemma_decimal_injective(a: nat, b: nat)
    requires
        decimal(a) == decimal(b),
    ensures
        a == b,
    decreases a,
{
    lemma_decimal_digits(a);
    lemma_decimal_digits(b);
    if a >= 10 && b >= 10 {
        let da = decimal(a / 10);
        let db = decimal(b / 10);
        assert(da == decimal(a).drop_last());
        assert(db == decimal(b).drop_last());
        lemma_decimal_injective(a / 10, b / 10);
        assert(decimal(a).last() == digit_char(a % 10));
        assert(decimal(b).last() == digit_char(b % 10));
    } else if a < 10 && b < 10 {
        assert(decimal(a)[0] == digit_char(a));
        assert(decimal(b)[0] == digit_char(b));
    }
}

/// Different (year, user) pairs give different seed strings; equal digests
/// for them would take a SHA-256 collision.
pub proof fn lemma_seed_injective(year1: nat, user1: Seq<char>, year2: nat, user2: Seq<char>)
    requires
        year1 != year2 || user1 != user2,
    ensures
        seed_of(year1, user1) != seed_of(year2, user2),
{
    if seed_of(year1, user1) == seed_of(year2, user2) {
        let s = seed_of(year1, user1);
        let d1 = decimal(year1);
        let d2 = decimal(year2);
        lemma_decimal_digits(year1);
        lemma_decimal_digits(year2);
        assert(s[d1.len() as int] == '-');
        assert(seed_of(year2, user2)[d2.len() as int] == '-');
        if d1.len() < d2.len() {
            assert(s[d1.len() as int] == d2[d1.len() as int]);
        } else if d2.len() < d1.len() {
            assert(s[d2.len() as int] == d1[d2.len() as int]);
        }
        assert(d1.len() == d2.len());
        assert(d1 =~= s.take(d1.len() as int));
        assert(d2 =~= s.take(d2.len() as int));
        lemma_decimal_injective(year1, year2);
        let start = d1.len() + 1;
        assert(s.len() == d1.len() + 1 + user1.len() + 1 + SALT@.len());
        assert(seed_of(year2, user2).len() == d2.len() + 1 + user2.len() + 1 + SALT@.len());
        assert(user1.len() == user2.len());
        assert(user1 =~= s.subrange(start as int, (start + user1.len()) as int));
        assert(user2 =~= s.subrange(start as int, (start + user2.len()) as int));
    }
}

/// A 256-bit digest, read as a buffer of bits.
pub struct HashBits {
    bytes: [u8; 32],
}

impl View for HashBits {
    type V = Seq<u8>;

    closed spec fn view(&self) -> Seq<u8> {
        self.bytes@
    }
}

impl HashBits {
    /// A digest always holds 32 bytes.
    pub proof fn lemma_view_len(&self)
        ensures
            self@.len() == DIGEST_LEN,
    {
    }

    /// Wraps 32 digest bytes.
    pub fn from_bytes(bytes: [u8; 32]) -> (r: HashBits)
        ensures
            r@ == bytes@,
    {
        HashBits { bytes }
    }

    /// The digest of the seed string `"{year}-{user}-{SALT}"`.
    pub fn from_seed(year: u32, user: &str) -> (r: HashBits)
        ensures
            r@ == sha256_of(seed_of(year as nat, user@)),
    {
        let seed = seed_string(year, user);
        HashBits { bytes: sha256(seed.as_str()) }
    }

    /// The digest as 64 lower-case hexadecimal digits.
    pub fn hex_string(&self) -> (r: String)
        ensures
            r@ == hex_of(self@),
    {
        let mut hex = String::new();
        let mut i: usize = 0;
        while i < DIGEST_LEN
            invariant
                i <= DIGEST_LEN,
                self@.len() == DIGEST_LEN,
                hex@ =~= hex_of(self@.take(i as int)),
            decreases DIGEST_LEN - i,
        {
            let b = self.bytes[i];
            hex.append(hex_str(b / 16));
            hex.append(hex_str(b % 16));
            assert(hex@ =~= hex_of(self@.take(i + 1)));
            i = i + 1;
        }
        assert(self@.take(DIGEST_LEN as int) =~= self@);
        hex
    }

    /// The 32 digest bytes.
    pub fn as_bytes(&self) -> (r: &[u8; 32])
        ensures
            r@ == self@,
    {
        &self.bytes
    }

    /// Reads `num_bits` bits starting at bit `start_bit`, most significant bit
    /// first; bits past the end of the digest are skipped.
    pub fn get_bits(&self, start_bit: usize, num_bits: usize) -> (r: u64)
        requires
            num_bits <= 64,
            start_bit + num_bits <= usize::MAX,
        ensures
            r == bits_value(self@, start_bit as nat, num_bits as nat),
    {
        let mut result: u64 = 0;
        let mut i: usize = 0;
        while i < num_bits
            invariant
                i <= num_bits <= 64,
                start_bit + num_bits <= usize::MAX,
                self@.len() == DIGEST_LEN,
                result == bits_value(self@, start_bit as nat, i as nat),
            decreases num_bits - i,
        {
            proof {
                lemma_bits_value_bound(self@, start_bit as nat, i as nat);
                lemma_pow2_unfold((i + 1) as nat);
                if i + 1 < 64 {
                    lemma_pow2_strictly_increases((i + 1) as nat, 64);
                }
                lemma2_to64();
            }
            let bit_index = start_bit + i;
            let byte_index = bit_index / 8;
            let bit_offset = 7 - (bit_index % 8);
            if byte_index < DIGEST_LEN {
                let bit = (self.bytes[byte_index] >> (bit_offset as u8)) & 1;
                proof {
                    lemma_bit_at_le_one(self@, bit_index as nat);
                }
                result = result * 2 + bit as u64;
            }
            i = i + 1;
        }
        result
    }
}

} // verus!
