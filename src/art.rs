//! The 16-cell fingerprint: a walk of 128 two-bit moves around a circular
//! track, drawn by visit counts with start and end markers.

use vstd::prelude::*;
use vstd::string::StringExecFns;

verus! {

/// Number of cells on the circular track of the fingerprint.
pub const ART_WIDTH: usize = 16;

/// Number of two-bit moves read from a 32-byte digest.
pub const ART_STEPS: usize = 128;

/// Highest value a cell's visit counter reaches.
pub const VISIT_CAP: u8 = 255;

/// The `k`-th two-bit move of the walk (0, 1, 2 or 3 cells), most significant
/// pair of each byte first.
pub open spec fn step_code(bytes: Seq<u8>, k: nat) -> nat {
    ((bytes[(k / 4) as int] >> ((6 - 2 * (k % 4)) as u8)) & 3u8) as nat
}

/// The cell the walk stands on after its first `k` moves; it starts on cell 0.
pub open spec fn walk_pos(bytes: Seq<u8>, k: nat) -> nat
    decreases k,
{
    if k == 0 {
        0
    } else {
        (walk_pos(bytes, (k - 1) as nat) + step_code(bytes, (k - 1) as nat)) % (ART_WIDTH as nat)
    }
}

/// How often `cell` was reached by the first `k` moves, saturating at 255.
/// The starting cell is not counted as a visit by itself.
pub open spec fn visit_count(bytes: Seq<u8>, k: nat, cell: nat) -> nat
    decreases k,
{
    if k == 0 {
        0
    } else {
        let c = visit_count(bytes, (k - 1) as nat, cell);
        if walk_pos(bytes, k) == cell {
            if c < VISIT_CAP {
                c + 1
            } else {
                VISIT_CAP as nat
            }
        } else {
            c
        }
    }
}

/// The cell the walk ends on after all of its moves.
pub open spec fn walk_end(bytes: Seq<u8>) -> nat {
    walk_pos(bytes, ART_STEPS as nat)
}

/// The symbol drawn for cell `i`: the start and end markers win over the
/// visit count.
pub open spec fn cell_symbol(bytes: Seq<u8>, i: nat) -> char {
    let end = walk_end(bytes);
    if i == 0 && i == end {
        'X'
    } else if i == 0 {
        'S'
    } else if i == end {
        'E'
    } else if visit_count(bytes, ART_STEPS as nat, i) == 0 {
        '.'
    } else if visit_count(bytes, ART_STEPS as nat, i) == 1 {
        '+'
    } else {
        '#'
    }
}

/// The fingerprint of a digest: one symbol per cell, in cell order.
pub open spec fn art_of(bytes: Seq<u8>) -> Seq<char> {
    Seq::new(ART_WIDTH as nat, |i: int| cell_symbol(bytes, i as nat))
}

/// Renders the 16-cell random-walk fingerprint of a 32-byte digest.
pub fn generate_omikuji_art(hash_bytes: &[u8; 32]) -> (r: String)
    ensures
        r@ == art_of(hash_bytes@),
{
    let ghost b = hash_bytes@;
    let mut grid: [u8; 16] = [0u8; 16];
    let mut position: usize = 0;
    let start_pos: usize = 0;
    let mut k: usize = 0;
    while k < ART_STEPS
        invariant
            k <= ART_STEPS,
            b == hash_bytes@,
            position < ART_WIDTH,
            position == walk_pos(b, k as nat),
            forall|c: int| 0 <= c < 16 ==> #[trigger] grid[c] == visit_count(b, k as nat, c as nat),
        decreases ART_STEPS - k,
    {
        let byte = hash_bytes[k / 4];
        let shift = (6 - 2 * (k % 4)) as u8;
        let movement = (byte >> shift) & 3;
        assert(movement <= 3) by (bit_vector)
            requires movement == (byte >> shift) & 3u8;
        position = (position + movement as usize) % ART_WIDTH;
        grid[position] = grid[position].saturating_add(1);
        k = k + 1;
    }
    let end_pos = position;
    let mut art = String::new();
    let mut i: usize = 0;
    while i < ART_WIDTH
        invariant
            i <= ART_WIDTH,
            b == hash_bytes@,
            end_pos == walk_end(b),
            start_pos == 0,
            forall|c: int| 0 <= c < 16 ==> #[trigger] grid[c] == visit_count(b, ART_STEPS as nat, c as nat),
            art@ == art_of(b).take(i as int),
        decreases ART_WIDTH - i,
    {
        let count = grid[i];
        let symbol = if i == start_pos && i == end_pos {
            "X"
        } else if i == start_pos {
            "S"
        } else if i == end_pos {
            "E"
        } else if count == 0 {
            "."
        } else if count == 1 {
            "+"
        } else {
            "#"
        };
        proof {
            reveal_strlit("X");
            reveal_strlit("S");
            reveal_strlit("E");
            reveal_strlit(".");
            reveal_strlit("+");
            reveal_strlit("#");
            assert(symbol@ == seq![cell_symbol(b, i as nat)]);
            assert(art_of(b).take(i + 1) == art_of(b).take(i as int) + symbol@);
        }
        art.append(symbol);
        i = i + 1;
    }
    assert(art_of(b).take(16) == art_of(b));
    art
}

/// Rendering is a function of the digest alone: two renderings of one digest
/// are the same string.
pub proof fn lemma_art_repeatable(bytes: Seq<u8>, r1: Seq<char>, r2: Seq<char>)
    requires
        r1 == art_of(bytes),
        r2 == art_of(bytes),
    ensures
        r1 == r2,
{
}

/// The walk never leaves the track.
proof fn lemma_walk_pos_bound(bytes: Seq<u8>, k: nat)
    ensures
        walk_pos(bytes, k) < ART_WIDTH,
{
}

/// In `art`, the start marker stands on cell 0 and the end marker on cell
/// `e`: a lone `X` on cell 0 when they coincide, else an `S` on cell 0 and an
/// `E` on cell `e`, and no other cell holds any of the three.
pub open spec fn markers_placed(art: Seq<char>, e: int) -> bool {
    forall|i: int|
        0 <= i < art.len() ==> {
            let c = #[trigger] art[i];
            &&& (c == 'X') == (i == 0 && e == 0)
            &&& (c == 'S') == (i == 0 && e != 0)
            &&& (c == 'E') == (i == e && e != 0)
        }
}

/// A fingerprint is 16 symbols out of `S E X . + #`; cell 0 always holds the
/// start marker (`S`, or `X` when the walk ends there too); and there is
/// either exactly one `X` and no `S` or `E`, or exactly one `S` and exactly one
/// `E` and no `X`.
pub proof fn lemma_art_shape(bytes: Seq<u8>)
    ensures
        art_of(bytes).len() == ART_WIDTH,
        forall|i: int|
            0 <= i < ART_WIDTH ==> {
                let c = #[trigger] art_of(bytes)[i];
                c == 'S' || c == 'E' || c == 'X' || c == '.' || c == '+' || c == '#'
            },
        art_of(bytes)[0] == 'S' || art_of(bytes)[0] == 'X',
        exists|e: int| 0 <= e < ART_WIDTH && #[trigger] markers_placed(art_of(bytes), e),
{
    let e = walk_end(bytes) as int;
    lemma_walk_pos_bound(bytes, ART_STEPS as nat);
    assert(0 <= e < ART_WIDTH);
    assert(markers_placed(art_of(bytes), e));
}

} // verus!
