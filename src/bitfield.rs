//! Reading and writing an N-bit value across an ordered, possibly
//! non-contiguous list of bit positions of a 32-bit word.
use vstd::prelude::*;

verus! {

/// Bit `i` of `w`, for `i < 32`.
pub open spec fn bit(w: u32, i: u32) -> bool {
    (w >> i) & 1 == 1
}

/// A usable position list: non-empty, every position inside the word, no
/// position twice (a distinct list can hold at most 32 positions).
pub open spec fn valid_positions(p: Seq<u32>) -> bool {
    &&& 0 < p.len() <= 32
    &&& forall|k: int| 0 <= k < p.len() ==> #[trigger] p[k] < 32
    &&& forall|k: int, l: int| 0 <= k < l < p.len() ==> p[k] != p[l]
}

/// `p[k]` carries bit `n - 1 - k` of the value, for `n` positions: the first
/// position receives the most significant bit.
pub open spec fn value_bit_index(p: Seq<u32>, k: int) -> u32 {
    (p.len() - 1 - k) as u32
}

/// The word `inst` after writing `value` across positions `p`.
pub open spec fn written(inst: u32, value: u32, p: Seq<u32>, r: u32) -> bool {
    &&& forall|k: int| 0 <= k < p.len() ==> bit(r, #[trigger] p[k]) == bit(value, value_bit_index(p, k))
    &&& forall|j: u32|
        j < 32 && (forall|k: int| 0 <= k < p.len() ==> p[k] != j) ==> #[trigger] bit(r, j) == bit(inst, j)
}

/// The value gathered from positions `p` of `inst`.
pub open spec fn gathered(inst: u32, p: Seq<u32>, r: u32) -> bool {
    forall|j: u32|
        j < 32 ==> #[trigger] bit(r, j) == (j < p.len() && bit(inst, p[p.len() - 1 - j]))
}

/// A position list that cannot be used: empty, holding a position past the
/// word, or holding a position twice.
#[derive(Debug, Clone, Copy, PartialEq, Eq)]
pub enum BitFieldError {
    InvalidBitPosition,
}

/// `w` with the bits of `mask` replaced by those of `pattern`.
pub open spec fn overlay(w: u32, mask: u32, pattern: u32) -> u32 {
    (w & !mask) | pattern
}

/// Word `w` with bit `p` set to `b`.
pub open spec fn with_bit(w: u32, p: u32, b: u32) -> u32 {
    (w & !(1u32 << p)) | ((b & 1) << p)
}

/// Setting bit `p` gives bit `p` the low bit of `b` and leaves every other
/// bit as it was.
proof fn lemma_with_bit(w: u32, p: u32, b: u32, j: u32)
    requires
        p < 32,
        j < 32,
    ensures
        bit(with_bit(w, p, b), j) == if j == p { b & 1 == 1 } else { bit(w, j) },
{
    assert(bit(with_bit(w, p, b), j) == if j == p { b & 1 == 1 } else { bit(w, j) })
        by (bit_vector)
        requires p < 32, j < 32;
}

/// Two words with the same 32 bits are equal.
proof fn lemma_bits_equal(a: u32, b: u32)
    requires
        forall|j: u32| j < 32 ==> #[trigger] bit(a, j) == bit(b, j),
    ensures
        a == b,
{
    assert(a == b) by (bit_vector)
        requires
            bit(a, 0) == bit(b, 0),
            bit(a, 1) == bit(b, 1),
            bit(a, 2) == bit(b, 2),
            bit(a, 3) == bit(b, 3),
            bit(a, 4) == bit(b, 4),
            bit(a, 5) == bit(b, 5),
            bit(a, 6) == bit(b, 6),
            bit(a, 7) == bit(b, 7),
            bit(a, 8) == bit(b, 8),
            bit(a, 9) == bit(b, 9),
            bit(a, 10) == bit(b, 10),
            bit(a, 11) == bit(b, 11),
            bit(a, 12) == bit(b, 12),
            bit(a, 13) == bit(b, 13),
            bit(a, 14) == bit(b, 14),
            bit(a, 15) == bit(b, 15),
            bit(a, 16) == bit(b, 16),
            bit(a, 17) == bit(b, 17),
            bit(a, 18) == bit(b, 18),
            bit(a, 19) == bit(b, 19),
            bit(a, 20) == bit(b, 20),
            bit(a, 21) == bit(b, 21),
            bit(a, 22) == bit(b, 22),
            bit(a, 23) == bit(b, 23),
            bit(a, 24) == bit(b, 24),
            bit(a, 25) == bit(b, 25),
            bit(a, 26) == bit(b, 26),
            bit(a, 27) == bit(b, 27),
            bit(a, 28) == bit(b, 28),
            bit(a, 29) == bit(b, 29),
            bit(a, 30) == bit(b, 30),
            bit(a, 31) == bit(b, 31),
    ;
}

fn check_positions(positions: &[u32]) -> (ok: bool)
    ensures
        ok == valid_positions(positions@),
{
    let n = positions.len();
    if n == 0 || n > 32 {
        return false;
    }
    let mut i: usize = 0;
    while i < n
        invariant
            n == positions@.len(),
            0 < n <= 32,
            i <= n,
            forall|k: int| 0 <= k < i ==> #[trigger] positions@[k] < 32,
            forall|k: int, l: int| 0 <= k < l < n && k < i ==> positions@[k] != positions@[l],
        decreases n - i,
    {
        if positions[i] >= 32 {
            return false;
        }
        let mut l: usize = i + 1;
        while l < n
            invariant
                n == positions@.len(),
                i < l <= n,
                forall|m: int| i < m < l ==> positions@[i as int] != #[trigger] positions@[m],
            decreases n - l,
        {
            if positions[l] == positions[i] {
                return false;
            }
            l = l + 1;
        }
        i = i + 1;
    }
    true
}

/// Writes `value` across `positions` of `inst`: position `positions[k]`
/// receives bit `n - 1 - k` of `value`, where `n` is the number of positions;
/// every other bit of `inst` is kept. Fails on an unusable position list.
pub fn set_bits(inst: u32, value: u32, positions: &[u32]) -> (r: Result<u32, BitFieldError>)
    ensures
        r is Err <==> !valid_positions(positions@),
        r matches Ok(w) ==> written(inst, value, positions@, w),
{
    if !check_positions(positions) {
        return Err(BitFieldError::InvalidBitPosition);
    }
    let ghost p = positions@;
    let n = positions.len();
    let mut w = inst;
    let mut i: usize = 0;
    while i < n
        invariant
            p == positions@,
            n == p.len(),
            valid_positions(p),
            i <= n,
            forall|k: int| 0 <= k < i ==> bit(w, #[trigger] p[k]) == bit(value, value_bit_index(p, k)),
            forall|j: u32|
                j < 32 && (forall|k: int| 0 <= k < i ==> p[k] != j) ==> #[trigger] bit(w, j) == bit(inst, j),
        decreases n - i,
    {
        let pos = positions[i];
        let shift = (n - 1 - i) as u32;
        let b = (value >> shift) & 1;
        let ghost prev = w;
        w = (w & !(1u32 << pos)) | ((b & 1) << pos);
        proof {
            assert(w == with_bit(prev, pos, b));
            assert(shift == value_bit_index(p, i as int));
            assert((b & 1 == 1) == bit(value, shift)) by (bit_vector)
                requires b == (value >> shift) & 1;
            assert forall|k: int| 0 <= k < i + 1 implies bit(w, #[trigger] p[k]) == bit(value, value_bit_index(p, k)) by {
                lemma_with_bit(prev, pos, b, p[k]);
            }
            assert forall|j: u32|
                j < 32 && (forall|k: int| 0 <= k < i + 1 ==> p[k] != j) implies #[trigger] bit(w, j) == bit(inst, j) by {
                lemma_with_bit(prev, pos, b, j);
                assert(p[i as int] != j);
            }
        }
        i = i + 1;
    }
    Ok(w)
}

/// Reads the value held at `positions` of `inst`: bit `positions[k]` of
/// `inst` becomes bit `n - 1 - k` of the result, where `n` is the number of
/// positions, and every higher bit of the result is zero. Fails on an
/// unusable position list.
pub fn read_bits(inst: u32, positions: &[u32]) -> (r: Result<u32, BitFieldError>)
    ensures
        r is Err <==> !valid_positions(positions@),
        r matches Ok(v) ==> gathered(inst, positions@, v),
{
    if !check_positions(positions) {
        return Err(BitFieldError::InvalidBitPosition);
    }
    let ghost p = positions@;
    let n = positions.len();
    let mut v: u32 = 0;
    let mut i: usize = 0;
    assert forall|j: u32| j < 32 implies !#[trigger] bit(0, j) by {
        assert(!bit(0, j)) by (bit_vector);
    }
    while i < n
        invariant
            p == positions@,
            n == p.len(),
            valid_positions(p),
            i <= n,
            forall|j: u32|
                j < 32 ==> #[trigger] bit(v, j) == (n - i <= j < n && bit(inst, p[n - 1 - j])),
        decreases n - i,
    {
        let pos = positions[i];
        let shift = (n - 1 - i) as u32;
        let b = (inst >> pos) & 1;
        let ghost prev = v;
        v = (v & !(1u32 << shift)) | ((b & 1) << shift);
        proof {
            assert(v == with_bit(prev, shift, b));
            assert((b & 1 == 1) == bit(inst, pos)) by (bit_vector)
                requires b == (inst >> pos) & 1;
            assert forall|j: u32| j < 32 implies #[trigger] bit(v, j) == (n - (i + 1) <= j < n && bit(inst, p[n - 1 - j])) by {
                lemma_with_bit(prev, shift, b, j);
            }
        }
        i = i + 1;
    }
    proof {
        assert forall|j: u32| j < 32 implies #[trigger] bit(v, j) == (j < p.len() && bit(inst, p[p.len() - 1 - j])) by {}
    }
    Ok(v)
}

/// `value` has no bit set at index `n` or above.
pub open spec fn fits_in(value: u32, n: int) -> bool {
    forall|j: u32| n <= j < 32 ==> !#[trigger] bit(value, j)
}

/// Writing a value that fits in `n` bits across `n` distinct positions of the
/// zero word, then reading those positions back, gives the value again.
pub proof fn lemma_write_then_read(value: u32, p: Seq<u32>, w: u32, r: u32)
    requires
        valid_positions(p),
        fits_in(value, p.len() as int),
        written(0, value, p, w),
        gathered(w, p, r),
    ensures
        r == value,
{
    assert forall|j: u32| j < 32 implies #[trigger] bit(r, j) == bit(value, j) by {
        if j < p.len() {
            let k = p.len() - 1 - j;
            assert(bit(w, p[k]) == bit(value, value_bit_index(p, k)));
        }
    }
    lemma_bits_equal(r, value);
}

} // verus!
