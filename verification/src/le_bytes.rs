//! Little-endian byte encoding of integers.
use vstd::prelude::*;

verus! {

/// 256 to the power `width`.
pub open spec fn pow256(width: nat) -> int
    decreases width,
{
    if width == 0 {
        1
    } else {
        256 * pow256((width - 1) as nat)
    }
}

/// The unsigned little-endian number in the `width` bytes of `data` from `at`.
pub open spec fn le_unsigned(data: Seq<u8>, at: int, width: nat) -> int
    decreases width,
{
    if width == 0 {
        0
    } else {
        data[at] + 256 * le_unsigned(data, at + 1, (width - 1) as nat)
    }
}

/// The `width` little-endian bytes of `n`.
pub open spec fn le_bytes(n: int, width: nat) -> Seq<u8>
    decreases width,
{
    if width == 0 {
        Seq::empty()
    } else {
        seq![(n % 256) as u8] + le_bytes(n / 256, (width - 1) as nat)
    }
}

/// Bytes placed before a sequence do not change what is read further on.
pub proof fn lemma_le_unsigned_after_prefix(prefix: Seq<u8>, s: Seq<u8>, at: int, width: nat)
    requires
        0 <= at,
        at + width <= s.len(),
    ensures
        le_unsigned(prefix + s, prefix.len() + at, width) == le_unsigned(s, at, width),
    decreases width,
{
    if width > 0 {
        lemma_le_unsigned_after_prefix(prefix, s, at + 1, (width - 1) as nat);
        assert((prefix + s)[prefix.len() + at] == s[at]);
    }
}

/// Bytes placed after a sequence do not change what is read within it.
pub proof fn lemma_le_unsigned_before_suffix(s: Seq<u8>, suffix: Seq<u8>, at: int, width: nat)
    requires
        0 <= at,
        at + width <= s.len(),
    ensures
        le_unsigned(s + suffix, at, width) == le_unsigned(s, at, width),
    decreases width,
{
    if width > 0 {
        lemma_le_unsigned_before_suffix(s, suffix, at + 1, (width - 1) as nat);
        assert((s + suffix)[at] == s[at]);
    }
}

proof fn lemma_div_256_bound(n: int, bound: int)
    requires
        0 <= n < 256 * bound,
    ensures
        0 <= n / 256 < bound,
        n == n % 256 + 256 * (n / 256),
        0 <= n % 256 < 256,
{
    assert(0 <= n / 256 < bound) by (nonlinear_arith)
        requires
            0 <= n < 256 * bound,
    ;
}

/// Reading back the little-endian bytes of a number that fits gives the
/// number.
pub proof fn lemma_le_round_trip(n: int, width: nat)
    requires
        0 <= n < pow256(width),
    ensures
        le_bytes(n, width).len() == width,
        le_unsigned(le_bytes(n, width), 0, width) == n,
    decreases width,
{
    if width > 0 {
        let w1: nat = (width - 1) as nat;
        lemma_div_256_bound(n, pow256(w1));
        lemma_le_round_trip(n / 256, w1);
        let head = seq![(n % 256) as u8];
        let rest = le_bytes(n / 256, w1);
        lemma_le_unsigned_after_prefix(head, rest, 0, w1);
        assert(le_bytes(n, width) == head + rest);
        assert((head + rest)[0] == (n % 256) as u8);
    }
}

/// A number read from `width` bytes is below 256 to the power `width`.
pub proof fn lemma_le_unsigned_bound(data: Seq<u8>, at: int, width: nat)
    ensures
        0 <= le_unsigned(data, at, width) < pow256(width),
    decreases width,
{
    if width > 0 {
        lemma_le_unsigned_bound(data, at + 1, (width - 1) as nat);
    }
}

} // verus!
