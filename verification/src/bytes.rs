//! Fixed-width big-endian and little-endian encodings of natural numbers.

use vstd::prelude::*;

verus! {

/// The `width` low-order base-256 digits of `n`, most significant first.
pub open spec fn be_bytes(n: nat, width: nat) -> Seq<u8>
    decreases width,
{
    if width == 0 {
        Seq::empty()
    } else {
        be_bytes(n / 256, (width - 1) as nat).push((n % 256) as u8)
    }
}

/// The `width` low-order base-256 digits of `n`, least significant first.
pub open spec fn le_bytes(n: nat, width: nat) -> Seq<u8>
    decreases width,
{
    if width == 0 {
        Seq::empty()
    } else {
        seq![(n % 256) as u8] + le_bytes(n / 256, (width - 1) as nat)
    }
}

/// The number that a big-endian byte string denotes.
pub open spec fn be_value(s: Seq<u8>) -> nat
    decreases s.len(),
{
    if s.len() == 0 {
        0
    } else {
        be_value(s.drop_last()) * 256 + s.last() as nat
    }
}

/// 256 to the power `k`.
pub open spec fn pow256(k: nat) -> nat
    decreases k,
{
    if k == 0 {
        1
    } else {
        256 * pow256((k - 1) as nat)
    }
}

/// An encoding has the width asked for.
pub proof fn lemma_be_bytes_len(n: nat, width: nat)
    ensures
        be_bytes(n, width).len() == width,
    decreases width,
{
    if width > 0 {
        lemma_be_bytes_len(n / 256, (width - 1) as nat);
    }
}

/// A big-endian encoding denotes the number it encodes, where the number
/// fits in the width.
pub proof fn law_be_bytes_denote_the_number(n: nat, width: nat)
    requires
        n < pow256(width),
    ensures
        be_value(be_bytes(n, width)) == n,
    decreases width,
{
    if width > 0 {
        let rest = be_bytes(n / 256, (width - 1) as nat);
        lemma_be_bytes_len(n / 256, (width - 1) as nat);
        assert(n / 256 < pow256((width - 1) as nat)) by (nonlinear_arith)
            requires
                n < 256 * pow256((width - 1) as nat),
        ;
        law_be_bytes_denote_the_number(n / 256, (width - 1) as nat);
        let s = be_bytes(n, width);
        assert(s.drop_last() =~= rest);
        assert(s.last() == (n % 256) as u8);
    }
}

/// The encoding of `high * 256^k + low` is the encoding of `high` followed by
/// the `k`-byte encoding of `low`.
pub proof fn lemma_be_bytes_concat(high: nat, low: nat, width: nat, k: nat)
    requires
        low < pow256(k),
    ensures
        be_bytes(high * pow256(k) + low, width + k) =~= be_bytes(high, width) + be_bytes(low, k),
    decreases k,
{
    if k == 0 {
        assert(high * pow256(0) + low == high) by (nonlinear_arith)
            requires
                pow256(0) == 1,
                low == 0,
        ;
        assert(be_bytes(low, 0) =~= Seq::<u8>::empty());
    } else {
        let p: nat = pow256((k - 1) as nat);
        let n: nat = high * pow256(k) + low;
        assert(n == (high * p + low / 256) * 256 + low % 256) by (nonlinear_arith)
            requires
                n == high * (256 * p) + low,
        ;
        vstd::arithmetic::div_mod::lemma_fundamental_div_mod_converse(
            n as int,
            256,
            (high * p + low / 256) as int,
            (low % 256) as int,
        );
        assert(low / 256 < p) by (nonlinear_arith)
            requires
                low < 256 * p,
        ;
        lemma_be_bytes_concat(high, low / 256, width, (k - 1) as nat);
        assert((width + k - 1) as nat == width + (k - 1) as nat);
    }
}

/// The eight bytes of a 64-bit number, most significant first.
pub fn u64_to_be_bytes(x: u64) -> (r: [u8; 8])
    ensures
        r@ == be_bytes(x as nat, 8),
{
    let mut out: [u8; 8] = [0u8; 8];
    let mut rest: u64 = x;
    let mut i: usize = 0;
    proof {
        lemma_be_bytes_len(x as nat, 8);
        assert(be_bytes(x as nat, 8).subrange(0, 8) =~= be_bytes(x as nat, 8));
    }
    while i < 8
        invariant
            i <= 8,
            be_bytes(x as nat, 8).len() == 8,
            forall|j: int| 8 - i <= j < 8 ==> out@[j] == be_bytes(x as nat, 8)[j],
            be_bytes(x as nat, 8).subrange(0, 8 - i) == be_bytes(rest as nat, (8 - i) as nat),
        decreases 8 - i,
    {
        proof {
            lemma_be_bytes_len(x as nat, 8);
            lemma_be_bytes_len(rest as nat, (8 - i) as nat);
            lemma_be_bytes_len(rest as nat / 256, (8 - i - 1) as nat);
        }
        let ghost before = be_bytes(rest as nat, (8 - i) as nat);
        out[7 - i] = (rest % 256) as u8;
        rest = rest / 256;
        proof {
            assert(before.last() == out@[7 - i]);
            assert(before == be_bytes(x as nat, 8).subrange(0, 8 - i));
            assert(be_bytes(x as nat, 8).subrange(0, 8 - i - 1) =~= before.drop_last());
            assert(before.drop_last() =~= be_bytes(rest as nat, (8 - i - 1) as nat));
        }
        i += 1;
    }
    proof {
        lemma_be_bytes_len(x as nat, 8);
        assert(out@ =~= be_bytes(x as nat, 8));
    }
    out
}

} // verus!
