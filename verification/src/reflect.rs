//! Reflection of a coordinate across the X axis: P − y, byte by byte.

use crate::bytes::{
    be_value, lemma_be_value_bound, lemma_be_value_head, lemma_radix_pow_32, radix_pow,
};
use crate::curve::{lemma_constant_values, Curve};
use crate::field::reflected;
use vstd::prelude::*;

verus! {

/// The value of the bytes of `s` from index `from` on.
pub open spec fn suffix_value(s: Seq<u8>, from: int) -> nat {
    be_value(s.subrange(from, s.len() as int))
}

/// One step of the subtraction: the suffix that starts one byte earlier.
proof fn lemma_borrow_step(
    p: Seq<u8>,
    y: Seq<u8>,
    out: Seq<u8>,
    i: int,
    borrow_in: int,
    borrow_out: int,
)
    requires
        p.len() == 32,
        y.len() == 32,
        out.len() == 32,
        0 <= i < 32,
        suffix_value(out, i + 1) == suffix_value(p, i + 1) - suffix_value(y, i + 1) + borrow_in
            * radix_pow((31 - i) as nat),
        out[i] == p[i] - y[i] - borrow_in + 256 * borrow_out,
    ensures
        suffix_value(out, i) == suffix_value(p, i) - suffix_value(y, i) + borrow_out * radix_pow(
            (32 - i) as nat,
        ),
{
    let r = radix_pow((31 - i) as nat);
    assert(radix_pow((32 - i) as nat) == 256 * r);
    lemma_be_value_head(p.subrange(i, 32));
    lemma_be_value_head(y.subrange(i, 32));
    lemma_be_value_head(out.subrange(i, 32));
    assert(p.subrange(i, 32).subrange(1, 32 - i) =~= p.subrange(i + 1, 32));
    assert(y.subrange(i, 32).subrange(1, 32 - i) =~= y.subrange(i + 1, 32));
    assert(out.subrange(i, 32).subrange(1, 32 - i) =~= out.subrange(i + 1, 32));
    let (a, b, c) = (p[i] as int, y[i] as int, out[i] as int);
    assert(c * r == a * r - b * r - borrow_in * r + borrow_out * (256 * r)) by (nonlinear_arith)
        requires
            c == a - b - borrow_in + 256 * borrow_out,
    ;
}

/// P − y in 256 bits, by subtraction with borrow from the last byte up.
pub fn reflect32(y: &[u8; 32]) -> (r: [u8; 32])
    ensures
        be_value(r@) == reflected(be_value(y@)),
{
    let mut r = [0u8; 32];
    let mut borrow: u8 = 0;
    let mut i: usize = 32;
    proof {
        assert(r@.subrange(32, 32) =~= Seq::<u8>::empty());
        assert(y@.subrange(32, 32) =~= Seq::<u8>::empty());
        assert(Curve::P@.subrange(32, 32) =~= Seq::<u8>::empty());
        assert(radix_pow(0) == 1);
    }
    while i > 0
        invariant
            i <= 32,
            borrow <= 1,
            suffix_value(r@, i as int) == suffix_value(Curve::P@, i as int) - suffix_value(
                y@,
                i as int,
            ) + borrow * radix_pow((32 - i) as nat),
        decreases i,
    {
        i -= 1;
        let ghost before = r@;
        let ghost borrow_in = borrow as int;
        let take: u16 = y[i] as u16 + borrow as u16;
        let have: u16 = Curve::P[i] as u16;
        if have >= take {
            r[i] = (have - take) as u8;
            borrow = 0;
        } else {
            r[i] = (have + 256 - take) as u8;
            borrow = 1;
        }
        proof {
            assert(r@.subrange(i + 1, 32) =~= before.subrange(i + 1, 32));
            lemma_borrow_step(Curve::P@, y@, r@, i as int, borrow_in, borrow as int);
        }
    }
    proof {
        lemma_constant_values();
        lemma_radix_pow_32();
        assert(r@.subrange(0, 32) =~= r@);
        assert(y@.subrange(0, 32) =~= y@);
        assert(Curve::P@.subrange(0, 32) =~= Curve::P@);
        lemma_be_value_bound(r@);
        lemma_be_value_bound(y@);
    }
    r
}

} // verus!
