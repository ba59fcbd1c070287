//! Big-endian byte strings read as natural numbers.
//!
//! Every scalar and coordinate of the library is a string of bytes, most
//! significant byte first. This module gives such strings their value, the
//! encoding of a value in a fixed number of bytes, and the facts that connect
//! the two.

use vstd::prelude::*;

verus! {

/// The number that `s` encodes, most significant byte first.
pub open spec fn be_value(s: Seq<u8>) -> nat
    decreases s.len(),
{
    if s.len() == 0 {
        0
    } else {
        be_value(s.drop_last()) * 256 + s.last() as nat
    }
}

/// The `len` low-order base-256 digits of `n`, most significant first.
pub open spec fn be_encode(n: nat, len: nat) -> Seq<u8>
    decreases len,
{
    if len == 0 {
        Seq::empty()
    } else {
        be_encode(n / 256, (len - 1) as nat).push((n % 256) as u8)
    }
}

/// 256 to the power `len`: the number of byte strings of that length.
pub open spec fn radix_pow(len: nat) -> nat
    decreases len,
{
    if len == 0 {
        1
    } else {
        256 * radix_pow((len - 1) as nat)
    }
}

/// `len` zero bytes.
pub open spec fn zeros(len: nat) -> Seq<u8> {
    Seq::new(len, |i: int| 0u8)
}

/// A string without a leading zero byte: the shortest encoding of its value.
pub open spec fn is_minimal(s: Seq<u8>) -> bool {
    s.len() == 0 || s[0] != 0
}

/// 2 to the power 256, the bound of every 32-byte value.
pub open spec fn two_256() -> nat {
    0x1_00000000_00000000_00000000_00000000_00000000_00000000_00000000_00000000nat
}

/// 256 to the 32 is 2 to the 256, and 256 to the 8 is 2 to the 64.
pub proof fn lemma_radix_pow_32()
    ensures
        radix_pow(32) == two_256(),
        radix_pow(8) == 0x1_00000000_00000000nat,
{
    reveal_with_fuel(radix_pow, 34);
}

/// A power of 256 is not zero.
pub proof fn lemma_radix_pow_positive(len: nat)
    ensures
        radix_pow(len) > 0,
    decreases len,
{
    if len > 0 {
        lemma_radix_pow_positive((len - 1) as nat);
    }
}

/// A higher power of 256 is not smaller.
pub proof fn lemma_radix_pow_monotonic(a: nat, b: nat)
    requires
        a <= b,
    ensures
        radix_pow(a) <= radix_pow(b),
    decreases b,
{
    if a < b {
        lemma_radix_pow_monotonic(a, (b - 1) as nat);
        lemma_radix_pow_positive((b - 1) as nat);
    }
}

/// A string of `len` bytes encodes a number below 256 to the `len`.
pub proof fn lemma_be_value_bound(s: Seq<u8>)
    ensures
        be_value(s) < radix_pow(s.len()),
    decreases s.len(),
{
    if s.len() > 0 {
        lemma_be_value_bound(s.drop_last());
    }
}

/// The value of a concatenation: the left part is shifted by the right part's length.
pub proof fn lemma_be_value_concat(a: Seq<u8>, b: Seq<u8>)
    ensures
        be_value(a + b) == be_value(a) * radix_pow(b.len()) + be_value(b),
    decreases b.len(),
{
    if b.len() == 0 {
        assert(a + b =~= a);
        assert(be_value(a) * 1 == be_value(a)) by (nonlinear_arith);
    } else {
        lemma_be_value_concat(a, b.drop_last());
        assert((a + b).drop_last() =~= a + b.drop_last());
        assert((a + b).last() == b.last());
        let x = be_value(a);
        let r = radix_pow(b.drop_last().len());
        assert(radix_pow(b.len()) == 256 * r);
        assert((x * r) * 256 == x * (256 * r)) by (nonlinear_arith);
    }
}

/// Zero bytes encode zero.
pub proof fn lemma_be_value_zeros(len: nat)
    ensures
        be_value(zeros(len)) == 0,
    decreases len,
{
    if len > 0 {
        lemma_be_value_zeros((len - 1) as nat);
        assert(zeros(len).drop_last() =~= zeros((len - 1) as nat));
    }
}

/// Zero bytes in front do not change the value.
pub proof fn lemma_be_value_leading_zeros(len: nat, s: Seq<u8>)
    ensures
        be_value(zeros(len) + s) == be_value(s),
{
    lemma_be_value_concat(zeros(len), s);
    lemma_be_value_zeros(len);
    assert(0 * radix_pow(s.len()) == 0) by (nonlinear_arith);
}

/// An encoding in `len` bytes has `len` bytes.
pub proof fn lemma_be_encode_len(n: nat, len: nat)
    ensures
        be_encode(n, len).len() == len,
    decreases len,
{
    if len > 0 {
        lemma_be_encode_len(n / 256, (len - 1) as nat);
    }
}

/// Encoding a number that fits and reading it back gives the number.
pub proof fn lemma_be_value_of_encode(n: nat, len: nat)
    requires
        n < radix_pow(len),
    ensures
        be_value(be_encode(n, len)) == n,
    decreases len,
{
    if len > 0 {
        let rest = be_encode(n / 256, (len - 1) as nat);
        lemma_be_value_of_encode(n / 256, (len - 1) as nat);
        assert(be_encode(n, len).drop_last() =~= rest);
    }
}

/// Reading a string and encoding its value in as many bytes gives the string.
pub proof fn lemma_be_encode_of_value(s: Seq<u8>)
    ensures
        be_encode(be_value(s), s.len()) == s,
    decreases s.len(),
{
    if s.len() == 0 {
        assert(be_encode(be_value(s), s.len()) =~= s);
    } else {
        lemma_be_encode_of_value(s.drop_last());
        let v = be_value(s);
        assert(v / 256 == be_value(s.drop_last()));
        assert(v % 256 == s.last() as nat);
        assert(be_encode(v, s.len()) =~= s);
    }
}

/// Two strings of one length with one value are the same string.
pub proof fn lemma_be_value_injective(a: Seq<u8>, b: Seq<u8>)
    requires
        a.len() == b.len(),
        be_value(a) == be_value(b),
    ensures
        a == b,
{
    lemma_be_encode_of_value(a);
    lemma_be_encode_of_value(b);
}

/// The first byte of a string weighs 256 to the power of the rest's length.
pub proof fn lemma_be_value_head(s: Seq<u8>)
    requires
        s.len() > 0,
    ensures
        be_value(s) == (s[0] as nat) * radix_pow((s.len() - 1) as nat) + be_value(
            s.subrange(1, s.len() as int),
        ),
{
    let head = s.subrange(0, 1);
    let tail = s.subrange(1, s.len() as int);
    assert(s =~= head + tail);
    lemma_be_value_concat(head, tail);
    assert(head.drop_last() =~= Seq::<u8>::empty());
    assert(be_value(head) == s[0] as nat) by {
        reveal_with_fuel(be_value, 2);
    }
}

/// A minimal string is no longer than any bound on its value demands.
pub proof fn lemma_minimal_len(s: Seq<u8>, len: nat)
    requires
        is_minimal(s),
        be_value(s) < radix_pow(len),
    ensures
        s.len() <= len,
{
    if s.len() > len {
        lemma_be_value_head(s);
        lemma_radix_pow_monotonic(len, (s.len() - 1) as nat);
        let h = s[0] as nat;
        let r = radix_pow((s.len() - 1) as nat);
        assert(h * r >= r) by (nonlinear_arith)
            requires
                h >= 1,
        ;
    }
}

/// Each number has one shortest encoding.
pub proof fn lemma_minimal_unique(a: Seq<u8>, b: Seq<u8>)
    requires
        is_minimal(a),
        is_minimal(b),
    ensures
        be_value(a) == be_value(b) <==> a == b,
{
    if be_value(a) == be_value(b) {
        lemma_be_value_bound(a);
        lemma_be_value_bound(b);
        lemma_minimal_len(a, b.len());
        lemma_minimal_len(b, a.len());
        lemma_be_value_injective(a, b);
    }
}

/// The parity of a value is the parity of its last byte.
pub proof fn lemma_be_value_parity(s: Seq<u8>)
    requires
        s.len() > 0,
    ensures
        be_value(s) % 2 == (s.last() as nat) % 2,
{
}

/// Writes `v` into the low end of 32 bytes and leaves the high end zero.
pub fn left_pad32(v: &[u8]) -> (r: [u8; 32])
    requires
        v@.len() <= 32,
    ensures
        r@ == zeros((32 - v@.len()) as nat) + v@,
        be_value(r@) == be_value(v@),
{
    let mut r = [0u8; 32];
    let n = v.len();
    let shift = 32 - n;
    let mut i: usize = 0;
    while i < n
        invariant
            n == v@.len(),
            n <= 32,
            shift == 32 - n,
            i <= n,
            forall|j: int| 0 <= j < shift ==> r@[j] == 0,
            forall|j: int| 0 <= j < i ==> r@[shift + j] == v@[j],
        decreases n - i,
    {
        r[shift + i] = v[i];
        i += 1;
    }
    proof {
        assert(r@ =~= zeros(shift as nat) + v@);
        lemma_be_value_leading_zeros(shift as nat, v@);
    }
    r
}

/// The 32 bytes of a number below 2 to the 256 that comes in its shortest
/// encoding.
pub fn widen32(v: &[u8]) -> (r: [u8; 32])
    requires
        is_minimal(v@),
        be_value(v@) < two_256(),
    ensures
        be_value(r@) == be_value(v@),
        r@ == be_encode(be_value(v@), 32),
{
    proof {
        lemma_radix_pow_32();
        lemma_minimal_len(v@, 32);
    }
    let r = left_pad32(v);
    proof {
        lemma_be_encode_of_value(r@);
    }
    r
}

/// Whether two byte strings are the same, byte for byte.
pub fn bytes_equal(a: &[u8], b: &[u8]) -> (r: bool)
    ensures
        r == (a@ == b@),
{
    if a.len() != b.len() {
        return false;
    }
    let n = a.len();
    let mut i: usize = 0;
    while i < n
        invariant
            n == a@.len(),
            n == b@.len(),
            i <= n,
            forall|j: int| 0 <= j < i ==> a@[j] == b@[j],
        decreases n - i,
    {
        if a[i] != b[i] {
            return false;
        }
        i += 1;
    }
    assert(a@ =~= b@);
    true
}

/// The 32 bytes of `src` that start at `start`.
pub fn copy_range32(src: &[u8], start: usize) -> (r: [u8; 32])
    requires
        start + 32 <= src@.len(),
    ensures
        r@ == src@.subrange(start as int, start + 32),
{
    let mut r = [0u8; 32];
    let n = src.len();
    let mut i: usize = 0;
    while i < 32
        invariant
            i <= 32,
            n == src@.len(),
            start + 32 <= n,
            forall|j: int| 0 <= j < i ==> r@[j] == src@[start + j],
        decreases 32 - i,
    {
        r[i] = src[start + i];
        i += 1;
    }
    assert(r@ =~= src@.subrange(start as int, start + 32));
    r
}

/// `a` followed by `b`.
pub fn join64(a: &[u8; 32], b: &[u8; 32]) -> (r: [u8; 64])
    ensures
        r@ == a@ + b@,
{
    let mut r = [0u8; 64];
    let mut i: usize = 0;
    while i < 32
        invariant
            i <= 32,
            forall|j: int| 0 <= j < i ==> r@[j] == a@[j],
            forall|j: int| 0 <= j < i ==> r@[32 + j] == b@[j],
        decreases 32 - i,
    {
        r[i] = a[i];
        r[32 + i] = b[i];
        i += 1;
    }
    assert(r@ =~= a@ + b@);
    r
}

} // verus!
