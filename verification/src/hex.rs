//! Points written out as upper-case hexadecimal.

use crate::compressed_point::CompressedPoint;
use crate::uncompressed_point::UncompressedPoint;
use vstd::prelude::*;

verus! {

/// The sixteen digits, in order.
pub const HEX_DIGITS: [char; 16] = [
    '0', '1', '2', '3', '4', '5', '6', '7', '8', '9', 'A', 'B', 'C', 'D', 'E', 'F',
];

/// The two digits of each byte of `bytes`, high digit first.
pub open spec fn hex_upper(bytes: Seq<u8>) -> Seq<char>
    decreases bytes.len(),
{
    if bytes.len() == 0 {
        Seq::empty()
    } else {
        hex_upper(bytes.drop_last()).push(HEX_DIGITS@[bytes.last() as int / 16]).push(
            HEX_DIGITS@[bytes.last() as int % 16],
        )
    }
}

/// `String::push` of std: the string with `c` at its end.
#[verifier::external_body]
fn push_char(s: &mut String, c: char)
    ensures
        final(s)@ == old(s)@.push(c),
{
    s.push(c)
}

/// `bytes` in upper-case hexadecimal, two digits a byte.
pub fn to_hex_upper(bytes: &[u8]) -> (r: String)
    ensures
        r@ == hex_upper(bytes@),
{
    let mut r = String::new();
    let n = bytes.len();
    let mut i: usize = 0;
    proof {
        assert(bytes@.subrange(0, 0) =~= Seq::<u8>::empty());
    }
    while i < n
        invariant
            n == bytes@.len(),
            i <= n,
            r@ == hex_upper(bytes@.subrange(0, i as int)),
        decreases n - i,
    {
        let b = bytes[i];
        proof {
            let next = bytes@.subrange(0, i + 1);
            assert(next.drop_last() =~= bytes@.subrange(0, i as int));
            assert(next.last() == b);
        }
        push_char(&mut r, HEX_DIGITS[(b / 16) as usize]);
        push_char(&mut r, HEX_DIGITS[(b % 16) as usize]);
        i += 1;
    }
    proof {
        assert(bytes@.subrange(0, n as int) =~= bytes@);
    }
    r
}

impl UncompressedPoint {
    /// The 64 bytes of the point in upper-case hexadecimal.
    pub fn to_hex(&self) -> (r: String)
        ensures
            r@ == hex_upper(self.0@),
    {
        to_hex_upper(self.0.as_slice())
    }
}

impl CompressedPoint {
    /// The 33 bytes of the point in upper-case hexadecimal.
    pub fn to_hex(&self) -> (r: String)
        ensures
            r@ == hex_upper(self.0@),
    {
        to_hex_upper(self.0.as_slice())
    }
}

} // verus!
