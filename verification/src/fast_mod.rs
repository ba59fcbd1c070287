//! Reduction of one 256-bit value modulo the order or the prime.
//!
//! Both moduli lie so close below 2 to the 256 that a 32-byte value is almost
//! always reduced already. The value is read as four 64-bit limbs, most
//! significant first; only where the high limbs are saturated does the value
//! have to be compared with the modulus and the modulus be subtracted, once.

use crate::bytes::{
    be_encode, be_value, lemma_be_encode_len, lemma_be_value_bound, lemma_be_value_concat,
    lemma_be_value_of_encode, lemma_radix_pow_32,
};
use crate::curve::{field_prime, order, Curve};
use vstd::prelude::*;

verus! {

/// The eight bytes of limb `i`, of four.
pub open spec fn limb_bytes(s: Seq<u8>, i: int) -> Seq<u8> {
    s.subrange(8 * i, 8 * i + 8)
}

/// The number held by limb `i`.
pub open spec fn limb_value(s: Seq<u8>, i: int) -> nat {
    be_value(limb_bytes(s, i))
}

/// The value that four limbs hold together.
pub open spec fn limbs_value(l0: nat, l1: nat, l2: nat, l3: nat) -> nat {
    ((l0 * 0x1_00000000_00000000 + l1) * 0x1_00000000_00000000 + l2) * 0x1_00000000_00000000 + l3
}

/// A 32-byte value is the value of its four limbs.
pub proof fn lemma_value_of_limbs(s: Seq<u8>)
    requires
        s.len() == 32,
    ensures
        be_value(s) == limbs_value(
            limb_value(s, 0),
            limb_value(s, 1),
            limb_value(s, 2),
            limb_value(s, 3),
        ),
        forall|i: int| 0 <= i < 4 ==> #[trigger] limb_value(s, i) < 0x1_00000000_00000000,
{
    let s0 = limb_bytes(s, 0);
    let s1 = limb_bytes(s, 1);
    let s2 = limb_bytes(s, 2);
    let s3 = limb_bytes(s, 3);
    lemma_radix_pow_32();
    lemma_be_value_concat(s0, s1);
    lemma_be_value_concat(s0 + s1, s2);
    lemma_be_value_concat(s0 + s1 + s2, s3);
    assert(s =~= s0 + s1 + s2 + s3);
    assert forall|i: int| 0 <= i < 4 implies #[trigger] limb_value(s, i)
        < 0x1_00000000_00000000 by {
        lemma_be_value_bound(limb_bytes(s, i));
    }
}

/// Reads limb `i` of a 32-byte value.
fn load_limb(a: &[u8; 32], i: usize) -> (l: u64)
    requires
        i < 4,
    ensures
        l == limb_value(a@, i as int),
{
    let s = 8 * i;
    let ghost b = limb_bytes(a@, i as int);
    proof {
        reveal_with_fuel(be_value, 9);
        assert(b.len() == 8);
        assert(b[0] == a@[s + 0] && b[1] == a@[s + 1] && b[2] == a@[s + 2] && b[3] == a@[s + 3]);
        assert(b[4] == a@[s + 4] && b[5] == a@[s + 5] && b[6] == a@[s + 6] && b[7] == a@[s + 7]);
        assert(b.drop_last().drop_last().drop_last().drop_last().drop_last().drop_last().drop_last().drop_last().len() == 0);
    }
    let mut l: u64 = a[s] as u64;
    l = l * 256 + a[s + 1] as u64;
    l = l * 256 + a[s + 2] as u64;
    l = l * 256 + a[s + 3] as u64;
    l = l * 256 + a[s + 4] as u64;
    l = l * 256 + a[s + 5] as u64;
    l = l * 256 + a[s + 6] as u64;
    l = l * 256 + a[s + 7] as u64;
    l
}

/// Writes `l` to limb `i` of a 32-byte value.
fn store_limb(a: &mut [u8; 32], i: usize, l: u64)
    requires
        i < 4,
    ensures
        limb_bytes(final(a)@, i as int) == be_encode(l as nat, 8),
        forall|j: int| 0 <= j < 32 && !(8 * i <= j < 8 * i + 8) ==> final(a)@[j] == old(a)@[j],
{
    let s = 8 * i;
    let r1 = l / 256;
    let r2 = r1 / 256;
    let r3 = r2 / 256;
    let r4 = r3 / 256;
    let r5 = r4 / 256;
    let r6 = r5 / 256;
    let r7 = r6 / 256;
    a[s + 7] = (l % 256) as u8;
    a[s + 6] = (r1 % 256) as u8;
    a[s + 5] = (r2 % 256) as u8;
    a[s + 4] = (r3 % 256) as u8;
    a[s + 3] = (r4 % 256) as u8;
    a[s + 2] = (r5 % 256) as u8;
    a[s + 1] = (r6 % 256) as u8;
    a[s] = (r7 % 256) as u8;
    proof {
        reveal_with_fuel(be_encode, 9);
        lemma_be_encode_len(l as nat, 8);
        assert(limb_bytes(a@, i as int) =~= be_encode(l as nat, 8));
    }
}

/// Writes four limbs over a 32-byte value.
fn store_limbs(a: &mut [u8; 32], l0: u64, l1: u64, l2: u64, l3: u64)
    ensures
        be_value(final(a)@) == limbs_value(l0 as nat, l1 as nat, l2 as nat, l3 as nat),
{
    store_limb(a, 0, l0);
    store_limb(a, 1, l1);
    store_limb(a, 2, l2);
    store_limb(a, 3, l3);
    proof {
        lemma_radix_pow_32();
        assert(limb_bytes(a@, 0) =~= be_encode(l0 as nat, 8));
        assert(limb_bytes(a@, 1) =~= be_encode(l1 as nat, 8));
        assert(limb_bytes(a@, 2) =~= be_encode(l2 as nat, 8));
        lemma_be_value_of_encode(l0 as nat, 8);
        lemma_be_value_of_encode(l1 as nat, 8);
        lemma_be_value_of_encode(l2 as nat, 8);
        lemma_be_value_of_encode(l3 as nat, 8);
        lemma_value_of_limbs(a@);
    }
}

impl Curve {
    /// Reduces a 32-byte value modulo the field prime, in place.
    pub fn fast_mod_p(a: &mut [u8; 32])
        ensures
            be_value(final(a)@) == be_value(old(a)@) % field_prime(),
    {
        proof {
            lemma_value_of_limbs(a@);
            assert(limb_value(a@, 1) < 0x1_00000000_00000000);
            assert(limb_value(a@, 2) < 0x1_00000000_00000000);
            assert(limb_value(a@, 3) < 0x1_00000000_00000000);
        }
        let l0 = load_limb(a, 0);
        let l1 = load_limb(a, 1);
        let l2 = load_limb(a, 2);
        if l0 < u64::MAX || l1 < u64::MAX || l2 < u64::MAX {
            return ;
        }
        let l3 = load_limb(a, 3);
        let low: u64 = 0xfffffffe_fffffc2f;
        if l3 >= low {
            store_limbs(a, 0, 0, 0, l3 - low);
        }
    }

    /// Reduces a 32-byte value modulo the group order, in place.
    pub fn fast_mod_n(a: &mut [u8; 32])
        ensures
            be_value(final(a)@) == be_value(old(a)@) % order(),
    {
        proof {
            lemma_value_of_limbs(a@);
            assert(limb_value(a@, 1) < 0x1_00000000_00000000);
            assert(limb_value(a@, 2) < 0x1_00000000_00000000);
            assert(limb_value(a@, 3) < 0x1_00000000_00000000);
        }
        let l0 = load_limb(a, 0);
        if l0 < u64::MAX {
            return ;
        }
        let n1: u64 = 0xffffffff_fffffffe;
        let n2: u64 = 0xbaaedce6_af48a03b;
        let n3: u64 = 0xbfd25e8c_d0364141;
        let l1 = load_limb(a, 1);
        let l2 = load_limb(a, 2);
        let l3 = load_limb(a, 3);
        if l1 < n1 || (l1 == n1 && (l2 < n2 || (l2 == n2 && l3 < n3))) {
            return ;
        }
        // Subtract the order limb by limb, least significant first, carrying the borrow.
        let borrow3 = l3 < n3;
        let new3 = if borrow3 {
            l3 + (u64::MAX - n3) + 1
        } else {
            l3 - n3
        };
        let take2 = if borrow3 {
            n2 + 1
        } else {
            n2
        };
        let borrow2 = l2 < take2;
        let new2 = if borrow2 {
            l2 + (u64::MAX - take2) + 1
        } else {
            l2 - take2
        };
        let take1 = if borrow2 {
            n1 + 1
        } else {
            n1
        };
        let new1 = l1 - take1;
        store_limbs(a, 0, new1, new2, new3);
    }
}

} // verus!
