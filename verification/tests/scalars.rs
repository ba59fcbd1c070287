use solana_secp256k1::{Curve, Secp256k1Error};

fn be(hex: &str) -> [u8; 32] {
    let mut r = [0u8; 32];
    let digits: Vec<u8> = hex
        .bytes()
        .filter(|b| *b != b'_')
        .map(|b| match b {
            b'0'..=b'9' => b - b'0',
            b'a'..=b'f' => b - b'a' + 10,
            _ => panic!("not a hex digit"),
        })
        .collect();
    assert!(digits.len() <= 64);
    let pad = 64 - digits.len();
    for (i, d) in digits.iter().enumerate() {
        let at = pad + i;
        r[at / 2] |= if at % 2 == 0 { d << 4 } else { *d };
    }
    r
}

#[test]
fn the_constants_are_the_curve_parameters() {
    assert_eq!(Curve::N, be("fffffffffffffffffffffffffffffffebaaedce6af48a03bbfd25e8cd0364141"));
    assert_eq!(Curve::N_SUB_2, be("fffffffffffffffffffffffffffffffebaaedce6af48a03bbfd25e8cd036413f"));
    assert_eq!(Curve::N_DIV_2, be("7fffffffffffffffffffffffffffffff5d576e7357a4501ddfe92f46681b20a0"));
    assert_eq!(Curve::P, be("fffffffffffffffffffffffffffffffffffffffffffffffffffffffefffffc2f"));
    assert_eq!(Curve::P_SUB_2, be("fffffffffffffffffffffffffffffffffffffffffffffffffffffffefffffc2d"));
    assert_eq!(Curve::P_1_4, be("3fffffffffffffffffffffffffffffffffffffffffffffffffffffffbfffff0c"));
    assert_eq!(Curve::G[..32], be("79be667ef9dcbbac55a06295ce870b07029bfcdb2dce28d959f2815b16f81798"));
    assert_eq!(Curve::G[32..], be("483ada7726a3c4655da4fbfc0e1108a8fd17b448a68554199c47d08ffb10d4b8"));
}

#[test]
fn add_mod_n_adds_and_reduces() {
    assert_eq!(Curve::add_mod_n(&be("0102030405060708090a0b0c0d0e0f101112131415161718191a1b1c1d1e1f20"), &be("fedcba9876543210fedcba9876543210fedcba9876543210fedcba9876543210")), be("ffdebd9c7b5a391907e6c5a4836241210feecdac8b6a492917f6d5b493725130"));
    assert_eq!(Curve::add_mod_n(&be("ffffffffffffffffffffffffffffffffffffffffffffffffffffffffffffffff"), &be("ffffffffffffffffffffffffffffffffffffffffffffffffffffffffffffffff")), be("000000000000000000000000000000028aa24632a16ebf88805b42e65f937d7c"));
    assert_eq!(Curve::add_mod_n(&be("fffffffffffffffffffffffffffffffebaaedce6af48a03bbfd25e8cd0364140"), &be("0000000000000000000000000000000000000000000000000000000000000001")), be("0000000000000000000000000000000000000000000000000000000000000000"));
    assert_eq!(Curve::add_mod_n(&be("0000000000000000000000000000000000000000000000000000000000000000"), &be("0000000000000000000000000000000000000000000000000000000000000000")), be("0000000000000000000000000000000000000000000000000000000000000000"));
    assert_eq!(Curve::add_mod_n(&be("0000000000000000000000000000000000000000000000000000000000000002"), &be("0000000000000000000000000000000000000000000000000000000000000003")), be("0000000000000000000000000000000000000000000000000000000000000005"));
}

#[test]
fn add_mod_p_adds_and_reduces() {
    assert_eq!(Curve::add_mod_p(&be("0102030405060708090a0b0c0d0e0f101112131415161718191a1b1c1d1e1f20"), &be("fedcba9876543210fedcba9876543210fedcba9876543210fedcba9876543210")), be("ffdebd9c7b5a391907e6c5a4836241210feecdac8b6a492917f6d5b493725130"));
    assert_eq!(Curve::add_mod_p(&be("ffffffffffffffffffffffffffffffffffffffffffffffffffffffffffffffff"), &be("ffffffffffffffffffffffffffffffffffffffffffffffffffffffffffffffff")), be("00000000000000000000000000000000000000000000000000000002000007a0"));
    assert_eq!(Curve::add_mod_p(&be("fffffffffffffffffffffffffffffffffffffffffffffffffffffffefffffc2e"), &be("0000000000000000000000000000000000000000000000000000000000000001")), be("0000000000000000000000000000000000000000000000000000000000000000"));
    assert_eq!(Curve::add_mod_p(&be("fffffffffffffffffffffffffffffffebaaedce6af48a03bbfd25e8cd0364141"), &be("0000000000000000000000000000000000000000000000000000000000000000")), be("fffffffffffffffffffffffffffffffebaaedce6af48a03bbfd25e8cd0364141"));
}

#[test]
fn mul_mod_n_multiplies_and_reduces() {
    assert_eq!(Curve::mul_mod_n(&be("0102030405060708090a0b0c0d0e0f101112131415161718191a1b1c1d1e1f20"), &be("fedcba9876543210fedcba9876543210fedcba9876543210fedcba9876543210")), be("3fdd45477331be093ef25b3781d134ab611230e7c430b124a6809e38c1c1d9ce"));
    assert_eq!(Curve::mul_mod_n(&be("ffffffffffffffffffffffffffffffffffffffffffffffffffffffffffffffff"), &be("ffffffffffffffffffffffffffffffffffffffffffffffffffffffffffffffff")), be("9d671cd581c69bc5e697f5e45bcd07c3e972508f6d0e38f00911af2e084453c3"));
    assert_eq!(Curve::mul_mod_n(&be("fffffffffffffffffffffffffffffffebaaedce6af48a03bbfd25e8cd0364140"), &be("fffffffffffffffffffffffffffffffebaaedce6af48a03bbfd25e8cd0364140")), be("0000000000000000000000000000000000000000000000000000000000000001"));
    assert_eq!(Curve::mul_mod_n(&be("0102030405060708090a0b0c0d0e0f101112131415161718191a1b1c1d1e1f20"), &be("0000000000000000000000000000000000000000000000000000000000000000")), be("0000000000000000000000000000000000000000000000000000000000000000"));
    assert_eq!(Curve::mul_mod_n(&be("0000000000000000000000000000000000000000000000000000000000000006"), &be("0000000000000000000000000000000000000000000000000000000000000007")), be("000000000000000000000000000000000000000000000000000000000000002a"));
}

#[test]
fn mul_mod_p_multiplies_and_reduces() {
    assert_eq!(Curve::mul_mod_p(&be("0102030405060708090a0b0c0d0e0f101112131415161718191a1b1c1d1e1f20"), &be("fedcba9876543210fedcba9876543210fedcba9876543210fedcba9876543210")), be("568adf0ed7034f7b2d43798b3543717f130b2316a292a29208e2b92cf34d5b66"));
    assert_eq!(Curve::mul_mod_p(&be("ffffffffffffffffffffffffffffffffffffffffffffffffffffffffffffffff"), &be("ffffffffffffffffffffffffffffffffffffffffffffffffffffffffffffffff")), be("000000000000000000000000000000000000000000000001000007a0000e8900"));
    assert_eq!(Curve::mul_mod_p(&be("fffffffffffffffffffffffffffffffffffffffffffffffffffffffefffffc2e"), &be("fffffffffffffffffffffffffffffffffffffffffffffffffffffffefffffc2e")), be("0000000000000000000000000000000000000000000000000000000000000001"));
    assert_eq!(Curve::mul_mod_p(&be("0102030405060708090a0b0c0d0e0f101112131415161718191a1b1c1d1e1f20"), &be("0000000000000000000000000000000000000000000000000000000000000001")), be("0102030405060708090a0b0c0d0e0f101112131415161718191a1b1c1d1e1f20"));
}

#[test]
fn negate_n_is_two_n_minus_k_reduced() {
    assert_eq!(Curve::negate_n(&be("0102030405060708090a0b0c0d0e0f101112131415161718191a1b1c1d1e1f20")), be("fefdfcfbfaf9f8f7f6f5f4f3f2f1f0eea99cc9d29a328923a6b84370b3182221"));
    assert_eq!(Curve::negate_n(&be("0000000000000000000000000000000000000000000000000000000000000000")), be("0000000000000000000000000000000000000000000000000000000000000000"));
    assert_eq!(Curve::negate_n(&be("0000000000000000000000000000000000000000000000000000000000000001")), be("fffffffffffffffffffffffffffffffebaaedce6af48a03bbfd25e8cd0364140"));
    assert_eq!(Curve::negate_n(&be("fffffffffffffffffffffffffffffffebaaedce6af48a03bbfd25e8cd0364141")), be("0000000000000000000000000000000000000000000000000000000000000000"));
    assert_eq!(Curve::negate_n(&be("ffffffffffffffffffffffffffffffffffffffffffffffffffffffffffffffff")), be("fffffffffffffffffffffffffffffffd755db9cd5e9140777fa4bd19a06c8283"));
    assert_eq!(Curve::negate_n(&be("fffffffffffffffffffffffffffffffebaaedce6af48a03bbfd25e8cd0364140")), be("0000000000000000000000000000000000000000000000000000000000000001"));
}

#[test]
fn negate_p_is_two_p_minus_k_reduced() {
    assert_eq!(Curve::negate_p(&be("0102030405060708090a0b0c0d0e0f101112131415161718191a1b1c1d1e1f20")), be("fefdfcfbfaf9f8f7f6f5f4f3f2f1f0efeeedecebeae9e8e7e6e5e4e2e2e1dd0f"));
    assert_eq!(Curve::negate_p(&be("0000000000000000000000000000000000000000000000000000000000000000")), be("0000000000000000000000000000000000000000000000000000000000000000"));
    assert_eq!(Curve::negate_p(&be("0000000000000000000000000000000000000000000000000000000000000001")), be("fffffffffffffffffffffffffffffffffffffffffffffffffffffffefffffc2e"));
    assert_eq!(Curve::negate_p(&be("fffffffffffffffffffffffffffffffffffffffffffffffffffffffefffffc2f")), be("0000000000000000000000000000000000000000000000000000000000000000"));
    assert_eq!(Curve::negate_p(&be("ffffffffffffffffffffffffffffffffffffffffffffffffffffffffffffffff")), be("fffffffffffffffffffffffffffffffffffffffffffffffffffffffdfffff85f"));
    assert_eq!(Curve::negate_p(&be("fffffffffffffffffffffffffffffffffffffffffffffffffffffffeffffec2f")), be("0000000000000000000000000000000000000000000000000000000000001000"));
}

#[test]
fn negating_twice_gives_the_scalar_back() {
    for k in [be("0000000000000000000000000000000000000000000000000000000000000000"), be("0000000000000000000000000000000000000000000000000000000000000001"), be("0102030405060708090a0b0c0d0e0f101112131415161718191a1b1c1d1e1f20"), be("fedcba9876543210fedcba9876543210fedcba9876543210fedcba9876543210"), be("fffffffffffffffffffffffffffffffebaaedce6af48a03bbfd25e8cd0364140")] {
        assert_eq!(Curve::negate_n(&Curve::negate_n(&k)), k);
    }
    for k in [be("0000000000000000000000000000000000000000000000000000000000000000"), be("0000000000000000000000000000000000000000000000000000000000000001"), be("0102030405060708090a0b0c0d0e0f101112131415161718191a1b1c1d1e1f20"), be("fedcba9876543210fedcba9876543210fedcba9876543210fedcba9876543210"), be("fffffffffffffffffffffffffffffffffffffffffffffffffffffffefffffc2e")] {
        assert_eq!(Curve::negate_p(&Curve::negate_p(&k)), k);
    }
}

#[test]
fn negate_assign_writes_what_negate_returns() {
    for k in [be("0000000000000000000000000000000000000000000000000000000000000000"), be("0000000000000000000000000000000000000000000000000000000000000001"), be("0102030405060708090a0b0c0d0e0f101112131415161718191a1b1c1d1e1f20"), be("fedcba9876543210fedcba9876543210fedcba9876543210fedcba9876543210"), be("ffffffffffffffffffffffffffffffffffffffffffffffffffffffffffffffff")] {
        let mut n = k;
        Curve::negate_n_assign(&mut n);
        assert_eq!(n, Curve::negate_n(&k));
        let mut p = k;
        Curve::negate_p_assign(&mut p);
        assert_eq!(p, Curve::negate_p(&k));
    }
    let mut one = be("0000000000000000000000000000000000000000000000000000000000000001");
    Curve::negate_n_assign(&mut one);
    assert_eq!(one, be("fffffffffffffffffffffffffffffffebaaedce6af48a03bbfd25e8cd0364140"));
    let mut one = be("0000000000000000000000000000000000000000000000000000000000000001");
    Curve::negate_p_assign(&mut one);
    assert_eq!(one, be("fffffffffffffffffffffffffffffffffffffffffffffffffffffffefffffc2e"));
}

#[test]
fn mod_inv_n_times_the_scalar_is_one() {
    assert_eq!(Curve::mod_inv_n(&be("0102030405060708090a0b0c0d0e0f101112131415161718191a1b1c1d1e1f20")), Ok(be("778bccb9e6a24c5053c062837abc188e2971b071784e4534a518cf6e6a755191")));
    assert_eq!(Curve::mod_inv_n(&be("0000000000000000000000000000000000000000000000000000000000000001")), Ok(be("0000000000000000000000000000000000000000000000000000000000000001")));
    assert_eq!(Curve::mod_inv_n(&be("0000000000000000000000000000000000000000000000000000000000000002")), Ok(be("7fffffffffffffffffffffffffffffff5d576e7357a4501ddfe92f46681b20a1")));
    assert_eq!(Curve::mod_inv_n(&be("fffffffffffffffffffffffffffffffebaaedce6af48a03bbfd25e8cd0364140")), Ok(be("fffffffffffffffffffffffffffffffebaaedce6af48a03bbfd25e8cd0364140")));
    assert_eq!(Curve::mod_inv_n(&be("ffffffffffffffffffffffffffffffffffffffffffffffffffffffffffffffff")), Ok(be("1a2f66582f865803fc36e5fd38feed2cd04dd978f7b69d07f178ad1b6c2151c8")));
    for k in [be("0102030405060708090a0b0c0d0e0f101112131415161718191a1b1c1d1e1f20"), be("fedcba9876543210fedcba9876543210fedcba9876543210fedcba9876543210"), be("0000000000000000000000000000000000000000000000000000000000000003"), be("fffffffffffffffffffffffffffffffebaaedce6af48a03bbfd25e8cd036413f")] {
        let inverse = Curve::mod_inv_n(&k).unwrap();
        assert_eq!(Curve::mul_mod_n(&inverse, &k), be("0000000000000000000000000000000000000000000000000000000000000001"));
    }
    assert_eq!(Curve::mod_inv_n(&[0x07]), Ok(be("49249249249249249249249249249248c79facd43214c011123c1b03a93412a5")));
}

#[test]
fn mod_inv_p_times_the_element_is_one() {
    assert_eq!(Curve::mod_inv_p(&be("0102030405060708090a0b0c0d0e0f101112131415161718191a1b1c1d1e1f20")), Ok(be("bc9b4c34dcc3938b53377bcbb900914c56c824567320fcaca7f823be4b61dc16")));
    assert_eq!(Curve::mod_inv_p(&be("0000000000000000000000000000000000000000000000000000000000000001")), Ok(be("0000000000000000000000000000000000000000000000000000000000000001")));
    assert_eq!(Curve::mod_inv_p(&be("fffffffffffffffffffffffffffffffffffffffffffffffffffffffefffffc2e")), Ok(be("fffffffffffffffffffffffffffffffffffffffffffffffffffffffefffffc2e")));
    for k in [be("0102030405060708090a0b0c0d0e0f101112131415161718191a1b1c1d1e1f20"), be("fedcba9876543210fedcba9876543210fedcba9876543210fedcba9876543210"), be("0000000000000000000000000000000000000000000000000000000000000003"), be("fffffffffffffffffffffffffffffffffffffffffffffffffffffffefffffc2d")] {
        let inverse = Curve::mod_inv_p(&k).unwrap();
        assert_eq!(Curve::mul_mod_p(&inverse, &k), be("0000000000000000000000000000000000000000000000000000000000000001"));
    }
}

#[test]
fn the_inverse_of_zero_is_an_arithmetic_overflow() {
    assert_eq!(Curve::mod_inv_n(&be("0000000000000000000000000000000000000000000000000000000000000000")), Err(Secp256k1Error::ArithmeticOverflow));
    assert_eq!(Curve::mod_inv_n(&Curve::N), Err(Secp256k1Error::ArithmeticOverflow));
    assert_eq!(Curve::mod_inv_n(&[]), Err(Secp256k1Error::ArithmeticOverflow));
    assert_eq!(Curve::mod_inv_p(&be("0000000000000000000000000000000000000000000000000000000000000000")), Err(Secp256k1Error::ArithmeticOverflow));
    assert_eq!(Curve::mod_inv_p(&Curve::P), Err(Secp256k1Error::ArithmeticOverflow));
}

#[test]
fn fast_mod_p_is_the_remainder_by_p() {
    let mut a = be("0000000000000000000000000000000000000000000000000000000000000000");
    Curve::fast_mod_p(&mut a);
    assert_eq!(a, be("0000000000000000000000000000000000000000000000000000000000000000"));
    let mut a = be("0000000000000000000000000000000000000000000000000000000000000001");
    Curve::fast_mod_p(&mut a);
    assert_eq!(a, be("0000000000000000000000000000000000000000000000000000000000000001"));
    let mut a = be("0102030405060708090a0b0c0d0e0f101112131415161718191a1b1c1d1e1f20");
    Curve::fast_mod_p(&mut a);
    assert_eq!(a, be("0102030405060708090a0b0c0d0e0f101112131415161718191a1b1c1d1e1f20"));
    let mut a = be("fedcba9876543210fedcba9876543210fedcba9876543210fedcba9876543210");
    Curve::fast_mod_p(&mut a);
    assert_eq!(a, be("fedcba9876543210fedcba9876543210fedcba9876543210fedcba9876543210"));
    let mut a = be("fffffffffffffffffffffffffffffffffffffffffffffffffffffffefffffc2e");
    Curve::fast_mod_p(&mut a);
    assert_eq!(a, be("fffffffffffffffffffffffffffffffffffffffffffffffffffffffefffffc2e"));
    let mut a = be("fffffffffffffffffffffffffffffffffffffffffffffffffffffffefffffc2f");
    Curve::fast_mod_p(&mut a);
    assert_eq!(a, be("0000000000000000000000000000000000000000000000000000000000000000"));
    let mut a = be("fffffffffffffffffffffffffffffffffffffffffffffffffffffffefffffc30");
    Curve::fast_mod_p(&mut a);
    assert_eq!(a, be("0000000000000000000000000000000000000000000000000000000000000001"));
    let mut a = be("ffffffffffffffffffffffffffffffffffffffffffffffffffffffffffffffff");
    Curve::fast_mod_p(&mut a);
    assert_eq!(a, be("00000000000000000000000000000000000000000000000000000001000003d0"));
    let mut a = be("fffffffffffffffffffffffffffffffffffffffffffffffffffffffffffffffe");
    Curve::fast_mod_p(&mut a);
    assert_eq!(a, be("00000000000000000000000000000000000000000000000000000001000003cf"));
    let mut a = be("fffffffffffffffffffffffffffffffffffffffffffffffffffffffeffffffff");
    Curve::fast_mod_p(&mut a);
    assert_eq!(a, be("00000000000000000000000000000000000000000000000000000000000003d0"));
    let mut a = be("ffffffffffffffffffffffffffffffffffffffffffffffff0000000000000000");
    Curve::fast_mod_p(&mut a);
    assert_eq!(a, be("ffffffffffffffffffffffffffffffffffffffffffffffff0000000000000000"));
    let mut a = be("fffffffffffffffffffffffffffffffffffffffffffffffeffffffffffffffff");
    Curve::fast_mod_p(&mut a);
    assert_eq!(a, be("fffffffffffffffffffffffffffffffffffffffffffffffeffffffffffffffff"));
    let mut a = be("0000000000000001000000000000000000000000000000000000000000000000");
    Curve::fast_mod_p(&mut a);
    assert_eq!(a, be("0000000000000001000000000000000000000000000000000000000000000000"));
    let mut a = be("ffffffffffffffff000000000000000000000000000000000000000000000000");
    Curve::fast_mod_p(&mut a);
    assert_eq!(a, be("ffffffffffffffff000000000000000000000000000000000000000000000000"));
    let mut a = be("ffffffffffffffffffffffffffffffffffffffffffffffffffffffff00000000");
    Curve::fast_mod_p(&mut a);
    assert_eq!(a, be("00000000000000000000000000000000000000000000000000000000000003d1"));
    let mut a = be("fffffffffffffffffffffffffffffffebaaedce6af48a03bbfd25e8cd0364141");
    Curve::fast_mod_p(&mut a);
    assert_eq!(a, be("fffffffffffffffffffffffffffffffebaaedce6af48a03bbfd25e8cd0364141"));
    let mut a = be("fffffffffffffffffffffffffffffffebaaedce6af48a03bbfd25e8cd0364142");
    Curve::fast_mod_p(&mut a);
    assert_eq!(a, be("fffffffffffffffffffffffffffffffebaaedce6af48a03bbfd25e8cd0364142"));
}

#[test]
fn fast_mod_n_is_the_remainder_by_n() {
    let mut a = be("0000000000000000000000000000000000000000000000000000000000000000");
    Curve::fast_mod_n(&mut a);
    assert_eq!(a, be("0000000000000000000000000000000000000000000000000000000000000000"));
    let mut a = be("0000000000000000000000000000000000000000000000000000000000000001");
    Curve::fast_mod_n(&mut a);
    assert_eq!(a, be("0000000000000000000000000000000000000000000000000000000000000001"));
    let mut a = be("0102030405060708090a0b0c0d0e0f101112131415161718191a1b1c1d1e1f20");
    Curve::fast_mod_n(&mut a);
    assert_eq!(a, be("0102030405060708090a0b0c0d0e0f101112131415161718191a1b1c1d1e1f20"));
    let mut a = be("fedcba9876543210fedcba9876543210fedcba9876543210fedcba9876543210");
    Curve::fast_mod_n(&mut a);
    assert_eq!(a, be("fedcba9876543210fedcba9876543210fedcba9876543210fedcba9876543210"));
    let mut a = be("fffffffffffffffffffffffffffffffebaaedce6af48a03bbfd25e8cd0364140");
    Curve::fast_mod_n(&mut a);
    assert_eq!(a, be("fffffffffffffffffffffffffffffffebaaedce6af48a03bbfd25e8cd0364140"));
    let mut a = be("fffffffffffffffffffffffffffffffebaaedce6af48a03bbfd25e8cd0364141");
    Curve::fast_mod_n(&mut a);
    assert_eq!(a, be("0000000000000000000000000000000000000000000000000000000000000000"));
    let mut a = be("fffffffffffffffffffffffffffffffebaaedce6af48a03bbfd25e8cd0364142");
    Curve::fast_mod_n(&mut a);
    assert_eq!(a, be("0000000000000000000000000000000000000000000000000000000000000001"));
    let mut a = be("ffffffffffffffffffffffffffffffffffffffffffffffffffffffffffffffff");
    Curve::fast_mod_n(&mut a);
    assert_eq!(a, be("000000000000000000000000000000014551231950b75fc4402da1732fc9bebe"));
    let mut a = be("fffffffffffffffffffffffffffffffffffffffffffffffffffffffffffffffe");
    Curve::fast_mod_n(&mut a);
    assert_eq!(a, be("000000000000000000000000000000014551231950b75fc4402da1732fc9bebd"));
    let mut a = be("fffffffffffffffffffffffffffffffffffffffffffffffffffffffefffffc2f");
    Curve::fast_mod_n(&mut a);
    assert_eq!(a, be("000000000000000000000000000000014551231950b75fc4402da1722fc9baee"));
    let mut a = be("ffffffffffffffff000000000000000000000000000000000000000000000000");
    Curve::fast_mod_n(&mut a);
    assert_eq!(a, be("ffffffffffffffff000000000000000000000000000000000000000000000000"));
    let mut a = be("fffffffffffffffeffffffffffffffffffffffffffffffffffffffffffffffff");
    Curve::fast_mod_n(&mut a);
    assert_eq!(a, be("fffffffffffffffeffffffffffffffffffffffffffffffffffffffffffffffff"));
    let mut a = be("fffffffffffffffffffffffffffffffdffffffffffffffffffffffffffffffff");
    Curve::fast_mod_n(&mut a);
    assert_eq!(a, be("fffffffffffffffffffffffffffffffdffffffffffffffffffffffffffffffff"));
    let mut a = be("fffffffffffffffffffffffffffffffebaaedce6af48a03affffffffffffffff");
    Curve::fast_mod_n(&mut a);
    assert_eq!(a, be("fffffffffffffffffffffffffffffffebaaedce6af48a03affffffffffffffff"));
    let mut a = be("fffffffffffffffffffffffffffffffebaaedce6af48a03bbfd25e8cd036413f");
    Curve::fast_mod_n(&mut a);
    assert_eq!(a, be("fffffffffffffffffffffffffffffffebaaedce6af48a03bbfd25e8cd036413f"));
    let mut a = be("fffffffffffffffffffffffffffffffebaaedce6af48a03bbfd25e8cd0364143");
    Curve::fast_mod_n(&mut a);
    assert_eq!(a, be("0000000000000000000000000000000000000000000000000000000000000002"));
    let mut a = be("fffffffffffffffffffffffffffffffebaaedce6af48a03c0000000000000001");
    Curve::fast_mod_n(&mut a);
    assert_eq!(a, be("000000000000000000000000000000000000000000000000402da1732fc9bec0"));
    let mut a = be("ffffffffffffffffffffffffffffffff00000000000000000000000000000000");
    Curve::fast_mod_n(&mut a);
    assert_eq!(a, be("000000000000000000000000000000004551231950b75fc4402da1732fc9bebf"));
    let mut a = be("ffffffffffffffffffffffffffffffffbaaedce6af48a03b0000000000000000");
    Curve::fast_mod_n(&mut a);
    assert_eq!(a, be("00000000000000000000000000000000ffffffffffffffff402da1732fc9bebf"));
}

#[test]
fn fast_mod_agrees_with_the_general_reduction() {
    let zero = be("0000000000000000000000000000000000000000000000000000000000000000");
    for k in [be("0102030405060708090a0b0c0d0e0f101112131415161718191a1b1c1d1e1f20"), be("fedcba9876543210fedcba9876543210fedcba9876543210fedcba9876543210"), be("ffffffffffffffffffffffffffffffffffffffffffffffffffffffffffffffff"), be("fffffffffffffffffffffffffffffffffffffffffffffffffffffffefffffc2f"), be("fffffffffffffffffffffffffffffffebaaedce6af48a03bbfd25e8cd0364141"), be("fffffffffffffffffffffffffffffffffffffffffffffffffffffffefffffc2e"), be("fffffffffffffffffffffffffffffffebaaedce6af48a03bbfd25e8cd0364140")] {
        let mut p = k;
        Curve::fast_mod_p(&mut p);
        assert_eq!(p, Curve::add_mod_p(&k, &zero));
        let mut n = k;
        Curve::fast_mod_n(&mut n);
        assert_eq!(n, Curve::add_mod_n(&k, &zero));
    }
}
