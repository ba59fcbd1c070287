use k256::elliptic_curve::sec1::{FromEncodedPoint, ToEncodedPoint};
use k256::elliptic_curve::PrimeField;
use k256::{AffinePoint, EncodedPoint, ProjectivePoint, Scalar};
use solana_program_error::ProgramError;
use solana_secp256k1::recovery::point_from_recovery;
use solana_secp256k1::{
    CompressedPoint, Curve, Secp256k1Error, Secp256k1Point, UncompressedPoint,
};

fn hex(digits: &str) -> Vec<u8> {
    let nibbles: Vec<u8> = digits
        .bytes()
        .map(|b| match b {
            b'0'..=b'9' => b - b'0',
            b'a'..=b'f' => b - b'a' + 10,
            _ => panic!("not a hex digit"),
        })
        .collect();
    assert!(nibbles.len() % 2 == 0);
    nibbles.chunks(2).map(|pair| pair[0] << 4 | pair[1]).collect()
}

fn be(digits: &str) -> [u8; 32] {
    hex(digits).try_into().unwrap()
}

fn point(digits: &str) -> UncompressedPoint {
    UncompressedPoint(hex(digits).try_into().unwrap())
}

fn reference_scalar(k: &[u8; 32]) -> Scalar {
    Option::<Scalar>::from(Scalar::from_repr((*k).into())).unwrap()
}

fn reference_point(p: &UncompressedPoint) -> ProjectivePoint {
    let encoded = EncodedPoint::from_bytes(p.to_sec1_bytes()).unwrap();
    Option::<AffinePoint>::from(AffinePoint::from_encoded_point(&encoded)).unwrap().into()
}

fn from_reference(p: ProjectivePoint) -> UncompressedPoint {
    let encoded = p.to_affine().to_encoded_point(false);
    UncompressedPoint(encoded.as_bytes()[1..].try_into().unwrap())
}

fn reference_ecmul(p: &UncompressedPoint, k: &[u8; 32]) -> UncompressedPoint {
    from_reference(reference_point(p) * reference_scalar(k))
}

fn scalars() -> Vec<[u8; 32]> {
    vec![
        be("0000000000000000000000000000000000000000000000000000000000000001"),
        be("0000000000000000000000000000000000000000000000000000000000000002"),
        be("0000000000000000000000000000000000000000000000000000000000000003"),
        be("00000000000000000000000000000000000000000000000000000000000000ff"),
        be("0102030405060708090a0b0c0d0e0f101112131415161718191a1b1c1d1e1f20"),
        be("7fffffffffffffffffffffffffffffff5d576e7357a4501ddfe92f46681b20a0"),
        be("7fffffffffffffffffffffffffffffff5d576e7357a4501ddfe92f46681b20a1"),
        be("c0ffee00c0ffee00c0ffee00c0ffee00c0ffee00c0ffee00c0ffee00c0ffee00"),
        be("fffffffffffffffffffffffffffffffebaaedce6af48a03bbfd25e8cd036413f"),
        be("fffffffffffffffffffffffffffffffebaaedce6af48a03bbfd25e8cd0364140"),
    ]
}

#[test]
fn ecmul_of_the_generator_is_the_reference_multiple() {
    let g = Curve::generator();
    for k in scalars() {
        assert_eq!(Curve::ecmul(&g, &k), Ok(reference_ecmul(&g, &k)));
        assert_eq!(Curve::mul_g(&k), Ok(reference_ecmul(&g, &k)));
        assert_eq!(UncompressedPoint::try_from(k), Ok(reference_ecmul(&g, &k)));
        assert_eq!(CompressedPoint::try_from(k), Ok(reference_ecmul(&g, &k).compress()));
    }
}

#[test]
fn ecmul_of_the_generator_gives_the_known_multiples() {
    let g = Curve::generator();
    assert_eq!(Curve::ecmul(&g, &be("0000000000000000000000000000000000000000000000000000000000000001")), Ok(g));
    assert_eq!(Curve::ecmul(&g, &be("0000000000000000000000000000000000000000000000000000000000000002")), Ok(point("c6047f9441ed7d6d3045406e95c07cd85c778e4b8cef3ca7abac09b95c709ee51ae168fea63dc339a3c58419466ceaeef7f632653266d0e1236431a950cfe52a")));
    assert_eq!(Curve::ecmul(&g, &be("0000000000000000000000000000000000000000000000000000000000000003")), Ok(point("f9308a019258c31049344f85f89d5229b531c845836f99b08601f113bce036f9388f7b0f632de8140fe337e62a37f3566500a99934c2231b6cb9fd7584b8e672")));
    assert_eq!(Curve::mul_g(&be("0102030405060708090a0b0c0d0e0f101112131415161718191a1b1c1d1e1f20")), Ok(point("84bf7562262bbd6940085748f3be6afa52ae317155181ece31b66351ccffa4b08cc43d63b2859d469fee15f31c9edb5324266e6fd0407e87382d60fc4511acd8")));
    assert_eq!(Curve::mul_g(&be("fffffffffffffffffffffffffffffffebaaedce6af48a03bbfd25e8cd0364140")), Ok(point("79be667ef9dcbbac55a06295ce870b07029bfcdb2dce28d959f2815b16f81798b7c52588d95c3b9aa25b0403f1eef75702e84bb7597aabe663b82f6f04ef2777")));
}

#[test]
fn ecmul_of_any_point_is_the_reference_multiple() {
    let points = [
        Curve::generator(),
        point("c6047f9441ed7d6d3045406e95c07cd85c778e4b8cef3ca7abac09b95c709ee51ae168fea63dc339a3c58419466ceaeef7f632653266d0e1236431a950cfe52a"),
        point("84bf7562262bbd6940085748f3be6afa52ae317155181ece31b66351ccffa4b08cc43d63b2859d469fee15f31c9edb5324266e6fd0407e87382d60fc4511acd8"),
        point("84bf7562262bbd6940085748f3be6afa52ae317155181ece31b66351ccffa4b0733bc29c4d7a62b96011ea0ce36124acdbd991902fbf8178c7d29f02baee4f57"),
        point("c6047f9441ed7d6d3045406e95c07cd85c778e4b8cef3ca7abac09b95c709ee5e51e970159c23cc65c3a7be6b99315110809cd9acd992f1edc9bce55af301705"),
    ];
    for p in points {
        for k in scalars() {
            let expected = reference_ecmul(&p, &k);
            assert_eq!(Curve::ecmul(&p, &k), Ok(expected));
            assert_eq!(Curve::ecmul(&p.compress(), &k), Ok(expected));
            assert_eq!(p.compress() * &k, Ok(expected));
        }
    }
}

#[test]
fn multiplying_by_a_multiple_of_the_order_is_an_invalid_public_key() {
    let g = Curve::generator();
    let q = point("84bf7562262bbd6940085748f3be6afa52ae317155181ece31b66351ccffa4b08cc43d63b2859d469fee15f31c9edb5324266e6fd0407e87382d60fc4511acd8");
    for k in [be("0000000000000000000000000000000000000000000000000000000000000000"), Curve::N] {
        assert_eq!(Curve::ecmul(&g, &k), Err(Secp256k1Error::InvalidPublicKey));
        assert_eq!(Curve::ecmul(&q, &k), Err(Secp256k1Error::InvalidPublicKey));
        assert_eq!(Curve::ecmul(&q.compress(), &k), Err(Secp256k1Error::InvalidPublicKey));
        assert_eq!(q.compress() * &k, Err(Secp256k1Error::InvalidPublicKey));
        assert_eq!(Curve::mul_g(&k), Err(Secp256k1Error::InvalidPublicKey));
    }
}

#[test]
fn multiplying_a_point_that_is_not_on_the_curve_is_an_invalid_public_key() {
    let off = point("00000000000000000000000000000000000000000000000000000000000000050000000000000000000000000000000000000000000000000000000000000001");
    assert_eq!(Curve::ecmul(&off, &be("0000000000000000000000000000000000000000000000000000000000000002")), Err(Secp256k1Error::InvalidPublicKey));
    assert_eq!(off.tweak(be("0000000000000000000000000000000000000000000000000000000000000002")), Err(Secp256k1Error::InvalidPublicKey));
    let zero = point("00000000000000000000000000000000000000000000000000000000000000000000000000000000000000000000000000000000000000000000000000000000");
    assert_eq!(Curve::ecmul(&zero, &be("0000000000000000000000000000000000000000000000000000000000000002")), Err(Secp256k1Error::InvalidPublicKey));
}

#[test]
fn multiplying_a_point_whose_x_is_not_below_the_order_is_an_invalid_public_key() {
    let p = point("fffffffffffffffffffffffffffffffebaaedce6af48a03bbfd25e8cd036414198f66641cb0ae1776b463ebdee3d77fe2658f021db48e2c8ac7ab4c92f83621e");
    assert_eq!(Curve::lift_x(&p.x()), Ok(p));
    assert_eq!(Curve::ecmul(&p, &be("0000000000000000000000000000000000000000000000000000000000000002")), Err(Secp256k1Error::InvalidPublicKey));
    assert_eq!(Curve::ecmul(&p.compress(), &be("0000000000000000000000000000000000000000000000000000000000000001")), Err(Secp256k1Error::InvalidPublicKey));
    assert_eq!(p.tweak(be("0000000000000000000000000000000000000000000000000000000000000000")), Err(Secp256k1Error::InvalidPublicKey));
}

#[test]
fn the_signature_for_a_multiple_is_x_then_x_times_k() {
    let signature = Curve::multiple_signature(&be("79be667ef9dcbbac55a06295ce870b07029bfcdb2dce28d959f2815b16f81798"), &be("0102030405060708090a0b0c0d0e0f101112131415161718191a1b1c1d1e1f20"));
    assert_eq!(signature[..32], be("79be667ef9dcbbac55a06295ce870b07029bfcdb2dce28d959f2815b16f81798"));
    assert_eq!(signature[32..], be("4ce28f147e857ec4476456049bb053c134968e79e649f3a90e935310a8533273"));
    let signature = Curve::multiple_signature(&be("84bf7562262bbd6940085748f3be6afa52ae317155181ece31b66351ccffa4b0"), &be("fffffffffffffffffffffffffffffffebaaedce6af48a03bbfd25e8cd0364140"));
    assert_eq!(signature[..32], be("84bf7562262bbd6940085748f3be6afa52ae317155181ece31b66351ccffa4b0"));
    assert_eq!(signature[32..], be("7b408a9dd9d44296bff7a8b70c4195046800ab755a30816d8e1bfb3b03369c91"));
    let signature = Curve::multiple_signature(&be("79be667ef9dcbbac55a06295ce870b07029bfcdb2dce28d959f2815b16f81798"), &be("0000000000000000000000000000000000000000000000000000000000000000"));
    assert_eq!(signature[32..], be("0000000000000000000000000000000000000000000000000000000000000000"));
}

#[test]
fn the_digest_for_a_tweak_is_minus_x_times_t() {
    assert_eq!(Curve::tweak_digest(&be("79be667ef9dcbbac55a06295ce870b07029bfcdb2dce28d959f2815b16f81798"), &be("0102030405060708090a0b0c0d0e0f101112131415161718191a1b1c1d1e1f20")), be("b31d70eb817a813bb89ba9fb644fac3d86184e6cc8feac92b13f0b7c27e30ece"));
    assert_eq!(Curve::tweak_digest(&be("84bf7562262bbd6940085748f3be6afa52ae317155181ece31b66351ccffa4b0"), &be("0000000000000000000000000000000000000000000000000000000000000001")), be("7b408a9dd9d44296bff7a8b70c4195046800ab755a30816d8e1bfb3b03369c91"));
    assert_eq!(Curve::tweak_digest(&be("79be667ef9dcbbac55a06295ce870b07029bfcdb2dce28d959f2815b16f81798"), &be("0000000000000000000000000000000000000000000000000000000000000000")), be("0000000000000000000000000000000000000000000000000000000000000000"));
}

#[test]
fn tweak_adds_the_reference_multiple_of_the_generator() {
    let g = Curve::generator();
    let points = [g, point("c6047f9441ed7d6d3045406e95c07cd85c778e4b8cef3ca7abac09b95c709ee51ae168fea63dc339a3c58419466ceaeef7f632653266d0e1236431a950cfe52a"), point("84bf7562262bbd6940085748f3be6afa52ae317155181ece31b66351ccffa4b08cc43d63b2859d469fee15f31c9edb5324266e6fd0407e87382d60fc4511acd8"), point("84bf7562262bbd6940085748f3be6afa52ae317155181ece31b66351ccffa4b0733bc29c4d7a62b96011ea0ce36124acdbd991902fbf8178c7d29f02baee4f57")];
    for p in points {
        for t in scalars() {
            let sum = reference_point(&p) + reference_point(&g) * reference_scalar(&t);
            if sum == ProjectivePoint::IDENTITY {
                assert_eq!(p.tweak(t), Err(Secp256k1Error::InvalidPublicKey));
                assert_eq!(p.compress().tweak(t), Err(Secp256k1Error::InvalidPublicKey));
            } else {
                let expected = from_reference(sum);
                assert_eq!(p.tweak(t), Ok(expected));
                assert_eq!(p.compress().tweak(t), Ok(expected.compress()));
            }
        }
    }
}

#[test]
fn tweak_is_the_sum_with_the_multiple_of_the_generator() {
    let g = Curve::generator();
    let p = point("84bf7562262bbd6940085748f3be6afa52ae317155181ece31b66351ccffa4b08cc43d63b2859d469fee15f31c9edb5324266e6fd0407e87382d60fc4511acd8");
    for t in scalars() {
        let multiple = Curve::ecmul(&g, &t).unwrap();
        assert_eq!(p.tweak(t), p + multiple);
        assert_eq!(p.tweak(t), Ok(from_reference(reference_point(&p) + reference_point(&multiple))));
    }
    assert_eq!(g.tweak(be("0000000000000000000000000000000000000000000000000000000000000001")), Ok(point("c6047f9441ed7d6d3045406e95c07cd85c778e4b8cef3ca7abac09b95c709ee51ae168fea63dc339a3c58419466ceaeef7f632653266d0e1236431a950cfe52a")));
    assert_eq!(g.tweak(be("0000000000000000000000000000000000000000000000000000000000000002")), Ok(point("f9308a019258c31049344f85f89d5229b531c845836f99b08601f113bce036f9388f7b0f632de8140fe337e62a37f3566500a99934c2231b6cb9fd7584b8e672")));
}

#[test]
fn tweak_by_zero_is_the_point_itself() {
    let p = point("84bf7562262bbd6940085748f3be6afa52ae317155181ece31b66351ccffa4b08cc43d63b2859d469fee15f31c9edb5324266e6fd0407e87382d60fc4511acd8");
    assert_eq!(p.tweak(be("0000000000000000000000000000000000000000000000000000000000000000")), Ok(p));
    assert_eq!(p.compress().tweak(be("0000000000000000000000000000000000000000000000000000000000000000")), Ok(p.compress()));
}

#[test]
fn tweak_to_the_point_at_infinity_is_an_invalid_public_key() {
    let p = point("84bf7562262bbd6940085748f3be6afa52ae317155181ece31b66351ccffa4b08cc43d63b2859d469fee15f31c9edb5324266e6fd0407e87382d60fc4511acd8");
    assert_eq!(p.tweak(be("fefdfcfbfaf9f8f7f6f5f4f3f2f1f0eea99cc9d29a328923a6b84370b3182221")), Err(Secp256k1Error::InvalidPublicKey));
    assert_eq!(p.compress().tweak(be("fefdfcfbfaf9f8f7f6f5f4f3f2f1f0eea99cc9d29a328923a6b84370b3182221")), Err(Secp256k1Error::InvalidPublicKey));
}

#[test]
fn a_result_of_recovery_becomes_a_point_or_an_invalid_public_key() {
    assert_eq!(point_from_recovery(Ok(Curve::G)), Ok(Curve::generator()));
    assert_eq!(point_from_recovery(Ok([7u8; 64])), Ok(UncompressedPoint([7u8; 64])));
    assert_eq!(
        point_from_recovery(Err(ProgramError::InvalidArgument)),
        Err(Secp256k1Error::InvalidPublicKey)
    );
    assert_eq!(
        point_from_recovery(Err(ProgramError::Custom(3))),
        Err(Secp256k1Error::InvalidPublicKey)
    );
    assert_eq!(
        Secp256k1Error::from(ProgramError::InvalidArgument),
        Secp256k1Error::InvalidPublicKey
    );
}
