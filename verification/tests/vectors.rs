use solana_secp256k1::{CompressedPoint, Curve, Secp256k1Error, Secp256k1Point, UncompressedPoint};

fn scalar(n: u8) -> [u8; 32] {
    let mut k = [0u8; 32];
    k[31] = n;
    k
}

#[test]
fn compressing_the_generator_gives_tag_02_and_its_x() {
    let c = Curve::generator().compress();
    assert_eq!(c.0[0], 0x02);
    assert_eq!(&c.0[1..], &Curve::G[..32]);
    assert_eq!(
        c.to_hex(),
        "0279BE667EF9DCBBAC55A06295CE870B07029BFCDB2DCE28D959F2815B16F81798"
    );
}

#[test]
fn ecmul_of_the_generator_by_one_is_the_generator() {
    let g = Curve::generator();
    assert_eq!(Curve::ecmul(&g, &scalar(1)), Ok(g));
    assert_eq!(Curve::ecmul(&g.compress(), &scalar(1)), Ok(g));
}

#[test]
fn ecmul_of_the_generator_by_zero_is_an_invalid_public_key() {
    let g = Curve::generator();
    assert_eq!(Curve::ecmul(&g, &scalar(0)), Err(Secp256k1Error::InvalidPublicKey));
    assert_eq!(Curve::mul_g(&scalar(0)), Err(Secp256k1Error::InvalidPublicKey));
    assert_eq!(UncompressedPoint::try_from(scalar(0)), Err(Secp256k1Error::InvalidPublicKey));
    assert_eq!(CompressedPoint::try_from(scalar(0)), Err(Secp256k1Error::InvalidPublicKey));
}
