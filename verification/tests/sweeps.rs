use solana_secp256k1::{Curve, Secp256k1Point, UncompressedPoint};

/// A fixed sequence of 32-byte values: xorshift, with some of the values
/// given saturated high limbs so that the slow paths are taken too.
struct Values(u64);

impl Values {
    fn word(&mut self) -> u64 {
        self.0 ^= self.0 << 13;
        self.0 ^= self.0 >> 7;
        self.0 ^= self.0 << 17;
        self.0
    }

    fn next(&mut self) -> [u8; 32] {
        let shape = self.word() % 8;
        let mut r = [0u8; 32];
        for limb in 0..4 {
            let saturated = (limb as u64) < shape.saturating_sub(3);
            let w = if saturated { u64::MAX } else { self.word() };
            r[limb * 8..limb * 8 + 8].copy_from_slice(&w.to_be_bytes());
        }
        if shape == 7 {
            r[31] = self.word() as u8;
            r[24..31].copy_from_slice(&[0xff; 7]);
        }
        r
    }
}

const ZERO: [u8; 32] = [0u8; 32];

fn one() -> [u8; 32] {
    let mut k = [0u8; 32];
    k[31] = 1;
    k
}

#[test]
fn fast_mod_p_agrees_with_the_general_reduction_on_many_values() {
    let mut values = Values(0x9e3779b97f4a7c15);
    for _ in 0..4000 {
        let k = values.next();
        let mut fast = k;
        Curve::fast_mod_p(&mut fast);
        assert_eq!(fast, Curve::add_mod_p(&k, &ZERO));
    }
}

#[test]
fn fast_mod_n_agrees_with_the_general_reduction_on_many_values() {
    let mut values = Values(0xc2b2ae3d27d4eb4f);
    for _ in 0..4000 {
        let k = values.next();
        let mut fast = k;
        Curve::fast_mod_n(&mut fast);
        assert_eq!(fast, Curve::add_mod_n(&k, &ZERO));
    }
}

#[test]
fn negating_twice_gives_every_reduced_value_back() {
    let mut values = Values(0x165667b19e3779f9);
    for _ in 0..500 {
        let k = values.next();
        let n = Curve::add_mod_n(&k, &ZERO);
        assert_eq!(Curve::negate_n(&Curve::negate_n(&n)), n);
        assert_eq!(Curve::add_mod_n(&n, &Curve::negate_n(&n)), ZERO);
        let p = Curve::add_mod_p(&k, &ZERO);
        assert_eq!(Curve::negate_p(&Curve::negate_p(&p)), p);
        assert_eq!(Curve::add_mod_p(&p, &Curve::negate_p(&p)), ZERO);
    }
}

#[test]
fn every_value_but_the_multiples_of_the_modulus_has_an_inverse() {
    let mut values = Values(0x27d4eb2f165667c5);
    for _ in 0..300 {
        let k = values.next();
        if Curve::add_mod_n(&k, &ZERO) != ZERO {
            let inverse = Curve::mod_inv_n(&k).unwrap();
            assert_eq!(Curve::mul_mod_n(&inverse, &k), one());
        }
        if Curve::add_mod_p(&k, &ZERO) != ZERO {
            let inverse = Curve::mod_inv_p(&k).unwrap();
            assert_eq!(Curve::mul_mod_p(&inverse, &k), one());
        }
    }
}

#[test]
fn multiples_of_the_generator_survive_compression_and_add_in_either_order() {
    let mut values = Values(0x85ebca6b27d4eb2f);
    let mut previous: Option<(UncompressedPoint, [u8; 32])> = None;
    for _ in 0..40 {
        let k = Curve::add_mod_n(&values.next(), &ZERO);
        let p = Curve::mul_g(&k).unwrap();
        assert_eq!(p.compress().decompress(), p);
        assert_eq!(Curve::decompress(p.compress()), Ok(p));
        assert_eq!(Curve::lift_x(&p.x()).map(|lifted| lifted.x()), Ok(p.x()));
        if let Some((q, j)) = previous {
            assert_eq!(p + q, q + p);
            assert_eq!(p + q, Curve::mul_g(&Curve::add_mod_n(&k, &j)));
        }
        previous = Some((p, k));
    }
}
