use solana_secp256k1::{CompressedPoint, Curve, Secp256k1Error, Secp256k1Point, UncompressedPoint};

fn hex(digits: &str) -> Vec<u8> {
    let nibbles: Vec<u8> = digits
        .bytes()
        .map(|b| match b {
            b'0'..=b'9' => b - b'0',
            b'a'..=b'f' => b - b'a' + 10,
            _ => panic!("not a hex digit"),
        })
        .collect();
    assert!(nibbles.len() % 2 == 0);
    nibbles.chunks(2).map(|pair| pair[0] << 4 | pair[1]).collect()
}

fn point(digits: &str) -> UncompressedPoint {
    UncompressedPoint(hex(digits).try_into().unwrap())
}

#[test]
fn the_sum_of_two_points_is_the_third_point_of_their_chord_reflected() {
    assert_eq!(point("79be667ef9dcbbac55a06295ce870b07029bfcdb2dce28d959f2815b16f81798483ada7726a3c4655da4fbfc0e1108a8fd17b448a68554199c47d08ffb10d4b8") + point("c6047f9441ed7d6d3045406e95c07cd85c778e4b8cef3ca7abac09b95c709ee51ae168fea63dc339a3c58419466ceaeef7f632653266d0e1236431a950cfe52a"), Ok(point("f9308a019258c31049344f85f89d5229b531c845836f99b08601f113bce036f9388f7b0f632de8140fe337e62a37f3566500a99934c2231b6cb9fd7584b8e672")));
    assert_eq!(point("c6047f9441ed7d6d3045406e95c07cd85c778e4b8cef3ca7abac09b95c709ee51ae168fea63dc339a3c58419466ceaeef7f632653266d0e1236431a950cfe52a") + point("f9308a019258c31049344f85f89d5229b531c845836f99b08601f113bce036f9388f7b0f632de8140fe337e62a37f3566500a99934c2231b6cb9fd7584b8e672"), Ok(point("2f8bde4d1a07209355b4a7250a5c5128e88b84bddc619ab7cba8d569b240efe4d8ac222636e5e3d6d4dba9dda6c9c426f788271bab0d6840dca87d3aa6ac62d6")));
    assert_eq!(point("79be667ef9dcbbac55a06295ce870b07029bfcdb2dce28d959f2815b16f81798483ada7726a3c4655da4fbfc0e1108a8fd17b448a68554199c47d08ffb10d4b8") + point("84bf7562262bbd6940085748f3be6afa52ae317155181ece31b66351ccffa4b08cc43d63b2859d469fee15f31c9edb5324266e6fd0407e87382d60fc4511acd8"), Ok(point("613d823d9a2bc709361b0a8626558510023d93846265b37fa828ec2532eca0c13e84dae9d5bd7bab7cc705b21ad90db1083c392ee3b2482871206bb08334044d")));
    assert_eq!(point("84bf7562262bbd6940085748f3be6afa52ae317155181ece31b66351ccffa4b08cc43d63b2859d469fee15f31c9edb5324266e6fd0407e87382d60fc4511acd8") + point("2f8bde4d1a07209355b4a7250a5c5128e88b84bddc619ab7cba8d569b240efe4d8ac222636e5e3d6d4dba9dda6c9c426f788271bab0d6840dca87d3aa6ac62d6"), Ok(point("16987d4fd77e1ec6f73bdb70689ce108ce7e1059eec8e3fc84d8df6a958c0608fdd797c2915a046f87144242347741c65d6682d87ba875f2148051e6238a1f59")));
    assert_eq!(point("79be667ef9dcbbac55a06295ce870b07029bfcdb2dce28d959f2815b16f81798b7c52588d95c3b9aa25b0403f1eef75702e84bb7597aabe663b82f6f04ef2777") + point("84bf7562262bbd6940085748f3be6afa52ae317155181ece31b66351ccffa4b08cc43d63b2859d469fee15f31c9edb5324266e6fd0407e87382d60fc4511acd8"), Ok(point("40927552c2d54bbeeda0f199c2ee49f4605d8e7e3de10656c57c74941e45af915aee1e01d8296c248fd61f0ed8f5bb8517f89ffc7c6243e927fa9f5d9a74ee84")));
    assert_eq!(point("f9308a019258c31049344f85f89d5229b531c845836f99b08601f113bce036f9388f7b0f632de8140fe337e62a37f3566500a99934c2231b6cb9fd7584b8e672") + point("79be667ef9dcbbac55a06295ce870b07029bfcdb2dce28d959f2815b16f81798b7c52588d95c3b9aa25b0403f1eef75702e84bb7597aabe663b82f6f04ef2777"), Ok(point("c6047f9441ed7d6d3045406e95c07cd85c778e4b8cef3ca7abac09b95c709ee51ae168fea63dc339a3c58419466ceaeef7f632653266d0e1236431a950cfe52a")));
}

#[test]
fn the_sum_of_a_point_and_itself_is_its_double() {
    assert_eq!(point("79be667ef9dcbbac55a06295ce870b07029bfcdb2dce28d959f2815b16f81798483ada7726a3c4655da4fbfc0e1108a8fd17b448a68554199c47d08ffb10d4b8") + point("79be667ef9dcbbac55a06295ce870b07029bfcdb2dce28d959f2815b16f81798483ada7726a3c4655da4fbfc0e1108a8fd17b448a68554199c47d08ffb10d4b8"), Ok(point("c6047f9441ed7d6d3045406e95c07cd85c778e4b8cef3ca7abac09b95c709ee51ae168fea63dc339a3c58419466ceaeef7f632653266d0e1236431a950cfe52a")));
    assert_eq!(point("c6047f9441ed7d6d3045406e95c07cd85c778e4b8cef3ca7abac09b95c709ee51ae168fea63dc339a3c58419466ceaeef7f632653266d0e1236431a950cfe52a") + point("c6047f9441ed7d6d3045406e95c07cd85c778e4b8cef3ca7abac09b95c709ee51ae168fea63dc339a3c58419466ceaeef7f632653266d0e1236431a950cfe52a"), Ok(point("e493dbf1c10d80f3581e4904930b1404cc6c13900ee0758474fa94abe8c4cd1351ed993ea0d455b75642e2098ea51448d967ae33bfbdfe40cfe97bdc47739922")));
    assert_eq!(point("84bf7562262bbd6940085748f3be6afa52ae317155181ece31b66351ccffa4b08cc43d63b2859d469fee15f31c9edb5324266e6fd0407e87382d60fc4511acd8") + point("84bf7562262bbd6940085748f3be6afa52ae317155181ece31b66351ccffa4b08cc43d63b2859d469fee15f31c9edb5324266e6fd0407e87382d60fc4511acd8"), Ok(point("a6dcd46545ea65c04b5d2ac5112f38f921fba20c883163d14d369c7eaafb0c0717e161daffc9691ce858bd7f9d0c06913a252e829fc0866a42e08a96418221d2")));
    assert_eq!(point("84bf7562262bbd6940085748f3be6afa52ae317155181ece31b66351ccffa4b0733bc29c4d7a62b96011ea0ce36124acdbd991902fbf8178c7d29f02baee4f57") + point("84bf7562262bbd6940085748f3be6afa52ae317155181ece31b66351ccffa4b0733bc29c4d7a62b96011ea0ce36124acdbd991902fbf8178c7d29f02baee4f57"), Ok(point("a6dcd46545ea65c04b5d2ac5112f38f921fba20c883163d14d369c7eaafb0c07e81e9e25003696e317a7428062f3f96ec5dad17d603f7995bd1f7568be7dda5d")));
}

#[test]
fn a_point_and_its_reflection_have_no_sum() {
    assert_eq!(point("79be667ef9dcbbac55a06295ce870b07029bfcdb2dce28d959f2815b16f81798483ada7726a3c4655da4fbfc0e1108a8fd17b448a68554199c47d08ffb10d4b8") + point("79be667ef9dcbbac55a06295ce870b07029bfcdb2dce28d959f2815b16f81798b7c52588d95c3b9aa25b0403f1eef75702e84bb7597aabe663b82f6f04ef2777"), Err(Secp256k1Error::ArithmeticOverflow));
    assert_eq!(point("79be667ef9dcbbac55a06295ce870b07029bfcdb2dce28d959f2815b16f81798b7c52588d95c3b9aa25b0403f1eef75702e84bb7597aabe663b82f6f04ef2777") + point("79be667ef9dcbbac55a06295ce870b07029bfcdb2dce28d959f2815b16f81798483ada7726a3c4655da4fbfc0e1108a8fd17b448a68554199c47d08ffb10d4b8"), Err(Secp256k1Error::ArithmeticOverflow));
    assert_eq!(point("84bf7562262bbd6940085748f3be6afa52ae317155181ece31b66351ccffa4b08cc43d63b2859d469fee15f31c9edb5324266e6fd0407e87382d60fc4511acd8") + point("84bf7562262bbd6940085748f3be6afa52ae317155181ece31b66351ccffa4b0733bc29c4d7a62b96011ea0ce36124acdbd991902fbf8178c7d29f02baee4f57"), Err(Secp256k1Error::ArithmeticOverflow));
    assert_eq!(point("84bf7562262bbd6940085748f3be6afa52ae317155181ece31b66351ccffa4b0733bc29c4d7a62b96011ea0ce36124acdbd991902fbf8178c7d29f02baee4f57") + point("84bf7562262bbd6940085748f3be6afa52ae317155181ece31b66351ccffa4b08cc43d63b2859d469fee15f31c9edb5324266e6fd0407e87382d60fc4511acd8"), Err(Secp256k1Error::ArithmeticOverflow));
    assert_eq!(point("79be667ef9dcbbac55a06295ce870b07029bfcdb2dce28d959f2815b16f817980000000000000000000000000000000000000000000000000000000000000001") + point("79be667ef9dcbbac55a06295ce870b07029bfcdb2dce28d959f2815b16f817980000000000000000000000000000000000000000000000000000000000000002"), Err(Secp256k1Error::ArithmeticOverflow));
    assert_eq!(point("00000000000000000000000000000000000000000000000000000000000000010000000000000000000000000000000000000000000000000000000000000000") + point("00000000000000000000000000000000000000000000000000000000000000010000000000000000000000000000000000000000000000000000000000000000"), Err(Secp256k1Error::ArithmeticOverflow));
    assert_eq!(point("00000000000000000000000000000000000000000000000000000000000000010000000000000000000000000000000000000000000000000000000000000002") + point("fffffffffffffffffffffffffffffffffffffffffffffffffffffffefffffc300000000000000000000000000000000000000000000000000000000000000002"), Err(Secp256k1Error::ArithmeticOverflow));
}

#[test]
fn the_sum_does_not_depend_on_the_order() {
    let points = [
        point("79be667ef9dcbbac55a06295ce870b07029bfcdb2dce28d959f2815b16f81798483ada7726a3c4655da4fbfc0e1108a8fd17b448a68554199c47d08ffb10d4b8"),
        point("c6047f9441ed7d6d3045406e95c07cd85c778e4b8cef3ca7abac09b95c709ee51ae168fea63dc339a3c58419466ceaeef7f632653266d0e1236431a950cfe52a"),
        point("f9308a019258c31049344f85f89d5229b531c845836f99b08601f113bce036f9388f7b0f632de8140fe337e62a37f3566500a99934c2231b6cb9fd7584b8e672"),
        point("84bf7562262bbd6940085748f3be6afa52ae317155181ece31b66351ccffa4b08cc43d63b2859d469fee15f31c9edb5324266e6fd0407e87382d60fc4511acd8"),
        point("2f8bde4d1a07209355b4a7250a5c5128e88b84bddc619ab7cba8d569b240efe42753ddd9c91a1c292b24562259363bd90877d8e454f297bf235782c459539959"),
    ];
    for p in points {
        for q in points {
            assert_eq!(p + q, q + p);
        }
    }
}

#[test]
fn sums_that_stay_away_from_infinity_associate() {
    let points = [
        point("79be667ef9dcbbac55a06295ce870b07029bfcdb2dce28d959f2815b16f81798483ada7726a3c4655da4fbfc0e1108a8fd17b448a68554199c47d08ffb10d4b8"),
        point("c6047f9441ed7d6d3045406e95c07cd85c778e4b8cef3ca7abac09b95c709ee51ae168fea63dc339a3c58419466ceaeef7f632653266d0e1236431a950cfe52a"),
        point("84bf7562262bbd6940085748f3be6afa52ae317155181ece31b66351ccffa4b08cc43d63b2859d469fee15f31c9edb5324266e6fd0407e87382d60fc4511acd8"),
        point("2f8bde4d1a07209355b4a7250a5c5128e88b84bddc619ab7cba8d569b240efe42753ddd9c91a1c292b24562259363bd90877d8e454f297bf235782c459539959"),
        point("5cbdf0646e5db4eaa398f365f2ea7a0e3d419b7e0330e39ce92bddedcac4f9bc6aebca40ba255960a3178d6d861a54dba813d0b813fde7b5a5082628087264da"),
    ];
    for p in points {
        for q in points {
            for r in points {
                let left = (p + q).and_then(|s| s + r);
                let right = (q + r).and_then(|s| p + s);
                if let (Ok(left), Ok(right)) = (left, right) {
                    assert_eq!(left, right);
                }
            }
        }
    }
}

#[test]
fn compressed_points_are_decompressed_before_they_are_added() {
    let p = point("f9308a019258c31049344f85f89d5229b531c845836f99b08601f113bce036f9388f7b0f632de8140fe337e62a37f3566500a99934c2231b6cb9fd7584b8e672");
    let q = point("2f8bde4d1a07209355b4a7250a5c5128e88b84bddc619ab7cba8d569b240efe4d8ac222636e5e3d6d4dba9dda6c9c426f788271bab0d6840dca87d3aa6ac62d6");
    let sum = point("2f01e5e15cca351daff3843fb70f3c2f0a1bdd05e5af888a67784ef3e10a2a015c4da8a741539949293d082a132d13b4c2e213d6ba5b7617b5da2cb76cbde904");
    assert_eq!(p + q.compress(), Ok(sum));
    assert_eq!(p.compress() + q, Ok(sum));
    assert_eq!(p.compress() + q.compress(), Ok(sum));
    assert_eq!(p.compress() + p.compress(), p + p);
    let mirrored: CompressedPoint = {
        let mut c = p.compress();
        c.invert();
        c
    };
    assert_eq!(p + mirrored, Err(Secp256k1Error::ArithmeticOverflow));
}

#[test]
fn coordinates_above_the_prime_are_reduced_before_they_are_added() {
    let p = point("fffffffffffffffffffffffffffffffffffffffffffffffffffffffefffffc304218f20ae6c646b363db68605822fb14264ca8d2587fdd6fbc750d587e76a7ee");
    let q = point("79be667ef9dcbbac55a06295ce870b07029bfcdb2dce28d959f2815b16f81798483ada7726a3c4655da4fbfc0e1108a8fd17b448a68554199c47d08ffb10d4b8");
    let expected = point("57d783579d03d9ab67a8aa7ad9b75a66ebca4ebce1b5be71442db1307f9146a8cb8c57e165f15f29f01c75ece82067f4c143dbf34b10ec35bf26ea094de1c600");
    assert_eq!(p + q, Ok(expected));
    assert_eq!(q + p, Ok(expected));
}

#[test]
fn the_sum_of_two_points_of_the_curve_is_on_the_curve() {
    let seven = {
        let mut k = [0u8; 32];
        k[31] = 7;
        k
    };
    let points = [
        point("79be667ef9dcbbac55a06295ce870b07029bfcdb2dce28d959f2815b16f81798483ada7726a3c4655da4fbfc0e1108a8fd17b448a68554199c47d08ffb10d4b8"),
        point("c6047f9441ed7d6d3045406e95c07cd85c778e4b8cef3ca7abac09b95c709ee51ae168fea63dc339a3c58419466ceaeef7f632653266d0e1236431a950cfe52a"),
        point("84bf7562262bbd6940085748f3be6afa52ae317155181ece31b66351ccffa4b08cc43d63b2859d469fee15f31c9edb5324266e6fd0407e87382d60fc4511acd8"),
        point("2f8bde4d1a07209355b4a7250a5c5128e88b84bddc619ab7cba8d569b240efe42753ddd9c91a1c292b24562259363bd90877d8e454f297bf235782c459539959"),
        point("5cbdf0646e5db4eaa398f365f2ea7a0e3d419b7e0330e39ce92bddedcac4f9bc6aebca40ba255960a3178d6d861a54dba813d0b813fde7b5a5082628087264da"),
    ];
    for p in points {
        for q in points {
            if let Ok(s) = p + q {
                let x = s.x();
                let y = s.y();
                let cube = Curve::mul_mod_p(&Curve::mul_mod_p(&x, &x), &x);
                assert_eq!(Curve::mul_mod_p(&y, &y), Curve::add_mod_p(&cube, &seven));
                assert_eq!(Curve::lift_x(&x).map(|lifted| lifted.x()), Ok(x));
            }
        }
    }
}

#[test]
fn the_sum_of_multiples_is_the_multiple_of_the_sum() {
    let g = Curve::generator();
    let two = Curve::mul_g(&{
        let mut k = [0u8; 32];
        k[31] = 2;
        k
    })
    .unwrap();
    let three = Curve::mul_g(&{
        let mut k = [0u8; 32];
        k[31] = 3;
        k
    })
    .unwrap();
    assert_eq!(g + two, Ok(three));
    assert_eq!(g + g, Ok(two));
}
