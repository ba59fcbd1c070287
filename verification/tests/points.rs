use solana_secp256k1::bytes::{bytes_equal, copy_range32, join64, left_pad32, widen32};
use solana_secp256k1::hex::to_hex_upper;
use solana_secp256k1::reflect::reflect32;
use solana_secp256k1::{
    CompressedPoint, Curve, Secp256k1Error, Secp256k1Point, UncompressedPoint,
    SEC1_OCTET_COMPRESSED_EVEN, SEC1_OCTET_COMPRESSED_ODD, SEC1_OCTET_UNCOMPRESSED,
};

fn hex(digits: &str) -> Vec<u8> {
    let nibbles: Vec<u8> = digits
        .bytes()
        .map(|b| match b {
            b'0'..=b'9' => b - b'0',
            b'a'..=b'f' => b - b'a' + 10,
            _ => panic!("not a hex digit"),
        })
        .collect();
    assert!(nibbles.len() % 2 == 0);
    nibbles.chunks(2).map(|pair| pair[0] << 4 | pair[1]).collect()
}

fn be(digits: &str) -> [u8; 32] {
    hex(digits).try_into().unwrap()
}

fn point(digits: &str) -> UncompressedPoint {
    UncompressedPoint(hex(digits).try_into().unwrap())
}

fn compressed(digits: &str) -> CompressedPoint {
    CompressedPoint(hex(digits).try_into().unwrap())
}

#[test]
fn the_sizes_and_tags_are_those_of_the_wire_format() {
    assert_eq!(<UncompressedPoint as Secp256k1Point>::SIZE, 64);
    assert_eq!(<CompressedPoint as Secp256k1Point>::SIZE, 33);
    assert_eq!(SEC1_OCTET_COMPRESSED_EVEN, 0x02);
    assert_eq!(SEC1_OCTET_COMPRESSED_ODD, 0x03);
    assert_eq!(SEC1_OCTET_UNCOMPRESSED, 0x04);
}

#[test]
fn an_uncompressed_point_gives_its_coordinates_and_parity() {
    let p = point("79be667ef9dcbbac55a06295ce870b07029bfcdb2dce28d959f2815b16f81798483ada7726a3c4655da4fbfc0e1108a8fd17b448a68554199c47d08ffb10d4b8");
    assert_eq!(p.x(), be("79be667ef9dcbbac55a06295ce870b07029bfcdb2dce28d959f2815b16f81798"));
    assert_eq!(p.y(), be("483ada7726a3c4655da4fbfc0e1108a8fd17b448a68554199c47d08ffb10d4b8"));
    assert_eq!(p.is_odd(), false);
    assert_eq!(p.is_even(), true);
    let p = point("c6047f9441ed7d6d3045406e95c07cd85c778e4b8cef3ca7abac09b95c709ee51ae168fea63dc339a3c58419466ceaeef7f632653266d0e1236431a950cfe52a");
    assert_eq!(p.x(), be("c6047f9441ed7d6d3045406e95c07cd85c778e4b8cef3ca7abac09b95c709ee5"));
    assert_eq!(p.y(), be("1ae168fea63dc339a3c58419466ceaeef7f632653266d0e1236431a950cfe52a"));
    assert_eq!(p.is_odd(), false);
    assert_eq!(p.is_even(), true);
    let p = point("f9308a019258c31049344f85f89d5229b531c845836f99b08601f113bce036f9388f7b0f632de8140fe337e62a37f3566500a99934c2231b6cb9fd7584b8e672");
    assert_eq!(p.x(), be("f9308a019258c31049344f85f89d5229b531c845836f99b08601f113bce036f9"));
    assert_eq!(p.y(), be("388f7b0f632de8140fe337e62a37f3566500a99934c2231b6cb9fd7584b8e672"));
    assert_eq!(p.is_odd(), false);
    assert_eq!(p.is_even(), true);
    let p = point("2f8bde4d1a07209355b4a7250a5c5128e88b84bddc619ab7cba8d569b240efe4d8ac222636e5e3d6d4dba9dda6c9c426f788271bab0d6840dca87d3aa6ac62d6");
    assert_eq!(p.x(), be("2f8bde4d1a07209355b4a7250a5c5128e88b84bddc619ab7cba8d569b240efe4"));
    assert_eq!(p.y(), be("d8ac222636e5e3d6d4dba9dda6c9c426f788271bab0d6840dca87d3aa6ac62d6"));
    assert_eq!(p.is_odd(), false);
    assert_eq!(p.is_even(), true);
    let p = point("84bf7562262bbd6940085748f3be6afa52ae317155181ece31b66351ccffa4b08cc43d63b2859d469fee15f31c9edb5324266e6fd0407e87382d60fc4511acd8");
    assert_eq!(p.x(), be("84bf7562262bbd6940085748f3be6afa52ae317155181ece31b66351ccffa4b0"));
    assert_eq!(p.y(), be("8cc43d63b2859d469fee15f31c9edb5324266e6fd0407e87382d60fc4511acd8"));
    assert_eq!(p.is_odd(), false);
    assert_eq!(p.is_even(), true);
    let p = point("79be667ef9dcbbac55a06295ce870b07029bfcdb2dce28d959f2815b16f81798b7c52588d95c3b9aa25b0403f1eef75702e84bb7597aabe663b82f6f04ef2777");
    assert_eq!(p.x(), be("79be667ef9dcbbac55a06295ce870b07029bfcdb2dce28d959f2815b16f81798"));
    assert_eq!(p.y(), be("b7c52588d95c3b9aa25b0403f1eef75702e84bb7597aabe663b82f6f04ef2777"));
    assert_eq!(p.is_odd(), true);
    assert_eq!(p.is_even(), false);
    let p = point("84bf7562262bbd6940085748f3be6afa52ae317155181ece31b66351ccffa4b0733bc29c4d7a62b96011ea0ce36124acdbd991902fbf8178c7d29f02baee4f57");
    assert_eq!(p.x(), be("84bf7562262bbd6940085748f3be6afa52ae317155181ece31b66351ccffa4b0"));
    assert_eq!(p.y(), be("733bc29c4d7a62b96011ea0ce36124acdbd991902fbf8178c7d29f02baee4f57"));
    assert_eq!(p.is_odd(), true);
    assert_eq!(p.is_even(), false);
}

#[test]
fn a_compressed_point_gives_its_coordinates_and_parity() {
    let c = compressed("0279be667ef9dcbbac55a06295ce870b07029bfcdb2dce28d959f2815b16f81798");
    assert_eq!(c.x(), be("79be667ef9dcbbac55a06295ce870b07029bfcdb2dce28d959f2815b16f81798"));
    assert_eq!(c.y(), be("483ada7726a3c4655da4fbfc0e1108a8fd17b448a68554199c47d08ffb10d4b8"));
    assert_eq!(c.is_odd(), false);
    assert_eq!(c.is_even(), true);
    let c = compressed("02c6047f9441ed7d6d3045406e95c07cd85c778e4b8cef3ca7abac09b95c709ee5");
    assert_eq!(c.x(), be("c6047f9441ed7d6d3045406e95c07cd85c778e4b8cef3ca7abac09b95c709ee5"));
    assert_eq!(c.y(), be("1ae168fea63dc339a3c58419466ceaeef7f632653266d0e1236431a950cfe52a"));
    assert_eq!(c.is_odd(), false);
    assert_eq!(c.is_even(), true);
    let c = compressed("02f9308a019258c31049344f85f89d5229b531c845836f99b08601f113bce036f9");
    assert_eq!(c.x(), be("f9308a019258c31049344f85f89d5229b531c845836f99b08601f113bce036f9"));
    assert_eq!(c.y(), be("388f7b0f632de8140fe337e62a37f3566500a99934c2231b6cb9fd7584b8e672"));
    assert_eq!(c.is_odd(), false);
    assert_eq!(c.is_even(), true);
    let c = compressed("022f8bde4d1a07209355b4a7250a5c5128e88b84bddc619ab7cba8d569b240efe4");
    assert_eq!(c.x(), be("2f8bde4d1a07209355b4a7250a5c5128e88b84bddc619ab7cba8d569b240efe4"));
    assert_eq!(c.y(), be("d8ac222636e5e3d6d4dba9dda6c9c426f788271bab0d6840dca87d3aa6ac62d6"));
    assert_eq!(c.is_odd(), false);
    assert_eq!(c.is_even(), true);
    let c = compressed("0284bf7562262bbd6940085748f3be6afa52ae317155181ece31b66351ccffa4b0");
    assert_eq!(c.x(), be("84bf7562262bbd6940085748f3be6afa52ae317155181ece31b66351ccffa4b0"));
    assert_eq!(c.y(), be("8cc43d63b2859d469fee15f31c9edb5324266e6fd0407e87382d60fc4511acd8"));
    assert_eq!(c.is_odd(), false);
    assert_eq!(c.is_even(), true);
    let c = compressed("0379be667ef9dcbbac55a06295ce870b07029bfcdb2dce28d959f2815b16f81798");
    assert_eq!(c.x(), be("79be667ef9dcbbac55a06295ce870b07029bfcdb2dce28d959f2815b16f81798"));
    assert_eq!(c.y(), be("b7c52588d95c3b9aa25b0403f1eef75702e84bb7597aabe663b82f6f04ef2777"));
    assert_eq!(c.is_odd(), true);
    assert_eq!(c.is_even(), false);
    let c = compressed("0384bf7562262bbd6940085748f3be6afa52ae317155181ece31b66351ccffa4b0");
    assert_eq!(c.x(), be("84bf7562262bbd6940085748f3be6afa52ae317155181ece31b66351ccffa4b0"));
    assert_eq!(c.y(), be("733bc29c4d7a62b96011ea0ce36124acdbd991902fbf8178c7d29f02baee4f57"));
    assert_eq!(c.is_odd(), true);
    assert_eq!(c.is_even(), false);
}

#[test]
fn a_malformed_tag_is_neither_odd_nor_even() {
    let mut c = compressed("0279be667ef9dcbbac55a06295ce870b07029bfcdb2dce28d959f2815b16f81798");
    c.0[0] = 0x04;
    assert!(!c.is_odd());
    assert!(!c.is_even());
    c.invert();
    assert_eq!(c.0[0], 0x02);
}

#[test]
fn compressing_keeps_x_and_the_parity_of_y() {
    assert_eq!(point("79be667ef9dcbbac55a06295ce870b07029bfcdb2dce28d959f2815b16f81798483ada7726a3c4655da4fbfc0e1108a8fd17b448a68554199c47d08ffb10d4b8").compress(), compressed("0279be667ef9dcbbac55a06295ce870b07029bfcdb2dce28d959f2815b16f81798"));
    assert_eq!(CompressedPoint::from(point("79be667ef9dcbbac55a06295ce870b07029bfcdb2dce28d959f2815b16f81798483ada7726a3c4655da4fbfc0e1108a8fd17b448a68554199c47d08ffb10d4b8")), compressed("0279be667ef9dcbbac55a06295ce870b07029bfcdb2dce28d959f2815b16f81798"));
    assert_eq!(compressed("0279be667ef9dcbbac55a06295ce870b07029bfcdb2dce28d959f2815b16f81798").compress(), compressed("0279be667ef9dcbbac55a06295ce870b07029bfcdb2dce28d959f2815b16f81798"));
    assert_eq!(point("c6047f9441ed7d6d3045406e95c07cd85c778e4b8cef3ca7abac09b95c709ee51ae168fea63dc339a3c58419466ceaeef7f632653266d0e1236431a950cfe52a").compress(), compressed("02c6047f9441ed7d6d3045406e95c07cd85c778e4b8cef3ca7abac09b95c709ee5"));
    assert_eq!(CompressedPoint::from(point("c6047f9441ed7d6d3045406e95c07cd85c778e4b8cef3ca7abac09b95c709ee51ae168fea63dc339a3c58419466ceaeef7f632653266d0e1236431a950cfe52a")), compressed("02c6047f9441ed7d6d3045406e95c07cd85c778e4b8cef3ca7abac09b95c709ee5"));
    assert_eq!(compressed("02c6047f9441ed7d6d3045406e95c07cd85c778e4b8cef3ca7abac09b95c709ee5").compress(), compressed("02c6047f9441ed7d6d3045406e95c07cd85c778e4b8cef3ca7abac09b95c709ee5"));
    assert_eq!(point("f9308a019258c31049344f85f89d5229b531c845836f99b08601f113bce036f9388f7b0f632de8140fe337e62a37f3566500a99934c2231b6cb9fd7584b8e672").compress(), compressed("02f9308a019258c31049344f85f89d5229b531c845836f99b08601f113bce036f9"));
    assert_eq!(CompressedPoint::from(point("f9308a019258c31049344f85f89d5229b531c845836f99b08601f113bce036f9388f7b0f632de8140fe337e62a37f3566500a99934c2231b6cb9fd7584b8e672")), compressed("02f9308a019258c31049344f85f89d5229b531c845836f99b08601f113bce036f9"));
    assert_eq!(compressed("02f9308a019258c31049344f85f89d5229b531c845836f99b08601f113bce036f9").compress(), compressed("02f9308a019258c31049344f85f89d5229b531c845836f99b08601f113bce036f9"));
    assert_eq!(point("2f8bde4d1a07209355b4a7250a5c5128e88b84bddc619ab7cba8d569b240efe4d8ac222636e5e3d6d4dba9dda6c9c426f788271bab0d6840dca87d3aa6ac62d6").compress(), compressed("022f8bde4d1a07209355b4a7250a5c5128e88b84bddc619ab7cba8d569b240efe4"));
    assert_eq!(CompressedPoint::from(point("2f8bde4d1a07209355b4a7250a5c5128e88b84bddc619ab7cba8d569b240efe4d8ac222636e5e3d6d4dba9dda6c9c426f788271bab0d6840dca87d3aa6ac62d6")), compressed("022f8bde4d1a07209355b4a7250a5c5128e88b84bddc619ab7cba8d569b240efe4"));
    assert_eq!(compressed("022f8bde4d1a07209355b4a7250a5c5128e88b84bddc619ab7cba8d569b240efe4").compress(), compressed("022f8bde4d1a07209355b4a7250a5c5128e88b84bddc619ab7cba8d569b240efe4"));
    assert_eq!(point("84bf7562262bbd6940085748f3be6afa52ae317155181ece31b66351ccffa4b08cc43d63b2859d469fee15f31c9edb5324266e6fd0407e87382d60fc4511acd8").compress(), compressed("0284bf7562262bbd6940085748f3be6afa52ae317155181ece31b66351ccffa4b0"));
    assert_eq!(CompressedPoint::from(point("84bf7562262bbd6940085748f3be6afa52ae317155181ece31b66351ccffa4b08cc43d63b2859d469fee15f31c9edb5324266e6fd0407e87382d60fc4511acd8")), compressed("0284bf7562262bbd6940085748f3be6afa52ae317155181ece31b66351ccffa4b0"));
    assert_eq!(compressed("0284bf7562262bbd6940085748f3be6afa52ae317155181ece31b66351ccffa4b0").compress(), compressed("0284bf7562262bbd6940085748f3be6afa52ae317155181ece31b66351ccffa4b0"));
    assert_eq!(point("c6047f9441ed7d6d3045406e95c07cd85c778e4b8cef3ca7abac09b95c709ee5e51e970159c23cc65c3a7be6b99315110809cd9acd992f1edc9bce55af301705").compress(), compressed("03c6047f9441ed7d6d3045406e95c07cd85c778e4b8cef3ca7abac09b95c709ee5"));
    assert_eq!(CompressedPoint::from(point("c6047f9441ed7d6d3045406e95c07cd85c778e4b8cef3ca7abac09b95c709ee5e51e970159c23cc65c3a7be6b99315110809cd9acd992f1edc9bce55af301705")), compressed("03c6047f9441ed7d6d3045406e95c07cd85c778e4b8cef3ca7abac09b95c709ee5"));
    assert_eq!(compressed("03c6047f9441ed7d6d3045406e95c07cd85c778e4b8cef3ca7abac09b95c709ee5").compress(), compressed("03c6047f9441ed7d6d3045406e95c07cd85c778e4b8cef3ca7abac09b95c709ee5"));
}

#[test]
fn decompressing_finds_the_y_with_the_parity_of_the_tag() {
    assert_eq!(compressed("0279be667ef9dcbbac55a06295ce870b07029bfcdb2dce28d959f2815b16f81798").decompress(), point("79be667ef9dcbbac55a06295ce870b07029bfcdb2dce28d959f2815b16f81798483ada7726a3c4655da4fbfc0e1108a8fd17b448a68554199c47d08ffb10d4b8"));
    assert_eq!(Curve::decompress_unchecked(compressed("0279be667ef9dcbbac55a06295ce870b07029bfcdb2dce28d959f2815b16f81798")), point("79be667ef9dcbbac55a06295ce870b07029bfcdb2dce28d959f2815b16f81798483ada7726a3c4655da4fbfc0e1108a8fd17b448a68554199c47d08ffb10d4b8"));
    assert_eq!(Curve::decompress(compressed("0279be667ef9dcbbac55a06295ce870b07029bfcdb2dce28d959f2815b16f81798")), Ok(point("79be667ef9dcbbac55a06295ce870b07029bfcdb2dce28d959f2815b16f81798483ada7726a3c4655da4fbfc0e1108a8fd17b448a68554199c47d08ffb10d4b8")));
    assert_eq!(UncompressedPoint::try_from(compressed("0279be667ef9dcbbac55a06295ce870b07029bfcdb2dce28d959f2815b16f81798")), Ok(point("79be667ef9dcbbac55a06295ce870b07029bfcdb2dce28d959f2815b16f81798483ada7726a3c4655da4fbfc0e1108a8fd17b448a68554199c47d08ffb10d4b8")));
    assert_eq!(point("79be667ef9dcbbac55a06295ce870b07029bfcdb2dce28d959f2815b16f81798483ada7726a3c4655da4fbfc0e1108a8fd17b448a68554199c47d08ffb10d4b8").decompress(), point("79be667ef9dcbbac55a06295ce870b07029bfcdb2dce28d959f2815b16f81798483ada7726a3c4655da4fbfc0e1108a8fd17b448a68554199c47d08ffb10d4b8"));
    assert_eq!(compressed("02c6047f9441ed7d6d3045406e95c07cd85c778e4b8cef3ca7abac09b95c709ee5").decompress(), point("c6047f9441ed7d6d3045406e95c07cd85c778e4b8cef3ca7abac09b95c709ee51ae168fea63dc339a3c58419466ceaeef7f632653266d0e1236431a950cfe52a"));
    assert_eq!(Curve::decompress_unchecked(compressed("02c6047f9441ed7d6d3045406e95c07cd85c778e4b8cef3ca7abac09b95c709ee5")), point("c6047f9441ed7d6d3045406e95c07cd85c778e4b8cef3ca7abac09b95c709ee51ae168fea63dc339a3c58419466ceaeef7f632653266d0e1236431a950cfe52a"));
    assert_eq!(Curve::decompress(compressed("02c6047f9441ed7d6d3045406e95c07cd85c778e4b8cef3ca7abac09b95c709ee5")), Ok(point("c6047f9441ed7d6d3045406e95c07cd85c778e4b8cef3ca7abac09b95c709ee51ae168fea63dc339a3c58419466ceaeef7f632653266d0e1236431a950cfe52a")));
    assert_eq!(UncompressedPoint::try_from(compressed("02c6047f9441ed7d6d3045406e95c07cd85c778e4b8cef3ca7abac09b95c709ee5")), Ok(point("c6047f9441ed7d6d3045406e95c07cd85c778e4b8cef3ca7abac09b95c709ee51ae168fea63dc339a3c58419466ceaeef7f632653266d0e1236431a950cfe52a")));
    assert_eq!(point("c6047f9441ed7d6d3045406e95c07cd85c778e4b8cef3ca7abac09b95c709ee51ae168fea63dc339a3c58419466ceaeef7f632653266d0e1236431a950cfe52a").decompress(), point("c6047f9441ed7d6d3045406e95c07cd85c778e4b8cef3ca7abac09b95c709ee51ae168fea63dc339a3c58419466ceaeef7f632653266d0e1236431a950cfe52a"));
    assert_eq!(compressed("02f9308a019258c31049344f85f89d5229b531c845836f99b08601f113bce036f9").decompress(), point("f9308a019258c31049344f85f89d5229b531c845836f99b08601f113bce036f9388f7b0f632de8140fe337e62a37f3566500a99934c2231b6cb9fd7584b8e672"));
    assert_eq!(Curve::decompress_unchecked(compressed("02f9308a019258c31049344f85f89d5229b531c845836f99b08601f113bce036f9")), point("f9308a019258c31049344f85f89d5229b531c845836f99b08601f113bce036f9388f7b0f632de8140fe337e62a37f3566500a99934c2231b6cb9fd7584b8e672"));
    assert_eq!(Curve::decompress(compressed("02f9308a019258c31049344f85f89d5229b531c845836f99b08601f113bce036f9")), Ok(point("f9308a019258c31049344f85f89d5229b531c845836f99b08601f113bce036f9388f7b0f632de8140fe337e62a37f3566500a99934c2231b6cb9fd7584b8e672")));
    assert_eq!(UncompressedPoint::try_from(compressed("02f9308a019258c31049344f85f89d5229b531c845836f99b08601f113bce036f9")), Ok(point("f9308a019258c31049344f85f89d5229b531c845836f99b08601f113bce036f9388f7b0f632de8140fe337e62a37f3566500a99934c2231b6cb9fd7584b8e672")));
    assert_eq!(point("f9308a019258c31049344f85f89d5229b531c845836f99b08601f113bce036f9388f7b0f632de8140fe337e62a37f3566500a99934c2231b6cb9fd7584b8e672").decompress(), point("f9308a019258c31049344f85f89d5229b531c845836f99b08601f113bce036f9388f7b0f632de8140fe337e62a37f3566500a99934c2231b6cb9fd7584b8e672"));
    assert_eq!(compressed("022f8bde4d1a07209355b4a7250a5c5128e88b84bddc619ab7cba8d569b240efe4").decompress(), point("2f8bde4d1a07209355b4a7250a5c5128e88b84bddc619ab7cba8d569b240efe4d8ac222636e5e3d6d4dba9dda6c9c426f788271bab0d6840dca87d3aa6ac62d6"));
    assert_eq!(Curve::decompress_unchecked(compressed("022f8bde4d1a07209355b4a7250a5c5128e88b84bddc619ab7cba8d569b240efe4")), point("2f8bde4d1a07209355b4a7250a5c5128e88b84bddc619ab7cba8d569b240efe4d8ac222636e5e3d6d4dba9dda6c9c426f788271bab0d6840dca87d3aa6ac62d6"));
    assert_eq!(Curve::decompress(compressed("022f8bde4d1a07209355b4a7250a5c5128e88b84bddc619ab7cba8d569b240efe4")), Ok(point("2f8bde4d1a07209355b4a7250a5c5128e88b84bddc619ab7cba8d569b240efe4d8ac222636e5e3d6d4dba9dda6c9c426f788271bab0d6840dca87d3aa6ac62d6")));
    assert_eq!(UncompressedPoint::try_from(compressed("022f8bde4d1a07209355b4a7250a5c5128e88b84bddc619ab7cba8d569b240efe4")), Ok(point("2f8bde4d1a07209355b4a7250a5c5128e88b84bddc619ab7cba8d569b240efe4d8ac222636e5e3d6d4dba9dda6c9c426f788271bab0d6840dca87d3aa6ac62d6")));
    assert_eq!(point("2f8bde4d1a07209355b4a7250a5c5128e88b84bddc619ab7cba8d569b240efe4d8ac222636e5e3d6d4dba9dda6c9c426f788271bab0d6840dca87d3aa6ac62d6").decompress(), point("2f8bde4d1a07209355b4a7250a5c5128e88b84bddc619ab7cba8d569b240efe4d8ac222636e5e3d6d4dba9dda6c9c426f788271bab0d6840dca87d3aa6ac62d6"));
    assert_eq!(compressed("0284bf7562262bbd6940085748f3be6afa52ae317155181ece31b66351ccffa4b0").decompress(), point("84bf7562262bbd6940085748f3be6afa52ae317155181ece31b66351ccffa4b08cc43d63b2859d469fee15f31c9edb5324266e6fd0407e87382d60fc4511acd8"));
    assert_eq!(Curve::decompress_unchecked(compressed("0284bf7562262bbd6940085748f3be6afa52ae317155181ece31b66351ccffa4b0")), point("84bf7562262bbd6940085748f3be6afa52ae317155181ece31b66351ccffa4b08cc43d63b2859d469fee15f31c9edb5324266e6fd0407e87382d60fc4511acd8"));
    assert_eq!(Curve::decompress(compressed("0284bf7562262bbd6940085748f3be6afa52ae317155181ece31b66351ccffa4b0")), Ok(point("84bf7562262bbd6940085748f3be6afa52ae317155181ece31b66351ccffa4b08cc43d63b2859d469fee15f31c9edb5324266e6fd0407e87382d60fc4511acd8")));
    assert_eq!(UncompressedPoint::try_from(compressed("0284bf7562262bbd6940085748f3be6afa52ae317155181ece31b66351ccffa4b0")), Ok(point("84bf7562262bbd6940085748f3be6afa52ae317155181ece31b66351ccffa4b08cc43d63b2859d469fee15f31c9edb5324266e6fd0407e87382d60fc4511acd8")));
    assert_eq!(point("84bf7562262bbd6940085748f3be6afa52ae317155181ece31b66351ccffa4b08cc43d63b2859d469fee15f31c9edb5324266e6fd0407e87382d60fc4511acd8").decompress(), point("84bf7562262bbd6940085748f3be6afa52ae317155181ece31b66351ccffa4b08cc43d63b2859d469fee15f31c9edb5324266e6fd0407e87382d60fc4511acd8"));
    assert_eq!(compressed("03c6047f9441ed7d6d3045406e95c07cd85c778e4b8cef3ca7abac09b95c709ee5").decompress(), point("c6047f9441ed7d6d3045406e95c07cd85c778e4b8cef3ca7abac09b95c709ee5e51e970159c23cc65c3a7be6b99315110809cd9acd992f1edc9bce55af301705"));
    assert_eq!(Curve::decompress_unchecked(compressed("03c6047f9441ed7d6d3045406e95c07cd85c778e4b8cef3ca7abac09b95c709ee5")), point("c6047f9441ed7d6d3045406e95c07cd85c778e4b8cef3ca7abac09b95c709ee5e51e970159c23cc65c3a7be6b99315110809cd9acd992f1edc9bce55af301705"));
    assert_eq!(Curve::decompress(compressed("03c6047f9441ed7d6d3045406e95c07cd85c778e4b8cef3ca7abac09b95c709ee5")), Ok(point("c6047f9441ed7d6d3045406e95c07cd85c778e4b8cef3ca7abac09b95c709ee5e51e970159c23cc65c3a7be6b99315110809cd9acd992f1edc9bce55af301705")));
    assert_eq!(UncompressedPoint::try_from(compressed("03c6047f9441ed7d6d3045406e95c07cd85c778e4b8cef3ca7abac09b95c709ee5")), Ok(point("c6047f9441ed7d6d3045406e95c07cd85c778e4b8cef3ca7abac09b95c709ee5e51e970159c23cc65c3a7be6b99315110809cd9acd992f1edc9bce55af301705")));
    assert_eq!(point("c6047f9441ed7d6d3045406e95c07cd85c778e4b8cef3ca7abac09b95c709ee5e51e970159c23cc65c3a7be6b99315110809cd9acd992f1edc9bce55af301705").decompress(), point("c6047f9441ed7d6d3045406e95c07cd85c778e4b8cef3ca7abac09b95c709ee5e51e970159c23cc65c3a7be6b99315110809cd9acd992f1edc9bce55af301705"));
    assert_eq!(compressed("0384bf7562262bbd6940085748f3be6afa52ae317155181ece31b66351ccffa4b0").decompress(), point("84bf7562262bbd6940085748f3be6afa52ae317155181ece31b66351ccffa4b0733bc29c4d7a62b96011ea0ce36124acdbd991902fbf8178c7d29f02baee4f57"));
    assert_eq!(Curve::decompress_unchecked(compressed("0384bf7562262bbd6940085748f3be6afa52ae317155181ece31b66351ccffa4b0")), point("84bf7562262bbd6940085748f3be6afa52ae317155181ece31b66351ccffa4b0733bc29c4d7a62b96011ea0ce36124acdbd991902fbf8178c7d29f02baee4f57"));
    assert_eq!(Curve::decompress(compressed("0384bf7562262bbd6940085748f3be6afa52ae317155181ece31b66351ccffa4b0")), Ok(point("84bf7562262bbd6940085748f3be6afa52ae317155181ece31b66351ccffa4b0733bc29c4d7a62b96011ea0ce36124acdbd991902fbf8178c7d29f02baee4f57")));
    assert_eq!(UncompressedPoint::try_from(compressed("0384bf7562262bbd6940085748f3be6afa52ae317155181ece31b66351ccffa4b0")), Ok(point("84bf7562262bbd6940085748f3be6afa52ae317155181ece31b66351ccffa4b0733bc29c4d7a62b96011ea0ce36124acdbd991902fbf8178c7d29f02baee4f57")));
    assert_eq!(point("84bf7562262bbd6940085748f3be6afa52ae317155181ece31b66351ccffa4b0733bc29c4d7a62b96011ea0ce36124acdbd991902fbf8178c7d29f02baee4f57").decompress(), point("84bf7562262bbd6940085748f3be6afa52ae317155181ece31b66351ccffa4b0733bc29c4d7a62b96011ea0ce36124acdbd991902fbf8178c7d29f02baee4f57"));
}

#[test]
fn compressing_and_decompressing_undo_each_other() {
    let p = point("79be667ef9dcbbac55a06295ce870b07029bfcdb2dce28d959f2815b16f81798483ada7726a3c4655da4fbfc0e1108a8fd17b448a68554199c47d08ffb10d4b8");
    assert_eq!(p.compress().decompress(), p);
    let c = compressed("0279be667ef9dcbbac55a06295ce870b07029bfcdb2dce28d959f2815b16f81798");
    assert_eq!(c.decompress().compress(), c);
    let p = point("c6047f9441ed7d6d3045406e95c07cd85c778e4b8cef3ca7abac09b95c709ee51ae168fea63dc339a3c58419466ceaeef7f632653266d0e1236431a950cfe52a");
    assert_eq!(p.compress().decompress(), p);
    let c = compressed("02c6047f9441ed7d6d3045406e95c07cd85c778e4b8cef3ca7abac09b95c709ee5");
    assert_eq!(c.decompress().compress(), c);
    let p = point("f9308a019258c31049344f85f89d5229b531c845836f99b08601f113bce036f9388f7b0f632de8140fe337e62a37f3566500a99934c2231b6cb9fd7584b8e672");
    assert_eq!(p.compress().decompress(), p);
    let c = compressed("02f9308a019258c31049344f85f89d5229b531c845836f99b08601f113bce036f9");
    assert_eq!(c.decompress().compress(), c);
    let p = point("2f8bde4d1a07209355b4a7250a5c5128e88b84bddc619ab7cba8d569b240efe4d8ac222636e5e3d6d4dba9dda6c9c426f788271bab0d6840dca87d3aa6ac62d6");
    assert_eq!(p.compress().decompress(), p);
    let c = compressed("022f8bde4d1a07209355b4a7250a5c5128e88b84bddc619ab7cba8d569b240efe4");
    assert_eq!(c.decompress().compress(), c);
    let p = point("84bf7562262bbd6940085748f3be6afa52ae317155181ece31b66351ccffa4b08cc43d63b2859d469fee15f31c9edb5324266e6fd0407e87382d60fc4511acd8");
    assert_eq!(p.compress().decompress(), p);
    let c = compressed("0284bf7562262bbd6940085748f3be6afa52ae317155181ece31b66351ccffa4b0");
    assert_eq!(c.decompress().compress(), c);
    let p = point("79be667ef9dcbbac55a06295ce870b07029bfcdb2dce28d959f2815b16f81798b7c52588d95c3b9aa25b0403f1eef75702e84bb7597aabe663b82f6f04ef2777");
    assert_eq!(p.compress().decompress(), p);
    let c = compressed("0379be667ef9dcbbac55a06295ce870b07029bfcdb2dce28d959f2815b16f81798");
    assert_eq!(c.decompress().compress(), c);
    let p = point("84bf7562262bbd6940085748f3be6afa52ae317155181ece31b66351ccffa4b0733bc29c4d7a62b96011ea0ce36124acdbd991902fbf8178c7d29f02baee4f57");
    assert_eq!(p.compress().decompress(), p);
    let c = compressed("0384bf7562262bbd6940085748f3be6afa52ae317155181ece31b66351ccffa4b0");
    assert_eq!(c.decompress().compress(), c);
}

#[test]
fn a_y_coordinate_above_the_prime_comes_back_reduced() {
    let p = point("146d3b65add9f54ccca28533c88e2cbc63f7443e1658783ab41f8ef97c2a10b5fffffffffffffffffffffffffffffffffffffffffffffffffffffffefffffc30");
    assert_eq!(p.compress(), compressed("02146d3b65add9f54ccca28533c88e2cbc63f7443e1658783ab41f8ef97c2a10b5"));
    assert_eq!(p.compress().0[0], 0x02);
    assert_eq!(p.compress().decompress(), point("146d3b65add9f54ccca28533c88e2cbc63f7443e1658783ab41f8ef97c2a10b5fffffffffffffffffffffffffffffffffffffffffffffffffffffffefffffc2e"));
    let reduced = point("146d3b65add9f54ccca28533c88e2cbc63f7443e1658783ab41f8ef97c2a10b50000000000000000000000000000000000000000000000000000000000000001");
    assert_eq!(reduced.compress().decompress(), reduced);
}

#[test]
fn lift_x_gives_the_point_with_the_candidate_root() {
    assert_eq!(Curve::lift_x(&be("0000000000000000000000000000000000000000000000000000000000000001")), Ok(point("00000000000000000000000000000000000000000000000000000000000000014218f20ae6c646b363db68605822fb14264ca8d2587fdd6fbc750d587e76a7ee")));
    assert_eq!(UncompressedPoint::lift_x(&be("0000000000000000000000000000000000000000000000000000000000000001")), Ok(point("00000000000000000000000000000000000000000000000000000000000000014218f20ae6c646b363db68605822fb14264ca8d2587fdd6fbc750d587e76a7ee")));
    assert_eq!(CompressedPoint::lift_x(&be("0000000000000000000000000000000000000000000000000000000000000001")), Ok(compressed("020000000000000000000000000000000000000000000000000000000000000001")));
    assert_eq!(Curve::lift_x(&be("0000000000000000000000000000000000000000000000000000000000000002")), Ok(point("0000000000000000000000000000000000000000000000000000000000000002990418d84d45f61f60a56728f5a10317bdb3a05bda4425e3aee079f8a847a8d1")));
    assert_eq!(UncompressedPoint::lift_x(&be("0000000000000000000000000000000000000000000000000000000000000002")), Ok(point("0000000000000000000000000000000000000000000000000000000000000002990418d84d45f61f60a56728f5a10317bdb3a05bda4425e3aee079f8a847a8d1")));
    assert_eq!(CompressedPoint::lift_x(&be("0000000000000000000000000000000000000000000000000000000000000002")), Ok(compressed("030000000000000000000000000000000000000000000000000000000000000002")));
    assert_eq!(Curve::lift_x(&be("0000000000000000000000000000000000000000000000000000000000000003")), Ok(point("0000000000000000000000000000000000000000000000000000000000000003d0dccc6a374f85c7cb5f1a6425bc6bb4a20c877ad1a9f143f0dd788060b640e4")));
    assert_eq!(UncompressedPoint::lift_x(&be("0000000000000000000000000000000000000000000000000000000000000003")), Ok(point("0000000000000000000000000000000000000000000000000000000000000003d0dccc6a374f85c7cb5f1a6425bc6bb4a20c877ad1a9f143f0dd788060b640e4")));
    assert_eq!(CompressedPoint::lift_x(&be("0000000000000000000000000000000000000000000000000000000000000003")), Ok(compressed("020000000000000000000000000000000000000000000000000000000000000003")));
    assert_eq!(Curve::lift_x(&be("79be667ef9dcbbac55a06295ce870b07029bfcdb2dce28d959f2815b16f81798")), Ok(point("79be667ef9dcbbac55a06295ce870b07029bfcdb2dce28d959f2815b16f81798483ada7726a3c4655da4fbfc0e1108a8fd17b448a68554199c47d08ffb10d4b8")));
    assert_eq!(UncompressedPoint::lift_x(&be("79be667ef9dcbbac55a06295ce870b07029bfcdb2dce28d959f2815b16f81798")), Ok(point("79be667ef9dcbbac55a06295ce870b07029bfcdb2dce28d959f2815b16f81798483ada7726a3c4655da4fbfc0e1108a8fd17b448a68554199c47d08ffb10d4b8")));
    assert_eq!(CompressedPoint::lift_x(&be("79be667ef9dcbbac55a06295ce870b07029bfcdb2dce28d959f2815b16f81798")), Ok(compressed("0279be667ef9dcbbac55a06295ce870b07029bfcdb2dce28d959f2815b16f81798")));
    assert_eq!(Curve::lift_x(&be("84bf7562262bbd6940085748f3be6afa52ae317155181ece31b66351ccffa4b0")), Ok(point("84bf7562262bbd6940085748f3be6afa52ae317155181ece31b66351ccffa4b08cc43d63b2859d469fee15f31c9edb5324266e6fd0407e87382d60fc4511acd8")));
    assert_eq!(UncompressedPoint::lift_x(&be("84bf7562262bbd6940085748f3be6afa52ae317155181ece31b66351ccffa4b0")), Ok(point("84bf7562262bbd6940085748f3be6afa52ae317155181ece31b66351ccffa4b08cc43d63b2859d469fee15f31c9edb5324266e6fd0407e87382d60fc4511acd8")));
    assert_eq!(CompressedPoint::lift_x(&be("84bf7562262bbd6940085748f3be6afa52ae317155181ece31b66351ccffa4b0")), Ok(compressed("0284bf7562262bbd6940085748f3be6afa52ae317155181ece31b66351ccffa4b0")));
}

#[test]
fn lift_x_fails_where_x_has_no_point() {
    assert_eq!(Curve::lift_x(&be("0000000000000000000000000000000000000000000000000000000000000005")), Err(Secp256k1Error::InvalidYCoordinate));
    assert_eq!(UncompressedPoint::lift_x(&be("0000000000000000000000000000000000000000000000000000000000000005")), Err(Secp256k1Error::InvalidYCoordinate));
    assert_eq!(CompressedPoint::lift_x(&be("0000000000000000000000000000000000000000000000000000000000000005")), Err(Secp256k1Error::InvalidYCoordinate));
    assert_eq!(Curve::decompress(compressed("020000000000000000000000000000000000000000000000000000000000000005")), Err(Secp256k1Error::InvalidYCoordinate));
    assert_eq!(UncompressedPoint::try_from(compressed("030000000000000000000000000000000000000000000000000000000000000005")), Err(Secp256k1Error::InvalidYCoordinate));
    assert_eq!(Curve::lift_x(&be("0000000000000000000000000000000000000000000000000000000000000007")), Err(Secp256k1Error::InvalidYCoordinate));
    assert_eq!(UncompressedPoint::lift_x(&be("0000000000000000000000000000000000000000000000000000000000000007")), Err(Secp256k1Error::InvalidYCoordinate));
    assert_eq!(CompressedPoint::lift_x(&be("0000000000000000000000000000000000000000000000000000000000000007")), Err(Secp256k1Error::InvalidYCoordinate));
    assert_eq!(Curve::decompress(compressed("020000000000000000000000000000000000000000000000000000000000000007")), Err(Secp256k1Error::InvalidYCoordinate));
    assert_eq!(UncompressedPoint::try_from(compressed("030000000000000000000000000000000000000000000000000000000000000007")), Err(Secp256k1Error::InvalidYCoordinate));
    assert_eq!(Curve::lift_x(&be("0000000000000000000000000000000000000000000000000000000000000009")), Err(Secp256k1Error::InvalidYCoordinate));
    assert_eq!(UncompressedPoint::lift_x(&be("0000000000000000000000000000000000000000000000000000000000000009")), Err(Secp256k1Error::InvalidYCoordinate));
    assert_eq!(CompressedPoint::lift_x(&be("0000000000000000000000000000000000000000000000000000000000000009")), Err(Secp256k1Error::InvalidYCoordinate));
    assert_eq!(Curve::decompress(compressed("020000000000000000000000000000000000000000000000000000000000000009")), Err(Secp256k1Error::InvalidYCoordinate));
    assert_eq!(UncompressedPoint::try_from(compressed("030000000000000000000000000000000000000000000000000000000000000009")), Err(Secp256k1Error::InvalidYCoordinate));
}

#[test]
fn lift_x_unchecked_gives_the_candidate_root_even_off_the_curve() {
    assert_eq!(Curve::lift_x_unchecked(&be("0000000000000000000000000000000000000000000000000000000000000001")), point("00000000000000000000000000000000000000000000000000000000000000014218f20ae6c646b363db68605822fb14264ca8d2587fdd6fbc750d587e76a7ee"));
    assert_eq!(UncompressedPoint::lift_x_unchecked(&be("0000000000000000000000000000000000000000000000000000000000000001")), point("00000000000000000000000000000000000000000000000000000000000000014218f20ae6c646b363db68605822fb14264ca8d2587fdd6fbc750d587e76a7ee"));
    assert_eq!(CompressedPoint::lift_x_unchecked(&be("0000000000000000000000000000000000000000000000000000000000000001")), compressed("020000000000000000000000000000000000000000000000000000000000000001"));
    assert_eq!(Curve::lift_x_unchecked(&be("0000000000000000000000000000000000000000000000000000000000000005")), point("0000000000000000000000000000000000000000000000000000000000000005350ae3b48047adacdeea49fb8a0b289a94f726801078408aba79631fa7a1b6ba"));
    assert_eq!(UncompressedPoint::lift_x_unchecked(&be("0000000000000000000000000000000000000000000000000000000000000005")), point("0000000000000000000000000000000000000000000000000000000000000005350ae3b48047adacdeea49fb8a0b289a94f726801078408aba79631fa7a1b6ba"));
    assert_eq!(CompressedPoint::lift_x_unchecked(&be("0000000000000000000000000000000000000000000000000000000000000005")), compressed("020000000000000000000000000000000000000000000000000000000000000005"));
    assert_eq!(Curve::lift_x_unchecked(&be("0000000000000000000000000000000000000000000000000000000000000007")), point("000000000000000000000000000000000000000000000000000000000000000746ff56067db77014a475505e0cce5270031af120d71cb2815308d0a174712702"));
    assert_eq!(UncompressedPoint::lift_x_unchecked(&be("0000000000000000000000000000000000000000000000000000000000000007")), point("000000000000000000000000000000000000000000000000000000000000000746ff56067db77014a475505e0cce5270031af120d71cb2815308d0a174712702"));
    assert_eq!(CompressedPoint::lift_x_unchecked(&be("0000000000000000000000000000000000000000000000000000000000000007")), compressed("020000000000000000000000000000000000000000000000000000000000000007"));
    assert_eq!(Curve::lift_x_unchecked(&be("79be667ef9dcbbac55a06295ce870b07029bfcdb2dce28d959f2815b16f81798")), point("79be667ef9dcbbac55a06295ce870b07029bfcdb2dce28d959f2815b16f81798483ada7726a3c4655da4fbfc0e1108a8fd17b448a68554199c47d08ffb10d4b8"));
    assert_eq!(UncompressedPoint::lift_x_unchecked(&be("79be667ef9dcbbac55a06295ce870b07029bfcdb2dce28d959f2815b16f81798")), point("79be667ef9dcbbac55a06295ce870b07029bfcdb2dce28d959f2815b16f81798483ada7726a3c4655da4fbfc0e1108a8fd17b448a68554199c47d08ffb10d4b8"));
    assert_eq!(CompressedPoint::lift_x_unchecked(&be("79be667ef9dcbbac55a06295ce870b07029bfcdb2dce28d959f2815b16f81798")), compressed("0279be667ef9dcbbac55a06295ce870b07029bfcdb2dce28d959f2815b16f81798"));
    assert_eq!(Curve::lift_x_unchecked(&be("0102030405060708090a0b0c0d0e0f101112131415161718191a1b1c1d1e1f20")), point("0102030405060708090a0b0c0d0e0f101112131415161718191a1b1c1d1e1f20382f90fb7c809544254cc5731fff8598e7a6e874f3bce0ac9401516f0057e609"));
    assert_eq!(UncompressedPoint::lift_x_unchecked(&be("0102030405060708090a0b0c0d0e0f101112131415161718191a1b1c1d1e1f20")), point("0102030405060708090a0b0c0d0e0f101112131415161718191a1b1c1d1e1f20382f90fb7c809544254cc5731fff8598e7a6e874f3bce0ac9401516f0057e609"));
    assert_eq!(CompressedPoint::lift_x_unchecked(&be("0102030405060708090a0b0c0d0e0f101112131415161718191a1b1c1d1e1f20")), compressed("030102030405060708090a0b0c0d0e0f101112131415161718191a1b1c1d1e1f20"));
}

#[test]
fn invert_reflects_across_the_x_axis() {
    let mut p = point("79be667ef9dcbbac55a06295ce870b07029bfcdb2dce28d959f2815b16f81798483ada7726a3c4655da4fbfc0e1108a8fd17b448a68554199c47d08ffb10d4b8");
    p.invert();
    assert_eq!(p, point("79be667ef9dcbbac55a06295ce870b07029bfcdb2dce28d959f2815b16f81798b7c52588d95c3b9aa25b0403f1eef75702e84bb7597aabe663b82f6f04ef2777"));
    p.invert();
    assert_eq!(p, point("79be667ef9dcbbac55a06295ce870b07029bfcdb2dce28d959f2815b16f81798483ada7726a3c4655da4fbfc0e1108a8fd17b448a68554199c47d08ffb10d4b8"));
    let mut c = compressed("0279be667ef9dcbbac55a06295ce870b07029bfcdb2dce28d959f2815b16f81798");
    c.invert();
    assert_eq!(c, compressed("0379be667ef9dcbbac55a06295ce870b07029bfcdb2dce28d959f2815b16f81798"));
    c.invert();
    assert_eq!(c, compressed("0279be667ef9dcbbac55a06295ce870b07029bfcdb2dce28d959f2815b16f81798"));
    let mut p = point("c6047f9441ed7d6d3045406e95c07cd85c778e4b8cef3ca7abac09b95c709ee51ae168fea63dc339a3c58419466ceaeef7f632653266d0e1236431a950cfe52a");
    p.invert();
    assert_eq!(p, point("c6047f9441ed7d6d3045406e95c07cd85c778e4b8cef3ca7abac09b95c709ee5e51e970159c23cc65c3a7be6b99315110809cd9acd992f1edc9bce55af301705"));
    p.invert();
    assert_eq!(p, point("c6047f9441ed7d6d3045406e95c07cd85c778e4b8cef3ca7abac09b95c709ee51ae168fea63dc339a3c58419466ceaeef7f632653266d0e1236431a950cfe52a"));
    let mut c = compressed("02c6047f9441ed7d6d3045406e95c07cd85c778e4b8cef3ca7abac09b95c709ee5");
    c.invert();
    assert_eq!(c, compressed("03c6047f9441ed7d6d3045406e95c07cd85c778e4b8cef3ca7abac09b95c709ee5"));
    c.invert();
    assert_eq!(c, compressed("02c6047f9441ed7d6d3045406e95c07cd85c778e4b8cef3ca7abac09b95c709ee5"));
    let mut p = point("f9308a019258c31049344f85f89d5229b531c845836f99b08601f113bce036f9388f7b0f632de8140fe337e62a37f3566500a99934c2231b6cb9fd7584b8e672");
    p.invert();
    assert_eq!(p, point("f9308a019258c31049344f85f89d5229b531c845836f99b08601f113bce036f9c77084f09cd217ebf01cc819d5c80ca99aff5666cb3ddce4934602897b4715bd"));
    p.invert();
    assert_eq!(p, point("f9308a019258c31049344f85f89d5229b531c845836f99b08601f113bce036f9388f7b0f632de8140fe337e62a37f3566500a99934c2231b6cb9fd7584b8e672"));
    let mut c = compressed("02f9308a019258c31049344f85f89d5229b531c845836f99b08601f113bce036f9");
    c.invert();
    assert_eq!(c, compressed("03f9308a019258c31049344f85f89d5229b531c845836f99b08601f113bce036f9"));
    c.invert();
    assert_eq!(c, compressed("02f9308a019258c31049344f85f89d5229b531c845836f99b08601f113bce036f9"));
    let mut p = point("2f8bde4d1a07209355b4a7250a5c5128e88b84bddc619ab7cba8d569b240efe4d8ac222636e5e3d6d4dba9dda6c9c426f788271bab0d6840dca87d3aa6ac62d6");
    p.invert();
    assert_eq!(p, point("2f8bde4d1a07209355b4a7250a5c5128e88b84bddc619ab7cba8d569b240efe42753ddd9c91a1c292b24562259363bd90877d8e454f297bf235782c459539959"));
    p.invert();
    assert_eq!(p, point("2f8bde4d1a07209355b4a7250a5c5128e88b84bddc619ab7cba8d569b240efe4d8ac222636e5e3d6d4dba9dda6c9c426f788271bab0d6840dca87d3aa6ac62d6"));
    let mut c = compressed("022f8bde4d1a07209355b4a7250a5c5128e88b84bddc619ab7cba8d569b240efe4");
    c.invert();
    assert_eq!(c, compressed("032f8bde4d1a07209355b4a7250a5c5128e88b84bddc619ab7cba8d569b240efe4"));
    c.invert();
    assert_eq!(c, compressed("022f8bde4d1a07209355b4a7250a5c5128e88b84bddc619ab7cba8d569b240efe4"));
    let mut p = point("84bf7562262bbd6940085748f3be6afa52ae317155181ece31b66351ccffa4b08cc43d63b2859d469fee15f31c9edb5324266e6fd0407e87382d60fc4511acd8");
    p.invert();
    assert_eq!(p, point("84bf7562262bbd6940085748f3be6afa52ae317155181ece31b66351ccffa4b0733bc29c4d7a62b96011ea0ce36124acdbd991902fbf8178c7d29f02baee4f57"));
    p.invert();
    assert_eq!(p, point("84bf7562262bbd6940085748f3be6afa52ae317155181ece31b66351ccffa4b08cc43d63b2859d469fee15f31c9edb5324266e6fd0407e87382d60fc4511acd8"));
    let mut c = compressed("0284bf7562262bbd6940085748f3be6afa52ae317155181ece31b66351ccffa4b0");
    c.invert();
    assert_eq!(c, compressed("0384bf7562262bbd6940085748f3be6afa52ae317155181ece31b66351ccffa4b0"));
    c.invert();
    assert_eq!(c, compressed("0284bf7562262bbd6940085748f3be6afa52ae317155181ece31b66351ccffa4b0"));
    let mut p = point("00000000000000000000000000000000000000000000000000000000000000010000000000000000000000000000000000000000000000000000000000000000");
    p.invert();
    assert_eq!(p, point("0000000000000000000000000000000000000000000000000000000000000001fffffffffffffffffffffffffffffffffffffffffffffffffffffffefffffc2f"));
    let mut p = point("0000000000000000000000000000000000000000000000000000000000000001fffffffffffffffffffffffffffffffffffffffffffffffffffffffefffffc34");
    p.invert();
    assert_eq!(p, point("0000000000000000000000000000000000000000000000000000000000000001fffffffffffffffffffffffffffffffffffffffffffffffffffffffffffffffb"));
    let mut p = point("0000000000000000000000000000000000000000000000000000000000000001ffffffffffffffffffffffffffffffffffffffffffffffffffffffffffffffff");
    p.invert();
    assert_eq!(p, point("0000000000000000000000000000000000000000000000000000000000000001fffffffffffffffffffffffffffffffffffffffffffffffffffffffefffffc30"));
}

#[test]
fn reflect32_subtracts_from_p_with_borrow() {
    assert_eq!(reflect32(&be("0000000000000000000000000000000000000000000000000000000000000000")), be("fffffffffffffffffffffffffffffffffffffffffffffffffffffffefffffc2f"));
    assert_eq!(reflect32(&be("0000000000000000000000000000000000000000000000000000000000000001")), be("fffffffffffffffffffffffffffffffffffffffffffffffffffffffefffffc2e"));
    assert_eq!(reflect32(&be("483ada7726a3c4655da4fbfc0e1108a8fd17b448a68554199c47d08ffb10d4b8")), be("b7c52588d95c3b9aa25b0403f1eef75702e84bb7597aabe663b82f6f04ef2777"));
    assert_eq!(reflect32(&be("fffffffffffffffffffffffffffffffffffffffffffffffffffffffefffffc2e")), be("0000000000000000000000000000000000000000000000000000000000000001"));
    assert_eq!(reflect32(&be("fffffffffffffffffffffffffffffffffffffffffffffffffffffffefffffc2f")), be("0000000000000000000000000000000000000000000000000000000000000000"));
    assert_eq!(reflect32(&be("fffffffffffffffffffffffffffffffffffffffffffffffffffffffefffffc30")), be("ffffffffffffffffffffffffffffffffffffffffffffffffffffffffffffffff"));
    assert_eq!(reflect32(&be("ffffffffffffffffffffffffffffffffffffffffffffffffffffffffffffffff")), be("fffffffffffffffffffffffffffffffffffffffffffffffffffffffefffffc30"));
    assert_eq!(reflect32(&be("00000000000000000000000000000000000000000000000000000000000000ff")), be("fffffffffffffffffffffffffffffffffffffffffffffffffffffffefffffb30"));
    assert_eq!(reflect32(&be("0000000000000000000000000000000000000000000000000000000000000100")), be("fffffffffffffffffffffffffffffffffffffffffffffffffffffffefffffb2f"));
    assert_eq!(reflect32(&be("8000000000000000000000000000000000000000000000000000000000000000")), be("7ffffffffffffffffffffffffffffffffffffffffffffffffffffffefffffc2f"));
}

#[test]
fn the_wire_format_puts_the_tag_in_front() {
    let g = point("79be667ef9dcbbac55a06295ce870b07029bfcdb2dce28d959f2815b16f81798483ada7726a3c4655da4fbfc0e1108a8fd17b448a68554199c47d08ffb10d4b8");
    let wire: [u8; 65] = hex("0479be667ef9dcbbac55a06295ce870b07029bfcdb2dce28d959f2815b16f81798483ada7726a3c4655da4fbfc0e1108a8fd17b448a68554199c47d08ffb10d4b8").try_into().unwrap();
    assert_eq!(g.to_sec1_bytes(), wire);
    assert_eq!(UncompressedPoint::from(wire), g);
    assert_eq!(UncompressedPoint::from_sec1_bytes(&wire), g);
    assert_eq!(CompressedPoint::from(wire), compressed("0279be667ef9dcbbac55a06295ce870b07029bfcdb2dce28d959f2815b16f81798"));
    let mut other = wire;
    other[0] = 0x00;
    assert_eq!(UncompressedPoint::from(other), g);
}

#[test]
fn points_are_written_in_upper_case_hexadecimal() {
    assert_eq!(point("79be667ef9dcbbac55a06295ce870b07029bfcdb2dce28d959f2815b16f81798483ada7726a3c4655da4fbfc0e1108a8fd17b448a68554199c47d08ffb10d4b8").to_hex(), "79BE667EF9DCBBAC55A06295CE870B07029BFCDB2DCE28D959F2815B16F81798483ADA7726A3C4655DA4FBFC0E1108A8FD17B448A68554199C47D08FFB10D4B8");
    assert_eq!(compressed("0379be667ef9dcbbac55a06295ce870b07029bfcdb2dce28d959f2815b16f81798").to_hex(), "0379BE667EF9DCBBAC55A06295CE870B07029BFCDB2DCE28D959F2815B16F81798");
    assert_eq!(to_hex_upper(&[]), "");
    assert_eq!(to_hex_upper(&[0x00, 0x0f, 0xa0, 0xff, 0x9c]), "000FA0FF9C");
}

#[test]
fn the_generator_is_the_point_of_its_bytes() {
    assert_eq!(Curve::generator(), point("79be667ef9dcbbac55a06295ce870b07029bfcdb2dce28d959f2815b16f81798483ada7726a3c4655da4fbfc0e1108a8fd17b448a68554199c47d08ffb10d4b8"));
    assert_eq!(Curve::generator(), UncompressedPoint(Curve::G));
    assert!(Curve::generator().is_even());
}

#[test]
fn byte_strings_are_padded_joined_and_compared() {
    assert_eq!(left_pad32(&[]), [0u8; 32]);
    assert_eq!(left_pad32(&[0x01, 0x02]), be("0000000000000000000000000000000000000000000000000000000000000102"));
    assert_eq!(left_pad32(&be("0102030405060708090a0b0c0d0e0f101112131415161718191a1b1c1d1e1f20")), be("0102030405060708090a0b0c0d0e0f101112131415161718191a1b1c1d1e1f20"));
    let joined = join64(&be("79be667ef9dcbbac55a06295ce870b07029bfcdb2dce28d959f2815b16f81798"), &be("483ada7726a3c4655da4fbfc0e1108a8fd17b448a68554199c47d08ffb10d4b8"));
    assert_eq!(joined, Curve::G);
    assert_eq!(copy_range32(&joined, 0), be("79be667ef9dcbbac55a06295ce870b07029bfcdb2dce28d959f2815b16f81798"));
    assert_eq!(copy_range32(&joined, 32), be("483ada7726a3c4655da4fbfc0e1108a8fd17b448a68554199c47d08ffb10d4b8"));
    assert_eq!(copy_range32(&joined, 1)[..31], be("79be667ef9dcbbac55a06295ce870b07029bfcdb2dce28d959f2815b16f81798")[1..]);
    assert!(bytes_equal(&[1, 2, 3], &[1, 2, 3]));
    assert!(!bytes_equal(&[1, 2, 3], &[1, 2, 4]));
    assert!(!bytes_equal(&[1, 2, 3], &[1, 2]));
    assert!(bytes_equal(&[], &[]));
    assert_eq!(widen32(&[]), [0u8; 32]);
    assert_eq!(widen32(&[0x01, 0x02]), be("0000000000000000000000000000000000000000000000000000000000000102"));
    assert_eq!(widen32(&be("8000000000000000000000000000000000000000000000000000000000003039")), be("8000000000000000000000000000000000000000000000000000000000003039"));
}
