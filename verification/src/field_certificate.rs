//! The certificate that the field prime is prime.
//!
//! The powers of each base are followed bit by bit through its exponents:
//! every step squares, and multiplies by the base where the bit is set, and
//! names the multiple of the modulus that it leaves out.

use crate::prime_table::{
    lemma_prime_107590001, lemma_prime_11, lemma_prime_13441, lemma_prime_1627,
    lemma_prime_173378833005251801, lemma_prime_2657, lemma_prime_29, lemma_prime_31,
    lemma_prime_41201, lemma_prime_4423, lemma_prime_5323, lemma_prime_7240687, lemma_prime_7723,
    lemma_prime_96557,
};
use crate::primes::{
    all_invertible, generates, is_certificate, is_prime, lemma_certified_prime,
    lemma_power_mod_first, lemma_power_mod_square, lemma_power_mod_square_times,
    lemma_product_push, lemma_small_primes, power_mod,
};
use vstd::arithmetic::div_mod::lemma_fundamental_div_mod_converse;
use vstd::prelude::*;

verus! {

proof fn lemma_power_22149492674086928081353_over_2_part_0()
    requires
        power_mod(5nat, 1nat, 0x4b0b9f59a0a545761c9nat) == 5nat,
    ensures
        power_mod(5nat, 0x12c2e7d66nat, 0x4b0b9f59a0a545761c9nat) == 0x23abe5f71445bf6d5d2nat,
{
    let n = 0x4b0b9f59a0a545761c9nat;
    let e0 = 1nat;
    let x0 = 5nat;
    let x1 = 25nat;
    let e1 = 2 * e0;
    lemma_power_mod_square(5nat, e0, n, x0, 0nat, x1);
    let x2 = 625nat;
    let e2 = 2 * e1;
    lemma_power_mod_square(5nat, e1, n, x1, 0nat, x2);
    let x3 = 0x1dcd65nat;
    let e3 = 2 * e2 + 1;
    lemma_power_mod_square_times(5nat, e2, n, x2, 0nat, x3);
    let x4 = 0x3782dace9d9nat;
    let e4 = 2 * e3;
    lemma_power_mod_square(5nat, e3, n, x3, 0nat, x4);
    let x5 = 0x45f0412c5b4d7153b41nat;
    let e5 = 2 * e4 + 1;
    lemma_power_mod_square_times(5nat, e4, n, x4, 3284nat, x5);
    let x6 = 0x44a9754bed84d0291e3nat;
    let e6 = 2 * e5 + 1;
    lemma_power_mod_square_times(5nat, e5, n, x5, 0x145e5456e958385b7a92nat, x6);
    let x7 = 0x26099ccf490fe1913f4nat;
    let e7 = 2 * e6;
    lemma_power_mod_square(5nat, e6, n, x6, 0x3ed24c4611f1d19d32dnat, x7);
    let x8 = 0x213753861000b5813f9nat;
    let e8 = 2 * e7;
    lemma_power_mod_square(5nat, e7, n, x7, 0x13479c7403fa3e42b5fnat, x8);
    let x9 = 0x283c6b9be5f2b2bbd18nat;
    let e9 = 2 * e8;
    lemma_power_mod_square(5nat, e8, n, x8, 0xeb3b03098ce634a6d1nat, x9);
    let x10 = 0x32dec26d9250266d6a5nat;
    let e10 = 2 * e9;
    lemma_power_mod_square(5nat, e9, n, x9, 0x1592a0f87ae1e60e443nat, x10);
    let x11 = 0x386e00b6c7ccf608658nat;
    let e11 = 2 * e10 + 1;
    lemma_power_mod_square_times(5nat, e10, n, x10, 0xac69ef163ccb46868bdnat, x11);
    let x12 = 0xcc9877cd04419cf916nat;
    let e12 = 2 * e11;
    lemma_power_mod_square(5nat, e11, n, x11, 0x2a6e89f63e02daa00danat, x12);
    let x13 = 0x408643b8ce4c3c64a4cnat;
    let e13 = 2 * e12 + 1;
    lemma_power_mod_square_times(5nat, e12, n, x12, 0xae4ef645e98d39b5e8nat, x13);
    let x14 = 0xc0ee925179fa90af7fnat;
    let e14 = 2 * e13 + 1;
    lemma_power_mod_square_times(5nat, e13, n, x13, 0x115647fb0e3d2d3f9749nat, x14);
    let x15 = 0x245fbe21fdb85034ac2nat;
    let e15 = 2 * e14 + 1;
    lemma_power_mod_square_times(5nat, e14, n, x14, 0x9b003891d86f6f01abnat, x15);
    let x16 = 0x39371257deeb0d6f8b6nat;
    let e16 = 2 * e15;
    lemma_power_mod_square(5nat, e15, n, x15, 0x11a1569d70edbd646denat, x16);
    let x17 = 0x235db8726721e648abdnat;
    let e17 = 2 * e16;
    lemma_power_mod_square(5nat, e16, n, x16, 0x2b9f06edd4296f3ecefnat, x17);
    let x18 = 0x2bde80fa524ba403dc8nat;
    let e18 = 2 * e17 + 1;
    lemma_power_mod_square_times(5nat, e17, n, x17, 0x5355670843607086b3dnat, x18);
    let x19 = 0x2d0c8c0251422b5f67bnat;
    let e19 = 2 * e18 + 1;
    lemma_power_mod_square_times(5nat, e18, n, x18, 0x8038fa4f1a7c4cd7b1dnat, x19);
    let x20 = 0x727eae238f313f8denat;
    let e20 = 2 * e19 + 1;
    lemma_power_mod_square_times(5nat, e19, n, x19, 0x87365e7e661b831d527nat, x20);
    let x21 = 0x311abbd3c841b5558c7nat;
    let e21 = 2 * e20 + 1;
    lemma_power_mod_square_times(5nat, e20, n, x20, 0x36968c50f1ca89e5nat, x21);
    let x22 = 0x3101172ab9ffb9fd5e4nat;
    let e22 = 2 * e21 + 1;
    lemma_power_mod_square_times(5nat, e21, n, x21, 0xa0a7046c076b9c81389nat, x22);
    let x23 = 0x3668b7d882e84e4fe48nat;
    let e23 = 2 * e22;
    lemma_power_mod_square(5nat, e22, n, x22, 0x1fffe124ab4b4eb3288nat, x23);
    let x24 = 0x344fd7949285504a11fnat;
    let e24 = 2 * e23 + 1;
    lemma_power_mod_square_times(5nat, e23, n, x23, 0xc53ca94b9ba1b4c9b99nat, x24);
    let x25 = 0x19a5c0ad29211b878d0nat;
    let e25 = 2 * e24;
    lemma_power_mod_square(5nat, e24, n, x24, 0x24770c84b18c6afc1e9nat, x25);
    let x26 = 0x376c90a016890b9c2e3nat;
    let e26 = 2 * e25 + 1;
    lemma_power_mod_square_times(5nat, e25, n, x25, 0x2bd389de59113f8afb5nat, x26);
    let x27 = 0x2de89cfe706e76d71a0nat;
    let e27 = 2 * e26 + 1;
    lemma_power_mod_square_times(5nat, e26, n, x26, 0xccaa29afec7289440e5nat, x27);
    let x28 = 0x25827705e08b2293e20nat;
    let e28 = 2 * e27;
    lemma_power_mod_square(5nat, e27, n, x27, 0x1c159a19a08772c26e0nat, x28);
    let x29 = 0x3c2e8e5b992a6ab02b4nat;
    let e29 = 2 * e28;
    lemma_power_mod_square(5nat, e28, n, x28, 0x12bf8f55ab2ab557cecnat, x29);
    let x30 = 0x9fc6af85904b314be5nat;
    let e30 = 2 * e29 + 1;
    lemma_power_mod_square_times(5nat, e29, n, x29, 0xf14f9e3b086c72ca313nat, x30);
    let x31 = 0x20c0d69ace564961d52nat;
    let e31 = 2 * e30 + 1;
    lemma_power_mod_square_times(5nat, e30, n, x30, 0x6a4dd3d3d3353ecf13nat, x31);
    let x32 = 0x23abe5f71445bf6d5d2nat;
    let e32 = 2 * e31;
    lemma_power_mod_square(5nat, e31, n, x31, 0xe4b87bda749e7edde2nat, x32);
}

proof fn lemma_power_22149492674086928081353_over_2_part_1()
    requires
        power_mod(5nat, 0x12c2e7d66nat, 0x4b0b9f59a0a545761c9nat) == 0x23abe5f71445bf6d5d2nat,
    ensures
        power_mod(5nat, 0x12c2e7d66829515d8nat, 0x4b0b9f59a0a545761c9nat) == 0x11e747c92b26d9c8fc7nat,
{
    let n = 0x4b0b9f59a0a545761c9nat;
    let e0 = 0x12c2e7d66nat;
    let x0 = 0x23abe5f71445bf6d5d2nat;
    let x1 = 0x4e7411e03550db7cfbnat;
    let e1 = 2 * e0 + 1;
    lemma_power_mod_square_times(5nat, e0, n, x0, 0x54c76a7a449e3b07611nat, x1);
    let x2 = 0x166bd8dcfd25ab59b97nat;
    let e2 = 2 * e1;
    lemma_power_mod_square(5nat, e1, n, x1, 0x5204231eda0d2bf72nat, x2);
    let x3 = 0x5a7ee0fb6b0b3527eanat;
    let e3 = 2 * e2;
    lemma_power_mod_square(5nat, e2, n, x2, 0x6b2e42ed9d678afd6fnat, x3);
    let x4 = 0x2f1af565d1208680dccnat;
    let e4 = 2 * e3;
    lemma_power_mod_square(5nat, e3, n, x3, 0x6d206fcc53a433f58nat, x4);
    let x5 = 0x1013154087b9fb67aenat;
    let e5 = 2 * e4;
    lemma_power_mod_square(5nat, e4, n, x4, 0x1d914c1c483146cdcd2nat, x5);
    let x6 = 0x173a32e3c3ca397496dnat;
    let e6 = 2 * e5;
    lemma_power_mod_square(5nat, e5, n, x5, 0x37170d97bd134d9fnat, x6);
    let x7 = 0x2f83d18eaae63e8113fnat;
    let e7 = 2 * e6 + 1;
    lemma_power_mod_square_times(5nat, e6, n, x6, 0x23f20dfea46ef3f395enat, x7);
    let x8 = 0x34b81f3fe5a36d7c6e7nat;
    let e8 = 2 * e7;
    lemma_power_mod_square(5nat, e7, n, x7, 0x1e15824b35e67498ecanat, x8);
    let x9 = 0x1088a1c85b0e7dcb1a4nat;
    let e9 = 2 * e8 + 1;
    lemma_power_mod_square_times(5nat, e8, n, x8, 0xb92cfa8f262510f3089nat, x9);
    let x10 = 0x16a3b4d43e83ec5d5f6nat;
    let e10 = 2 * e9;
    lemma_power_mod_square(5nat, e9, n, x9, 0x3a484781d4b67edf4anat, x10);
    let x11 = 0xc63d007942eaa03e62nat;
    let e11 = 2 * e10;
    lemma_power_mod_square(5nat, e10, n, x10, 0x6d46e8c883fcaccaf2nat, x11);
    let x12 = 0x3b15d045b8c7b7bdf79nat;
    let e12 = 2 * e11 + 1;
    lemma_power_mod_square_times(5nat, e11, n, x11, 0xa3a4f44bf997dcf8c3nat, x12);
    let x13 = 0x483299dfb258fcfff9cnat;
    let e13 = 2 * e12;
    lemma_power_mod_square(5nat, e12, n, x12, 0x2e84f2fedd12404bd6dnat, x13);
    let x14 = 0x5a8ff48b29896542a7nat;
    let e14 = 2 * e13 + 1;
    lemma_power_mod_square_times(5nat, e13, n, x13, 0x15b4a38082c9aa1997e1nat, x14);
    let x15 = 0x32d463e32fa0f8a7538nat;
    let e15 = 2 * e14;
    lemma_power_mod_square(5nat, e14, n, x14, 0x6d49a2d384b299a71nat, x15);
    let x16 = 0x165465421c01002baa4nat;
    let e16 = 2 * e15 + 1;
    lemma_power_mod_square_times(5nat, e15, n, x15, 0xac23ac39868db830bbcnat, x16);
    let x17 = 0x1b883d405ed3dc9d8c8nat;
    let e17 = 2 * e16;
    lemma_power_mod_square(5nat, e16, n, x16, 0x6a4e81f901e7a84208nat, x17);
    let x18 = 0x237b3a9cc4a3d6afc31nat;
    let e18 = 2 * e17;
    lemma_power_mod_square(5nat, e17, n, x17, 0xa19d04f2c3a2561f17nat, x18);
    let x19 = 0x38b75e05dffdc7e3d3cnat;
    let e19 = 2 * e18;
    lemma_power_mod_square(5nat, e18, n, x18, 0x10c689cd43d6d69dd7dnat, x19);
    let x20 = 0x18160b6bf70ca122624nat;
    let e20 = 2 * e19 + 1;
    lemma_power_mod_square_times(5nat, e19, n, x19, 0xd651c0bd9c9298cccccnat, x20);
    let x21 = 0x1230c2c36c9a196c197nat;
    let e21 = 2 * e20;
    lemma_power_mod_square(5nat, e20, n, x20, 0x7bb0411a80cffa5c31nat, x21);
    let x22 = 0x2773c3034b8a0aa5922nat;
    let e22 = 2 * e21 + 1;
    lemma_power_mod_square_times(5nat, e21, n, x21, 0x160bd4232a76c8caa1bnat, x22);
    let x23 = 0x223e8531082a5cf23cnat;
    let e23 = 2 * e22;
    lemma_power_mod_square(5nat, e22, n, x22, 0x14bd8e5e7b53fe76808nat, x23);
    let x24 = 0x383afede02069c90fecnat;
    let e24 = 2 * e23 + 1;
    lemma_power_mod_square_times(5nat, e23, n, x23, 0x4e2166faf4b678544nat, x24);
    let x25 = 0x3388d698ec727f04a4dnat;
    let e25 = 2 * e24 + 1;
    lemma_power_mod_square_times(5nat, e24, n, x24, 0xd2a9d3e03c3d0adaaebnat, x25);
    let x26 = 0x3e7b6f36f221d4dc970nat;
    let e26 = 2 * e25 + 1;
    lemma_power_mod_square_times(5nat, e25, n, x25, 0xb0f25b1078a5cbbe1f5nat, x26);
    let x27 = 0x1703d47402ee175a291nat;
    let e27 = 2 * e26;
    lemma_power_mod_square(5nat, e26, n, x26, 0x3405a9d93d4b2b22a77nat, x27);
    let x28 = 0x49e9d9152ce1d1bb3ednat;
    let e28 = 2 * e27 + 1;
    lemma_power_mod_square_times(5nat, e27, n, x27, 0x234a8beb2eda1a4c0f8nat, x28);
    let x29 = 0x1114e5774263ea9203nat;
    let e29 = 2 * e28 + 1;
    lemma_power_mod_square_times(5nat, e28, n, x28, 0x16bfe38a3dad0f82c9banat, x29);
    let x30 = 0x1ea0b02025d979617e7nat;
    let e30 = 2 * e29;
    lemma_power_mod_square(5nat, e29, n, x29, 0x3e358b8ba69ed412nat, x30);
    let x31 = 0x28868e9b33f1d0d5f3fnat;
    let e31 = 2 * e30;
    lemma_power_mod_square(5nat, e30, n, x30, 0xc7ff54a5323a7e82a2nat, x31);
    let x32 = 0x11e747c92b26d9c8fc7nat;
    let e32 = 2 * e31;
    lemma_power_mod_square(5nat, e31, n, x31, 0x15e2699a8d8f97ae0eanat, x32);
}

proof fn lemma_power_22149492674086928081353_over_2_part_2()
    requires
        power_mod(5nat, 0x12c2e7d66829515d8nat, 0x4b0b9f59a0a545761c9nat) == 0x11e747c92b26d9c8fc7nat,
    ensures
        power_mod(5nat, 0x2585cfacd052a2bb0e4nat, 0x4b0b9f59a0a545761c9nat) == 0x4b0b9f59a0a545761c8nat,
{
    let n = 0x4b0b9f59a0a545761c9nat;
    let e0 = 0x12c2e7d66829515d8nat;
    let x0 = 0x11e747c92b26d9c8fc7nat;
    let x1 = 0x411e22f4c107779b7efnat;
    let e1 = 2 * e0;
    lemma_power_mod_square(5nat, e0, n, x0, 0x4456cae4b6fffdffb2nat, x1);
    let x2 = 0x41d90871222d044addcnat;
    let e2 = 2 * e1 + 1;
    lemma_power_mod_square_times(5nat, e1, n, x1, 0x11a844e58eba44649601nat, x2);
    let x3 = 0x7c57e4e50260b3a4b7nat;
    let e3 = 2 * e2 + 1;
    lemma_power_mod_square_times(5nat, e2, n, x2, 0x120e31e2d74c66c13451nat, x3);
    let x4 = 0x1a22e2de1480df281f0nat;
    let e4 = 2 * e3 + 1;
    lemma_power_mod_square_times(5nat, e3, n, x3, 0x40620a059e4378fd7dnat, x4);
    let x5 = 0x430fed43cb1758ae501nat;
    let e5 = 2 * e4;
    lemma_power_mod_square(5nat, e4, n, x4, 0x91a40ff8f68d6f7387nat, x5);
    let x6 = 0x45888a25fe5bbee52b1nat;
    let e6 = 2 * e5;
    lemma_power_mod_square(5nat, e5, n, x5, 0x3beda2b6e4b9b9ae4d0nat, x6);
    let x7 = 0xb179cf078def5d4d4enat;
    let e7 = 2 * e6 + 1;
    lemma_power_mod_square_times(5nat, e6, n, x6, 0x14221801366650c1395fnat, x7);
    let x8 = 0x49f05d21cb26bc8f923nat;
    let e8 = 2 * e7;
    lemma_power_mod_square(5nat, e7, n, x7, 0x1a3b6fd0127c4d8e19nat, x8);
    let x9 = 0x4b0b9f59a0a545761c8nat;
    let e9 = 2 * e8;
    lemma_power_mod_square(5nat, e8, n, x8, 0x48d94812af0c244f979nat, x9);
}

proof fn lemma_power_22149492674086928081353_over_2()
    ensures
        power_mod(5nat, 0x2585cfacd052a2bb0e4nat, 0x4b0b9f59a0a545761c9nat) == 0x4b0b9f59a0a545761c8nat,
{
    lemma_power_mod_first(5nat, 0x4b0b9f59a0a545761c9nat);
    lemma_power_22149492674086928081353_over_2_part_0();
    lemma_power_22149492674086928081353_over_2_part_1();
    lemma_power_22149492674086928081353_over_2_part_2();
}

proof fn lemma_power_22149492674086928081353_over_3_part_0()
    requires
        power_mod(5nat, 1nat, 0x4b0b9f59a0a545761c9nat) == 5nat,
    ensures
        power_mod(5nat, 0x1903dfc88nat, 0x4b0b9f59a0a545761c9nat) == 0x6d3798dbad59779028nat,
{
    let n = 0x4b0b9f59a0a545761c9nat;
    let e0 = 1nat;
    let x0 = 5nat;
    let x1 = 125nat;
    let e1 = 2 * e0 + 1;
    lemma_power_mod_square_times(5nat, e0, n, x0, 0nat, x1);
    let x2 = 15625nat;
    let e2 = 2 * e1;
    lemma_power_mod_square(5nat, e1, n, x1, 0nat, x2);
    let x3 = 0xe8d4a51nat;
    let e3 = 2 * e2;
    lemma_power_mod_square(5nat, e2, n, x2, 0nat, x3);
    let x4 = 0x422ca8b0a00a425nat;
    let e4 = 2 * e3 + 1;
    lemma_power_mod_square_times(5nat, e3, n, x3, 0nat, x4);
    let x5 = 0x6817ffe98e1c85786enat;
    let e5 = 2 * e4;
    lemma_power_mod_square(5nat, e4, n, x4, 0x3a5a2419b13nat, x5);
    let x6 = 0x36b637aebf17346b11cnat;
    let e6 = 2 * e5;
    lemma_power_mod_square(5nat, e5, n, x5, 0x9062d3d2a629c00e8nat, x6);
    let x7 = 0x314083419b704da4e77nat;
    let e7 = 2 * e6;
    lemma_power_mod_square(5nat, e6, n, x6, 0x27e338a8ad2a4399c51nat, x7);
    let x8 = 0x2162635901ffb51494cnat;
    let e8 = 2 * e7;
    lemma_power_mod_square(5nat, e7, n, x7, 0x2052eae86f4c8378c5dnat, x8);
    let x9 = 0x1b3521ad048be79b1a3nat;
    let e9 = 2 * e8;
    lemma_power_mod_square(5nat, e8, n, x8, 0xed9e77d2fbcf413405nat, x9);
    let x10 = 0x1d7936477f12bfbff93nat;
    let e10 = 2 * e9;
    lemma_power_mod_square(5nat, e9, n, x9, 0x9dd317256698ea2786nat, x10);
    let x11 = 0x34a28e35b4683b01bd6nat;
    let e11 = 2 * e10 + 1;
    lemma_power_mod_square_times(5nat, e10, n, x10, 0x39e09c3b04f2cb5bdffnat, x11);
    let x12 = 0x3286860421a9cb8421dnat;
    let e12 = 2 * e11 + 1;
    lemma_power_mod_square_times(5nat, e11, n, x11, 0xb895985dc1db640d11fnat, x12);
    let x13 = 0x6c2f47d3f655cff7acnat;
    let e13 = 2 * e12 + 1;
    lemma_power_mod_square_times(5nat, e12, n, x12, 0xaa15d85decefd7cdf39nat, x13);
    let x14 = 0x30b5b975fc91ac5a005nat;
    let e14 = 2 * e13 + 1;
    lemma_power_mod_square_times(5nat, e13, n, x13, 0x30bca2e73b747498f3nat, x14);
    let x15 = 0x4adce046995e59c75a8nat;
    let e15 = 2 * e14;
    lemma_power_mod_square(5nat, e14, n, x14, 0x1f9dbf733477f6eb769nat, x15);
    let x16 = 0x3b1219223cf9909b708nat;
    let e16 = 2 * e15 + 1;
    lemma_power_mod_square_times(5nat, e15, n, x15, 0x175673799c9c53291a78nat, x16);
    let x17 = 0x8654ef8367b9c4be2fnat;
    let e17 = 2 * e16 + 1;
    lemma_power_mod_square_times(5nat, e16, n, x16, 0xe87b7f5589bf1286b09nat, x17);
    let x18 = 0x2cb21cf2c2c80769edenat;
    let e18 = 2 * e17 + 1;
    lemma_power_mod_square_times(5nat, e17, n, x17, 0x4b246264af82d5398fnat, x18);
    let x19 = 0x2dc6c17e896370b4cb5nat;
    let e19 = 2 * e18 + 1;
    lemma_power_mod_square_times(5nat, e18, n, x18, 0x8519a1dad9876271667nat, x19);
    let x20 = 0x127dc8654b6c4eafeanat;
    let e20 = 2 * e19 + 1;
    lemma_power_mod_square_times(5nat, e19, n, x19, 0x8b9d2fe2390fc56f9dbnat, x20);
    let x21 = 0x291725de663b5d9b2a6nat;
    let e21 = 2 * e20 + 1;
    lemma_power_mod_square_times(5nat, e20, n, x20, 0x16c81187d1977375enat, x21);
    let x22 = 0x238ba8b01830bd79e26nat;
    let e22 = 2 * e21 + 1;
    lemma_power_mod_square_times(5nat, e21, n, x21, 0x707e50c601426388a9enat, x22);
    let x23 = 0x4431440415e0d629210nat;
    let e23 = 2 * e22;
    lemma_power_mod_square(5nat, e22, n, x22, 0x10d616a705fecd5e8f4nat, x23);
    let x24 = 0x28fa59bccbebfe40f34nat;
    let e24 = 2 * e23;
    lemma_power_mod_square(5nat, e23, n, x23, 0x3df71cc21c326ade96cnat, x24);
    let x25 = 0x42fcd249fc2bcdccfe2nat;
    let e25 = 2 * e24 + 1;
    lemma_power_mod_square_times(5nat, e24, n, x24, 0x6fe0da98b136bdcdc7enat, x25);
    let x26 = 0x2d22cd8e1e42edecdd9nat;
    let e26 = 2 * e25;
    lemma_power_mod_square(5nat, e25, n, x25, 0x3bcb8236477d25a75d3nat, x26);
    let x27 = 0x33dae2d6ad1bfc1e34nat;
    let e27 = 2 * e26;
    lemma_power_mod_square(5nat, e26, n, x26, 0x1b259ea9089960a4c55nat, x27);
    let x28 = 0x263896cdcfd18779b61nat;
    let e28 = 2 * e27;
    lemma_power_mod_square(5nat, e27, n, x27, 0x23d4b537561d43537nat, x28);
    let x29 = 0x485a7f119900f94794bnat;
    let e29 = 2 * e28 + 1;
    lemma_power_mod_square_times(5nat, e28, n, x28, 0x6154bc4f9cdb96d35aanat, x29);
    let x30 = 0x237ecdd30dc02e43266nat;
    let e30 = 2 * e29;
    lemma_power_mod_square(5nat, e29, n, x29, 0x45c216e31c47c285e7bnat, x30);
    let x31 = 0x48ae09ae4bd022c170enat;
    let e31 = 2 * e30;
    lemma_power_mod_square(5nat, e30, n, x30, 0x10c9eb64e72d67d17e6nat, x31);
    let x32 = 0x6d3798dbad59779028nat;
    let e32 = 2 * e31;
    lemma_power_mod_square(5nat, e31, n, x31, 0x46638ad2d6a66f97dbcnat, x32);
}

proof fn lemma_power_22149492674086928081353_over_3_part_1()
    requires
        power_mod(5nat, 0x1903dfc88nat, 0x4b0b9f59a0a545761c9nat) == 0x6d3798dbad59779028nat,
    ensures
        power_mod(5nat, 0x1903dfc88ae1c1d20nat, 0x4b0b9f59a0a545761c9nat) == 0x15bf05678ecf0b40b06nat,
{
    let n = 0x4b0b9f59a0a545761c9nat;
    let e0 = 0x1903dfc88nat;
    let x0 = 0x6d3798dbad59779028nat;
    let x1 = 0x28693d67b1b65f0c87nat;
    let e1 = 2 * e0 + 1;
    lemma_power_mod_square_times(5nat, e0, n, x0, 0x31abeb96957b9d2171nat, x1);
    let x2 = 0x48ad0307dcea63f54cnat;
    let e2 = 2 * e1;
    lemma_power_mod_square(5nat, e1, n, x1, 0x15c2cb384f911c53dnat, x2);
    let x3 = 0x424a072197797f77df1nat;
    let e3 = 2 * e2 + 1;
    lemma_power_mod_square_times(5nat, e2, n, x2, 0x15fe7c67a91ba6db67nat, x3);
    let x4 = 0x38656f3877694100d39nat;
    let e4 = 2 * e3;
    lemma_power_mod_square(5nat, e3, n, x3, 0x3a8dfaffea97042c668nat, x4);
    let x5 = 0x29d893d42a4f1726eafnat;
    let e5 = 2 * e4 + 1;
    lemma_power_mod_square_times(5nat, e4, n, x4, 0xd3e848edcdfb0b43f96nat, x5);
    let x6 = 0x1cfa8708b55a6ab9d4enat;
    let e6 = 2 * e5 + 1;
    lemma_power_mod_square_times(5nat, e5, n, x5, 0x74ab28a6ced5319e99fnat, x6);
    let x7 = 0x114ce18008d33f27619nat;
    let e7 = 2 * e6 + 1;
    lemma_power_mod_square_times(5nat, e6, n, x6, 0x37f33e60775f7a42c63nat, x7);
    let x8 = 0x2ab396d45e9c2619f97nat;
    let e8 = 2 * e7;
    lemma_power_mod_square(5nat, e7, n, x7, 0x3fcfeec2895b8d350anat, x8);
    let x9 = 0x27a3a01bc05bf97b062nat;
    let e9 = 2 * e8;
    lemma_power_mod_square(5nat, e8, n, x8, 0x184c2ca4976f1c3b4b7nat, x9);
    let x10 = 0x312f258323b059257a3nat;
    let e10 = 2 * e9;
    lemma_power_mod_square(5nat, e9, n, x9, 0x14f0001238f03729759nat, x10);
    let x11 = 0x47504f831571d561c25nat;
    let e11 = 2 * e10;
    lemma_power_mod_square(5nat, e10, n, x10, 0x203c237a518716f5a84nat, x11);
    let x12 = 0x3a9ad058350fc1472c4nat;
    let e12 = 2 * e11 + 1;
    lemma_power_mod_square_times(5nat, e11, n, x11, 0x152d682f26bffffb64b1nat, x12);
    let x13 = 0x352c892538ab3623e26nat;
    let e13 = 2 * e12 + 1;
    lemma_power_mod_square_times(5nat, e12, n, x12, 0xe4d4464291ea967e3danat, x13);
    let x14 = 0x227938b74026b9734dnat;
    let e14 = 2 * e13 + 1;
    lemma_power_mod_square_times(5nat, e13, n, x13, 0xbc624f24dc3e34c552fnat, x14);
    let x15 = 0x48008d0f22e6acd197bnat;
    let e15 = 2 * e14;
    lemma_power_mod_square(5nat, e14, n, x14, 0xfd6083bc1e5c153enat, x15);
    let x16 = 0x1f58d274a32058085bdnat;
    let e16 = 2 * e15;
    lemma_power_mod_square(5nat, e15, n, x15, 0x45151291e7b03b76e7cnat, x16);
    let x17 = 0x431775efd0b9ebd1b10nat;
    let e17 = 2 * e16;
    lemma_power_mod_square(5nat, e16, n, x16, 0xd18057a7245013c331nat, x17);
    let x18 = 0x208b310b2f06726d0e8nat;
    let e18 = 2 * e17;
    lemma_power_mod_square(5nat, e17, n, x17, 0x3bfb1a7a520f7fddb58nat, x18);
    let x19 = 0x4033759bf40143aa7eenat;
    let e19 = 2 * e18;
    lemma_power_mod_square(5nat, e18, n, x18, 0xe1cda2be158db690c2nat, x19);
    let x20 = 0x384e9b233c22b295b4anat;
    let e20 = 2 * e19 + 1;
    lemma_power_mod_square_times(5nat, e19, n, x19, 0x1129e51ec56dc9b707banat, x20);
    let x21 = 0x11a5375548d6d0f6b7nat;
    let e21 = 2 * e20 + 1;
    lemma_power_mod_square_times(5nat, e20, n, x20, 0xd33cddabbc6ae5c04d5nat, x21);
    let x22 = 0x788f21ddd7e04205c2nat;
    let e22 = 2 * e21 + 1;
    lemma_power_mod_square_times(5nat, e21, n, x21, 0x14bea679c922ceb3bnat, x22);
    let x23 = 0x3c2df78a6c278b92d21nat;
    let e23 = 2 * e22;
    lemma_power_mod_square(5nat, e22, n, x22, 0xc1ad13be0c2edb44bnat, x23);
    let x24 = 0x1c66829bbc855969c5bnat;
    let e24 = 2 * e23 + 1;
    lemma_power_mod_square_times(5nat, e23, n, x23, 0xf14ae4cac726360689anat, x24);
    let x25 = 0x366e63a82aac96bf0a1nat;
    let e25 = 2 * e24;
    lemma_power_mod_square(5nat, e24, n, x24, 0xabf79dc19ab323f5f8nat, x25);
    let x26 = 0x817f4be72f33ed6bc1nat;
    let e26 = 2 * e25;
    lemma_power_mod_square(5nat, e25, n, x25, 0x277ac1dba081f18cd80nat, x26);
    let x27 = 0x3b86544608f6074d19nat;
    let e27 = 2 * e26 + 1;
    lemma_power_mod_square_times(5nat, e26, n, x26, 0x45d4afa204570d0b0cnat, x27);
    let x28 = 0x96a5c62d44927ffbcdnat;
    let e28 = 2 * e27;
    lemma_power_mod_square(5nat, e27, n, x27, 0x2f36c7fac4644fd84nat, x28);
    let x29 = 0x360cb2751c6eacc528fnat;
    let e29 = 2 * e28;
    lemma_power_mod_square(5nat, e28, n, x28, 0x12e69aa0106c8c6fcanat, x29);
    let x30 = 0x33392dda94cfa6b9af4nat;
    let e30 = 2 * e29;
    lemma_power_mod_square(5nat, e29, n, x29, 0x26ed8a2abe2ca202805nat, x30);
    let x31 = 0x342624552d95a4dbfa6nat;
    let e31 = 2 * e30;
    lemma_power_mod_square(5nat, e30, n, x30, 0x22f69883b796be7b69anat, x31);
    let x32 = 0x15bf05678ecf0b40b06nat;
    let e32 = 2 * e31;
    lemma_power_mod_square(5nat, e31, n, x31, 0x243d00e76823596aeaenat, x32);
}

proof fn lemma_power_22149492674086928081353_over_3_part_2()
    requires
        power_mod(5nat, 0x1903dfc88ae1c1d20nat, 0x4b0b9f59a0a545761c9nat) == 0x15bf05678ecf0b40b06nat,
    ensures
        power_mod(5nat, 0x1903dfc88ae1c1d2098nat, 0x4b0b9f59a0a545761c9nat) == 0x2207af882d81b3b1e3fnat,
{
    let n = 0x4b0b9f59a0a545761c9nat;
    let e0 = 0x1903dfc88ae1c1d20nat;
    let x0 = 0x15bf05678ecf0b40b06nat;
    let x1 = 0x230020642278df4ddaenat;
    let e1 = 2 * e0 + 1;
    lemma_power_mod_square_times(5nat, e0, n, x0, 0x1f81e0ffb0784dbb1d6nat, x1);
    let x2 = 0x19e21f825bce8728628nat;
    let e2 = 2 * e1;
    lemma_power_mod_square(5nat, e1, n, x1, 0x1052ebf94f1d535693cnat, x2);
    let x3 = 0xe67762fbfed1b51f2anat;
    let e3 = 2 * e2;
    lemma_power_mod_square(5nat, e2, n, x2, 0x8ed5c9b94fc519c966nat, x3);
    let x4 = 0x66cf5be62ba77dbac1nat;
    let e4 = 2 * e3 + 1;
    lemma_power_mod_square_times(5nat, e3, n, x3, 0xdd2d72b34a2455179bnat, x4);
    let x5 = 0x26bb70e61ab6ec09266nat;
    let e5 = 2 * e4 + 1;
    lemma_power_mod_square_times(5nat, e4, n, x4, 0x2c03bbf440c59b47a7nat, x5);
    let x6 = 0x24cce7e6030459afe27nat;
    let e6 = 2 * e5;
    lemma_power_mod_square(5nat, e5, n, x5, 0x13fd86900bbd0051515nat, x6);
    let x7 = 0x2207af882d81b3b1e40nat;
    let e7 = 2 * e6;
    lemma_power_mod_square(5nat, e6, n, x6, 0x120bc7a6dd89c0bcea9nat, x7);
    let x8 = 0x2207af882d81b3b1e3fnat;
    let e8 = 2 * e7;
    lemma_power_mod_square(5nat, e7, n, x7, 0xf6e64b8235e03fcc39nat, x8);
}

proof fn lemma_power_22149492674086928081353_over_3()
    ensures
        power_mod(5nat, 0x1903dfc88ae1c1d2098nat, 0x4b0b9f59a0a545761c9nat) == 0x2207af882d81b3b1e3fnat,
{
    lemma_power_mod_first(5nat, 0x4b0b9f59a0a545761c9nat);
    lemma_power_22149492674086928081353_over_3_part_0();
    lemma_power_22149492674086928081353_over_3_part_1();
    lemma_power_22149492674086928081353_over_3_part_2();
}

proof fn lemma_power_22149492674086928081353_over_5323_part_0()
    requires
        power_mod(5nat, 1nat, 0x4b0b9f59a0a545761c9nat) == 5nat,
    ensures
        power_mod(5nat, 0x1cdf958f6nat, 0x4b0b9f59a0a545761c9nat) == 0x43a033d43db93f44ec6nat,
{
    let n = 0x4b0b9f59a0a545761c9nat;
    let e0 = 1nat;
    let x0 = 5nat;
    let x1 = 125nat;
    let e1 = 2 * e0 + 1;
    lemma_power_mod_square_times(5nat, e0, n, x0, 0nat, x1);
    let x2 = 78125nat;
    let e2 = 2 * e1 + 1;
    lemma_power_mod_square_times(5nat, e1, n, x1, 0nat, x2);
    let x3 = 0x16bcc41e9nat;
    let e3 = 2 * e2;
    lemma_power_mod_square(5nat, e2, n, x2, 0nat, x3);
    let x4 = 0x204fce5e3e2502611nat;
    let e4 = 2 * e3;
    lemma_power_mod_square(5nat, e3, n, x3, 0nat, x4);
    let x5 = 0x3ece84f84b6f06a8042nat;
    let e5 = 2 * e4 + 1;
    lemma_power_mod_square_times(5nat, e4, n, x4, 0x458fa6daf49ffcbnat, x5);
    let x6 = 0x41215efe20cb14078abnat;
    let e6 = 2 * e5 + 1;
    lemma_power_mod_square_times(5nat, e5, n, x5, 0x106d1df5b3172b88f5a1nat, x6);
    let x7 = 0x2ee7f4f9d68a1c3fednat;
    let e7 = 2 * e6;
    lemma_power_mod_square(5nat, e6, n, x6, 0x3886799a14a6899f5ecnat, x7);
    let x8 = 0x253855787f71e13c84fnat;
    let e8 = 2 * e7 + 1;
    lemma_power_mod_square_times(5nat, e7, n, x7, 0x929707e69f78317cenat, x8);
    let x9 = 0xdb569eb527f259cbafnat;
    let e9 = 2 * e8 + 1;
    lemma_power_mod_square_times(5nat, e8, n, x8, 0x5c4cb41b43bdbdeb786nat, x9);
    let x10 = 0x247b9d3c88d91e3ee70nat;
    let e10 = 2 * e9 + 1;
    lemma_power_mod_square_times(5nat, e9, n, x9, 0xc8558efa7770594e8dnat, x10);
    let x11 = 0x1f2b04f5f3d3691b8b5nat;
    let e11 = 2 * e10 + 1;
    lemma_power_mod_square_times(5nat, e10, n, x10, 0x58adfc31a1551d69773nat, x11);
    let x12 = 0x3791c077280bd113d44nat;
    let e12 = 2 * e11 + 1;
    lemma_power_mod_square_times(5nat, e11, n, x11, 0x40b954ff22570713251nat, x12);
    let x13 = 0x2da332821a35a4e47a4nat;
    let e13 = 2 * e12 + 1;
    lemma_power_mod_square_times(5nat, e12, n, x12, 0xcdbd29b7216e098fb4cnat, x13);
    let x14 = 0x2fa7a956407b617dd72nat;
    let e14 = 2 * e13;
    lemma_power_mod_square(5nat, e13, n, x13, 0x1bc0ec4c788f56e25aenat, x14);
    let x15 = 0x1977be2bd0b3c760594nat;
    let e15 = 2 * e14;
    lemma_power_mod_square(5nat, e14, n, x14, 0x1e42f6aef3187960fb0nat, x15);
    let x16 = 0x2d26141909fd4dc274nat;
    let e16 = 2 * e15 + 1;
    lemma_power_mod_square_times(5nat, e15, n, x15, 0x2b36d8c2b04e8b0d47cnat, x16);
    let x17 = 0x3b4b7b4b2aff19d2356nat;
    let e17 = 2 * e16;
    lemma_power_mod_square(5nat, e16, n, x16, 0x1b298f7bdc77f446anat, x17);
    let x18 = 0x34c7a99e506d4e2c271nat;
    let e18 = 2 * e17 + 1;
    lemma_power_mod_square_times(5nat, e17, n, x17, 0xea4009cac319a0beb6bnat, x18);
    let x19 = 0x34b2bb90cca3f2546c3nat;
    let e19 = 2 * e18;
    lemma_power_mod_square(5nat, e18, n, x18, 0x251ed7b8718923c352enat, x19);
    let x20 = 0x104a187427cd417021enat;
    let e20 = 2 * e19 + 1;
    lemma_power_mod_square_times(5nat, e19, n, x19, 0xb907203ec02bf0a9397nat, x20);
    let x21 = 0x27d6f4273b6aa4696d5nat;
    let e21 = 2 * e20 + 1;
    lemma_power_mod_square_times(5nat, e20, n, x20, 0x11add3c2d345fc41447nat, x21);
    let x22 = 0x2e84e6df46d8d4aefd2nat;
    let e22 = 2 * e21;
    lemma_power_mod_square(5nat, e21, n, x21, 0x15265c627f6aa21ddafnat, x22);
    let x23 = 0x68f4bf6ba783a7adfenat;
    let e23 = 2 * e22;
    lemma_power_mod_square(5nat, e22, n, x22, 0x1cd617448522a9b9b16nat, x23);
    let x24 = 0x2ac41d9516e34f83c1enat;
    let e24 = 2 * e23;
    lemma_power_mod_square(5nat, e23, n, x23, 0x92c9c0c92f29ccfb6nat, x24);
    let x25 = 0x20faef33621f9e0a215nat;
    let e25 = 2 * e24 + 1;
    lemma_power_mod_square_times(5nat, e24, n, x24, 0x79dafac866e1c82fb07nat, x25);
    let x26 = 0xb37bdfe327fde95167nat;
    let e26 = 2 * e25 + 1;
    lemma_power_mod_square_times(5nat, e25, n, x25, 0x48781672beb00350c86nat, x26);
    let x27 = 0x204ec5159e14db10f0nat;
    let e27 = 2 * e26 + 1;
    lemma_power_mod_square_times(5nat, e26, n, x26, 0x86254ed426ec284c9dnat, x27);
    let x28 = 0x3d98a4743b776b9711enat;
    let e28 = 2 * e27 + 1;
    lemma_power_mod_square_times(5nat, e27, n, x27, 0x458b30b6e7f8355d2nat, x28);
    let x29 = 0x3dcb204be15ec94ce3nat;
    let e29 = 2 * e28;
    lemma_power_mod_square(5nat, e28, n, x28, 0x328eb0c32745edb7619nat, x29);
    let x30 = 0x1bd1b7112f60f763009nat;
    let e30 = 2 * e29 + 1;
    lemma_power_mod_square_times(5nat, e29, n, x29, 0xfe687ac889618c544nat, x30);
    let x31 = 0x457de57377454d5454nat;
    let e31 = 2 * e30 + 1;
    lemma_power_mod_square_times(5nat, e30, n, x30, 0x33900982d6990d44bb9nat, x31);
    let x32 = 0x43a033d43db93f44ec6nat;
    let e32 = 2 * e31;
    lemma_power_mod_square(5nat, e31, n, x31, 0x405961fc20a453b7anat, x32);
}

proof fn lemma_power_22149492674086928081353_over_5323_part_1()
    requires
        power_mod(5nat, 0x1cdf958f6nat, 0x4b0b9f59a0a545761c9nat) == 0x43a033d43db93f44ec6nat,
    ensures
        power_mod(5nat, 0x39bf2b1ed4653458nat, 0x4b0b9f59a0a545761c9nat) == 0x15d78d4bf64ce0c34ccnat,
{
    let n = 0x4b0b9f59a0a545761c9nat;
    let e0 = 0x1cdf958f6nat;
    let x0 = 0x43a033d43db93f44ec6nat;
    let x1 = 0xeb6814769b69d1365enat;
    let e1 = 2 * e0 + 1;
    lemma_power_mod_square_times(5nat, e0, n, x0, 0x130b2dfca23a5735efa6nat, x1);
    let x2 = 0x206eb8979c2a5ed55b5nat;
    let e2 = 2 * e1;
    lemma_power_mod_square(5nat, e1, n, x1, 0x2e26fb2fbde4cf2dd7nat, x2);
    let x3 = 0x35cf139013ab4aa7794nat;
    let e3 = 2 * e2 + 1;
    lemma_power_mod_square_times(5nat, e2, n, x2, 0x46150238aaeaaafdc81nat, x3);
    let x4 = 0x1643f8911c607f3f00bnat;
    let e4 = 2 * e3;
    lemma_power_mod_square(5nat, e3, n, x3, 0x2694f9ce9ba92ac7bddnat, x4);
    let x5 = 0xf4f391c8fd638840benat;
    let e5 = 2 * e4;
    lemma_power_mod_square(5nat, e4, n, x4, 0x69b25841f22f469763nat, x5);
    let x6 = 0x704b4912b9c75ec41dnat;
    let e6 = 2 * e5;
    lemma_power_mod_square(5nat, e5, n, x5, 0x31f883a6a6f839ad2fnat, x6);
    let x7 = 0x2095fdd3d6c0f71828bnat;
    let e7 = 2 * e6 + 1;
    lemma_power_mod_square_times(5nat, e6, n, x6, 0x34827cf4307bdee7d2nat, x7);
    let x8 = 0x44e4de7e92d5e6f1c6nat;
    let e8 = 2 * e7 + 1;
    lemma_power_mod_square_times(5nat, e7, n, x7, 0x46bf203753cc3e54a5fnat, x8);
    let x9 = 0xf4f78ab742f92f8f2nat;
    let e9 = 2 * e8;
    lemma_power_mod_square(5nat, e8, n, x8, 0x3f3f3246dd8e0b3a2nat, x9);
    let x10 = 0x113f9f66dc3445a18e0nat;
    let e10 = 2 * e9;
    lemma_power_mod_square(5nat, e9, n, x9, 0x31fa2293cfcd5ec4nat, x10);
    let x11 = 0x27cf1a1abc1054f2ac4nat;
    let e11 = 2 * e10 + 1;
    lemma_power_mod_square_times(5nat, e10, n, x10, 0x13d275dd30dc24ddd5cnat, x11);
    let x12 = 0x2da077e7d41d8aee1e6nat;
    let e12 = 2 * e11;
    lemma_power_mod_square(5nat, e11, n, x11, 0x151e070a54468b647danat, x12);
    let x13 = 0x43b5a9eacc52d15eabnat;
    let e13 = 2 * e12 + 1;
    lemma_power_mod_square_times(5nat, e12, n, x12, 0x8ab40590c0265c7fec1nat, x13);
    let x14 = 0x490a0ed531cb444cdf3nat;
    let e14 = 2 * e13;
    lemma_power_mod_square(5nat, e13, n, x13, 0x3d174716ec25ac916nat, x14);
    let x15 = 0xb61388f6b024668a46nat;
    let e15 = 2 * e14;
    lemma_power_mod_square(5nat, e14, n, x14, 0x471638d5bc0f36600cbnat, x15);
    let x16 = 0x2d202ccf59601a3f05nat;
    let e16 = 2 * e15 + 1;
    lemma_power_mod_square_times(5nat, e15, n, x15, 0x8a0c8211acab7902b7nat, x16);
    let x17 = 0x49039ffbf3124bc95f9nat;
    let e17 = 2 * e16 + 1;
    lemma_power_mod_square_times(5nat, e16, n, x16, 0x87ac4b8b914055664nat, x17);
    let x18 = 0x2d17cde1dba9827c309nat;
    let e18 = 2 * e17;
    lemma_power_mod_square(5nat, e17, n, x17, 0x4709b3bc7379aed93e8nat, x18);
    let x19 = 0x406e9714f0f281f8fdenat;
    let e19 = 2 * e18 + 1;
    lemma_power_mod_square_times(5nat, e18, n, x18, 0x8779fa89709c761157fnat, x19);
    let x20 = 0x44089a82055cc77385enat;
    let e20 = 2 * e19;
    lemma_power_mod_square(5nat, e19, n, x19, 0x3751d175a85c52c6df6nat, x20);
    let x21 = 0xbf1d36395d0812d989nat;
    let e21 = 2 * e20;
    lemma_power_mod_square(5nat, e20, n, x20, 0x3dad4cea04f1f20f6a3nat, x21);
    let x22 = 0x1903cb619ecc8ee111fnat;
    let e22 = 2 * e21;
    lemma_power_mod_square(5nat, e21, n, x21, 0x1e6b338a3193db51a2nat, x22);
    let x23 = 0x27c564d56126396c763nat;
    let e23 = 2 * e22 + 1;
    lemma_power_mod_square_times(5nat, e22, n, x22, 0x29b0dba1f04284c9752nat, x23);
    let x24 = 0x3021ec3e03692b6141nat;
    let e24 = 2 * e23;
    lemma_power_mod_square(5nat, e23, n, x23, 0x1513bb9872957d9fac8nat, x24);
    let x25 = 0xeb70979e11bfa3fdc2nat;
    let e25 = 2 * e24 + 1;
    lemma_power_mod_square_times(5nat, e24, n, x24, 0x9a5b15f77cd7fa22bnat, x25);
    let x26 = 0x2235af8b950d2f397c2nat;
    let e26 = 2 * e25 + 1;
    lemma_power_mod_square_times(5nat, e25, n, x25, 0xe6d3988a8e069269c2nat, x26);
    let x27 = 0x42b669c7decc3704da4nat;
    let e27 = 2 * e26;
    lemma_power_mod_square(5nat, e26, n, x26, 0xf9838cc148450cc660nat, x27);
    let x28 = 0x462bf5ff0919377f81fnat;
    let e28 = 2 * e27;
    lemma_power_mod_square(5nat, e27, n, x27, 0x3b4e11ed9d47affd1e9nat, x28);
    let x29 = 0x15d78d4bf64ce0c34ccnat;
    let e29 = 2 * e28;
    lemma_power_mod_square(5nat, e28, n, x28, 0x419d538b1fbd65489cdnat, x29);
}

proof fn lemma_power_22149492674086928081353_over_5323()
    ensures
        power_mod(5nat, 0x39bf2b1ed4653458nat, 0x4b0b9f59a0a545761c9nat) == 0x15d78d4bf64ce0c34ccnat,
{
    lemma_power_mod_first(5nat, 0x4b0b9f59a0a545761c9nat);
    lemma_power_22149492674086928081353_over_5323_part_0();
    lemma_power_22149492674086928081353_over_5323_part_1();
}

proof fn lemma_power_22149492674086928081353_over_173378833005251801_part_0()
    requires
        power_mod(5nat, 1nat, 0x4b0b9f59a0a545761c9nat) == 5nat,
    ensures
        power_mod(5nat, 127752nat, 0x4b0b9f59a0a545761c9nat) == 0x1131f862e9aa7c4286nat,
{
    let n = 0x4b0b9f59a0a545761c9nat;
    let e0 = 1nat;
    let x0 = 5nat;
    let x1 = 125nat;
    let e1 = 2 * e0 + 1;
    lemma_power_mod_square_times(5nat, e0, n, x0, 0nat, x1);
    let x2 = 78125nat;
    let e2 = 2 * e1 + 1;
    lemma_power_mod_square_times(5nat, e1, n, x1, 0nat, x2);
    let x3 = 0x71afd498dnat;
    let e3 = 2 * e2 + 1;
    lemma_power_mod_square_times(5nat, e2, n, x2, 0nat, x3);
    let x4 = 0xfc6f7c40458122964dnat;
    let e4 = 2 * e3 + 1;
    lemma_power_mod_square_times(5nat, e3, n, x3, 0nat, x4);
    let x5 = 0x1b446e68da13b77c97bnat;
    let e5 = 2 * e4;
    lemma_power_mod_square(5nat, e4, n, x4, 0x351228fcecc24f833enat, x5);
    let x6 = 0x452a62b19df4c41d2f3nat;
    let e6 = 2 * e5;
    lemma_power_mod_square(5nat, e5, n, x5, 0x9e84c927ff7ca15ff6nat, x6);
    let x7 = 0x25dd074014f2826a80fnat;
    let e7 = 2 * e6 + 1;
    lemma_power_mod_square_times(5nat, e6, n, x6, 0x13ebb6c05ff8c1931a4enat, x7);
    let x8 = 0x36f96b808609daecdb2nat;
    let e8 = 2 * e7 + 1;
    lemma_power_mod_square_times(5nat, e7, n, x7, 0x5f8497e0e9bc11ce29bnat, x8);
    let x9 = 0x44d2fd8394ffc5a9628nat;
    let e9 = 2 * e8;
    lemma_power_mod_square(5nat, e8, n, x8, 0x284571b2e14075bdabcnat, x9);
    let x10 = 0x267f86a40c9236fcd9fnat;
    let e10 = 2 * e9;
    lemma_power_mod_square(5nat, e9, n, x9, 0x3f1e62ea195220c2c19nat, x10);
    let x11 = 0x8c203eae66ce22a0fenat;
    let e11 = 2 * e10;
    lemma_power_mod_square(5nat, e10, n, x10, 0x13bfddbb97aeebfa32bnat, x11);
    let x12 = 0x49b295a5c088a331c04nat;
    let e12 = 2 * e11;
    lemma_power_mod_square(5nat, e11, n, x11, 0x105a538d9d3f186000nat, x12);
    let x13 = 0x179273543d0a4d6aea7nat;
    let e13 = 2 * e12 + 1;
    lemma_power_mod_square_times(5nat, e12, n, x12, 0x169deb7aa8bed6c2c0e1nat, x13);
    let x14 = 0x2154d0f07c49f8f1556nat;
    let e14 = 2 * e13;
    lemma_power_mod_square(5nat, e13, n, x13, 0x767722cd8f2381a443nat, x14);
    let x15 = 0x18c10e95d03c510d937nat;
    let e15 = 2 * e14;
    lemma_power_mod_square(5nat, e14, n, x14, 0xecdd6ba1f53a3b20c5nat, x15);
    let x16 = 0x1131f862e9aa7c4286nat;
    let e16 = 2 * e15;
    lemma_power_mod_square(5nat, e15, n, x15, 0x82a4ff41728a454a73nat, x16);
}

proof fn lemma_power_22149492674086928081353_over_173378833005251801()
    ensures
        power_mod(5nat, 127752nat, 0x4b0b9f59a0a545761c9nat) == 0x1131f862e9aa7c4286nat,
{
    lemma_power_mod_first(5nat, 0x4b0b9f59a0a545761c9nat);
    lemma_power_22149492674086928081353_over_173378833005251801_part_0();
}

proof fn lemma_certificate_22149492674086928081353()
    ensures
        is_certificate(0x4b0b9f59a0a545761c9nat, 5nat, seq![2nat, 2nat, 2nat, 3nat, 5323nat, 0x267f72148d98cd9nat]),
{
    let n = 0x4b0b9f59a0a545761c9nat;
    let factors = seq![2nat, 2nat, 2nat, 3nat, 5323nat, 0x267f72148d98cd9nat];
    lemma_small_primes();
    lemma_small_primes();
    lemma_prime_5323();
    lemma_prime_173378833005251801();
    lemma_power_22149492674086928081353_over_2();
    lemma_fundamental_div_mod_converse(0x4b0b9f59a0a545761c8int, 2int, 0x2585cfacd052a2bb0e4int, 0);
    lemma_power_22149492674086928081353_over_3();
    lemma_fundamental_div_mod_converse(0x4b0b9f59a0a545761c8int, 3int, 0x1903dfc88ae1c1d2098int, 0);
    lemma_power_22149492674086928081353_over_5323();
    lemma_fundamental_div_mod_converse(0x4b0b9f59a0a545761c8int, 5323int, 0x39bf2b1ed4653458int, 0);
    lemma_power_22149492674086928081353_over_173378833005251801();
    lemma_fundamental_div_mod_converse(0x4b0b9f59a0a545761c8int, 0x267f72148d98cd9int, 127752int, 0);
    lemma_power_mod_square(5nat, 0x2585cfacd052a2bb0e4nat, n, 0x4b0b9f59a0a545761c8nat, 0x4b0b9f59a0a545761c7nat, 1);
    let f0 = Seq::<nat>::empty();
    lemma_product_push(f0, 2nat, 1nat);
    let f1 = f0.push(2nat);
    lemma_product_push(f1, 2nat, 2nat);
    let f2 = f1.push(2nat);
    lemma_product_push(f2, 2nat, 4nat);
    let f3 = f2.push(2nat);
    lemma_product_push(f3, 3nat, 8nat);
    let f4 = f3.push(3nat);
    lemma_product_push(f4, 5323nat, 24nat);
    let f5 = f4.push(5323nat);
    lemma_product_push(f5, 0x267f72148d98cd9nat, 127752nat);
    let f6 = f5.push(0x267f72148d98cd9nat);
    assert(factors =~= f6);
    assert forall|j: int| 0 <= j < factors.len() implies is_prime(#[trigger] factors[j])
        && power_mod(5nat, ((n - 1) / factors[j] as int) as nat, n) != 1 by {
        if j == 0 {
        } else if j == 1 {
        } else if j == 2 {
        } else if j == 3 {
        } else if j == 4 {
        } else if j == 5 {
        }
    }
}

/// 22149492674086928081353 is prime.
pub(crate) proof fn lemma_prime_22149492674086928081353()
    ensures
        is_prime(0x4b0b9f59a0a545761c9nat),
{
    lemma_certificate_22149492674086928081353();
    lemma_certified_prime(0x4b0b9f59a0a545761c9nat, 5nat, seq![2nat, 2nat, 2nat, 3nat, 5323nat, 0x267f72148d98cd9nat]);
}

proof fn lemma_power_132896956044521568488119_over_2_part_0()
    requires
        power_mod(6nat, 1nat, 0x1c245bc19c3dfa0c4ab7nat) == 6nat,
    ensures
        power_mod(6nat, 0x1c245bc19nat, 0x1c245bc19c3dfa0c4ab7nat) == 0x2c0c184b52c66fdae2nat,
{
    let n = 0x1c245bc19c3dfa0c4ab7nat;
    let e0 = 1nat;
    let x0 = 6nat;
    let x1 = 216nat;
    let e1 = 2 * e0 + 1;
    lemma_power_mod_square_times(6nat, e0, n, x0, 0nat, x1);
    let x2 = 279936nat;
    let e2 = 2 * e1 + 1;
    lemma_power_mod_square_times(6nat, e1, n, x1, 0nat, x2);
    let x3 = 0x123ede4000nat;
    let e3 = 2 * e2;
    lemma_power_mod_square(6nat, e2, n, x2, 0nat, x3);
    let x4 = 0x14ce6b167f310000000nat;
    let e4 = 2 * e3;
    lemma_power_mod_square(6nat, e3, n, x3, 0nat, x4);
    let x5 = 0x1345cf380795e46c7c73nat;
    let e5 = 2 * e4;
    lemma_power_mod_square(6nat, e4, n, x4, 0xf61fee20b21682fdbnat, x5);
    let x6 = 0x1b2e57975d5f1633c64enat;
    let e6 = 2 * e5;
    lemma_power_mod_square(6nat, e5, n, x5, 0xd32daa364506335767dnat, x6);
    let x7 = 0x1a006b0fb6f5850c5f59nat;
    let e7 = 2 * e6 + 1;
    lemma_power_mod_square_times(6nat, e6, n, x6, 0x9d845c88b0c08a8de7b9nat, x7);
    let x8 = 0x1745d91188661a916e20nat;
    let e8 = 2 * e7;
    lemma_power_mod_square(6nat, e7, n, x7, 0x1806270de2c1a3a45ab7nat, x8);
    let x9 = 0x15d1f83191107dd3c420nat;
    let e9 = 2 * e8;
    lemma_power_mod_square(6nat, e8, n, x8, 0x133f02c4ee88553bdf20nat, x9);
    let x10 = 0x6fee1870e2f95b0bf78nat;
    let e10 = 2 * e9 + 1;
    lemma_power_mod_square_times(6nat, e9, n, x9, 0x6582d0b9dd9b1cdc83b8nat, x10);
    let x11 = 0x5743eca40ee42e3da22nat;
    let e11 = 2 * e10;
    lemma_power_mod_square(6nat, e10, n, x10, 0x1bd2ebb7401a0c9fcd2nat, x11);
    let x12 = 0x2cb562f18cee54b29d5nat;
    let e12 = 2 * e11;
    lemma_power_mod_square(6nat, e11, n, x11, 0x10e99a704503603afc9nat, x12);
    let x13 = 0x2286fdc877694204b87nat;
    let e13 = 2 * e12;
    lemma_power_mod_square(6nat, e12, n, x12, 0x470700d0375cead3denat, x13);
    let x14 = 0x13e715122a8c2025a505nat;
    let e14 = 2 * e13 + 1;
    lemma_power_mod_square_times(6nat, e13, n, x13, 0xfe2b15f55c3a2981e7nat, x14);
    let x15 = 0x1acdb3dece6ee8a7c7aanat;
    let e15 = 2 * e14;
    lemma_power_mod_square(6nat, e14, n, x14, 0xe135afa9c0ffb1b4609nat, x15);
    let x16 = 0x489dce6795c7fdd972bnat;
    let e16 = 2 * e15 + 1;
    lemma_power_mod_square_times(6nat, e15, n, x15, 0x992c10dc149c8287523bnat, x16);
    let x17 = 0x18b2ef48f8daa18fe130nat;
    let e17 = 2 * e16 + 1;
    lemma_power_mod_square_times(6nat, e16, n, x16, 0x46441dbecdbd4bf1d0anat, x17);
    let x18 = 0x56d73a2f314512297c0nat;
    let e18 = 2 * e17;
    lemma_power_mod_square(6nat, e17, n, x17, 0x15ad597d5f6e355378c0nat, x18);
    let x19 = 0x184d0bcafc7655439c50nat;
    let e19 = 2 * e18 + 1;
    lemma_power_mod_square_times(6nat, e18, n, x18, 0x647d70fb06b7bc569d0nat, x19);
    let x20 = 0xfef3e351aa7b7222fd5nat;
    let e20 = 2 * e19 + 1;
    lemma_power_mod_square_times(6nat, e19, n, x19, 0x7de7aade83b421dfdc2dnat, x20);
    let x21 = 0x19955532bec09516c3cdnat;
    let e21 = 2 * e20 + 1;
    lemma_power_mod_square_times(6nat, e20, n, x20, 0x362276bd724a08bd5fbfnat, x21);
    let x22 = 0x14120a533194bf29bcnat;
    let e22 = 2 * e21 + 1;
    lemma_power_mod_square_times(6nat, e21, n, x21, 0x8b8b2cf58d8fa1792496nat, x22);
    let x23 = 0x152b572654c7fc075432nat;
    let e23 = 2 * e22;
    lemma_power_mod_square(6nat, e22, n, x22, 0xe505f8ecd8f3b12nat, x23);
    let x24 = 0x19a9b344820e5023c540nat;
    let e24 = 2 * e23;
    lemma_power_mod_square(6nat, e23, n, x23, 0xfec984a3e15f727db9cnat, x24);
    let x25 = 0xb5b01079d1063225af4nat;
    let e25 = 2 * e24;
    lemma_power_mod_square(6nat, e24, n, x24, 0x1766f392677dc9f7d754nat, x25);
    let x26 = 0x8040a083c0fc55cbef9nat;
    let e26 = 2 * e25;
    lemma_power_mod_square(6nat, e25, n, x25, 0x494fe93bb9f1c0aa821nat, x26);
    let x27 = 0x38eb98e5fc865f2cb5anat;
    let e27 = 2 * e26;
    lemma_power_mod_square(6nat, e26, n, x26, 0x2487d0ffcddbf8aa8e1nat, x27);
    let x28 = 0x13c8fb3e8fc26d767432nat;
    let e28 = 2 * e27 + 1;
    lemma_power_mod_square_times(6nat, e27, n, x27, 0x2b2c3d3b9cee10bed8anat, x28);
    let x29 = 0x9e8d0dec376e419ce07nat;
    let e29 = 2 * e28 + 1;
    lemma_power_mod_square_times(6nat, e28, n, x28, 0x53756e44fcc371097af7nat, x29);
    let x30 = 0x17a82e4a4078b934185cnat;
    let e30 = 2 * e29;
    lemma_power_mod_square(6nat, e29, n, x29, 0x37d450969006f7a21d3nat, x30);
    let x31 = 0x19300513c4eb008b92c5nat;
    let e31 = 2 * e30;
    lemma_power_mod_square(6nat, e30, n, x30, 0x13e2fdc68946c7c3150dnat, x31);
    let x32 = 0x2c0c184b52c66fdae2nat;
    let e32 = 2 * e31 + 1;
    lemma_power_mod_square_times(6nat, e31, n, x31, 0x8742817af564c6c746ecnat, x32);
}

proof fn lemma_power_132896956044521568488119_over_2_part_1()
    requires
        power_mod(6nat, 0x1c245bc19nat, 0x1c245bc19c3dfa0c4ab7nat) == 0x2c0c184b52c66fdae2nat,
    ensures
        power_mod(6nat, 0x1c245bc19c3dfa0c4nat, 0x1c245bc19c3dfa0c4ab7nat) == 0xb8faa5839f5d8970d9anat,
{
    let n = 0x1c245bc19c3dfa0c4ab7nat;
    let e0 = 0x1c245bc19nat;
    let x0 = 0x2c0c184b52c66fdae2nat;
    let x1 = 0x31524a0ea78762a01f8nat;
    let e1 = 2 * e0 + 1;
    lemma_power_mod_square_times(6nat, e0, n, x0, 0x19da67eb8f5d81de0nat, x1);
    let x2 = 0x14dbbbcc063036f3834anat;
    let e2 = 2 * e1 + 1;
    lemma_power_mod_square_times(6nat, e1, n, x1, 0x206a4476ef04931f57anat, x2);
    let x3 = 0xf66f5850d42079842denat;
    let e3 = 2 * e2;
    lemma_power_mod_square(6nat, e2, n, x2, 0xf75b5861488b0eb97aanat, x3);
    let x4 = 0xce4c2c2efc4f7e729a7nat;
    let e4 = 2 * e3;
    lemma_power_mod_square(6nat, e3, n, x3, 0x86dfd2e7af23258ef0bnat, x4);
    let x5 = 0x17924f6454c454e87163nat;
    let e5 = 2 * e4;
    lemma_power_mod_square(6nat, e4, n, x4, 0x5e848330c0321199ce2nat, x5);
    let x6 = 0x262a464288ff875f1cbnat;
    let e6 = 2 * e5;
    lemma_power_mod_square(6nat, e5, n, x5, 0x13be4999378e1c805372nat, x6);
    let x7 = 0x106b27c5498ffff1b883nat;
    let e7 = 2 * e6 + 1;
    lemma_power_mod_square_times(6nat, e6, n, x6, 0x1368c6d8a1b03624245nat, x7);
    let x8 = 0x1488324ebd0948e7cd33nat;
    let e8 = 2 * e7 + 1;
    lemma_power_mod_square_times(6nat, e7, n, x7, 0x39793078e56164929c15nat, x8);
    let x9 = 0x1a680be282b51142ae56nat;
    let e9 = 2 * e8 + 1;
    lemma_power_mod_square_times(6nat, e8, n, x8, 0x59e112c14a2226295260nat, x9);
    let x10 = 0x1bbbefa2c6af4ae766e4nat;
    let e10 = 2 * e9 + 1;
    lemma_power_mod_square_times(6nat, e9, n, x9, 0x94aad1684b3dc09a192cnat, x10);
    let x11 = 0x390a35d9e43cff2212fnat;
    let e11 = 2 * e10;
    lemma_power_mod_square(6nat, e10, n, x10, 0x1b5506fac49c546ec827nat, x11);
    let x12 = 0x141fa5cf139cbea99f76nat;
    let e12 = 2 * e11 + 1;
    lemma_power_mod_square_times(6nat, e11, n, x11, 0x2b5aba096acd3ecea30nat, x12);
    let x13 = 0x16a59a9e3847aa4dbbadnat;
    let e13 = 2 * e12 + 1;
    lemma_power_mod_square_times(6nat, e12, n, x12, 0x5656d93ed623ddf0a3adnat, x13);
    let x14 = 0x48572be18e9db23f083nat;
    let e14 = 2 * e13 + 1;
    lemma_power_mod_square_times(6nat, e13, n, x13, 0x6d593b3224668ea2afa5nat, x14);
    let x15 = 0x77f13bc59bb73a9bd38nat;
    let e15 = 2 * e14 + 1;
    lemma_power_mod_square_times(6nat, e14, n, x14, 0x45bbadb94bb8c6cacf2nat, x15);
    let x16 = 0x14ba2da29999cceabf19nat;
    let e16 = 2 * e15 + 1;
    lemma_power_mod_square_times(6nat, e15, n, x15, 0xbfb30d349fa8a53add1nat, x16);
    let x17 = 0x17d3d3bbd5bc842b66fanat;
    let e17 = 2 * e16 + 1;
    lemma_power_mod_square_times(6nat, e16, n, x16, 0x5b98bed33eeb5a0aa5b4nat, x17);
    let x18 = 0x1ae3fd874d1c332386dfnat;
    let e18 = 2 * e17;
    lemma_power_mod_square(6nat, e17, n, x17, 0x142ca2df6ca2ca33c3e3nat, x18);
    let x19 = 0xd034f6e857fce83763anat;
    let e19 = 2 * e18 + 1;
    lemma_power_mod_square_times(6nat, e18, n, x18, 0x9a2b362ce3c5e822cf14nat, x19);
    let x20 = 0xbf859affd1dc7efe813nat;
    let e20 = 2 * e19;
    lemma_power_mod_square(6nat, e19, n, x19, 0x604679ff20c582e2e77nat, x20);
    let x21 = 0x1215cb11304d7c383826nat;
    let e21 = 2 * e20;
    lemma_power_mod_square(6nat, e20, n, x20, 0x51769529569886369d5nat, x21);
    let x22 = 0x71c692b7df8ae9dbe7bnat;
    let e22 = 2 * e21;
    lemma_power_mod_square(6nat, e21, n, x21, 0xb9f47bec1b783f9fd1fnat, x22);
    let x23 = 0xca4997527997f141322nat;
    let e23 = 2 * e22;
    lemma_power_mod_square(6nat, e22, n, x22, 0x1cbfc1d88b9d87ad8c1nat, x23);
    let x24 = 0x1208cbbb5812f7601d5bnat;
    let e24 = 2 * e23;
    lemma_power_mod_square(6nat, e23, n, x23, 0x5ae0f97c21ad0ab511fnat, x24);
    let x25 = 0x158ada92e9e80026335cnat;
    let e25 = 2 * e24 + 1;
    lemma_power_mod_square_times(6nat, e24, n, x24, 0x4557973ac00800c5e116nat, x25);
    let x26 = 0xf842b3cde8d51ab86aenat;
    let e26 = 2 * e25 + 1;
    lemma_power_mod_square_times(6nat, e25, n, x25, 0x62f1582373c33e33c3denat, x26);
    let x27 = 0x403d6b0a38a86a6c23nat;
    let e27 = 2 * e26;
    lemma_power_mod_square(6nat, e26, n, x26, 0x88e14a3692903be71e7nat, x27);
    let x28 = 0x63f3957028720d9c67nat;
    let e28 = 2 * e27;
    lemma_power_mod_square(6nat, e27, n, x27, 0x92a405c28cc018aenat, x28);
    let x29 = 0xbc240868d13b8e0a0banat;
    let e29 = 2 * e28;
    lemma_power_mod_square(6nat, e28, n, x28, 0x162fef01ab2116a01nat, x29);
    let x30 = 0x161ba297b60d0dbb6183nat;
    let e30 = 2 * e29 + 1;
    lemma_power_mod_square_times(6nat, e29, n, x29, 0x1d7ac78e0d1855e5f053nat, x30);
    let x31 = 0x1ad24ff6cb315def6923nat;
    let e31 = 2 * e30;
    lemma_power_mod_square(6nat, e30, n, x30, 0x115e1fb455a82aa7b14anat, x31);
    let x32 = 0xb8faa5839f5d8970d9anat;
    let e32 = 2 * e31;
    lemma_power_mod_square(6nat, e31, n, x31, 0x199020d470d6bc789949nat, x32);
}

proof fn lemma_power_132896956044521568488119_over_2_part_2()
    requires
        power_mod(6nat, 0x1c245bc19c3dfa0c4nat, 0x1c245bc19c3dfa0c4ab7nat) == 0xb8faa5839f5d8970d9anat,
    ensures
        power_mod(6nat, 0xe122de0ce1efd06255bnat, 0x1c245bc19c3dfa0c4ab7nat) == 0x1c245bc19c3dfa0c4ab6nat,
{
    let n = 0x1c245bc19c3dfa0c4ab7nat;
    let e0 = 0x1c245bc19c3dfa0c4nat;
    let x0 = 0xb8faa5839f5d8970d9anat;
    let x1 = 0x3a353e43b8b63140ed3nat;
    let e1 = 2 * e0 + 1;
    lemma_power_mod_square_times(6nat, e0, n, x0, 0x1c7f444576cfc31c3223nat, x1);
    let x2 = 0xe12ae537ab4c617a10anat;
    let e2 = 2 * e1;
    lemma_power_mod_square(6nat, e1, n, x1, 0x786535f602f2acd319nat, x2);
    let x3 = 0xbd2752ec1cd12c1d60bnat;
    let e3 = 2 * e2 + 1;
    lemma_power_mod_square_times(6nat, e2, n, x2, 0x2a398c6033811d2b551bnat, x3);
    let x4 = 0x7dab27be584be8a30ccnat;
    let e4 = 2 * e3;
    lemma_power_mod_square(6nat, e3, n, x3, 0x4f760302026ef1560bbnat, x4);
    let x5 = 0x124012ff2cfb43c0bb2bnat;
    let e5 = 2 * e4 + 1;
    lemma_power_mod_square_times(6nat, e4, n, x4, 0xd270c3f1e5d3d679c73nat, x5);
    let x6 = 0xc1962ced4f7af698a22nat;
    let e6 = 2 * e5;
    lemma_power_mod_square(6nat, e5, n, x5, 0xbd5df007ba301bd3ea1nat, x6);
    let x7 = 0x73c4121819762d8151cnat;
    let e7 = 2 * e6 + 1;
    lemma_power_mod_square_times(6nat, e6, n, x6, 0x1f35ff1ea6c74f1aede4nat, x7);
    let x8 = 0x242f87d78eb7506f6danat;
    let e8 = 2 * e7 + 1;
    lemma_power_mod_square_times(6nat, e7, n, x7, 0xb294f1e47b6961162aanat, x8);
    let x9 = 0xa4099e4b4d8e27efad6nat;
    let e9 = 2 * e8;
    lemma_power_mod_square(6nat, e8, n, x8, 0x2e874309f4be6f09a2nat, x9);
    let x10 = 0x17b823b93c4bf4460c0enat;
    let e10 = 2 * e9 + 1;
    lemma_power_mod_square_times(6nat, e9, n, x9, 0x1668f8480700cf487306nat, x10);
    let x11 = 0x1c245bc19c3dfa0c4ab6nat;
    let e11 = 2 * e10 + 1;
    lemma_power_mod_square_times(6nat, e10, n, x10, 0x77f324e0f9b5e5123b2enat, x11);
}

proof fn lemma_power_132896956044521568488119_over_2()
    ensures
        power_mod(6nat, 0xe122de0ce1efd06255bnat, 0x1c245bc19c3dfa0c4ab7nat) == 0x1c245bc19c3dfa0c4ab6nat,
{
    lemma_power_mod_first(6nat, 0x1c245bc19c3dfa0c4ab7nat);
    lemma_power_132896956044521568488119_over_2_part_0();
    lemma_power_132896956044521568488119_over_2_part_1();
    lemma_power_132896956044521568488119_over_2_part_2();
}

proof fn lemma_power_132896956044521568488119_over_3_part_0()
    requires
        power_mod(6nat, 1nat, 0x1c245bc19c3dfa0c4ab7nat) == 6nat,
    ensures
        power_mod(6nat, 0x12c2e7d66nat, 0x1c245bc19c3dfa0c4ab7nat) == 0xa12cc288fa31e6f5643nat,
{
    let n = 0x1c245bc19c3dfa0c4ab7nat;
    let e0 = 1nat;
    let x0 = 6nat;
    let x1 = 36nat;
    let e1 = 2 * e0;
    lemma_power_mod_square(6nat, e0, n, x0, 0nat, x1);
    let x2 = 1296nat;
    let e2 = 2 * e1;
    lemma_power_mod_square(6nat, e1, n, x1, 0nat, x2);
    let x3 = 0x99c600nat;
    let e3 = 2 * e2 + 1;
    lemma_power_mod_square_times(6nat, e2, n, x2, 0nat, x3);
    let x4 = 0x5c5e45240000nat;
    let e4 = 2 * e3;
    lemma_power_mod_square(6nat, e3, n, x3, 0nat, x4);
    let x5 = 0x5346bafb07cdeaf1291nat;
    let e5 = 2 * e4 + 1;
    lemma_power_mod_square_times(6nat, e4, n, x4, 465673nat, x5);
    let x6 = 0xed0ef4965395da6a33dnat;
    let e6 = 2 * e5 + 1;
    lemma_power_mod_square_times(6nat, e5, n, x5, 0x5c68f183f18beb235bfnat, x6);
    let x7 = 0x1c1aa48577698ef34b17nat;
    let e7 = 2 * e6;
    lemma_power_mod_square(6nat, e6, n, x6, 0x7cce559341d3ab6d01enat, x7);
    let x8 = 0x15b2ae9bcc72cad31589nat;
    let e8 = 2 * e7;
    lemma_power_mod_square(6nat, e7, n, x7, 0x1c10f0a4042f7a5ee5b8nat, x8);
    let x9 = 0x46e7e1e702d4309d843nat;
    let e9 = 2 * e8;
    lemma_power_mod_square(6nat, e8, n, x8, 0x10bac0f3d60b06f63762nat, x9);
    let x10 = 0x55284f7de217b5e0e2fnat;
    let e10 = 2 * e9;
    lemma_power_mod_square(6nat, e9, n, x9, 0xb2a6ee59d74a8f7576nat, x10);
    let x11 = 0x3a68223ed4149ec30e5nat;
    let e11 = 2 * e10 + 1;
    lemma_power_mod_square_times(6nat, e10, n, x10, 0x60a1d052c3a93b34f27nat, x11);
    let x12 = 0x976a42e7f05d01ddc3nat;
    let e12 = 2 * e11;
    lemma_power_mod_square(6nat, e11, n, x11, 0x7938173ac88b9e0b9anat, x12);
    let x13 = 0xf55db98512f182f8113nat;
    let e13 = 2 * e12 + 1;
    lemma_power_mod_square_times(6nat, e12, n, x12, 0x1318089b99db3cdbf5nat, x13);
    let x14 = 0x9118a757c924a9bdb3bnat;
    let e14 = 2 * e13 + 1;
    lemma_power_mod_square_times(6nat, e13, n, x13, 0x3223dce21d707657b99dnat, x14);
    let x15 = 0xb965d9fe5e492b32a27nat;
    let e15 = 2 * e14 + 1;
    lemma_power_mod_square_times(6nat, e14, n, x14, 0x11889380f01b1f9c6509nat, x15);
    let x16 = 0x54a82b0dbbf5c74177enat;
    let e16 = 2 * e15;
    lemma_power_mod_square(6nat, e15, n, x15, 0x4c563a2cc4440298225nat, x16);
    let x17 = 0x1be0cf5fedc3b297a072nat;
    let e17 = 2 * e16;
    lemma_power_mod_square(6nat, e16, n, x16, 0xfeaa4499635b42e0fenat, x17);
    let x18 = 0x193f82eeefc9182f15aenat;
    let e18 = 2 * e17 + 1;
    lemma_power_mod_square_times(6nat, e17, n, x17, 0xa5b35ec372cc95515a66nat, x18);
    let x19 = 0xb8d5f081cf61b3a1f8nat;
    let e19 = 2 * e18 + 1;
    lemma_power_mod_square_times(6nat, e18, n, x18, 0x87e916ba7accb05bd160nat, x19);
    let x20 = 0x4bc3b95a85261b89b94nat;
    let e20 = 2 * e19 + 1;
    lemma_power_mod_square_times(6nat, e19, n, x19, 0x1c73f6102ae1068d74nat, x20);
    let x21 = 0x196f06a3bb211b9e1d16nat;
    let e21 = 2 * e20 + 1;
    lemma_power_mod_square_times(6nat, e20, n, x20, 0x4c7d96fedceed542c06nat, x21);
    let x22 = 0x12670c59f5e87b96955anat;
    let e22 = 2 * e21 + 1;
    lemma_power_mod_square_times(6nat, e21, n, x21, 0x89ea828cc9b5530e2bf2nat, x22);
    let x23 = 0x9594c2695e559cba88fnat;
    let e23 = 2 * e22;
    lemma_power_mod_square(6nat, e22, n, x22, 0xc08a1bd0ef43bf74c93nat, x23);
    let x24 = 0xa811dd25ff3af0e6977nat;
    let e24 = 2 * e23 + 1;
    lemma_power_mod_square_times(6nat, e23, n, x23, 0x12a256f20cf58122d5a9nat, x24);
    let x25 = 0x13f95733d2d7720d656bnat;
    let e25 = 2 * e24;
    lemma_power_mod_square(6nat, e24, n, x24, 0x3ebbf07fe7e5d57e14anat, x25);
    let x26 = 0xd01441c32618181668cnat;
    let e26 = 2 * e25 + 1;
    lemma_power_mod_square_times(6nat, e25, n, x25, 0x550f5cbe7ca70c4dd286nat, x26);
    let x27 = 0xc673dd8da325c69b6e2nat;
    let e27 = 2 * e26 + 1;
    lemma_power_mod_square_times(6nat, e26, n, x26, 0x240f16d1e22f6ada4972nat, x27);
    let x28 = 0x737cac84b91ccc19594nat;
    let e28 = 2 * e27;
    lemma_power_mod_square(6nat, e27, n, x27, 0x57773e6f542902e9590nat, x28);
    let x29 = 0x9d59fe3d6498334edf2nat;
    let e29 = 2 * e28;
    lemma_power_mod_square(6nat, e28, n, x28, 0x1d9ed291e4b38d04752nat, x29);
    let x30 = 0x163853f4b5be19dd024bnat;
    let e30 = 2 * e29 + 1;
    lemma_power_mod_square_times(6nat, e29, n, x29, 0x149ed519f3baf467971bnat, x30);
    let x31 = 0xce9b9ac02f994a0188fnat;
    let e31 = 2 * e30 + 1;
    lemma_power_mod_square_times(6nat, e30, n, x30, 0x6943eaa1442db76ecbf1nat, x31);
    let x32 = 0xa12cc288fa31e6f5643nat;
    let e32 = 2 * e31;
    lemma_power_mod_square(6nat, e31, n, x31, 0x5ecd5a3da92f543fd52nat, x32);
}

proof fn lemma_power_132896956044521568488119_over_3_part_1()
    requires
        power_mod(6nat, 0x12c2e7d66nat, 0x1c245bc19c3dfa0c4ab7nat) == 0xa12cc288fa31e6f5643nat,
    ensures
        power_mod(6nat, 0x12c2e7d66829515d8nat, 0x1c245bc19c3dfa0c4ab7nat) == 0xcede8dbce45e1aa3033nat,
{
    let n = 0x1c245bc19c3dfa0c4ab7nat;
    let e0 = 0x12c2e7d66nat;
    let x0 = 0xa12cc288fa31e6f5643nat;
    let x1 = 0xba5da39511b1d787475nat;
    let e1 = 2 * e0 + 1;
    lemma_power_mod_square_times(6nat, e0, n, x0, 0x15a27a502da73aa54c47nat, x1);
    let x2 = 0x7f85784a909e3702cc9nat;
    let e2 = 2 * e1;
    lemma_power_mod_square(6nat, e1, n, x1, 0x4d22cf95f557a0184d0nat, x2);
    let x3 = 0xf3984809922910f4ffenat;
    let e3 = 2 * e2;
    lemma_power_mod_square(6nat, e2, n, x2, 0x241d80d327835db51c5nat, x3);
    let x4 = 0x1a6afa4722873b090502nat;
    let e4 = 2 * e3;
    lemma_power_mod_square(6nat, e3, n, x3, 0x83c89030007e9be830enat, x4);
    let x5 = 0x1547b8504e6d5b338eb3nat;
    let e5 = 2 * e4;
    lemma_power_mod_square(6nat, e4, n, x4, 0x18cca36f687eb3ae4837nat, x5);
    let x6 = 0xe0069908a588c3b2992nat;
    let e6 = 2 * e5;
    lemma_power_mod_square(6nat, e5, n, x5, 0x10176711cdc7d047ea21nat, x6);
    let x7 = 0x14949c8e268caa3e79d4nat;
    let e7 = 2 * e6 + 1;
    lemma_power_mod_square_times(6nat, e6, n, x6, 0x29cc330db1c4c782885cnat, x7);
    let x8 = 0x2b2475cc05baee2c46dnat;
    let e8 = 2 * e7;
    lemma_power_mod_square(6nat, e7, n, x7, 0xf0cfb8b416683f0bef5nat, x8);
    let x9 = 0x4ba417b0ba15e218cednat;
    let e9 = 2 * e8 + 1;
    lemma_power_mod_square_times(6nat, e8, n, x8, 0x18cd49683f29c359dbfnat, x9);
    let x10 = 0x6e607428f82db6eb011nat;
    let e10 = 2 * e9;
    lemma_power_mod_square(6nat, e9, n, x9, 0xcb4f64d005c1123f68nat, x10);
    let x11 = 0x156958358ab205db927enat;
    let e11 = 2 * e10;
    lemma_power_mod_square(6nat, e10, n, x10, 0x1b0e993b0b756be9f75nat, x11);
    let x12 = 0x1e3871c72bf97449767nat;
    let e12 = 2 * e11 + 1;
    lemma_power_mod_square_times(6nat, e11, n, x11, 0x61be77dc3c416221fbd7nat, x12);
    let x13 = 0xac7eec04e7efff74216nat;
    let e13 = 2 * e12;
    lemma_power_mod_square(6nat, e12, n, x12, 0x2073d40a409c76827dnat, x13);
    let x14 = 0x12d1a00c6a528eb091enat;
    let e14 = 2 * e13 + 1;
    lemma_power_mod_square_times(6nat, e13, n, x13, 0x18c7d99310b7ee260d96nat, x14);
    let x15 = 0xfe124b792d5c247ead1nat;
    let e15 = 2 * e14;
    lemma_power_mod_square(6nat, e14, n, x14, 0xc9597df3af14f99e5nat, x15);
    let x16 = 0x166fe682d6ca53103272nat;
    let e16 = 2 * e15 + 1;
    lemma_power_mod_square_times(6nat, e15, n, x15, 0x35c2d3fd795c3a57a14cnat, x16);
    let x17 = 0x109ae1826b4b663c6c5dnat;
    let e17 = 2 * e16;
    lemma_power_mod_square(6nat, e16, n, x16, 0x11e3812a5817e9ac29d1nat, x17);
    let x18 = 0x173ef5092a15b972fe0cnat;
    let e18 = 2 * e17;
    lemma_power_mod_square(6nat, e17, n, x17, 0x9cc33ca2f8ec322692bnat, x18);
    let x19 = 0x10bd52312a8d9d001ff5nat;
    let e19 = 2 * e18;
    lemma_power_mod_square(6nat, e18, n, x18, 0x13339ed2b53343ca353dnat, x19);
    let x20 = 0x11f929e9fce1b639d62anat;
    let e20 = 2 * e19 + 1;
    lemma_power_mod_square_times(6nat, e19, n, x19, 0x3bbe0e4859e497a3fcb4nat, x20);
    let x21 = 0x41970cb7dc46baaedbenat;
    let e21 = 2 * e20;
    lemma_power_mod_square(6nat, e20, n, x20, 0xb7a98e375975b5cca0anat, x21);
    let x22 = 0xc5168ebd57bd73b1e87nat;
    let e22 = 2 * e21 + 1;
    lemma_power_mod_square_times(6nat, e21, n, x21, 0x39537520342012927f7nat, x22);
    let x23 = 0x8e2d67dd5e6b7dafe52nat;
    let e23 = 2 * e22;
    lemma_power_mod_square(6nat, e22, n, x22, 0x5644652d8d993406719nat, x23);
    let x24 = 0xe52b73ad397c2534813nat;
    let e24 = 2 * e23 + 1;
    lemma_power_mod_square_times(6nat, e23, n, x23, 0x10d5cc147d13fb2785a3nat, x24);
    let x25 = 0x388edca8a00fff4c7c6nat;
    let e25 = 2 * e24 + 1;
    lemma_power_mod_square_times(6nat, e24, n, x24, 0x2bbd39bb7c5e025eb4d0nat, x25);
    let x26 = 0x1634926698dcf2b90abcnat;
    let e26 = 2 * e25 + 1;
    lemma_power_mod_square_times(6nat, e25, n, x25, 0x2aa002eb1b4ed0430c4nat, x26);
    let x27 = 0x113b572586f6626c740dnat;
    let e27 = 2 * e26;
    lemma_power_mod_square(6nat, e26, n, x26, 0x118563d8f18c92878315nat, x27);
    let x28 = 0xc386a15aac1dab01b07nat;
    let e28 = 2 * e27 + 1;
    lemma_power_mod_square_times(6nat, e27, n, x27, 0x3f4ecb01a3a28f294b89nat, x28);
    let x29 = 0x247a1d86a93f18cfcb8nat;
    let e29 = 2 * e28 + 1;
    lemma_power_mod_square_times(6nat, e28, n, x28, 0x1fd6e13beb9c48020d02nat, x29);
    let x30 = 0xe5c060c1aefa6efbbc5nat;
    let e30 = 2 * e29;
    lemma_power_mod_square(6nat, e29, n, x29, 0x2f47d6e9414db73c5dnat, x30);
    let x31 = 0xed0f5ba5ca5fa37b154nat;
    let e31 = 2 * e30;
    lemma_power_mod_square(6nat, e30, n, x30, 0x753b0e010d25b362ce3nat, x31);
    let x32 = 0xcede8dbce45e1aa3033nat;
    let e32 = 2 * e31;
    lemma_power_mod_square(6nat, e31, n, x31, 0x7ccec217f70c3038e8bnat, x32);
}

proof fn lemma_power_132896956044521568488119_over_3_part_2()
    requires
        power_mod(6nat, 0x12c2e7d66829515d8nat, 0x1c245bc19c3dfa0c4ab7nat) == 0xcede8dbce45e1aa3033nat,
    ensures
        power_mod(6nat, 0x96173eb3414a8aec392nat, 0x1c245bc19c3dfa0c4ab7nat) == 0x103f4a8e8b948741bf36nat,
{
    let n = 0x1c245bc19c3dfa0c4ab7nat;
    let e0 = 0x12c2e7d66829515d8nat;
    let x0 = 0xcede8dbce45e1aa3033nat;
    let x1 = 0xbd42eff0fd2525702ccnat;
    let e1 = 2 * e0;
    lemma_power_mod_square(6nat, e0, n, x0, 0x5f0ad4ab66a94731a8bnat, x1);
    let x2 = 0x7197e2a10fd1764f512nat;
    let e2 = 2 * e1 + 1;
    lemma_power_mod_square_times(6nat, e1, n, x1, 0x1dd4f4f72dc5c7726222nat, x2);
    let x3 = 0x2e72119ad4ce16fbe80nat;
    let e3 = 2 * e2 + 1;
    lemma_power_mod_square_times(6nat, e2, n, x2, 0xabf1173485d7cb6cfa8nat, x3);
    let x4 = 0x160609cb2d2102d35faanat;
    let e4 = 2 * e3 + 1;
    lemma_power_mod_square_times(6nat, e3, n, x3, 0x1cbec2c761e80ab045anat, x4);
    let x5 = 0xc1e2e217e4a890f160dnat;
    let e5 = 2 * e4;
    lemma_power_mod_square(6nat, e4, n, x4, 0x113c4198b61694ac04e1nat, x5);
    let x6 = 0x1bf0c6d0475584a4bbfnat;
    let e6 = 2 * e5;
    lemma_power_mod_square(6nat, e5, n, x5, 0x537caab0611bc693466nat, x6);
    let x7 = 0x76a6b298bd434cbde17nat;
    let e7 = 2 * e6 + 1;
    lemma_power_mod_square_times(6nat, e6, n, x6, 0xa671627e88bf81cf89nat, x7);
    let x8 = 0x149feceb07fa107aa50dnat;
    let e8 = 2 * e7;
    lemma_power_mod_square(6nat, e7, n, x7, 0x1f4407541956ef4931cnat, x8);
    let x9 = 0x1c242cb99f1773060535nat;
    let e9 = 2 * e8;
    lemma_power_mod_square(6nat, e8, n, x8, 0xf1d8c5d489e367e4a2cnat, x9);
    let x10 = 0x103f4a8e8b948741bf37nat;
    let e10 = 2 * e9 + 1;
    lemma_power_mod_square_times(6nat, e9, n, x9, 0xa8d7f22ba33d8f63b359nat, x10);
    let x11 = 0x103f4a8e8b948741bf36nat;
    let e11 = 2 * e10;
    lemma_power_mod_square(6nat, e10, n, x10, 0x96148746ed9e25df73dnat, x11);
}

proof fn lemma_power_132896956044521568488119_over_3()
    ensures
        power_mod(6nat, 0x96173eb3414a8aec392nat, 0x1c245bc19c3dfa0c4ab7nat) == 0x103f4a8e8b948741bf36nat,
{
    lemma_power_mod_first(6nat, 0x1c245bc19c3dfa0c4ab7nat);
    lemma_power_132896956044521568488119_over_3_part_0();
    lemma_power_132896956044521568488119_over_3_part_1();
    lemma_power_132896956044521568488119_over_3_part_2();
}

proof fn lemma_power_132896956044521568488119_over_22149492674086928081353_part_0()
    requires
        power_mod(6nat, 1nat, 0x1c245bc19c3dfa0c4ab7nat) == 6nat,
    ensures
        power_mod(6nat, 6nat, 0x1c245bc19c3dfa0c4ab7nat) == 46656nat,
{
    let n = 0x1c245bc19c3dfa0c4ab7nat;
    let e0 = 1nat;
    let x0 = 6nat;
    let x1 = 216nat;
    let e1 = 2 * e0 + 1;
    lemma_power_mod_square_times(6nat, e0, n, x0, 0nat, x1);
    let x2 = 46656nat;
    let e2 = 2 * e1;
    lemma_power_mod_square(6nat, e1, n, x1, 0nat, x2);
}

proof fn lemma_power_132896956044521568488119_over_22149492674086928081353()
    ensures
        power_mod(6nat, 6nat, 0x1c245bc19c3dfa0c4ab7nat) == 46656nat,
{
    lemma_power_mod_first(6nat, 0x1c245bc19c3dfa0c4ab7nat);
    lemma_power_132896956044521568488119_over_22149492674086928081353_part_0();
}

proof fn lemma_certificate_132896956044521568488119()
    ensures
        is_certificate(0x1c245bc19c3dfa0c4ab7nat, 6nat, seq![2nat, 3nat, 0x4b0b9f59a0a545761c9nat]),
{
    let n = 0x1c245bc19c3dfa0c4ab7nat;
    let factors = seq![2nat, 3nat, 0x4b0b9f59a0a545761c9nat];
    lemma_small_primes();
    lemma_small_primes();
    lemma_prime_22149492674086928081353();
    lemma_power_132896956044521568488119_over_2();
    lemma_fundamental_div_mod_converse(0x1c245bc19c3dfa0c4ab6int, 2int, 0xe122de0ce1efd06255bint, 0);
    lemma_power_132896956044521568488119_over_3();
    lemma_fundamental_div_mod_converse(0x1c245bc19c3dfa0c4ab6int, 3int, 0x96173eb3414a8aec392int, 0);
    lemma_power_132896956044521568488119_over_22149492674086928081353();
    lemma_fundamental_div_mod_converse(0x1c245bc19c3dfa0c4ab6int, 0x4b0b9f59a0a545761c9int, 6int, 0);
    lemma_power_mod_square(6nat, 0xe122de0ce1efd06255bnat, n, 0x1c245bc19c3dfa0c4ab6nat, 0x1c245bc19c3dfa0c4ab5nat, 1);
    let f0 = Seq::<nat>::empty();
    lemma_product_push(f0, 2nat, 1nat);
    let f1 = f0.push(2nat);
    lemma_product_push(f1, 3nat, 2nat);
    let f2 = f1.push(3nat);
    lemma_product_push(f2, 0x4b0b9f59a0a545761c9nat, 6nat);
    let f3 = f2.push(0x4b0b9f59a0a545761c9nat);
    assert(factors =~= f3);
    assert forall|j: int| 0 <= j < factors.len() implies is_prime(#[trigger] factors[j])
        && power_mod(6nat, ((n - 1) / factors[j] as int) as nat, n) != 1 by {
        if j == 0 {
        } else if j == 1 {
        } else if j == 2 {
        }
    }
}

/// 132896956044521568488119 is prime.
pub(crate) proof fn lemma_prime_132896956044521568488119()
    ensures
        is_prime(0x1c245bc19c3dfa0c4ab7nat),
{
    lemma_certificate_132896956044521568488119();
    lemma_certified_prime(0x1c245bc19c3dfa0c4ab7nat, 6nat, seq![2nat, 3nat, 0x4b0b9f59a0a545761c9nat]);
}

proof fn lemma_power_255515944373312847190720520512484175977_over_2_part_0()
    requires
        power_mod(3nat, 1nat, 0xc03a94b2d3e64419a05cd8ccbf987069nat) == 3nat,
    ensures
        power_mod(3nat, 0x180752965nat, 0xc03a94b2d3e64419a05cd8ccbf987069nat) == 0x9596fedc251ed668c027d8ef6c000dfnat,
{
    let n = 0xc03a94b2d3e64419a05cd8ccbf987069nat;
    let e0 = 1nat;
    let x0 = 3nat;
    let x1 = 27nat;
    let e1 = 2 * e0 + 1;
    lemma_power_mod_square_times(3nat, e0, n, x0, 0nat, x1);
    let x2 = 729nat;
    let e2 = 2 * e1;
    lemma_power_mod_square(3nat, e1, n, x1, 0nat, x2);
    let x3 = 531441nat;
    let e3 = 2 * e2;
    lemma_power_mod_square(3nat, e2, n, x2, 0nat, x3);
    let x4 = 0x41c21cb8e1nat;
    let e4 = 2 * e3;
    lemma_power_mod_square(3nat, e3, n, x3, 0nat, x4);
    let x5 = 0x10e425c56daffabc35c1nat;
    let e5 = 2 * e4;
    lemma_power_mod_square(3nat, e4, n, x4, 0nat, x5);
    let x6 = 0x5ca1febe116a337f9444d1465dd001d5nat;
    let e6 = 2 * e5;
    lemma_power_mod_square(3nat, e5, n, x5, 0x17bf6ccnat, x6);
    let x7 = 0x16376ac407dc198dfdbdc225c84fceecnat;
    let e7 = 2 * e6;
    lemma_power_mod_square(3nat, e6, n, x6, 0x2ca37e2e4eae49c746e53fa8822b4045nat, x7);
    let x8 = 0x89db0df2f63ced8659d6c1f1d99c47benat;
    let e8 = 2 * e7;
    lemma_power_mod_square(3nat, e7, n, x7, 0x2914fe91d3ecb045c9ff388dbef5902nat, x8);
    let x9 = 0x94eff2e3cd64db44260ad067caed4983nat;
    let e9 = 2 * e8;
    lemma_power_mod_square(3nat, e8, n, x8, 0x62dcc13dee92a7ed3f0bd0d8d1579b59nat, x9);
    let x10 = 0xb91b20c1acca5f4af60dfb71ad0e5a01nat;
    let e10 = 2 * e9 + 1;
    lemma_power_mod_square_times(3nat, e9, n, x9, 0x15a2fa724471bcdc7ca2f030f625c250anat, x10);
    let x11 = 0x7f6b9dd45c836722177d7e57bfadb8f4nat;
    let e11 = 2 * e10 + 1;
    lemma_power_mod_square_times(3nat, e10, n, x10, 0x216bdb96b1321b0fb40eda827303ac8b7nat, x11);
    let x12 = 0x878879f4717b1fdbfc40b1872e872aa0nat;
    let e12 = 2 * e11 + 1;
    lemma_power_mod_square_times(3nat, e11, n, x11, 0xfd6280042392bf1682d54b6106d97490nat, x12);
    let x13 = 0x878e6a1902b62439951aeb7915e90fc0nat;
    let e13 = 2 * e12;
    lemma_power_mod_square(3nat, e12, n, x12, 0x5f8f2497c1c9de2c987f681635feaa40nat, x13);
    let x14 = 0xb11cb1d32c4d5c206d417e8df3f8d13cnat;
    let e14 = 2 * e13 + 1;
    lemma_power_mod_square_times(3nat, e13, n, x13, 0x11ec68d1791dc29c1685f7ae652111024nat, x14);
    let x15 = 0x3bf8c6d9c85dac3d538d66310450b082nat;
    let e15 = 2 * e14;
    lemma_power_mod_square(3nat, e14, n, x14, 0xa32f223335031d294bb1093347eeb75enat, x15);
    let x16 = 0x4c8015b9fef2b8e109ff4e9c34ddaa57nat;
    let e16 = 2 * e15 + 1;
    lemma_power_mod_square_times(3nat, e15, n, x15, 0x38215573ec017b7515f2e52ca8e7a76dnat, x16);
    let x17 = 0x348283a69f03365c5ad38fbedd42a263nat;
    let e17 = 2 * e16;
    lemma_power_mod_square(3nat, e16, n, x16, 0x1e71c75d4604b73778cc5299071fa7fenat, x17);
    let x18 = 0x862f414681ece25d0b9ac48a139eca80nat;
    let e18 = 2 * e17;
    lemma_power_mod_square(3nat, e17, n, x17, 0xe57ffabca50870797df6ed712c99061nat, x18);
    let x19 = 0x25013223f31db7bb06005bb7dc1f640cnat;
    let e19 = 2 * e18 + 1;
    lemma_power_mod_square_times(3nat, e18, n, x18, 0x1190047da67c800e0d51e388219937dd4nat, x19);
    let x20 = 0x554548dfa824ecb835a458bce77d03d1nat;
    let e20 = 2 * e19;
    lemma_power_mod_square(3nat, e19, n, x19, 0x71f9eee1390ac94046084b6ff21bee7nat, x20);
    let x21 = 0x5a5e77e06e34e0b75c09bd3d98d45bc5nat;
    let e21 = 2 * e20 + 1;
    lemma_power_mod_square_times(3nat, e20, n, x20, 0x7179b5429df4a300c7d349ae337ba16enat, x21);
    let x22 = 0xbf9844a3da684adb79815672f9b12283nat;
    let e22 = 2 * e21;
    lemma_power_mod_square(3nat, e21, n, x21, 0x2a7bc891d59d80da7642d507a6f2c7a6nat, x22);
    let x23 = 0xa4ef7a8811ecf607f03883852ec4ae67nat;
    let e23 = 2 * e22;
    lemma_power_mod_square(3nat, e22, n, x22, 0xbef67da24ab48a47b392caa3cde58752nat, x23);
    let x24 = 0x78c9c1001027361663d6e5822483b0e8nat;
    let e24 = 2 * e23 + 1;
    lemma_power_mod_square_times(3nat, e23, n, x23, 0x1a88d4b3fb1f1d08ca199732811848eb3nat, x24);
    let x25 = 0x101d3a5a53f633746c7d55f1c1772376nat;
    let e25 = 2 * e24;
    lemma_power_mod_square(3nat, e24, n, x24, 0x4be5dd08f30b6c91a7687ff9352e9f3anat, x25);
    let x26 = 0x5268aa4b505a2a0b995b2f2a004a9c61nat;
    let e26 = 2 * e25 + 1;
    lemma_power_mod_square_times(3nat, e25, n, x25, 0x40d6dfee6551536456ab27a83024313nat, x26);
    let x27 = 0x3544797ed95e02ceedda8686ce74ccd4nat;
    let e27 = 2 * e26 + 1;
    lemma_power_mod_square_times(3nat, e26, n, x26, 0x69fc892d66958314ff233012d560b017nat, x27);
    let x28 = 0x5612b120c45f0e7e83b9125e60f356a8nat;
    let e28 = 2 * e27;
    lemma_power_mod_square(3nat, e27, n, x27, 0xec2ba92d8682d4a8e108018dcab54a8nat, x28);
    let x29 = 0x6a1c557348a71581005aa73fca9041ebnat;
    let e29 = 2 * e28;
    lemma_power_mod_square(3nat, e28, n, x28, 0x268a538772b9016673fb5e5ba331bf0dnat, x29);
    let x30 = 0x4ebe6a3e343cf5e4505432ed907a3c07nat;
    let e30 = 2 * e29 + 1;
    lemma_power_mod_square_times(3nat, e29, n, x29, 0xafb84a80dd264247e89a2f56dd31bf84nat, x30);
    let x31 = 0xa831aaed420f6e99a1f57908505545ccnat;
    let e31 = 2 * e30;
    lemma_power_mod_square(3nat, e30, n, x30, 0x20419bb2b9e9f41f06becb313122429dnat, x31);
    let x32 = 0x9596fedc251ed668c027d8ef6c000dfnat;
    let e32 = 2 * e31 + 1;
    lemma_power_mod_square_times(3nat, e31, n, x31, 0x1b97e33dcf7a350eeee8cce2ffbd49e29nat, x32);
}

proof fn lemma_power_255515944373312847190720520512484175977_over_2_part_1()
    requires
        power_mod(3nat, 0x180752965nat, 0xc03a94b2d3e64419a05cd8ccbf987069nat) == 0x9596fedc251ed668c027d8ef6c000dfnat,
    ensures
        power_mod(3nat, 0x180752965a7cc8833nat, 0xc03a94b2d3e64419a05cd8ccbf987069nat) == 0x32bdafe4bd538e76aa1de4e0cae6989dnat,
{
    let n = 0xc03a94b2d3e64419a05cd8ccbf987069nat;
    let e0 = 0x180752965nat;
    let x0 = 0x9596fedc251ed668c027d8ef6c000dfnat;
    let x1 = 0x7b07794667c67c896c13f51359566efdnat;
    let e1 = 2 * e0 + 1;
    lemma_power_mod_square_times(3nat, e0, n, x0, 0x15d39e9a48418d19acc437aa312e0d6nat, x1);
    let x2 = 0x6967f2d53e640bb1c013b1fd5e0d6538nat;
    let e2 = 2 * e1;
    lemma_power_mod_square(3nat, e1, n, x1, 0x4ebd8d6e81a9d686c7575740352b0029nat, x2);
    let x3 = 0x9f7f339bd9255ae79e0c0a70219f057enat;
    let e3 = 2 * e2 + 1;
    lemma_power_mod_square_times(3nat, e2, n, x2, 0xad64d636521729bb47969633e4e58cf2nat, x3);
    let x4 = 0x1d31fdab968f8c21297f1710502dfddnat;
    let e4 = 2 * e3;
    lemma_power_mod_square(3nat, e3, n, x3, 0x8456a1166bb7583ad12eb1d72294940fnat, x4);
    let x5 = 0x6c51a86361e3332542065e500482d28fnat;
    let e5 = 2 * e4;
    lemma_power_mod_square(3nat, e4, n, x4, 0x46f21f93ad031157476b32a15592anat, x5);
    let x6 = 0x24c26d3d7853ba442a328d82cf1d5390nat;
    let e6 = 2 * e5 + 1;
    lemma_power_mod_square_times(3nat, e5, n, x5, 0xb71c222f7c1b4bcce554e2ac8b404d1bnat, x6);
    let x7 = 0x13e17ce4eeaa31089f3ec1cee8b00c34nat;
    let e7 = 2 * e6 + 1;
    lemma_power_mod_square_times(3nat, e6, n, x6, 0x15169a631d501b263c1a2bfcd5cc76ecnat, x7);
    let x8 = 0x7e6d242269bf0d6e66535e67e37ba898nat;
    let e8 = 2 * e7 + 1;
    lemma_power_mod_square_times(3nat, e7, n, x7, 0x62b1acea3ed0cae305f88fc3c4a7b58nat, x8);
    let x9 = 0xb5a0be6dc278b13f20256fc6c27d43e7nat;
    let e9 = 2 * e8 + 1;
    lemma_power_mod_square_times(3nat, e8, n, x8, 0xf9725caa2f2b12acb0334e6d35f5b8f1nat, x9);
    let x10 = 0x2d4d431b1b3c35341cd5b2d6aff27789nat;
    let e10 = 2 * e9 + 1;
    lemma_power_mod_square_times(3nat, e9, n, x9, 0x202d5b439d4adeb7fbb3562081c14403anat, x10);
    let x11 = 0x5f6a52ae5c437e3c1034104dd7b4c8aanat;
    let e11 = 2 * e10;
    lemma_power_mod_square(3nat, e10, n, x10, 0xaad14a90566ea49cbc32535a28df48fnat, x11);
    let x12 = 0x956fcf1e6a8e7218defacbc2ff815887nat;
    let e12 = 2 * e11;
    lemma_power_mod_square(3nat, e11, n, x11, 0x2f5c54209d87e55ad1116e5e88a389d5nat, x12);
    let x13 = 0xa456b82bc4456c78bb03eeed5321e39anat;
    let e13 = 2 * e12 + 1;
    lemma_power_mod_square_times(3nat, e12, n, x12, 0x15c830a3b515a9836accd9ee669233311nat, x13);
    let x14 = 0x689abb6b6017d96508ca8d72a712453enat;
    let e14 = 2 * e13 + 1;
    lemma_power_mod_square_times(3nat, e13, n, x13, 0x1a57c4c11f906b1aeae32e5600b69297enat, x14);
    let x15 = 0x6acd9a1c8d4b3c8f1b32ab7265c14011nat;
    let e15 = 2 * e14;
    lemma_power_mod_square(3nat, e14, n, x14, 0x38ec1455e2a82531acb9ee21028264fbnat, x15);
    let x16 = 0x20be251ea977fbe40d3ebce4a6c37eenat;
    let e16 = 2 * e15;
    lemma_power_mod_square(3nat, e15, n, x15, 0x3b571b65141e548e10ae3056cccd393bnat, x16);
    let x17 = 0x43b4b097371406ab9e336b0ad5cfac69nat;
    let e17 = 2 * e16 + 1;
    lemma_power_mod_square_times(3nat, e16, n, x16, 0x10bb3f30231441774ae2ccbf3c6febnat, x17);
    let x18 = 0x3ca9b3064215f6bfc00cdacc61d65d2cnat;
    let e18 = 2 * e17;
    lemma_power_mod_square(3nat, e17, n, x17, 0x17d8d3fd3925bc3b39b6c1a4de899a1dnat, x18);
    let x19 = 0x427b551a79a99b940af93dc904c68735nat;
    let e19 = 2 * e18;
    lemma_power_mod_square(3nat, e18, n, x18, 0x1324ce99c649b0b6a4aeaf17c1df0a23nat, x19);
    let x20 = 0xb147d3096f2961194746c28e7015531nat;
    let e20 = 2 * e19;
    lemma_power_mod_square(3nat, e19, n, x19, 0x16fe15d62f7c1d1ec91404ab39ac4488nat, x20);
    let x21 = 0x7d5dce5d7225f95e5b19377d2034ba63nat;
    let e21 = 2 * e20 + 1;
    lemma_power_mod_square_times(3nat, e20, n, x20, 0x1ea7bf14337d7992e4f8b3cbb4609c0nat, x21);
    let x22 = 0x75ef03c97880ae01958cb1c5f2a5f7c0nat;
    let e22 = 2 * e21;
    lemma_power_mod_square(3nat, e21, n, x21, 0x51c2b5baa714873fd4aa7c2aff518521nat, x22);
    let x23 = 0xb2013d682b0f2c2c5a615dd66d156a95nat;
    let e23 = 2 * e22;
    lemma_power_mod_square(3nat, e22, n, x22, 0x485a62d1641bec02a2b6163e22562cb3nat, x23);
    let x24 = 0x4158393c965818154d251026071c166cnat;
    let e24 = 2 * e23;
    lemma_power_mod_square(3nat, e23, n, x23, 0xa4d557183e673d1944833342f9b99845nat, x24);
    let x25 = 0x6073006cede07a9cbb49a547fde7faf0nat;
    let e25 = 2 * e24;
    lemma_power_mod_square(3nat, e24, n, x24, 0x163672f97f684cf74c319fa2403459a0nat, x25);
    let x26 = 0x484b50140cd8a7fb2de4ad4593b37489nat;
    let e26 = 2 * e25;
    lemma_power_mod_square(3nat, e25, n, x25, 0x30648177c876eff991d6f4198d5219dfnat, x26);
    let x27 = 0xbdf08346b4bf2c34f86506844ccc0c5anat;
    let e27 = 2 * e26 + 1;
    lemma_power_mod_square_times(3nat, e26, n, x26, 0x5190e9dadeade03420bf32d97c3737b1nat, x27);
    let x28 = 0x316a540de5f793ac6f16eaa291c80d95nat;
    let e28 = 2 * e27 + 1;
    lemma_power_mod_square_times(3nat, e27, n, x27, 0x2330845fb4eda62af0ebed095288f4bbfnat, x28);
    let x29 = 0xba443fb0d549f658b8e2e96d446ec66enat;
    let e29 = 2 * e28;
    lemma_power_mod_square(3nat, e28, n, x28, 0xcb3f595fa0df6527b6669db00a33693nat, x29);
    let x30 = 0xa4905e618d82a14ae0450de1d57a7eccnat;
    let e30 = 2 * e29;
    lemma_power_mod_square(3nat, e29, n, x29, 0xb47d4209de6cedb52af1c4a96f3105b8nat, x30);
    let x31 = 0x5b281b752d55ffbdacf8ac402de3581fnat;
    let e31 = 2 * e30 + 1;
    lemma_power_mod_square_times(3nat, e30, n, x30, 0x1a6a435c4bfd9493620257654968b30e9nat, x31);
    let x32 = 0x32bdafe4bd538e76aa1de4e0cae6989dnat;
    let e32 = 2 * e31 + 1;
    lemma_power_mod_square_times(3nat, e31, n, x31, 0x81ae960ae73ed983724b5729557cb8b6nat, x32);
}

proof fn lemma_power_255515944373312847190720520512484175977_over_2_part_2()
    requires
        power_mod(3nat, 0x180752965a7cc8833nat, 0xc03a94b2d3e64419a05cd8ccbf987069nat) == 0x32bdafe4bd538e76aa1de4e0cae6989dnat,
    ensures
        power_mod(3nat, 0x180752965a7cc883340b9b199nat, 0xc03a94b2d3e64419a05cd8ccbf987069nat) == 0x83e8de879eecf3758d5ddd9ed8cff532nat,
{
    let n = 0xc03a94b2d3e64419a05cd8ccbf987069nat;
    let e0 = 0x180752965a7cc8833nat;
    let x0 = 0x32bdafe4bd538e76aa1de4e0cae6989dnat;
    let x1 = 0x8c6a36b5172b59f6e9bf3a7bdd1bf0canat;
    let e1 = 2 * e0;
    lemma_power_mod_square(3nat, e0, n, x0, 0xd64c632b1c6f4eb8810eb85076bd3a7nat, x1);
    let x2 = 0xab1f6cafd74e1feeeaca431ee8ce4feenat;
    let e2 = 2 * e1 + 1;
    lemma_power_mod_square_times(3nat, e1, n, x1, 0x133b37dc166a30d57222326e925ef548enat, x2);
    let x3 = 0x62f882cdd19aaf6f202b0bc4909904cenat;
    let e3 = 2 * e2;
    lemma_power_mod_square(3nat, e2, n, x2, 0x9855844376bff7792d49128cc0650a06nat, x3);
    let x4 = 0x1542b1684f01b42606cb2231a05f5c5anat;
    let e4 = 2 * e3;
    lemma_power_mod_square(3nat, e3, n, x3, 0x32f4bb1fbb2a6bc6a7242ef1c08400danat, x4);
    let x5 = 0x428afecc862d8132eb12a88bfc51348nat;
    let e5 = 2 * e4;
    lemma_power_mod_square(3nat, e4, n, x4, 0x259f64f7bb68e1970ebd736557dcdfcnat, x5);
    let x6 = 0x2012cf76155bc8ebb96a548ce0c1f91enat;
    let e6 = 2 * e5;
    lemma_power_mod_square(3nat, e5, n, x5, 0x1708ec986647abccd9dd451eb64dd2nat, x6);
    let x7 = 0x969412bfec4f9575d5b94d9633a4bf11nat;
    let e7 = 2 * e6;
    lemma_power_mod_square(3nat, e6, n, x6, 0x559fa56810122161f844730d4cbee7bnat, x7);
    let x8 = 0x8911dccf7fea922d5ebb17b0258cd865nat;
    let e8 = 2 * e7;
    lemma_power_mod_square(3nat, e7, n, x7, 0x75f3d27cbc213320a6731592401ff95cnat, x8);
    let x9 = 0x138a9c9a0cb3dad0a1f60fcd1ee22410nat;
    let e9 = 2 * e8 + 1;
    lemma_power_mod_square_times(3nat, e8, n, x8, 0x1253707f40d3b1c4e4af8a02cca577843nat, x9);
    let x10 = 0x7e941e2355d388e5a7c8b0f53172ce24nat;
    let e10 = 2 * e9;
    lemma_power_mod_square(3nat, e9, n, x9, 0x1fc8d3b947f063bfa6aa6b40849407cnat, x10);
    let x11 = 0xb9079fe9e131896c1bab5b52e5d76a23nat;
    let e11 = 2 * e10 + 1;
    lemma_power_mod_square_times(3nat, e10, n, x10, 0xfa0c42c5652119a467cd6c8e1cedcb05nat, x11);
    let x12 = 0x1a13d88ab57ad03429e649f11b02fb4nat;
    let e12 = 2 * e11 + 1;
    lemma_power_mod_square_times(3nat, e11, n, x11, 0x2164d105402e02a0002c18d9795f8c88fnat, x12);
    let x13 = 0x7a704130ae99ad30132e74da42fabf89nat;
    let e13 = 2 * e12 + 1;
    lemma_power_mod_square_times(3nat, e12, n, x12, 0xa9ce92433f96ac98a849787c83e0fnat, x13);
    let x14 = 0x9ad5115bbe270d611e6f04783cd6335cnat;
    let e14 = 2 * e13;
    lemma_power_mod_square(3nat, e13, n, x13, 0x4dfc73d11eec777262a3659a407985adnat, x14);
    let x15 = 0xcc7ebc06387efedf55a9c50271d333enat;
    let e15 = 2 * e14;
    lemma_power_mod_square(3nat, e14, n, x14, 0x7cb600ba5aef975292590806cbfb6d02nat, x15);
    let x16 = 0x2fdabd5ce0cbff6919dde9a77ad1b286nat;
    let e16 = 2 * e15 + 1;
    lemma_power_mod_square_times(3nat, e15, n, x15, 0x28ca1c9f73f148cbff925306500d196nat, x16);
    let x17 = 0x1a5ba264baa09efbf4eb8c73e1baff74nat;
    let e17 = 2 * e16 + 1;
    lemma_power_mod_square_times(3nat, e16, n, x16, 0x23bd4a35b02b2fc32c157ec1b761a438nat, x17);
    let x18 = 0x4c750065ce70cbeca7b4d953c866601cnat;
    let e18 = 2 * e17;
    lemma_power_mod_square(3nat, e17, n, x17, 0x39d3816eb7a0436ecf44a1bc4437a54nat, x18);
    let x19 = 0x76a41bd9c6ed4ad1b680821bc7ca0c03nat;
    let e19 = 2 * e18 + 1;
    lemma_power_mod_square_times(3nat, e18, n, x18, 0x5b3ae110e5ff6103e6dc9209779f0e25nat, x19);
    let x20 = 0x3ab8b5b344a461b7639053c14a614efbnat;
    let e20 = 2 * e19 + 1;
    lemma_power_mod_square_times(3nat, e19, n, x19, 0xdbabc57d2b6042f81a755e8a0d9a1c20nat, x20);
    let x21 = 0x677fab0a44a06842131135a491ab942enat;
    let e21 = 2 * e20;
    lemma_power_mod_square(3nat, e20, n, x20, 0x11f0265e7dcc5b0e864844585e1c4933nat, x21);
    let x22 = 0x91f490f1af282fede6de2738db1fe530nat;
    let e22 = 2 * e21;
    lemma_power_mod_square(3nat, e21, n, x21, 0x37b9a3d5648f95f0a13861635876d7f4nat, x22);
    let x23 = 0x46a469d65e697986e8816c57e04239a0nat;
    let e23 = 2 * e22;
    lemma_power_mod_square(3nat, e22, n, x22, 0x6ed2227a424cde3d0c2650ba0efd4860nat, x23);
    let x24 = 0xafe7f22eeddc926202aeb542a6ea6b73nat;
    let e24 = 2 * e23 + 1;
    lemma_power_mod_square_times(3nat, e23, n, x23, 0x4de18ac6623d9afc09846d7a80810a85nat, x24);
    let x25 = 0x10c256dc7dc341e5f5c543cbb7f6a94cnat;
    let e25 = 2 * e24 + 1;
    lemma_power_mod_square_times(3nat, e24, n, x24, 0x1e2e8662e084716dbafba8d7a0c7d8457nat, x25);
    let x26 = 0x55cde14a52282e31bcc2bb55f6b3365fnat;
    let e26 = 2 * e25;
    lemma_power_mod_square(3nat, e25, n, x25, 0x1760bb9deed90b3c9657229eb0b9089nat, x26);
    let x27 = 0x5394a2d1b2662c14c433a567863a3c27nat;
    let e27 = 2 * e26;
    lemma_power_mod_square(3nat, e26, n, x26, 0x264cccb5e1978530baecd8bd7467ff0anat, x27);
    let x28 = 0x692dffcf7a5595b44068445fc9eebe92nat;
    let e28 = 2 * e27 + 1;
    lemma_power_mod_square_times(3nat, e27, n, x27, 0x6d059c0c37f523b5928a413bcdc98919nat, x28);
    let x29 = 0x3839d2cf75ddc1d3c0079d21387411b2nat;
    let e29 = 2 * e28 + 1;
    lemma_power_mod_square_times(3nat, e28, n, x28, 0xaca6632181a8ae3d29cca0e67d8bcc0anat, x29);
    let x30 = 0x1f1b59a7bacff8c377bed194b675e53dnat;
    let e30 = 2 * e29;
    lemma_power_mod_square(3nat, e29, n, x29, 0x10721d2da9d604e67ad7390c6576f56fnat, x30);
    let x31 = 0x1796bd235294117f0078273ec8fa6401nat;
    let e31 = 2 * e30;
    lemma_power_mod_square(3nat, e30, n, x30, 0x508a50102f6eb40ec607a9a01d6d748nat, x31);
    let x32 = 0x83e8de879eecf3758d5ddd9ed8cff532nat;
    let e32 = 2 * e31 + 1;
    lemma_power_mod_square_times(3nat, e31, n, x31, 0x8af14b230dec027b852e1c445e51229nat, x32);
}

proof fn lemma_power_255515944373312847190720520512484175977_over_2_part_3()
    requires
        power_mod(3nat, 0x180752965a7cc883340b9b199nat, 0xc03a94b2d3e64419a05cd8ccbf987069nat) == 0x83e8de879eecf3758d5ddd9ed8cff532nat,
    ensures
        power_mod(3nat, 0x601d4a5969f3220cd02e6c665fcc3834nat, 0xc03a94b2d3e64419a05cd8ccbf987069nat) == 0xc03a94b2d3e64419a05cd8ccbf987068nat,
{
    let n = 0xc03a94b2d3e64419a05cd8ccbf987069nat;
    let e0 = 0x180752965a7cc883340b9b199nat;
    let x0 = 0x83e8de879eecf3758d5ddd9ed8cff532nat;
    let x1 = 0xa49ce03ff7934da5f1f9e4713d2292anat;
    let e1 = 2 * e0;
    lemma_power_mod_square(3nat, e0, n, x0, 0x5a84969bd889f7f9522ebaa3a0c69c8anat, x1);
    let x2 = 0x208035e08ebe2e10772b3ec8cf4403d2nat;
    let e2 = 2 * e1 + 1;
    lemma_power_mod_square_times(3nat, e1, n, x1, 0x1a6e4769cf7b482a9be77edab39aacanat, x2);
    let x3 = 0x149c250087d12d062774b6c092f1dcacnat;
    let e3 = 2 * e2 + 1;
    lemma_power_mod_square_times(3nat, e2, n, x2, 0x107c2f1aef39e08b0c6b5bfd52610720nat, x3);
    let x4 = 0x844790c8ea4643703c4843941fabc891nat;
    let e4 = 2 * e3 + 1;
    lemma_power_mod_square_times(3nat, e3, n, x3, 0x6a10e4b7e698bf0d0e1a29ade4a7d47nat, x4);
    let x5 = 0x49b62973d1e67275bef89daa0ca92002nat;
    let e5 = 2 * e4 + 1;
    lemma_power_mod_square_times(3nat, e4, n, x4, 0x1111433ab1abea30b276315c56f3ca739nat, x5);
    let x6 = 0x141afa5adadaa71b427ea96f9ac7951bnat;
    let e6 = 2 * e5 + 1;
    lemma_power_mod_square_times(3nat, e5, n, x5, 0x54cbb5d67a584c8e44eb10c473235549nat, x6);
    let x7 = 0x67f76ce6443f589b320c915eb787dfcnat;
    let e7 = 2 * e6 + 1;
    lemma_power_mod_square_times(3nat, e6, n, x6, 0x64efb1969db65f93807ea884f337e37nat, x7);
    let x8 = 0x3e730dadbda3105546e7bd8c4e3f8b73nat;
    let e8 = 2 * e7 + 1;
    lemma_power_mod_square_times(3nat, e7, n, x7, 0xa8b0ab0ed2b6464a082332401a8735nat, x8);
    let x9 = 0x751cda3f005a9146c6b67d03dbdef5f7nat;
    let e9 = 2 * e8;
    lemma_power_mod_square(3nat, e8, n, x8, 0x1449b7cc05889c9d94e2a8eecdd26be2nat, x9);
    let x10 = 0x5b5dd062f25a514a468299e36962597anat;
    let e10 = 2 * e9;
    lemma_power_mod_square(3nat, e9, n, x9, 0x475969638747d7cbba8c2502e055093fnat, x10);
    let x11 = 0x997f0c28f420c8a6f93c69d5c885f5e1nat;
    let e11 = 2 * e10 + 1;
    lemma_power_mod_square_times(3nat, e10, n, x10, 0x824792439ff5fb9a25235f0bd1b15ed3nat, x11);
    let x12 = 0xbe52e6a23d3005c3a72d052b134453e8nat;
    let e12 = 2 * e11 + 1;
    lemma_power_mod_square_times(3nat, e11, n, x11, 0x16fb43dc95563c10e8b474487450b1523nat, x12);
    let x13 = 0x2eba7b4359212abea69227a62738f007nat;
    let e13 = 2 * e12;
    lemma_power_mod_square(3nat, e12, n, x12, 0xbc700dcd20441445e5194f6650959951nat, x13);
    let x14 = 0x9a7e38e18c1ae68863fee5f7eaac3486nat;
    let e14 = 2 * e13;
    lemma_power_mod_square(3nat, e13, n, x13, 0xb5bee48a4f194690c4170ecff0578f3nat, x14);
    let x15 = 0x7aaf2fd61a2e5cbe4d247f079a6c4ae9nat;
    let e15 = 2 * e14;
    lemma_power_mod_square(3nat, e14, n, x14, 0x7c2a414c97f42628a167eae1f7b50a03nat, x15);
    let x16 = 0xe615a951421a6862af3bf0a07319f44nat;
    let e16 = 2 * e15;
    lemma_power_mod_square(3nat, e15, n, x15, 0x4e4cb37e656a6589bb98e0495b7b28c5nat, x16);
    let x17 = 0xc807008c31abe3480ca56a23536efcanat;
    let e17 = 2 * e16 + 1;
    lemma_power_mod_square_times(3nat, e16, n, x16, 0x33a2fa4b795f9564aab1bc93cf32e76nat, x17);
    let x18 = 0x4f6a4fd32eed2c8fed7c85f760380fd3nat;
    let e18 = 2 * e17 + 1;
    lemma_power_mod_square_times(3nat, e17, n, x17, 0x2706d3f95fdb38e2092bc77c6ea9471nat, x18);
    let x19 = 0x76da364cae9c6efcd320f0b0fedef029nat;
    let e19 = 2 * e18 + 1;
    lemma_power_mod_square_times(3nat, e18, n, x18, 0x626d1dceb66a5842f01952902f3f58c2nat, x19);
    let x20 = 0xa3b1b8b9c73f771b6eff64ca960a698anat;
    let e20 = 2 * e19;
    lemma_power_mod_square(3nat, e19, n, x19, 0x497c19adc2586a9da29418f0ea4fd3efnat, x20);
    let x21 = 0x7fd0d3e305c44650d2b05633260233nat;
    let e21 = 2 * e20;
    lemma_power_mod_square(3nat, e20, n, x20, 0x8b65339ff2c902abb3283d485a833489nat, x21);
    let x22 = 0x154208003301daa43a729a70bd35fb3bnat;
    let e22 = 2 * e21;
    lemma_power_mod_square(3nat, e21, n, x21, 0x54fc8d53cf27d5fc0cadf20665benat, x22);
    let x23 = 0x79d3debcfcc0bc7c5003f1ae70a91727nat;
    let e23 = 2 * e22;
    lemma_power_mod_square(3nat, e22, n, x22, 0x259d0d7092929e6f49d9babaa7596a2nat, x23);
    let x24 = 0xe3a5c7d1ae25dca40ddf314c8b16484nat;
    let e24 = 2 * e23;
    lemma_power_mod_square(3nat, e23, n, x23, 0x4d35bbd807445efbb55efc603ef4ba65nat, x24);
    let x25 = 0x7061f2f7daef14def7df2d3e2559e4a9nat;
    let e25 = 2 * e24 + 1;
    lemma_power_mod_square_times(3nat, e24, n, x24, 0x328c6eb17dd9ea1f53c1a4764fdfa6fnat, x25);
    let x26 = 0x6e9709983235f6bd90ba359d88860506nat;
    let e26 = 2 * e25 + 1;
    lemma_power_mod_square_times(3nat, e25, n, x25, 0xc51b44bce47337dbd2ce40a3b07abea5nat, x26);
    let x27 = 0x95771730551e94697cab747203329476nat;
    let e27 = 2 * e26;
    lemma_power_mod_square(3nat, e26, n, x26, 0x3f9f730891702b0772e621ac5682347enat, x27);
    let x28 = 0x5ae44f604572633e04ab65c64dc10cdfnat;
    let e28 = 2 * e27 + 1;
    lemma_power_mod_square_times(3nat, e27, n, x27, 0x15ca501b6e0d288ca794d0682d4d28a45nat, x28);
    let x29 = 0x85f580701c92604304fcca50b1482569nat;
    let e29 = 2 * e28;
    lemma_power_mod_square(3nat, e28, n, x28, 0x2af9fd19b72cd95b1359c2a56609c318nat, x29);
    let x30 = 0xc03a94b2d3e64419a05cd8ccbf987068nat;
    let e30 = 2 * e29;
    lemma_power_mod_square(3nat, e29, n, x29, 0x5d5a32f8e67d9ef02d3b004a9554fa41nat, x30);
}

proof fn lemma_power_255515944373312847190720520512484175977_over_2()
    ensures
        power_mod(3nat, 0x601d4a5969f3220cd02e6c665fcc3834nat, 0xc03a94b2d3e64419a05cd8ccbf987069nat) == 0xc03a94b2d3e64419a05cd8ccbf987068nat,
{
    lemma_power_mod_first(3nat, 0xc03a94b2d3e64419a05cd8ccbf987069nat);
    lemma_power_255515944373312847190720520512484175977_over_2_part_0();
    lemma_power_255515944373312847190720520512484175977_over_2_part_1();
    lemma_power_255515944373312847190720520512484175977_over_2_part_2();
    lemma_power_255515944373312847190720520512484175977_over_2_part_3();
}

proof fn lemma_power_255515944373312847190720520512484175977_over_7_part_0()
    requires
        power_mod(3nat, 1nat, 0xc03a94b2d3e64419a05cd8ccbf987069nat) == 3nat,
    ensures
        power_mod(3nat, 0x1b76153e1nat, 0xc03a94b2d3e64419a05cd8ccbf987069nat) == 0x98ecfb1cebfb0c053c562afd2b8cc1fenat,
{
    let n = 0xc03a94b2d3e64419a05cd8ccbf987069nat;
    let e0 = 1nat;
    let x0 = 3nat;
    let x1 = 27nat;
    let e1 = 2 * e0 + 1;
    lemma_power_mod_square_times(3nat, e0, n, x0, 0nat, x1);
    let x2 = 729nat;
    let e2 = 2 * e1;
    lemma_power_mod_square(3nat, e1, n, x1, 0nat, x2);
    let x3 = 0x1853d3nat;
    let e3 = 2 * e2 + 1;
    lemma_power_mod_square_times(3nat, e2, n, x2, 0nat, x3);
    let x4 = 0x6ef79077fbbnat;
    let e4 = 2 * e3 + 1;
    lemma_power_mod_square_times(3nat, e3, n, x3, 0nat, x4);
    let x5 = 0x3019af8f355a2101f51299nat;
    let e5 = 2 * e4;
    lemma_power_mod_square(3nat, e4, n, x4, 0nat, x5);
    let x6 = 0x412709fa47ca95e58f2e57b63cfdf4aanat;
    let e6 = 2 * e5 + 1;
    lemma_power_mod_square_times(3nat, e5, n, x5, 0x241b8d5c4741nat, x6);
    let x7 = 0x374f26e9b441da48ffe08cabb9698039nat;
    let e7 = 2 * e6 + 1;
    lemma_power_mod_square_times(3nat, e6, n, x6, 0x423f2db0583cb86c68d886afe292007bnat, x7);
    let x8 = 0x3a53c8e1fe43493a76110afb7d059e7nat;
    let e8 = 2 * e7 + 1;
    lemma_power_mod_square_times(3nat, e7, n, x7, 0x2fbddbc74c1cc72ee1e010e51896654cnat, x8);
    let x9 = 0x37217d48d3cc41324cec801f5e823474nat;
    let e9 = 2 * e8;
    lemma_power_mod_square(3nat, e8, n, x8, 0x11b2b23da1f90e0571d4c35642ca75nat, x9);
    let x10 = 0xb3cf93338e30982155eb3cd36a32da87nat;
    let e10 = 2 * e9 + 1;
    lemma_power_mod_square_times(3nat, e9, n, x9, 0x2f6f27e0168d6496d39fb48543cec4c1nat, x10);
    let x11 = 0xb8fa0c099bba84385aad000351d50c89nat;
    let e11 = 2 * e10 + 1;
    lemma_power_mod_square_times(3nat, e10, n, x10, 0x1f895cc9c0180702d1358c18616f8c37anat, x11);
    let x12 = 0x3723ada7c3b32aa8014f140c5e1ebdb7nat;
    let e12 = 2 * e11;
    lemma_power_mod_square(3nat, e11, n, x11, 0xb1ff8da987d036b832e68cf559d4138anat, x12);
    let x13 = 0x6e1af1982cfdee3576cd80eb8f9ce305nat;
    let e13 = 2 * e12;
    lemma_power_mod_square(3nat, e12, n, x12, 0xfd0f968e1e2a1d4bd9a4df43456edecnat, x13);
    let x14 = 0x4e1e35e43bf3d9f33729525d0e1d3422nat;
    let e14 = 2 * e13;
    lemma_power_mod_square(3nat, e13, n, x13, 0x3f10faa2c7b7d8bc9f4211cf82e4fb5fnat, x14);
    let x15 = 0x50fa4ff657c82ff28a0937edd152613anat;
    let e15 = 2 * e14;
    lemma_power_mod_square(3nat, e14, n, x14, 0x1fbee0f5ae3586fff1e2b6696f76afbanat, x15);
    let x16 = 0x92d79a0b345921bd648396410bcfd916nat;
    let e16 = 2 * e15 + 1;
    lemma_power_mod_square_times(3nat, e15, n, x15, 0x6656618ee9d937634d7099cfe1e34ce6nat, x16);
    let x17 = 0xbf20790532940ca0fb4125feb1c1d2fcnat;
    let e17 = 2 * e16;
    lemma_power_mod_square(3nat, e16, n, x16, 0x702bf2e5748aae68ab4b76da23d246a8nat, x17);
    let x18 = 0x4b33cb3a1f3cba9beb8474854442c723nat;
    let e18 = 2 * e17 + 1;
    lemma_power_mod_square_times(3nat, e17, n, x17, 0x23a17f20fb537473ec0c1971d66586705nat, x18);
    let x19 = 0xb73948cf3c4f22c6117af13eda140fa1nat;
    let e19 = 2 * e18;
    lemma_power_mod_square(3nat, e18, n, x18, 0x1d6b8acdfbab63d4ad627fc8d7bd80e8nat, x19);
    let x20 = 0x63531feb06160e2a64629f2bc5d24b6fnat;
    let e20 = 2 * e19 + 1;
    lemma_power_mod_square_times(3nat, e19, n, x19, 0x20bebf148680a527cf359976ba4d94134nat, x20);
    let x21 = 0x75afd484c5acf2f79b5ffb8f955feef1nat;
    let e21 = 2 * e20;
    lemma_power_mod_square(3nat, e20, n, x20, 0x33523453032facaaeaf5b37b5e208bb0nat, x21);
    let x22 = 0x8ec769890f65164e0f86a5560180f484nat;
    let e22 = 2 * e21;
    lemma_power_mod_square(3nat, e21, n, x21, 0x480cf051cb60c7692eef46a092f80bd5nat, x22);
    let x23 = 0x46c24637019026c19c6ed1d65f203debnat;
    let e23 = 2 * e22 + 1;
    lemma_power_mod_square_times(3nat, e22, n, x22, 0x13e263fb1780f7a931ceedde6263ed37dnat, x23);
    let x24 = 0x1c78d2351eefd0e5038453bf73e54daanat;
    let e24 = 2 * e23 + 1;
    lemma_power_mod_square_times(3nat, e23, n, x23, 0x4e237019ae0060a6e10c9d755fbc4759nat, x24);
    let x25 = 0x216617468c354b54ea0f5c04010f37dnat;
    let e25 = 2 * e24 + 1;
    lemma_power_mod_square_times(3nat, e24, n, x24, 0xca6bfd9d91e2a5c30a362b043cd4bd7nat, x25);
    let x26 = 0x82e3e72bd1f0eaaa537a448eb4c24ad3nat;
    let e26 = 2 * e25 + 1;
    lemma_power_mod_square_times(3nat, e25, n, x25, 0x11689b1b45ef1a131072930dd4db08nat, x26);
    let x27 = 0x3e3b59983ba90c8b8efba39963a2eca0nat;
    let e27 = 2 * e26 + 1;
    lemma_power_mod_square_times(3nat, e26, n, x26, 0x10b5f72c934917d859bea6c5545f9c4e3nat, x27);
    let x28 = 0x1dd6a2a7203c2e4ca14e6b6f69cb38d4nat;
    let e28 = 2 * e27;
    lemma_power_mod_square(3nat, e27, n, x27, 0x14259695a6337a9d728124221cfaec4cnat, x28);
    let x29 = 0xeada28fcd2377b0ab99c33e57f0822fnat;
    let e29 = 2 * e28;
    lemma_power_mod_square(3nat, e28, n, x28, 0x4a1b1f98dd282259cd91e19ba97f639nat, x29);
    let x30 = 0x814295e709d3682f5b5d2dd6110aee44nat;
    let e30 = 2 * e29;
    lemma_power_mod_square(3nat, e29, n, x29, 0x11eed30974638ef869e4d20f54ef7d5nat, x30);
    let x31 = 0x8ad011a61faa2e563769cfc5a6c0e4a4nat;
    let e31 = 2 * e30;
    lemma_power_mod_square(3nat, e30, n, x30, 0x56eb0b89af6ccf20a4299d80034e848cnat, x31);
    let x32 = 0x98ecfb1cebfb0c053c562afd2b8cc1fenat;
    let e32 = 2 * e31 + 1;
    lemma_power_mod_square_times(3nat, e31, n, x31, 0x12cb830053d50d968e66d4aa9ac6d2962nat, x32);
}

proof fn lemma_power_255515944373312847190720520512484175977_over_7_part_1()
    requires
        power_mod(3nat, 0x1b76153e1nat, 0xc03a94b2d3e64419a05cd8ccbf987069nat) == 0x98ecfb1cebfb0c053c562afd2b8cc1fenat,
    ensures
        power_mod(3nat, 0x1b76153e1e4577716nat, 0xc03a94b2d3e64419a05cd8ccbf987069nat) == 0x4edfe436efae011d62043e2038b57d6fnat,
{
    let n = 0xc03a94b2d3e64419a05cd8ccbf987069nat;
    let e0 = 0x1b76153e1nat;
    let x0 = 0x98ecfb1cebfb0c053c562afd2b8cc1fenat;
    let x1 = 0x56c10807f0ce60bf6938aba9d0896a57nat;
    let e1 = 2 * e0 + 1;
    lemma_power_mod_square_times(3nat, e0, n, x0, 0x16cf9bad9a362912d14926561c9e0796dnat, x1);
    let x2 = 0x7d7a5bfe066478b3d97e3c6de407e6f9nat;
    let e2 = 2 * e1 + 1;
    lemma_power_mod_square_times(3nat, e1, n, x1, 0x75753569e5f15f79716502a5de3e70aanat, x2);
    let x3 = 0x43083e9aec067cf5b1f452453bdefa9fnat;
    let e3 = 2 * e2 + 1;
    lemma_power_mod_square_times(3nat, e2, n, x2, 0xf5b7e8c140db5a5037b5f86dd851a1d4nat, x3);
    let x4 = 0x1237c8e3e2a7a3cb29a1aa56a24f32c5nat;
    let e4 = 2 * e3;
    lemma_power_mod_square(3nat, e3, n, x3, 0x175ff4f504749c4622fe281182a9dc9cnat, x4);
    let x5 = 0x9bf92cde37e2c016b2f8131a5b83c63fnat;
    let e5 = 2 * e4;
    lemma_power_mod_square(3nat, e4, n, x4, 0x1b9ff04a044e51d426e89fdfff02f4anat, x5);
    let x6 = 0x55ba4719e954174475151e8d08aa3d98nat;
    let e6 = 2 * e5 + 1;
    lemma_power_mod_square_times(3nat, e5, n, x5, 0x17baae475ecc70b8019020b5aa289a833nat, x6);
    let x7 = 0x64ce205cf6e41b728caab744a8fa558bnat;
    let e7 = 2 * e6;
    lemma_power_mod_square(3nat, e6, n, x6, 0x263b4ed255a6ee3f5bc0fd233a5fd86dnat, x7);
    let x8 = 0x4f7b6f78c56ce950c28236a4a592e5aanat;
    let e8 = 2 * e7;
    lemma_power_mod_square(3nat, e7, n, x7, 0x34dcc8b39622ae392f10ae9ab3a07b77nat, x8);
    let x9 = 0x28f5707ab45e1f49ac598f4c6d977f51nat;
    let e9 = 2 * e8;
    lemma_power_mod_square(3nat, e8, n, x8, 0x20dd317bbbbb6369bb2ef266179d169bnat, x9);
    let x10 = 0xbc9519e650ebb83d5e3afe679c7004afnat;
    let e10 = 2 * e9 + 1;
    lemma_power_mod_square_times(3nat, e9, n, x9, 0x1a2e7cdeb7126995ed9f4e8e2ca58a14nat, x10);
    let x11 = 0x181114d63c0a7eab5b449032c5c78094nat;
    let e11 = 2 * e10;
    lemma_power_mod_square(3nat, e10, n, x10, 0xb90154287ceb4cbd59d5bb85e6eab505nat, x11);
    let x12 = 0x962fab64f4718ffdf22d5220aa9e81bnat;
    let e12 = 2 * e11 + 1;
    lemma_power_mod_square_times(3nat, e11, n, x11, 0x90a1224c68d68d47234f146e16de14dnat, x12);
    let x13 = 0x531df466f4620b57e41673f7ffca3caenat;
    let e13 = 2 * e12;
    lemma_power_mod_square(3nat, e12, n, x12, 0x7556ba906b072aa8899fb34ad99f73nat, x13);
    let x14 = 0x72d0815c3f64f0c5dc2c1e1f8ac478f9nat;
    let e14 = 2 * e13 + 1;
    lemma_power_mod_square_times(3nat, e13, n, x13, 0x6bd0daae0966e58d7ed7f0105c87f0dbnat, x14);
    let x15 = 0x35dea2420ffdc67387169b3c017bf148nat;
    let e15 = 2 * e14 + 1;
    lemma_power_mod_square_times(3nat, e14, n, x14, 0xcdbaaf136ca4bb33c09b475045884193nat, x15);
    let x16 = 0x94cda430bee3b9833b8d420650741068nat;
    let e16 = 2 * e15 + 1;
    lemma_power_mod_square_times(3nat, e15, n, x15, 0x2d49f1cb21e212a2be80bfa443966e98nat, x16);
    let x17 = 0x2b40da9b02c886dc15e6f01beb57aaa3nat;
    let e17 = 2 * e16;
    lemma_power_mod_square(3nat, e16, n, x16, 0x7330144fd4a67073cda855ef67292f15nat, x17);
    let x18 = 0xade8cf2318bf3663086f02ad9dc2aae1nat;
    let e18 = 2 * e17 + 1;
    lemma_power_mod_square_times(3nat, e17, n, x17, 0x1d327eeff5bfc5d6bb29599f67492d6anat, x18);
    let x19 = 0x4351bf2845dc110fdebf3cbc38c7b688nat;
    let e19 = 2 * e18 + 1;
    lemma_power_mod_square_times(3nat, e18, n, x18, 0x1d801eb3defe4716615c7cd3b8bd2e983nat, x19);
    let x20 = 0x4425d4f3389bbc7c404fd206b033bec4nat;
    let e20 = 2 * e19 + 1;
    lemma_power_mod_square_times(3nat, e19, n, x19, 0x46b9fc5b9d26259ccf8d5024688baa9cnat, x20);
    let x21 = 0x5df2a9aaa0b9e26770ccde4fcf9e4c5dnat;
    let e21 = 2 * e20;
    lemma_power_mod_square(3nat, e20, n, x20, 0x1828c9edab6e742006370d33e0ca95bbnat, x21);
    let x22 = 0x53ebd917fad813931149f029874bb255nat;
    let e22 = 2 * e21 + 1;
    lemma_power_mod_square_times(3nat, e21, n, x21, 0x89bece306b76cbd8534f410da158e216nat, x22);
    let x23 = 0xd731d7055134e772997a17509fffe2bnat;
    let e23 = 2 * e22 + 1;
    lemma_power_mod_square_times(3nat, e22, n, x22, 0x6de99731eaf9be75587f84dcfe830e80nat, x23);
    let x24 = 0x93fa833b42135d7a2b21d07b1c80a8b6nat;
    let e24 = 2 * e23 + 1;
    lemma_power_mod_square_times(3nat, e23, n, x23, 0x2d2b681f6b94ae4c90736cc66eba2adnat, x24);
    let x25 = 0x6a5ff1cf011c407d460c114494c457d3nat;
    let e25 = 2 * e24;
    lemma_power_mod_square(3nat, e24, n, x24, 0x71ea1e3126f86ffe857e010102efaae9nat, x25);
    let x26 = 0x1941b34ae09b7756ac056608c4130898nat;
    let e26 = 2 * e25;
    lemma_power_mod_square(3nat, e25, n, x25, 0x3add7fc63742dfefd4f6c615c829caa9nat, x26);
    let x27 = 0x5fcd68b996ca42803bc0f0ee9b3301a5nat;
    let e27 = 2 * e26;
    lemma_power_mod_square(3nat, e26, n, x26, 0x35184a4e2a8300662bf3a502bac6063nat, x27);
    let x28 = 0x7104bd229d3ad788f751fc48af2ce095nat;
    let e28 = 2 * e27 + 1;
    lemma_power_mod_square_times(3nat, e27, n, x27, 0x8f3cae3c61113118c76ccb690b5a8a06nat, x28);
    let x29 = 0x6ada1fad7220a7ef3d9074bd4af6f18bnat;
    let e29 = 2 * e28;
    lemma_power_mod_square(3nat, e28, n, x28, 0x4272a351c29fc026fbff8691289e15fenat, x29);
    let x30 = 0xa4bc879c8bf89094c4383d0cb536bf56nat;
    let e30 = 2 * e29 + 1;
    lemma_power_mod_square_times(3nat, e29, n, x29, 0xb22f12c92674ae6d01751933252e19cdnat, x30);
    let x31 = 0x1f27e1c7401e1f34c88643220a614146nat;
    let e31 = 2 * e30 + 1;
    lemma_power_mod_square_times(3nat, e30, n, x30, 0x1a7872988efa28ed4c646366922b51976nat, x31);
    let x32 = 0x4edfe436efae011d62043e2038b57d6fnat;
    let e32 = 2 * e31;
    lemma_power_mod_square(3nat, e31, n, x31, 0x50cb41c327246355578d1301cb07d6dnat, x32);
}

proof fn lemma_power_255515944373312847190720520512484175977_over_7_part_2()
    requires
        power_mod(3nat, 0x1b76153e1e4577716nat, 0xc03a94b2d3e64419a05cd8ccbf987069nat) == 0x4edfe436efae011d62043e2038b57d6fnat,
    ensures
        power_mod(3nat, 0x1b76153e1e457771600d438afnat, 0xc03a94b2d3e64419a05cd8ccbf987069nat) == 0x4f1ff93e00ed16fff6c04a5f63adc7ednat,
{
    let n = 0xc03a94b2d3e64419a05cd8ccbf987069nat;
    let e0 = 0x1b76153e1e4577716nat;
    let x0 = 0x4edfe436efae011d62043e2038b57d6fnat;
    let x1 = 0x758bc088018755138e715145a1ed7e2anat;
    let e1 = 2 * e0;
    lemma_power_mod_square(3nat, e0, n, x0, 0x205d0ea983c7855256c7231e241d395fnat, x1);
    let x2 = 0x9524301eebdc1fa0cdd89eb782182505nat;
    let e2 = 2 * e1;
    lemma_power_mod_square(3nat, e1, n, x1, 0x47e0ca2154ea3b041b1db2784a580f07nat, x2);
    let x3 = 0x91d749f0f46d8d9fad1308e94ec2364nat;
    let e3 = 2 * e2;
    lemma_power_mod_square(3nat, e2, n, x2, 0x73b638d8ad26856d9ec5a87d4d34a26dnat, x3);
    let x4 = 0x8768af33e27f71c0f78caef209f52da9nat;
    let e4 = 2 * e3;
    lemma_power_mod_square(3nat, e3, n, x3, 0x6ea5b156a2b4d534e06aa9d8ab794fnat, x4);
    let x5 = 0x2f46065d024addc155de434620f14801nat;
    let e5 = 2 * e4;
    lemma_power_mod_square(3nat, e4, n, x4, 0x5f625536580ff1ebea5edf7efc80d310nat, x5);
    let x6 = 0xe226f63fd24e7591d34b6ca4e76ca16nat;
    let e6 = 2 * e5;
    lemma_power_mod_square(3nat, e5, n, x5, 0xba02b4425e4edf01c14033cf8563933nat, x6);
    let x7 = 0x83e26ed0e0ee3eba2259dd7b01791a7anat;
    let e7 = 2 * e6;
    lemma_power_mod_square(3nat, e6, n, x6, 0x10a0fe8c13cad45d13bb6a28a59f6danat, x7);
    let x8 = 0xac015fba5f79f019ddfb4717bd0ac20fnat;
    let e8 = 2 * e7;
    lemma_power_mod_square(3nat, e7, n, x7, 0x5a7bc176b70c2cfc3c3df7190d4adccdnat, x8);
    let x9 = 0xbcffe5ecc0276d500516340bc6b071danat;
    let e9 = 2 * e8 + 1;
    lemma_power_mod_square_times(3nat, e8, n, x8, 0x1cdba81f6e4f07882038a4000a1d22561nat, x9);
    let x10 = 0x3e0fee04b288d6740eddc364b274f1denat;
    let e10 = 2 * e9 + 1;
    lemma_power_mod_square_times(3nat, e9, n, x9, 0x22d794eef1a13f05fe451f0a1b9fbbcdenat, x10);
    let x11 = 0x5c43a445dca966180cd43e5a4e50bf2cnat;
    let e11 = 2 * e10;
    lemma_power_mod_square(3nat, e10, n, x10, 0x140983510bcc51d8e28d628ef5b66798nat, x11);
    let x12 = 0x45539956d7923a9c1cc922d26cfea90enat;
    let e12 = 2 * e11 + 1;
    lemma_power_mod_square_times(3nat, e11, n, x11, 0x84da36f73b038aa8a0e99fd2a91dc452nat, x12);
    let x13 = 0xb9c3cced3eab10d6a9c4668a7c2f1e2dnat;
    let e13 = 2 * e12;
    lemma_power_mod_square(3nat, e12, n, x12, 0x190099bbf2641adf1244c28fd77476ffnat, x13);
    let x14 = 0x602b1584c132e42d688d0cdae3465d91nat;
    let e14 = 2 * e13 + 1;
    lemma_power_mod_square_times(3nat, e13, n, x13, 0x21a8dfe705171ba14c4f4ce32548de79anat, x14);
    let x15 = 0x3f0dbfd4982caa4ebaff78ce1ea3cbdcnat;
    let e15 = 2 * e14;
    lemma_power_mod_square(3nat, e14, n, x14, 0x301c71556e70406ea1a1c79f3a2c757dnat, x15);
    let x16 = 0x4218fa3250961afd1ca3a1620bcff86enat;
    let e16 = 2 * e15;
    lemma_power_mod_square(3nat, e15, n, x15, 0x14aeb768e51ce5ddb4c1afd5310ff352nat, x16);
    let x17 = 0xbd6f4b85f700e39011b5a71f8096c1ddnat;
    let e17 = 2 * e16;
    lemma_power_mod_square(3nat, e16, n, x16, 0x16ba400fa8d15c53b4800851203d554fnat, x17);
    let x18 = 0x8427962409ed7003d01b17fd53d76b9cnat;
    let e18 = 2 * e17;
    lemma_power_mod_square(3nat, e17, n, x17, 0xbaae67ef7961de51667ed082c9e71e25nat, x18);
    let x19 = 0x4415d366f36559b138b9114688a90a54nat;
    let e19 = 2 * e18 + 1;
    lemma_power_mod_square_times(3nat, e18, n, x18, 0x110903a7cfa6648c33d8c0c551072187cnat, x19);
    let x20 = 0x1f993cab88dd7476d213fc89d8e80c90nat;
    let e20 = 2 * e19 + 1;
    lemma_power_mod_square_times(3nat, e19, n, x19, 0x485855f574ed2efd6cb6aa9f96d58120nat, x20);
    let x21 = 0x49c76af9e069212fe1ccfeac096ea3d7nat;
    let e21 = 2 * e20 + 1;
    lemma_power_mod_square_times(3nat, e20, n, x20, 0xf95208e82a799f45bf3087ffbcb90c1nat, x21);
    let x22 = 0x459e99f02398b2e9f03c56ef71e0c68dnat;
    let e22 = 2 * e21;
    lemma_power_mod_square(3nat, e21, n, x21, 0x1c5124b1528f8685388d153340227764nat, x22);
    let x23 = 0xa995aecc1e5e6e3c0b3fb30fc95990b0nat;
    let e23 = 2 * e22;
    lemma_power_mod_square(3nat, e22, n, x22, 0x1936d03c76cf89e0890e964881ae1211nat, x23);
    let x24 = 0xb88ab23960b40a15a1a58c2a73aa3cbbnat;
    let e24 = 2 * e23;
    lemma_power_mod_square(3nat, e23, n, x23, 0x959ba585ee9cefbeaa86f075a817717dnat, x24);
    let x25 = 0x994600b67d5e51cd5327b354f88213ffnat;
    let e25 = 2 * e24 + 1;
    lemma_power_mod_square_times(3nat, e24, n, x24, 0x2137c8420338bd2650134a616d67055ecnat, x25);
    let x26 = 0x61989f650e4e097bd4a33c7abae99735nat;
    let e26 = 2 * e25;
    lemma_power_mod_square(3nat, e25, n, x25, 0x7a3660ea576b3095560bf4650cf1a0ecnat, x26);
    let x27 = 0x61fbbc51a88372b918dbd1207e75e08nat;
    let e27 = 2 * e26 + 1;
    lemma_power_mod_square_times(3nat, e26, n, x26, 0x94a6b44f940dde1149b2b51f6020716bnat, x27);
    let x28 = 0xd77f94648bc0aaac665796ce8207d28nat;
    let e28 = 2 * e27;
    lemma_power_mod_square(3nat, e27, n, x27, 0x31f1bdf6b19ff7a814b5107a64e758nat, x28);
    let x29 = 0x433a4619918452b19baca52f8851be65nat;
    let e29 = 2 * e28 + 1;
    lemma_power_mod_square_times(3nat, e28, n, x28, 0x2d4c10a62d95f43f9acdc0a40093623nat, x29);
    let x30 = 0xab52daa4095d47e2ec993e8fee176772nat;
    let e30 = 2 * e29 + 1;
    lemma_power_mod_square_times(3nat, e29, n, x29, 0x4688b293e0e67869646934dc4122d031nat, x30);
    let x31 = 0x78b9c96eb69d904dc2bc06d7caa92e41nat;
    let e31 = 2 * e30 + 1;
    lemma_power_mod_square_times(3nat, e30, n, x30, 0x1ca136853f6a8498e6ed964a0fe764c53nat, x31);
    let x32 = 0x4f1ff93e00ed16fff6c04a5f63adc7ednat;
    let e32 = 2 * e31 + 1;
    lemma_power_mod_square_times(3nat, e31, n, x31, 0xe3756866f4bae0b1b396698e1ef19e26nat, x32);
}

proof fn lemma_power_255515944373312847190720520512484175977_over_7_part_3()
    requires
        power_mod(3nat, 0x1b76153e1e457771600d438afnat, 0xc03a94b2d3e64419a05cd8ccbf987069nat) == 0x4f1ff93e00ed16fff6c04a5f63adc7ednat,
    ensures
        power_mod(3nat, 0x1b76153e1e457771600d438af6cca258nat, 0xc03a94b2d3e64419a05cd8ccbf987069nat) == 0x4c7550c817d9d71dcbd50e729a77772fnat,
{
    let n = 0xc03a94b2d3e64419a05cd8ccbf987069nat;
    let e0 = 0x1b76153e1e457771600d438afnat;
    let x0 = 0x4f1ff93e00ed16fff6c04a5f63adc7ednat;
    let x1 = 0x7dc288d8eceaefe88ac848ffd034ecb7nat;
    let e1 = 2 * e0;
    lemma_power_mod_square(3nat, e0, n, x0, 0x2091ba846d8259964aa2e550bdc5e8e2nat, x1);
    let x2 = 0x76c4d706966d97ed629fccb90e4e42eanat;
    let e2 = 2 * e1 + 1;
    lemma_power_mod_square_times(3nat, e1, n, x1, 0xf6d2e6ffe7387507c410390141d10021nat, x2);
    let x3 = 0x99ea868daa88d63dedb195c286299510nat;
    let e3 = 2 * e2 + 1;
    lemma_power_mod_square_times(3nat, e2, n, x2, 0xdc250b4b2373442ee94acfa5a566ac3cnat, x3);
    let x4 = 0x8d944f0dcbbd5a9e96d39800c99d466bnat;
    let e4 = 2 * e3;
    lemma_power_mod_square(3nat, e3, n, x3, 0x7b3d4af41db4c8e32e51b58f769ed34dnat, x4);
    let x5 = 0x33402ac2061df2ea1450db6efe0b0e1anat;
    let e5 = 2 * e4 + 1;
    lemma_power_mod_square_times(3nat, e4, n, x4, 0x138d361e1965e8256976c421024a08169nat, x5);
    let x6 = 0x7e5bed47e299c304068c503debb17ce3nat;
    let e6 = 2 * e5 + 1;
    lemma_power_mod_square_times(3nat, e5, n, x5, 0x28fe02aabc0067887b614dc577c939a1nat, x6);
    let x7 = 0x973a32317deac9eadcb76058da0e1a76nat;
    let e7 = 2 * e6;
    lemma_power_mod_square(3nat, e6, n, x6, 0x530f7bc5baf73de5a07e91b1728b65dbnat, x7);
    let x8 = 0xa87efa11b3c3e594d5c8be71fbf552bbnat;
    let e8 = 2 * e7;
    lemma_power_mod_square(3nat, e7, n, x7, 0x76f8a4018b0c0941df4e18e1e4fda941nat, x8);
    let x9 = 0xa14a706efffd6579b7fd44ee689eeb5dnat;
    let e9 = 2 * e8 + 1;
    lemma_power_mod_square_times(3nat, e8, n, x8, 0x1bb146ccc1bc783326cb84773f952f13enat, x9);
    let x10 = 0x8d0c759e57196d01370bd370e4a9ce0cnat;
    let e10 = 2 * e9 + 1;
    lemma_power_mod_square_times(3nat, e9, n, x9, 0x195fefccd83672ebe94f283ca879afcf7nat, x10);
    let x11 = 0xa0705848982b1c9b688147bfe930d6bbnat;
    let e11 = 2 * e10;
    lemma_power_mod_square(3nat, e10, n, x10, 0x677eb9caacf59be7cfb2d34c3632108dnat, x11);
    let x12 = 0x12016d26f2a0542acdb73095b2356d00nat;
    let e12 = 2 * e11;
    lemma_power_mod_square(3nat, e11, n, x11, 0x85e7f9c27f71dec4512b48966930efb1nat, x12);
    let x13 = 0xc53987500484e98d902558c58550004nat;
    let e13 = 2 * e12 + 1;
    lemma_power_mod_square_times(3nat, e12, n, x12, 0x50f423c3adf67998213c92647c5809cnat, x13);
    let x14 = 0xb60fcfb06fad56088982d06c8c135075nat;
    let e14 = 2 * e13;
    lemma_power_mod_square(3nat, e13, n, x13, 0xca59b717fbefcf390611a1d0509f63nat, x14);
    let x15 = 0xa3f159f4389d159dd29ba60e47177e6fnat;
    let e15 = 2 * e14 + 1;
    lemma_power_mod_square_times(3nat, e14, n, x14, 0x2054c1c2e7a9d0e0aa77d9e61d929b29cnat, x15);
    let x16 = 0x1440fac73183d1c54d7c45c24016747enat;
    let e16 = 2 * e15;
    lemma_power_mod_square(3nat, e15, n, x15, 0x8bd1a72ba74f35b24afd7e0c419d6e2bnat, x16);
    let x17 = 0xa6b289b83a08c49e0b81274a264e303nat;
    let e17 = 2 * e16;
    lemma_power_mod_square(3nat, e16, n, x16, 0x2224e3891c8ec85229233d80e13f2d9nat, x17);
    let x18 = 0x62fef4ef0cdca4d789ef6d6bcc7a5bdcnat;
    let e18 = 2 * e17;
    lemma_power_mod_square(3nat, e17, n, x17, 0x908e9920d1088ca6d3e540676f1f25nat, x18);
    let x19 = 0x9c886b703a1360dd866da282ee660f5bnat;
    let e19 = 2 * e18 + 1;
    lemma_power_mod_square_times(3nat, e18, n, x18, 0x98f21b8685cb99f1e1aed1a3c5d4068dnat, x19);
    let x20 = 0x972f20c183a0a0f6aa6cbce7eef034bfnat;
    let e20 = 2 * e19;
    lemma_power_mod_square(3nat, e19, n, x19, 0x7f772b7718d7ab68bc06e51598fb758anat, x20);
    let x21 = 0x3ceef47ee63f0f83ccb1b04af8231877nat;
    let e21 = 2 * e20;
    lemma_power_mod_square(3nat, e20, n, x20, 0x76e73a7c746da90bd8eec3bd155a1c7anat, x21);
    let x22 = 0x2a855cec342dd04aac0aa6994e2d6200nat;
    let e22 = 2 * e21 + 1;
    lemma_power_mod_square_times(3nat, e21, n, x21, 0x39f1d8acd77f7970e49a93127bee75fbnat, x22);
    let x23 = 0xbc7dcdd61980a8f76a0ff5a7b3b9f5a0nat;
    let e23 = 2 * e22;
    lemma_power_mod_square(3nat, e22, n, x22, 0x967d6a29c7d7fa095bccebe74046b60nat, x23);
    let x24 = 0xcd47153eb70d821ba09160dad3b3492nat;
    let e24 = 2 * e23 + 1;
    lemma_power_mod_square_times(3nat, e23, n, x23, 0x22a7ae35c9f0cf0be92134ee901e8ce3enat, x24);
    let x25 = 0xa9e705911289faa6dbdc150487e025b0nat;
    let e25 = 2 * e24 + 1;
    lemma_power_mod_square_times(3nat, e24, n, x24, 0x291a3087ad8f61d0a444ebb8b2b9fbcnat, x25);
    let x26 = 0x816ed4a01913b522bf21e920d463bf13nat;
    let e26 = 2 * e25;
    lemma_power_mod_square(3nat, e25, n, x25, 0x962b4bba001cde4012e094932b6a2ce5nat, x26);
    let x27 = 0x6788bdb8eb271576cb092178f59fa156nat;
    let e27 = 2 * e26;
    lemma_power_mod_square(3nat, e26, n, x26, 0x57269689f59a43221c137da09c21071bnat, x27);
    let x28 = 0x4c7550c817d9d71dcbd50e729a77772fnat;
    let e28 = 2 * e27;
    lemma_power_mod_square(3nat, e27, n, x27, 0x37c369642b88ca057f40b1eed173ad6dnat, x28);
}

proof fn lemma_power_255515944373312847190720520512484175977_over_7()
    ensures
        power_mod(3nat, 0x1b76153e1e457771600d438af6cca258nat, 0xc03a94b2d3e64419a05cd8ccbf987069nat) == 0x4c7550c817d9d71dcbd50e729a77772fnat,
{
    lemma_power_mod_first(3nat, 0xc03a94b2d3e64419a05cd8ccbf987069nat);
    lemma_power_255515944373312847190720520512484175977_over_7_part_0();
    lemma_power_255515944373312847190720520512484175977_over_7_part_1();
    lemma_power_255515944373312847190720520512484175977_over_7_part_2();
    lemma_power_255515944373312847190720520512484175977_over_7_part_3();
}

proof fn lemma_power_255515944373312847190720520512484175977_over_11_part_0()
    requires
        power_mod(3nat, 1nat, 0xc03a94b2d3e64419a05cd8ccbf987069nat) == 3nat,
    ensures
        power_mod(3nat, 0x1179b06d5nat, 0xc03a94b2d3e64419a05cd8ccbf987069nat) == 0x71bec7690932f3688dc92e111e5ad6cnat,
{
    let n = 0xc03a94b2d3e64419a05cd8ccbf987069nat;
    let e0 = 1nat;
    let x0 = 3nat;
    let x1 = 9nat;
    let e1 = 2 * e0;
    lemma_power_mod_square(3nat, e0, n, x0, 0nat, x1);
    let x2 = 81nat;
    let e2 = 2 * e1;
    lemma_power_mod_square(3nat, e1, n, x1, 0nat, x2);
    let x3 = 6561nat;
    let e3 = 2 * e2;
    lemma_power_mod_square(3nat, e2, n, x2, 0nat, x3);
    let x4 = 0x7b285c3nat;
    let e4 = 2 * e3 + 1;
    lemma_power_mod_square_times(3nat, e3, n, x3, 0nat, x4);
    let x5 = 0x3b3fcef3103289nat;
    let e5 = 2 * e4;
    lemma_power_mod_square(3nat, e4, n, x4, 0nat, x5);
    let x6 = 0x29236be2a5300a9b8a57534d67f3nat;
    let e6 = 2 * e5 + 1;
    lemma_power_mod_square_times(3nat, e5, n, x5, 0nat, x6);
    let x7 = 0x473b75322adb96562a29664f541c73b5nat;
    let e7 = 2 * e6 + 1;
    lemma_power_mod_square_times(3nat, e6, n, x6, 0x1a6966ded7eca93bc973e356nat, x7);
    let x8 = 0x6bc85365a61cea6999e7747eac5413d7nat;
    let e8 = 2 * e7 + 1;
    lemma_power_mod_square_times(3nat, e7, n, x7, 0x4f2ffa1c9a3844f72e829c03443fd2f4nat, x8);
    let x9 = 0xa38ea6d59ef149555434d98fb8c3a7c7nat;
    let e9 = 2 * e8 + 1;
    lemma_power_mod_square_times(3nat, e8, n, x8, 0xb54cf8e6293f31341f7a6a18ca7e970cnat, x9);
    let x10 = 0x41f27412e78719a2896c1c24fb4481e6nat;
    let e10 = 2 * e9;
    lemma_power_mod_square(3nat, e9, n, x9, 0x8b297f9c91191b5f67e3dc6e064aeb13nat, x10);
    let x11 = 0x35bb5210a60179d11f2f857b4cd0de12nat;
    let e11 = 2 * e10;
    lemma_power_mod_square(3nat, e10, n, x10, 0x169fc9a1dbd5214be97e74a790d585c2nat, x11);
    let x12 = 0xa96f91b09bc0e2ef0e9e919e6a954a72nat;
    let e12 = 2 * e11 + 1;
    lemma_power_mod_square_times(3nat, e11, n, x11, 0x2d0ea4ddd411306b118b0caf74c86b4anat, x12);
    let x13 = 0x10cbd5a916c574c63c8eb174edec9e7anat;
    let e13 = 2 * e12 + 1;
    lemma_power_mod_square_times(3nat, e12, n, x12, 0x1c00948ca428b6b0fc6d37f523e702902nat, x13);
    let x14 = 0x5171f12889b9589f0ba9810ed4989b4nat;
    let e14 = 2 * e13;
    lemma_power_mod_square(3nat, e13, n, x13, 0x177b40b8d9393919e1eb1567ddbf6f0nat, x14);
    let x15 = 0xb29081ef99a3793ffb1f424f70b97727nat;
    let e15 = 2 * e14 + 1;
    lemma_power_mod_square_times(3nat, e14, n, x14, 0x67859f6a2cb816946d127eb06aa721nat, x15);
    let x16 = 0x26b7a5777413831b3b0491b9cfba25a8nat;
    let e16 = 2 * e15 + 1;
    lemma_power_mod_square_times(3nat, e15, n, x15, 0x1f19d457e274842c7d2d726c647d53b73nat, x16);
    let x17 = 0xe14775b8226cc804995d33ffd18327anat;
    let e17 = 2 * e16;
    lemma_power_mod_square(3nat, e16, n, x16, 0x7cc55635d0b7e39964ff300940ab4d6nat, x17);
    let x18 = 0x441cc576092f6f8c3a4af2eb6ccb2dbcnat;
    let e18 = 2 * e17;
    lemma_power_mod_square(3nat, e17, n, x17, 0x10803091d4053200488506f94198428nat, x18);
    let x19 = 0x4d188f5feec292c4c3fd73a9dc00be59nat;
    let e19 = 2 * e18;
    lemma_power_mod_square(3nat, e18, n, x18, 0x18225dc608136124b4a0e867bb2a2f1fnat, x19);
    let x20 = 0x62850f059d7b61ce91183054630c1a6dnat;
    let e20 = 2 * e19;
    lemma_power_mod_square(3nat, e19, n, x19, 0x1eeb9c5a3a38137358b3b9e196578be4nat, x20);
    let x21 = 0x60e2203e25df773dda7d371dec71493fnat;
    let e21 = 2 * e20;
    lemma_power_mod_square(3nat, e20, n, x20, 0x327e1e57cdd2883a8697f2a441f4da9anat, x21);
    let x22 = 0x465d82b019d9c5b4613bfc2448750b77nat;
    let e22 = 2 * e21 + 1;
    lemma_power_mod_square_times(3nat, e21, n, x21, 0x927ccddcba0b8ef1cdef31fc09d8632cnat, x22);
    let x23 = 0x46c9378be144eeb65cd72e9b8a661ca2nat;
    let e23 = 2 * e22 + 1;
    lemma_power_mod_square_times(3nat, e22, n, x22, 0x4d4582ff9df4367980bf78b4faf3b2a9nat, x23);
    let x24 = 0x354e24e636338463e13f3021cbb09929nat;
    let e24 = 2 * e23;
    lemma_power_mod_square(3nat, e23, n, x23, 0x1a10ecbed9eed54218acf41d60090723nat, x24);
    let x25 = 0x10e52172fce777f975eda00fa1f34570nat;
    let e25 = 2 * e24 + 1;
    lemma_power_mod_square_times(3nat, e24, n, x24, 0x2c5844da80ff94395607060b688e09cbnat, x25);
    let x26 = 0x444fc72ec5538579cf8e45b964c48275nat;
    let e26 = 2 * e25 + 1;
    lemma_power_mod_square_times(3nat, e25, n, x25, 0x4746919f7c8b8ee4e6889f9c389fad3nat, x26);
    let x27 = 0xa7c7c1f6b86bc0d66fc60e3738f45950nat;
    let e27 = 2 * e26;
    lemma_power_mod_square(3nat, e26, n, x26, 0x184690c91afe79ffe185d14a1e9449c1nat, x27);
    let x28 = 0x1e350d6bb6dc44310f7f171223d3ce0bnat;
    let e28 = 2 * e27 + 1;
    lemma_power_mod_square_times(3nat, e27, n, x27, 0x1b752e11f015351164fcd4f00e88276adnat, x28);
    let x29 = 0xa6915b0b8effb426ed7924a7a02b7ef9nat;
    let e29 = 2 * e28;
    lemma_power_mod_square(3nat, e28, n, x28, 0x4bf3016c0748d3ac02dfca36e93d980nat, x29);
    let x30 = 0x83f4595ecc78f5361d317e5aea124764nat;
    let e30 = 2 * e29 + 1;
    lemma_power_mod_square_times(3nat, e29, n, x29, 0x1b0ff35fcb09c071b1d8f14a4f4fc43d7nat, x30);
    let x31 = 0xad2212edc3ee249fad7add83b23fdf6anat;
    let e31 = 2 * e30;
    lemma_power_mod_square(3nat, e30, n, x30, 0x5a9458a084988cbeb901a87586178db6nat, x31);
    let x32 = 0x71bec7690932f3688dc92e111e5ad6cnat;
    let e32 = 2 * e31 + 1;
    lemma_power_mod_square_times(3nat, e31, n, x31, 0x1d3cd8d6a02ec326f1685df0a99f9c040nat, x32);
}

proof fn lemma_power_255515944373312847190720520512484175977_over_11_part_1()
    requires
        power_mod(3nat, 0x1179b06d5nat, 0xc03a94b2d3e64419a05cd8ccbf987069nat) == 0x71bec7690932f3688dc92e111e5ad6cnat,
    ensures
        power_mod(3nat, 0x1179b06d5914eeeb0nat, 0xc03a94b2d3e64419a05cd8ccbf987069nat) == 0x9ef45f0f90a6218048a05b9a10f0640nat,
{
    let n = 0xc03a94b2d3e64419a05cd8ccbf987069nat;
    let e0 = 0x1179b06d5nat;
    let x0 = 0x71bec7690932f3688dc92e111e5ad6cnat;
    let x1 = 0xa5fa5432b39147324b39314c3f93a52fnat;
    let e1 = 2 * e0 + 1;
    lemma_power_mod_square_times(3nat, e0, n, x0, 0xc9ea4db53017db08decb6bfc5a1f59nat, x1);
    let x2 = 0xbe64e85d40d489ca5a05cd4feb61423anat;
    let e2 = 2 * e1;
    lemma_power_mod_square(3nat, e1, n, x1, 0x8f4fcd543310cf4c569abbec6d10cc4fnat, x2);
    let x3 = 0x220b797ba6d9cd18bcf655573b61880anat;
    let e3 = 2 * e2;
    lemma_power_mod_square(3nat, e2, n, x2, 0xbc93b795699d485f428c9983ccdea10anat, x3);
    let x4 = 0x1024d62f2c8693a0ee2cba9a8e2526adnat;
    let e4 = 2 * e3 + 1;
    lemma_power_mod_square_times(3nat, e3, n, x3, 0x1216ae45bb52bcc910d13103f4ed76a7nat, x4);
    let x5 = 0x5bcb68206bee2805512931b3cc2a4b47nat;
    let e5 = 2 * e4;
    lemma_power_mod_square(3nat, e4, n, x4, 0x15b1632eeefeab7a7660e83530ee452nat, x5);
    let x6 = 0xb4737fa8b1a9747fbe528a5ba0c0bbbenat;
    let e6 = 2 * e5;
    lemma_power_mod_square(3nat, e5, n, x5, 0x2bd59d0cdff9495a2319ce8d78e283fbnat, x6);
    let x7 = 0xaeab5b05af676737949082afe1c7b735nat;
    let e7 = 2 * e6;
    lemma_power_mod_square(3nat, e6, n, x6, 0xa96525c268da1da731397426fc6cc177nat, x7);
    let x8 = 0x70b5e9d0740893ea142acac9df50cad4nat;
    let e8 = 2 * e7 + 1;
    lemma_power_mod_square_times(3nat, e7, n, x7, 0x1dc244358b67040aa079ac7c86d5c447fnat, x8);
    let x9 = 0x45979c37ca8f1cfd57b2328b87288877nat;
    let e9 = 2 * e8;
    lemma_power_mod_square(3nat, e8, n, x8, 0x4216134a15255ea8f9082f8ac9ad3b31nat, x9);
    let x10 = 0x4d9882ce85c097cf06bf9f5ba87dd59cnat;
    let e10 = 2 * e9 + 1;
    lemma_power_mod_square_times(3nat, e9, n, x9, 0x4b95405f6275a310a0039a105df7f2bfnat, x10);
    let x11 = 0xa2ac1f145a44d07e3ab0423321d6f212nat;
    let e11 = 2 * e10;
    lemma_power_mod_square(3nat, e10, n, x10, 0x1f52938661f486862884dd8ae314fd4enat, x11);
    let x12 = 0x42dbfbda0bfba91320b5dc61c843addcnat;
    let e12 = 2 * e11;
    lemma_power_mod_square(3nat, e11, n, x11, 0x89a90e65d5f9120335a495dbcfe91328nat, x12);
    let x13 = 0x3d29850c320fc9496c7e1e30a7fd44f6nat;
    let e13 = 2 * e12 + 1;
    lemma_power_mod_square_times(3nat, e12, n, x12, 0x45c36287da448b3e679f0dfc2014212anat, x13);
    let x14 = 0x986250d0b40700536b96298ce5e4adccnat;
    let e14 = 2 * e13 + 1;
    lemma_power_mod_square_times(3nat, e13, n, x13, 0x3a6170934d9a7a20c8401cdc58600060nat, x14);
    let x15 = 0x794758baf491b52935ea36d045fe4bafnat;
    let e15 = 2 * e14 + 1;
    lemma_power_mod_square_times(3nat, e14, n, x14, 0x16a65050e4e8145b37e67b794bddf43d9nat, x15);
    let x16 = 0xbc8f053f199041d9c16fc2a4d5910241nat;
    let e16 = 2 * e15;
    lemma_power_mod_square(3nat, e15, n, x15, 0x4c84048b05dd4a7786a70e5223871860nat, x16);
    let x17 = 0x63e0e23bea68e484df09ac9deab78796nat;
    let e17 = 2 * e16 + 1;
    lemma_power_mod_square_times(3nat, e16, n, x16, 0x22ae0324d56390b03372e38bffab2e8e5nat, x17);
    let x18 = 0x902bb5650abb819629a6e06f9ecf7da3nat;
    let e18 = 2 * e17 + 1;
    lemma_power_mod_square_times(3nat, e17, n, x17, 0x9baf51e891ea1574487e13c92d2a54a1nat, x18);
    let x19 = 0x1d3cccad96659c23d9ed7a9e3bb92fcbnat;
    let e19 = 2 * e18 + 1;
    lemma_power_mod_square_times(3nat, e18, n, x18, 0x14461d5591f7322f8652ef51588b9d310nat, x19);
    let x20 = 0x3c72ec078210c74a8fa3d4fa7ff27e67nat;
    let e20 = 2 * e19;
    lemma_power_mod_square(3nat, e19, n, x19, 0x4726b133221e58cbb730455e656f5c2nat, x20);
    let x21 = 0x3f8a158553789423fd29047cbe4ed0f9nat;
    let e21 = 2 * e20 + 1;
    lemma_power_mod_square_times(3nat, e20, n, x20, 0x3906e2ab6feb77a4f1de62068d7b714anat, x21);
    let x22 = 0x6d536980e4fad514b6c90f344dbacd5cnat;
    let e22 = 2 * e21 + 1;
    lemma_power_mod_square_times(3nat, e21, n, x21, 0x3f01caf49d00436d140b707c12a8589fnat, x22);
    let x23 = 0x7cb329492f28f2ba648ceec50ff7b1dbnat;
    let e23 = 2 * e22 + 1;
    lemma_power_mod_square_times(3nat, e22, n, x22, 0xba87a2a5f516bfa1efd2e3bd428f640dnat, x23);
    let x24 = 0x41b5a58ac2e14c7e6d63411529732513nat;
    let e24 = 2 * e23;
    lemma_power_mod_square(3nat, e23, n, x23, 0x50e4b8c4149b27a4c5fbcb81285f4156nat, x24);
    let x25 = 0xa441b63b62e27ef28d9ed6a1c9ecaa4dnat;
    let e25 = 2 * e24 + 1;
    lemma_power_mod_square_times(3nat, e24, n, x24, 0x43626c8f1f0b44f86cf70e235cc976benat, x25);
    let x26 = 0x790266582a52c6745d035e3510f2ab56nat;
    let e26 = 2 * e25;
    lemma_power_mod_square(3nat, e25, n, x25, 0x8c5adafd445225d65b20ee9ff57a96dbnat, x26);
    let x27 = 0x5a5baf29f28172f4283821dc7fc6dfefnat;
    let e27 = 2 * e26 + 1;
    lemma_power_mod_square_times(3nat, e26, n, x26, 0xe4875934484ad140c173a9c796ab5535nat, x27);
    let x28 = 0x70abdd3f48278415729967ac2dec3e12nat;
    let e28 = 2 * e27 + 1;
    lemma_power_mod_square_times(3nat, e27, n, x27, 0x7f6b7f8094ab5c2246f1b9c19307d0a9nat, x28);
    let x29 = 0x889d7bedda2d02214cd1ac8afbff8538nat;
    let e29 = 2 * e28;
    lemma_power_mod_square(3nat, e28, n, x28, 0x420a4b0a24841fc3ee2aea4aacbe922cnat, x29);
    let x30 = 0x33e639c479580c0b93568fb8644d1d22nat;
    let e30 = 2 * e29;
    lemma_power_mod_square(3nat, e29, n, x29, 0x6117512b05ba42ae7d8d844059ed026enat, x30);
    let x31 = 0x739df52cc9e0fcf9ecb055bbaedb99bnat;
    let e31 = 2 * e30;
    lemma_power_mod_square(3nat, e30, n, x30, 0xe031c4ad9cba930dc7ad9b55d484a81nat, x31);
    let x32 = 0x9ef45f0f90a6218048a05b9a10f0640nat;
    let e32 = 2 * e31;
    lemma_power_mod_square(3nat, e31, n, x31, 0x4589d82785101540ad9d24ce90ddb1nat, x32);
}

proof fn lemma_power_255515944373312847190720520512484175977_over_11_part_2()
    requires
        power_mod(3nat, 0x1179b06d5914eeeb0nat, 0xc03a94b2d3e64419a05cd8ccbf987069nat) == 0x9ef45f0f90a6218048a05b9a10f0640nat,
    ensures
        power_mod(3nat, 0x1179b06d5914eeeb0e9413b58nat, 0xc03a94b2d3e64419a05cd8ccbf987069nat) == 0xf4df870e930a6498e547bd3a6bd8366nat,
{
    let n = 0xc03a94b2d3e64419a05cd8ccbf987069nat;
    let e0 = 0x1179b06d5914eeeb0nat;
    let x0 = 0x9ef45f0f90a6218048a05b9a10f0640nat;
    let x1 = 0x1071f3fb2dbc9ba0addff425c60b49bnat;
    let e1 = 2 * e0 + 1;
    lemma_power_mod_square_times(3nat, e0, n, x0, 0x18a51eafa2e3f2e7a1d4e4e97c9d39dnat, x1);
    let x2 = 0x8dc741aa84aaef713ce5804d10f9719dnat;
    let e2 = 2 * e1 + 1;
    lemma_power_mod_square_times(3nat, e1, n, x1, 0x4387b38c1777d312ef46ad7ccd2benat, x2);
    let x3 = 0x4bdce95a051cc16a12fe33c92cbe26e0nat;
    let e3 = 2 * e2 + 1;
    lemma_power_mod_square_times(3nat, e2, n, x2, 0x139b4aed50781aa3800173e6d76afe8c3nat, x3);
    let x4 = 0x2167e6d02e67e9a0908dde6992c1aa92nat;
    let e4 = 2 * e3;
    lemma_power_mod_square(3nat, e3, n, x3, 0x1df071fe892eb1329046c1b86f9b603enat, x4);
    let x5 = 0xe64b74fa9563bcc93e69057e8fd6fa4nat;
    let e5 = 2 * e4 + 1;
    lemma_power_mod_square_times(3nat, e4, n, x4, 0x116a7e61b6cdd921a6ab3c75e953ebe8nat, x5);
    let x6 = 0xb5e01e5bab9d2fcee611f4290365feb5nat;
    let e6 = 2 * e5;
    lemma_power_mod_square(3nat, e5, n, x5, 0x113e60d69ab964df553a87f7dffa423nat, x6);
    let x7 = 0x8dc1c912b06f1d35727f5bac71a0b4cenat;
    let e7 = 2 * e6;
    lemma_power_mod_square(3nat, e6, n, x6, 0xac1468beb5bdcb7b3186e36aa4bfb873nat, x7);
    let x8 = 0xb6ae9ff095618794b84791fc5dfc0bd9nat;
    let e8 = 2 * e7 + 1;
    lemma_power_mod_square_times(3nat, e7, n, x7, 0x1399c794188145a25ca24e68ea736fb7bnat, x8);
    let x9 = 0x66e4a54fb4b5671e1469177ee8fb618dnat;
    let e9 = 2 * e8;
    lemma_power_mod_square(3nat, e8, n, x8, 0xad9c0b1d2d8264724477ba062e9e0cc4nat, x9);
    let x10 = 0x8d233fa023ecc2b507790611f48c5bd7nat;
    let e10 = 2 * e9 + 1;
    lemma_power_mod_square_times(3nat, e9, n, x9, 0xa539966dda085d8dd9cb2e1246b25d84nat, x10);
    let x11 = 0x4a2786d1d5c962ff7b7b4b8a7d552d9anat;
    let e11 = 2 * e10;
    lemma_power_mod_square(3nat, e10, n, x10, 0x67a02df1f3877ab00e3d9d8872611a5fnat, x11);
    let x12 = 0x1cdab7c43755433b077b6b21b4d796f8nat;
    let e12 = 2 * e11;
    lemma_power_mod_square(3nat, e11, n, x11, 0x1c9b1b0d2dd75ce7bc8714ee51f4e6ccnat, x12);
    let x13 = 0x7d4f1a085b03df78c8bb6839389f4202nat;
    let e13 = 2 * e12;
    lemma_power_mod_square(3nat, e12, n, x12, 0x454c71f04b261b6dafac3b69c5bd48enat, x13);
    let x14 = 0x1525478dd984946f9c22a5c38aa3891bnat;
    let e14 = 2 * e13;
    lemma_power_mod_square(3nat, e13, n, x13, 0x51af88dcea7600571444ee7e424aca81nat, x14);
    let x15 = 0x761dea36df054f1d31b1f59bdee1ee6anat;
    let e15 = 2 * e14;
    lemma_power_mod_square(3nat, e14, n, x14, 0x2537934eb8ca619ed2f7496e700b917nat, x15);
    let x16 = 0x815ff408ff0744583aface3478dd2eccnat;
    let e16 = 2 * e15 + 1;
    lemma_power_mod_square_times(3nat, e15, n, x15, 0xd9bbeeea1bd51950bee91484892e19e0nat, x16);
    let x17 = 0x332f5a22aa1b3308f79803d9889e185bnat;
    let e17 = 2 * e16;
    lemma_power_mod_square(3nat, e16, n, x16, 0x57128ed5932eac02d796704eeff061ednat, x17);
    let x18 = 0x80b821a2345416a75c3988e212464149nat;
    let e18 = 2 * e17;
    lemma_power_mod_square(3nat, e17, n, x17, 0xda10b068c2b5117a8285cffa82b9490nat, x18);
    let x19 = 0xa130431994a84c1311b36cfd76325d8bnat;
    let e19 = 2 * e18 + 1;
    lemma_power_mod_square_times(3nat, e18, n, x18, 0x10293b369648e69cc4d9954045e9d82a8nat, x19);
    let x20 = 0x6ad09dcbdddb3fea072502d72160143fnat;
    let e20 = 2 * e19 + 1;
    lemma_power_mod_square_times(3nat, e19, n, x19, 0x1957b3eba03ad9c8cb873644ef7d5014cnat, x20);
    let x21 = 0x42c2e3f1157f745108fa15bda3e28706nat;
    let e21 = 2 * e20 + 1;
    lemma_power_mod_square_times(3nat, e20, n, x20, 0xb20f5ed57f65acc151cd607b6bf763f5nat, x21);
    let x22 = 0x4d132ef4acfbd439bec4d7dfb332fa63nat;
    let e22 = 2 * e21;
    lemma_power_mod_square(3nat, e21, n, x21, 0x172faf8165be3faad266642f91b27399nat, x22);
    let x23 = 0x993ae1886f85108f8fab06d78a230812nat;
    let e23 = 2 * e22 + 1;
    lemma_power_mod_square_times(3nat, e22, n, x22, 0x5cb5e5524365ed21328e1441465acf61nat, x23);
    let x24 = 0x9b4414dd49821d986e83a51a78daa90fnat;
    let e24 = 2 * e23 + 1;
    lemma_power_mod_square_times(3nat, e23, n, x23, 0x16e6def80802ab64ff7269a76fa232d35nat, x24);
    let x25 = 0x6e0f2a6b565c4490fb5d30055d757145nat;
    let e25 = 2 * e24;
    lemma_power_mod_square(3nat, e24, n, x24, 0x7d69164a3244fb11b2f9722a84783d3cnat, x25);
    let x26 = 0x2190b6d216efa52b3f4f0429469e42b3nat;
    let e26 = 2 * e25 + 1;
    lemma_power_mod_square_times(3nat, e25, n, x25, 0xbd0a77d74a358ab91ac46e9614b0b758nat, x26);
    let x27 = 0xb118f5ab6eb155c913e371368d61af87nat;
    let e27 = 2 * e26;
    lemma_power_mod_square(3nat, e26, n, x26, 0x5dc62237a9e0c871ecc07c2ac435852nat, x27);
    let x28 = 0x368beab938d1c7b0efe3538ce982cfe9nat;
    let e28 = 2 * e27 + 1;
    lemma_power_mod_square_times(3nat, e27, n, x27, 0x1e978c108e2e6d043938594248824a91anat, x28);
    let x29 = 0x74f866395f9883c4c59911b4d84147d9nat;
    let e29 = 2 * e28 + 1;
    lemma_power_mod_square_times(3nat, e28, n, x28, 0x2e6f231d506ebcee84a497535d95204anat, x29);
    let x30 = 0x70f3c8ad81fc63c9166d88f1c4e2bf3nat;
    let e30 = 2 * e29;
    lemma_power_mod_square(3nat, e29, n, x29, 0x472d057ef5f02d8c0a375b77a0891a4enat, x30);
    let x31 = 0x5ba07fa1447d0ddcc81787d6c751025enat;
    let e31 = 2 * e30;
    lemma_power_mod_square(3nat, e30, n, x30, 0x425eb4fb0d872afd6f67fb4c16ea93nat, x31);
    let x32 = 0xf4df870e930a6498e547bd3a6bd8366nat;
    let e32 = 2 * e31;
    lemma_power_mod_square(3nat, e31, n, x31, 0x2bacabd43b07b28977980376a7ec3a6enat, x32);
}

proof fn lemma_power_255515944373312847190720520512484175977_over_11_part_3()
    requires
        power_mod(3nat, 0x1179b06d5914eeeb0e9413b58nat, 0xc03a94b2d3e64419a05cd8ccbf987069nat) == 0xf4df870e930a6498e547bd3a6bd8366nat,
    ensures
        power_mod(3nat, 0x1179b06d5914eeeb0e9413b585c80a38nat, 0xc03a94b2d3e64419a05cd8ccbf987069nat) == 0xa2e335216d7280e06d3c5a37d6b40576nat,
{
    let n = 0xc03a94b2d3e64419a05cd8ccbf987069nat;
    let e0 = 0x1179b06d5914eeeb0e9413b58nat;
    let x0 = 0xf4df870e930a6498e547bd3a6bd8366nat;
    let x1 = 0x8ef6f4f0d0db0cbd20e72159640bcb79nat;
    let e1 = 2 * e0;
    lemma_power_mod_square(3nat, e0, n, x0, 0x137ef4ef59ebb90e5b4deae75a4f273nat, x1);
    let x2 = 0x445908a7d1d1ef3b761c47db86911baanat;
    let e2 = 2 * e1 + 1;
    lemma_power_mod_square_times(3nat, e1, n, x1, 0x13efa453702cf07c013be4020f04b1581nat, x2);
    let x3 = 0x94dbf1f34c046d3ffc1ef33fe4df7c78nat;
    let e3 = 2 * e2;
    lemma_power_mod_square(3nat, e2, n, x2, 0x184d254add8f5015b757e8092f06bf8cnat, x3);
    let x4 = 0x98fc2ff619e0e578baf1f3a1ae399c22nat;
    let e4 = 2 * e3 + 1;
    lemma_power_mod_square_times(3nat, e3, n, x3, 0x159d2af6b2d6a1568da1823bc706793eenat, x4);
    let x5 = 0x681988c811b21ede2a52fa27e1a701fcnat;
    let e5 = 2 * e4 + 1;
    lemma_power_mod_square_times(3nat, e4, n, x4, 0x16d4253f4caf9157ab1831cc109ed0d10nat, x5);
    let x6 = 0x892be9a69c6cdf65772bbeccc44e5539nat;
    let e6 = 2 * e5 + 1;
    lemma_power_mod_square_times(3nat, e5, n, x5, 0xa91f6ceb9491f86ebd70e0f4326d245fnat, x6);
    let x7 = 0xabd4802d7e66986334dfa81495bcdc9dnat;
    let e7 = 2 * e6;
    lemma_power_mod_square(3nat, e6, n, x6, 0x61e22caf311e74e5dec201efc1def6f4nat, x7);
    let x8 = 0x19975b388f73a831f17227a2a58ebb32nat;
    let e8 = 2 * e7;
    lemma_power_mod_square(3nat, e7, n, x7, 0x999892762fa019ce607b911b8272d17fnat, x8);
    let x9 = 0x161ab2a31ccfa6ec20b77b42bd50b05nat;
    let e9 = 2 * e8 + 1;
    lemma_power_mod_square_times(3nat, e8, n, x8, 0xa3886e3f874c2b3e410d60fcd259b2fnat, x9);
    let x10 = 0x660ff8614b8fe23039d5031b0042a6bnat;
    let e10 = 2 * e9;
    lemma_power_mod_square(3nat, e9, n, x9, 0x28ab0c9109703050d71f90fc2707enat, x10);
    let x11 = 0x5c4013fd811444b720c6af25712e8d12nat;
    let e11 = 2 * e10;
    lemma_power_mod_square(3nat, e10, n, x10, 0x363070a19b1e2674817355539c498fnat, x11);
    let x12 = 0xaed24af8e9c7cf0d44785667e41d02ddnat;
    let e12 = 2 * e11;
    lemma_power_mod_square(3nat, e11, n, x11, 0x2c4551510bd4eaf18048d2d09a3fd24fnat, x12);
    let x13 = 0x92e62dd902999ca08bdff220cfaba3e5nat;
    let e13 = 2 * e12;
    lemma_power_mod_square(3nat, e12, n, x12, 0x9efd8bd2d7801d33c93c5279c6b4bb44nat, x13);
    let x14 = 0x808569a2ad30a1ee3c263be975e300denat;
    let e14 = 2 * e13;
    lemma_power_mod_square(3nat, e13, n, x13, 0x70423965a5404d76e60f7aeac2eb3ac3nat, x14);
    let x15 = 0x3678a26a02959229eac2ced32efe85ccnat;
    let e15 = 2 * e14;
    lemma_power_mod_square(3nat, e14, n, x14, 0x55ed5ca1d491d7fba254f05758340df8nat, x15);
    let x16 = 0x469d2f469ff12201a68d37a3f722aacdnat;
    let e16 = 2 * e15;
    lemma_power_mod_square(3nat, e15, n, x15, 0xf6f71889b8d49c3cf1667f4dc41d94bnat, x16);
    let x17 = 0x314f11d2204b43410d8997c264b1e0bfnat;
    let e17 = 2 * e16 + 1;
    lemma_power_mod_square_times(3nat, e16, n, x16, 0x4dd19b35a33f55020c751058c3eea25cnat, x17);
    let x18 = 0x7c1f5f7c13ba34b99404ec06380a69f8nat;
    let e18 = 2 * e17;
    lemma_power_mod_square(3nat, e17, n, x17, 0xca5f5baa6c4d03a092f6839be3fcf21nat, x18);
    let x19 = 0x1469c5fc20f2b5332357f869d3d9aa5nat;
    let e19 = 2 * e18 + 1;
    lemma_power_mod_square_times(3nat, e18, n, x18, 0xf07045411df01a9edf876a2dd31cf1e3nat, x19);
    let x20 = 0x4244fb959a1490d112b37402d580cba1nat;
    let e20 = 2 * e19;
    lemma_power_mod_square(3nat, e19, n, x19, 0x22aef890fe050bc539af9e19db5f8nat, x20);
    let x21 = 0x7391abd310dbc208aa38f56f590693cbnat;
    let e21 = 2 * e20;
    lemma_power_mod_square(3nat, e20, n, x20, 0x16d88d4e1f0f9058730863cf4412bd06nat, x21);
    let x22 = 0xb90c59fb67c22c45ef134de85049d6cenat;
    let e22 = 2 * e21;
    lemma_power_mod_square(3nat, e21, n, x21, 0x457b115d79b217aa510f73ee95d16573nat, x22);
    let x23 = 0x12177cc90e80b906c760d23d5f73facanat;
    let e23 = 2 * e22 + 1;
    lemma_power_mod_square_times(3nat, e22, n, x22, 0x216685d2eaad5a4763051550207802a32nat, x23);
    let x24 = 0x482806304273fc460a5255b3b741790cnat;
    let e24 = 2 * e23 + 1;
    lemma_power_mod_square_times(3nat, e23, n, x23, 0x51bafd33000e07dda1184540d647020nat, x24);
    let x25 = 0x4582924e2cb0241220f88ca4628c6307nat;
    let e25 = 2 * e24 + 1;
    lemma_power_mod_square_times(3nat, e24, n, x24, 0x51415c47b75fb82a86599a8fc1d7bc41nat, x25);
    let x26 = 0x7e2308640cc362d1c72d64c9b375ff7cnat;
    let e26 = 2 * e25;
    lemma_power_mod_square(3nat, e25, n, x25, 0x192286b95b3560f91afcc1c01c825e6dnat, x26);
    let x27 = 0x331c33fab85272bba0adf052eeefa43bnat;
    let e27 = 2 * e26;
    lemma_power_mod_square(3nat, e26, n, x26, 0x52c4c088cb70c12160a563b5067e468dnat, x27);
    let x28 = 0xa2e335216d7280e06d3c5a37d6b40576nat;
    let e28 = 2 * e27;
    lemma_power_mod_square(3nat, e27, n, x27, 0xd96da542f35ba303fbf6072eb78faabnat, x28);
}

proof fn lemma_power_255515944373312847190720520512484175977_over_11()
    ensures
        power_mod(3nat, 0x1179b06d5914eeeb0e9413b585c80a38nat, 0xc03a94b2d3e64419a05cd8ccbf987069nat) == 0xa2e335216d7280e06d3c5a37d6b40576nat,
{
    lemma_power_mod_first(3nat, 0xc03a94b2d3e64419a05cd8ccbf987069nat);
    lemma_power_255515944373312847190720520512484175977_over_11_part_0();
    lemma_power_255515944373312847190720520512484175977_over_11_part_1();
    lemma_power_255515944373312847190720520512484175977_over_11_part_2();
    lemma_power_255515944373312847190720520512484175977_over_11_part_3();
}

proof fn lemma_power_255515944373312847190720520512484175977_over_1627_part_0()
    requires
        power_mod(3nat, 1nat, 0xc03a94b2d3e64419a05cd8ccbf987069nat) == 3nat,
    ensures
        power_mod(3nat, 0x1e3f07814nat, 0xc03a94b2d3e64419a05cd8ccbf987069nat) == 0x21abb3919fd80067c6fc586a52056fb6nat,
{
    let n = 0xc03a94b2d3e64419a05cd8ccbf987069nat;
    let e0 = 1nat;
    let x0 = 3nat;
    let x1 = 27nat;
    let e1 = 2 * e0 + 1;
    lemma_power_mod_square_times(3nat, e0, n, x0, 0nat, x1);
    let x2 = 2187nat;
    let e2 = 2 * e1 + 1;
    lemma_power_mod_square_times(3nat, e1, n, x1, 0nat, x2);
    let x3 = 0xdaf26bnat;
    let e3 = 2 * e2 + 1;
    lemma_power_mod_square_times(3nat, e2, n, x2, 0nat, x3);
    let x4 = 0xbb41c3ca78b9nat;
    let e4 = 2 * e3;
    lemma_power_mod_square(3nat, e3, n, x3, 0nat, x4);
    let x5 = 0x88f924eeceeda7fe92e1f5b1nat;
    let e5 = 2 * e4;
    lemma_power_mod_square(3nat, e4, n, x4, 0nat, x5);
    let x6 = 0x962ae37b29a7ff5b69b2926828aa0ee6nat;
    let e6 = 2 * e5;
    lemma_power_mod_square(3nat, e5, n, x5, 0x6199c593adcf3a43nat, x6);
    let x7 = 0x72c55fa8cde6fd37f0bb30ddc58c64d7nat;
    let e7 = 2 * e6 + 1;
    lemma_power_mod_square_times(3nat, e6, n, x6, 0x15fedc6abf789e0c870c947f1d03843cdnat, x7);
    let x8 = 0x2b99cb268a6c5c57a04a23f041eb3e60nat;
    let e8 = 2 * e7 + 1;
    lemma_power_mod_square_times(3nat, e7, n, x7, 0xcd92cc97100fdb2252525717c2b6025bnat, x8);
    let x9 = 0x3cf713323689596b19a6f67e43ef1e58nat;
    let e9 = 2 * e8 + 1;
    lemma_power_mod_square_times(3nat, e8, n, x8, 0x1dab0d3ccde5cbb4c75bcf38959dab68nat, x9);
    let x10 = 0x2a748f82880e939e04b5625182236e86nat;
    let e10 = 2 * e9 + 1;
    lemma_power_mod_square_times(3nat, e9, n, x9, 0x3a014b309b121cc7d9b6fe166ac6232anat, x10);
    let x11 = 0x8c7bca104c89ce1d503e9eb0be209a5anat;
    let e11 = 2 * e10 + 1;
    lemma_power_mod_square_times(3nat, e10, n, x10, 0x1c213b7c599c5cbbc99f0af30e886d42nat, x11);
    let x12 = 0xe907b1be0249ae9eb318350f98e84e7nat;
    let e12 = 2 * e11 + 1;
    lemma_power_mod_square_times(3nat, e11, n, x11, 0x134008a18254d71389cf53630e273813dnat, x12);
    let x13 = 0x45cbf21ab9da9fe1ac9e032d40e5346bnat;
    let e13 = 2 * e12;
    lemma_power_mod_square(3nat, e12, n, x12, 0x11a7dd194b26630a2b29e7361fd7316nat, x13);
    let x14 = 0xa7bca4c4f904f51635d9e27aaa31fffenat;
    let e14 = 2 * e13;
    lemma_power_mod_square(3nat, e13, n, x13, 0x1957b331ae4dad40ef21b60e0e614783nat, x14);
    let x15 = 0x25f3dfac426321c50a6edb23c8479b86nat;
    let e15 = 2 * e14;
    lemma_power_mod_square(3nat, e14, n, x14, 0x925d8fb0b14041c95e121048055870cenat, x15);
    let x16 = 0xbf95735e8fdceecd4f558a614c842390nat;
    let e16 = 2 * e15;
    lemma_power_mod_square(3nat, e15, n, x15, 0x77e400746a79f4429f63c087745df74nat, x16);
    let x17 = 0x853bce1ffd3e993ac30fc50d2ae543a8nat;
    let e17 = 2 * e16;
    lemma_power_mod_square(3nat, e16, n, x16, 0xbef0dfe452b8b75f59662d2aac8d5798nat, x17);
    let x18 = 0xa6dc6d1cde1ff8532d52822039c7afcanat;
    let e18 = 2 * e17 + 1;
    lemma_power_mod_square_times(3nat, e17, n, x17, 0x115084235dd59ff3237db9e7f8e027486nat, x18);
    let x19 = 0x92a185ccf9d22569adcbb06ba47e626anat;
    let e19 = 2 * e18 + 1;
    lemma_power_mod_square_times(3nat, e18, n, x18, 0x1b285d99458959fb2364329f6423f4972nat, x19);
    let x20 = 0x8d92e2bbc5a8c8c92569f87a25cb3ca5nat;
    let e20 = 2 * e19 + 1;
    lemma_power_mod_square_times(3nat, e19, n, x19, 0x14f8c293c7481b830fdb4e7eb3a33c5efnat, x20);
    let x21 = 0x43b17f69c5642cbfb199ab9d532abf18nat;
    let e21 = 2 * e20 + 1;
    lemma_power_mod_square_times(3nat, e20, n, x20, 0x138cd17f2fa5829da6c25c14c7e45a9fbnat, x21);
    let x22 = 0x91a9cc7de16afb4a75dd0ae9aa8fb397nat;
    let e22 = 2 * e21;
    lemma_power_mod_square(3nat, e21, n, x21, 0x17d69465f6e5833b0cc38ae22aa97441nat, x22);
    let x23 = 0x11c22c5a8dbe1610f5e69b54fea05395nat;
    let e23 = 2 * e22;
    lemma_power_mod_square(3nat, e22, n, x22, 0x6e60b5aabe1e1cd8f76e176dae96441cnat, x23);
    let x24 = 0x392555b97044f8f2e1e18eec36455d52nat;
    let e24 = 2 * e23;
    lemma_power_mod_square(3nat, e23, n, x23, 0x1a3fc159fa7a7e6ac373990fb0dcf4fnat, x24);
    let x25 = 0x603edc46f29b0e54b02f2c904df51e5bnat;
    let e25 = 2 * e24;
    lemma_power_mod_square(3nat, e24, n, x24, 0x10fd033ccb90a9ebb59915d30dde3381nat, x25);
    let x26 = 0x62f12b82d8686033f1af68de79fedb80nat;
    let e26 = 2 * e25;
    lemma_power_mod_square(3nat, e25, n, x25, 0x30303cf70c48f63d51cac08c20f7d6f1nat, x26);
    let x27 = 0x9d591086d0239adfb6ecffa3aebe1162nat;
    let e27 = 2 * e26;
    lemma_power_mod_square(3nat, e26, n, x26, 0x32ed2c433769794af50ab0339bbaa5eenat, x27);
    let x28 = 0x7e1bdb2ff72886c7b346100e21731a9cnat;
    let e28 = 2 * e27 + 1;
    lemma_power_mod_square_times(3nat, e27, n, x27, 0x182639109a19d3b8adbfae78f5e161470nat, x28);
    let x29 = 0xb06462f4e3643d3470cfa8b8b689d2f2nat;
    let e29 = 2 * e28;
    lemma_power_mod_square(3nat, e28, n, x28, 0x52bb55ba38cae66dfb4dab1a6774976enat, x29);
    let x30 = 0x8b49b8d97672fe3b1bd10cec559f6c5enat;
    let e30 = 2 * e29 + 1;
    lemma_power_mod_square_times(3nat, e29, n, x29, 0x1e5949619e9145b9d2f1f066d656a0cbenat, x30);
    let x31 = 0x78b421c58f105ad82b9730789795016nat;
    let e31 = 2 * e30;
    lemma_power_mod_square(3nat, e30, n, x30, 0x64ed64be084cb04038d4bc1d558a813enat, x31);
    let x32 = 0x21abb3919fd80067c6fc586a52056fb6nat;
    let e32 = 2 * e31;
    lemma_power_mod_square(3nat, e31, n, x31, 0x4bcab347f65ba2fd79e64738953afenat, x32);
}

proof fn lemma_power_255515944373312847190720520512484175977_over_1627_part_1()
    requires
        power_mod(3nat, 0x1e3f07814nat, 0xc03a94b2d3e64419a05cd8ccbf987069nat) == 0x21abb3919fd80067c6fc586a52056fb6nat,
    ensures
        power_mod(3nat, 0x1e3f07814f717cca4nat, 0xc03a94b2d3e64419a05cd8ccbf987069nat) == 0x5e3cc0626f7fc8d671695a05570cec56nat,
{
    let n = 0xc03a94b2d3e64419a05cd8ccbf987069nat;
    let e0 = 0x1e3f07814nat;
    let x0 = 0x21abb3919fd80067c6fc586a52056fb6nat;
    let x1 = 0x4aa4b6628ce5f67d17cd6c268ba5371enat;
    let e1 = 2 * e0 + 1;
    lemma_power_mod_square_times(3nat, e0, n, x0, 0x11b177d8e638b33cddbaf9445c371edenat, x1);
    let x2 = 0x9137d8e33d2aa2ea686ede951d7d28b4nat;
    let e2 = 2 * e1 + 1;
    lemma_power_mod_square_times(3nat, e1, n, x1, 0x56f405f3191a0cb85190882b18e56418nat, x2);
    let x3 = 0x84ef1cf205148f2a86f1773f41b86253nat;
    let e3 = 2 * e2 + 1;
    lemma_power_mod_square_times(3nat, e2, n, x2, 0x1491cd53d7b2aa8c390d06e9f014782d5nat, x3);
    let x4 = 0xeca3f828b1d928e55c39a2e0a9a1483nat;
    let e4 = 2 * e3 + 1;
    lemma_power_mod_square_times(3nat, e3, n, x3, 0x113c9af93dcf0dde92d3b35772a24d778nat, x4);
    let x5 = 0x22abbd6689cc3fe716e8fd975a669640nat;
    let e5 = 2 * e4;
    lemma_power_mod_square(3nat, e4, n, x4, 0x1235016f2a6f8d6aad536b802098561nat, x5);
    let x6 = 0x9c90e35f62c916d08f733f2b453b45a5nat;
    let e6 = 2 * e5 + 1;
    lemma_power_mod_square_times(3nat, e5, n, x5, 0x12c28cca9c0ed1226b4e2f4840d4ac23nat, x6);
    let x7 = 0xfee74545f5cbbf189f863f12c0c8221nat;
    let e7 = 2 * e6 + 1;
    lemma_power_mod_square_times(3nat, e6, n, x6, 0x17e8ee3ac1b1a499894921d064892de5anat, x7);
    let x8 = 0x5c136c016e47d7b26ff2ff6111d0944anat;
    let e8 = 2 * e7 + 1;
    lemma_power_mod_square_times(3nat, e7, n, x7, 0x3f6099556b304b30a0446fab1227191nat, x8);
    let x9 = 0x52a3e355e57aaa8fee05ad8c062d5086nat;
    let e9 = 2 * e8;
    lemma_power_mod_square(3nat, e8, n, x8, 0x2c1a7f4f062579b9ef262c0803aed22enat, x9);
    let x10 = 0x152d3a8c422ac0a9bcd28da3c80bd0enat;
    let e10 = 2 * e9;
    lemma_power_mod_square(3nat, e9, n, x9, 0x2387071a6e83aa0ebebae24c64369da6nat, x10);
    let x11 = 0x597e665beff31d1f2a617822737123b1nat;
    let e11 = 2 * e10;
    lemma_power_mod_square(3nat, e10, n, x10, 0x255393e5edb4049e056ee12fd7e1bnat, x11);
    let x12 = 0x8f042b27cbc7c8141cb3b622e2382771nat;
    let e12 = 2 * e11 + 1;
    lemma_power_mod_square_times(3nat, e11, n, x11, 0x7cfe635786ef661d0674b8d1a03eb5e2nat, x12);
    let x13 = 0x315b8978970e9e1013f2f400b74b1adbnat;
    let e13 = 2 * e12;
    lemma_power_mod_square(3nat, e12, n, x12, 0x6a671429cc690e73c301ceb03bcc7c16nat, x13);
    let x14 = 0x93296fa30299dda904505bddbdebd01dnat;
    let e14 = 2 * e13 + 1;
    lemma_power_mod_square_times(3nat, e13, n, x13, 0x260513c770b1284845068fafa93a28benat, x14);
    let x15 = 0x69f44d32215d61f295d27cbc2069763anat;
    let e15 = 2 * e14 + 1;
    lemma_power_mod_square_times(3nat, e14, n, x14, 0x151fb54a53109b7c08a3214c12b700279nat, x15);
    let x16 = 0x533d6d9ff676d72abfa67ad81fb22c83nat;
    let e16 = 2 * e15 + 1;
    lemma_power_mod_square_times(3nat, e15, n, x15, 0xaf33cd2db626125a39993033d1e00e81nat, x16);
    let x17 = 0x4c00926690468016a9025873ba40d983nat;
    let e17 = 2 * e16 + 1;
    lemma_power_mod_square_times(3nat, e16, n, x16, 0x6c22911c143e8988f3a8b866cc54d7d8nat, x17);
    let x18 = 0x2a2d5cad5da0c6ee8da17ecbbdb6307nat;
    let e18 = 2 * e17 + 1;
    lemma_power_mod_square_times(3nat, e17, n, x17, 0x5a25da746e10ca402190994bc31ae4f4nat, x18);
    let x19 = 0x26fa80a3c2dee95dbb984cc6e149feacnat;
    let e19 = 2 * e18;
    lemma_power_mod_square(3nat, e18, n, x18, 0x94110710eef7a0911ca50952a3ebdnat, x19);
    let x20 = 0x8ef0bb3b9a0360ce1874fad54448ef6cnat;
    let e20 = 2 * e19;
    lemma_power_mod_square(3nat, e19, n, x19, 0x7e75b12f2a6896c98f8a25e91fc2e84nat, x20);
    let x21 = 0x626cb4a6e27f1b19d62a7f71c1189910nat;
    let e21 = 2 * e20 + 1;
    lemma_power_mod_square_times(3nat, e20, n, x20, 0x13ede7e2c41622b0f4dcb2b89e11fb6a0nat, x21);
    let x22 = 0xa815d49554fc9c39318933e5788a1fd5nat;
    let e22 = 2 * e21 + 1;
    lemma_power_mod_square_times(3nat, e21, n, x21, 0x972f811d0249d722bae48870ecd12473nat, x22);
    let x23 = 0xbd87a8cf312fb92f39ad7ccd27c8cc4enat;
    let e23 = 2 * e22;
    lemma_power_mod_square(3nat, e22, n, x22, 0x92f95eadb495aec851e8a29b9b5ea633nat, x23);
    let x24 = 0x4db3f8246da76595c33c60e8058ad479nat;
    let e24 = 2 * e23;
    lemma_power_mod_square(3nat, e23, n, x23, 0xbade70467300e2ff804f7cc839cfef93nat, x24);
    let x25 = 0x4c51501f67c3dd23b67595f3d50005ffnat;
    let e25 = 2 * e24 + 1;
    lemma_power_mod_square_times(3nat, e24, n, x24, 0x5e3a47413fbc949269af997b491dbe74nat, x25);
    let x26 = 0x73174ae662a918c7be5904c87b08dc2bnat;
    let e26 = 2 * e25;
    lemma_power_mod_square(3nat, e25, n, x25, 0x1e4c989891ea77a75841086fc7621e66nat, x26);
    let x27 = 0xe6afdc833f38b3d82f3b1d3163731a4nat;
    let e27 = 2 * e26 + 1;
    lemma_power_mod_square_times(3nat, e26, n, x26, 0xceb8ab18e262e365a02dfd2896731aefnat, x27);
    let x28 = 0x63464428ef3c1f4ffa4bf1918a39b33dnat;
    let e28 = 2 * e27;
    lemma_power_mod_square(3nat, e27, n, x27, 0x114d6d4c1b21a6ea510f34c647934dbnat, x28);
    let x29 = 0x4c7542e8a520afd4c9c6161b402d6cc4nat;
    let e29 = 2 * e28;
    lemma_power_mod_square(3nat, e28, n, x28, 0x3344eb7aa9b573708741497832ba18fdnat, x29);
    let x30 = 0x15d7792bfe69ac867cce71daa5a28bd8nat;
    let e30 = 2 * e29 + 1;
    lemma_power_mod_square_times(3nat, e29, n, x29, 0x5b3b7fcaaa7e2ddef13385c19bfcd898nat, x30);
    let x31 = 0x1ae419c1f4195d053b4d2e15ec51018nat;
    let e31 = 2 * e30;
    lemma_power_mod_square(3nat, e30, n, x30, 0x27b527b022df04d960c005bd5c3bfe8nat, x31);
    let x32 = 0x5e3cc0626f7fc8d671695a05570cec56nat;
    let e32 = 2 * e31;
    lemma_power_mod_square(3nat, e31, n, x31, 0x3c30578e5d8ae946487fe8d27e95anat, x32);
}

proof fn lemma_power_255515944373312847190720520512484175977_over_1627_part_2()
    requires
        power_mod(3nat, 0x1e3f07814f717cca4nat, 0xc03a94b2d3e64419a05cd8ccbf987069nat) == 0x5e3cc0626f7fc8d671695a05570cec56nat,
    ensures
        power_mod(3nat, 0x1e3f07814f717cca4961370a0nat, 0xc03a94b2d3e64419a05cd8ccbf987069nat) == 0x9eba3e6eb2a6339e86131a75b7b8589dnat,
{
    let n = 0xc03a94b2d3e64419a05cd8ccbf987069nat;
    let e0 = 0x1e3f07814f717cca4nat;
    let x0 = 0x5e3cc0626f7fc8d671695a05570cec56nat;
    let x1 = 0x79ab5bd17097d5e11ff36378c7525315nat;
    let e1 = 2 * e0 + 1;
    lemma_power_mod_square_times(3nat, e0, n, x0, 0x8a98656c454631214e279125172c83ffnat, x1);
    let x2 = 0xb85fcdc945d65cbdaa490fd62c2220a9nat;
    let e2 = 2 * e1;
    lemma_power_mod_square(3nat, e1, n, x1, 0x4d026af5cd9eed153929b23e0b96a490nat, x2);
    let x3 = 0x5311e0f2eada5c5345e21d0c5995ff56nat;
    let e3 = 2 * e2;
    lemma_power_mod_square(3nat, e2, n, x2, 0xb0d73043c7e9fa2dfba39ad3b5288703nat, x3);
    let x4 = 0x5004db8a9c5bce5c93db5e8a01d3105enat;
    let e4 = 2 * e3 + 1;
    lemma_power_mod_square_times(3nat, e3, n, x3, 0x6bb188c0dc678aff2f4ded6068fda61enat, x4);
    let x5 = 0x78079292aac9377b69e9d25b93d71f80nat;
    let e5 = 2 * e4;
    lemma_power_mod_square(3nat, e4, n, x4, 0x214f38034b66084a2a4e292ca75aca64nat, x5);
    let x6 = 0x62a7e624f335fe3d5756e848afb3f9a8nat;
    let e6 = 2 * e5 + 1;
    lemma_power_mod_square_times(3nat, e5, n, x5, 0xe0d7cc8dd2267c94855b40a0c4d8c898nat, x6);
    let x7 = 0x383840cf66ffc355c4ef149583d7f303nat;
    let e7 = 2 * e6 + 1;
    lemma_power_mod_square_times(3nat, e6, n, x6, 0x97e590f73bb4254b8e23f19d16553235nat, x7);
    let x8 = 0x848f8bc41289553c6614c034a5a29b87nat;
    let e8 = 2 * e7;
    lemma_power_mod_square(3nat, e7, n, x7, 0x107132068752aec41736dbf9b60ad232nat, x8);
    let x9 = 0x56bceaaf7232ad18cb5460f3e329eanat;
    let e9 = 2 * e8;
    lemma_power_mod_square(3nat, e8, n, x8, 0x5b69e7602f7c1d583d6c7d8c8612d42fnat, x9);
    let x10 = 0xad50b4ae02112c674d36d94f05a79755nat;
    let e10 = 2 * e9;
    lemma_power_mod_square(3nat, e9, n, x9, 0x27235b2150766143bc82c8472c37nat, x10);
    let x11 = 0x3ea8fb32eaad33766f00ca46fb5f8cdcnat;
    let e11 = 2 * e10;
    lemma_power_mod_square(3nat, e10, n, x10, 0x9c433a31dd62ffe06940e67d0aea1ed5nat, x11);
    let x12 = 0x65142c3a9af32eeb1708e85fe0204147nat;
    let e12 = 2 * e11 + 1;
    lemma_power_mod_square_times(3nat, e11, n, x11, 0x3d4672cb3e764c58bddd65dcc7cb8981nat, x12);
    let x13 = 0x8b55ad2af72029a117bfc48e393f1eeanat;
    let e13 = 2 * e12;
    lemma_power_mod_square(3nat, e12, n, x12, 0x3526593ce4069fda0d99e8afdba273afnat, x13);
    let x14 = 0x32eff83e0873dd604f2c6ba819b4280dnat;
    let e14 = 2 * e13;
    lemma_power_mod_square(3nat, e13, n, x13, 0x64feb8775785ad8baa4c2d312eb57c3fnat, x14);
    let x15 = 0x28f4ebe1a0e344f7ec77addbe0836d11nat;
    let e15 = 2 * e14 + 1;
    lemma_power_mod_square_times(3nat, e14, n, x14, 0x287e1cdc6f9e46ddc4be44a0c617405anat, x15);
    let x16 = 0x58907d144eaf08d23e72993a41914364nat;
    let e16 = 2 * e15 + 1;
    lemma_power_mod_square_times(3nat, e15, n, x15, 0x1a2dd35b23bd81065d635601695bde27nat, x16);
    let x17 = 0x7dc89c45d962f25d958f84ca49359316nat;
    let e17 = 2 * e16;
    lemma_power_mod_square(3nat, e16, n, x16, 0x28cdc1a21e0da53da6cfe3f1f90a4ceanat, x17);
    let x18 = 0xbc47023b46347c8f395c14794d586c5dnat;
    let e18 = 2 * e17 + 1;
    lemma_power_mod_square_times(3nat, e17, n, x17, 0xf6eac11dc5f8c0c7548bf426124070f7nat, x18);
    let x19 = 0x21a8994bb68c2ad6b27ad6dc6e6bfa92nat;
    let e19 = 2 * e18 + 1;
    lemma_power_mod_square_times(3nat, e18, n, x18, 0x22938b0fb6c8e4127f4379e793a0c0361nat, x19);
    let x20 = 0x37d82eced5ac30e3b3d82f93ac58fa65nat;
    let e20 = 2 * e19 + 1;
    lemma_power_mod_square_times(3nat, e19, n, x19, 0x11ae354024d15b324c0bd89deda5af4fnat, x20);
    let x21 = 0x7ea237bbc1a61b1b6c7537174d4b26e4nat;
    let e21 = 2 * e20;
    lemma_power_mod_square(3nat, e20, n, x20, 0x10393063624b428f8c6cf006c32e1eadnat, x21);
    let x22 = 0x1a3ba1001d4a0bec56428a9235a9b552nat;
    let e22 = 2 * e21;
    lemma_power_mod_square(3nat, e21, n, x21, 0x536bfe4ec72b0871e9d4625caf67a00enat, x22);
    let x23 = 0xb7f16be1ad11971118fc0188ef1d5518nat;
    let e23 = 2 * e22;
    lemma_power_mod_square(3nat, e22, n, x22, 0x394768099e4a6ec82d88f2c70b44a4cnat, x23);
    let x24 = 0x15152a4c7036a48dfb880fb536e25467nat;
    let e24 = 2 * e23;
    lemma_power_mod_square(3nat, e23, n, x23, 0xb003b11cf8c7bdd440e05c38be7513f1nat, x24);
    let x25 = 0x629a12c94a2d815bc377b108b07546nat;
    let e25 = 2 * e24 + 1;
    lemma_power_mod_square_times(3nat, e24, n, x24, 0x6efccf22553bb9589fd10b20a4c1505nat, x25);
    let x26 = 0x4f060edca0dee585460f0657bdb609f8nat;
    let e26 = 2 * e25;
    lemma_power_mod_square(3nat, e25, n, x25, 0x3293ab09b0f993bace701b7fb64cnat, x26);
    let x27 = 0x8d265814d822f5e77ffa62c3edf4b29dnat;
    let e27 = 2 * e26 + 1;
    lemma_power_mod_square_times(3nat, e26, n, x26, 0x6175390a729c01e10f138bca5ee498abnat, x27);
    let x28 = 0x4d1d639aa230e65f475fcc7c25786799nat;
    let e28 = 2 * e27;
    lemma_power_mod_square(3nat, e27, n, x27, 0x67a4b9aa0b317165d87d4d94f1085130nat, x28);
    let x29 = 0x1c926eb8a776f7e1854003c89f46a877nat;
    let e29 = 2 * e28;
    lemma_power_mod_square(3nat, e28, n, x28, 0x1eef7c1615fd2de338bc3291430469eanat, x29);
    let x30 = 0x9ac95541fcbf21d623dafb66ae9c9e6anat;
    let e30 = 2 * e29;
    lemma_power_mod_square(3nat, e29, n, x29, 0x43f2eee536c0c0b49881aa178ed44cfnat, x30);
    let x31 = 0x37dafd973b3021047b67d6674a7024f5nat;
    let e31 = 2 * e30;
    lemma_power_mod_square(3nat, e30, n, x30, 0x7ca31a16d1b3226bbc71b7d53185e997nat, x31);
    let x32 = 0x9eba3e6eb2a6339e86131a75b7b8589dnat;
    let e32 = 2 * e31;
    lemma_power_mod_square(3nat, e31, n, x31, 0x103ad20e9181a36c0e13e5ae58edef7cnat, x32);
}

proof fn lemma_power_255515944373312847190720520512484175977_over_1627_part_3()
    requires
        power_mod(3nat, 0x1e3f07814f717cca4961370a0nat, 0xc03a94b2d3e64419a05cd8ccbf987069nat) == 0x9eba3e6eb2a6339e86131a75b7b8589dnat,
    ensures
        power_mod(3nat, 0x1e3f07814f717cca4961370a07cdb8nat, 0xc03a94b2d3e64419a05cd8ccbf987069nat) == 0x3685e7863bd1499e9f23e5e0d8115291nat,
{
    let n = 0xc03a94b2d3e64419a05cd8ccbf987069nat;
    let e0 = 0x1e3f07814f717cca4961370a0nat;
    let x0 = 0x9eba3e6eb2a6339e86131a75b7b8589dnat;
    let x1 = 0x9532c74e30015018b67af37c8f978accnat;
    let e1 = 2 * e0;
    lemma_power_mod_square(3nat, e0, n, x0, 0x83109391233207872b0702a230d189f5nat, x1);
    let x2 = 0x88c543646311637ea35f2e9893a8a521nat;
    let e2 = 2 * e1 + 1;
    lemma_power_mod_square_times(3nat, e1, n, x1, 0x15b66999783ab5f12c7a5b222632c0c37nat, x2);
    let x3 = 0x72beb301d58c42015e717e91af69dd38nat;
    let e3 = 2 * e2 + 1;
    lemma_power_mod_square_times(3nat, e2, n, x2, 0x123efabee8bb245d555dcad1c29660fd3nat, x3);
    let x4 = 0xb0b337dcd50158d40f1bccec027d890dnat;
    let e4 = 2 * e3 + 1;
    lemma_power_mod_square_times(3nat, e3, n, x3, 0xcd7ae456ec06645cbe163fe4c1f737bbnat, x4);
    let x5 = 0x6cda52703cb4e24e1da13e03528ae32enat;
    let e5 = 2 * e4 + 1;
    lemma_power_mod_square_times(3nat, e4, n, x4, 0x1e746fcf24524e49d00f4b9b4bee2fcc5nat, x5);
    let x6 = 0x195fc859caddb78035312f6543b7e752nat;
    let e6 = 2 * e5 + 1;
    lemma_power_mod_square_times(3nat, e5, n, x5, 0xb8eb535a04a94c7f7e144289faca126anat, x6);
    let x7 = 0x3018c1ca3a603ae9f318c16e7f8f1aa2nat;
    let e7 = 2 * e6;
    lemma_power_mod_square(3nat, e6, n, x6, 0x3597102ed78a66ba5fb2882226eea52nat, x7);
    let x8 = 0xb3e66f44cc46894c9218f8c8b1042c42nat;
    let e8 = 2 * e7;
    lemma_power_mod_square(3nat, e7, n, x7, 0xc08b8221b123f79a51c54eda71007f2nat, x8);
    let x9 = 0x6483f35bb41a071c64edd5243cf3607fnat;
    let e9 = 2 * e8 + 1;
    lemma_power_mod_square_times(3nat, e8, n, x8, 0x1f91620e7e7e5ab4082f1c13091bb1c85nat, x9);
    let x10 = 0x208dfe78730b2b236b046c5697d4dfb0nat;
    let e10 = 2 * e9 + 1;
    lemma_power_mod_square_times(3nat, e9, n, x9, 0x9dad4cbd79d9f488371dc103e235685bnat, x10);
    let x11 = 0x32b1e132f8e31c5ca83523118ba4d639nat;
    let e11 = 2 * e10;
    lemma_power_mod_square(3nat, e10, n, x10, 0x583648a6ea4a98591a272225759b3afnat, x11);
    let x12 = 0x544b5818e2e1150ca3d6112e0907e6benat;
    let e12 = 2 * e11 + 1;
    lemma_power_mod_square_times(3nat, e11, n, x11, 0x281ba18641a136841adbe2c5ac6b3e0dnat, x12);
    let x13 = 0x12a4dc378b36e6f08f0dd28e726f7b3bnat;
    let e13 = 2 * e12 + 1;
    lemma_power_mod_square_times(3nat, e12, n, x12, 0x6ee44a7132e0e1acdfc962b31b90eb29nat, x13);
    let x14 = 0x800faa7da6188bd9207260d44f91ef70nat;
    let e14 = 2 * e13;
    lemma_power_mod_square(3nat, e13, n, x13, 0x1cee99bdb42f68f93b71390199269c1nat, x14);
    let x15 = 0x2f671b97d3c7fbf8be185e07148695e2nat;
    let e15 = 2 * e14 + 1;
    lemma_power_mod_square_times(3nat, e14, n, x14, 0xfff096e6dde19dec7430ad05ceed906enat, x15);
    let x16 = 0x2ba3f5f26a215c91d5b7ccb041b70155nat;
    let e16 = 2 * e15 + 1;
    lemma_power_mod_square_times(3nat, e15, n, x15, 0x2311638fb753f20f5b6c9266b5bfc09fnat, x16);
    let x17 = 0x258b4fb1b5ae307dba34bb933a71a919nat;
    let e17 = 2 * e16 + 1;
    lemma_power_mod_square_times(3nat, e16, n, x16, 0x1db8e5002dc690a063d8dd42b6cd6ac2nat, x17);
    let x18 = 0xabe9dba6689774f74309322aad8e6b21nat;
    let e18 = 2 * e17;
    lemma_power_mod_square(3nat, e17, n, x17, 0x7552f0d4e63c6f87f3723654cbfa4d0nat, x18);
    let x19 = 0x1e5b341d05eacc3cc9d56af5407edbe9nat;
    let e19 = 2 * e18;
    lemma_power_mod_square(3nat, e18, n, x18, 0x99bec3653c685bb6b07d1eec0b170098nat, x19);
    let x20 = 0x3685e7863bd1499e9f23e5e0d8115291nat;
    let e20 = 2 * e19;
    lemma_power_mod_square(3nat, e19, n, x19, 0x4cb352d5b21dd39fde122c0c524fb80nat, x20);
}

proof fn lemma_power_255515944373312847190720520512484175977_over_1627()
    ensures
        power_mod(3nat, 0x1e3f07814f717cca4961370a07cdb8nat, 0xc03a94b2d3e64419a05cd8ccbf987069nat) == 0x3685e7863bd1499e9f23e5e0d8115291nat,
{
    lemma_power_mod_first(3nat, 0xc03a94b2d3e64419a05cd8ccbf987069nat);
    lemma_power_255515944373312847190720520512484175977_over_1627_part_0();
    lemma_power_255515944373312847190720520512484175977_over_1627_part_1();
    lemma_power_255515944373312847190720520512484175977_over_1627_part_2();
    lemma_power_255515944373312847190720520512484175977_over_1627_part_3();
}

proof fn lemma_power_255515944373312847190720520512484175977_over_2657_part_0()
    requires
        power_mod(3nat, 1nat, 0xc03a94b2d3e64419a05cd8ccbf987069nat) == 3nat,
    ensures
        power_mod(3nat, 0x12856741enat, 0xc03a94b2d3e64419a05cd8ccbf987069nat) == 0xbd6842c86e157d5fa0f3c5ab827cb364nat,
{
    let n = 0xc03a94b2d3e64419a05cd8ccbf987069nat;
    let e0 = 1nat;
    let x0 = 3nat;
    let x1 = 9nat;
    let e1 = 2 * e0;
    lemma_power_mod_square(3nat, e0, n, x0, 0nat, x1);
    let x2 = 81nat;
    let e2 = 2 * e1;
    lemma_power_mod_square(3nat, e1, n, x1, 0nat, x2);
    let x3 = 19683nat;
    let e3 = 2 * e2 + 1;
    lemma_power_mod_square_times(3nat, e2, n, x2, 0nat, x3);
    let x4 = 0x17179149nat;
    let e4 = 2 * e3;
    lemma_power_mod_square(3nat, e3, n, x3, 0nat, x4);
    let x5 = 0x63fbad3a2b55473nat;
    let e5 = 2 * e4 + 1;
    lemma_power_mod_square_times(3nat, e4, n, x4, 0nat, x5);
    let x6 = 0x270c9f6822cc9a11a450e41279aba9nat;
    let e6 = 2 * e5;
    lemma_power_mod_square(3nat, e5, n, x5, 0nat, x6);
    let x7 = 0x8ba5a5b68a75d4de38090461cdd9f63anat;
    let e7 = 2 * e6;
    lemma_power_mod_square(3nat, e6, n, x6, 0x7eeb6005fb3b917cfd2094039bfnat, x7);
    let x8 = 0x35845ebdcbf96e0775b8f384756953d7nat;
    let e8 = 2 * e7;
    lemma_power_mod_square(3nat, e7, n, x7, 0x6572c846374809e2a9d44cea3c0c1d45nat, x8);
    let x9 = 0x7482d992117bb470936a6f7ab53c64b5nat;
    let e9 = 2 * e8;
    lemma_power_mod_square(3nat, e8, n, x8, 0xee639254c77b57f18c2b21f43952f7cnat, x9);
    let x10 = 0x42a9287f532486967fc2438eda7efb9fnat;
    let e10 = 2 * e9 + 1;
    lemma_power_mod_square_times(3nat, e9, n, x9, 0xd3dabcbbfd8c59347efff876ef8ed06cnat, x10);
    let x11 = 0x343211d23270962532c8d61d8cc30a16nat;
    let e11 = 2 * e10;
    lemma_power_mod_square(3nat, e10, n, x10, 0x171dd34bd83b5a2f82708858745617f3nat, x11);
    let x12 = 0xb83b98e8bfab85f483f6f604ea24a7e2nat;
    let e12 = 2 * e11 + 1;
    lemma_power_mod_square_times(3nat, e11, n, x11, 0x2a848b29a0609833d6fa00da6674de3anat, x12);
    let x13 = 0x855ef115718cc7876de092ca7c4c1d06nat;
    let e13 = 2 * e12;
    lemma_power_mod_square(3nat, e12, n, x12, 0xb091c2cb8fdf42bf4a341580031f42cenat, x13);
    let x14 = 0x684a2887810f8e990ff2b06bbb5683bcnat;
    let e14 = 2 * e13 + 1;
    lemma_power_mod_square_times(3nat, e13, n, x13, 0x1159a73dc3dac6140882ba53556b7f530nat, x14);
    let x15 = 0x30502f214631e025d6efc7ddf311cfc0nat;
    let e15 = 2 * e14 + 1;
    lemma_power_mod_square_times(3nat, e14, n, x14, 0xa9bd8f97f4239ebaf11bab2cefe904f0nat, x15);
    let x16 = 0x5ef471db5ca7b7ac02b059dee0f794b9nat;
    let e16 = 2 * e15;
    lemma_power_mod_square(3nat, e15, n, x15, 0xc24849dc540e7636cadf1ba778a182fnat, x16);
    let x17 = 0xb2316c29149083767078f564f89b6645nat;
    let e17 = 2 * e16;
    lemma_power_mod_square(3nat, e16, n, x16, 0x2ee79714994de4ebaa27c64ae45d5e8cnat, x17);
    let x18 = 0x258a0267c23cd619b5f6b43b3ae25af1nat;
    let e18 = 2 * e17 + 1;
    lemma_power_mod_square_times(3nat, e17, n, x17, 0x1ef8bddc527ac85263c8eef50514b6ecanat, x18);
    let x19 = 0x7a90f344f093330d6e694d022d344c97nat;
    let e19 = 2 * e18 + 1;
    lemma_power_mod_square_times(3nat, e18, n, x18, 0x15fe069d626317369df0bedb5867762cnat, x19);
    let x20 = 0xac80e2dedb93b6e7529814831acd1484nat;
    let e20 = 2 * e19 + 1;
    lemma_power_mod_square_times(3nat, e19, n, x19, 0xea725fa1be15f7203e5b0b9463dd8357nat, x20);
    let x21 = 0x10fc220408db2730da5f63ea87eb75d4nat;
    let e21 = 2 * e20;
    lemma_power_mod_square(3nat, e20, n, x20, 0x9acd5c6719b02d302a7e1c30d37fb4dcnat, x21);
    let x22 = 0x80f1475baf2c5475859e630dc687bb5anat;
    let e22 = 2 * e21 + 1;
    lemma_power_mod_square_times(3nat, e21, n, x21, 0x48092a50738e690fa7d590259daa5e6nat, x22);
    let x23 = 0x1f57c6f4ad24c8290c9df0138bb17116nat;
    let e23 = 2 * e22;
    lemma_power_mod_square(3nat, e22, n, x22, 0x567dd55a2671edba25f6c78db232445enat, x23);
    let x24 = 0xb661a6c5249badb7a752275559a94fb5nat;
    let e24 = 2 * e23;
    lemma_power_mod_square(3nat, e23, n, x23, 0x51c468aeb9dca437edd8b333ed446d7nat, x24);
    let x25 = 0x2dc5cd649b50cd7f5945ed662c1c8ef4nat;
    let e25 = 2 * e24;
    lemma_power_mod_square(3nat, e24, n, x24, 0xad09dcd75763a75fdd3963f551c12e3dnat, x25);
    let x26 = 0x4a79486105e6cf096b8f0653ad1cacf0nat;
    let e26 = 2 * e25;
    lemma_power_mod_square(3nat, e25, n, x25, 0xae630bf2f8c0125b9731a9135761aa0nat, x26);
    let x27 = 0xb66dae09ef6f682d7638428cdd0a1cc4nat;
    let e27 = 2 * e26;
    lemma_power_mod_square(3nat, e26, n, x26, 0x1cda517106f5b8fc98560f6cdf2e1adcnat, x27);
    let x28 = 0xaa87f12637b1e75286b7fccc6958a2e0nat;
    let e28 = 2 * e27 + 1;
    lemma_power_mod_square_times(3nat, e27, n, x27, 0x2076211efbe85933e487d16c08e6ddad0nat, x28);
    let x29 = 0xad9cada632be68dd6d589bee96e3bbc4nat;
    let e29 = 2 * e28 + 1;
    lemma_power_mod_square_times(3nat, e28, n, x28, 0x1c5d8d8dc8e0a15a2f211d237a64a06dcnat, x29);
    let x30 = 0x97498a2ab234dc395ba35091fa04fecnat;
    let e30 = 2 * e29 + 1;
    lemma_power_mod_square_times(3nat, e29, n, x29, 0x1d66504dd6d99826cb30a1626b15cdfa4nat, x30);
    let x31 = 0x290c12b0fb519488ada293f141383d42nat;
    let e31 = 2 * e30 + 1;
    lemma_power_mod_square_times(3nat, e30, n, x30, 0x165325c9fac0e3701d0633e64dcde3enat, x31);
    let x32 = 0xbd6842c86e157d5fa0f3c5ab827cb364nat;
    let e32 = 2 * e31;
    lemma_power_mod_square(3nat, e31, n, x31, 0x8c3d1778bd1ca0914c83009e8e710a0nat, x32);
}

proof fn lemma_power_255515944373312847190720520512484175977_over_2657_part_1()
    requires
        power_mod(3nat, 0x12856741enat, 0xc03a94b2d3e64419a05cd8ccbf987069nat) == 0xbd6842c86e157d5fa0f3c5ab827cb364nat,
    ensures
        power_mod(3nat, 0x12856741e2e490eb3nat, 0xc03a94b2d3e64419a05cd8ccbf987069nat) == 0x5d724f10d7d8905cf53f3c872d564ce7nat,
{
    let n = 0xc03a94b2d3e64419a05cd8ccbf987069nat;
    let e0 = 0x12856741enat;
    let x0 = 0xbd6842c86e157d5fa0f3c5ab827cb364nat;
    let x1 = 0x957feb86a9f9995e437127893f27ebe0nat;
    let e1 = 2 * e0;
    lemma_power_mod_square(3nat, e0, n, x0, 0xbaa08b0f73c175b1cb04d2c5530813b0nat, x1);
    let x2 = 0x1e76d07c449a14bbc21f3b1c4713b8bfnat;
    let e2 = 2 * e1;
    lemma_power_mod_square(3nat, e1, n, x1, 0x7444bbf8febad0febd97aa6ea801a919nat, x2);
    let x3 = 0x808c09c37bc54b07dbd9a94052d2c0fbnat;
    let e3 = 2 * e2 + 1;
    lemma_power_mod_square_times(3nat, e2, n, x2, 0xe7bd4bd670e4adcd6563ac0dbad7548nat, x3);
    let x4 = 0x70bf7bf108da13b6b45c6982e220bf6dnat;
    let e4 = 2 * e3;
    lemma_power_mod_square(3nat, e3, n, x3, 0x55f638de8313ce7a49c5d2baaf4dabccnat, x4);
    let x5 = 0x557e28bd150ac0f5c5472a3977b1c3fnat;
    let e5 = 2 * e4 + 1;
    lemma_power_mod_square_times(3nat, e4, n, x4, 0xc663e6e0cd90fb58f520b5eb1b10b99cnat, x5);
    let x6 = 0x84c35d500a1dbd3d4d15df74d41d74cdnat;
    let e6 = 2 * e5 + 1;
    lemma_power_mod_square_times(3nat, e5, n, x5, 0x72114756fb291af0a0cfb18d060d46nat, x6);
    let x7 = 0x66335e01e052d69c59133c5a50679c8nat;
    let e7 = 2 * e6 + 1;
    lemma_power_mod_square_times(3nat, e6, n, x6, 0x113144771e5a7108b1a9e5d9ff6597ebbnat, x7);
    let x8 = 0x5d4b19990e82558e0a12a8f01417b803nat;
    let e8 = 2 * e7;
    lemma_power_mod_square(3nat, e7, n, x7, 0x36560d8c6a1871c76dff4e2a446ab5nat, x8);
    let x9 = 0x860924f879cf84ea20547ab03839ca0enat;
    let e9 = 2 * e8;
    lemma_power_mod_square(3nat, e8, n, x8, 0x2d470da48e4f1030af414e067da2f6c3nat, x9);
    let x10 = 0x286fc87ed5068177c0e72b9fa48af739nat;
    let e10 = 2 * e9 + 1;
    lemma_power_mod_square_times(3nat, e9, n, x9, 0x11860c06a75b54b0178ba9fe855f8b81bnat, x10);
    let x11 = 0x944895a48c0dc9851bfdba31037408d8nat;
    let e11 = 2 * e10;
    lemma_power_mod_square(3nat, e10, n, x10, 0x881918f0d2fcaf8b02f6eb6fe8dd7f1nat, x11);
    let x12 = 0xddf598fe8bd3055afefdcd7e2197canat;
    let e12 = 2 * e11;
    lemma_power_mod_square(3nat, e11, n, x11, 0x72627125c3d3b552b7931bfd59ca9c06nat, x12);
    let x13 = 0xaf5eb5dfc2aad15cc6167f4ad1a8ae1fnat;
    let e13 = 2 * e12 + 1;
    lemma_power_mod_square_times(3nat, e12, n, x12, 0x300dd40c9d903d0ab429ea8f59205nat, x13);
    let x14 = 0xa23f2bb4ae1ef5a290129df8df9f9e09nat;
    let e14 = 2 * e13;
    lemma_power_mod_square(3nat, e13, n, x13, 0x9ffd59d1e227e4ce481e7a82bd9004f8nat, x14);
    let x15 = 0x4950c2e94ff382957a794ffaa6943f93nat;
    let e15 = 2 * e14;
    lemma_power_mod_square(3nat, e14, n, x14, 0x88f0e6601e98e2f9d62d6c983fc61f0enat, x15);
    let x16 = 0xa490effbc18c0de04c095cf2dc47c1e0nat;
    let e16 = 2 * e15 + 1;
    lemma_power_mod_square_times(3nat, e15, n, x15, 0x53e30a5593b836a4c9895b9816993323nat, x16);
    let x17 = 0x4c49c77b0b45d427fed6a0dfb6093545nat;
    let e17 = 2 * e16;
    lemma_power_mod_square(3nat, e16, n, x16, 0x8ce2608dada76163081e22a1bfc96183nat, x17);
    let x18 = 0x5f2123dffa2fb171701591cf9b071d65nat;
    let e18 = 2 * e17;
    lemma_power_mod_square(3nat, e17, n, x17, 0x1e469d7e5df42cdd64046e9f06e9e714nat, x18);
    let x19 = 0x4447fe3ddec8d8793a2ee431bacd9593nat;
    let e19 = 2 * e18;
    lemma_power_mod_square(3nat, e18, n, x18, 0x2f13c9736180846a34d207d973970956nat, x19);
    let x20 = 0xb341b70c21342484c61875d50fed2c6fnat;
    let e20 = 2 * e19;
    lemma_power_mod_square(3nat, e19, n, x19, 0x184108a72bfebebb7d85a3d37a0996eanat, x20);
    let x21 = 0x4bbdf30de80d4ed498c50a3d9d9377dnat;
    let e21 = 2 * e20 + 1;
    lemma_power_mod_square_times(3nat, e20, n, x20, 0x1f57ad9e7720287fd0a933d58d9e7ecf6nat, x21);
    let x22 = 0x9d90dcb2e2cde89d9be79ea8df1b693enat;
    let e22 = 2 * e21 + 1;
    lemma_power_mod_square_times(3nat, e21, n, x21, 0x5988144ea7586ed01f04533ea59555nat, x22);
    let x23 = 0x719151a2a5bee9ff02a6b62c667e881nat;
    let e23 = 2 * e22 + 1;
    lemma_power_mod_square_times(3nat, e22, n, x22, 0x18375cb08c42a46b4f932142544fb62d3nat, x23);
    let x24 = 0x1309a5a8b33a43ee80e6297f92a8527nat;
    let e24 = 2 * e23;
    lemma_power_mod_square(3nat, e23, n, x23, 0x431858185a41e8ec3987b0e9e2f1canat, x24);
    let x25 = 0x5235cc829bc6b5beb9e8962633946ee5nat;
    let e25 = 2 * e24 + 1;
    lemma_power_mod_square_times(3nat, e24, n, x24, 0x5a80203b75112d32b01e5e8b1afbenat, x25);
    let x26 = 0x7a2cbe90261fa8295c8f4314ddbd5e27nat;
    let e26 = 2 * e25;
    lemma_power_mod_square(3nat, e25, n, x25, 0x23289e42c9b50459b5ca93c978194ee2nat, x26);
    let x27 = 0x858230ff25a21e24823955025813e23nat;
    let e27 = 2 * e26 + 1;
    lemma_power_mod_square_times(3nat, e26, n, x26, 0xe8f3a2754b5605dc5f6a2342d7eacc30nat, x27);
    let x28 = 0x3913cf3aa8a45e3fe924af308c7e5b69nat;
    let e28 = 2 * e27 + 1;
    lemma_power_mod_square_times(3nat, e27, n, x27, 0x1162d44b3939ca43557a1c0a9627922nat, x28);
    let x29 = 0x67d2658eea6b57b0ee3055dfba115550nat;
    let e29 = 2 * e28;
    lemma_power_mod_square(3nat, e28, n, x28, 0x10f299579b20b4e5a9c90b92446f4599nat, x29);
    let x30 = 0x66259b5c78da50387d25c0acd7f2defenat;
    let e30 = 2 * e29;
    lemma_power_mod_square(3nat, e29, n, x29, 0x3812dd0f7e1274b2c2159c7aa6ad89b2nat, x30);
    let x31 = 0x825d658cf7eadd13be1bc65878b4ad24nat;
    let e31 = 2 * e30 + 1;
    lemma_power_mod_square_times(3nat, e30, n, x30, 0xa2d646786838fa0ed59fd2f7b88e0aa8nat, x31);
    let x32 = 0x5d724f10d7d8905cf53f3c872d564ce7nat;
    let e32 = 2 * e31 + 1;
    lemma_power_mod_square_times(3nat, e31, n, x31, 0x1093b0844139a6d9bb56d780a203ebee1nat, x32);
}

proof fn lemma_power_255515944373312847190720520512484175977_over_2657_part_2()
    requires
        power_mod(3nat, 0x12856741e2e490eb3nat, 0xc03a94b2d3e64419a05cd8ccbf987069nat) == 0x5d724f10d7d8905cf53f3c872d564ce7nat,
    ensures
        power_mod(3nat, 0x12856741e2e490eb3fb8c87bcnat, 0xc03a94b2d3e64419a05cd8ccbf987069nat) == 0x8bdfc7bac00bf2a127224d39f8ca61d5nat,
{
    let n = 0xc03a94b2d3e64419a05cd8ccbf987069nat;
    let e0 = 0x12856741e2e490eb3nat;
    let x0 = 0x5d724f10d7d8905cf53f3c872d564ce7nat;
    let x1 = 0x79243c7ddae3ae4b53747fb873fe871cnat;
    let e1 = 2 * e0 + 1;
    lemma_power_mod_square_times(3nat, e0, n, x0, 0x88476d7e9b0c1044c96c94f4e1bee99fnat, x1);
    let x2 = 0x87f278af509985a46b9ebe498f2bb2denat;
    let e2 = 2 * e1 + 1;
    lemma_power_mod_square_times(3nat, e1, n, x1, 0xe507385c4254c4584240927d1c14f182nat, x2);
    let x3 = 0xa46da830d70483c53ffafffec716489enat;
    let e3 = 2 * e2 + 1;
    lemma_power_mod_square_times(3nat, e2, n, x2, 0x1206e83011b53ebdece61813fd582bbbenat, x3);
    let x4 = 0x7c2e6de865c7db25814ea2ac82f28ba3nat;
    let e4 = 2 * e3 + 1;
    lemma_power_mod_square_times(3nat, e3, n, x3, 0x1a5f1fca51506f6f09650d41b9ae97481nat, x4);
    let x5 = 0xbdbe5aaf1af024fe228ca3b7d8bc4d85nat;
    let e5 = 2 * e4 + 1;
    lemma_power_mod_square_times(3nat, e4, n, x4, 0xf0aa9da54f4f51b7e7f0fe25e8b43666nat, x5);
    let x6 = 0x3930162381a03efa78d0ad277fe95c27nat;
    let e6 = 2 * e5;
    lemma_power_mod_square(3nat, e5, n, x5, 0xbb4a5a695149aa537e1e329511e17522nat, x6);
    let x7 = 0x8bd27b329c7f7a750997bf4ff9b75a15nat;
    let e7 = 2 * e6 + 1;
    lemma_power_mod_square_times(3nat, e6, n, x6, 0x330a38f287833cd1e9cfad0e6e161a0enat, x7);
    let x8 = 0xb7de61e87b04634663cc0e472794b271nat;
    let e8 = 2 * e7 + 1;
    lemma_power_mod_square_times(3nat, e7, n, x7, 0x1311be3f960c2117f063d18d3e54411aanat, x8);
    let x9 = 0x57faaa93d3d9f5f124e402d5a702623bnat;
    let e9 = 2 * e8 + 1;
    lemma_power_mod_square_times(3nat, e8, n, x8, 0x20f9dc9acaf3f561e63311e0b8ae5b728nat, x9);
    let x10 = 0x5752110daf0f04401f6b31efc602c7aenat;
    let e10 = 2 * e9;
    lemma_power_mod_square(3nat, e9, n, x9, 0x284428bc6c8dc83d28e464c0737a0533nat, x10);
    let x11 = 0x4f3720fbb691ae09fe60e17dc26b43c2nat;
    let e11 = 2 * e10;
    lemma_power_mod_square(3nat, e10, n, x10, 0x27aa6855d26847dea0023bedf9787232nat, x11);
    let x12 = 0xaf0cd4753707a07cd113edf2dbd82b25nat;
    let e12 = 2 * e11;
    lemma_power_mod_square(3nat, e11, n, x11, 0x20a4cd3d49406f934b549a5ea17cb907nat, x12);
    let x13 = 0x1ffd6e02d0fe1904828ebdfb95702ef1nat;
    let e13 = 2 * e12 + 1;
    lemma_power_mod_square_times(3nat, e12, n, x12, 0x1de3843c0dd161b10f96845cce144af0anat, x13);
    let x14 = 0x1551a5477e80d329d7bb9a877625a025nat;
    let e14 = 2 * e13 + 1;
    lemma_power_mod_square_times(3nat, e13, n, x13, 0xff88ea90214b6fe0dd59b10594228cenat, x14);
    let x15 = 0x38ced30b93746a93998f259855aa6bc2nat;
    let e15 = 2 * e14;
    lemma_power_mod_square(3nat, e14, n, x14, 0x25d463302561f71bda19b41b5d2b9ffnat, x15);
    let x16 = 0x1bef66eaf99d6985ee8dccbee147c4b5nat;
    let e16 = 2 * e15;
    lemma_power_mod_square(3nat, e15, n, x15, 0x10c9baa103746e4a34b1d57e8c1abdf7nat, x16);
    let x17 = 0x7d46885b2faee682560a42b3100e2040nat;
    let e17 = 2 * e16 + 1;
    lemma_power_mod_square_times(3nat, e16, n, x16, 0xc2dc718cce84dfd23bf33cdec0c84f3nat, x17);
    let x18 = 0x9e2c6f74b159a658d7163ef887b65f6cnat;
    let e18 = 2 * e17;
    lemma_power_mod_square(3nat, e17, n, x17, 0x51a45d3e4c3d25e19d8507dd7b589974nat, x18);
    let x19 = 0xa7dc9649191dd003affd30b128f67d12nat;
    let e19 = 2 * e18;
    lemma_power_mod_square(3nat, e18, n, x18, 0x8226cbdeae0c14957455d3c693f0c4cenat, x19);
    let x20 = 0x33605ed4e89be9d45820799a68ecb37dnat;
    let e20 = 2 * e19;
    lemma_power_mod_square(3nat, e19, n, x19, 0x9295543af1e493a84a325069f4277aafnat, x20);
    let x21 = 0x110e86baa3395c5ce399ac94c08c7ebfnat;
    let e21 = 2 * e20;
    lemma_power_mod_square(3nat, e20, n, x20, 0xdbb323bdc7b53a1ec35e442aab6e0banat, x21);
    let x22 = 0x9a42073f6500e7ff83e7fcccda91ce22nat;
    let e22 = 2 * e21 + 1;
    lemma_power_mod_square_times(3nat, e21, n, x21, 0x48a583b038d0c407404e02845239239nat, x22);
    let x23 = 0x5a154880a5e5ca1436b63d9a663dd07bnat;
    let e23 = 2 * e22 + 1;
    lemma_power_mod_square_times(3nat, e22, n, x22, 0x1735cb8b6e18b2c05812dc994d22cba69nat, x23);
    let x24 = 0x7a9737496144eb54876126c976a40c8enat;
    let e24 = 2 * e23 + 1;
    lemma_power_mod_square_times(3nat, e23, n, x23, 0x7ea53efd5c6bdae0d65f373dcc072735nat, x24);
    let x25 = 0x29006dffe27b24de105190aaca69dc35nat;
    let e25 = 2 * e24 + 1;
    lemma_power_mod_square_times(3nat, e24, n, x24, 0xea8a58a0f779de9a573fdedf233ddc7fnat, x25);
    let x26 = 0x6e2e34e267c67ca2a31d9ec04dc5d7d4nat;
    let e26 = 2 * e25;
    lemma_power_mod_square(3nat, e25, n, x25, 0x8bed938a745fce0a54ca911299c2d5dnat, x26);
    let x27 = 0x51ef43bdb512393b8b3ff7cb95b45f23nat;
    let e27 = 2 * e26 + 1;
    lemma_power_mod_square_times(3nat, e26, n, x26, 0xbd7529074bad5a8deb220dc2ac0be985nat, x27);
    let x28 = 0x36bbaf1b598f9ce1bfb17ad58c057365nat;
    let e28 = 2 * e27 + 1;
    lemma_power_mod_square_times(3nat, e27, n, x27, 0x68c52a97fc6aad3aaf11bc238bcce286nat, x28);
    let x29 = 0x3286eeaabd7a6372625684d886bdcc90nat;
    let e29 = 2 * e28 + 1;
    lemma_power_mod_square_times(3nat, e28, n, x28, 0x2ec09a2a0f07b7d112dad11585ab7dc3nat, x29);
    let x30 = 0xb4872b069159b897e246ba327bb1e393nat;
    let e30 = 2 * e29 + 1;
    lemma_power_mod_square_times(3nat, e29, n, x29, 0x27d7c95abd15aba3b31149c3136ac665nat, x30);
    let x31 = 0x2c978ecb95692912a964b4e0baf4955fnat;
    let e31 = 2 * e30;
    lemma_power_mod_square(3nat, e30, n, x30, 0xa98a157b5a762a019a103fb204cf077anat, x31);
    let x32 = 0x8bdfc7bac00bf2a127224d39f8ca61d5nat;
    let e32 = 2 * e31;
    lemma_power_mod_square(3nat, e31, n, x31, 0xa581bc9b771f3d8a623719c401d2e8cnat, x32);
}

proof fn lemma_power_255515944373312847190720520512484175977_over_2657_part_3()
    requires
        power_mod(3nat, 0x12856741e2e490eb3fb8c87bcnat, 0xc03a94b2d3e64419a05cd8ccbf987069nat) == 0x8bdfc7bac00bf2a127224d39f8ca61d5nat,
    ensures
        power_mod(3nat, 0x12856741e2e490eb3fb8c87bc8d968nat, 0xc03a94b2d3e64419a05cd8ccbf987069nat) == 0x1301d3f5f0f0bf0580fe6839201671e7nat,
{
    let n = 0xc03a94b2d3e64419a05cd8ccbf987069nat;
    let e0 = 0x12856741e2e490eb3fb8c87bcnat;
    let x0 = 0x8bdfc7bac00bf2a127224d39f8ca61d5nat;
    let x1 = 0x3bfbb524a9f200b55546b1559dcdef29nat;
    let e1 = 2 * e0 + 1;
    lemma_power_mod_square_times(3nat, e0, n, x0, 0x13155f0ef698feee7c1a5d56a00883e32nat, x1);
    let x2 = 0xb21b4c39f046d9e7ac2d129e87ac6237nat;
    let e2 = 2 * e1;
    lemma_power_mod_square(3nat, e1, n, x1, 0x12b79b5996da036b8acc23eee7ae944anat, x2);
    let x3 = 0x9b36fadfb38089f3586f17bb865fb2bnat;
    let e3 = 2 * e2;
    lemma_power_mod_square(3nat, e2, n, x2, 0xa5059d0cd9226024ffa66fade285f2b6nat, x3);
    let x4 = 0x200635d0f6660e2585c9173aa4eed99anat;
    let e4 = 2 * e3;
    lemma_power_mod_square(3nat, e3, n, x3, 0x7d53ed0d3746e4047a5699a0a06ec7nat, x4);
    let x5 = 0x7fe4c7a76bc9997373ebb1a402bf776anat;
    let e5 = 2 * e4 + 1;
    lemma_power_mod_square_times(3nat, e4, n, x4, 0x10015449d5fdfd9efe3ade163839f632nat, x5);
    let x6 = 0x5ba6df15a3e980c173fe9d9155cad9dfnat;
    let e6 = 2 * e5 + 1;
    lemma_power_mod_square_times(3nat, e5, n, x5, 0xff454790a403f11d3dcc1d1a823dc5c5nat, x6);
    let x7 = 0x4b31c763312b2d4e1a81db4380b63297nat;
    let e7 = 2 * e6;
    lemma_power_mod_square(3nat, e6, n, x6, 0x2bb2bf52fed68aefafd242e3898e3b1anat, x7);
    let x8 = 0xeb1aad2046bbd60c9546d700c66b692nat;
    let e8 = 2 * e7 + 1;
    lemma_power_mod_square_times(3nat, e7, n, x7, 0x583de5a8f178004b9afd34b95d900f79nat, x8);
    let x9 = 0x9c0eb2f99da993a47c2f36b4a4577835nat;
    let e9 = 2 * e8 + 1;
    lemma_power_mod_square_times(3nat, e8, n, x8, 0x35ea0c08a0029fb04ce0e96e267a9ffnat, x9);
    let x10 = 0x51c2bc9c91136042a4856d748d7ee377nat;
    let e10 = 2 * e9;
    lemma_power_mod_square(3nat, e9, n, x9, 0x7eb13c4ce043b16545f49a7d5b9f6b32nat, x10);
    let x11 = 0x8338609568e708ab4156c127bf98abanat;
    let e11 = 2 * e10;
    lemma_power_mod_square(3nat, e10, n, x10, 0x22c6786ee36055365a1b110e82e10effnat, x11);
    let x12 = 0x173887ad7b06fd7a4eb1cc13a9c76aaenat;
    let e12 = 2 * e11 + 1;
    lemma_power_mod_square_times(3nat, e11, n, x11, 0x10cb8ffb7197e2330b6511426a5150enat, x12);
    let x13 = 0xb4abbc05fdd3977e0fe01314603a8f03nat;
    let e13 = 2 * e12;
    lemma_power_mod_square(3nat, e12, n, x12, 0x2ce160e4869803103a4ce4687423d19nat, x13);
    let x14 = 0x91a1fb5f3edc992148ccff7f4595ef16nat;
    let e14 = 2 * e13 + 1;
    lemma_power_mod_square_times(3nat, e13, n, x13, 0x1fd6c60841b2d8cddf647c88d0bcae63dnat, x14);
    let x15 = 0xbb4d338b6ed8d18d31b7b3c5d54ad9e5nat;
    let e15 = 2 * e14 + 1;
    lemma_power_mod_square_times(3nat, e14, n, x14, 0x14afe97bf1ca8c1d9128923f98c4c10afnat, x15);
    let x16 = 0x3fea136bcc5d7c37f277402da51fa6fcnat;
    let e16 = 2 * e15;
    lemma_power_mod_square(3nat, e15, n, x15, 0xb680276456077f1a94974ff0d2330555nat, x16);
    let x17 = 0x840503e0c08af0eab6d582a2e8cde258nat;
    let e17 = 2 * e16 + 1;
    lemma_power_mod_square_times(3nat, e16, n, x16, 0x3fc0bac1e8f09c56fd706ecb41ce0c18nat, x17);
    let x18 = 0x1f9927123da3ddd7a6e914f67f2a7dbnat;
    let e18 = 2 * e17;
    lemma_power_mod_square(3nat, e17, n, x17, 0x5aab3b8426962ca0b11e6b4e0c63f69dnat, x18);
    let x19 = 0x44105dd583829f05b084be7d22fc42a5nat;
    let e19 = 2 * e18;
    lemma_power_mod_square(3nat, e18, n, x18, 0x531ae6b09057ab2e5d0b7b205c694nat, x19);
    let x20 = 0x1301d3f5f0f0bf0580fe6839201671e7nat;
    let e20 = 2 * e19;
    lemma_power_mod_square(3nat, e19, n, x19, 0x18199422cf94fd4ebfac9e7d5f475aa2nat, x20);
}

proof fn lemma_power_255515944373312847190720520512484175977_over_2657()
    ensures
        power_mod(3nat, 0x12856741e2e490eb3fb8c87bc8d968nat, 0xc03a94b2d3e64419a05cd8ccbf987069nat) == 0x1301d3f5f0f0bf0580fe6839201671e7nat,
{
    lemma_power_mod_first(3nat, 0xc03a94b2d3e64419a05cd8ccbf987069nat);
    lemma_power_255515944373312847190720520512484175977_over_2657_part_0();
    lemma_power_255515944373312847190720520512484175977_over_2657_part_1();
    lemma_power_255515944373312847190720520512484175977_over_2657_part_2();
    lemma_power_255515944373312847190720520512484175977_over_2657_part_3();
}

proof fn lemma_power_255515944373312847190720520512484175977_over_4423_part_0()
    requires
        power_mod(3nat, 1nat, 0xc03a94b2d3e64419a05cd8ccbf987069nat) == 3nat,
    ensures
        power_mod(3nat, 0x16408b744nat, 0xc03a94b2d3e64419a05cd8ccbf987069nat) == 0x4b87c1afbe33840a87a9f19d76da8c9enat,
{
    let n = 0xc03a94b2d3e64419a05cd8ccbf987069nat;
    let e0 = 1nat;
    let x0 = 3nat;
    let x1 = 9nat;
    let e1 = 2 * e0;
    lemma_power_mod_square(3nat, e0, n, x0, 0nat, x1);
    let x2 = 243nat;
    let e2 = 2 * e1 + 1;
    lemma_power_mod_square_times(3nat, e1, n, x1, 0nat, x2);
    let x3 = 177147nat;
    let e3 = 2 * e2 + 1;
    lemma_power_mod_square_times(3nat, e2, n, x2, 0nat, x3);
    let x4 = 0x74e74f819nat;
    let e4 = 2 * e3;
    lemma_power_mod_square(3nat, e3, n, x3, 0nat, x4);
    let x5 = 0x3562710dff03187271nat;
    let e5 = 2 * e4;
    lemma_power_mod_square(3nat, e4, n, x4, 0nat, x5);
    let x6 = 0xc860b0f17b7533934daa1e56912e399nat;
    let e6 = 2 * e5 + 1;
    lemma_power_mod_square_times(3nat, e5, n, x5, 11386nat, x6);
    let x7 = 0xb75f969882c4b3be8834e09457d34523nat;
    let e7 = 2 * e6;
    lemma_power_mod_square(3nat, e6, n, x6, 0xd0df3c1fe2f6d2b93af37bb342401enat, x7);
    let x8 = 0xa53b0d8f627cdf0c4451be2645b1d2a7nat;
    let e8 = 2 * e7;
    lemma_power_mod_square(3nat, e7, n, x7, 0xaeed07959e794c438e32be2485e5cad2nat, x8);
    let x9 = 0x297f93218cd841aa7f390124991b2bd5nat;
    let e9 = 2 * e8;
    lemma_power_mod_square(3nat, e8, n, x8, 0x8e063c4228102cb0d0c8773516ab30bcnat, x9);
    let x10 = 0x87c5db072f0ec230d8fb2ab57a9da7f8nat;
    let e10 = 2 * e9;
    lemma_power_mod_square(3nat, e9, n, x9, 0x8f56a87b618967c37421022a2461519nat, x10);
    let x11 = 0xafec358ead55de52ca61ee1a5c5300e4nat;
    let e11 = 2 * e10;
    lemma_power_mod_square(3nat, e10, n, x10, 0x5fe5c58d190563910441ce82c86a18fcnat, x11);
    let x12 = 0x1aa26a38586a6b607d02cf6f9d4c01f9nat;
    let e12 = 2 * e11;
    lemma_power_mod_square(3nat, e11, n, x11, 0xa0ffef8edee29916372cd4bd59843d7fnat, x12);
    let x13 = 0xae13782252e0e08c6a53b2ceae4847bfnat;
    let e13 = 2 * e12 + 1;
    lemma_power_mod_square_times(3nat, e12, n, x12, 0xb1231bb83fa73887f667973870e23b4nat, x13);
    let x14 = 0x25d7e745366940480c4397aa3501d1e5nat;
    let e14 = 2 * e13;
    lemma_power_mod_square(3nat, e13, n, x13, 0x9da332ff966220992680f53fd929e63cnat, x14);
    let x15 = 0x9c079a5bdcaa67394f3676f793f8d991nat;
    let e15 = 2 * e14;
    lemma_power_mod_square(3nat, e14, n, x14, 0x77338acd647013ac4cfb065468f4a08nat, x15);
    let x16 = 0x4cf06ef9fd6e2155cca29c120359b157nat;
    let e16 = 2 * e15;
    lemma_power_mod_square(3nat, e15, n, x15, 0x7ea5b6fd5fb5fdea8975e34b0134c33anat, x16);
    let x17 = 0x225e2bd6ca6ac07e9113e3eb6bac2051nat;
    let e17 = 2 * e16 + 1;
    lemma_power_mod_square_times(3nat, e16, n, x16, 0x5c625ee44354f0baa38dc608ffa90312nat, x17);
    let x18 = 0x29c9e5882dcf5ca6abc2d7267cf145danat;
    let e18 = 2 * e17;
    lemma_power_mod_square(3nat, e17, n, x17, 0x624fdc822dbb8d075e1d52aa94cdcafnat, x18);
    let x19 = 0x7ea45eabd1dc39d698095f39ea0ff7b0nat;
    let e19 = 2 * e18 + 1;
    lemma_power_mod_square_times(3nat, e18, n, x18, 0x1b40da4cca43ca9e1e7eaadda36b0fdcnat, x19);
    let x20 = 0x492d4a62672f8ffb930282dd89fc9c32nat;
    let e20 = 2 * e19 + 1;
    lemma_power_mod_square_times(3nat, e19, n, x19, 0xfa4c7ca08b3a45af298552d14ce91e9enat, x20);
    let x21 = 0x5049adcefc75f1b7b156ff44fc58ce93nat;
    let e21 = 2 * e20;
    lemma_power_mod_square(3nat, e20, n, x20, 0x1bdb50c11419b8cf120c417ea4af8b89nat, x21);
    let x22 = 0x25a5e6d4034f4f7634ac8c1fb4c1823anat;
    let e22 = 2 * e21 + 1;
    lemma_power_mod_square_times(3nat, e21, n, x21, 0x6499d5a0549cd901cfab097b487cbed9nat, x22);
    let x23 = 0xb4131a8c42fab18d7f88f658de3d10b2nat;
    let e23 = 2 * e22 + 1;
    lemma_power_mod_square_times(3nat, e22, n, x22, 0x161ec131437c3abae4d3095f4f92c1aanat, x23);
    let x24 = 0x627356a074ce51361fa7f8737c140bf3nat;
    let e24 = 2 * e23 + 1;
    lemma_power_mod_square_times(3nat, e23, n, x23, 0x1fa11134671e625a3363ded25b11d2171nat, x24);
    let x25 = 0x447eccc5cb07d6d7351a45bbd6d40009nat;
    let e25 = 2 * e24;
    lemma_power_mod_square(3nat, e24, n, x24, 0x326bf60de0f0ed775b38d102c4576fa0nat, x25);
    let x26 = 0x6c61a741c09e43d7bc9c284a387d6a93nat;
    let e26 = 2 * e25 + 1;
    lemma_power_mod_square_times(3nat, e25, n, x25, 0x4938176155338402764830f3665f1760nat, x26);
    let x27 = 0x659cd41f855cc93356f86d042783d246nat;
    let e27 = 2 * e26;
    lemma_power_mod_square(3nat, e26, n, x26, 0x3d1b68e47a1c26ef2341411ed346e8abnat, x27);
    let x28 = 0x1a137754b24a4651960f710c52ee92nat;
    let e28 = 2 * e27;
    lemma_power_mod_square(3nat, e27, n, x27, 0x35b67139ea06bd518c6949fda7b2c5c2nat, x28);
    let x29 = 0xa0d144704b6f9746fe52ce7a63dbd02enat;
    let e29 = 2 * e28;
    lemma_power_mod_square(3nat, e28, n, x28, 0x38988ac3fc1136a117efbeb7fa6nat, x29);
    let x30 = 0x9dda0d558d493d01a70061f8b2d7ae5anat;
    let e30 = 2 * e29 + 1;
    lemma_power_mod_square_times(3nat, e29, n, x29, 0x1939ddcd86c603102e62b8197789048a2nat, x30);
    let x31 = 0x62d61dda2a586872414156d09b323abbnat;
    let e31 = 2 * e30;
    lemma_power_mod_square(3nat, e30, n, x30, 0x819f5b95a100e16413878af771b7d881nat, x31);
    let x32 = 0x4b87c1afbe33840a87a9f19d76da8c9enat;
    let e32 = 2 * e31;
    lemma_power_mod_square(3nat, e31, n, x31, 0x32d156a910d4c5095d930951758158c3nat, x32);
}

proof fn lemma_power_255515944373312847190720520512484175977_over_4423_part_1()
    requires
        power_mod(3nat, 0x16408b744nat, 0xc03a94b2d3e64419a05cd8ccbf987069nat) == 0x4b87c1afbe33840a87a9f19d76da8c9enat,
    ensures
        power_mod(3nat, 0x16408b74426f0b110nat, 0xc03a94b2d3e64419a05cd8ccbf987069nat) == 0x4901d6486709d26d51faa2a00f3ae75nat,
{
    let n = 0xc03a94b2d3e64419a05cd8ccbf987069nat;
    let e0 = 0x16408b744nat;
    let x0 = 0x4b87c1afbe33840a87a9f19d76da8c9enat;
    let x1 = 0x50410daa26f1396e01d54dc2ecef1000nat;
    let e1 = 2 * e0;
    lemma_power_mod_square(3nat, e0, n, x0, 0x1dad6147c24cab97c61441c210d164e4nat, x1);
    let x2 = 0x5f5aa79d876d922ecd4667ec71c98231nat;
    let e2 = 2 * e1;
    lemma_power_mod_square(3nat, e1, n, x1, 0x21816863393e116ef971a462dce0b577nat, x2);
    let x3 = 0x53b6918699e6098b82dd216ec6912b10nat;
    let e3 = 2 * e2 + 1;
    lemma_power_mod_square_times(3nat, e2, n, x2, 0x8de6568a45755b722e82f811af33121bnat, x3);
    let x4 = 0x889fae23de864777a2627e0e75ea0acdnat;
    let e4 = 2 * e3;
    lemma_power_mod_square(3nat, e3, n, x3, 0x2474bbebfdf024d1cecda0cf32313e3bnat, x4);
    let x5 = 0x9c24d96936779f1cc6a16e7d8b892903nat;
    let e5 = 2 * e4;
    lemma_power_mod_square(3nat, e4, n, x4, 0x611a704f1a728fcea39f04ea03706136nat, x5);
    let x6 = 0x8b2fbc63185f6a6f27fef0f9ecbefcc8nat;
    let e6 = 2 * e5 + 1;
    lemma_power_mod_square_times(3nat, e5, n, x5, 0x17c7fa130400804670f92e29aa703705bnat, x6);
    let x7 = 0x40b8360a05c02e963c378bd5989a7effnat;
    let e7 = 2 * e6 + 1;
    lemma_power_mod_square_times(3nat, e6, n, x6, 0x12e573ebc2b838c009ab6830400a14f99nat, x7);
    let x8 = 0x17078d1bf6658d4b442da10c47cca038nat;
    let e8 = 2 * e7;
    lemma_power_mod_square(3nat, e7, n, x7, 0x15ca2ed007d656246f748dfb98fd3a61nat, x8);
    let x9 = 0x7de71c86d5ad35bd07c805fda2dc9d6bnat;
    let e9 = 2 * e8 + 1;
    lemma_power_mod_square_times(3nat, e8, n, x8, 0x846e7d11eef824dada323b6a67f020dnat, x9);
    let x10 = 0x411ba3277e61f351b5da376b89e2afebnat;
    let e10 = 2 * e9 + 1;
    lemma_power_mod_square_times(3nat, e9, n, x9, 0xf7628f4daa67a2af7d06392c881c0640nat, x10);
    let x11 = 0xa3062d71c2fd9f8f3fc21e3d04059394nat;
    let e11 = 2 * e10 + 1;
    lemma_power_mod_square_times(3nat, e10, n, x10, 0x42280005b7750cdfb667256fc135f1ffnat, x11);
    let x12 = 0xe4c96eb9735f72f3e3118aace8c5249nat;
    let e12 = 2 * e11 + 1;
    lemma_power_mod_square_times(3nat, e11, n, x11, 0x19ec4eb5d94d16baaa744619d8186f64fnat, x12);
    let x13 = 0xbb9ee1fdbe5b017c1c7077057ff6534fnat;
    let e13 = 2 * e12;
    lemma_power_mod_square(3nat, e12, n, x12, 0x1104c25be2481476f53c20de267e932nat, x13);
    let x14 = 0x7d61d9990a300caeee456da1d333141cnat;
    let e14 = 2 * e13;
    lemma_power_mod_square(3nat, e13, n, x13, 0xb71f77072690e09698a1abfc3b70237dnat, x14);
    let x15 = 0xa7ae788122681e4b983d6d68064c63b1nat;
    let e15 = 2 * e14;
    lemma_power_mod_square(3nat, e14, n, x14, 0x51c7fc1d9ce5756603386d49ca0ff887nat, x15);
    let x16 = 0x9cd23853ba1e30f00cb449ebce237c98nat;
    let e16 = 2 * e15;
    lemma_power_mod_square(3nat, e15, n, x15, 0x9244d4c31eafec1a3d7fbdd0cdd86c61nat, x16);
    let x17 = 0xacf969a9ab1cf2b2a0dd2aa411d9f54dnat;
    let e17 = 2 * e16 + 1;
    lemma_power_mod_square_times(3nat, e16, n, x16, 0x17fce6ad526003ad55b66c44e34f13f7bnat, x17);
    let x18 = 0x957a068b722c8f58439efc76d49aecfbnat;
    let e18 = 2 * e17;
    lemma_power_mod_square(3nat, e17, n, x17, 0x9ba5f94a109e39bf4c902efaaedb64fenat, x18);
    let x19 = 0x1fd32c71c821d0b4ae36e24feae350b3nat;
    let e19 = 2 * e18 + 1;
    lemma_power_mod_square_times(3nat, e18, n, x18, 0x15cb2b3184ab2dde005d48011980669d8nat, x19);
    let x20 = 0x65cc0b5342c5b79e9f10bc11bc049675nat;
    let e20 = 2 * e19 + 1;
    lemma_power_mod_square_times(3nat, e19, n, x19, 0xfce793a3c6c39dc230d632583271816nat, x20);
    let x21 = 0x52967a051b5e897fca729e82fca67cddnat;
    let e21 = 2 * e20;
    lemma_power_mod_square(3nat, e20, n, x20, 0x35e86778636f6fefe5787fc26b011c3cnat, x21);
    let x22 = 0x4d5ce462166620a2e9077592c8907f8dnat;
    let e22 = 2 * e21;
    lemma_power_mod_square(3nat, e21, n, x21, 0x237b8009baf263299647febe09cc35dcnat, x22);
    let x23 = 0x564ae7233a3f9078158b9f97b7be31fenat;
    let e23 = 2 * e22;
    lemma_power_mod_square(3nat, e22, n, x22, 0x1f2284406134ff007af35dd44d101ef3nat, x23);
    let x24 = 0xb152d58531de48a611721bd912f2c47bnat;
    let e24 = 2 * e23 + 1;
    lemma_power_mod_square_times(3nat, e23, n, x23, 0x74362fcea853d873c3e06d00a29974e9nat, x24);
    let x25 = 0x2ee3b982036aba1265a12771cabe564cnat;
    let e25 = 2 * e24;
    lemma_power_mod_square(3nat, e24, n, x24, 0xa392f5013e7faa5207a703425bf65cc5nat, x25);
    let x26 = 0x9638570896e95ae0ec609250d19905benat;
    let e26 = 2 * e25;
    lemma_power_mod_square(3nat, e25, n, x25, 0xb70044a04d422191e866eab308b4002nat, x26);
    let x27 = 0x1ab2653c904574dc81f64becdb913dcdnat;
    let e27 = 2 * e26;
    lemma_power_mod_square(3nat, e26, n, x26, 0x756447502a8caeda38046d25c3915a9fnat, x27);
    let x28 = 0x870525db3dff7481155cae9e1018d2a8nat;
    let e28 = 2 * e27 + 1;
    lemma_power_mod_square_times(3nat, e27, n, x27, 0xb1f7eb9606b87b2c53456e8b15616dbnat, x28);
    let x29 = 0xb2d99d8c71aa0acb5ae8fe0c7fcdf08fnat;
    let e29 = 2 * e28;
    lemma_power_mod_square(3nat, e28, n, x28, 0x5ed64dda9a0226c6b011784892b79a09nat, x29);
    let x30 = 0x2e1cbada9170b3a660304f1551d56b37nat;
    let e30 = 2 * e29;
    lemma_power_mod_square(3nat, e29, n, x29, 0xa6670570feac70c3c0560ea5e6c18a1anat, x30);
    let x31 = 0x1fdc0c4b354aaba016f2f6321be59056nat;
    let e31 = 2 * e30;
    lemma_power_mod_square(3nat, e30, n, x30, 0xb0fbdd82783bf7e769d4a29cb907a43nat, x31);
    let x32 = 0x4901d6486709d26d51faa2a00f3ae75nat;
    let e32 = 2 * e31;
    lemma_power_mod_square(3nat, e31, n, x31, 0x547c3ba6ecbebe0bb44a2c7e69bcd17nat, x32);
}

proof fn lemma_power_255515944373312847190720520512484175977_over_4423_part_2()
    requires
        power_mod(3nat, 0x16408b74426f0b110nat, 0xc03a94b2d3e64419a05cd8ccbf987069nat) == 0x4901d6486709d26d51faa2a00f3ae75nat,
    ensures
        power_mod(3nat, 0x16408b74426f0b1107f8b0823nat, 0xc03a94b2d3e64419a05cd8ccbf987069nat) == 0x6a4980fa0e1ccebc4db4ad07e9a346ecnat,
{
    let n = 0xc03a94b2d3e64419a05cd8ccbf987069nat;
    let e0 = 0x16408b74426f0b110nat;
    let x0 = 0x4901d6486709d26d51faa2a00f3ae75nat;
    let x1 = 0x26312e690f502f5a2908f948390f14bcnat;
    let e1 = 2 * e0;
    lemma_power_mod_square(3nat, e0, n, x0, 0x1bba4537e764424188e163dececf35nat, x1);
    let x2 = 0xfc9172902e5cfce4febdeec12c1c339nat;
    let e2 = 2 * e1 + 1;
    lemma_power_mod_square_times(3nat, e1, n, x1, 0x16c39ada87887b49b26a32bc9313a45fnat, x2);
    let x3 = 0x11eb47ffa67ec0f7fdac1c001444b8d5nat;
    let e3 = 2 * e2 + 1;
    lemma_power_mod_square_times(3nat, e2, n, x2, 0x3e38af112d71e4b4c319aec80db4d8enat, x3);
    let x4 = 0x5b93572a61ce3086d650581769e6daaenat;
    let e4 = 2 * e3 + 1;
    lemma_power_mod_square_times(3nat, e3, n, x3, 0x502d7ccd27e9497a942511ac89e0175nat, x4);
    let x5 = 0x68858f60f5f4f1a7a6e7e3d660a3daf6nat;
    let e5 = 2 * e4 + 1;
    lemma_power_mod_square_times(3nat, e4, n, x4, 0x82e0649ad0169ff1a20060672816d666nat, x5);
    let x6 = 0x443c45f0e08cec3bba556b9a7fc684e8nat;
    let e6 = 2 * e5 + 1;
    lemma_power_mod_square_times(3nat, e5, n, x5, 0xaa7f2396136d73b8b95fc5d46c875da4nat, x6);
    let x7 = 0x2310dc783ff09e50cfa49811f6e38971nat;
    let e7 = 2 * e6 + 1;
    lemma_power_mod_square_times(3nat, e6, n, x6, 0x48aa21b7a088034e1eb119ea5d5f78f7nat, x7);
    let x8 = 0xba9d43ccd012cd4bbab314f639780431nat;
    let e8 = 2 * e7 + 1;
    lemma_power_mod_square_times(3nat, e7, n, x7, 0x13309ab3fc5942457d3b7783100e7da2nat, x8);
    let x9 = 0x595d8edda6273ba410945b061d860adcnat;
    let e9 = 2 * e8 + 1;
    lemma_power_mod_square_times(3nat, e8, n, x8, 0x21f7dc99ca99c9453b3aed979a1f1162fnat, x9);
    let x10 = 0xbc2372babbe3a0bba3b37cd40bf2ea00nat;
    let e10 = 2 * e9;
    lemma_power_mod_square(3nat, e9, n, x9, 0x298b925dcea88c50566b32b772fc8890nat, x10);
    let x11 = 0x6d74fe8776b609028f642f2885439b10nat;
    let e11 = 2 * e10;
    lemma_power_mod_square(3nat, e10, n, x10, 0xb82298d4c73553845cb809ea336e9f70nat, x11);
    let x12 = 0x56386d7e4ac720cc7aedecad2874580cnat;
    let e12 = 2 * e11;
    lemma_power_mod_square(3nat, e11, n, x11, 0x3e536ed02d7436372a1a0fc12ba522d4nat, x12);
    let x13 = 0x8b539761556f573ad2d1287024334e13nat;
    let e13 = 2 * e12 + 1;
    lemma_power_mod_square_times(3nat, e12, n, x12, 0x740472271ea93c4373d9027d347b0315nat, x13);
    let x14 = 0x875c536a161ebc257788f5c5bdd2518cnat;
    let e14 = 2 * e13;
    lemma_power_mod_square(3nat, e13, n, x13, 0x64fbb2ab90dd007588a14c217c444955nat, x14);
    let x15 = 0x33c11b9dd25e5c8c48aeac107d14b5c2nat;
    let e15 = 2 * e14 + 1;
    lemma_power_mod_square_times(3nat, e14, n, x14, 0x11df2c64bc14ebe230cc9e7775d27fabenat, x15);
    let x16 = 0x119e0da46188eb7c9581ab73bd3941d9nat;
    let e16 = 2 * e15 + 1;
    lemma_power_mod_square_times(3nat, e15, n, x15, 0x29cd49a00d7fbeee7e851d8b8542d33bnat, x16);
    let x17 = 0x6d0c7edf4aa8ea80e046a09da4c352banat;
    let e17 = 2 * e16;
    lemma_power_mod_square(3nat, e16, n, x16, 0x19d5669580a29b70befc7a09cc1d69fnat, x17);
    let x18 = 0x2543c22697f69f9bb5ae48b9447ef5f2nat;
    let e18 = 2 * e17;
    lemma_power_mod_square(3nat, e17, n, x17, 0x3ddca64d1c3310b5f8c3ff90c5ba0962nat, x18);
    let x19 = 0x6d800f46a2f920a16b7614f4b26b231bnat;
    let e19 = 2 * e18;
    lemma_power_mod_square(3nat, e18, n, x18, 0x739567e169b3fa31cdbf7a97088b341nat, x19);
    let x20 = 0x8c68d18eee87d68943a63cf7bee09c0dnat;
    let e20 = 2 * e19;
    lemma_power_mod_square(3nat, e19, n, x19, 0x3e600970440b1be952d30c751fe3e8ecnat, x20);
    let x21 = 0x4d77606de88bc2c64b7dc6aa43246062nat;
    let e21 = 2 * e20 + 1;
    lemma_power_mod_square_times(3nat, e20, n, x20, 0x133ad607e60138689366fad0330dbc9b1nat, x21);
    let x22 = 0xb4ffee58ab15e09b7fc94a68a7232e46nat;
    let e22 = 2 * e21;
    lemma_power_mod_square(3nat, e21, n, x21, 0x1f37d92f79df9ac65336c4278783958enat, x22);
    let x23 = 0xe83dd6a5f465d0a09eb7cd789069454nat;
    let e23 = 2 * e22;
    lemma_power_mod_square(3nat, e22, n, x22, 0xaa6d34671b516642086d609a21ea9650nat, x23);
    let x24 = 0xa93f574da7b1dc0a92f447afbbe4e2cenat;
    let e24 = 2 * e23;
    lemma_power_mod_square(3nat, e23, n, x23, 0x118953eedaa62519fafcae1c13eba72nat, x24);
    let x25 = 0xb0dc87b38ea3207d59834add08af97b6nat;
    let e25 = 2 * e24;
    lemma_power_mod_square(3nat, e24, n, x24, 0x950374cd6a1f207851a42f13b27b93denat, x25);
    let x26 = 0x1f7a6bccc8960082deda21b5272e66canat;
    let e26 = 2 * e25;
    lemma_power_mod_square(3nat, e25, n, x25, 0xa2b8fad9497bbf742a9225598cf0c68anat, x26);
    let x27 = 0x8a45f71254ed2cfa7c1dc854ff5c608cnat;
    let e27 = 2 * e26 + 1;
    lemma_power_mod_square_times(3nat, e26, n, x26, 0xf76cabd87e67c52fcfa476cb10084a0nat, x27);
    let x28 = 0x37aeb661e796773a2555acd208db51ddnat;
    let e28 = 2 * e27;
    lemma_power_mod_square(3nat, e27, n, x27, 0x637653e2a7437d64faf743f2be792ebbnat, x28);
    let x29 = 0x73984314302cd1ba196cc5057e644cc6nat;
    let e29 = 2 * e28;
    lemma_power_mod_square(3nat, e28, n, x28, 0x102120f8d0f3dc495e513fdc7b27cb8bnat, x29);
    let x30 = 0xbfdc75c91de09d864080291e32dbc1c7nat;
    let e30 = 2 * e29;
    lemma_power_mod_square(3nat, e29, n, x29, 0x4582fe5d42b4e2fa51bd8c9df041e0d5nat, x30);
    let x31 = 0x5628cb2b2d17fdd2da1ead7cffe47f89nat;
    let e31 = 2 * e30 + 1;
    lemma_power_mod_square_times(3nat, e30, n, x30, 0x23e7b8edee6693e31dec0a1e6daf894fanat, x31);
    let x32 = 0x6a4980fa0e1ccebc4db4ad07e9a346ecnat;
    let e32 = 2 * e31 + 1;
    lemma_power_mod_square_times(3nat, e31, n, x31, 0x73da62fd090e5c9bf429e45cf77665efnat, x32);
}

proof fn lemma_power_255515944373312847190720520512484175977_over_4423_part_3()
    requires
        power_mod(3nat, 0x16408b74426f0b1107f8b0823nat, 0xc03a94b2d3e64419a05cd8ccbf987069nat) == 0x6a4980fa0e1ccebc4db4ad07e9a346ecnat,
    ensures
        power_mod(3nat, 0xb2045ba2137858883fc5841198058nat, 0xc03a94b2d3e64419a05cd8ccbf987069nat) == 0x3ebe1e0217f4137797f3599e73fa1cf5nat,
{
    let n = 0xc03a94b2d3e64419a05cd8ccbf987069nat;
    let e0 = 0x16408b74426f0b1107f8b0823nat;
    let x0 = 0x6a4980fa0e1ccebc4db4ad07e9a346ecnat;
    let x1 = 0x947d11a67b607bb3dacd8280e367c032nat;
    let e1 = 2 * e0;
    lemma_power_mod_square(3nat, e0, n, x0, 0x3ac4ac4acc70ca888a1b6b8fd0e372aenat, x1);
    let x2 = 0x27ca23cc7e8904be64f553bb961def22nat;
    let e2 = 2 * e1;
    lemma_power_mod_square(3nat, e1, n, x1, 0x72b3784ccd07fb01a462b8ff8f693152nat, x2);
    let x3 = 0xb0e77fe79d8147f9ca9365f84a4fd5b4nat;
    let e3 = 2 * e2 + 1;
    lemma_power_mod_square_times(3nat, e2, n, x2, 0x18b5502af5a419b41408c82ca165d218nat, x3);
    let x4 = 0x69f8b9c80a3b77944c1382ef7ce8d94enat;
    let e4 = 2 * e3 + 1;
    lemma_power_mod_square_times(3nat, e3, n, x3, 0x1e86780a9fb0791c4fa85884c4db95b12nat, x4);
    let x5 = 0x842943733cc6ecdb6c053c31197ee5b2nat;
    let e5 = 2 * e4;
    lemma_power_mod_square(3nat, e4, n, x4, 0x3a6b7a5d352199c137a4c0a5dfef7b42nat, x5);
    let x6 = 0x34d9f4ea5e5677a47c3d3b5b5990cf31nat;
    let e6 = 2 * e5;
    lemma_power_mod_square(3nat, e5, n, x5, 0x5add0c773af9aabe292a57d9de98699bnat, x6);
    let x7 = 0x22c7830a820154b5dd2c6b4760cf356fnat;
    let e7 = 2 * e6;
    lemma_power_mod_square(3nat, e6, n, x6, 0xe87ed1a831f8d0db330bea64bec8422nat, x7);
    let x8 = 0x43ad904a53e597a953c52a604b88b7aenat;
    let e8 = 2 * e7;
    lemma_power_mod_square(3nat, e7, n, x7, 0x64ae23bc872171d8cdf546685018c7bnat, x8);
    let x9 = 0x15f3f8fa14a10406959b0eb4c46a6c93nat;
    let e9 = 2 * e8;
    lemma_power_mod_square(3nat, e8, n, x8, 0x17d3cf299cae3862adbaa8565789ca09nat, x9);
    let x10 = 0x8dc863cff19210c9baa58e34fcb977f5nat;
    let e10 = 2 * e9;
    lemma_power_mod_square(3nat, e9, n, x9, 0x281d0a76c87236995746efde3b9b254nat, x10);
    let x11 = 0x137f822b7bedde346c955dd1c8abae44nat;
    let e11 = 2 * e10;
    lemma_power_mod_square(3nat, e10, n, x10, 0x68933b9ca9640b9df5136ca1a50649ednat, x11);
    let x12 = 0x2ec70b5827c846de418a1b15d375144cnat;
    let e12 = 2 * e11;
    lemma_power_mod_square(3nat, e11, n, x11, 0x1fa4bf76d70f719ed6e8cf85162c724nat, x12);
    let x13 = 0x760ae21976f44485cda069292077248fnat;
    let e13 = 2 * e12 + 1;
    lemma_power_mod_square_times(3nat, e12, n, x12, 0x2226200d11ba137351e81ca7a6b701f9nat, x13);
    let x14 = 0x44fa02931735b889aa1b79c91ee288f6nat;
    let e14 = 2 * e13;
    lemma_power_mod_square(3nat, e13, n, x13, 0x487c98c0db9aca153b0f158ba6a98a33nat, x14);
    let x15 = 0x59a0353223d1f05bad94d6977eb6417anat;
    let e15 = 2 * e14 + 1;
    lemma_power_mod_square_times(3nat, e14, n, x14, 0x4a406e79d1992afa9b140f5a39b94fe2nat, x15);
    let x16 = 0x60fad80a7edbd50233078a59b5ed0555nat;
    let e16 = 2 * e15 + 1;
    lemma_power_mod_square_times(3nat, e15, n, x15, 0x7d5ce52c0172ef3c7729ac45c45a997fnat, x16);
    let x17 = 0x53817d54b4a95637cf3bb2410ca6b94dnat;
    let e17 = 2 * e16;
    lemma_power_mod_square(3nat, e16, n, x16, 0x30ed3237ce7bd929e33d11b313d0f00cnat, x17);
    let x18 = 0xb5335975d74fabc95e1dbe49ebf60ea6nat;
    let e18 = 2 * e17;
    lemma_power_mod_square(3nat, e17, n, x17, 0x24468f9d12e54cb0c03992067b3dce0bnat, x18);
    let x19 = 0x3ebe1e0217f4137797f3599e73fa1cf5nat;
    let e19 = 2 * e18;
    lemma_power_mod_square(3nat, e18, n, x18, 0xaace1687c848be5b8d81a9e6cbfbcb57nat, x19);
}

proof fn lemma_power_255515944373312847190720520512484175977_over_4423()
    ensures
        power_mod(3nat, 0xb2045ba2137858883fc5841198058nat, 0xc03a94b2d3e64419a05cd8ccbf987069nat) == 0x3ebe1e0217f4137797f3599e73fa1cf5nat,
{
    lemma_power_mod_first(3nat, 0xc03a94b2d3e64419a05cd8ccbf987069nat);
    lemma_power_255515944373312847190720520512484175977_over_4423_part_0();
    lemma_power_255515944373312847190720520512484175977_over_4423_part_1();
    lemma_power_255515944373312847190720520512484175977_over_4423_part_2();
    lemma_power_255515944373312847190720520512484175977_over_4423_part_3();
}

proof fn lemma_power_255515944373312847190720520512484175977_over_41201_part_0()
    requires
        power_mod(3nat, 1nat, 0xc03a94b2d3e64419a05cd8ccbf987069nat) == 3nat,
    ensures
        power_mod(3nat, 0x131c45e23nat, 0xc03a94b2d3e64419a05cd8ccbf987069nat) == 0x574af9b114fc74fe0cc2bf4d73553de5nat,
{
    let n = 0xc03a94b2d3e64419a05cd8ccbf987069nat;
    let e0 = 1nat;
    let x0 = 3nat;
    let x1 = 9nat;
    let e1 = 2 * e0;
    lemma_power_mod_square(3nat, e0, n, x0, 0nat, x1);
    let x2 = 81nat;
    let e2 = 2 * e1;
    lemma_power_mod_square(3nat, e1, n, x1, 0nat, x2);
    let x3 = 19683nat;
    let e3 = 2 * e2 + 1;
    lemma_power_mod_square_times(3nat, e2, n, x2, 0nat, x3);
    let x4 = 0x4546b3dbnat;
    let e4 = 2 * e3 + 1;
    lemma_power_mod_square_times(3nat, e3, n, x3, 0nat, x4);
    let x5 = 0x12bf307ae81ffd59nat;
    let e5 = 2 * e4;
    lemma_power_mod_square(3nat, e4, n, x4, 0nat, x5);
    let x6 = 0x15f719aa939316a9ec6d804a64708f1nat;
    let e6 = 2 * e5;
    lemma_power_mod_square(3nat, e5, n, x5, 0nat, x6);
    let x7 = 0xa223be3dcd1cec8165d1448eb96d7090nat;
    let e7 = 2 * e6;
    lemma_power_mod_square(3nat, e6, n, x6, 0x28287961e47dd9088c174ed5245a9nat, x7);
    let x8 = 0x9abbdb84c59b471928273b36c9bb5466nat;
    let e8 = 2 * e7 + 1;
    lemma_power_mod_square_times(3nat, e7, n, x7, 0x19a47d8f01af9ec436969e3f1b93a168anat, x8);
    let x9 = 0xd6bff8e27ecfddb62e2630c574b4219nat;
    let e9 = 2 * e8 + 1;
    lemma_power_mod_square_times(3nat, e8, n, x8, 0x175a8364ff575fb57ed089b0faac72edbnat, x9);
    let x10 = 0x88c3401723aa73523b7fc63e5b352994nat;
    let e10 = 2 * e9 + 1;
    lemma_power_mod_square_times(3nat, e9, n, x9, 0x2cfba77d860366e3153d6c77f6de3e7nat, x10);
    let x11 = 0x72afd90340585f5c3ae647ade5cc2ca5nat;
    let e11 = 2 * e10;
    lemma_power_mod_square(3nat, e10, n, x10, 0x614d06b9aed9d3ee88b4068e77a74c33nat, x11);
    let x12 = 0x534c7928a2ac145efc5a04529d9b7cafnat;
    let e12 = 2 * e11;
    lemma_power_mod_square(3nat, e11, n, x11, 0x446c924ccccf824e1c055805f671031anat, x12);
    let x13 = 0x5f860bee4e5869a1072fffe9bbbe464enat;
    let e13 = 2 * e12;
    lemma_power_mod_square(3nat, e12, n, x12, 0x24188e8115d2fdc084c780b8bbcf245bnat, x13);
    let x14 = 0xad32d8ddb420f50c192cbb00d8e79107nat;
    let e14 = 2 * e13 + 1;
    lemma_power_mod_square_times(3nat, e13, n, x13, 0x8e679942a6922e0848fb7fb14b26137dnat, x14);
    let x15 = 0x6f92d51c279e2224cf0bc7c2d84d5b37nat;
    let e15 = 2 * e14;
    lemma_power_mod_square(3nat, e14, n, x14, 0x9c0d675e8823ff97c96d2fa1e375dbeanat, x15);
    let x16 = 0x332cf7ccf94372f88a4e19e38a74bc06nat;
    let e16 = 2 * e15;
    lemma_power_mod_square(3nat, e15, n, x15, 0x40c2747830aae388e6cd7e8a86664213nat, x16);
    let x17 = 0x37f813fb73af84c4f1eb684fb0771ae2nat;
    let e17 = 2 * e16;
    lemma_power_mod_square(3nat, e16, n, x16, 0xd9fc606b705017c3ca8eedb788da2f2nat, x17);
    let x18 = 0xbc701b022907a1f3914844091dae809anat;
    let e18 = 2 * e17 + 1;
    lemma_power_mod_square_times(3nat, e17, n, x17, 0x30e339725d0d87eb505e275b1415a022nat, x18);
    let x19 = 0xb340e81751c7cd1f765f827272a3e3fanat;
    let e19 = 2 * e18;
    lemma_power_mod_square(3nat, e18, n, x18, 0xb8b8c4cdd44aec0f0b45d6466e98de1anat, x19);
    let x20 = 0xb48b2e9f4555be88c6db3cf731c629bnat;
    let e20 = 2 * e19 + 1;
    lemma_power_mod_square_times(3nat, e19, n, x19, 0x1f57653f8f15c33d47c993ef4849f8529nat, x20);
    let x21 = 0x6a265265ea68704c0026b339fee29d2bnat;
    let e21 = 2 * e20 + 1;
    lemma_power_mod_square_times(3nat, e20, n, x20, 0x1fcb4defb4ae611e2faae68ac4e7160nat, x21);
    let x22 = 0xac50bcce17e130e40a0a59393fb19204nat;
    let e22 = 2 * e21 + 1;
    lemma_power_mod_square_times(3nat, e21, n, x21, 0xafd960b34c9d511f2081f99b71fefb8fnat, x22);
    let x23 = 0x708beac61d2a34373c6143c8c7fd8833nat;
    let e23 = 2 * e22 + 1;
    lemma_power_mod_square_times(3nat, e22, n, x22, 0x1cf64f9f4fe30bd4005ee9a60d7698875nat, x23);
    let x24 = 0xae81d06cdf9f8d241316e20a184c9ae4nat;
    let e24 = 2 * e23;
    lemma_power_mod_square(3nat, e23, n, x23, 0x41e4dd07a10a85626050e409cbab5c7dnat, x24);
    let x25 = 0x1eb2f153b9c0ab583081f866200dfb64nat;
    let e25 = 2 * e24;
    lemma_power_mod_square(3nat, e24, n, x24, 0x9e6b4bc52444be52a99dc7009aa1acccnat, x25);
    let x26 = 0x27eaa238de6adb276ef6aff227e5ec4enat;
    let e26 = 2 * e25;
    lemma_power_mod_square(3nat, e25, n, x25, 0x4e71340f92d429744c9aae80c2aa472nat, x26);
    let x27 = 0x2f003f85f35639227c668427a50afb27nat;
    let e27 = 2 * e26 + 1;
    lemma_power_mod_square_times(3nat, e26, n, x26, 0x18ddbbabb9e612fbb046c8914a9bf65dnat, x27);
    let x28 = 0xb88a32df5c50bf0dc97f338b6facd145nat;
    let e28 = 2 * e27;
    lemma_power_mod_square(3nat, e27, n, x27, 0xb7df2d1dacd50bea6e7485769eee3ccnat, x28);
    let x29 = 0x60802e2ff85b4449c42523f6a36e03f3nat;
    let e29 = 2 * e28;
    lemma_power_mod_square(3nat, e28, n, x28, 0xb1288cdbcf67c64d400911731e639eb6nat, x29);
    let x30 = 0xbb4d358c338d8f437fb8ffa24c90ae84nat;
    let e30 = 2 * e29;
    lemma_power_mod_square(3nat, e29, n, x29, 0x3071bbe2b734bb0f6caf88b1a49ef45dnat, x30);
    let x31 = 0x484951689819d475e088da5cf96204aanat;
    let e31 = 2 * e30 + 1;
    lemma_power_mod_square_times(3nat, e30, n, x30, 0x2238081e2c21658e29d9efe4300f22a96nat, x31);
    let x32 = 0x574af9b114fc74fe0cc2bf4d73553de5nat;
    let e32 = 2 * e31 + 1;
    lemma_power_mod_square_times(3nat, e31, n, x31, 0x518c6996b3f5fda93888e9f0b07025afnat, x32);
}

proof fn lemma_power_255515944373312847190720520512484175977_over_41201_part_1()
    requires
        power_mod(3nat, 0x131c45e23nat, 0xc03a94b2d3e64419a05cd8ccbf987069nat) == 0x574af9b114fc74fe0cc2bf4d73553de5nat,
    ensures
        power_mod(3nat, 0x131c45e23872017d1nat, 0xc03a94b2d3e64419a05cd8ccbf987069nat) == 0xba3debd57cc42822706e16ab9626e99fnat,
{
    let n = 0xc03a94b2d3e64419a05cd8ccbf987069nat;
    let e0 = 0x131c45e23nat;
    let x0 = 0x574af9b114fc74fe0cc2bf4d73553de5nat;
    let x1 = 0x249d091409c4338855b506a1cf428cb7nat;
    let e1 = 2 * e0 + 1;
    lemma_power_mod_square_times(3nat, e0, n, x0, 0x76ebe5fc952fe201c951616b12f8c6b4nat, x1);
    let x2 = 0xa702a4b94d8fe59a66ed256947fc0261nat;
    let e2 = 2 * e1;
    lemma_power_mod_square(3nat, e1, n, x1, 0x6f94324c7365d9991fcea66872c56f0nat, x2);
    let x3 = 0x6ab334d11b520e8ad3b6cc0bd3571f80nat;
    let e3 = 2 * e2;
    lemma_power_mod_square(3nat, e2, n, x2, 0x9119a920516204b720bb1b2bc3153719nat, x3);
    let x4 = 0x481f75b2a70a0bd4cb570f3714a2b65dnat;
    let e4 = 2 * e3;
    lemma_power_mod_square(3nat, e3, n, x3, 0x3b39ca41f3d27e69630718e7dd38682bnat, x4);
    let x5 = 0x7907d327b9e53ff5855d70f13741d61cnat;
    let e5 = 2 * e4;
    lemma_power_mod_square(3nat, e4, n, x4, 0x1b0f5bd4d3effa828642ce56d986f4a5nat, x5);
    let x6 = 0xfb51326e94e21e3fbb2db166caad396nat;
    let e6 = 2 * e5 + 1;
    lemma_power_mod_square_times(3nat, e5, n, x5, 0xe49bd742618299e9e68da6baef3f058anat, x6);
    let x7 = 0x324e9c599e6357943d2b7369f60174c5nat;
    let e7 = 2 * e6 + 1;
    lemma_power_mod_square_times(3nat, e6, n, x6, 0x3d9b48b512ef5835d7e49ef2a6a6acfnat, x7);
    let x8 = 0x662c08a6ab806f655d5fb50504624c3anat;
    let e8 = 2 * e7 + 1;
    lemma_power_mod_square_times(3nat, e7, n, x7, 0x277f27da7308d0a385f9f3e0eb984be9nat, x8);
    let x9 = 0x3851c1096d64f89a30cf46d0522c6300nat;
    let e9 = 2 * e8;
    lemma_power_mod_square(3nat, e8, n, x8, 0x364e4197ab78df242e549a245dae8484nat, x9);
    let x10 = 0x4c3396dcec9428827839d238ba1bfcanat;
    let e10 = 2 * e9;
    lemma_power_mod_square(3nat, e9, n, x9, 0x10801feeb022c3494ea6f3710293f7c6nat, x10);
    let x11 = 0xbceeb0792004bdfa8de4de174824cb2anat;
    let e11 = 2 * e10 + 1;
    lemma_power_mod_square_times(3nat, e10, n, x10, 0x5a9f09a89bc20cfba0401dc6eefeb2nat, x11);
    let x12 = 0x8c4093193cd4dd8e7af9fe175f9186f6nat;
    let e12 = 2 * e11;
    lemma_power_mod_square(3nat, e11, n, x11, 0xb9b144f63f08b964c5072597728b7ebenat, x12);
    let x13 = 0xb433f4c7d9a09a6ad1870e909b8e6914nat;
    let e13 = 2 * e12;
    lemma_power_mod_square(3nat, e12, n, x12, 0x66545e2a85a7150c8f16786f14cc46d0nat, x13);
    let x14 = 0x357ed75e24a858f070856aeccdf899c5nat;
    let e14 = 2 * e13;
    lemma_power_mod_square(3nat, e13, n, x13, 0xa8edee513db1e738d91414a744b5b813nat, x14);
    let x15 = 0xb423e4988843530b003ae8b6931be9fenat;
    let e15 = 2 * e14;
    lemma_power_mod_square(3nat, e14, n, x14, 0xee32537639d4f0bb7666a3aa33a5763nat, x15);
    let x16 = 0x35ec93cc1d7b4f600e61cc73b4f62c10nat;
    let e16 = 2 * e15;
    lemma_power_mod_square(3nat, e15, n, x15, 0xa8cfd1ceeeb9ac5f892c9f86eab5cdd4nat, x16);
    let x17 = 0xad7d77e8c3f37b483836c7ebedbabc0nat;
    let e17 = 2 * e16;
    lemma_power_mod_square(3nat, e16, n, x16, 0xf207793e5849a018023b41216188340nat, x17);
    let x18 = 0x7dc4b9e5fa346ea30e5ab769a3e71f1anat;
    let e18 = 2 * e17;
    lemma_power_mod_square(3nat, e17, n, x17, 0x9c93fc1bd2591790c98fdd65420cf6nat, x18);
    let x19 = 0x5d54e7c9bf2e628fd146112a502a431fnat;
    let e19 = 2 * e18;
    lemma_power_mod_square(3nat, e18, n, x18, 0x52492b204b00bdddd8913bb6df0bdebdnat, x19);
    let x20 = 0x173d6d485f8332c63f4fb44b4f8e8c6enat;
    let e20 = 2 * e19 + 1;
    lemma_power_mod_square_times(3nat, e19, n, x19, 0x87f1b7f83316d941ca2b5dff3d68cb8dnat, x20);
    let x21 = 0x7831d690853bcda03986944c3aca0612nat;
    let e21 = 2 * e20;
    lemma_power_mod_square(3nat, e20, n, x20, 0x2cf450bc708b47407da55f02541c962nat, x21);
    let x22 = 0x37156aa148f3c1d2bcf9d2a65b39c57dnat;
    let e22 = 2 * e21 + 1;
    lemma_power_mod_square_times(3nat, e21, n, x21, 0xe17641172b4c64ecaf1d5e3456aba9f7nat, x22);
    let x23 = 0x282482c6860a024687f6bcb05e135af9nat;
    let e23 = 2 * e22 + 1;
    lemma_power_mod_square_times(3nat, e22, n, x22, 0x2f5a63ca9eb1e93649cf1b0853a76cd2nat, x23);
    let x24 = 0x7eea16c925e923437e3e50f8d37a1063nat;
    let e24 = 2 * e23 + 1;
    lemma_power_mod_square_times(3nat, e23, n, x23, 0x19260bfe9cec1e6e289220c72b49aab0nat, x24);
    let x25 = 0xaa40be0d961df9b871ba322afc35a878nat;
    let e25 = 2 * e24 + 1;
    lemma_power_mod_square_times(3nat, e24, n, x24, 0xfb605f7814f92afa46c7621dcb17aaebnat, x25);
    let x26 = 0x6ff405c5f5bef51f93e88b4d844b3ac5nat;
    let e26 = 2 * e25 + 1;
    lemma_power_mod_square_times(3nat, e25, n, x25, 0x1c45e2db01767a362b7f47c45a3f41ec3nat, x26);
    let x27 = 0xb3d9c3f44eab90147e2cb3c7c8c89e1dnat;
    let e27 = 2 * e26;
    lemma_power_mod_square(3nat, e26, n, x26, 0x4133781ae1c17b843beb08547321221cnat, x27);
    let x28 = 0xa7f80d9d498a2df38302046b29b5acfanat;
    let e28 = 2 * e27 + 1;
    lemma_power_mod_square_times(3nat, e27, n, x27, 0x1f8ceff9823650febc8d6b9a57953bdb9nat, x28);
    let x29 = 0x2a33a15938ed72a81de5b5df021a9624nat;
    let e29 = 2 * e28;
    lemma_power_mod_square(3nat, e28, n, x28, 0x92c550366d5f44ec6111ee68866e1e00nat, x29);
    let x30 = 0xadead21110d718574aec936aa5fc8abdnat;
    let e30 = 2 * e29;
    lemma_power_mod_square(3nat, e29, n, x29, 0x943d0cff7047005fc4fa415a10d6d5bnat, x30);
    let x31 = 0x5d51a637e10d0b69cad70e8cb17bdb69nat;
    let e31 = 2 * e30;
    lemma_power_mod_square(3nat, e30, n, x30, 0x9d599cd0afca2251bc4380d2cfde4f20nat, x31);
    let x32 = 0xba3debd57cc42822706e16ab9626e99fnat;
    let e32 = 2 * e31 + 1;
    lemma_power_mod_square_times(3nat, e31, n, x31, 0x87e83bd3d2766fe4dc762d9442168a74nat, x32);
}

proof fn lemma_power_255515944373312847190720520512484175977_over_41201_part_2()
    requires
        power_mod(3nat, 0x131c45e23872017d1nat, 0xc03a94b2d3e64419a05cd8ccbf987069nat) == 0xba3debd57cc42822706e16ab9626e99fnat,
    ensures
        power_mod(3nat, 0x131c45e23872017d1ec621a4fnat, 0xc03a94b2d3e64419a05cd8ccbf987069nat) == 0x60ac1d394ec99de9576a25e0c4efc52bnat,
{
    let n = 0xc03a94b2d3e64419a05cd8ccbf987069nat;
    let e0 = 0x131c45e23872017d1nat;
    let x0 = 0xba3debd57cc42822706e16ab9626e99fnat;
    let x1 = 0x83ccf52fe5d5e3d2c6b83a128cbd4425nat;
    let e1 = 2 * e0 + 1;
    lemma_power_mod_square_times(3nat, e0, n, x0, 0x21d52fd0d3fc2c1d2d7f79eac4e83b96enat, x1);
    let x2 = 0x6421f2431706da6b8b90ce71311193aenat;
    let e2 = 2 * e1 + 1;
    lemma_power_mod_square_times(3nat, e1, n, x1, 0x10f1ae4af2ae651aa2939ac35907ce5d5nat, x2);
    let x3 = 0x3cae1588bdb39638f15850d7950cbeddnat;
    let e3 = 2 * e2 + 1;
    lemma_power_mod_square_times(3nat, e2, n, x2, 0x9c7a68e89cdfff18b18db24f8f900297nat, x3);
    let x4 = 0x64dcf5a1b8c4fc65a7feaa4275a8561anat;
    let e4 = 2 * e3;
    lemma_power_mod_square(3nat, e3, n, x3, 0x1327932d07f104527a73d090d0741957nat, x4);
    let x5 = 0x1783c0abd50202ffd53b68e333a39ea7nat;
    let e5 = 2 * e4 + 1;
    lemma_power_mod_square_times(3nat, e4, n, x4, 0x9ec5094f35a4cf2aebf4a16006c0be7dnat, x5);
    let x6 = 0x318a746508dc45cc170409076fda5645nat;
    let e6 = 2 * e5 + 1;
    lemma_power_mod_square_times(3nat, e5, n, x5, 0x8a11fb0b5327ecdac0644e7928ea65enat, x6);
    let x7 = 0xa11902acc4017a18d64cf8f868cc1c60nat;
    let e7 = 2 * e6;
    lemma_power_mod_square(3nat, e6, n, x6, 0xcc47f56abb8cd12a35d5d3026609951nat, x7);
    let x8 = 0xbf4d8bffc1aca298c9e13c6f9ffc4a6cnat;
    let e8 = 2 * e7;
    lemma_power_mod_square(3nat, e7, n, x7, 0x8702193775469e19f0080ec744e95a74nat, x8);
    let x9 = 0x1106afdd3bcdcdcb0bb119f61f8893cbnat;
    let e9 = 2 * e8;
    lemma_power_mod_square(3nat, e8, n, x8, 0xbe61a794fc63092602f64d02145d22fdnat, x9);
    let x10 = 0x18bbed591f561e3ce00fc71847de2fa1nat;
    let e10 = 2 * e9 + 1;
    lemma_power_mod_square_times(3nat, e9, n, x9, 0x4862cc1e60c13773a8654f2b1b765banat, x10);
    let x11 = 0x6798d6d4cf68015ba2ba7fabbda249d8nat;
    let e11 = 2 * e10 + 1;
    lemma_power_mod_square_times(3nat, e10, n, x10, 0x98c301722a3332c0ed56855f946a333nat, x11);
    let x12 = 0x1ffb3a4e3bac69af294fb21a304a5b6enat;
    let e12 = 2 * e11;
    lemma_power_mod_square(3nat, e11, n, x11, 0x37d4c1fc25f62f1bbcb490a9b8af1a02nat, x12);
    let x13 = 0x3cdf5481f2660f1f3a1fb7e46221a79cnat;
    let e13 = 2 * e12;
    lemma_power_mod_square(3nat, e12, n, x12, 0x5521ea044d46675d75c2aad6acd6968nat, x13);
    let x14 = 0x52bbb4acde803ebb1158fa0bb1bdc608nat;
    let e14 = 2 * e13;
    lemma_power_mod_square(3nat, e13, n, x13, 0x1346b6f743fca5534815fda7141af7c8nat, x14);
    let x15 = 0xbeff702b53680b574945e7c300d6cee1nat;
    let e15 = 2 * e14 + 1;
    lemma_power_mod_square_times(3nat, e14, n, x14, 0x6ad28dd57b80e2a54c3a2ba848fd6707nat, x15);
    let x16 = 0x5fc85b2d7777c56cc33e6500d28e6978nat;
    let e16 = 2 * e15;
    lemma_power_mod_square(3nat, e15, n, x15, 0xbdc6504a14203c31960ecb481c8ecce1nat, x16);
    let x17 = 0x65a3b2eff2b74ed59b9de4426dc3b124nat;
    let e17 = 2 * e16;
    lemma_power_mod_square(3nat, e16, n, x16, 0x2fb9db87bfb453fba262e9535d84dabcnat, x17);
    let x18 = 0x12417d0cdeef52ab5b09c6584428b59bnat;
    let e18 = 2 * e17;
    lemma_power_mod_square(3nat, e17, n, x17, 0x35bdb4e5fc18f7e447b625cef9990d2dnat, x18);
    let x19 = 0x877b8fb458695c5f92d096d531093c8bnat;
    let e19 = 2 * e18;
    lemma_power_mod_square(3nat, e18, n, x18, 0x1bbd65d9266524d6d01b3f0ee08ab1enat, x19);
    let x20 = 0x11811c7d2f35b00277c6ce047ec35c3nat;
    let e20 = 2 * e19 + 1;
    lemma_power_mod_square_times(3nat, e19, n, x19, 0x11e76cdb9ebd22a53bac199590ab96a68nat, x20);
    let x21 = 0x22c64812c42b89365a3cad5096007976nat;
    let e21 = 2 * e20 + 1;
    lemma_power_mod_square_times(3nat, e20, n, x20, 0x4c82619d268d9a332d11e2fb3685dnat, x21);
    let x22 = 0x2d1be80e362f96b4ed04858a9a7b8928nat;
    let e22 = 2 * e21;
    lemma_power_mod_square(3nat, e21, n, x21, 0x64a7044ea9758cb664ae66e024bc7dcnat, x22);
    let x23 = 0xb6da520f29ea80897f9118702cf891acnat;
    let e23 = 2 * e22 + 1;
    lemma_power_mod_square_times(3nat, e22, n, x22, 0x1fc19a15b5ba5c6688f4c09b0127c5f4nat, x23);
    let x24 = 0x5188824105e59e2fa780925f859ec8bcnat;
    let e24 = 2 * e23;
    lemma_power_mod_square(3nat, e23, n, x23, 0xadef22353a32ff2c62b3d77728f391b4nat, x24);
    let x25 = 0xb5f0d43ad08478fa3ae7ea4380207c25nat;
    let e25 = 2 * e24;
    lemma_power_mod_square(3nat, e24, n, x24, 0x229501d41cff0bf37744636c5c6f0133nat, x25);
    let x26 = 0x6a50ccb1553385c82157a26b09dec75cnat;
    let e26 = 2 * e25 + 1;
    lemma_power_mod_square_times(3nat, e25, n, x25, 0x2049c1b655db167d57bf53de796061557nat, x26);
    let x27 = 0x53f62f7c86f174d196efea05f2338d58nat;
    let e27 = 2 * e26;
    lemma_power_mod_square(3nat, e26, n, x26, 0x3accbdf69872ed19630cd041e23b46f8nat, x27);
    let x28 = 0x273996ce4b62a8f12a0a4b662d8265d1nat;
    let e28 = 2 * e27;
    lemma_power_mod_square(3nat, e27, n, x27, 0x24ac399fbd5e28140fa641908ce73717nat, x28);
    let x29 = 0x56018d8ef6f6db0bd3d8fa63e1ba143fnat;
    let e29 = 2 * e28 + 1;
    lemma_power_mod_square_times(3nat, e28, n, x28, 0x18031017d867f46fead5f0de964fa804nat, x29);
    let x30 = 0x508ea5e63e6243222c01b6fba0bb9f16nat;
    let e30 = 2 * e29 + 1;
    lemma_power_mod_square_times(3nat, e29, n, x29, 0x7370f39daf14cb35b4723c106a8c0e65nat, x30);
    let x31 = 0xadb49a3fe2a6eadc1f95fbc3c309b269nat;
    let e31 = 2 * e30 + 1;
    lemma_power_mod_square_times(3nat, e30, n, x30, 0x6546f62769d43ed914e5def7981f4ccbnat, x31);
    let x32 = 0x60ac1d394ec99de9576a25e0c4efc52bnat;
    let e32 = 2 * e31 + 1;
    lemma_power_mod_square_times(3nat, e31, n, x31, 0x1d6e6b28023e7a08040742f8bdeba86c8nat, x32);
}

proof fn lemma_power_255515944373312847190720520512484175977_over_41201_part_3()
    requires
        power_mod(3nat, 0x131c45e23872017d1ec621a4fnat, 0xc03a94b2d3e64419a05cd8ccbf987069nat) == 0x60ac1d394ec99de9576a25e0c4efc52bnat,
    ensures
        power_mod(3nat, 0x131c45e23872017d1ec621a4ff6e8nat, 0xc03a94b2d3e64419a05cd8ccbf987069nat) == 0x82055547e2c26508587804c9ae70f0f5nat,
{
    let n = 0xc03a94b2d3e64419a05cd8ccbf987069nat;
    let e0 = 0x131c45e23872017d1ec621a4fnat;
    let x0 = 0x60ac1d394ec99de9576a25e0c4efc52bnat;
    let x1 = 0x36582f41ec8cdd6f5a08ff65932a9ca5nat;
    let e1 = 2 * e0 + 1;
    lemma_power_mod_square_times(3nat, e0, n, x0, 0x91d9a67f243db8425722293a14a54a16nat, x1);
    let x2 = 0x740a2a5d8f3c9f32503e3851a62eb849nat;
    let e2 = 2 * e1 + 1;
    lemma_power_mod_square_times(3nat, e1, n, x1, 0x2e173935e540adcbf4ab6847afb1c072nat, x2);
    let x3 = 0x6f3cefc07e5a593f15ac54668231bfa1nat;
    let e3 = 2 * e2 + 1;
    lemma_power_mod_square_times(3nat, e2, n, x2, 0xd224bd574238a51fdce36000911b3e02nat, x3);
    let x4 = 0x35daa50e2c65266476133531604ecd44nat;
    let e4 = 2 * e3 + 1;
    lemma_power_mod_square_times(3nat, e3, n, x3, 0xc11cae1a30dac8c2da0995f6164b88a7nat, x4);
    let x5 = 0x71187e57be8bd8dbe905ace2a78286a3nat;
    let e5 = 2 * e4;
    lemma_power_mod_square(3nat, e4, n, x4, 0xf1669a7f2505a8155e839f4cfc30a65nat, x5);
    let x6 = 0xb71b95cbdb1ca62702367b33a36a8b8dnat;
    let e6 = 2 * e5 + 1;
    lemma_power_mod_square_times(3nat, e5, n, x5, 0xc79d9ff9d433c2fdec7aefa073c09f9enat, x6);
    let x7 = 0x56dbbc14dc9206c2c3bf5abcea539b10nat;
    let e7 = 2 * e6 + 1;
    lemma_power_mod_square_times(3nat, e6, n, x6, 0x20b4225f912ff46b15eb31087867ecb33nat, x7);
    let x8 = 0xba711f48ff023d926c7895db84aa17b3nat;
    let e8 = 2 * e7;
    lemma_power_mod_square(3nat, e7, n, x7, 0x273f2fd0c39cab9535cf3abb5f4c7545nat, x8);
    let x9 = 0x5691aac42f21a5f5f0273a64b1af24aenat;
    let e9 = 2 * e8 + 1;
    lemma_power_mod_square_times(3nat, e8, n, x8, 0x21e7cc949e4c0261c750057ff3c06d0c5nat, x9);
    let x10 = 0x60612a9432b34b1604ebd9ed7d9f1a39nat;
    let e10 = 2 * e9 + 1;
    lemma_power_mod_square_times(3nat, e9, n, x9, 0x74f51731f20084ad48ee3f569edba19bnat, x10);
    let x11 = 0xa11f96406790ded8952412757fe5096bnat;
    let e11 = 2 * e10 + 1;
    lemma_power_mod_square_times(3nat, e10, n, x10, 0x90f7d81d15d92491a33810767c6efe68nat, x11);
    let x12 = 0xaba80a0d0baa190416754c3adb3dcfbdnat;
    let e12 = 2 * e11;
    lemma_power_mod_square(3nat, e11, n, x11, 0x870d1f4a4d9effd92fe765432654eb9cnat, x12);
    let x13 = 0x7643468008a57df4058563d93bea1482nat;
    let e13 = 2 * e12 + 1;
    lemma_power_mod_square_times(3nat, e12, n, x12, 0x1cbdb607fec78da5426d23dd721989c31nat, x13);
    let x14 = 0x8f1dc2da1f014d6e5928e55e32401bdnat;
    let e14 = 2 * e13;
    lemma_power_mod_square(3nat, e13, n, x13, 0x48c1eb4d05265fad390c32a4f5eee52fnat, x14);
    let x15 = 0x9445fdbd9b96b79420ba20d5704af68nat;
    let e15 = 2 * e14;
    lemma_power_mod_square(3nat, e14, n, x14, 0x6a8d2c5c69e71c126d9d3d35b900f9nat, x15);
    let x16 = 0x82055547e2c26508587804c9ae70f0f5nat;
    let e16 = 2 * e15;
    lemma_power_mod_square(3nat, e15, n, x15, 0x725e70ed3afe489c526fd8b5ab5593nat, x16);
}

proof fn lemma_power_255515944373312847190720520512484175977_over_41201()
    ensures
        power_mod(3nat, 0x131c45e23872017d1ec621a4ff6e8nat, 0xc03a94b2d3e64419a05cd8ccbf987069nat) == 0x82055547e2c26508587804c9ae70f0f5nat,
{
    lemma_power_mod_first(3nat, 0xc03a94b2d3e64419a05cd8ccbf987069nat);
    lemma_power_255515944373312847190720520512484175977_over_41201_part_0();
    lemma_power_255515944373312847190720520512484175977_over_41201_part_1();
    lemma_power_255515944373312847190720520512484175977_over_41201_part_2();
    lemma_power_255515944373312847190720520512484175977_over_41201_part_3();
}

proof fn lemma_power_255515944373312847190720520512484175977_over_96557_part_0()
    requires
        power_mod(3nat, 1nat, 0xc03a94b2d3e64419a05cd8ccbf987069nat) == 3nat,
    ensures
        power_mod(3nat, 0x104f14289nat, 0xc03a94b2d3e64419a05cd8ccbf987069nat) == 0x485f2eee41e49c7b3999b99294fc55f5nat,
{
    let n = 0xc03a94b2d3e64419a05cd8ccbf987069nat;
    let e0 = 1nat;
    let x0 = 3nat;
    let x1 = 9nat;
    let e1 = 2 * e0;
    lemma_power_mod_square(3nat, e0, n, x0, 0nat, x1);
    let x2 = 81nat;
    let e2 = 2 * e1;
    lemma_power_mod_square(3nat, e1, n, x1, 0nat, x2);
    let x3 = 6561nat;
    let e3 = 2 * e2;
    lemma_power_mod_square(3nat, e2, n, x2, 0nat, x3);
    let x4 = 0x290d741nat;
    let e4 = 2 * e3;
    lemma_power_mod_square(3nat, e3, n, x3, 0nat, x4);
    let x5 = 0x6954fe21e3e81nat;
    let e5 = 2 * e4;
    lemma_power_mod_square(3nat, e4, n, x4, 0nat, x5);
    let x6 = 0x82047e0eae6b9676a56c7c3703nat;
    let e6 = 2 * e5 + 1;
    lemma_power_mod_square_times(3nat, e5, n, x5, 0nat, x6);
    let x7 = 0x6f273535cc44eabfdc939e3086079226nat;
    let e7 = 2 * e6;
    lemma_power_mod_square(3nat, e6, n, x6, 0x57f096061ca5ec265c6bnat, x7);
    let x8 = 0x9645fd5218778fc220bfeed282ba1b0fnat;
    let e8 = 2 * e7;
    lemma_power_mod_square(3nat, e7, n, x7, 0x4045c1592be01d939dd8a6ef9ae57b4dnat, x8);
    let x9 = 0x8bcff1fe304f5c8d4d0d50ddb9fd14a1nat;
    let e9 = 2 * e8 + 1;
    lemma_power_mod_square_times(3nat, e8, n, x8, 0x1606cd8d2a5c19b355c0699bf4ccacbb2nat, x9);
    let x10 = 0x223a54772e8877a8d1310ef1ac1bcc59nat;
    let e10 = 2 * e9 + 1;
    lemma_power_mod_square_times(3nat, e9, n, x9, 0x13110d2c9a6cb453216be9b3c9021d2danat, x10);
    let x11 = 0x8988740edd806cfa80090bdd8b5ec42anat;
    let e11 = 2 * e10 + 1;
    lemma_power_mod_square_times(3nat, e10, n, x10, 0x12489ad065d26a65a0202f61d3812641nat, x11);
    let x12 = 0x8122fc64a70cdd79ad578fd2c57aacecnat;
    let e12 = 2 * e11 + 1;
    lemma_power_mod_square_times(3nat, e11, n, x11, 0x12733425c898457f63c5bec3f6638a1c0nat, x12);
    let x13 = 0xa9000cca75f7d846f27e33849fa0f49anat;
    let e13 = 2 * e12;
    lemma_power_mod_square(3nat, e12, n, x12, 0x56c09180be957f530196cf06553afe86nat, x13);
    let x14 = 0x4c040618743c81057dedb62e8c96bb70nat;
    let e14 = 2 * e13;
    lemma_power_mod_square(3nat, e13, n, x13, 0x949416b65aa9d7ab0b0995dba6560114nat, x14);
    let x15 = 0x8c76628a5254f0e31c12791610fa3c51nat;
    let e15 = 2 * e14;
    lemma_power_mod_square(3nat, e14, n, x14, 0x1e0f58fe3c6df75d35c799f96ea53957nat, x15);
    let x16 = 0x351a5a6e92fb47e23d40f5d0fd35ccc6nat;
    let e16 = 2 * e15 + 1;
    lemma_power_mod_square_times(3nat, e15, n, x15, 0x133e8d7f59c4cbeb0f75342aeab57c395nat, x16);
    let x17 = 0x4723bb2b3ebdf23aedfd168e1e5c595fnat;
    let e17 = 2 * e16;
    lemma_power_mod_square(3nat, e16, n, x16, 0xeab6bbb5c444c275275f570c207f8fdnat, x17);
    let x18 = 0x6958e294f49e6efe73caa934d94e2252nat;
    let e18 = 2 * e17 + 1;
    lemma_power_mod_square_times(3nat, e17, n, x17, 0x4efb4228e9176eaee6f3134a6e53d7c9nat, x18);
    let x19 = 0x1ff37e6d4f3a6dc9ac3676d680e7538enat;
    let e19 = 2 * e18;
    lemma_power_mod_square(3nat, e18, n, x18, 0x39bbc38a1696818b14defac2b0e30246nat, x19);
    let x20 = 0x25667fd0b2b46bb47ae5a69a045f246anat;
    let e20 = 2 * e19;
    lemma_power_mod_square(3nat, e19, n, x19, 0x54f8c25b528f367e0e6dac8db13c04anat, x20);
    let x21 = 0x4b8d1d6ff052ec92db2eecf9ca2afc0fnat;
    let e21 = 2 * e20;
    lemma_power_mod_square(3nat, e20, n, x20, 0x746d4f2ddd382f8e13150c2088da68dnat, x21);
    let x22 = 0x65d5d51ef31c8abeccb39136d1e1df5enat;
    let e22 = 2 * e21;
    lemma_power_mod_square(3nat, e21, n, x21, 0x1db1976716153926afb3b4220f998d0bnat, x22);
    let x23 = 0xfa0b72239f0a16fe8d8aff8677ccec8nat;
    let e23 = 2 * e22 + 1;
    lemma_power_mod_square_times(3nat, e22, n, x22, 0xa1d851bf86fd00a84092484d7dc2a624nat, x23);
    let x24 = 0x7de62ec8522594d15abe40e808b1164anat;
    let e24 = 2 * e23;
    lemma_power_mod_square(3nat, e23, n, x23, 0x1453fe80d250cbba60742fae0843786nat, x24);
    let x25 = 0x8b530a2beaae1af3ab82779b8effbe58nat;
    let e25 = 2 * e24 + 1;
    lemma_power_mod_square_times(3nat, e24, n, x24, 0xf75ee908ee3a716e29e2495701aea0b4nat, x25);
    let x26 = 0x35c85e95afe6b897040cc8f6c0bacda1nat;
    let e26 = 2 * e25;
    lemma_power_mod_square(3nat, e25, n, x25, 0x64fae5fa201710ade1308dfe1e0637c7nat, x26);
    let x27 = 0x1492d3f8ed1be02c58f7dab31548d36cnat;
    let e27 = 2 * e26;
    lemma_power_mod_square(3nat, e26, n, x26, 0xf0c2dfd3e5f695de873e61f6c0c328dnat, x27);
    let x28 = 0x23755515e2e65ef2aa1df17ab01a109cnat;
    let e28 = 2 * e27;
    lemma_power_mod_square(3nat, e27, n, x27, 0x233b075483234cdfdd04de5ba21ded4nat, x28);
    let x29 = 0x245a0c14bde3c25c2c88055eaae5882dnat;
    let e29 = 2 * e28 + 1;
    lemma_power_mod_square_times(3nat, e28, n, x28, 0x139f2f8d7605d135593b9e712ff72c8bnat, x29);
    let x30 = 0xa836627aae3e755249891c11ff718a10nat;
    let e30 = 2 * e29;
    lemma_power_mod_square(3nat, e29, n, x29, 0x6dfd5d23d50fd864dbae6fb4a9b43f1nat, x30);
    let x31 = 0x726b3f9c407c67434cc28ef6fa309721nat;
    let e31 = 2 * e30;
    lemma_power_mod_square(3nat, e30, n, x30, 0x9332528acb1ed19e36162f628b19ff07nat, x31);
    let x32 = 0x485f2eee41e49c7b3999b99294fc55f5nat;
    let e32 = 2 * e31 + 1;
    lemma_power_mod_square_times(3nat, e31, n, x31, 0xcc506fccd9f71805fa2f635c2741209enat, x32);
}

proof fn lemma_power_255515944373312847190720520512484175977_over_96557_part_1()
    requires
        power_mod(3nat, 0x104f14289nat, 0xc03a94b2d3e64419a05cd8ccbf987069nat) == 0x485f2eee41e49c7b3999b99294fc55f5nat,
    ensures
        power_mod(3nat, 0x104f14289d188f693nat, 0xc03a94b2d3e64419a05cd8ccbf987069nat) == 0x8c490f2d66b9e38b4cef3f96becd453dnat,
{
    let n = 0xc03a94b2d3e64419a05cd8ccbf987069nat;
    let e0 = 0x104f14289nat;
    let x0 = 0x485f2eee41e49c7b3999b99294fc55f5nat;
    let x1 = 0x5c5a08df0b525f76f70eeca578ccea3bnat;
    let e1 = 2 * e0 + 1;
    lemma_power_mod_square_times(3nat, e0, n, x0, 0x51bdc6852699b105755e7943a3d22bb0nat, x1);
    let x2 = 0x698d1acc464743b219676722a7c0fe8anat;
    let e2 = 2 * e1 + 1;
    lemma_power_mod_square_times(3nat, e1, n, x1, 0x851abbab9a3d9838ee4adcafc04d2419nat, x2);
    let x3 = 0x40ea215670fb995594184a906c13f1e1nat;
    let e3 = 2 * e2;
    lemma_power_mod_square(3nat, e2, n, x2, 0x39f50e18ff11232d1cac8a64999efc0bnat, x3);
    let x4 = 0x19b50b892dddced7cd95e46bd882c431nat;
    let e4 = 2 * e3 + 1;
    lemma_power_mod_square_times(3nat, e3, n, x3, 0x41c38a859271999679838a25ed3bb842nat, x4);
    let x5 = 0x253edc09dbc519b4764463eda4b9be0bnat;
    let e5 = 2 * e4;
    lemma_power_mod_square(3nat, e4, n, x4, 0x3701931967dfc1b79016d52f5830de6nat, x5);
    let x6 = 0x218c62856ed4be5fc130f6e54c64aba7nat;
    let e6 = 2 * e5;
    lemma_power_mod_square(3nat, e5, n, x5, 0x73770622799c4e59d3a9814a6a58802nat, x6);
    let x7 = 0xa3777c59917996d2ab8960498bdc0899nat;
    let e7 = 2 * e6;
    lemma_power_mod_square(3nat, e6, n, x6, 0x5dadf317c353253719312677f6bc098nat, x7);
    let x8 = 0x8d80fdcdaba0d5ab7c2c5a5405a3e067nat;
    let e8 = 2 * e7 + 1;
    lemma_power_mod_square_times(3nat, e7, n, x7, 0x1a106439df07bcbe546b9205ddf24150cnat, x8);
    let x9 = 0x49ff4c20443c7228b5397cb38a6d5e25nat;
    let e9 = 2 * e8 + 1;
    lemma_power_mod_square_times(3nat, e8, n, x8, 0x1387e0a3616260d9c832142f96b70e6fenat, x9);
    let x10 = 0x1c2959976a9a767bdae928e23708a015nat;
    let e10 = 2 * e9;
    lemma_power_mod_square(3nat, e9, n, x9, 0x1c7c19cce0d878600f465202dd9a5ea4nat, x10);
    let x11 = 0x9b7862a8561f341e7fd76aca9b6851f1nat;
    let e11 = 2 * e10;
    lemma_power_mod_square(3nat, e10, n, x10, 0x4202b74d2668ee02d9cc41f550d7888nat, x11);
    let x12 = 0x5aba551ac4f5ee9188aca4c11f6a03b5nat;
    let e12 = 2 * e11;
    lemma_power_mod_square(3nat, e11, n, x11, 0x7dbda2c58472c023d422adb874c6b24cnat, x12);
    let x13 = 0x14d5a6dc28acf81fd0cd5d5df0307d6nat;
    let e13 = 2 * e12 + 1;
    lemma_power_mod_square_times(3nat, e12, n, x12, 0x8076fbc05124b0ce84739b604378fecdnat, x13);
    let x14 = 0x8266c860a4a3ee48705321d486b3ba6nat;
    let e14 = 2 * e13;
    lemma_power_mod_square(3nat, e13, n, x13, 0x242157675e07a33ff41c04f2f298enat, x14);
    let x15 = 0xaf070830cde9feb270ec1b4f6c4046afnat;
    let e15 = 2 * e14;
    lemma_power_mod_square(3nat, e14, n, x14, 0x5875be49f447c06b59ae2342c1e2adnat, x15);
    let x16 = 0x5513721d178742421ebfa4b13464c030nat;
    let e16 = 2 * e15;
    lemma_power_mod_square(3nat, e15, n, x15, 0x9f5d8782c4b894cd2158b2fd03b0c1c9nat, x16);
    let x17 = 0xa1824d846e9db3eb46fc0d3420289a8enat;
    let e17 = 2 * e16 + 1;
    lemma_power_mod_square_times(3nat, e16, n, x16, 0x70f53621e9efaa8e570ecab3c9a9aea2nat, x17);
    let x18 = 0x8d5dd1355cf74d7d0afab261239c34b3nat;
    let e18 = 2 * e17 + 1;
    lemma_power_mod_square_times(3nat, e17, n, x17, 0x1971869fa3f393f4b07c0a0423c1e6fb1nat, x18);
    let x19 = 0x22abe06cd55956e7ce706f276095436nat;
    let e19 = 2 * e18 + 1;
    lemma_power_mod_square_times(3nat, e18, n, x18, 0x137e2c2a311888b1161ea727cb0c3287dnat, x19);
    let x20 = 0xa411ab0d1a7e1d64b28ca6beb770c253nat;
    let e20 = 2 * e19 + 1;
    lemma_power_mod_square_times(3nat, e19, n, x19, 0x12c2b2b1c7eb55fbf441039a5155f1nat, x20);
    let x21 = 0x5b5485488cdde2c06d9a6e8a33240c3nat;
    let e21 = 2 * e20;
    lemma_power_mod_square(3nat, e20, n, x20, 0x8c08cc0fc08a620320fb3a93978a7036nat, x21);
    let x22 = 0x2800f1c085d7b742804dd29da42ebd93nat;
    let e22 = 2 * e21 + 1;
    lemma_power_mod_square_times(3nat, e21, n, x21, 0x822d12e0e8a7d0df8cb5b706907ec8nat, x22);
    let x23 = 0x9cc37d1112c266b601e5e43ab17be3f8nat;
    let e23 = 2 * e22 + 1;
    lemma_power_mod_square_times(3nat, e22, n, x22, 0x18f98f793fad423d1e8c50b3295120cbnat, x23);
    let x24 = 0x5ea2a4a38cdd667e15218435bd910f1cnat;
    let e24 = 2 * e23;
    lemma_power_mod_square(3nat, e23, n, x23, 0x7fd770d98a7008b7e51e0f0420798384nat, x24);
    let x25 = 0x612df8137bf3de68e95fd36b857e04bcnat;
    let e25 = 2 * e24 + 1;
    lemma_power_mod_square_times(3nat, e24, n, x24, 0x8bc4bbf0f6fce67ed2a9ba806ac2ea54nat, x25);
    let x26 = 0x5ff4cc7e11d95062ab5fc74626808b03nat;
    let e26 = 2 * e25;
    lemma_power_mod_square(3nat, e25, n, x25, 0x3120d5b2ef77770ee24c3f9d7378a505nat, x26);
    let x27 = 0x918366299453e3fd6805962dd1bfc8cbnat;
    let e27 = 2 * e26;
    lemma_power_mod_square(3nat, e26, n, x26, 0x2fe62fd8db3b260b4c35ab9bfad9478enat, x27);
    let x28 = 0x638499a7dbd52e97f4c9e15053eff576nat;
    let e28 = 2 * e27 + 1;
    lemma_power_mod_square_times(3nat, e27, n, x27, 0x14a73a1d822204f9f511ecaa6b586832dnat, x28);
    let x29 = 0x241aebfebfda7f2de3e2d2de51394ef2nat;
    let e29 = 2 * e28;
    lemma_power_mod_square(3nat, e28, n, x28, 0x338561d72b8ac9bd3033784a025579a2nat, x29);
    let x30 = 0x8cbcb4c4a450c5fdd37a32f6758cff75nat;
    let e30 = 2 * e29;
    lemma_power_mod_square(3nat, e29, n, x29, 0x6c80a978821c5381828b50f6c46a8f7nat, x30);
    let x31 = 0x37909c1ef7dea2c8c0f5ceadf6622846nat;
    let e31 = 2 * e30 + 1;
    lemma_power_mod_square_times(3nat, e30, n, x30, 0x1351d72f84f4f8143f6db199d9ac8445dnat, x31);
    let x32 = 0x8c490f2d66b9e38b4cef3f96becd453dnat;
    let e32 = 2 * e31 + 1;
    lemma_power_mod_square_times(3nat, e31, n, x31, 0x302f1f87dd58084d47c09e27baff4cd7nat, x32);
}

proof fn lemma_power_255515944373312847190720520512484175977_over_96557_part_2()
    requires
        power_mod(3nat, 0x104f14289d188f693nat, 0xc03a94b2d3e64419a05cd8ccbf987069nat) == 0x8c490f2d66b9e38b4cef3f96becd453dnat,
    ensures
        power_mod(3nat, 0x104f14289d188f693f8564433nat, 0xc03a94b2d3e64419a05cd8ccbf987069nat) == 0x102cab58805b89120602f0d4085217e3nat,
{
    let n = 0xc03a94b2d3e64419a05cd8ccbf987069nat;
    let e0 = 0x104f14289d188f693nat;
    let x0 = 0x8c490f2d66b9e38b4cef3f96becd453dnat;
    let x1 = 0x823a3a919fd61d6c728ee5b036549fa6nat;
    let e1 = 2 * e0 + 1;
    lemma_power_mod_square_times(3nat, e0, n, x0, 0x1332240416497ff4344b213342d8a03adnat, x1);
    let x2 = 0x84a09171a4136479ca271458000cacfdnat;
    let e2 = 2 * e1 + 1;
    lemma_power_mod_square_times(3nat, e1, n, x1, 0x108ac01f8ee9736342a64631af5cc4497nat, x2);
    let x3 = 0x59dd86a54dffd4c55e6a1e281ffdbd0nat;
    let e3 = 2 * e2 + 1;
    lemma_power_mod_square_times(3nat, e2, n, x2, 0x1128428f0b074d6e21b10740e10cd3e93nat, x3);
    let x4 = 0x6dfa26e72ae60471c90667030f6f033dnat;
    let e4 = 2 * e3 + 1;
    lemma_power_mod_square_times(3nat, e3, n, x3, 0x7e08a908f70bd7b20353332546414bnat, x4);
    let x5 = 0x6f45c056bdd2c216a54357a4a9b914f6nat;
    let e5 = 2 * e4 + 1;
    lemma_power_mod_square_times(3nat, e4, n, x4, 0xbcc24eb6124c51e5a5301351fd59e6ddnat, x5);
    let x6 = 0xa14d87672aec05a072d86fac176665bbnat;
    let e6 = 2 * e5;
    lemma_power_mod_square(3nat, e5, n, x5, 0x406918c423a56e26711325a613578c41nat, x6);
    let x7 = 0xa6216a122f7d60e37ca783d7ca5e405enat;
    let e7 = 2 * e6;
    lemma_power_mod_square(3nat, e6, n, x6, 0x875a2e51c22ad5317ddb6a4adb6cbd03nat, x7);
    let x8 = 0x35bb0cc25f7bc240a599a5af00412d5bnat;
    let e8 = 2 * e7;
    lemma_power_mod_square(3nat, e7, n, x7, 0x8f93543213e5c703232a1a063058c6c1nat, x8);
    let x9 = 0x56f0865d36b6af76718b025e817f748nat;
    let e9 = 2 * e8;
    lemma_power_mod_square(3nat, e8, n, x8, 0xf04bae0bf47e5cdfbbe524a5af72c69nat, x9);
    let x10 = 0x16db91e2ddc9393d915cc572904779cfnat;
    let e10 = 2 * e9 + 1;
    lemma_power_mod_square_times(3nat, e9, n, x9, 0x75f5f363b2f7dd5ea56178698fbd49nat, x10);
    let x11 = 0x24ed890436ce4f97da3e85858366901anat;
    let e11 = 2 * e10;
    lemma_power_mod_square(3nat, e10, n, x10, 0x2b7cd9194b577be1f5499b276fed22fnat, x11);
    let x12 = 0xba153d64b2ea5c75eff247c2b0481fc4nat;
    let e12 = 2 * e11 + 1;
    lemma_power_mod_square_times(3nat, e11, n, x11, 0x15482d7778a9d80f12c60f57dd6a61e8nat, x12);
    let x13 = 0x9f025ef76c299de070a185074a6a3fbnat;
    let e13 = 2 * e12;
    lemma_power_mod_square(3nat, e12, n, x12, 0xb422337597f0dded669116fcc26876cdnat, x13);
    let x14 = 0x11e2f2d7d14f4c7527185b9160ce2462nat;
    let e14 = 2 * e13 + 1;
    lemma_power_mod_square_times(3nat, e13, n, x13, 0x18a976349a8861431b4af39ad5a2781nat, x14);
    let x15 = 0x7e0df26ed521f5ee8a2f9de39828949anat;
    let e15 = 2 * e14 + 1;
    lemma_power_mod_square_times(3nat, e14, n, x14, 0x4fe2fccf8edd5746cdde0954f72ee22nat, x15);
    let x16 = 0x6df288bcccedd946018f33276dd72385nat;
    let e16 = 2 * e15;
    lemma_power_mod_square(3nat, e15, n, x15, 0x52a916c69dfb832cb2ac7c7a961fbc47nat, x16);
    let x17 = 0x71625f529f1ad19c5b6ee58a6cda304fnat;
    let e17 = 2 * e16;
    lemma_power_mod_square(3nat, e16, n, x16, 0x3ee2b86e64393f708230cf2568d0c33anat, x17);
    let x18 = 0xf42a280a72f1a170c2d1b26ef7b8748nat;
    let e18 = 2 * e17 + 1;
    lemma_power_mod_square_times(3nat, e17, n, x17, 0xc8a2c0986607ffdb9c47270ab57fb7a3nat, x18);
    let x19 = 0x4ceda8b40cfb044d0b975c355bcb62ddnat;
    let e19 = 2 * e18;
    lemma_power_mod_square(3nat, e18, n, x18, 0x13621e499677cd2fbc41b1a4630c9ebnat, x19);
    let x20 = 0x26a516dab7eb9b4ebafce8b34b2d79acnat;
    let e20 = 2 * e19;
    lemma_power_mod_square(3nat, e19, n, x19, 0x1ec93c6ee3b8d0c39eacc6247a7b2c95nat, x20);
    let x21 = 0xa93f7c775f8c5c741b4318ec676d29b0nat;
    let e21 = 2 * e20;
    lemma_power_mod_square(3nat, e20, n, x20, 0x7c4dd82a2266f5681f33e8ec8c796e0nat, x21);
    let x22 = 0x9aa07dce9b5737f1ca159f99c1f7662nat;
    let e22 = 2 * e21 + 1;
    lemma_power_mod_square_times(3nat, e21, n, x21, 0x1bf0b22ba5045ba71dccf937548a69beenat, x22);
    let x23 = 0x923fe7ffc82c3006c3f1de3d54b51b5cnat;
    let e23 = 2 * e22;
    lemma_power_mod_square(3nat, e22, n, x22, 0x7c615ce5239c5c6a32cf6fdf130be8nat, x23);
    let x24 = 0x47e301cc1618866f548233b70085bdanat;
    let e24 = 2 * e23;
    lemma_power_mod_square(3nat, e23, n, x23, 0x6f44a8858bebb2ae23eabe66ef43dcc6nat, x24);
    let x25 = 0x99ed11b7102f76819e9f78d95ba43debnat;
    let e25 = 2 * e24;
    lemma_power_mod_square(3nat, e24, n, x24, 0x1ae211f277451b93a6c6679a40e2d1nat, x25);
    let x26 = 0x61c6589f6e13a5ae567670b52b9de5e2nat;
    let e26 = 2 * e25;
    lemma_power_mod_square(3nat, e25, n, x25, 0x7b415dbf535824d3e8bc07315725563fnat, x26);
    let x27 = 0x47b35ed2473203125b2945aaaa72a9c9nat;
    let e27 = 2 * e26 + 1;
    lemma_power_mod_square_times(3nat, e26, n, x26, 0x95321dfd740f10c199176179785daa4bnat, x27);
    let x28 = 0x3943de61e497f59b3d87089940888baenat;
    let e28 = 2 * e27 + 1;
    lemma_power_mod_square_times(3nat, e27, n, x27, 0x503b7655336675f84291c0095916fcfdnat, x28);
    let x29 = 0x603b38d150df197fdde90c9929931687nat;
    let e29 = 2 * e28;
    lemma_power_mod_square(3nat, e28, n, x28, 0x110f2f905f1b13e759addba46491de35nat, x29);
    let x30 = 0x535b1456d331ecffdd255c063f276ac8nat;
    let e30 = 2 * e29;
    lemma_power_mod_square(3nat, e29, n, x29, 0x302c984db6f0a5018644560c4964a001nat, x30);
    let x31 = 0x32c723024a5672f8a66c965e8d5ca172nat;
    let e31 = 2 * e30 + 1;
    lemma_power_mod_square_times(3nat, e30, n, x30, 0x6c6fa8a90ce426a9ca4ffd623fd0cf1enat, x31);
    let x32 = 0x102cab58805b89120602f0d4085217e3nat;
    let e32 = 2 * e31 + 1;
    lemma_power_mod_square_times(3nat, e31, n, x31, 0x283d4b4de41180372692bc3d7535dc01nat, x32);
}

proof fn lemma_power_255515944373312847190720520512484175977_over_96557_part_3()
    requires
        power_mod(3nat, 0x104f14289d188f693f8564433nat, 0xc03a94b2d3e64419a05cd8ccbf987069nat) == 0x102cab58805b89120602f0d4085217e3nat,
    ensures
        power_mod(3nat, 0x8278a144e8c47b49fc2b2219a308nat, 0xc03a94b2d3e64419a05cd8ccbf987069nat) == 0xc0094506b80d54e0973bc97d06410037nat,
{
    let n = 0xc03a94b2d3e64419a05cd8ccbf987069nat;
    let e0 = 0x104f14289d188f693f8564433nat;
    let x0 = 0x102cab58805b89120602f0d4085217e3nat;
    let x1 = 0x628093d002639e418c63129efebaa591nat;
    let e1 = 2 * e0;
    lemma_power_mod_square(3nat, e0, n, x0, 0x15c6750d7a422c315a8f4e35465c8f8nat, x1);
    let x2 = 0xb392c0630f491a1707c75d0868176882nat;
    let e2 = 2 * e1 + 1;
    lemma_power_mod_square_times(3nat, e1, n, x1, 0x976c9395a1fecba43f191f88ba5590b9nat, x2);
    let x3 = 0xa9137a44ab663444aa362c5706bfc164nat;
    let e3 = 2 * e2;
    lemma_power_mod_square(3nat, e2, n, x2, 0xa7c0383ca595df7790a685da1be507a0nat, x3);
    let x4 = 0x6c33fc984623ac9d50ba91a86c6266f9nat;
    let e4 = 2 * e3;
    lemma_power_mod_square(3nat, e3, n, x3, 0x94b641a7e41a0ab772416914d8a7247fnat, x4);
    let x5 = 0xad5910d574bcf7bddf31a969dc3b34banat;
    let e5 = 2 * e4;
    lemma_power_mod_square(3nat, e4, n, x4, 0x3ce7f50141f2ee9683daf5a894308edfnat, x5);
    let x6 = 0xa75ccb10b6684233de1555dffa8986ccnat;
    let e6 = 2 * e5 + 1;
    lemma_power_mod_square_times(3nat, e5, n, x5, 0x1d4f6e92b47444bd6ab78d3938cc4f5a0nat, x6);
    let x7 = 0xa880e8c0bb77bdece6e021c1510380a9nat;
    let e7 = 2 * e6 + 1;
    lemma_power_mod_square_times(3nat, e6, n, x6, 0x1b5236a5ef7aa13626718a97ed6ec5defnat, x7);
    let x8 = 0x3b1d7baf89500a15dda994023c6825f7nat;
    let e8 = 2 * e7;
    lemma_power_mod_square(3nat, e7, n, x7, 0x93b4dcd65adcb60799c15afcc27f098anat, x8);
    let x9 = 0x44e61273fabf2f75058257e38600addfnat;
    let e9 = 2 * e8;
    lemma_power_mod_square(3nat, e8, n, x8, 0x122dec97167159b7a234b640f85ce4a2nat, x9);
    let x10 = 0x4fd3a1dc73578b0a817b041e650d8a7enat;
    let e10 = 2 * e9;
    lemma_power_mod_square(3nat, e9, n, x9, 0x18b1d7ea63e21c641a7163f2e625574bnat, x10);
    let x11 = 0x7d8c8344a8fa8d63b2159bef9d2553fdnat;
    let e11 = 2 * e10;
    lemma_power_mod_square(3nat, e10, n, x10, 0x2126493b317df436277439c682f950efnat, x11);
    let x12 = 0xa3d480764f9f45908a5fe4a9a61c7e62nat;
    let e12 = 2 * e11 + 1;
    lemma_power_mod_square_times(3nat, e11, n, x11, 0xf5ff070a63e0b439f26a5d360306b4d1nat, x12);
    let x13 = 0xacd1a40f38326f59781bdf4261484a83nat;
    let e13 = 2 * e12;
    lemma_power_mod_square(3nat, e12, n, x12, 0x8ba07608d8902ac354d21b25ee4b7ad9nat, x13);
    let x14 = 0x623b3e3ddb4a09dac76c73fbeaa3d794nat;
    let e14 = 2 * e13;
    lemma_power_mod_square(3nat, e13, n, x13, 0x9b5e6dfcedcd2afa3aede0f3b0009d2dnat, x14);
    let x15 = 0xc0094506b80d54e0973bc97d06410037nat;
    let e15 = 2 * e14;
    lemma_power_mod_square(3nat, e14, n, x14, 0x323290fff159fb8cd8ffe6a086b2f771nat, x15);
}

proof fn lemma_power_255515944373312847190720520512484175977_over_96557()
    ensures
        power_mod(3nat, 0x8278a144e8c47b49fc2b2219a308nat, 0xc03a94b2d3e64419a05cd8ccbf987069nat) == 0xc0094506b80d54e0973bc97d06410037nat,
{
    lemma_power_mod_first(3nat, 0xc03a94b2d3e64419a05cd8ccbf987069nat);
    lemma_power_255515944373312847190720520512484175977_over_96557_part_0();
    lemma_power_255515944373312847190720520512484175977_over_96557_part_1();
    lemma_power_255515944373312847190720520512484175977_over_96557_part_2();
    lemma_power_255515944373312847190720520512484175977_over_96557_part_3();
}

proof fn lemma_power_255515944373312847190720520512484175977_over_7240687_part_0()
    requires
        power_mod(3nat, 1nat, 0xc03a94b2d3e64419a05cd8ccbf987069nat) == 3nat,
    ensures
        power_mod(3nat, 0x1bd689d55nat, 0xc03a94b2d3e64419a05cd8ccbf987069nat) == 0x18e2a3f109191a49317e36185947ebc6nat,
{
    let n = 0xc03a94b2d3e64419a05cd8ccbf987069nat;
    let e0 = 1nat;
    let x0 = 3nat;
    let x1 = 27nat;
    let e1 = 2 * e0 + 1;
    lemma_power_mod_square_times(3nat, e0, n, x0, 0nat, x1);
    let x2 = 729nat;
    let e2 = 2 * e1;
    lemma_power_mod_square(3nat, e1, n, x1, 0nat, x2);
    let x3 = 0x1853d3nat;
    let e3 = 2 * e2 + 1;
    lemma_power_mod_square_times(3nat, e2, n, x2, 0nat, x3);
    let x4 = 0x6ef79077fbbnat;
    let e4 = 2 * e3 + 1;
    lemma_power_mod_square_times(3nat, e3, n, x3, 0nat, x4);
    let x5 = 0x904d0eada00e6305df37cbnat;
    let e5 = 2 * e4 + 1;
    lemma_power_mod_square_times(3nat, e4, n, x4, 0nat, x5);
    let x6 = 0x9af9bb40a6c78c5278a8b01e62448bfnat;
    let e6 = 2 * e5 + 1;
    lemma_power_mod_square_times(3nat, e5, n, x5, 0x144f7f83e814cnat, x6);
    let x7 = 0x93bf09c237a628ff9a24e88350f57324nat;
    let e7 = 2 * e6;
    lemma_power_mod_square(3nat, e6, n, x6, 0x7cf1179cc439e97e53534ec43064d5nat, x7);
    let x8 = 0x9e8fe3a40e28432a7eb181fcb5924d7anat;
    let e8 = 2 * e7 + 1;
    lemma_power_mod_square_times(3nat, e7, n, x7, 0x154abddfaef775fdad7b17945b7790546nat, x8);
    let x9 = 0x1b70d8b8511afc876e6db27a314d6ad4nat;
    let e9 = 2 * e8;
    lemma_power_mod_square(3nat, e8, n, x8, 0x82caaaa4901655190c62453ea7672ed0nat, x9);
    let x10 = 0xbb9b4607aa6f52947d9aeb1d3f880a68nat;
    let e10 = 2 * e9 + 1;
    lemma_power_mod_square_times(3nat, e9, n, x9, 0xbc067f0e9d5463da8a2a7595cb98908nat, x10);
    let x11 = 0xa5886599c427894d464bfb953b38ff8nat;
    let e11 = 2 * e10 + 1;
    lemma_power_mod_square_times(3nat, e10, n, x10, 0x22549426ad577d82bd5682ca72395ff88nat, x11);
    let x12 = 0x6222051207afc143374d758be962b444nat;
    let e12 = 2 * e11;
    lemma_power_mod_square(3nat, e11, n, x11, 0x8e8b51b4eca0027875f2918907ec9cnat, x12);
    let x13 = 0x26354099f732200bf26385e99d0fd0c8nat;
    let e13 = 2 * e12 + 1;
    lemma_power_mod_square_times(3nat, e12, n, x12, 0x964a66bd9275a009095022eea2196d28nat, x13);
    let x14 = 0x850c070677cf312748fd3e9f6a8246e2nat;
    let e14 = 2 * e13;
    lemma_power_mod_square(3nat, e13, n, x13, 0x7982729d6fc493caef8922933c1beaenat, x14);
    let x15 = 0x587a75fd2333da6ca888c888fbc7a568nat;
    let e15 = 2 * e14;
    lemma_power_mod_square(3nat, e14, n, x14, 0x5c15e73801f731d6c9f2c48a31d725bcnat, x15);
    let x16 = 0x7cc6336dcc25a50a6761e1cdf0c41a6cnat;
    let e16 = 2 * e15;
    lemma_power_mod_square(3nat, e15, n, x15, 0x28b97807c80a61b015f0a7a9bcf8a6b4nat, x16);
    let x17 = 0x5fd9ee4723229e8c855c7d02f8495d2fnat;
    let e17 = 2 * e16 + 1;
    lemma_power_mod_square_times(3nat, e16, n, x16, 0xf2f84b3f6aeee27e3085ef0883f9cf59nat, x17);
    let x18 = 0x10e812d1a0b25244ebaf01571188b650nat;
    let e18 = 2 * e17;
    lemma_power_mod_square(3nat, e17, n, x17, 0x2fcb60b4fe18b94adaf97302f7b3cba9nat, x18);
    let x19 = 0xb7f68000e994ebe23300938504f71161nat;
    let e19 = 2 * e18;
    lemma_power_mod_square(3nat, e18, n, x18, 0x17ca781af0f5b3f8facb3b7b83776c7nat, x19);
    let x20 = 0x18d6bf4c61e883b9d332ef7c531c737bnat;
    let e20 = 2 * e19 + 1;
    lemma_power_mod_square_times(3nat, e19, n, x19, 0x210283c3bc77878d6652a0d480cbf8188nat, x20);
    let x21 = 0x21ce0134d6fe7ddd95ca2183a83ef771nat;
    let e21 = 2 * e20 + 1;
    lemma_power_mod_square_times(3nat, e20, n, x20, 0x9a0eff7fafce4450b355fd16f6985canat, x21);
    let x22 = 0x51ed02b28a595d63a17fdff3b34daab5nat;
    let e22 = 2 * e21 + 1;
    lemma_power_mod_square_times(3nat, e21, n, x21, 0x11d59755f43d2b7fbeca603a6d6a8fbenat, x22);
    let x23 = 0xa49aea8bcc86457f7168f44def1e3836nat;
    let e23 = 2 * e22;
    lemma_power_mod_square(3nat, e22, n, x22, 0x22ea77a53cd3c6329a4fc896c61a354bnat, x23);
    let x24 = 0x3009ff5a1d998754219ae62b775d6110nat;
    let e24 = 2 * e23 + 1;
    lemma_power_mod_square_times(3nat, e23, n, x23, 0x1a6da64e7e8e0c26b049c0d1a7ad3f4bcnat, x24);
    let x25 = 0x47432c48438cef1bc0a3b136d2b3916anat;
    let e25 = 2 * e24;
    lemma_power_mod_square(3nat, e24, n, x24, 0xc01567ea619e2208ac40943c735e026nat, x25);
    let x26 = 0xdfb8a631200b6b93cf5745f0a080996nat;
    let e26 = 2 * e25 + 1;
    lemma_power_mod_square_times(3nat, e25, n, x25, 0x4f41225d6e95e5b350343465f90e02a6nat, x26);
    let x27 = 0xaf586fab93d3ba6353729e932863ee26nat;
    let e27 = 2 * e26;
    lemma_power_mod_square(3nat, e26, n, x26, 0x1045f8275ab19b63756b09d50b9500enat, x27);
    let x28 = 0x8f60cdfd2bb33493ecb68da66866363dnat;
    let e28 = 2 * e27 + 1;
    lemma_power_mod_square_times(3nat, e27, n, x27, 0x1dfd5b60e30221e26b20bf86a3fc6c757nat, x28);
    let x29 = 0x7e123ccea4d586407f775e7c89c4f415nat;
    let e29 = 2 * e28;
    lemma_power_mod_square(3nat, e28, n, x28, 0x6af117fdf12f2ea3f204295aee51d454nat, x29);
    let x30 = 0x6465dc70a98d69a2128a5b1649b85e8fnat;
    let e30 = 2 * e29 + 1;
    lemma_power_mod_square_times(3nat, e29, n, x29, 0xf80c262ed3c7e57642a1a2dd8cd5763cnat, x30);
    let x31 = 0x5dbd8c46ac2ba20f9c181c086ff117afnat;
    let e31 = 2 * e30;
    lemma_power_mod_square(3nat, e30, n, x30, 0x346fa6a904ab020712155b83f5011462nat, x31);
    let x32 = 0x18e2a3f109191a49317e36185947ebc6nat;
    let e32 = 2 * e31 + 1;
    lemma_power_mod_square_times(3nat, e31, n, x31, 0x8923398ad59a7339065977e8e0c3c495nat, x32);
}

proof fn lemma_power_255515944373312847190720520512484175977_over_7240687_part_1()
    requires
        power_mod(3nat, 0x1bd689d55nat, 0xc03a94b2d3e64419a05cd8ccbf987069nat) == 0x18e2a3f109191a49317e36185947ebc6nat,
    ensures
        power_mod(3nat, 0x1bd689d5519e4f1dcnat, 0xc03a94b2d3e64419a05cd8ccbf987069nat) == 0x362ed0ade82d7e6992d94bea84bc30cbnat,
{
    let n = 0xc03a94b2d3e64419a05cd8ccbf987069nat;
    let e0 = 0x1bd689d55nat;
    let x0 = 0x18e2a3f109191a49317e36185947ebc6nat;
    let x1 = 0x2c6cee61032390b7862624661910d234nat;
    let e1 = 2 * e0;
    lemma_power_mod_square(3nat, e0, n, x0, 0x338b8e2d7d8780720e6f5adb03a9570nat, x1);
    let x2 = 0xb3b70b53f097a42b93eea94b58ac593anat;
    let e2 = 2 * e1;
    lemma_power_mod_square(3nat, e1, n, x1, 0xa445e745534c5a84ea92ac999178be6nat, x2);
    let x3 = 0x71ab9bd4ebe3415e75a7bd374cde72ddnat;
    let e3 = 2 * e2;
    lemma_power_mod_square(3nat, e2, n, x2, 0xa8040d9d0cd3a09dcd62f591b952932fnat, x3);
    let x4 = 0x9bcf7170ce9f7a0683519b339027fd89nat;
    let e4 = 2 * e3 + 1;
    lemma_power_mod_square_times(3nat, e3, n, x3, 0xc9a644083941dc65b33f5fc69e2dca02nat, x4);
    let x5 = 0xa5cdb2961bea675ef35ebad25f63dfefnat;
    let e5 = 2 * e4 + 1;
    lemma_power_mod_square_times(3nat, e4, n, x4, 0x17adfd4d1f92964db99961005b4d0c964nat, x5);
    let x6 = 0x9299bb345141c9a644d694117ddb7cbdnat;
    let e6 = 2 * e5;
    lemma_power_mod_square(3nat, e5, n, x5, 0x8f02c50e79f6b2c795eac94a59fe94c4nat, x6);
    let x7 = 0xd67130c9b6f73d14a2372ecf9ebac71nat;
    let e7 = 2 * e6;
    lemma_power_mod_square(3nat, e6, n, x6, 0x6fcd80769f6394ce718ceeb2d92e5b58nat, x7);
    let x8 = 0x5a5683e27074727e24819769be2deb2cnat;
    let e8 = 2 * e7 + 1;
    lemma_power_mod_square_times(3nat, e7, n, x7, 0x2cdaac70e863691cbf260f10e672fdfnat, x8);
    let x9 = 0x1957cccec03529150cc68156c3347cf0nat;
    let e9 = 2 * e8 + 1;
    lemma_power_mod_square_times(3nat, e8, n, x8, 0x7f5cebd588f060b2f5520bde4be32bc0nat, x9);
    let x10 = 0x6a3aa677112de1b80032054a61069c74nat;
    let e10 = 2 * e9 + 1;
    lemma_power_mod_square_times(3nat, e9, n, x9, 0xa06018bce4945505712951800ea00acnat, x10);
    let x11 = 0x3697577b6117ad95fefd7e3f945fab10nat;
    let e11 = 2 * e10 + 1;
    lemma_power_mod_square_times(3nat, e10, n, x10, 0xb01cc16a8765d62008bdc8e05d3229a0nat, x11);
    let x12 = 0x4bcbb86ae3721eb0d0c9a33d55b0b874nat;
    let e12 = 2 * e11;
    lemma_power_mod_square(3nat, e11, n, x11, 0xf80dd911eaa13e94e33ea75717cd2acnat, x12);
    let x13 = 0x5617c709bb77227f2c63c67ba9b45d1enat;
    let e13 = 2 * e12;
    lemma_power_mod_square(3nat, e12, n, x12, 0x1de2e1e1df2dc2db177412b0c5912da2nat, x13);
    let x14 = 0x6a01545a4c7e72ae73629c2aa1c97cc2nat;
    let e14 = 2 * e13 + 1;
    lemma_power_mod_square_times(3nat, e13, n, x13, 0x73aca4ad118a47bb13d574a4831e6a3anat, x14);
    let x15 = 0x18d98f7838558094f5bf1c7cf9d5a06dnat;
    let e15 = 2 * e14;
    lemma_power_mod_square(3nat, e14, n, x14, 0x3a74f73571799f1131b1d3079d8e5affnat, x15);
    let x16 = 0x418ea2bf43a6b792d23c915d7b793b1enat;
    let e16 = 2 * e15;
    lemma_power_mod_square(3nat, e15, n, x15, 0x3365f7a5c85b1980e7a9f58f06e8f93nat, x16);
    let x17 = 0x4865c59198df8507a960247ede8ad330nat;
    let e17 = 2 * e16 + 1;
    lemma_power_mod_square_times(3nat, e16, n, x16, 0x43128199c279d27612c289f03b952cfcnat, x17);
    let x18 = 0x473e2b9e64d0a05bbe2bfe46bec04cb6nat;
    let e18 = 2 * e17 + 1;
    lemma_power_mod_square_times(3nat, e17, n, x17, 0x51cca9307efcc5d63f755af24ea232banat, x18);
    let x19 = 0x32ca1fea1d3541d9e27e3b94de686434nat;
    let e19 = 2 * e18 + 1;
    lemma_power_mod_square_times(3nat, e18, n, x18, 0x4f36022d54c5016bfba176ff6317d138nat, x19);
    let x20 = 0x472250ac8fffbc97addd60ad5b0d9461nat;
    let e20 = 2 * e19 + 1;
    lemma_power_mod_square_times(3nat, e19, n, x19, 0x284207c1ebdba1eea6db726700c986f7nat, x20);
    let x21 = 0x73c3f6557827c22caf84f48c637399b4nat;
    let e21 = 2 * e20;
    lemma_power_mod_square(3nat, e20, n, x20, 0x1a52b46d8e4762fb007053d0a7985905nat, x21);
    let x22 = 0x101178c38d9b87a57076ea8927e877cbnat;
    let e22 = 2 * e21;
    lemma_power_mod_square(3nat, e21, n, x21, 0x45b796f942c5369cfbbb94d97fa57ffdnat, x22);
    let x23 = 0x65119685e04800569d4f86f9a11bbee8nat;
    let e23 = 2 * e22;
    lemma_power_mod_square(3nat, e22, n, x22, 0x157d7798dc9c78e751041e091085969nat, x23);
    let x24 = 0x84f7951360220a88056eeec1e1ec9cbcnat;
    let e24 = 2 * e23 + 1;
    lemma_power_mod_square_times(3nat, e23, n, x23, 0x9f6ae42ac28720ef103f61d28d346964nat, x24);
    let x25 = 0x180bfffe943b25c5653a207e4c4f0655nat;
    let e25 = 2 * e24 + 1;
    lemma_power_mod_square_times(3nat, e24, n, x24, 0x113ecd4cc1f9156c711a9c4815ea29da3nat, x25);
    let x26 = 0x11ee90dbec47be49df7d446db24b44e6nat;
    let e26 = 2 * e25 + 1;
    lemma_power_mod_square_times(3nat, e25, n, x25, 0x906415df571beadd02b9a72b72b0cfdnat, x26);
    let x27 = 0xbbb0e3036fd7c886b1cb66766cadb2d9nat;
    let e27 = 2 * e26;
    lemma_power_mod_square(3nat, e26, n, x26, 0x1ac3a16a33acbe801ebc679862ad413nat, x27);
    let x28 = 0x6b5235b481c52af2debfe84c4de4a1b0nat;
    let e28 = 2 * e27 + 1;
    lemma_power_mod_square_times(3nat, e27, n, x27, 0x225c7d956b3f5805bfe7c8cd8d9d85cabnat, x28);
    let x29 = 0xbafb20e2c6642874e209c0e1397d7676nat;
    let e29 = 2 * e28 + 1;
    lemma_power_mod_square_times(3nat, e28, n, x28, 0xb3c07528de127c8335657441700d1efanat, x29);
    let x30 = 0x90e31133a7fb9175c89b1be092639a36nat;
    let e30 = 2 * e29 + 1;
    lemma_power_mod_square_times(3nat, e29, n, x29, 0x221a10ea75f76bcd94f8893fa7462fa86nat, x30);
    let x31 = 0xf80e189576ec237a745ab667e7e2599nat;
    let e31 = 2 * e30;
    lemma_power_mod_square(3nat, e30, n, x30, 0x6d34549fe26d2fdaee84eb0e02759613nat, x31);
    let x32 = 0x362ed0ade82d7e6992d94bea84bc30cbnat;
    let e32 = 2 * e31;
    lemma_power_mod_square(3nat, e31, n, x31, 0x1401816b227e9bba2aa8a97676a6ab6nat, x32);
}

proof fn lemma_power_255515944373312847190720520512484175977_over_7240687_part_2()
    requires
        power_mod(3nat, 0x1bd689d5519e4f1dcnat, 0xc03a94b2d3e64419a05cd8ccbf987069nat) == 0x362ed0ade82d7e6992d94bea84bc30cbnat,
    ensures
        power_mod(3nat, 0x1bd689d5519e4f1dc57ba264enat, 0xc03a94b2d3e64419a05cd8ccbf987069nat) == 0x73b7535a08b767ef675b00b29431f86nat,
{
    let n = 0xc03a94b2d3e64419a05cd8ccbf987069nat;
    let e0 = 0x1bd689d5519e4f1dcnat;
    let x0 = 0x362ed0ade82d7e6992d94bea84bc30cbnat;
    let x1 = 0x156183fc364ec846469466209a3c249anat;
    let e1 = 2 * e0;
    lemma_power_mod_square(3nat, e0, n, x0, 0xf45b7e8833f47ec9e824b1a15200d87nat, x1);
    let x2 = 0x3a79825e78b5458b97b95c01738a83e4nat;
    let e2 = 2 * e1 + 1;
    lemma_power_mod_square_times(3nat, e1, n, x1, 0x72265f2b3593b2b549373b6f28530c8nat, x2);
    let x3 = 0xbf906971516448e47a5a57f997ba813enat;
    let e3 = 2 * e2;
    lemma_power_mod_square(3nat, e2, n, x2, 0x11c99e509a42090b4da3ec20e9419902nat, x3);
    let x4 = 0x35f6b898f28eef2b93e9f8aa4940fc72nat;
    let e4 = 2 * e3 + 1;
    lemma_power_mod_square_times(3nat, e3, n, x3, 0x23cb47e7b734655d4ba6f3e55622f2c8anat, x4);
    let x5 = 0x166b6100e32ca8c8178ab97755a0466nat;
    let e5 = 2 * e4;
    lemma_power_mod_square(3nat, e4, n, x4, 0xf2629063f0c182c2f08f79e0ac19faenat, x5);
    let x6 = 0xa56cfad468b3539fe806da6ef1e75bbcnat;
    let e6 = 2 * e5 + 1;
    lemma_power_mod_square_times(3nat, e5, n, x5, 0x7d82226a5cfdf0226ab03aa5576b0nat, x6);
    let x7 = 0x398a7488a6d16c6114766b56c5ed1300nat;
    let e7 = 2 * e6 + 1;
    lemma_power_mod_square_times(3nat, e6, n, x6, 0x1ab1458ac0a9a4d1a7db90a1d49da03b0nat, x7);
    let x8 = 0x3e98c20f83467ae331be2ff1a77a433dnat;
    let e8 = 2 * e7 + 1;
    lemma_power_mod_square_times(3nat, e7, n, x7, 0x33ac071e93688d902c8aafe01b1f9e4bnat, x8);
    let x9 = 0x539fff4021ef941112e045f5b5fd6c34nat;
    let e9 = 2 * e8 + 1;
    lemma_power_mod_square_times(3nat, e8, n, x8, 0x3d26bc3523eea1d9e3cb478a23acf14fnat, x9);
    let x10 = 0x551b2efc0ca3004dbc1fa60751b2d079nat;
    let e10 = 2 * e9;
    lemma_power_mod_square(3nat, e9, n, x9, 0x246115d83696b71de7f24333713be67fnat, x10);
    let x11 = 0x1f7f923ff721cb86d7aef5465e9296b0nat;
    let e11 = 2 * e10 + 1;
    lemma_power_mod_square_times(3nat, e10, n, x10, 0x7109c3302de8e87049dc6ca9234a116bnat, x11);
    let x12 = 0x41252ae37d666ea7dd060403f016be92nat;
    let e12 = 2 * e11 + 1;
    lemma_power_mod_square_times(3nat, e11, n, x11, 0xf7bda8fc8fcc81f6e7be051aa3e3b3enat, x12);
    let x13 = 0x1b3231b462f54605335f9985ca31d38anat;
    let e13 = 2 * e12 + 1;
    lemma_power_mod_square_times(3nat, e12, n, x12, 0x423b5f78d44303a9f972132e32f953f2nat, x13);
    let x14 = 0x78d838575cfcb143362a19c197f373c1nat;
    let e14 = 2 * e13;
    lemma_power_mod_square(3nat, e13, n, x13, 0x3d8fe9240d1d968f5e28db2ca50c92bnat, x14);
    let x15 = 0xcf7d296033da3c2548b30f943afc470nat;
    let e15 = 2 * e14 + 1;
    lemma_power_mod_square_times(3nat, e14, n, x14, 0xe3e824773678adc3701751af82502f1bnat, x15);
    let x16 = 0x3fb367903fbee5cf85546899260f9cd4nat;
    let e16 = 2 * e15;
    lemma_power_mod_square(3nat, e15, n, x15, 0xdff5ddc03ddec6a8da0076bd7e6d4cnat, x16);
    let x17 = 0x3336711a4fdae55dbdd76df343704b6cnat;
    let e17 = 2 * e16;
    lemma_power_mod_square(3nat, e16, n, x16, 0x151bf2cec3d3a7d0572d591e71809e84nat, x17);
    let x18 = 0x3ff50633b89dd8b0881d8286d7c945f9nat;
    let e18 = 2 * e17;
    lemma_power_mod_square(3nat, e17, n, x17, 0xda4d1d561c8cfd7f233291a43569fffnat, x18);
    let x19 = 0x456dd44fe4e001c0e6a3d69de2c0019enat;
    let e19 = 2 * e18 + 1;
    lemma_power_mod_square_times(3nat, e18, n, x18, 0x3fd6940666a1e1e3713f761f19bcacadnat, x19);
    let x20 = 0x73e3290135c5c2085c7f2024bc4afda4nat;
    let e20 = 2 * e19;
    lemma_power_mod_square(3nat, e19, n, x19, 0x191388c501eea774739ced7b5682a4e0nat, x20);
    let x21 = 0x691c369cbb604b24d834caba7449869anat;
    let e21 = 2 * e20;
    lemma_power_mod_square(3nat, e20, n, x20, 0x45dd2f9f27c0320781313386af092806nat, x21);
    let x22 = 0xb1e2de618bb0196c2fbc630476b47f34nat;
    let e22 = 2 * e21 + 1;
    lemma_power_mod_square_times(3nat, e21, n, x21, 0xac6c042279340ea3b8ca0cd7fbc571f8nat, x22);
    let x23 = 0x1215d661f1ec4fe0f7234cf9fe3a987fnat;
    let e23 = 2 * e22 + 1;
    lemma_power_mod_square_times(3nat, e22, n, x22, 0x1edd755680daecdf51c87b1408bb10f89nat, x23);
    let x24 = 0x317cac697a9d5d7529bd9fb54b402433nat;
    let e24 = 2 * e23;
    lemma_power_mod_square(3nat, e23, n, x23, 0x1b395c79a0a71fad5a7ae178c2ffa9enat, x24);
    let x25 = 0xb764e5424f44c96b3ebc71896b283aabnat;
    let e25 = 2 * e24;
    lemma_power_mod_square(3nat, e24, n, x24, 0xcbd65e081a726aa9cba2dfda357bbcenat, x25);
    let x26 = 0x754ae635a9c0584321d52160080ddd65nat;
    let e26 = 2 * e25 + 1;
    lemma_power_mod_square_times(3nat, e25, n, x25, 0x20ce577a2472cb3733edab5605f4b9a56nat, x26);
    let x27 = 0x77c6a64b7f332cf12cd4e1df952d3128nat;
    let e27 = 2 * e26;
    lemma_power_mod_square(3nat, e26, n, x26, 0x47918fb8528a82268b3201d62b409d09nat, x27);
    let x28 = 0xbae6be6a3ba924fc674e44fe6cdea728nat;
    let e28 = 2 * e27;
    lemma_power_mod_square(3nat, e27, n, x27, 0x4aa19bb6acaeac7a869959e274615358nat, x28);
    let x29 = 0x4bc4ac08b83babe2e35d0b081ec79b2cnat;
    let e29 = 2 * e28 + 1;
    lemma_power_mod_square_times(3nat, e28, n, x28, 0x2212a1d19f335871dcb32116e02695874nat, x29);
    let x30 = 0x7612488391636da0dcd1457ec90bbf76nat;
    let e30 = 2 * e29 + 1;
    lemma_power_mod_square_times(3nat, e29, n, x29, 0x5997f99d4945e6e4395d14b377d70e2anat, x30);
    let x31 = 0x92358e89dc6e6d706278f98104f317f1nat;
    let e31 = 2 * e30 + 1;
    lemma_power_mod_square_times(3nat, e30, n, x30, 0xd9910ef74a1e483066cb754b86790603nat, x31);
    let x32 = 0x73b7535a08b767ef675b00b29431f86nat;
    let e32 = 2 * e31;
    lemma_power_mod_square(3nat, e31, n, x31, 0x6f34e99b2bc5051da1a4220072acbb23nat, x32);
}

proof fn lemma_power_255515944373312847190720520512484175977_over_7240687_part_3()
    requires
        power_mod(3nat, 0x1bd689d5519e4f1dc57ba264enat, 0xc03a94b2d3e64419a05cd8ccbf987069nat) == 0x73b7535a08b767ef675b00b29431f86nat,
    ensures
        power_mod(3nat, 0x1bd689d5519e4f1dc57ba264e18nat, 0xc03a94b2d3e64419a05cd8ccbf987069nat) == 0x175abdc238fe0264a6762b260bece8d3nat,
{
    let n = 0xc03a94b2d3e64419a05cd8ccbf987069nat;
    let e0 = 0x1bd689d5519e4f1dc57ba264enat;
    let x0 = 0x73b7535a08b767ef675b00b29431f86nat;
    let x1 = 0x7f770532a8232335cb707e8ea131e98nat;
    let e1 = 2 * e0;
    lemma_power_mod_square(3nat, e0, n, x0, 0x45a85f6a0fb17740803eef1d0bcdacnat, x1);
    let x2 = 0xaa522b3106c6c71c5077d89f2b6736fanat;
    let e2 = 2 * e1;
    lemma_power_mod_square(3nat, e1, n, x1, 0x54854999c2aadad835510f65630056nat, x2);
    let x3 = 0x28463ad7ec369c2be237b2e1a24c91nat;
    let e3 = 2 * e2;
    lemma_power_mod_square(3nat, e2, n, x2, 0x96e8ef136af0943250990efd5229909bnat, x3);
    let x4 = 0x7c245a58677bf2e1a8da1d55b661f47anat;
    let e4 = 2 * e3 + 1;
    lemma_power_mod_square_times(3nat, e3, n, x3, 0x19505d67c2947c5a6a4015b2dd81nat, x4);
    let x5 = 0x60fda52cef865be48b58c545844289dfnat;
    let e5 = 2 * e4 + 1;
    lemma_power_mod_square_times(3nat, e4, n, x4, 0xf08390b8e3d5f42707fb22de34583e85nat, x5);
    let x6 = 0x40168c770c3f8a22d9041293d411acd3nat;
    let e6 = 2 * e5;
    lemma_power_mod_square(3nat, e5, n, x5, 0x30f005d9c3e3f474e691fecb4d91fa3enat, x6);
    let x7 = 0x6f5ad6317cae07ccc11ac7f8289b0e30nat;
    let e7 = 2 * e6;
    lemma_power_mod_square(3nat, e6, n, x6, 0x155ddb641998ad3abe5c204ed75c12d1nat, x7);
    let x8 = 0x175abdc238fe0264a6762b260bece8d3nat;
    let e8 = 2 * e7;
    lemma_power_mod_square(3nat, e7, n, x7, 0x408184386f466ad35b7a8cb4f3eef925nat, x8);
}

proof fn lemma_power_255515944373312847190720520512484175977_over_7240687()
    ensures
        power_mod(3nat, 0x1bd689d5519e4f1dc57ba264e18nat, 0xc03a94b2d3e64419a05cd8ccbf987069nat) == 0x175abdc238fe0264a6762b260bece8d3nat,
{
    lemma_power_mod_first(3nat, 0xc03a94b2d3e64419a05cd8ccbf987069nat);
    lemma_power_255515944373312847190720520512484175977_over_7240687_part_0();
    lemma_power_255515944373312847190720520512484175977_over_7240687_part_1();
    lemma_power_255515944373312847190720520512484175977_over_7240687_part_2();
    lemma_power_255515944373312847190720520512484175977_over_7240687_part_3();
}

proof fn lemma_power_255515944373312847190720520512484175977_over_107590001_part_0()
    requires
        power_mod(3nat, 1nat, 0xc03a94b2d3e64419a05cd8ccbf987069nat) == 3nat,
    ensures
        power_mod(3nat, 0x1df9bab44nat, 0xc03a94b2d3e64419a05cd8ccbf987069nat) == 0x74b24ca8687029991c5264aeaf9e5a57nat,
{
    let n = 0xc03a94b2d3e64419a05cd8ccbf987069nat;
    let e0 = 1nat;
    let x0 = 3nat;
    let x1 = 27nat;
    let e1 = 2 * e0 + 1;
    lemma_power_mod_square_times(3nat, e0, n, x0, 0nat, x1);
    let x2 = 2187nat;
    let e2 = 2 * e1 + 1;
    lemma_power_mod_square_times(3nat, e1, n, x1, 0nat, x2);
    let x3 = 0x48fb79nat;
    let e3 = 2 * e2;
    lemma_power_mod_square(3nat, e2, n, x2, 0nat, x3);
    let x4 = 0x3e6b41437d93nat;
    let e4 = 2 * e3 + 1;
    lemma_power_mod_square_times(3nat, e3, n, x3, 0nat, x4);
    let x5 = 0x2da861a4efa48d54dba0a73bnat;
    let e5 = 2 * e4 + 1;
    lemma_power_mod_square_times(3nat, e4, n, x4, 0nat, x5);
    let x6 = 0x7221d2b9ff2f6bd1ae0523bc4d6b7fc5nat;
    let e6 = 2 * e5 + 1;
    lemma_power_mod_square_times(3nat, e5, n, x5, 0x2088973139efbe16nat, x6);
    let x7 = 0xa2437e4882ccc2e142241fd455a29b86nat;
    let e7 = 2 * e6 + 1;
    lemma_power_mod_square_times(3nat, e6, n, x6, 0xcb4a89f628932f3f4f8feac100551a7dnat, x7);
    let x8 = 0x61d6dbff56d7de145fcac6acf97f78e1nat;
    let e8 = 2 * e7 + 1;
    lemma_power_mod_square_times(3nat, e7, n, x7, 0x19ae89752149b7035d046a0b44c72a7d3nat, x8);
    let x9 = 0x796c531d4d3b089cb52958289cd7d508nat;
    let e9 = 2 * e8 + 1;
    lemma_power_mod_square_times(3nat, e8, n, x8, 0x95648773f6df624a15e1f0d3b194c303nat, x9);
    let x10 = 0x772eb655060bd65d7e2911666b6a2f2enat;
    let e10 = 2 * e9;
    lemma_power_mod_square(3nat, e9, n, x9, 0x4cb2b47d883faee86d8a83d080e13642nat, x10);
    let x11 = 0x7a2ea8270a57d1852d7a3bba01763888nat;
    let e11 = 2 * e10;
    lemma_power_mod_square(3nat, e10, n, x10, 0x49e4bc6363345a2bbcb3b91f5e871e5cnat, x11);
    let x12 = 0xa16248d468cc2328f5373032895a9173nat;
    let e12 = 2 * e11 + 1;
    lemma_power_mod_square_times(3nat, e11, n, x11, 0xe8faed861d531d83dc43a0e74e1f4345nat, x12);
    let x13 = 0x405609a13af2c51143b40ae463e899ebnat;
    let e13 = 2 * e12 + 1;
    lemma_power_mod_square_times(3nat, e12, n, x12, 0x1967711432413b3b788df9bc0004ed890nat, x13);
    let x14 = 0x2888e21f276adf05def57a37fbae6dc6nat;
    let e14 = 2 * e13;
    lemma_power_mod_square(3nat, e13, n, x13, 0x158845cc992cb0f03d62c6ae140231fbnat, x14);
    let x15 = 0xaa255904b0c74ebbf98b070764e6f31fnat;
    let e15 = 2 * e14 + 1;
    lemma_power_mod_square_times(3nat, e14, n, x14, 0x19a46c8e53db664e5e07b2d753fa6045nat, x15);
    let x16 = 0x8c0f2a149028783962e3316052186069nat;
    let e16 = 2 * e15 + 1;
    lemma_power_mod_square_times(3nat, e15, n, x15, 0x1c3cca5a51279cd3a59c5a5f1a02196canat, x16);
    let x17 = 0xb51bef35291e6404c5b72830c2f500denat;
    let e17 = 2 * e16 + 1;
    lemma_power_mod_square_times(3nat, e16, n, x16, 0x13224f36ea2cd110d45e513590018530dnat, x17);
    let x18 = 0xa147e55f11534379e527c2470a8f2321nat;
    let e18 = 2 * e17;
    lemma_power_mod_square(3nat, e17, n, x17, 0xaaa1f4a9a985d5147e65efad05cd65ebnat, x18);
    let x19 = 0x9f26ecb26b91f4591c86d044d7924c88nat;
    let e19 = 2 * e18 + 1;
    lemma_power_mod_square_times(3nat, e18, n, x18, 0x195f22f3cb8d976f16f62df01b0a05903nat, x19);
    let x20 = 0x97a1fad9d8d7f6814eabfaa20b5c61a0nat;
    let e20 = 2 * e19;
    lemma_power_mod_square(3nat, e19, n, x19, 0x83c44be809e84529fac1c425a93e9da0nat, x20);
    let x21 = 0x3a54c89a249c320abc09736201e14422nat;
    let e21 = 2 * e20 + 1;
    lemma_power_mod_square_times(3nat, e20, n, x20, 0x166d4763edcb3a5a29f0f6e4a93682d2enat, x21);
    let x22 = 0x44a0c42cdef6f5ee583e7c2f30c9078bnat;
    let e22 = 2 * e21;
    lemma_power_mod_square(3nat, e21, n, x21, 0x11b34d6e0d3921f45144990beb1e2611nat, x22);
    let x23 = 0x1572638000a438418fa023fc1998bb12nat;
    let e23 = 2 * e22 + 1;
    lemma_power_mod_square_times(3nat, e22, n, x22, 0x4980c78d3bd0f5636296fcacbc5cbf71nat, x23);
    let x24 = 0x2b4afb11aee15fc2ca292fa531f4aefbnat;
    let e24 = 2 * e23 + 1;
    lemma_power_mod_square_times(3nat, e23, n, x23, 0x72dad0e3c7d3d82c59edc14799a7829nat, x24);
    let x25 = 0x47886adb208fa80b635d45909b4cb413nat;
    let e25 = 2 * e24;
    lemma_power_mod_square(3nat, e24, n, x24, 0x9c00ed675e7376edad120aadc73c516nat, x25);
    let x26 = 0xa022679c2485e9f1b9d1565fade17bdanat;
    let e26 = 2 * e25 + 1;
    lemma_power_mod_square_times(3nat, e25, n, x25, 0x4fdb726443e675ae7af807b5c5434139nat, x26);
    let x27 = 0x3721044eca62ea7234517ab42a94a646nat;
    let e27 = 2 * e26;
    lemma_power_mod_square(3nat, e26, n, x26, 0x8565ff63cc9f3afcfc734b6730b7e8aenat, x27);
    let x28 = 0x37642055e431295756ebdaaf3af1f996nat;
    let e28 = 2 * e27;
    lemma_power_mod_square(3nat, e27, n, x27, 0xfcf72916121c28d5064f31b06d3635enat, x28);
    let x29 = 0xa6ab7665107d287e9d9e42240445d9f5nat;
    let e29 = 2 * e28;
    lemma_power_mod_square(3nat, e28, n, x28, 0xff6080ea15050a31c6151bb29699c97nat, x29);
    let x30 = 0x7bfebb8105b825b42c69fe872b9272e3nat;
    let e30 = 2 * e29 + 1;
    lemma_power_mod_square_times(3nat, e29, n, x29, 0x1b186fbac9ae13d1e47fff78311623548nat, x30);
    let x31 = 0xbf29b1edd4ceb44ba7e5601bedcebe84nat;
    let e31 = 2 * e30;
    lemma_power_mod_square(3nat, e30, n, x30, 0x4ffb4b03451861e21d0ad4e6281847fdnat, x31);
    let x32 = 0x74b24ca8687029991c5264aeaf9e5a57nat;
    let e32 = 2 * e31;
    lemma_power_mod_square(3nat, e31, n, x31, 0xbe1a528b888a3697b99638f48bb2f4d1nat, x32);
}

proof fn lemma_power_255515944373312847190720520512484175977_over_107590001_part_1()
    requires
        power_mod(3nat, 0x1df9bab44nat, 0xc03a94b2d3e64419a05cd8ccbf987069nat) == 0x74b24ca8687029991c5264aeaf9e5a57nat,
    ensures
        power_mod(3nat, 0x1df9bab4430edf45fnat, 0xc03a94b2d3e64419a05cd8ccbf987069nat) == 0x9bea409b1f5097c79bad8bdd4373fa1enat,
{
    let n = 0xc03a94b2d3e64419a05cd8ccbf987069nat;
    let e0 = 0x1df9bab44nat;
    let x0 = 0x74b24ca8687029991c5264aeaf9e5a57nat;
    let x1 = 0x774ba02a9862365ca50fdd3ccedd0b3dnat;
    let e1 = 2 * e0;
    lemma_power_mod_square(3nat, e0, n, x0, 0x46d7cf7abc750e8c99b5e5b0ead90134nat, x1);
    let x2 = 0xb46adc3ce540b005c3ddeb77850ad35enat;
    let e2 = 2 * e1;
    lemma_power_mod_square(3nat, e1, n, x1, 0x4a089b0eb0cd176041d5355b00d3ea73nat, x2);
    let x3 = 0x1e764675c8cbb4fe415450215f86b0b9nat;
    let e3 = 2 * e2 + 1;
    lemma_power_mod_square_times(3nat, e2, n, x2, 0x1fbfecadd8a52f10d1c1d831f41ed01dbnat, x3);
    let x4 = 0x14c4b334471edeb341c835aff69b6b24nat;
    let e4 = 2 * e3 + 1;
    lemma_power_mod_square_times(3nat, e3, n, x3, 0xe7b51800c55b2fdd0cb91f6d7443897nat, x4);
    let x5 = 0x5e404808b20be6bfe37583f431f99fd6nat;
    let e5 = 2 * e4;
    lemma_power_mod_square(3nat, e4, n, x4, 0x23e6a41c95bd6a69403ea3770f92c2anat, x5);
    let x6 = 0x76552607d0a5b57daf948199a9ea0e6nat;
    let e6 = 2 * e5;
    lemma_power_mod_square(3nat, e5, n, x5, 0x2e36428a57706a57d4b5331de6bcb64enat, x6);
    let x7 = 0x905dc25c551ff4ac330458df5acbe24fnat;
    let e7 = 2 * e6;
    lemma_power_mod_square(3nat, e6, n, x6, 0x48d7eade138d5fc93dc02842921f0dnat, x7);
    let x8 = 0x7f8ad9eae5a7a9b11bbdaf622265b975nat;
    let e8 = 2 * e7;
    lemma_power_mod_square(3nat, e7, n, x7, 0x6c6bbccfd2060c5356a7934a8247260cnat, x8);
    let x9 = 0x8929077cfb10b5a8df7bc3b306623ad6nat;
    let e9 = 2 * e8 + 1;
    lemma_power_mod_square_times(3nat, e8, n, x8, 0xfddec8db63f2949f2fad124247e5444dnat, x9);
    let x10 = 0x6ea21c61b69ffb6e54a0d0787b06550nat;
    let e10 = 2 * e9 + 1;
    lemma_power_mod_square_times(3nat, e9, n, x9, 0x1259a2dbbe23c62e2e7f0835a92cbd4fcnat, x10);
    let x11 = 0x2bc9304ac4dce8a054210f02594f090nat;
    let e11 = 2 * e10 + 1;
    lemma_power_mod_square_times(3nat, e10, n, x10, 0xbf049432be6869ba5f99db812c98f0nat, x11);
    let x12 = 0x741372c1ad76b0db883e111f030a95dfnat;
    let e12 = 2 * e11;
    lemma_power_mod_square(3nat, e11, n, x11, 0x9f93ac4d3620c8f8d868c791e9df9nat, x12);
    let x13 = 0x8b031b4e93ac15911f5d7682dc96814anat;
    let e13 = 2 * e12 + 1;
    lemma_power_mod_square_times(3nat, e12, n, x12, 0xd2465dcb43e52fb0f2d027b570e37c91nat, x13);
    let x14 = 0xb323dfebb2c67fc79bafaff5dccc9287nat;
    let e14 = 2 * e13 + 1;
    lemma_power_mod_square_times(3nat, e13, n, x13, 0x12d957ab567a9242897eb87db9eae87ddnat, x14);
    let x15 = 0xb769f23b72c70d44b4c9acd60966d0a5nat;
    let e15 = 2 * e14;
    lemma_power_mod_square(3nat, e14, n, x14, 0xa6f150b2ec33c55a98c08218cc970cacnat, x15);
    let x16 = 0x29508cf54a9d8f201bca2a4e73d2d8cfnat;
    let e16 = 2 * e15 + 1;
    lemma_power_mod_square_times(3nat, e15, n, x15, 0x20d0261537bbb2ee71fbd8a32fa4f4cdcnat, x16);
    let x17 = 0x1ccce5075591a4480d1ff2932cbb55e7nat;
    let e17 = 2 * e16 + 1;
    lemma_power_mod_square_times(3nat, e16, n, x16, 0x1aa3794dc156d5e8e0d56e5a44e386dcnat, x17);
    let x18 = 0x3d14cd45cd4e17600a07b6d8507dc57enat;
    let e18 = 2 * e17 + 1;
    lemma_power_mod_square_times(3nat, e17, n, x17, 0xcf1e544913d74ffa8661798c9d5d48dnat, x18);
    let x19 = 0x5609abca8613a42b4e08e9164d4fd35nat;
    let e19 = 2 * e18 + 1;
    lemma_power_mod_square_times(3nat, e18, n, x18, 0x3a39ea23a82bd022b709ca24413b3f3fnat, x19);
    let x20 = 0x506e3742991bb75855120ac0f366b726nat;
    let e20 = 2 * e19 + 1;
    lemma_power_mod_square_times(3nat, e19, n, x19, 0x7386bfa3b4d21f1e0376eb0bafd8fdnat, x20);
    let x21 = 0x532aa9b0a3972eab38519a6a391b1976nat;
    let e21 = 2 * e20;
    lemma_power_mod_square(3nat, e20, n, x20, 0x21a728c25ee4700a9cd8d1fa67b7f8fenat, x21);
    let x22 = 0x9612db2fedb49dcfec65870f0b5cceefnat;
    let e22 = 2 * e21 + 1;
    lemma_power_mod_square_times(3nat, e21, n, x21, 0x6bf1d540982cef315c324b1cc8ccceb5nat, x22);
    let x23 = 0x4a3d5d4401e17d0c90c4672eb829317dnat;
    let e23 = 2 * e22;
    lemma_power_mod_square(3nat, e22, n, x22, 0x7529b8fd20e93d5900793e98c41c1004nat, x23);
    let x24 = 0x597e374e75f6a630c981466a56c8b1cenat;
    let e24 = 2 * e23;
    lemma_power_mod_square(3nat, e23, n, x23, 0x1cabf6af6a6c38f747635c2f5f1df403nat, x24);
    let x25 = 0x4530173967106efcac03e2a184875edanat;
    let e25 = 2 * e24;
    lemma_power_mod_square(3nat, e24, n, x24, 0x29a9f54d79914c11b20a12635f0eee5anat, x25);
    let x26 = 0x3c2aeb857ef1646692aa60dad9394e6bnat;
    let e26 = 2 * e25 + 1;
    lemma_power_mod_square_times(3nat, e25, n, x25, 0x4ab50aff84ce5326a94e7dd2cd274259nat, x26);
    let x27 = 0x256d2a9fb77a75ddcf01a3c74c4aeb7cnat;
    let e27 = 2 * e26;
    lemma_power_mod_square(3nat, e26, n, x26, 0x12d51dd4c65a825537a480b34211c3b5nat, x27);
    let x28 = 0xbcab35106fb912b78633ba7f9751f227nat;
    let e28 = 2 * e27 + 1;
    lemma_power_mod_square_times(3nat, e27, n, x27, 0x15dc4804b89df24de501e8131344c8a1nat, x28);
    let x29 = 0x536b5b6c0d5647ec29ae6e503fb6ea08nat;
    let e29 = 2 * e28 + 1;
    lemma_power_mod_square_times(3nat, e28, n, x28, 0x22b8622fe404cba3e0a87ba6fa4cb6413nat, x29);
    let x30 = 0xb4babb8635460370e5639ee1d5b6627cnat;
    let e30 = 2 * e29 + 1;
    lemma_power_mod_square_times(3nat, e29, n, x29, 0x6c9a0693439cd276da4b128363fe43a4nat, x30);
    let x31 = 0xff8be0d93e9a58a48ab60540416e414nat;
    let e31 = 2 * e30 + 1;
    lemma_power_mod_square_times(3nat, e30, n, x30, 0x1fdc0f7e74d6c99122b258b055a6d1bbcnat, x31);
    let x32 = 0x9bea409b1f5097c79bad8bdd4373fa1enat;
    let e32 = 2 * e31 + 1;
    lemma_power_mod_square_times(3nat, e31, n, x31, 0x3fb28e526499211d42579620c8c83c2nat, x32);
}

proof fn lemma_power_255515944373312847190720520512484175977_over_107590001_part_2()
    requires
        power_mod(3nat, 0x1df9bab4430edf45fnat, 0xc03a94b2d3e64419a05cd8ccbf987069nat) == 0x9bea409b1f5097c79bad8bdd4373fa1enat,
    ensures
        power_mod(3nat, 0x1df9bab4430edf45ff20d8c2enat, 0xc03a94b2d3e64419a05cd8ccbf987069nat) == 0x866fe6f7618006092b2fa23807644a81nat,
{
    let n = 0xc03a94b2d3e64419a05cd8ccbf987069nat;
    let e0 = 0x1df9bab4430edf45fnat;
    let x0 = 0x9bea409b1f5097c79bad8bdd4373fa1enat;
    let x1 = 0xac771c784a3c65e97b511ad106698536nat;
    let e1 = 2 * e0 + 1;
    lemma_power_mod_square_times(3nat, e0, n, x0, 0x17b624181d7b773781f72dcef5a84f7e6nat, x1);
    let x2 = 0x4b8e6909633c94cb0651ff1213b823adnat;
    let e2 = 2 * e1 + 1;
    lemma_power_mod_square_times(3nat, e1, n, x1, 0x1d03374fbca1751a929a40db8a73e4ea7nat, x2);
    let x3 = 0x3bc57739f17e032a9dfc9880d45a1dccnat;
    let e3 = 2 * e2 + 1;
    lemma_power_mod_square_times(3nat, e2, n, x2, 0x5917d4335322b7ba7738a82a1eeb5597nat, x3);
    let x4 = 0xac6e9e65c39c18efb7b90c3acd9e7fcbnat;
    let e4 = 2 * e3 + 1;
    lemma_power_mod_square_times(3nat, e3, n, x3, 0x37c172222a3baceb732f37eb0c27341dnat, x4);
    let x5 = 0x429eada7c57629898ddc76283422020dnat;
    let e5 = 2 * e4;
    lemma_power_mod_square(3nat, e4, n, x4, 0x9aac94ef95333039bc4b20e809e1240cnat, x5);
    let x6 = 0xb94bf389fd107553e99179ce99d9fd29nat;
    let e6 = 2 * e5;
    lemma_power_mod_square(3nat, e5, n, x5, 0x17168f2a4a14f39f5c62a8c8f9d58b80nat, x6);
    let x7 = 0xac3fb6150a97f3366ffdd3f82be9c429nat;
    let e7 = 2 * e6 + 1;
    lemma_power_mod_square_times(3nat, e6, n, x6, 0x217d7f48769865c7aae5c315de5b28ffanat, x7);
    let x8 = 0x2e0ce4bd83cf7e828eb90c726a8bea03nat;
    let e8 = 2 * e7;
    lemma_power_mod_square(3nat, e7, n, x7, 0x9a58791bfdf4db0813bbb4e3655aee5enat, x8);
    let x9 = 0x1b33a19f1f99915002bc6e4bea119d28nat;
    let e9 = 2 * e8;
    lemma_power_mod_square(3nat, e8, n, x8, 0xb082621b961dcb1f5a70738bcb72bb9nat, x9);
    let x10 = 0xa36a9e4b2b7d08511f9d54dbc36b113enat;
    let e10 = 2 * e9;
    lemma_power_mod_square(3nat, e9, n, x9, 0x3d966afa0ccac15400d4b5c20be7cb2nat, x10);
    let x11 = 0xb290cf42ea212b08394c0aed0b5383dfnat;
    let e11 = 2 * e10;
    lemma_power_mod_square(3nat, e10, n, x10, 0x8aec35076fea955078c9588bf003495dnat, x11);
    let x12 = 0xb7d3feca22057b6a3cdba85a687e9e75nat;
    let e12 = 2 * e11;
    lemma_power_mod_square(3nat, e11, n, x11, 0xa5dfa6d28cf37b8e7875bb5e0edc35ecnat, x12);
    let x13 = 0x5c983df01b2da6df02e16b9f52a5fc84nat;
    let e13 = 2 * e12 + 1;
    lemma_power_mod_square_times(3nat, e12, n, x12, 0x20f622e86fd567eae9b0ecdc3ab508bcfnat, x13);
    let x14 = 0xa6913424c8026ca535216ed22f22c357nat;
    let e14 = 2 * e13 + 1;
    lemma_power_mod_square_times(3nat, e13, n, x13, 0x85ce48f1bd14a50a584dd329f45666f1nat, x14);
    let x15 = 0x83195f376e1b5a7c47dfc1d67d4f05b6nat;
    let e15 = 2 * e14;
    lemma_power_mod_square(3nat, e14, n, x14, 0x9054ce9435a4a548af98a57374f0b7a3nat, x15);
    let x16 = 0x54386123b129be1e9a2cfe1d9d1872ccnat;
    let e16 = 2 * e15 + 1;
    lemma_power_mod_square_times(3nat, e15, n, x15, 0x10c3a113e107b1b9aeab41cfa74998e60nat, x16);
    let x17 = 0xab53bc9ab433ea33a75ad6c08f6fcd1enat;
    let e17 = 2 * e16 + 1;
    lemma_power_mod_square_times(3nat, e16, n, x16, 0x6eb26a5cd5586f444b3b65ddae8ac3c2nat, x17);
    let x18 = 0x21ece97a42e31ba3ce16248e45057aeenat;
    let e18 = 2 * e17;
    lemma_power_mod_square(3nat, e17, n, x17, 0x98b2b58f3298e09170cb4c753ec31d26nat, x18);
    let x19 = 0x753f5decef8a185f8c40a4e2dfc0b2bnat;
    let e19 = 2 * e18;
    lemma_power_mod_square(3nat, e18, n, x18, 0x5fcc0ee69cbfedf7755870af0543631nat, x19);
    let x20 = 0x1ca486b56b5eed4fa55c07bba251eee0nat;
    let e20 = 2 * e19;
    lemma_power_mod_square(3nat, e19, n, x19, 0x47837d9cac649b528882e5169a4c71nat, x20);
    let x21 = 0x39044da89155b9006abc204c7a0a8d0fnat;
    let e21 = 2 * e20 + 1;
    lemma_power_mod_square_times(3nat, e20, n, x20, 0xccdb4c3cd45191f5526efa6167d8949nat, x21);
    let x22 = 0x5608b319c376d29762eb70e80464238fnat;
    let e22 = 2 * e21 + 1;
    lemma_power_mod_square_times(3nat, e21, n, x21, 0x32bc2fcf942976cd1425ca67086d45f4nat, x22);
    let x23 = 0x83edce55b6d0184083dbf5f2e014b32anat;
    let e23 = 2 * e22;
    lemma_power_mod_square(3nat, e22, n, x22, 0x2681614458eb5e98b3872053ffaa0a1fnat, x23);
    let x24 = 0x9edd8844a39e2854b73b88c99c271238nat;
    let e24 = 2 * e23;
    lemma_power_mod_square(3nat, e23, n, x23, 0x5a8b5d35f8314a4f5fc0aa4dd4f695ccnat, x24);
    let x25 = 0xbab2c3f43d4c18c888b6cc323af47301nat;
    let e25 = 2 * e24;
    lemma_power_mod_square(3nat, e24, n, x24, 0x834ae0e9c45fda508225c7ddee186767nat, x25);
    let x26 = 0x836d47f3981806dbdc9ba3e7d30e7f44nat;
    let e26 = 2 * e25;
    lemma_power_mod_square(3nat, e25, n, x25, 0xb553af0f0d172301a257b73415eef935nat, x26);
    let x27 = 0x5008095e625a731ca0abd62b7fae9feenat;
    let e27 = 2 * e26 + 1;
    lemma_power_mod_square_times(3nat, e26, n, x26, 0x10d91d9a6b26a1b8f5c8fb2d8a87783f2nat, x27);
    let x28 = 0x17c9facb480198bdabf66a02a0117574nat;
    let e28 = 2 * e27;
    lemma_power_mod_square(3nat, e27, n, x27, 0x2151dd9bafc2c9aa69dfe86e5b983350nat, x28);
    let x29 = 0x1db40399d12c8dc0ea2e58275492bbb2nat;
    let e29 = 2 * e28 + 1;
    lemma_power_mod_square_times(3nat, e28, n, x28, 0x8d4f7d9fca2aa1a96760137a59faa4enat, x29);
    let x30 = 0x4a7ddfe1b8608a05caccec4f96dee7a2nat;
    let e30 = 2 * e29 + 1;
    lemma_power_mod_square_times(3nat, e29, n, x29, 0xdc4ea1c518dc261be487192aabb7d1anat, x30);
    let x31 = 0xbae5a24bfa3280f99e84ce5822652ac4nat;
    let e31 = 2 * e30 + 1;
    lemma_power_mod_square_times(3nat, e30, n, x30, 0x5699a1267ac0111621c1842a05989d88nat, x31);
    let x32 = 0x866fe6f7618006092b2fa23807644a81nat;
    let e32 = 2 * e31;
    lemma_power_mod_square(3nat, e31, n, x31, 0xb5b68be2abc42aa45949537eb4f62d37nat, x32);
}

proof fn lemma_power_255515944373312847190720520512484175977_over_107590001_part_3()
    requires
        power_mod(3nat, 0x1df9bab4430edf45ff20d8c2enat, 0xc03a94b2d3e64419a05cd8ccbf987069nat) == 0x866fe6f7618006092b2fa23807644a81nat,
    ensures
        power_mod(3nat, 0x1df9bab4430edf45ff20d8c2e8nat, 0xc03a94b2d3e64419a05cd8ccbf987069nat) == 0xdcb39360cb6a18852866c9ede8605c5nat,
{
    let n = 0xc03a94b2d3e64419a05cd8ccbf987069nat;
    let e0 = 0x1df9bab4430edf45ff20d8c2enat;
    let x0 = 0x866fe6f7618006092b2fa23807644a81nat;
    let x1 = 0xa5a13b8e90ed95b0c68aebe8f8d03946nat;
    let e1 = 2 * e0 + 1;
    lemma_power_mod_square_times(3nat, e0, n, x0, 0x11a0f4bc2f124fc45a9593210153d0035nat, x1);
    let x2 = 0x42a9e2adf3e85d600effa43c55621dadnat;
    let e2 = 2 * e1;
    lemma_power_mod_square(3nat, e1, n, x1, 0x8eb61ae392dcc6ccc9a4d5ff8a7bc6dfnat, x2);
    let x3 = 0x2853a6de41370d62a98af2650f2e2209nat;
    let e3 = 2 * e2;
    lemma_power_mod_square(3nat, e2, n, x2, 0x171e546d45d146bbbc742ed0254dc1e0nat, x3);
    let x4 = 0xdcb39360cb6a18852866c9ede8605c5nat;
    let e4 = 2 * e3;
    lemma_power_mod_square(3nat, e3, n, x3, 0x875bfda2d65571e7f4e6c65af2f18acnat, x4);
}

proof fn lemma_power_255515944373312847190720520512484175977_over_107590001()
    ensures
        power_mod(3nat, 0x1df9bab4430edf45ff20d8c2e8nat, 0xc03a94b2d3e64419a05cd8ccbf987069nat) == 0xdcb39360cb6a18852866c9ede8605c5nat,
{
    lemma_power_mod_first(3nat, 0xc03a94b2d3e64419a05cd8ccbf987069nat);
    lemma_power_255515944373312847190720520512484175977_over_107590001_part_0();
    lemma_power_255515944373312847190720520512484175977_over_107590001_part_1();
    lemma_power_255515944373312847190720520512484175977_over_107590001_part_2();
    lemma_power_255515944373312847190720520512484175977_over_107590001_part_3();
}

proof fn lemma_certificate_255515944373312847190720520512484175977()
    ensures
        is_certificate(0xc03a94b2d3e64419a05cd8ccbf987069nat, 3nat, seq![2nat, 2nat, 2nat, 7nat, 7nat, 11nat, 1627nat, 2657nat, 4423nat, 41201nat, 96557nat, 0x6e7befnat, 0x669b171nat]),
{
    let n = 0xc03a94b2d3e64419a05cd8ccbf987069nat;
    let factors = seq![2nat, 2nat, 2nat, 7nat, 7nat, 11nat, 1627nat, 2657nat, 4423nat, 41201nat, 96557nat, 0x6e7befnat, 0x669b171nat];
    lemma_small_primes();
    lemma_small_primes();
    lemma_prime_11();
    lemma_prime_1627();
    lemma_prime_2657();
    lemma_prime_4423();
    lemma_prime_41201();
    lemma_prime_96557();
    lemma_prime_7240687();
    lemma_prime_107590001();
    lemma_power_255515944373312847190720520512484175977_over_2();
    lemma_fundamental_div_mod_converse(0xc03a94b2d3e64419a05cd8ccbf987068int, 2int, 0x601d4a5969f3220cd02e6c665fcc3834int, 0);
    lemma_power_255515944373312847190720520512484175977_over_7();
    lemma_fundamental_div_mod_converse(0xc03a94b2d3e64419a05cd8ccbf987068int, 7int, 0x1b76153e1e457771600d438af6cca258int, 0);
    lemma_power_255515944373312847190720520512484175977_over_11();
    lemma_fundamental_div_mod_converse(0xc03a94b2d3e64419a05cd8ccbf987068int, 11int, 0x1179b06d5914eeeb0e9413b585c80a38int, 0);
    lemma_power_255515944373312847190720520512484175977_over_1627();
    lemma_fundamental_div_mod_converse(0xc03a94b2d3e64419a05cd8ccbf987068int, 1627int, 0x1e3f07814f717cca4961370a07cdb8int, 0);
    lemma_power_255515944373312847190720520512484175977_over_2657();
    lemma_fundamental_div_mod_converse(0xc03a94b2d3e64419a05cd8ccbf987068int, 2657int, 0x12856741e2e490eb3fb8c87bc8d968int, 0);
    lemma_power_255515944373312847190720520512484175977_over_4423();
    lemma_fundamental_div_mod_converse(0xc03a94b2d3e64419a05cd8ccbf987068int, 4423int, 0xb2045ba2137858883fc5841198058int, 0);
    lemma_power_255515944373312847190720520512484175977_over_41201();
    lemma_fundamental_div_mod_converse(0xc03a94b2d3e64419a05cd8ccbf987068int, 41201int, 0x131c45e23872017d1ec621a4ff6e8int, 0);
    lemma_power_255515944373312847190720520512484175977_over_96557();
    lemma_fundamental_div_mod_converse(0xc03a94b2d3e64419a05cd8ccbf987068int, 96557int, 0x8278a144e8c47b49fc2b2219a308int, 0);
    lemma_power_255515944373312847190720520512484175977_over_7240687();
    lemma_fundamental_div_mod_converse(0xc03a94b2d3e64419a05cd8ccbf987068int, 0x6e7befint, 0x1bd689d5519e4f1dc57ba264e18int, 0);
    lemma_power_255515944373312847190720520512484175977_over_107590001();
    lemma_fundamental_div_mod_converse(0xc03a94b2d3e64419a05cd8ccbf987068int, 0x669b171int, 0x1df9bab4430edf45ff20d8c2e8int, 0);
    lemma_power_mod_square(3nat, 0x601d4a5969f3220cd02e6c665fcc3834nat, n, 0xc03a94b2d3e64419a05cd8ccbf987068nat, 0xc03a94b2d3e64419a05cd8ccbf987067nat, 1);
    let f0 = Seq::<nat>::empty();
    lemma_product_push(f0, 2nat, 1nat);
    let f1 = f0.push(2nat);
    lemma_product_push(f1, 2nat, 2nat);
    let f2 = f1.push(2nat);
    lemma_product_push(f2, 2nat, 4nat);
    let f3 = f2.push(2nat);
    lemma_product_push(f3, 7nat, 8nat);
    let f4 = f3.push(7nat);
    lemma_product_push(f4, 7nat, 56nat);
    let f5 = f4.push(7nat);
    lemma_product_push(f5, 11nat, 392nat);
    let f6 = f5.push(11nat);
    lemma_product_push(f6, 1627nat, 4312nat);
    let f7 = f6.push(1627nat);
    lemma_product_push(f7, 2657nat, 0x6b0cc8nat);
    let f8 = f7.push(2657nat);
    lemma_product_push(f8, 4423nat, 0x4570fa7c8nat);
    let f9 = f8.push(4423nat);
    lemma_product_push(f9, 41201nat, 0x4afc2f7bd078nat);
    let f10 = f9.push(41201nat);
    lemma_product_push(f10, 96557nat, 0x2f24351615da40f8nat);
    let f11 = f10.push(96557nat);
    lemma_product_push(f11, 0x6e7befnat, 0x45749b8adb10410aa398nat);
    let f12 = f11.push(0x6e7befnat);
    lemma_product_push(f12, 0x669b171nat, 0x1df9bab4430edf45ff20d8c2e8nat);
    let f13 = f12.push(0x669b171nat);
    assert(factors =~= f13);
    assert forall|j: int| 0 <= j < factors.len() implies is_prime(#[trigger] factors[j])
        && power_mod(3nat, ((n - 1) / factors[j] as int) as nat, n) != 1 by {
        if j == 0 {
        } else if j == 1 {
        } else if j == 2 {
        } else if j == 3 {
        } else if j == 4 {
        } else if j == 5 {
        } else if j == 6 {
        } else if j == 7 {
        } else if j == 8 {
        } else if j == 9 {
        } else if j == 10 {
        } else if j == 11 {
        } else if j == 12 {
        }
    }
}

/// 255515944373312847190720520512484175977 is prime.
pub(crate) proof fn lemma_prime_255515944373312847190720520512484175977()
    ensures
        is_prime(0xc03a94b2d3e64419a05cd8ccbf987069nat),
{
    lemma_certificate_255515944373312847190720520512484175977();
    lemma_certified_prime(0xc03a94b2d3e64419a05cd8ccbf987069nat, 3nat, seq![2nat, 2nat, 2nat, 7nat, 7nat, 11nat, 1627nat, 2657nat, 4423nat, 41201nat, 96557nat, 0x6e7befnat, 0x669b171nat]);
}

proof fn lemma_power_205115282021455665897114700593932402728804164701536103180137503955397371_over_2_part_0()
    requires
        power_mod(10nat, 1nat, 0x1db8260e5e3b460a46a0088fccf6a3a5936d75d89a776d4c0da4f338aafbnat) == 10nat,
    ensures
        power_mod(10nat, 0x1db8260e5nat, 0x1db8260e5e3b460a46a0088fccf6a3a5936d75d89a776d4c0da4f338aafbnat) == 0x1d8fbab2e9c61a54768872a3067e5f75760f0cd74d74189ba8959db00d3bnat,
{
    let n = 0x1db8260e5e3b460a46a0088fccf6a3a5936d75d89a776d4c0da4f338aafbnat;
    let e0 = 1nat;
    let x0 = 10nat;
    let x1 = 1000nat;
    let e1 = 2 * e0 + 1;
    lemma_power_mod_square_times(10nat, e0, n, x0, 0nat, x1);
    let x2 = 0x989680nat;
    let e2 = 2 * e1 + 1;
    lemma_power_mod_square_times(10nat, e1, n, x1, 0nat, x2);
    let x3 = 0x5af3107a4000nat;
    let e3 = 2 * e2;
    lemma_power_mod_square(10nat, e2, n, x2, 0nat, x3);
    let x4 = 0x1431e0fae6d7217caa0000000nat;
    let e4 = 2 * e3 + 1;
    lemma_power_mod_square_times(10nat, e3, n, x3, 0nat, x4);
    let x5 = 0xfee50b7025c36a0802f236d04753d5b48e800000000000000nat;
    let e5 = 2 * e4 + 1;
    lemma_power_mod_square_times(10nat, e4, n, x4, 0nat, x5);
    let x6 = 0x999503682d811e609158538f97f312e10e49df1f6bf4aeadd8f70f6b01dnat;
    let e6 = 2 * e5;
    lemma_power_mod_square(10nat, e5, n, x5, 0x88a29d030423942bd9128f6cf71a4c6c0bd5a39nat, x6);
    let x7 = 0xe34e27eda709d2908d1cf2bfe0ac41beb6eb94d176a1ad8d8614e71661anat;
    let e7 = 2 * e6 + 1;
    lemma_power_mod_square_times(10nat, e6, n, x6, 0x1f00bd1d636de2e639061a52500ec0ae02786e2538a1740dbcabb3a37440nat, x7);
    let x8 = 0xf77049736704d6cd457316559979a7ec44a32b044a53e2af731d9896391nat;
    let e8 = 2 * e7 + 1;
    lemma_power_mod_square_times(10nat, e7, n, x7, 0x43e93742c441b22300885e01c10aeef627649be8ee9751069324675dacd5nat, x8);
    let x9 = 0x17c3ea88d6580ef6fe0ccf46cf2f2fd05bc1f91c8e1cd81b83b0d0de12ednat;
    let e9 = 2 * e8 + 1;
    lemma_power_mod_square_times(10nat, e8, n, x8, 0x50795cd951175161fadf0af0ea4e5cbf78fca70bd545c6254a6aea0d1c87nat, x9);
    let x10 = 0x16a962528261688d1c50a19ab8773483cb34127ac721dad01e94ceebc31anat;
    let e10 = 2 * e9;
    lemma_power_mod_square(10nat, e9, n, x9, 0x13010d350efce271fa054921a268525b235aa1e894273fc97b4ba4e9c3bdnat, x10);
    let x11 = 0x9bd27b988d5dac4f1a70f938fbcd052a5c46564df9839eed04bfc6065fdnat;
    let e11 = 2 * e10;
    lemma_power_mod_square(10nat, e10, n, x10, 0x1147af7f1583a3b8270ebd297055c227012bc8053d0f9041a7ed66e8f945nat, x11);
    let x12 = 0xf8db1ed3772c1e258f0ee1ea774f60c315e2df2c46401dffb9737db94bnat;
    let e12 = 2 * e11;
    lemma_power_mod_square(10nat, e11, n, x11, 0x330fed4dd3c922801470797280067a659ae114a2a44c57b2ece6da48bdanat, x12);
    let x13 = 0x1b140978e234c90b1f43124879a140880313804df67200e0542faf4fb49cnat;
    let e13 = 2 * e12;
    lemma_power_mod_square(10nat, e12, n, x12, 0x823cdfb3849df7b8b8e507dc4200e6f1e9f95a0e36eea92df48da4787nat, x13);
    let x14 = 0x500f8f6488f2d29726e61fc878fa899061994f1fcd854237947a3a02955nat;
    let e14 = 2 * e13;
    lemma_power_mod_square(10nat, e13, n, x13, 0x18ac025b87528cdecdd1a870d747dd4c1118b32d4e2a7971ecb95cd8c441nat, x14);
    let x15 = 0x1be655239984bfb85dd68628f621bae850029cd7a85d812c86fe21d84663nat;
    let e15 = 2 * e14 + 1;
    lemma_power_mod_square_times(10nat, e14, n, x14, 0x86cc10b6f33bbba1868d2873bdac45279f5c2110994b9e9193d7e2e6fd5nat, x15);
    let x16 = 0x164541f0a578f1cf616313bb54e3ef8e53375551cf1c67b5e9b77ed48bccnat;
    let e16 = 2 * e15;
    lemma_power_mod_square(10nat, e15, n, x15, 0x1a310959787c11d0586c5c308c8857d47950e637a5b4a51bf75c65e082e7nat, x16);
    let x17 = 0x18c6a353ea6931923a0632a4662e0b7f8563fe7de02210d92c0a70e56156nat;
    let e17 = 2 * e16;
    lemma_power_mod_square(10nat, e16, n, x16, 0x10b04e4bd5efd1e6e491d918fb6499dfb4e77cf0fed97e56bbe71ed6368enat, x17);
    let x18 = 0x6ed9d73f4b4ee927d4522ba4c60c8657d876f2ca5418101b07222cc8f4fnat;
    let e18 = 2 * e17 + 1;
    lemma_power_mod_square_times(10nat, e17, n, x17, 0xce8c46a50fdb98d4bbfdff007bdce68dc680bf346edb80f5af7cf2eef97bnat, x18);
    let x19 = 0x418fe0a1a05e6761180509f2ee9dcb678b4c09dbafea1370e5359fc1c30nat;
    let e19 = 2 * e18 + 1;
    lemma_power_mod_square_times(10nat, e18, n, x18, 0x1026a8cf71deb90b9844b562d779c7230a0e164022eae6476d1077f18faenat, x19);
    let x20 = 0x1b9aaada9e65f1861ffef3c92b7626e72ab90e77a69f7feb00aada818984nat;
    let e20 = 2 * e19;
    lemma_power_mod_square(10nat, e19, n, x19, 0x90a1e61cc3dace3dee5e2071ca9414aae5af23c8f32dc277ee7997a5b4nat, x20);
    let x21 = 0xd3d95008601f3b2f266342827760f450f4e1127cc659cfa83406bbc616bnat;
    let e21 = 2 * e20;
    lemma_power_mod_square(10nat, e20, n, x20, 0x19a3b959a8c558d094b1d31b83c23487c1bb1d60249279b96bff46028edfnat, x21);
    let x22 = 0x17849be7da935710d01d2eb93f5ab5021afa6d490a5e7bdd26dfac14b4b6nat;
    let e22 = 2 * e21;
    lemma_power_mod_square(10nat, e21, n, x21, 0x5e6205dfb5bfc3e0aef3fda45ff363126f7d01a65a5d4ab0d7e4797ba99nat, x22);
    let x23 = 0x19f602677536696dea137ae0b342fdab951a45e60979480107510ea1a2ednat;
    let e23 = 2 * e22;
    lemma_power_mod_square(10nat, e22, n, x22, 0x129c548b6b634818daaec145fb8e4da5adc252c0c59939d504503a75d1b5nat, x23);
    let x24 = 0x2bea2c246ebad5e6dab1f7a0f12a5dc9c738ddec2b279518d348b02a704nat;
    let e24 = 2 * e23;
    lemma_power_mod_square(10nat, e23, n, x23, 0x16ad8b3b54bcb0e0b9f8f22c85857d9090cde3ad7521edebfd56bb281c1fnat, x24);
    let x25 = 0x112cb3902aad40c1e3c659eb1a5403052ed0479d56a781a8ed80e4e1d701nat;
    let e25 = 2 * e24 + 1;
    lemma_power_mod_square_times(10nat, e24, n, x24, 0x288e7d61a011755b0b68082484465a94e92ec08e8f97a43a79ea6b90aadnat, x25);
    let x26 = 0x79b256e36b41de3f85367db46b3470189b35e3a5e29242f3cff0dc1d80cnat;
    let e26 = 2 * e25 + 1;
    lemma_power_mod_square_times(10nat, e25, n, x25, 0x6340430bd5f0dde5e561c390d983b15e7e0dbba43a57c77e191220d6fb9anat, x26);
    let x27 = 0x33c86a478f30e01d3e0e628a12a6e4d00bf4d6885e0d8a25a3e7399f851nat;
    let e27 = 2 * e26 + 1;
    lemma_power_mod_square_times(10nat, e26, n, x26, 0x1377500c708ca24d1c89d58b0666de3b51157955ebc2a1fabcd0d3ee56bdnat, x27);
    let x28 = 0x178c8c5540f00efb2e3e31e5746bf0c18680240b7923e1612acdbf4b3a17nat;
    let e28 = 2 * e27;
    lemma_power_mod_square(10nat, e27, n, x27, 0x5a39f0050350996a05ef6508b10c711d75ad6d782d5b2c536c17ee787enat, x28);
    let x29 = 0x193a62965e25f0450043ed259bd9e8842deb0a449cd55047927db8126bcnat;
    let e29 = 2 * e28;
    lemma_power_mod_square(10nat, e28, n, x28, 0x12a8e755c8bde31b953fbf1c454b5f493d12d0f3f766f8c1b706b75e45efnat, x29);
    let x30 = 0x171273ad7e3c14934c505b0dc57486b29bb4cb0fc37a3fc1451097c9a882nat;
    let e30 = 2 * e29 + 1;
    lemma_power_mod_square_times(10nat, e29, n, x29, 0xd627c4c6f474c35511ace2dbfc95fccebb7f2e15c36af704093efb39fanat, x30);
    let x31 = 0x8acbe2fe8c1e0bcb88eed0a46da0937893a3ca1dcbcc9c9cfd64b59e0b9nat;
    let e31 = 2 * e30;
    lemma_power_mod_square(10nat, e30, n, x30, 0x11e95e9ed21448eb188d1d36857504b30542235d086b679381b07e4631f1nat, x31);
    let x32 = 0x1d8fbab2e9c61a54768872a3067e5f75760f0cd74d74189ba8959db00d3bnat;
    let e32 = 2 * e31 + 1;
    lemma_power_mod_square_times(10nat, e31, n, x31, 0x195220b0816cc61c6c2e33a359d6e9cb9d488537485ae47d4b12c28c63ddnat, x32);
}

proof fn lemma_power_205115282021455665897114700593932402728804164701536103180137503955397371_over_2_part_1()
    requires
        power_mod(10nat, 0x1db8260e5nat, 0x1db8260e5e3b460a46a0088fccf6a3a5936d75d89a776d4c0da4f338aafbnat) == 0x1d8fbab2e9c61a54768872a3067e5f75760f0cd74d74189ba8959db00d3bnat,
    ensures
        power_mod(10nat, 0x1db8260e5e3b460a4nat, 0x1db8260e5e3b460a46a0088fccf6a3a5936d75d89a776d4c0da4f338aafbnat) == 0xf38b496bb3a8425e71e4e281d3bd8636d1bdb8111383082f6b72353d8b9nat,
{
    let n = 0x1db8260e5e3b460a46a0088fccf6a3a5936d75d89a776d4c0da4f338aafbnat;
    let e0 = 0x1db8260e5nat;
    let x0 = 0x1d8fbab2e9c61a54768872a3067e5f75760f0cd74d74189ba8959db00d3bnat;
    let x1 = 0x67355a233268767ab0f413a004d853611432188340ce299670e2964a897nat;
    let e1 = 2 * e0 + 1;
    lemma_power_mod_square_times(10nat, e0, n, x0, 0x1260b3f2261ddccca701522c5d9c96ca95b2c69de1efcc9a61b954ea5f4b9nat, x1);
    let x2 = 0x3ab83f78a80622453703ae7f14de06473332f03d6b4a859bb1f119d1b40nat;
    let e2 = 2 * e1 + 1;
    lemma_power_mod_square_times(10nat, e1, n, x1, 0xe0030d913dee6cc0842af051954743d32095acfe3e9b4fede2b13fac21enat, x2);
    let x3 = 0x13ba5d92edc7bd743acacc4b697728d36d26d7a9f298d158f8a357f7ba9nat;
    let e3 = 2 * e2 + 1;
    lemma_power_mod_square_times(10nat, e2, n, x2, 0x488307ea27a790891937e632892250de11aa0aadee805077f6ec885ed55nat, x3);
    let x4 = 0x18f301002ff8303b03858109ba5d6723605c076444254b9d98a92483523enat;
    let e4 = 2 * e3;
    lemma_power_mod_square(10nat, e3, n, x3, 0xd187bbebcc65f0804f18c4cefc9d6ee891862975c2a2f9774c4b99989nat, x4);
    let x5 = 0x1c59bb1ecd4fd601d9a359cceac9e102359c4a44b8e6ffd8a6c09a18533nat;
    let e5 = 2 * e4;
    lemma_power_mod_square(10nat, e4, n, x4, 0x14f1dbdb3f8aaa6089aaa0b7ca2f9927310f36c557a8a7aa9fa61e7eeca3nat, x5);
    let x6 = 0x1ac65e5640d353fc176643c27398d9eaedc05b8de1ff8f46f93ad62d4fa3nat;
    let e6 = 2 * e5;
    lemma_power_mod_square(10nat, e5, n, x5, 0x1b0b73ecee82e4eb5f7680bb89630da4400b4be2a6f174d1886177a2b2nat, x6);
    let x7 = 0x160d462ca3bba1278cd759bd694f487276d9232dce90c5f7e7078613ff83nat;
    let e7 = 2 * e6 + 1;
    lemma_power_mod_square_times(10nat, e6, n, x6, 0xf138b1a95d1bb8dc1b9555614be6bb216a04c028ee69b1a9db67f1d85755nat, x7);
    let x8 = 0x1a21d6052292e10ca21f5e13aa54b3a1c37171e79267b72ac069bab82c8dnat;
    let e8 = 2 * e7 + 1;
    lemma_power_mod_square_times(10nat, e7, n, x7, 0xa3a023ee0ee9ea918cc7c4b2e1a6e5ab92abfd3a7f7791076d67183547d7nat, x8);
    let x9 = 0x1402896e2c3bcbff3b969a22353ebaf1d5e193414636e75b63ee14817642nat;
    let e9 = 2 * e8 + 1;
    lemma_power_mod_square_times(10nat, e8, n, x8, 0xe5c7a5e9236feaef6af960f85a6b13e098d7744c485a3bfdb8b4c616b788nat, x9);
    let x10 = 0x1c17694fd5d0348c6eefd25a24e4225328cddad6461a531c360efe65a1benat;
    let e10 = 2 * e9;
    lemma_power_mod_square(10nat, e9, n, x9, 0xd78fbed2348e498b9c0686a88b30cbc6531e74ee4c13967b072c4f812f2nat, x10);
    let x11 = 0x1383f51b0bf97deed118a3a7e8bdc3c87e1897162e3b6e90dd197e1d6fccnat;
    let e11 = 2 * e10 + 1;
    lemma_power_mod_square_times(10nat, e10, n, x10, 0x10987026055781269592964940bc14e468c699b3d0d187d24477e8dae7054nat, x11);
    let x12 = 0x62d88e2df5d72af393137d92e198192b15bbe67ae2631550093097f31a6nat;
    let e12 = 2 * e11 + 1;
    lemma_power_mod_square_times(10nat, e11, n, x11, 0x8026645f32a6d9ef98bd25f5725519588e952e0adb403f287d93b2b046cenat, x12);
    let x13 = 0x1d34c75161622ef33273c6ca25ba8134de01e0ecac8d605503b1d8087d85nat;
    let e13 = 2 * e12;
    lemma_power_mod_square(10nat, e12, n, x12, 0x148c276501185a538c9901a9d119d83c801266d1da85571ca505df7842dnat, x13);
    let x14 = 0x6b166a1f4831cb3559e12ab8a3870bb037fe368e587e0a02bd080f6a85dnat;
    let e14 = 2 * e13 + 1;
    lemma_power_mod_square_times(10nat, e13, n, x13, 0x11f04c4d2d7b08149b24793b492df02a2ddd36dd1b225cd7a94c1c059e947nat, x14);
    let x15 = 0x1bacdbc2f30ad3a16a2be52504bc975adffd3cfcbd776276d12bd4dab6e6nat;
    let e15 = 2 * e14;
    lemma_power_mod_square(10nat, e14, n, x14, 0x181de42c19a33052259783b794b554df8461bbe30598b51880351cbeb39nat, x15);
    let x16 = 0x1d7500a44c6ea496f493a6396d1a70d31bd16e935427ab3929b28ca01802nat;
    let e16 = 2 * e15;
    lemma_power_mod_square(10nat, e15, n, x15, 0x19c58f6ca0e4749391c1d8cb457f692352f0dc0dc446f05b6b580c1e9a46nat, x16);
    let x17 = 0x577c3594fe7b8f0856e473733f1472accbf7c0d7394ec5d1cbb60683f49nat;
    let e17 = 2 * e16;
    lemma_power_mod_square(10nat, e16, n, x16, 0x1d3272ef0149e2bd48943dc478428fcec6a8d35073c601f97c57ed707541nat, x17);
    let x18 = 0xfb770e3e42e293b804a9ba8dd85d09c79008209f9dc17ae5ad1371359f4nat;
    let e18 = 2 * e17 + 1;
    lemma_power_mod_square_times(10nat, e17, n, x17, 0xa0f50380d01d729c3f3ac759cee8d1b4f78adcab8b8ec2f6ccbb22090c2nat, x18);
    let x19 = 0x34cbc74e5895af5c188bc5b83248d5b26fd55a3c9407328711d01ed2462nat;
    let e19 = 2 * e18 + 1;
    lemma_power_mod_square_times(10nat, e18, n, x18, 0x531d49d30d4a4fa669f65949970c446e927e490871c5a8a72bb3a7421f5anat, x19);
    let x20 = 0x11f99a70aaceb46ad3f5fee06409831ee171052846f6b0f1c2cdd50f674enat;
    let e20 = 2 * e19;
    lemma_power_mod_square(10nat, e19, n, x19, 0x5dca9b76ab8a5c98af1f003ad2ee961fd2a219756923e045f3a05f74c2nat, x20);
    let x21 = 0x161451278972e0236a2d54956b0b526046396429948b3accfc549808eb48nat;
    let e21 = 2 * e20;
    lemma_power_mod_square(10nat, e20, n, x20, 0xadf2ae72eb75dc540145bc3dcbf3292bb93a1b9e125f5a4d32811daa8b4nat, x21);
    let x22 = 0x941449cdcc218ba28e546709f72fb6353653749ba3a83d002e8c5dc0669nat;
    let e22 = 2 * e21;
    lemma_power_mod_square(10nat, e21, n, x21, 0x106745b29742451787286e6a57f3f54f50279c7c2b01de69727e133001d5nat, x22);
    let x23 = 0x117b02c945edd3213e52c27d00d1b37391e9e4d11cbb844997bdc14c9e4fnat;
    let e23 = 2 * e22;
    lemma_power_mod_square(10nat, e22, n, x22, 0x2e1d178f83584a03bceaaa5beb2f68699a0d0f31f4c93e0259b88edaea6nat, x23);
    let x24 = 0x1042c6743946fd3f4e3417dd75c28f64e73ca444936aec4e88dd810c4d24nat;
    let e24 = 2 * e23;
    lemma_power_mod_square(10nat, e23, n, x23, 0xa48242d3623f5b89722ab857a4a47780a4ad38d4207d1aec68b76aa5927nat, x24);
    let x25 = 0x24762b05106b3c3dbd7107b84bbf6d7269fdf3e9917d1a4154d2d414041nat;
    let e25 = 2 * e24 + 1;
    lemma_power_mod_square_times(10nat, e24, n, x24, 0x58f87f372fe1a474a065197e5eee3c12bc58c4a600e41007788e090c28ednat, x25);
    let x26 = 0x140fe947db7250a6d52f6c2fa17d5fcf9b408086966a4984669debf27e66nat;
    let e26 = 2 * e25;
    lemma_power_mod_square(10nat, e25, n, x25, 0x2cbbc294f5b39ca0d03be6dd10054610449fe6b6c7651944543fd38b61nat, x26);
    let x27 = 0x722bd436cf99e5e0dcd6a12aa780b5ba17af64973956cca2678ad06c172nat;
    let e27 = 2 * e26 + 1;
    lemma_power_mod_square_times(10nat, e26, n, x26, 0x876e2cc0c087724027329099ed2a3c0d245e74fcf8e893ef1811cfe37d02nat, x27);
    let x28 = 0x125dc869b23d97878c73d951beff163e9be092f4d275d74d1655ee572955nat;
    let e28 = 2 * e27;
    lemma_power_mod_square(10nat, e27, n, x27, 0x1b69b07bea8babfe5329ba6750d4487fb5e078aeedd7bb150249df27d1dnat, x28);
    let x29 = 0x6e00f1d6659953743537805659cbb4075fa82e17a1d42319ddba49b6e06nat;
    let e29 = 2 * e28;
    lemma_power_mod_square(10nat, e28, n, x28, 0xb59ab46f0a8468272e03e480c46941db0d302ad4ae5f88c550c5ad3b229nat, x29);
    let x30 = 0xdf99a0f7215ab2b173235bc66e6c2400c654d353851b0ca5c70208f6ec7nat;
    let e30 = 2 * e29 + 1;
    lemma_power_mod_square_times(10nat, e29, n, x29, 0xfe7b282194ca87a94cba5a7c32c7a0d4bbc3a9419b74b3c1546efc3b613nat, x30);
    let x31 = 0x250c170b86eb2b37f57f9b36a2b11b88ef2c4d6da94ed1a1459ef2014c2nat;
    let e31 = 2 * e30;
    lemma_power_mod_square(10nat, e30, n, x30, 0x6924e5a418a750b20f6308dcd06234aa71dd5cfa04c34ab49283fa2aa9dnat, x31);
    let x32 = 0xf38b496bb3a8425e71e4e281d3bd8636d1bdb8111383082f6b72353d8b9nat;
    let e32 = 2 * e31;
    lemma_power_mod_square(10nat, e31, n, x31, 0x2e2e95105e98f9e4b6037381d21d0f952908f443320c347e4bf829fcf1nat, x32);
}

proof fn lemma_power_205115282021455665897114700593932402728804164701536103180137503955397371_over_2_part_2()
    requires
        power_mod(10nat, 0x1db8260e5e3b460a4nat, 0x1db8260e5e3b460a46a0088fccf6a3a5936d75d89a776d4c0da4f338aafbnat) == 0xf38b496bb3a8425e71e4e281d3bd8636d1bdb8111383082f6b72353d8b9nat,
    ensures
        power_mod(10nat, 0x1db8260e5e3b460a46a0088fcnat, 0x1db8260e5e3b460a46a0088fccf6a3a5936d75d89a776d4c0da4f338aafbnat) == 0xbf4c8c96df5ee926e0d0fa680056f2630f7c121f87726c73f17accc5ee4nat,
{
    let n = 0x1db8260e5e3b460a46a0088fccf6a3a5936d75d89a776d4c0da4f338aafbnat;
    let e0 = 0x1db8260e5e3b460a4nat;
    let x0 = 0xf38b496bb3a8425e71e4e281d3bd8636d1bdb8111383082f6b72353d8b9nat;
    let x1 = 0x16ee571ce96fc2ff5c7b6c90f94f1dbe28e46abd86b0ff213cfa744a8099nat;
    let e1 = 2 * e0;
    lemma_power_mod_square(10nat, e0, n, x0, 0x7cbcbcb12245aa24c094b4a875196c8ee198fd03251e32436f4612a13c8nat, x1);
    let x2 = 0x19d81e3263309ab308e302947c8f3a0bfbbcb3012d720701a145066dba83nat;
    let e2 = 2 * e1 + 1;
    lemma_power_mod_square_times(10nat, e1, n, x1, 0xb0eeb7e6150248903c34871c055174295bfd3a6d726eb548cb85721db305nat, x2);
    let x3 = 0x5700bc23699e28e03c3118afd0f81d51f0831e7e922a9e57ff71553398dnat;
    let e3 = 2 * e2 + 1;
    lemma_power_mod_square_times(10nat, e2, n, x2, 0xe0be63096a363dc67a38fd00939e21b962490a5cbb2e16448e3d71d4ecd7nat, x3);
    let x4 = 0xe30b6a79680955caa6c9b4ae589778aaabc146c4bda151c47fb8cd96e4anat;
    let e4 = 2 * e3;
    lemma_power_mod_square(10nat, e3, n, x3, 0xfeb314509afa24f822e9bb92640f6fc65a13afef32205d39d28a0cedednat, x4);
    let x5 = 0x41c64e5e09b3b75edf04bcc8a3b9466fe08c104b67d173eaf134a8c10e6nat;
    let e5 = 2 * e4 + 1;
    lemma_power_mod_square_times(10nat, e4, n, x4, 0x43c15c062970cc5f9cf613c81828a248d1fde57015e2a5522e77dd11af66nat, x5);
    let x6 = 0x734fb19230f89e611396d9fc2c7103776ccae15c8922b21aa6f661089fnat;
    let e6 = 2 * e5;
    lemma_power_mod_square(10nat, e5, n, x5, 0x91926e8ab6909cf65e6e5933b7ee9ce1aa34452dd4ba205927b358c2ffnat, x6);
    let x7 = 0xb0531eba99969a113b74ad1e94e1e00a6794f1c91d0b423851fab90731nat;
    let e7 = 2 * e6 + 1;
    lemma_power_mod_square_times(10nat, e6, n, x6, 0x117a1718486b47fb2f4b9bc7a0121f60126bc468cd3d2ae615e44ebdbbnat, x7);
    let x8 = 0xc68d312e086541f4358c8679a2665ed53b02e18d274b1a2a3442b0f8d04nat;
    let e8 = 2 * e7;
    lemma_power_mod_square(10nat, e7, n, x7, 0x416223ec774eed789ca4c53cdb5a2dc1069d6d960e073321254fc0087nat, x8);
    let x9 = 0x115a73a07b5803672ee5d07652fd8db1c29ec184af80b8a8458175c8b238nat;
    let e9 = 2 * e8;
    lemma_power_mod_square(10nat, e8, n, x8, 0x52e8028f2de9f447dbee8737f2677cd85c3d91e760fcb2ee8317287ba08nat, x9);
    let x10 = 0xb58e88d834f7607874a3f7d47edf2441399fcf0d829d32a4c12b5a939d2nat;
    let e10 = 2 * e9;
    lemma_power_mod_square(10nat, e9, n, x9, 0xa21fa96e74533600490ec6e4b073829339cb5d7fb97f9374f351cf8ebeanat, x10);
    let x11 = 0x137f270893a65c48a5c75bb65ae24ae4f42aa5192d7d4ace3919e2de968fnat;
    let e11 = 2 * e10;
    lemma_power_mod_square(10nat, e10, n, x10, 0x45523885ae6916c87b5d312a9579db8d96f9cbed7f326378eeac4f3af0fnat, x11);
    let x12 = 0x101dba532b02889d7ea475e8af378455d3f30cb659d358bf90183be402f1nat;
    let e12 = 2 * e11;
    lemma_power_mod_square(10nat, e11, n, x11, 0xcca54f051ceda81d5bd5719bb1c4bde49124c29829ea18422356b20cfd0nat, x12);
    let x13 = 0x185f2c8de68a3cf42ff23df64a6f61d7fec554336aa84b20167e57dedd8cnat;
    let e13 = 2 * e12;
    lemma_power_mod_square(10nat, e12, n, x12, 0x8bd4a145dd3ae7844a5c24bfcf0adfb770e039a643254682632b5d62befnat, x13);
    let x14 = 0xb4b7cbe208dfc802a688e021d7f7fd4426aa4bacfc2da3ad23289c2eba2nat;
    let e14 = 2 * e13;
    lemma_power_mod_square(10nat, e13, n, x13, 0x13fc86bba9e92110341c7b39e8525d5178de02114219ed510796c9c2576anat, x14);
    let x15 = 0x108459d179e6ad3fbd9f806d0dbd5f57b7be24d4159ef4999a885ae7fea7nat;
    let e15 = 2 * e14;
    lemma_power_mod_square(10nat, e14, n, x14, 0x44ae9e72fdcb8aa4a9642d305b3588e611d7e8dd3210e75181df6b9c507nat, x15);
    let x16 = 0x124786296e462792dade8ef7c5c6c82519d3ea384d2cd6111763b2c955ebnat;
    let e16 = 2 * e15;
    lemma_power_mod_square(10nat, e15, n, x15, 0x92df952e8017318e3424e2ba3dade84ac8d1d5cabab81a8f02ab2b96232nat, x16);
    let x17 = 0x1c1800ffb195178af3a089676acc9917b2ddc668e466ed85b4a5552aafenat;
    let e17 = 2 * e16 + 1;
    lemma_power_mod_square_times(10nat, e16, n, x16, 0x706e39e4ad2e3006672364e1ee648058e790d66e61276c48dbc062b455f4nat, x17);
    let x18 = 0x10f896f94730ac9cb5adacbdbe75047a7f5311efe8f8822882d69a31ceaenat;
    let e18 = 2 * e17;
    lemma_power_mod_square(10nat, e17, n, x17, 0x1a8e9f0188eec1d001dc1d298c61670e37dc870fa700f347ff96b87022nat, x18);
    let x19 = 0x17da42de83b03d6f429f90e2222f96492899cf25e91d5747fee0f93d173dnat;
    let e19 = 2 * e18;
    lemma_power_mod_square(10nat, e18, n, x18, 0x9b0f3fe917471172b54455d2bab5922ec39818a6e8c2b37ecc2e73d3665nat, x19);
    let x20 = 0x193330fdc5c8b886a292a73f1131cd3e5dae69677eaab17face5013d7231nat;
    let e20 = 2 * e19;
    lemma_power_mod_square(10nat, e19, n, x19, 0x1324daa1214c823d8c97ae5de59261a6017ac71c97c78bac884a7f24a788nat, x20);
    let x21 = 0x8cc38abd18168c95d126e65566ae11dfff91b9492c82277d5f932538509nat;
    let e21 = 2 * e20 + 1;
    lemma_power_mod_square_times(10nat, e20, n, x20, 0xd5adb467ea6e691fc930bef755f21f6b5aaa47072af91f8b1f26c77eb673nat, x21);
    let x22 = 0x1d3f9cef525a50ffebd7980ca9d82d837929fcd4ca5c742672ba5a4e798enat;
    let e22 = 2 * e21;
    lemma_power_mod_square(10nat, e21, n, x21, 0x29ab8317cdcf4a9ee5dced05c803609e0a6d6387f65209f841c65b036d9nat, x22);
    let x23 = 0x1adaa68d928f879550f026f49723db91108f90a89a2e81f4777b0e46d02anat;
    let e23 = 2 * e22;
    lemma_power_mod_square(10nat, e22, n, x22, 0x1cc8fcae8e1c4ee2ae72d3542baf5ed20fd19474a268f2b67dacf9764caenat, x23);
    let x24 = 0x62b55583041f9940a6b68535534fcbee8411eb5354e3cec46bd315ef5c9nat;
    let e24 = 2 * e23;
    lemma_power_mod_square(10nat, e23, n, x23, 0x1843de66026222ccd66ce6872bc126578519b30d1b07c7bd058b8c871861nat, x24);
    let x25 = 0x1a9498c2d999731a69af878c8ab86881ffcf4a08061fbafadfd285b98c1enat;
    let e25 = 2 * e24 + 1;
    lemma_power_mod_square_times(10nat, e24, n, x24, 0xcce73574b4cc5030ddadd6174fe02ad384b8e64e8ed9ddc08fab41dc864nat, x25);
    let x26 = 0x2f900b97de9deb2cf804816a4a753d1b0594c49214bf2c9a49ba3c5e453nat;
    let e26 = 2 * e25 + 1;
    lemma_power_mod_square_times(10nat, e25, n, x25, 0xedbb2336e6467485ef1f27b676ef8ced38a52e0e673ce9cd99b94dc3f46fnat, x26);
    let x27 = 0xf6da9d9be14ddc2ffdd917b14b19b166d582ceba7afde5e3ad0a825b4canat;
    let e27 = 2 * e26 + 1;
    lemma_power_mod_square_times(10nat, e26, n, x26, 0x2f930dafd812989688dbd2920c6241676225f0a795b164f25f1afbfe7f0nat, x27);
    let x28 = 0x4fe2b1bf38086b1d5a58665fa877374cd699bf3f5e8729bbcbb81a70512nat;
    let e28 = 2 * e27 + 1;
    lemma_power_mod_square_times(10nat, e27, n, x27, 0x50181f7db9ca38b3040d805098ec4f8b1b91e36d89643db0375821b946a2nat, x28);
    let x29 = 0x127a3eb6fbec31ee6271e573b4816b8b6f99cd5a452704560ce24bb828a5nat;
    let e29 = 2 * e28 + 1;
    lemma_power_mod_square_times(10nat, e28, n, x28, 0x863526a14b610a1b912cd334bcc9e143ddf8af29786611d6bdcd30b7499nat, x29);
    let x30 = 0x1934eba579291216fde3b53921ebf389b20163536fb952d0f38ce94961d9nat;
    let e30 = 2 * e29 + 1;
    lemma_power_mod_square_times(10nat, e29, n, x29, 0x72e18b07398f8dbead5600182bbcec1a521d3850c1471b4871a5a29f0f13nat, x30);
    let x31 = 0x36069515ebc5ad427df20f24cd24a9d43af3f4e744f22f333c1311337fnat;
    let e31 = 2 * e30;
    lemma_power_mod_square(10nat, e30, n, x30, 0x15611a6c81d3c4a2cb802151b2f10483aad98064a01becd61fbb726bb8b6nat, x31);
    let x32 = 0xbf4c8c96df5ee926e0d0fa680056f2630f7c121f87726c73f17accc5ee4nat;
    let e32 = 2 * e31;
    lemma_power_mod_square(10nat, e31, n, x31, 0x62361f766d989953b857eeee622949abbbe04fbbab896b550e0ce3c7nat, x32);
}

proof fn lemma_power_205115282021455665897114700593932402728804164701536103180137503955397371_over_2_part_3()
    requires
        power_mod(10nat, 0x1db8260e5e3b460a46a0088fcnat, 0x1db8260e5e3b460a46a0088fccf6a3a5936d75d89a776d4c0da4f338aafbnat) == 0xbf4c8c96df5ee926e0d0fa680056f2630f7c121f87726c73f17accc5ee4nat,
    ensures
        power_mod(10nat, 0x1db8260e5e3b460a46a0088fccf6a3a59nat, 0x1db8260e5e3b460a46a0088fccf6a3a5936d75d89a776d4c0da4f338aafbnat) == 0x22292acbd54612ae605b0382e5485ecdf32b2259240aea981cf1b1c9ed6nat,
{
    let n = 0x1db8260e5e3b460a46a0088fccf6a3a5936d75d89a776d4c0da4f338aafbnat;
    let e0 = 0x1db8260e5e3b460a46a0088fcnat;
    let x0 = 0xbf4c8c96df5ee926e0d0fa680056f2630f7c121f87726c73f17accc5ee4nat;
    let x1 = 0x4e266825bfd85cbde04de4fc269278d6ec8f5247d93fa5f19083980b5a4nat;
    let e1 = 2 * e0 + 1;
    lemma_power_mod_square_times(10nat, e0, n, x0, 0x3019a3f1fd4b1b18dc0836d1e591d4d4f8e30afb06c933814268e00e3a34nat, x1);
    let x2 = 0x35aa426a0c7561af0b79999c995ad728a700e66b9e2d6457b610d65ef9anat;
    let e2 = 2 * e1 + 1;
    lemma_power_mod_square_times(10nat, e1, n, x1, 0x80708fa0477c5ad81ae3c1560f38119e311503887359a27962298f9a232nat, x2);
    let x3 = 0xc46347fc44f26010a966083711e2b79bc43ea9a14d0d7db3215b3bc1fd8nat;
    let e3 = 2 * e2;
    lemma_power_mod_square(10nat, e2, n, x2, 0x60e7950261b791de69242a4c3d611903208a491fa0e5b11591c64dc0a4nat, x3);
    let x4 = 0x214f46d4e7a794a2748c0b1fce3db507f8feaa1fc2864f48cf9543ca576nat;
    let e4 = 2 * e3;
    lemma_power_mod_square(10nat, e3, n, x3, 0x511bf40de63d6e59375d6bcce26f2222e90ba75594bb4a404df5d3e683enat, x4);
    let x5 = 0x4f52cdbabe98ad1dcb2aee56bf7c4584c66a7ad65d7b5db4f149bc7a4fbnat;
    let e5 = 2 * e4 + 1;
    lemma_power_mod_square_times(10nat, e4, n, x4, 0x175566e44bc2f4d398c4c992a020bf1d3ea3bfdae7f6bab4725ea22d537nat, x5);
    let x6 = 0x17fc3325829dff0388436730ff29c46fe72da53db9f3e53312a9aa583d4anat;
    let e6 = 2 * e5 + 1;
    lemma_power_mod_square_times(10nat, e5, n, x5, 0x84536115deae2aa47b866378f763682460f32e09c6345cd489d91cde010nat, x6);
    let x7 = 0xf549d4782139e61eb219af2ea6dac09ec77eeac002b0c11b982a6778237nat;
    let e7 = 2 * e6 + 1;
    lemma_power_mod_square_times(10nat, e6, n, x6, 0xc192d533a1d178c106820ae7ee32f66bfce9a0fd86138ad01a777528f443nat, x7);
    let x8 = 0x1784d6a3ea3b6e2d819688eb4b4fa38f5c30a2712a8a5700dc6b507076b4nat;
    let e8 = 2 * e7 + 1;
    lemma_power_mod_square_times(10nat, e7, n, x7, 0x4f14deb19f05f4f566ab9282306b6bc7f21a572575f4d2c41c12e4500c82nat, x8);
    let x9 = 0x19ce01584a97dc5b08bd618e194577cd746c3e960f093cc8375c2cae671nat;
    let e9 = 2 * e8;
    lemma_power_mod_square(10nat, e8, n, x8, 0x129cb1810dcb949b609a98ddf841bd02a9e65a133142ad7c38d697434e2dnat, x9);
    let x10 = 0x1a05c00d0ce88df7af506e85893f91e3a293cdca2e22411959ce7a06834enat;
    let e10 = 2 * e9 + 1;
    lemma_power_mod_square_times(10nat, e9, n, x9, 0xe00ea3a540f501a0bdee812633c2b9293ab497f957d19562c9b7c5ddb4nat, x10);
    let x11 = 0xf3c98a5fa4f2b9dabf034358c9320188d5bf565d9f33134d7de2c20aad0nat;
    let e11 = 2 * e10 + 1;
    lemma_power_mod_square_times(10nat, e10, n, x10, 0xe3dac4b510d72ffee455551ff28279c9b668721de913df75bba902732908nat, x11);
    let x12 = 0x17463fd4c86b42cd91ef3c4cd17963a244e0f2f570ccf2ba0b1dab1bf4d1nat;
    let e12 = 2 * e11;
    lemma_power_mod_square(10nat, e11, n, x11, 0x7cfc89de282c37ae0e935b7887d9a1bdf22f9da377e3ba90ff15bccd55dnat, x12);
    let x13 = 0x17c5fc13e37c7fb837f9fb27c3624d816eb2ae1e534e701ea3d92167b27nat;
    let e13 = 2 * e12 + 1;
    lemma_power_mod_square_times(10nat, e12, n, x12, 0xb64576b237ef62093900b99c9fd91cd91690377f0e000e9fcfb65d0703f9nat, x13);
    let x14 = 0x981538f7a26493ac9a59c0955c44203b51f958d9b1565c687eea56fd815nat;
    let e14 = 2 * e13;
    lemma_power_mod_square(10nat, e13, n, x13, 0x13045c420b77a405348c6cfa65b75a08df314eff51c865b459bdb230d4nat, x14);
    let x15 = 0x6be846bda302af076a2a25f4037d18a7398a1a3875eff86dd6a702f05fanat;
    let e15 = 2 * e14 + 1;
    lemma_power_mod_square_times(10nat, e14, n, x14, 0x1e668c048b2f9f2e40e1ebb636f239b7d86cf5dc9b8b7c8ce43704f65dc0nat, x15);
    let x16 = 0x1c62c876bf531c57af33b95e348dc3d081843e74b8a0a7b3e177ce42173enat;
    let e16 = 2 * e15;
    lemma_power_mod_square(10nat, e15, n, x15, 0x187cc70224df667d7f0fc71e6a12c3d96c1fe0f824f7ec6559ed605edd2nat, x16);
    let x17 = 0x4d2522711e11817df6572e2c514325a8d45f10cfca47d17afb02848bb54nat;
    let e17 = 2 * e16;
    lemma_power_mod_square(10nat, e16, n, x16, 0x1b1cbbe783881040d6282570856fdaddd67ab361a6d5f06567ee3d67d810nat, x17);
    let x18 = 0xa960f58e0a027b8c6b2224174a465648f551ca3d420c61e962cebc4fde9nat;
    let e18 = 2 * e17;
    lemma_power_mod_square(10nat, e17, n, x17, 0xc8408cb9da1d82fc6cceefa74fff7653762c06c4ac92a8a1bf547e4045nat, x18);
    let x19 = 0x13dd1bc6ef1b555b58b9f2ba74343a1025c0ab3d9595e8734d89ba25efdcnat;
    let e19 = 2 * e18 + 1;
    lemma_power_mod_square_times(10nat, e18, n, x18, 0x25b55de3c05ad1d6ce4ab6a4c51cf6615254db11e1b5e8f6aa929d3bfd0anat, x19);
    let x20 = 0x51e00c857d564a8d0bb176883e7bb149c0b0b73ba8c9ff734dfd9a3602cnat;
    let e20 = 2 * e19 + 1;
    lemma_power_mod_square_times(10nat, e19, n, x19, 0x84c3acd64b547ed5c522271b29cb5aeca7c3315da3b3b5a5f23413eb2d1cnat, x20);
    let x21 = 0x1d53c574284703af23527c887f2eb2c8aae34032b312522c29707ff621cbnat;
    let e21 = 2 * e20 + 1;
    lemma_power_mod_square_times(10nat, e20, n, x20, 0x8cf9e4f6775127606753676e96c25661874db2664b96d44f0a05747656fnat, x21);
    let x22 = 0xeffb98b71f13acf801b15004a20fd62967f167630db296537af9eef8fbdnat;
    let e22 = 2 * e21;
    lemma_power_mod_square(10nat, e21, n, x21, 0x1cf0b7e07e09f300a082cdc55b7bb335895400f11ae40d6e0a60e95b50f4nat, x22);
    let x23 = 0xc596a036f6ed0b1ce8e39ae97632899e92faf2e4343512200067c597410nat;
    let e23 = 2 * e22 + 1;
    lemma_power_mod_square_times(10nat, e22, n, x22, 0x4bb28bf59a7b150b4015936023cbb3a10b9882e7e3786568d5505073afbenat, x23);
    let x24 = 0x1bef46a06da195526da5d386463328818573fe153b548357bb8724c1190anat;
    let e24 = 2 * e23;
    lemma_power_mod_square(10nat, e23, n, x23, 0x521a99656541ab2ce8491ab6399a0e5c8e74e71d05271b866209a879602nat, x24);
    let x25 = 0x1bc512af21948590aa686b92e2727e0c08345b6c11a6f7a131482adf740bnat;
    let e25 = 2 * e24;
    lemma_power_mod_square(10nat, e24, n, x24, 0x1a41d6a9f6078f96acd5fc6304ca3c5721dd19ef7019e9512baa8f34e1bbnat, x25);
    let x26 = 0x1517344370ef16f4e27e2dc2a99342c8bb16ee8318ee83aa29ac983507bcnat;
    let e26 = 2 * e25 + 1;
    lemma_power_mod_square_times(10nat, e25, n, x25, 0x1037b5ab8f017f00f75cf24d0f70137b144ca5bf79f37c5eebc80bfead69anat, x26);
    let x27 = 0x7d0cdf07b3fc81fc159b7ca0dbde9baa386969c7ba34c1a0e9695c7caf7nat;
    let e27 = 2 * e26;
    lemma_power_mod_square(10nat, e26, n, x26, 0xef79a609e13710e0a8da06dfe2fa3d5ad765ac2838a367a97034ef7b9fbnat, x27);
    let x28 = 0x11f7ead9680d7195b2281f9f3361527ca03d4fa4f44713c004a9e172f66cnat;
    let e28 = 2 * e27 + 1;
    lemma_power_mod_square_times(10nat, e27, n, x27, 0x148dc04789f5f5320c68f9fa4d169086ab22200c44b5d8416f1a895275danat, x28);
    let x29 = 0xddc5154b241a1252099b80f14bd92bfbde25a0943e2da18668122fc6a04nat;
    let e29 = 2 * e28 + 1;
    lemma_power_mod_square_times(10nat, e28, n, x28, 0x6ca3493e1eb95b7f52d10dcae6829907d19a28737700f532cb48ee414614nat, x29);
    let x30 = 0x6c7be6500103ac4347081ffcd602d9da25217b9508bc28290d13ee5f6d5nat;
    let e30 = 2 * e29;
    lemma_power_mod_square(10nat, e29, n, x29, 0x676e0ca45986449fe6c2f7fcd773388fc6fb819c089d943ff5cd5aeb6c1nat, x30);
    let x31 = 0xb1b197da8e3c7fb228731b67efd23fd12e0f3bf6f23fd4cd756ddcbe8c5nat;
    let e31 = 2 * e30;
    lemma_power_mod_square(10nat, e30, n, x30, 0x18bff4ec15470f9c05d735fa0d95b05fa79bd43f6faf99f1e3c4e49831cnat, x31);
    let x32 = 0x22292acbd54612ae605b0382e5485ecdf32b2259240aea981cf1b1c9ed6nat;
    let e32 = 2 * e31 + 1;
    lemma_power_mod_square_times(10nat, e31, n, x31, 0x29806b04d343a38345b3f694513d8041bb4578b9b3889d7d3c8b83d97e2cnat, x32);
}

proof fn lemma_power_205115282021455665897114700593932402728804164701536103180137503955397371_over_2_part_4()
    requires
        power_mod(10nat, 0x1db8260e5e3b460a46a0088fccf6a3a59nat, 0x1db8260e5e3b460a46a0088fccf6a3a5936d75d89a776d4c0da4f338aafbnat) == 0x22292acbd54612ae605b0382e5485ecdf32b2259240aea981cf1b1c9ed6nat,
    ensures
        power_mod(10nat, 0x1db8260e5e3b460a46a0088fccf6a3a5936d75d89nat, 0x1db8260e5e3b460a46a0088fccf6a3a5936d75d89a776d4c0da4f338aafbnat) == 0x1adfdb5c77787f54d2b63968ff955bb1a14e04e44d88725bf01021193b14nat,
{
    let n = 0x1db8260e5e3b460a46a0088fccf6a3a5936d75d89a776d4c0da4f338aafbnat;
    let e0 = 0x1db8260e5e3b460a46a0088fccf6a3a59nat;
    let x0 = 0x22292acbd54612ae605b0382e5485ecdf32b2259240aea981cf1b1c9ed6nat;
    let x1 = 0x1355987d3230b88631a1ba5835ec7598f86e0e54b907e1dc5cea79407952nat;
    let e1 = 2 * e0;
    lemma_power_mod_square(10nat, e0, n, x0, 0x27441c377a4c7934f0ab281efcaba5481b31ad24b2871baaf06a4a1016nat, x1);
    let x2 = 0xf671441de1e2e55e52d95f3adb5d1a0758d8d1cc0433118fc71ab4f805nat;
    let e2 = 2 * e1;
    lemma_power_mod_square(10nat, e1, n, x1, 0xc9408b2ec971d26733c6352df62e25a1abe76056ccb35af6bc96b814e8dnat, x2);
    let x3 = 0x71302a38c97f10aa6a67d21cd6ae7853dd08c636a1ec38970cb892c2d81nat;
    let e3 = 2 * e2 + 1;
    lemma_power_mod_square_times(10nat, e2, n, x2, 0x4fd3d109a2b2b20824a4d44e2562628cc724316d70dd59f586aa10111bnat, x3);
    let x4 = 0xfab5f3bae4d49c06e87797aa9ee0972d8b75e699b9fb927f939bd740fd9nat;
    let e4 = 2 * e3 + 1;
    lemma_power_mod_square_times(10nat, e3, n, x3, 0x10d6d974c05111c26827cbc3281d10303dfda82e8f392fa3ca7ed89f73c3nat, x4);
    let x5 = 0x1cd3e4b65d6249aadf3b2935d6691263bb80fe1b64286072b17e684358f8nat;
    let e5 = 2 * e4;
    lemma_power_mod_square(10nat, e4, n, x4, 0x842fba85ccdaa11207c21ab2b78253ecc8825fd208e4e4980c702ee259bnat, x5);
    let x6 = 0xfa15ee8ebe33782d9ceefcf295090c2dc94a56294382c62ae2ee150eb18nat;
    let e6 = 2 * e5 + 1;
    lemma_power_mod_square_times(10nat, e5, n, x5, 0x117a0dc848dabbe96edf4d0ec649143441e392625314b1425598d8e7f49b8nat, x6);
    let x7 = 0x18b5eb24d6bfee1ef067fea008b7e88d9db98bcb5557d0d40262b19f618nat;
    let e7 = 2 * e6 + 1;
    lemma_power_mod_square_times(10nat, e6, n, x6, 0x52347fc9d29a22e0ca686395161a4ac66342e99fb5389a7fe57b3bb2d4b8nat, x7);
    let x8 = 0x18239ff1062e5b99f2d27be0a5327d21cce7a62c0146ec7d6a71cc246f26nat;
    let e8 = 2 * e7;
    lemma_power_mod_square(10nat, e7, n, x7, 0x148bc99a15bf8840e5cb11233eb8f5b81e4f1c7cd0877ced56cabbce2enat, x8);
    let x9 = 0x1b7293176405bbf72749953d7951379df05728d96ecdd69fff7a143ae77fnat;
    let e9 = 2 * e8 + 1;
    lemma_power_mod_square_times(10nat, e8, n, x8, 0xc4113d28f985d3d2c7a5fc6d9e49959e059751eabb4ba4903a1496fe866bnat, x9);
    let x10 = 0x1469feb91684463a68ea168bba16c9e733320904687df8376520ea0c03d2nat;
    let e10 = 2 * e9 + 1;
    lemma_power_mod_square_times(10nat, e9, n, x9, 0xfd7e90d01bd97c701402f940ec3a7e293717d39bcaa7863eb4e69b55dd28nat, x10);
    let x11 = 0x6aa740751cdf447781207a3e7520cb31722c19165fda855a6a3df5d9e05nat;
    let e11 = 2 * e10;
    lemma_power_mod_square(10nat, e10, n, x10, 0xe05b4f88bab79dca4721dee5c2589022a3878f9c3fa4bba74309de70a8dnat, x11);
    let x12 = 0x15b03822e77a10fc9d9d32381b7ac31cec35eb68af6bfe03a028d63add7bnat;
    let e12 = 2 * e11 + 1;
    lemma_power_mod_square_times(10nat, e11, n, x11, 0xef373cd8201e29a405b70a701f21934edb1ad5d3e05cd1c94214f5eea4dnat, x12);
    let x13 = 0xfba32b1ef15e7aeb62963eb07d81622cb65697c4ce1ca6a2c22f0e8f871nat;
    let e13 = 2 * e12;
    lemma_power_mod_square(10nat, e12, n, x12, 0xfd3dbae2cc315a27680f00e96d4c3913b462ed510842c452b1bcba88178nat, x13);
    let x14 = 0x1c76ae13cd3f16e2357c41f8c57b61062e0264b3b3b955d810ae1282cc45nat;
    let e14 = 2 * e13 + 1;
    lemma_power_mod_square_times(10nat, e13, n, x13, 0x533a75711724f67b1239c73c096eede0852e438c6e9aa2d3b98c93e0dc7fnat, x14);
    let x15 = 0x1989e8d5634be0812f039120baaa1e79519eb8b548fb7506a9f1e62157bdnat;
    let e15 = 2 * e14 + 1;
    lemma_power_mod_square_times(10nat, e14, n, x14, 0x1109bf1acb3b06031f408373f4321d7b055820b37f053b518025342e43227nat, x15);
    let x16 = 0x1871d9512912870f7782b8d8176a972bb83a48d96d3b50c3ce44b9791efbnat;
    let e16 = 2 * e15 + 1;
    lemma_power_mod_square_times(10nat, e15, n, x15, 0xdb7635cfe40e875486ba5ea704eb0d435500888d2de6df814575859912ednat, x16);
    let x17 = 0xfc9c18d69c678907932c986ac19c25f37bf76d24bd40bd6e9dda9d8c56cnat;
    let e17 = 2 * e16;
    lemma_power_mod_square(10nat, e16, n, x16, 0x141b3389884bcc0dd86a0a3eb985a0c97c32cd7a5e281edf589cd1aa7e77nat, x17);
    let x18 = 0xe11368c0c2131addab3397b8dd9468cc04d5eca2834fdaa83fb5cf60b3cnat;
    let e18 = 2 * e17 + 1;
    lemma_power_mod_square_times(10nat, e17, n, x17, 0x53df71176c2396b3b566c4a0f33f08a5e3f6d17ee79e64dc34c15d1157ecnat, x18);
    let x19 = 0xef10d656000c7f3da1cd9ec98fa4c7938258d580fc7df76422fc422f901nat;
    let e19 = 2 * e18;
    lemma_power_mod_square(10nat, e18, n, x18, 0x6a895be81f9bf865a044078c7b41c33fb2129c28a39affa787c2e5b59fdnat, x19);
    let x20 = 0xba1506e250282e8eb3bc35a54c5e580bada2a3dae5aa4ffe4384c1d171dnat;
    let e20 = 2 * e19 + 1;
    lemma_power_mod_square_times(10nat, e19, n, x19, 0x4b1ebae5acaf123376db89c7bc68c4fac045d798ad1ac2bbff7efc111337nat, x20);
    let x21 = 0x372b26868399dae716c12bd4c3d0709b9c7dcefa7b319ea44cb90dcc78bnat;
    let e21 = 2 * e20 + 1;
    lemma_power_mod_square_times(10nat, e20, n, x20, 0x2d8331091be6a94ec4fdf542a623603fc3851498ac7651efa54417988ebdnat, x21);
    let x22 = 0xeda506390bafc3f7376108fc5e13b5ab66f660155658422b009827db65nat;
    let e22 = 2 * e21 + 1;
    lemma_power_mod_square_times(10nat, e21, n, x21, 0x4001ab7dd0f42727fd5e893ba9d5cfc2e6859510e563b8133f0aac281efnat, x22);
    let x23 = 0x1da870988f54bb77296aac6d89f816f8af09466fa4aa8f38280dd79ece3bnat;
    let e23 = 2 * e22;
    lemma_power_mod_square(10nat, e22, n, x22, 0x76c46faaa49d50009f29c660320c635fd318b7b088c07a4143873447anat, x23);
    let x24 = 0x6fb50edcc54aab56235e917301786c7cc80abf07d9117e530d017588f5bnat;
    let e24 = 2 * e23 + 1;
    lemma_power_mod_square_times(10nat, e23, n, x23, 0x127f7a263dc36c1e41eed413318c6823c6e0f6cef7ecabc1a2a54fc73cfadnat, x24);
    let x25 = 0x225c7662f9a3758755fdb0eea520b88c93bb4dc531602c21fb45f4610f5nat;
    let e25 = 2 * e24 + 1;
    lemma_power_mod_square_times(10nat, e24, n, x24, 0x1066c9431141bf7dc71b3b4207eed1281b6cca042edafe2cecfa5b73cc7fnat, x25);
    let x26 = 0x161aa8768735bc9a359e2e916ffa02c2b63335cdf114cfcf62d503a2e787nat;
    let e26 = 2 * e25;
    lemma_power_mod_square(10nat, e25, n, x25, 0x27ba60e5fd47b0913be497b9cd3e81b51b1a5acf14be282d8d9e091636nat, x26);
    let x27 = 0x11ab0f475eeb454e1c5727dfc933f1cd97fdda94173c12d15db0b07705c6nat;
    let e27 = 2 * e26;
    lemma_power_mod_square(10nat, e26, n, x26, 0x1070b30ec8dc288718d9cc990026318f14729ea1ca7bc5e4ee30ffe93e51nat, x27);
    let x28 = 0xa06e0f66bd8b352890365f5189bffc09c275ae3962a0cd37b6c7b7da94enat;
    let e28 = 2 * e27;
    lemma_power_mod_square(10nat, e27, n, x27, 0xa80f7d429355732ec1209d4ec7fe17336be370210d970ef0d94f4091ba2nat, x28);
    let x29 = 0x1cde596c4f97df5a1902b9b10ce1f17d5a7afbe2d25dd3340ea098c60b81nat;
    let e29 = 2 * e28 + 1;
    lemma_power_mod_square_times(10nat, e28, n, x28, 0x21d4469ac9b860c902c7ef542db16169e3cf6d58c8a16ab0864a291cc5c5nat, x29);
    let x30 = 0x422380ac9710f70422c60accdf293b19a48aab3f652edd617b1aa7d4ff7nat;
    let e30 = 2 * e29;
    lemma_power_mod_square(10nat, e29, n, x29, 0x1c0ac8f10d468a05a78e775a954cdacca2e004e19a92d248a8ba3a6e86fenat, x30);
    let x31 = 0x712b094d8e9913a79a78aeffa1c897e8460ee216b616e9eadedc41bb8bnat;
    let e31 = 2 * e30;
    lemma_power_mod_square(10nat, e30, n, x30, 0x933018e6abcd740a7fbfe024caba1fe6f9a69c5b47938a03099a5fb372nat, x31);
    let x32 = 0x1adfdb5c77787f54d2b63968ff955bb1a14e04e44d88725bf01021193b14nat;
    let e32 = 2 * e31 + 1;
    lemma_power_mod_square_times(10nat, e31, n, x31, 0x10d552d6bd5047d514dec8bc245853616439128046e9abbe837a6a5212nat, x32);
}

proof fn lemma_power_205115282021455665897114700593932402728804164701536103180137503955397371_over_2_part_5()
    requires
        power_mod(10nat, 0x1db8260e5e3b460a46a0088fccf6a3a5936d75d89nat, 0x1db8260e5e3b460a46a0088fccf6a3a5936d75d89a776d4c0da4f338aafbnat) == 0x1adfdb5c77787f54d2b63968ff955bb1a14e04e44d88725bf01021193b14nat,
    ensures
        power_mod(10nat, 0x1db8260e5e3b460a46a0088fccf6a3a5936d75d89a776d4c0nat, 0x1db8260e5e3b460a46a0088fccf6a3a5936d75d89a776d4c0da4f338aafbnat) == 0x15ed273d2304c4badeaee6c7f4744275ccb1b99b80cb09eeba4e035d8aa5nat,
{
    let n = 0x1db8260e5e3b460a46a0088fccf6a3a5936d75d89a776d4c0da4f338aafbnat;
    let e0 = 0x1db8260e5e3b460a46a0088fccf6a3a5936d75d89nat;
    let x0 = 0x1adfdb5c77787f54d2b63968ff955bb1a14e04e44d88725bf01021193b14nat;
    let x1 = 0xfa330b5a2ecc9f2452fd2526c8ec20a164ae77d739a303e712470206723nat;
    let e1 = 2 * e0 + 1;
    lemma_power_mod_square_times(10nat, e0, n, x0, 0xf304cf5c4a94a19728cc39bf24d811654ae63ba6e760d56f638a1515b0e7nat, x1);
    let x2 = 0x15de97d2437fda113c694ae8ad8b81ea173b1085e6d25135ec71781b90b7nat;
    let e2 = 2 * e1;
    lemma_power_mod_square(10nat, e1, n, x1, 0x83a5d3f9532983486e12afff8db3410eab63521f468265c08ace0ad1d96nat, x2);
    let x3 = 0x2a9a6ad669a20424daa8a0908456bfe7c7e6ac532a1d1deda78f2364c2cnat;
    let e3 = 2 * e2 + 1;
    lemma_power_mod_square_times(10nat, e2, n, x2, 0xa0ee410d0de925d212eba5e408e1b5e3530b96cf4b83e3ca57b113a60f9anat, x3);
    let x4 = 0x107da1f7851ebfa4543948db4617949f634db4eb7bb5e00d8bf13044f8a3nat;
    let e4 = 2 * e3;
    lemma_power_mod_square(10nat, e3, n, x3, 0x3d128b6733a35c3eb7eca73b24c248f3a409a5a9e121de9807145ee937nat, x4);
    let x5 = 0x19bdddd0685376d5242facf45c59483a11a2affbbf248607a81271da407nat;
    let e5 = 2 * e4;
    lemma_power_mod_square(10nat, e4, n, x4, 0x926832c24b70f8bb37cfef6e89bf0a03c03add8229cfd365334e2290fa6nat, x5);
    let x6 = 0x16e2dc742d1a9d8c6c8a28538cbd3bf4ed80078724f604d05575f85ba474nat;
    let e6 = 2 * e5 + 1;
    lemma_power_mod_square_times(10nat, e5, n, x5, 0xdef6b8c0dfbeaf5488fd64d0c44b91f132a20667be73031ec217d48e82nat, x6);
    let x7 = 0x1888d6c6d486fb9a9686c1a08908a349b941034312f7ebb82795dee4cb46nat;
    let e7 = 2 * e6 + 1;
    lemma_power_mod_square_times(10nat, e6, n, x6, 0xb03dbfad8276d47519ae0291d484a53b55e5708e4a299885b0fee59017eenat, x7);
    let x8 = 0x196064f74de664dca497d4132248c3dc22d9bb250d1020efe48ac74010a9nat;
    let e8 = 2 * e7 + 1;
    lemma_power_mod_square_times(10nat, e7, n, x7, 0xca8ae74c1011eb1e4f3d39f9cc27adb2f7f0247b777481ae2e9f2af7f80dnat, x8);
    let x9 = 0x5a2726e23dff6e478e12151b757467198a3073d10c13ee39af79bf2786dnat;
    let e9 = 2 * e8;
    lemma_power_mod_square(10nat, e8, n, x8, 0x15ab18e2b552d31f725da06ff180c4ad2f45d2a7c929eb8e1a111302dc2cnat, x9);
    let x10 = 0x1984876f87c2bae185cfbebaa34225bf9cfc7fd19d5d8ffae5b9664674a8nat;
    let e10 = 2 * e9 + 1;
    lemma_power_mod_square_times(10nat, e9, n, x9, 0xaaec5013c7505ef969df3f027e16a25fcccf0919db8b104ce14c12777b6nat, x10);
    let x11 = 0x8e9d696e8d2de3edb160e5826c14e2e3dd87670fc08d05565f5e6fde54anat;
    let e11 = 2 * e10 + 1;
    lemma_power_mod_square_times(10nat, e10, n, x10, 0xdb19c6c50e68ebc02efd97eb17a63048b71783728dd1ae14e854334655c2nat, x11);
    let x12 = 0x96700a7263e83ede6084b09bdab6549ac78421a6a1a428c51ff7f57c971nat;
    let e12 = 2 * e11 + 1;
    lemma_power_mod_square_times(10nat, e11, n, x11, 0x1abbb235cbd4667f2fc5f165f23635d2b151dcb5eb443154ab51c4a563b5nat, x12);
    let x13 = 0x136dfc09564d8546fcedb36b666e0cb8f7161e53473893a309f5eeb08afdnat;
    let e13 = 2 * e12;
    lemma_power_mod_square(10nat, e12, n, x12, 0x2f981e308c3de8a3f1c453439744219f2ecf5ae9172859fbf5f0356356cnat, x13);
    let x14 = 0x8271d45949e206e7859b39622becab8c3ded9d1594e3f6bee6da1a4324dnat;
    let e14 = 2 * e13 + 1;
    lemma_power_mod_square_times(10nat, e13, n, x13, 0x7f0673cf3b410753f5a298b6fbd041c6a68e14b3d12165d68bf9476b2097nat, x14);
    let x15 = 0x15dfb0839fc1636d908da859234798743f0f75193f5f7ea6018332992bb1nat;
    let e15 = 2 * e14 + 1;
    lemma_power_mod_square_times(10nat, e14, n, x14, 0x165d804215dc8b1585ac1a7c471b228964b4d654441245df263f7859976bnat, x15);
    let x16 = 0xbb1ac104c2d591dda69e5bab312f0d4b2da1c21a931e0dd6c68f6c1f297nat;
    let e16 = 2 * e15;
    lemma_power_mod_square(10nat, e15, n, x15, 0x101970738616924010b59fe2974df8e05c7c89c6a576ad8aee224cdeaf3enat, x16);
    let x17 = 0xb0b49d30c73fe850a199a19dff8cd2399ad3edcda12bcb5f280173a8448nat;
    let e17 = 2 * e16 + 1;
    lemma_power_mod_square_times(10nat, e16, n, x16, 0x2e039231e23031bc5db44d821d8babc9cab0660a1639470f07145f4dbd86nat, x17);
    let x18 = 0xa9bc01664bcb9862d5c65cd569ed355fb6aa39dd70466ad4388fd780d4dnat;
    let e18 = 2 * e17 + 1;
    lemma_power_mod_square_times(10nat, e17, n, x17, 0x290a93936d8af98f2b1acbd6da28685d614d2627cce8c99a132e37dca129nat, x18);
    let x19 = 0x16bb88f66225b82a75d07621bb61f99a3e791fe23d775923847578796c81nat;
    let e19 = 2 * e18;
    lemma_power_mod_square(10nat, e18, n, x18, 0x3c965131a48cd49e764702d8fbf084f538d9c6d2fe6c9a578b490965578nat, x19);
    let x20 = 0x121269f0e5173c39174de75ea3cf9cf16a6d33554408bf9c0c25a85d331bnat;
    let e20 = 2 * e19 + 1;
    lemma_power_mod_square_times(10nat, e19, n, x19, 0xade2192ae5b65a84527c16256e0aead39c1cfa3c206ded1feb55cb46d19dnat, x20);
    let x21 = 0x298d27ad48a4b29df94619b4e7388fb3e586737383836ed7d4e49625407nat;
    let e21 = 2 * e20;
    lemma_power_mod_square(10nat, e20, n, x20, 0xafd42b7752f137c3587edf5a36f6c3d6aa5f4f5592101ec27af5aba19d6nat, x21);
    let x22 = 0x16ddae2ae5d9789c057c4f9baf3810bdb23304c1c014cafb55348d4b9c61nat;
    let e22 = 2 * e21 + 1;
    lemma_power_mod_square_times(10nat, e21, n, x21, 0x244f0e49c10addf187fbda52fee64dae9c24b341be57be1aaae01ec5a4bnat, x22);
    let x23 = 0x976df58d02a37fdc74871eb949d80968268772826c3df604338eca8e7f4nat;
    let e23 = 2 * e22;
    lemma_power_mod_square(10nat, e22, n, x22, 0x1197cc95e713b2f133e9375fda09582b82113f2b00b44c0489819b4cd4d7nat, x23);
    let x24 = 0x245fc79f581d24a7a05532512e0be71f1ea9909a04ec34b80b46cb153d4nat;
    let e24 = 2 * e23;
    lemma_power_mod_square(10nat, e23, n, x23, 0x3039500f0bccf3c8c1cff1b26785df931b739dca1791a66a378a9b7e974nat, x24);
    let x25 = 0x45f4822a4c96aa639b6445dfb2c8d395db3ede72276bffed7c6e8d13366nat;
    let e25 = 2 * e24 + 1;
    lemma_power_mod_square_times(10nat, e24, n, x24, 0x1bd30e9820391262659e2131fd2592f0d2aed66e38d289ebf665d26b38enat, x25);
    let x26 = 0xaaccbda8c9701582bf72a594157fdfc248fb52e088f31aa49eb4a4449e2nat;
    let e26 = 2 * e25 + 1;
    lemma_power_mod_square_times(10nat, e25, n, x25, 0x66ea50559572bcf56cbe01c9d30d71abea21f6820adf7b5660f4d63d6b2nat, x26);
    let x27 = 0x19ad38510910991b715e3842aa29611d0d8838b587e3b9c41c6e57afd841nat;
    let e27 = 2 * e26;
    lemma_power_mod_square(10nat, e26, n, x26, 0x3d59a2b4e6e52b7b71dacf95cd43dbec0193534ecb04bf0ade6d0808659nat, x27);
    let x28 = 0x1cd497981e9e9d81e958a872e9af0c274c280088f2844c6a6b07676f44b7nat;
    let e28 = 2 * e27;
    lemma_power_mod_square(10nat, e27, n, x27, 0x162f125499be58af206f677f616bdd4eb16e58d4378883253ad8872cc93enat, x28);
    let x29 = 0xad22c4b211e133eb2ed3e0e5cab803c0cd8d38b749724adfe51ea931870nat;
    let e29 = 2 * e28;
    lemma_power_mod_square(10nat, e28, n, x28, 0x1bf7d77f9d9c7af859549c5604c35cc91577c4c2f0d688164208bc3d2953nat, x29);
    let x30 = 0xbe6db36f71cf2be5c6a872cfa83536ead5f533952987e47b052eca7e547nat;
    let e30 = 2 * e29;
    lemma_power_mod_square(10nat, e29, n, x29, 0x3f0a3040fbdb90a8605a8144a4ff6368a632f7352a9ed2d02ef8dba65dbnat, x30);
    let x31 = 0xa32c63dc88d284e6834a39f9905c358b1ac531282cdcdd67cf052ccb472nat;
    let e31 = 2 * e30;
    lemma_power_mod_square(10nat, e30, n, x30, 0x4c42ed68ddd8242deaffa07f79a57b23d4aac26e3c53a7f72f827905b8dnat, x31);
    let x32 = 0x15ed273d2304c4badeaee6c7f4744275ccb1b99b80cb09eeba4e035d8aa5nat;
    let e32 = 2 * e31;
    lemma_power_mod_square(10nat, e31, n, x31, 0x37fe67bc9b2f75b4da8502f1118e30d5f4dc80e04fca1ebca68ce329e2dnat, x32);
}

proof fn lemma_power_205115282021455665897114700593932402728804164701536103180137503955397371_over_2_part_6()
    requires
        power_mod(10nat, 0x1db8260e5e3b460a46a0088fccf6a3a5936d75d89a776d4c0nat, 0x1db8260e5e3b460a46a0088fccf6a3a5936d75d89a776d4c0da4f338aafbnat) == 0x15ed273d2304c4badeaee6c7f4744275ccb1b99b80cb09eeba4e035d8aa5nat,
    ensures
        power_mod(10nat, 0x1db8260e5e3b460a46a0088fccf6a3a5936d75d89a776d4c0da4f338anat, 0x1db8260e5e3b460a46a0088fccf6a3a5936d75d89a776d4c0da4f338aafbnat) == 0x159b0ef849b9ff7245203cd295dd0adc96374a93de75bf27ca20a3f881c3nat,
{
    let n = 0x1db8260e5e3b460a46a0088fccf6a3a5936d75d89a776d4c0da4f338aafbnat;
    let e0 = 0x1db8260e5e3b460a46a0088fccf6a3a5936d75d89a776d4c0nat;
    let x0 = 0x15ed273d2304c4badeaee6c7f4744275ccb1b99b80cb09eeba4e035d8aa5nat;
    let x1 = 0x1962f4f66ee00c3bae512a4ab03f96e49b540306b44150eb276a9e30236nat;
    let e1 = 2 * e0 + 1;
    lemma_power_mod_square_times(10nat, e0, n, x0, 0xa1c4d2210bbdcb23e8948c9654813980ce737793fe474eb6a1ebafb1e48cnat, x1);
    let x2 = 0x1831025af7d47ad465fe0fc37e79220cc4b8257c167b28e9fd23f541f6eanat;
    let e2 = 2 * e1 + 1;
    lemma_power_mod_square_times(10nat, e1, n, x1, 0xd8dabdd2e392844e97439db19946ff959f54f671565bf0b8133e83309anat, x2);
    let x3 = 0x1b434a1bb127f841fb1edff763787b17bea8c8974c882238c7aedbf64a0cnat;
    let e3 = 2 * e2;
    lemma_power_mod_square(10nat, e2, n, x2, 0x13b1171187908c88ee7225d79aae618ba0250aac01f4d33aad6661490408nat, x3);
    let x4 = 0x1ba2ec3cfa25434792ae0bb44259220469fdc7232dbb5bf53def2217588bnat;
    let e4 = 2 * e3 + 1;
    lemma_power_mod_square_times(10nat, e3, n, x3, 0xfa1817cee1af39cd11e0714db8211ce612c2739bb005ad27c49acffbab2fnat, x4);
    let x5 = 0x137d28a6e8eefd2428935d43ee3343a07d2eeacfeba126bb43f4d192f1f0nat;
    let e5 = 2 * e4 + 1;
    lemma_power_mod_square_times(10nat, e4, n, x4, 0x100feafe0208d8824fc161390b9f0196c3632c3400fad4b7f48f2ffcd283enat, x5);
    let x6 = 0x11b0758e57f211198c29f5ca1861e27c20d472cb8049ba217a8fcef3b1b1nat;
    let e6 = 2 * e5;
    lemma_power_mod_square(10nat, e5, n, x5, 0xcc7b76c972fe4a0aa174b109f93081cc153de28da28940509bf014b3cbdnat, x6);
    let x7 = 0x18b14c3f2ec91e06a1332fe9ec7a8f7aaf680718bb6b13263d8ec6b5eb49nat;
    let e7 = 2 * e6 + 1;
    lemma_power_mod_square_times(10nat, e6, n, x6, 0x6949eb6df7bae621162c0eb525a0779a99074e07fa6040ee9cff6a2939b3nat, x7);
    let x8 = 0xa4d9f2415e0b60867032e59a78e6f384796bd99e853eff49d046b4f9e1nat;
    let e8 = 2 * e7;
    lemma_power_mod_square(10nat, e7, n, x7, 0x14841b3e0ca717a569f5f038a90ffdb934be556647d11888e289f1f58fd0nat, x8);
    let x9 = 0xbdf6e4427d3221982e13b5c56b795811f6f9330983041f6f2e423516073nat;
    let e9 = 2 * e8;
    lemma_power_mod_square(10nat, e8, n, x8, 0x3926bad1fd83bee2072aa9ec49733711560fc89ba410be452fa72048anat, x9);
    let x10 = 0x10cc67f6dd572703da25ba38b42338bcb40da13026e921c71219d695a2e3nat;
    let e10 = 2 * e9 + 1;
    lemma_power_mod_square_times(10nat, e9, n, x9, 0x2f6e6d5f63889b20947a8a2ee5c98661c6bd75d389bd70b113f47495a775nat, x10);
    let x11 = 0x19505ac2dee6247f7089c8db5ad782ee108565eb9d7c640c4025b89b2c4fnat;
    let e11 = 2 * e10;
    lemma_power_mod_square(10nat, e10, n, x10, 0x97ebf81f7b69c1c04a9feb6e1a8f8e3a3820d5f9ec0ff7f6ba0a4f789cenat, x11);
    let x12 = 0x9c78aa4c2c04e9b426110ea4dd99bc113da4fec6b784109976fe17a677dnat;
    let e12 = 2 * e11;
    lemma_power_mod_square(10nat, e11, n, x11, 0x158fbd2f911dd37ff40df8e3400cecce6e8cb9f720510a4fd2f92a0a756cnat, x12);
    let x13 = 0x8e47b600e4d0bac558dfd1f7c097900933c2f1d90508f7f733bb00b93b4nat;
    let e13 = 2 * e12 + 1;
    lemma_power_mod_square_times(10nat, e12, n, x12, 0x202e2aec195c1aa6b4da6206214e8b4ba9302d06c9344e374da0423edf12nat, x13);
    let x14 = 0x457f88e141314520bc554d2178a039f83ca913c3a722e3ff54cbcd1c559nat;
    let e14 = 2 * e13 + 1;
    lemma_power_mod_square_times(10nat, e13, n, x13, 0x1a9b9ac38a958b6bd4d6538ab2daf79f1ff760be531b8f16a9abd16e1225nat, x14);
    let x15 = 0x15ee329659dbb839409f71e1baed6d033f2a49334e7fc56260cfc1da1403nat;
    let e15 = 2 * e14 + 1;
    lemma_power_mod_square_times(10nat, e14, n, x14, 0x6593435d8ce29bbcf18c838b9e4fe1a2b90a674a2726a4ac5c0542d6385nat, x15);
    let x16 = 0x4c3d323bbdacaf22e177bbec20b5a70bfffaee5b306cc91e754ad79138enat;
    let e16 = 2 * e15 + 1;
    lemma_power_mod_square_times(10nat, e15, n, x15, 0xa1d43b649365b27576f510bbd5ff6eb7c64a7c007a24107ed687d945fca4nat, x16);
    let x17 = 0x16ece20a44f2a2998160b5040edcd0723417cbd4b18b626a4a3a2c7248afnat;
    let e17 = 2 * e16;
    lemma_power_mod_square(10nat, e16, n, x16, 0xc3937ed77d2bf9877498c6f61f382c4309170eb7b7e142c83a83a4422fnat, x17);
    let x18 = 0x17d266c1f2c211d16b3b7fff3792b925227608c9646e4ccb7fa3c0c00c40nat;
    let e18 = 2 * e17;
    lemma_power_mod_square(10nat, e17, n, x17, 0x11af392557e2c3bcbe1dfdaa708867b2e31dd245e37d916490c616c28453nat, x18);
    let x19 = 0x161ff677ee9ac0aa42bb0f035642a42cc606a06c695f68f0195223be8cd1nat;
    let e19 = 2 * e18 + 1;
    lemma_power_mod_square_times(10nat, e18, n, x18, 0xbef274df1532ca76762dba13ab69187caa122edacf0d7f54dcd518f6025dnat, x19);
    let x20 = 0x90ced5e7fc25edd39fee7e7d7a198f4c074f5b54f8144ce116d479cc726nat;
    let e20 = 2 * e19 + 1;
    lemma_power_mod_square_times(10nat, e19, n, x19, 0xa4b5f0b9c7d9b7748462be75853adf15fbd33411b07a4c66d233492c502cnat, x20);
    let x21 = 0x16b19bc7e59e580d7426de545366393e08fb70c49e18d29d6441688a43d9nat;
    let e21 = 2 * e20;
    lemma_power_mod_square(10nat, e20, n, x20, 0x2c1944929d3dcec99f14c6bd8a5a3d409d289fe2f8ead21aecf344c8771nat, x21);
    let x22 = 0x63b6c1f5f66c1671e2284928b48e3901033235c728214e022f192366517nat;
    let e22 = 2 * e21;
    lemma_power_mod_square(10nat, e21, n, x21, 0x11543cb0f2ce3c6f1fccb2935858bebc352e8ad6148632189a30e5d3836enat, x22);
    let x23 = 0x11250f4dfa174e8cff3c04220a733825f54392b4674fec92871962b501ccnat;
    let e23 = 2 * e22 + 1;
    lemma_power_mod_square_times(10nat, e22, n, x22, 0xd119653a5c68d05bb224cbef6eaad7cd81df86a5c9ca2386d949edad63anat, x23);
    let x24 = 0x654dc8615aa1774b3d938a86d9616bbc10f3c669a46e0e1c5bc6d6a42d8nat;
    let e24 = 2 * e23 + 1;
    lemma_power_mod_square_times(10nat, e23, n, x23, 0x62e80480f94b2c3fd0621e0cc78b11fc70ecbba167a05b653e087f45d9d8nat, x24);
    let x25 = 0x50bcdaf1daed3e1b654743bcd4fd70cf753744ca6631930eafaf20af24cnat;
    let e25 = 2 * e24 + 1;
    lemma_power_mod_square_times(10nat, e24, n, x24, 0xd7d20faeb71b7d8dcbd746c1a9b66df55665f9d8e19e86d2955dbd84e5cnat, x25);
    let x26 = 0x2d87f2ee9d99204065d8590e4b95a736c566ff50afdf68446a23d5bbe4bnat;
    let e26 = 2 * e25;
    lemma_power_mod_square(10nat, e25, n, x25, 0xdb56879d776dd05a0cc14565a291f6fc6cab721b989ae2c4d15ca7b5bfnat, x26);
    let x27 = 0x8081ecc8c4ee1549bb940ad1833b9e8356aebbf80f610c5b13bb3bc53b1nat;
    let e27 = 2 * e26;
    lemma_power_mod_square(10nat, e26, n, x26, 0x45c151f2b710270c991be816bc79283a56108b222496fdc19fdc59f058nat, x27);
    let x28 = 0x1d47f0429adbd0da621e2e065e2c5cf972e41a2762250909a504777f12fenat;
    let e28 = 2 * e27;
    lemma_power_mod_square(10nat, e27, n, x27, 0x22babe1cd5a454d825be9c5c30f2d14f19f986ae126e6bb1be1e4527ab9nat, x28);
    let x29 = 0x842327a0c8edee0a0edf52f92a12704763a53ee67b1211f50b5c5c52a27nat;
    let e29 = 2 * e28 + 1;
    lemma_power_mod_square_times(10nat, e28, n, x28, 0x1207dd5514f78a053816b17d8fee4a08316967c7b93553bb2adec08e60a33nat, x29);
    let x30 = 0x130909a15885eccdb3d2bf41fc54a56e653889f2255078f74fe0ac07b3abnat;
    let e30 = 2 * e29;
    lemma_power_mod_square(10nat, e29, n, x29, 0x24b816cdebfaae33b391fc267370cf2bfcc7670fce6f2d4c71c3d2fe7f2nat, x30);
    let x31 = 0xc70dfe2f473c806c701929346197f9f19abc47543f031891dc4dbeb89fnat;
    let e31 = 2 * e30 + 1;
    lemma_power_mod_square_times(10nat, e30, n, x30, 0x79ebec7f729969db2cec1e21383811f2cba49575d01fad94665c8f1c71e1nat, x31);
    let x32 = 0x159b0ef849b9ff7245203cd295dd0adc96374a93de75bf27ca20a3f881c3nat;
    let e32 = 2 * e31;
    lemma_power_mod_square(10nat, e31, n, x31, 0x5353b59173ddba2a0fdc108d02ae95f0875597cd584e532bd7bf8e29anat, x32);
}

proof fn lemma_power_205115282021455665897114700593932402728804164701536103180137503955397371_over_2_part_7()
    requires
        power_mod(10nat, 0x1db8260e5e3b460a46a0088fccf6a3a5936d75d89a776d4c0da4f338anat, 0x1db8260e5e3b460a46a0088fccf6a3a5936d75d89a776d4c0da4f338aafbnat) == 0x159b0ef849b9ff7245203cd295dd0adc96374a93de75bf27ca20a3f881c3nat,
    ensures
        power_mod(10nat, 0xedc13072f1da30523500447e67b51d2c9b6baec4d3bb6a606d2799c557dnat, 0x1db8260e5e3b460a46a0088fccf6a3a5936d75d89a776d4c0da4f338aafbnat) == 0x1db8260e5e3b460a46a0088fccf6a3a5936d75d89a776d4c0da4f338aafanat,
{
    let n = 0x1db8260e5e3b460a46a0088fccf6a3a5936d75d89a776d4c0da4f338aafbnat;
    let e0 = 0x1db8260e5e3b460a46a0088fccf6a3a5936d75d89a776d4c0da4f338anat;
    let x0 = 0x159b0ef849b9ff7245203cd295dd0adc96374a93de75bf27ca20a3f881c3nat;
    let x1 = 0xd657a8e28c16d9a012987d80930423ab107781e741952a30f2215270d3anat;
    let e1 = 2 * e0 + 1;
    lemma_power_mod_square_times(10nat, e0, n, x0, 0x9d125177c519b70283877dc452eb55f7520dc9b0a5314ef29efce6db3a60nat, x1);
    let x2 = 0x85b7081ebd98284f21c4381da3691f818698f592407989252161310bfd0nat;
    let e2 = 2 * e1;
    lemma_power_mod_square(10nat, e1, n, x1, 0x609e29c2664c009fee0e771cc2ff025fa81000e33b71d7f7dfc043413bcnat, x2);
    let x3 = 0x12bf2b8615e4994fe7c3bc38a16abff25cd5decf3708e31e894fba22735nat;
    let e3 = 2 * e2 + 1;
    lemma_power_mod_square_times(10nat, e2, n, x2, 0x17802ecb227c2f1b2f8206f2b9e2200169e5152f6e9ffc2eeedce9c30e71nat, x3);
    let x4 = 0x648db9af5429c0cc51958efae0e019b03ed6afdf902ca6be0a1bbef3720nat;
    let e4 = 2 * e3;
    lemma_power_mod_square(10nat, e3, n, x3, 0xbd348e90bb7b98bc24b9927ed15b30ad11a0a445d76f9316cc21f163bnat, x4);
    let x5 = 0x19aee95878e8120c7d2b39d7f00a0891d38e7fe82dab5cb6a112ea77201nat;
    let e5 = 2 * e4 + 1;
    lemma_power_mod_square_times(10nat, e4, n, x4, 0xd4a2c32c62c35fbe272448b0e6e5bbff80b27005dab14d38da3b68ff1cdnat, x5);
    let x6 = 0x85f9111753bc3d95c57ae586211be89fbbf8d23cd1b135e58550100655anat;
    let e6 = 2 * e5 + 1;
    lemma_power_mod_square_times(10nat, e5, n, x5, 0xddf3f2c22d56f42afec21cbe85996b1fb0fc2af938fb776cf2ab5d0910nat, x6);
    let x7 = 0x5a55247d42aaacfd73e56c4e9d884afd528fe43c4c77c3c1f66b55c10abnat;
    let e7 = 2 * e6 + 1;
    lemma_power_mod_square_times(10nat, e6, n, x6, 0x17976ab348bd80af668c8c9b1f2d7a206081ab88cda179498accaa7f3ea7nat, x7);
    let x8 = 0x1da6d87a02f1e7883b49ca6cc859976284f64969ceaffb59d2ee53c73a19nat;
    let e8 = 2 * e7 + 1;
    lemma_power_mod_square_times(10nat, e7, n, x7, 0xab9ae046b32317e542626d6bd960e01eb08687f33772ccc59ecfbd10a93nat, x8);
    let x9 = 0x1d068e367d39f7eab0accc49297f2efaf86d4ccf1e5e3ed03f8855cc42ecnat;
    let e9 = 2 * e8 + 1;
    lemma_power_mod_square_times(10nat, e8, n, x8, 0x127d7d1b63b995a873411faabdf4cb2cd97e2606110936fd1d9a1d35b401anat, x9);
    let x10 = 0x1c119716eb2e0ed957a553871380fc7822f7a44a12240d6ab5c5e94a5429nat;
    let e10 = 2 * e9;
    lemma_power_mod_square(10nat, e9, n, x9, 0x1c591b9be0f6135b281ff8011c60bc43ec4c90f41a53b1b4cb33fb1c5385nat, x10);
    let x11 = 0x1db8260e5e3b460a46a0088fccf6a3a5936d75d89a776d4c0da4f338aafanat;
    let e11 = 2 * e10 + 1;
    lemma_power_mod_square_times(10nat, e10, n, x10, 0x1091901dfbe70ed86148a058e449e32ca55378726d3a517107d1aa4e43510nat, x11);
}

proof fn lemma_power_205115282021455665897114700593932402728804164701536103180137503955397371_over_2()
    ensures
        power_mod(10nat, 0xedc13072f1da30523500447e67b51d2c9b6baec4d3bb6a606d2799c557dnat, 0x1db8260e5e3b460a46a0088fccf6a3a5936d75d89a776d4c0da4f338aafbnat) == 0x1db8260e5e3b460a46a0088fccf6a3a5936d75d89a776d4c0da4f338aafanat,
{
    lemma_power_mod_first(10nat, 0x1db8260e5e3b460a46a0088fccf6a3a5936d75d89a776d4c0da4f338aafbnat);
    lemma_power_205115282021455665897114700593932402728804164701536103180137503955397371_over_2_part_0();
    lemma_power_205115282021455665897114700593932402728804164701536103180137503955397371_over_2_part_1();
    lemma_power_205115282021455665897114700593932402728804164701536103180137503955397371_over_2_part_2();
    lemma_power_205115282021455665897114700593932402728804164701536103180137503955397371_over_2_part_3();
    lemma_power_205115282021455665897114700593932402728804164701536103180137503955397371_over_2_part_4();
    lemma_power_205115282021455665897114700593932402728804164701536103180137503955397371_over_2_part_5();
    lemma_power_205115282021455665897114700593932402728804164701536103180137503955397371_over_2_part_6();
    lemma_power_205115282021455665897114700593932402728804164701536103180137503955397371_over_2_part_7();
}

proof fn lemma_power_205115282021455665897114700593932402728804164701536103180137503955397371_over_3_part_0()
    requires
        power_mod(10nat, 1nat, 0x1db8260e5e3b460a46a0088fccf6a3a5936d75d89a776d4c0da4f338aafbnat) == 10nat,
    ensures
        power_mod(10nat, 0x13d0195eenat, 0x1db8260e5e3b460a46a0088fccf6a3a5936d75d89a776d4c0da4f338aafbnat) == 0xeab31d7dfc910c76125fd40dc472aa525850e45a75d3b752188bbdcebf7nat,
{
    let n = 0x1db8260e5e3b460a46a0088fccf6a3a5936d75d89a776d4c0da4f338aafbnat;
    let e0 = 1nat;
    let x0 = 10nat;
    let x1 = 100nat;
    let e1 = 2 * e0;
    lemma_power_mod_square(10nat, e0, n, x0, 0nat, x1);
    let x2 = 10000nat;
    let e2 = 2 * e1;
    lemma_power_mod_square(10nat, e1, n, x1, 0nat, x2);
    let x3 = 0x3b9aca00nat;
    let e3 = 2 * e2 + 1;
    lemma_power_mod_square_times(10nat, e2, n, x2, 0nat, x3);
    let x4 = 0x8ac7230489e80000nat;
    let e4 = 2 * e3 + 1;
    lemma_power_mod_square_times(10nat, e3, n, x3, 0nat, x4);
    let x5 = 0x2f050fe938943acc45f65568000000000nat;
    let e5 = 2 * e4 + 1;
    lemma_power_mod_square_times(10nat, e4, n, x4, 0nat, x5);
    let x6 = 0xd64285e260dab9af6f72f7b75602f80c765a9fffe2676d9a166ea27ab6bnat;
    let e6 = 2 * e5 + 1;
    lemma_power_mod_square_times(10nat, e5, n, x5, 0x2e7e9afnat, x6);
    let x7 = 0xb013778835da02811b3c60f4b852ca3641dc192201565a72718952a7f9nat;
    let e7 = 2 * e6;
    lemma_power_mod_square(10nat, e6, n, x6, 0x608b1c880c2adcad50f45f31a8b75558d58efea5b2fed175c0c9610a840nat, x7);
    let x8 = 0x190507d1b1525e93ff5b849c884375fff17aec22d366a37e3a81b5bdd45enat;
    let e8 = 2 * e7 + 1;
    lemma_power_mod_square_times(10nat, e7, n, x7, 0x28bfdab42c8e9fa2ac465e09d838a5a647eefd7f51dfa75f3af04332e4nat, x8);
    let x9 = 0x10832d5e615721bd88d92f39252f2ed17e65bf96be1166df1a564911d101nat;
    let e9 = 2 * e8;
    lemma_power_mod_square(10nat, e8, n, x8, 0x15102b06a9ed21d9bde8e1460ccd09c3ac7bf192d0e29815f8a263c6bd19nat, x9);
    let x10 = 0x14d144972f465227efc2e0aca2cb5be2d3d1d6c5c12e1da6ea6f187965f5nat;
    let e10 = 2 * e9;
    lemma_power_mod_square(10nat, e9, n, x9, 0x92cab692ba73722ccb5afb188925196b7847e898cbb5d1be490ecaeb664nat, x10);
    let x11 = 0x1c7fb6ed09ab021748ec88f3eede861b2d6fb7ded3ebe915c3162adf78adnat;
    let e11 = 2 * e10;
    lemma_power_mod_square(10nat, e10, n, x10, 0xe94fbe2fc352504be4749fd955088c9d79210397042f381931f4893c1a4nat, x11);
    let x12 = 0x19d4bbb107e70baa78fdec318962451c11d2af4aba2a66d4d394ecc2af6enat;
    let e12 = 2 * e11;
    lemma_power_mod_square(10nat, e11, n, x11, 0x1b541c5c4dad09fc5b24bd7421c0b81119d0d1ecc2e1e7674a86d4edd781nat, x12);
    let x13 = 0x24d1da1caa48c8640a285e0a6c748e8422a203c39ed50c186b9eb870bf7nat;
    let e13 = 2 * e12;
    lemma_power_mod_square(10nat, e12, n, x12, 0x16738da593cc494fe0696ca4738f888a298e59606b0d9810c0d37c678457nat, x13);
    let x14 = 0x7ea51a5999a426e4577512085a50f55694332a0caa21945ce1525de2f13nat;
    let e14 = 2 * e13;
    lemma_power_mod_square(10nat, e13, n, x13, 0x2d9dd52117b292d73e4feb08e8a65d1bf14e6511dd79c86a51aaae075anat, x14);
    let x15 = 0x1db2ad3f0761f7867f0694b0c9756a9f727f1323fe9b463842dc5561e83cnat;
    let e15 = 2 * e14;
    lemma_power_mod_square(10nat, e14, n, x14, 0x21bae2c2e981546cf5dae0b7fa7053a6fd8850d793b8bb42fc3aa0c61f7nat, x15);
    let x16 = 0xcbecd02dd7b7762d69308d0d359b481890db1256c0fa10c0ddc5ee3763anat;
    let e16 = 2 * e15 + 1;
    lemma_power_mod_square_times(10nat, e15, n, x15, 0x128c416701008d9589f8eba7b55f0d5bf0d186a6e3f91f71b676468e8d652nat, x16);
    let x17 = 0x3d50e3be8d70c0754223bac77cb9098009acaeb8765ba59fd05947ce021nat;
    let e17 = 2 * e16 + 1;
    lemma_power_mod_square_times(10nat, e16, n, x16, 0x36a8b843cf9027b337db716f1e638da80c9dda4c3a58f3b348586a1a4725nat, x17);
    let x18 = 0x90395d4fed1135658df9c90babeb6927e197f21d1eb6e519a530d86f8cdnat;
    let e18 = 2 * e17;
    lemma_power_mod_square(10nat, e17, n, x17, 0x7e81526d77a875d8451321e2657cf4e5ffd02936f1d87c11bf676cc81cnat, x18);
    let x19 = 0xb94bbec4d18d0f8fbc7a31fd3c4677f3adbec3f95871bb3e13aa84ed478nat;
    let e19 = 2 * e18;
    lemma_power_mod_square(10nat, e18, n, x18, 0x2bbe69f20c9f3fd901aac32d97e4fd540675def92fd0b04515a3ffec043nat, x19);
    let x20 = 0x15356763913b4656ece349f620999c8ab0f816fbf7a2009ea781160dadaenat;
    let e20 = 2 * e19 + 1;
    lemma_power_mod_square_times(10nat, e19, n, x19, 0x2d20f084a39a9fe8b39d5868aa0049063f9bed805e186cdc29f4f50f95d6nat, x20);
    let x21 = 0x1bbb4461fb38c1af48f2ff13a29882a3e6be7b7c59d711b4a72fa2d45861nat;
    let e21 = 2 * e20;
    lemma_power_mod_square(10nat, e20, n, x20, 0xf229604691f0308530255e1d45f2101eea0e195b470e509845d15552839nat, x21);
    let x22 = 0x192e8071209cd7740eb3db52b7b8b7e0cbc27f8bd3a4647026ffdf8e5485nat;
    let e22 = 2 * e21 + 1;
    lemma_power_mod_square_times(10nat, e21, n, x21, 0x102c43a70b3d1cd11e7b3727e81b25a4f67331607721c88e7f895552311ffnat, x22);
    let x23 = 0x5be6d6a73b83a28e34a494260fb53534e1a9ecc9b13aaf8fef6fcf16944nat;
    let e23 = 2 * e22;
    lemma_power_mod_square(10nat, e22, n, x22, 0x155638699b890b292a3552cdee6c24b47e592a30e1b73c63b1f334a0336fnat, x23);
    let x24 = 0x1bbc9f537a41e09490a4cbc6f2dbeb80c65cb6789ae91b83c72a98a33cfnat;
    let e24 = 2 * e23 + 1;
    lemma_power_mod_square_times(10nat, e23, n, x23, 0xb19e562f9e55f8749e34ba1dd60d12aa8e5956bb39d9d0c4f0bdcd1e9a3nat, x24);
    let x25 = 0x176469a60882e293f8223dac3c612037cae98bb5e24e95f92514e2f57e21nat;
    let e25 = 2 * e24 + 1;
    lemma_power_mod_square_times(10nat, e24, n, x24, 0x102dd85cf381a06faeef02b855ca6200670b305c05aa3cd222e9db1aeabnat, x25);
    let x26 = 0x17837b20611321d64ed672fa0b5328992e401999b852e9085ca9c4a986fanat;
    let e26 = 2 * e25 + 1;
    lemma_power_mod_square_times(10nat, e25, n, x25, 0xb81f1a31d60a2f3b04adebcb3c47bb5624ff2859f3251786d1eb15e29db0nat, x26);
    let x27 = 0x16ea06299ca563f667ddcb8dafe15e6bc8e783fcf4e39af51fbeb9f92e60nat;
    let e27 = 2 * e26 + 1;
    lemma_power_mod_square_times(10nat, e26, n, x26, 0xba097370fd0618bf6c3bf72fc98c1e1d680169a703b9e7dfa35f831d3298nat, x27);
    let x28 = 0x103cec31d462514b7ccae7a8ca029be73513a84c0902043ee1f800ca1efcnat;
    let e28 = 2 * e27;
    lemma_power_mod_square(10nat, e27, n, x27, 0x11aad049d6994e616e07ead159a4bef6585de067425e944adacc2f79bfccnat, x28);
    let x29 = 0x686cf5c4f7e7f46de554908d8ac4d9d439ff95342d52f2e00f469348e82nat;
    let e29 = 2 * e28 + 1;
    lemma_power_mod_square_times(10nat, e28, n, x28, 0x58b87f6177b78abcfd1dc5736dc0524aed122cec9132003dbd9c18b40bfanat, x29);
    let x30 = 0xaebdf4bc1d67b73d6a87f8248da24de7135cee249b65af90c5b54c7ae7nat;
    let e30 = 2 * e29 + 1;
    lemma_power_mod_square_times(10nat, e29, n, x29, 0xe553b5434f056883f9d6f6bbd4a130b986293dca72cb8d0395a3bb167f3nat, x30);
    let x31 = 0x2f3dfb087c2cf132aa734866325853d1f565f1cf11e59d9b13661a9781enat;
    let e31 = 2 * e30 + 1;
    lemma_power_mod_square_times(10nat, e30, n, x30, 0x2822617b1dcbb1e39fbae42285d7583acb0722fd4fab10c13224c9bb24nat, x31);
    let x32 = 0xeab31d7dfc910c76125fd40dc472aa525850e45a75d3b752188bbdcebf7nat;
    let e32 = 2 * e31;
    lemma_power_mod_square(10nat, e31, n, x31, 0x4b18b2e7a5934cf1d10845ac32c14d314fa6fdf14e0edf00342eb4a117nat, x32);
}

proof fn lemma_power_205115282021455665897114700593932402728804164701536103180137503955397371_over_3_part_1()
    requires
        power_mod(10nat, 0x13d0195eenat, 0x1db8260e5e3b460a46a0088fccf6a3a5936d75d89a776d4c0da4f338aafbnat) == 0xeab31d7dfc910c76125fd40dc472aa525850e45a75d3b752188bbdcebf7nat,
    ensures
        power_mod(10nat, 0x13d0195ee97cd95c2nat, 0x1db8260e5e3b460a46a0088fccf6a3a5936d75d89a776d4c0da4f338aafbnat) == 0x18bec586fcb2661e8592f44613887f21e3950aa8b7106c0acded0007aceenat,
{
    let n = 0x1db8260e5e3b460a46a0088fccf6a3a5936d75d89a776d4c0da4f338aafbnat;
    let e0 = 0x13d0195eenat;
    let x0 = 0xeab31d7dfc910c76125fd40dc472aa525850e45a75d3b752188bbdcebf7nat;
    let x1 = 0xc68fdaa18e19bf4cde69daff711dfb2090644254c740f61b88f19f908e0nat;
    let e1 = 2 * e0 + 1;
    lemma_power_mod_square_times(10nat, e0, n, x0, 0x4866b7383407331a31d03c1f5465f14f6a426bcb732bf747413f806d2cbenat, x1);
    let x2 = 0x19b3f2e0ce55987fd20a5c0da670cafdce58b56b2b944920536d675cc09cnat;
    let e2 = 2 * e1;
    lemma_power_mod_square(10nat, e1, n, x1, 0x52ea3ba9635a5cbe7a2d4769d989749e0595a10123c2c52a242cc6fececnat, x2);
    let x3 = 0xf41c2f93bed4dd09fe1bef4f1f5ff13ff204b04c66213d8724b4cde389cnat;
    let e3 = 2 * e2;
    lemma_power_mod_square(10nat, e2, n, x2, 0x163ab4572e9f46a1a677ee78f0a9703442600747d456d454f02acc21e91cnat, x3);
    let x4 = 0xcd00947c61ca7e69a456877357f63b469876744a5137a4641ac8b8886e9nat;
    let e4 = 2 * e3 + 1;
    lemma_power_mod_square_times(10nat, e3, n, x3, 0x4e52d5ea2f85ec95e3e96689a154bd4026eb98f1272a732bcde8cbf8b175nat, x4);
    let x5 = 0x7ae3672c6af90590eb1fb5e6a78a49f59bf21829f8c5d92d46b8318a0f0nat;
    let e5 = 2 * e4;
    lemma_power_mod_square(10nat, e4, n, x4, 0x586181435a2166152bbe59ba6ebc49641505402730245a691141aff0393nat, x5);
    let x6 = 0x1e160112c7902d50ef986898dcab7e104c6f243f6166a82c03aec31cae7nat;
    let e6 = 2 * e5 + 1;
    lemma_power_mod_square_times(10nat, e5, n, x5, 0x13d962411b94a972cf8422d93f27c47ecb205a498673f087e2d866cf21fbnat, x6);
    let x7 = 0x10238ac953288fcc1634fc0bee4a0b221d52a2569e9750f95be7956b02f2nat;
    let e7 = 2 * e6 + 1;
    lemma_power_mod_square_times(10nat, e6, n, x6, 0x130922cec645d35658f8878276a628ba9c24b2ae11ed4b689c817aa12e8nat, x7);
    let x8 = 0x1bbf41f554e224971ef841f8e59015bb338d8e3f40f0e8ea7c7db83195e9nat;
    let e8 = 2 * e7 + 1;
    lemma_power_mod_square_times(10nat, e7, n, x7, 0x57a3ff5ad7a6645b1c2454eba49265300126f9f19fb85409974ba8fc810dnat, x8);
    let x9 = 0x14d80abec79d99b29a3000b0cfbabc163e0833d96889769df38246d9097cnat;
    let e9 = 2 * e8 + 1;
    lemma_power_mod_square_times(10nat, e8, n, x8, 0x1030eb8b86717bb87340e3c1633a0fa51fd41249bb28c273183e3b2a2822anat, x9);
    let x10 = 0x1651d2bc7840c90117083a68491abf74607f8bce2959f8bcb01808fd6183nat;
    let e10 = 2 * e9 + 1;
    lemma_power_mod_square_times(10nat, e9, n, x9, 0x9230ccb80606a9830ae960ae8eb04c5a034cde6f344ef809e1c5b1175ac7nat, x10);
    let x11 = 0x447a058039f1dbbfd608053f2d6b0694453e2e8e4ddaff1f85c7558f8bfnat;
    let e11 = 2 * e10;
    lemma_power_mod_square(10nat, e10, n, x10, 0x10c328b2e5093238b62dc75d58a1898db8dc6cae452286c8c3dfc01fdebenat, x11);
    let x12 = 0x12c68ef6fcd34426561954781f802d70a12a586faf1a26f6c73b766c9d8cnat;
    let e12 = 2 * e11;
    lemma_power_mod_square(10nat, e11, n, x11, 0x9dc71efd288c771ca8e136a3168d78dce2291fe4e01b0a736e9dff40cfnat, x12);
    let x13 = 0x19985553166391baddeba057c1a36bf3f7093821040689c9480b83eebe63nat;
    let e13 = 2 * e12 + 1;
    lemma_power_mod_square_times(10nat, e12, n, x12, 0x769e21a461b3602f52732669ac7e57f3799a9dee1c68b178cd9b8676b927nat, x13);
    let x14 = 0x1b1a96654824f383a0660b7b25e8941a3df999241c6ce78d6c85b54e1632nat;
    let e14 = 2 * e13 + 1;
    lemma_power_mod_square_times(10nat, e13, n, x13, 0xdc6e612c524b597554a23018f228fc1e91dae10e5130d60ca6d4c4887178nat, x14);
    let x15 = 0x145d9be3fc1d80d1b968446abba84357ac605fc6321f644765611fff357dnat;
    let e15 = 2 * e14;
    lemma_power_mod_square(10nat, e14, n, x14, 0x18b7f39a461e154e0e210fde71ccc38367159c1c14ab390713fcc1604225nat, x15);
    let x16 = 0x12f121872c0ce3f39374aacae45902420866a2656fa94042ddfcff44112bnat;
    let e16 = 2 * e15 + 1;
    lemma_power_mod_square_times(10nat, e15, n, x15, 0x8b8f1cc95c798598a7a0c33d2fb3d9a352f9a31da81316c211c70ea0d85dnat, x16);
    let x17 = 0x7dc1d0a92c15337ed8bc47284166533d06ea314e831099f60b376d23ff7nat;
    let e17 = 2 * e16 + 1;
    lemma_power_mod_square_times(10nat, e16, n, x16, 0x78ba6e0021dcc6370ecfe3cf742a4c4b53740f5be77ee1b4fb67cb4aa959nat, x17);
    let x18 = 0x1b867c5b0390229aa8ba5715420e38943eda2e181fd8428218b2e4d5aad9nat;
    let e18 = 2 * e17;
    lemma_power_mod_square(10nat, e17, n, x17, 0x21423d972e14906d9af2f64f71888ba4b81b318e12909024ad173ff06e8nat, x18);
    let x19 = 0x2af8170b2acadd15376ed29dd602c99eb5052d4c61a3625f0fcfe614e07nat;
    let e19 = 2 * e18;
    lemma_power_mod_square(10nat, e18, n, x18, 0x197e49785eb261e82a8564a64c626f684efdedfd4501818fa0209cc0959enat, x19);
    let x20 = 0x5c479c091031e0910c19fa70f0c53a65a57e8b9555205ee49887ff3115cnat;
    let e20 = 2 * e19 + 1;
    lemma_power_mod_square_times(10nat, e19, n, x19, 0x26d429b9b537b443b548b12081d1c581b8be64b09bf2a7065a1c346c44anat, x20);
    let x21 = 0x16163db1819441076fad82d3ff8f41f63380d054af5893e29bed6d546c2nat;
    let e21 = 2 * e20;
    lemma_power_mod_square(10nat, e20, n, x20, 0x11e884380f859ba969ce93209bea7a1de74872c9947e982f311f2c7058anat, x21);
    let x22 = 0x1c1b80e0c182b271c0259474a97720affa23b1588e2eed7609e17dd2c518nat;
    let e22 = 2 * e21 + 1;
    lemma_power_mod_square_times(10nat, e21, n, x21, 0xa42550a7928cae52b3b1b2961c1ab6ecdd811e71b302f1f727bed06e30nat, x22);
    let x23 = 0x1d9dbea809b80408614d31bd86ef64e92a7b47182b641b1dbe8d589ef2acnat;
    let e23 = 2 * e22;
    lemma_power_mod_square(10nat, e22, n, x22, 0x1a953d2c10f6526eb887308739fa59d5cb2f8bc0e8de45a7a7c2cccd2a7cnat, x23);
    let x24 = 0x149f88ef1ca20bedd2bc39846f630e989ed1984f1ddc5d2d9cbaa2631f79nat;
    let e24 = 2 * e23 + 1;
    lemma_power_mod_square_times(10nat, e23, n, x23, 0x1272253266ec1b50970461955d64031e7aef9c1e5747d21a269cdb5a643c5nat, x24);
    let x25 = 0x2b01e70a5ebfd3119a3db0ec3c002211a200e24691a0031e16ca619c338nat;
    let e25 = 2 * e24 + 1;
    lemma_power_mod_square_times(10nat, e24, n, x24, 0x8f1c5ca4639253fbeed235f212049ae3de6b420ebd2df19e5857e1f00f76nat, x25);
    let x26 = 0x12c08fd89cf6badcb2c4c302eaa6a403b06733d602f739087cbdc8915e8cnat;
    let e26 = 2 * e25 + 1;
    lemma_power_mod_square_times(10nat, e25, n, x25, 0x26e5e7a6aba67057d563223161cb5b7e5d6dfa856d0d9699093b1f4319cnat, x26);
    let x27 = 0x125f1970e116db010240f58272eb9641a7b5aea3374b3d39a7283f6cfa4bnat;
    let e27 = 2 * e26;
    lemma_power_mod_square(10nat, e26, n, x26, 0xbd50a81d3597be15256a7f39353527488aaa522da4efb6d41240ef6e3bfnat, x27);
    let x28 = 0x1b6d21e8b64562997e865e5d02b75019312258ff6d8e12c7146673b88efenat;
    let e28 = 2 * e27;
    lemma_power_mod_square(10nat, e27, n, x27, 0xb5b4be5bcdfd3e36007e13add1af33596a8b8458cc571ceeb726f288801nat, x28);
    let x29 = 0x853b5cd3924dbe9b55c16e2f76861012e96d4fb8d4bf7e6e04f5ee234e5nat;
    let e29 = 2 * e28;
    lemma_power_mod_square(10nat, e28, n, x28, 0x194f6881693e8ea0cb950341123e2b61fa5ef9ba590515aafae7917bb32dnat, x29);
    let x30 = 0x1aa50b184a18e8c499f4c876431ac04e2c41936545958d1818a1289f7359nat;
    let e30 = 2 * e29;
    lemma_power_mod_square(10nat, e29, n, x29, 0x2554773671c39b3919cb72ee25a7b2d3d41bc32f83b2a4cd7a462916c80nat, x30);
    let x31 = 0x153749c39262541cb84a0cf00712193f89dfb364873ca115bc1519ef65b0nat;
    let e31 = 2 * e30 + 1;
    lemma_power_mod_square_times(10nat, e30, n, x30, 0xeee1af399c8c441970e940885660d678896fa074a273495e86e4b8fd960enat, x31);
    let x32 = 0x18bec586fcb2661e8592f44613887f21e3950aa8b7106c0acded0007aceenat;
    let e32 = 2 * e31;
    lemma_power_mod_square(10nat, e31, n, x31, 0xf25469c81f2743e7ab1e2df625bd89682eb1433ae6a702f8adb8c80e796nat, x32);
}

proof fn lemma_power_205115282021455665897114700593932402728804164701536103180137503955397371_over_3_part_2()
    requires
        power_mod(10nat, 0x13d0195ee97cd95c2nat, 0x1db8260e5e3b460a46a0088fccf6a3a5936d75d89a776d4c0da4f338aafbnat) == 0x18bec586fcb2661e8592f44613887f21e3950aa8b7106c0acded0007aceenat,
    ensures
        power_mod(10nat, 0x13d0195ee97cd95c2f155b0a8nat, 0x1db8260e5e3b460a46a0088fccf6a3a5936d75d89a776d4c0da4f338aafbnat) == 0xba80a3765fb1e0084907589ae8215dcc15919d1f56804464a5310043a74nat,
{
    let n = 0x1db8260e5e3b460a46a0088fccf6a3a5936d75d89a776d4c0da4f338aafbnat;
    let e0 = 0x13d0195ee97cd95c2nat;
    let x0 = 0x18bec586fcb2661e8592f44613887f21e3950aa8b7106c0acded0007aceenat;
    let x1 = 0xc3db20b4d9931e6e3711e995c15cb3a1ecd6a809f16f5c55e873b3d75f1nat;
    let e1 = 2 * e0 + 1;
    lemma_power_mod_square_times(10nat, e0, n, x0, 0xce0932d0bf8f76602cd3d8ff9351a3d1fcd89618bd217273491b20b95e75nat, x1);
    let x2 = 0x1322009bb26077cd4a5537d79325b2a4be16fe3d560737722f9881de007bnat;
    let e2 = 2 * e1 + 1;
    lemma_power_mod_square_times(10nat, e1, n, x1, 0x326b46a2749ce174eaf48ae8a001335698137db183df676214a8d6217fbdnat, x2);
    let x3 = 0x16dd58f13319c4737db973247c07f74fffda5a634faafbdcf1c7ad11de0enat;
    let e3 = 2 * e2 + 1;
    lemma_power_mod_square_times(10nat, e2, n, x2, 0x7b2c8af153ef164688a75e11352fa15e5bff44ee8046508376df2c263f04nat, x3);
    let x4 = 0xd2db0109343f7a5612129d71b9bc1d9ee0be57d7895fe4a50392b3e9dddnat;
    let e4 = 2 * e3 + 1;
    lemma_power_mod_square_times(10nat, e3, n, x3, 0xafe8de73826d806950dd4c9841a608f1bccd911da1bac02ca9a004467371nat, x4);
    let x5 = 0xab83f258cd8def13ecdbcea8c6eb77f788b885b77aa7982f83bf20b9689nat;
    let e5 = 2 * e4;
    lemma_power_mod_square(10nat, e4, n, x4, 0x5d7ff4835fa1881ebdde37def92cb327695c2ac64978c4ee992d89a9ac0nat, x5);
    let x6 = 0x152147bb72feba03eceaaf52ebd71f2fa615718867feed087eb49b64fd84nat;
    let e6 = 2 * e5;
    lemma_power_mod_square(10nat, e5, n, x5, 0x3ddd861f29d34f51e1f87d738e4f40364aa8bf6318cc435863e68c68dd7nat, x6);
    let x7 = 0x16b63553b11a205ca659a25ad15d8a17a46b3bb20c922cb95cc4159655c0nat;
    let e7 = 2 * e6;
    lemma_power_mod_square(10nat, e6, n, x6, 0xf05eae38d6a3b4feccb99f8b170af359c7a03db1446bf86772887c0b1f0nat, x7);
    let x8 = 0xfca5df4aab9f9469f177085741733d82a50977d515dbfa8e72dab4f8134nat;
    let e8 = 2 * e7 + 1;
    lemma_power_mod_square_times(10nat, e7, n, x7, 0xad90a59899b258bcafec1a480731a3f2e85aad478b17c7528215fc44e2a4nat, x8);
    let x9 = 0xa8418d5a0d6e7edbe87e80a5ca77e0b7a78675b5972bdd1d966b8d99891nat;
    let e9 = 2 * e8;
    lemma_power_mod_square(10nat, e8, n, x8, 0x863cb18e5ab95786f76c8192c4f86db42cf026443dae3e13a1115f59dcdnat, x9);
    let x10 = 0x1d9b39d936e53d6e6c4190a63dadcd48c3a4116c746fddc2af1d94a8811fnat;
    let e10 = 2 * e9 + 1;
    lemma_power_mod_square_times(10nat, e9, n, x9, 0x2535d23463ae8b76161a5e43bf64a3ddd096a9beae3c94eb9aac70c27491nat, x10);
    let x11 = 0x1cfb4794dff0018de8b76d6e5d35eafb65584aec2aa658d4c1c7891712b4nat;
    let e11 = 2 * e10;
    lemma_power_mod_square(10nat, e10, n, x10, 0x1d7e69c9cb4d41fa688ff4304311aa31c08e69641bf9310052d7c044ef97nat, x11);
    let x12 = 0x12e5a68843f92d61da01480c17f7cf219c99b3ac7d6ab2dd16091a27eb04nat;
    let e12 = 2 * e11 + 1;
    lemma_power_mod_square_times(10nat, e11, n, x11, 0x11a9efdde50d995b7e2057f6d3a27897027611527ae23ff9d14ad23647114nat, x12);
    let x13 = 0x77daa0285f5c7fbfd366c610a30ffc402998fa1d53b3557815ce74bbf4cnat;
    let e13 = 2 * e12;
    lemma_power_mod_square(10nat, e12, n, x12, 0xc0406a3218aa4b5b551edfddc1124865da01f7f60b6559c3b279ef9af0cnat, x13);
    let x14 = 0x6a88defffb56d7e430b5f84542273b6100fc327321e92c4a8a0ae4d7166nat;
    let e14 = 2 * e13 + 1;
    lemma_power_mod_square_times(10nat, e13, n, x13, 0x12e18c6eef001775039559c85ac0d5ac42d611fe240fcfd3c01956d5ab8enat, x14);
    let x15 = 0x13bdd0771bb07b2284c3fe26a42ace07c8978c277b73ff4e7f017d5e5238nat;
    let e15 = 2 * e14;
    lemma_power_mod_square(10nat, e14, n, x14, 0x17de4d91c80a6e8c364ba00f719b4073f8863887511f48c65acf574db84nat, x15);
    let x16 = 0x5c864e63154babebd7c632cd87b8f67727b96479cb4a2eacd0607ac3589nat;
    let e16 = 2 * e15 + 1;
    lemma_power_mod_square_times(10nat, e15, n, x15, 0x8322a2e54015445cc1d4d45abe8f96f24f9c56b4a3a1cc0f3c95d154ad35nat, x16);
    let x17 = 0x1bcaf264368823310561925c00d366d79005578c80bafed377bc0317ff3dnat;
    let e17 = 2 * e16 + 1;
    lemma_power_mod_square_times(10nat, e16, n, x16, 0xb408d51887ca75211b6b80b7d01d1e51724d51b257a206e220a3ea15237nat, x17);
    let x18 = 0x18d0474b74013115dc4940711ea515c96754614831be23719a46d259bb6nat;
    let e18 = 2 * e17;
    lemma_power_mod_square(10nat, e17, n, x17, 0x19fdb791a5ce6710f2d985e8a3cb613d2f566a87bde79f2a67d7e8350209nat, x18);
    let x19 = 0x158e5321ef867ea5668364d44433575e9286cf2f99d3f8fb7fea09b5af6enat;
    let e19 = 2 * e18 + 1;
    lemma_power_mod_square_times(10nat, e18, n, x18, 0xcf2d2302a20c4086a3ea5aaadc07f9b955340bec3d80adcd4824c42a4enat, x19);
    let x20 = 0x13d1d4b3e2738e006ae145fe83ea7fbfe2fb83e735e0c6ebb98a6064a717nat;
    let e20 = 2 * e19 + 1;
    lemma_power_mod_square_times(10nat, e19, n, x19, 0x9c59628e24d5095ecc3cd4e38ea61a3e015fdc505e8ab8ab71a88575e7e3nat, x20);
    let x21 = 0x19529606523bd812fadae624b350b5ece6f1a24a091d4fc1c7477e4a336nat;
    let e21 = 2 * e20;
    lemma_power_mod_square(10nat, e20, n, x20, 0xd37b575124147855c888b59d3010f984aceb50b3e1384d3ce698f953ba1nat, x21);
    let x22 = 0x1b230eef3c8875150d3901af2381cdce4e74c8bf0c42af380d3cf7bb8cfcnat;
    let e22 = 2 * e21;
    lemma_power_mod_square(10nat, e21, n, x21, 0x15938a848ed9dedd577202e7710df055f2455bfb1f4b818c2f9917bab8nat, x22);
    let x23 = 0x10d99f0e22e7e42342a26e7c8e77a666be59244cc341e7f0f9054d3f4cb9nat;
    let e23 = 2 * e22;
    lemma_power_mod_square(10nat, e22, n, x22, 0x18c7696827e9f6f70bbd8437d89dbf3b10a134d937bbe4e149dbe06eb255nat, x23);
    let x24 = 0x18d025ae19801a5f599c69139341416126ddb3c5c8dd670554c7e1a41450nat;
    let e24 = 2 * e23;
    lemma_power_mod_square(10nat, e23, n, x23, 0x98db5e123e8369346843eadd66c307cd1032392539bc1bfd27f83e36e53nat, x24);
    let x25 = 0x15ce461489018e6c0fdb1c095f62450f0a55e9869b9b3404577ec55c4a8enat;
    let e25 = 2 * e24 + 1;
    lemma_power_mod_square_times(10nat, e24, n, x24, 0xcf2af1b29ad15ae6e29f794c5bc2e0ffac6fac851a3e653039e883be93b6nat, x25);
    let x26 = 0x15abf16e9d43b3dac5688236e2dc6d40d6543b0e5c05e3f20815a0812c42nat;
    let e26 = 2 * e25;
    lemma_power_mod_square(10nat, e25, n, x25, 0xfffd7bbfd432138e360f705c874a5484d9636492677bf3c01121dd047e6nat, x26);
    let x27 = 0x9d74e88a29a015f3055d6ea869573eb216f7f3d98036b8419666b0f48d6nat;
    let e27 = 2 * e26 + 1;
    lemma_power_mod_square_times(10nat, e26, n, x26, 0x9e08314028f11de25a684e716601b39acdbf1cb0c5c002286e83940fa356nat, x27);
    let x28 = 0xe44882dcea2e6e9bcdca1804fec56679cbb16c00b1c8859ddee1143140enat;
    let e28 = 2 * e27;
    lemma_power_mod_square(10nat, e27, n, x27, 0x342398f43e7524cc94013810cfc6c101c0012f27ad29cd2edcb725fa4a2nat, x28);
    let x29 = 0x1b6643846a84672aaeb2431ec63453451e5dcb73993401dd4729aa2ec290nat;
    let e29 = 2 * e28 + 1;
    lemma_power_mod_square_times(10nat, e28, n, x28, 0x447f21f95b2c34eba46c5c95d6b5d782477ad6efa8489faf0c503537e3c8nat, x29);
    let x30 = 0x9181d9e86fc06851fce2cd859cd2c064f9dc03e52385be9cb6064278c72nat;
    let e30 = 2 * e29;
    lemma_power_mod_square(10nat, e29, n, x29, 0x1942bca6b9789b8aea0102349daf07a5b4444bb465a5dd0c8d37f6cd484anat, x30);
    let x31 = 0x131793a51b3067694d774ea948aec9bf7c477250997cede02521be8f0b38nat;
    let e31 = 2 * e30;
    lemma_power_mod_square(10nat, e30, n, x30, 0x2c86902ee0762773c5859da700902d0a381560f0d65264a1a04898fb0e4nat, x31);
    let x32 = 0xba80a3765fb1e0084907589ae8215dcc15919d1f56804464a5310043a74nat;
    let e32 = 2 * e31;
    lemma_power_mod_square(10nat, e31, n, x31, 0xc43d84806b0bccd01bc1e7c83838ef33e9db92fc7990a277055dfc8fba4nat, x32);
}

proof fn lemma_power_205115282021455665897114700593932402728804164701536103180137503955397371_over_3_part_3()
    requires
        power_mod(10nat, 0x13d0195ee97cd95c2f155b0a8nat, 0x1db8260e5e3b460a46a0088fccf6a3a5936d75d89a776d4c0da4f338aafbnat) == 0xba80a3765fb1e0084907589ae8215dcc15919d1f56804464a5310043a74nat,
    ensures
        power_mod(10nat, 0x13d0195ee97cd95c2f155b0a88a46d190nat, 0x1db8260e5e3b460a46a0088fccf6a3a5936d75d89a776d4c0da4f338aafbnat) == 0x1300d671e0b2c54970941402494733de2b35fe67032690e4c0d2095c7772nat,
{
    let n = 0x1db8260e5e3b460a46a0088fccf6a3a5936d75d89a776d4c0da4f338aafbnat;
    let e0 = 0x13d0195ee97cd95c2f155b0a8nat;
    let x0 = 0xba80a3765fb1e0084907589ae8215dcc15919d1f56804464a5310043a74nat;
    let x1 = 0x18f3e48e8bb622235c79b4a182a30935385964476392e98e383f1e8252a3nat;
    let e1 = 2 * e0 + 1;
    lemma_power_mod_square_times(10nat, e0, n, x0, 0x2db7e411076f3a98164c91b0e77c76098e4125ff4428592df9a326d4b067nat, x1);
    let x2 = 0xbde13349e6ee493d1bce7b39c1c2e03faec3ab9607467b4c508024fc1a9nat;
    let e2 = 2 * e1;
    lemma_power_mod_square(10nat, e1, n, x1, 0x14f359f28e9e9745d4d6d1a76a0feb594d186601ea027579daec4be89c60nat, x2);
    let x3 = 0xfabe3d4218aaebe8d7fab13f35dfe4b34bc15118155ad3ed73fb37fccc9nat;
    let e3 = 2 * e2;
    lemma_power_mod_square(10nat, e2, n, x2, 0x4bd28e65d6a42b5c922050e19eef26757b2d2bfc20a71ae3b9e21f3c3d8nat, x3);
    let x4 = 0x46a065fc74c42b0b77a505668e29cff00cfad707dce24a18cf5a01735banat;
    let e4 = 2 * e3;
    lemma_power_mod_square(10nat, e3, n, x3, 0x843877ce0eb1c933cb1966615cbc66e3bdcf518315842c1de5b5c8ff495nat, x4);
    let x5 = 0x120c8e32424c89a6ae5a84ee3855f9f5712e56d11addcb11967a52ffd697nat;
    let e5 = 2 * e4 + 1;
    lemma_power_mod_square_times(10nat, e4, n, x4, 0x68e67f2ca211ce096d74b653f5a5ed824430adbc2c185887e718d8141a3nat, x5);
    let x6 = 0x284770c027a71abdf1186e8db022d38b43a8bf3c6d58035bec89d64956enat;
    let e6 = 2 * e5;
    lemma_power_mod_square(10nat, e5, n, x5, 0xaf623ec04dfcfc8628cf8fb7ee2a0793538ded79b6d6d8d502bf7438579nat, x6);
    let x7 = 0x1a73ce69cee511fb47be7f9bf4257c51c8a868e6c637745d9b5ed7177203nat;
    let e7 = 2 * e6 + 1;
    lemma_power_mod_square_times(10nat, e6, n, x6, 0x221e8882a7b35684f4c3664ff2d558f5531b97caec4da4fbf543f546adfnat, x7);
    let x8 = 0x1428c9d1ed0c6b956fcf30be020db1a9a5987b996ff7db65956bcebfd845nat;
    let e8 = 2 * e7;
    lemma_power_mod_square(10nat, e7, n, x7, 0x178b6694ba4c49558eb0e88759f14fef0d6e662afefded8a05d2d061700cnat, x8);
    let x9 = 0xfddec7694f8ddd1135aace98e88f424eca5e4f4cfe189f3a7083fecc86bnat;
    let e9 = 2 * e8;
    lemma_power_mod_square(10nat, e8, n, x8, 0xdacaf83e07db26643f0f2b298c97a2683a5fad064d19d145ba7af35772anat, x9);
    let x10 = 0x4e4d3f3217e71ec3507eb55ce49772a569fc406e2624246d54f2984a6d8nat;
    let e10 = 2 * e9 + 1;
    lemma_power_mod_square_times(10nat, e9, n, x9, 0x54b640e32cd5b1116005188db4498343a049e0d3b9a330b4e55b42791b86nat, x10);
    let x11 = 0x973dba32f4162e114c07ae937b2bd142a3f67a033e382df52badd2b890nat;
    let e11 = 2 * e10;
    lemma_power_mod_square(10nat, e10, n, x10, 0xce4d5d173a6bc67ea462aa4079615327d215da7d71875c4a5471a2ea10nat, x11);
    let x12 = 0x1065d0c7e0fd0c7771f4f3f884c0b68c3f0d7ea4116973e56442330fb9ffnat;
    let e12 = 2 * e11;
    lemma_power_mod_square(10nat, e11, n, x11, 0x301a9cbc6b0a2a100b61753e7034de65506cbecfdcb8693d9eb99e533nat, x12);
    let x13 = 0x1da3814257b18ae90b8eb301e87d6ea6c2d13664edad6335f815f47a8f0cnat;
    let e13 = 2 * e12;
    lemma_power_mod_square(10nat, e12, n, x12, 0x90c27cf262089f31d2ee3f3e9a81efa767d0362d9df50b06d5c4c5a74cfnat, x13);
    let x14 = 0x818bdc84ea41be0f7875366719dce5dc2872e9c47d85a0069e3d041aa01nat;
    let e14 = 2 * e13 + 1;
    lemma_power_mod_square_times(10nat, e13, n, x13, 0x127952c04994d52613174785dc14563d5629d9fd98ca856c0fe5930f2a0adnat, x14);
    let x15 = 0x184cd34592bdc8c5ac2136cbf805b481d95477c3b35f5143e99db8b510e7nat;
    let e15 = 2 * e14 + 1;
    lemma_power_mod_square_times(10nat, e14, n, x14, 0x160eea2a2082978f8b652d81ef6bc0e2b5cdc873e9ee9cbaad65570d6bf9nat, x15);
    let x16 = 0x7101fe7baf011a74bf8923d36e55c599fc36b1f17a669735082b3205b37nat;
    let e16 = 2 * e15;
    lemma_power_mod_square(10nat, e15, n, x15, 0x13de79e91b045ef5db29c74f15b6931426f16a9ad344bf40339655d51a8enat, x16);
    let x17 = 0x1d59318a91abbaa2eda113a92d0317347ba2d08a777855ee40928bfdeb8fnat;
    let e17 = 2 * e16 + 1;
    lemma_power_mod_square_times(10nat, e16, n, x16, 0x10c91f5c0ea55d4e0bd2107e1e01b737e1e1973272f156740443719d58e1nat, x17);
    let x18 = 0x10def41d286bd31719db4463c925116e3e5c9df66ab15970b35d63b69f95nat;
    let e18 = 2 * e17 + 1;
    lemma_power_mod_square_times(10nat, e17, n, x17, 0x121d23c2414ced452429bbd10d844e7cf4910687e5bfe5e124e240ef7538fnat, x18);
    let x19 = 0xf033ca8871785f52f6452699b509faa7bfdff368874b7cd76938772255dnat;
    let e19 = 2 * e18;
    lemma_power_mod_square(10nat, e18, n, x18, 0x993c2bdc6862624eb6ca8f266d4da0b0f5ad597938f82bd31ac02bcf754nat, x19);
    let x20 = 0x8b61aee11ba7c93eeb06e9fcba0a4e5ee33a4e286e8b73a7420b5235696nat;
    let e20 = 2 * e19 + 1;
    lemma_power_mod_square_times(10nat, e19, n, x19, 0x4bd60381ffa90b17d7d7fef7b5602d4377344b38663db1cd7dcd704c8a8cnat, x20);
    let x21 = 0x1cefc280e381e885241012b2760d3d58ddd05d2784672df82b2e6313c283nat;
    let e21 = 2 * e20;
    lemma_power_mod_square(10nat, e20, n, x20, 0x28db096cc6e45b65ecda8d52d771587f220135ea9ff1e3559ff25ca6a53nat, x21);
    let x22 = 0x1b921626c79952e63b3abdf87063dd8ad2fb3b40c3cd11fd3b8571265812nat;
    let e22 = 2 * e21;
    lemma_power_mod_square(10nat, e21, n, x21, 0x1c2ca61d8048aa003bd28fb5a63813bf797b9e8fb2f2a0716b0ec8f46335nat, x22);
    let x23 = 0xa35f091b41af2328d68fbb5ca52b668119337973592d423bdd126fef7b7nat;
    let e23 = 2 * e22;
    lemma_power_mod_square(10nat, e22, n, x22, 0x1993cb1b57de5488ad2a434afd864b9b4a35f7992ff9867e06673edc9717nat, x23);
    let x24 = 0x74b7acf97235be4674aa882bc7a04f23edc7e81175de23e7bab7a8d1d1nat;
    let e24 = 2 * e23 + 1;
    lemma_power_mod_square_times(10nat, e23, n, x23, 0x2314bd916141447f1811f5cbc14ac64f8a2e732bfb8adbd0374a2330dbbbnat, x24);
    let x25 = 0x2f257dbb99777a35636eaf1b35bf31d931d81f031c3547c2ac2da0dc651nat;
    let e25 = 2 * e24 + 1;
    lemma_power_mod_square_times(10nat, e24, n, x24, 0x11e7e019d46a388b039c61553f39973db6aaa6b5c7c33b1a8c0c55369bnat, x25);
    let x26 = 0x1bc77e191c3576fc5fec4c92a5b36ec135f72dbf5bf85303fb885359e7d6nat;
    let e26 = 2 * e25;
    lemma_power_mod_square(10nat, e25, n, x25, 0x4acaeb9d2a17a088a6443733bc44463a18065cd6b64ceca878192aff71nat, x26);
    let x27 = 0x58e2a17e8c89c116369fb0af0d22da38f0fba411217ddff3e1fea89a874nat;
    let e27 = 2 * e26;
    lemma_power_mod_square(10nat, e26, n, x26, 0x19f742087ca4360be68edf6255446480e46ca5db3f0231a51ee7f6a97050nat, x27);
    let x28 = 0x623329c5284230bb24ca54698d281c9565bccda783e4fe8eb902e173d05nat;
    let e28 = 2 * e27 + 1;
    lemma_power_mod_square_times(10nat, e27, n, x27, 0xa6266e0ab8934af0b625bfb8a9b8e6e3d7d85655249852cde54ab4efee1nat, x28);
    let x29 = 0x1a45d633905745285f9a1cd71ae3b9a27abcd7ab5725be704c4ecbb91686nat;
    let e29 = 2 * e28;
    lemma_power_mod_square(10nat, e28, n, x28, 0x14479dffa1b31fd140ed2ae5a8068a944c898aa66698fe33a6d06b87e49nat, x29);
    let x30 = 0x14dcb03588644f8cd0b357c83ad645356909e7d1ee15ab42d2b5a29b180enat;
    let e30 = 2 * e29;
    lemma_power_mod_square(10nat, e29, n, x29, 0x1739d88e261912ede6e78357eb58d56761be4fe5407652d6414abab4a662nat, x30);
    let x31 = 0x16f106b8482e7e4ab1c707592107830ba8578e2dd21661d3595542e1860nat;
    let e31 = 2 * e30;
    lemma_power_mod_square(10nat, e30, n, x30, 0xea50014882ace9d8ae9f0c353098f728d378ba093a4415a2d8afdbc6becnat, x31);
    let x32 = 0x1300d671e0b2c54970941402494733de2b35fe67032690e4c0d2095c7772nat;
    let e32 = 2 * e31;
    lemma_power_mod_square(10nat, e31, n, x31, 0x11b59e20d425a08edd0ef33e78e06adabf0403f2eb7da2b04eaf08c04anat, x32);
}

proof fn lemma_power_205115282021455665897114700593932402728804164701536103180137503955397371_over_3_part_4()
    requires
        power_mod(10nat, 0x13d0195ee97cd95c2f155b0a88a46d190nat, 0x1db8260e5e3b460a46a0088fccf6a3a5936d75d89a776d4c0da4f338aafbnat) == 0x1300d671e0b2c54970941402494733de2b35fe67032690e4c0d2095c7772nat,
    ensures
        power_mod(10nat, 0x13d0195ee97cd95c2f155b0a88a46d190cf3a3e5bnat, 0x1db8260e5e3b460a46a0088fccf6a3a5936d75d89a776d4c0da4f338aafbnat) == 0xaff95acc4f3b03f983f56ad2bed1354d55fa024b01ccfb24e2834862424nat,
{
    let n = 0x1db8260e5e3b460a46a0088fccf6a3a5936d75d89a776d4c0da4f338aafbnat;
    let e0 = 0x13d0195ee97cd95c2f155b0a88a46d190nat;
    let x0 = 0x1300d671e0b2c54970941402494733de2b35fe67032690e4c0d2095c7772nat;
    let x1 = 0xebd1ed7f2df9fa4ee5fb34d0e4afa29d3c3111bc127629862feef1f26a1nat;
    let e1 = 2 * e0 + 1;
    lemma_power_mod_square_times(10nat, e0, n, x0, 0x7982f874aa1083dbb63fa084d1165a4d09cedae37e7c397982ce741a2865nat, x1);
    let x2 = 0xcc41ab5be7462b8dd1a9e83a3002a7bdf751fe53f7e7afcecf8e27d1306nat;
    let e2 = 2 * e1 + 1;
    lemma_power_mod_square_times(10nat, e1, n, x1, 0x491817b10c9b69342bac689d6a17731e1eedad56d2b72f0e9d548686954cnat, x2);
    let x3 = 0xe1c8c7185e4c3dbfd83e6c3b734ae0b5d25f4893439df6e8e0c9bf0259fnat;
    let e3 = 2 * e2;
    lemma_power_mod_square(10nat, e2, n, x2, 0x57bd3166ffebf6e72fce31daf2769f0c5243e34482e97ac7a55ab17047fnat, x3);
    let x4 = 0x8feec5c14cad815b1644e62a3cb61aa17b2a1411ecc6eb4912c3bbc0447nat;
    let e4 = 2 * e3;
    lemma_power_mod_square(10nat, e3, n, x3, 0x6b35536b3186fc0a051529f310571aa058579bdcb797f18d9393010f44enat, x4);
    let x5 = 0xcb598a88c4487e71e4affad42d238d2a295f0aff9689c1f11c7f355f7cdnat;
    let e5 = 2 * e4 + 1;
    lemma_power_mod_square_times(10nat, e4, n, x4, 0x1b3ac1d1eae50eb5f1208077fdbd471c15c345a62c7ea6f753ccf86ffcc7nat, x5);
    let x6 = 0x1340a0f1e83b2053c4af4465813730d95a242e8613570938e1560601c0a5nat;
    let e6 = 2 * e5 + 1;
    lemma_power_mod_square_times(10nat, e5, n, x5, 0x3659e20c45d90ae59fd4d09297ee0501d14d6bde600e45f4f5a15b798ccfnat, x6);
    let x7 = 0x11370d8dfc27205dca9bd57702af8d407a439c6b02bd746b8cef99104fd3nat;
    let e7 = 2 * e6 + 1;
    lemma_power_mod_square_times(10nat, e6, n, x6, 0x7cb81c2db16d1ca4a9fb9fdb9321c48dd1a531b467d30a0ef3d06abaa645nat, x7);
    let x8 = 0xb71fbdd960d34e61049365b7c1f5a9175f39b5fdf2a689e879049cee616nat;
    let e8 = 2 * e7 + 1;
    lemma_power_mod_square_times(10nat, e7, n, x7, 0x63b80b5ef262243df403191fecb768b20f2bf1efc19c0ce1ca4bf15b6bccnat, x8);
    let x9 = 0x6a447353bd832d5123c52aee50ac9d17f26c1f7141cf774069d99908860nat;
    let e9 = 2 * e8;
    lemma_power_mod_square(10nat, e8, n, x8, 0x4685eacc8bd125d3f74e0161df3472b3471847205593c6898a673ac8d4cnat, x9);
    let x10 = 0x1f20586c8329f0a1baef92febb76aefcbcbf393800920f3a1b2c0727236nat;
    let e10 = 2 * e9;
    lemma_power_mod_square(10nat, e9, n, x9, 0x17bfaee0a2d647458f19c677ea0e463d8a13c1f1314062bbf33c5ac8b3enat, x10);
    let x11 = 0x502775ae884898c02842ca72747c876a0075e1b0514efb47792424c6ea3nat;
    let e11 = 2 * e10 + 1;
    lemma_power_mod_square_times(10nat, e10, n, x10, 0x145fff393638dfe746a3595198137469e84c0da374b2fa46e2a655286bfnat, x11);
    let x12 = 0x1be2d0758ca7f535cd688f0d2e5f0d4192cab7f8c3ebb14e52322319689anat;
    let e12 = 2 * e11 + 1;
    lemma_power_mod_square_times(10nat, e11, n, x11, 0x871c9744c9a1175859edb12e0d3cfb607cd4da575929dcc229917fac3c0nat, x12);
    let x13 = 0x76a8d1b4256a1c292f5decc5db86471b39b10a88bafe940acf8c7ad27c7nat;
    let e13 = 2 * e12 + 1;
    lemma_power_mod_square_times(10nat, e12, n, x12, 0x105a852f63c513997b5a93d6076960ff2224d47dfcc4118570b73d9383213nat, x13);
    let x14 = 0xb888932140fed36c231e5b994c46f50cf6692a2299dc8e1172ae41f36d4nat;
    let e14 = 2 * e13;
    lemma_power_mod_square(10nat, e13, n, x13, 0x1d9c495685bb1a1a55fe1194008eee693eaab6f3ffe3f6a09374e49bb07nat, x14);
    let x15 = 0x22c4f0d0d4c75e66427dba4dad0f6efea5fe75938f7205ad8ae1759369nat;
    let e15 = 2 * e14 + 1;
    lemma_power_mod_square_times(10nat, e14, n, x14, 0x2cc2115f6439030bb1a28b284cc79389f2e8e37d5e151ef9302d49a532f5nat, x15);
    let x16 = 0x14a4cfedb795803b2a33f584a28e84eb36701159382208ed92e5c88e084nat;
    let e16 = 2 * e15;
    lemma_power_mod_square(10nat, e15, n, x15, 0x28ad681415e9caca4c685ead4c4c964b81ddefc5eeea2086491b4c17nat, x16);
    let x17 = 0x1623c5fa783f33eb9e301067dc84347f6c4978b88cf363119be8ce8c9271nat;
    let e17 = 2 * e16;
    lemma_power_mod_square(10nat, e16, n, x16, 0xe56f6cc075478a7238948938955204670790b6a635d3a197391a492adnat, x17);
    let x18 = 0x1b2516d6199ac65a346e50ba0b39ea0852767746e6d9853157a37b6b5451nat;
    let e18 = 2 * e17;
    lemma_power_mod_square(10nat, e17, n, x17, 0x107e45047a07925271904213c4719c73304f072aa7dc06deee646b4e8fb0nat, x18);
    let x19 = 0x534abdfacac5ae346a4dc66240da91ee950cdc556f2a4c74629709176c9nat;
    let e19 = 2 * e18 + 1;
    lemma_power_mod_square_times(10nat, e18, n, x18, 0xf7ef35fb7449e0f46c1a3935ab36a48b2ba40ea74e13f8a6f5b2e888e4b3nat, x19);
    let x20 = 0x238762dc6c5703d06f65cbad013ccb50377aaa010e30ad7a72c399a0565nat;
    let e20 = 2 * e19 + 1;
    lemma_power_mod_square_times(10nat, e19, n, x19, 0x91e5b39a83ca8978981f20f6dbc365eece307e86603e04fa795df9acb3fnat, x20);
    let x21 = 0x181e1d98aa2140080bb68757276c2829873ba93df6f468968c47c7c54f38nat;
    let e21 = 2 * e20 + 1;
    lemma_power_mod_square_times(10nat, e20, n, x20, 0x1a8bd7b746ab8f02e9b4dc6069a451cbf4cbe2cdf7f7824d57922445626nat, x21);
    let x22 = 0x340505a36c033ef251979376865b320ff195fbd091c51fbde79b3c04facnat;
    let e22 = 2 * e21 + 1;
    lemma_power_mod_square_times(10nat, e21, n, x21, 0xc3b7c8a9f6f74b9dc513a8017dfa923ec8f397cd7222f086c17a42a5a83cnat, x22);
    let x23 = 0x1c09469c0c274fa4dc51738f4fdcdfb28839e32739b40427139888912051nat;
    let e23 = 2 * e22 + 1;
    lemma_power_mod_square_times(10nat, e22, n, x22, 0x38e883a70cf9010e52bcfb91d89347e1a6af88a9afa4fd522132788a8bdnat, x23);
    let x24 = 0x199217893fec4ed519ed69ebd7a27325703e7ad0c3889cc184affff73323nat;
    let e24 = 2 * e23;
    lemma_power_mod_square(10nat, e23, n, x23, 0x1a72cdfc735a5ecf50e016264c046f938c4f1c3039e5b4fc54371b3f0b1anat, x24);
    let x25 = 0xfcb4a756c8a63f402f7465278658fbfaed0518dd07d63a3d4de0265f6a5nat;
    let e25 = 2 * e24;
    lemma_power_mod_square(10nat, e24, n, x24, 0x16004aea42fe2bdf6a400de3d07f5d4f5923346a523238902dd347f6472cnat, x25);
    let x26 = 0x1c7708d7d7362ed72e82cb3e94c377b0cae2d6f466790eda8219c984a4ebnat;
    let e26 = 2 * e25 + 1;
    lemma_power_mod_square_times(10nat, e25, n, x25, 0x53efc0702abadfd181788603a3439fca624a5fad5fbf4cca67f2462efa7dnat, x26);
    let x27 = 0xb574a7ab8c6c2f39b41e52db4fd3f3768a4971e766794edc06425ff7cfcnat;
    let e27 = 2 * e26;
    lemma_power_mod_square(10nat, e26, n, x26, 0x1b43793ba2fae349472f293cc3160f94aec2ae67b2e5cdc2de7720f86ba7nat, x27);
    let x28 = 0x9bf2b3c236b4706ec4260a7c87aa21ad2fd9c9429618420cc26fb9c1369nat;
    let e28 = 2 * e27 + 1;
    lemma_power_mod_square_times(10nat, e27, n, x27, 0x2b470a36ec8a4b90c6d2d2d1de3485aa3b53bca1557fba61b41bf30cc1f5nat, x28);
    let x29 = 0xe3ddc61c6e033abf71ed7b3bf8835d37f2e94cef4f84fedcf4fba893f07nat;
    let e29 = 2 * e28 + 1;
    lemma_power_mod_square_times(10nat, e28, n, x28, 0x1ff72849161e3930e6da94dc764d61412af5224a45ae55acb1bfe0378179nat, x29);
    let x30 = 0x3f81c732897e410896df95a67504dc72480df0119ff4b4575e61a005cdfnat;
    let e30 = 2 * e29;
    lemma_power_mod_square(10nat, e29, n, x29, 0x6d31d21922a1772671fd7d6359e4c3e88dab337038c579a15ab0098df56nat, x30);
    let x31 = 0x1b85118e942cb456593a74d7ababa521ec45e29187169160b524e4af790fnat;
    let e31 = 2 * e30 + 1;
    lemma_power_mod_square_times(10nat, e30, n, x30, 0x54d12dcfbd9977c9ac523a5ff1c526769d10c5e6ad6a8a0e3d4747b3f81nat, x31);
    let x32 = 0xaff95acc4f3b03f983f56ad2bed1354d55fa024b01ccfb24e2834862424nat;
    let e32 = 2 * e31 + 1;
    lemma_power_mod_square_times(10nat, e31, n, x31, 0xfed49f11efa526df8309105fbf7e68cb75cc49f443a7726785c93bdd1112nat, x32);
}

proof fn lemma_power_205115282021455665897114700593932402728804164701536103180137503955397371_over_3_part_5()
    requires
        power_mod(10nat, 0x13d0195ee97cd95c2f155b0a88a46d190cf3a3e5bnat, 0x1db8260e5e3b460a46a0088fccf6a3a5936d75d89a776d4c0da4f338aafbnat) == 0xaff95acc4f3b03f983f56ad2bed1354d55fa024b01ccfb24e2834862424nat,
    ensures
        power_mod(10nat, 0x13d0195ee97cd95c2f155b0a88a46d190cf3a3e5bc4f9e32bnat, 0x1db8260e5e3b460a46a0088fccf6a3a5936d75d89a776d4c0da4f338aafbnat) == 0x133bd0c6f70da1fcc3f6beb694ca602be2026bb71e1cb2cd465bec54e5a5nat,
{
    let n = 0x1db8260e5e3b460a46a0088fccf6a3a5936d75d89a776d4c0da4f338aafbnat;
    let e0 = 0x13d0195ee97cd95c2f155b0a88a46d190cf3a3e5bnat;
    let x0 = 0xaff95acc4f3b03f983f56ad2bed1354d55fa024b01ccfb24e2834862424nat;
    let x1 = 0x10a315092936f1507378d233c7a3d69e1c71a21025a5eab44f22041de0e4nat;
    let e1 = 2 * e0 + 1;
    lemma_power_mod_square_times(10nat, e0, n, x0, 0x28b3c57e12aaf2348546aa7efe900e10f6b0050025fe06a198a01eb2c874nat, x1);
    let x2 = 0xae8b5dbdedf221cf58d04d512d69f066e7a29c69eee6ec41cc4d2e22ebbnat;
    let e2 = 2 * e1 + 1;
    lemma_power_mod_square_times(10nat, e1, n, x1, 0x5d2291aab908dd7a51f2a5d50fd84f746127aafa32edfd9883eda7774a9fnat, x2);
    let x3 = 0x15cb03720b08394b8be5c394be2d9651e45de8d0f5951c70534c46aa174fnat;
    let e3 = 2 * e2;
    lemma_power_mod_square(10nat, e2, n, x2, 0x4011d93049e5b35f65e737182f2529723ce9988b460364f8929e0240dbenat, x3);
    let x4 = 0x640fe965f861ce639ef879bff0bb964cc99ae3258b9244b55374d3d84b2nat;
    let e4 = 2 * e3;
    lemma_power_mod_square(10nat, e3, n, x3, 0xffb0f4f81b05ae2a38fb1167a8e4f9f9a8a0e4add5f2997b1b7f8fe91ddnat, x4);
    let x5 = 0x1a3879c9722dcb9cbecdc6054455711e5ed990fb53bb9c0573ffcc5ac8b1nat;
    let e5 = 2 * e4;
    lemma_power_mod_square(10nat, e4, n, x4, 0x150e655981331fd16603d77391aaa860ee8ff8467e6947bca6f3519ccc9nat, x5);
    let x6 = 0xed835b5a67374777fd7b3964c8b2ce3aae8d6b0b2301c46de7e89ccfac1nat;
    let e6 = 2 * e5 + 1;
    lemma_power_mod_square_times(10nat, e5, n, x5, 0xe7567697edda598f2f4a857755293c303468cd36a187ef7c6f7cd37208cbnat, x6);
    let x7 = 0x181370ec4b7393fadf58b7da28030f29d44cd19da0d93910d395bd3e1902nat;
    let e7 = 2 * e6;
    lemma_power_mod_square(10nat, e6, n, x6, 0x76a2cb2b40a31daa3a00edde59f6a7b44ecdbdd189a9cae72616f33cd4dnat, x7);
    let x8 = 0x25666ed64db858f1a55c5c753bc9d571330f5e05ff3bc988507fea108b2nat;
    let e8 = 2 * e7;
    lemma_power_mod_square(10nat, e7, n, x7, 0x1381117f66a70b125e603a5ef350cfdaac625f07e54390a751201bf8d156nat, x8);
    let x9 = 0x15c8c4753c1b21d94e951cf18f5756882282545259274f3c08ec7d13b352nat;
    let e9 = 2 * e8 + 1;
    lemma_power_mod_square_times(10nat, e8, n, x8, 0x1d6a8ed317badb342504c89658aa8d7b3d86621d4ac6e19ba4ef4a57722nat, x9);
    let x10 = 0x10ccebdad7263ea0eeca347500a734513d310dc3222258c71945b8f0ba6enat;
    let e10 = 2 * e9 + 1;
    lemma_power_mod_square_times(10nat, e9, n, x9, 0x9fadaa1974cc6912ce7a67ab36b50087c7cdd048a40bceff23af4182f78enat, x10);
    let x11 = 0x1279dd0549b90f4b5c39359e57dc659b3d55571d4a28eccae39fe22e4067nat;
    let e11 = 2 * e10 + 1;
    lemma_power_mod_square_times(10nat, e10, n, x10, 0x5ef94e276b13876bf07a5ac6f32bc70bb08c8d1b0f0b5b0dd8857b4274f3nat, x11);
    let x12 = 0x1f926167c2173f0699991660e71e822052d0011d2685aad34a814f21247nat;
    let e12 = 2 * e11 + 1;
    lemma_power_mod_square_times(10nat, e11, n, x11, 0x72dccc482ede9315c2e7828c89f55207dc5e8006a67779c2dca0fb005af9nat, x12);
    let x13 = 0x14401e35b520df4872b4ab26e4b3db8ebe86f52eddaeb479debf221c1034nat;
    let e13 = 2 * e12 + 1;
    lemma_power_mod_square_times(10nat, e12, n, x12, 0x14f65b8cb3ab5e19cb08f4eddadc1cffbc72c544575f157f4d32fdbe842nat, x13);
    let x14 = 0x1717b88c8ff47104a001abbb1f23ee36724c211ee271d55af4a3273e9a88nat;
    let e14 = 2 * e13;
    lemma_power_mod_square(10nat, e13, n, x13, 0xdcc6841d9a926bf1eb1647ca173a521a46b115f9aa4297c20cf6beb5198nat, x14);
    let x15 = 0x111f17672583ce3e89c737d6221537825f64d88589cd2a4162ce5a81964dnat;
    let e15 = 2 * e14;
    lemma_power_mod_square(10nat, e14, n, x14, 0x11f18de644b07330c2e814f5e754251b55d334f42c09c971fa0e1891c369nat, x15);
    let x16 = 0x1878cc6e3db54d8c22253a14590a81b33c82c307dc6c0d175ef9b5e57dbdnat;
    let e16 = 2 * e15 + 1;
    lemma_power_mod_square_times(10nat, e15, n, x15, 0x62a333e2dcfde3b26e624b7f40ab3cf66303044b282a4e272bcb51472f07nat, x16);
    let x17 = 0x184e2b26612bf849e1c1ba3258c82ab66d49a28a0dc7219d7eef9ddef858nat;
    let e17 = 2 * e16 + 1;
    lemma_power_mod_square_times(10nat, e16, n, x16, 0xc98266ba62c6470c5a579a5baec3056f37890b5cd1a447def9a1a5b4fd66nat, x17);
    let x18 = 0x1b1655b12c545dc873857a19a2fa6249e188d62dc10fb021f41ebc8f6fednat;
    let e18 = 2 * e17 + 1;
    lemma_power_mod_square_times(10nat, e17, n, x17, 0xc6c6bb2c2e2a1a9b487376125bee4f46fd88d640bc852963e7fb0c056749nat, x18);
    let x19 = 0x15aab038b58e10d1f84c0aaa35bb590de4c8b15cb22d4492aa402052f92bnat;
    let e19 = 2 * e18 + 1;
    lemma_power_mod_square_times(10nat, e18, n, x18, 0xf6e1f8490b45141ebf9f0ba792d1e5a961e43c960214f5480804e9b49b9dnat, x19);
    let x20 = 0xb1f168a4800c5c1afc24edd1d632ed8a745e0d42925af211690d22dbd24nat;
    let e20 = 2 * e19;
    lemma_power_mod_square(10nat, e19, n, x19, 0xfcbca1e2176426967a68a321e08789c45642ee378d06724f3ca6a5ce42fnat, x20);
    let x21 = 0x184c91c48d39635afd896f1af5141403775f5be8db4961cab1f25de52820nat;
    let e21 = 2 * e20;
    lemma_power_mod_square(10nat, e20, n, x20, 0x4296cc07634354c2ecc1b32c4350d7bc7e0ee0e40ff41d36e8113d6fbd0nat, x21);
    let x22 = 0x1049d36c0e999ac62b459d268f151fb9a405d8c3249a1bd2647edde728benat;
    let e22 = 2 * e21;
    lemma_power_mod_square(10nat, e21, n, x21, 0x13de0ecb30722518f1e41e690ba8e148ab0be3bbfd9b6455c9f5df934e26nat, x22);
    let x23 = 0x56477bef7af7bb1f07212c4ddeddea4421cdb9b49314187304dad595549nat;
    let e23 = 2 * e22 + 1;
    lemma_power_mod_square_times(10nat, e22, n, x22, 0x5945b7990e830e8336c25ccc3e2e70cfd3d6dca662975014c96c6ac5606dnat, x23);
    let x24 = 0x3dfd5af1b1e8e35b92d8a6d91d8485e0381198e352d353e4f4385c8de1bnat;
    let e24 = 2 * e23 + 1;
    lemma_power_mod_square_times(10nat, e23, n, x23, 0x9c8cd86623bbb97ab1cd27e7e9b961229f86f5797f1737cb3770d5074fdnat, x24);
    let x25 = 0xb19200a4cf01b497961fb394d7814f0489c0165faf529d17934fcf9bcednat;
    let e25 = 2 * e24;
    lemma_power_mod_square(10nat, e24, n, x24, 0x814ce1f70826f887b0d046c45464193f2e2a63b7ccfab94b5ddba7ea04nat, x25);
    let x26 = 0x6cfb1fd9a6c88e95e87bce6c8a26d9e7916d46a454fd7b0a4defb9a44b4nat;
    let e26 = 2 * e25;
    lemma_power_mod_square(10nat, e25, n, x25, 0x424f777cd341113d95c0f3cbc43c8c2780f324277bc10ec9f0175bfde0fnat, x26);
    let x27 = 0xfe7a7e646835580a1119e7358cf955638486a11cc735ccf6907b5cede80nat;
    let e27 = 2 * e26 + 1;
    lemma_power_mod_square_times(10nat, e26, n, x26, 0xf9c567ad1983bc0ef90c89d1a8602146d33562cf0f80816d7e767508f60nat, x27);
    let x28 = 0x10a2521cf278213db774eaa93282ca871917ed8e3cc4c62c918cffaddfb1nat;
    let e28 = 2 * e27;
    lemma_power_mod_square(10nat, e27, n, x27, 0x88307966d9007782dac2085c698992c6b0744a8fa6d797d5c0c92515fbdnat, x28);
    let x29 = 0x168a5d6a1db49871d0b904cba13399af239a3bad79ba534675dd311d7e73nat;
    let e29 = 2 * e28 + 1;
    lemma_power_mod_square_times(10nat, e28, n, x28, 0x5d1a0b7c8c755ade121ce2d9758ef7ca9c10837138b902b94c2353d99055nat, x29);
    let x30 = 0x99b61de50aff16d21b86df76ca074d0562ea893367f9ced2ab4fa2b6bf4nat;
    let e30 = 2 * e29;
    lemma_power_mod_square(10nat, e29, n, x29, 0x111881a1ac5348fecc76bfe3505a02aa00cb1cf83d07bc0dd5c5bbe0350fnat, x30);
    let x31 = 0x232872883e76389f2dd3dd69b2a47a19716f62761dc92058dc6f6754713nat;
    let e31 = 2 * e30 + 1;
    lemma_power_mod_square_times(10nat, e30, n, x30, 0x1f0e1bf6de5e5034cd8c89089625656d38450a53ef5499f615ee2460c617nat, x31);
    let x32 = 0x133bd0c6f70da1fcc3f6beb694ca602be2026bb71e1cb2cd465bec54e5a5nat;
    let e32 = 2 * e31 + 1;
    lemma_power_mod_square_times(10nat, e31, n, x31, 0x19feb61b8d0cc2b2d8730823c2d8478b604d332dd7198be975cfe6f0b4fnat, x32);
}

proof fn lemma_power_205115282021455665897114700593932402728804164701536103180137503955397371_over_3_part_6()
    requires
        power_mod(10nat, 0x13d0195ee97cd95c2f155b0a88a46d190cf3a3e5bc4f9e32bnat, 0x1db8260e5e3b460a46a0088fccf6a3a5936d75d89a776d4c0da4f338aafbnat) == 0x133bd0c6f70da1fcc3f6beb694ca602be2026bb71e1cb2cd465bec54e5a5nat,
    ensures
        power_mod(10nat, 0x13d0195ee97cd95c2f155b0a88a46d190cf3a3e5bc4f9e32b3c34cd07nat, 0x1db8260e5e3b460a46a0088fccf6a3a5936d75d89a776d4c0da4f338aafbnat) == 0x19e03a58e76112971d72b9f2c90c8b76cbeb6616c4b4216fd9539687db1dnat,
{
    let n = 0x1db8260e5e3b460a46a0088fccf6a3a5936d75d89a776d4c0da4f338aafbnat;
    let e0 = 0x13d0195ee97cd95c2f155b0a88a46d190cf3a3e5bc4f9e32bnat;
    let x0 = 0x133bd0c6f70da1fcc3f6beb694ca602be2026bb71e1cb2cd465bec54e5a5nat;
    let x1 = 0x156933ff4722e5ba55446e2f4843ec8d1ffbc74a64bbea4c43a4708cdf5fnat;
    let e1 = 2 * e0;
    lemma_power_mod_square(10nat, e0, n, x0, 0xc7293fa68a26cad154b3ca06c3acd5a8db09a5f867813b3b67d4e7dc5cenat, x1);
    let x2 = 0x123afcdacf7636705741ae757a7720ffc17e0c61d74f7d3e00727c6df9dnat;
    let e2 = 2 * e1;
    lemma_power_mod_square(10nat, e1, n, x1, 0xf6cdea390bff503ec12aa52b11e365b48c7fa06b3e93cd6568d80d99facnat, x2);
    let x3 = 0x3081b392d0fbf6a6c3ea8b0654c09b4033332475470949de5e9ee7e1008nat;
    let e3 = 2 * e2 + 1;
    lemma_power_mod_square_times(10nat, e2, n, x2, 0x6fd437f8ebdd617d8351fa7145f60ca207de098d4ad09a8321633833d6nat, x3);
    let x4 = 0x188bdb3a8b5a27e84e63017cdb427b7e332c284de087b4aede37f5357e5fnat;
    let e4 = 2 * e3 + 1;
    lemma_power_mod_square_times(10nat, e3, n, x3, 0x317b4852eb378830acd6c7f834247f77ee0dc690fc115b1c48909ef2293nat, x4);
    let x5 = 0x3d5f6b020e65fdd20bb5aa1e392d4df08f33be7b2f485bebae4a7c2508dnat;
    let e5 = 2 * e4 + 1;
    lemma_power_mod_square_times(10nat, e4, n, x4, 0xcabcbc2d6928fa6c16f6b7cea295ef7c469261a1f0c7c77e46e4b8ecb767nat, x5);
    let x6 = 0x1c3dd31c8958522d00cc207fb57fea1743c3c06691c0eb9a77812c2f84cenat;
    let e6 = 2 * e5 + 1;
    lemma_power_mod_square_times(10nat, e5, n, x5, 0x4f364fc9f592c42b9f23c0d2c511747bec6b78b8abef2cc869f2bc8c1a4nat, x6);
    let x7 = 0xfac93d9e792e0085ff8471b48acd7da7359b9b66b65c96e2beb837b5085nat;
    let e7 = 2 * e6;
    lemma_power_mod_square(10nat, e6, n, x6, 0x1ad6503133d3afff8a1dd1f9e4ccc0578e2e7bb41b151b73da9e1f437b8dnat, x7);
    let x8 = 0x32b5840e16d1d6301e03a5a92f683fe71cb6b0978383635b1b75debc2d1nat;
    let e8 = 2 * e7;
    lemma_power_mod_square(10nat, e7, n, x7, 0x84441247021bb93f6473a6cf140ae4e3d7f6c6a10e0991c794b86f9d458nat, x8);
    let x9 = 0xca045b6fab770902a6ef64154688d95cead5e982d167211c6ff1ca1563bnat;
    let e9 = 2 * e8;
    lemma_power_mod_square(10nat, e8, n, x8, 0x5685e72037cb6a5e55a93f088f6b596b2b01d2788aad3991fd04adbc52nat, x9);
    let x10 = 0x501d19807fe50f839165d801499bd8176e9a1794d61a9b092aee08ccee6nat;
    let e10 = 2 * e9;
    lemma_power_mod_square(10nat, e9, n, x9, 0x55d35b61cea1fb4c5b8fffac58c84f78e0b4cb45264d81e75d3899499a9nat, x10);
    let x11 = 0x7d88ba358897f774fef7b077fd186572bc834a4a0545ae4ece657a1172anat;
    let e11 = 2 * e10 + 1;
    lemma_power_mod_square_times(10nat, e10, n, x10, 0x86f9ac3dd0d79fbc3a54dabd9fe8ef2b56fde3b4385557ac1570d6e1d5anat, x11);
    let x12 = 0x142cf7a164f6536a781271139a1a0e8db8a10729576b5c376e042d84fe73nat;
    let e12 = 2 * e11 + 1;
    lemma_power_mod_square_times(10nat, e11, n, x11, 0x14b68b74914f2b5c95abfb9af2a24a8ce2216fcdedc3d3f4a1bb08e3014fnat, x12);
    let x13 = 0xd5277d9def0a7587b54588d879b60cf48f5501fe67b21c4cb6828ef3ef5nat;
    let e13 = 2 * e12;
    lemma_power_mod_square(10nat, e12, n, x12, 0xdb25b75618bc6804f9e937189ec237f2907c32d1cf29692636d01955bdcnat, x13);
    let x14 = 0x197fd031498fbe6d23d60a37e877e6972544ebebcdc9bda3bd1b60a139f4nat;
    let e14 = 2 * e13 + 1;
    lemma_power_mod_square_times(10nat, e13, n, x13, 0x3bb7f10358a47079cbe9ddc61110cfff804ed252654e8395a72e44a01972nat, x14);
    let x15 = 0x10466b5b94c06077e48f5a6676210e53617f490475e9a31980dc2c735f53nat;
    let e15 = 2 * e14;
    lemma_power_mod_square(10nat, e14, n, x14, 0x15e0e1e47fb4e22692410d2eb009a1776ebeeaafd77dd09d7e68891a5f27nat, x15);
    let x16 = 0x19cfb44a4d7faae16404cf80fe7634d1f262597df1d9cfd218d79b604f8dnat;
    let e16 = 2 * e15;
    lemma_power_mod_square(10nat, e15, n, x15, 0x8e9a3a3a55985dd3051beda82d83789f7ea14b4942abaf50e84bdc6f154nat, x16);
    let x17 = 0x60429a66ea31c5f7701d8c34d9be981156a314ce40d90f4132c98ebbab4nat;
    let e17 = 2 * e16 + 1;
    lemma_power_mod_square_times(10nat, e16, n, x16, 0xe02c25b4c44922993f061e57e353a0ab96313a688d70399291e2ae7f58d2nat, x17);
    let x18 = 0x155b4dfdb5c1baa5f6e1e65048d2464a48fbc85a6c38f22f1ad7e9503670nat;
    let e18 = 2 * e17 + 1;
    lemma_power_mod_square_times(10nat, e17, n, x17, 0xc2dd7bfe2dfe0df59b1c669fb5690cf4f2425785c68b848d8eccb952a90nat, x18);
    let x19 = 0x12996faa0d877aa900d6e2bc1b4aa01b79984a0ffb93e185d1b545015f1dnat;
    let e19 = 2 * e18;
    lemma_power_mod_square(10nat, e18, n, x18, 0xf58de7d527621249925fd698357eae1fc310e36a2a9fd67ddd6bc9c0039nat, x19);
    let x20 = 0x1560e7fb7d1d31bc0c20beb05d4184800306b977f4e50285cc022cc791e7nat;
    let e20 = 2 * e19;
    lemma_power_mod_square(10nat, e19, n, x19, 0xba3de118dadc69bc92d3ff4c6dd0cb1e773fc7d13678a6d23fa0cc4e886nat, x20);
    let x21 = 0xf08e9afe1bbd5f76a616326134130aa6882165813b4afe677623ee4b8d2nat;
    let e21 = 2 * e20 + 1;
    lemma_power_mod_square_times(10nat, e20, n, x20, 0x99c93d1cb3315cad40fbd836c77915ae4ef04c6332b28c1c0ee26ed49348nat, x21);
    let x22 = 0xe7de0dbe5edf3785206a23bd991b5139be6f2177cbeec292f9d37b26f73nat;
    let e22 = 2 * e21 + 1;
    lemma_power_mod_square_times(10nat, e21, n, x21, 0x4c0f66391f91a0a9be71a53a3feb7002244554ae93994c51b6b755804b8fnat, x22);
    let x23 = 0x707f4a05dc1d428fa3ca1a85bfcce7d65f2abe9a80fb3fb677628492af9nat;
    let e23 = 2 * e22;
    lemma_power_mod_square(10nat, e22, n, x22, 0x71101e69d67eeafa568c9f9d71a5ef35698f09457eca0e7253ee6bac910nat, x23);
    let x24 = 0x5b9271e1402bdc82a14ebba9efc1c86eadadc69b8142b095f65018b3912nat;
    let e24 = 2 * e23 + 1;
    lemma_power_mod_square_times(10nat, e23, n, x23, 0x10a261b3a70e504764881b21d79eb54dcedc8e8dd6a4fe84427b045e3708nat, x24);
    let x25 = 0x114b047cde3275893fb888c352713bfaca447db45451c0f90d394a5d949bnat;
    let e25 = 2 * e24;
    lemma_power_mod_square(10nat, e24, n, x24, 0x11a2787c1c8d945dc3e60c828d3992ba1728065e7310889768af792c1abnat, x25);
    let x26 = 0x10ab45b7880394831d8ee1e3b4b6b987b813592c9e4adce1917895a5acc1nat;
    let e26 = 2 * e25;
    lemma_power_mod_square(10nat, e25, n, x25, 0xa0ffc68abeda66a06595632007514a54c80782b77e05c2324f2dc22efc8nat, x26);
    let x27 = 0x166a06ba29ab317971e87488e5651122aed2a15b575be8d8ca3c73fb02efnat;
    let e27 = 2 * e26;
    lemma_power_mod_square(10nat, e26, n, x26, 0x9596f7d851399dd4f2d600ac4f299725214e05bfc7737d6d50477668f16nat, x27);
    let x28 = 0x1b5665ec20453947a0b342ded49b1adc56e1350d14aedcb0fcc09c5c17dfnat;
    let e28 = 2 * e27;
    lemma_power_mod_square(10nat, e27, n, x27, 0x10e796f4e7279637176475ca033857df6109f1173ba8825e1a39efddc626nat, x28);
    let x29 = 0x450c7a0ddc39e8d49efbb728b158d1bd324d08027f911f09d71879c6b49nat;
    let e29 = 2 * e28;
    lemma_power_mod_square(10nat, e28, n, x28, 0x1925840515d5833d60b54adf18de649f6963dae0f198d0a1de65dd0d6968nat, x29);
    let x30 = 0x8dbddbaef32bffd6752ac115711a44ef408d126526cc4ec3ed148499f29nat;
    let e30 = 2 * e29 + 1;
    lemma_power_mod_square_times(10nat, e29, n, x29, 0x644406375addb08a86c647b10d81558b28d0b44aa49976ec626947d8733nat, x30);
    let x31 = 0xfdb51bc506c2e36710b56d2afbdf5ee90c841c0a749997457f55bfd33fenat;
    let e31 = 2 * e30 + 1;
    lemma_power_mod_square_times(10nat, e30, n, x30, 0x1a68247194b98ce094bf1dce7038e3fa48883676f6eeb94d3609a84f9d44nat, x31);
    let x32 = 0x19e03a58e76112971d72b9f2c90c8b76cbeb6616c4b4216fd9539687db1dnat;
    let e32 = 2 * e31 + 1;
    lemma_power_mod_square_times(10nat, e31, n, x31, 0x549a73f8348106fd59c2e59a095441b7447243578597ce3c6b71c8dbf131nat, x32);
}

proof fn lemma_power_205115282021455665897114700593932402728804164701536103180137503955397371_over_3_part_7()
    requires
        power_mod(10nat, 0x13d0195ee97cd95c2f155b0a88a46d190cf3a3e5bc4f9e32b3c34cd07nat, 0x1db8260e5e3b460a46a0088fccf6a3a5936d75d89a776d4c0da4f338aafbnat) == 0x19e03a58e76112971d72b9f2c90c8b76cbeb6616c4b4216fd9539687db1dnat,
    ensures
        power_mod(10nat, 0x9e80caf74be6cae178aad854452368c8679d1f2de27cf1959e1a66838fenat, 0x1db8260e5e3b460a46a0088fccf6a3a5936d75d89a776d4c0da4f338aafbnat) == 0x19e13d64ecf8054c0c195a4fd00298835ea4ec6b4d32290aa855b6a1c94enat,
{
    let n = 0x1db8260e5e3b460a46a0088fccf6a3a5936d75d89a776d4c0da4f338aafbnat;
    let e0 = 0x13d0195ee97cd95c2f155b0a88a46d190cf3a3e5bc4f9e32b3c34cd07nat;
    let x0 = 0x19e03a58e76112971d72b9f2c90c8b76cbeb6616c4b4216fd9539687db1dnat;
    let x1 = 0x1bfacc3c779cb89d727424e84be213f451a0ee82227f5014411ece9cdbabnat;
    let e1 = 2 * e0;
    lemma_power_mod_square(10nat, e0, n, x0, 0x16878d65992f6e7d9975fda8494c14ef3402fc983cbc58ccc882aa14be7anat, x1);
    let x2 = 0x1968d227120d77f1722c4418cd350b9f004c6d1d69545c09613df93edf50nat;
    let e2 = 2 * e1;
    lemma_power_mod_square(10nat, e1, n, x1, 0x1a57841960915fdf98207f8ea3753846cd4dbf9f9d1c7e55caaec4b7aa6bnat, x2);
    let x3 = 0x7ece3ca48735f417a976c43962b548b76829179cc93c1495256ea3cd771nat;
    let e3 = 2 * e2;
    lemma_power_mod_square(10nat, e2, n, x2, 0x15b97f33d84829d993781a80e55ea28c37bec6e1f541d7c8922314c35f7dnat, x3);
    let x4 = 0x856afdef47b3bd268de60d35b69666a5e971bf3aaf1d9d7c17bf75c6487nat;
    let e4 = 2 * e3 + 1;
    lemma_power_mod_square_times(10nat, e3, n, x3, 0x152281afafc61275bdc8433ab39df245aedec82a483febafaaf73b9a2b59nat, x4);
    let x5 = 0x14b290515bb5abc2cc9a68458379d10afaa489b421573b1a9d529f3086ebnat;
    let e5 = 2 * e4 + 1;
    lemma_power_mod_square_times(10nat, e4, n, x4, 0x17657bf07822ab963e52ece315c934128616346ca316793abee1d16132cdnat, x5);
    let x6 = 0xc604dbceb89750cad575c5108a0f991a394f53aa190b9072259a783d52fnat;
    let e6 = 2 * e5 + 1;
    lemma_power_mod_square_times(10nat, e5, n, x5, 0x9024eea017d087037c1b2eb87e914f7dbfdb00a9d2165611c44abab13231nat, x6);
    let x7 = 0x16607e43b19a5cb9166fe204adc1667847fb62d2d9356f43601909b01914nat;
    let e7 = 2 * e6 + 1;
    lemma_power_mod_square_times(10nat, e6, n, x6, 0x3389f17422dea47e36c14f860911db3e6e285e2bd6f5115c575ac4b5a5c2nat, x7);
    let x8 = 0x14b96121a482ecfb206cceb3d39b0519bcff8e42851fa43f1e9e52f54c1fnat;
    let e8 = 2 * e7 + 1;
    lemma_power_mod_square_times(10nat, e7, n, x7, 0xa87c3875514554b9cb57a17e3b66a7808df05cf9a8949987a2c63421f2b3nat, x8);
    let x9 = 0xb3da39aa2d795deae8644bd31df2be058ed265446006a857d146f5fcf96nat;
    let e9 = 2 * e8 + 1;
    lemma_power_mod_square_times(10nat, e8, n, x8, 0x9083ed29879de1a8a9cc045d90317962883a09951f410048b25058be8f9cnat, x9);
    let x10 = 0x19e13d64ecf8054c0c195a4fd00298835ea4ec6b4d32290aa855b6a1c94fnat;
    let e10 = 2 * e9 + 1;
    lemma_power_mod_square_times(10nat, e9, n, x9, 0x2a8420dcf6035699f298426c1d473d2dd6cbc4c3f302a0b82d814e67257bnat, x10);
    let x11 = 0x19e13d64ecf8054c0c195a4fd00298835ea4ec6b4d32290aa855b6a1c94enat;
    let e11 = 2 * e10;
    lemma_power_mod_square(10nat, e10, n, x10, 0x16895085e084071c370989dd638e5d4322addb3a1facc9e906c28316fac9nat, x11);
}

proof fn lemma_power_205115282021455665897114700593932402728804164701536103180137503955397371_over_3()
    ensures
        power_mod(10nat, 0x9e80caf74be6cae178aad854452368c8679d1f2de27cf1959e1a66838fenat, 0x1db8260e5e3b460a46a0088fccf6a3a5936d75d89a776d4c0da4f338aafbnat) == 0x19e13d64ecf8054c0c195a4fd00298835ea4ec6b4d32290aa855b6a1c94enat,
{
    lemma_power_mod_first(10nat, 0x1db8260e5e3b460a46a0088fccf6a3a5936d75d89a776d4c0da4f338aafbnat);
    lemma_power_205115282021455665897114700593932402728804164701536103180137503955397371_over_3_part_0();
    lemma_power_205115282021455665897114700593932402728804164701536103180137503955397371_over_3_part_1();
    lemma_power_205115282021455665897114700593932402728804164701536103180137503955397371_over_3_part_2();
    lemma_power_205115282021455665897114700593932402728804164701536103180137503955397371_over_3_part_3();
    lemma_power_205115282021455665897114700593932402728804164701536103180137503955397371_over_3_part_4();
    lemma_power_205115282021455665897114700593932402728804164701536103180137503955397371_over_3_part_5();
    lemma_power_205115282021455665897114700593932402728804164701536103180137503955397371_over_3_part_6();
    lemma_power_205115282021455665897114700593932402728804164701536103180137503955397371_over_3_part_7();
}

proof fn lemma_power_205115282021455665897114700593932402728804164701536103180137503955397371_over_5_part_0()
    requires
        power_mod(10nat, 1nat, 0x1db8260e5e3b460a46a0088fccf6a3a5936d75d89a776d4c0da4f338aafbnat) == 10nat,
    ensures
        power_mod(10nat, 0x17c684d84nat, 0x1db8260e5e3b460a46a0088fccf6a3a5936d75d89a776d4c0da4f338aafbnat) == 0x1aabdcc1100617109542e55d34bcde908ee240071f1c45e98cad668401bdnat,
{
    let n = 0x1db8260e5e3b460a46a0088fccf6a3a5936d75d89a776d4c0da4f338aafbnat;
    let e0 = 1nat;
    let x0 = 10nat;
    let x1 = 100nat;
    let e1 = 2 * e0;
    lemma_power_mod_square(10nat, e0, n, x0, 0nat, x1);
    let x2 = 100000nat;
    let e2 = 2 * e1 + 1;
    lemma_power_mod_square_times(10nat, e1, n, x1, 0nat, x2);
    let x3 = 0x174876e800nat;
    let e3 = 2 * e2 + 1;
    lemma_power_mod_square_times(10nat, e2, n, x2, 0nat, x3);
    let x4 = 0x152d02c7e14af6800000nat;
    let e4 = 2 * e3 + 1;
    lemma_power_mod_square_times(10nat, e3, n, x3, 0nat, x4);
    let x5 = 0x118427b3b4a05bc8a8a4de845986800000000000nat;
    let e5 = 2 * e4 + 1;
    lemma_power_mod_square_times(10nat, e4, n, x4, 0nat, x5);
    let x6 = 0xc43581a0492d1c559e9454e8bb73fd1d1249c645c8486b719e8537be81fnat;
    let e6 = 2 * e5 + 1;
    lemma_power_mod_square_times(10nat, e5, n, x5, 0x673d17ce42b0423591d3nat, x6);
    let x7 = 0x550d20c96c825819ddd5b42fe821148f33fc892cbe9d41b934e91b84574nat;
    let e7 = 2 * e6;
    lemma_power_mod_square(10nat, e6, n, x6, 0x50f628f949c68a5a889137c98032f420a0eb685c2ad9c7dae5ac3bf0957nat, x7);
    let x8 = 0x14de947178e0ba1934e43945078dc9a2a6acd1ddc0a666479a01e5ead0e4nat;
    let e8 = 2 * e7;
    lemma_power_mod_square(10nat, e7, n, x7, 0xf366b47712cec175d4782048d4bcbf806aab67fe81b4b0da3e6696b344nat, x8);
    let x9 = 0xa11f51707244b573c68905eb7d92aec25c6286c727657afa3575ea9bffdnat;
    let e9 = 2 * e8;
    lemma_power_mod_square(10nat, e8, n, x8, 0xea7a80929468677e406a9cc0760761c4a71844cbb0d01172440623024c9nat, x9);
    let x10 = 0x1ce91e85a45f721eda252116d142f864729056e6187780439bcc675e5201nat;
    let e10 = 2 * e9 + 1;
    lemma_power_mod_square_times(10nat, e9, n, x9, 0x221f3144129799bda19689202d602985e0315291c776313cccb992610bbbnat, x10);
    let x11 = 0x18ce7a1001084631d975ca2f6bc5624cc5e117ec5bcc09c7ed7456280409nat;
    let e11 = 2 * e10 + 1;
    lemma_power_mod_square_times(10nat, e10, n, x10, 0x1193d3bde3f399ea021dfb0bd48a257771dedbd9c62704c6dc9b446ccbc33nat, x11);
    let x12 = 0x15e156fca057cd82bf3759da8653f8fec894d01b1de7c4c4cc6a982d0c33nat;
    let e12 = 2 * e11;
    lemma_power_mod_square(10nat, e11, n, x11, 0x14b4b49dbd7199e2fd0d4bd1496366c90baa72725604b38a598205d159fanat, x12);
    let x13 = 0x76d1bef76a37dcd7150394dd8b3ba122bc37f9652e99b7e22d3f682c2a8nat;
    let e13 = 2 * e12 + 1;
    lemma_power_mod_square_times(10nat, e12, n, x12, 0xa116b05435d5822da06d31bf0a8a30081c87b4920bd90c050e12c8928636nat, x13);
    let x14 = 0x11f50f0f8dcdf9e6c984d26c5664162f4dc6ac5e37dfd401039d05b244f8nat;
    let e14 = 2 * e13;
    lemma_power_mod_square(10nat, e13, n, x13, 0x1db0b9e40a6d9f601939f672ad6c786fbd1c86ebebd9eaa4ac332f29958nat, x14);
    let x15 = 0xd9d212f5884b545bb8d42941f562905965e066c3bdd9ae54e2df536987nat;
    let e15 = 2 * e14;
    lemma_power_mod_square(10nat, e14, n, x14, 0xad9ac508e4286b3656a8d87b364b04e26cfdb39825af898e5015ce566dbnat, x15);
    let x16 = 0xb49786b3f91b4495b8e121d72f42ed2d399ccfbad3c899ccf1261902a0bnat;
    let e16 = 2 * e15;
    lemma_power_mod_square(10nat, e15, n, x15, 0x63c768d3224c242191c7cdba52a0b37f8830a1b19051f1660c8898892nat, x16);
    let x17 = 0xb6738434e8510a008cc27327391251450a4e12fc41a0294d7afd64d2639nat;
    let e17 = 2 * e16;
    lemma_power_mod_square(10nat, e16, n, x16, 0x4496194b35a654b974cba32c7240726e4c1107a05ca1596cca52b798ec0nat, x17);
    let x18 = 0x1896f694f7289fcaa9fd750966b90db7cc50e4e3a7aefdab11009004328bnat;
    let e18 = 2 * e17 + 1;
    lemma_power_mod_square_times(10nat, e17, n, x17, 0x2bc0f17673abab340735b38182ca84d673c819d8476f6e9c970d2fac8eednat, x18);
    let x19 = 0x19b963f0962c8ef3918beeabc103d5a1af2ad015cf5d3f70b311f2e7faddnat;
    let e19 = 2 * e18;
    lemma_power_mod_square(10nat, e18, n, x18, 0x14586fd56237ca231984ec0a973c5f388d5834b0fa981de354a8b343f314nat, x19);
    let x20 = 0x1c1212e8b742011b000a7064d3aedb355f802b68231e1d935eab6c5df57fnat;
    let e20 = 2 * e19;
    lemma_power_mod_square(10nat, e19, n, x19, 0x16441eee492b30745c171134f5553aff32a224410a51ad51a79437f1e5benat, x20);
    let x21 = 0x1b0c63c607ac66695906a25e038292c85e8e119accc23995a549b64ea79bnat;
    let e21 = 2 * e20 + 1;
    lemma_power_mod_square_times(10nat, e20, n, x20, 0x1092224cdc4ae78a549c9f056e4b0dac890a00d68d1dd4dd573a238f6241dnat, x21);
    let x22 = 0x84157b29c4f690cb95dc7dcaa39c5e5495b1553d8c7d0670607ba1b7bd0nat;
    let e22 = 2 * e21 + 1;
    lemma_power_mod_square_times(10nat, e21, n, x21, 0xf62cd0c47697d45aee55e8f4e85490f46e9aaf66edf37c987a2955acf7denat, x22);
    let x23 = 0x72e49dbc92f40efb04725189b40072a9121cc14be2951fd9296c774b14bnat;
    let e23 = 2 * e22;
    lemma_power_mod_square(10nat, e22, n, x22, 0x24b07dbceac7df0fd87dad064ff119a4ed62fcdb31b5c207883fa68090fnat, x23);
    let x24 = 0x14028bd858937d50a0f2d2ac4ad75e9dd073ebe4ef1a053fafe8d77c3ac7nat;
    let e24 = 2 * e23 + 1;
    lemma_power_mod_square_times(10nat, e23, n, x23, 0x1159b0ee5928949f0f36aa180ac9c3d6d049beeb3f265136342636b61469nat, x24);
    let x25 = 0x1366f7721439bcdc7bf05490bd56d335eca364a0d2e90f8f4c6eb67d2297nat;
    let e25 = 2 * e24 + 1;
    lemma_power_mod_square_times(10nat, e24, n, x24, 0x86b9f7c7a884a8880a309f94bb706fd65ae799b4fe94e2d3a058c06f6089nat, x25);
    let x26 = 0x1c163ee9460f8d40dd145b8f4739ce4c5dcb3637b404cb41f217515d20f4nat;
    let e26 = 2 * e25;
    lemma_power_mod_square(10nat, e25, n, x25, 0xcaaacebdbcad681f4a211d0ccfc6915a2dbeca9c4227afb6944acad51c7nat, x26);
    let x27 = 0x12d72f64186acfbeb17077d8beeba667843d84c9389de8f82175d8223655nat;
    let e27 = 2 * e26;
    lemma_power_mod_square(10nat, e26, n, x26, 0x1a8b4c2c04d228496fa93a5e93be86fdd581f7bdd9a0fae57bddd5f671c1nat, x27);
    let x28 = 0xe398ece6daae730a08332de7be03734de4fe1cc2b6fe1fc3158964e76cbnat;
    let e28 = 2 * e27;
    lemma_power_mod_square(10nat, e27, n, x27, 0xbf1a8626144248c25a82e3f5ac27691f2499be3522855f7171bf3be28eanat, x28);
    let x29 = 0x80952cf3ccf20860296331e094e9c69d4bb6ace9666268a8865b9d1e795nat;
    let e29 = 2 * e28;
    lemma_power_mod_square(10nat, e28, n, x28, 0x6cefdfe62fe40b138d0a5d2f8e8b28faef11e9f4df61db84cc681785aecnat, x29);
    let x30 = 0xa7e90a6d8b367967de1a4a56fb03e901f7be1a636ea27aed0b11236f2a0nat;
    let e30 = 2 * e29 + 1;
    lemma_power_mod_square_times(10nat, e29, n, x29, 0x15bb381e73eba97d1b18560ee964d1feed5c2113f476075bc8273b7fc2aenat, x30);
    let x31 = 0x91528c3f2bd77f72e932d6b1d43ad62a1faf7de2fb4f2f4c8b5aff3d588nat;
    let e31 = 2 * e30;
    lemma_power_mod_square(10nat, e30, n, x30, 0x3b4abd5be04eea7d58036750eb820f4cecbbbf24c09d8367229f92161e8nat, x31);
    let x32 = 0x1aabdcc1100617109542e55d34bcde908ee240071f1c45e98cad668401bdnat;
    let e32 = 2 * e31;
    lemma_power_mod_square(10nat, e31, n, x31, 0x2c69a1b49965643bd48d807ecbeb18691d51db71c3d91c663b8fec76c19nat, x32);
}

proof fn lemma_power_205115282021455665897114700593932402728804164701536103180137503955397371_over_5_part_1()
    requires
        power_mod(10nat, 0x17c684d84nat, 0x1db8260e5e3b460a46a0088fccf6a3a5936d75d89a776d4c0da4f338aafbnat) == 0x1aabdcc1100617109542e55d34bcde908ee240071f1c45e98cad668401bdnat,
    ensures
        power_mod(10nat, 0x17c684d84b629e6e9nat, 0x1db8260e5e3b460a46a0088fccf6a3a5936d75d89a776d4c0da4f338aafbnat) == 0xf92df650c2749202e24ff439429f387d166296193831415fa85127446eenat,
{
    let n = 0x1db8260e5e3b460a46a0088fccf6a3a5936d75d89a776d4c0da4f338aafbnat;
    let e0 = 0x17c684d84nat;
    let x0 = 0x1aabdcc1100617109542e55d34bcde908ee240071f1c45e98cad668401bdnat;
    let x1 = 0x17eb63c35a32dc0739b73898924a9e15901d9790cca897317b4fd9c07aefnat;
    let e1 = 2 * e0 + 1;
    lemma_power_mod_square_times(10nat, e0, n, x0, 0xef5c0417cf6448baf6d4d7631be085da63774b1fe24bd7cabfe109dd7951nat, x1);
    let x2 = 0x987609ec96d837a3515c5f81192acd443107df456187b2c0005651cd32bnat;
    let e2 = 2 * e1;
    lemma_power_mod_square(10nat, e1, n, x1, 0x134063168f17d0e69940267e54e71b2c0b77decde182f31d754d5087e602nat, x2);
    let x3 = 0x179738e16c074ddf64c933345fdac5adc620962010c4ddbd6ffecd82e9fenat;
    let e3 = 2 * e2 + 1;
    lemma_power_mod_square_times(10nat, e2, n, x2, 0x1e8d4d1a88eb577a3cadd11af25c86032157a31117379af2e50996e6c1f4nat, x3);
    let x4 = 0xd73314cd205371e1a80071e532d8fd4a471bd50c5eee2c612003e5b2685nat;
    let e4 = 2 * e3 + 1;
    lemma_power_mod_square_times(10nat, e3, n, x3, 0xbb425808371bb32b08057838c60e42a6c1798c51ff3cd3f519019e251b79nat, x4);
    let x5 = 0x6310e90f1222e3d11e6c204484e980677a6ef5a073a93a376ddf00e9fc9nat;
    let e5 = 2 * e4;
    lemma_power_mod_square(10nat, e4, n, x4, 0x61645f8ddca96f1fa4140438b2782fcf97161a7e4e5d64dc2bd1768a2f0nat, x5);
    let x6 = 0x1d1c4b0d13a4d586818e123cea58094084eb4c57d040c8cd8b05cfe58cd6nat;
    let e6 = 2 * e5 + 1;
    lemma_power_mod_square_times(10nat, e5, n, x5, 0xce6418230df2784f31deb3c62bdb7e7e9b51dcf587160369ea5705a3bbcnat, x6);
    let x7 = 0x5c4609e6b8b56054be3270b5bb209a780c6759c6d4263506388fbedb814nat;
    let e7 = 2 * e6 + 1;
    lemma_power_mod_square_times(10nat, e6, n, x6, 0x11d244de7edbad2dbaef890b7c287c63b76673ca46688312eee02a1c0d63cnat, x7);
    let x8 = 0x14bbe4949dbf5cd1876eeb6fe8ebd032354d8aab7cb75d5cda10adf9e7d1nat;
    let e8 = 2 * e7;
    lemma_power_mod_square(10nat, e7, n, x7, 0x11e7e824d1c109bce0a7fbe78e73bd2f6559e4e49d74e5742361376910dnat, x8);
    let x9 = 0x15a5bfd483c397c5478e3fa0c5822935263edff2600667c37dbbf4ae3b6anat;
    let e9 = 2 * e8;
    lemma_power_mod_square(10nat, e8, n, x8, 0xe771951d7c87bd72fa556d27a99913e374222c41e5095c7c1c7053801f5nat, x9);
    let x10 = 0x189cdb74f873a4e08d3321c0125be51ee8a78da7900bc468bb3e961ffeb5nat;
    let e10 = 2 * e9;
    lemma_power_mod_square(10nat, e9, n, x9, 0xfc4975717bef9fe2acafb473efda6a24c65f0961d178f4a113bb080045dnat, x10);
    let x11 = 0x15d84a9a52a93dd01b0d411b2b7574adbba7fa545c6f204031b462232b1anat;
    let e11 = 2 * e10 + 1;
    lemma_power_mod_square_times(10nat, e10, n, x10, 0xcbd5f2d0265e89c10b5ada40196dfdcb10b920b7b8910c07f13174d503e0nat, x11);
    let x12 = 0x52fa1b26a60c7318495b040a02a831e30090430497ea925427b4fd5732bnat;
    let e12 = 2 * e11;
    lemma_power_mod_square(10nat, e11, n, x11, 0x100e8e68d8717c56ff0d77ef89a83b3d1a23277bc1c7f684e14f5fc7591bnat, x12);
    let x13 = 0x9b350930d9585c2b4e2185eadbaa9d48a556507dfcf2c8a6bae925b9245nat;
    let e13 = 2 * e12 + 1;
    lemma_power_mod_square_times(10nat, e12, n, x12, 0x90cbbedd5083b02cdd27f70d6c47ee7dc0d836d1705e38de36735c60bcfnat, x13);
    let x14 = 0x1c73ac71273fae967b53e703f70769c8ea8f5a0b6444ae8981a65819a497nat;
    let e14 = 2 * e13;
    lemma_power_mod_square(10nat, e13, n, x13, 0x32a8f0fdb3a9c73ad92ad21f8c4f93d979f2ffafa4b0f631092f7096666nat, x14);
    let x15 = 0x572696b84bfaa65b4e2637089d1cd551e6d561c82250d7478d1283addc0nat;
    let e15 = 2 * e14;
    lemma_power_mod_square(10nat, e14, n, x14, 0x1b3d0970a4dc9609b6edec634bf450b496252b02448836474a12347c4923nat, x15);
    let x16 = 0xa69455f1e6507a5051e254e14a58fc09959bb56c5471ceaa1e00d06f192nat;
    let e16 = 2 * e15 + 1;
    lemma_power_mod_square_times(10nat, e15, n, x15, 0x9fba901c8d6d3e556f60826499bf8cdc870c7202fc289f81068c7f11feanat, x16);
    let x17 = 0x15f0c0ddf456503c49120ba3db05026ab86e9d2207c72f3085da4ff0d4c5nat;
    let e17 = 2 * e16 + 1;
    lemma_power_mod_square_times(10nat, e16, n, x16, 0x2478ec26a8cff5642a06aef16864870244c76d55fc44a3c4cb30d2fe2639nat, x17);
    let x18 = 0x10d9d372c699bb7f8facf07dcab667cea2392c151a08c120f014c20d9canat;
    let e18 = 2 * e17 + 1;
    lemma_power_mod_square_times(10nat, e17, n, x17, 0xa1f9f5b312520747bc3460c6b42d7fb812ef4a8c5fa04ab8ee6d422d0f90nat, x18);
    let x19 = 0x5f523e6ae4bf0b5e329ef5143743a586134eadbb83ae1cd5d6c4ef68847nat;
    let e19 = 2 * e18 + 1;
    lemma_power_mod_square_times(10nat, e18, n, x18, 0x5f8b6ceb537a7f75531e78ed0a6130939e189c752c6422b206a94a4b13nat, x19);
    let x20 = 0x100625c2a624d27c82357a7fa07e9fd65e51ede9e21ff5214171923294a4nat;
    let e20 = 2 * e19;
    lemma_power_mod_square(10nat, e19, n, x19, 0x131bb553671ef041bfee6a2e285e1a292e4337cfde5c65093b0be342f97nat, x20);
    let x21 = 0x1c23bc4d399a63e4d6492846c2aed66334deed629d20c3aec8ea3518e8f3nat;
    let e21 = 2 * e20;
    lemma_power_mod_square(10nat, e20, n, x20, 0x8a3c9cd816e8cbe4f9c6d2b6a592cf3837af6195fa54598c8f699e2f5c7nat, x21);
    let x22 = 0x1a6693ecc6f2e13f7b2b686ecca5108d98cb4b51f63de480687e857fc9adnat;
    let e22 = 2 * e21 + 1;
    lemma_power_mod_square_times(10nat, e21, n, x21, 0x10a7030fad7e07a2929556d4ed853cf0e757f4a214e677b5bc0c078cc0737nat, x22);
    let x23 = 0x1510c50425d3ebaac8112f0b93a7befb598ffe5806c7b47764b46463d1cdnat;
    let e23 = 2 * e22 + 1;
    lemma_power_mod_square_times(10nat, e22, n, x22, 0xea86c044163645df682ea69f73e5981dc4bf3ac845bf5ad238650ea15857nat, x23);
    let x24 = 0xf288d1e86384db4e8605a6e41f943c13b5f7148500d51f860f8246c237cnat;
    let e24 = 2 * e23;
    lemma_power_mod_square(10nat, e23, n, x23, 0xeee79cc1abf585de92436e21f23a951d6d562cbe325bd02aac1cd344077nat, x24);
    let x25 = 0x1cf0f8a2918130a407be1a3ca537724e6dbceefe453e208d849e5f595393nat;
    let e25 = 2 * e24 + 1;
    lemma_power_mod_square_times(10nat, e24, n, x24, 0x4d50d4096e016d94caf57ecd7f8145d99ead862eb0ff47ebe1b19ea6c197nat, x25);
    let x26 = 0xf5abd50ef19914be51cdd922f25a5656d175a913a0f25830087e09910a6nat;
    let e26 = 2 * e25 + 1;
    lemma_power_mod_square_times(10nat, e25, n, x25, 0x119d614e8784c32e6e339eb3331597f2c917c0605163bfde352c8e477741cnat, x26);
    let x27 = 0x85e497e5c6da8eaaa476207304beff8caa4f1b9a4eab6dd9097fb30d383nat;
    let e27 = 2 * e26 + 1;
    lemma_power_mod_square_times(10nat, e26, n, x26, 0x4f541c8d1903d93109ab95e613598a0ab23c78a63fed34b8a2705ecadd9fnat, x27);
    let x28 = 0x120457def0a619037d77a72e7bb8cbb1e6c85177b9233377827a2a268c94nat;
    let e28 = 2 * e27;
    lemma_power_mod_square(10nat, e27, n, x27, 0x25b388a1342cdd9d65500395aa6d374ccd417b74730f3b3414a77649f4fnat, x28);
    let x29 = 0x1cbbbbe48227a29030fa6762558f3c897623b04779b6df360f681f09206bnat;
    let e29 = 2 * e28 + 1;
    lemma_power_mod_square_times(10nat, e28, n, x28, 0x6d39be5dbf7d6534a28533c95d6db8675c9337e56d0a07fe9a82b3064f8fnat, x29);
    let x30 = 0x1a8ff86306e315c98fb811f59db8bbd6152b7929a4e4c3ddd364def5cbe3nat;
    let e30 = 2 * e29;
    lemma_power_mod_square(10nat, e29, n, x29, 0x1bc7b18f08000679aa73115e63ec942e2189aa5d50e5f29490ad72996aa2nat, x30);
    let x31 = 0xce7d74aceadeabac656d42a58fcad98d0b7ee50e6cde780f035ae06a65enat;
    let e31 = 2 * e30;
    lemma_power_mod_square(10nat, e30, n, x30, 0x17bda412e5619f8ff2eefcffd1818c504404e48c423140cfab925a2b4ad1nat, x31);
    let x32 = 0xf92df650c2749202e24ff439429f387d166296193831415fa85127446eenat;
    let e32 = 2 * e31 + 1;
    lemma_power_mod_square_times(10nat, e31, n, x31, 0x380af0a62373396027c51c5e0cd20f87a7cae9e0a77ef531c68693b9f18enat, x32);
}

proof fn lemma_power_205115282021455665897114700593932402728804164701536103180137503955397371_over_5_part_2()
    requires
        power_mod(10nat, 0x17c684d84b629e6e9nat, 0x1db8260e5e3b460a46a0088fccf6a3a5936d75d89a776d4c0da4f338aafbnat) == 0xf92df650c2749202e24ff439429f387d166296193831415fa85127446eenat,
    ensures
        power_mod(10nat, 0x17c684d84b629e6e9ee66d3fdnat, 0x1db8260e5e3b460a46a0088fccf6a3a5936d75d89a776d4c0da4f338aafbnat) == 0x4f095345003ad1855eac54da6b4774c81d0192d66b04a53b83ea5ed05ddnat,
{
    let n = 0x1db8260e5e3b460a46a0088fccf6a3a5936d75d89a776d4c0da4f338aafbnat;
    let e0 = 0x17c684d84b629e6e9nat;
    let x0 = 0xf92df650c2749202e24ff439429f387d166296193831415fa85127446eenat;
    let x1 = 0x182400940f0fdac980e9ec33361fdc5087f1f2d01c26bc63e0d26257fc71nat;
    let e1 = 2 * e0 + 1;
    lemma_power_mod_square_times(10nat, e0, n, x0, 0x519c4667adbbc04908f53f17a5f8a5663f27669eb41e297d72c192d3e2f5nat, x1);
    let x2 = 0x123b5266099a27e78a163322476bf4d22690d3bbeec0e91b3ab6721a4d42nat;
    let e2 = 2 * e1 + 1;
    lemma_power_mod_square_times(10nat, e1, n, x1, 0xc4175f0cc1a09041397a85af7a0d832a6dd050935225632e8a01170b8a18nat, x2);
    let x3 = 0xbfc62615d6c916f2666ccf2a2f95e053a7fff645870bc55c8c57d9849b5nat;
    let e3 = 2 * e2 + 1;
    lemma_power_mod_square_times(10nat, e2, n, x2, 0x6fd8517edab4f794ce52223a885ac50cb7faf48e21e6912e3312f3793ee9nat, x3);
    let x4 = 0x489e7b185c941c6480ea7463eaf79f30c61448ff9734b8497c22ffbffnat;
    let e4 = 2 * e3;
    lemma_power_mod_square(10nat, e3, n, x3, 0x4d57c936f4d3048f23ada5079aa7fc07c96be8a71c0a13ad2767f74f8cenat, x4);
    let x5 = 0x18d255ae32d3b7356fbbdff60c238fc19bf0baf2fc04b4a22e61c0a92c0dnat;
    let e5 = 2 * e4 + 1;
    lemma_power_mod_square_times(10nat, e4, n, x4, 0x6ee71a80db247cfe5f28ded4090d060aec24d1b54def86d337fbb67nat, x5);
    let x6 = 0x1d38d05fddd2ce411ace79a1d2399a1e54aa8a9530e8d47012125708c226nat;
    let e6 = 2 * e5 + 1;
    lemma_power_mod_square_times(10nat, e5, n, x5, 0xcf4f7a58df77e2d63fd044985e2408544ef7e7b4760abecfb7e50f6bf31cnat, x6);
    let x7 = 0x15be4563ce5d08dd5c9466a46d00be75ddede775734e23251d5a6f07727bnat;
    let e7 = 2 * e6 + 1;
    lemma_power_mod_square_times(10nat, e6, n, x6, 0x11f541aadafcdc1924958c405a60caee42befb127f3e47898dfd9d4bace37nat, x7);
    let x8 = 0x3031816be3743f04bdee1c3d17cf69e01f85748544027870f7c25fe9407nat;
    let e8 = 2 * e7;
    lemma_power_mod_square(10nat, e7, n, x7, 0xfe864addfa308519dac8956b248acad68999670993860440051f21bcc96nat, x8);
    let x9 = 0xab97aadc1e3091af65584d0f96222c273766be6959cc690d97c181160e4nat;
    let e9 = 2 * e8;
    lemma_power_mod_square(10nat, e8, n, x8, 0x4e26b66a102b73c893e6ee2801fe6344eb690091cb20ffc3fb89d71457nat, x9);
    let x10 = 0x1256e187d1bd859439c883e8e54d107b148b2b8bec041298895ec0b5bc04nat;
    let e10 = 2 * e9 + 1;
    lemma_power_mod_square_times(10nat, e9, n, x9, 0x26b358933afb4f03ef3a7004053d24f600dba3f5f04c220758f34860d514nat, x10);
    let x11 = 0xb76f48a8fc52a9f846acb41e546ff25a3e4f63f2b1faeca187f687395fcnat;
    let e11 = 2 * e10 + 1;
    lemma_power_mod_square_times(10nat, e10, n, x10, 0x712b72615b8fdf8140498e90e671846aeda427e478b4c0dfea50239abeacnat, x11);
    let x12 = 0x3b14905d8be4add852acf6050e6d278537d27c48216ce4ab73d045de861nat;
    let e12 = 2 * e11;
    lemma_power_mod_square(10nat, e11, n, x11, 0x46c33c003f6ec51a2b6b65af3f4933150deec3300a1e5e60e0cb01fd7ddnat, x12);
    let x13 = 0xd2332b2701bc5c4a71696a0768b3dfa98ba10ef28c0815b66bc48f2c630nat;
    let e13 = 2 * e12;
    lemma_power_mod_square(10nat, e12, n, x12, 0x7572c462fd5efb1155d96263d80fea283cd1c81c39234d6e0534b216e3nat, x13);
    let x14 = 0xe1354c43ea23cbde1ba9dd6f435d2032c787a679377133c251a1c3ba8bnat;
    let e14 = 2 * e13 + 1;
    lemma_power_mod_square_times(10nat, e13, n, x13, 0x3a1316590ca4a6c6b4e1f2e5c703147f5e95329d2ffd915ee4fe9a1c544fnat, x14);
    let x15 = 0x678f5bc83d62941e79e42dc4fc1002828e7b46d5e3e6c2201336fa6800enat;
    let e15 = 2 * e14 + 1;
    lemma_power_mod_square_times(10nat, e14, n, x14, 0x42a9e7feba8b0d6661424227d42e1394b10e92d0f62ba191b07956a044nat, x15);
    let x16 = 0x197656c490a5540150d4c8e89aa25ac4d3f4261b8b6ff35cfad1f2493f33nat;
    let e16 = 2 * e15;
    lemma_power_mod_square(10nat, e15, n, x15, 0x168dd7e2bf4e19b1e26c94e194e36a901a80e325a0046c5754ace8e5fe3nat, x16);
    let x17 = 0x4ee0c1e49250cb4225fb3b619c56ccd62e89be7b1904db466ef0629be9dnat;
    let e17 = 2 * e16 + 1;
    lemma_power_mod_square_times(10nat, e16, n, x16, 0xda265cb3f8aed6cd1f9e2009ba71975a11689609d9405132deee64caa067nat, x17);
    let x18 = 0x184515e5c566ed467c86d6e245f5e008782350cf3cb24630d043eb467aebnat;
    let e18 = 2 * e17 + 1;
    lemma_power_mod_square_times(10nat, e17, n, x17, 0x82d7f2dcebb2d2c5ed0276d26332b6fc4933bfa6423c01416acdf336c9dnat, x18);
    let x19 = 0x1c4b2614f5da2a19a76cce508a37ea59b13123740d10a817a30b3eae3851nat;
    let e19 = 2 * e18;
    lemma_power_mod_square(10nat, e18, n, x18, 0x13d1d3c5f0be808f9064049ab9a2f41a77b22cbbe0b66e847b18bf0175b8nat, x19);
    let x20 = 0xed1ddb2c6f09734345fa988879f7315172bb3c98b4e6c105b699d83b1b8nat;
    let e20 = 2 * e19 + 1;
    lemma_power_mod_square_times(10nat, e19, n, x19, 0x10d5c98c6f1ba075b2f71dd095c6cd6dd7b4c0048278822288906860a6716nat, x20);
    let x21 = 0xe14a76a14a2356db6eccfcf735a04b1a589df7654422849892f7084110cnat;
    let e21 = 2 * e20;
    lemma_power_mod_square(10nat, e20, n, x20, 0x763d7b0d70bac18e11a56e44c1e905e0cf9fd677b75d420cb959ef0835cnat, x21);
    let x22 = 0x5fa9d3a7c28ba9b0e85458bbb21d597f90177c4f0476fdbfb09e75d436nat;
    let e22 = 2 * e21;
    lemma_power_mod_square(10nat, e21, n, x21, 0x6abd8091931a26bb62980d874384b405e6c47e62501c78bcf38f4e03deenat, x22);
    let x23 = 0x98e0fee97337379e7817d831f74bbf192597e6d8dab66b1e74a6c1aa108nat;
    let e23 = 2 * e22 + 1;
    lemma_power_mod_square_times(10nat, e22, n, x22, 0xc074da6f7ddba4c8957586d2e6627fb89bfb288d41bdea7741d13bca0nat, x23);
    let x24 = 0x1b38a5f64a8a6f5dccb253b2946943083b96c9cb641ff60699fafb60cc75nat;
    let e24 = 2 * e23 + 1;
    lemma_power_mod_square_times(10nat, e23, n, x23, 0x1eb839fe271b3871f6a8129c91e7c5163389ace5f15c89dbc96fb8949431nat, x24);
    let x25 = 0x1b571dd06daed5585626177c0e7acc455a82f41c402ec44953773af5320anat;
    let e25 = 2 * e24 + 1;
    lemma_power_mod_square_times(10nat, e24, n, x24, 0xf95502540d256000f2014d955d6d11f313e1474de50f075919ad8fdb9f10nat, x25);
    let x26 = 0x5d87783433ff19b6006bd354f0af0376c61e79d4b44ad2f8f6ab049e8f3nat;
    let e26 = 2 * e25 + 1;
    lemma_power_mod_square_times(10nat, e25, n, x25, 0xfb845f734e6682d882ae5c4807b2fd4736bb1433ddbd1077f156897c9ecfnat, x26);
    let x27 = 0x23744084f79b963dc7607aa45946e4ceb843acb92f4af4d509b20f47396nat;
    let e27 = 2 * e26 + 1;
    lemma_power_mod_square_times(10nat, e26, n, x26, 0xb7f70adbd7d253920ed168264c8f54bb640b4958551436c67c6f606ddccnat, x27);
    let x28 = 0x1ad5c48a4a13016ab34e4c4136b7d7d1391b362c7e23551f30d4dc469507nat;
    let e28 = 2 * e27 + 1;
    lemma_power_mod_square_times(10nat, e27, n, x27, 0x1a6f4794ce87c2b8b339b969d17a77ac9e5e68ec2e8783d7c570fecafd3nat, x28);
    let x29 = 0xfbf1909752f9137b5955610885c255b0a4f3c4a9701456f1390e5f5a667nat;
    let e29 = 2 * e28 + 1;
    lemma_power_mod_square_times(10nat, e28, n, x28, 0xf24e7a038877587678f356a5cc47e72314e99e4e8e51a125cfb066065f19nat, x29);
    let x30 = 0xf8df18e7209902d76337326fb2618d3657419f8a5f6a56185f17ae33ec6nat;
    let e30 = 2 * e29 + 1;
    lemma_power_mod_square_times(10nat, e29, n, x29, 0x536e595c90c53d62ac344e5e38049af7475ff008bb5b5275566fb78325acnat, x30);
    let x31 = 0x12b7035b0089a0da9fefdad4ced2e64e65dd978f0a02eb03c6fd67feb5cnat;
    let e31 = 2 * e30;
    lemma_power_mod_square(10nat, e30, n, x30, 0x82410958fae46ab62abe36eab6a5954832f32c8d28a4de5ff180dd856d8nat, x31);
    let x32 = 0x4f095345003ad1855eac54da6b4774c81d0192d66b04a53b83ea5ed05ddnat;
    let e32 = 2 * e31 + 1;
    lemma_power_mod_square_times(10nat, e31, n, x31, 0x75da076f707033658cb439ac01a7371a420b6e5f13052e3ac9be9e52d9nat, x32);
}

proof fn lemma_power_205115282021455665897114700593932402728804164701536103180137503955397371_over_5_part_3()
    requires
        power_mod(10nat, 0x17c684d84b629e6e9ee66d3fdnat, 0x1db8260e5e3b460a46a0088fccf6a3a5936d75d89a776d4c0da4f338aafbnat) == 0x4f095345003ad1855eac54da6b4774c81d0192d66b04a53b83ea5ed05ddnat,
    ensures
        power_mod(10nat, 0x17c684d84b629e6e9ee66d3fd72bb61e0nat, 0x1db8260e5e3b460a46a0088fccf6a3a5936d75d89a776d4c0da4f338aafbnat) == 0xc6507b3c4889d24f1256432e6a72d6f68f2d11b192f3bf405251977797nat,
{
    let n = 0x1db8260e5e3b460a46a0088fccf6a3a5936d75d89a776d4c0da4f338aafbnat;
    let e0 = 0x17c684d84b629e6e9ee66d3fdnat;
    let x0 = 0x4f095345003ad1855eac54da6b4774c81d0192d66b04a53b83ea5ed05ddnat;
    let x1 = 0x12a8651a5ce3b97890058e46e34ef0aa09daffa520e2fa04a2433de7aeb1nat;
    let e1 = 2 * e0;
    lemma_power_mod_square(10nat, e0, n, x0, 0xd23113882e4e65d8f1f32e2e0b9c9359c4755580eaa7961648952afac8nat, x1);
    let x2 = 0x18172b88bd79ceba02c1235b8049d7dffb430f5cbde753fa5e3239e7cfa5nat;
    let e2 = 2 * e1 + 1;
    lemma_power_mod_square_times(10nat, e1, n, x1, 0x752233d1566890f2454f3dfbd7f20f16ace27f2861f7d50c9cdd21cc475fnat, x2);
    let x3 = 0x48da3f7c8af053bb48418c79d49ce0c3510deff822ccb0d4e6830081f05nat;
    let e3 = 2 * e2 + 1;
    lemma_power_mod_square_times(10nat, e2, n, x2, 0xc3471e7712ca18f7efeceb787d523dcfc8688c162251a4b398248473134fnat, x3);
    let x4 = 0x143e3b798efd2d5b8fdba35ba56c837c0eee96ec83af165940795ba788d5nat;
    let e4 = 2 * e3 + 1;
    lemma_power_mod_square_times(10nat, e3, n, x3, 0x6f9df2ae78244125aa381af8acb5c362eb28fcc75ee21a7cd3bdb3b935fnat, x4);
    let x5 = 0x74d20325a39b49111d120bbbf478a7e694e36d0ce8c6dd3ad81e884c3enat;
    let e5 = 2 * e4;
    lemma_power_mod_square(10nat, e4, n, x4, 0xdc9d683df57b850b0db22aed95fc81e79fdd3c97d469c79194d9379fe01nat, x5);
    let x6 = 0x11cb889ec4a606fa4613738991ebeae2b144cf802f6a18a8bd789211feb0nat;
    let e6 = 2 * e5;
    lemma_power_mod_square(10nat, e5, n, x5, 0x1cb322a88ae391bd8da2e1aa6e1cc461ed531fd043552d8f62eaef0bcnat, x6);
    let x7 = 0x2c75ad9fb9f708869684998dfb0ea34527e9252e71c38a6783f3d503d2cnat;
    let e7 = 2 * e6 + 1;
    lemma_power_mod_square_times(10nat, e6, n, x6, 0x6a8d2f174b9fa93a6f20b0bd59ab0df77b642b9ddf477f28fbb6d3b69e3cnat, x7);
    let x8 = 0xd4075896fae14b5cdc1f97bae0dcbbf28ee6693a915255725f8196b4aacnat;
    let e8 = 2 * e7;
    lemma_power_mod_square(10nat, e7, n, x7, 0x4282d2a37df21549848df35abc73a2f79b02c181a7880ff8ba3dcb496cnat, x8);
    let x9 = 0x18fb552af46cac3cb675346b361967fabf5eab4d9cce4b47b0238110bec9nat;
    let e9 = 2 * e8 + 1;
    lemma_power_mod_square_times(10nat, e8, n, x8, 0x3b16e9468c7bf0318336bf676dc1a007080116ae79f1a75eb726985206d5nat, x9);
    let x10 = 0x2f305582f05303d0b190a46cbe2f0b43b3dcff4756fc7136b431fe4e26enat;
    let e10 = 2 * e9;
    lemma_power_mod_square(10nat, e9, n, x9, 0x14ffda14109b3510b20617890758d9e74d197972d9462bfbd6a3851d18b9nat, x10);
    let x11 = 0x1535197785b255079fab81ecefed0f2f613e8ab221eeea75c6fc64dc0e74nat;
    let e11 = 2 * e10 + 1;
    lemma_power_mod_square_times(10nat, e10, n, x10, 0x2ed45610cf53b4bd8fd3c10e09f6b6432b84ada303f7239e8f1486d185cnat, x11);
    let x12 = 0x1af804c83e43f252e965799d6173d00df0972daaacfa05ffecc4c9bc0b9fnat;
    let e12 = 2 * e11 + 1;
    lemma_power_mod_square_times(10nat, e11, n, x11, 0x9755840d9498c112c5754969f8faf71cf7502724cbfa0ac904513ccfd633nat, x12);
    let x13 = 0xc706dbbd054dcce3813353c83c59b54f2e4a2d287c21b7054bcbf382b41nat;
    let e13 = 2 * e12 + 1;
    lemma_power_mod_square_times(10nat, e12, n, x12, 0xf4ba8e32ef0fae3fa4c665602a62272d381c9328e85e3f86b96a9bf41a8bnat, x13);
    let x14 = 0xff9aa668b255097bbe4ca110c11cd141a68e3be4325274ee85955677997nat;
    let e14 = 2 * e13;
    lemma_power_mod_square(10nat, e13, n, x13, 0x534dbc864fdcf2a9fe4e457faff8784ada49f3ad80eabab9d2d5e94d29enat, x14);
    let x15 = 0x40b02639250b1c5abd841c3760647c20dcd4c6b55c9a25cf8bc12d2c4f7nat;
    let e15 = 2 * e14 + 1;
    lemma_power_mod_square_times(10nat, e14, n, x14, 0x55df7d1643d5bbcadbb89d87d5376116b53b655424db7f13f115d26826a9nat, x15);
    let x16 = 0x50d1ff25ad2960f6e08e840507b5da7057d7e348d2287d9266ef59da377nat;
    let e16 = 2 * e15 + 1;
    lemma_power_mod_square_times(10nat, e15, n, x15, 0x58005b72c05545c2de8c1233e5af65ac2dafd7a29531f020e52be3234a9nat, x16);
    let x17 = 0x117935c46fb52407da8dbf75b22d7a7d6d5955e8e620c346f3b15fb8ccb2nat;
    let e17 = 2 * e16;
    lemma_power_mod_square(10nat, e16, n, x16, 0xdbc975070634405645b527cd33e8f6f3f84b56c20d944c6cd776baebadnat, x17);
    let x18 = 0x197f61fb9bc9146722cd33562945febb406c0da9b3826f808afc263c63c3nat;
    let e18 = 2 * e17 + 1;
    lemma_power_mod_square_times(10nat, e17, n, x17, 0x66bc3b8e0a7353bab3e6c019d7f53c1019c8029c26f6c755a6b40b37609fnat, x18);
    let x19 = 0xadc389e1d8cf7c431c1079f06180b4c9a2c63ce6fb5482c388700889e62nat;
    let e19 = 2 * e18 + 1;
    lemma_power_mod_square_times(10nat, e18, n, x18, 0xdac16fc89d734d11d2b9d862eebeae680515682552dc0274651ed17e3768nat, x19);
    let x20 = 0x5d179f7bb3e1a219ce2c6cb9961993ef29b973265774508c92dcc6d04c2nat;
    let e20 = 2 * e19;
    lemma_power_mod_square(10nat, e19, n, x19, 0x3f7f79c5c15aa403d5587a265424335c72c5c8cd732e7c8fffacd2e8ea6nat, x20);
    let x21 = 0xd2c708ca4c04270d42efe4d31470bc0e84a10e41b039db7d9bd237a944dnat;
    let e21 = 2 * e20;
    lemma_power_mod_square(10nat, e20, n, x20, 0x12399bb3f2669a34075eb57ede9a98f1719e61ceb32dac17793b8b99e75nat, x21);
    let x22 = 0xf1844b3f5a8887c719d4882f2dee4a16ec13997787c2907c2dda9fd8cffnat;
    let e22 = 2 * e21;
    lemma_power_mod_square(10nat, e21, n, x21, 0x5d6e3f7f3af32fc499861aeca8b420463d5a2c8162ed9373583b5c83e5enat, x22);
    let x23 = 0x1204687de4042518540afcf57142695c9deeaa080e3a0f0b98ad2c7c28b7nat;
    let e23 = 2 * e22;
    lemma_power_mod_square(10nat, e22, n, x22, 0x7aab51b633f1b2ca726cd05809f027c4c36dc72b139eb02fbc268a0d5benat, x23);
    let x24 = 0x1524dce1a388e0899177642ae420c4ea3c64404991d72e008b7f8b51f5a8nat;
    let e24 = 2 * e23 + 1;
    lemma_power_mod_square_times(10nat, e23, n, x23, 0x6d3a87e44ddf41406f0de583d209ec8056beb1d4f8a262bc94ba5b53ebe6nat, x24);
    let x25 = 0x19b12dbe6214951dade9ada16a4b9188359ffdd6cb7be942a9e33c9fc6e2nat;
    let e25 = 2 * e24 + 1;
    lemma_power_mod_square_times(10nat, e24, n, x24, 0x966e22cb948fa03d697f7d10d297131c86fa10d2bd741abc4c9fea86447anat, x25);
    let x26 = 0xa4fa68fe0dbe5f63841276348ecd89af4a8c257628c875cc4464b25bfc3nat;
    let e26 = 2 * e25 + 1;
    lemma_power_mod_square_times(10nat, e25, n, x25, 0xde1b2402f0815c268d130a097d9908b1c12ca071c5c0aa249d963c75251fnat, x26);
    let x27 = 0x14f4a2421884ff1c30c161bc43babc260221ca55b34209044308ce0c8825nat;
    let e27 = 2 * e26 + 1;
    lemma_power_mod_square_times(10nat, e26, n, x26, 0x23c647a51b0685401ca2ae1d8e256227db3619b3fff68b75d3e8b2e9e58fnat, x27);
    let x28 = 0x18f131d117b36d621c8b16ab3a869dcddf624b28661f9a1409d639aaeb43nat;
    let e28 = 2 * e27;
    lemma_power_mod_square(10nat, e27, n, x27, 0xec6b196adec5caa69f2ab82e277765f20ddd5777c4d424faf963bf70262nat, x28);
    let x29 = 0x13752b50d6bfa15bc00d430e490f61df63383d895750f2ce62b51487e479nat;
    let e29 = 2 * e28;
    lemma_power_mod_square(10nat, e28, n, x28, 0x14eed24903333468d8e7f539ccd65272d29bf58796a7785ac37b779e6030nat, x29);
    let x30 = 0x755726fab362419f0aefefe85e102ebdb0b4273bee92573c9671cb8b96fnat;
    let e30 = 2 * e29;
    lemma_power_mod_square(10nat, e29, n, x29, 0xcbd3f0d36c0649df8e7884268abdca7a65159a6d05366e780427a222ba6nat, x30);
    let x31 = 0x1470798f10a03554a496f99fed62bbdaf7d5f08af17f5333d9744e1cad52nat;
    let e31 = 2 * e30;
    lemma_power_mod_square(10nat, e30, n, x30, 0x1cf4b2f901aa88d3d8d44fd448d0e29130636a859752ffbb0da3206293dnat, x31);
    let x32 = 0xc6507b3c4889d24f1256432e6a72d6f68f2d11b192f3bf405251977797nat;
    let e32 = 2 * e31;
    lemma_power_mod_square(10nat, e31, n, x31, 0xe0e9d4621544573b3699e414e198df69ea9562edb0a94039ef2687a3477nat, x32);
}

proof fn lemma_power_205115282021455665897114700593932402728804164701536103180137503955397371_over_5_part_4()
    requires
        power_mod(10nat, 0x17c684d84b629e6e9ee66d3fd72bb61e0nat, 0x1db8260e5e3b460a46a0088fccf6a3a5936d75d89a776d4c0da4f338aafbnat) == 0xc6507b3c4889d24f1256432e6a72d6f68f2d11b192f3bf405251977797nat,
    ensures
        power_mod(10nat, 0x17c684d84b629e6e9ee66d3fd72bb61e0f8ac4ad4nat, 0x1db8260e5e3b460a46a0088fccf6a3a5936d75d89a776d4c0da4f338aafbnat) == 0x4d356361a814cbbb81943cd4275607812673f91a6ce4152a1130a2a078cnat,
{
    let n = 0x1db8260e5e3b460a46a0088fccf6a3a5936d75d89a776d4c0da4f338aafbnat;
    let e0 = 0x17c684d84b629e6e9ee66d3fd72bb61e0nat;
    let x0 = 0xc6507b3c4889d24f1256432e6a72d6f68f2d11b192f3bf405251977797nat;
    let x1 = 0x651d9df0307ab7a69b4da3ca1ea3edeae3315b491de65cdd4d22fdbfb5dnat;
    let e1 = 2 * e0 + 1;
    lemma_power_mod_square_times(10nat, e0, n, x0, 0x33b15669c6586f383da1f1a22c42460088f3ddfee082676d4e2af82857nat, x1);
    let x2 = 0x150d6967f174ee3f233aa63928386d6f842d0e29e027e026b9f1f274a467nat;
    let e2 = 2 * e1 + 1;
    lemma_power_mod_square_times(10nat, e1, n, x1, 0xd705063a9b5b6bc98a0e956e87e553a97af182e6f30959a264e9c6f41e9nat, x2);
    let x3 = 0x1c99496c7929f74612cae9f0772c71b3a51c35137ebfb2d0b2c3b9ae4b0anat;
    let e3 = 2 * e2 + 1;
    lemma_power_mod_square_times(10nat, e2, n, x2, 0x95212bacf8e302d0cbb20ef626946462919e82667c57850b39aa58afac20nat, x3);
    let x4 = 0x13864408655bc0a5114ed6f5501a82f63923e2a1022b573852a373fa1c3fnat;
    let e4 = 2 * e3 + 1;
    lemma_power_mod_square_times(10nat, e3, n, x3, 0x1133468de080996ad62f5ba2fb6f84712969ecb6d207c085cd8af765ebeabnat, x4);
    let x5 = 0x11b373a4bb2dd7b7e62a5d773b3760d751d45c3767d829a191b59ae11c05nat;
    let e5 = 2 * e4 + 1;
    lemma_power_mod_square_times(10nat, e4, n, x4, 0x8044b6ea186fc103b3fc06511be6e73e23ed5adb625fc862984903eccdffnat, x5);
    let x6 = 0x982e6b81d9e046ded0a97a965d6ea1b84e312228cf4f58dc33aa5d304c2nat;
    let e6 = 2 * e5;
    lemma_power_mod_square(10nat, e5, n, x5, 0xa8af49cdc19f109d1337290d9e1fad16b60487a7f6ecf1e28bc7e648a55nat, x6);
    let x7 = 0x1a686cf06cef139cfc83c7727d0edf06b83df0ecf1ca74d42d72464b5cf2nat;
    let e7 = 2 * e6;
    lemma_power_mod_square(10nat, e6, n, x6, 0x30b432bc98a54c6a934f31af0be72c3cc8dfc51b003bbfb99f4ee6d9596nat, x7);
    let x8 = 0x1c3a7588a746fe254a9abab4e32a3ccc7c74156f0c0e4a9f1f5e1d2c91d2nat;
    let e8 = 2 * e7;
    lemma_power_mod_square(10nat, e7, n, x7, 0x17772887e5644c0154256997e9007842fea86d632ff5fe9feffec5c7f636nat, x8);
    let x9 = 0xdd1fc82af8c52aed2fa90d3d7b88095c5c6dce2ab39b3fca782f639f569nat;
    let e9 = 2 * e8 + 1;
    lemma_power_mod_square_times(10nat, e8, n, x8, 0x10c1f2f09f04ebda5a30da88ac71be888f0df0afd07b0e1fbe8dded1ab38dnat, x9);
    let x10 = 0xb1134fe943a5b4f00ca3ebc31a3560deab8b1e657c274fcb05527ca3e2bnat;
    let e10 = 2 * e9;
    lemma_power_mod_square(10nat, e9, n, x9, 0x66d4160eaa0ef37f3e0b6af96d0c52f1b2e5ab888c14b2954fcbad7dfd2nat, x10);
    let x11 = 0x7d8570fca18fb13c66930b7bc8401cf982f6dd588bdf4cef1c8f83ec7c7nat;
    let e11 = 2 * e10 + 1;
    lemma_power_mod_square_times(10nat, e10, n, x10, 0x29369c819bda3897639aafe9cf126d79070b3f04f45ac74d3de8c2025ee9nat, x11);
    let x12 = 0x38b19587fd6d7ba356fa99ceddff2ca7a8ccef6656e6e3965b7eef584e4nat;
    let e12 = 2 * e11;
    lemma_power_mod_square(10nat, e11, n, x11, 0x2122562fea9acd16a8cf4df0f83f34d450af4364b5c921ba945e1036dd7nat, x12);
    let x13 = 0x12742dc5961d04517ec4fc7a71cd3048084239049aaace0fcb9f960cc9f9nat;
    let e13 = 2 * e12 + 1;
    lemma_power_mod_square_times(10nat, e12, n, x12, 0x43982777458deebbf66a4e641b61d08e54697497f22d8d91e490abbbd45nat, x13);
    let x14 = 0x5b75d40bd87f86763e30824aeb3f9e1152e89022ea0c227cf39946a5fb7nat;
    let e14 = 2 * e13 + 1;
    lemma_power_mod_square_times(10nat, e13, n, x13, 0x7296290f7286e529cbab82befd6d480d5a304e7b8966dcb556fd7df8d829nat, x14);
    let x15 = 0xbf2d51ee7df4cc78bbf34ced1cff9b4eef93e7ce32eee1869c3c26f25ddnat;
    let e15 = 2 * e14;
    lemma_power_mod_square(10nat, e14, n, x14, 0x119774a2d2198bc24ed6b07d5ee63841b9615d125f5fc7d289027199a9cnat, x15);
    let x16 = 0x337eb8b803c05c24f9141f47127319eccf3de279091a21c70d98e822aefnat;
    let e16 = 2 * e15;
    lemma_power_mod_square(10nat, e15, n, x15, 0x4cdcb49b5e194550a8d424d80598689f5718535516f518313c6b04b9a6enat, x16);
    let x17 = 0x12f395f7a934cd7282e3dffafcf19e2a437feb9534912ae3fc47e8663d81nat;
    let e17 = 2 * e16;
    lemma_power_mod_square(10nat, e16, n, x16, 0x5939d82995848c2e5f746a1805d03eab9cb9173e511a61b543ca1fb6e0nat, x17);
    let x18 = 0x10fe1ef06eb20ba52916b93a8f7e06656c674a9cc6a3eb08a22bab300243nat;
    let e18 = 2 * e17 + 1;
    lemma_power_mod_square_times(10nat, e17, n, x17, 0x78d9badf9044c2511ec746b6ef994222b3f58039d23dfcdc970f4783c8a5nat, x18);
    let x19 = 0x1a11c271ea59432d6fbc555667d78133ac6a455018e53617e32ab412ead9nat;
    let e19 = 2 * e18;
    lemma_power_mod_square(10nat, e18, n, x18, 0x9b7462e866c1785d073c89a4aa406c73ade621a2eda51c178e8d86f1910nat, x19);
    let x20 = 0x52691abc44e0111eda69932c9dfdefd821a6ac252061f4882c89aebd1c4nat;
    let e20 = 2 * e19;
    lemma_power_mod_square(10nat, e19, n, x19, 0x16de207270dfdd87c67a2627cec3d246a3646064dfe1b22fca719f1446f7nat, x20);
    let x21 = 0x11dc9a3198b097c06040140be78913e37b49412afe81062a6b8d3ef719b5nat;
    let e21 = 2 * e20 + 1;
    lemma_power_mod_square_times(10nat, e20, n, x20, 0x8ed369d6172acee0fdc9636c6abb63a4ad484a12eef2fcbb56840d7b4d1nat, x21);
    let x22 = 0x13a20bfb9e7cd1e0173278d4797092ec2232663b6ff1c2a6213ea5c01078nat;
    let e22 = 2 * e21;
    lemma_power_mod_square(10nat, e21, n, x21, 0xabc32743ec9d7632fded804bef1be1e713c886d30ef293f83830a4cf4b3nat, x22);
    let x23 = 0x1449721b06b4e46662dfcdf9d667d30a015a8613ba1246e5bf4c81727f7cnat;
    let e23 = 2 * e22 + 1;
    lemma_power_mod_square_times(10nat, e22, n, x22, 0x81b2c03f70b45cc6b06cfcf0d41cb31719ff8c80d8940024d330a6ede9ccnat, x23);
    let x24 = 0x152c1f56f7a3fb8b8fe27fd7a4582d40720e1f24e825e8466e8b944034c6nat;
    let e24 = 2 * e23;
    lemma_power_mod_square(10nat, e23, n, x23, 0xdd9215cc877a5b2faa8685437bc50b382d1faa2b358e5a10591699f2bbenat, x24);
    let x25 = 0x184fa9964983cca0f6305f2dc25ae3bb0f7b713bd420e6933e504d715418nat;
    let e25 = 2 * e24 + 1;
    lemma_power_mod_square_times(10nat, e24, n, x24, 0x96d580c0fc55a9e8ebc513463cf416b6681a0488127a44b0de14340d74f0nat, x25);
    let x26 = 0x7d395d9dec6bf685afe0dedf68adb668e7086765a42ad1cf08f24b55e77nat;
    let e26 = 2 * e25 + 1;
    lemma_power_mod_square_times(10nat, e25, n, x25, 0xc6df2b4a881d23dfa089ef7ebfd61c4ebab9f41aad80b07bd7bb057879cbnat, x26);
    let x27 = 0x1503b1a28a1b3512fd556e77737f127c434fea42bdd0aa71d41d61addd79nat;
    let e27 = 2 * e26;
    lemma_power_mod_square(10nat, e26, n, x26, 0x20fa3871aed32c3e8da7a3fdc0c841338d4d9b4d8ded76c319bb29e5208nat, x27);
    let x28 = 0x17ef1b57b6c7222d3eefbd958fc02596966be3f25ab7d2b0fd1424ea20a1nat;
    let e28 = 2 * e27 + 1;
    lemma_power_mod_square_times(10nat, e27, n, x27, 0x94979e061591e70e979d0158af70d81a85ec1872b0a5fd0fc9931e72eb8bnat, x28);
    let x29 = 0x137534289dc12794e42c383f932bca901ebdb674e1c5efb4180cc69a14c9nat;
    let e29 = 2 * e28;
    lemma_power_mod_square(10nat, e28, n, x28, 0x13465f4dad36365d842514615e6e888092018fbbb09080bfbae5909447e8nat, x29);
    let x30 = 0x865420775be15bcb7fa3492b83b8dd0249d362ba7adb68dd14165480669nat;
    let e30 = 2 * e29 + 1;
    lemma_power_mod_square_times(10nat, e29, n, x29, 0x7f64ea4ed289516332174bf77e64385d9ad2ee30c5ab7b5bf50976751f73nat, x30);
    let x31 = 0xac71808a7ad0a585fbde0db2cf857d2000db18ba847368c8e9aa08404d4nat;
    let e31 = 2 * e30;
    lemma_power_mod_square(10nat, e30, n, x30, 0x25f27256e370350ceb097420286b1bbc2af14c1502e45f3ee6a91aa3227nat, x31);
    let x32 = 0x4d356361a814cbbb81943cd4275607812673f91a6ce4152a1130a2a078cnat;
    let e32 = 2 * e31;
    lemma_power_mod_square(10nat, e31, n, x31, 0x3e895bf57622b5af6f1858660564ae08657d7e0b8f91e1f2beb47a098ccnat, x32);
}

proof fn lemma_power_205115282021455665897114700593932402728804164701536103180137503955397371_over_5_part_5()
    requires
        power_mod(10nat, 0x17c684d84b629e6e9ee66d3fd72bb61e0f8ac4ad4nat, 0x1db8260e5e3b460a46a0088fccf6a3a5936d75d89a776d4c0da4f338aafbnat) == 0x4d356361a814cbbb81943cd4275607812673f91a6ce4152a1130a2a078cnat,
    ensures
        power_mod(10nat, 0x17c684d84b629e6e9ee66d3fd72bb61e0f8ac4ad485f8aa33nat, 0x1db8260e5e3b460a46a0088fccf6a3a5936d75d89a776d4c0da4f338aafbnat) == 0x77da10feaac956537ff83a25f86ad2c286fc746cf603b52e9f6a8da5551nat,
{
    let n = 0x1db8260e5e3b460a46a0088fccf6a3a5936d75d89a776d4c0da4f338aafbnat;
    let e0 = 0x17c684d84b629e6e9ee66d3fd72bb61e0f8ac4ad4nat;
    let x0 = 0x4d356361a814cbbb81943cd4275607812673f91a6ce4152a1130a2a078cnat;
    let x1 = 0x4a3278cd3eff2525ff9e08780af11df9ab98d4db578a18a38ae9141264nat;
    let e1 = 2 * e0 + 1;
    lemma_power_mod_square_times(10nat, e0, n, x0, 0x7d5d1aa6c6c3f94b2f4cad4370fe05e5122234202d3d723d4c43b404cf4nat, x1);
    let x2 = 0x300d29472ef1db0f12666e79a0d20def837520e510e825e3dc0f8bae7c8nat;
    let e2 = 2 * e1;
    lemma_power_mod_square(10nat, e1, n, x1, 0xb93d84baa0bb39a1248420e1950fbe60c193226f0f26ea533edf4b58nat, x2);
    let x3 = 0x9f231fa5b99e6a5a8101f20736e66dfc259af9075aa87e82f835cba52d8nat;
    let e3 = 2 * e2;
    lemma_power_mod_square(10nat, e2, n, x2, 0x4db103572ca8e993cf1fb29df79ddfc0fe1fefc31d827f4fd9551fefb8nat, x3);
    let x4 = 0x1398bbd6cb6e0ccf0ce9ce56027226d356f349b3b96e8e9fde9449c5bf55nat;
    let e4 = 2 * e3;
    lemma_power_mod_square(10nat, e3, n, x3, 0x354208dc21031cc7ee99e0ca396c4f3503868b26391a2acd810200540d1nat, x4);
    let x5 = 0x12371c73a131bbca21c63626d29f5709e4870f1ecafa459a83673285806anat;
    let e5 = 2 * e4;
    lemma_power_mod_square(10nat, e4, n, x4, 0xcebfb58e776dde5fadfc2295696ac0e4f69d86d6d055fe9985030d4dc3dnat, x5);
    let x6 = 0x11e9d7e5ff1ee02c1ec69ba6a2ef2297f9797df59dc8fd7c46dc98c0bf0nat;
    let e6 = 2 * e5 + 1;
    lemma_power_mod_square_times(10nat, e5, n, x5, 0x6fa4add6b897a0be9169d697caf5fd73692f25cf7ae8871794604b4e8f68nat, x6);
    let x7 = 0xb3fb53e279fdace5ffa8a189fccd6eae37a1ac361ca03515ea753e249adnat;
    let e7 = 2 * e6;
    lemma_power_mod_square(10nat, e6, n, x6, 0xacc22df3c927a3e0d239d184df9dc7806118daf67c8dbee1514dc7589nat, x7);
    let x8 = 0x192bd674d68bf91d321b689afdfc902adf19a99b77cfe766a1b64f88d370nat;
    let e8 = 2 * e7 + 1;
    lemma_power_mod_square_times(10nat, e7, n, x7, 0x2a93c8d2391f2dfbad5b3386cbfa091ce8d6ad4c1cea1ced24f60d3194denat, x8);
    let x9 = 0x1633c80f99503d1751f780b5cbaf0815e57512b254f3470e0018e0c8a6b9nat;
    let e9 = 2 * e8 + 1;
    lemma_power_mod_square_times(10nat, e8, n, x8, 0xd531116061bf9a276add1346fa86d135ceb358bdc4ae08dfbe4a8e40d725nat, x9);
    let x10 = 0x2deced28b429c02d35d1e92f19bfa083a1bf9004eaf2f09cca9b86e42d0nat;
    let e10 = 2 * e9 + 1;
    lemma_power_mod_square_times(10nat, e9, n, x9, 0xa5dd8aa0af6c4cf9b8d4b76f5832810f000d7fd38fdc4850ccbc2f644f2enat, x10);
    let x11 = 0x9d0027ff26535ee4eff48acafe31cfb36669ed36e616e3331e7c833a5d3nat;
    let e11 = 2 * e10 + 1;
    lemma_power_mod_square_times(10nat, e10, n, x10, 0x2c5b09f5e7f7abb9e73ec266b0b2d75125142babb29657545271e72b4f7nat, x11);
    let x12 = 0x1d32823e341e224de465a29737ab0a1daaa6655b7593296082967d050ba0nat;
    let e12 = 2 * e11 + 1;
    lemma_power_mod_square_times(10nat, e11, n, x11, 0x2065fe2ba0e21e702a19da9d61d5bdb4fc3bad6965773e9ba70d473e494enat, x12);
    let x13 = 0x76b4c6b4629dfaf30884d99350dd2f36117f425da90886a3b87f797e1bnat;
    let e13 = 2 * e12 + 1;
    lemma_power_mod_square_times(10nat, e12, n, x12, 0x11ed829ba485c71e7426cf77f267bca0d463de5433ea634ff24619b05a89fnat, x13);
    let x14 = 0xda47b38945fa3bf0b8ee243e82a2762357784187cd0d09ae578fdb638a4nat;
    let e14 = 2 * e13;
    lemma_power_mod_square(10nat, e13, n, x13, 0x1da2415586671d7886f823ff585bda21350917bf11d9da194a1ddd48fnat, x14);
    let x15 = 0x67e6531475b21e846f05f3bb51846978d3a39748c7fa3a81c0cbf51a2a3nat;
    let e15 = 2 * e14;
    lemma_power_mod_square(10nat, e14, n, x14, 0x643349c5e62b296338db2c5cafe0e691f4ab97192541bd382e8b20b57b7nat, x15);
    let x16 = 0x718964d13e537aa9ce09e388f707ecfdd39193ce8f92069659277371d1nat;
    let e16 = 2 * e15;
    lemma_power_mod_square(10nat, e15, n, x15, 0x16b3c920d3fb0ab9cf84b9e57fb643fc485818f881cf10125ca1fb5a468nat, x16);
    let x17 = 0x22fb76f99e78c0d0c27de30e80dce8368f108d70478c67252a600d7af29nat;
    let e17 = 2 * e16 + 1;
    lemma_power_mod_square_times(10nat, e16, n, x16, 0x10f1709c1ea6a73d8539542af1e9d4da675a4709cedd601d5beee9d393nat, x17);
    let x18 = 0x869a3f168ff0bdd1fc318e1cb2bab51d178310bb74e3dbaa13edb4ff6ecnat;
    let e18 = 2 * e17;
    lemma_power_mod_square(10nat, e17, n, x17, 0x292d6006b20d146e7e44d24fac6833b83bb2487f5e8e080583fb96f7dfnat, x18);
    let x19 = 0x137ac0040bdaaa1f7316b6f0d4189fd55eb3aee4f6dd129f61bd8842592enat;
    let e19 = 2 * e18 + 1;
    lemma_power_mod_square_times(10nat, e18, n, x18, 0x17d0509ba64d49472872ceb4180a1a569421f584065e529db1a818cf28b6nat, x19);
    let x20 = 0x8e0e65c6cf0a5af79241ffc98c746bb758f1619d40391fceece61392f34nat;
    let e20 = 2 * e19;
    lemma_power_mod_square(10nat, e19, n, x19, 0xcc48ee1e23b91b1a4bb9aef8e183e2c92b011e9f29ce1288add8ea47230nat, x20);
    let x21 = 0x16df862cfcc02df7d192a0f4e1313d846cb3c222c0d1cf8d9aa0b426ae05nat;
    let e21 = 2 * e20 + 1;
    lemma_power_mod_square_times(10nat, e20, n, x20, 0x1a862f5eb2a316e786879587e18ecb7f65c262bf1a2292bcf3bcbbd01fe1nat, x21);
    let x22 = 0xdf6bc45dcce3115c181f06c3be13962ab6ef4cb4bf6898f5030af14e5a2nat;
    let e22 = 2 * e21;
    lemma_power_mod_square(10nat, e21, n, x21, 0x119aa305c11289bfd7dac269539759ae8ee09d047648a17f3d5d5f8399b5nat, x22);
    let x23 = 0x1254f725caca4a21c0c94724e3c7cb443169a776bb9a2b360317f8deef6dnat;
    let e23 = 2 * e22 + 1;
    lemma_power_mod_square_times(10nat, e22, n, x22, 0x419c1d453320f3a1d7221e6b9e706450721ee85bc455b6663cd397a6d041nat, x23);
    let x24 = 0x129ef244d716af2f44550d4debb4a047f80e24eadfa1d31b56d387dd2a5nat;
    let e24 = 2 * e23;
    lemma_power_mod_square(10nat, e23, n, x23, 0xb4ec7f1dc1997204657dd03a96fa4da6c418e7dc9eed02b6a3c85623a0cnat, x24);
    let x25 = 0xf1e1f389e37db7a45d1635e45cd42bbab3b53afde7f647f1b3c5434d8b3nat;
    let e25 = 2 * e24;
    lemma_power_mod_square(10nat, e24, n, x24, 0xbaac4b2bb29789aecbb26c0d2cd9ec810bd0b7172b54beb4a2d98c012nat, x25);
    let x26 = 0x181e20a9ac4bc89070200035b328390dfa0dbf3a23e57c2ed52eb7ad185anat;
    let e26 = 2 * e25;
    lemma_power_mod_square(10nat, e25, n, x25, 0x7b0a87d7255e050e64e157ccb1ba88e6d734e5e0673b2894555493c753dnat, x26);
    let x27 = 0x1a6edc50be22f11d8950d28e0a99c2ba3f42c6877a845708ac7fc589ac3bnat;
    let e27 = 2 * e26 + 1;
    lemma_power_mod_square_times(10nat, e26, n, x26, 0xc3b7fa6ee07c9754b56fef937c5089b51359a425e6a855b14b2bb3b288f7nat, x27);
    let x28 = 0x1024f50bec424547837e3f693345f1c1e3e338c0aa98a0b50cf40d748b55nat;
    let e28 = 2 * e27 + 1;
    lemma_power_mod_square_times(10nat, e27, n, x27, 0xeb19ffa73e146de76f3358db24e4006039e67ad8404d3a852bfd48a4d4dfnat, x28);
    let x29 = 0x19a8773cf653b6ebf4ce38c8ec573d9400fa8f786e4885194b3be53d2290nat;
    let e29 = 2 * e28;
    lemma_power_mod_square(10nat, e28, n, x28, 0x8c5230c3055627765c26b68b2aff655b8a1bdd9d3061465668a141596abnat, x29);
    let x30 = 0x15f04bc7eaebf9c3530db9db425aeebb97e3c5841d68e3ea288f5aacc14cnat;
    let e30 = 2 * e29;
    lemma_power_mod_square(10nat, e29, n, x29, 0x1626dc0ccf8c2c983f26bb4453a58068e6a1285fd059d880ff70ebcaa0dcnat, x30);
    let x31 = 0xa8ffafc20e70d9d27aacdd27d2e55a6f542aa81d4071e42484a21b5bfcanat;
    let e31 = 2 * e30 + 1;
    lemma_power_mod_square_times(10nat, e30, n, x30, 0xa1f334fb78bec5d5ee5b8925e7082068a1b74c2d90569858b431b0526da2nat, x31);
    let x32 = 0x77da10feaac956537ff83a25f86ad2c286fc746cf603b52e9f6a8da5551nat;
    let e32 = 2 * e31 + 1;
    lemma_power_mod_square_times(10nat, e31, n, x31, 0x258a1aa5f308df619144e45c61a7dee3e8b5794df329d1a2d7838fbe6215nat, x32);
}

proof fn lemma_power_205115282021455665897114700593932402728804164701536103180137503955397371_over_5_part_6()
    requires
        power_mod(10nat, 0x17c684d84b629e6e9ee66d3fd72bb61e0f8ac4ad485f8aa33nat, 0x1db8260e5e3b460a46a0088fccf6a3a5936d75d89a776d4c0da4f338aafbnat) == 0x77da10feaac956537ff83a25f86ad2c286fc746cf603b52e9f6a8da5551nat,
    ensures
        power_mod(10nat, 0x17c684d84b629e6e9ee66d3fd72bb61e0f8ac4ad485f8aa33e1d8f608nat, 0x1db8260e5e3b460a46a0088fccf6a3a5936d75d89a776d4c0da4f338aafbnat) == 0x1325b6ff7ca565b6fdac252cefb9d0d30680746d9c1b0cee234e75a8bc52nat,
{
    let n = 0x1db8260e5e3b460a46a0088fccf6a3a5936d75d89a776d4c0da4f338aafbnat;
    let e0 = 0x17c684d84b629e6e9ee66d3fd72bb61e0f8ac4ad485f8aa33nat;
    let x0 = 0x77da10feaac956537ff83a25f86ad2c286fc746cf603b52e9f6a8da5551nat;
    let x1 = 0xbee1285cfdae2a3997374c0d893aaa23da49e82bb5a090cfdbcb931c8f0nat;
    let e1 = 2 * e0 + 1;
    lemma_power_mod_square_times(10nat, e0, n, x0, 0x12e15f53e8b354d3e6afd9b2e926a4e919e5b19b032df14d9bee621b92eenat, x1);
    let x2 = 0xb2ddb45f1dca4ed7d4744fe7d26bdd1a917e2566a9e282fdb89170fe0d8nat;
    let e2 = 2 * e1 + 1;
    lemma_power_mod_square_times(10nat, e1, n, x1, 0x2fe3b1d52f9229edb1982a57ec0efae9105b23c5b039daf85ae99988f2f8nat, x2);
    let x3 = 0xb4297f1733142ca5d28a5cb9dcdb8f37733baf84847cb969774734cb870nat;
    let e3 = 2 * e2 + 1;
    lemma_power_mod_square_times(10nat, e2, n, x2, 0x2a0d111833059e2edf21d3a2a84cc5839b1cab59d3ddc031c39eaa5b5530nat, x3);
    let x4 = 0x44c35d8300365d68c53bf992c88cc69ac4fd7350cb9c045c07b7b672f88nat;
    let e4 = 2 * e3;
    lemma_power_mod_square(10nat, e3, n, x3, 0x44429f68be49e10205c55d4f2e757634809cbcdada8af4aa5aaff0fcae8nat, x4);
    let x5 = 0x10b2448a033a97dfa28745590cf01ba5ad6ea2f7b9bdc5e8b62ec3b7aa78nat;
    let e5 = 2 * e4;
    lemma_power_mod_square(10nat, e4, n, x4, 0x9f19d007f96e470b608775eff2a0a3bb888b8f3331b0bcbecb716fbed8nat, x5);
    let x6 = 0x17db28e6582863ba3150580b2b46d8c1e2f55a4a74592d9eaff5857bb6e5nat;
    let e6 = 2 * e5;
    lemma_power_mod_square(10nat, e5, n, x5, 0x9614a0422d270b9c2e803ac770cd6cff6848ad28f1a136565581a65d521nat, x6);
    let x7 = 0x8f0473209fc04fc08431f8a79a6c7bc778dadcdd4f81d5118b72474a47enat;
    let e7 = 2 * e6;
    lemma_power_mod_square(10nat, e6, n, x6, 0x13264be63a36e752aeacd133568dd5ac740e151ee40f2440062cf3140e21nat, x7);
    let x8 = 0x8f4feb2f3243458d51f1c591e422ea945c9b0f6134ab1f7b95bb7d12d8nat;
    let e8 = 2 * e7 + 1;
    lemma_power_mod_square_times(10nat, e7, n, x7, 0x1ae2612c34f1bd399b4806fdc4c0b3e260428bedb4d5fbe38baaf99eeaf0nat, x8);
    let x9 = 0x9290b4c4736d50f822cd623e018cd9e0c16e46ef767863c951093ae7ab6nat;
    let e9 = 2 * e8 + 1;
    lemma_power_mod_square_times(10nat, e8, n, x8, 0x1afec8327625b5b8cbb330727214919d5752149bd98968ffa095c4013enat, x9);
    let x10 = 0x9d2c5279183e7de3ad93c9b8dc12968203d9ac2aef6ebb2872b4e9a1c2dnat;
    let e10 = 2 * e9 + 1;
    lemma_power_mod_square_times(10nat, e9, n, x9, 0x1c3c14e843a9ec88cb3bb994d1665b96c5b6b2f81e03326e85acc57d2841nat, x10);
    let x11 = 0x59fa2e01aafc83a94d1b1b84b3baa78711b6291dba0646ac705fdfc077cnat;
    let e11 = 2 * e10;
    lemma_power_mod_square(10nat, e10, n, x10, 0x33f391c6508e90be79919a75b6d138e610223919ffda37db2d1745cadb7nat, x11);
    let x12 = 0xd126d5d53ae2dff70e792969690c9d566a8eb4edc987dd1f9491c3581afnat;
    let e12 = 2 * e11 + 1;
    lemma_power_mod_square_times(10nat, e11, n, x11, 0xaa41f388fed2df398fc9a03000d037b40107ed73d38e7355f3cc6b11203nat, x12);
    let x13 = 0xa56c9d8ccde66576d8603608c1b8bd4dd669c3c45a563ad10686130b117nat;
    let e13 = 2 * e12 + 1;
    lemma_power_mod_square_times(10nat, e12, n, x12, 0x397f2f746f22312d75d1efb92e5b93fa67490d59f42982982408e8dbbf29nat, x13);
    let x14 = 0xe3a0fbe669842b57508cace2e61779fb00c67fbf5e26dc68586ca5f2c6anat;
    let e14 = 2 * e13;
    lemma_power_mod_square(10nat, e13, n, x13, 0x398c9a2291719d3f0bac62b38155a123a21de5781eac6e8541d47fd4a45nat, x14);
    let x15 = 0x5fe15110f24097df42c1dc0176e37702bcfdc31608e8510102b23bf722bnat;
    let e15 = 2 * e14;
    lemma_power_mod_square(10nat, e14, n, x14, 0x6cf796e63457b17362834ba438f345866b63fac76219edb7ca47acf9fdbnat, x15);
    let x16 = 0x84539555cf54687f7f8574607618ba26bf9b79e943eebe781428f9cec90nat;
    let e16 = 2 * e15;
    lemma_power_mod_square(10nat, e15, n, x15, 0x13553cd566bd89e1ffe848e41692456cc61c3cf8e20eedde4f47320c3abnat, x16);
    let x17 = 0xb110c8a780f185159e509ba18121d1734d5817f48a3a98b57b8b0d0f98bnat;
    let e17 = 2 * e16 + 1;
    lemma_power_mod_square_times(10nat, e16, n, x16, 0x1703e3c53005b0e19cd030dba14845c20251a8195c0103268d4a0181b74fnat, x17);
    let x18 = 0x12d7c1cefa2ad5d97fbe956afb6c7f4820507510ae070c1daba7e9766c84nat;
    let e18 = 2 * e17 + 1;
    lemma_power_mod_square_times(10nat, e17, n, x17, 0x29356f394a8bce34b3525b3865f101aab1e4710b71cb0b43a7da956bd0c2nat, x18);
    let x19 = 0xe3790e8fcc6ad8a131a2a8923c9c36dbc7c3f07d705b277b59f71eed16fnat;
    let e19 = 2 * e18 + 1;
    lemma_power_mod_square_times(10nat, e18, n, x18, 0x7777d4615d791bf6ebf38ee1d6d8b315d76a06dc8418a21d775c9e0aeec3nat, x19);
    let x20 = 0xc49ab9cd139a09a0af8ac6a7da1598ae22a35cc6b40a208f688e5d46b9nat;
    let e20 = 2 * e19 + 1;
    lemma_power_mod_square_times(10nat, e19, n, x19, 0x4402dc25485c5bd8728b39704f41cdc989685c945119ff30e286c5461ee3nat, x20);
    let x21 = 0xe94295cb135ab7465d9f2c618c325e0365e35af90ef316ed7f732041376nat;
    let e21 = 2 * e20;
    lemma_power_mod_square(10nat, e20, n, x20, 0x5149c6c249e44f75538fc65f65fe3fa23144c9cf87287af28979675c1nat, x21);
    let x22 = 0x15a17ae86298dc16fd10504379c75caf4526995b192c4ac97f43588574b1nat;
    let e22 = 2 * e21 + 1;
    lemma_power_mod_square_times(10nat, e21, n, x21, 0x47840a9339266c8bc6b539ab8704a08d2489131a39fe47994f152377c3f5nat, x22);
    let x23 = 0x19cc8f08cb0f75ec10e447cb0e2a222453ed6bee5444d8780a96b0287131nat;
    let e23 = 2 * e22 + 1;
    lemma_power_mod_square_times(10nat, e22, n, x22, 0x9d6fbdeaaf8f3a60305969f5b1803d0aabe5989c0e72f4882b1ac7eac07bnat, x23);
    let x24 = 0x13cd40f900601735bf0edaf8588d87fdb7b7e8029b445a0fc64f264bffcfnat;
    let e24 = 2 * e23;
    lemma_power_mod_square(10nat, e23, n, x23, 0x16655a2b15a94699557ac0ad23791605ccfb73694bf27b77d6eb0f01ae16nat, x24);
    let x25 = 0xe3cb50e9b27d6dfbd58f2ea5bdca1efe722bd5b6d25ce8ca2f6f0184471nat;
    let e25 = 2 * e24;
    lemma_power_mod_square(10nat, e24, n, x24, 0xd319b5276a7ecd4e56e1501ad06ec2ff865c009c8594f077b6e7d873bd0nat, x25);
    let x26 = 0x8bf6838e2a43a8cd6f578820e7fc246428e848593472d25275e427c39a2nat;
    let e26 = 2 * e25;
    lemma_power_mod_square(10nat, e25, n, x25, 0x6d202223d5638987bdc46ae29ef42346a77ac8ed2167eb3201dc6753c8dnat, x26);
    let x27 = 0x1a7fd19d957702455e7a41e79cd64f903c5f12903e05bd578e16a64f13cdnat;
    let e27 = 2 * e26;
    lemma_power_mod_square(10nat, e26, n, x26, 0x29327831dd425f33f3cb5430eedc9686e161c9d360185b07874308c5675nat, x27);
    let x28 = 0x10a7b5b1ebd18ba762dd99217a9ddd7d972d341c968d26e39e63b314f976nat;
    let e28 = 2 * e27;
    lemma_power_mod_square(10nat, e27, n, x27, 0x17a0cdbe87b588a2f5a2095b4931017190629f54cab91a33dc7eef0b5ba9nat, x28);
    let x29 = 0x10f81a8316cc9464e2e129cdbcd348f9140647f30119b6c527d3f0db3762nat;
    let e29 = 2 * e28 + 1;
    lemma_power_mod_square_times(10nat, e28, n, x28, 0x5d5668717ffb7ac3353483d4efe83f18c43ae990daa2e739af510dac1ab2nat, x29);
    let x30 = 0x14571da25641862c876c3b402e3f1eedcafdc78bd10dc9ce8bd0503df8f3nat;
    let e30 = 2 * e29;
    lemma_power_mod_square(10nat, e29, n, x29, 0x9b065db29b5539794d7cee7ceeda0e93a2951bc37c75d5eeebba20d44e3nat, x30);
    let x31 = 0x14b71b97cba08a969ec7c1ac212228206fb7bcdd947d8390135af1f7993nat;
    let e31 = 2 * e30;
    lemma_power_mod_square(10nat, e30, n, x30, 0xdebd151f941e693edf683688e7f15e670695923f3067fcb9bfaa6740b62nat, x31);
    let x32 = 0x1325b6ff7ca565b6fdac252cefb9d0d30680746d9c1b0cee234e75a8bc52nat;
    let e32 = 2 * e31;
    lemma_power_mod_square(10nat, e31, n, x31, 0xe706cd7d46c7303174843d0a0f23d211007f706431f868347e497fe95nat, x32);
}

proof fn lemma_power_205115282021455665897114700593932402728804164701536103180137503955397371_over_5_part_7()
    requires
        power_mod(10nat, 0x17c684d84b629e6e9ee66d3fd72bb61e0f8ac4ad485f8aa33e1d8f608nat, 0x1db8260e5e3b460a46a0088fccf6a3a5936d75d89a776d4c0da4f338aafbnat) == 0x1325b6ff7ca565b6fdac252cefb9d0d30680746d9c1b0cee234e75a8bc52nat,
    ensures
        power_mod(10nat, 0x5f1a13612d8a79ba7b99b4ff5caed8783e2b12b5217e2a8cf8763d82232nat, 0x1db8260e5e3b460a46a0088fccf6a3a5936d75d89a776d4c0da4f338aafbnat) == 0x158a63df12455d7ed56aa0b49475c95075680f685a9274cad3fcacf88dc7nat,
{
    let n = 0x1db8260e5e3b460a46a0088fccf6a3a5936d75d89a776d4c0da4f338aafbnat;
    let e0 = 0x17c684d84b629e6e9ee66d3fd72bb61e0f8ac4ad485f8aa33e1d8f608nat;
    let x0 = 0x1325b6ff7ca565b6fdac252cefb9d0d30680746d9c1b0cee234e75a8bc52nat;
    let x1 = 0x4b45593027de1de6a7405dcff11db4def9b5917db47d3d1b3e18745e5c5nat;
    let e1 = 2 * e0 + 1;
    lemma_power_mod_square_times(10nat, e0, n, x0, 0x7b5c5c7d7e205af969c463b6f365792269635dd1e07334de0acc31891d39nat, x1);
    let x2 = 0x1a5aee0e72087cfa3d90cf6569da9d51aecbdd82fcf31a4f6dbdbb46b516nat;
    let e2 = 2 * e1;
    lemma_power_mod_square(10nat, e1, n, x1, 0xbea3f5eb07402141598c74a5eb51e011f89fcc568c2389ed103ad44619nat, x2);
    let x3 = 0x6e22e20c1e0d564e2057f64f67a6cf309720b11d4c4f6736c9c7ceeb75dnat;
    let e3 = 2 * e2;
    lemma_power_mod_square(10nat, e2, n, x2, 0x175f32cd089632ecd4be48bac9a27491ceca8b1b65ebdd6aeb58d6d71ce5nat, x3);
    let x4 = 0xe7dcd6cab64eb4ae9073af00b098ad27942ca0337dcad041dcd386e59e0nat;
    let e4 = 2 * e3;
    lemma_power_mod_square(10nat, e3, n, x3, 0x19826d792b7dfc5e01fe9a21782626298df542c9b92661a64acc3ea256bnat, x4);
    let x5 = 0x10822c74e90a7a5a356ead0165b8176c40c48693ba5af79e7cd179ed9ca5nat;
    let e5 = 2 * e4 + 1;
    lemma_power_mod_square_times(10nat, e4, n, x4, 0x46a9557a516570775a04a6e9296a64efd9f10b74c163d6f374d9b1dab321nat, x5);
    let x6 = 0x2868e81685129fdff5992846256c79f6ad5c27cacb12dd62e7435c42c4nat;
    let e6 = 2 * e5 + 1;
    lemma_power_mod_square_times(10nat, e5, n, x5, 0x5bb38b9494396348014e72c6509b6bbbe14831281ad664b62f13c5d44042nat, x6);
    let x7 = 0x152b8d24951a94a5db9d2ad7b67155c8e079e6013c10ddc6580432641095nat;
    let e7 = 2 * e6;
    lemma_power_mod_square(10nat, e6, n, x6, 0x36f21d639db414c8a961f97b9b761e70533ed9151953a6adebfab781nat, x7);
    let x8 = 0x4df47215ef09236004f5b4f1eaa7e6ff76c7042b93c4be11a8f65a49460nat;
    let e8 = 2 * e7;
    lemma_power_mod_square(10nat, e7, n, x7, 0xf148961d57dd3f03808456edb46adc796416a7f56bf0d0c79cb8d2be7bbnat, x8);
    let x9 = 0xf69d8a4db984c26c095769fdd2deb5bd9fdae044f32f616bb2eaa2b9b5enat;
    let e9 = 2 * e8 + 1;
    lemma_power_mod_square_times(10nat, e8, n, x8, 0x7fcc8b257d5e87a78caf8c3c5372102e00884585a5a887c22316b196446nat, x9);
    let x10 = 0x158a63df12455d7ed56aa0b49475c95075680f685a9274cad3fcacf88dc7nat;
    let e10 = 2 * e9;
    lemma_power_mod_square(10nat, e9, n, x9, 0x7fe736eeac08529e9ae0b96c46f6987a0b7da6d585d50c49f0c76c66da7nat, x10);
}

proof fn lemma_power_205115282021455665897114700593932402728804164701536103180137503955397371_over_5()
    ensures
        power_mod(10nat, 0x5f1a13612d8a79ba7b99b4ff5caed8783e2b12b5217e2a8cf8763d82232nat, 0x1db8260e5e3b460a46a0088fccf6a3a5936d75d89a776d4c0da4f338aafbnat) == 0x158a63df12455d7ed56aa0b49475c95075680f685a9274cad3fcacf88dc7nat,
{
    lemma_power_mod_first(10nat, 0x1db8260e5e3b460a46a0088fccf6a3a5936d75d89a776d4c0da4f338aafbnat);
    lemma_power_205115282021455665897114700593932402728804164701536103180137503955397371_over_5_part_0();
    lemma_power_205115282021455665897114700593932402728804164701536103180137503955397371_over_5_part_1();
    lemma_power_205115282021455665897114700593932402728804164701536103180137503955397371_over_5_part_2();
    lemma_power_205115282021455665897114700593932402728804164701536103180137503955397371_over_5_part_3();
    lemma_power_205115282021455665897114700593932402728804164701536103180137503955397371_over_5_part_4();
    lemma_power_205115282021455665897114700593932402728804164701536103180137503955397371_over_5_part_5();
    lemma_power_205115282021455665897114700593932402728804164701536103180137503955397371_over_5_part_6();
    lemma_power_205115282021455665897114700593932402728804164701536103180137503955397371_over_5_part_7();
}

proof fn lemma_power_205115282021455665897114700593932402728804164701536103180137503955397371_over_29_part_0()
    requires
        power_mod(10nat, 1nat, 0x1db8260e5e3b460a46a0088fccf6a3a5936d75d89a776d4c0da4f338aafbnat) == 10nat,
    ensures
        power_mod(10nat, 0x106599690nat, 0x1db8260e5e3b460a46a0088fccf6a3a5936d75d89a776d4c0da4f338aafbnat) == 0x131b056e5cc441f714192aa702e8ec1b185e4c762f242288463a098095anat,
{
    let n = 0x1db8260e5e3b460a46a0088fccf6a3a5936d75d89a776d4c0da4f338aafbnat;
    let e0 = 1nat;
    let x0 = 10nat;
    let x1 = 100nat;
    let e1 = 2 * e0;
    lemma_power_mod_square(10nat, e0, n, x0, 0nat, x1);
    let x2 = 10000nat;
    let e2 = 2 * e1;
    lemma_power_mod_square(10nat, e1, n, x1, 0nat, x2);
    let x3 = 0x5f5e100nat;
    let e3 = 2 * e2;
    lemma_power_mod_square(10nat, e2, n, x2, 0nat, x3);
    let x4 = 0x2386f26fc10000nat;
    let e4 = 2 * e3;
    lemma_power_mod_square(10nat, e3, n, x3, 0nat, x4);
    let x5 = 0x4ee2d6d415b85acef8100000000nat;
    let e5 = 2 * e4;
    lemma_power_mod_square(10nat, e4, n, x4, 0nat, x5);
    let x6 = 0xf316271c7fc3908a8bef464e3945ef7a25360a0000000000000000nat;
    let e6 = 2 * e5 + 1;
    lemma_power_mod_square_times(10nat, e5, n, x5, 0nat, x6);
    let x7 = 0x35c03d71ec9d3d760f81587c48a90c211cc102bd79fe9b1cdb0a46ed6ffnat;
    let e7 = 2 * e6 + 1;
    lemma_power_mod_square_times(10nat, e6, n, x6, 0x4dab0a28d141c480051950e0089c29b1dfb024378de579fb33nat, x7);
    let x8 = 0x19f27b8a1ccafc9cb9afd962714f823779f59ea68bf27f3ed4a3499aee21nat;
    let e8 = 2 * e7;
    lemma_power_mod_square(10nat, e7, n, x7, 0x6137070effdf321674b563a8224d74a06d301aabf73395ad60d841e5a0nat, x8);
    let x9 = 0x10ef46c1ca245f570ab91515e6e7538c1b6e29b6196eee6486fc0a1fdd54nat;
    let e9 = 2 * e8;
    lemma_power_mod_square(10nat, e8, n, x8, 0x16a76246ce73bfb6f158e7e922ee23e12c1ffebe2bfead8435c3bb0fa537nat, x9);
    let x10 = 0xaae0983802fbdcb5505abf05578121aafe333f84bbf58252ce7102290c7nat;
    let e10 = 2 * e9 + 1;
    lemma_power_mod_square_times(10nat, e9, n, x9, 0x607f47436b37b271101801200a967249165c3a247a0fce1125e33dde513bnat, x10);
    let x11 = 0x145dee780b764830c1816eb68f0040c91ae992e0e0bf03f6e0ea081f928nat;
    let e11 = 2 * e10;
    lemma_power_mod_square(10nat, e10, n, x10, 0x3d67e6c7517971564315c72d4e417b5c57cbaaeb49dac9cf3ac2e151e4bnat, x11);
    let x12 = 0x81facf568455021e5839669b43498b4f6d53aad6bc0933f03f9896bd3eenat;
    let e12 = 2 * e11 + 1;
    lemma_power_mod_square_times(10nat, e11, n, x11, 0x8b938895cbfc2d9c0a3352b8787201ab9fd07e19dd49c1cc11b3863b16nat, x12);
    let x13 = 0xf0950ace696a22473a60a132e4e581a345fab5b53dffefd859b9ecb3151nat;
    let e13 = 2 * e12 + 1;
    lemma_power_mod_square_times(10nat, e12, n, x12, 0x1634c2d16ec96b825de467a9829e20b38d625568d6ed3005afa790640255nat, x13);
    let x14 = 0x1cfcca760756848a4398d47e4e7cee95ef829dd60e185931ae56b92fe35cnat;
    let e14 = 2 * e13;
    lemma_power_mod_square(10nat, e13, n, x13, 0x79b8c07b0692b9e5cbe7d6980849c9e3de8ddbe94ba36f7cbeca3eb45bfnat, x14);
    let x15 = 0xba7e28cdb260f5687f34364a843e33c1cb699bb0a055cb0437257e0b85enat;
    let e15 = 2 * e14;
    lemma_power_mod_square(10nat, e14, n, x14, 0x1c460c03b42b12c51eae61d703f3bf71adefee61cbd72c703338c9d27376nat, x15);
    let x16 = 0x934559fc735a3d48c636328de0a569aa81917312fbe797803d66508104enat;
    let e16 = 2 * e15 + 1;
    lemma_power_mod_square_times(10nat, e15, n, x15, 0x2db6aceb8e99338d5d7b2c290d7bd8895ca8b384310edd1b79363758636enat, x16);
    let x17 = 0x12ba0213b52e7b1f66b078d5a2e3cdba11da78e89274701d088193cb5b8nat;
    let e17 = 2 * e16 + 1;
    lemma_power_mod_square_times(10nat, e16, n, x16, 0x1c81d962c850817181d69a03b0fe362d298d22b0fdadd47042da5a56a4d0nat, x17);
    let x18 = 0x4ee62aa1f3ba9bcf4e05f3cb8b0b666df9349db8b40edc83be0d9527768nat;
    let e18 = 2 * e17;
    lemma_power_mod_square(10nat, e17, n, x17, 0xbccc6afe2b3219a3631c086df77884ed0ee347895682af61e0b9c9f08nat, x18);
    let x19 = 0x1a16a26410dbfc3df53e061a734a665ef08883275e199f3d1567eccb1cbcnat;
    let e19 = 2 * e18;
    lemma_power_mod_square(10nat, e18, n, x18, 0xd1763c07ad5211429452ed8b32ce27a544f4ea574243bab52895cb014cnat, x19);
    let x20 = 0x1adeb85e719a1bed467aa8b6831b193ecf9aae95f697229ddaac4c3b2d9dnat;
    let e20 = 2 * e19 + 1;
    lemma_power_mod_square_times(10nat, e19, n, x19, 0xe502d212ccc4c832cfff7a2d60faa61715fc18128b92cf3648b3c4332599nat, x20);
    let x21 = 0xa08a9e0599edf2fef0185751739c560e431b9798326eae30aec638b5627nat;
    let e21 = 2 * e20;
    lemma_power_mod_square(10nat, e20, n, x20, 0x184b39b4a0bda6a6cf6af4789eb9af2117b760aa5f71189994cff78c9ac6nat, x21);
    let x22 = 0x660ab924b12c7300211bf21b1f86f9bfc0b8c9ed993108dd93f92751391nat;
    let e22 = 2 * e21 + 1;
    lemma_power_mod_square_times(10nat, e21, n, x21, 0x21e052cc43989d1b28c7418761cd583fc6a9247c54e3d2a8da47added83bnat, x22);
    let x23 = 0x1d34e2cef3aed73eef01fc38df6d92578ef2084dd405c555d8a089621ac7nat;
    let e23 = 2 * e22 + 1;
    lemma_power_mod_square_times(10nat, e22, n, x22, 0xdafa0ac68a13e6a0c12a122d1e0a07edc7ef00ea8de8fd2557f9517ac19nat, x23);
    let x24 = 0xd8376a492efb40964de76c1d68cae529abcde81b904ae96a79950293d9enat;
    let e24 = 2 * e23;
    lemma_power_mod_square(10nat, e23, n, x23, 0x1cb3e3507da16e47933b7bb00166f5c758786e02cea01a9c4d9320ee7ec9nat, x24);
    let x25 = 0xf8002c065236d2a26dec98edd39dbdc4ce8170e42ea96ac97b656923a14nat;
    let e25 = 2 * e24 + 1;
    lemma_power_mod_square_times(10nat, e24, n, x24, 0x3d725aafe25d45bb575b3210500cec69618f01b6fe6c50c8a32b08d05afcnat, x25);
    let x26 = 0x820e9725d9005371a51d62ade5c705c6f7d84bf5c6fd94ea18c0e883fc1nat;
    let e26 = 2 * e25;
    lemma_power_mod_square(10nat, e25, n, x25, 0x81581893ffcdbedfa71b3a1643758c9032ca323c6b206be0ebb00dffc3dnat, x26);
    let x27 = 0xdc9829f428165caa6c2a8dadec171a34a6272c79c767b46eab9e821f8e6nat;
    let e27 = 2 * e26;
    lemma_power_mod_square(10nat, e26, n, x26, 0x23926f4d09da791f26ab13761537fecfd91bcd5fa679d994d32950ff0e1nat, x27);
    let x28 = 0xe9459a95b1f31f958009531b78348d57af8e5f6c683e48388d300d14d1nat;
    let e28 = 2 * e27 + 1;
    lemma_power_mod_square_times(10nat, e27, n, x27, 0x3ff5d0df86b605b74cb6ec294cb0757f60c93f55d42131dfbf7d0c49f515nat, x28);
    let x29 = 0xe356de97e306c3ef40196db2c6a190212cb7a44f3da6cb02559d3c97174nat;
    let e29 = 2 * e28;
    lemma_power_mod_square(10nat, e28, n, x28, 0x726fd3ebfd373c007db532c396496e16345a489c3fbeb4b104f9a6bf7nat, x29);
    let x30 = 0x51f796ab1ac9cc4a184823d96d748d176e60d6b88294d967c98e8c321a0nat;
    let e30 = 2 * e29;
    lemma_power_mod_square(10nat, e29, n, x29, 0x6cb0ad3433c1a0f01baa69dc2677ad03fc17abb473ac46b0c64375f7dd0nat, x30);
    let x31 = 0x4a666a5e8f98890d956d008f56fff9bff82769e370ce24a04ddf1c4750dnat;
    let e31 = 2 * e30;
    lemma_power_mod_square(10nat, e30, n, x30, 0xe2119ad1fd81c4d4d3bf083313a63fde1692de368bfb0ffef7755aca69nat, x31);
    let x32 = 0x131b056e5cc441f714192aa702e8ec1b185e4c762f242288463a098095anat;
    let e32 = 2 * e31;
    lemma_power_mod_square(10nat, e31, n, x31, 0xba413cd1adf2c6ce75b43ffbdfdb0fbf44b8af9d5cf09dffe232197abdnat, x32);
}

proof fn lemma_power_205115282021455665897114700593932402728804164701536103180137503955397371_over_29_part_1()
    requires
        power_mod(10nat, 0x106599690nat, 0x1db8260e5e3b460a46a0088fccf6a3a5936d75d89a776d4c0da4f338aafbnat) == 0x131b056e5cc441f714192aa702e8ec1b185e4c762f242288463a098095anat,
    ensures
        power_mod(10nat, 0x1065996907da14fcdnat, 0x1db8260e5e3b460a46a0088fccf6a3a5936d75d89a776d4c0da4f338aafbnat) == 0x199d2e61eddcf12fc75d264785fd74dc10c66939869f8430272b038338c8nat,
{
    let n = 0x1db8260e5e3b460a46a0088fccf6a3a5936d75d89a776d4c0da4f338aafbnat;
    let e0 = 0x106599690nat;
    let x0 = 0x131b056e5cc441f714192aa702e8ec1b185e4c762f242288463a098095anat;
    let x1 = 0x157f21be9cdb48f6962dc0638cabad9d20e754c70efcd5597ecdabf70542nat;
    let e1 = 2 * e0;
    lemma_power_mod_square(10nat, e0, n, x0, 0xc48459f81dca0f48930e94cab1a6395d2c3eacc124c952bc64f419d86nat, x1);
    let x2 = 0xeffdbf15a023768aa0133d9af58a43c29a2307b90c728e3c4529c8111e7nat;
    let e2 = 2 * e1 + 1;
    lemma_power_mod_square_times(10nat, e1, n, x1, 0x9b7d4b62da5246f3adafcf12984585a6355744c6d858f9a60ca27496fcf3nat, x2);
    let x3 = 0x9906bc67dd628f717ca2eb8efb303f492530d63b4cb9273e8ed4080badfnat;
    let e3 = 2 * e2 + 1;
    lemma_power_mod_square_times(10nat, e2, n, x2, 0x4bb3e72b7b87959016ba44d72a48eac4cdbd0f3d316c56d8c429d6659ab1nat, x3);
    let x4 = 0x1ca379422e227c15fbb3699cbd3baa2953e36836d1af07bc4ba26018e251nat;
    let e4 = 2 * e3 + 1;
    lemma_power_mod_square_times(10nat, e3, n, x3, 0x1ec766a523f8e2fd27180d02d465bb4141d849eeba727038b5b46f921f5bnat, x4);
    let x5 = 0x1699b390e55e35954212119f909effaade82f1969a7a618580948be5879nat;
    let e5 = 2 * e4 + 1;
    lemma_power_mod_square_times(10nat, e4, n, x4, 0x113f899ef833b741643cb0be0168f535d2d10ae933b4030b288195f4136a3nat, x5);
    let x6 = 0x182a39e975c9b54520e4b2be3ecbc2f4598f3068432a11032887901793enat;
    let e6 = 2 * e5 + 1;
    lemma_power_mod_square_times(10nat, e5, n, x5, 0xabde02e2850be4f5d0ce88ba2ff90b121f4495d692f6e3f81708fc2844nat, x6);
    let x7 = 0x6c9af6bf977f62c6ae5cbcb4a5119e4a0d36d3975e970b1207cd089a92bnat;
    let e7 = 2 * e6;
    lemma_power_mod_square(10nat, e6, n, x6, 0x13a60db296cbe6d881fc0ac392e593dba00736aed4d08b717ea3c8ae3bnat, x7);
    let x8 = 0x7c3121874c163c765a8efb0844cb12f6bc0f4aea6898df5795404cb822cnat;
    let e8 = 2 * e7 + 1;
    lemma_power_mod_square_times(10nat, e7, n, x7, 0xf80d6352a2ad1a2b9ec643d06884836089a47006ab130cddc33647f48canat, x8);
    let x9 = 0xf73854181578664036106b37ea7fe47966afca43e83ea9dbdc5ee02f6cdnat;
    let e9 = 2 * e8 + 1;
    lemma_power_mod_square_times(10nat, e8, n, x8, 0x1445c3b025d056b15dfbaa925ef1e07e8cd6ab05dfb3710da10b6cebf609nat, x9);
    let x10 = 0x176b8aaa25f73fb33608c69d09a7f847594942214c975a7d04ae7f8aaccdnat;
    let e10 = 2 * e9;
    lemma_power_mod_square(10nat, e9, n, x9, 0x8087f7e6b5e79f171f86fa63173c2ab603d02ed934356fdca62b3483b54nat, x10);
    let x11 = 0x11be406b07bdf19f81a2b335968c144b3a1e2bbbbfe4503760e1837ff35nat;
    let e11 = 2 * e10 + 1;
    lemma_power_mod_square_times(10nat, e10, n, x10, 0xb88f64e28dba0f84c041a369ca2e04cd092c1fe8778cc1d96f87dfa8521fnat, x11);
    let x12 = 0x9563a018e793791d62947401c0a38d0f3d6ca0c803a206a4b136780c423nat;
    let e12 = 2 * e11;
    lemma_power_mod_square(10nat, e11, n, x11, 0xa97d5f6fcb2721aaf5e2b567ad65f1759efefe0f9f18a112d0f4adea2nat, x12);
    let x13 = 0x1d58f7fdc3bfb26033cd3ba0bcd6f1514b83ef0b6486865603b2a205bf36nat;
    let e13 = 2 * e12;
    lemma_power_mod_square(10nat, e12, n, x12, 0x2eeedf290bdb59e9db3e252771ca9c26949947d771bf9642763655a9449nat, x13);
    let x14 = 0x154f1f8454eef3346b436ffe48a1ea87c8d28dad33185b638842700b6d06nat;
    let e14 = 2 * e13;
    lemma_power_mod_square(10nat, e13, n, x13, 0x1cfafac096287936bb70cdae604e0f739d626c46a2317403c81b02c068banat, x14);
    let x15 = 0x9f169a59628d4ad85d8d3e8a7b494cf4714ac648b0c9f91b3271149cbe1nat;
    let e15 = 2 * e14;
    lemma_power_mod_square(10nat, e14, n, x14, 0xf476189e01498b8f6fa2a7441703dcbbedbe089b9fabc44a695ebf86d59nat, x15);
    let x16 = 0x3db86305ece25e483507c200bc5442b08a3ef587418155ca2d2fb76bb96nat;
    let e16 = 2 * e15 + 1;
    lemma_power_mod_square_times(10nat, e15, n, x15, 0x214408dc0fe717078a472b08c3b071332a9959c3cb66f8f845a6955d2b9cnat, x16);
    let x17 = 0xb2014c5f1e725f0d47405818444abe361fce6fc80fa82f01c51258c9882nat;
    let e17 = 2 * e16;
    lemma_power_mod_square(10nat, e16, n, x16, 0x802dcb488aafe0b760011b1c1c58633a579af05d9f174c5fbc1605ec86nat, x17);
    let x18 = 0x844b0421611664fd2542dee58fa0a0e2f746ed4797197d35d840263ca59nat;
    let e18 = 2 * e17 + 1;
    lemma_power_mod_square_times(10nat, e17, n, x17, 0x29a5ae9c0a13ba473d83e04fc2ea7901c881d379a8a869d1c2a88967a43dnat, x18);
    let x19 = 0x46a79d53ee326dfa17376f6ccd81a14310bbc0f5d73ad923bdf69388fecnat;
    let e19 = 2 * e18;
    lemma_power_mod_square(10nat, e18, n, x18, 0x24ce41853696de4190eb109a35c197e72843981034b82cdbe5982f4a9ffnat, x19);
    let x20 = 0x1272ec683dc9affbff6d1d694201aa8fd705e9f1a00d0d7d14648f4ee07fnat;
    let e20 = 2 * e19;
    lemma_power_mod_square(10nat, e19, n, x19, 0xa7f97fde377357989b4950964b3469a3772fc373110df812880889e663nat, x20);
    let x21 = 0x12dc5472de27ac9619824071ce8011d039209fc14eab57a9d28afe3fe3ednat;
    let e21 = 2 * e20 + 1;
    lemma_power_mod_square_times(10nat, e20, n, x20, 0x728692a60fc7657ee4b62ab333f070902e0d6f99e7e46b6e6cda5f7c2bc7nat, x21);
    let x22 = 0x135f22edc04b53bbc383c4666ba72b33a3a4be69205d702a638435e4fa3enat;
    let e22 = 2 * e21 + 1;
    lemma_power_mod_square_times(10nat, e21, n, x21, 0x77b1d7b8a58aad2a7ee263b1a869ec64b22252f274c0e36f2f0134f764d4nat, x22);
    let x23 = 0x11ad03a28c4c91d6e3f83be13a5dd9d8b08d3c1139bccb87d7abf0fc0e26nat;
    let e23 = 2 * e22 + 1;
    lemma_power_mod_square_times(10nat, e22, n, x22, 0x7e4498ef9a8ac13840c558b096cc3ae1e09215d57dbb1dd032230bfa8866nat, x23);
    let x24 = 0x1bf1f0806509c5b938b80c4f967062b0a7a78a9b37644b2ff1c674ee93c2nat;
    let e24 = 2 * e23 + 1;
    lemma_power_mod_square_times(10nat, e23, n, x23, 0x6920ecd3ecb9f601348ee76756b9b8f665bae0392752d16b83cab89e5d12nat, x24);
    let x25 = 0xca2a4feba2ce71c8e35b8c422c24fd047dbfb36417506a363cbd090eeb8nat;
    let e25 = 2 * e24 + 1;
    lemma_power_mod_square_times(10nat, e24, n, x24, 0x106c47795f6e2823dd8facdc66739a752a4934eb58affa0ed5964bf08bb50nat, x25);
    let x26 = 0x666b6a1fdbda49c96c81e7842d99686f18f34572f5d5ef211193a184720nat;
    let e26 = 2 * e25 + 1;
    lemma_power_mod_square_times(10nat, e25, n, x25, 0x35b842fd0a62c0b2262d6d3190c2079fb67f9bb8408f98847be0153b0c20nat, x26);
    let x27 = 0x1cdc428a2443192e6f8f1ca6baa1c687c6ef57b26cfe3ba255fccfb0fbc8nat;
    let e27 = 2 * e26;
    lemma_power_mod_square(10nat, e26, n, x26, 0x160f61449bd2c5d55d0f9a50e6baebc60afc6a707702f28cb1ee1c86328nat, x27);
    let x28 = 0xe55c4959c60ec1e249fe407e8cde3ef760d7076658951f6159d8127c513nat;
    let e28 = 2 * e27;
    lemma_power_mod_square(10nat, e27, n, x27, 0x1c06b9f22634e278f34521ef8a0e50a946e0a891d50416753ffa1e09fdf7nat, x28);
    let x29 = 0x1cdca941d7dd7a579bae957fbd9a926605b5b1d8caaaceda34d898a50b53nat;
    let e29 = 2 * e28 + 1;
    lemma_power_mod_square_times(10nat, e28, n, x28, 0x45250439f1beb64a7f62eaa42f5873c8ac3db7ea067fbe861dab3ad0c1a5nat, x29);
    let x30 = 0x804aaede4258dd909715a347b4c7d9df45e8d3a87737f93f07880cbfaf6nat;
    let e30 = 2 * e29 + 1;
    lemma_power_mod_square_times(10nat, e29, n, x29, 0x1184b0e7d8fa39ba4d4d83c4ce7f5fd8d0d3dfe21bf6317f366b9d08f992cnat, x30);
    let x31 = 0x13f82d7521b33b8107b61f819e32232732810354cba8237c9534fe39b28dnat;
    let e31 = 2 * e30;
    lemma_power_mod_square(10nat, e30, n, x30, 0x229ce8c1dc1d0d428af286f81c38c585ca485407baa3aea8e1195511dd5nat, x31);
    let x32 = 0x199d2e61eddcf12fc75d264785fd74dc10c66939869f8430272b038338c8nat;
    let e32 = 2 * e31 + 1;
    lemma_power_mod_square_times(10nat, e31, n, x31, 0x862e7c1cffb804ea809514fe3ee8585d1c2d88124bf4f6c46d1eeb30ded6nat, x32);
}

proof fn lemma_power_205115282021455665897114700593932402728804164701536103180137503955397371_over_29_part_2()
    requires
        power_mod(10nat, 0x1065996907da14fcdnat, 0x1db8260e5e3b460a46a0088fccf6a3a5936d75d89a776d4c0da4f338aafbnat) == 0x199d2e61eddcf12fc75d264785fd74dc10c66939869f8430272b038338c8nat,
    ensures
        power_mod(10nat, 0x1065996907da14fcd7846ea79nat, 0x1db8260e5e3b460a46a0088fccf6a3a5936d75d89a776d4c0da4f338aafbnat) == 0x150ec4a158f79791b40b518baa0fc83a62a261b60dedfc0cfe6de74083eenat,
{
    let n = 0x1db8260e5e3b460a46a0088fccf6a3a5936d75d89a776d4c0da4f338aafbnat;
    let e0 = 0x1065996907da14fcdnat;
    let x0 = 0x199d2e61eddcf12fc75d264785fd74dc10c66939869f8430272b038338c8nat;
    let x1 = 0x11032a09556ae42a4bc6bb086939bf307f24774a102e9ba8e51a0bd5d231nat;
    let e1 = 2 * e0;
    lemma_power_mod_square(10nat, e0, n, x0, 0x1613642b9293921e947ea28e2e4382b0874370e9ebfc9241f96e7192f0fdnat, x1);
    let x2 = 0xc6fce587002aac09ebe0f6fa436bdac171c99da450e886bc9bb5a73a96nat;
    let e2 = 2 * e1 + 1;
    lemma_power_mod_square_times(10nat, e1, n, x1, 0x6162729f5fe62bc1a018c2334197a8a7eb99162e71530be4bd846bff7b5cnat, x2);
    let x3 = 0x9cfe66f1555c5455aefcc5db7f8cad9881c94fda5e89ca99de994017f0fnat;
    let e3 = 2 * e2 + 1;
    lemma_power_mod_square_times(10nat, e2, n, x2, 0x340b5fb431df1890046a68fc09ec392afe71bd3396c4cf82f99a89283bnat, x3);
    let x4 = 0x56918b09f4f330af82748e99282020cfe10fe39b7e98c015a35b3ec5925nat;
    let e4 = 2 * e3 + 1;
    lemma_power_mod_square_times(10nat, e3, n, x3, 0x206544d79eb6dbbdb21ece212e84d369e9a5928d761437a1e26dee4049dfnat, x4);
    let x5 = 0x10feaf053bd1b77be35d19dbc8bd9ef377f808032e92858a2b4c113e32ebnat;
    let e5 = 2 * e4 + 1;
    lemma_power_mod_square_times(10nat, e4, n, x4, 0x9d9a0ccb3d487954b7adcaee45802158fc1f201a1d263ca77353b8b3e7dnat, x5);
    let x6 = 0x44475512553667a909ebe53b74f06d534320bbf48a496135fb822120eb0nat;
    let e6 = 2 * e5;
    lemma_power_mod_square(10nat, e5, n, x5, 0x9b7eaf497e52c57148d2ca165970fdbd84aa4db737416ce63240b6900cbnat, x6);
    let x7 = 0x6ae72eb7db9e7c1d8f77147a66aa0ed7bb2f521c5134c1006fe3442184nat;
    let e7 = 2 * e6;
    lemma_power_mod_square(10nat, e6, n, x6, 0x9cdddf2b3a949898d25aadf1cd713131e748b73ba11f9cbc3ef5c3edb4nat, x7);
    let x8 = 0xae5459835017d6cc87e85003d5fb3a9021e7543c58ab9b4a94ad05cef3bnat;
    let e8 = 2 * e7;
    lemma_power_mod_square(10nat, e7, n, x7, 0x1808a2bff027ebaca988017a8fb3b027992a55dd5b549206a44a78e6fnat, x8);
    let x9 = 0x135098ddca0926ffb3f173143c3ec7f1213e7d5e775af6c0e109c7033e1bnat;
    let e9 = 2 * e8;
    lemma_power_mod_square(10nat, e8, n, x8, 0x3fe97bce2c792a8f8a5580a0fb4b3caaad847dad24c5fee600fe5d5141anat, x9);
    let x10 = 0xba01be4f453e7ec86a2ea58ce864d3e2eb50b3c7a482ba9198e46f60422nat;
    let e10 = 2 * e9 + 1;
    lemma_power_mod_square_times(10nat, e9, n, x9, 0x7d8755d719fba0f8fd98330df357de84c57e741b9293ebea7778935c3188nat, x10);
    let x11 = 0x130732bb5d0f95385e907d12cf872778a84a2843eb22fa2ab790629c44c0nat;
    let e11 = 2 * e10;
    lemma_power_mod_square(10nat, e10, n, x10, 0x48c2d12837710dfdf21a90a7eefda65068c15b074aaf242d8bb9514a40cnat, x11);
    let x12 = 0x8c0d8a3d76d50d348ad4c143f491000ebc207baa05dbc51ce1a8a6db952nat;
    let e12 = 2 * e11;
    lemma_power_mod_square(10nat, e11, n, x11, 0xc2ed623fae32590d1b7d8b73d1732ea3d1a08d791a78c2d85c7745424aanat, x12);
    let x13 = 0x4e7e4f4b1ebc180390af02d86033932b960f6acacd40086926a84d3b9bfnat;
    let e13 = 2 * e12;
    lemma_power_mod_square(10nat, e12, n, x12, 0x2940076e56d04928e3841323b8e783ebe761a3e86bed78bd9d80cd4967fnat, x13);
    let x14 = 0x1b87db6e6eb202eb7e28f4de1f62067270e974d11da8d5175afb92c8af8anat;
    let e14 = 2 * e13 + 1;
    lemma_power_mod_square_times(10nat, e13, n, x13, 0x8192220911cb70ace79da6f7564db7ac565007c0dd82396dec5eff6d080nat, x14);
    let x15 = 0x10a938a29a2a915c5f6e1f712fdc6c2097eaf0e94642940c4e4baa3f210enat;
    let e15 = 2 * e14 + 1;
    lemma_power_mod_square_times(10nat, e14, n, x14, 0xff08467f11470fa9897946eb3b88823b72810c73c51646c88e79f13a656enat, x15);
    let x16 = 0x98d92b23d362e0ea68b5c909256312c39237d2c0e6122949e84a25920c0nat;
    let e16 = 2 * e15;
    lemma_power_mod_square(10nat, e15, n, x15, 0x957229d3ee3e5aa7e76a059184bb49de1e05480eeb23c75df9d4110f4ccnat, x16);
    let x17 = 0x19fb53d72b14f452be93c5ab1a11e09eaad61812d2d1c6124f45251f671dnat;
    let e17 = 2 * e16 + 1;
    lemma_power_mod_square_times(10nat, e16, n, x16, 0x1eb514cb215bd00bb0cc7f448ac61c59a5e77421be463746665395afc539nat, x17);
    let x18 = 0x1315fabdfe908da8439ae9722c8ea4e5aacbbf82b8eb4bf8520c22cf7200nat;
    let e18 = 2 * e17 + 1;
    lemma_power_mod_square_times(10nat, e17, n, x17, 0xe324632bbbe67c1878830640b80ebb6a1194993d68fa6e2767d21ddf496enat, x18);
    let x19 = 0x1b5e701a66ea6890cc9f6d0a5f74d86c4bd473ac45e798a085d0ebc0febdnat;
    let e19 = 2 * e18 + 1;
    lemma_power_mod_square_times(10nat, e18, n, x18, 0x7a91edfab845d99b50dcee6c39b4f20b15b73cbfe99edd97218dca45b059nat, x19);
    let x20 = 0xf345bb0906dc0c971ac64a33c61af33009106c8a5f1918050002f91a8d2nat;
    let e20 = 2 * e19;
    lemma_power_mod_square(10nat, e19, n, x19, 0x193450a72b784124d18250289b6076737ffa907f42d883030a49f4613e75nat, x20);
    let x21 = 0xde9eb7c4d6419ab6722c3322b45dad1f107e735fdc45dbf6672ef0a76acnat;
    let e21 = 2 * e20 + 1;
    lemma_power_mod_square_times(10nat, e20, n, x20, 0x4dc9744ddd41be978d0372a406b17a84f1aacffe72738acfa3ef01570b34nat, x21);
    let x22 = 0xb5a5051cefd0f58bb2d8030677a31dd579c4b8a9dde6ccc40564e2b0ec5nat;
    let e22 = 2 * e21;
    lemma_power_mod_square(10nat, e21, n, x21, 0x683970ea0c81c2a701cfbd0b34267c19ac2e1952f7880e40a638864b471nat, x22);
    let x23 = 0x5e9ba6a06bc6515d563ba027965c571ad30e6da04f3cc38ea71ecbd48c3nat;
    let e23 = 2 * e22 + 1;
    lemma_power_mod_square_times(10nat, e22, n, x22, 0x2b5e1f47eb476d586858b34b5a6426ff7314e02f63768254d421c5f01bf5nat, x23);
    let x24 = 0xf2b1ffd99394b6159cd4288f8ea3f97efefb38c378b38a43386166224f9nat;
    let e24 = 2 * e23;
    lemma_power_mod_square(10nat, e23, n, x23, 0x12d2c6c9a0f3347e74dc2c9aa7fc79eadb1be923b8c105a40bd6c1949b0nat, x24);
    let x25 = 0xbd97732537e601ecd9e4cad8946e4bfe7ed224f419ec0becdbbb0878687nat;
    let e25 = 2 * e24;
    lemma_power_mod_square(10nat, e24, n, x24, 0x7bde8be6e44f4af89c4089eabfe6a820f3c186320ccc94aa057d5262adenat, x25);
    let x26 = 0x1aae74a1b89d864d6037a3e3088685f6256d6954dde7e491ab19b8a54e7dnat;
    let e26 = 2 * e25 + 1;
    lemma_power_mod_square_times(10nat, e25, n, x25, 0x2f3ed02873eb2307123a90781326ed10a9964a0b0eb724bc80ddc9af18b7nat, x26);
    let x27 = 0xbd18924a7001164080078d69ee4d3193585400ec90641f70eb87e9df680nat;
    let e27 = 2 * e26 + 1;
    lemma_power_mod_square_times(10nat, e26, n, x26, 0xef8a922bc9a28965e56fa8e2ab1d0c0834a63ff2647d934e24717ce2446enat, x27);
    let x28 = 0x1a2c5a18a9a4d395fd0bbfefd6816dd069a2928d2f283f980f4ed3685678nat;
    let e28 = 2 * e27 + 1;
    lemma_power_mod_square_times(10nat, e27, n, x27, 0x2effa927a5dedd7ad6dc1571702c7eb83ec3843b9e150018bc74dab0c618nat, x28);
    let x29 = 0x15cbed8828e3eff01ef2f4968d721bf98c57e1ca0fd830a311145351f122nat;
    let e29 = 2 * e28 + 1;
    lemma_power_mod_square_times(10nat, e28, n, x28, 0xe680b9e8d0a02d346fb72a6474677b0ba4c835e24ada71f164a000d425banat, x29);
    let x30 = 0x12c3a740925cc43bd2e9814c0a10429d40595cd2ed8c3131f1148cd5a243nat;
    let e30 = 2 * e29;
    lemma_power_mod_square(10nat, e29, n, x29, 0xffc66a5b0d376c9a186a350439a1c670607bf33f4a2eb543512d3242ef3nat, x30);
    let x31 = 0x697e91115ca348bca273f77f45586c49f706de2b682784dfca6a5a37b3bnat;
    let e31 = 2 * e30;
    lemma_power_mod_square(10nat, e30, n, x30, 0xbd8f18bb6f29f54b88ab76bbe2e291e2553f21b4e0ac14774d9067ff58anat, x31);
    let x32 = 0x150ec4a158f79791b40b518baa0fc83a62a261b60dedfc0cfe6de74083eenat;
    let e32 = 2 * e31 + 1;
    lemma_power_mod_square_times(10nat, e31, n, x31, 0xea0b94e77bef43b1c76d92dd8de1e31afbd6ff08c440800c5e4e52f2a64nat, x32);
}

proof fn lemma_power_205115282021455665897114700593932402728804164701536103180137503955397371_over_29_part_3()
    requires
        power_mod(10nat, 0x1065996907da14fcd7846ea79nat, 0x1db8260e5e3b460a46a0088fccf6a3a5936d75d89a776d4c0da4f338aafbnat) == 0x150ec4a158f79791b40b518baa0fc83a62a261b60dedfc0cfe6de74083eenat,
    ensures
        power_mod(10nat, 0x1065996907da14fcd7846ea79d38a0e89nat, 0x1db8260e5e3b460a46a0088fccf6a3a5936d75d89a776d4c0da4f338aafbnat) == 0x1a6d635ab64a73384af97d5efd19624440d7857faa3ec7f72bb638284492nat,
{
    let n = 0x1db8260e5e3b460a46a0088fccf6a3a5936d75d89a776d4c0da4f338aafbnat;
    let e0 = 0x1065996907da14fcd7846ea79nat;
    let x0 = 0x150ec4a158f79791b40b518baa0fc83a62a261b60dedfc0cfe6de74083eenat;
    let x1 = 0x1041ae71ba68388749db004ac60cedf631473802aefd1968965b88d0bcd1nat;
    let e1 = 2 * e0 + 1;
    lemma_power_mod_square_times(10nat, e0, n, x0, 0x953463959b9d70eefed9e3a69b2412cd0ad497a6dfc97ac936106842b7d5nat, x1);
    let x2 = 0xb4ccd28969570e929d87948c0698235783abd530407968abe3c58800569nat;
    let e2 = 2 * e1 + 1;
    lemma_power_mod_square_times(10nat, e1, n, x1, 0x58ec877d168678d7626d4976f2f4a3776469a43dac9cb8b64edf2371b8d3nat, x2);
    let x3 = 0x182804e29e86342e1282971bc45400f416c3010720af0c56befc21287458nat;
    let e3 = 2 * e2;
    lemma_power_mod_square(10nat, e2, n, x2, 0x44be9abfaec2d9068aa90a8d4a0c1863d430dfdda7b7a2ca56ce429e4dbnat, x3);
    let x4 = 0xafcd6f4146f26401812321e41d2eab76e4b7fe20a7026a6c9185572dae7nat;
    let e4 = 2 * e3 + 1;
    lemma_power_mod_square_times(10nat, e3, n, x3, 0xc458a6172b7200abed9c549578cf445bcc4c1277a13d349746939c15777bnat, x4);
    let x5 = 0x2d4d5afb5fbb80772d5ff59dee2e00c35e566cbb9a2d455b85071550380nat;
    let e5 = 2 * e4;
    lemma_power_mod_square(10nat, e4, n, x4, 0x40ff2489faa70b0ede9262919a3a648a2e11ae09c1d1fe7ed5e4d5c2803nat, x5);
    let x6 = 0x990a550c4c29925827b19eb2eec8807dc8343aff268613155226d538d6cnat;
    let e6 = 2 * e5;
    lemma_power_mod_square(10nat, e5, n, x5, 0x450e3c93731b1af21f1e4bb12df175399a3a51f43824181d8fb4bbd37cnat, x6);
    let x7 = 0xaed1f22651fa84e2f3bf24784e42061bc63c6d817d1fe521cde6627d951nat;
    let e7 = 2 * e6 + 1;
    lemma_power_mod_square_times(10nat, e6, n, x6, 0x1ec8d902276b20fd4eedc07d35a2513806c509cbfa57e2662fffe1ccb9bdnat, x7);
    let x8 = 0x44a04dcb0ecf93796372068afbddfe916608198d66973abd590e8922983nat;
    let e8 = 2 * e7 + 1;
    lemma_power_mod_square_times(10nat, e7, n, x7, 0x282b90b738443f525972a484954bab83c1d02d173e1ef0c5d912c25bd5a5nat, x8);
    let x9 = 0x164b7304ed325336aaa5ef8b5850e2c9d87f8c43df0dfce1f74aca398b22nat;
    let e9 = 2 * e8 + 1;
    lemma_power_mod_square_times(10nat, e8, n, x8, 0x630ad464e78c9b4089d8d8dccd16374560e74caee732dde833a829a6828nat, x9);
    let x10 = 0xafb667f0934e2476dc8bed799c8e1732feb17ebb6b2c30e1977ee86b122nat;
    let e10 = 2 * e9;
    lemma_power_mod_square(10nat, e9, n, x9, 0x10b9972eb9663a131ea13a71b21baa61676bbaa81b86dde8f7bfe7094086nat, x10);
    let x11 = 0xc51f32fe64796a75c5f2dd0e2d901e9fe08e6eca23696882b48f76acc70nat;
    let e11 = 2 * e10;
    lemma_power_mod_square(10nat, e10, n, x10, 0x40ee1e7dfea57862f7a2b62ac749cefeec0fbe593004e3d548a715b37fcnat, x11);
    let x12 = 0x13a3bf137d1972ce55097178da04a31a7df7bf996ae5052b98e942ef6a7enat;
    let e12 = 2 * e11;
    lemma_power_mod_square(10nat, e11, n, x11, 0x51b77735766f4723f283a9a7ee3156a8c6ca758cd469920ab05279cabe6nat, x12);
    let x13 = 0x144ad3572ec1eba5a4c5864911b508fe68ac34cb3d1e9cbff00d5f9c1043nat;
    let e13 = 2 * e12 + 1;
    lemma_power_mod_square_times(10nat, e12, n, x12, 0x81c935ca56f9a7a6578adb4866a1fa471d519daa69c03fbb8cad5d13ae9fnat, x13);
    let x14 = 0x2a414a125c488e84da72b462c0782e878d5b74f4417e4169872e8590552nat;
    let e14 = 2 * e13;
    lemma_power_mod_square(10nat, e13, n, x13, 0xddb03aca315fcba21216c6e96684e6d06e2c6322d1251e76da6f2a93ef5nat, x14);
    let x15 = 0xdf4ee6522d4297c1ab6d851157f7e968152d9d515979716e1eb7cf2a05dnat;
    let e15 = 2 * e14 + 1;
    lemma_power_mod_square_times(10nat, e14, n, x14, 0x258c88e1fab31c2f6f9bbfff1971c86fb6bb29d17bed21b22b85dcce8f1nat, x15);
    let x16 = 0x11f5930727a8636629af5d38b2d891984bae0714ed1e0d369b3fdc18bac8nat;
    let e16 = 2 * e15;
    lemma_power_mod_square(10nat, e15, n, x15, 0x68dea9ab1d31b9d5b9a15f59ac52c1a4161feff588694a5c7ec6b6d1533nat, x16);
    let x17 = 0xae1c358b3857b42e8272eadc7494905c93a66a7cbc02bd90102264090e6nat;
    let e17 = 2 * e16;
    lemma_power_mod_square(10nat, e16, n, x16, 0xada4bccdc79d0ce402fd228db6b906b4be5a6923a1613566dec1ad942eenat, x17);
    let x18 = 0x13fb8c1c00181b5da65d3589e4c9892bc392733f499fd2d3f552bd93d351nat;
    let e18 = 2 * e17;
    lemma_power_mod_square(10nat, e17, n, x17, 0x3fc0586f697e69a4c490bfd8e39550ac4a39f20cc72dcfe0710d18fc189nat, x18);
    let x19 = 0x91f2550a2e02d51813855740c91c83b46234364c8733ae4139d3ab62766nat;
    let e19 = 2 * e18;
    lemma_power_mod_square(10nat, e18, n, x18, 0xd6f94159f315c30e5adcf2e55f046e27f5629ecd22db3b3693f91ebe3c1nat, x19);
    let x20 = 0x132fff30c821234a06c0a672299290ea9fccdc0a68e9b27724c45c6e106fnat;
    let e20 = 2 * e19;
    lemma_power_mod_square(10nat, e19, n, x19, 0x2ccb819440985354805e2d49674acf6c6cda838d41b7a1a357754a7de8fnat, x20);
    let x21 = 0x1bd7e94d67000a27ad2991cff0d4b4332b720e09b205fc82bf6a1a0f0eaenat;
    let e21 = 2 * e20 + 1;
    lemma_power_mod_square_times(10nat, e20, n, x20, 0x7be0fd01911f62548b53a2a4d2e14ef28f45593c3ff52923426fcb22f514nat, x21);
    let x22 = 0x9796cfa4159fe76f6eec993efe3ebbb050a928cf73142d85630c8af71b2nat;
    let e22 = 2 * e21 + 1;
    lemma_power_mod_square_times(10nat, e21, n, x21, 0x104dbdf7696fc2a64cd3871f5c8e7588e3e77d0e4b36c8d05cf1ba2adc502nat, x22);
    let x23 = 0x1c9e12d65c4cd92d4a29c9e2e68c0294d8b5c35144eb672bbfa134c766cdnat;
    let e23 = 2 * e22 + 1;
    lemma_power_mod_square_times(10nat, e22, n, x22, 0x1e34174d76c13c9a7b78a6c6c33fdae7f32a60c0a0bbf3d360d6196cbda1nat, x23);
    let x24 = 0x1adfd6fa797240e3c5f216cbebbb80996797b96ac3ccacb7f3b58914147bnat;
    let e24 = 2 * e23;
    lemma_power_mod_square(10nat, e23, n, x23, 0x1b8e74e0ab60efb6a2cad5ab6d9057db827fdecdeb99c0f16e22503b53aanat, x24);
    let x25 = 0x79c28305a4fd7cc7b81767d94148aa08fd808617ba21d38bfc19bb3dceenat;
    let e25 = 2 * e24 + 1;
    lemma_power_mod_square_times(10nat, e24, n, x24, 0xf304801887c1c328c43bc84a938a43b9f09f6b432255ac0829637eec0864nat, x25);
    let x26 = 0x58410f674c02327e285f4320e958416e86c2fc03fa0eea332c4c7ed7749nat;
    let e26 = 2 * e25;
    lemma_power_mod_square(10nat, e25, n, x25, 0x1f2d9496b4fdb40748e106726a302b0ff7aa9f5d6c035d11ba6546d7101nat, x26);
    let x27 = 0x12298ff61e544d565d4d53c362a38d9eb8d21709ac78b5e1354c27c9cfcenat;
    let e27 = 2 * e26;
    lemma_power_mod_square(10nat, e26, n, x26, 0x106140f6a979396466ec4475a46ab737730009afd508484e8bc4e026999nat, x27);
    let x28 = 0x1605659c38300287cb468ec488164ea1aa75274932fb599b333d19f5b7e3nat;
    let e28 = 2 * e27;
    lemma_power_mod_square(10nat, e27, n, x27, 0xb197bd0b24c26ca0a63c69285eb867933735a2939b995d52306f1975fd3nat, x28);
    let x29 = 0x103fde11e8aae16f8df807e8f08088cad5c10212d7be225ad86c1a61438bnat;
    let e29 = 2 * e28 + 1;
    lemma_power_mod_square_times(10nat, e28, n, x28, 0xa32b52d971bec0ba29e85084c1f98d7b18229669263cb45027a7710fa6bdnat, x29);
    let x30 = 0x127ba6a51c627c7c8779582ca8891873f64e725eb061326ea7859d82c367nat;
    let e30 = 2 * e29;
    lemma_power_mod_square(10nat, e29, n, x29, 0x8e27807fa13bedf95381296875de115a8aa941f281c5ee4c282da786196nat, x30);
    let x31 = 0x100ea933631a3be0ae7ba272e67adcfbe94f4cd227462ba7c205d6a6e908nat;
    let e31 = 2 * e30;
    lemma_power_mod_square(10nat, e30, n, x30, 0xb7eb3ee57ddad3f0565b2365e403e8d9482c5f499ed1c6c4c54b04cc2ebnat, x31);
    let x32 = 0x1a6d635ab64a73384af97d5efd19624440d7857faa3ec7f72bb638284492nat;
    let e32 = 2 * e31 + 1;
    lemma_power_mod_square_times(10nat, e31, n, x31, 0x56c1c88c405f0542078baabdf0e8c782646379f4269b75423b7d6611166anat, x32);
}

proof fn lemma_power_205115282021455665897114700593932402728804164701536103180137503955397371_over_29_part_4()
    requires
        power_mod(10nat, 0x1065996907da14fcd7846ea79d38a0e89nat, 0x1db8260e5e3b460a46a0088fccf6a3a5936d75d89a776d4c0da4f338aafbnat) == 0x1a6d635ab64a73384af97d5efd19624440d7857faa3ec7f72bb638284492nat,
    ensures
        power_mod(10nat, 0x1065996907da14fcd7846ea79d38a0e897f5c56eanat, 0x1db8260e5e3b460a46a0088fccf6a3a5936d75d89a776d4c0da4f338aafbnat) == 0x19f5746dd58951812378337fa107101fdaadf8d674cc92542e4c27f4529cnat,
{
    let n = 0x1db8260e5e3b460a46a0088fccf6a3a5936d75d89a776d4c0da4f338aafbnat;
    let e0 = 0x1065996907da14fcd7846ea79d38a0e89nat;
    let x0 = 0x1a6d635ab64a73384af97d5efd19624440d7857faa3ec7f72bb638284492nat;
    let x1 = 0xf7c6042fb7262157020e82f19e4520c3612b95abcb298c7dae383df91c5nat;
    let e1 = 2 * e0;
    lemma_power_mod_square(10nat, e0, n, x0, 0x177ffb153225d4157ba47008036132beb427a019a6ad6931f4aa71036c4dnat, x1);
    let x2 = 0x112a7803e02a2de22ffa766c0f31e62244cb58b7eadb178ab212d35f4c05nat;
    let e2 = 2 * e1 + 1;
    lemma_power_mod_square_times(10nat, e1, n, x1, 0x50b129e9db210f8dde178c503238dcc2bb2cdb9f5c169eb5c019d9a699cfnat, x2);
    let x3 = 0x1498ffb10a0bba24b2da345c4e77199d74cdfec98878bef759aebd870e0bnat;
    let e3 = 2 * e2 + 1;
    lemma_power_mod_square_times(10nat, e2, n, x2, 0x632676d7d9fc74c36220e18314006213193a140dc5180b5293aea1baa59dnat, x3);
    let x4 = 0x1aa84e4fb054e034ca5902a39911391ad4334a7d0d6c7d583dc7493bac5anat;
    let e4 = 2 * e3 + 1;
    lemma_power_mod_square_times(10nat, e3, n, x3, 0x8ec1b4b324a229c36a7c0f0732efc5b00bfd0cf5d9723f30493870553320nat, x4);
    let x5 = 0xa7f488069668dcd7beb7ba76a1bf6ced211a76160ec9b7000b3099981e3nat;
    let e5 = 2 * e4 + 1;
    lemma_power_mod_square_times(10nat, e4, n, x4, 0xef1c32faa23ddd942fecf5f8ee1ab93ab760636e3f8ca2d0faa86742587fnat, x5);
    let x6 = 0x80b097d4f105b8e6c216dd06c0503eded7de08f6ccbbeaf5206e6ccd89anat;
    let e6 = 2 * e5 + 1;
    lemma_power_mod_square_times(10nat, e5, n, x5, 0x2513c8eead823018e4d35eef5c7824db4f3a6cb299fd9869eb17b78a4cc0nat, x6);
    let x7 = 0x1c80ab74e262d2ea53aa40b367c2b36147312eaf661a7f33aa4f27beeb0fnat;
    let e7 = 2 * e6 + 1;
    lemma_power_mod_square_times(10nat, e6, n, x6, 0x15c47d94a257239c8314f269ccf75f7da43add9f6c7629ce3f0ff94e4abbnat, x7);
    let x8 = 0x15c0ed494c91c22901e5803e8ace3f29e50cace8793cac68a7bd4de545denat;
    let e8 = 2 * e7 + 1;
    lemma_power_mod_square_times(10nat, e7, n, x7, 0x1115b6db0675238e263f1711f0cffd6014504914165c2a2cdbc9bf0ff8104nat, x8);
    let x9 = 0xabdf68e6df6edf33994d78caeb0b4adbd302340e8cafdd59fa8a60b488fnat;
    let e9 = 2 * e8;
    lemma_power_mod_square(10nat, e8, n, x8, 0xfec47c48b099d0f4eafe66fdc5d2fab0b69c4d20ea52bc2d0de4c8a39cfnat, x9);
    let x10 = 0x5173588ca7b2e69f15cff00863eeb5a1ea6fbdd4ae0706032ba8cb00712nat;
    let e10 = 2 * e9 + 1;
    lemma_power_mod_square_times(10nat, e9, n, x9, 0x26d3bbcf8a4519357e03c00198bf4fa28434c62985616d2bac5f348e59a8nat, x10);
    let x11 = 0x999e478223adf11d5cab2701047c15c10adbf4974dac5f583e54bf48f85nat;
    let e11 = 2 * e10;
    lemma_power_mod_square(10nat, e10, n, x10, 0xdf3a7124b5a3b52a20e4eaf8659418ff28f8db00cd7014f9217bea0d0dnat, x11);
    let x12 = 0x16247eed2df923c3632318ff90dd72bea4c4137bb9c3e772dc1d28d68ccfnat;
    let e12 = 2 * e11 + 1;
    lemma_power_mod_square_times(10nat, e11, n, x11, 0x1f047aead6d24aeca3f25f3fb793a0089a580ba31d9a4f75750391295e91nat, x12);
    let x13 = 0x15753e673322fadf6210573efa46b8c7744688ae0bd5e917b341713b7d61nat;
    let e13 = 2 * e12 + 1;
    lemma_power_mod_square_times(10nat, e12, n, x12, 0xa4f975eeb0394dd9ba3b5391c309a151b2da598d7f9ca5aa6dcca0b9f8ebnat, x13);
    let x14 = 0x1cb718a3e01fbbdb247fedde9c39b9e65d2c803acc2eb97f336399c7de43nat;
    let e14 = 2 * e13 + 1;
    lemma_power_mod_square_times(10nat, e13, n, x13, 0x9aee60d95560f6523a38d512594f9e578469d4441dfc841b5fdab12c2d25nat, x14);
    let x15 = 0xe77dbd31032c38bb23abf6f08f50cffedc736a70a2fd814efe95a9c53dcnat;
    let e15 = 2 * e14;
    lemma_power_mod_square(10nat, e14, n, x14, 0x1bbeba8e6144d96c6e8618b47ccfc45d78428451594891ba481636f1b577nat, x15);
    let x16 = 0x42a4b98240a11ea1920911fd0934e90025c31d0b9a51634e15759030898nat;
    let e16 = 2 * e15;
    lemma_power_mod_square(10nat, e15, n, x15, 0x70b243e97b3df3108ee17dee3bb302c4895d4122db8d3a4b3bbaff2ebe8nat, x16);
    let x17 = 0x1a9a6d821d8acc9670c7485de393f9bbf3bd3403c4cd29511bcccd1b2f9anat;
    let e17 = 2 * e16;
    lemma_power_mod_square(10nat, e16, n, x16, 0x957171ce1546eb97b57e8be3f336a8e53e2f11094304192fa076d6df12nat, x17);
    let x18 = 0x8359f153dd508ae36198b51c666d71e3447e8354501f7b07049b07b6cc0nat;
    let e18 = 2 * e17 + 1;
    lemma_power_mod_square_times(10nat, e17, n, x17, 0xee237c666bdef2ffbf02abae98bc3c9d9ad59e1997a08c115acd25174c78nat, x18);
    let x19 = 0xf26050855829694260fee18bbda226307c6b5f2074ff46ea2095da73889nat;
    let e19 = 2 * e18;
    lemma_power_mod_square(10nat, e18, n, x18, 0x244897f9d2526ed00265504ac46950c8f6ea8c5403c0e77b51583251cb5nat, x19);
    let x20 = 0xc7e67928fce6b8aae490c713b95e63ad34f44739d2b78579e49ab8cba8nat;
    let e20 = 2 * e19 + 1;
    lemma_power_mod_square_times(10nat, e19, n, x19, 0x4d370309164b6428ea2222acaad362511682e42c3e0396046cc8e8e33ce6nat, x20);
    let x21 = 0x4ffb969554e8351153c3faef2ff9f65ef5a7f6060b2916d86958905e97anat;
    let e21 = 2 * e20;
    lemma_power_mod_square(10nat, e20, n, x20, 0x54095665c31945bb6bef8cbeb2bd38650f42deb2a0db5119335eca372nat, x21);
    let x22 = 0x3e1b312972c1a9fde1de1cde45a90ddcab0a3feef84a7c00fa452f27887nat;
    let e22 = 2 * e21 + 1;
    lemma_power_mod_square_times(10nat, e21, n, x21, 0x8688d8620fab6e3be2cfb9e9006a7165f3ba1552b5a213f2d67805c78d3nat, x22);
    let x23 = 0x115d39f60c86e42b959f96cfe076260eac8bdbec6a57ed2d74baaa2b4108nat;
    let e23 = 2 * e22 + 1;
    lemma_power_mod_square_times(10nat, e22, n, x22, 0x511deb0b0090d175e6a865febdf6250bd1dd16fd9b153ff9b15d16e5f06nat, x23);
    let x24 = 0x56fd48672ce8e53a0346fca8094e557fdd505c237e0c21929fdb9b29810nat;
    let e24 = 2 * e23;
    lemma_power_mod_square(10nat, e23, n, x23, 0xa2538630adbd653cef58320432d6fd8f1862e1068fcc005bc7ef444f190nat, x24);
    let x25 = 0x43854118393d6e20a6679d9cb35f193bf75f3fae92bc4266722b6ef87a3nat;
    let e25 = 2 * e24 + 1;
    lemma_power_mod_square_times(10nat, e24, n, x24, 0x9f234b0bc6a761c69f516ad187a09daa10adfb12d76939ea464d7958887nat, x25);
    let x26 = 0x777c5012b20702800093611b99fc618c3bf2d221d3836a9d4eb8e7b5f18nat;
    let e26 = 2 * e25 + 1;
    lemma_power_mod_square_times(10nat, e25, n, x25, 0x5fe0689c8867a66b83a475078b56d767ad4f906d6d7339a47f045da9ca6nat, x26);
    let x27 = 0x18e0aeab6472ed356e6a98a12de04ec5225d0f83f4eef5ae4ed95365268bnat;
    let e27 = 2 * e26 + 1;
    lemma_power_mod_square_times(10nat, e26, n, x26, 0x12c3e11be90cb5251707625f9884ea550ffe525d6b00c154d86ce2053dcfnat, x27);
    let x28 = 0x66056ace1723bb03bfd404314c956f20c851cd12dc598c27647f8c2060cnat;
    let e28 = 2 * e27;
    lemma_power_mod_square(10nat, e27, n, x27, 0x14d324217e3b83ba3dccc7296e64102d97fc97e768b7df8854129d04f0b7nat, x28);
    let x29 = 0x1523aa1bd6750c481521b28969e22bb85d4adaeeaa5fe8d16d335104287anat;
    let e29 = 2 * e28 + 1;
    lemma_power_mod_square_times(10nat, e28, n, x28, 0xdae3458464e40911b55fe2204fc5466da1ec913f345360fec606586ce92nat, x29);
    let x30 = 0xaa6a5f64bc36edeac0374384be46574749584768ac57aa05ad2783fb776nat;
    let e30 = 2 * e29;
    lemma_power_mod_square(10nat, e29, n, x29, 0xf094f04719019d77f0473ef692abc7658d1979d53cb06b185c4ea73c8aanat, x30);
    let x31 = 0x4ffc8adce2a082f561cc33e5e348a5f072ad795c1f8ee5daa4aa89cc2enat;
    let e31 = 2 * e30 + 1;
    lemma_power_mod_square_times(10nat, e30, n, x30, 0x262be7c84a7fec20f44a02753391de90c1fc84ab3612cd383a0ae4d8660enat, x31);
    let x32 = 0x19f5746dd58951812378337fa107101fdaadf8d674cc92542e4c27f4529cnat;
    let e32 = 2 * e31;
    lemma_power_mod_square(10nat, e31, n, x31, 0xd7467d168ee13823506473c63017839deed99ce6c861caf20ddca078nat, x32);
}

proof fn lemma_power_205115282021455665897114700593932402728804164701536103180137503955397371_over_29_part_5()
    requires
        power_mod(10nat, 0x1065996907da14fcd7846ea79d38a0e897f5c56eanat, 0x1db8260e5e3b460a46a0088fccf6a3a5936d75d89a776d4c0da4f338aafbnat) == 0x19f5746dd58951812378337fa107101fdaadf8d674cc92542e4c27f4529cnat,
    ensures
        power_mod(10nat, 0x1065996907da14fcd7846ea79d38a0e897f5c56ead7faf0f7nat, 0x1db8260e5e3b460a46a0088fccf6a3a5936d75d89a776d4c0da4f338aafbnat) == 0x9124d00dba2e7052058f55067410973f0725f4a903c2ff6dbdd8d470056nat,
{
    let n = 0x1db8260e5e3b460a46a0088fccf6a3a5936d75d89a776d4c0da4f338aafbnat;
    let e0 = 0x1065996907da14fcd7846ea79d38a0e897f5c56eanat;
    let x0 = 0x19f5746dd58951812378337fa107101fdaadf8d674cc92542e4c27f4529cnat;
    let x1 = 0x7ff56a02b861b29c9b0b0fc75b86f78ccbc0706a6b684ac2ab7c1252beanat;
    let e1 = 2 * e0 + 1;
    lemma_power_mod_square_times(10nat, e0, n, x0, 0xe2bdc001e7058fcdd2f74f387f0d4b663bd7e199a62a33a71d6cb4eda242nat, x1);
    let x2 = 0xcdc7fb6c645b307acd15f90eaba7c4403a64cdb6d3a2e6d7f30e4ca0e93nat;
    let e2 = 2 * e1 + 1;
    lemma_power_mod_square_times(10nat, e1, n, x1, 0x158559495516f2dbea52f31028919dd479eed5b9cc2ffd62c38f50650cefnat, x2);
    let x3 = 0x9d0564cb15b6072d59bc457e0a04364aa16c0408e3e9140ceeaff028d18nat;
    let e3 = 2 * e2;
    lemma_power_mod_square(10nat, e2, n, x2, 0x590dc3be338ddf828c3616ea51aaa61fd95b0c7e5d40067c4dc0bd28123nat, x3);
    let x4 = 0x7c3bb5326467673144c237d069b64b73315f6d619c0eda0cb2c5fe31983nat;
    let e4 = 2 * e3 + 1;
    lemma_power_mod_square_times(10nat, e3, n, x3, 0x206827937643bc8257b314c25e704c86f865703f93354b64d15231331667nat, x4);
    let x5 = 0x155124d2ca7aff0cf1ea028719be8332e28bc8b9d5a55d1d36d8eb98c6f3nat;
    let e5 = 2 * e4;
    lemma_power_mod_square(10nat, e4, n, x4, 0x2075261879ffe32f83d70148dc3801f5d61068838847bff940d6a957a62nat, x5);
    let x6 = 0xcc1d956c6fffcaf186b7aa2d1838e2fee5a5a6f6cf13bc14c2f8fba8d5bnat;
    let e6 = 2 * e5 + 1;
    lemma_power_mod_square_times(10nat, e5, n, x5, 0x98e6cb0b4e98e6d621c4eb2bc5dff81de07e43737393195da9c4e616c38dnat, x6);
    let x7 = 0xa0a23ca3e4950b15604677261f579cd82cdf50dcc6d442bb607a4225af9nat;
    let e7 = 2 * e6 + 1;
    lemma_power_mod_square_times(10nat, e6, n, x6, 0x36c2e05b86c12f847cb6b05de8f1a4ccde399227f71aae84fb2f9338a5b3nat, x7);
    let x8 = 0xc1601a491cc1df6e00b98f1b6aaa50913e63e90022a114080248d72dd81nat;
    let e8 = 2 * e7 + 1;
    lemma_power_mod_square_times(10nat, e7, n, x7, 0x21ea4b5b0f9a151ea390827f5b33f5b6ee2e2b2e68280331bf835cfd84ebnat, x8);
    let x9 = 0x8a4b86460f373a3c100a2d3c8cd5e45bd8f6a54262b1af7dd82eee3cb8nat;
    let e9 = 2 * e8 + 1;
    lemma_power_mod_square_times(10nat, e8, n, x8, 0x312665fa4a523256dc81a01aff69f9555cc2b74b70d26e2c5c8485569356nat, x9);
    let x10 = 0x1423e762c0260707a0d551b3e7926fb3d7f4666705909bfbc669716229f1nat;
    let e10 = 2 * e9 + 1;
    lemma_power_mod_square_times(10nat, e9, n, x9, 0x192360b30e232c9387cde7325b76807d55658fd5213ac987256102cc7dnat, x10);
    let x11 = 0x1593752c548305d7020609a7424e622c8142413cf35bfca83968edbd7dcbnat;
    let e11 = 2 * e10 + 1;
    lemma_power_mod_square_times(10nat, e10, n, x10, 0x887c9f314b35121920e4eb99df873ac12649d85555a2d39e0a8603d4b8cdnat, x11);
    let x12 = 0xc6b9e937e52ae714a1d87933cda78d274da22533dd25b022bf88ceaef6dnat;
    let e12 = 2 * e11 + 1;
    lemma_power_mod_square_times(10nat, e11, n, x11, 0x9ca3e15bb9f708d5179c6303501632d43e1bc896d19dd0156bbd55991157nat, x12);
    let x13 = 0xae4937c08937574ae5987b640faff39f5af65244d5b4047e855b4d8abdnat;
    let e13 = 2 * e12 + 1;
    lemma_power_mod_square_times(10nat, e12, n, x12, 0x33e85b77bb44359bd5c01ec40518ac9cab5be93b61d573c56d3450365587nat, x13);
    let x14 = 0x4cd2225633b4d60acf36b3cb91ec469a1230da185c3b0880fe8b5cb6cd3nat;
    let e14 = 2 * e13;
    lemma_power_mod_square(10nat, e13, n, x13, 0x3fe152872b63ef78d2c4b0ea201f63b77da46fe474cc744d89fd70a42nat, x14);
    let x15 = 0x17890fc2eaf5ec31597c38a2161199a39e84d72d7298760abae605b7d072nat;
    let e15 = 2 * e14 + 1;
    lemma_power_mod_square_times(10nat, e14, n, x14, 0x7c1b98622cdc98235b3dd9141b171060a4960fd92264a137356a15c5f78nat, x15);
    let x16 = 0xaee696f191075e7bb7ce16e2c58677eb7c89697e8c36824514a96abd5a8nat;
    let e16 = 2 * e15;
    lemma_power_mod_square(10nat, e15, n, x15, 0x12a3613b46730f6881154859c3c65219caa6aec3642c2f08a72c3c590c94nat, x16);
    let x17 = 0xa6b79adf7e8612419e74796b633ad696423ea3a2537dc3d834c1c3b0361nat;
    let e17 = 2 * e16 + 1;
    lemma_power_mod_square_times(10nat, e16, n, x16, 0x28350df4e356c2d5be18f7eceab249a45fe11228618136e350fd2944072dnat, x17);
    let x18 = 0x1cbb5d36f2c95f38efdf8778ccaba1a72662b7afd63c11bead17824e8870nat;
    let e18 = 2 * e17 + 1;
    lemma_power_mod_square_times(10nat, e17, n, x17, 0x24885f87c7b5ece6adf578ffc76e00a0d4309edc5eb12dbde1e8847e9e2enat, x18);
    let x19 = 0x172888df6d7bde0bc9f8f866cb9f1dac11b642f3486b6be551f66753178enat;
    let e19 = 2 * e18 + 1;
    lemma_power_mod_square_times(10nat, e18, n, x18, 0x115c5c8e56e34a839679577600b459eec8fe6ce52871e8488f4d9f17e8cb6nat, x19);
    let x20 = 0xa5c11999903b346b361364b48cccfdbb37ed365a9d2ebfc0f42c7a1340bnat;
    let e20 = 2 * e19 + 1;
    lemma_power_mod_square_times(10nat, e19, n, x19, 0xb4753573c03f12c1ac91e0a613e667ca962d3d9e80aada2f8e0396401447nat, x20);
    let x21 = 0x154eb1e7c43093576fbf26c359dd432b006007d0e4ec6dbcb5018642f2d3nat;
    let e21 = 2 * e20;
    lemma_power_mod_square(10nat, e20, n, x20, 0x39c771737b70b2bf5364fdbfdca84ec11b892bd6f4536d251b22eaa8012nat, x21);
    let x22 = 0x179dae9d214a9aa5aa7706a1da9046200badcddae3501d3d595e9694ed2dnat;
    let e22 = 2 * e21;
    lemma_power_mod_square(10nat, e21, n, x21, 0xf46c45c027cb2fcf1d7b9c570d670082acb15957d21469e888835812974nat, x22);
    let x23 = 0x9f0d80aff72de6bd53c6dcba401eabc89ee559cd23966cf748c9c13a47cnat;
    let e23 = 2 * e22;
    lemma_power_mod_square(10nat, e22, n, x22, 0x12c4186b5bbf21d8fbae3aa963d7c5df60f673e6ace3388823a4c402b4b7nat, x23);
    let x24 = 0xf3619a4e9d6e6e909043233000d05a2966249af84a936262e2509a3e01dnat;
    let e24 = 2 * e23;
    lemma_power_mod_square(10nat, e23, n, x23, 0x3533911b8aea444a2e211de33ab4a8b64a3c584dea3918e314bb2846169nat, x24);
    let x25 = 0x1d859f774594e6487151dd4d54144cb2ae8fcebd0e0b19a0c49cf2bd9595nat;
    let e25 = 2 * e24 + 1;
    lemma_power_mod_square_times(10nat, e24, n, x24, 0x4ddb485dae1aea8e4831ec8164ee8fb9fc187f6deb35daa9e6404b5e4ebfnat, x25);
    let x26 = 0x62dc3bb5f5d8e58b8e3c316a9afda99227296f5bca74f2c783c08f6aae3nat;
    let e26 = 2 * e25 + 1;
    lemma_power_mod_square_times(10nat, e25, n, x25, 0x1254253be53c090d2266c2876c03c8c42355f70ecf50b02bcefb4deb48555nat, x26);
    let x27 = 0x395e35aa0e323a1ea25f35807743200686fe37be85791f195efdb1e477anat;
    let e27 = 2 * e26 + 1;
    lemma_power_mod_square_times(10nat, e26, n, x26, 0xcd88d49f95493cb62f53604292ca0853653a0a76c1a1732e84fbef3ca20nat, x27);
    let x28 = 0xec1162bef27b967ff63b7984680540adf94f3a3d318571fd1b162e51016nat;
    let e28 = 2 * e27 + 1;
    lemma_power_mod_square_times(10nat, e27, n, x27, 0x45363c535e98b57c48669195f4bbe81340c490c74ec81906b8d7fbee756nat, x28);
    let x29 = 0xd2a1d4087cbc2df1a8dc7a57d3c892085d1efe924c274237dc6cbe1c1ffnat;
    let e29 = 2 * e28;
    lemma_power_mod_square(10nat, e28, n, x28, 0x753252a2e4d0cc8af5d1f558ffa93d4fc385e280335e32f8299c6470a9fnat, x29);
    let x30 = 0x125f32a7e1166e761be46a5fca9911a62b2a9be23c390f5cb0dd6bbf6338nat;
    let e30 = 2 * e29 + 1;
    lemma_power_mod_square_times(10nat, e29, n, x29, 0x3a504bfe95c06a1bc0585066b9b6594eb3cbe76a4fc3f8dd35bed51ce5d6nat, x30);
    let x31 = 0x7678ca552372b46f4df7474d99b8e3142a298647a37a2bc41b8dd96b858nat;
    let e31 = 2 * e30 + 1;
    lemma_power_mod_square_times(10nat, e30, n, x30, 0x71922eb7741a5fbb72317dfd59534573cd1bc59f6418e312125ed9198df8nat, x31);
    let x32 = 0x9124d00dba2e7052058f55067410973f0725f4a903c2ff6dbdd8d470056nat;
    let e32 = 2 * e31 + 1;
    lemma_power_mod_square_times(10nat, e31, n, x31, 0x1272b59b525471b55b40cc0166a942b5361e18a5b1e0616a6308b408525enat, x32);
}

proof fn lemma_power_205115282021455665897114700593932402728804164701536103180137503955397371_over_29_part_6()
    requires
        power_mod(10nat, 0x1065996907da14fcd7846ea79d38a0e897f5c56ead7faf0f7nat, 0x1db8260e5e3b460a46a0088fccf6a3a5936d75d89a776d4c0da4f338aafbnat) == 0x9124d00dba2e7052058f55067410973f0725f4a903c2ff6dbdd8d470056nat,
    ensures
        power_mod(10nat, 0x1065996907da14fcd7846ea79d38a0e897f5c56ead7faf0f7a495a0d9nat, 0x1db8260e5e3b460a46a0088fccf6a3a5936d75d89a776d4c0da4f338aafbnat) == 0xc360c4860d3cea5720b28b25e3165ea9cdb318e64d1ab0d879210ea93denat,
{
    let n = 0x1db8260e5e3b460a46a0088fccf6a3a5936d75d89a776d4c0da4f338aafbnat;
    let e0 = 0x1065996907da14fcd7846ea79d38a0e897f5c56ead7faf0f7nat;
    let x0 = 0x9124d00dba2e7052058f55067410973f0725f4a903c2ff6dbdd8d470056nat;
    let x1 = 0x1a3f7679337952257215d6aafeb48b493f929d358215d44e6d745d11e224nat;
    let e1 = 2 * e0 + 1;
    lemma_power_mod_square_times(10nat, e0, n, x0, 0x1bb08f136337b2171e1602e4d09f3e7118de1778de68648f41943cb8c10cnat, x1);
    let x2 = 0x5efe0a9574f88296d2f2bc9df8b3852cf5e8f3b31c45d31ddc4268e70c3nat;
    let e2 = 2 * e1;
    lemma_power_mod_square(10nat, e1, n, x1, 0x172e94ed59a4aef16cb6c9a8569cafe98172744a9fdbe4895b657592cb57nat, x2);
    let x3 = 0x150f37a681026958a6f2e9675e03f38d89417a27b71d70d760a5182c4586nat;
    let e3 = 2 * e2 + 1;
    lemma_power_mod_square_times(10nat, e2, n, x2, 0xbdc4141aa8a2d2d90628bc63239ae543b54292acef6058e357f694d0f3cnat, x3);
    let x4 = 0x385161f410ed4ea8b742da7c556947e35807e3d0fb1dad24f62548caf42nat;
    let e4 = 2 * e3;
    lemma_power_mod_square(10nat, e3, n, x3, 0xeec468f8abcc8896fa5322ab0b2dba99e737d4a2d2f10dd6a32ae29a306nat, x4);
    let x5 = 0x349c0fc138eeb1dca7902112b4ffe0194b334071dcf5a93b405c175971cnat;
    let e5 = 2 * e4;
    lemma_power_mod_square(10nat, e4, n, x4, 0x6ab8d400f544d86e12b360e586d4617e88cd780205f782a366582fbd38nat, x5);
    let x6 = 0x8f2aeb8d5c487fb5778d572b418e62332c544804b2a9d66d682ed67ee20nat;
    let e6 = 2 * e5 + 1;
    lemma_power_mod_square_times(10nat, e5, n, x5, 0x3a34db15eb4599295aa9aae18d34398ea601261a0e60d6433752e359980nat, x6);
    let x7 = 0x1d13d07fa8f7cf6e51ad3ad75260fb6a17aba4da7ea7b99994d43df96d58nat;
    let e7 = 2 * e6;
    lemma_power_mod_square(10nat, e6, n, x6, 0x2b1af5f22d079f1ec87ff4598cf77433d724659e836c559d3daa40f0378nat, x7);
    let x8 = 0x170024c5ab4d12618d543df33f54a2444b70f7c1b8894f4ed891c36b6769nat;
    let e8 = 2 * e7;
    lemma_power_mod_square(10nat, e7, n, x7, 0x1c7307a239cb8ea5625535f4f644cdfdc38d241eccbba8267a7dafa9ecd5nat, x8);
    let x9 = 0xcce68115ddaa0a13746ba23d4b3c49a60eec8a6d5626e8f777a14dfaab3nat;
    let e9 = 2 * e8 + 1;
    lemma_power_mod_square_times(10nat, e8, n, x8, 0xb201df0fe0e80929d000b99b9c3762b0473e3e7c67ebf6389475e4767e35nat, x9);
    let x10 = 0x7649bbdd579ded05799f4ca67be8813b03834e8a0ad3b908218e49c1104nat;
    let e10 = 2 * e9;
    lemma_power_mod_square(10nat, e9, n, x9, 0x584b06e046e4b4302a19dd727f6effd20352b70faa6801c55152fcc0f5fnat, x10);
    let x11 = 0xb89c4f6f0ad95cc1859c0284d4a7c86242fcc06de7f44dfadc93f60daanat;
    let e11 = 2 * e10;
    lemma_power_mod_square(10nat, e10, n, x10, 0x1d6ce7bd0e36697972326931ad9ff5f50293cfc554be46498e468704252nat, x11);
    let x12 = 0x1c4a7a5348bb91971a5880b70cfc3c9ad99b58122f9d3d7efc127ec70091nat;
    let e12 = 2 * e11 + 1;
    lemma_power_mod_square_times(10nat, e11, n, x11, 0x2ccba4ba85c8e4a4dd6d055bdf25cf1bba96f140e247ecc90adf37f155nat, x12);
    let x13 = 0x2fb622b4901ca5c08d580be6ca05f83c24d3dca6cd94eaad9d1d48b6626nat;
    let e13 = 2 * e12;
    lemma_power_mod_square(10nat, e12, n, x12, 0x1aee61dc190f91cc391c53f2b8cf54eb4d1b63fa35c8238c5cbfa3baf301nat, x13);
    let x14 = 0x180be7eaea6c6cc11825303d842726947b1a9d9582addbf08b02b5935850nat;
    let e14 = 2 * e13 + 1;
    lemma_power_mod_square_times(10nat, e13, n, x13, 0x2fdf5f3dba8c208bda63cb2b86856c17cf2051166c30c11de8eb91794c8nat, x14);
    let x15 = 0xeff357bd455cf4ed0a61065d3bde11704772fb232bb2aac09760ef40ce3nat;
    let e15 = 2 * e14;
    lemma_power_mod_square(10nat, e14, n, x14, 0x1374ddfe3dcfd4d5476bfabbcadf92433baeaba868d077c4e5760598f9c7nat, x15);
    let x16 = 0x223c9f33efd6ec0bc85abcdf8c7ab59067d6de2463b9a63b158bcac54d2nat;
    let e16 = 2 * e15 + 1;
    lemma_power_mod_square_times(10nat, e15, n, x15, 0x4bad571009c85c3c0870a0ab001b08be8bd3b7f6636d25b4d5de34880998nat, x16);
    let x17 = 0x13b1820c74961fb3ba632d3d5128b73d4ea8c26ef0abcfb11dd6f7f93df8nat;
    let e17 = 2 * e16 + 1;
    lemma_power_mod_square_times(10nat, e16, n, x16, 0x18a68d7d620f3b91a701bf7fa7fc9ed150ea82e21fa2df986e043ab3710nat, x17);
    let x18 = 0x12295531ffeb5154758a193df33d45d7ea172ded5fc90c533c4609b538canat;
    let e18 = 2 * e17;
    lemma_power_mod_square(10nat, e17, n, x17, 0xd0cbbf90a8a039393039cc3d3c891b8f68a90a6a3ac1f0a523ed2dffc82nat, x18);
    let x19 = 0xd251dc69115d81e903bf47d24687872bfe0870e0c08073728d7df419ff1nat;
    let e19 = 2 * e18 + 1;
    lemma_power_mod_square_times(10nat, e18, n, x18, 0x6efc07e57a058f4c979b9d8b57a74276cbc65960fd353ffd959cee5c9c35nat, x19);
    let x20 = 0x86b3020a822b2258d56fa9d2688f5f42c7b93b172623c98712c33a478b4nat;
    let e20 = 2 * e19;
    lemma_power_mod_square(10nat, e19, n, x19, 0x5d067b9286fb984a65e8c9d825ad2ca89ca348f5db483b1b26e799070f7nat, x20);
    let x21 = 0x11e91a712016e282e0e5197e662b6230b4b38dc880cc4e6763f41e88893enat;
    let e21 = 2 * e20;
    lemma_power_mod_square(10nat, e20, n, x20, 0x2628209997f16e9d48c009052838149351e6d9cd9f660ed12b6a852bf56nat, x21);
    let x22 = 0x14d0fc0f0b6acf63f21eb50bb041c89e875e9721fbed994ff772f4e226benat;
    let e22 = 2 * e21;
    lemma_power_mod_square(10nat, e21, n, x21, 0xacb3e7fbfd5f0c2ed93faa8c98e35d9e8a03767bc6ba9528749075d79f2nat, x22);
    let x23 = 0xa3a43653af4e5b874d03b2edc24f2039ded0185c7aa75255db1b600469fnat;
    let e23 = 2 * e22;
    lemma_power_mod_square(10nat, e22, n, x22, 0xe949646e287af9b94861b6d931c1ba3fd0a8969ce42deffbfa40806ce1fnat, x23);
    let x24 = 0x1340d856a04fbacde82f9aa02a9befb7dcb448a2e984f61324dee7ca25cbnat;
    let e24 = 2 * e23;
    lemma_power_mod_square(10nat, e23, n, x23, 0x3850c21fae7f649418e0fb15954d71ddac52804c9c215538d51b3a8a102nat, x24);
    let x25 = 0x9ae3aa9a1ad470f5e939e8d43017240ca5f575777ad87d8ebbc56ad31a2nat;
    let e25 = 2 * e24 + 1;
    lemma_power_mod_square_times(10nat, e24, n, x24, 0x7cbae9e1bb41ebd9c6a4a796a17ece6ea6429c50ec4c2e2685465b5ff0c8nat, x25);
    let x26 = 0x7a823dcc700bb492d378bd8cf163786d7ed63c653123313cd0a50de2b3dnat;
    let e26 = 2 * e25 + 1;
    lemma_power_mod_square_times(10nat, e25, n, x25, 0x1f886c63e62cce4ddd1f5f6a075e98c2d65d4a4de5e0e3fdd9fd72a485d1nat, x26);
    let x27 = 0xc8453262f72c6e24c741357354edf0bceb63b0af56aaf3d4192c61eb89cnat;
    let e27 = 2 * e26;
    lemma_power_mod_square(10nat, e26, n, x26, 0x1f90125a892e590890ceae339b4b3382c56a702909d121b2ac9338ec837nat, x27);
    let x28 = 0x18c2ebe03204245f0efb1af907364df1adba39d053c929114d07ca41dd21nat;
    let e28 = 2 * e27 + 1;
    lemma_power_mod_square_times(10nat, e27, n, x27, 0x34b7a8844d88fef75f6ba2276c502203fc49eb3e3728bd18e33a5037044dnat, x28);
    let x29 = 0x1636463af20b8abce4c3ef8174dc313959f717712a2b5ef6490786b5f350nat;
    let e29 = 2 * e28 + 1;
    lemma_power_mod_square_times(10nat, e28, n, x28, 0xce4e53787a6f44abbe25069c954f0246654f0b7164845358b8a03a602c8enat, x29);
    let x30 = 0x8096e5c31820fceb082c6b8a78dc07e80f0426ff2590d3db6f538da1070nat;
    let e30 = 2 * e29;
    lemma_power_mod_square(10nat, e29, n, x29, 0x1099e12e0638aea82c334cf641d0ad36e2baa6909e801191a90f71b554b0nat, x30);
    let x31 = 0x1039aa795ef3ad2e8e7e0723973cbe4f6d9186f5c45e627366ad4665604anat;
    let e31 = 2 * e30;
    lemma_power_mod_square(10nat, e30, n, x30, 0x22c614fee9a5d754bfcf5763f0b808cb20667771322b10c1a23d5897442nat, x31);
    let x32 = 0xc360c4860d3cea5720b28b25e3165ea9cdb318e64d1ab0d879210ea93denat;
    let e32 = 2 * e31 + 1;
    lemma_power_mod_square_times(10nat, e31, n, x31, 0x5894ec6c6f392544809d5729c9b6317a1b603a3d2789982aea87ff4c47fenat, x32);
}

proof fn lemma_power_205115282021455665897114700593932402728804164701536103180137503955397371_over_29_part_7()
    requires
        power_mod(10nat, 0x1065996907da14fcd7846ea79d38a0e897f5c56ead7faf0f7a495a0d9nat, 0x1db8260e5e3b460a46a0088fccf6a3a5936d75d89a776d4c0da4f338aafbnat) == 0xc360c4860d3cea5720b28b25e3165ea9cdb318e64d1ab0d879210ea93denat,
    ensures
        power_mod(10nat, 0x1065996907da14fcd7846ea79d38a0e897f5c56ead7faf0f7a495a0d9c2nat, 0x1db8260e5e3b460a46a0088fccf6a3a5936d75d89a776d4c0da4f338aafbnat) == 0xd24f6ac9f3bd34f71a82892971744a77bc1bfae3143cc6ce8c9bc01719anat,
{
    let n = 0x1db8260e5e3b460a46a0088fccf6a3a5936d75d89a776d4c0da4f338aafbnat;
    let e0 = 0x1065996907da14fcd7846ea79d38a0e897f5c56ead7faf0f7a495a0d9nat;
    let x0 = 0xc360c4860d3cea5720b28b25e3165ea9cdb318e64d1ab0d879210ea93denat;
    let x1 = 0x71e77f7a7945625ac9bf351809cd53eee8ab7541a205db88defaef86863nat;
    let e1 = 2 * e0 + 1;
    lemma_power_mod_square_times(10nat, e0, n, x0, 0x322c5acb5c7d3144789ec9ef1cbe0f8bc194970499bab87763938d00e33fnat, x1);
    let x2 = 0x1acfb59921c2ad5a1feeb54180825876053c3bb56083ee5395328b8cb4f2nat;
    let e2 = 2 * e1 + 1;
    lemma_power_mod_square_times(10nat, e1, n, x1, 0x110d925ddd4d0e8d79da32cfa18072d707db93b559b31107fd98cf9fd938nat, x2);
    let x3 = 0x15884cf523ad1ab1647c9e22479acf1c2a0ec248b3011f91a2d875908a92nat;
    let e3 = 2 * e2;
    lemma_power_mod_square(10nat, e2, n, x2, 0x18301c9824f7a240ab428fa99d8dc5e58a18f9c92dbb9552048e205287f6nat, x3);
    let x4 = 0xc5e026a6e27e20a0967e02b32dbd007ed6f701b0d5effc31d2112b03ccdnat;
    let e4 = 2 * e3;
    lemma_power_mod_square(10nat, e3, n, x3, 0xf99cdf16bbac63239f02e673c84076e05298c0e521f39b1b9809c8ee1b5nat, x4);
    let x5 = 0x110927cd3f02ff667ae25a400e872427606bfcf5fc060a46855323cd34danat;
    let e5 = 2 * e4;
    lemma_power_mod_square(10nat, e4, n, x4, 0x5257bf570995cde06c85638413ad7a2bad4c51c7c946e436969fd4624bdnat, x5);
    let x6 = 0x19f82d7b9cb8936504eecc31fa52356d7c89bdeb9953df9d38aef833c281nat;
    let e6 = 2 * e5;
    lemma_power_mod_square(10nat, e5, n, x5, 0x9c3e8a11d8caabdde8a879723b9241aab8b69253de2247bb265849c5bf9nat, x6);
    let x7 = 0x1373cac2d546a08f8cfecf2958d1f7d7ad68103be906c4a9744693985293nat;
    let e7 = 2 * e6 + 1;
    lemma_power_mod_square_times(10nat, e6, n, x6, 0xe2ed538ce304bebdd900310487e4af5f3b9fc1622a06711a23a72238b4b5nat, x7);
    let x8 = 0xd24f6ac9f3bd34f71a82892971744a77bc1bfae3143cc6ce8c9bc01719anat;
    let e8 = 2 * e7;
    lemma_power_mod_square(10nat, e7, n, x7, 0xcbb71783e98f70a9d0825efe948db6261f640fc7a91e3d0d192c0f0233dnat, x8);
}

proof fn lemma_power_205115282021455665897114700593932402728804164701536103180137503955397371_over_29()
    ensures
        power_mod(10nat, 0x1065996907da14fcd7846ea79d38a0e897f5c56ead7faf0f7a495a0d9c2nat, 0x1db8260e5e3b460a46a0088fccf6a3a5936d75d89a776d4c0da4f338aafbnat) == 0xd24f6ac9f3bd34f71a82892971744a77bc1bfae3143cc6ce8c9bc01719anat,
{
    lemma_power_mod_first(10nat, 0x1db8260e5e3b460a46a0088fccf6a3a5936d75d89a776d4c0da4f338aafbnat);
    lemma_power_205115282021455665897114700593932402728804164701536103180137503955397371_over_29_part_0();
    lemma_power_205115282021455665897114700593932402728804164701536103180137503955397371_over_29_part_1();
    lemma_power_205115282021455665897114700593932402728804164701536103180137503955397371_over_29_part_2();
    lemma_power_205115282021455665897114700593932402728804164701536103180137503955397371_over_29_part_3();
    lemma_power_205115282021455665897114700593932402728804164701536103180137503955397371_over_29_part_4();
    lemma_power_205115282021455665897114700593932402728804164701536103180137503955397371_over_29_part_5();
    lemma_power_205115282021455665897114700593932402728804164701536103180137503955397371_over_29_part_6();
    lemma_power_205115282021455665897114700593932402728804164701536103180137503955397371_over_29_part_7();
}

proof fn lemma_power_205115282021455665897114700593932402728804164701536103180137503955397371_over_31_part_0()
    requires
        power_mod(10nat, 1nat, 0x1db8260e5e3b460a46a0088fccf6a3a5936d75d89a776d4c0da4f338aafbnat) == 10nat,
    ensures
        power_mod(10nat, 0x1ead92a37nat, 0x1db8260e5e3b460a46a0088fccf6a3a5936d75d89a776d4c0da4f338aafbnat) == 0x184f1c3be42835311f989c208ecb77bcb8f9abdd55ad6fbe4d636bf5d24fnat,
{
    let n = 0x1db8260e5e3b460a46a0088fccf6a3a5936d75d89a776d4c0da4f338aafbnat;
    let e0 = 1nat;
    let x0 = 10nat;
    let x1 = 1000nat;
    let e1 = 2 * e0 + 1;
    lemma_power_mod_square_times(10nat, e0, n, x0, 0nat, x1);
    let x2 = 0x989680nat;
    let e2 = 2 * e1 + 1;
    lemma_power_mod_square_times(10nat, e1, n, x1, 0nat, x2);
    let x3 = 0x38d7ea4c68000nat;
    let e3 = 2 * e2 + 1;
    lemma_power_mod_square_times(10nat, e2, n, x2, 0nat, x3);
    let x4 = 0xc9f2c9cd04674edea40000000nat;
    let e4 = 2 * e3;
    lemma_power_mod_square(10nat, e3, n, x3, 0nat, x4);
    let x5 = 0x63917877cec0556b21269d695bdcbf7a87aa000000000000000nat;
    let e5 = 2 * e4 + 1;
    lemma_power_mod_square_times(10nat, e4, n, x4, 0nat, x5);
    let x6 = 0x19154e1c8698ba26081803c5b582f7ff56b24ea23c00de26999cd27acce1nat;
    let e6 = 2 * e5;
    lemma_power_mod_square(10nat, e5, n, x5, 0x14d9501545d1adcbf0cf6502907473493c8e4945f2dnat, x6);
    let x7 = 0x771fcbea4ea1d29a708bc96674406101ef6d50c010f736f86be36ba6571nat;
    let e7 = 2 * e6 + 1;
    lemma_power_mod_square_times(10nat, e6, n, x6, 0xd3b40c74d78d25eec5df62fb89e8e4327bd7fc2c2c8a4608aa64c024e0fbnat, x7);
    let x8 = 0xa116c7b961d572b55d8be3cb49e54bb960fed53ae232aa4794a1244e299nat;
    let e8 = 2 * e7;
    lemma_power_mod_square(10nat, e7, n, x7, 0x1dd7c84d4ba34af9e0a54117c2f06c2baaf4734e8f0ada6b12e36a5a958nat, x8);
    let x9 = 0x156fffdf8d3638f1e5183b0b536a555a186c63446c963cdaef6d828e1e6bnat;
    let e9 = 2 * e8 + 1;
    lemma_power_mod_square_times(10nat, e8, n, x8, 0x221b9399019138b60c7e976b7a8aaa54322e0c54441f4e4113c9a97b03cdnat, x9);
    let x10 = 0x19b9b9b40a546586131dabb4fc86a9ffc0eb1238708275765c1d0565ee9dnat;
    let e10 = 2 * e9 + 1;
    lemma_power_mod_square_times(10nat, e9, n, x9, 0x9aa2af67c4fc7f1447992bdfa091826afa9c47ab5d74f64fa510ac95f747nat, x10);
    let x11 = 0x7d7ece8faa9fd1a2486e10b0795487fc115ef2df794c32b7e3a6e5e8c39nat;
    let e11 = 2 * e10;
    lemma_power_mod_square(10nat, e10, n, x10, 0x1644b3673f1c9ea5a1d4b502e7cf90f9b3ede56f230c223a9c6cf9e44330nat, x11);
    let x12 = 0x1bf3de28c2d60775893ea49ba7a72a66c6ad6c7cd5aefd3cc294e5ef9d49nat;
    let e12 = 2 * e11 + 1;
    lemma_power_mod_square_times(10nat, e11, n, x11, 0x14b34580d836e9cf0f8a7ff1e3dd42a1bc6a12c29134fb454cc250091313nat, x12);
    let x13 = 0x502498a1d637100a3a0ea3898db1feaebbe0634e5b332dc2c35de95e476nat;
    let e13 = 2 * e12 + 1;
    lemma_power_mod_square_times(10nat, e12, n, x12, 0x106e8bc8f516a9c0d9f1a3bdba6806a18cf637cc08ea0d6d6691065da20dcnat, x13);
    let x14 = 0x1b115ec8f6e5863e64d67145c36b833c5e116c2ae9edc67bbae7ed3cd38dnat;
    let e14 = 2 * e13;
    lemma_power_mod_square(10nat, e13, n, x13, 0xd81e4cfb59415fb13516291188cd07166de172a87a30f3ebe6b7b0f0d5nat, x14);
    let x15 = 0x1228b019d90c50865bb27e1e1ad6a933dd7112428c3fd8c1d76cb2028521nat;
    let e15 = 2 * e14;
    lemma_power_mod_square(10nat, e14, n, x14, 0x18a7268f1278ee0999b78a7ff4e45ac35a7cc7889c3446c710b0a74e5d18nat, x15);
    let x16 = 0xd59e8e73e8f779cf40dfd0f38879412720de62252bb0953a99a83d38829nat;
    let e16 = 2 * e15 + 1;
    lemma_power_mod_square_times(10nat, e15, n, x15, 0x6ef42641994d3b30a1dcd64f9f88772858625fcf25151e48838390a69553nat, x16);
    let x17 = 0x982bfae0d127f5fa7b7b85224fff0d4d91fe5d0c3ef9fa9c407dd5b904dnat;
    let e17 = 2 * e16;
    lemma_power_mod_square(10nat, e16, n, x16, 0x5ff791a12dab7493042cddb2bbecbffea7d77cd17dca422abc8e6a27f8cnat, x17);
    let x18 = 0x26aa8260489f4562d3383eab0a21e53d1c722c4afea30b1ce47bb5c6dd0nat;
    let e18 = 2 * e17;
    lemma_power_mod_square(10nat, e17, n, x17, 0x30b2a2f03c1e73622f47d2de773914b2351a9a2d38426ffcbdc25dcecbbnat, x18);
    let x19 = 0xaae8d7c9fa431f55b74a1f33a3a8fab08b4ac057ecc1507b8e4316c242bnat;
    let e19 = 2 * e18 + 1;
    lemma_power_mod_square_times(10nat, e18, n, x18, 0x1f70f9c83f0993fcd310253089cfa2b965c7564719af027ba6f9924496fnat, x19);
    let x20 = 0x6e5fd0a0daa02c3e92c5062e9c301a79f5e43cfc390522531e2a739c793nat;
    let e20 = 2 * e19;
    lemma_power_mod_square(10nat, e19, n, x19, 0x3d6dd488c931c90b6fec42a46439bf9244be155129b19e04a52e1da5612nat, x20);
    let x21 = 0xd3bbe645aa9d8b10e27059d9cb9ba197cb338982276371e990bf9dd9a8dnat;
    let e21 = 2 * e20 + 1;
    lemma_power_mod_square_times(10nat, e20, n, x20, 0x10032d6e40c773e0e69a63305a31d422901791ab4eb4f36bdd248827db17nat, x21);
    let x22 = 0x105f668e3e5585d96ee781c86dcdb9d53de4f888b967e0a8fa938d403fcenat;
    let e22 = 2 * e21;
    lemma_power_mod_square(10nat, e21, n, x21, 0x5e47d2604635707c5e8ba49617e7aea41a228cd1a0038d9d74c07fc5ea1nat, x22);
    let x23 = 0x2b125e86a88bf826f5df2a51c9bd8b936fea9188674ad0bed17bb43575enat;
    let e23 = 2 * e22 + 1;
    lemma_power_mod_square_times(10nat, e22, n, x22, 0x5a32d1e6565fa37267dfe52758447c8340befcf0bbe3f2da2c5680232cbenat, x23);
    let x24 = 0xbe47f5c5f6a42d0328feea92deaef0da2919b4afee7f0f61c2949faacb8nat;
    let e24 = 2 * e23;
    lemma_power_mod_square(10nat, e23, n, x23, 0x3e6c57972b49613269eba9aac427376d5c9cf3e0028bb1b12ac36da3a4nat, x24);
    let x25 = 0x1aec51c28aefec70bb2547affa8a8c513a4d4e72d66b69b189ca46ecf2abnat;
    let e25 = 2 * e24;
    lemma_power_mod_square(10nat, e24, n, x24, 0x4c24b5f0aced22d1b789a183d4fcf4e86240964dec07db63d7a4256d0afnat, x25);
    let x26 = 0xec639614036aa47d4bd151174aa9c7157bd52c0ce623cc512aac0b68325nat;
    let e26 = 2 * e25;
    lemma_power_mod_square(10nat, e25, n, x25, 0x1863d727ff1c612beb1160e98b29989b85be8cfa89517a31fd19895f04fcnat, x26);
    let x27 = 0x3a7dc1ae20965bbde48552ec71974232fe886987b059d05ac8355eeb817nat;
    let e27 = 2 * e26 + 1;
    lemma_power_mod_square_times(10nat, e26, n, x26, 0x49727f4e194dd442370f043a0495f0d16250d90a8b16ed5dabb2df3caeb9nat, x27);
    let x28 = 0x19f392e88945a6a4650873bfb295bde410e142ff815a327b6002fdced70bnat;
    let e28 = 2 * e27 + 1;
    lemma_power_mod_square_times(10nat, e27, n, x27, 0x47f2da2d18839217731e4e88173a49882ff0f362c193580e60a983856adnat, x28);
    let x29 = 0x2f64d21b192f9b73d2dfd5b20bd14159b9ea44215a0618287568ff71391nat;
    let e29 = 2 * e28;
    lemma_power_mod_square(10nat, e28, n, x28, 0x16a94a22ed24d8a5763675cb234a44e6deb6a0990723bb61f8cafb010038nat, x29);
    let x30 = 0x1bda2d3112c2cce737be9d25ee9cc001e1a3986597b23c67173a09692a00nat;
    let e30 = 2 * e29 + 1;
    lemma_power_mod_square_times(10nat, e29, n, x29, 0x2f3cbc894c6d80b69bf0304bdd95707168ad8dd6df60f197a4534fb53benat, x30);
    let x31 = 0x1d942a37621e8872263000bbd9fc757806f37ae41f64b390f41d6f4cc8fenat;
    let e31 = 2 * e30 + 1;
    lemma_power_mod_square_times(10nat, e30, n, x30, 0x1050652e85318da395ba97a86fa205f426dfdf7ab319135e153b8a5199566nat, x31);
    let x32 = 0x184f1c3be42835311f989c208ecb77bcb8f9abdd55ad6fbe4d636bf5d24fnat;
    let e32 = 2 * e31 + 1;
    lemma_power_mod_square_times(10nat, e31, n, x31, 0x126638373a6631a0229a4926fe24e460e1311b9e313d589a0536e9bd1ba3bnat, x32);
}

proof fn lemma_power_205115282021455665897114700593932402728804164701536103180137503955397371_over_31_part_1()
    requires
        power_mod(10nat, 0x1ead92a37nat, 0x1db8260e5e3b460a46a0088fccf6a3a5936d75d89a776d4c0da4f338aafbnat) == 0x184f1c3be42835311f989c208ecb77bcb8f9abdd55ad6fbe4d636bf5d24fnat,
    ensures
        power_mod(10nat, 0x1ead92a37a0ba3236nat, 0x1db8260e5e3b460a46a0088fccf6a3a5936d75d89a776d4c0da4f338aafbnat) == 0x322c5a3eee5d557ec8a68c1ac1a6d085d81b22f326bd75131a399a1221dnat,
{
    let n = 0x1db8260e5e3b460a46a0088fccf6a3a5936d75d89a776d4c0da4f338aafbnat;
    let e0 = 0x1ead92a37nat;
    let x0 = 0x184f1c3be42835311f989c208ecb77bcb8f9abdd55ad6fbe4d636bf5d24fnat;
    let x1 = 0x66e042921b69e851af05ffc9159fb63b483992ffd9dc1d29451d792cc14nat;
    let e1 = 2 * e0 + 1;
    lemma_power_mod_square_times(10nat, e0, n, x0, 0xc6d622c8a19b60910a29f666719bb532bed84f5c0a2f0d40cd84f30a9142nat, x1);
    let x2 = 0x1499805699eb553a89bd3b756f8353ed117bb7158e295416642a435dc114nat;
    let e2 = 2 * e1;
    lemma_power_mod_square(10nat, e1, n, x1, 0x1641d39e602348c441cbf5f712f4e4379811c82e9c93b6977c2593938b4nat, x2);
    let x3 = 0x566553dd80e53d8f194b74cb30d00d0b38e5a31b9375ee84e66888f506enat;
    let e3 = 2 * e2 + 1;
    lemma_power_mod_square_times(10nat, e2, n, x2, 0x8ec8ac03d5cd96edfb18aff6411f3cca8351e9d84f843d9890a673ec66f6nat, x3);
    let x4 = 0x12545a478f6c12f49d8f5dc4f6fb2e2ff2fc51cd7b2a5b261dd2f060931fnat;
    let e4 = 2 * e3;
    lemma_power_mod_square(10nat, e3, n, x3, 0xfb28594df65da3a65f77371f197572de1150df38c5c01322d764be6b5fnat, x4);
    let x5 = 0x945fb81fb1d4eb4a68479579c7207fc66d485ef2c783fc8877eb04a6b57nat;
    let e5 = 2 * e4;
    lemma_power_mod_square(10nat, e4, n, x4, 0xb4e066f295fd304012e33563b499789d678ae3c983a68c38bec49922b1enat, x5);
    let x6 = 0x184e450c5850a60b75ee98f9621a7c5823cbf40c496629a053c1863df13bnat;
    let e6 = 2 * e5;
    lemma_power_mod_square(10nat, e5, n, x5, 0x2e4c1e73fffc2c18adda495ba9c4081dea4048e5df7286d3cfed624c322nat, x6);
    let x7 = 0xf945f3b66804e82a08c2fd9f4a8ce582a7f415aebcfb623c0d18fdd8cd8nat;
    let e7 = 2 * e6;
    lemma_power_mod_square(10nat, e6, n, x6, 0x13e0d6adab44fefe388d0dde84edaddcbc4f05e0a35e9b661d0c7908d873nat, x7);
    let x8 = 0x5c4678227ffcf4643c03eee56856b89c6e757b98edf4cfa838157befccbnat;
    let e8 = 2 * e7;
    lemma_power_mod_square(10nat, e7, n, x7, 0x82acc991d953f24b3cd725c10853aaab0f5ee5a3d950725001e05adc24fnat, x8);
    let x9 = 0xeaf33dd6b8a1e65896c1c7d81b895559fb009ecf74723d35e633624f210nat;
    let e9 = 2 * e8 + 1;
    lemma_power_mod_square_times(10nat, e8, n, x8, 0xb310bd4359f70ee7cce90fbcaf6410e4032bc54cc3f21ee68d374b346denat, x9);
    let x10 = 0xdd542b0c5783365fae4b3a714d0b6fd08feb77d2b4b416670deb9c543f8nat;
    let e10 = 2 * e9;
    lemma_power_mod_square(10nat, e9, n, x9, 0x7416e19b89db81800385bb7fa42eb54407ed6c4e6be1589ed7201cce898nat, x10);
    let x11 = 0x1bee4341f4a91509d15343dd1a0ea6b05fbfbfc3d2dc256b9ccaf8b5b26bnat;
    let e11 = 2 * e10 + 1;
    lemma_power_mod_square_times(10nat, e10, n, x10, 0x406304e6d4f2a24efa194d54155ebb7f282ce1b984643086811e55fd842fnat, x11);
    let x12 = 0x1a8fe0be7b6d2cbc923cd7e31c8ff1e5d2e2412cf0852081c189c9f39b2fnat;
    let e12 = 2 * e11 + 1;
    lemma_power_mod_square_times(10nat, e11, n, x11, 0x1067f571bbf701be2ec8de122435e61577857e9a6fee221653dd3fc8e8631nat, x12);
    let x13 = 0x343aa23ac167181e5f2f4f3c68b3902b471ebaa65fa6be0fff9790ac5c6nat;
    let e13 = 2 * e12 + 1;
    lemma_power_mod_square_times(10nat, e12, n, x12, 0xed66c21d79bd59a2cf901e98e98fb6aec9822269c0c2e077732b16cb364cnat, x13);
    let x14 = 0x141481063b5463a7050f003927739020cd77b23717b4f65898aec8378e94nat;
    let e14 = 2 * e13;
    lemma_power_mod_square(10nat, e13, n, x13, 0x5bc9ae307fba3b9c313e78265d2d1d3fd3ca8df1f82762dc2daa5a8eb0nat, x14);
    let x15 = 0x262673ab74e895c43b8c5c3f64cb5b7e1b32486a42c360f57c302ce2809nat;
    let e15 = 2 * e14 + 1;
    lemma_power_mod_square_times(10nat, e14, n, x14, 0x87ac35a8e59385cacf5df5b6fa26355ed19fef609ff845e618f94734cb15nat, x15);
    let x16 = 0x177b01326a355d6fe9e4fba9593dd9b8949e8a6372b21e0d7365a57e29a1nat;
    let e16 = 2 * e15;
    lemma_power_mod_square(10nat, e15, n, x15, 0x30f9077602a49387831fc4ba750aeb2e3ddb7e70d200823fd2dbf03510nat, x16);
    let x17 = 0xccdbcc24cdbc3e54efdf95ec3d19e0989498f2e11fa1ddc409eb4ee6509nat;
    let e17 = 2 * e16;
    lemma_power_mod_square(10nat, e16, n, x16, 0x128d2450797080e33448cebda60834c960b6cbd3bcc56e70783bf2d0a128nat, x17);
    let x18 = 0x194fa75bd3b50823ec9561ad6bcccb2709b9b6c34647e9143996d30e85bcnat;
    let e18 = 2 * e17;
    lemma_power_mod_square(10nat, e17, n, x17, 0x5841ccef0fa6aa46acf27530aaa76748aac77afc5f732cee00fc403a9afnat, x18);
    let x19 = 0x11ec36cb1df5bd99e674da86c7aa2fe153492c764a80d2ea5fabe393b03dnat;
    let e19 = 2 * e18 + 1;
    lemma_power_mod_square_times(10nat, e18, n, x18, 0xd79173d907758ef59f2126d685c4ca6e195b78395af15f97b351bc08afb9nat, x19);
    let x20 = 0xeea5758ba71f1b76ccac1207a2ed8cdd8ad0ac76959daa6740509e7f87fnat;
    let e20 = 2 * e19 + 1;
    lemma_power_mod_square_times(10nat, e19, n, x19, 0x6c15f2c7f9abc5baf6425ec261fc516e30c4719e42ad35c965ef851ea3a1nat, x20);
    let x21 = 0xdf2393af336244e0d2a2498065d65160837957626fed849b93a5ab9c495nat;
    let e21 = 2 * e20;
    lemma_power_mod_square(10nat, e20, n, x20, 0x77c54ae71d3f40a27456a02a960b7c522e8f57415380aa03bab74655384nat, x21);
    let x22 = 0x111fe61f07cb9adfe26a955d0fd0694050a7172597a29a8383efec9b96adnat;
    let e22 = 2 * e21;
    lemma_power_mod_square(10nat, e21, n, x21, 0x68b5fcde2ffcb515664f663f484c710e1cb73f6afd738a98c692a15fa64nat, x22);
    let x23 = 0x38a7d99bd1316cc9371f2e171b8cbaf7ba6fb651dda3a6fcc425582f9e7nat;
    let e23 = 2 * e22 + 1;
    lemma_power_mod_square_times(10nat, e22, n, x22, 0x62ac81ef138631657b14302ee0078d77583d29f3ae3e002022d24da31729nat, x23);
    let x24 = 0x1202d51b27d2305c14e381efd4fecb76f2a5aa67eac029365b4696bf8adfnat;
    let e24 = 2 * e23;
    lemma_power_mod_square(10nat, e23, n, x23, 0x6c01855e16515ee73d1063165c2368c6c84bedde78b40225ea6ea03616nat, x24);
    let x25 = 0x8009a5e3211a66fab66044236600e7f56b5d2f9a1e798240b9a25610d06nat;
    let e25 = 2 * e24;
    lemma_power_mod_square(10nat, e24, n, x24, 0xaea57c55e79d9403d6222bc6ddce9d681098bd90e34f1f57926b9928ec1nat, x25);
    let x26 = 0xf4019f1ab661d5812a6bb0ff99c356ad40ac6d6e841b8475a61ab239bfcnat;
    let e26 = 2 * e25;
    lemma_power_mod_square(10nat, e25, n, x25, 0x2279d9e8c5c8a7840d24cb7d553b517791e0f6b84224578c6e5bd6687f8nat, x26);
    let x27 = 0xb3414cd1b4578789183450312f09c64f74953e80ebf7ed0f0e5726fb751nat;
    let e27 = 2 * e26 + 1;
    lemma_power_mod_square_times(10nat, e26, n, x26, 0x4e41caee77d1227cb8aad9e2bb985b20e6aed31e6406efc50ec656ca8abdnat, x27);
    let x28 = 0x5f22dcfa986dbf47b5a5e1a6a591483ddb4db7092f206d765ac7ef8e441nat;
    let e28 = 2 * e27 + 1;
    lemma_power_mod_square_times(10nat, e27, n, x27, 0x2a3bf2756492c606c3ff1172c741df11a6205fc76f04ee19d25295e949cbnat, x28);
    let x29 = 0xa8f384bf3e8d5aa22a7783666f80efae2874dbaf240e38c7149c458bbe9nat;
    let e29 = 2 * e28;
    lemma_power_mod_square(10nat, e28, n, x28, 0x1308bb13f9c04aed5b0fcf5c689c509b6a3f0a19d4b1bb16a75ac723248nat, x29);
    let x30 = 0x535faa15cf3584bcfedb4d5a74f0f90c1f1f55eca12fa9703af420a4be0nat;
    let e30 = 2 * e29 + 1;
    lemma_power_mod_square_times(10nat, e29, n, x29, 0x2584b2f9fc49d258dbd18ddd9e41caeb4188cbae2a085625ea8a5b3ab03enat, x30);
    let x31 = 0x18d44dddef822c86136e55d9fa1a05b9be2d071cea73227d0a293884ea14nat;
    let e31 = 2 * e30 + 1;
    lemma_power_mod_square_times(10nat, e30, n, x30, 0x922f08b69f376830a8deb4f9cbec509eb6e39c5f339f265bd8fd10b1604nat, x31);
    let x32 = 0x322c5a3eee5d557ec8a68c1ac1a6d085d81b22f326bd75131a399a1221dnat;
    let e32 = 2 * e31;
    lemma_power_mod_square(10nat, e31, n, x31, 0x14be7028d4fa4631638848c80989c9b749b614aa22e7269ddb1d34e2a3e9nat, x32);
}

proof fn lemma_power_205115282021455665897114700593932402728804164701536103180137503955397371_over_31_part_2()
    requires
        power_mod(10nat, 0x1ead92a37a0ba3236nat, 0x1db8260e5e3b460a46a0088fccf6a3a5936d75d89a776d4c0da4f338aafbnat) == 0x322c5a3eee5d557ec8a68c1ac1a6d085d81b22f326bd75131a399a1221dnat,
    ensures
        power_mod(10nat, 0x1ead92a37a0ba32361ad74315nat, 0x1db8260e5e3b460a46a0088fccf6a3a5936d75d89a776d4c0da4f338aafbnat) == 0x1ceb116729d4599ee1ee977ef42fd5c8a76dab2aefa5f3baa208eb17506bnat,
{
    let n = 0x1db8260e5e3b460a46a0088fccf6a3a5936d75d89a776d4c0da4f338aafbnat;
    let e0 = 0x1ead92a37a0ba3236nat;
    let x0 = 0x322c5a3eee5d557ec8a68c1ac1a6d085d81b22f326bd75131a399a1221dnat;
    let x1 = 0x4759ce9d08e83084151e71bc34be49713be44989c30eff9ff7537ee31a7nat;
    let e1 = 2 * e0;
    lemma_power_mod_square(10nat, e0, n, x0, 0x54b44d43c533c48aec9b22ae94225cef80b38df81bdb070dcffb7f3f46nat, x1);
    let x2 = 0x2f6d8cb1a23b536c3700727440fb9ca2151b231c8686f869daf4bd5d48bnat;
    let e2 = 2 * e1;
    lemma_power_mod_square(10nat, e1, n, x1, 0xab4cf1602946e95a6f8f287ee4e17e764b36442a3fb1f63d40bfbea652nat, x2);
    let x3 = 0x17896f6224b4d3fa256e9f13e3c61c1b96665052c9b1d57aa9358bc10b66nat;
    let e3 = 2 * e2;
    lemma_power_mod_square(10nat, e2, n, x2, 0x4bb03a7aaeceb7c508fc4446e62663e0c23ff67844cfc97b29b0da5bc9nat, x3);
    let x4 = 0x1b332c4a83b2d75eb6b97ff79735b66834b3f2418fc448b2ce6b0168e2acnat;
    let e4 = 2 * e3 + 1;
    lemma_power_mod_square_times(10nat, e3, n, x3, 0xba67b6dd98d71591c6e1cddd92170249fd446c30735aed9fb86a6d690674nat, x4);
    let x5 = 0x8f64c34c65261c61ef107d0aeb78dc2aa63604ee9797f8ffdf8c42d9e29nat;
    let e5 = 2 * e4 + 1;
    lemma_power_mod_square_times(10nat, e4, n, x4, 0xf8f0bf55ceff91c45e0dddb8bfdf8180aeaccf2c17e2f9ad99de958b06b5nat, x5);
    let x6 = 0x1a466844d6c6fa28de9f068e55a10abde234418f022af767c15734d4c2bdnat;
    let e6 = 2 * e5;
    lemma_power_mod_square(10nat, e5, n, x5, 0x2b3dd1b265274fda8a8ae17db766985060491fa2ce5e779b3a00751d73cnat, x6);
    let x7 = 0x1178d08471f59c5ba9a990db27a04858f56f80d5b07d3dfd509f3f027ea0nat;
    let e7 = 2 * e6 + 1;
    lemma_power_mod_square_times(10nat, e6, n, x6, 0xe84c8c3991ec72fa83b2d5c88a3d5c04377cccd1a63fd543ae19d88cf90enat, x7);
    let x8 = 0x1c6c642b8241c58b29feedce0e6b4e3d32abe5ebf1cc15fa731a9bbd9866nat;
    let e8 = 2 * e7;
    lemma_power_mod_square(10nat, e7, n, x7, 0xa458ee6a3f846c9a3dbdaddb5faf9c6ff2b03d75c94282deef8b7b42faenat, x8);
    let x9 = 0x1358681f4057d6ee5bb7aacfc5d281f5772279a1ec3a027608e0bbde25e5nat;
    let e9 = 2 * e8 + 1;
    lemma_power_mod_square_times(10nat, e8, n, x8, 0x10fd700f76313d2e13bba0e7a82d7fea83ba45be03d81501ed576f9c99a19nat, x9);
    let x10 = 0x1918df389d525aacfe890c88844c6047581fea1c868dc18cb45ad8960ed7nat;
    let e10 = 2 * e9 + 1;
    lemma_power_mod_square_times(10nat, e9, n, x9, 0x7deced029a6cbe5f3c9bde2d4ed18c297c7715f04ecec3dae77fd0972f79nat, x10);
    let x11 = 0xc655f4a700575f9f5cf62d430641cb6d9cac9ea564ec221d326bc317f00nat;
    let e11 = 2 * e10;
    lemma_power_mod_square(10nat, e10, n, x10, 0x1531a09c0ced6dd28b8634d7de7825b2ccc6e00362243c4f822a3782c7e3nat, x11);
    let x12 = 0x105f0b5de5afbd3daeaa549b7b6878f40695cc3b6700637180168aa75ebanat;
    let e12 = 2 * e11 + 1;
    lemma_power_mod_square_times(10nat, e11, n, x11, 0x33b4310a6503689ba23b560dc68802c36539720f3125164168da8aa300f2nat, x12);
    let x13 = 0xfb22fdc828b9cc6f7e305075f7c0833a231b4fa4417f6127789a9abf2c3nat;
    let e13 = 2 * e12;
    lemma_power_mod_square(10nat, e12, n, x12, 0x904b08549808fde3cae1e80666bd8748a5676b143c1ed2301ae862ca753nat, x13);
    let x14 = 0x9cab13e4151be16df4833f039bb757da523282b5fbfb5e997c231a8b2b9nat;
    let e14 = 2 * e13 + 1;
    lemma_power_mod_square_times(10nat, e13, n, x13, 0x52e5c1327204d5d821e6c0c57870bc3d99a55806fe27ecd0ddd8d697c613nat, x14);
    let x15 = 0xb26a9392a3a58cb6b7f068b02632f0055af4eb62dff6bea8d9067831cd7nat;
    let e15 = 2 * e14 + 1;
    lemma_power_mod_square_times(10nat, e14, n, x14, 0x2042eaaa2afd95709a298cc314681466e9cdcedd2982052ceffb9d327fc9nat, x15);
    let x16 = 0x13f518137654a776046a66e2bccacd0879f6e9d33bdb72f6cb5854e6696dnat;
    let e16 = 2 * e15 + 1;
    lemma_power_mod_square_times(10nat, e15, n, x15, 0x29d7008681c112db0e1c6f6fefcc18a3f33777a0dc683d554b9d4c363827nat, x16);
    let x17 = 0x185218329f4945cfd1784e2de7169299906d90919dbba232285061f53e97nat;
    let e17 = 2 * e16;
    lemma_power_mod_square(10nat, e16, n, x16, 0xd66e7e7e92499d110fc30d785bdf260889ce6a4d0a058a232786d0b84d6nat, x17);
    let x18 = 0x542dbd33e015e77898ed6016bf52e2edd4b3e593244970730b587dc08ecnat;
    let e18 = 2 * e17 + 1;
    lemma_power_mod_square_times(10nat, e17, n, x17, 0xc706f783aed1a18703c257211c30166ed22d049cc81a81cee924be6bc0danat, x18);
    let x19 = 0x11a3de1a721f718a4119a34373de8f5665be3344cd67429923ffd8a2d1e2nat;
    let e19 = 2 * e18;
    lemma_power_mod_square(10nat, e18, n, x18, 0xee6eaacfadc9e7ce511fd3bdeec267bbe475753d0616d15aeadcad27aanat, x19);
    let x20 = 0x1224dbc40312aab95bc9ccb9462e124122172cc675449df2723e4ae6f7b1nat;
    let e20 = 2 * e19;
    lemma_power_mod_square(10nat, e19, n, x19, 0xa786c67784f45752184f1e4626cfa3f32e9cdc7643e40ef298b0488a309nat, x20);
    let x21 = 0x119f117c73d062ccc416f7ff5b283ab2bfedbbedd4e6b55f6718f197886cnat;
    let e21 = 2 * e20;
    lemma_power_mod_square(10nat, e20, n, x20, 0xb13bcb8a1f2c315f10c20a5f44894a07df8a435417138fe1147aec78dcfnat, x21);
    let x22 = 0x12bd30273526b2792f5f75fa48b6923386ab61a1776824252482b7e0c2ccnat;
    let e22 = 2 * e21;
    lemma_power_mod_square(10nat, e21, n, x21, 0xa72baabdb16aebab04a7dc9b7897a8e0b413aa0f70cb4fdc4b7d1cdc50cnat, x22);
    let x23 = 0x12130b1ba24b7a0928307ff78338545bdaba9370dd6655208935d070b3f6nat;
    let e23 = 2 * e22 + 1;
    lemma_power_mod_square_times(10nat, e22, n, x22, 0x7627d981161f4b35d7d446b2f4d896f1e7a57e4f8758e4b016d51683c0denat, x23);
    let x24 = 0x479275156efa94827ade88987f489c573773ba75f77e17e0905d67d3325nat;
    let e24 = 2 * e23 + 1;
    lemma_power_mod_square_times(10nat, e23, n, x23, 0x6dec435e8241153d5e428b731484c597cec3dd40afb4f5efc3e08c4426d9nat, x24);
    let x25 = 0x1af05c4743d7591f4b0f29a41b52d9372cc3317b219582484bd94a5cdfdenat;
    let e25 = 2 * e24;
    lemma_power_mod_square(10nat, e24, n, x24, 0xac5d610bffc2c6a1bac753bcff478b4e0fd6e457f402c84697f1ff4181nat, x25);
    let x26 = 0x16e7aca2554adf8158f02fe636db73e0483715d7f55c634a00067414742bnat;
    let e26 = 2 * e25;
    lemma_power_mod_square(10nat, e25, n, x25, 0x186b2a12a082b8173179de0bd4f8aea3a8d7570f3a6936b7a89b149991bbnat, x26);
    let x27 = 0x5298e907dac937dbb9dffb72ddd5c9c8561e9d5d12879cbfddea698d119nat;
    let e27 = 2 * e26;
    lemma_power_mod_square(10nat, e26, n, x26, 0x11a730e51e867368ae1f72428f44666605107295fd14d2e361429fe53060nat, x27);
    let x28 = 0x17da7571402e67fa54d0036f897fd01faa70d9ab2dd434456dad9278da2fnat;
    let e28 = 2 * e27 + 1;
    lemma_power_mod_square_times(10nat, e27, n, x27, 0x8f794e4d79675423b148d94f0dafc93eb935838c724a44ab14d6bbbb1c1nat, x28);
    let x29 = 0x77b31783488f7f2931df6cfad15a3f0799986c5850a4a8c6aba697ac6c1nat;
    let e29 = 2 * e28;
    lemma_power_mod_square(10nat, e28, n, x28, 0x13252bcf6f58d2cd06cae9ad51e8b98a2c74adcbfa45d18477616ee083a0nat, x29);
    let x30 = 0x19b32d3d2dd310108db9c53d90e74add632a6ddb139a5e29042167dd974fnat;
    let e30 = 2 * e29 + 1;
    lemma_power_mod_square_times(10nat, e29, n, x29, 0x12d519cd396455c6f17718e33729d0681d755cf7ef60bd6a60f048a19241nat, x30);
    let x31 = 0x855bb8f31a2d14ca40d8c09767d3a346ca8cddfc6e29df73fff8ebdae7bnat;
    let e31 = 2 * e30;
    lemma_power_mod_square(10nat, e30, n, x30, 0x16395e808289a4f7e835a4ae137bb6fbedd2cdede9055a2149c0b5dfeed2nat, x31);
    let x32 = 0x1ceb116729d4599ee1ee977ef42fd5c8a76dab2aefa5f3baa208eb17506bnat;
    let e32 = 2 * e31 + 1;
    lemma_power_mod_square_times(10nat, e31, n, x31, 0x176021458fbc234d401cac4a9e35df112490ad93a6212d16768c281c7e7dnat, x32);
}

proof fn lemma_power_205115282021455665897114700593932402728804164701536103180137503955397371_over_31_part_3()
    requires
        power_mod(10nat, 0x1ead92a37a0ba32361ad74315nat, 0x1db8260e5e3b460a46a0088fccf6a3a5936d75d89a776d4c0da4f338aafbnat) == 0x1ceb116729d4599ee1ee977ef42fd5c8a76dab2aefa5f3baa208eb17506bnat,
    ensures
        power_mod(10nat, 0x1ead92a37a0ba32361ad743157b445d43nat, 0x1db8260e5e3b460a46a0088fccf6a3a5936d75d89a776d4c0da4f338aafbnat) == 0x5a9f3c0e1a00ae7d9b89ccedb9acdab894295cff4fd3b4ff9fffdc11f0enat,
{
    let n = 0x1db8260e5e3b460a46a0088fccf6a3a5936d75d89a776d4c0da4f338aafbnat;
    let e0 = 0x1ead92a37a0ba32361ad74315nat;
    let x0 = 0x1ceb116729d4599ee1ee977ef42fd5c8a76dab2aefa5f3baa208eb17506bnat;
    let x1 = 0x15f3b5175d43e63014d1082366febb899a9a04c7ae856732e3165ecca73bnat;
    let e1 = 2 * e0;
    lemma_power_mod_square(10nat, e0, n, x0, 0x1c2383ed046133277b80385b4a9b679bd5abe32f3cdefccbf519271e981anat, x1);
    let x2 = 0xfc2a4c6761ab66b6b2d236ed66aa2db9416783daa0e742ad4edc5aa1302nat;
    let e2 = 2 * e1 + 1;
    lemma_power_mod_square_times(10nat, e1, n, x1, 0xa225965c95e8f5ba09bf970db5b133b5edd3572f6039e484f83df6fad968nat, x2);
    let x3 = 0xe9920d041590b938e7081c2da27deeff2244b63fddf7917a19efe51f23dnat;
    let e3 = 2 * e2 + 1;
    lemma_power_mod_square_times(10nat, e2, n, x2, 0x5393f0b45e5e4a3d70d131e989a5911ed2a6d6e4f6bf0d84cfe3cbdb1dd1nat, x3);
    let x4 = 0x1cc2fae50fc36d382b8a33aca575d42017d1673eef8029910bf7649e9606nat;
    let e4 = 2 * e3 + 1;
    lemma_power_mod_square_times(10nat, e3, n, x3, 0x47b4cd08481633c9cb92eb546382990d09838d550d26d25a046e7496a9bcnat, x4);
    let x5 = 0x91c253827c77ded6395bdaa8f6e8dfe441ff08a9231842d8d4b71c6f5anat;
    let e5 = 2 * e4 + 1;
    lemma_power_mod_square_times(10nat, e4, n, x4, 0x116591e6f0423303bcb2a6c606cffc5573289562a5785dcc98bbcf3cf68canat, x5);
    let x6 = 0x75e30c35e80755d81808c1166f24fdb2d9ef35af8fce233b0de9463ddd9nat;
    let e6 = 2 * e5;
    lemma_power_mod_square(10nat, e5, n, x5, 0x2cae0e7334a0691ae57610d129f74be38e90f363f5d14f4e83caf6f71nat, x6);
    let x7 = 0x59e087d59e8c91143432a02d52431713b092c4d3c71fa2bf891a46ff52fnat;
    let e7 = 2 * e6 + 1;
    lemma_power_mod_square_times(10nat, e6, n, x6, 0x12443086eb7fef2b6bd1718db70d365a794111794aec48ba4698bd2335c1nat, x7);
    let x8 = 0xd086610adf644c48a3257b22cb36fedc020d486cca9a8682a771987a6a8nat;
    let e8 = 2 * e7 + 1;
    lemma_power_mod_square_times(10nat, e7, n, x7, 0xa9e0eff68ed0212b76587c255e302fb6bcdc4f1e2916843ed98cf7cb146nat, x8);
    let x9 = 0xff2347716958861ba757e98a24d396a41d6f5bb9b549702122542c68790nat;
    let e9 = 2 * e8;
    lemma_power_mod_square(10nat, e8, n, x8, 0x5b71c16729976e72e580251637871dab40fdc847b9af39e7a05f83b9510nat, x9);
    let x10 = 0x406dfc48df9accc322ecd582db52ea67c283b1deb52826a98c7306584f3nat;
    let e10 = 2 * e9 + 1;
    lemma_power_mod_square_times(10nat, e9, n, x9, 0x558f5a938a64a7aebe57e5fbca0f77fc2bd8ebc3ba47ec0204bccc56b197nat, x10);
    let x11 = 0x636ba22d8c4eb7c89918bfa689d353ef5f46fd006d757fff1e4831ba819nat;
    let e11 = 2 * e10;
    lemma_power_mod_square(10nat, e10, n, x10, 0x8badeb0e7dc8d1bab6bbff7c756e1bc78b829eaa10d5ed90a5e2d6beb0nat, x11);
    let x12 = 0x540eced31eac4180a3bce5db1a57c657aaf47771cfb6a7708ab5daf2a5nat;
    let e12 = 2 * e11;
    lemma_power_mod_square(10nat, e11, n, x11, 0x14c97a9d37f12df95c149c86cbacfdea35e7a9c0358a0a1deed3adb55a4nat, x12);
    let x13 = 0x602c0aa8f60dbb4e0c7b03d10f9b077d3f40ab1175732555bd5882026nat;
    let e13 = 2 * e12;
    lemma_power_mod_square(10nat, e12, n, x12, 0xedbf921abd16e0ea93892a28680805f4ac089e76fd077ea62bd7d429nat, x13);
    let x14 = 0x27e354d5ce67a1199f834e8489d415f18a02dce910f021162da06bcf2b6nat;
    let e14 = 2 * e13 + 1;
    lemma_power_mod_square_times(10nat, e13, n, x13, 0xc2822e57c44df0b32ac1c5a318262eed59ea776733a568674508276nat, x14);
    let x15 = 0x7227725811d8988b2e3392444b6ba5bca123efc020982eabc556ed525e0nat;
    let e15 = 2 * e14;
    lemma_power_mod_square(10nat, e14, n, x14, 0x358936382831f51277f11bdd0098c771f949d21fc29652132893ff434cnat, x15);
    let x16 = 0xf10d8563e2e051aa5861e3369db271653a567b988012466fc987930c259nat;
    let e16 = 2 * e15;
    lemma_power_mod_square(10nat, e15, n, x15, 0x1b6795cbb2791d50fca148c00958f2f56f7395abb33ceca4bd91d1b4445nat, x16);
    let x17 = 0x1c85d2ff322e5bbd294a82573bba796c57cef2e39877718e6c996500375anat;
    let e17 = 2 * e16;
    lemma_power_mod_square(10nat, e16, n, x16, 0x7a32c8646e3d9a481fbd842e3b13ac06d7a5282dd5a8cb7fae3fdc33f15nat, x17);
    let x18 = 0x8978efd5cf0f01941148137f9e80a1ee0b1900ec56b9b4149e19c469efenat;
    let e18 = 2 * e17 + 1;
    lemma_power_mod_square_times(10nat, e17, n, x17, 0x111be54fd8869acb6779e329a165083a3478e99b723ff51217cc122a8241enat, x18);
    let x19 = 0x107d639b82b4f19d06fa368171626fc261480da9b11072e19ea8482dd9f4nat;
    let e19 = 2 * e18;
    lemma_power_mod_square(10nat, e18, n, x18, 0x27be79d5bbfaef38c2537e8b4a710bf10faccc84fc4c17b65a31916e130nat, x19);
    let x20 = 0x6fae02d9707146dd0c4c73f8a5e1d6c26c817c7191c56c40f8d666bc726nat;
    let e20 = 2 * e19 + 1;
    lemma_power_mod_square_times(10nat, e19, n, x19, 0x5b7e6bb361f34450e4594ed69f81faf3448df3dbf165cd42996f2b48724enat, x20);
    let x21 = 0x166ca04c1443a652661fd2b8066a068812ed81ed2a51b27f311d1a62d1a9nat;
    let e21 = 2 * e20 + 1;
    lemma_power_mod_square_times(10nat, e20, n, x20, 0x1064b7936f0ef3e1df61e9ec677e6393d3e35ce385554dbe16a37560800dnat, x21);
    let x22 = 0x121049f898612f04c84a251162ccb934b06cb6e88218dfc392bd233c75b7nat;
    let e22 = 2 * e21 + 1;
    lemma_power_mod_square_times(10nat, e21, n, x21, 0xa9331f3ac6b002ac2c40a21e7bca4ac139eaaad06df0b798a12fdd745b69nat, x22);
    let x23 = 0x5051aa923b4e5f3470ce92e508863e1458e76632706515199f3574d301bnat;
    let e23 = 2 * e22;
    lemma_power_mod_square(10nat, e22, n, x22, 0xafaad4e8cbe3b7c83227b61a105bfb654b7b4aa8753313390de19274c42nat, x23);
    let x24 = 0x103e89e19d631fffad3bd080f057b8002a106f5e09742eb2e6dffc210338nat;
    let e24 = 2 * e23 + 1;
    lemma_power_mod_square_times(10nat, e23, n, x23, 0x87ab073797f380a5efdbf0dbefd7482d7238edfeb74e8425e2325a36826nat, x24);
    let x25 = 0xc5ed972a44b46b1bc64596b6ff575dd492eb081457303ed334b6ebfcc46nat;
    let e25 = 2 * e24;
    lemma_power_mod_square(10nat, e24, n, x24, 0x8e1041591f5fec4422eaafa58a4744007abf416d259e8737756c7b1cecenat, x25);
    let x26 = 0x16775eb6a5c00f2ff906e76aff469c93a37fac45b4987996388d95a83e3enat;
    let e26 = 2 * e25 + 1;
    lemma_power_mod_square_times(10nat, e25, n, x25, 0x337dd577d660df4fbe9621394528414870fefae40c361ed95fb892f8bb5enat, x26);
    let x27 = 0x8ae3b7d201a8483fd1ce7961eba2c579c16f973048fe4a9d9e527ef9967nat;
    let e27 = 2 * e26;
    lemma_power_mod_square(10nat, e26, n, x26, 0x10fbbd960bbc0feffc2e8c95cc776a3b77662c06bb0a0bf1fc8743449647nat, x27);
    let x28 = 0x1a6db29322c2040e68704482e9c05f4b6d7335d8e45d77d97230f67b8a7enat;
    let e28 = 2 * e27;
    lemma_power_mod_square(10nat, e27, n, x27, 0x2891523d072b8537b67b6e4d63dec2d45f9b76c981c934e590e8a2b1469nat, x28);
    let x29 = 0x112f069af03558237cdc2a97ccf3c6f6f512b2d25d43c58172a9de82ef33nat;
    let e29 = 2 * e28;
    lemma_power_mod_square(10nat, e28, n, x28, 0x178087f9e958d23cb0a0c07f409f6ff35edb1c671b0aec2573dc22168ba3nat, x29);
    let x30 = 0xfd1e8a0575c58080537cf7cc8bc0ab9b3057f11a7dd1962ead6e9fd98c4nat;
    let e30 = 2 * e29;
    lemma_power_mod_square(10nat, e29, n, x29, 0x9ef836db7f6e8d34b2ab13981a68c4018796a8b0e7ece9f4de72064351fnat, x30);
    let x31 = 0x11aa09d081a40b57c82afe4e561c04bb495c89314bcaa7e3a28fac867ff0nat;
    let e31 = 2 * e30 + 1;
    lemma_power_mod_square_times(10nat, e30, n, x30, 0x5436263768aefdcd153ff69bce6c6cd54a5c14a4cfbd3c3102181cacf710nat, x31);
    let x32 = 0x5a9f3c0e1a00ae7d9b89ccedb9acdab894295cff4fd3b4ff9fffdc11f0enat;
    let e32 = 2 * e31 + 1;
    lemma_power_mod_square_times(10nat, e31, n, x31, 0x68fd89d13c208a2e39bf975f808f325e9c0f9103101d3d0ad00889a96e36nat, x32);
}

proof fn lemma_power_205115282021455665897114700593932402728804164701536103180137503955397371_over_31_part_4()
    requires
        power_mod(10nat, 0x1ead92a37a0ba32361ad743157b445d43nat, 0x1db8260e5e3b460a46a0088fccf6a3a5936d75d89a776d4c0da4f338aafbnat) == 0x5a9f3c0e1a00ae7d9b89ccedb9acdab894295cff4fd3b4ff9fffdc11f0enat,
    ensures
        power_mod(10nat, 0x1ead92a37a0ba32361ad743157b445d4351627112nat, 0x1db8260e5e3b460a46a0088fccf6a3a5936d75d89a776d4c0da4f338aafbnat) == 0x11c6e5146754f47aa4527cea63f8e2e4192161d34e46eb113fe80df3487nat,
{
    let n = 0x1db8260e5e3b460a46a0088fccf6a3a5936d75d89a776d4c0da4f338aafbnat;
    let e0 = 0x1ead92a37a0ba32361ad743157b445d43nat;
    let x0 = 0x5a9f3c0e1a00ae7d9b89ccedb9acdab894295cff4fd3b4ff9fffdc11f0enat;
    let x1 = 0x837e42f16390c20889bb871497904b69cac9298936a48c96b83d7737820nat;
    let e1 = 2 * e0;
    lemma_power_mod_square(10nat, e0, n, x0, 0x114548842defd87f31231f01dc661cdba69a8e7c3fb314c65cf16b064acnat, x1);
    let x2 = 0x10be0efa7a1c9dda092e2a471e08e810ba1b74f18faf61e6349ca810f944nat;
    let e2 = 2 * e1 + 1;
    lemma_power_mod_square_times(10nat, e1, n, x1, 0x16b9eb1a78980a0aef18999787388b6f93c330727117cda998dd3deb0f74nat, x2);
    let x3 = 0x1acd7c1f9677d703794149defa748364b7f05acb60c5e2eb9986efabc57enat;
    let e3 = 2 * e2;
    lemma_power_mod_square(10nat, e2, n, x2, 0x96e8e385f4d658195c1a051dc92d6a733821ae52c64b3a7e4ef407b3916nat, x3);
    let x4 = 0x63b098a261c2b2f72f69c6c8c0895baa94cad35e8ea1c96629a46d9c471nat;
    let e4 = 2 * e3 + 1;
    lemma_power_mod_square_times(10nat, e3, n, x3, 0xf1b8fc8c34fe68344510fbb15acdbff6071ee381ff27a9e387ed47aa4175nat, x4);
    let x5 = 0xb22f6cb7f69cc159c8110151e310dcc83fb547a3487473157e2bca28bb3nat;
    let e5 = 2 * e4;
    lemma_power_mod_square(10nat, e4, n, x4, 0x14e65b1316d9352c04f0e728cb90e88c4e9d0fd724f983f99fc0610132anat, x5);
    let x6 = 0xba87e2714e400570555814c042b65539aa2973554b62af86004df9f42fbnat;
    let e6 = 2 * e5;
    lemma_power_mod_square(10nat, e5, n, x5, 0x42c53e44a654d770288e3f53aeea853095d2a6d3bee11ca94f2c3207d2anat, x6);
    let x7 = 0xe49e5a6adf6bc830f4194d92c9a28aa8747ebe98256c8f99658771bbda8nat;
    let e7 = 2 * e6;
    lemma_power_mod_square(10nat, e6, n, x6, 0x492be8ec7d6a7d993f1aaeeaffacddec6724c1a1f15e47ddb4eb3769283nat, x7);
    let x8 = 0x1abfe4c6f1dbacb41c9efb34f9f251f7099240970c6133f136d6d2a0db46nat;
    let e8 = 2 * e7 + 1;
    lemma_power_mod_square_times(10nat, e7, n, x7, 0x44b2af3b9fa3ca3ef14bf40eed51a5feb9842350b38fe5f89b2dd8b8f48enat, x8);
    let x9 = 0x8f65f5e146603d22c8b2032bd2718e16faf675f531cd5f1681fcbfa641dnat;
    let e9 = 2 * e8;
    lemma_power_mod_square(10nat, e8, n, x8, 0x18139bb433d59e3d4d11d189027210413f8407df4eb9aa84d9630f609a65nat, x9);
    let x10 = 0xcf050815b956e92bb1b7d892196d382aeb588743fb7e3922b49fa7abfdfnat;
    let e10 = 2 * e9 + 1;
    lemma_power_mod_square_times(10nat, e9, n, x9, 0x1b0716a0a7487c3855218309bb9c82adf9c3dc121b7adf45895abbe2f201nat, x10);
    let x11 = 0x1d459e00e5b1a6b27b1fe4a2d9b26b1f5f2676da98d7b8a394e41fdc628anat;
    let e11 = 2 * e10 + 1;
    lemma_power_mod_square_times(10nat, e10, n, x10, 0x3854a070182fc81ca7a0799ce3d617bd43b7bdf0cfbd82179f8935ebd800nat, x11);
    let x12 = 0xdac97f2beeac0ae5090783388611233e370cf9b5c816d980671069305a1nat;
    let e12 = 2 * e11;
    lemma_power_mod_square(10nat, e11, n, x11, 0x1cd4cf5427fe18fb91b8c819dfb967dd172c42a977b3f4534903e3459ad9nat, x12);
    let x13 = 0x31e8d6b21c09a609de2978920ad4b7422fa352ac44dc0d4322a1690c68fnat;
    let e13 = 2 * e12;
    lemma_power_mod_square(10nat, e12, n, x12, 0x64aa97269c6a3ab75c6ed861247bb15e952fe05e2d11d45ca178376fb76nat, x13);
    let x14 = 0x5684334a85ffec209b806c1f8830541d429fcd22e946d999adc53520b3enat;
    let e14 = 2 * e13;
    lemma_power_mod_square(10nat, e13, n, x13, 0x53d0f13468b43fccaedbd3fb74f3735c259416462d32171216ff137879nat, x14);
    let x15 = 0x1c7543784e53599b6353a7c3b6f7d0e91ab2326f654d61cb0c033193f393nat;
    let e15 = 2 * e14 + 1;
    lemma_power_mod_square_times(10nat, e14, n, x14, 0x9d697b81084b3d44c60b045dc18aa0921c51debb9125c8766c3a28ecbafnat, x15);
    let x16 = 0x77bb555a5c30499192b392a6010b3af10b4aa080435dc24d078171da836nat;
    let e16 = 2 * e15;
    lemma_power_mod_square(10nat, e15, n, x15, 0x1b4014dce10d38f1349fc1d5e30ba6aeabf1fcae15482795b3097d255429nat, x16);
    let x17 = 0xf70ef161750cf78d5705d4148c03a185eafdc45620dfc2d5ed3d50c30e9nat;
    let e17 = 2 * e16;
    lemma_power_mod_square(10nat, e16, n, x16, 0x1e25e93e05a693230ae734848cd325ef1eba2d473a5de06ab71c8b51681nat, x17);
    let x18 = 0x16f7d915cfe9d52729ceaf8e67b6eb2754f7aba693482afe6c7cc5707552nat;
    let e18 = 2 * e17 + 1;
    lemma_power_mod_square_times(10nat, e17, n, x17, 0x503a17df9af2b804cb6cc74d0004ca93a81da5ae3e33a50b88550fa7da88nat, x18);
    let x19 = 0x2e7708749e7489214ea2097db9f71dab73dc0b24448b4dd60b3c282a931nat;
    let e19 = 2 * e18 + 1;
    lemma_power_mod_square_times(10nat, e18, n, x18, 0xb1818eb0815156d061fb808f351bc4036683272bc398ee97ebd67a4f66b5nat, x19);
    let x20 = 0x45b6422bf621de4d243175129fbb8f673af76b8e14dc0ec9e5a48f7a429nat;
    let e20 = 2 * e19 + 1;
    lemma_power_mod_square_times(10nat, e19, n, x19, 0x2d6760910dd9f79aa45bd112036f0f05bcd3244faba00d2e9dac1066713nat, x20);
    let x21 = 0xd8383a0d1f167fc009ea28e054451ba40486c31407e9d962866ae63ca5cnat;
    let e21 = 2 * e20;
    lemma_power_mod_square(10nat, e20, n, x20, 0xa3858e5ced3d26ebb527e9f375edf8aeaab907d13b745d4a570202268fnat, x21);
    let x22 = 0x17034b3ccc60cd2a71ecc256ab7281d61a986dbecf7ca1a857d8c86ec161nat;
    let e22 = 2 * e21;
    lemma_power_mod_square(10nat, e21, n, x21, 0x62514e0b6a3cf50daade0230e203c00769eddb7b1eb52e8925899e6cfddnat, x22);
    let x23 = 0x1582a0d4b8b9010f0d42d6737f5bed830a8857d28f893369aed4c457430anat;
    let e23 = 2 * e22;
    lemma_power_mod_square(10nat, e22, n, x22, 0x11d1dd543c44735155d720da57abcf386384b6106e23e634344e5725cd75nat, x23);
    let x24 = 0x4515a287458a74780eacd6376b8c1adef156f13b02486e31358ac470aanat;
    let e24 = 2 * e23 + 1;
    lemma_power_mod_square_times(10nat, e23, n, x23, 0x9bafe430c2ef08b4687b45c24bff2fbfe9a302fcba105b68d91b22c83d5anat, x24);
    let x25 = 0x8d97fad4ca93a55490950aa5b717ddd16158c8e8894c10a443078f5dc24nat;
    let e25 = 2 * e24;
    lemma_power_mod_square(10nat, e24, n, x24, 0xa09767b05289900d68cf7a75286e20c9b266090781abbcce7709e240nat, x25);
    let x26 = 0xd69ef181f76e4df597cce0875bbdc8a8dc5dcea844d999fa1602e43ed60nat;
    let e26 = 2 * e25;
    lemma_power_mod_square(10nat, e25, n, x25, 0x2a29a8609ef95d95a9ffc4f404e1bfaf52064c5b83202d46f5257135810nat, x26);
    let x27 = 0x16f1851040578d329748d98d74f50eb1ec767fd1b01df60ce7fded73a424nat;
    let e27 = 2 * e26;
    lemma_power_mod_square(10nat, e26, n, x26, 0x60de781609fea9467e15630cc3c68af0782981545b88afb78a6133c78d4nat, x27);
    let x28 = 0x9e321ff5e9d32c53a0a01624924a961625fe1a8cf585d7c7ecadfb75113nat;
    let e28 = 2 * e27 + 1;
    lemma_power_mod_square_times(10nat, e27, n, x27, 0xb11fcbf4a901ad53d7b85e05504df2a411cbf57ff20af1d4d5a2cb013f17nat, x28);
    let x29 = 0x193146c91d8fe4f4b92f583d2866ed488fb35b9ea5c284fd7b03eeace47nat;
    let e29 = 2 * e28;
    lemma_power_mod_square(10nat, e28, n, x28, 0x34a133fff665c5a0434f20e9f05d028a66ef1a3335448230ae18ab701c6nat, x29);
    let x30 = 0x67e815838fa88700f9fa982c09bc6d1320c19788d8c647da9853f6154f5nat;
    let e30 = 2 * e29;
    lemma_power_mod_square(10nat, e29, n, x29, 0x155aec712412078262e7b8bc99a3c4a603c8604485a33e72f7e7d44b74nat, x30);
    let x31 = 0x1c12baeb72dbcfcfa332aeb27daeb62ad8109401f703a6e34ebdad0cd33enat;
    let e31 = 2 * e30 + 1;
    lemma_power_mod_square_times(10nat, e30, n, x30, 0xe30d8bc2f29aba43ec64d7dbdb797d7a5a60e360df5053401f6a89c37b4nat, x31);
    let x32 = 0x11c6e5146754f47aa4527cea63f8e2e4192161d34e46eb113fe80df3487nat;
    let e32 = 2 * e31;
    lemma_power_mod_square(10nat, e31, n, x31, 0x1a84a7799155addc170ce6a01e22317b69979b05a816c8e30111e7ce72e7nat, x32);
}

proof fn lemma_power_205115282021455665897114700593932402728804164701536103180137503955397371_over_31_part_5()
    requires
        power_mod(10nat, 0x1ead92a37a0ba32361ad743157b445d4351627112nat, 0x1db8260e5e3b460a46a0088fccf6a3a5936d75d89a776d4c0da4f338aafbnat) == 0x11c6e5146754f47aa4527cea63f8e2e4192161d34e46eb113fe80df3487nat,
    ensures
        power_mod(10nat, 0x1ead92a37a0ba32361ad743157b445d43516271123940db9dnat, 0x1db8260e5e3b460a46a0088fccf6a3a5936d75d89a776d4c0da4f338aafbnat) == 0xb768075f9ecfdbd9cef0b0ceac3fe2a60cd38b384c89b187c9f743d2a5anat,
{
    let n = 0x1db8260e5e3b460a46a0088fccf6a3a5936d75d89a776d4c0da4f338aafbnat;
    let e0 = 0x1ead92a37a0ba32361ad743157b445d4351627112nat;
    let x0 = 0x11c6e5146754f47aa4527cea63f8e2e4192161d34e46eb113fe80df3487nat;
    let x1 = 0x815c159a6b771e5e9b075decf9b480d9b8e14ecc02ad314eeae365caa36nat;
    let e1 = 2 * e0;
    lemma_power_mod_square(10nat, e0, n, x0, 0xaa22a815188dc321b4761e10519daa610c8c79fafa7b84b7c00013e01nat, x1);
    let x2 = 0x1d003f9391d52a831563085cf797ab7f2b1fc29af04c3dad3f8a1f9419bnat;
    let e2 = 2 * e1;
    lemma_power_mod_square(10nat, e1, n, x1, 0x23310cc1504c00b161c6e10caa07c49105b3394142ee2b17ed1eaa12b0bnat, x2);
    let x3 = 0x16896ba37d10b907755a632be7f1ff23959fb2a7fca23b4c8c6209a07d43nat;
    let e3 = 2 * e2 + 1;
    lemma_power_mod_square_times(10nat, e2, n, x2, 0x11affee89fbf299db59964b6952d98939c3ec0d99564b4d2bc7235145f5nat, x3);
    let x4 = 0x318196b8125ac3e698f85521a8f933f32eb5c3e732ad676c14c75497005nat;
    let e4 = 2 * e3 + 1;
    lemma_power_mod_square_times(10nat, e3, n, x3, 0xaae6bd23ba378194457ac863521d1739e4c72552f7e336a40f137113d1efnat, x4);
    let x5 = 0x1a84b6e19fb063234cc6e4058bf8ca30797266124ec6b20dc925057abab1nat;
    let e5 = 2 * e4 + 1;
    lemma_power_mod_square_times(10nat, e4, n, x4, 0x338ab8dc6039f0c5461d16c0dd7c7d2aee9f7a3e0d669bce873fc59908bnat, x5);
    let x6 = 0x1cffff6aaf2a01ac59eba932fd9753aebf210bdaedaf0d1d77913c3f87acnat;
    let e6 = 2 * e5;
    lemma_power_mod_square(10nat, e5, n, x5, 0x17a98980fcf61e19ebc3fd6811eb432a8b07af11fe3d47056f4db7fec60fnat, x6);
    let x7 = 0x125f47c29ccb8c8ae252718bf18a4a5ec894be399f81aabc46657112b3a6nat;
    let e7 = 2 * e6;
    lemma_power_mod_square(10nat, e6, n, x6, 0x1c4c4dd698bce034b85c60da15ef6eda1e245eca82dab8abda0e9ad6139enat, x7);
    let x8 = 0x1d602e35d2e256a7573917c50057244999f2f40aea89f622b5b4aeb32b50nat;
    let e8 = 2 * e7 + 1;
    lemma_power_mod_square_times(10nat, e7, n, x7, 0x719333a52a61c208ae93d267bf9997395e51fead0b1497ac7f1daa4e07c8nat, x8);
    let x9 = 0xeab9e35d16790b80be95e647412fe847134b3e4686d81c1337546efe2c0nat;
    let e9 = 2 * e8;
    lemma_power_mod_square(10nat, e8, n, x8, 0x1d093abf36365ab59a3dd33661f599d41eb552f9f5eb52d259dd59246ec0nat, x9);
    let x10 = 0x17d5b2624395f54a5382a96f90f31ab9eebb4acf45b8dbd3a6935fdc7be9nat;
    let e10 = 2 * e9 + 1;
    lemma_power_mod_square_times(10nat, e9, n, x9, 0x486ae5066f94bd7cd0f2a134abb8fa50cf2fff3a7800fa368d1f4268e095nat, x10);
    let x11 = 0x19c948a630cfde5694cf51edce2f99464e3955561de3f5ab7b2847118138nat;
    let e11 = 2 * e10;
    lemma_power_mod_square(10nat, e10, n, x10, 0x131d87b08f96ffa70aeb7c84d258d0558ba016b7d6fa8f410a942ee9a33bnat, x11);
    let x12 = 0xc6ab77a39af14725ecaae84632f57db69965a5c394ec110344f211bb725nat;
    let e12 = 2 * e11;
    lemma_power_mod_square(10nat, e11, n, x11, 0x165faaf100876fa797651d8793925d383dde3ef19b64510b048fdbee3461nat, x12);
    let x13 = 0x39d7bcd4bda432cbce9940de4ab76a32687713de0a912100cd982447038nat;
    let e13 = 2 * e12;
    lemma_power_mod_square(10nat, e12, n, x12, 0x53014cfb2735f7c2881a01b355fa34b603d61f347da024a4cb30e9e5793nat, x13);
    let x14 = 0x15967a3e2684ac9a1f39c79a6c44217d1a92bfdc349246bf4077252c2285nat;
    let e14 = 2 * e13;
    lemma_power_mod_square(10nat, e13, n, x13, 0x70944bae2d083c7ddef2590a1234e9ed73c610bedfd8299335236c8041nat, x14);
    let x15 = 0x1c7bb26f22e61ca848107c303d6085197f61aeb1f92206a27deda7d73491nat;
    let e15 = 2 * e14;
    lemma_power_mod_square(10nat, e14, n, x14, 0xfae5fba58e3626e9d9ebdedfd8d25ef0006c4916e94665111adc9ca8718nat, x15);
    let x16 = 0x27ced3d8377453e69a14d12aea19d4f5d37a82e0db2c041f37a244e9bd8nat;
    let e16 = 2 * e15;
    lemma_power_mod_square(10nat, e15, n, x15, 0x1b4c68643e0952b56e55e52bfb3a2b3f7bf970a14c5cab039cd92066d88bnat, x16);
    let x17 = 0x1c09689b4f25ce6b1180ca92029ed05d927b7795ec37d29fc5a809e02c4dnat;
    let e17 = 2 * e16 + 1;
    lemma_power_mod_square_times(10nat, e16, n, x16, 0x21536483ea59b0ef7518c1a4df292cc1021ca237faa317b12ea11089029nat, x17);
    let x18 = 0x121849da7a642fa5ed361a068518bc9c96adbe92e9424e8ab1500062605dnat;
    let e18 = 2 * e17 + 1;
    lemma_power_mod_square_times(10nat, e17, n, x17, 0x1087e8d4d68f3498d17967730ba2d0743e6dcec312b90f77a890bb6579127nat, x18);
    let x19 = 0x1d09894666b8ae936d1e6bb9583b99b9977112deef58d7a45028454f264nat;
    let e19 = 2 * e18;
    lemma_power_mod_square(10nat, e18, n, x18, 0xb0468e5678d10ab9a3b1069bc70014a98f47897c6da5e4aee747153c11fnat, x19);
    let x20 = 0x396bb09f512fb83b9092662f2f6edba23d5ac2d3d4bad1618a146b8d8cbnat;
    let e20 = 2 * e19 + 1;
    lemma_power_mod_square_times(10nat, e19, n, x19, 0x11bb5501613c06b6d9c416ad79d13600989a320d08013642cd9ee2b916fnat, x20);
    let x21 = 0xa7eb4a86d2e35dc8be3caac3c7dd473b2f050c298472b3d9f97e1fda51bnat;
    let e21 = 2 * e20 + 1;
    lemma_power_mod_square_times(10nat, e20, n, x20, 0x4556c6fdbe5054411d65c7dd93bf76be5b6174be39b1e360f3b384edbadnat, x21);
    let x22 = 0x1d7e83e79c054596671a8b6a272cd4a2675caaf28d31038e32a0bc050a54nat;
    let e22 = 2 * e21;
    lemma_power_mod_square(10nat, e21, n, x21, 0x3b4c543ad5e5e31b7e0c647924f7cd12dcca9031f6a3358a6c388e59c7fnat, x22);
    let x23 = 0x1cd049d112958972b1a63a86624e6beef5ea5cc71d93bd13f74144823b63nat;
    let e23 = 2 * e22 + 1;
    lemma_power_mod_square_times(10nat, e22, n, x22, 0x124b52f31577dbdfe62a0b2df6f5d204a0d24d86fd8b335c91c8bd8778427nat, x23);
    let x24 = 0x9508736823a930e192d25b02163b23764e584f255d54d50dc93a0adf395nat;
    let e24 = 2 * e23 + 1;
    lemma_power_mod_square_times(10nat, e23, n, x23, 0x1175af0bdb104880c4f1bc8634dc8a19a00dfdc99e1ce017f8cc2f6618abfnat, x24);
    let x25 = 0x3bf9f6246380aeb5cb5a5cda4cccd7ea9594ca72f0e312224640276fa44nat;
    let e25 = 2 * e24 + 1;
    lemma_power_mod_square_times(10nat, e24, n, x24, 0x1d318851744a0e9dcb2330d0d7acef0228191adc528c2ba164d815050d02nat, x25);
    let x26 = 0x748d902d39d2301e310df6dd2dfcdcc92c4b26bd9ac577fe0c47203e0a2nat;
    let e26 = 2 * e25;
    lemma_power_mod_square(10nat, e25, n, x25, 0x7909be0631311c260555b455bb474b426dcd7a5bf5cd287e37f5bca8eanat, x26);
    let x27 = 0x11a6d36b5bf3d24b572edaffa4827f9c3ba4bd1810f67146bb767bc4ce8cnat;
    let e27 = 2 * e26;
    lemma_power_mod_square(10nat, e26, n, x26, 0x1c918aa0df32c859da05d11dfcb3626fc003fc61c35597cd9f887874668nat, x27);
    let x28 = 0x1d2d9d373c08e24010247398031cf796c2730ab50dd9c6480084fa5517bdnat;
    let e28 = 2 * e27 + 1;
    lemma_power_mod_square_times(10nat, e27, n, x27, 0x68d75d2fdb77935e6bb1a5cd23f4cabc7341c5522ae19eb7d1327bfc9c39nat, x28);
    let x29 = 0x11fbd28a184099346ce524cba0f7a39aeaf6958270bd5a774b0d8d66591enat;
    let e29 = 2 * e28 + 1;
    lemma_power_mod_square_times(10nat, e28, n, x28, 0x11e780571282a2b04b71605faf4ec51dac962552d5a1549fb818f02cd0df4nat, x29);
    let x30 = 0x1234afc6ee8b685a3ab9ccfc2443dbe5603bb39a6c02289bd1a0dfcff1c4nat;
    let e30 = 2 * e29 + 1;
    lemma_power_mod_square_times(10nat, e29, n, x29, 0x6cd286b54db2f0371336291763fd32e8b2f634cd50830264f933914f5eecnat, x30);
    let x31 = 0x14f88c07942ce5a93ac80076ab31bf3cf83363fd79343ad3d3d6b87d3e60nat;
    let e31 = 2 * e30;
    lemma_power_mod_square(10nat, e30, n, x30, 0xb2718bf07625548edddf94ea76ccef956fa37716916533415e42d491010nat, x31);
    let x32 = 0xb768075f9ecfdbd9cef0b0ceac3fe2a60cd38b384c89b187c9f743d2a5anat;
    let e32 = 2 * e31 + 1;
    lemma_power_mod_square_times(10nat, e31, n, x31, 0x93fa245b4804c2a5ac88bd0b1476b304e04dc0bcb4803ef7807e2b7e2812nat, x32);
}

proof fn lemma_power_205115282021455665897114700593932402728804164701536103180137503955397371_over_31_part_6()
    requires
        power_mod(10nat, 0x1ead92a37a0ba32361ad743157b445d43516271123940db9dnat, 0x1db8260e5e3b460a46a0088fccf6a3a5936d75d89a776d4c0da4f338aafbnat) == 0xb768075f9ecfdbd9cef0b0ceac3fe2a60cd38b384c89b187c9f743d2a5anat,
    ensures
        power_mod(10nat, 0x1ead92a37a0ba32361ad743157b445d43516271123940db9dc893d21bnat, 0x1db8260e5e3b460a46a0088fccf6a3a5936d75d89a776d4c0da4f338aafbnat) == 0x18610207eb173c460f812485a48b0a54ab99b00af7a40fb76a07ecd73b2anat,
{
    let n = 0x1db8260e5e3b460a46a0088fccf6a3a5936d75d89a776d4c0da4f338aafbnat;
    let e0 = 0x1ead92a37a0ba32361ad743157b445d43516271123940db9dnat;
    let x0 = 0xb768075f9ecfdbd9cef0b0ceac3fe2a60cd38b384c89b187c9f743d2a5anat;
    let x1 = 0xa730068d67205a6ec6c3d25d52733a32644b2530dc16d6c183a69248dc5nat;
    let e1 = 2 * e0 + 1;
    lemma_power_mod_square_times(10nat, e0, n, x0, 0x2c3685f9ab3c53aad059007af5fe41dfdcb53396c230a2f6ea8e8f9a2a79nat, x1);
    let x2 = 0x6d488d643873b1840e947c992414f58ff411732f00ad9eede7967d50b8fnat;
    let e2 = 2 * e1 + 1;
    lemma_power_mod_square_times(10nat, e1, n, x1, 0x24bd391dd980640c20d9721d85e27ecb93e82c49d225aff1c804666da151nat, x2);
    let x3 = 0x12b9e3aaa2a8eb1975f78232ea2977668cc0696a5b1c575db058f99bc039nat;
    let e3 = 2 * e2;
    lemma_power_mod_square(10nat, e2, n, x2, 0x191dae49d4c66c6bb2533e80e14954ace438142f89409269072c020dc78nat, x3);
    let x4 = 0xcfa4e01c1e9596e9f1cd04dc9585e2685da0fed94dbd3914ecbbf32d8bcnat;
    let e4 = 2 * e3;
    lemma_power_mod_square(10nat, e3, n, x3, 0xbcca05d06bec1a75d0026199d49187afb34208bf86020a7c5a2ffa8e9cfnat, x4);
    let x5 = 0x412dcf91e9081a12c7be805947eb87eae9330d5cb30e2527563eb0380e7nat;
    let e5 = 2 * e4 + 1;
    lemma_power_mod_square_times(10nat, e4, n, x4, 0x38abbee7d069bd113574023cec93f7cacfc6691a8023aadc110c17da2ddbnat, x5);
    let x6 = 0x102dd85fed9746563c10564f4c5ee3bf4b334eb3c792b39c56522793bd1bnat;
    let e6 = 2 * e5;
    lemma_power_mod_square(10nat, e5, n, x5, 0x8ef27c301ae4e8b5a824a96f2e64e3962517cb5b3836a6b21d9c67ba22nat, x6);
    let x7 = 0xe8956f0152ba340720453049c71e2574b24ec344a2710b1b18291565b56nat;
    let e7 = 2 * e6;
    lemma_power_mod_square(10nat, e6, n, x6, 0x8cecdbf91dc4d61526da5deb6b0d2fc893c5e67616ee1c8483b3fa30919nat, x7);
    let x8 = 0xf54d79d43eb50fddefdf2182cc7c0f1cf14bc0ed1fe80e532da0861062anat;
    let e8 = 2 * e7;
    lemma_power_mod_square(10nat, e7, n, x7, 0x71c33bf1718e31efcacc2d7f71ab55a298e2dc090016dc035724e35d30enat, x8);
    let x9 = 0xc9337ee2ca8d27738ccad1a4009abba717073f7372b975254b26587a061nat;
    let e9 = 2 * e8 + 1;
    lemma_power_mod_square_times(10nat, e8, n, x8, 0x4f17388bbd2daed16da5bbddbae66d613d21f67106398a84963c176486e5nat, x9);
    let x10 = 0x130bc98e0a772a239f37a8accb2acf2d73a6ab841ec94f0ce74feb30f48anat;
    let e10 = 2 * e9;
    lemma_power_mod_square(10nat, e9, n, x9, 0x55223f97a1bedef18f8dd9d5cdb6ffb891212c4e91aba802585a9770af5nat, x10);
    let x11 = 0x5e876db9349a86fc558d950f24ff9d144ea47302485ae736868fb4d60ecnat;
    let e11 = 2 * e10;
    lemma_power_mod_square(10nat, e10, n, x10, 0xc34b73c28e91b0a238cc64702e4613bda378f1cd5d5b6e40fa6e1be32e8nat, x11);
    let x12 = 0x135062ec16b2722762dac76b3b5552a11ab05a412ca305cab71ef9ea9a1enat;
    let e12 = 2 * e11 + 1;
    lemma_power_mod_square_times(10nat, e11, n, x11, 0xbbeb5464f4dfc6482bb30eda4d424297cf57e6d970184dfbca1a49858e6nat, x12);
    let x13 = 0x14cb787f94b514b5e04653bbbac7a0d1644ba48c5005b4731383266a3b8enat;
    let e13 = 2 * e12;
    lemma_power_mod_square(10nat, e12, n, x12, 0xc8d4277d23d8ecaac392595d6d8aea9a3068941a91124d530a361477e02nat, x13);
    let x14 = 0x17432a54b176b02aeed3f08b4556f2279e12044d1e080a2b44498a6b772dnat;
    let e14 = 2 * e13;
    lemma_power_mod_square(10nat, e13, n, x13, 0xe8cdde5e5fa2bdcceda7928fbd09b3ccae8b4404aa1c456ef099c70bf15nat, x14);
    let x15 = 0x48c6c3e8b9dd11ba64a00a7d713fc18ec1c99f876249ff17f6881cfb0a7nat;
    let e15 = 2 * e14 + 1;
    lemma_power_mod_square_times(10nat, e14, n, x14, 0xb6152c1a3a60e2ae373c16012736a5ed31e07a0cd0d7db5b909d6a8154e9nat, x15);
    let x16 = 0xf31bff672d4cad711331e8bb5fdd62496da0fa4b2d984d9b2bdaaaa75b3nat;
    let e16 = 2 * e15 + 1;
    lemma_power_mod_square_times(10nat, e15, n, x15, 0x6f6247c7fdf82d9a21ab689a15c9d1f57b4d183da0fd908d5bebc0b0575nat, x16);
    let x17 = 0x1cc5d0ca996f7c9a36c29d9d39d77dc7ed4791dca2995e3df941e606d0banat;
    let e17 = 2 * e16 + 1;
    lemma_power_mod_square_times(10nat, e16, n, x16, 0x4daec65bec6259aaed4cee8a3c18f3f08fb91dccc459264b1ccb047e86a0nat, x17);
    let x18 = 0x15e700c3e8cc08614d43890e1e6e715d5c18263bc72ca2387c1e24a91f84nat;
    let e18 = 2 * e17 + 1;
    lemma_power_mod_square_times(10nat, e17, n, x17, 0x11690033d2a5efcafb9a7fd7dc357e155baffc00ba01da68f2f7b9bb0b26cnat, x18);
    let x19 = 0x11c5e5cbbadff3a7ffcec8495e7a3b8333f1b5127b32a81b37144b56f13dnat;
    let e19 = 2 * e18;
    lemma_power_mod_square(10nat, e18, n, x18, 0x1024363ffe124ac801d1c04a729fc3ebee0dbf483d23da32de4619ca5809nat, x19);
    let x20 = 0x12a410c7a52c1f4401805d0d92eda9e2dc4213eb984d7c48fbbe857660d9nat;
    let e20 = 2 * e19 + 1;
    lemma_power_mod_square_times(10nat, e19, n, x19, 0x6a49bb5ef09cfa94414e181f616da038470b40e5feb87b52ac882e82c5b3nat, x20);
    let x21 = 0x151c5d731c4221084557736e7f638049a2040a208bd1f9001dc4b105092fnat;
    let e21 = 2 * e20;
    lemma_power_mod_square(10nat, e20, n, x20, 0xbb12fcd5c14b86ce7f209f0eb35c88497b9974d90dc8108eb058dedb0a6nat, x21);
    let x22 = 0x25ece6be75b43c22fd73781c5c6bdc732746d1ca54693c5c14a7f65957dnat;
    let e22 = 2 * e21;
    lemma_power_mod_square(10nat, e21, n, x21, 0xefeee7624af2bb04edcd40ef54bc2f83520c1b06d09bbf8f33158d7ba2cnat, x22);
    let x23 = 0x64274bf5ccf351ded3fd6c8822d98abedd60b862aec8e8034ca357214bfnat;
    let e23 = 2 * e22 + 1;
    lemma_power_mod_square_times(10nat, e22, n, x22, 0x1e3f91ce669a5b9ee1234e105237c82bb06192b5f0428434cfe2ac261e1nat, x23);
    let x24 = 0xef04ecc8c73171fc0e2d54216b721315e5854b50edd690f08870824a4d2nat;
    let e24 = 2 * e23;
    lemma_power_mod_square(10nat, e23, n, x23, 0x15183e05c8f9c1ec2fa6d3cf1d563dd71aafbb3768a4ec6d315b9c5c5ddnat, x24);
    let x25 = 0xd70cedbc1fa6de821c0352fa814b76e8e2a48c6ecfc8ba0a11ababb68f8nat;
    let e25 = 2 * e24;
    lemma_power_mod_square(10nat, e24, n, x24, 0x782530f713899d593f3e00f0aabe36706bfaca9bce0d1992f5fe4dc5824nat, x25);
    let x26 = 0x17629ccd57ca23cb4d959554bdcab31cd1bda1f83f571cef7f5f20b23cdnat;
    let e26 = 2 * e25;
    lemma_power_mod_square(10nat, e25, n, x25, 0x6141da1f7164a01954d70c56ff6cf521cad944d2ba4787a65f342c3aae9nat, x26);
    let x27 = 0x1bd0a5820aecdada104310ecc79f4af383c8ac6a33e6712f2a234bdbf986nat;
    let e27 = 2 * e26;
    lemma_power_mod_square(10nat, e26, n, x26, 0x1266ad4262f753cfae20ba8fc12c521b1fb51c500bed2788ee5c7c3879nat, x27);
    let x28 = 0x7bca6bf4525c9dc4458f454d6db7781d8b1eeef105412f9fb3f2583674nat;
    let e28 = 2 * e27 + 1;
    lemma_power_mod_square_times(10nat, e27, n, x27, 0x10453d1314a092eeb9ae063ade595e206a65286a97d76120282afe99bca9cnat, x28);
    let x29 = 0x1c8668f0d29d93183e790445143d03b23eff1e1712545309b3f6bf051546nat;
    let e29 = 2 * e28 + 1;
    lemma_power_mod_square_times(10nat, e28, n, x28, 0x14244978395b07b8663d7cf9031eccd20d02ba3dd9bfda8f3c6330b9eenat, x29);
    let x30 = 0x1cb2f7bac5da306b7a3cd367030ad7725f2e1c61a9a4985075508830cf0nat;
    let e30 = 2 * e29;
    lemma_power_mod_square(10nat, e29, n, x29, 0x1b60f51fbed66823941cb07af313019b35bede998f5df188401a47e3305cnat, x30);
    let x31 = 0x167a054335369d9e24b6782a47d7705eaf260c77b4727b4396cbf2c27895nat;
    let e31 = 2 * e30 + 1;
    lemma_power_mod_square_times(10nat, e30, n, x30, 0x1152387456dcd977246d97f82e342fe1c2382569aaef88b462ff7862851nat, x31);
    let x32 = 0x18610207eb173c460f812485a48b0a54ab99b00af7a40fb76a07ecd73b2anat;
    let e32 = 2 * e31 + 1;
    lemma_power_mod_square_times(10nat, e31, n, x31, 0xa9fd7d30cb49d2db90b99d142dda078c9ac5e2255d18071f90657e599b30nat, x32);
}

proof fn lemma_power_205115282021455665897114700593932402728804164701536103180137503955397371_over_31_part_7()
    requires
        power_mod(10nat, 0x1ead92a37a0ba32361ad743157b445d43516271123940db9dc893d21bnat, 0x1db8260e5e3b460a46a0088fccf6a3a5936d75d89a776d4c0da4f338aafbnat) == 0x18610207eb173c460f812485a48b0a54ab99b00af7a40fb76a07ecd73b2anat,
    ensures
        power_mod(10nat, 0xf56c951bd05d191b0d6ba18abda22ea1a8b138891ca06dcee449e90dc6nat, 0x1db8260e5e3b460a46a0088fccf6a3a5936d75d89a776d4c0da4f338aafbnat) == 0x19ec4fb39f46118023fb5bd8cd986a49b1ec5dec7dc5a90accd4c80f7209nat,
{
    let n = 0x1db8260e5e3b460a46a0088fccf6a3a5936d75d89a776d4c0da4f338aafbnat;
    let e0 = 0x1ead92a37a0ba32361ad743157b445d43516271123940db9dc893d21bnat;
    let x0 = 0x18610207eb173c460f812485a48b0a54ab99b00af7a40fb76a07ecd73b2anat;
    let x1 = 0x1a67093fe00b9d9b4eff63e2e88930912dac745d40fa37cfe8f100ce40f3nat;
    let e1 = 2 * e0 + 1;
    lemma_power_mod_square_times(10nat, e0, n, x0, 0xc7fb587c842ff938901cfd2bbb8f8898510397a72b67c644c4ab474b21cfnat, x1);
    let x2 = 0x1980dbaceab6e2b9ea73683a42c296d0efd6b1b17938de362693b90ac71bnat;
    let e2 = 2 * e1;
    lemma_power_mod_square(10nat, e1, n, x1, 0x1774b07b056255ed4bdfd8a0341e257672a5d428e42e223248a8da40294anat, x2);
    let x3 = 0x4c6466ee646933a2940a16ac2c9745906e011b6853a2578c44e6dc12e63nat;
    let e3 = 2 * e2;
    lemma_power_mod_square(10nat, e2, n, x2, 0x15e2acee794a38bd86244a0772fd1fd11ce0a9f571d9973212ea660c0182nat, x3);
    let x4 = 0x1ba15674998bab16aab8bb47ba71566edb16d657f34f55ff816d8738aaa4nat;
    let e4 = 2 * e3;
    lemma_power_mod_square(10nat, e3, n, x3, 0xc45cd8e08fd92f5e6f2d53b00b0b7f00bcd567d2f4279683d725fe2ddfnat, x4);
    let x5 = 0x4c13dd4852fe0e0317903927281d8ff916ff97f0a12dac4241b7a120d1fnat;
    let e5 = 2 * e4 + 1;
    lemma_power_mod_square_times(10nat, e4, n, x4, 0x100e135dc854d3582a0a646f04c07511b55241dce1a1f19d8b84c3a13e0b3nat, x5);
    let x6 = 0x1be15de557010ee5ddcb74fe3c4d5e004861c298b33d3de36cf333657e1fnat;
    let e6 = 2 * e5 + 1;
    lemma_power_mod_square_times(10nat, e5, n, x5, 0x79b7ca09fe080f0dc35f43800a3d3e13c853ff0f5b3b9f7446811bbfe51nat, x6);
    let x7 = 0x19ec4fb39f46118023fb5bd8cd986a49b1ec5dec7dc5a90accd4c80f7209nat;
    let e7 = 2 * e6;
    lemma_power_mod_square(10nat, e6, n, x6, 0x1a27b75be4511061392267d5804cc493b0785eef6092d88c2b913b84d3a8nat, x7);
}

proof fn lemma_power_205115282021455665897114700593932402728804164701536103180137503955397371_over_31()
    ensures
        power_mod(10nat, 0xf56c951bd05d191b0d6ba18abda22ea1a8b138891ca06dcee449e90dc6nat, 0x1db8260e5e3b460a46a0088fccf6a3a5936d75d89a776d4c0da4f338aafbnat) == 0x19ec4fb39f46118023fb5bd8cd986a49b1ec5dec7dc5a90accd4c80f7209nat,
{
    lemma_power_mod_first(10nat, 0x1db8260e5e3b460a46a0088fccf6a3a5936d75d89a776d4c0da4f338aafbnat);
    lemma_power_205115282021455665897114700593932402728804164701536103180137503955397371_over_31_part_0();
    lemma_power_205115282021455665897114700593932402728804164701536103180137503955397371_over_31_part_1();
    lemma_power_205115282021455665897114700593932402728804164701536103180137503955397371_over_31_part_2();
    lemma_power_205115282021455665897114700593932402728804164701536103180137503955397371_over_31_part_3();
    lemma_power_205115282021455665897114700593932402728804164701536103180137503955397371_over_31_part_4();
    lemma_power_205115282021455665897114700593932402728804164701536103180137503955397371_over_31_part_5();
    lemma_power_205115282021455665897114700593932402728804164701536103180137503955397371_over_31_part_6();
    lemma_power_205115282021455665897114700593932402728804164701536103180137503955397371_over_31_part_7();
}

proof fn lemma_power_205115282021455665897114700593932402728804164701536103180137503955397371_over_7723_part_0()
    requires
        power_mod(10nat, 1nat, 0x1db8260e5e3b460a46a0088fccf6a3a5936d75d89a776d4c0da4f338aafbnat) == 10nat,
    ensures
        power_mod(10nat, 0x1f862c8b3nat, 0x1db8260e5e3b460a46a0088fccf6a3a5936d75d89a776d4c0da4f338aafbnat) == 0xafc0a5236980f8d1599ab9d6e12169c30a3d099bb090b8f06aaa65b25a0nat,
{
    let n = 0x1db8260e5e3b460a46a0088fccf6a3a5936d75d89a776d4c0da4f338aafbnat;
    let e0 = 1nat;
    let x0 = 10nat;
    let x1 = 1000nat;
    let e1 = 2 * e0 + 1;
    lemma_power_mod_square_times(10nat, e0, n, x0, 0nat, x1);
    let x2 = 0x989680nat;
    let e2 = 2 * e1 + 1;
    lemma_power_mod_square_times(10nat, e1, n, x1, 0nat, x2);
    let x3 = 0x38d7ea4c68000nat;
    let e3 = 2 * e2 + 1;
    lemma_power_mod_square_times(10nat, e2, n, x2, 0nat, x3);
    let x4 = 0x7e37be2022c0914b2680000000nat;
    let e4 = 2 * e3 + 1;
    lemma_power_mod_square_times(10nat, e3, n, x3, 0nat, x4);
    let x5 = 0x26e4d30eccc3215dd8f3157d27e23acbdcfe68000000000000000nat;
    let e5 = 2 * e4 + 1;
    lemma_power_mod_square_times(10nat, e4, n, x4, 0nat, x5);
    let x6 = 0x1149096fbba4ad3bdf91614e8942b56145a6423508a606ea7ab289e11e8nat;
    let e6 = 2 * e5;
    lemma_power_mod_square(10nat, e5, n, x5, 0x32e68c83ef74e94ee6ea559b42ac4d75ccd760e3c5eec8nat, x6);
    let x7 = 0x1c82783653453121fa839117ef917247b636b139ed317c812d705844c303nat;
    let e7 = 2 * e6;
    lemma_power_mod_square(10nat, e6, n, x6, 0xa0dae74d9b28c3eda4dce8ebc2c38c517c421fe264220d36dc9750927nat, x7);
    let x8 = 0x16dbb569de94ab51971337dfbb0bdaf616950478dba41bcb7ddfe8609340nat;
    let e8 = 2 * e7;
    lemma_power_mod_square(10nat, e7, n, x7, 0x1b59654328724b3ab07acddb0bbd10e52aef6c86ef2cecc6aba9e1f0120bnat, x8);
    let x9 = 0x1c6c714bdc4892cf9e5956cfa0bf53db04d797230d2e68e7893d133f72e6nat;
    let e9 = 2 * e8;
    lemma_power_mod_square(10nat, e8, n, x8, 0x1194c401383fcb0ac89e4b3ce1646ce04b5c0df9d88ad82ef3ad3ddfec2enat, x9);
    let x10 = 0x2a491a907d2ab0b96cf09a569ce7b5d9955112abe2829ba34fc585f4837nat;
    let e10 = 2 * e9 + 1;
    lemma_power_mod_square_times(10nat, e9, n, x9, 0x10fd7fc0c0c635b7be780060aad583dbea3981a44b8671508126f05ec67c3nat, x10);
    let x11 = 0xa378ae7633c5952d68eb510b4b050e04c53aa3c019598241e9580fefbfcnat;
    let e11 = 2 * e10 + 1;
    lemma_power_mod_square_times(10nat, e10, n, x10, 0x259a6d8ce1deee59619654e56ff8f0618e06393b0af5692514c4d32d72anat, x11);
    let x12 = 0x19bc7ca478258404b78fad8f5e80b302599ae24f8b5a9a785d4fe9444859nat;
    let e12 = 2 * e11;
    lemma_power_mod_square(10nat, e11, n, x11, 0x3832d0062311e373a851f12c7b344c415596440d49ec1ee5464e1caa975nat, x12);
    let x13 = 0x3b4a18016892440d5e8f946b045619879d2ba15c7eed6c1de99ab2555e8nat;
    let e13 = 2 * e12;
    lemma_power_mod_square(10nat, e12, n, x12, 0x16497b88a72dd6a310973e9eba5a664eac6198abaf2a86bb9abc142c8ccbnat, x13);
    let x14 = 0x19b068607d430227e13d9d12d8f6717b4daa2781b399929537e1ad3841a4nat;
    let e14 = 2 * e13;
    lemma_power_mod_square(10nat, e13, n, x13, 0x7647f8e845ba6b5155ba6dcb184c1cd7d50b0b330c288079ecb677bf14nat, x14);
    let x15 = 0xbe94b8343feda54664e2e41a39b18293b4855d3dafb55a66952d3463184nat;
    let e15 = 2 * e14 + 1;
    lemma_power_mod_square_times(10nat, e14, n, x14, 0xde0dcfc62dac6360e02c1a8245c9dace3031e69da4f5e47d37d1fc6ba094nat, x15);
    let x16 = 0x1a197496a242fc2a87658631afa5643c84d853ed6660caf2902304716711nat;
    let e16 = 2 * e15;
    lemma_power_mod_square(10nat, e15, n, x15, 0x4c6231122d827c5497e8b0ac2286cf21da13144245302d248daf33b4ecdnat, x16);
    let x17 = 0x1cbf3bf75ba38a7266f733d97b08d77b546720ec03569d604bfddbba3342nat;
    let e17 = 2 * e16 + 1;
    lemma_power_mod_square_times(10nat, e16, n, x16, 0xe5345c089c299cc3e2c3aa40d687a73e86d1d8769c89e9c03ad91d7b2d98nat, x17);
    let x18 = 0x1c7d9b25fa1c03c30b64f675c30f17fa1a2a2f25cd574b25354decbf3f0enat;
    let e18 = 2 * e17 + 1;
    lemma_power_mod_square_times(10nat, e17, n, x17, 0x11610a29a88d3e55fddce1561855d24b6119cda8538c8069134a8891ade2enat, x18);
    let x19 = 0xcc9cbfe3985b1f0512805a817618a79d7cbf36c45fc1cacd2cdd81f46d6nat;
    let e19 = 2 * e18;
    lemma_power_mod_square(10nat, e18, n, x18, 0x1b501149a6c191a7575b367bf9d5cd13f54e328a005a8499cfd17938d66anat, x19);
    let x20 = 0xa1e23b02305979c49631a9104de18758c0c6bfe2d1dd95a1658960cf95cnat;
    let e20 = 2 * e19;
    lemma_power_mod_square(10nat, e19, n, x19, 0x580b823a03d782bf4422ee3e978e1fcb325ff1077bde8bd25410e750e18nat, x20);
    let x21 = 0x1a931fa859d31c64654c70f8fceb091da5c0cbe426c5a600171956afff68nat;
    let e21 = 2 * e20 + 1;
    lemma_power_mod_square_times(10nat, e20, n, x20, 0x2271f16aa3aa9fd3a9376f078f136eec2f19c69b71c4d046c26d5fc78c28nat, x21);
    let x22 = 0x174e4534095caa72e365ee3cd9206acb4468b23859c2b9cc3b2b7d9cf5e8nat;
    let e22 = 2 * e21;
    lemma_power_mod_square(10nat, e21, n, x21, 0x17c34771d9837aec40498b8c783572f82c5831fb602905fca31bc5a47d88nat, x22);
    let x23 = 0x111570050f41afe183e8cef5ad6a855739ac93ac4df0b749c6730835b1c1nat;
    let e23 = 2 * e22;
    lemma_power_mod_square(10nat, e22, n, x22, 0x1246b7cac66e2549fa514d333d09a3232cbdf7f62c31c880c504d672d94dnat, x23);
    let x24 = 0xe1f0d02b307776db2f176a19ade4749a298c3619e21e0d23d90d55fb02enat;
    let e24 = 2 * e23;
    lemma_power_mod_square(10nat, e23, n, x23, 0x9d2025f71318d27793bc3256bc87e972f71fc6863991ec03cb892f65989nat, x24);
    let x25 = 0x9b3c5a219fef4ccc08db56d6df051558b071993dd4b9ede7d574ce09954nat;
    let e25 = 2 * e24 + 1;
    lemma_power_mod_square_times(10nat, e24, n, x24, 0x431919679bd3a2c4c3bd227a5a72d9aa4bd28702f5376811415097f7abbcnat, x25);
    let x26 = 0x17b9d989b19545175182afa22f15993ba4ec191c9fef2986d9808c613fc3nat;
    let e26 = 2 * e25;
    lemma_power_mod_square(10nat, e25, n, x25, 0x32adb7c43d8220f12cc139f615f1e0702ebce9fe5a3215efad187e611d7nat, x26);
    let x27 = 0x171ef2445ca1f2a6703a1b9907bc46e8671642d85369039b6b02f621eaenat;
    let e27 = 2 * e26 + 1;
    lemma_power_mod_square_times(10nat, e26, n, x26, 0xbd69a7dac30559ff5f6c1518fa13426984387da8438b6eece94e5e159844nat, x27);
    let x28 = 0xb073eec20c38f6aa23980eeda477a0fff1aebfad62d43865bed0327eee6nat;
    let e28 = 2 * e27 + 1;
    lemma_power_mod_square_times(10nat, e27, n, x27, 0xb3dfe619881c73bc43da824932545bb884b1de31736fd72d30088713a6nat, x28);
    let x29 = 0xc9b1970cc336966061168efa95e69f649723ab4293f091b3ec8559f433nat;
    let e29 = 2 * e28;
    lemma_power_mod_square(10nat, e28, n, x28, 0x417a7bdb1e579e3d96910ef8a1e7f313b606e316f73f193f30a7051cc83nat, x29);
    let x30 = 0x107a4c3c6574f86da65cfe5e554279c25d8f01a48564ad5842e86bb45dfcnat;
    let e30 = 2 * e29;
    lemma_power_mod_square(10nat, e29, n, x29, 0x558d164b06c49edfb04eb385f04acffadc90aed3790a07805d9ee04f7nat, x30);
    let x31 = 0x528091d282ddf14f74af9c04abe5d2b88c63c6844686a412fc4ecbb63efnat;
    let e31 = 2 * e30 + 1;
    lemma_power_mod_square_times(10nat, e30, n, x30, 0x5b5c210cc8bd0dbd87d5c1aac8869bdb3c27d258b645bfbe26f40b36e743nat, x31);
    let x32 = 0xafc0a5236980f8d1599ab9d6e12169c30a3d099bb090b8f06aaa65b25a0nat;
    let e32 = 2 * e31 + 1;
    lemma_power_mod_square_times(10nat, e31, n, x31, 0x8f24cb315469d0b5532d67821e3c2dc2090efccc3a23d6b3690f9b670denat, x32);
}

proof fn lemma_power_205115282021455665897114700593932402728804164701536103180137503955397371_over_7723_part_1()
    requires
        power_mod(10nat, 0x1f862c8b3nat, 0x1db8260e5e3b460a46a0088fccf6a3a5936d75d89a776d4c0da4f338aafbnat) == 0xafc0a5236980f8d1599ab9d6e12169c30a3d099bb090b8f06aaa65b25a0nat,
    ensures
        power_mod(10nat, 0x1f862c8b3693227banat, 0x1db8260e5e3b460a46a0088fccf6a3a5936d75d89a776d4c0da4f338aafbnat) == 0xac6aa38ba6f2db6edb05eb2f6bfaf9513b805bb6aa3813f54ec2c5938b6nat,
{
    let n = 0x1db8260e5e3b460a46a0088fccf6a3a5936d75d89a776d4c0da4f338aafbnat;
    let e0 = 0x1f862c8b3nat;
    let x0 = 0xafc0a5236980f8d1599ab9d6e12169c30a3d099bb090b8f06aaa65b25a0nat;
    let x1 = 0x171e31b7bc467c9741aa63b057a02222bb42f236a7b4cba21a859ebc4c5nat;
    let e1 = 2 * e0;
    lemma_power_mod_square(10nat, e0, n, x0, 0x40f5afe8afced022acc9a61db9f54ed4cbb00b7f60958e76da9b0f768c1nat, x1);
    let x2 = 0x13ef86c3b3c465b67b68e18e6402452f661d5c98b8adde805e3c61a2fd61nat;
    let e2 = 2 * e1 + 1;
    lemma_power_mod_square_times(10nat, e1, n, x1, 0xb3d432520b1a45e634786a8b699932e31f0ef29d6edcec16820718887bnat, x2);
    let x3 = 0x13b1e6d503e722df5946fa7abc624d39761341cb16a11afb7607e7d62abenat;
    let e3 = 2 * e2 + 1;
    lemma_power_mod_square_times(10nat, e2, n, x2, 0x85ba52b8f524c47de1652998ea090ac0b44f13eaf3f0326d5fc8a38700a4nat, x3);
    let x4 = 0x1a7130b227c373f3530d9c859dd9f4c0be9d0627b63317e9405a7728977cnat;
    let e4 = 2 * e3;
    lemma_power_mod_square(10nat, e3, n, x3, 0xd0d418ba4a4624bfc3c0980154ced44c1582127d84da41c84787143f218nat, x4);
    let x5 = 0x11524d0ebfd60aeb8affe13d0b3978dc06a80d675cdfa0c3dad44846d5adnat;
    let e5 = 2 * e4 + 1;
    lemma_power_mod_square_times(10nat, e4, n, x4, 0xeb43722ae677002971130ea265187b9d63188d723da901f660cd6263f669nat, x5);
    let x6 = 0xba573cb05c777cf316407b9f11e6c114cf2c5fc0af09830000e99dc908bnat;
    let e6 = 2 * e5;
    lemma_power_mod_square(10nat, e5, n, x5, 0xa1878198c2a21de24b3a614e47ffd6a5cbd70920ada197debc6f9dfe4banat, x6);
    let x7 = 0x9fedd13c7a1803d07a9b2adf7faf2da19ae988f3d4d52e9f52b7296f783nat;
    let e7 = 2 * e6;
    lemma_power_mod_square(10nat, e6, n, x6, 0x4905c349a929f4410878c4edb5829ffb900379a5bd31fcacfb70026ba02nat, x7);
    let x8 = 0x248a9465d9c885b420c6827638a474f4bcdf0902c9612f9cdb5398c8993nat;
    let e8 = 2 * e7 + 1;
    lemma_power_mod_square_times(10nat, e7, n, x7, 0x219e46b2165ac2bdaeadbd9f9334df66522e47a439dfd3ad6e4e0dca3fa5nat, x8);
    let x9 = 0xf8e05964292bc8053f8764d26d69f2abd867646eab0cca613e1cc2ca3ffnat;
    let e9 = 2 * e8;
    lemma_power_mod_square(10nat, e8, n, x8, 0x2cede6436913c1f291dcd0029c3e15243ad10483a9905de1982261671enat, x9);
    let x10 = 0x55d42b9237fa1a98fee99b88ec695b22ac6091145f7d8e5149089a52a20nat;
    let e10 = 2 * e9;
    lemma_power_mod_square(10nat, e9, n, x9, 0x824258d315512d758839029d8539ce925c06e9213fbe768ec5bb04413d3nat, x10);
    let x11 = 0xdb46fb92217b95ea06e10d84693e4fdc27c9116bc525f5b417b38082f6bnat;
    let e11 = 2 * e10 + 1;
    lemma_power_mod_square_times(10nat, e10, n, x10, 0x9aeb79081ac7b7d40355a1badb77f32c44481676bda1389b4ecf11895afnat, x11);
    let x12 = 0x1abaa3db34b5a2ac7d554541f9200d3b7e79369a500df2e7ad3fe6ae087dnat;
    let e12 = 2 * e11 + 1;
    lemma_power_mod_square_times(10nat, e11, n, x11, 0x3f32df28200eec0b57d3e40fe2b706882bfa4e06b4e908927886dcd063a7nat, x12);
    let x13 = 0x19af48671b84a88658be153c3834bca997754d0f663dfd63017228a6027dnat;
    let e13 = 2 * e12;
    lemma_power_mod_square(10nat, e12, n, x12, 0x180a2793bf1736f248cc03ef19b61fef5eb94fd0d8d529ed0e32d9c5d9e4nat, x13);
    let x14 = 0x11a4eb2931a9fe9a06dd9d308a00fb996ecf6d897771ecb15ce97663958enat;
    let e14 = 2 * e13;
    lemma_power_mod_square(10nat, e13, n, x13, 0x1632a2f9dd8ace75163bfb066ce6ba132c7245d49be6df8d9216cd16e981nat, x14);
    let x15 = 0x10523fe2518dc23a8c2f4f6770a8ec042e03038f57f80854bfc5883fb5a4nat;
    let e15 = 2 * e14 + 1;
    lemma_power_mod_square_times(10nat, e14, n, x14, 0x68c0b66eb25001beeb03c2d6225098ef09fbd38e02942b81dc87c4fa62ccnat, x15);
    let x16 = 0xd583145f2cdcdc17568bf91e7daa6f4c91aa7b8725a5c975c562e2fc83cnat;
    let e16 = 2 * e15;
    lemma_power_mod_square(10nat, e15, n, x15, 0x8f69d58eedcde40857cf7f7b7adf94ea00c5a2737e8543b3b0a328a823cnat, x16);
    let x17 = 0x837a437dc5dade394bab46019eca3a9b830e53a5aa3a947e43eb50d2d08nat;
    let e17 = 2 * e16;
    lemma_power_mod_square(10nat, e16, n, x16, 0x5fdee3309b4bf5c5a3dbfc1f871e417bc026f652a19d31fd846c82e9498nat, x17);
    let x18 = 0x19fe1e1d9124ddd61f0108cea3c10d3617383db79f7c6a5cd4f861e77849nat;
    let e18 = 2 * e17;
    lemma_power_mod_square(10nat, e17, n, x17, 0x245a755dc0057b9ad8157e6a0765b9742be5c0a8cb74931602c0f983635nat, x18);
    let x19 = 0x8d204eb640da528681ea8e436fa0854b1f1355a7cc2238213a702561a8bnat;
    let e19 = 2 * e18 + 1;
    lemma_power_mod_square_times(10nat, e18, n, x18, 0xe3552eb51c23d6fd13bee5cb2a5a2c9f619e91672ea4e2b9f525c7707eadnat, x19);
    let x20 = 0x11a79cd25511436330da865f0924c307608628ec7ed1ef6ca327fbfeef48nat;
    let e20 = 2 * e19;
    lemma_power_mod_square(10nat, e19, n, x19, 0x29e2814c2aaadc809973cf2fdb72f28719831b4b11eaf82ac5f4f0321c3nat, x20);
    let x21 = 0x6b622ece0930a4868ee94e37c5e3e4545b66dd67f2e9d5ff1b4e4b5fcbanat;
    let e21 = 2 * e20;
    lemma_power_mod_square(10nat, e20, n, x20, 0xa7cdefbc2929120ab009f5a11d3079545bd2ea55f35acf8791f514edfb2nat, x21);
    let x22 = 0x1388396cbd9521a8a47fc0a972b874ece8913710cc4207ee0f24e9548750nat;
    let e22 = 2 * e21 + 1;
    lemma_power_mod_square_times(10nat, e21, n, x21, 0xf280a772c7687b6da6e7d8fc7d5d25c24b86db585d3df287d40207564c8nat, x22);
    let x23 = 0x183a9b553c6917fe3139c1ef8e677932d8635c0520590e1d23002db8a06anat;
    let e23 = 2 * e22 + 1;
    lemma_power_mod_square_times(10nat, e22, n, x22, 0x805e741dbe560c05ca330060f960a5a321b479dca388fb2ba26b5e3cf8e2nat, x23);
    let x24 = 0x1a83e14c191db8afb756f04ecbd960adb8bec152a7b51d2688c85f638b80nat;
    let e24 = 2 * e23 + 1;
    lemma_power_mod_square_times(10nat, e23, n, x23, 0xc587451ef1e06a31609406f86bcaaf79d573adae5ccc23eae91d1d2e25b8nat, x24);
    let x25 = 0x9b1873b4a659a2ee4e06edbe23e6425fe843cdf981b4dac4866ff2c146bnat;
    let e25 = 2 * e24 + 1;
    lemma_power_mod_square_times(10nat, e24, n, x24, 0xec907babfce62df79c4533f5fbaf4ea0593491451e65fe816d41fe2e7eafnat, x25);
    let x26 = 0x16a368404dec6ada6a9422d819adbb0dceb088ce4a8a8774a2bf329e1f17nat;
    let e26 = 2 * e25;
    lemma_power_mod_square(10nat, e25, n, x25, 0x329649d378c762adfac43ba69f801da237562c05b763581cb11bd34ff46nat, x26);
    let x27 = 0x1106fa2e2e31613ae121505dca0ed2a109a28227e8612a48460221d19342nat;
    let e27 = 2 * e26 + 1;
    lemma_power_mod_square_times(10nat, e26, n, x26, 0xac71c0b68bdbcb88f07a5869f6f1e90ce36629ccf44af5d7fe46b2a723b8nat, x27);
    let x28 = 0x1c82b08e841a58c726975ff0f93df023efe905444c59f8c8901316d2e85fnat;
    let e28 = 2 * e27 + 1;
    lemma_power_mod_square_times(10nat, e27, n, x27, 0x618e1f13d7276659a00d9103f463c2d4a16344a355e05abd87607e65530bnat, x28);
    let x29 = 0x1515ba882621000bcd53943756f4706834c9e14015e79cc81350857c3e70nat;
    let e29 = 2 * e28 + 1;
    lemma_power_mod_square_times(10nat, e28, n, x28, 0x111822da93c8aed71ebee7a3b9cc08ce49584ec5263685c76790fb7568b2enat, x29);
    let x30 = 0x1a22a0047bc192e363851388b994a6d94603143bec11d38b438992f009b3nat;
    let e30 = 2 * e29;
    lemma_power_mod_square(10nat, e29, n, x29, 0xef58253febdb8d2db171e3e078736a89d78d0a6f9bbf6f4057050e72457nat, x30);
    let x31 = 0x1312cdd816368d0397137a2dd71fe2fadb0f34409224fef8cf4847b16efanat;
    let e31 = 2 * e30 + 1;
    lemma_power_mod_square_times(10nat, e30, n, x30, 0xe5d586714e0102dd3fefcfb8a8180077ba062a47e7dcee74756bb4130fe0nat, x31);
    let x32 = 0xac6aa38ba6f2db6edb05eb2f6bfaf9513b805bb6aa3813f54ec2c5938b6nat;
    let e32 = 2 * e31;
    lemma_power_mod_square(10nat, e31, n, x31, 0xc3db73ecae8738c7bfffce39bafe6295e0144cd59a44de023b4730cbeeanat, x32);
}

proof fn lemma_power_205115282021455665897114700593932402728804164701536103180137503955397371_over_7723_part_2()
    requires
        power_mod(10nat, 0x1f862c8b3693227banat, 0x1db8260e5e3b460a46a0088fccf6a3a5936d75d89a776d4c0da4f338aafbnat) == 0xac6aa38ba6f2db6edb05eb2f6bfaf9513b805bb6aa3813f54ec2c5938b6nat,
    ensures
        power_mod(10nat, 0x1f862c8b3693227bab24550e6nat, 0x1db8260e5e3b460a46a0088fccf6a3a5936d75d89a776d4c0da4f338aafbnat) == 0x17c3ced0574e7c4cd27e3b8cd5a7cdc7e2a1b4dea6bc5c587f7f8a43d832nat,
{
    let n = 0x1db8260e5e3b460a46a0088fccf6a3a5936d75d89a776d4c0da4f338aafbnat;
    let e0 = 0x1f862c8b3693227banat;
    let x0 = 0xac6aa38ba6f2db6edb05eb2f6bfaf9513b805bb6aa3813f54ec2c5938b6nat;
    let x1 = 0x1913cea12843038285d21c55112870a36dbb8b26e7b72851c21bc75f9a6enat;
    let e1 = 2 * e0 + 1;
    lemma_power_mod_square_times(10nat, e0, n, x0, 0x2712bd118ca53768a16af3c7e1b7c72df8f837a9edc3492618c7135de14enat, x1);
    let x2 = 0x79bb81c4fb92e7f6031d15be57e6343ee838232aa6ab727284dc72a2105nat;
    let e2 = 2 * e1;
    lemma_power_mod_square(10nat, e1, n, x1, 0x15291399d45af823278942bf27c33fc8e046f99d4a3f567e719003af8e8dnat, x2);
    let x3 = 0x133540daad941b1769fa33c0524f7d9178ac9a3194999f49b6abbac33d62nat;
    let e3 = 2 * e2 + 1;
    lemma_power_mod_square_times(10nat, e2, n, x2, 0x137a3ef3ee53357294fda13196a8c8a911bbbd930010d276cf0e26dde348nat, x3);
    let x4 = 0x12cae930225c6821acfefe98d38a7ae5ec50cc4006530f54fa03a24e8d50nat;
    let e4 = 2 * e3 + 1;
    lemma_power_mod_square_times(10nat, e3, n, x3, 0x7c24e622a495894bf62c9088d2f57ec7a71a40b9eda73b0811ad84d4ae08nat, x4);
    let x5 = 0x12c82ecd2fbe16175902730b9cbbb3808fe117be9a4097aa036d32d2b9e0nat;
    let e5 = 2 * e4;
    lemma_power_mod_square(10nat, e4, n, x4, 0xbe21d747ec2f37f5bae0f8e1b84ffaf329f50458a33e0f9ceef758d5360nat, x5);
    let x6 = 0x1748e914eeb4f7bc298ad2685fe8db52a00486f0734fb625499510edc257nat;
    let e6 = 2 * e5;
    lemma_power_mod_square(10nat, e5, n, x5, 0xbdeaa798a4a8304c1d33bbb079e08d16f909b60377959768b42c252e4abnat, x6);
    let x7 = 0x183214e6c20892b33c478e1d2b3ed4d6327242a8658bc3a184292b351f77nat;
    let e7 = 2 * e6 + 1;
    lemma_power_mod_square_times(10nat, e6, n, x6, 0xb66f2760a17eedd8dd44729c2cf62a1e395f0a5b6e643a08dd5c15a55a29nat, x7);
    let x8 = 0x6ebe3b78d04cb8f3419faab5598f4f989c238c0e70a2f073e1bed90758bnat;
    let e8 = 2 * e7;
    lemma_power_mod_square(10nat, e7, n, x7, 0x13b2d61101be4f681364013628c9ad8bd5f69f78484c89c3c8fb146b5072nat, x8);
    let x9 = 0xa0d447586ca34322864290f1b99a4faab21b0e665403c45dd1be14addd8nat;
    let e9 = 2 * e8;
    lemma_power_mod_square(10nat, e8, n, x8, 0x19ca96d0455977373fcfb4c6ec1093790afe44673d504a7b4f34d207113nat, x9);
    let x10 = 0x16134b71f490dc1c27af4ec19139fae8db0a9d463317486b667781b622f4nat;
    let e10 = 2 * e9 + 1;
    lemma_power_mod_square_times(10nat, e9, n, x9, 0x21ff70316aac60c2bcf73f5dd4a63e6becc7c5bdeb988ab113f69a0ffce4nat, x10);
    let x11 = 0x10c5a0546b32ca8e6e2a32f5663064defcd98af28bc7356fb32173be2bc9nat;
    let e11 = 2 * e10;
    lemma_power_mod_square(10nat, e10, n, x10, 0x1065c0dea70be63655ea31ca1dfbf6cabb3209089d16a34de37b74e4bba5nat, x11);
    let x12 = 0x1bdd857f706a85b8c685d678a4c7c020e7c5e5885ca20ebadcc5bb5a1f4bnat;
    let e12 = 2 * e11;
    lemma_power_mod_square(10nat, e11, n, x11, 0x97716f70f841b4b566e1e17391d9c4b929b45f24cd0b23e0414b56ec6b2nat, x12);
    let x13 = 0x10905403145cecbc9db70638924194f8fef5ff5faec27ac7b4e5b3df04b7nat;
    let e13 = 2 * e12;
    lemma_power_mod_square(10nat, e12, n, x12, 0x1a2080e305d683e8281b59e367763a0d265f3ea2685d004c6441433d6e26nat, x13);
    let x14 = 0x535e8efec3690d6affc4326c5f91ba7f0eaba89cacc170906a654d2c8anat;
    let e14 = 2 * e13 + 1;
    lemma_power_mod_square_times(10nat, e13, n, x13, 0x5c510f3cdffb320cf7d4c21ff24d7c94664aa51137fb92e4c90432b74ce0nat, x14);
    let x15 = 0x11eefe4f774d1787b57f1675f77c00c10549589900beaeb8b4fb606f3a03nat;
    let e15 = 2 * e14;
    lemma_power_mod_square(10nat, e14, n, x14, 0xe9dea67046b71edd109909b7058363d38f7b1ebd17b7db2fbaa26353nat, x15);
    let x16 = 0x144516074333fe4c61e299c8c020cd5ed9c16260cc285c116a372d182ee0nat;
    let e16 = 2 * e15 + 1;
    lemma_power_mod_square_times(10nat, e15, n, x15, 0x6c377b361466de3efbdbb25422eebb7ef88de017cb57f6ac98a84ca7234enat, x16);
    let x17 = 0x6e1de061b4673e4e1734bde578b9c271200e0a6225e483348cf4ef684f0nat;
    let e17 = 2 * e16;
    lemma_power_mod_square(10nat, e16, n, x16, 0xdd32e4c12be525b26a2f47ff5f9514998b47d72b5f377cb9b9139bd1030nat, x17);
    let x18 = 0x1ce035b0ee517c0c8e8f16c5c97cb3feae9fd12cff1748be6209820dcd07nat;
    let e18 = 2 * e17 + 1;
    lemma_power_mod_square_times(10nat, e17, n, x17, 0xff0116230f5b03ef815aa914cd43a906805a712ab978e5a7e724d49b59bnat, x18);
    let x19 = 0x11274e4f1b4b37f0e0a69a65d4f3a710a4d73f503eb37f973da93685285nat;
    let e19 = 2 * e18;
    lemma_power_mod_square(10nat, e18, n, x18, 0x1c0e665367e71ad04a7ce89cf1bc3f9b3379bcc796132c20ea13f3841b44nat, x19);
    let x20 = 0xa9753f04e2e8886feefa3637c5f2bbf73e197bff8fec06ca508260d4c75nat;
    let e20 = 2 * e19 + 1;
    lemma_power_mod_square_times(10nat, e19, n, x19, 0x6301f07ac52679a22338852fc1dcc4c8739da68e0a175fcee0cafb147fnat, x20);
    let x21 = 0x7450333c54a804940d8e4418e6a3352a4f93c6f35e107a65c3145cb6c44nat;
    let e21 = 2 * e20;
    lemma_power_mod_square(10nat, e20, n, x20, 0x3c63d7c39239becf0562ddccae61536d084c1230f56b6866a2746e20d8fnat, x21);
    let x22 = 0xc734ab1c9d3193aa4e3dac5fb18ab21cabe3219b37a8fc396489aa8e7c1nat;
    let e22 = 2 * e21;
    lemma_power_mod_square(10nat, e21, n, x21, 0x1c737da692c93fdd789c74d4784de54e168d2e980ce5cb3f630c305bdbdnat, x22);
    let x23 = 0x1d7917c0cff8bb9e213d081bc6871400966972fa4438209ca4b6b41bf47cnat;
    let e23 = 2 * e22;
    lemma_power_mod_square(10nat, e22, n, x22, 0x53741a0a1a16260f4c5ba9962c914117bdf5a503f6d8dcae81faf8be1ffnat, x23);
    let x24 = 0x4664d9583c9a3e8e3c97f70f9913882c17b4545ab5da1d698cabe148977nat;
    let e24 = 2 * e23;
    lemma_power_mod_square(10nat, e23, n, x23, 0x1d3a8f3c94873186c39341fc34e06743f1315db8aa6e9fd852b1fbde047bnat, x24);
    let x25 = 0x192d7bc7ce831a2c38889a154a246bb313817f59a3d4b9b402531fffc851nat;
    let e25 = 2 * e24 + 1;
    lemma_power_mod_square_times(10nat, e24, n, x24, 0x6835e48e3ad9d3ba6afcce0adc98175f4e1bf2e1dff788d94df2f62df3bnat, x25);
    let x26 = 0x19e0e5e8ec60177d557ad6c37fbf6350ec4c3114e5c0ca093b15b792da85nat;
    let e26 = 2 * e25 + 1;
    lemma_power_mod_square_times(10nat, e25, n, x25, 0xd54cf339b9288b3fdd6e08e3abe1b48d317cca899c6c8bec5a756d3e763fnat, x26);
    let x27 = 0x5e8548801abe46542561c4eacbc2b082c276416524ab706edcf314024a8nat;
    let e27 = 2 * e26 + 1;
    lemma_power_mod_square_times(10nat, e26, n, x26, 0xe15731a049858d62bd0afec0ba44d1ba4c1101e4e20f3239f8f52153f256nat, x27);
    let x28 = 0xb17f14ef83133f0446ae3214b1c2574c9d1951aa508bf2997dc42464500nat;
    let e28 = 2 * e27;
    lemma_power_mod_square(10nat, e27, n, x27, 0x12c9e1487e7bc3f20fff32a64da65a08ded2e991b289d8326caa6b3f7c0nat, x28);
    let x29 = 0x1bc0cb3e51af323b601eb84f292a5810e929edbbd986767313c9513c9347nat;
    let e29 = 2 * e28;
    lemma_power_mod_square(10nat, e28, n, x28, 0x424156a685c01dd34142897fbe2e90c76e6bcb58a924860ab2aee8df8dbnat, x29);
    let x30 = 0xa9ad75d3c5faa71decc564f8239e170fcca923d2ce9f8f8675eec60e8f4nat;
    let e30 = 2 * e29 + 1;
    lemma_power_mod_square_times(10nat, e29, n, x29, 0x1032b693bdeedc478e1fdc2d1c0df6e819be91c3304e32ca9636e87739e02nat, x30);
    let x31 = 0x16301d667f999c064cb2d2d44545bf09ff0de22e526aba8583606363329fnat;
    let e31 = 2 * e30 + 1;
    lemma_power_mod_square_times(10nat, e30, n, x30, 0x25d775997d6c4d40ff348dc63574691f7a9e2215c1af08a5361826468933nat, x31);
    let x32 = 0x17c3ced0574e7c4cd27e3b8cd5a7cdc7e2a1b4dea6bc5c587f7f8a43d832nat;
    let e32 = 2 * e31;
    lemma_power_mod_square(10nat, e31, n, x31, 0x1090ad6f2ce081cd13897e5889fb1abb47c4f74ad1ddb794c23b1abf5e7dnat, x32);
}

proof fn lemma_power_205115282021455665897114700593932402728804164701536103180137503955397371_over_7723_part_3()
    requires
        power_mod(10nat, 0x1f862c8b3693227bab24550e6nat, 0x1db8260e5e3b460a46a0088fccf6a3a5936d75d89a776d4c0da4f338aafbnat) == 0x17c3ced0574e7c4cd27e3b8cd5a7cdc7e2a1b4dea6bc5c587f7f8a43d832nat,
    ensures
        power_mod(10nat, 0x1f862c8b3693227bab24550e681c85acbnat, 0x1db8260e5e3b460a46a0088fccf6a3a5936d75d89a776d4c0da4f338aafbnat) == 0x11fe456812772399e63a19333c216c017d6ba2ca6034136087e0427ba5adnat,
{
    let n = 0x1db8260e5e3b460a46a0088fccf6a3a5936d75d89a776d4c0da4f338aafbnat;
    let e0 = 0x1f862c8b3693227bab24550e6nat;
    let x0 = 0x17c3ced0574e7c4cd27e3b8cd5a7cdc7e2a1b4dea6bc5c587f7f8a43d832nat;
    let x1 = 0xeb48f1fe447e202ee899500910ee6cdbad7d207551818414f73843b9d53nat;
    let e1 = 2 * e0 + 1;
    lemma_power_mod_square_times(10nat, e0, n, x0, 0xbe08c8bc35db60e6ba96966609f75f1a51e3718b552f52362219f78d6cefnat, x1);
    let x2 = 0xfe3a66223f167bf4e1b1b3298d98cf3f87136a27e224be15dce4091e3a3nat;
    let e2 = 2 * e1;
    lemma_power_mod_square(10nat, e1, n, x1, 0x746ba268cc91731b2f1ac88e71aac5917f9003d19a5be0acc64322aecf2nat, x2);
    let x3 = 0xad32d2617b9073e432ec933dd638c5c3dea7e77fd4a5a7797d8920a47nat;
    let e3 = 2 * e2;
    lemma_power_mod_square(10nat, e2, n, x2, 0x87ebe79cf8f99319e2fb1925de6ccae9bccb6ac8830e13b09c65545d6e6nat, x3);
    let x4 = 0xf6c25e335e31cc8266a4031c38e455356b30d9eb215911a835d6aacb08anat;
    let e4 = 2 * e3;
    lemma_power_mod_square(10nat, e3, n, x3, 0x3f15e184b4b9a4e80ea816fd3d5d34f6aeb54a4b5323418c49954c5nat, x4);
    let x5 = 0x187cc289f95d009679f884451b2d4a9da2d894fcb69c7ee855e68eb70304nat;
    let e5 = 2 * e4;
    lemma_power_mod_square(10nat, e4, n, x4, 0x800d6d0b7125161cc36fc7e0b9f4baf634d979ba579f37527641af47820nat, x5);
    let x6 = 0x99bc8b1377122c4cf757b2abecca279f5075394bea27593d63ac3deea9anat;
    let e6 = 2 * e5;
    lemma_power_mod_square(10nat, e5, n, x5, 0x142d2a803414eff83f32a1e17e431079379d6b157ec4acb1a35b2592ee82nat, x6);
    let x7 = 0x9618258e9534a6e00fd04b77b3316f6b65e855df603651257251093d7b0nat;
    let e7 = 2 * e6;
    lemma_power_mod_square(10nat, e6, n, x6, 0x31b45475db950ed405e8b1063c091ec52a26da5780e7c004ba44686d49cnat, x7);
    let x8 = 0x5e2a2d894b935fc2fab294c945d9b6e65bff2b0b75f9b4f8e7afeb79367nat;
    let e8 = 2 * e7 + 1;
    lemma_power_mod_square_times(10nat, e7, n, x7, 0x1d9c5ab7cf6cfad03dadc943cbee5b5be6e25a6f111207e14a554457c07bnat, x8);
    let x9 = 0x1c6fe16be4e3c290a9a84b81bf513cdbfcb96c5a3b76627057dbc48e09f9nat;
    let e9 = 2 * e8 + 1;
    lemma_power_mod_square_times(10nat, e8, n, x8, 0xba7949b00a4dfe52087876c29631ff609a89b0a4223e5d7fbfd0391ce83nat, x9);
    let x10 = 0x88e1af8eedcf2a85bb2ea8a3eba3b42a04b8d74f5ef3fc5bcc56f813c85nat;
    let e10 = 2 * e9 + 1;
    lemma_power_mod_square_times(10nat, e9, n, x9, 0x11019c314371847f6e023aafcd4d111a05a47298285240833e5bd8c427b1fnat, x10);
    let x11 = 0x1c780d5c1fdae08d2ffe6933816d3486d05c903ee5181f32b607fa635cd2nat;
    let e11 = 2 * e10;
    lemma_power_mod_square(10nat, e10, n, x10, 0x2767357218c46582c54285e27c03acc0a59f89521c2ddda6efa03477e25nat, x11);
    let x12 = 0xb952eca3505a53c88250ef768905cec72081c038dbb049ee488d2ba85c9nat;
    let e12 = 2 * e11;
    lemma_power_mod_square(10nat, e11, n, x11, 0x1b456c4f6a496efeb26ee151840dd60cdf8558bc48d4595ba68af0cd6a81nat, x12);
    let x13 = 0xe62342fd0a1be9a05a57aed3a28be857cbcbe8cdf8ae97a73319a416943nat;
    let e13 = 2 * e12 + 1;
    lemma_power_mod_square_times(10nat, e12, n, x12, 0x2d246fcf21b9d1a1180364e525fe969d679db8aaee1dd1309556edd86a05nat, x13);
    let x14 = 0x1377ac712b2d4ac3555adabc22163d3a1f886c067bcd912aedafb5c043e0nat;
    let e14 = 2 * e13;
    lemma_power_mod_square(10nat, e13, n, x13, 0x6f61e6dbf16f48f4b47e7656a5ff70f244d048ed8ed79244b5a35254aabnat, x14);
    let x15 = 0x10af2237fe56816f551ca43af5261b67ce1452677b7f5e9a634d55fdffcanat;
    let e15 = 2 * e14;
    lemma_power_mod_square(10nat, e14, n, x14, 0xcc086c5ce5c1414144b999832dfba39cf3b6f52c7ecbc0d51522cb3b6c2nat, x15);
    let x16 = 0x70e3cbbff13392ca083a9d34ad33d00d0bc8ada6388d1452569fdf94banat;
    let e16 = 2 * e15;
    lemma_power_mod_square(10nat, e15, n, x15, 0x95dc4db7ec5b83060b1bbdd2d3621f77e2d63b5ef64a64361576715c3denat, x16);
    let x17 = 0x280b7f1cb844d150f3c31cb8f8e452f0be7c8a3c6b3d37940c422f86063nat;
    let e17 = 2 * e16;
    lemma_power_mod_square(10nat, e16, n, x16, 0x1acd0cc720090ac69cc1276a485f27791b9d5736767328e2160c6b873nat, x17);
    let x18 = 0x132be66f0d948835764189faab75a277db0a4e7af96f39f37f2bb72d06b6nat;
    let e18 = 2 * e17 + 1;
    lemma_power_mod_square_times(10nat, e17, n, x17, 0x21b9465a85fa5b18d32d646d8e82b50a9daa938f796619bc4d678f4af2cnat, x18);
    let x19 = 0x18cb41be6d1123e98c6a64efec514b00be4122adeee5cd3ad74236c0d684nat;
    let e19 = 2 * e18;
    lemma_power_mod_square(10nat, e18, n, x18, 0xc5e02dcb097292a41eec97b40c613c5cdb40fc8d15f22734dd0cb5822a0nat, x19);
    let x20 = 0xf7bea941bc31ebca72c34ca4be419e9dd589db9daa09613a1b0eb2e89f7nat;
    let e20 = 2 * e19 + 1;
    lemma_power_mod_square_times(10nat, e19, n, x19, 0xced950926b4abea0f61353107d17673817016ad59cfcf34c97fff7f80babnat, x20);
    let x21 = 0xcd9187f29827d0ae7099c2ccb8ae6b6d9a1d103d3c380c3159785c59e3fnat;
    let e21 = 2 * e20 + 1;
    lemma_power_mod_square_times(10nat, e20, n, x20, 0x50ac5f9003e59f203b92d6f6bed73bbec805be377f19067398f9986672d1nat, x21);
    let x22 = 0x6c0628fd4bb8519dd7f33bd1c6d152d4e40f1621e38d5b69ca480a8014dnat;
    let e22 = 2 * e21;
    lemma_power_mod_square(10nat, e21, n, x21, 0x58dea918995e07350778eb60cba5714295269c96401c8c568d9d5b9205cnat, x22);
    let x23 = 0x13b7f0094d94c794416ac279cf6817770f9bc4ade880125d826f83e44f28nat;
    let e23 = 2 * e22 + 1;
    lemma_power_mod_square_times(10nat, e22, n, x22, 0xf5677a48f6075e3068d9b0bf8ba9912779bc3448c3cd8172662a57bcab6nat, x23);
    let x24 = 0x65d56c09aa892c2116f2b7aede9bf89e78f3cfbf7d8804f49e9ba06fae0nat;
    let e24 = 2 * e23;
    lemma_power_mod_square(10nat, e23, n, x23, 0xd1542c710e7cc3ce8245baecfecc9173027dfd55da9de33cb2f14195420nat, x24);
    let x25 = 0x4837635f1b60a5fe8375ead933f52ee89fae8792ab588954a6e86a0ef32nat;
    let e25 = 2 * e24 + 1;
    lemma_power_mod_square_times(10nat, e24, n, x24, 0xda15831c3b1fdfb2998d4858adbe36242145239f915c4cda81dc9cf310anat, x25);
    let x26 = 0x1893641521a2a7b3ec18de7f82e2ede3ad8327516b42dbe3ffc4c2328f4enat;
    let e26 = 2 * e25 + 1;
    lemma_power_mod_square_times(10nat, e25, n, x25, 0x6dad17ec8e3ad4da7e55dfe69d376cc278dc3e760103e7d8910d8f14feenat, x26);
    let x27 = 0x589bd48952c862d49f32f31132f87c38d36444756b0466b8ed93a96686fnat;
    let e27 = 2 * e26;
    lemma_power_mod_square(10nat, e26, n, x26, 0x145286f436468d56261f855b09601f54f7effc80abb79c1c7985ef7029efnat, x27);
    let x28 = 0x10776ba1e2efc4ad8d3e18302957fcb65cf39fb55925885dfa075f070670nat;
    let e28 = 2 * e27;
    lemma_power_mod_square(10nat, e27, n, x27, 0x108303e07e48d6ba43a8bf7d4848ff2517c798d04d85d971f073614ae43nat, x28);
    let x29 = 0x11b71795603e683048656ae836b1c468c9195cd1ed1241b2fa96d090fbc9nat;
    let e29 = 2 * e28 + 1;
    lemma_power_mod_square_times(10nat, e28, n, x28, 0x5b3c3bb780e8e023b57e387a6a04aaa736c49b10d622118e4e4aa44ba4f5nat, x29);
    let x30 = 0xe51b34e9d4b5994557e1de37d1e794023a51cc255ac39dea67b859e18a5nat;
    let e30 = 2 * e29;
    lemma_power_mod_square(10nat, e29, n, x29, 0xa8f4b31ec214086bf44c43a3deff929897fbec522bdeb2e82b2333cd9c4nat, x30);
    let x31 = 0x7ce2d6c1f0970971e4008e1df6793b0a3236362e7b311a965b32982cbc3nat;
    let e31 = 2 * e30 + 1;
    lemma_power_mod_square_times(10nat, e30, n, x30, 0x44fdcca7179607de96d96f2b43b1d1cff61a7fd1d5d2cfe0f72978661575nat, x31);
    let x32 = 0x11fe456812772399e63a19333c216c017d6ba2ca6034136087e0427ba5adnat;
    let e32 = 2 * e31 + 1;
    lemma_power_mod_square_times(10nat, e31, n, x31, 0x147ff1683821b2e9b0f1018d5d004205b6861b7167b0fdfbb22156f7f377nat, x32);
}

proof fn lemma_power_205115282021455665897114700593932402728804164701536103180137503955397371_over_7723_part_4()
    requires
        power_mod(10nat, 0x1f862c8b3693227bab24550e681c85acbnat, 0x1db8260e5e3b460a46a0088fccf6a3a5936d75d89a776d4c0da4f338aafbnat) == 0x11fe456812772399e63a19333c216c017d6ba2ca6034136087e0427ba5adnat,
    ensures
        power_mod(10nat, 0x1f862c8b3693227bab24550e681c85acbf407f1fcnat, 0x1db8260e5e3b460a46a0088fccf6a3a5936d75d89a776d4c0da4f338aafbnat) == 0xa0d3f857f9b4b678f24cf6387c0651c24e5007164c2365169618ec176fcnat,
{
    let n = 0x1db8260e5e3b460a46a0088fccf6a3a5936d75d89a776d4c0da4f338aafbnat;
    let e0 = 0x1f862c8b3693227bab24550e681c85acbnat;
    let x0 = 0x11fe456812772399e63a19333c216c017d6ba2ca6034136087e0427ba5adnat;
    let x1 = 0x1ae5db3481868c10a43a66b6123f087ffab65c59d5153bf98e6956dd524bnat;
    let e1 = 2 * e0 + 1;
    lemma_power_mod_square_times(10nat, e0, n, x0, 0x6cf02b49d537e6e6a1486cde8950e58ab507382ee30f3f1170c57153af3dnat, x1);
    let x2 = 0xfb9e01553d2b24fa88b6956b870cf9ef4857b4df39f02fb8a7eecd3849dnat;
    let e2 = 2 * e1 + 1;
    lemma_power_mod_square_times(10nat, e1, n, x1, 0xf3715bf820380b7326dc873a76499ac8cd816fac0f2f1a6da4b9d789d2c7nat, x2);
    let x3 = 0x12768a5cf83b406cffdbad5741cf800db9436e9bdae5665047cb4ff92fcfnat;
    let e3 = 2 * e2 + 1;
    lemma_power_mod_square_times(10nat, e2, n, x2, 0x53370b1f1cf8cf4a2a1cee732938e008a524a982266a25fca2f14c0e6b31nat, x3);
    let x4 = 0xe66d90f6bf05378cda8fbb7c574871f30623aa13fb2d95c4dccc6fe9083nat;
    let e4 = 2 * e3 + 1;
    lemma_power_mod_square_times(10nat, e3, n, x3, 0x72b37f323d41bad1a3fae3d2ee0eda4b244eb36f4a681bc4728895605525nat, x4);
    let x5 = 0x10f48364c961b98ebf83434b6be2cc9d79f35660582bbbcdb8eb8d6626bbnat;
    let e5 = 2 * e4;
    lemma_power_mod_square(10nat, e4, n, x4, 0x6fa9df0ab97178a5b86681f62a25018262ac6ca24483965aecb0a8f238anat, x5);
    let x6 = 0x18f278b1b87b3b9a41c3a6fe66de5e02091f125c84382536621bb11cf10cnat;
    let e6 = 2 * e5 + 1;
    lemma_power_mod_square_times(10nat, e5, n, x5, 0x60bafeed6a52bb7fa4dfff3278e20f464acb925a297c341d90daa9ba736anat, x6);
    let x7 = 0xf9402d6ed53d2a9d46457eaaa289f6c872d5ac53979394e63c6aecf5dd9nat;
    let e7 = 2 * e6;
    lemma_power_mod_square(10nat, e6, n, x6, 0x14f0f702380d879ca6f40b0e3d98fa35109fa7d29d0738c17b4db9ea6275nat, x7);
    let x8 = 0x869e9984a669d0a04be5abc74f31d720ac6b5da9450e6f08f55222d23f6nat;
    let e8 = 2 * e7;
    lemma_power_mod_square(10nat, e7, n, x7, 0x82a6bbbdcc57d5a216ee56b1fda493357c145334fee8d221680482a4901nat, x8);
    let x9 = 0x5c6837eb8fd0a9ffcfdc0fe7c9acf56cab86dfacfb888d742e800c92119nat;
    let e9 = 2 * e8;
    lemma_power_mod_square(10nat, e8, n, x8, 0x261c91895e70320e4f8d4e1b0f99a5e422f2da93d01888bb2ff7ed9fbf1nat, x9);
    let x10 = 0x1c218ec20a6b9a1e06d3e89f74ba70c2a324c75bd53c8f8bb04c156416e6nat;
    let e10 = 2 * e9;
    lemma_power_mod_square(10nat, e9, n, x9, 0x11f52e852c857b037003111d0b1a18a4929ac144db3d037813ddb1c92b1nat, x10);
    let x11 = 0x1429fc2d9543f039e7223cb6d9f73be79eb02ea007c8b9c7f40c27d26db4nat;
    let e11 = 2 * e10;
    lemma_power_mod_square(10nat, e10, n, x10, 0x1aa0b20affeaa900c601fb393527dd5a6d7f62e108463fc1e6cd40fc67d0nat, x11);
    let x12 = 0xcd56bf139a04d2a6bf4d42897248e954031646bbc49683564074f99df54nat;
    let e12 = 2 * e11;
    lemma_power_mod_square(10nat, e11, n, x11, 0xdae4f2ee82af1d3d18fcea43fc7add76b1d9f190d10f6e5e14fb73ed0f4nat, x12);
    let x13 = 0x1736edb863bdbd94f4b17f2aa3fde6ce441b9155e4217efdf9ab795ee10anat;
    let e13 = 2 * e12;
    lemma_power_mod_square(10nat, e12, n, x12, 0x58abdcbdcb8e994199baf53a31b80523264218f4c3ff1ec7288587210b2nat, x13);
    let x14 = 0x5a560d3249a37ac441d171e61f3e621d42cc2e0ba2d8c60af677ad41374nat;
    let e14 = 2 * e13 + 1;
    lemma_power_mod_square_times(10nat, e13, n, x13, 0xb555ce661b6d071d465021baefeccde11bccd538bbaf53b93604d489ff1cnat, x14);
    let x15 = 0x1a527b25e593aaeefec5c12244a08110e7c88b4518fb521499cd66e4c9b5nat;
    let e15 = 2 * e14 + 1;
    lemma_power_mod_square_times(10nat, e14, n, x14, 0xab9e547120e70c04c17c779a0066086968636ca786cc90b04cc9b2907d1nat, x15);
    let x16 = 0x1a2d3bfa6a742ef4ab1dc8b26aaa6c36ac29d2ad457e3941791bab7c7387nat;
    let e16 = 2 * e15 + 1;
    lemma_power_mod_square_times(10nat, e15, n, x15, 0xe9223a8ce44968c6d6fb623d44f60264d8a49b4ed2fd5a0f75b8e480ea29nat, x16);
    let x17 = 0xdb54dd6a37e9d296da9e6347932ed8af0426af622e27e7824dcd238ae71nat;
    let e17 = 2 * e16 + 1;
    lemma_power_mod_square_times(10nat, e16, n, x16, 0xe69044c4b7581c042f638d75bbb0ff2006b2a22aec737e2f7742bb42cf1bnat, x17);
    let x18 = 0x9ef5a4e0e83d609be671c19072c1fb4fdff2dc380aa30ca3de649b71497nat;
    let e18 = 2 * e17 + 1;
    lemma_power_mod_square_times(10nat, e17, n, x17, 0x3f3adff177aaf036132d574ea4326e6a0ff6c9ff48135208220673ea7c29nat, x18);
    let x19 = 0x13c737c9c760298c85c476ca644b65e64543b9707e004eaef923feafed45nat;
    let e19 = 2 * e18 + 1;
    lemma_power_mod_square_times(10nat, e18, n, x18, 0x213641b1e91d500d75fe9fd3c716488063417e4f51958a82117b541a0b1fnat, x19);
    let x20 = 0x1a6551f7aa0e09705acfb95a25b989f2aa4a1060d3b0874d494f9e044239nat;
    let e20 = 2 * e19 + 1;
    lemma_power_mod_square_times(10nat, e19, n, x19, 0x839fae93e6dd87279d122e629804946c394a81726188a2798dde549d2773nat, x20);
    let x21 = 0x5f3a21683b48b54a10f130d892eda3b3236c30365e84e57de02d9fdb136nat;
    let e21 = 2 * e20;
    lemma_power_mod_square(10nat, e20, n, x20, 0x1771a41176d024bf8edc565cd411a7e150f55267f1fe1dca1c09de551581nat, x21);
    let x22 = 0x1ccf50d9827b62ef77472b0c23965c6b0110d7047b8ff5d4240b42090f64nat;
    let e22 = 2 * e21;
    lemma_power_mod_square(10nat, e21, n, x21, 0x13120ba5d672c062c5dec73953eed17fc727bd3f94881902e11765b7800nat, x22);
    let x23 = 0xc1ea99070442a18a632e6e4c9bcc6ec3526ce394f46fafd85f7e9650b87nat;
    let e23 = 2 * e22;
    lemma_power_mod_square(10nat, e22, n, x22, 0x1bed9bbf1b30ce677804baa19861e9d163bcbb831291808b7dadafb4744bnat, x23);
    let x24 = 0x1c4aa1c77f6133a5665708ecec75e577eed9e8a3fa7ffc3bcf5f26406775nat;
    let e24 = 2 * e23 + 1;
    lemma_power_mod_square_times(10nat, e23, n, x23, 0x316ce62ac0f8d7e9d688e9e5168ffb1b64d9cc2636be9da88aa196cd134fnat, x24);
    let x25 = 0x1a861a9b1ab07aa703f408b6de1dc3f0c591379a7e33da9cd9054d2c5a0anat;
    let e25 = 2 * e24 + 1;
    lemma_power_mod_square_times(10nat, e24, n, x24, 0x10d52c1c25a636d2df2fe062e326abd7815e7cd8d8ea0a71050bef6f14b10nat, x25);
    let x26 = 0x4119884b123b933d329afcc1ad65726f19d51a25bf1423e13ce466442a9nat;
    let e26 = 2 * e25 + 1;
    lemma_power_mod_square_times(10nat, e25, n, x25, 0xecb82be9fd69035ac6c4a72d9e17120e55470adb325175582ca795269f8dnat, x26);
    let x27 = 0x106c5bc70534ca23316a7a05c21ed768b0879d2a436032cfeaaa37a72ee3nat;
    let e27 = 2 * e26 + 1;
    lemma_power_mod_square_times(10nat, e26, n, x26, 0x591ffeb47b4ba199226524e6f73377060a8afeaa1b8328291e1472553a5nat, x27);
    let x28 = 0x113773ac4f13ca1635e10f7ac416a7dd362dba3e4b88607f8f589efa7898nat;
    let e28 = 2 * e27 + 1;
    lemma_power_mod_square_times(10nat, e27, n, x27, 0x5ac1d02babe7db4406559871606e1aa222d01ac5612d29ce760213457126nat, x28);
    let x29 = 0x45ed588aefd0ac35d30a09c1e37ac7f8091aec22887285253221bf15c92nat;
    let e29 = 2 * e28 + 1;
    lemma_power_mod_square_times(10nat, e28, n, x28, 0x63bcaa79bb96e87a5571cf171ec59e3ce4265a48796cc258160fb2f6ba6anat, x29);
    let x30 = 0x17bc5af09e839590888947afa1e97362b4f26bb0820d6896e9ee2175e48bnat;
    let e30 = 2 * e29 + 1;
    lemma_power_mod_square_times(10nat, e29, n, x29, 0x66d53e4d6857e017c33b4c3e99123bd2dcb0a40e74ab06f71d9cf2d09c7nat, x30);
    let x31 = 0x6f872ad572b899ff40092a60ee7719560083523ad368effe4374ac2802nat;
    let e31 = 2 * e30;
    lemma_power_mod_square(10nat, e30, n, x30, 0x12f4f780fa884f9a31194062e6db0ecba3cfecd51a694e9ed0c7583308b5nat, x31);
    let x32 = 0xa0d3f857f9b4b678f24cf6387c0651c24e5007164c2365169618ec176fcnat;
    let e32 = 2 * e31;
    lemma_power_mod_square(10nat, e31, n, x31, 0x1a2883861b66b91c0a09f8bd5f8b54e35f6b8300c12f0897888abac98nat, x32);
}

proof fn lemma_power_205115282021455665897114700593932402728804164701536103180137503955397371_over_7723_part_5()
    requires
        power_mod(10nat, 0x1f862c8b3693227bab24550e681c85acbf407f1fcnat, 0x1db8260e5e3b460a46a0088fccf6a3a5936d75d89a776d4c0da4f338aafbnat) == 0xa0d3f857f9b4b678f24cf6387c0651c24e5007164c2365169618ec176fcnat,
    ensures
        power_mod(10nat, 0x1f862c8b3693227bab24550e681c85acbf407f1fc4088a799nat, 0x1db8260e5e3b460a46a0088fccf6a3a5936d75d89a776d4c0da4f338aafbnat) == 0x192f9504fd903f122989b50eb08c93fdf7da3eab3a1ff121044010c1868bnat,
{
    let n = 0x1db8260e5e3b460a46a0088fccf6a3a5936d75d89a776d4c0da4f338aafbnat;
    let e0 = 0x1f862c8b3693227bab24550e681c85acbf407f1fcnat;
    let x0 = 0xa0d3f857f9b4b678f24cf6387c0651c24e5007164c2365169618ec176fcnat;
    let x1 = 0x181e1f89b1f0a4a7fcc9b838e8c559f58fae897a04f06604ae20bb1008aenat;
    let e1 = 2 * e0;
    lemma_power_mod_square(10nat, e0, n, x0, 0x36654ade48493eea76a2fd463db4f81182ea33cf5b8d445af6d53d74086nat, x1);
    let x2 = 0x1416ee0bef16244d3ca2cbe9ce9b1e96951e2e851fcd4d3a2e856089da85nat;
    let e2 = 2 * e1 + 1;
    lemma_power_mod_square_times(10nat, e1, n, x1, 0xc3b7e82ce8cbe1bf1e1ed41c807bcd67dcc8dc22560110149794baf5c2f9nat, x2);
    let x3 = 0x1405f6dbebcd02bc893b992d67ecf8a10b3ecb78a7b8c1e5afab640e119anat;
    let e3 = 2 * e2;
    lemma_power_mod_square(10nat, e2, n, x2, 0xd947ff5fe926b845dd56fa7f75aa84f81d0e46fa0c88890d7776fd3be4dnat, x3);
    let x4 = 0xa6383691346b9f69e99bb5bbded247446b97b5c0699799b6f6919fcd922nat;
    let e4 = 2 * e3;
    lemma_power_mod_square(10nat, e3, n, x3, 0xd7d99dc398ca55f07e56a1f9b95b25528d54a9e97cb5446305979f6eee6nat, x4);
    let x5 = 0x1adee693e878c2f49470b8bb39474c34c155a9d7652c1c754e0530f72eb1nat;
    let e5 = 2 * e4;
    lemma_power_mod_square(10nat, e4, n, x4, 0x3a1a99eda0c0788003fb1d440bef56fd73fa1eb3501a5ccba734526b509nat, x5);
    let x6 = 0x16d59b4c9ed70b57681fbab77ce8c78f341eb858be08c78e2a615bbc0denat;
    let e6 = 2 * e5;
    lemma_power_mod_square(10nat, e5, n, x5, 0x184b8d438bcd0cf8f8c259e84dda8bbc944d082e73a54a08fccdc8677919nat, x6);
    let x7 = 0x4465e358f871a55979a27898dfb6b68325e62356470e444bcd3190a90denat;
    let e7 = 2 * e6;
    lemma_power_mod_square(10nat, e6, n, x6, 0x118b624c4276ae130a3e7358a8e72d3b009fa8db1ac019d467a7095e12nat, x7);
    let x8 = 0x12f0de469e7a0c7bb79ed76da38c8f47cbd2fdfcb400b37bfb04748ebdb6nat;
    let e8 = 2 * e7;
    lemma_power_mod_square(10nat, e7, n, x7, 0x9d6a6524628d8cd05c8b79eec0a16c2ffb70927e28c9bcc382d12b2f0anat, x8);
    let x9 = 0x19ba35f635c331865df1359a7cbb26abf4f994651eaa82c258be344ca0fbnat;
    let e9 = 2 * e8 + 1;
    lemma_power_mod_square_times(10nat, e8, n, x8, 0x78b714bf2bf183fa123f7033b39d63b2fea0b1e7aeb97f9a3f6af5a0cb37nat, x9);
    let x10 = 0xe261896afafa0004a554a373cda55e615ee3c89be727e914809a8bad37anat;
    let e10 = 2 * e9;
    lemma_power_mod_square(10nat, e9, n, x9, 0x16458a87fa44bcd414a57a2980bdea9ef9c974a4b983db2e6b3a28b555adnat, x10);
    let x11 = 0x90457e207f8e837c4fe3cb68d37b84ea3b376de7c9216685adc9671376bnat;
    let e11 = 2 * e10;
    lemma_power_mod_square(10nat, e10, n, x10, 0x6bc695e8ca1f5fb84500ca1a6bd546cc8c7678c72a003883d64fc156edbnat, x11);
    let x12 = 0x5e55d163aa31268956d2a789034119f4f01eb0c259d910715710d0afdd2nat;
    let e12 = 2 * e11;
    lemma_power_mod_square(10nat, e11, n, x11, 0x2bc5c5a9bd2ac4c3369810e3bec48db0b32339629afa4ac9da67353d605nat, x12);
    let x13 = 0x1616bcb40391160f5b7d45232de30f0c621dbdc024acdb519626273aa564nat;
    let e13 = 2 * e12 + 1;
    lemma_power_mod_square_times(10nat, e12, n, x12, 0xbb2648d0f1069f467bfca71484a139db46015ac38b96a24986932ef548cnat, x13);
    let x14 = 0x16a00a67e9bceae2d34847b9e9d02fa56be02668378e35ca47ad8188c79fnat;
    let e14 = 2 * e13;
    lemma_power_mod_square(10nat, e13, n, x13, 0x106ade74e32016b8fef16a8efcaf53c1bfeef37c93b8f1b1cb5d158b0b83nat, x14);
    let x15 = 0x8f3d3988becbe2876e06b08633400aec7800c25498490aa3a0f89dd98aenat;
    let e15 = 2 * e14;
    lemma_power_mod_square(10nat, e14, n, x14, 0x113972a76f9a857b78f67e38e97f73f8ec2bade29ff3d4e45257aea9a7c9nat, x15);
    let x16 = 0xb2cf10bba6c9bdf2281486a04ba62cfe686a6337d7eb266638cb3b27284nat;
    let e16 = 2 * e15;
    lemma_power_mod_square(10nat, e15, n, x15, 0x2b25fc6335d2fe9608db5f2755179a43e36d80553683ef4c60822849f40nat, x16);
    let x17 = 0x17a0e49b3d526b7c87e972462d87a02870aa188bf886bc79c306226eb07nat;
    let e17 = 2 * e16 + 1;
    lemma_power_mod_square_times(10nat, e16, n, x16, 0x2a062f40730a5b8830513afd0252f99434789b818ae931607ef25f6df57bnat, x17);
    let x18 = 0x1990780fe07d1c81a9911b8f106d1f1fbe528539b1b9bbbd47c2612de52dnat;
    let e18 = 2 * e17;
    lemma_power_mod_square(10nat, e17, n, x17, 0x12c933215ea2099582eff2e43832b5e81f8afbe605b90eceb5984d0fccnat, x18);
    let x19 = 0x33c5410e93a197c147037e324141a35d6110e55035c5bcbf7849a70a6d6nat;
    let e19 = 2 * e18 + 1;
    lemma_power_mod_square_times(10nat, e18, n, x18, 0xdbe700839561c5808f583a355a96200a0a38d285409517dc9271321ac18cnat, x19);
    let x20 = 0xbee6bb1a53da0ced586e4e5bee325d34267cba2032e859fe4ee2bd6210bnat;
    let e20 = 2 * e19;
    lemma_power_mod_square(10nat, e19, n, x19, 0x5a2eec61bf68e17491906c40352deef2166754808613204ff002bf763bnat, x20);
    let x21 = 0x15f2722e0409b71ab83a506ede6d7cf892edef16d7c75b5fbc408f98e804nat;
    let e21 = 2 * e20;
    lemma_power_mod_square(10nat, e20, n, x20, 0x4ca3fc71e15e8c84eb1ddb32ab6d5a1cdadaf8606a78ad3b9196c0e914fnat, x21);
    let x22 = 0x1506e9697489a9400da65327eb53b6fdf647e83987fd347e45e5be669319nat;
    let e22 = 2 * e21 + 1;
    lemma_power_mod_square_times(10nat, e21, n, x21, 0xa212f491a9490e8120e0ce47bdfc49a53b3fd0ed3a13b2f7e89011b201e5nat, x22);
    let x23 = 0x13afa0f60b9588c04e625b6f40622dcef0553d256a78f6338cf506ab3620nat;
    let e23 = 2 * e22 + 1;
    lemma_power_mod_square_times(10nat, e22, n, x22, 0x94c5234d421243fddd1562fcdb3d4616c44476cb476237c76b8582f9c8benat, x23);
    let x24 = 0x50af5d1a1ae31bab7825ed414546ecb0c86d67870b9cb7d818255989371nat;
    let e24 = 2 * e23 + 1;
    lemma_power_mod_square_times(10nat, e23, n, x23, 0x8266711a792d3f9d65626dd49851ff2f5835d3f6c474192d60cdac95c87dnat, x24);
    let x25 = 0xf51f79911386a84f8be2648ed2f989cc8ffca6ec46a1ce1113d4699e041nat;
    let e25 = 2 * e24 + 1;
    lemma_power_mod_square_times(10nat, e24, n, x24, 0x88e847e240bef83084c3ac29ff16eec2b9e0f745fcff2e16969600f754bnat, x25);
    let x26 = 0xa05926600391b4e94afe54dbc4018aa79e088b9e36f29393de5db991729nat;
    let e26 = 2 * e25;
    lemma_power_mod_square(10nat, e25, n, x25, 0x7e5c1c0010a99a8635b969468ed6edf50c99b8679c1c82ddadf5b8a6c88nat, x26);
    let x27 = 0xa9ba410a838e362d06dcff3ee7d55d8f5d925b571baad3b1678778bb4e8nat;
    let e27 = 2 * e26;
    lemma_power_mod_square(10nat, e26, n, x26, 0x361255d2086d74adb6827cd46e2dd9276f73a79cf7789a94eb38b144eabnat, x27);
    let x28 = 0x157a03606e993a0f354e1bea64bcdf5e4586e4c66a8cc2ae79e247a33b41nat;
    let e28 = 2 * e27 + 1;
    lemma_power_mod_square_times(10nat, e27, n, x27, 0x25dd2ab25891e4fdf248db0c398ae1c99729dba36525f470488de676bd8dnat, x28);
    let x29 = 0x17f71a1c0b6658e84ad7fc720aa6d0ddc83ba9806df1eff057a363d90447nat;
    let e29 = 2 * e28 + 1;
    lemma_power_mod_square_times(10nat, e28, n, x28, 0x9b3347e0511426e5cb718b44ab502a4a06bd479b83dec1f5a92b856f8ad9nat, x29);
    let x30 = 0x9becf17a72b5c7ddd2e4ec8a7b6083e34c4417b8f95a99a9fa11bd262b0nat;
    let e30 = 2 * e29;
    lemma_power_mod_square(10nat, e29, n, x29, 0x1353421e993308f011d4398a60959b4bac0767cf470854d72b826d043b33nat, x30);
    let x31 = 0x1cfada7f76746779c1b885620496babb32201b7369460df2d7a38dfe20danat;
    let e31 = 2 * e30;
    lemma_power_mod_square(10nat, e30, n, x30, 0x33214650ffd766e299c793584204783ad731b60d3594fa0cd2935aeaf92nat, x31);
    let x32 = 0x192f9504fd903f122989b50eb08c93fdf7da3eab3a1ff121044010c1868bnat;
    let e32 = 2 * e31 + 1;
    lemma_power_mod_square_times(10nat, e31, n, x31, 0x11a96ae6a71944bd1a24a89a96c76fe7e7148bd5faf08fa88b67fb8d09707nat, x32);
}

proof fn lemma_power_205115282021455665897114700593932402728804164701536103180137503955397371_over_7723_part_6()
    requires
        power_mod(10nat, 0x1f862c8b3693227bab24550e681c85acbf407f1fc4088a799nat, 0x1db8260e5e3b460a46a0088fccf6a3a5936d75d89a776d4c0da4f338aafbnat) == 0x192f9504fd903f122989b50eb08c93fdf7da3eab3a1ff121044010c1868bnat,
    ensures
        power_mod(10nat, 0xfc316459b49913dd5922a87340e42d65fa03f8fe204453cc9bf55deenat, 0x1db8260e5e3b460a46a0088fccf6a3a5936d75d89a776d4c0da4f338aafbnat) == 0x11eb04d510d371aab32fe4a6ac6542185712560f3b9115da5bcc72301155nat,
{
    let n = 0x1db8260e5e3b460a46a0088fccf6a3a5936d75d89a776d4c0da4f338aafbnat;
    let e0 = 0x1f862c8b3693227bab24550e681c85acbf407f1fc4088a799nat;
    let x0 = 0x192f9504fd903f122989b50eb08c93fdf7da3eab3a1ff121044010c1868bnat;
    let x1 = 0x1b342de3683704b94ddc9ac4947e3859c9bfacee3ce68682f268fc50333bnat;
    let e1 = 2 * e0;
    lemma_power_mod_square(10nat, e0, n, x0, 0x15580d2612a8087772d937c5b5c8df7e0a63c049f811207a99a3cd16805anat, x1);
    let x2 = 0x193a3839f79109e703af1dc56420ce612cfb42db8034b3500fc1e36e91c8nat;
    let e2 = 2 * e1;
    lemma_power_mod_square(10nat, e1, n, x1, 0x18e6b77c9ee9768a30f7313b9dc018751169ae9fff273f66707e0b4d60a3nat, x2);
    let x3 = 0x12130e2f2fa507eaf8167b3b205e7785a1586d6c246706071a3ceef83860nat;
    let e3 = 2 * e2 + 1;
    lemma_power_mod_square_times(10nat, e2, n, x2, 0xd624f599fd5dddc584ff64d4cbdc10c39f24f6d60259e96050385496ec60nat, x3);
    let x4 = 0xda13d20910c27ebd02a0b4122297700a8db6d689f63d6f74f8d77b864d0nat;
    let e4 = 2 * e3 + 1;
    lemma_power_mod_square_times(10nat, e3, n, x3, 0x6dec68c9d2f0029b913e4f2323eaa1d03e4055de6f663182a89b45eea290nat, x4);
    let x5 = 0x32d0e6bc5d0a6a22784e01a3ee86be9d5942bbe5289076a2abede78531cnat;
    let e5 = 2 * e4;
    lemma_power_mod_square(10nat, e4, n, x4, 0x6403add32c7c48f464a0b87370056f0df4d62a7ff12b770e45842b9dc6cnat, x5);
    let x6 = 0x103ab8dbe7e456a858dd997edb156073a1c47bdbc4adb32d2b82b1cdaf1bnat;
    let e6 = 2 * e5 + 1;
    lemma_power_mod_square_times(10nat, e5, n, x5, 0x364e28d27ef663ac09008da1a10d32fa27e96f2745d42f4338949b7f77fnat, x6);
    let x7 = 0x18f57f178785102da4fae5446a1878700a445e2492c8343f0631fe018463nat;
    let e7 = 2 * e6 + 1;
    lemma_power_mod_square_times(10nat, e6, n, x6, 0x58a0752130fd94bc8d7af39e972f96d93ac5f441950f5970a0321de92895nat, x7);
    let x8 = 0x1583afcea70c14305a4fd51414e3df0adda7cdcc12294e9f0aa01b91413cnat;
    let e8 = 2 * e7 + 1;
    lemma_power_mod_square_times(10nat, e7, n, x7, 0xd19c7224d662c531e6a1c16ae3713ce808d2302d37b2318167136968767anat, x8);
    let x9 = 0xa041234430626b74845dc04483205fedbabd0d60cbc611dc2fbdfb3c604nat;
    let e9 = 2 * e8 + 1;
    lemma_power_mod_square_times(10nat, e8, n, x8, 0x9bbf371d161015601ac61625ffe98715bbf97ea1f584782141fa0b336114nat, x9);
    let x10 = 0x161e8d8630f55aca0340d53d1b5a2b9ef19f93703f4f77171d4c52cc3c72nat;
    let e10 = 2 * e9 + 1;
    lemma_power_mod_square_times(10nat, e9, n, x9, 0x21c15748bcf28c77be9f5738d2962440f7eed887fda9b0d9110b98b5152anat, x10);
    let x11 = 0x470e357da930a817ba3ffd349b4dcb8d3359b3b999bc96bb3ba5bf64254nat;
    let e11 = 2 * e10 + 1;
    lemma_power_mod_square_times(10nat, e10, n, x10, 0xa4a0f338eb15bfcc14c403ab1da9b1682cfd8834f73e648f76a438374bbcnat, x11);
    let x12 = 0x1c7a92d244827c9ed5b742118dba805b4d8fca0fe34907d1790ef1addfe7nat;
    let e12 = 2 * e11;
    lemma_power_mod_square(10nat, e11, n, x11, 0xa9e2b2e40c21df0ddef5cca2399b9b1f8b7f3765c13764433c3c8622abnat, x12);
    let x13 = 0x133596c0ac47f7d29882c614707b4b03366bfe8f5d233e9671afb3743c09nat;
    let e13 = 2 * e12 + 1;
    lemma_power_mod_square_times(10nat, e12, n, x12, 0x110e68b57d53bce8435e62019d2d898b4ea4f7e4884a3a82adf4fc6d53753nat, x13);
    let x14 = 0x7736f58b5c7527ded79d02965d719a55d3a4d1326526de16121e08ee6dbnat;
    let e14 = 2 * e13;
    lemma_power_mod_square(10nat, e13, n, x13, 0xc6a860d51bc47c81249d785fcf103acd67c9236420f7f4e9298704b1a82nat, x14);
    let x15 = 0x1d4a7298df579b6aadd19a50d49f941599a2d4bce52efd8f5dd8dbaf6622nat;
    let e15 = 2 * e14 + 1;
    lemma_power_mod_square_times(10nat, e14, n, x14, 0x12ae1ec053fe30147f35a49c2fc5e88220ca21f3fb04f72830f959505a88nat, x15);
    let x16 = 0xbec76ad6c5f67715b835d67558e335ba05fd1c44a4d6cf82ce50932aaf5nat;
    let e16 = 2 * e15;
    lemma_power_mod_square(10nat, e15, n, x15, 0x1cde541200ab4e160d615a928843a5831008bb94e81ae01c4bd08094cf7dnat, x16);
    let x17 = 0x12c33908da8fc9506320988083fe71db1a8a2229a12fe6e787fbfb8c0b4dnat;
    let e17 = 2 * e16 + 1;
    lemma_power_mod_square_times(10nat, e16, n, x16, 0x2fd6c83c278eec9084328cf037f07a3db2e19ef6f816d60617c4a4c8a4b7nat, x17);
    let x18 = 0xee33aab3e5244f0170da9c7b9899691b03edf3a426b856352cc413a8a4nat;
    let e18 = 2 * e17;
    lemma_power_mod_square(10nat, e17, n, x17, 0xbd8665f7ad2c540bd9fd70f0acd1f17b9d496b6446c3e59b0b03d108e7fnat, x18);
    let x19 = 0x2b082e95e4fbb4342b17b3657b9e205aeb4c2d932668fb9715ceed3cf8dnat;
    let e19 = 2 * e18 + 1;
    lemma_power_mod_square_times(10nat, e18, n, x18, 0x4a93fcc623a08845f4a0db54e966603c42d71069160db9ec8f47d9e4c9nat, x19);
    let x20 = 0x95b116f0c2771b4d5ad8b5fdcfb5f1397109ce6c35243536f640338dcd2nat;
    let e20 = 2 * e19 + 1;
    lemma_power_mod_square_times(10nat, e19, n, x19, 0x26f1445e3a128f41d9e6a61732e5a1140705bcc29b9ac34f6ad0baf2cd8nat, x20);
    let x21 = 0x111a0a5380850053d05c2b1bc5b8f3b6f9cc5e10f19bdf6054340b60950enat;
    let e21 = 2 * e20 + 1;
    lemma_power_mod_square_times(10nat, e20, n, x20, 0x1d73bf197358c23e02e590e969075a526575dfb5538cb425a8de2a20bdaenat, x21);
    let x22 = 0x1666e4563a3805cb2ba0d8ced0f6ddc3e95c9e9f7f9f84be2e47318b603fnat;
    let e22 = 2 * e21;
    lemma_power_mod_square(10nat, e21, n, x21, 0x9d74dc063234e390feda3f6ba6cf2e91ca6b5d941f0b19f5e189f382e7fnat, x22);
    let x23 = 0x44bccf75040bd97602fb7b2b7de2b6bfff9c5aac13a543b5ce19c38fa07nat;
    let e23 = 2 * e22 + 1;
    lemma_power_mod_square_times(10nat, e22, n, x22, 0xa8dca1b2ee39c02d6604b6402c930be722a0d71d4eed00058fb5379f0399nat, x23);
    let x24 = 0x1867168d30989b5d4e2c9cb097b83814bd10a8100b3fa72cd4aafdba388fnat;
    let e24 = 2 * e23 + 1;
    lemma_power_mod_square_times(10nat, e23, n, x23, 0x635d2dabdb78f72c3817f862be09d3c4afe3c764d294489d14ceddfb521nat, x24);
    let x25 = 0x6420a63121a0d2d08383fb575aee221c0df0eba5c6231eec8f971e42a0cnat;
    let e25 = 2 * e24 + 1;
    lemma_power_mod_square_times(10nat, e24, n, x24, 0xc85f256177b0ca1fad9e1cd2b3413ac4547fab4099cc2707a5c88f9401danat, x25);
    let x26 = 0x4f6efa4f4f919c89298abd8c43ab6875769016bd25b2ced69c448fe0e6cnat;
    let e26 = 2 * e25 + 1;
    lemma_power_mod_square_times(10nat, e25, n, x25, 0xd2d66c80a46d2af617d74734e5acda0ea517e01d67f376685b8d2269f5cnat, x26);
    let x27 = 0x14734ebd8ff4a7e164ffcbb30fa6d54336171e25d401d962782bc9478fb8nat;
    let e27 = 2 * e26;
    lemma_power_mod_square(10nat, e26, n, x26, 0xd44f1c0a9caaa46ba2d31eb740a46859a6dc161797615cd55c0dad6208nat, x27);
    let x28 = 0x8fb10eb27f242074b66250a5825215c681abfa9253a09182243d62ab696nat;
    let e28 = 2 * e27 + 1;
    lemma_power_mod_square_times(10nat, e27, n, x27, 0x8cb91e41be428796081d34065095214685107eea577c98417d075502179enat, x28);
    let x29 = 0xc9e21ee10412a80608b5d7c2c8fe85e425ec6a87f794d6aa2e6812913a2nat;
    let e29 = 2 * e28 + 1;
    lemma_power_mod_square_times(10nat, e28, n, x28, 0x1b236d05a1251d16e3a78ecf16332145a26b73da88bc760f65b1bf4a7ef2nat, x29);
    let x30 = 0x38c8f3608722e3a3977ef8f20b0dc7a4c4284c546c8aa453327824bac52nat;
    let e30 = 2 * e29 + 1;
    lemma_power_mod_square_times(10nat, e29, n, x29, 0x3591ec32be7139bd1515031f79071fcdb295ce5c5e1b8194655e4948aea2nat, x30);
    let x31 = 0x11eb04d510d371aab32fe4a6ac6542185712560f3b9115da5bcc72301155nat;
    let e31 = 2 * e30;
    lemma_power_mod_square(10nat, e30, n, x30, 0x6c7fde4b9f4588fa00ebe4f34325792a6fd69ec7a79be1c31dee9d879dnat, x31);
}

proof fn lemma_power_205115282021455665897114700593932402728804164701536103180137503955397371_over_7723()
    ensures
        power_mod(10nat, 0xfc316459b49913dd5922a87340e42d65fa03f8fe204453cc9bf55deenat, 0x1db8260e5e3b460a46a0088fccf6a3a5936d75d89a776d4c0da4f338aafbnat) == 0x11eb04d510d371aab32fe4a6ac6542185712560f3b9115da5bcc72301155nat,
{
    lemma_power_mod_first(10nat, 0x1db8260e5e3b460a46a0088fccf6a3a5936d75d89a776d4c0da4f338aafbnat);
    lemma_power_205115282021455665897114700593932402728804164701536103180137503955397371_over_7723_part_0();
    lemma_power_205115282021455665897114700593932402728804164701536103180137503955397371_over_7723_part_1();
    lemma_power_205115282021455665897114700593932402728804164701536103180137503955397371_over_7723_part_2();
    lemma_power_205115282021455665897114700593932402728804164701536103180137503955397371_over_7723_part_3();
    lemma_power_205115282021455665897114700593932402728804164701536103180137503955397371_over_7723_part_4();
    lemma_power_205115282021455665897114700593932402728804164701536103180137503955397371_over_7723_part_5();
    lemma_power_205115282021455665897114700593932402728804164701536103180137503955397371_over_7723_part_6();
}

proof fn lemma_power_205115282021455665897114700593932402728804164701536103180137503955397371_over_132896956044521568488119_part_0()
    requires
        power_mod(10nat, 1nat, 0x1db8260e5e3b460a46a0088fccf6a3a5936d75d89a776d4c0da4f338aafbnat) == 10nat,
    ensures
        power_mod(10nat, 0x10e592a39nat, 0x1db8260e5e3b460a46a0088fccf6a3a5936d75d89a776d4c0da4f338aafbnat) == 0x15e21ecc610c981f70db56826bc4d41f867395a71e5d08be418972df8bc4nat,
{
    let n = 0x1db8260e5e3b460a46a0088fccf6a3a5936d75d89a776d4c0da4f338aafbnat;
    let e0 = 1nat;
    let x0 = 10nat;
    let x1 = 100nat;
    let e1 = 2 * e0;
    lemma_power_mod_square(10nat, e0, n, x0, 0nat, x1);
    let x2 = 10000nat;
    let e2 = 2 * e1;
    lemma_power_mod_square(10nat, e1, n, x1, 0nat, x2);
    let x3 = 0x5f5e100nat;
    let e3 = 2 * e2;
    lemma_power_mod_square(10nat, e2, n, x2, 0nat, x3);
    let x4 = 0x2386f26fc10000nat;
    let e4 = 2 * e3;
    lemma_power_mod_square(10nat, e3, n, x3, 0nat, x4);
    let x5 = 0x314dc6448d9338c15b0a00000000nat;
    let e5 = 2 * e4 + 1;
    lemma_power_mod_square_times(10nat, e4, n, x4, 0nat, x5);
    let x6 = 0x5ef4a74721e864761ea977768e5f518bb6891be80000000000000000nat;
    let e6 = 2 * e5 + 1;
    lemma_power_mod_square_times(10nat, e5, n, x5, 0nat, x6);
    let x7 = 0xb7e07b6ba3fe3e01c633caeac0843fa720d827d03703fbe89fd918b9102nat;
    let e7 = 2 * e6 + 1;
    lemma_power_mod_square_times(10nat, e6, n, x6, 0xbd9e93cda6e190bc8c72ce72f50541cb431d086ba16d3ece47c9anat, x7);
    let x8 = 0x5552d0eb8dc5435fb01c43646ec09c178f6c06b464df596aac3263b6d24nat;
    let e8 = 2 * e7;
    lemma_power_mod_square(10nat, e7, n, x7, 0x471aacea24e858814b0873ba346ce0c02b6631a237fbba7b71c64c9cea0nat, x8);
    let x9 = 0xa2f7aff4cd023fe0668a30304363d48adadd737e07781cc8be9bb952e37nat;
    let e9 = 2 * e8;
    lemma_power_mod_square(10nat, e8, n, x8, 0xf4f636435c2cfe8b439c6c511e1a9bd7b3d1084ea4d14f52436635953bnat, x9);
    let x10 = 0x1535f560d716b469e8fccd1b916b4d40b774ff5ab2d30e4649926903d792nat;
    let e10 = 2 * e9 + 1;
    lemma_power_mod_square_times(10nat, e9, n, x9, 0x22e86937b22735eb3cbb933472e403552f0599459ec970bd13a2654b9048nat, x10);
    let x11 = 0xd600d6a70688aad988e3936993cc964d54fcc9f6fb78d3cad2796d21ec0nat;
    let e11 = 2 * e10;
    lemma_power_mod_square(10nat, e10, n, x10, 0xf2360aeee490112bfa83610ae03e952ea61855a10ddc72eed3891d9aa4cnat, x11);
    let x12 = 0x4988b487675ac35ed9dd5c611f2feadcd81ecab248cf2dc7f80ed61466enat;
    let e12 = 2 * e11 + 1;
    lemma_power_mod_square_times(10nat, e11, n, x11, 0x3c31f887421fab4eab3bddf678559a03ab7f38953854b6612f06957e7816nat, x12);
    let x13 = 0xed82e6244dddee47a3ab53feb18ed8ec7da2fb9a3d7b7f918207be3c619nat;
    let e13 = 2 * e12 + 1;
    lemma_power_mod_square_times(10nat, e12, n, x12, 0x71b704a3f4512752c1f4de3eaee951c123eff654171d6b1ce6ad78b927dnat, x13);
    let x14 = 0x1c63d9f449f5200de84038fe72a9a913867fcdca6cc30808a4275a10a1b4nat;
    let e14 = 2 * e13;
    lemma_power_mod_square(10nat, e13, n, x13, 0x76a25613bfcf72813d3416d924a67b118052580ab65c18748c893d219a7nat, x14);
    let x15 = 0x2db1ac830c2640cb46ddebe57ee111860242d8c2c556591df92dae18b86nat;
    let e15 = 2 * e14;
    lemma_power_mod_square(10nat, e14, n, x14, 0x1b1ec661a2633d80a306bb9740f9a81ed4d2daa0e72c9ce6cea4101c42fenat, x15);
    let x16 = 0xba2c323c8092829dbd2e2f941baf337c90e3400ab1dc0a26b0ff619cd47nat;
    let e16 = 2 * e15 + 1;
    lemma_power_mod_square_times(10nat, e15, n, x15, 0x2be8df85647b38762e17b9414cc7199adff2882f45958b6a5676edb9e93nat, x16);
    let x17 = 0x72598ee6a6dba7a1c9a619c25a76ade905c24640f2b54c4ce8730682727nat;
    let e17 = 2 * e16;
    lemma_power_mod_square(10nat, e16, n, x16, 0x48e40b71f469b3b0bb2d05fd7bcea181efee43d0b0edeca210bb4cc817enat, x17);
    let x18 = 0xe21e72133bf62fef1940259b3e45e74fc836bd5bc3b4c31659b0a7d6b3bnat;
    let e18 = 2 * e17;
    lemma_power_mod_square(10nat, e17, n, x17, 0x1b7faa80c7478bc75a4457df0789215eb008febfe70efb4523953ddb842nat, x18);
    let x19 = 0xc807e26cc3d8aa4fef9928d6584ec3936fd2bd467d6fa41380ce5fb015fnat;
    let e19 = 2 * e18 + 1;
    lemma_power_mod_square_times(10nat, e18, n, x18, 0x43343689ef7121816770a796703596652efecb4fdc2b903344dc9fd51ce1nat, x19);
    let x20 = 0x1a02eef4beaa31067b4e8463dd142f7a6a3f0bd1e7c129f9e575c07f65c1nat;
    let e20 = 2 * e19;
    lemma_power_mod_square(10nat, e19, n, x19, 0x542570315506f9fb4aa7371e10987098ce496b7ddecc6f71518d5149a80nat, x20);
    let x21 = 0x2fdfefdb043f77514f1966e11782def46702b2717b43aaa72f393242d37nat;
    let e21 = 2 * e20 + 1;
    lemma_power_mod_square_times(10nat, e20, n, x20, 0xe3a973752878545d9fd77fb4eba139cf970eb3e28852dd4ea42b4777b909nat, x21);
    let x22 = 0x1abfe7f53c3c8d0e1ede2b6596ebc8726387f4501c9789ae7d26d83016a8nat;
    let e22 = 2 * e21;
    lemma_power_mod_square(10nat, e21, n, x21, 0x4d1f0a790223ca6b46b4efc4565557e35003465f7e007e910c299a492bnat, x22);
    let x23 = 0x1221bb203ad9bf7d5818cf52bab7d72d962c3be28253c75255a25ff157e7nat;
    let e23 = 2 * e22 + 1;
    lemma_power_mod_square_times(10nat, e22, n, x22, 0xf0c44e4c775c9f28da43c3e5071900ff37e70498a80ff73d6bdd28efb07bnat, x23);
    let x24 = 0xa4c1a36d720f4f4c87f96d4280605f9f69977ed999859a259079d4a2d8anat;
    let e24 = 2 * e23;
    lemma_power_mod_square(10nat, e23, n, x23, 0xb0feb73997cc3b77846161e0cca2b6659e7060f4485396c0aeaa0e48a05nat, x24);
    let x25 = 0x1449b75556c7a35c3369a24c4975bbc5b179ada586ff5856ac393b9012f9nat;
    let e25 = 2 * e24;
    lemma_power_mod_square(10nat, e24, n, x24, 0x3915e15b29251ca3da9374100362d69e9fceba4eedea90602c960794651nat, x25);
    let x26 = 0xa69b94f98ae1a799febec7242ffd07c004aa62910d8a8d61fdbc0668948nat;
    let e26 = 2 * e25;
    lemma_power_mod_square(10nat, e25, n, x25, 0xdd97fe07d527a678d5cdcef33ed7e582dee978945094f86ba628494026bnat, x26);
    let x27 = 0x1ae88a83513de77f5d7d58c31adf4da780c34ba7ea5485099a50d1f977ccnat;
    let e27 = 2 * e26 + 1;
    lemma_power_mod_square_times(10nat, e26, n, x26, 0x247c18886794586a5562e6c03865cab1a7205b09a2f83047cef0666399dcnat, x27);
    let x28 = 0x138d05aff5b62c02d739d7d534ed4e36702be5bdf2eda3c0faca78fd27e5nat;
    let e28 = 2 * e27 + 1;
    lemma_power_mod_square_times(10nat, e27, n, x27, 0xf3a1f7898881c093944ddb78cd46e6dd09e24fdf252e575771a98f098841nat, x28);
    let x29 = 0x16deace043d9d7180ca547e056d3e7f4213565e7e8f4a729567528937961nat;
    let e29 = 2 * e28 + 1;
    lemma_power_mod_square_times(10nat, e28, n, x28, 0x809d8ca05a28b8d7305966941fd89706cdb41b2685295df5d7013aa3adfbnat, x29);
    let x30 = 0xb0c133e5daa7be26dda0794c45caf4c41fda40623527b17e453fba862fnat;
    let e30 = 2 * e29;
    lemma_power_mod_square(10nat, e29, n, x29, 0x1199548ff2a323faabb7ac432ef1ac8314e6abfdc9cc3fa8970b3d0aad16nat, x30);
    let x31 = 0x1321e847ca8f2852c86ef4b7b08774151b8a6e7030f975a7639483237b7fnat;
    let e31 = 2 * e30;
    lemma_power_mod_square(10nat, e30, n, x30, 0x41b3e1417b3eac9834a07406392722f4dbb74a66f3b7db8b36f3519c6nat, x31);
    let x32 = 0x15e21ecc610c981f70db56826bc4d41f867395a71e5d08be418972df8bc4nat;
    let e32 = 2 * e31 + 1;
    lemma_power_mod_square_times(10nat, e31, n, x31, 0x7b2b51b59ea657941a11f60a07eb430a70d8dbe6d3a3f8c02cc2b7fb77f2nat, x32);
}

proof fn lemma_power_205115282021455665897114700593932402728804164701536103180137503955397371_over_132896956044521568488119_part_1()
    requires
        power_mod(10nat, 0x10e592a39nat, 0x1db8260e5e3b460a46a0088fccf6a3a5936d75d89a776d4c0da4f338aafbnat) == 0x15e21ecc610c981f70db56826bc4d41f867395a71e5d08be418972df8bc4nat,
    ensures
        power_mod(10nat, 0x10e592a395ad6cb8fnat, 0x1db8260e5e3b460a46a0088fccf6a3a5936d75d89a776d4c0da4f338aafbnat) == 0x1727e24023ecc552997d7a576661e49b39b7c980364a0df374e263b709ddnat,
{
    let n = 0x1db8260e5e3b460a46a0088fccf6a3a5936d75d89a776d4c0da4f338aafbnat;
    let e0 = 0x10e592a39nat;
    let x0 = 0x15e21ecc610c981f70db56826bc4d41f867395a71e5d08be418972df8bc4nat;
    let x1 = 0xa61254b7329e3900c232738987dfe3905936f29ba64dcc14594731d38danat;
    let e1 = 2 * e0;
    lemma_power_mod_square(10nat, e0, n, x0, 0x101d04aae0b47a843b2a3ce60f26240ba13da13fca7985a1b03ae80579c2nat, x1);
    let x2 = 0xc9085b48375822074bfefc4b4787b14fbeeb9972bf274684add293db273nat;
    let e2 = 2 * e1 + 1;
    lemma_power_mod_square_times(10nat, e1, n, x1, 0x24401499d90d723b89f351edf7a424194a1627a9ff6cf8cd229cb58d97cfnat, x2);
    let x3 = 0xb3a021ef5be92105b52a6118a40ec127c340d224d542d13803829a4a84fnat;
    let e3 = 2 * e2;
    lemma_power_mod_square(10nat, e2, n, x2, 0x54fdc1cbe7d554f5cdaf0e61ac83215f36100da840ba20a10056df3e6eenat, x3);
    let x4 = 0x187ce3d25e836474f140112254802af893eb4ffa7c24563d3d194b8f0776nat;
    let e4 = 2 * e3 + 1;
    lemma_power_mod_square_times(10nat, e3, n, x3, 0x2a68ae1be0846311ff52e4e7c3aea3d2814b95405558bbe0f1e410aef4bcnat, x4);
    let x5 = 0xc71a31b223072638d2264ab1cf870604ee247525648d5a2047da22b401dnat;
    let e5 = 2 * e4 + 1;
    lemma_power_mod_square_times(10nat, e4, n, x4, 0xc9c5cd7ba900924806414c42042abd388f9390d0a81fddcecdb5341e9d71nat, x5);
    let x6 = 0xe9d6616e981899bad5837a5d174e4d5168e59ba8d002c515096e183734bnat;
    let e6 = 2 * e5;
    lemma_power_mod_square(10nat, e5, n, x5, 0x535decf84514de97a6969b0b3b9f1c977c9d260346260bb831b3f108f9anat, x6);
    let x7 = 0x112412e8a10450b787d24246821ddb244835d35a7e5342fe59997abe54dfnat;
    let e7 = 2 * e6 + 1;
    lemma_power_mod_square_times(10nat, e6, n, x6, 0x47dec7874fc8031ce09586a737c04862cec73db4fcc1fd6cc6d7da8409a1nat, x7);
    let x8 = 0x1ccd682ebceb434f5c1674c34943709b1581486efbb1b90388cb5b3dc71dnat;
    let e8 = 2 * e7;
    lemma_power_mod_square(10nat, e7, n, x7, 0x9e2dd462b1d280b274e607b69788c661dee872f73ac6c69d5bd29c0d02cnat, x8);
    let x9 = 0x13bc987b4fe09c347a61f013982da45d41ba8aee98eb27cda9096bb766a0nat;
    let e9 = 2 * e8 + 1;
    lemma_power_mod_square_times(10nat, e8, n, x8, 0x117231471ab1988c08c343e8a422604f4c4ef98fc475f3fce78802d640d8enat, x9);
    let x10 = 0x101249681c2abd133106161025fd38900f5bf489c2fb15f24bb39cb16b52nat;
    let e10 = 2 * e9 + 1;
    lemma_power_mod_square_times(10nat, e9, n, x9, 0x8312729c2fcde1787a7bb7bcfd69cead5d44cb9de74e5f6fd737e41936aanat, x10);
    let x11 = 0x8c5a4fb6649d041496b1d6d78b6a3d603bde802c5ddb5c6f8e65745d9e6nat;
    let e11 = 2 * e10;
    lemma_power_mod_square(10nat, e10, n, x10, 0x8b0e5e942ae5cb70aa582cda51c85d1ec86ee8a767a9bb3d5a9815a16banat, x11);
    let x12 = 0x18670e3835001ab45c8ed8a0661ac24d7ebfcb866cb789fcb52ba3403e49nat;
    let e12 = 2 * e11 + 1;
    lemma_power_mod_square_times(10nat, e11, n, x11, 0x19e4501f1b665968475b893adedf51caa597a17ae841155264e39c1c9a2dnat, x12);
    let x13 = 0x6982cccafd5337cfc60eb721f42ca387d649d3f79a1621ae3ae2112a47nat;
    let e13 = 2 * e12;
    lemma_power_mod_square(10nat, e12, n, x12, 0x1409760e26916bad972810db48247b97be2402ed653a4b2aab8a41ac2d7enat, x13);
    let x14 = 0x15c565073fdf0ffb0afa3ee8af5d94fd7808752fb7163a77c18e588ec3a8nat;
    let e14 = 2 * e13 + 1;
    lemma_power_mod_square_times(10nat, e13, n, x13, 0xea1e5de410fdc8530012fdf78c0f0c662fc9b99fc0881e9c545fd4826nat, x14);
    let x15 = 0xc6244cde473f5dadca769781b503dbaef18c564a16f4327298b5a651cdnat;
    let e15 = 2 * e14 + 1;
    lemma_power_mod_square_times(10nat, e14, n, x14, 0x9f7c3c0fb3c0c1841244af8e36da0f1fdba7e60f297269e77a56a172e7a9nat, x15);
    let x16 = 0x978c975bfe2e1121ee7605947489c53d673b8678d80b3d623e12f446761nat;
    let e16 = 2 * e15;
    lemma_power_mod_square(10nat, e15, n, x15, 0x52908108fe76d1217ef7d3278ad08cd7ae74e2f2e57437d111831a9d8nat, x16);
    let x17 = 0x17a1bb70350a40cd0a9b5bb526321791949f36bb354bd8c350688962859cnat;
    let e17 = 2 * e16 + 1;
    lemma_power_mod_square_times(10nat, e16, n, x16, 0x1e3004dfc1993c4d68d55b8f09793a615ac4176a16cdcebba3fcb8abde6anat, x17);
    let x18 = 0x44a98d646e987cb751d63f4b1f78488af7dcb09dafb1c24ef7e63e98ae1nat;
    let e18 = 2 * e17 + 1;
    lemma_power_mod_square_times(10nat, e17, n, x17, 0xbbe9579a1d8a652aa6bd022ef71da250932901eb77ac3916971ab3ddb70dnat, x18);
    let x19 = 0xcdf342e3080ed8efb8577dd59a32ab77542cbf4ada9d357edea6d83b3b4nat;
    let e19 = 2 * e18;
    lemma_power_mod_square(10nat, e18, n, x18, 0x9ea2735be580496b2176bd6132652d2dec0c1240206e3bfa714d50a497nat, x19);
    let x20 = 0xe7c0ed892625b92952ad10c5689ee8903c552f9273118c8899c9a337f97nat;
    let e20 = 2 * e19;
    lemma_power_mod_square(10nat, e19, n, x19, 0x59333d2b438808a9c734bc54fe24018f455e09a87e6e30bfdef2747c39bnat, x20);
    let x21 = 0xf9c4754b427f45be2c905d62fcb3c528b38e2cf4513ba5964fb3fcb2013nat;
    let e21 = 2 * e20 + 1;
    lemma_power_mod_square_times(10nat, e20, n, x20, 0x46985363106d1a16e391b3bb98a2c4fa76e550383208302a4db73dc91815nat, x21);
    let x22 = 0x1a997164191b78af7d216737ec415b7ca17b60bd474f449c5d900dc091c7nat;
    let e22 = 2 * e21;
    lemma_power_mod_square(10nat, e21, n, x21, 0x83318dce510b11218f553b144352dbf7d358e6f9848b96dfc475e4b1d46nat, x22);
    let x23 = 0x979b622d8059857c2ee0fe8362b7cf54e8ed40709658baf87eb80f95593nat;
    let e23 = 2 * e22 + 1;
    lemma_power_mod_square_times(10nat, e22, n, x22, 0xee11db1355b08ede5d868a8d726d290eb3fda42d2dd949c7d6c24987f455nat, x23);
    let x24 = 0x379909d948d96d47f7d3e9e3c307a229eea75d2f71e1cecf546e7639546nat;
    let e24 = 2 * e23 + 1;
    lemma_power_mod_square_times(10nat, e23, n, x23, 0x1e35e9c76a1393c5282b1e9b09bd5c17ff96502715f1656b51cb3790703cnat, x24);
    let x25 = 0x1adbfd848f9759c6b4e5583df95549665c2319a51eadd3a6bed2b981ace1nat;
    let e25 = 2 * e24 + 1;
    lemma_power_mod_square_times(10nat, e24, n, x24, 0x4101a552b1b92f6ee3e9373ec40aea7da49bd2d03519d997dbe5d2b68e5nat, x25);
    let x26 = 0x629b4401627ae66bfc6dd875051d1cceecb6d6b26c2ad861622455db728nat;
    let e26 = 2 * e25;
    lemma_power_mod_square(10nat, e25, n, x25, 0x18464a4220a7119c10ac25e6635e125783ede596635ef77401e83f77c07bnat, x26);
    let x27 = 0x19c639b6dcae0651c93de87e6942f2d72458d74162b7f543861a78d4f76nat;
    let e27 = 2 * e26;
    lemma_power_mod_square(10nat, e26, n, x26, 0x1472b4247269201acb3225e4024a87307395de3d9bf3f2f524166821a3enat, x27);
    let x28 = 0xc4be2f3441611393c876cf33f2eff2192ce09528f24a73b7f597c2299d4nat;
    let e28 = 2 * e27;
    lemma_power_mod_square(10nat, e27, n, x27, 0x165a5c9d358da7cfa341255641438a4bf0839c396bc244d94270846cb0nat, x28);
    let x29 = 0x19de0bf9b56b8b67f72991b69a239a117869fccf1f4c07ebb5321642e78bnat;
    let e29 = 2 * e28 + 1;
    lemma_power_mod_square_times(10nat, e28, n, x28, 0x32e0715043c0a862797f66c4af3b312e418bd36e85a8fef0e80d85c3e02fnat, x29);
    let x30 = 0x1ad3e619923216240e24a297d90ec13aa3f4d846a76b7f209582e17eb5d5nat;
    let e30 = 2 * e29 + 1;
    lemma_power_mod_square_times(10nat, e29, n, x29, 0xe1258c5b4a8ca95568a9805ff6739cdd9e31020589813c3a86e9ee0c7d9fnat, x30);
    let x31 = 0x4d81f1fce488a3cadd58b8d8055a9c8fefc614e10a55d4603a6483f28e4nat;
    let e31 = 2 * e30 + 1;
    lemma_power_mod_square_times(10nat, e30, n, x30, 0xf22cbb0c5c38a5d1d9d59f84ee5115a99df3482751678cfecd752b556622nat, x31);
    let x32 = 0x1727e24023ecc552997d7a576661e49b39b7c980364a0df374e263b709ddnat;
    let e32 = 2 * e31 + 1;
    lemma_power_mod_square_times(10nat, e31, n, x31, 0x7e5632823614358e7df067de312de67c43fa6f8f3bdc966bcf3363782d9nat, x32);
}

proof fn lemma_power_205115282021455665897114700593932402728804164701536103180137503955397371_over_132896956044521568488119_part_2()
    requires
        power_mod(10nat, 0x10e592a395ad6cb8fnat, 0x1db8260e5e3b460a46a0088fccf6a3a5936d75d89a776d4c0da4f338aafbnat) == 0x1727e24023ecc552997d7a576661e49b39b7c980364a0df374e263b709ddnat,
    ensures
        power_mod(10nat, 0x10e592a395ad6cb8ff48d3cfcnat, 0x1db8260e5e3b460a46a0088fccf6a3a5936d75d89a776d4c0da4f338aafbnat) == 0x7bcc02b6d534bc309018832673b8983b5cae03eab8a2aa5dc20b6e39aaanat,
{
    let n = 0x1db8260e5e3b460a46a0088fccf6a3a5936d75d89a776d4c0da4f338aafbnat;
    let e0 = 0x10e592a395ad6cb8fnat;
    let x0 = 0x1727e24023ecc552997d7a576661e49b39b7c980364a0df374e263b709ddnat;
    let x1 = 0xa5c5596fb5c25321fa181632ed1c30f69597c897e82c671055d71416062nat;
    let e1 = 2 * e0 + 1;
    lemma_power_mod_square_times(10nat, e0, n, x0, 0xb46b10d681150f43540087f19e6fd3f4f0ef3d0df38f2700166fcdfe4ce8nat, x1);
    let x2 = 0x1ba005056feef7f1b23dfea9572b995270dd49aff00911f7a4005fbe16b0nat;
    let e2 = 2 * e1 + 1;
    lemma_power_mod_square_times(10nat, e1, n, x1, 0x241e80ee8e8f5c959ec5b6825ccd9b1340dbb2df370e6d29642d5fc2b7e8nat, x2);
    let x3 = 0x1bafec35a1577b16ba05a07e7e3ccf46ffdf442ebad878eaa5edbd35969nat;
    let e3 = 2 * e2 + 1;
    lemma_power_mod_square_times(10nat, e2, n, x2, 0x100c8b428231369b853c327740e497457b1838af07fa5b58b6298dede6e15nat, x3);
    let x4 = 0x16fbdf9e1cf10107093c36279556301619759acdd8677da30528713d0a35nat;
    let e4 = 2 * e3 + 1;
    lemma_power_mod_square_times(10nat, e3, n, x3, 0x101f0af459ddde252db48dc632b958503a6b033a47ba700b56faac5cf4fnat, x4);
    let x5 = 0x295bf9b77c9198b3c7a80c84ec31e882f96e1868bcff55f099ad48f2e49nat;
    let e5 = 2 * e4;
    lemma_power_mod_square(10nat, e4, n, x4, 0x11c66147492867ae7643c3318aec351d19dc23fb55e622f068c2a9902310nat, x5);
    let x6 = 0x601a25581def1485f98e83531a338cc7df6cd4e260df0ca5f6f60e3adc3nat;
    let e6 = 2 * e5 + 1;
    lemma_power_mod_square_times(10nat, e5, n, x5, 0x23f94e34508cfdbaaa25a0192849d835c9dc66da40f8eb627476fd31285nat, x6);
    let x7 = 0x10e4a98602cc59cc6d3db667a5823a66d41f7efd24e746c6654d4618b983nat;
    let e7 = 2 * e6;
    lemma_power_mod_square(10nat, e6, n, x6, 0x136c2e8f61ce91bdf6430e5721dbc4dac037b5f23ad2a4aacaecbbbcc32nat, x7);
    let x8 = 0x9c9d22de9ece4d1892bd83d52c77c980c2abc728b2b83384f5c386ef5d2nat;
    let e8 = 2 * e7;
    lemma_power_mod_square(10nat, e7, n, x7, 0x99a3f0c61dedfc527b5ac1f5cad94200217450ba9cc8d365ff65e8c33f5nat, x8);
    let x9 = 0x76975641d724e25da4a2acd29a844f52597b539795f4e814d4b59f4a7f9nat;
    let e9 = 2 * e8 + 1;
    lemma_power_mod_square_times(10nat, e8, n, x8, 0x203d2d0adfd0bfd6470d978a63d770fac2802bfd73b7e3f8693cde8c00ddnat, x9);
    let x10 = 0x19f26ff1eeda3c2f5ded6fb4c21ebc52e8c3eb66a74cd55e914dc512ba4fnat;
    let e10 = 2 * e9;
    lemma_power_mod_square(10nat, e9, n, x9, 0x1d93905bd11cec55a9376914cd70468eb78363d09d626dde1673e2bfc06nat, x10);
    let x11 = 0xafbd53b278a4cb51168933dc62c09a2a3fea202b47a2c162f8d443e84b4nat;
    let e11 = 2 * e10;
    lemma_power_mod_square(10nat, e10, n, x10, 0x16a74e07f06121704c38582dc629582f84623c05a51fed6274465cd19f77nat, x11);
    let x12 = 0x179cf845cbe5a223b564b34ad72c012adbbedb6bca0f7a089136e927a466nat;
    let e12 = 2 * e11;
    lemma_power_mod_square(10nat, e11, n, x11, 0x40f33c0286085d7838938ad9d2ce10f0e153c6c89d9b3c177c1b95c765enat, x12);
    let x13 = 0xcd0bba3bad703525a33779d3cd35482b3e7a9cad9bd50df172a2e0c6a53nat;
    let e13 = 2 * e12 + 1;
    lemma_power_mod_square_times(10nat, e12, n, x12, 0xbb9da27afc931f0e8c595c1db60f1feba5d6fa4445a980f4c144a6d1782fnat, x13);
    let x14 = 0x572a233f7a75e277b75f672bf74639536fd27eaadff773015c8e729cfc3nat;
    let e14 = 2 * e13 + 1;
    lemma_power_mod_square_times(10nat, e13, n, x13, 0x3742f2d7a836fea71da419ee8475616651fdcf4bfb619bd22af0e0e07055nat, x14);
    let x15 = 0x183c95031ca9f1731c86b6125a420b503c55a888694ff7c161cd85d43dd3nat;
    let e15 = 2 * e14;
    lemma_power_mod_square(10nat, e14, n, x14, 0xffa5b772277e6d25b2d983bd64502ce905d088b9508f98b5c673251442nat, x15);
    let x16 = 0x111bca1f1d8af4153d068652cf796554690718913ae6e172d3dcca8ed7f0nat;
    let e16 = 2 * e15 + 1;
    lemma_power_mod_square_times(10nat, e15, n, x15, 0xc5a77b9e215ee9c6911ec7558a948638d39d8ec38925ed74adf940b4755enat, x16);
    let x17 = 0x1bbb876948e02569a464b9cdfe91f5de2f096414f21181b99a266ed0b131nat;
    let e17 = 2 * e16;
    lemma_power_mod_square(10nat, e16, n, x16, 0x9d95136cc15c7649cc1145445acf8220b45db8f497f5de2ac7f5986163dnat, x17);
    let x18 = 0x67d2b297659d250a8ef165a147de1fc8d58f00db3a41098bd163d63e7c8nat;
    let e18 = 2 * e17;
    lemma_power_mod_square(10nat, e17, n, x17, 0x19e0e956385277d204f26be271b9259474db8ab55e53acc04247e4c7a77bnat, x18);
    let x19 = 0x1bd93a5da3fbf618f25d701f2684d0ffdf8cdff12b4ce92608b6da092023nat;
    let e19 = 2 * e18 + 1;
    lemma_power_mod_square_times(10nat, e18, n, x18, 0xe2b01e2c4fff1e55f4e452a62de3c0a65b1a31adca15af6852fac239087nat, x19);
    let x20 = 0x21d6b250371130677d0badfbb20b57f6c8a9d61396b4801e615c07119c7nat;
    let e20 = 2 * e19 + 1;
    lemma_power_mod_square_times(10nat, e19, n, x19, 0x104f48bcbebe9c1bf8b2a7a51dd750c7f83bb6a853594db4fef8b2c8d55c9nat, x20);
    let x21 = 0x125b6eaf1872ce56e91464960917695087946901af7542cbd1e015f72987nat;
    let e21 = 2 * e20 + 1;
    lemma_power_mod_square_times(10nat, e20, n, x20, 0x1814a20ea574ca65de52a39ff11bf20f0cad86d08d7bd9e0ff4fd019ab9nat, x21);
    let x22 = 0xef308d2abb7b9ad96ac491fe63f467ceef6958d1034bc23708740c3cb90nat;
    let e22 = 2 * e21 + 1;
    lemma_power_mod_square_times(10nat, e21, n, x21, 0x7163a5583a561a68c8e3859398b7c9c2467639be99d4d17cf31c7220e9eenat, x22);
    let x23 = 0x16f7982b9569593ed7233e2365f46d0c3136631cf17be9bb0ca39582eacbnat;
    let e23 = 2 * e22;
    lemma_power_mod_square(10nat, e22, n, x22, 0x785110c0fc4a698bd88279e266092a9d14c6036935f8a3e69597a168c8fnat, x23);
    let x24 = 0x1d167ba1d552834514a3762ebfe9cdf454dd92f5dea035ac50fd8757bbc9nat;
    let e24 = 2 * e23;
    lemma_power_mod_square(10nat, e23, n, x23, 0x11bfc388b012fa7997bf952926956dcf2dcad472b6fbaf2c92558f5b3c90nat, x24);
    let x25 = 0xc626dc15bb8f00b382b02da2065b45118170e67ef86dc83c2ea4fa5e32dnat;
    let e25 = 2 * e24 + 1;
    lemma_power_mod_square_times(10nat, e24, n, x24, 0x11cb2864ad60857f15af6d9f5966054887f201dac79a485afd3e467746867nat, x25);
    let x26 = 0x3b539a59d1c6a9f1e6549f0458d4cfc6dc7cf60693e224f0817c94aad9dnat;
    let e26 = 2 * e25 + 1;
    lemma_power_mod_square_times(10nat, e25, n, x25, 0x339ba5efbdb76df6c696222f1488e30e0463f812af7a32ae125855d11fe7nat, x26);
    let x27 = 0x1bd92975b5326a11a3cb339cdb3bca0dd06e696c443600b45283a45a08cenat;
    let e27 = 2 * e26 + 1;
    lemma_power_mod_square_times(10nat, e26, n, x26, 0x4a04b40d6494f2b2316acb17590035fe0393360d7cfe9c6ed71ac836c64nat, x27);
    let x28 = 0x48420a2a89f0f2fc746a4241881caaf9fb59ef80cc323a50ac0c15ba062nat;
    let e28 = 2 * e27 + 1;
    lemma_power_mod_square_times(10nat, e27, n, x27, 0x104f34ef65e9395e2aebb68cae52621c15dfca5b7805616f87de3befc68f2nat, x28);
    let x29 = 0x1b4d2640b8cb6f9221bf19d0416b423d8b78852dc688a9277484e8d1e6d3nat;
    let e29 = 2 * e28 + 1;
    lemma_power_mod_square_times(10nat, e28, n, x28, 0x6dcd74c383eb69c96503b7713c30e8f5ae2f9d35abfa887fd406107d0efnat, x29);
    let x30 = 0x467217464716911866ec3fa840831ceabb13dbfac7ca5a97658c15ceb22nat;
    let e30 = 2 * e29 + 1;
    lemma_power_mod_square_times(10nat, e29, n, x29, 0xfacd1eb2f38c30ac20f706adb1e76c96a018fb3ffabfcb823731755ed668nat, x30);
    let x31 = 0x13fb18f8e90df06477e5a07f09ad9b8c2d99626e12bd06b7bb50a0f402d1nat;
    let e31 = 2 * e30;
    lemma_power_mod_square(10nat, e30, n, x30, 0xa6fb61bb7c8a9bbd56d65ad5a43ce7e42c9700f2d9fa8eda5cca7a4aa9nat, x31);
    let x32 = 0x7bcc02b6d534bc309018832673b8983b5cae03eab8a2aa5dc20b6e39aaanat;
    let e32 = 2 * e31;
    lemma_power_mod_square(10nat, e31, n, x31, 0xd6ef9429845799a34335dd05f132aa68caab3c26ba7af9d6cf872ff6a35nat, x32);
}

proof fn lemma_power_205115282021455665897114700593932402728804164701536103180137503955397371_over_132896956044521568488119_part_3()
    requires
        power_mod(10nat, 0x10e592a395ad6cb8ff48d3cfcnat, 0x1db8260e5e3b460a46a0088fccf6a3a5936d75d89a776d4c0da4f338aafbnat) == 0x7bcc02b6d534bc309018832673b8983b5cae03eab8a2aa5dc20b6e39aaanat,
    ensures
        power_mod(10nat, 0x10e592a395ad6cb8ff48d3cfcb53eaec0nat, 0x1db8260e5e3b460a46a0088fccf6a3a5936d75d89a776d4c0da4f338aafbnat) == 0x11d7eca105b38fbcf5e34e1f731563721740393d0af0c3d5e73c16e63762nat,
{
    let n = 0x1db8260e5e3b460a46a0088fccf6a3a5936d75d89a776d4c0da4f338aafbnat;
    let e0 = 0x10e592a395ad6cb8ff48d3cfcnat;
    let x0 = 0x7bcc02b6d534bc309018832673b8983b5cae03eab8a2aa5dc20b6e39aaanat;
    let x1 = 0xfcfa1d9aea9579152c5053ba803b695c69f5f222f9170b5e0b177685957nat;
    let e1 = 2 * e0 + 1;
    lemma_power_mod_square_times(10nat, e0, n, x0, 0x1424cdd6d1f4d3473c04c633ed0dcd048bc42f2568c92676c60f5d11d9e3nat, x1);
    let x2 = 0x1925aeedbdef8239ff62746f4424221df611b15831de61f7cccf2ce61124nat;
    let e2 = 2 * e1;
    lemma_power_mod_square(10nat, e1, n, x1, 0x869645bd475ef9dadf64e1bacbf26725a9ded24f7a68507eb811e2f23b7nat, x2);
    let x3 = 0xd35471584b0dc80e901c9a7559f5e5a85fb73c6e855738a0101fc6a2166nat;
    let e3 = 2 * e2 + 1;
    lemma_power_mod_square_times(10nat, e2, n, x2, 0xd4c8ddc6a35a178dcd708c529639ffe9170efa6f00974959e5a8c9d4fe8enat, x3);
    let x4 = 0x11343de811b5c710d3f6204e8c295e68015a57c001fbb51cba89e94c82danat;
    let e4 = 2 * e3 + 1;
    lemma_power_mod_square_times(10nat, e3, n, x3, 0x3ab35c191b7760476a5bd11a407455fad21700047253daaa01dcd8cbad4anat, x4);
    let x5 = 0x10fbfd810acd5621b13ca92d99b5f0b9f16e893518b9ce98a01c835e6427nat;
    let e5 = 2 * e4;
    lemma_power_mod_square(10nat, e4, n, x4, 0x9f58c7c048c93753b3c012153df78def0257aa2b16e0f30c89f52ca4fe7nat, x5);
    let x6 = 0x1245cea9cf034e29ed4d0b27015c9c3fd8781316bfeaac769f64e481d619nat;
    let e6 = 2 * e5 + 1;
    lemma_power_mod_square_times(10nat, e5, n, x5, 0x6110620feb2f7ad0342cd76f9f28db999d84387bac33f06de0c216690f23nat, x6);
    let x7 = 0x18fe3e2af4678f121abdf8258e910684013b97cc272ef01c570b55ecfc98nat;
    let e7 = 2 * e6;
    lemma_power_mod_square(10nat, e6, n, x6, 0xb3c1c7232d478e3417a2fb0201d0320559a04177dd7e2f168e3938e1e3bnat, x7);
    let x8 = 0x196bccb091038b223e3561e0bd22d26a40b11c7f4d94bf3480b78096b8c6nat;
    let e8 = 2 * e7 + 1;
    lemma_power_mod_square_times(10nat, e7, n, x7, 0xd22f746c28d8b2afa1dd4f12311eee1bdc87384621ebe9c9428908699c0enat, x8);
    let x9 = 0x19b6199a9f3a5abff400a1c369f6c542ca4f9f371105b8b2a1884170d45cnat;
    let e9 = 2 * e8;
    lemma_power_mod_square(10nat, e8, n, x8, 0x15be976901d8fc5a4bccd9df486c65f14075c4da243283ba4cd5dc0293d8nat, x9);
    let x10 = 0xff6d5a0d22fa3396a942fce44f7362a71b51e7439b605ee1d75df67171anat;
    let e10 = 2 * e9;
    lemma_power_mod_square(10nat, e9, n, x9, 0x163e6d17bf1e5132b3aa191c6df2091cae9aff15e4b1cc804247c7b3fc02nat, x10);
    let x11 = 0x1d759b6cb4b6834bb553fb23b32ec92902c04c0bf4c6e247d9c5208ead44nat;
    let e11 = 2 * e10 + 1;
    lemma_power_mod_square_times(10nat, e10, n, x10, 0x55c10fefd3300841d53fad6a9e0e27049f6a993dffa753135ad999d2a62cnat, x11);
    let x12 = 0x1285efdc5edf436d24585dbeebe6f2618f02316dd0ea874c222d8f263f74nat;
    let e12 = 2 * e11 + 1;
    lemma_power_mod_square_times(10nat, e11, n, x11, 0x1240479cb899a31c745526a716a1212663f7e60d195f3be98ca2e88c747c4nat, x12);
    let x13 = 0x1aeb4771af5aa7f2b65957db9bddf263212c6a1b67b583be6ba2dda87fa4nat;
    let e13 = 2 * e12 + 1;
    lemma_power_mod_square_times(10nat, e12, n, x12, 0x73731bd7688f5c093d2d5b89ac0d8ff1be70392684d50cf8fb335917d934nat, x13);
    let x14 = 0xbab00e741213b2fbc35f839bff86a4bdd249304ca8224afffe338fe6da2nat;
    let e14 = 2 * e13 + 1;
    lemma_power_mod_square_times(10nat, e13, n, x13, 0xf3d38ebf67176ee046cc6bdad359191469fd03d5dc0d008903ce58dc669anat, x14);
    let x15 = 0x95a5345eb37da0837ea407046989e5994da3ca1b3ddca85e56a0a84bfa7nat;
    let e15 = 2 * e14 + 1;
    lemma_power_mod_square_times(10nat, e14, n, x14, 0x2dcf2668d56ab387c2b162d659e557023164a803bb800d82eaa17e62f4b3nat, x15);
    let x16 = 0x428dde45a495f706c427dca8fa0d81bb03f95bb61c059a033499a0ae69nat;
    let e16 = 2 * e15;
    lemma_power_mod_square(10nat, e15, n, x15, 0x2f181cd5dc59e1343fc61c77743e2184d13ba15d5536031ca6429f16b18nat, x16);
    let x17 = 0x1cd1e8d95c23bf19ba914ed3569e4c45177e4bf565cf686b0307462e1497nat;
    let e17 = 2 * e16 + 1;
    lemma_power_mod_square_times(10nat, e16, n, x16, 0x5d26e0e4df635848bba1d444c99c052f9ecbbb8aced881556cfc3a9c9nat, x17);
    let x18 = 0xd8a46ee99921bd89108e4d84768efa7d95c41281e892d9e2ca4ae741d4anat;
    let e18 = 2 * e17;
    lemma_power_mod_square(10nat, e17, n, x17, 0x1bf2a354b221fd33345ef4cb9ded24aba0b0f39cd9174a6020228d22e0a5nat, x18);
    let x19 = 0xa93fd378c599d80dad7d8a187b91aaf0641666d0656d43fb0a8c35eae6nat;
    let e19 = 2 * e18 + 1;
    lemma_power_mod_square_times(10nat, e18, n, x18, 0x3db0610ca8390bf0d649871ce484011299f11caeecc27bd7e541fa0ee966nat, x19);
    let x20 = 0x476f69c94310132200801f36d9615447e512ad51fad7c4862a80c51a6f2nat;
    let e20 = 2 * e19;
    lemma_power_mod_square(10nat, e19, n, x19, 0x3c3dca9cde54df2567051f14b88fa17a4a21cdde80ad548533fe57076nat, x20);
    let x21 = 0x2de470fa4e4bccebd6246842b7ffe97e6387b640114de842e7350673dc2nat;
    let e21 = 2 * e20 + 1;
    lemma_power_mod_square_times(10nat, e20, n, x20, 0x6b50f7e01d88badaf76c5cd717da0ef010681663ba0a22932f5be21a0d2nat, x21);
    let x22 = 0x563798c772182f18c649e27b47416c89dab2883bdbbf1310817e1d5f4e1nat;
    let e22 = 2 * e21 + 1;
    lemma_power_mod_square_times(10nat, e21, n, x21, 0x2c4aa79d9ea3c3f7432a710aafbdd9b0ccb74115d1903020291cda5e125nat, x22);
    let x23 = 0x7b20a8d737812c64cd5ead5555f02060274c561b9e0dd67eaaecb8945eenat;
    let e23 = 2 * e22 + 1;
    lemma_power_mod_square_times(10nat, e22, n, x22, 0x9c53365379da8caddbc3cf99b5062946910d4785b31a9d944db8869f814nat, x23);
    let x24 = 0x18bcdc2550f47f645f74bd00a9ece99a7ec04fd32c4f350d00acfc94d895nat;
    let e24 = 2 * e23;
    lemma_power_mod_square(10nat, e23, n, x23, 0x1fe1e815b1db8926512ea257d0613dbc81067f15ba0720df4a519f342ddnat, x24);
    let x25 = 0x11836257719460a9fa8e81183760d88e4e274e50b41e6bfc6c0cd00d3e82nat;
    let e25 = 2 * e24 + 1;
    lemma_power_mod_square_times(10nat, e24, n, x24, 0xcde95e9262d1ac32066a6a1afa79844a0ddf354ed13c6d28cefc6e47f0a8nat, x25);
    let x26 = 0x106c311d6b561b3f4a2e1dbe78c0c8517248c177479d97568485968c3c4nat;
    let e26 = 2 * e25 + 1;
    lemma_power_mod_square_times(10nat, e25, n, x25, 0x673401911c2e7aa2ac42630df7e540d1ee04a5e18b33c44477749e2fd3ecnat, x26);
    let x27 = 0x6e038eb0980f635081e60a6b20f8a677e372faf93a8238934c1591da2b2nat;
    let e27 = 2 * e26;
    lemma_power_mod_square(10nat, e26, n, x26, 0x913327760e859d33a539edfa59699a06263ec8e5889399276f5be23banat, x27);
    let x28 = 0x139823bd36c9d9e3ec121975ce821acf7bcdd9a79343f01270f4062f82a5nat;
    let e28 = 2 * e27;
    lemma_power_mod_square(10nat, e27, n, x27, 0x1973ecb0b784b847fc5c4700cb62030434222aa44b48baf800ea0f6292dnat, x28);
    let x29 = 0x136ff37eabffd8c5bd5f33941f3edc82efee0bb3890d547d11bb5605a90nat;
    let e29 = 2 * e28;
    lemma_power_mod_square(10nat, e28, n, x28, 0xceb32c5e0882789dc5db5005ec5b1b0a72635f12a2ef1cd8a1e27b4f10bnat, x29);
    let x30 = 0x12cc285b282a8c5fc1a5c9fd05238b28990cd8d7a089acee2ddc9037d6abnat;
    let e30 = 2 * e29;
    lemma_power_mod_square(10nat, e29, n, x29, 0xcb66acdbe9af3a52b820f30ca6087ae4598c872b38f78b71a7ac32eefnat, x30);
    let x31 = 0x1d063c1b85e50d8ea28673f8c1fb2ed9b66e204d42ba72590cfbd8d5fc25nat;
    let e31 = 2 * e30;
    lemma_power_mod_square(10nat, e30, n, x30, 0xbe3b12691306cc28bb3a0eccc54fbf9d7970693587d9ce8d696a32c31fcnat, x31);
    let x32 = 0x11d7eca105b38fbcf5e34e1f731563721740393d0af0c3d5e73c16e63762nat;
    let e32 = 2 * e31;
    lemma_power_mod_square(10nat, e31, n, x31, 0x1c587b3c1a422f788854d32e80b0493e15d661b51b25f8e93eb9f697c035nat, x32);
}

proof fn lemma_power_205115282021455665897114700593932402728804164701536103180137503955397371_over_132896956044521568488119_part_4()
    requires
        power_mod(10nat, 0x10e592a395ad6cb8ff48d3cfcb53eaec0nat, 0x1db8260e5e3b460a46a0088fccf6a3a5936d75d89a776d4c0da4f338aafbnat) == 0x11d7eca105b38fbcf5e34e1f731563721740393d0af0c3d5e73c16e63762nat,
    ensures
        power_mod(10nat, 0x10e592a395ad6cb8ff48d3cfcb53eaec04e617ad6nat, 0x1db8260e5e3b460a46a0088fccf6a3a5936d75d89a776d4c0da4f338aafbnat) == 0x3665bb8a9996b0f6246a6f72628fac63329e15df5a283ce2308f3462d4anat,
{
    let n = 0x1db8260e5e3b460a46a0088fccf6a3a5936d75d89a776d4c0da4f338aafbnat;
    let e0 = 0x10e592a395ad6cb8ff48d3cfcb53eaec0nat;
    let x0 = 0x11d7eca105b38fbcf5e34e1f731563721740393d0af0c3d5e73c16e63762nat;
    let x1 = 0x90586c399eee343d51733ee41c5c052e5480d70a3535dc1d07aec398952nat;
    let e1 = 2 * e0;
    lemma_power_mod_square(10nat, e0, n, x0, 0xab693af3f070270e6e273d0cd87215e9fe2c5b375a3d646ed5e3e2451f6nat, x1);
    let x2 = 0x733b18d09a5764375443a624460602e6163ef113b0a0add73261abb531bnat;
    let e2 = 2 * e1 + 1;
    lemma_power_mod_square_times(10nat, e1, n, x1, 0x1b62c9eaf4dda0ef89466323faffbc5cf6c74deae4dc640a34ac7499cd17nat, x2);
    let x3 = 0x65e20eb1fb80f13cf1b4156777f3be35d3cb679a03ade8c072829c748e2nat;
    let e3 = 2 * e2;
    lemma_power_mod_square(10nat, e2, n, x2, 0x1bec8ef353dd1fe909960e97404a56ffc32b69e4f8df5c7a3438175a235nat, x3);
    let x4 = 0x177fd695db7f946591f34f49fc6a36df5133311661c59586c867c6e12481nat;
    let e4 = 2 * e3;
    lemma_power_mod_square(10nat, e3, n, x3, 0x15d45d4bde6571493565be673734c324f117c716f51530eadb68fe14999nat, x4);
    let x5 = 0x58f339cb5b06c15dea979289b153dfbfdb63697e1f2f91580743bb8cbe7nat;
    let e5 = 2 * e4 + 1;
    lemma_power_mod_square_times(10nat, e4, n, x4, 0xb9cfd3965ec764d20e3365bec47542a7d961d444be1369d95d45474ac0f9nat, x5);
    let x6 = 0x8905de3fe4b883bef4c0486ce142b33162b1c38d77dda3af476dccd302cnat;
    let e6 = 2 * e5 + 1;
    lemma_power_mod_square_times(10nat, e5, n, x5, 0xa6647e3a82618a9dcee90a676724fd48b54d440b23b2be1dbadb33a545anat, x6);
    let x7 = 0xd537ef2c25e6c2b2d0738c5d7f2632a6f276d556efc0f1a3323e1c84f49nat;
    let e7 = 2 * e6 + 1;
    lemma_power_mod_square_times(10nat, e6, n, x6, 0x18ad881bb525d12943ffa8860fd100df3f50e42e6459aac18b79192ef555nat, x7);
    let x8 = 0x99a9ed1a6771bcc90854a260237a01db3eefefcaf647f76ec15e8e67c4cnat;
    let e8 = 2 * e7;
    lemma_power_mod_square(10nat, e7, n, x7, 0x5f9b736248dfe9d506ed63f7422d2b1becb3245bb2b6ebc674151183c7fnat, x8);
    let x9 = 0xf043ab86c234d684a26cee4803cf89ddee62f603ee5fc36022a2cee7a26nat;
    let e9 = 2 * e8;
    lemma_power_mod_square(10nat, e8, n, x8, 0x31a84b6c9432894d7b15af9caf204885e963bb7800dffcd498089cf291enat, x9);
    let x10 = 0x12c1ec9e4299adbe98d3d29ba1588e8d7e9a90a749c730cf2d6d5a262d94nat;
    let e10 = 2 * e9 + 1;
    lemma_power_mod_square_times(10nat, e9, n, x9, 0x4be00a9d964859347737251f0a6cfd908a1f2daaa4a1b0eeb5dce823f83cnat, x10);
    let x11 = 0x153dfae1c5e3da3a351cec53f7ba0cfdfc04c1293ba68148cecb41df1f2cnat;
    let e11 = 2 * e10 + 1;
    lemma_power_mod_square_times(10nat, e10, n, x10, 0x76639b08c79d52b38f165dbc03a580b860f8d94f5d76be10dd2db6236f1cnat, x11);
    let x12 = 0xbf5e18bfe020dbdbc2430e72f605ddf1fa7dcb8e34dad48cd7768a54656nat;
    let e12 = 2 * e11;
    lemma_power_mod_square(10nat, e11, n, x11, 0xf2ed60824aba97b7b7c6cbd3f03a63f875d67135d631200c1db9daa168enat, x12);
    let x13 = 0xdbdfa477e25ea41fb50c7c1e598973fabcc0fe1faa40d40e2c9bc19d052nat;
    let e13 = 2 * e12;
    lemma_power_mod_square(10nat, e12, n, x12, 0x4d03f22ed2405e548de1cd015ade062768e85cc7b1cd70be183ea527916nat, x13);
    let x14 = 0x143613628429339db643fc3eb11da64efb0c1b0381ad079c5de5712b4c24nat;
    let e14 = 2 * e13;
    lemma_power_mod_square(10nat, e13, n, x13, 0x65ab2e8b035aaaf459946b7f3eebe58e6018d4684a9de9f3a3171f6d060nat, x14);
    let x15 = 0x7a45b5fbd0168106ec263d986731c92d6da9e622be193a46fead56cf971nat;
    let e15 = 2 * e14;
    lemma_power_mod_square(10nat, e14, n, x14, 0xdbebc2e3df7a2d1b86d99a4d9f976654bade9b50d66b93d38bbf6f8a0adnat, x15);
    let x16 = 0x1640555c155c85f99423e66a11adb21a9f6d4b4eb6d76eea00938d176099nat;
    let e16 = 2 * e15 + 1;
    lemma_power_mod_square_times(10nat, e15, n, x15, 0x13a691eb46fe36ddcd15b178086f4c40efed3ddacb8f162e95f4ce7b4bc3nat, x16);
    let x17 = 0x976f1f01d1cb7d4844bfe4104504b27070181b88f7dccf4f6eb84ae6968nat;
    let e17 = 2 * e16;
    lemma_power_mod_square(10nat, e16, n, x16, 0x10a8edd99f9e5b6b50b34c29655c8383444b3e0de38400fe8af5e31ec7cbnat, x17);
    let x18 = 0x165a37eabab271503cfed8e126529ec1f0086b9e21825f551180ad0cccfanat;
    let e18 = 2 * e17 + 1;
    lemma_power_mod_square_times(10nat, e17, n, x17, 0x1e244872901e0fc43de2d8eaadd0e10365e736aed754a987cb83030b95b2nat, x18);
    let x19 = 0x18e20a5724b199e0cda5756400f553d55301565f274c86721eb213799641nat;
    let e19 = 2 * e18 + 1;
    lemma_power_mod_square_times(10nat, e18, n, x18, 0xa81dc7fb800284d8f3e5a5ba19c4f3a4b54f8f99c255d07418269d7240c5nat, x19);
    let x20 = 0x187858a28293c397554c11aa429097b38a734e25c08c5a0836a4ce71b076nat;
    let e20 = 2 * e19 + 1;
    lemma_power_mod_square_times(10nat, e19, n, x19, 0xd056268b74f1b835c2a6eee56c8e97eaa6d3e972ab4462912ff74c9ea17cnat, x20);
    let x21 = 0x1bb7bd6e1dcbccfdc242f2984148aa7c6f80f35f4d13b533ac0460b09fe9nat;
    let e21 = 2 * e20 + 1;
    lemma_power_mod_square_times(10nat, e20, n, x20, 0xc97af3cba5ed587b122b13955c420e424a8bb182d7204bbc3e533de12fcdnat, x21);
    let x22 = 0x15df6a3d67fe137bb7f262e9fe8130320c68d8015c454ca709ff9bbb0230nat;
    let e22 = 2 * e21;
    lemma_power_mod_square(10nat, e21, n, x21, 0x19d9d78c43869fb85f1f59de41418df245c01468a3395c53cddbc78989d3nat, x22);
    let x23 = 0x13fd57fb0ea8c0e425e9618f70bf57851d2ed26ae153ab45b3f35cefe69fnat;
    let e23 = 2 * e22 + 1;
    lemma_power_mod_square_times(10nat, e22, n, x22, 0xa0fa5a155df5df1c3b3bcfb77354d3b3ff5a31ce5da47dde7f94d0ba4c53nat, x23);
    let x24 = 0x178b5699bd64738541d7eec8f27ad08439be36560ab258e4ae168b5e291enat;
    let e24 = 2 * e23;
    lemma_power_mod_square(10nat, e23, n, x23, 0xd71fe9b7239e43713f008e3e09d2ec8d95e01f24475a2dfe6c1ef7cc779nat, x24);
    let x25 = 0xa64bbae22ecf8846777f33ae425857b7e74027c93ba1b3572dfc4f1e815nat;
    let e25 = 2 * e24 + 1;
    lemma_power_mod_square_times(10nat, e24, n, x24, 0xba85dd530b341da6b84550dbf4e83d55ce4e6ef18ca9eefa65eb29e1fcc9nat, x25);
    let x26 = 0x137cc0106fdb1b53d85379a0c601acc4f26d4cb393e63aaf53a8b1d6e9afnat;
    let e26 = 2 * e25 + 1;
    lemma_power_mod_square_times(10nat, e25, n, x25, 0x245927da7f7db85464d1167afaa4d25d5e0bc423bdfcf84a8a696c3db0b1nat, x26);
    let x27 = 0xdba0560a1d60b2ead70f65ffd81cd561137ad5080762fd4bef6bb08fd04nat;
    let e27 = 2 * e26;
    lemma_power_mod_square(10nat, e26, n, x26, 0xcc72e427ed2ebc23a5929c3f714f78b3e4c9e6d4a35036a1c00b8a84747nat, x27);
    let x28 = 0x10b0214f09c2c24946083f8b44fdd42f57bc2d271306197c4eeec98d3a71nat;
    let e28 = 2 * e27 + 1;
    lemma_power_mod_square_times(10nat, e27, n, x27, 0x3f666b1f2fe5df9fedd14b3fa812e6ff711d19d7bc9aa65b2fe26b73db5dnat, x28);
    let x29 = 0x1564320937b466b45b6aeecd14a7cfc55929ab59ad021a211411c090e776nat;
    let e29 = 2 * e28;
    lemma_power_mod_square(10nat, e28, n, x28, 0x95ee34cea8b7a1d0b047c0ceb8ca534e351b6fba1c06396805fd67a1f51nat, x29);
    let x30 = 0x771e2ca7d175131cea32b4dea70966ae41318cd68c856046d111b9f3adanat;
    let e30 = 2 * e29 + 1;
    lemma_power_mod_square_times(10nat, e29, n, x29, 0x99f89357fe5b1c7e0b8ba314009c5425c050c99160c04adb8681318f19canat, x30);
    let x31 = 0xe1c0395c5ede61c73a558381ed6ae4cdc9eebf18ae316c6a823afa25e70nat;
    let e31 = 2 * e30 + 1;
    lemma_power_mod_square_times(10nat, e30, n, x30, 0x12a65b276cc323b87ea2c252ec725e08d7714f7fb802f8889783cbacf468nat, x31);
    let x32 = 0x3665bb8a9996b0f6246a6f72628fac63329e15df5a283ce2308f3462d4anat;
    let e32 = 2 * e31;
    lemma_power_mod_square(10nat, e31, n, x31, 0x6b2d3415ff4cbd48c7be199a09ad08fde9c6e9436c49fe7f81f4c155d42nat, x32);
}

proof fn lemma_power_205115282021455665897114700593932402728804164701536103180137503955397371_over_132896956044521568488119()
    ensures
        power_mod(10nat, 0x10e592a395ad6cb8ff48d3cfcb53eaec04e617ad6nat, 0x1db8260e5e3b460a46a0088fccf6a3a5936d75d89a776d4c0da4f338aafbnat) == 0x3665bb8a9996b0f6246a6f72628fac63329e15df5a283ce2308f3462d4anat,
{
    lemma_power_mod_first(10nat, 0x1db8260e5e3b460a46a0088fccf6a3a5936d75d89a776d4c0da4f338aafbnat);
    lemma_power_205115282021455665897114700593932402728804164701536103180137503955397371_over_132896956044521568488119_part_0();
    lemma_power_205115282021455665897114700593932402728804164701536103180137503955397371_over_132896956044521568488119_part_1();
    lemma_power_205115282021455665897114700593932402728804164701536103180137503955397371_over_132896956044521568488119_part_2();
    lemma_power_205115282021455665897114700593932402728804164701536103180137503955397371_over_132896956044521568488119_part_3();
    lemma_power_205115282021455665897114700593932402728804164701536103180137503955397371_over_132896956044521568488119_part_4();
}

proof fn lemma_power_205115282021455665897114700593932402728804164701536103180137503955397371_over_255515944373312847190720520512484175977_part_0()
    requires
        power_mod(10nat, 1nat, 0x1db8260e5e3b460a46a0088fccf6a3a5936d75d89a776d4c0da4f338aafbnat) == 10nat,
    ensures
        power_mod(10nat, 0x13ca0fabfnat, 0x1db8260e5e3b460a46a0088fccf6a3a5936d75d89a776d4c0da4f338aafbnat) == 0x18a9198ea24d1ef19327b68ee96f26475880b303d8b71a988994e75933benat,
{
    let n = 0x1db8260e5e3b460a46a0088fccf6a3a5936d75d89a776d4c0da4f338aafbnat;
    let e0 = 1nat;
    let x0 = 10nat;
    let x1 = 100nat;
    let e1 = 2 * e0;
    lemma_power_mod_square(10nat, e0, n, x0, 0nat, x1);
    let x2 = 10000nat;
    let e2 = 2 * e1;
    lemma_power_mod_square(10nat, e1, n, x1, 0nat, x2);
    let x3 = 0x3b9aca00nat;
    let e3 = 2 * e2 + 1;
    lemma_power_mod_square_times(10nat, e2, n, x2, 0nat, x3);
    let x4 = 0x8ac7230489e80000nat;
    let e4 = 2 * e3 + 1;
    lemma_power_mod_square_times(10nat, e3, n, x3, 0nat, x4);
    let x5 = 0x2f050fe938943acc45f65568000000000nat;
    let e5 = 2 * e4 + 1;
    lemma_power_mod_square_times(10nat, e4, n, x4, 0nat, x5);
    let x6 = 0xd64285e260dab9af6f72f7b75602f80c765a9fffe2676d9a166ea27ab6bnat;
    let e6 = 2 * e5 + 1;
    lemma_power_mod_square_times(10nat, e5, n, x5, 0x2e7e9afnat, x6);
    let x7 = 0xb013778835da02811b3c60f4b852ca3641dc192201565a72718952a7f9nat;
    let e7 = 2 * e6;
    lemma_power_mod_square(10nat, e6, n, x6, 0x608b1c880c2adcad50f45f31a8b75558d58efea5b2fed175c0c9610a840nat, x7);
    let x8 = 0x87221fe3e2db110dadc5bc6036b46211c08959534088c9bd5612937eaa2nat;
    let e8 = 2 * e7;
    lemma_power_mod_square(10nat, e7, n, x7, 0x4132f786adb0ff6aad3d6342f38dd5d6d97e62654fcc3efec4b39eb7dnat, x8);
    let x9 = 0x1082cac3d2732664e4328900d099a34e23274e14f9d70dbc564180eaea64nat;
    let e9 = 2 * e8 + 1;
    lemma_power_mod_square_times(10nat, e8, n, x8, 0x18007d0d7d9d2ba1e22f1bcbf02bbe6f6002f28cda6f7c531c1fb3f6790cnat, x9);
    let x10 = 0x1d0932667d2847520c062426d01f5a8946e208f03e2a10b6f5fab668d264nat;
    let e10 = 2 * e9;
    lemma_power_mod_square(10nat, e9, n, x9, 0x92c3dd8525e52e01c44a9e651eccd2121696cc40a6407d29002ace10e44nat, x10);
    let x11 = 0xb3b91589909f92091bd14c5d11815e497e1b2c17f90d807b3accce3aad2nat;
    let e11 = 2 * e10 + 1;
    lemma_power_mod_square_times(10nat, e10, n, x10, 0x11baeae822fa9fe1e7445958fe299b263224757d7112c30842924933e0a0anat, x11);
    let x12 = 0x193ab371ba993ff64fd062efa75c48d4cc9a3ebb3c8dd11eb7041ec06fd4nat;
    let e12 = 2 * e11;
    lemma_power_mod_square(10nat, e11, n, x11, 0x43ed8b5e21e765c4cb83222ab32fa63c7247be1f402c79fcea0ab074250nat, x12);
    let x13 = 0x54c9aaa0d6738bbe1a0128fbfe71b1ae8c49d7240d364d932a3fee0739bnat;
    let e13 = 2 * e12;
    lemma_power_mod_square(10nat, e12, n, x12, 0x156ae9c197b8d4e44dd27abd82531ca404e41c9599abdade3d877c2c09cfnat, x13);
    let x14 = 0xaac299d24c10e84645994b42455ac819fa032b4712937c8d24860be7d7nat;
    let e14 = 2 * e13;
    lemma_power_mod_square(10nat, e13, n, x13, 0xf1e52d89c80ef9d5d6923d6fd18c18b2c7186ea7054b6a17cd2dda4866nat, x14);
    let x15 = 0x46a53027ed306a62d43a32db7a85f1043e502435c04a708de9c5d5ef80fnat;
    let e15 = 2 * e14;
    lemma_power_mod_square(10nat, e14, n, x14, 0x3d525a1b890007fc1fd87ebb3985d8affd5f29bcf0c81e562a09b93e6nat, x15);
    let x16 = 0x8f0774ce475cde571822cd205830c722143fc3bd1492cb8d8e8e98b3ee1nat;
    let e16 = 2 * e15;
    lemma_power_mod_square(10nat, e15, n, x15, 0xa7edf684895918941981003162ebd8838eff60b229192bcfaa5638d600nat, x16);
    let x17 = 0x1a1239f9714020a5f1a85c0d40c1e5b77ce8dd9da27b0f8f2368d6ec3892nat;
    let e17 = 2 * e16 + 1;
    lemma_power_mod_square_times(10nat, e16, n, x16, 0x1ae3828d374a416419d41803955d2c3246ad1b019b9aaf89e3974f3e3968nat, x17);
    let x18 = 0x8716c599723976a03bb8db29614a3256464f7b341760a643dbbdf17b31bnat;
    let e18 = 2 * e17 + 1;
    lemma_power_mod_square_times(10nat, e17, n, x17, 0xe4b5758890bdbd756c30e4016434bbea775fe8ce064a628a182e5a760317nat, x18);
    let x19 = 0x1cde47aa8423ad4ff97251862e58b49bf1464726ef70b0083f9b232e2deenat;
    let e19 = 2 * e18 + 1;
    lemma_power_mod_square_times(10nat, e18, n, x18, 0x17fc74cfbf44142f63769608594f27c4096f33520d36d6e1730b9afec1e4nat, x19);
    let x20 = 0x199d32bed1c0a43455ec5680985ac6db19033f849ff7e9de4992b80fd721nat;
    let e20 = 2 * e19 + 1;
    lemma_power_mod_square_times(10nat, e19, n, x19, 0x1186a8071b2ae484fa79ebd511a8e1a918a9365d8a35abcc5b7258f8f49e5nat, x20);
    let x21 = 0x162e69864ecb038316ce7aa176a6e3eafc1d8bdf115703c9659173b731b6nat;
    let e21 = 2 * e20 + 1;
    lemma_power_mod_square_times(10nat, e20, n, x20, 0xdcc234e7e01b9ded13e5643561c074521bd5e49e839b23428b265d5cf63cnat, x21);
    let x22 = 0x58441477b6eed1617b4c13cb2eeeffc4b3be7887f7811afe2fcd7a8a841nat;
    let e22 = 2 * e21;
    lemma_power_mod_square(10nat, e21, n, x21, 0x108e22b26a67f19e87f4c1f440f5c15061a3982e4728111fc85884b6f5f9nat, x22);
    let x23 = 0x142819d3acaafc62bb2393011c46f426f4141366723d7b472b9e096f3a96nat;
    let e23 = 2 * e22 + 1;
    lemma_power_mod_square_times(10nat, e22, n, x22, 0xa3d7bf6db947879cd9f1a7b678b9b9fd8cacbf21cbbd7ce43a07e63d51cnat, x23);
    let x24 = 0x14d810b0fe9a8f4c70d71afd72a80866584883fba77dbd8563549b1c1b81nat;
    let e24 = 2 * e23;
    lemma_power_mod_square(10nat, e23, n, x23, 0xdabc0c5348c3ee17909b4aab83e46998346f530500e2fd945a7e9b4dfb9nat, x24);
    let x25 = 0x1a0767f3226d3c0901e11b8ca3eb3481809f87f7d34844306839709846a5nat;
    let e25 = 2 * e24 + 1;
    lemma_power_mod_square_times(10nat, e24, n, x24, 0x9231202071d9c8cb0f5d33a5621fbcf540db7150965a210af39c0037111fnat, x25);
    let x26 = 0x1ba81948f50853d1867ea54a320687dacd373a976324532f85760d552b22nat;
    let e26 = 2 * e25;
    lemma_power_mod_square(10nat, e25, n, x25, 0x16cbfa19c4e9279ca860d5340de4684dba11297ba4acc40e2a0246823bf5nat, x26);
    let x27 = 0x119ab6d45a54735360caed0aa4b0833f62c83a4c74f16d2510698579f05anat;
    let e27 = 2 * e26 + 1;
    lemma_power_mod_square_times(10nat, e26, n, x26, 0x1015efc7a365382cbb3be91902f6627b92edfbe51fa70846daf8092b0a50anat, x27);
    let x28 = 0x3ea0a051f01115c2cd1db0774c95a8e5becdeb7f5ce7ee8a7cb3852ab17nat;
    let e28 = 2 * e27 + 1;
    lemma_power_mod_square_times(10nat, e27, n, x27, 0x6847aeeaad3c571af910a7c5b63f3aad6d4464da0215ddc4657ef37d4323nat, x28);
    let x29 = 0x17e09a50f0f45b77a30b42b72ebcc81cfeef3a3447cd3e574a0a4eb0ac68nat;
    let e29 = 2 * e28 + 1;
    lemma_power_mod_square_times(10nat, e28, n, x28, 0x527beff570beb87db4201c8c00916f737d642ce6a0a915ebe56540ff126nat, x29);
    let x30 = 0xb04b388358d193550d76a20977f1caabd69c97be1c4b9303d5ead2080fanat;
    let e30 = 2 * e29 + 1;
    lemma_power_mod_square_times(10nat, e29, n, x29, 0xbfd6633b1b5d92c7ae1490dda49ff0432ef12b6a92f10bb056452113d9b2nat, x30);
    let x31 = 0x129ed1dc1dbc96903a18a99838dfab4468f99b599033ae277dbb8e372121nat;
    let e31 = 2 * e30 + 1;
    lemma_power_mod_square_times(10nat, e30, n, x30, 0x28d9ad34cb678c760d36ec82bb6c9a54b3c7d8b7ecb7f3dd500bc7e27625nat, x31);
    let x32 = 0x18a9198ea24d1ef19327b68ee96f26475880b303d8b71a988994e75933benat;
    let e32 = 2 * e31 + 1;
    lemma_power_mod_square_times(10nat, e31, n, x31, 0x74aa18dd1dbfa16f9772231d06275d8a216b6b5c67b4ee4f26e3c585e6a4nat, x32);
}

proof fn lemma_power_205115282021455665897114700593932402728804164701536103180137503955397371_over_255515944373312847190720520512484175977_part_1()
    requires
        power_mod(10nat, 0x13ca0fabfnat, 0x1db8260e5e3b460a46a0088fccf6a3a5936d75d89a776d4c0da4f338aafbnat) == 0x18a9198ea24d1ef19327b68ee96f26475880b303d8b71a988994e75933benat,
    ensures
        power_mod(10nat, 0x13ca0fabfd9e01b8cnat, 0x1db8260e5e3b460a46a0088fccf6a3a5936d75d89a776d4c0da4f338aafbnat) == 0x110d6e7620a3849bb1afac9914f71ecf26e2e7d526cb922888cab5c4f128nat,
{
    let n = 0x1db8260e5e3b460a46a0088fccf6a3a5936d75d89a776d4c0da4f338aafbnat;
    let e0 = 0x13ca0fabfnat;
    let x0 = 0x18a9198ea24d1ef19327b68ee96f26475880b303d8b71a988994e75933benat;
    let x1 = 0x2abddda15e2aef64cd4552f9c7b325a484e7a0b75d14758442eeadce0denat;
    let e1 = 2 * e0 + 1;
    lemma_power_mod_square_times(10nat, e0, n, x0, 0xcca0ecbd4cfa156fb8894cabc90ae995cf165baa305574c6d71210d6d9benat, x1);
    let x2 = 0x1d3f61a5d5bc6608117033ed15f62b7844788cd89a2cf36cdf48c3954bf9nat;
    let e2 = 2 * e1 + 1;
    lemma_power_mod_square_times(10nat, e1, n, x1, 0x266b36a68de5866aee8c91f1dbe096ace1bd1e767c66f4f644ced70945dnat, x2);
    let x3 = 0x11d6590261be58422b58937a2ed90e71e3db118bebebdec1b16b3e497736nat;
    let e3 = 2 * e2;
    lemma_power_mod_square(10nat, e2, n, x2, 0x1cc887fcf4d1771833d137fa1a3f4d7682e004a04289bb6c165b233d4201nat, x3);
    let x4 = 0x1b08a3970dc572bbda5c31237094483991d4f7b829fe2096832203246fcdnat;
    let e4 = 2 * e3 + 1;
    lemma_power_mod_square_times(10nat, e3, n, x3, 0x6b0ed7067e560f8912add742f90e629697bf16ad1a7f919fa5b1185df361nat, x4);
    let x5 = 0x18ee5394f9f45dcdf575c7b896a318ede67062a4645838241e94afc6daa4nat;
    let e5 = 2 * e4 + 1;
    lemma_power_mod_square_times(10nat, e4, n, x4, 0xf5e88fb3a058c26f31a5183d0f1a6b478baa521836299d11cd9295bbcf02nat, x5);
    let x6 = 0x1130595467372514d4239688c14287a20dce30167258886161e1a594f55enat;
    let e6 = 2 * e5;
    lemma_power_mod_square(10nat, e5, n, x5, 0x14ea022357c4e3e86062fa4ce76ec23d4296057593ea878a90b204e59c76nat, x6);
    let x7 = 0x12df3698497aff36e1d1603dce62f530079ba8cf07e7dcbcccbd381873ednat;
    let e7 = 2 * e6;
    lemma_power_mod_square(10nat, e6, n, x6, 0x9f10b301e64c4662c2d4ef3c0f2288503dd40dca838443eaaaa96577c15nat, x7);
    let x8 = 0xc08905018880a6b8ba0ca122baa27349fc47f583da2b1995bdf076982a0nat;
    let e8 = 2 * e7 + 1;
    lemma_power_mod_square_times(10nat, e7, n, x7, 0x77d673749fa9fe0346d4fed2041ea3ac76ea65a091744a0942ac038f594enat, x8);
    let x9 = 0x4493fd5cd18ba8a6228537f52bc1391db13353787e3cb314ee33d0a00c2nat;
    let e9 = 2 * e8 + 1;
    lemma_power_mod_square_times(10nat, e8, n, x8, 0x30b94d10300434fbfe0793cf5e194ef34934c82078084d463c449de2715anat, x9);
    let x10 = 0x178d018b906858c6f09ecb82d8202aba19b58d023dae9c0381cae0e9c081nat;
    let e10 = 2 * e9 + 1;
    lemma_power_mod_square_times(10nat, e9, n, x9, 0x62e74c5100937b66a371ca6d2fe14303f02be80118b88146ad820cd3845nat, x10);
    let x11 = 0x52d8c095dd089f6c9ad6930854ac72440dfa94de58f6cdb93abc19ee9a5nat;
    let e11 = 2 * e10 + 1;
    lemma_power_mod_square_times(10nat, e10, n, x10, 0xbaa04af42b0f7922d664a5dc321e5732610f5501c295290003a5407a041fnat, x11);
    let x12 = 0x1747dba12dd7f89f1663065a81f63b271005b6a2dd69838f8aabd6d3bb9cnat;
    let e12 = 2 * e11;
    lemma_power_mod_square(10nat, e11, n, x11, 0xe6f24a515d946f686b5ce33f4f1b6ae88ba364b59520f6724341434da7nat, x12);
    let x13 = 0x162f662b26dbd79ba0774908daa413a309d9a7b3321a02326d4f58cee840nat;
    let e13 = 2 * e12;
    lemma_power_mod_square(10nat, e12, n, x12, 0x123caa8c796dddbaf04d7acd6d04b0f1df7c6f424b7c55329f49271de370nat, x13);
    let x14 = 0x25d36b7925df652662db412ad921971e1eefefc29d5f4d072b2d5550bb5nat;
    let e14 = 2 * e13;
    lemma_power_mod_square(10nat, e13, n, x13, 0x108f9bdb20cd7850508be0825de689c492497c7103c197ab1872f494caf1nat, x14);
    let x15 = 0x7d1888a3e592a3d3f0905de8a41b311273fd20e3790c24d630635271479nat;
    let e15 = 2 * e14;
    lemma_power_mod_square(10nat, e14, n, x14, 0x3024c3005f91320dfc0aa49f63d19e92165eb0c43078a806bc9e32b480nat, x15);
    let x16 = 0xe8bdb1191a3be1806010dab0c633e8cd82f214221de43b64205ca961924nat;
    let e16 = 2 * e15;
    lemma_power_mod_square(10nat, e15, n, x15, 0x20e8efdaf31bfe7e3373070a6069fa6bed8d64c75001d48f33e57832a97nat, x16);
    let x17 = 0x1295e2ec735dc6f8a22690a65fa32829b9d54db3594f8aa745e2932eaaednat;
    let e17 = 2 * e16;
    lemma_power_mod_square(10nat, e16, n, x16, 0x71eaa14c2485d0a2111d5b49c10930c5813f7c7a07aa0da8048e364fcf9nat, x17);
    let x18 = 0xa90a2b469ba35f7f87d1ef9e18ebb2fc7a5207a161e9978562803dd095enat;
    let e18 = 2 * e17;
    lemma_power_mod_square(10nat, e17, n, x17, 0xb9f6d0d2bd54d0e102f13e55dedb3c5d1199ab2da19d48e1f92a99ad431nat, x18);
    let x19 = 0x1a2ffd27fb3ecdb57a6ecf7fa35dd54fbeaabcd16d291877631226cccd38nat;
    let e19 = 2 * e18;
    lemma_power_mod_square(10nat, e18, n, x18, 0x3c179e58110e097d921075e74d2a958122f2fee51f3cdaef968fa47d224nat, x19);
    let x20 = 0x1bbbe01a8e43e580ee8937a30ca2f235cac39fb9fb5d6e9a2b4913260ba3nat;
    let e20 = 2 * e19 + 1;
    lemma_power_mod_square_times(10nat, e19, n, x19, 0xe6c0cdb1c09056453a4429c71b2918e182c19ddd38b8ae19e3a11af84607nat, x20);
    let x21 = 0xb1911cea51b7b11c8f870c81f628210e221b68da8cbc94bda096bf61f9dnat;
    let e21 = 2 * e20 + 1;
    lemma_power_mod_square_times(10nat, e20, n, x20, 0x102cf94ac1ea4462c4096d5dec4eef6d345b5ad88c097bcf14d0efb8c0227nat, x21);
    let x22 = 0xf53cbe7fae1c72ecdcb0fb5c8c4e91af7ff229273f1f31d60771b8887c0nat;
    let e22 = 2 * e21;
    lemma_power_mod_square(10nat, e21, n, x21, 0x424ecd683947c50c2ef76c23c9a6453bcf95687e4d74d446568ff57a54bnat, x22);
    let x23 = 0x34b071951fef39d618d77eeb97e05816219351b297600a6bd78bdaa7e27nat;
    let e23 = 2 * e22 + 1;
    lemma_power_mod_square_times(10nat, e22, n, x22, 0x4f0c6ed7d40b67b216f70d759d1daabea9c47fdd999caf15aedf5d3f0e3bnat, x23);
    let x24 = 0xc5f69f5f8702dde05f346fc9b0943e2c3234546fac56df5917930b8ab57nat;
    let e24 = 2 * e23 + 1;
    lemma_power_mod_square_times(10nat, e23, n, x23, 0x3a61fdabaf4aa4d2fe5d13d0aff70d79fa73cbbbf3f191a69ca76465bc9nat, x24);
    let x25 = 0x1378a9ab63b73fae4ab22858c644e720a2c09047855deef286007f47607anat;
    let e25 = 2 * e24 + 1;
    lemma_power_mod_square_times(10nat, e24, n, x24, 0x338288a14488a1f3648721c6883bb9d1e74224a186ad790a8737feb33a90nat, x25);
    let x26 = 0x1d912f48120c915cd2b31794910eabbf5c70dde279a34fcc683b939421f0nat;
    let e26 = 2 * e25;
    lemma_power_mod_square(10nat, e25, n, x25, 0xcc1d28e5046465176aa110f3ae9f265da98a800a66e0968b857df49925cnat, x26);
    let x27 = 0xb00fd4fcb34096c76e63bbfee573af642a5c1cd684e153bcd9f31601702nat;
    let e27 = 2 * e26;
    lemma_power_mod_square(10nat, e26, n, x26, 0x1d6a6b9758da5d7eac7dcc2cd52dcfd5919021c608265c16131185713d9anat, x27);
    let x28 = 0xb158d7ed11248ccd8e8e9a5b642ec27b448ca1d27d2753a4384a2d8e568nat;
    let e28 = 2 * e27;
    lemma_power_mod_square(10nat, e27, n, x27, 0x413046697af615fd333e41debdf48726276b921d3cc4e7311758ae66114nat, x28);
    let x29 = 0x479d9aba52d510552e906725eb0b579723215cd760bb15fd555ae5f8feenat;
    let e29 = 2 * e28 + 1;
    lemma_power_mod_square_times(10nat, e28, n, x28, 0x29570091f5aad424c090c957b962d69258d4281844cdc20691be2af6ff16nat, x29);
    let x30 = 0x4a26305c2f662f4ad6e87a6f1fc647a826da257029ca56e1398b656b8danat;
    let e30 = 2 * e29 + 1;
    lemma_power_mod_square_times(10nat, e29, n, x29, 0x6bdbedb0c1ba39c5baa159a0ef3b8415e1c3e47d86b2cd42fc53d17920anat, x30);
    let x31 = 0x171974604ea9482c9b50ddceb30cfb795448c914fbea211435ed2672329enat;
    let e31 = 2 * e30;
    lemma_power_mod_square(10nat, e30, n, x30, 0xb90035018ba2d11501dbad9b50b50830eba80be0ee14c2a564f3a3e632nat, x31);
    let x32 = 0x110d6e7620a3849bb1afac9914f71ecf26e2e7d526cb922888cab5c4f128nat;
    let e32 = 2 * e31;
    lemma_power_mod_square(10nat, e31, n, x31, 0x11f43fbae64bf6a49abc0e4a767bb6a1d73b2cee9b07bd750ef9f7e9ca54nat, x32);
}

proof fn lemma_power_205115282021455665897114700593932402728804164701536103180137503955397371_over_255515944373312847190720520512484175977_part_2()
    requires
        power_mod(10nat, 0x13ca0fabfd9e01b8cnat, 0x1db8260e5e3b460a46a0088fccf6a3a5936d75d89a776d4c0da4f338aafbnat) == 0x110d6e7620a3849bb1afac9914f71ecf26e2e7d526cb922888cab5c4f128nat,
    ensures
        power_mod(10nat, 0x13ca0fabfd9e01b8c0fe03fa9nat, 0x1db8260e5e3b460a46a0088fccf6a3a5936d75d89a776d4c0da4f338aafbnat) == 0x2bcaa6c7514ecfbf015bdd8cedf47eb397147d2b26fce16fbf5094ae784nat,
{
    let n = 0x1db8260e5e3b460a46a0088fccf6a3a5936d75d89a776d4c0da4f338aafbnat;
    let e0 = 0x13ca0fabfd9e01b8cnat;
    let x0 = 0x110d6e7620a3849bb1afac9914f71ecf26e2e7d526cb922888cab5c4f128nat;
    let x1 = 0x152ec95c4a1436c39c131b006a5d7ea1b3f1841fa1290a28fa8d1ca02075nat;
    let e1 = 2 * e0;
    lemma_power_mod_square(10nat, e0, n, x0, 0x9c8d035b87143760e6b9a528cf11c6444573af9d12eefca557d948da771nat, x1);
    let x2 = 0x5068dc030bbec3c2631a2053c0b5f070fc951ed06af52971c64a214ea1cnat;
    let e2 = 2 * e1;
    lemma_power_mod_square(10nat, e1, n, x1, 0xf1925abd9b284fc60e1cb4073745e8e93faabe9ef277fda101e4c355387nat, x2);
    let x3 = 0x1b0442640cb66fc15300ab42b283e6b1db6144705dca168d83334780399anat;
    let e3 = 2 * e2;
    lemma_power_mod_square(10nat, e2, n, x2, 0xd98f141ed28dfd4037b138e3a80f8494623d877d1777fd9f218c779282nat, x3);
    let x4 = 0x15a9ad84572c955dabb7568e5fe5849b90979d63760c49748773a75dae9fnat;
    let e4 = 2 * e3;
    lemma_power_mod_square(10nat, e3, n, x3, 0x188f4a7385045e0066e493c64cd6e7ead37aaa24ae9384e618ec0a2f36ffnat, x4);
    let x5 = 0x3b2849b7afde33579ff31b2d1d264abfa02fb63c60fbfa0a94d45f0451dnat;
    let e5 = 2 * e4 + 1;
    lemma_power_mod_square_times(10nat, e4, n, x4, 0x9de7295f134d5e84a219b0366ad25269d28dce27ae8b7edb77d0da093fb7nat, x5);
    let x6 = 0x1a2eeb42fa18501d404bbfa9b79cd163deae0fb5ec00d19daf017b45ccbenat;
    let e6 = 2 * e5 + 1;
    lemma_power_mod_square_times(10nat, e5, n, x5, 0x4998c633a84a6ab28e7e88192528177f0188ce37fb85bf9501c0bb03d94nat, x6);
    let x7 = 0x18526bf362fa8219e8b9908858d3e629081ed665203f932b9767e7c46667nat;
    let e7 = 2 * e6 + 1;
    lemma_power_mod_square_times(10nat, e6, n, x6, 0xe6adf32fb8a01d64b907058735209ddd6136aaac3551b1fc630fff8db773nat, x7);
    let x8 = 0x7160a563f0ff2e8281c5b7d5935be8f4f57b0908dd254947d58e7c646c2nat;
    let e8 = 2 * e7 + 1;
    lemma_power_mod_square_times(10nat, e7, n, x7, 0xc70c5253fb485591d6b6f04509a0538f212a9dd7703143fa036b0306ce78nat, x8);
    let x9 = 0x12e5b03919e8f217f5396483511ddec3163dd85cca6c6acbf80390778bd7nat;
    let e9 = 2 * e8 + 1;
    lemma_power_mod_square_times(10nat, e8, n, x8, 0x10e5496ba68bad8311674dc8f475eb8dc1f16d779a983583c1bce1b7a623nat, x9);
    let x10 = 0x2ab17b4d574d72c8be5bd39721668f87acebb30b3d01b75ea566cb2ca17nat;
    let e10 = 2 * e9 + 1;
    lemma_power_mod_square_times(10nat, e9, n, x9, 0x7828bd9c47f4824aab545e93e6f9baec8eaca7e2e2eb31763d8a09f5f249nat, x10);
    let x11 = 0x19bf3e36ea7726378960ca745da729a8d75aea0adbd0f5ebe18cb81d68f8nat;
    let e11 = 2 * e10 + 1;
    lemma_power_mod_square_times(10nat, e10, n, x10, 0x2654f6823f22dfeda5743b412ff5d33dd20992584fcce54bae805d43c76nat, x11);
    let x12 = 0x1d7b09e1aa151b33c26150ba13901bb8d67271da501d936e4655078605ddnat;
    let e12 = 2 * e11;
    lemma_power_mod_square(10nat, e11, n, x11, 0x164e41cf070d1ef0e7c1e7e0c3ec07ef333afea80481da26d06f275ba1b9nat, x12);
    let x13 = 0x715c382b1fedf3ff30d1ff3f9f0ddab1424d2b3aadb2e549674ba98b30cnat;
    let e13 = 2 * e12;
    lemma_power_mod_square(10nat, e12, n, x12, 0x1d3e6b5d20ca3f7ccd23d77c363b1333c34523487c40e3468e22a0b12ca7nat, x13);
    let x14 = 0x131d522aef5e09202ab802757b1e3c8ea180d446bb47d8adeeb3e731dd8cnat;
    let e14 = 2 * e13;
    lemma_power_mod_square(10nat, e13, n, x13, 0x1b06591df54e890f1f0b00d9da045f2ed9016859b9630980e2b343f11ccnat, x14);
    let x15 = 0x10633683d0abde47ed5140845538c44e13bfa3d8448df0c427bbeb15d8d1nat;
    let e15 = 2 * e14;
    lemma_power_mod_square(10nat, e14, n, x14, 0xc4b3ac23adbd8c1965e645ecf3c985ee5d7e75801e29e757b85b3fce70dnat, x15);
    let x16 = 0x38e4961185c772b357ab4d9e7443129079c977cdb8d60065b701a3336b3nat;
    let e16 = 2 * e15;
    lemma_power_mod_square(10nat, e15, n, x15, 0x90948cf2cf8e01e0dbbad0a7d1db1c080e66ec1490d20be4f840484886anat, x16);
    let x17 = 0x119e8e60d78c783ef236c47308139263dc7c08e38b9897da2d4a3a5eb24dnat;
    let e17 = 2 * e16;
    lemma_power_mod_square(10nat, e16, n, x16, 0x6ce9935518d8cf9920a34a37cdbd362eb2b220909c678c6acf31e375d4nat, x17);
    let x18 = 0xd1d8532a500d047fc8b2d3fdb4ae5dd222b48dc05341b3527e49537dc17nat;
    let e18 = 2 * e17;
    lemma_power_mod_square(10nat, e17, n, x17, 0xa721f34a5e7671499c8b62d120096cc8e843d63fcd40dfdeb6641c36096nat, x18);
    let x19 = 0x1cdf1caa74ed9a1c0200aa91297fb41c454c55f7fae4734bc7ccb9cafaefnat;
    let e19 = 2 * e18 + 1;
    lemma_power_mod_square_times(10nat, e18, n, x18, 0x39e0eebf67a1d89bb383ee8f2baf96f27bf244151606fd5dd2a94ea30041nat, x19);
    let x20 = 0x1aadbb7e0be2ae3274e62df5e3eb29066bf7144c8622a2c4f04beb48a78bnat;
    let e20 = 2 * e19 + 1;
    lemma_power_mod_square_times(10nat, e19, n, x19, 0x1187aaaaea572dcb020963fb07712bfcf88718a290690f2434fe37c22bb0dnat, x20);
    let x21 = 0xa5bcb6c8a57b427b7f57ebcba2a5904a114edd9a451cc01789741ba29eanat;
    let e21 = 2 * e20 + 1;
    lemma_power_mod_square_times(10nat, e20, n, x20, 0xef7d960d94d5af1495bcf9d315674fb978effe1ebebf7c1d0093b2504d70nat, x21);
    let x22 = 0x18849df023fdee0c9a9bbb53e617ab350de34a7ac6d1f055bdf7979c4fe4nat;
    let e22 = 2 * e21 + 1;
    lemma_power_mod_square_times(10nat, e21, n, x21, 0x241abdb07f57d4d9adbc785f1f5360d854576c466f2b023ce7d3b21189ccnat, x22);
    let x23 = 0x999b2fe7389782b5b63cd539e1ccdab164373ef588b8b8137f2b325cde9nat;
    let e23 = 2 * e22 + 1;
    lemma_power_mod_square_times(10nat, e22, n, x22, 0xca4537c316db9138a8760dd940ded0a4a3846a1b974a7e88b196c4c7c475nat, x23);
    let x24 = 0x14dbcc6799f2d34048197e6907165ed6d8a19169dea822cc494fa5d1e1enat;
    let e24 = 2 * e23 + 1;
    lemma_power_mod_square_times(10nat, e23, n, x23, 0x1f033b426af46caf6937c8fd844fdb11b4c1441715ff5bd3286cdd36e5e4nat, x24);
    let x25 = 0xce637d5e64b6bd2d4f623f825b031facc53a87629fcef864c29bf721f6fnat;
    let e25 = 2 * e24 + 1;
    lemma_power_mod_square_times(10nat, e24, n, x24, 0x926582d5581924eeb9280ae25a2112aa98e92e683176aad039e280fddbnat, x25);
    let x26 = 0x109dcb0f3f4fe3ef88b795947065f58784204f4947421b254f7df4f3a8b3nat;
    let e26 = 2 * e25;
    lemma_power_mod_square(10nat, e25, n, x25, 0x59948eddbb6ae5198f51c5feb16d2e9264f1e4d12334c3b97e7126e60eanat, x26);
    let x27 = 0x14376b23a0e25cc3baac203f2d215c913f5a0f55b840d84517e3996b2b8dnat;
    let e27 = 2 * e26 + 1;
    lemma_power_mod_square_times(10nat, e26, n, x26, 0x5ce763d1333081b8f07c80ce5ae0779dec64010e4dd4ca28002a93365a97nat, x27);
    let x28 = 0x107516c65f6ba8d106246d0817b640c0ca4b54b64a4b373d101de4fb13e3nat;
    let e28 = 2 * e27;
    lemma_power_mod_square(10nat, e27, n, x27, 0xdc08fcba77b1008a2bc880ab4c117b6be73b43313400a5e6026e8541c72nat, x28);
    let x29 = 0x9f57b68da8d45607854298d2ee89c5392697281b4cd2e7ae2405a81bbd6nat;
    let e29 = 2 * e28 + 1;
    lemma_power_mod_square_times(10nat, e28, n, x28, 0x5b2267922b7eebc700420a1ddc8399b4b93fa263fc63fb85c468f9ce6fccnat, x29);
    let x30 = 0x12757a5e703baf6806c6590e5eaf3575b53fcf70b2fea42e65ce2ab273c3nat;
    let e30 = 2 * e29;
    lemma_power_mod_square(10nat, e29, n, x29, 0x356541da60c059c6b115644149e621099db9cc364768d7a0d80c7270f93nat, x30);
    let x31 = 0x16e94e784f391dfae3b9130d4b93417c8320be01f6c464be4b3b44a30f09nat;
    let e31 = 2 * e30;
    lemma_power_mod_square(10nat, e30, n, x30, 0xb77079b368e22a54dfcb507aa0fe7f90cfd9828724d94b1c966d50f8e80nat, x31);
    let x32 = 0x2bcaa6c7514ecfbf015bdd8cedf47eb397147d2b26fce16fbf5094ae784nat;
    let e32 = 2 * e31 + 1;
    lemma_power_mod_square_times(10nat, e31, n, x31, 0xb0a1127315622d80c75682c273c44875a7f7ef40974a309ac314dbeb4612nat, x32);
}

proof fn lemma_power_205115282021455665897114700593932402728804164701536103180137503955397371_over_255515944373312847190720520512484175977_part_3()
    requires
        power_mod(10nat, 0x13ca0fabfd9e01b8c0fe03fa9nat, 0x1db8260e5e3b460a46a0088fccf6a3a5936d75d89a776d4c0da4f338aafbnat) == 0x2bcaa6c7514ecfbf015bdd8cedf47eb397147d2b26fce16fbf5094ae784nat,
    ensures
        power_mod(10nat, 0x27941f57fb3c037181fc07f533eanat, 0x1db8260e5e3b460a46a0088fccf6a3a5936d75d89a776d4c0da4f338aafbnat) == 0x19d441f3febf5bce65222021c607ffc46d3e03b3562954aebbfd16378689nat,
{
    let n = 0x1db8260e5e3b460a46a0088fccf6a3a5936d75d89a776d4c0da4f338aafbnat;
    let e0 = 0x13ca0fabfd9e01b8c0fe03fa9nat;
    let x0 = 0x2bcaa6c7514ecfbf015bdd8cedf47eb397147d2b26fce16fbf5094ae784nat;
    let x1 = 0xd46d477bc8a4ea7faacae420a6cb6b9ac3216f72a37e350b4da8da12abcnat;
    let e1 = 2 * e0 + 1;
    lemma_power_mod_square_times(10nat, e0, n, x0, 0x285459ab128035cf02fd555f3bb433d63e4dc985d5b404526b65efee46cnat, x1);
    let x2 = 0x1864edaaa530d20d1157b2b0b4601b340f77afb8ce9b2468619bc0ff65f3nat;
    let e2 = 2 * e1;
    lemma_power_mod_square(10nat, e1, n, x1, 0x5ee60c050db32b2adc0ccc38a2f88ebdf51fea7ac86fe75239bec35d1c7nat, x2);
    let x3 = 0xdf772c4b076df4e0117aff1ecb6eb9bdf85392f0cb2547b4bdb3395133fnat;
    let e3 = 2 * e2;
    lemma_power_mod_square(10nat, e2, n, x2, 0x1405f7f1245253c4271a1a688c1a419f8eadc05c986acc96442460e9181enat, x3);
    let x4 = 0x1d64165cc25c4792e351594cf71f78f15e7b0efe64494aa29cfb5be0ccbbnat;
    let e4 = 2 * e3 + 1;
    lemma_power_mod_square_times(10nat, e3, n, x3, 0x41a2d05f8974fe12b3233d25b8ebf736d03005ca13b80b4a5df2977b95bdnat, x4);
    let x5 = 0x5d6fbabdc1bd299c2d928f7de8e21b8a429b973614533cc21ab04b9b84cnat;
    let e5 = 2 * e4 + 1;
    lemma_power_mod_square_times(10nat, e4, n, x4, 0x122a98c5d52e1f9ba24764f235e35c00e413564e3189c998365b4bb6db9aanat, x5);
    let x6 = 0x1b7e6e09e0f2eebe8fc2803808f674b367fd6c90e25e2e27f2d153da7ba6nat;
    let e6 = 2 * e5 + 1;
    lemma_power_mod_square_times(10nat, e5, n, x5, 0xb799b2de167d937fef5f6c6e5a4865907d14b55e78854fe93ddae82f0cenat, x6);
    let x7 = 0x1c6cd3f5a1401db2dcba23dbfa95b6d74c1de4d97eb731943771b559bc1anat;
    let e7 = 2 * e6 + 1;
    lemma_power_mod_square_times(10nat, e6, n, x6, 0xfe59bb2a01ff792e6f9df620ab261d0a3fe6036626c40598481749404f8anat, x7);
    let x8 = 0x1a2378db7d38448c2967fcb07149b0eac9c12c8109684a785526e96ca46dnat;
    let e8 = 2 * e7 + 1;
    lemma_power_mod_square_times(10nat, e7, n, x7, 0x10fdf5b5410faee3c6f823c7eb7a940f70721362fa3ac7619021f63d21101nat, x8);
    let x9 = 0xb1a06f98a554e500d88423469b0fa7c41b64afa264478af25a66f2dc97bnat;
    let e9 = 2 * e8;
    lemma_power_mod_square(10nat, e8, n, x8, 0x16fd3e0c259315fe6eb56bd91eadd21284960344e642707a6e877079f36anat, x9);
    let x10 = 0x5752acfc088b4e6a64da1403d2d943a163d894fc3ae7b3e37b5719b0038nat;
    let e10 = 2 * e9 + 1;
    lemma_power_mod_square_times(10nat, e9, n, x9, 0x297867b84652e1e69036a874968310dd7c4564e93aa1de6fec0392fa04a6nat, x10);
    let x11 = 0x1d932a2c2dab34d38c97824f7015f930df05901c06339ebc5f412c49e0benat;
    let e11 = 2 * e10;
    lemma_power_mod_square(10nat, e10, n, x10, 0x10093b9026daf17efa9fed1eff74380c8b822b298f8e18dfd9f1c904ae6nat, x11);
    let x12 = 0x20b11f2f557fb05b7be0f15ef34440b3e809d0bcb9ded4832cd38060d16nat;
    let e12 = 2 * e11 + 1;
    lemma_power_mod_square_times(10nat, e11, n, x11, 0x1264f9b22014d87a055c45388c6b37a2f29935c02fc91b4cac7b5af0df296nat, x12);
    let x13 = 0x19d441f3febf5bce65222021c607ffc46d3e03b3562954aebbfd16378689nat;
    let e13 = 2 * e12;
    lemma_power_mod_square(10nat, e12, n, x12, 0x23f635479aee812d1eb883cf5d507f6c618040a08db55e6650e2a97721nat, x13);
}

proof fn lemma_power_205115282021455665897114700593932402728804164701536103180137503955397371_over_255515944373312847190720520512484175977()
    ensures
        power_mod(10nat, 0x27941f57fb3c037181fc07f533eanat, 0x1db8260e5e3b460a46a0088fccf6a3a5936d75d89a776d4c0da4f338aafbnat) == 0x19d441f3febf5bce65222021c607ffc46d3e03b3562954aebbfd16378689nat,
{
    lemma_power_mod_first(10nat, 0x1db8260e5e3b460a46a0088fccf6a3a5936d75d89a776d4c0da4f338aafbnat);
    lemma_power_205115282021455665897114700593932402728804164701536103180137503955397371_over_255515944373312847190720520512484175977_part_0();
    lemma_power_205115282021455665897114700593932402728804164701536103180137503955397371_over_255515944373312847190720520512484175977_part_1();
    lemma_power_205115282021455665897114700593932402728804164701536103180137503955397371_over_255515944373312847190720520512484175977_part_2();
    lemma_power_205115282021455665897114700593932402728804164701536103180137503955397371_over_255515944373312847190720520512484175977_part_3();
}

proof fn lemma_certificate_205115282021455665897114700593932402728804164701536103180137503955397371()
    ensures
        is_certificate(0x1db8260e5e3b460a46a0088fccf6a3a5936d75d89a776d4c0da4f338aafbnat, 10nat, seq![2nat, 3nat, 5nat, 29nat, 29nat, 31nat, 7723nat, 0x1c245bc19c3dfa0c4ab7nat, 0xc03a94b2d3e64419a05cd8ccbf987069nat]),
{
    let n = 0x1db8260e5e3b460a46a0088fccf6a3a5936d75d89a776d4c0da4f338aafbnat;
    let factors = seq![2nat, 3nat, 5nat, 29nat, 29nat, 31nat, 7723nat, 0x1c245bc19c3dfa0c4ab7nat, 0xc03a94b2d3e64419a05cd8ccbf987069nat];
    lemma_small_primes();
    lemma_small_primes();
    lemma_small_primes();
    lemma_prime_29();
    lemma_prime_31();
    lemma_prime_7723();
    lemma_prime_132896956044521568488119();
    lemma_prime_255515944373312847190720520512484175977();
    lemma_power_205115282021455665897114700593932402728804164701536103180137503955397371_over_2();
    lemma_fundamental_div_mod_converse(0x1db8260e5e3b460a46a0088fccf6a3a5936d75d89a776d4c0da4f338aafaint, 2int, 0xedc13072f1da30523500447e67b51d2c9b6baec4d3bb6a606d2799c557dint, 0);
    lemma_power_205115282021455665897114700593932402728804164701536103180137503955397371_over_3();
    lemma_fundamental_div_mod_converse(0x1db8260e5e3b460a46a0088fccf6a3a5936d75d89a776d4c0da4f338aafaint, 3int, 0x9e80caf74be6cae178aad854452368c8679d1f2de27cf1959e1a66838feint, 0);
    lemma_power_205115282021455665897114700593932402728804164701536103180137503955397371_over_5();
    lemma_fundamental_div_mod_converse(0x1db8260e5e3b460a46a0088fccf6a3a5936d75d89a776d4c0da4f338aafaint, 5int, 0x5f1a13612d8a79ba7b99b4ff5caed8783e2b12b5217e2a8cf8763d82232int, 0);
    lemma_power_205115282021455665897114700593932402728804164701536103180137503955397371_over_29();
    lemma_fundamental_div_mod_converse(0x1db8260e5e3b460a46a0088fccf6a3a5936d75d89a776d4c0da4f338aafaint, 29int, 0x1065996907da14fcd7846ea79d38a0e897f5c56ead7faf0f7a495a0d9c2int, 0);
    lemma_power_205115282021455665897114700593932402728804164701536103180137503955397371_over_31();
    lemma_fundamental_div_mod_converse(0x1db8260e5e3b460a46a0088fccf6a3a5936d75d89a776d4c0da4f338aafaint, 31int, 0xf56c951bd05d191b0d6ba18abda22ea1a8b138891ca06dcee449e90dc6int, 0);
    lemma_power_205115282021455665897114700593932402728804164701536103180137503955397371_over_7723();
    lemma_fundamental_div_mod_converse(0x1db8260e5e3b460a46a0088fccf6a3a5936d75d89a776d4c0da4f338aafaint, 7723int, 0xfc316459b49913dd5922a87340e42d65fa03f8fe204453cc9bf55deeint, 0);
    lemma_power_205115282021455665897114700593932402728804164701536103180137503955397371_over_132896956044521568488119();
    lemma_fundamental_div_mod_converse(0x1db8260e5e3b460a46a0088fccf6a3a5936d75d89a776d4c0da4f338aafaint, 0x1c245bc19c3dfa0c4ab7int, 0x10e592a395ad6cb8ff48d3cfcb53eaec04e617ad6int, 0);
    lemma_power_205115282021455665897114700593932402728804164701536103180137503955397371_over_255515944373312847190720520512484175977();
    lemma_fundamental_div_mod_converse(0x1db8260e5e3b460a46a0088fccf6a3a5936d75d89a776d4c0da4f338aafaint, 0xc03a94b2d3e64419a05cd8ccbf987069int, 0x27941f57fb3c037181fc07f533eaint, 0);
    lemma_power_mod_square(10nat, 0xedc13072f1da30523500447e67b51d2c9b6baec4d3bb6a606d2799c557dnat, n, 0x1db8260e5e3b460a46a0088fccf6a3a5936d75d89a776d4c0da4f338aafanat, 0x1db8260e5e3b460a46a0088fccf6a3a5936d75d89a776d4c0da4f338aaf9nat, 1);
    let f0 = Seq::<nat>::empty();
    lemma_product_push(f0, 2nat, 1nat);
    let f1 = f0.push(2nat);
    lemma_product_push(f1, 3nat, 2nat);
    let f2 = f1.push(3nat);
    lemma_product_push(f2, 5nat, 6nat);
    let f3 = f2.push(5nat);
    lemma_product_push(f3, 29nat, 30nat);
    let f4 = f3.push(29nat);
    lemma_product_push(f4, 29nat, 870nat);
    let f5 = f4.push(29nat);
    lemma_product_push(f5, 31nat, 25230nat);
    let f6 = f5.push(31nat);
    lemma_product_push(f6, 7723nat, 782130nat);
    let f7 = f6.push(7723nat);
    lemma_product_push(f7, 0x1c245bc19c3dfa0c4ab7nat, 0x168090966nat);
    let f8 = f7.push(0x1c245bc19c3dfa0c4ab7nat);
    lemma_product_push(f8, 0xc03a94b2d3e64419a05cd8ccbf987069nat, 0x27941f57fb3c037181fc07f533eanat);
    let f9 = f8.push(0xc03a94b2d3e64419a05cd8ccbf987069nat);
    assert(factors =~= f9);
    assert forall|j: int| 0 <= j < factors.len() implies is_prime(#[trigger] factors[j])
        && power_mod(10nat, ((n - 1) / factors[j] as int) as nat, n) != 1 by {
        if j == 0 {
        } else if j == 1 {
        } else if j == 2 {
        } else if j == 3 {
        } else if j == 4 {
        } else if j == 5 {
        } else if j == 6 {
        } else if j == 7 {
        } else if j == 8 {
        }
    }
}

/// 205115282021455665897114700593932402728804164701536103180137503955397371 is prime.
pub(crate) proof fn lemma_prime_205115282021455665897114700593932402728804164701536103180137503955397371()
    ensures
        is_prime(0x1db8260e5e3b460a46a0088fccf6a3a5936d75d89a776d4c0da4f338aafbnat),
{
    lemma_certificate_205115282021455665897114700593932402728804164701536103180137503955397371();
    lemma_certified_prime(0x1db8260e5e3b460a46a0088fccf6a3a5936d75d89a776d4c0da4f338aafbnat, 10nat, seq![2nat, 3nat, 5nat, 29nat, 29nat, 31nat, 7723nat, 0x1c245bc19c3dfa0c4ab7nat, 0xc03a94b2d3e64419a05cd8ccbf987069nat]);
}

proof fn lemma_power_field_prime_over_2_part_0()
    requires
        power_mod(3nat, 1nat, 0xfffffffffffffffffffffffffffffffffffffffffffffffffffffffefffffc2fnat) == 3nat,
    ensures
        power_mod(3nat, 0x1ffffffffnat, 0xfffffffffffffffffffffffffffffffffffffffffffffffffffffffefffffc2fnat) == 0xb52360484528281014372347b60d30e1f37f6f9a82ac2b251bc8d3c52b2c0701nat,
{
    let n = 0xfffffffffffffffffffffffffffffffffffffffffffffffffffffffefffffc2fnat;
    let e0 = 1nat;
    let x0 = 3nat;
    let x1 = 27nat;
    let e1 = 2 * e0 + 1;
    lemma_power_mod_square_times(3nat, e0, n, x0, 0nat, x1);
    let x2 = 2187nat;
    let e2 = 2 * e1 + 1;
    lemma_power_mod_square_times(3nat, e1, n, x1, 0nat, x2);
    let x3 = 0xdaf26bnat;
    let e3 = 2 * e2 + 1;
    lemma_power_mod_square_times(3nat, e2, n, x2, 0nat, x3);
    let x4 = 0x231c54b5f6a2bnat;
    let e4 = 2 * e3 + 1;
    lemma_power_mod_square_times(3nat, e3, n, x3, 0nat, x4);
    let x5 = 0xe7246e52fd310b7d97dd4e9abnat;
    let e5 = 2 * e4 + 1;
    lemma_power_mod_square_times(3nat, e4, n, x4, 0nat, x5);
    let x6 = 0x272184cdaf3736f0fa54c1d8529a9294bcc2ac0b180838228abnat;
    let e6 = 2 * e5 + 1;
    lemma_power_mod_square_times(3nat, e5, n, x5, 0nat, x6);
    let x7 = 0x428f4f92af1aaa80aa5807dbf2753893e1cae8fbd458136614dd83cec8a472dfnat;
    let e7 = 2 * e6 + 1;
    lemma_power_mod_square_times(3nat, e6, n, x6, 0x11f1b08e87ec42c5d83c3218fc83c41dcfd9f4nat, x7);
    let x8 = 0x9acf728778563831256470f743d5283ded456cc80ac487fdd93765727d56b66cnat;
    let e8 = 2 * e7 + 1;
    lemma_power_mod_square_times(3nat, e7, n, x7, 0x33ea9fc4e2afb37a70fd2a896bc25a8b1ab79e10c1eca884a7a347db1190c859nat, x8);
    let x9 = 0xfc6691c71fee49a8f597a1f1ddef43bbcf05ff2dd88cada3aa05b8242b651d25nat;
    let e9 = 2 * e8 + 1;
    lemma_power_mod_square_times(3nat, e8, n, x8, 0x118dab9b0354bd1b4ca09e198d751068bdffb915cbf5af97e2133e2ffa42bf365nat, x9);
    let x10 = 0x8bb05f7ec37fdc1a9fda33dc385d6d2c6b7f81f93f9ae9c8bdcbdaccba37ee31nat;
    let e10 = 2 * e9 + 1;
    lemma_power_mod_square_times(3nat, e9, n, x9, 0x2ea8e48498da93fe1ca1d2e9257188293b5368e4875836ce3d0aafa8dc9de1d46nat, x10);
    let x11 = 0x9eba5415c065cbb6262d3485a4d1fd7e906bb0c1233f23ae8a83f63171543e18nat;
    let e11 = 2 * e10 + 1;
    lemma_power_mod_square_times(3nat, e10, n, x10, 0xe4ab03a54eaaf6147025a31b516ebbf20d585505516ebd1fdfe18f7f14c024e5nat, x11);
    let x12 = 0x8345979cf866f3da208a4eef65dcd37d7f628f31ac71ca397d0df4586f1824a3nat;
    let e12 = 2 * e11 + 1;
    lemma_power_mod_square_times(3nat, e11, n, x11, 0x1273f963b6e268a766061408271e40a3804d1ad6c28db36938545fbce2403d773nat, x12);
    let x13 = 0x400cbde07d5d64fb56b792bbba82a6cc141bf8fc5806b6cd25d4c05e42210430nat;
    let e13 = 2 * e12 + 1;
    lemma_power_mod_square_times(3nat, e12, n, x12, 0xc9f0e4412fe5770d792db850ae63c69b82f67298f5ddb027e97e1d1093ec45c5nat, x13);
    let x14 = 0x848e7dd5b96c9cddb824520d0cdd38b1d45b7fc8d677719b647263f3ea7acfa2nat;
    let e14 = 2 * e13 + 1;
    lemma_power_mod_square_times(3nat, e13, n, x13, 0x30131eb7c9af13a40094457337b3283e81e75b749f7e6eb6ba5a443d4c9f9d02nat, x14);
    let x15 = 0xa7a3b4f555dbd467f6362da18bb9e362cf8f36353e2abc66391d46b68b8a1a1bnat;
    let e15 = 2 * e14 + 1;
    lemma_power_mod_square_times(3nat, e14, n, x14, 0xcde9c33cba845f4e764c5d78aef3918c9999037aac7fb103029cd358e23c085fnat, x15);
    let x16 = 0xcfe53cf74369f792c6f3513a256182e25abb9397a53fbf9f8cacfd2896c9c0f7nat;
    let e16 = 2 * e15 + 1;
    lemma_power_mod_square_times(3nat, e15, n, x15, 0x14954fc58130e32c021a214b7667baa436008e32daf7a6510c24c4ff186fc74acnat, x16);
    let x17 = 0x27e21c931b1c3dee5fdfeff3d073d077bf8f30e2e7a858d3c90377512594ffbbnat;
    let e17 = 2 * e16 + 1;
    lemma_power_mod_square_times(3nat, e16, n, x16, 0x1fa7d9199ffba71235bdbcfd7842316128e1a8e629de8ea9c63ee8b994e180248nat, x17);
    let x18 = 0xc39e6a3a89f3ea88cac7f88e2ca5a5b6a3c0265243fb9b0786b2ed0e12e728f5nat;
    let e18 = 2 * e17 + 1;
    lemma_power_mod_square_times(3nat, e17, n, x17, 0x12a40541db8cf196e6d53e3acd0bc095030d6d57de1b7b32c2e9e256c049db0anat, x18);
    let x19 = 0x6dab1d8a3bf75ac6b6abc52dd766a5b3f18792f4708d051eba08a495953b5b06nat;
    let e19 = 2 * e18 + 1;
    lemma_power_mod_square_times(3nat, e18, n, x18, 0x1c07027956f813808129870832aad8f5dad2452b5170964254117086cc17b2fabnat, x19);
    let x20 = 0x85d133436f84929bb1e6411981417071e1d797a29a7b2019d62138b935901f84nat;
    let e20 = 2 * e19 + 1;
    lemma_power_mod_square_times(3nat, e19, n, x19, 0x8cf17c98937013f1b4f3718e9d206a7eb2294e439150ed58645be5ca4a27df98nat, x20);
    let x21 = 0xc4377998c16cab52c246ed91f886912b36b4436106c65baf620b61e783bd29b8nat;
    let e21 = 2 * e20 + 1;
    lemma_power_mod_square_times(3nat, e20, n, x20, 0xd1d91eaa70bf54fea25e3352939d20255e4988d08b92e0efa1017dfef15ca708nat, x21);
    let x22 = 0x1f59e25aa6d437a128277f8a90986e054f8e456f680c3bac30cb3b43e99b4e7dnat;
    let e22 = 2 * e21 + 1;
    lemma_power_mod_square_times(3nat, e21, n, x21, 0x1c32efaa624b9cf15fc9265e96a7e7037a68670009da19a221efd368f74a0662dnat, x22);
    let x23 = 0xbffaa6b492e0a69ce1eea76ca43641044ccb5098cb03fda422f95b727f40df0anat;
    let e23 = 2 * e22 + 1;
    lemma_power_mod_square_times(3nat, e22, n, x22, 0xb84ad235ebabb1065cd25e430387aac1896045cdba2b685ca2edad65f7fdbbfnat, x23);
    let x24 = 0xf5027a3e00e9d15ab305fa2eeb158ed3d10e99b7941d94f062d2528d11c4cdffnat;
    let e24 = 2 * e23 + 1;
    lemma_power_mod_square_times(3nat, e23, n, x23, 0x1afe7ee82693a4fb9336a7a43d3f05771b53ddcc8e08817855087135d5829df63nat, x24);
    let x25 = 0x5bb5bc5a49306d7cc687086c788792a0af68778b93f7b8d4b99dca5e41985ef1nat;
    let e25 = 2 * e24 + 1;
    lemma_power_mod_square_times(3nat, e24, n, x24, 0x2bf793a02734422c686a2c73ea713cf80d802432e5aee9876bf7f141c5694058enat, x25);
    let x26 = 0xd4250cc44f90a088f0988a6f7bea8c637c71115021d67459a2576b9aa23c1c0dnat;
    let e26 = 2 * e25 + 1;
    lemma_power_mod_square_times(3nat, e25, n, x25, 0x62901ec436d9f6f89a18e5920bb107b125e6d94aada9528c2fc6acdee4b5554anat, x26);
    let x27 = 0xea1a6cfb9d09b2d8345017604cbc654731df9a36aeeb41a2df6ac073f4444e60nat;
    let e27 = 2 * e26 + 1;
    lemma_power_mod_square_times(3nat, e26, n, x26, 0x20f6827857f7c971219ee4b3aa9b6ff127cf18b0c54ecd2d7ed45d05045ba8055nat, x27);
    let x28 = 0x6f07bee10f13619bbdce1f367b7ca3534a54794ea6a7b0f32cec2516437f33cnat;
    let e28 = 2 * e27 + 1;
    lemma_power_mod_square_times(3nat, e27, n, x27, 0x2823cf5e2e5c4ae2b3b6732829ecb21f0d94c24d043b4519dfaf4e68c7fa8ce7cnat, x28);
    let x29 = 0x37bdd102ef908460d9fd3a5c98723973a8ee4d3a2ca11345d9e42672f976ffc1nat;
    let e29 = 2 * e28 + 1;
    lemma_power_mod_square_times(3nat, e28, n, x28, 0x907727497d1d6dd200df7a4153e4e5138b3c3568b8ec12560dd5b6a387adc1nat, x29);
    let x30 = 0x1affa7005a7cb0daaf74f820cca4621ee8a3ef432fb3e6ccdbd65810e8c8c1b5nat;
    let e30 = 2 * e29 + 1;
    lemma_power_mod_square_times(3nat, e29, n, x29, 0x246955a8a3c2de6701cc27929fbf1703fa82b3a6a05f2aa4556b4fc738ed8692nat, x30);
    let x31 = 0xa4bec0499d1ef73eb26dbdff263df80bc35a895aba9f495f7189a7e08f379183nat;
    let e31 = 2 * e30 + 1;
    lemma_power_mod_square_times(3nat, e30, n, x30, 0x88ac7ae96152b2aaa139647781c86bf5b7736a08a51bcb2beb9612720667818nat, x31);
    let x32 = 0xb52360484528281014372347b60d30e1f37f6f9a82ac2b251bc8d3c52b2c0701nat;
    let e32 = 2 * e31 + 1;
    lemma_power_mod_square_times(3nat, e31, n, x31, 0x13e0edd80ed0a36ca4dea883746f7254e9615b89289de12e6feaaa096b253e506nat, x32);
}

proof fn lemma_power_field_prime_over_2_part_1()
    requires
        power_mod(3nat, 0x1ffffffffnat, 0xfffffffffffffffffffffffffffffffffffffffffffffffffffffffefffffc2fnat) == 0xb52360484528281014372347b60d30e1f37f6f9a82ac2b251bc8d3c52b2c0701nat,
    ensures
        power_mod(3nat, 0x1ffffffffffffffffnat, 0xfffffffffffffffffffffffffffffffffffffffffffffffffffffffefffffc2fnat) == 0x4864198571315242486d42043b1e5fda71a84bd8572226ede4ae2ebf0b12429fnat,
{
    let n = 0xfffffffffffffffffffffffffffffffffffffffffffffffffffffffefffffc2fnat;
    let e0 = 0x1ffffffffnat;
    let x0 = 0xb52360484528281014372347b60d30e1f37f6f9a82ac2b251bc8d3c52b2c0701nat;
    let x1 = 0x551d9af7085e69c9d1456d3bdd83922d58ff8204873bddf1e7d237d81e3a1775nat;
    let e1 = 2 * e0 + 1;
    lemma_power_mod_square_times(3nat, e0, n, x0, 0x18081211cfd4bedb458e64932f61f638bdabdae4aa9fcfd7f325b44c31d0e0cd2nat, x1);
    let x2 = 0x4403329458b42e04cacfc222710bc7584aa2bb9aa7e86c8eb8e39b1edd3202a3nat;
    let e2 = 2 * e1 + 1;
    lemma_power_mod_square_times(3nat, e1, n, x1, 0x54e604fd8ffe34442f4b82c4ff2eb47a8bed546c26c93dd34a91f1164905f2b8nat, x2);
    let x3 = 0xbe7e8164d7cbd6d382fd3c6dd9719ad9b1bbef53b6a2d717622dcbcd6695b1a9nat;
    let e3 = 2 * e2 + 1;
    lemma_power_mod_square_times(3nat, e2, n, x2, 0x363518bb19c83fda12b3b9a9a215c44996e1ab094b33799e23aaa9eada892aeenat, x3);
    let x4 = 0x992422dc59aa8d5b5a74b382eb0adff1c001f708c2b89463fa30120b9d1ae480nat;
    let e4 = 2 * e3 + 1;
    lemma_power_mod_square_times(3nat, e3, n, x3, 0x1a94013bff2f95a3a7ee992255025fe8e93a438a15d1d5be7b5113f91d149e73dnat, x4);
    let x5 = 0x56caf5b82e0ac1e12ea48c41c4f864bf4533cbe85b862b347270fac1a5d74f4nat;
    let e5 = 2 * e4 + 1;
    lemma_power_mod_square_times(3nat, e4, n, x4, 0x112d4a44fa1b30f3f79b8910b06ee5cbabef5e3b8ecfd98567b7896ab055d26b4nat, x5);
    let x6 = 0x275e1cb42f7082ed2d39e60d87be9526e5014d92a3c45ef7045884194ac37ec4nat;
    let e6 = 2 * e5 + 1;
    lemma_power_mod_square_times(3nat, e5, n, x5, 0x5846fa015455cfa034a33d0c8af3f8b76e2e8f9ca188c9ec43c2463ab57cd4nat, x6);
    let x7 = 0x10e751a5d546793124f73ba990b582f1f75252aedcbce89d45d2436d2d2f16danat;
    let e7 = 2 * e6 + 1;
    lemma_power_mod_square_times(3nat, e6, n, x6, 0x12296e07f9fd172750d212adba6866c9687c0f66020ca804cb6135c56358968anat, x7);
    let x8 = 0x724562221b1155dabda98bc08467638024dd3f99165b8c82108096da26a6bfb3nat;
    let e8 = 2 * e7 + 1;
    lemma_power_mod_square_times(3nat, e7, n, x7, 0x35931ab89ee32283795dc59c0f386e0ed0bfb3749b6a2b1128da932c4ca6317nat, x8);
    let x9 = 0xb242d82fb40650461b8ed804b99fb657a2e634898ed2041dcc8f4157fd0cdacfnat;
    let e9 = 2 * e8 + 1;
    lemma_power_mod_square_times(3nat, e8, n, x8, 0x99059a9d44547b3ab6188b60eac1bd2041617e02e07bbd575e1b6295a59d7914nat, x9);
    let x10 = 0xf1b00382172582f5c02727ce561562bc34470593911244d33799303277a4f3f3nat;
    let e10 = 2 * e9 + 1;
    lemma_power_mod_square_times(3nat, e9, n, x9, 0x17463124390866ab3688c8a06b8497d6014405fd16badacbda858ead32a8640d0nat, x10);
    let x11 = 0x1543a5e19cee10d981cb40f11187773d256e3e4685733980643baad3ae3afa5nat;
    let e11 = 2 * e10 + 1;
    lemma_power_mod_square_times(3nat, e10, n, x10, 0x2ac869edf4782486780dd61b9b926f5433fe0938b507f75f9e46bb4c4d055478anat, x11);
    let x12 = 0xa5e9f793b846aad4cad70f3d0a36802a3b659c8fe6b1852bc1190f11602eccf8nat;
    let e12 = 2 * e11 + 1;
    lemma_power_mod_square_times(3nat, e11, n, x11, 0x54c8145c9fb6b81d89edfda5f55cec16c3d7bafe59ddf392c03d3097b195dnat, x12);
    let x13 = 0x9dbcbc09f604e75c2921b6176f70b21f191ef17a4fa9ded41ec993d04d93430dnat;
    let e13 = 2 * e12 + 1;
    lemma_power_mod_square_times(3nat, e12, n, x12, 0x142964ceb119cc30c58d4c9fa61d88c0ec5b05df56bf39ec0e41630cd89ab11bdnat, x13);
    let x14 = 0xdecfa12ba3ff9e06612fafa51384cd0b591710f3f6d942ef93f0be4e52b8ac93nat;
    let e14 = 2 * e13 + 1;
    lemma_power_mod_square_times(3nat, e13, n, x13, 0x123931d5ad185f61fd32e71794bd7f73ad32c51e0077fa39b36c36c58bf72d518nat, x14);
    let x15 = 0x147dde6e03e759793a5d6dc0ee65aee64495226f08db33cf5b15aa5a3e75eebcnat;
    let e15 = 2 * e14 + 1;
    lemma_power_mod_square_times(3nat, e14, n, x14, 0x245c64bc92f6f6b85edb77bd1e9543d91b3253836f91ddfa40ad1fdb4f481d6b1nat, x15);
    let x16 = 0x3c949a3d0bd68ad04c4ee8bf09609d284c873a74fca4170d0eda99f018b5e32bnat;
    let e16 = 2 * e15 + 1;
    lemma_power_mod_square_times(3nat, e15, n, x15, 0x4ebb9ec7becdbdec2aff0e4e12a01355e0ece4a0b90c35f92f74daee2d27b0bnat, x16);
    let x17 = 0x3c51623d0bb892f98e0db0f6fa643ad70dceb6255d6b79a9bb328eb363dee2d3nat;
    let e17 = 2 * e16 + 1;
    lemma_power_mod_square_times(3nat, e16, n, x16, 0x2b01fbadf32f45ccb93e5d6cb6f572260b111163df4fc743003f11d5bbe9a6a8nat, x17);
    let x18 = 0x433f146dfa0b87d329c6690271a5740300fbbbc2c47728a7bc332100c8bae44nat;
    let e18 = 2 * e17 + 1;
    lemma_power_mod_square_times(3nat, e17, n, x17, 0x2aa2bfc3c97831adaa9a6708f6ff83d0f1b41678a10a47dcc439f66cc86d7739nat, x18);
    let x19 = 0xb9595ce668404b384cae8eb13c8432ed80eda825fbf10a63061a30f1e988916dnat;
    let e19 = 2 * e18 + 1;
    lemma_power_mod_square_times(3nat, e18, n, x18, 0x34fe3cb5e1ed6b423334ca4ec3938926bf79c8fecace0b8284880b0915c7adnat, x19);
    let x20 = 0x480dfe8654fb9cb990a3abb7d99142f888f04a5dec7eaaf03c9ad676ff0c77e8nat;
    let e20 = 2 * e19 + 1;
    lemma_power_mod_square_times(3nat, e19, n, x19, 0x19296d66435c77b2c20109b72346b6c111d1837ca901195e79c683ee82439101dnat, x20);
    let x21 = 0x47e9aee8e413648b3f48eec3d13e3e5e7339ca11164ecca22c6ad4dc01cfce59nat;
    let e21 = 2 * e20 + 1;
    lemma_power_mod_square_times(3nat, e20, n, x20, 0x3cd79fce3383028400796df09db25d2988455efc51ad11442ca177a9eca06149nat, x21);
    let x22 = 0x428628f3054a448c362717b6ca9bb708af17d729600bae1f29cfe5e8f2b2d39dnat;
    let e22 = 2 * e21 + 1;
    lemma_power_mod_square_times(3nat, e21, n, x21, 0x3c9a5cff1dda04f068cd2e879c7a41b25fcf3d8cd4f119ad5a2d8053b4391aaanat, x22);
    let x23 = 0x10b42a93eb9ced8e9ac190c5b306c784ee39e59bdcea60ad92715b09609124e6nat;
    let e23 = 2 * e22 + 1;
    lemma_power_mod_square_times(3nat, e22, n, x22, 0x33dc5a449b120856edb05971d4f47a70d9c3af70cc562495ebf3aafc6568c31bnat, x23);
    let x24 = 0x59ef3b924b2f757bc15a31f83b7dc697ec8558d7966157e7d9851c72511e53e1nat;
    let e24 = 2 * e23 + 1;
    lemma_power_mod_square_times(3nat, e23, n, x23, 0x3450c5b2da3737772b4c18f35ad35d299cf3c9064ea008d75feb3cc6abd0ee5nat, x24);
    let x25 = 0xb718dff654f3856290a8757f32611c05b9df6a4902d2520f170428d165a57511nat;
    let e25 = 2 * e24 + 1;
    lemma_power_mod_square_times(3nat, e24, n, x24, 0x5ec8a4f403e46dad65a4e338a444735baa8d6cf3b2b8ebf815f020949f096e6enat, x25);
    let x26 = 0xa2009c42994349deee2243f215254654ce7f26c7896173225aae8c1d8f8fde72nat;
    let e26 = 2 * e25 + 1;
    lemma_power_mod_square_times(3nat, e25, n, x25, 0x188ddb7d6ceb9822aafa8409dafa74f0446d29e92286760dfda11df1a7992cadfnat, x26);
    let x27 = 0xba3daed6c42c569b4025f7ff4a2dbd1b3ef186b24067cd82d17e652e1f06bbb1nat;
    let e27 = 2 * e26 + 1;
    lemma_power_mod_square_times(3nat, e26, n, x26, 0x1338e514dfc0f30d29d9bf57577ab421c0be76cb302fd69633e7619ac38a90755nat, x27);
    let x28 = 0x55684dcfc6690e4048777a1dd2960b15d1372d0323bd2f2ce7106ccc224c7a74nat;
    let e28 = 2 * e27 + 1;
    lemma_power_mod_square_times(3nat, e27, n, x27, 0x1967912c69c77b57b202a8490e2d702def6019d8bf8483f2dec42e1f78044cd81nat, x28);
    let x29 = 0xa020ed9e789a47b7b66f936e1fa1de9dd8f5554cb77825b023fb4853c20666a3nat;
    let e29 = 2 * e28 + 1;
    lemma_power_mod_square_times(3nat, e28, n, x28, 0x557b4a81deacdc6fcbc9d6a0a91e8f77ff64cd74ce5a9aa5732059d8309c1583nat, x29);
    let x30 = 0x2abae635ab7565cbc39db5ffd814933b88adef4bb7441a3d628722b1ebe54772nat;
    let e30 = 2 * e29 + 1;
    lemma_power_mod_square_times(3nat, e29, n, x29, 0x12c7b87c710c968daf60e48deabc8ee2fb0556ba19ca477e9c88b692c8ec4eb67nat, x30);
    let x31 = 0xef73176e09d4d6ee3ae302a142e9613963ce442d4a3595d7bf996ac24e6284dcnat;
    let e31 = 2 * e30 + 1;
    lemma_power_mod_square_times(3nat, e30, n, x30, 0x156593f6d3cc760285ed03c5ab3534c102805713bb192dd2f535d8412c35a390nat, x31);
    let x32 = 0x4864198571315242486d42043b1e5fda71a84bd8572226ede4ae2ebf0b12429fnat;
    let e32 = 2 * e31 + 1;
    lemma_power_mod_square_times(3nat, e31, n, x31, 0x29fe84c7890179acfd9aed6bae59d4c682758285922f5f23c1b9459b9ec948b3fnat, x32);
}

proof fn lemma_power_field_prime_over_2_part_2()
    requires
        power_mod(3nat, 0x1ffffffffffffffffnat, 0xfffffffffffffffffffffffffffffffffffffffffffffffffffffffefffffc2fnat) == 0x4864198571315242486d42043b1e5fda71a84bd8572226ede4ae2ebf0b12429fnat,
    ensures
        power_mod(3nat, 0x1ffffffffffffffffffffffffnat, 0xfffffffffffffffffffffffffffffffffffffffffffffffffffffffefffffc2fnat) == 0xd8fe4da7673f25590aa089e8b457ebcd5416ad9c7e71808dbf714a7758b65935nat,
{
    let n = 0xfffffffffffffffffffffffffffffffffffffffffffffffffffffffefffffc2fnat;
    let e0 = 0x1ffffffffffffffffnat;
    let x0 = 0x4864198571315242486d42043b1e5fda71a84bd8572226ede4ae2ebf0b12429fnat;
    let x1 = 0xa0fca8532ce6b7c0afde9d4768b695f3f2c9af82ec5f361bee9b4f7d94cf6ce2nat;
    let e1 = 2 * e0 + 1;
    lemma_power_mod_square_times(3nat, e0, n, x0, 0x3d69607d07668767f9a91ce4fa2c35c4a368ae292bde36a9d1fa8eb1f7f3596fnat, x1);
    let x2 = 0x808d8da2cff1d7e644670d943eda5f31373fa79faec74ce0a2de4bee2d5add97nat;
    let e2 = 2 * e1 + 1;
    lemma_power_mod_square_times(3nat, e1, n, x1, 0x12fb6634b5faa359ec18a0f3a2c870d9434a1ab189e33a216291ce40b7bcb101bnat, x2);
    let x3 = 0x3c4d1a42bcdb5107df1cfd53cc8afb3791dde743713ccb6b42bf37440557ba6anat;
    let e3 = 2 * e2 + 1;
    lemma_power_mod_square_times(3nat, e2, n, x2, 0xc1a993b86af6fabf04a0e87fab5e61d2af2b07ead8c09d334915474c3e636a87nat, x3);
    let x4 = 0x32d4f131f4d86d88a4c770f4dfda8421c6901e21fdd06dffb0b392843565f2e0nat;
    let e4 = 2 * e3 + 1;
    lemma_power_mod_square_times(3nat, e3, n, x3, 0x2a9cb298461a1d06b8901f67b68663ad0be93ac1eee8b681c92392aafef974f4nat, x4);
    let x5 = 0xccf4eeafbb914988f3204426aa828b9cad1bfee086efda00d5bd7e99b858c82dnat;
    let e5 = 2 * e4 + 1;
    lemma_power_mod_square_times(3nat, e4, n, x4, 0x1e479e07a4e37df9c9d3ec547acee9a5ac1ef85922b661712ca267365e49959dnat, x5);
    let x6 = 0xa79bf04ba79f0111d64b260c0854627daa92238181237cbfb2f0139d3d065f79nat;
    let e6 = 2 * e5 + 1;
    lemma_power_mod_square_times(3nat, e5, n, x5, 0x1ec45d43fd168fa9fae00e9eb2b3a51e704c03bd6d26b71b44731c5d4d4e4215enat, x6);
    let x7 = 0xba8b913c157657339e4ca794dd73304a8bd562983dc654044de2951a80f9cf33nat;
    let e7 = 2 * e6 + 1;
    lemma_power_mod_square_times(3nat, e6, n, x6, 0x14936777eb5951bc30855592383ab41c618e998303a475851a4ad37b67095a7a0nat, x7);
    let x8 = 0x81a7d403955361f6394e3abb5e654eef93322ee6ea97344fd767ee90f2a6525anat;
    let e8 = 2 * e7 + 1;
    lemma_power_mod_square_times(3nat, e7, n, x7, 0x197cd51670a7d2aeb7c69cfdef1731031943c284993e30bc88965d16c30f10aafnat, x8);
    let x9 = 0xfffb1580313f7d2f54e00015ec3cac1b1e88d186166742d3f11f5252770a4d27nat;
    let e9 = 2 * e8 + 1;
    lemma_power_mod_square_times(3nat, e8, n, x8, 0xc4ffb515ba4260a8b2e9a364f9a91b6a4b459a440a5f9b958d16f236c498584bnat, x9);
    let x10 = 0x5ca342863f8b2983b0bdfa470e20042226d76781716b881911dcd6526e92c245nat;
    let e10 = 2 * e9 + 1;
    lemma_power_mod_square_times(3nat, e9, n, x9, 0x2ffe28149a7e2027c6c35010951e7bd537fd91d27c6a279207731ea9499e39dd2nat, x10);
    let x11 = 0x435d306b907aef6656fa01ea73a44a6f1f8638eaf990ea527b84d6ecff55b616nat;
    let e11 = 2 * e10 + 1;
    lemma_power_mod_square_times(3nat, e10, n, x10, 0x64913fcad1bf50a792ca4eab13e595c33b5df8eb5fa3c7ce69dd3ac81cb8b75bnat, x11);
    let x12 = 0xd2ecb92f5921a947994d717a47f6e4536be6229d85e32570f125d6c3f0aeebe5nat;
    let e12 = 2 * e11 + 1;
    lemma_power_mod_square_times(3nat, e11, n, x11, 0x352dbbcd8ecf82051be54586458dd4510932f7a7836beb86facc620dd7b285e9nat, x12);
    let x13 = 0x21e4ef244d0a50578b5ec360fcab23a038daae68b99a0913c3a2fa28d286d67nat;
    let e13 = 2 * e12 + 1;
    lemma_power_mod_square_times(3nat, e12, n, x12, 0x2095bb026ea77161a3abb4ed8c6df600c10e99002a4565146e82c5c9e1ee2b21cnat, x13);
    let x14 = 0x127f13e78793e094f4f315a0b23e0f98e838b44d8660cd2397507fb8bcea34c0nat;
    let e14 = 2 * e13 + 1;
    lemma_power_mod_square_times(3nat, e13, n, x13, 0xd7677269bc0103e15e7d84c99c2df30b606f2cbacbaa7971c6590ec695bddnat, x14);
    let x15 = 0xf3929cdfdd138c9443aad9c11522660503b5b5158c8779e838e1db5e85ce7e40nat;
    let e15 = 2 * e14 + 1;
    lemma_power_mod_square_times(3nat, e14, n, x14, 0x40259a3f1007f7b0abfc912f6857ca3298baa9cb97f34a7a65c388275acba40nat, x15);
    let x16 = 0x9b4c1af51f7d10455b59c5ae971c1ec6cc96c372e64bac7c4c719d4790f3bedcnat;
    let e16 = 2 * e15 + 1;
    lemma_power_mod_square_times(3nat, e15, n, x15, 0x2b73efd58e786a121a3a5b5c39a4ee0ca7f5637beb393cc64d3df6b8c6e84e41cnat, x16);
    let x17 = 0xee029af302b1d346c0febfdfd92d3ae62ff2e7fb7c7f3321c46c87bf65f44983nat;
    let e17 = 2 * e16 + 1;
    lemma_power_mod_square_times(3nat, e16, n, x16, 0x11a9fbdce89888b3103131f16b48febc4a1f51e9b3e9a60a21d343426e16700e3nat, x17);
    let x18 = 0xa7ba12d9e0427730063f01b5e95fca409ce20176be052fef4083583c56c0dcfnat;
    let e18 = 2 * e17 + 1;
    lemma_power_mod_square_times(3nat, e17, n, x17, 0x297da8867e7c7e0a0c34c84452104ea518a8fb111e2f559e02e00572eb729e874nat, x18);
    let x19 = 0x673b748dcc1bf2603f0d3799c9203f13b6274a6880fc1f89ddf96581fb0b30ednat;
    let e19 = 2 * e18 + 1;
    lemma_power_mod_square_times(3nat, e18, n, x18, 0x149ace386f9bbdf27777d6dc0f72f3bc05ef2a415485c00fe028982efd2a0aanat, x19);
    let x20 = 0xb90b2a85d3aaeb34a83293e14ee68b61c8d1af990f435058c17ed6799193c882nat;
    let e20 = 2 * e19 + 1;
    lemma_power_mod_square_times(3nat, e19, n, x19, 0x7ce2b0cb1a02244ce8d365ffadd53a449fae1b3eb3cd164f8eab5ebec4287697nat, x20);
    let x21 = 0x6f8f5e49538f2a53cc51d52eff5d2e9b5a590536f861618c24d8fb256a960b17nat;
    let e21 = 2 * e20 + 1;
    lemma_power_mod_square_times(3nat, e20, n, x20, 0x191436bd64f7838241039437539522983195ea137a87d34afa713324d4d8d1e1bnat, x21);
    let x22 = 0x27a1ade3714a634e4789ff0669ef7bb80236753d692b4ee150b9c440af52cec8nat;
    let e22 = 2 * e21 + 1;
    lemma_power_mod_square_times(3nat, e21, n, x21, 0x91d8ec2a2d524d0b906d28ec96db5cf56c5e144c988d718393070be305e8af85nat, x22);
    let x23 = 0xd72d696f2ca4e9d1ae40f915ca9b3a70baffd2bfd22e6fd346ad69d262ebe016nat;
    let e23 = 2 * e22 + 1;
    lemma_power_mod_square_times(3nat, e22, n, x22, 0x1267fb467023110a399a1638540fecfa2fcf0ab1e1e0639b46016e5cb9b35976nat, x23);
    let x24 = 0x6cfd31012fe448c6f28e01b24fcdaf0a9fcbdd5f4306940f9d1172890a6b48abnat;
    let e24 = 2 * e23 + 1;
    lemma_power_mod_square_times(3nat, e23, n, x23, 0x21e97ed74ec7d40de4706cdd7384862eb75e2ee9f4b49a1ee774551ffef3a1dcfnat, x24);
    let x25 = 0x61b773b919ff4fdfc8af7ebc0b3d1ffbc9cc823875045edb598e0cd25b6c4c83nat;
    let e25 = 2 * e24 + 1;
    lemma_power_mod_square_times(3nat, e24, n, x24, 0x8b33d348b26830e38778c4727afec86657660aff30563d08ef64cb946fd53658nat, x25);
    let x26 = 0x2c7fbbbae93c47185184741841a9b44b9cbd3c380f933b203d04926826bef7fdnat;
    let e26 = 2 * e25 + 1;
    lemma_power_mod_square_times(3nat, e25, n, x25, 0x6fe59b7ac5f36a393e4acebc0a6b661562416186add770fae2ea5cf1861beb42nat, x26);
    let x27 = 0x515a65ba5fdb9d854d7ece8c45b3073c783008d3b291b478e5e57789940e2d3anat;
    let e27 = 2 * e26 + 1;
    lemma_power_mod_square_times(3nat, e26, n, x26, 0x173478cc27e0325e224e161778be516cf4f712155934c2e82a0c78897aeb7defnat, x27);
    let x28 = 0xbfcee41d5c5cbe2ce1eb3ee89e5f73dc55e2fc91ff8e7a0164e144d26f2fb02dnat;
    let e28 = 2 * e27 + 1;
    lemma_power_mod_square_times(3nat, e27, n, x27, 0x4d8efce2e062e6438240a419757bce07a62c5c250a7ee1576b0c48aee129b5f1nat, x28);
    let x29 = 0x52265bcc128acfbac156cbc21f3e9d4bbb694755d9be8f70a9db7918836a7c07nat;
    let e29 = 2 * e28 + 1;
    lemma_power_mod_square_times(3nat, e28, n, x28, 0x1af231ec72f060ac4df4b540835e21a7994391c56064cf5a03596d76dcf834e8cnat, x29);
    let x30 = 0xb79f488b719a64c50a9ca952d5bdae526cccc288d0c384dc6a0d76c795f203c0nat;
    let e30 = 2 * e29 + 1;
    lemma_power_mod_square_times(3nat, e29, n, x29, 0x4f15c9aa58237270a8abf79eb5cb02432480535a83b0923e235181c8980b149dnat, x30);
    let x31 = 0x41181e4403baa60c0a1432a1be08c1da7dbab5e07dfc577cd6a8555d1ade407nat;
    let e31 = 2 * e30 + 1;
    lemma_power_mod_square_times(3nat, e30, n, x30, 0x18b1f5677aa91c122e013441b3fd848d5467e4a927d8d9db628c0ccb76c7de857nat, x31);
    let x32 = 0xd8fe4da7673f25590aa089e8b457ebcd5416ad9c7e71808dbf714a7758b65935nat;
    let e32 = 2 * e31 + 1;
    lemma_power_mod_square_times(3nat, e31, n, x31, 0x31a7c4ecaeac7ac8ec8342b31e92dc2a71051005b00eb1be1fdb2a3c079902nat, x32);
}

proof fn lemma_power_field_prime_over_2_part_3()
    requires
        power_mod(3nat, 0x1ffffffffffffffffffffffffnat, 0xfffffffffffffffffffffffffffffffffffffffffffffffffffffffefffffc2fnat) == 0xd8fe4da7673f25590aa089e8b457ebcd5416ad9c7e71808dbf714a7758b65935nat,
    ensures
        power_mod(3nat, 0x1ffffffffffffffffffffffffffffffffnat, 0xfffffffffffffffffffffffffffffffffffffffffffffffffffffffefffffc2fnat) == 0x79c4b36fb4b41523aeb983445c6f067785efcbb77bb9fcc7726d1b66521a38e1nat,
{
    let n = 0xfffffffffffffffffffffffffffffffffffffffffffffffffffffffefffffc2fnat;
    let e0 = 0x1ffffffffffffffffffffffffnat;
    let x0 = 0xd8fe4da7673f25590aa089e8b457ebcd5416ad9c7e71808dbf714a7758b65935nat;
    let x1 = 0xf7b40b952419953c11bc10f913b84101ff3d1766ca87d8227d7331781c9b730fnat;
    let e1 = 2 * e0 + 1;
    lemma_power_mod_square_times(3nat, e0, n, x0, 0x227ca5efa09ecb5b8ab5a7c73890645879079b48aafabb1a8a37e2355f929fee4nat, x1);
    let x2 = 0x4d74f6b23a1c874f39a5e639ec3782be2406599b4ad03cd4607110f4d3117d9bnat;
    let e2 = 2 * e1 + 1;
    lemma_power_mod_square_times(3nat, e1, n, x1, 0x2cf06c6ee41beddd30d2bcd98173d594c003c3f29e0df195eed54a99b8af9d378nat, x2);
    let x3 = 0xee739be0ccaef1557a2ffba5b66ab7785fb2e3c5df53bfcd66dcb96b5fca57dnat;
    let e3 = 2 * e2 + 1;
    lemma_power_mod_square_times(3nat, e2, n, x2, 0x464eb587229e850bec2a38e4ce32243ec10b0ad53144672812109168d77ee952nat, x3);
    let x4 = 0xd6f8792b9dff6165d319c2427b8cd13eff1705512b4aa15bb460a1343025d360nat;
    let e4 = 2 * e3 + 1;
    lemma_power_mod_square_times(3nat, e3, n, x3, 0x29a517e223665817f50185c37f99bf66408fb21c8d953f5c98dbe8e69662c35nat, x4);
    let x5 = 0xcd5e390772a115c94c02e71a0fb650f0c1e8f4f239a03d8311f4cb2be2bc0e1cnat;
    let e5 = 2 * e4 + 1;
    lemma_power_mod_square_times(3nat, e4, n, x4, 0x21d8d133fbe0a094674c8da069b7e259307bbafa8b39694be00158b32a2dc135cnat, x5);
    let x6 = 0x2693f9e9f47e2073e1168666502ad5893ab9739f9d851b6602c147f9b0254573nat;
    let e6 = 2 * e5 + 1;
    lemma_power_mod_square_times(3nat, e5, n, x5, 0x1ee401e0b9347755ac6357da1c85bd483af968726a45e3431bc651b3995ab37d3nat, x6);
    let x7 = 0x18d0e6a3225f5e6c7aa8def7ad7b29a9e1adb37e99277190dcf068902045ff26nat;
    let e7 = 2 * e6 + 1;
    lemma_power_mod_square_times(3nat, e6, n, x6, 0x1170cb2f41b789b7fa610fb9630671a09508f444bd9ba354203c6f05e16c393bnat, x7);
    let x8 = 0xa714150ed646791e453072b17db1b67aa6e87d12267b2a509bc21539b4875f74nat;
    let e8 = 2 * e7 + 1;
    lemma_power_mod_square_times(3nat, e7, n, x7, 0x73781228df9d331cd04de214bd9270c60ef759bca0060049f163cfebbc4d408nat, x8);
    let x9 = 0x3013a4b112c9c425b40830775b9aaf2a5016f0ce073f1df71519cf1bfe0936f6nat;
    let e9 = 2 * e8 + 1;
    lemma_power_mod_square_times(3nat, e8, n, x8, 0x147219f25f6d6972459ca654c3a1ee356f9f777f672e69c9d1f7612a84c4c0c66nat, x9);
    let x10 = 0x4b7ce78fa099da9ff7cf9ebbd77d582e763c0ee80c3358e5392c66df3b4f630nat;
    let e10 = 2 * e9 + 1;
    lemma_power_mod_square_times(3nat, e9, n, x9, 0x1b161dccc9d76a2c426afe64e4e77de7166e74ab3cf30c9e652672d798f55dc4nat, x10);
    let x11 = 0x5fd692cdec717d25fdabc0439a8a694fc8d5d105df8aa0ef978c848fc2721976nat;
    let e11 = 2 * e10 + 1;
    lemma_power_mod_square_times(3nat, e10, n, x10, 0x42c745dde616beaffe1201772cff4f5484733dd83f8d81dbcdd9d3d7e96296nat, x11);
    let x12 = 0xc5ab10d2422150b7c055f527b72454fa92de92f5142f99fb72671eaa2ddaf51dnat;
    let e12 = 2 * e11 + 1;
    lemma_power_mod_square_times(3nat, e11, n, x11, 0x6ba2de6bcdd92fe03a065b40ab8e98c23ae0d69beb006cfc837f030d073ab021nat, x12);
    let x13 = 0xb8c0daf369a16d94dda9f605bbef2e1aa57d6f8254bad74b4dc88a97beb707ddnat;
    let e13 = 2 * e12 + 1;
    lemma_power_mod_square_times(3nat, e12, n, x12, 0x1c9e22e993b53bb1417fb80d2c3c5122466ef7600b7bf900ac74b7670c1626262nat, x13);
    let x14 = 0x4a164e3a21cad0452d23323d0a724453b1258e70328faee752eb801d1be808c4nat;
    let e14 = 2 * e13 + 1;
    lemma_power_mod_square_times(3nat, e13, n, x13, 0x19001641530ade50901da9d40113aa8c89758d77baeb98381133535fdb77b3b19nat, x14);
    let x15 = 0x9a4c48652ef0f6981a2a4d980f94f67689c93bc7222597c670868dd4dce963d4nat;
    let e15 = 2 * e14 + 1;
    lemma_power_mod_square_times(3nat, e14, n, x14, 0x4052b581704b9b2c1fc7a4f2fe03d31c356930fe5ec904ffa7c5bc7014382464nat, x15);
    let x16 = 0x45e5ecebd6bc24201935c7f732afbe21a81486c71f9493963bcfcd44f830edb8nat;
    let e16 = 2 * e15 + 1;
    lemma_power_mod_square_times(3nat, e15, n, x15, 0x116ff997e67148e7515ba25ea3e9082c0ad3e7ac4d1f21ecc1a2e86c51efaf088nat, x16);
    let x17 = 0xb99466e1333377ac2a36f48ddfca46fef7077012efc4772c69f14c283b472255nat;
    let e17 = 2 * e16 + 1;
    lemma_power_mod_square_times(3nat, e16, n, x16, 0x394140aa90d9cfc2497a1045942ce5df6a06ac6ba142bd3ced323873f8966a85nat, x17);
    let x18 = 0x2bc0230b8b91fd3dbc1d22fc6a009c090d998e80255c23fcbfd65936b4a15264nat;
    let e18 = 2 * e17 + 1;
    lemma_power_mod_square_times(3nat, e17, n, x17, 0x193977829cd337423c67605e7f0fcd3beed841fb530a5f081ab652c9e1793e169nat, x18);
    let x19 = 0x96bd1d0ba1e0bc5a97900a840456a79fbf1268048371b900863f1cee7745efcnat;
    let e19 = 2 * e18 + 1;
    lemma_power_mod_square_times(3nat, e18, n, x18, 0x166e53ef6501ac396f0b635fe7152924a98d040dd6f4df50a568ce594175cc0cnat, x19);
    let x20 = 0xa37eaf5a2ab4c1fa33ff5a279ec958413bce79288b7843f2b1df5e8d8421e78enat;
    let e20 = 2 * e19 + 1;
    lemma_power_mod_square_times(3nat, e19, n, x19, 0x10a467d389884114d852d3e0201991608f27641ace8cd0d9e9d259d754326fenat, x20);
    let x21 = 0x7c48587235269dafeb617554b3983d43dca810bc3d11f575bb77fa5af4f6f040nat;
    let e21 = 2 * e20 + 1;
    lemma_power_mod_square_times(3nat, e20, n, x20, 0x1393fb5f9b5c1dd4a3fcbe762fbb3296fd0f7e418f3e841922fd76f8eaf5239b4nat, x21);
    let x22 = 0x3f320f7068fa79d8feaa20ca0b9dac01ece499e6ff919fd6a2e0c9ef6938399dnat;
    let e22 = 2 * e21 + 1;
    lemma_power_mod_square_times(3nat, e21, n, x21, 0xb5027e6186de11eb2673a2502dba2505c030a62a1428e3705b7c7a8c8a80580dnat, x22);
    let x23 = 0x293bddfb2cbe5d78f01d3c9ca6e5a0708f4b3dcabe4578581816cc89242db61anat;
    let e23 = 2 * e22 + 1;
    lemma_power_mod_square_times(3nat, e22, n, x22, 0x2ecd082a1587f66d53cd2f249e38edfba0d8d6c7a5bf8e58c1add2da955b3e0fnat, x23);
    let x24 = 0x190ab1ec64f4c74bbb5c7b321b60e863a144942a89da92bcfcb3dc90fd127692nat;
    let e24 = 2 * e23 + 1;
    lemma_power_mod_square_times(3nat, e23, n, x23, 0x13ecb14f93c5b223cf7866e9b1801b3462e9bf24f2c24e78187f7565301323c6nat, x24);
    let x25 = 0xa35b6f8420f7c2f900d7971dee616463e03e09b14a7932712386dbac0d59b981nat;
    let e25 = 2 * e24 + 1;
    lemma_power_mod_square_times(3nat, e24, n, x24, 0x7594597a9894fd369ab11414411324d8d2b5dc6b293e0f1f5f658b171a0e2a5nat, x25);
    let x26 = 0xd2fb0bc754f5def89625843cd1c9cd4f50bddd6c626542c8b63a144375031bacnat;
    let e26 = 2 * e25 + 1;
    lemma_power_mod_square_times(3nat, e25, n, x25, 0x138b8b2002f7c61a3b8c70b44544177d3fb84dc0ebb6ded3982377345f7847f59nat, x26);
    let x27 = 0xdbe7ec011aa1b4ebab49ce1bbcb4cf11d0744bc043263d7275ec8ee77a95065cnat;
    let e27 = 2 * e26 + 1;
    lemma_power_mod_square_times(3nat, e26, n, x26, 0x209a28089626c29603038cd18430e1e96b4b47cf4595b1bc0104568c43aea1fecnat, x27);
    let x28 = 0x4df4afbbfb04b5fec548a6cec8c49463d38edc2e168275926f0a8f62d0665039nat;
    let e28 = 2 * e27 + 1;
    lemma_power_mod_square_times(3nat, e27, n, x27, 0x236b3dfb0f5624d7141efb7254dc611c4d1806b163a91a23fb7ae32f7a6444bb9nat, x28);
    let x29 = 0x67edb9b5a991e9d36499ff969fff85e48f4abbe47b65d0eff2cfd02be9434461nat;
    let e29 = 2 * e28 + 1;
    lemma_power_mod_square_times(3nat, e28, n, x28, 0x473752c3a3eda50df084a7331a14c7698595abb351143e0eef208352af8c12eenat, x29);
    let x30 = 0xeefdee1547234445f0bf8b6b0830d750f1193f50f1b9fbbbe9ce11a79f9606d8nat;
    let e30 = 2 * e29 + 1;
    lemma_power_mod_square_times(3nat, e29, n, x29, 0x7e937894ae9656f37ae3050f4a0642135393c3e7ae8f257bb1bea76025d0f585nat, x30);
    let x31 = 0xb5f2cd3d08e03507bc49cfb927a0b46ca369fc73abf3757872149e2461ee69cbnat;
    let e31 = 2 * e30 + 1;
    lemma_power_mod_square_times(3nat, e30, n, x30, 0x29d5767b00b3f4213f12581064cf0972f788b1c4cecb41731edd764a891c9801bnat, x31);
    let x32 = 0x79c4b36fb4b41523aeb983445c6f067785efcbb77bb9fcc7726d1b66521a38e1nat;
    let e32 = 2 * e31 + 1;
    lemma_power_mod_square_times(3nat, e31, n, x31, 0x183f3b582ef75e4f088e4649b76ba0f0d772622d16087e346488bb406a8ca7016nat, x32);
}

proof fn lemma_power_field_prime_over_2_part_4()
    requires
        power_mod(3nat, 0x1ffffffffffffffffffffffffffffffffnat, 0xfffffffffffffffffffffffffffffffffffffffffffffffffffffffefffffc2fnat) == 0x79c4b36fb4b41523aeb983445c6f067785efcbb77bb9fcc7726d1b66521a38e1nat,
    ensures
        power_mod(3nat, 0x1ffffffffffffffffffffffffffffffffffffffffnat, 0xfffffffffffffffffffffffffffffffffffffffffffffffffffffffefffffc2fnat) == 0x7c73678619b2f65622cd8553a4b70e686e090f2af2337065a116c9085679bcb2nat,
{
    let n = 0xfffffffffffffffffffffffffffffffffffffffffffffffffffffffefffffc2fnat;
    let e0 = 0x1ffffffffffffffffffffffffffffffffnat;
    let x0 = 0x79c4b36fb4b41523aeb983445c6f067785efcbb77bb9fcc7726d1b66521a38e1nat;
    let x1 = 0xd7d5eda602bf4c6a187541d065509365359f119f2fd25326ddf404a0399e593enat;
    let e1 = 2 * e0 + 1;
    lemma_power_mod_square_times(3nat, e0, n, x0, 0xadc29a488ced058a6944a5897464255423c35e025d170d086f755aefd6992e0bnat, x1);
    let x2 = 0x5473d56d8ead1822143cdce6265e7fa5a6fea411ca5937bc4afc58f2c3e735bfnat;
    let e2 = 2 * e1 + 1;
    lemma_power_mod_square_times(3nat, e1, n, x1, 0x221eb17d68270144763b63c13792dec039ee1827903f2f0f675699de1a344a543nat, x2);
    let x3 = 0xb929ebf0f4d99a7b5b96a59d0f16918b8ac3109a8b6331a371c29f1fcf3f441anat;
    let e3 = 2 * e2 + 1;
    lemma_power_mod_square_times(3nat, e2, n, x2, 0x5394a96c07fdd0faaeed9a76567a9477fa58c22271efdf935626734130efd5e7nat, x3);
    let x4 = 0xcbda3f6d5a69f7fb28eeda97d212728a99088f52966ff75d702c0a2bf4c960ednat;
    let e4 = 2 * e3 + 1;
    lemma_power_mod_square_times(3nat, e3, n, x3, 0x191c8d99f0b8f99e7dd182f884aba3f81b7c3da28a0f7d2ec382a805344a9ce31nat, x4);
    let x5 = 0xf5f0f197d30a28c27e928c5857f224f04bd5038da0d1d542158d1a3a74dc88cfnat;
    let e5 = 2 * e4 + 1;
    lemma_power_mod_square_times(3nat, e4, n, x4, 0x1e6fb8ff68a0b26ead2b1f92c553a265b5f77296f847c267e6b483416eeb99654nat, x5);
    let x6 = 0x2b028d208bb13a114d43855f63d99380b558f208fb305342cf618e13995e439dnat;
    let e6 = 2 * e5 + 1;
    lemma_power_mod_square_times(3nat, e5, n, x5, 0x2c4d533976fd50f5d66f19043e84d49effffe8d0ebbdabf6174826abd4c64465anat, x6);
    let x7 = 0x888600c706b2c7566b5c02647506926f2eb401641dd9562fe2afab638767b4d5nat;
    let e7 = 2 * e6 + 1;
    lemma_power_mod_square_times(3nat, e6, n, x6, 0x15ad924e53b5c2e1802c3523e17f3f846e9b06ec8283b60bba08534f6755aadanat, x7);
    let x8 = 0x728073825719d85436e2809f0267ae072a56f76b586da1745d63dd9d7636bbbanat;
    let e8 = 2 * e7 + 1;
    lemma_power_mod_square_times(3nat, e7, n, x7, 0xda6bf4e8d66cb50fbffac83e08eee06045f00dd779eada79e56c45a635512ddfnat, x8);
    let x9 = 0xde7999be41649857f7e29782cf09fcf74299c8b8f7af656887601f8b2e98c0bfnat;
    let e9 = 2 * e8 + 1;
    lemma_power_mod_square_times(3nat, e8, n, x8, 0x99a3f5fb641971636403aea00ded60ee7606fabff6fc908b8cde2e16c85685e3nat, x9);
    let x10 = 0x2b1430ab003eff8846c669f19947a2940620ba55eaff3d021a002bd2bae96cd1nat;
    let e10 = 2 * e9 + 1;
    lemma_power_mod_square_times(3nat, e9, n, x9, 0x24405613a02cbc29fdf9e8a3cd45acf249736b24bdae0692ac04cc0de4e33a5eenat, x10);
    let x11 = 0xef709ff79471ac43cc6c8255816edb7f51f191efa4751293def199364164d209nat;
    let e11 = 2 * e10 + 1;
    lemma_power_mod_square_times(3nat, e10, n, x10, 0x15bf5dd342295201fb2ac21453579b17e6f5a6b6cd2bb63f0e9cfd0cefd98f46nat, x11);
    let x12 = 0x557b99eaa56c1c616e38c998fcb9fdf5bca94fa0feefc64bb8254165392e4dc5nat;
    let e12 = 2 * e11 + 1;
    lemma_power_mod_square_times(3nat, e11, n, x11, 0x29fda74b5eb4ad6d6f14f3c2aa5c1354ae9e77630ad4ecbef6ac665438743a232nat, x12);
    let x13 = 0xc21a6021acb861d592eea31c8b30e90c377e37bb03dc1912134af491cd8b05fanat;
    let e13 = 2 * e12 + 1;
    lemma_power_mod_square_times(3nat, e12, n, x12, 0x55a1efa9419d349e15d387a4bd2e505a015b6f10c1d9941cfc33fb7183ab2cffnat, x13);
    let x14 = 0x7f9b2904729f194249e2aa80d86c3c8f44d8b33ab77d3c19b77aa0a07e6b229enat;
    let e14 = 2 * e13 + 1;
    lemma_power_mod_square_times(3nat, e13, n, x13, 0x1b983f5401e276f1b868fa5a5135fdff1c74d3f7648343128bfbb6fc3cbd13d92nat, x14);
    let x15 = 0xebf9422900da7d5a17165a462c3ace542fc46d8d6ef2b23d3a75899b7b857696nat;
    let e15 = 2 * e14 + 1;
    lemma_power_mod_square_times(3nat, e14, n, x14, 0xbed1f237530d3d894de36a47ef47328bc0a4976228396fd741ea606974585deanat, x15);
    let x16 = 0xcf8b0da2276dcb00934f2255bfccee15e682d0df908df54cb29f2c267de3df03nat;
    let e16 = 2 * e15 + 1;
    lemma_power_mod_square_times(3nat, e15, n, x15, 0x28c8ab67b2549e2878ac9d95f48b2946aba7c371a9ee2f14be7f4410e67b3e2a7nat, x16);
    let x17 = 0xf3a1c4aeecf151c65908155b23dd5d711e4c916de8f28372b16c4d487c46f6d4nat;
    let e17 = 2 * e16 + 1;
    lemma_power_mod_square_times(3nat, e16, n, x16, 0x1f8c682bc1fbcbab55d7eb04551dbf9262a5b7e4f84cb560615113226def73869nat, x17);
    let x18 = 0x9052fade376204fbd26576be8cb78f266cdb38ee812d200e0d5858c4c5af3729nat;
    let e18 = 2 * e17 + 1;
    lemma_power_mod_square_times(3nat, e17, n, x17, 0x2b79584d732dd715fa3361ac4306acbc39d881d405835eed8986f2b918e417c29nat, x18);
    let x19 = 0x9950abd37d51eb0e63e3a8ff315c4d69ed86314fca3dd3b7a6bf660c3486f409nat;
    let e19 = 2 * e18 + 1;
    lemma_power_mod_square_times(3nat, e18, n, x18, 0xf4185f5eff8190621d3609d49cbcdadb24ed2a9d374fd3b1e21156bc57640476nat, x19);
    let x20 = 0xf5e3e7b661ef104a6ce94e3e12fc93d0f54de79de1246d25e3ace256df89f861nat;
    let e20 = 2 * e19 + 1;
    lemma_power_mod_square_times(3nat, e19, n, x19, 0x11374946be9eb62e81c6511a84e16ec68a498af5e76a60ab519e6fe7f0f222a0enat, x20);
    let x21 = 0xedb56c12a37a40515338ee7f9ef31261c5128be9983943345bbf714454f59f9bnat;
    let e21 = 2 * e20 + 1;
    lemma_power_mod_square_times(3nat, e20, n, x20, 0x2c48a0d3783dfbd7687b4ac71e3b1d4ab17dae17963885ba05af4b1f6378cd9d8nat, x21);
    let x22 = 0xa247d108705fa679086587982122c64343e72fdea31c7a570b456818251e5bc8nat;
    let e22 = 2 * e21 + 1;
    lemma_power_mod_square_times(3nat, e21, n, x21, 0x2962c40058801c3c038d4fe1ea6f9e3b59ba77bd57f3e2922fe632f32e01f10adnat, x22);
    let x23 = 0xc03622a0951d7916dd58ecfc1bdbd1e27e9c0e2a707485c0b34d9e5c04cab2f7nat;
    let e23 = 2 * e22 + 1;
    lemma_power_mod_square_times(3nat, e22, n, x22, 0x1349cea1ce2c28288c0a90dd0ce7e91d0f3767022cb6b7d89420aab0aba365b87nat, x23);
    let x24 = 0xef52774ea5a01148175c2538a74cef3af726b07b975ddf5fdab38945f2270a28nat;
    let e24 = 2 * e23 + 1;
    lemma_power_mod_square_times(3nat, e23, n, x23, 0x1b0f3be2a804e7f37d4969427291ce6308cb3c30a9f54a2f12fc48dd061bede25nat, x24);
    let x25 = 0x8c07b41723112e9ae406cb6184378744bca4c753ffdb39aba2af12cfc761d3anat;
    let e25 = 2 * e24 + 1;
    lemma_power_mod_square_times(3nat, e24, n, x24, 0x29f3140007db792db83b0e59e327871cd51c8db8830fe32de3726b3ee9ebde35anat, x25);
    let x26 = 0x5526d3b5c3c4c58725cd8956b713256b75a7f1fc078c7a30243c819bf4bfbb63nat;
    let e26 = 2 * e25 + 1;
    lemma_power_mod_square_times(3nat, e25, n, x25, 0xe5c9479df2edc3f453e961a1a7bb71d9094c48f0246c87ab32d9abbc45c947nat, x26);
    let x27 = 0xe86098163ea5724d1f839b6572d0ff916b3bea42b29d50b883b164aaa48150c0nat;
    let e27 = 2 * e26 + 1;
    lemma_power_mod_square_times(3nat, e26, n, x26, 0x54f86b6eb723c2118061836eb9e581459ea02228e1ce181da20bcd837a5fdbd5nat, x27);
    let x28 = 0xd1b45e12e6eaf80dcfeae0d3c56c5fc269e381dac255add2c65e949e7a8207c7nat;
    let e28 = 2 * e27 + 1;
    lemma_power_mod_square_times(3nat, e27, n, x27, 0x278cda85035bfd6be6b61dffc0f2dbfe76c0386f2b0d397bce37e98c44e180017nat, x28);
    let x29 = 0xffd6e010b84edcc3e44842ef5b5046899f82e8bf112a944fc368e3e663141036nat;
    let e29 = 2 * e28 + 1;
    lemma_power_mod_square_times(3nat, e28, n, x28, 0x20358020dde96d347a93dec40b681e1708833490f572700c50ed748f81cffbfb3nat, x29);
    let x30 = 0x90ba82b551e23b38368f1a8549b7466b383030620759d25da8746d84df06a461nat;
    let e30 = 2 * e29 + 1;
    lemma_power_mod_square_times(3nat, e29, n, x29, 0x2ff0954360dbb89dabb887359d47e44e3e37903404e610d438f628369d86ca525nat, x30);
    let x31 = 0xb3495497e90a110725e77967d4853425c98d13ad578fc380ca93e87fb9ba8646nat;
    let e31 = 2 * e30 + 1;
    lemma_power_mod_square_times(3nat, e30, n, x30, 0xf57710ca8b0274dbd9ea243f7c26117d206c924e4cc7f9d33689db0b935cdf93nat, x31);
    let x32 = 0x7c73678619b2f65622cd8553a4b70e686e090f2af2337065a116c9085679bcb2nat;
    let e32 = 2 * e31 + 1;
    lemma_power_mod_square_times(3nat, e31, n, x31, 0x178aee3e95f7113e32ad045783785517b1862595777412c7931c9be74f56d4666nat, x32);
}

proof fn lemma_power_field_prime_over_2_part_5()
    requires
        power_mod(3nat, 0x1ffffffffffffffffffffffffffffffffffffffffnat, 0xfffffffffffffffffffffffffffffffffffffffffffffffffffffffefffffc2fnat) == 0x7c73678619b2f65622cd8553a4b70e686e090f2af2337065a116c9085679bcb2nat,
    ensures
        power_mod(3nat, 0x1ffffffffffffffffffffffffffffffffffffffffffffffffnat, 0xfffffffffffffffffffffffffffffffffffffffffffffffffffffffefffffc2fnat) == 0x8c771489ec86690bba8f11557b1c32caa4a364f40881f3814446a1c3e8c72d73nat,
{
    let n = 0xfffffffffffffffffffffffffffffffffffffffffffffffffffffffefffffc2fnat;
    let e0 = 0x1ffffffffffffffffffffffffffffffffffffffffnat;
    let x0 = 0x7c73678619b2f65622cd8553a4b70e686e090f2af2337065a116c9085679bcb2nat;
    let x1 = 0x5282bf2fc5ea94afe1437e87b63449636fc30efeffd2cc3f5c0c9d8ec38c74cenat;
    let e1 = 2 * e0 + 1;
    lemma_power_mod_square_times(3nat, e0, n, x0, 0xb58000f03fb8ed0d0dc6039ed25332b9f19363bef05a72e756281d0487c9e3e2nat, x1);
    let x2 = 0x79e4f016d5d607ee93cf917a06eedd5e106ab93968b6a13e725c9a84760b34fenat;
    let e2 = 2 * e1 + 1;
    lemma_power_mod_square_times(3nat, e1, n, x1, 0x4fc80fc40246d339f9dbd0592a311bc367d6ede07693967938f8d6ab9560bf12nat, x2);
    let x3 = 0x717e77936ff747d8025d2be0d42b1ee258307fbc4462da9bccfb8fbbb8afd5e1nat;
    let e3 = 2 * e2 + 1;
    lemma_power_mod_square_times(3nat, e2, n, x2, 0xae1ea7165ff4232940e82ea20c5432bd47f67d874f0e46c8605fe15cca24c2c5nat, x3);
    let x4 = 0x943735fd0718bc414025df2bed8963cacfc8033d3626eec782c4722902aea814nat;
    let e4 = 2 * e3 + 1;
    lemma_power_mod_square_times(3nat, e3, n, x3, 0x96f2ac1e417ec38b4368d7a6225fa9bfd8f80a55b475079747b1681593e10501nat, x4);
    let x5 = 0x2233f51b477d2ac53d1124e904551d808d30e768524d9091e6363d2fa8350232nat;
    let e5 = 2 * e4 + 1;
    lemma_power_mod_square_times(3nat, e4, n, x4, 0x1016fa6fe6af12ffad1bc7d99b2e8ad43d9c3e0906406352cd75701d6ca47afe2nat, x5);
    let x6 = 0x9176c7eeb9ef5e5470ac121574698f89682135cf31c743b7cf1a3c4abbd5c9aenat;
    let e6 = 2 * e5 + 1;
    lemma_power_mod_square_times(3nat, e5, n, x5, 0xdb586f4779adeeb811e4e257fadc33d168239c4f29df37428410f78806d70c2nat, x6);
    let x7 = 0xa1e636913e3455dc2a21c1932a68355d2ed64360df8826268cf1ce120fe7e978nat;
    let e7 = 2 * e6 + 1;
    lemma_power_mod_square_times(3nat, e6, n, x6, 0xf7f750cc108cbfa506c3e853e6f1386f768017ad7f8f6f41be7f479d6f4ceeecnat, x7);
    let x8 = 0xcc1615277449a6b65458c504608eea548dbe0d62210f8fa5aceb91540f7b5a1fnat;
    let e8 = 2 * e7 + 1;
    lemma_power_mod_square_times(3nat, e7, n, x7, 0x1332a1efa5a91980c6dad1acf9efc2951a235f8f91d129b97e836eb678b7e4e2fnat, x8);
    let x9 = 0x3b662ca336e9387f61fd8ea6f2fa4d7b86d267f24375919f03c88b74b0d9b8e1nat;
    let e9 = 2 * e8 + 1;
    lemma_power_mod_square_times(3nat, e8, n, x8, 0x1e8199adb9196988be32488c08501e4de2bd3e534a45174a6edb76e8cc20fcd3enat, x9);
    let x10 = 0x61736b1aca829bfc3816b31f08e74afff98c21dab32e5e879b49d81b13516176nat;
    let e10 = 2 * e9 + 1;
    lemma_power_mod_square_times(3nat, e9, n, x9, 0x2958c4107f774e78a299be069df017dca39474342238d4620c5224929a5c58c3nat, x10);
    let x11 = 0xc95a054d62e86ce4f0823cf404d3c32d24d484fdd6a3a600ed255a566be05544nat;
    let e11 = 2 * e10 + 1;
    lemma_power_mod_square_times(3nat, e10, n, x10, 0x6f4a019b1d08faeca8af7d28ee15599620a77b0bbab38480884ed46e11240a98nat, x11);
    let x12 = 0xe6e475aa9e1b6a075eca732d93bef5c65cd02b7937277bd72423350ff8a3ef2anat;
    let e12 = 2 * e11 + 1;
    lemma_power_mod_square_times(3nat, e11, n, x11, 0x1db1b73f1bf83eb0966cc8a65efe3304557d1c62afd9ad5a5ffed4414964331danat, x12);
    let x13 = 0xbf124054d575a437ff09e02476f8b3444a82949e5eddca9a262a78171d1fd09cnat;
    let e13 = 2 * e12 + 1;
    lemma_power_mod_square_times(3nat, e12, n, x12, 0x270bdedf12648dcc0994a1777e9e6ccd491c2032f71980ebd75bc29c95168a4f0nat, x13);
    let x14 = 0x8e22851433fd70812ffe33efc16b1498900674315274978e1d7e1298edb3e653nat;
    let e14 = 2 * e13 + 1;
    lemma_power_mod_square_times(3nat, e13, n, x13, 0x1abd4b7e317da434abf380658d06788c1fd54469089dbc919c6788fd72a033eb3nat, x14);
    let x15 = 0x5abb556bf3159a92de0045e800fceb870015e87e98b7b9450053c3eb296a8bbfnat;
    let e15 = 2 * e14 + 1;
    lemma_power_mod_square_times(3nat, e14, n, x14, 0xecbef0de18aae73c1dd894c55590882aa810bcf625880ce8fdbe55aeb99f73c4nat, x15);
    let x16 = 0xf4448a850f5127aae08347065c8e49a6558a9be68b230d6be069404dd4c9d06enat;
    let e16 = 2 * e15 + 1;
    lemma_power_mod_square_times(3nat, e15, n, x15, 0x6078c3716d638d919e8ddb0dad833f7005f9283c4e02cac62bc229a0e33bd9fbnat, x16);
    let x17 = 0xe0e0481d162bdb622c357a9e06ebaa264fe45f616bb160b56b7ca8942a05c3a5nat;
    let e17 = 2 * e16 + 1;
    lemma_power_mod_square_times(3nat, e16, n, x16, 0x2bb382f369483b135aa4ab9567a2618bb3f531a6fae173a2f820fe475cea9fb89nat, x17);
    let x18 = 0x7d032ad175399c5d0b7447b1b91c3035288db2f573a61853a57cd3c35ec1df66nat;
    let e18 = 2 * e17 + 1;
    lemma_power_mod_square_times(3nat, e17, n, x17, 0x2509bc8138a0bc5574548577e98fd0e97ffd138419b1834f31a19d27a1c5e8e6bnat, x18);
    let x19 = 0x67c7a3b1ed417c7783d0d5ceb7c2acb7f7d62ef4eb00c250f5804407002157acnat;
    let e19 = 2 * e18 + 1;
    lemma_power_mod_square_times(3nat, e18, n, x18, 0xb724478fbda537ac254220f071347d45e03cb78b8167e08b902acdfecfa5d5c0nat, x19);
    let x20 = 0x73688957a5eef1b5dec3f5b2110b0314c466622fddf06f5ed58f6accb7edab73nat;
    let e20 = 2 * e19 + 1;
    lemma_power_mod_square_times(3nat, e19, n, x19, 0x7e36c43b3ca0d9490874d12c14b88ac40edee46d090a806aadbae380fa1e9c53nat, x20);
    let x21 = 0x724512e4e748084bce4ec1b72f8bfe424592a24218c4b3111a87012f1ee95a3cnat;
    let e21 = 2 * e20 + 1;
    lemma_power_mod_square_times(3nat, e20, n, x20, 0x9c15423ddfef46bd35bba7d291163217e224be90bc4cea8a68b33cef624f0a71nat, x21);
    let x22 = 0x31213ff100137eced196218c6e649b1bf1665cd0bfc6b0b45cf70deeebf94e16nat;
    let e22 = 2 * e21 + 1;
    lemma_power_mod_square_times(3nat, e21, n, x21, 0x9904c6652c517440b5179acad38e666a6e8283dca18f357f251fa47d0cfeed06nat, x22);
    let x23 = 0x555fb02a55c9fb22656c71c84bdb9bf1f8efc4fc4b72dabd8a27c448eee068e2nat;
    let e23 = 2 * e22 + 1;
    lemma_power_mod_square_times(3nat, e22, n, x22, 0x1c493c636a65f575d0042ec4f179d3365f5cef5540d1563c545a873954507356nat, x23);
    let x24 = 0x5b720e832a840455ba6e6ab51f3a212df523e0d11955a2be63f9929869c880f9nat;
    let e24 = 2 * e23 + 1;
    lemma_power_mod_square_times(3nat, e23, n, x23, 0x556a0c4100da1ce9a5a436c1085fdfcc232dab9d212cbe672d0035d83666cfddnat, x24);
    let x25 = 0x43f0aa8b9ef578fb230c45fe337aee340cfebd8e1c95a3dba873bf2068f1a02bnat;
    let e25 = 2 * e24 + 1;
    lemma_power_mod_square_times(3nat, e24, n, x24, 0x61fedb66899afd8b5c9dcf7fd7864eac635bc133d592b995b03e712c243e0e18nat, x25);
    let x26 = 0x904b23c801cd1063024cf6b8c018acd85eeb0ce9b65ff95629b7c422eb4b4dffnat;
    let e26 = 2 * e25 + 1;
    lemma_power_mod_square_times(3nat, e25, n, x25, 0x3617928fe5d4ce8ef386f2e452f762222687234c4eaf8dd6af76e248a3d3ec14nat, x26);
    let x27 = 0xf58d438cc436ee9101788760f0363a0b43704d1308d1ed37e08da349a1374d1bnat;
    let e27 = 2 * e26 + 1;
    lemma_power_mod_square_times(3nat, e26, n, x26, 0xf3fddaecfaa828079e858f23352571a1b9790528a80c963cff5b2955ccd74d98nat, x27);
    let x28 = 0x95b5578e3728be366a1bf1b86806bbb2d5dbf29b3afad2f54dd468d9605ae408nat;
    let e28 = 2 * e27 + 1;
    lemma_power_mod_square_times(3nat, e27, n, x27, 0x2c29713bcbf5ccfc0e3aff110c70100d6d080489b8839b6e430b6d44d8b1749ednat, x28);
    let x29 = 0xcbe9e52379901980db736f0fe395833554398a0b9472f3f1b49386b5c87fdf1enat;
    let e29 = 2 * e28 + 1;
    lemma_power_mod_square_times(3nat, e28, n, x28, 0x106a5c9216bc43095bc7f52c9a73d40e44b53721e6cbcbfeb302aedb0621a45fenat, x29);
    let x30 = 0x1abd66348b24c39a3bd8ad9485301fc1a613dab6c4202c60e48c8044405b1b43nat;
    let e30 = 2 * e29 + 1;
    lemma_power_mod_square_times(3nat, e29, n, x29, 0x1e746554b7f62e775280cbffd3537d4fb7d9846bdc16c7925c12e091060390a07nat, x30);
    let x31 = 0xc6f749a9e941b31fa2c28c9ca00c436c612e602dcf633d300d2bdbc2e5e51e73nat;
    let e31 = 2 * e30 + 1;
    lemma_power_mod_square_times(3nat, e30, n, x30, 0x8610ea83bf4810accfb13b599914a88d026a551ea975a802fc16ef23c95f458nat, x31);
    let x32 = 0x8c771489ec86690bba8f11557b1c32caa4a364f40881f3814446a1c3e8c72d73nat;
    let e32 = 2 * e31 + 1;
    lemma_power_mod_square_times(3nat, e31, n, x31, 0x1cfea5e762fac40fd94c0a95481a082e862a6bfeae2f8c172f69a630ca7c0c4f8nat, x32);
}

proof fn lemma_power_field_prime_over_2_part_6()
    requires
        power_mod(3nat, 0x1ffffffffffffffffffffffffffffffffffffffffffffffffnat, 0xfffffffffffffffffffffffffffffffffffffffffffffffffffffffefffffc2fnat) == 0x8c771489ec86690bba8f11557b1c32caa4a364f40881f3814446a1c3e8c72d73nat,
    ensures
        power_mod(3nat, 0x1fffffffffffffffffffffffffffffffffffffffffffffffffffffffdnat, 0xfffffffffffffffffffffffffffffffffffffffffffffffffffffffefffffc2fnat) == 0x5d846f15576785a75e4cf00f784c48daa05853a0b41636d6965fe4ac9321b59cnat,
{
    let n = 0xfffffffffffffffffffffffffffffffffffffffffffffffffffffffefffffc2fnat;
    let e0 = 0x1ffffffffffffffffffffffffffffffffffffffffffffffffnat;
    let x0 = 0x8c771489ec86690bba8f11557b1c32caa4a364f40881f3814446a1c3e8c72d73nat;
    let x1 = 0x93cac8e734fbf3430235e52aef830f838bb84f210990054e3d4c36f18965ef58nat;
    let e1 = 2 * e0 + 1;
    lemma_power_mod_square_times(3nat, e0, n, x0, 0xe7376190ddb83d5b7f46d7c235ecbd69209378c0ce8e3c94c4ed187de8fb3ccdnat, x1);
    let x2 = 0xbf0e544a40fdeff6425917766f87fc167b2296523d8b9f47ea2a5d51d78ae90anat;
    let e2 = 2 * e1 + 1;
    lemma_power_mod_square_times(3nat, e1, n, x1, 0xfff78a1194291fbf901f423beed900aba4d0e48f10720f77accbe35a595f9e2anat, x2);
    let x3 = 0xfee13d28e8302896e60d4469a96649bc0087c7b3127f3ad4480d878691caae25nat;
    let e3 = 2 * e2 + 1;
    lemma_power_mod_square_times(3nat, e2, n, x2, 0x1abc327bc62908817fc29759c476579e51502e9139a95bcb12c2356e77d3ccca9nat, x3);
    let x4 = 0xc1e90467e81abed9ce98eb95df21355dc840a180954c37cc8843c5484de8bef0nat;
    let e4 = 2 * e3 + 1;
    lemma_power_mod_square_times(3nat, e3, n, x3, 0x2f94b329d37ccaf295c3be77cade0e90a38d8e3020e927cfede0b8c257a4a3ed5nat, x4);
    let x5 = 0x2e288c98f084ccda2bcf5a4cf19a61bf1d1caad143a06340386bbb01a736e547nat;
    let e5 = 2 * e4 + 1;
    lemma_power_mod_square_times(3nat, e4, n, x4, 0x1b8a386391390b9a3bfbc8c0bd1f0f99690c10a69a6dd3b71a2e4edfc565fa297nat, x5);
    let x6 = 0x8a1985d4c5c2f0806ae7c95f828ebf69bb4eae2aead2a2b003600a34c4b8fb40nat;
    let e6 = 2 * e5 + 1;
    lemma_power_mod_square_times(3nat, e5, n, x5, 0x18f7cad99a5790aa82f617b2f4c651b0780494008b38527c5ed98a0b0f45a79dnat, x6);
    let x7 = 0x7b59c8229a8ef2c502d764e3f1a0695f35d10a65ab8c73143b73cd816b506a6bnat;
    let e7 = 2 * e6 + 1;
    lemma_power_mod_square_times(3nat, e6, n, x6, 0xdf7e947e6c32b51659a06e37b8f7e28f74d14a4a55b0cfe481f7836387fed57bnat, x7);
    let x8 = 0x36e759f560e7394d4cc1ba942d9bbda2639f5ae3a3532e6db3e8960820d42e8enat;
    let e8 = 2 * e7 + 1;
    lemma_power_mod_square_times(3nat, e7, n, x7, 0xb24e316a0f20c090acfab42b3f356e9d111937b3e697766bbd87ed4c3a5d25f3nat, x8);
    let x9 = 0x13de60233b9ffeaf49f1862ea9ff29e557dfd03ea4143cd8036a37fe5e47f78cnat;
    let e9 = 2 * e8 + 1;
    lemma_power_mod_square_times(3nat, e8, n, x8, 0x23534114f7f8e21c40f3bc71db467e6d1fe9826f96fe0abeca5bf2b4b24bcf40nat, x9);
    let x10 = 0xd6aeabeefe6a6facffa0412a4c43f49d2fe344d86988412cf7d57335632c9152nat;
    let e10 = 2 * e9 + 1;
    lemma_power_mod_square_times(3nat, e9, n, x9, 0x4a04a50542ed09746ed06c27e23aaf29c7cae8434ba0d236218e26a4d5a6c02nat, x10);
    let x11 = 0xdaf1c54bdb7b0fbf5874dca1255ebb108031192289dbb0f77df5e9b7c479f5b3nat;
    let e11 = 2 * e10 + 1;
    lemma_power_mod_square_times(3nat, e10, n, x10, 0x21c197be5391ed72fd372af77fbd26771d3105b413d9fc3555e3a4f23f1c3d937nat, x11);
    let x12 = 0xc9672129137d372b07b83a21d4c09bcf436bf289a1253ddb393dfd27814d1b8bnat;
    let e12 = 2 * e11 + 1;
    lemma_power_mod_square_times(3nat, e11, n, x11, 0x231c1f90ec80c0061d04d3c6f2dd1be2b992de38176d4ac30ce37c0857765fd10nat, x12);
    let x13 = 0x7e9cf3411f69b49e9c70e73fcbb03224442f8819aab4489c592ff01d83159c43nat;
    let e13 = 2 * e12 + 1;
    lemma_power_mod_square_times(3nat, e12, n, x12, 0x1db5952da9bdbc7047bb04a378b18334d96b75dc40350e70e0f033074cd903458nat, x13);
    let x14 = 0x8f776a6bab00b6d9d4bf2e58d5a961e0964321f0e2ea28c34da39a005fe8e3acnat;
    let e14 = 2 * e13 + 1;
    lemma_power_mod_square_times(3nat, e13, n, x13, 0xbbdc9f086c4d1a7bb732387f7a1c02366b6cc1c6152c8d0a72eff99a52f78f41nat, x14);
    let x15 = 0x63fd6ce55e3c43225089a4da38b21d904760c7d53ff62530056b498bd2b703cbnat;
    let e15 = 2 * e14 + 1;
    lemma_power_mod_square_times(3nat, e14, n, x14, 0xf133e1c9302359830351b6360cea1d5cf6b29d9ce2b8542e86e90ac3f5645d2bnat, x15);
    let x16 = 0x73033a252e1d90fd4b19301c50aa53e2fd2ed06a73362e08d772002c77b57790nat;
    let e16 = 2 * e15 + 1;
    lemma_power_mod_square_times(3nat, e15, n, x15, 0x7529f74d77b39c296dc90d30c0161488704ed240e2296f0be0c0124a2c4c3695nat, x16);
    let x17 = 0x9183c3ce2ac4445bafc464002e13cc999e30373760c75ce2662f6bcb8e70c212nat;
    let e17 = 2 * e16 + 1;
    lemma_power_mod_square_times(3nat, e16, n, x16, 0x9b03b2d7748789c22de123bea820f8940023e668bfca33335ae3ee61567cbc72nat, x17);
    let x18 = 0x82514b57147ec85ce6d4741ac7b6b14459d6a4a3de83982ac2949b0de33f8ea9nat;
    let e18 = 2 * e17 + 1;
    lemma_power_mod_square_times(3nat, e17, n, x17, 0xf82396e495a180790a4b1f845357a8d10c6476a958c8fd2bd8dac38aeeebfd4dnat, x18);
    let x19 = 0x1046ebd6c23c3b95f39dd3432f324b794a2a300b78fb8109c37381fee9699a88nat;
    let e19 = 2 * e18 + 1;
    lemma_power_mod_square_times(3nat, e18, n, x18, 0xc703feff9c479e0f1b518e8f39a4bb969f0ec5bebe97aefc8b3d79ef98d068c5nat, x19);
    let x20 = 0xb8996644fb36b8a920d415c4a5235f35b16ffc74b14b8fdfba054766c4d343a3nat;
    let e20 = 2 * e19 + 1;
    lemma_power_mod_square_times(3nat, e19, n, x19, 0x31ad36200f93775adc7ab7eb94786a4529ed0f2853df004e87e525f0d059473nat, x20);
    let x21 = 0x5722409fe2fe45f1c554131291924f667c92e9876d94e2a7f1c87da3da351a4cnat;
    let e21 = 2 * e20 + 1;
    lemma_power_mod_square_times(3nat, e20, n, x20, 0x18f569ccbb149f2e5a04603d7a62564e0caa3c969b60399984e9f598d84f23f21nat, x21);
    let x22 = 0xddeb50fbcea6b24cdd0be9b59d8b8a816e20e7428c04ff0ad4f2d4e859a06d09nat;
    let e22 = 2 * e21 + 1;
    lemma_power_mod_square_times(3nat, e21, n, x21, 0x58f8e585b5345d4f6553cd03c563fbb16fad50ce8ae1bd4a9e2b087246930709nat, x22);
    let x23 = 0x476f3013b66a2a47c1ed1f73f565afd4bc481f31aabcbd494452f51cae90784fnat;
    let e23 = 2 * e22 + 1;
    lemma_power_mod_square_times(3nat, e22, n, x22, 0x241206661a026ac315fb45148e9765ded87f7d59301900566ff98596bd4a1469cnat, x23);
    let x24 = 0xbc1c9ba714d71ced6f83079c720f1dab6df861bb8ca53c2cde12d6bad392fc6bnat;
    let e24 = 2 * e23 + 1;
    lemma_power_mod_square_times(3nat, e23, n, x23, 0x3bcc96e0fbeb6c52982c07c91f72395abcf78e75ce3c61da6e9a86f81bc308c8nat, x24);
    let x25 = 0x2f53fbfd17f5b278d08049446c9a6e113dbf453e92ff2f923e918742cefcbd01nat;
    let e25 = 2 * e24 + 1;
    lemma_power_mod_square_times(3nat, e24, n, x24, 0x19eae176f7564c57b3d4f43cae8475102d65af30e00996b8f61263973a72c54f6nat, x25);
    let x26 = 0x98f6025163267e499eac66f7582592bad1531509cf53467513aa711b7ed3f18cnat;
    let e26 = 2 * e25 + 1;
    lemma_power_mod_square_times(3nat, e25, n, x25, 0x1a3fd63ce6dc182ac24022dd55db7550c425717fa09bdee58f387a27e4ad8a39nat, x26);
    let x27 = 0x88f164b1e4bcdaaa827afe2e08fc0aea2abecd402dea7134be66132a62264399nat;
    let e27 = 2 * e26 + 1;
    lemma_power_mod_square_times(3nat, e26, n, x26, 0x1122f2d7b4e88ea1be1f09e6a2ae0259d01f44378f950f6949627c5739e75ee99nat, x27);
    let x28 = 0x88a842c62f36f82655ebd24644a4c14a7cb25a236cfeb81ef926c9a2af33d79fnat;
    let e28 = 2 * e27 + 1;
    lemma_power_mod_square_times(3nat, e27, n, x27, 0xdbc41bd344be5eaf8c1aa088db852e0f1d35918573cc3022dd426d578836dd8cnat, x28);
    let x29 = 0xe1836f57e28c4d87ccfaf05901b35e15b4476a09f5e32d4510f64c3025d53bb0nat;
    let e29 = 2 * e28 + 1;
    lemma_power_mod_square_times(3nat, e28, n, x28, 0xdad9a09ed7197cbb85e48e5e8fe559d705a31fc105cdf33b1a396adf2de3f2ddnat, x29);
    let x30 = 0xb5d6f5b756cd7a761cf7e8a7c494ddb9bdd076ca2efaf3313830693964e161b5nat;
    let e30 = 2 * e29 + 1;
    lemma_power_mod_square_times(3nat, e29, n, x29, 0x253f8e79ae1cd71847b241d721aff734de305e068bece597c237d5371312a51a5nat, x30);
    let x31 = 0xd1ee9012b4673f0c1de24fbf22e344565ea32cec86247d87c980db7c08de5e13nat;
    let e31 = 2 * e30;
    lemma_power_mod_square(3nat, e30, n, x30, 0x8129abf4fb1c1e264608d8fad96ca801ac830dc161a02445d5c878d61d46dafanat, x31);
    let x32 = 0x5d846f15576785a75e4cf00f784c48daa05853a0b41636d6965fe4ac9321b59cnat;
    let e32 = 2 * e31 + 1;
    lemma_power_mod_square_times(3nat, e31, n, x31, 0x2047630ac3b4733b717b4d1e6039a61757e565ab72c25ad67aaa797ff6bb9ec91nat, x32);
}

proof fn lemma_power_field_prime_over_2_part_7()
    requires
        power_mod(3nat, 0x1fffffffffffffffffffffffffffffffffffffffffffffffffffffffdnat, 0xfffffffffffffffffffffffffffffffffffffffffffffffffffffffefffffc2fnat) == 0x5d846f15576785a75e4cf00f784c48daa05853a0b41636d6965fe4ac9321b59cnat,
    ensures
        power_mod(3nat, 0x7fffffffffffffffffffffffffffffffffffffffffffffffffffffff7ffffe17nat, 0xfffffffffffffffffffffffffffffffffffffffffffffffffffffffefffffc2fnat) == 0xfffffffffffffffffffffffffffffffffffffffffffffffffffffffefffffc2enat,
{
    let n = 0xfffffffffffffffffffffffffffffffffffffffffffffffffffffffefffffc2fnat;
    let e0 = 0x1fffffffffffffffffffffffffffffffffffffffffffffffffffffffdnat;
    let x0 = 0x5d846f15576785a75e4cf00f784c48daa05853a0b41636d6965fe4ac9321b59cnat;
    let x1 = 0x6ee02ba100528398780cb72b899f62c80179d4f2126759c2c8f105cb8d723404nat;
    let e1 = 2 * e0 + 1;
    lemma_power_mod_square_times(3nat, e0, n, x0, 0x667c77a8bf249851fd87391ab82160d4ff42c8cc5b160504cdb43538aeccfa94nat, x1);
    let x2 = 0xbedc544fb40563566ef40f6ff9a6ff0666896c374676eb653f63ac3d6ea29b27nat;
    let e2 = 2 * e1 + 1;
    lemma_power_mod_square_times(3nat, e1, n, x1, 0x90103d603864de8f55f3951967ed67e19712a3d766a2325414daf74cd338ec47nat, x2);
    let x3 = 0x5bf36898d1905bebd5f5655aee2ccd14b4babbba5a929ceceafe07ba3a8482afnat;
    let e3 = 2 * e2 + 1;
    lemma_power_mod_square_times(3nat, e2, n, x2, 0x1aae36055fbed6f018515c313e73e7c4933421c7718bfeb279b3f75d699efd81cnat, x3);
    let x4 = 0x202c1c01e5276969ba9462b4745a9456005d64bfde18e35636ceda193c47885enat;
    let e4 = 2 * e3 + 1;
    lemma_power_mod_square_times(3nat, e3, n, x3, 0x6314db652584fcb4f87b59f36a2975da46aef2740035db6b38b191941c1aeb8bnat, x4);
    let x5 = 0x3f802a5c2192ccbd2dc27dbc29c9ae846b5db70fe0320e3e5452d452ea4e2f9anat;
    let e5 = 2 * e4 + 1;
    lemma_power_mod_square_times(3nat, e4, n, x4, 0xc212bce57031e20a47027f235e152cf51e5b7d1049eb4c63e60a2c8ee6e90aenat, x5);
    let x6 = 0xaef144190318273b0ed377a86f2e8327232319a0f1a0c82ce2ea5f0d2c54536fnat;
    let e6 = 2 * e5 + 1;
    lemma_power_mod_square_times(3nat, e5, n, x5, 0x2f40ff0b32fe8f3a8063acfbfd4ca88d33e496f841cb82ba114ea388dbb28113nat, x6);
    let x7 = 0x1c02ee9b1c1f49aa9ef1660f0db2c9fcf0b5d5b59f706a9c5c56f8dec5edc59cnat;
    let e7 = 2 * e6 + 1;
    lemma_power_mod_square_times(3nat, e6, n, x6, 0x166a693d9dc3ddeadbed5f844c7b69741a59180f117cc8f4b768511ff273b6ee9nat, x7);
    let x8 = 0x47739f91e308d40ea0685b15f620636b85b0baf4989be1a5a5d8322cd8c71139nat;
    let e8 = 2 * e7 + 1;
    lemma_power_mod_square_times(3nat, e7, n, x7, 0x931ecaf94e82c9f2627ce8b5dd0db7e06759b10e153f5af5fc46394ca0dcab9nat, x8);
    let x9 = 0x354e87ef384b9d249aabd279bd5e5cd2bf82458abd54d4e4db897beb0e20ece7nat;
    let e9 = 2 * e8 + 1;
    lemma_power_mod_square_times(3nat, e8, n, x8, 0x3bd4043305664023b8a32571b5faa44848c84b6b004f094f491d32e438601c94nat, x9);
    let x10 = 0x1751bd659ab8b9ee9b8f8a13a4adfebf0bee16432176a3f7b9ec3204ef3dd42enat;
    let e10 = 2 * e9 + 1;
    lemma_power_mod_square_times(3nat, e9, n, x9, 0x214cd52081cb5e2c7af3c33e74f2be0a6bca7fe52a1edb7a88a5c7061ee40aebnat, x10);
    let x11 = 0xd16dce1d1cb2bbdab0ce662389b0bc368ee51709a3a9addde770c26b5750878nat;
    let e11 = 2 * e10 + 1;
    lemma_power_mod_square_times(3nat, e10, n, x10, 0x65f5e64f8a8db443c4619d56f156eb2c181459489474b08ef7402d57118ebecnat, x11);
    let x12 = 0xd1292f41f566442ea2768e923f3161a51c04215b5880cc454cd6dcef3f6fda45nat;
    let e12 = 2 * e11 + 1;
    lemma_power_mod_square_times(3nat, e11, n, x11, 0x201fd6cee1acb6d4aa4e105888a9b37dbcd5bf386985b8d6d526ae50e238375nat, x12);
    let x13 = 0x8cdcbcc060e7ae13465c84e0b5c0dfc5e3365972ab17241a8d131ae0a9634341nat;
    let e13 = 2 * e12 + 1;
    lemma_power_mod_square_times(3nat, e12, n, x12, 0x200acd15d9ba09d90373ed0627a9a80ad3385feef9964795f3c29646303ddd396nat, x13);
    let x14 = 0xa5b373d0a48ba1d3c98b677097ba12fd5713f04100bff0402b2b4ba226a69fb0nat;
    let e14 = 2 * e13 + 1;
    lemma_power_mod_square_times(3nat, e13, n, x13, 0xe88686561f6d3a7a29e26280faa3d7fbc27a8eb3aa0cd2efd9406a20350af59dnat, x14);
    let x15 = 0xc00b192c1eeaa166a796919972bf3d632acfce7239d9ea80dfade5492d5cd724nat;
    let e15 = 2 * e14 + 1;
    lemma_power_mod_square_times(3nat, e14, n, x14, 0x141c273425ad5a741b017fd0f1b0e83cfefa05e0c933a4f995ada7d511d9a46e4nat, x15);
    let x16 = 0xc16f540c2db80cde3b87b6acc385302f90f5a7e1af84b694e0cce28d86bf92d1nat;
    let e16 = 2 * e15 + 1;
    lemma_power_mod_square_times(3nat, e15, n, x15, 0x1b031f2b80fecbfb8f658dab1a89e0d0cf825d550f2dcb919b9be444b86099ed1nat, x16);
    let x17 = 0x794776b66ea5fc7a655cc8a747661ed457325e172b21d6ebd7d0dde785eab10fnat;
    let e17 = 2 * e16 + 1;
    lemma_power_mod_square_times(3nat, e16, n, x16, 0x1b67b276d114576c6090691a08acb4169cc15c2cc334fecbcbe25fa6b120e996cnat, x17);
    let x18 = 0x4910d37fcdf5508711dcd258803819a439a02e71b7c4b9370df3527066f72d44nat;
    let e18 = 2 * e17 + 1;
    lemma_power_mod_square_times(3nat, e17, n, x17, 0xac5de6828e84ea40d8e679a71f39beba034adbd9f9859d3af801166956c563d1nat, x18);
    let x19 = 0x9a2ecb577b4ff212e5f42e496de3d5d89854296dd1eb1b65ce655ddf3dda6b2cnat;
    let e19 = 2 * e18 + 1;
    lemma_power_mod_square_times(3nat, e18, n, x18, 0x3e8fcd2e0682bbb670bc95362b7d7a5a510aa458b4eb1ce6382e49a51063183cnat, x19);
    let x20 = 0x3144fe68212d67ef2a5ef9114201fd08c297f2047403c54e81fe54eb38dfcb1enat;
    let e20 = 2 * e19 + 1;
    lemma_power_mod_square_times(3nat, e19, n, x19, 0x11694ff98dff1124eb35089aff88b780e2d4f2469f4d3f4052f8f1a0954b0770enat, x20);
    let x21 = 0x40560694c4e4f955e9bae6424b128606cfa2a0842f76c358f52c716ca6efb12dnat;
    let e21 = 2 * e20 + 1;
    lemma_power_mod_square_times(3nat, e20, n, x20, 0x1c7273f402876a4d8a23ef278724722fcc2f709873260e8c93649143915e3dd1nat, x21);
    let x22 = 0x527050adcb672a66e7be711727d1826544fbb139e28a9335c7e7e4baf91625e1nat;
    let e22 = 2 * e21;
    lemma_power_mod_square(3nat, e21, n, x21, 0x102b2032ce921631767639977ebfcea36891cf02c54c2f63fb7814b127a5fa78nat, x22);
    let x23 = 0xdca5cdda7de7f66c30c814c565eafc9b657980493f3b040619695dbad0c6141anat;
    let e23 = 2 * e22;
    lemma_power_mod_square(3nat, e22, n, x22, 0x1a8c24f607cd268c0c0d2dd46134d10b6fe6666c8f8b2de17ac54c3c0a5f8209nat, x23);
    let x24 = 0xf02f3b12aced9254f161bed951c65a6ab150a2c3d46b15564730455648c6413bnat;
    let e24 = 2 * e23;
    lemma_power_mod_square(3nat, e23, n, x23, 0xbe2d65328994a4adc8f414d5dfc051589f4eafa6671d1db9c20fabc3235b2de7nat, x24);
    let x25 = 0x77c4993e7826ac8d0b75a1b77b3ad538df7267ddc1ceecdafe37dc7fd37c0a04nat;
    let e25 = 2 * e24;
    lemma_power_mod_square(3nat, e24, n, x24, 0xe1589779c2ba8ead4773bc0af61e39905ae872d5189a5d7b41f5c4f93a15617bnat, x25);
    let x26 = 0x7affaf20ecf50d01ed9b696a8b369c17e4ef7fa47f0a25f24177ed670ff04e5cnat;
    let e26 = 2 * e25 + 1;
    lemma_power_mod_square_times(3nat, e25, n, x25, 0xa81918594546ff7ffa041448d429aa634cc09633cc663af1e6e100d948a0226cnat, x26);
    let x27 = 0xd7c567a09626bd56771483035d751fe0e096a7818c2027564397d294976ed24nat;
    let e27 = 2 * e26;
    lemma_power_mod_square(3nat, e26, n, x26, 0x3b18b249bd3fa8c8e0b019f8e45bf082ebedf6954d7b40137d26e3f06bd223d4nat, x27);
    let x28 = 0xe4e9c301e62ae71c0c9e909f11d6d3445ddea9622497f27452e23c53de752b63nat;
    let e28 = 2 * e27 + 1;
    lemma_power_mod_square_times(3nat, e27, n, x27, 0x2219784d929ec55a187d42fd42f6ba79d9d9cbe9fdc17c2d5ca6148f9267cc3nat, x28);
    let x29 = 0x58b9b9386702a5f50bbd259637dd320eecb5245c9e06f99c29d9b7e45ef1fc2bnat;
    let e29 = 2 * e28 + 1;
    lemma_power_mod_square_times(3nat, e28, n, x28, 0x26613aa6fcff7df42dcaf3675ee3bdc97e7375851d02249f3efbb7d37620cf250nat, x29);
    let x30 = 0xfffffffffffffffffffffffffffffffffffffffffffffffffffffffefffffc2enat;
    let e30 = 2 * e29 + 1;
    lemma_power_mod_square_times(3nat, e29, n, x29, 0x5c40a23c010bcfb2281ebae2ee5da86685471f21a32938cd003cfcfa983cc613nat, x30);
}

proof fn lemma_power_field_prime_over_2()
    ensures
        power_mod(3nat, 0x7fffffffffffffffffffffffffffffffffffffffffffffffffffffff7ffffe17nat, 0xfffffffffffffffffffffffffffffffffffffffffffffffffffffffefffffc2fnat) == 0xfffffffffffffffffffffffffffffffffffffffffffffffffffffffefffffc2enat,
{
    lemma_power_mod_first(3nat, 0xfffffffffffffffffffffffffffffffffffffffffffffffffffffffefffffc2fnat);
    lemma_power_field_prime_over_2_part_0();
    lemma_power_field_prime_over_2_part_1();
    lemma_power_field_prime_over_2_part_2();
    lemma_power_field_prime_over_2_part_3();
    lemma_power_field_prime_over_2_part_4();
    lemma_power_field_prime_over_2_part_5();
    lemma_power_field_prime_over_2_part_6();
    lemma_power_field_prime_over_2_part_7();
}

proof fn lemma_power_field_prime_over_3_part_0()
    requires
        power_mod(3nat, 1nat, 0xfffffffffffffffffffffffffffffffffffffffffffffffffffffffefffffc2fnat) == 3nat,
    ensures
        power_mod(3nat, 0x155555555nat, 0xfffffffffffffffffffffffffffffffffffffffffffffffffffffffefffffc2fnat) == 0x7b98c765d98d6170e64ce0a5130fae9c887196ef508e1d37f9ff1620d3f3f3bcnat,
{
    let n = 0xfffffffffffffffffffffffffffffffffffffffffffffffffffffffefffffc2fnat;
    let e0 = 1nat;
    let x0 = 3nat;
    let x1 = 9nat;
    let e1 = 2 * e0;
    lemma_power_mod_square(3nat, e0, n, x0, 0nat, x1);
    let x2 = 243nat;
    let e2 = 2 * e1 + 1;
    lemma_power_mod_square_times(3nat, e1, n, x1, 0nat, x2);
    let x3 = 59049nat;
    let e3 = 2 * e2;
    lemma_power_mod_square(3nat, e2, n, x2, 0nat, x3);
    let x4 = 0x26f7c52b3nat;
    let e4 = 2 * e3 + 1;
    lemma_power_mod_square_times(3nat, e3, n, x3, 0nat, x4);
    let x5 = 0x5ee7e56e3721f2929nat;
    let e5 = 2 * e4;
    lemma_power_mod_square(3nat, e4, n, x4, 0nat, x5);
    let x6 = 0x698d5ba661086278add272ed7c87a479b3nat;
    let e6 = 2 * e5 + 1;
    lemma_power_mod_square_times(3nat, e5, n, x5, 0nat, x6);
    let x7 = 0x433c91af7921692ef71435894b14a4434286f9e09132c1ce47f660f3f1d8c9benat;
    let e7 = 2 * e6;
    lemma_power_mod_square(3nat, e6, n, x6, 11141nat, x7);
    let x8 = 0xaf6258569d9bfb02a2a964eb6db1e2ca5ee7d6096384d1826d02e7a257ecc131nat;
    let e8 = 2 * e7 + 1;
    lemma_power_mod_square_times(3nat, e7, n, x7, 0x34fa47c363b18ca3b47a042d04794098620207752a61e842dcdd2dd55568d615nat, x8);
    let x9 = 0xdfe90bbcdd7da575d2444220832ad7edf447712918a1908fbd4e01d9dd85e94anat;
    let e9 = 2 * e8;
    lemma_power_mod_square(3nat, e8, n, x8, 0x78279a8e2c4796434acf48300a3dc3c267aa37859c96737ecf0534004130d699nat, x9);
    let x10 = 0xf3e9f3958d31cd6acd6f979c8d38fa057e908c1c994581b9e902b4c313f3c4ecnat;
    let e10 = 2 * e9 + 1;
    lemma_power_mod_square_times(3nat, e9, n, x9, 0x24b8783cc38a1920bf392f9c46808d1eb944f9b7ba4b872422c5961895703ccc0nat, x10);
    let x11 = 0x6035bb23d0439fb901c1c1842aa7376e87894c6ba04b2453db0dadc67676e152nat;
    let e11 = 2 * e10;
    lemma_power_mod_square(3nat, e10, n, x10, 0xe865fa3b380cd20ae43d95421ad0b80216d54a4a9a25a62a279a935fd6994622nat, x11);
    let x12 = 0xcc655cea0389266d669afbb73b888bd367c3b8ba96fa6affc6a7463880abb19dnat;
    let e12 = 2 * e11 + 1;
    lemma_power_mod_square_times(3nat, e11, n, x11, 0x6c7906e5a57ce130e18fe1cb49468d184526347f27877db866f85212d83c8301nat, x12);
    let x13 = 0x5e9f0470323352a3efd0e9ee760cb96aaffe33a8049960d9f9bf4e8f1b9e406nat;
    let e13 = 2 * e12;
    lemma_power_mod_square(3nat, e12, n, x12, 0xa331b437680267ebb83f599654fa93587da6e9732e50c9fd3e2c7236503a5e2dnat, x13);
    let x14 = 0x57b6a5c1d27b364f2eb552d5b3c91180f571fde62daa728facde0b7f199da968nat;
    let e14 = 2 * e13 + 1;
    lemma_power_mod_square_times(3nat, e13, n, x13, 0x68eb7e1ab8ef3d8bd74484706e1226a37723d9df402aa45147a050a12e743cnat, x14);
    let x15 = 0xcec707f793f08bd01481d135388f2bd4329658deaba3c14443186437b139ff18nat;
    let e15 = 2 * e14;
    lemma_power_mod_square(3nat, e14, n, x14, 0x1e0da6f9d7fa722ce92dfe20567a8a1b5f9eaf5db52e7f90e2aa92bfac312558nat, x15);
    let x16 = 0xcffc594e807842a47a1d1f5d931bfeae7fbf01e4c882d620960acf815dcb1f8bnat;
    let e16 = 2 * e15 + 1;
    lemma_power_mod_square_times(3nat, e15, n, x15, 0x1f50ec2af7fbbcf86a1765948f9525ff4eb8ab0a3592ba0e7a9a934d6171155dbnat, x16);
    let x17 = 0xcc1c161a1ecf1e02457967ce30f2e3482f77e8792e4756a5bd565910f4ca965enat;
    let e17 = 2 * e16;
    lemma_power_mod_square(3nat, e16, n, x16, 0xa8fa112ce57715ef5962f654c357e59964d90a25dc2d700727f6b0b2b7ec34d5nat, x17);
    let x18 = 0x74034217623e997241b3bfcdbaa5c2236d7bfff4d82782c1acb774c47778561cnat;
    let e18 = 2 * e17 + 1;
    lemma_power_mod_square_times(3nat, e17, n, x17, 0x1e83652eb6a2bff482a791d01234705e0cb8a4b8a8ab1ef85f8a43c8b289b8190nat, x18);
    let x19 = 0x9713dfd41c64a0e54c90b486e498ee56203d540cda44c579357e0ffeff475152nat;
    let e19 = 2 * e18;
    lemma_power_mod_square(3nat, e18, n, x18, 0x3492f3efcea51952384ae93b96ca5a7984b4ea8d48be278e3e726497f0d5d4a2nat, x19);
    let x20 = 0xec14b11b28a10ef3423a9187ee3e9de09aa2f88265dbf820bf20700958dbd493nat;
    let e20 = 2 * e19 + 1;
    lemma_power_mod_square_times(3nat, e19, n, x19, 0x10b795ac5a40a71de35749d174aa9bd829283663c3a2932829d14e3bd7d6ae217nat, x20);
    let x21 = 0xf0f56770b9c5cdf4ce47ac2bc2c11d309c929dc8199238ee441083e20249dab6nat;
    let e21 = 2 * e20;
    lemma_power_mod_square(3nat, e20, n, x20, 0xd9b6283639adddcb2736985e25a474885b6529837e577202f38dbaaa8d1dadbdnat, x21);
    let x22 = 0x74ab8bf0d4feb27b3f6780e612521ad9e471e93e17e17b8d273065bf8a5d82canat;
    let e22 = 2 * e21 + 1;
    lemma_power_mod_square_times(3nat, e21, n, x21, 0x2a86727978ba719b66ae7ba22a45d54f9237f72a9d110aa10053fc34e29d30a3enat, x22);
    let x23 = 0xf766c9c9c73fc9c0d1559b5efdd22c18ef7d8c3c0a24a0bf3c3626cf7998c747nat;
    let e23 = 2 * e22;
    lemma_power_mod_square(3nat, e22, n, x22, 0x352be9c68142c7dec6b3d40ac60747af9c87a36e117fd5581b162993b95bf973nat, x23);
    let x24 = 0x410a60b41bc2230fb7a924b104b48f021d73cd8ce9a9c4d018375c3761f56fe5nat;
    let e24 = 2 * e23 + 1;
    lemma_power_mod_square_times(3nat, e23, n, x23, 0x2cd4687fa5f03083a84fd854adfc45bdf60aeedd12720892d9a246b9b17655032nat, x24);
    let x25 = 0xa2cbed0fdfc24fcb344c0a45250f89b3246cda9be438ca5d6f56303b58d8b21nat;
    let e25 = 2 * e24;
    lemma_power_mod_square(3nat, e24, n, x24, 0x1086458728b254815ecddc505cf5c2788530fa8f8c103a5d786c5af897a99dc8nat, x25);
    let x26 = 0x72d6760aaa2571748a566ef4e96bebdcebf4825e4ab2c919d0d0301817b2a643nat;
    let e26 = 2 * e25 + 1;
    lemma_power_mod_square_times(3nat, e25, n, x25, 0x136942f6dbdaf91547ba6a239535d5d117de9a577862d048f209d1376cfff80nat, x26);
    let x27 = 0xae3a865a1c44a2e14e91e62c2fb139d4b23ad64cd5a2b7581ec0b93916a84b3cnat;
    let e27 = 2 * e26;
    lemma_power_mod_square(3nat, e26, n, x26, 0x3383b4cb0fcba4f1baa6501ee417b058213736f4f7058647a7b5b528935e7643nat, x27);
    let x28 = 0x5a65a775161f4b7739ddc52e586bc04724fe1e27f2f942ca59b80b87e4ed233bnat;
    let e28 = 2 * e27 + 1;
    lemma_power_mod_square_times(3nat, e27, n, x27, 0x163bad40af14db57b78623d1db2bea086a0d3cb11fb24e6a986ab7967a63efa1bnat, x28);
    let x29 = 0xccd2b5d5ae1a3102c0b98dee2c155812be08f2e00bbf04e3bc10a993b79931abnat;
    let e29 = 2 * e28;
    lemma_power_mod_square(3nat, e28, n, x28, 0x1feba21be37b6e2b6fbd84e843c770f9a8b75afa0daec1d9219644ed42ea1f72nat, x29);
    let x30 = 0x3e07748d51364989a847dd74d2481431a07c03cdb7607cd36c1009c56a889fb5nat;
    let e30 = 2 * e29 + 1;
    lemma_power_mod_square_times(3nat, e29, n, x29, 0x1eba17db22399b2e308e4f11bcd3a417754e7f5290d93de398580264cf2504aeanat, x30);
    let x31 = 0x2e0fe414ad3cb3e96207aeab7379ebb44559c2df25838c3ba3cf3fb46388644bnat;
    let e31 = 2 * e30;
    lemma_power_mod_square(3nat, e30, n, x30, 0xf079cac08211c32753f2b6369ca7f6dfc5671b709a7a2c2fc20b429fe89b7b2nat, x31);
    let x32 = 0x7b98c765d98d6170e64ce0a5130fae9c887196ef508e1d37f9ff1620d3f3f3bcnat;
    let e32 = 2 * e31 + 1;
    lemma_power_mod_square_times(3nat, e31, n, x31, 0x18dd24dbdba8dc0dd34984ee08c1b904ad8680889e91430e9f3d9f8b665d0601nat, x32);
}

proof fn lemma_power_field_prime_over_3_part_1()
    requires
        power_mod(3nat, 0x155555555nat, 0xfffffffffffffffffffffffffffffffffffffffffffffffffffffffefffffc2fnat) == 0x7b98c765d98d6170e64ce0a5130fae9c887196ef508e1d37f9ff1620d3f3f3bcnat,
    ensures
        power_mod(3nat, 0x15555555555555555nat, 0xfffffffffffffffffffffffffffffffffffffffffffffffffffffffefffffc2fnat) == 0xa42168147ee800079e861762a1e73782e89c6fde5b8fc766ac22134a22d7800fnat,
{
    let n = 0xfffffffffffffffffffffffffffffffffffffffffffffffffffffffefffffc2fnat;
    let e0 = 0x155555555nat;
    let x0 = 0x7b98c765d98d6170e64ce0a5130fae9c887196ef508e1d37f9ff1620d3f3f3bcnat;
    let x1 = 0x5a9dffcb9011f2c760f5f1435943eedb0a106d51c98de2c2ac0d561b48c7ede2nat;
    let e1 = 2 * e0;
    lemma_power_mod_square(3nat, e0, n, x0, 0x3bac2ac9434fb445634cc1908424602515adca7e83107326678aa1a2a1152d32nat, x1);
    let x2 = 0x351a0670ee4f1c67fd9b4e7122145316a22617fa1adcaa36dcd12e858b48d146nat;
    let e2 = 2 * e1 + 1;
    lemma_power_mod_square_times(3nat, e1, n, x1, 0x603a6c1ca1b77ecc97cadb28619785c9b5c174a57e28c73756b07d1f3254639anat, x2);
    let x3 = 0x3f503f00554b3203167c88949da27bda06ec1fe75ce4976fb6ceaf7e49aa5937nat;
    let e3 = 2 * e2;
    lemma_power_mod_square(3nat, e2, n, x2, 0xb03c95011c6a6d1ec86be2bdd8b7c8bd1f981dd06c4d2c8a0dc0deb9a0acca3nat, x3);
    let x4 = 0x5bf5d1c659bf96fc0ef1916db3378d953b440358cea4d3e4bbb9601196ba95f1nat;
    let e4 = 2 * e3 + 1;
    lemma_power_mod_square_times(3nat, e3, n, x3, 0x2ef9c87ccd1472c7b217aa44969e29c0c3e909c2117abcced5897f61f3db661enat, x4);
    let x5 = 0x1622951ab903acf457015c6d926fe7aabc0852123cef286d10663bcdf22e237dnat;
    let e5 = 2 * e4;
    lemma_power_mod_square(3nat, e4, n, x4, 0x2108af2e355b7647f9703c6fce133894d212b35c5f81341808db5a6f28f43fdcnat, x5);
    let x6 = 0x84c6aa112704b6935dbc7a6de8915655dbd16e1c2306d6fc8f9d728f80ba1bf5nat;
    let e6 = 2 * e5 + 1;
    lemma_power_mod_square_times(3nat, e5, n, x5, 0x5bde2e59d39ae94f4efa58de5671c03a9f71b6c90126b9f6a5244b8febe05banat, x6);
    let x7 = 0x106d8cee80c487d8ce90f3122393f75cf75564779ca2eee09ccbbdc2006f2e85nat;
    let e7 = 2 * e6;
    lemma_power_mod_square(3nat, e6, n, x6, 0x44dd798d33c0008adbadc5969cdc16a2189e6a552ffb42d693004508c6b6344cnat, x7);
    let x8 = 0xf6b209fb2988a683a2174fc10029ce261747e813737b417a36f6638e9c5293f5nat;
    let e8 = 2 * e7 + 1;
    lemma_power_mod_square_times(3nat, e7, n, x7, 0x329a17d6257da2441aa98caf3b8ae321e46d1f7867dbe0f00d621ebef5bb28anat, x8);
    let x9 = 0xadb52856dd696bcda9d77a50cf8cacfdd3b5a2244a6b928c668ae4b82a64171cnat;
    let e9 = 2 * e8;
    lemma_power_mod_square(3nat, e8, n, x8, 0xedbaa700957c01629efb0b7ed41d330339387d98221bb3713eaf6e5ecaaa4c33nat, x9);
    let x10 = 0xfc5a487102072cecbb590c32bda7167ebe38a686c467caede3e5e2ffc364fc32nat;
    let e10 = 2 * e9 + 1;
    lemma_power_mod_square_times(3nat, e9, n, x9, 0x1619b0a26695280529529da70ff65f11998ed9da6956aacdbfe8860800ead5562nat, x10);
    let x11 = 0x6e69663deb3ef350cb7bdcb5b3aa98ca23b08d8fe37608ff6a27c8d0d096d0c6nat;
    let e11 = 2 * e10;
    lemma_power_mod_square(3nat, e10, n, x10, 0xf8c1de757ff350847ae9f9e724497b9ec8fe8f9a23c05b994fc159e106321162nat, x11);
    let x12 = 0xe3ae96966bd3ebf2485cb9587e500c664d27ae55d5157c9474e853d92d89f28enat;
    let e12 = 2 * e11 + 1;
    lemma_power_mod_square_times(3nat, e11, n, x11, 0x8edc3dc6b95f6b876fa3025fe9033e0c34b5130847347bbd2c0636fee47a4782nat, x12);
    let x13 = 0xdf65de17b733881635eb686ae1f269cc32bf0b713145e001c6cc96336445822dnat;
    let e13 = 2 * e12;
    lemma_power_mod_square(3nat, e12, n, x12, 0xca7f161fd04907434bf21223ad821478bdbdfac95f751a4e9b385c3564159c19nat, x13);
    let x14 = 0x6a54c09e293f9392a1fa6e7233db9a30250c53276f7c1481b46ac90e04e7827nat;
    let e14 = 2 * e13 + 1;
    lemma_power_mod_square_times(3nat, e13, n, x13, 0x248d7e462f1ae6d0fa58f145380f934ee56e66c20ef151b44e42c9a68635674acnat, x14);
    let x15 = 0xd9e2b48d25fb3566f157b161d6e8eb17d45adef339c237d30b22d007cbc892f0nat;
    let e15 = 2 * e14;
    lemma_power_mod_square(3nat, e14, n, x14, 0x2c2a4b91f2e1578494d938d593cf31342c6d0325a732e6d73a593f27db37cfnat, x15);
    let x16 = 0x129df48dffd645fdf41d6bfb96312112625d420402289dbd44629c14f2e5c693nat;
    let e16 = 2 * e15 + 1;
    lemma_power_mod_square_times(3nat, e15, n, x15, 0x22c565c8fb8d531eccb16dcd73fb117123242f2daa4476f5a3b1283a2b998fe23nat, x16);
    let x17 = 0x892a55bbfea611a8a1cb7d4cb3bffc1aa74d9f33f4ce66426e9a2defa8ac43f5nat;
    let e17 = 2 * e16;
    lemma_power_mod_square(3nat, e16, n, x16, 0x15a97d9d7c4ed1dd6f35525d5ff4a2e44855eea2846324c69e35a6b4d00b1ccnat, x17);
    let x18 = 0x7fba086a930c10f317998093274b7ff0b3e2885b6f17222113e3e5b73ee0abdfnat;
    let e18 = 2 * e17 + 1;
    lemma_power_mod_square_times(3nat, e17, n, x17, 0xdc7b044a5edb0ba5bc73e45cbd11bc137b88e12883d2e894a2bf5df03939ac34nat, x18);
    let x19 = 0x4792e0a643f9ff1af6dd8fc45e77c0c8c03e18608e2d6877ef2102ca2ffce459nat;
    let e19 = 2 * e18;
    lemma_power_mod_square(3nat, e18, n, x18, 0x3fba1b89f90a7be8ae2caf72befd78ce0b5af879d53708894b101365a728b498nat, x19);
    let x20 = 0x5dfb2ddb41a391bee5d83fccb9f23ba07c92c7b7db07417698dd171e00f6beebnat;
    let e20 = 2 * e19 + 1;
    lemma_power_mod_square_times(3nat, e19, n, x19, 0x3c0866a3b578c6ccf929f3577b999d3ec3a36b666f2f359080c8f6becc17a698nat, x20);
    let x21 = 0xb4ff9fd00fa8ce86e76e1704455bbfe76004418295224464c0444ef751e50e8cnat;
    let e21 = 2 * e20;
    lemma_power_mod_square(3nat, e20, n, x20, 0x228075c441da5f815f42c658fdc41278fd626167cbcc27b88eb041faefb69963nat, x21);
    let x22 = 0x996814575ec1b372869a258e896f596cb94feda641f5a07e595700b62e9cf96bnat;
    let e22 = 2 * e21 + 1;
    lemma_power_mod_square_times(3nat, e21, n, x21, 0x17fe967f50eda13d2de0ccbb2a2fbd772040d6b3a9eae14d6183aae428d0d8dcbnat, x22);
    let x23 = 0xb194119dad4d1b38965a3f2ba274b7c44afd2af46b1d87b94cdf0289f1c4070bnat;
    let e23 = 2 * e22;
    lemma_power_mod_square(3nat, e22, n, x22, 0x5bed92a0f7de4a8080b64d5aa20c133073ed62b37c82ee6a3c170931bc8b7db2nat, x23);
    let x24 = 0xf399835ccec24ba61c3fd4144ca4e114305f95d027512d4d75dbe50b0996c874nat;
    let e24 = 2 * e23 + 1;
    lemma_power_mod_square_times(3nat, e23, n, x23, 0x1718a42013b81f8c9f68a8b46f2fbc42c737963e73a9b4c209b382fbf843487b9nat, x24);
    let x25 = 0xbc3f5dd7a4c9c7377ef8393faff36729207d76c6db1abfd12941aa040309a0c1nat;
    let e25 = 2 * e24;
    lemma_power_mod_square(3nat, e24, n, x24, 0xe7cccb7078dc1d1be23e966dbe461fcd591a325afa161c53af904bd18f279a61nat, x25);
    let x26 = 0xfd772e3befcc5b7eec59eef9e2f5f9e59ff64f6f2ee7c1ac483247bc24d6e1f2nat;
    let e26 = 2 * e25 + 1;
    lemma_power_mod_square_times(3nat, e25, n, x25, 0x19f47648c25b591df1ea17e08a37bd418578371b5e3e73e7ca738ff1d1622ed3fnat, x26);
    let x27 = 0xd13bbd67696344d9ccfb12ba864d37f655009d6ab8c558c6a7ecf60a5897bce6nat;
    let e27 = 2 * e26;
    lemma_power_mod_square(3nat, e26, n, x26, 0xfaf4c8de7c0c750bc8dc7d604a8d3bde1b831b7fefe342b60bf81515455f4482nat, x27);
    let x28 = 0x462992f16402b6d3ba592d5f81b3f0f21dec10eab9777432b7c7db56b84a1288nat;
    let e28 = 2 * e27 + 1;
    lemma_power_mod_square_times(3nat, e27, n, x27, 0x20107cb9b1ba190afbe0c0fa18e3a355a5dcc54ff8fa87731266dfd91fd2abfdcnat, x28);
    let x29 = 0x70f573c89e75e14b7d7bc73aa6c0211f39b0ba8d2382771ff4594ad25328f149nat;
    let e29 = 2 * e28;
    lemma_power_mod_square(3nat, e28, n, x28, 0x133ac31c685bbe8ae6724f701ea4a215df8768c353ad08552bc1469da62717b9nat, x29);
    let x30 = 0xa11c1d83cef3d989cadb91450d4ea6985dc874c1cb97e076ac88758231d346b2nat;
    let e30 = 2 * e29 + 1;
    lemma_power_mod_square_times(3nat, e29, n, x29, 0x958711f3170ceb0b80ee2af27835a44433ad2d8c354b14ac9f06a6c05cd7290fnat, x30);
    let x31 = 0x787ac94cdd9d3764a9a63cd0bb43362f77943dbe8775a1edb01c304827ffa80bnat;
    let e31 = 2 * e30;
    lemma_power_mod_square(3nat, e30, n, x30, 0x65646036428b1db79b73c21c746387236e114d5c9a766bb9a9d2bb0882db5497nat, x31);
    let x32 = 0xa42168147ee800079e861762a1e73782e89c6fde5b8fc766ac22134a22d7800fnat;
    let e32 = 2 * e31 + 1;
    lemma_power_mod_square_times(3nat, e31, n, x31, 0xaa1a06d5a1f13a952381fb76a538acb4cc5882bc1b4c140640322d7ad632e164nat, x32);
}

proof fn lemma_power_field_prime_over_3_part_2()
    requires
        power_mod(3nat, 0x15555555555555555nat, 0xfffffffffffffffffffffffffffffffffffffffffffffffffffffffefffffc2fnat) == 0xa42168147ee800079e861762a1e73782e89c6fde5b8fc766ac22134a22d7800fnat,
    ensures
        power_mod(3nat, 0x1555555555555555555555555nat, 0xfffffffffffffffffffffffffffffffffffffffffffffffffffffffefffffc2fnat) == 0x4bdff688527acbe39e142e025d475e8fa9676a292416ffd2f28a1e7726721469nat,
{
    let n = 0xfffffffffffffffffffffffffffffffffffffffffffffffffffffffefffffc2fnat;
    let e0 = 0x15555555555555555nat;
    let x0 = 0xa42168147ee800079e861762a1e73782e89c6fde5b8fc766ac22134a22d7800fnat;
    let x1 = 0x446e0d10b3f77a8abb2f4f0007f85691872fb5fb249adaacd00014b789420c22nat;
    let e1 = 2 * e0;
    lemma_power_mod_square(3nat, e0, n, x0, 0x693ad1b64232a09a584210cdacad19fabaa79155c21c602e0ec580fc1dec9c71nat, x1);
    let x2 = 0x1c4aaf34de87a2475d25036e3e3d07e64c76cacd488429b4663a6ea86f229c21nat;
    let e2 = 2 * e1 + 1;
    lemma_power_mod_square_times(3nat, e1, n, x1, 0x36dff2c04fe27f6f67ae42c170fda2bb8b456afca9a111b7e3af5b9b2e3e9385nat, x2);
    let x3 = 0x4ea9a00992645f87e2121b3eb82887104f153574a10e6a7f6a3c3a5efe621e34nat;
    let e3 = 2 * e2;
    lemma_power_mod_square(3nat, e2, n, x2, 0x3206c1d5327a5120608f5ccdec247a8227118f93c9083ed0019b02d31668e83nat, x3);
    let x4 = 0xd1db16f218d4fbcec3bd3e520387307d8a7c0863f03d7712731b6a9132cf4cb3nat;
    let e4 = 2 * e3 + 1;
    lemma_power_mod_square_times(3nat, e3, n, x3, 0x488369bf91ad3e42101030e97416aeab0c3fbd8831bdbdd0c975ede9275cac93nat, x4);
    let x5 = 0xdda633e3aad25b570e8398d5c23e7b2aeb6d7185595c82640167b956002751a4nat;
    let e5 = 2 * e4;
    lemma_power_mod_square(3nat, e4, n, x4, 0xac0776f790d0c0c5ffba2281ed6b7a1725c4dfcf536443e5f14ea798d0095a8bnat, x5);
    let x6 = 0x35ad99dabf519e74888bbd49b2dc925a9ece6510c846125363603432cbe15610nat;
    let e6 = 2 * e5 + 1;
    lemma_power_mod_square_times(3nat, e5, n, x5, 0x23fb9247b401fb120e62e48a328aecaeed6dff313c2ca31e617f114a64b2aace0nat, x6);
    let x7 = 0xb164355fb321765077d1a7161848c03e766a4006c25697142ac0e53f550a7c1cnat;
    let e7 = 2 * e6;
    lemma_power_mod_square(3nat, e6, n, x6, 0xb41576de15593865f6e77657b7e8681e17d47e652d3582e3a5d21ceaff79c5cnat, x7);
    let x8 = 0xbdc90473367a81a1a174adb68e65348eda80e2675536e8958604893d77f06a9fnat;
    let e8 = 2 * e7 + 1;
    lemma_power_mod_square_times(3nat, e7, n, x7, 0x170c32b183acaf315ff29620337d743c532d4134994738edafb0956f43d06413fnat, x8);
    let x9 = 0x6aa5b70267ede17bdd284213700acf1bef3ff72da19597c303d684f0ea0a3d80nat;
    let e9 = 2 * e8;
    lemma_power_mod_square(3nat, e8, n, x8, 0x8cb26e6a1b703d5609eb3f4b0afe38413741f94d69fcd3dd467272efad337d8fnat, x9);
    let x10 = 0xccbd63c92bd10a5d40f1fa35913662315fbc3e86c451b295e0c638d8ba475d16nat;
    let e10 = 2 * e9 + 1;
    lemma_power_mod_square_times(3nat, e9, n, x9, 0x8548f47a3dfe37f15d48f3abb08b24fcfd58b30f80dcad91ccc4a64146859f36nat, x10);
    let x11 = 0xa903bc57162fecf4ac32025a63b86c11e4a49e1d6a3c10b81dd3a82f0368c58dnat;
    let e11 = 2 * e10;
    lemma_power_mod_square(3nat, e10, n, x10, 0xa3be63251bc5112770f9d6e936882d6d76e8fd0f8bd086c2e51c3d0b26543459nat, x11);
    let x12 = 0x30d157326aab7dea47f9657d21eed02c483f89650066fa2b6fa2ec2bee3789a1nat;
    let e12 = 2 * e11 + 1;
    lemma_power_mod_square_times(3nat, e11, n, x11, 0x14ec1cc2acfb176933ad6439269fa2106549965f6f73c109763b18e9de24ff7c6nat, x12);
    let x13 = 0xf984eb890fda7184f81b7c7c2062e3bfb42720299bcbcba1da6e4b282083fcd7nat;
    let e13 = 2 * e12;
    lemma_power_mod_square(3nat, e12, n, x12, 0x94f2be26605c9a9da8beeddbbf6f7dc80b85441a49cfdd45ad5b5b918fb5fb6nat, x13);
    let x14 = 0xc8a397ad384cd867003b49301dedcec355dd7e7f2f94c7b669b346ea19d636bdnat;
    let e14 = 2 * e13 + 1;
    lemma_power_mod_square_times(3nat, e13, n, x13, 0x2d99b859d1caca3c442e8d81aea8bfe80e610be15670d0d0b2b0d2ea4338584eanat, x14);
    let x15 = 0x369e7ea4bf96e1823eeee1a5b1281f3d7a3f2c4e7892023cf3623c5727512f07nat;
    let e15 = 2 * e14;
    lemma_power_mod_square(3nat, e14, n, x14, 0x9d400589286b919c4f0ea114e6b16b4b3d1d459f95d23c34f2cbdac25cef651enat, x15);
    let x16 = 0x1ea1c198a6b713350383f8b9f9c7331349163edde7bb3f4dcfb5cf41f13e03ednat;
    let e16 = 2 * e15 + 1;
    lemma_power_mod_square_times(3nat, e15, n, x15, 0x22f5beaa388433ff9a0648f4d5ecb0c59a9bb9ea0393ccc36b92bf0cfacd703anat, x16);
    let x17 = 0xac17d9b91186f8a66e4b2259959b82be99714105316510358b65d1656682b291nat;
    let e17 = 2 * e16;
    lemma_power_mod_square(3nat, e16, n, x16, 0x3aa4f94db7c212d06700860d201babc906144cb4ce71d903cb5190259f248a8nat, x17);
    let x18 = 0x3531f024876ca3be53c5bce3c2d23b610bd9a042dc44e26c4e93122e72302034nat;
    let e18 = 2 * e17 + 1;
    lemma_power_mod_square_times(3nat, e17, n, x17, 0x15b102c5c97ed5da46dc88a1c110d158e660baf543b679a498b803fdf79a71a01nat, x18);
    let x19 = 0xa6d099584f23916bb04a5e5a82387329bedaae11850194f6b783ffc6889c072anat;
    let e19 = 2 * e18;
    lemma_power_mod_square(3nat, e18, n, x18, 0xb0db72cef5356858ec29f503d50f6a7bfa3a895b8cc0291451dc54d446c3b7anat, x19);
    let x20 = 0xfeb759c5fa1c9a75bc408ca5088b1bb46d1005081c3220d87229391cc1e86187nat;
    let e20 = 2 * e19 + 1;
    lemma_power_mod_square_times(3nat, e19, n, x19, 0x14619928835f83658f515c3ff0a2b6d9b162902e02123052eddf85aafdcce68ebnat, x20);
    let x21 = 0xe78df72edd42305e01fef894d367d532ff127ba40792ff2328a34c78a0f02df4nat;
    let e21 = 2 * e20;
    lemma_power_mod_square(3nat, e20, n, x20, 0xfd70597654d798693daab25948aa953fe32b5aeced003861a3d299d0ff849c53nat, x21);
    let x22 = 0xb6a186db5fbbddfde8430d62fd752da4c8adfae7145f89c6032dd7b1be21d1e9nat;
    let e22 = 2 * e21 + 1;
    lemma_power_mod_square_times(3nat, e21, n, x21, 0x27454887262c9f136c2876d354980457e4e55f463508427998d2ae4c44f6f97e9nat, x22);
    let x23 = 0xdcbb548e9013c99b3d1a533b4413a9e08acfffab389668d089946ae55cfeacfcnat;
    let e23 = 2 * e22;
    lemma_power_mod_square(3nat, e22, n, x22, 0x824a11aad317ee27db3e1391af7567bbbbfa9fc557f5f36c5058a6715ec759fbnat, x23);
    let x24 = 0x4822957513aef72dfd2391de7d7c28835310989aa60ae48846c7feed79feecb8nat;
    let e24 = 2 * e23 + 1;
    lemma_power_mod_square_times(3nat, e23, n, x23, 0x23af7873d038318157778f08021e8ec45dd673bb814a058871edaedfb19232608nat, x24);
    let x25 = 0xb24387aa13d497b18e5d4dfc89fd5b952472b32b25f13dd9d730f1d233262b1nat;
    let e25 = 2 * e24;
    lemma_power_mod_square(3nat, e24, n, x24, 0x145378bde56d23f831c8287a74c0a9f4c9a0416603f24b4c9e0342ccf30eb8a1nat, x25);
    let x26 = 0xe4df70bba7053ca51f481cd1d8c39242906f6587889c65a30e6740973aa5d8bfnat;
    let e26 = 2 * e25 + 1;
    lemma_power_mod_square_times(3nat, e25, n, x25, 0x17465ef6a6b7c8268a25ec0f4540b305c2455345dcd5dfdac17206f499cb6dcnat, x26);
    let x27 = 0x5d0a38619f5c166d0c46462d0553f27021b385e273f4b68189ee54d5d630c692nat;
    let e27 = 2 * e26;
    lemma_power_mod_square(3nat, e26, n, x26, 0xcc9ec3d3da130ad7cb13dccda7e6d9133c3baa6b7c88183df7282cf8d273f041nat, x27);
    let x28 = 0x77504cbcf642fe0be3f574acc0243f84042f64d289db67ec37653359ea9c03e9nat;
    let e28 = 2 * e27 + 1;
    lemma_power_mod_square_times(3nat, e27, n, x27, 0x6571481e257ca34e44b4b86778cdfa2f373258e6c1975272cf041f214e32e88dnat, x28);
    let x29 = 0xd05aaa1335210b24f540328dbd8d25c057819d24d03840620f7a35028785e115nat;
    let e29 = 2 * e28;
    lemma_power_mod_square(3nat, e28, n, x28, 0x379bc087ba0cefc03b7dae78e8bc9938c94f22e2d712f767a1543e730812bbc4nat, x29);
    let x30 = 0x741fc5183d883bbb928f0828e5666d30619e408af35354ba593c0a4b2ff9bfdanat;
    let e30 = 2 * e29 + 1;
    lemma_power_mod_square_times(3nat, e29, n, x29, 0x1fcba5d71b67db40a1fc09a2227bf35d17eba94e6a1da10e6c5999f69c0cc987fnat, x30);
    let x31 = 0x87df4b48614325e658bec8ff4bf527ddff8dbf8dfa008d03ac02c0ce5d37a150nat;
    let e31 = 2 * e30;
    lemma_power_mod_square(3nat, e30, n, x30, 0x34acce8f4b60ae1fb88335bb9040bb5678d6c5b39aad0defb05c6a2f70d067ecnat, x31);
    let x32 = 0x4bdff688527acbe39e142e025d475e8fa9676a292416ffd2f28a1e7726721469nat;
    let e32 = 2 * e31 + 1;
    lemma_power_mod_square_times(3nat, e31, n, x31, 0xd857cc7fbe75473b838236d3ae3ae91821485993a1a9c2456121a5fc650c6a19nat, x32);
}

proof fn lemma_power_field_prime_over_3_part_3()
    requires
        power_mod(3nat, 0x1555555555555555555555555nat, 0xfffffffffffffffffffffffffffffffffffffffffffffffffffffffefffffc2fnat) == 0x4bdff688527acbe39e142e025d475e8fa9676a292416ffd2f28a1e7726721469nat,
    ensures
        power_mod(3nat, 0x155555555555555555555555555555555nat, 0xfffffffffffffffffffffffffffffffffffffffffffffffffffffffefffffc2fnat) == 0xf3c5443145ecb6975ec3bda0f1e54171539c610c357f843264e2d7aff6690fenat,
{
    let n = 0xfffffffffffffffffffffffffffffffffffffffffffffffffffffffefffffc2fnat;
    let e0 = 0x1555555555555555555555555nat;
    let x0 = 0x4bdff688527acbe39e142e025d475e8fa9676a292416ffd2f28a1e7726721469nat;
    let x1 = 0x765e69d81ee9c4da8b3dee13a082b61bbd90faaf27bafe67c996a3097c813518nat;
    let e1 = 2 * e0;
    lemma_power_mod_square(3nat, e0, n, x0, 0x167cfe634f3dec8252123549113e2152497d2fb2b67efc792a7583acb9497657nat, x1);
    let x2 = 0xebdd89b7d903945804ca010e56d50ec98747382ed6f78cfbec62c7c94b25fa98nat;
    let e2 = 2 * e1 + 1;
    lemma_power_mod_square_times(3nat, e1, n, x1, 0xa431852f68eb9ee1efab4ebb8e0abeecec9abfafa108ac9d0ade18a424a79458nat, x2);
    let x3 = 0xb70795b47addbdb43bc1cf9ef70c6496d2aa7e493e6a3ffcaa0b1370ea738de6nat;
    let e3 = 2 * e2;
    lemma_power_mod_square(3nat, e2, n, x2, 0xd9507a8e99ef8cd5889e7f373c4066c4e67aa2c6ca79ff5b365cee99f1b560c6nat, x3);
    let x4 = 0x8475ccd14d94287768cfee4b33a65342a02b9dfd229e8c3aff91fde6ee05cbf6nat;
    let e4 = 2 * e3 + 1;
    lemma_power_mod_square_times(3nat, e3, n, x3, 0x1889388c4ad39fad18cbb15f9688749c3a4d6bdac5f4bae5d6bafae46a0229feanat, x4);
    let x5 = 0xcd4417732006174aacff69fc99cb05aae2e5058cc8402f3ce8cd6181396b7b42nat;
    let e5 = 2 * e4;
    lemma_power_mod_square(3nat, e4, n, x4, 0x4489b16cb32ff1ec052713e88acf7b38950fefcf2d86ca4111dd5fc295696a7enat, x5);
    let x6 = 0x4e210231ee771128483653eb93a928ac36570dcc84a08454f2a07e2ebadef86fnat;
    let e6 = 2 * e5 + 1;
    lemma_power_mod_square_times(3nat, e5, n, x5, 0x1edc25f0089c9f8328f3480bbdbabcc8d8079e420a77726276c780233c9b242f3nat, x6);
    let x7 = 0x97b74664dccec1f2c533b7d7051cfe9ee4978495908bb06e03493a7ed05c2a8cnat;
    let e7 = 2 * e6;
    lemma_power_mod_square(3nat, e6, n, x6, 0x17d82197fe34da9dfc5e86f989b17b5c80f73e7b007280c8f45f83c5ceec057bnat, x7);
    let x8 = 0x7038e0d38cad01ed701da07f536f404d27265b570864d4f07b396373717347fnat;
    let e8 = 2 * e7 + 1;
    lemma_power_mod_square_times(3nat, e7, n, x7, 0x10dbd28c21c20baabff4fc1fa6cead4267f5b9446326ba5aa62c3c4bae044209fnat, x8);
    let x9 = 0x35ee76b873c562793e5835c2d5480958de4a6d9d99278f08bd8bc6549763fbebnat;
    let e9 = 2 * e8;
    lemma_power_mod_square(3nat, e8, n, x8, 0x3131d15c3d17d2608fd95a0797f8e385107c415b968ef496561f6ab9eb82canat, x9);
    let x10 = 0x55ac27adb81f7a05c6dff63a94df40356a0793c1cb14da3e157cca94fd874707nat;
    let e10 = 2 * e9 + 1;
    lemma_power_mod_square_times(3nat, e9, n, x9, 0x2215d1dc01e0a83dac621e19a04ea3297bfbeeded056f32e9838ef4e6021af1cnat, x10);
    let x11 = 0xd170ad85a8c80a09e188961fed548d09d0accb8f87a111b21e3990b1a5c07610nat;
    let e11 = 2 * e10;
    lemma_power_mod_square(3nat, e10, n, x10, 0x1cabc61eb3dab54fc3f9e823e2be8f0ba99c342b4efad1ea64925b40bb4d78afnat, x11);
    let x12 = 0xea4f8ba959ef3379e245e996a12b1c470209ae21ff1da2699c11d810468332denat;
    let e12 = 2 * e11 + 1;
    lemma_power_mod_square_times(3nat, e11, n, x11, 0x2020b86c59878b1fc46cbeda5485de601459853c01720c4e1417f94a03df6df7enat, x12);
    let x13 = 0x301c4201f2b6e9f86f6b49ee0015c780e1280f4ec7e008ad1de47a970c504e9anat;
    let e13 = 2 * e12;
    lemma_power_mod_square(3nat, e12, n, x12, 0xd67584091720236e3631fa1e1cd529574ba6a6903c2a8d633cb90364c4a98836nat, x13);
    let x14 = 0x36ea33ea2a4405dabd1c50e3e3b8545fe4360ba8d32bb91777a24577c1d0d286nat;
    let e14 = 2 * e13 + 1;
    lemma_power_mod_square_times(3nat, e13, n, x13, 0x1b1fd39db56412bf5cf298e2785ac326f584d2592b3029c6a5db606793b9f37anat, x14);
    let x15 = 0xa9a4e345f75197a37fe73403e5723d405e4a5f30a0a3e94b0135a92f33752d53nat;
    let e15 = 2 * e14;
    lemma_power_mod_square(3nat, e14, n, x14, 0xbc7a429bc7119db6153e91de710c5c9ed0b6726e1e0b3a700ab925a1877a2ffnat, x15);
    let x16 = 0xa2aea890b97afb4502a9b78fbcf6c88ccd7f40472c8c2e7cf77d95ddb7e42a8cnat;
    let e16 = 2 * e15 + 1;
    lemma_power_mod_square_times(3nat, e15, n, x15, 0x151415ad313db476e54942778b8bb66b72a419848c4edbbe1496a7f4199518c01nat, x16);
    let x17 = 0x73e45b50bf4e9fb5c425b02925c307e945902f1e65840662231f88449b8c6497nat;
    let e17 = 2 * e16;
    lemma_power_mod_square(3nat, e16, n, x16, 0x67618480be7a0e7383b6a66764a899e741eb82f03883dcd25db708e8294e1c57nat, x17);
    let x18 = 0xfd44a26a08f3a3e1e0821c5b74f08f1c52dc80059e2735ac7f375a8cf08584a0nat;
    let e18 = 2 * e17 + 1;
    lemma_power_mod_square_times(3nat, e17, n, x17, 0x9d64e137fcd7bb0b6eee1ec13f50b0d55414a659946576a17a1c1b18025266ddnat, x18);
    let x19 = 0x536e3c43e2c788acd6326ae6f2dbd2a22ba9aa2de18d57ed8cbec0f544316543nat;
    let e19 = 2 * e18;
    lemma_power_mod_square(3nat, e18, n, x18, 0xfa90bb6c4510b29b4b3e2a7d131e9a60f5cf839304ef3ea9c82f814cfd6e1cd3nat, x19);
    let x20 = 0x8e6c35925ad3481c374660e32d9c98b5ea7903bdcaebd73a7bec7c51dbfcbfcenat;
    let e20 = 2 * e19 + 1;
    lemma_power_mod_square_times(3nat, e19, n, x19, 0x5191ffa398bc7f36a67cb514f0f4c0e131a29a966aa7f0cf87708300bf5cb9c3nat, x20);
    let x21 = 0x88f816fca092e55b9e3af40215964947c7f8f923abf10136ff1f1923fb763afanat;
    let e21 = 2 * e20;
    lemma_power_mod_square(3nat, e20, n, x20, 0x4f3c392b9b74f38b5a33e303c05d45e4b3d930afb63c71219dac70f8db689956nat, x21);
    let x22 = 0x620fad172687d354935c788101d62941b0998001691997f70c089e9ac40ff0canat;
    let e22 = 2 * e21 + 1;
    lemma_power_mod_square_times(3nat, e21, n, x21, 0xdbd99a8ae26abf9a7ce95c1cb24464f08ce94a0c063cc3d527a4422e51f603fenat, x22);
    let x23 = 0xfff39071b47895b11c3a5d33aa6e13bb30fe7d40ecb4b7d4d40456e790c57084nat;
    let e23 = 2 * e22;
    lemma_power_mod_square(3nat, e22, n, x22, 0x2590017b773ecde30a90f44407699881c5e90015850a79cf8123bdf6d76ce720nat, x23);
    let x24 = 0xc4da43b4a4ad617e2cb7dff27357db350b1658f1d74d921bca9fae48166a1baanat;
    let e24 = 2 * e23 + 1;
    lemma_power_mod_square_times(3nat, e23, n, x23, 0x2ffb5647a2caede027ba729ac8dc44c66124d4885adc7abeb943d6e66e673f85anat, x24);
    let x25 = 0xc205ccf08e83c16ac25683fb068923c77ae5aae01226112fce32d47a02528602nat;
    let e25 = 2 * e24;
    lemma_power_mod_square(3nat, e24, n, x24, 0x975ef1c3fdba023dfe2577425e4bb22375997d60ba3c20efa8e74274b33124benat, x25);
    let x26 = 0x81bce4fb80b84cd5b1709c60b5143a44350907013dc427b9a8fd717e29ad6232nat;
    let e26 = 2 * e25 + 1;
    lemma_power_mod_square_times(3nat, e25, n, x25, 0x1b926603ab860966a9e0ddb1585c7fb8a37a948b2c581fcbdb35a1bd8cddfdf46nat, x26);
    let x27 = 0xbc077e83acd2b62345b61e5a7f893ce7ec1c015101b88735e95da779359411ddnat;
    let e27 = 2 * e26;
    lemma_power_mod_square(3nat, e26, n, x26, 0x41bfea2695efc07e29ac3b9de996829a8c67d419da217f0f2a6ce5832acbf1c9nat, x27);
    let x28 = 0x1cf614026ded258734474785a41617e4a91ce8528a93aa4f77112ecbb0a34039nat;
    let e28 = 2 * e27 + 1;
    lemma_power_mod_square_times(3nat, e27, n, x27, 0x19e51061caeac72aa8bcabe55c2fdde0a3b00f4bf6382d7f1413e9de307e9057enat, x28);
    let x29 = 0x81b0e86b118a0f2b994f39065e0f5617bbd40e2cfd8ad5e1ff9d1f2249d942aenat;
    let e29 = 2 * e28;
    lemma_power_mod_square(3nat, e28, n, x28, 0x346c0eafe47852ca80d948e49620ad0f83b2ae928119625691668fe23a7366dnat, x29);
    let x30 = 0xbdc6a587ee54e0cc80c846dbb397a8f25439e2b9be80a4442b0e63ef52243fnat;
    let e30 = 2 * e29 + 1;
    lemma_power_mod_square_times(3nat, e29, n, x29, 0xc51b4d74e9b6791217afeb922c31d61b93c64dda418b938a91cdf9d395542e03nat, x30);
    let x31 = 0x91d2ef909c52fc060288ba7249b220d7906db22b88432adb6b6530c47da78a9dnat;
    let e31 = 2 * e30;
    lemma_power_mod_square(3nat, e30, n, x30, 0x8caeea8f2f3680a057ad92408ca91b330f0a781c016a96db3450166f245cnat, x31);
    let x32 = 0xf3c5443145ecb6975ec3bda0f1e54171539c610c357f843264e2d7aff6690fenat;
    let e32 = 2 * e31 + 1;
    lemma_power_mod_square_times(3nat, e31, n, x31, 0xf931e38f2f916da6685d1b39bff3cebad88f6789be169fb301f00a3878f4a9b3nat, x32);
}

proof fn lemma_power_field_prime_over_3_part_4()
    requires
        power_mod(3nat, 0x155555555555555555555555555555555nat, 0xfffffffffffffffffffffffffffffffffffffffffffffffffffffffefffffc2fnat) == 0xf3c5443145ecb6975ec3bda0f1e54171539c610c357f843264e2d7aff6690fenat,
    ensures
        power_mod(3nat, 0x15555555555555555555555555555555555555555nat, 0xfffffffffffffffffffffffffffffffffffffffffffffffffffffffefffffc2fnat) == 0xf7284981d76a3b5f7d4cd91c2071aaeff2830238c796b44ffefab56dff1a561fnat,
{
    let n = 0xfffffffffffffffffffffffffffffffffffffffffffffffffffffffefffffc2fnat;
    let e0 = 0x155555555555555555555555555555555nat;
    let x0 = 0xf3c5443145ecb6975ec3bda0f1e54171539c610c357f843264e2d7aff6690fenat;
    let x1 = 0x27dcd5d63a101797ea57d71a36ef740639cf89a4061bb5af3ed4cfee7f6a3a91nat;
    let e1 = 2 * e0;
    lemma_power_mod_square(3nat, e0, n, x0, 0xe820177790bf3795fb9738da6b016e8fe46f456b5696c3348bc351771f69fdnat, x1);
    let x2 = 0xcad1659cf97c668b81c73ed091eb941efa2072cfc7ef86ff9d8f26cf6377ce21nat;
    let e2 = 2 * e1 + 1;
    lemma_power_mod_square_times(3nat, e1, n, x1, 0x129f16f68188a83639853c7c5bd71c95640e67c8a1402fb5fb35f7175531455enat, x2);
    let x3 = 0x518e1c62bd40bef6494317c5e1e1462f4f7f8a99cd28cea175fba8589a351e27nat;
    let e3 = 2 * e2;
    lemma_power_mod_square(3nat, e2, n, x2, 0xa0af1fa2cc5cec10c442a0d1fbe9f266036d0accac1b4704736548b0b9fc3706nat, x3);
    let x4 = 0xd5254706807e9c74f78fcd96727690b2f48ea0a0f9d4d760b5affa9532ef40e5nat;
    let e4 = 2 * e3 + 1;
    lemma_power_mod_square_times(3nat, e3, n, x3, 0x4df1b68df5580475ec836f382c6680bdb0dbef74d796b28496eb67d81ee71072nat, x4);
    let x5 = 0x6b702f862948fd915ee95f177bdaf294ae9b62c4b3652491927a806950d912a2nat;
    let e5 = 2 * e4;
    lemma_power_mod_square(3nat, e4, n, x4, 0xb1770d9e6d6870645efbed8e810fbbe81f59cd5226a0c8bab8c40ee843c47879nat, x5);
    let x6 = 0x41245e3a9390ab96498d85fd9f3c7fd89fa49fbb0c4297e3b9265d0acc31980enat;
    let e6 = 2 * e5 + 1;
    lemma_power_mod_square_times(3nat, e5, n, x5, 0x8744eaab4e2d07e85226464631ed1ae8a0321d69f94f7ab09bfeec5b47574ee2nat, x6);
    let x7 = 0xb997a551c432fea345ecadecce420fddb80d7745ed826e22fd000982e14da9danat;
    let e7 = 2 * e6;
    lemma_power_mod_square(3nat, e6, n, x6, 0x10937d0462180998043e22c5d145df61e579fe4ab1ca4dabb3beafb802e24b36nat, x7);
    let x8 = 0xfc73ddd9dd207bf72eab992d00387a2447faec14f9097a81e687a16acc9cf478nat;
    let e8 = 2 * e7 + 1;
    lemma_power_mod_square_times(3nat, e7, n, x7, 0x193a5944ddc5cfba78faae457beb6c0c98960fe138826795615291dd54b4a71ccnat, x8);
    let x9 = 0xcbb5dfb1fae6a9e6623930091a522b79dcae54988734154989e4266ee8df51b1nat;
    let e9 = 2 * e8;
    lemma_power_mod_square(3nat, e8, n, x8, 0xf8f45135fd568070ba11cd859ca62ac30766e422b1b00c466a9f24dfa8f483a1nat, x9);
    let x10 = 0xb4b73bb16df43471c465e33d5f0d3cd823364985c28f01998ae57777bb27f4d4nat;
    let e10 = 2 * e9 + 1;
    lemma_power_mod_square_times(3nat, e9, n, x9, 0x1e64dd5ef0b2a7f6f2d41af428bdbfd8b9becbaa52471c44a28a52e85cca615e1nat, x10);
    let x11 = 0x2c15c108c2f0e957be7fecb1cce2c6c0ef7e7e73e4177dc9fd0b24ce573fb54nat;
    let e11 = 2 * e10;
    lemma_power_mod_square(3nat, e10, n, x10, 0x7f922f17e835e08ac1ece4ae9fe6973e45bea07753e09f733dc03236b472f484nat, x11);
    let x12 = 0xecfb9642b1bf17f0787b8a28f12b71fb651ac45e3f6cc5e3e891f5dc63ad101nat;
    let e12 = 2 * e11 + 1;
    lemma_power_mod_square_times(3nat, e11, n, x11, 0x16c6749cc00305e95fa864563d4517088bebeeb824223c5c9a145598ed4a81nat, x12);
    let x13 = 0x9cb4755addb6a510553b04147f6c5b1050a493a21a4130d1b4051daf5bcf1bb5nat;
    let e13 = 2 * e12;
    lemma_power_mod_square(3nat, e12, n, x12, 0xdb60d44af6b31a8861affbea9037f201631b64567c8e0942758a3303858f74nat, x13);
    let x14 = 0x210d51d40d1ec52d98cda32f32374a49b6cc66a515d952d959220b54c593659dnat;
    let e14 = 2 * e13 + 1;
    lemma_power_mod_square_times(3nat, e13, n, x13, 0x11fc54ab3f35fb2c8da7ce1f7b877fa55d67116ee2a56be43f72fc0ed6d996712nat, x14);
    let x15 = 0xc1210fe3782f624a2735111f6a466bda62385fc61af112cfc1f6148bcb9d18cbnat;
    let e15 = 2 * e14;
    lemma_power_mod_square(3nat, e14, n, x14, 0x4446fca151323e8fc701ae563ab66c750032e558abf1bae3c0e39d77c04f8e2nat, x15);
    let x16 = 0x9cda4db4c080917f338954f3332e5338d43579dd321dc14facfb7d70954d16d0nat;
    let e16 = 2 * e15 + 1;
    lemma_power_mod_square_times(3nat, e15, n, x15, 0x1b5189aae3e8aa1dd30a0bd8cde8be5f09caa2d60a6f5dccb4e8f302bc8d727d5nat, x16);
    let x17 = 0x782356aac245db42f55308a4ee05b9ecf2cd022fb1e46f5948d40e597407a59cnat;
    let e17 = 2 * e16;
    lemma_power_mod_square(3nat, e16, n, x16, 0x601ac8dcba0ac7b77087601eca00437455764520609329e5d24c55bf34d2e5dcnat, x17);
    let x18 = 0x5be7b480a756190a823fb74d8b1a4c1285f89fe49c3c3c7c750bd8c5a358410anat;
    let e18 = 2 * e17 + 1;
    lemma_power_mod_square_times(3nat, e17, n, x17, 0xa9237262b27d5b42c57935d6061f67d92de527bb1385f192c8f2da95470836banat, x18);
    let x19 = 0x45bff82a14a6e7a38fa13c05841a1b8d6900d075f3fa1519cbf63b140d13ccb1nat;
    let e19 = 2 * e18;
    lemma_power_mod_square(3nat, e18, n, x18, 0x20fe8c0ab66a5f2780419e9a53c3c687be94a97473f53bdc208c1f0f1e8937bdnat, x19);
    let x20 = 0xc5259e42c0d78a9a587030386c4e8c579c5402a88d170a931c974241b52b2aa8nat;
    let e20 = 2 * e19 + 1;
    lemma_power_mod_square_times(3nat, e19, n, x19, 0x39032330cb7b0a8df029f1ba8462df4382c060e1ad24ec73bcfd3e530742a575nat, x20);
    let x21 = 0x508b09eb041267a7c78f500675beec9eac3c179e871f476b608a1612e8b5d0a2nat;
    let e21 = 2 * e20;
    lemma_power_mod_square(3nat, e20, n, x20, 0x97d2eb19ddedf111ac383cc67b524ea95068e7efa4d78d50a919bd1d30fefec2nat, x21);
    let x22 = 0x2e34ce007ad840d99d99540776b991bc41909ac733e05b5a2108af36f0866193nat;
    let e22 = 2 * e21 + 1;
    lemma_power_mod_square_times(3nat, e21, n, x21, 0x4c059523f86ce06d9632e2d02370a5ab69ed4283993b18a124090c71e7a28257nat, x22);
    let x23 = 0xc9f912a6894a95c85d7889b65413e2dd30e9124f33ab671356ecf42a5d7f22fdnat;
    let e23 = 2 * e22;
    lemma_power_mod_square(3nat, e22, n, x22, 0x85704ec821c64dcd05c2e9c7ecc8d73a55068db506e61a3adefd1dc7368a854nat, x23);
    let x24 = 0x9fb4d3da3838928340b26d0c68410b3d5d8cd18473c9ca6543a41fe965988c35nat;
    let e24 = 2 * e23 + 1;
    lemma_power_mod_square_times(3nat, e23, n, x23, 0x1de0b34dc66be1dd281e95b514bc0c3c342ddb54d729882724145d8392cffc8fanat, x24);
    let x25 = 0x86afd330fa9c69d89376513c81b82d9e1c5db8516fe2f450bcf99048cc016703nat;
    let e25 = 2 * e24;
    lemma_power_mod_square(3nat, e24, n, x24, 0x63a21ee3ac06c83e21274f28ec2beb46be304ce14e4bc3ddddadcc874cd237eanat, x25);
    let x26 = 0xc2a581fd67d0fb7e2ce553484aef0fcc8f3e5f5eef6d952ed36117da59d4c6b3nat;
    let e26 = 2 * e25 + 1;
    lemma_power_mod_square_times(3nat, e25, n, x25, 0xd4959d8d14a4756ca4d62234bf99a76aab68cf99c0ec03b2f1627cf051419d18nat, x26);
    let x27 = 0xad729a83350473456c3fa3bb04194207656157a52ac706ba9fc2801222936044nat;
    let e27 = 2 * e26;
    lemma_power_mod_square(3nat, e26, n, x26, 0x93ff4404e401ee0667518773f4328c6addf014fc98d4becb7ae350aba2f96b2bnat, x27);
    let x28 = 0x3b71de0a91fd80f5a7c6b317719a39c05f78c360ac7b4d6c0ef2702b5381270bnat;
    let e28 = 2 * e27 + 1;
    lemma_power_mod_square_times(3nat, e27, n, x27, 0x1608c4869ef5010617310493177589dcbf0dcdfddf214b7bbc2bc0afdfd2170ebnat, x28);
    let x29 = 0xec8e37af0b0972169786d980a779b22a9064315a389ea5ce20c60217f9daf8bbnat;
    let e29 = 2 * e28;
    lemma_power_mod_square(3nat, e28, n, x28, 0xdcdaefea53610e07aecfd4311c550c1d2726fe5cc3f31e04837ccb9543bf4a2nat, x29);
    let x30 = 0x427b98229a01bf7aae1a59f0b238f7d8a3be0ff596329389831754b3a1483702nat;
    let e30 = 2 * e29 + 1;
    lemma_power_mod_square_times(3nat, e29, n, x29, 0x28fc39105abf305c71c8eb04e4e5b916eb5300b69502550395d7e7a9660538a87nat, x30);
    let x31 = 0xfa0f3b20ae75a8a5848c5792c4b84726bec78282c90e1474c23f2df647582399nat;
    let e31 = 2 * e30;
    lemma_power_mod_square(3nat, e30, n, x30, 0x1143f61d6311fff89a27896abaa3b51ce01717d234769c7d01c66c14b8ee8c85nat, x31);
    let x32 = 0xf7284981d76a3b5f7d4cd91c2071aaeff2830238c796b44ffefab56dff1a561fnat;
    let e32 = 2 * e31 + 1;
    lemma_power_mod_square_times(3nat, e31, n, x31, 0x2dcc5412b70aefb4a0ef6bde2005654ba12379d1e674343a030917df7de70540cnat, x32);
}

proof fn lemma_power_field_prime_over_3_part_5()
    requires
        power_mod(3nat, 0x15555555555555555555555555555555555555555nat, 0xfffffffffffffffffffffffffffffffffffffffffffffffffffffffefffffc2fnat) == 0xf7284981d76a3b5f7d4cd91c2071aaeff2830238c796b44ffefab56dff1a561fnat,
    ensures
        power_mod(3nat, 0x1555555555555555555555555555555555555555555555555nat, 0xfffffffffffffffffffffffffffffffffffffffffffffffffffffffefffffc2fnat) == 0x88625d7cc3d7e6d23f99c58b34155373436f2004ef3df140c16673452a433ac6nat,
{
    let n = 0xfffffffffffffffffffffffffffffffffffffffffffffffffffffffefffffc2fnat;
    let e0 = 0x15555555555555555555555555555555555555555nat;
    let x0 = 0xf7284981d76a3b5f7d4cd91c2071aaeff2830238c796b44ffefab56dff1a561fnat;
    let x1 = 0x2264575d96978db7e463644e490f1d49b1329d7eb0b5ebce62de209c709391b3nat;
    let e1 = 2 * e0;
    lemma_power_mod_square(3nat, e0, n, x0, 0xee9ec42f9b5d9e7a35d15a79d7fa53eaa939bd878be71eb30855c715628ab152nat, x1);
    let x2 = 0x1822830572e28ca8e521c808bed1117e06b28119d13809ca69c7a205cde8dfb1nat;
    let e2 = 2 * e1 + 1;
    lemma_power_mod_square_times(3nat, e1, n, x1, 0xddc6b9bb0cbf3d8001036cbebf77fcd0f87f184188d01dc4bbf701d3b796e56nat, x2);
    let x3 = 0xe2f4c873cb7d7e6be85ec6bf3bb7926a1acdc754ce0b604401329205215b492bnat;
    let e3 = 2 * e2;
    lemma_power_mod_square(3nat, e2, n, x2, 0x2467d38160b923e943019575fb47649286596a127240c622c5227fd78a668aanat, x3);
    let x4 = 0xc113b49feaa79a920033b0336d96d93feaebfc568bbf1b508e2c26f0a9e78e42nat;
    let e4 = 2 * e3 + 1;
    lemma_power_mod_square_times(3nat, e3, n, x3, 0x25b9f53f186efd64c2a083edd9c02daa2ff9c888f1b6a501bad273c04a6f065e7nat, x4);
    let x5 = 0xd2c2f9b9107551f232fe2024a339d06d16e258bbdb55a58c9a52202c76e88ef4nat;
    let e5 = 2 * e4;
    lemma_power_mod_square(3nat, e4, n, x4, 0x919eb7dd6efed1d21aa01d4c930ba70534fc162e159d156ffe7c61c881c712f0nat, x5);
    let x6 = 0x5c77f525c4c88403a74f226ecc58e3f82ef67620e96f00e2ca996b8720a30648nat;
    let e6 = 2 * e5 + 1;
    lemma_power_mod_square_times(3nat, e5, n, x5, 0x2088d62992d44dc2bb85407757b64854d6a3a5d4c93c9c983cf8eecf28c771118nat, x6);
    let x7 = 0xb327db07d1fb935efb6d8af2130729c9ad98529ba1f33915078ff3188ee9121fnat;
    let e7 = 2 * e6;
    lemma_power_mod_square(3nat, e6, n, x6, 0x21667068f94e6187a18f3ad19ca4429df3448e5a5039b6e85f388fbec74962afnat, x7);
    let x8 = 0x3e05544c7774e6b785553624e7dcae7a5c01733bdf40b600b9e72ac99d31f6c4nat;
    let e8 = 2 * e7 + 1;
    lemma_power_mod_square_times(3nat, e7, n, x7, 0x178224784364a84bdf20d50bc4f211c3f9870e1a405d37c2143618ab00519f4b1nat, x8);
    let x9 = 0x77c1646c9f614c9a2f4d0aad5a606462dcc30085dedcee758a3aa4d69760a9ccnat;
    let e9 = 2 * e8;
    lemma_power_mod_square(3nat, e8, n, x8, 0xf0694f1709b8f8dc44fcbe59814a5e8f670db1e5548ae6cdb69e3d4ef7002fcnat, x9);
    let x10 = 0xc9ce1c422519ac0c4ceffcc5311336632ac1204bbb7b0cb0c0f4f918f7a0e09bnat;
    let e10 = 2 * e9 + 1;
    lemma_power_mod_square_times(3nat, e9, n, x9, 0xa8101860ae0d71972ce021d215d15868da666c6d59ddacdd1ea569505058c3fbnat, x10);
    let x11 = 0x2bf0fedcb9bbb910a5f270696eee9c22798a37789c3b5a1d785b962d6246aa15nat;
    let e11 = 2 * e10;
    lemma_power_mod_square(3nat, e10, n, x10, 0x9f154e515bd48eb0f8dc82a33bb98ca6ea84fef9ec748e801cc73654a9fdc37cnat, x11);
    let x12 = 0x83028387b171ccbc74854b52064425ca22a2c0e22b7110c91ba003d34fa2dfe5nat;
    let e12 = 2 * e11 + 1;
    lemma_power_mod_square_times(3nat, e11, n, x11, 0x16a0897705f42d1492cfb4275dff7653fe5c9b7cf86de17c42c3a092f896739anat, x12);
    let x13 = 0x5c808ba47859bba4f6fc030eee5d7322bd209c55d7ad16f9ae5e3e90f2cc91d8nat;
    let e13 = 2 * e12;
    lemma_power_mod_square(3nat, e12, n, x12, 0x430b92a3314d64d72abf9ae16a994eed8516071ff4c805714d6792dae95469cfnat, x13);
    let x14 = 0xa49a01e2eac4daba0e3dd6b7783198aaa9b7192cc362b1569a5481e46d84b963nat;
    let e14 = 2 * e13 + 1;
    lemma_power_mod_square_times(3nat, e13, n, x13, 0x6445eebe756e96e23b69c773b6c63a3a00ca93571c0e8eb15194d790a8398433nat, x14);
    let x15 = 0x16dfdf611efa1524f26260783c48c1e97fa7fc402489fa1409b02e2296fb31e4nat;
    let e15 = 2 * e14;
    lemma_power_mod_square(3nat, e14, n, x14, 0x69d5af1101d23c0e6eac795ad168f4d9268baff7b60362b84eb733d3d57119abnat, x15);
    let x16 = 0x216ea0b815b8bca239d43a6f0af0f259426cb2cd3f14bb3e4fea9dd11af2a7f6nat;
    let e16 = 2 * e15 + 1;
    lemma_power_mod_square_times(3nat, e15, n, x15, 0x621ba82de53e46a1a6370854f82f83ca0fa7274b449ce664dc3926f76f131e6nat, x16);
    let x17 = 0x607be794d5270d1b2a16e154ba85975d87f8553a82cffafefde8bb000dfba209nat;
    let e17 = 2 * e16;
    lemma_power_mod_square(3nat, e16, n, x16, 0x45db53df8b2eaea15842f31940cf13f5c098f8af8a23436cc3ac9960ac53995nat, x17);
    let x18 = 0xdaa7e2bba2f978943ff59f7aa3ee551e32fea7d7d0dffe20b2111d3dff71f6b0nat;
    let e18 = 2 * e17 + 1;
    lemma_power_mod_square_times(3nat, e17, n, x17, 0x6d177cf7ef2025abc7db5e5ab236a2b6b4f484656b159834335d64f95d3cbe2dnat, x18);
    let x19 = 0xdb07acf8a4b4337c519ce32156d55ab8ee095a5a388fce59815a49b0a7c0635nat;
    let e19 = 2 * e18;
    lemma_power_mod_square(3nat, e18, n, x18, 0xbac25c412b2f581fc7765f4d79c1ebfe8644a34475212423ba9da1775408c025nat, x19);
    let x20 = 0x16d6a528c909d1f62359e389be31d3beca38d3fc32965c0acda83dae21da54cbnat;
    let e20 = 2 * e19 + 1;
    lemma_power_mod_square_times(3nat, e19, n, x19, 0x232326684fccd2249922b379863ed981045e634e83ea41d3715a6efe63c19e0nat, x20);
    let x21 = 0x775f7ca498173de4b1a8621736c67161d2f977cb6cd72cedbfbf7b8a4b7f9084nat;
    let e21 = 2 * e20;
    lemma_power_mod_square(3nat, e20, n, x20, 0x209985b8d4b66276f2fdff5f566abeb7fc57ecf3fd920ec9fab7113e456e89bnat, x21);
    let x22 = 0x1446a47b63aa65fff293c550e1d4468a5e282d3a7083f2e245a7a663180693dnat;
    let e22 = 2 * e21 + 1;
    lemma_power_mod_square_times(3nat, e21, n, x21, 0xa6fdbc7c4cbb0ddcdafc90aea5d5eb9bac124f2b0dcc981ee689404649a4407dnat, x22);
    let x23 = 0xc2afb89f5581c033ff5f5efa48c441b9a6111d37ad37db48dfcc22ea0200d1benat;
    let e23 = 2 * e22;
    lemma_power_mod_square(3nat, e22, n, x22, 0x19b1d31a4bb744b051aeeb4908454598ec592cd092c96fd265b43b9516c25nat, x23);
    let x24 = 0xd2d2df745464e9957c1f10c5bbf3363d5f9a89b4e92c309f6db189040434ce9anat;
    let e24 = 2 * e23 + 1;
    lemma_power_mod_square_times(3nat, e23, n, x23, 0x1bc2c654e45bef65c4a7fd247e94a50bb66a8b031141ad3feca4f1d27d1a5842enat, x24);
    let x25 = 0x5bbc5bec45db40db84add4bbc72d42915c551b562f00014ce82ff3d5a5a9d67nat;
    let e25 = 2 * e24;
    lemma_power_mod_square(3nat, e24, n, x24, 0xad9ea44e385be4acdf1b1943f381df26dd247b9162ea6eb255c510a9fda16c53nat, x25);
    let x26 = 0x8da04ca15cc19919079de45f5c741088038ac2fed74d3e7a158bc592e4c16cc1nat;
    let e26 = 2 * e25 + 1;
    lemma_power_mod_square_times(3nat, e25, n, x25, 0x629e5bd35916e99a367e13159408f2dabb50e1120e8da9b94a2b4af1b6690enat, x26);
    let x27 = 0x37c38339ea5c243bb28a06e1a398b0462aeae634339a26dd5026da6c11326447nat;
    let e27 = 2 * e26;
    lemma_power_mod_square(3nat, e26, n, x26, 0x4e59f8c9a0d1696db1b2996208032fe5cc004353e9d76d6731c6edd529f4fde6nat, x27);
    let x28 = 0xd248434bb086abe9669d29807137a863aabfb2be1b90015709f9eec3077e8286nat;
    let e28 = 2 * e27 + 1;
    lemma_power_mod_square_times(3nat, e27, n, x27, 0x2470c71c3098d8b00ef953d434eefc8f9130a1d3831c53f2a24a7ef8390f9403nat, x28);
    let x29 = 0xca4c60dc10b70894e1bd00b33b16871a9af5323b27a59e647437e9728fcb4001nat;
    let e29 = 2 * e28;
    lemma_power_mod_square(3nat, e28, n, x28, 0xacbaa2ce19e0f2930641ea2fceafb591abbf3144e1eba02bb70ae4afe954fc4dnat, x29);
    let x30 = 0x34932278c15b18a644a3b35aeb20216b2f94d94066f11c3d8f6f5c5ffaccf27enat;
    let e30 = 2 * e29 + 1;
    lemma_power_mod_square_times(3nat, e29, n, x29, 0x1df95deeed511afca2c464f5ea732cbdafcf29aca1f9f09a9ba7a5c149449608bnat, x30);
    let x31 = 0x5c330d66543df68885698fd6e2b8540c49abdd8d534f8e892ebab162f53ca3f9nat;
    let e31 = 2 * e30;
    lemma_power_mod_square(3nat, e30, n, x30, 0xacc1a91a9df5cf3e4d3168dfb1e99d744eb8b845343692fc4566a4e6b8f84e5nat, x31);
    let x32 = 0x88625d7cc3d7e6d23f99c58b34155373436f2004ef3df140c16673452a433ac6nat;
    let e32 = 2 * e31 + 1;
    lemma_power_mod_square_times(3nat, e31, n, x31, 0x639e336fac10f607a74437b567fe581285c45b1199b01e1aba196a7ba8a01ac3nat, x32);
}

proof fn lemma_power_field_prime_over_3_part_6()
    requires
        power_mod(3nat, 0x1555555555555555555555555555555555555555555555555nat, 0xfffffffffffffffffffffffffffffffffffffffffffffffffffffffefffffc2fnat) == 0x88625d7cc3d7e6d23f99c58b34155373436f2004ef3df140c16673452a433ac6nat,
    ensures
        power_mod(3nat, 0x155555555555555555555555555555555555555555555555555555553nat, 0xfffffffffffffffffffffffffffffffffffffffffffffffffffffffefffffc2fnat) == 0x6b8b1499fec5687a90f2d10f35db459792b6d2db92cb1f1ed80d0e3681cae74cnat,
{
    let n = 0xfffffffffffffffffffffffffffffffffffffffffffffffffffffffefffffc2fnat;
    let e0 = 0x1555555555555555555555555555555555555555555555555nat;
    let x0 = 0x88625d7cc3d7e6d23f99c58b34155373436f2004ef3df140c16673452a433ac6nat;
    let x1 = 0x74254367db70b871ffa8618201552bd9adda09060de3ef12b2632a162a77a5d3nat;
    let e1 = 2 * e0;
    lemma_power_mod_square(3nat, e0, n, x0, 0x48a8a92045bf39a5493b113c4e9299e0e765884598a0767ccc1f4af21728707fnat, x1);
    let x2 = 0x965579700e1bd90a6e65e03e7fc81caf1d8fce6a3c92731835adb2b2eb144b88nat;
    let e2 = 2 * e1 + 1;
    lemma_power_mod_square_times(3nat, e1, n, x1, 0x9e155f8805e95633d5fbeb66741fd65148656bd2f53f038069caaa05ad952f3dnat, x2);
    let x3 = 0x82b0497d06e79bbbe694e1058431728e8911499515a9a8ebba978cc32e627ef0nat;
    let e3 = 2 * e2;
    lemma_power_mod_square(3nat, e2, n, x2, 0x584846d92e8d1f39069d86b1b2a7c594e608d0ac3c7a327af89f3b7483f537b0nat, x3);
    let x4 = 0x387c8946c33052c1ec4addc0e5a4a68a0f483c1bbd9e386c67be792449977afcnat;
    let e4 = 2 * e3 + 1;
    lemma_power_mod_square_times(3nat, e3, n, x3, 0xc8268c18540fcae269318742f6a52e70a7f00c96c87c8979703bb1814eabc33cnat, x4);
    let x5 = 0x9ffe4437c966654572ba3f171343900eca7050a36a644efcc06674744aa566ffnat;
    let e5 = 2 * e4;
    lemma_power_mod_square(3nat, e4, n, x4, 0xc76b8a43b8f0b7e0f1121b32313b3d2abf4424f28afc2c9a0877257cb6686bfnat, x5);
    let x6 = 0x18a7496ebc835e21c0a757a7df1592e03100a365332b5daa00deadf4418c9503nat;
    let e6 = 2 * e5 + 1;
    lemma_power_mod_square_times(3nat, e5, n, x5, 0x12bf97fda372b986b59b4222e0879d80ec5d72afb02a03359ae1559fe04c4cf00nat, x6);
    let x7 = 0xcf9000ad181b0662d90e5c4d5635adcb9cf96f861e521719fceb37bf7bc5e3fcnat;
    let e7 = 2 * e6;
    lemma_power_mod_square(3nat, e6, n, x6, 0x25fcb15a6e2ec749b8e154fe2c3ed1e13f373dcdfdd90e323ea54ca743ed283nat, x7);
    let x8 = 0x72abd5d89b331c1a813f82a7177f689d9053f5594835309dc5a253f4af824ee4nat;
    let e8 = 2 * e7 + 1;
    lemma_power_mod_square_times(3nat, e7, n, x7, 0x1f8de964a0f25d74de30f5d39769d6bf497ec4dd7a3b094c5e407f60591ffb474nat, x8);
    let x9 = 0x6604ba2388dc97979c6167e9d1b6714d8abd6547601e2c8785f1d4205986c330nat;
    let e9 = 2 * e8;
    lemma_power_mod_square(3nat, e8, n, x8, 0x335d7dcc4c3b04d8779fb13f74e59afc8de420b1a4756c60bad409b23a472e20nat, x9);
    let x10 = 0x310998625d1056685680d8fd1c86aeafd2d3bc63d671b1b75c31856824f397a2nat;
    let e10 = 2 * e9 + 1;
    lemma_power_mod_square_times(3nat, e9, n, x9, 0x79f74d3ffc8b26826d5e2b1595abca44bfaf74fb76f1a5a755acdb7e258a0502nat, x10);
    let x11 = 0xc4b4202815e89bdeb548931a29a4e77bb1a90dfe539e6a0705bd7bf8f7999985nat;
    let e11 = 2 * e10;
    lemma_power_mod_square(3nat, e10, n, x10, 0x964acb1b93fc088cd66568e1c18f6695bb305315516c56904cf9ba006999c31nat, x11);
    let x12 = 0xa3b4c2b0de5dd2561d31fcbd5470e508afe327122af5b1c082aab503f567f467nat;
    let e12 = 2 * e11 + 1;
    lemma_power_mod_square_times(3nat, e11, n, x11, 0x1c56cefefd9df1c9ba8eb4d756cf485a8a60f0a76396c5f69874799a2d178585cnat, x12);
    let x13 = 0xf9e2e4cd33dda5a5cc5895fe0703d772a906e6c64f97848a8a15876570c067d8nat;
    let e13 = 2 * e12;
    lemma_power_mod_square(3nat, e12, n, x12, 0x68afaf8f97f4b90227394bfc45964841fe22a3bb3fe9a289016913ce47fb6cb7nat, x13);
    let x14 = 0xf0d16040fe8263b67ddb27d5fa78dfff3b39e6b54077290e72ca4d664f06f0cnat;
    let e14 = 2 * e13 + 1;
    lemma_power_mod_square_times(3nat, e13, n, x13, 0x2dbc17e8fe118b95bc0696ede9e3b7836dfaab986aa609b9f23e12baff782e68cnat, x14);
    let x15 = 0x6601879bf62d852c04dd2bdeb7d73854e11e8d59146a5185305044e8e89d3b34nat;
    let e15 = 2 * e14;
    lemma_power_mod_square(3nat, e14, n, x14, 0xe2893fb82b84db3f04f624731a676143f6e0d4e755926894caf2f689994564nat, x15);
    let x16 = 0x19301fc8a1419030a3ef9653dfb34d4c5667a72f1d3e734ac0b49ee23a41a50dnat;
    let e16 = 2 * e15 + 1;
    lemma_power_mod_square_times(3nat, e15, n, x15, 0x79efa837ddae2d6679967776ff4b828fe438c325378864a7adf8536c67195fcdnat, x16);
    let x17 = 0xe4aea61f21860c5576746bfc803276e4bf649f52e63553fc6e977efc5bc4263dnat;
    let e17 = 2 * e16;
    lemma_power_mod_square(3nat, e16, n, x16, 0x27a6f411ead7b09cf32e110a60577fc1c4abec7b939563e4db9aafa41d4b354nat, x17);
    let x18 = 0x930517f78c0e1395fbe5e925b191db03aa84b3a6f266bd90d1f742cfc2955745nat;
    let e18 = 2 * e17 + 1;
    lemma_power_mod_square_times(3nat, e17, n, x17, 0x264d6ad29157e325bee122ae78b4fc16d85c0f997a1536f9a9ba4ae2a987b798anat, x18);
    let x19 = 0x2ba095c6570d773d2f39a99879788d8dc015b9c1d126027253ee2ded2f5255bfnat;
    let e19 = 2 * e18;
    lemma_power_mod_square(3nat, e18, n, x18, 0x546ed9a03cc20d951a74059dfc5dbd47ad38f09ed06ebf37b69311943918b246nat, x19);
    let x20 = 0xffdfbd16d4fb9351e1188abdc061593518c47fa74b7c77a098474fbf8ef6a11fnat;
    let e20 = 2 * e19 + 1;
    lemma_power_mod_square_times(3nat, e19, n, x19, 0x164e0524926375ac28bcaf44e99a4b7a66a75b3817b31f2ae6f299528cfa6cdcnat, x20);
    let x21 = 0x8e10b506c008f64997c8ce5d03503562fa594c4a47eb3f3bed96b47b331f5ec0nat;
    let e21 = 2 * e20;
    lemma_power_mod_square(3nat, e20, n, x20, 0xffbf7e3e75bef64c8b0ae8d27d124e9abdceb03c583c334a7d31517f19e097cfnat, x21);
    let x22 = 0x126ae9092ecc8d8de659b57ec0d5eb8e32193f84c435a3e94276aa8720c96c2dnat;
    let e22 = 2 * e21 + 1;
    lemma_power_mod_square_times(3nat, e21, n, x21, 0xec839dbfd9ad7a37fef86396453c6dc6edc6e3b9d659675103696618cb6e559dnat, x22);
    let x23 = 0x38cca71098c1dfab2817bb77b3bf6778125908cfdb12a956b5e10aeb2c5cfeb7nat;
    let e23 = 2 * e22;
    lemma_power_mod_square(3nat, e22, n, x22, 0x153356b1a513cd1da83c76a85fa3ecf35f5863acc00284e1a5ccb040ff36b6enat, x23);
    let x24 = 0x846a04aa815b2bcdcc3615949a908806faa10dafa16c5f67c448ab0aa8462df5nat;
    let e24 = 2 * e23 + 1;
    lemma_power_mod_square_times(3nat, e23, n, x23, 0x25ce8615d6eccda73e9307ec2636436f1c838c12c481da0aea88df69e9ebebe2nat, x24);
    let x25 = 0x2d03de7b276ddb8c125e3c9a4b7f18f7a06d81ed66fb4efa919b4b4145402eb4nat;
    let e25 = 2 * e24;
    lemma_power_mod_square(3nat, e24, n, x24, 0x447d80b7b2aeea4768d6815d9a92d2679ca2ca2c23cf117d547b636ccf67c44bnat, x25);
    let x26 = 0x46fe3bc3fc071bc618c093280461cfa17287a8b5a705e923c7dedc83661b8be6nat;
    let e26 = 2 * e25 + 1;
    lemma_power_mod_square_times(3nat, e25, n, x25, 0x17bf14d2cc4c1e2b8278600662f2cd3bb6553642c848fb5ea9503ea6b0a53856nat, x26);
    let x27 = 0x1e18c91ff6fa664cead3b6ba31b237ef2497de63f8008f61335628091e2bedednat;
    let e27 = 2 * e26;
    lemma_power_mod_square(3nat, e26, n, x26, 0x13b00529d4afed80a4620cb0e796af61d1dbbd9c5115e3596db4f3fa4b7895f9nat, x27);
    let x28 = 0xf27455e3908a71a1c931ba37f597d413af29f0f650bfe45524dfa7338eecd33cnat;
    let e28 = 2 * e27 + 1;
    lemma_power_mod_square_times(3nat, e27, n, x27, 0xa9d749d75ac9e407b10364d0f91edbc6ce9188dde9ec9faa639f3bf4f031031nat, x28);
    let x29 = 0x89860b50b53fee8db4f4f6922598bc8458df70d0b0d5933e6cca24870020f085nat;
    let e29 = 2 * e28;
    lemma_power_mod_square(3nat, e28, n, x28, 0xe5a027403051a4927197585d1a181bda14c98e5cfb4cd5fef24fd08f89e72965nat, x29);
    let x30 = 0xafe4a349d98ef3382412f11980464ad3481ff7376894d1b0f710d3b7f51a2457nat;
    let e30 = 2 * e29;
    lemma_power_mod_square(3nat, e29, n, x29, 0x49e0be4c3afc3546aed05dc45d74c061f6a69ece079f434bbde7810f064630denat, x30);
    let x31 = 0xc629382c13b1b5c1dfd29470f96cf0977e2cef0e5a75013677c09edf76a74efcnat;
    let e31 = 2 * e30 + 1;
    lemma_power_mod_square_times(3nat, e30, n, x30, 0x16a8f2a56b16c46857a620a70c16cfbd9d57fcdfc06c48866eb98d8b3c4f658f9nat, x31);
    let x32 = 0x6b8b1499fec5687a90f2d10f35db459792b6d2db92cb1f1ed80d0e3681cae74cnat;
    let e32 = 2 * e31 + 1;
    lemma_power_mod_square_times(3nat, e31, n, x31, 0x1cc2b5c95aab98cd9ed57c7f0f9200cb5964c501573a32765ac3185670d22f05cnat, x32);
}

proof fn lemma_power_field_prime_over_3_part_7()
    requires
        power_mod(3nat, 0x155555555555555555555555555555555555555555555555555555553nat, 0xfffffffffffffffffffffffffffffffffffffffffffffffffffffffefffffc2fnat) == 0x6b8b1499fec5687a90f2d10f35db459792b6d2db92cb1f1ed80d0e3681cae74cnat,
    ensures
        power_mod(3nat, 0x55555555555555555555555555555555555555555555555555555554fffffebanat, 0xfffffffffffffffffffffffffffffffffffffffffffffffffffffffefffffc2fnat) == 0x851695d49a83f8ef919bb86153cbcb16630fb68aed0a766a3ec693d68e6afa40nat,
{
    let n = 0xfffffffffffffffffffffffffffffffffffffffffffffffffffffffefffffc2fnat;
    let e0 = 0x155555555555555555555555555555555555555555555555555555553nat;
    let x0 = 0x6b8b1499fec5687a90f2d10f35db459792b6d2db92cb1f1ed80d0e3681cae74cnat;
    let x1 = 0xdb78a3441857a8eb503eb7aed48777d3bff1cfc5e0ba8fe7cdc63cfacc9eb21nat;
    let e1 = 2 * e0 + 1;
    lemma_power_mod_square_times(3nat, e0, n, x0, 0x8788ac5853945475d8503d725e105db3d99622b09bf7eb74a2857343664b79a1nat, x1);
    let x2 = 0x3825a8f8cce2d6e44065467f4c3d90cf01d739a8b6f9bc5e5067558f6c036b53nat;
    let e2 = 2 * e1 + 1;
    lemma_power_mod_square_times(3nat, e1, n, x1, 0x23476e08fecd5c2e89dad73dc9399b4af3ca05d376cc8fa84b26b026c43c790nat, x2);
    let x3 = 0x9101742179fdd8e38f1f1f606cf5a4b652214595aa66e206b8451b6280e5bbdcnat;
    let e3 = 2 * e2 + 1;
    lemma_power_mod_square_times(3nat, e2, n, x2, 0x24f17e656341e2e7ef077f12fac472972824a5d9a10535fbee28dcf9bbf61051nat, x3);
    let x4 = 0xa2f9bbb49fccba86add7f7484a9b2e51519d499b6e0a67cc7c22ab81c7b76150nat;
    let e4 = 2 * e3 + 1;
    lemma_power_mod_square_times(3nat, e3, n, x3, 0xf667f0b01b689bd49c1f64b2526d19400a6f3e664514faa501b5283036bbf820nat, x4);
    let x5 = 0x3eb7203de0b68d31f64e411343d2407d4eda2caa849a12aeb793f4ff6b133cf1nat;
    let e5 = 2 * e4 + 1;
    lemma_power_mod_square_times(3nat, e4, n, x4, 0x137430f8ddbbe0bb2867f91a4db8c9bf67e36e23baca6ab44c78609f199695421nat, x5);
    let x6 = 0x7de46be6c19dd31ed578149c58589b37a2411857d03a730a870e7cd0b90251d9nat;
    let e6 = 2 * e5 + 1;
    lemma_power_mod_square_times(3nat, e5, n, x5, 0x2e17a3d7401da98db0d764296fb79a91511867999e6ae4b68b9a4f08a2fd2956nat, x6);
    let x7 = 0x4681ae4ad396919c1b1350db8c87d9142d0a69f5b8af911bb1c66f43253b5033nat;
    let e7 = 2 * e6 + 1;
    lemma_power_mod_square_times(3nat, e6, n, x6, 0xb9ba978f2cc72573bbb1f8816cb1147bf4d8acd4d98c620aa35cb1b48d858460nat, x7);
    let x8 = 0x9e7e0bf9eb3d70ca5c4cf6dc1d917b4658995da38ecff16afaba0bb645033368nat;
    let e8 = 2 * e7 + 1;
    lemma_power_mod_square_times(3nat, e7, n, x7, 0x3a4187061d5c289f69ff5bfb44c4b01dd69ae6f6c182cbe79640f6aaf819725dnat, x8);
    let x9 = 0x1a60042e1dccd75d4555b2d67e1b1c6b4e9c3a4271d8abf4abdf6187b6f871f6nat;
    let e9 = 2 * e8 + 1;
    lemma_power_mod_square_times(3nat, e8, n, x8, 0x1265f7e88dad881b6ab8791aa071866314e69737181edc54179fa986b40676b56nat, x9);
    let x10 = 0x888c188aa7c78b91172404305f172fb8a9be3d1c1d21e5f5a1b5ed363eb87835nat;
    let e10 = 2 * e9 + 1;
    lemma_power_mod_square_times(3nat, e9, n, x9, 0x826ee9582204bd8c78d4ef51b3a5404e0ccb946e39bf465d5f021705309ddb9nat, x10);
    let x11 = 0x26762c439b7fe1fddb95b189aa20ed7ed93a58ae421dae6b5e2230483abafca9nat;
    let e11 = 2 * e10 + 1;
    lemma_power_mod_square_times(3nat, e10, n, x10, 0xda7f743a84d1734c9fa19cb7c4383897aaf02251d0fe8e31db01b0ca6290555enat, x11);
    let x12 = 0x179139ec991ad110e5e8735f28adf8438cd13a6539424c58d6258fec0313a8dnat;
    let e12 = 2 * e11 + 1;
    lemma_power_mod_square_times(3nat, e11, n, x11, 0x1155e312b86de0df44df99d5083ca9e825a397acf9a418a8e3e0f38a95009ebanat, x12);
    let x13 = 0x2cca5a8c875a419e3a01ff6f9cffa2badc0cfcb1608af5a3100c68eecb951581nat;
    let e13 = 2 * e12 + 1;
    lemma_power_mod_square_times(3nat, e12, n, x12, 0x68240618bea6a5f5db0cce59822bea65d01e7ef0f637511f08f57c86c57a6nat, x13);
    let x14 = 0xeefa50dc8546d0f9d63c0c08e090b884268161bccc53c6a6d1c5aaae78c1969fnat;
    let e14 = 2 * e13 + 1;
    lemma_power_mod_square_times(3nat, e13, n, x13, 0x17828d39fcfb37e92e2eb5803b725fad79cffd45b898087e214ea20062adaedcnat, x14);
    let x15 = 0x5365e902bc868e6aeeafe59733fc762cd0dc3419799c97eaea952bdec41bef38nat;
    let e15 = 2 * e14 + 1;
    lemma_power_mod_square_times(3nat, e14, n, x14, 0x29d432954302ba466e40c2f10e8513ff312d0eaab21d63282e33590490a8991e5nat, x15);
    let x16 = 0xe5ef6f332c72f4b2f968b6b1c7791ea3633a3e4c09b36c27e683f6ec9c985b37nat;
    let e16 = 2 * e15 + 1;
    lemma_power_mod_square_times(3nat, e15, n, x15, 0x5181b8fc6379f92e69ff892cc051baee563ceecdb52218bbe1fb0b4ba6be5fc7nat, x16);
    let x17 = 0x55a73352d00079d7559d452c807137393f639fadc2f723f5bab31b22c8a8be33nat;
    let e17 = 2 * e16 + 1;
    lemma_power_mod_square_times(3nat, e16, n, x16, 0x26b92b6a71e20399a92525b1b33ffaa35bd97725ebda9d7e773c0b2f0b56a70c0nat, x17);
    let x18 = 0xd954a249e4e75683e5a29d4bc0f1f832a4a6b5c05e81cf9af2ea17d4a654286anat;
    let e18 = 2 * e17 + 1;
    lemma_power_mod_square_times(3nat, e17, n, x17, 0x55f95fdafb6161962ef449885e56e79c14ab4935dcb1902afd541a73584f05bfnat, x18);
    let x19 = 0xe922c4bdc6631f30b59e11083cb6a5b5d16017bedf8a48b7919fb2663f3c82cbnat;
    let e19 = 2 * e18 + 1;
    lemma_power_mod_square_times(3nat, e18, n, x18, 0x22981c55488500a908be69f2dd6d42293b4f33e5a571558a752759131ed72dfefnat, x19);
    let x20 = 0x747a8d1822887d7ffc3cfa41bed72b974f4df11f306244b2c295f1ab0a2c1a27nat;
    let e20 = 2 * e19 + 1;
    lemma_power_mod_square_times(3nat, e19, n, x19, 0x27cf0ec8ee634d0b3ca3246eca3c8876f582d2eaf726d83d95eb433213d34ba7cnat, x20);
    let x21 = 0x7381a9e193826e6c7b8eafb3314dd038137e9619e6043eefbd4331cb4ed9e791nat;
    let e21 = 2 * e20 + 1;
    lemma_power_mod_square_times(3nat, e20, n, x20, 0x9efddf99f8309c6d593830a075b00623e142d2a57c9acb675e0a37884e63bb5enat, x21);
    let x22 = 0xc5ce03b9f1fa12b30133203cf4713ae61aa72112127654d322cd8aee644560d8nat;
    let e22 = 2 * e21;
    lemma_power_mod_square(3nat, e21, n, x21, 0x341dc04d5099742f96671ac09163cc6cf95b86d3de24ac4d6c67a8f98ac76607nat, x22);
    let x23 = 0x2705581ef2a85e4cb338c8f49cf09073263312a97ea7dc64f14f232461d3da81nat;
    let e23 = 2 * e22 + 1;
    lemma_power_mod_square_times(3nat, e22, n, x22, 0x1ca842692892e95eb3d93e666909bddc9731d0b958ef33ee625b3ef0f71be20f1nat, x23);
    let x24 = 0x13939498d970888239fc3d8468284887d20514b037ff7f64d272197d0a15bf40nat;
    let e24 = 2 * e23;
    lemma_power_mod_square(3nat, e23, n, x23, 0x5f2a0f5fd7a11e093e7e3a85715b3b1ba5c49e2308437733c9139bf57dfc10fnat, x24);
    let x25 = 0x608edc780adf2ba83ae7fb6ee5d2d3178c029b542adf885c50e6973881d727benat;
    let e25 = 2 * e24 + 1;
    lemma_power_mod_square_times(3nat, e24, n, x24, 0x47db7680a34868772f80e2ff3b032a6e7e806eee40ed4065c34a78b21fc415enat, x25);
    let x26 = 0xbc4da136ed6d1795df23ce3779799600b9aa66a1198aa8ccc56cf011b89a2e39nat;
    let e26 = 2 * e25 + 1;
    lemma_power_mod_square_times(3nat, e25, n, x25, 0x6d425f3a1195f1e51e96d08ed87e4bf4fbbf2467ad3e98e43bf360cedac6449dnat, x26);
    let x27 = 0x8c1a2d601444497ac68102c85a364066179d545efc7a0cd259a0b8deea1fb883nat;
    let e27 = 2 * e26 + 1;
    lemma_power_mod_square_times(3nat, e26, n, x26, 0x19f8654f927db9211a9595d6be1b10b693b7a6f1e15950697de9b98f03abd0370nat, x27);
    let x28 = 0x2c5cdc9c338152fa85de92cb1bee9907765a922e4f037cce14ecdbf22f78fe16nat;
    let e28 = 2 * e27;
    lemma_power_mod_square(3nat, e27, n, x27, 0x4caca44e55b9b96c6cb470d03c6f0c7fa2e633b8dcf4c2db97c4ed39a6412e7dnat, x28);
    let x29 = 0x851695d49a83f8ef919bb86153cbcb16630fb68aed0a766a3ec693d68e6afa41nat;
    let e29 = 2 * e28 + 1;
    lemma_power_mod_square_times(3nat, e28, n, x28, 0x1710288f0042f3ec8a07aeb8bb976a19a151c7c868ca4e33400f3f3ea60f3185nat, x29);
    let x30 = 0x851695d49a83f8ef919bb86153cbcb16630fb68aed0a766a3ec693d68e6afa40nat;
    let e30 = 2 * e29;
    lemma_power_mod_square(3nat, e29, n, x29, 0x453079ad00c8dbc59e170c2a32c63e4ce3f557593a5eea99c02dbdbbf22d948fnat, x30);
}

proof fn lemma_power_field_prime_over_3()
    ensures
        power_mod(3nat, 0x55555555555555555555555555555555555555555555555555555554fffffebanat, 0xfffffffffffffffffffffffffffffffffffffffffffffffffffffffefffffc2fnat) == 0x851695d49a83f8ef919bb86153cbcb16630fb68aed0a766a3ec693d68e6afa40nat,
{
    lemma_power_mod_first(3nat, 0xfffffffffffffffffffffffffffffffffffffffffffffffffffffffefffffc2fnat);
    lemma_power_field_prime_over_3_part_0();
    lemma_power_field_prime_over_3_part_1();
    lemma_power_field_prime_over_3_part_2();
    lemma_power_field_prime_over_3_part_3();
    lemma_power_field_prime_over_3_part_4();
    lemma_power_field_prime_over_3_part_5();
    lemma_power_field_prime_over_3_part_6();
    lemma_power_field_prime_over_3_part_7();
}

proof fn lemma_power_field_prime_over_7_part_0()
    requires
        power_mod(3nat, 1nat, 0xfffffffffffffffffffffffffffffffffffffffffffffffffffffffefffffc2fnat) == 3nat,
    ensures
        power_mod(3nat, 0x124924924nat, 0xfffffffffffffffffffffffffffffffffffffffffffffffffffffffefffffc2fnat) == 0xe426cf8406a38a437358773f6b4815de890bbd086a019a95457cb0a68933bef9nat,
{
    let n = 0xfffffffffffffffffffffffffffffffffffffffffffffffffffffffefffffc2fnat;
    let e0 = 1nat;
    let x0 = 3nat;
    let x1 = 9nat;
    let e1 = 2 * e0;
    lemma_power_mod_square(3nat, e0, n, x0, 0nat, x1);
    let x2 = 81nat;
    let e2 = 2 * e1;
    lemma_power_mod_square(3nat, e1, n, x1, 0nat, x2);
    let x3 = 19683nat;
    let e3 = 2 * e2 + 1;
    lemma_power_mod_square_times(3nat, e2, n, x2, 0nat, x3);
    let x4 = 0x17179149nat;
    let e4 = 2 * e3;
    lemma_power_mod_square(3nat, e3, n, x3, 0nat, x4);
    let x5 = 0x2153e468b91c6d1nat;
    let e5 = 2 * e4;
    lemma_power_mod_square(3nat, e4, n, x4, 0nat, x5);
    let x6 = 0xd043522b644335b36c5a15b7de3e3nat;
    let e6 = 2 * e5 + 1;
    lemma_power_mod_square_times(3nat, e5, n, x5, 0nat, x6);
    let x7 = 0xa96d773aa0038607903ca9bb9765596ea457ad3a157b8abf71b88a5b49nat;
    let e7 = 2 * e6;
    lemma_power_mod_square(3nat, e6, n, x6, 0nat, x7);
    let x8 = 0xae858dc2d4c4a7868b78b460bb224e644652a54008de2dd6d39a97393663914enat;
    let e8 = 2 * e7;
    lemma_power_mod_square(3nat, e7, n, x7, 0x7021b63a26b878264b1916ddd7912cf23e2f4c8a009444d7aeednat, x8);
    let x9 = 0xbceb56fe39500e9dcc12aacc37dd618e57a553b11794db6e17a73378df2cb51nat;
    let e9 = 2 * e8 + 1;
    lemma_power_mod_square_times(3nat, e8, n, x8, 0x164ed77245c85d02a487a401f2d8df3a625a42d976743a9e1b24a9359156979f5nat, x9);
    let x10 = 0x3d3be49770c257d04df51dea44b0d762ca26db6db209d8fbc9d822fcd4f55a5fnat;
    let e10 = 2 * e9;
    lemma_power_mod_square(3nat, e9, n, x9, 0x8b6a801e387a996a2af3daea6d1d59d171ae0bc5c9f92955cd16aabb3d245enat, x10);
    let x11 = 0xba471bf1f1956055f59e76c107eb972390a0dfbbbf6891283287ccee044d35e5nat;
    let e11 = 2 * e10;
    lemma_power_mod_square(3nat, e10, n, x10, 0xea598f355a8b1de228402357d36650a17b3cfa903b3514e71e8f646a9f17964nat, x11);
    let x12 = 0xf84a4be10d2fe8f26baf006ec68e6d9af4dcf9b750725c81f1eaca666918a10enat;
    let e12 = 2 * e11 + 1;
    lemma_power_mod_square_times(3nat, e11, n, x11, 0x196a2391442e9fb63ce6dd5fc2245b3a306bb8a6cdf337b104cf63ab22f0bbc13nat, x12);
    let x13 = 0x9b90b12d138aff4bcbda7fe75d8452866bdf646b98fe2edc7dbc9e2ac5e85270nat;
    let e13 = 2 * e12;
    lemma_power_mod_square(3nat, e12, n, x12, 0xf0d00893fe26169a9e2cbddcb08a02ce705fe42d29bb98480fe35ca6488061ecnat, x13);
    let x14 = 0x6cc3306a09fb2376f2c63a6867db8bd378e0854962c63c1b1c43ec9722b76560nat;
    let e14 = 2 * e13;
    lemma_power_mod_square(3nat, e13, n, x13, 0x5e88885462ffaa7b13826a995bc8a49014f9597672d81da266fed1a546492660nat, x14);
    let x15 = 0x6bfe3595a6e2f92057fc26b65b9f4772ffe9b3c42901fffb85f6c96307eef369nat;
    let e15 = 2 * e14 + 1;
    lemma_power_mod_square_times(3nat, e14, n, x14, 0x8a9fd104c95d1e8c81241b0825f02ef7b424a39fb2252b5834f88b60d8c36819nat, x15);
    let x16 = 0x3f6a31eb781dfcc59b0afb254ae93956156e7b7edff1f3df51cfc568c1bd13cnat;
    let e16 = 2 * e15;
    lemma_power_mod_square(3nat, e15, n, x15, 0x2d8e7d3979b0353d11e3e920d7a7d2a9fe82163d98e750ddb3e6d2511c1e3f3bnat, x16);
    let x17 = 0x9878e4b8c20f9946a324832aea64b3a470ba8ccd30fa05fd2ef2aa3733123a79nat;
    let e17 = 2 * e16;
    lemma_power_mod_square(3nat, e16, n, x16, 0xfb5709f45da37cfd021a555afc33e3621e436963ed66a87dd1528dbc7c519nat, x17);
    let x18 = 0xd22f1eb36f060ca64b906164154fa44a8d6dbebbe1271a2d44f6ffcbb9ea0ab3nat;
    let e18 = 2 * e17 + 1;
    lemma_power_mod_square_times(3nat, e17, n, x17, 0x1106f5a17e0063af4b386522b9a0cdf8b0f54fdafef8bbb72af466c60a9dd1920nat, x18);
    let x19 = 0xaf935ac0704a0c97df97a7ac4039193518136b903e39e5ac49243237c432e86cnat;
    let e19 = 2 * e18;
    lemma_power_mod_square(3nat, e18, n, x18, 0xac91570aabb73cc3569b882c4664e6121522df1d958314710015a180ad112ad3nat, x19);
    let x20 = 0x3a2d29f73350f93cf5609abe695a1bbb4fb863bc3c407a9e14805cbaa538af13nat;
    let e20 = 2 * e19;
    lemma_power_mod_square(3nat, e19, n, x19, 0x786acae472b211decb4aacde4110ff056cf3f22df9e26fd1135428ea92e82913nat, x20);
    let x21 = 0xb8ac27ec20be03e8bbc550af2556fdd7ab8e0a3b33744ea3c6b587b361bcb6e7nat;
    let e21 = 2 * e20 + 1;
    lemma_power_mod_square_times(3nat, e20, n, x20, 0x27a97cf3611d89a1bcf9a3ae698cdfedb1ad7fa452c2db0208a58ce6e96440ecnat, x21);
    let x22 = 0x6ef56e025c9c7527ebc10e94f881bf6a2d64648fbced5f1f1b110ddbb0a74d58nat;
    let e22 = 2 * e21;
    lemma_power_mod_square(3nat, e21, n, x21, 0x8537ed291a96f0ba166021747fe0af2386b7d25c04b50861de23e4e5814e8737nat, x22);
    let x23 = 0x5c0e452e33f1b281d32176b5e8d62d981ea2ec76ec4c5b6ba798294f4fc977c6nat;
    let e23 = 2 * e22;
    lemma_power_mod_square(3nat, e22, n, x22, 0x3017d5d5c761bfc295a41f1b35f70238003223db65b11a193b5ae8ce95f5f0a6nat, x23);
    let x24 = 0xa181d9f8158baf55d26f7562db39dcf5de995816cea9f7118c4a38569eb91fabnat;
    let e24 = 2 * e23 + 1;
    lemma_power_mod_square_times(3nat, e23, n, x23, 0x634ec78e8b40053b80ba6a4edce3547d513c0cb271839409994906f9407caf0fnat, x24);
    let x25 = 0xf6c3e9133cca7c44a1afe9f0b94ebe4e82cce0ae906916dcb4aca9d985e57d97nat;
    let e25 = 2 * e24;
    lemma_power_mod_square(3nat, e24, n, x24, 0x65e4960770b5ee4136e1b1ff462400344949dea8e2a1b870f5abc0a3c4b158fenat, x25);
    let x26 = 0x4c204e47715025591cffae7e9dbd20a031ad4c0117ebef85aa71073c68228f6bnat;
    let e26 = 2 * e25;
    lemma_power_mod_square(3nat, e25, n, x25, 0xeddd19dde057c967e1ff5283c53ebd10640dbfb074432a96586b079bda28733anat, x26);
    let x27 = 0x47ad91299232b63302ab2262371b15c23a6a3b2fc7652fcd83e2f5f7b34618b3nat;
    let e27 = 2 * e26 + 1;
    lemma_power_mod_square_times(3nat, e26, n, x26, 0x43e997aa3f3a95996899cc122ea332c5d0ac4f45448bb380884c21ec94bdf608nat, x27);
    let x28 = 0x2fa244d1fdaa6539f73942c5df48015df91884bd0ebf57c646328f1c260a2fc7nat;
    let e28 = 2 * e27;
    lemma_power_mod_square(3nat, e27, n, x27, 0x1411bc329397d7f8268e8f9987b89696548fc29e8b2bcec092d5b04d7c8b563enat, x28);
    let x29 = 0x3d6ecf16810202a45e56d4ccb31b20de28854f28ecc77a31e826cb166d8543c7nat;
    let e29 = 2 * e28;
    lemma_power_mod_square(3nat, e28, n, x28, 0x8dcfc204769d7d6177e3c786d0d7d920fc2b3d59bf127085a7775c96f407936nat, x29);
    let x30 = 0xbe2b137b880f2414db8204e8391b89fa5157ee15cf771b89c1a60a13a7ff8e6dnat;
    let e30 = 2 * e29 + 1;
    lemma_power_mod_square_times(3nat, e29, n, x29, 0x2c39fbf60905acc8d7873e94460145e849456d09276a804c0030b8bf88b8f33anat, x30);
    let x31 = 0x83a01d180008ae07ff5ae9f42d3aef2a2bb0b26bebbcc411a4c83ce01cbb0a0bnat;
    let e31 = 2 * e30;
    lemma_power_mod_square(3nat, e30, n, x30, 0x8d43f82aeaf1c0735b0e98d1ff34fd93cb95562aada4a2621e52de2285db6802nat, x31);
    let x32 = 0xe426cf8406a38a437358773f6b4815de890bbd086a019a95457cb0a68933bef9nat;
    let e32 = 2 * e31;
    lemma_power_mod_square(3nat, e31, n, x31, 0x43ad41eaf1575f37b264aeba285edf861da3a42b044a80238dd80aa72f8bda80nat, x32);
}

proof fn lemma_power_field_prime_over_7_part_1()
    requires
        power_mod(3nat, 0x124924924nat, 0xfffffffffffffffffffffffffffffffffffffffffffffffffffffffefffffc2fnat) == 0xe426cf8406a38a437358773f6b4815de890bbd086a019a95457cb0a68933bef9nat,
    ensures
        power_mod(3nat, 0x12492492492492492nat, 0xfffffffffffffffffffffffffffffffffffffffffffffffffffffffefffffc2fnat) == 0x359b373d70bbf0137dbf8bddc4e249f05995357de467c1cba26d626f41fd4e94nat,
{
    let n = 0xfffffffffffffffffffffffffffffffffffffffffffffffffffffffefffffc2fnat;
    let e0 = 0x124924924nat;
    let x0 = 0xe426cf8406a38a437358773f6b4815de890bbd086a019a95457cb0a68933bef9nat;
    let x1 = 0x259f42490670920a27e6ac13d54eca6744322e5c5d53b209f7cda3d034919c0cnat;
    let e1 = 2 * e0 + 1;
    lemma_power_mod_square_times(3nat, e0, n, x0, 0x261ff76904db428f98bb6af2ab7ecd2dfa18a401e3f578fe97ec12a2d69444529nat, x1);
    let x2 = 0x5be84c2b7ccd62aafd47b6f4b7789184f70874367afc622141e43b69e28f48f3nat;
    let e2 = 2 * e1;
    lemma_power_mod_square(3nat, e1, n, x1, 0x5876c3c83bc46330fd03cfdc4a56b7f4d28655b3b1bc394454957d2dda3b9f3nat, x2);
    let x3 = 0xb3d191d2767b558fdd5b46edd76f598c580147da148984f01124d86b2ade07bbnat;
    let e3 = 2 * e2;
    lemma_power_mod_square(3nat, e2, n, x2, 0x20fef8f1103611e58268563e11f37f59dd1b688deaf793b15b09b5ee9c925e72nat, x3);
    let x4 = 0xc466f07cda3441e9506a8e2adb8af55fe3022e967d9849e696cc297e7c7072ednat;
    let e4 = 2 * e3 + 1;
    lemma_power_mod_square_times(3nat, e3, n, x3, 0x17aec38733b3212d59db111ecd1e2f4b76bf0e18efe945048f3ea2d9610d14b82nat, x4);
    let x5 = 0xb6785019efb83bce72c04fd9f7be893dabe2150e31369f227c35fe862ef03fcbnat;
    let e5 = 2 * e4;
    lemma_power_mod_square(3nat, e4, n, x4, 0x96adc9a3b3883c97e1419a54d0d44483ed72e8ab967e1902d0cba347fd55acc2nat, x5);
    let x6 = 0xf553d5d010ba870e29f5afc920085745f94a4f48162e7275513fc86672972226nat;
    let e6 = 2 * e5;
    lemma_power_mod_square(3nat, e5, n, x5, 0x820f4a70123aea35748b4020e513da1b1edcac15c498de51e5fc27399d2b409dnat, x6);
    let x7 = 0x2a599c6c80a13cff32e3d9ddc707f781f2646971efca1910bdebf5eefb8f27c4nat;
    let e7 = 2 * e6 + 1;
    lemma_power_mod_square_times(3nat, e6, n, x6, 0x2c14cb81dc68b4d32cd510c38d3b217d6542d1a2718d89c566f0774df771a4f58nat, x7);
    let x8 = 0xeb9ddc255739d07724d9a209326986bccaa8d4d225622c1b68a9a00528fb49d8nat;
    let e8 = 2 * e7;
    lemma_power_mod_square(3nat, e7, n, x7, 0x70186b1bd3ac2e1712845cfddb399296a68ca05d555f9ba86d4549bb6fd9948nat, x8);
    let x9 = 0x9503229f60db78481bfc8584efde84f9504063f8028c046f60b7f1c3ea8e3f95nat;
    let e9 = 2 * e8;
    lemma_power_mod_square(3nat, e8, n, x8, 0xd8db338451415502228624f3d11a607d2905aa54f82ea1fdfcad3b7253b9b245nat, x9);
    let x10 = 0xf19c475ec3aacd52d147fb19da2f2b88a6ca1e72c8ab983e160a6393fd383d49nat;
    let e10 = 2 * e9 + 1;
    lemma_power_mod_square_times(3nat, e9, n, x9, 0x10435f306117f68558a758824711650c51fdb80bd238d70a981edc9da467dc2benat, x10);
    let x11 = 0x339d7520834290cc3514a3af2cbcee32c021112b563fd7b31870af257cbbe1eenat;
    let e11 = 2 * e10;
    lemma_power_mod_square(3nat, e10, n, x10, 0xe4079dc77bcbc25d2fd8f629d3f2d191a3721bbc99739a92f6b34f23f7f6998dnat, x11);
    let x12 = 0x1889d09351fe254c2ba9f502771925488773a8aa9d89d1b3c10ea8016eda83a7nat;
    let e12 = 2 * e11;
    lemma_power_mod_square(3nat, e11, n, x11, 0xa681d83d3c44172e3eb619aacfc0e19cdeab1dbb5ea868f7a19ec8649e5bbf3nat, x12);
    let x13 = 0xc583f0090dd862112f0ebdf1fa64f6b75ad36bacfb85336c0db3c1c39906258fnat;
    let e13 = 2 * e12 + 1;
    lemma_power_mod_square_times(3nat, e12, n, x12, 0x70e63e594f769135d5c128dc7889f93edcaee085a7db4d40d3d45cc5a8e2ffcnat, x13);
    let x14 = 0xfcf5eed8042886b203cd1cfacaefd1bf904d162b4ea946b9c1e9939388dd25f7nat;
    let e14 = 2 * e13;
    lemma_power_mod_square(3nat, e13, n, x13, 0x9864536d79a42caa81d9a7b9258cc8e548ef2f28eb2ddee85c21c6b359911236nat, x14);
    let x15 = 0xceda4e6af44374584827dd31e83ab40c09bbd10a98972a0f86c84ecb190aacbfnat;
    let e15 = 2 * e14;
    lemma_power_mod_square(3nat, e14, n, x14, 0xf9f51a7c507e1cc2a71eadbef2323d49e3cc507ea435f1ea16359eb0c9c8b30enat, x15);
    let x16 = 0x28397373a92e20db6378a2177a7d84d6b513c5525326d4ee3f6dc0e3eeb50fenat;
    let e16 = 2 * e15 + 1;
    lemma_power_mod_square_times(3nat, e15, n, x15, 0x1f56c311955ddc2f992e9898a718864d2808778a08da493effceb01895bd5ab8bnat, x16);
    let x17 = 0xd214540f58143f4748665c950a9c5b0116e87c16cffa7c44aeb93be04534db1enat;
    let e17 = 2 * e16;
    lemma_power_mod_square(3nat, e16, n, x16, 0x65200f8c270df10118c8e8ac12318cbd20c878ebd462e59ed43c5fba955fanat, x17);
    let x18 = 0x82e3ecdf45b4140652522bf139d37f8ae3d4d141144ed3086fef4c415da3dcb1nat;
    let e18 = 2 * e17;
    lemma_power_mod_square(3nat, e17, n, x17, 0xac655b866a810db3901f5edb9a00af4a6933faf79f1d41dfec7beee1e563ce9dnat, x18);
    let x19 = 0x4a1c6f4e8b2b19c50dc37e4b91934f9241f47d294e1633e18f18660ec6b5c69cnat;
    let e19 = 2 * e18 + 1;
    lemma_power_mod_square_times(3nat, e18, n, x18, 0xc8c4d68215c6c6d16357abd8429d2741b8bee10f9b249d2b6bc23916ade3a329nat, x19);
    let x20 = 0xca0fde94b481c54db92ab323adfe13f5e5407b780b6f1a35803cf7bbc70d4939nat;
    let e20 = 2 * e19;
    lemma_power_mod_square(3nat, e19, n, x19, 0x15747381f208911c09547308e3147fb546a68ae92aefe7e074edc7348b23fed9nat, x20);
    let x21 = 0x7ad85eb3b104583d78c445a634b1a9ae71f73f92dc8f350f02d5a3902e9e7f08nat;
    let e21 = 2 * e20;
    lemma_power_mod_square(3nat, e20, n, x20, 0x9f7d0c3e83d032060ed8c3f7319dbdd394f63fbf471d0ae41c1c439a5cc503a7nat, x21);
    let x22 = 0x87ba1f04f5c5a697c2f24c924e586af84851e2f0aa3946dc198aa212deaee0fcnat;
    let e22 = 2 * e21 + 1;
    lemma_power_mod_square_times(3nat, e21, n, x21, 0xb0d8d369a4f1eeaf225b3f048cf5a4ad75883c9b9727e26cff329d28adbf877cnat, x22);
    let x23 = 0xdef4309fa89ffcdc14d73415734ba74d1521d50038db9096ca81b593faff735enat;
    let e23 = 2 * e22;
    lemma_power_mod_square(3nat, e22, n, x22, 0x47f5d408522dcc889c9cb446a677e71cd674f2073e9ab13a3a3690897189bfeenat, x23);
    let x24 = 0x39ee295a94618c13c8eef8dce63e4b1c46dcd8e9432d4ed75478d001a532de74nat;
    let e24 = 2 * e23;
    lemma_power_mod_square(3nat, e23, n, x23, 0xc22c6d41a20b2e569c4df9a002341a2c8e64480d54780671d51b1646fac374f0nat, x24);
    let x25 = 0x1e9268177d8f9e1c8b9d48c8c903e3f6ccb28bd54b1be60e5babfe97630903c8nat;
    let e25 = 2 * e24 + 1;
    lemma_power_mod_square_times(3nat, e24, n, x24, 0x2753c3f1c3886bff892d5fb3c2ed7176c0f7e5398abae1f063a5d0b3ee23f298nat, x25);
    let x26 = 0xfbf7e79e532eb8df4e110e4cc5e58ad0613db5b43daecc15eddcfafabb5f42fenat;
    let e26 = 2 * e25;
    lemma_power_mod_square(3nat, e25, n, x25, 0x3a6a420668bf90b87234800db6b3b95866921c833b688a8223fffc41bfa905enat, x26);
    let x27 = 0x7cebc52c60f55a3dac9ac811514449669fb67535606355d080f9559f248c73f4nat;
    let e27 = 2 * e26;
    lemma_power_mod_square(3nat, e26, n, x26, 0xf80010413c313eb7bc549de30b7313778ea3b2aee7d65bdf55b1cf8076c52cf0nat, x27);
    let x28 = 0x49091b2b1cb62dc949d654c7d7898c6e52d24c1aee49f6b9d0ce3a668c271331nat;
    let e28 = 2 * e27 + 1;
    lemma_power_mod_square_times(3nat, e27, n, x27, 0xb6dfc073bfcf145f872b20fd3cddfe1d0b73618e35b9bc776a467a5975cdaeb1nat, x28);
    let x29 = 0xf7b04e3551803cb4fb4de68ca130821e799e25ace47b6fb8a3cb91c82ead7cb3nat;
    let e29 = 2 * e28;
    lemma_power_mod_square(3nat, e28, n, x28, 0x14d631d1824a0a3d1a57a0471d687de2dbca166757f3cebfd599ce204063a6b2nat, x29);
    let x30 = 0x2b6ffba06c3a11c4d8594345360a23c937a2636b3bc2c0dc0eb25aecda52fed8nat;
    let e30 = 2 * e29;
    lemma_power_mod_square(3nat, e29, n, x29, 0xefa5b056847a0e3db3d3b0bb319055c870e8b6d93e055b35dfd9d7978b98257fnat, x30);
    let x31 = 0x32428b9fe36d89d7c849e739e4cd4db9964c190258fa2b29b99e7695be3ba364nat;
    let e31 = 2 * e30 + 1;
    lemma_power_mod_square_times(3nat, e30, n, x30, 0x161c6e8c3267ff3e9bb2956b9de979ca62564c46d13098efed0039f3536bb364nat, x31);
    let x32 = 0x359b373d70bbf0137dbf8bddc4e249f05995357de467c1cba26d626f41fd4e94nat;
    let e32 = 2 * e31;
    lemma_power_mod_square(3nat, e31, n, x31, 0x9de0fd6bf6f13289d4d234c3d4c8dda7138262ea9a427ae9ce6fba4a40e0c44nat, x32);
}

proof fn lemma_power_field_prime_over_7_part_2()
    requires
        power_mod(3nat, 0x12492492492492492nat, 0xfffffffffffffffffffffffffffffffffffffffffffffffffffffffefffffc2fnat) == 0x359b373d70bbf0137dbf8bddc4e249f05995357de467c1cba26d626f41fd4e94nat,
    ensures
        power_mod(3nat, 0x1249249249249249249249249nat, 0xfffffffffffffffffffffffffffffffffffffffffffffffffffffffefffffc2fnat) == 0x1cd3795cb7a8d74820ecc3c7a9c313653fcfb3031db65f5bef5321ec398b38d0nat,
{
    let n = 0xfffffffffffffffffffffffffffffffffffffffffffffffffffffffefffffc2fnat;
    let e0 = 0x12492492492492492nat;
    let x0 = 0x359b373d70bbf0137dbf8bddc4e249f05995357de467c1cba26d626f41fd4e94nat;
    let x1 = 0xc8775edfb776e1aa74638bcc0257eb93dd2570b93cfbd1ecb6a6f5bec3adc786nat;
    let e1 = 2 * e0;
    lemma_power_mod_square(3nat, e0, n, x0, 0xb39a2fb60ffca2c76095b391919ec678e779b2420778c401953a28b99998e16nat, x1);
    let x2 = 0xbf0383749e577d55e643c9d6e331c63ea6d2a4d3d448b1ecd102c18d68800f3enat;
    let e2 = 2 * e1 + 1;
    lemma_power_mod_square_times(3nat, e1, n, x1, 0x1d6f033b4b16e1e15bdefc3c359a4d6130a66d1d0a1585317aebeea120ac8e232nat, x2);
    let x3 = 0x15a076e30781bee6869bcdcd8b4c8e2774aa7de9a7f74a9f037ce052d833ecf4nat;
    let e3 = 2 * e2;
    lemma_power_mod_square(3nat, e2, n, x2, 0x8e863e345c82d240891c28e3e6099f285423a223ac555aff74f9ead0be0726f0nat, x3);
    let x4 = 0x13262d25546b2c2923d752b1d12eae15c9f75ce3b13b69126e211cd7f30953ebnat;
    let e4 = 2 * e3;
    lemma_power_mod_square(3nat, e3, n, x3, 0x1d3b816123abfc25e8b3da1e1dc539fda453c9b32f3cb020a98802aa339836bnat, x4);
    let x5 = 0x4c58b7f6c568b843a731b6ac120a642a375f867213744925c7a7f7647237d2c4nat;
    let e5 = 2 * e4 + 1;
    lemma_power_mod_square_times(3nat, e4, n, x4, 0x44c112eecb9587b37a1039dd80ca582646f0f20a899cf181fb155638fdbdf49nat, x5);
    let x6 = 0xbba7d913e586b0f02f63d1cf351301f678cf710fabbe4605ff18c6dc256d0d7cnat;
    let e6 = 2 * e5;
    lemma_power_mod_square(3nat, e5, n, x5, 0x16c4cbf98310a1828eb5a82082a354dd1c752a63d47c9aa1ea8aa31b08ffa7acnat, x6);
    let x7 = 0xa73fb738032cc28d63c1689cbb5bc90e23f1969488d28f5fe5450cd5b21a9d5cnat;
    let e7 = 2 * e6;
    lemma_power_mod_square(3nat, e6, n, x6, 0x898ea530015af8e3f6595c2a20e8c4c53c827e14b405978443796c3dc9db438cnat, x7);
    let x8 = 0x3cbccd34a3ed6f2c3805327bb6424f569e2810379ee8cd81b010deea3af7b7b4nat;
    let e8 = 2 * e7 + 1;
    lemma_power_mod_square_times(3nat, e7, n, x7, 0x147cc92b44e8543f6d28853a0b3adb46d389ab28e48554a0358818f0995fb7944nat, x8);
    let x9 = 0xfbff64ac48f9c9fc11bb763d1f399a0be7d8aec95c63a157f5898006e609b2f7nat;
    let e9 = 2 * e8;
    lemma_power_mod_square(3nat, e8, n, x8, 0xe690b6eb6a56a3548aeeac48f9722de3256d782cc551f658af25344bb2c82b7nat, x9);
    let x10 = 0x6228c291462ed5fac3565b1ece4ed44f176d72f57257f289bb70d785e0c7ef21nat;
    let e10 = 2 * e9;
    lemma_power_mod_square(3nat, e9, n, x9, 0xf80ece338dea40a9f932bb3c06f78894e0896c9840f826f582d74487c7657bd0nat, x10);
    let x11 = 0x114b4a4a90266fa1debdd3c7fbc51feedf61dbcccfa7e9a7fb20cf6987e9e2c2nat;
    let e11 = 2 * e10 + 1;
    lemma_power_mod_square_times(3nat, e10, n, x10, 0x70e9b25dd106e1d34595cd64dfee38f470e9f58aa92a6ae70a422a5801aa06cfnat, x11);
    let x12 = 0xb9818cac1b4329ed0c7d1a5d07340c593c604cc7efd321a4ff599678ef9d27a3nat;
    let e12 = 2 * e11;
    lemma_power_mod_square(3nat, e11, n, x11, 0x12b16028464c266c85b1b109a1d350858e48a28c83e1613a0e77131ccd8556fnat, x12);
    let x13 = 0xa6fb04ffc54b03344bd7b26546b50801744246478279e56dccfe85cb60d1f1f0nat;
    let e13 = 2 * e12;
    lemma_power_mod_square(3nat, e12, n, x12, 0x866c7edfd2273dcef7f63ed79cb05fbba58b8dfb958302cdcd53c0ff38f5fa77nat, x13);
    let x14 = 0x92bbe5dfbbc1db0dcd5efe6cedd8f7311020ea773567d0352230c1aa16b5e8f8nat;
    let e14 = 2 * e13 + 1;
    lemma_power_mod_square_times(3nat, e13, n, x13, 0x146bf81db848974df437d055f16f600415ee4bb49d11c45bee994645d65381c78nat, x14);
    let x15 = 0x968e4ef6018cc0e16e1090187d47c5a8f77131b28c87d420874eec0413b58fcbnat;
    let e15 = 2 * e14;
    lemma_power_mod_square(3nat, e14, n, x14, 0x541adc1cd56f74833bc17f45e16627476dbea0dd8e2e22af64ad40b79c37d09bnat, x15);
    let x16 = 0xb3f2d3038830e11da1fcdb4c5e5b99969b01f47c91d06aae2aa86746b4e471b8nat;
    let e16 = 2 * e15;
    lemma_power_mod_square(3nat, e15, n, x15, 0x588b13a3fb157f86e71ffa73785e61831825d93fa9d0b68b2fc49209c373d58fnat, x16);
    let x17 = 0xa599a8efa38bcbf99446a8e517a11669752b92974187f77a792aa2b708d9e0b3nat;
    let e17 = 2 * e16 + 1;
    lemma_power_mod_square_times(3nat, e16, n, x16, 0x17b786c3fb331fd524bb9deea18d615e47500f2cf7fe00e0c8ed66876b39f1083nat, x17);
    let x18 = 0xc30eef91b4aeecc66f499ade11abc4296b78af7ff4e4c8e52698331e4126e6cnat;
    let e18 = 2 * e17;
    lemma_power_mod_square(3nat, e17, n, x17, 0x6b1f700046bf1903ccb012e3c246b47f435aef21edb412f83f2b4a90e545ccd3nat, x18);
    let x19 = 0x3bee125a9245443c35064fe778c9fbcf71314977967d1383128bddda97000721nat;
    let e19 = 2 * e18;
    lemma_power_mod_square(3nat, e18, n, x18, 0x949fc1d70d63a224ff077f0e84fef106259aa50e69f3a0540aadd299f0d9c1nat, x19);
    let x20 = 0xfceb70f91828a0ed776b524fd73591e77deef852aaf253fcd7dabe31954ad727nat;
    let e20 = 2 * e19 + 1;
    lemma_power_mod_square_times(3nat, e19, n, x19, 0x2a16cd93a36e48929ec914c9e49ac0bb86c8d9e4a1b62c5cc0251585b08d2724nat, x20);
    let x21 = 0x15039036d37e66d83b58a06004cb7471c9c1c599f1664c329f8abc844c1cbf98nat;
    let e21 = 2 * e20;
    lemma_power_mod_square(3nat, e20, n, x20, 0xf9e05ef302bd3eee85350425bad5b1be516c84974f48f51d94dc5b75fd1139f7nat, x21);
    let x22 = 0xc4e960010d97ad91569beb9a4da30dbdd27c3fa9e1fdbe0b7a9a24c32df909ebnat;
    let e22 = 2 * e21;
    lemma_power_mod_square(3nat, e21, n, x21, 0x1b995b5b1396b81fe8e305218d8b5514822e0a052ab6e3e97a090a4a14436bbnat, x22);
    let x23 = 0xd8b493238d29276601ba7c12a81d717e529624679311d5f2c494aa89d6c8df8fnat;
    let e23 = 2 * e22 + 1;
    lemma_power_mod_square_times(3nat, e22, n, x22, 0x1c6628f4488335e3a17ca928938d4fe287117cd387553497e0c98dcdb9babad24nat, x23);
    let x24 = 0xbcf332de57e4e46c40d31388c629375c87301df2056101f98c2981edd222ab6enat;
    let e24 = 2 * e23;
    lemma_power_mod_square(3nat, e23, n, x23, 0xb77137ab3cc5cd68b4b367829c0daaad0afb6f501abb31410c521e4db14e34fdnat, x24);
    let x25 = 0xef585c4794948d3de05b0a1bff219fca2bd0a8a9fd3a826ca29658bb0f8104d4nat;
    let e25 = 2 * e24;
    lemma_power_mod_square(3nat, e24, n, x24, 0x8b7619c02d4ea77a9d1cea641b1ffaaf48f2cbd74aa30df7e4d9160f5769fc90nat, x25);
    let x26 = 0x1eb86a276f4a0b42c71d73aa260c6d2db10cfde87c88b5766b1d48b01896248dnat;
    let e26 = 2 * e25 + 1;
    lemma_power_mod_square_times(3nat, e25, n, x25, 0x29f525067adb525fb7cd173aaccd16e4a3271f24de1b8d66b7be072afadfa104dnat, x26);
    let x27 = 0x59fadf7559bf2db119230ebae7f9c69a1cf017f8b558f6b9e8a1aed710c582anat;
    let e27 = 2 * e26;
    lemma_power_mod_square(3nat, e26, n, x26, 0x3afbdba02ca035040ed27dda00936a9c2bc7ecd8d510b501009b359fe348fb1nat, x27);
    let x28 = 0x62fcdc669e9e36053db26e362d7f00d91efb0004267bb297c87e5f1d0bc9859dnat;
    let e28 = 2 * e27;
    lemma_power_mod_square(3nat, e27, n, x27, 0x1fa06538cca7df509b3042ed21f376d447c141601fa361b8aa56361c73ae69nat, x28);
    let x29 = 0xddace42751dca0c90f47bb4f6548f85fa9f8082feaca3302c491043534bcfc13nat;
    let e29 = 2 * e28 + 1;
    lemma_power_mod_square_times(3nat, e28, n, x28, 0x72d3b783abadd7cb38456b067d671b7451a0e158f32724170c2675db2a0c07b8nat, x29);
    let x30 = 0x6666f1cafbca67009a81dae368768350f1ed95609766b588d2dbc45d8a45f781nat;
    let e30 = 2 * e29;
    lemma_power_mod_square(3nat, e29, n, x29, 0xbff3f6af4382fdee3c5ade292f4a2e529ae7d741c1eaf8f19f2e4c54e4a62a98nat, x30);
    let x31 = 0x374f517b7155091796778baa9b517519abda97194267243b9622ef9a9a334059nat;
    let e31 = 2 * e30;
    lemma_power_mod_square(3nat, e30, n, x30, 0x28f6321352c5be63f89acfc5dce33d215cac7b6a61a4dde2539038bcad8189d8nat, x31);
    let x32 = 0x1cd3795cb7a8d74820ecc3c7a9c313653fcfb3031db65f5bef5321ec398b38d0nat;
    let e32 = 2 * e31 + 1;
    lemma_power_mod_square_times(3nat, e31, n, x31, 0x23d988c34c7580e4fa8e3bdad45778c6c0a5a76622bcfa41f8660b9808e0fc6dnat, x32);
}

proof fn lemma_power_field_prime_over_7_part_3()
    requires
        power_mod(3nat, 0x1249249249249249249249249nat, 0xfffffffffffffffffffffffffffffffffffffffffffffffffffffffefffffc2fnat) == 0x1cd3795cb7a8d74820ecc3c7a9c313653fcfb3031db65f5bef5321ec398b38d0nat,
    ensures
        power_mod(3nat, 0x124924924924924924924924924924924nat, 0xfffffffffffffffffffffffffffffffffffffffffffffffffffffffefffffc2fnat) == 0x3976cbc3645e69acaabf973693eed51cb985cfdcc408e15f50a6cfa5fe3ebd9anat,
{
    let n = 0xfffffffffffffffffffffffffffffffffffffffffffffffffffffffefffffc2fnat;
    let e0 = 0x1249249249249249249249249nat;
    let x0 = 0x1cd3795cb7a8d74820ecc3c7a9c313653fcfb3031db65f5bef5321ec398b38d0nat;
    let x1 = 0x7af3080f9d51bf5997f1e066438a6e6a6e8839ce3562d58085b11657bcdd1ed2nat;
    let e1 = 2 * e0;
    lemma_power_mod_square(3nat, e0, n, x0, 0x33ef13d908c769cc8b9cf3a464bec15306f87c6d0ddb55adb3eecb689660732nat, x1);
    let x2 = 0x456b149acf827cd279241b98c59579c500b98732ae84e746aede90553d5f234enat;
    let e2 = 2 * e1;
    lemma_power_mod_square(3nat, e1, n, x1, 0x3b0c8a672fd78e5b952063def0fa7ea2fd4ba9449acb6e9d7b6f5befdd9022eanat, x2);
    let x3 = 0x3b83e659fb4f2c919c11459a4a2070f71b8de298dd408348d0bbb3f626557a6cnat;
    let e3 = 2 * e2 + 1;
    lemma_power_mod_square_times(3nat, e2, n, x2, 0x3878b1b10ccb153985d63ac2978272e84dc63134d9dbdef8c8ad0496a3c22d20nat, x3);
    let x4 = 0x664a93d6200cbc551e56727c6d234bd7b0e2f0f47573dfb287f421a0279319b0nat;
    let e4 = 2 * e3;
    lemma_power_mod_square(3nat, e3, n, x3, 0xdd61023093380c5b2ccab51f8d1055cf65c78c83e2278a2341d09d01021e220nat, x4);
    let x5 = 0x68143e044279635d81466dd66a018058c7f03f8efcdc75141f9279fca1788f67nat;
    let e5 = 2 * e4;
    lemma_power_mod_square(3nat, e4, n, x4, 0x28df83886eb44958eefa3c12d1071bcab1ddd22e18b6f68e5fb5e312d84d3cb7nat, x5);
    let x6 = 0x2e3bf7c1963de47c4df02e5592564ba86d57c14ba49689b0cc812e0c9d0cdab1nat;
    let e6 = 2 * e5 + 1;
    lemma_power_mod_square_times(3nat, e5, n, x5, 0x7ef15bf7a1193be9527de7be77f523becfde66bb100b5ab7b43d29bf9c592ffenat, x6);
    let x7 = 0xb8d61175afbe2dacdbc2c2bdb560b08f336d4c479ff6c9fddf505f81e7d5f05anat;
    let e7 = 2 * e6;
    lemma_power_mod_square(3nat, e6, n, x6, 0x8599b15b500a0f34db535e77417b6525a3f916dc8f6cb4f5ba36e32ee11eda9nat, x7);
    let x8 = 0xf1d7467b6814cf00ca3ef2a4182d404fb4807a438b269ce17b661fcb4ff868b8nat;
    let e8 = 2 * e7;
    lemma_power_mod_square(3nat, e7, n, x7, 0x85746c1a5e940b0e3773a67930fa24469d921b11e89934d2ca78541781fa60d4nat, x8);
    let x9 = 0xed0d824a89502131bf64d2aeee47d6c14f797c6fc5e776cd9fe8ccb4c5389c05nat;
    let e9 = 2 * e8 + 1;
    lemma_power_mod_square_times(3nat, e8, n, x8, 0x2ad65173371f72b533ee77978ca7d342933875e5ee1805c9455df4222dc13b535nat, x9);
    let x10 = 0xcfa94e88ebc47c90a290af3cda2a1f8ae405e8b8b3f80081a466490b1ca80d65nat;
    let e10 = 2 * e9;
    lemma_power_mod_square(3nat, e9, n, x9, 0xdb8203f4802018c2891eb216597813962eccaa7416c2b1be4f18cad29f84af8cnat, x10);
    let x11 = 0x514916db364204d646704202e0e27faecec94591d4752a3911c292844a15fda1nat;
    let e11 = 2 * e10;
    lemma_power_mod_square(3nat, e10, n, x10, 0xa8733cfa3626c3c573ab6ea930366eb33b97b27400c98bae39d0189d08ceb148nat, x11);
    let x12 = 0x82b9e7dc8b455b5d541c2ce3b23cce2bd389e4bd8486085f0353c4a79a5d3517nat;
    let e12 = 2 * e11 + 1;
    lemma_power_mod_square_times(3nat, e11, n, x11, 0x4d6dfffe4a2f653ebc30b2bc82f84a8132840bc72d7ffe3ce5ec573b76111b14nat, x12);
    let x13 = 0x1e1f1da23fe9b8250e4f4921214b65f4b4c3e1e766e8189fe372070cf9a0b55nat;
    let e13 = 2 * e12;
    lemma_power_mod_square(3nat, e12, n, x12, 0x42c1567cec337c5fac2c088545cedc0c49165814410f84797045bd3a112b3404nat, x13);
    let x14 = 0x3ae2a371ac1b92c9bada52a5f43f4bac8a873159bff36d5a45bf23093c4a68b6nat;
    let e14 = 2 * e13;
    lemma_power_mod_square(3nat, e13, n, x13, 0x38b4eba37b46b132fce5e7e81b227e1cdb16a77fd010f777f4e0edc6696ednat, x14);
    let x15 = 0x11168c61a83e019221e4a215a431a004b941a04c3b6cad6cf2782cc2bd1c5d16nat;
    let e15 = 2 * e14 + 1;
    lemma_power_mod_square_times(3nat, e14, n, x14, 0x28a2701d7d1ef88541772388666d305f4b1400ef7c66dfdd4493af2e3bec56canat, x15);
    let x16 = 0x7741f39b796d60ac2f10444712d3fba6694dce971ef9fa4a47bc6571a9c9e32bnat;
    let e16 = 2 * e15;
    lemma_power_mod_square(3nat, e15, n, x15, 0x12400a1661c1c226ce4a7b70b5846ee369170c7ead896c71a25d625b6069597nat, x16);
    let x17 = 0x923367f5ac3c9333c05717758433f913e882469d9acbd448cd8e1aa1a0d1f840nat;
    let e17 = 2 * e16;
    lemma_power_mod_square(3nat, e16, n, x16, 0x378e617827a7e05d14c38bb4da894aea8ae2eb233acf68377fdf88a5a636f357nat, x17);
    let x18 = 0xe172d56a0c625940819f3fabd3cf588b28c248f345c3512f6de4c505e6e43268nat;
    let e18 = 2 * e17 + 1;
    lemma_power_mod_square_times(3nat, e17, n, x17, 0xfa7c06b46badfd30a4da7a457ba7417bd5cca08c9b2d5965047478f4bdb7fde8nat, x18);
    let x19 = 0xca737a5e965fb7bc0ca9f4d7c085e380b261459afffe2ec63ae02d5f34695912nat;
    let e19 = 2 * e18;
    lemma_power_mod_square(3nat, e18, n, x18, 0xc68b0ea72e218d04cbddff0597d7dd58919381cde3ed3e1988b02e3f2e82d032nat, x19);
    let x20 = 0x11be845c368b79f9983793e819c914096c258e1edd0265c0fb92efd8d8415a8anat;
    let e20 = 2 * e19;
    lemma_power_mod_square(3nat, e19, n, x19, 0xa01a713470c87239d8ae105c001eaa90a255bdaa1e913ac017aade41a6bd5066nat, x20);
    let x21 = 0x9d09d4d1cbae9ea94a03e30e40d6009a8183acc38bdb3d55fd937ba4dcee285enat;
    let e21 = 2 * e20 + 1;
    lemma_power_mod_square_times(3nat, e20, n, x20, 0x3b09216f5ac2419df1897e23b67d9a246b6eff60173482419aa89e76174c492nat, x21);
    let x22 = 0x487889a153aafbdbeb6342d055e5e165042db693023c0ad9b0cb64a92f09ddd3nat;
    let e22 = 2 * e21;
    lemma_power_mod_square(3nat, e21, n, x21, 0x60550f69fb80a62a38a5d28348c79322b926a7fe865ca191c8c38749ac07d51fnat, x22);
    let x23 = 0x40fc8d6d638c522c3aad5a4154dd84a3613ffcd0ca1b09e6e78bd74038fa12cnat;
    let e23 = 2 * e22;
    lemma_power_mod_square(3nat, e22, n, x22, 0x1484062c104caf2f2c8f00b6367ed5f1451ea297e06e57444ffd51fc631880d3nat, x23);
    let x24 = 0x91303a4cc5c86a0d61bd9603edea707e45646aad9fd2024d97cf626696684547nat;
    let e24 = 2 * e23 + 1;
    lemma_power_mod_square_times(3nat, e23, n, x23, 0x317dbf984dcb7b3b29682b8e68b1d894e2ef3fdbfa15ad51911beea6aea5e7nat, x24);
    let x25 = 0xb083737390d80bbdb69273767476e9db2e3d243ff3272444fe90f5d622950b40nat;
    let e25 = 2 * e24;
    lemma_power_mod_square(3nat, e24, n, x24, 0x5257ab20e21e13efc59883631ecd3c3d3d3e0ddfa3306086e4130624bea4975fnat, x25);
    let x26 = 0xefd4ebd333d3ae1b5597641e0fb857bd44d0fae1490575a3a949708959a2f720nat;
    let e26 = 2 * e25;
    lemma_power_mod_square(3nat, e25, n, x25, 0x79b5023e4380558e6dccfaa7e4c18f9ff61ff5813ba335010db5f74f90715d20nat, x26);
    let x27 = 0xfbcfa7aa4bbc25c891df1a71f3118ab7aad87629ddb65b494e53475989b6830enat;
    let e27 = 2 * e26 + 1;
    lemma_power_mod_square_times(3nat, e26, n, x26, 0x2a20dc4435d718f3d8682f2d9083f24d5283096635f93cac6ea3b5ddad8e06faenat, x27);
    let x28 = 0x7f8c535c60d3de249d3f49e252879a3efbf7b30036224ce535a653c417e8d2dnat;
    let e28 = 2 * e27;
    lemma_power_mod_square(3nat, e27, n, x27, 0xf7b0db3883b90c748dfd09c6115dd7568d78a858e619fc1b232f015742348919nat, x28);
    let x29 = 0x5d5fa170bd71e3131b0cf0d7ac3be761dcb24bb8344740a7ed872a52870c3a35nat;
    let e29 = 2 * e28;
    lemma_power_mod_square(3nat, e28, n, x28, 0x3f8c87a0f04126426b03c6c2d3e0df3e59e0cd74a8739570b39085bf1f6a8cnat, x29);
    let x30 = 0xde7ebbb29b9b349b765abd40f3819db5b491a0070527e5f2651b804dfafa4878nat;
    let e30 = 2 * e29 + 1;
    lemma_power_mod_square_times(3nat, e29, n, x29, 0x662bdd0f63610c55ebe2addd9313bb19cd22140ecbbd2eefae87ad04551876fdnat, x30);
    let x31 = 0x4a400c4c4008eabf5775f5fa3bd9f6613a799a90da8eca5e83b5de448c39a715nat;
    let e31 = 2 * e30;
    lemma_power_mod_square(3nat, e30, n, x30, 0xc1600c471350c7f6eb93787519534cbb99b2418595ee8974c302002d16adcfc5nat, x31);
    let x32 = 0x3976cbc3645e69acaabf973693eed51cb985cfdcc408e15f50a6cfa5fe3ebd9anat;
    let e32 = 2 * e31;
    lemma_power_mod_square(3nat, e31, n, x31, 0x158917223bbc68e2e98db4add3c43edf22138e89c632cd9a116a20e24fb50511nat, x32);
}

proof fn lemma_power_field_prime_over_7_part_4()
    requires
        power_mod(3nat, 0x124924924924924924924924924924924nat, 0xfffffffffffffffffffffffffffffffffffffffffffffffffffffffefffffc2fnat) == 0x3976cbc3645e69acaabf973693eed51cb985cfdcc408e15f50a6cfa5fe3ebd9anat,
    ensures
        power_mod(3nat, 0x12492492492492492492492492492492492492492nat, 0xfffffffffffffffffffffffffffffffffffffffffffffffffffffffefffffc2fnat) == 0xeb5806b597f44fe340aaedcc7431e13106b33dd1e11e344f7efad021eb5e23bdnat,
{
    let n = 0xfffffffffffffffffffffffffffffffffffffffffffffffffffffffefffffc2fnat;
    let e0 = 0x124924924924924924924924924924924nat;
    let x0 = 0x3976cbc3645e69acaabf973693eed51cb985cfdcc408e15f50a6cfa5fe3ebd9anat;
    let x1 = 0x860eea28901a829a1e0d79de495df92699b496b2075a70161417b579bf53ca28nat;
    let e1 = 2 * e0 + 1;
    lemma_power_mod_square_times(3nat, e0, n, x0, 0x26b25998770619384df8598b0d1b769665df201bb606a65d4fbcdb18c92f7f7cnat, x1);
    let x2 = 0xfbc1513f4246cf89072c9d47ae114de5dc3a769909a06104ad8c75d5a3c83ea2nat;
    let e2 = 2 * e1;
    lemma_power_mod_square(3nat, e1, n, x1, 0x46339e00e979b17d7079c9d43bdd01d7112e752c79bebd60bedb08d4d05ff4c2nat, x2);
    let x3 = 0xd1f51de08e081bdac06b7cb1dc9e4010aadec2cca5981acb54d8f2e827e7deb7nat;
    let e3 = 2 * e2;
    lemma_power_mod_square(3nat, e2, n, x2, 0xf794a74da721e14e2005c04447c8fab89f82597015ffb0904d49c959ebce98c3nat, x3);
    let x4 = 0xc9f7aa67c18b0490e5982f8c3339582e28dc876078ad122a0a548548f044d865nat;
    let e4 = 2 * e3 + 1;
    lemma_power_mod_square_times(3nat, e3, n, x3, 0x20496707091a13a75969356b9d190f9ef82a5f2c5261cca0844a723ae0f5afb52nat, x4);
    let x5 = 0x9ab5f8013bfef0a0bc17c9e26f8e2b825b55e1885afadb20c2a6d0d3c3c9e865nat;
    let e5 = 2 * e4;
    lemma_power_mod_square(3nat, e4, n, x4, 0x9f56d9313391be884a650c3d3835001ee896ffa498e170a7c90cc921017f66ccnat, x5);
    let x6 = 0x23465ca632f1507953f747f66084688e08ab0f0b603b9f16b8e054d5c4a5505bnat;
    let e6 = 2 * e5;
    lemma_power_mod_square(3nat, e5, n, x5, 0x5d7f6fba1e2ff4411ddb6703ef951325eeda27e0fdba43314b4d8d4f70b59ae2nat, x6);
    let x7 = 0x30a05158c4dac516fd6b46cb3db97e4512ff089052fd26876c9927e106ddbf33nat;
    let e7 = 2 * e6 + 1;
    lemma_power_mod_square_times(3nat, e6, n, x6, 0xe94f204bb0d297634bac48a143c6ab35c4eccf2b2462ed90df58e26ec12ada8nat, x7);
    let x8 = 0xc117ed5c4337cc2fd982d249cb100cad07ead97d3c1938eb17e5276cbd3b1e16nat;
    let e8 = 2 * e7;
    lemma_power_mod_square(3nat, e7, n, x7, 0x93c82e712a166b95a44c59048b04334fbd13f982ab4c8f407b9dd89665de75dnat, x8);
    let x9 = 0xe600d4ed0619f843dcc4767900ebd7e31d3245fc4889dd0d272920d89973edb2nat;
    let e9 = 2 * e8;
    lemma_power_mod_square(3nat, e8, n, x8, 0x91a51621a0022b9c8861f2c0081ab2e7ea068ac5f32460c2ca183e3fe05b206enat, x9);
    let x10 = 0x5a45fd4a3e6741483cdc46918ddecbdda5689a60d775e33feda2ba75e347f501nat;
    let e10 = 2 * e9 + 1;
    lemma_power_mod_square_times(3nat, e9, n, x9, 0x26bf07bcfc83046fbc054f75996044d6f876c84fd757c5bbc0ac15cd2e38750a5nat, x10);
    let x11 = 0x7bc77356795bfa4f945d5deb1fac43a189a1b0ea89dc9e906eabc85a1de465cfnat;
    let e11 = 2 * e10;
    lemma_power_mod_square(3nat, e10, n, x10, 0x1fd5493ab882127035ac63af8b4d0ebb91985a93a2c2e5a679636a79216a586enat, x11);
    let x12 = 0x1f47f6e69e0ffbc581fae84cfccf5bfe697407507bb1541be9262ccc4461ae50nat;
    let e12 = 2 * e11;
    lemma_power_mod_square(3nat, e11, n, x11, 0x3bd944399d05ddc6068221d6a8aa62e8b80a8f982ff6b9d49fceedba36ba58bfnat, x12);
    let x13 = 0x9303841e49ac04db37abb47635c581766f56b1b471812248750f2d18785e6775nat;
    let e13 = 2 * e12 + 1;
    lemma_power_mod_square_times(3nat, e12, n, x12, 0xb77861434faba1bd1a9c1bf9f4f00c1027b40320bd36d5e7fe0099e6a326b65nat, x13);
    let x14 = 0x9899c94d4b81761250770ac0c2634ec7440f439d54ac31ccae0f099361af53fbnat;
    let e14 = 2 * e13;
    lemma_power_mod_square(3nat, e13, n, x13, 0x546d09c72580872a9d99426ba7489992e7793a8ff3021961e4540b1b3cef7ae2nat, x14);
    let x15 = 0xad508fb522729add4e6261dc881009068f62997bad0e8f85bb54cdcf898232fenat;
    let e15 = 2 * e14;
    lemma_power_mod_square(3nat, e14, n, x14, 0x5af6fb6e065874dcaf00711607cd2d389c8fb3e912682639964d454a6a7ceed5nat, x15);
    let x16 = 0x60986e0c078f37bae3221e5f2146dbb6898b11b297c8506b953096be534f5beanat;
    let e16 = 2 * e15 + 1;
    lemma_power_mod_square_times(3nat, e15, n, x15, 0x16001f2bed750dcc0fde47e1f295941ee106c67585531a9c3197fb3d31481af7enat, x16);
    let x17 = 0x672c44fc68c01ce5bd011a2e5ec57112753be5e20f7261a94f0ee059ada5d70bnat;
    let e17 = 2 * e16;
    lemma_power_mod_square(3nat, e16, n, x16, 0x2472ad4be342baee21d2492d8e90b64075a0afda66df85ac1fdef0460cdcaf77nat, x17);
    let x18 = 0x591a9bb3ecae684716194c434c254fc20210db53ea8c4257ffdccf3fb5c1c568nat;
    let e18 = 2 * e17;
    lemma_power_mod_square(3nat, e17, n, x17, 0x2994a72ae5a5a9cf417f73cd05b718f011431a9496129a9cc43b87605e0cd2bfnat, x18);
    let x19 = 0x5523de35c68ce48b3702d291bf77fb80a6d30e1fc41bb667581c2c2d7e4cf81enat;
    let e19 = 2 * e18 + 1;
    lemma_power_mod_square_times(3nat, e18, n, x18, 0x5d0a89154d7224fbee640a406a9636250026c0f147d9b774ba5b9f8bb53580fenat, x19);
    let x20 = 0xec833bb056b4a88e4200dad441051309b85d3867ad570ea8a1c35afb077a0568nat;
    let e20 = 2 * e19;
    lemma_power_mod_square(3nat, e19, n, x19, 0x1c50d696396f29f31d4f3eba26c4cec127648bce679a2c95f87c5f404de270a4nat, x20);
    let x21 = 0xf07451014243318ff39e2d14ea01a7587bec3b18df5a72626946d6d4f9e2aa2anat;
    let e21 = 2 * e20;
    lemma_power_mod_square(3nat, e20, n, x20, 0xda8239534440951966c0571b7e870a05e4f7d9519e9dd4dda76841dc02a7ddcanat, x21);
    let x22 = 0x5c2933818ac4e594548c6ba9ce02b63ecee427709b4936d14a30f018ad721e60nat;
    let e22 = 2 * e21 + 1;
    lemma_power_mod_square_times(3nat, e21, n, x21, 0x2a58ee6339d0b8148cad6ab11d21ec54a5599c241f2162a4efb9a9f6730b64774nat, x22);
    let x23 = 0x811baff29fc8ab0a16f482b1a4ab68ff8541e8d0c106762e1c6070844e20498enat;
    let e23 = 2 * e22;
    lemma_power_mod_square(3nat, e22, n, x22, 0x212da3a6a598d6ebbf695a7df50ba95f3d300e602df156435060da9682e1162enat, x23);
    let x24 = 0xc370c50855fcdb84bd3e44eee9c427a05370b42dde3617e4a7bda061cdf5d228nat;
    let e24 = 2 * e23;
    lemma_power_mod_square(3nat, e23, n, x23, 0x411cea511b238d1b14394f8284f1866cabb313f0cb94b685ffd27a6c31789e24nat, x24);
    let x25 = 0x9705a56e047fb0f4d17a2f5b95a5450342771ca67d2899006a634eca827e7551nat;
    let e25 = 2 * e24 + 1;
    lemma_power_mod_square_times(3nat, e24, n, x24, 0x1bf9ef98715d0d8dad8f50fbf07310f1618e1d5eecccceeb83cb7423433c302c1nat, x25);
    let x26 = 0xca794a335cb918361afc7070f269ab45d3e16655e643ba1c75948430f4e19e3dnat;
    let e26 = 2 * e25;
    lemma_power_mod_square(3nat, e25, n, x25, 0x5917a947aa81d0d2309a38481deec4580683330dfb16f717fb2236e9f5c7c3dcnat, x26);
    let x27 = 0x4b0bd7f489c7f81bce5048fbe0a51d7b8ced0fce2f2e914b2888de4d4bcf64fcnat;
    let e27 = 2 * e26;
    lemma_power_mod_square(3nat, e26, n, x26, 0xa023a29048637d175b1060781ecca57e3367c9955874505be35abbdc58b0cf03nat, x27);
    let x28 = 0xb7588501b3a590b2a85ee608458d727ffe396e219d6086b50b3b8d36e9021890nat;
    let e28 = 2 * e27 + 1;
    lemma_power_mod_square_times(3nat, e27, n, x27, 0x41ffd340a9c302bd4e1a38e6484077e0d2524d6a4b59028032ab88465a478260nat, x28);
    let x29 = 0x1e3559136885ea154d55642d24073b22ae0960fb064e55dcfb61c1b47a901af6nat;
    let e29 = 2 * e28;
    lemma_power_mod_square(3nat, e28, n, x28, 0x834facc4251cfb5fd54125e3946da964a6f41f647712d22cbf919feebe389616nat, x29);
    let x30 = 0x8509ce7b0f0f1a39290600d6e398df2511a990b2dba1fb999d4e4bd94a6bfef3nat;
    let e30 = 2 * e29;
    lemma_power_mod_square(3nat, e29, n, x29, 0x3908bfe8d872a75b642ac0348798ddfa405e658edd30914a4118ae6c5f4b05fnat, x30);
    let x31 = 0xb33fcea0d7761baba952168564361444b58a2d64ca27a8d91576d9c37991a8fnat;
    let e31 = 2 * e30 + 1;
    lemma_power_mod_square_times(3nat, e30, n, x30, 0xcf6992c41a8517190cbd429f9eb9fbe034c32626f6317c50bd3eb9597e686a54nat, x31);
    let x32 = 0xeb5806b597f44fe340aaedcc7431e13106b33dd1e11e344f7efad021eb5e23bdnat;
    let e32 = 2 * e31;
    lemma_power_mod_square(3nat, e31, n, x31, 0x7d824adc474076a3cac895f13e4b694e219b6cd6869fbad24b6dfab2a0cd1cnat, x32);
}

proof fn lemma_power_field_prime_over_7_part_5()
    requires
        power_mod(3nat, 0x12492492492492492492492492492492492492492nat, 0xfffffffffffffffffffffffffffffffffffffffffffffffffffffffefffffc2fnat) == 0xeb5806b597f44fe340aaedcc7431e13106b33dd1e11e344f7efad021eb5e23bdnat,
    ensures
        power_mod(3nat, 0x1249249249249249249249249249249249249249249249249nat, 0xfffffffffffffffffffffffffffffffffffffffffffffffffffffffefffffc2fnat) == 0x94a1112905750060b70c68046e76d4dee4069ef8dee32060060076b5b6aeb338nat,
{
    let n = 0xfffffffffffffffffffffffffffffffffffffffffffffffffffffffefffffc2fnat;
    let e0 = 0x12492492492492492492492492492492492492492nat;
    let x0 = 0xeb5806b597f44fe340aaedcc7431e13106b33dd1e11e344f7efad021eb5e23bdnat;
    let x1 = 0xb272edc2e59ae4a4924d6bd55fbdb79c21ecc7bfb7190586e2000918c6b3ebc0nat;
    let e1 = 2 * e0;
    lemma_power_mod_square(3nat, e0, n, x0, 0xd85aba9602000691d26003e0c728444b3624926e9348c718f246d6a8e7c47f87nat, x1);
    let x2 = 0x43f0f02b0c75df4a68db0f950d26ec1567b151e79d3dae0737b9399ff427380bnat;
    let e2 = 2 * e1 + 1;
    lemma_power_mod_square_times(3nat, e1, n, x1, 0x1752c12b2f117003e422f16007e65144a91e04b91cd38491d66c477f97c4bd11bnat, x2);
    let x3 = 0x5932c0fa4d0bc4d3fec49508bc18d023336428394fc3a859ba9c9970aee54879nat;
    let e3 = 2 * e2;
    lemma_power_mod_square(3nat, e2, n, x2, 0x12080079ba8dce7dd1470fb409c4d749e85bc1de197704e631e797cce354f800nat, x3);
    let x4 = 0x180eab12adfed277e024d4a01486c66eaa02a8edb36e7ab5e96f1ab4259fd474nat;
    let e4 = 2 * e3;
    lemma_power_mod_square(3nat, e3, n, x3, 0x1f14543dfcd0afc0835eb590ca825dd569dbdb632cbfd4dd2effaf0bd36f86d3nat, x4);
    let x5 = 0xe7ad94b807984e978876f2323989674bffb0f8ff50c84b3edb8beeb19531c186nat;
    let e5 = 2 * e4 + 1;
    lemma_power_mod_square_times(3nat, e4, n, x4, 0x6c842bffaf64f6e8f36b0eb03582ea2c247868c026766aadb1a8ddc4d16c9f6nat, x5);
    let x6 = 0x41ba264a14e6c083f900ce08d6d166c0f437d9f8fd56596325d6f280e06d1316nat;
    let e6 = 2 * e5;
    lemma_power_mod_square(3nat, e5, n, x5, 0xd1aab81674d46ec2b71ef86164473633748e152b71014d3841d6930c4cd60852nat, x6);
    let x7 = 0x5b94b0b7b0ecfd309928bd4023aa35561f99abfe4efd1b3534393e22c1c6aea3nat;
    let e7 = 2 * e6;
    lemma_power_mod_square(3nat, e6, n, x6, 0x10e00ecd47fda0b75c7b9617306202873f7d564d887ba4291ea6e4338a9c978fnat, x7);
    let x8 = 0x2078f5d4437215169aed955a6fd93e73a925b0e751afb379d2bdfb4576167e64nat;
    let e8 = 2 * e7 + 1;
    lemma_power_mod_square_times(3nat, e7, n, x7, 0x624923fe327e6f4cc2eeb9c013c3823e16ff2ad32b6501543383f8a66a3479b9nat, x8);
    let x9 = 0xd88a0e996f161ffd54ce600ae94ab500ef78312a2810333f0619b5cf7f165116nat;
    let e9 = 2 * e8;
    lemma_power_mod_square(3nat, e8, n, x8, 0x41e769c73ebb9518f01bfee9914b256dc415b21ae993662b5adc503ffd3d926nat, x9);
    let x10 = 0x282148844fe7440ccd19c9f9ea439edbd3994aac617b98e2fc9bda0018f9713fnat;
    let e10 = 2 * e9;
    lemma_power_mod_square(3nat, e9, n, x9, 0xb7294316a9b63df26061d44f19b674886fa8e720881df44db5849f700b53fb6bnat, x10);
    let x11 = 0xf017f01aef78b80df7e88489d0610f7f255fb1b01219720ca62dce0f55baf125nat;
    let e11 = 2 * e10 + 1;
    lemma_power_mod_square_times(3nat, e10, n, x10, 0x12df40f75edeb0a8635097c5e6ddc41ec6995dd7672d0066fc4020abf0a61102nat, x11);
    let x12 = 0xe1f7f43a77e9336b3e816e9f40776d9d8b0ce63a5a87553737a67e4041e2ddd3nat;
    let e12 = 2 * e11;
    lemma_power_mod_square(3nat, e11, n, x11, 0xe12ce46f870be4a320f8b88bb18767ca70305aae21cea52684ee3a651ec2275anat, x12);
    let x13 = 0x4e8a05117a2fe772d3b3ba5ef9284b0feccdbcbfb9c145c91d2b7799b2422157nat;
    let e13 = 2 * e12;
    lemma_power_mod_square(3nat, e12, n, x12, 0xc775cb77f89ad252d4ac8032cbce0c79a0dc3d2db989b67fc5f41af7f82cf00enat, x13);
    let x14 = 0xd0e9badca7752a6424502a013ecfdbd90945fd64cf6a7a11509f479d0c4f92f4nat;
    let e14 = 2 * e13 + 1;
    lemma_power_mod_square_times(3nat, e13, n, x13, 0x484930805833d5f47d940b4491b3502780c2ea83ae22b3edd64cb0399bc47171nat, x14);
    let x15 = 0x184b105129f634605261bc0e314c8f8a2a5efed5f2032a2a405330968d6d6c64nat;
    let e15 = 2 * e14;
    lemma_power_mod_square(3nat, e14, n, x14, 0xaa7ca50c3e2c99b065d0d1ffd116e83397845500bd697c631ceddba38fc2cf94nat, x15);
    let x16 = 0xd839f7c8852052261b794b3fe2a98928fa8a36532d582db1ae841bd4e0e8f492nat;
    let e16 = 2 * e15;
    lemma_power_mod_square(3nat, e15, n, x15, 0x24e2911c876ff0f1b1c9156c122ecb2569193bf76074d9a00196b6df1a6dfe2nat, x16);
    let x17 = 0xbd7a64d29ceec426d65197d1bcfc0209aef1d62fc34613e3a5070ab22122b032nat;
    let e17 = 2 * e16 + 1;
    lemma_power_mod_square_times(3nat, e16, n, x16, 0x223e59dc7f75322ec9cc03afb9e51a7d7d1c9456394505e5f5233b8f3a0e51786nat, x17);
    let x18 = 0x8379379d65c22e9cc5004225da09d4ca39f5427736e62500fb5656e5fcf66922nat;
    let e18 = 2 * e17;
    lemma_power_mod_square(3nat, e17, n, x17, 0x8c3df3633c2b5914aea4c4d8652299c2590403dc49d3c833cfbc450a48cbf6fenat, x18);
    let x19 = 0xbd6e41905db5288331bce8926916428cd7629f631b0c8f7b1f59124d85e55a62nat;
    let e19 = 2 * e18;
    lemma_power_mod_square(3nat, e18, n, x18, 0x43854850b503efc3ea77d2f365351292af1387eafb9e3c38da9c6a35681ec17enat, x19);
    let x20 = 0x582b1c0b0df306f518a4d8921688bd58a87f95ff1094efb1596a1b977bb45b56nat;
    let e20 = 2 * e19 + 1;
    lemma_power_mod_square_times(3nat, e19, n, x19, 0x1a483f4e2b9a9f3803e9700b2b50a0d10b4e68e97505904e9c84341f81c2c8aaanat, x20);
    let x21 = 0x2d0f9197be026ab8bac8cf41df10d70533b03d9a42da2c1ab4f79676f2a8a522nat;
    let e21 = 2 * e20;
    lemma_power_mod_square(3nat, e20, n, x20, 0x1e5daa8a08602ff434726824781a145a4c795ab7bb816d814c173a22ab4c05denat, x21);
    let x22 = 0xbc6e7f8d2282ecf0ecc42354ced65a7f9263ac2ba8a0112b0b3eee04bc367d38nat;
    let e22 = 2 * e21;
    lemma_power_mod_square(3nat, e21, n, x21, 0x7ee7a21bb625cfde4173c595273acbb98f2f289f9365fb68ffa893edd7dca74nat, x22);
    let x23 = 0xd667c9d267e7ee3959fe4cd421feb76ac6181480163cd04fa736d503b4c06c2nat;
    let e23 = 2 * e22 + 1;
    lemma_power_mod_square_times(3nat, e22, n, x22, 0x1a017711b7695dfb74047e7f78401e8e77e86e380a75dcbee1e500d39aed89c62nat, x23);
    let x24 = 0x229c2c1297aee2d1382b1576fcbc20e21ad92240e2947ff43d6cc48f2e06ddb8nat;
    let e24 = 2 * e23;
    lemma_power_mod_square(3nat, e23, n, x23, 0xb391af7fcc2373026b60ec4f64fe19f740f204e12e28a10d99581a81e5f874nat, x24);
    let x25 = 0xbe00318705ed6cbdb50d234addbcd0c4ea01013cf6e49d51049a00840112494fnat;
    let e25 = 2 * e24;
    lemma_power_mod_square(3nat, e24, n, x24, 0x4addafaae89b6e1ce577dfc673729acb8ec4071f0303680d967bacf950622dfnat, x25);
    let x26 = 0x99af87e764f59aa6bc31685a5ccce314d8ffeddef21bf37f9024f45ee019975anat;
    let e26 = 2 * e25 + 1;
    lemma_power_mod_square_times(3nat, e25, n, x25, 0x1a70cdc8d63242eb136c3d6ab21138859e2bd9139562a5c0c5144697018545187nat, x26);
    let x27 = 0x5698126fe79f985063e5609dc5be9a55802391c378a03dd9cf179639ed1aa1c0nat;
    let e27 = 2 * e26;
    lemma_power_mod_square(3nat, e26, n, x26, 0x5c4348cdad2f784721121a200f493f9d5492bdf0debdb60a02d6aa87090b475cnat, x27);
    let x28 = 0x7fce1a836e3fc784b7a28c817c9902347aacfb77324237f3c05ea3435a2bed0bnat;
    let e28 = 2 * e27;
    lemma_power_mod_square(3nat, e27, n, x27, 0x1d4a86b915d6355801f7896f417a75d2b88a7d4e840a0f126ba15fd2c5fc961bnat, x28);
    let x29 = 0x77920ea229b99281386f59b65fae8ef8d511accd396ae628a9f04b8db319b626nat;
    let e29 = 2 * e28 + 1;
    lemma_power_mod_square_times(3nat, e28, n, x28, 0xbf6a6cb740f7056d4338867842a457f3bf78672e664228d739a7fb031bc854cbnat, x29);
    let x30 = 0xcd078b5aa1f2d5dc4feabbdb75392b52bd9d19beaeb0db8dabd5149fbe528596nat;
    let e30 = 2 * e29;
    lemma_power_mod_square(3nat, e29, n, x29, 0x37d91cef749841285f8c6993f265ca939db32bc0151335017b2244f332720f52nat, x30);
    let x31 = 0x30bd5519e79ab6c7618304199643fdfdbc170f838c91d2d599a8f53ef8203b46nat;
    let e31 = 2 * e30;
    lemma_power_mod_square(3nat, e30, n, x30, 0xa4351568122f51be837944bcfc7f12c8a8ce9becb94e24db2fe311e44b95b3c2nat, x31);
    let x32 = 0x94a1112905750060b70c68046e76d4dee4069ef8dee32060060076b5b6aeb338nat;
    let e32 = 2 * e31 + 1;
    lemma_power_mod_square_times(3nat, e31, n, x31, 0x1bd6a3d1722ca03956475e23cc6716287b49d24ffc5cf7321505f412edfa800cnat, x32);
}

proof fn lemma_power_field_prime_over_7_part_6()
    requires
        power_mod(3nat, 0x1249249249249249249249249249249249249249249249249nat, 0xfffffffffffffffffffffffffffffffffffffffffffffffffffffffefffffc2fnat) == 0x94a1112905750060b70c68046e76d4dee4069ef8dee32060060076b5b6aeb338nat,
    ensures
        power_mod(3nat, 0x124924924924924924924924924924924924924924924924924924923nat, 0xfffffffffffffffffffffffffffffffffffffffffffffffffffffffefffffc2fnat) == 0x3438b0147dadd7cef60d707bb03bb9f441bfb43f478b1ad9463d728ee6be0e03nat,
{
    let n = 0xfffffffffffffffffffffffffffffffffffffffffffffffffffffffefffffc2fnat;
    let e0 = 0x1249249249249249249249249249249249249249249249249nat;
    let x0 = 0x94a1112905750060b70c68046e76d4dee4069ef8dee32060060076b5b6aeb338nat;
    let x1 = 0xd5800d6aa542b3b23b2dd57c2f2143c88e193e8d2bb432842ff4c48ee44f5a20nat;
    let e1 = 2 * e0;
    lemma_power_mod_square(3nat, e0, n, x0, 0x564aa12e050e9ee696f154a75ca431a1aee69f64045b212c2b29f927f226f7e0nat, x1);
    let x2 = 0xd9e2a51f28f17c617463bf73119f446d92082281df7b977e62d2bca6a0c6aa41nat;
    let e2 = 2 * e1;
    lemma_power_mod_square(3nat, e1, n, x1, 0xb20e5660e25a42f054e169b6b292375c88327d973c3406796fc1f953bce3c771nat, x2);
    let x3 = 0xf771f836b84f53bad35e435a7ca572bcaa737691afee957147ae77e14cabe22nat;
    let e3 = 2 * e2 + 1;
    lemma_power_mod_square_times(3nat, e2, n, x2, 0x22c560dc45acc996d2c421ef340da0dd9d3d47e9cc716c1320415acdc27ce996fnat, x3);
    let x4 = 0xb4057df5b20ec0fe7ea318dd8aaaf6e7079cd75da621cb84182fe1c43d955748nat;
    let e4 = 2 * e3;
    lemma_power_mod_square(3nat, e3, n, x3, 0xef2d1fb6a8a1da666731ec793935ab8b17c50fac8c78ff95e89e6c169e7384nat, x4);
    let x5 = 0x1edf77408114ea77b3045ee4312078e3f10aaf4530ec0c055c7069abab95b806nat;
    let e5 = 2 * e4;
    lemma_power_mod_square(3nat, e4, n, x4, 0x7e97b93fabf78faa2094c15bc38d2ab7e4bc94ae7e4e49ff747049f7908b66e6nat, x5);
    let x6 = 0xeba30049af955b4a92ae117b03040b5f9ffc6865a6e8266464827a5c9f025b06nat;
    let e6 = 2 * e5 + 1;
    lemma_power_mod_square_times(3nat, e5, n, x5, 0xb2b690c488c74f45810866d7202a2ac805f1a31a91c15b25ac4089584af597anat, x6);
    let x7 = 0x562ac3400b57fd3dc7aa385edea639549c03907528a37345f6c5982e84ad91e1nat;
    let e7 = 2 * e6;
    lemma_power_mod_square(3nat, e6, n, x6, 0xd8e4aa50a631e302c5ddf83d1b5c10b72c393b717c2675a3cd57d9e13d30022dnat, x7);
    let x8 = 0xdd7e16745a779f6366d87a676fb7330c7f319dbd1ecf176b079b831a934edd40nat;
    let e8 = 2 * e7;
    lemma_power_mod_square(3nat, e7, n, x7, 0x1d00c253ad8d785252b74ccccd5ef5c9e4eb3a3adb9c8b907a2a9e3dca4c884fnat, x8);
    let x9 = 0x5ab51cfbfa9ed19bbef6780712108aa18ae6ca623207db00d197ddef05d04365nat;
    let e9 = 2 * e8 + 1;
    lemma_power_mod_square_times(3nat, e8, n, x8, 0x23ee8d29d021b62239392947adbaa4d4416a901df1712395461cd001c6a121f55nat, x9);
    let x10 = 0xd0d7126e05c38b9557dd2f09a7b5fc1b708a494b2dde5e672fa3e19b53e6a8bcnat;
    let e10 = 2 * e9;
    lemma_power_mod_square(3nat, e9, n, x9, 0x2023d8832bd026ce0f250204ad1cdde7ddc2268300a25fe0737c2fde982f2c73nat, x10);
    let x11 = 0x8053d39a0e365b04e3b81d3a9b1808289a76254586f501b8072d444d8ccfe560nat;
    let e11 = 2 * e10;
    lemma_power_mod_square(3nat, e10, n, x10, 0xaa5e32a2bf7f195f976f2f79167f389164c830503d13df2aad1a8727541d4a50nat, x11);
    let x12 = 0x1a7db53c4468ecf2aa238fc061c216f7afb3c88186765ff21af085079707da89nat;
    let e12 = 2 * e11 + 1;
    lemma_power_mod_square_times(3nat, e11, n, x11, 0xc0fbcd26d908a733d7580020485d2c50f1cf2a2e327f39d6182cba14cfe14539nat, x12);
    let x13 = 0x922d5becf6ed3827f415bf0e96c93dde14bb58b40e4c8886b01f5ca0bc32107nat;
    let e13 = 2 * e12;
    lemma_power_mod_square(3nat, e12, n, x12, 0x2bdc68abb0e6585320f7f25ca89c199b29f6293c0a5dc218887294505b2e3d6nat, x13);
    let x14 = 0x54a51b770f7499f1fe0f97e9d056217d72168844fa4cba39ed04f4968ac5610enat;
    let e14 = 2 * e13;
    lemma_power_mod_square(3nat, e13, n, x13, 0x5377c4e3bbf7b65829ed52811c706be3ba7cf13809ef75a79643a92eccdd4dnat, x14);
    let x15 = 0x4c83f78352abfb96afb7249cb2dfec5750ba2ecc426cc0b769cbfccc665d839anat;
    let e15 = 2 * e14 + 1;
    lemma_power_mod_square_times(3nat, e14, n, x14, 0x53f64d87a5b251e5a9705088f4f290142f5066676942ce98e8be43a8cbbe51eenat, x15);
    let x16 = 0x25369dc5731085a3ff51edf43630561e03ad2393215e6fe75597813b04a9185dnat;
    let e16 = 2 * e15;
    lemma_power_mod_square(3nat, e15, n, x15, 0x16de9efd38cb664a8abf772e5bcac66db57c097f0f623bc5c8a910ea15125f69nat, x16);
    let x17 = 0xbceda25d77e8395e80d69b1e3d927dc5fe475e9c16a00c1474dee30d44c58dbdnat;
    let e17 = 2 * e16;
    lemma_power_mod_square(3nat, e16, n, x16, 0x568d54203cb1906580e140cbe4deffd1b2e3f017b9620a79e227c95e2f6bdb4nat, x17);
    let x18 = 0x8305c81e471aca1ef9ba2f3662092ef296bd7b98a1d794e16698572d66686b79nat;
    let e18 = 2 * e17 + 1;
    lemma_power_mod_square_times(3nat, e17, n, x17, 0x1a249a92df076925dd11e48b435c92fee8fc6419fd26a3eae05023ef5bdecb27enat, x18);
    let x19 = 0x1d8bc23b44be70e37706f063117339ce94d4737a2c2e9ede8f8912882e413319nat;
    let e19 = 2 * e18;
    lemma_power_mod_square(3nat, e18, n, x18, 0x430eeaf06a63849632a1f1f7ce422a307e6f78e66eb34f746998db9960c19768nat, x19);
    let x20 = 0xf6db4128c2b27eae334789d87315bd118142ee8a9ac6d577dbbcc0717345086fnat;
    let e20 = 2 * e19;
    lemma_power_mod_square(3nat, e19, n, x19, 0x368f64ded4dae4b855156e379ba329a1717100b40dbd7636fdc8fccfb68a59enat, x20);
    let x21 = 0xfac2ee67843a6d959a8c6779bf06dde5452166f83ded8f52704391dfd59d963cnat;
    let e21 = 2 * e20 + 1;
    lemma_power_mod_square_times(3nat, e20, n, x20, 0x2ca1e5708a785a6a6ca58dec1db900e3023725be48c259ac7851ed946f3f33b89nat, x21);
    let x22 = 0x10d7677bcbb26e1b53dc23d90e038075cb15199ebae7f16fef738300725c8286nat;
    let e22 = 2 * e21;
    lemma_power_mod_square(3nat, e21, n, x21, 0xf5a14e10612b2a4e97ab1efe29142251dba3dc99a879fa0d8e4e55a0541b6896nat, x22);
    let x23 = 0xd4b30444fbbba8399ee371cbe8d5c701455ff2190163eca763f9de2ffd588015nat;
    let e23 = 2 * e22;
    lemma_power_mod_square(3nat, e22, n, x22, 0x11ba22e753b4d3f5086a2f9b71453c2d8c19a3acd0ee93b00b56667569e6421nat, x23);
    let x24 = 0x6813d93eb35264291453b6dd2991d9ee6e516eea08ec42fdb85573ac780a674enat;
    let e24 = 2 * e23 + 1;
    lemma_power_mod_square_times(3nat, e23, n, x23, 0x2122af4c3ac6b3483c0acc6abb468ed4c9e98b074171f36ddb2cabbdaadfe07b3nat, x24);
    let x25 = 0x607e8c7039503c6d2d3139d3ddf730d8307224074dcd6904cd5538084d37c82enat;
    let e25 = 2 * e24;
    lemma_power_mod_square(3nat, e24, n, x24, 0x2a50220ce95ceaf945ef83f25f186624d23d742f0dfd5c9efedf729a81b0324anat, x25);
    let x26 = 0x823613363799471fc761505bb646f8e07c5e5500f16d6e36addef674e387daa3nat;
    let e26 = 2 * e25;
    lemma_power_mod_square(3nat, e25, n, x25, 0x245f27e2b67f882f527e84d7a5f9be61e3203209891c1aa0ae1991dc51620f2fnat, x26);
    let x27 = 0x8ee3c15d2e847f065261fb163008c8e5f723a804372f94bed511e6744dcf4235nat;
    let e27 = 2 * e26 + 1;
    lemma_power_mod_square_times(3nat, e26, n, x26, 0xc6b0e4cd8658a9e79b98ac040ea5d18743d134edf962b360eceac633e65aa1banat, x27);
    let x28 = 0x54db1e07e6d5aa46a599375f3d71f1664f16c69b8839b1aaf869e1ca16d229c5nat;
    let e28 = 2 * e27;
    lemma_power_mod_square(3nat, e27, n, x27, 0x4fc17523dce91df2e4da81590192422ba1abf1a93580e4482946813f6edb0d0cnat, x28);
    let x29 = 0x9e93d333a40fa4cee647b4a1c994c05dbb339255cffbcacf457bd6418bd69b30nat;
    let e29 = 2 * e28;
    lemma_power_mod_square(3nat, e28, n, x28, 0x1c208741948703a835485f73f10208ddf91a1194039b10b6ab72590d8f5cf8e7nat, x29);
    let x30 = 0xe104593637b5c75a43905c1b45fc9bea90fb47a65fc589dad30059b551b3dcfanat;
    let e30 = 2 * e29;
    lemma_power_mod_square(3nat, e29, n, x29, 0x623ace0ffa0fe4433ae9bf78ec5a6323e44eef01a12a22aca030c6f75de734danat, x30);
    let x31 = 0x6667a2eed1739c425bcfbee550849c1fe3b1e0b3bf5fad2b5c3714065ed9f666nat;
    let e31 = 2 * e30 + 1;
    lemma_power_mod_square_times(3nat, e30, n, x30, 0x25159eeaca4220cf8850708a1f631382302fdfc196982022d21076118e4deaadanat, x31);
    let x32 = 0x3438b0147dadd7cef60d707bb03bb9f441bfb43f478b1ad9463d728ee6be0e03nat;
    let e32 = 2 * e31 + 1;
    lemma_power_mod_square_times(3nat, e31, n, x31, 0x7ae43f60785762472bf7caae4c6ed48b8e674135f562c954a0419ae230cc8367nat, x32);
}

proof fn lemma_power_field_prime_over_7_part_7()
    requires
        power_mod(3nat, 0x124924924924924924924924924924924924924924924924924924923nat, 0xfffffffffffffffffffffffffffffffffffffffffffffffffffffffefffffc2fnat) == 0x3438b0147dadd7cef60d707bb03bb9f441bfb43f478b1ad9463d728ee6be0e03nat,
    ensures
        power_mod(3nat, 0x249249249249249249249249249249249249249249249249249249246db6dae2nat, 0xfffffffffffffffffffffffffffffffffffffffffffffffffffffffefffffc2fnat) == 0xa2ab335e7a5b9784e9425431411a8f02a1e39029745c0d2567e7b217154fe2cbnat,
{
    let n = 0xfffffffffffffffffffffffffffffffffffffffffffffffffffffffefffffc2fnat;
    let e0 = 0x124924924924924924924924924924924924924924924924924924923nat;
    let x0 = 0x3438b0147dadd7cef60d707bb03bb9f441bfb43f478b1ad9463d728ee6be0e03nat;
    let x1 = 0x2f6ef8e2f1252599b52c7a5fe923fb2df6ef3f0302f33a4bfdd5ae948d03afe8nat;
    let e1 = 2 * e0;
    lemma_power_mod_square(3nat, e0, n, x0, 0xaa71415d521ca2d681aa109e267f9f08cecaff29207c019178341f0e12cc0afnat, x1);
    let x2 = 0xe75382f254e7e286f85f0da2e02010df4360803200b6b2c9cf7fbab2e6fac6denat;
    let e2 = 2 * e1 + 1;
    lemma_power_mod_square_times(3nat, e1, n, x1, 0x1a5dce7a7ca21464269f8f4536321a62e168ff64cd749dd580cf1a0249bdfbbenat, x2);
    let x3 = 0xa696bceb1e839ebb0cbb223f94019f89a2318f970e10f358a133989de7f29023nat;
    let e3 = 2 * e2 + 1;
    lemma_power_mod_square_times(3nat, e2, n, x2, 0x2731774ae8409a665d528d7203202caf5551c820d001d98b6b58092f5aa5a95e7nat, x3);
    let x4 = 0xf7c506e3a8719beb4236fe3c0572b69fc5d3e5abcaafb203bcbf60c9088d8c01nat;
    let e4 = 2 * e3;
    lemma_power_mod_square(3nat, e3, n, x3, 0x6c67d5c2da84a0daf220deb27d281ed81cfdd7d784a9db87ea05ed77cb5819b8nat, x4);
    let x5 = 0x5d6261e26a5bbd582d9044c433742cc507992ed812807df6c97c3c2f1b95fdf1nat;
    let e5 = 2 * e4 + 1;
    lemma_power_mod_square_times(3nat, e4, n, x4, 0x2cf6960ccbcd3d03a486aa1d6b7ae5ece9933d1ca55676ac58d49d691a787188enat, x5);
    let x6 = 0xa5fb53cb62439f3e9c2da8dd4104f19aaa315a046d5cec9f99629aa080e33aa5nat;
    let e6 = 2 * e5 + 1;
    lemma_power_mod_square_times(3nat, e5, n, x5, 0x6631e2c8c82857f98cced0f07ab54224310bd4e4056673ced849a5b074a9ae62nat, x6);
    let x7 = 0x6e7d8c0cb5e0a32dab2e72ef15c2f141f7e25e4f576863ea8314ef12e8d5339nat;
    let e7 = 2 * e6;
    lemma_power_mod_square(3nat, e6, n, x6, 0x6b9df0c198eb5f2dd0521b9050feb0b1fdeef1e91c7beb02ef37c550d4896ee0nat, x7);
    let x8 = 0xc7fc52454d2abe8b56670aad692e04ea3460118477fdd80a084679d0d9ef288bnat;
    let e8 = 2 * e7 + 1;
    lemma_power_mod_square_times(3nat, e7, n, x7, 0x8f1065c6f7fdb37d8f6144834eb87998a3c73a6035e268baa952c33cce0ef8nat, x8);
    let x9 = 0x9fa64ff8d98af9c89bfbdda6296b544eb2deff0f85adfbfd69b37d466c9289adnat;
    let e9 = 2 * e8 + 1;
    lemma_power_mod_square_times(3nat, e8, n, x8, 0x1d4aec1cd728a89c17f0f1110507ec8490ea93df409e8222e1dd4ac3c258c5da2nat, x9);
    let x10 = 0xb39fde25f03e5313f22a85ed0fe1714f7b2509f8cd73183b35cc46c3f20ace75nat;
    let e10 = 2 * e9;
    lemma_power_mod_square(3nat, e9, n, x9, 0x63900362edf04aad1e37d3d3de2c0f5e4d5c07f3ad5a76e83aea0abd440915ccnat, x10);
    let x11 = 0x81d05fab6ffa5b0da5b3a647b7ff3ecc874f71e0995a9c1214db9ea0a24f368anat;
    let e11 = 2 * e10 + 1;
    lemma_power_mod_square_times(3nat, e10, n, x10, 0x17a1add7c459837ad88f96c7a1fcf7e94d0675dc113bae4d8ee740337f80e82efnat, x11);
    let x12 = 0x78cbf8c2d804d43212ef9c26f39a29fdd2b3a7fdb4ca8c93aae56afce2772dd8nat;
    let e12 = 2 * e11 + 1;
    lemma_power_mod_square_times(3nat, e11, n, x11, 0xc57afe132392e386f093738ef45f341f0d07e7111f1d2db04f0d58e824e482ecnat, x12);
    let x13 = 0xe9d401498a3ff4c98b326a73e48c79cc26a1acc29fa812c2ed07e60bf29954anat;
    let e13 = 2 * e12;
    lemma_power_mod_square(3nat, e12, n, x12, 0x38ffdbbb2141356cf1e57126ed42e9075303dbf03f1f5ba0498114ef6fcfd2eanat, x13);
    let x14 = 0xe35e2e96faaddbc7e1677ab0a515bffafe239e0f31a75b346883bc4a2aeb9edbnat;
    let e14 = 2 * e13 + 1;
    lemma_power_mod_square_times(3nat, e13, n, x13, 0x280bacdbdfe65292ad0b5899836b09d8e563773e01b72831228c2c9f388ae7fnat, x14);
    let x15 = 0xb30aaaa69930c3c5bd7a9b611e1753efe29d5414129d1ba951895c32832468fanat;
    let e15 = 2 * e14 + 1;
    lemma_power_mod_square_times(3nat, e14, n, x14, 0x25dd07bd1ffc113b93e296271a2c83dec67d1d693004e7124444b772066eec2bfnat, x15);
    let x16 = 0xe52a1af38ecec53a763def45a51dedde19f98f70b965d23b6342ed3b9013e1enat;
    let e16 = 2 * e15;
    lemma_power_mod_square(3nat, e15, n, x15, 0x7d37eb16c0ffd9759d581a42e163ea38556bb27b69366717fdd9d4dfb16fcadanat, x16);
    let x17 = 0xb92b3f383f35adc2e8d11d7d9a135e7f38a0ae8b4d049b0b552e2ac038d9a4e9nat;
    let e17 = 2 * e16 + 1;
    lemma_power_mod_square_times(3nat, e16, n, x16, 0x2676d116dc8bd7c4930f9d39f16f270c334082e30d1a39e1a2bbcccf77cb4cdnat, x17);
    let x18 = 0x350068f3e64e153238c15f276a319c43a3f73c15a4d0023d8953fb4c4b7158e5nat;
    let e18 = 2 * e17 + 1;
    lemma_power_mod_square_times(3nat, e17, n, x17, 0x191ce9a08c798a5eca3c1988ab05c701abdd21390470e9d26131583b883690012nat, x18);
    let x19 = 0x33278452beb6a4c3048136950faed593182992ff60065b3f400d8de85c36f82anat;
    let e19 = 2 * e18;
    lemma_power_mod_square(3nat, e18, n, x18, 0xaf92b7528636845442582c258ba89caab9aa60b5c8a2fed0c36931fbf6e9f81nat, x19);
    let x20 = 0x2dcb63ebf06794717be8f07115f1bf963dac69b206359dac4a6d5e72493263c2nat;
    let e20 = 2 * e19 + 1;
    lemma_power_mod_square_times(3nat, e19, n, x19, 0x1eaa4e77a8c8f224f49f6ab6f83f5554f25a105290f720b04799f474f46c9136nat, x20);
    let x21 = 0x391f795ce1e0416158316744a19c502c2a0c4765aa4b256b18a5adb1629083c1nat;
    let e21 = 2 * e20;
    lemma_power_mod_square(3nat, e20, n, x20, 0x83122b891b403d8ae4716624e6a933167bdfe18e82a80576d35bfb7ec3fe92dnat, x21);
    let x22 = 0x5c46f1bf61c0037124f6d07030e5c9cf67a9591a6659195460b59e85e0dfffd0nat;
    let e22 = 2 * e21 + 1;
    lemma_power_mod_square_times(3nat, e21, n, x21, 0x263d17bdefd881f2e76703fbc562d25438052c082a8a546319871fc1941368bdnat, x22);
    let x23 = 0xe4dcf8f25a9e8f6e1a343b73c0ab5e58c11dbae327783c696e86f321460ae989nat;
    let e23 = 2 * e22 + 1;
    lemma_power_mod_square_times(3nat, e22, n, x22, 0x63c9343ff5a015cd364e8d8c2f0d7dba7ebb911d7665e3559b7794981ca0e539nat, x23);
    let x24 = 0xe6237e7d457b7b0778bfeb983805308352c7180e34d74933ce9aa17aad2be01nat;
    let e24 = 2 * e23 + 1;
    lemma_power_mod_square_times(3nat, e23, n, x23, 0x265cf0e858c25ef0fe8ff54fda85300ec9affc5d87507d4c26c0a7130b6cee4aenat, x24);
    let x25 = 0xa373e1c034f2e9f2a409d56a4f4334a3346aec079565059e5441aa81f669c4denat;
    let e25 = 2 * e24;
    lemma_power_mod_square(3nat, e24, n, x24, 0xcee3cc34ed9a6e878b912bda43043a0fbfc94d707d21c1e2dae5c730d4b34dnat, x25);
    let x26 = 0x4ccd0ae7f852de817d53f9d53e48fde1ec7eb62848e1f32cfc37b2af3987b70fnat;
    let e26 = 2 * e25;
    lemma_power_mod_square(3nat, e25, n, x25, 0x685cc5ef5d30558ba372ec742d8580134617db1d3603241fc633ffbb29ca079bnat, x26);
    let x27 = 0xd6ce1da62b22f2e7ba378c3d820935d1885e244326c79bc88b35faac4481570enat;
    let e27 = 2 * e26;
    lemma_power_mod_square(3nat, e26, n, x26, 0x170a62b4336bda6dcd9cea3da8be740f4263e4684a71aaac2929ccf0d331fd9dnat, x27);
    let x28 = 0xecdfd794f2d1792288f696063d863f0fdfa45fbfd74ff758b1e49a6a61b56978nat;
    let e28 = 2 * e27 + 1;
    lemma_power_mod_square_times(3nat, e27, n, x27, 0x21cb7be90a0f0c3f4b3ae84d5a8629d288aa1b7f58fcc41a8176b43c757a70f6cnat, x28);
    let x29 = 0xa2ab335e7a5b9784e9425431411a8f02a1e39029745c0d2567e7b217154fe2cbnat;
    let e29 = 2 * e28;
    lemma_power_mod_square(3nat, e28, n, x28, 0xdb2d7933eabcc6ce38ae089dbc12271c4a3f3612bb636123e2092ff4a2acfb9bnat, x29);
}

proof fn lemma_power_field_prime_over_7()
    ensures
        power_mod(3nat, 0x249249249249249249249249249249249249249249249249249249246db6dae2nat, 0xfffffffffffffffffffffffffffffffffffffffffffffffffffffffefffffc2fnat) == 0xa2ab335e7a5b9784e9425431411a8f02a1e39029745c0d2567e7b217154fe2cbnat,
{
    lemma_power_mod_first(3nat, 0xfffffffffffffffffffffffffffffffffffffffffffffffffffffffefffffc2fnat);
    lemma_power_field_prime_over_7_part_0();
    lemma_power_field_prime_over_7_part_1();
    lemma_power_field_prime_over_7_part_2();
    lemma_power_field_prime_over_7_part_3();
    lemma_power_field_prime_over_7_part_4();
    lemma_power_field_prime_over_7_part_5();
    lemma_power_field_prime_over_7_part_6();
    lemma_power_field_prime_over_7_part_7();
}

proof fn lemma_power_field_prime_over_13441_part_0()
    requires
        power_mod(3nat, 1nat, 0xfffffffffffffffffffffffffffffffffffffffffffffffffffffffefffffc2fnat) == 3nat,
    ensures
        power_mod(3nat, 0x1380d8f96nat, 0xfffffffffffffffffffffffffffffffffffffffffffffffffffffffefffffc2fnat) == 0x16ca09d826467f7eb3be2e1e1ac9543eb5aa9f99b2b2388f0512efee0d1886eanat,
{
    let n = 0xfffffffffffffffffffffffffffffffffffffffffffffffffffffffefffffc2fnat;
    let e0 = 1nat;
    let x0 = 3nat;
    let x1 = 9nat;
    let e1 = 2 * e0;
    lemma_power_mod_square(3nat, e0, n, x0, 0nat, x1);
    let x2 = 81nat;
    let e2 = 2 * e1;
    lemma_power_mod_square(3nat, e1, n, x1, 0nat, x2);
    let x3 = 19683nat;
    let e3 = 2 * e2 + 1;
    lemma_power_mod_square_times(3nat, e2, n, x2, 0nat, x3);
    let x4 = 0x4546b3dbnat;
    let e4 = 2 * e3 + 1;
    lemma_power_mod_square_times(3nat, e3, n, x3, 0nat, x4);
    let x5 = 0x383d9170b85ff80bnat;
    let e5 = 2 * e4 + 1;
    lemma_power_mod_square_times(3nat, e4, n, x4, 0nat, x5);
    let x6 = 0xc5afe6ff302bcbf94fd9829d87f5079nat;
    let e6 = 2 * e5;
    lemma_power_mod_square(3nat, e5, n, x5, 0nat, x6);
    let x7 = 0x98a832626176ccbe4694b88a96dc004171b143838aa52d36988ddf2159d931nat;
    let e7 = 2 * e6;
    lemma_power_mod_square(3nat, e6, n, x6, 0nat, x7);
    let x8 = 0xdefc0e1bc7402dba51d014529c9a0a462c7059431faedb4c348cd6376c9edd72nat;
    let e8 = 2 * e7;
    lemma_power_mod_square(3nat, e7, n, x7, 0x5b082a56fec792efd99791e07fa440f481dbbfd32e9d46ad604cca8faa41nat, x8);
    let x9 = 0xd87774f18159fc63e3b6660c90aed8ad544aa7712b240e44acaa46fb19aba628nat;
    let e9 = 2 * e8;
    lemma_power_mod_square(3nat, e8, n, x8, 0xc23a20a3f50aa277d454d255dee23ba48d45e1bf132544b4a5bc43d62fe73624nat, x9);
    let x10 = 0xdfadd6ec6fe9d8d92d9e0a768cd32bd0ffda52eecb4eac84685d2178343a4b3fnat;
    let e10 = 2 * e9;
    lemma_power_mod_square(3nat, e9, n, x9, 0xb709cd157839dc9f8ea50a363f840ded6e08d82404bb4338645b7579c2291fcfnat, x10);
    let x11 = 0x8204ab7889ae66d9d992c1fbeff2bfbaef16a895c7b59cc890b2a853164b6a44nat;
    let e11 = 2 * e10;
    lemma_power_mod_square(3nat, e10, n, x10, 0xc370527c1af8cf52f1a0862dcb0705bef27492eb8aa99072a0d190f2ec6df453nat, x11);
    let x12 = 0x82e5043e32c85dc564c64726f697868894a66d9246f8a6e2bc750a93509c2ce2nat;
    let e12 = 2 * e11;
    lemma_power_mod_square(3nat, e11, n, x11, 0x4208be3c3a73ae98d2bb6f651ca3a2f1f7f9b719b1732c77579e0886a1754c32nat, x12);
    let x13 = 0xced89f7c371e1965cf159045a5c4e5692cf3760429258a8bbd0f06f9aadcb611nat;
    let e13 = 2 * e12 + 1;
    lemma_power_mod_square_times(3nat, e12, n, x12, 0xc8c82f8f48c50f356aaa69a0e7ac01fcdff8a64ea6d38c0a1bd85ba2f3dfc175nat, x13);
    let x14 = 0xc2037f4fdbab39feaf9275c4a84f7c69320d66e4ec4c4a6a77cdd2a1ce16933anat;
    let e14 = 2 * e13 + 1;
    lemma_power_mod_square_times(3nat, e13, n, x13, 0x1f56407ec4906f5369cf586adf7573683bb68070ef9ec4d3efd9da70abd62c727nat, x14);
    let x15 = 0xaf0f6f1fa78f3de523c1721e437a8b89bc6eace8c652e32cc6c9f61f9e520a4nat;
    let e15 = 2 * e14;
    lemma_power_mod_square(3nat, e14, n, x14, 0x93094d01441efec691c8fd10c6b8c382fd0053e48bc552f99c092624aec55f80nat, x15);
    let x16 = 0x7563fc7142da017197e8bbec9a39ae0fe9e69079cc70272b22a4242ae560d28bnat;
    let e16 = 2 * e15 + 1;
    lemma_power_mod_square_times(3nat, e15, n, x15, 0x1672250927717d1e24553b048f9a9fe5e4948de5324c4242cb3eb23f285cf6bnat, x16);
    let x17 = 0xf4951c4f034c5a9635eb843830d1e7cb30cce7129dfd4c43d08995439f638ea1nat;
    let e17 = 2 * e16 + 1;
    lemma_power_mod_square_times(3nat, e16, n, x16, 0xa17da3663eec76f8b268d094d99d9542a5cf90cf0b524c723501334797254056nat, x17);
    let x18 = 0xb8670475c8c7fdf5c07d11197fda9def8a9f4362dc3a8d971d7f7427d4587528nat;
    let e18 = 2 * e17;
    lemma_power_mod_square(3nat, e17, n, x17, 0xe9ac94d09564c4ab869f5d9941425a8bdaa2a2bde24443d16a43515f94e30237nat, x18);
    let x19 = 0xbb807c38b34c494d159279e31c5de3a85195ce55293003e81a80d619a8ae20f2nat;
    let e19 = 2 * e18;
    lemma_power_mod_square(3nat, e18, n, x18, 0x84d43fdde77af27704ab96eb11ede9cac21fab3ca1436134752cec930f1b6612nat, x19);
    let x20 = 0x2c5a7cea331bf285dd92bcfc817787bf449d2f3f87493622b2fa7061469510d5nat;
    let e20 = 2 * e19;
    lemma_power_mod_square(3nat, e19, n, x19, 0x8954f5f74aebb9a0c09014686ba392426b1772a33ed738e501ccbc1f3a647441nat, x20);
    let x21 = 0x1bd2c0e99ec4a889457cac9dcbaab335036e790903c1cec465703d93bf73d4b0nat;
    let e21 = 2 * e20 + 1;
    lemma_power_mod_square_times(3nat, e20, n, x20, 0x170db0c5b993c85b43964793dcfa60b6a577533a95ab98f748eacd78e3d51af5nat, x21);
    let x22 = 0xc48a03f24e3387d06798c073337f09f4da92dac1081d0eeac1d8a267ff9e76d5nat;
    let e22 = 2 * e21 + 1;
    lemma_power_mod_square_times(3nat, e21, n, x21, 0x9126697086faca0855b0283cbeb6e267b5ea0f725cce709068a8fe9f858dcc5nat, x22);
    let x23 = 0x66bb7dcdd5f9f341432b9bd9554102e8950d6b492eb5406833f9215f813be0f2nat;
    let e23 = 2 * e22 + 1;
    lemma_power_mod_square_times(3nat, e22, n, x22, 0x1c4aae159db206018157212db29bd44d37e7890a63fc0327d7380b66893fe2997nat, x23);
    let x24 = 0x765e607aa585dc971eb6705ea220e096ba577033308532a04fa93e30887b35ffnat;
    let e24 = 2 * e23 + 1;
    lemma_power_mod_square_times(3nat, e23, n, x23, 0x7badd4b32d2554679ec244903e152edd3d6f93094bc6814509137d1cd0f68843nat, x24);
    let x25 = 0x122210cf9ae6e2ced6ad5810452a0ebb8c3f03cd547f263b2e18cfb8d12e3b3fnat;
    let e25 = 2 * e24 + 1;
    lemma_power_mod_square_times(3nat, e24, n, x24, 0xa4316b342d0f85afaa087af8d971de2de4d9a4270bedd06a0d70154e6ff0c67cnat, x25);
    let x26 = 0x6fb82392515b89372ed434e91e9beeff06fc80d8f10620f2beb559eadde61f8fnat;
    let e26 = 2 * e25;
    lemma_power_mod_square(3nat, e25, n, x25, 0x148cee5aa0838f21098a4dfb446e3c97854fc4f9827cb16f55fcd9e6b140eaenat, x26);
    let x27 = 0x6e82bb59b59a5231fe492710efc0c75bac8cc2d31ea5a6f019f8b4a4dffb9e97nat;
    let e27 = 2 * e26;
    lemma_power_mod_square(3nat, e26, n, x26, 0x30c1334c09d3aa7307b7fe3d6a95020baf5afb7528aebfb82cfc0aab1ce3bcd6nat, x27);
    let x28 = 0xc5655e1f2eb104e7048dc1ee65b31170c7d1d9e06a80e6c5fa245ff571a9f660nat;
    let e28 = 2 * e27 + 1;
    lemma_power_mod_square_times(3nat, e27, n, x27, 0x8f1dd34bb8dbba590288b024cbdf8f38391895abc9518a66ae020294dca8e89dnat, x28);
    let x29 = 0x1ea7e149114870afac0f42259b86b5d6885d41cda690cae3538fc12c71e1842anat;
    let e29 = 2 * e28;
    lemma_power_mod_square(3nat, e28, n, x28, 0x98352aff6512334fc248b3c9f09128e4f6e0d8d23dfdacdc5826638737699a0anat, x29);
    let x30 = 0x88d9a5dbd554e199477e48172df48c41bc0d49f409ab9e6a235312f7944ccea1nat;
    let e30 = 2 * e29 + 1;
    lemma_power_mod_square_times(3nat, e29, n, x29, 0xb0354ae7ae924792c417a88ed49ef07c78b6b1b2847089fb3813243461d60e5nat, x30);
    let x31 = 0xc0175c52b7c588ae3c7039bb6382afc47333a1c7565cd9a26fedd0d777172559nat;
    let e31 = 2 * e30 + 1;
    lemma_power_mod_square_times(3nat, e30, n, x30, 0xdb77ebcc866ce61e48e3ebf18670725da54ed1e502c981f5be9793011ab8fbb6nat, x31);
    let x32 = 0x16ca09d826467f7eb3be2e1e1ac9543eb5aa9f99b2b2388f0512efee0d1886eanat;
    let e32 = 2 * e31;
    lemma_power_mod_square(3nat, e31, n, x31, 0x90230c9dcbd0e15422abffa795dea2c426fe51bee5cdcd56df19ff446119d9a9nat, x32);
}

proof fn lemma_power_field_prime_over_13441_part_1()
    requires
        power_mod(3nat, 0x1380d8f96nat, 0xfffffffffffffffffffffffffffffffffffffffffffffffffffffffefffffc2fnat) == 0x16ca09d826467f7eb3be2e1e1ac9543eb5aa9f99b2b2388f0512efee0d1886eanat,
    ensures
        power_mod(3nat, 0x1380d8f96dd6e5f6bnat, 0xfffffffffffffffffffffffffffffffffffffffffffffffffffffffefffffc2fnat) == 0xaa763136134f945a4c4a6392a12227933939f753493273810539c8bccfc99017nat,
{
    let n = 0xfffffffffffffffffffffffffffffffffffffffffffffffffffffffefffffc2fnat;
    let e0 = 0x1380d8f96nat;
    let x0 = 0x16ca09d826467f7eb3be2e1e1ac9543eb5aa9f99b2b2388f0512efee0d1886eanat;
    let x1 = 0xc16dd17d441e5ab0e77509c3eec77a8708ec178fb0d23f3d159d5b8a4dfd413dnat;
    let e1 = 2 * e0 + 1;
    lemma_power_mod_square_times(3nat, e0, n, x0, 0x6160b6e10344b15a57e374caf4b96e4184f592cbc9a2e3302572eb45d9e47c1nat, x1);
    let x2 = 0xf9fe803ee1e68a87a7ef805446ea401d96df3adb55ec314a96e95809c6fca99enat;
    let e2 = 2 * e1 + 1;
    lemma_power_mod_square_times(3nat, e1, n, x1, 0x1b6744ef0d26ea7575e77628eb9069257bf6fd5dc77a7504e3a3ee5078ce12f93nat, x2);
    let x3 = 0x7def4096cd85617c9ac8a29f63162e46d36d7af51aa7bf411f31a686a2f06230nat;
    let e3 = 2 * e2;
    lemma_power_mod_square(3nat, e2, n, x2, 0xf421127d1079b04f876af7ab1d72242ce30009212a2540e302e789abd2e4e0ecnat, x3);
    let x4 = 0x82eab99375b2c6539d2c49d3b19259537603f63d9362deaa963a6a67d598979anat;
    let e4 = 2 * e3 + 1;
    lemma_power_mod_square_times(3nat, e3, n, x3, 0xb9da8e06cbbb3f87ab95216b03e04b6824086e4c175c231d3525f94eed177b7anat, x4);
    let x5 = 0x370a409f822679088a4a1a8953f9715053f4590e74c63667a937f9ebcafff440nat;
    let e5 = 2 * e4 + 1;
    lemma_power_mod_square_times(3nat, e4, n, x4, 0xc8d9b314a2e993e4c1a979c9eb81849c732f233f52ba1a43bd4562e3046b2e14nat, x5);
    let x6 = 0x344282ee4f2d042745a3f5f28879341606119121000db03fd27617e6e996986anat;
    let e6 = 2 * e5 + 1;
    lemma_power_mod_square_times(3nat, e5, n, x5, 0x23803888f418866bdfb112f43b044824380296d5ef93bd0a39397c185f7bee4anat, x6);
    let x7 = 0x8bd235cb7e183ad0ea9bbe7321686cea955d86156c0f107c954ff746a726a472nat;
    let e7 = 2 * e6;
    lemma_power_mod_square(3nat, e6, n, x6, 0xaab16789602032720f2f0b00e022adc3a2a93a47fd9bc23174d93409d68992enat, x7);
    let x8 = 0x6385391f51d037c6f76ec1307b7886f607ef7466e101199419a281dc7e956500nat;
    let e8 = 2 * e7 + 1;
    lemma_power_mod_square_times(3nat, e7, n, x7, 0xe519d915d8453ac3db3d06fc53f3a87e09e6d49557b2ea04280ea66f6bd94274nat, x8);
    let x9 = 0x2adfad182da61113f6fc2e59c8f71d1091dcf0021d27581400feaf2a6940bbd0nat;
    let e9 = 2 * e8;
    lemma_power_mod_square(3nat, e8, n, x8, 0x26b04f82a09103c17b864b8612c72787fb792ffb01b8622a8a58936fd1cd02d0nat, x9);
    let x10 = 0x3747b7566fd3efe5442cd63a8df2e3a8fdbc796a79511fb53c93d50e712fe5cdnat;
    let e10 = 2 * e9 + 1;
    lemma_power_mod_square_times(3nat, e9, n, x9, 0x158a78b0dc6b1eb6088d178998779aa083f132626945a02ca0b82dbe2b8ec23dnat, x10);
    let x11 = 0x5b718534945fcaeb91f599fb08471ea6ec3a56d195c8744ad461d1d29310982nat;
    let e11 = 2 * e10 + 1;
    lemma_power_mod_square_times(3nat, e10, n, x10, 0x23cfae9b0be35d1bba0e8bc42333b56c9a4e1ae35f5cd48821df30688d259b57nat, x11);
    let x12 = 0xdf413e2e0ff2a145cc622b2e40521b33fac428253506c33a817696c7e8b7d8fdnat;
    let e12 = 2 * e11;
    lemma_power_mod_square(3nat, e11, n, x11, 0x20a9e70a3f36c3ccc37d921f81b82c986b0f4ab7e1e0b24389a58462298ea9nat, x12);
    let x13 = 0xedc8d0691999661cdd2e6338b3a158351c58c4d44ce877c4aea8855be4a3abf8nat;
    let e13 = 2 * e12 + 1;
    lemma_power_mod_square_times(3nat, e12, n, x12, 0x2481830dea6d572924578be0ef7c13ce4d20bf73fd5ace763fdee0842508a484dnat, x13);
    let x14 = 0x2ac7e8d3525327b0ffa20f8d6b3f7fcd35dfe5cc19d23ff67d2f3fcbe3b5f3b4nat;
    let e14 = 2 * e13 + 1;
    lemma_power_mod_square_times(3nat, e13, n, x13, 0x296984e3ab5daf280d4e06b7712bc32826900aa5e8d19bfef4de380fe7fb044b4nat, x14);
    let x15 = 0xf1885a985131aaf06e422842c57c5ef0ccdb0b3be9634c0088a7fbc5b14a907enat;
    let e15 = 2 * e14 + 1;
    lemma_power_mod_square_times(3nat, e14, n, x14, 0x15729d8369e6eddff1a4a9cd973d906f62d46182465fd33e096b5ea3586df96enat, x15);
    let x16 = 0x1c5b4e89d40a6f16ba247fbc6c25e2bbcef6b78ffadab8ceadba5bbc1336af05nat;
    let e16 = 2 * e15;
    lemma_power_mod_square(3nat, e15, n, x15, 0xe3e203332ac53c55bffa38f0f9990818ab8986be60ace73b23d3a4f9ffbc1631nat, x16);
    let x17 = 0x8a66791d6007a3a2e73f9d77e6b44a4d7992ed075f76423eb84162882d202e6fnat;
    let e17 = 2 * e16;
    lemma_power_mod_square(3nat, e16, n, x16, 0x32419bf14774f22f15e5a1002cc6bf557bdd62a0ba0fc0ffdd45952d164b676nat, x17);
    let x18 = 0x30c7378a53ecb95594a0630cc317e0ccdecb9a3d422b5005fa8865b674ca2425nat;
    let e18 = 2 * e17 + 1;
    lemma_power_mod_square_times(3nat, e17, n, x17, 0xe077eac938b89ff870b4fac9717558416c3b1ea8d3c4f49f5419666ebf668622nat, x18);
    let x19 = 0xc0edeb21a7d0059a8e83d0a3fefbebffc627cd53429865705b86d38ae96928cdnat;
    let e19 = 2 * e18;
    lemma_power_mod_square(3nat, e18, n, x18, 0x94b4fdb4493fa56892727b3a8d15e5fa8625e3c8ea6429624c95d6b8680e534nat, x19);
    let x20 = 0x564d506754724862413e60c858a922b69b54fb59248c640b4d2b4827345ea637nat;
    let e20 = 2 * e19 + 1;
    lemma_power_mod_square_times(3nat, e19, n, x19, 0x1b431396f0ffeaa44759996996b1f88746addf1ea8588af68ba746586dec848fcnat, x20);
    let x21 = 0x6240d34d48c1fc9ab57327deb3cd17e03041b09b62b1c022437bf431ebae482anat;
    let e21 = 2 * e20 + 1;
    lemma_power_mod_square_times(3nat, e20, n, x20, 0x57481c1cac72fb9a240008bc06b19588365c452333b62eb530f1eab6fba8ae07nat, x21);
    let x22 = 0x343f68281dd7e43f2aaaf4dd7eddabd3f1592fc9d59f982cdc8804b1a2122a17nat;
    let e22 = 2 * e21 + 1;
    lemma_power_mod_square_times(3nat, e21, n, x21, 0x7121169482442afc2028b417e5cc01ea3511cfbba822636d29b8f059c2e3607bnat, x22);
    let x23 = 0x6c08d2520765e04ab5e3809af24df82ff534634cfd12aba926fef8c8c60891b6nat;
    let e23 = 2 * e22 + 1;
    lemma_power_mod_square_times(3nat, e22, n, x22, 0x1ffd760e2ebd0a8e42752d6aae9be0455a5b833e681264656859d10ae7ca6f13nat, x23);
    let x24 = 0x82d3f0dd8852d93b5eb14a9f002b43f7de03af860eb35987fa91355bfb037f58nat;
    let e24 = 2 * e23 + 1;
    lemma_power_mod_square_times(3nat, e23, n, x23, 0x88c65549187b4e1acec8ef6e20d2f530950cfa6ed8819651ac84b4b329f2eb6cnat, x24);
    let x25 = 0x97ad5c2058e171bbad0738ddb1af09a3ad8bc2b3c5c6e9ffb255e318d7b080aenat;
    let e25 = 2 * e24;
    lemma_power_mod_square(3nat, e24, n, x24, 0x42dbf017ee42fc8262fcabb75f45ec5b498287ab16facbaf0dc3ae722b824d0enat, x25);
    let x26 = 0xfee374e7887eb68c7e8bae8463ece25738f0176b898291c533e2c21a3c9335fbnat;
    let e26 = 2 * e25 + 1;
    lemma_power_mod_square_times(3nat, e25, n, x25, 0x10d99e83b692c0a867c386a90f1eb9ba00295230f5400d4830797088e78c326ffnat, x26);
    let x27 = 0xb66e97240e8b2301b065a970235ce2e7fcac15438029525de558eb43e02a4475nat;
    let e27 = 2 * e26 + 1;
    lemma_power_mod_square_times(3nat, e26, n, x26, 0x2f958723bf08e7832f17bbccbf2b7c20da2c5b17c796c06507e16d47c4e8dd20anat, x27);
    let x28 = 0x1c347e57bc2d55c44224281a3cd35c989c90f268ae1f299e123e6909bbdb5f52nat;
    let e28 = 2 * e27;
    lemma_power_mod_square(3nat, e27, n, x27, 0x82016ead80e5e394b7857e4dd10a8ae34abfcd05194dca00364922b7ce984789nat, x28);
    let x29 = 0xecca1da044085b3aa9ca8943a1b5e964b6481cef5b1f28a61a1d10ec5f7df978nat;
    let e29 = 2 * e28 + 1;
    lemma_power_mod_square_times(3nat, e28, n, x28, 0x9529334497a89738748a5e24aace9772e1b5f4284942d90036301f9f7b1f2ecnat, x29);
    let x30 = 0xc5489cf4ded11390f79d05c633652fc3493a9dd02f90fb96d2d153e822a3cdcanat;
    let e30 = 2 * e29;
    lemma_power_mod_square(3nat, e29, n, x29, 0xdb05463241c8792322d3253e6f88784f3d653ec80fc38b3e3bd3ec0da6c7c16anat, x30);
    let x31 = 0x551007f0e284a47efc081e940fe4249e8096c28f3f0b2ed3bc4d9453b797fc63nat;
    let e31 = 2 * e30 + 1;
    lemma_power_mod_square_times(3nat, e30, n, x30, 0x1c81a827c9ab366814ce8a2122bd0106820448274dcc821ef50eaec3899305f87nat, x31);
    let x32 = 0xaa763136134f945a4c4a6392a12227933939f753493273810539c8bccfc99017nat;
    let e32 = 2 * e31 + 1;
    lemma_power_mod_square_times(3nat, e31, n, x31, 0x54caf2d4de565e98f01c351836ce52c3950d884b5bcf24084c8d56e84706cc7cnat, x32);
}

proof fn lemma_power_field_prime_over_13441_part_2()
    requires
        power_mod(3nat, 0x1380d8f96dd6e5f6bnat, 0xfffffffffffffffffffffffffffffffffffffffffffffffffffffffefffffc2fnat) == 0xaa763136134f945a4c4a6392a12227933939f753493273810539c8bccfc99017nat,
    ensures
        power_mod(3nat, 0x1380d8f96dd6e5f6be59059e5nat, 0xfffffffffffffffffffffffffffffffffffffffffffffffffffffffefffffc2fnat) == 0x34af4d6af875bb4c42f4edc1d9a1aa414b9b151b800317088ecb51b65027d778nat,
{
    let n = 0xfffffffffffffffffffffffffffffffffffffffffffffffffffffffefffffc2fnat;
    let e0 = 0x1380d8f96dd6e5f6bnat;
    let x0 = 0xaa763136134f945a4c4a6392a12227933939f753493273810539c8bccfc99017nat;
    let x1 = 0x5def373ea7703c7c2ec2c05ac6d28683a1b07207991f24f7836bd1d6e66e7626nat;
    let e1 = 2 * e0 + 1;
    lemma_power_mod_square_times(3nat, e0, n, x0, 0x154838fc7aadfb79feb2992a47f1e1d08179d5d1a624c914b975f1a01433a1c83nat, x1);
    let x2 = 0x8d6bcfd31f4807ca7e15c46c31bcffad777a6e205e502efb4b6ae8131271db14nat;
    let e2 = 2 * e1 + 1;
    lemma_power_mod_square_times(3nat, e1, n, x1, 0x6767090329b08060c325474758b17b42cdb3c30413ce0e666db8605e507061a8nat, x2);
    let x3 = 0x68785945c1723d8571ea6e189adfcb5bfdd90af7b962a22b52aa728882669e4nat;
    let e3 = 2 * e2 + 1;
    lemma_power_mod_square_times(3nat, e2, n, x2, 0xea5fd101daf9cc7be9f6a3438c5447e8a93f752ce920d33120de217885cffaf4nat, x3);
    let x4 = 0xe83748ff76f06c078e447874b52c2a79af4ad8acb628daf638abd57dc57db785nat;
    let e4 = 2 * e3;
    lemma_power_mod_square(3nat, e3, n, x3, 0x2aa2011c7db3c0996232ac1dad3948a0ecb635abe2ae6f2ef14daff860f365nat, x4);
    let x5 = 0x121077cadf22b9ea954e8e957bd76babeb43a995e6cdff8bde7f1dfbb98a0564nat;
    let e5 = 2 * e4;
    lemma_power_mod_square(3nat, e4, n, x4, 0xd2a4403f7a2990f184193834ed97c410e22b8d10230aa93e1ceb83387b7e0f5bnat, x5);
    let x6 = 0x54594ad4addc48c1f0429fef142308d60e6de780dcfa90836311d75685cae8c6nat;
    let e6 = 2 * e5 + 1;
    lemma_power_mod_square_times(3nat, e5, n, x5, 0x3d2f5b72a61081a395e267a4e3f8167709a5e7895d4b18cb2ba57390d3af5b6nat, x6);
    let x7 = 0x100c4a32e91a58f4cc9ebea8a8eadcc0b0f15ae3d8ae6876ff13ad63e5083749nat;
    let e7 = 2 * e6;
    lemma_power_mod_square(3nat, e6, n, x6, 0x1bcab840afd9181da180df47ccfec283dd7b2066aaa401d33c674fb46d430e15nat, x7);
    let x8 = 0x3541d3c26d5b5f97ed5788e514fa99e63cdcce163bb0bad8a5c9554a697cdde0nat;
    let e8 = 2 * e7 + 1;
    lemma_power_mod_square_times(3nat, e7, n, x7, 0x3049d98363fdb6e2b80cfd362cec1a85b95031c421e8e1ed045e9b0be851addnat, x8);
    let x9 = 0x8dce063479e1839268b214ec570b36956e5101c3d9811d301fb396c4c96c635enat;
    let e9 = 2 * e8 + 1;
    lemma_power_mod_square_times(3nat, e8, n, x8, 0x213cf7d32b8855be009f19fa9780bdaacbcc6f8662820d15a6101c41a5fbaefenat, x9);
    let x10 = 0xe16a74701e2c26fe2143baa4c11267e6f76255f2bf9c79a98221066744bdbdecnat;
    let e10 = 2 * e9;
    lemma_power_mod_square(3nat, e9, n, x9, 0x4e8c98a3cadd125756c3ef11d7858ff660347b0a4a7bcad90c81a31cfd07d2e8nat, x10);
    let x11 = 0xd35df443874dee9635f7cd4ad49912e1b0fdec47b118243dc9893e6515defb4cnat;
    let e11 = 2 * e10;
    lemma_power_mod_square(3nat, e10, n, x10, 0xc67c4cf1b6d8658d6e73676fa5529a30906871c59a9d6437562564c615f068fcnat, x11);
    let x12 = 0xecea9eaa09e472264f60fca4470e639dce94710e7e16b97b219dc5c8d104e035nat;
    let e12 = 2 * e11 + 1;
    lemma_power_mod_square_times(3nat, e11, n, x11, 0x20b8c09681982b4f6dda29ff2da87168be5be9e1b65fa4276872fa31f762be675nat, x12);
    let x13 = 0x80bab344fa2830a4f3457f1cea8e6441d674ae23acce36aa84570412d1274bb3nat;
    let e13 = 2 * e12;
    lemma_power_mod_square(3nat, e12, n, x12, 0xdb416b8ff36d9d3e7114afdc1cb71ad0cf7a55c34aacfb311bc932500b23259anat, x13);
    let x14 = 0xbabe94d3657bb64482b39133deac8201de42a383b62963ce6ee96176939676fnat;
    let e14 = 2 * e13;
    lemma_power_mod_square(3nat, e13, n, x13, 0x40bb3b6df7ed3b75b0ca093f752f3a0a1d03c412539e3d5d37bb110ddb931366nat, x14);
    let x15 = 0xf8e5536b4e437d7f29cc80d8c8e6abb6e44f90f1a9541f5e58286bd4e864d858nat;
    let e15 = 2 * e14;
    lemma_power_mod_square(3nat, e14, n, x14, 0x88397e246fc7846598877734b3334f41b291128a95d8a853bf76e39b48e387nat, x15);
    let x16 = 0xf56c2a9fcbcf4023ee7f66b98328af2e585790c9f80eb1bb8e780457fe4c0969nat;
    let e16 = 2 * e15;
    lemma_power_mod_square(3nat, e15, n, x15, 0xf1fd1f0e40cb899f2e35912e81248e6ad52f2b68f30a5698edac63e25d37ffd9nat, x16);
    let x17 = 0xec1d881adeddd37309232f921498e724d9b5c40a906d9161758a22b651b4632enat;
    let e17 = 2 * e16;
    lemma_power_mod_square(3nat, e16, n, x16, 0xeb483749da077a41b390e48397f4be59e89f91e83e6a7ffd8bb8896eb740fc8dnat, x17);
    let x18 = 0x596f06d0a90eea141c49602ebf5fde8e91aa52cbe3d3978e9395e1bdc2a26c27nat;
    let e18 = 2 * e17 + 1;
    lemma_power_mod_square_times(3nat, e17, n, x17, 0x28d53630cfc14233329f6cd1ae5a34324fa170d19533c0dd78b1b3b533125cf6bnat, x18);
    let x19 = 0x8a755ba2246bdc1d0bdafee29f19261dfa199162c05195afa8e302e669e4dd22nat;
    let e19 = 2 * e18;
    lemma_power_mod_square(3nat, e18, n, x18, 0x1f3e62e3fead6bb0d3f590704eedd9206b593756384c38d06fe28edf7feeed61nat, x19);
    let x20 = 0x4bc42e8f05ac01f605f3b2ceffcc4c8768b92ddca60049438dd74118c82dee9cnat;
    let e20 = 2 * e19 + 1;
    lemma_power_mod_square_times(3nat, e19, n, x19, 0xe0a835c716d2c177ee880e8bbdc30b4ddf36ccec9a0df706a84b09f2d5140810nat, x20);
    let x21 = 0x9a72760cdabeedec4ab1e9aed837dbb435c37b813fe68294075ec64d188463f3nat;
    let e21 = 2 * e20 + 1;
    lemma_power_mod_square_times(3nat, e20, n, x20, 0x43459cdd62618b6eed9e0bbab09ebd62457842f642e94570e7339b955c62ba53nat, x21);
    let x22 = 0xc538bf783eff8a2832608a543bf2ba02a57884a2198986b6328bfaf89d2a979fnat;
    let e22 = 2 * e21;
    lemma_power_mod_square(3nat, e21, n, x21, 0x5d2de934d110629970767239f70c1c48213dcfb3ed1d7b01b93c205507077b16nat, x22);
    let x23 = 0x285b3c265933af835ddea5c6120ee1a5150076b946dbe884c59cc871c0ec1710nat;
    let e23 = 2 * e22;
    lemma_power_mod_square(3nat, e22, n, x22, 0x97f0634364c580eabe58e5fd7113a8da17031b4db046c43085e74d5ee80eec1fnat, x23);
    let x24 = 0x342c7318e10d4657e20f960baa55852a641d6ad49bcb51c6d2ef6d51687fc5b1nat;
    let e24 = 2 * e23 + 1;
    lemma_power_mod_square_times(3nat, e23, n, x23, 0x1315e9ef67d0b373fc46ecb22e9de041298ee9c85944b5b6c5223819f74e48e1nat, x24);
    let x25 = 0x2677dd719e9ac8a27bb663e17fe832baeb3e4b4390954b2839b75ac9b7d8d55anat;
    let e25 = 2 * e24 + 1;
    lemma_power_mod_square_times(3nat, e24, n, x24, 0x1fe6436d9f2e594256bd92b239b1558c6760cd61358233b6ade8fc39a87f1587nat, x25);
    let x26 = 0x9814e2a087416c00bd22779fdd716e6b36420d8f735d8d73e800315024667867nat;
    let e26 = 2 * e25 + 1;
    lemma_power_mod_square_times(3nat, e25, n, x25, 0x115769980ece51323b4ebe817b90e0025e323bc9bacb9e86fc47c23dc481cb8bnat, x26);
    let x27 = 0x21ed6a8c0140f77738206e01de1477eb4e4c854b06481ec10903970a92d2cb95nat;
    let e27 = 2 * e26 + 1;
    lemma_power_mod_square_times(3nat, e26, n, x26, 0x10f0a6c7876f7f1d7d5ee90cbd2f856bfe3ff5b3d70460e4adbe827afba1525a2nat, x27);
    let x28 = 0x3b46d1ef15f4aa5b9066f32a5c0a814a1c2efd1b40487adb7580a7a02b0347a5nat;
    let e28 = 2 * e27;
    lemma_power_mod_square(3nat, e27, n, x27, 0x47f11a68be54fb21b353fb4028bedab60f801f16a358652fef5388cb74f0b2cnat, x28);
    let x29 = 0xb265c5226d45fcfebda9a3580ea2c563cdc3191b5acfa4429497371a2d6c2af0nat;
    let e29 = 2 * e28;
    lemma_power_mod_square(3nat, e28, n, x28, 0xdb9b85baf070976dd8412ea7076456511afc750a8e60ae4caebd9b19cb079e7nat, x29);
    let x30 = 0x32b6994231578b718ec182fa150ffc2cbf139794359207ef867d2de794ffe3banat;
    let e30 = 2 * e29 + 1;
    lemma_power_mod_square_times(3nat, e29, n, x29, 0x174f50bcb0ec8a99068187d72457212d49bbadd1a492e02d9607380c0c2dda59anat, x30);
    let x31 = 0xa94c743fb9e086fec73d3e2e017966cc1b50c78b7e487d703a61f437265c1557nat;
    let e31 = 2 * e30;
    lemma_power_mod_square(3nat, e30, n, x30, 0xa0bd61c21248b0ac08ed6d261f0466c3ea5bd2a07eb8d15ff8d0b04a2e1aac3nat, x31);
    let x32 = 0x34af4d6af875bb4c42f4edc1d9a1aa414b9b151b800317088ecb51b65027d778nat;
    let e32 = 2 * e31 + 1;
    lemma_power_mod_square_times(3nat, e31, n, x31, 0x14fe218f41a1fdf97186e535bf04d10e9f97ae9774bfbe369343562ca6947dab5nat, x32);
}

proof fn lemma_power_field_prime_over_13441_part_3()
    requires
        power_mod(3nat, 0x1380d8f96dd6e5f6be59059e5nat, 0xfffffffffffffffffffffffffffffffffffffffffffffffffffffffefffffc2fnat) == 0x34af4d6af875bb4c42f4edc1d9a1aa414b9b151b800317088ecb51b65027d778nat,
    ensures
        power_mod(3nat, 0x1380d8f96dd6e5f6be59059e5e81db64anat, 0xfffffffffffffffffffffffffffffffffffffffffffffffffffffffefffffc2fnat) == 0xf132f3a5d97bd2bf1aec9a24d1c2eb0ff0e38c7f27b4fbfe25799a6c3c4dc593nat,
{
    let n = 0xfffffffffffffffffffffffffffffffffffffffffffffffffffffffefffffc2fnat;
    let e0 = 0x1380d8f96dd6e5f6be59059e5nat;
    let x0 = 0x34af4d6af875bb4c42f4edc1d9a1aa414b9b151b800317088ecb51b65027d778nat;
    let x1 = 0xa14d464ba6499cc1a9def0116fd648bb93ee7814c58c60c0fa4ebe5705fddde8nat;
    let e1 = 2 * e0 + 1;
    lemma_power_mod_square_times(3nat, e0, n, x0, 0x20870e7b2dcb21a3b85307c1474ef02600451f50868738d6dd00c5e7291fc4a8nat, x1);
    let x2 = 0xbc6348655ab96698ccdd1a376dab03447fade898ea69debb8f7b045928c59533nat;
    let e2 = 2 * e1 + 1;
    lemma_power_mod_square_times(3nat, e1, n, x1, 0x130e6dd3b8be83e3d031dbab7336ed35ba407769ec5e9df4c9729c3abe4b7f303nat, x2);
    let x3 = 0x85da8fdfeb36c53b9d39e6df72a2a4e31e6d979e05a5a8a4507c75d4509e2ebdnat;
    let e3 = 2 * e2 + 1;
    lemma_power_mod_square_times(3nat, e2, n, x2, 0x19fe5ea81d058efbc55b0f32fc57c9ad281b3664736c282d20fa2a6d0f41acca2nat, x3);
    let x4 = 0x994a68e5eefeb3d0e4deda5a601edd974a86823281665baec8d3792f59db7115nat;
    let e4 = 2 * e3;
    lemma_power_mod_square(3nat, e3, n, x3, 0x45fcd418049f6edaacc7c1d73c3d87d8d54e0ce8420ed6c8ced1fcefdc3bbfccnat, x4);
    let x5 = 0x243accf5b58202f8c9287d36e9dc9abf36904a7245d877bfbae4f4914c3343f1nat;
    let e5 = 2 * e4 + 1;
    lemma_power_mod_square_times(3nat, e4, n, x4, 0x1135e150af6c2bcac21b619d390e897b90feed84b2dfd838a85911c11a533c3e6nat, x5);
    let x6 = 0x3bedddb11068fc8524ecae77f2c7eca373367eea79f8af0c1eb1599e8374a82anat;
    let e6 = 2 * e5;
    lemma_power_mod_square(3nat, e5, n, x5, 0x52097269e7b54db7195d4948edf9668edcdc739fb17950d976fe0cad12b99f9nat, x6);
    let x7 = 0x99eb1dafd459ec758f06cb92ca29fa717cce5585157edb07771609de6e4da659nat;
    let e7 = 2 * e6;
    lemma_power_mod_square(3nat, e6, n, x6, 0xe078133d763f795e3c3d322d26604587f50fadcec04082ad081c769b14a9e65nat, x7);
    let x8 = 0xf113e4d02dfb448a91296559a5dc0a1d829e64a0c467536381464c6ec86207c2nat;
    let e8 = 2 * e7;
    lemma_power_mod_square(3nat, e7, n, x7, 0x5c8ae16bb014a89d0773b029439894809a074afbebdd5b07e2ff0067e8e42901nat, x8);
    let x9 = 0x4b7ed70ee19297870b4322866e7b3b1e780e12190a1ee53aaff86398bd74b5bdnat;
    let e9 = 2 * e8;
    lemma_power_mod_square(3nat, e8, n, x8, 0xe306765bb9fd658b6489fd6da67e67bf9ac806e71f683cd2c8fea064d46b1669nat, x9);
    let x10 = 0xc7e7dcaa60aa9a13369df8cc4aa4cbd0459affc2535bca8387c91b6ca5e78917nat;
    let e10 = 2 * e9;
    lemma_power_mod_square(3nat, e9, n, x9, 0x164390db1f7bf0d7f6d8d64d51ebfc02e2b08a9cc888799d0e7d0e38ecf84c2enat, x10);
    let x11 = 0xb565683d3b0085c36dd077cdc99110e91bb1454a27340549cf8f8886655f8306nat;
    let e11 = 2 * e10;
    lemma_power_mod_square(3nat, e10, n, x10, 0x9c1a4b10dbf8f6f5ad7c3688115e9d72dcffb9e61217dff6dfe6dd4c899429e5nat, x11);
    let x12 = 0x2e5e04855d27581962b7c14523c5c2d9ea70b1e751f2b75e5180d758bef0b0d2nat;
    let e12 = 2 * e11 + 1;
    lemma_power_mod_square_times(3nat, e11, n, x11, 0x18199a8b600934e707a0fa1c2c9d1a436882b1fe878887b840e50198c29ab3586nat, x12);
    let x13 = 0x63066128254a691b02d0c2555890178e5b502e6f56427a23108657116c52daeenat;
    let e13 = 2 * e12 + 1;
    lemma_power_mod_square_times(3nat, e12, n, x12, 0x1931c475be7cf6d2ecf36dc281241d07eb3d06bb1857a6c637d06cca9569c682nat, x13);
    let x14 = 0xf225d11dec34645434bbdea9d145c4cc396b20699ece2acffb55d8b4b30f57ecnat;
    let e14 = 2 * e13 + 1;
    lemma_power_mod_square_times(3nat, e13, n, x13, 0x72e9cde93eca3e01a5568206d1c26e57d1cbf42ed08f0ef53288250da959de20nat, x14);
    let x15 = 0xf571440a6bbafb35c7321c67a17883622c5825507a13aca97ea1aa86422e1d7nat;
    let e15 = 2 * e14;
    lemma_power_mod_square(3nat, e14, n, x14, 0xe50b84f2b00b34011dab4c2a4ba1d42b4fac7cb95b1c1368ef711b596f586097nat, x15);
    let x16 = 0x23b0e9fcef6c3c804a1086da88fd1cc6a43ee93f9042f4e003bff7b8667f5b11nat;
    let e16 = 2 * e15 + 1;
    lemma_power_mod_square_times(3nat, e15, n, x15, 0x2c1f5fb0b40759cabe6716797b82f02a45d50bec8f60c3377925eaf30868afenat, x16);
    let x17 = 0xf059546c52a0eeddb9d16de67981180aa3c1536ffd235950d7b6d6bf7119aba2nat;
    let e17 = 2 * e16 + 1;
    lemma_power_mod_square_times(3nat, e16, n, x16, 0xeed8eb9315d994c975ed1272a5fcec0243cfa38cb2971b442753cc294a99d0fnat, x17);
    let x18 = 0xff73b89cf842ddf8662fb5860e7655a04d174a9bb635b8c077e59a75411ac491nat;
    let e18 = 2 * e17;
    lemma_power_mod_square(3nat, e17, n, x17, 0xe1a79d76ea1677d541ca6ce645f9f8c6afe2d8197549111dd25aeda5a350057dnat, x18);
    let x19 = 0x4375fd5ae91d1d2eb54a45052d198f6ada68edcd10bfb921d4d8128a9435b345nat;
    let e19 = 2 * e18 + 1;
    lemma_power_mod_square_times(3nat, e18, n, x18, 0x2fcb73a484a3ad637be3c3af7429bdc7b96112eba2b5e75d454803f49949a5942nat, x19);
    let x20 = 0x653e98065038f07469231a0c84be774c55edbed49413fe6c5b78797899dc70dbnat;
    let e20 = 2 * e19 + 1;
    lemma_power_mod_square_times(3nat, e19, n, x19, 0x3554eafd719168ce380a4edc24afbdd462424de3e48f4fe6ff6bbe4c253be210nat, x20);
    let x21 = 0x96b29f20dff78b2f25bcf3690a93cb6897b77c251a5cb7dc37e429524e8770c1nat;
    let e21 = 2 * e20;
    lemma_power_mod_square(3nat, e20, n, x20, 0x280a7342f8a348bbccb1c4cff1e11650e7a577aa3fed65580ed2f4db27a9a0e8nat, x21);
    let x22 = 0x5e6ccb8db975a029f3052d93b73f0b06de6c74e0a96c97bca54d05f3e309e8a4nat;
    let e22 = 2 * e21 + 1;
    lemma_power_mod_square_times(3nat, e21, n, x21, 0x10a216d54994631552b876991416672ed53c6da1b95f7f0f3c4fc364d327f2f51nat, x22);
    let x23 = 0x56887080ea215dff06f3cd887fba0303cb60bac7a3afec6f94799095ae3c0b29nat;
    let e23 = 2 * e22 + 1;
    lemma_power_mod_square_times(3nat, e22, n, x22, 0x687c3b2960e2ce5cef6714fdcef267a4adcf24ac1aea19ba1997e76244059ba9nat, x23);
    let x24 = 0x179b9e762391c6a3c1051a6f6d2882d5ac1457bade7b47b518a7c3cb781a6ceanat;
    let e24 = 2 * e23;
    lemma_power_mod_square(3nat, e23, n, x23, 0x1d3ff44e57b83c6361615a6df5766fa0c13d5e0a27eeb4fa232a765519cf5e09nat, x24);
    let x25 = 0x44be186783cf54fadcaed52b9ce8395e57a6ad37295813451beb555870f287e5nat;
    let e25 = 2 * e24;
    lemma_power_mod_square(3nat, e24, n, x24, 0x22d55127f894ea4b7811779ac4b245d2381da29ec0ee7e91615f23de4afd731nat, x25);
    let x26 = 0xb0be2eecac8d5928cfaadfd262e57589a17ef41b17b1c5306ca178ffdfde71f9nat;
    let e26 = 2 * e25 + 1;
    lemma_power_mod_square_times(3nat, e25, n, x25, 0x37609e5dae041e6cdabf2aafb5842fc2d8d58df37738a39abb8a86d89739040enat, x26);
    let x27 = 0xf0f0b40ffdb4ce021ac7862e22e2f3e210d1c59f5c28c0b7c3b20b8461b85b2dnat;
    let e27 = 2 * e26;
    lemma_power_mod_square(3nat, e26, n, x26, 0x7a060dcf1d2c6539db14811ffcd25b8c23c9bd1e1baef6abbe5b3c508a89123cnat, x27);
    let x28 = 0xf04c5e8b4ec63ac1b4df986842fe09094ed98cd06b6f3275c612e8c932ea81adnat;
    let e28 = 2 * e27;
    lemma_power_mod_square(3nat, e27, n, x27, 0xe2c433f01855330c2e7a4a7c51a8f831d0aa78d7266d0d73ff5d9c4e15fc4484nat, x28);
    let x29 = 0x6566e565a340f16321c1b0518f91c62e2c0a4441337338de59e60e141426cd95nat;
    let e29 = 2 * e28 + 1;
    lemma_power_mod_square_times(3nat, e28, n, x28, 0x2a4add8286bff2892e66a4504c0c9a86adbe820912707b3c739c42d313efcabbanat, x29);
    let x30 = 0xe08aea5ec82609317690cf7f0303b8b5f68f8805cf20b7948b4846da82f2b36nat;
    let e30 = 2 * e29;
    lemma_power_mod_square(3nat, e29, n, x29, 0x282a5a5dcd5e54a4fcd751f3d6b7cd1244f709eab54009276195f94f73798aednat, x30);
    let x31 = 0x6dbe86a6e9d1f4cb164f9b92283181bd3db3cee18d9ae9692e2c3a86f071bdf1nat;
    let e31 = 2 * e30 + 1;
    lemma_power_mod_square_times(3nat, e30, n, x30, 0x24eda3096290b4640ce1da1016478f36a4e4492b813068bdfdd894e8439edb5nat, x31);
    let x32 = 0xf132f3a5d97bd2bf1aec9a24d1c2eb0ff0e38c7f27b4fbfe25799a6c3c4dc593nat;
    let e32 = 2 * e31;
    lemma_power_mod_square(3nat, e31, n, x31, 0x2f0bcc7649b307b82c92d72cf593b067e609f0005bf4b85d4391eaed3bc68412nat, x32);
}

proof fn lemma_power_field_prime_over_13441_part_4()
    requires
        power_mod(3nat, 0x1380d8f96dd6e5f6be59059e5e81db64anat, 0xfffffffffffffffffffffffffffffffffffffffffffffffffffffffefffffc2fnat) == 0xf132f3a5d97bd2bf1aec9a24d1c2eb0ff0e38c7f27b4fbfe25799a6c3c4dc593nat,
    ensures
        power_mod(3nat, 0x1380d8f96dd6e5f6be59059e5e81db64a8bfd5562nat, 0xfffffffffffffffffffffffffffffffffffffffffffffffffffffffefffffc2fnat) == 0xfeae75507647dff02974afebd09602f8f61c42ee7e1ca6295aab710b036c20c9nat,
{
    let n = 0xfffffffffffffffffffffffffffffffffffffffffffffffffffffffefffffc2fnat;
    let e0 = 0x1380d8f96dd6e5f6be59059e5e81db64anat;
    let x0 = 0xf132f3a5d97bd2bf1aec9a24d1c2eb0ff0e38c7f27b4fbfe25799a6c3c4dc593nat;
    let x1 = 0x9a15c0f7e136cc0698d3bd4df0ef0ef928d7a705cd404765e6efaca550f6beecnat;
    let e1 = 2 * e0 + 1;
    lemma_power_mod_square_times(3nat, e0, n, x0, 0x2a9c2eaa708791877d76ed7d6c72fd3be872d72739df8c53ba2b6f0dc9d481de1nat, x1);
    let x2 = 0x24dd3d447294bb37826843aaa8f3971e781a6cb450f33b4dbe1b7f6411e9724fnat;
    let e2 = 2 * e1;
    lemma_power_mod_square(3nat, e1, n, x1, 0x5cbe2e037515a24bf8dccad5a73c8add970bdf236b1f58337122f56d62ce778fnat, x2);
    let x3 = 0x859923d7f95c7e95ec1e43e0ec55cd5351c823f532f28baa05681c88175b0dfcnat;
    let e3 = 2 * e2;
    lemma_power_mod_square(3nat, e2, n, x2, 0x54ef86e17115a5ace0931d63d0d47a12db25b3581b72687bac894552e337dabnat, x3);
    let x4 = 0x779389b1d5d76802a6fb3ec37babdacd1511c8fe521d3546c13aea9fd47e46anat;
    let e4 = 2 * e3;
    lemma_power_mod_square(3nat, e3, n, x3, 0x45b87ada4646f07b2d6a5cc2997dac5b44126531c3769a1fa446cfe68724c73anat, x4);
    let x5 = 0x7b672a780908feacc4e988c1e26ebe4119239eb364a533f5e8d11957cc4e6f8fnat;
    let e5 = 2 * e4 + 1;
    lemma_power_mod_square_times(3nat, e4, n, x4, 0xa78f7d20434cff799a4e82d3bff99cdc5ac7531a53b1dbb1ce3419f39fb573nat, x5);
    let x6 = 0xc073bf43dec4e80e114d2fdcca2e452c056b6000ef44d291745be7380282e4b0nat;
    let e6 = 2 * e5;
    lemma_power_mod_square(3nat, e5, n, x5, 0x3b7c4c628c518536608ff224a56a798f0f7b0f0cf36e9f288b00e0d7cc5cf49fnat, x6);
    let x7 = 0x837bfa25aa67772dfc18ae4fd33a15c03b7be40ddfbdd4534c7f2672e9ccec4anat;
    let e7 = 2 * e6 + 1;
    lemma_power_mod_square_times(3nat, e6, n, x6, 0x1b20979b19c178c315157a6bcec1249c736a945f85730f15b2041ae26fc75912anat, x7);
    let x8 = 0xeeec0900266a835c2c23992cd45bfd77d6d03647fc17a85b1c56c9f74a66e040nat;
    let e8 = 2 * e7 + 1;
    lemma_power_mod_square_times(3nat, e7, n, x7, 0xca985a26a30fad471ae80da767526b1be9e2b775aa2aebc4dff6a237894477d4nat, x8);
    let x9 = 0x74dbec38ac63f7905b61c91cc5a1d8c66e562b944145b824a146f69f44342aefnat;
    let e9 = 2 * e8 + 1;
    lemma_power_mod_square_times(3nat, e8, n, x8, 0x29cf32f16a011a9ff450b8a960d5af36ee8f9198a702a0c9e4e9d07d1fe2182bfnat, x9);
    let x10 = 0x516060781027085ac2fc1c58bd8414fc8ebc5126c12cbee97780510250d125f9nat;
    let e10 = 2 * e9 + 1;
    lemma_power_mod_square_times(3nat, e9, n, x9, 0xa00821041d7e4159bc35c0b77b4b69da458d07207dd89f360a5c09ed7bad2eb6nat, x10);
    let x11 = 0x88c3663a6a7c8d3f7f76b51b9ec903aeae62c0524856a279210f708418e9ac4bnat;
    let e11 = 2 * e10 + 1;
    lemma_power_mod_square_times(3nat, e10, n, x10, 0x4d9a63fd69dd3ef45e03c0089130b73060c25c4cb05439015ba1b5ace37a7238nat, x11);
    let x12 = 0xd19d433d577b316fadcaa2a180223fdb6c605e1b2f0d8d608d44776d1f3a9fc5nat;
    let e12 = 2 * e11 + 1;
    lemma_power_mod_square_times(3nat, e11, n, x11, 0xdb309548e4df7e06fa5ce18dfbb308fd3b30e9c663ed6d0ecbd7ebeb876340banat, x12);
    let x13 = 0x2fd2e59841bd5084a65baa6507258d7098624ccafa867d4e3aca2ff28b98148anat;
    let e13 = 2 * e12 + 1;
    lemma_power_mod_square_times(3nat, e12, n, x12, 0x202e679311b38daf0d5b1097f8bf966742642fe51e623b362621afb85d50aea8fnat, x13);
    let x14 = 0x513bfe0155050747a24c39f56aa9d9d49718407453f7bd98ff7b5712f622d1d8nat;
    let e14 = 2 * e13 + 1;
    lemma_power_mod_square_times(3nat, e13, n, x13, 0x1acd5a222b8b5afae75f9ef8a339e4a9b4c2f8976b2c02a7a86744604a775eecnat, x14);
    let x15 = 0x912317b9b5074058268f0c5ce9f50fdd9f76a08d9ce8bb359109b22bfeead895nat;
    let e15 = 2 * e14;
    lemma_power_mod_square(3nat, e14, n, x14, 0x19c704cbe87103a47071975d67020e19a5f3a4c1d572c8f2bfa5ec12ff127b45nat, x15);
    let x16 = 0x3a94ad79747741ef78477446de31fb1a31dfa9eb6364c504d5673e9bae85efc2nat;
    let e16 = 2 * e15 + 1;
    lemma_power_mod_square_times(3nat, e15, n, x15, 0xf6da510f9a25d459b1840befe6c62ebf119768bc6df59707cc5bc96d3bed0ae7nat, x16);
    let x17 = 0x193bb43f8bfda1a04e46a519180ad427b311e31be70ac01285adac8f40303d8cnat;
    let e17 = 2 * e16;
    lemma_power_mod_square(3nat, e16, n, x16, 0xd67b4f412c214cd3c39bb8e37f151c437bdd1ea291cfaeb8baff91cfbaf5008nat, x17);
    let x18 = 0x4ee38b889ae92b463d8c317ada295d3133f284530719f0f377639dec2717d9dbnat;
    let e18 = 2 * e17 + 1;
    lemma_power_mod_square_times(3nat, e17, n, x17, 0x7762562f8a27756098ecdc1734e9d0aefabde609ef9a3cf2e60c182b865fb3bnat, x18);
    let x19 = 0x8d071f505c89ba6d0be8b2b77bfe0cb830db5df98e235938dd93871197c3b9bcnat;
    let e19 = 2 * e18;
    lemma_power_mod_square(3nat, e18, n, x18, 0x184f7347feb670ffb68c32ae8eb97642a841afa88ed593e7e817c0a2a662c9f3nat, x19);
    let x20 = 0xde6e31bc861bfcc97a9ac4647a96f2ab968b32af8532ca5878945e2563d1ad1enat;
    let e20 = 2 * e19 + 1;
    lemma_power_mod_square_times(3nat, e19, n, x19, 0xe9128a13c07c0396eb49922b671e37a32f007877e973b6ddbf8c9d1cefa6798enat, x20);
    let x21 = 0x60b64a8c6186a6fe4909541ced049f68e390db55b220b68e5b565e0ec4b43723nat;
    let e21 = 2 * e20;
    lemma_power_mod_square(3nat, e20, n, x20, 0xc1434db1c04580a6a3eb822c95ed3b4d0d16e0f384afedaff234c5f2b895006fnat, x21);
    let x22 = 0xec67cb0b3b0ff05f7b2e2c6eec197a977cecb13c4554e6b89f3f1710588a5590nat;
    let e22 = 2 * e21 + 1;
    lemma_power_mod_square_times(3nat, e21, n, x21, 0x6d9bad261b5f5a3273ef76378ca078cefa12c076ff15bbf285306ceb2edadc25nat, x22);
    let x23 = 0xff1f7049a905f3853f222176ab88a640330d52fe397dfabb069b5bed29739ebbnat;
    let e23 = 2 * e22;
    lemma_power_mod_square(3nat, e22, n, x22, 0xda4f8871b8f9ba2ce028b06e24ab94f837857be9a44f8f1fdca7a7cee299f7cbnat, x23);
    let x24 = 0xa3a274f7174422e47122e8aefb99bfc0c30642a3a7133f56df218213b0971626nat;
    let e24 = 2 * e23 + 1;
    lemma_power_mod_square_times(3nat, e23, n, x23, 0x2fabef0ad6573fb026858d97b32455e6100feadfcb07c8d296ea8e2beb058e86bnat, x24);
    let x25 = 0xb8c5a34ede5d4a5e3476d0e49ec553399cfcdd7a9a4ef5ed04839d1ccf8eaab3nat;
    let e25 = 2 * e24;
    lemma_power_mod_square(3nat, e24, n, x24, 0x6898480ae5cb123eb869503ee089a8b50cef96535eb08c7141a6a3c26b04aadfnat, x25);
    let x26 = 0x4b66d3133591860ec5ba2d32eb0ae6e518459878c0580b4d291a19864859f214nat;
    let e26 = 2 * e25 + 1;
    lemma_power_mod_square_times(3nat, e25, n, x25, 0x190161a025da199d8cd504707c2a7af5d767287ede68beb326747b624f83f3049nat, x26);
    let x27 = 0xa6f42af8998c2ebfe1a7a5893455796270ad73bd6cdbc5d53741ba1b7737dc7dnat;
    let e27 = 2 * e26 + 1;
    lemma_power_mod_square_times(3nat, e26, n, x26, 0x42a03aee682fe0c7184571a011bca15d814164149861a2863545746901544f3dnat, x27);
    let x28 = 0x6d2905c8c30bd701efebce5bac2d3823a6c166cc733b7991576cf37ea2ddb16nat;
    let e28 = 2 * e27;
    lemma_power_mod_square(3nat, e27, n, x27, 0x6ce1909c583d03a5d175f8b63aaf13824c65115553deaf90c9b3eeba1697997dnat, x28);
    let x29 = 0xcf68ccd5482c62b095d65bfbc2731e0000c91a0dd21593b0a0624aa1f40131d3nat;
    let e29 = 2 * e28;
    lemma_power_mod_square(3nat, e28, n, x28, 0x2e8bf57fd08803f2526eb7c162bdc7e65bc2a38d41b5a7e5cf187c628443bfnat, x29);
    let x30 = 0xccd48e0f53aa190bb07879a030c7c81304ca21f1b3d86439a6d8fc4c525371b9nat;
    let e30 = 2 * e29;
    lemma_power_mod_square(3nat, e29, n, x29, 0xa80aa627fbe70861ad490ec8415a38d9256fd6d82127a9cc473c34c661a6a4d0nat, x30);
    let x31 = 0x3bf70a77859b70b689ff3b398b8b4249f863c2de89a0e344f4630f953b01e93enat;
    let e31 = 2 * e30 + 1;
    lemma_power_mod_square_times(3nat, e30, n, x30, 0x1ebaa58ac10ac021f2d03c957cb88d18dd5edb8280bd15b46ea6f8d16f85db13bnat, x31);
    let x32 = 0xfeae75507647dff02974afebd09602f8f61c42ee7e1ca6295aab710b036c20c9nat;
    let e32 = 2 * e31;
    lemma_power_mod_square(3nat, e31, n, x31, 0xe0bcd384aa7062544e5ddcc65558f31f7ac1dcb5c36564d65bb4fd78db313b5nat, x32);
}

proof fn lemma_power_field_prime_over_13441_part_5()
    requires
        power_mod(3nat, 0x1380d8f96dd6e5f6be59059e5e81db64a8bfd5562nat, 0xfffffffffffffffffffffffffffffffffffffffffffffffffffffffefffffc2fnat) == 0xfeae75507647dff02974afebd09602f8f61c42ee7e1ca6295aab710b036c20c9nat,
    ensures
        power_mod(3nat, 0x1380d8f96dd6e5f6be59059e5e81db64a8bfd556255e5fb9enat, 0xfffffffffffffffffffffffffffffffffffffffffffffffffffffffefffffc2fnat) == 0xb207f3cf5d75e74cf36ff762e902895c2309b6d16ee8513a0a0f037d49440eb6nat,
{
    let n = 0xfffffffffffffffffffffffffffffffffffffffffffffffffffffffefffffc2fnat;
    let e0 = 0x1380d8f96dd6e5f6be59059e5e81db64a8bfd5562nat;
    let x0 = 0xfeae75507647dff02974afebd09602f8f61c42ee7e1ca6295aab710b036c20c9nat;
    let x1 = 0xfba5b6fd9de2bcf08dc36c68ac8b9ea9d1a1b7d58cedbafb7be9f21c3e653913nat;
    let e1 = 2 * e0;
    lemma_power_mod_square(3nat, e0, n, x0, 0xfd5ea7af59da0f7cd2ffba550987944b945d52d4f0235340c5f4816620fa21a2nat, x1);
    let x2 = 0xb260df1e5c539319a471bc378e17047a61e66edc14203f2a72fe71bd44cfd244nat;
    let e2 = 2 * e1 + 1;
    lemma_power_mod_square_times(3nat, e1, n, x1, 0x2e61b20502c01359554ca024ed13e8ad41e728a4a0fb02e553fe40f7dea188ab9nat, x2);
    let x3 = 0x79af9a3706bb0138534ae4e5b3becd5f7f676c8eeaf4047bacc2eb9e0689a64enat;
    let e3 = 2 * e2;
    lemma_power_mod_square(3nat, e2, n, x2, 0x7c4adaee519f5fb15b12d28e412c508313474c17870870ea0da85a959955a5denat, x3);
    let x4 = 0x645ca6ee25c9319b3bb9774e4d013c83ce19d7081ba424e773a6159ac9677052nat;
    let e4 = 2 * e3 + 1;
    lemma_power_mod_square_times(3nat, e3, n, x3, 0xad8668b4a97ab03f633acb8c373289727734aada4164fffb0b43560480cd2026nat, x4);
    let x5 = 0xdfa301b3c54bba2a70a19b4431afe5d88b8a8c1b96d24b625f37f78f4ebd179nat;
    let e5 = 2 * e4;
    lemma_power_mod_square(3nat, e4, n, x4, 0x275883f2758a0de8223d27104ea7e2579bf0840435d10c3179c6f43727fd4a25nat, x5);
    let x6 = 0xe01c1b69f418ddbfe43396b199c769f676364c88ee1904535a726a350ce4d47cnat;
    let e6 = 2 * e5 + 1;
    lemma_power_mod_square_times(3nat, e5, n, x5, 0x24a182e4715fe37a74d07dc59aea165a031d1991eb08b28acdd32c42d6b3b99nat, x6);
    let x7 = 0x6a868c735e831c6fcb3d65ecb54249cb6707f9c7251cf65d9499a41f0011a9e5nat;
    let e7 = 2 * e6;
    lemma_power_mod_square(3nat, e6, n, x6, 0xc431330f6d486ed7b53ffdabf723b1f4e3be31a5fcc3ef27d9bb3bff5b3cbec5nat, x7);
    let x8 = 0x3901893aad63a5051899d834428144ab3671e45a2812bf19d29f960255bf4299nat;
    let e8 = 2 * e7 + 1;
    lemma_power_mod_square_times(3nat, e7, n, x7, 0x84fb1914a04db8836765f2581422952d825e11e03da8fcac78c3138a6d1656aenat, x8);
    let x9 = 0x16720e886b6e7d0147ee40d57c5d23e9643294e14e727c6b8fdcb24ab9210b8enat;
    let e9 = 2 * e8 + 1;
    lemma_power_mod_square_times(3nat, e8, n, x8, 0x26150d5b77b2bfe1b49e45d21e1d8a663b1a09f495040e9a18c7b6a1023fff4bnat, x9);
    let x10 = 0x8c1a6cb0a48ae5677a6dbacb61de06ca48632f844aa4297ec9857da86b900f5bnat;
    let e10 = 2 * e9 + 1;
    lemma_power_mod_square_times(3nat, e9, n, x9, 0x5e767f12e5da101e0f68e3ef80cb642ba5c155cb5f5eaafdefc854ec475f4dfnat, x10);
    let x11 = 0x80e56f81b21cf91800aaddc5f9fb468b6e84f31b494679859a7b2a2e475a4418nat;
    let e11 = 2 * e10 + 1;
    lemma_power_mod_square_times(3nat, e10, n, x10, 0xe606bcd261fc9386e3ada462148221bbacee63af722fdb1ebbeac38fc40e887dnat, x11);
    let x12 = 0xc5aa4795e87466a90b0314c77715d60e05bb3a180763126871817512fb9592abnat;
    let e12 = 2 * e11;
    lemma_power_mod_square(3nat, e11, n, x11, 0x40e63d2260b75b17c2be37e8673f27b9d0c7f3d9327f2f60ad716f10dddd0b7bnat, x12);
    let x13 = 0x8f48c9ffcb126703e38f6bedceb8665f417319558ec41296262cfc7a0374b8a2nat;
    let e13 = 2 * e12;
    lemma_power_mod_square(3nat, e12, n, x12, 0x989f836fdee05f517ef9d1f4b3a14d8af74ddd69548c04f5b335fa5d5e7eeb19nat, x13);
    let x14 = 0xe22c75b3cc53722db9b0fe073f5d78c1dc81fa20664e504ca54695bd7246306bnat;
    let e14 = 2 * e13 + 1;
    lemma_power_mod_square_times(3nat, e13, n, x13, 0xf097331a0c6d61bc1fc9431d4870f8eec1c7fea77324c8ad4e9629adc6c0f1afnat, x14);
    let x15 = 0x33af56e34245a3f7699a99594d637c4e61d4c0c7bec92bfcb2a6534ac3ece3c7nat;
    let e15 = 2 * e14;
    lemma_power_mod_square(3nat, e14, n, x14, 0xc7d2878a20af6953a1b8e635b099ee928fea7889e756b1fcef493a2370a8cfaenat, x15);
    let x16 = 0x2d65e875bdd4d13edbf5f08a1c2682409e2180d4b1bb44f37861295e20fe419dnat;
    let e16 = 2 * e15 + 1;
    lemma_power_mod_square_times(3nat, e15, n, x15, 0x1f4dfe235dcd7e70697aed0948eb1dbd67eb6887770f5eafe259cbcfd5a5ef6anat, x16);
    let x17 = 0xf98b5456e057b2e2a99294922459fca30fcda6f725b0719a011a7dfde10e2d84nat;
    let e17 = 2 * e16 + 1;
    lemma_power_mod_square_times(3nat, e16, n, x16, 0x1826f4dfee2ead22047173efacbf499e9926d695d27100e326d6306cfec69b59nat, x17);
    let x18 = 0xffd6ebc1bedb9b2955bd009589f0742982f5e9b5d20118861664a96a84cb17a8nat;
    let e18 = 2 * e17 + 1;
    lemma_power_mod_square_times(3nat, e17, n, x17, 0x2d9c101b117a20dcab6c9729277a20a0c5241b0027328b2aecb76149f675791f8nat, x18);
    let x19 = 0x296eb64c1ae16c6a69eff705e5cbe1ebafe823d74ad800ed8776f2a083c97c57nat;
    let e19 = 2 * e18 + 1;
    lemma_power_mod_square_times(3nat, e18, n, x18, 0x2ff099a50f1c597e4d29748c610b02ea84e1469585d2d3e65a99eb02bf83030e7nat, x19);
    let x20 = 0x2c9a66de6edf95811c1fe2f7718c4e98f9bccf4e88f2a76e2f33724df62c10b0nat;
    let e20 = 2 * e19 + 1;
    lemma_power_mod_square_times(3nat, e19, n, x19, 0x141df2d0a37ad1e3409c7108eea24a494f9d36f6d771c61653596ae723ff406dnat, x20);
    let x21 = 0xdb82e6486fc9d467d77adb4e8f0d2838bb48ba7ab5b83e356eed3f7ce3de5436nat;
    let e21 = 2 * e20 + 1;
    lemma_power_mod_square_times(3nat, e20, n, x20, 0x175051752930c608b7cfa76b39f4d9c549ed45bb24bce0ee9c3c89cd933cd156nat, x21);
    let x22 = 0xfde971c7ed51cdd76d04485c01803294ea45088ff512fe4bb81cf0d780b9e7a4nat;
    let e22 = 2 * e21;
    lemma_power_mod_square(3nat, e21, n, x21, 0xbc3938ee9ffb17c32025c2ea63df61871c996e5e59429dd3e88df319e6bbf840nat, x22);
    let x23 = 0xf7437f7366c669943d28c5c35d1048436badd0ed7c83f707b6e644b89dd4f5a5nat;
    let e23 = 2 * e22 + 1;
    lemma_power_mod_square_times(3nat, e22, n, x22, 0x2f385bf5072bb623c999107bedc0274cfa9c48f00a4da07add92aa50085938165nat, x23);
    let x24 = 0xd6722d867c53040ae29da98ab594f184c008dfa799b4cfc458ff7b0436e42a07nat;
    let e24 = 2 * e23 + 1;
    lemma_power_mod_square_times(3nat, e23, n, x23, 0x2cc79f535f28b1ec109aa043892d70b7e853fb5e66b449c8195790361b2e6903cnat, x24);
    let x25 = 0x5a2caa0e88f6d9e442865c3a6939825c82da2757eb260d19fb89c50d3d2f1d89nat;
    let e25 = 2 * e24 + 1;
    lemma_power_mod_square_times(3nat, e24, n, x24, 0x21ae9451c432e39281dd20551354d0a89ae953975b9758e1c0435e1414237d516nat, x25);
    let x26 = 0x1c3015b722ea6688887c0e4c8ae36a42395a5fc93c7d99f397ed8648e247010nat;
    let e26 = 2 * e25;
    lemma_power_mod_square(3nat, e25, n, x25, 0x1fc36f5d1e43f4ca82e789e48213a6176843b019f292d04854c8059f9ea20b8fnat, x26);
    let x27 = 0x4c0a956f26e36fa2f0f689c4e9f38d6ddfd39bc4298581589bd0f590bbd91a75nat;
    let e27 = 2 * e26;
    lemma_power_mod_square(3nat, e26, n, x26, 0x31a8dc83627ed11b5c2691975b660e8d6bc9a3694bd486a8ecef7a88e1865nat, x27);
    let x28 = 0x1a37f95a79d0dff711a44a64d6c5cc99f5403c631b8c026f2acffd35212c2e9anat;
    let e28 = 2 * e27 + 1;
    lemma_power_mod_square_times(3nat, e27, n, x27, 0x43c2db7e0901f6bee4ac002d82ee6ca954e191ce3cbbd86ae783427f5a5565ffnat, x28);
    let x29 = 0x2489de49be909bd73bc06514cd640abbaa1de14c26fbeeb3fd470e82971ecb7anat;
    let e29 = 2 * e28 + 1;
    lemma_power_mod_square_times(3nat, e28, n, x28, 0x80e40aa697fb291e0c683a825e1d735676aba5e02fb2ebf5a2d77c6e8809e2enat, x29);
    let x30 = 0x7db69bcdb8a45ed751ee4f09a6ea86a6476daf66398cca2b568cd5d7d10ecc0fnat;
    let e30 = 2 * e29 + 1;
    lemma_power_mod_square_times(3nat, e29, n, x29, 0xfa5324d3c9fdb151f5ba13cf04e87f3b8809c38a02d578df6b7c25126043733nat, x30);
    let x31 = 0xfeda95ab7487e17528bcc1c5bb9bc54f7933d89247f25809dda82e30135d3df4nat;
    let e31 = 2 * e30 + 1;
    lemma_power_mod_square_times(3nat, e30, n, x30, 0xb933833a68f173b83651a3e454af084c171992394063a8546bf9ef65a826e781nat, x31);
    let x32 = 0xb207f3cf5d75e74cf36ff762e902895c2309b6d16ee8513a0a0f037d49440eb6nat;
    let e32 = 2 * e31;
    lemma_power_mod_square(3nat, e31, n, x31, 0xfdb67ba37ac1234b8764f26047d2d94b55d8acabc9dde1506dcb9ac9a5136346nat, x32);
}

proof fn lemma_power_field_prime_over_13441_part_6()
    requires
        power_mod(3nat, 0x1380d8f96dd6e5f6be59059e5e81db64a8bfd556255e5fb9enat, 0xfffffffffffffffffffffffffffffffffffffffffffffffffffffffefffffc2fnat) == 0xb207f3cf5d75e74cf36ff762e902895c2309b6d16ee8513a0a0f037d49440eb6nat,
    ensures
        power_mod(3nat, 0x1380d8f96dd6e5f6be59059e5e81db64a8bfd556255e5fb9e8f43f9d3nat, 0xfffffffffffffffffffffffffffffffffffffffffffffffffffffffefffffc2fnat) == 0xb336110888502fda40c531714232467299ad92dce22a1ea3508a06a065253f09nat,
{
    let n = 0xfffffffffffffffffffffffffffffffffffffffffffffffffffffffefffffc2fnat;
    let e0 = 0x1380d8f96dd6e5f6be59059e5e81db64a8bfd556255e5fb9enat;
    let x0 = 0xb207f3cf5d75e74cf36ff762e902895c2309b6d16ee8513a0a0f037d49440eb6nat;
    let x1 = 0x86dac25e2bee9401aec39547c66ad2db84351c40c40c30c9deae0d8b17682d2fnat;
    let e1 = 2 * e0 + 1;
    lemma_power_mod_square_times(3nat, e0, n, x0, 0x1736d2de2d287307f4dec1b49690dd608544d56c6082e941df0db2aa528f0c093nat, x1);
    let x2 = 0x4cdd86423a1950546b97d37d7e43de86951ea7e68b9223460f0265496898ee38nat;
    let e2 = 2 * e1;
    lemma_power_mod_square(3nat, e1, n, x1, 0x4709be6a31f3727fb8e3a78e4140c60131d9bf68b4b2cfd33fd27e538aee8ee7nat, x2);
    let x3 = 0x4775ab721dce6a17660d45dc92b3ceeb34fb893eb596fd27c65f708b7265acednat;
    let e3 = 2 * e2;
    lemma_power_mod_square(3nat, e2, n, x2, 0x171447686740bd5b53f930c71fc768c41d9e34519048a1932c4633f807a6721dnat, x3);
    let x4 = 0xb987f4e1b04382753edd572b34424b8a7344876c8296eb28ce81f2c6d134efa4nat;
    let e4 = 2 * e3;
    lemma_power_mod_square(3nat, e3, n, x3, 0x13f27b2f75a964364508ce870ae35b675e19180cf5fecb35a8bfc22671f01e4bnat, x4);
    let x5 = 0xc8cf1595b27d50d76b8fcb5d725f4e1e3071d172ef3d932bf5e5faca3498482fnat;
    let e5 = 2 * e4 + 1;
    lemma_power_mod_square_times(3nat, e4, n, x4, 0x19361586723196a2b27b3c5a2b7e329c519bc0d83670322df4c49f6585c041fcfnat, x5);
    let x6 = 0x4385fc7fe52ec179ee8c53efda36a43b15283cd979039fd03cdc34b8fcf0ce7bnat;
    let e6 = 2 * e5 + 1;
    lemma_power_mod_square_times(3nat, e5, n, x5, 0x1d88cabb9726513617213bd6bea2adc5d9f376e02c58eabc05bd21631197fb918nat, x6);
    let x7 = 0x135880ebce06a959e3d28b447c71123540f0c6f4209fc12a2437a67c24d13cc5nat;
    let e7 = 2 * e6 + 1;
    lemma_power_mod_square_times(3nat, e6, n, x6, 0x356e38e1d7b3f4dc4e180f23e43c120fac50226da6ff4b99e02763f8d3c9d85anat, x7);
    let x8 = 0xf76eafcb5f59d26e01fe81867580185f794a7cee8a7be6537fb5795173ee61d0nat;
    let e8 = 2 * e7 + 1;
    lemma_power_mod_square_times(3nat, e7, n, x7, 0x462c533aadddad6ff043aff4ccb84f0ada79754e6818c80492e0bf8889e2cf5nat, x8);
    let x9 = 0xea8276ea63d077e851c0e0bbd67ab12fef351caf117b7aa4e78b3328c274cc5bnat;
    let e9 = 2 * e8;
    lemma_power_mod_square(3nat, e8, n, x8, 0xef26c715fd7cf32e480cbf8b87f25aa3c681cfd924e8838ddc35afbae4b6fb6bnat, x9);
    let x10 = 0xd9e7711232ac88689e2852db60636db7b66add453dbfc2e0d8cc7f70d20f32e4nat;
    let e10 = 2 * e9 + 1;
    lemma_power_mod_square_times(3nat, e9, n, x9, 0x284784ba4734a30a7e3e7bbeef6afe72a92237901fa40529bee672531edcd7f89nat, x10);
    let x11 = 0x5b9cd6a78d17d002eb4e7ee1f1f2a4bbfc61de51b42167f13ddc81fbb4a0309bnat;
    let e11 = 2 * e10;
    lemma_power_mod_square(3nat, e10, n, x10, 0xb97a2eee1ab104a703a52d23bb2d6ebb8c968e9aa5d81c0fccb22067a087269bnat, x11);
    let x12 = 0x610bf5b2ffe07d71a4691e692c7812df88bdb4c00cc22049d7c43e4fcf4b72c2nat;
    let e12 = 2 * e11;
    lemma_power_mod_square(3nat, e11, n, x11, 0x20c8e0b16e7f7074c972186fc2ac2a6985577f53151141cb8a855aa5a5e01d99nat, x12);
    let x13 = 0x897a0607a72b1eb76f50a6da2003472ab869ca8077d3fc0687cb7d34463913f7nat;
    let e13 = 2 * e12;
    lemma_power_mod_square(3nat, e12, n, x12, 0x24ca10c0af1a37476a66bf925101b98aa4ab0dfdead87be67852473d9cb7b583nat, x13);
    let x14 = 0x754b0d1edc7eb879dba7b9c65b1b4198c93e1c10a945391048ad028834521d19nat;
    let e14 = 2 * e13;
    lemma_power_mod_square(3nat, e13, n, x13, 0x49d3d49df05bd80a32effc0b04ef7f095578a1f59922639c17ae31f16533d248nat, x14);
    let x15 = 0xc967e1617a9a1e304bf2d6bcdda2f5ec29c3ff004c1e1a1bad7db4f3cac983c7nat;
    let e15 = 2 * e14 + 1;
    lemma_power_mod_square_times(3nat, e14, n, x14, 0xa1390ffcb2e786f64d970640b44da5837b53c63eb72b0036be4807e8920b3834nat, x15);
    let x16 = 0x4734bcb12772550306b27a7f183fccfe2cc8f77d13de9f54a5c2183da55baab8nat;
    let e16 = 2 * e15 + 1;
    lemma_power_mod_square_times(3nat, e15, n, x15, 0x1db5cde36a0297e278c1a6ed27cb37755056981ce68e3359766d009e45d426495nat, x16);
    let x17 = 0x69fe51ee01c3aad99eaf20111c78c0457ecf772b4121a080d30ba643ef26771enat;
    let e17 = 2 * e16 + 1;
    lemma_power_mod_square_times(3nat, e16, n, x16, 0x3b6ae29664ca5a6521f344513a4df7430514d623841ae8c815be3e19d1dd31fenat, x17);
    let x18 = 0xf2c61811b1f7a58c74e44d34d36eae639fd0ca05107010e99636689d659e9663nat;
    let e18 = 2 * e17 + 1;
    lemma_power_mod_square_times(3nat, e17, n, x17, 0x83a7d393c3e37677f1df2348e80e99e1a0c40fb953c153d7ce30d6cbcc045b27nat, x18);
    let x19 = 0x11ed917e78a953a99b1daef5d80489e6d01ff5472909aabb44997ae157a1c004nat;
    let e19 = 2 * e18 + 1;
    lemma_power_mod_square_times(3nat, e18, n, x18, 0x2b2b15c60165077fb8fc1788c33f449e3fdb33e346dd146c780553b4a28e3f5d9nat, x19);
    let x20 = 0x8b2ac138fb15b69805cc1a972e8f26f28042bb9e2551c5d7c75351cbe98b4b9bnat;
    let e20 = 2 * e19 + 1;
    lemma_power_mod_square_times(3nat, e19, n, x19, 0x3c43d5c88a73d64bce473e879fe06ca0248f7e849f61c2383902f15c5b3967bnat, x20);
    let x21 = 0x2ee80ed6512f29ff6a77be6956e6f5aa7cac38180b38caf549a7ca05e66cec70nat;
    let e21 = 2 * e20 + 1;
    lemma_power_mod_square_times(3nat, e20, n, x20, 0xe2f65ee78b98cc0ba7c6b6fc464e0b46c1df35713e1a2e389bb3bb9ff5c030d5nat, x21);
    let x22 = 0xc9c859886dd3f0dbf51bc78c8ab489bba5c94c17e93d66e08c95c1221f196a4cnat;
    let e22 = 2 * e21;
    lemma_power_mod_square(3nat, e21, n, x21, 0x89837afea7c3ce0e6650966273b0deb4c4fc0a09780881d248e908cf996338cnat, x22);
    let x23 = 0x10dead8becea2db93dd11417a2d4b04833837ed9803d5365450d5c00da3bff0enat;
    let e23 = 2 * e22;
    lemma_power_mod_square(3nat, e22, n, x22, 0x9f0c396440f29073fc5b9f767798d46ec547750decbb261ba729d792d917a61enat, x23);
    let x24 = 0xaa354a5cfe76e6743fbc9413a07b3b3126d6310f35316f85de13d2dc12f7d5b1nat;
    let e24 = 2 * e23 + 1;
    lemma_power_mod_square_times(3nat, e23, n, x23, 0x355c628d5d7c3aa4913e9160501b719cd77d0964ed88bd98a2f5bd598fd7355nat, x24);
    let x25 = 0xb5e636d9bc9b86df59b3c59a97a5472933b1880e569f65b75877b499f198539anat;
    let e25 = 2 * e24 + 1;
    lemma_power_mod_square_times(3nat, e24, n, x24, 0x15380759226338497513d8d0a768bda93865971e81f6ac9cb44975210d4451fc7nat, x25);
    let x26 = 0x6bb4b9b5a498771ad8a8dd152794b1a973501c3a0b656e5dbfe2dde169e50f4cnat;
    let e26 = 2 * e25 + 1;
    lemma_power_mod_square_times(3nat, e25, n, x25, 0x183be09c37f1a3ad341193492b2deff16a854c84bd71f7781954cb21585bd4760nat, x26);
    let x27 = 0x1a3bfbe9f50f66977558e96572b8671c7b387b6144a06db25a4f2eb09c8b6f7fnat;
    let e27 = 2 * e26;
    lemma_power_mod_square(3nat, e26, n, x26, 0x2d5092d385bef2be746ec2c9100ac4c3b8c2be4a090e396b737b20d36a5b18bfnat, x27);
    let x28 = 0x862399bfcec0e616bfcae3aa2232a752ec7ed01217e6e9d5c750d150599f0256nat;
    let e28 = 2 * e27 + 1;
    lemma_power_mod_square_times(3nat, e27, n, x27, 0x810b7acd28816e4c457247db12d4d874c7a5a8fc1750b72e0a6d0ece2f7ede3nat, x28);
    let x29 = 0xd607cbe5d63fb2320df3ab9224a72aaf041047dcef977b7d5ef99af814cd08denat;
    let e29 = 2 * e28;
    lemma_power_mod_square(3nat, e28, n, x28, 0x464949e8333b4e7778da62a99eca8f2589ba41659841b12038ce8bd7a46414danat, x29);
    let x30 = 0xd8eb4f32a2e642fe3a8937ada1e89fa2060fad43bed6ad1f48e3b650bbea271dnat;
    let e30 = 2 * e29;
    lemma_power_mod_square(3nat, e29, n, x29, 0xb2f109210b2a858973eee39dff501c0eb6dfcba6cd7db8402db8109787f37049nat, x30);
    let x31 = 0xe1eef14d2d9a51128df16ace5baf85eaff0697e0861a427c645b66a6ce6914c4nat;
    let e31 = 2 * e30 + 1;
    lemma_power_mod_square_times(3nat, e30, n, x30, 0x22769c9cfd713cb0e796effa4f530ebb237254920c291d3cff73d5102075e7199nat, x31);
    let x32 = 0xb336110888502fda40c531714232467299ad92dce22a1ea3508a06a065253f09nat;
    let e32 = 2 * e31 + 1;
    lemma_power_mod_square_times(3nat, e31, n, x31, 0x25631a98dab555db71ed2d5b44742951b6922b8208d176dd267c5e4b76282f289nat, x32);
}

proof fn lemma_power_field_prime_over_13441_part_7()
    requires
        power_mod(3nat, 0x1380d8f96dd6e5f6be59059e5e81db64a8bfd556255e5fb9e8f43f9d3nat, 0xfffffffffffffffffffffffffffffffffffffffffffffffffffffffefffffc2fnat) == 0xb336110888502fda40c531714232467299ad92dce22a1ea3508a06a065253f09nat,
    ensures
        power_mod(3nat, 0x4e0363e5b75b97daf96416797a076d92a2ff555895797ee7a3d0fe74c0d2enat, 0xfffffffffffffffffffffffffffffffffffffffffffffffffffffffefffffc2fnat) == 0x68105a205ec4e9ceb2b1dd5285ab623cf09e207bad567e15482d24e582ff833fnat,
{
    let n = 0xfffffffffffffffffffffffffffffffffffffffffffffffffffffffefffffc2fnat;
    let e0 = 0x1380d8f96dd6e5f6be59059e5e81db64a8bfd556255e5fb9e8f43f9d3nat;
    let x0 = 0xb336110888502fda40c531714232467299ad92dce22a1ea3508a06a065253f09nat;
    let x1 = 0xc7dd432d409b7df954e3fc8334c6728a8daeeea953c2a15e13cb1425eaac821dnat;
    let e1 = 2 * e0;
    lemma_power_mod_square(3nat, e0, n, x0, 0x7d74a73d1f5bc722da9a5c89516a3b3ad142f644432ceea375cf45498c96060cnat, x1);
    let x2 = 0x446c1ed8027094a5d380d2a25fcda36a9730578598ca6cf06ab29e6c149d7e18nat;
    let e2 = 2 * e1;
    lemma_power_mod_square(3nat, e1, n, x1, 0x9c09bdad683402224d5fedbb99455287debc450d05e94d981e8f88e87f99289fnat, x2);
    let x3 = 0xf97a8ac996f363f5aed41ebc365f6d46773884342dabf9346b2b449221641662nat;
    let e3 = 2 * e2;
    lemma_power_mod_square(3nat, e2, n, x2, 0x12499e0ccb4534cc051e8dd4155ed0c27d7de9342d3ffcfe437e1751cf634482nat, x3);
    let x4 = 0xfc4744d34e07044f0f2ed1a278acc41c130c6f9036524af266e725ad8e6a892bnat;
    let e4 = 2 * e3;
    lemma_power_mod_square(3nat, e3, n, x3, 0xf31f9ca4bb074debff3d3ecb7bb70f6a90f3a14c55d894e3b4437ea2b9fc4df7nat, x4);
    let x5 = 0x800071222dc465573127f340c9355d6d4ee1857fcf856321f5d3d21c70dfb546nat;
    let e5 = 2 * e4;
    lemma_power_mod_square(3nat, e4, n, x4, 0xf89c63574154083d7b61f9e575e4e10d10d2191090cd7f9700bdb825bb4fdb7dnat, x5);
    let x6 = 0x5b6232f16fcc41d25a3760b2b5d47ed4d859970d5f78b6952df066c30519ba30nat;
    let e6 = 2 * e5;
    lemma_power_mod_square(3nat, e5, n, x5, 0x400071225fc3964ec2f87a1b197a6771180278e308494b7c99c1d1edabbf394cnat, x6);
    let x7 = 0x7971701630b1713a48f7ae9ac76d634370279856f0d094d2c7bcde8969a691acnat;
    let e7 = 2 * e6 + 1;
    lemma_power_mod_square_times(3nat, e6, n, x6, 0x61dce1a8116807a83ee7eb79e39f5f6961f72c2e5a7fcf7345df214b603112ecnat, x7);
    let x8 = 0xe4fe79376bb250b1c85bf7b5228e72ab6858a5dec7444bbf6ff426ffa61956bnat;
    let e8 = 2 * e7 + 1;
    lemma_power_mod_square_times(3nat, e7, n, x7, 0xacd54aab5c1672a42bcc1b1609a7937ffb99f3a6a0dad292e120c743456deccbnat, x8);
    let x9 = 0xdca7ea12a139622c159b975d8b57a612998161b310e86207acf19415e84dfeb3nat;
    let e9 = 2 * e8;
    lemma_power_mod_square(3nat, e8, n, x8, 0xccd644df7b34c562d1e2af2e26d313126930f9c33c9a060231272099a3c4danat, x9);
    let x10 = 0x9cb2dde0ed0701396e3cebe6b87b44ca821325e72e6305e8cd21e0de3ec4000anat;
    let e10 = 2 * e9 + 1;
    lemma_power_mod_square_times(3nat, e9, n, x9, 0x23a931959be4d1d157b31b79c2bc78c7a48748e5f154ac268d7bf8faed1b3e25fnat, x10);
    let x11 = 0xd181056ae9434e9e3725e0b946138a3cee277802c73294886adab2f64b8b5b47nat;
    let e11 = 2 * e10;
    lemma_power_mod_square(3nat, e10, n, x10, 0x5fea7b636df84619720cd184beda4966fd45d750b0634384e209aae5d1fc6473nat, x11);
    let x12 = 0xd1483e60535f32d9980cc90d689b265fdf529c04a563fac1a2d715a8e1fb3c11nat;
    let e12 = 2 * e11;
    lemma_power_mod_square(3nat, e11, n, x11, 0xab73ebdf06bc55f632da4d1664a279dbaff728ec442082cdf6d6345549604060nat, x12);
    let x13 = 0x413132f86302b4f1cea276ae880f2e220855e3a088c28d877219507fe02cd2eenat;
    let e13 = 2 * e12 + 1;
    lemma_power_mod_square_times(3nat, e12, n, x12, 0x201451eb54889699deb8a6c134686f2934b79b4ec80a869ceb9a75d2be575189bnat, x13);
    let x14 = 0xc6eb9a4f42c63d78d87a0a08cfeef9578daf1194dc444b01d81cccf0088007b2nat;
    let e14 = 2 * e13;
    lemma_power_mod_square(3nat, e13, n, x13, 0x109a0556af833e9919b7bba83a87bbda803a1ba23b8c27e08415978c629ced0enat, x14);
    let x15 = 0xfecf685eb287bf1beeadde99e81a7291e38f61614b728bb3f5639fa0381fedf0nat;
    let e15 = 2 * e14 + 1;
    lemma_power_mod_square_times(3nat, e14, n, x14, 0x1cfb3e295d1781bc5bd5d1975d79a70a4d776696c2ec9268fd4d347ce986f7964nat, x15);
    let x16 = 0xc6c76d48d40b474448555335d177f4eab2bb2fbc9e118a56fecf0ec3394bf549nat;
    let e16 = 2 * e15 + 1;
    lemma_power_mod_square_times(3nat, e15, n, x15, 0x2f8e0b17199e5808920cf5141b831b5978b656975406bea261b3a05b14628bcf9nat, x16);
    let x17 = 0x8319eadb3993f2793461340181713ad15e6c42c801797cf3cf7c75d6abd0af2dnat;
    let e17 = 2 * e16 + 1;
    lemma_power_mod_square_times(3nat, e16, n, x16, 0x1cf0b493739a69f2ff62613b8c62b0073c09faf2a6c3da884ddd6de94a62f479anat, x17);
    let x18 = 0x68105a205ec4e9ceb2b1dd5285ab623cf09e207bad567e15482d24e582ff833fnat;
    let e18 = 2 * e17;
    lemma_power_mod_square(3nat, e17, n, x17, 0x432388fc13342a0b6ea15cd15a55b6baf51558bd7ce94f4e2474d2e93867c376nat, x18);
}

proof fn lemma_power_field_prime_over_13441()
    ensures
        power_mod(3nat, 0x4e0363e5b75b97daf96416797a076d92a2ff555895797ee7a3d0fe74c0d2enat, 0xfffffffffffffffffffffffffffffffffffffffffffffffffffffffefffffc2fnat) == 0x68105a205ec4e9ceb2b1dd5285ab623cf09e207bad567e15482d24e582ff833fnat,
{
    lemma_power_mod_first(3nat, 0xfffffffffffffffffffffffffffffffffffffffffffffffffffffffefffffc2fnat);
    lemma_power_field_prime_over_13441_part_0();
    lemma_power_field_prime_over_13441_part_1();
    lemma_power_field_prime_over_13441_part_2();
    lemma_power_field_prime_over_13441_part_3();
    lemma_power_field_prime_over_13441_part_4();
    lemma_power_field_prime_over_13441_part_5();
    lemma_power_field_prime_over_13441_part_6();
    lemma_power_field_prime_over_13441_part_7();
}

proof fn lemma_power_field_prime_over_205115282021455665897114700593932402728804164701536103180137503955397371_part_0()
    requires
        power_mod(3nat, 1nat, 0xfffffffffffffffffffffffffffffffffffffffffffffffffffffffefffffc2fnat) == 3nat,
    ensures
        power_mod(3nat, 564522nat, 0xfffffffffffffffffffffffffffffffffffffffffffffffffffffffefffffc2fnat) == 0x212e9abc82e8709493c087cd14e2ebd253ecf3cd0abd68a2b7b766fcc2aa4ca6nat,
{
    let n = 0xfffffffffffffffffffffffffffffffffffffffffffffffffffffffefffffc2fnat;
    let e0 = 1nat;
    let x0 = 3nat;
    let x1 = 9nat;
    let e1 = 2 * e0;
    lemma_power_mod_square(3nat, e0, n, x0, 0nat, x1);
    let x2 = 81nat;
    let e2 = 2 * e1;
    lemma_power_mod_square(3nat, e1, n, x1, 0nat, x2);
    let x3 = 6561nat;
    let e3 = 2 * e2;
    lemma_power_mod_square(3nat, e2, n, x2, 0nat, x3);
    let x4 = 0x7b285c3nat;
    let e4 = 2 * e3 + 1;
    lemma_power_mod_square_times(3nat, e3, n, x3, 0nat, x4);
    let x5 = 0x3b3fcef3103289nat;
    let e5 = 2 * e4;
    lemma_power_mod_square(3nat, e4, n, x4, 0nat, x5);
    let x6 = 0xdb6794b8c6558de83727119cd51nat;
    let e6 = 2 * e5;
    lemma_power_mod_square(3nat, e5, n, x5, 0nat, x6);
    let x7 = 0x2341f271773446cfc5fd681c520567bc65c783158aea3fdc1767ae3nat;
    let e7 = 2 * e6 + 1;
    lemma_power_mod_square_times(3nat, e6, n, x6, 0nat, x7);
    let x8 = 0x51a01c803a6064191fe237f91f66b2ffdbbf96a82b57260abfe2a058a763037fnat;
    let e8 = 2 * e7 + 1;
    lemma_power_mod_square_times(3nat, e7, n, x7, 0xe914bd81d74a2b62d8c6e398440ab7b701296ced03664nat, x8);
    let x9 = 0x5433425162d113fd4aeb878efd045efcae0d9d8e97c0953316c2ddf2d9f83a9cnat;
    let e9 = 2 * e8 + 1;
    lemma_power_mod_square_times(3nat, e8, n, x8, 0x4e1422865932ce7d9b8b43d4c8804c1f191352987bc1a69c60371eb908082949nat, x9);
    let x10 = 0x4fbfc2fdb540a912b5c59648d200f069c89810ea704ea246c6b0036022bffcddnat;
    let e10 = 2 * e9;
    lemma_power_mod_square(3nat, e9, n, x9, 0x1bb1adc8e674a53facd869c846756d1efb6b5593a5691eeb89087635c0ddf53dnat, x10);
    let x11 = 0x1436a202ecf71131c50bf71d7d16f0047f743705d8b735c52cefa43bba704588nat;
    let e11 = 2 * e10 + 1;
    lemma_power_mod_square_times(3nat, e10, n, x10, 0x4a87bdf762e7a2f2c97aac7221f01002c995e841381ae2f25110a8456ad64a9dnat, x11);
    let x12 = 0xfc0e5126691fef516af99858b4b6a55e01f93aa28879d06948ddbbb9f06273b6nat;
    let e12 = 2 * e11;
    lemma_power_mod_square(3nat, e11, n, x11, 0x19894f934ca46dc48c0b7f9076d7c82c88cfa9623b4fa9353cae67e9af66f96nat, x12);
    let x13 = 0x3afd06756821857bbc5f24e0e26e7707f634f817729e7043398faa743d767b4enat;
    let e13 = 2 * e12;
    lemma_power_mod_square(3nat, e12, n, x12, 0xf82c309098e3b2f00d9adf65a12e7d4af7debed06f2c5d76fb8d7a91e55303canat, x13);
    let x14 = 0x2ba37081d388417ebe2960cc04ad6a1f9205e7a3e2338c6d46627e079cd3237dnat;
    let e14 = 2 * e13 + 1;
    lemma_power_mod_square_times(3nat, e13, n, x13, 0x28c6e308e63a2c67798b84a2f90c9970047ad01437231ac60079f33aa3de2e61nat, x14);
    let x15 = 0x561cfd114eabb168fb52f1e38233f2c0b6c3bf0613b6e8246e3c3111523d5545nat;
    let e15 = 2 * e14;
    lemma_power_mod_square(3nat, e14, n, x14, 0x770502413d5007212b2dbd23caa25081c81adb0d110286dfcfea446942a417cnat, x15);
    let x16 = 0x4d55d72540399213e30d9055bd9d508587761dcc23deb0bb37c70e3daf846622nat;
    let e16 = 2 * e15 + 1;
    lemma_power_mod_square_times(3nat, e15, n, x15, 0x56e677efe46f5644be6489deac277e7c9aad6a4b2d7188d6993fa5780b394ba7nat, x16);
    let x17 = 0x3399afed8d283961fb150c40c3574f18bdaa1426db0a83d790ade949536f9364nat;
    let e17 = 2 * e16;
    lemma_power_mod_square(3nat, e16, n, x16, 0x175cc034fc2edf674be966f22918deeaf3e5f2806213be1800c182c7b0b320e0nat, x17);
    let x18 = 0x353b1a21baf9a5e56a80caae085d29a296be94d5f41f785633ada3d3f88c80eanat;
    let e18 = 2 * e17 + 1;
    lemma_power_mod_square_times(3nat, e17, n, x17, 0x1f33c9153b462d17ddc424cc1b17d0bab413220a7f784195c54ae159c010b89anat, x18);
    let x19 = 0x212e9abc82e8709493c087cd14e2ebd253ecf3cd0abd68a2b7b766fcc2aa4ca6nat;
    let e19 = 2 * e18;
    lemma_power_mod_square(3nat, e18, n, x18, 0xb11867705a26c2fe87782969c9be6b07e87a884822c4472f580a965ba55e522nat, x19);
}

proof fn lemma_power_field_prime_over_205115282021455665897114700593932402728804164701536103180137503955397371()
    ensures
        power_mod(3nat, 564522nat, 0xfffffffffffffffffffffffffffffffffffffffffffffffffffffffefffffc2fnat) == 0x212e9abc82e8709493c087cd14e2ebd253ecf3cd0abd68a2b7b766fcc2aa4ca6nat,
{
    lemma_power_mod_first(3nat, 0xfffffffffffffffffffffffffffffffffffffffffffffffffffffffefffffc2fnat);
    lemma_power_field_prime_over_205115282021455665897114700593932402728804164701536103180137503955397371_part_0();
}

proof fn lemma_certificate_field_prime()
    ensures
        is_certificate(0xfffffffffffffffffffffffffffffffffffffffffffffffffffffffefffffc2fnat, 3nat, seq![2nat, 3nat, 7nat, 13441nat, 0x1db8260e5e3b460a46a0088fccf6a3a5936d75d89a776d4c0da4f338aafbnat]),
{
    let n = 0xfffffffffffffffffffffffffffffffffffffffffffffffffffffffefffffc2fnat;
    let factors = seq![2nat, 3nat, 7nat, 13441nat, 0x1db8260e5e3b460a46a0088fccf6a3a5936d75d89a776d4c0da4f338aafbnat];
    lemma_small_primes();
    lemma_small_primes();
    lemma_small_primes();
    lemma_prime_13441();
    lemma_prime_205115282021455665897114700593932402728804164701536103180137503955397371();
    lemma_power_field_prime_over_2();
    lemma_fundamental_div_mod_converse(0xfffffffffffffffffffffffffffffffffffffffffffffffffffffffefffffc2eint, 2int, 0x7fffffffffffffffffffffffffffffffffffffffffffffffffffffff7ffffe17int, 0);
    lemma_power_field_prime_over_3();
    lemma_fundamental_div_mod_converse(0xfffffffffffffffffffffffffffffffffffffffffffffffffffffffefffffc2eint, 3int, 0x55555555555555555555555555555555555555555555555555555554fffffebaint, 0);
    lemma_power_field_prime_over_7();
    lemma_fundamental_div_mod_converse(0xfffffffffffffffffffffffffffffffffffffffffffffffffffffffefffffc2eint, 7int, 0x249249249249249249249249249249249249249249249249249249246db6dae2int, 0);
    lemma_power_field_prime_over_13441();
    lemma_fundamental_div_mod_converse(0xfffffffffffffffffffffffffffffffffffffffffffffffffffffffefffffc2eint, 13441int, 0x4e0363e5b75b97daf96416797a076d92a2ff555895797ee7a3d0fe74c0d2eint, 0);
    lemma_power_field_prime_over_205115282021455665897114700593932402728804164701536103180137503955397371();
    lemma_fundamental_div_mod_converse(0xfffffffffffffffffffffffffffffffffffffffffffffffffffffffefffffc2eint, 0x1db8260e5e3b460a46a0088fccf6a3a5936d75d89a776d4c0da4f338aafbint, 564522int, 0);
    lemma_power_mod_square(3nat, 0x7fffffffffffffffffffffffffffffffffffffffffffffffffffffff7ffffe17nat, n, 0xfffffffffffffffffffffffffffffffffffffffffffffffffffffffefffffc2enat, 0xfffffffffffffffffffffffffffffffffffffffffffffffffffffffefffffc2dnat, 1);
    let f0 = Seq::<nat>::empty();
    lemma_product_push(f0, 2nat, 1nat);
    let f1 = f0.push(2nat);
    lemma_product_push(f1, 3nat, 2nat);
    let f2 = f1.push(3nat);
    lemma_product_push(f2, 7nat, 6nat);
    let f3 = f2.push(7nat);
    lemma_product_push(f3, 13441nat, 42nat);
    let f4 = f3.push(13441nat);
    lemma_product_push(f4, 0x1db8260e5e3b460a46a0088fccf6a3a5936d75d89a776d4c0da4f338aafbnat, 564522nat);
    let f5 = f4.push(0x1db8260e5e3b460a46a0088fccf6a3a5936d75d89a776d4c0da4f338aafbnat);
    assert(factors =~= f5);
    assert forall|j: int| 0 <= j < factors.len() implies is_prime(#[trigger] factors[j])
        && power_mod(3nat, ((n - 1) / factors[j] as int) as nat, n) != 1 by {
        if j == 0 {
        } else if j == 1 {
        } else if j == 2 {
        } else if j == 3 {
        } else if j == 4 {
        }
    }
}

/// The field prime is prime.
pub proof fn lemma_prime_field_prime()
    ensures
        is_prime(0xfffffffffffffffffffffffffffffffffffffffffffffffffffffffefffffc2fnat),
        all_invertible(0xfffffffffffffffffffffffffffffffffffffffffffffffffffffffefffffc2fnat),
        generates(3nat, 0xfffffffffffffffffffffffffffffffffffffffffffffffffffffffefffffc2fnat),
        power_mod(3nat, 0xfffffffffffffffffffffffffffffffffffffffffffffffffffffffefffffc2enat, 0xfffffffffffffffffffffffffffffffffffffffffffffffffffffffefffffc2fnat) == 1,
{
    lemma_certificate_field_prime();
    lemma_certified_prime(0xfffffffffffffffffffffffffffffffffffffffffffffffffffffffefffffc2fnat, 3nat, seq![2nat, 3nat, 7nat, 13441nat, 0x1db8260e5e3b460a46a0088fccf6a3a5936d75d89a776d4c0da4f338aafbnat]);
}

} // verus!
