//! The certificate that the group order is prime.
//!
//! The powers of each base are followed bit by bit through its exponents:
//! every step squares, and multiplies by the base where the bit is set, and
//! names the multiple of the modulus that it leaves out.

use crate::prime_table::{
    lemma_prime_107361793816595537, lemma_prime_109, lemma_prime_120233, lemma_prime_149,
    lemma_prime_17, lemma_prime_293, lemma_prime_297159362677, lemma_prime_305873,
    lemma_prime_4051, lemma_prime_44706919, lemma_prime_545358713, lemma_prime_59, lemma_prime_631,
};
use crate::primes::{
    all_invertible, generates, is_certificate, is_prime, lemma_certified_prime,
    lemma_power_mod_first, lemma_power_mod_square, lemma_power_mod_square_times,
    lemma_product_push, lemma_small_primes, power_mod,
};
use vstd::arithmetic::div_mod::lemma_fundamental_div_mod_converse;
use vstd::prelude::*;

verus! {

proof fn lemma_power_174723607534414371449_over_2_part_0()
    requires
        power_mod(3nat, 1nat, 0x978c6f353c3889a79nat) == 3nat,
    ensures
        power_mod(3nat, 0x12f18de6anat, 0x978c6f353c3889a79nat) == 0x6f7789afd16bc3b9enat,
{
    let n = 0x978c6f353c3889a79nat;
    let e0 = 1nat;
    let x0 = 3nat;
    let x1 = 9nat;
    let e1 = 2 * e0;
    lemma_power_mod_square(3nat, e0, n, x0, 0nat, x1);
    let x2 = 81nat;
    let e2 = 2 * e1;
    lemma_power_mod_square(3nat, e1, n, x1, 0nat, x2);
    let x3 = 19683nat;
    let e3 = 2 * e2 + 1;
    lemma_power_mod_square_times(3nat, e2, n, x2, 0nat, x3);
    let x4 = 0x17179149nat;
    let e4 = 2 * e3;
    lemma_power_mod_square(3nat, e3, n, x3, 0nat, x4);
    let x5 = 0x63fbad3a2b55473nat;
    let e5 = 2 * e4 + 1;
    lemma_power_mod_square_times(3nat, e4, n, x4, 0nat, x5);
    let x6 = 0x2237b9f717e04a93dnat;
    let e6 = 2 * e5 + 1;
    lemma_power_mod_square_times(3nat, e5, n, x5, 0xc5e3b4f1b582enat, x6);
    let x7 = 0x12ee9e2b783d641d4nat;
    let e7 = 2 * e6 + 1;
    lemma_power_mod_square_times(3nat, e6, n, x6, 0x172d7e8869ecba43fnat, x7);
    let x8 = 0x411de066921a10918nat;
    let e8 = 2 * e7 + 1;
    lemma_power_mod_square_times(3nat, e7, n, x7, 0x7186195cddd80458nat, x8);
    let x9 = 0x862384475e310226cnat;
    let e9 = 2 * e8;
    lemma_power_mod_square(3nat, e8, n, x8, 0x1bfaa3203367cd974nat, x9);
    let x10 = 0x60443edda55c58972nat;
    let e10 = 2 * e9;
    lemma_power_mod_square(3nat, e9, n, x9, 0x76ba9b995ad498d8enat, x10);
    let x11 = 0x46118373bc742bc24nat;
    let e11 = 2 * e10;
    lemma_power_mod_square(3nat, e10, n, x10, 0x3d268060c36cfa7a0nat, x11);
    let x12 = 0x742c41a03d68fb55bnat;
    let e12 = 2 * e11 + 1;
    lemma_power_mod_square_times(3nat, e11, n, x11, 0x6130340287a78c33dnat, x12);
    let x13 = 0x3b2b25331462efb92nat;
    let e13 = 2 * e12 + 1;
    lemma_power_mod_square_times(3nat, e12, n, x12, 0x10b2a225ec6fcd3d01nat, x13);
    let x14 = 0x3df48eec8685e05enat;
    let e14 = 2 * e13;
    lemma_power_mod_square(3nat, e13, n, x13, 0x1719d7bc4f18a1c96nat, x14);
    let x15 = 0x4d585ff88a0f9933enat;
    let e15 = 2 * e14;
    lemma_power_mod_square(3nat, e14, n, x14, 0x1954081bb4fd7f6nat, x15);
    let x16 = 0x83a2d9e5982eae072nat;
    let e16 = 2 * e15;
    lemma_power_mod_square(3nat, e15, n, x15, 0x27796f5b552e432a2nat, x16);
    let x17 = 0x8e65d10803a02c3d9nat;
    let e17 = 2 * e16 + 1;
    lemma_power_mod_square_times(3nat, e16, n, x16, 0x157052a529560aeb4bnat, x17);
    let x18 = 0x4f119650c00f28194nat;
    let e18 = 2 * e17 + 1;
    lemma_power_mod_square_times(3nat, e17, n, x17, 0x19165f4334f024ea77nat, x18);
    let x19 = 0x4d593875d48694aebnat;
    let e19 = 2 * e18;
    lemma_power_mod_square(3nat, e18, n, x18, 0x2940cfe11d1598e8dnat, x19);
    let x20 = 0x7412e8f45e012b7f4nat;
    let e20 = 2 * e19 + 1;
    lemma_power_mod_square_times(3nat, e19, n, x19, 0x766ee5046cc077f2fnat, x20);
    let x21 = 0x58d8b477f3066c175nat;
    let e21 = 2 * e20 + 1;
    lemma_power_mod_square_times(3nat, e20, n, x20, 0x10ab59ae38f8dc0353nat, x21);
    let x22 = 0x31266f3a4910f6bd8nat;
    let e22 = 2 * e21 + 1;
    lemma_power_mod_square_times(3nat, e21, n, x21, 0x9c42c4e8e7f4f726bnat, x22);
    let x23 = 0x1a88be059167457e4nat;
    let e23 = 2 * e22 + 1;
    lemma_power_mod_square_times(3nat, e22, n, x22, 0x2fd22e56b64badabcnat, x23);
    let x24 = 0x3193aff3312e565c1nat;
    let e24 = 2 * e23;
    lemma_power_mod_square(3nat, e23, n, x23, 0x4a551bc9487b4407nat, x24);
    let x25 = 0x6c663dc9dd222adc9nat;
    let e25 = 2 * e24;
    lemma_power_mod_square(3nat, e24, n, x24, 0x1037e67859b55ad78nat, x25);
    let x26 = 0x4b82858d52008bc17nat;
    let e26 = 2 * e25 + 1;
    lemma_power_mod_square_times(3nat, e25, n, x25, 0xe89b6c439fc785f3cnat, x26);
    let x27 = 0x96d41c951ad1e56ebnat;
    let e27 = 2 * e26 + 1;
    lemma_power_mod_square_times(3nat, e26, n, x26, 0x70de97f79d56eef88nat, x27);
    let x28 = 0x27b01957bcae576c7nat;
    let e28 = 2 * e27;
    lemma_power_mod_square(3nat, e27, n, x27, 0x961caa244509c9002nat, x28);
    let x29 = 0x9edcf7c741ed8ca1nat;
    let e29 = 2 * e28 + 1;
    lemma_power_mod_square_times(3nat, e28, n, x28, 0x1f2e3ff9a0a001e82nat, x29);
    let x30 = 0x41b6606794b0fb558nat;
    let e30 = 2 * e29;
    lemma_power_mod_square(3nat, e29, n, x29, 0xa687e15d3253cf1nat, x30);
    let x31 = 0x746b3dc717347d0d6nat;
    let e31 = 2 * e30 + 1;
    lemma_power_mod_square_times(3nat, e30, n, x30, 0x557adcf1b6a860ebanat, x31);
    let x32 = 0x6f7789afd16bc3b9enat;
    let e32 = 2 * e31;
    lemma_power_mod_square(3nat, e31, n, x31, 0x596eb646f006c3ff6nat, x32);
}

proof fn lemma_power_174723607534414371449_over_2_part_1()
    requires
        power_mod(3nat, 0x12f18de6anat, 0x978c6f353c3889a79nat) == 0x6f7789afd16bc3b9enat,
    ensures
        power_mod(3nat, 0x12f18de6a7871134fnat, 0x978c6f353c3889a79nat) == 0x31f7b6e18102bff31nat,
{
    let n = 0x978c6f353c3889a79nat;
    let e0 = 0x12f18de6anat;
    let x0 = 0x6f7789afd16bc3b9enat;
    let x1 = 0x95033e45f6918810enat;
    let e1 = 2 * e0;
    lemma_power_mod_square(3nat, e0, n, x0, 0x51fc72839bdef5aa6nat, x1);
    let x2 = 0x41f2d407384a295ddnat;
    let e2 = 2 * e1 + 1;
    lemma_power_mod_square_times(3nat, e1, n, x1, 0x1b78ebede6e526f827nat, x2);
    let x3 = 0xfa33c94adb4d6b3nat;
    let e3 = 2 * e2 + 1;
    lemma_power_mod_square_times(3nat, e2, n, x2, 0x56186b3f987c21ee8nat, x3);
    let x4 = 0x7c237cf2d36bccfdcnat;
    let e4 = 2 * e3 + 1;
    lemma_power_mod_square_times(3nat, e3, n, x3, 0x4d73aea83878d7nat, x4);
    let x5 = 0x63f3c904b762c80c3nat;
    let e5 = 2 * e4 + 1;
    lemma_power_mod_square_times(3nat, e4, n, x4, 0x1310f00489bca9d695nat, x5);
    let x6 = 0x782624babb08fa623nat;
    let e6 = 2 * e5;
    lemma_power_mod_square(3nat, e5, n, x5, 0x41ec286bf3949e816nat, x6);
    let x7 = 0x2b6ebe360d131317dnat;
    let e7 = 2 * e6;
    lemma_power_mod_square(3nat, e6, n, x6, 0x5f415167fc88a5eacnat, x7);
    let x8 = 0x13c6deb2971647ed0nat;
    let e8 = 2 * e7;
    lemma_power_mod_square(3nat, e7, n, x7, 0xc728a9c2c1e27bc1nat, x8);
    let x9 = 0x5217499b4244f2fe7nat;
    let e9 = 2 * e8;
    lemma_power_mod_square(3nat, e8, n, x8, 0x294b231a8daceba1nat, x9);
    let x10 = 0x6c8fe7a9c7bf7c857nat;
    let e10 = 2 * e9 + 1;
    lemma_power_mod_square_times(3nat, e9, n, x9, 0x8566bd574752097dcnat, x10);
    let x11 = 0x60d123a10fba82bbcnat;
    let e11 = 2 * e10 + 1;
    lemma_power_mod_square_times(3nat, e10, n, x10, 0xe94e5d0740aea76efnat, x11);
    let x12 = 0x63d6893fa46c14580nat;
    let e12 = 2 * e11 + 1;
    lemma_power_mod_square_times(3nat, e11, n, x11, 0xb98e078ddb3942a30nat, x12);
    let x13 = 0x7d368618193aac048nat;
    let e13 = 2 * e12;
    lemma_power_mod_square(3nat, e12, n, x12, 0x41c5991af028e0f78nat, x13);
    let x14 = 0x2c51aff40bf94bf51nat;
    let e14 = 2 * e13;
    lemma_power_mod_square(3nat, e13, n, x13, 0x677432fd9f18b10a7nat, x14);
    let x15 = 0x1378b2883f329c8f6nat;
    let e15 = 2 * e14;
    lemma_power_mod_square(3nat, e14, n, x14, 0xcf5f324495358943nat, x15);
    let x16 = 0x8b926e9402e52a810nat;
    let e16 = 2 * e15 + 1;
    lemma_power_mod_square_times(3nat, e15, n, x15, 0x7815a3a16c1b1efcnat, x16);
    let x17 = 0x25524db355489793cnat;
    let e17 = 2 * e16;
    lemma_power_mod_square(3nat, e16, n, x16, 0x808abab7308b494e4nat, x17);
    let x18 = 0x809c7080548629dc2nat;
    let e18 = 2 * e17;
    lemma_power_mod_square(3nat, e17, n, x17, 0x930ea42ecc57f73enat, x18);
    let x19 = 0x674711e34a2f61e16nat;
    let e19 = 2 * e18;
    lemma_power_mod_square(3nat, e18, n, x18, 0x6d2531c098bd214denat, x19);
    let x20 = 0x29ec4fbceca10428bnat;
    let e20 = 2 * e19 + 1;
    lemma_power_mod_square_times(3nat, e19, n, x19, 0xd3253f344d6eafbe9nat, x20);
    let x21 = 0x348e94cfe22a0ac1fnat;
    let e21 = 2 * e20;
    lemma_power_mod_square(3nat, e20, n, x20, 0xb98e4eb3409cafaanat, x21);
    let x22 = 0x733f083c0a4acd2c0nat;
    let e22 = 2 * e21;
    lemma_power_mod_square(3nat, e21, n, x21, 0x123a0a863780410c9nat, x22);
    let x23 = 0x6208227ecc430a8b7nat;
    let e23 = 2 * e22 + 1;
    lemma_power_mod_square_times(3nat, e22, n, x22, 0x106eb63b4efc449f51nat, x23);
    let x24 = 0x2216c3dfff705dea4nat;
    let e24 = 2 * e23 + 1;
    lemma_power_mod_square_times(3nat, e23, n, x23, 0xbe3d965a51087e487nat, x24);
    let x25 = 0xd00b9d50a89ed243nat;
    let e25 = 2 * e24;
    lemma_power_mod_square(3nat, e24, n, x24, 0x7aaf997c7b4379f5nat, x25);
    let x26 = 0x41cb76444fc42b140nat;
    let e26 = 2 * e25 + 1;
    lemma_power_mod_square_times(3nat, e25, n, x25, 0x358cfdbbe9b83b73nat, x26);
    let x27 = 0x34089de15754ef535nat;
    let e27 = 2 * e26;
    lemma_power_mod_square(3nat, e26, n, x26, 0x1c9095ace58364e63nat, x27);
    let x28 = 0x707532b92386126dnat;
    let e28 = 2 * e27;
    lemma_power_mod_square(3nat, e27, n, x27, 0x11dd9605037f55becnat, x28);
    let x29 = 0x80e23fb01e89ecd67nat;
    let e29 = 2 * e28 + 1;
    lemma_power_mod_square_times(3nat, e28, n, x28, 0xfa59c00a838d374nat, x29);
    let x30 = 0x8167c3c37a0b1f870nat;
    let e30 = 2 * e29 + 1;
    lemma_power_mod_square_times(3nat, e29, n, x29, 0x148d36b9894dfc2c3bnat, x30);
    let x31 = 0x2e0c5bd59b8620485nat;
    let e31 = 2 * e30 + 1;
    lemma_power_mod_square_times(3nat, e30, n, x30, 0x14b7e163593738f393nat, x31);
    let x32 = 0x31f7b6e18102bff31nat;
    let e32 = 2 * e31 + 1;
    lemma_power_mod_square_times(3nat, e31, n, x31, 0x29f9bc2b637f3626anat, x32);
}

proof fn lemma_power_174723607534414371449_over_2_part_2()
    requires
        power_mod(3nat, 0x12f18de6a7871134fnat, 0x978c6f353c3889a79nat) == 0x31f7b6e18102bff31nat,
    ensures
        power_mod(3nat, 0x4bc6379a9e1c44d3cnat, 0x978c6f353c3889a79nat) == 0x978c6f353c3889a78nat,
{
    let n = 0x978c6f353c3889a79nat;
    let e0 = 0x12f18de6a7871134fnat;
    let x0 = 0x31f7b6e18102bff31nat;
    let x1 = 0xb9a7209484dc0e01nat;
    let e1 = 2 * e0;
    lemma_power_mod_square(3nat, e0, n, x0, 0x10799a5bd746d0c60nat, x1);
    let x2 = 0x978c6f353c3889a78nat;
    let e2 = 2 * e1;
    lemma_power_mod_square(3nat, e1, n, x1, 0xe36e8ffea435b91nat, x2);
}

proof fn lemma_power_174723607534414371449_over_2()
    ensures
        power_mod(3nat, 0x4bc6379a9e1c44d3cnat, 0x978c6f353c3889a79nat) == 0x978c6f353c3889a78nat,
{
    lemma_power_mod_first(3nat, 0x978c6f353c3889a79nat);
    lemma_power_174723607534414371449_over_2_part_0();
    lemma_power_174723607534414371449_over_2_part_1();
    lemma_power_174723607534414371449_over_2_part_2();
}

proof fn lemma_power_174723607534414371449_over_17_part_0()
    requires
        power_mod(3nat, 1nat, 0x978c6f353c3889a79nat) == 3nat,
    ensures
        power_mod(3nat, 0x11d449518nat, 0x978c6f353c3889a79nat) == 0x9743ac49e86c7a2a6nat,
{
    let n = 0x978c6f353c3889a79nat;
    let e0 = 1nat;
    let x0 = 3nat;
    let x1 = 9nat;
    let e1 = 2 * e0;
    lemma_power_mod_square(3nat, e0, n, x0, 0nat, x1);
    let x2 = 81nat;
    let e2 = 2 * e1;
    lemma_power_mod_square(3nat, e1, n, x1, 0nat, x2);
    let x3 = 6561nat;
    let e3 = 2 * e2;
    lemma_power_mod_square(3nat, e2, n, x2, 0nat, x3);
    let x4 = 0x7b285c3nat;
    let e4 = 2 * e3 + 1;
    lemma_power_mod_square_times(3nat, e3, n, x3, 0nat, x4);
    let x5 = 0xb1bf6cd930979bnat;
    let e5 = 2 * e4 + 1;
    lemma_power_mod_square_times(3nat, e4, n, x4, 0nat, x5);
    let x6 = 0x4f00d080a119c38e7nat;
    let e6 = 2 * e5 + 1;
    lemma_power_mod_square_times(3nat, e5, n, x5, 0x2716db0cfac4nat, x6);
    let x7 = 0x1a086914c628bf56bnat;
    let e7 = 2 * e6;
    lemma_power_mod_square(3nat, e6, n, x6, 0x292f513df38cea1b6nat, x7);
    let x8 = 0x364063764bdc68d93nat;
    let e8 = 2 * e7 + 1;
    lemma_power_mod_square_times(3nat, e7, n, x7, 0xd6a6a88c622c5158nat, x8);
    let x9 = 0x14b2482899180d73anat;
    let e9 = 2 * e8;
    lemma_power_mod_square(3nat, e8, n, x8, 0x136bc7ac9f40148e7nat, x9);
    let x10 = 0x697c61684115c6e3bnat;
    let e10 = 2 * e9 + 1;
    lemma_power_mod_square_times(3nat, e9, n, x9, 0x87ab2e25a89b4a79nat, x10);
    let x11 = 0x6108ee2dd301c018fnat;
    let e11 = 2 * e10;
    lemma_power_mod_square(3nat, e10, n, x10, 0x496c7bf405f8b9ddanat, x11);
    let x12 = 0x6b2d103eadc9a50fenat;
    let e12 = 2 * e11;
    lemma_power_mod_square(3nat, e11, n, x11, 0x3e215fe5f6ac7db3bnat, x12);
    let x13 = 0x5f7740b070210562anat;
    let e13 = 2 * e12;
    lemma_power_mod_square(3nat, e12, n, x12, 0x4bcba682858cafe2anat, x13);
    let x14 = 0x3d6afc21b4fbefb62nat;
    let e14 = 2 * e13 + 1;
    lemma_power_mod_square_times(3nat, e13, n, x13, 0xb46976120e55e591anat, x14);
    let x15 = 0x377899d69647b53d5nat;
    let e15 = 2 * e14;
    lemma_power_mod_square(3nat, e14, n, x14, 0x18e40910a6cb8cf67nat, x15);
    let x16 = 0x10772ff80ac3efe31nat;
    let e16 = 2 * e15;
    lemma_power_mod_square(3nat, e15, n, x15, 0x144dd322840aa9748nat, x16);
    let x17 = 0x7b3d6a9ac6d0be536nat;
    let e17 = 2 * e16 + 1;
    lemma_power_mod_square_times(3nat, e16, n, x16, 0x55decf342abd7715nat, x17);
    let x18 = 0x472af3b84af911726nat;
    let e18 = 2 * e17;
    lemma_power_mod_square(3nat, e17, n, x17, 0x64381cbd9348ba2aenat, x18);
    let x19 = 0x50aeefae3dc7c7fd9nat;
    let e19 = 2 * e18;
    lemma_power_mod_square(3nat, e18, n, x18, 0x216bb04aae0794563nat, x19);
    let x20 = 0x355f1b6ffd036faenat;
    let e20 = 2 * e19 + 1;
    lemma_power_mod_square_times(3nat, e19, n, x19, 0x80dd9bba08c2b9a0dnat, x20);
    let x21 = 0xf2ab8bf2b609fc94nat;
    let e21 = 2 * e20;
    lemma_power_mod_square(3nat, e20, n, x20, 0x12cbcb93bc6df30nat, x21);
    let x22 = 0x6d5379251d6c3018nat;
    let e22 = 2 * e21 + 1;
    lemma_power_mod_square_times(3nat, e21, n, x21, 0x48dbd9e9035acf58nat, x22);
    let x23 = 0x55a3792c11395ecb3nat;
    let e23 = 2 * e22;
    lemma_power_mod_square(3nat, e22, n, x22, 0x4eddf7120354eb5nat, x23);
    let x24 = 0x199e7479a1c5d929nat;
    let e24 = 2 * e23 + 1;
    lemma_power_mod_square_times(3nat, e23, n, x23, 0x912e3340a37f83462nat, x24);
    let x25 = 0x532d3e1204af85522nat;
    let e25 = 2 * e24;
    lemma_power_mod_square(3nat, e24, n, x24, 0x454b1628334327nat, x25);
    let x26 = 0x94396b9dfb45f9610nat;
    let e26 = 2 * e25;
    lemma_power_mod_square(3nat, e25, n, x25, 0x2da6b2703f6f73914nat, x26);
    let x27 = 0x73d3cc0bdc0055ad3nat;
    let e27 = 2 * e26;
    lemma_power_mod_square(3nat, e26, n, x26, 0x90f912db3a4dffc55nat, x27);
    let x28 = 0x8ea3ac0b290ffeaabnat;
    let e28 = 2 * e27 + 1;
    lemma_power_mod_square_times(3nat, e27, n, x27, 0x10993e07b7b0bd0790nat, x28);
    let x29 = 0x259db54c26ae1e38enat;
    let e29 = 2 * e28 + 1;
    lemma_power_mod_square_times(3nat, e28, n, x28, 0x192c2f9167495da8c5nat, x29);
    let x30 = 0x510cfe6b8d64952nat;
    let e30 = 2 * e29;
    lemma_power_mod_square(3nat, e29, n, x29, 0x956337ac5775a882nat, x30);
    let x31 = 0x1bb7eaddb7b867cd1nat;
    let e31 = 2 * e30;
    lemma_power_mod_square(3nat, e30, n, x30, 0x2b58ea4e5204bnat, x31);
    let x32 = 0x9743ac49e86c7a2a6nat;
    let e32 = 2 * e31;
    lemma_power_mod_square(3nat, e31, n, x31, 0x511da3502eca1113nat, x32);
}

proof fn lemma_power_174723607534414371449_over_17_part_1()
    requires
        power_mod(3nat, 0x11d449518nat, 0x978c6f353c3889a79nat) == 0x9743ac49e86c7a2a6nat,
    ensures
        power_mod(3nat, 0x8ea24a8c74e9eaf8nat, 0x978c6f353c3889a79nat) == 0x7ce162b1bec1ec723nat,
{
    let n = 0x978c6f353c3889a79nat;
    let e0 = 0x11d449518nat;
    let x0 = 0x9743ac49e86c7a2a6nat;
    let x1 = 0x84c63cb2bd64d1d28nat;
    let e1 = 2 * e0 + 1;
    lemma_power_mod_square_times(3nat, e0, n, x0, 0x1c4f124e92ce392ae4nat, x1);
    let x2 = 0x101657310ea2f0434nat;
    let e2 = 2 * e1 + 1;
    lemma_power_mod_square_times(3nat, e1, n, x1, 0x15cfa54727c7e9cfecnat, x2);
    let x3 = 0x3815d9b4223e9b2b7nat;
    let e3 = 2 * e2 + 1;
    lemma_power_mod_square_times(3nat, e2, n, x2, 0x51f84619c96ba681nat, x3);
    let x4 = 0x2dc4dc31d0eb0e627nat;
    let e4 = 2 * e3;
    lemma_power_mod_square(3nat, e3, n, x3, 0x14c193e362bbb937anat, x4);
    let x5 = 0x5551deacc25e046c2nat;
    let e5 = 2 * e4 + 1;
    lemma_power_mod_square_times(3nat, e4, n, x4, 0x2977c7d2f8e3e2b59nat, x5);
    let x6 = 0xa07a7138aa4e8bb5nat;
    let e6 = 2 * e5;
    lemma_power_mod_square(3nat, e5, n, x5, 0x3008adac5a9499607nat, x6);
    let x7 = 0x3674b49df1784e391nat;
    let e7 = 2 * e6;
    lemma_power_mod_square(3nat, e6, n, x6, 0xa9ef261e9fb63a8nat, x7);
    let x8 = 0x63aaa007140997c8cnat;
    let e8 = 2 * e7 + 1;
    lemma_power_mod_square_times(3nat, e7, n, x7, 0x3ab3ec2de113024cfnat, x8);
    let x9 = 0x650a2a9c6e255288enat;
    let e9 = 2 * e8 + 1;
    lemma_power_mod_square_times(3nat, e8, n, x8, 0xc4a36026d031b9db2nat, x9);
    let x10 = 0x132760f19779199ednat;
    let e10 = 2 * e9 + 1;
    lemma_power_mod_square_times(3nat, e9, n, x9, 0xca18163c9784abd97nat, x10);
    let x11 = 0x182d7cabf8bffed54nat;
    let e11 = 2 * e10;
    lemma_power_mod_square(3nat, e10, n, x10, 0x26bb99d5de8f637dnat, x11);
    let x12 = 0x433936f99a6f31edbnat;
    let e12 = 2 * e11 + 1;
    lemma_power_mod_square_times(3nat, e11, n, x11, 0xb925dc29c8b6a53dnat, x12);
    let x13 = 0x968734590bd50b8efnat;
    let e13 = 2 * e12;
    lemma_power_mod_square(3nat, e12, n, x12, 0x1dd19da0de3234f3anat, x13);
    let x14 = 0x4f1aacb96021ceaa6nat;
    let e14 = 2 * e13;
    lemma_power_mod_square(3nat, e13, n, x13, 0x9583bbc78bdbd1993nat, x14);
    let x15 = 0x11e8091489bcfd30dnat;
    let e15 = 2 * e14 + 1;
    lemma_power_mod_square_times(3nat, e14, n, x14, 0x7bdee3eeb5417ef17nat, x15);
    let x16 = 0x6ca001d2cb51e41cfnat;
    let e16 = 2 * e15 + 1;
    lemma_power_mod_square_times(3nat, e15, n, x15, 0x658e531c4b6b108cnat, x16);
    let x17 = 0xfa2b55d991ec43ffnat;
    let e17 = 2 * e16 + 1;
    lemma_power_mod_square_times(3nat, e16, n, x16, 0xe99397ab0fdce2444nat, x17);
    let x18 = 0x39bc19cc2a3e86e5anat;
    let e18 = 2 * e17 + 1;
    lemma_power_mod_square_times(3nat, e17, n, x17, 0x4d6e7353e3198cb1nat, x18);
    let x19 = 0x8cf76d5cb45daf438nat;
    let e19 = 2 * e18;
    lemma_power_mod_square(3nat, e18, n, x18, 0x15feb5268c48c03ccnat, x19);
    let x20 = 0x598a4748c8656562enat;
    let e20 = 2 * e19 + 1;
    lemma_power_mod_square_times(3nat, e19, n, x19, 0x1895ebd298e0173ea2nat, x20);
    let x21 = 0x7bd32689ddc112e28nat;
    let e21 = 2 * e20;
    lemma_power_mod_square(3nat, e20, n, x20, 0x34e746db8f5128bfcnat, x21);
    let x22 = 0x5a1f4e8796664e01fnat;
    let e22 = 2 * e21 + 1;
    lemma_power_mod_square_times(3nat, e21, n, x21, 0x12f84a82476464ef69nat, x22);
    let x23 = 0x68688f953989dc0d1nat;
    let e23 = 2 * e22;
    lemma_power_mod_square(3nat, e22, n, x22, 0x3597f3907a0d8de70nat, x23);
    let x24 = 0x36455eda2aaf31767nat;
    let e24 = 2 * e23 + 1;
    lemma_power_mod_square_times(3nat, e23, n, x23, 0xd7cb6cb240937cd5cnat, x24);
    let x25 = 0xe40fed8be3f93db3nat;
    let e25 = 2 * e24 + 1;
    lemma_power_mod_square_times(3nat, e24, n, x24, 0x3a4e0ae84188ac1a0nat, x25);
    let x26 = 0x7501a79b8e160ed07nat;
    let e26 = 2 * e25 + 1;
    lemma_power_mod_square_times(3nat, e25, n, x25, 0x4059e3074073bb14nat, x26);
    let x27 = 0x913f91c8698ae21a5nat;
    let e27 = 2 * e26 + 1;
    lemma_power_mod_square_times(3nat, e26, n, x26, 0x10f032ab17ffb92cdenat, x27);
    let x28 = 0x9660f17b690720660nat;
    let e28 = 2 * e27 + 1;
    lemma_power_mod_square_times(3nat, e27, n, x27, 0x1a1a1441d53d767143nat, x28);
    let x29 = 0x939c7f44e135f9e26nat;
    let e29 = 2 * e28;
    lemma_power_mod_square(3nat, e28, n, x28, 0x9537c39cb78919e2anat, x29);
    let x30 = 0x7f826b4accdaf88adnat;
    let e30 = 2 * e29;
    lemma_power_mod_square(3nat, e29, n, x29, 0x8fc6bf0a060fd1eefnat, x30);
    let x31 = 0x7ce162b1bec1ec723nat;
    let e31 = 2 * e30;
    lemma_power_mod_square(3nat, e30, n, x30, 0x6b4892d2b72781a76nat, x31);
}

proof fn lemma_power_174723607534414371449_over_17()
    ensures
        power_mod(3nat, 0x8ea24a8c74e9eaf8nat, 0x978c6f353c3889a79nat) == 0x7ce162b1bec1ec723nat,
{
    lemma_power_mod_first(3nat, 0x978c6f353c3889a79nat);
    lemma_power_174723607534414371449_over_17_part_0();
    lemma_power_174723607534414371449_over_17_part_1();
}

proof fn lemma_power_174723607534414371449_over_59_part_0()
    requires
        power_mod(3nat, 1nat, 0x978c6f353c3889a79nat) == 3nat,
    ensures
        power_mod(3nat, 0x148c88921nat, 0x978c6f353c3889a79nat) == 0x4c6688ed6b9cbe1e1nat,
{
    let n = 0x978c6f353c3889a79nat;
    let e0 = 1nat;
    let x0 = 3nat;
    let x1 = 9nat;
    let e1 = 2 * e0;
    lemma_power_mod_square(3nat, e0, n, x0, 0nat, x1);
    let x2 = 243nat;
    let e2 = 2 * e1 + 1;
    lemma_power_mod_square_times(3nat, e1, n, x1, 0nat, x2);
    let x3 = 59049nat;
    let e3 = 2 * e2;
    lemma_power_mod_square(3nat, e2, n, x2, 0nat, x3);
    let x4 = 0xcfd41b91nat;
    let e4 = 2 * e3;
    lemma_power_mod_square(3nat, e3, n, x3, 0nat, x4);
    let x5 = 0x1fa2a1cf67b5fb863nat;
    let e5 = 2 * e4 + 1;
    lemma_power_mod_square_times(3nat, e4, n, x4, 0nat, x5);
    let x6 = 0x789f8864003c0511anat;
    let e6 = 2 * e5;
    lemma_power_mod_square(3nat, e5, n, x5, 0x69a904acce9a52e7nat, x6);
    let x7 = 0x6a838358563d3a943nat;
    let e7 = 2 * e6;
    lemma_power_mod_square(3nat, e6, n, x6, 0x60022cbc543a19029nat, x7);
    let x8 = 0x330da7b3d7c2b8dbfnat;
    let e8 = 2 * e7;
    lemma_power_mod_square(3nat, e7, n, x7, 0x4adc93ce7f048359anat, x8);
    let x9 = 0x3daee35f07fa6c0adnat;
    let e9 = 2 * e8 + 1;
    lemma_power_mod_square_times(3nat, e8, n, x8, 0x3398a0a724693ee06nat, x9);
    let x10 = 0x57d318cd87c128741nat;
    let e10 = 2 * e9 + 1;
    lemma_power_mod_square_times(3nat, e9, n, x9, 0x4b5193c76c94214canat, x10);
    let x11 = 0x54413a0cf1fbfa98fnat;
    let e11 = 2 * e10;
    lemma_power_mod_square(3nat, e10, n, x10, 0x32e547ef79ddec002nat, x11);
    let x12 = 0x4b07ed5c7ff15404fnat;
    let e12 = 2 * e11;
    lemma_power_mod_square(3nat, e11, n, x11, 0x2ed79b0d9231ac5a2nat, x12);
    let x13 = 0x1052239cec82c320anat;
    let e13 = 2 * e12 + 1;
    lemma_power_mod_square_times(3nat, e12, n, x12, 0x6f71417bce132b9a1nat, x13);
    let x14 = 0x702e2ca9fd5619d14nat;
    let e14 = 2 * e13;
    lemma_power_mod_square(3nat, e13, n, x13, 0x1c1f5c75499cd1d0nat, x14);
    let x15 = 0x6e16318cda4d12debnat;
    let e15 = 2 * e14;
    lemma_power_mod_square(3nat, e14, n, x14, 0x5309f9052aa53bf8dnat, x15);
    let x16 = 0x962f761aefb1f7668nat;
    let e16 = 2 * e15;
    lemma_power_mod_square(3nat, e15, n, x15, 0x4ff7e1d597ce8d599nat, x16);
    let x17 = 0x4cb0f78b7eac87facnat;
    let e17 = 2 * e16 + 1;
    lemma_power_mod_square_times(3nat, e16, n, x16, 0x1be80e1c35f8de92b4nat, x17);
    let x18 = 0x953ae6005b8fff590nat;
    let e18 = 2 * e17;
    lemma_power_mod_square(3nat, e17, n, x17, 0x26cf475f351e3d600nat, x18);
    let x19 = 0x51c1d2eb1365cd37bnat;
    let e19 = 2 * e18;
    lemma_power_mod_square(3nat, e18, n, x18, 0x92f2715cda303186dnat, x19);
    let x20 = 0x49ac7009523945233nat;
    let e20 = 2 * e19;
    lemma_power_mod_square(3nat, e19, n, x19, 0x2c1b2e1b9e59c6896nat, x20);
    let x21 = 0x5b8181e07491a3f6bnat;
    let e21 = 2 * e20 + 1;
    lemma_power_mod_square_times(3nat, e20, n, x20, 0x6b7259bc7915d3790nat, x21);
    let x22 = 0x289d7c1918d474f29nat;
    let e22 = 2 * e21;
    lemma_power_mod_square(3nat, e21, n, x21, 0x3740744d7306fe010nat, x22);
    let x23 = 0x82c43fa748e74ab48nat;
    let e23 = 2 * e22;
    lemma_power_mod_square(3nat, e22, n, x22, 0xae28966d805ed151nat, x23);
    let x24 = 0x10a8564866f480853nat;
    let e24 = 2 * e23 + 1;
    lemma_power_mod_square_times(3nat, e23, n, x23, 0x15280df5d05299bc95nat, x24);
    let x25 = 0x2b0fb25a632aa3f5anat;
    let e25 = 2 * e24;
    lemma_power_mod_square(3nat, e24, n, x24, 0x1d4b7b29585cd447nat, x25);
    let x26 = 0x72a88389b9b8c7cd4nat;
    let e26 = 2 * e25;
    lemma_power_mod_square(3nat, e25, n, x25, 0xc3c4b981c8c3b150nat, x26);
    let x27 = 0x2c9d63d1846d72875nat;
    let e27 = 2 * e26 + 1;
    lemma_power_mod_square_times(3nat, e26, n, x26, 0x1043e5d5e130543953nat, x27);
    let x28 = 0x8b838bf27c16a9601nat;
    let e28 = 2 * e27;
    lemma_power_mod_square(3nat, e27, n, x27, 0xd225fe9258684d38nat, x28);
    let x29 = 0x7b0deb498b327c6enat;
    let e29 = 2 * e28;
    lemma_power_mod_square(3nat, e28, n, x28, 0x806f513557ca7576bnat, x29);
    let x30 = 0x26ffdc959f54eacednat;
    let e30 = 2 * e29;
    lemma_power_mod_square(3nat, e29, n, x29, 0x63eaeb9d895df4fnat, x30);
    let x31 = 0x13d8d25af7e7ddbf5nat;
    let e31 = 2 * e30;
    lemma_power_mod_square(3nat, e30, n, x30, 0xa093e614f8631614nat, x31);
    let x32 = 0x4c6688ed6b9cbe1e1nat;
    let e32 = 2 * e31 + 1;
    lemma_power_mod_square_times(3nat, e31, n, x31, 0x7cc2b50bceada15anat, x32);
}

proof fn lemma_power_174723607534414371449_over_59_part_1()
    requires
        power_mod(3nat, 0x148c88921nat, 0x978c6f353c3889a79nat) == 0x4c6688ed6b9cbe1e1nat,
    ensures
        power_mod(3nat, 0x2919112421afdfe8nat, 0x978c6f353c3889a79nat) == 0x57d7a3038bfb3f605nat,
{
    let n = 0x978c6f353c3889a79nat;
    let e0 = 0x148c88921nat;
    let x0 = 0x4c6688ed6b9cbe1e1nat;
    let x1 = 0x46b0ef0554d796fcdnat;
    let e1 = 2 * e0;
    lemma_power_mod_square(3nat, e0, n, x0, 0x268416b8387f25a94nat, x1);
    let x2 = 0x62673af6775c2982dnat;
    let e2 = 2 * e1;
    lemma_power_mod_square(3nat, e1, n, x1, 0x20f978ca5aa0222dcnat, x2);
    let x3 = 0x3baa0a4943e366079nat;
    let e3 = 2 * e2;
    lemma_power_mod_square(3nat, e2, n, x2, 0x3fe51fb92a102f6f0nat, x3);
    let x4 = 0x58cc95cf179f5d2f6nat;
    let e4 = 2 * e3;
    lemma_power_mod_square(3nat, e3, n, x3, 0x177d580bf3d4b5953nat, x4);
    let x5 = 0x3b79fd83d3710cdd4nat;
    let e5 = 2 * e4 + 1;
    lemma_power_mod_square_times(3nat, e4, n, x4, 0x9c1826121ab5f6418nat, x5);
    let x6 = 0x1c957a3c839b687acnat;
    let e6 = 2 * e5 + 1;
    lemma_power_mod_square_times(3nat, e5, n, x5, 0x4606b52ed7ead1624nat, x6);
    let x7 = 0x4d99cef9aecdcc13dnat;
    let e7 = 2 * e6;
    lemma_power_mod_square(3nat, e6, n, x6, 0x5642a367425f682bnat, x7);
    let x8 = 0x54cd6796da9d226b7nat;
    let e8 = 2 * e7 + 1;
    lemma_power_mod_square_times(3nat, e7, n, x7, 0x773501ab5c30c9104nat, x8);
    let x9 = 0x3e009f51d974064fbnat;
    let e9 = 2 * e8;
    lemma_power_mod_square(3nat, e8, n, x8, 0x2f73fa7d54314ab06nat, x9);
    let x10 = 0x7bbd4951584be6acanat;
    let e10 = 2 * e9 + 1;
    lemma_power_mod_square_times(3nat, e9, n, x9, 0x4c19b2b2b3b958b49nat, x10);
    let x11 = 0x8edb282766b3910e0nat;
    let e11 = 2 * e10 + 1;
    lemma_power_mod_square_times(3nat, e10, n, x10, 0x12f1981e58bc0abcacnat, x11);
    let x12 = 0x732d33bcfd1ff0d78nat;
    let e12 = 2 * e11 + 1;
    lemma_power_mod_square_times(3nat, e11, n, x11, 0x193fc8c827742f10c8nat, x12);
    let x13 = 0x6aefcc9f0a3cdc5a9nat;
    let e13 = 2 * e12 + 1;
    lemma_power_mod_square_times(3nat, e12, n, x12, 0x1069a0f5f61653160fnat, x13);
    let x14 = 0x74d7a206ceeafb24enat;
    let e14 = 2 * e13 + 1;
    lemma_power_mod_square_times(3nat, e13, n, x13, 0xe25f4887edb37144dnat, x14);
    let x15 = 0x5705aba0751821998nat;
    let e15 = 2 * e14 + 1;
    lemma_power_mod_square_times(3nat, e14, n, x14, 0x10e40a3dcf6f569654nat, x15);
    let x16 = 0x129175a95dd3a979enat;
    let e16 = 2 * e15;
    lemma_power_mod_square(3nat, e15, n, x15, 0x31f8460332476bf32nat, x16);
    let x17 = 0x87e4ebeeec65ab688nat;
    let e17 = 2 * e16 + 1;
    lemma_power_mod_square_times(3nat, e16, n, x16, 0x6d339d476569a924nat, x17);
    let x18 = 0x3ca9b07cfafcd21f1nat;
    let e18 = 2 * e17 + 1;
    lemma_power_mod_square_times(3nat, e17, n, x17, 0x16d921afe8fe652987nat, x18);
    let x19 = 0x7bce6c6a7c4b32e48nat;
    let e19 = 2 * e18 + 1;
    lemma_power_mod_square_times(3nat, e18, n, x18, 0x48d8f9c1fd92a5c73nat, x19);
    let x20 = 0x3e90badcf24b6780nat;
    let e20 = 2 * e19 + 1;
    lemma_power_mod_square_times(3nat, e19, n, x19, 0x12f6d7c1a51450cf40nat, x20);
    let x21 = 0x39c7299c4de436f00nat;
    let e21 = 2 * e20 + 1;
    lemma_power_mod_square_times(3nat, e20, n, x20, 0x4d7d0d7cccb9900nat, x21);
    let x22 = 0x24d1e39ee29ff4e7fnat;
    let e22 = 2 * e21 + 1;
    lemma_power_mod_square_times(3nat, e21, n, x21, 0x42156acfb99738d49nat, x22);
    let x23 = 0x28319ba756e5ea61fnat;
    let e23 = 2 * e22 + 1;
    lemma_power_mod_square_times(3nat, e22, n, x22, 0x1ad6464d1bb426104nat, x23);
    let x24 = 0x58ead9a145c034271nat;
    let e24 = 2 * e23 + 1;
    lemma_power_mod_square_times(3nat, e23, n, x23, 0x1ffb0b28eec9bb6e2nat, x24);
    let x25 = 0x714e608a181c31e65nat;
    let e25 = 2 * e24;
    lemma_power_mod_square(3nat, e24, n, x24, 0x342b8a54e50a3745cnat, x25);
    let x26 = 0xda5f7d28f5ad1dbfnat;
    let e26 = 2 * e25 + 1;
    lemma_power_mod_square_times(3nat, e25, n, x25, 0xfe245a81c2fb0192cnat, x26);
    let x27 = 0x455ff44f889500e34nat;
    let e27 = 2 * e26;
    lemma_power_mod_square(3nat, e26, n, x26, 0x13aa9cbd63a25575nat, x27);
    let x28 = 0x55657749fb41db744nat;
    let e28 = 2 * e27;
    lemma_power_mod_square(3nat, e27, n, x27, 0x1fc2066072b578aacnat, x28);
    let x29 = 0x57d7a3038bfb3f605nat;
    let e29 = 2 * e28;
    lemma_power_mod_square(3nat, e28, n, x28, 0x301ec0c78d67d81a3nat, x29);
}

proof fn lemma_power_174723607534414371449_over_59()
    ensures
        power_mod(3nat, 0x2919112421afdfe8nat, 0x978c6f353c3889a79nat) == 0x57d7a3038bfb3f605nat,
{
    lemma_power_mod_first(3nat, 0x978c6f353c3889a79nat);
    lemma_power_174723607534414371449_over_59_part_0();
    lemma_power_174723607534414371449_over_59_part_1();
}

proof fn lemma_power_174723607534414371449_over_4051_part_0()
    requires
        power_mod(3nat, 1nat, 0x978c6f353c3889a79nat) == 3nat,
    ensures
        power_mod(3nat, 0x13276cc89nat, 0x978c6f353c3889a79nat) == 0x9514d2eff445454f7nat,
{
    let n = 0x978c6f353c3889a79nat;
    let e0 = 1nat;
    let x0 = 3nat;
    let x1 = 9nat;
    let e1 = 2 * e0;
    lemma_power_mod_square(3nat, e0, n, x0, 0nat, x1);
    let x2 = 81nat;
    let e2 = 2 * e1;
    lemma_power_mod_square(3nat, e1, n, x1, 0nat, x2);
    let x3 = 19683nat;
    let e3 = 2 * e2 + 1;
    lemma_power_mod_square_times(3nat, e2, n, x2, 0nat, x3);
    let x4 = 0x4546b3dbnat;
    let e4 = 2 * e3 + 1;
    lemma_power_mod_square_times(3nat, e3, n, x3, 0nat, x4);
    let x5 = 0x12bf307ae81ffd59nat;
    let e5 = 2 * e4;
    lemma_power_mod_square(3nat, e4, n, x4, 0nat, x5);
    let x6 = 0x66a72de547a0dfbb7nat;
    let e6 = 2 * e5;
    lemma_power_mod_square(3nat, e5, n, x5, 0x251ab1ed52088anat, x6);
    let x7 = 0x12d72051fdeffb5fbnat;
    let e7 = 2 * e6 + 1;
    lemma_power_mod_square_times(3nat, e6, n, x6, 0xd09972cbb9528c638nat, x7);
    let x8 = 0x5b1de387d251d5255nat;
    let e8 = 2 * e7;
    lemma_power_mod_square(3nat, e7, n, x7, 0x2579af37e4406ee4nat, x8);
    let x9 = 0x264f7e1a7f1c4d2afnat;
    let e9 = 2 * e8;
    lemma_power_mod_square(3nat, e8, n, x8, 0x36c868dcd8d71275anat, x9);
    let x10 = 0x7a830db0f90b5972enat;
    let e10 = 2 * e9 + 1;
    lemma_power_mod_square_times(3nat, e9, n, x9, 0x1d0dd0d8475d7c41dnat, x10);
    let x11 = 0x1e30ef160d7b245fdnat;
    let e11 = 2 * e10 + 1;
    lemma_power_mod_square_times(3nat, e10, n, x10, 0x1291db744200d53187nat, x11);
    let x12 = 0x56677c97a707de786nat;
    let e12 = 2 * e11 + 1;
    lemma_power_mod_square_times(3nat, e11, n, x11, 0x120b3846b2e77dbfdnat, x12);
    let x13 = 0x201ceb7857ef7300nat;
    let e13 = 2 * e12;
    lemma_power_mod_square(3nat, e12, n, x12, 0x3143410ade7e3d744nat, x13);
    let x14 = 0x2fed4aa354e95608fnat;
    let e14 = 2 * e13 + 1;
    lemma_power_mod_square_times(3nat, e13, n, x13, 0x146a02a593e6eb9nat, x14);
    let x15 = 0xc41865b9550a90aenat;
    let e15 = 2 * e14 + 1;
    lemma_power_mod_square_times(3nat, e14, n, x14, 0x2d7869e6e1ef9c95dnat, x15);
    let x16 = 0x2eca166418cfdcffanat;
    let e16 = 2 * e15;
    lemma_power_mod_square(3nat, e15, n, x15, 0xfdbc7b677e6e61anat, x16);
    let x17 = 0x1b0a66a9f2f50596fnat;
    let e17 = 2 * e16 + 1;
    lemma_power_mod_square_times(3nat, e16, n, x16, 0x2b566a33849a3cfa5nat, x17);
    let x18 = 0xa5304a95c0a3f4f7nat;
    let e18 = 2 * e17 + 1;
    lemma_power_mod_square_times(3nat, e17, n, x17, 0xe79778e7652935ccnat, x18);
    let x19 = 0x639dedc2df8fc1a6fnat;
    let e19 = 2 * e18;
    lemma_power_mod_square(3nat, e18, n, x18, 0xb40e6e7194f7272nat, x19);
    let x20 = 0x3ef5d502b5fbb93e0nat;
    let e20 = 2 * e19;
    lemma_power_mod_square(3nat, e19, n, x19, 0x417b18ae288f90a09nat, x20);
    let x21 = 0x5ff24c0a8d8fc16fcnat;
    let e21 = 2 * e20 + 1;
    lemma_power_mod_square_times(3nat, e20, n, x20, 0x4e7846fc64fba1c24nat, x21);
    let x22 = 0x92afd0a35eccd1376nat;
    let e22 = 2 * e21 + 1;
    lemma_power_mod_square_times(3nat, e21, n, x21, 0xb63bb1244a7ac9c0anat, x22);
    let x23 = 0x8a89d027eaa085b12nat;
    let e23 = 2 * e22;
    lemma_power_mod_square(3nat, e22, n, x22, 0x8dfb1fb9a285de562nat, x23);
    let x24 = 0x5a4648482ab640ebbnat;
    let e24 = 2 * e23;
    lemma_power_mod_square(3nat, e23, n, x23, 0x7ea51f02b57444091nat, x24);
    let x25 = 0x2f58f09e70ffd67a2nat;
    let e25 = 2 * e24 + 1;
    lemma_power_mod_square_times(3nat, e24, n, x24, 0xa15309f0d9f20a531nat, x25);
    let x26 = 0x4ac812930d083f7c1nat;
    let e26 = 2 * e25;
    lemma_power_mod_square(3nat, e25, n, x25, 0xecadf957c737801bnat, x26);
    let x27 = 0x2bb85841d1c25dd3nat;
    let e27 = 2 * e26;
    lemma_power_mod_square(3nat, e26, n, x26, 0x24e6a0f819009e39enat, x27);
    let x28 = 0x28a947a967695d3eanat;
    let e28 = 2 * e27;
    lemma_power_mod_square(3nat, e27, n, x27, 0xc9cde4f7c1b837nat, x28);
    let x29 = 0x49ac9265af4b0ca86nat;
    let e29 = 2 * e28 + 1;
    lemma_power_mod_square_times(3nat, e28, n, x28, 0x20ba966fc20a09ad6nat, x29);
    let x30 = 0x3215431a81d08c119nat;
    let e30 = 2 * e29;
    lemma_power_mod_square(3nat, e29, n, x29, 0x23d0e9fcb055132a3nat, x30);
    let x31 = 0x3a297300482654877nat;
    let e31 = 2 * e30;
    lemma_power_mod_square(3nat, e30, n, x30, 0x108d1c2cc1039ad4anat, x31);
    let x32 = 0x9514d2eff445454f7nat;
    let e32 = 2 * e31 + 1;
    lemma_power_mod_square_times(3nat, e31, n, x31, 0x42f6fecf0d1ad29dcnat, x32);
}

proof fn lemma_power_174723607534414371449_over_4051_part_1()
    requires
        power_mod(3nat, 0x13276cc89nat, 0x978c6f353c3889a79nat) == 0x9514d2eff445454f7nat,
    ensures
        power_mod(3nat, 0x993b6644dde8a8nat, 0x978c6f353c3889a79nat) == 0x6627699f651f504fcnat,
{
    let n = 0x978c6f353c3889a79nat;
    let e0 = 0x13276cc89nat;
    let x0 = 0x9514d2eff445454f7nat;
    let x1 = 0x640f21fdc51775288nat;
    let e1 = 2 * e0 + 1;
    lemma_power_mod_square_times(3nat, e0, n, x0, 0x1b7f67d1b495033903nat, x1);
    let x2 = 0x82445bdbcedcdb6e7nat;
    let e2 = 2 * e1;
    lemma_power_mod_square(3nat, e1, n, x1, 0x42104031ca31215e1nat, x2);
    let x3 = 0x4287f24a9deb49105nat;
    let e3 = 2 * e2 + 1;
    lemma_power_mod_square_times(3nat, e2, n, x2, 0x14fec062bfc639ab3enat, x3);
    let x4 = 0x5995d9be4ca1d42a5nat;
    let e4 = 2 * e3 + 1;
    lemma_power_mod_square_times(3nat, e3, n, x3, 0x579f7beaf84fbcf56nat, x4);
    let x5 = 0x10d35cd3a7946c5benat;
    let e5 = 2 * e4 + 1;
    lemma_power_mod_square_times(3nat, e4, n, x4, 0x9ededd2a38d5efc75nat, x5);
    let x6 = 0x1171f4e4e60f8791fnat;
    let e6 = 2 * e5;
    lemma_power_mod_square(3nat, e5, n, x5, 0x1de39415c614f5cdnat, x6);
    let x7 = 0x864586923803e557anat;
    let e7 = 2 * e6 + 1;
    lemma_power_mod_square_times(3nat, e6, n, x6, 0x606435455e79dbd1nat, x7);
    let x8 = 0x183af9761e825471cnat;
    let e8 = 2 * e7 + 1;
    lemma_power_mod_square_times(3nat, e7, n, x7, 0x164e4866581c9739d0nat, x8);
    let x9 = 0x8967f38535a74aa2dnat;
    let e9 = 2 * e8 + 1;
    lemma_power_mod_square_times(3nat, e8, n, x8, 0xb9f4a75511d2fe5bnat, x9);
    let x10 = 0x4bebdb90cf1abcb7anat;
    let e10 = 2 * e9 + 1;
    lemma_power_mod_square_times(3nat, e9, n, x9, 0x175bffea64a384fa09nat, x10);
    let x11 = 0x28f07cd68a6e68721nat;
    let e11 = 2 * e10;
    lemma_power_mod_square(3nat, e10, n, x10, 0x2608c91cce819f65bnat, x11);
    let x12 = 0x64c2fb63163760b6nat;
    let e12 = 2 * e11 + 1;
    lemma_power_mod_square_times(3nat, e11, n, x11, 0x212d9cb17d5ea3335nat, x12);
    let x13 = 0x7cfe1c89f7a2fc7cdnat;
    let e13 = 2 * e12;
    lemma_power_mod_square(3nat, e12, n, x12, 0x42fe92c967a708fnat, x13);
    let x14 = 0x5f1eeb8d19aa640benat;
    let e14 = 2 * e13;
    lemma_power_mod_square(3nat, e13, n, x13, 0x67171016268f61a03nat, x14);
    let x15 = 0x15d033ba5e5c474f6nat;
    let e15 = 2 * e14;
    lemma_power_mod_square(3nat, e14, n, x14, 0x3bb4113458e9374fenat, x15);
    let x16 = 0xa285ed040545d496nat;
    let e16 = 2 * e15 + 1;
    lemma_power_mod_square_times(3nat, e15, n, x15, 0x96b4d6e87742bfc6nat, x16);
    let x17 = 0x15c9abe6937f840a9nat;
    let e17 = 2 * e16;
    lemma_power_mod_square(3nat, e16, n, x16, 0xae4adebbaf98253nat, x17);
    let x18 = 0x70dcbf6f0f6d5e78dnat;
    let e18 = 2 * e17 + 1;
    lemma_power_mod_square_times(3nat, e17, n, x17, 0x965aa75a72b476d6nat, x18);
    let x19 = 0x4f58a90361314b352nat;
    let e19 = 2 * e18;
    lemma_power_mod_square(3nat, e18, n, x18, 0x540d34c2780974d4fnat, x19);
    let x20 = 0x318c3eeb7cd6df21nat;
    let e20 = 2 * e19 + 1;
    lemma_power_mod_square_times(3nat, e19, n, x19, 0x7ca150dc84c2ab643nat, x20);
    let x21 = 0x30193e53d37e30045nat;
    let e21 = 2 * e20;
    lemma_power_mod_square(3nat, e20, n, x20, 0x1033086e10452dcnat, x21);
    let x22 = 0x874dc4104e9762e0dnat;
    let e22 = 2 * e21;
    lemma_power_mod_square(3nat, e21, n, x21, 0xf43fcb1b625625ecnat, x22);
    let x23 = 0x6627699f651f504fcnat;
    let e23 = 2 * e22;
    lemma_power_mod_square(3nat, e22, n, x22, 0x78ccdf9b1d3c7e9d5nat, x23);
}

proof fn lemma_power_174723607534414371449_over_4051()
    ensures
        power_mod(3nat, 0x993b6644dde8a8nat, 0x978c6f353c3889a79nat) == 0x6627699f651f504fcnat,
{
    lemma_power_mod_first(3nat, 0x978c6f353c3889a79nat);
    lemma_power_174723607534414371449_over_4051_part_0();
    lemma_power_174723607534414371449_over_4051_part_1();
}

proof fn lemma_power_174723607534414371449_over_120233_part_0()
    requires
        power_mod(3nat, 1nat, 0x978c6f353c3889a79nat) == 3nat,
    ensures
        power_mod(3nat, 0x14a6bdcdcnat, 0x978c6f353c3889a79nat) == 0x76ace3962d6f36eednat,
{
    let n = 0x978c6f353c3889a79nat;
    let e0 = 1nat;
    let x0 = 3nat;
    let x1 = 9nat;
    let e1 = 2 * e0;
    lemma_power_mod_square(3nat, e0, n, x0, 0nat, x1);
    let x2 = 243nat;
    let e2 = 2 * e1 + 1;
    lemma_power_mod_square_times(3nat, e1, n, x1, 0nat, x2);
    let x3 = 59049nat;
    let e3 = 2 * e2;
    lemma_power_mod_square(3nat, e2, n, x2, 0nat, x3);
    let x4 = 0xcfd41b91nat;
    let e4 = 2 * e3;
    lemma_power_mod_square(3nat, e3, n, x3, 0nat, x4);
    let x5 = 0x1fa2a1cf67b5fb863nat;
    let e5 = 2 * e4 + 1;
    lemma_power_mod_square_times(3nat, e4, n, x4, 0nat, x5);
    let x6 = 0x789f8864003c0511anat;
    let e6 = 2 * e5;
    lemma_power_mod_square(3nat, e5, n, x5, 0x69a904acce9a52e7nat, x6);
    let x7 = 0x1071ab9e8a469c6d7nat;
    let e7 = 2 * e6 + 1;
    lemma_power_mod_square_times(3nat, e6, n, x6, 0x120068634fcae4b07dnat, x7);
    let x8 = 0x4d597b2e12ee2c4cnat;
    let e8 = 2 * e7;
    lemma_power_mod_square(3nat, e7, n, x7, 0x1c8c6f35d2c05d2dnat, x8);
    let x9 = 0x95f5a2f17d3404985nat;
    let e9 = 2 * e8;
    lemma_power_mod_square(3nat, e8, n, x8, 0x277a9072037a2a3nat, x9);
    let x10 = 0x46a24f864fd9484a3nat;
    let e10 = 2 * e9 + 1;
    lemma_power_mod_square_times(3nat, e9, n, x9, 0x1bd294fe847606f3e8nat, x10);
    let x11 = 0x20bbc2501e4c9d1c3nat;
    let e11 = 2 * e10 + 1;
    lemma_power_mod_square_times(3nat, e10, n, x10, 0x62c3817c8e9823458nat, x11);
    let x12 = 0x16912be46a25a4194nat;
    let e12 = 2 * e11;
    lemma_power_mod_square(3nat, e11, n, x11, 0x711f82e9eba1b35dnat, x12);
    let x13 = 0x8846c4a155b3b3528nat;
    let e13 = 2 * e12 + 1;
    lemma_power_mod_square_times(3nat, e12, n, x12, 0xa14d553799b8fdc8nat, x13);
    let x14 = 0x96587a8cb613cbe1cnat;
    let e14 = 2 * e13;
    lemma_power_mod_square(3nat, e13, n, x13, 0x7a8b180b2fb9e5044nat, x14);
    let x15 = 0x4d4b2298d5c4fa8f7nat;
    let e15 = 2 * e14 + 1;
    lemma_power_mod_square_times(3nat, e14, n, x14, 0x1bf74e706dfaeab3c1nat, x15);
    let x16 = 0x49e8d24a587538c23nat;
    let e16 = 2 * e15 + 1;
    lemma_power_mod_square_times(3nat, e15, n, x15, 0x7643c69dd28bb9150nat, x16);
    let x17 = 0x95f90b44ec1e606c9nat;
    let e17 = 2 * e16 + 1;
    lemma_power_mod_square_times(3nat, e16, n, x16, 0x6c22c305e07f257a2nat, x17);
    let x18 = 0x96cbe977c4bcffb1dnat;
    let e18 = 2 * e17 + 1;
    lemma_power_mod_square_times(3nat, e17, n, x17, 0x1bd3d8b3659625bf86nat, x18);
    let x19 = 0x6005c0a6c34b5fd05nat;
    let e19 = 2 * e18;
    lemma_power_mod_square(3nat, e18, n, x18, 0x960c584d515deb564nat, x19);
    let x20 = 0x769b887de83155df6nat;
    let e20 = 2 * e19 + 1;
    lemma_power_mod_square_times(3nat, e19, n, x19, 0xb685a03126e99e5bdnat, x20);
    let x21 = 0x7b9389b23e77e1c73nat;
    let e21 = 2 * e20 + 1;
    lemma_power_mod_square_times(3nat, e20, n, x20, 0x1167ae483d01d8c441nat, x21);
    let x22 = 0x81dcce3b1a8abae1nat;
    let e22 = 2 * e21 + 1;
    lemma_power_mod_square_times(3nat, e21, n, x21, 0x12e4d1dbed09eff26anat, x22);
    let x23 = 0x1317275b2b047e48fnat;
    let e23 = 2 * e22;
    lemma_power_mod_square(3nat, e22, n, x22, 0x6f47983d6df9242nat, x23);
    let x24 = 0x89ac60f3b9f0fb35bnat;
    let e24 = 2 * e23;
    lemma_power_mod_square(3nat, e23, n, x23, 0x267a16e0cea6f736nat, x24);
    let x25 = 0x7d98375f4a9fc48b0nat;
    let e25 = 2 * e24 + 1;
    lemma_power_mod_square_times(3nat, e24, n, x24, 0x177349b91b620aca73nat, x25);
    let x26 = 0x20edfd944a4f5f076nat;
    let e26 = 2 * e25 + 1;
    lemma_power_mod_square_times(3nat, e25, n, x25, 0x13841a168f88948c5anat, x26);
    let x27 = 0x2766f41a767f97ef1nat;
    let e27 = 2 * e26;
    lemma_power_mod_square(3nat, e26, n, x26, 0x727bbdae8b02e64bnat, x27);
    let x28 = 0x45e9801fdcce4fc1anat;
    let e28 = 2 * e27 + 1;
    lemma_power_mod_square_times(3nat, e27, n, x27, 0x1ebbbb09281ae7291nat, x28);
    let x29 = 0x8715c0d027d753a37nat;
    let e29 = 2 * e28 + 1;
    lemma_power_mod_square_times(3nat, e28, n, x28, 0x60c153b77d80a4e1dnat, x29);
    let x30 = 0x55bea1bc4bdc0bed3nat;
    let e30 = 2 * e29 + 1;
    lemma_power_mod_square_times(3nat, e29, n, x29, 0x1693acfbdde4ad45a0nat, x30);
    let x31 = 0x6cc668d1946218e75nat;
    let e31 = 2 * e30;
    lemma_power_mod_square(3nat, e30, n, x30, 0x30837243b88c1d214nat, x31);
    let x32 = 0x76ace3962d6f36eednat;
    let e32 = 2 * e31;
    lemma_power_mod_square(3nat, e31, n, x31, 0x4e12f4057dd04c3ecnat, x32);
}

proof fn lemma_power_174723607534414371449_over_120233_part_1()
    requires
        power_mod(3nat, 0x14a6bdcdcnat, 0x978c6f353c3889a79nat) == 0x76ace3962d6f36eednat,
    ensures
        power_mod(3nat, 0x529af737261b8nat, 0x978c6f353c3889a79nat) == 0x7ca97e0078df8905anat,
{
    let n = 0x978c6f353c3889a79nat;
    let e0 = 0x14a6bdcdcnat;
    let x0 = 0x76ace3962d6f36eednat;
    let x1 = 0x5be51498d9834f0danat;
    let e1 = 2 * e0 + 1;
    lemma_power_mod_square_times(3nat, e0, n, x0, 0x116cc6a773ca1b2829nat, x1);
    let x2 = 0x18ed099e7518940a0nat;
    let e2 = 2 * e1;
    lemma_power_mod_square(3nat, e1, n, x1, 0x37b8f49bebb1e8024nat, x2);
    let x3 = 0x3f02deaf67845f178nat;
    let e3 = 2 * e2;
    lemma_power_mod_square(3nat, e2, n, x2, 0x419852a02f6ee4c8nat, x3);
    let x4 = 0x531c8939040195d24nat;
    let e4 = 2 * e3 + 1;
    lemma_power_mod_square_times(3nat, e3, n, x3, 0x4e98ca18bc09d517cnat, x4);
    let x5 = 0x3249c6ed5ee2161a8nat;
    let e5 = 2 * e4 + 1;
    lemma_power_mod_square_times(3nat, e4, n, x4, 0x88bd18df729156fc8nat, x5);
    let x6 = 0x4beb23dcca407d6benat;
    let e6 = 2 * e5;
    lemma_power_mod_square(3nat, e5, n, x5, 0x10afe4132e46ba312nat, x6);
    let x7 = 0x7630333efc7870f25nat;
    let e7 = 2 * e6;
    lemma_power_mod_square(3nat, e6, n, x6, 0x2608110e676a22d17nat, x7);
    let x8 = 0x26f211380cc8d2139nat;
    let e8 = 2 * e7;
    lemma_power_mod_square(3nat, e7, n, x7, 0x5c2bec17bb5778320nat, x8);
    let x9 = 0x91c7afe894c0e38f5nat;
    let e9 = 2 * e8;
    lemma_power_mod_square(3nat, e8, n, x8, 0xa02261d6699f849cnat, x9);
    let x10 = 0x76efccc8ed8ab51b9nat;
    let e10 = 2 * e9 + 1;
    lemma_power_mod_square_times(3nat, e9, n, x9, 0x1a4b173cc5539bdec2nat, x10);
    let x11 = 0x7788eaea25ef1235nat;
    let e11 = 2 * e10 + 1;
    lemma_power_mod_square_times(3nat, e10, n, x10, 0x1180724c1c5c3bc44enat, x11);
    let x12 = 0x52ba5ec4e022042b8nat;
    let e12 = 2 * e11;
    lemma_power_mod_square(3nat, e11, n, x11, 0x5e48a7baf9ebe09nat, x12);
    let x13 = 0x1edc2e6934c03986bnat;
    let e13 = 2 * e12 + 1;
    lemma_power_mod_square_times(3nat, e12, n, x12, 0x877ad42b279be91bdnat, x13);
    let x14 = 0x78b35228c60bd6b23nat;
    let e14 = 2 * e13 + 1;
    lemma_power_mod_square_times(3nat, e13, n, x13, 0x12da2e322b9eb6148nat, x14);
    let x15 = 0x6547e98d3bf705d47nat;
    let e15 = 2 * e14 + 1;
    lemma_power_mod_square_times(3nat, e14, n, x14, 0x120650e2a9be782ab4nat, x15);
    let x16 = 0x699b4a58680221ed9nat;
    let e16 = 2 * e15;
    lemma_power_mod_square(3nat, e15, n, x15, 0x43afcb5a63b30ab98nat, x16);
    let x17 = 0xc33331ea84058bd2nat;
    let e17 = 2 * e16;
    lemma_power_mod_square(3nat, e16, n, x16, 0x499789e89c7039157nat, x17);
    let x18 = 0x7ca97e0078df8905anat;
    let e18 = 2 * e17;
    lemma_power_mod_square(3nat, e17, n, x17, 0xfb6cafae2254cbanat, x18);
}

proof fn lemma_power_174723607534414371449_over_120233()
    ensures
        power_mod(3nat, 0x529af737261b8nat, 0x978c6f353c3889a79nat) == 0x7ca97e0078df8905anat,
{
    lemma_power_mod_first(3nat, 0x978c6f353c3889a79nat);
    lemma_power_174723607534414371449_over_120233_part_0();
    lemma_power_174723607534414371449_over_120233_part_1();
}

proof fn lemma_power_174723607534414371449_over_44706919_part_0()
    requires
        power_mod(3nat, 1nat, 0x978c6f353c3889a79nat) == 3nat,
    ensures
        power_mod(3nat, 0x1c6f97443nat, 0x978c6f353c3889a79nat) == 0x482e33ed004ff383dnat,
{
    let n = 0x978c6f353c3889a79nat;
    let e0 = 1nat;
    let x0 = 3nat;
    let x1 = 27nat;
    let e1 = 2 * e0 + 1;
    lemma_power_mod_square_times(3nat, e0, n, x0, 0nat, x1);
    let x2 = 2187nat;
    let e2 = 2 * e1 + 1;
    lemma_power_mod_square_times(3nat, e1, n, x1, 0nat, x2);
    let x3 = 0x48fb79nat;
    let e3 = 2 * e2;
    lemma_power_mod_square(3nat, e2, n, x2, 0nat, x3);
    let x4 = 0x14ce6b167f31nat;
    let e4 = 2 * e3;
    lemma_power_mod_square(3nat, e3, n, x3, 0nat, x4);
    let x5 = 0x5dbac41dea6c679c9nat;
    let e5 = 2 * e4;
    lemma_power_mod_square(3nat, e4, n, x4, 0x2db458nat, x5);
    let x6 = 0x2da55aa6b0bf8d70anat;
    let e6 = 2 * e5 + 1;
    lemma_power_mod_square_times(3nat, e5, n, x5, 0xade8c044f91766171nat, x6);
    let x7 = 0x25534d72aad27812enat;
    let e7 = 2 * e6 + 1;
    lemma_power_mod_square_times(3nat, e6, n, x6, 0x293ec449ef366a46enat, x7);
    let x8 = 0x314db58f54bfe9f4enat;
    let e8 = 2 * e7;
    lemma_power_mod_square(3nat, e7, n, x7, 0x931683b8b0b6cf26nat, x8);
    let x9 = 0x858818add6bc542cfnat;
    let e9 = 2 * e8 + 1;
    lemma_power_mod_square_times(3nat, e8, n, x8, 0x301eb9c2b9c660525nat, x9);
    let x10 = 0x33b4cdec2169fe5fenat;
    let e10 = 2 * e9 + 1;
    lemma_power_mod_square_times(3nat, e9, n, x9, 0x160f84c10d23a8cc0dnat, x10);
    let x11 = 0x3f23e2b74f289e7b0nat;
    let e11 = 2 * e10 + 1;
    lemma_power_mod_square_times(3nat, e10, n, x10, 0x34eca427e9450fc3cnat, x11);
    let x12 = 0x7467fe912a56020fnat;
    let e12 = 2 * e11 + 1;
    lemma_power_mod_square_times(3nat, e11, n, x11, 0x4eeb3ce70cd5b0439nat, x12);
    let x13 = 0x1987dc7f311fe7236nat;
    let e13 = 2 * e12 + 1;
    lemma_power_mod_square_times(3nat, e12, n, x12, 0x10c3d2bd8d343c95nat, x13);
    let x14 = 0x6657e6ad49549498bnat;
    let e14 = 2 * e13;
    lemma_power_mod_square(3nat, e13, n, x13, 0x44d1136f46de6261nat, x14);
    let x15 = 0x43be3795b5f5a8d2dnat;
    let e15 = 2 * e14;
    lemma_power_mod_square(3nat, e14, n, x14, 0x451d3eb44a8e753acnat, x15);
    let x16 = 0x8e598b8e08a734de9nat;
    let e16 = 2 * e15 + 1;
    lemma_power_mod_square_times(3nat, e15, n, x15, 0x5ad832309f998e9e2nat, x16);
    let x17 = 0x62616519492609ef7nat;
    let e17 = 2 * e16;
    lemma_power_mod_square(3nat, e16, n, x16, 0x85b598273ea4c716anat, x17);
    let x18 = 0x96e2c63ae711493ebnat;
    let e18 = 2 * e17 + 1;
    lemma_power_mod_square_times(3nat, e17, n, x17, 0xbf98a3e2bb6c0b948nat, x18);
    let x19 = 0x10489967b2748fea0nat;
    let e19 = 2 * e18 + 1;
    lemma_power_mod_square_times(3nat, e18, n, x18, 0x1c2ad91909b71d9023nat, x19);
    let x20 = 0x70018a9375761158nat;
    let e20 = 2 * e19 + 1;
    lemma_power_mod_square_times(3nat, e19, n, x19, 0x53fb9127b9a945e8nat, x20);
    let x21 = 0x3315a81635b06ee2nat;
    let e21 = 2 * e20;
    lemma_power_mod_square(3nat, e20, n, x20, 0x52c7f25d28c22cenat, x21);
    let x22 = 0x7838f27e4a90ab8ebnat;
    let e22 = 2 * e21 + 1;
    lemma_power_mod_square_times(3nat, e21, n, x21, 0x33a8ce4027fba69nat, x22);
    let x23 = 0x1c399a063eff5fe9enat;
    let e23 = 2 * e22;
    lemma_power_mod_square(3nat, e22, n, x22, 0x5f5f24867c5683b33nat, x23);
    let x24 = 0x5e0e00e2990cd2c84nat;
    let e24 = 2 * e23;
    lemma_power_mod_square(3nat, e23, n, x23, 0x541b984b2a836500nat, x24);
    let x25 = 0x529f24e7935c9f98bnat;
    let e25 = 2 * e24;
    lemma_power_mod_square(3nat, e24, n, x24, 0x3a5f63d7fecb7cd6dnat, x25);
    let x26 = 0x65c960ce24284ed1nat;
    let e26 = 2 * e25 + 1;
    lemma_power_mod_square_times(3nat, e25, n, x25, 0x8721b66607a136beanat, x26);
    let x27 = 0x157763ed4b77c38b8nat;
    let e27 = 2 * e26;
    lemma_power_mod_square(3nat, e26, n, x26, 0x445d45a9a38f2f1nat, x27);
    let x28 = 0x81404669c3429a539nat;
    let e28 = 2 * e27;
    lemma_power_mod_square(3nat, e27, n, x27, 0x30a678651039657fnat, x28);
    let x29 = 0x206ded13c4e903f1dnat;
    let e29 = 2 * e28;
    lemma_power_mod_square(3nat, e28, n, x28, 0x6e3bf68b390d25f34nat, x29);
    let x30 = 0x23b9f0fa4789fb659nat;
    let e30 = 2 * e29;
    lemma_power_mod_square(3nat, e29, n, x29, 0x6f080bb715cc6e70nat, x30);
    let x31 = 0x1c8438c7a21868a79nat;
    let e31 = 2 * e30 + 1;
    lemma_power_mod_square_times(3nat, e30, n, x30, 0x19443df5ffde372aanat, x31);
    let x32 = 0x482e33ed004ff383dnat;
    let e32 = 2 * e31 + 1;
    lemma_power_mod_square_times(3nat, e31, n, x31, 0x1018fd6ae3fba9486nat, x32);
}

proof fn lemma_power_174723607534414371449_over_44706919_part_1()
    requires
        power_mod(3nat, 0x1c6f97443nat, 0x978c6f353c3889a79nat) == 0x482e33ed004ff383dnat,
    ensures
        power_mod(3nat, 0x38df2e886c8nat, 0x978c6f353c3889a79nat) == 0x3e80522eaf0ac29a5nat,
{
    let n = 0x978c6f353c3889a79nat;
    let e0 = 0x1c6f97443nat;
    let x0 = 0x482e33ed004ff383dnat;
    let x1 = 0x4a28d569e71542banat;
    let e1 = 2 * e0;
    lemma_power_mod_square(3nat, e0, n, x0, 0x2260e94e6bf70b687nat, x1);
    let x2 = 0x791214d1cc83f9b5cnat;
    let e2 = 2 * e1 + 1;
    lemma_power_mod_square_times(3nat, e1, n, x1, 0x6cde63a18a5be90nat, x2);
    let x3 = 0x6e80b17ade02431c2nat;
    let e3 = 2 * e2 + 1;
    lemma_power_mod_square_times(3nat, e2, n, x2, 0x1222a9468cce0df95enat, x3);
    let x4 = 0x56c4d0e0105bb5150nat;
    let e4 = 2 * e3;
    lemma_power_mod_square(3nat, e3, n, x3, 0x5092e65d722c70654nat, x4);
    let x5 = 0x195603d3d1d483ed8nat;
    let e5 = 2 * e4;
    lemma_power_mod_square(3nat, e4, n, x4, 0x31ade684aa1544168nat, x5);
    let x6 = 0x22cdd5128228b5109nat;
    let e6 = 2 * e5 + 1;
    lemma_power_mod_square_times(3nat, e5, n, x5, 0xcb5026ed3d1da1afnat, x6);
    let x7 = 0x39d50c1148a004950nat;
    let e7 = 2 * e6;
    lemma_power_mod_square(3nat, e6, n, x6, 0x7fe32320f1bc20c9nat, x7);
    let x8 = 0xfe48588ccd45b4dbnat;
    let e8 = 2 * e7;
    lemma_power_mod_square(3nat, e7, n, x7, 0x1611bb2740c078c0dnat, x8);
    let x9 = 0x3e80522eaf0ac29a5nat;
    let e9 = 2 * e8;
    lemma_power_mod_square(3nat, e8, n, x8, 0x1aaa8d6701dc2a54nat, x9);
}

proof fn lemma_power_174723607534414371449_over_44706919()
    ensures
        power_mod(3nat, 0x38df2e886c8nat, 0x978c6f353c3889a79nat) == 0x3e80522eaf0ac29a5nat,
{
    lemma_power_mod_first(3nat, 0x978c6f353c3889a79nat);
    lemma_power_174723607534414371449_over_44706919_part_0();
    lemma_power_174723607534414371449_over_44706919_part_1();
}

proof fn lemma_certificate_174723607534414371449()
    ensures
        is_certificate(0x978c6f353c3889a79nat, 3nat, seq![2nat, 2nat, 2nat, 17nat, 59nat, 4051nat, 120233nat, 0x2aa2c67nat]),
{
    let n = 0x978c6f353c3889a79nat;
    let factors = seq![2nat, 2nat, 2nat, 17nat, 59nat, 4051nat, 120233nat, 0x2aa2c67nat];
    lemma_small_primes();
    lemma_prime_17();
    lemma_prime_59();
    lemma_prime_4051();
    lemma_prime_120233();
    lemma_prime_44706919();
    lemma_power_174723607534414371449_over_2();
    lemma_fundamental_div_mod_converse(0x978c6f353c3889a78int, 2int, 0x4bc6379a9e1c44d3cint, 0);
    lemma_power_174723607534414371449_over_17();
    lemma_fundamental_div_mod_converse(0x978c6f353c3889a78int, 17int, 0x8ea24a8c74e9eaf8int, 0);
    lemma_power_174723607534414371449_over_59();
    lemma_fundamental_div_mod_converse(0x978c6f353c3889a78int, 59int, 0x2919112421afdfe8int, 0);
    lemma_power_174723607534414371449_over_4051();
    lemma_fundamental_div_mod_converse(0x978c6f353c3889a78int, 4051int, 0x993b6644dde8a8int, 0);
    lemma_power_174723607534414371449_over_120233();
    lemma_fundamental_div_mod_converse(0x978c6f353c3889a78int, 120233int, 0x529af737261b8int, 0);
    lemma_power_174723607534414371449_over_44706919();
    lemma_fundamental_div_mod_converse(0x978c6f353c3889a78int, 0x2aa2c67int, 0x38df2e886c8int, 0);
    lemma_power_mod_square(3nat, 0x4bc6379a9e1c44d3cnat, n, 0x978c6f353c3889a78nat, 0x978c6f353c3889a77nat, 1);
    let f0 = Seq::<nat>::empty();
    lemma_product_push(f0, 2nat, 1nat);
    let f1 = f0.push(2nat);
    lemma_product_push(f1, 2nat, 2nat);
    let f2 = f1.push(2nat);
    lemma_product_push(f2, 2nat, 4nat);
    let f3 = f2.push(2nat);
    lemma_product_push(f3, 17nat, 8nat);
    let f4 = f3.push(17nat);
    lemma_product_push(f4, 59nat, 136nat);
    let f5 = f4.push(59nat);
    lemma_product_push(f5, 4051nat, 8024nat);
    let f6 = f5.push(4051nat);
    lemma_product_push(f6, 120233nat, 0x1effd88nat);
    let f7 = f6.push(120233nat);
    lemma_product_push(f7, 0x2aa2c67nat, 0x38df2e886c8nat);
    let f8 = f7.push(0x2aa2c67nat);
    assert(factors =~= f8);
    assert forall|j: int| 0 <= j < factors.len() implies is_prime(#[trigger] factors[j])
        && power_mod(3nat, ((n - 1) / factors[j] as int) as nat, n) != 1 by {
        if j == 0 {
        } else if j == 1 {
        } else if j == 2 {
        } else if j == 3 {
        } else if j == 4 {
        } else if j == 5 {
        } else if j == 6 {
        } else if j == 7 {
        }
    }
}

/// 174723607534414371449 is prime.
pub(crate) proof fn lemma_prime_174723607534414371449()
    ensures
        is_prime(0x978c6f353c3889a79nat),
{
    lemma_certificate_174723607534414371449();
    lemma_certified_prime(0x978c6f353c3889a79nat, 3nat, seq![2nat, 2nat, 2nat, 17nat, 59nat, 4051nat, 120233nat, 0x2aa2c67nat]);
}

proof fn lemma_power_29047611873442575647497758179_over_2_part_0()
    requires
        power_mod(2nat, 1nat, 0x5ddb9f12ef6348a3e23ba5e3nat) == 2nat,
    ensures
        power_mod(2nat, 0x1776e7c4bnat, 0x5ddb9f12ef6348a3e23ba5e3nat) == 0x13c8741ab95ffced1dc33051nat,
{
    let n = 0x5ddb9f12ef6348a3e23ba5e3nat;
    let e0 = 1nat;
    let x0 = 2nat;
    let x1 = 4nat;
    let e1 = 2 * e0;
    lemma_power_mod_square(2nat, e0, n, x0, 0nat, x1);
    let x2 = 32nat;
    let e2 = 2 * e1 + 1;
    lemma_power_mod_square_times(2nat, e1, n, x1, 0nat, x2);
    let x3 = 2048nat;
    let e3 = 2 * e2 + 1;
    lemma_power_mod_square_times(2nat, e2, n, x2, 0nat, x3);
    let x4 = 0x800000nat;
    let e4 = 2 * e3 + 1;
    lemma_power_mod_square_times(2nat, e3, n, x3, 0nat, x4);
    let x5 = 0x400000000000nat;
    let e5 = 2 * e4;
    lemma_power_mod_square(2nat, e4, n, x4, 0nat, x5);
    let x6 = 0x200000000000000000000000nat;
    let e6 = 2 * e5 + 1;
    lemma_power_mod_square_times(2nat, e5, n, x5, 0nat, x6);
    let x7 = 0xa1038a23f97a60b49460e52nat;
    let e7 = 2 * e6 + 1;
    lemma_power_mod_square_times(2nat, e6, n, x6, 0x15d1f9fad3f1c3cd43d0e6fanat, x7);
    let x8 = 0x51708da4b35307ad3969e69fnat;
    let e8 = 2 * e7 + 1;
    lemma_power_mod_square_times(2nat, e7, n, x7, 0x22870c5cce923cc3b3136c3nat, x8);
    let x9 = 0x110e730f3870d8328345f77bnat;
    let e9 = 2 * e8;
    lemma_power_mod_square(2nat, e8, n, x8, 0x46aa1aacca6d523c29763682nat, x9);
    let x10 = 0x15696a2fbe05a6242f3655enat;
    let e10 = 2 * e9 + 1;
    lemma_power_mod_square_times(2nat, e9, n, x9, 0x632ff377a3388d22ef3e01cnat, x10);
    let x11 = 0x339057cc3b85c2e49fc67294nat;
    let e11 = 2 * e10 + 1;
    lemma_power_mod_square_times(2nat, e10, n, x10, 0x9c4f28611ca772399d5fcnat, x11);
    let x12 = 0x3b36708d9eab8cf0f1bb530anat;
    let e12 = 2 * e11;
    lemma_power_mod_square(2nat, e11, n, x11, 0x1c5407ed459c57e0c6211a42nat, x12);
    let x13 = 0x53d333e000e2d64fb8941213nat;
    let e13 = 2 * e12 + 1;
    lemma_power_mod_square_times(2nat, e12, n, x12, 0x4ab62dce94580cc33463a487nat, x13);
    let x14 = 0x13a2d15a5ef315480456f04cnat;
    let e14 = 2 * e13 + 1;
    lemma_power_mod_square_times(2nat, e13, n, x13, 0x95baaac4d9b0fd1b32c4a242nat, x14);
    let x15 = 0x33c3cb14c9a6059150d55e3bnat;
    let e15 = 2 * e14 + 1;
    lemma_power_mod_square_times(2nat, e14, n, x14, 0x837521b35b15dee61651297nat, x15);
    let x16 = 0x44678af2c0c947f217e987fbnat;
    let e16 = 2 * e15;
    lemma_power_mod_square(2nat, e15, n, x15, 0x1c8cac434a3df0cb4707624anat, x16);
    let x17 = 0x4ea3bfcd579fdbcc3c02413dnat;
    let e17 = 2 * e16;
    lemma_power_mod_square(2nat, e16, n, x16, 0x31da912d3d6f4ba1764eec74nat, x17);
    let x18 = 0x3454384b8fff14c028703a3cnat;
    let e18 = 2 * e17 + 1;
    lemma_power_mod_square_times(2nat, e17, n, x17, 0x83c71e5400b374a21d47b5b2nat, x18);
    let x19 = 0x57c935340a7e5222e6dfbedenat;
    let e19 = 2 * e18 + 1;
    lemma_power_mod_square_times(2nat, e18, n, x18, 0x3a59b35d578e41d6bf7e6156nat, x19);
    let x20 = 0x1cdf949598b479933d1373b8nat;
    let e20 = 2 * e19 + 1;
    lemma_power_mod_square_times(2nat, e19, n, x19, 0xa436b50acafa8a754e5b6e70nat, x20);
    let x21 = 0x46ad1ca41a3d1d6072847d6anat;
    let e21 = 2 * e20 + 1;
    lemma_power_mod_square_times(2nat, e20, n, x20, 0x11c3b89d03416b0d20d34472nat, x21);
    let x22 = 0x34a80e323d04a696ee7b5584nat;
    let e22 = 2 * e21 + 1;
    lemma_power_mod_square_times(2nat, e21, n, x21, 0x6a70b2a5cfa71ba584c4ffecnat, x22);
    let x23 = 0xf6277b6ce3403c5c631e242nat;
    let e23 = 2 * e22;
    lemma_power_mod_square(2nat, e22, n, x22, 0x1d8aa00d538076ec00c3e85anat, x23);
    let x24 = 0x55c0122b20c20e3fadeee267nat;
    let e24 = 2 * e23;
    lemma_power_mod_square(2nat, e23, n, x23, 0x28592168262fbe5aed3d97fnat, x24);
    let x25 = 0x50041e342dedc8199e577fcnat;
    let e25 = 2 * e24;
    lemma_power_mod_square(2nat, e24, n, x24, 0x4e57cf79545c8ad7e3ee1ec7nat, x25);
    let x26 = 0x2db803c845583aa571caf0a0nat;
    let e26 = 2 * e25 + 1;
    lemma_power_mod_square_times(2nat, e25, n, x25, 0x886e64f2954d8f24bd4a80nat, x26);
    let x27 = 0x26c6a6359a73082f2c538479nat;
    let e27 = 2 * e26;
    lemma_power_mod_square(2nat, e26, n, x26, 0x16451a8deebcd70157fb310dnat, x27);
    let x28 = 0xdfb73a4217cad1b8a56fc77nat;
    let e28 = 2 * e27;
    lemma_power_mod_square(2nat, e27, n, x27, 0x10050b9d69e5ea0f4e94557enat, x28);
    let x29 = 0x6376824b3637313d126f3f9nat;
    let e29 = 2 * e28 + 1;
    lemma_power_mod_square_times(2nat, e28, n, x28, 0x42a7a93e2f65c79b0e3d303nat, x29);
    let x30 = 0x2a7dcbd2357745df35b245ddnat;
    let e30 = 2 * e29;
    lemma_power_mod_square(2nat, e29, n, x29, 0x696715e475a24a30d1449cnat, x30);
    let x31 = 0x2a513fe2aea267cf57cc7a3bnat;
    let e31 = 2 * e30 + 1;
    lemma_power_mod_square_times(2nat, e30, n, x30, 0x267933bdb6716001950c32fdnat, x31);
    let x32 = 0x13c8741ab95ffced1dc33051nat;
    let e32 = 2 * e31 + 1;
    lemma_power_mod_square_times(2nat, e31, n, x31, 0x2628b2d87aaee2f8c5624f6bnat, x32);
}

proof fn lemma_power_29047611873442575647497758179_over_2_part_1()
    requires
        power_mod(2nat, 0x1776e7c4bnat, 0x5ddb9f12ef6348a3e23ba5e3nat) == 0x13c8741ab95ffced1dc33051nat,
    ensures
        power_mod(2nat, 0x1776e7c4bbd8d228fnat, 0x5ddb9f12ef6348a3e23ba5e3nat) == 0x46b56759937bcbd52026c1c0nat,
{
    let n = 0x5ddb9f12ef6348a3e23ba5e3nat;
    let e0 = 0x1776e7c4bnat;
    let x0 = 0x13c8741ab95ffced1dc33051nat;
    let x1 = 0x55fa4eae4bc4047c05ae76e6nat;
    let e1 = 2 * e0 + 1;
    lemma_power_mod_square_times(2nat, e0, n, x0, 0x856ef08770ae374626c20f4nat, x1);
    let x2 = 0x3a532e1198caa6160b47d426nat;
    let e2 = 2 * e1;
    lemma_power_mod_square(2nat, e1, n, x1, 0x4ec25cfba976636bc9c4ebeanat, x2);
    let x3 = 0x1ef13b2a9a6acd21c0b88c7dnat;
    let e3 = 2 * e2 + 1;
    lemma_power_mod_square_times(2nat, e2, n, x2, 0x487cfccd1594c4f81109f7f9nat, x3);
    let x4 = 0x3b23598367431ba4f7340b49nat;
    let e4 = 2 * e3 + 1;
    lemma_power_mod_square_times(2nat, e3, n, x3, 0x1466d076d8a8576d2edde863nat, x4);
    let x5 = 0x454a9708679ce6f8b4543777nat;
    let e5 = 2 * e4 + 1;
    lemma_power_mod_square_times(2nat, e4, n, x4, 0x4a86091da94ee2fe9e757919nat, x5);
    let x6 = 0x231a0e2c1786eebdb3846279nat;
    let e6 = 2 * e5 + 1;
    lemma_power_mod_square_times(2nat, e5, n, x5, 0x664f5237a9da9384af8b6f83nat, x6);
    let x7 = 0x1121b93981a370653a3d5e3nat;
    let e7 = 2 * e6;
    lemma_power_mod_square(2nat, e6, n, x6, 0xd20ae8d56195c01cf2a6cdanat, x7);
    let x8 = 0xbd079915a5df3d6dba40c98nat;
    let e8 = 2 * e7 + 1;
    lemma_power_mod_square_times(2nat, e7, n, x7, 0x64109cd4fc0b7d937e73enat, x8);
    let x9 = 0x264c47b421e13a5132c99db0nat;
    let e9 = 2 * e8 + 1;
    lemma_power_mod_square_times(2nat, e8, n, x8, 0x2f9693ada7798be006446f0nat, x9);
    let x10 = 0x3b8d512b0df102d8c63efd6enat;
    let e10 = 2 * e9;
    lemma_power_mod_square(2nat, e9, n, x9, 0xfa08f0281fef0f4b94d1ac6nat, x10);
    let x11 = 0x2ddc0d00048e3b33cf33b4d6nat;
    let e11 = 2 * e10;
    lemma_power_mod_square(2nat, e10, n, x10, 0x25c9057102ed9af690683b3anat, x11);
    let x12 = 0x10dab96fb0b3801c0933bdecnat;
    let e12 = 2 * e11;
    lemma_power_mod_square(2nat, e11, n, x11, 0x166843b8714e9ad44b4158a8nat, x12);
    let x13 = 0x43f7fd598d939579c6149445nat;
    let e13 = 2 * e12 + 1;
    lemma_power_mod_square_times(2nat, e12, n, x12, 0x60d9ed3818df6bfe5f004a9nat, x13);
    let x14 = 0x14b3536c4b6eb7b5d7b6dff1nat;
    let e14 = 2 * e13 + 1;
    lemma_power_mod_square_times(2nat, e13, n, x13, 0x6270f766ee50b44eae36a18bnat, x14);
    let x15 = 0x51f56b2362d3688c1853a256nat;
    let e15 = 2 * e14;
    lemma_power_mod_square(2nat, e14, n, x14, 0x490c618afa72c928dc04539nat, x15);
    let x16 = 0x4e1cd767066786aba0055c4cnat;
    let e16 = 2 * e15 + 1;
    lemma_power_mod_square_times(2nat, e15, n, x15, 0x8f22d25867a19b126fb79554nat, x16);
    let x17 = 0x31bed9e8200fe5499edcc233nat;
    let e17 = 2 * e16;
    lemma_power_mod_square(2nat, e16, n, x16, 0x41023fd623801436c4e110bfnat, x17);
    let x18 = 0x14da8ab036cc7a737b7d56afnat;
    let e18 = 2 * e17;
    lemma_power_mod_square(2nat, e17, n, x17, 0x1a5d955b60bf10dd6d6b6bbenat, x18);
    let x19 = 0x12049c1beb4c1f9095ba5danat;
    let e19 = 2 * e18 + 1;
    lemma_power_mod_square_times(2nat, e18, n, x18, 0x94445a8f5f4aec6fc0dc578nat, x19);
    let x20 = 0x300cee56ffbea894a20a3b0fnat;
    let e20 = 2 * e19;
    lemma_power_mod_square(2nat, e19, n, x19, 0x3757cea390022b4755f27nat, x20);
    let x21 = 0x41a94d0f912fe2784b8eb6b3nat;
    let e21 = 2 * e20;
    lemma_power_mod_square(2nat, e20, n, x20, 0x189974e6671b94566098227anat, x21);
    let x22 = 0x181def3c0efab81fcb7fe10anat;
    let e22 = 2 * e21;
    lemma_power_mod_square(2nat, e21, n, x21, 0x2def7dbb489c1271612e9195nat, x22);
    let x23 = 0x379640dfe9d4c1606fea255cnat;
    let e23 = 2 * e22 + 1;
    lemma_power_mod_square_times(2nat, e22, n, x22, 0xc64cdd6ddf39147a83caaa4nat, x23);
    let x24 = 0x185a4ae5d11984fc620e644nat;
    let e24 = 2 * e23;
    lemma_power_mod_square(2nat, e23, n, x23, 0x20ebce213b2aa9a1ad99bbc4nat, x24);
    let x25 = 0x2eb5ae4826e229c9926b82acnat;
    let e25 = 2 * e24 + 1;
    lemma_power_mod_square_times(2nat, e24, n, x24, 0xca324c8cd160239dd52fcnat, x25);
    let x26 = 0x1e78b11e83c74c1de8eadd8bnat;
    let e26 = 2 * e25;
    lemma_power_mod_square(2nat, e25, n, x25, 0x173ee814ac7bc6156d1568f7nat, x26);
    let x27 = 0x4bbfd6ad1d67c281a91807enat;
    let e27 = 2 * e26;
    lemma_power_mod_square(2nat, e26, n, x26, 0x9e488fa04d7498cc6bb7c09nat, x27);
    let x28 = 0x39df54ead3929f15b29dcba7nat;
    let e28 = 2 * e27;
    lemma_power_mod_square(2nat, e27, n, x27, 0x3d2276923505f8a834fabfnat, x28);
    let x29 = 0x422ba8ae5e3e6e109a578245nat;
    let e29 = 2 * e28 + 1;
    lemma_power_mod_square_times(2nat, e28, n, x28, 0x475e24e9bffac2c4bee3407fnat, x29);
    let x30 = 0x5dd8e9f57c4e11b87c70a0acnat;
    let e30 = 2 * e29 + 1;
    lemma_power_mod_square_times(2nat, e29, n, x29, 0x5d4d2e5c4573f21e0da9f842nat, x30);
    let x31 = 0x5db8c71781020c0f51cd38cdnat;
    let e31 = 2 * e30 + 1;
    lemma_power_mod_square_times(2nat, e30, n, x30, 0xbbac69d80f60547e8637c0d1nat, x31);
    let x32 = 0x46b56759937bcbd52026c1c0nat;
    let e32 = 2 * e31 + 1;
    lemma_power_mod_square_times(2nat, e31, n, x31, 0xbb2bf81707b5a610d2cd53c6nat, x32);
}

proof fn lemma_power_29047611873442575647497758179_over_2_part_2()
    requires
        power_mod(2nat, 0x1776e7c4bbd8d228fnat, 0x5ddb9f12ef6348a3e23ba5e3nat) == 0x46b56759937bcbd52026c1c0nat,
    ensures
        power_mod(2nat, 0x2eedcf8977b1a451f11dd2f1nat, 0x5ddb9f12ef6348a3e23ba5e3nat) == 0x5ddb9f12ef6348a3e23ba5e2nat,
{
    let n = 0x5ddb9f12ef6348a3e23ba5e3nat;
    let e0 = 0x1776e7c4bbd8d228fnat;
    let x0 = 0x46b56759937bcbd52026c1c0nat;
    let x1 = 0x1b785b6661398432966c0c78nat;
    let e1 = 2 * e0 + 1;
    lemma_power_mod_square_times(2nat, e0, n, x0, 0x6a89add2910aefbffc1c34d8nat, x1);
    let x2 = 0x2f0b07042bb360248092c3e3nat;
    let e2 = 2 * e1;
    lemma_power_mod_square(2nat, e1, n, x1, 0x80a3768cb365a5ee81b50bfnat, x2);
    let x3 = 0x4fe601e99e1558972924ebadnat;
    let e3 = 2 * e2;
    lemma_power_mod_square(2nat, e2, n, x2, 0x17942857b3103a8695db84b4nat, x3);
    let x4 = 0x52565350c42bc88ebc1802d8nat;
    let e4 = 2 * e3;
    lemma_power_mod_square(2nat, e3, n, x3, 0x4403e52177dd6a0cbdd6f47bnat, x4);
    let x5 = 0x53062367bc27aaabf5db8bf6nat;
    let e5 = 2 * e4 + 1;
    lemma_power_mod_square_times(2nat, e4, n, x4, 0x907616851b2383d45606936enat, x5);
    let x6 = 0x474bb63e8ab9e24fc298ea6dnat;
    let e6 = 2 * e5;
    lemma_power_mod_square(2nat, e5, n, x5, 0x4970cba31934958f98511bddnat, x6);
    let x7 = 0xb07ca4a6ded72032cdccddcnat;
    let e7 = 2 * e6;
    lemma_power_mod_square(2nat, e6, n, x6, 0x3628406589a3ab7377d616cfnat, x7);
    let x8 = 0x223aa16a6e2781b4f5dd7153nat;
    let e8 = 2 * e7;
    lemma_power_mod_square(2nat, e7, n, x7, 0x14bdbff18a6ec168bcdc1dfnat, x8);
    let x9 = 0x4199e54f3547ba1d34c0991cnat;
    let e9 = 2 * e8 + 1;
    lemma_power_mod_square_times(2nat, e8, n, x8, 0x18f7491519be2c9db555c252nat, x9);
    let x10 = 0x3128335de4dadab38a6b19b1nat;
    let e10 = 2 * e9 + 1;
    lemma_power_mod_square_times(2nat, e9, n, x9, 0x5bb3e49a9bde9fb0bd7c1505nat, x10);
    let x11 = 0x22caee271a03262446506e24nat;
    let e11 = 2 * e10 + 1;
    lemma_power_mod_square_times(2nat, e10, n, x10, 0x337dabe7a40e01ad62491d4anat, x11);
    let x12 = 0x365bf31f2f56b75b9e23945fnat;
    let e12 = 2 * e11;
    lemma_power_mod_square(2nat, e11, n, x11, 0xce5c237d57f0130712b435bnat, x12);
    let x13 = 0x33665eac40373078d3c7455nat;
    let e13 = 2 * e12 + 1;
    lemma_power_mod_square_times(2nat, e12, n, x12, 0x3ef740ced5a21491cdc934afnat, x13);
    let x14 = 0x184bfd338734d36d1293c638nat;
    let e14 = 2 * e13 + 1;
    lemma_power_mod_square_times(2nat, e13, n, x13, 0x384bf8ae55b96e3dd459fenat, x14);
    let x15 = 0x1aadd567380544115952231bnat;
    let e15 = 2 * e14 + 1;
    lemma_power_mod_square_times(2nat, e14, n, x14, 0xc9450d62781eac79f0cda17nat, x15);
    let x16 = 0x3749e725df609c77afb8a570nat;
    let e16 = 2 * e15;
    lemma_power_mod_square(2nat, e15, n, x15, 0x7956009e4acd86787236743nat, x16);
    let x17 = 0x40e210d85f0d1a621c9e01bbnat;
    let e17 = 2 * e16 + 1;
    lemma_power_mod_square_times(2nat, e16, n, x16, 0x412338fe4b0647748c7639b7nat, x17);
    let x18 = 0x56bfb4d3083cbbf9f196be3dnat;
    let e18 = 2 * e17;
    lemma_power_mod_square(2nat, e17, n, x17, 0x2cda615a027bd746defa8cf4nat, x18);
    let x19 = 0x3a11e598eb401c1f9e750898nat;
    let e19 = 2 * e18;
    lemma_power_mod_square(2nat, e18, n, x18, 0x502da2edfb07c801553d111bnat, x19);
    let x20 = 0x262bb921717b4edc04752954nat;
    let e20 = 2 * e19 + 1;
    lemma_power_mod_square_times(2nat, e19, n, x19, 0x47db11f0bb1c28f21e078fe4nat, x20);
    let x21 = 0x2d432b1db4e2c5fc0179f305nat;
    let e21 = 2 * e20;
    lemma_power_mod_square(2nat, e20, n, x20, 0xf8608971ef7ab4cc8e72b39nat, x21);
    let x22 = 0x53200d825ba4ce4aa2fa0058nat;
    let e22 = 2 * e21 + 1;
    lemma_power_mod_square_times(2nat, e21, n, x21, 0x2ba7ad66dd9687abe6182bdenat, x22);
    let x23 = 0x1dbd0b03fdc0419a6eec6db8nat;
    let e23 = 2 * e22 + 1;
    lemma_power_mod_square_times(2nat, e22, n, x22, 0x933d56ee025b76f197b27098nat, x23);
    let x24 = 0x159cee7fb052e6835308db25nat;
    let e24 = 2 * e23 + 1;
    lemma_power_mod_square_times(2nat, e23, n, x23, 0x12d85100d39687d6d0f2d429nat, x24);
    let x25 = 0x1779bc73f1ec7f6f3a9d528bnat;
    let e25 = 2 * e24 + 1;
    lemma_power_mod_square_times(2nat, e24, n, x24, 0x9f42da9577ca2860bde0bednat, x25);
    let x26 = 0x2c38079b5f4037eb7603ff57nat;
    let e26 = 2 * e25;
    lemma_power_mod_square(2nat, e25, n, x25, 0x5df245ea558e72d6d8550f6nat, x26);
    let x27 = 0x1b53efdc689de5c7a775dd49nat;
    let e27 = 2 * e26;
    lemma_power_mod_square(2nat, e26, n, x26, 0x14d5282510105ebcf37ff718nat, x27);
    let x28 = 0x24de02a01b1470c26bd4ce46nat;
    let e28 = 2 * e27;
    lemma_power_mod_square(2nat, e27, n, x27, 0x7f4f3f39263146b0e7feb39nat, x28);
    let x29 = 0x5ddb9f12ef6348a3e23ba5e2nat;
    let e29 = 2 * e28 + 1;
    lemma_power_mod_square_times(2nat, e28, n, x28, 0x1cf6784a6db69cee67738ae2nat, x29);
}

proof fn lemma_power_29047611873442575647497758179_over_2()
    ensures
        power_mod(2nat, 0x2eedcf8977b1a451f11dd2f1nat, 0x5ddb9f12ef6348a3e23ba5e3nat) == 0x5ddb9f12ef6348a3e23ba5e2nat,
{
    lemma_power_mod_first(2nat, 0x5ddb9f12ef6348a3e23ba5e3nat);
    lemma_power_29047611873442575647497758179_over_2_part_0();
    lemma_power_29047611873442575647497758179_over_2_part_1();
    lemma_power_29047611873442575647497758179_over_2_part_2();
}

proof fn lemma_power_29047611873442575647497758179_over_293_part_0()
    requires
        power_mod(2nat, 1nat, 0x5ddb9f12ef6348a3e23ba5e3nat) == 2nat,
    ensures
        power_mod(2nat, 0x14805aaa2nat, 0x5ddb9f12ef6348a3e23ba5e3nat) == 0x4111e7eeeb27c865b165d67nat,
{
    let n = 0x5ddb9f12ef6348a3e23ba5e3nat;
    let e0 = 1nat;
    let x0 = 2nat;
    let x1 = 4nat;
    let e1 = 2 * e0;
    lemma_power_mod_square(2nat, e0, n, x0, 0nat, x1);
    let x2 = 32nat;
    let e2 = 2 * e1 + 1;
    lemma_power_mod_square_times(2nat, e1, n, x1, 0nat, x2);
    let x3 = 1024nat;
    let e3 = 2 * e2;
    lemma_power_mod_square(2nat, e2, n, x2, 0nat, x3);
    let x4 = 0x100000nat;
    let e4 = 2 * e3;
    lemma_power_mod_square(2nat, e3, n, x3, 0nat, x4);
    let x5 = 0x20000000000nat;
    let e5 = 2 * e4 + 1;
    lemma_power_mod_square_times(2nat, e4, n, x4, 0nat, x5);
    let x6 = 0x400000000000000000000nat;
    let e6 = 2 * e5;
    lemma_power_mod_square(2nat, e5, n, x5, 0nat, x6);
    let x7 = 0x3b52a172bec673da0d0bf74bnat;
    let e7 = 2 * e6;
    lemma_power_mod_square(2nat, e6, n, x6, 0x2ba3f3f5a7e3879a87nat, x7);
    let x8 = 0x3c4088258ba0b89f5d5e0c66nat;
    let e8 = 2 * e7;
    lemma_power_mod_square(2nat, e7, n, x7, 0x257eb14bed575ba0bba95a91nat, x8);
    let x9 = 0x5851a35b175b2f5f268bb339nat;
    let e9 = 2 * e8;
    lemma_power_mod_square(2nat, e8, n, x8, 0x26adc743fb61d68d300c78d9nat, x9);
    let x10 = 0x56eebdb4597ef0a30ead8799nat;
    let e10 = 2 * e9;
    lemma_power_mod_square(2nat, e9, n, x9, 0x531b5633088e7e9c75798408nat, x10);
    let x11 = 0x9f84d635ac1e36df5fc65e1nat;
    let e11 = 2 * e10;
    lemma_power_mod_square(2nat, e10, n, x10, 0x5084ac3e9c9324f0ca173330nat, x11);
    let x12 = 0x5a350c2df8261173d3a8722fnat;
    let e12 = 2 * e11;
    lemma_power_mod_square(2nat, e11, n, x11, 0x10f1d6c66706d76c74a30c6nat, x12);
    let x13 = 0x411870aa53e286ec2362e5e7nat;
    let e13 = 2 * e12;
    lemma_power_mod_square(2nat, e12, n, x12, 0x56b2d324819721f1de4a937enat, x13);
    let x14 = 0x24fc52194c732411edade5e6nat;
    let e14 = 2 * e13 + 1;
    lemma_power_mod_square_times(2nat, e13, n, x13, 0x5a4b5c42a86649a1570e2dd4nat, x14);
    let x15 = 0xd2d3bad29302a974a89f458nat;
    let e15 = 2 * e14;
    lemma_power_mod_square(2nat, e14, n, x14, 0xe9315c02b637a473d268244nat, x15);
    let x16 = 0x4bd445e2b2f9218b24357ee4nat;
    let e16 = 2 * e15 + 1;
    lemma_power_mod_square_times(2nat, e15, n, x15, 0x3b32294fd1e982755331eb4nat, x16);
    let x17 = 0x96aa98fa035c1e2ceea4064nat;
    let e17 = 2 * e16 + 1;
    lemma_power_mod_square_times(2nat, e16, n, x16, 0x7a86edbb5fda0284a57fc014nat, x17);
    let x18 = 0x7cb80c333b47fef1ca01130nat;
    let e18 = 2 * e17;
    lemma_power_mod_square(2nat, e17, n, x17, 0xf1dbddcf51a265a2c878a0nat, x18);
    let x19 = 0xe72bc0d3b07a2bf96223ecfnat;
    let e19 = 2 * e18 + 1;
    lemma_power_mod_square_times(2nat, e18, n, x18, 0x14b745cf512b4c98e03cedbnat, x19);
    let x20 = 0x1321cacdc98878d8f0dcd1b1nat;
    let e20 = 2 * e19;
    lemma_power_mod_square(2nat, e19, n, x19, 0x2395f0c02a27902cee42e90nat, x20);
    let x21 = 0x62204ac2bb1bd6b887fa58fnat;
    let e21 = 2 * e20 + 1;
    lemma_power_mod_square_times(2nat, e20, n, x20, 0x7ccbb91238d4bc236759e71nat, x21);
    let x22 = 0x412ebb7e0b8e283052497532nat;
    let e22 = 2 * e21;
    lemma_power_mod_square(2nat, e21, n, x21, 0x6696a70d37900a168ca3c5nat, x22);
    let x23 = 0x57297466323fb3472830d09anat;
    let e23 = 2 * e22 + 1;
    lemma_power_mod_square_times(2nat, e22, n, x22, 0x5a893ecef12be8cac1728cbanat, x23);
    let x24 = 0xeb1843a07ee76bf3a6e007fnat;
    let e24 = 2 * e23;
    lemma_power_mod_square(2nat, e23, n, x23, 0x50f19447c535c15fd2609457nat, x24);
    let x25 = 0x457ad174ccbd64c6953afa5dnat;
    let e25 = 2 * e24 + 1;
    lemma_power_mod_square_times(2nat, e24, n, x24, 0x499ba7aaffc7ce2d04ca6d7nat, x25);
    let x26 = 0x58ad772686162b1cf74fec76nat;
    let e26 = 2 * e25;
    lemma_power_mod_square(2nat, e25, n, x25, 0x336ef796aec3be71618ad9d1nat, x26);
    let x27 = 0x1621586ed3a9c728beb893a2nat;
    let e27 = 2 * e26 + 1;
    lemma_power_mod_square_times(2nat, e26, n, x26, 0xa791020909b8e68370c81b22nat, x27);
    let x28 = 0x17f943cf65dfc302089a8f79nat;
    let e28 = 2 * e27;
    lemma_power_mod_square(2nat, e27, n, x27, 0x537cd403d4845f2e16996b9nat, x28);
    let x29 = 0x1ba2d5ea8b7e5c3506c7bdb9nat;
    let e29 = 2 * e28;
    lemma_power_mod_square(2nat, e28, n, x28, 0x61f9d050d8ef51e747eaa28nat, x29);
    let x30 = 0x1cfc32a4576c6bfbc75d28eanat;
    let e30 = 2 * e29;
    lemma_power_mod_square(2nat, e29, n, x29, 0x82328193dc63d6edb9890cdnat, x30);
    let x31 = 0x47b5a05fd6ffc70ace994eadnat;
    let e31 = 2 * e30 + 1;
    lemma_power_mod_square_times(2nat, e30, n, x30, 0x11e700e13fbd579548729169nat, x31);
    let x32 = 0x4111e7eeeb27c865b165d67nat;
    let e32 = 2 * e31;
    lemma_power_mod_square(2nat, e31, n, x31, 0x36c9a0730a625f8e298d5616nat, x32);
}

proof fn lemma_power_29047611873442575647497758179_over_293_part_1()
    requires
        power_mod(2nat, 0x14805aaa2nat, 0x5ddb9f12ef6348a3e23ba5e3nat) == 0x4111e7eeeb27c865b165d67nat,
    ensures
        power_mod(2nat, 0x14805aaa249001e32nat, 0x5ddb9f12ef6348a3e23ba5e3nat) == 0x2ba736408940deae0a0b5e26nat,
{
    let n = 0x5ddb9f12ef6348a3e23ba5e3nat;
    let e0 = 0x14805aaa2nat;
    let x0 = 0x4111e7eeeb27c865b165d67nat;
    let x1 = 0x42c845c510e0cc5133cdd6c7nat;
    let e1 = 2 * e0;
    lemma_power_mod_square(2nat, e0, n, x0, 0x2d1c9e53ab2068257a64cenat, x1);
    let x2 = 0x9bf0bfb37553be1e31b6e1anat;
    let e2 = 2 * e1 + 1;
    lemma_power_mod_square_times(2nat, e1, n, x1, 0x5f08e0c5073649b323d77618nat, x2);
    let x3 = 0x36a1828f6523b6b5fac9b212nat;
    let e3 = 2 * e2;
    lemma_power_mod_square(2nat, e2, n, x2, 0x103166c5f01dc510b9329c6nat, x3);
    let x4 = 0x130a6f41d67125415899fe52nat;
    let e4 = 2 * e3;
    lemma_power_mod_square(2nat, e3, n, x3, 0x1fcc66d5e0d30d0f9217cbe6nat, x4);
    let x5 = 0x4c13939b7c8479618551ae9enat;
    let e5 = 2 * e4 + 1;
    lemma_power_mod_square_times(2nat, e4, n, x4, 0x7b9bbb52095e1ea59cce68enat, x5);
    let x6 = 0x3b9b0b80a3bba81674fbf9dbnat;
    let e6 = 2 * e5;
    lemma_power_mod_square(2nat, e5, n, x5, 0x3da9eb3fe9392efd67db2a03nat, x6);
    let x7 = 0x181bdde4fb07b451c54cadb7nat;
    let e7 = 2 * e6;
    lemma_power_mod_square(2nat, e6, n, x6, 0x25da731419b2a146359d7f76nat, x7);
    let x8 = 0x59fa4ce9139297fa9a62f4bnat;
    let e8 = 2 * e7 + 1;
    lemma_power_mod_square_times(2nat, e7, n, x7, 0xc62addf10b336f4ae51fbfdnat, x8);
    let x9 = 0x206bc8120ad7656ca3449d2enat;
    let e9 = 2 * e8;
    lemma_power_mod_square(2nat, e8, n, x8, 0x56420b4de46d38520203f9nat, x9);
    let x10 = 0x2b9451d662122fe73cde238nat;
    let e10 = 2 * e9;
    lemma_power_mod_square(2nat, e9, n, x9, 0xb32f74b3cf20a1720bc2384nat, x10);
    let x11 = 0x4ba12f6b1ae62c01f4c25831nat;
    let e11 = 2 * e10;
    lemma_power_mod_square(2nat, e10, n, x10, 0x143c0427b1072c0f6910e5nat, x11);
    let x12 = 0x5311078a823f2013ff2abe1nat;
    let e12 = 2 * e11;
    lemma_power_mod_square(2nat, e11, n, x11, 0x3cf10618cf538bdc6d7a3480nat, x12);
    let x13 = 0xf64586f72a30348fb310227nat;
    let e13 = 2 * e12;
    lemma_power_mod_square(2nat, e12, n, x12, 0x4984118267883f25c0c31enat, x13);
    let x14 = 0xb0633d8575d76e1c8b6a6bfnat;
    let e14 = 2 * e13;
    lemma_power_mod_square(2nat, e13, n, x13, 0x2862fb83467915f60540ea6nat, x14);
    let x15 = 0x31cbdc87fe592b09745b101enat;
    let e15 = 2 * e14;
    lemma_power_mod_square(2nat, e14, n, x14, 0x14b7c7d7bc4cccc74f9e981nat, x15);
    let x16 = 0x3da4276b7faa5122cdc2872fnat;
    let e16 = 2 * e15;
    lemma_power_mod_square(2nat, e15, n, x15, 0x1a6b61ae5aae4338b17cea67nat, x16);
    let x17 = 0x23c9aa0abc007a42e38d535fnat;
    let e17 = 2 * e16;
    lemma_power_mod_square(2nat, e16, n, x16, 0x287ba005c019da8ef397cf56nat, x17);
    let x18 = 0xd2b9744c7a10a5716910238nat;
    let e18 = 2 * e17;
    lemma_power_mod_square(2nat, e17, n, x17, 0xda551143a41bb2593014f23nat, x18);
    let x19 = 0x4308da916e84214c377677fdnat;
    let e19 = 2 * e18;
    lemma_power_mod_square(2nat, e18, n, x18, 0x1d91b471e40047943e64621nat, x19);
    let x20 = 0x167cf48cf0169a29d359be52nat;
    let e20 = 2 * e19 + 1;
    lemma_power_mod_square_times(2nat, e19, n, x19, 0x5fc107b17a2806c9afc48340nat, x20);
    let x21 = 0x1012a07a316ca6a13f488e6enat;
    let e21 = 2 * e20 + 1;
    lemma_power_mod_square_times(2nat, e20, n, x20, 0xac6b3ef58d0ebe8c008bc9enat, x21);
    let x22 = 0x19c14834313b46d5fb7ea278nat;
    let e22 = 2 * e21 + 1;
    lemma_power_mod_square_times(2nat, e21, n, x21, 0x581396d35ed5843062140b0nat, x22);
    let x23 = 0x4f04bb7b1dd3cf9480edec43nat;
    let e23 = 2 * e22 + 1;
    lemma_power_mod_square_times(2nat, e22, n, x22, 0xe22731717565e7116ef875fnat, x23);
    let x24 = 0x1023a04cb77827c3e4bc71fnat;
    let e24 = 2 * e23;
    lemma_power_mod_square(2nat, e23, n, x23, 0x4286778b7f79ff24d946400enat, x24);
    let x25 = 0x5ade4e371a1601efd9aaa5f2nat;
    let e25 = 2 * e24;
    lemma_power_mod_square(2nat, e24, n, x24, 0x2c672410076703f1bf225nat, x25);
    let x26 = 0x4083dbb71980fea7974b89c4nat;
    let e26 = 2 * e25;
    lemma_power_mod_square(2nat, e25, n, x25, 0x57f95dbaf752ebe0e8a1a500nat, x26);
    let x27 = 0x52a0e02a80d3336ca08023bfnat;
    let e27 = 2 * e26 + 1;
    lemma_power_mod_square_times(2nat, e26, n, x26, 0x58b1000d1db9ec2079be3bebnat, x27);
    let x28 = 0x455841eb13687651de87f0a4nat;
    let e28 = 2 * e27 + 1;
    lemma_power_mod_square_times(2nat, e27, n, x27, 0x917c25fd5a448e0e7fd93c8anat, x28);
    let x29 = 0x4a1435861751b373038fe5c6nat;
    let e29 = 2 * e28;
    lemma_power_mod_square(2nat, e28, n, x28, 0x333bd942d8eecea735c521aenat, x29);
    let x30 = 0x4faeec7aeb4241f29066c64anat;
    let e30 = 2 * e29;
    lemma_power_mod_square(2nat, e29, n, x29, 0x3a77d322941e8bd5e73a3cdenat, x30);
    let x31 = 0x595415620bac2bd7ba88192dnat;
    let e31 = 2 * e30 + 1;
    lemma_power_mod_square_times(2nat, e30, n, x30, 0x874c7a60cdccfa387f27c2e9nat, x31);
    let x32 = 0x2ba736408940deae0a0b5e26nat;
    let e32 = 2 * e31;
    lemma_power_mod_square(2nat, e31, n, x31, 0x550480d676346f50264260a1nat, x32);
}

proof fn lemma_power_29047611873442575647497758179_over_293_part_2()
    requires
        power_mod(2nat, 0x14805aaa249001e32nat, 0x5ddb9f12ef6348a3e23ba5e3nat) == 0x2ba736408940deae0a0b5e26nat,
    ensures
        power_mod(2nat, 0x52016aa89240078c913dbanat, 0x5ddb9f12ef6348a3e23ba5e3nat) == 0x143763e33a3155244a567adfnat,
{
    let n = 0x5ddb9f12ef6348a3e23ba5e3nat;
    let e0 = 0x14805aaa249001e32nat;
    let x0 = 0x2ba736408940deae0a0b5e26nat;
    let x1 = 0x1c372ed69f32a2cac5466907nat;
    let e1 = 2 * e0;
    lemma_power_mod_square(2nat, e0, n, x0, 0x144d932bd5397880f63e337fnat, x1);
    let x2 = 0x22661b1b079fabbeed1d869anat;
    let e2 = 2 * e1 + 1;
    lemma_power_mod_square_times(2nat, e1, n, x1, 0x10f6ddbdc60776607fee5d98nat, x2);
    let x3 = 0x25f96a1b402a993a068e35f0nat;
    let e3 = 2 * e2;
    lemma_power_mod_square(2nat, e2, n, x2, 0xc9b6e732832fccbfa5204bcnat, x3);
    let x4 = 0x153c5c6c417defbba110676dnat;
    let e4 = 2 * e3;
    lemma_power_mod_square(2nat, e3, n, x3, 0xf5d38173c49b676d591cc91nat, x4);
    let x5 = 0xb463885ed1107665bd1e479nat;
    let e5 = 2 * e4;
    lemma_power_mod_square(2nat, e4, n, x4, 0x4ce007ff5471793fbb08350nat, x5);
    let x6 = 0x2b1e70256e102cfd0c301a55nat;
    let e6 = 2 * e5 + 1;
    lemma_power_mod_square_times(2nat, e5, n, x5, 0x2b56424e795f5e526159d4fnat, x6);
    let x7 = 0x56067a9454eb36a7927433ccnat;
    let e7 = 2 * e6;
    lemma_power_mod_square(2nat, e6, n, x6, 0x13cf2076d3e0a3de1316f56fnat, x7);
    let x8 = 0x8c05c2bf9d3be22f2c70824nat;
    let e8 = 2 * e7;
    lemma_power_mod_square(2nat, e7, n, x7, 0x4ed8ab260ab8883b7d467fa4nat, x8);
    let x9 = 0x5c3b7b95f1a8b488d155f391nat;
    let e9 = 2 * e8 + 1;
    lemma_power_mod_square_times(2nat, e8, n, x8, 0x1a1c97483a8f968ec0a8c65nat, x9);
    let x10 = 0xd8ba9b60a02d3364c9ecf86nat;
    let e10 = 2 * e9 + 1;
    lemma_power_mod_square_times(2nat, e9, n, x9, 0xb5451a4534729f8484b8d914nat, x10);
    let x11 = 0x17b0381f9bde75116a180694nat;
    let e11 = 2 * e10 + 1;
    lemma_power_mod_square_times(2nat, e10, n, x10, 0x3e8e7bea0ad3590389c69bcnat, x11);
    let x12 = 0xb938681f4669ac5a85987b2nat;
    let e12 = 2 * e11 + 1;
    lemma_power_mod_square_times(2nat, e11, n, x11, 0xbf50a3c73ca737a594c3a3anat, x12);
    let x13 = 0x4d9584d4fea4e6eae144cdd9nat;
    let e13 = 2 * e12;
    lemma_power_mod_square(2nat, e12, n, x12, 0x16d842060afdf2a5b0daa59nat, x13);
    let x14 = 0x22031d96eb79218f15192d9nat;
    let e14 = 2 * e13 + 1;
    lemma_power_mod_square_times(2nat, e13, n, x13, 0x8043899c9a0edc2377752123nat, x14);
    let x15 = 0x291434d5f20fba8d95f5f1e7nat;
    let e15 = 2 * e14 + 1;
    lemma_power_mod_square_times(2nat, e14, n, x14, 0x18a68f1df6fbbbee725b09nat, x15);
    let x16 = 0x3c3654f29366620305e3b59cnat;
    let e16 = 2 * e15;
    lemma_power_mod_square(2nat, e15, n, x15, 0x11faa4f6ec0480067ba193e7nat, x16);
    let x17 = 0x1a93a58b45c4389ee06691f5nat;
    let e17 = 2 * e16 + 1;
    lemma_power_mod_square_times(2nat, e16, n, x16, 0x4d415fb5fdf921a751d58319nat, x17);
    let x18 = 0x4495be4368e08c0e804c137anat;
    let e18 = 2 * e17 + 1;
    lemma_power_mod_square_times(2nat, e17, n, x17, 0xf0d086c01f86cfac0b78e28nat, x18);
    let x19 = 0x1e7a2f063213263967233313nat;
    let e19 = 2 * e18 + 1;
    lemma_power_mod_square_times(2nat, e18, n, x18, 0x643bff3e5bd3a7f6cec95007nat, x19);
    let x20 = 0x13e84a443c2c63f5da0aa7d4nat;
    let e20 = 2 * e19;
    lemma_power_mod_square(2nat, e19, n, x19, 0x9e580f9a87c37e8fa18a227nat, x20);
    let x21 = 0x13a463c0c9cd28a7b6b978eenat;
    let e21 = 2 * e20 + 1;
    lemma_power_mod_square_times(2nat, e20, n, x20, 0x871dc135b455b95600377a6nat, x21);
    let x22 = 0x143763e33a3155244a567adfnat;
    let e22 = 2 * e21;
    lemma_power_mod_square(2nat, e21, n, x21, 0x41c5173a103c533243ae917nat, x22);
}

proof fn lemma_power_29047611873442575647497758179_over_293()
    ensures
        power_mod(2nat, 0x52016aa89240078c913dbanat, 0x5ddb9f12ef6348a3e23ba5e3nat) == 0x143763e33a3155244a567adfnat,
{
    lemma_power_mod_first(2nat, 0x5ddb9f12ef6348a3e23ba5e3nat);
    lemma_power_29047611873442575647497758179_over_293_part_0();
    lemma_power_29047611873442575647497758179_over_293_part_1();
    lemma_power_29047611873442575647497758179_over_293_part_2();
}

proof fn lemma_power_29047611873442575647497758179_over_305873_part_0()
    requires
        power_mod(2nat, 1nat, 0x5ddb9f12ef6348a3e23ba5e3nat) == 2nat,
    ensures
        power_mod(2nat, 0x141c21786nat, 0x5ddb9f12ef6348a3e23ba5e3nat) == 0x207da13d15a0d7ed93fa4298nat,
{
    let n = 0x5ddb9f12ef6348a3e23ba5e3nat;
    let e0 = 1nat;
    let x0 = 2nat;
    let x1 = 4nat;
    let e1 = 2 * e0;
    lemma_power_mod_square(2nat, e0, n, x0, 0nat, x1);
    let x2 = 32nat;
    let e2 = 2 * e1 + 1;
    lemma_power_mod_square_times(2nat, e1, n, x1, 0nat, x2);
    let x3 = 1024nat;
    let e3 = 2 * e2;
    lemma_power_mod_square(2nat, e2, n, x2, 0nat, x3);
    let x4 = 0x100000nat;
    let e4 = 2 * e3;
    lemma_power_mod_square(2nat, e3, n, x3, 0nat, x4);
    let x5 = 0x10000000000nat;
    let e5 = 2 * e4;
    lemma_power_mod_square(2nat, e4, n, x4, 0nat, x5);
    let x6 = 0x100000000000000000000nat;
    let e6 = 2 * e5;
    lemma_power_mod_square(2nat, e5, n, x5, 0nat, x6);
    let x7 = 0x2cc53faf74a7d70553cad808nat;
    let e7 = 2 * e6;
    lemma_power_mod_square(2nat, e6, n, x6, 0x2ba3f3f5a7e3879a8nat, x7);
    let x8 = 0x1677fa58bb328677a7c0b6fanat;
    let e8 = 2 * e7 + 1;
    lemma_power_mod_square_times(2nat, e7, n, x7, 0x2ab619f0645c6531d77f7742nat, x8);
    let x9 = 0x372792fad2ce27bf041c0fccnat;
    let e9 = 2 * e8 + 1;
    lemma_power_mod_square_times(2nat, e8, n, x8, 0xac1ef47751270c3e0735e54nat, x9);
    let x10 = 0x51accdd601c91074cfd0833anat;
    let e10 = 2 * e9 + 1;
    lemma_power_mod_square_times(2nat, e9, n, x9, 0x40d26eca569bc2a718137b62nat, x10);
    let x11 = 0x1a15820e3bc4f3b70f3ec396nat;
    let e11 = 2 * e10;
    lemma_power_mod_square(2nat, e10, n, x10, 0x4712d038b1ce6cc0d06ba99anat, x11);
    let x12 = 0x4585c9f7f476533a2635c9banat;
    let e12 = 2 * e11;
    lemma_power_mod_square(2nat, e11, n, x11, 0x73fbe74cbeb8ad1974d0d4enat, x12);
    let x13 = 0xf2e215a954eb78b15055564nat;
    let e13 = 2 * e12;
    lemma_power_mod_square(2nat, e12, n, x12, 0x337f36f5d49487dd2beb8f40nat, x13);
    let x14 = 0x4e4817cf179dd9423392311bnat;
    let e14 = 2 * e13;
    lemma_power_mod_square(2nat, e13, n, x13, 0x27486e904e259ade14ef447nat, x14);
    let x15 = 0x28b52302f3c29a2b982b916bnat;
    let e15 = 2 * e14 + 1;
    lemma_power_mod_square_times(2nat, e14, n, x14, 0x8294a34e7ec50dfd9511c94dnat, x15);
    let x16 = 0x504c139cb585ddf980cec86cnat;
    let e16 = 2 * e15;
    lemma_power_mod_square(2nat, e15, n, x15, 0x11a7cd509b1fefd5518b360fnat, x16);
    let x17 = 0xe85b1f39cf61930f6081fb5nat;
    let e17 = 2 * e16;
    lemma_power_mod_square(2nat, e16, n, x16, 0x44b21b04e5376c6312f879a9nat, x17);
    let x18 = 0x54ddb84edce0a31b3a370751nat;
    let e18 = 2 * e17;
    lemma_power_mod_square(2nat, e17, n, x17, 0x23f3943bdbf38b02124f738nat, x18);
    let x19 = 0x4522191bb58e68387f967d61nat;
    let e19 = 2 * e18;
    lemma_power_mod_square(2nat, e18, n, x18, 0x4cbc589212d014763c6ee0c0nat, x19);
    let x20 = 0x38b2758747401c71847f9e57nat;
    let e20 = 2 * e19 + 1;
    lemma_power_mod_square_times(2nat, e19, n, x19, 0x65d7e23cc4bd7886334b2419nat, x20);
    let x21 = 0x511259f14ec9c5a2f56cbdc8nat;
    let e21 = 2 * e20;
    lemma_power_mod_square(2nat, e20, n, x20, 0x223fce55c4078981f5287f63nat, x21);
    let x22 = 0x308be12745b87aa3d3334993nat;
    let e22 = 2 * e21 + 1;
    lemma_power_mod_square_times(2nat, e21, n, x21, 0x8c0dfe874fcf37b2dfc590efnat, x22);
    let x23 = 0x35545417b529892a9f0ee020nat;
    let e23 = 2 * e22 + 1;
    lemma_power_mod_square_times(2nat, e22, n, x22, 0x3238383a8e5232e5b3e7e726nat, x23);
    let x24 = 0x2e34ce8a891e191df4569077nat;
    let e24 = 2 * e23 + 1;
    lemma_power_mod_square_times(2nat, e23, n, x23, 0x3c9a5145d30320b3f75d48a3nat, x24);
    let x25 = 0x264a2daea95cd66fc4d719c2nat;
    let e25 = 2 * e24 + 1;
    lemma_power_mod_square_times(2nat, e24, n, x24, 0x2d7ea6deb7ccadfa6449ada0nat, x25);
    let x26 = 0x59cadf5b9c217ac3f262a809nat;
    let e26 = 2 * e25;
    lemma_power_mod_square(2nat, e25, n, x25, 0xf9ed7fc7507f30f0cf93e09nat, x26);
    let x27 = 0x7a66d93ad44b5189566aedanat;
    let e27 = 2 * e26;
    lemma_power_mod_square(2nat, e26, n, x26, 0x55e7340c4be9f8f36b410a5dnat, x27);
    let x28 = 0x38422add4002c23d495d1bd4nat;
    let e28 = 2 * e27;
    lemma_power_mod_square(2nat, e27, n, x27, 0x9fa05561a0ef0a8fa49bf0nat, x28);
    let x29 = 0x2dcd86afd94b73d866161c5cnat;
    let e29 = 2 * e28;
    lemma_power_mod_square(2nat, e28, n, x28, 0x21b8aa76208953f898590e3cnat, x29);
    let x30 = 0x45726b6268dc1a163ea08fd4nat;
    let e30 = 2 * e29 + 1;
    lemma_power_mod_square_times(2nat, e29, n, x29, 0x2cb428c4eb6ba2beb6663644nat, x30);
    let x31 = 0x31471022edf069a34bb41126nat;
    let e31 = 2 * e30 + 1;
    lemma_power_mod_square_times(2nat, e30, n, x30, 0x66c5122f441eb2ae19aebb3enat, x31);
    let x32 = 0x207da13d15a0d7ed93fa4298nat;
    let e32 = 2 * e31;
    lemma_power_mod_square(2nat, e31, n, x31, 0x19df33fb5b99be01c67f8284nat, x32);
}

proof fn lemma_power_29047611873442575647497758179_over_305873_part_1()
    requires
        power_mod(2nat, 0x141c21786nat, 0x5ddb9f12ef6348a3e23ba5e3nat) == 0x207da13d15a0d7ed93fa4298nat,
    ensures
        power_mod(2nat, 0x141c21786981517cdnat, 0x5ddb9f12ef6348a3e23ba5e3nat) == 0x58ec40840d25dd7c3c1ccf3dnat,
{
    let n = 0x5ddb9f12ef6348a3e23ba5e3nat;
    let e0 = 0x141c21786nat;
    let x0 = 0x207da13d15a0d7ed93fa4298nat;
    let x1 = 0x16475dbd87de7b95da3c2c76nat;
    let e1 = 2 * e0 + 1;
    lemma_power_mod_square_times(2nat, e0, n, x0, 0x167e9ea056fe358ee03be5eenat, x1);
    let x2 = 0x2f58b12fc76e0abd0ba7cd72nat;
    let e2 = 2 * e1;
    lemma_power_mod_square(2nat, e1, n, x1, 0x549ca95248396cdfbe985e6nat, x2);
    let x3 = 0x2c17b2ee6b0101aa81f11636nat;
    let e3 = 2 * e2;
    lemma_power_mod_square(2nat, e2, n, x2, 0x17e2432158c57e5fb518629anat, x3);
    let x4 = 0x2db9ae7f988c6c293fb737efnat;
    let e4 = 2 * e3 + 1;
    lemma_power_mod_square_times(2nat, e3, n, x3, 0x296d7925290849d38c4b9513nat, x4);
    let x5 = 0x89a52a3fdba4c5df840ebd2nat;
    let e5 = 2 * e4 + 1;
    lemma_power_mod_square_times(2nat, e4, n, x4, 0x2c8d7497d6e2e04458d83ad0nat, x5);
    let x6 = 0x1e02353524bf9b04b2223465nat;
    let e6 = 2 * e5;
    lemma_power_mod_square(2nat, e5, n, x5, 0xc9dc4495d233fae1986ad5nat, x6);
    let x7 = 0x14014194fd991bd4fd956e50nat;
    let e7 = 2 * e6;
    lemma_power_mod_square(2nat, e6, n, x6, 0x9982fb92e2ba9026327f6a3nat, x7);
    let x8 = 0x216c58697c502e3a9466b8benat;
    let e8 = 2 * e7;
    lemma_power_mod_square(2nat, e7, n, x7, 0x4438be43e846def1002e256nat, x8);
    let x9 = 0x32b995096575214568153ed0nat;
    let e9 = 2 * e8;
    lemma_power_mod_square(2nat, e8, n, x8, 0xbe6f41ae0a7d932fd0dcf3cnat, x9);
    let x10 = 0x513eeff441d76e4199615fecnat;
    let e10 = 2 * e9;
    lemma_power_mod_square(2nat, e9, n, x9, 0x1b69faa58e0245535fcdbedcnat, x10);
    let x11 = 0x36cac7328e538c5d604e7533nat;
    let e11 = 2 * e10;
    lemma_power_mod_square(2nat, e10, n, x10, 0x46541a9e2fc75696fb8998bfnat, x11);
    let x12 = 0x38e0daae4fe24681158cb09nat;
    let e12 = 2 * e11 + 1;
    lemma_power_mod_square_times(2nat, e11, n, x11, 0x3ff906f59f50ccaa800f6fe3nat, x12);
    let x13 = 0x5479a26fdc2a44d05dca8c8cnat;
    let e13 = 2 * e12;
    lemma_power_mod_square(2nat, e12, n, x12, 0x2277f29fde147f20df7237nat, x13);
    let x14 = 0xa0169199cdb80f46d844231nat;
    let e14 = 2 * e13 + 1;
    lemma_power_mod_square_times(2nat, e13, n, x13, 0x980f89a56145486aa3857885nat, x14);
    let x15 = 0x4d2b2caee1d12f4c8066f577nat;
    let e15 = 2 * e14;
    lemma_power_mod_square(2nat, e14, n, x14, 0x1110dac61936f8329469c8enat, x15);
    let x16 = 0x1103ce473e267c5e4166c5afnat;
    let e16 = 2 * e15 + 1;
    lemma_power_mod_square_times(2nat, e15, n, x15, 0x7ee4db5e68a82e47fc1be1b1nat, x16);
    let x17 = 0x2eba7b78a65589696eee9ea8nat;
    let e17 = 2 * e16;
    lemma_power_mod_square(2nat, e16, n, x16, 0x315a27ca2eea04caaccce73nat, x17);
    let x18 = 0x3f2a0cfac8d30457f0a5e2ccnat;
    let e18 = 2 * e17;
    lemma_power_mod_square(2nat, e17, n, x17, 0x1743afc5de1e9b603010e0fcnat, x18);
    let x19 = 0x49a4c3d16e3014640f9892f6nat;
    let e19 = 2 * e18;
    lemma_power_mod_square(2nat, e18, n, x18, 0x2a8214ec574e094dbc67251enat, x19);
    let x20 = 0x3b23ef822a3d5f96b8befd5enat;
    let e20 = 2 * e19 + 1;
    lemma_power_mod_square_times(2nat, e19, n, x19, 0x7390d8b2c69320f54efc730enat, x20);
    let x21 = 0x46acb580a94bdef528bc1a19nat;
    let e21 = 2 * e20;
    lemma_power_mod_square(2nat, e20, n, x20, 0x2543c1946efc60aeda219dd9nat, x21);
    let x22 = 0x23a9c66a7c1a1192b5080d4enat;
    let e22 = 2 * e21 + 1;
    lemma_power_mod_square_times(2nat, e21, n, x21, 0x6a6f7bfe27f2e2aaea23165cnat, x22);
    let x23 = 0x3a731955f35ee5480178e37enat;
    let e23 = 2 * e22 + 1;
    lemma_power_mod_square_times(2nat, e22, n, x22, 0x1b1a14c1d5fa73b5c6a359eenat, x23);
    let x24 = 0x4e2c1989ab14200eabf2827fnat;
    let e24 = 2 * e23 + 1;
    lemma_power_mod_square_times(2nat, e23, n, x23, 0x48cc6994067ef19ad18e56a3nat, x24);
    let x25 = 0x1996e5b33a50883da9f446acnat;
    let e25 = 2 * e24 + 1;
    lemma_power_mod_square_times(2nat, e24, n, x24, 0x8237501031929de5374b6332nat, x25);
    let x26 = 0xfbac561d84315ed3be0cc7bnat;
    let e26 = 2 * e25 + 1;
    lemma_power_mod_square_times(2nat, e25, n, x25, 0xdf413ac1c95bdb1d1d0c3d7nat, x26);
    let x27 = 0x506c16593e68c23ff72ef67nat;
    let e27 = 2 * e26;
    lemma_power_mod_square(2nat, e26, n, x26, 0x2a2d7f1b820f363b5fcbc26nat, x27);
    let x28 = 0x1eb66b38bedbef7fc13bcfnat;
    let e28 = 2 * e27;
    lemma_power_mod_square(2nat, e27, n, x27, 0x44e8eb6f68592f879d6376nat, x28);
    let x29 = 0x1f282b0a82e60871552d067dnat;
    let e29 = 2 * e28 + 1;
    lemma_power_mod_square_times(2nat, e28, n, x28, 0x14198c151e40381b0db7nat, x29);
    let x30 = 0x1635be76bcb468d02992d4dbnat;
    let e30 = 2 * e29 + 1;
    lemma_power_mod_square_times(2nat, e29, n, x29, 0x14af82a1bea7090f9e56ab9dnat, x30);
    let x31 = 0x3701dcf8609214e55b102d76nat;
    let e31 = 2 * e30;
    lemma_power_mod_square(2nat, e30, n, x30, 0x541703bf469531ffc67e001nat, x31);
    let x32 = 0x58ec40840d25dd7c3c1ccf3dnat;
    let e32 = 2 * e31 + 1;
    lemma_power_mod_square_times(2nat, e31, n, x31, 0x4079e8cb08ce2f83124da239nat, x32);
}

proof fn lemma_power_29047611873442575647497758179_over_305873_part_2()
    requires
        power_mod(2nat, 0x141c21786981517cdnat, 0x5ddb9f12ef6348a3e23ba5e3nat) == 0x58ec40840d25dd7c3c1ccf3dnat,
    ensures
        power_mod(2nat, 0x141c21786981517cdc42nat, 0x5ddb9f12ef6348a3e23ba5e3nat) == 0x32220dc98ee43e32b3edcc51nat,
{
    let n = 0x5ddb9f12ef6348a3e23ba5e3nat;
    let e0 = 0x141c21786981517cdnat;
    let x0 = 0x58ec40840d25dd7c3c1ccf3dnat;
    let x1 = 0x3e5c5df7c14911cd2a46e267nat;
    let e1 = 2 * e0 + 1;
    lemma_power_mod_square_times(2nat, e0, n, x0, 0xa87e9ef3a7a9a7d7bb29b699nat, x1);
    let x2 = 0x2879540a63281effc91c713cnat;
    let e2 = 2 * e1 + 1;
    lemma_power_mod_square_times(2nat, e1, n, x1, 0x52de00c29b0c9197219ee0a2nat, x2);
    let x3 = 0x4d8839bd960a3b4206243e5fnat;
    let e3 = 2 * e2;
    lemma_power_mod_square(2nat, e2, n, x2, 0x1174123c0e585f00fb93f05bnat, x3);
    let x4 = 0x3dd195a459af4ab8631646adnat;
    let e4 = 2 * e3;
    lemma_power_mod_square(2nat, e3, n, x3, 0x400bcc9dd66578dbbe96215cnat, x4);
    let x5 = 0x5ab936f24e79b7bf209e9313nat;
    let e5 = 2 * e4;
    lemma_power_mod_square(2nat, e4, n, x4, 0x28b7625286b10715609522b2nat, x5);
    let x6 = 0x3ecf6176f51e5d73a914885cnat;
    let e6 = 2 * e5 + 1;
    lemma_power_mod_square_times(2nat, e5, n, x5, 0xaf63357490685d688c00e192nat, x6);
    let x7 = 0x45ab074d95395d6c4812ac22nat;
    let e7 = 2 * e6;
    lemma_power_mod_square(2nat, e6, n, x6, 0x2a0862dad5eb48b55553fabanat, x7);
    let x8 = 0x2c4f9693cbcaf6e4429e3449nat;
    let e8 = 2 * e7;
    lemma_power_mod_square(2nat, e7, n, x7, 0x33b670d677e5e99d16008bc9nat, x8);
    let x9 = 0x45285f20c037f484e31aa4fenat;
    let e9 = 2 * e8;
    lemma_power_mod_square(2nat, e8, n, x8, 0x14eb60bf890b9b7b061ce951nat, x9);
    let x10 = 0xb6f166330aacaddb45c0f0anat;
    let e10 = 2 * e9;
    lemma_power_mod_square(2nat, e9, n, x9, 0x32f52f708b331f991fd6103enat, x10);
    let x11 = 0x179ef1590987104726558af2nat;
    let e11 = 2 * e10 + 1;
    lemma_power_mod_square_times(2nat, e10, n, x10, 0x2c92a7cf5bf27dd767e92b2nat, x11);
    let x12 = 0x32220dc98ee43e32b3edcc51nat;
    let e12 = 2 * e11;
    lemma_power_mod_square(2nat, e11, n, x11, 0x5f1cfcf8c4d9804d329c031nat, x12);
}

proof fn lemma_power_29047611873442575647497758179_over_305873()
    ensures
        power_mod(2nat, 0x141c21786981517cdc42nat, 0x5ddb9f12ef6348a3e23ba5e3nat) == 0x32220dc98ee43e32b3edcc51nat,
{
    lemma_power_mod_first(2nat, 0x5ddb9f12ef6348a3e23ba5e3nat);
    lemma_power_29047611873442575647497758179_over_305873_part_0();
    lemma_power_29047611873442575647497758179_over_305873_part_1();
    lemma_power_29047611873442575647497758179_over_305873_part_2();
}

proof fn lemma_power_29047611873442575647497758179_over_545358713_part_0()
    requires
        power_mod(2nat, 1nat, 0x5ddb9f12ef6348a3e23ba5e3nat) == 2nat,
    ensures
        power_mod(2nat, 0x17196a686nat, 0x5ddb9f12ef6348a3e23ba5e3nat) == 0x55b967d5d518b2e8d46f3dbnat,
{
    let n = 0x5ddb9f12ef6348a3e23ba5e3nat;
    let e0 = 1nat;
    let x0 = 2nat;
    let x1 = 4nat;
    let e1 = 2 * e0;
    lemma_power_mod_square(2nat, e0, n, x0, 0nat, x1);
    let x2 = 32nat;
    let e2 = 2 * e1 + 1;
    lemma_power_mod_square_times(2nat, e1, n, x1, 0nat, x2);
    let x3 = 2048nat;
    let e3 = 2 * e2 + 1;
    lemma_power_mod_square_times(2nat, e2, n, x2, 0nat, x3);
    let x4 = 0x800000nat;
    let e4 = 2 * e3 + 1;
    lemma_power_mod_square_times(2nat, e3, n, x3, 0nat, x4);
    let x5 = 0x400000000000nat;
    let e5 = 2 * e4;
    lemma_power_mod_square(2nat, e4, n, x4, 0nat, x5);
    let x6 = 0x100000000000000000000000nat;
    let e6 = 2 * e5;
    lemma_power_mod_square(2nat, e5, n, x5, 0nat, x6);
    let x7 = 0x18b8eed903cbc6ea61b7ab43nat;
    let e7 = 2 * e6;
    lemma_power_mod_square(2nat, e6, n, x6, 0x2ba3f3f5a7e3879a87a1cdfnat, x7);
    let x8 = 0x405551174ba400ecd0e5bb0fnat;
    let e8 = 2 * e7 + 1;
    lemma_power_mod_square_times(2nat, e7, n, x7, 0xd061cb9bd130265165cfb61nat, x8);
    let x9 = 0x34641436134197457d3372f4nat;
    let e9 = 2 * e8 + 1;
    lemma_power_mod_square_times(2nat, e8, n, x8, 0x58313733f8818d31c34e7b5anat, x9);
    let x10 = 0x2510c8e2860b579ebf4a971fnat;
    let e10 = 2 * e9;
    lemma_power_mod_square(2nat, e9, n, x9, 0x1d3e8b7222e17e40a477db9bnat, x10);
    let x11 = 0x3c1a10d132ee6cec7326df70nat;
    let e11 = 2 * e10;
    lemma_power_mod_square(2nat, e10, n, x10, 0xea33b00bbe56ec6e1c7893bnat, x11);
    let x12 = 0x3f6bff8e74c37fcfb6cc7ee5nat;
    let e12 = 2 * e11 + 1;
    lemma_power_mod_square_times(2nat, e11, n, x11, 0x4cf8e816638d07afb239d369nat, x12);
    let x13 = 0x32d32f813c9871e85c7992d1nat;
    let e13 = 2 * e12;
    lemma_power_mod_square(2nat, e12, n, x12, 0x2adb0673a8958debb7dfe058nat, x13);
    let x14 = 0x48da7a178b818beea8d8fe10nat;
    let e14 = 2 * e13 + 1;
    lemma_power_mod_square_times(2nat, e13, n, x13, 0x370b5c8d591dbc58b6339aa6nat, x14);
    let x15 = 0x3edb5df091efde040da5341enat;
    let e15 = 2 * e14 + 1;
    lemma_power_mod_square_times(2nat, e14, n, x14, 0x71195e5d829f2f009bbe7036nat, x15);
    let x16 = 0x32ed0ea9628a430b69fe591cnat;
    let e16 = 2 * e15;
    lemma_power_mod_square(2nat, e15, n, x15, 0x2a186f41d7670367c6570878nat, x16);
    let x17 = 0x36662484cd637bafb06c408enat;
    let e17 = 2 * e16 + 1;
    lemma_power_mod_square_times(2nat, e16, n, x16, 0x374374d3275eb2c2cf4878c6nat, x17);
    let x18 = 0x5d1f20cd4b4334dcfdf267fdnat;
    let e18 = 2 * e17;
    lemma_power_mod_square(2nat, e17, n, x17, 0x1f87700d51b9dd8aa067b0cdnat, x18);
    let x19 = 0x2007796d0d74f3e2b4e49e6dnat;
    let e19 = 2 * e18 + 1;
    lemma_power_mod_square_times(2nat, e18, n, x18, 0xb8c83a27cee8f91b759810d7nat, x19);
    let x20 = 0x3eb902fadf55ce352ec8b895nat;
    let e20 = 2 * e19;
    lemma_power_mod_square(2nat, e19, n, x19, 0xaee1650ce617f5acf7b3f1cnat, x20);
    let x21 = 0x520a8cb6e9ac9f2acc3f26aenat;
    let e21 = 2 * e20;
    lemma_power_mod_square(2nat, e20, n, x20, 0x29ea77d01aa416bc7621b5b9nat, x21);
    let x22 = 0x2936a46ba319f2d09d5e479fnat;
    let e22 = 2 * e21 + 1;
    lemma_power_mod_square_times(2nat, e21, n, x21, 0x8f6caae0ccfc91ecd8b653c3nat, x22);
    let x23 = 0x48d3ab4b33edde8a276facc1nat;
    let e23 = 2 * e22 + 1;
    lemma_power_mod_square_times(2nat, e22, n, x22, 0x2431ac853736c5c6b6b5f40bnat, x23);
    let x24 = 0x6afc6f1ee04c479fc0aea0dnat;
    let e24 = 2 * e23;
    lemma_power_mod_square(2nat, e23, n, x23, 0x38821e1f404d26f0bbbfbcfcnat, x24);
    let x25 = 0x25900bd1db12cd1f07756454nat;
    let e25 = 2 * e24 + 1;
    lemma_power_mod_square_times(2nat, e24, n, x24, 0xf3e6aaa73fcae119ccc76anat, x25);
    let x26 = 0x3b1534622170b77ef77063benat;
    let e26 = 2 * e25;
    lemma_power_mod_square(2nat, e25, n, x25, 0xf086b266b104eb70a0ce186nat, x26);
    let x27 = 0xf1d039817354aa7c6849e8enat;
    let e27 = 2 * e26;
    lemma_power_mod_square(2nat, e26, n, x26, 0x2531337a8ce403fd9cfa4d92nat, x27);
    let x28 = 0x51d09c247bacecc160be6006nat;
    let e28 = 2 * e27;
    lemma_power_mod_square(2nat, e27, n, x27, 0x26f00a7c981f089d3d01aaanat, x28);
    let x29 = 0x5a200a2fbc4941d7f296150fnat;
    let e29 = 2 * e28;
    lemma_power_mod_square(2nat, e28, n, x28, 0x47512ee5812c4a8e11043ca7nat, x29);
    let x30 = 0x1a2bdf5b8643df4513663592nat;
    let e30 = 2 * e29 + 1;
    lemma_power_mod_square_times(2nat, e29, n, x29, 0xad14ec714b517eb8f1275e10nat, x30);
    let x31 = 0x54197c40e062cdf6ba2bdc11nat;
    let e31 = 2 * e30 + 1;
    lemma_power_mod_square_times(2nat, e30, n, x30, 0xe9864098a02b981bf8d055dnat, x31);
    let x32 = 0x55b967d5d518b2e8d46f3dbnat;
    let e32 = 2 * e31;
    lemma_power_mod_square(2nat, e31, n, x31, 0x4b5b14335a85b1d88a445882nat, x32);
}

proof fn lemma_power_29047611873442575647497758179_over_545358713_part_1()
    requires
        power_mod(2nat, 0x17196a686nat, 0x5ddb9f12ef6348a3e23ba5e3nat) == 0x55b967d5d518b2e8d46f3dbnat,
    ensures
        power_mod(2nat, 0x17196a686352bb539nat, 0x5ddb9f12ef6348a3e23ba5e3nat) == 0x421e346623d71c88974cdbebnat,
{
    let n = 0x5ddb9f12ef6348a3e23ba5e3nat;
    let e0 = 0x17196a686nat;
    let x0 = 0x55b967d5d518b2e8d46f3dbnat;
    let x1 = 0xb4ec14a4bd8d8b333355db7nat;
    let e1 = 2 * e0;
    lemma_power_mod_square(2nat, e0, n, x0, 0x4e4ba212c759b2c6780376nat, x1);
    let x2 = 0x13c275871d8450f863d9ec3cnat;
    let e2 = 2 * e1;
    lemma_power_mod_square(2nat, e1, n, x1, 0x15cbfb87eb6b6f544f54d27nat, x2);
    let x3 = 0x33375bb24ba5379a22130c8anat;
    let e3 = 2 * e2 + 1;
    lemma_power_mod_square_times(2nat, e2, n, x2, 0x851e1fd390a25f367fab5f2nat, x3);
    let x4 = 0x57e35ff39cc15c875bb79610nat;
    let e4 = 2 * e3 + 1;
    lemma_power_mod_square_times(2nat, e3, n, x3, 0x37e52cabe73eb7762c8fa3e8nat, x4);
    let x5 = 0x578019a882eb58353ae951e2nat;
    let e5 = 2 * e4;
    lemma_power_mod_square(2nat, e4, n, x4, 0x524c549776a659664a276ecanat, x5);
    let x6 = 0x3db87054d8676fe36d3ac162nat;
    let e6 = 2 * e5 + 1;
    lemma_power_mod_square_times(2nat, e5, n, x5, 0xa325a3cb42ecccc031f774a2nat, x6);
    let x7 = 0x175a4a79bad3e4f8b842f059nat;
    let e7 = 2 * e6;
    lemma_power_mod_square(2nat, e6, n, x6, 0x2896494d37d36c9667690219nat, x7);
    let x8 = 0x4da1c46875fd157db3cacffnat;
    let e8 = 2 * e7 + 1;
    lemma_power_mod_square_times(2nat, e7, n, x7, 0xb9ee809e1d84140d7f39901nat, x8);
    let x9 = 0x49a5565c26ab19249d3c77a0nat;
    let e9 = 2 * e8;
    lemma_power_mod_square(2nat, e8, n, x8, 0x40360636a6d227a8e32debnat, x9);
    let x10 = 0x25c2f498fb430919d813d60enat;
    let e10 = 2 * e9;
    lemma_power_mod_square(2nat, e9, n, x9, 0x39c952508bb50f78dbdaece6nat, x10);
    let x11 = 0x19f5257f6627e26188066f82nat;
    let e11 = 2 * e10 + 1;
    lemma_power_mod_square_times(2nat, e10, n, x10, 0x1e628cd09d40dccedf0864c2nat, x11);
    let x12 = 0x549f1b20b4420ea75a4129eenat;
    let e12 = 2 * e11;
    lemma_power_mod_square(2nat, e11, n, x11, 0x72dcce59ebe05ea2d7d4772nat, x12);
    let x13 = 0x4719a3da890fef08b9f985aenat;
    let e13 = 2 * e12 + 1;
    lemma_power_mod_square_times(2nat, e12, n, x12, 0x98968e7da8c966813f2486denat, x13);
    let x14 = 0x1506237faf3b58d1740124acnat;
    let e14 = 2 * e13;
    lemma_power_mod_square(2nat, e13, n, x13, 0x35dc490eacded17cf3fb9f88nat, x14);
    let x15 = 0x405b7b4597802a30dd00202dnat;
    let e15 = 2 * e14 + 1;
    lemma_power_mod_square_times(2nat, e14, n, x14, 0x96b2d278f5dedf967ece7b1nat, x15);
    let x16 = 0x273d69a50ce5d92deababe7cnat;
    let e16 = 2 * e15 + 1;
    lemma_power_mod_square_times(2nat, e15, n, x15, 0x58421ef5af0849dc9108d932nat, x16);
    let x17 = 0x2a838a233bb1014f91ce0732nat;
    let e17 = 2 * e16 + 1;
    lemma_power_mod_square_times(2nat, e16, n, x16, 0x20cf86aae7e897a1f889eebanat, x17);
    let x18 = 0x15e9a257a020bc6a45e2b43nat;
    let e18 = 2 * e17;
    lemma_power_mod_square(2nat, e17, n, x17, 0x1341cd81bafe06b9f8e3cb4bnat, x18);
    let x19 = 0x2b8cdf5693f93623f519a466nat;
    let e19 = 2 * e18 + 1;
    lemma_power_mod_square_times(2nat, e18, n, x18, 0xa3b5182157d3668ea5264nat, x19);
    let x20 = 0x412fb3a9bb76f6308da6520cnat;
    let e20 = 2 * e19 + 1;
    lemma_power_mod_square_times(2nat, e19, n, x19, 0x286a34a5db41d8f696502894nat, x20);
    let x21 = 0x198293acd2ade1e18fb24150nat;
    let e21 = 2 * e20;
    lemma_power_mod_square(2nat, e20, n, x20, 0x2d45f81d2a1fd7cc7455f7c0nat, x21);
    let x22 = 0x4d39ab128a1ae10c6409b4f5nat;
    let e22 = 2 * e21 + 1;
    lemma_power_mod_square_times(2nat, e21, n, x21, 0xdddf35853cd05b819ac74b9nat, x22);
    let x23 = 0x40ed4f47ea40369562b88215nat;
    let e23 = 2 * e22;
    lemma_power_mod_square(2nat, e22, n, x22, 0x3f8a452ed802a634e8aa5b4cnat, x23);
    let x24 = 0x7ce4231740c1a4982f4e18fnat;
    let e24 = 2 * e23 + 1;
    lemma_power_mod_square_times(2nat, e23, n, x23, 0x59d3dcbcea26034eb8ce8c01nat, x24);
    let x25 = 0x3c019609d5548fd236e03f9enat;
    let e25 = 2 * e24;
    lemma_power_mod_square(2nat, e24, n, x24, 0xa62f6f5daa78611ec98421nat, x25);
    let x26 = 0x9b5408531e9a5ce09445cadnat;
    let e26 = 2 * e25;
    lemma_power_mod_square(2nat, e25, n, x25, 0x265d20937c624b7eb56c637dnat, x26);
    let x27 = 0x350b1936b0b4988f1e25e2c1nat;
    let e27 = 2 * e26 + 1;
    lemma_power_mod_square_times(2nat, e26, n, x26, 0x2021d625a56e2eefec0617bnat, x27);
    let x28 = 0x336d06aafabfca66578261b5nat;
    let e28 = 2 * e27 + 1;
    lemma_power_mod_square_times(2nat, e27, n, x27, 0x3bf45427d18cb3fe62e0fb0fnat, x28);
    let x29 = 0x291acbf32019082c74ff1c0fnat;
    let e29 = 2 * e28 + 1;
    lemma_power_mod_square_times(2nat, e28, n, x28, 0x385a8e4b9ad13b35de87c601nat, x29);
    let x30 = 0x2bd1ddd9f70ac1efbadb003cnat;
    let e30 = 2 * e29;
    lemma_power_mod_square(2nat, e29, n, x29, 0x12006a3b1ad2a8034a8fddd7nat, x30);
    let x31 = 0x2ac0d335a1a085f98eca97aenat;
    let e31 = 2 * e30;
    lemma_power_mod_square(2nat, e30, n, x30, 0x147553ef8e50358354230db6nat, x31);
    let x32 = 0x421e346623d71c88974cdbebnat;
    let e32 = 2 * e31 + 1;
    lemma_power_mod_square_times(2nat, e31, n, x31, 0x26f2f51ac5bbaf737c3b0f7fnat, x32);
}

proof fn lemma_power_29047611873442575647497758179_over_545358713_part_2()
    requires
        power_mod(2nat, 0x17196a686352bb539nat, 0x5ddb9f12ef6348a3e23ba5e3nat) == 0x421e346623d71c88974cdbebnat,
    ensures
        power_mod(2nat, 0x2e32d4d0c6a576a72nat, 0x5ddb9f12ef6348a3e23ba5e3nat) == 0x5010e22e6820a9a776987fcnat,
{
    let n = 0x5ddb9f12ef6348a3e23ba5e3nat;
    let e0 = 0x17196a686352bb539nat;
    let x0 = 0x421e346623d71c88974cdbebnat;
    let x1 = 0x5010e22e6820a9a776987fcnat;
    let e1 = 2 * e0;
    lemma_power_mod_square(2nat, e0, n, x0, 0x2e93a09e243e1cae56756bdfnat, x1);
}

proof fn lemma_power_29047611873442575647497758179_over_545358713()
    ensures
        power_mod(2nat, 0x2e32d4d0c6a576a72nat, 0x5ddb9f12ef6348a3e23ba5e3nat) == 0x5010e22e6820a9a776987fcnat,
{
    lemma_power_mod_first(2nat, 0x5ddb9f12ef6348a3e23ba5e3nat);
    lemma_power_29047611873442575647497758179_over_545358713_part_0();
    lemma_power_29047611873442575647497758179_over_545358713_part_1();
    lemma_power_29047611873442575647497758179_over_545358713_part_2();
}

proof fn lemma_power_29047611873442575647497758179_over_297159362677_part_0()
    requires
        power_mod(2nat, 1nat, 0x5ddb9f12ef6348a3e23ba5e3nat) == 2nat,
    ensures
        power_mod(2nat, 0x15b47fa12nat, 0x5ddb9f12ef6348a3e23ba5e3nat) == 0x3aa0878b1039a2b3a7386e7cnat,
{
    let n = 0x5ddb9f12ef6348a3e23ba5e3nat;
    let e0 = 1nat;
    let x0 = 2nat;
    let x1 = 4nat;
    let e1 = 2 * e0;
    lemma_power_mod_square(2nat, e0, n, x0, 0nat, x1);
    let x2 = 32nat;
    let e2 = 2 * e1 + 1;
    lemma_power_mod_square_times(2nat, e1, n, x1, 0nat, x2);
    let x3 = 1024nat;
    let e3 = 2 * e2;
    lemma_power_mod_square(2nat, e2, n, x2, 0nat, x3);
    let x4 = 0x200000nat;
    let e4 = 2 * e3 + 1;
    lemma_power_mod_square_times(2nat, e3, n, x3, 0nat, x4);
    let x5 = 0x80000000000nat;
    let e5 = 2 * e4 + 1;
    lemma_power_mod_square_times(2nat, e4, n, x4, 0nat, x5);
    let x6 = 0x4000000000000000000000nat;
    let e6 = 2 * e5;
    lemma_power_mod_square(2nat, e5, n, x5, 0nat, x6);
    let x7 = 0x3929309982a30d53a6ac4897nat;
    let e7 = 2 * e6 + 1;
    lemma_power_mod_square_times(2nat, e6, n, x6, 0x5747e7eb4fc70f350f43nat, x7);
    let x8 = 0x408a14d3f98c17376350ea9enat;
    let e8 = 2 * e7 + 1;
    lemma_power_mod_square_times(2nat, e7, n, x7, 0x459fac89a4e1c25bd9bf71acnat, x8);
    let x9 = 0xcd23d8f06ceb934152b7458nat;
    let e9 = 2 * e8;
    lemma_power_mod_square(2nat, e8, n, x8, 0x2c610e8d9612855365348de4nat, x9);
    let x10 = 0x38e631dda6c233e9946a47e5nat;
    let e10 = 2 * e9 + 1;
    lemma_power_mod_square_times(2nat, e9, n, x9, 0x380b9fc2b02cbf6d587f3e9nat, x10);
    let x11 = 0x16d7e4780e12e17dfc41c169nat;
    let e11 = 2 * e10;
    lemma_power_mod_square(2nat, e10, n, x10, 0x227e6bf83ae38a58a62ce3d0nat, x11);
    let x12 = 0x41a8feaa3a9faa3b4684b0anat;
    let e12 = 2 * e11;
    lemma_power_mod_square(2nat, e11, n, x11, 0x58f45b0a5fbad5e31ee1c8dnat, x12);
    let x13 = 0x5482e8ed9834ae1d8816b349nat;
    let e13 = 2 * e12;
    lemma_power_mod_square(2nat, e12, n, x12, 0x2def100b3a5b7dfb2c9569nat, x13);
    let x14 = 0x1181e429a28d47d583370c82nat;
    let e14 = 2 * e13 + 1;
    lemma_power_mod_square_times(2nat, e13, n, x13, 0x9830eff4305cbfa76c46dc60nat, x14);
    let x15 = 0x4ba901e7b3b3d1c1f8ec8983nat;
    let e15 = 2 * e14 + 1;
    lemma_power_mod_square_times(2nat, e14, n, x14, 0x688057e46ba5f65c3112a77nat, x15);
    let x16 = 0x173dcc52d4c9dea2aef71610nat;
    let e16 = 2 * e15 + 1;
    lemma_power_mod_square_times(2nat, e15, n, x15, 0x79fb43d2752653c1ed850396nat, x16);
    let x17 = 0x2563367df19b1fcc91391053nat;
    let e17 = 2 * e16 + 1;
    lemma_power_mod_square_times(2nat, e16, n, x16, 0xb829deeabaaa44656939f2fnat, x17);
    let x18 = 0x5d5bff96115a242cbdf3cfc6nat;
    let e18 = 2 * e17 + 1;
    lemma_power_mod_square_times(2nat, e17, n, x17, 0x1dc93bdba99200d0b4007f84nat, x18);
    let x19 = 0x21885592b2ab6c55e73baa16nat;
    let e19 = 2 * e18 + 1;
    lemma_power_mod_square_times(2nat, e18, n, x18, 0xb9ba1b44520571a3641a55a6nat, x19);
    let x20 = 0x18e6395aca90de4013ff4500nat;
    let e20 = 2 * e19 + 1;
    lemma_power_mod_square_times(2nat, e19, n, x19, 0x17f5d716b134200754fb9098nat, x20);
    let x21 = 0x2ec79d4edb79a3bb922f086fnat;
    let e21 = 2 * e20 + 1;
    lemma_power_mod_square_times(2nat, e20, n, x20, 0xd360084f6fa67c4160c06fbnat, x21);
    let x22 = 0x37dec5368547c3ae5c3b6725nat;
    let e22 = 2 * e21;
    lemma_power_mod_square(2nat, e21, n, x21, 0x1750c5157353d8b8e4ed93d4nat, x22);
    let x23 = 0x41e2e86112c9bcfa40ea8222nat;
    let e23 = 2 * e22 + 1;
    lemma_power_mod_square_times(2nat, e22, n, x22, 0x4283d6e885e7103963b13e30nat, x23);
    let x24 = 0x5914bc6fcaa07925118d348anat;
    let e24 = 2 * e23;
    lemma_power_mod_square(2nat, e23, n, x23, 0x2e403b046fea6a43cd34193enat, x24);
    let x25 = 0x323447aeef6098c4b7289da7nat;
    let e25 = 2 * e24;
    lemma_power_mod_square(2nat, e24, n, x24, 0x548c16e9922fa5b4c1cd94dfnat, x25);
    let x26 = 0x4bb7be5f2e995c559a2c8ce8nat;
    let e26 = 2 * e25;
    lemma_power_mod_square(2nat, e25, n, x25, 0x1adaa24a1b70f6d0ee245823nat, x26);
    let x27 = 0x3ae83341c36b7a34cec01594nat;
    let e27 = 2 * e26;
    lemma_power_mod_square(2nat, e26, n, x26, 0x3d15664d8ae1ec3d08e69064nat, x27);
    let x28 = 0x46b90a9fedb6df6ef9276954nat;
    let e28 = 2 * e27 + 1;
    lemma_power_mod_square_times(2nat, e27, n, x27, 0x49f1404559e9c0694744f0c4nat, x28);
    let x29 = 0x3bd7df988923cfe9fc1c40dnat;
    let e29 = 2 * e28;
    lemma_power_mod_square(2nat, e28, n, x28, 0x354a52381a11d955663531e1nat, x29);
    let x30 = 0x5ad1c3aa782b926aff25c8d2nat;
    let e30 = 2 * e29;
    lemma_power_mod_square(2nat, e29, n, x29, 0x2627dd02bce7832b21607dnat, x30);
    let x31 = 0x4e303ac489138390b740b520nat;
    let e31 = 2 * e30 + 1;
    lemma_power_mod_square_times(2nat, e30, n, x30, 0xafc22da87730d19486e22b78nat, x31);
    let x32 = 0x3aa0878b1039a2b3a7386e7cnat;
    let e32 = 2 * e31;
    lemma_power_mod_square(2nat, e31, n, x31, 0x4122894d6dc0251b6691ebacnat, x32);
}

proof fn lemma_power_29047611873442575647497758179_over_297159362677_part_1()
    requires
        power_mod(2nat, 0x15b47fa12nat, 0x5ddb9f12ef6348a3e23ba5e3nat) == 0x3aa0878b1039a2b3a7386e7cnat,
    ensures
        power_mod(2nat, 0x15b47fa125e621anat, 0x5ddb9f12ef6348a3e23ba5e3nat) == 0x33e68e5c0f4c9f74cf1864bbnat,
{
    let n = 0x5ddb9f12ef6348a3e23ba5e3nat;
    let e0 = 0x15b47fa12nat;
    let x0 = 0x3aa0878b1039a2b3a7386e7cnat;
    let x1 = 0x48879cd8f1da48484145f6d5nat;
    let e1 = 2 * e0;
    lemma_power_mod_square(2nat, e0, n, x0, 0x249ee01a7dbe15777a61f2c9nat, x1);
    let x2 = 0xaf616e9719d684365bc238dnat;
    let e2 = 2 * e1 + 1;
    lemma_power_mod_square_times(2nat, e1, n, x1, 0x7018a8f66786d6746bf0ca97nat, x2);
    let x3 = 0x1ac6c24f0b58075cc739b73anat;
    let e3 = 2 * e2;
    lemma_power_mod_square(2nat, e2, n, x2, 0x147b641534902db23892d05nat, x3);
    let x4 = 0x7882002829fb864e8f764b4nat;
    let e4 = 2 * e3 + 1;
    lemma_power_mod_square_times(2nat, e3, n, x3, 0xf472462febedce8dc26505cnat, x4);
    let x5 = 0x431b684aabba0b61d87397ecnat;
    let e5 = 2 * e4 + 1;
    lemma_power_mod_square_times(2nat, e4, n, x4, 0x1357309fc8b471254806c3cnat, x5);
    let x6 = 0x2807bcbeac37d4e053a09be8nat;
    let e6 = 2 * e5 + 1;
    lemma_power_mod_square_times(2nat, e5, n, x5, 0x5ff6104c10953762a6e8e168nat, x6);
    let x7 = 0xc069607a200dd255c99f51dnat;
    let e7 = 2 * e6 + 1;
    lemma_power_mod_square_times(2nat, e6, n, x6, 0x22254874443fdc938c20a881nat, x7);
    let x8 = 0x22d54fd6fee92e673ca587fanat;
    let e8 = 2 * e7;
    lemma_power_mod_square(2nat, e7, n, x7, 0x18a732a92d8607afe2d46a5nat, x8);
    let x9 = 0x444bb8cea9dc8c69e6538bdanat;
    let e9 = 2 * e8;
    lemma_power_mod_square(2nat, e8, n, x8, 0xced75c062c23eb0ffa39caenat, x9);
    let x10 = 0x2a443d5462ddd231590beadanat;
    let e10 = 2 * e9 + 1;
    lemma_power_mod_square_times(2nat, e9, n, x9, 0x636418211ecc5d700cc8d93anat, x10);
    let x11 = 0x15ec4a16015323c5eea740f3nat;
    let e11 = 2 * e10 + 1;
    lemma_power_mod_square_times(2nat, e10, n, x10, 0x26113fe87a9e97e22e21ac67nat, x11);
    let x12 = 0x157ccc3d91f5f166939af2bcnat;
    let e12 = 2 * e11;
    lemma_power_mod_square(2nat, e11, n, x11, 0x51ee6392d0d0be1787c27efnat, x12);
    let x13 = 0xedfce3122dadafd33536a6anat;
    let e13 = 2 * e12;
    lemma_power_mod_square(2nat, e12, n, x12, 0x4eb553fb2cb2eb057c7f2a2nat, x13);
    let x14 = 0x1f92eb014bf7fa7da257d908nat;
    let e14 = 2 * e13;
    lemma_power_mod_square(2nat, e13, n, x13, 0x25b7248f8fade057cd65074nat, x14);
    let x15 = 0x5dca1485c2df48a3a5559b63nat;
    let e15 = 2 * e14 + 1;
    lemma_power_mod_square_times(2nat, e14, n, x14, 0x153e346f1711bfaec23018ffnat, x15);
    let x16 = 0x257722842bdea21d86de0accnat;
    let e16 = 2 * e15;
    lemma_power_mod_square(2nat, e15, n, x15, 0x5db88d3fd4fbe8482e252d1fnat, x16);
    let x17 = 0xae8ddc7e1470aa318bc3185nat;
    let e17 = 2 * e16;
    lemma_power_mod_square(2nat, e16, n, x16, 0xef481442a7db71e315480b9nat, x17);
    let x18 = 0x4558c9d3311bdf7e8afd203nat;
    let e18 = 2 * e17;
    lemma_power_mod_square(2nat, e17, n, x17, 0x144a17244c314426db9ea72nat, x18);
    let x19 = 0xa9240bdcc4125af344aebc3nat;
    let e19 = 2 * e18;
    lemma_power_mod_square(2nat, e18, n, x18, 0x333ca21654de4dacbea182nat, x19);
    let x20 = 0x3e31c319031285ff1cc6f0bcnat;
    let e20 = 2 * e19 + 1;
    lemma_power_mod_square_times(2nat, e19, n, x19, 0x2619d8ed29a398124e6b232nat, x20);
    let x21 = 0x37463c7e49eff006f73e467nat;
    let e21 = 2 * e20 + 1;
    lemma_power_mod_square_times(2nat, e20, n, x20, 0x526cec965b5cbbbf3c38a6b3nat, x21);
    let x22 = 0x54857ac49c9a1c3c313a941fnat;
    let e22 = 2 * e21;
    lemma_power_mod_square(2nat, e21, n, x21, 0x208d4ac6efd53515224e06nat, x22);
    let x23 = 0x4be1397f8385d3ad3a5cb231nat;
    let e23 = 2 * e22 + 1;
    lemma_power_mod_square_times(2nat, e22, n, x22, 0x983a316b3f4a8d6e18272e3bnat, x23);
    let x24 = 0x33e68e5c0f4c9f74cf1864bbnat;
    let e24 = 2 * e23;
    lemma_power_mod_square(2nat, e23, n, x23, 0x3d58661e60b46b09ba0525a2nat, x24);
}

proof fn lemma_power_29047611873442575647497758179_over_297159362677()
    ensures
        power_mod(2nat, 0x15b47fa125e621anat, 0x5ddb9f12ef6348a3e23ba5e3nat) == 0x33e68e5c0f4c9f74cf1864bbnat,
{
    lemma_power_mod_first(2nat, 0x5ddb9f12ef6348a3e23ba5e3nat);
    lemma_power_29047611873442575647497758179_over_297159362677_part_0();
    lemma_power_29047611873442575647497758179_over_297159362677_part_1();
}

proof fn lemma_certificate_29047611873442575647497758179()
    ensures
        is_certificate(0x5ddb9f12ef6348a3e23ba5e3nat, 2nat, seq![2nat, 293nat, 305873nat, 0x20818379nat, 0x4530140875nat]),
{
    let n = 0x5ddb9f12ef6348a3e23ba5e3nat;
    let factors = seq![2nat, 293nat, 305873nat, 0x20818379nat, 0x4530140875nat];
    lemma_small_primes();
    lemma_prime_293();
    lemma_prime_305873();
    lemma_prime_545358713();
    lemma_prime_297159362677();
    lemma_power_29047611873442575647497758179_over_2();
    lemma_fundamental_div_mod_converse(0x5ddb9f12ef6348a3e23ba5e2int, 2int, 0x2eedcf8977b1a451f11dd2f1int, 0);
    lemma_power_29047611873442575647497758179_over_293();
    lemma_fundamental_div_mod_converse(0x5ddb9f12ef6348a3e23ba5e2int, 293int, 0x52016aa89240078c913dbaint, 0);
    lemma_power_29047611873442575647497758179_over_305873();
    lemma_fundamental_div_mod_converse(0x5ddb9f12ef6348a3e23ba5e2int, 305873int, 0x141c21786981517cdc42int, 0);
    lemma_power_29047611873442575647497758179_over_545358713();
    lemma_fundamental_div_mod_converse(0x5ddb9f12ef6348a3e23ba5e2int, 0x20818379int, 0x2e32d4d0c6a576a72int, 0);
    lemma_power_29047611873442575647497758179_over_297159362677();
    lemma_fundamental_div_mod_converse(0x5ddb9f12ef6348a3e23ba5e2int, 0x4530140875int, 0x15b47fa125e621aint, 0);
    lemma_power_mod_square(2nat, 0x2eedcf8977b1a451f11dd2f1nat, n, 0x5ddb9f12ef6348a3e23ba5e2nat, 0x5ddb9f12ef6348a3e23ba5e1nat, 1);
    let f0 = Seq::<nat>::empty();
    lemma_product_push(f0, 2nat, 1nat);
    let f1 = f0.push(2nat);
    lemma_product_push(f1, 293nat, 2nat);
    let f2 = f1.push(293nat);
    lemma_product_push(f2, 305873nat, 586nat);
    let f3 = f2.push(305873nat);
    lemma_product_push(f3, 0x20818379nat, 0xaaf026anat);
    let f4 = f3.push(0x20818379nat);
    lemma_product_push(f4, 0x4530140875nat, 0x15b47fa125e621anat);
    let f5 = f4.push(0x4530140875nat);
    assert(factors =~= f5);
    assert forall|j: int| 0 <= j < factors.len() implies is_prime(#[trigger] factors[j])
        && power_mod(2nat, ((n - 1) / factors[j] as int) as nat, n) != 1 by {
        if j == 0 {
        } else if j == 1 {
        } else if j == 2 {
        } else if j == 3 {
        } else if j == 4 {
        }
    }
}

/// 29047611873442575647497758179 is prime.
pub(crate) proof fn lemma_prime_29047611873442575647497758179()
    ensures
        is_prime(0x5ddb9f12ef6348a3e23ba5e3nat),
{
    lemma_certificate_29047611873442575647497758179();
    lemma_certified_prime(0x5ddb9f12ef6348a3e23ba5e3nat, 2nat, seq![2nat, 293nat, 305873nat, 0x20818379nat, 0x4530140875nat]);
}

proof fn lemma_power_341948486974166000522343609283189_over_2_part_0()
    requires
        power_mod(2nat, 1nat, 0x10dbff26eab8198050172ee03275nat) == 2nat,
    ensures
        power_mod(2nat, 0x10dbff26enat, 0x10dbff26eab8198050172ee03275nat) == 0xb677d04e913fd857f8121348452nat,
{
    let n = 0x10dbff26eab8198050172ee03275nat;
    let e0 = 1nat;
    let x0 = 2nat;
    let x1 = 4nat;
    let e1 = 2 * e0;
    lemma_power_mod_square(2nat, e0, n, x0, 0nat, x1);
    let x2 = 16nat;
    let e2 = 2 * e1;
    lemma_power_mod_square(2nat, e1, n, x1, 0nat, x2);
    let x3 = 256nat;
    let e3 = 2 * e2;
    lemma_power_mod_square(2nat, e2, n, x2, 0nat, x3);
    let x4 = 65536nat;
    let e4 = 2 * e3;
    lemma_power_mod_square(2nat, e3, n, x3, 0nat, x4);
    let x5 = 0x200000000nat;
    let e5 = 2 * e4 + 1;
    lemma_power_mod_square_times(2nat, e4, n, x4, 0nat, x5);
    let x6 = 0x80000000000000000nat;
    let e6 = 2 * e5 + 1;
    lemma_power_mod_square_times(2nat, e5, n, x5, 0nat, x6);
    let x7 = 0x8224f18cdedc1a74e7156245eccnat;
    let e7 = 2 * e6;
    lemma_power_mod_square(2nat, e6, n, x6, 0x3cbcde4nat, x7);
    let x8 = 0xb51c6b41adf8c1fb6f45a39e9f3nat;
    let e8 = 2 * e7 + 1;
    lemma_power_mod_square_times(2nat, e7, n, x7, 0x7d94639de44c8b12cac6bdc9ed9nat, x8);
    let x9 = 0xe03f9675da2bc0805aecce9d737nat;
    let e9 = 2 * e8 + 1;
    lemma_power_mod_square_times(2nat, e8, n, x8, 0xf3327c5ac6a20f9880c91bcd04fnat, x9);
    let x10 = 0x87ae332b4a0b9aa419e908a3ec5nat;
    let e10 = 2 * e9;
    lemma_power_mod_square(2nat, e9, n, x9, 0xba6c12f63c352af08ee9387395cnat, x10);
    let x11 = 0xcd5926cdbc8822927857dba02c3nat;
    let e11 = 2 * e10 + 1;
    lemma_power_mod_square_times(2nat, e10, n, x10, 0x887da8723d5205f2a1c9a50f6d3nat, x11);
    let x12 = 0xb48eac51830228f314418a707e4nat;
    let e12 = 2 * e11 + 1;
    lemma_power_mod_square_times(2nat, e11, n, x11, 0x138a50218146adec6b75722bb2b6nat, x12);
    let x13 = 0x3d30850a27f6c21e36d97c4edeenat;
    let e13 = 2 * e12 + 1;
    lemma_power_mod_square_times(2nat, e12, n, x12, 0xf1b66494f82984fe69ef865ed2anat, x13);
    let x14 = 0x22e01e849b2bb93a9985db950b0nat;
    let e14 = 2 * e13 + 1;
    lemma_power_mod_square_times(2nat, e13, n, x13, 0x1bc29ea54408a081553d57a4f78nat, x14);
    let x15 = 0xa5dc4f3b945b885f8c8f01fc3d3nat;
    let e15 = 2 * e14 + 1;
    lemma_power_mod_square_times(2nat, e14, n, x14, 0x90499d8467182494ea0f99a5d9nat, x15);
    let x16 = 0xdac352ebf40de598f68f1ee8313nat;
    let e16 = 2 * e15 + 1;
    lemma_power_mod_square_times(2nat, e15, n, x15, 0xcbf6fe1f4ef71fadee1e46523e3nat, x16);
    let x17 = 0xc11e14be69fb8adfd91ab1c4d6anat;
    let e17 = 2 * e16 + 1;
    lemma_power_mod_square_times(2nat, e16, n, x16, 0x162d3b094c554e17bd019406b6c8nat, x17);
    let x18 = 0x7106020ea2e31f1c338454ab4d6nat;
    let e18 = 2 * e17 + 1;
    lemma_power_mod_square_times(2nat, e17, n, x17, 0x11482c6232de723db38be89b5ceanat, x18);
    let x19 = 0xc8175f0082957100acd63bc391bnat;
    let e19 = 2 * e18 + 1;
    lemma_power_mod_square_times(2nat, e18, n, x18, 0x5eb655d2faeb843f9b05cb33a59nat, x19);
    let x20 = 0x58212c5d08a43cb911cc6657133nat;
    let e20 = 2 * e19 + 1;
    lemma_power_mod_square_times(2nat, e19, n, x19, 0x128d789422afc0d502ec918280a3nat, x20);
    let x21 = 0x4a027debd9b6a4d258c6148167bnat;
    let e21 = 2 * e20;
    lemma_power_mod_square(2nat, e20, n, x20, 0x1ccaee0a0a1a78c385f54cf6136nat, x21);
    let x22 = 0x890e036d20605c49d43b3d08d53nat;
    let e22 = 2 * e21;
    lemma_power_mod_square(2nat, e21, n, x21, 0x144e3e10aa8076dff33f54325eenat, x22);
    let x23 = 0x15a14745f86b585694f6754d022nat;
    let e23 = 2 * e22 + 1;
    lemma_power_mod_square_times(2nat, e22, n, x22, 0x8b4512817726074fbae81eaa4f0nat, x23);
    let x24 = 0x7381727a0adab9a6dfebcae2e70nat;
    let e24 = 2 * e23;
    lemma_power_mod_square(2nat, e23, n, x23, 0x1bc02448e26b2625e4edb91344nat, x24);
    let x25 = 0x142070362f4546c54d35866501dnat;
    let e25 = 2 * e24;
    lemma_power_mod_square(2nat, e24, n, x24, 0x3175813c4696ffe383988ad6af7nat, x25);
    let x26 = 0xa32b7f624e7636ea0dc762d2c8bnat;
    let e26 = 2 * e25 + 1;
    lemma_power_mod_square_times(2nat, e25, n, x25, 0x300df71cf307420e45a54d530bnat, x26);
    let x27 = 0x1847901356dbb9e8051e10ca45fnat;
    let e27 = 2 * e26 + 1;
    lemma_power_mod_square_times(2nat, e26, n, x26, 0xc5669ea73f55ce57baa9f54afe7nat, x27);
    let x28 = 0xc6de1ed3db93276620126f53f26nat;
    let e28 = 2 * e27;
    lemma_power_mod_square(2nat, e27, n, x27, 0x22f72b911d03b56fd56f03a24fnat, x28);
    let x29 = 0x52b933acb91772d5c75a13fc283nat;
    let e29 = 2 * e28 + 1;
    lemma_power_mod_square_times(2nat, e28, n, x28, 0x12538f1658ba7af313ad0b421b11nat, x29);
    let x30 = 0xc6c5cb47417df87261c057dff4fnat;
    let e30 = 2 * e29 + 1;
    lemma_power_mod_square_times(2nat, e29, n, x29, 0x32bcb6157cb7f1064081b3f7557nat, x30);
    let x31 = 0x57911f444773e997d0973ed0846nat;
    let e31 = 2 * e30 + 1;
    lemma_power_mod_square_times(2nat, e30, n, x30, 0x124f1393cf3e7221b539ecd3730cnat, x31);
    let x32 = 0xb677d04e913fd857f8121348452nat;
    let e32 = 2 * e31;
    lemma_power_mod_square(2nat, e31, n, x31, 0x1c6d1ad58cf41a57f7da61ad54anat, x32);
}

proof fn lemma_power_341948486974166000522343609283189_over_2_part_1()
    requires
        power_mod(2nat, 0x10dbff26enat, 0x10dbff26eab8198050172ee03275nat) == 0xb677d04e913fd857f8121348452nat,
    ensures
        power_mod(2nat, 0x10dbff26eab819805nat, 0x10dbff26eab8198050172ee03275nat) == 0xadcdc656d72660ff9c779758ccdnat,
{
    let n = 0x10dbff26eab8198050172ee03275nat;
    let e0 = 0x10dbff26enat;
    let x0 = 0xb677d04e913fd857f8121348452nat;
    let x1 = 0x9f172cfe0cc76284f5ef95aa4dfnat;
    let e1 = 2 * e0 + 1;
    lemma_power_mod_square_times(2nat, e0, n, x0, 0xf6daf30d5c439c992fa037fb9e5nat, x1);
    let x2 = 0x9d6a629ef08296a859972c6310enat;
    let e2 = 2 * e1;
    lemma_power_mod_square(2nat, e1, n, x1, 0x5dd3b22442c3cd21b4dcc1a4807nat, x2);
    let x3 = 0x1c1f1471a34e8497edc3be3a68bnat;
    let e3 = 2 * e2 + 1;
    lemma_power_mod_square_times(2nat, e2, n, x2, 0xb7b92a13ae45e50508e7674bd69nat, x3);
    let x4 = 0x252a29a9d0a8403b9e0cd9fe97dnat;
    let e4 = 2 * e3;
    lemma_power_mod_square(2nat, e3, n, x3, 0x2ee80f934e4cdabdf88805168cnat, x4);
    let x5 = 0x15774b5362fd6296ba27c0c4de2nat;
    let e5 = 2 * e4 + 1;
    lemma_power_mod_square_times(2nat, e4, n, x4, 0xa3d9f374abc825a98e8b96d970nat, x5);
    let x6 = 0x850fd2374fc545d49506f390acanat;
    let e6 = 2 * e5;
    lemma_power_mod_square(2nat, e5, n, x5, 0x1b54d253945f9f6f95b8eb0292nat, x6);
    let x7 = 0x74981e7156bbb0cdfa01c6f36acnat;
    let e7 = 2 * e6 + 1;
    lemma_power_mod_square_times(2nat, e6, n, x6, 0x8345e8875d70c4de94e923fbc2cnat, x7);
    let x8 = 0x1357734b21763d94d8eda1d8385nat;
    let e8 = 2 * e7 + 1;
    lemma_power_mod_square_times(2nat, e7, n, x7, 0x64ca901061b11a39e8dfc3ffbcfnat, x8);
    let x9 = 0x178d0d239bfc7b487e01c96cc5anat;
    let e9 = 2 * e8 + 1;
    lemma_power_mod_square_times(2nat, e8, n, x8, 0x2c60ed3396d9b2ef21b7d6a778nat, x9);
    let x10 = 0xabd70c3eb3da93ae6629463ff0anat;
    let e10 = 2 * e9;
    lemma_power_mod_square(2nat, e9, n, x9, 0x20e6080d9f204eef961fdca6f2nat, x10);
    let x11 = 0x103ff41270775a0c0c2c1d957ac3nat;
    let e11 = 2 * e10;
    lemma_power_mod_square(2nat, e10, n, x10, 0x6d77d51c4bed8c9aa0846e8c4fdnat, x11);
    let x12 = 0xcf5a24f02a902418da2dd19fbb9nat;
    let e12 = 2 * e11;
    lemma_power_mod_square(2nat, e11, n, x11, 0xfa98d439c1584014c42b1d56790nat, x12);
    let x13 = 0x4e6e8c069975e80e0a4947be5dfnat;
    let e13 = 2 * e12;
    lemma_power_mod_square(2nat, e12, n, x12, 0x9f6359d97c0ee4d27e002d2904anat, x13);
    let x14 = 0x3a4d4a15d83d69dec414da3db1anat;
    let e14 = 2 * e13;
    lemma_power_mod_square(2nat, e13, n, x13, 0x16cdfde31d0f8cffb9b6d3165abnat, x14);
    let x15 = 0x99ce21df6fba4a8935a7491e3aanat;
    let e15 = 2 * e14;
    lemma_power_mod_square(2nat, e14, n, x14, 0xc99da1b895114e67ad2d487bd2nat, x15);
    let x16 = 0x964c232ddbe153a3f6a1c833b67nat;
    let e16 = 2 * e15 + 1;
    lemma_power_mod_square_times(2nat, e15, n, x15, 0xaf6478bea5c5f816c40065026bdnat, x16);
    let x17 = 0x101eba183c38588ac25caea703fcnat;
    let e17 = 2 * e16 + 1;
    lemma_power_mod_square_times(2nat, e16, n, x16, 0xa77bc2e5d0c7fd1a7dee8646e8enat, x17);
    let x18 = 0xe2ed88cace0589eb3ea46541f0enat;
    let e18 = 2 * e17;
    lemma_power_mod_square(2nat, e17, n, x17, 0xf69c1da6b5763b064d5728fb8banat, x18);
    let x19 = 0x9ff9f150f78c341613df4507256nat;
    let e19 = 2 * e18;
    lemma_power_mod_square(2nat, e18, n, x18, 0xbee75eb49169e74ec37296adef6nat, x19);
    let x20 = 0x309ec02408ba50fbe74138c7627nat;
    let e20 = 2 * e19 + 1;
    lemma_power_mod_square_times(2nat, e19, n, x19, 0xbdbfd7cb1a88db2f09cb247fefdnat, x20);
    let x21 = 0x4ef2146ebe9428886bbf0805673nat;
    let e21 = 2 * e20 + 1;
    lemma_power_mod_square_times(2nat, e20, n, x20, 0x1186d7d4a06e706258e79df0bd3nat, x21);
    let x22 = 0x8fba5375450c745a0ffe48a4f24nat;
    let e22 = 2 * e21;
    lemma_power_mod_square(2nat, e21, n, x21, 0x171abb0bb74f4c06166e5693bd1nat, x22);
    let x23 = 0xfe723a6ccea270c7348f2aa0050nat;
    let e23 = 2 * e22;
    lemma_power_mod_square(2nat, e22, n, x22, 0x4c94b8070ac870becc663b331c0nat, x23);
    let x24 = 0x6c7b571b793fbf528a75e80964anat;
    let e24 = 2 * e23;
    lemma_power_mod_square(2nat, e23, n, x23, 0xf002c58486daa49403f4d3e151enat, x24);
    let x25 = 0x6aea0674339350d400f9cd9ae5anat;
    let e25 = 2 * e24;
    lemma_power_mod_square(2nat, e24, n, x24, 0x2ba0712804245802d0140844da2nat, x25);
    let x26 = 0x1ef2f9ec6ff44fe1f2d4745e074nat;
    let e26 = 2 * e25;
    lemma_power_mod_square(2nat, e25, n, x25, 0x2a5ffda73a2ab950eb5b083f470nat, x26);
    let x27 = 0x903621f8cda4f3d765c4eec4066nat;
    let e27 = 2 * e26;
    lemma_power_mod_square(2nat, e26, n, x26, 0x38d064a8d834bca56dd12fea42nat, x27);
    let x28 = 0x305417a32e60d999986e334b701nat;
    let e28 = 2 * e27;
    lemma_power_mod_square(2nat, e27, n, x27, 0x4d18dfbbf08c6034bac7b94e0b7nat, x28);
    let x29 = 0x7385da43f56db17ff7d9d7eff83nat;
    let e29 = 2 * e28;
    lemma_power_mod_square(2nat, e28, n, x28, 0x8a896d81583aa91e551025c8c6nat, x29);
    let x30 = 0xa6708b9c4bf64299ed89c52ce40nat;
    let e30 = 2 * e29 + 1;
    lemma_power_mod_square_times(2nat, e29, n, x29, 0x62f28e456947b6d21d5b757fe4anat, x30);
    let x31 = 0x1914a923bbd8dbebb19fc430678nat;
    let e31 = 2 * e30;
    lemma_power_mod_square(2nat, e30, n, x30, 0x66b21b06e0f959c1d38b0a02268nat, x31);
    let x32 = 0xadcdc656d72660ff9c779758ccdnat;
    let e32 = 2 * e31 + 1;
    lemma_power_mod_square_times(2nat, e31, n, x31, 0x4a9f4c191b3ed91497c0346887nat, x32);
}

proof fn lemma_power_341948486974166000522343609283189_over_2_part_2()
    requires
        power_mod(2nat, 0x10dbff26eab819805nat, 0x10dbff26eab8198050172ee03275nat) == 0xadcdc656d72660ff9c779758ccdnat,
    ensures
        power_mod(2nat, 0x10dbff26eab8198050172ee03nat, 0x10dbff26eab8198050172ee03275nat) == 0xd2c4331bd7717069910da6fba2fnat,
{
    let n = 0x10dbff26eab8198050172ee03275nat;
    let e0 = 0x10dbff26eab819805nat;
    let x0 = 0xadcdc656d72660ff9c779758ccdnat;
    let x1 = 0x7d335079c2badeb047ff4cd1441nat;
    let e1 = 2 * e0;
    lemma_power_mod_square(2nat, e0, n, x0, 0x6ffc0062b13b2dac94aefe85b48nat, x1);
    let x2 = 0xf06a8643a454bb4b8852735503nat;
    let e2 = 2 * e1;
    lemma_power_mod_square(2nat, e1, n, x1, 0x3a1c26de0fbb50becc945ccc9c6nat, x2);
    let x3 = 0x10489dfecf2a3ffe9f2d62a9a755nat;
    let e3 = 2 * e2;
    lemma_power_mod_square(2nat, e2, n, x2, 0xd645b4f54c1bf73e7734afd64nat, x3);
    let x4 = 0x5635343ed0358eaa14977a10ce5nat;
    let e4 = 2 * e3;
    lemma_power_mod_square(2nat, e3, n, x3, 0xfba452fbe7f9ca8b8565ab30d84nat, x4);
    let x5 = 0x221e5435ee26273cbc6c2b5b1f9nat;
    let e5 = 2 * e4;
    lemma_power_mod_square(2nat, e4, n, x4, 0x1b8cf93bb8067c5f116b7f62b60nat, x5);
    let x6 = 0xdd49cf82f1d648f2829032865d3nat;
    let e6 = 2 * e5;
    lemma_power_mod_square(2nat, e5, n, x5, 0x450bc1682c778ddce74f14bd26nat, x6);
    let x7 = 0xc98a642cf195f984a7c08abbe20nat;
    let e7 = 2 * e6;
    lemma_power_mod_square(2nat, e6, n, x6, 0xb5887a99567b7053aaf135c7b85nat, x7);
    let x8 = 0xf3c4c33cc1736cf6084d7d0de43nat;
    let e8 = 2 * e7 + 1;
    lemma_power_mod_square_times(2nat, e7, n, x7, 0x12d285d3209ff0c0225a79592129nat, x8);
    let x9 = 0x103ce0e3b2089b18d03abbb68be0nat;
    let e9 = 2 * e8;
    lemma_power_mod_square(2nat, e8, n, x8, 0xdc4a316673b54742b1cbe715be5nat, x9);
    let x10 = 0x1359879ced4dc1c9510a2189a82nat;
    let e10 = 2 * e9 + 1;
    lemma_power_mod_square_times(2nat, e9, n, x9, 0x1f4740c2bbda973f77f2f8c5ebc6nat, x10);
    let x11 = 0x81f355ff0a080ec292e55c14313nat;
    let e11 = 2 * e10 + 1;
    lemma_power_mod_square_times(2nat, e10, n, x10, 0x2c6a787da524732f29d28f9481nat, x11);
    let x12 = 0x5cb0dc938101c6b321a8faba58dnat;
    let e12 = 2 * e11 + 1;
    lemma_power_mod_square_times(2nat, e11, n, x11, 0x7d34b9999073dcbf0dd67635991nat, x12);
    let x13 = 0x1ec8f1a37e18026e9050f08e296nat;
    let e13 = 2 * e12;
    lemma_power_mod_square(2nat, e12, n, x12, 0x1fd9a98ec4ed35e6f5cb7b46067nat, x13);
    let x14 = 0x6f50106802f676c9c417f5bdf1enat;
    let e14 = 2 * e13;
    lemma_power_mod_square(2nat, e13, n, x13, 0x38367ba2fe0a0533f74afbc8eenat, x14);
    let x15 = 0x876b885cbc668d59f1a3f7c2965nat;
    let e15 = 2 * e14 + 1;
    lemma_power_mod_square_times(2nat, e14, n, x14, 0x5bdde82ed1507c8a1327ad684b7nat, x15);
    let x16 = 0x5e423a4481c921b4a5603a28a07nat;
    let e16 = 2 * e15;
    lemma_power_mod_square(2nat, e15, n, x15, 0x43fbd3f50d3cfc971fc35069a4anat, x16);
    let x17 = 0xd737792189900bab467542894a8nat;
    let e17 = 2 * e16 + 1;
    lemma_power_mod_square_times(2nat, e16, n, x16, 0x41dfa80fb8964fafb6fa0012992nat, x17);
    let x18 = 0x3bd282be074838a81b2b12edb98nat;
    let e18 = 2 * e17 + 1;
    lemma_power_mod_square_times(2nat, e17, n, x17, 0x1576a8c23a90ebce78ff2f1d1048nat, x18);
    let x19 = 0x74abcdcee35f0f988d53ef282f7nat;
    let e19 = 2 * e18 + 1;
    lemma_power_mod_square_times(2nat, e18, n, x18, 0x1a88961511d282aed7b48e8d845nat, x19);
    let x20 = 0xa8fbedf647f54069d1753c49d72nat;
    let e20 = 2 * e19;
    lemma_power_mod_square(2nat, e19, n, x19, 0x32764dcee0ef5b2f144ba568f83nat, x20);
    let x21 = 0x103dfd638a23f777f1df6f2b620bnat;
    let e21 = 2 * e20 + 1;
    lemma_power_mod_square_times(2nat, e20, n, x20, 0xd3b827979f8a45a139c4d27e3e9nat, x21);
    let x22 = 0xf6ab5fc9ca12d4cae19c270326nat;
    let e22 = 2 * e21 + 1;
    lemma_power_mod_square_times(2nat, e21, n, x21, 0x1f4b88f339fb25899a652f72ed1cnat, x22);
    let x23 = 0xfbf6128cce3e231012bb0ffe567nat;
    let e23 = 2 * e22 + 1;
    lemma_power_mod_square_times(2nat, e22, n, x22, 0x1c320b3e141d3c1ecb3c43483dnat, x23);
    let x24 = 0xabeacaa8ccd52caab1784e8c73enat;
    let e24 = 2 * e23;
    lemma_power_mod_square(2nat, e23, n, x23, 0xeb58807a4c1fd7418ca310d4b07nat, x24);
    let x25 = 0x7261d1ccb8d55adb74e979c3c79nat;
    let e25 = 2 * e24;
    lemma_power_mod_square(2nat, e24, n, x24, 0x6d90fe3b7ce75751d971370a4ffnat, x25);
    let x26 = 0xe21476220aa673f9f380e020179nat;
    let e26 = 2 * e25;
    lemma_power_mod_square(2nat, e25, n, x25, 0x3080618f951d4d06efd854d49d8nat, x26);
    let x27 = 0xb0711790e8d526b5c7c6bf6aa86nat;
    let e27 = 2 * e26;
    lemma_power_mod_square(2nat, e26, n, x26, 0xbd7ad366cede567ed8a4b36429fnat, x27);
    let x28 = 0x9ea3887a91c0a9cf753d3c15c50nat;
    let e28 = 2 * e27;
    lemma_power_mod_square(2nat, e27, n, x27, 0x7368d6ef89f83332afb6a38b804nat, x28);
    let x29 = 0xdb44be5ef53198ae48a674753abnat;
    let e29 = 2 * e28;
    lemma_power_mod_square(2nat, e28, n, x28, 0x5d4b7bf79fc4b207efea8afab61nat, x29);
    let x30 = 0x102841fd9e844560871c2e547433nat;
    let e30 = 2 * e29;
    lemma_power_mod_square(2nat, e29, n, x29, 0xb23c00964f977b305476b79b32enat, x30);
    let x31 = 0x6a858992348f3f463e47943f49nat;
    let e31 = 2 * e30 + 1;
    lemma_power_mod_square_times(2nat, e30, n, x30, 0x1ef802141af52b73c130d58b8dc5nat, x31);
    let x32 = 0xd2c4331bd7717069910da6fba2fnat;
    let e32 = 2 * e31 + 1;
    lemma_power_mod_square_times(2nat, e31, n, x31, 0x5420f6642c4fd0c3050b77947nat, x32);
}

proof fn lemma_power_341948486974166000522343609283189_over_2_part_3()
    requires
        power_mod(2nat, 0x10dbff26eab8198050172ee03nat, 0x10dbff26eab8198050172ee03275nat) == 0xd2c4331bd7717069910da6fba2fnat,
    ensures
        power_mod(2nat, 0x86dff93755c0cc0280b9770193anat, 0x10dbff26eab8198050172ee03275nat) == 0x10dbff26eab8198050172ee03274nat,
{
    let n = 0x10dbff26eab8198050172ee03275nat;
    let e0 = 0x10dbff26eab8198050172ee03nat;
    let x0 = 0xd2c4331bd7717069910da6fba2fnat;
    let x1 = 0x38711f83e29d9a250d3fd80fbf5nat;
    let e1 = 2 * e0;
    lemma_power_mod_square(2nat, e0, n, x0, 0xa4ae28486b90143807d6c60487cnat, x1);
    let x2 = 0xd7e044a5185835a5067c4a10f0enat;
    let e2 = 2 * e1;
    lemma_power_mod_square(2nat, e1, n, x1, 0xbcf4df6c3b7a562a22cf9a505fnat, x2);
    let x3 = 0x744b302b1d27a18fdcfd14927canat;
    let e3 = 2 * e2 + 1;
    lemma_power_mod_square_times(2nat, e2, n, x2, 0x159860e929a59c195cf59712c706nat, x3);
    let x4 = 0xd8a8fdec40c9dcd8de0bf95a7ebnat;
    let e4 = 2 * e3;
    lemma_power_mod_square(2nat, e3, n, x3, 0x3222dd0584674f38722d3862475nat, x4);
    let x5 = 0xa3253402ec28b256e0822928b8enat;
    let e5 = 2 * e4;
    lemma_power_mod_square(2nat, e4, n, x4, 0xae04e220b71fcf6f12b62e5621fnat, x5);
    let x6 = 0x22911edad1d16db54efebb461enat;
    let e6 = 2 * e5 + 1;
    lemma_power_mod_square_times(2nat, e5, n, x5, 0xc557641c87b7b4ca232b6f5a082nat, x6);
    let x7 = 0x1a348bf3ec281870d7a129b44b4nat;
    let e7 = 2 * e6 + 1;
    lemma_power_mod_square_times(2nat, e6, n, x6, 0x8dbed643ed6b78cae1bf9684nat, x7);
    let x8 = 0x20f80f7733525fe9c54989e67banat;
    let e8 = 2 * e7 + 1;
    lemma_power_mod_square_times(2nat, e7, n, x7, 0x5176c9d0c349e884fd04da670enat, x8);
    let x9 = 0xba85717382204f9b0bc977a49e3nat;
    let e9 = 2 * e8;
    lemma_power_mod_square(2nat, e8, n, x8, 0x4078ca4993bbe253a3d3982a1dnat, x9);
    let x10 = 0x674af07858bf073116200146150nat;
    let e10 = 2 * e9 + 1;
    lemma_power_mod_square_times(2nat, e9, n, x9, 0x101f1af56a82ca8544a1b91c9bfanat, x10);
    let x11 = 0x10dbff26eab8198050172ee03274nat;
    let e11 = 2 * e10;
    lemma_power_mod_square(2nat, e10, n, x10, 0x278d8b4df359aa41668433042dcnat, x11);
}

proof fn lemma_power_341948486974166000522343609283189_over_2()
    ensures
        power_mod(2nat, 0x86dff93755c0cc0280b9770193anat, 0x10dbff26eab8198050172ee03275nat) == 0x10dbff26eab8198050172ee03274nat,
{
    lemma_power_mod_first(2nat, 0x10dbff26eab8198050172ee03275nat);
    lemma_power_341948486974166000522343609283189_over_2_part_0();
    lemma_power_341948486974166000522343609283189_over_2_part_1();
    lemma_power_341948486974166000522343609283189_over_2_part_2();
    lemma_power_341948486974166000522343609283189_over_2_part_3();
}

proof fn lemma_power_341948486974166000522343609283189_over_3_part_0()
    requires
        power_mod(2nat, 1nat, 0x10dbff26eab8198050172ee03275nat) == 2nat,
    ensures
        power_mod(2nat, 0x167aa9893nat, 0x10dbff26eab8198050172ee03275nat) == 0xc7ff66255f65d5ae89c04e9d352nat,
{
    let n = 0x10dbff26eab8198050172ee03275nat;
    let e0 = 1nat;
    let x0 = 2nat;
    let x1 = 4nat;
    let e1 = 2 * e0;
    lemma_power_mod_square(2nat, e0, n, x0, 0nat, x1);
    let x2 = 32nat;
    let e2 = 2 * e1 + 1;
    lemma_power_mod_square_times(2nat, e1, n, x1, 0nat, x2);
    let x3 = 2048nat;
    let e3 = 2 * e2 + 1;
    lemma_power_mod_square_times(2nat, e2, n, x2, 0nat, x3);
    let x4 = 0x400000nat;
    let e4 = 2 * e3;
    lemma_power_mod_square(2nat, e3, n, x3, 0nat, x4);
    let x5 = 0x100000000000nat;
    let e5 = 2 * e4;
    lemma_power_mod_square(2nat, e4, n, x4, 0nat, x5);
    let x6 = 0x20000000000000000000000nat;
    let e6 = 2 * e5 + 1;
    lemma_power_mod_square_times(2nat, e5, n, x5, 0nat, x6);
    let x7 = 0x7ae3dbc63b1b3d175be45309f21nat;
    let e7 = 2 * e6 + 1;
    lemma_power_mod_square_times(2nat, e6, n, x6, 0x7979bc8f70565f7383nat, x7);
    let x8 = 0x8e2a06e9042dfed6cf66368a6b8nat;
    let e8 = 2 * e7 + 1;
    lemma_power_mod_square_times(2nat, e7, n, x7, 0x6ff85f609a5000d8928ee2c3962nat, x8);
    let x9 = 0x8f6009a82714efaced6805ba1fdnat;
    let e9 = 2 * e8 + 1;
    lemma_power_mod_square_times(2nat, e8, n, x8, 0x95d8ee4658ba02b74a522ede617nat, x9);
    let x10 = 0xc208c0ceb620cb98acd33a887cbnat;
    let e10 = 2 * e9;
    lemma_power_mod_square(2nat, e9, n, x9, 0x4c349f4cab00af785d97fafd786nat, x10);
    let x11 = 0x66e4d8482c531bb3f722961001cnat;
    let e11 = 2 * e10 + 1;
    lemma_power_mod_square_times(2nat, e10, n, x10, 0x11724637f11ecbb39af6e10e97benat, x11);
    let x12 = 0x5072b6fd94b62a14fd10d53bcbfnat;
    let e12 = 2 * e11;
    lemma_power_mod_square(2nat, e11, n, x11, 0x273f81c784bdb8261c77c2d50ednat, x12);
    let x13 = 0x48ab93f593eb272ef1759836a35nat;
    let e13 = 2 * e12 + 1;
    lemma_power_mod_square_times(2nat, e12, n, x12, 0x2ffc04d49229d9d6f6a758713f9nat, x13);
    let x14 = 0x885f8dfc8536c4857e71a635d20nat;
    let e14 = 2 * e13;
    lemma_power_mod_square(2nat, e13, n, x13, 0x1393c74e4c79568ff471c466d55nat, x14);
    let x15 = 0x8fe4dd07a42f7973227973a625anat;
    let e15 = 2 * e14 + 1;
    lemma_power_mod_square_times(2nat, e14, n, x14, 0x89e365a7157bc3cfb48e1d6ee4enat, x15);
    let x16 = 0x79449ccf175bdc1dab04b5c8e14nat;
    let e16 = 2 * e15;
    lemma_power_mod_square(2nat, e15, n, x15, 0x4cc2131417d2899bb698e614150nat, x16);
    let x17 = 0xb689994a8c76aec0a75510eaf3anat;
    let e17 = 2 * e16 + 1;
    lemma_power_mod_square_times(2nat, e16, n, x16, 0x6d08abcc059ea9e48c0052dfb8enat, x17);
    let x18 = 0x390946ca8b008e144c0de1d7937nat;
    let e18 = 2 * e17;
    lemma_power_mod_square(2nat, e17, n, x17, 0x7b858a49dd1af98bd1e5bf2d899nat, x18);
    let x19 = 0x9e0f7f784e2105b32e92fc751a7nat;
    let e19 = 2 * e18;
    lemma_power_mod_square(2nat, e18, n, x18, 0xc0f4ff47dadffa0b10f1491e42nat, x19);
    let x20 = 0xd006590da696d64a9d09a27a5c8nat;
    let e20 = 2 * e19 + 1;
    lemma_power_mod_square_times(2nat, e19, n, x19, 0xb93b5e14ebe3d09f31555b8b872nat, x20);
    let x21 = 0x1382d4ca229affc02d5f373d2fcnat;
    let e21 = 2 * e20 + 1;
    lemma_power_mod_square_times(2nat, e20, n, x20, 0x140d90a6ead3561c205b3b4d76f4nat, x21);
    let x22 = 0x847088ee9f58124e5badb654a34nat;
    let e22 = 2 * e21;
    lemma_power_mod_square(2nat, e21, n, x21, 0x16946f63b50e7fed99fff4f2ecnat, x22);
    let x23 = 0xeaa767de662469a57283169966anat;
    let e23 = 2 * e22;
    lemma_power_mod_square(2nat, e22, n, x22, 0x41062d32ec6b37909952ea702cenat, x23);
    let x24 = 0x10c5f1b8f657ae5e0882d3f6d84fnat;
    let e24 = 2 * e23;
    lemma_power_mod_square(2nat, e23, n, x23, 0xcc1fcceb1ee9b9dab8d9c8c90a1nat, x24);
    let x25 = 0xb6a46400f5e814589a7db585d85nat;
    let e25 = 2 * e24 + 1;
    lemma_power_mod_square_times(2nat, e24, n, x24, 0x21600246bc60752d01f0b34814a9nat, x25);
    let x26 = 0x101c78cf4e3134055414e4c21899nat;
    let e26 = 2 * e25;
    lemma_power_mod_square(2nat, e25, n, x25, 0x7ba9cf6b73fe9a3c1a21209c480nat, x26);
    let x27 = 0xaae2f1d2c1c3d8f15c44cc521fdnat;
    let e27 = 2 * e26;
    lemma_power_mod_square(2nat, e26, n, x26, 0xf6572376c68ea17c325a5756d24nat, x27);
    let x28 = 0xb137d4e14973a9ea2a6b1e883efnat;
    let e28 = 2 * e27 + 1;
    lemma_power_mod_square_times(2nat, e27, n, x27, 0xd88361b1d47675da15cf12f3937nat, x28);
    let x29 = 0x108952a16f0ad184da7687ae4b48nat;
    let e29 = 2 * e28;
    lemma_power_mod_square(2nat, e28, n, x28, 0x746d66776dd7917d109655a1955nat, x29);
    let x30 = 0xd5bd6966ee138b8d8de0288565fnat;
    let e30 = 2 * e29;
    lemma_power_mod_square(2nat, e29, n, x29, 0x10383b853d8bf7277badc8a6483dnat, x30);
    let x31 = 0xdc04d89bbc1b126525eca140b71nat;
    let e31 = 2 * e30 + 1;
    lemma_power_mod_square_times(2nat, e30, n, x30, 0x152b828d64caad3902bf921d62adnat, x31);
    let x32 = 0xc7ff66255f65d5ae89c04e9d352nat;
    let e32 = 2 * e31 + 1;
    lemma_power_mod_square_times(2nat, e31, n, x31, 0x166e9aeaa4836b35a3469f229cb0nat, x32);
}

proof fn lemma_power_341948486974166000522343609283189_over_3_part_1()
    requires
        power_mod(2nat, 0x167aa9893nat, 0x10dbff26eab8198050172ee03275nat) == 0xc7ff66255f65d5ae89c04e9d352nat,
    ensures
        power_mod(2nat, 0x167aa98938f57755cnat, 0x10dbff26eab8198050172ee03275nat) == 0x3e08a9f65ec7847adca6ed3c2d7nat,
{
    let n = 0x10dbff26eab8198050172ee03275nat;
    let e0 = 0x167aa9893nat;
    let x0 = 0xc7ff66255f65d5ae89c04e9d352nat;
    let x1 = 0x88a55f1d84189ebde0a8de71c49nat;
    let e1 = 2 * e0 + 1;
    lemma_power_mod_square_times(2nat, e0, n, x0, 0x128906d1183763d4061acb4e9963nat, x1);
    let x2 = 0xb16f08f19eb15b1c1d6f709e95cnat;
    let e2 = 2 * e1;
    lemma_power_mod_square(2nat, e1, n, x1, 0x45385c954005bdea26e9a540d01nat, x2);
    let x3 = 0x5eb31c6a7ca5abafd97297d8d18nat;
    let e3 = 2 * e2;
    lemma_power_mod_square(2nat, e2, n, x2, 0x74b5fa81e492cc9d2fc9918ed18nat, x3);
    let x4 = 0x653a7c00db30bf2f020c409950bnat;
    let e4 = 2 * e3;
    lemma_power_mod_square(2nat, e3, n, x3, 0x213ee7094575c13ecaf3c2427c1nat, x4);
    let x5 = 0x1020a89c9eca22095394217cf7d5nat;
    let e5 = 2 * e4 + 1;
    lemma_power_mod_square_times(2nat, e4, n, x4, 0x4bf9c05c1132d76d6aa6f6b8309nat, x5);
    let x6 = 0x7dd8d3008301c2beb6fc103f395nat;
    let e6 = 2 * e5 + 1;
    lemma_power_mod_square_times(2nat, e5, n, x5, 0x1edae7792233e96610b22660c9c9nat, x6);
    let x7 = 0xf011d967e5b6cd121fafe1f06b9nat;
    let e7 = 2 * e6 + 1;
    lemma_power_mod_square_times(2nat, e6, n, x6, 0x756c5f7e9a9c6e3a3e95f181eb5nat, x7);
    let x8 = 0x16b40ee834814586ea15db13ac5nat;
    let e8 = 2 * e7 + 1;
    lemma_power_mod_square_times(2nat, e7, n, x7, 0x1ab4f831d9632c104678960c8889nat, x8);
    let x9 = 0x42d568c9addda40bfba85b624cfnat;
    let e9 = 2 * e8;
    lemma_power_mod_square(2nat, e8, n, x8, 0x1e92b3c5006e81688727ac0e62nat, x9);
    let x10 = 0xd0abd9e301551ffc0aad8f7cf7enat;
    let e10 = 2 * e9 + 1;
    lemma_power_mod_square_times(2nat, e9, n, x9, 0x211e1ba451514cc9e8ef4b001b4nat, x10);
    let x11 = 0xf213eea6c8aabb304742ed494a7nat;
    let e11 = 2 * e10;
    lemma_power_mod_square(2nat, e10, n, x10, 0xa16c2e7ca122f9340a3ea20a249nat, x11);
    let x12 = 0xab309338a640344fc8240b34a2fnat;
    let e12 = 2 * e11 + 1;
    lemma_power_mod_square_times(2nat, e11, n, x11, 0x1b27d3e6ddb3b5cc57ac56a41487nat, x12);
    let x13 = 0xaa531bd2e8b726240088899d071nat;
    let e13 = 2 * e12;
    lemma_power_mod_square(2nat, e12, n, x12, 0x6ca422c8efb96c2d74ca227ed70nat, x13);
    let x14 = 0xff98665304c3f74c2e64a988ddnat;
    let e14 = 2 * e13 + 1;
    lemma_power_mod_square_times(2nat, e13, n, x13, 0xd7178022c47a514eef4587358b1nat, x14);
    let x15 = 0xa1dd3a0ee903698a0cb20c77179nat;
    let e15 = 2 * e14 + 1;
    lemma_power_mod_square_times(2nat, e14, n, x14, 0x1e45dfa9bfbfe96f2ba4875695nat, x15);
    let x16 = 0x890c1abb8174822cb310221d262nat;
    let e16 = 2 * e15 + 1;
    lemma_power_mod_square_times(2nat, e15, n, x15, 0xc241101677d76d173076f58b400nat, x16);
    let x17 = 0x9e93e689ad5d500d7233c2f972fnat;
    let e17 = 2 * e16;
    lemma_power_mod_square(2nat, e16, n, x16, 0x45a098ac9e217ac30c929365861nat, x17);
    let x18 = 0x30263177db7f59543ac95e4d282nat;
    let e18 = 2 * e17 + 1;
    lemma_power_mod_square_times(2nat, e17, n, x17, 0xba7233a49543ad340a50931bfc0nat, x18);
    let x19 = 0x8a03f62d5c6692be8b98242e555nat;
    let e19 = 2 * e18 + 1;
    lemma_power_mod_square_times(2nat, e18, n, x18, 0x113058a5a7b50ac69e4de56e787nat, x19);
    let x20 = 0x340c89c481c3313cc0a5857d7d6nat;
    let e20 = 2 * e19 + 1;
    lemma_power_mod_square_times(2nat, e19, n, x19, 0x8d3aabb469b6c2a5c61bede66acnat, x20);
    let x21 = 0x357244fb6ac54cde35b693248enat;
    let e21 = 2 * e20;
    lemma_power_mod_square(2nat, e20, n, x20, 0xa0b01c4f79e33f3e1d3ea9623enat, x21);
    let x22 = 0x64732b61fa580835cd0f6d41d67nat;
    let e22 = 2 * e21 + 1;
    lemma_power_mod_square_times(2nat, e21, n, x21, 0x152dd238102e8b1c7907b297dnat, x22);
    let x23 = 0x1624375ce6747fa10a5069d2a2dnat;
    let e23 = 2 * e22;
    lemma_power_mod_square(2nat, e22, n, x22, 0x2567dba4004550533b831570fb4nat, x23);
    let x24 = 0xa778560a0ecc209d54ff8046fe0nat;
    let e24 = 2 * e23 + 1;
    lemma_power_mod_square_times(2nat, e23, n, x23, 0x3a282f01713ee6851eec17c5eanat, x24);
    let x25 = 0x93797bfb956d6ac3eb53cb89973nat;
    let e25 = 2 * e24;
    lemma_power_mod_square(2nat, e24, n, x24, 0x67f8a38bca010d7d7936504a4b9nat, x25);
    let x26 = 0x1027096293828e385f14ffa35b20nat;
    let e26 = 2 * e25 + 1;
    lemma_power_mod_square_times(2nat, e25, n, x25, 0xa140504e54a3ab77a2df67acd2anat, x26);
    let x27 = 0xabb068d355505be952a2522d216nat;
    let e27 = 2 * e26;
    lemma_power_mod_square(2nat, e26, n, x26, 0xf79a9f40849bfb496150dbeb902nat, x27);
    let x28 = 0xba8f55aaa329dbc9cde7a5aa4e7nat;
    let e28 = 2 * e27 + 1;
    lemma_power_mod_square_times(2nat, e27, n, x27, 0xda8d4092a13898a3a58d0a0453dnat, x28);
    let x29 = 0x2e4ed79a8078db929447e176b1enat;
    let e29 = 2 * e28 + 1;
    lemma_power_mod_square_times(2nat, e28, n, x28, 0x1020d0bc4e1d304139c88f9f8e34nat, x29);
    let x30 = 0xb0a602d7347eca13c6094f549aenat;
    let e30 = 2 * e29 + 1;
    lemma_power_mod_square_times(2nat, e29, n, x29, 0xfe63e8364f671709d1f82a90b2nat, x30);
    let x31 = 0x2d9091f201b249d8889a18fceb3nat;
    let e31 = 2 * e30;
    lemma_power_mod_square(2nat, e30, n, x30, 0x73ae1bb42d169c3d164cbed512dnat, x31);
    let x32 = 0x3e08a9f65ec7847adca6ed3c2d7nat;
    let e32 = 2 * e31;
    lemma_power_mod_square(2nat, e31, n, x31, 0x7b2517ba0d8bb03091591b46canat, x32);
}

proof fn lemma_power_341948486974166000522343609283189_over_3_part_2()
    requires
        power_mod(2nat, 0x167aa98938f57755cnat, 0x10dbff26eab8198050172ee03275nat) == 0x3e08a9f65ec7847adca6ed3c2d7nat,
    ensures
        power_mod(2nat, 0x167aa98938f57755c01ee92aenat, 0x10dbff26eab8198050172ee03275nat) == 0xc96f34f581fa2c4959b64ce1149nat,
{
    let n = 0x10dbff26eab8198050172ee03275nat;
    let e0 = 0x167aa98938f57755cnat;
    let x0 = 0x3e08a9f65ec7847adca6ed3c2d7nat;
    let x1 = 0xde80562193d6d2cfb7e7d91cdadnat;
    let e1 = 2 * e0;
    lemma_power_mod_square(2nat, e0, n, x0, 0xe440bbe78fec9b70a8f921d2d4nat, x1);
    let x2 = 0x2fdf0fcb003482c541e5287358bnat;
    let e2 = 2 * e1;
    lemma_power_mod_square(2nat, e1, n, x1, 0xb7875a584cac6dfd832c6200426nat, x2);
    let x3 = 0x633b5352124b075e3e06311867anat;
    let e3 = 2 * e2;
    lemma_power_mod_square(2nat, e2, n, x2, 0x87eda6194b89b82ef91fab1923nat, x3);
    let x4 = 0x872b029c710a2331163b315ca28nat;
    let e4 = 2 * e3;
    lemma_power_mod_square(2nat, e3, n, x3, 0x2481042728fb002629ae39a508cnat, x4);
    let x5 = 0x509160f19c6aaa376b458862f29nat;
    let e5 = 2 * e4;
    lemma_power_mod_square(2nat, e4, n, x4, 0x43bb1ae047a6ba775c3c5d6f9dbnat, x5);
    let x6 = 0x1b908c29d1377d8c4e2063e186nat;
    let e6 = 2 * e5;
    lemma_power_mod_square(2nat, e5, n, x5, 0x1810501ecddd7d15f49bdf71f7fnat, x6);
    let x7 = 0xdef6a24eb1ccdd8d3dbb1640114nat;
    let e7 = 2 * e6;
    lemma_power_mod_square(2nat, e6, n, x6, 0x2d1147b64a7b18ec63b64ad0nat, x7);
    let x8 = 0x8cfbf699d3a3c07dfa7ae799cbnat;
    let e8 = 2 * e7 + 1;
    lemma_power_mod_square_times(2nat, e7, n, x7, 0x170956b3fcc88218f4657ccfcf61nat, x8);
    let x9 = 0x8ea8c93a63775fee4d78170527nat;
    let e9 = 2 * e8 + 1;
    lemma_power_mod_square_times(2nat, e8, n, x8, 0x935ecbc8ec5526fd30ad4e63fnat, x9);
    let x10 = 0x20f86b94182ab55c819b683cb4dnat;
    let e10 = 2 * e9 + 1;
    lemma_power_mod_square_times(2nat, e9, n, x9, 0x96e49d939a1421603279b2da1nat, x10);
    let x11 = 0x98fc3b5143d993cd8dfb2fbde1cnat;
    let e11 = 2 * e10 + 1;
    lemma_power_mod_square_times(2nat, e10, n, x10, 0x80f4651ba7b1f9a282154cc89enat, x11);
    let x12 = 0x1f687494e33f2986d20143594ednat;
    let e12 = 2 * e11;
    lemma_power_mod_square(2nat, e11, n, x11, 0x56c38341bd6c9b02b1f0468ab37nat, x12);
    let x13 = 0xbc2e3733ade7406d4465c3cd9cnat;
    let e13 = 2 * e12 + 1;
    lemma_power_mod_square_times(2nat, e12, n, x12, 0x7505d191c9285e0b868f16e19enat, x13);
    let x14 = 0xc60c3be8fc3027be2143d2e65d4nat;
    let e14 = 2 * e13 + 1;
    lemma_power_mod_square_times(2nat, e13, n, x13, 0x1068dc3819d771de6d13f9059cnat, x14);
    let x15 = 0xde8e093a9f7bc99509b7f83e361nat;
    let e15 = 2 * e14 + 1;
    lemma_power_mod_square_times(2nat, e14, n, x14, 0x122cf47d2377cb83e7040fe656e3nat, x15);
    let x16 = 0xa8bb41cea6ee90c479f3c30f357nat;
    let e16 = 2 * e15;
    lemma_power_mod_square(2nat, e15, n, x15, 0xb79df4a7318dfa36328a4ab3882nat, x16);
    let x17 = 0xb09ca91ed58aa10fe505a6f1bd8nat;
    let e17 = 2 * e16 + 1;
    lemma_power_mod_square_times(2nat, e16, n, x16, 0xd316385a006f354c67a761048e2nat, x17);
    let x18 = 0x69eceef19ae922b03985f0e67c9nat;
    let e18 = 2 * e17;
    lemma_power_mod_square(2nat, e17, n, x17, 0x73a1dcec21345ca62dfcc9d97bbnat, x18);
    let x19 = 0x861cf1568cf16844fd903794962nat;
    let e19 = 2 * e18;
    lemma_power_mod_square(2nat, e18, n, x18, 0x29984b728f303543049c7d30cd3nat, x19);
    let x20 = 0xac98cb70c6b4b3739e3388312f8nat;
    let e20 = 2 * e19 + 1;
    lemma_power_mod_square_times(2nat, e19, n, x19, 0x855b037a18e6be027229ec3ddd0nat, x20);
    let x21 = 0x329a3a9200cc1d5ae320fd985e8nat;
    let e21 = 2 * e20;
    lemma_power_mod_square(2nat, e20, n, x20, 0x6e6f391ae7fdb0a7bec2608a5f8nat, x21);
    let x22 = 0xbae75fe16cc6b143b4007dd377nat;
    let e22 = 2 * e21;
    lemma_power_mod_square(2nat, e21, n, x21, 0x97e1695cc57e96f04c5c4c7885nat, x22);
    let x23 = 0x4ded81ead00894f485bf3b98c3fnat;
    let e23 = 2 * e22 + 1;
    lemma_power_mod_square_times(2nat, e22, n, x22, 0x10300d344a19897a902f627a77nat, x23);
    let x24 = 0xdb89bf2e9706aac1e2cc771e42bnat;
    let e24 = 2 * e23;
    lemma_power_mod_square(2nat, e23, n, x23, 0x168331c61d0dc3fe220fa700f3enat, x24);
    let x25 = 0xcacd45b711529a87a020e976c8bnat;
    let e25 = 2 * e24 + 1;
    lemma_power_mod_square_times(2nat, e24, n, x24, 0x1655880799d76873bf7261986f6bnat, x25);
    let x26 = 0x74ca7176668365e6fa89352b435nat;
    let e26 = 2 * e25;
    lemma_power_mod_square(2nat, e25, n, x25, 0x98782a6b0a41757e4286fbd31b4nat, x26);
    let x27 = 0x40b0219666c3fc836ed07465e1cnat;
    let e27 = 2 * e26 + 1;
    lemma_power_mod_square_times(2nat, e26, n, x26, 0x6521a499f5eadb048d1652761benat, x27);
    let x28 = 0xa0016882684cd47cdc6122a0656nat;
    let e28 = 2 * e27;
    lemma_power_mod_square(2nat, e27, n, x27, 0xf833e348ca7119ce31cff5ee92nat, x28);
    let x29 = 0xca5775763db9f37050191fa782enat;
    let e29 = 2 * e28 + 1;
    lemma_power_mod_square_times(2nat, e28, n, x28, 0xbdd18df93f827073f6603ebc3f2nat, x29);
    let x30 = 0xb467301a84a5985778f9f126cd1nat;
    let e30 = 2 * e29 + 1;
    lemma_power_mod_square_times(2nat, e29, n, x29, 0x12f8e7010f1ea0b28695a2255ffbnat, x30);
    let x31 = 0xc3e01f965910b86529131cf1b8dnat;
    let e31 = 2 * e30 + 1;
    lemma_power_mod_square_times(2nat, e30, n, x30, 0xf14cb85cf51e37cf7b4e4fe7241nat, x31);
    let x32 = 0xc96f34f581fa2c4959b64ce1149nat;
    let e32 = 2 * e31;
    lemma_power_mod_square(2nat, e31, n, x31, 0x8e3b8940df551372090933504e0nat, x32);
}

proof fn lemma_power_341948486974166000522343609283189_over_3_part_3()
    requires
        power_mod(2nat, 0x167aa98938f57755c01ee92aenat, 0x10dbff26eab8198050172ee03275nat) == 0xc96f34f581fa2c4959b64ce1149nat,
    ensures
        power_mod(2nat, 0x59eaa624e3d5dd57007ba4abb7cnat, 0x10dbff26eab8198050172ee03275nat) == 0x822a13a6557872b7e697e3951canat,
{
    let n = 0x10dbff26eab8198050172ee03275nat;
    let e0 = 0x167aa98938f57755c01ee92aenat;
    let x0 = 0xc96f34f581fa2c4959b64ce1149nat;
    let x1 = 0xc754bcbe36cf815525b08311752nat;
    let e1 = 2 * e0 + 1;
    lemma_power_mod_square_times(2nat, e0, n, x0, 0x12cd724aa89133abdf66c75c3310nat, x1);
    let x2 = 0x2c97dff37ed8c462d58590f31a0nat;
    let e2 = 2 * e1 + 1;
    lemma_power_mod_square_times(2nat, e1, n, x1, 0x126972460f6d2c57f2656703e248nat, x2);
    let x3 = 0x108029a8011b0a305e846c2617c8nat;
    let e3 = 2 * e2;
    lemma_power_mod_square(2nat, e2, n, x2, 0x75f32832293f8aab444e7be458nat, x3);
    let x4 = 0xfab8f8be7e7e5de7c82f0b293a8nat;
    let e4 = 2 * e3 + 1;
    lemma_power_mod_square_times(2nat, e3, n, x3, 0x204c90c57b76d50868809ee5a678nat, x4);
    let x5 = 0xa42ee9f915a7abc82adb1dc4ca8nat;
    let e5 = 2 * e4 + 1;
    lemma_power_mod_square_times(2nat, e4, n, x4, 0x1d213283f4e6f815e92f2d828578nat, x5);
    let x6 = 0xa12337ebb31d99d174f6c4db685nat;
    let e6 = 2 * e5 + 1;
    lemma_power_mod_square_times(2nat, e5, n, x5, 0xc7dc3ef60bf87438badb3a288afnat, x6);
    let x7 = 0xde2880df1b46485942631f8ce75nat;
    let e7 = 2 * e6 + 1;
    lemma_power_mod_square_times(2nat, e6, n, x6, 0xc0839afe6aa44b60e6569c48329nat, x7);
    let x8 = 0x93b1ec218e518d26b2db6ec79fanat;
    let e8 = 2 * e7 + 1;
    lemma_power_mod_square_times(2nat, e7, n, x7, 0x16ded229fa767f39d75872fad618nat, x8);
    let x9 = 0x822a13a6557872b7e697e3951cbnat;
    let e9 = 2 * e8;
    lemma_power_mod_square(2nat, e8, n, x8, 0x50dde9d11bababd40257af9afd5nat, x9);
    let x10 = 0x822a13a6557872b7e697e3951canat;
    let e10 = 2 * e9;
    lemma_power_mod_square(2nat, e9, n, x9, 0x3ecf25ea3b32dc0f00b70391c93nat, x10);
}

proof fn lemma_power_341948486974166000522343609283189_over_3()
    ensures
        power_mod(2nat, 0x59eaa624e3d5dd57007ba4abb7cnat, 0x10dbff26eab8198050172ee03275nat) == 0x822a13a6557872b7e697e3951canat,
{
    lemma_power_mod_first(2nat, 0x10dbff26eab8198050172ee03275nat);
    lemma_power_341948486974166000522343609283189_over_3_part_0();
    lemma_power_341948486974166000522343609283189_over_3_part_1();
    lemma_power_341948486974166000522343609283189_over_3_part_2();
    lemma_power_341948486974166000522343609283189_over_3_part_3();
}

proof fn lemma_power_341948486974166000522343609283189_over_109_part_0()
    requires
        power_mod(2nat, 1nat, 0x10dbff26eab8198050172ee03275nat) == 2nat,
    ensures
        power_mod(2nat, 0x13cc538dfnat, 0x10dbff26eab8198050172ee03275nat) == 0x5d23a6528f6cba39fe05a3c4099nat,
{
    let n = 0x10dbff26eab8198050172ee03275nat;
    let e0 = 1nat;
    let x0 = 2nat;
    let x1 = 4nat;
    let e1 = 2 * e0;
    lemma_power_mod_square(2nat, e0, n, x0, 0nat, x1);
    let x2 = 16nat;
    let e2 = 2 * e1;
    lemma_power_mod_square(2nat, e1, n, x1, 0nat, x2);
    let x3 = 512nat;
    let e3 = 2 * e2 + 1;
    lemma_power_mod_square_times(2nat, e2, n, x2, 0nat, x3);
    let x4 = 524288nat;
    let e4 = 2 * e3 + 1;
    lemma_power_mod_square_times(2nat, e3, n, x3, 0nat, x4);
    let x5 = 0x8000000000nat;
    let e5 = 2 * e4 + 1;
    lemma_power_mod_square_times(2nat, e4, n, x4, 0nat, x5);
    let x6 = 0x80000000000000000000nat;
    let e6 = 2 * e5 + 1;
    lemma_power_mod_square_times(2nat, e5, n, x5, 0nat, x6);
    let x7 = 0x1091fb0cb5b3124f28ba1c4680a6nat;
    let e7 = 2 * e6;
    lemma_power_mod_square(2nat, e6, n, x6, 0x3cbcde47b82b2nat, x7);
    let x8 = 0x8476f242e56964e4e1a19436ec1nat;
    let e8 = 2 * e7;
    lemma_power_mod_square(2nat, e7, n, x7, 0x10493be4859aca5efacb706b56f7nat, x8);
    let x9 = 0x49cdb6895835f7243d83e629deenat;
    let e9 = 2 * e8 + 1;
    lemma_power_mod_square_times(2nat, e8, n, x8, 0x8218f216d478a9fc35e38c6be44nat, x9);
    let x10 = 0xc83a4f39e8b10359d99ed9f4de9nat;
    let e10 = 2 * e9 + 1;
    lemma_power_mod_square_times(2nat, e9, n, x9, 0x2862a49cdf6ac7e78c71c00d043nat, x10);
    let x11 = 0x8ea7c64aee53b7600bae88cee2nat;
    let e11 = 2 * e10;
    lemma_power_mod_square(2nat, e10, n, x10, 0x949f9e33ae3a2e2397f22929e93nat, x11);
    let x12 = 0x77cefb514a63fd4ae200404a841nat;
    let e12 = 2 * e11;
    lemma_power_mod_square(2nat, e11, n, x11, 0x4b713ce97999935d776cebbd7nat, x12);
    let x13 = 0x2fc39e3835cc0b0179669bfc97nat;
    let e13 = 2 * e12;
    lemma_power_mod_square(2nat, e12, n, x12, 0x35366b8a4bf998ffd5ee68f2302nat, x13);
    let x14 = 0xb5f057e7e63a7e50a4d34503ea6nat;
    let e14 = 2 * e13 + 1;
    lemma_power_mod_square_times(2nat, e13, n, x13, 0x10ea3f274204d7301c1814e0cnat, x14);
    let x15 = 0xb153bbea636d03f9b0cbd8e4c85nat;
    let e15 = 2 * e14;
    lemma_power_mod_square(2nat, e14, n, x14, 0x7ab677883964c1668ea870cb8c3nat, x15);
    let x16 = 0x7727c6f03b8b831e1172914af39nat;
    let e16 = 2 * e15 + 1;
    lemma_power_mod_square_times(2nat, e15, n, x15, 0xe92425ce5da351f7c87b7c95df5nat, x16);
    let x17 = 0x1f5bff69b013f349bc28ff64812nat;
    let e17 = 2 * e16;
    lemma_power_mod_square(2nat, e16, n, x16, 0x34a24c524336cadd56a72d9c643nat, x17);
    let x18 = 0x57f0eae18b6f62913aed59ea117nat;
    let e18 = 2 * e17;
    lemma_power_mod_square(2nat, e17, n, x17, 0x3a548782e9b1620ac7a2f86fd9nat, x18);
    let x19 = 0x911990fa2aa9655489f340618afnat;
    let e19 = 2 * e18 + 1;
    lemma_power_mod_square_times(2nat, e18, n, x18, 0x3956dd62fbb1ecf8eecaf958547nat, x19);
    let x20 = 0x6bd1e0376b4e76fe33fca95fd54nat;
    let e20 = 2 * e19 + 1;
    lemma_power_mod_square_times(2nat, e19, n, x19, 0x9c1999d4cb7cb452f9f5cfe1076nat, x20);
    let x21 = 0x8e8780d1b23401763343731736dnat;
    let e21 = 2 * e20 + 1;
    lemma_power_mod_square_times(2nat, e20, n, x20, 0x56311c48e7692a3b99032425887nat, x21);
    let x22 = 0x109b520e1b16e9f6cc80d93db4c0nat;
    let e22 = 2 * e21;
    lemma_power_mod_square(2nat, e21, n, x21, 0x4b4f1eb91414d663411870e91e5nat, x22);
    let x23 = 0x10764cf3eef1d09597ce1b8f950fnat;
    let e23 = 2 * e22;
    lemma_power_mod_square(2nat, e22, n, x22, 0x105b9d11e66ee08adfdc01475f0dnat, x23);
    let x24 = 0xdee635a3c17f236edf69429a70bnat;
    let e24 = 2 * e23;
    lemma_power_mod_square(2nat, e23, n, x23, 0x1013002fe2aafb72ca02e8f249benat, x24);
    let x25 = 0xa4d2c443a533c2add4a55d9a484nat;
    let e25 = 2 * e24 + 1;
    lemma_power_mod_square_times(2nat, e24, n, x24, 0x1705f1fab61bcae11e8dbec3c4f6nat, x25);
    let x26 = 0x79f536cb3799a1a4af8723bc0cfnat;
    let e26 = 2 * e25 + 1;
    lemma_power_mod_square_times(2nat, e25, n, x25, 0xc96bf07ca43c3182fefe63aedednat, x26);
    let x27 = 0x6500ddb3fcf44eb36b6eebe6b28nat;
    let e27 = 2 * e26;
    lemma_power_mod_square(2nat, e26, n, x26, 0x3723927bfa58e72093e2199e235nat, x27);
    let x28 = 0x7ae453bdb1ea42db7adc0fe605anat;
    let e28 = 2 * e27 + 1;
    lemma_power_mod_square_times(2nat, e27, n, x27, 0x4ba35bb6b703c7cbd6a0153eacenat, x28);
    let x29 = 0x65a8901842d16f99de9aabcd021nat;
    let e29 = 2 * e28 + 1;
    lemma_power_mod_square_times(2nat, e28, n, x28, 0x6ff939fdfa94cf7965cacf86fabnat, x29);
    let x30 = 0x4c81bc826cd6b3f140a407b61e2nat;
    let e30 = 2 * e29 + 1;
    lemma_power_mod_square_times(2nat, e29, n, x29, 0x4c9f568acdbae9c81894a903820nat, x30);
    let x31 = 0xcd462fe8e223697d7ca25708a85nat;
    let e31 = 2 * e30 + 1;
    lemma_power_mod_square_times(2nat, e30, n, x30, 0x2b65dd0794c2f0c1de543c07417nat, x31);
    let x32 = 0x5d23a6528f6cba39fe05a3c4099nat;
    let e32 = 2 * e31 + 1;
    lemma_power_mod_square_times(2nat, e31, n, x31, 0x1386b4585523c513da9423117615nat, x32);
}

proof fn lemma_power_341948486974166000522343609283189_over_109_part_1()
    requires
        power_mod(2nat, 0x13cc538dfnat, 0x10dbff26eab8198050172ee03275nat) == 0x5d23a6528f6cba39fe05a3c4099nat,
    ensures
        power_mod(2nat, 0x13cc538dfe7ef1529nat, 0x10dbff26eab8198050172ee03275nat) == 0x822b324f36343d898035d2d3330nat,
{
    let n = 0x10dbff26eab8198050172ee03275nat;
    let e0 = 0x13cc538dfnat;
    let x0 = 0x5d23a6528f6cba39fe05a3c4099nat;
    let x1 = 0x5f3b594f1eeaebbdcd74ab71ffenat;
    let e1 = 2 * e0 + 1;
    lemma_power_mod_square_times(2nat, e0, n, x0, 0x40517aaf7f358c62caf162fd6d4nat, x1);
    let x2 = 0x37f4ff8a39de206d7c21600be11nat;
    let e2 = 2 * e1 + 1;
    lemma_power_mod_square_times(2nat, e1, n, x1, 0x433da7e1f02384eb9b20829fd3bnat, x2);
    let x3 = 0x4ef712dd54e964d04f3ade79213nat;
    let e3 = 2 * e2 + 1;
    lemma_power_mod_square_times(2nat, e2, n, x2, 0x17372b33f7712f0af8309125393nat, x3);
    let x4 = 0xb9eb407f02e87dbe1f864e1016anat;
    let e4 = 2 * e3;
    lemma_power_mod_square(2nat, e3, n, x3, 0x171da76fa9caf3554deba07ee23nat, x4);
    let x5 = 0x7ac6239a7d59a5e228c00a3a008nat;
    let e5 = 2 * e4;
    lemma_power_mod_square(2nat, e4, n, x4, 0x8023f3d8b9b3e476ef8fc80ececnat, x5);
    let x6 = 0x2f14b06fbee6caa1598dcbe8589nat;
    let e6 = 2 * e5 + 1;
    lemma_power_mod_square_times(2nat, e5, n, x5, 0x6fc23db0bf8ddfe0e755393323bnat, x6);
    let x7 = 0xa6c1573001add641c54890993afnat;
    let e7 = 2 * e6 + 1;
    lemma_power_mod_square_times(2nat, e6, n, x6, 0x106f3c4c0b3463f1f49c2b952c7nat, x7);
    let x8 = 0x6e87e0a7fa993b9ffd3fcfafe35nat;
    let e8 = 2 * e7 + 1;
    lemma_power_mod_square_times(2nat, e7, n, x7, 0xce2bcec01f325d477bd3e18e539nat, x8);
    let x9 = 0x58f88c8ad99be45a3a812e72273nat;
    let e9 = 2 * e8 + 1;
    lemma_power_mod_square_times(2nat, e8, n, x8, 0x5a94a364765f4a78c91abc31fa3nat, x9);
    let x10 = 0x323ee254a608d16eb341583cc94nat;
    let e10 = 2 * e9 + 1;
    lemma_power_mod_square_times(2nat, e9, n, x9, 0x3ab0a9dccd96730e59c99e9f406nat, x10);
    let x11 = 0x1070b549403308765c88d4cabfe3nat;
    let e11 = 2 * e10 + 1;
    lemma_power_mod_square_times(2nat, e10, n, x10, 0x12b7e0675d5fe5e0e6622276ca9nat, x11);
    let x12 = 0xef1540f13cd1add07a360c4c9f4nat;
    let e12 = 2 * e11;
    lemma_power_mod_square(2nat, e11, n, x11, 0x1008162d1e8eb8b5291e2ddccf61nat, x12);
    let x13 = 0x39ae3fa83ac5d3fc9c0dc60334dnat;
    let e13 = 2 * e12 + 1;
    lemma_power_mod_square_times(2nat, e12, n, x12, 0x1a7ce25f848e1e0ec119b30d8627nat, x13);
    let x14 = 0xf77e10f10fbc0dc55e7e2af2ccenat;
    let e14 = 2 * e13 + 1;
    lemma_power_mod_square_times(2nat, e13, n, x13, 0x18aaf0c70418dcd556465ba6ef4nat, x14);
    let x15 = 0x9d407b4518f5fc4d6466ab1bbb5nat;
    let e15 = 2 * e14 + 1;
    lemma_power_mod_square_times(2nat, e14, n, x14, 0x1c624a5b6d0e6cdc740c7cf78027nat, x15);
    let x16 = 0xd8bada5ebb4ef1feef2a0936096nat;
    let e16 = 2 * e15 + 1;
    lemma_power_mod_square_times(2nat, e15, n, x15, 0xb75766d2edffff05d27bdc82a6cnat, x16);
    let x17 = 0xc119c43be9b41310a3e0d17760bnat;
    let e17 = 2 * e16;
    lemma_power_mod_square(2nat, e16, n, x16, 0xae21946416d052837358433fd55nat, x17);
    let x18 = 0xee6ffb02d85a7c6091f0ea5ee2cnat;
    let e18 = 2 * e17;
    lemma_power_mod_square(2nat, e17, n, x17, 0x8a3b35abc1bbebe5e9044eb4979nat, x18);
    let x19 = 0x3d16052adf7fb7d469d05c496canat;
    let e19 = 2 * e18;
    lemma_power_mod_square(2nat, e18, n, x18, 0xd2c28079e6f780275ad0135f8eenat, x19);
    let x20 = 0x75606bd63d877c4c8eb55a56bafnat;
    let e20 = 2 * e19 + 1;
    lemma_power_mod_square_times(2nat, e19, n, x19, 0x1baa987d47dc414710e84a9b195nat, x20);
    let x21 = 0xf1d0f015c14aceb60ae67c77376nat;
    let e21 = 2 * e20;
    lemma_power_mod_square(2nat, e20, n, x20, 0x3313041f2b97c1a24ce3f592a1fnat, x21);
    let x22 = 0x21b8ba7a3c7af01ba525d152f0nat;
    let e22 = 2 * e21 + 1;
    lemma_power_mod_square_times(2nat, e21, n, x21, 0x1b18ce2ea289fa39d1c4df1a2f78nat, x22);
    let x23 = 0x55e0eb96c62a8c53b00f7d35b4nat;
    let e23 = 2 * e22;
    lemma_power_mod_square(2nat, e22, n, x22, 0x4372ed557b50fcf7eb2a7c9cnat, x23);
    let x24 = 0x1c2cba86592aa380570070b5a6anat;
    let e24 = 2 * e23 + 1;
    lemma_power_mod_square_times(2nat, e23, n, x23, 0x36ae68e23fbf05d290e50851enat, x24);
    let x25 = 0xef6e05cf93c936f0fcb6f3af556nat;
    let e25 = 2 * e24;
    lemma_power_mod_square(2nat, e24, n, x24, 0x2f15a2dfe6e1fd620383e7b696nat, x25);
    let x26 = 0xf87ee645b30dcaa77ab47f24022nat;
    let e26 = 2 * e25;
    lemma_power_mod_square(2nat, e25, n, x25, 0xd4848aef9667b14d997e526197anat, x26);
    let x27 = 0x3e123f36a91f17ae4c6e2c4feb7nat;
    let e27 = 2 * e26 + 1;
    lemma_power_mod_square_times(2nat, e26, n, x26, 0x1c9d51fe9f7b4972c7bcbdb284ednat, x27);
    let x28 = 0xcc5f9c7cf02e3101bda2bf26b66nat;
    let e28 = 2 * e27;
    lemma_power_mod_square(2nat, e27, n, x27, 0xe48746c647b6faaa2826443a5fnat, x28);
    let x29 = 0x108ef60184704dc2c271015c4cefnat;
    let e29 = 2 * e28 + 1;
    lemma_power_mod_square_times(2nat, e28, n, x28, 0x135aef4fa82950f63b749be82dd5nat, x29);
    let x30 = 0x49c52a4111662a119b42c6f111dnat;
    let e30 = 2 * e29;
    lemma_power_mod_square(2nat, e29, n, x29, 0x10434cdc3c6389a9796cc9a05574nat, x30);
    let x31 = 0xb50d4733ab71ee2f7fa94f0fd94nat;
    let e31 = 2 * e30;
    lemma_power_mod_square(2nat, e30, n, x30, 0x142ca526179af8bf9fb13f6d041nat, x31);
    let x32 = 0x822b324f36343d898035d2d3330nat;
    let e32 = 2 * e31 + 1;
    lemma_power_mod_square_times(2nat, e31, n, x31, 0xf309d476d5926dd68f000ea8a30nat, x32);
}

proof fn lemma_power_341948486974166000522343609283189_over_109_part_2()
    requires
        power_mod(2nat, 0x13cc538dfe7ef1529nat, 0x10dbff26eab8198050172ee03275nat) == 0x822b324f36343d898035d2d3330nat,
    ensures
        power_mod(2nat, 0x13cc538dfe7ef15291b894fdenat, 0x10dbff26eab8198050172ee03275nat) == 0x7beafd209316602e0cf9dc33bb0nat,
{
    let n = 0x10dbff26eab8198050172ee03275nat;
    let e0 = 0x13cc538dfe7ef1529nat;
    let x0 = 0x822b324f36343d898035d2d3330nat;
    let x1 = 0x1cfd7d5ede2ea2c71febcfb0e0dnat;
    let e1 = 2 * e0;
    lemma_power_mod_square(2nat, e0, n, x0, 0x3ed03a915117335dea170921ac7nat, x1);
    let x2 = 0xa586a8897dbc050fb8d305580e4nat;
    let e2 = 2 * e1;
    lemma_power_mod_square(2nat, e1, n, x1, 0x31d97b23e2a933ad56548a0a11nat, x2);
    let x3 = 0x288e4adff0a21fed2aae244fe55nat;
    let e3 = 2 * e2;
    lemma_power_mod_square(2nat, e2, n, x2, 0x65924632f53d34452a48634bc6fnat, x3);
    let x4 = 0xb95e9e5d09e739006c56a4b165anat;
    let e4 = 2 * e3 + 1;
    lemma_power_mod_square_times(2nat, e3, n, x3, 0xc31dfd9c55a53ffc856dfe9eb8nat, x4);
    let x5 = 0x3d65f324c8b992846d91a92309nat;
    let e5 = 2 * e4 + 1;
    lemma_power_mod_square_times(2nat, e4, n, x4, 0xfec4c3b401984bf3cd720a54563nat, x5);
    let x6 = 0xa0397fce8df217a8f88ba5b923fnat;
    let e6 = 2 * e5;
    lemma_power_mod_square(2nat, e5, n, x5, 0xdf9975606700a47e5cf3cd8anat, x6);
    let x7 = 0x2442384bcb610d1943f242713dnat;
    let e7 = 2 * e6 + 1;
    lemma_power_mod_square_times(2nat, e6, n, x6, 0xbe56bae55a47722fda65d545c11nat, x7);
    let x8 = 0x7e4ebad1f3d6bc7d750c94a8ebfnat;
    let e8 = 2 * e7 + 1;
    lemma_power_mod_square_times(2nat, e7, n, x7, 0x9bf5b49d2816d4545ae5f8a7nat, x8);
    let x9 = 0xe827bf568233586a11dfa78ecd9nat;
    let e9 = 2 * e8 + 1;
    lemma_power_mod_square_times(2nat, e8, n, x8, 0x7648cd75dcb6522d4b5a009d065nat, x9);
    let x10 = 0x4e1ce9800f6572264e2b5b1d239nat;
    let e10 = 2 * e9;
    lemma_power_mod_square(2nat, e9, n, x9, 0xc7ccdacedef77524934cbaf5fd8nat, x10);
    let x11 = 0x7221e7d0985105dadd405244b11nat;
    let e11 = 2 * e10;
    lemma_power_mod_square(2nat, e10, n, x10, 0x169e9dc7622b6bbec3755083b20nat, x11);
    let x12 = 0xee714ae4d57f3370bd8d0d7e862nat;
    let e12 = 2 * e11;
    lemma_power_mod_square(2nat, e11, n, x11, 0x304a3cbf4663ff01fdbccb0ede3nat, x12);
    let x13 = 0x12edb3fab0b1f40216567c3dadnat;
    let e13 = 2 * e12 + 1;
    lemma_power_mod_square_times(2nat, e12, n, x12, 0x1a589a48a404aaf71098ae16e68fnat, x13);
    let x14 = 0x7d3d5564e2c92d4001ed0caa65enat;
    let e14 = 2 * e13;
    lemma_power_mod_square(2nat, e13, n, x13, 0x15406bb7192a6f7718ff46ffnat, x14);
    let x15 = 0x1061077b63a3167d298ca2309d81nat;
    let e15 = 2 * e14;
    lemma_power_mod_square(2nat, e14, n, x14, 0x3a25742dc7dad0f328dc33fc297nat, x15);
    let x16 = 0xef8e67ed9c3cb220589ee5db6ccnat;
    let e16 = 2 * e15 + 1;
    lemma_power_mod_square_times(2nat, e15, n, x15, 0x1fd32167805fee36ca0b9d404f9enat, x16);
    let x17 = 0xff0e0be937fb1132a937f58b8e4nat;
    let e17 = 2 * e16;
    lemma_power_mod_square(2nat, e16, n, x16, 0xd4be0b6e5e626af43a7ade4457cnat, x17);
    let x18 = 0xd5ffa6ec6449356ee04bcd554dbnat;
    let e18 = 2 * e17 + 1;
    lemma_power_mod_square_times(2nat, e17, n, x17, 0x1e25228dde7c6eee05f08cd2d991nat, x18);
    let x19 = 0x100edb84560b0c09d2b52078e3b2nat;
    let e19 = 2 * e18;
    lemma_power_mod_square(2nat, e18, n, x18, 0xa9c51db9fc89712c4263749fe2bnat, x19);
    let x20 = 0xa2e8b8efb1f604d8b53e6ef00d4nat;
    let e20 = 2 * e19;
    lemma_power_mod_square(2nat, e19, n, x19, 0xf4b77f2d0962a73c4aa2d51cd30nat, x20);
    let x21 = 0x9c148754e0a11e23ecb70989caanat;
    let e21 = 2 * e20 + 1;
    lemma_power_mod_square_times(2nat, e20, n, x20, 0xc4c52e6d80df701625400e6dddenat, x21);
    let x22 = 0x38f939bd0e8b59eee7605706dbfnat;
    let e22 = 2 * e21 + 1;
    lemma_power_mod_square_times(2nat, e21, n, x21, 0xb49e925fb0493a9e1d24c6800c5nat, x22);
    let x23 = 0x63e477da649ba73774383287d35nat;
    let e23 = 2 * e22 + 1;
    lemma_power_mod_square_times(2nat, e22, n, x22, 0x18110e86f227e80105d709878f9nat, x23);
    let x24 = 0x830ec3b2621232eb842a151c6fnat;
    let e24 = 2 * e23 + 1;
    lemma_power_mod_square_times(2nat, e23, n, x23, 0x49fbbf92e2ed90dfcd671c78117nat, x24);
    let x25 = 0x72e7f1e689929d21ac794cb9259nat;
    let e25 = 2 * e24 + 1;
    lemma_power_mod_square_times(2nat, e24, n, x24, 0x7f5936599e0a9b0ad84a96725nat, x25);
    let x26 = 0x7f5f610de4ce2603def25bfa23cnat;
    let e26 = 2 * e25 + 1;
    lemma_power_mod_square_times(2nat, e25, n, x25, 0x61e4c6b395fa524fd2e68feb44enat, x26);
    let x27 = 0x27bd1434fdfc133dd88c45d5d53nat;
    let e27 = 2 * e26;
    lemma_power_mod_square(2nat, e26, n, x26, 0x3c24cee803292cb9005f51edc29nat, x27);
    let x28 = 0x75a598376bdeba010605a6b7728nat;
    let e28 = 2 * e27 + 1;
    lemma_power_mod_square_times(2nat, e27, n, x27, 0xbb553073249865a2675700e6c2nat, x28);
    let x29 = 0xd08d95c2aaa38423b9a4e82bbefnat;
    let e29 = 2 * e28 + 1;
    lemma_power_mod_square_times(2nat, e28, n, x28, 0x669e919e80c2c3474798ebf4a2dnat, x29);
    let x30 = 0x4d219d16f6ada20bee08a8492d9nat;
    let e30 = 2 * e29 + 1;
    lemma_power_mod_square_times(2nat, e29, n, x29, 0x1427abcc8cf16e1faa8f2969d2a5nat, x30);
    let x31 = 0x5581ad550c774b7bfa4ccd4094dnat;
    let e31 = 2 * e30 + 1;
    lemma_power_mod_square_times(2nat, e30, n, x30, 0x2c1bfb68f475ceec6f9621587a1nat, x31);
    let x32 = 0x7beafd209316602e0cf9dc33bb0nat;
    let e32 = 2 * e31;
    lemma_power_mod_square(2nat, e31, n, x31, 0x1b1ab135baa3c9955790c809e75nat, x32);
}

proof fn lemma_power_341948486974166000522343609283189_over_109_part_3()
    requires
        power_mod(2nat, 0x13cc538dfe7ef15291b894fdenat, 0x10dbff26eab8198050172ee03275nat) == 0x7beafd209316602e0cf9dc33bb0nat,
    ensures
        power_mod(2nat, 0x2798a71bfcfde2a5237129fbc4nat, 0x10dbff26eab8198050172ee03275nat) == 0x792f0e9a3f50b20f98fd450ff51nat,
{
    let n = 0x10dbff26eab8198050172ee03275nat;
    let e0 = 0x13cc538dfe7ef15291b894fdenat;
    let x0 = 0x7beafd209316602e0cf9dc33bb0nat;
    let x1 = 0x8228390198fdc4f11025832b1f3nat;
    let e1 = 2 * e0;
    lemma_power_mod_square(2nat, e0, n, x0, 0x38ecf0107d9d4406e2a237e9f39nat, x1);
    let x2 = 0xbffc2157f8328e3e480b0162b96nat;
    let e2 = 2 * e1;
    lemma_power_mod_square(2nat, e1, n, x1, 0x3ecd5bdc79bedfbb0ae60ef2467nat, x2);
    let x3 = 0x72d2b40758b3de7c424611b7e4enat;
    let e3 = 2 * e2 + 1;
    lemma_power_mod_square_times(2nat, e2, n, x2, 0x11146e3e4186439fd4f32d729052nat, x3);
    let x4 = 0xddf13701f4255c8a9e14f5d639nat;
    let e4 = 2 * e3;
    lemma_power_mod_square(2nat, e3, n, x3, 0x30e04c410a65567117d4b52cbffnat, x4);
    let x5 = 0x792f0e9a3f50b20f98fd450ff51nat;
    let e5 = 2 * e4;
    lemma_power_mod_square(2nat, e4, n, x4, 0xb69b8b356ec5ad48422a307e0nat, x5);
}

proof fn lemma_power_341948486974166000522343609283189_over_109()
    ensures
        power_mod(2nat, 0x2798a71bfcfde2a5237129fbc4nat, 0x10dbff26eab8198050172ee03275nat) == 0x792f0e9a3f50b20f98fd450ff51nat,
{
    lemma_power_mod_first(2nat, 0x10dbff26eab8198050172ee03275nat);
    lemma_power_341948486974166000522343609283189_over_109_part_0();
    lemma_power_341948486974166000522343609283189_over_109_part_1();
    lemma_power_341948486974166000522343609283189_over_109_part_2();
    lemma_power_341948486974166000522343609283189_over_109_part_3();
}

proof fn lemma_power_341948486974166000522343609283189_over_29047611873442575647497758179_part_0()
    requires
        power_mod(2nat, 1nat, 0x10dbff26eab8198050172ee03275nat) == 2nat,
    ensures
        power_mod(2nat, 11772nat, 0x10dbff26eab8198050172ee03275nat) == 0xe62d151a1de8c23e34c03a81887nat,
{
    let n = 0x10dbff26eab8198050172ee03275nat;
    let e0 = 1nat;
    let x0 = 2nat;
    let x1 = 4nat;
    let e1 = 2 * e0;
    lemma_power_mod_square(2nat, e0, n, x0, 0nat, x1);
    let x2 = 32nat;
    let e2 = 2 * e1 + 1;
    lemma_power_mod_square_times(2nat, e1, n, x1, 0nat, x2);
    let x3 = 2048nat;
    let e3 = 2 * e2 + 1;
    lemma_power_mod_square_times(2nat, e2, n, x2, 0nat, x3);
    let x4 = 0x400000nat;
    let e4 = 2 * e3;
    lemma_power_mod_square(2nat, e3, n, x3, 0nat, x4);
    let x5 = 0x200000000000nat;
    let e5 = 2 * e4 + 1;
    lemma_power_mod_square_times(2nat, e4, n, x4, 0nat, x5);
    let x6 = 0x80000000000000000000000nat;
    let e6 = 2 * e5 + 1;
    lemma_power_mod_square_times(2nat, e5, n, x5, 0nat, x6);
    let x7 = 0x4dfe1b5d0128a952b420ae890ddnat;
    let e7 = 2 * e6 + 1;
    lemma_power_mod_square_times(2nat, e6, n, x6, 0x7979bc8f70565f73837nat, x7);
    let x8 = 0xf78e031668294430a40df4c4ec2nat;
    let e8 = 2 * e7 + 1;
    lemma_power_mod_square_times(2nat, e7, n, x7, 0x2d19941087f2219c4d508f63990nat, x8);
    let x9 = 0x271e429eb34f2c4ddea6a4b7e3bnat;
    let e9 = 2 * e8 + 1;
    lemma_power_mod_square_times(2nat, e8, n, x8, 0x1c65f2ce4d0bb06476f293ac74f9nat, x9);
    let x10 = 0xfa6d58f2d9704882a8753d43ab5nat;
    let e10 = 2 * e9 + 1;
    lemma_power_mod_square_times(2nat, e9, n, x9, 0xb5877e93a63492bcb2c88a2ce9nat, x10);
    let x11 = 0x44eb0698f6ed0a2f4873ffa5374nat;
    let e11 = 2 * e10 + 1;
    lemma_power_mod_square_times(2nat, e10, n, x10, 0x1d0fa29c4b739a1369122bbb36c6nat, x11);
    let x12 = 0x45559f74d148cef0ad6e2c11995nat;
    let e12 = 2 * e11;
    lemma_power_mod_square(2nat, e11, n, x11, 0x119b98c0e95950799b71cc8e1afnat, x12);
    let x13 = 0xe62d151a1de8c23e34c03a81887nat;
    let e13 = 2 * e12;
    lemma_power_mod_square(2nat, e12, n, x12, 0x11d23ae07c0011b46d66413ad2anat, x13);
}

proof fn lemma_power_341948486974166000522343609283189_over_29047611873442575647497758179()
    ensures
        power_mod(2nat, 11772nat, 0x10dbff26eab8198050172ee03275nat) == 0xe62d151a1de8c23e34c03a81887nat,
{
    lemma_power_mod_first(2nat, 0x10dbff26eab8198050172ee03275nat);
    lemma_power_341948486974166000522343609283189_over_29047611873442575647497758179_part_0();
}

proof fn lemma_certificate_341948486974166000522343609283189()
    ensures
        is_certificate(0x10dbff26eab8198050172ee03275nat, 2nat, seq![2nat, 2nat, 3nat, 3nat, 3nat, 109nat, 0x5ddb9f12ef6348a3e23ba5e3nat]),
{
    let n = 0x10dbff26eab8198050172ee03275nat;
    let factors = seq![2nat, 2nat, 3nat, 3nat, 3nat, 109nat, 0x5ddb9f12ef6348a3e23ba5e3nat];
    lemma_small_primes();
    lemma_small_primes();
    lemma_prime_109();
    lemma_prime_29047611873442575647497758179();
    lemma_power_341948486974166000522343609283189_over_2();
    lemma_fundamental_div_mod_converse(0x10dbff26eab8198050172ee03274int, 2int, 0x86dff93755c0cc0280b9770193aint, 0);
    lemma_power_341948486974166000522343609283189_over_3();
    lemma_fundamental_div_mod_converse(0x10dbff26eab8198050172ee03274int, 3int, 0x59eaa624e3d5dd57007ba4abb7cint, 0);
    lemma_power_341948486974166000522343609283189_over_109();
    lemma_fundamental_div_mod_converse(0x10dbff26eab8198050172ee03274int, 109int, 0x2798a71bfcfde2a5237129fbc4int, 0);
    lemma_power_341948486974166000522343609283189_over_29047611873442575647497758179();
    lemma_fundamental_div_mod_converse(0x10dbff26eab8198050172ee03274int, 0x5ddb9f12ef6348a3e23ba5e3int, 11772int, 0);
    lemma_power_mod_square(2nat, 0x86dff93755c0cc0280b9770193anat, n, 0x10dbff26eab8198050172ee03274nat, 0x10dbff26eab8198050172ee03273nat, 1);
    let f0 = Seq::<nat>::empty();
    lemma_product_push(f0, 2nat, 1nat);
    let f1 = f0.push(2nat);
    lemma_product_push(f1, 2nat, 2nat);
    let f2 = f1.push(2nat);
    lemma_product_push(f2, 3nat, 4nat);
    let f3 = f2.push(3nat);
    lemma_product_push(f3, 3nat, 12nat);
    let f4 = f3.push(3nat);
    lemma_product_push(f4, 3nat, 36nat);
    let f5 = f4.push(3nat);
    lemma_product_push(f5, 109nat, 108nat);
    let f6 = f5.push(109nat);
    lemma_product_push(f6, 0x5ddb9f12ef6348a3e23ba5e3nat, 11772nat);
    let f7 = f6.push(0x5ddb9f12ef6348a3e23ba5e3nat);
    assert(factors =~= f7);
    assert forall|j: int| 0 <= j < factors.len() implies is_prime(#[trigger] factors[j])
        && power_mod(2nat, ((n - 1) / factors[j] as int) as nat, n) != 1 by {
        if j == 0 {
        } else if j == 1 {
        } else if j == 2 {
        } else if j == 3 {
        } else if j == 4 {
        } else if j == 5 {
        } else if j == 6 {
        }
    }
}

/// 341948486974166000522343609283189 is prime.
pub(crate) proof fn lemma_prime_341948486974166000522343609283189()
    ensures
        is_prime(0x10dbff26eab8198050172ee03275nat),
{
    lemma_certificate_341948486974166000522343609283189();
    lemma_certified_prime(0x10dbff26eab8198050172ee03275nat, 2nat, seq![2nat, 2nat, 3nat, 3nat, 3nat, 109nat, 0x5ddb9f12ef6348a3e23ba5e3nat]);
}

proof fn lemma_power_order_over_2_part_0()
    requires
        power_mod(7nat, 1nat, 0xfffffffffffffffffffffffffffffffebaaedce6af48a03bbfd25e8cd0364141nat) == 7nat,
    ensures
        power_mod(7nat, 0x1ffffffffnat, 0xfffffffffffffffffffffffffffffffebaaedce6af48a03bbfd25e8cd0364141nat) == 0x6ec5b51efd457873b02a58668d62b6dac6c6ff8fb5721abf676fd7b1af603cefnat,
{
    let n = 0xfffffffffffffffffffffffffffffffebaaedce6af48a03bbfd25e8cd0364141nat;
    let e0 = 1nat;
    let x0 = 7nat;
    let x1 = 343nat;
    let e1 = 2 * e0 + 1;
    lemma_power_mod_square_times(7nat, e0, n, x0, 0nat, x1);
    let x2 = 823543nat;
    let e2 = 2 * e1 + 1;
    lemma_power_mod_square_times(7nat, e1, n, x1, 0nat, x2);
    let x3 = 0x45160b7a437nat;
    let e3 = 2 * e2 + 1;
    lemma_power_mod_square_times(7nat, e2, n, x2, 0nat, x3);
    let x4 = 0x82823c992d2be80fcb9ab7nat;
    let e4 = 2 * e3 + 1;
    lemma_power_mod_square_times(7nat, e3, n, x3, 0nat, x4);
    let x5 = 0x1d1bbb69c328a67bf5a6a36fb99bb2839ba41401ac7b7nat;
    let e5 = 2 * e4 + 1;
    lemma_power_mod_square_times(7nat, e4, n, x4, 0nat, x5);
    let x6 = 0x476652069caaaf63dba48e50e54049aea5186aa13fb9bc9a5b9be77179fefb6fnat;
    let e6 = 2 * e5 + 1;
    lemma_power_mod_square_times(7nat, e5, n, x5, 0x172b1041361669b7d60b55cc48nat, x6);
    let x7 = 0xaa9e1706a17805e694d97079689c91a10277b150658c21241a6ce9bf09e132f8nat;
    let e7 = 2 * e6 + 1;
    lemma_power_mod_square_times(7nat, e6, n, x6, 0x8b6568c3f12a4cdb8582c123bce977feb9d22f38e8c0c0fcf885b557eb7d892fnat, x7);
    let x8 = 0x1567176a9baa7af25b2fa4dc62e1bc935eb61735735f434d620470f0ab58b1b5nat;
    let e8 = 2 * e7 + 1;
    lemma_power_mod_square_times(7nat, e7, n, x7, 0x31bfc6974a8f2603b67eaed35d52429ef919c090b4f64a697d29fcae61660624bnat, x8);
    let x9 = 0xc884b50a676659a7f7e98026ce18c47dadb7b53fb6c04d302b4fddb5b0b94125nat;
    let e9 = 2 * e8 + 1;
    lemma_power_mod_square_times(7nat, e8, n, x8, 0xc86877f6444ee0c435b162d3bedf4e105773614e7d033ae7410ee176cbe902anat, x9);
    let x10 = 0x8f6fd2dd858dbb9bf59ec94b2a083f78c26a8820c7d10177bf79de20e7f8d127nat;
    let e10 = 2 * e9 + 1;
    lemma_power_mod_square_times(7nat, e9, n, x9, 0x44b6d5db02e3fdde927d5d27f7fb08ba1f91269754a7b7a068a297b3dfa458048nat, x10);
    let x11 = 0x7e0b15985f1aba1da15be27db22eae91cd236d4dd8c08aeafd5d0daeab34722fnat;
    let e11 = 2 * e10 + 1;
    lemma_power_mod_square_times(7nat, e10, n, x10, 0x23292d4f422f4631d3cd14f9f994f190558662e19fbc7f6817066fc0b1c913768nat, x11);
    let x12 = 0xa0dcf33d4e68514b0c1079298cd8253614b6cae9c6854a8c01baae45fbfe53benat;
    let e12 = 2 * e11 + 1;
    lemma_power_mod_square_times(7nat, e11, n, x11, 0x1b2686429f9bdd89858eb420376e83521fbbcd7f3be751980ddeb31d51506e969nat, x12);
    let x13 = 0x61366d34373e80ea98c20f16546b5cee84c67600005c8cdb30bfd83b6fa40566nat;
    let e13 = 2 * e12 + 1;
    lemma_power_mod_square_times(7nat, e12, n, x12, 0x2c392873d3976391e38e1ed5da45f146073fba5c3eab4b8eb87b4c5f678e5fe36nat, x13);
    let x14 = 0x6326082ff203baabf25c62385fc5b5233a7303425ce93f14977832ff9aacc392nat;
    let e14 = 2 * e13 + 1;
    lemma_power_mod_square_times(7nat, e13, n, x13, 0x10268084ac157404d2cc8f968b0e2884d1702980a70f29f4000f2769349b2386anat, x14);
    let x15 = 0x1b8a4443b5dfc063191da4923ac5f5d9254c6f05d30c40bc282b89a6c6b5be2fnat;
    let e15 = 2 * e14 + 1;
    lemma_power_mod_square_times(7nat, e14, n, x14, 0x10ccd0fe099c05923cc4a369ba4a12118c88c69f94accdaa9d49085d3ed35b46dnat, x15);
    let x16 = 0xbb67259d8b925bdd0559eecf8a8c333a98fcfb503a2f95dac559140c2bc0465cnat;
    let e16 = 2 * e15 + 1;
    lemma_power_mod_square_times(7nat, e15, n, x15, 0x14bd338ba8f9406740b9e480442df0185e99b7cc1ba473f6d7bfbb04ef58344bnat, x16);
    let x17 = 0x82a3dee57735c77f9c9ab35207286f6c8c92ad9380368f41318647c59c1cc592nat;
    let e17 = 2 * e16 + 1;
    lemma_power_mod_square_times(7nat, e16, n, x16, 0x3c04ef9982d735cf550dda552016d09af74c76e5f40aef0adca37023c0ca15c5enat, x17);
    let x18 = 0x95c560f862be4dec4bde05cc58d067f8eeccfc9cef0b97de1074f07acb280962nat;
    let e18 = 2 * e17 + 1;
    lemma_power_mod_square_times(7nat, e17, n, x17, 0x1d2abe2ee937e76c1ef04caa8fbd509bc42119f310b506dde4c14730982b670fanat, x18);
    let x19 = 0xe22113befb31d215b6b14054a9daa700e045a42bf5eeb329c7ac264ef237dd88nat;
    let e19 = 2 * e18 + 1;
    lemma_power_mod_square_times(7nat, e18, n, x18, 0x2655b7d6ca9b11a924aa1a828dcbcae78641396a5d53ec24a41fafe99b9f44c14nat, x19);
    let x20 = 0x629ae51c73f00c0701e23a2ed70596b5d2b684ab80ab856b2fe3f76d56f6db19nat;
    let e20 = 2 * e19 + 1;
    lemma_power_mod_square_times(7nat, e19, n, x19, 0x57634edf715ee6ac414770607ad6f5fe5c3163d0246cf85be01e0875b58f8ade7nat, x20);
    let x21 = 0xd57d75d0c21678af0d6dd65f0fe1d0bdedd6be6c38a66e49e66e11dd70e6cac4nat;
    let e21 = 2 * e20 + 1;
    lemma_power_mod_square_times(7nat, e20, n, x20, 0x109dcb3efa44e542e06d94ca903b29d0cb25737fa183826aebb8722a2421a3893nat, x21);
    let x22 = 0x964c684d745001ea99d8d820bc09a2d59e6215b580663b706abbad51bbb61cb6nat;
    let e22 = 2 * e21 + 1;
    lemma_power_mod_square_times(7nat, e21, n, x21, 0x4de4618c3916be8e3a0ea89443f3734add895a56c22d47c4f36acf65dd296253anat, x22);
    let x23 = 0x78ea377bcfe3bf3871caa56205da8f4f8980897712d4b7b24490673c79ac62d3nat;
    let e23 = 2 * e22 + 1;
    lemma_power_mod_square_times(7nat, e22, n, x22, 0x269af673e0984e5d1b2d0d244955740392cbeb7c9a7adc3e14399fbe4a48103a9nat, x23);
    let x24 = 0x7555b0a6b28ef680e5f9ae8fa36d2f3bcd06a8486a5fe9c5e7a85534a501c62fnat;
    let e24 = 2 * e23 + 1;
    lemma_power_mod_square_times(7nat, e23, n, x23, 0x18fc6e81edcdbf7ca75ecc7764e0c0de1eeaf70c85ee9d81b621fe882fe8dd330nat, x24);
    let x25 = 0x8f9eda4e3c6e759f44a3408525b4c87ef8b1725849c8d0eb09f826093ba6310nat;
    let e25 = 2 * e24 + 1;
    lemma_power_mod_square_times(7nat, e24, n, x24, 0x17874111216a8303f00e4dfa2eb51c116daa97c714d0082973a96ef6ec8f64897nat, x25);
    let x26 = 0x8a75e1e4c8e0aacc9cec65b59c4c873aa35ff397c2fb58c7cfe158dc22ecba6cnat;
    let e26 = 2 * e25 + 1;
    lemma_power_mod_square_times(7nat, e25, n, x25, 0x23403f93737bb5e1ae842026972898412300241091b1f567f4e7a1407bb7394nat, x26);
    let x27 = 0x298b819b387e1243714bb6c2d3e2c66a20e9fd067524eca1e64fcd2098027844nat;
    let e27 = 2 * e26 + 1;
    lemma_power_mod_square_times(7nat, e26, n, x26, 0x20c3720c46d288d7e7fce2aa02b371be444f4cd24098e4e533872c98eee82bfacnat, x27);
    let x28 = 0x6b36199c95fe52b5de67ba811c6a0dd63f0421cbd1ff388575ffe0491ea8fe52nat;
    let e28 = 2 * e27 + 1;
    lemma_power_mod_square_times(7nat, e27, n, x27, 0x2f31e0c409e6b6a1a57560cf0802324e5e3c284505644ee624932c518310fa9enat, x28);
    let x29 = 0x6c8c19e63e60d3bfeea10193f7843f75029b1670cf2d48491d4e1287b8025f4fnat;
    let e29 = 2 * e28 + 1;
    lemma_power_mod_square_times(7nat, e28, n, x28, 0x13a4be1e5fa0cd68c367447dd0f0dccd71f219c9a2f70c228be3c38f292ebc04dnat, x29);
    let x30 = 0x34d930ca1a1b556aeac04bfcef16514059fa82a36361a42ea0163203cd269737nat;
    let e30 = 2 * e29 + 1;
    lemma_power_mod_square_times(7nat, e29, n, x29, 0x1422d91ae3d90ead034af12bee2dca6581df0284c5b2a3aef5a5aea021400b570nat, x30);
    let x31 = 0xce36a41e81402394abdb959c1c978e08d15dc6554a17843de37e1deb377a5402nat;
    let e31 = 2 * e30 + 1;
    lemma_power_mod_square_times(7nat, e30, n, x30, 0x4c5eac98f9b66cabef2fe151046d676bc8a6d298417b345f78f69c0f3732da75nat, x31);
    let x32 = 0x6ec5b51efd457873b02a58668d62b6dac6c6ff8fb5721abf676fd7b1af603cefnat;
    let e32 = 2 * e31 + 1;
    lemma_power_mod_square_times(7nat, e31, n, x31, 0x48ac3e28b32adf2e90844f6ab5c8fe7921a2099bc27cc5fa28e8b8e331daa0aednat, x32);
}

proof fn lemma_power_order_over_2_part_1()
    requires
        power_mod(7nat, 0x1ffffffffnat, 0xfffffffffffffffffffffffffffffffebaaedce6af48a03bbfd25e8cd0364141nat) == 0x6ec5b51efd457873b02a58668d62b6dac6c6ff8fb5721abf676fd7b1af603cefnat,
    ensures
        power_mod(7nat, 0x1ffffffffffffffffnat, 0xfffffffffffffffffffffffffffffffebaaedce6af48a03bbfd25e8cd0364141nat) == 0xe5d5d87d6f089a791f6a29b519b4c306dd19a36c4b293c7cea121b42e5f6fe5bnat,
{
    let n = 0xfffffffffffffffffffffffffffffffebaaedce6af48a03bbfd25e8cd0364141nat;
    let e0 = 0x1ffffffffnat;
    let x0 = 0x6ec5b51efd457873b02a58668d62b6dac6c6ff8fb5721abf676fd7b1af603cefnat;
    let x1 = 0x60eea351ef862eede482ea2979c6ac2cc4d958e695e9ec3cc6eee37f0fbf355bnat;
    let e1 = 2 * e0 + 1;
    lemma_power_mod_square_times(7nat, e0, n, x0, 0x14f85826038745c47a45e1815308a722b654106ad695623b2a31417e6d7a32d8cnat, x1);
    let x2 = 0x7af56c8c96541ee281dabb99bfb14722c5f18bade2a4177ffb8fb86e4e74e588nat;
    let e2 = 2 * e1 + 1;
    lemma_power_mod_square_times(7nat, e1, n, x1, 0x100eaee9ab94c1d90037cbbc032a5274162b931ad47e8211e912136bb72034e27nat, x2);
    let x3 = 0x42192eab99d1847ad9696dc13079e44504b5eab4b114bf33be33edbd1ddffcc5nat;
    let e3 = 2 * e2 + 1;
    lemma_power_mod_square_times(7nat, e2, n, x2, 0x19d67df38a0cfdd773d9c48517b7174d4725a7edd65318f5b6b8f28ed07fb633bnat, x3);
    let x4 = 0xdf0a0667d93b7c4de1a2592c36e72b63be2204cfc687dbe99a1df02711b024ffnat;
    let e4 = 2 * e3 + 1;
    lemma_power_mod_square_times(7nat, e3, n, x3, 0x7776f5ca695b5ac1923878dab0481e99532d60a293d8c66fb6f632cb1195ac30nat, x4);
    let x5 = 0xa19c19c12941e7dafbc5b065bb999aa0717290f1e35f1ceefff8b56541ba2b14nat;
    let e5 = 2 * e4 + 1;
    lemma_power_mod_square_times(7nat, e4, n, x4, 0x5504144ddf92178a0f47a52e628e96ea7e6db3c5013b66602d522ffdf66310f33nat, x5);
    let x6 = 0x23a342b6b646c5aec74aa1eea35f4c5a956280af684df562a947e09fe7ec56a4nat;
    let e6 = 2 * e5 + 1;
    lemma_power_mod_square_times(7nat, e5, n, x5, 0x2ca28050e834d544ed8204fd0303c88324c9b4e8b063c497aa7e174ee4a421d4cnat, x6);
    let x7 = 0xd145b7d44114a5f066c9ed875e69b896d92e36b631f7d240cafed26cec8035b0nat;
    let e7 = 2 * e6 + 1;
    lemma_power_mod_square_times(7nat, e6, n, x6, 0x22ba5683e34b53fbe7d8b0a7b670c047f9fe36ed481b430bc0dde96c5935c9c0nat, x7);
    let x8 = 0xa5d01d759e3cdf94082d6adaee3961d6064619093b926fda9ae44369ff7cd9cdnat;
    let e8 = 2 * e7 + 1;
    lemma_power_mod_square_times(7nat, e7, n, x7, 0x4ad84600446cf97bf7fe008351369da089286ed6cfd6e8ad8a8cef5a1ce2e0573nat, x8);
    let x9 = 0xa745618cfa650179991e7ce2d138be9ca9a342cae81fabb0842b83375b7f6292nat;
    let e9 = 2 * e8 + 1;
    lemma_power_mod_square_times(7nat, e8, n, x8, 0x2efc98a22837c411ba6648a25613a676b8222d0d80b80b30d3da69756c963404dnat, x9);
    let x10 = 0x4acfd8f0fd675e0bf3568b9d45ecada934c0b82152c5272c1f205a305f5416d7nat;
    let e10 = 2 * e9 + 1;
    lemma_power_mod_square_times(7nat, e9, n, x9, 0x2fd112889a4fc4853aec895f865b0dfe3e729415034021f861ac7aae3c55f31c5nat, x10);
    let x11 = 0xf735736b12abcf6d110e2ab73935d8e86f73dfbeadad3947f6a2ca068136d4adnat;
    let e11 = 2 * e10 + 1;
    lemma_power_mod_square_times(7nat, e10, n, x10, 0x9909bf332077d218cf80c1641c6f2a41fb71edb5cb660c6b5c15f6b95a68cacanat, x11);
    let x12 = 0x77d6c0ceaf0b7c46b8dad8b56cd7e7db6380c87164145e1c9c810056f93bd9dnat;
    let e12 = 2 * e11 + 1;
    lemma_power_mod_square_times(7nat, e11, n, x11, 0x687094f2b46ce82c347e8c4de5e99d0defd9eb5dba531a3ebb87115f1cacbda42nat, x12);
    let x13 = 0xc3f591615bb9b18dbd6c642801cea1a6ba33d48ff04bd4d15253fa972d2c5244nat;
    let e13 = 2 * e12 + 1;
    lemma_power_mod_square_times(7nat, e12, n, x12, 0x188b17fd17a800f3a86cb28297c6ef450596ae2e07491270a08e899e6b453fbnat, x13);
    let x14 = 0xde7a1e675eb3a746ad7d708d175f37f43ea2b65feb23d69fd3f950d590110af9nat;
    let e14 = 2 * e13 + 1;
    lemma_power_mod_square_times(7nat, e13, n, x13, 0x41a0031455c8941fb6e2a7cc7013346ec3dfcea33999abb96cb1c4e99d2863eb7nat, x14);
    let x15 = 0x2d4b8d55c2e7e58dedfd77a50bf06a242a8c5cca52acb06f0e69e3db7cbd9cf8nat;
    let e15 = 2 * e14 + 1;
    lemma_power_mod_square_times(7nat, e14, n, x14, 0x5496830e5ecafad0241739689b12791473a70984a7fb11311524c081c2eb7e79fnat, x15);
    let x16 = 0xd961f974c6a7108a4b6e92d1880039df487d89e2fe7f2ca78b5ad83822486384nat;
    let e16 = 2 * e15 + 1;
    lemma_power_mod_square_times(7nat, e15, n, x15, 0x381989e5e19d3014049766cbfbe9a72ee59270e9a390bad32b2c9efe68aee33cnat, x16);
    let x17 = 0x6a5ac5e51d48be1dbeeb806319035dafdbfa90b99b5cc4b23a85d9b1a48d051dnat;
    let e17 = 2 * e16 + 1;
    lemma_power_mod_square_times(7nat, e16, n, x16, 0x50c22b4d0bc76fe7a46e26da3276ffdbf50fb3f0d114e82cf09f9c817093e4793nat, x17);
    let x18 = 0xee4aa217db854cae8c1da21837b5bc5d48aba5c4e472a6347ef8692cd4c99ed8nat;
    let e18 = 2 * e17 + 1;
    lemma_power_mod_square_times(7nat, e17, n, x17, 0x1354b147a5846c4f7adc928f01d6e810ef95780161c019d5d432678fab558e567nat, x18);
    let x19 = 0xf3aaa9f046ad1b8fcbdd5392df15c710a0b35d7c177b55f756b3579073d13691nat;
    let e19 = 2 * e18 + 1;
    lemma_power_mod_square_times(7nat, e18, n, x18, 0x610a7fe0d4c2ec5e360c2ecd1cce2097ddbacc1c56ac12d529b82a2a9ae335a6fnat, x19);
    let x20 = 0xcfcd43e57301fdfd2e88379358c64ec6890b52c8914a6ad5e567fc15cdb8cc56nat;
    let e20 = 2 * e19 + 1;
    lemma_power_mod_square_times(7nat, e19, n, x19, 0x6577e12be06b35975356124a454fd43aa6d1151e71dab5b9888dabff6f6e3c151nat, x20);
    let x21 = 0x5ed69669cddfbedbc17b016399781d1141b348d391a1125cf5cf6fdd6f0ef66fnat;
    let e21 = 2 * e20 + 1;
    lemma_power_mod_square_times(7nat, e20, n, x20, 0x49cbf2ab41c513c878e69b4eaf8d61d1c50f1c88db14380a15dd2ed4255e7938dnat, x21);
    let x22 = 0x6e3e88e189049c90ac1f9a670ab6564bb290a927cfbe7da64d9ea8e449edf37fnat;
    let e22 = 2 * e21 + 1;
    lemma_power_mod_square_times(7nat, e21, n, x21, 0xf5f008569f30ae906dce064c6d67a6868ac94e6e37953efa2424fcf1a9156768nat, x22);
    let x23 = 0xd232ca11292b412fd8060c50d1cac1d79f5cec22886a0a9717974fb2c0b3efa5nat;
    let e23 = 2 * e22 + 1;
    lemma_power_mod_square_times(7nat, e22, n, x22, 0x14c549a5ad9472b6a6a81c1e5228c5765979a10cd39605bd40aa6522e26cbe4e2nat, x23);
    let x24 = 0x40c7a6e9ba21a9900271b2caa2af1b1651a50ce3ded58981011c90a10ebb5f20nat;
    let e24 = 2 * e23 + 1;
    lemma_power_mod_square_times(7nat, e23, n, x23, 0x4b8238f25f832edbefc637629810f4f9a1ab17be0c37b2790bb2977cc7322b08fnat, x24);
    let x25 = 0x72b31ea17aba550a2fa6b23f7fcab23d698715c8797db93c43abe3d467957112nat;
    let e25 = 2 * e24 + 1;
    lemma_power_mod_square_times(7nat, e24, n, x24, 0x72bf0a2480dd17475d590211376c30d5f80e34d76270dcc1036a061e393ea16enat, x25);
    let x26 = 0xd96761c5f1a1ab64a81f41246e01b85591bc32bcfd3fef3484fbfac3da941aeanat;
    let e26 = 2 * e25 + 1;
    lemma_power_mod_square_times(7nat, e25, n, x25, 0x167bc2041ab84c48adac20fab8bb97b611fa67687578e7f7d5381a64646935b72nat, x26);
    let x27 = 0xb0f8c677a0ebdabc7ae1aa2ea529c100d934bbbe0b900c5a302d8ebf85618642nat;
    let e27 = 2 * e26 + 1;
    lemma_power_mod_square_times(7nat, e26, n, x26, 0x50c62fe89cbdcd7c3fb86e4f4203cae40e1bcd298d5d06590008466f9d9b3727anat, x27);
    let x28 = 0xbd85bd05fc5aa84e49837375ff7389eb37da874405ed424d2d99ca8f3ab39764nat;
    let e28 = 2 * e27 + 1;
    lemma_power_mod_square_times(7nat, e27, n, x27, 0x358611287586179e79a7aa6c0af691d859480123ba770ba1bd4c2c4e3869061b8nat, x28);
    let x29 = 0xc8ec2d5ffe137647610a5151dc1a975ed08f3df9471893369e325e3c73dfeaa5nat;
    let e29 = 2 * e28 + 1;
    lemma_power_mod_square_times(7nat, e28, n, x28, 0x3d62738cd88d762492af4ceee7ce8b3ab93d8be6d8aff698b577aa574684be10bnat, x29);
    let x30 = 0x281777b8ac13fcc305f5d2ecd92d5734bbdc30f4fbf2f7dd649d487f29f6a5c8nat;
    let e30 = 2 * e29 + 1;
    lemma_power_mod_square_times(7nat, e29, n, x29, 0x44fdd2583c228401509f7cf915044cd9c0aff9c17db469a0bcedeb4e2d8c89de7nat, x30);
    let x31 = 0xf3785626773a9453c0057b431a9edbd6d64c33f0bdef681aec6c2a6928826ab1nat;
    let e31 = 2 * e30 + 1;
    lemma_power_mod_square_times(7nat, e30, n, x30, 0x2bf364f316a09e6f500fe0460ee85a010512c89d0618675be5ef62814e1d684fnat, x31);
    let x32 = 0xe5d5d87d6f089a791f6a29b519b4c306dd19a36c4b293c7cea121b42e5f6fe5bnat;
    let e32 = 2 * e31 + 1;
    lemma_power_mod_square_times(7nat, e31, n, x31, 0x654dfb4d153cff8c3276fb445561ce02ac05869e3969562bb015dafe578f2474cnat, x32);
}

proof fn lemma_power_order_over_2_part_2()
    requires
        power_mod(7nat, 0x1ffffffffffffffffnat, 0xfffffffffffffffffffffffffffffffebaaedce6af48a03bbfd25e8cd0364141nat) == 0xe5d5d87d6f089a791f6a29b519b4c306dd19a36c4b293c7cea121b42e5f6fe5bnat,
    ensures
        power_mod(7nat, 0x1ffffffffffffffffffffffffnat, 0xfffffffffffffffffffffffffffffffebaaedce6af48a03bbfd25e8cd0364141nat) == 0x9adc105dffcf707e374e30824f17b5c612aff4ba3e49fe4f6041af5cd1b53e26nat,
{
    let n = 0xfffffffffffffffffffffffffffffffebaaedce6af48a03bbfd25e8cd0364141nat;
    let e0 = 0x1ffffffffffffffffnat;
    let x0 = 0xe5d5d87d6f089a791f6a29b519b4c306dd19a36c4b293c7cea121b42e5f6fe5bnat;
    let x1 = 0xcaa8afaabd2723a8836d2f7bf54500ca8eb1f7534c53972fec78db9788604e90nat;
    let e1 = 2 * e0 + 1;
    lemma_power_mod_square_times(7nat, e0, n, x0, 0x5a469f7a0a32c7a8d34f16bc00205630483d90b9424c404c6999fd5c558bf791fnat, x1);
    let x2 = 0xdecfea03fb8b2a9197def87375021187e1594470776a92882abf1088aeee0449nat;
    let e2 = 2 * e1 + 1;
    lemma_power_mod_square_times(7nat, e1, n, x1, 0x463067ea35e0258e0158794955670e027e75463a7d7207d519abd8ac8feb13df7nat, x2);
    let x3 = 0x3835829b451f0bfc4cc1198a6e4f765dc117e6512e7ef4a1204bbe24c8cc88e8nat;
    let e3 = 2 * e2 + 1;
    lemma_power_mod_square_times(7nat, e2, n, x2, 0x54d7cd31e546a159f67b3b1b3c87dae4ddd02efd979e30ef7f49889d7aa50ae0fnat, x3);
    let x4 = 0xe16b1faf22ccedf0b0d0e309915aec293f2d4c00e0129d5bad110b961039d1a5nat;
    let e4 = 2 * e3 + 1;
    lemma_power_mod_square_times(7nat, e3, n, x3, 0x56642e46e427df538d5b61ccc6be14f4d47df79a326542c5f564b78b2fb53c5bnat, x4);
    let x5 = 0xed1f48b8f52517d2386017ac18506f89f1e53c9cabb6bd304f0c6e65184b2fccnat;
    let e5 = 2 * e4 + 1;
    lemma_power_mod_square_times(7nat, e4, n, x4, 0x56d6e59a5807a6aa38bd1abeeaa9a2243ab0a51a79f67da0810ab811cffe442e3nat, x5);
    let x6 = 0xe751d9b4401b3fd260059d132da858fba1f5503094a5fb5e454e27a1a717e146nat;
    let e6 = 2 * e5 + 1;
    lemma_power_mod_square_times(7nat, e5, n, x5, 0x601749350137a484c475c99d42b414464579b839e045ac7aaee16759a47f0342anat, x6);
    let x7 = 0xf0af92d3ebbae402f6089a35733eb2b334270b168ff8c9e033f47bc52dd344e0nat;
    let e7 = 2 * e6 + 1;
    lemma_power_mod_square_times(7nat, e6, n, x6, 0x5b721b7677e41be1f32ea853be31eb785a4f823ddd420d74529a129a1357ff21cnat, x7);
    let x8 = 0xa0e57a577d5763dc851f85184e487c25df8445d24cf7aa7683458932883da981nat;
    let e8 = 2 * e7 + 1;
    lemma_power_mod_square_times(7nat, e7, n, x7, 0x63003b203f397cd6e400ec647f44421bab26c3c8779626a8dde7cb64a3a2a43bfnat, x8);
    let x9 = 0xc2439b520b4d5d31aebfc9e38b82fade5d61b49702d2cffc8e497c00a21e2884nat;
    let e9 = 2 * e8 + 1;
    lemma_power_mod_square_times(7nat, e8, n, x8, 0x2c3dd8e6a45ace7c63e209229cd38f83d4df1c7e3ee08afa35f16c935c89328c3nat, x9);
    let x10 = 0x6e7ea4ca429cc9fe9546ee18b4dfee4b35d1561a1625e215b5d1481df2862d7dnat;
    let e10 = 2 * e9 + 1;
    lemma_power_mod_square_times(7nat, e9, n, x9, 0x407e9c0d51e2d5e0f0c68486d71101dca5680e78de7beacb8f810b8c04f02af33nat, x10);
    let x11 = 0xc680b3107296668325c131c020b6a3b0225a0f4b6ba6fc0a476bf9e9ac1bf5d9nat;
    let e11 = 2 * e10 + 1;
    lemma_power_mod_square_times(7nat, e10, n, x10, 0x14dd78ddf20f49389e13a897cf7af1d449c91439910349e003b8a40acef8df3e6nat, x11);
    let x12 = 0x6249b226a8f7ec862bfa28df4852d332591969d4ba588d4d4fa72a6b2d3c7deenat;
    let e12 = 2 * e11 + 1;
    lemma_power_mod_square_times(7nat, e11, n, x11, 0x4356f57d6f8a6b3eb9cf9cb0687b877240ec7ebbbf7ab4590ff33b60d3f113c69nat, x12);
    let x13 = 0x9e335c5e91551d586394193190ec7f9357fbdade8de54702194baaf6b59ee54fnat;
    let e13 = 2 * e12 + 1;
    lemma_power_mod_square_times(7nat, e12, n, x12, 0x108278b48cbbbc30ce5a23c6ef6d707056e4deb4184abff64572ac1fd80b5bb4dnat, x13);
    let x14 = 0x57bb91ddb80c9c386e04a97b4ae75bbe56f57e8b9305afdcb0fc939151db4282nat;
    let e14 = 2 * e13 + 1;
    lemma_power_mod_square_times(7nat, e13, n, x13, 0x2ac581242a8d188b12baba8e9f697dba88bdd7615452ded32eb647cb31139a3e5nat, x14);
    let x15 = 0xb5b73e3d6c00b9ce8557de3a08af83a1f07738e21cd38ec39d5754acea3e775fnat;
    let e15 = 2 * e14 + 1;
    lemma_power_mod_square_times(7nat, e14, n, x14, 0xd2772e05e0e299e119f5bcc568eda6b49927945c7d2756f828e785e3e96c327dnat, x15);
    let x16 = 0xb182dd0c0538aa45ce75cfb2490843ed0114428e000c544cfde9ebf058b31872nat;
    let e16 = 2 * e15 + 1;
    lemma_power_mod_square_times(7nat, e15, n, x15, 0x386e8683a47aeb7d0c016978ea6f4485ab1c847fd96d25130ed46b261e7854215nat, x16);
    let x17 = 0xf88dd30c47292a93896af1d9a490ea0905ea6656b11d87d04943d9ad4a9c7841nat;
    let e17 = 2 * e16 + 1;
    lemma_power_mod_square_times(7nat, e16, n, x16, 0x35d9b8bef140fea1884966f6f54f44435d9ac2ccacca0db94b0e53953ba86195bnat, x17);
    let x18 = 0x8f48b822d3ebbed5fe7043f619a29650708fab84e58669c5038600788db9b961nat;
    let e18 = 2 * e17 + 1;
    lemma_power_mod_square_times(7nat, e17, n, x17, 0x69945a455a7b7ba1f882574e26901070044b075db43f25dceaacf898d47727aa6nat, x18);
    let x19 = 0xb3d53554d10b458410afffa8427903d4d2cfd49a91eb52c590e9e7cc3039dd26nat;
    let e19 = 2 * e18 + 1;
    lemma_power_mod_square_times(7nat, e18, n, x18, 0x231604099058aa043f1092b6daa0cf62ed1e1e75d341610127c6c2279cef028e1nat, x19);
    let x20 = 0x4386799322a717a830d1705a2e9850cc7b5296e7a41d12c69dbdca6d8f4c2f10nat;
    let e20 = 2 * e19 + 1;
    lemma_power_mod_square_times(7nat, e19, n, x19, 0x3744af70cce18fa662de135d0b07be49a0940e41abfb421a9a20b1ea538bc756cnat, x20);
    let x21 = 0x6b6e5e50abc7525b80f6f1bf0fc525969073579a0c613bd6431404cc87798e78nat;
    let e21 = 2 * e20 + 1;
    lemma_power_mod_square_times(7nat, e20, n, x20, 0x7cada7ed9b591c6b0209f103f4de5a206adbd7146400df6a1e7d50b93a3a6e88nat, x21);
    let x22 = 0xd7f5e611a6a1942ea121948aee7bd70d6334cc5995a48327e94ccb95b223c486nat;
    let e22 = 2 * e21 + 1;
    lemma_power_mod_square_times(7nat, e21, n, x21, 0x13b9620f85db117f6315ab9eba40c584ebe562fa1552257c1cef08fd813773cbanat, x22);
    let x23 = 0x6a928a73fc18f5c5d2e5aa865fc0401415d289bbad0217eafa4548547f31b2ddnat;
    let e23 = 2 * e22 + 1;
    lemma_power_mod_square_times(7nat, e22, n, x22, 0x4fb48b07ac11075a0e89ba1a34cdc306f8368be5e4be2b6853f549c1409a1115fnat, x23);
    let x24 = 0x8bb7216913386651aa3d54a13928d0c6717efdef4d9956db8921e2d4e597ae41nat;
    let e24 = 2 * e23 + 1;
    lemma_power_mod_square_times(7nat, e23, n, x23, 0x1368fc5c7db9a4a64b79de81561031b6b555e1941a7633a977845eb8be951a7benat, x24);
    let x25 = 0xb656a83c75277baf347fde721e992656c6f6563115643416494bdb2c295cbb9anat;
    let e25 = 2 * e24 + 1;
    lemma_power_mod_square_times(7nat, e24, n, x24, 0x215c2a8fe3832e2cdf5fcca9010268e2b6783b06f4f8fd987ab75bd59884663adnat, x25);
    let x26 = 0x69fdbbfa82835460b437ccef5a82a8f251459184c6273887579f621a6b521ff4nat;
    let e26 = 2 * e25 + 1;
    lemma_power_mod_square_times(7nat, e25, n, x25, 0x38d1b4fd0004fd10a2bbef0a890738a0077077f55b3b529d0f93c47e511192288nat, x26);
    let x27 = 0x9bc9eb4afa2ba97e01999d9bef0f0c58aafb2f8086b1209f73aa9953f21a9e0anat;
    let e27 = 2 * e26 + 1;
    lemma_power_mod_square_times(7nat, e26, n, x26, 0x1332eddd41baf723df703f77232cb3641e88215c9214eca887896fc867542e666nat, x27);
    let x28 = 0x54d50c190a250ce8c80c486a2a84aa28e1a0571be692beb4c3f6fc688c41689enat;
    let e28 = 2 * e27 + 1;
    lemma_power_mod_square_times(7nat, e27, n, x27, 0x297a2ef50d893337368e628744f586664bf2f55427ee169efb0cd9c9dc241bc9enat, x28);
    let x29 = 0x48bb71040742915992abb14c458795ba964f1403680e0175ee15fef80b1d3153nat;
    let e29 = 2 * e28 + 1;
    lemma_power_mod_square_times(7nat, e28, n, x28, 0xc4c788aef646deaee8737ddd39476d7b177d49021adeea551a6b3f5a75824e09nat, x29);
    let x30 = 0x63973e57ac963b3d3bfd3f1a14cde6d7bcf6c408ceef2532d5b726e8b9b68a78nat;
    let e30 = 2 * e29 + 1;
    lemma_power_mod_square_times(7nat, e29, n, x29, 0x90a5cdb3fd08406215c242b7ba1a4a7f7873468cf6cd29d81fe10b6d8187eb27nat, x30);
    let x31 = 0xbf0bc898c2dec768eadf2215a31d7ce7aad1e83827f85516b6ffa34b11afeccenat;
    let e31 = 2 * e30 + 1;
    lemma_power_mod_square_times(7nat, e30, n, x30, 0x10f344900e6aaa4ab688b77fead6865c852069b6fc94b259cb7c691485374ae72nat, x31);
    let x32 = 0x9adc105dffcf707e374e30824f17b5c612aff4ba3e49fe4f6041af5cd1b53e26nat;
    let e32 = 2 * e31 + 1;
    lemma_power_mod_square_times(7nat, e31, n, x31, 0x3e60219179ba98a6669adf5fbb74ee201c0c9a24288567e920d77cc5a9ef016b6nat, x32);
}

proof fn lemma_power_order_over_2_part_3()
    requires
        power_mod(7nat, 0x1ffffffffffffffffffffffffnat, 0xfffffffffffffffffffffffffffffffebaaedce6af48a03bbfd25e8cd0364141nat) == 0x9adc105dffcf707e374e30824f17b5c612aff4ba3e49fe4f6041af5cd1b53e26nat,
    ensures
        power_mod(7nat, 0x1fffffffffffffffffffffffffffffffdnat, 0xfffffffffffffffffffffffffffffffebaaedce6af48a03bbfd25e8cd0364141nat) == 0x7281d30edf7cb4ef1bf2851d8e5cc380af295a77697b2d7a30afa204d38cfdf7nat,
{
    let n = 0xfffffffffffffffffffffffffffffffebaaedce6af48a03bbfd25e8cd0364141nat;
    let e0 = 0x1ffffffffffffffffffffffffnat;
    let x0 = 0x9adc105dffcf707e374e30824f17b5c612aff4ba3e49fe4f6041af5cd1b53e26nat;
    let x1 = 0x36bce1ff836f3e914008c931a5ed397290618c738651663abcd8d5389c13d030nat;
    let e1 = 2 * e0 + 1;
    lemma_power_mod_square_times(7nat, e0, n, x0, 0x28fbe860c98a7f098f11cdef4b2153a0c090673dd768563977c43a8bec84dd04cnat, x1);
    let x2 = 0xd8427d01e278ff7a6f5ed01e4f41492668320a2dcc9310ce318bad6abaa7bcdenat;
    let e2 = 2 * e1 + 1;
    lemma_power_mod_square_times(7nat, e1, n, x1, 0x51ed9aef8fb9d0f4c8075c9608197f5a39711f28536fd11544907f6fa1b077a2nat, x2);
    let x3 = 0x6795441cdac831dafb0013bde0424fd044fbfa3b07934845bef999510d2ce9e2nat;
    let e3 = 2 * e2 + 1;
    lemma_power_mod_square_times(7nat, e2, n, x2, 0x4fed1dd87214e98d060fbe882341e8499a2993054b8f7c153e52e31b59bb2c13anat, x3);
    let x4 = 0x888d70f9aec1fe52044a5e554b9cd003c7200f35152f3627a39e406d12df2ad5nat;
    let e4 = 2 * e3 + 1;
    lemma_power_mod_square_times(7nat, e3, n, x3, 0x125622ae50a55c87650f558cd3f645ea1e1ae6755895e16f855dee64047b4fd07nat, x4);
    let x5 = 0xfa5b926afdee5ba767d6dc12b3038fe2ae261b3e52adada60806a7a95762eae5nat;
    let e5 = 2 * e4 + 1;
    lemma_power_mod_square_times(7nat, e4, n, x4, 0x1fdde1b48860c566b3ac7ab3a559b410249991861964498347ec059b505f8352anat, x5);
    let x6 = 0x89e2385a81613a3f898ba2d8974190b07193812bc5865332fbac94acecd9032cnat;
    let e6 = 2 * e5 + 1;
    lemma_power_mod_square_times(7nat, e5, n, x5, 0x6b1e0db18ba5dfdc6e777353c5e7a072abcfbb2a421a7a84ae35e8a7360d18f03nat, x6);
    let x7 = 0x528c7a6f36f264bebf5456c8bd9e0205d3bcf383da5bed2334b6eca1edad27c1nat;
    let e7 = 2 * e6 + 1;
    lemma_power_mod_square_times(7nat, e6, n, x6, 0x207db598aeac38c48486f59409e5029ddb309d33613e0ccd8ff9890a9e9a27a6fnat, x7);
    let x8 = 0x75fbe454092b5c4ea81a2d85510b46b8ec254f3bb66b0e7925f6cef03d3662fanat;
    let e8 = 2 * e7 + 1;
    lemma_power_mod_square_times(7nat, e7, n, x7, 0xba5410a5b7c70068cc855d66732eac2a4e1bb6e5d459c82df9ba0cc2e0b5594dnat, x8);
    let x9 = 0x12c24269888c4e53d14550b2aedeba970c6f2f7549fba0dbad0cb98cbcba6f78nat;
    let e9 = 2 * e8 + 1;
    lemma_power_mod_square_times(7nat, e8, n, x8, 0x17ca17de46db9e13f1fb84aca2d10992539661ddac48f62167ed7f1a53d667084nat, x9);
    let x10 = 0x262f4d7493400a71e68304f4a46f482242cc538252d439ab9462d7d5082e328enat;
    let e10 = 2 * e9 + 1;
    lemma_power_mod_square_times(7nat, e9, n, x9, 0x99f413cf2a8e70d0176644da514df8c6e69ded3bba92a4e5689bf964f3768b2nat, x10);
    let x11 = 0x598d078cba062b03f5cc0d5a839ca29d8443704a4c834c905c240d798aee514enat;
    let e11 = 2 * e10 + 1;
    lemma_power_mod_square_times(7nat, e10, n, x10, 0x27de8a24fbaee7f7a6eaea656147418364aeae7035fc55a24356d96cdeecec8enat, x11);
    let x12 = 0xf0c4d6d46923e0375ff1c226ee02c2ca0459202797ec1e1535fe2ed2932a17d7nat;
    let e12 = 2 * e11 + 1;
    lemma_power_mod_square_times(7nat, e11, n, x11, 0xdb478a982a1b6da744cc156e1c06abe3fbd1af19b685c541c89e242ea5947c45nat, x12);
    let x13 = 0xb69808ec6edc487bbd50928eb3fcec49f5d45d23e96213ce6e2ea6555f42657dnat;
    let e13 = 2 * e12 + 1;
    lemma_power_mod_square_times(7nat, e12, n, x12, 0x6311ba71786b4878e1f0e312135d07fce40d8f9f0c23927b16525ed8df7817ffanat, x13);
    let x14 = 0x15e414205c3c14df9b7a8aa3de3b84d0f32a9af22b469ec7bb3bfe7d5ab1ed39nat;
    let e14 = 2 * e13 + 1;
    lemma_power_mod_square_times(7nat, e13, n, x13, 0x38fa7b0db6eef719297a7932e30eab5e1ac6b1c51ba92bd32363ad6f3e4320486nat, x14);
    let x15 = 0xa489c7760c2b5d2900dee778180fe3ab43e035bb8b7ef6dfe4fa7e1eee3f7344nat;
    let e15 = 2 * e14 + 1;
    lemma_power_mod_square_times(7nat, e14, n, x14, 0xd1a7d88287e8ea1194120408a69c75d2f8ca42a30770cece3c0a7f9a25d23d3nat, x15);
    let x16 = 0xe2cdee257ff6281ba4a7b143152dc0389fafb8f2ecf096e7af19a9783901d363nat;
    let e16 = 2 * e15 + 1;
    lemma_power_mod_square_times(7nat, e15, n, x15, 0x2e445bbfc637145e630bdc2a8a7577e496617b3dbbbb8da1273b732b9d3e892cdnat, x16);
    let x17 = 0x46dae43ec02232c377102298ffd52fca3c4c936393755e959c20a4111309f570nat;
    let e17 = 2 * e16 + 1;
    lemma_power_mod_square_times(7nat, e16, n, x16, 0x57e91b2ea60b3254edac89143e7c30a449c90ea99c9688286d4b92790c10a71cfnat, x17);
    let x18 = 0x39b72108530d61aa6b9b77d284e7a5bb25c70e09bd4a3a184e05333fd797370fnat;
    let e18 = 2 * e17 + 1;
    lemma_power_mod_square_times(7nat, e17, n, x17, 0x89470fe2e41c595f4469c11e19907cc35e0be5c88898e54df5e1691af08822b1nat, x18);
    let x19 = 0x32ed8506c3557a6b3eaea08fbc3a7746752847ea5061c5966dc784aa33c9c4banat;
    let e19 = 2 * e18 + 1;
    lemma_power_mod_square_times(7nat, e18, n, x18, 0x5b156df9a608ea23dfaf945e09ccd43bbb6bdbff139ae35965d58294cbfe272dnat, x19);
    let x20 = 0xe3d9779d4f14ba29d72092972df895993ef2e1d8244628b1fca794f125c2b1d6nat;
    let e20 = 2 * e19 + 1;
    lemma_power_mod_square_times(7nat, e19, n, x19, 0x46eb7e5b87a5a29dcd2772be1583fad46657fc83de79e77fb3ef567e216060a6nat, x20);
    let x21 = 0x7906a2f083ac2418b3d5aff85bd929b9433ee1415e5e8bdf688119b4f418ad3cnat;
    let e21 = 2 * e20 + 1;
    lemma_power_mod_square_times(7nat, e20, n, x20, 0x58b8fb40adbc128502f9c959b7f3dc1664f6e1370ec63dd5064855b8fa62ceb00nat, x21);
    let x22 = 0xe9d369a7c6af551f695c5b17f06cc72506467fa4b4d1c4e6eb3fa5d610ca5138nat;
    let e22 = 2 * e21 + 1;
    lemma_power_mod_square_times(7nat, e21, n, x21, 0x19082eb67d42d47a26b5306d9493c322db1fb8b4404a8796f34cfc54b358eb338nat, x22);
    let x23 = 0x4920b03ad10566a17de22c75721d05e9bf2a1a30f0a2d75a5ee11674110ab0c6nat;
    let e23 = 2 * e22 + 1;
    lemma_power_mod_square_times(7nat, e22, n, x22, 0x5d701a26b30e62a670c782a9d49ed3ef2a3fbb9b1f4721ac70964781f04d69c7anat, x23);
    let x24 = 0x7703ea83883f45f9ebeb2be340b88d2bf4b4d8aba820e7f76d744c8a47a7f1d4nat;
    let e24 = 2 * e23 + 1;
    lemma_power_mod_square_times(7nat, e23, n, x23, 0x92399cc28697d397f2c1d8fcdd621e90be18beb521969425329b9e59879ccc28nat, x24);
    let x25 = 0xcc770ce07c1645455efcdad623d0f24798c6f1b322424637fd83239bcda1856bnat;
    let e25 = 2 * e24 + 1;
    lemma_power_mod_square_times(7nat, e24, n, x24, 0x183507c9756112c60b0adb5971e7ad212c8c8d2b2aafaefd56a2527d13ed18945nat, x25);
    let x26 = 0xa4d114b7dea845615b6a39597b6f76fc1b5fc709d93f90633190ffbd0d2992e5nat;
    let e26 = 2 * e25 + 1;
    lemma_power_mod_square_times(7nat, e25, n, x25, 0x47721ab3339c8b11d0c763e5cf50ba7acf4bb27efb1e1b0ed086cbe53c21bd3aanat, x26);
    let x27 = 0xba5d7c22345f1cc1e620d731aface92f717a57407b0add7699bc9a1fb17c68c2nat;
    let e27 = 2 * e26 + 1;
    lemma_power_mod_square_times(7nat, e26, n, x26, 0x2e6c7dd24ee44cd82d2264f56ff893a02e1ab94a909219a6abb5bdd5c9b8434ednat, x27);
    let x28 = 0x6a7daff4672d6b777bcf1e0b008a31eed9669b60820550a03a186049773eb2banat;
    let e28 = 2 * e27 + 1;
    lemma_power_mod_square_times(7nat, e27, n, x27, 0x3b5b3d9a3e805e76339da422e5a67440ba32c2ffc91fcf25b16603a1bedd257e2nat, x28);
    let x29 = 0x992fd20d3853bd0014f4c9198788e6bdabe5186ea2b502e36c81e5c15e1b76c2nat;
    let e29 = 2 * e28 + 1;
    lemma_power_mod_square_times(7nat, e28, n, x28, 0x1361647f1e5650037dc238cff22cfffe775e813eeb9e8da2e23d85e0b556eeabanat, x29);
    let x30 = 0x67fca56ba5255610e56e9502a887ffc89ecd92400f2071b8a0744d9d1d855b52nat;
    let e30 = 2 * e29 + 1;
    lemma_power_mod_square_times(7nat, e29, n, x29, 0x281a75e1239bb464b8a6489178e7ea0cafbf251e5dacc951a4689d8cd85d1754anat, x30);
    let x31 = 0x27cdb1849bb5a47571a6a908fab34e97bf3a7d4cf672c1c50b1c120cbed44f48nat;
    let e31 = 2 * e30;
    lemma_power_mod_square(7nat, e30, n, x30, 0x2a3d4672b5b51ce8a2938de19cf1725bb16b2362d5a802852cb2db8ba7691bfcnat, x31);
    let x32 = 0x7281d30edf7cb4ef1bf2851d8e5cc380af295a77697b2d7a30afa204d38cfdf7nat;
    let e32 = 2 * e31 + 1;
    lemma_power_mod_square_times(7nat, e31, n, x31, 0x2b523985566f8b331527d3112016a051f0cd56740741248128c62b028f67b489nat, x32);
}

proof fn lemma_power_order_over_2_part_4()
    requires
        power_mod(7nat, 0x1fffffffffffffffffffffffffffffffdnat, 0xfffffffffffffffffffffffffffffffebaaedce6af48a03bbfd25e8cd0364141nat) == 0x7281d30edf7cb4ef1bf2851d8e5cc380af295a77697b2d7a30afa204d38cfdf7nat,
    ensures
        power_mod(7nat, 0x1fffffffffffffffffffffffffffffffd755db9cdnat, 0xfffffffffffffffffffffffffffffffebaaedce6af48a03bbfd25e8cd0364141nat) == 0x9d80bf93bcf10e0c104b5c4b40bbb43195e5458fb9140b4c998101fbc66544fcnat,
{
    let n = 0xfffffffffffffffffffffffffffffffebaaedce6af48a03bbfd25e8cd0364141nat;
    let e0 = 0x1fffffffffffffffffffffffffffffffdnat;
    let x0 = 0x7281d30edf7cb4ef1bf2851d8e5cc380af295a77697b2d7a30afa204d38cfdf7nat;
    let x1 = 0xb7cc228eecc332af9c205d174082798b7ca4ff73845955f452082fcbce4fe18fnat;
    let e1 = 2 * e0;
    lemma_power_mod_square(7nat, e0, n, x0, 0x3337e1cfa209d21814de9b29aabe150110edbe1fa0ea41bd5fac66adf2017042nat, x1);
    let x2 = 0x879b4b54cc4750a28157ac29f1d838d4c491f053312da6006e871722ef5c5245nat;
    let e2 = 2 * e1 + 1;
    lemma_power_mod_square_times(7nat, e1, n, x1, 0x39bb6654c08a2d1ba7a8126bc1963b5472ff0f6024eb3285812542c9558447462nat, x2);
    let x3 = 0x9350146b1e41ceb0edb0a80a1ea2e575a4b31daa31d04c259e0a8a93f0bfe759nat;
    let e3 = 2 * e2 + 1;
    lemma_power_mod_square_times(7nat, e2, n, x2, 0x1f6d41596341da84c9dc6bde085ab581c8c74666a3ecbcf0ea086c5bf208e5b56nat, x3);
    let x4 = 0x9e759ad96ed9413e33816369e25cbbdf8046f5565fb6371d91a8ba4a0af28e43nat;
    let e4 = 2 * e3 + 1;
    lemma_power_mod_square_times(7nat, e3, n, x3, 0x25163737e8147ca5abd0b748d291d3961e366af6a4b3a45eef5fe1e15298e7354nat, x4);
    let x5 = 0xe6791349c2fa9fdcbeb3de3f98543c4e62ae4e3fe62d17f9dfad3877d5fee68fnat;
    let e5 = 2 * e4;
    lemma_power_mod_square(7nat, e4, n, x4, 0x6215612b4d3dd128e93da8d7af807693a614a76ae4989c1d805f4b6aa340e67anat, x5);
    let x6 = 0x19304d1424fa5154960adcd7d7f3f8df141bd07f400b0d5f4c0ac9ff1b76d94nat;
    let e6 = 2 * e5 + 1;
    lemma_power_mod_square_times(7nat, e5, n, x5, 0x5ac70777274bcd290438f90ab17dc0dd167225c8fa6481a0f1d0782215bf365d3nat, x6);
    let x7 = 0xc21932ed14f17306d31bea24e7e978205f8dab9a8394e5018053e618181f7b3bnat;
    let e7 = 2 * e6;
    lemma_power_mod_square(7nat, e6, n, x6, 0x27a782aedfbe19566675651b0e9b9f523b0f7d24a4713f31c8fc58ec28815nat, x7);
    let x8 = 0xe234d850c46aa928df56efa160309f721cc6aadd929e7bb77d6e44672a36dc87nat;
    let e8 = 2 * e7 + 1;
    lemma_power_mod_square_times(7nat, e7, n, x7, 0x4062769a8313e88aa5efe9be20f927b1ae5f5b02d7261ecead7142bb20d1f0ea8nat, x8);
    let x9 = 0xed46cbfde7bbf59a47b1c2e1523e2fc7ea7a78542692b246c591b48c43a11a88nat;
    let e9 = 2 * e8;
    lemma_power_mod_square(7nat, e8, n, x8, 0xc7e158d7326482f039c26c4fadb814ca4df3c09dce37e7e1ea923a26e64d3169nat, x9);
    let x10 = 0x3233b58e807dad7662323ef2512cf3398a04eff7db3756f15be99f5cf280063enat;
    let e10 = 2 * e9 + 1;
    lemma_power_mod_square_times(7nat, e9, n, x9, 0x6037520fa3351de2d73608785e452112365747b55c164792b08870b923e8d9102nat, x10);
    let x11 = 0xf8ec6e7e2bd138abd3464d4fbb668180e6be2028bfec18cf7bab284e1fceaa4nat;
    let e11 = 2 * e10;
    lemma_power_mod_square(7nat, e10, n, x10, 0x9d83d5d81bb1ad9deba81f4f659be016c0705a803c0c0651b0e831604189460nat, x11);
    let x12 = 0x610ff0c5e52647e164ab7366657c39c23827798e976f0f0c9820e10e68da964bnat;
    let e12 = 2 * e11 + 1;
    lemma_power_mod_square_times(7nat, e11, n, x11, 0x69e4c93128c7fc7be861c0b0106b6b9c7f0417a66d9a1ccfc0ba653c00e1ae5nat, x12);
    let x13 = 0x600cc86aebf68b1fb8ad5671de39143d2c0c0afec4b0ee1c8413ad53a76b9d53nat;
    let e13 = 2 * e12 + 1;
    lemma_power_mod_square_times(7nat, e12, n, x12, 0x1019b962c791099246091529d527d60f5698df634e8181a7ec5b7001c10605d7cnat, x13);
    let x14 = 0x55fbadb2059a8d0e54a324777957a587b8f3dc69a519da7fc9170ec972567fa0nat;
    let e14 = 2 * e13 + 1;
    lemma_power_mod_square_times(7nat, e13, n, x13, 0xfc4320a9274be1a433ae9d645b186c97e38c63fc83405b7e3b4d3cd6feae1fffnat, x14);
    let x15 = 0x4592106c068c3211d6937a469018f5c1b63f08368e0c5bffbb58d71fd227f30cnat;
    let e15 = 2 * e14;
    lemma_power_mod_square(7nat, e14, n, x14, 0x1ce118c648a9b61acbff3b439d4953adafbfa5757fb1bd33da52e2eecf733ff4nat, x15);
    let x16 = 0xd26bb9dc0d8b6d99fc301dbc7f737730e5d8097d04c426d1dffdc5c385e2122anat;
    let e16 = 2 * e15 + 1;
    lemma_power_mod_square_times(7nat, e15, n, x15, 0x84587156c69911206f212fe468b4b22abcf886efec169452496b1cfbcf881246nat, x16);
    let x17 = 0x8b79186036c22122e8ee1d66c5004ff09d628538ef06efc03bf8fde3a8b7d505nat;
    let e17 = 2 * e16 + 1;
    lemma_power_mod_square_times(7nat, e16, n, x16, 0x4bab267cd6dc2fdaf5ca5049c9ebb545b5fb3a1826a4f223f2fecd45fb8d7de77nat, x17);
    let x18 = 0x3d667f69f77aafb7811baad4e8b648eb37240e4b755fa38edd52c8ea2c2352e9nat;
    let e18 = 2 * e17;
    lemma_power_mod_square(7nat, e17, n, x17, 0x4bfcb9c088bcc1ecbf78a411b4a5653b0dca3a07921a8659920847388c540330nat, x18);
    let x19 = 0x3b7e5455ab774630a9c868ac12c552d280c178ae968cd2fd62636013d0ae2e16nat;
    let e19 = 2 * e18 + 1;
    lemma_power_mod_square_times(7nat, e18, n, x18, 0x67160c4ff693ea6709e5cdc117dbc36995b04d4db5d32e99807deae9c57ed121nat, x19);
    let x20 = 0x91c5f90cd87f60a1486cc6a58e1c5e78899eea5f240fd5b3792fad5181074dcanat;
    let e20 = 2 * e19 + 1;
    lemma_power_mod_square_times(7nat, e19, n, x19, 0x60c8507e4c0aaeb3c5ee4835b3d2a2ca60fadb2f7636afeafdf281ee669868f2nat, x20);
    let x21 = 0x74af33b8aea728fb55d9b845b4e05a25b243be3cc49722b8b342905e9bc43e12nat;
    let e21 = 2 * e20 + 1;
    lemma_power_mod_square_times(7nat, e20, n, x20, 0x2450d0c949d2c6d2390eed641efe22e0fa5e5c5db1e6ba3ba7a796af591e8c52anat, x21);
    let x22 = 0x9e690dafd2a1781fc951e5bf03461eef276cdfedbff48567965716283552b0d7nat;
    let e22 = 2 * e21;
    lemma_power_mod_square(7nat, e21, n, x21, 0x352f3ec71f39607fef3365056acac0d5bf3bf42ca4947b42d5567959840c902dnat, x22);
    let x23 = 0x339b300b4b0a66ddbd833962d04b5646735122a45fcbf6a9f82286e37d79d033nat;
    let e23 = 2 * e22;
    lemma_power_mod_square(7nat, e22, n, x22, 0x6205d80142f56ce1d2d7019a44ac25d02d97627681a90bd8b7f3a39504546edenat, x23);
    let x24 = 0xa97a90094fd51529ab8b1d73017b6a5c157de58b0a571e4e4d2d001dd4d418e9nat;
    let e24 = 2 * e23 + 1;
    lemma_power_mod_square_times(7nat, e23, n, x23, 0x48d26685fe22c18a726a081d5e05a82929a1a35e91f5835711d1fd6baa936ab6nat, x24);
    let x25 = 0x83a86fb10f8acdafb9821f437b44e18463dbe03cf2687f7451b35befc43dda63nat;
    let e25 = 2 * e24 + 1;
    lemma_power_mod_square_times(7nat, e24, n, x24, 0x3116559f5453d524d51413eb2f024f4e3a3d1a13926551802fbfa95a1e7d16914nat, x25);
    let x26 = 0x6fe61edf301ce042c48911509f81a2c8e74ab012fbf3c06affac3c5921fe977cnat;
    let e26 = 2 * e25 + 1;
    lemma_power_mod_square_times(7nat, e25, n, x25, 0x1d9f8b7edf9345a64b2392a112d9757b036ee084ee7c7ee7640fbba09ed0404c3nat, x26);
    let x27 = 0xa430f2f7994249b2ebdb639af0909d346f88dfb993a0bd9ec6024588164a1cf0nat;
    let e27 = 2 * e26;
    lemma_power_mod_square(7nat, e26, n, x26, 0x30e95da1087c90387e51350c6acf65c70f0a858927d5680defcc9baf31c27f20nat, x27);
    let x28 = 0x700bcf4e7b39245ca6b28d3ce65cc9e6e11bc8296fd4fa21a775bb4253da1efbnat;
    let e28 = 2 * e27;
    lemma_power_mod_square(7nat, e27, n, x27, 0x694ec0a93fcf74834e4a5453bb640532cd4c56fe74435f8dc75e6db47b0d4bc5nat, x28);
    let x29 = 0x4142d1ac733ec4b5b723b78d9714aa8bc43c2c07b925c9e8d5de8b838d6a4950nat;
    let e29 = 2 * e28 + 1;
    lemma_power_mod_square_times(7nat, e28, n, x28, 0x157485990ff14366f795192a6045cc58f6eeb25b31f54d036ae63c32b5d42369fnat, x29);
    let x30 = 0x27b28aa8cc1f6763c930b695f932446d418b5d5e5bb529fbeca54eff12cf7b02nat;
    let e30 = 2 * e29 + 1;
    lemma_power_mod_square_times(7nat, e29, n, x29, 0x7474ff687e365030cecb68baa1fa84e1540aaded1d8251b8929b84154fbff67enat, x30);
    let x31 = 0xf17e1dc419b5f958986a54c208b0c34f37bac0f59f86a0b8606c89be8936662cnat;
    let e31 = 2 * e30;
    lemma_power_mod_square(7nat, e30, n, x30, 0x627e2c48c07d88a9581f7e16bd6ffd767abb267932ef623a23512a2cfb4b7d8nat, x31);
    let x32 = 0x9d80bf93bcf10e0c104b5c4b40bbb43195e5458fb9140b4c998101fbc66544fcnat;
    let e32 = 2 * e31 + 1;
    lemma_power_mod_square_times(7nat, e31, n, x31, 0x63aa6df37be57a28211522980951a18396ed29ad8afb369d75fa50d60fdecaef4nat, x32);
}

proof fn lemma_power_order_over_2_part_5()
    requires
        power_mod(7nat, 0x1fffffffffffffffffffffffffffffffd755db9cdnat, 0xfffffffffffffffffffffffffffffffebaaedce6af48a03bbfd25e8cd0364141nat) == 0x9d80bf93bcf10e0c104b5c4b40bbb43195e5458fb9140b4c998101fbc66544fcnat,
    ensures
        power_mod(7nat, 0x1fffffffffffffffffffffffffffffffd755db9cd5e914077nat, 0xfffffffffffffffffffffffffffffffebaaedce6af48a03bbfd25e8cd0364141nat) == 0x19e945e9893d47bc6ed81b03e94e65cd1ba698540a770837d20a5b5da672e50cnat,
{
    let n = 0xfffffffffffffffffffffffffffffffebaaedce6af48a03bbfd25e8cd0364141nat;
    let e0 = 0x1fffffffffffffffffffffffffffffffd755db9cdnat;
    let x0 = 0x9d80bf93bcf10e0c104b5c4b40bbb43195e5458fb9140b4c998101fbc66544fcnat;
    let x1 = 0xfe3c5c416e27d66598bdf86dc517e40324da6618e3060a7e6e9f539eb8345328nat;
    let e1 = 2 * e0;
    lemma_power_mod_square(7nat, e0, n, x0, 0x60e72bbb58da657b134bcc58ee55ef89fffe32164a4ec6b85dcd2c0f3174e2e8nat, x1);
    let x2 = 0x6dd4db883031b6dcebb787b0bb44bbf3fd94966ee6ca7aa6fdc7296830d244f9nat;
    let e2 = 2 * e1 + 1;
    lemma_power_mod_square_times(7nat, e1, n, x1, 0x6e762d51c7d8c781b072314ed038898e800a779eba6eafe067bb63345248d2e07nat, x2);
    let x3 = 0x4251f0d55b7263298032bc0c4513bec018f0ec5d42a78ad8769dcf260f7eca58nat;
    let e3 = 2 * e2;
    lemma_power_mod_square(7nat, e2, n, x2, 0x2f1ef3ee4edc72f74b63a5c60ced2b0709d557c0a6807650164e0f6f65617099nat, x3);
    let x4 = 0xde9bedfb0909cb570ffd2b3d9e65f421675ac1adebe0d3b45a15e2c63536fa72nat;
    let e4 = 2 * e3 + 1;
    lemma_power_mod_square_times(7nat, e3, n, x3, 0x784478da19211f937d266ec246605ad102e4bb817d26eb163ab006fe0f64b7cenat, x4);
    let x5 = 0x398047bfcf03a168ade2ea559f3feac11c155842d44e27a365ed8c13203098bfnat;
    let e5 = 2 * e4 + 1;
    lemma_power_mod_square_times(7nat, e4, n, x4, 0x54b03ae120840e802a2428ff9c04173989d548abecdd05eefb9c4c95bd11c2e5dnat, x5);
    let x6 = 0x5692ea257e228a7d57c61556da8d3211d636aff1ef3be3ea6e44e5ef86bc8650nat;
    let e6 = 2 * e5 + 1;
    lemma_power_mod_square_times(7nat, e5, n, x5, 0x5a68a19eb2ba1a582b3f0f01dfd9427d1ebe2b6c74a700f949544c2e781a3a77nat, x6);
    let x7 = 0xa9bcfe172687fca7c26574540a9eae00d39818d455279716b628cf7be43d0ba4nat;
    let e7 = 2 * e6 + 1;
    lemma_power_mod_square_times(7nat, e6, n, x6, 0xccf14367b3b17fb132c2c9b08f8b70baac00a7921b6cd53faad4c4aca1fe705cnat, x7);
    let x8 = 0xe32c1004fb3070d02a3daed7ae7298de12d124e6d09eee385d244e35c7245172nat;
    let e8 = 2 * e7;
    lemma_power_mod_square(7nat, e7, n, x7, 0x708b1300bf1215de60a86bbe5286a12a963230da25ebb77ce2c5ab0984e30a1enat, x8);
    let x9 = 0xc196e2013c6f4a863e54c1f3d0bc96900feb451a9b0572a0cf9fb0891bcb04benat;
    let e9 = 2 * e8 + 1;
    lemma_power_mod_square_times(7nat, e8, n, x8, 0x5832233f46948217fb3de60204b5290d02015f24ef6cda22d8f1cd48415d8751enat, x9);
    let x10 = 0x9eb929d6242406e203d4564a68749ee7b38a8e79943cbf0ed0f55d4440c77caanat;
    let e10 = 2 * e9;
    lemma_power_mod_square(7nat, e9, n, x9, 0x9264d9b37e18cf7fc604ce2fb0e4a353c97bf18a3c55d42487730f276ad4afdanat, x10);
    let x11 = 0x98a5a688e83c7e9a1caf4915515af5db67f8ea60206deaf2f5f47edd141fe136nat;
    let e11 = 2 * e10;
    lemma_power_mod_square(7nat, e10, n, x10, 0x62691591d2f2ff44eaedb1827bf3324610bfb20b20f6b255850ed146691a062enat, x11);
    let x12 = 0x9cc263b1e23485d4c29062be5a949faa325c5e527c9f50a52403c689e6636896nat;
    let e12 = 2 * e11 + 1;
    lemma_power_mod_square_times(7nat, e11, n, x11, 0x27d23e6a2b82f4b09a30c761fb1a7d1100ca1417c63158e693efd4fbf0ebc4ba6nat, x12);
    let x13 = 0xcf77d2d6f3b5bb4a94a3bd48e7643f624ec0c313cfb16c7ea200d292e46e355enat;
    let e13 = 2 * e12;
    lemma_power_mod_square(7nat, e12, n, x12, 0x5ffd7d1c0c1deb45579b40f0aadaed1f29324238789b6851efc20a4ef760bb06nat, x13);
    let x14 = 0xfbeb914729e0f11194492d6941e02be85e5bdaa0fd27284a3c5d494c2fb4161bnat;
    let e14 = 2 * e13;
    lemma_power_mod_square(7nat, e13, n, x13, 0xa822ff0d4f9bd4293ed4fb74faf262fb9de11c0ab29da8e7e57e8a6a57ad4529nat, x14);
    let x15 = 0xcb9ca673b76777d65a981f068d0b51c24c9cec78cbd62d6e4185abbcd614a99anat;
    let e15 = 2 * e14;
    lemma_power_mod_square(7nat, e14, n, x14, 0xf7e7c7a59737acec21c331ff4fb9ffaffb2cc1b8caa0b31ffc8ed536ba3c1e7fnat, x15);
    let x16 = 0xd9498056cee3c7be7f94643ebce1dc70e0d06c34f8599e9340035a9c193cb4bfnat;
    let e16 = 2 * e15 + 1;
    lemma_power_mod_square_times(7nat, e15, n, x15, 0x46d9caedfa2df3e335ad2e4c4e8cd1f2d5d2ba57033f09ce6855b5ed2a35a837dnat, x16);
    let x17 = 0x3f70c0736b8cb970dbd132f960bd2d50963435eab0161c8f974b2aaa7d19c2a4nat;
    let e17 = 2 * e16;
    lemma_power_mod_square(7nat, e16, n, x16, 0xb86db0ad9c9712dc4eea684810f38229d7019fd5f3665a420d1f7d9838be9f9dnat, x17);
    let x18 = 0xa9abac14da10478c85a7a0fced5fd9d9243c91d737ab5d85214d93836f5f3799nat;
    let e18 = 2 * e17 + 1;
    lemma_power_mod_square_times(7nat, e17, n, x17, 0x6e0cd2ac603aea60e308f9704a48a31e122a34ff5920897d6f9d4bd656a9fb17nat, x18);
    let x19 = 0xd6e830dabf506098cfffca2901631f5c6efad9081832e6b2b4af4ed9079d16b2nat;
    let e19 = 2 * e18;
    lemma_power_mod_square(7nat, e18, n, x18, 0x70741c52df70d6efcaa19cf17f04249480dc268f4b6b548da763d4a2cea543ffnat, x19);
    let x20 = 0x936a80bd3cd57baa1fa958b0f3bbebf860fc70b38e709810b8b37480b35efbb6nat;
    let e20 = 2 * e19;
    lemma_power_mod_square(7nat, e19, n, x19, 0xb46904464da7e5d718cf813dae6c9132d8fc5deffb7977af53ffdf84ace0668enat, x20);
    let x21 = 0x176062395451051481e64426511ff037b26d3caac1fb020e467e23200820754dnat;
    let e21 = 2 * e20;
    lemma_power_mod_square(7nat, e20, n, x20, 0x54e37c2831515588269630f386de8e7e3928b2827482dababee38940c1520357nat, x21);
    let x22 = 0x7629ed0695c8f475cfbdb5a2e2add2c27f89dc60092523f2763e691bf885f6fenat;
    let e22 = 2 * e21;
    lemma_power_mod_square(7nat, e21, n, x21, 0x22275f01dd5bd122e760881d05b637294b9cdf8fa7e6a95ff56da62d1413c6bnat, x22);
    let x23 = 0x4732cbb97d882bda1156013a0b2ac15466731b861ee401e1318b4c4b023f995bnat;
    let e23 = 2 * e22;
    lemma_power_mod_square(7nat, e22, n, x22, 0x368aad5fd9a66d3c5af090b15bb12d66262cb04ba3c19e284d68db6661f00769nat, x23);
    let x24 = 0x84d6f265763aa1f25240e7fcd577dd07d5f392c482ed5e0becdbe217be2a9730nat;
    let e24 = 2 * e23;
    lemma_power_mod_square(7nat, e23, n, x23, 0x13cd37151a364500b8b5f633b5414bb2ca00b028c1495cabcddecd8016a62be9nat, x24);
    let x25 = 0x3b82f0be1f35f60d95d403bb7a2f36f1d316fd0fa11b1185cd6394141a846c25nat;
    let e25 = 2 * e24;
    lemma_power_mod_square(7nat, e24, n, x24, 0x44ee5e72c9121cc601007b3160bd5d8878180fb4e3906e293c5b4b314eca9b1bnat, x25);
    let x26 = 0x27cb9906e0e70259c6a5009f9be755c315199f6d68513c626dbbbf15e24b5fa6nat;
    let e26 = 2 * e25 + 1;
    lemma_power_mod_square_times(7nat, e25, n, x25, 0x60d75197291d358dc2c901be9bdce62b746a2dc38a0aa6c1e0d4c963d233e289nat, x26);
    let x27 = 0x624dccbcc8ab5aa0a4fa69f2a4bae497f6c0c4a4a4c55271fa8dbbb27cd13495nat;
    let e27 = 2 * e26 + 1;
    lemma_power_mod_square_times(7nat, e26, n, x26, 0x2b4da9d5025a06abaadeb0ab9373402259841142cae9be630a0a0bf09a693827nat, x27);
    let x28 = 0xe416c4faa602e7f7d14007e9c0aa060f29637ed7d4f5e12a81dea76727df77benat;
    let e28 = 2 * e27 + 1;
    lemma_power_mod_square_times(7nat, e27, n, x27, 0x1083d9ac56099487fae860c90da76b2c8a7883cce03c6b8d19a665d052469ca11nat, x28);
    let x29 = 0xf7ddaca7e3c868a0ce3631486ff238b8a85049bdc49bc4fad83416449efd1d22nat;
    let e29 = 2 * e28;
    lemma_power_mod_square(7nat, e28, n, x28, 0xcb3890e4ea5a794e67da52664df8d65ffc52daf4bdfdcfa09a13656db6f4d962nat, x29);
    let x30 = 0xc07c1bb722d718914f8f487e40386a5046fa9ed62a6a729be789d33ddded589cnat;
    let e30 = 2 * e29 + 1;
    lemma_power_mod_square_times(7nat, e29, n, x29, 0x68fee95dcb71246be9823960aee2fd8aa5b07709f1689d53dc304b2515203f300nat, x30);
    let x31 = 0xfae1085eb2fd3ea9075757bc28b87cc22bbc3d0049e80181638578123a561cfenat;
    let e31 = 2 * e30 + 1;
    lemma_power_mod_square_times(7nat, e30, n, x30, 0x3f518c82ef4b7c319c4df4d4f206a9c7a9ce7a85e4559035ad345340276194df2nat, x31);
    let x32 = 0x19e945e9893d47bc6ed81b03e94e65cd1ba698540a770837d20a5b5da672e50cnat;
    let e32 = 2 * e31 + 1;
    lemma_power_mod_square_times(7nat, e31, n, x31, 0x6b906071cb647204e497a8ff1c2d6a37ae3137da8e0aa96317be5e76e951b1b10nat, x32);
}

proof fn lemma_power_order_over_2_part_6()
    requires
        power_mod(7nat, 0x1fffffffffffffffffffffffffffffffd755db9cd5e914077nat, 0xfffffffffffffffffffffffffffffffebaaedce6af48a03bbfd25e8cd0364141nat) == 0x19e945e9893d47bc6ed81b03e94e65cd1ba698540a770837d20a5b5da672e50cnat,
    ensures
        power_mod(7nat, 0x1fffffffffffffffffffffffffffffffd755db9cd5e9140777fa4bd19nat, 0xfffffffffffffffffffffffffffffffebaaedce6af48a03bbfd25e8cd0364141nat) == 0x844d29ecd73e770df1d5917437c1fb93dee950135a3dd3c38d29e071d88bfab1nat,
{
    let n = 0xfffffffffffffffffffffffffffffffebaaedce6af48a03bbfd25e8cd0364141nat;
    let e0 = 0x1fffffffffffffffffffffffffffffffd755db9cd5e914077nat;
    let x0 = 0x19e945e9893d47bc6ed81b03e94e65cd1ba698540a770837d20a5b5da672e50cnat;
    let x1 = 0x3bbf91716565b59f2ec31d968c09e812d9292c7f47a865e16581cd537a25f7d9nat;
    let e1 = 2 * e0;
    lemma_power_mod_square(7nat, e0, n, x0, 0x29f6437f30182958672c8dd272b799041a34d6ac9997f29e5cde1390e21cbf7nat, x1);
    let x2 = 0x6c1851d3770000a886afd1e1064a539210d417d3dd674efc32f074308a1a4562nat;
    let e2 = 2 * e1 + 1;
    lemma_power_mod_square_times(7nat, e1, n, x1, 0x619d06c0560ade0def76860fec3ab5f37b62a0f869a7f826edef868e1fed41f5nat, x2);
    let x3 = 0x23672b9adaa4c1e542f7e6d6bfbad34e062633e9f08bd1b14c9542094a196fe1nat;
    let e3 = 2 * e2 + 1;
    lemma_power_mod_square_times(7nat, e2, n, x2, 0x13f7fb3751378b3c3e4d857e63d851407974631b570a934394d73ac45922c68fbnat, x3);
    let x4 = 0x723a929816fe12cbc1777fec6ba3eb2ef3b7dfce4fdf84e7e74c666acb6696d4nat;
    let e4 = 2 * e3 + 1;
    lemma_power_mod_square_times(7nat, e3, n, x3, 0x22459c8338c0a506ee42ec5c83d523b30895c7ee197494ce714d46adcff643b3nat, x4);
    let x5 = 0x226c6ea6deba927e4b04831341b05ef77c42bb5c37df366736ea1776167b8916nat;
    let e5 = 2 * e4 + 1;
    lemma_power_mod_square_times(7nat, e4, n, x4, 0x164c987bb755dbb25b4f256bc486a8a55cdab3fe42aa3695ceb29b7956641a35anat, x5);
    let x6 = 0x8c6f8f877b0a137f66d032375df6b4a5cd6b87c9dfbe6cf3ac14c0e4a922ae00nat;
    let e6 = 2 * e5 + 1;
    lemma_power_mod_square_times(7nat, e5, n, x5, 0x2066df3d1e813395a8d9e67bcf899893273da571014323786733a2d7d51be83cnat, x6);
    let x7 = 0xb0232db13443d4e893b6035a62e640b584d0980ab5c91309fa134f7c3d61d31enat;
    let e7 = 2 * e6 + 1;
    lemma_power_mod_square_times(7nat, e6, n, x6, 0x21b477735bdba7e8b91592ad39eeebc8e24285860c3ef0f12bb44ba138cd6b262nat, x7);
    let x8 = 0xaf16fca2a333fe5230eb53a5628dbd74759e318fbf4925931189a9c8cae5b926nat;
    let e8 = 2 * e7 + 1;
    lemma_power_mod_square_times(7nat, e7, n, x7, 0x35052b9a045515c54341f3cb572b769e717044297037385caa5f65a284af817f6nat, x8);
    let x9 = 0x77ea194924b349df75a6e03958f90f6ebd75d8b0014e3ec6315d3710d5e4355fnat;
    let e9 = 2 * e8 + 1;
    lemma_power_mod_square_times(7nat, e8, n, x8, 0x346430c3f42c81ee5d4db96edcba3e54b240e149ae97370a887516d6fa97bd1ddnat, x9);
    let x10 = 0xdbea3ab28c75debc77fcfbd9954cf1a8093e53eaebf2f5031927928a66bcb3a3nat;
    let e10 = 2 * e9;
    lemma_power_mod_square(7nat, e9, n, x9, 0x382b79943c552481c3d4ea4a276bf253e0eb1ee0bd87d082f067af48bf18201enat, x10);
    let x11 = 0x9ce3da4faf489b604b7c2a0e63bb074c186ad66edf80c04a6e8aafa8d449e450nat;
    let e11 = 2 * e10 + 1;
    lemma_power_mod_square_times(7nat, e10, n, x10, 0x52a6a1f29e94edf36ce354621a9186b66c6958149ed7d5069bd85a171305f056fnat, x11);
    let x12 = 0x6280f6dac94725d36cce80755decdec8ea00b7c25455b93d7188d6c4f003adacnat;
    let e12 = 2 * e11;
    lemma_power_mod_square(7nat, e11, n, x11, 0x60267cde011d27763839707798ff3c48a181b4d92d8c9e53381eee7d9d2b0254nat, x12);
    let x13 = 0x2a990486e037c30a8d4a54e9aee9f834b318d5416223bcf58b0fc894ab67843enat;
    let e13 = 2 * e12;
    lemma_power_mod_square(7nat, e12, n, x12, 0x25e6fdf74aecf5ebdada773881950c2bca3301d47b3dbc8d2c7740f808d8e0d2nat, x13);
    let x14 = 0x3c3a5bd65271bc19d3d093970aff536d30ce677011da63ffe5a6e35e0c6965d7nat;
    let e14 = 2 * e13 + 1;
    lemma_power_mod_square_times(7nat, e13, n, x13, 0x319df6a2ac179906d8c7f17dd90b620525d0b20ca0badc96caaa93e7d4e30d05nat, x14);
    let x15 = 0xd631f1e87ce2db1f9e8d71d055ceb08fa9813a69fa74a87405134455bb4aa0cdnat;
    let e15 = 2 * e14;
    lemma_power_mod_square(7nat, e14, n, x14, 0xe2b685a34b4bdc0236ba67e3bf15b896bb3022785ebfe98839fc4073f57c4c4nat, x15);
    let x16 = 0xbe156219c11970a29383832f61fe627b65fc1147ae9ecd4da8587ecb07f469e1nat;
    let e16 = 2 * e15;
    lemma_power_mod_square(7nat, e15, n, x15, 0xb3378a2f3062a37677da6b91d2db08a7e956682017b4ce4db5b06b1faaa62048nat, x16);
    let x17 = 0x7b1eb61e7c2e6d1a6b1deeaf7552323144846aa7b5228be78bba595d283f732anat;
    let e17 = 2 * e16 + 1;
    lemma_power_mod_square_times(7nat, e16, n, x16, 0x3dbfa3bd44b263297f37ac981c9a36815b13180aa4a7d6366d944c8e645e51eddnat, x17);
    let x18 = 0x7158620a1dc8ba45bd696a905b70f5fd068e4074d464f59197f6a46626a693bfnat;
    let e18 = 2 * e17;
    lemma_power_mod_square(7nat, e17, n, x17, 0x3b3686b07c0913ec4f6002fd3204e75cf221d497aea7ab370f941e81dd87d0e5nat, x18);
    let x19 = 0xe35a9f2b09ed9aea543946b401fee251d2d3ef2eae8016ffb03e480c30b7ddf3nat;
    let e19 = 2 * e18 + 1;
    lemma_power_mod_square_times(7nat, e18, n, x18, 0x15f4a03735b8fff8790764241227ed86eeb650d289310065c2e6098b16503c494nat, x19);
    let x20 = 0x9ec9f1a89cc9215e7a4191210e057ca7c1919e59c8048f044fab1871c0d82e5dnat;
    let e20 = 2 * e19 + 1;
    lemma_power_mod_square_times(7nat, e19, n, x19, 0x58564dc7a65d1f191db5f66fb75049ea797c6e4559dcb13d910dc2e552e6bcfc2nat, x20);
    let x21 = 0x3af21861e32ce6e8e864ec5537ac62360eb2f430ab1a7fabdbb1819ca0c8a95anat;
    let e21 = 2 * e20 + 1;
    lemma_power_mod_square_times(7nat, e20, n, x20, 0x2b171473282fd9af712b860de359c3f79fea41af2630bf66818aec5dbb837d8e5nat, x21);
    let x22 = 0x6ac1dc671e69fadf557bdd6a8f94041a18bea67cb42f2a7059d4821e504a77adnat;
    let e22 = 2 * e21 + 1;
    lemma_power_mod_square_times(7nat, e21, n, x21, 0x5f0227f53c4e72d73df2ef73e94881198c25c6d035ffaa6548d3711ee4989f0fnat, x22);
    let x23 = 0xd963f5cd0aa2768298c22ef1a1868b6448f5cafa146163dd0400f4155364bbf7nat;
    let e23 = 2 * e22;
    lemma_power_mod_square(7nat, e22, n, x22, 0x2c851d53766d055cdb9e356fe0e48066866e48bdb9f23457086e9d5021c88072nat, x23);
    let x24 = 0x8df00eeb9519859a05355527378bd46eaae1c8419528f61fe12bc8b17965e9c3nat;
    let e24 = 2 * e23 + 1;
    lemma_power_mod_square_times(7nat, e23, n, x23, 0x50c3a502f805e480a6c2d85c6cd970de45d77a2707aeeecff2bcd4bc179913f74nat, x24);
    let x25 = 0x42e3879a38dba35e44fe769f38c1716eb54bafc95119489f6de4e8eebc020a92nat;
    let e25 = 2 * e24;
    lemma_power_mod_square(7nat, e24, n, x24, 0x4eb2518b7cd44a2008d55d34e9d14de1d8c4807887ea100068c68275687ebb37nat, x25);
    let x26 = 0x8450645bfccef0182313dea1741a91115f4ea10c441cc87359674f65d2fe25d8nat;
    let e26 = 2 * e25;
    lemma_power_mod_square(7nat, e25, n, x25, 0x117a1c2548a61aa06ff05e8a049f98d00a2b1ec9e0ec34a1c59fd4174ba48e6cnat, x26);
    let x27 = 0x3395a439ef5da5066cbe9a63d33bce9d385d717ab9dee2b9ea1d030de382eb7nat;
    let e27 = 2 * e26;
    lemma_power_mod_square(7nat, e26, n, x26, 0x446300bdbd8b677e539c0688e7c736063aa6c96b1b871888102dbe1aa8145c49nat, x27);
    let x28 = 0x8536931d06a1a6d793bcb8badbaf635dfdf84ef8a6891a87bfc3f6a495f46450nat;
    let e28 = 2 * e27 + 1;
    lemma_power_mod_square_times(7nat, e27, n, x27, 0x48c2c055a72799e9c24fa3c4180de2f817e1680b38f998a94e81d14f2a7aa7nat, x28);
    let x29 = 0x4303b3f71d69dc3034c98cd33d1bc36521731e230e05f4e9bea59b8f585976b9nat;
    let e29 = 2 * e28 + 1;
    lemma_power_mod_square_times(7nat, e28, n, x28, 0x1e53c4375dfbbc73dbe0269c5c7c045494c7aa7cdee22445e68bc6ac00efd8f87nat, x29);
    let x30 = 0xf627f3044babdb9bdf5a9ceae409e0ce2643e0eb4ba07c6802df2355cb8f84c6nat;
    let e30 = 2 * e29;
    lemma_power_mod_square(7nat, e29, n, x29, 0x118af0410fb39b68345632f0dfb0f90dfaa141f505b385f8412b00730977d72bnat, x30);
    let x31 = 0x71d724adf72e721f0dcae437b798f13ed0bdd7639d45552df4b8f6e4836fec5anat;
    let e31 = 2 * e30;
    lemma_power_mod_square(7nat, e30, n, x30, 0xecb0cd48336e802731672020b20ed55e44b54c02144af55a63db1f2edc72004anat, x31);
    let x32 = 0x844d29ecd73e770df1d5917437c1fb93dee950135a3dd3c38d29e071d88bfab1nat;
    let e32 = 2 * e31 + 1;
    lemma_power_mod_square_times(7nat, e31, n, x31, 0x1625d765177bf0f81411f6b578913b52a98e63a24d13ab780775056d3f86f650bnat, x32);
}

proof fn lemma_power_order_over_2_part_7()
    requires
        power_mod(7nat, 0x1fffffffffffffffffffffffffffffffd755db9cd5e9140777fa4bd19nat, 0xfffffffffffffffffffffffffffffffebaaedce6af48a03bbfd25e8cd0364141nat) == 0x844d29ecd73e770df1d5917437c1fb93dee950135a3dd3c38d29e071d88bfab1nat,
    ensures
        power_mod(7nat, 0x7fffffffffffffffffffffffffffffff5d576e7357a4501ddfe92f46681b20a0nat, 0xfffffffffffffffffffffffffffffffebaaedce6af48a03bbfd25e8cd0364141nat) == 0xfffffffffffffffffffffffffffffffebaaedce6af48a03bbfd25e8cd0364140nat,
{
    let n = 0xfffffffffffffffffffffffffffffffebaaedce6af48a03bbfd25e8cd0364141nat;
    let e0 = 0x1fffffffffffffffffffffffffffffffd755db9cd5e9140777fa4bd19nat;
    let x0 = 0x844d29ecd73e770df1d5917437c1fb93dee950135a3dd3c38d29e071d88bfab1nat;
    let x1 = 0x2df68ef0eafb8e36583836180cb69db7f0a0b19a0a6377d78ce76abb7685861fnat;
    let e1 = 2 * e0 + 1;
    lemma_power_mod_square_times(7nat, e0, n, x0, 0x1de9da9756d2d54e2fe6dba0a9eadc95e72ed73d9867a597d564901fa407c1488nat, x1);
    let x2 = 0xbada785cdadbf3ac83b6affad4006f0983a075f5e19e4cb7a91d94c354f0a32fnat;
    let e2 = 2 * e1;
    lemma_power_mod_square(7nat, e1, n, x1, 0x8409bb7b97032dcec9515fbb6f0d421fc7e5693d512da3b833481edcb8bbe12nat, x2);
    let x3 = 0xc2c5dd74bb2a0915a112e0c565f40337839f0fe8598eddf20227b9ff2750667bnat;
    let e3 = 2 * e2 + 1;
    lemma_power_mod_square_times(7nat, e2, n, x2, 0x3baaf59690158d0e187f6104362cd83ff4543dc5d9d05b64179e762a155e0a4ecnat, x3);
    let x4 = 0x3714bd27fdebba077d1dd611c4124a49e0645a8bd02f822a0208bfa4ecca6c61nat;
    let e4 = 2 * e3;
    lemma_power_mod_square(7nat, e3, n, x3, 0x94307c9380e684d77e08879a44423912cfe662b938df51e27beeaa38b5b5ecb8nat, x4);
    let x5 = 0xe31f20112b94aaf71def912cd8f7d958cb03428ded60e885b5ba23577d3785fdnat;
    let e5 = 2 * e4;
    lemma_power_mod_square(7nat, e4, n, x4, 0xbd9eaf5491f09f1b34be26d206f83a1ba4d1c1ebcc5506fc6b5cab345e341c4nat, x5);
    let x6 = 0xdd1eda33a5968de06d126e8b048ee92172f462490f189d8052ba6e0b0377e0ddnat;
    let e6 = 2 * e5;
    lemma_power_mod_square(7nat, e5, n, x5, 0xc98036a73b76813fa2d7df8db3b6cfbfc431a351315fcff0fd7bf9b95896c42cnat, x6);
    let x7 = 0x7ef3b3e535c8d113175d15a49a8d61aaa6f0b857b895ae5b41f7872e01abdd03nat;
    let e7 = 2 * e6;
    lemma_power_mod_square(7nat, e6, n, x6, 0xbefe487509fcc0ae8ba58fcaa64b3028a84cf2783111ae0d68f922dacfdb4a46nat, x7);
    let x8 = 0x19b3b5732db10799f127ffec488bba409c9d87c0330a477db5672e58be608d26nat;
    let e8 = 2 * e7;
    lemma_power_mod_square(7nat, e7, n, x7, 0x3ef4cd14a4801f7bce317ef257aeb7245e4ddd88c4462957a8b7530426b27523nat, x8);
    let x9 = 0xedd19c12710059db015e4423629504907cf8965ad4b5f67e0054769752da96a1nat;
    let e9 = 2 * e8;
    lemma_power_mod_square(7nat, e8, n, x8, 0x2949797be9a8b7b1c554854e64e1bb1265a8d58805157d1b39457c35cf07743nat, x9);
    let x10 = 0x3a3ec753d899689b80414f347a7760d16aa951a2823b5ff7cf1fbb274efec102nat;
    let e10 = 2 * e9 + 1;
    lemma_power_mod_square_times(7nat, e9, n, x9, 0x60a806e38796f7bf720fb6d1b397bb981c3f4ef862b3ca1351aa3bfa78eef9185nat, x10);
    let x11 = 0x775573bf1a90bf3ab2b9c231fef8c6c8dbd6ad0be1687ebbb073d8403f640835nat;
    let e11 = 2 * e10 + 1;
    lemma_power_mod_square_times(7nat, e10, n, x10, 0x5cc38c0209b93b6499a5c77636221d8c055d32a64e9c01b3642ef8952f806327nat, x11);
    let x12 = 0xf3f751daec214944e46b22be3aabf2b69d7b2063f0912261b8a47c5a433a455cnat;
    let e12 = 2 * e11;
    lemma_power_mod_square(7nat, e11, n, x11, 0x37a08e21bbef766e41b130bea316bc444707eec01548b47a1beae81e53d2215dnat, x12);
    let x13 = 0xcbc93f97b5c542acc498798ca698365c61fe8ae7e51de12497fde4b110e4fdf1nat;
    let e13 = 2 * e12 + 1;
    lemma_power_mod_square_times(7nat, e12, n, x12, 0x65b7c2e50ac51d1c9bc0f8ff1f793e54f190f4012614b6b4becf1de99d460e2bfnat, x13);
    let x14 = 0xc7213ac4369b0824bcc5e914fbfda37f799e9bb259eb7b1484d7595b8f610b44nat;
    let e14 = 2 * e13 + 1;
    lemma_power_mod_square_times(7nat, e13, n, x13, 0x46f8d7f6cac241a1e13b947683c4165b052b7fd947861afe271992f9bd8c7f323nat, x14);
    let x15 = 0x3c82e2b5f372d5684bf7cb0dc478b3341de3b504a74121f3b9566197c25769fcnat;
    let e15 = 2 * e14;
    lemma_power_mod_square(7nat, e14, n, x14, 0x9ae4adad40f899c31faf3e81d03a1cf50065c271df436f636d4e6deccda1a714nat, x15);
    let x16 = 0x3a8d2f7ff2fc6b277dc6fdca2097e6dac818e3ff2324c4496b1059d9781682c9nat;
    let e16 = 2 * e15;
    lemma_power_mod_square(7nat, e15, n, x15, 0xe4d9d3053aed7d28a3a6f1c60005c089338ba5202046a2ab069f6da3680c487nat, x16);
    let x17 = 0x8e84ed1f34a77f94d819536d301cc5f58a139164a59210b19f3a372f76259ad8nat;
    let e17 = 2 * e16 + 1;
    lemma_power_mod_square_times(7nat, e16, n, x16, 0x5dbdf3b75905e8753c722b4bb32276e5402a835b1ee8d47405810b5377040b1fnat, x17);
    let x18 = 0x4d1b0e66787cf842470b91f5fbe07dc63e18257295bfa8fc92f3a2a4340c42aanat;
    let e18 = 2 * e17;
    lemma_power_mod_square(7nat, e17, n, x17, 0x4f57bc14023ae9909ed9ea42902528b2c532353ddfb4be9efd659d484d7cb816nat, x18);
    let x19 = 0x5fa15f8646d237c4e96ed75e5024b60a72e0499b30036a13b6061dfc87a97cdnat;
    let e19 = 2 * e18;
    lemma_power_mod_square(7nat, e18, n, x18, 0x17394985aee7f5e6242a6c9438278b704e3e5cc1e4ae8eb2b2f298b952f85457nat, x19);
    let x20 = 0x995740ef1073143f335e83bbeaa10d3bb8e1d4811056cdd476ec0842d90308fdnat;
    let e20 = 2 * e19;
    lemma_power_mod_square(7nat, e19, n, x19, 0x23b92a9ef31a08cc87fc0bc6c2db4ee4df058132f2e01833d1436b39a8ba2cnat, x20);
    let x21 = 0x6c06cb19b94343838da5f7e90b9a12b32fc8f45982e8e3da65fc0a7994bcceddnat;
    let e21 = 2 * e20;
    lemma_power_mod_square(7nat, e20, n, x20, 0x5bd9695af49f23e49069e1a86d53d07c65343779537a957c11726fadc0f9c42cnat, x21);
    let x22 = 0x5d3aa4290999ad3aba0297458372c0ff5e35b3cf047945c5b3b7d8cfbbc3e4adnat;
    let e22 = 2 * e21;
    lemma_power_mod_square(7nat, e21, n, x21, 0x2d95bb8bdaa73e848bf6c88badb0b3d8a525df09657e4d4ab6ed2a5c2541a31cnat, x22);
    let x23 = 0xe14185009f5afa3187cfd28e93570285f5856b93b04006f07d9b9d014d607e50nat;
    let e23 = 2 * e22 + 1;
    lemma_power_mod_square_times(7nat, e22, n, x22, 0xeda99cf049de46a0f70d748e3705d49e3334d604b69be104a69051253de0694fnat, x23);
    let x24 = 0xcca33e4d54f044be3164ef8e59328bfb3320bd11850c5abfa6d9002634e3411cnat;
    let e24 = 2 * e23;
    lemma_power_mod_square(7nat, e23, n, x23, 0xc6343c8fe7887d93090be1e3e23a563c7a3922008b7f2b56a0085369fc64fae4nat, x24);
    let x25 = 0xc1dc060e7a91986df9879a3fbc483a898bdeab680756045992f4b5402b052f2nat;
    let e25 = 2 * e24 + 1;
    lemma_power_mod_square_times(7nat, e24, n, x24, 0x4791007b983127c32b88e9cfa2db18c29dc9c6aea2577b5245142a3a6d3ce8cfenat, x25);
    let x26 = 0x21f746adff4b86672fb091c4fcbb93ded8b21d5ed00160b0aef023030a5f94cbnat;
    let e26 = 2 * e25;
    lemma_power_mod_square(7nat, e25, n, x25, 0x92cd7e3c3dd6e0a445044375b6ad1265aa06a488c701eb2f8b6bb5af0f30b9nat, x26);
    let x27 = 0xd51c449e1d2a5199617ea4af87f406f54abc18ad16462a1029034602f7b516c9nat;
    let e27 = 2 * e26;
    lemma_power_mod_square(7nat, e26, n, x26, 0x481af125317ba444d952de2afacafeb167d78c7a95d45db055db480961c8630nat, x27);
    let x28 = 0xaffe1dab3bc8202c7d7805d79c98bbc5e8cc072799b330e4a2011b2a5a78317cnat;
    let e28 = 2 * e27;
    lemma_power_mod_square(7nat, e27, n, x27, 0xb1680d4e31832e3194b2e45b5edf7451ab809ec72f00a220f9e8040d31b01e15nat, x28);
    let x29 = 0x70ad49ae7f8574ecab641a42b3a24f22d6374023944cc665a6bcaeb0f37bbf78nat;
    let e29 = 2 * e28;
    lemma_power_mod_square(7nat, e28, n, x28, 0x78fd68cefef67b30ee6dfd4bfb02bca77ca0130dcb7d675dc6d26660ef3ab698nat, x29);
    let x30 = 0xfffffffffffffffffffffffffffffffebaaedce6af48a03bbfd25e8cd0364140nat;
    let e30 = 2 * e29;
    lemma_power_mod_square(7nat, e29, n, x29, 0x319815c55aa21c5ad376d75373c149ed13f68d0c62016822e25e8056cdf54700nat, x30);
}

proof fn lemma_power_order_over_2()
    ensures
        power_mod(7nat, 0x7fffffffffffffffffffffffffffffff5d576e7357a4501ddfe92f46681b20a0nat, 0xfffffffffffffffffffffffffffffffebaaedce6af48a03bbfd25e8cd0364141nat) == 0xfffffffffffffffffffffffffffffffebaaedce6af48a03bbfd25e8cd0364140nat,
{
    lemma_power_mod_first(7nat, 0xfffffffffffffffffffffffffffffffebaaedce6af48a03bbfd25e8cd0364141nat);
    lemma_power_order_over_2_part_0();
    lemma_power_order_over_2_part_1();
    lemma_power_order_over_2_part_2();
    lemma_power_order_over_2_part_3();
    lemma_power_order_over_2_part_4();
    lemma_power_order_over_2_part_5();
    lemma_power_order_over_2_part_6();
    lemma_power_order_over_2_part_7();
}

proof fn lemma_power_order_over_3_part_0()
    requires
        power_mod(7nat, 1nat, 0xfffffffffffffffffffffffffffffffebaaedce6af48a03bbfd25e8cd0364141nat) == 7nat,
    ensures
        power_mod(7nat, 0x155555555nat, 0xfffffffffffffffffffffffffffffffebaaedce6af48a03bbfd25e8cd0364141nat) == 0x205cdb43bf284c1b44f44b33b9349ae6194563b9d08fbaadf2c0618f135055fenat,
{
    let n = 0xfffffffffffffffffffffffffffffffebaaedce6af48a03bbfd25e8cd0364141nat;
    let e0 = 1nat;
    let x0 = 7nat;
    let x1 = 49nat;
    let e1 = 2 * e0;
    lemma_power_mod_square(7nat, e0, n, x0, 0nat, x1);
    let x2 = 16807nat;
    let e2 = 2 * e1 + 1;
    lemma_power_mod_square_times(7nat, e1, n, x1, 0nat, x2);
    let x3 = 0x10d63af1nat;
    let e3 = 2 * e2;
    lemma_power_mod_square(7nat, e2, n, x2, 0nat, x3);
    let x4 = 0x7c05a810b72a027nat;
    let e4 = 2 * e3 + 1;
    lemma_power_mod_square_times(7nat, e3, n, x3, 0nat, x4);
    let x5 = 0x3c157af0306dcb7f23e06460ecc5f1nat;
    let e5 = 2 * e4;
    lemma_power_mod_square(7nat, e4, n, x4, 0nat, x5);
    let x6 = 0x62b68801ec048e694ca024f381769f5541392b34be4839cdca181dc19a27nat;
    let e6 = 2 * e5 + 1;
    lemma_power_mod_square_times(7nat, e5, n, x5, 0nat, x6);
    let x7 = 0xb36eeb0cb68e7e6f1e0c0a393e6df15a82bbe89bc41ec7835017de25879524c2nat;
    let e7 = 2 * e6;
    lemma_power_mod_square(7nat, e6, n, x6, 0x2610424723b11e4ba554f4e2a1a88f90c959b9cf18134e18d243026fnat, x7);
    let x8 = 0xc4d778ac1104db9702faf494f0b7124bbc26ae3088ee809e9998de6a3d7ef387nat;
    let e8 = 2 * e7 + 1;
    lemma_power_mod_square_times(7nat, e7, n, x7, 0x3705e1952523b796af23e0b31d3d653cfc90753f68ca11e2c05f54557c03e9755nat, x8);
    let x9 = 0x744da84da1b7cc76ee91a8ed98f2ec41f2662a064edbd6a9d8a5876fa3e2cb6dnat;
    let e9 = 2 * e8;
    lemma_power_mod_square(7nat, e8, n, x8, 0x975aa62363f5ca0381bd9303d0c215d5d9fafabe9cd3b0cedbc1a0e7711cd0c4nat, x9);
    let x10 = 0xd2345669bdd3b528634751effd5fb0c5ddba52cd9f235bc053f95e6baf4d5044nat;
    let e10 = 2 * e9 + 1;
    lemma_power_mod_square_times(7nat, e9, n, x9, 0x171dd48933756d79ce3d533a45211c2d42651362345cef66a113b0558a43e34dbnat, x10);
    let x11 = 0x381e27e7ba29aee79a2176ced3e7cd15459d7df4af4ee6cc428431e4c3afcd6bnat;
    let e11 = 2 * e10;
    lemma_power_mod_square(7nat, e10, n, x10, 0xac99e878b38faa6f5d6d5dce241b7b4ee323fa9a2e3ad5c9854e1a2873138665nat, x11);
    let x12 = 0xc108ab16b60b2efa9ed54ddd71cb02659157485ca10ad6e696f5da5ad9c0e05dnat;
    let e12 = 2 * e11 + 1;
    lemma_power_mod_square_times(7nat, e11, n, x11, 0x561c73134dd80b5f994109e312031a06ad4ffe7b5a97cc379ec4b6715c052c32nat, x12);
    let x13 = 0xbec3406111e4b1f7f1e91d1f4a4799bc65480a2a93c931576285aa673eaf1c60nat;
    let e13 = 2 * e12;
    lemma_power_mod_square(7nat, e12, n, x12, 0x918e1243623f96bf8f4a574a721a65dd9a865f61c1fdbfc82f9ddc3f163cd229nat, x13);
    let x14 = 0x883d9e8e335384870809ab824c5371b52b8f6d38d2ebb825e7b10ed1c658abdenat;
    let e14 = 2 * e13 + 1;
    lemma_power_mod_square_times(7nat, e13, n, x13, 0x3e30cdb5e9a69da4c8e810611c888bd482df260d2edb1cd48d2bbd090b51fc5a2nat, x14);
    let x15 = 0x4e4f3b7c695ba9f4ac2836f4e3d07466dc82a1f947d1607c78d695d32ac07d5enat;
    let e15 = 2 * e14;
    lemma_power_mod_square(7nat, e14, n, x14, 0x4881874c088108f4b36c309c08febb774be8f37a20eaddf2cb4e41c018dac7a6nat, x15);
    let x16 = 0x13f5fc8814e5732bf8b35c248ec19c75103474de1d383f8491021afa4fca1b83nat;
    let e16 = 2 * e15 + 1;
    lemma_power_mod_square_times(7nat, e15, n, x15, 0xa7aea56711ac422958e9867e11ce9e91b510cfbe07046ec85838636ef73a9ad9nat, x16);
    let x17 = 0x95e4357f763b4e242bec6d8fa53b9cdd56fe2c800d374973cbc1a56bfce23289nat;
    let e17 = 2 * e16;
    lemma_power_mod_square(7nat, e16, n, x16, 0x18e6fd988ae3fc0e9523efb467b5bfae68b47df42ca76addc67449b59b79280nat, x17);
    let x18 = 0xb42ea44c8d7ba27582a5ba3daaeabf0533f904b1e202f046c48f5c2c1be8f081nat;
    let e18 = 2 * e17 + 1;
    lemma_power_mod_square_times(7nat, e17, n, x17, 0x266581bf7f8f39f1e9b88d3ac1c35231691629935ca01daf4454e18a66022a936nat, x18);
    let x19 = 0xf72aa919157f2f4846026e697cb83c2b8d3116e76fc46f6ad4eb840c962bcfbdnat;
    let e19 = 2 * e18;
    lemma_power_mod_square(7nat, e18, n, x18, 0x7ed19f8b1beae10e59b4734a85782a4a2ba51c26e381de8b49be14ced7b1fc44nat, x19);
    let x20 = 0x931ef0ee63c4fcb1f3c4205b934a5643c792128377c83e03725e19d6d38e9d8anat;
    let e20 = 2 * e19 + 1;
    lemma_power_mod_square_times(7nat, e19, n, x19, 0x6867771e847dc42b0c3310b79523f515475403c75b9cd16fe3c82b2cf3b80caf5nat, x20);
    let x21 = 0xf4e8311af2bc0014256b4808819e2d3257d2a99ecd11c1d657b44bd505c01f7nat;
    let e21 = 2 * e20;
    lemma_power_mod_square(7nat, e20, n, x20, 0x548c8c6f2133756e9a9dd6174a6b8be537a93ae9554b2cbb9510aa086c0c142dnat, x21);
    let x22 = 0x95fc55684bc072f166fa5c49647ba1468a38764c0e10ffbc3a718d1af6e10a63nat;
    let e22 = 2 * e21 + 1;
    lemma_power_mod_square_times(7nat, e21, n, x21, 0x66810116eded39c9d09883ab98b6cf8d1bf44bf511214adccd4082913b572d4nat, x22);
    let x23 = 0x9b8953f92b351e936d1e523756147eb0bbf09bbe61dacef32085532b378ad9acnat;
    let e23 = 2 * e22;
    lemma_power_mod_square(7nat, e22, n, x22, 0x57dfb423aa01957abc3e32df1c36827542f3537e2eb9b8899831ab7223c8545dnat, x23);
    let x24 = 0x47ff284e8409ee686dc07be84c097dce9bb04ae83593a3b856dff2222cae4bfnat;
    let e24 = 2 * e23 + 1;
    lemma_power_mod_square_times(7nat, e23, n, x23, 0x2957d157afde29ceb6caa4df6f5cb26416af9b2b658b085be5f544694eae77ef1nat, x24);
    let x25 = 0x4d9ca3f6400a22f1a2dc5bde3fad7d5365ee10d0c3185832fe0a9658b1c2bb4nat;
    let e25 = 2 * e24;
    lemma_power_mod_square(7nat, e24, n, x24, 0x143f86ace0012f5eb593925f0d8565fe295f74ef041fad7f8d2bcb209e2a8dnat, x25);
    let x26 = 0x4ad16dc0b7f961ad579916e4dc94b840f95bf5cb1b1f8d52870cf0782b37bdc8nat;
    let e26 = 2 * e25 + 1;
    lemma_power_mod_square_times(7nat, e25, n, x25, 0xa4b539589d959693f540e069df2eb4ce79e748d919806452d9f060b4c64e28nat, x26);
    let x27 = 0x9896dde22dcf81ad046deb7463de4c17090efc86fff284cc8b6507dcf9edf321nat;
    let e27 = 2 * e26;
    lemma_power_mod_square(7nat, e26, n, x26, 0x15ddbec7ce163f688b242664700d78c74cd2fbbdb01e3d1cb0935b24403e425fnat, x27);
    let x28 = 0x87b814aa8cec7a50cc5a0eb6aabd980dca88096c5769372a4fce7d60befcfb59nat;
    let e28 = 2 * e27 + 1;
    lemma_power_mod_square_times(7nat, e27, n, x27, 0x27ca882c5825ebc9e47641756bc77431a0143142ff2d92cc99551d4d893bb82eenat, x28);
    let x29 = 0xb6317fcb5bb3702ba2a364005e6a7f547d819c278f61080bd8f99f52e1edb36dnat;
    let e29 = 2 * e28;
    lemma_power_mod_square(7nat, e28, n, x28, 0x47f3aa2997771495766f5071677dde9afb66fc59740b3f45f82e3b5d79794c84nat, x29);
    let x30 = 0xc890cb65c3fe8cf2a4b514e4a60b14f7ed59e4b13874697e1bb8bfe152e816anat;
    let e30 = 2 * e29 + 1;
    lemma_power_mod_square_times(7nat, e29, n, x29, 0x38ba8eef33e3580f710b9d1cb85ba63e64721e6b7f0fc1efeb4ba41621f7b8335nat, x30);
    let x31 = 0x27324bb50b19c42080123c37858ba783ebc7e94132d65433225ad11604256005nat;
    let e31 = 2 * e30;
    lemma_power_mod_square(7nat, e30, n, x30, 0x9d228fb47654c7e3a2c60cdf90b6384803525f1fbc5353c6c3f53ee5b5791fnat, x31);
    let x32 = 0x205cdb43bf284c1b44f44b33b9349ae6194563b9d08fbaadf2c0618f135055fenat;
    let e32 = 2 * e31 + 1;
    lemma_power_mod_square_times(7nat, e31, n, x31, 0x2a028aa3c1705e862cdc4f6c5f6757456085a07e41d46cb4392a3a23c4a0dd71nat, x32);
}

proof fn lemma_power_order_over_3_part_1()
    requires
        power_mod(7nat, 0x155555555nat, 0xfffffffffffffffffffffffffffffffebaaedce6af48a03bbfd25e8cd0364141nat) == 0x205cdb43bf284c1b44f44b33b9349ae6194563b9d08fbaadf2c0618f135055fenat,
    ensures
        power_mod(7nat, 0x15555555555555555nat, 0xfffffffffffffffffffffffffffffffebaaedce6af48a03bbfd25e8cd0364141nat) == 0x97e1b777440a569f159730ff469c370e106c238e647d4ebbdb76ea4bc0db2a0bnat,
{
    let n = 0xfffffffffffffffffffffffffffffffebaaedce6af48a03bbfd25e8cd0364141nat;
    let e0 = 0x155555555nat;
    let x0 = 0x205cdb43bf284c1b44f44b33b9349ae6194563b9d08fbaadf2c0618f135055fenat;
    let x1 = 0x49d14e3ecaac7953f13b15c8e18d10bb12be9c69b0dabd2f82105dd3dff58793nat;
    let e1 = 2 * e0;
    lemma_power_mod_square(7nat, e0, n, x0, 0x417587f444872fa14e2488b9c0e68e32cbcd94f3906e12ca2b8dd424feee331nat, x1);
    let x2 = 0xc82a9d3ff70e37fd4534cec176dedf6b2c991fdc161748c5d7392ebd7931325enat;
    let e2 = 2 * e1 + 1;
    lemma_power_mod_square_times(7nat, e1, n, x1, 0x94ff4444a635500723fefd9b04a6e1b876bd5ec9ca1268a8f707309cbc7b9141nat, x2);
    let x3 = 0x9f2d7ce05fa4578182ca4346740090b4368125e95ebd69c5e7463fa81b73fe43nat;
    let e3 = 2 * e2;
    lemma_power_mod_square(7nat, e2, n, x2, 0x9c829ccbeb9acd291355dec1de4c944de9f11ca4d74ed2f6bbe56d33d668db01nat, x3);
    let x4 = 0x8b77508b6e7df2527c3fdc8e0610177dd96743fb7559a59eb58e77827ed6df9enat;
    let e4 = 2 * e3 + 1;
    lemma_power_mod_square_times(7nat, e3, n, x3, 0x2b4d2c06afa35487a84b07d4a6e6917d0a7506b5dacbeb1486360f8d500feade1nat, x4);
    let x5 = 0xc8755c7b2e41dca68e8c9b9d54c02b890edb18a5ebb9ddad2c7cf9065d486ab9nat;
    let e5 = 2 * e4;
    lemma_power_mod_square(7nat, e4, n, x4, 0x4bfac91364f4ef3cbf860a518a85a7e187e75e5a39546edcebabd9047da72d0bnat, x5);
    let x6 = 0xee42be20fa215321153832d2fef6a257581aca0541e892000672fefa0ccf5e99nat;
    let e6 = 2 * e5 + 1;
    lemma_power_mod_square_times(7nat, e5, n, x5, 0x44ac51c22eff7b669488458f2564fbd5ae8329b7755a8fd3951e4a78f98a387benat, x6);
    let x7 = 0x3005e14f4648eacf79922fb13b6305d629f76e4f37269fab1bd05a3c75cc510nat;
    let e7 = 2 * e6;
    lemma_power_mod_square(7nat, e6, n, x6, 0xddc02aebe74be74954a26df26753a8072cdc59d100583fbc66bec890d86c4921nat, x7);
    let x8 = 0xb480c2c30f27c862b9177a0a8ea7e756ca254b008ccceb364d05f2d30fe9c72bnat;
    let e8 = 2 * e7 + 1;
    lemma_power_mod_square_times(7nat, e7, n, x7, 0x3f0f70622043befd3b3a0daef8b4efc6e2fd71888d55d0f64132a3e05f6595nat, x8);
    let x9 = 0x7d26ec4bc68d08213e146b71f391f05c159e1085a8f52f68065b94022c20bc0nat;
    let e9 = 2 * e8;
    lemma_power_mod_square(7nat, e8, n, x8, 0x7f4552a5a48b512b9a38b1b0ae863e41299feb7565f3991a6455837000a1ce39nat, x9);
    let x10 = 0xd0e3007c1f753c949ffedb9205b262d3c6cca897c9ec97b61c7de3444c4b276anat;
    let e10 = 2 * e9 + 1;
    lemma_power_mod_square_times(7nat, e9, n, x9, 0x1ac493cbb03834a35e8ca366210a5a396696de9fdbf3ea9bf129ec3a6c96d16nat, x10);
    let x11 = 0xc02a0fc49b4ec5945adfe084bc36e5a4fe89dcbc5867117aefbcfc7d2f929193nat;
    let e11 = 2 * e10;
    lemma_power_mod_square(7nat, e10, n, x10, 0xaa71aa138f3e888971022d1e1a0ca9d4ae7a7f49ef2f5dade5fe1bdfde9b5111nat, x11);
    let x12 = 0x947a9f48ddd243ccce6ca1914f3791b7785e146d18e84a59499681af06c4c89nat;
    let e12 = 2 * e11 + 1;
    lemma_power_mod_square_times(7nat, e11, n, x11, 0x3f1b9d5f09d1c3bdd70e450d9a18d277e8bd2a4e82f3d7df0a5a968d6da3c20d6nat, x12);
    let x13 = 0x6ca226c2026ccba036bea675ddf1cb32b3c6cc3fc9d00ec8f80bbf70162af925nat;
    let e13 = 2 * e12;
    lemma_power_mod_square(7nat, e12, n, x12, 0x561e02e8750a231624959bbbfa4434ab7f113eee976bea4078b9c60afe312cnat, x13);
    let x14 = 0xe1c31c5dfa13ef327912144ef7332db2de680b9736d5b9daff06c4a0af755dacnat;
    let e14 = 2 * e13 + 1;
    lemma_power_mod_square_times(7nat, e13, n, x13, 0x142b083dd663340c6144d7ba881b5ebde5725a1a133e93cfc87458a97c0c25a03nat, x14);
    let x15 = 0xc7514e9baa0d7e42850ce43f1b3f0560f3b43db816c0a03665ff0a679492bcc2nat;
    let e15 = 2 * e14;
    lemma_power_mod_square(7nat, e14, n, x14, 0xc7188c916be6b60922cfff219fdd261c58676fc0b8ed4ac5eb299158e2b38d4enat, x15);
    let x16 = 0x41a5128335babd8f4b5ee3ea534e5aecae14c377287e69e1d071d7098d02eb48nat;
    let e16 = 2 * e15 + 1;
    lemma_power_mod_square_times(7nat, e15, n, x15, 0x43e4c8e3def28b7ca524d21458717bfce04be6c350f0d3d13bc7467bcac3da0d4nat, x16);
    let x17 = 0xace889bff34fba6a1dca4849a69574e6d4572c927f2b16d0cf14bd7d215106f2nat;
    let e17 = 2 * e16;
    lemma_power_mod_square(7nat, e16, n, x16, 0x10d53dd77fc2cdc96a0a5a049b5318775f983109e27a3a6f3744282fc329fbcenat, x17);
    let x18 = 0xf310e04f603defe5583fa6c5c2b2041396de99a0f9cf73f8b8046f146ab56f6dnat;
    let e18 = 2 * e17 + 1;
    lemma_power_mod_square_times(7nat, e17, n, x17, 0x33181164b42de056d6ac4131ce669aeb9b1eabe9e11b6a0944481cbcc0e837f2fnat, x18);
    let x19 = 0xd35824033f5a5a8dc9ae051d4f2137e7fa9117f644a8ddbb1ed9b6b0d0d34fdenat;
    let e19 = 2 * e18;
    lemma_power_mod_square(7nat, e18, n, x18, 0xe6c90af37f2c9e34506dcb7459c3206c2f1a5d762f69f7f4659702ebfbd926cbnat, x19);
    let x20 = 0x5ffb94f03efdd49caca25e830d28ebd4f59a2c9536604956ea6140f40b04f349nat;
    let e20 = 2 * e19 + 1;
    lemma_power_mod_square_times(7nat, e19, n, x19, 0x4c558e3faec1fe0bf9865c80593aede1173619ffa4e4a5e293ff6e3b8de79f493nat, x20);
    let x21 = 0xea9cd626dca4fb4e5f82cf55fc3190748da9d44f2ef922728ea7bc513414c02anat;
    let e21 = 2 * e20;
    lemma_power_mod_square(7nat, e20, n, x20, 0x23fcafc7b48293d6dc9ec493d858a6bcbd44505925c8b7314bf29ee875b6c9e7nat, x21);
    let x22 = 0xcf66000de7cf172553c3cc38fbcad2e5dc03c66d922552cd09cf68271b1c5d4anat;
    let e22 = 2 * e21 + 1;
    lemma_power_mod_square_times(7nat, e21, n, x21, 0x5e115a511311c96f569fc15aa1e14d44b8834e4baa8476ee057910da988eec472nat, x22);
    let x23 = 0xaed12aafaa9d8617202bc0160022328b8bcd432166394a2ac7f911e770328e19nat;
    let e23 = 2 * e22;
    lemma_power_mod_square(7nat, e22, n, x22, 0xa8061cba87f5a1362c252161341df02bcc5ae931d57a42119596e00be0029d8bnat, x23);
    let x24 = 0x9e9cd32112ff75c96c603394a869bd60ebef647bb54aa403b047652ce4cf4a32nat;
    let e24 = 2 * e23 + 1;
    lemma_power_mod_square_times(7nat, e23, n, x23, 0x343a7067ea925cc136df38c3469ec468583a9e9d010b6f88ba8e859e705dfdca5nat, x24);
    let x25 = 0xaa6cbbfc6f3bde00b1a72cab0533c69e1371962436bb0db8c501d6ce1326a4c9nat;
    let e25 = 2 * e24;
    lemma_power_mod_square(7nat, e24, n, x24, 0x6245f4aed1e2065332b226fb13994b079d9c2b486f58152213dc6d717a11833bnat, x25);
    let x26 = 0x98c6a8a604fed5f671334fffe0ddbd15c49125f88699611b3ebf7184a67afae4nat;
    let e26 = 2 * e25 + 1;
    lemma_power_mod_square_times(7nat, e25, n, x25, 0x31a3026f8eb5ce57e2768d49e756b0bcb110302160fb9a0b25ff19c7ff50db613nat, x26);
    let x27 = 0x3c188436604a61f1e98bbf9b80446638b822e50b1239afebec44555ec6ebb82nat;
    let e27 = 2 * e26;
    lemma_power_mod_square(7nat, e26, n, x26, 0x5b2c826e75d8aa80930deeeabdc900755547a7ccce71ae1a7ead876d2b6a4e0enat, x27);
    let x28 = 0xab72e4fcd26f45563cdea46f5c89bd46e707c26a8cc07d4cd6df3a97d6ea39cnat;
    let e28 = 2 * e27 + 1;
    lemma_power_mod_square_times(7nat, e27, n, x27, 0x62c08241d14b4af4a00fb9efa8407ae7506b5cbf2662def75893f4e27d7e80nat, x28);
    let x29 = 0xee918d2d92a116c37362447d4ca6273b5348cca172cee283e6ff990e040980f7nat;
    let e29 = 2 * e28;
    lemma_power_mod_square(7nat, e28, n, x28, 0x72d2b17a7f1f624021ac824a53762e53ab1ecaddadefb1d6f971da13f5b6d9nat, x29);
    let x30 = 0xebbed74d30b670c1ccb502429fd3bb21c62fa7457e175f6e3a4e353d12383c3cnat;
    let e30 = 2 * e29 + 1;
    lemma_power_mod_square_times(7nat, e29, n, x29, 0x61444b4cdc8d8071ab58210afab7cdf07611516e20904204d8ac3093c16b2be3bnat, x30);
    let x31 = 0x20c0cf50a3aa83203d553f20bf16e2befecba71fe74494bea01867f816754c80nat;
    let e31 = 2 * e30;
    lemma_power_mod_square(7nat, e30, n, x30, 0xd917ed8c031600ebf5ea75900d00547186d27f132b0c999323e81139edc9ed90nat, x31);
    let x32 = 0x97e1b777440a569f159730ff469c370e106c238e647d4ebbdb76ea4bc0db2a0bnat;
    let e32 = 2 * e31 + 1;
    lemma_power_mod_square_times(7nat, e31, n, x31, 0x1d5563528459726864abe0c9c86d8ca18db2597f96ee98f0bb1cddc15aaeb3b5nat, x32);
}

proof fn lemma_power_order_over_3_part_2()
    requires
        power_mod(7nat, 0x15555555555555555nat, 0xfffffffffffffffffffffffffffffffebaaedce6af48a03bbfd25e8cd0364141nat) == 0x97e1b777440a569f159730ff469c370e106c238e647d4ebbdb76ea4bc0db2a0bnat,
    ensures
        power_mod(7nat, 0x1555555555555555555555555nat, 0xfffffffffffffffffffffffffffffffebaaedce6af48a03bbfd25e8cd0364141nat) == 0x77ea13e32a6241658b7a279f881dc639a6819b6505c31c7bd392ba9e369b1a24nat,
{
    let n = 0xfffffffffffffffffffffffffffffffebaaedce6af48a03bbfd25e8cd0364141nat;
    let e0 = 0x15555555555555555nat;
    let x0 = 0x97e1b777440a569f159730ff469c370e106c238e647d4ebbdb76ea4bc0db2a0bnat;
    let x1 = 0x9de6e019f45e683ae286b64f2cbbd90fc4cf8c5d7928784ce585218a0299e91cnat;
    let e1 = 2 * e0;
    lemma_power_mod_square(7nat, e0, n, x0, 0x5a1c0d72b56587330aa5c6c4e5d83307a68cf03723c1ea1ec4554f3095c78f1dnat, x1);
    let x2 = 0xad8e6f772e9ba3abff9944c3baff1ad579804af5966aa6e96e9f91ab6654b047nat;
    let e2 = 2 * e1 + 1;
    lemma_power_mod_square_times(7nat, e1, n, x1, 0x2a9c2f9a2fbd64a50905a71b389e3fd13238e106236239f1a1556b1f0230289e9nat, x2);
    let x3 = 0xa219f079e223148285c0351c3beab94aafdbe595cd3ef23aba4b4dc4cfd1df38nat;
    let e3 = 2 * e2;
    lemma_power_mod_square(7nat, e2, n, x2, 0x75a9d1e6edbea1c75f6253f8c8c6fac432be12bbd2669104041190e44b030d39nat, x3);
    let x4 = 0x82e8520d654ec5e8ffa43c61138fba7244a50a5ad247b08de878bccf8b412183nat;
    let e4 = 2 * e3 + 1;
    lemma_power_mod_square_times(7nat, e3, n, x3, 0x2ce81e0ddc35343ebab06399e00c7962970a2b52b20ec5c87e30b48622d81e7fdnat, x4);
    let x5 = 0x489e5076301a85c22d13220d0b36b8f1ee6f276021d03442a10f04774a159ee7nat;
    let e5 = 2 * e4;
    lemma_power_mod_square(7nat, e4, n, x4, 0x42f0c62a6d78356142d2c4d641e18d7ee469d6951088ab409ddaf66cf3875fa2nat, x5);
    let x6 = 0xd80b2881af07bfcab959d7a89ec6aaabcda5d8ad642c102edc6cedc5fc4bada8nat;
    let e6 = 2 * e5 + 1;
    lemma_power_mod_square_times(7nat, e5, n, x5, 0x90320a254ba6a43f06e72ffdf8eed5b562f8e35efc6a5f11e78c4466e175e6afnat, x6);
    let x7 = 0x5444f31f01c0f97aff05e324b2fe310559c1355efc9eb390050c7993732a4989nat;
    let e7 = 2 * e6;
    lemma_power_mod_square(7nat, e6, n, x6, 0xb652d4d758eae6b4dd9dc6532a8c0783031f652cfea37857ee6befe763da7ff7nat, x7);
    let x8 = 0xfc9bc4fbde469d4dfc0152bf7a7d91d11867389e3fbfddca8f27c591f0025179nat;
    let e8 = 2 * e7 + 1;
    lemma_power_mod_square_times(7nat, e7, n, x7, 0xc22d3ed4db982745318064c4c685a3ecdd2629a80b57b50ff594bb8bbe1dd03enat, x8);
    let x9 = 0x5735a53e0a20a99a444ec1181c680afc6f044fc28220d17fae108c4e758f6ed7nat;
    let e9 = 2 * e8;
    lemma_power_mod_square(7nat, e8, n, x8, 0xf9430a97fe2cd35dc4e8319f06b3dd467b0a029af910dfa0087459fa66010bdanat, x9);
    let x10 = 0xbf6ef0860c7952feb7a6406ff02a33c4cce6f96a553a6b6a5f093df07d65111bnat;
    let e10 = 2 * e9 + 1;
    lemma_power_mod_square_times(7nat, e9, n, x9, 0xcff68ae2089ffa3ca213bc52de4d895fc93874d18393021f9fa0c0349f8667dcnat, x10);
    let x11 = 0x9c1c5f4d643fbcb84a5167eca986a263177c3e766480791d278c963253fd1cf6nat;
    let e11 = 2 * e10;
    lemma_power_mod_square(7nat, e10, n, x10, 0x8f26bafb9bcb5faff42bfb4dd458114e454d27f84ccbcc43f074012c82d69023nat, x11);
    let x12 = 0x8eb43c2f6efcb319bb544de94aafeedcf4341ffa2c51ab75f920eb0df861e54dnat;
    let e12 = 2 * e11 + 1;
    lemma_power_mod_square_times(7nat, e11, n, x11, 0x29a62230f261afa368ddf6c8ae096f068569dbf6065e4e01ad57af0f435ab26afnat, x12);
    let x13 = 0xd8f9fd9733ff67d3d2a4317766eca1c14a48ef999d2de6900c0b273a50a497a6nat;
    let e13 = 2 * e12;
    lemma_power_mod_square(7nat, e12, n, x12, 0x4f8c71a94ffaaedcccdceb99e1586a8d3342fe4164bb08db7fa82b2919244dc3nat, x13);
    let x14 = 0x1b20ae65839a156546dcf181d75f75e13e63a56af767b26e13c424822bcc73bcnat;
    let e14 = 2 * e13 + 1;
    lemma_power_mod_square_times(7nat, e13, n, x13, 0x5074fb065259c84f27234570e1433a2264a3290eac687f38f9eda9acbb2c819c0nat, x14);
    let x15 = 0x1239f5661cfd7f71460af6e8ba2da59694a8073a5738b651a287ca7477b994c7nat;
    let e15 = 2 * e14;
    lemma_power_mod_square(7nat, e14, n, x14, 0x2dfe8f579f18e2f4695ef0f6cb032a364e74060c9d15bd8d61d558b2d3a1209nat, x15);
    let x16 = 0x1316f6eaefb4f51f84327ae561c2871cd655b0ebde359ebbcfd4983f1811f67cnat;
    let e16 = 2 * e15 + 1;
    lemma_power_mod_square_times(7nat, e15, n, x15, 0x915696ae7802d310a98bdd5d6afbf11aa5d17520c1b3e695c2e99eee000ea9bnat, x16);
    let x17 = 0x6a6ef0427cd0f8299477c3a71e0ebe2b01482151c9ff358df67016074e177aa6nat;
    let e17 = 2 * e16;
    lemma_power_mod_square(7nat, e16, n, x16, 0x16c6ab63e1e6bc7ad6648345446b0151cb2adcdad3ef645ec4fc4076d946ceanat, x17);
    let x18 = 0x7d473ddc710c0a7bcd3b1d5a020dfa395aa067fcc60c5aa3d06f731d14cafabcnat;
    let e18 = 2 * e17 + 1;
    lemma_power_mod_square_times(7nat, e17, n, x17, 0x135c06948e5eb56bcc8269240e77ef6ba2a841685ca147f1cb39a4b173dd10ec0nat, x18);
    let x19 = 0x86e422376caa0d38bb0838739cda55e71010fb6ca3772d1feea0045a9c04d8eanat;
    let e19 = 2 * e18;
    lemma_power_mod_square(7nat, e18, n, x18, 0x3d4ea63ca59f429cf2b437dd5ebd7726fd601925ff919a2c1a965dbe26ab51a6nat, x19);
    let x20 = 0x25d79cc3189aee28dba2b1b9a2c25ead096fa05c4e7d360add48abbe98eb96c5nat;
    let e20 = 2 * e19 + 1;
    lemma_power_mod_square_times(7nat, e19, n, x19, 0x1f18959d8eb647343e0e50162f3878e169a8fc8c00aa87bff5d27a3d9eef17db7nat, x20);
    let x21 = 0x9945c1266f7722729d4e4ceda47b48544c4901b35efb6525426a4675d34cb6cbnat;
    let e21 = 2 * e20;
    lemma_power_mod_square(7nat, e20, n, x20, 0x59808e914ce77bf28c3fafe213750fc6d93c1dd2ac12a61e11fc942d6031b4enat, x21);
    let x22 = 0x549657a346b439ceb0c8b6c2e5734be1a434c1ea59adc3a7f6b40b1dfa9c0cb8nat;
    let e22 = 2 * e21 + 1;
    lemma_power_mod_square_times(7nat, e21, n, x21, 0x2825f2b2b6bcc42a76197bed512e1d68a9d1b5cf1e90f34cb19dc378add4d6957nat, x22);
    let x23 = 0xaef533e8af81e856c4870729441c272cbcb9c32a3dff218524158f791cd6827fnat;
    let e23 = 2 * e22;
    lemma_power_mod_square(7nat, e22, n, x22, 0x1bf301cdf7bd8354fe8e0b01ff2dd0dba824a52dd1e3bd709365c57af53c6081nat, x23);
    let x24 = 0x26663d92e7fb2e79e3e51f62ea14d0eb34c9feeed26372dc054412e79a65ca09nat;
    let e24 = 2 * e23 + 1;
    lemma_power_mod_square_times(7nat, e23, n, x23, 0x344ffadf8ef5d6f5efd1be54ee726c7f0704c669675bad2f426a6b4511a04757enat, x24);
    let x25 = 0xb595333a11c1a1672b58648c8fcaa561e46b555847cc293deccf26f0529a5bc0nat;
    let e25 = 2 * e24;
    lemma_power_mod_square(7nat, e24, n, x24, 0x5c2831cbcbec4d059a7fddda75a10dce0e22015274d352b33735a8b26b77351nat, x25);
    let x26 = 0x9fc2bd11e6a0dbe8637083b862e6cf216cbd5f5d78a2a1155a9bb84a55544c0fnat;
    let e26 = 2 * e25 + 1;
    lemma_power_mod_square_times(7nat, e25, n, x25, 0x3859639c17eb0a526ccacdcebef06b44dea3e80ef06a18719d7a95172df6f86b1nat, x26);
    let x27 = 0xd09976d022bbde7da8a1c0fe27c8446c485b44dbc510c6e46695ab3bca095e9bnat;
    let e27 = 2 * e26;
    lemma_power_mod_square(7nat, e26, n, x26, 0x63b37aff5740ccc1ed94421137d2420ebf0c28877354ee5bd3d9aa26c8ba92c6nat, x27);
    let x28 = 0x1a1eef802bd7c63b2e3515c4e34b45159dcfe6c35020c3bd5a99377774eb8d3nat;
    let e28 = 2 * e27 + 1;
    lemma_power_mod_square_times(7nat, e27, n, x27, 0x4a5d42b7a2e9b63748f5bbd1314a0d7d5d01f263941f98368d93b02a521b6411cnat, x28);
    let x29 = 0xf38cc6c0d4113bc4f13d7bc8d235330d1db988bc84522ae4c9910021c26b976cnat;
    let e29 = 2 * e28;
    lemma_power_mod_square(7nat, e28, n, x28, 0x2aa4c630b02acdf3eac8ac8de79009996527dec7f0125fb1c9afbd53a5a3dnat, x29);
    let x30 = 0xb5f5f5f5b816f8dab7c495ee1a673763eb556f96fb73a9c3e2e4f11d0d33d845nat;
    let e30 = 2 * e29 + 1;
    lemma_power_mod_square_times(7nat, e29, n, x29, 0x655efe7246eac993ae78dfadb789651c42f778fd7730f38f06fdfe41ae07c58ebnat, x30);
    let x31 = 0x46af3713f2bc48eccbeb2f36c3435540c8401c3115999ac625246815bf239fafnat;
    let e31 = 2 * e30;
    lemma_power_mod_square(7nat, e30, n, x30, 0x8155ba1e2af31613732bb875cfffe2667a0f9583331293f9a20b821e58225e6anat, x31);
    let x32 = 0x77ea13e32a6241658b7a279f881dc639a6819b6505c31c7bd392ba9e369b1a24nat;
    let e32 = 2 * e31 + 1;
    lemma_power_mod_square_times(7nat, e31, n, x31, 0x889e064ecd14e0183cef8368f2afb1fa7610b296d1e85cdd3d7058d5b9113583nat, x32);
}

proof fn lemma_power_order_over_3_part_3()
    requires
        power_mod(7nat, 0x1555555555555555555555555nat, 0xfffffffffffffffffffffffffffffffebaaedce6af48a03bbfd25e8cd0364141nat) == 0x77ea13e32a6241658b7a279f881dc639a6819b6505c31c7bd392ba9e369b1a24nat,
    ensures
        power_mod(7nat, 0x155555555555555555555555555555553nat, 0xfffffffffffffffffffffffffffffffebaaedce6af48a03bbfd25e8cd0364141nat) == 0x49bd510bb841fab10bde4ad58024331c3e4d55bf9b5cec602b01e9b7cca93c5bnat,
{
    let n = 0xfffffffffffffffffffffffffffffffebaaedce6af48a03bbfd25e8cd0364141nat;
    let e0 = 0x1555555555555555555555555nat;
    let x0 = 0x77ea13e32a6241658b7a279f881dc639a6819b6505c31c7bd392ba9e369b1a24nat;
    let x1 = 0x4b292e297b2f9f2b2329496f3fe17dec2cd85fb5e0eac227107e39054ada3418nat;
    let e1 = 2 * e0;
    lemma_power_mod_square(7nat, e0, n, x0, 0x382b74858e3c564abc47fc1bb0ec0f7a231a18e5ae99529735201e0329956af8nat, x1);
    let x2 = 0x11499f0beee072f346b8308e4b05ad5fc0dd5d0f95cf3f24ad5f050a1cb0eb9nat;
    let e2 = 2 * e1 + 1;
    lemma_power_mod_square_times(7nat, e1, n, x1, 0x9a7815b4de88108e710f279ca2e500ec2d391fa90d703b37faaa55e36f8b2847nat, x2);
    let x3 = 0x2c7485fbd1a00b7221235c74babb8b77df7adb22f1bafebc0328b565f5f8555anat;
    let e3 = 2 * e2;
    lemma_power_mod_square(7nat, e2, n, x2, 0x12adc4bad57de8f131cf8c52c1a467806850522063cf58a483a96628b2f97nat, x3);
    let x4 = 0x120578534d46a303a165f3ac8ee1b5f38cccaf8e37fbc4ac56610e241be6f4d8nat;
    let e4 = 2 * e3 + 1;
    lemma_power_mod_square_times(7nat, e3, n, x3, 0x3609d5a9d0c047766f6b87a418a92a11e9664e8e490a7ff34f6d78de8b84b7a4nat, x4);
    let x5 = 0x46aa4d8af523b81abcea0c275e687b475f80328369aa279eb6473cc062d4fcaanat;
    let e5 = 2 * e4;
    lemma_power_mod_square(7nat, e4, n, x4, 0x144c509a2ad273c4ccb5177c244522bb0a211ac2c113e435dbabef62cd85e16nat, x5);
    let x6 = 0x46cb2e04c3610850e2857a3559ded8a18474f1266d14c1e36099538f766fc00bnat;
    let e6 = 2 * e5 + 1;
    lemma_power_mod_square_times(7nat, e5, n, x5, 0x888b09e57eb5f91ad1c3ff543a0dc342bb7f7ec2609445df7d6c86f59c20b8f1nat, x6);
    let x7 = 0x29daa8c35c2db232ac43edc29c8d98a2005c51159f0f8b932c580575698e1f76nat;
    let e7 = 2 * e6;
    lemma_power_mod_square(7nat, e6, n, x6, 0x1393be6c9eaca2bcfb4a89e690818ce57920dc66a4d1765d820f7559b9490d43nat, x7);
    let x8 = 0x4d201254e2cc10271d9560d323a1bd9986aedbf2530cdc3b12cf092020ca8006nat;
    let e8 = 2 * e7 + 1;
    lemma_power_mod_square_times(7nat, e7, n, x7, 0x2fe661c10c8458d0cf3409a9ebac9e83418db0f34b9f5065c6c40d9be4660536nat, x8);
    let x9 = 0x8a3ce86595d1c5235f76e271b5e3b80d4fb67e103dcd5d18be2d6d9a04fa8386nat;
    let e9 = 2 * e8;
    lemma_power_mod_square(7nat, e8, n, x8, 0x173c4f0ba6f780c5e2b04a9a73753ec3ce2f3dc216d6436631201697108b171enat, x9);
    let x10 = 0x7e79d56f6398a54ab086b1e9d1afc18af696b5dcb0bfe5bc066918a81b228665nat;
    let e10 = 2 * e9 + 1;
    lemma_power_mod_square_times(7nat, e9, n, x9, 0x20a880f4ef8c8ab18301f1f356e54eab30e59c3d35a5dffd31e0587b3044dd3d7nat, x10);
    let x11 = 0x6268cc84597435c56ae52b0b795d2747b72a7193cd57e4cefec1396ebb7d13dcnat;
    let e11 = 2 * e10;
    lemma_power_mod_square(7nat, e10, n, x10, 0x3e7c28151b48f5354e8c81d80a41c542a4c2a673c1234d589064505adf7ae3bdnat, x11);
    let x12 = 0x38b0434c40f0deb79c4d021c8156b703d1c7b80c656d11505c52d0d38ecc555anat;
    let e12 = 2 * e11 + 1;
    lemma_power_mod_square_times(7nat, e11, n, x11, 0x108ced464f7ddfa0eed48d2bae7ed1fef6657b9b435bf5191e15bfde6e2fbb296nat, x12);
    let x13 = 0xea6ecc5dcaec1dfa32a98c82e960c2c1792629aafa1997317ee98d7d6f3c3673nat;
    let e13 = 2 * e12;
    lemma_power_mod_square(7nat, e12, n, x12, 0xc8d96cdf6f3ad5744ea45a2a4ca7c262b927d17c3a9fc45ed115a1f7bb67ff1nat, x13);
    let x14 = 0x51647db22e06bb3df54e561977499e3fc4edc1a605721519dcfc842c007f6ad6nat;
    let e14 = 2 * e13 + 1;
    lemma_power_mod_square_times(7nat, e13, n, x13, 0x5dec72eee1b059467b6ac81589d44984ac77d8e713955212f8a9c104599b5ef89nat, x14);
    let x15 = 0x5a21040f4e4f5a7754f3bd38dc6596db39ed8dd6d7cba6acd0cc6ed778a97141nat;
    let e15 = 2 * e14;
    lemma_power_mod_square(7nat, e14, n, x14, 0x19e0befd320bb4b61a2086de96699b8c587a7ce8999793a6fb0a030052705de3nat, x15);
    let x16 = 0x7591d234df0e75f9bd04e3d805041d61df611e30e3c08d5ccd55162a334f43fcnat;
    let e16 = 2 * e15 + 1;
    lemma_power_mod_square_times(7nat, e15, n, x15, 0xde1e9dc9a9814401da0c71c0186cfe5fb2018eafca4c764ae5f77ff87f2b5fcbnat, x16);
    let x17 = 0xb57556e09bf3c1ee147da6da423c3c6512b5ea2bb010a19baa6841b8c663264dnat;
    let e17 = 2 * e16;
    lemma_power_mod_square(7nat, e16, n, x16, 0x35fe9d342062af17057671b89413d564c9404d5d293705b434a5dc1fdb7c7603nat, x17);
    let x18 = 0xf9f1aac21f04c6b5b05649e68fdba7606a17f78909521fba1e0af735f6191429nat;
    let e18 = 2 * e17 + 1;
    lemma_power_mod_square_times(7nat, e17, n, x17, 0x38459f26ef7366c34e74dccf84005ccbc67e26535f2c5138c9e4653cca6e5fe76nat, x18);
    let x19 = 0x169f2424c0483a8d36210800c18b28e6d620e68b3f47bc8a29fc459da8d9a48nat;
    let e19 = 2 * e18;
    lemma_power_mod_square(7nat, e18, n, x18, 0xf408025093bc15f0f2068002558255fe1f13394810967927f940f08d9fc74909nat, x19);
    let x20 = 0x7a4244d45853e422e2e9050e220dec847a25577063f2830206f38a4c7c218bc0nat;
    let e20 = 2 * e19 + 1;
    lemma_power_mod_square_times(7nat, e19, n, x19, 0xdfe2bfda29f59fbb970a6ddba5596cf607b9f44e3457db2a896cb2ecee200nat, x20);
    let x21 = 0x827170825798809652e55f0d811116c2efc8ddd67e7d40209fef64db99a0cd22nat;
    let e21 = 2 * e20;
    lemma_power_mod_square(7nat, e20, n, x20, 0x3a633ac1f42effc1dce143a1664c359f6e3d96f8f5d7075403f982b36cad0d5enat, x21);
    let x22 = 0x182d7776ef5af09a79dae8cd96301262eb7a436cba91821ad7e9a193e46aefe7nat;
    let e22 = 2 * e21 + 1;
    lemma_power_mod_square_times(7nat, e21, n, x21, 0x1d143dbbe4659aba8fbe4ed6180029f07d0ace2a42b2b68ab295c13f6a1ca4975nat, x22);
    let x23 = 0x865092b4e6d574f6e8a55cf1272c6ace447091fd970fbb24947118038397fb4dnat;
    let e23 = 2 * e22;
    lemma_power_mod_square(7nat, e22, n, x22, 0x2488e798470fcdda0783bdcbcf3fdcd041b0e3a74d741301a8b50f5900b7a24nat, x23);
    let x24 = 0xfe2a1c0d422a8bf7022a4f11e44a8fcb4f445bb62a2ae35fbdff574a04a3b4efnat;
    let e24 = 2 * e23 + 1;
    lemma_power_mod_square_times(7nat, e23, n, x23, 0x1ed4b2499cf8a04e7612e29acd06bfdbc08d18397051c666eef13a68eca7ee330nat, x24);
    let x25 = 0x521c868d4b851719ea139547e76eeaa2d6ba0e16c949b17815f8447e19acedd7nat;
    let e25 = 2 * e24;
    lemma_power_mod_square(7nat, e24, n, x24, 0xfc57969786b90add2d62e196832b80e7aacff62c5b9cd59a9a8418e4ed4f8ccanat, x25);
    let x26 = 0x215005381e8aae00a5b265be5d646b5d636ca6b831d00e16689afdcd6bf38c7anat;
    let e26 = 2 * e25 + 1;
    lemma_power_mod_square_times(7nat, e25, n, x25, 0xb85c01a1960e06b4d2db0dacdc0c51f8063c5f0f77fa80c116a00a220fc0313dnat, x26);
    let x27 = 0xc16d29421b5607398652634a96af4ce511f022dc74fe334528eb62a5907d0072nat;
    let e27 = 2 * e26;
    lemma_power_mod_square(7nat, e26, n, x26, 0x455ba5bbb0e1507b63c806456e18acd38516ecb2f364bb07546587bb1262b32nat, x27);
    let x28 = 0x14d2d44accb0bdee2ae307f891bbc149b0b32afcb5c1a4b6e037ef2b52e564d5nat;
    let e28 = 2 * e27 + 1;
    lemma_power_mod_square_times(7nat, e27, n, x27, 0x3ff086f4cdb20a3d9dbc422ef995ad7a66d72ab0c8cfa361a2e8b525a6cb505c7nat, x28);
    let x29 = 0x7ce5a63d264ccb44cc2ae8e6241e70d6060d2f6b82dc4a6c4fef778909ab239dnat;
    let e29 = 2 * e28;
    lemma_power_mod_square(7nat, e28, n, x28, 0x1b19eccaabf688485dc432a03c71115f879777f8f3c64e3556ba5f231efb29cnat, x29);
    let x30 = 0x964f0ae236dea35287f31e919cb0b7681d3b730b4aa69f2961ea2b12b8007152nat;
    let e30 = 2 * e29;
    lemma_power_mod_square(7nat, e29, n, x29, 0x3cef470e127446952ccfd1565013b531f565a222180779e1a88d191bde3bd837nat, x30);
    let x31 = 0xd2d75846ddf77fe339c51651d70ba3545155704ef321a5245b5977062bee804dnat;
    let e31 = 2 * e30 + 1;
    lemma_power_mod_square_times(7nat, e30, n, x30, 0x269c5101db2a88ee2d914272b28c9e95cadb42588b360b92c261c79eebbd930cfnat, x31);
    let x32 = 0x49bd510bb841fab10bde4ad58024331c3e4d55bf9b5cec602b01e9b7cca93c5bnat;
    let e32 = 2 * e31 + 1;
    lemma_power_mod_square_times(7nat, e31, n, x31, 0x4bf8a0dd3a379ce4d4b40921e688c69cbf2227fde2c9f20124a301a0c579070c4nat, x32);
}

proof fn lemma_power_order_over_3_part_4()
    requires
        power_mod(7nat, 0x155555555555555555555555555555553nat, 0xfffffffffffffffffffffffffffffffebaaedce6af48a03bbfd25e8cd0364141nat) == 0x49bd510bb841fab10bde4ad58024331c3e4d55bf9b5cec602b01e9b7cca93c5bnat,
    ensures
        power_mod(7nat, 0x155555555555555555555555555555553a393d133nat, 0xfffffffffffffffffffffffffffffffebaaedce6af48a03bbfd25e8cd0364141nat) == 0x71e44df60f2eb80f638ba1c8a011016fda96aa58162eb827deafcc2f6d9b02a8nat,
{
    let n = 0xfffffffffffffffffffffffffffffffebaaedce6af48a03bbfd25e8cd0364141nat;
    let e0 = 0x155555555555555555555555555555553nat;
    let x0 = 0x49bd510bb841fab10bde4ad58024331c3e4d55bf9b5cec602b01e9b7cca93c5bnat;
    let x1 = 0x1f5f45c0898e38e65e4ec2d803bc4807893f0dcfa8601c7602e5b41bf0585cf8nat;
    let e1 = 2 * e0 + 1;
    lemma_power_mod_square_times(7nat, e0, n, x0, 0x94ae9d922c54ceb9abd78d0c02baa4d29cce6e0100c527fef11d395bed6e78b7nat, x1);
    let x2 = 0xa95b7a945ac0ebf82ed574b318f0d63104d7ce97e01b758f87040f9a8868f3bbnat;
    let e2 = 2 * e1;
    lemma_power_mod_square(7nat, e1, n, x1, 0x3d836597937e44b4fbc21f2958d99b3d01e297122a5322a454a9cb559cb2645nat, x2);
    let x3 = 0x31a270ed37dd6fa2ccb6b1101c8832118b4112a8563e2c8a251fece15cf508c1nat;
    let e3 = 2 * e2 + 1;
    lemma_power_mod_square_times(7nat, e2, n, x2, 0x310455bb9bfead044a2f91b266108e7e911af6b52b90906af4c6c4663261557eenat, x3);
    let x4 = 0x81cfabf3f77bf57b89f3afaf6ee2a567e01b6803fb8aa25fa4edd52ae6ee0737nat;
    let e4 = 2 * e3;
    lemma_power_mod_square(7nat, e3, n, x3, 0x99f964ded6de5afda4913110c3cb8e6ec4562d435e46b3a27e00e41a4a4ddcanat, x4);
    let x5 = 0x7edec230100b4cfdde74fc909b7b0f6874b2f19e41f8ff1b2a1a5702243f819cnat;
    let e5 = 2 * e4;
    lemma_power_mod_square(7nat, e4, n, x4, 0x41d2f3c36774fcfcdd5831b2911a21437011bfc75ebf8f6b3e4429f45dfcd9f5nat, x5);
    let x6 = 0xd0700afa93e24707ae1b9cee82907eab43a19c7820bdec57d6d7df9bf1f8cf35nat;
    let e6 = 2 * e5;
    lemma_power_mod_square(7nat, e5, n, x5, 0x3ee008fcae73d4ba95380a008f4c23f15fcde94db8eaf0663d7cdfb49475661bnat, x6);
    let x7 = 0xba47e7a2a32af1c8aeaa7c320dc5ec7ee9cbc6920ea3addc119d60c074605c1dnat;
    let e7 = 2 * e6 + 1;
    lemma_power_mod_square_times(7nat, e6, n, x6, 0x4a3fbd42594436fae59ff597fe7edfeb308fb8ea8e6250c42d5c511dad1df2c32nat, x7);
    let x8 = 0x9ff03f140515e40031849ac468984c38d69525af32c0d50df5258d1e543df4bdnat;
    let e8 = 2 * e7 + 1;
    lemma_power_mod_square_times(7nat, e7, n, x7, 0x3b4d7f58a7456c4ad08c19768fe347b805543565b5aa90a8686951d54fad9d7c2nat, x8);
    let x9 = 0xc0e5e3e6284a7f71b0c416e9dbdde96fe27417e83dd7d40dd51c2f65c50127banat;
    let e9 = 2 * e8 + 1;
    lemma_power_mod_square_times(7nat, e8, n, x8, 0x2bb762eb867c71c552d4c0a72a0d096ea58de25c3ecbb5f6a75c2dc71a7a5eac5nat, x9);
    let x10 = 0x1ae73229c0cab7d492224f7f047379b1249cf5d519fa511e0fc187ff3b4a42denat;
    let e10 = 2 * e9;
    lemma_power_mod_square(7nat, e9, n, x9, 0x9159a44ac115ced314c45e769d9599b53718f49e4a857f67a7116cd7dd0778c6nat, x10);
    let x11 = 0x863fd5d75cdba5908d574a8f5ba7f8ebe93884f7f6c1f24da361b3ed81573e48nat;
    let e11 = 2 * e10;
    lemma_power_mod_square(7nat, e10, n, x10, 0x2d3c6fc0c57714d713d5182f4d8405d8a448a0978924b80679b37f69e95ef3cnat, x11);
    let x12 = 0xb07ebb18bc3e700a48987cb22397cdf53dae267345309414c6bb3e6988c3ea84nat;
    let e12 = 2 * e11 + 1;
    lemma_power_mod_square_times(7nat, e11, n, x11, 0x1ecd03a7ad6d81de9fcb361563256d1663d2f80aecde058881ae29beee5cf783cnat, x12);
    let x13 = 0xd6b8890e77fb8ffa968ee6a53715a326fb5da5cd895ba15422815e5091d69192nat;
    let e13 = 2 * e12;
    lemma_power_mod_square(7nat, e12, n, x12, 0x79ae7ffeb7ec4ceb7bc0ed55a3b386f838601dd82e2ec45732b9ee6532ad44fenat, x13);
    let x14 = 0x5881b062df1cfe265b708841846ccaef762d79bbbb02cc7ccf034d94db4dfc32nat;
    let e14 = 2 * e13;
    lemma_power_mod_square(7nat, e13, n, x13, 0xb4190a297ec58b9283c922a3ce6b6b0bb6a74e080dcd1a023557727fea7a8492nat, x14);
    let x15 = 0x75f07932e2341bf32fd336e82af6ffc10059d6e31f8f9064c1715191a2f714fcnat;
    let e15 = 2 * e14 + 1;
    lemma_power_mod_square_times(7nat, e14, n, x14, 0xd631ecc27df63465a96293b5921ffa3bab0365a42fd90f57537aa6eabc550760nat, x15);
    let x16 = 0x25e175022143f48980283f0e3b15fb99b621193e51ecac6b5accca3e6c64619bnat;
    let e16 = 2 * e15 + 1;
    lemma_power_mod_square_times(7nat, e15, n, x15, 0x17c57d4b3e0da5265aa651ca1c8fda269be2e002f578ff786fa46d8e51f3b0c95nat, x16);
    let x17 = 0xb1eb9db27bca63ae1f358a05b62cd70e6bc3b5a2d2aa30a396a45d62f3e6b4f2nat;
    let e17 = 2 * e16 + 1;
    lemma_power_mod_square_times(7nat, e16, n, x16, 0x273ca0aa85e173f1bd91096fbcba7788e4d1d55e2c4077f129b8ca2b905fa9bdnat, x17);
    let x18 = 0x2c4868054ab28639673d95ae2376676b835699488559db322b5084f344dadd88nat;
    let e18 = 2 * e17 + 1;
    lemma_power_mod_square_times(7nat, e17, n, x17, 0x361959e71fa0ad1d2dad5698c0825b78c213a571e618413dfc1bc1c593a170ad4nat, x18);
    let x19 = 0x3ab9e04f166f0860c079d2ddb5207b357ecb86d70d2f13271eba9fe66533ee6fnat;
    let e19 = 2 * e18;
    lemma_power_mod_square(7nat, e18, n, x18, 0x7a8f83c7eebaf5c499ad2503e0d4ce5306e51595e28a48e0ad19dc385243491nat, x19);
    let x20 = 0x5f33833dc01cb6df6df24140d3e76d51127f277c8b589abf6fbb86740c102356nat;
    let e20 = 2 * e19 + 1;
    lemma_power_mod_square_times(7nat, e19, n, x19, 0x5e4d44349b16a3c1c574085cc3ccbb739d7552a6fe36d2ac48c2ae97ed884451nat, x20);
    let x21 = 0x28e4d2f8c0bb91c6d5a8cd6db77f74bab1ea791b6626920f4f3c9415696b385fnat;
    let e21 = 2 * e20;
    lemma_power_mod_square(7nat, e20, n, x20, 0x236745c562781cad31a2817c19c385507147af4ccc0dd4622f903bfcebef5245nat, x21);
    let x22 = 0x88661f557339b0447330bd7ef7c72be2f4b04f563fbd344a385f61a08e4329cfnat;
    let e22 = 2 * e21;
    lemma_power_mod_square(7nat, e21, n, x21, 0x6884e76352ef993849fe0bfa8d8e65c0c976ac981f1b1ef44a490e1d9d65af2nat, x22);
    let x23 = 0x1240871f2ef0831e10d65156db593803e287c356df963114188c515bdbdcfb2anat;
    let e23 = 2 * e22;
    lemma_power_mod_square(7nat, e22, n, x22, 0x48acaa07c65aebaee1cc16e5ac0aee501f840505229997675c8c5a9c2fda6577nat, x23);
    let x24 = 0xe7f2db8a11dbe9fc1bd65e23896b0a926de0ffba7447f151d15f09235b13edb9nat;
    let e24 = 2 * e23 + 1;
    lemma_power_mod_square_times(7nat, e23, n, x23, 0x91bf6dd92965dfef9cf5f0762d34ef196d90cf052e206b6642cc52a336192c3nat, x24);
    let x25 = 0x792386f29bcd9158317b68bd93a875c84a4c53f29e7d8e81434ea758071f04acnat;
    let e25 = 2 * e24;
    lemma_power_mod_square(7nat, e24, n, x24, 0xd2282e96f98a2910df8e0c9a8c44431b672b9d7407b9b75cc1985c99ed0dd4c5nat, x25);
    let x26 = 0x59627c5118106a327824ce0e0e3a2103659afd72fb19e223d43ac9a9d5dda4fbnat;
    let e26 = 2 * e25;
    lemma_power_mod_square(7nat, e25, n, x25, 0x39529a7f84c1cea14085e25f7e13d3528520956f540b6cc791d1a5e083778455nat, x26);
    let x27 = 0x9f4cbe42b3b5563ede5c122ed58aee970125f6bd676bc0133cf3574e92b7feb8nat;
    let e27 = 2 * e26 + 1;
    lemma_power_mod_square_times(7nat, e26, n, x26, 0xda77624a9c537bdbc3f14532e32583b7ea80502d795a51e96dfb0e905b4d1f37nat, x27);
    let x28 = 0x676080f89d69454c4cb6be70f5464b3166e12439f920843820a90360c632e535nat;
    let e28 = 2 * e27 + 1;
    lemma_power_mod_square_times(7nat, e27, n, x27, 0x2b5e2ef6aa1ab3e8d6882ef8efb1c43292590788f404d6f4dfded54deace25acbnat, x28);
    let x29 = 0xf6cd7e4b77a74d68ab2a7840b818a7d067f83aaa19d4ffea3d52411115e7fb28nat;
    let e29 = 2 * e28;
    lemma_power_mod_square(7nat, e28, n, x28, 0x29becc290a1a5392010171229c09c0f2c9ee459668ce0a47e2a5e9bd2fe1ec91nat, x29);
    let x30 = 0xea61e750afa6da3384e4495a3e95481883ca47a8fd3fbd9f2df78accabd69bbbnat;
    let e30 = 2 * e29;
    lemma_power_mod_square(7nat, e29, n, x29, 0xedef93ac8d218abf26bf1c4077d1541ebe7921de73da52e43a35584655cc4445nat, x30);
    let x31 = 0xa3975a13b594bc1e263c1d01c15e9f2b394be037f3a7e455c3d3e2b0c573f041nat;
    let e31 = 2 * e30 + 1;
    lemma_power_mod_square_times(7nat, e30, n, x30, 0x5de21e2344ce1f4625c04915c4262f341f794a88ac64f247e1735fee66403e06enat, x31);
    let x32 = 0x71e44df60f2eb80f638ba1c8a011016fda96aa58162eb827deafcc2f6d9b02a8nat;
    let e32 = 2 * e31 + 1;
    lemma_power_mod_square_times(7nat, e31, n, x31, 0x2dbc69b53653e577571cd0d7591919d69086956f6f2fd41baf98fa6d270be2a1fnat, x32);
}

proof fn lemma_power_order_over_3_part_5()
    requires
        power_mod(7nat, 0x155555555555555555555555555555553a393d133nat, 0xfffffffffffffffffffffffffffffffebaaedce6af48a03bbfd25e8cd0364141nat) == 0x71e44df60f2eb80f638ba1c8a011016fda96aa58162eb827deafcc2f6d9b02a8nat,
    ensures
        power_mod(7nat, 0x155555555555555555555555555555553a393d1339460d5a4nat, 0xfffffffffffffffffffffffffffffffebaaedce6af48a03bbfd25e8cd0364141nat) == 0x9065330749b0f54b066c150d2c0802cd0950c2697c1146f63d4c6cfa1f75cb1bnat,
{
    let n = 0xfffffffffffffffffffffffffffffffebaaedce6af48a03bbfd25e8cd0364141nat;
    let e0 = 0x155555555555555555555555555555553a393d133nat;
    let x0 = 0x71e44df60f2eb80f638ba1c8a011016fda96aa58162eb827deafcc2f6d9b02a8nat;
    let x1 = 0x54600f2a1e7e467f6c44856000c3fd4fcf9da85e0df22665bc83a2a680968830nat;
    let e1 = 2 * e0 + 1;
    lemma_power_mod_square_times(7nat, e0, n, x0, 0x162af6b034c119f6d1aeca1af7d2e121e3a7d39c02a51dd42e9f3d5e2f2a56790nat, x1);
    let x2 = 0xaa54545cee1efd3e114d95a2920f8259a4d4c153160bc86bdef89a7429f56c27nat;
    let e2 = 2 * e1;
    lemma_power_mod_square(7nat, e1, n, x1, 0x1bcf2dff047fb3794ff21239ecd6c62994d5e3db1c312bfd1c5a87f38d9c5d99nat, x2);
    let x3 = 0xace46041ed3c1c78e93378c72515575238e8965cfc6698a2f9071fd5cdffd552nat;
    let e3 = 2 * e2;
    lemma_power_mod_square(7nat, e2, n, x2, 0x71541bd2e50a8aacf9aac83d33debda968a53a4a24279411423788ceb31301dfnat, x3);
    let x4 = 0xcc192d937f0fc2a7d5feee4fc61c7bd260ca6ec287d89fd46e41f4980dc77879nat;
    let e4 = 2 * e3 + 1;
    lemma_power_mod_square_times(7nat, e3, n, x3, 0x33159bb8d52de05a8393a5bcaf85cfb30854c5ce8e9bdc96a16685f8cdd551fa3nat, x4);
    let x5 = 0xba8b560e4011a4e291bb57d503f15dca3cf9bacabefa5adb4d34e564397f8910nat;
    let e5 = 2 * e4;
    lemma_power_mod_square(7nat, e4, n, x4, 0xa2b8231d016d1ef6376f49affbe0a4de2af68dcf9854651f538efe30d48946e1nat, x5);
    let x6 = 0xb10a3696309327f46ae472a3815494d6dc0b4d75598b9e5c43eac9ba4396c3adnat;
    let e6 = 2 * e5 + 1;
    lemma_power_mod_square_times(7nat, e5, n, x5, 0x3b7876236e6858a307ddf07fd49f8eab3e061f0e47e8eb09becfcbb7d9daaeb93nat, x6);
    let x7 = 0x473f4e6248deb3f69fdab9ef5ccaef38f17381e0cfdc3327b7426f4beecaa135nat;
    let e7 = 2 * e6;
    lemma_power_mod_square(7nat, e6, n, x6, 0x7a6f1fe3fe8afd5a256db37742b531df19e056e1688d9f4098f9d753d1bc80b4nat, x7);
    let x8 = 0xc3d1ebbd914aabe8ae2614a0ff5776e5ce8e53cdb6342db9e2c77603fa09437fnat;
    let e8 = 2 * e7;
    lemma_power_mod_square(7nat, e7, n, x7, 0x13d42d2230cb6f92f4f819fd4e378d76bdd801f01e8a40f20217b119c03cb8fanat, x8);
    let x9 = 0x40213a9e25c8e29ac7c764dab46367d3da7af20a06b29b87144782524e8e0826nat;
    let e9 = 2 * e8;
    lemma_power_mod_square(7nat, e8, n, x8, 0x95c979458ff492f01d8f0f6b6d36b3fbdf10c6be448177e70ed901f122a00f1bnat, x9);
    let x10 = 0x58b059c2945c9d7ab3049d0e13b8599dc2cc361dd90ac2c668e32e8c4cdb8467nat;
    let e10 = 2 * e9 + 1;
    lemma_power_mod_square_times(7nat, e9, n, x9, 0x70746b5aab9b9562802127e14e14b3de2e5aee88a7ab4eadfa69cd674932f8d5nat, x10);
    let x11 = 0x99a916709c975b3409e37b896d8dc6bcb9881f8e2361dcdea98ee15ee9efc428nat;
    let e11 = 2 * e10 + 1;
    lemma_power_mod_square_times(7nat, e10, n, x10, 0xd7140259371fcaa96171ba733021e20edf3911b7146aefea1f7220a348532b2fnat, x11);
    let x12 = 0x4c8ef2be42eeb0ec23ab6be20d55d7375fdfec4159a1218e2746723a6f2384ffnat;
    let e12 = 2 * e11;
    lemma_power_mod_square(7nat, e11, n, x11, 0x5c3b8c813dd3374e066c87e3449cc659a2a08955d4a7c9d4a5b7b778f5438001nat, x12);
    let x13 = 0x4c3718c259176992430517727dd39773bdd5647efaed4f3a66ed430ddde193dbnat;
    let e13 = 2 * e12;
    lemma_power_mod_square(7nat, e12, n, x12, 0x16e52ff328fc3dcb2d725df624d989007a52cbaa7c963282c421696c34cb92a6nat, x13);
    let x14 = 0x9ab1e889ed644e45dc848869c10f7ac8c802ff3a6ceac7b8e7413d052716ad06nat;
    let e14 = 2 * e13;
    lemma_power_mod_square(7nat, e13, n, x13, 0x16b0c28f0acd32fdbeec89e66c6f97b8cd052bec81a970946dc99fdcbf3f1893nat, x14);
    let x15 = 0x70d5a346bd3d1151c8c6286696669fc6504d2ec9eaef50d9807ca4d2cb38cdbnat;
    let e15 = 2 * e14;
    lemma_power_mod_square(7nat, e14, n, x14, 0x5d7a876953913b760947aa14b46d97ce44cb3a4b33f16cc29994029c14084409nat, x15);
    let x16 = 0x401e40482539ed1703c1f7eaf69cd98baeb883d330af3539582a3ea16ae85261nat;
    let e16 = 2 * e15;
    lemma_power_mod_square(7nat, e15, n, x15, 0x31bba127016f7f4e2f1c55a326bb0b164c3ea91766df4c1af0c6d7e3023af8nat, x16);
    let x17 = 0x2d2cde67048a376ec8d3b44fbb86df5feb9983358337c6c49e04b1071b7bae2nat;
    let e17 = 2 * e16 + 1;
    lemma_power_mod_square_times(7nat, e16, n, x16, 0x7069fa0269a4e176feb3b7336c79aa8659963b68ab8be3d5cdc9dbc01be7d425nat, x17);
    let x18 = 0x713054f730af900df2abcf1c90e924fb58787a8c648027fd5abb5cf846b5a14anat;
    let e18 = 2 * e17 + 1;
    lemma_power_mod_square_times(7nat, e17, n, x17, 0x37cda25df58ee64ea0e5bdd670f644daf894c1d83a7745fb58ffe0395c24d2nat, x18);
    let x19 = 0xe995f6d4db807856fcee1473cb41d1e2bae1415dd43d9026a937800dc3276f14nat;
    let e19 = 2 * e18;
    lemma_power_mod_square(7nat, e18, n, x18, 0x320bb42231e065a4880a1ddb693a78a05800901dcec21d74d439e639e11ad650nat, x19);
    let x20 = 0xc27d18af84a308b921030ad868e20f1014e8b15bd4ac7eaf997306e96170653enat;
    let e20 = 2 * e19 + 1;
    lemma_power_mod_square_times(7nat, e19, n, x19, 0x5d3f0461d1154061b518b7c5b30ff61f57379c86c487c6a699661b4ce788c8f32nat, x20);
    let x21 = 0xb9efa644ebcf587b653c6a4f185d7e4fc07457e892c522f7db66151ec926750dnat;
    let e21 = 2 * e20;
    lemma_power_mod_square(7nat, e20, n, x20, 0x93c1d68b22d001a4481405875095b8218020497cc3c0071a921e2394ea6a4137nat, x21);
    let x22 = 0xfab31d105bd38b09a81f802042062a88ac57badd3354ca2bc4a25e02e8be195bnat;
    let e22 = 2 * e21 + 1;
    lemma_power_mod_square_times(7nat, e21, n, x21, 0x3b155b6946e7c0bdc11d7f7cdf20da4f399e1d838d21558c53093783e7f49c444nat, x22);
    let x23 = 0x60e6d5effc95fdc8b844be449525e3726a4132e34757aca00f88067083af8466nat;
    let e23 = 2 * e22;
    lemma_power_mod_square(7nat, e22, n, x22, 0xf58252159b864b3cd4c0473faffcb8a4e401844c8192596384dc56f0e53de233nat, x23);
    let x24 = 0x1b3e3edcc8441a8706d061b7091f346dc13cf56910ce13eef67a8a2a9d92e8b0nat;
    let e24 = 2 * e23 + 1;
    lemma_power_mod_square_times(7nat, e23, n, x23, 0x100c1942fc0292208433b3c1a7699f9d94b0322b5151cb8a26f6e39a6b5c984ccnat, x24);
    let x25 = 0x81a8a46a66e099dc9fa28f330fb98c1beefa48be61818e6df839e2247ddfd074nat;
    let e25 = 2 * e24 + 1;
    lemma_power_mod_square_times(7nat, e24, n, x24, 0x144b52c3905961f9f7dd276fae61b232698a169a4b7c228f1b7549e526de0f8cnat, x25);
    let x26 = 0x895857fa75b54238a74b13e93ed50fac8be20bb1952e742121c190e7408b9857nat;
    let e26 = 2 * e25;
    lemma_power_mod_square(7nat, e25, n, x25, 0x41ab64cb70ede1e36aed309350bc00b57c20fc594289075c53877eb69136a4f9nat, x26);
    let x27 = 0x2d7e18bd2cd334fb8e22061c36d7c25fc23ce19292a46d4087429f21a8da25f9nat;
    let e27 = 2 * e26 + 1;
    lemma_power_mod_square_times(7nat, e26, n, x26, 0x203cdb88eb6dfd5c2501acb153589c8c94940f878ed158da89ad83e010121fb7enat, x27);
    let x28 = 0xcd283351bcf0bb3cc4ffd00984929412629d99448e414b7de63311fa5ecc2015nat;
    let e28 = 2 * e27;
    lemma_power_mod_square(7nat, e27, n, x27, 0x81592cede5e64bb693c8e3108ef4dc817534bbf12ab7e12aaa615e50777691cnat, x28);
    let x29 = 0xd70fc352d6ba8369c8864bf6507965d13c7b603e4e267edc6353b4c810f54728nat;
    let e29 = 2 * e28;
    lemma_power_mod_square(7nat, e28, n, x28, 0xa4696880fc6e427adce26b73b44c8f3b8a5e2bd8fc1f671b9fd6eadb18431551nat, x29);
    let x30 = 0x12beb6d20498fe8e4d7fc67ccfba28153d4c5f31dac4f374c38babd36a4fdaddnat;
    let e30 = 2 * e29 + 1;
    lemma_power_mod_square_times(7nat, e29, n, x29, 0x4f0b05d5f4de443a66b136b405d8c2d199c35c728ad0959c58379d42644957523nat, x30);
    let x31 = 0x460b244fbb4ed28a5e7646a0471ea2d56b32abc512d7ca7bde50721fd7f6cfbnat;
    let e31 = 2 * e30;
    lemma_power_mod_square(7nat, e30, n, x30, 0x15f5fc96af3a1baf32a1ca0badc58eb3616aee365a880a070b25dfbc8f2d44enat, x31);
    let x32 = 0x9065330749b0f54b066c150d2c0802cd0950c2697c1146f63d4c6cfa1f75cb1bnat;
    let e32 = 2 * e31;
    lemma_power_mod_square(7nat, e31, n, x31, 0x132a1857be6fb96d1275e89c690131a087d63a8f8a249249787f3142ca957enat, x32);
}

proof fn lemma_power_order_over_3_part_6()
    requires
        power_mod(7nat, 0x155555555555555555555555555555553a393d1339460d5a4nat, 0xfffffffffffffffffffffffffffffffebaaedce6af48a03bbfd25e8cd0364141nat) == 0x9065330749b0f54b066c150d2c0802cd0950c2697c1146f63d4c6cfa1f75cb1bnat,
    ensures
        power_mod(7nat, 0x155555555555555555555555555555553a393d1339460d5a4ffc328bbnat, 0xfffffffffffffffffffffffffffffffebaaedce6af48a03bbfd25e8cd0364141nat) == 0xdb644ee0bd182cf07f87612819526ee33cdb13dff31555c6992ae787050b9fe8nat,
{
    let n = 0xfffffffffffffffffffffffffffffffebaaedce6af48a03bbfd25e8cd0364141nat;
    let e0 = 0x155555555555555555555555555555553a393d1339460d5a4nat;
    let x0 = 0x9065330749b0f54b066c150d2c0802cd0950c2697c1146f63d4c6cfa1f75cb1bnat;
    let x1 = 0xd9950e976c55bc96448efd4701d4466f4a7c6876e5b7ac5132ad6d4a361d6701nat;
    let e1 = 2 * e0 + 1;
    lemma_power_mod_square_times(7nat, e0, n, x0, 0x23a1e09e285c5e815055690e6cc953474d8488459a6c4cbef2fc7d758d166216enat, x1);
    let x2 = 0xea91a9f74c4a94d5fdc4d7d2389d857c131ed7cd7601a38e1f4eb0fc02526bdcnat;
    let e2 = 2 * e1 + 1;
    lemma_power_mod_square_times(7nat, e1, n, x1, 0x50e8242aee350988673590f0b0aea78426f07b3d16f3373616190ba0a0406f06bnat, x2);
    let x3 = 0x899403e5ed97fe13fca9c2964df65082d85558445255f335ac5baaca2fc55576nat;
    let e3 = 2 * e2 + 1;
    lemma_power_mod_square_times(7nat, e2, n, x2, 0x5e0864f3681347b62167c0d5ec782e1de8a956507742f78f2cd312b1bfec0d57anat, x3);
    let x4 = 0xf5183fa5c2e15441cc58ca01a4160f85440285fd121a07c96f4a6b86fab05662nat;
    let e4 = 2 * e3 + 1;
    lemma_power_mod_square_times(7nat, e3, n, x3, 0x2058e4c44377e2659a57f826a2f885e64aa02a84bed41879d42d6d4189c85d9danat, x4);
    let x5 = 0x88359ab55aa9e79b24b1347d102d90b6c156036d17d712b12c7fb6c3f52652d7nat;
    let e5 = 2 * e4 + 1;
    lemma_power_mod_square_times(7nat, e4, n, x4, 0x66a93f4dae96bdf660e4ad91d878c87db7672c82a50dbd0f87185eaa8cce17585nat, x5);
    let x6 = 0x50aac6375c044a992797e25a166bd8e37c6440ecae0c41eba113fa84c7eefd7fnat;
    let e6 = 2 * e5 + 1;
    lemma_power_mod_square_times(7nat, e5, n, x5, 0x1fb4efd36ca6b4de765aec7fac2215e58819094e1612228413610d665eab38078nat, x6);
    let x7 = 0xeb77b57da780d4909988685674d4fabe03c34b06f7a120adcb1f136fac1f257anat;
    let e7 = 2 * e6 + 1;
    lemma_power_mod_square_times(7nat, e6, n, x6, 0xb1ee40a52f92026eb944ef8bae4db6f39e59f2fbebad74729dd1bda9d854dd4dnat, x7);
    let x8 = 0xf2a42917bbd74e35b421e78a48da20ed6d1708fcdb2b18ca6d99dd7dce9a6c9fnat;
    let e8 = 2 * e7 + 1;
    lemma_power_mod_square_times(7nat, e7, n, x7, 0x5ec12fa487b1637f1ec17f5f9413fab75220516eec3af8262450b896eb091221dnat, x8);
    let x9 = 0x252646119ee2ee6d23f605b75cf0bb91341a5706bb1e04f81c93639db6655a53nat;
    let e9 = 2 * e8 + 1;
    lemma_power_mod_square_times(7nat, e8, n, x8, 0x649db70b6d4fe68a7f892d72fc3058f2bfd3af9b37ab276fb5f7715f9e0777ff4nat, x9);
    let x10 = 0xfb911a9fe10a9793cd95d209920807695ed11d607ca523cdb47ef0aeedf598fnat;
    let e10 = 2 * e9 + 1;
    lemma_power_mod_square_times(7nat, e9, n, x9, 0x25bc99d5ca5cdac2739056420dc38be66691ff1961dbca41cf277203839862d0nat, x10);
    let x11 = 0xc933c6bc355cd7276631fbea75abb6f4fc5febe6134c76123a740046d984b2c0nat;
    let e11 = 2 * e10;
    lemma_power_mod_square(7nat, e10, n, x10, 0xf735dc74af2c90cb02589bd482a521f4ff4d2070ea50df973ce5f6bc3571e1nat, x11);
    let x12 = 0xd7613d35e484f2f5353fe1de3a3239ee3ec65aae5d95e759d79547c462aae4a4nat;
    let e12 = 2 * e11;
    lemma_power_mod_square(7nat, e11, n, x11, 0x9e22588c5510b9c3a079bc35a0c0900f3c7eb4994d1cf4ab47d6237ff79f385cnat, x12);
    let x13 = 0x2eef908895fd4fc7b78f66dfdaaf4c7de81f107f959b534584c78708c854d97dnat;
    let e13 = 2 * e12;
    lemma_power_mod_square(7nat, e12, n, x12, 0xb53479bff7513717c4163285288d1cdf85e0ca0adf393e3b63c87710444727d3nat, x13);
    let x14 = 0x950753afa345a7a926f4e994bfa710b0ab85c580cb033333291626ff62c6044cnat;
    let e14 = 2 * e13;
    lemma_power_mod_square(7nat, e13, n, x13, 0x89af820468909436ba692f429f514f6fed5b1fdd1f96d16ec60b3e539d1c67dnat, x14);
    let x15 = 0xe1abf31dfa240fff507293be0db1a6e7e6bde134ceab1899565e2ca87b32dc34nat;
    let e15 = 2 * e14 + 1;
    lemma_power_mod_square_times(7nat, e14, n, x14, 0x25f4ab560f5259b7516c159f27aec5deec998bbe138d5e7b012c948c3d332f6bcnat, x15);
    let x16 = 0xeb8b027c316db5515b49de3a5e5942b86e38ca13171f35bb69980fc0c7ab4ce7nat;
    let e16 = 2 * e15 + 1;
    lemma_power_mod_square_times(7nat, e15, n, x15, 0x5708df1f1b26a68caca2995a88662385c9096e97a4be9532402cbbfccd66421c9nat, x16);
    let x17 = 0xe0574f7cf26a37cdf2656678a80298b7e1b39c2a74a2ae59738367175fb05553nat;
    let e17 = 2 * e16;
    lemma_power_mod_square(7nat, e16, n, x16, 0xd8b8820bb5a3450be69adae12048b05ddcebad74282394ddde9fcdedf3631d9enat, x17);
    let x18 = 0xf780e4e670370188afa53cb0d0884d23950bd6a878f306efaad92a70fa2ce9e9nat;
    let e18 = 2 * e17;
    lemma_power_mod_square(7nat, e17, n, x17, 0xc498e8e1c7d50073a1105cefd47f0f25961176010ee13fc3e85638ced3f08f00nat, x18);
    let x19 = 0xdc0c73c780427d941b9f65b69017baa0e98c28975e2c209c1290071612fc7347nat;
    let e19 = 2 * e18 + 1;
    lemma_power_mod_square_times(7nat, e18, n, x18, 0x68b05da389d8776f1b8b457eb9ea5bf759c1ee54392bcb1642b37fbd655b74b30nat, x19);
    let x20 = 0xcae456decc9594ea1a788bb07d1a197f1393500afe8099c77b849496b6f8f735nat;
    let e20 = 2 * e19;
    lemma_power_mod_square(7nat, e19, n, x19, 0xbd256799f38326c6b9d169b091900ed8f642df90f786bbc49526895e7a828b7cnat, x20);
    let x21 = 0xb7777bf71ea683627577a135a621ff93051f10dba418350d3e257091c980c4c8nat;
    let e21 = 2 * e20 + 1;
    lemma_power_mod_square_times(7nat, e20, n, x20, 0x4659c0151346479a6a43dcdfa384f4fa28c0dfc5d78d99c369f242da104271947nat, x21);
    let x22 = 0x8c3eeaacf0abfd2dc6d70dc725f793b5ef36c4ca0636da5c25d796ce4f72f254nat;
    let e22 = 2 * e21;
    lemma_power_mod_square(7nat, e21, n, x21, 0x837c0affc997f4a514b7d5abefcdfd2fed481a32cd988fd84199611ac9b942ecnat, x22);
    let x23 = 0x40a5adeb7ec6aeac4f3b7f9dd9c69e6243a307edee704e40e61afe2c4f2e4434nat;
    let e23 = 2 * e22;
    lemma_power_mod_square(7nat, e22, n, x22, 0x4cd4e023aa214d0767de5a82de8622d4eca23aba1c7c924f2aec44795344345cnat, x23);
    let x24 = 0x4fb47f09cf148f24ece56f3922fd31d758b1d5a1a8ccfbaec50aab9cd31797efnat;
    let e24 = 2 * e23;
    lemma_power_mod_square(7nat, e23, n, x23, 0x1053422f671ce56dd95da41597cd7eb5e2736570afc1191f05beabb17d561961nat, x24);
    let x25 = 0x5516d5b16eea865b2845df7cf293498df80c81846f896463ec685549eaa38decnat;
    let e25 = 2 * e24 + 1;
    lemma_power_mod_square_times(7nat, e24, n, x24, 0xadb647aca28067ace5cfde808d6a2ac2ad241b1df463165abcfca2f65384203bnat, x25);
    let x26 = 0x54156251dfc36f3f6e912bf661280ee4bd21ee8e8446e84775f53c3168df82d5nat;
    let e26 = 2 * e25;
    lemma_power_mod_square(7nat, e25, n, x25, 0x1c482bf140878b1474592fcd94d9b10455fd1de6448f4e821515e18863fb54fbnat, x26);
    let x27 = 0x4859391e515a9fb4ed3b9436fca39e3720d8c58c34776d9169483cb86a6e3d6anat;
    let e27 = 2 * e26 + 1;
    lemma_power_mod_square_times(7nat, e26, n, x26, 0xc15248290e4444041bcd13505930c3f5de04e706d55a0523991d7f938b0488e5nat, x27);
    let x28 = 0xe20f3119095f99fd8a03cca76b094d909f20110964d02620d8ad3f38b54a2fe9nat;
    let e28 = 2 * e27 + 1;
    lemma_power_mod_square_times(7nat, e27, n, x27, 0x8f202a94bb1a66a864328fed0ef5b6c0c10cf4dfcdd36732b3a1df884b576793nat, x28);
    let x29 = 0x20e9d0f1fc15999ed00f5c27a19a84f5bdef776295ea7edba113b24cfcbc8dcdnat;
    let e29 = 2 * e28 + 1;
    lemma_power_mod_square_times(7nat, e28, n, x28, 0x57557c920f84d6be7e98324b0496363014bdb8113b66361cae8fb8fded8456c2anat, x29);
    let x30 = 0x1c44402404d6e3e0becf1eb7ca2e657dd8e0f42a7bbf4483cba8f9cb688b334anat;
    let e30 = 2 * e29;
    lemma_power_mod_square(7nat, e29, n, x29, 0x43b49ca820c641909a26a5f95124ce7d60cb2f9cc88d78840b917f2a5535c1fnat, x30);
    let x31 = 0x56e46bea10d638abc3a067982e982e2d9db49fdbd83e95bc84b559eca46edcednat;
    let e31 = 2 * e30 + 1;
    lemma_power_mod_square_times(7nat, e30, n, x30, 0x15d901961dd940793539e815d43769f2dda5899fc94bbf3d75dfc6f03358ca0fnat, x31);
    let x32 = 0xdb644ee0bd182cf07f87612819526ee33cdb13dff31555c6992ae787050b9fe8nat;
    let e32 = 2 * e31 + 1;
    lemma_power_mod_square_times(7nat, e31, n, x31, 0xce73de3ba41ff2337678447150b1dc7f61fde22c2967afafaec40a4441560337nat, x32);
}

proof fn lemma_power_order_over_3_part_7()
    requires
        power_mod(7nat, 0x155555555555555555555555555555553a393d1339460d5a4ffc328bbnat, 0xfffffffffffffffffffffffffffffffebaaedce6af48a03bbfd25e8cd0364141nat) == 0xdb644ee0bd182cf07f87612819526ee33cdb13dff31555c6992ae787050b9fe8nat,
    ensures
        power_mod(7nat, 0x55555555555555555555555555555554e8e4f44ce51835693ff0ca2ef01215c0nat, 0xfffffffffffffffffffffffffffffffebaaedce6af48a03bbfd25e8cd0364141nat) == 0xac9c52b33fa3cf1f5ad9e3fd77ed9ba4a880b9fc8ec739c2e0cfc810b51283cenat,
{
    let n = 0xfffffffffffffffffffffffffffffffebaaedce6af48a03bbfd25e8cd0364141nat;
    let e0 = 0x155555555555555555555555555555553a393d1339460d5a4ffc328bbnat;
    let x0 = 0xdb644ee0bd182cf07f87612819526ee33cdb13dff31555c6992ae787050b9fe8nat;
    let x1 = 0x1440bca79c6ca4cd3cee6297a4f78724d132a78ae441a96496b4207c88234f2dnat;
    let e1 = 2 * e0 + 1;
    lemma_power_mod_square_times(7nat, e0, n, x0, 0x524216bcf9fddb2197426208640667e69968ffdbbff29917ea038135191acf8d3nat, x1);
    let x2 = 0xa6656eff3feefe99f9ffa8ecedbd2dc905f2b7eddbc6b7c8c180979bf4e9b3c0nat;
    let e2 = 2 * e1 + 1;
    lemma_power_mod_square_times(7nat, e1, n, x1, 0xb3740ef6ae890ec7ca153bf809e76835f4ec4f86d53d17ce4be1efd4d6396dfnat, x2);
    let x3 = 0x97aca28174764163c231c5edd9e641cc29af39e82f36fe5f58623d687f8b8991nat;
    let e3 = 2 * e2;
    lemma_power_mod_square(7nat, e2, n, x2, 0x6c27b423cc72be366699dcd47c51a82e607eafea1f704c6c0ff7bc65fa9e2bafnat, x3);
    let x4 = 0x87cee4a6c806323a9e0ecb0b52809ffa483486c63c6c69311fac2bbb38471eafnat;
    let e4 = 2 * e3;
    lemma_power_mod_square(7nat, e3, n, x3, 0x59dd1c1f7c8018e7cc0f349403fce143cc1a82727c3331c063e7072ddc8e36f2nat, x4);
    let x5 = 0x5fe368a2b8131b108494558825c2ad896e30b12368c4e488a03186a75c4ddd53nat;
    let e5 = 2 * e4;
    lemma_power_mod_square(7nat, e4, n, x4, 0x480bdc5caf99f3e5b6d5362607a9667ce352511b53a875619caa961792261ccenat, x5);
    let x6 = 0x751c4f1a014f6792091f98109a77872284b26b4e0fddd958313e7d0a15273c20nat;
    let e6 = 2 * e5;
    lemma_power_mod_square(7nat, e5, n, x5, 0x23ea91ab7ff53cf544385b7fd299b90a704531db64a3916b4b4d5a34d8950189nat, x6);
    let x7 = 0x96e364e7e80a88f12474c45374e02fb65d3868975591a7690317a15592577d94nat;
    let e7 = 2 * e6;
    lemma_power_mod_square(7nat, e6, n, x6, 0x3592e36f2b53ed7d6a57c2a40532e5b656c9a43bc42feadccda10d43b2553f6cnat, x7);
    let x8 = 0xe9e1eca332524a359e4f3c8f54839315635ffdf76ebb5aa7f311d5d9d4851b59nat;
    let e8 = 2 * e7;
    lemma_power_mod_square(7nat, e7, n, x7, 0x58ef443bdef7da8642b21d750b3f16432986c7d9bbfbf167998c18e4c5fc2d77nat, x8);
    let x9 = 0xcb53a39f827d3401ad642f335a0ef9a8b08ba0948e13e870171c403f62d0bfebnat;
    let e9 = 2 * e8;
    lemma_power_mod_square(7nat, e8, n, x8, 0xd5ad0822e3358c8ce3ee1f1f9e0cdc8a474fed1903025e4179db07230582bd86nat, x9);
    let x10 = 0x62cb346f9efd4241dc73d43369eaef8dddb5401493cbb09ac9a1988b399a6762nat;
    let e10 = 2 * e9 + 1;
    lemma_power_mod_square_times(7nat, e9, n, x9, 0x46a7045c15cb7d89036643151cce3847c74eb714b2bc7947c0907ad60b11c5c6dnat, x10);
    let x11 = 0xcfe2b5760d24742736e76d07c4966da65dd929b3e95a054bec11ad782b4b565enat;
    let e11 = 2 * e10;
    lemma_power_mod_square(7nat, e10, n, x10, 0x26203571a97d95a3a6841d2b74bb7f1c52ada2c9e5a55e60e24eac6650ac9ba6nat, x11);
    let x12 = 0xc5eabd2849338d1624196b69d3fbfd5ef84301ab1324111c4a3c730ac3329ba5nat;
    let e12 = 2 * e11;
    lemma_power_mod_square(7nat, e11, n, x11, 0xa8d06a39ce504d3a2a8e73b5ca76600063029a118c6d7b669de2dbff1978c81fnat, x12);
    let x13 = 0x8ecc42cb1cb2ec8d04a3d4bc069323850026276286814b5480568ad79ae5c09cnat;
    let e13 = 2 * e12 + 1;
    lemma_power_mod_square_times(7nat, e12, n, x12, 0x42f15d4947689b2a987cc5ff7680c4668bd05823a10063de90fbd1c63d8597213nat, x13);
    let x14 = 0x3f28fa3e75f6186b652670c96a2ad134111e1bee5b0eccd3574da7e3eb320639nat;
    let e14 = 2 * e13;
    lemma_power_mod_square(7nat, e13, n, x13, 0x4fa73d13d8f997883ad8a3f2202ca417fcb7e801bb93688d8e13540216157c17nat, x14);
    let x15 = 0x5184bc7cba5cefe0944cf3a0448d8c8891d23a80d7d0cfeafcf205bad90cf643nat;
    let e15 = 2 * e14;
    lemma_power_mod_square(7nat, e14, n, x14, 0xf9531b9e6320a8e7e98fbff8f4a1e41eb391ed6dbc573e69aca92c1c00f18eenat, x15);
    let x16 = 0xa07946635cede5aef2e89f1c6cf6807396cb945865fefa13654836478fa801cdnat;
    let e16 = 2 * e15;
    lemma_power_mod_square(7nat, e15, n, x15, 0x19f54419d9566e210f770b36fab7301953ea5d28f602c7d33fbe825cea0ae8bcnat, x16);
    let x17 = 0x9064938e176e5fe6ccaec528f708caa7e29d45e4558278c5cb41592c8516cfe5nat;
    let e17 = 2 * e16;
    lemma_power_mod_square(7nat, e16, n, x16, 0x6497d16fd171b560ea5b9319da99285fcecee6fa2ed0e1cd7e251dccae83d944nat, x17);
    let x18 = 0x638b6be4ab45085f1f4d783bdd6227271e1aec68dd629ea3a78a685c8c146a5bnat;
    let e18 = 2 * e17 + 1;
    lemma_power_mod_square_times(7nat, e17, n, x17, 0x23a191e983cecc7455528f3e97cf17b56cdeaaf2eaf49e7e84e8cf775ea5ad094nat, x18);
    let x19 = 0xc4b75a3ae56d7c97aa590e433a6ce4076b863c8aa0f1cbab78d7d7998113f57cnat;
    let e19 = 2 * e18;
    lemma_power_mod_square(7nat, e18, n, x18, 0x26b52161344254dde40da285fa1afc413b6178f85ff0e6bbe03c6d1eb5cb029dnat, x19);
    let x20 = 0x6d1a124fef465af953b38c985425436abaf9bdc29dba764fa6e438438b7a63f4nat;
    let e20 = 2 * e19 + 1;
    lemma_power_mod_square_times(7nat, e19, n, x19, 0x42220e6662b37e142c78e79bab399aa61c72a46b1d40f26bc9a993cd216e3cd7cnat, x20);
    let x21 = 0x526393356cd59a11153c7eaab9ecadb5329e32f09ec5012d8c04c02406cf2a68nat;
    let e21 = 2 * e20;
    lemma_power_mod_square(7nat, e20, n, x20, 0x2e7f363fcb4dda5e3dc78d0c9a264d377a639fd4aba21b92fd6099c334f84428nat, x21);
    let x22 = 0x233ee341ac81cf4a680350b8de9f6b57ba98f4ebee22a25f0e8ff333213fcbcanat;
    let e22 = 2 * e21 + 1;
    lemma_power_mod_square_times(7nat, e21, n, x21, 0xb99b9741e3d9e6519b449950532a257d9a790abc9a500421dfa89b2bc0082876nat, x22);
    let x23 = 0xd7f0379467be5aff2bd0223c496508da6648be256382bdbe3f58e3dab8e70dabnat;
    let e23 = 2 * e22 + 1;
    lemma_power_mod_square_times(7nat, e22, n, x22, 0x21f7cb1fc30c1c5a1dd6600c490ac052744ed2af6b588f675148b86b66a88cd1nat, x23);
    let x24 = 0xf5d4f8c06dc4831c57d89a3997e7ca335f363f519cdaef5c1fd3d3f1294bdefenat;
    let e24 = 2 * e23 + 1;
    lemma_power_mod_square_times(7nat, e23, n, x23, 0x4fb059758bc158699f6f35cbc8c602c7045157b28a0ef701e0728af0fabf2ed51nat, x24);
    let x25 = 0x6e595412f8d133267219dbee851d0c71661c99409f18fa5d202b1e103417b29fnat;
    let e25 = 2 * e24;
    lemma_power_mod_square(7nat, e24, n, x24, 0xec11554d428555befaf29928453729af8faccafd5fdeb317e0c9d3965416a325nat, x25);
    let x26 = 0x7467593f6dacd13cd155e74c9c3229e26b6524e67c5136343a992af9c454ba68nat;
    let e26 = 2 * e25;
    lemma_power_mod_square(7nat, e25, n, x25, 0x2f90e36bdea13e1bd39bf953f645b95dbcd2c280e0ec580133c1250c4f242519nat, x26);
    let x27 = 0x9ade9709c8e513cf6b2ff429cbe9671df28cf5f49881cf52f9f5c5478cd3242fnat;
    let e27 = 2 * e26;
    lemma_power_mod_square(7nat, e26, n, x26, 0x34edd29a6b8c08a8d02e3111ef4f114a05aa5255e72c8765727c712624c4e0d1nat, x27);
    let x28 = 0x1dba45ae684199cd23ab3f4de753d962f7a4e79060df26e4ed19c677b4a37800nat;
    let e28 = 2 * e27;
    lemma_power_mod_square(7nat, e27, n, x27, 0x5db08f4213c89481e3d469e6675415a0c8ef5fdb0229d03b10af4d7f48c24f61nat, x28);
    let x29 = 0xac9c52b33fa3cf1f5ad9e3fd77ed9ba4a880b9fc8ec739c2e0cfc810b51283cfnat;
    let e29 = 2 * e28;
    lemma_power_mod_square(7nat, e28, n, x28, 0x373bb52d805d73138b7a70c94154b1c45e3795ecac98f36924b3d4dd5e88ef1nat, x29);
    let x30 = 0xac9c52b33fa3cf1f5ad9e3fd77ed9ba4a880b9fc8ec739c2e0cfc810b51283cenat;
    let e30 = 2 * e29;
    lemma_power_mod_square(7nat, e29, n, x29, 0x74626e95c2b1003d8fe148b9f10d50780a820cc94ec01ad60574ce7e19bcf5d3nat, x30);
}

proof fn lemma_power_order_over_3()
    ensures
        power_mod(7nat, 0x55555555555555555555555555555554e8e4f44ce51835693ff0ca2ef01215c0nat, 0xfffffffffffffffffffffffffffffffebaaedce6af48a03bbfd25e8cd0364141nat) == 0xac9c52b33fa3cf1f5ad9e3fd77ed9ba4a880b9fc8ec739c2e0cfc810b51283cenat,
{
    lemma_power_mod_first(7nat, 0xfffffffffffffffffffffffffffffffebaaedce6af48a03bbfd25e8cd0364141nat);
    lemma_power_order_over_3_part_0();
    lemma_power_order_over_3_part_1();
    lemma_power_order_over_3_part_2();
    lemma_power_order_over_3_part_3();
    lemma_power_order_over_3_part_4();
    lemma_power_order_over_3_part_5();
    lemma_power_order_over_3_part_6();
    lemma_power_order_over_3_part_7();
}

proof fn lemma_power_order_over_149_part_0()
    requires
        power_mod(7nat, 1nat, 0xfffffffffffffffffffffffffffffffebaaedce6af48a03bbfd25e8cd0364141nat) == 7nat,
    ensures
        power_mod(7nat, 0x1b7d6c3ddnat, 0xfffffffffffffffffffffffffffffffebaaedce6af48a03bbfd25e8cd0364141nat) == 0xc515cf95b08fb27d8b3bb03a1a043e45dfa5d32c7e34e8cd104d692fcdd54d07nat,
{
    let n = 0xfffffffffffffffffffffffffffffffebaaedce6af48a03bbfd25e8cd0364141nat;
    let e0 = 1nat;
    let x0 = 7nat;
    let x1 = 343nat;
    let e1 = 2 * e0 + 1;
    lemma_power_mod_square_times(7nat, e0, n, x0, 0nat, x1);
    let x2 = 117649nat;
    let e2 = 2 * e1;
    lemma_power_mod_square(7nat, e1, n, x1, 0nat, x2);
    let x3 = 0x168f08f8e7nat;
    let e3 = 2 * e2 + 1;
    lemma_power_mod_square_times(7nat, e2, n, x2, 0nat, x3);
    let x4 = 0xdea4638a29e0112a317nat;
    let e4 = 2 * e3 + 1;
    lemma_power_mod_square_times(7nat, e3, n, x3, 0nat, x4);
    let x5 = 0xc1a18633505a6bcfa58044d77b930585224c11nat;
    let e5 = 2 * e4;
    lemma_power_mod_square(7nat, e4, n, x4, 0nat, x5);
    let x6 = 0x2ae14dddd7285fad4d40848be39ba2ad38be61c695dbae0fd736311216d59e8bnat;
    let e6 = 2 * e5 + 1;
    lemma_power_mod_square_times(7nat, e5, n, x5, 0x401329fd81e5cnat, x6);
    let x7 = 0x2ef067304ac9ef9fdb936c058cbefa0ff099f27c4153798e50ca956c4c954f52nat;
    let e7 = 2 * e6 + 1;
    lemma_power_mod_square_times(7nat, e6, n, x6, 0x3246eadf4fa8983baa86bda783b345fe7810b848923ee3d76f348f060ec5a0bdnat, x7);
    let x8 = 0x7d5866f1b3f38a6c80d78bc5b71b6676e9d2058d550a0243034ab7578ee7b045nat;
    let e8 = 2 * e7 + 1;
    lemma_power_mod_square_times(7nat, e7, n, x7, 0x3c3eefe0f920de419949d1de9635df51cb9513714ecb53c31e9b9406023ffed7nat, x8);
    let x9 = 0xc80efae0d229289028fa1fd177af4ae37aca30fa452ebe9dc0f2e4be4b647934nat;
    let e9 = 2 * e8 + 1;
    lemma_power_mod_square_times(7nat, e8, n, x8, 0x1ad9c2568d11b55848c52826160cbd87298ff1a9947d13945e21ff77a73a65f3bnat, x9);
    let x10 = 0x1b619bba4071ffb56b137f9a3db273da9dec2e1cc71a636e342f382147e4174dnat;
    let e10 = 2 * e9 + 1;
    lemma_power_mod_square_times(7nat, e9, n, x9, 0x44663de1dc7c63289b507cddec34873c08282ab41fabfe07ee568e25f2725eee3nat, x10);
    let x11 = 0xd829b6441b2fb579327a714333a43ae386306ece871acdebbd0dce642772f85nat;
    let e11 = 2 * e10;
    lemma_power_mod_square(7nat, e10, n, x10, 0x2edbc10ab77f3dfcd97b798e3ddcb68dfe407a26bd5771ea2f6e74a6da1f0a4nat, x11);
    let x12 = 0x377e69b235facdd6975daa9084b0588d7008a83d090c5b6438c6ee09a537a508nat;
    let e12 = 2 * e11 + 1;
    lemma_power_mod_square_times(7nat, e11, n, x11, 0x4fdace897ba3ae20c91e05dc417e4970a49c053f3cae334b62ba693820777e7nat, x12);
    let x13 = 0xf44de3e5c1318ca1c76826fa6f79c8fe5648b18f0a555e5368dde2ec91ce6873nat;
    let e13 = 2 * e12;
    lemma_power_mod_square(7nat, e12, n, x12, 0xc078fd6ca4293abad495504dabfef5394ff01c0cb68d19f39b6f9bdf69e378dnat, x13);
    let x14 = 0x2c27871cf48f1d7b2b58e685c3ef1ceb3eabd304e0ec706ac92b0792e1da675anat;
    let e14 = 2 * e13 + 1;
    lemma_power_mod_square_times(7nat, e13, n, x13, 0x65ffffee5ff9186ec78fd3da195469be848f76924abe7e927ac9f6abf0672cc05nat, x14);
    let x15 = 0x5f14b942e0d1711c987bed6f9922ea7f44fd831834e72edc77bd49b586f67b74nat;
    let e15 = 2 * e14 + 1;
    lemma_power_mod_square_times(7nat, e14, n, x14, 0x354f47d6cb66d4a2b734ba5f6e3305c6cf794f46d9ff2fedd3e5b02f3d434c08nat, x15);
    let x16 = 0xfbdfcee868541ec620ccddb64f5ee30ccee6329491079f740c8ee68e80389174nat;
    let e16 = 2 * e15;
    lemma_power_mod_square(7nat, e15, n, x15, 0x2350632d1b604d144c8ca60397adac0acca50a5c084f004ad662e77bd89af81cnat, x16);
    let x17 = 0xb301aa700635b25a8470da17423236ecbee78f63e59022636140ed7b13e7ce0enat;
    let e17 = 2 * e16 + 1;
    lemma_power_mod_square_times(7nat, e16, n, x16, 0x6c6b477c908f6fc8b6a0dc988c26054521cc00721936800c77ec9c36cb564bf62nat, x17);
    let x18 = 0xd73fd410ada795df191b1d205600114f66816b198212c783be2ef16cdf4ac927nat;
    let e18 = 2 * e17 + 1;
    lemma_power_mod_square_times(7nat, e17, n, x17, 0x36c2f4e800938cbbb157fd42505ac1e39308689f5966891e6af9fbb0837cd41f5nat, x18);
    let x19 = 0xb6fa382d16cb4a5e986f58f0fc0b9c3a8393f7a2baa6bc633c97aa03a0a845f6nat;
    let e19 = 2 * e18;
    lemma_power_mod_square(7nat, e18, n, x18, 0xb4fc461e139096ec3af212011abe7ffba9f41f6ec1931f1f4b64916b287ff43bnat, x19);
    let x20 = 0x8e6f7a809d469cd1a38520c7be6370882ecb0d2c1e8863735dd4b954051bc984nat;
    let e20 = 2 * e19;
    lemma_power_mod_square(7nat, e19, n, x19, 0x82c8bc71e0cd54b5b7892619f4ef32c3d176f7ecaa0ea80d8f8447949b3a26e0nat, x20);
    let x21 = 0x74dab4b6dc544101f1ad97c834de4e40a8efcc7fdef99491e6eeeeb30f1873abnat;
    let e21 = 2 * e20;
    lemma_power_mod_square(7nat, e20, n, x20, 0x4f3fdc7224a18fb983e7cf21b2137641cdf135f9ff4bec6911194eb1f1d42a25nat, x21);
    let x22 = 0x75fff2be388481b9c8cec0aa09a0ed919903316a7d837ed868a20940c995219fnat;
    let e22 = 2 * e21;
    lemma_power_mod_square(7nat, e21, n, x21, 0x3556ee9dfead42dcfb2d0349c253d01591fb704712069e951b5ca6429cb4d21anat, x22);
    let x23 = 0xab7e6ed023b8678366aa7c9f7c0acfe8ee30451bce33da72528671d301735b6bnat;
    let e23 = 2 * e22 + 1;
    lemma_power_mod_square_times(7nat, e22, n, x22, 0x17cbbaa7389854f4508af9158b72e4d734ff9972959be2aa06113f4cdb64bb6dcnat, x23);
    let x24 = 0xd452c4d84022ce0f0e2d30553b3c0e79e5dd86928ffbd822d3eb897daadb8a37nat;
    let e24 = 2 * e23 + 1;
    lemma_power_mod_square_times(7nat, e23, n, x23, 0x3242f0d5f50055223d6b5446bd3a1399c23e79a628f17be05d52d4f404c0a9ed8nat, x24);
    let x25 = 0x7da3b7409bd6b0f91ad454ba197fabcf877c1099377b42fa7ae0e665f5619c29nat;
    let e25 = 2 * e24 + 1;
    lemma_power_mod_square_times(7nat, e24, n, x24, 0x4d0b0557e04d60f3db42cdf21177491fba38c3f22a8de3036cba92fc28740f90enat, x25);
    let x26 = 0x7877f07653bd11491a7a5330aba37f7ba6fa61605930be08c6eca700dc425f9enat;
    let e26 = 2 * e25 + 1;
    lemma_power_mod_square_times(7nat, e25, n, x25, 0x1afa10397c578cf4b0888cec0556b213a718295ac41f11e4a5a325014e6687719nat, x26);
    let x27 = 0x45c5f036959d4d8de4177ff2b184fc115102d340ea0c02c756a7d531eb82cfd7nat;
    let e27 = 2 * e26;
    lemma_power_mod_square(7nat, e26, n, x26, 0x38b0a9a05e612dae68e27198ab30012a4402062393c903277a2d5c6fe711cd6dnat, x27);
    let x28 = 0x59e083673f31378eb4d78afae2bd1dd7d4c3ca3a888dfcf8aad0f5c93d7febb4nat;
    let e28 = 2 * e27 + 1;
    lemma_power_mod_square_times(7nat, e27, n, x27, 0x851e17bf0e6c2c7fc3dac53ff48a03d9bd57ea0a797d3e8bf4928e6495b0fe83nat, x28);
    let x29 = 0x59ba700ff2f4e43e7a04737db4d19d3adacb60166bca60e465b52878604f34f3nat;
    let e29 = 2 * e28 + 1;
    lemma_power_mod_square_times(7nat, e28, n, x28, 0xdce121dc0e7b758320c887e44c91d8b624d136840152ef8946b7174e77b35cbdnat, x29);
    let x30 = 0xff076b42bef1d4a1c76c5b349366635519f5970c6f077a94b67410cd1bdfeaa5nat;
    let e30 = 2 * e29 + 1;
    lemma_power_mod_square_times(7nat, e29, n, x29, 0xdc2623deda20f8fa52501a85fcc2b00e9ef4ac56f74a6df048a6fc16724c937anat, x30);
    let x31 = 0x59f0427dbe904cd9cd48321d5e4a2830e9b9fe63024471ac7ab6d327d468fe61nat;
    let e31 = 2 * e30;
    lemma_power_mod_square(7nat, e30, n, x30, 0xfe0fc7e602fd13d916ff81d14fddadbf7f8a8aad6666a7d5061ce6fd469099f8nat, x31);
    let x32 = 0xc515cf95b08fb27d8b3bb03a1a043e45dfa5d32c7e34e8cd104d692fcdd54d07nat;
    let e32 = 2 * e31 + 1;
    lemma_power_mod_square_times(7nat, e31, n, x31, 0xdd2e8e0930cb08272494c933807c219c62fb360660ebfdf8ade3600faeb0c840nat, x32);
}

proof fn lemma_power_order_over_149_part_1()
    requires
        power_mod(7nat, 0x1b7d6c3ddnat, 0xfffffffffffffffffffffffffffffffebaaedce6af48a03bbfd25e8cd0364141nat) == 0xc515cf95b08fb27d8b3bb03a1a043e45dfa5d32c7e34e8cd104d692fcdd54d07nat,
    ensures
        power_mod(7nat, 0x1b7d6c3dda338b2afnat, 0xfffffffffffffffffffffffffffffffebaaedce6af48a03bbfd25e8cd0364141nat) == 0x760f88525e4d451add62a24f3a54b844cd48686f1610731119c5736aea0276b1nat,
{
    let n = 0xfffffffffffffffffffffffffffffffebaaedce6af48a03bbfd25e8cd0364141nat;
    let e0 = 0x1b7d6c3ddnat;
    let x0 = 0xc515cf95b08fb27d8b3bb03a1a043e45dfa5d32c7e34e8cd104d692fcdd54d07nat;
    let x1 = 0x10dd6d8ae51fe7e47a9ba56202f16523abcd00aa133477214f187e979f52e9b0nat;
    let e1 = 2 * e0 + 1;
    lemma_power_mod_square_times(7nat, e0, n, x0, 0x4261a0768ac5ccf674015dadb2d606b06dd4319e7849367a1487e247ce422b0e7nat, x1);
    let x2 = 0x58e9db0bc876a65597222e896c0c828a4eda8ddc178e4369dddec63a6a640246nat;
    let e2 = 2 * e1;
    lemma_power_mod_square(7nat, e1, n, x1, 0x11c6d37ad53288beebfd0fd44f94e5cbe49e127bd30aa6f3310310fcdf18e3anat, x2);
    let x3 = 0x132ecb752386aaf688f280c0eb020573352c28c49520cf2e745f3b2250b111b2nat;
    let e3 = 2 * e2 + 1;
    lemma_power_mod_square_times(7nat, e2, n, x2, 0xd82b458bf4db7b004440a54718d3c04083fe5235437d151a43b647da559cdfcanat, x3);
    let x4 = 0xff5b77ecedc62ee7ab2686b5b2e8d978f767fc23e774ad9421efe9463cb5842enat;
    let e4 = 2 * e3;
    lemma_power_mod_square(7nat, e3, n, x3, 0x16ffac12311bdb71a16926383c86ef62e27c688a7903337a68c1143fa7e0016nat, x4);
    let x5 = 0x219deaa00595200d1246ab7089ea84df55cf1c4f1e738a1dc652f5684fb03eb4nat;
    let e5 = 2 * e4;
    lemma_power_mod_square(7nat, e4, n, x4, 0xfeb759987c4ffcac6184d648a9b8864e2cc0c1c7beb7934b613803524f804590nat, x5);
    let x6 = 0xfc1a12074643fce4a10e7d73846ff3a73590f54d7ebde4abd7279963c3b58a13nat;
    let e6 = 2 * e5;
    lemma_power_mod_square(7nat, e5, n, x5, 0x46a17e6e0c0396847ddc2c02b48f6e831745f99ae0cc5d10485040a8efa983dnat, x6);
    let x7 = 0x2b8d70a4a6a89e74e20bf681e7cf9fffea2f65aace7606c895960a20d49e67e2nat;
    let e7 = 2 * e6 + 1;
    lemma_power_mod_square_times(7nat, e6, n, x6, 0x6c9d75b09eb940877ba9d5209ef76d9d6d6218e2781c0fd93f0c3123c987199bdnat, x7);
    let x8 = 0x15ed6875e204be215d8c232c45979166c0c888ab0dd7ab6d94452fb6875908d2nat;
    let e8 = 2 * e7 + 1;
    lemma_power_mod_square_times(7nat, e7, n, x7, 0x33ddbde82078fee72f2a02b07e7710a5750f64429b954c9720309c3444cdd34anat, x8);
    let x9 = 0x2f726a76e7632952333c012241a3c16e00ee418ec818ad4668ced16a09e950cdnat;
    let e9 = 2 * e8;
    lemma_power_mod_square(7nat, e8, n, x8, 0x1e0cf4debf941e5bd7d7989297bbd3161baee4b3fc4fef819cb834722b456b7nat, x9);
    let x10 = 0x548bf1ded8a277fd58dca310cc3feff95611f611f0740dec4ab25bd41e2f6e43nat;
    let e10 = 2 * e9;
    lemma_power_mod_square(7nat, e9, n, x9, 0x8cb363aa7232c553acbef0bd7935a119ca57505102fc0b5419024459511d666nat, x10);
    let x11 = 0xb07dcf7a04999cf8d31e775ee5b6758de2dff93c3fa39c43eb87e66f08fa7bc5nat;
    let e11 = 2 * e10 + 1;
    lemma_power_mod_square_times(7nat, e10, n, x10, 0xc374f69b8aca734c4d32ce60b7a5908f357d1ae95a7419b9c021f0209381727anat, x11);
    let x12 = 0xbf3ce1b51d9b01248d070d7547c4e6fc1a10a7f095273f9768a38e063a58b6enat;
    let e12 = 2 * e11 + 1;
    lemma_power_mod_square_times(7nat, e11, n, x11, 0x353bc9dc4516fd81fa168a0d6522db3691ea6ba9f0e77a516de051b82678f5a81nat, x12);
    let x13 = 0x32778a6ed484ffbc6e704b98275ae1d7b7d87039b7b37d90b86228bc04da7173nat;
    let e13 = 2 * e12 + 1;
    lemma_power_mod_square_times(7nat, e12, n, x12, 0x3e80352efda8549c8f556dd989368442b9fe204c266ca201e0df1d9bb471229nat, x13);
    let x14 = 0xd6967852a4f06aff74b484f7abdb923e92e803edc2b0626375ec186d0b3a4f92nat;
    let e14 = 2 * e13;
    lemma_power_mod_square(7nat, e13, n, x13, 0x9f2e9e548e934a612c203968189e79e25dc9caf88fe7e484ec740db8c3bfd57nat, x14);
    let x15 = 0x25cd65be08e78a846ad667e132989a29cd9f1d49bc9bd15e423632e39c9ab1afnat;
    let e15 = 2 * e14;
    lemma_power_mod_square(7nat, e14, n, x14, 0xb3dfe99b6528d1eff31385c9ff1885feacce54f29fbc0f5a64cb3b6c08dd5355nat, x15);
    let x16 = 0x7863e2cdd27a24e3e4f4c87f8b42fb6fd639e3348eb4dcd37eb448841a5f4b51nat;
    let e16 = 2 * e15;
    lemma_power_mod_square(7nat, e15, n, x15, 0x5950435095cb0f60a427858c81e464594e81a4470e3a91cc3992e66e7b44650nat, x16);
    let x17 = 0x1babee8cdecc7c9e5f4bb8101fc1e46c8c24551896e0262d4765f78d45cc4da9nat;
    let e17 = 2 * e16 + 1;
    lemma_power_mod_square_times(7nat, e16, n, x16, 0x18c5091372227771c48fe855031d4a46b8eabb67de61fcfdc23c35b9f9157523enat, x17);
    let x18 = 0x689b282d81124c52444838320ba6d83fe965db5c4046b463459ddb5a49d12552nat;
    let e18 = 2 * e17;
    lemma_power_mod_square(7nat, e17, n, x17, 0x2fdb7ca457b03408cf359ddd7a5a219c3329baa4fbaff358854a6048d41557fnat, x18);
    let x19 = 0x313e38c1fa81b81b2640dd11ca86f699d4153a29119c4e2128c7279fbeaf3d13nat;
    let e19 = 2 * e18 + 1;
    lemma_power_mod_square_times(7nat, e18, n, x18, 0x12b3506c68bf3ea254735732f1d1acf3aeb707d817e2cce919a606b93092fbb89nat, x19);
    let x20 = 0xd90d015725d4fffaae2c654f13ba9b66c9ef8c78d5e36ba964cc84a54d750adenat;
    let e20 = 2 * e19 + 1;
    lemma_power_mod_square_times(7nat, e19, n, x19, 0x424e25f497130f3bf97325384004198cc098c1375b7b0b892f95180c1ced6fc1nat, x20);
    let x21 = 0xd8465b7932bc8bcd5583bcf90810943138b6a946ffae24114e31134fed4395d9nat;
    let e21 = 2 * e20;
    lemma_power_mod_square(7nat, e20, n, x20, 0xb8070ceee0febd8f611a293881f081959066b9f3a0432a7c722c71c7bc4d9cebnat, x21);
    let x22 = 0x3363d4169a9a88ef363713f3a8860c0baf237a54c469132e896c44cea5ea72b0nat;
    let e22 = 2 * e21;
    lemma_power_mod_square(7nat, e21, n, x21, 0xb6b6cdb2ac954e7a0047674fec03c1286184798bf52b46822269dcec38061e01nat, x22);
    let x23 = 0x3d027d5d276e726f906fc297ed7f0abaf3e15f3b7a188dad49f7530e7ecbea33nat;
    let e23 = 2 * e22 + 1;
    lemma_power_mod_square_times(7nat, e22, n, x22, 0x48367e071b8a28fcbf6746713eb6e218ae6b5b4e57afecaa2fc2fe90fa19b48dnat, x23);
    let x24 = 0xad47016acb308a109ab2b71e347680ebc2ac76ce9e2697529b6a63d7bfb16cdcnat;
    let e24 = 2 * e23;
    lemma_power_mod_square(7nat, e23, n, x23, 0xe8a2fc497a35aaa7ca6731c0fd3bc01950c68afabbaf19a244db0a021d5490dnat, x24);
    let x25 = 0x8c9be648590064338c0393843dac264f244f1a6e133e3b7697ad752e6505cb00nat;
    let e25 = 2 * e24 + 1;
    lemma_power_mod_square_times(7nat, e24, n, x24, 0x334ff5144df143ba819e6d8421bd576de6ef020b3be1d7ab5f5ba4fd2134d3470nat, x25);
    let x26 = 0x15317bee32c13d24321df3046365a046107f5ac955ca40934f4ac3e30fdfb28cnat;
    let e26 = 2 * e25;
    lemma_power_mod_square(7nat, e25, n, x25, 0x4d3ae2cfcc1a48709ac5b7ee733e5de72f7e2d86bda038958461cf0b9098bc74nat, x26);
    let x27 = 0x7c9c2bbe81910eab2d8ba5eb72a3fec71582eb354401f2712c19098641627b3cnat;
    let e27 = 2 * e26 + 1;
    lemma_power_mod_square_times(7nat, e26, n, x26, 0xc4817484a8d3ee21f6255cdb5ae59b9218f4a9dbde3f52267fa9a0f6f42cbb4nat, x27);
    let x28 = 0xcc65215927d11d8d5e13a21cc4e5b062fbb213a79535580754dcd52f6924accfnat;
    let e28 = 2 * e27;
    lemma_power_mod_square(7nat, e27, n, x27, 0x3ca7a9a5e52bfc4b0491954cf5b1798b54a3220818f3321aed2617c858adc801nat, x28);
    let x29 = 0x27ca1f677306e281ee953c2be4767dffeba79a7ffcfa6be41db8830b9f9b58aenat;
    let e29 = 2 * e28 + 1;
    lemma_power_mod_square_times(7nat, e28, n, x28, 0x4765953b1f50f9deeb6dd4b9a11f971afd1e47c7bfee76770de512b0d14c16bb9nat, x29);
    let x30 = 0xfa77b593ef99b50a64b562c4249ad3bf5f459b23e423a74114290d2e42ca295bnat;
    let e30 = 2 * e29 + 1;
    lemma_power_mod_square_times(7nat, e29, n, x29, 0x2b4a7411a916e4c954c457162ac0620229f576abe7eff3f9b2d06d7d75daa141nat, x30);
    let x31 = 0x4931fea5dac6004dc0aa84baeea5f7e0b359d36c0c21cb47b06213e4bfcf62f1nat;
    let e31 = 2 * e30 + 1;
    lemma_power_mod_square_times(7nat, e30, n, x30, 0x6b3622e5ac210698d07f4136e942fcc2566346c11124a8bf2d636dd9ab6160bfenat, x31);
    let x32 = 0x760f88525e4d451add62a24f3a54b844cd48686f1610731119c5736aea0276b1nat;
    let e32 = 2 * e31 + 1;
    lemma_power_mod_square_times(7nat, e31, n, x31, 0x927edaf26cf176dbc71a88494ee02028e961dbf958655daaeb620db6c8fc65f6nat, x32);
}

proof fn lemma_power_order_over_149_part_2()
    requires
        power_mod(7nat, 0x1b7d6c3dda338b2afnat, 0xfffffffffffffffffffffffffffffffebaaedce6af48a03bbfd25e8cd0364141nat) == 0x760f88525e4d451add62a24f3a54b844cd48686f1610731119c5736aea0276b1nat,
    ensures
        power_mod(7nat, 0x1b7d6c3dda338b2af3f920a4fnat, 0xfffffffffffffffffffffffffffffffebaaedce6af48a03bbfd25e8cd0364141nat) == 0xb5a6631989a84c60d5c92be0384817056b9e5a38d735a2665e633c3ce29b7370nat,
{
    let n = 0xfffffffffffffffffffffffffffffffebaaedce6af48a03bbfd25e8cd0364141nat;
    let e0 = 0x1b7d6c3dda338b2afnat;
    let x0 = 0x760f88525e4d451add62a24f3a54b844cd48686f1610731119c5736aea0276b1nat;
    let x1 = 0x9314c87d28a86828424ba0a7b8a4fea440faa22a6b1c25c04966a2db17b7bcbanat;
    let e1 = 2 * e0;
    lemma_power_mod_square(7nat, e0, n, x0, 0x3672529d312de77582e685b10e1833396208c78828774a35fb8efb28b0d508e7nat, x1);
    let x2 = 0xf44bfbd5ad4d4ace9e8f2c0039061ffe2f08f6bc8357f045833728f1e51ffcd3nat;
    let e2 = 2 * e1;
    lemma_power_mod_square(7nat, e1, n, x1, 0x5480dfefad438ea66016e48e1512ac2e77d92bbc8c12b83f02b36854aaa52511nat, x2);
    let x3 = 0xc5ae63ddc3b8f036ab3d29b9e94e6f0363e217d37ea0a8fcce4b4501cee1862bnat;
    let e3 = 2 * e2 + 1;
    lemma_power_mod_square_times(7nat, e2, n, x2, 0x65fe68649f1111a85c3a53ebb16bc29972551183c9f23679e1724c7c751795234nat, x3);
    let x4 = 0xdba3c298b97c7d616e9fb1322215e38ab2f433820f997d9b1cd718e15cda700cnat;
    let e4 = 2 * e3 + 1;
    lemma_power_mod_square_times(7nat, e3, n, x3, 0x42c89077a8589be229a306a3afbb5141095fbacf569646b5d22e0060cde4eaac3nat, x4);
    let x5 = 0x10bbfd9ae435962bd16b361e651d00e538ff0bb6ae7db77d1bf9d5aa8c5f30e7nat;
    let e5 = 2 * e4 + 1;
    lemma_power_mod_square_times(7nat, e4, n, x4, 0x5271b25e2ce553304d734bb856842ac1929c9097fb332d4f4baca6cb64e3457c9nat, x5);
    let x6 = 0xc277f942561963a67d2ce8a52e0b790be76e6f06ef0cd27857f5ffe735ba4001nat;
    let e6 = 2 * e5 + 1;
    lemma_power_mod_square_times(7nat, e5, n, x5, 0x7a8443ee85150e90274e54223d92c4c14851082792d857aa27c26de2730d796nat, x6);
    let x7 = 0xdeb5d75d836a6eec8a21076d9a892f90b63e002c9092202cee0cfd2dc069008fnat;
    let e7 = 2 * e6 + 1;
    lemma_power_mod_square_times(7nat, e6, n, x6, 0x40a16620f8e08773622cf563b1f660d4db2b24da9a80bf7978bc383c7e044a978nat, x7);
    let x8 = 0x5014523982185c8ecdb0c8064078730fb5a2e064e9be42893ba56e96736925c3nat;
    let e8 = 2 * e7 + 1;
    lemma_power_mod_square_times(7nat, e7, n, x7, 0x54c3f32d30b5e6c7c5a1c4ca7f595e963228d5a282a5cf68c8891bc15505a8c64nat, x8);
    let x9 = 0xce72a21736679c4370ce964fe9b5ecdaf1c080bfa2dac9e5fa9e0a6b40d968afnat;
    let e9 = 2 * e8 + 1;
    lemma_power_mod_square_times(7nat, e8, n, x8, 0xaf58f30640ef1d6995e08e41b2f4764eccb9cb18d1c552fa03c649735c5be510nat, x9);
    let x10 = 0xdd978a98bff58de02f9f2fee74a92e8de2a6ff85f28acd299a5491c074773c5dnat;
    let e10 = 2 * e9;
    lemma_power_mod_square(7nat, e9, n, x9, 0xa67cb0321edc96b9a99040a5c7e74645120825243d888a63d3ea5bfe9e609644nat, x10);
    let x11 = 0x939d49923a1754e5ab82333207750fe89d59cc046c5d5c4d7c9dd6cdbbc388anat;
    let e11 = 2 * e10;
    lemma_power_mod_square(7nat, e10, n, x10, 0xbfceff0086a974bbb12f8959d23b23e81248af3e0068a850195ff9f808c0a27fnat, x11);
    let x12 = 0x20d48925326f61d20ad2823c66cddb7693dcf428d06bfecd252134445e0239b1nat;
    let e12 = 2 * e11 + 1;
    lemma_power_mod_square_times(7nat, e11, n, x11, 0x253d215e8c87f616694300c15f568f891a2212251400130d68e044ab2fc114bnat, x12);
    let x13 = 0x3742a6409fedf008398b21c2e893fbb0df5b2025da345eb5ac7fb851f50a49d9nat;
    let e13 = 2 * e12;
    lemma_power_mod_square(7nat, e12, n, x12, 0x435d2bcbbb036515b6b562f43bc7d45042a4832d34e5e454d8fbca730395888nat, x13);
    let x14 = 0x6b7df64a9df24c327f4b1b3daffdda25c45238bd1e2e7af07c13cc8c854d2339nat;
    let e14 = 2 * e13;
    lemma_power_mod_square(7nat, e13, n, x13, 0xbedb4c9ea02938c3b23904ce58df53d2f7560d41ffbfdfa7357057cd82970b8nat, x14);
    let x15 = 0xaefac8a00b69fb10ba74781b68531b3df656bf62bd31fbdad1e1b87c015fa5eanat;
    let e15 = 2 * e14 + 1;
    lemma_power_mod_square_times(7nat, e14, n, x14, 0x13bf1c509bcf7f551e1d8fd3359ee49c53fa0f229fc752e844bbf7d6ad547b4adnat, x15);
    let x16 = 0x66cf7b542aabee94b1d4111eb13db577e7c9452a39de8a37d99d085a9d0f6e68nat;
    let e16 = 2 * e15;
    lemma_power_mod_square(7nat, e15, n, x15, 0x7799de660554d22cf768be723e92753365a71968d04b39aa800a758f0b50707cnat, x16);
    let x17 = 0x7193a83092062bfc2c0489951c79a060557006ecac6c4cba585ab75480a9955nat;
    let e17 = 2 * e16;
    lemma_power_mod_square(7nat, e16, n, x16, 0x2949fe6fbf8800d79160e4d003d680ce2fae647dd7926af614066afcaa9c3b2bnat, x17);
    let x18 = 0x114d472f63be4c45100870a1373a6084fd05f0e12bd6e5d2c296df862e02e674nat;
    let e18 = 2 * e17;
    lemma_power_mod_square(7nat, e17, n, x17, 0x3263afa57730eeca51cd1153d43f4ce28862b49a611d3c06a2b3f23a34a985nat, x18);
    let x19 = 0xb312677bc68cd794dfa677a4371f01a62cb4e2b41b33964521cd29c9fadea47enat;
    let e19 = 2 * e18;
    lemma_power_mod_square(7nat, e18, n, x18, 0x12b5ac8318c98b462b7d0bc7387298eec833d3be0be6de03fe60c11fb498992nat, x19);
    let x20 = 0x371a77cfebd224626fcdb74d0dfd80379f354d6f84f42ca1ddbbd36fb1849050nat;
    let e20 = 2 * e19;
    lemma_power_mod_square(7nat, e19, n, x19, 0x7d42be09cee5b6e63c815eb620bfbe3501e3d6497fd0a2dd29ce8109a8443cb4nat, x20);
    let x21 = 0xd0cc033d0b86dc103e181f9c0cc53bcb9e16b2c6ec233b3f6b19e51eb052bfbanat;
    let e21 = 2 * e20 + 1;
    lemma_power_mod_square_times(7nat, e20, n, x20, 0x5306af8747761b03e28896dbded574b9097cd93fcc8f1df59f5cbc984e08b7c6nat, x21);
    let x22 = 0x87800a4a3034128ef3ed139a069a261607d664b5547f2f4de8b641fa3c50a3enat;
    let e22 = 2 * e21;
    lemma_power_mod_square(7nat, e21, n, x21, 0xaa4c27d85c10015cc6bc48f6a13493e78414f01dcc33255256d09dbfc820c966nat, x22);
    let x23 = 0xebe614388f515f038639dcbcdeee360304c152cfe2dd3456f9feca743351c6enat;
    let e23 = 2 * e22 + 1;
    lemma_power_mod_square_times(7nat, e22, n, x22, 0x1f60a0c3fc217066119f20905354eb7b4c956858f96b1a4f6f349186873bb2enat, x23);
    let x24 = 0xbddfbaf9177662d6fb877d3b0b230925dc6fcf3aa9bc66ca424aee274a059e5enat;
    let e24 = 2 * e23;
    lemma_power_mod_square(7nat, e23, n, x23, 0xd96037e82e59cd8aed718bc25beb338e7b2eccd5322b707cb302bdd1976166nat, x24);
    let x25 = 0x9d40143d6355cf2b6fea62ea529b64e4e114738f26e374175f8cff60c5392094nat;
    let e25 = 2 * e24;
    lemma_power_mod_square(7nat, e24, n, x24, 0x8cd41d9b132a96a850036d2d7066121c65d3f938e37d679aff2f69b010499df0nat, x25);
    let x26 = 0xdc9e0c529360d7f479e90de74a16c66921000ae7a02848341cd611db6a566351nat;
    let e26 = 2 * e25 + 1;
    lemma_power_mod_square_times(7nat, e25, n, x25, 0x2a4259e0df4f1f8c553971be98ee1bbc67172871c4d14876489fc6741b0611cdfnat, x26);
    let x27 = 0x2eb75aa9083f0f2a146de56ebc26d3216642ff17068aa34acf7c3e38a6627af8nat;
    let e27 = 2 * e26;
    lemma_power_mod_square(7nat, e26, n, x26, 0xbe2006c123d4372a9670ac4414fad34045818b9b3510f22fbe73724ea2ff4169nat, x27);
    let x28 = 0x197cf4024d1833156edf1e07cc6fe0d9dffcead436aab2796f61b8ac31f85a34nat;
    let e28 = 2 * e27;
    lemma_power_mod_square(7nat, e27, n, x27, 0x88667e77cbbbd0307b04ff9273c9d9f0be280c6d8552c1315bf1c653c3d270cnat, x28);
    let x29 = 0x212c25acd1684032c70c7f55f916b5ef01947418cdfbd5d76788631626f036dnat;
    let e29 = 2 * e28 + 1;
    lemma_power_mod_square_times(7nat, e28, n, x28, 0x11c38088311096d1b1bd70fb3bde85fc281692f79ef8f55326de63760ab702c3nat, x29);
    let x30 = 0xfd2be6aeeec1338774bc618fe64fd313e1b250e033058258dbfa40daa8c4e784nat;
    let e30 = 2 * e29 + 1;
    lemma_power_mod_square_times(7nat, e29, n, x29, 0x1e16e148b091e7157af9d735162aff5751259b0010406018b2a9556f417d9bnat, x30);
    let x31 = 0x32c9a930804b4e5d1e45ef4dddea04dc0ed09d51d67e82cf57eae9a0d1b00d0nat;
    let e31 = 2 * e30 + 1;
    lemma_power_mod_square_times(7nat, e30, n, x30, 0x6d89e9e6b81da291f6ef3ad74e85f27d2212ba9c6e10eac3d4544f16bc026dba0nat, x31);
    let x32 = 0xb5a6631989a84c60d5c92be0384817056b9e5a38d735a2665e633c3ce29b7370nat;
    let e32 = 2 * e31 + 1;
    lemma_power_mod_square_times(7nat, e31, n, x31, 0x4687c29e70a7a818885810ec1bc0e53ed491616858ef4ab29a87f6429fb790nat, x32);
}

proof fn lemma_power_order_over_149_part_3()
    requires
        power_mod(7nat, 0x1b7d6c3dda338b2af3f920a4fnat, 0xfffffffffffffffffffffffffffffffebaaedce6af48a03bbfd25e8cd0364141nat) == 0xb5a6631989a84c60d5c92be0384817056b9e5a38d735a2665e633c3ce29b7370nat,
    ensures
        power_mod(7nat, 0x1b7d6c3dda338b2af3f920a4f089731d1nat, 0xfffffffffffffffffffffffffffffffebaaedce6af48a03bbfd25e8cd0364141nat) == 0xc6fdfa58e028af12e548e30241bdb7a823af3a3469009d09e1533d4985439345nat,
{
    let n = 0xfffffffffffffffffffffffffffffffebaaedce6af48a03bbfd25e8cd0364141nat;
    let e0 = 0x1b7d6c3dda338b2af3f920a4fnat;
    let x0 = 0xb5a6631989a84c60d5c92be0384817056b9e5a38d735a2665e633c3ce29b7370nat;
    let x1 = 0xdfe4b1726c5bef95ac70a1d6ae8e3c808b9fea08e89802a4839dd08e93794b19nat;
    let e1 = 2 * e0;
    lemma_power_mod_square(7nat, e0, n, x0, 0x80e4b446c823454853db19974a4c77eef6e0d213de265c5b952a038876c65527nat, x1);
    let x2 = 0xf9ce2c3c3aa3556def60cdb8360927b5cb1a87d17d590b6b0fdf685a705f22c0nat;
    let e2 = 2 * e1;
    lemma_power_mod_square(7nat, e1, n, x1, 0xc3d03971e7989c2556136f801cbe2b7586c13fd33a94ab23e8172fc4b531b871nat, x2);
    let x3 = 0x9f6d42fb35dbe6b49b1c8f5d4c475f6e4c585864199371925864fd5bff231766nat;
    let e3 = 2 * e2;
    lemma_power_mod_square(7nat, e2, n, x2, 0xf3c2b81862a4dd6107f3d0b8a0a56992af5368cf4b2b45e9d2df198d6fc3d81anat, x3);
    let x4 = 0x277ba1181bdc55afb8d7472b6159909aff20c853bf3a2e6436edb62168a32219nat;
    let e4 = 2 * e3;
    lemma_power_mod_square(7nat, e3, n, x3, 0x6348e7d62859841ed9f9e0f62f4515f6e10eb15f022b2dbd1e8a97b7b6db9ccbnat, x4);
    let x5 = 0x47e4afcb9ffaed2722a59b6aaedb95af1641adabefd859c5df7c3efcccdacefanat;
    let e5 = 2 * e4 + 1;
    lemma_power_mod_square_times(7nat, e4, n, x4, 0x2aa04f82cd32ac0bc917a7f6787415a680a9033379e40dbcc6e3f6d5e68029ddnat, x5);
    let x6 = 0x2817c36f8ecaba2094d6284437de6e81195b4f669290700d543db1a3177bf5eenat;
    let e6 = 2 * e5;
    lemma_power_mod_square(7nat, e5, n, x5, 0x1430a5cc8e2a2d324f16d92c0950790fa54093915ae204a06edb73c46f8272b6nat, x6);
    let x7 = 0xa20845e9ccb2c07f2935e7a1b2ba87ca3ec9312d89f334e86b7867811adb6c25nat;
    let e7 = 2 * e6;
    lemma_power_mod_square(7nat, e6, n, x6, 0x6476f478fde26bd9b5e3d1648a237d5828eb71ae1de211c714e2da22620465fnat, x7);
    let x8 = 0xcde122573b0cf1287399bf8620cfda105ebd0464a5666a68581da1240667cd73nat;
    let e8 = 2 * e7;
    lemma_power_mod_square(7nat, e7, n, x7, 0x668e78c058c6e4ab94ef1fd21e8e434f7272a521485c2ff09e8e3c9aeaab7066nat, x8);
    let x9 = 0x90a02ac256fb59427ae00a27154a8c6910809b35b6c342074ef83698979c309cnat;
    let e9 = 2 * e8 + 1;
    lemma_power_mod_square_times(7nat, e8, n, x8, 0x4870060eb9d9ab2b7430f771537a6d6a03096e8e2244a26e4004c3f5ac2cfa743nat, x9);
    let x10 = 0x5a13d6aea7db2b856c8cd5708d7aaa87479a50c8308dc6225875032f993d613fnat;
    let e10 = 2 * e9;
    lemma_power_mod_square(7nat, e9, n, x9, 0x51b494501bebd6acc920934d39bd763861494adfce56399155235e248eb88891nat, x10);
    let x11 = 0x673626b60d2d5e0fdf5cd093d6fb2237dfb39792da678167a7aacc93bd1c18acnat;
    let e11 = 2 * e10;
    lemma_power_mod_square(7nat, e10, n, x10, 0x1fb1f47c5ffb7ced4ee30c4167c721154dc6e6c062bd7093a2fb201295fe3a95nat, x11);
    let x12 = 0xe425c7f14ffbc72ad23b64ed82eed57d2b6c64533eb7e0a8ce773e289cc32674nat;
    let e12 = 2 * e11 + 1;
    lemma_power_mod_square_times(7nat, e11, n, x11, 0x12348563bf0d25370a2cd18477491f869ed1e946de765ac5ea1b2a03b3d79677cnat, x12);
    let x13 = 0x3d17ab498ae21dd501a6ceab679536169c80ff182cd33217f021ec3b69d47fd7nat;
    let e13 = 2 * e12;
    lemma_power_mod_square(7nat, e12, n, x12, 0xcb5351b93e62a75cf9897ef6ff4b10d603196e2a97ac40142b2d0ff0d3750d79nat, x13);
    let x14 = 0xa618c9e44f0f2b17b6740ad2561a1fbb7f97772236c790d62e283c45908ed0nat;
    let e14 = 2 * e13 + 1;
    lemma_power_mod_square_times(7nat, e13, n, x13, 0x660e04b8ea0e50982687823e952cf5a782c54ed7585729e3c7c98b1ccc0ede67nat, x14);
    let x15 = 0x8af3eab91df8fb7a92e9d86a861dde5490e265d5b2d64d2a492a571790f21c20nat;
    let e15 = 2 * e14 + 1;
    lemma_power_mod_square_times(7nat, e14, n, x14, 0x2f25d1999f3e7a56eff2d703d2e0cfbd2cbbc988da927372bc4e258902ae0nat, x15);
    let x16 = 0xa4600e8d612395135a77f3c49cc99bdf0fdb1427e57034dd5d476442c00aa6anat;
    let e16 = 2 * e15 + 1;
    lemma_power_mod_square_times(7nat, e15, n, x15, 0x20ff32a4130bbed337f5674ea8fbce504f7e3ee530d573140765c8ea144cb5616nat, x16);
    let x17 = 0x977d021c94c6ab3d2a7c47e9a2083c4930a8ec6b319d0961aa2e4a5150e2c9c6nat;
    let e17 = 2 * e16;
    lemma_power_mod_square(7nat, e16, n, x16, 0x698b36b00f523664a4c9db6c47cd1af3d2fb24145875a9cdc15b46cbf4e49enat, x17);
    let x18 = 0x9b29869301d0ea639f6da4128717a525e5b7b5d61fd2f0d6c0c52a4311c3aba9nat;
    let e18 = 2 * e17;
    lemma_power_mod_square(7nat, e17, n, x17, 0x59a4b588c7701d895e72d46b21e58591eaa336af9722d6a76e6abb57c4f06fbbnat, x18);
    let x19 = 0xd03dfc93626a1e43661731ae266a4ce3f89d55cdaa9bd95655f8e515798fe3c6nat;
    let e19 = 2 * e18 + 1;
    lemma_power_mod_square_times(7nat, e18, n, x18, 0x2924f2de0ca368d7a8ffc400b8a8f81895b6bd44d26e4562659d0fa8e0376e5f1nat, x19);
    let x20 = 0x40aac497aad8dc40ce19523e5587cd87d414610662dbcd12469692bf5a34beacnat;
    let e20 = 2 * e19 + 1;
    lemma_power_mod_square_times(7nat, e19, n, x19, 0x4a1c1821ce382dc7d411c755bc9ede116e466f5fffefefc6cc8f709f66fa4c950nat, x20);
    let x21 = 0x28850b99b0b8be7404146691dc08423ce424b45957ba7903342fec11c7a7539fnat;
    let e21 = 2 * e20;
    lemma_power_mod_square(7nat, e20, n, x20, 0x1055d43585d3ed9bfc3a2f04c9f0d63a9ad82989c82ed1544c283a57d6b2d2b1nat, x21);
    let x22 = 0x4958addf3d4d359d6e40198ad2a59525ef0be28e46d2b10aadfec405a073cbfenat;
    let e22 = 2 * e21;
    lemma_power_mod_square(7nat, e21, n, x21, 0x669d8c51571eceebd02c778a396ad87954d1a076afeea1b418afd3923d3ad03nat, x22);
    let x23 = 0xae0558facf25026d1f69befdc0372ec75fbe549f5a18147507a6c36fa45cfe46nat;
    let e23 = 2 * e22;
    lemma_power_mod_square(7nat, e22, n, x22, 0x1503b1e15087a92edac46cc1c43ed0a789c02c9c2687143cf14b9201247b043enat, x23);
    let x24 = 0x196e01899220a7ca0605574e40967dc0e4b1cfda1cb3800b7bdb32a2cfe40666nat;
    let e24 = 2 * e23 + 1;
    lemma_power_mod_square_times(7nat, e23, n, x23, 0x33c0ee37ac82e8c27c7b5425269e5e39c8107034671a19c0c0329c12d4c403c16nat, x24);
    let x25 = 0x5c4336069b84726da4e3934129dede5af11d7273b5dd7a60404f64605d188595nat;
    let e25 = 2 * e24 + 1;
    lemma_power_mod_square_times(7nat, e24, n, x24, 0x11aeb0ff556c3d55713e8645414242734ddf6c15f674ee7bb19b47c0844c9e27nat, x25);
    let x26 = 0xd25f54b59cb0be7890aa1c54cbfeb0e762b6817e713c9642c1a747c1df109a8cnat;
    let e26 = 2 * e25 + 1;
    lemma_power_mod_square_times(7nat, e25, n, x25, 0xe8c2a3568277b777aa0c0f44662dac16453c0c6c8dd20c4772818306b4774ec3nat, x26);
    let x27 = 0x9c440c9bd3435b87637715aeee3d3b63d5c86ec318123f6fa26f243d8b6509a7nat;
    let e27 = 2 * e26;
    lemma_power_mod_square(7nat, e26, n, x26, 0xace08a79efe3f35619a6cc51bc8e62fe201baf70e7409c03da967a7415ffdfa9nat, x27);
    let x28 = 0xef235ee8cb728858b9b6673c9ad882608df2a396c298e5ea49f9e64c45f527cenat;
    let e28 = 2 * e27 + 1;
    lemma_power_mod_square_times(7nat, e27, n, x27, 0x29bb50a304a2921ee297940f3cd8a3c4a873bb687bcf3c1b8e5e7f925c6a8d989nat, x28);
    let x29 = 0xa6b23f6deb86c52d1512bbdc2a5c88cea100c1eb2114acf1be82c8054b84dac8nat;
    let e29 = 2 * e28;
    lemma_power_mod_square(7nat, e28, n, x28, 0xdf631019c2b74500706c7d5060494c74c4da6e6b6b3ea260a478a2206d5793fcnat, x29);
    let x30 = 0x75e12e2338d6a7e454b067cb3379bcd67f8c985f42b9465d8c2299e32d0cfa0anat;
    let e30 = 2 * e29;
    lemma_power_mod_square(7nat, e29, n, x29, 0x6c8ba65ed205983f68866765b7461f527febf9dae2f769f1855fa63b9ca45eb6nat, x30);
    let x31 = 0x466bb0c7f102cd1ce135dd97f9f7d0abc1f5f35106106a62760f462aa8aa75fcnat;
    let e31 = 2 * e30;
    lemma_power_mod_square(7nat, e30, n, x30, 0x36479a3e542ecc0f906cb145c2ada125a5ab1ac0b7553769ff74ef3c583e9068nat, x31);
    let x32 = 0xc6fdfa58e028af12e548e30241bdb7a823af3a3469009d09e1533d4985439345nat;
    let e32 = 2 * e31 + 1;
    lemma_power_mod_square_times(7nat, e31, n, x31, 0x87997dda2f1fb86dd41e20f7630120da3400200a59a372ed378f34d28e04976bnat, x32);
}

proof fn lemma_power_order_over_149_part_4()
    requires
        power_mod(7nat, 0x1b7d6c3dda338b2af3f920a4f089731d1nat, 0xfffffffffffffffffffffffffffffffebaaedce6af48a03bbfd25e8cd0364141nat) == 0xc6fdfa58e028af12e548e30241bdb7a823af3a3469009d09e1533d4985439345nat,
    ensures
        power_mod(7nat, 0x1b7d6c3dda338b2af3f920a4f089731d125410d93nat, 0xfffffffffffffffffffffffffffffffebaaedce6af48a03bbfd25e8cd0364141nat) == 0xe92e18edcd34883615bf6f7b0bf67a75325dcc7aac6c3815a8df0c719d2bb645nat,
{
    let n = 0xfffffffffffffffffffffffffffffffebaaedce6af48a03bbfd25e8cd0364141nat;
    let e0 = 0x1b7d6c3dda338b2af3f920a4f089731d1nat;
    let x0 = 0xc6fdfa58e028af12e548e30241bdb7a823af3a3469009d09e1533d4985439345nat;
    let x1 = 0x90fc3d6c4efc733085ff4f75a6007f3059e94d5ee6d8f27190c12cebff68f7e4nat;
    let e1 = 2 * e0;
    lemma_power_mod_square(7nat, e0, n, x0, 0x9aaddb3a433bb3e59c366ee06c85edf330f506fa10a0580062d456c0ee9a0675nat, x1);
    let x2 = 0x3b1fa9b2b2a673b8402a1542d059fe9395b8e3c243ab985860b87c340dbcce77nat;
    let e2 = 2 * e1;
    lemma_power_mod_square(7nat, e1, n, x1, 0x521cbda2d4d44e106a8c27fa12ac811789c43e081b90ddcb369caaa26cea0559nat, x2);
    let x3 = 0xb5b9addbab8cdb4e9d6e5e83635922325858f48b1b31fe44ba942f2504fdaeeanat;
    let e3 = 2 * e2 + 1;
    lemma_power_mod_square_times(7nat, e2, n, x2, 0x5f9544f458cde7d983e72a94ad1798cc541a6d3805913bb806f26b78f96b200dnat, x3);
    let x4 = 0xdfaf521770cc3bbf0ca514b6c5d6a284112c50b9782663e61dee1c76e3a1aa82nat;
    let e4 = 2 * e3;
    lemma_power_mod_square(7nat, e3, n, x3, 0x810016855e25c20d789a8eee8b2226bbc08cb7f1f547e5e21b14c564ab6da8e2nat, x4);
    let x5 = 0x56f9c52655619cf58c423b0ab4afebfe064e2da39a088982662b2ab5dfd5e8e7nat;
    let e5 = 2 * e4;
    lemma_power_mod_square(7nat, e4, n, x4, 0xc372e9162ce30db8d3e75b6d36fb71cb326f7a9d75cf5f0d68eedbe17d51acddnat, x5);
    let x6 = 0x93a96bb79c01f8c587c228c0a4d1fbcf6ea983c30e38a091259c52e922fe95a4nat;
    let e6 = 2 * e5 + 1;
    lemma_power_mod_square_times(7nat, e5, n, x5, 0xced95d101059e1720680c30f017b095c675c647029f642d438ea3d866cc40db3nat, x6);
    let x7 = 0x2aa790f309bc083e6374e1c3fa931ed3d257df702eba29ebefb3086f630a07anat;
    let e7 = 2 * e6;
    lemma_power_mod_square(7nat, e6, n, x6, 0x552c01d442e93e675e8f6a4012091243cc0f95baa3b86f98375ef6b89603d516nat, x7);
    let x8 = 0x17ed34311518d9a5da3cbb3077472fc94078f664ebcafa6eccfea5357e268226nat;
    let e8 = 2 * e7 + 1;
    lemma_power_mod_square_times(7nat, e7, n, x7, 0x31bfe0b3447b05fbb680f7259cc5b0d5d0861ba13e36aaf24d94684c096956nat, x8);
    let x9 = 0x3fe7274ff870f2b5c88e12f76e73083e4e9b1a001a386af836d4b5c654b5d9a6nat;
    let e9 = 2 * e8;
    lemma_power_mod_square(7nat, e8, n, x8, 0x23c7b2a7f4f8119f7f8c65a426876ee4a0da65fd2fba570f714bcd5d119267enat, x9);
    let x10 = 0x8f63805a7cd5fef0b5350ce93f1e9dcdab7c8020d952cca094dde7594eb5dc16nat;
    let e10 = 2 * e9 + 1;
    lemma_power_mod_square_times(7nat, e9, n, x9, 0x6fa91a795077e5d03ec693d5e2c3df5e930604e08ed907fdfe08cfc9c68829e6nat, x10);
    let x11 = 0xa68830e349df7a4f58c48b190d4d7ff977e9efdc5e80e84ddc3f5f33ae0233e1nat;
    let e11 = 2 * e10;
    lemma_power_mod_square(7nat, e10, n, x10, 0x505050119dce3d261ae563c4711cd1cc32af93449c4c3f3457eedb411d900a43nat, x11);
    let x12 = 0xc6f9ec2481c137ab2c007ea99a07cfdd832b882c8ba3c4e9abf1549cd362e3e7nat;
    let e12 = 2 * e11;
    lemma_power_mod_square(7nat, e11, n, x11, 0x6c54e7dabea25590c0ef1610f9e32eac8d903dbf3bcca4bed093df87e9c4d75anat, x12);
    let x13 = 0x1672ac605ef60289185c017cc6fca3031cd6dd30c43cd62bab01fd2128564a83nat;
    let e13 = 2 * e12;
    lemma_power_mod_square(7nat, e12, n, x12, 0x9aa78d45b18ea06c11cbea198869e43171677d9cae71b86bc35a730d5889a66enat, x13);
    let x14 = 0x9894daa535f82a9b0b538fe8b693da9d6c253c8ad80ca0374c67b2220dac9a83nat;
    let e14 = 2 * e13;
    lemma_power_mod_square(7nat, e13, n, x13, 0x1f7e8fe8a387f6bc16d380639ba3db575824a39a757e41a5acdad02047d9d06nat, x14);
    let x15 = 0x920a0803dc6e90d6d489c798409a1fb7642449804d961fd6b1d8f51e8a4ecc01nat;
    let e15 = 2 * e14;
    lemma_power_mod_square(7nat, e14, n, x14, 0x5af11a31b9dae412a69000e06ee0509aa651f7690fbd16ed27b27abd25cdc908nat, x15);
    let x16 = 0x927dfa4ef993a6e17312f1b408536c80900e1317c0017b56625edf872dfc7426nat;
    let e16 = 2 * e15 + 1;
    lemma_power_mod_square_times(7nat, e15, n, x15, 0x2472c1abf37e109c3389d9e16281032b034aef5e7a99496109534ecf890af2aa1nat, x16);
    let x17 = 0x47600a7a5e5e8076cc59b11b4c3414de4cde5a315339cdc55c7a95b348d17a4bnat;
    let e17 = 2 * e16;
    lemma_power_mod_square(7nat, e16, n, x16, 0x53d3ef807a8a7c5b8aa69220287c5cece094cc865165e3ecc0d49db1d4619c19nat, x17);
    let x18 = 0xfcbc670bb1b29eef752c0f7ee966ed37b5c95764910ffc899f44d8f84291fd5fnat;
    let e18 = 2 * e17;
    lemma_power_mod_square(7nat, e17, n, x17, 0x13e669d7bc8cfbffb55845ed95d7ee0494d7ea4f858d0fb230c6a0c028dbf41anat, x18);
    let x19 = 0xc5081ca100203199f57f641b59a58c97eb4974914e0fc56689402fc5a863b75enat;
    let e19 = 2 * e18;
    lemma_power_mod_square(7nat, e18, n, x18, 0xf9837586887f10c75af9ac7eabdd3a3da2c95fd4b91c7e1d12b05373031cc623nat, x19);
    let x20 = 0x21c01807b72ef3dca3ae1def4e335353001e253e465ef8b0b71082567d70e0d2nat;
    let e20 = 2 * e19;
    lemma_power_mod_square(7nat, e19, n, x19, 0x97a57c5197752ba240cd7d6f71e9f7297c2a9aedfabd1800902d0c8f04d12732nat, x20);
    let x21 = 0x4dc9c25756c7c58c91d7ab7432effe80f59ee3c22c56e20a852340d749e93f42nat;
    let e21 = 2 * e20 + 1;
    lemma_power_mod_square_times(7nat, e20, n, x20, 0x1f259c5a4d644b2711b2f0594effdb6e5e261982b28389f1147f4d590f19d61anat, x21);
    let x22 = 0x1008a63f1f26d0ab6811b8214f76045242e2ec89a03123c2f5bbe1cdb22542a6nat;
    let e22 = 2 * e21 + 1;
    lemma_power_mod_square_times(7nat, e21, n, x21, 0xa574f16f0c348f0f91925f1e25ba1606bc2dbae2899a9f30985988c12ac1e4f6nat, x22);
    let x23 = 0x2391f8229729e87310fe523171b668da43aa20df901d11b9b6850f4e86e2614nat;
    let e23 = 2 * e22;
    lemma_power_mod_square(7nat, e22, n, x22, 0x1011512b3ccb879273c23dfffb5b71870cabcc10849202049096dae363fe990nat, x23);
    let x24 = 0x57262cda63451236db09d60a61912d3812172208cf06f572d9218e0ecdfeff62nat;
    let e24 = 2 * e23 + 1;
    lemma_power_mod_square_times(7nat, e23, n, x23, 0x2298ab8f6b36281d624d97fb6523d1ebf38519661240887b2d896561528a0enat, x24);
    let x25 = 0x9f35624849e76ddf5cab5202f3bd9924d0416802ba12e7b994a17d7963b5002bnat;
    let e25 = 2 * e24 + 1;
    lemma_power_mod_square_times(7nat, e24, n, x24, 0xcfacc9407927832d94e298e9f8085337d121211678287c2ed596bfa348a6ed31nat, x25);
    let x26 = 0xf6840b9736168158c76fea00ca00d209e9e9f8b1a029e3129b033abeda816afdnat;
    let e26 = 2 * e25;
    lemma_power_mod_square(7nat, e25, n, x25, 0x63035b37a377814dcb3bcd47c641bec40dd96eaead2e20be57280a84ad40113cnat, x26);
    let x27 = 0xd19512c7f95a2605e76033879f2634095331a9f54429d709b648f537b49e4a73nat;
    let e27 = 2 * e26;
    lemma_power_mod_square(7nat, e26, n, x26, 0xed620a6290695fc2cbf0798da9ec188c43f424642900258e23310ed09f2a9816nat, x27);
    let x28 = 0x549b14a203c4c971944dfe386584da68647e5d1cddb86c8897b03cd98cd262a3nat;
    let e28 = 2 * e27 + 1;
    lemma_power_mod_square_times(7nat, e27, n, x27, 0x4b1113c51b7235215574bf2da6912d3a6780951ca89dbfee35203eba68e756ffcnat, x28);
    let x29 = 0x7572ec40a31304c7741f067e9c51121f232144ea4f53cff3a9a1193914f4774nat;
    let e29 = 2 * e28;
    lemma_power_mod_square(7nat, e28, n, x28, 0x1bf6237c50536b9dfd73ac307b41261bb2df852b582bd4570e7a3cde32141215nat, x29);
    let x30 = 0x36d066409079b4c7d0e567692e23ae7c040d4c353ceb8f27c8ee33176dcc29a4nat;
    let e30 = 2 * e29;
    lemma_power_mod_square(7nat, e29, n, x29, 0x35e23f8a58a7dc4b93fb22e47ab3982f673a1a15ab70898238bcde5d9f7becnat, x30);
    let x31 = 0x5d4f5223935b9836c6bb554ea649f0fb7bbd0cad03baef2540e39a77b64c28abnat;
    let e31 = 2 * e30 + 1;
    lemma_power_mod_square_times(7nat, e30, n, x30, 0x52281182e6f76a293ef10021fd58eb15be4ce774fbe0fe553321e1f7b4238885nat, x31);
    let x32 = 0xe92e18edcd34883615bf6f7b0bf67a75325dcc7aac6c3815a8df0c719d2bb645nat;
    let e32 = 2 * e31 + 1;
    lemma_power_mod_square_times(7nat, e31, n, x31, 0xee1317cb85a22548510a904c586317624f00a873d80fe757744ca6ba573afccanat, x32);
}

proof fn lemma_power_order_over_149_part_5()
    requires
        power_mod(7nat, 0x1b7d6c3dda338b2af3f920a4f089731d125410d93nat, 0xfffffffffffffffffffffffffffffffebaaedce6af48a03bbfd25e8cd0364141nat) == 0xe92e18edcd34883615bf6f7b0bf67a75325dcc7aac6c3815a8df0c719d2bb645nat,
    ensures
        power_mod(7nat, 0x1b7d6c3dda338b2af3f920a4f089731d125410d933777a02fnat, 0xfffffffffffffffffffffffffffffffebaaedce6af48a03bbfd25e8cd0364141nat) == 0x277ad9a320120758a2465f5449b39d5ee7039bf2ced96a9e015da5e807302466nat,
{
    let n = 0xfffffffffffffffffffffffffffffffebaaedce6af48a03bbfd25e8cd0364141nat;
    let e0 = 0x1b7d6c3dda338b2af3f920a4f089731d125410d93nat;
    let x0 = 0xe92e18edcd34883615bf6f7b0bf67a75325dcc7aac6c3815a8df0c719d2bb645nat;
    let x1 = 0x7ddc0f09b25c0de276d579c58439415503f830091e065a09dc258bd78bb7a0f9nat;
    let e1 = 2 * e0;
    lemma_power_mod_square(7nat, e0, n, x0, 0xd464f1add76cd232d851cee072a16469b33d5e90b4d006401d83f7a6c92d85a0nat, x1);
    let x2 = 0x59c00d3bc122d33813d79e8adce9a524dc9a5067e04b08bb9184364cd656db87nat;
    let e2 = 2 * e1;
    lemma_power_mod_square(7nat, e1, n, x1, 0x3de0a3d951ba970bd5a6601676a9f0c58898c2f1cc4953b6c8ac4c55f9ce222anat, x2);
    let x3 = 0x3fb19a8a5f86210892d9cef76bec28325da1aa97babd779e8630b4f982183caanat;
    let e3 = 2 * e2 + 1;
    lemma_power_mod_square_times(7nat, e2, n, x2, 0xdc41b0f3ce3d4aa5a5e1e137434e2766b6545de96a1db6aa6a56164056b8036dnat, x3);
    let x4 = 0x402b6c6298404cbc7f888ae7aea1c8ab4e73bdfa0392ee8da8449c0060516367nat;
    let e4 = 2 * e3 + 1;
    lemma_power_mod_square_times(7nat, e3, n, x3, 0x6eee44f231902a2ecae728652b3633004429798bdca3d90e8903a2910bf18895nat, x4);
    let x5 = 0x1334655454d8d744af3a46439293d25d4a429513ae1a828fb1fdcf2dc628bcb1nat;
    let e5 = 2 * e4;
    lemma_power_mod_square(7nat, e4, n, x4, 0x1015bd8ee322a267339d5485a795c326902adfc28dbe0c9b9abec68f7c5da6c0nat, x5);
    let x6 = 0xa3feec39f4d4cbbd37a34e15c6790902dcd0cb8bbc2dff5d7c2bc2aaa7d9d9d8nat;
    let e6 = 2 * e5 + 1;
    lemma_power_mod_square_times(7nat, e5, n, x5, 0xa15bc5ae0bc276dc76040b22dab1767863e29dfeea503f1dd10853464a6740fnat, x6);
    let x7 = 0x9704c3fda0631f41abcd4e1897d745601a183bdac9e55c80d2e1f415d3401c7fnat;
    let e7 = 2 * e6 + 1;
    lemma_power_mod_square_times(7nat, e6, n, x6, 0x2df6656afeb5a17b5be3011313fb1daf0547d7bcd81074f3a13e3392e64af6e01nat, x7);
    let x8 = 0x3a7967467dc15ad8f8f78bfe6bbc536044d9952ce910a61950670b840b498827nat;
    let e8 = 2 * e7 + 1;
    lemma_power_mod_square_times(7nat, e7, n, x7, 0x26f9e5b1360442d19093c1ab18c31098f4e4ea5f660737939ef56f3490cfd90e0nat, x8);
    let x9 = 0x8c4a5d3ec72d7677e01398bf9959fadddc4352a7233e6cd4b3f2943e3e359571nat;
    let e9 = 2 * e8;
    lemma_power_mod_square(7nat, e8, n, x8, 0xd5b3c5ebb484a8ccc8a3132f7e0e28da461d7bf994345f98c93ff86edc14080nat, x9);
    let x10 = 0xe3756436668b61dbd51393ab555eb86790504696e80f331659de895f93e34598nat;
    let e10 = 2 * e9 + 1;
    lemma_power_mod_square_times(7nat, e9, n, x9, 0x21a29f11eecc0d3c6042630a92223afe837acc9a3a116223de25144cf622c9acfnat, x10);
    let x11 = 0xcb5c49e7b7e6698d8be955e3622add38df4d36427ef75c31bb5b16da309c5e8enat;
    let e11 = 2 * e10 + 1;
    lemma_power_mod_square_times(7nat, e10, n, x10, 0x586b1c6dc9bac3e5d5a0925fa40ec626489f4c2c34a17e56579a18c61f08ccab2nat, x11);
    let x12 = 0x94a1b695a2e4143cf2576754df502b33565bef77e1bd283b0d6b952b99ef2ee8nat;
    let e12 = 2 * e11 + 1;
    lemma_power_mod_square_times(7nat, e11, n, x11, 0x46ad0755adac2fb6816476c2cd9a575b4faf9a281a8bea12cf1b9bb27e7dc9f74nat, x12);
    let x13 = 0x56f97e8ce87c53ecfcb2af47d798cf847406a42828d3888a8bf95d0b5ee7ffa9nat;
    let e13 = 2 * e12;
    lemma_power_mod_square(7nat, e12, n, x12, 0x564b61442ec7b55b3ec98dc1ac8069f3b12b8e983acf9a6709f544f0d0a125d7nat, x13);
    let x14 = 0x31b26bc5ee576e61809c0e560fe4edb2ece692c1f065b1018f565600868f5539nat;
    let e14 = 2 * e13 + 1;
    lemma_power_mod_square_times(7nat, e13, n, x13, 0xced80d42ae179897d9ac04b353e2e8c4c8738931a726c2a3b3f797f51d26ac3enat, x14);
    let x15 = 0x82d4d2ddc480a068bd9e3f7330a1cc5c208ace8a62ac2feae869dec58bef90benat;
    let e15 = 2 * e14 + 1;
    lemma_power_mod_square_times(7nat, e14, n, x14, 0x43888342bd03c8c832e6a039707cd8529c4f832350a45daf92453b4fb403eed9nat, x15);
    let x16 = 0x5eb8f0323adfab8db3c4900e9f788a9f3f9cc8c89187ce595832e5fc0adb3b83nat;
    let e16 = 2 * e15 + 1;
    lemma_power_mod_square_times(7nat, e15, n, x15, 0x1d409e1a21bf4c52b9f017d17f1b90c644e9fb3e443cea3a04ba4c3692d443059nat, x16);
    let x17 = 0x83f7a1045689c7044169e2b827bc2278533b71ee86e8d87013d22175711d1f3fnat;
    let e17 = 2 * e16 + 1;
    lemma_power_mod_square_times(7nat, e16, n, x16, 0xf55659f959a9c247b803197bf0323ed4e6e1a0ca4f142fdb37f9c9421b6b6400nat, x17);
    let x18 = 0x8d24b55557b31a5d25cd9c7dd02ee5da73855b161e25d02f385062e7093cbc91nat;
    let e18 = 2 * e17;
    lemma_power_mod_square(7nat, e17, n, x17, 0x44075e528c367478830b06a2abbab57aff5c0d2577e9364976b3f93c36fa68f0nat, x18);
    let x19 = 0x5218afc536017d2e4b94c5752e8fd4e64c197c2c4bc69f9ace97d1592329e109nat;
    let e19 = 2 * e18 + 1;
    lemma_power_mod_square_times(7nat, e18, n, x18, 0x220ba331895603f247cb3033d8477f88be7aaf38413a043171fffc4f428fb305enat, x19);
    let x20 = 0x2cddc9aec9e2c2fcaf1aefa5ca2a3c4e4f9cad5019a96271fcb22cf66a085f17nat;
    let e20 = 2 * e19;
    lemma_power_mod_square(7nat, e19, n, x19, 0x1a53d2fbc4424c3b53ee0fcb9030940366fed478a691e527b1167dcce9928abanat, x20);
    let x21 = 0x8c1bc70d9d344ee7c611850c640ffe827034dce9cdd544a3829e6a36d25b9ad7nat;
    let e21 = 2 * e20;
    lemma_power_mod_square(7nat, e20, n, x20, 0x7dcfd79ec1274e8aa1f5066bc4f192bb8e27fe8b27ff48bb15c946d322710banat, x21);
    let x22 = 0xeb83d715d6dceb7a26ca1fa6d9a48d04b6c3f51faf0e3ce6d2bd9e91623e76f5nat;
    let e22 = 2 * e21;
    lemma_power_mod_square(7nat, e21, n, x21, 0x4cae64ba7b968a76d00c7e29681b636abcb2dd0dc44db6c4d38d5bc09123a69cnat, x22);
    let x23 = 0x476285f3b472a15bca9777ab6a2f8700cbcb5708a9fbbb8f7518fed3754a8a12nat;
    let e23 = 2 * e22;
    lemma_power_mod_square(7nat, e22, n, x22, 0xd8ab50c7ed892f2f4a56b0806210621396da55fcb1d7f85992c7cf6a2f1deba7nat, x23);
    let x24 = 0x1d62f31c2c7bedd64f09d2999d9e450fc2b0bdf869a3cff96166f204db4ec0dfnat;
    let e24 = 2 * e23;
    lemma_power_mod_square(7nat, e23, n, x23, 0x13e7cc3802c4dec3a1203b59e262f9f2adf900a288139fc2513f27184e50ba25nat, x24);
    let x25 = 0xe612ed23d4fd6a5000813d46e6cb4b28729148487ffac501be1366574dc4e8a1nat;
    let e25 = 2 * e24;
    lemma_power_mod_square(7nat, e24, n, x24, 0x35f91536a84a251ae5873ea0f5a113d02c0fb75c533bea922e6ad8ff0e051a0nat, x25);
    let x26 = 0x807a9043264eb0bc9eef224f8fa011d0aeb7e6ef24f7aa34da1a611be1762e36nat;
    let e26 = 2 * e25;
    lemma_power_mod_square(7nat, e25, n, x25, 0xcec60382976cac0bd980320742972eb7aef9adf32469abd81b4ea997653da94bnat, x26);
    let x27 = 0xc76bfb5a7bc0260c6a2b22082b0db65adb1498e11c87f0e2691d51d87ca3a01bnat;
    let e27 = 2 * e26 + 1;
    lemma_power_mod_square_times(7nat, e26, n, x26, 0x1c35b8c96c53bb322b73f7af893932d2cc71825b23cd84c31ea4fa5e93fc84e61nat, x27);
    let x28 = 0x9ddf48408a8446eca6275b5a5828014c53d3d31813dac447a0d8cad27f63f75dnat;
    let e28 = 2 * e27;
    lemma_power_mod_square(7nat, e27, n, x27, 0x9b590e52c0d2bc6d24f91cab671fa4a972fdf4d77e91f4a1352ec8ffe59c307cnat, x28);
    let x29 = 0x447754b1f96a660c033b002ee32959a76df063eb8c3e2271130851b49798c63nat;
    let e29 = 2 * e28 + 1;
    lemma_power_mod_square_times(7nat, e28, n, x28, 0x2a9816992d7238d6c7f786684c1ee6345edc20111a74aa3d4959d76a35f94b71cnat, x29);
    let x30 = 0xdec4da366dce3c24e036c501752304097f2a1603739d92867f59b7a8246ca2a6nat;
    let e30 = 2 * e29 + 1;
    lemma_power_mod_square_times(7nat, e29, n, x29, 0x802d4854c9e1c5c573e074e81a366e5c4a8d1813b69b978a2ce02f66e58219nat, x30);
    let x31 = 0xea20965f0bdcb11fba4bc12143bda5651814060be91b6317a5740d21b7769391nat;
    let e31 = 2 * e30 + 1;
    lemma_power_mod_square_times(7nat, e30, n, x30, 0x54cf60cd4da8a02dca11e5e4e33055d65431bcfbea1742c1b49802d2423a6102bnat, x31);
    let x32 = 0x277ad9a320120758a2465f5449b39d5ee7039bf2ced96a9e015da5e807302466nat;
    let e32 = 2 * e31 + 1;
    lemma_power_mod_square_times(7nat, e31, n, x31, 0x5dadd2151dc69912afce8e1666890d55d9d9a669c079d4891567646fb21dc7341nat, x32);
}

proof fn lemma_power_order_over_149_part_6()
    requires
        power_mod(7nat, 0x1b7d6c3dda338b2af3f920a4f089731d125410d933777a02fnat, 0xfffffffffffffffffffffffffffffffebaaedce6af48a03bbfd25e8cd0364141nat) == 0x277ad9a320120758a2465f5449b39d5ee7039bf2ced96a9e015da5e807302466nat,
    ensures
        power_mod(7nat, 0x1b7d6c3dda338b2af3f920a4f089731d125410d933777a02fad395522nat, 0xfffffffffffffffffffffffffffffffebaaedce6af48a03bbfd25e8cd0364141nat) == 0xc651e04646978c58baaa06d7496a2b20ba6237942e702b95221bbe2515aa382nat,
{
    let n = 0xfffffffffffffffffffffffffffffffebaaedce6af48a03bbfd25e8cd0364141nat;
    let e0 = 0x1b7d6c3dda338b2af3f920a4f089731d125410d933777a02fnat;
    let x0 = 0x277ad9a320120758a2465f5449b39d5ee7039bf2ced96a9e015da5e807302466nat;
    let x1 = 0x6407ada3e863c5e6e604e72b4048fe13927db62e529e250c517d1f8608423d64nat;
    let e1 = 2 * e0 + 1;
    lemma_power_mod_square_times(7nat, e0, n, x0, 0x2a9ea0db05ea1a26fd77ac69cad981051fd8d26a5f2aa8beb972bf31c8fc5118nat, x1);
    let x2 = 0x747dea04f5e54ee945f940045ebf1f283514095efad3f5a13ce0d2c5da92f818nat;
    let e2 = 2 * e1;
    lemma_power_mod_square(7nat, e1, n, x1, 0x2715ffe3024b9919d1d17d5f23c15982c0c652653c0d57886f1fa6e9e8dea0f8nat, x2);
    let x3 = 0x6271be29199c6a3845e6a5ba48d810fd7ed3e8a4fee8d8dd00c1c2c1af299987nat;
    let e3 = 2 * e2 + 1;
    lemma_power_mod_square_times(7nat, e2, n, x2, 0x1731076140f4b157fefd8ef85abdac732fec29a8a7a477ecbd174dc9893f8fef9nat, x3);
    let x4 = 0xa51ce0c45e263245d4ad3d0f89c67ac8b16dc8e4c3b43dee765cf96a6e053276nat;
    let e4 = 2 * e3;
    lemma_power_mod_square(7nat, e3, n, x3, 0x25db4820e52566063f87c69a4e6a394759ed3668d62a41ac3f62b72125c378fbnat, x4);
    let x5 = 0x84074ce9fed4bec1692a588ae6bf6c8d4d22e425895f62cb2bef5ae5522df891nat;
    let e5 = 2 * e4 + 1;
    lemma_power_mod_square_times(7nat, e4, n, x4, 0x2e973aaf97ba673d51ba3aa5d3968c2f1a13038f794aec41ba2969c8ef7c9666bnat, x5);
    let x6 = 0x202d31d71ad8980463d0d7982bb4fb12e1065077a59553e65803a87fad7390e2nat;
    let e6 = 2 * e5 + 1;
    lemma_power_mod_square_times(7nat, e5, n, x5, 0x1dca4b4ae3ae5b2c6788a7240ae9cd64fe9f26e87cc4178b05ef28ee5fe7a47c5nat, x6);
    let x7 = 0x1588c48d074cca7b3089461e27931f020277f136fb55703dfd910f3986011febnat;
    let e7 = 2 * e6;
    lemma_power_mod_square(7nat, e6, n, x6, 0x40b54705609a32b8f51090937b3118bb34474b56a963cb7ef3a8903f9273859nat, x7);
    let x8 = 0x6aaa9d493f39f9e112436a010812710e6a13d85fabeb9966d9663bac8ff975e6nat;
    let e8 = 2 * e7 + 1;
    lemma_power_mod_square_times(7nat, e7, n, x7, 0xcae1133efa241c1d3e56c68e573f30e418fac625da8fe272ed1236f75ebf2e9nat, x8);
    let x9 = 0x5a2dcf00293c8405dbfdc7477b55735d4905a6e43206e9597e628b6c3e53a10nat;
    let e9 = 2 * e8;
    lemma_power_mod_square(7nat, e8, n, x8, 0x2c71bbf5ee46e8707d383e32bfa4a2357f1a839b60d3676ccc286a9e16485794nat, x9);
    let x10 = 0xf651d682334a381824233f5cf6be2087e4b7a986200fff27c2e7f1d11c8e39acnat;
    let e10 = 2 * e9;
    lemma_power_mod_square(7nat, e9, n, x9, 0x1fc43dbe8a6e4eca6ce3b1b2c16b7e66d88d92c65bcd6a5ea3ee39e74a1e54nat, x10);
    let x11 = 0x10a4fefa74d4adca373a8683f632b998531cbd63e060769d281afd46700cd59bnat;
    let e11 = 2 * e10 + 1;
    lemma_power_mod_square_times(7nat, e10, n, x10, 0x67b09b0f1b8f33d32c52a2e316debc86d03fef4b78e2eb0ed795ffcdb68c8e115nat, x11);
    let x12 = 0x66b7e9b200e553030e947db642394234eda8c83e11fbb051836d858c5100e029nat;
    let e12 = 2 * e11 + 1;
    lemma_power_mod_square_times(7nat, e11, n, x11, 0x7934780ee3b9d9c9cf17dbad844add7465e41aee1ec39e415a6bdfcb67e9b46nat, x12);
    let x13 = 0xdb59e6db68ecbbaa5be2c5e75e5fdfa89f292715993850c1a19696a102f1a263nat;
    let e13 = 2 * e12 + 1;
    lemma_power_mod_square_times(7nat, e12, n, x12, 0x12081807489c2b3e4a206dad81f6fb869464dfcfcc8b227e35272217b1c709294nat, x13);
    let x14 = 0x48ef17fe2763249d232741a374806d0951e0127938cfc24be46eda8f326702a1nat;
    let e14 = 2 * e13;
    lemma_power_mod_square(7nat, e13, n, x13, 0xbbf2f08dba42fa4606ea48411e45fd4906df7c3c85e1edb79b2582a658715da8nat, x14);
    let x15 = 0x8e2a404cea70446ffb6b1584fe49a3a0b6df8d9f17ee938c2df310ca6c71971anat;
    let e15 = 2 * e14;
    lemma_power_mod_square(7nat, e14, n, x14, 0x14c75cccc4f4f71cc08df7e887e91d1ef1a81e7effa2eb466b1ca87648c9d167nat, x15);
    let x16 = 0xf15e591ef2198c100a25815b7915739effe7ebe625d8b082dae1f9f01d256661nat;
    let e16 = 2 * e15 + 1;
    lemma_power_mod_square_times(7nat, e15, n, x15, 0x228a44c256e48239ffe9f72e2a7e2e3b51b77908ccd189061290e553954f1ae5bnat, x16);
    let x17 = 0xb59fd3613d1869d09e1622a2e5bf215ed527bce8db0c821ae61a83f693f60f55nat;
    let e17 = 2 * e16;
    lemma_power_mod_square(7nat, e16, n, x16, 0xe392c691d5946c8c75365b44a8d5ab13329116a8ec761e0e69ed07d10ff15a6cnat, x17);
    let x18 = 0xc5f984f64d3bd70b60304ae780a6321edc7c2ce5a784ccf0757dd61fe6e1d71bnat;
    let e18 = 2 * e17 + 1;
    lemma_power_mod_square_times(7nat, e17, n, x17, 0x385ffc0ce4c06f3364760c96da301edd86bf17e8a3a5e948f594d589a9c0d5774nat, x18);
    let x19 = 0xc43771e4107ad056ab2920da7fff38cb1803fc149af888c1df1d426ff372563dnat;
    let e19 = 2 * e18;
    lemma_power_mod_square(7nat, e18, n, x18, 0x9919f9d6ff0f43fe123d83a258263d6cb53b7fc3f5de0fb05215b18c3cce839cnat, x19);
    let x20 = 0xbd0317de9616e576777a0c14f322209e57eb838428152b5fe860322d27989fecnat;
    let e20 = 2 * e19 + 1;
    lemma_power_mod_square_times(7nat, e19, n, x19, 0x41cc2a0d3834be69c158a0af3a9e12954735df0631ede35ec4e75ed0bfbe15213nat, x20);
    let x21 = 0xf9de9dcb31a532436b9b60b0fda1c3ba26f496fb012fa8b4f1d0f5292157d23fnat;
    let e21 = 2 * e20;
    lemma_power_mod_square(7nat, e20, n, x20, 0x8b8d91483b0f13db12211c956f6386b26a54e24e338b081763d2b7b417445a11nat, x21);
    let x22 = 0xa0269e91616a08f267254f95be7a53ab4f956cdadd7f7238947adc2ca984a752nat;
    let e22 = 2 * e21 + 1;
    lemma_power_mod_square_times(7nat, e21, n, x21, 0x6ab33b3cf4dc2413f12b7ae522973456c594f97465372ea79e13273960dd156f5nat, x22);
    let x23 = 0x20129e213893c62de19b28a845dc9bf5ca26c5ff32823f8c3187e5d3d9f8648nat;
    let e23 = 2 * e22;
    lemma_power_mod_square(7nat, e22, n, x22, 0x64304c092f253d780b20232cd04630d722ef077a33ed90d0fc402fe1d3bb54fcnat, x23);
    let x24 = 0xeacc0aad433a312dfec06ef1a53f9e3075fce3f60c3fcf5265c2468df3497feenat;
    let e24 = 2 * e23 + 1;
    lemma_power_mod_square_times(7nat, e23, n, x23, 0x1c209e3477717751ae94981932e80fb7f9b6883ad22ec881292e4517690752nat, x24);
    let x25 = 0x7c1ed7b2ea77d1cf7a6bc3226b145470d3bb741fd8ec9a988a4a8f5533872740nat;
    let e25 = 2 * e24;
    lemma_power_mod_square(7nat, e24, n, x24, 0xd759a625c37b852af12b608c519b4b26108f1ff805bb7ee531793e8c0e8f9504nat, x25);
    let x26 = 0x2c62eadd3fc21aef8b47ccbaa283a86bfeaf4e3af6e68ff12a4ee5385c1a8c94nat;
    let e26 = 2 * e25;
    lemma_power_mod_square(7nat, e25, n, x25, 0x3c2de4ac96d10a3653029e165a11353ff152de2cb16d2a358a464e3cbb2b7c6cnat, x26);
    let x27 = 0xbfb14241d4e5a79a634e1a5838dbe3562f94298755a6a2cd22e5269c02b1f91enat;
    let e27 = 2 * e26 + 1;
    lemma_power_mod_square_times(7nat, e26, n, x26, 0x35df10b0ff7d4b82b6bdf5ed9c123e5e6089f00fc8fcb1d1440e287d9f2fd752nat, x27);
    let x28 = 0xca7e8ced761ae6595d52a6120810450d9de92afae70f855bea861e23a78f0688nat;
    let e28 = 2 * e27;
    lemma_power_mod_square(7nat, e27, n, x27, 0x8f89fb9aebdd185e5bc3c087c27f6b72b654a45b54c932dee8be743da0dbddfcnat, x28);
    let x29 = 0xf9b01ba811d06a486ce4d15d34c266fba63628925efb945838ebc09661783fednat;
    let e29 = 2 * e28;
    lemma_power_mod_square(7nat, e28, n, x28, 0xa02bf4f5c5b74b71177b5a271a98abf7deca6477604a153c1f0faa896ccef093nat, x29);
    let x30 = 0xbcc4e5e702985b2ca6e1366aac6c312b93ed0957cfcbd94637edb99ef1147191nat;
    let e30 = 2 * e29;
    lemma_power_mod_square(7nat, e29, n, x29, 0xf3880ef2fcbccf6c609ef7b8e18e91681e936e08abee5fe11f042ff242d9c1d8nat, x30);
    let x31 = 0xf34eef9050c3f20fb584373d254291748cf25f9281f75a68340d916b4d170399nat;
    let e31 = 2 * e30 + 1;
    lemma_power_mod_square_times(7nat, e30, n, x30, 0x3ce5c7fc4fc13f82c2908562445671b2e5a809748cc6e00818bd686fe397907cenat, x31);
    let x32 = 0xc651e04646978c58baaa06d7496a2b20ba6237942e702b95221bbe2515aa382nat;
    let e32 = 2 * e31;
    lemma_power_mod_square(7nat, e31, n, x31, 0xe73ef322d573fd1a2810514d4c2443286004290c418df6006921e084aa42932fnat, x32);
}

proof fn lemma_power_order_over_149_part_7()
    requires
        power_mod(7nat, 0x1b7d6c3dda338b2af3f920a4f089731d125410d933777a02fad395522nat, 0xfffffffffffffffffffffffffffffffebaaedce6af48a03bbfd25e8cd0364141nat) == 0xc651e04646978c58baaa06d7496a2b20ba6237942e702b95221bbe2515aa382nat,
    ensures
        power_mod(7nat, 0x1b7d6c3dda338b2af3f920a4f089731d125410d933777a02fad3955220aac40nat, 0xfffffffffffffffffffffffffffffffebaaedce6af48a03bbfd25e8cd0364141nat) == 0x8f728cb0548d1dd34fed1142f37bc657a182c92ee5d3f9a5f3d81672714ba0dfnat,
{
    let n = 0xfffffffffffffffffffffffffffffffebaaedce6af48a03bbfd25e8cd0364141nat;
    let e0 = 0x1b7d6c3dda338b2af3f920a4f089731d125410d933777a02fad395522nat;
    let x0 = 0xc651e04646978c58baaa06d7496a2b20ba6237942e702b95221bbe2515aa382nat;
    let x1 = 0x780e8252707fd5f3e968721015a3ede96a0a42cd85b46c9bb617d9d80362a714nat;
    let e1 = 2 * e0;
    lemma_power_mod_square(7nat, e0, n, x0, 0x99a2c11c662627d3f4d863d45e738959426566ec1779a306500f24d4fe7af0nat, x1);
    let x2 = 0xf9f01aca2634a70862080924da8ac1c76ff725d3dae4ed72e50a0d742c4d3dc5nat;
    let e2 = 2 * e1;
    lemma_power_mod_square(7nat, e1, n, x1, 0x384d9affccd3fb5e2a2056b68fda397d78ee90a39e827feceb549eeae0c78e0bnat, x2);
    let x3 = 0xb37d6fdae2170892bb609fc1e488941d7bde5ef133ef518515fe75819ce32ac2nat;
    let e3 = 2 * e2;
    lemma_power_mod_square(7nat, e2, n, x2, 0xf404f54f7c27bf0a81246a69f243c1d700017381b232142a93a37c3b8f37f217nat, x3);
    let x4 = 0x90d80e8306d547f0736dc95fa6279860e674ea5ed54848abb11755ecfa9cea99nat;
    let e4 = 2 * e3;
    lemma_power_mod_square(7nat, e3, n, x3, 0x7dd8a7e284cc8bb161aaa15fb1882c2982ae8eddef5330d205f991e6114d3aabnat, x4);
    let x5 = 0xef7c6c00d301c9a00b1c96e5c823f0b3962709737f1fe82d6fe3692aa17ab7cfnat;
    let e5 = 2 * e4 + 1;
    lemma_power_mod_square_times(7nat, e4, n, x4, 0x23daa6eb34752749295a463176347ca3058a799480668e4843713fd68bc5eda48nat, x5);
    let x6 = 0x15655f8ec4c0cdea91f2e83155b5140272e87d4bb4809bdd238e2185042fca34nat;
    let e6 = 2 * e5;
    lemma_power_mod_square(7nat, e5, n, x5, 0xe0098e22585a723e57d521345dfccb98af04be126a7f5b52ef07ef6d347be6ednat, x6);
    let x7 = 0x7aa9e7ce78377269ee5fb009371a14c2c777e3a6c67f9e7a8256cdf018a8c544nat;
    let e7 = 2 * e6 + 1;
    lemma_power_mod_square_times(7nat, e6, n, x6, 0xc8484bdbe3714f67ad16dcd785b89a5bc3ac4ca8511d14e6de71a24b6f1ddacnat, x7);
    let x8 = 0x5b00565e974a8d49e6eff8be2caf7f596f5634a8756c953cf5e99714a83f410enat;
    let e8 = 2 * e7;
    lemma_power_mod_square(7nat, e7, n, x7, 0x3ac661b4ab15d5bbc93b4411328032c80245d5fa56b9ef3868a524b0afa9d682nat, x8);
    let x9 = 0xfc8aa9a3ecaaaba70ba0d684f30534ae0ba3ac601a048d40affc7aeb8129d267nat;
    let e9 = 2 * e8 + 1;
    lemma_power_mod_square_times(7nat, e8, n, x8, 0xe270add388e2d75494e358a05fd022d567e729c8cf8700e0e104e2dea225d4b5nat, x9);
    let x10 = 0x266bcce2962f83328f6bd0c248e58a7c4b0a6f080b393439edd94e01cae8b701nat;
    let e10 = 2 * e9;
    lemma_power_mod_square(7nat, e9, n, x9, 0xf92149160f15016281c172149a398b2a1aecf1f270621861175195974a8b6270nat, x10);
    let x11 = 0xc17021e0817f4a5414ac0d0c01a1a782c37e0bf667955978cb6e19b0f8baaebcnat;
    let e11 = 2 * e10 + 1;
    lemma_power_mod_square_times(7nat, e10, n, x10, 0x285d438941d2e60b738edd9b88f9be6db4aea0d48c81cd89db47c2f95fb2a58bnat, x11);
    let x12 = 0xb53f06d7afb7f3e82606818eeb3897f43cd0e4dd75b3654183779946c5a929f1nat;
    let e12 = 2 * e11;
    lemma_power_mod_square(7nat, e11, n, x11, 0x922a44322c2ee3b9822acae39f41b8e114af534209b36aa91b7228c6fc91795fnat, x12);
    let x13 = 0x1f5be135db7ca715e2ad85a45b759b3bb547f7bb54848159b43a58aea82b71c3nat;
    let e13 = 2 * e12 + 1;
    lemma_power_mod_square_times(7nat, e12, n, x12, 0x3823f4a5989b9fdc6f76c7e6a55a36caf3f6f4d81ce61e910cb2ac578b0bee364nat, x13);
    let x14 = 0xaae5f59d7dba6ea8dae7dc73039865cc4c8edabf56f5e94e9b04a49484f60ffanat;
    let e14 = 2 * e13 + 1;
    lemma_power_mod_square_times(7nat, e13, n, x13, 0x1ae3aaa27efd9fa2bdb566ba00f488c656556eea0097bf36637aab90fb0c6385nat, x14);
    let x15 = 0x6ea345b144f5d7f767d757be260036bf9580f540b6db8f410ce0d980eef27ec7nat;
    let e15 = 2 * e14;
    lemma_power_mod_square(7nat, e14, n, x14, 0x721638c682655e0c890e198b55dd71821786e855b2a5e05689393dcb913b1d1dnat, x15);
    let x16 = 0xf523d34e709c93c4eb81276c3c442673fdc064110f8fafc92297906525f6ce83nat;
    let e16 = 2 * e15;
    lemma_power_mod_square(7nat, e15, n, x15, 0x2fd0b80629fa2096973ed48b56c9110f7a35ddb8437c97a286f646f63461d6aenat, x16);
    let x17 = 0xca19699c7e4b9fd2ffb7ef1ac4dde0e20b5f1a5e7ed15dc648540de76a2bdfd7nat;
    let e17 = 2 * e16;
    lemma_power_mod_square(7nat, e16, n, x16, 0xeabd97779968e3523f27a40d17ff23614cf77bc50f305260c7d04986e0a7d8b2nat, x17);
    let x18 = 0x1094bde253d2b1bb4e204930e8a640f8e8fccd1709eb8e530b8075458972298enat;
    let e18 = 2 * e17 + 1;
    lemma_power_mod_square_times(7nat, e17, n, x17, 0x45cd4cc55581c4fd0cc6c50f7917a8359f1f77d450d342fe12e7ddddb9f281129nat, x18);
    let x19 = 0x690a1c237d131942b9cfb3ab91c352999fd40e441df9ee16a225d87631920266nat;
    let e19 = 2 * e18;
    lemma_power_mod_square(7nat, e18, n, x18, 0x112ee28650339b220390b33e20ee1bc2b165ba6f4ed4199ddc2376953f9b2denat, x19);
    let x20 = 0x62a6f0072a94766defb96c4abba7c5ca2104d8bcceec67192f56b49b75ae11banat;
    let e20 = 2 * e19;
    lemma_power_mod_square(7nat, e19, n, x19, 0x2b194b7b5277387e537e0e98f0ecc9ca6439c9c3dd126e7cd80af13990842a6anat, x20);
    let x21 = 0x4995f9e1a87eda44481073068721f3ada5da52103a3e2bbbe135d35c319f2313nat;
    let e21 = 2 * e20;
    lemma_power_mod_square(7nat, e20, n, x20, 0x26043ca1a6f2533f7b5e83d5a8576b16f9f4a6bdfead6b3981436e10ce0152d1nat, x21);
    let x22 = 0x4a618b59575a0985806e733a5fe19e763968693276fa7ab8f2e6a1ab43c512c5nat;
    let e22 = 2 * e21;
    lemma_power_mod_square(7nat, e21, n, x21, 0x1526e05f86af3cd56710824b7f3c72f48e07d67d580b4a99d105a14fdb2993a4nat, x22);
    let x23 = 0x5b9ade82983d02e15a7c6d3ade13bf6ca49ceb8aed6a9300ecd7586282fcfdffnat;
    let e23 = 2 * e22;
    lemma_power_mod_square(7nat, e22, n, x22, 0x159c89ba8c0e63c6062b18bfbf1ca3ed60b63f730141aa44a0cd178d03ca6d1anat, x23);
    let x24 = 0x8f728cb0548d1dd34fed1142f37bc657a182c92ee5d3f9a5f3d81672714ba0dfnat;
    let e24 = 2 * e23;
    lemma_power_mod_square(7nat, e23, n, x23, 0x20c777e14ec14c1c76f39b20f3676f9997a201d8490a67e1255735edce8b18a2nat, x24);
}

proof fn lemma_power_order_over_149()
    ensures
        power_mod(7nat, 0x1b7d6c3dda338b2af3f920a4f089731d125410d933777a02fad3955220aac40nat, 0xfffffffffffffffffffffffffffffffebaaedce6af48a03bbfd25e8cd0364141nat) == 0x8f728cb0548d1dd34fed1142f37bc657a182c92ee5d3f9a5f3d81672714ba0dfnat,
{
    lemma_power_mod_first(7nat, 0xfffffffffffffffffffffffffffffffebaaedce6af48a03bbfd25e8cd0364141nat);
    lemma_power_order_over_149_part_0();
    lemma_power_order_over_149_part_1();
    lemma_power_order_over_149_part_2();
    lemma_power_order_over_149_part_3();
    lemma_power_order_over_149_part_4();
    lemma_power_order_over_149_part_5();
    lemma_power_order_over_149_part_6();
    lemma_power_order_over_149_part_7();
}

proof fn lemma_power_order_over_631_part_0()
    requires
        power_mod(7nat, 1nat, 0xfffffffffffffffffffffffffffffffebaaedce6af48a03bbfd25e8cd0364141nat) == 7nat,
    ensures
        power_mod(7nat, 0x19f713117nat, 0xfffffffffffffffffffffffffffffffebaaedce6af48a03bbfd25e8cd0364141nat) == 0x18c68ca8463c89906a8790663f0f19695493632dc27b2ffbb7511980296b4472nat,
{
    let n = 0xfffffffffffffffffffffffffffffffebaaedce6af48a03bbfd25e8cd0364141nat;
    let e0 = 1nat;
    let x0 = 7nat;
    let x1 = 343nat;
    let e1 = 2 * e0 + 1;
    lemma_power_mod_square_times(7nat, e0, n, x0, 0nat, x1);
    let x2 = 117649nat;
    let e2 = 2 * e1;
    lemma_power_mod_square(7nat, e1, n, x1, 0nat, x2);
    let x3 = 0x339014821nat;
    let e3 = 2 * e2;
    lemma_power_mod_square(7nat, e2, n, x2, 0nat, x3);
    let x4 = 0x48b310d44c5e100dc7nat;
    let e4 = 2 * e3 + 1;
    lemma_power_mod_square_times(7nat, e3, n, x3, 0nat, x4);
    let x5 = 0x90847f07b2a48337b67c1882f8f70f50b4d7nat;
    let e5 = 2 * e4 + 1;
    lemma_power_mod_square_times(7nat, e4, n, x4, 0nat, x5);
    let x6 = 0x579d95435a320ef31ea8f52768faa95816426b57976497a024d4539dec2ed3d4nat;
    let e6 = 2 * e5 + 1;
    lemma_power_mod_square_times(7nat, e5, n, x5, 0x23b154863nat, x6);
    let x7 = 0x9317d50d3ef570952a2bd903cc734d714b7cf9b24037481df4139a21fe126053nat;
    let e7 = 2 * e6 + 1;
    lemma_power_mod_square_times(7nat, e6, n, x6, 0xd1e7672d649ee1eb52f795caf85535fd7c6dbfdfd6318f7ae0aa3d9331fa005dnat, x7);
    let x8 = 0x5ed5bdf0f099e29916e82929211bcf9e3e6251453bd5e4387a15c31ac69a7bbfnat;
    let e8 = 2 * e7 + 1;
    lemma_power_mod_square_times(7nat, e7, n, x7, 0x24f9ea6444ff39bf1ecedbdf4c99053d78079197802d560ad7965af46dddf38a0nat, x8);
    let x9 = 0xdd1f0cb4f223929b2e336d638722398fc595514a07925565e2c8ff4bdebf4797nat;
    let e9 = 2 * e8;
    lemma_power_mod_square(7nat, e8, n, x8, 0x2321a9f2908f0882bad26ccc2158c36da1f6171845297f0675bf89dbefa7cc6anat, x9);
    let x10 = 0xd00ed4c6ad67e307def69753788e922b66ad417006919163750589bd03c8d4c4nat;
    let e10 = 2 * e9 + 1;
    lemma_power_mod_square_times(7nat, e9, n, x9, 0x538f65def75a6ac5b3509c7f88025799e8df8406f7a49140cd234fe78de62f8f3nat, x10);
    let x11 = 0x14cddba79d518b6b793b73a3bbe6cc65f71d56f21d778af33895ab6d70c77c1nat;
    let e11 = 2 * e10 + 1;
    lemma_power_mod_square_times(7nat, e10, n, x10, 0x49fa8ba57b28e1bc4a97c455e52f3f9a8c6d20305ec8af8316896bdf012b457efnat, x11);
    let x12 = 0xa91fdb2b75a148431fd13ee9846961ea8f94652e11342ef73a71fbbaa0eb2096nat;
    let e12 = 2 * e11 + 1;
    lemma_power_mod_square_times(7nat, e11, n, x11, 0xbd5af02047853079ab675582786be6945ae7bdcf4aa7604f55bb123cf3eb1nat, x12);
    let x13 = 0xcad76aeb466611970c41fdbabbcd946da5c6843eb597e3638c6d8c6010040941nat;
    let e13 = 2 * e12;
    lemma_power_mod_square(7nat, e12, n, x12, 0x6fbb13563178d11acc21ea639338fbfeb2ea54131d632c9c4035081efc9b72e3nat, x13);
    let x14 = 0x3012a1319186a6cb5f4cc84b9ebbb79bb24295b41ea72db2afb62c7887ad5fbfnat;
    let e14 = 2 * e13;
    lemma_power_mod_square(7nat, e13, n, x13, 0xa0b8aa000ef101bac460170aa7959e00ba04e00a47012bd899c4c6b177677042nat, x14);
    let x15 = 0x4527a1f33feae3d0bfc7c9e41aa4aff43f82caac4838a338ac8b4c6424bfdfd1nat;
    let e15 = 2 * e14;
    lemma_power_mod_square(7nat, e14, n, x14, 0x906fdcda70a58201e67a9670105a24a550185f743265f662468fa7f4b6f94b0nat, x15);
    let x16 = 0x327170af1201bd8d84a6559afb0f0fd82973b912a29c4b9fd4fd3b540775c67cnat;
    let e16 = 2 * e15 + 1;
    lemma_power_mod_square_times(7nat, e15, n, x15, 0x82c4b80f1929b9568fea821f10d931a2bfeba5faf729200890518815028fc02bnat, x16);
    let x17 = 0xc82f631de4aa3d3d33db10db043e2cb2171dc2d36d7e3b33bee347e816f326f2nat;
    let e17 = 2 * e16;
    lemma_power_mod_square(7nat, e16, n, x16, 0x9f082490f303b0fc4414e7ff150dc7c5afd423fb4fb9ac2f9bbb0e891b5df9enat, x17);
    let x18 = 0x9d501436b9e3597f1904f9a0300d03651dfd8177d6a6f1a5242e283a0710c6e6nat;
    let e18 = 2 * e17;
    lemma_power_mod_square(7nat, e17, n, x17, 0x9c8a13a440a4188b63ae3909fe0539e32a77926b96dc9057225bbf3fdf5c005enat, x18);
    let x19 = 0xabacaf395a5ad272834746646b8cf1e89101c458c0d03b53714242cd712c1040nat;
    let e19 = 2 * e18 + 1;
    lemma_power_mod_square_times(7nat, e18, n, x18, 0x2a4af3ce65a9f72461afe24878b0a9875194cb6ed45750b3f600309d31415033cnat, x19);
    let x20 = 0x4e7ae25205fe43eb11f2bdab11cbf62834e6690a002d3f9105cdfad8af450083nat;
    let e20 = 2 * e19 + 1;
    lemma_power_mod_square_times(7nat, e19, n, x19, 0x325e10e01d1fb76f91d2f3162b2f3a1cdffcfc5bbbdd489b5d0cd5d3e699a233dnat, x20);
    let x21 = 0xe2d8cfe7174fa19cfe8421ad3d046272763f43f47b0c67cdc92899ca4063cdf3nat;
    let e21 = 2 * e20;
    lemma_power_mod_square(7nat, e20, n, x20, 0x180f1ce679e99498c1ef806b2378c9c2d4c581a56fe3d0e0b6e8430f24f8f996nat, x21);
    let x22 = 0xb9f8eb02477cf33392b3aac91865cb94c6454b14550498bfaa612a2fb8004214nat;
    let e22 = 2 * e21;
    lemma_power_mod_square(7nat, e21, n, x21, 0xc90386b383f77807c57fbf2b0fa5508db8d10f86a69750d0df387ed145ab2855nat, x22);
    let x23 = 0x733e1cfb0218fd722e3aa3dcc169ecff7b228e8f0907a2d5d95e720e00b09bc8nat;
    let e23 = 2 * e22;
    lemma_power_mod_square(7nat, e22, n, x22, 0x8719b5b1777a48dc565ef0f8cd9efd1544126b4e331bb805d15143adf400fbc8nat, x23);
    let x24 = 0xf57203ee045cf176377828a9f5e79cf3942d6f69367531572e9c4a49b430eda7nat;
    let e24 = 2 * e23 + 1;
    lemma_power_mod_square_times(7nat, e23, n, x23, 0x16b260bc0f53b5cad7d1e1e424c128b083520de6e35d6bcf0b83bdaef107658d9nat, x24);
    let x25 = 0xcdece8d178ee943eb1b898597f882dc4a04bcbe887875451fde1f08c62ba19anat;
    let e25 = 2 * e24;
    lemma_power_mod_square(7nat, e24, n, x24, 0xeb536e4d14653a599e022b3f9edf5725cb224db4ffee2f397912bf000b2d8497nat, x25);
    let x26 = 0xf3f59ce6a731f313a3b679848840da7bd5a2d0635c49e5f0a1573303f30adb2enat;
    let e26 = 2 * e25;
    lemma_power_mod_square(7nat, e25, n, x25, 0xa5a5481d91a167e4d7998a27bfd644925bfa3d2c990710c1e5ebd79a0041f6nat, x26);
    let x27 = 0xc30d2f1257803b338909e49ce2fd0f229d55593b23be4ba94061e887f3d08f26nat;
    let e27 = 2 * e26;
    lemma_power_mod_square(7nat, e26, n, x26, 0xe87c3383930ec4a84796b1a9563ed3d1ddd32bbc70e3b925ff2637359382279enat, x27);
    let x28 = 0xe3b95a24b1abef672d7e0fb6f78aa464c9f7910bc19f88cb7a6c421d1c475595nat;
    let e28 = 2 * e27 + 1;
    lemma_power_mod_square_times(7nat, e27, n, x27, 0x4104b9cba4cbdda9835c68539e21634eecd4f781b6d364318f7d79c5340c4cd27nat, x28);
    let x29 = 0x92e22d350cea095a638362df3fde2f64dea44652a8bf3bb8a1edd8f886859794nat;
    let e29 = 2 * e28;
    lemma_power_mod_square(7nat, e28, n, x28, 0xca923c107bdd874055cc65990093a01b797429462b5c2d9de9a6d4a31c6dd2e5nat, x29);
    let x30 = 0xc915f5d1bc4aeaf35133931f62e00ddccc0edd939eae900262f3b0b0d08fefecnat;
    let e30 = 2 * e29 + 1;
    lemma_power_mod_square_times(7nat, e29, n, x29, 0x24def57be86aa19f5b19df20149b165573f8e9607de0e64127253822580420a04nat, x30);
    let x31 = 0x96e3f946d86b3ec9329bec842ce579b2928078f8c0dce0c6efba29e709de29acnat;
    let e31 = 2 * e30 + 1;
    lemma_power_mod_square_times(7nat, e30, n, x30, 0x451a8714736eb944f1bb8807f688b6081683802273e0b6957661cf324ac7b0c44nat, x31);
    let x32 = 0x18c68ca8463c89906a8790663f0f19695493632dc27b2ffbb7511980296b4472nat;
    let e32 = 2 * e31 + 1;
    lemma_power_mod_square_times(7nat, e31, n, x31, 0x26e8fa5f553e6a2a5bd0d7d56d3a3891cf30a193a0cae4728e3aa077ef00a4efenat, x32);
}

proof fn lemma_power_order_over_631_part_1()
    requires
        power_mod(7nat, 0x19f713117nat, 0xfffffffffffffffffffffffffffffffebaaedce6af48a03bbfd25e8cd0364141nat) == 0x18c68ca8463c89906a8790663f0f19695493632dc27b2ffbb7511980296b4472nat,
    ensures
        power_mod(7nat, 0x19f713117200cfb89nat, 0xfffffffffffffffffffffffffffffffebaaedce6af48a03bbfd25e8cd0364141nat) == 0xd3a1897502752d57f067d17548e9c944e2afc7595eb78b25020cbcb0b228d821nat,
{
    let n = 0xfffffffffffffffffffffffffffffffebaaedce6af48a03bbfd25e8cd0364141nat;
    let e0 = 0x19f713117nat;
    let x0 = 0x18c68ca8463c89906a8790663f0f19695493632dc27b2ffbb7511980296b4472nat;
    let x1 = 0x39056e53917a3689022748a84bfa345fc5a0bf2550f03159a0706d58dcf00e31nat;
    let e1 = 2 * e0;
    lemma_power_mod_square(7nat, e0, n, x0, 0x265d45d6ec07ade588de06261b9b14b11414d5a146461a0111a977e6489ecd3nat, x1);
    let x2 = 0x1526233ddcbcc14f93fa8a7a3df341ade69efa7483d1e9e9073dca07ba6a9720nat;
    let e2 = 2 * e1;
    lemma_power_mod_square(7nat, e1, n, x1, 0xcb36b3eb598075bd3185ab42af6c580d254a026d6b4e415898b9f7bf6684d01nat, x2);
    let x3 = 0x44d888d8e74bb01d122c64289820f529cd7d5f740b1dac3f1b96853aa7bdc73cnat;
    let e3 = 2 * e2 + 1;
    lemma_power_mod_square_times(7nat, e2, n, x2, 0xc3af43e6a054f68f9533462405d5c4603e46ec05cfd101cb9919a9c51e0dfc4nat, x3);
    let x4 = 0x48ea6f3048a9f0e02fd407320bb236c826db704a08af3b54962510d5d3b66251nat;
    let e4 = 2 * e3;
    lemma_power_mod_square(7nat, e3, n, x3, 0x1283bfda720db2d02e8802b18ba31f0ddabc05d9bbffc360f1ad7f15f1f3f4ffnat, x4);
    let x5 = 0x76cf8010553c573be4e52d988286b16705f0ce0f610fe7c6e2207c0aa1876e43nat;
    let e5 = 2 * e4;
    lemma_power_mod_square(7nat, e4, n, x4, 0x14c4b53a9d6f564927fb7983215d4184b49e8c1d51f072c4b5196ac41c8ad9denat, x5);
    let x6 = 0xaf444c1c186f96bcf85df4afdebe16306c6b829b96636cc476e7cf4c882c8c57nat;
    let e6 = 2 * e5;
    lemma_power_mod_square(7nat, e5, n, x5, 0x3723f23f690dce4765075d30e702b640dfd93d0607547e289422f493a0393ab2nat, x6);
    let x7 = 0xa8769bb7e8aa317a8b16e616ecf54fd1d59e97625ba9eaa8bb7a13557ff8dbf4nat;
    let e7 = 2 * e6;
    lemma_power_mod_square(7nat, e6, n, x6, 0x77fe7246eef63cf60c32b0280cff27f32d2cb496312eafaa7cfc1895bfd6755dnat, x7);
    let x8 = 0x8243e796949a115b604ee467c9e6067755238bfcc72011502623d1b40861f5e4nat;
    let e8 = 2 * e7;
    lemma_power_mod_square(7nat, e7, n, x7, 0x6edbe3554da215b30238538ea5eb81fc257ae0e6b3654431d28ad3a704ddd3acnat, x8);
    let x9 = 0x3cbd4d6aa3d2bf0eb78b3d5b0d58314929f3d9ac17c51667d7a8a2d5e97e2032nat;
    let e9 = 2 * e8;
    lemma_power_mod_square(7nat, e8, n, x8, 0x42490937f93f5b0669c648f2be809f61875da39e1c21c07dd5f62ee07a77dd5enat, x9);
    let x10 = 0xd487dbf8b59ab5b2d0b2b02a17ff9c9c2f5371b0d882003d26078e9bc77fcac5nat;
    let e10 = 2 * e9;
    lemma_power_mod_square(7nat, e9, n, x9, 0xe69484563aa01b5dc0f67bfc962080e377272bc3ca06ac53b0ccfe7560eb03fnat, x10);
    let x11 = 0x44288730f598110a9f7914a0c6fc2949c3d2dc37b3fdf7c9378df90675b8d048nat;
    let e11 = 2 * e10;
    lemma_power_mod_square(7nat, e10, n, x10, 0xb0714c6daa1b3e72dbb42e2f8ef81db398d63668919b64782867d64853b2d611nat, x11);
    let x12 = 0xd298f1c2204860421b41873ce8691e8ed2c971e2532ad38e5c04cf8b4a9aebf2nat;
    let e12 = 2 * e11;
    lemma_power_mod_square(7nat, e11, n, x11, 0x12258e3c892a34f65ea62bebf01afdc7e995775f7fe86577a65a94ad5a8226cenat, x12);
    let x13 = 0xbb155ce8378083a3b1156b89a51dab4830403e2fce587841e6d98d8a15ca32a1nat;
    let e13 = 2 * e12 + 1;
    lemma_power_mod_square_times(7nat, e12, n, x12, 0x4bcbaf81146951703d78ad6162858335502711c9bae17a621540b646150e528fbnat, x13);
    let x14 = 0x64c1b0b8f75b68fcc5da6e72d2ec3265f50277b9c22847794b5b54ee31d1e354nat;
    let e14 = 2 * e13 + 1;
    lemma_power_mod_square_times(7nat, e13, n, x13, 0x3bd098499664e198e48037baf55c68588fdab472cf5d96cb4030e7c57a7153db3nat, x14);
    let x15 = 0x14c220323580cf2355ae288ff2f434888d187bc0707009c527a757bca3d824a4nat;
    let e15 = 2 * e14;
    lemma_power_mod_square(7nat, e14, n, x14, 0x27a7e49c72233b9bfa78fa489455bb5b81b51877d192cfc114bc8e9f262107ecnat, x15);
    let x16 = 0xfabd00733253b377417c6c208101fa9eb4b8649b4c842252700921b90e91c130nat;
    let e16 = 2 * e15;
    lemma_power_mod_square(7nat, e15, n, x15, 0x1aee83ca881ced09c39681966b82bb1461cfc199f5d7a6686fea77f0308efe0nat, x16);
    let x17 = 0xcc02151be1ad5b053bcbbba1dace1726ca9512dc2ec38c354b4344b7738cd6dbnat;
    let e17 = 2 * e16 + 1;
    lemma_power_mod_square_times(7nat, e16, n, x16, 0x6b717d2ea9abbf19f2d983c9ef74bdfb359e8f2cbfa3b3516805b7562a70969e5nat, x17);
    let x18 = 0x1ada2481cf2217c4d98b8a6fdee0050687e2e177a89eea53297c1e227136e883nat;
    let e18 = 2 * e17 + 1;
    lemma_power_mod_square_times(7nat, e17, n, x17, 0x472073b9d68f1c8d718cb23abe6dfb3b5143b6bd8d60cb3e8bc0081ae14e34becnat, x18);
    let x19 = 0x42b884645cb64c9c1bf41d8e552a7fe57d0f237325da66546b93179919ef3afbnat;
    let e19 = 2 * e18 + 1;
    lemma_power_mod_square_times(7nat, e18, n, x18, 0x13b74117f28740cb3a9c404995b75faed954d283688a47095f08988ba4291544nat, x19);
    let x20 = 0x25cb32dfcb2deda50578ab9d4f41241d6236d902806cc77b0a0611fbb288a45dnat;
    let e20 = 2 * e19 + 1;
    lemma_power_mod_square_times(7nat, e19, n, x19, 0x79b9a0d04fcc779640c100c2c6e1576bdeef5f7fb81263cf972a3650124af3d2nat, x20);
    let x21 = 0x9ddaac10cbacd7625b7c9e7325b0f6b7214818efddb423e088996b8940420c1nat;
    let e21 = 2 * e20 + 1;
    lemma_power_mod_square_times(7nat, e20, n, x20, 0x270e91f4e459d3c6f7c9643c08b4871652ad282bc4d4b05dcff2c1adc83f963enat, x21);
    let x22 = 0xb04c4d9d7560ec45392c7c347dc152282029ed94d1836e6e6e4df0e479aa471enat;
    let e22 = 2 * e21;
    lemma_power_mod_square(7nat, e21, n, x21, 0x6155f1d61a137557d0cd541a1b4eb740d2ceda663a249e6b6cccd4a3a57ea3nat, x22);
    let x23 = 0x9d0acfce95cc7c29e4d6b1aab5002129b5eca77f2a6c6c86495a827ca40ca95anat;
    let e23 = 2 * e22 + 1;
    lemma_power_mod_square_times(7nat, e22, n, x22, 0x351df0a3ec4ed6f26afd60e18f9338fb0d89e4e07c8f39d346f8020627db378c2nat, x23);
    let x24 = 0xee9b5ac1137e65a28f73edd332e4823efca7ea0b0e514b497373060d832c1efenat;
    let e24 = 2 * e23 + 1;
    lemma_power_mod_square_times(7nat, e23, n, x23, 0x2a25bd769fbf1c89e68833a6d78ecc39cd60db25b9414213b4845dcc76587ccfenat, x24);
    let x25 = 0xf554755f65c472ee4d7d1273fb25c9143f73152233355415641c23cedbe51c1cnat;
    let e25 = 2 * e24 + 1;
    lemma_power_mod_square_times(7nat, e24, n, x24, 0x614c49d2a2b8ea7883dc9be67da6de4bb111d92865cac18d103335424936e8000nat, x25);
    let x26 = 0x84e6352f8dfd695c43c6e12be41e23665fe1d5ed0f6e532a7ce20a6c5b0c797fnat;
    let e26 = 2 * e25;
    lemma_power_mod_square(7nat, e25, n, x25, 0xeb1ac485d5352379ce03f8882a294c3e278da040e9e831799301a949d1720451nat, x26);
    let x27 = 0x42ae6e51e19cdb39e4a0e4f6ae2df990e57daa722218a3a89edbcdef0b22fb1nat;
    let e27 = 2 * e26;
    lemma_power_mod_square(7nat, e26, n, x26, 0x44fe35dca6ed31a0d71ce66c28c3b1391bdecd94d015fa27ce5bf833d9537950nat, x27);
    let x28 = 0xdae08eb532cbcc2c7879fb7a49a29703a7c61c85fef63016d9714cd407ac210enat;
    let e28 = 2 * e27;
    lemma_power_mod_square(7nat, e27, n, x27, 0x115e67bc5f2e0a573513555b11e6edcb5753aa1dd8e4f7cfd4b47cf34c1f93nat, x28);
    let x29 = 0xd27d20bdc997949e092c38ed940adca724b924c5c8f998df8774e6987068e71enat;
    let e29 = 2 * e28 + 1;
    lemma_power_mod_square_times(7nat, e28, n, x28, 0x51df6882e922286e3fe702219ff34a45ffa9afa546b8c2c60a1f61b49a971f4benat, x29);
    let x30 = 0x82dafcade0337a7201181afff704c83b91f19473f422b8fcc25a8e00dc7c5dd7nat;
    let e30 = 2 * e29;
    lemma_power_mod_square(7nat, e29, n, x29, 0xad1186e05c438cf39719d75acb8938288e161f005266e28921662d1b4f7fc16dnat, x30);
    let x31 = 0xfd248ffd49a04b4e4d7e4653c0cd088e18acb6711801effd6191f0af2dbd7f52nat;
    let e31 = 2 * e30;
    lemma_power_mod_square(7nat, e30, n, x30, 0x42e323f3e93ce7867644695868757671c6d361efd1b039adf77ea5730a370c7fnat, x31);
    let x32 = 0xd3a1897502752d57f067d17548e9c944e2afc7595eb78b25020cbcb0b228d821nat;
    let e32 = 2 * e31 + 1;
    lemma_power_mod_square_times(7nat, e31, n, x31, 0x6d83904c82a436983774fa44517296bc96d630d0503a777c464cd94846a3f29fbnat, x32);
}

proof fn lemma_power_order_over_631_part_2()
    requires
        power_mod(7nat, 0x19f713117200cfb89nat, 0xfffffffffffffffffffffffffffffffebaaedce6af48a03bbfd25e8cd0364141nat) == 0xd3a1897502752d57f067d17548e9c944e2afc7595eb78b25020cbcb0b228d821nat,
    ensures
        power_mod(7nat, 0x19f713117200cfb8988b90067nat, 0xfffffffffffffffffffffffffffffffebaaedce6af48a03bbfd25e8cd0364141nat) == 0x6530b0ff5105c7f4f07a073248ff9af54fba9f9acabf5635876e366e256b50f6nat,
{
    let n = 0xfffffffffffffffffffffffffffffffebaaedce6af48a03bbfd25e8cd0364141nat;
    let e0 = 0x19f713117200cfb89nat;
    let x0 = 0xd3a1897502752d57f067d17548e9c944e2afc7595eb78b25020cbcb0b228d821nat;
    let x1 = 0x8f03a45aeb51ab364e9e6e5ef1c665f932b155cced253f08d8a93b6441e79d26nat;
    let e1 = 2 * e0 + 1;
    lemma_power_mod_square_times(7nat, e0, n, x0, 0x4c8a9c5a3773cdfb69bf7ed4694c463e0aa7edfd6b45edb0e91367f132bb2d761nat, x1);
    let x2 = 0x688ea4f801185417d5516a0d2971fc5cbf76eca04f21ad36449ab344d823b68bnat;
    let e2 = 2 * e1;
    lemma_power_mod_square(7nat, e1, n, x1, 0x4fe511aad68b5efba033d8526c5ac88c748cff29de916eb4189b93812918dbd9nat, x2);
    let x3 = 0x9d1cc82fe4a7e94fbca7d3ae5df075c1b77e90a01cc680b69548cec23e32672cnat;
    let e3 = 2 * e2;
    lemma_power_mod_square(7nat, e2, n, x2, 0x2ab43584ee53acf9f2a576f205a7366751ae114c1ff1ccc79f055852be72380dnat, x3);
    let x4 = 0xd10f120bd8918f3f23532e6a81439fdd6f0bf512d079970463b8b214b8c69382nat;
    let e4 = 2 * e3;
    lemma_power_mod_square(7nat, e3, n, x3, 0x606c50c7257ad722f546e61ff072fc1c4d0539fc3b3dacf8bb4b3d0f7bf12a8enat, x4);
    let x5 = 0x10c5d36ce08cdd3aa09c1bf4fe2a8ea837ffd80cfd64db7dd0d9a093f6c6cc06nat;
    let e5 = 2 * e4 + 1;
    lemma_power_mod_square_times(7nat, e4, n, x4, 0x4ab1346793bef07b0ba97b8f56f919b29d0c3c15f03073a04748e09bd021c5a96nat, x5);
    let x6 = 0x89357d6e5c72671fa50237732bbd3ede1ebb5217521eccd796c0fa3bc9a425aenat;
    let e6 = 2 * e5;
    lemma_power_mod_square(7nat, e5, n, x5, 0x119534cb03fdcea40ced2a3d101136b36e2f91ccdd5143654268c23379736f6nat, x6);
    let x7 = 0xa3de2d40bf525ccd0cc31d6c6a612f46c7bfa6013724b79f5a3ab2018f5857cbnat;
    let e7 = 2 * e6;
    lemma_power_mod_square(7nat, e6, n, x6, 0x498a4b6d4c19af99de1ea5d8f2e1d1dbdbdef93cfc6c7946d55b3f7d76632339nat, x7);
    let x8 = 0x55b832946dcadb5cdb8ddf7712a43efba02def4f4e0986d528e17fca3951d84fnat;
    let e8 = 2 * e7;
    lemma_power_mod_square(7nat, e7, n, x7, 0x68e4ae72f7ee88a93ead17db9f726eae5019a9f9a274e5be21dbade488018e2anat, x8);
    let x9 = 0xd6262252685a9568d76557059319a40b8e9918635a937d026dbad6ca6c08ad47nat;
    let e9 = 2 * e8 + 1;
    lemma_power_mod_square_times(7nat, e8, n, x8, 0xc8eadadb31e1f7919644bd19007672cfba32a7d460d9e28360c7642e76247560nat, x9);
    let x10 = 0x7f38f8101e5d6c08f96f736331119f7a42a043b9b31aeb5528828a419a09f6c8nat;
    let e10 = 2 * e9;
    lemma_power_mod_square(7nat, e9, n, x9, 0xb323c70ffb886aeeb77ea966a38cc4275bca7b777de6b4e1af63a5e4370f3fa9nat, x10);
    let x11 = 0xe73ad669138a39e34c09b94ebb50fed81f4295124cc95060096240553866a4bnat;
    let e11 = 2 * e10 + 1;
    lemma_power_mod_square_times(7nat, e10, n, x10, 0x1ba93039e36dc795ee412676e870d65754c6e83f1b49cdb87b13e0b5cc889b935nat, x11);
    let x12 = 0xadb4ba1bbee7d8b9e55109074c1b1252e66d962f58cc3dca2baca6bd277275c3nat;
    let e12 = 2 * e11 + 1;
    lemma_power_mod_square_times(7nat, e11, n, x11, 0x5b5fea744672d104def292d743497d2417f18adb8abfab80c300c31a80e990cnat, x12);
    let x13 = 0x2c25c8cce47877ccefd301149376aa116c7f4b58d5d8457498fbd84fde76b503nat;
    let e13 = 2 * e12 + 1;
    lemma_power_mod_square_times(7nat, e12, n, x12, 0x3391055de345b05973cd9b1e63ed35a044a4f6a115f74cb03bedf5a6769bee1bcnat, x13);
    let x14 = 0xfa6bb42aba05ab897207fd1999864d75511e824e4acb39d806b4e6592704da41nat;
    let e14 = 2 * e13;
    lemma_power_mod_square(7nat, e13, n, x13, 0x79d029a17443cfa3ac3cecadffe24ba8cc84405d0446763e605e0bed16629c8nat, x14);
    let x15 = 0xc41f73b4e2f6e6f1ac9bd413517dac6029f15bfd5197508047314c24fac4a534nat;
    let e15 = 2 * e14;
    lemma_power_mod_square(7nat, e14, n, x14, 0xf4f689338dd6b07f61debbdc19ceaa155859c851034872b8cd28c2cecc420f0dnat, x15);
    let x16 = 0xbd65d6c95256080ebefa153cb3de5b3cbcf79daaa2c9d76dbf2014dc36927ec3nat;
    let e16 = 2 * e15 + 1;
    lemma_power_mod_square_times(7nat, e15, n, x15, 0x41bc13b4777835c166f483d1b4aea7109bb576bc2620667a556ef1c370f771aednat, x16);
    let x17 = 0xa3fd83ed6b021c65649fc32190c11206aa4daabe66cfd7036bf3e87b75c29d3nat;
    let e17 = 2 * e16;
    lemma_power_mod_square(7nat, e16, n, x16, 0x8c1f87a872a333c25cac7d35403488a0cde1917565490fbe8483b8aa5890db36nat, x17);
    let x18 = 0x654f27e1192488e724597352c3a3fe510b0524f51085bfcc9f709aa79913c019nat;
    let e18 = 2 * e17;
    lemma_power_mod_square(7nat, e17, n, x17, 0x690cd10e5d870a08b63f72bd770b16a6dd4c74d3ca539f1e09fee04265bfd0nat, x18);
    let x19 = 0xcab6a1367139e0783dde4677f4288e2b90f2afe2ec1557606f23914da7e1479bnat;
    let e19 = 2 * e18;
    lemma_power_mod_square(7nat, e18, n, x18, 0x28178df140fab42937be3f8991262dfb3c079904d466eb18684d1bba7d0d8f56nat, x19);
    let x20 = 0x7653ca3942b0ebefb2ba0826550681301fc687eebda5e15ae11bb0421d55bdfdnat;
    let e20 = 2 * e19;
    lemma_power_mod_square(7nat, e19, n, x19, 0xa084b8b3899dda87af70d50d0f4431ae08396db41828e5f464dadaa11b0006dcnat, x20);
    let x21 = 0xcf6391359e68d4c1053906cc4ff4ae9d197da690b1a04d81f00be2aaf3b51c3bnat;
    let e21 = 2 * e20;
    lemma_power_mod_square(7nat, e20, n, x20, 0x36b159d98a5ac247eeb06edca620df20406aac0e3ef8f32d0a6ccffe1d730e4enat, x21);
    let x22 = 0x18f7c0eb70d35488881f99f695102ec691b7430eec2ea88962e80935623e261cnat;
    let e22 = 2 * e21;
    lemma_power_mod_square(7nat, e21, n, x21, 0xa8022b8e5803d5d26e2c947c3ebab1b74766194bbc54a073bd5ce318243b833dnat, x22);
    let x23 = 0x9155ab65120d9b3d5af30d8898ac8e1bbd033f0820027bbb08bce89ce2d2abb3nat;
    let e23 = 2 * e22;
    lemma_power_mod_square(7nat, e22, n, x22, 0x26f63f1fcdd596c0d80311e92d32542a95e57b76b6ff48670fc37eb16e0831dnat, x23);
    let x24 = 0x1b9500d9619b252dcb7f895e409af03251ef72051ccd256327b2fbf9955688ebnat;
    let e24 = 2 * e23;
    lemma_power_mod_square(7nat, e23, n, x23, 0x528228d3c25194ea052c1b33f4aecabe9143340b0886b8f4ce77b6f927a7a8benat, x24);
    let x25 = 0x7c14628ba14f9bf8c886110a33d64e49e0b97781d6422f064a6f5b5340ed864anat;
    let e25 = 2 * e24;
    lemma_power_mod_square(7nat, e24, n, x24, 0x2f8c4e7d7a311078e77c14586a01c5d91b48e0934d7a46ad4b0ce1d07fae6afnat, x25);
    let x26 = 0x6e4cb230445965eaa91fd36ffbbfe12f1c735c38569def275eca260fc1079852nat;
    let e26 = 2 * e25 + 1;
    lemma_power_mod_square_times(7nat, e25, n, x25, 0x1a4fa479fb026b2644e7e069688af580d0f0269dc760319d686d7a6d4220fa0eanat, x26);
    let x27 = 0x36d76ae998063ae8a330b50b66ed08c29f2ad744e90affbd39d7398413ff0e00nat;
    let e27 = 2 * e26 + 1;
    lemma_power_mod_square_times(7nat, e26, n, x26, 0x14caa00c257f7f5b15f337c0afeb43fbe4be38feccbd64c7e3e6798fb230bb6dcnat, x27);
    let x28 = 0x8b49ec39abee7f2a73a50126bdecfe605652061e9835556ac8abd761e2b07b43nat;
    let e28 = 2 * e27;
    lemma_power_mod_square(7nat, e27, n, x27, 0xbbf965f4d26425c5601f0e95f699c74d0d12aa02f7ef4f335e6e2dfb903a87dnat, x28);
    let x29 = 0xebfe706ad2d2857af7ad4ac5945be031c5bc82ea6033a8a1e0a0e9df4762e311nat;
    let e29 = 2 * e28;
    lemma_power_mod_square(7nat, e28, n, x28, 0x4bc95bdf33936e1a5dee858ddc8a3af35cd2153f45f2400abe3a79b384cf7a78nat, x29);
    let x30 = 0xfdfa7b6938e0f4d90f41146af97e3ee83ddc42014c836d7eba3b2aeb4c6bcf1enat;
    let e30 = 2 * e29 + 1;
    lemma_power_mod_square_times(7nat, e29, n, x29, 0x5f2dbdaf3becd7f04c062d8b60b7abd5167dd804e25d02e39f65f79113dfc9789nat, x30);
    let x31 = 0x659e71b87f11e87e7d44d0da634df306b30ee805d040c94d654001adf08e7023nat;
    let e31 = 2 * e30 + 1;
    lemma_power_mod_square_times(7nat, e30, n, x30, 0x6e3cf5b16bc02169de3db5adb22862c881e2f67b93b2d1dbc379440f497477d39nat, x31);
    let x32 = 0x6530b0ff5105c7f4f07a073248ff9af54fba9f9acabf5635876e366e256b50f6nat;
    let e32 = 2 * e31 + 1;
    lemma_power_mod_square_times(7nat, e31, n, x31, 0x11a5cd6950da5a4e895510ca21444b47027bd451e7f4c25884aaf137d66145549nat, x32);
}

proof fn lemma_power_order_over_631_part_3()
    requires
        power_mod(7nat, 0x19f713117200cfb8988b90067nat, 0xfffffffffffffffffffffffffffffffebaaedce6af48a03bbfd25e8cd0364141nat) == 0x6530b0ff5105c7f4f07a073248ff9af54fba9f9acabf5635876e366e256b50f6nat,
    ensures
        power_mod(7nat, 0x19f713117200cfb8988b90067dc4c45c5nat, 0xfffffffffffffffffffffffffffffffebaaedce6af48a03bbfd25e8cd0364141nat) == 0xcaee156865c445a4ed4be5ce525592401396c479a3499478d3abab39671be8a3nat,
{
    let n = 0xfffffffffffffffffffffffffffffffebaaedce6af48a03bbfd25e8cd0364141nat;
    let e0 = 0x19f713117200cfb8988b90067nat;
    let x0 = 0x6530b0ff5105c7f4f07a073248ff9af54fba9f9acabf5635876e366e256b50f6nat;
    let x1 = 0x9e5cf647c9b9bee6bc19efb5fd8c9dc6ef4fe5da57d5518ce9723c179be9c7b0nat;
    let e1 = 2 * e0 + 1;
    lemma_power_mod_square_times(7nat, e0, n, x0, 0x117fc3276305affe905ede113a1ad21871116c26408e23379f20594873be9e00cnat, x1);
    let x2 = 0x26f59846573ace36152e73e67edc8016f97da717514ea8a15e3859d2c4c66061nat;
    let e2 = 2 * e1 + 1;
    lemma_power_mod_square_times(7nat, e1, n, x1, 0x2adc02c51deba36cba2564404668f180743755b9567ca3bc4646880050187b7dfnat, x2);
    let x3 = 0xac290371e2b1001ba8e43a063d9c8e1092a719db6d66dfaa5fea24046cfc0f13nat;
    let e3 = 2 * e2;
    lemma_power_mod_square(7nat, e2, n, x2, 0x5edd4d1b31c06b0689059b7dce3a21e20d0d904c61b73798dd84b9d48f61c2enat, x3);
    let x4 = 0x1e0312e23af2657ad39bb158ebd8ef49373a69a1a72265911f292d66d40bc004nat;
    let e4 = 2 * e3 + 1;
    lemma_power_mod_square_times(7nat, e3, n, x3, 0x32a71f665f5fe43b8d3a59c25d88bf93d161c2b29e8e377671d2be5f8872c7e1bnat, x4);
    let x5 = 0x33c957c59b8d9f26788d831e19132077731b7dba084d298165872df80f712b5nat;
    let e5 = 2 * e4 + 1;
    lemma_power_mod_square_times(7nat, e4, n, x4, 0x18a10b3d4b9383bdb018695b4caf69afaa448eeefa6d3396f8dc89e56a2933fbnat, x5);
    let x6 = 0x6bc8ab6800037f1c9fe465224b9fbcafe327862b8fee5a717dfddc24e84b0c86nat;
    let e6 = 2 * e5 + 1;
    lemma_power_mod_square_times(7nat, e5, n, x5, 0x4954e349c4a43671f1b310ba46498bb045fa8b28e0726ebf936b45cc1f5409nat, x6);
    let x7 = 0xb8c80d671f5359bebb592cb5e82e0f87445f1ba0c010c5b60be3823bc6e8796anat;
    let e7 = 2 * e6;
    lemma_power_mod_square(7nat, e6, n, x6, 0x2d615c9535470bfd390a4651f344d7694536aa864b5218bc52c094dd6534943anat, x7);
    let x8 = 0x89a9cb6af44ac0e9f99b601a83979af5ec1a89e7aa0cc5fc6ebf85186d1f9783nat;
    let e8 = 2 * e7;
    lemma_power_mod_square(7nat, e7, n, x7, 0x85602f992edc65f71759ccfcacccb34690851fba2a72d2d3386aa9fe77109f21nat, x8);
    let x9 = 0x4553b4c32ca003d02fdc72518bc7d9eae087158fad16243d7b4fcc2883197338nat;
    let e9 = 2 * e8;
    lemma_power_mod_square(7nat, e8, n, x8, 0x4a072c56ae51594ae70d45327f63edf5115074656f38e3e30485b37a9d146491nat, x9);
    let x10 = 0x7e4e1aed59a5d585d00342ab52e1d0fe564fbf5143e056a6eb9df0a70deeb553nat;
    let e10 = 2 * e9 + 1;
    lemma_power_mod_square_times(7nat, e9, n, x9, 0x836b9baf75c1ad9721f8dc8d56f96ffb5790a165fc8d10281f0762d61069582dnat, x10);
    let x11 = 0x1f21b998449b44dab5514270c55b5a263d83b07087a919562b4109b9df1e0b44nat;
    let e11 = 2 * e10;
    lemma_power_mod_square(7nat, e10, n, x10, 0x3e50fa560fb6f182a21f398510c96409a587cc13762a19c0cf4909ec1411ef65nat, x11);
    let x12 = 0x10f7c61f3a4c6ce7be0f2e007387350277fb673573c266b99c64f42899954e11nat;
    let e12 = 2 * e11;
    lemma_power_mod_square(7nat, e11, n, x11, 0x3c92f64406cb86eac952591d7148b69c1dc4681fb3b20595a87f82ccd1f4d3fnat, x12);
    let x13 = 0x246d547e987c3492aed6dd1a8a57c084dd3135abd6e9cc666d79e18b44bd42e0nat;
    let e13 = 2 * e12 + 1;
    lemma_power_mod_square_times(7nat, e12, n, x12, 0x7df5c0ab622998f965f914d515c427a430ce69a612d168d77367cf174e53047nat, x13);
    let x14 = 0xdfa307e04f009b387872526719085f8252b7e7242d85a4bab8a2a259ca413282nat;
    let e14 = 2 * e13 + 1;
    lemma_power_mod_square_times(7nat, e13, n, x13, 0x24488530aa0cbe95efbb68d6206dfcfdf8c1cca2539fc74e2f011811f6fe2bfenat, x14);
    let x15 = 0xcdbdc227b9ddbdf08dd09e6b92cfcca917ae1a84948e1f6f3e83f45f28ea8658nat;
    let e15 = 2 * e14;
    lemma_power_mod_square(7nat, e14, n, x14, 0xc35d6f8bd185b20e6daea65acdec4c04e420fa19c03de7c149503d187085acacnat, x15);
    let x16 = 0xf0fddb274a8efe2e46d4e4c182f2e1380e2f5151168b5955bff86cfd220a856dnat;
    let e16 = 2 * e15;
    lemma_power_mod_square(7nat, e15, n, x15, 0xa559759be195cf7bf4b43694c4dc567ec0c894cf70231ea9ca532fb66405a113nat, x16);
    let x17 = 0xcb2e49d3f8c83d8128f5811fb1ef4034d758b6de2a579edeb745112bf03288fbnat;
    let e17 = 2 * e16;
    lemma_power_mod_square(7nat, e16, n, x16, 0xe2dcf6a49311bad1a072c7d288ee88b67b72b8ac72d1c5d56a8ae77cbb6efdeenat, x17);
    let x18 = 0xd11994d5fa90d272fd0ff46e9d3405da4fb351ccc7b2bb14b553d2824dcb52fcnat;
    let e18 = 2 * e17 + 1;
    lemma_power_mod_square_times(7nat, e17, n, x17, 0x468d11a318626da52521fe582431777ff599ccd3a54fb32b7cea8cb4c947187f3nat, x18);
    let x19 = 0xfc7cd15aafeb152371e6035ec5de3d2e7e3254cbb855af6b5abe26e678d6017nat;
    let e19 = 2 * e18;
    lemma_power_mod_square(7nat, e18, n, x18, 0xaacac793cb73847b393bcf23ee1701bdc404437c394ebc115e170f5086f3e0b9nat, x19);
    let x20 = 0xb7b0c745f1d23272508f529ff7e05a56ad749063513f0109d45be34de101a00cnat;
    let e20 = 2 * e19;
    lemma_power_mod_square(7nat, e19, n, x19, 0xf905f906056670b845452921c722bff5e0be3c4d30bba08005a0a8044fabc5nat, x20);
    let x21 = 0x21acd80724e3be43a80c9103299e086d24911e1aab039c3c5c86a6c6ab960af2nat;
    let e21 = 2 * e20;
    lemma_power_mod_square(7nat, e20, n, x20, 0x83ce36f89b04d635d68607a29939b277ca7a3a8dafe6ceb847449f8cc091501enat, x21);
    let x22 = 0x179e48a0d516578c9ffe0f137ea34308b8cc3ab88f1ccd1081fbace7a7ba6ffcnat;
    let e22 = 2 * e21 + 1;
    lemma_power_mod_square_times(7nat, e21, n, x21, 0x1f021ec1e3da64bb418f53b48537ed4fd44347183a5d4b0ffdd1973ba00e7160nat, x22);
    let x23 = 0xccf4d12d5bc0d35b7e15e86ff5a8ce0e20896cf10411d5dbe8e2277baa52143dnat;
    let e23 = 2 * e22;
    lemma_power_mod_square(7nat, e22, n, x22, 0x22dd2eaa16be836f4dfddba2f389deb8cb920ed4209ea89e3745aa4769a9413nat, x23);
    let x24 = 0x2de8d08c659ddff74dc76d3e198a766c54f98e0f0e442f3f1873c5d7486aafb6nat;
    let e24 = 2 * e23 + 1;
    lemma_power_mod_square_times(7nat, e23, n, x23, 0x47ca1a47de94d31f0a5f95042aad77b3987a848c55bea9f4b6728c1dcb95cb2c9nat, x24);
    let x25 = 0x8241ad85f0aa75763305c626b2926a980839bd224b7444a421cea106bb76721fnat;
    let e25 = 2 * e24 + 1;
    lemma_power_mod_square_times(7nat, e24, n, x24, 0x39a1bb541c9ae71319c517d018c460ad3bb9db78efea634959f7374a2e896f5dnat, x25);
    let x26 = 0x79c6f40e97bdf80baadd3a3a16bf0979a13b02df496579d96c199827d327555nat;
    let e26 = 2 * e25 + 1;
    lemma_power_mod_square_times(7nat, e25, n, x25, 0x1cfef6397446d767a37c56be2159bf81cb3b6a166463360570525ea0a4d9d5a72nat, x26);
    let x27 = 0x9eea8c4fa0826237d6ee6edb7abc0fefd63b86b01cf228b251392ba2c740c5c4nat;
    let e27 = 2 * e26;
    lemma_power_mod_square(7nat, e26, n, x26, 0x39edad543ab0206dcd2075d357aec11bd59a3eaaf05b50a466f9afe0370635nat, x27);
    let x28 = 0x849a97b93b8dc49997868261490c8d3e1b644611bd7f8128c1bba54b51d36113nat;
    let e28 = 2 * e27;
    lemma_power_mod_square(7nat, e27, n, x27, 0x62a65c1718998feb8bec2b72b8341ea4a9dca519dce68eaa9eb037a2a0c9b0bdnat, x28);
    let x29 = 0xe7e56ac9cc5b5a88d9ed6cd382b416d86cb1a0c275e2a9c1a383f9dff9749481nat;
    let e29 = 2 * e28;
    lemma_power_mod_square(7nat, e28, n, x28, 0x44afc9d1ea31e3974bbb0227d29c7ffb9bf7bac9ec3f364f3998ebd6fa65b0e8nat, x29);
    let x30 = 0x347405b808af80b7f5bc67f7f45b17523d2437715ab44fbc6ba15aaa601d7d6nat;
    let e30 = 2 * e29 + 1;
    lemma_power_mod_square_times(7nat, e29, n, x29, 0x5be6ece32daa173e7f9cd15f9d91718f7daee2b38211024616a63ba61565959f1nat, x30);
    let x31 = 0xd1e2b466076c9ddc95573221bc722f08a4ed06a29909dbb21651626b60accf2bnat;
    let e31 = 2 * e30;
    lemma_power_mod_square(7nat, e30, n, x30, 0xabf56e7f26fdffaba26e5624a75d004b65db5ceb8dc28b527791992f38079nat, x31);
    let x32 = 0xcaee156865c445a4ed4be5ce525592401396c479a3499478d3abab39671be8a3nat;
    let e32 = 2 * e31 + 1;
    lemma_power_mod_square_times(7nat, e31, n, x31, 0x4b48ba73b3fbcac78e28628360a1d6cee0f3de05963c89ca5f22592eb3a03e8ecnat, x32);
}

proof fn lemma_power_order_over_631_part_4()
    requires
        power_mod(7nat, 0x19f713117200cfb8988b90067dc4c45c5nat, 0xfffffffffffffffffffffffffffffffebaaedce6af48a03bbfd25e8cd0364141nat) == 0xcaee156865c445a4ed4be5ce525592401396c479a3499478d3abab39671be8a3nat,
    ensures
        power_mod(7nat, 0x19f713117200cfb8988b90067dc4c45c5f3508349nat, 0xfffffffffffffffffffffffffffffffebaaedce6af48a03bbfd25e8cd0364141nat) == 0x79b0e6b6c2ecb1cdec1071038b5edf8cc5aaae6e1c72937708d32bcd5c2060bdnat,
{
    let n = 0xfffffffffffffffffffffffffffffffebaaedce6af48a03bbfd25e8cd0364141nat;
    let e0 = 0x19f713117200cfb8988b90067dc4c45c5nat;
    let x0 = 0xcaee156865c445a4ed4be5ce525592401396c479a3499478d3abab39671be8a3nat;
    let x1 = 0x78707848657df107cbdf21cadd500e0022a41baea1b8be843d55ba0af12d384dnat;
    let e1 = 2 * e0 + 1;
    lemma_power_mod_square_times(7nat, e0, n, x0, 0x46608226ff388ced7b379b7110ba7e17305d32c8b360a2c92b808e861636b8fb2nat, x1);
    let x2 = 0x5d8e118a69bd364cc49cc8bee0fb8795ee222ec15baa00bf6bd6e125e0cdcf13nat;
    let e2 = 2 * e1 + 1;
    lemma_power_mod_square_times(7nat, e1, n, x1, 0x18ca36f3d6113ca82b0f99013432d1ff531c3769d3c37d51835b15cc5db18940cnat, x2);
    let x3 = 0x282e7abaa61b5893600fecd474589b9ba839d905d38955cd125135b1696779benat;
    let e3 = 2 * e2 + 1;
    lemma_power_mod_square_times(7nat, e2, n, x2, 0xef53b51a350f2dad3646b164a77aa591a627cb553b03fd5e39e73841a28a4ce1nat, x3);
    let x4 = 0x1bca1161f18340c86b77422f1ee18ecee104d4a1f4a8a200a52613d82e037c92nat;
    let e4 = 2 * e3 + 1;
    lemma_power_mod_square_times(7nat, e3, n, x3, 0x2c25e78aa4c2b364387512ac6b40f648112d5891df0a5818c8f0901cf4a2960anat, x4);
    let x5 = 0x37c52540d14bce28e08fc429dd3f951715741b8cd1a869f2e3941dbbcaefeb75nat;
    let e5 = 2 * e4;
    lemma_power_mod_square(7nat, e4, n, x4, 0x3043f2a18b0fa58daded99661e413328e9757c1e1bac77455c8e90c4f75c50fnat, x5);
    let x6 = 0x1eb56bf33c7e4597a6b314cee9c8a60a22cc81cfb6d1d08305d6e07a0587cd22nat;
    let e6 = 2 * e5;
    lemma_power_mod_square(7nat, e5, n, x5, 0xc264dd4351c7e2a160325f8ecba27460e78a4bd2f40417c6bf43e9737267997nat, x6);
    let x7 = 0x3f32545a1f53e7e24ff7b3099cf54f61c0dbe99dcc90c8e6eac0982353f62f25nat;
    let e7 = 2 * e6 + 1;
    lemma_power_mod_square_times(7nat, e6, n, x6, 0x19c92917d78c95cfd5ec1dda47a28c57c64364ff5700c7c96af36a69c13cb7b7nat, x7);
    let x8 = 0x798bdafface90c14c5ef09293088473c664e720133f07af585d7b82215e41553nat;
    let e8 = 2 * e7 + 1;
    lemma_power_mod_square_times(7nat, e7, n, x7, 0x6d34abe1e8eb9c57835cfcff15c00d24f25180fe5ce565f09eb2477c1f1e471cnat, x8);
    let x9 = 0x897694254e5fe3a3efecc100f54db074fd0ef3b6bcb2546d5eaed866390d8311nat;
    let e9 = 2 * e8;
    lemma_power_mod_square(7nat, e8, n, x8, 0x39b5816d3e728455974e571d38c563b77be4474035a1639cd12de247054967d8nat, x9);
    let x10 = 0x15dbb9236bac9f5e839209a2aa10875054f4f9202a32101f2f03919e63fe0599nat;
    let e10 = 2 * e9 + 1;
    lemma_power_mod_square_times(7nat, e9, n, x9, 0x204b0ea69da0e46b595eb8fe0d950b55ea6a8ed230acb0a8ae54479275cebcacenat, x10);
    let x11 = 0x6cce3be355b9c29b2e95ed7582523112f82dcc5b657282a5a76c980941e67851nat;
    let e11 = 2 * e10;
    lemma_power_mod_square(7nat, e10, n, x10, 0x1ddc8f61828c2044a1f0111c444d5604f6c118532672847652dc156f4ba7520nat, x11);
    let x12 = 0x8fd7aba4e403b7c64dfd43f3859fd6d28be82c35e2ff9efe5b558016be53df8enat;
    let e12 = 2 * e11 + 1;
    lemma_power_mod_square_times(7nat, e11, n, x11, 0x143b69cb5c174edda4243106e7f03c66ce9b3dfa7e73eeb4e8a899d760fea6499nat, x12);
    let x13 = 0x50add6ecdd5fd0e5b89214e7905a553276fb06873ba1a19ad1a97886da58abe9nat;
    let e13 = 2 * e12;
    lemma_power_mod_square(7nat, e12, n, x12, 0x50d2a773f8c8d8602194f2fd85177b1762d965ef0e68ecae26b024edd5dce51bnat, x13);
    let x14 = 0x6b49c39ab3245000d84b55f18f606ebf1971d0963bfe19599fc9f5df18606738nat;
    let e14 = 2 * e13;
    lemma_power_mod_square(7nat, e13, n, x13, 0x196d1c603aeff355032e8d2ad91c8e346d5bd7c31be3e7e3f320a561c323f399nat, x14);
    let x15 = 0xee48d3988c84ed2b798f786794734c2eb431be98751fb0540fd745a86a7c5798nat;
    let e15 = 2 * e14;
    lemma_power_mod_square(7nat, e14, n, x14, 0x2cf6bec4756f8ffbac37ac5db8e67f305108e52e4305d88bced07a88c67872a8nat, x15);
    let x16 = 0x356f257141af474e276ba5926c435a486f4a921ab91d6e9d598b85900f3d6d73nat;
    let e16 = 2 * e15;
    lemma_power_mod_square(7nat, e15, n, x15, 0xddcb7e2759fb064c886c1b042aa76a544db54feef13f2e3a2d05b02f383a4c8dnat, x16);
    let x17 = 0xde860ef51650a0313ab9991ebad539023ae4091c2a1eb004acc75a6fa8766329nat;
    let e17 = 2 * e16 + 1;
    lemma_power_mod_square_times(7nat, e16, n, x16, 0x4e127850b4384c5168196d9ea9fce54b0d188cb3ae6928277eedf9cb704dd4f6nat, x17);
    let x18 = 0xeb95fa5da5f3a614237454e06a68fb8f5ee73f8227d966f3122ec1cf77cda36anat;
    let e18 = 2 * e17;
    lemma_power_mod_square(7nat, e17, n, x17, 0xc16cc824bc26eb519f2d5571454e0489f3ddfd91a986e5880b6f9b513684d867nat, x18);
    let x19 = 0x2f701bd161026a9ea5274b3f91f91f6a7397c0f5814e0d619a27871d1adf625anat;
    let e19 = 2 * e18;
    lemma_power_mod_square(7nat, e18, n, x18, 0xd8ccb185548b8aea2b82d51a7491fac4549b0fe2e8a34a4e81dc87c5041ef90anat, x19);
    let x20 = 0x3c43eb90adf0808f86d4cbbc797716ad05fd6718abbf631aa34f7badfb60cb46nat;
    let e20 = 2 * e19;
    lemma_power_mod_square(7nat, e19, n, x19, 0x8ca5b4f3bd99af998a752b5334b98d3af2293125d4bcac8dc7b90ab987826denat, x20);
    let x21 = 0x6f65ac61e5706faeae7f8ae7dda268f0f2dc186e592a43ac727c3b4d67d5ba12nat;
    let e21 = 2 * e20;
    lemma_power_mod_square(7nat, e20, n, x20, 0xe2fe870f806b942431b6598a4f0e3a7c70ca7f1f4068e4be09558934f91a692nat, x21);
    let x22 = 0x1964953a75a968e03a27de6ee203f9c754bfd720bb9a08bff7ff4cf4478300a0nat;
    let e22 = 2 * e21;
    lemma_power_mod_square(7nat, e21, n, x21, 0x307953de5e4a3d505e120124ba385f50d49933ea507c76ac022ca507cbab9ba4nat, x22);
    let x23 = 0x532225181088757c7532c31b3185fa1c73e1822197949c2fc56966ecaf5dbf73nat;
    let e23 = 2 * e22 + 1;
    lemma_power_mod_square_times(7nat, e22, n, x22, 0x11a198a8657ccc0d363a5309858bc1dca5306522c75f9dba555b8c8a03205c4dnat, x23);
    let x24 = 0xb161c270d0ba88bf1bd4e6d4f490f0b0c003c314da1622c17fd6a794a772c131nat;
    let e24 = 2 * e23 + 1;
    lemma_power_mod_square_times(7nat, e23, n, x23, 0xbcfa1c405969e44b37afc072ec6461fb24bd0420138100b4dbff6b972f3734eenat, x24);
    let x25 = 0xf2707bc160c8cc181f04ec135ba34e4c26cddb5a72b2087c501f376d5499bcnat;
    let e25 = 2 * e24;
    lemma_power_mod_square(7nat, e24, n, x24, 0x7ae85434edcf4c85e9f87211fbb08463521d54aa1940c41377ac4abd406ad365nat, x25);
    let x26 = 0xcdc1daebe78db0ff3c6e1c1c13e2100bad17a4ec0ae378f52b0b42e193ca5946nat;
    let e26 = 2 * e25 + 1;
    lemma_power_mod_square_times(7nat, e25, n, x25, 0x6472dffcae019fe7d829a07b006eeba6c7ff64a244a0ac9258df3466620aanat, x26);
    let x27 = 0x3a82d9d92976a9a65e68eac4c7a68f19fc1f411a4f4d0c2087cf3b9fc607bb6bnat;
    let e27 = 2 * e26;
    lemma_power_mod_square(7nat, e26, n, x26, 0xa5600b69a3c2b0dde8a82268e6ccaf8fb66dd45c7f3e1bb563246e235f362c79nat, x27);
    let x28 = 0xa983c2066c0797edd541b2c985d0c1cd23a044c69009036ab11e3e146b0e3fc4nat;
    let e28 = 2 * e27;
    lemma_power_mod_square(7nat, e27, n, x27, 0xd5f8d9860b9c1e62d3e4e61a63b92c492ce52234462254beba588d0ba021cb5nat, x28);
    let x29 = 0x72d6c2268a43080770e66d6eed2c3e4c3a90f57200af31f28eb5b16a8863621enat;
    let e29 = 2 * e28 + 1;
    lemma_power_mod_square_times(7nat, e28, n, x28, 0x311ba95e861d03fcfc848f284ac996b5e00edaf48fa44b6ba82adfe64995239d2nat, x29);
    let x30 = 0xf1e69b3a2975bc41d14ecc5f0f5be5a3008f9d91c795aac4655c2453a699e5f1nat;
    let e30 = 2 * e29;
    lemma_power_mod_square(7nat, e29, n, x29, 0x3383f9137ed14a92fbbbfa3dbcd287b8699f1dc115946e39b6b7f852bbed0dd3nat, x30);
    let x31 = 0x98d8ed82ee4f3c8edac4a5d5d67dbf99cb36da43279a39ae8ea252bcd3fcc4acnat;
    let e31 = 2 * e30;
    lemma_power_mod_square(7nat, e30, n, x30, 0xe493fffeccb1a76d9462641d2c8fa2ffdb43d1c65ce60f3555419aaed3f795f5nat, x31);
    let x32 = 0x79b0e6b6c2ecb1cdec1071038b5edf8cc5aaae6e1c72937708d32bcd5c2060bdnat;
    let e32 = 2 * e31 + 1;
    lemma_power_mod_square_times(7nat, e31, n, x31, 0x27ed03d0bfe1380d61914e054dd330c3c827e1c5ee5916852a9849f6d4e291873nat, x32);
}

proof fn lemma_power_order_over_631_part_5()
    requires
        power_mod(7nat, 0x19f713117200cfb8988b90067dc4c45c5f3508349nat, 0xfffffffffffffffffffffffffffffffebaaedce6af48a03bbfd25e8cd0364141nat) == 0x79b0e6b6c2ecb1cdec1071038b5edf8cc5aaae6e1c72937708d32bcd5c2060bdnat,
    ensures
        power_mod(7nat, 0x19f713117200cfb8988b90067dc4c45c5f3508349bb7d9137nat, 0xfffffffffffffffffffffffffffffffebaaedce6af48a03bbfd25e8cd0364141nat) == 0x483e8885f316f1d63ea5618aa853d00339eef7f715fef755381842983c0a8a69nat,
{
    let n = 0xfffffffffffffffffffffffffffffffebaaedce6af48a03bbfd25e8cd0364141nat;
    let e0 = 0x19f713117200cfb8988b90067dc4c45c5f3508349nat;
    let x0 = 0x79b0e6b6c2ecb1cdec1071038b5edf8cc5aaae6e1c72937708d32bcd5c2060bdnat;
    let x1 = 0x33b9fe007f66364c8116695976f18d45473374f100110f2979fe5b8c58c16c56nat;
    let e1 = 2 * e0 + 1;
    lemma_power_mod_square_times(7nat, e0, n, x0, 0x194ecee5fac68c3dd5551e734762296727c07988298fe343a5fa8b18278c4f129nat, x1);
    let x2 = 0xdfd2765b1ce19549b0dda6d7591a8192978c18c9e197e4f9e1bed3225e680095nat;
    let e2 = 2 * e1;
    lemma_power_mod_square(7nat, e1, n, x1, 0xa73a2554b7fd82c0927e3359a4f27243c435572eb7ebf9985f713c269d6f98fnat, x2);
    let x3 = 0xec81057d837a8e4becf8a4d20c4488735806ce4afb70b6a063b57cc92e0405e8nat;
    let e3 = 2 * e2 + 1;
    lemma_power_mod_square_times(7nat, e2, n, x2, 0x559d2628fe39f96a9b209a455fe783dcc4a6c6ec3aa272c367a6c3c6a1e7c1867nat, x3);
    let x4 = 0x6fa1a900b7c4bf23b78ee0a9d063d99e7f7d4c03416b55db696a5f340724d791nat;
    let e4 = 2 * e3 + 1;
    lemma_power_mod_square_times(7nat, e3, n, x3, 0x5f972f609a52e47d2e96ae94314d7c15dbfbe7fbd2bbbfe074a647be030c8cd6fnat, x4);
    let x5 = 0xdabe4e100ff2acde0c4dda62c5d209b2dc9902b5adb64329a5d7a67e857d3392nat;
    let e5 = 2 * e4 + 1;
    lemma_power_mod_square_times(7nat, e4, n, x4, 0x154bf1e806cd7f901b6b3b9978b600036a4e6684abbc70ab72202ae186321d315nat, x5);
    let x6 = 0xe1c951878b48582b7ad7b6dc254f6ad626d13e8ec47150b2ffd5bd9328fd34b9nat;
    let e6 = 2 * e5;
    lemma_power_mod_square(7nat, e5, n, x5, 0xbae8aa6b52cec55ca73a1d0eac525d1b15e25da3b6f0284dd1ef1911a5058ccbnat, x6);
    let x7 = 0x25b07286d9abc68196293852259fa80d144ab46db2b8b7018db146c14b8783b9nat;
    let e7 = 2 * e6 + 1;
    lemma_power_mod_square_times(7nat, e6, n, x6, 0x571f87d69b9829378049ba3b3d7216e6cacf747396c2e5e3aa789bc93f090769enat, x7);
    let x8 = 0x3cc65ff035fc9a74532a2d36c39a99cdbaa0564c242bf1bee848b3860de27c39nat;
    let e8 = 2 * e7 + 1;
    lemma_power_mod_square_times(7nat, e7, n, x7, 0x26d75b0c95074f47ed07eb0711486c41d7dedf3d895d06d195ffab38fd2be01enat, x8);
    let x9 = 0xc048022841f796f6f128059bb91cd238c8b08cd5518631554fa92fb382d01403nat;
    let e9 = 2 * e8;
    lemma_power_mod_square(7nat, e8, n, x8, 0xe6d96b124d6149c3292eb7975add1c5d486f6f9b8554449273a16256236b72enat, x9);
    let x10 = 0x6169458138a6b57dc62a54dbc8797d26c417f376d4a463ab52758825b53e8933nat;
    let e10 = 2 * e9 + 1;
    lemma_power_mod_square_times(7nat, e9, n, x9, 0x3f2f4a46f334c038b2994addb850ec5ef35b17c9c37d763d604006463c42db00cnat, x10);
    let x11 = 0xf5f649c14241f6d27cebbb1633c2f4ad0786857d53d26b08ab46174134ad971fnat;
    let e11 = 2 * e10 + 1;
    lemma_power_mod_square_times(7nat, e10, n, x10, 0x103769dba1aa008636a1af0092fafe0bc962437a389e2e6a3048af92cb5574a00nat, x11);
    let x12 = 0xc39a4858501b15f9392bb1ba95daec8adff45ec7502251499aa5bdc63ae68900nat;
    let e12 = 2 * e11 + 1;
    lemma_power_mod_square_times(7nat, e11, n, x11, 0x676395ad02e6db43ae118fe2e9215154f9bd161741984bf94ac8dc970186ea687nat, x12);
    let x13 = 0xbbe077ee3fd14fc259cf2e18f9e6cacb34d2e03e9c5d88b6abd330f3f7c301b1nat;
    let e13 = 2 * e12 + 1;
    lemma_power_mod_square_times(7nat, e12, n, x12, 0x4162ed25b9d200d1da2ef15fd98de1c6441dd3775384736d059d29d7b58a7cb8fnat, x13);
    let x14 = 0xa52e8652d854680548adf9a4d7fa6ea4dad3516178472bb8042d79242abef80enat;
    let e14 = 2 * e13 + 1;
    lemma_power_mod_square_times(7nat, e13, n, x13, 0x3c52bec39287bd925cffaa4323ae7042963da987cebe70c027b251f16c1bb9f59nat, x14);
    let x15 = 0x122f21e5b9df0dd3690a6106a0dc9f292681acfdaa639f78964b023fa8d47b01nat;
    let e15 = 2 * e14;
    lemma_power_mod_square(7nat, e14, n, x14, 0x6a95019b571d61b3db5d192a3ed482f09befcdf9baa1a4d6f3b22b76d1716203nat, x15);
    let x16 = 0xa6e5a810dcce79eac15e1342af4efc504e21cf39195612044faecd4ab5c1aaf9nat;
    let e16 = 2 * e15 + 1;
    lemma_power_mod_square_times(7nat, e15, n, x15, 0x90aa21c62da89689fd1dfa69e9fc80c4a163b95ca84d6c37ec3aca1ccaf9d8enat, x16);
    let x17 = 0x6a7916b3e66e58fd79752ae4fd319bbba7f5f0ec52456381d46701ae13c10c2nat;
    let e17 = 2 * e16 + 1;
    lemma_power_mod_square_times(7nat, e16, n, x16, 0x2f9a67be3dc0aa1015f4bdd838d6a94ba00459e42a2ad5d8790c3c1b40c67d055nat, x17);
    let x18 = 0xfaf9dc79a389065e028290e8c057c9ae12772d514889afc4be34c9204d4c7506nat;
    let e18 = 2 * e17;
    lemma_power_mod_square(7nat, e17, n, x17, 0x2c48801372e6a0090d3853183a5fedd99d59783a667bd0e7ac9ec061b8407enat, x18);
    let x19 = 0x6f665c950cd0cefff163253acc80161242fdb2773ce8ffcea1d40950388debd9nat;
    let e19 = 2 * e18;
    lemma_power_mod_square(7nat, e18, n, x18, 0xf60cf67c35e90bdd82b945a6cce82637b3be40fb03cd07919c3d8e6181c0a28bnat, x19);
    let x20 = 0x55d5e081f9b5bee54e094860c952ef5837e5e95b540ddbb15fce2fd019417279nat;
    let e20 = 2 * e19 + 1;
    lemma_power_mod_square_times(7nat, e19, n, x19, 0x153557c8221974d425666751d83f8a544e6d118b4f23868c609ce7d6296f1d99enat, x20);
    let x21 = 0x2e9f45c5a44e0aaa1a33bcd0403b85981d20dac3dc466babb99d1c0d96e39057nat;
    let e21 = 2 * e20;
    lemma_power_mod_square(7nat, e20, n, x20, 0x1cc7b9c5acfff02f9a34bf8d2b2bfdf62742cd94081da8ec2c1b8df491107c5anat, x21);
    let x22 = 0x1201d60f5ed041886ee5651e70b20cd649619f8f1c5bc623caa9421d626abbf7nat;
    let e22 = 2 * e21;
    lemma_power_mod_square(7nat, e21, n, x21, 0x87da02ac59247eebc0755800ada059a552ec45801efa0650fc20d6772c5611anat, x22);
    let x23 = 0x419cd813a75d074d3ecc20b7b3414f76ac02dd5747c84c591605b252605c1884nat;
    let e23 = 2 * e22;
    lemma_power_mod_square(7nat, e22, n, x22, 0x144421d8871ba481fbe80f255f1e53a4d46d87ca9076e94a6649225e011ff8dnat, x23);
    let x24 = 0xced0457c932dc61083a6cfce321e0ee19fb868a76e2779bda924c6e9b8f7c515nat;
    let e24 = 2 * e23 + 1;
    lemma_power_mod_square_times(7nat, e23, n, x23, 0x75b728be4140b525ab0cef263cce3c282f4bae9a035b1a899a6bdce98703959bnat, x24);
    let x25 = 0x283d22f7c73a63e1daadf1e11c3f3457e5b283233fba04746eb6b76d7e176494nat;
    let e25 = 2 * e24;
    lemma_power_mod_square(7nat, e24, n, x24, 0xa713d9457a29391a0470c61f2f95af937f32be1d22b86ce5022999329d2b90e5nat, x25);
    let x26 = 0x6e557f8b418bdc53f7ec7abb56ce70334da393b9b857a1c84a44b3636f055db8nat;
    let e26 = 2 * e25;
    lemma_power_mod_square(7nat, e25, n, x25, 0x65329871d1df1c7be392300594dbda1fb223f49f1f23c02b249c6d4b3b449d8nat, x26);
    let x27 = 0x60342e49d28e6a03728e5b652208e7d206c0d8d09fc0424ebc2041767a4b8469nat;
    let e27 = 2 * e26 + 1;
    lemma_power_mod_square_times(7nat, e26, n, x26, 0x14cdf1b235470490a649f4dd60205ab0e686addba32b77ea7a80a019231e76c97nat, x27);
    let x28 = 0xe3aa7eefbeebd7909d31cc475b3a375b5050a6e749f341429754a2140e532c83nat;
    let e28 = 2 * e27 + 1;
    lemma_power_mod_square_times(7nat, e27, n, x27, 0xfd123d776df0bc4226b6beac5a33493f054354ed1d66a8ff3e0613ebe57f07f4nat, x28);
    let x29 = 0xcf212cff004373539656612da7a457c658089648e15c8cc48c8ae1a5b166d4d7nat;
    let e29 = 2 * e28;
    lemma_power_mod_square(7nat, e28, n, x28, 0xca77ceaa01f0b1faf5c8de6c84fad0e9f048e882c5d1f6531ed25de236e257b2nat, x29);
    let x30 = 0x3ef297bf27a7b76a598d7cf8254ffb3197e7b13d6c60cf243b431eac2772d2e0nat;
    let e30 = 2 * e29 + 1;
    lemma_power_mod_square_times(7nat, e29, n, x29, 0x4951ead771c8a93ef56d709c78a864555eed501398a6ff6fe3c7a9e33a45c9857nat, x30);
    let x31 = 0xb87005bc2bc90350000672a54272ce5134c82a23e274dc7b2a048a18d9f90c62nat;
    let e31 = 2 * e30 + 1;
    lemma_power_mod_square_times(7nat, e30, n, x30, 0x6c58d3baddeae6205492aaef9093a67fd4cf5b2aa841613207d2ad232fc4aa1enat, x31);
    let x32 = 0x483e8885f316f1d63ea5618aa853d00339eef7f715fef755381842983c0a8a69nat;
    let e32 = 2 * e31 + 1;
    lemma_power_mod_square_times(7nat, e31, n, x31, 0x3a22890d89a091cb4a03efa44b03a5dfe01203bd0579ae7fae3843c93c0a87c73nat, x32);
}

proof fn lemma_power_order_over_631_part_6()
    requires
        power_mod(7nat, 0x19f713117200cfb8988b90067dc4c45c5f3508349bb7d9137nat, 0xfffffffffffffffffffffffffffffffebaaedce6af48a03bbfd25e8cd0364141nat) == 0x483e8885f316f1d63ea5618aa853d00339eef7f715fef755381842983c0a8a69nat,
    ensures
        power_mod(7nat, 0x19f713117200cfb8988b90067dc4c45c5f3508349bb7d91372cbe782bnat, 0xfffffffffffffffffffffffffffffffebaaedce6af48a03bbfd25e8cd0364141nat) == 0x2f89bdefa897fb49371134475931755c89923b7d3439edac9a326fa543cb98d8nat,
{
    let n = 0xfffffffffffffffffffffffffffffffebaaedce6af48a03bbfd25e8cd0364141nat;
    let e0 = 0x19f713117200cfb8988b90067dc4c45c5f3508349bb7d9137nat;
    let x0 = 0x483e8885f316f1d63ea5618aa853d00339eef7f715fef755381842983c0a8a69nat;
    let x1 = 0x9f69829b7db022d6bb30872b9d6adde64f156b189eae72bb8d5d517bcbb9b4e7nat;
    let e1 = 2 * e0;
    lemma_power_mod_square(7nat, e0, n, x0, 0x14633c11c26d3f8484a2db513d892b60cd0733ba7a59cb564f916546466e15aanat, x1);
    let x2 = 0x1aca4fb52c32ba5e363e02238e39802602920530028c7df257530b94ef45f981nat;
    let e2 = 2 * e1;
    lemma_power_mod_square(7nat, e1, n, x1, 0x63443bb98c502fdba50d9710a42a609099b17ee1d5336368071df5c3cf8e02f0nat, x2);
    let x3 = 0xd6bd0f179dcb2e27e96b142299b91b44f9321570861db7ad8ce5579370db5e57nat;
    let e3 = 2 * e2 + 1;
    lemma_power_mod_square_times(7nat, e2, n, x2, 0x13a00882cdf59bd89a957dbeffe476f54db6896d92834a082010c79899feaab0nat, x3);
    let x4 = 0x127efd8d6e11f004c2cdf68115259255796788e60d6646e46725319004d27fnat;
    let e4 = 2 * e3;
    lemma_power_mod_square(7nat, e3, n, x3, 0xb420a0dac59275d86c5b7e2b419e05c597f0aedd5d79a89244075c355031f892nat, x4);
    let x5 = 0x2c94f58ec63c06b8a85b831c55b329b5fd7a701fd30dd7be0318e8479a26e3d6nat;
    let e5 = 2 * e4 + 1;
    lemma_power_mod_square_times(7nat, e4, n, x4, 0x95aba8d38ca0fbbc90ba68a629a0ca9080c15098e9d45b54f483b282bf1nat, x5);
    let x6 = 0x1ed4f5a6555865f97fdf3071da819c0ba4fc1018e47eac8d61e7da4b15832c8nat;
    let e6 = 2 * e5 + 1;
    lemma_power_mod_square_times(7nat, e5, n, x5, 0x3658cd99795f076e9a67852c6f041a53f7fded29a5ddfc497167720f8683bc74nat, x6);
    let x7 = 0x80161c3a283d4033831609c56b62fac79c3a885d43fe3edaa3d2ec7c556118fdnat;
    let e7 = 2 * e6;
    lemma_power_mod_square(7nat, e6, n, x6, 0x3b69abac335ddbd5d7bb993e705f8cdad1691240fb5e6a85fd25d554f7f83nat, x7);
    let x8 = 0x105bf2694937f41160693c0ff2168570c5cd6102bd4c4ce9a43c636424c4c862nat;
    let e8 = 2 * e7;
    lemma_power_mod_square(7nat, e7, n, x7, 0x40161e230558f0be3410204b130e3434341d58e18cb6fa6e7688f4925d80c0e7nat, x8);
    let x9 = 0xf22771550ab975b3b558028f3f72f9d42300b4d95533bdba5529d71f87b3aa7dnat;
    let e9 = 2 * e8 + 1;
    lemma_power_mod_square_times(7nat, e8, n, x8, 0x7515b47c6d5ea2056ce09f4065865551ecbbebb0de76efe707cc72a5f54c55fnat, x9);
    let x10 = 0xb04b191086aeb8d796fc17dfada62949f1aaef33a23beaf96573b63e0c97744anat;
    let e10 = 2 * e9;
    lemma_power_mod_square(7nat, e9, n, x9, 0xe50e9858825c16c1791f78a3185399d266aa1439e11e30807f5a70e9b7858dffnat, x10);
    let x11 = 0xc59ba3e77951c834d022e7b08f1b002a21ccf2bc2a6449692361225a3c0e404enat;
    let e11 = 2 * e10 + 1;
    lemma_power_mod_square_times(7nat, e10, n, x10, 0x351d36b74ef47bb57db13ce1e002ca80a15b4aaec0d50af64e811bf1391e95beenat, x11);
    let x12 = 0xfdeeffb04386d766c28bb257cf3e6efd25e69946f0a2c7ff284ad3ab6e98d12nat;
    let e12 = 2 * e11 + 1;
    lemma_power_mod_square_times(7nat, e11, n, x11, 0x42bbe5e2efbb58aac3a43282c2dd3934409acfbdf6ae1c03ae9f4caa27b0d9ccanat, x12);
    let x13 = 0x6f5bf326b5a299fb48a5d2c6f72bb995cddcb11bbef4df25029508e51dd3d1b2nat;
    let e13 = 2 * e12 + 1;
    lemma_power_mod_square_times(7nat, e12, n, x12, 0x6e32fdf93b41eee8c33943c42c07e30dfb07bde65ef79a845fda9a094b12eaanat, x13);
    let x14 = 0x702ce53e0b73f05cc99a8bead27ddaa74b818d6ac6b7f069f0cc13c5ae6b7df8nat;
    let e14 = 2 * e13 + 1;
    lemma_power_mod_square_times(7nat, e13, n, x13, 0x15316113059da88a579cec7755dd8dc3460998c248b8e628533ebe0ac05c82364nat, x14);
    let x15 = 0x2e69c26f50226901aa81c3fe380741b6b2f1ba17e7d141433de5ea3ceeeac24bnat;
    let e15 = 2 * e14 + 1;
    lemma_power_mod_square_times(7nat, e14, n, x14, 0x158133339406a1be37ef2e2649f2429f4a40ef64e95eb9170e4ab92b306ba5d35nat, x15);
    let x16 = 0xc99828c9b8a58f80bff3b24fda6ca9171b491f7bae5832cc3a6cfd908b52a445nat;
    let e16 = 2 * e15;
    lemma_power_mod_square(7nat, e15, n, x15, 0x86a2d9113c8ffd17ab79d01c65697c95ca91a7083dd45d828ffe7922e4e3cb4nat, x16);
    let x17 = 0x388cc64b4a2801ad021c77cb067b71a4da9479747a22423ac006284e8630c6e0nat;
    let e17 = 2 * e16;
    lemma_power_mod_square(7nat, e16, n, x16, 0x9ec04a7d39fee899cc529cea188fcfe03b3f3d53fee0edcba53235fd53f3dc79nat, x17);
    let x18 = 0xf42d0a09259821c3c29b2e0c9ad6fad93c6c33c0eecd0f3378f1d73e48bd102nat;
    let e18 = 2 * e17 + 1;
    lemma_power_mod_square_times(7nat, e17, n, x17, 0x57713d28f6b621679ba9a5d5a73ce1b0d5e741824b5b8a8811dee22631a2ad7enat, x18);
    let x19 = 0x7eb6f254621a16e43b7edac0cdf4554799ad2395a4dd286dd45694b680ae7491nat;
    let e19 = 2 * e18 + 1;
    lemma_power_mod_square_times(7nat, e18, n, x18, 0x65e493561c2e989c81e84924d10ed49689d2b49c02d96a93c7738369eba69cbnat, x19);
    let x20 = 0x9f2763d73ccf7027c699e621820fcf98c703a6327ab2ba4908adc39ae2e4cca4nat;
    let e20 = 2 * e19 + 1;
    lemma_power_mod_square_times(7nat, e19, n, x19, 0x1b70c30fba995b66d778bd711c1aaa78f3c27728d3b11ed3b91f63bfb2b266683nat, x20);
    let x21 = 0xfecc13ca173c4a5063ef08d946aa66d8b8a580f5a791b1f32d0a5777dae085c7nat;
    let e21 = 2 * e20 + 1;
    lemma_power_mod_square_times(7nat, e20, n, x20, 0x2b49dac929064b1a48b1514d703bd21fe04b7296f7be87443d1985ed112b3b669nat, x21);
    let x22 = 0x82a6deda7beef645a69a90744253343b1c02dbbcd63b5841d95513f47e19f039nat;
    let e22 = 2 * e21;
    lemma_power_mod_square(7nat, e21, n, x21, 0xfd9999f491b84a8996b6b3c5d04359b4085330f6a52141e3aa8e996d38ef5a78nat, x22);
    let x23 = 0xea10635dcbfa5de4abc93d4faf16f45d295ba44a65f0c38257e358b4ada8a4fenat;
    let e23 = 2 * e22;
    lemma_power_mod_square(7nat, e22, n, x22, 0x42ade71bab37156fe1a4c673006e6b55f768026482a1b56c9af7e9df262797f3nat, x23);
    let x24 = 0x39706193c29ff8f569d55dd2aed979943d875a68aac1780f9dc353e40dedc4f7nat;
    let e24 = 2 * e23;
    lemma_power_mod_square(7nat, e23, n, x23, 0xd601f6b40b30e11341af7803f92ea445aa7a9143e695c490a08ad8e8f836e6cdnat, x24);
    let x25 = 0x6a71c19663767dbad71526d37351cb9673deff1aa61115ab2ab1094cdd1f8a45nat;
    let e25 = 2 * e24;
    lemma_power_mod_square(7nat, e24, n, x24, 0xce33cc95326d79d72365bd04db680731205f4a4ef08a5d30b9b86b852164d0cnat, x25);
    let x26 = 0xfe8343ddd0c2b8362312a04f20df9deb3a4f94272b01445f8c1e543663cceb33nat;
    let e26 = 2 * e25;
    lemma_power_mod_square(7nat, e25, n, x25, 0x2c4266dd0386090b1823502bfbd8806a4153be85f333b3b6a88ac5b16c232be6nat, x26);
    let x27 = 0x9222b8c1bd5266fcfd59cd156267f2d0754ea2a29e6878d2477dfd55f259f178nat;
    let e27 = 2 * e26 + 1;
    lemma_power_mod_square_times(7nat, e26, n, x26, 0x6eb3d31dad8db5a13e305b5338b34249c3e6e6fb443421fa7b7a54ef54f0d62e7nat, x27);
    let x28 = 0xfa5e4264639924c5283f9924ddd073b21d566ed0249c0f5abbcd0eeee9736eanat;
    let e28 = 2 * e27;
    lemma_power_mod_square(7nat, e27, n, x27, 0x536b9f7294bf5a21627b7605a7ba2686c4eaa5c0e98165efc923de2f7e1325d6nat, x28);
    let x29 = 0xdb1b21a3c9f84de7393196610c09c69cc3ef297d48db1601d966e3dc643872danat;
    let e29 = 2 * e28 + 1;
    lemma_power_mod_square_times(7nat, e28, n, x28, 0x6b205a6a646492d07053fbe8b2d3828fed2c314ab17f62145c685c3601313e2nat, x29);
    let x30 = 0xd13c8e5d3a8d2fb58340e245c77e633e4d3cc23344e3162c2c97b2df3325927nat;
    let e30 = 2 * e29;
    lemma_power_mod_square(7nat, e29, n, x29, 0xbb876e6e58871286e041941d807f6008bdebca1d14771b31ba0c36570ccbfc3dnat, x30);
    let x31 = 0x3415e038e43c38cdabe1dd97d6e264387dbfddfa7165510254abaf8c1082ec06nat;
    let e31 = 2 * e30 + 1;
    lemma_power_mod_square_times(7nat, e30, n, x30, 0x4ad1b8772df52beeabc126ff04872cd6aafb25b6f6d1c893138d8896d26ea51nat, x31);
    let x32 = 0x2f89bdefa897fb49371134475931755c89923b7d3439edac9a326fa543cb98d8nat;
    let e32 = 2 * e31 + 1;
    lemma_power_mod_square_times(7nat, e31, n, x31, 0x4a2e42b7a91aa3145da26a68b7ede180abf50c8cf489ef2a4222afd2be12eb24nat, x32);
}

proof fn lemma_power_order_over_631_part_7()
    requires
        power_mod(7nat, 0x19f713117200cfb8988b90067dc4c45c5f3508349bb7d91372cbe782bnat, 0xfffffffffffffffffffffffffffffffebaaedce6af48a03bbfd25e8cd0364141nat) == 0x2f89bdefa897fb49371134475931755c89923b7d3439edac9a326fa543cb98d8nat,
    ensures
        power_mod(7nat, 0x67dc4c45c8033ee2622e4019f71311717cd420d26edf644dcb2f9e0ae0d8c0nat, 0xfffffffffffffffffffffffffffffffebaaedce6af48a03bbfd25e8cd0364141nat) == 0xdd2976f215050cbc83fd29c04749e0235f60dc94845709478a7aa0decaffd0fnat,
{
    let n = 0xfffffffffffffffffffffffffffffffebaaedce6af48a03bbfd25e8cd0364141nat;
    let e0 = 0x19f713117200cfb8988b90067dc4c45c5f3508349bb7d91372cbe782bnat;
    let x0 = 0x2f89bdefa897fb49371134475931755c89923b7d3439edac9a326fa543cb98d8nat;
    let x1 = 0xf296ab653c03e491358cf51d34796103d2d727334e9485e1b9c0278bd19974fdnat;
    let e1 = 2 * e0 + 1;
    lemma_power_mod_square_times(7nat, e0, n, x0, 0x3dcb10fbe35a01a75904b9ac1e297d7cf8c32960e54843c211d3ad8659188303nat, x1);
    let x2 = 0xa56346e5aa1ff64aba77efb13d986998a755bf9cc66ed2fc0b2c093a557735cnat;
    let e2 = 2 * e1;
    lemma_power_mod_square(7nat, e1, n, x1, 0xe5e134b8b2da16e7ffe76bec3eb1b4c3d760c29e3d9955ac5908dbf28a87866dnat, x2);
    let x3 = 0x610b9751de328f7c40d5859d73965f6cafcc2ec40b5a2a363276edc07f367690nat;
    let e3 = 2 * e2;
    lemma_power_mod_square(7nat, e2, n, x2, 0x6ad91fe3f6912f481b18ca81e0d8045ad086eb456ba0e0bb9ee2bb97ee3280nat, x3);
    let x4 = 0x6ed3aab1911f138c851b483087c7892444538a086ab8234d294f826adf8114c9nat;
    let e4 = 2 * e3;
    lemma_power_mod_square(7nat, e3, n, x3, 0x24c9c93264dd17627fee7d8f9545e31df98f0745a7cfe3dd7ce73cc14c8ee777nat, x4);
    let x5 = 0xcef561c3030c786cb74cff5711ee92bac9c6504b2b1fe7a4fb8a1ea368352e6fnat;
    let e5 = 2 * e4;
    lemma_power_mod_square(7nat, e4, n, x4, 0x2ffa95b36b3c3dee413abe05ec98e17e9add00f982dd518c686131e95fdc3ce2nat, x5);
    let x6 = 0x92524a8f5b74b6206a590b09b5421c838113294f9e84757acf956ee3b232e9a2nat;
    let e6 = 2 * e5;
    lemma_power_mod_square(7nat, e5, n, x5, 0xa74fd48a1d81448a8f61e8468574583dbdb15898661fd7960145f567598abbbfnat, x6);
    let x7 = 0xa7cd8beece82800ff5f55455e89922a9846c97315c33d7383cc3cbebfd5e4102nat;
    let e7 = 2 * e6 + 1;
    lemma_power_mod_square_times(7nat, e6, n, x6, 0x2496dc47b9118559af6f49a2341a8d09db336b41d679684f37b7b370babaf281anat, x7);
    let x8 = 0x2aa47399f5cb691c1304af8982fe809f62e98c152cc0d589db4ee4982af6b22cnat;
    let e8 = 2 * e7 + 1;
    lemma_power_mod_square_times(7nat, e7, n, x7, 0x301f0bb3cd8af65c5e15a1860425f1289fbcc85320d8f4bc96cf864d5fb45fdf0nat, x8);
    let x9 = 0xdc1f63f8310dc0bdd7c453a696f0787dc2ba4cf00aebda05337790d22a0bb522nat;
    let e9 = 2 * e8;
    lemma_power_mod_square(7nat, e8, n, x8, 0x71a5f92d61d5a885bc7bd0e928fe271f8b6d1ba4e63c564b357b7996d86d8eenat, x9);
    let x10 = 0x2868cdb3ea39713adc302f315f054bd048eb910a3675c86ef7bd60024f48902dnat;
    let e10 = 2 * e9 + 1;
    lemma_power_mod_square_times(7nat, e9, n, x9, 0x52ce9c5b39a35ee2acf9f99d612f02eb060de470d70585a856a0297bed19480afnat, x10);
    let x11 = 0xeb3063ef119f34f53421dfac1f2242e198110a43c23afe72d2e3d40c492a1ea3nat;
    let e11 = 2 * e10 + 1;
    lemma_power_mod_square_times(7nat, e10, n, x10, 0x2ca66e5004a5475e6e417332972f9214d4b36a0f9d496dea9d4cb708a4f04dbcnat, x11);
    let x12 = 0xe133a00aa434844f8b48c094c4e0ae69b0798c7b7b96004790d14e5c12d5eea4nat;
    let e12 = 2 * e11;
    lemma_power_mod_square(7nat, e11, n, x11, 0xd811e09e8b03add1151acd8ed06b20ee4051e6686d9d6e3796487992d3c6cee5nat, x12);
    let x13 = 0xfebfe36b613270a34348bfbf40c421c27fc703f8c7d27a6524c2c7e25cdf79a8nat;
    let e13 = 2 * e12;
    lemma_power_mod_square(7nat, e12, n, x12, 0xc61bc9bbdcef0b336d587a1ffeea527b9f9bfeae6726e2f4ef8dec46d04f1d68nat, x13);
    let x14 = 0x9d77de35b1cea5ded5bf567fc1c3e05617722c42ba609f553d806be32a32dcc3nat;
    let e14 = 2 * e13;
    lemma_power_mod_square(7nat, e13, n, x13, 0xfd81571e3922bc31e5f5b826d117fb1dcda6e7c83df01f3c0954b4f26325953dnat, x14);
    let x15 = 0x2c149e5ad9422983af20c69098862d153f2d2fe8c3f93baeefca022c415b5ae1nat;
    let e15 = 2 * e14 + 1;
    lemma_power_mod_square_times(7nat, e14, n, x14, 0x2a605b6c3643b98814699d002df7fa8edb41c014bc66e353e746a731aaf2e175enat, x15);
    let x16 = 0x4d0bfbc26123388cb53771398456bbf706c07762f2da44787a9593402a52cfcnat;
    let e16 = 2 * e15 + 1;
    lemma_power_mod_square_times(7nat, e15, n, x15, 0x3521a8aa7bd2b3305071335904e7905bcd4e381b785bfa98241c1d5762fcf98bnat, x16);
    let x17 = 0xc60beba13a8ef6769ef53434d1bece8b01cb6b2f9de55d960451d42c9dbabd7cnat;
    let e17 = 2 * e16;
    lemma_power_mod_square(7nat, e16, n, x16, 0x1730360288ba471df03c4330d8e75ecb0945911416e2e45ee75a9af80de194nat, x17);
    let x18 = 0x390f2e47c7ca9f2aac13e928cb5fe2e55bc8b289f303c4c53b9afd5b23b28929nat;
    let e18 = 2 * e17;
    lemma_power_mod_square(7nat, e17, n, x17, 0x9936710b7f519495d9c9d6626829758db156de89e6dd0de61b92ea18f2495a27nat, x18);
    let x19 = 0x29b8c49e663a299358f41761218e3292d2db8143c1755b1fc43d1dd7bfe69bcenat;
    let e19 = 2 * e18;
    lemma_power_mod_square(7nat, e18, n, x18, 0xcb7c3826bbf848ce7254b80020312c51507b344f444ffe047bb2065205c4903nat, x19);
    let x20 = 0x37b984c39501441ff33e5ce714aaa47b71e20532715de185ae9f7aabe1bbd3fanat;
    let e20 = 2 * e19;
    lemma_power_mod_square(7nat, e19, n, x19, 0x6ccb455f77483785e9566ce91e0b86c61ade78a1fd150548104370422dd294anat, x20);
    let x21 = 0x6380cd0ad379c5232b4fbd3bbd472bf1a20a5ff0f81c3f78abd1bb013a387e4enat;
    let e21 = 2 * e20;
    lemma_power_mod_square(7nat, e20, n, x20, 0xc213d7d318e2e2fd59b90e13d34827ff3cb26f45d6cc80da2577b44d0a02656nat, x21);
    let x22 = 0xdd2976f215050cbc83fd29c04749e0235f60dc94845709478a7aa0decaffd0fnat;
    let e22 = 2 * e21;
    lemma_power_mod_square(7nat, e21, n, x21, 0x26acdf640e9dff64909aab1a73e251c6c0e808595120fce80fb3102915a11075nat, x22);
}

proof fn lemma_power_order_over_631()
    ensures
        power_mod(7nat, 0x67dc4c45c8033ee2622e4019f71311717cd420d26edf644dcb2f9e0ae0d8c0nat, 0xfffffffffffffffffffffffffffffffebaaedce6af48a03bbfd25e8cd0364141nat) == 0xdd2976f215050cbc83fd29c04749e0235f60dc94845709478a7aa0decaffd0fnat,
{
    lemma_power_mod_first(7nat, 0xfffffffffffffffffffffffffffffffebaaedce6af48a03bbfd25e8cd0364141nat);
    lemma_power_order_over_631_part_0();
    lemma_power_order_over_631_part_1();
    lemma_power_order_over_631_part_2();
    lemma_power_order_over_631_part_3();
    lemma_power_order_over_631_part_4();
    lemma_power_order_over_631_part_5();
    lemma_power_order_over_631_part_6();
    lemma_power_order_over_631_part_7();
}

proof fn lemma_power_order_over_107361793816595537_part_0()
    requires
        power_mod(7nat, 1nat, 0xfffffffffffffffffffffffffffffffebaaedce6af48a03bbfd25e8cd0364141nat) == 7nat,
    ensures
        power_mod(7nat, 0x157a31482nat, 0xfffffffffffffffffffffffffffffffebaaedce6af48a03bbfd25e8cd0364141nat) == 0x3e1c68cb1932ad5dd15209f2241fcd63cc09c677b9bf40566c3559c3ace1c394nat,
{
    let n = 0xfffffffffffffffffffffffffffffffebaaedce6af48a03bbfd25e8cd0364141nat;
    let e0 = 1nat;
    let x0 = 7nat;
    let x1 = 49nat;
    let e1 = 2 * e0;
    lemma_power_mod_square(7nat, e0, n, x0, 0nat, x1);
    let x2 = 16807nat;
    let e2 = 2 * e1 + 1;
    lemma_power_mod_square_times(7nat, e1, n, x1, 0nat, x2);
    let x3 = 0x10d63af1nat;
    let e3 = 2 * e2;
    lemma_power_mod_square(7nat, e2, n, x2, 0nat, x3);
    let x4 = 0x7c05a810b72a027nat;
    let e4 = 2 * e3 + 1;
    lemma_power_mod_square_times(7nat, e3, n, x3, 0nat, x4);
    let x5 = 0x3c157af0306dcb7f23e06460ecc5f1nat;
    let e5 = 2 * e4;
    lemma_power_mod_square(7nat, e4, n, x4, 0nat, x5);
    let x6 = 0x62b68801ec048e694ca024f381769f5541392b34be4839cdca181dc19a27nat;
    let e6 = 2 * e5 + 1;
    lemma_power_mod_square_times(7nat, e5, n, x5, 0nat, x6);
    let x7 = 0xe8086d58fde57509d2544790b501997ea867e8a79fb4f3a8315d98d3743afc4anat;
    let e7 = 2 * e6 + 1;
    lemma_power_mod_square_times(7nat, e6, n, x6, 0x10a71cff1f9d7d4118552b2326b9becf5817414a9a88722adbfd5110dnat, x7);
    let x8 = 0xad3e18ef41ee07e79208d082130a80ae082169f2e02775b8acdae7fbad752e72nat;
    let e8 = 2 * e7 + 1;
    lemma_power_mod_square_times(7nat, e7, n, x7, 0x5c02aed4a3330a3525b707ce1f3ac779ef72b88994b7b5f7e6b6f79ef47573acanat, x8);
    let x9 = 0x966480b429d094289ce986d474750377642ad0258fe752d46c44d0cabc7d3b88nat;
    let e9 = 2 * e8 + 1;
    lemma_power_mod_square_times(7nat, e8, n, x8, 0x334aae95835fdada94728f84beee75a474108775cfe7e8c6e2e57fa4c00bd66d4nat, x9);
    let x10 = 0xf103e38ccde6e09b9673787b5847d1228a3aa2566afd5e096464b8a0e5e8e992nat;
    let e10 = 2 * e9;
    lemma_power_mod_square(7nat, e9, n, x9, 0x5859ee47ee75c12ebfe9afde97aeef3e6a8ad1284164874796ab500daf65152enat, x10);
    let x11 = 0x15693287aebbecc57caeef4bbb066b9b9f707664f1216ec28b8610278dfc856enat;
    let e11 = 2 * e10 + 1;
    lemma_power_mod_square_times(7nat, e10, n, x10, 0x6345a41739ea7be5489a0b96394a41e7e58c3dad79aa11eb7f37395be8810b3eenat, x11);
    let x12 = 0x69bfdff2000d618ccc155346085faaa6fdab14e989e0c817a52185b2c0746a08nat;
    let e12 = 2 * e11;
    lemma_power_mod_square(7nat, e11, n, x11, 0x1ca6d84bff1732bca69d790c7c71af1c8efe4d2c66588f947115b246118463cnat, x12);
    let x13 = 0xa792986a60ae40eb1295cfdc464ef59ea44eac9b36de5f293d5d3a40e4250d7anat;
    let e13 = 2 * e12;
    lemma_power_mod_square(7nat, e12, n, x12, 0x2baef584730e8ed878c1c093c23d25fed1326349deb6c390c9556fbb0bf5fb46nat, x13);
    let x14 = 0xc3df6a637e4e474c2b54a3c3c341167c0a2fc0a86646ca6a576a309db2fadc51nat;
    let e14 = 2 * e13;
    lemma_power_mod_square(7nat, e13, n, x13, 0x6db096ccfe381e77e048b81c63d4ed1f7843c2ccdb87b199891bba4998336a13nat, x14);
    let x15 = 0x5e09ed9fa95c1fabb58811bbb36c4d93461c4e88f7cf768fbbf9db5ea56267canat;
    let e15 = 2 * e14 + 1;
    lemma_power_mod_square_times(7nat, e14, n, x14, 0x41912d962a7c6e9ce1250a1018da427ab06a899980926da46a5f59729f05c5f5dnat, x15);
    let x16 = 0x1a5a782b53e3d0167499dffd69af0c955c284f58a80964367bd54643b935c5f6nat;
    let e16 = 2 * e15 + 1;
    lemma_power_mod_square_times(7nat, e15, n, x15, 0xf1cf0c3abf2a0440fd850ec81ad2302719977044bca4c92eeac535ccf4c31246nat, x16);
    let x17 = 0xaaa515f49f85c28cfffe357a7a5338e4a49956fa07e73f3d746fd2fc2bd931ecnat;
    let e17 = 2 * e16;
    lemma_power_mod_square(7nat, e16, n, x16, 0x2b6806183e9e86dbc93b635a5e7bf6ca944d38121ca3f7e86f1a457c0b8c078nat, x17);
    let x18 = 0xb6330a0cb0b1cce449a265c2c94a93901d020154903278b56ba54f83cf824112nat;
    let e18 = 2 * e17;
    lemma_power_mod_square(7nat, e17, n, x17, 0x71bfab9e331554bc7a0d090e2c0e069a6429339fee86e29ba769e9abcf9eb2fenat, x18);
    let x19 = 0xc7ee41726afd112b6dad2cf1efdab4464c16697cca82776328857217f0a5847nat;
    let e19 = 2 * e18;
    lemma_power_mod_square(7nat, e18, n, x18, 0x81ac9c770cb0349b2a4a3fc3f5e8beefa8bb59595ce302bf770f267ac5b1a0bdnat, x19);
    let x20 = 0x5b816d7d9db8565cc6057c06aed7d72467e9a19e3c6a7b857e17b30a6b6e969cnat;
    let e20 = 2 * e19 + 1;
    lemma_power_mod_square_times(7nat, e19, n, x19, 0x444fdf46f7aadb8f5e693666fa15f1d8b24045ad58032e886559187655f097bnat, x20);
    let x21 = 0x4c0dacb25a7aecfa2d891a4b3ac1977a4d9fa177069f13a019b112c44bbbb51bnat;
    let e21 = 2 * e20;
    lemma_power_mod_square(7nat, e20, n, x20, 0x20b54546d58e371f5f026d97d964509282a09d96b18106822e937be2709697b5nat, x21);
    let x22 = 0xb916c1ff3a796b78746c25aa4d517383a8f991d9d4cccbaeae5c85c0a40dcea9nat;
    let e22 = 2 * e21 + 1;
    lemma_power_mod_square_times(7nat, e21, n, x21, 0x9e28dae23e5c453630a4e7f4ac7a1f75af81467a004fb13a37b0fa8233914fc6nat, x22);
    let x23 = 0x7f4f4ad22b30b55183dc06960d9e034cde415b20b36e0d0a6a9e292ee3f22d89nat;
    let e23 = 2 * e22;
    lemma_power_mod_square(7nat, e22, n, x22, 0x85d1e668cd645ed3304348d2f6ffce1c2f30237e49772ab7c33b99ac31d93408nat, x23);
    let x24 = 0x40d2bae5593edfcce93b447f4b344fd75fb60f794cb410ab6c2007df690ed9fnat;
    let e24 = 2 * e23;
    lemma_power_mod_square(7nat, e23, n, x23, 0x3f4fc4cbca6f2979d529b07a5c3277fd06dfab8945697674934d263b326b0732nat, x24);
    let x25 = 0x2e2336053cfd2ea3528eef0645619935442142f5db252fa370ab2082e9e991f3nat;
    let e25 = 2 * e24 + 1;
    lemma_power_mod_square_times(7nat, e24, n, x24, 0x72e64c64d5678378753e7a5b69991c23a14c8f7c4398733b1bcc4075950254nat, x25);
    let x26 = 0xa042501c5cd0a6b5b4eeaf693e8ead1c79b8fb0095d2ae866f71ce703d747ce1nat;
    let e26 = 2 * e25;
    lemma_power_mod_square(7nat, e25, n, x25, 0x850ac41b2bfdfd3b26c5272e9154faff3857de86570713e36710a9a98a175c8nat, x26);
    let x27 = 0x41314e3648bac2ba99f280993b199a5241c6a2d03cc0a53e7b399e93b7271de4nat;
    let e27 = 2 * e26;
    lemma_power_mod_square(7nat, e26, n, x26, 0x6452f550dbb6691fef58510cb03079a3ca980650d19441ceb0f24f5508d3db9dnat, x27);
    let x28 = 0x72e6f0ff6a9488449781688de27c01f77aa76785cbfdfad092a0a2fd65972e06nat;
    let e28 = 2 * e27;
    lemma_power_mod_square(7nat, e27, n, x27, 0x109a1336999bce35dfb986744536b6e4229b4c99b6589c70661d25c52cc1188anat, x28);
    let x29 = 0x5e0e4981a230a81db5aa01bc819eef3a1000438fde02a03f032a6f94195148f6nat;
    let e29 = 2 * e28;
    lemma_power_mod_square(7nat, e28, n, x28, 0x33927ef968bfb2edf1f6e96559d10776a34f89699017290143be8da17b1245aenat, x29);
    let x30 = 0x1a3b29be363b6b7623959d80905dee086b1881884cb1644b2a5a1cef05352534nat;
    let e30 = 2 * e29;
    lemma_power_mod_square(7nat, e29, n, x29, 0x228e7ec75264a8ecd054b56fbd9872cd47136a9f6810c6f752f928f1f8202b30nat, x30);
    let x31 = 0x71bfaff591cb6f5e5750844c1ba359fd4e195ca2cb5296ffb83d4ee180c82198nat;
    let e31 = 2 * e30 + 1;
    lemma_power_mod_square_times(7nat, e30, n, x30, 0x12d07f10547cd36dc28ee1e80bde9ccdddf2e0af0da8b0155552bf554e537258nat, x31);
    let x32 = 0x3e1c68cb1932ad5dd15209f2241fcd63cc09c677b9bf40566c3559c3ace1c394nat;
    let e32 = 2 * e31;
    lemma_power_mod_square(7nat, e31, n, x31, 0x328ac8ded416cec5fc899ab67def5cb47a7f8f34d33d1ec9342d3fe13c982facnat, x32);
}

proof fn lemma_power_order_over_107361793816595537_part_1()
    requires
        power_mod(7nat, 0x157a31482nat, 0xfffffffffffffffffffffffffffffffebaaedce6af48a03bbfd25e8cd0364141nat) == 0x3e1c68cb1932ad5dd15209f2241fcd63cc09c677b9bf40566c3559c3ace1c394nat,
    ensures
        power_mod(7nat, 0x157a31482c9e5d856nat, 0xfffffffffffffffffffffffffffffffebaaedce6af48a03bbfd25e8cd0364141nat) == 0x2bc6f7c606c42fc8e039c8f95755080e1f566072c3ecb077247928b4eb8945c1nat,
{
    let n = 0xfffffffffffffffffffffffffffffffebaaedce6af48a03bbfd25e8cd0364141nat;
    let e0 = 0x157a31482nat;
    let x0 = 0x3e1c68cb1932ad5dd15209f2241fcd63cc09c677b9bf40566c3559c3ace1c394nat;
    let x1 = 0x328c4d37e8b2dfd4e43e36a90af85ba9af6579672a25a683dce7ce7a14ffd761nat;
    let e1 = 2 * e0 + 1;
    lemma_power_mod_square_times(7nat, e0, n, x0, 0x697c696244b5f0a2995d78a02524cda9fecad1a4fec8fe24bdaf8ed48b2004cfnat, x1);
    let x2 = 0x2aed5d633b8660285d8e28b3c7dab32691807a69af83a792896d1913ceb704ddnat;
    let e2 = 2 * e1 + 1;
    lemma_power_mod_square_times(7nat, e1, n, x1, 0x45ddbd64b76178e5c33e33fe7baa96ae399a739b02cea992ba314a04c1d099eanat, x2);
    let x3 = 0x2440bb354456afd171fc2de2d9e31a20960022af47eeee8fedff565d22f899c0nat;
    let e3 = 2 * e2;
    lemma_power_mod_square(7nat, e2, n, x2, 0x732beba9b558e120312c89f6979ac17571607e4b9674c1358978868c00691c9nat, x3);
    let x4 = 0x6c979b8bf0ef06c1f25bc3fd1f66152cf328c40fbe97eb2c42a246e9dc7529d4nat;
    let e4 = 2 * e3;
    lemma_power_mod_square(7nat, e3, n, x3, 0x52245051ec169b6d3c6df003a2fce27b0a04e503df9c2ec359fabf857e3ef2cnat, x4);
    let x5 = 0x16f8417225f2be04dd48abb79177c5b1eb511b2a29aad8381ed9ca38db528fe5nat;
    let e5 = 2 * e4 + 1;
    lemma_power_mod_square_times(7nat, e4, n, x4, 0x14271e3309632a586188a08f27bb56c29360ebf4d025615a2b85cde205ff2b74bnat, x5);
    let x6 = 0x453a525e85554826cbeaa8b7f09ad50e68c4b3490a5fcc06e3f423ead9ad10ffnat;
    let e6 = 2 * e5;
    lemma_power_mod_square(7nat, e5, n, x5, 0x20f9bfe7c6a692415c5001d72cb2cfd4064ce64ee0c864b9cf5053fcf1c615anat, x6);
    let x7 = 0x735c43991d77168f4b7b9bf645007ec4886582b97fc324f50750ad7c79329bb8nat;
    let e7 = 2 * e6;
    lemma_power_mod_square(7nat, e6, n, x6, 0x12b87db0613513da6dcc75c8fd714ff29e238ecce4990c6066aae3dc33e73709nat, x7);
    let x8 = 0x8770d0be5828e1a111cbad9ddcbf0304305a13861343516a20c85128b84abbccnat;
    let e8 = 2 * e7 + 1;
    lemma_power_mod_square_times(7nat, e7, n, x7, 0x16be429e58a9dba0eac8057e11ae17334f1deddff05deb5cd6625ebc5a07160f4nat, x8);
    let x9 = 0xd617c89c7ce72f03440d58bf1465b8789536b42788b0648ccad5ff9ca802f8bbnat;
    let e9 = 2 * e8 + 1;
    lemma_power_mod_square_times(7nat, e8, n, x8, 0x1f59941207c32d5af03c43ae2c3e0c0efc108b394f52988c0250215ee228cbef5nat, x9);
    let x10 = 0x14663d288484c97538390d54cd29685bfa50e42e36e18069fec2efa9306c253dnat;
    let e10 = 2 * e9 + 1;
    lemma_power_mod_square_times(7nat, e9, n, x9, 0x4e552673f0708e0b72b9a03cbb0c0bfb9df32308adcccb90b42eaffff6ba4b872nat, x10);
    let x11 = 0x1bea824e15c8dfa7c4d7dd0881227e369b123c59fdc1e6dcc21d987c470a70d6nat;
    let e11 = 2 * e10 + 1;
    lemma_power_mod_square_times(7nat, e10, n, x10, 0xb60f0b5dd3ac802b2122f35367e6ed64f3601b6aad9991e7a51e6dd4fe48fa9nat, x11);
    let x12 = 0xb06f55e74eaf2b1c950b60ef44abcbe611ff42aa765dc19d12a4cc49442135fnat;
    let e12 = 2 * e11;
    lemma_power_mod_square(7nat, e11, n, x11, 0x30b4e4ef1ab98578da2a3b6cea560733c27e765f385f11e6a3e4f6e32870945nat, x12);
    let x13 = 0x8db171ca3a7fcb04b81557a2942edd8581e6d2c1935913d5e9caca8906dede87nat;
    let e13 = 2 * e12;
    lemma_power_mod_square(7nat, e12, n, x12, 0x79994689a79a826e1aa8e3d6f9faeaa2e105e0c7f09837ec0445c7402e163anat, x13);
    let x14 = 0xc50aabc4f2cdd5c0289233b9da288b2d150a5c0fa466396ac8fc041b701abd01nat;
    let e14 = 2 * e13 + 1;
    lemma_power_mod_square_times(7nat, e13, n, x13, 0x224faa06334a4bc39dd03688bbf581fec2d92483e7b8337618026b8059f8d65d6nat, x14);
    let x15 = 0x9ddcf3e5058194170898c5125b2b6b752e597510c09071e9760566177c78081cnat;
    let e15 = 2 * e14;
    lemma_power_mod_square(7nat, e14, n, x14, 0x97a96ccefc5476f21e7c0118da2fa7199e9001b4a52cc417c73854a64242a3a5nat, x15);
    let x16 = 0x1c4291176e0f09dd2b849aa6445816f82067bb3d19cb6a1e010f0ca2363b3e83nat;
    let e16 = 2 * e15 + 1;
    lemma_power_mod_square_times(7nat, e15, n, x15, 0x2a96d4cfd1338e1db6882045ed23c8a30b5273dac128e05dd86526b061f497eadnat, x16);
    let x17 = 0x29790c6487f85694e4699d3be16bf8d1024e6cb514e6ceb2d532d5ff856e0001nat;
    let e17 = 2 * e16 + 1;
    lemma_power_mod_square_times(7nat, e16, n, x16, 0x15d66755d0b91f203f44d4389bc30242edf5f93c8fb03077db03f3d733cdd3benat, x17);
    let x18 = 0xd61c57fe492e3d6496e7e9f6affd9a1b5959bf4db878dd9e3094d75bba7e12f3nat;
    let e18 = 2 * e17 + 1;
    lemma_power_mod_square_times(7nat, e17, n, x17, 0x2f07fa726e4d9d034dd67b1f75191f6c8b03bdd6cbd5331bf4a326a2007fd414nat, x18);
    let x19 = 0x38f2a43f27be4ce101e1af7ab4a64e973524fcf52389ed2534159b40744c43e3nat;
    let e19 = 2 * e18;
    lemma_power_mod_square(7nat, e18, n, x18, 0xb31366408038231454b4576e2e5c047b759330dd2cab582527ccb6dd28743746nat, x19);
    let x20 = 0x9542c2d9032ff26ac61c2cdbf7241d87b3bbd8e3fcbd8a884c516a5b4e84ac7bnat;
    let e20 = 2 * e19 + 1;
    lemma_power_mod_square_times(7nat, e19, n, x19, 0x58ad60ddff2f9f7561efb6821826b014c71f7f70a2ce01eb45356992caa5ad84nat, x20);
    let x21 = 0x9670c08bacebc7946de30c62f68b79b13b47dc1ecdaa9ecda3c2156e8007641dnat;
    let e21 = 2 * e20 + 1;
    lemma_power_mod_square_times(7nat, e20, n, x20, 0x2612f7993a55f97ee86d75cca19de7cc0487b5c7996fe2f64668c8a4f02b4db12nat, x21);
    let x22 = 0xf3e8e30b9461f314df7d8c76881b6620e873bce24b0b0d305e35833f77cea954nat;
    let e22 = 2 * e21;
    lemma_power_mod_square(7nat, e21, n, x21, 0x5868534cb9ad6bc77add468a306a025382d3ea555c31afc0b18ff7f3faeb1fb5nat, x22);
    let x23 = 0x1cb2a19fa2ecd25a40ea15c7c3573b4abfcdef3ec967a4ba2c549b3dd8bf1e43nat;
    let e23 = 2 * e22;
    lemma_power_mod_square(7nat, e22, n, x22, 0xe863f2e44a0c6eae01a0bae5b82a26a68c507c5134d84db977efffe425c5550dnat, x23);
    let x24 = 0x603685df1a30aa4225715c6fe0e0fcdd2cfa42db4ae4898c212702fcfa51bb0fnat;
    let e24 = 2 * e23;
    lemma_power_mod_square(7nat, e23, n, x23, 0x337900013ac8dd1ee28e15bcc1b3199ed417f676321a583f17749895c2b11fanat, x24);
    let x25 = 0x2f14b153d3f3d0e7d150c3c8a93d0c3bba4018718c7110f393a1d42c54283b37nat;
    let e25 = 2 * e24;
    lemma_power_mod_square(7nat, e24, n, x24, 0x2428f00413c51fdea45c1721a70be33f9208b368f3d3889e4945aa24dd143b2anat, x25);
    let x26 = 0x9fb3dd68bca8ad7c157dc314033441c7987ebf2177f59442dc5015800c2af441nat;
    let e26 = 2 * e25 + 1;
    lemma_power_mod_square_times(7nat, e25, n, x25, 0x3c9c3b7ec64baf6842c771f68d75400e275fc4b2d3a978c3077de68d6dfb20f6nat, x26);
    let x27 = 0xe1083683805de083cdce9f6e440facfeb708238894b56cf713881f29f2760fadnat;
    let e27 = 2 * e26;
    lemma_power_mod_square(7nat, e26, n, x26, 0x63a0eb677a4f5bf7cdd5a610aaf44f5b7b747d43e5531f47340a69b56ad51fd4nat, x27);
    let x28 = 0x7d518629d8b7d527129f91a8f464487cb8a0d874e3d04f780360cd91d472d8canat;
    let e28 = 2 * e27 + 1;
    lemma_power_mod_square_times(7nat, e27, n, x27, 0x568ac109e404d7995a63038c00419ff866b11e2a17c9ffb73779f5cfbd4765955nat, x28);
    let x29 = 0x125eca5cf16fd555e777adde3236df662ead99ba62c318c736e875da91836ce9nat;
    let e29 = 2 * e28;
    lemma_power_mod_square(7nat, e28, n, x28, 0x3d58b6fb0a6e8034a06786f08df20f1acf83c1fbe86f4428ba626a76bc5668bbnat, x29);
    let x30 = 0x9442e266d11ff2d02c6f576157433d225a03a6a1d7bb6a0bf9cb26ac5cfbe10nat;
    let e30 = 2 * e29 + 1;
    lemma_power_mod_square_times(7nat, e29, n, x29, 0x93a44e42332e0399ab847403b1858a8861e66f3c0a8257fde617ab1ea5d65a7nat, x30);
    let x31 = 0xa90b733fb3a11205715d2d05d3d697d53e766865c65ee47a3b888f6e79fdb638nat;
    let e31 = 2 * e30 + 1;
    lemma_power_mod_square_times(7nat, e30, n, x30, 0x2590dd2c2d149464b5e1528b3839945875e50f66f23b5a1d22317703f6616c8nat, x31);
    let x32 = 0x2bc6f7c606c42fc8e039c8f95755080e1f566072c3ecb077247928b4eb8945c1nat;
    let e32 = 2 * e31;
    lemma_power_mod_square(7nat, e31, n, x31, 0x6fa01ead368664df59a72a865b269651b86c30ec88412d7ed42b32c1daeaf7bfnat, x32);
}

proof fn lemma_power_order_over_107361793816595537_part_2()
    requires
        power_mod(7nat, 0x157a31482c9e5d856nat, 0xfffffffffffffffffffffffffffffffebaaedce6af48a03bbfd25e8cd0364141nat) == 0x2bc6f7c606c42fc8e039c8f95755080e1f566072c3ecb077247928b4eb8945c1nat,
    ensures
        power_mod(7nat, 0x157a31482c9e5d85693f8a19bnat, 0xfffffffffffffffffffffffffffffffebaaedce6af48a03bbfd25e8cd0364141nat) == 0x71ec0e8a75f517e21c08af3cd9031f8bec2a1163d84b6dbc8f3adc14bcb8e6f8nat,
{
    let n = 0xfffffffffffffffffffffffffffffffebaaedce6af48a03bbfd25e8cd0364141nat;
    let e0 = 0x157a31482c9e5d856nat;
    let x0 = 0x2bc6f7c606c42fc8e039c8f95755080e1f566072c3ecb077247928b4eb8945c1nat;
    let x1 = 0xe34d1b3ff5ee0adb33bc062a4f8626280d0669309006ab31cc5fb1a0601a1252nat;
    let e1 = 2 * e0 + 1;
    lemma_power_mod_square_times(7nat, e0, n, x0, 0x34671d2526d8b45f1d7120555ad5d43f4b613314ee0f136b23d628bfdb08fbf5nat, x1);
    let x2 = 0xdf02612ea550a60fb03e535ac508bdc097b4be5a0f92f83ced2117f4020413ednat;
    let e2 = 2 * e1;
    lemma_power_mod_square(7nat, e1, n, x1, 0xc9d1d58cd584a64e7351a4f79f63a51d1d40bba93bcedaeed94947a3546dd197nat, x2);
    let x3 = 0xa3b95cef8d87fc60842f66db9f3a721a79cad9b578a45fcac599fcc338375b48nat;
    let e3 = 2 * e2;
    lemma_power_mod_square(7nat, e2, n, x2, 0xc2452554eda17858dedff6dc70f7e496f494698e3c79671cc3e4e383516554e1nat, x3);
    let x4 = 0x8c7c78f2140e9c2b7ceea532df205154aaef7e04fa8ceef642c5b80257bbbe7fnat;
    let e4 = 2 * e3 + 1;
    lemma_power_mod_square_times(7nat, e3, n, x3, 0x2dcf701f38f6376b6dfa7aeb7d5dbcf933c50328ca4ca598197cd5f6720fe5e01nat, x4);
    let x5 = 0xf4aa7c5d9696104c0d7f22f4c70642887a21a16b961ba3069d4c31c6baba8addnat;
    let e5 = 2 * e4;
    lemma_power_mod_square(7nat, e4, n, x4, 0x4d1860ce299740ae7a605c73daef812fff34121ee00be0c6d73d2db350914b24nat, x5);
    let x6 = 0x23b6ad342ddf8d7aabaa6a463bc0f0d82e44bb79fe94731471e4be26c8f1196cnat;
    let e6 = 2 * e5;
    lemma_power_mod_square(7nat, e5, n, x5, 0xe9d56e9bcfc4da76c021fee23ab3300812df0411508ba2adc2e51b871d4a451dnat, x6);
    let x7 = 0x2539c35af6d62091bceb8d7a2afeb8b4a7cd242b525cbbf20d5c577a5663d3e6nat;
    let e7 = 2 * e6 + 1;
    lemma_power_mod_square_times(7nat, e6, n, x6, 0x22e03800ff736e4ca754313d0f462361ddabd93a0b1313a9c0807b5cb031668anat, x7);
    let x8 = 0x82ea2627d564d1b9ff1dc58b33a162d4b36fbd35bb8f9e1ed1eca972ab41b1b7nat;
    let e8 = 2 * e7 + 1;
    lemma_power_mod_square_times(7nat, e7, n, x7, 0x25e43c86188ca3e949cb905fe80fc2f1d9c5e223605fd6fa8a55f23030608a85nat, x8);
    let x9 = 0x42352794afc5f1eef03695d2e691cd45a46c3d040f202352d0e551153b151f65nat;
    let e9 = 2 * e8 + 1;
    lemma_power_mod_square_times(7nat, e8, n, x8, 0x1d4a282679ea67c0aabe8a72dc60533cbd018682450c973bacc4ff691668e8fd2nat, x9);
    let x10 = 0x7c1398c5405c973ef8bc890c135ccca18530805253476c1590993a1386414b6nat;
    let e10 = 2 * e9 + 1;
    lemma_power_mod_square_times(7nat, e9, n, x9, 0x77dc281e8e3a685bca8099fc8a6b8b34ad297b611e5ff0333e429a969d52c4f9nat, x10);
    let x11 = 0x576d86616718cc1a22dd83202765033eba2290449907deb45a337da795dd46c6nat;
    let e11 = 2 * e10 + 1;
    lemma_power_mod_square_times(7nat, e10, n, x10, 0x1a4f4ee79d79490beae32d513092105d0abf64a66918d24ad30c248b6cc7f76nat, x11);
    let x12 = 0xd344c863d2a57e95333d972d2342f8ec26f50ba76fddca98d7e72026ea3f7bcanat;
    let e12 = 2 * e11 + 1;
    lemma_power_mod_square_times(7nat, e11, n, x11, 0xd101615d62e753d1bd8ab6ea62d3c9d033e6d57a2aa4d6c84a9a7ee14b710db2nat, x12);
    let x13 = 0xe220179f0c7a547a8cd096ccb2dfda8e715c1ee1f825797f36cda48effdadd62nat;
    let e13 = 2 * e12 + 1;
    lemma_power_mod_square_times(7nat, e12, n, x12, 0x4c47931ad59e5de7ea5e5fa527e964127d9751f4e362a4c0840954787d79a71danat, x13);
    let x14 = 0xdb761ed71b1b4a059dc8b4b2cf72aa0aa4f295501eba9d6e495637dc05e1bf6enat;
    let e14 = 2 * e13;
    lemma_power_mod_square(7nat, e13, n, x13, 0xc7bcadbabbf912cbfb02264fa3167c4be00642bdfdc5e29fee4fc2f05618de96nat, x14);
    let x15 = 0x33a1dfc1b5c5d3739e97a0c8546d1ad7d2e63c8db721e28895325a2857662467nat;
    let e15 = 2 * e14;
    lemma_power_mod_square(7nat, e14, n, x14, 0xbc234f447a64cce6c9314520771db766a297d832c2c244cb576bf83f2a80aa9dnat, x15);
    let x16 = 0x701fd8f45e37f5c5cf409f41b153263e44686854753a1ddea908afb2b2617c87nat;
    let e16 = 2 * e15;
    lemma_power_mod_square(7nat, e15, n, x15, 0xa69e58263a68256445b7d49f5376571bd39a52df4d2191cf1e88708afa0a06anat, x16);
    let x17 = 0x93654a80b4270defa507a794d2dec96a9e6e6f5336a59b0178cbeae9831527f3nat;
    let e17 = 2 * e16 + 1;
    lemma_power_mod_square_times(7nat, e16, n, x16, 0x157c32c94966b7609736953bec91014474454bfc71642cbc7773d4b627f7a8564nat, x17);
    let x18 = 0xc07381928950a91fd0c10ccae8dcea660d9cddec97cc1f19cbd8de821aacd185nat;
    let e18 = 2 * e17;
    lemma_power_mod_square(7nat, e17, n, x17, 0x54dd7ba3ae21a9ad70826f1ad9fd20ee24bb678d5fbebbe23e4ddb3d5e7d7224nat, x18);
    let x19 = 0xbccee3caa17a10aba2a5872bf12945a6c2fece0de98e26db2be3384351f0fe37nat;
    let e19 = 2 * e18 + 1;
    lemma_power_mod_square_times(7nat, e18, n, x18, 0x3f4be3d52507594f31ebab629062286e674af8be711aa7bfc233b936081bf3578nat, x19);
    let x20 = 0x77ffd3831fe54ba71815d28a85ebed3a3dc9e1d3b5fe83b7dab12f402a3e27bfnat;
    let e20 = 2 * e19;
    lemma_power_mod_square(7nat, e19, n, x19, 0x8b4085c501f823b09f2a5568171f1cf2fafa87ef4c95cbca2957d16dc66c9192nat, x20);
    let x21 = 0x8e45645fa2f7a25587834d242c5c6e092c76a2f434be4fbf685cf4d2747ab28nat;
    let e21 = 2 * e20;
    lemma_power_mod_square(7nat, e20, n, x20, 0x383fd64af5a220dfb2a0799fbeffaa4c6fd322a2aca118ace03ba9a716583619nat, x21);
    let x22 = 0xb69e69d2122d7d3de560487d4df79d335c8489bfe9508a25df530f92dc63389cnat;
    let e22 = 2 * e21;
    lemma_power_mod_square(7nat, e21, n, x21, 0x4f110e295bb36ca036cc5cb3c5ec007d1bd176fc283862f0ffac7efead70a4nat, x22);
    let x23 = 0x8f986657961d280c664d7cc436c7c34bc7ca4a56efc972b24360cc21986fbb54nat;
    let e23 = 2 * e22;
    lemma_power_mod_square(7nat, e22, n, x22, 0x8245a07d7ce51d85bf34b752ec3fb7b700e6eb2cfdbca8fcc5763dbb2c2ef8bcnat, x23);
    let x24 = 0x832ba286fc45cee521fd8aa417bdd078664f88e1a4cd29b8e62915ca472107f7nat;
    let e24 = 2 * e23 + 1;
    lemma_power_mod_square_times(7nat, e23, n, x23, 0x233d14b6cca6538ac2165573ef2c8b74af5278ec4fac12c40d27c8b51102d59b9nat, x24);
    let x25 = 0xf410ae5e9cf344ef9949510ee20c2667f0b9f6a3fb88f72e6f0c564a0748310anat;
    let e25 = 2 * e24 + 1;
    lemma_power_mod_square_times(7nat, e24, n, x24, 0x1d677ce6b0f032d93fd0d0238e9bab89464e7b77cf0c01a4ffe358c93892578ednat, x25);
    let x26 = 0x49c7f6ac960510488016ac1428bc99abd90aa292ae21a7a5a53364df8bf676f4nat;
    let e26 = 2 * e25;
    lemma_power_mod_square(7nat, e25, n, x25, 0xe8afcd7a9dc81a23aebca332b109b29b2830effff5b669fb2cd8e80a195c9170nat, x26);
    let x27 = 0x48e6203e60b24d0d5bbdf40644738ce3a9697f7b58a08e8c43e52aaeaff2266nat;
    let e27 = 2 * e26;
    lemma_power_mod_square(7nat, e26, n, x26, 0x1543a6dfdb9043d453c7382951b99551b59e7d70e702b9ef59dfcc2b074621aanat, x27);
    let x28 = 0x4914efb8ca1e3d70f4decfe8f217739d9cb10b84e3654121f9f9532f6880c471nat;
    let e28 = 2 * e27 + 1;
    lemma_power_mod_square_times(7nat, e27, n, x27, 0x914fc70749c3e5b2a851fdc2597be89ae6c1bf5b66ae8c7d06dd2c0de6624bnat, x28);
    let x29 = 0x5015519794f94d593fc245aea2d73531133e2b2e0d5f868196b5528567a5e6c4nat;
    let e29 = 2 * e28 + 1;
    lemma_power_mod_square_times(7nat, e28, n, x28, 0x920aa1000c5bb1d191801e9c9e597980e9089f3cbe6168acd81b2e923ab0a2a3nat, x29);
    let x30 = 0xfac8a869855982392f945c054f28afb1b4cbe66e7cdcc7cd29ee2bb16c5bf52bnat;
    let e30 = 2 * e29;
    lemma_power_mod_square(7nat, e29, n, x29, 0x190d54c539fb8745503acf457c6967938c55fdc9f5882841170f34319d0642a5nat, x30);
    let x31 = 0x5b889158621b0dc8a331132245503a323ec2e38ada0b517c2daabf9d1d04a937nat;
    let e31 = 2 * e30 + 1;
    lemma_power_mod_square_times(7nat, e30, n, x30, 0x6b7b7ab77b4d0ed03229ace87e5c4cdf2ead86947d656505a8b12b0d8ff25fd58nat, x31);
    let x32 = 0x71ec0e8a75f517e21c08af3cd9031f8bec2a1163d84b6dbc8f3adc14bcb8e6f8nat;
    let e32 = 2 * e31 + 1;
    lemma_power_mod_square_times(7nat, e31, n, x31, 0xe518a14d1b38fb5ab10c5bba07c886a25560b535e9d5325a21b5992921ea3effnat, x32);
}

proof fn lemma_power_order_over_107361793816595537_part_3()
    requires
        power_mod(7nat, 0x157a31482c9e5d85693f8a19bnat, 0xfffffffffffffffffffffffffffffffebaaedce6af48a03bbfd25e8cd0364141nat) == 0x71ec0e8a75f517e21c08af3cd9031f8bec2a1163d84b6dbc8f3adc14bcb8e6f8nat,
    ensures
        power_mod(7nat, 0x157a31482c9e5d85693f8a19b6fc4e0a8nat, 0xfffffffffffffffffffffffffffffffebaaedce6af48a03bbfd25e8cd0364141nat) == 0xa3d4bb7ce00ea2f7d3d7251468ea6baa291e9584826861f2f2d5befcfbb83c59nat,
{
    let n = 0xfffffffffffffffffffffffffffffffebaaedce6af48a03bbfd25e8cd0364141nat;
    let e0 = 0x157a31482c9e5d85693f8a19bnat;
    let x0 = 0x71ec0e8a75f517e21c08af3cd9031f8bec2a1163d84b6dbc8f3adc14bcb8e6f8nat;
    let x1 = 0x29e3f6a9b9da6a0f2321a078951adf6d22e6d72f340866eeada4c88b3597dcfenat;
    let e1 = 2 * e0;
    lemma_power_mod_square(7nat, e0, n, x0, 0x32b23e810c3f4ac3d6d7c80962f0767e5a6eb42b25b5dc8ac22bc8a3419d40c2nat, x1);
    let x2 = 0x28a706049fca32fa9903aa1089875210010407cfef80720e95f52c29416c3c16nat;
    let e2 = 2 * e1 + 1;
    lemma_power_mod_square_times(7nat, e1, n, x1, 0x2ffbb00c255f57354ca1373a5055614419db603594a9f9c78a77ec6f75847086nat, x2);
    let x3 = 0xd2dd88ef76b9d963ee068ae94d3e8481d36f74d9cb7a0076ff73c55d66feede7nat;
    let e3 = 2 * e2 + 1;
    lemma_power_mod_square_times(7nat, e2, n, x2, 0x2d3057f814c3292dca8065b87a5ecaec2c33e3cff49e1e9f07859d7e3953b515nat, x3);
    let x4 = 0x25d834067c7c78af992b7313510bb73411966b6197ded02606be3da0806402f7nat;
    let e4 = 2 * e3;
    lemma_power_mod_square(7nat, e3, n, x3, 0xadb0345e957b33ada619a40407cfcf14318d6a9eb9726fb439d3e7ed86fd4afanat, x4);
    let x5 = 0x5c17065a469b9c6e904578c047e78c2c1e127eb0d05066cc719bb02a60fb8a40nat;
    let e5 = 2 * e4 + 1;
    lemma_power_mod_square_times(7nat, e4, n, x4, 0x2729776bf684cdad61f7eb54f764bb376c58384f6f160f5899c3c1987cbab937nat, x5);
    let x6 = 0x5a349d50ba561bea43446e800a5aa301d200bd20fdeaf1f969c156dd606974fanat;
    let e6 = 2 * e5 + 1;
    lemma_power_mod_square_times(7nat, e5, n, x5, 0xe7e3e67531e638ca267b7f650bca40abb977607e3db8e4f322e2a03203781386nat, x6);
    let x7 = 0x4a97b16632a0df86cbbe98a6b7d01efa65ef939635b9f1b3d8624ba8b3b9a82bnat;
    let e7 = 2 * e6 + 1;
    lemma_power_mod_square_times(7nat, e6, n, x6, 0xde7f41fb57668856a714479e8a858ae38fbdb0a38cf160f02604151a7ff13f91nat, x7);
    let x8 = 0x771099ee57cd22454ba52225e275b289031e7826f88fd391446be3cc8221e914nat;
    let e8 = 2 * e7 + 1;
    lemma_power_mod_square_times(7nat, e7, n, x7, 0x9824571cdf5678b33ac618a0742a29e739364d2fcca391f3e68c504be626efbbnat, x8);
    let x9 = 0xfc643fdbd723348513626af7af806dd2759ef38350fbe9c15496598e2404a7d8nat;
    let e9 = 2 * e8 + 1;
    lemma_power_mod_square_times(7nat, e8, n, x8, 0x183a3114a4fd9207ef4683141b8d4a28347c75f572b88f97aaca2ef2e5a9edd18nat, x9);
    let x10 = 0xc888c0e2bce9ce78dff6e045ed317128854ebb53da0f031c8f1db1418196fc75nat;
    let e10 = 2 * e9 + 1;
    lemma_power_mod_square_times(7nat, e9, n, x9, 0x6cdd6a2db569f490d0310e45a2276c062e7cc5d2ca78c6c149730ee9ad083018bnat, x10);
    let x11 = 0x4621a1721373b363bc5d6635afa3183846c167ee4c21ce3fdc0c4a0d59f80e73nat;
    let e11 = 2 * e10;
    lemma_power_mod_square(7nat, e10, n, x10, 0x9d15f66fc96aef390c4dcee454b72ee847fd1d7f0160edc0af3a158610779786nat, x11);
    let x12 = 0x855e1b4ad53254aef0aedb70a364e5a24de94b693c19cb35477d47487d522085nat;
    let e12 = 2 * e11;
    lemma_power_mod_square(7nat, e11, n, x11, 0x133668b567dcf93ba6e33ca66ae8c1625369fb0f79d94a802da9d7a143f4fa24nat, x12);
    let x13 = 0xa2c669376e734d6ebfd83244eda5b402c5d3236ac00afa934bbddbafe9cdeaaenat;
    let e13 = 2 * e12;
    lemma_power_mod_square(7nat, e12, n, x12, 0x457aeaf3cf63bbcc8711172484bbb73f5717f469dd75f43dd58497b61e0504abnat, x13);
    let x14 = 0x7c092a0d35690a25ad897e4844c1bb289c35c85aad0d08361d50798869117cb8nat;
    let e14 = 2 * e13 + 1;
    lemma_power_mod_square_times(7nat, e13, n, x13, 0x2d47e009791731ac239d890684d3a0c4ad10bd7c0540f5401116b8813580aba24nat, x14);
    let x15 = 0x73abbc6d137e4eef30bd659735aece5280ee4c9b183e4fbf26461322535e3d73nat;
    let e15 = 2 * e14;
    lemma_power_mod_square(7nat, e14, n, x14, 0x3c18e110c793d96c25e774128e414d033aa3f04bbc3d2b9afe39c8c05597168dnat, x15);
    let x16 = 0x8e57f3ae6fda878e04378bc6b3afbc1ccec056d2bc6c767decdc7bc3a6d3cd8nat;
    let e16 = 2 * e15;
    lemma_power_mod_square(7nat, e15, n, x15, 0x3443be7f43ebe8c3784fcb9a8dc217366201fa36b83f48a88d98eb9072f90f91nat, x16);
    let x17 = 0x30c11da9f0d17e68ab67146df3fd7593860f1ef2c33ed633b5118265557ee78fnat;
    let e17 = 2 * e16 + 1;
    lemma_power_mod_square_times(7nat, e16, n, x16, 0x22a07d3db583d8cd7896135ce77f550e40e278ef79be6f2b6cd570c50d7e6f1nat, x17);
    let x18 = 0xb8a5c6f9e980521cf56a145fd33ffc8c213b501276b24143beb19c2974d3265enat;
    let e18 = 2 * e17 + 1;
    lemma_power_mod_square_times(7nat, e17, n, x17, 0x40fee99e47e14892171a45fb2d022bee7004cd60ab24428358342fdf0395db89nat, x18);
    let x19 = 0x5d8b4eee99ce40b29dc9e65bde72786c1fdc90c8bb863633f862064640ff5568nat;
    let e19 = 2 * e18 + 1;
    lemma_power_mod_square_times(7nat, e18, n, x18, 0x3a44711a96b40f6524425787b17b0a69894b7395187dd864fd71e036e2037f334nat, x19);
    let x20 = 0xba97b46113dac2577488d4fcb4f984a189c76364b47fd6f0696cb438b237438anat;
    let e20 = 2 * e19;
    lemma_power_mod_square(7nat, e19, n, x19, 0x222e83282b3125180ff15e6503961bfa2b2ce803ce416d97ee84318ff2757336nat, x20);
    let x21 = 0x9cce8d0c01ea6b6d4a297915c779de14c9dbeebeb6d70955c455073d62ee5378nat;
    let e21 = 2 * e20;
    lemma_power_mod_square(7nat, e20, n, x20, 0x8800cc035a77f734071ec4d9c0144c3df5516291cf9ec66edbda10d584cd4becnat, x21);
    let x22 = 0x3aeb619fee8d13af22352213fb66191b73092182c1f332259a5189613d0fea89nat;
    let e22 = 2 * e21;
    lemma_power_mod_square(7nat, e21, n, x21, 0x600c628def5f02de7e9a07c178e357fc9afbbbfaeab809d5b89ba7b7e7bc28f7nat, x22);
    let x23 = 0xa091bea2f06a1ef881f5eff7d87e5f974c841196b5f219a3f490ad8e324a45d6nat;
    let e23 = 2 * e22;
    lemma_power_mod_square(7nat, e22, n, x22, 0xd8f80a8d8f27a9e997caaceb4773af09f5549b09c714e45f3cc5db41d108dbbnat, x23);
    let x24 = 0x6cca82ddcca8f701daa973cfffcc8f041f477a047ecf0d07e46d4ec30b6dcfe1nat;
    let e24 = 2 * e23;
    lemma_power_mod_square(7nat, e23, n, x23, 0x64b681452f0f43806605de0cce10c2fca0bffd44bbd55934e1fc42365e5e6b43nat, x24);
    let x25 = 0xd7c9077ceb9835fd462c0fd71c5c84f2907d58502a8d5b213fda2b99960e02cdnat;
    let e25 = 2 * e24 + 1;
    lemma_power_mod_square_times(7nat, e24, n, x24, 0x143a076517f40e999d36eeb35e0b1db7b345a3c3a1bc09e4cdf12a4a5727e3efanat, x25);
    let x26 = 0x391fd8e56c0ba3d1afaa32b883dee761bd300b130f73e44bdaef66cfa08f7d2dnat;
    let e26 = 2 * e25;
    lemma_power_mod_square(7nat, e25, n, x25, 0xb5e34870961bb18b9acf289dbbf61f936608b9fdbcedceb3e51ecae78c055ffcnat, x26);
    let x27 = 0xbb6dd3bb10e5d9fece2c85796422b2eb5297bc37c83be40d37f58aa5250c2b25nat;
    let e27 = 2 * e26 + 1;
    lemma_power_mod_square_times(7nat, e26, n, x26, 0x593a61d6e2191fe633279af06bf4efbd749d6d53e977ac7aad63d7e966a401banat, x27);
    let x28 = 0x7b7c1b94c118fd95f3ded2d7e1dc552b7380fb7abc237a06f9627a5fb6867c8enat;
    let e28 = 2 * e27;
    lemma_power_mod_square(7nat, e27, n, x27, 0x8939a271471a16c27a74a8a72fff74d58b6ecd0bc82b8d6e69cd64c0fcfee90bnat, x28);
    let x29 = 0x60840b519d26f3227c78c939f468659e83ca97a65b5dc4fe1f6db3f346f2a826nat;
    let e29 = 2 * e28 + 1;
    lemma_power_mod_square_times(7nat, e28, n, x28, 0x1a0f376b1b86c8d680f894aa32b2b06b216d7fc21a4d265e5c5be4c31f9aa4bb6nat, x29);
    let x30 = 0x1573a533eae07f41349a5ea10efbbbbcdbb5e59a4976bb5142775cef41dcd98enat;
    let e30 = 2 * e29;
    lemma_power_mod_square(7nat, e29, n, x29, 0x24634c98e287640ac4ee922582a0412cecf4b1e5968cb6890cb8f117a21ed096nat, x30);
    let x31 = 0x2ee8b775184aabe780dd9b7a8ceebc8354bfcbf5999d43c231c7b93dbbc26dfdnat;
    let e31 = 2 * e30;
    lemma_power_mod_square(7nat, e30, n, x30, 0x1cc2d585bc9d1dfd83285838a2e1a6516a59ee6d1696b477b2abdec712ad407nat, x31);
    let x32 = 0xa3d4bb7ce00ea2f7d3d7251468ea6baa291e9584826861f2f2d5befcfbb83c59nat;
    let e32 = 2 * e31;
    lemma_power_mod_square(7nat, e31, n, x31, 0x898757b1c6f7b68be3d6765b50db4bdcaefcad3056f72aa2f95d7a4723893b0nat, x32);
}

proof fn lemma_power_order_over_107361793816595537_part_4()
    requires
        power_mod(7nat, 0x157a31482c9e5d85693f8a19b6fc4e0a8nat, 0xfffffffffffffffffffffffffffffffebaaedce6af48a03bbfd25e8cd0364141nat) == 0xa3d4bb7ce00ea2f7d3d7251468ea6baa291e9584826861f2f2d5befcfbb83c59nat,
    ensures
        power_mod(7nat, 0x157a31482c9e5d85693f8a19b6fc4e0a85e4ac141nat, 0xfffffffffffffffffffffffffffffffebaaedce6af48a03bbfd25e8cd0364141nat) == 0xfc35f64132a87e1ddae8a05af9bcbc9ee012e807a5c5e828160227893ffee71bnat,
{
    let n = 0xfffffffffffffffffffffffffffffffebaaedce6af48a03bbfd25e8cd0364141nat;
    let e0 = 0x157a31482c9e5d85693f8a19b6fc4e0a8nat;
    let x0 = 0xa3d4bb7ce00ea2f7d3d7251468ea6baa291e9584826861f2f2d5befcfbb83c59nat;
    let x1 = 0xe228ee60141bd05ebcaea2b7c125fd996cbf70bb7d51d1ceb2427f15b3b79296nat;
    let e1 = 2 * e0;
    lemma_power_mod_square(7nat, e0, n, x0, 0x68d8978815756804b6986326dd924adc2d0999683b9e12eb0b75968ffb46429bnat, x1);
    let x2 = 0x68ffda0705b7c4cdc92bc2204d13a78748b1c1a8b367fb10b78b99d8bfe5ab01nat;
    let e2 = 2 * e1 + 1;
    lemma_power_mod_square_times(7nat, e1, n, x1, 0x576960ffafc73424e5460a3598956339fe5da3881bbde33974903f14d66948a7bnat, x2);
    let x3 = 0x567b2daad40e450f17525b30b212d1a8143f53c935a18a21804b2297e81d3fd6nat;
    let e3 = 2 * e2;
    lemma_power_mod_square(7nat, e2, n, x2, 0x2b10e0d9c852a9ef90c64261815a39eb2e4ff718a1f10d286f1d5fe829f5d06bnat, x3);
    let x4 = 0xc3b9b920ae16ec439db675b0dd7a28999c3d1e814766c9de367b58586ebb5878nat;
    let e4 = 2 * e3 + 1;
    lemma_power_mod_square_times(7nat, e3, n, x3, 0xcc80f1a9d5700896e164d6c441789818f4f5b7464128b376493b78e80a5162c4nat, x4);
    let x5 = 0x2d407f46223bf8793e379672f597eddfc8a3af7d6e6994535b7826f341cc4282nat;
    let e5 = 2 * e4 + 1;
    lemma_power_mod_square_times(7nat, e4, n, x4, 0x4177f3f6222437df33319198c67a9e50a87d0161dbdac2a700638616fd70319benat, x5);
    let x6 = 0xe1c8bcb21294ef235052cf3e627b0988f0fafc1d4fe07d14db5c51c98a02e44bnat;
    let e6 = 2 * e5 + 1;
    lemma_power_mod_square_times(7nat, e5, n, x5, 0x37fe2af5c8a607a3b8cfb5667985ddd11f97bf43bd0ef33dc43d141601ce2c91nat, x6);
    let x7 = 0xeaaaeacd0863d1b325c902f3c70b21a6852dd8bf931f7de4e547a21851f2ba43nat;
    let e7 = 2 * e6 + 1;
    lemma_power_mod_square_times(7nat, e6, n, x6, 0x571f14faac9ea05983e75634e07862d0c6b9d308fc2c3a06246c17745587f588cnat, x7);
    let x8 = 0x30749e54be31a52d3dc55e39c217d28f7eeeb88270bc27cab5755c4f9874b4c5nat;
    let e8 = 2 * e7;
    lemma_power_mod_square(7nat, e7, n, x7, 0xd71ce75b8301177aee8166629faae152e7d169f4dd9db4f93ecde323d4af03c4nat, x8);
    let x9 = 0x243f3eae71177cf74efc583c7cb68101a8ba1b1fa25dccaf5548fa0b9481519cnat;
    let e9 = 2 * e8;
    lemma_power_mod_square(7nat, e8, n, x8, 0x92bf07fa60bb1c14deff6f3048bed1474d0721b645feda47b0131ecb144e1bdnat, x9);
    let x10 = 0x5a7e6296c2f3aedd5951f88fd0aefe99c3127a88af24b71326664446835f254anat;
    let e10 = 2 * e9 + 1;
    lemma_power_mod_square_times(7nat, e9, n, x9, 0x23ecf0c6cf169878947ecd906e820be003f00e2562fff020b06a40889ee02ca6nat, x10);
    let x11 = 0x570d0a791bd4bb4914ecb4109b683597bf5aff10fce527039256a3b14ffee7f9nat;
    let e11 = 2 * e10;
    lemma_power_mod_square(7nat, e10, n, x10, 0x1ffd1bb7337304df609a303a25b34ebc0b0fb8b3664a298903a4217870143babnat, x11);
    let x12 = 0xbc381cf966a7bd507e9bec5fbd63ce75b41d082e190cb607bbe13f0ffe481fddnat;
    let e12 = 2 * e11;
    lemma_power_mod_square(7nat, e11, n, x11, 0x1d99ddc861a51a5ea266536dfd9c904e43d7b0b7b596475bdf0cf99b49310754nat, x12);
    let x13 = 0xd9e6948baaea8aa16fe0b02c506a22133df515c6799c5e321421f9bdf14fa156nat;
    let e13 = 2 * e12 + 1;
    lemma_power_mod_square_times(7nat, e12, n, x12, 0x3c8b13ffcfa2b7e163664b117d8ef3a6310e8dbd6224c4d4b22128d83b9aedce9nat, x13);
    let x14 = 0x61222c71acfb57f671d8352a6636c438fb44c19e228a0b5b6fc1cb37aedaba84nat;
    let e14 = 2 * e13;
    lemma_power_mod_square(7nat, e13, n, x13, 0xb978b78408ea864906d97e131c705cbde33711236cccf41f2430c0b9d0d29660nat, x14);
    let x15 = 0x4a50877022cb2355def9d1b6920639bc579aa514f51a88627deb7004e3bd5586nat;
    let e15 = 2 * e14 + 1;
    lemma_power_mod_square_times(7nat, e14, n, x14, 0x101fc67b1dcfdd988d53a21baea5590f40ec0187d25d874af052a6a83b219b26anat, x15);
    let x16 = 0xd0c95c1eebe9ea95f1c047dd181c9491d3e4de226c21cd25e3ffa73b05a05c81nat;
    let e16 = 2 * e15;
    lemma_power_mod_square(7nat, e15, n, x15, 0x1592a7a1c1daa5347051dc4312977eb4a3e5fe582aa715ca90900c23d5f6c9e3nat, x16);
    let x17 = 0x5e5f27705e59d3b5ae3450abbeec3a85f5ab79f7e71dc89fe5968980d1db0fc1nat;
    let e17 = 2 * e16 + 1;
    lemma_power_mod_square_times(7nat, e16, n, x16, 0x4a7f6cc8c3f75aec01bfce04df3d73047ffeeabd04f3de1ad02f524b8808087c6nat, x17);
    let x18 = 0x3a6bff0bee227c17ca36db4bb54c0f7c93af6d02761c29652f6249169e9e9913nat;
    let e18 = 2 * e17 + 1;
    lemma_power_mod_square_times(7nat, e17, n, x17, 0xf3861e51b557f57e488cd1c8bd967150e7ee77d2c824c1012e7a1e1260c4a274nat, x18);
    let x19 = 0xa739c62a3eb20d2b2e641889476c3e80f63e6ed54ec4f16422a199cbe68e285fnat;
    let e19 = 2 * e18;
    lemma_power_mod_square(7nat, e18, n, x18, 0xd551d2099f976058b36177fb77e74b6b0a0aec3b55fa5960e22145fb1d3e28anat, x19);
    let x20 = 0x919b9b4ca3e4544e9acaedd7fbe62809117db1e0598f379f768792743195d1cenat;
    let e20 = 2 * e19;
    lemma_power_mod_square(7nat, e19, n, x19, 0x6d3c6d94f601986c41e718bb524fd85ae7bd81f8c30ce8d9182656de661321b3nat, x20);
    let x21 = 0xe553d8b6d3c99d6f8357af07d20f2a0e0348225760c9910303d56c8d55fcdfdanat;
    let e21 = 2 * e20;
    lemma_power_mod_square(7nat, e20, n, x20, 0x52d1a4823ead0367591f204ab44c57660003f4b2dbdac9203ee9442d3cb5dd6anat, x21);
    let x22 = 0x679cf6ce8069260ce7d8495ff919673eaa9dc1d14c6100dc6cdfab1163701f72nat;
    let e22 = 2 * e21;
    lemma_power_mod_square(7nat, e21, n, x21, 0xcd6f1d2d54e9105ba2d80a80a15c2a901534e2c69c34087cb43234f3e1eb47b2nat, x22);
    let x23 = 0x3c8fa4e595afec5b4d48e8922305563fe1e793b87bd587bacd4aca84be77fb9enat;
    let e23 = 2 * e22;
    lemma_power_mod_square(7nat, e22, n, x22, 0x29efaed7e4f2a221c10df63a989adf831c1f36ba1703642fc09c2e816bc2c3a6nat, x23);
    let x24 = 0x751fda9430279586f8ed7fceb941f37d2d82eb380d94d6bf4bb2a46409583bf5nat;
    let e24 = 2 * e23 + 1;
    lemma_power_mod_square_times(7nat, e23, n, x23, 0x64498944c6169117c5424a0cffc39f36d85f71eb5e9e034cb433cb41763a19e7nat, x24);
    let x25 = 0x502f163dc4dd82fcf5de1be79a5823bfdf787bdeaa45fcbaf96b415deeff3f41nat;
    let e25 = 2 * e24;
    lemma_power_mod_square(7nat, e24, n, x24, 0x359621c21e88900eb7b7028dbd7e4e4ca6e0a11901851428c5458f96bfe59338nat, x25);
    let x26 = 0x6bc3df87232a787770287ba2968e7dcc1eabffd8222e4b368eda87c5ed5e02dcnat;
    let e26 = 2 * e25 + 1;
    lemma_power_mod_square_times(7nat, e25, n, x25, 0xafce3dee7593d79bc222905bc6e18e6cc11999db412b6c33f0aeb109fc927cebnat, x26);
    let x27 = 0x60951adbe9ddab5f0f983091032845d45db9d6c9da0e8a703d7fdda3d0b07c2nat;
    let e27 = 2 * e26;
    lemma_power_mod_square(7nat, e26, n, x26, 0x2d5d52b94271ca0177367c617e3031f9fae5d56cd5b27a85b31125f9c308e3cenat, x27);
    let x28 = 0xb0aab5c905a175541be0e37a88c6e91e07b6ca0a42cfc1e92fca29ba31731dcdnat;
    let e28 = 2 * e27;
    lemma_power_mod_square(7nat, e27, n, x27, 0x24702afd3635e4fbc612114942a8854e09ccc3858298958d21b55e3711bc77nat, x28);
    let x29 = 0xc00aae66b292e12a28feed4713b2d2a3e71466c3cd7d2e39d2dbe56b073682c0nat;
    let e29 = 2 * e28;
    lemma_power_mod_square(7nat, e28, n, x28, 0x79eb2bca57cf5b93a19d216076477b6a576e9da1ab3c193ad3e0b57eced72029nat, x29);
    let x30 = 0xe2a977bfb862d968398d3c19553d32cd2bf326846d74bab6e1fdfdc99c81f16dnat;
    let e30 = 2 * e29;
    lemma_power_mod_square(7nat, e29, n, x29, 0x9010060c22b2092b487aea8c97efe118e319e9d2458c28a8c68072604e2256d3nat, x30);
    let x31 = 0x9980787886061cb56296957e80da2b10cc9d08fd94dd1d665fbdcb1c09726ca2nat;
    let e31 = 2 * e30;
    lemma_power_mod_square(7nat, e30, n, x30, 0xc8afa79dd4b3c75f9fa6e84e41bac6131791b498f323a6e6d49d203d74ca7307nat, x31);
    let x32 = 0xfc35f64132a87e1ddae8a05af9bcbc9ee012e807a5c5e828160227893ffee71bnat;
    let e32 = 2 * e31 + 1;
    lemma_power_mod_square_times(7nat, e31, n, x31, 0x2844bb34d49e9cbb834459da8d96fc2cf1db7604e5c526546eb4b15ac66c3e541nat, x32);
}

proof fn lemma_power_order_over_107361793816595537_part_5()
    requires
        power_mod(7nat, 0x157a31482c9e5d85693f8a19b6fc4e0a85e4ac141nat, 0xfffffffffffffffffffffffffffffffebaaedce6af48a03bbfd25e8cd0364141nat) == 0xfc35f64132a87e1ddae8a05af9bcbc9ee012e807a5c5e828160227893ffee71bnat,
    ensures
        power_mod(7nat, 0x157a31482c9e5d85693f8a19b6fc4e0a85e4ac141ee015c3anat, 0xfffffffffffffffffffffffffffffffebaaedce6af48a03bbfd25e8cd0364141nat) == 0x6477388b7a6bdb0923c2fac1467a398e019fed16500a22a7c1d3622f04c70b1cnat,
{
    let n = 0xfffffffffffffffffffffffffffffffebaaedce6af48a03bbfd25e8cd0364141nat;
    let e0 = 0x157a31482c9e5d85693f8a19b6fc4e0a85e4ac141nat;
    let x0 = 0xfc35f64132a87e1ddae8a05af9bcbc9ee012e807a5c5e828160227893ffee71bnat;
    let x1 = 0xf73199dc4e3e03f43e9d78e90fe991b2ceb01e12f82ab059bf3ad59b050b0ae2nat;
    let e1 = 2 * e0 + 1;
    lemma_power_mod_square_times(7nat, e0, n, x0, 0x6cb57f951bd4470271524146a455bec27f02eaee246cd12b2a32d52f28ac55ecdnat, x1);
    let x2 = 0xad2fe16413bd5da8bf365d124df5d7f38d2cca965d69bcb9b51b4eeafac3503bnat;
    let e2 = 2 * e1 + 1;
    lemma_power_mod_square_times(7nat, e1, n, x1, 0x686d54397ac8ae160b4e50db85d67e453abeca835c5c24cac05240cd61d379321nat, x2);
    let x3 = 0x81a15e766fe189266502ef36dbdce57d609bbd281b5178a8c5ec12aff03912bfnat;
    let e3 = 2 * e2 + 1;
    lemma_power_mod_square_times(7nat, e2, n, x2, 0x334243d189313cd955179f9c459d7a21ee44cf95cca39180aa1f3bb9ddda2e070nat, x3);
    let x4 = 0xe0df67958e1d8a20af42d83c046e2e47db620f4b79b0e644598367a2a0755322nat;
    let e4 = 2 * e3;
    lemma_power_mod_square(7nat, e3, n, x3, 0x41a406eb509536dc299ffffb1d8633a398813b70581fc42bcaa31c8ade51909fnat, x4);
    let x5 = 0x7a2b5df2a6fa2abd23df368383266f525c659fc78bd293fd4d7da5b025830e98nat;
    let e5 = 2 * e4 + 1;
    lemma_power_mod_square_times(7nat, e4, n, x4, 0x566b6099f702cce68768d541ccd6f9bbfb5b91819b181cb3adfc632979c716004nat, x5);
    let x6 = 0x16033900007c39bed27a73f6943ea25c5b3e6468937c11fb687bc06f8450505enat;
    let e6 = 2 * e5 + 1;
    lemma_power_mod_square_times(7nat, e5, n, x5, 0x1981d8a3bd00124ab92a8e9752b1c33d443b9600b2b08822741591c735c25ece2nat, x6);
    let x7 = 0x29809cc307d2b4bc15e7ade71d4039569fe19727b2ce1ac5168676cc67aa597cnat;
    let e7 = 2 * e6 + 1;
    lemma_power_mod_square_times(7nat, e6, n, x6, 0xd3fe0dcb36c8b5e4a8c55ad577b55e0e130f7b1b2ebe87de4ccb865804db020nat, x7);
    let x8 = 0x4ea9124b959bbf32c37c6e9ff62eef6ce816b7716afec674ab0553747ebb4367nat;
    let e8 = 2 * e7;
    lemma_power_mod_square(7nat, e7, n, x7, 0x6ba72d39b8796b6b29be1ecf6c010ede195a7ced0243bdaea58a9e55dc32d69nat, x8);
    let x9 = 0x24d5aa452237cb44aaa18293c3b96be010ccc59297a2b7e28741d1a25e11c61bnat;
    let e9 = 2 * e8;
    lemma_power_mod_square(7nat, e8, n, x8, 0x182b76cf3845278047b9c441c1834f703c562b84729fc1a8edc240e8b62b81d6nat, x9);
    let x10 = 0x5adf91cf91de205c666f077690a3a58c753afca267213cd07ade58b717fa4e1fnat;
    let e10 = 2 * e9;
    lemma_power_mod_square(7nat, e9, n, x9, 0x54cca3839ea862120df01468ba6ad9aeba56cb8133eb595ed869bc41942b03anat, x10);
    let x11 = 0x3d69f5d52c0629afe4236f302807deecb768bc8f420649ed5c1e6b7d10bd05acnat;
    let e11 = 2 * e10;
    lemma_power_mod_square(7nat, e10, n, x10, 0x2041f5c54d3d1b4831fee98a9ca819136c726b7e3e700f5bf121feb0feb4d7d5nat, x11);
    let x12 = 0xfcbbc3d45108ad258358f1574811ec50208e993e9e7eb57523e65e41b943ec24nat;
    let e12 = 2 * e11;
    lemma_power_mod_square(7nat, e11, n, x11, 0xebbab032beac4b21aa02fe60fd279423f7c7ede515e60b06d562602248ab86cnat, x12);
    let x13 = 0x27c376aafdc0ae01dc0fe27bdbc5e01110f29724d667e2ddd0679002bb25fb37nat;
    let e13 = 2 * e12;
    lemma_power_mod_square(7nat, e12, n, x12, 0xf9823341ad849b185731692c7af37b16a844dd03111615a0b074cd268af2ea99nat, x13);
    let x14 = 0xb3d58891b03ec6c0b579e6e1c7d8ce5eff294cf90e9e358c7ca60cc316438dcdnat;
    let e14 = 2 * e13;
    lemma_power_mod_square(7nat, e13, n, x13, 0x62d236618d15cb147b95180d592197879ba88a6f7d536f52ebf5e1c84569304nat, x14);
    let x15 = 0xcb5b9a1212bcb57cf09a36473f6f3a46c3490e18159cb14c55c1cb4cb4c601fnat;
    let e15 = 2 * e14;
    lemma_power_mod_square(7nat, e14, n, x14, 0x7e544f1847c230940e16bd86e3c55dc7331c3c9d3dad5d66a23534b341baa98anat, x15);
    let x16 = 0x66ffbce2f339fd06b37401876c87d34ae16924877e4e9374503712a4e4879db5nat;
    let e16 = 2 * e15 + 1;
    lemma_power_mod_square_times(7nat, e15, n, x15, 0x46ac8d1dceb0874a7faa9cfb91bbed43ace471a02ac90b40a31dea52db32612nat, x16);
    let x17 = 0xb3acbdab1ee2044630852d453517832e4ebf37b81d65a4301ad3e23dd6d41957nat;
    let e17 = 2 * e16;
    lemma_power_mod_square(7nat, e16, n, x16, 0x2970c9feb150e196ef75ad37911870e9e63693d8810c8a69a0e10d5267773e22nat, x17);
    let x18 = 0xb48787ddd127b4c189fd85f7780f045edc09d49bfe0980b762ed3c5bd44b28b1nat;
    let e18 = 2 * e17 + 1;
    lemma_power_mod_square_times(7nat, e17, n, x17, 0x372bd28990595cdb34b0dc78f87a048d94e8288a4568fcc866ed9ccd5af8d20c6nat, x18);
    let x19 = 0x907b95ba65557b32e97005a180363a856ed47e7cf8d12a57b736d4a2e5be5b83nat;
    let e19 = 2 * e18;
    lemma_power_mod_square(7nat, e18, n, x18, 0x7f4eded0822e20db78401ec584c2c83c8643659ec23c48545e787f7d5cfc395enat, x19);
    let x20 = 0x371f3c41f7d8ff195c0a6c49e299d8cafe0ac472aacc0085479ebf64512086c9nat;
    let e20 = 2 * e19 + 1;
    lemma_power_mod_square_times(7nat, e19, n, x19, 0x23acedcbc6ad056ea06f25a2b826e56112949f7fa5be39d99339664fd427b88f6nat, x20);
    let x21 = 0xed5a0a012d84f39d27437f321ba3fa9bdad4aaa80a90f66b4b49a71ae5070d5fnat;
    let e21 = 2 * e20 + 1;
    lemma_power_mod_square_times(7nat, e20, n, x20, 0x53150debf699c96959ea92ea0d71020d17b78a8eacfe208b9ccf539bcbe88958nat, x21);
    let x22 = 0xbdbad68af81c9146e0c5a49e9e5945ee2365acdc45a843dbe98b02140ec626f8nat;
    let e22 = 2 * e21 + 1;
    lemma_power_mod_square_times(7nat, e21, n, x21, 0x6046edb588481dcc44f8969b437fd527314a1d1612f89adc8462330457594c70fnat, x22);
    let x23 = 0xdbaf4e843236bd7356085ea11e3d12280d4b4785c16a1e4fc6d172168b73a1a4nat;
    let e23 = 2 * e22;
    lemma_power_mod_square(7nat, e22, n, x22, 0x8c9d6925a8175a45f508f1239e0e0f2ad5954a4bdbc1c4b69619890f2d856b9cnat, x23);
    let x24 = 0x442ae5dc37af63d86f45e32b78d8b3150306254a2351c182e7cf65a69aec5633nat;
    let e24 = 2 * e23;
    lemma_power_mod_square(7nat, e23, n, x23, 0xbc8568629ebb21d786a1066c62c6aaa24f0e6063469890b165c517d20d69d69dnat, x24);
    let x25 = 0x2370a7051e42eb8aa22aa12e0e259362cf632800d404e2f8d1416d219e713d8enat;
    let e25 = 2 * e24;
    lemma_power_mod_square(7nat, e24, n, x24, 0x1226d14d383b2ba748534bc093aa455eafc5a9f5845934966b2a45c9bf85bedbnat, x25);
    let x26 = 0xd58e1c9f597a2fa746f7b26473e0f26813fd1157cbb7485a44ebd28be601137nat;
    let e26 = 2 * e25;
    lemma_power_mod_square(7nat, e25, n, x25, 0x4e7ff3df7b8748b832561105e5475fefcd3bde34c1d1a659825f1ca302c094dnat, x26);
    let x27 = 0x39fa90957ace9f4179271129ff405792f34f0bd5bf732a64afddfa79248ba0f5nat;
    let e27 = 2 * e26 + 1;
    lemma_power_mod_square_times(7nat, e26, n, x26, 0x4df0889a2881ed745900230e02a6829d87d8b7cb80ab6c1c75c0a6e4320c142nat, x27);
    let x28 = 0xfef35919d0ac9ea2bf577c2ba04b498c9dd8c48985c7c805997111cc8ad25058nat;
    let e28 = 2 * e27 + 1;
    lemma_power_mod_square_times(7nat, e27, n, x27, 0x5beac368ec169f6bdcf8911e16c33248e9dc9a42c1a71d20e8ae837ed944d437nat, x28);
    let x29 = 0x23cd2922ee78e68914d7c05a87d24fa469a3bcb8f058b293ebc9cb3f3dbfb2a2nat;
    let e29 = 2 * e28 + 1;
    lemma_power_mod_square_times(7nat, e28, n, x28, 0x6f15694ea80c19961e769b6759dc610e84b86aeed6ed27004c73db13186041b9enat, x29);
    let x30 = 0xc0531e17dba927e516de277443e29ed9a693552341bf2d37a85f628154ee3ed0nat;
    let e30 = 2 * e29;
    lemma_power_mod_square(7nat, e29, n, x29, 0x501bdaa75c331d1a3588af949ec6eefa19bed75ec8da6c9ec0ae662a0bc0eb4nat, x30);
    let x31 = 0x1a70b9923ad3dcb789ce3b2d54fd3439c97f966e2e51847361b223577fc0a7fanat;
    let e31 = 2 * e30 + 1;
    lemma_power_mod_square_times(7nat, e30, n, x30, 0x3f36978e2337e64a67d8a6884b15f39beec0f99fb1b3e7e5e6f897ecbaed84f86nat, x31);
    let x32 = 0x6477388b7a6bdb0923c2fac1467a398e019fed16500a22a7c1d3622f04c70b1cnat;
    let e32 = 2 * e31;
    lemma_power_mod_square(7nat, e31, n, x31, 0x2bb17549a6b2ec3c4c42e56fcfb65eb353b6ef1abd2c9968eb0454f4c614b08nat, x32);
}

proof fn lemma_power_order_over_107361793816595537_part_6()
    requires
        power_mod(7nat, 0x157a31482c9e5d85693f8a19b6fc4e0a85e4ac141ee015c3anat, 0xfffffffffffffffffffffffffffffffebaaedce6af48a03bbfd25e8cd0364141nat) == 0x6477388b7a6bdb0923c2fac1467a398e019fed16500a22a7c1d3622f04c70b1cnat,
    ensures
        power_mod(7nat, 0xabd18a4164f2ec2b49fc50cdb7e270542f2560a0f700ae1d40nat, 0xfffffffffffffffffffffffffffffffebaaedce6af48a03bbfd25e8cd0364141nat) == 0x3b0d025f83c7581474c22b4b4a8882b97e7a80221547db631f7b0afc7476b376nat,
{
    let n = 0xfffffffffffffffffffffffffffffffebaaedce6af48a03bbfd25e8cd0364141nat;
    let e0 = 0x157a31482c9e5d85693f8a19b6fc4e0a85e4ac141ee015c3anat;
    let x0 = 0x6477388b7a6bdb0923c2fac1467a398e019fed16500a22a7c1d3622f04c70b1cnat;
    let x1 = 0x81702892407db8e270cd6e676f2117e356a3173328df62f1e1dca7759c51dd77nat;
    let e1 = 2 * e0 + 1;
    lemma_power_mod_square_times(7nat, e0, n, x0, 0x113fd81e2189dc29eed84deaa9d3fb7bb506a349fea0723931dc2a782e1eee8b9nat, x1);
    let x2 = 0x4f935eac0489a4639ae4cf4dc85346c2f1c3ad5bf8b6b8ac0e9c9e23e01aa299nat;
    let e2 = 2 * e1;
    lemma_power_mod_square(7nat, e1, n, x1, 0x41723a06eb652a0ae53e7cbd00620201a4504e572b978fd1d002e4695f1e24b8nat, x2);
    let x3 = 0x3b32ee9314341b4315e5e81fbd236688462c6f0caf8a17f77d0962abcc82f30bnat;
    let e3 = 2 * e2;
    lemma_power_mod_square(7nat, e2, n, x2, 0x18bc4944075cf07371bfbd74b9add988b034a34a202b8393b534b4fcc8516ce6nat, x3);
    let x4 = 0x23be85a24c976734e0ef0c75184e5c25a40637a7e350bc5961f1f4636328061anat;
    let e4 = 2 * e3;
    lemma_power_mod_square(7nat, e3, n, x3, 0xdb08419db19b6fcaa6cc16d80cbd51631e68d6d461a4fe66694e1e08b75159fnat, x4);
    let x5 = 0xa21697cd479c75e26c0b8f2b3bc2238fdd8cda34a0a46b57791d35c1d469329dnat;
    let e5 = 2 * e4;
    lemma_power_mod_square(7nat, e4, n, x4, 0x4fda655039d216fffc50fb5e37dd24a035432ec773154381bb7dbd880952f47nat, x5);
    let x6 = 0x1ff61ac8b7caa8b661bcf1692025502456930eacbb242d50bb355a892a8e82a1nat;
    let e6 = 2 * e5;
    lemma_power_mod_square(7nat, e5, n, x5, 0x66a09a1e3fee232d2b5744497aa31ca36922014c92ea65f115b9c29ee45b9fa8nat, x6);
    let x7 = 0x3b0d025f83c7581474c22b4b4a8882b97e7a80221547db631f7b0afc7476b376nat;
    let e7 = 2 * e6;
    lemma_power_mod_square(7nat, e6, n, x6, 0x3fd87141911b10d450fa00df2d3a1710722c451b97ef6b0387cdd877c76680bnat, x7);
}

proof fn lemma_power_order_over_107361793816595537()
    ensures
        power_mod(7nat, 0xabd18a4164f2ec2b49fc50cdb7e270542f2560a0f700ae1d40nat, 0xfffffffffffffffffffffffffffffffebaaedce6af48a03bbfd25e8cd0364141nat) == 0x3b0d025f83c7581474c22b4b4a8882b97e7a80221547db631f7b0afc7476b376nat,
{
    lemma_power_mod_first(7nat, 0xfffffffffffffffffffffffffffffffebaaedce6af48a03bbfd25e8cd0364141nat);
    lemma_power_order_over_107361793816595537_part_0();
    lemma_power_order_over_107361793816595537_part_1();
    lemma_power_order_over_107361793816595537_part_2();
    lemma_power_order_over_107361793816595537_part_3();
    lemma_power_order_over_107361793816595537_part_4();
    lemma_power_order_over_107361793816595537_part_5();
    lemma_power_order_over_107361793816595537_part_6();
}

proof fn lemma_power_order_over_174723607534414371449_part_0()
    requires
        power_mod(7nat, 1nat, 0xfffffffffffffffffffffffffffffffebaaedce6af48a03bbfd25e8cd0364141nat) == 7nat,
    ensures
        power_mod(7nat, 0x1b07134f4nat, 0xfffffffffffffffffffffffffffffffebaaedce6af48a03bbfd25e8cd0364141nat) == 0xeecb552178d5baed1189c32202ff5baae20b3554b96e35e84a3def6a9c88479enat,
{
    let n = 0xfffffffffffffffffffffffffffffffebaaedce6af48a03bbfd25e8cd0364141nat;
    let e0 = 1nat;
    let x0 = 7nat;
    let x1 = 343nat;
    let e1 = 2 * e0 + 1;
    lemma_power_mod_square_times(7nat, e0, n, x0, 0nat, x1);
    let x2 = 117649nat;
    let e2 = 2 * e1;
    lemma_power_mod_square(7nat, e1, n, x1, 0nat, x2);
    let x3 = 0x168f08f8e7nat;
    let e3 = 2 * e2 + 1;
    lemma_power_mod_square_times(7nat, e2, n, x2, 0nat, x3);
    let x4 = 0xdea4638a29e0112a317nat;
    let e4 = 2 * e3 + 1;
    lemma_power_mod_square_times(7nat, e3, n, x3, 0nat, x4);
    let x5 = 0xc1a18633505a6bcfa58044d77b930585224c11nat;
    let e5 = 2 * e4;
    lemma_power_mod_square(7nat, e4, n, x4, 0nat, x5);
    let x6 = 0x2ab278d68c737b61e676ee5d2083f2aad9a1e461e54e5453f1013916b34ad6d4nat;
    let e6 = 2 * e5;
    lemma_power_mod_square(7nat, e5, n, x5, 0x9274f243720dnat, x6);
    let x7 = 0x666338470b69d32bc1332e96c7aff34aebbb784918ac8d3a9cb66366d540a5ddnat;
    let e7 = 2 * e6;
    lemma_power_mod_square(7nat, e6, n, x6, 0x71f0c12a97b0c8f15901661fff8b1c26009e5361313969b7f372be803bb49f3nat, x7);
    let x8 = 0x555873067b330300ed418f2bd0474ddfad46c84b658f3a9958806a2b5a6ca672nat;
    let e8 = 2 * e7;
    lemma_power_mod_square(7nat, e7, n, x7, 0x28f3374d306a50d5d364c166693480e7d68488dcef71fb9da580feef17bd3d97nat, x8);
    let x9 = 0xf42a48b328549bec722cc5cc705609bf4183850b1ff312a4fe00809372df57a7nat;
    let e9 = 2 * e8;
    lemma_power_mod_square(7nat, e8, n, x8, 0x1c73daf195f365ea8491ae66a2872b2d9525d359e4fc92da2b8e0733e31cdeddnat, x9);
    let x10 = 0xcae5ba789ce67510a98a3791d4e3780edf489398e28c70805d96b071abb425bcnat;
    let e10 = 2 * e9 + 1;
    lemma_power_mod_square_times(7nat, e9, n, x9, 0x65e246afa2e2e7f685546e1305a62fc2b517631add22abc17fbae6089dfb4411bnat, x10);
    let x11 = 0x4640d9abe0ef0c00e8478f5501e31492b9a8044f067f02dbf16dcca514ef1491nat;
    let e11 = 2 * e10 + 1;
    lemma_power_mod_square_times(7nat, e10, n, x10, 0x465ab6afe5e872d1297d793a9830e46732a3d17b49d70ae00889a69f5f93e731fnat, x11);
    let x12 = 0xe091f3084e062864620830a84b8f7e2e413738aae6f1717b38edcd603d8de545nat;
    let e12 = 2 * e11 + 1;
    lemma_power_mod_square_times(7nat, e11, n, x11, 0x86f4b444e2383dbe2fbe5db37e1e3e784500ac7c83303ce61e8250ba24d78722nat, x12);
    let x13 = 0x7b8b885e1be6b044a5fac4d969f8859af42abae0ec5aa3b4e0f0e0838b348113nat;
    let e13 = 2 * e12;
    lemma_power_mod_square(7nat, e12, n, x12, 0xc4ffbc83beabee0e161e3b9266945b5e20752ce66e740c5e8ce2daee48017c06nat, x13);
    let x14 = 0xbddedae44d06be2b2216f8445586bd1be701f602f7c9a5b6f1157d6765b83a9dnat;
    let e14 = 2 * e13;
    lemma_power_mod_square(7nat, e13, n, x13, 0x3b9f6117cda61a22fdc8134eb4f90f4723a6c66b81d5ef946c3f421658ffadccnat, x14);
    let x15 = 0xd55fc332ee2700221b937477a02a646ad9843e99de76d5cbf4795d08d6584fa9nat;
    let e15 = 2 * e14;
    lemma_power_mod_square(7nat, e14, n, x14, 0x8cd2d13578db2b464a364be2be575c9903f43363daeba734d5890a1c9d936ca0nat, x15);
    let x16 = 0x50a43c47ecc9c7ae282b7ef4101a59b563639f192aaa74d24f8e863c25c9c204nat;
    let e16 = 2 * e15 + 1;
    lemma_power_mod_square_times(7nat, e15, n, x15, 0x4dceb76847291f8c52752c165a00c3b494c6301069cee177ec0b74252b1032d33nat, x16);
    let x17 = 0x2b0d25f832b29b7af296f36156aa87d255e0fda3ff9da90c4ed110a230b71baenat;
    let e17 = 2 * e16;
    lemma_power_mod_square(7nat, e16, n, x16, 0x19670f0a3e574a8878c9b3b623b36c0f5137ca1d179d904be6e421268cd619e2nat, x17);
    let x18 = 0xc61e3a72a472e23392c962df09e83a9fc9bd184b2f162c4ffe830e590633adcdnat;
    let e18 = 2 * e17;
    lemma_power_mod_square(7nat, e17, n, x17, 0x73d6b6e41ded5a8fd0462c5adfc346314c43e4aa699d1bf36971e13c5a917b7nat, x18);
    let x19 = 0x51f927b94a16176bb9fd86d58d575f7268a37c0256f23c22a7d36f71ae57fa8anat;
    let e19 = 2 * e18 + 1;
    lemma_power_mod_square_times(7nat, e18, n, x18, 0x4314369dd9e2acece133709bd6f71b6ee9068ccbac164f753029efae75b91d655nat, x19);
    let x20 = 0x2fc2afa4805eb9b938b8a5299a2d8ca08046168c546a1b085355c9cf5469a6ebnat;
    let e20 = 2 * e19 + 1;
    lemma_power_mod_square_times(7nat, e19, n, x19, 0xb7bd4f6ade728f5a5e59e04aa5ead0861c6662900c34d6f2ef38e800e5df2491nat, x20);
    let x21 = 0x6a11dae93698421fe1faec8be444a2b43098620f91642f6e7ae6d3623a636bfnat;
    let e21 = 2 * e20;
    lemma_power_mod_square(7nat, e20, n, x20, 0x8e9108d14f7a8f9bb35d222db886b84b92f62fa72708a7b523ca1559efb4c7anat, x21);
    let x22 = 0xca435b0cec54f4ec9a2453967f12f4ee6fdb3cf9bb5a9720c08e3ded3346b9aanat;
    let e22 = 2 * e21 + 1;
    lemma_power_mod_square_times(7nat, e21, n, x21, 0x133a389b78ba986ec798d740c18a0a2b2e0f56c965587948350946d0e43739dnat, x22);
    let x23 = 0x4cc0aaa02dc1703519e9237882cf78c988198a8d0f6ab705006b8b01c8944dadnat;
    let e23 = 2 * e22;
    lemma_power_mod_square(7nat, e22, n, x22, 0x9fce5d692e1bf7a8ff5dee7769f1455ed07fb71ef17c10e28e10858929500277nat, x23);
    let x24 = 0x8d4d9ac5e4be32b10655f4084d41986e43ccfdb854ef37669d52e2ac4f9b741fnat;
    let e24 = 2 * e23;
    lemma_power_mod_square(7nat, e23, n, x23, 0x1702f64f7d289dc5fa09a72bd55354fb99ffafeff517dfc53fedd562302bb64anat, x24);
    let x25 = 0x8ba9234ec4281875cd8f2f04ffe99d252c751451392c0e9601c3848d2dcf1936nat;
    let e25 = 2 * e24 + 1;
    lemma_power_mod_square_times(7nat, e24, n, x24, 0x221f60c1f3e26a5113f03db6a088f11cc1b47e78d1a2c20f0f5598bc16ed4a3d1nat, x25);
    let x26 = 0x8ea51815cdd00f998ab5e5a8b363fba551be0ca28edad5b6be6c8b33f4506579nat;
    let e26 = 2 * e25 + 1;
    lemma_power_mod_square_times(7nat, e25, n, x25, 0x21557c4a23328219b234c00d9bdb3ab4983d37dbb12e61316570e9a3c5d08da83nat, x26);
    let x27 = 0x602224cae0d78c36ea3917900b7ec128fb1f05f156d0e3d2a743d18171602d95nat;
    let e27 = 2 * e26 + 1;
    lemma_power_mod_square_times(7nat, e26, n, x26, 0x22c60f851b6df87b21451cfc13deedbc5133e9f7e34b9d4db1601c206f1906642nat, x27);
    let x28 = 0x5d1511b92505a3931d123f5372c8104268aebc04e90cf0f3ae9e0d8252c697dfnat;
    let e28 = 2 * e27 + 1;
    lemma_power_mod_square_times(7nat, e27, n, x27, 0xfcb36109aaa981069349b5aa4dc0cf4e59cb643326b2153d6e7055a76c65f930nat, x28);
    let x29 = 0x1f5b2863c1ecfe8848322bd31088ac78e2b9d51fa5b0b311ab1f02fc7eb100a7nat;
    let e29 = 2 * e28;
    lemma_power_mod_square(7nat, e28, n, x28, 0x21d8509c6e804897007c9ce5c889e111c89d3dbf3bf8721cc9af80668449731anat, x29);
    let x30 = 0xcadf44cbf535ab17982d4fbd213e727e0a7a8c5aa8d7582c71b4bb2572d59defnat;
    let e30 = 2 * e29 + 1;
    lemma_power_mod_square_times(7nat, e29, n, x29, 0x1ae26db14bd225411ad2ea0cee4f4e37a25b125522daf183c723fdb8ed880aa8nat, x30);
    let x31 = 0x83384e9cf307c228a7afc58707b9fe6906c49947817e96429e82ba46c501ee3fnat;
    let e31 = 2 * e30;
    lemma_power_mod_square(7nat, e30, n, x30, 0xa0c51b4acccae244a02445c64193abf3535b809f89debd5077fdfc7cca7b1c62nat, x31);
    let x32 = 0xeecb552178d5baed1189c32202ff5baae20b3554b96e35e84a3def6a9c88479enat;
    let e32 = 2 * e31;
    lemma_power_mod_square(7nat, e31, n, x31, 0x4342acd71d88486c5fe4639f7765423c4441e5364722dd517460a6e787440023nat, x32);
}

proof fn lemma_power_order_over_174723607534414371449_part_1()
    requires
        power_mod(7nat, 0x1b07134f4nat, 0xfffffffffffffffffffffffffffffffebaaedce6af48a03bbfd25e8cd0364141nat) == 0xeecb552178d5baed1189c32202ff5baae20b3554b96e35e84a3def6a9c88479enat,
    ensures
        power_mod(7nat, 0x1b07134f42e597994nat, 0xfffffffffffffffffffffffffffffffebaaedce6af48a03bbfd25e8cd0364141nat) == 0xe2f06cd3db9a6e7edd39bff9e6de06f027abd25a6144b1536b4d247b3ff158nat,
{
    let n = 0xfffffffffffffffffffffffffffffffebaaedce6af48a03bbfd25e8cd0364141nat;
    let e0 = 0x1b07134f4nat;
    let x0 = 0xeecb552178d5baed1189c32202ff5baae20b3554b96e35e84a3def6a9c88479enat;
    let x1 = 0xcbafb1a2b310aedc963f615c1e6180eaaa47a70bd9d61119a438d39dcc5a2c85nat;
    let e1 = 2 * e0;
    lemma_power_mod_square(7nat, e0, n, x0, 0xdebeb3ca5c1249258edaa7c18e0a2364d44fd67b08a363eca02f9f2755584a3fnat, x1);
    let x2 = 0xd606f873fa9736ce42adeb0051eb9fb58b420cfc973d67c5f9f394848188a7dbnat;
    let e2 = 2 * e1;
    lemma_power_mod_square(7nat, e1, n, x1, 0xa2101c4c5fafa92518089b9fce18cac03bf6f679f7cbf274c15628cfda8427benat, x2);
    let x3 = 0x16d1cf279b56fb7251dcfd8a19ae123fe0394e54f7b428bc41fc06b598bd08ebnat;
    let e3 = 2 * e2 + 1;
    lemma_power_mod_square_times(7nat, e2, n, x2, 0x4e48d95016ea64d7467672b5ed4d6c2ca567148db2763fed921483eb548ccc784nat, x3);
    let x4 = 0x55f4c455dab269d4f78fe1cb974ae40c4f0726a7ccb84028344b947a96f05916nat;
    let e4 = 2 * e3;
    lemma_power_mod_square(7nat, e3, n, x3, 0x208bb8eb4ffaa95942195ac622c6a0c0e06cde0607da751cd39ec443a3ad2e3nat, x4);
    let x5 = 0x8e4f8b3d9332c98ffcd566255e693cfae7e28232934bb4f99023ca998c0894a8nat;
    let e5 = 2 * e4 + 1;
    lemma_power_mod_square_times(7nat, e4, n, x4, 0xca072ed70e409e5d3c175924b7c6b7ab52e01cd2a8d27200bf3bf61a7a841394nat, x5);
    let x6 = 0x6ee9f00f68ca734347e6b8232f8f51a1c1f268e60703c13b88c2dd21052520cfnat;
    let e6 = 2 * e5 + 1;
    lemma_power_mod_square_times(7nat, e5, n, x5, 0x229c6624ccd3fcf49638ffc581c20c35211cf62bff6274aa0a44811a4e68445b1nat, x6);
    let x7 = 0xbc99d234ba30a3bc51467381accbd310accbed62f1e0b60dfa56d35aea357ba0nat;
    let e7 = 2 * e6 + 1;
    lemma_power_mod_square_times(7nat, e6, n, x6, 0x15061208cbe8566e8baff86bc85f82655424685555d2bff16ebc48c0cb4a87f47nat, x7);
    let x8 = 0x95f0d07b734213d7559d6610928508e1ee0645e01431e2097c8f682c7eb78a42nat;
    let e8 = 2 * e7;
    lemma_power_mod_square(7nat, e7, n, x7, 0x8af2492a61188af44646d0e0965dca1b01783768d2db9a91f2ef94752618cc3enat, x8);
    let x9 = 0x38c5fe009e036807a3e304718d30e50c23624ab7f3aa4cca151c1518728da77cnat;
    let e9 = 2 * e8;
    lemma_power_mod_square(7nat, e8, n, x8, 0x57d23537456bddd1330b2adc6839d27edce9d6d1fac88de7f021a1a356362788nat, x9);
    let x10 = 0x18797a9f1176db0d849e31db2ce8b3207bbce072c790dd43cb8cd10b764610abnat;
    let e10 = 2 * e9 + 1;
    lemma_power_mod_square_times(7nat, e9, n, x9, 0x582289c842b55a3423fa6d0e46b812cc11f3efa6e6df9ba67bf35954ec58e585nat, x10);
    let x11 = 0xa31b4ee9b4a6c211bff79dfd9217b5ca12f4944e8672730748f4e9b071b755nat;
    let e11 = 2 * e10;
    lemma_power_mod_square(7nat, e10, n, x10, 0x25700a2f860cae99743045c352650b17ac0ef2764bbaa53fd958cecd069bde4nat, x11);
    let x12 = 0x2722bcddcbe3736284e1e862b6b03c339d39160c66df75221d0f70bab438215nat;
    let e12 = 2 * e11 + 1;
    lemma_power_mod_square_times(7nat, e11, n, x11, 0x2d77281d373b1f83c7c77cdbe7c76621cd36a37e8220c08b8684d9cd034fanat, x12);
    let x13 = 0xe40f10b1db7d4e87d6f7e04a706a51030ae26a3e9751b000dab36aed727d6926nat;
    let e13 = 2 * e12 + 1;
    lemma_power_mod_square_times(7nat, e12, n, x12, 0x29e137d0089fd060c48bea1fc8fa3ac7a2096864d50c1ad360401912b31ba9nat, x13);
    let x14 = 0x6c7fd14fcaa972710f98319fec5ceeab8c41fa481b7e5822221ca2f949e5c162nat;
    let e14 = 2 * e13;
    lemma_power_mod_square(7nat, e13, n, x13, 0xcb2ad69fc4e5a392141becf9524f18a488b7b6abae88ddc760812431ee1cbdc2nat, x14);
    let x15 = 0xb9a97be95db5e6d4f7c99abb2bebb488f49bc876b996e1c39402773252314a8nat;
    let e15 = 2 * e14;
    lemma_power_mod_square(7nat, e14, n, x14, 0x2dfc186cab4d6e765336f8e1061c574d9db604f2251d87169a06e2534fc481dcnat, x15);
    let x16 = 0xa0850d4503d6e52375741953971fd966d801bfd9771eb9183eee233a662904f0nat;
    let e16 = 2 * e15 + 1;
    lemma_power_mod_square_times(7nat, e15, n, x15, 0x3ae8cc514dcbcfe059ddb49e5df2adec6a4982f9314a4b79178869ca7343ad0nat, x16);
    let x17 = 0x178cd6ae3240aaf1a7b8ff729f462d7fd7e9bb1c69cf5eb1a669d61df3a6e3c6nat;
    let e17 = 2 * e16;
    lemma_power_mod_square(7nat, e16, n, x16, 0x64a695bd0f32b0b54ed50718a20c86fefc42dcfc77ee9672320f38676c8d14banat, x17);
    let x18 = 0x3a9b262e6158845c10dc14e2e4e29a12405fbe7d13dbaf4e41d57176712f5benat;
    let e18 = 2 * e17 + 1;
    lemma_power_mod_square_times(7nat, e17, n, x17, 0xf2a4467ad1bf7f8041ed9d92f43a7500ce591c27362a030cad499e8f203c8benat, x18);
    let x19 = 0x51d6717b3147a63e7e601d92c9210893deae1268cdd5bd783c674d5d710a4b26nat;
    let e19 = 2 * e18 + 1;
    lemma_power_mod_square_times(7nat, e18, n, x18, 0x5deaaf4de9c68943d2baaacbb9dd1358bc63dc81987fff622cf4563b043076nat, x19);
    let x20 = 0x5105efb336f5834cd63308441f091edb9f54a048319ae624a49ae19b2e933871nat;
    let e20 = 2 * e19 + 1;
    lemma_power_mod_square_times(7nat, e19, n, x19, 0xb721d41d2a2a0671eadebd0943122d5c44d62bc855f88984c11c792630726d4bnat, x20);
    let x21 = 0xff818f423fe596ca5e04277f80f9db3f9d06ab28952f4e50a29f7f8a644550ednat;
    let e21 = 2 * e20 + 1;
    lemma_power_mod_square_times(7nat, e20, n, x20, 0xb3814cc28b85654e83e9ae50cd26e7cfe4cfbd41c064d4d4509929fa8ee4f3banat, x21);
    let x22 = 0x369b7640ba895a1dff05ed1f5a48d41a8f39fdd59edca34476de42ae4cf9b2acnat;
    let e22 = 2 * e21;
    lemma_power_mod_square(7nat, e21, n, x21, 0xff035cf7ac3adc50a009aa5fa8da937363bc46561358706498acd55698586c7dnat, x22);
    let x23 = 0xb8109c9df9a07c7c5fb441d211c7e82898d3b2097b94ec7750adf559f7ca70fnat;
    let e23 = 2 * e22;
    lemma_power_mod_square(7nat, e22, n, x22, 0xba5f44bb7b390ac3395e7f482063051ae34da26b110c7b07805361885f2ab41nat, x23);
    let x24 = 0x1c740ed9c3ed3cd630d41e2ef56414ae27d863eefd8fadd52c03a0d44a9c2780nat;
    let e24 = 2 * e23 + 1;
    lemma_power_mod_square_times(7nat, e23, n, x23, 0x39e672f8148cfb51685ae97cb792b79e130f9c2246e47ae054229e6ddfd3be7nat, x24);
    let x25 = 0xeb16aef82dfa5452ad9021e025d5d7e44c26f0201e342508a1426aaa9da2447enat;
    let e25 = 2 * e24 + 1;
    lemma_power_mod_square_times(7nat, e24, n, x24, 0x1623270baf7df8d3bf1d70c94806b582639f37af64cba522c4cbcd4853b3b902nat, x25);
    let x26 = 0xf88fd0607e1f66559088a3cee6e1bf9150fa1ad8dcb472df92b1a0086ca4c3b6nat;
    let e26 = 2 * e25;
    lemma_power_mod_square(7nat, e25, n, x25, 0xd7e2a73e2ea7ccefb0c22d856b9176dc84845ef27bee9d14446c2080a89be8cenat, x26);
    let x27 = 0xf7675f4ce7e7983c42383b9fea57f58528f0ffd6aaa9d4593fb8157e89bd372anat;
    let e27 = 2 * e26;
    lemma_power_mod_square(7nat, e26, n, x26, 0xf156f48569c6aeabf79aeda87d0e33d84aca89e0af79d20c0c862c752487e5banat, x27);
    let x28 = 0x2c5759692cee7c00da6ad7c2078c917611f83f66aa9a557301a9b11e051e2df9nat;
    let e28 = 2 * e27 + 1;
    lemma_power_mod_square_times(7nat, e27, n, x27, 0x689ac797d9c0fcb7047eccc673536fb6989ba7de80efc3ab91e705d8108217283nat, x28);
    let x29 = 0x2190876d5d99d8d45bff27d7d2980d7ba7273571edbf24b0e41cd231ba084b4dnat;
    let e29 = 2 * e28;
    lemma_power_mod_square(7nat, e28, n, x28, 0x7ae248a0c28d12c49665825e6df0661875ff22730b2b32c95c5e426555b53e4nat, x29);
    let x30 = 0xa131034b80cfc79ad29803c71e362f5b38aa5baf70603096f48813c17f2066e1nat;
    let e30 = 2 * e29 + 1;
    lemma_power_mod_square_times(7nat, e29, n, x29, 0x1ece0f93d1ac74f27bcd4049bb167c6bf3aa3ab5678224fa1bf3dbba0fbfdfbenat, x30);
    let x31 = 0xf46d5471552ef0eab2a3cd8a4dcbd5c415a3dcc72a66070ea8292ed61d44baanat;
    let e31 = 2 * e30;
    lemma_power_mod_square(7nat, e30, n, x30, 0x657eaf873af783e4bf64d8d815fd4057f442c32318927c6ebfe6a0ed11a45957nat, x31);
    let x32 = 0xe2f06cd3db9a6e7edd39bff9e6de06f027abd25a6144b1536b4d247b3ff158nat;
    let e32 = 2 * e31;
    lemma_power_mod_square(7nat, e31, n, x31, 0xe96097a90ebe974baa4748513142e5b353e45e5a5c8c78547b27f7c6fa6c8cnat, x32);
}

proof fn lemma_power_order_over_174723607534414371449_part_2()
    requires
        power_mod(7nat, 0x1b07134f42e597994nat, 0xfffffffffffffffffffffffffffffffebaaedce6af48a03bbfd25e8cd0364141nat) == 0xe2f06cd3db9a6e7edd39bff9e6de06f027abd25a6144b1536b4d247b3ff158nat,
    ensures
        power_mod(7nat, 0x1b07134f42e597994a25928e7nat, 0xfffffffffffffffffffffffffffffffebaaedce6af48a03bbfd25e8cd0364141nat) == 0xe3d69a1bcd8432dca18e7641f5bc297ce07ba4fa28794e55b91148bd31a9bc2enat,
{
    let n = 0xfffffffffffffffffffffffffffffffebaaedce6af48a03bbfd25e8cd0364141nat;
    let e0 = 0x1b07134f42e597994nat;
    let x0 = 0xe2f06cd3db9a6e7edd39bff9e6de06f027abd25a6144b1536b4d247b3ff158nat;
    let x1 = 0xf5f8461919e7cbd391322fc7eb736b6d6bfab5e3140d3add3103d89fcdc72d2bnat;
    let e1 = 2 * e0 + 1;
    lemma_power_mod_square_times(7nat, e0, n, x0, 0x5803dada00ea30ce47e94c0a96b611f8c558253a71cc8aa45af3673d5cc55nat, x1);
    let x2 = 0x2438b0ca09686e4eaf19b5cc3c1d94f8f3db1d588cdf22e9d8c97d37805a9fanat;
    let e2 = 2 * e1;
    lemma_power_mod_square(7nat, e1, n, x1, 0xec5526f3ef6999deb32ffb1bd666d21565f01652dafdf2580e80fec02dff1c7fnat, x2);
    let x3 = 0x4626548cfeb5d1a616fdd704ff48e2636013cec79b82e7cca1d71a5bfd0b9d4nat;
    let e3 = 2 * e2 + 1;
    lemma_power_mod_square_times(7nat, e2, n, x2, 0x23dff3ee83df5fadcf764fb4040ceefcb19465dc0c7dd0b2f1a76440850d28nat, x3);
    let x4 = 0x89e364c5989b4fb922d86684a5669caed44ca82802c5658a82c669396eaa040fnat;
    let e4 = 2 * e3;
    lemma_power_mod_square(7nat, e3, n, x3, 0x1338fbfa5113e16ff7c13eda0202f15cf6c0dc88cd93bea672b88a61310241nat, x4);
    let x5 = 0x9bcf9f1e25f3a3b5a87bb518a2a23e6944518680a672b8c38a77b43e3105bc06nat;
    let e5 = 2 * e4;
    lemma_power_mod_square(7nat, e4, n, x4, 0x4a452bd75b6dd68119e98c8df5cf863aafd001dbde4df990a72f3564b55c1b1bnat, x5);
    let x6 = 0xe88fa2148f0705b73796191eab7b46788d2be47105988ac45faedfb85f59a217nat;
    let e6 = 2 * e5;
    lemma_power_mod_square(7nat, e5, n, x5, 0x5ed51311379cdef249e2a06a90fcf868a93cdb5655e38c8d4ef621929d70adcdnat, x6);
    let x7 = 0xfba8686b136bdc9f35aa3bcb294dfa6732c2a7f774cb9e8621a32ff3b9c50c35nat;
    let e7 = 2 * e6 + 1;
    lemma_power_mod_square_times(7nat, e6, n, x6, 0x5c6e08c8229c1cc2019c06f6c25f80fefc6a01e0e541b94fc25716cf8bf3f93c2nat, x7);
    let x8 = 0x2e739ca2665531ce7154d38f377c827bc47f762314a4af16a697d7a7e3c034a9nat;
    let e8 = 2 * e7;
    lemma_power_mod_square(7nat, e7, n, x7, 0xf763ab8b2f362cc2a5173991d7b855329170ef45ec1c0fe0bd5ca0e1278dea50nat, x8);
    let x9 = 0x74eede2a5c8182ebe28f0183052886abb385a59358acc82fb430af3576008792nat;
    let e9 = 2 * e8;
    lemma_power_mod_square(7nat, e8, n, x8, 0x86dc0807684e22e71a2f1aefae66e6b6621b3a1cef30fd31b5c73d09129413fnat, x9);
    let x10 = 0xe017116528102a032648e130bb5f8805bd61853cf23fb0a90b8c1ce004bb482anat;
    let e10 = 2 * e9 + 1;
    lemma_power_mod_square_times(7nat, e9, n, x9, 0x175e169899fd0185a2859e49aa18119f86d34cc26157511aea1b94b849c8e2432nat, x10);
    let x11 = 0x84b9cb67d5161779e62e8f0eb37130022e7c2f026cd4cf061ba55f8f29add839nat;
    let e11 = 2 * e10;
    lemma_power_mod_square(7nat, e10, n, x10, 0xc4286085277813b7d82b0ae5e5539aa13522793feda7938f2298ea0810d5e8ebnat, x11);
    let x12 = 0x6488b4ae99fc6885c1d20da7ffa0726cffe6c7cc7da9f09b1c8db3dfd4675577nat;
    let e12 = 2 * e11 + 1;
    lemma_power_mod_square_times(7nat, e11, n, x11, 0x1e1b0e43ada06295cd986c88f257cbadae8fef5e53f6870047a7d9a302e861b60nat, x12);
    let x13 = 0x3f0eb917a4f32e289161d180b2e6f3e6a370e00ee0becc501042e1c29f7b254anat;
    let e13 = 2 * e12 + 1;
    lemma_power_mod_square_times(7nat, e12, n, x12, 0x1145d9b1e295f9e4951db4a492277a6a7a9447fbd6c1c94741e2bf9f10487afadnat, x13);
    let x14 = 0x3743cc0bf8418c94a35d78c19e575aff70b83fc4ab5e4f699a439e429a264b0enat;
    let e14 = 2 * e13;
    lemma_power_mod_square(7nat, e13, n, x13, 0xf883ff26798e9e78aaf735e661cd3cdbf62b7e02440da96785184d8a39f22d6nat, x14);
    let x15 = 0xf4b0d61ae3d7a264d58d3d5fcaecb167278245fb5f45a50b4bfb7c3d5d6ab439nat;
    let e15 = 2 * e14;
    lemma_power_mod_square(7nat, e14, n, x14, 0xbee33a1959330ef326db71c1712583c4559809fb60fa84b848d7d6b816642cbnat, x15);
    let x16 = 0x382cfc4b75da54b581f962c286182f80c2c351dcbb5e476802f14848e42d8b9dnat;
    let e16 = 2 * e15 + 1;
    lemma_power_mod_square_times(7nat, e15, n, x15, 0x6652b0008788d20a9a6b3f264869c890181cd7c2ec3f079bfa6aaa69dc6197cbanat, x16);
    let x17 = 0xe4490eeba739cd7e13ea95120c3d95d5ff11e9f1bb21ac0f115400ea3b218e10nat;
    let e17 = 2 * e16;
    lemma_power_mod_square(7nat, e16, n, x16, 0xc53b648b624ae60a2360ece7a0e7211a024fe966a08c5099eaa3e868a60d8f9nat, x17);
    let x18 = 0x79eafeac87d73767cb239661f5077c08665c1fa4895aa207b87ede96869dd34dnat;
    let e18 = 2 * e17;
    lemma_power_mod_square(7nat, e17, n, x17, 0xcb92376d4522f4368936bc1f08286d7017c1209ec75879e1c476185f30ebbdf3nat, x18);
    let x19 = 0x14c2bc8a378b8f04ecbe6d5763689983486dd7a1b1d707d243c047d7135ad5dcnat;
    let e19 = 2 * e18 + 1;
    lemma_power_mod_square_times(7nat, e18, n, x18, 0x1966fe737a03833930d00cc1ccca9e7cfaa81eb6742fe2c2455ab4e84d2136a83nat, x19);
    let x20 = 0x670d55491555abe75524fd30a750dff07c53a9f63d246ee247ce845f5133f417nat;
    let e20 = 2 * e19;
    lemma_power_mod_square(7nat, e19, n, x19, 0x1af0197e5054a12710742430adaa9194754924e9ecc5d7c60e2dd8f5f5779b9nat, x20);
    let x21 = 0xf8750f01e6b58ec471f90d8274fab091be1f9fb604b26f6593e768cbeb62eebenat;
    let e21 = 2 * e20 + 1;
    lemma_power_mod_square_times(7nat, e20, n, x20, 0x122621f421305086db99ca9e4d2cdc12543ab5c2499eeab452ba93d728fc53079nat, x21);
    let x22 = 0x235f1cf07971765c27cd4123f2200ff4e4173a980da7031938f54355c4611236nat;
    let e22 = 2 * e21;
    lemma_power_mod_square(7nat, e21, n, x21, 0xf123029a679ddf9e007398035d9f3b9dca6c7cba8fdff0bb522ce1c9626ba14enat, x22);
    let x23 = 0x5a3e0ea932234612184effae101b6a109dd5b24ace22a2875e27c77876c77207nat;
    let e23 = 2 * e22;
    lemma_power_mod_square(7nat, e22, n, x22, 0x4e325403ef4a507cb8633d285b0b92b2a533e023781b3ed27680ba27eda8d1dnat, x23);
    let x24 = 0xec2b83e81a0dd6ba433f6025e41f39063b8123e803ac8d172f6b4a0c3d1725b9nat;
    let e24 = 2 * e23;
    lemma_power_mod_square(7nat, e23, n, x23, 0x1fcfb15a120c07a9c1e99cd24587197c04607bd5ea4be8b7e20d2c47af068078nat, x24);
    let x25 = 0xd748e221fd995a66c113d4df9878ec36bba21c3700fa9c462127f57d7a130975nat;
    let e25 = 2 * e24 + 1;
    lemma_power_mod_square_times(7nat, e24, n, x24, 0x5f521d2329bd36b90ac628777c8fe39e08639c5ae84a3e1dfd4a3fad9858319e2nat, x25);
    let x26 = 0x3936b89f33f6a5b85295d515361a7c85d2e0c2fce3f3bf802ed50fad46e62e93nat;
    let e26 = 2 * e25 + 1;
    lemma_power_mod_square_times(7nat, e25, n, x25, 0x4f350841383dbdeab015dd69ab68e97bf05fba70c5454e3df1b26e962857772bcnat, x26);
    let x27 = 0xf7f43ab0eed8af3eb949821ff68395ff7be38cc115acb9b7ee3d3ddd43c4cf89nat;
    let e27 = 2 * e26 + 1;
    lemma_power_mod_square_times(7nat, e26, n, x26, 0x5981e5611e24fce2f9d4161ba5455f73d4c8986810b736a5981e8dcb43edffd6nat, x27);
    let x28 = 0x21b23008ff6e4a086b13492e02cfff9943975a7095e385e22808e298cebcba74nat;
    let e28 = 2 * e27;
    lemma_power_mod_square(7nat, e27, n, x27, 0xf02932415ba215bc914e0caea0fd68a080166836c12386c3ded360cc1266189dnat, x28);
    let x29 = 0xd76d5312f9170d014e170c228a7676699e66589bee4c400bf4707fef6907bafenat;
    let e29 = 2 * e28;
    lemma_power_mod_square(7nat, e28, n, x28, 0x46f6c692761048f70d48f5e0750ab9db87c6a4a102e4fcc5f016fa234b4b312nat, x29);
    let x30 = 0xf427c558500b62f5514fa6cc03a8fc1f55992a56aaf7535f1fac5b70c47d465nat;
    let e30 = 2 * e29 + 1;
    lemma_power_mod_square_times(7nat, e29, n, x29, 0x4f4fdb194048efecb523c256d1750f2bbec42b1a4eea99463d7893754fc2342f7nat, x30);
    let x31 = 0x6846c25341b427f3cf14e5a12e8a9892cc984cdd3035efdbfb76e329924e305dnat;
    let e31 = 2 * e30 + 1;
    lemma_power_mod_square_times(7nat, e30, n, x30, 0x65e02dc927b59ec5f165340a85557e8f30885c323ebc90995b896ff5ef54812nat, x31);
    let x32 = 0xe3d69a1bcd8432dca18e7641f5bc297ce07ba4fa28794e55b91148bd31a9bc2enat;
    let e32 = 2 * e31 + 1;
    lemma_power_mod_square_times(7nat, e31, n, x31, 0x12952fa2174f83380a4c2752d8c8edcbd9357bc01536017a85ee1bf56109b3b11nat, x32);
}

proof fn lemma_power_order_over_174723607534414371449_part_3()
    requires
        power_mod(7nat, 0x1b07134f42e597994a25928e7nat, 0xfffffffffffffffffffffffffffffffebaaedce6af48a03bbfd25e8cd0364141nat) == 0xe3d69a1bcd8432dca18e7641f5bc297ce07ba4fa28794e55b91148bd31a9bc2enat,
    ensures
        power_mod(7nat, 0x1b07134f42e597994a25928e75887fca5nat, 0xfffffffffffffffffffffffffffffffebaaedce6af48a03bbfd25e8cd0364141nat) == 0x7e50ea7b1e07dc22b4491a75d35548f8089c52d69240b0f44f16f1ff1dd3fbc2nat,
{
    let n = 0xfffffffffffffffffffffffffffffffebaaedce6af48a03bbfd25e8cd0364141nat;
    let e0 = 0x1b07134f42e597994a25928e7nat;
    let x0 = 0xe3d69a1bcd8432dca18e7641f5bc297ce07ba4fa28794e55b91148bd31a9bc2enat;
    let x1 = 0x5cf73c75ee7ad676280a935fe71036daf8de330586e91b7b1c5a6e78e1ae703fnat;
    let e1 = 2 * e0;
    lemma_power_mod_square(7nat, e0, n, x0, 0xcac6493351b981805b71ea8a02c6874b5cc1dd0f0eae1376503f654748c3b1c5nat, x1);
    let x2 = 0xc3cdd7f7cae860b85b9555cb0fad276030addc0416a4470f611485b7bd47c03dnat;
    let e2 = 2 * e1 + 1;
    lemma_power_mod_square_times(7nat, e1, n, x1, 0xec526f996ccdd1156a466badc65779e7541dd899c5964cbc8a35c38266c44fcanat, x2);
    let x3 = 0x794509448d4b028b1f646011c012e5a6104bb161608cc432b11d2f21a25582d3nat;
    let e3 = 2 * e2;
    lemma_power_mod_square(7nat, e2, n, x2, 0x95c33c87182b222f427c0706b497faff2d5d81e7a2f634795a1db22b60104836nat, x3);
    let x4 = 0x7a304a83cf83d59ede2893b9f2aeb2b6497cc9ee44ee8adeffc6168fa0f07c0anat;
    let e4 = 2 * e3 + 1;
    lemma_power_mod_square_times(7nat, e3, n, x3, 0x1922055a599fcc1eaaec696be4f61d8a4a11c95a9154523cfeff6fe4f465c3f15nat, x4);
    let x5 = 0xe9354fc7b0516c27ca2f858259298404336fe6b420640da755cf6e165bb6353bnat;
    let e5 = 2 * e4 + 1;
    lemma_power_mod_square_times(7nat, e4, n, x4, 0x1983e70eb9e57962c77b276cedea0981dbeab9fefc034d986e814607ba1680c41nat, x5);
    let x6 = 0xa6e6dd4623c1e7fb8ee666204eca157838d62bf66c6cc1fade69a8586ea56f35nat;
    let e6 = 2 * e5;
    lemma_power_mod_square(7nat, e5, n, x5, 0xd4721653a080132d0f4afbf68d6f639ca5423263cbec579ac97b1ff2889bcf64nat, x6);
    let x7 = 0xa29ddc4c7681893ba53c953b51ee664bbb80579b18b017d98bc6d6cefc35277anat;
    let e7 = 2 * e6;
    lemma_power_mod_square(7nat, e6, n, x6, 0x6cd037294fa9e63b72e95d0bbf27b3132db90d5584dc2bc8bd72fdf3379caabfnat, x7);
    let x8 = 0x36d4667fcb80029813cba522546eb896b2bae5490644c7fc2218e3daa4bfb7c4nat;
    let e8 = 2 * e7;
    lemma_power_mod_square(7nat, e7, n, x7, 0x674c2c28b958cf1707ed04a6eeec0d4dbc73892990751e58aca28b81bd9eb660nat, x8);
    let x9 = 0x63475f0bb5136fee59c144c595061bfa098dde6ec6fccb2c0bad5f408029b2ebnat;
    let e9 = 2 * e8 + 1;
    lemma_power_mod_square_times(7nat, e8, n, x8, 0x52341046dddbf57e0783142fcd5ab783754c88660b9890b75b99af5a68841945nat, x9);
    let x10 = 0xa61308f7b1d6046fb6b42eac7664ccb2cf8d6ad9507d2ed02e262b122c3206c1nat;
    let e10 = 2 * e9;
    lemma_power_mod_square(7nat, e9, n, x9, 0x26804768e9d52a47ec74473ef7bf1e4ca6d1fca3905e3471892020cc00f0e6f8nat, x10);
    let x11 = 0xed6b88efefac3e0bb7b186b4796fce4882579770482c81a4ea608e8ffac7de13nat;
    let e11 = 2 * e10;
    lemma_power_mod_square(7nat, e10, n, x10, 0x6bbcb10b8fb65e4b9053fb524f3f70dfac14f7d8630ef7a5c75cee50188ed5eenat, x11);
    let x12 = 0x4ca21f17f16eee520773318d4b51438c2f9af92c8e50b6592151e9eb642c5c19nat;
    let e12 = 2 * e11;
    lemma_power_mod_square(7nat, e11, n, x11, 0xdc3048b803971465f5d59e9bb015cb009b44a8b6ab348f129d4ecca36adbf550nat, x12);
    let x13 = 0x85ac413e54cb0426dd38032cfe136a8e263bd1705f6b99ff08028ea9c5bd0adfnat;
    let e13 = 2 * e12;
    lemma_power_mod_square(7nat, e12, n, x12, 0x16f0a921956e3c9c77969089f6a09d03a12ed8eed9b0b712ca06b51beb8d1912nat, x13);
    let x14 = 0xf084a2139d13bc1782de6cf416784d5a66fdf8dcdd004d5f429b7989fd1bbbafnat;
    let e14 = 2 * e13 + 1;
    lemma_power_mod_square_times(7nat, e13, n, x13, 0x1e8970de1836f3177a84b7a29ec91ab7c428e7f94fa7305c0bedcb7aabeceea18nat, x14);
    let x15 = 0xf6f438a1259f6f6e1f1d594413aa67db4c25c71a70bf30876ec0e8540f7a24b1nat;
    let e15 = 2 * e14 + 1;
    lemma_power_mod_square_times(7nat, e14, n, x14, 0x62dceb0463982b94a0eea4316c6be579b1b944badfd74a8816148174464164336nat, x15);
    let x16 = 0x5202fb19735b499105f156d9e146396208f0fac95f26d7cabc63e3c88fc8e258nat;
    let e16 = 2 * e15 + 1;
    lemma_power_mod_square_times(7nat, e15, n, x15, 0x68397e8bbec2337d70dc2b1f0e4c40cfcbedd9e88e057da8867287700cb7abb8fnat, x16);
    let x17 = 0xd46476134f094b29a4611899ac9f1b4c2d106b301d5094d7a93c1058efe1aabdnat;
    let e17 = 2 * e16 + 1;
    lemma_power_mod_square_times(7nat, e16, n, x16, 0xb7e95e445422670b9500283f2f3e9d32d2b3c8440a3695a22a63c32acf357543nat, x17);
    let x18 = 0xfcdee6a92f41a3192179262d3c4751bc36bf79defdf31a943a1ee747ccb34206nat;
    let e18 = 2 * e17 + 1;
    lemma_power_mod_square_times(7nat, e17, n, x17, 0x4d17dcce713249e779900a352128447f166e00ac228381bc6f7b3910e97c31379nat, x18);
    let x19 = 0x1949bdc82d0c451c7bffbb275af8f112bcc1c325f175b827f6ca91cff3c348fbnat;
    let e19 = 2 * e18 + 1;
    lemma_power_mod_square_times(7nat, e18, n, x18, 0x6d475295da0115da407919f424883f6ffc6f35b9dd99e33eb5a873d7b95a9aec1nat, x19);
    let x20 = 0xb7bc69f0671c3762de9611e5e6cc8dcc34c751cd84c6b1165871236500668610nat;
    let e20 = 2 * e19 + 1;
    lemma_power_mod_square_times(7nat, e19, n, x19, 0x117c66282b92e6c299443030616894a2578aee059cc3035e509e7ffb041f6ddfnat, x20);
    let x21 = 0xe3bbacde0f0b7663bb29807a3a83f2aec59d372bd21ab3c43be7c11582552c15nat;
    let e21 = 2 * e20 + 1;
    lemma_power_mod_square_times(7nat, e20, n, x20, 0x39b1866ea4a6e18c3633107920cf8aa51eaab0280483062a18855cccba0e0e52bnat, x21);
    let x22 = 0xad7aa4a9be057a1c3de224f4bba90fefd78dcb8870598f2b9adc73a498c47a64nat;
    let e22 = 2 * e21 + 1;
    lemma_power_mod_square_times(7nat, e21, n, x21, 0x58a1c9316aec828c1484d1159678534877269fc5119a0132685e512c19b5e73ebnat, x22);
    let x23 = 0xf45692787441f6d3265aa62005d203a6dbc355520ef35251f79787a8819b361nat;
    let e23 = 2 * e22;
    lemma_power_mod_square(7nat, e22, n, x22, 0x758efd4ec6867046034a2b715e08c0082cba6710bae1309f8f484f23a8d4d8efnat, x23);
    let x24 = 0x2dd413008008fa1f2e3114b7e17b3c47bcaf1a43529e63fdce44ab31cce51534nat;
    let e24 = 2 * e23;
    lemma_power_mod_square(7nat, e23, n, x23, 0xe935247c5a59781cc726a7f6a30aa12e886bd76f56fc288a6f1740ebe1d54dnat, x24);
    let x25 = 0x92d2eedd59f8a308be8f732fe3d72deb2ea5d87fa4a8a163a3384892a6208b13nat;
    let e25 = 2 * e24 + 1;
    lemma_power_mod_square_times(7nat, e24, n, x24, 0x396db48f92c204a7a94f911217ecb0028b47a0f2fa533cbfb5967c4e9c2df29dnat, x25);
    let x26 = 0x1d39f2def9af133f87e9be05beb101ca3760686d6f73274523dc81df2d3d1f77nat;
    let e26 = 2 * e25;
    lemma_power_mod_square(7nat, e25, n, x25, 0x543546413ca7889039c0d4ffb59240b919ab15c114ae500cd74f2ec6e5253572nat, x26);
    let x27 = 0xf7fc77729f336e530ccb8126ee52a218d9e59971df54aee28b2fa2587cfecf91nat;
    let e27 = 2 * e26 + 1;
    lemma_power_mod_square_times(7nat, e26, n, x26, 0x175b42fffff23827be83263d4fd5402d000a3256802bd487a8eeaa93e1ed4226nat, x27);
    let x28 = 0x7725254629ac6cbd71736011949b87aeb5c17e8b9624b92ac75af425ce4a024fnat;
    let e28 = 2 * e27;
    lemma_power_mod_square(7nat, e27, n, x27, 0xf039277a909a6f797392491c4a613d2d5c1ab92fc010713b2ca61471796c2752nat, x28);
    let x29 = 0xcedcb127426d2d1dfba3f6c3b77a87df31bd938bbe8ab5b4da639eeefe0e5c82nat;
    let e29 = 2 * e28;
    lemma_power_mod_square(7nat, e28, n, x28, 0x37738e0b0673b43636bef8067d32f764ef23a8c3d15b36a2f1227cee2c0bd11fnat, x29);
    let x30 = 0x4b2f4f2adbdcb7cc18adf4d8ffcf80cfb4929fc182a5138f5cce6a4978e73ffcnat;
    let e30 = 2 * e29 + 1;
    lemma_power_mod_square_times(7nat, e29, n, x29, 0x492176f8502d050ee87d87d29f4ad583e0ace7a0964656fb8a0c6010d3624f620nat, x30);
    let x31 = 0xe0f6abe04ad6dc322bb4d3178c9366c82182ecf94f94d99001acd5255f6ccf3nat;
    let e31 = 2 * e30;
    lemma_power_mod_square(7nat, e30, n, x30, 0x1614c121470b899c2e16a44e20bd42a9440a448bd2ace1afb453ebaeb4435eddnat, x31);
    let x32 = 0x7e50ea7b1e07dc22b4491a75d35548f8089c52d69240b0f44f16f1ff1dd3fbc2nat;
    let e32 = 2 * e31 + 1;
    lemma_power_mod_square_times(7nat, e31, n, x31, 0x567d4394301fcb76392b81b45e9d41c56b1223d04aca14a64c3fc811157c69dnat, x32);
}

proof fn lemma_power_order_over_174723607534414371449_part_4()
    requires
        power_mod(7nat, 0x1b07134f42e597994a25928e75887fca5nat, 0xfffffffffffffffffffffffffffffffebaaedce6af48a03bbfd25e8cd0364141nat) == 0x7e50ea7b1e07dc22b4491a75d35548f8089c52d69240b0f44f16f1ff1dd3fbc2nat,
    ensures
        power_mod(7nat, 0x1b07134f42e597994a25928e75887fca5ee37069dnat, 0xfffffffffffffffffffffffffffffffebaaedce6af48a03bbfd25e8cd0364141nat) == 0xc182c1a837747940c8266fc5cdaa3455f7b4e2087caa637be9994e9c37ffdabbnat,
{
    let n = 0xfffffffffffffffffffffffffffffffebaaedce6af48a03bbfd25e8cd0364141nat;
    let e0 = 0x1b07134f42e597994a25928e75887fca5nat;
    let x0 = 0x7e50ea7b1e07dc22b4491a75d35548f8089c52d69240b0f44f16f1ff1dd3fbc2nat;
    let x1 = 0xddee0bf4094b8c89409b873ce5240ddd7c03a98f0a307ec04fbbe5431a1239c4nat;
    let e1 = 2 * e0 + 1;
    lemma_power_mod_square_times(7nat, e0, n, x0, 0x1b44a42c014f6ae07e8b03d893c2ea649173412060ad6cc6a861c6297eea01158nat, x1);
    let x2 = 0x3966617a3016df49424ab6bbc7b156e063672bef13358b47e1e7f78b9df8868dnat;
    let e2 = 2 * e1 + 1;
    lemma_power_mod_square_times(7nat, e1, n, x1, 0x542c211ef008839d77a474056ed73c38233c9d3d9a21fc49d0ebe721c0782a023nat, x2);
    let x3 = 0x35012240cdf5a950ed92e6fecacc2b32c45c2f710a705c37ae3374792e7656fenat;
    let e3 = 2 * e2 + 1;
    lemma_power_mod_square_times(7nat, e2, n, x2, 0x5a174277a34c4ef24d97213d8d30def39f17b0831be64dc939823714ba5a9361nat, x3);
    let x4 = 0xabea0c51e970a08461ad78a78845484a45de9902c8291f4a1d84fd1419fd7e44nat;
    let e4 = 2 * e3;
    lemma_power_mod_square(7nat, e3, n, x3, 0xaf978301e5e9b23b68233463e2541228cf63ce783c6e25c962b63458d16f5c0nat, x4);
    let x5 = 0x46f9ed2a3d7efeeaba4f6858fd291795bb5321e57aa1866a46c1479ed9e4932enat;
    let e5 = 2 * e4 + 1;
    lemma_power_mod_square_times(7nat, e4, n, x4, 0x32821910fad650304e3d394e5f5d507f882843afbd3b1a27f76404596bb7d08c2nat, x5);
    let x6 = 0x593ed47920b52d3ea0362c23f0a24bd093ae7ce951bdc06655b2630812fd0558nat;
    let e6 = 2 * e5 + 1;
    lemma_power_mod_square_times(7nat, e5, n, x5, 0x89bf6be03a9e3903749d2e0b398cc93be79eef02013beae3d9058f6fcf689b84nat, x6);
    let x7 = 0x2aa3b01ba8128742d79ae0e56de7e3e6276277ab62ac15ad506581984c8da204nat;
    let e7 = 2 * e6 + 1;
    lemma_power_mod_square_times(7nat, e6, n, x6, 0xd9c93a16ca529ce848cee91d7788c5f25ab1b4e97eeebe853ea96dd521e6d6bcnat, x7);
    let x8 = 0xe0dca5413ed7385d19ff3a57de4bd45c44fedf18e8bc0ccb72c695101228056fnat;
    let e8 = 2 * e7;
    lemma_power_mod_square(7nat, e7, n, x7, 0x71a1e72cf8426108a1a247323fa1d65c876aba713de6d8263618b40dfa51161nat, x8);
    let x9 = 0x997d06aaaa7a2748e865e8446f98ed953d02f0bfc0bdf881b98e7a72d1bedd4bnat;
    let e9 = 2 * e8;
    lemma_power_mod_square(7nat, e8, n, x8, 0xc582df5ea0c9d02e34e2ebcd123dd3563371ee8560f150b264650e3f56f87d56nat, x9);
    let x10 = 0xe744288f782a9f2130d7dd01bab718a22cdc780ca21096eff1afad0260e06f2fnat;
    let e10 = 2 * e9;
    lemma_power_mod_square(7nat, e9, n, x9, 0x5c06af07829cf0041896d1565aa19ca31c5d1ffe91513e0f74062ebe4b75484anat, x10);
    let x11 = 0x9bd04f5e725df2363533984cdcfcb47f0143b79cefa92ef1da67c25cf51c9c17nat;
    let e11 = 2 * e10 + 1;
    lemma_power_mod_square_times(7nat, e10, n, x10, 0x5b674876b6e8d567292b58b0be7ea0111a9d2c1471ff764b3a4db1182ac670a50nat, x11);
    let x12 = 0x997ac72743d8084618b1dad42139aab9d5f0cd5c38a27a1fd756268cff4f93d0nat;
    let e12 = 2 * e11 + 1;
    lemma_power_mod_square_times(7nat, e11, n, x11, 0x297d9634e140541c5d89a77c17048c0b8cddb8d44ab3fc93aa4ff90408db291e7nat, x12);
    let x13 = 0x60c8d6f3d6aa803c5a882002231d9928af5821b7e814ec1bf5970d6fd6bd738dnat;
    let e13 = 2 * e12;
    lemma_power_mod_square(7nat, e12, n, x12, 0x5c03fcef5b72f54b46fe6b78d1c84abc0775eb8f52755fecd2f5ab64ac4935b3nat, x13);
    let x14 = 0x7fcbeb2de24e51ff181d48ad269ee218a3da035bad8bd07b5c75ee060171b73enat;
    let e14 = 2 * e13 + 1;
    lemma_power_mod_square_times(7nat, e13, n, x13, 0x10022b774216310237601ce1dc18f74a47c78115b935c8d8cff49e17f88248121nat, x14);
    let x15 = 0xe5ddf7c178a680649974c7c0fd61fa9f58a10274427635f854f4cc2122c74d7bnat;
    let e15 = 2 * e14 + 1;
    lemma_power_mod_square_times(7nat, e14, n, x14, 0x1be93b86c718336ebee57e2b0629115ed6bdcc9cbdfc7df362694e7252cfc5e61nat, x15);
    let x16 = 0x4d65781a5430c4d042474750eb092bbb7c25de23a2a8b1bff7fdda664b16568cnat;
    let e16 = 2 * e15 + 1;
    lemma_power_mod_square_times(7nat, e15, n, x15, 0x5a4d00ff8d7adb77aa758ce47bf915a64acf36b77eb65f667e37e9b59f0febd63nat, x16);
    let x17 = 0xaa5d217486a7af5ad4e0483231672d5485027cf63d0b6bfbfe63925ad2522819nat;
    let e17 = 2 * e16;
    lemma_power_mod_square(7nat, e16, n, x16, 0x17663277d3c47683824e70084d7a82c481fe54be96856df37a3f3b1cec74cfb7nat, x17);
    let x18 = 0xe06ca3d50d9209288ef22b53f3dac6d684d4f1897cb1c30e19d03f52d2630083nat;
    let e18 = 2 * e17;
    lemma_power_mod_square(7nat, e17, n, x17, 0x715fd25015dfca7b94b8d973336d22dcddf37c7e837b1b875bcfb0de681ec86enat, x18);
    let x19 = 0x9a67cc1aeca7f21f1ec7f052613b9b7272a18eee83504e4ff85f0efc187b6995nat;
    let e19 = 2 * e18;
    lemma_power_mod_square(7nat, e18, n, x18, 0xc4be4ccf7c5c03d641c573ea4cd923e67fce17750ce82641a4abde266d274874nat, x19);
    let x20 = 0xa920dedaa1b8380e926c93aed5a65b6a51cc40172ae31d81b6f37f97ab53cd4dnat;
    let e20 = 2 * e19;
    lemma_power_mod_square(7nat, e19, n, x19, 0x5d210ba6451f6a72dcd82dfe913fb69de7713e8f1f8a441e861624bb82773c6cnat, x20);
    let x21 = 0x67cce5407c1370f5a1bb16b70b84b88a80b8b58530f6a9e08320d1402991b052nat;
    let e21 = 2 * e20;
    lemma_power_mod_square(7nat, e20, n, x20, 0x6fbc6a75222d93449619effa683f3d543abcdcee046432dd430f61d623cddc17nat, x21);
    let x22 = 0x84a93824fba7021e420e8b5793fe9af85d4867e73006bd104e625dd41c2ec30dnat;
    let e22 = 2 * e21 + 1;
    lemma_power_mod_square_times(7nat, e21, n, x21, 0x1269d9f486f64bebb2ef788a2f31fa1e25f97dce34eac40323dd1858a12dae20fnat, x22);
    let x23 = 0x406cb720e87696a054f9635f4fe920b55c51f57d440e09668f68227c793f97eenat;
    let e23 = 2 * e22 + 1;
    lemma_power_mod_square_times(7nat, e22, n, x22, 0x1e1389c49349cd0e5ab6ec3e84e50993dc9e5163f4c3687f846a7528a410a0171nat, x23);
    let x24 = 0xf7aed9e60050fa0c74efbc6a5295bdda773e97542c9a097f369c80b581645a97nat;
    let e24 = 2 * e23;
    lemma_power_mod_square(7nat, e23, n, x23, 0x103689bb7aff7ff3bdda6d9f193dbb2493ed72b4a29c4c5008c80736a992fe6dnat, x24);
    let x25 = 0xf4c6df5a69eaa085b8295a8e2a6f161aa62fdc168f733b96f5ec07723d786f22nat;
    let e25 = 2 * e24 + 1;
    lemma_power_mod_square_times(7nat, e24, n, x24, 0x68d741f4f5326f2689400b4018cce1ca3d41a5af5febcc4d23caef76c52115a15nat, x25);
    let x26 = 0xc990230eafa03c894b078897b357519326727d8da0b8b44bbb6f57eac08beeacnat;
    let e26 = 2 * e25;
    lemma_power_mod_square(7nat, e25, n, x25, 0xea0bb4429ca1bd649e5bd82c27d2c3cc4167484ebe9c6c0308cdab646557c3d8nat, x26);
    let x27 = 0x458d5e5d54fb41691f1a74fba62e8e1bb6195372d0a9e8ce090fade6df15760cnat;
    let e27 = 2 * e26;
    lemma_power_mod_square(7nat, e26, n, x26, 0x9eb3a834851c383130d6dd8f94f806ee3058db13fc36109bd0fe3716ba4b2884nat, x27);
    let x28 = 0x7b15716c58ce34cb114ffc1cd6b73c19f1c14e5a115bc90adcee0f21a6464d30nat;
    let e28 = 2 * e27 + 1;
    lemma_power_mod_square_times(7nat, e27, n, x27, 0x8446948bc5d61948a38baea40c4806a710199f5256e86c7a8f49156a11f6b6c0nat, x28);
    let x29 = 0x4e99d9d1df4bcf7586666040697def9d8c01e5873adf621258239abc04a37fanat;
    let e29 = 2 * e28 + 1;
    lemma_power_mod_square_times(7nat, e28, n, x28, 0x19e3f49856f8ed9b6377584d05d043915c5547cf70ad3969e060354e3036a3f86nat, x29);
    let x30 = 0xe82f615a03279322411f8623316c23b2f0b9daf3e9732697f454096cfdd84ccbnat;
    let e30 = 2 * e29 + 1;
    lemma_power_mod_square_times(7nat, e29, n, x29, 0xa8eecc5dd7e0098d5a7d4692ef3d08ca2459824fe90ccccbfacbff45fa66f1nat, x30);
    let x31 = 0x86a5e5cd0987de271ce04cc9cc1407876de3c784ec430d775b3546255db7390bnat;
    let e31 = 2 * e30;
    lemma_power_mod_square(7nat, e30, n, x30, 0xd295e93809ca394051fa69b3aed812bc7195ae9cde2a9b96c0c28fab6212666enat, x31);
    let x32 = 0xc182c1a837747940c8266fc5cdaa3455f7b4e2087caa637be9994e9c37ffdabbnat;
    let e32 = 2 * e31 + 1;
    lemma_power_mod_square_times(7nat, e31, n, x31, 0x1efbea890c5f6eada985878e60f1eee2da3dc7a1b26f81e0bd2fc9cf37e5a7994nat, x32);
}

proof fn lemma_power_order_over_174723607534414371449_part_5()
    requires
        power_mod(7nat, 0x1b07134f42e597994a25928e75887fca5ee37069dnat, 0xfffffffffffffffffffffffffffffffebaaedce6af48a03bbfd25e8cd0364141nat) == 0xc182c1a837747940c8266fc5cdaa3455f7b4e2087caa637be9994e9c37ffdabbnat,
    ensures
        power_mod(7nat, 0x1b07134f42e597994a25928e75887fca5ee37069dcb3fb40nat, 0xfffffffffffffffffffffffffffffffebaaedce6af48a03bbfd25e8cd0364141nat) == 0x54a5bc0c2e34e29e341c928f5668e230415f660dab8b1529a0a4c0a394b60afcnat,
{
    let n = 0xfffffffffffffffffffffffffffffffebaaedce6af48a03bbfd25e8cd0364141nat;
    let e0 = 0x1b07134f42e597994a25928e75887fca5ee37069dnat;
    let x0 = 0xc182c1a837747940c8266fc5cdaa3455f7b4e2087caa637be9994e9c37ffdabbnat;
    let x1 = 0xb8c7e4a3538db506af521de8ce56e1413e2c931c0760aad30cb224ddc7ba2033nat;
    let e1 = 2 * e0 + 1;
    lemma_power_mod_square_times(7nat, e0, n, x0, 0x3ffeceb7e42b316e4f30f2c5892d6b3b5ade9fe93b7168f1d3fb1afc9e323c4fcnat, x1);
    let x2 = 0x19ff791d0af2bee039ded1842f7cb230d37ecb246abafe0b60fbfe92e11a551cnat;
    let e2 = 2 * e1 + 1;
    lemma_power_mod_square_times(7nat, e1, n, x1, 0x3a59fb140479c8cf6cc29ad058c34fdc424637d94dbfd3c04e534c542010a9e43nat, x2);
    let x3 = 0x84f325bf476507c2996386ddc24002f91c2c11b4d08bbebd2dafb17691218725nat;
    let e3 = 2 * e2;
    lemma_power_mod_square(7nat, e2, n, x2, 0x2a3e49a2d4bb08501e7e169e7ebcdfdb044e76d22f7988cd555984a72b79e2bnat, x3);
    let x4 = 0xeb3a836af940402475104cfcae242ac0194c1ef2f7615906951189d6d42ca03enat;
    let e4 = 2 * e3;
    lemma_power_mod_square(7nat, e3, n, x3, 0x450ba5ddf052935c3a86dceb71ae974cf2f27a4b9c3caf05d7a1614fbaf4f95bnat, x4);
    let x5 = 0x3259033a41471af0999bf6fe92b72ed64d2e3e6bea9bd12a80f1baf6efcac8f0nat;
    let e5 = 2 * e4 + 1;
    lemma_power_mod_square_times(7nat, e4, n, x4, 0x5e8ff5a8b76d0e6adcad2296a4bab17efb0f983b9873e739c2ed753d144dda92cnat, x5);
    let x6 = 0xd6d1245c1b0c379a52bb6069893df31eb9f3b423645ceb5368f0de0d047c79a5nat;
    let e6 = 2 * e5;
    lemma_power_mod_square(7nat, e5, n, x5, 0x9e6e436000b94c006cac2fa93139db97054435c591af413a596511ce353a59bnat, x6);
    let x7 = 0x7a1c7a9450f04cdd326a1e4855dc75f0debda4d3d2ba78c078cf21cc1fc40f7bnat;
    let e7 = 2 * e6 + 1;
    lemma_power_mod_square_times(7nat, e6, n, x6, 0x4edd0498ca56e5d95cd071f7ae4ed2be74a53773bdf3cc192d9cc566ea3bf3df4nat, x7);
    let x8 = 0xa2e83932d253b89a8c58c7445a283feb32a827bc36e870db8c1d42ddc27cc72fnat;
    let e8 = 2 * e7 + 1;
    lemma_power_mod_square_times(7nat, e7, n, x7, 0x197ba1802d9fb164c8bf49a6e3de09b7f0f3deb5eef574afc7a913dba7bf51c80nat, x8);
    let x9 = 0x8a4268b76045083e5907f513046da940694a1381384b1269870593a00b8b5122nat;
    let e9 = 2 * e8;
    lemma_power_mod_square(7nat, e8, n, x8, 0x67aabb0c0b16d9224f752238d0ffd03d4ec4a9bcf97825fc28537e83ab7b9abfnat, x9);
    let x10 = 0x82fd13bab7a3535dad34801eb5d8a63f94c85c497da4685a650fce4e0189b29cnat;
    let e10 = 2 * e9;
    lemma_power_mod_square(7nat, e9, n, x9, 0x4aabaa1fdd2d920e55bac698d3ba42a6a19f20954fa1fef4284345cc81bdf3e8nat, x10);
    let x11 = 0x8614d74d32f615589ea0d52724c0b55b27300a2df1c90245468decef03474db3nat;
    let e11 = 2 * e10 + 1;
    lemma_power_mod_square_times(7nat, e10, n, x10, 0x1d52a0f93759aae8cad8b67cbbb59e72436a362225bf33e2a45bfb8bbd4013f7dnat, x11);
    let x12 = 0xfeb6df8b0e64ea91b6e744b65c0765dfcbf505b8607d9ae78ecde907773a2364nat;
    let e12 = 2 * e11 + 1;
    lemma_power_mod_square_times(7nat, e11, n, x11, 0x1eb94c5a2296665bc099d50708a07a434c5569a34700591eac6a6b255531a10fbnat, x12);
    let x13 = 0x488dedd5acd1354e44f97049fa99f64f2ed6fce6842d0ce019201381a15bb353nat;
    let e13 = 2 * e12 + 1;
    lemma_power_mod_square_times(7nat, e12, n, x12, 0x6ee0bcb99de65f505e8636695f8cb43d5134571bcd949ef9a5408d65278c031ddnat, x13);
    let x14 = 0x53131038d3e181b54ffda3bec51d1fb650eb26b0bc57f741c9ea5716da35a585nat;
    let e14 = 2 * e13 + 1;
    lemma_power_mod_square_times(7nat, e13, n, x13, 0x8ff0ff4850cfa563ff99ef6c573693756213d3795db21bba1ae904198044a45anat, x14);
    let x15 = 0x4370ec24ee656beeb1bab10ad2d0ca8faa2b8214cc955654b1e6b2c87763520fnat;
    let e15 = 2 * e14 + 1;
    lemma_power_mod_square_times(7nat, e14, n, x14, 0xbcb59191d3fbd0c4c324d949f5080a8d881e35f4d33ca12b9cf44f16d0e227a0nat, x15);
    let x16 = 0x1c96d70d0956c50f7c9314ad6d2156fed1a6b6941202217426adc442eb5b91e8nat;
    let e16 = 2 * e15 + 1;
    lemma_power_mod_square_times(7nat, e15, n, x15, 0x7c5e1deba88094c60fe8f2009771ea97482709f3a7858488e8d891463cb0197fnat, x16);
    let x17 = 0xc6460e233be50d29edbe93c6fc75ea34c826f06d24f5232805976087a527adbcnat;
    let e17 = 2 * e16 + 1;
    lemma_power_mod_square_times(7nat, e16, n, x16, 0x16596770fdcdc5fc18ddd0c7a96a39b38b705858e17acedb7e589648bc0f7d04nat, x17);
    let x18 = 0xcb81607babcc4ae1f9a4205ac7f4588a85af5af2762d8965c28bc9b1c58866b4nat;
    let e18 = 2 * e17;
    lemma_power_mod_square(7nat, e17, n, x17, 0x9990710a3cb2f1068ac6614a5ae51ae1e4b088934e71a74325e2350358edc85cnat, x18);
    let x19 = 0x288e68bfaf0b3953b893c260f983a33db6d49ecb8179a2ad83d2994ee45a6774nat;
    let e19 = 2 * e18 + 1;
    lemma_power_mod_square_times(7nat, e18, n, x18, 0x46c6d12cd983adaaf3ff32f2c2f015153660c185ae425b642e5f935cba695c37cnat, x19);
    let x20 = 0xaebfaeeb7969872ca1d24a7ad29cf6025f4836324a8ab8a4ae8e26937fe87208nat;
    let e20 = 2 * e19 + 1;
    lemma_power_mod_square_times(7nat, e19, n, x19, 0x2cf9afadeb7a00ced103f901067d578de235e68177daad5febbe7a39399e83e8nat, x20);
    let x21 = 0xc376405c6912ae80d8917f88af78df16611134d4f8be3268617e263cd2a0fe26nat;
    let e21 = 2 * e20;
    lemma_power_mod_square(7nat, e20, n, x20, 0x7749214e93ef90dbf5a71a3d69dcfbcbf837572c2d1f99fbb5905081f2bda19anat, x21);
    let x22 = 0xd41fbab55b4fd98be20666fdc4769d6e1af6945d3661419be8919fd72538eab5nat;
    let e22 = 2 * e21 + 1;
    lemma_power_mod_square_times(7nat, e21, n, x21, 0x414ad88b53e1b9ebb539862c45ac3dd2940b32955435880ed6f653d46ea984c07nat, x22);
    let x23 = 0x8b7f3a1c7863e4654e72881e2e48902f27415b4f2a55aa512375a8c60b412fb3nat;
    let e23 = 2 * e22;
    lemma_power_mod_square(7nat, e22, n, x22, 0xafc4912b1f5466d0a5d619f19974ec979896bdb09cd45efba6a44fafa03cbcc6nat, x23);
    let x24 = 0x67a0d97678810a42bb35883c7b5e661061e7860129f56d2e0ab7b6df42ced38bnat;
    let e24 = 2 * e23;
    lemma_power_mod_square(7nat, e23, n, x23, 0x4c036855a02cd6da71a9e0424e9ad42a38d23accde02cea47c5cf9c5a1913e1enat, x24);
    let x25 = 0x11c521dbfce58112df29d7cc36993092e7d81ef09a0744cc13c31b56b72b1712nat;
    let e25 = 2 * e24;
    lemma_power_mod_square(7nat, e24, n, x24, 0x29f2d40de1c886ac9922e81a345c70b9fc622cfb8784f0a7ef76a4b6c50c85a7nat, x25);
    let x26 = 0xd45197b3ebb53fab625ec14e46b386a5415b6677528227941c1ba74a9dc86e2nat;
    let e26 = 2 * e25;
    lemma_power_mod_square(7nat, e25, n, x25, 0x13bc64c58a4289afe755cbf2ef7e5b39dd322eab8bbfd192b1bf194842c5be2nat, x26);
    let x27 = 0x36faa605d047aee83a3a9e30ba50d656fa2258b14418fb4b8a5160b6295f9a46nat;
    let e27 = 2 * e26;
    lemma_power_mod_square(7nat, e26, n, x26, 0xb0173d43582518a96efaab0f0ff79d86b28253863a985630d4ed63156097benat, x27);
    let x28 = 0x54a5bc0c2e34e29e341c928f5668e230415f660dab8b1529a0a4c0a394b60afcnat;
    let e28 = 2 * e27;
    lemma_power_mod_square(7nat, e27, n, x27, 0xbceb37322e4940a5939061bac276f3bb3dba3f6a856f7706af056acc70a8e28nat, x28);
}

proof fn lemma_power_order_over_174723607534414371449()
    ensures
        power_mod(7nat, 0x1b07134f42e597994a25928e75887fca5ee37069dcb3fb40nat, 0xfffffffffffffffffffffffffffffffebaaedce6af48a03bbfd25e8cd0364141nat) == 0x54a5bc0c2e34e29e341c928f5668e230415f660dab8b1529a0a4c0a394b60afcnat,
{
    lemma_power_mod_first(7nat, 0xfffffffffffffffffffffffffffffffebaaedce6af48a03bbfd25e8cd0364141nat);
    lemma_power_order_over_174723607534414371449_part_0();
    lemma_power_order_over_174723607534414371449_part_1();
    lemma_power_order_over_174723607534414371449_part_2();
    lemma_power_order_over_174723607534414371449_part_3();
    lemma_power_order_over_174723607534414371449_part_4();
    lemma_power_order_over_174723607534414371449_part_5();
}

proof fn lemma_power_order_over_341948486974166000522343609283189_part_0()
    requires
        power_mod(7nat, 1nat, 0xfffffffffffffffffffffffffffffffebaaedce6af48a03bbfd25e8cd0364141nat) == 7nat,
    ensures
        power_mod(7nat, 0x1e5e6f23dnat, 0xfffffffffffffffffffffffffffffffebaaedce6af48a03bbfd25e8cd0364141nat) == 0x9fa74675b635156c78dcb488cccabe52abffb257b15b9269bba2baadf8fb1fd2nat,
{
    let n = 0xfffffffffffffffffffffffffffffffebaaedce6af48a03bbfd25e8cd0364141nat;
    let e0 = 1nat;
    let x0 = 7nat;
    let x1 = 343nat;
    let e1 = 2 * e0 + 1;
    lemma_power_mod_square_times(7nat, e0, n, x0, 0nat, x1);
    let x2 = 823543nat;
    let e2 = 2 * e1 + 1;
    lemma_power_mod_square_times(7nat, e1, n, x1, 0nat, x2);
    let x3 = 0x45160b7a437nat;
    let e3 = 2 * e2 + 1;
    lemma_power_mod_square_times(7nat, e2, n, x2, 0nat, x3);
    let x4 = 0x12a4e415e1e1b36ff883d1nat;
    let e4 = 2 * e3;
    lemma_power_mod_square(7nat, e3, n, x3, 0nat, x4);
    let x5 = 0x15b9a481b0422a2845e59b915589d992bd4e6cf90a1nat;
    let e5 = 2 * e4;
    lemma_power_mod_square(7nat, e4, n, x4, 0nat, x5);
    let x6 = 0x1d306199f4bf4b786fa4e0e8aaf68d712c0ed4a11ab6c660af77fc7891e01d85nat;
    let e6 = 2 * e5 + 1;
    lemma_power_mod_square_times(7nat, e5, n, x5, 0xce7e1472c7e2a87f214c2nat, x6);
    let x7 = 0xb5e5b7de46ce1d193aef87eff5299c15e1d82df27fe1b2a1376be3f7fa75d019nat;
    let e7 = 2 * e6;
    lemma_power_mod_square(7nat, e6, n, x6, 0x353ff41a06526e5044bea28bc49cf027cac148b44b425a5826dfc646de4d700nat, x7);
    let x8 = 0x16f421782fb35bfb2c6173b585b347a9807bd8894583eed927ca3c335aec48d3nat;
    let e8 = 2 * e7 + 1;
    lemma_power_mod_square_times(7nat, e7, n, x7, 0x388b67cf376f3b4db0dfc667acb4ff29e804e11945f15e0051d009f1feda51344nat, x8);
    let x9 = 0xb55bf92c0f24669e9a821e78074f784eec111d5b860482cd4e3a554be63ff242nat;
    let e9 = 2 * e8 + 1;
    lemma_power_mod_square_times(7nat, e8, n, x8, 0xe6815f353c1bd0c883fd011698f564fd47d1a6b63aad198d012617a71a8caddnat, x9);
    let x10 = 0x67045a91c86c6570653d3cbf5c39daf1bfec59a81ea42c58bd539d59cd937e7enat;
    let e10 = 2 * e9 + 1;
    lemma_power_mod_square_times(7nat, e9, n, x9, 0x3835e4bb7c4d4d632c1f08f28a0a3199a012c331dda3783a80d614b2c532d0b1enat, x10);
    let x11 = 0x1c7bceed42f28a414c2241c3d030305a4919abb06aad81b9b1cbd500ad18be57nat;
    let e11 = 2 * e10 + 1;
    lemma_power_mod_square_times(7nat, e10, n, x10, 0x1222f86addb2236af640d7fe4ee7082025ce9d11e07f3430e66f735e89b1f0585nat, x11);
    let x12 = 0xe95563a72cebc160ce5ebedd8edf1e0247b5faabc19f986c322e053c74418ee2nat;
    let e12 = 2 * e11;
    lemma_power_mod_square(7nat, e11, n, x11, 0x32b512465e616f2807dafcf7a5991e93e5101c0cc6a9a178f19eb77542407efnat, x12);
    let x13 = 0x6ea15e687fb37470c51cc9cad2ccb73fed4756d799489bc82cd973140c0ff00nat;
    let e13 = 2 * e12;
    lemma_power_mod_square(7nat, e12, n, x12, 0xd4ac8be1a393b47a9cfa91da752df5b0f7b516b28045ce3c0c2a1a2e68271b84nat, x13);
    let x14 = 0x353325b9809a24f64e4ea4d3ae0b8be10eb4ff5cef765c20b4142d14d9250a87nat;
    let e14 = 2 * e13 + 1;
    lemma_power_mod_square_times(7nat, e13, n, x13, 0x14ea983f3cffe419027cb7755689e15831637aad37a096f200ded8b9063ee39nat, x14);
    let x15 = 0x690c558109cf9e5aa658f786ab2afe8994763f9a1d79bfcf32aa04dadb25c5a9nat;
    let e15 = 2 * e14 + 1;
    lemma_power_mod_square_times(7nat, e14, n, x14, 0x4d6386e009097c32c0743be435e2308be9c300038b6477a2ae6ce3105523872enat, x15);
    let x16 = 0xd960ac1aeb88ef65e1caf8ff74c20afacdc6f02fd98cd27a9df0887828d5257nat;
    let e16 = 2 * e15;
    lemma_power_mod_square(7nat, e15, n, x15, 0x2b1b1ebbfab42cebf7ba9eba3f517eeef5d381575c7cf9f04a5e5df71b5d4ebanat, x16);
    let x17 = 0x9df221d59480fbe285a422e736407e2fef7fc6c30a1da76f0de6b6291ae5dd10nat;
    let e17 = 2 * e16 + 1;
    lemma_power_mod_square_times(7nat, e16, n, x16, 0x50c1339f22e64e334c3e3ae9b081e3d2911f118796eeedde1e150522bb4e527nat, x17);
    let x18 = 0x16d090c4057769fb7316a45f153aa610d87ddca0e488cd07521fc158db8e2cf4nat;
    let e18 = 2 * e17 + 1;
    lemma_power_mod_square_times(7nat, e17, n, x17, 0x2aa24319baef21f04695e875566d55f17a833d5c82aba13d9b943d48d62016b0cnat, x18);
    let x19 = 0x62b34993fe9f9a9bf6650e6fe092a486ea3b34ecd94ac89050c270b8d8afdfe7nat;
    let e19 = 2 * e18 + 1;
    lemma_power_mod_square_times(7nat, e18, n, x18, 0xe3b939cc95d9f8f0e19b5c0b337774aa3feb9aa5781f77b506957c3065060c9nat, x19);
    let x20 = 0xfb219b09e6fcab23e84c37042157ea7436928999920541cf5292a650943714d4nat;
    let e20 = 2 * e19 + 1;
    lemma_power_mod_square_times(7nat, e19, n, x19, 0x10a604d44ff6210615e52d6397b1f46aa74bb0b9c81964668fbfd146799635883nat, x20);
    let x21 = 0x29c0c8a4b619c60d91267d46b65e4ad308192ad12be8b1b2668cd4daba8fdd8dnat;
    let e21 = 2 * e20;
    lemma_power_mod_square(7nat, e20, n, x20, 0xf65aea6ec16602d48e33d840cef1235d414c8a78a4da3c87b8e6cdc62ad15e43nat, x21);
    let x22 = 0x2639ad4f0c2f512e84c9ca657d737ef4a11b0caeea6ff325d5b202a1c11cc2c3nat;
    let e22 = 2 * e21;
    lemma_power_mod_square(7nat, e21, n, x21, 0x6cf517256a72e9b84dbaa3e3fccd1d978a19739759f7dfc44bc93c7e09bbd66nat, x22);
    let x23 = 0x15ba4268b2d8883198735c68fa4e8450996a459657bc1410cffee172ca1e0f31nat;
    let e23 = 2 * e22 + 1;
    lemma_power_mod_square_times(7nat, e22, n, x22, 0x27f4371eb705d8570d7f676586a4b4139fbd03279614c19cd9e877d9c993830enat, x23);
    let x24 = 0x710d8f6b831178ad5e5fa9d99cbc3767e7caf6b6e4d178136bac70450a29906enat;
    let e24 = 2 * e23;
    lemma_power_mod_square(7nat, e23, n, x23, 0x1d81669beb590077e2e843def243ced930508deb850726ddfaacf91dcd57733nat, x24);
    let x25 = 0xa41c8ae093c5c702be61555ece757cd54cb0f4b0c63fc4ec57ecdbf8f04a253bnat;
    let e25 = 2 * e24;
    lemma_power_mod_square(7nat, e24, n, x24, 0x31ecf954cafa05e3a7737cb7ceb09b768a7e32d4340381e6fd4214c5e6830ec9nat, x25);
    let x26 = 0x7af4aa0694dd54fbfa59ea416963a4011fb7e9b160c0e8b988fe0ada70c8024bnat;
    let e26 = 2 * e25;
    lemma_power_mod_square(7nat, e25, n, x25, 0x6934951e69cc9e93367e50134b355c0035a50debe5d563daa38aacb94448d7cenat, x26);
    let x27 = 0xab3a983ba87c5438b4d2cc1ee4511d7a9aa0a248f81dca74125aa7d1adbd214bnat;
    let e27 = 2 * e26 + 1;
    lemma_power_mod_square_times(7nat, e26, n, x26, 0x19d62c333c7804d90154fa83eac7bd9f4bd0a52b2cfdf0066091ed2aca0654784nat, x27);
    let x28 = 0xbd2199e7e1afc68b1c9199daa06c85620e59a4cc2bd1b5db5decc0aae297ad24nat;
    let e28 = 2 * e27 + 1;
    lemma_power_mod_square_times(7nat, e27, n, x27, 0x321b3517f3c855fd0944fdffce5d1e3f298e3f8dc54f810d618ee4e3594e360ebnat, x28);
    let x29 = 0x1eace02d38a2362a45d6b1fdd6dfb9bd641ebe3b1a18cf8f23cd29fdff549387nat;
    let e29 = 2 * e28 + 1;
    lemma_power_mod_square_times(7nat, e28, n, x28, 0x3d21a6ba1fed909f666ddc7419a1b73bf188c231809f845eeda9571e2da7d14a9nat, x29);
    let x30 = 0xbfbc87f0ccb1b660b1acd782101964b63e717bd41a64084afc3c87fdc8aa37d9nat;
    let e30 = 2 * e29 + 1;
    lemma_power_mod_square_times(7nat, e29, n, x29, 0x19bad0fc38710458a69fe06a3791064e9f56f748cace4fb778028bc7c054c2fenat, x30);
    let x31 = 0x9c9e6f0522f072d3ac25092d8d226e103066acc7f9d7ecaeff68dab77b7a8cdanat;
    let e31 = 2 * e30;
    lemma_power_mod_square(7nat, e30, n, x30, 0x8f9addb1434dad8c06608629d93b940e560cfaebbfc24f332adf167d6aed3c57nat, x31);
    let x32 = 0x9fa74675b635156c78dcb488cccabe52abffb257b15b9269bba2baadf8fb1fd2nat;
    let e32 = 2 * e31 + 1;
    lemma_power_mod_square_times(7nat, e31, n, x31, 0x29eba51806b7b680e49c0f98fe44cef30a7d675b70b2b23c5d17bc5a11c5d8f2anat, x32);
}

proof fn lemma_power_order_over_341948486974166000522343609283189_part_1()
    requires
        power_mod(7nat, 0x1e5e6f23dnat, 0xfffffffffffffffffffffffffffffffebaaedce6af48a03bbfd25e8cd0364141nat) == 0x9fa74675b635156c78dcb488cccabe52abffb257b15b9269bba2baadf8fb1fd2nat,
    ensures
        power_mod(7nat, 0x1e5e6f23dc1597dcenat, 0xfffffffffffffffffffffffffffffffebaaedce6af48a03bbfd25e8cd0364141nat) == 0x5ceeb2d79e7157597bb19e16948996780fb3b7226f87d6dfd06b896f5bc74f81nat,
{
    let n = 0xfffffffffffffffffffffffffffffffebaaedce6af48a03bbfd25e8cd0364141nat;
    let e0 = 0x1e5e6f23dnat;
    let x0 = 0x9fa74675b635156c78dcb488cccabe52abffb257b15b9269bba2baadf8fb1fd2nat;
    let x1 = 0x2a698c7cca447896ca985eab49f614ede742d2b6383ad1b30bb1c7b7acccdc2bnat;
    let e1 = 2 * e0 + 1;
    lemma_power_mod_square_times(7nat, e0, n, x0, 0x2b8f87fc69123bd7a750de2794d47eaf0b33f4b9538043bbc46136031bf701071nat, x1);
    let x2 = 0x20118f2031168089f4c47b14feb2799fd76d7fb03b876d9c1eee4c229f8b3daanat;
    let e2 = 2 * e1 + 1;
    lemma_power_mod_square_times(7nat, e1, n, x1, 0x312f9f4e70d3d093057a72613bf1eea2f443af0a583d0258dbb6e03fc33cbea5nat, x2);
    let x3 = 0x51e1f726e0eeeb38437d66a76b7f1a7657d4bb7773191574dfe45acaf1b5a0e4nat;
    let e3 = 2 * e2;
    lemma_power_mod_square(7nat, e2, n, x2, 0x40464fc5e912003022781fd730a33e6c333c7127127b71a445c71395cf7d400nat, x3);
    let x4 = 0x210f4d00cbe3d1cac0c61efe062835de10fa4b11befe074a435c221cd4ee6fadnat;
    let e4 = 2 * e3;
    lemma_power_mod_square(7nat, e3, n, x3, 0x1a30c5dafb4aa0c7aa135ef1147c38646638ebce4bf5a6f77c1a9c51a2f90fa3nat, x4);
    let x5 = 0x1601c0b0acd24bd229be933fec7c8288400a880f2fb680d2e78dbe4e828fe500nat;
    let e5 = 2 * e4;
    lemma_power_mod_square(7nat, e4, n, x4, 0x444f2c451d21b708a0cbca19538aa27e2eb24fde9d45993a6edaf9b9b8002a9nat, x5);
    let x6 = 0x95b7d730b8e21186dc5e0e5d1c8882d9b219d624444239837797b3c96777900bnat;
    let e6 = 2 * e5;
    lemma_power_mod_square(7nat, e5, n, x5, 0x1e44d21701efbd63e5fd7064968fd8e09e0887157edd07dbd53410131750db5nat, x6);
    let x7 = 0x3c77c658b8cd45201383fc06937ce9f2651de8b69f9520b03212d634929f684dnat;
    let e7 = 2 * e6;
    lemma_power_mod_square(7nat, e6, n, x6, 0x578f848413c25b6d9f1164be5bd2f75c0e4a32490034daf21e9d0c78f3f2812cnat, x7);
    let x8 = 0x6bdda4d5293ff1edd005b75f98da3e9a1447a712edeeed6e3dc29693b8d2e855nat;
    let e8 = 2 * e7 + 1;
    lemma_power_mod_square_times(7nat, e7, n, x7, 0x63fa8b191f81baf8ccfa194c0384ceac8cddc8f7af598936d42f7b2bc70e8d4anat, x8);
    let x9 = 0x33442779ae8c19ecdd7cef3ceca077a1108b4004a8fbfcc3bbd586f1d6782860nat;
    let e9 = 2 * e8;
    lemma_power_mod_square(7nat, e8, n, x8, 0x2d7307b032a67afc1984c4e32599d0338f01e2854c4ee8a94f959b2851640499nat, x9);
    let x10 = 0x36841798f504db1787dce83a38c6b65490d2d1db9e9e81fb2af21d0285b0ce18nat;
    let e10 = 2 * e9 + 1;
    lemma_power_mod_square_times(7nat, e9, n, x9, 0x47dd951c57eff4731e08190828f7f63086704fafc416ff2d2f2e133417594be8nat, x10);
    let x11 = 0x2fdaa954bb09036be9dd3f70d2a0f3dd50702c7025a02b67dd5c6085785d275dnat;
    let e11 = 2 * e10;
    lemma_power_mod_square(7nat, e10, n, x10, 0xb9bfe1cdf4790da9d39ff95b256f5333d68ea4b93ceaefb6cf22653619fcf23nat, x11);
    let x12 = 0x3c8740a4c954c7e958d35377fe9eb705e768c4dfeca3756babb3e1b256c778enat;
    let e12 = 2 * e11 + 1;
    lemma_power_mod_square_times(7nat, e11, n, x11, 0x3e9e229d96e9d72c6535091bb8309b163c1c62eb1cf154bb00e8b0abc8df71b1nat, x12);
    let x13 = 0x334c73d9adf12fe9c8444bfc9f99ec53bb1063da3fd04f70b10a4474f3800eanat;
    let e13 = 2 * e12 + 1;
    lemma_power_mod_square_times(7nat, e12, n, x12, 0x642dc05167783b0c54a48fc9ddf27386272fb975735156a88f0850857bd3f2nat, x13);
    let x14 = 0x9e989d8148b539aebdd33302b4a811e41bd52e9693b11b3fca3ce119e6b5f7d6nat;
    let e14 = 2 * e13;
    lemma_power_mod_square(7nat, e13, n, x13, 0xa478cfdb8faabaaa2b94113dd72ed8a56d3f832f8b5c6cce0cdc23ffbac8enat, x14);
    let x15 = 0x1b99d1e2d427f2820516700bbcab17b6767cc2d301b7ec45adde8cd241ea3d0bnat;
    let e15 = 2 * e14;
    lemma_power_mod_square(7nat, e14, n, x14, 0x6240bd67002ddee0d5dd05712e7f3921d16f6c822326573e49f8a02fd10eea99nat, x15);
    let x16 = 0xa4403c84b9d86361cacfcb891d1a8ca76b5c5c61f601941d058880214eae05danat;
    let e16 = 2 * e15 + 1;
    lemma_power_mod_square_times(7nat, e15, n, x15, 0x14d4a6e0c9bb361299ac57821921be87753ddb8c643eb489ba8056682a15ed35nat, x16);
    let x17 = 0xf98807ad9bfa96059e85c268f0159cc18ab80511dcf123edf7271738019fc28dnat;
    let e17 = 2 * e16;
    lemma_power_mod_square(7nat, e16, n, x16, 0x69625da85ec8a77499666f23324617937d812f600e0ec72c72878f4afde8ce57nat, x17);
    let x18 = 0x8877f82f7c280d75d193d05904814cbe34cb51b00d06242e8447116e0312eb55nat;
    let e18 = 2 * e17 + 1;
    lemma_power_mod_square_times(7nat, e17, n, x17, 0x6a69552872ed30c7789e3c0acf9a09dfb40c325bdc43fa19ddf33b804c401e3canat, x18);
    let x19 = 0xa10592c5680e460ac62172ea5fd923565b22b90a99b31d86e37b86b878b6a10anat;
    let e19 = 2 * e18 + 1;
    lemma_power_mod_square_times(7nat, e18, n, x18, 0x1fd3dcf6de4b4224ada798be5c856dce8faf769279d298107861d5938c33df045nat, x19);
    let x20 = 0x9a52d1ca40b9d4440d00c5c267f0c5c32b2e9b4d7a53abba4a3277e6b35b8caenat;
    let e20 = 2 * e19 + 1;
    lemma_power_mod_square_times(7nat, e19, n, x19, 0x2c4f8131f893074fd2c8280e60f2699a96c9f35f19c9d1ac41643019d440f508enat, x20);
    let x21 = 0x53ed75c96e2f655537c9940ad220c05c5a85a270fad332f2ff694589cf99c78cnat;
    let e21 = 2 * e20 + 1;
    lemma_power_mod_square_times(7nat, e20, n, x20, 0x28b363a60d38a57546e319484160a34327378ecc92387187d502f3688dff54050nat, x21);
    let x22 = 0xa3dd82b89b4f8ccd789c8c6e2c3a4574c4c8eba2756c504cc66c51e3f8c8af30nat;
    let e22 = 2 * e21 + 1;
    lemma_power_mod_square_times(7nat, e21, n, x21, 0xc09ade7b6a3968b6e90e854e167724765323903a733939d31f22c20297e710c0nat, x22);
    let x23 = 0x248b6b4f117accb1d2558f1430e12c64fbabe9c11e24352ebea8b75ab22bb385nat;
    let e23 = 2 * e22;
    lemma_power_mod_square(7nat, e22, n, x22, 0x68e3d4220b4377832dee1c342683b7db987ef1bd16fc3be617fe95af92e78bbbnat, x23);
    let x24 = 0xcf72f213f0c2917347848c2f53a15feed66d419e42c33d3eba4ee6bff25177fbnat;
    let e24 = 2 * e23 + 1;
    lemma_power_mod_square_times(7nat, e23, n, x23, 0x24848ec39c52f9b1347cf7bc3a3d3b58d65f29d910cbcdd7346fb78fa4667cb4nat, x24);
    let x25 = 0xa606911b43b8d50b8c9c4c991f85f0259ae8cafc858d62f380d8f1b796bf8c42nat;
    let e25 = 2 * e24 + 1;
    lemma_power_mod_square_times(7nat, e24, n, x24, 0x498bda1ad322f80bc2266e1bea6f330b90ddfa43ead20e9c5a79f3ff22cb92c2dnat, x25);
    let x26 = 0xf3fefad1ea30c9c6e7af06b8d852767909922748added204cfc66edec727731fnat;
    let e26 = 2 * e25 + 1;
    lemma_power_mod_square_times(7nat, e25, n, x25, 0x2f1b79e795f7b6e09e5f91575291ab312b7aee51374804db3fdd04e979b1767bdnat, x26);
    let x27 = 0x320d519f31c32f617685fe592ec731aee45f9ca3cac8e4c19db60586db3f69cdnat;
    let e27 = 2 * e26;
    lemma_power_mod_square(7nat, e26, n, x26, 0xe88e0e2130e40167868933884f909d28cbac389fa224cffa21db33fe6b4ec2f4nat, x27);
    let x28 = 0x1efb9bdbdf0c277dd4be94e3cfc57420ce9b95aa2c541b925420e9a19ae15bd2nat;
    let e28 = 2 * e27;
    lemma_power_mod_square(7nat, e27, n, x27, 0x9c9349393a16cd1404f35fd3759bc256ddd48444254d9f884bbe439a3dbb597nat, x28);
    let x29 = 0x4efecae85dd6c69d423b972141ebb020e9662cc1f9543efb753627181cb45ee5nat;
    let e29 = 2 * e28 + 1;
    lemma_power_mod_square_times(7nat, e28, n, x28, 0x1a3f8ec1ba3f883134efc0518e3d0ffcab1ca8f69b2065d5dff545db4f88e637nat, x29);
    let x30 = 0x52b0607f1ec68709a11b543d15f5c0359a9e03e4ff893e06f150559fedb3a596nat;
    let e30 = 2 * e29 + 1;
    lemma_power_mod_square_times(7nat, e29, n, x29, 0xaaa1c8aa19c8539dcec39ac432a58cc0fc14ea6a54125f2316ff7a06f7c78919nat, x30);
    let x31 = 0xba259db32e57ec527db80ec8227c4401c47983a74355d2445f2c07fff645c816nat;
    let e31 = 2 * e30 + 1;
    lemma_power_mod_square_times(7nat, e30, n, x30, 0xbaf6435bd42797d208d38ebd17b096ed3b5c2e233a38add2634907f2b20b13a6nat, x31);
    let x32 = 0x5ceeb2d79e7157597bb19e16948996780fb3b7226f87d6dfd06b896f5bc74f81nat;
    let e32 = 2 * e31;
    lemma_power_mod_square(7nat, e31, n, x31, 0x875aaeaf56486d13ddbd2d5ec8e47bb5a6897d60531179c62f5f26964f6406a3nat, x32);
}

proof fn lemma_power_order_over_341948486974166000522343609283189_part_2()
    requires
        power_mod(7nat, 0x1e5e6f23dc1597dcenat, 0xfffffffffffffffffffffffffffffffebaaedce6af48a03bbfd25e8cd0364141nat) == 0x5ceeb2d79e7157597bb19e16948996780fb3b7226f87d6dfd06b896f5bc74f81nat,
    ensures
        power_mod(7nat, 0x1e5e6f23dc1597dce0dd28118nat, 0xfffffffffffffffffffffffffffffffebaaedce6af48a03bbfd25e8cd0364141nat) == 0x38726d2ec2c1dd4554770b89b8911ca040ff8a7727ad5d203e4f48c6146f4ee3nat,
{
    let n = 0xfffffffffffffffffffffffffffffffebaaedce6af48a03bbfd25e8cd0364141nat;
    let e0 = 0x1e5e6f23dc1597dcenat;
    let x0 = 0x5ceeb2d79e7157597bb19e16948996780fb3b7226f87d6dfd06b896f5bc74f81nat;
    let x1 = 0x81a5b327b66bb9a3a5b09f78603a3ed93555ea78cca7d1150c87ac12079ca408nat;
    let e1 = 2 * e0;
    lemma_power_mod_square(7nat, e0, n, x0, 0x21bc6f1bffbc9f77dd32ea33a06a67c277bf6098e06108e261f9a26acd0553b9nat, x1);
    let x2 = 0xe467ec4b7146e1d3f51070aff721b7c1b12797ee34aa081ef4b0de034a656217nat;
    let e2 = 2 * e1;
    lemma_power_mod_square(7nat, e1, n, x1, 0x41a869ce746a4737f65a593fc1fb3e252ce953486c17265136039116eadafae9nat, x2);
    let x3 = 0xc7c93600ba18e6f0e6dcf8dbf489bc9da647721340e52b20b063b31eb40b0f9cnat;
    let e3 = 2 * e2;
    lemma_power_mod_square(7nat, e2, n, x2, 0xcbc9471660969861871b40f96aac2ff29f1f725e28ad2c62d3e29e1a9de60c35nat, x3);
    let x4 = 0x55fd60ad6c76c0de0bab745fe2a218e0c5de08ecd460f11ce9c2c142cb5a2b8enat;
    let e4 = 2 * e3;
    lemma_power_mod_square(7nat, e3, n, x3, 0x9bea701af9db40a835ebe54c258b1347300c6233c118ec75d883d689df2db902nat, x4);
    let x5 = 0xc04fe7fd6b904654539a6f0bbffd3ae4bfb3bf258de0324eebec45c67c18a7bcnat;
    let e5 = 2 * e4 + 1;
    lemma_power_mod_square_times(7nat, e4, n, x4, 0xca2faadfc53c676a8c35cbf4702e4bda7f62a231bc1e85fafe090579f1a9e3a0nat, x5);
    let x6 = 0xc67dc91e965277675e6deef083b37b295b28db1dac2a0568bd3c1fdb1abb731enat;
    let e6 = 2 * e5 + 1;
    lemma_power_mod_square_times(7nat, e5, n, x5, 0x3f347b27bede4dcaa59268ec49abcdacfe98604265d947421b095e39e129dc4d2nat, x6);
    let x7 = 0x7d6a785e484dce09d7b04d3916bfa746b1719065fea165fa1bfc58df3c25ae94nat;
    let e7 = 2 * e6;
    lemma_power_mod_square(7nat, e6, n, x6, 0x99e6d0e9566768f1941d51f7fe2684eff84a5401aee54139a9b1bdfe6cf21cf0nat, x7);
    let x8 = 0x3a00c16af7699eeae00d763455c7b8afa0f4b8b8ecbfbd5501c78ee27adb343anat;
    let e8 = 2 * e7 + 1;
    lemma_power_mod_square_times(7nat, e7, n, x7, 0x1ae1808cbd0faaf0c808844bf9108f439fb1868fb426deada2a92b012ee1eef36nat, x8);
    let x9 = 0x99e0698a1576a376c4311967f70b9f819ae88e09342d53c2d45aec5c6ab608denat;
    let e9 = 2 * e8 + 1;
    lemma_power_mod_square_times(7nat, e8, n, x8, 0x5bfe658347b43c4a8c0ddaf1c572d6f551fdcd4126e0ff0be39f6130565abd9enat, x9);
    let x10 = 0x7813cdee50c2a6e28ba55955c720d4eeb8bcc9cff7a1766bd64c8cf30d868d58nat;
    let e10 = 2 * e9 + 1;
    lemma_power_mod_square_times(7nat, e9, n, x9, 0x28772141f6baf89ab730c8b85cb71eac9f09f47c7c80a08874e44e7a58cfd4144nat, x10);
    let x11 = 0x7cb2d72030a1c49ea6c5f8644ba7c86876e0a0f1140880c02c20b9e149fdb561nat;
    let e11 = 2 * e10;
    lemma_power_mod_square(7nat, e10, n, x10, 0x38529297a2be048b2b3b1b7d195d66eed4b59d440c180037f0fd6c90f62bf21fnat, x11);
    let x12 = 0xdb15487defe0847235d203f496642af9b38fcad79d001aadef7f155800b9d9benat;
    let e12 = 2 * e11 + 1;
    lemma_power_mod_square_times(7nat, e11, n, x11, 0x1a9302d615893fc2d38e2d5bc6217784aca8d9c323b5964bb66a1a77f02753249nat, x12);
    let x13 = 0x31cde2e6a7d4e909c9cf0924a08e6dd97b2159b71bf8a1178ab7495878002cc0nat;
    let e13 = 2 * e12;
    lemma_power_mod_square(7nat, e12, n, x12, 0xbb7d6bcc719a92538f58b93d1da3ccc895b6282135ead07939a568ad74e56744nat, x13);
    let x14 = 0x44c0533642e4a8ee2fd89bec7a06ed68a0be82722751301ec1a1ad12bede1231nat;
    let e14 = 2 * e13;
    lemma_power_mod_square(7nat, e13, n, x13, 0x9b076717ac45c58e4fdf61a67edf204d2114453150cbd5dca9083fb6fe0eb0fnat, x14);
    let x15 = 0x157404d13aec3ec6e506960ed31fb43bdea88e1cfc45bf9bcd816a8655170b7enat;
    let e15 = 2 * e14 + 1;
    lemma_power_mod_square_times(7nat, e14, n, x14, 0x813f28dc3fd65147734ad238331fb2591e21cba594b2bee254ea37dc61c68ee9nat, x15);
    let x16 = 0x1e27a05a7ec3a2c1663c8041875c180576bf91cdda94b951350a01b531c14911nat;
    let e16 = 2 * e15;
    lemma_power_mod_square(7nat, e15, n, x15, 0x1cc3d5eb15f5d3e2b1740f6836634b4893c2a836158f3966d35cf7d30ac8933nat, x16);
    let x17 = 0x57b2e0b554c0c5621a1b2d99f2ac74d32e0e7868ff1ffc715cbfd645a70c688dnat;
    let e17 = 2 * e16 + 1;
    lemma_power_mod_square_times(7nat, e16, n, x16, 0x18dd2e0438140963de9cc1efbd10f632d1b0768386cc8f8ae74f3544a6c1ecdanat, x17);
    let x18 = 0xa9c588a4690984333a4fc1efea2972f9c704d44a92116bfa643f0e32776b0e5enat;
    let e18 = 2 * e17;
    lemma_power_mod_square(7nat, e17, n, x17, 0x1e0b11b88102b6fd783ca3e393bbb4105b4ac9288c747bd0271402e97161218bnat, x18);
    let x19 = 0x3fd21019dbabfffca19b3e9904f18d762065a5da53b3d2e00e60d41c60755987nat;
    let e19 = 2 * e18;
    lemma_power_mod_square(7nat, e18, n, x18, 0x709666d4a8a75261f595ab33485ce6de558b63ce8603dd13609a688d5b81e4bdnat, x19);
    let x20 = 0xf0d1236b0144d90cd32236891af5f409b49c5b58ab4777f1dd66ec9bd274895cnat;
    let e20 = 2 * e19;
    lemma_power_mod_square(7nat, e19, n, x19, 0xfe9104b258e4c40761ada973399202ebc121ad7f5de75d32948bae6a4336195nat, x20);
    let x21 = 0x836fa518beea8f0dd55ee32cf19d79fd760af4371a613470dc86e4ee3110903anat;
    let e21 = 2 * e20;
    lemma_power_mod_square(7nat, e20, n, x20, 0xe288cd437bff987555b972c8186b70561989689b9f0e847d3e58ff6aaa74dd56nat, x21);
    let x22 = 0x4e9ef4312dbaca2a9a067697047b7dc94f07709b52a7ffb590650b5161c1b610nat;
    let e22 = 2 * e21;
    lemma_power_mod_square(7nat, e21, n, x21, 0x437b73a7e952864eed21cfafb0d69919373a10eedda6c607bf0ce78c1cc4fe14nat, x22);
    let x23 = 0xf41e3bb7ed4b94bfb1a33b4638a3ed51303ad443f4ea4246804a9a73914ebf96nat;
    let e23 = 2 * e22;
    lemma_power_mod_square(7nat, e22, n, x22, 0x18253f804d800e621d7fdd87116368afb359dd5deb432324510d827602015ceanat, x23);
    let x24 = 0xb20cecb084a821db057477cde34116e0ebd18ff84d23ba1fba236d0b0ffd61b3nat;
    let e24 = 2 * e23 + 1;
    lemma_power_mod_square_times(7nat, e23, n, x23, 0x65d8385dca1ade987a4e5ee76b373c77cd17de07ba3a7d274733a6c996a26b649nat, x24);
    let x25 = 0xe1275fa497421a6cc9eedc0c55bd4bfd38a3ecf673f41eb26fac71b92599538cnat;
    let e25 = 2 * e24;
    lemma_power_mod_square(7nat, e24, n, x24, 0x7bd5f9cc83dc2d246a76aa1219ed9f37f2eccb43028927061ed933314d165b5dnat, x25);
    let x26 = 0xc8ec335a473de1cc56099ce9c08958042b2d2526775d16659187439da1229ca8nat;
    let e26 = 2 * e25;
    lemma_power_mod_square(7nat, e25, n, x25, 0xc6063c2d99c3daac7dc90b14b4de24b1225207f6f9fc300d8e12f50739f415e8nat, x26);
    let x27 = 0xb6712f9fbaac7cd4e0d1d7cd3a3d332a6d133418db6293654e44e39722e8c8enat;
    let e27 = 2 * e26;
    lemma_power_mod_square(7nat, e26, n, x26, 0x9db1ea2bc81123206a7b370f995c35c83f6fe9aa897232c5c797ab46e84a2332nat, x27);
    let x28 = 0x41a54c0cfae999dbc9146299f7ae89ee4001fcb3ead84c69ae0c8583814f6f26nat;
    let e28 = 2 * e27 + 1;
    lemma_power_mod_square_times(7nat, e27, n, x27, 0x38e23ec4f5914a7d37ab838ddb68c9e53053675a62ca25c941b7bdc3d6284b6nat, x28);
    let x29 = 0x7bf127ab506ad831c5dbda93bc1f25dba4124a8aaaf7d3a175f7d48201dfe40nat;
    let e29 = 2 * e28 + 1;
    lemma_power_mod_square_times(7nat, e28, n, x28, 0x75d57f73ff307043e440f0149dea0cdb9dd3597e742e9e0894df239f4e980a3cnat, x29);
    let x30 = 0xa0652696e60f28f18ae017a895a1a5d28fa2e5a5c94b1ea0119cafde41430000nat;
    let e30 = 2 * e29;
    lemma_power_mod_square(7nat, e29, n, x29, 0x3c019f4a55f9ba0ff7b6bc79acb26ff322756821913683d76df63d9aac1000nat, x30);
    let x31 = 0x7cdaf5f45db72aa6ce8a975809cb36c6b588673f5513cbc9056141ccf09b39a5nat;
    let e31 = 2 * e30;
    lemma_power_mod_square(7nat, e30, n, x30, 0x647e98341875a06324daa126841736e26155f2cbdb5f1426c2da0f6bf1b6449bnat, x31);
    let x32 = 0x38726d2ec2c1dd4554770b89b8911ca040ff8a7727ad5d203e4f48c6146f4ee3nat;
    let e32 = 2 * e31;
    lemma_power_mod_square(7nat, e31, n, x31, 0x3ce4d98c8b46b1e99b4934013cf3b24c0ce80dd92b26fc6e2d145b1d0aeda1f6nat, x32);
}

proof fn lemma_power_order_over_341948486974166000522343609283189_part_3()
    requires
        power_mod(7nat, 0x1e5e6f23dc1597dce0dd28118nat, 0xfffffffffffffffffffffffffffffffebaaedce6af48a03bbfd25e8cd0364141nat) == 0x38726d2ec2c1dd4554770b89b8911ca040ff8a7727ad5d203e4f48c6146f4ee3nat,
    ensures
        power_mod(7nat, 0x1e5e6f23dc1597dce0dd28118be19e268nat, 0xfffffffffffffffffffffffffffffffebaaedce6af48a03bbfd25e8cd0364141nat) == 0x497ed49eb531603f0dc1da03e52c35bbed450f10ffda3195d1d2f7c26b55777fnat,
{
    let n = 0xfffffffffffffffffffffffffffffffebaaedce6af48a03bbfd25e8cd0364141nat;
    let e0 = 0x1e5e6f23dc1597dce0dd28118nat;
    let x0 = 0x38726d2ec2c1dd4554770b89b8911ca040ff8a7727ad5d203e4f48c6146f4ee3nat;
    let x1 = 0xeb74d8ece1665853b4f4119ccbf4a3d92c338aec101fb0c6add537b0bf9c158bnat;
    let e1 = 2 * e0 + 1;
    lemma_power_mod_square_times(7nat, e0, n, x0, 0x571fd46529eddefd68bbdc9f06bcf62926041b9ae2c5adf1041b994fe41ea674nat, x1);
    let x2 = 0x6977c2b69a5a415e3aad739b8f48734eac429e767edd65b23884ad7edca91193nat;
    let e2 = 2 * e1;
    lemma_power_mod_square(7nat, e1, n, x1, 0xd88fbb98344ec276ca494164f987ed0570744768407b634797a62d4a38270866nat, x2);
    let x3 = 0x389e2f1b38571ed20b9507087628acf7777ce3a9e5c1ecf6c5559ba7bb49181anat;
    let e3 = 2 * e2 + 1;
    lemma_power_mod_square_times(7nat, e2, n, x2, 0x130283842bf5ba00cdf752c4d9ed206c61d3367f8e76cd24c37b5408b51fa7a85nat, x3);
    let x4 = 0xe4e9c859dca05e11588e46303d9bd5eb493a632e2e932aec066650f855b6176nat;
    let e4 = 2 * e3 + 1;
    lemma_power_mod_square_times(7nat, e3, n, x3, 0x57a71c76a06aaa3c070b7b11d5e67d56c309bdabf3e2166b8feb7bc2c5e96986nat, x4);
    let x5 = 0xa9fc894880a3c894d827ce3eede99c61128557e40866dbc1e7136aed78e90fbfnat;
    let e5 = 2 * e4 + 1;
    lemma_power_mod_square_times(7nat, e4, n, x4, 0x598d8d094a990923ef5981c05ba35287909032eb56214395c0f9c64093e34bdnat, x5);
    let x6 = 0xf056dcba0bff70ede2e7f82193e185bea1289767c3aacb6100642d90d45b18d5nat;
    let e6 = 2 * e5 + 1;
    lemma_power_mod_square_times(7nat, e5, n, x5, 0x3161bcca2076d4c7b4b3117da7a0f319016625f051719156761c6f61c4f2abc32nat, x6);
    let x7 = 0x922ade305f6e73f8b3219eaec32bb4ec2395e70a480e4e03b6c3c29689809831nat;
    let e7 = 2 * e6 + 1;
    lemma_power_mod_square_times(7nat, e6, n, x6, 0x62b74df592cab2a60b5e22b88f05c58291b5ef4b0a36f9e9b32add6d6f6e8badenat, x7);
    let x8 = 0xb0cd2c31a8cf1b8a78155a61079bf364edddb3430a53e54e8eb06b95e0a0f090nat;
    let e8 = 2 * e7;
    lemma_power_mod_square(7nat, e7, n, x7, 0x5374ec9cd5913b2d380f1db356fec7f3f4649aeceb3e68208bb59eb797269391nat, x8);
    let x9 = 0x676755048e01e61dc41d04ac66b4e9343949718c52eb632a5403cf8328e641f7nat;
    let e9 = 2 * e8;
    lemma_power_mod_square(7nat, e8, n, x8, 0x7a1ac13417463d39c0f24e74c39b4b936a8f40d2a47916f8a09e205676f713c9nat, x9);
    let x10 = 0xaa1562a3fc1cf9731f8af2b574b822bada0ebc0244c5d690a60e58811b6de23nat;
    let e10 = 2 * e9;
    lemma_power_mod_square(7nat, e9, n, x9, 0x29c4501f302bd3152168399284081416b0356ae1ea0ed4d518dd9794ee4f24aenat, x10);
    let x11 = 0xb8c98c5cd5b6713dbd6e076ca5f8b7a55aee5db8fa6943f8a8fb5ab45fa06fd6nat;
    let e11 = 2 * e10;
    lemma_power_mod_square(7nat, e10, n, x10, 0x710068cb1fbfce1f06f2924787e75022054a019b202b367ab61295614a0933nat, x11);
    let x12 = 0xa3d2849bccf86433fa048dc38d1a9a4b1b8943600924514835de3e67ac28363nat;
    let e12 = 2 * e11 + 1;
    lemma_power_mod_square_times(7nat, e11, n, x11, 0x3a5b06b2625a8aed2f8959458028253b8a955c8d12038616aefd33f7821172d99nat, x12);
    let x13 = 0xbb4f62fd3356d42bca72369d61dbf032ace9416b97ec9bf928c7c3d83f0ef18cnat;
    let e13 = 2 * e12 + 1;
    lemma_power_mod_square_times(7nat, e12, n, x12, 0x2ddd84de59f3b6934193a2e57544b23936b6da34aac89930d71b20ba574b8b3nat, x13);
    let x14 = 0xd6ac69d26690e0bd6806b4b1e01f1cb2557bc936c70f4fb5fc87c80b454f8bc4nat;
    let e14 = 2 * e13;
    lemma_power_mod_square(7nat, e13, n, x13, 0x890d133c278d5f4beb2669d1e9983df2fa52ed007dc339ae00c0293d38ce19ccnat, x14);
    let x15 = 0xb870060b1e7efe87888b11c97e93dfe175f33a4187c09339c3b3aed7f486a6a4nat;
    let e15 = 2 * e14;
    lemma_power_mod_square(7nat, e14, n, x14, 0xb404b50a21f24f79ef92da44e639ed2e5afeb12a9ab5a789c6d550f72c8c406cnat, x15);
    let x16 = 0xd2101ee1079a9f0ef029e3a87472bb8068b51df7eb094340e5bea21585faa9e8nat;
    let e16 = 2 * e15 + 1;
    lemma_power_mod_square_times(7nat, e15, n, x15, 0x3a22893f4e7f8546de9735fb166bbb9b537f04db93da87d10b7dd8a7e80d09b88nat, x16);
    let x17 = 0x9a364d2f78deead0fde0a3c4e9e505b9652ce04802a9d52d9235d9178900dd4anat;
    let e17 = 2 * e16 + 1;
    lemma_power_mod_square_times(7nat, e16, n, x16, 0x4b69529bb724cfb18fa4da19ba732bbebe992eca0d9128011b3e43dd857c3def6nat, x17);
    let x18 = 0xbf081d987964ce42624d03e8e312787b4a71dc66812a10037ef28064820c1d24nat;
    let e18 = 2 * e17 + 1;
    lemma_power_mod_square_times(7nat, e17, n, x17, 0x28a45a2ac610d787f788d6c9eb76b2ebf05b27577f28f829c648e1c314bbf9698nat, x18);
    let x19 = 0x85e87ec351ccc32a61d9d6774e2d517980eef15475b43a3cd2c5687a859fc071nat;
    let e19 = 2 * e18 + 1;
    lemma_power_mod_square_times(7nat, e18, n, x18, 0x3e5dbc6efaea75ac42bd666f75ae9a78834a055e074c06e27e08f058243976c3fnat, x19);
    let x20 = 0x3c3934788c17f597830e9703735a85bad918a98a4698223fcf5b8d39c4288638nat;
    let e20 = 2 * e19;
    lemma_power_mod_square(7nat, e19, n, x19, 0x460b66dcf3c7df770eaff5d8a2b4587d65aa929478055abf1a2d5d6eef1c6869nat, x20);
    let x21 = 0x5e7c6a86e53ec98cde9457038204973d5e3960f4d02a77f3752f881d53e04b5fnat;
    let e21 = 2 * e20;
    lemma_power_mod_square(7nat, e20, n, x20, 0xe2add60ea1acf77c1cd356d6ccfa368d44ed92757bf1a4b392aeec296e297a1nat, x21);
    let x22 = 0x5af73e853273959b7da688e71b5d6dbef3c50695c7ff061670d843913fb95f40nat;
    let e22 = 2 * e21;
    lemma_power_mod_square(7nat, e21, n, x21, 0x22df9ab26f5c2dc37dd99b62ff5b096b3bbaf9a9a327766c1f9cbeef10453cc1nat, x22);
    let x23 = 0x425b2c1a341fd90dcc6586f383e6005cc13be87ac721b30141cea336c6e4a75enat;
    let e23 = 2 * e22 + 1;
    lemma_power_mod_square_times(7nat, e22, n, x22, 0xe2436f3b8265e5d24e55c6b6c163048ce77f1b9fd2b5eefb05d32fbd1d951e22nat, x23);
    let x24 = 0x150206a4426cddfb0fb7d21fdf0b3cf9439fbc3c41570890c35a8f1c7629a071nat;
    let e24 = 2 * e23;
    lemma_power_mod_square(7nat, e23, n, x23, 0x11332335e51a7f2900e572f7d08ea12e27217c80a3a081cb55eb34581cbd7e53nat, x24);
    let x25 = 0xc2f11d8efef025b1eca97ad93d6c3397be4d3257156d19d7a02c39a5b6f9c5d4nat;
    let e25 = 2 * e24;
    lemma_power_mod_square(7nat, e24, n, x24, 0x1b9551b0da302a0efa0e682c4e18645168e03f94ff795abb94b66e8687dabcdnat, x25);
    let x26 = 0x505ba5c3591bc18da6296bfc69924128db1092116920911f15b171c016b5769bnat;
    let e26 = 2 * e25 + 1;
    lemma_power_mod_square_times(7nat, e25, n, x25, 0x40f204b45c343c86c07aa109ae140c73a56880dc360621e8ade104f4e455df415nat, x26);
    let x27 = 0x4970aec0c03afb85edef038733692d7d1655b6de8e124ed1ba05098c3e1f5a4fnat;
    let e27 = 2 * e26 + 1;
    lemma_power_mod_square_times(7nat, e26, n, x26, 0xb091dae18358ac738182899ba86b9a73d26418154684d8e224c714bd412c2aa0nat, x27);
    let x28 = 0x64f731e3cdc4c5cb7c26827f1ec2603fedb0e40078e5d3bddf8938aa770f47f6nat;
    let e28 = 2 * e27;
    lemma_power_mod_square(7nat, e27, n, x27, 0x151175434d946d7f8d9e605bd5a648e5855acf70cd703439c22f58ad629946abnat, x28);
    let x29 = 0x21f19f357e78949402f54940241ed880b3ce14ad95f56bd506011298f0bbdb1dnat;
    let e29 = 2 * e28 + 1;
    lemma_power_mod_square_times(7nat, e28, n, x28, 0x116be5faef87c920bd21d74cbddcb3df584d29f6119056f30f79f2eabdcf9f0dfnat, x29);
    let x30 = 0xf511a551b3797af9d5368a16bf28e7511161a9cb00c71792d87c521efd7cbb5dnat;
    let e30 = 2 * e29;
    lemma_power_mod_square(7nat, e29, n, x29, 0x4802f18f056b39d4c691ab9b289aa60f4232f150ad60b2ec05e129c841a3eecnat, x30);
    let x31 = 0x3fd95704a0535674b5f9a037543141680c97bd9f422c950d9ef27b8301f2ddf9nat;
    let e31 = 2 * e30;
    lemma_power_mod_square(7nat, e30, n, x30, 0xea9ac7a5c122c6f23081b01df6d748b38a58fe464050a5527665453685dcddd0nat, x31);
    let x32 = 0x497ed49eb531603f0dc1da03e52c35bbed450f10ffda3195d1d2f7c26b55777fnat;
    let e32 = 2 * e31;
    lemma_power_mod_square(7nat, e31, n, x31, 0xfecb158ea54f6e40f33ac9544483e42792acdfb7af1d23222145c3a941e2632nat, x32);
}

proof fn lemma_power_order_over_341948486974166000522343609283189_part_4()
    requires
        power_mod(7nat, 0x1e5e6f23dc1597dce0dd28118be19e268nat, 0xfffffffffffffffffffffffffffffffebaaedce6af48a03bbfd25e8cd0364141nat) == 0x497ed49eb531603f0dc1da03e52c35bbed450f10ffda3195d1d2f7c26b55777fnat,
    ensures
        power_mod(7nat, 0xf2f3791ee0acbee706e9408c5f0cf13469440nat, 0xfffffffffffffffffffffffffffffffebaaedce6af48a03bbfd25e8cd0364141nat) == 0x592a73761fa095b18dcf32c13d40372d4908984e087f82baf254d80d75883b49nat,
{
    let n = 0xfffffffffffffffffffffffffffffffebaaedce6af48a03bbfd25e8cd0364141nat;
    let e0 = 0x1e5e6f23dc1597dce0dd28118be19e268nat;
    let x0 = 0x497ed49eb531603f0dc1da03e52c35bbed450f10ffda3195d1d2f7c26b55777fnat;
    let x1 = 0x8fbdacd3f02b6263b28154913e79916b780cb8f4c3da950e0de12393142e8a1cnat;
    let e1 = 2 * e0 + 1;
    lemma_power_mod_square_times(7nat, e0, n, x0, 0x93b30cab81165be87f9d59ca2ec9bc30e55af51b172dd5b41c9120704f8cf72bnat, x1);
    let x2 = 0x1d02297fe985a0964fa9cf2d1dc46fc8b0321f1d8ab6652f4bba79341ed04ad7nat;
    let e2 = 2 * e1 + 1;
    lemma_power_mod_square_times(7nat, e1, n, x1, 0x234f6294df385ff2b2fbf246629a511eddc704745cdf8e2b778658f132dbcab59nat, x2);
    let x3 = 0x417e5176b2ef19b2137c5d62fe8fceef624071be5d469586dcfa0cfd56e07e2bnat;
    let e3 = 2 * e2;
    lemma_power_mod_square(7nat, e2, n, x2, 0x3497d6ba7a2252ee56fb650c2391818cbc2927eb69db5001f1feb76c9e762e6nat, x3);
    let x4 = 0xb388b8d0623671e2b83134bebd6753ebcf8754eccdb10be1a93356c90101e016nat;
    let e4 = 2 * e3 + 1;
    lemma_power_mod_square_times(7nat, e3, n, x3, 0x7549b9e1fb6d32c54e9095b8687b95432b090168f99f8b9d03ced6500f815739nat, x4);
    let x5 = 0x6e5047fe554b8ccdef49983e8b020d740736d779633ea37552a1b2ca279c02cnat;
    let e5 = 2 * e4;
    lemma_power_mod_square(7nat, e4, n, x4, 0x7de87b784c2cb3ea10553802a6a4f3e754c273be305856bb0597c303b7f81bb8nat, x5);
    let x6 = 0x1edce269f077b3b57794e587f0dae3d07da8a5fd09859dfa7f2ee51dd45b2a7bnat;
    let e6 = 2 * e5;
    lemma_power_mod_square(7nat, e5, n, x5, 0x2f89170ba4814c3640c9b2031e0c69a9adaa589d02193d679c8ed392c412d5nat, x6);
    let x7 = 0x86957270e27695db6e2233e4622d2efeb65ec7d3183f8b0a190d2bce9c6a217bnat;
    let e7 = 2 * e6 + 1;
    lemma_power_mod_square_times(7nat, e6, n, x6, 0x1a0b998f52d40de9450c5c6f3814734f2ddbeeb0bce421569b7914601647ff34nat, x7);
    let x8 = 0xf402fe3dd9f2b8801d0d047433cbec563b3c2b2a1e0879891939c38aff6d6c6cnat;
    let e8 = 2 * e7;
    lemma_power_mod_square(7nat, e7, n, x7, 0x46c0cb0c97a47e64b64a27c03f3d7a825ce9001fe2c8f790ee8f28fd8b4abc6dnat, x8);
    let x9 = 0x7ed2732e4ef859ef1050494e0b63da84e98d516de2e7544a8a6fb5e76e897dadnat;
    let e9 = 2 * e8 + 1;
    lemma_power_mod_square_times(7nat, e8, n, x8, 0x65c17f0c80a7a34845f0da42e863597565d7b9645a0ec8a9d0c2148f2942dfd83nat, x9);
    let x10 = 0x6b7602b7ce41ff7dc5df1aedc437d70538cd9ba509a36af285115c78817cab7anat;
    let e10 = 2 * e9;
    lemma_power_mod_square(7nat, e9, n, x9, 0x3ed3d662c188ab4e7aaf2e2f22b0120656154306c4c09b9a8241650c74e120afnat, x10);
    let x11 = 0xca377d80c55e1672b250ed4474761726cea3cbc262330aa8de49550192c53169nat;
    let e11 = 2 * e10;
    lemma_power_mod_square(7nat, e10, n, x10, 0x2d1bdcac27e4b39c3be26f4a1de920d7d7cf048ad6d6be9f11b1d717abe88afbnat, x11);
    let x12 = 0xbb69fe9f87671c9374378c6e4c8dc808f3d277d6a050895d7ff12529660a9e00nat;
    let e12 = 2 * e11;
    lemma_power_mod_square(7nat, e11, n, x11, 0x9fbb9e1662544b5e7edcbb2c5879f01a9309235fe3d0f7334c5dac9c6ac639d1nat, x12);
    let x13 = 0x6dd0f26110b41dba016ebe1117a366b7ff67159c909d1515a9c9d582dbe2a3c9nat;
    let e13 = 2 * e12 + 1;
    lemma_power_mod_square_times(7nat, e12, n, x12, 0x3c06c291f7386a908a60d81452ed794712a2c5f7af37a96a7803fdb851f684777nat, x13);
    let x14 = 0xd3de3c5e84f8b706cb11150da9a159093c66bdb4b94f209ead0620ffa5dfd4e8nat;
    let e14 = 2 * e13;
    lemma_power_mod_square(7nat, e13, n, x13, 0x2f1b98f16b702e62e543d5eaf05f6f9b455d45c90a28d46b5398f751da96eba9nat, x14);
    let x15 = 0x72b99bbe7e68b844be30b251ea6b651b1b2c785454fcc81e2f8f7ab51af00ffdnat;
    let e15 = 2 * e14;
    lemma_power_mod_square(7nat, e14, n, x14, 0xaf581870915d0e4d240960e44d29cf782c03ea109b49eaf0b618635888e81e83nat, x15);
    let x16 = 0x9153eee053aa24ccc75939f19e90d40b174509313d811fb78805b6ee45325238nat;
    let e16 = 2 * e15;
    lemma_power_mod_square(7nat, e15, n, x15, 0x3369d54820a8324a3dbe45c5df19b3afa7606d1f825906613c0b4aa380045891nat, x16);
    let x17 = 0xffaf676a50c6827967950a4276050ebfe709651d13c55c443aaa27013ea7b42nat;
    let e17 = 2 * e16;
    lemma_power_mod_square(7nat, e16, n, x16, 0x5280301ee322de26b8214577bab665bc4b90878630a8a4be33abeea044f1937enat, x17);
    let x18 = 0x4d51a9f691d6b922a940810f621f12a178a477e08e541d34848b037109d07627nat;
    let e18 = 2 * e17;
    lemma_power_mod_square(7nat, e17, n, x17, 0xff5ee8345a0ca07af934f1921ab2500b66ffd6b4197517bc97179f8b07829dnat, x18);
    let x19 = 0x592a73761fa095b18dcf32c13d40372d4908984e087f82baf254d80d75883b49nat;
    let e19 = 2 * e18;
    lemma_power_mod_square(7nat, e18, n, x18, 0x175a3a4b529aef4a1df06c5caeb24958772f382bcd0b372a575ec414a25deca8nat, x19);
}

proof fn lemma_power_order_over_341948486974166000522343609283189()
    ensures
        power_mod(7nat, 0xf2f3791ee0acbee706e9408c5f0cf13469440nat, 0xfffffffffffffffffffffffffffffffebaaedce6af48a03bbfd25e8cd0364141nat) == 0x592a73761fa095b18dcf32c13d40372d4908984e087f82baf254d80d75883b49nat,
{
    lemma_power_mod_first(7nat, 0xfffffffffffffffffffffffffffffffebaaedce6af48a03bbfd25e8cd0364141nat);
    lemma_power_order_over_341948486974166000522343609283189_part_0();
    lemma_power_order_over_341948486974166000522343609283189_part_1();
    lemma_power_order_over_341948486974166000522343609283189_part_2();
    lemma_power_order_over_341948486974166000522343609283189_part_3();
    lemma_power_order_over_341948486974166000522343609283189_part_4();
}

proof fn lemma_certificate_order()
    ensures
        is_certificate(0xfffffffffffffffffffffffffffffffebaaedce6af48a03bbfd25e8cd0364141nat, 7nat, seq![2nat, 2nat, 2nat, 2nat, 2nat, 2nat, 3nat, 149nat, 631nat, 0x17d6cfb8ee30c51nat, 0x978c6f353c3889a79nat, 0x10dbff26eab8198050172ee03275nat]),
{
    let n = 0xfffffffffffffffffffffffffffffffebaaedce6af48a03bbfd25e8cd0364141nat;
    let factors = seq![2nat, 2nat, 2nat, 2nat, 2nat, 2nat, 3nat, 149nat, 631nat, 0x17d6cfb8ee30c51nat, 0x978c6f353c3889a79nat, 0x10dbff26eab8198050172ee03275nat];
    lemma_small_primes();
    lemma_small_primes();
    lemma_prime_149();
    lemma_prime_631();
    lemma_prime_107361793816595537();
    lemma_prime_174723607534414371449();
    lemma_prime_341948486974166000522343609283189();
    lemma_power_order_over_2();
    lemma_fundamental_div_mod_converse(0xfffffffffffffffffffffffffffffffebaaedce6af48a03bbfd25e8cd0364140int, 2int, 0x7fffffffffffffffffffffffffffffff5d576e7357a4501ddfe92f46681b20a0int, 0);
    lemma_power_order_over_3();
    lemma_fundamental_div_mod_converse(0xfffffffffffffffffffffffffffffffebaaedce6af48a03bbfd25e8cd0364140int, 3int, 0x55555555555555555555555555555554e8e4f44ce51835693ff0ca2ef01215c0int, 0);
    lemma_power_order_over_149();
    lemma_fundamental_div_mod_converse(0xfffffffffffffffffffffffffffffffebaaedce6af48a03bbfd25e8cd0364140int, 149int, 0x1b7d6c3dda338b2af3f920a4f089731d125410d933777a02fad3955220aac40int, 0);
    lemma_power_order_over_631();
    lemma_fundamental_div_mod_converse(0xfffffffffffffffffffffffffffffffebaaedce6af48a03bbfd25e8cd0364140int, 631int, 0x67dc4c45c8033ee2622e4019f71311717cd420d26edf644dcb2f9e0ae0d8c0int, 0);
    lemma_power_order_over_107361793816595537();
    lemma_fundamental_div_mod_converse(0xfffffffffffffffffffffffffffffffebaaedce6af48a03bbfd25e8cd0364140int, 0x17d6cfb8ee30c51int, 0xabd18a4164f2ec2b49fc50cdb7e270542f2560a0f700ae1d40int, 0);
    lemma_power_order_over_174723607534414371449();
    lemma_fundamental_div_mod_converse(0xfffffffffffffffffffffffffffffffebaaedce6af48a03bbfd25e8cd0364140int, 0x978c6f353c3889a79int, 0x1b07134f42e597994a25928e75887fca5ee37069dcb3fb40int, 0);
    lemma_power_order_over_341948486974166000522343609283189();
    lemma_fundamental_div_mod_converse(0xfffffffffffffffffffffffffffffffebaaedce6af48a03bbfd25e8cd0364140int, 0x10dbff26eab8198050172ee03275int, 0xf2f3791ee0acbee706e9408c5f0cf13469440int, 0);
    lemma_power_mod_square(7nat, 0x7fffffffffffffffffffffffffffffff5d576e7357a4501ddfe92f46681b20a0nat, n, 0xfffffffffffffffffffffffffffffffebaaedce6af48a03bbfd25e8cd0364140nat, 0xfffffffffffffffffffffffffffffffebaaedce6af48a03bbfd25e8cd036413fnat, 1);
    let f0 = Seq::<nat>::empty();
    lemma_product_push(f0, 2nat, 1nat);
    let f1 = f0.push(2nat);
    lemma_product_push(f1, 2nat, 2nat);
    let f2 = f1.push(2nat);
    lemma_product_push(f2, 2nat, 4nat);
    let f3 = f2.push(2nat);
    lemma_product_push(f3, 2nat, 8nat);
    let f4 = f3.push(2nat);
    lemma_product_push(f4, 2nat, 16nat);
    let f5 = f4.push(2nat);
    lemma_product_push(f5, 2nat, 32nat);
    let f6 = f5.push(2nat);
    lemma_product_push(f6, 3nat, 64nat);
    let f7 = f6.push(3nat);
    lemma_product_push(f7, 149nat, 192nat);
    let f8 = f7.push(149nat);
    lemma_product_push(f8, 631nat, 28608nat);
    let f9 = f8.push(631nat);
    lemma_product_push(f9, 0x17d6cfb8ee30c51nat, 0x1137240nat);
    let f10 = f9.push(0x17d6cfb8ee30c51nat);
    lemma_product_push(f10, 0x978c6f353c3889a79nat, 0x19a664c1dc26b0f422640nat);
    let f11 = f10.push(0x978c6f353c3889a79nat);
    lemma_product_push(f11, 0x10dbff26eab8198050172ee03275nat, 0xf2f3791ee0acbee706e9408c5f0cf13469440nat);
    let f12 = f11.push(0x10dbff26eab8198050172ee03275nat);
    assert(factors =~= f12);
    assert forall|j: int| 0 <= j < factors.len() implies is_prime(#[trigger] factors[j])
        && power_mod(7nat, ((n - 1) / factors[j] as int) as nat, n) != 1 by {
        if j == 0 {
        } else if j == 1 {
        } else if j == 2 {
        } else if j == 3 {
        } else if j == 4 {
        } else if j == 5 {
        } else if j == 6 {
        } else if j == 7 {
        } else if j == 8 {
        } else if j == 9 {
        } else if j == 10 {
        } else if j == 11 {
        }
    }
}

/// The group order is prime.
pub proof fn lemma_prime_order()
    ensures
        is_prime(0xfffffffffffffffffffffffffffffffebaaedce6af48a03bbfd25e8cd0364141nat),
        all_invertible(0xfffffffffffffffffffffffffffffffebaaedce6af48a03bbfd25e8cd0364141nat),
        generates(7nat, 0xfffffffffffffffffffffffffffffffebaaedce6af48a03bbfd25e8cd0364141nat),
        power_mod(7nat, 0xfffffffffffffffffffffffffffffffebaaedce6af48a03bbfd25e8cd0364140nat, 0xfffffffffffffffffffffffffffffffebaaedce6af48a03bbfd25e8cd0364141nat) == 1,
{
    lemma_certificate_order();
    lemma_certified_prime(0xfffffffffffffffffffffffffffffffebaaedce6af48a03bbfd25e8cd0364141nat, 7nat, seq![2nat, 2nat, 2nat, 2nat, 2nat, 2nat, 3nat, 149nat, 631nat, 0x17d6cfb8ee30c51nat, 0x978c6f353c3889a79nat, 0x10dbff26eab8198050172ee03275nat]);
}

} // verus!
