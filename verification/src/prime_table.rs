//! The smaller primes that the certificates of the two big ones rest on.
//!
//! Each comes with a base whose powers are followed bit by bit through the
//! exponent: every step squares, and multiplies by the base where the bit is
//! set, and names the multiple of the modulus that it leaves out.

use crate::primes::{
    is_certificate, is_prime, lemma_certified_prime, lemma_power_mod_first, lemma_power_mod_square,
    lemma_power_mod_square_times, lemma_product_push, lemma_small_primes, power_mod,
};
use vstd::arithmetic::div_mod::lemma_fundamental_div_mod_converse;
use vstd::prelude::*;

verus! {

proof fn lemma_power_11_over_2_part_0()
    requires
        power_mod(2nat, 1nat, 11nat) == 2nat,
    ensures
        power_mod(2nat, 5nat, 11nat) == 10nat,
{
    let n = 11nat;
    let e0 = 1nat;
    let x0 = 2nat;
    let x1 = 4nat;
    let e1 = 2 * e0;
    lemma_power_mod_square(2nat, e0, n, x0, 0nat, x1);
    let x2 = 10nat;
    let e2 = 2 * e1 + 1;
    lemma_power_mod_square_times(2nat, e1, n, x1, 2nat, x2);
}

proof fn lemma_power_11_over_2()
    ensures
        power_mod(2nat, 5nat, 11nat) == 10nat,
{
    lemma_power_mod_first(2nat, 11nat);
    lemma_power_11_over_2_part_0();
}

proof fn lemma_power_11_over_5_part_0()
    requires
        power_mod(2nat, 1nat, 11nat) == 2nat,
    ensures
        power_mod(2nat, 2nat, 11nat) == 4nat,
{
    let n = 11nat;
    let e0 = 1nat;
    let x0 = 2nat;
    let x1 = 4nat;
    let e1 = 2 * e0;
    lemma_power_mod_square(2nat, e0, n, x0, 0nat, x1);
}

proof fn lemma_power_11_over_5()
    ensures
        power_mod(2nat, 2nat, 11nat) == 4nat,
{
    lemma_power_mod_first(2nat, 11nat);
    lemma_power_11_over_5_part_0();
}

proof fn lemma_certificate_11()
    ensures
        is_certificate(11nat, 2nat, seq![2nat, 5nat]),
{
    let n = 11nat;
    let factors = seq![2nat, 5nat];
    lemma_small_primes();
    lemma_small_primes();
    lemma_power_11_over_2();
    lemma_fundamental_div_mod_converse(10int, 2int, 5int, 0);
    lemma_power_11_over_5();
    lemma_fundamental_div_mod_converse(10int, 5int, 2int, 0);
    lemma_power_mod_square(2nat, 5nat, n, 10nat, 9nat, 1);
    let f0 = Seq::<nat>::empty();
    lemma_product_push(f0, 2nat, 1nat);
    let f1 = f0.push(2nat);
    lemma_product_push(f1, 5nat, 2nat);
    let f2 = f1.push(5nat);
    assert(factors =~= f2);
    assert forall|j: int| 0 <= j < factors.len() implies is_prime(#[trigger] factors[j])
        && power_mod(2nat, ((n - 1) / factors[j] as int) as nat, n) != 1 by {
        if j == 0 {
        } else if j == 1 {
        }
    }
}

/// 11 is prime.
pub(crate) proof fn lemma_prime_11()
    ensures
        is_prime(11nat),
{
    lemma_certificate_11();
    lemma_certified_prime(11nat, 2nat, seq![2nat, 5nat]);
}

proof fn lemma_power_13_over_2_part_0()
    requires
        power_mod(2nat, 1nat, 13nat) == 2nat,
    ensures
        power_mod(2nat, 6nat, 13nat) == 12nat,
{
    let n = 13nat;
    let e0 = 1nat;
    let x0 = 2nat;
    let x1 = 8nat;
    let e1 = 2 * e0 + 1;
    lemma_power_mod_square_times(2nat, e0, n, x0, 0nat, x1);
    let x2 = 12nat;
    let e2 = 2 * e1;
    lemma_power_mod_square(2nat, e1, n, x1, 4nat, x2);
}

proof fn lemma_power_13_over_2()
    ensures
        power_mod(2nat, 6nat, 13nat) == 12nat,
{
    lemma_power_mod_first(2nat, 13nat);
    lemma_power_13_over_2_part_0();
}

proof fn lemma_power_13_over_3_part_0()
    requires
        power_mod(2nat, 1nat, 13nat) == 2nat,
    ensures
        power_mod(2nat, 4nat, 13nat) == 3nat,
{
    let n = 13nat;
    let e0 = 1nat;
    let x0 = 2nat;
    let x1 = 4nat;
    let e1 = 2 * e0;
    lemma_power_mod_square(2nat, e0, n, x0, 0nat, x1);
    let x2 = 3nat;
    let e2 = 2 * e1;
    lemma_power_mod_square(2nat, e1, n, x1, 1nat, x2);
}

proof fn lemma_power_13_over_3()
    ensures
        power_mod(2nat, 4nat, 13nat) == 3nat,
{
    lemma_power_mod_first(2nat, 13nat);
    lemma_power_13_over_3_part_0();
}

proof fn lemma_certificate_13()
    ensures
        is_certificate(13nat, 2nat, seq![2nat, 2nat, 3nat]),
{
    let n = 13nat;
    let factors = seq![2nat, 2nat, 3nat];
    lemma_small_primes();
    lemma_small_primes();
    lemma_power_13_over_2();
    lemma_fundamental_div_mod_converse(12int, 2int, 6int, 0);
    lemma_power_13_over_3();
    lemma_fundamental_div_mod_converse(12int, 3int, 4int, 0);
    lemma_power_mod_square(2nat, 6nat, n, 12nat, 11nat, 1);
    let f0 = Seq::<nat>::empty();
    lemma_product_push(f0, 2nat, 1nat);
    let f1 = f0.push(2nat);
    lemma_product_push(f1, 2nat, 2nat);
    let f2 = f1.push(2nat);
    lemma_product_push(f2, 3nat, 4nat);
    let f3 = f2.push(3nat);
    assert(factors =~= f3);
    assert forall|j: int| 0 <= j < factors.len() implies is_prime(#[trigger] factors[j])
        && power_mod(2nat, ((n - 1) / factors[j] as int) as nat, n) != 1 by {
        if j == 0 {
        } else if j == 1 {
        } else if j == 2 {
        }
    }
}

/// 13 is prime.
pub(crate) proof fn lemma_prime_13()
    ensures
        is_prime(13nat),
{
    lemma_certificate_13();
    lemma_certified_prime(13nat, 2nat, seq![2nat, 2nat, 3nat]);
}

proof fn lemma_power_17_over_2_part_0()
    requires
        power_mod(3nat, 1nat, 17nat) == 3nat,
    ensures
        power_mod(3nat, 8nat, 17nat) == 16nat,
{
    let n = 17nat;
    let e0 = 1nat;
    let x0 = 3nat;
    let x1 = 9nat;
    let e1 = 2 * e0;
    lemma_power_mod_square(3nat, e0, n, x0, 0nat, x1);
    let x2 = 13nat;
    let e2 = 2 * e1;
    lemma_power_mod_square(3nat, e1, n, x1, 4nat, x2);
    let x3 = 16nat;
    let e3 = 2 * e2;
    lemma_power_mod_square(3nat, e2, n, x2, 9nat, x3);
}

proof fn lemma_power_17_over_2()
    ensures
        power_mod(3nat, 8nat, 17nat) == 16nat,
{
    lemma_power_mod_first(3nat, 17nat);
    lemma_power_17_over_2_part_0();
}

proof fn lemma_certificate_17()
    ensures
        is_certificate(17nat, 3nat, seq![2nat, 2nat, 2nat, 2nat]),
{
    let n = 17nat;
    let factors = seq![2nat, 2nat, 2nat, 2nat];
    lemma_small_primes();
    lemma_power_17_over_2();
    lemma_fundamental_div_mod_converse(16int, 2int, 8int, 0);
    lemma_power_mod_square(3nat, 8nat, n, 16nat, 15nat, 1);
    let f0 = Seq::<nat>::empty();
    lemma_product_push(f0, 2nat, 1nat);
    let f1 = f0.push(2nat);
    lemma_product_push(f1, 2nat, 2nat);
    let f2 = f1.push(2nat);
    lemma_product_push(f2, 2nat, 4nat);
    let f3 = f2.push(2nat);
    lemma_product_push(f3, 2nat, 8nat);
    let f4 = f3.push(2nat);
    assert(factors =~= f4);
    assert forall|j: int| 0 <= j < factors.len() implies is_prime(#[trigger] factors[j])
        && power_mod(3nat, ((n - 1) / factors[j] as int) as nat, n) != 1 by {
        if j == 0 {
        } else if j == 1 {
        } else if j == 2 {
        } else if j == 3 {
        }
    }
}

/// 17 is prime.
pub(crate) proof fn lemma_prime_17()
    ensures
        is_prime(17nat),
{
    lemma_certificate_17();
    lemma_certified_prime(17nat, 3nat, seq![2nat, 2nat, 2nat, 2nat]);
}

proof fn lemma_power_19_over_2_part_0()
    requires
        power_mod(2nat, 1nat, 19nat) == 2nat,
    ensures
        power_mod(2nat, 9nat, 19nat) == 18nat,
{
    let n = 19nat;
    let e0 = 1nat;
    let x0 = 2nat;
    let x1 = 4nat;
    let e1 = 2 * e0;
    lemma_power_mod_square(2nat, e0, n, x0, 0nat, x1);
    let x2 = 16nat;
    let e2 = 2 * e1;
    lemma_power_mod_square(2nat, e1, n, x1, 0nat, x2);
    let x3 = 18nat;
    let e3 = 2 * e2 + 1;
    lemma_power_mod_square_times(2nat, e2, n, x2, 26nat, x3);
}

proof fn lemma_power_19_over_2()
    ensures
        power_mod(2nat, 9nat, 19nat) == 18nat,
{
    lemma_power_mod_first(2nat, 19nat);
    lemma_power_19_over_2_part_0();
}

proof fn lemma_power_19_over_3_part_0()
    requires
        power_mod(2nat, 1nat, 19nat) == 2nat,
    ensures
        power_mod(2nat, 6nat, 19nat) == 7nat,
{
    let n = 19nat;
    let e0 = 1nat;
    let x0 = 2nat;
    let x1 = 8nat;
    let e1 = 2 * e0 + 1;
    lemma_power_mod_square_times(2nat, e0, n, x0, 0nat, x1);
    let x2 = 7nat;
    let e2 = 2 * e1;
    lemma_power_mod_square(2nat, e1, n, x1, 3nat, x2);
}

proof fn lemma_power_19_over_3()
    ensures
        power_mod(2nat, 6nat, 19nat) == 7nat,
{
    lemma_power_mod_first(2nat, 19nat);
    lemma_power_19_over_3_part_0();
}

proof fn lemma_certificate_19()
    ensures
        is_certificate(19nat, 2nat, seq![2nat, 3nat, 3nat]),
{
    let n = 19nat;
    let factors = seq![2nat, 3nat, 3nat];
    lemma_small_primes();
    lemma_small_primes();
    lemma_power_19_over_2();
    lemma_fundamental_div_mod_converse(18int, 2int, 9int, 0);
    lemma_power_19_over_3();
    lemma_fundamental_div_mod_converse(18int, 3int, 6int, 0);
    lemma_power_mod_square(2nat, 9nat, n, 18nat, 17nat, 1);
    let f0 = Seq::<nat>::empty();
    lemma_product_push(f0, 2nat, 1nat);
    let f1 = f0.push(2nat);
    lemma_product_push(f1, 3nat, 2nat);
    let f2 = f1.push(3nat);
    lemma_product_push(f2, 3nat, 6nat);
    let f3 = f2.push(3nat);
    assert(factors =~= f3);
    assert forall|j: int| 0 <= j < factors.len() implies is_prime(#[trigger] factors[j])
        && power_mod(2nat, ((n - 1) / factors[j] as int) as nat, n) != 1 by {
        if j == 0 {
        } else if j == 1 {
        } else if j == 2 {
        }
    }
}

/// 19 is prime.
pub(crate) proof fn lemma_prime_19()
    ensures
        is_prime(19nat),
{
    lemma_certificate_19();
    lemma_certified_prime(19nat, 2nat, seq![2nat, 3nat, 3nat]);
}

proof fn lemma_power_23_over_2_part_0()
    requires
        power_mod(5nat, 1nat, 23nat) == 5nat,
    ensures
        power_mod(5nat, 11nat, 23nat) == 22nat,
{
    let n = 23nat;
    let e0 = 1nat;
    let x0 = 5nat;
    let x1 = 2nat;
    let e1 = 2 * e0;
    lemma_power_mod_square(5nat, e0, n, x0, 1nat, x1);
    let x2 = 20nat;
    let e2 = 2 * e1 + 1;
    lemma_power_mod_square_times(5nat, e1, n, x1, 0nat, x2);
    let x3 = 22nat;
    let e3 = 2 * e2 + 1;
    lemma_power_mod_square_times(5nat, e2, n, x2, 86nat, x3);
}

proof fn lemma_power_23_over_2()
    ensures
        power_mod(5nat, 11nat, 23nat) == 22nat,
{
    lemma_power_mod_first(5nat, 23nat);
    lemma_power_23_over_2_part_0();
}

proof fn lemma_power_23_over_11_part_0()
    requires
        power_mod(5nat, 1nat, 23nat) == 5nat,
    ensures
        power_mod(5nat, 2nat, 23nat) == 2nat,
{
    let n = 23nat;
    let e0 = 1nat;
    let x0 = 5nat;
    let x1 = 2nat;
    let e1 = 2 * e0;
    lemma_power_mod_square(5nat, e0, n, x0, 1nat, x1);
}

proof fn lemma_power_23_over_11()
    ensures
        power_mod(5nat, 2nat, 23nat) == 2nat,
{
    lemma_power_mod_first(5nat, 23nat);
    lemma_power_23_over_11_part_0();
}

proof fn lemma_certificate_23()
    ensures
        is_certificate(23nat, 5nat, seq![2nat, 11nat]),
{
    let n = 23nat;
    let factors = seq![2nat, 11nat];
    lemma_small_primes();
    lemma_prime_11();
    lemma_power_23_over_2();
    lemma_fundamental_div_mod_converse(22int, 2int, 11int, 0);
    lemma_power_23_over_11();
    lemma_fundamental_div_mod_converse(22int, 11int, 2int, 0);
    lemma_power_mod_square(5nat, 11nat, n, 22nat, 21nat, 1);
    let f0 = Seq::<nat>::empty();
    lemma_product_push(f0, 2nat, 1nat);
    let f1 = f0.push(2nat);
    lemma_product_push(f1, 11nat, 2nat);
    let f2 = f1.push(11nat);
    assert(factors =~= f2);
    assert forall|j: int| 0 <= j < factors.len() implies is_prime(#[trigger] factors[j])
        && power_mod(5nat, ((n - 1) / factors[j] as int) as nat, n) != 1 by {
        if j == 0 {
        } else if j == 1 {
        }
    }
}

/// 23 is prime.
pub(crate) proof fn lemma_prime_23()
    ensures
        is_prime(23nat),
{
    lemma_certificate_23();
    lemma_certified_prime(23nat, 5nat, seq![2nat, 11nat]);
}

proof fn lemma_power_29_over_2_part_0()
    requires
        power_mod(2nat, 1nat, 29nat) == 2nat,
    ensures
        power_mod(2nat, 14nat, 29nat) == 28nat,
{
    let n = 29nat;
    let e0 = 1nat;
    let x0 = 2nat;
    let x1 = 8nat;
    let e1 = 2 * e0 + 1;
    lemma_power_mod_square_times(2nat, e0, n, x0, 0nat, x1);
    let x2 = 12nat;
    let e2 = 2 * e1 + 1;
    lemma_power_mod_square_times(2nat, e1, n, x1, 4nat, x2);
    let x3 = 28nat;
    let e3 = 2 * e2;
    lemma_power_mod_square(2nat, e2, n, x2, 4nat, x3);
}

proof fn lemma_power_29_over_2()
    ensures
        power_mod(2nat, 14nat, 29nat) == 28nat,
{
    lemma_power_mod_first(2nat, 29nat);
    lemma_power_29_over_2_part_0();
}

proof fn lemma_power_29_over_7_part_0()
    requires
        power_mod(2nat, 1nat, 29nat) == 2nat,
    ensures
        power_mod(2nat, 4nat, 29nat) == 16nat,
{
    let n = 29nat;
    let e0 = 1nat;
    let x0 = 2nat;
    let x1 = 4nat;
    let e1 = 2 * e0;
    lemma_power_mod_square(2nat, e0, n, x0, 0nat, x1);
    let x2 = 16nat;
    let e2 = 2 * e1;
    lemma_power_mod_square(2nat, e1, n, x1, 0nat, x2);
}

proof fn lemma_power_29_over_7()
    ensures
        power_mod(2nat, 4nat, 29nat) == 16nat,
{
    lemma_power_mod_first(2nat, 29nat);
    lemma_power_29_over_7_part_0();
}

proof fn lemma_certificate_29()
    ensures
        is_certificate(29nat, 2nat, seq![2nat, 2nat, 7nat]),
{
    let n = 29nat;
    let factors = seq![2nat, 2nat, 7nat];
    lemma_small_primes();
    lemma_small_primes();
    lemma_power_29_over_2();
    lemma_fundamental_div_mod_converse(28int, 2int, 14int, 0);
    lemma_power_29_over_7();
    lemma_fundamental_div_mod_converse(28int, 7int, 4int, 0);
    lemma_power_mod_square(2nat, 14nat, n, 28nat, 27nat, 1);
    let f0 = Seq::<nat>::empty();
    lemma_product_push(f0, 2nat, 1nat);
    let f1 = f0.push(2nat);
    lemma_product_push(f1, 2nat, 2nat);
    let f2 = f1.push(2nat);
    lemma_product_push(f2, 7nat, 4nat);
    let f3 = f2.push(7nat);
    assert(factors =~= f3);
    assert forall|j: int| 0 <= j < factors.len() implies is_prime(#[trigger] factors[j])
        && power_mod(2nat, ((n - 1) / factors[j] as int) as nat, n) != 1 by {
        if j == 0 {
        } else if j == 1 {
        } else if j == 2 {
        }
    }
}

/// 29 is prime.
pub(crate) proof fn lemma_prime_29()
    ensures
        is_prime(29nat),
{
    lemma_certificate_29();
    lemma_certified_prime(29nat, 2nat, seq![2nat, 2nat, 7nat]);
}

proof fn lemma_power_31_over_2_part_0()
    requires
        power_mod(3nat, 1nat, 31nat) == 3nat,
    ensures
        power_mod(3nat, 15nat, 31nat) == 30nat,
{
    let n = 31nat;
    let e0 = 1nat;
    let x0 = 3nat;
    let x1 = 27nat;
    let e1 = 2 * e0 + 1;
    lemma_power_mod_square_times(3nat, e0, n, x0, 0nat, x1);
    let x2 = 17nat;
    let e2 = 2 * e1 + 1;
    lemma_power_mod_square_times(3nat, e1, n, x1, 70nat, x2);
    let x3 = 30nat;
    let e3 = 2 * e2 + 1;
    lemma_power_mod_square_times(3nat, e2, n, x2, 27nat, x3);
}

proof fn lemma_power_31_over_2()
    ensures
        power_mod(3nat, 15nat, 31nat) == 30nat,
{
    lemma_power_mod_first(3nat, 31nat);
    lemma_power_31_over_2_part_0();
}

proof fn lemma_power_31_over_3_part_0()
    requires
        power_mod(3nat, 1nat, 31nat) == 3nat,
    ensures
        power_mod(3nat, 10nat, 31nat) == 25nat,
{
    let n = 31nat;
    let e0 = 1nat;
    let x0 = 3nat;
    let x1 = 9nat;
    let e1 = 2 * e0;
    lemma_power_mod_square(3nat, e0, n, x0, 0nat, x1);
    let x2 = 26nat;
    let e2 = 2 * e1 + 1;
    lemma_power_mod_square_times(3nat, e1, n, x1, 7nat, x2);
    let x3 = 25nat;
    let e3 = 2 * e2;
    lemma_power_mod_square(3nat, e2, n, x2, 21nat, x3);
}

proof fn lemma_power_31_over_3()
    ensures
        power_mod(3nat, 10nat, 31nat) == 25nat,
{
    lemma_power_mod_first(3nat, 31nat);
    lemma_power_31_over_3_part_0();
}

proof fn lemma_power_31_over_5_part_0()
    requires
        power_mod(3nat, 1nat, 31nat) == 3nat,
    ensures
        power_mod(3nat, 6nat, 31nat) == 16nat,
{
    let n = 31nat;
    let e0 = 1nat;
    let x0 = 3nat;
    let x1 = 27nat;
    let e1 = 2 * e0 + 1;
    lemma_power_mod_square_times(3nat, e0, n, x0, 0nat, x1);
    let x2 = 16nat;
    let e2 = 2 * e1;
    lemma_power_mod_square(3nat, e1, n, x1, 23nat, x2);
}

proof fn lemma_power_31_over_5()
    ensures
        power_mod(3nat, 6nat, 31nat) == 16nat,
{
    lemma_power_mod_first(3nat, 31nat);
    lemma_power_31_over_5_part_0();
}

proof fn lemma_certificate_31()
    ensures
        is_certificate(31nat, 3nat, seq![2nat, 3nat, 5nat]),
{
    let n = 31nat;
    let factors = seq![2nat, 3nat, 5nat];
    lemma_small_primes();
    lemma_small_primes();
    lemma_small_primes();
    lemma_power_31_over_2();
    lemma_fundamental_div_mod_converse(30int, 2int, 15int, 0);
    lemma_power_31_over_3();
    lemma_fundamental_div_mod_converse(30int, 3int, 10int, 0);
    lemma_power_31_over_5();
    lemma_fundamental_div_mod_converse(30int, 5int, 6int, 0);
    lemma_power_mod_square(3nat, 15nat, n, 30nat, 29nat, 1);
    let f0 = Seq::<nat>::empty();
    lemma_product_push(f0, 2nat, 1nat);
    let f1 = f0.push(2nat);
    lemma_product_push(f1, 3nat, 2nat);
    let f2 = f1.push(3nat);
    lemma_product_push(f2, 5nat, 6nat);
    let f3 = f2.push(5nat);
    assert(factors =~= f3);
    assert forall|j: int| 0 <= j < factors.len() implies is_prime(#[trigger] factors[j])
        && power_mod(3nat, ((n - 1) / factors[j] as int) as nat, n) != 1 by {
        if j == 0 {
        } else if j == 1 {
        } else if j == 2 {
        }
    }
}

/// 31 is prime.
pub(crate) proof fn lemma_prime_31()
    ensures
        is_prime(31nat),
{
    lemma_certificate_31();
    lemma_certified_prime(31nat, 3nat, seq![2nat, 3nat, 5nat]);
}

proof fn lemma_power_37_over_2_part_0()
    requires
        power_mod(2nat, 1nat, 37nat) == 2nat,
    ensures
        power_mod(2nat, 18nat, 37nat) == 36nat,
{
    let n = 37nat;
    let e0 = 1nat;
    let x0 = 2nat;
    let x1 = 4nat;
    let e1 = 2 * e0;
    lemma_power_mod_square(2nat, e0, n, x0, 0nat, x1);
    let x2 = 16nat;
    let e2 = 2 * e1;
    lemma_power_mod_square(2nat, e1, n, x1, 0nat, x2);
    let x3 = 31nat;
    let e3 = 2 * e2 + 1;
    lemma_power_mod_square_times(2nat, e2, n, x2, 13nat, x3);
    let x4 = 36nat;
    let e4 = 2 * e3;
    lemma_power_mod_square(2nat, e3, n, x3, 25nat, x4);
}

proof fn lemma_power_37_over_2()
    ensures
        power_mod(2nat, 18nat, 37nat) == 36nat,
{
    lemma_power_mod_first(2nat, 37nat);
    lemma_power_37_over_2_part_0();
}

proof fn lemma_power_37_over_3_part_0()
    requires
        power_mod(2nat, 1nat, 37nat) == 2nat,
    ensures
        power_mod(2nat, 12nat, 37nat) == 26nat,
{
    let n = 37nat;
    let e0 = 1nat;
    let x0 = 2nat;
    let x1 = 8nat;
    let e1 = 2 * e0 + 1;
    lemma_power_mod_square_times(2nat, e0, n, x0, 0nat, x1);
    let x2 = 27nat;
    let e2 = 2 * e1;
    lemma_power_mod_square(2nat, e1, n, x1, 1nat, x2);
    let x3 = 26nat;
    let e3 = 2 * e2;
    lemma_power_mod_square(2nat, e2, n, x2, 19nat, x3);
}

proof fn lemma_power_37_over_3()
    ensures
        power_mod(2nat, 12nat, 37nat) == 26nat,
{
    lemma_power_mod_first(2nat, 37nat);
    lemma_power_37_over_3_part_0();
}

proof fn lemma_certificate_37()
    ensures
        is_certificate(37nat, 2nat, seq![2nat, 2nat, 3nat, 3nat]),
{
    let n = 37nat;
    let factors = seq![2nat, 2nat, 3nat, 3nat];
    lemma_small_primes();
    lemma_small_primes();
    lemma_power_37_over_2();
    lemma_fundamental_div_mod_converse(36int, 2int, 18int, 0);
    lemma_power_37_over_3();
    lemma_fundamental_div_mod_converse(36int, 3int, 12int, 0);
    lemma_power_mod_square(2nat, 18nat, n, 36nat, 35nat, 1);
    let f0 = Seq::<nat>::empty();
    lemma_product_push(f0, 2nat, 1nat);
    let f1 = f0.push(2nat);
    lemma_product_push(f1, 2nat, 2nat);
    let f2 = f1.push(2nat);
    lemma_product_push(f2, 3nat, 4nat);
    let f3 = f2.push(3nat);
    lemma_product_push(f3, 3nat, 12nat);
    let f4 = f3.push(3nat);
    assert(factors =~= f4);
    assert forall|j: int| 0 <= j < factors.len() implies is_prime(#[trigger] factors[j])
        && power_mod(2nat, ((n - 1) / factors[j] as int) as nat, n) != 1 by {
        if j == 0 {
        } else if j == 1 {
        } else if j == 2 {
        } else if j == 3 {
        }
    }
}

/// 37 is prime.
pub(crate) proof fn lemma_prime_37()
    ensures
        is_prime(37nat),
{
    lemma_certificate_37();
    lemma_certified_prime(37nat, 2nat, seq![2nat, 2nat, 3nat, 3nat]);
}

proof fn lemma_power_41_over_2_part_0()
    requires
        power_mod(6nat, 1nat, 41nat) == 6nat,
    ensures
        power_mod(6nat, 20nat, 41nat) == 40nat,
{
    let n = 41nat;
    let e0 = 1nat;
    let x0 = 6nat;
    let x1 = 36nat;
    let e1 = 2 * e0;
    lemma_power_mod_square(6nat, e0, n, x0, 0nat, x1);
    let x2 = 27nat;
    let e2 = 2 * e1 + 1;
    lemma_power_mod_square_times(6nat, e1, n, x1, 189nat, x2);
    let x3 = 32nat;
    let e3 = 2 * e2;
    lemma_power_mod_square(6nat, e2, n, x2, 17nat, x3);
    let x4 = 40nat;
    let e4 = 2 * e3;
    lemma_power_mod_square(6nat, e3, n, x3, 24nat, x4);
}

proof fn lemma_power_41_over_2()
    ensures
        power_mod(6nat, 20nat, 41nat) == 40nat,
{
    lemma_power_mod_first(6nat, 41nat);
    lemma_power_41_over_2_part_0();
}

proof fn lemma_power_41_over_5_part_0()
    requires
        power_mod(6nat, 1nat, 41nat) == 6nat,
    ensures
        power_mod(6nat, 8nat, 41nat) == 10nat,
{
    let n = 41nat;
    let e0 = 1nat;
    let x0 = 6nat;
    let x1 = 36nat;
    let e1 = 2 * e0;
    lemma_power_mod_square(6nat, e0, n, x0, 0nat, x1);
    let x2 = 25nat;
    let e2 = 2 * e1;
    lemma_power_mod_square(6nat, e1, n, x1, 31nat, x2);
    let x3 = 10nat;
    let e3 = 2 * e2;
    lemma_power_mod_square(6nat, e2, n, x2, 15nat, x3);
}

proof fn lemma_power_41_over_5()
    ensures
        power_mod(6nat, 8nat, 41nat) == 10nat,
{
    lemma_power_mod_first(6nat, 41nat);
    lemma_power_41_over_5_part_0();
}

proof fn lemma_certificate_41()
    ensures
        is_certificate(41nat, 6nat, seq![2nat, 2nat, 2nat, 5nat]),
{
    let n = 41nat;
    let factors = seq![2nat, 2nat, 2nat, 5nat];
    lemma_small_primes();
    lemma_small_primes();
    lemma_power_41_over_2();
    lemma_fundamental_div_mod_converse(40int, 2int, 20int, 0);
    lemma_power_41_over_5();
    lemma_fundamental_div_mod_converse(40int, 5int, 8int, 0);
    lemma_power_mod_square(6nat, 20nat, n, 40nat, 39nat, 1);
    let f0 = Seq::<nat>::empty();
    lemma_product_push(f0, 2nat, 1nat);
    let f1 = f0.push(2nat);
    lemma_product_push(f1, 2nat, 2nat);
    let f2 = f1.push(2nat);
    lemma_product_push(f2, 2nat, 4nat);
    let f3 = f2.push(2nat);
    lemma_product_push(f3, 5nat, 8nat);
    let f4 = f3.push(5nat);
    assert(factors =~= f4);
    assert forall|j: int| 0 <= j < factors.len() implies is_prime(#[trigger] factors[j])
        && power_mod(6nat, ((n - 1) / factors[j] as int) as nat, n) != 1 by {
        if j == 0 {
        } else if j == 1 {
        } else if j == 2 {
        } else if j == 3 {
        }
    }
}

/// 41 is prime.
pub(crate) proof fn lemma_prime_41()
    ensures
        is_prime(41nat),
{
    lemma_certificate_41();
    lemma_certified_prime(41nat, 6nat, seq![2nat, 2nat, 2nat, 5nat]);
}

proof fn lemma_power_53_over_2_part_0()
    requires
        power_mod(2nat, 1nat, 53nat) == 2nat,
    ensures
        power_mod(2nat, 26nat, 53nat) == 52nat,
{
    let n = 53nat;
    let e0 = 1nat;
    let x0 = 2nat;
    let x1 = 8nat;
    let e1 = 2 * e0 + 1;
    lemma_power_mod_square_times(2nat, e0, n, x0, 0nat, x1);
    let x2 = 11nat;
    let e2 = 2 * e1;
    lemma_power_mod_square(2nat, e1, n, x1, 1nat, x2);
    let x3 = 30nat;
    let e3 = 2 * e2 + 1;
    lemma_power_mod_square_times(2nat, e2, n, x2, 4nat, x3);
    let x4 = 52nat;
    let e4 = 2 * e3;
    lemma_power_mod_square(2nat, e3, n, x3, 16nat, x4);
}

proof fn lemma_power_53_over_2()
    ensures
        power_mod(2nat, 26nat, 53nat) == 52nat,
{
    lemma_power_mod_first(2nat, 53nat);
    lemma_power_53_over_2_part_0();
}

proof fn lemma_power_53_over_13_part_0()
    requires
        power_mod(2nat, 1nat, 53nat) == 2nat,
    ensures
        power_mod(2nat, 4nat, 53nat) == 16nat,
{
    let n = 53nat;
    let e0 = 1nat;
    let x0 = 2nat;
    let x1 = 4nat;
    let e1 = 2 * e0;
    lemma_power_mod_square(2nat, e0, n, x0, 0nat, x1);
    let x2 = 16nat;
    let e2 = 2 * e1;
    lemma_power_mod_square(2nat, e1, n, x1, 0nat, x2);
}

proof fn lemma_power_53_over_13()
    ensures
        power_mod(2nat, 4nat, 53nat) == 16nat,
{
    lemma_power_mod_first(2nat, 53nat);
    lemma_power_53_over_13_part_0();
}

proof fn lemma_certificate_53()
    ensures
        is_certificate(53nat, 2nat, seq![2nat, 2nat, 13nat]),
{
    let n = 53nat;
    let factors = seq![2nat, 2nat, 13nat];
    lemma_small_primes();
    lemma_prime_13();
    lemma_power_53_over_2();
    lemma_fundamental_div_mod_converse(52int, 2int, 26int, 0);
    lemma_power_53_over_13();
    lemma_fundamental_div_mod_converse(52int, 13int, 4int, 0);
    lemma_power_mod_square(2nat, 26nat, n, 52nat, 51nat, 1);
    let f0 = Seq::<nat>::empty();
    lemma_product_push(f0, 2nat, 1nat);
    let f1 = f0.push(2nat);
    lemma_product_push(f1, 2nat, 2nat);
    let f2 = f1.push(2nat);
    lemma_product_push(f2, 13nat, 4nat);
    let f3 = f2.push(13nat);
    assert(factors =~= f3);
    assert forall|j: int| 0 <= j < factors.len() implies is_prime(#[trigger] factors[j])
        && power_mod(2nat, ((n - 1) / factors[j] as int) as nat, n) != 1 by {
        if j == 0 {
        } else if j == 1 {
        } else if j == 2 {
        }
    }
}

/// 53 is prime.
pub(crate) proof fn lemma_prime_53()
    ensures
        is_prime(53nat),
{
    lemma_certificate_53();
    lemma_certified_prime(53nat, 2nat, seq![2nat, 2nat, 13nat]);
}

proof fn lemma_power_59_over_2_part_0()
    requires
        power_mod(2nat, 1nat, 59nat) == 2nat,
    ensures
        power_mod(2nat, 29nat, 59nat) == 58nat,
{
    let n = 59nat;
    let e0 = 1nat;
    let x0 = 2nat;
    let x1 = 8nat;
    let e1 = 2 * e0 + 1;
    lemma_power_mod_square_times(2nat, e0, n, x0, 0nat, x1);
    let x2 = 10nat;
    let e2 = 2 * e1 + 1;
    lemma_power_mod_square_times(2nat, e1, n, x1, 2nat, x2);
    let x3 = 41nat;
    let e3 = 2 * e2;
    lemma_power_mod_square(2nat, e2, n, x2, 1nat, x3);
    let x4 = 58nat;
    let e4 = 2 * e3 + 1;
    lemma_power_mod_square_times(2nat, e3, n, x3, 56nat, x4);
}

proof fn lemma_power_59_over_2()
    ensures
        power_mod(2nat, 29nat, 59nat) == 58nat,
{
    lemma_power_mod_first(2nat, 59nat);
    lemma_power_59_over_2_part_0();
}

proof fn lemma_power_59_over_29_part_0()
    requires
        power_mod(2nat, 1nat, 59nat) == 2nat,
    ensures
        power_mod(2nat, 2nat, 59nat) == 4nat,
{
    let n = 59nat;
    let e0 = 1nat;
    let x0 = 2nat;
    let x1 = 4nat;
    let e1 = 2 * e0;
    lemma_power_mod_square(2nat, e0, n, x0, 0nat, x1);
}

proof fn lemma_power_59_over_29()
    ensures
        power_mod(2nat, 2nat, 59nat) == 4nat,
{
    lemma_power_mod_first(2nat, 59nat);
    lemma_power_59_over_29_part_0();
}

proof fn lemma_certificate_59()
    ensures
        is_certificate(59nat, 2nat, seq![2nat, 29nat]),
{
    let n = 59nat;
    let factors = seq![2nat, 29nat];
    lemma_small_primes();
    lemma_prime_29();
    lemma_power_59_over_2();
    lemma_fundamental_div_mod_converse(58int, 2int, 29int, 0);
    lemma_power_59_over_29();
    lemma_fundamental_div_mod_converse(58int, 29int, 2int, 0);
    lemma_power_mod_square(2nat, 29nat, n, 58nat, 57nat, 1);
    let f0 = Seq::<nat>::empty();
    lemma_product_push(f0, 2nat, 1nat);
    let f1 = f0.push(2nat);
    lemma_product_push(f1, 29nat, 2nat);
    let f2 = f1.push(29nat);
    assert(factors =~= f2);
    assert forall|j: int| 0 <= j < factors.len() implies is_prime(#[trigger] factors[j])
        && power_mod(2nat, ((n - 1) / factors[j] as int) as nat, n) != 1 by {
        if j == 0 {
        } else if j == 1 {
        }
    }
}

/// 59 is prime.
pub(crate) proof fn lemma_prime_59()
    ensures
        is_prime(59nat),
{
    lemma_certificate_59();
    lemma_certified_prime(59nat, 2nat, seq![2nat, 29nat]);
}

proof fn lemma_power_67_over_2_part_0()
    requires
        power_mod(2nat, 1nat, 67nat) == 2nat,
    ensures
        power_mod(2nat, 33nat, 67nat) == 66nat,
{
    let n = 67nat;
    let e0 = 1nat;
    let x0 = 2nat;
    let x1 = 4nat;
    let e1 = 2 * e0;
    lemma_power_mod_square(2nat, e0, n, x0, 0nat, x1);
    let x2 = 16nat;
    let e2 = 2 * e1;
    lemma_power_mod_square(2nat, e1, n, x1, 0nat, x2);
    let x3 = 55nat;
    let e3 = 2 * e2;
    lemma_power_mod_square(2nat, e2, n, x2, 3nat, x3);
    let x4 = 10nat;
    let e4 = 2 * e3;
    lemma_power_mod_square(2nat, e3, n, x3, 45nat, x4);
    let x5 = 66nat;
    let e5 = 2 * e4 + 1;
    lemma_power_mod_square_times(2nat, e4, n, x4, 2nat, x5);
}

proof fn lemma_power_67_over_2()
    ensures
        power_mod(2nat, 33nat, 67nat) == 66nat,
{
    lemma_power_mod_first(2nat, 67nat);
    lemma_power_67_over_2_part_0();
}

proof fn lemma_power_67_over_3_part_0()
    requires
        power_mod(2nat, 1nat, 67nat) == 2nat,
    ensures
        power_mod(2nat, 22nat, 67nat) == 37nat,
{
    let n = 67nat;
    let e0 = 1nat;
    let x0 = 2nat;
    let x1 = 4nat;
    let e1 = 2 * e0;
    lemma_power_mod_square(2nat, e0, n, x0, 0nat, x1);
    let x2 = 32nat;
    let e2 = 2 * e1 + 1;
    lemma_power_mod_square_times(2nat, e1, n, x1, 0nat, x2);
    let x3 = 38nat;
    let e3 = 2 * e2 + 1;
    lemma_power_mod_square_times(2nat, e2, n, x2, 30nat, x3);
    let x4 = 37nat;
    let e4 = 2 * e3;
    lemma_power_mod_square(2nat, e3, n, x3, 21nat, x4);
}

proof fn lemma_power_67_over_3()
    ensures
        power_mod(2nat, 22nat, 67nat) == 37nat,
{
    lemma_power_mod_first(2nat, 67nat);
    lemma_power_67_over_3_part_0();
}

proof fn lemma_power_67_over_11_part_0()
    requires
        power_mod(2nat, 1nat, 67nat) == 2nat,
    ensures
        power_mod(2nat, 6nat, 67nat) == 64nat,
{
    let n = 67nat;
    let e0 = 1nat;
    let x0 = 2nat;
    let x1 = 8nat;
    let e1 = 2 * e0 + 1;
    lemma_power_mod_square_times(2nat, e0, n, x0, 0nat, x1);
    let x2 = 64nat;
    let e2 = 2 * e1;
    lemma_power_mod_square(2nat, e1, n, x1, 0nat, x2);
}

proof fn lemma_power_67_over_11()
    ensures
        power_mod(2nat, 6nat, 67nat) == 64nat,
{
    lemma_power_mod_first(2nat, 67nat);
    lemma_power_67_over_11_part_0();
}

proof fn lemma_certificate_67()
    ensures
        is_certificate(67nat, 2nat, seq![2nat, 3nat, 11nat]),
{
    let n = 67nat;
    let factors = seq![2nat, 3nat, 11nat];
    lemma_small_primes();
    lemma_small_primes();
    lemma_prime_11();
    lemma_power_67_over_2();
    lemma_fundamental_div_mod_converse(66int, 2int, 33int, 0);
    lemma_power_67_over_3();
    lemma_fundamental_div_mod_converse(66int, 3int, 22int, 0);
    lemma_power_67_over_11();
    lemma_fundamental_div_mod_converse(66int, 11int, 6int, 0);
    lemma_power_mod_square(2nat, 33nat, n, 66nat, 65nat, 1);
    let f0 = Seq::<nat>::empty();
    lemma_product_push(f0, 2nat, 1nat);
    let f1 = f0.push(2nat);
    lemma_product_push(f1, 3nat, 2nat);
    let f2 = f1.push(3nat);
    lemma_product_push(f2, 11nat, 6nat);
    let f3 = f2.push(11nat);
    assert(factors =~= f3);
    assert forall|j: int| 0 <= j < factors.len() implies is_prime(#[trigger] factors[j])
        && power_mod(2nat, ((n - 1) / factors[j] as int) as nat, n) != 1 by {
        if j == 0 {
        } else if j == 1 {
        } else if j == 2 {
        }
    }
}

/// 67 is prime.
pub(crate) proof fn lemma_prime_67()
    ensures
        is_prime(67nat),
{
    lemma_certificate_67();
    lemma_certified_prime(67nat, 2nat, seq![2nat, 3nat, 11nat]);
}

proof fn lemma_power_73_over_2_part_0()
    requires
        power_mod(5nat, 1nat, 73nat) == 5nat,
    ensures
        power_mod(5nat, 36nat, 73nat) == 72nat,
{
    let n = 73nat;
    let e0 = 1nat;
    let x0 = 5nat;
    let x1 = 25nat;
    let e1 = 2 * e0;
    lemma_power_mod_square(5nat, e0, n, x0, 0nat, x1);
    let x2 = 41nat;
    let e2 = 2 * e1;
    lemma_power_mod_square(5nat, e1, n, x1, 8nat, x2);
    let x3 = 10nat;
    let e3 = 2 * e2 + 1;
    lemma_power_mod_square_times(5nat, e2, n, x2, 115nat, x3);
    let x4 = 27nat;
    let e4 = 2 * e3;
    lemma_power_mod_square(5nat, e3, n, x3, 1nat, x4);
    let x5 = 72nat;
    let e5 = 2 * e4;
    lemma_power_mod_square(5nat, e4, n, x4, 9nat, x5);
}

proof fn lemma_power_73_over_2()
    ensures
        power_mod(5nat, 36nat, 73nat) == 72nat,
{
    lemma_power_mod_first(5nat, 73nat);
    lemma_power_73_over_2_part_0();
}

proof fn lemma_power_73_over_3_part_0()
    requires
        power_mod(5nat, 1nat, 73nat) == 5nat,
    ensures
        power_mod(5nat, 24nat, 73nat) == 8nat,
{
    let n = 73nat;
    let e0 = 1nat;
    let x0 = 5nat;
    let x1 = 52nat;
    let e1 = 2 * e0 + 1;
    lemma_power_mod_square_times(5nat, e0, n, x0, 1nat, x1);
    let x2 = 3nat;
    let e2 = 2 * e1;
    lemma_power_mod_square(5nat, e1, n, x1, 37nat, x2);
    let x3 = 9nat;
    let e3 = 2 * e2;
    lemma_power_mod_square(5nat, e2, n, x2, 0nat, x3);
    let x4 = 8nat;
    let e4 = 2 * e3;
    lemma_power_mod_square(5nat, e3, n, x3, 1nat, x4);
}

proof fn lemma_power_73_over_3()
    ensures
        power_mod(5nat, 24nat, 73nat) == 8nat,
{
    lemma_power_mod_first(5nat, 73nat);
    lemma_power_73_over_3_part_0();
}

proof fn lemma_certificate_73()
    ensures
        is_certificate(73nat, 5nat, seq![2nat, 2nat, 2nat, 3nat, 3nat]),
{
    let n = 73nat;
    let factors = seq![2nat, 2nat, 2nat, 3nat, 3nat];
    lemma_small_primes();
    lemma_small_primes();
    lemma_power_73_over_2();
    lemma_fundamental_div_mod_converse(72int, 2int, 36int, 0);
    lemma_power_73_over_3();
    lemma_fundamental_div_mod_converse(72int, 3int, 24int, 0);
    lemma_power_mod_square(5nat, 36nat, n, 72nat, 71nat, 1);
    let f0 = Seq::<nat>::empty();
    lemma_product_push(f0, 2nat, 1nat);
    let f1 = f0.push(2nat);
    lemma_product_push(f1, 2nat, 2nat);
    let f2 = f1.push(2nat);
    lemma_product_push(f2, 2nat, 4nat);
    let f3 = f2.push(2nat);
    lemma_product_push(f3, 3nat, 8nat);
    let f4 = f3.push(3nat);
    lemma_product_push(f4, 3nat, 24nat);
    let f5 = f4.push(3nat);
    assert(factors =~= f5);
    assert forall|j: int| 0 <= j < factors.len() implies is_prime(#[trigger] factors[j])
        && power_mod(5nat, ((n - 1) / factors[j] as int) as nat, n) != 1 by {
        if j == 0 {
        } else if j == 1 {
        } else if j == 2 {
        } else if j == 3 {
        } else if j == 4 {
        }
    }
}

/// 73 is prime.
pub(crate) proof fn lemma_prime_73()
    ensures
        is_prime(73nat),
{
    lemma_certificate_73();
    lemma_certified_prime(73nat, 5nat, seq![2nat, 2nat, 2nat, 3nat, 3nat]);
}

proof fn lemma_power_83_over_2_part_0()
    requires
        power_mod(2nat, 1nat, 83nat) == 2nat,
    ensures
        power_mod(2nat, 41nat, 83nat) == 82nat,
{
    let n = 83nat;
    let e0 = 1nat;
    let x0 = 2nat;
    let x1 = 4nat;
    let e1 = 2 * e0;
    lemma_power_mod_square(2nat, e0, n, x0, 0nat, x1);
    let x2 = 32nat;
    let e2 = 2 * e1 + 1;
    lemma_power_mod_square_times(2nat, e1, n, x1, 0nat, x2);
    let x3 = 28nat;
    let e3 = 2 * e2;
    lemma_power_mod_square(2nat, e2, n, x2, 12nat, x3);
    let x4 = 37nat;
    let e4 = 2 * e3;
    lemma_power_mod_square(2nat, e3, n, x3, 9nat, x4);
    let x5 = 82nat;
    let e5 = 2 * e4 + 1;
    lemma_power_mod_square_times(2nat, e4, n, x4, 32nat, x5);
}

proof fn lemma_power_83_over_2()
    ensures
        power_mod(2nat, 41nat, 83nat) == 82nat,
{
    lemma_power_mod_first(2nat, 83nat);
    lemma_power_83_over_2_part_0();
}

proof fn lemma_power_83_over_41_part_0()
    requires
        power_mod(2nat, 1nat, 83nat) == 2nat,
    ensures
        power_mod(2nat, 2nat, 83nat) == 4nat,
{
    let n = 83nat;
    let e0 = 1nat;
    let x0 = 2nat;
    let x1 = 4nat;
    let e1 = 2 * e0;
    lemma_power_mod_square(2nat, e0, n, x0, 0nat, x1);
}

proof fn lemma_power_83_over_41()
    ensures
        power_mod(2nat, 2nat, 83nat) == 4nat,
{
    lemma_power_mod_first(2nat, 83nat);
    lemma_power_83_over_41_part_0();
}

proof fn lemma_certificate_83()
    ensures
        is_certificate(83nat, 2nat, seq![2nat, 41nat]),
{
    let n = 83nat;
    let factors = seq![2nat, 41nat];
    lemma_small_primes();
    lemma_prime_41();
    lemma_power_83_over_2();
    lemma_fundamental_div_mod_converse(82int, 2int, 41int, 0);
    lemma_power_83_over_41();
    lemma_fundamental_div_mod_converse(82int, 41int, 2int, 0);
    lemma_power_mod_square(2nat, 41nat, n, 82nat, 81nat, 1);
    let f0 = Seq::<nat>::empty();
    lemma_product_push(f0, 2nat, 1nat);
    let f1 = f0.push(2nat);
    lemma_product_push(f1, 41nat, 2nat);
    let f2 = f1.push(41nat);
    assert(factors =~= f2);
    assert forall|j: int| 0 <= j < factors.len() implies is_prime(#[trigger] factors[j])
        && power_mod(2nat, ((n - 1) / factors[j] as int) as nat, n) != 1 by {
        if j == 0 {
        } else if j == 1 {
        }
    }
}

/// 83 is prime.
pub(crate) proof fn lemma_prime_83()
    ensures
        is_prime(83nat),
{
    lemma_certificate_83();
    lemma_certified_prime(83nat, 2nat, seq![2nat, 41nat]);
}

proof fn lemma_power_97_over_2_part_0()
    requires
        power_mod(5nat, 1nat, 97nat) == 5nat,
    ensures
        power_mod(5nat, 48nat, 97nat) == 96nat,
{
    let n = 97nat;
    let e0 = 1nat;
    let x0 = 5nat;
    let x1 = 28nat;
    let e1 = 2 * e0 + 1;
    lemma_power_mod_square_times(5nat, e0, n, x0, 1nat, x1);
    let x2 = 8nat;
    let e2 = 2 * e1;
    lemma_power_mod_square(5nat, e1, n, x1, 8nat, x2);
    let x3 = 64nat;
    let e3 = 2 * e2;
    lemma_power_mod_square(5nat, e2, n, x2, 0nat, x3);
    let x4 = 22nat;
    let e4 = 2 * e3;
    lemma_power_mod_square(5nat, e3, n, x3, 42nat, x4);
    let x5 = 96nat;
    let e5 = 2 * e4;
    lemma_power_mod_square(5nat, e4, n, x4, 4nat, x5);
}

proof fn lemma_power_97_over_2()
    ensures
        power_mod(5nat, 48nat, 97nat) == 96nat,
{
    lemma_power_mod_first(5nat, 97nat);
    lemma_power_97_over_2_part_0();
}

proof fn lemma_power_97_over_3_part_0()
    requires
        power_mod(5nat, 1nat, 97nat) == 5nat,
    ensures
        power_mod(5nat, 32nat, 97nat) == 35nat,
{
    let n = 97nat;
    let e0 = 1nat;
    let x0 = 5nat;
    let x1 = 25nat;
    let e1 = 2 * e0;
    lemma_power_mod_square(5nat, e0, n, x0, 0nat, x1);
    let x2 = 43nat;
    let e2 = 2 * e1;
    lemma_power_mod_square(5nat, e1, n, x1, 6nat, x2);
    let x3 = 6nat;
    let e3 = 2 * e2;
    lemma_power_mod_square(5nat, e2, n, x2, 19nat, x3);
    let x4 = 36nat;
    let e4 = 2 * e3;
    lemma_power_mod_square(5nat, e3, n, x3, 0nat, x4);
    let x5 = 35nat;
    let e5 = 2 * e4;
    lemma_power_mod_square(5nat, e4, n, x4, 13nat, x5);
}

proof fn lemma_power_97_over_3()
    ensures
        power_mod(5nat, 32nat, 97nat) == 35nat,
{
    lemma_power_mod_first(5nat, 97nat);
    lemma_power_97_over_3_part_0();
}

proof fn lemma_certificate_97()
    ensures
        is_certificate(97nat, 5nat, seq![2nat, 2nat, 2nat, 2nat, 2nat, 3nat]),
{
    let n = 97nat;
    let factors = seq![2nat, 2nat, 2nat, 2nat, 2nat, 3nat];
    lemma_small_primes();
    lemma_small_primes();
    lemma_power_97_over_2();
    lemma_fundamental_div_mod_converse(96int, 2int, 48int, 0);
    lemma_power_97_over_3();
    lemma_fundamental_div_mod_converse(96int, 3int, 32int, 0);
    lemma_power_mod_square(5nat, 48nat, n, 96nat, 95nat, 1);
    let f0 = Seq::<nat>::empty();
    lemma_product_push(f0, 2nat, 1nat);
    let f1 = f0.push(2nat);
    lemma_product_push(f1, 2nat, 2nat);
    let f2 = f1.push(2nat);
    lemma_product_push(f2, 2nat, 4nat);
    let f3 = f2.push(2nat);
    lemma_product_push(f3, 2nat, 8nat);
    let f4 = f3.push(2nat);
    lemma_product_push(f4, 2nat, 16nat);
    let f5 = f4.push(2nat);
    lemma_product_push(f5, 3nat, 32nat);
    let f6 = f5.push(3nat);
    assert(factors =~= f6);
    assert forall|j: int| 0 <= j < factors.len() implies is_prime(#[trigger] factors[j])
        && power_mod(5nat, ((n - 1) / factors[j] as int) as nat, n) != 1 by {
        if j == 0 {
        } else if j == 1 {
        } else if j == 2 {
        } else if j == 3 {
        } else if j == 4 {
        } else if j == 5 {
        }
    }
}

/// 97 is prime.
pub(crate) proof fn lemma_prime_97()
    ensures
        is_prime(97nat),
{
    lemma_certificate_97();
    lemma_certified_prime(97nat, 5nat, seq![2nat, 2nat, 2nat, 2nat, 2nat, 3nat]);
}

proof fn lemma_power_101_over_2_part_0()
    requires
        power_mod(2nat, 1nat, 101nat) == 2nat,
    ensures
        power_mod(2nat, 50nat, 101nat) == 100nat,
{
    let n = 101nat;
    let e0 = 1nat;
    let x0 = 2nat;
    let x1 = 8nat;
    let e1 = 2 * e0 + 1;
    lemma_power_mod_square_times(2nat, e0, n, x0, 0nat, x1);
    let x2 = 64nat;
    let e2 = 2 * e1;
    lemma_power_mod_square(2nat, e1, n, x1, 0nat, x2);
    let x3 = 56nat;
    let e3 = 2 * e2;
    lemma_power_mod_square(2nat, e2, n, x2, 40nat, x3);
    let x4 = 10nat;
    let e4 = 2 * e3 + 1;
    lemma_power_mod_square_times(2nat, e3, n, x3, 62nat, x4);
    let x5 = 100nat;
    let e5 = 2 * e4;
    lemma_power_mod_square(2nat, e4, n, x4, 0nat, x5);
}

proof fn lemma_power_101_over_2()
    ensures
        power_mod(2nat, 50nat, 101nat) == 100nat,
{
    lemma_power_mod_first(2nat, 101nat);
    lemma_power_101_over_2_part_0();
}

proof fn lemma_power_101_over_5_part_0()
    requires
        power_mod(2nat, 1nat, 101nat) == 2nat,
    ensures
        power_mod(2nat, 20nat, 101nat) == 95nat,
{
    let n = 101nat;
    let e0 = 1nat;
    let x0 = 2nat;
    let x1 = 4nat;
    let e1 = 2 * e0;
    lemma_power_mod_square(2nat, e0, n, x0, 0nat, x1);
    let x2 = 32nat;
    let e2 = 2 * e1 + 1;
    lemma_power_mod_square_times(2nat, e1, n, x1, 0nat, x2);
    let x3 = 14nat;
    let e3 = 2 * e2;
    lemma_power_mod_square(2nat, e2, n, x2, 10nat, x3);
    let x4 = 95nat;
    let e4 = 2 * e3;
    lemma_power_mod_square(2nat, e3, n, x3, 1nat, x4);
}

proof fn lemma_power_101_over_5()
    ensures
        power_mod(2nat, 20nat, 101nat) == 95nat,
{
    lemma_power_mod_first(2nat, 101nat);
    lemma_power_101_over_5_part_0();
}

proof fn lemma_certificate_101()
    ensures
        is_certificate(101nat, 2nat, seq![2nat, 2nat, 5nat, 5nat]),
{
    let n = 101nat;
    let factors = seq![2nat, 2nat, 5nat, 5nat];
    lemma_small_primes();
    lemma_small_primes();
    lemma_power_101_over_2();
    lemma_fundamental_div_mod_converse(100int, 2int, 50int, 0);
    lemma_power_101_over_5();
    lemma_fundamental_div_mod_converse(100int, 5int, 20int, 0);
    lemma_power_mod_square(2nat, 50nat, n, 100nat, 99nat, 1);
    let f0 = Seq::<nat>::empty();
    lemma_product_push(f0, 2nat, 1nat);
    let f1 = f0.push(2nat);
    lemma_product_push(f1, 2nat, 2nat);
    let f2 = f1.push(2nat);
    lemma_product_push(f2, 5nat, 4nat);
    let f3 = f2.push(5nat);
    lemma_product_push(f3, 5nat, 20nat);
    let f4 = f3.push(5nat);
    assert(factors =~= f4);
    assert forall|j: int| 0 <= j < factors.len() implies is_prime(#[trigger] factors[j])
        && power_mod(2nat, ((n - 1) / factors[j] as int) as nat, n) != 1 by {
        if j == 0 {
        } else if j == 1 {
        } else if j == 2 {
        } else if j == 3 {
        }
    }
}

/// 101 is prime.
pub(crate) proof fn lemma_prime_101()
    ensures
        is_prime(101nat),
{
    lemma_certificate_101();
    lemma_certified_prime(101nat, 2nat, seq![2nat, 2nat, 5nat, 5nat]);
}

proof fn lemma_power_103_over_2_part_0()
    requires
        power_mod(5nat, 1nat, 103nat) == 5nat,
    ensures
        power_mod(5nat, 51nat, 103nat) == 102nat,
{
    let n = 103nat;
    let e0 = 1nat;
    let x0 = 5nat;
    let x1 = 22nat;
    let e1 = 2 * e0 + 1;
    lemma_power_mod_square_times(5nat, e0, n, x0, 1nat, x1);
    let x2 = 72nat;
    let e2 = 2 * e1;
    lemma_power_mod_square(5nat, e1, n, x1, 4nat, x2);
    let x3 = 34nat;
    let e3 = 2 * e2;
    lemma_power_mod_square(5nat, e2, n, x2, 50nat, x3);
    let x4 = 12nat;
    let e4 = 2 * e3 + 1;
    lemma_power_mod_square_times(5nat, e3, n, x3, 56nat, x4);
    let x5 = 102nat;
    let e5 = 2 * e4 + 1;
    lemma_power_mod_square_times(5nat, e4, n, x4, 6nat, x5);
}

proof fn lemma_power_103_over_2()
    ensures
        power_mod(5nat, 51nat, 103nat) == 102nat,
{
    lemma_power_mod_first(5nat, 103nat);
    lemma_power_103_over_2_part_0();
}

proof fn lemma_power_103_over_3_part_0()
    requires
        power_mod(5nat, 1nat, 103nat) == 5nat,
    ensures
        power_mod(5nat, 34nat, 103nat) == 56nat,
{
    let n = 103nat;
    let e0 = 1nat;
    let x0 = 5nat;
    let x1 = 25nat;
    let e1 = 2 * e0;
    lemma_power_mod_square(5nat, e0, n, x0, 0nat, x1);
    let x2 = 7nat;
    let e2 = 2 * e1;
    lemma_power_mod_square(5nat, e1, n, x1, 6nat, x2);
    let x3 = 49nat;
    let e3 = 2 * e2;
    lemma_power_mod_square(5nat, e2, n, x2, 0nat, x3);
    let x4 = 57nat;
    let e4 = 2 * e3 + 1;
    lemma_power_mod_square_times(5nat, e3, n, x3, 116nat, x4);
    let x5 = 56nat;
    let e5 = 2 * e4;
    lemma_power_mod_square(5nat, e4, n, x4, 31nat, x5);
}

proof fn lemma_power_103_over_3()
    ensures
        power_mod(5nat, 34nat, 103nat) == 56nat,
{
    lemma_power_mod_first(5nat, 103nat);
    lemma_power_103_over_3_part_0();
}

proof fn lemma_power_103_over_17_part_0()
    requires
        power_mod(5nat, 1nat, 103nat) == 5nat,
    ensures
        power_mod(5nat, 6nat, 103nat) == 72nat,
{
    let n = 103nat;
    let e0 = 1nat;
    let x0 = 5nat;
    let x1 = 22nat;
    let e1 = 2 * e0 + 1;
    lemma_power_mod_square_times(5nat, e0, n, x0, 1nat, x1);
    let x2 = 72nat;
    let e2 = 2 * e1;
    lemma_power_mod_square(5nat, e1, n, x1, 4nat, x2);
}

proof fn lemma_power_103_over_17()
    ensures
        power_mod(5nat, 6nat, 103nat) == 72nat,
{
    lemma_power_mod_first(5nat, 103nat);
    lemma_power_103_over_17_part_0();
}

proof fn lemma_certificate_103()
    ensures
        is_certificate(103nat, 5nat, seq![2nat, 3nat, 17nat]),
{
    let n = 103nat;
    let factors = seq![2nat, 3nat, 17nat];
    lemma_small_primes();
    lemma_small_primes();
    lemma_prime_17();
    lemma_power_103_over_2();
    lemma_fundamental_div_mod_converse(102int, 2int, 51int, 0);
    lemma_power_103_over_3();
    lemma_fundamental_div_mod_converse(102int, 3int, 34int, 0);
    lemma_power_103_over_17();
    lemma_fundamental_div_mod_converse(102int, 17int, 6int, 0);
    lemma_power_mod_square(5nat, 51nat, n, 102nat, 101nat, 1);
    let f0 = Seq::<nat>::empty();
    lemma_product_push(f0, 2nat, 1nat);
    let f1 = f0.push(2nat);
    lemma_product_push(f1, 3nat, 2nat);
    let f2 = f1.push(3nat);
    lemma_product_push(f2, 17nat, 6nat);
    let f3 = f2.push(17nat);
    assert(factors =~= f3);
    assert forall|j: int| 0 <= j < factors.len() implies is_prime(#[trigger] factors[j])
        && power_mod(5nat, ((n - 1) / factors[j] as int) as nat, n) != 1 by {
        if j == 0 {
        } else if j == 1 {
        } else if j == 2 {
        }
    }
}

/// 103 is prime.
pub(crate) proof fn lemma_prime_103()
    ensures
        is_prime(103nat),
{
    lemma_certificate_103();
    lemma_certified_prime(103nat, 5nat, seq![2nat, 3nat, 17nat]);
}

proof fn lemma_power_109_over_2_part_0()
    requires
        power_mod(6nat, 1nat, 109nat) == 6nat,
    ensures
        power_mod(6nat, 54nat, 109nat) == 108nat,
{
    let n = 109nat;
    let e0 = 1nat;
    let x0 = 6nat;
    let x1 = 107nat;
    let e1 = 2 * e0 + 1;
    lemma_power_mod_square_times(6nat, e0, n, x0, 1nat, x1);
    let x2 = 4nat;
    let e2 = 2 * e1;
    lemma_power_mod_square(6nat, e1, n, x1, 105nat, x2);
    let x3 = 96nat;
    let e3 = 2 * e2 + 1;
    lemma_power_mod_square_times(6nat, e2, n, x2, 0nat, x3);
    let x4 = 33nat;
    let e4 = 2 * e3 + 1;
    lemma_power_mod_square_times(6nat, e3, n, x3, 507nat, x4);
    let x5 = 108nat;
    let e5 = 2 * e4;
    lemma_power_mod_square(6nat, e4, n, x4, 9nat, x5);
}

proof fn lemma_power_109_over_2()
    ensures
        power_mod(6nat, 54nat, 109nat) == 108nat,
{
    lemma_power_mod_first(6nat, 109nat);
    lemma_power_109_over_2_part_0();
}

proof fn lemma_power_109_over_3_part_0()
    requires
        power_mod(6nat, 1nat, 109nat) == 6nat,
    ensures
        power_mod(6nat, 36nat, 109nat) == 63nat,
{
    let n = 109nat;
    let e0 = 1nat;
    let x0 = 6nat;
    let x1 = 36nat;
    let e1 = 2 * e0;
    lemma_power_mod_square(6nat, e0, n, x0, 0nat, x1);
    let x2 = 97nat;
    let e2 = 2 * e1;
    lemma_power_mod_square(6nat, e1, n, x1, 11nat, x2);
    let x3 = 101nat;
    let e3 = 2 * e2 + 1;
    lemma_power_mod_square_times(6nat, e2, n, x2, 517nat, x3);
    let x4 = 64nat;
    let e4 = 2 * e3;
    lemma_power_mod_square(6nat, e3, n, x3, 93nat, x4);
    let x5 = 63nat;
    let e5 = 2 * e4;
    lemma_power_mod_square(6nat, e4, n, x4, 37nat, x5);
}

proof fn lemma_power_109_over_3()
    ensures
        power_mod(6nat, 36nat, 109nat) == 63nat,
{
    lemma_power_mod_first(6nat, 109nat);
    lemma_power_109_over_3_part_0();
}

proof fn lemma_certificate_109()
    ensures
        is_certificate(109nat, 6nat, seq![2nat, 2nat, 3nat, 3nat, 3nat]),
{
    let n = 109nat;
    let factors = seq![2nat, 2nat, 3nat, 3nat, 3nat];
    lemma_small_primes();
    lemma_small_primes();
    lemma_power_109_over_2();
    lemma_fundamental_div_mod_converse(108int, 2int, 54int, 0);
    lemma_power_109_over_3();
    lemma_fundamental_div_mod_converse(108int, 3int, 36int, 0);
    lemma_power_mod_square(6nat, 54nat, n, 108nat, 107nat, 1);
    let f0 = Seq::<nat>::empty();
    lemma_product_push(f0, 2nat, 1nat);
    let f1 = f0.push(2nat);
    lemma_product_push(f1, 2nat, 2nat);
    let f2 = f1.push(2nat);
    lemma_product_push(f2, 3nat, 4nat);
    let f3 = f2.push(3nat);
    lemma_product_push(f3, 3nat, 12nat);
    let f4 = f3.push(3nat);
    lemma_product_push(f4, 3nat, 36nat);
    let f5 = f4.push(3nat);
    assert(factors =~= f5);
    assert forall|j: int| 0 <= j < factors.len() implies is_prime(#[trigger] factors[j])
        && power_mod(6nat, ((n - 1) / factors[j] as int) as nat, n) != 1 by {
        if j == 0 {
        } else if j == 1 {
        } else if j == 2 {
        } else if j == 3 {
        } else if j == 4 {
        }
    }
}

/// 109 is prime.
pub(crate) proof fn lemma_prime_109()
    ensures
        is_prime(109nat),
{
    lemma_certificate_109();
    lemma_certified_prime(109nat, 6nat, seq![2nat, 2nat, 3nat, 3nat, 3nat]);
}

proof fn lemma_power_113_over_2_part_0()
    requires
        power_mod(3nat, 1nat, 113nat) == 3nat,
    ensures
        power_mod(3nat, 56nat, 113nat) == 112nat,
{
    let n = 113nat;
    let e0 = 1nat;
    let x0 = 3nat;
    let x1 = 27nat;
    let e1 = 2 * e0 + 1;
    lemma_power_mod_square_times(3nat, e0, n, x0, 0nat, x1);
    let x2 = 40nat;
    let e2 = 2 * e1 + 1;
    lemma_power_mod_square_times(3nat, e1, n, x1, 19nat, x2);
    let x3 = 18nat;
    let e3 = 2 * e2;
    lemma_power_mod_square(3nat, e2, n, x2, 14nat, x3);
    let x4 = 98nat;
    let e4 = 2 * e3;
    lemma_power_mod_square(3nat, e3, n, x3, 2nat, x4);
    let x5 = 112nat;
    let e5 = 2 * e4;
    lemma_power_mod_square(3nat, e4, n, x4, 84nat, x5);
}

proof fn lemma_power_113_over_2()
    ensures
        power_mod(3nat, 56nat, 113nat) == 112nat,
{
    lemma_power_mod_first(3nat, 113nat);
    lemma_power_113_over_2_part_0();
}

proof fn lemma_power_113_over_7_part_0()
    requires
        power_mod(3nat, 1nat, 113nat) == 3nat,
    ensures
        power_mod(3nat, 16nat, 113nat) == 49nat,
{
    let n = 113nat;
    let e0 = 1nat;
    let x0 = 3nat;
    let x1 = 9nat;
    let e1 = 2 * e0;
    lemma_power_mod_square(3nat, e0, n, x0, 0nat, x1);
    let x2 = 81nat;
    let e2 = 2 * e1;
    lemma_power_mod_square(3nat, e1, n, x1, 0nat, x2);
    let x3 = 7nat;
    let e3 = 2 * e2;
    lemma_power_mod_square(3nat, e2, n, x2, 58nat, x3);
    let x4 = 49nat;
    let e4 = 2 * e3;
    lemma_power_mod_square(3nat, e3, n, x3, 0nat, x4);
}

proof fn lemma_power_113_over_7()
    ensures
        power_mod(3nat, 16nat, 113nat) == 49nat,
{
    lemma_power_mod_first(3nat, 113nat);
    lemma_power_113_over_7_part_0();
}

proof fn lemma_certificate_113()
    ensures
        is_certificate(113nat, 3nat, seq![2nat, 2nat, 2nat, 2nat, 7nat]),
{
    let n = 113nat;
    let factors = seq![2nat, 2nat, 2nat, 2nat, 7nat];
    lemma_small_primes();
    lemma_small_primes();
    lemma_power_113_over_2();
    lemma_fundamental_div_mod_converse(112int, 2int, 56int, 0);
    lemma_power_113_over_7();
    lemma_fundamental_div_mod_converse(112int, 7int, 16int, 0);
    lemma_power_mod_square(3nat, 56nat, n, 112nat, 111nat, 1);
    let f0 = Seq::<nat>::empty();
    lemma_product_push(f0, 2nat, 1nat);
    let f1 = f0.push(2nat);
    lemma_product_push(f1, 2nat, 2nat);
    let f2 = f1.push(2nat);
    lemma_product_push(f2, 2nat, 4nat);
    let f3 = f2.push(2nat);
    lemma_product_push(f3, 2nat, 8nat);
    let f4 = f3.push(2nat);
    lemma_product_push(f4, 7nat, 16nat);
    let f5 = f4.push(7nat);
    assert(factors =~= f5);
    assert forall|j: int| 0 <= j < factors.len() implies is_prime(#[trigger] factors[j])
        && power_mod(3nat, ((n - 1) / factors[j] as int) as nat, n) != 1 by {
        if j == 0 {
        } else if j == 1 {
        } else if j == 2 {
        } else if j == 3 {
        } else if j == 4 {
        }
    }
}

/// 113 is prime.
pub(crate) proof fn lemma_prime_113()
    ensures
        is_prime(113nat),
{
    lemma_certificate_113();
    lemma_certified_prime(113nat, 3nat, seq![2nat, 2nat, 2nat, 2nat, 7nat]);
}

proof fn lemma_power_131_over_2_part_0()
    requires
        power_mod(2nat, 1nat, 131nat) == 2nat,
    ensures
        power_mod(2nat, 65nat, 131nat) == 130nat,
{
    let n = 131nat;
    let e0 = 1nat;
    let x0 = 2nat;
    let x1 = 4nat;
    let e1 = 2 * e0;
    lemma_power_mod_square(2nat, e0, n, x0, 0nat, x1);
    let x2 = 16nat;
    let e2 = 2 * e1;
    lemma_power_mod_square(2nat, e1, n, x1, 0nat, x2);
    let x3 = 125nat;
    let e3 = 2 * e2;
    lemma_power_mod_square(2nat, e2, n, x2, 1nat, x3);
    let x4 = 36nat;
    let e4 = 2 * e3;
    lemma_power_mod_square(2nat, e3, n, x3, 119nat, x4);
    let x5 = 117nat;
    let e5 = 2 * e4;
    lemma_power_mod_square(2nat, e4, n, x4, 9nat, x5);
    let x6 = 130nat;
    let e6 = 2 * e5 + 1;
    lemma_power_mod_square_times(2nat, e5, n, x5, 208nat, x6);
}

proof fn lemma_power_131_over_2()
    ensures
        power_mod(2nat, 65nat, 131nat) == 130nat,
{
    lemma_power_mod_first(2nat, 131nat);
    lemma_power_131_over_2_part_0();
}

proof fn lemma_power_131_over_5_part_0()
    requires
        power_mod(2nat, 1nat, 131nat) == 2nat,
    ensures
        power_mod(2nat, 26nat, 131nat) == 53nat,
{
    let n = 131nat;
    let e0 = 1nat;
    let x0 = 2nat;
    let x1 = 8nat;
    let e1 = 2 * e0 + 1;
    lemma_power_mod_square_times(2nat, e0, n, x0, 0nat, x1);
    let x2 = 64nat;
    let e2 = 2 * e1;
    lemma_power_mod_square(2nat, e1, n, x1, 0nat, x2);
    let x3 = 70nat;
    let e3 = 2 * e2 + 1;
    lemma_power_mod_square_times(2nat, e2, n, x2, 62nat, x3);
    let x4 = 53nat;
    let e4 = 2 * e3;
    lemma_power_mod_square(2nat, e3, n, x3, 37nat, x4);
}

proof fn lemma_power_131_over_5()
    ensures
        power_mod(2nat, 26nat, 131nat) == 53nat,
{
    lemma_power_mod_first(2nat, 131nat);
    lemma_power_131_over_5_part_0();
}

proof fn lemma_power_131_over_13_part_0()
    requires
        power_mod(2nat, 1nat, 131nat) == 2nat,
    ensures
        power_mod(2nat, 10nat, 131nat) == 107nat,
{
    let n = 131nat;
    let e0 = 1nat;
    let x0 = 2nat;
    let x1 = 4nat;
    let e1 = 2 * e0;
    lemma_power_mod_square(2nat, e0, n, x0, 0nat, x1);
    let x2 = 32nat;
    let e2 = 2 * e1 + 1;
    lemma_power_mod_square_times(2nat, e1, n, x1, 0nat, x2);
    let x3 = 107nat;
    let e3 = 2 * e2;
    lemma_power_mod_square(2nat, e2, n, x2, 7nat, x3);
}

proof fn lemma_power_131_over_13()
    ensures
        power_mod(2nat, 10nat, 131nat) == 107nat,
{
    lemma_power_mod_first(2nat, 131nat);
    lemma_power_131_over_13_part_0();
}

proof fn lemma_certificate_131()
    ensures
        is_certificate(131nat, 2nat, seq![2nat, 5nat, 13nat]),
{
    let n = 131nat;
    let factors = seq![2nat, 5nat, 13nat];
    lemma_small_primes();
    lemma_small_primes();
    lemma_prime_13();
    lemma_power_131_over_2();
    lemma_fundamental_div_mod_converse(130int, 2int, 65int, 0);
    lemma_power_131_over_5();
    lemma_fundamental_div_mod_converse(130int, 5int, 26int, 0);
    lemma_power_131_over_13();
    lemma_fundamental_div_mod_converse(130int, 13int, 10int, 0);
    lemma_power_mod_square(2nat, 65nat, n, 130nat, 129nat, 1);
    let f0 = Seq::<nat>::empty();
    lemma_product_push(f0, 2nat, 1nat);
    let f1 = f0.push(2nat);
    lemma_product_push(f1, 5nat, 2nat);
    let f2 = f1.push(5nat);
    lemma_product_push(f2, 13nat, 10nat);
    let f3 = f2.push(13nat);
    assert(factors =~= f3);
    assert forall|j: int| 0 <= j < factors.len() implies is_prime(#[trigger] factors[j])
        && power_mod(2nat, ((n - 1) / factors[j] as int) as nat, n) != 1 by {
        if j == 0 {
        } else if j == 1 {
        } else if j == 2 {
        }
    }
}

/// 131 is prime.
pub(crate) proof fn lemma_prime_131()
    ensures
        is_prime(131nat),
{
    lemma_certificate_131();
    lemma_certified_prime(131nat, 2nat, seq![2nat, 5nat, 13nat]);
}

proof fn lemma_power_149_over_2_part_0()
    requires
        power_mod(2nat, 1nat, 149nat) == 2nat,
    ensures
        power_mod(2nat, 74nat, 149nat) == 148nat,
{
    let n = 149nat;
    let e0 = 1nat;
    let x0 = 2nat;
    let x1 = 4nat;
    let e1 = 2 * e0;
    lemma_power_mod_square(2nat, e0, n, x0, 0nat, x1);
    let x2 = 16nat;
    let e2 = 2 * e1;
    lemma_power_mod_square(2nat, e1, n, x1, 0nat, x2);
    let x3 = 65nat;
    let e3 = 2 * e2 + 1;
    lemma_power_mod_square_times(2nat, e2, n, x2, 3nat, x3);
    let x4 = 53nat;
    let e4 = 2 * e3;
    lemma_power_mod_square(2nat, e3, n, x3, 28nat, x4);
    let x5 = 105nat;
    let e5 = 2 * e4 + 1;
    lemma_power_mod_square_times(2nat, e4, n, x4, 37nat, x5);
    let x6 = 148nat;
    let e6 = 2 * e5;
    lemma_power_mod_square(2nat, e5, n, x5, 73nat, x6);
}

proof fn lemma_power_149_over_2()
    ensures
        power_mod(2nat, 74nat, 149nat) == 148nat,
{
    lemma_power_mod_first(2nat, 149nat);
    lemma_power_149_over_2_part_0();
}

proof fn lemma_power_149_over_37_part_0()
    requires
        power_mod(2nat, 1nat, 149nat) == 2nat,
    ensures
        power_mod(2nat, 4nat, 149nat) == 16nat,
{
    let n = 149nat;
    let e0 = 1nat;
    let x0 = 2nat;
    let x1 = 4nat;
    let e1 = 2 * e0;
    lemma_power_mod_square(2nat, e0, n, x0, 0nat, x1);
    let x2 = 16nat;
    let e2 = 2 * e1;
    lemma_power_mod_square(2nat, e1, n, x1, 0nat, x2);
}

proof fn lemma_power_149_over_37()
    ensures
        power_mod(2nat, 4nat, 149nat) == 16nat,
{
    lemma_power_mod_first(2nat, 149nat);
    lemma_power_149_over_37_part_0();
}

proof fn lemma_certificate_149()
    ensures
        is_certificate(149nat, 2nat, seq![2nat, 2nat, 37nat]),
{
    let n = 149nat;
    let factors = seq![2nat, 2nat, 37nat];
    lemma_small_primes();
    lemma_prime_37();
    lemma_power_149_over_2();
    lemma_fundamental_div_mod_converse(148int, 2int, 74int, 0);
    lemma_power_149_over_37();
    lemma_fundamental_div_mod_converse(148int, 37int, 4int, 0);
    lemma_power_mod_square(2nat, 74nat, n, 148nat, 147nat, 1);
    let f0 = Seq::<nat>::empty();
    lemma_product_push(f0, 2nat, 1nat);
    let f1 = f0.push(2nat);
    lemma_product_push(f1, 2nat, 2nat);
    let f2 = f1.push(2nat);
    lemma_product_push(f2, 37nat, 4nat);
    let f3 = f2.push(37nat);
    assert(factors =~= f3);
    assert forall|j: int| 0 <= j < factors.len() implies is_prime(#[trigger] factors[j])
        && power_mod(2nat, ((n - 1) / factors[j] as int) as nat, n) != 1 by {
        if j == 0 {
        } else if j == 1 {
        } else if j == 2 {
        }
    }
}

/// 149 is prime.
pub(crate) proof fn lemma_prime_149()
    ensures
        is_prime(149nat),
{
    lemma_certificate_149();
    lemma_certified_prime(149nat, 2nat, seq![2nat, 2nat, 37nat]);
}

proof fn lemma_power_199_over_2_part_0()
    requires
        power_mod(3nat, 1nat, 199nat) == 3nat,
    ensures
        power_mod(3nat, 99nat, 199nat) == 198nat,
{
    let n = 199nat;
    let e0 = 1nat;
    let x0 = 3nat;
    let x1 = 27nat;
    let e1 = 2 * e0 + 1;
    lemma_power_mod_square_times(3nat, e0, n, x0, 0nat, x1);
    let x2 = 132nat;
    let e2 = 2 * e1;
    lemma_power_mod_square(3nat, e1, n, x1, 3nat, x2);
    let x3 = 111nat;
    let e3 = 2 * e2;
    lemma_power_mod_square(3nat, e2, n, x2, 87nat, x3);
    let x4 = 182nat;
    let e4 = 2 * e3;
    lemma_power_mod_square(3nat, e3, n, x3, 61nat, x4);
    let x5 = 71nat;
    let e5 = 2 * e4 + 1;
    lemma_power_mod_square_times(3nat, e4, n, x4, 499nat, x5);
    let x6 = 198nat;
    let e6 = 2 * e5 + 1;
    lemma_power_mod_square_times(3nat, e5, n, x5, 75nat, x6);
}

proof fn lemma_power_199_over_2()
    ensures
        power_mod(3nat, 99nat, 199nat) == 198nat,
{
    lemma_power_mod_first(3nat, 199nat);
    lemma_power_199_over_2_part_0();
}

proof fn lemma_power_199_over_3_part_0()
    requires
        power_mod(3nat, 1nat, 199nat) == 3nat,
    ensures
        power_mod(3nat, 66nat, 199nat) == 106nat,
{
    let n = 199nat;
    let e0 = 1nat;
    let x0 = 3nat;
    let x1 = 9nat;
    let e1 = 2 * e0;
    lemma_power_mod_square(3nat, e0, n, x0, 0nat, x1);
    let x2 = 81nat;
    let e2 = 2 * e1;
    lemma_power_mod_square(3nat, e1, n, x1, 0nat, x2);
    let x3 = 193nat;
    let e3 = 2 * e2;
    lemma_power_mod_square(3nat, e2, n, x2, 32nat, x3);
    let x4 = 36nat;
    let e4 = 2 * e3;
    lemma_power_mod_square(3nat, e3, n, x3, 187nat, x4);
    let x5 = 107nat;
    let e5 = 2 * e4 + 1;
    lemma_power_mod_square_times(3nat, e4, n, x4, 19nat, x5);
    let x6 = 106nat;
    let e6 = 2 * e5;
    lemma_power_mod_square(3nat, e5, n, x5, 57nat, x6);
}

proof fn lemma_power_199_over_3()
    ensures
        power_mod(3nat, 66nat, 199nat) == 106nat,
{
    lemma_power_mod_first(3nat, 199nat);
    lemma_power_199_over_3_part_0();
}

proof fn lemma_power_199_over_11_part_0()
    requires
        power_mod(3nat, 1nat, 199nat) == 3nat,
    ensures
        power_mod(3nat, 18nat, 199nat) == 125nat,
{
    let n = 199nat;
    let e0 = 1nat;
    let x0 = 3nat;
    let x1 = 9nat;
    let e1 = 2 * e0;
    lemma_power_mod_square(3nat, e0, n, x0, 0nat, x1);
    let x2 = 81nat;
    let e2 = 2 * e1;
    lemma_power_mod_square(3nat, e1, n, x1, 0nat, x2);
    let x3 = 181nat;
    let e3 = 2 * e2 + 1;
    lemma_power_mod_square_times(3nat, e2, n, x2, 98nat, x3);
    let x4 = 125nat;
    let e4 = 2 * e3;
    lemma_power_mod_square(3nat, e3, n, x3, 164nat, x4);
}

proof fn lemma_power_199_over_11()
    ensures
        power_mod(3nat, 18nat, 199nat) == 125nat,
{
    lemma_power_mod_first(3nat, 199nat);
    lemma_power_199_over_11_part_0();
}

proof fn lemma_certificate_199()
    ensures
        is_certificate(199nat, 3nat, seq![2nat, 3nat, 3nat, 11nat]),
{
    let n = 199nat;
    let factors = seq![2nat, 3nat, 3nat, 11nat];
    lemma_small_primes();
    lemma_small_primes();
    lemma_prime_11();
    lemma_power_199_over_2();
    lemma_fundamental_div_mod_converse(198int, 2int, 99int, 0);
    lemma_power_199_over_3();
    lemma_fundamental_div_mod_converse(198int, 3int, 66int, 0);
    lemma_power_199_over_11();
    lemma_fundamental_div_mod_converse(198int, 11int, 18int, 0);
    lemma_power_mod_square(3nat, 99nat, n, 198nat, 197nat, 1);
    let f0 = Seq::<nat>::empty();
    lemma_product_push(f0, 2nat, 1nat);
    let f1 = f0.push(2nat);
    lemma_product_push(f1, 3nat, 2nat);
    let f2 = f1.push(3nat);
    lemma_product_push(f2, 3nat, 6nat);
    let f3 = f2.push(3nat);
    lemma_product_push(f3, 11nat, 18nat);
    let f4 = f3.push(11nat);
    assert(factors =~= f4);
    assert forall|j: int| 0 <= j < factors.len() implies is_prime(#[trigger] factors[j])
        && power_mod(3nat, ((n - 1) / factors[j] as int) as nat, n) != 1 by {
        if j == 0 {
        } else if j == 1 {
        } else if j == 2 {
        } else if j == 3 {
        }
    }
}

/// 199 is prime.
pub(crate) proof fn lemma_prime_199()
    ensures
        is_prime(199nat),
{
    lemma_certificate_199();
    lemma_certified_prime(199nat, 3nat, seq![2nat, 3nat, 3nat, 11nat]);
}

proof fn lemma_power_239_over_2_part_0()
    requires
        power_mod(7nat, 1nat, 239nat) == 7nat,
    ensures
        power_mod(7nat, 119nat, 239nat) == 238nat,
{
    let n = 239nat;
    let e0 = 1nat;
    let x0 = 7nat;
    let x1 = 104nat;
    let e1 = 2 * e0 + 1;
    lemma_power_mod_square_times(7nat, e0, n, x0, 1nat, x1);
    let x2 = 188nat;
    let e2 = 2 * e1 + 1;
    lemma_power_mod_square_times(7nat, e1, n, x1, 316nat, x2);
    let x3 = 211nat;
    let e3 = 2 * e2;
    lemma_power_mod_square(7nat, e2, n, x2, 147nat, x3);
    let x4 = 230nat;
    let e4 = 2 * e3 + 1;
    lemma_power_mod_square_times(7nat, e3, n, x3, 1303nat, x4);
    let x5 = 89nat;
    let e5 = 2 * e4 + 1;
    lemma_power_mod_square_times(7nat, e4, n, x4, 1549nat, x5);
    let x6 = 238nat;
    let e6 = 2 * e5 + 1;
    lemma_power_mod_square_times(7nat, e5, n, x5, 231nat, x6);
}

proof fn lemma_power_239_over_2()
    ensures
        power_mod(7nat, 119nat, 239nat) == 238nat,
{
    lemma_power_mod_first(7nat, 239nat);
    lemma_power_239_over_2_part_0();
}

proof fn lemma_power_239_over_7_part_0()
    requires
        power_mod(7nat, 1nat, 239nat) == 7nat,
    ensures
        power_mod(7nat, 34nat, 239nat) == 24nat,
{
    let n = 239nat;
    let e0 = 1nat;
    let x0 = 7nat;
    let x1 = 49nat;
    let e1 = 2 * e0;
    lemma_power_mod_square(7nat, e0, n, x0, 0nat, x1);
    let x2 = 11nat;
    let e2 = 2 * e1;
    lemma_power_mod_square(7nat, e1, n, x1, 10nat, x2);
    let x3 = 121nat;
    let e3 = 2 * e2;
    lemma_power_mod_square(7nat, e2, n, x2, 0nat, x3);
    let x4 = 195nat;
    let e4 = 2 * e3 + 1;
    lemma_power_mod_square_times(7nat, e3, n, x3, 428nat, x4);
    let x5 = 24nat;
    let e5 = 2 * e4;
    lemma_power_mod_square(7nat, e4, n, x4, 159nat, x5);
}

proof fn lemma_power_239_over_7()
    ensures
        power_mod(7nat, 34nat, 239nat) == 24nat,
{
    lemma_power_mod_first(7nat, 239nat);
    lemma_power_239_over_7_part_0();
}

proof fn lemma_power_239_over_17_part_0()
    requires
        power_mod(7nat, 1nat, 239nat) == 7nat,
    ensures
        power_mod(7nat, 14nat, 239nat) == 211nat,
{
    let n = 239nat;
    let e0 = 1nat;
    let x0 = 7nat;
    let x1 = 104nat;
    let e1 = 2 * e0 + 1;
    lemma_power_mod_square_times(7nat, e0, n, x0, 1nat, x1);
    let x2 = 188nat;
    let e2 = 2 * e1 + 1;
    lemma_power_mod_square_times(7nat, e1, n, x1, 316nat, x2);
    let x3 = 211nat;
    let e3 = 2 * e2;
    lemma_power_mod_square(7nat, e2, n, x2, 147nat, x3);
}

proof fn lemma_power_239_over_17()
    ensures
        power_mod(7nat, 14nat, 239nat) == 211nat,
{
    lemma_power_mod_first(7nat, 239nat);
    lemma_power_239_over_17_part_0();
}

proof fn lemma_certificate_239()
    ensures
        is_certificate(239nat, 7nat, seq![2nat, 7nat, 17nat]),
{
    let n = 239nat;
    let factors = seq![2nat, 7nat, 17nat];
    lemma_small_primes();
    lemma_small_primes();
    lemma_prime_17();
    lemma_power_239_over_2();
    lemma_fundamental_div_mod_converse(238int, 2int, 119int, 0);
    lemma_power_239_over_7();
    lemma_fundamental_div_mod_converse(238int, 7int, 34int, 0);
    lemma_power_239_over_17();
    lemma_fundamental_div_mod_converse(238int, 17int, 14int, 0);
    lemma_power_mod_square(7nat, 119nat, n, 238nat, 237nat, 1);
    let f0 = Seq::<nat>::empty();
    lemma_product_push(f0, 2nat, 1nat);
    let f1 = f0.push(2nat);
    lemma_product_push(f1, 7nat, 2nat);
    let f2 = f1.push(7nat);
    lemma_product_push(f2, 17nat, 14nat);
    let f3 = f2.push(17nat);
    assert(factors =~= f3);
    assert forall|j: int| 0 <= j < factors.len() implies is_prime(#[trigger] factors[j])
        && power_mod(7nat, ((n - 1) / factors[j] as int) as nat, n) != 1 by {
        if j == 0 {
        } else if j == 1 {
        } else if j == 2 {
        }
    }
}

/// 239 is prime.
pub(crate) proof fn lemma_prime_239()
    ensures
        is_prime(239nat),
{
    lemma_certificate_239();
    lemma_certified_prime(239nat, 7nat, seq![2nat, 7nat, 17nat]);
}

proof fn lemma_power_271_over_2_part_0()
    requires
        power_mod(6nat, 1nat, 271nat) == 6nat,
    ensures
        power_mod(6nat, 135nat, 271nat) == 270nat,
{
    let n = 271nat;
    let e0 = 1nat;
    let x0 = 6nat;
    let x1 = 36nat;
    let e1 = 2 * e0;
    lemma_power_mod_square(6nat, e0, n, x0, 0nat, x1);
    let x2 = 212nat;
    let e2 = 2 * e1;
    lemma_power_mod_square(6nat, e1, n, x1, 4nat, x2);
    let x3 = 229nat;
    let e3 = 2 * e2;
    lemma_power_mod_square(6nat, e2, n, x2, 165nat, x3);
    let x4 = 138nat;
    let e4 = 2 * e3;
    lemma_power_mod_square(6nat, e3, n, x3, 193nat, x4);
    let x5 = 173nat;
    let e5 = 2 * e4 + 1;
    lemma_power_mod_square_times(6nat, e4, n, x4, 421nat, x5);
    let x6 = 172nat;
    let e6 = 2 * e5 + 1;
    lemma_power_mod_square_times(6nat, e5, n, x5, 662nat, x6);
    let x7 = 270nat;
    let e7 = 2 * e6 + 1;
    lemma_power_mod_square_times(6nat, e6, n, x6, 654nat, x7);
}

proof fn lemma_power_271_over_2()
    ensures
        power_mod(6nat, 135nat, 271nat) == 270nat,
{
    lemma_power_mod_first(6nat, 271nat);
    lemma_power_271_over_2_part_0();
}

proof fn lemma_power_271_over_3_part_0()
    requires
        power_mod(6nat, 1nat, 271nat) == 6nat,
    ensures
        power_mod(6nat, 90nat, 271nat) == 242nat,
{
    let n = 271nat;
    let e0 = 1nat;
    let x0 = 6nat;
    let x1 = 36nat;
    let e1 = 2 * e0;
    lemma_power_mod_square(6nat, e0, n, x0, 0nat, x1);
    let x2 = 188nat;
    let e2 = 2 * e1 + 1;
    lemma_power_mod_square_times(6nat, e1, n, x1, 28nat, x2);
    let x3 = 142nat;
    let e3 = 2 * e2 + 1;
    lemma_power_mod_square_times(6nat, e2, n, x2, 782nat, x3);
    let x4 = 110nat;
    let e4 = 2 * e3;
    lemma_power_mod_square(6nat, e3, n, x3, 74nat, x4);
    let x5 = 243nat;
    let e5 = 2 * e4 + 1;
    lemma_power_mod_square_times(6nat, e4, n, x4, 267nat, x5);
    let x6 = 242nat;
    let e6 = 2 * e5;
    lemma_power_mod_square(6nat, e5, n, x5, 217nat, x6);
}

proof fn lemma_power_271_over_3()
    ensures
        power_mod(6nat, 90nat, 271nat) == 242nat,
{
    lemma_power_mod_first(6nat, 271nat);
    lemma_power_271_over_3_part_0();
}

proof fn lemma_power_271_over_5_part_0()
    requires
        power_mod(6nat, 1nat, 271nat) == 6nat,
    ensures
        power_mod(6nat, 54nat, 271nat) == 10nat,
{
    let n = 271nat;
    let e0 = 1nat;
    let x0 = 6nat;
    let x1 = 216nat;
    let e1 = 2 * e0 + 1;
    lemma_power_mod_square_times(6nat, e0, n, x0, 0nat, x1);
    let x2 = 44nat;
    let e2 = 2 * e1;
    lemma_power_mod_square(6nat, e1, n, x1, 172nat, x2);
    let x3 = 234nat;
    let e3 = 2 * e2 + 1;
    lemma_power_mod_square_times(6nat, e2, n, x2, 42nat, x3);
    let x4 = 84nat;
    let e4 = 2 * e3 + 1;
    lemma_power_mod_square_times(6nat, e3, n, x3, 1212nat, x4);
    let x5 = 10nat;
    let e5 = 2 * e4;
    lemma_power_mod_square(6nat, e4, n, x4, 26nat, x5);
}

proof fn lemma_power_271_over_5()
    ensures
        power_mod(6nat, 54nat, 271nat) == 10nat,
{
    lemma_power_mod_first(6nat, 271nat);
    lemma_power_271_over_5_part_0();
}

proof fn lemma_certificate_271()
    ensures
        is_certificate(271nat, 6nat, seq![2nat, 3nat, 3nat, 3nat, 5nat]),
{
    let n = 271nat;
    let factors = seq![2nat, 3nat, 3nat, 3nat, 5nat];
    lemma_small_primes();
    lemma_small_primes();
    lemma_small_primes();
    lemma_power_271_over_2();
    lemma_fundamental_div_mod_converse(270int, 2int, 135int, 0);
    lemma_power_271_over_3();
    lemma_fundamental_div_mod_converse(270int, 3int, 90int, 0);
    lemma_power_271_over_5();
    lemma_fundamental_div_mod_converse(270int, 5int, 54int, 0);
    lemma_power_mod_square(6nat, 135nat, n, 270nat, 269nat, 1);
    let f0 = Seq::<nat>::empty();
    lemma_product_push(f0, 2nat, 1nat);
    let f1 = f0.push(2nat);
    lemma_product_push(f1, 3nat, 2nat);
    let f2 = f1.push(3nat);
    lemma_product_push(f2, 3nat, 6nat);
    let f3 = f2.push(3nat);
    lemma_product_push(f3, 3nat, 18nat);
    let f4 = f3.push(3nat);
    lemma_product_push(f4, 5nat, 54nat);
    let f5 = f4.push(5nat);
    assert(factors =~= f5);
    assert forall|j: int| 0 <= j < factors.len() implies is_prime(#[trigger] factors[j])
        && power_mod(6nat, ((n - 1) / factors[j] as int) as nat, n) != 1 by {
        if j == 0 {
        } else if j == 1 {
        } else if j == 2 {
        } else if j == 3 {
        } else if j == 4 {
        }
    }
}

/// 271 is prime.
pub(crate) proof fn lemma_prime_271()
    ensures
        is_prime(271nat),
{
    lemma_certificate_271();
    lemma_certified_prime(271nat, 6nat, seq![2nat, 3nat, 3nat, 3nat, 5nat]);
}

proof fn lemma_power_293_over_2_part_0()
    requires
        power_mod(2nat, 1nat, 293nat) == 2nat,
    ensures
        power_mod(2nat, 146nat, 293nat) == 292nat,
{
    let n = 293nat;
    let e0 = 1nat;
    let x0 = 2nat;
    let x1 = 4nat;
    let e1 = 2 * e0;
    lemma_power_mod_square(2nat, e0, n, x0, 0nat, x1);
    let x2 = 16nat;
    let e2 = 2 * e1;
    lemma_power_mod_square(2nat, e1, n, x1, 0nat, x2);
    let x3 = 219nat;
    let e3 = 2 * e2 + 1;
    lemma_power_mod_square_times(2nat, e2, n, x2, 1nat, x3);
    let x4 = 202nat;
    let e4 = 2 * e3;
    lemma_power_mod_square(2nat, e3, n, x3, 163nat, x4);
    let x5 = 77nat;
    let e5 = 2 * e4;
    lemma_power_mod_square(2nat, e4, n, x4, 139nat, x5);
    let x6 = 138nat;
    let e6 = 2 * e5 + 1;
    lemma_power_mod_square_times(2nat, e5, n, x5, 40nat, x6);
    let x7 = 292nat;
    let e7 = 2 * e6;
    lemma_power_mod_square(2nat, e6, n, x6, 64nat, x7);
}

proof fn lemma_power_293_over_2()
    ensures
        power_mod(2nat, 146nat, 293nat) == 292nat,
{
    lemma_power_mod_first(2nat, 293nat);
    lemma_power_293_over_2_part_0();
}

proof fn lemma_power_293_over_73_part_0()
    requires
        power_mod(2nat, 1nat, 293nat) == 2nat,
    ensures
        power_mod(2nat, 4nat, 293nat) == 16nat,
{
    let n = 293nat;
    let e0 = 1nat;
    let x0 = 2nat;
    let x1 = 4nat;
    let e1 = 2 * e0;
    lemma_power_mod_square(2nat, e0, n, x0, 0nat, x1);
    let x2 = 16nat;
    let e2 = 2 * e1;
    lemma_power_mod_square(2nat, e1, n, x1, 0nat, x2);
}

proof fn lemma_power_293_over_73()
    ensures
        power_mod(2nat, 4nat, 293nat) == 16nat,
{
    lemma_power_mod_first(2nat, 293nat);
    lemma_power_293_over_73_part_0();
}

proof fn lemma_certificate_293()
    ensures
        is_certificate(293nat, 2nat, seq![2nat, 2nat, 73nat]),
{
    let n = 293nat;
    let factors = seq![2nat, 2nat, 73nat];
    lemma_small_primes();
    lemma_prime_73();
    lemma_power_293_over_2();
    lemma_fundamental_div_mod_converse(292int, 2int, 146int, 0);
    lemma_power_293_over_73();
    lemma_fundamental_div_mod_converse(292int, 73int, 4int, 0);
    lemma_power_mod_square(2nat, 146nat, n, 292nat, 291nat, 1);
    let f0 = Seq::<nat>::empty();
    lemma_product_push(f0, 2nat, 1nat);
    let f1 = f0.push(2nat);
    lemma_product_push(f1, 2nat, 2nat);
    let f2 = f1.push(2nat);
    lemma_product_push(f2, 73nat, 4nat);
    let f3 = f2.push(73nat);
    assert(factors =~= f3);
    assert forall|j: int| 0 <= j < factors.len() implies is_prime(#[trigger] factors[j])
        && power_mod(2nat, ((n - 1) / factors[j] as int) as nat, n) != 1 by {
        if j == 0 {
        } else if j == 1 {
        } else if j == 2 {
        }
    }
}

/// 293 is prime.
pub(crate) proof fn lemma_prime_293()
    ensures
        is_prime(293nat),
{
    lemma_certificate_293();
    lemma_certified_prime(293nat, 2nat, seq![2nat, 2nat, 73nat]);
}

proof fn lemma_power_419_over_2_part_0()
    requires
        power_mod(2nat, 1nat, 419nat) == 2nat,
    ensures
        power_mod(2nat, 209nat, 419nat) == 418nat,
{
    let n = 419nat;
    let e0 = 1nat;
    let x0 = 2nat;
    let x1 = 8nat;
    let e1 = 2 * e0 + 1;
    lemma_power_mod_square_times(2nat, e0, n, x0, 0nat, x1);
    let x2 = 64nat;
    let e2 = 2 * e1;
    lemma_power_mod_square(2nat, e1, n, x1, 0nat, x2);
    let x3 = 231nat;
    let e3 = 2 * e2 + 1;
    lemma_power_mod_square_times(2nat, e2, n, x2, 19nat, x3);
    let x4 = 148nat;
    let e4 = 2 * e3;
    lemma_power_mod_square(2nat, e3, n, x3, 127nat, x4);
    let x5 = 116nat;
    let e5 = 2 * e4;
    lemma_power_mod_square(2nat, e4, n, x4, 52nat, x5);
    let x6 = 48nat;
    let e6 = 2 * e5;
    lemma_power_mod_square(2nat, e5, n, x5, 32nat, x6);
    let x7 = 418nat;
    let e7 = 2 * e6 + 1;
    lemma_power_mod_square_times(2nat, e6, n, x6, 10nat, x7);
}

proof fn lemma_power_419_over_2()
    ensures
        power_mod(2nat, 209nat, 419nat) == 418nat,
{
    lemma_power_mod_first(2nat, 419nat);
    lemma_power_419_over_2_part_0();
}

proof fn lemma_power_419_over_11_part_0()
    requires
        power_mod(2nat, 1nat, 419nat) == 2nat,
    ensures
        power_mod(2nat, 38nat, 419nat) == 334nat,
{
    let n = 419nat;
    let e0 = 1nat;
    let x0 = 2nat;
    let x1 = 4nat;
    let e1 = 2 * e0;
    lemma_power_mod_square(2nat, e0, n, x0, 0nat, x1);
    let x2 = 16nat;
    let e2 = 2 * e1;
    lemma_power_mod_square(2nat, e1, n, x1, 0nat, x2);
    let x3 = 93nat;
    let e3 = 2 * e2 + 1;
    lemma_power_mod_square_times(2nat, e2, n, x2, 1nat, x3);
    let x4 = 119nat;
    let e4 = 2 * e3 + 1;
    lemma_power_mod_square_times(2nat, e3, n, x3, 41nat, x4);
    let x5 = 334nat;
    let e5 = 2 * e4;
    lemma_power_mod_square(2nat, e4, n, x4, 33nat, x5);
}

proof fn lemma_power_419_over_11()
    ensures
        power_mod(2nat, 38nat, 419nat) == 334nat,
{
    lemma_power_mod_first(2nat, 419nat);
    lemma_power_419_over_11_part_0();
}

proof fn lemma_power_419_over_19_part_0()
    requires
        power_mod(2nat, 1nat, 419nat) == 2nat,
    ensures
        power_mod(2nat, 22nat, 419nat) == 114nat,
{
    let n = 419nat;
    let e0 = 1nat;
    let x0 = 2nat;
    let x1 = 4nat;
    let e1 = 2 * e0;
    lemma_power_mod_square(2nat, e0, n, x0, 0nat, x1);
    let x2 = 32nat;
    let e2 = 2 * e1 + 1;
    lemma_power_mod_square_times(2nat, e1, n, x1, 0nat, x2);
    let x3 = 372nat;
    let e3 = 2 * e2 + 1;
    lemma_power_mod_square_times(2nat, e2, n, x2, 4nat, x3);
    let x4 = 114nat;
    let e4 = 2 * e3;
    lemma_power_mod_square(2nat, e3, n, x3, 330nat, x4);
}

proof fn lemma_power_419_over_19()
    ensures
        power_mod(2nat, 22nat, 419nat) == 114nat,
{
    lemma_power_mod_first(2nat, 419nat);
    lemma_power_419_over_19_part_0();
}

proof fn lemma_certificate_419()
    ensures
        is_certificate(419nat, 2nat, seq![2nat, 11nat, 19nat]),
{
    let n = 419nat;
    let factors = seq![2nat, 11nat, 19nat];
    lemma_small_primes();
    lemma_prime_11();
    lemma_prime_19();
    lemma_power_419_over_2();
    lemma_fundamental_div_mod_converse(418int, 2int, 209int, 0);
    lemma_power_419_over_11();
    lemma_fundamental_div_mod_converse(418int, 11int, 38int, 0);
    lemma_power_419_over_19();
    lemma_fundamental_div_mod_converse(418int, 19int, 22int, 0);
    lemma_power_mod_square(2nat, 209nat, n, 418nat, 417nat, 1);
    let f0 = Seq::<nat>::empty();
    lemma_product_push(f0, 2nat, 1nat);
    let f1 = f0.push(2nat);
    lemma_product_push(f1, 11nat, 2nat);
    let f2 = f1.push(11nat);
    lemma_product_push(f2, 19nat, 22nat);
    let f3 = f2.push(19nat);
    assert(factors =~= f3);
    assert forall|j: int| 0 <= j < factors.len() implies is_prime(#[trigger] factors[j])
        && power_mod(2nat, ((n - 1) / factors[j] as int) as nat, n) != 1 by {
        if j == 0 {
        } else if j == 1 {
        } else if j == 2 {
        }
    }
}

/// 419 is prime.
pub(crate) proof fn lemma_prime_419()
    ensures
        is_prime(419nat),
{
    lemma_certificate_419();
    lemma_certified_prime(419nat, 2nat, seq![2nat, 11nat, 19nat]);
}

proof fn lemma_power_443_over_2_part_0()
    requires
        power_mod(2nat, 1nat, 443nat) == 2nat,
    ensures
        power_mod(2nat, 221nat, 443nat) == 442nat,
{
    let n = 443nat;
    let e0 = 1nat;
    let x0 = 2nat;
    let x1 = 8nat;
    let e1 = 2 * e0 + 1;
    lemma_power_mod_square_times(2nat, e0, n, x0, 0nat, x1);
    let x2 = 64nat;
    let e2 = 2 * e1;
    lemma_power_mod_square(2nat, e1, n, x1, 0nat, x2);
    let x3 = 218nat;
    let e3 = 2 * e2 + 1;
    lemma_power_mod_square_times(2nat, e2, n, x2, 18nat, x3);
    let x4 = 246nat;
    let e4 = 2 * e3 + 1;
    lemma_power_mod_square_times(2nat, e3, n, x3, 214nat, x4);
    let x5 = 93nat;
    let e5 = 2 * e4 + 1;
    lemma_power_mod_square_times(2nat, e4, n, x4, 273nat, x5);
    let x6 = 232nat;
    let e6 = 2 * e5;
    lemma_power_mod_square(2nat, e5, n, x5, 19nat, x6);
    let x7 = 442nat;
    let e7 = 2 * e6 + 1;
    lemma_power_mod_square_times(2nat, e6, n, x6, 242nat, x7);
}

proof fn lemma_power_443_over_2()
    ensures
        power_mod(2nat, 221nat, 443nat) == 442nat,
{
    lemma_power_mod_first(2nat, 443nat);
    lemma_power_443_over_2_part_0();
}

proof fn lemma_power_443_over_13_part_0()
    requires
        power_mod(2nat, 1nat, 443nat) == 2nat,
    ensures
        power_mod(2nat, 34nat, 443nat) == 35nat,
{
    let n = 443nat;
    let e0 = 1nat;
    let x0 = 2nat;
    let x1 = 4nat;
    let e1 = 2 * e0;
    lemma_power_mod_square(2nat, e0, n, x0, 0nat, x1);
    let x2 = 16nat;
    let e2 = 2 * e1;
    lemma_power_mod_square(2nat, e1, n, x1, 0nat, x2);
    let x3 = 256nat;
    let e3 = 2 * e2;
    lemma_power_mod_square(2nat, e2, n, x2, 0nat, x3);
    let x4 = 387nat;
    let e4 = 2 * e3 + 1;
    lemma_power_mod_square_times(2nat, e3, n, x3, 295nat, x4);
    let x5 = 35nat;
    let e5 = 2 * e4;
    lemma_power_mod_square(2nat, e4, n, x4, 338nat, x5);
}

proof fn lemma_power_443_over_13()
    ensures
        power_mod(2nat, 34nat, 443nat) == 35nat,
{
    lemma_power_mod_first(2nat, 443nat);
    lemma_power_443_over_13_part_0();
}

proof fn lemma_power_443_over_17_part_0()
    requires
        power_mod(2nat, 1nat, 443nat) == 2nat,
    ensures
        power_mod(2nat, 26nat, 443nat) == 123nat,
{
    let n = 443nat;
    let e0 = 1nat;
    let x0 = 2nat;
    let x1 = 8nat;
    let e1 = 2 * e0 + 1;
    lemma_power_mod_square_times(2nat, e0, n, x0, 0nat, x1);
    let x2 = 64nat;
    let e2 = 2 * e1;
    lemma_power_mod_square(2nat, e1, n, x1, 0nat, x2);
    let x3 = 218nat;
    let e3 = 2 * e2 + 1;
    lemma_power_mod_square_times(2nat, e2, n, x2, 18nat, x3);
    let x4 = 123nat;
    let e4 = 2 * e3;
    lemma_power_mod_square(2nat, e3, n, x3, 107nat, x4);
}

proof fn lemma_power_443_over_17()
    ensures
        power_mod(2nat, 26nat, 443nat) == 123nat,
{
    lemma_power_mod_first(2nat, 443nat);
    lemma_power_443_over_17_part_0();
}

proof fn lemma_certificate_443()
    ensures
        is_certificate(443nat, 2nat, seq![2nat, 13nat, 17nat]),
{
    let n = 443nat;
    let factors = seq![2nat, 13nat, 17nat];
    lemma_small_primes();
    lemma_prime_13();
    lemma_prime_17();
    lemma_power_443_over_2();
    lemma_fundamental_div_mod_converse(442int, 2int, 221int, 0);
    lemma_power_443_over_13();
    lemma_fundamental_div_mod_converse(442int, 13int, 34int, 0);
    lemma_power_443_over_17();
    lemma_fundamental_div_mod_converse(442int, 17int, 26int, 0);
    lemma_power_mod_square(2nat, 221nat, n, 442nat, 441nat, 1);
    let f0 = Seq::<nat>::empty();
    lemma_product_push(f0, 2nat, 1nat);
    let f1 = f0.push(2nat);
    lemma_product_push(f1, 13nat, 2nat);
    let f2 = f1.push(13nat);
    lemma_product_push(f2, 17nat, 26nat);
    let f3 = f2.push(17nat);
    assert(factors =~= f3);
    assert forall|j: int| 0 <= j < factors.len() implies is_prime(#[trigger] factors[j])
        && power_mod(2nat, ((n - 1) / factors[j] as int) as nat, n) != 1 by {
        if j == 0 {
        } else if j == 1 {
        } else if j == 2 {
        }
    }
}

/// 443 is prime.
pub(crate) proof fn lemma_prime_443()
    ensures
        is_prime(443nat),
{
    lemma_certificate_443();
    lemma_certified_prime(443nat, 2nat, seq![2nat, 13nat, 17nat]);
}

proof fn lemma_power_461_over_2_part_0()
    requires
        power_mod(2nat, 1nat, 461nat) == 2nat,
    ensures
        power_mod(2nat, 230nat, 461nat) == 460nat,
{
    let n = 461nat;
    let e0 = 1nat;
    let x0 = 2nat;
    let x1 = 8nat;
    let e1 = 2 * e0 + 1;
    lemma_power_mod_square_times(2nat, e0, n, x0, 0nat, x1);
    let x2 = 128nat;
    let e2 = 2 * e1 + 1;
    lemma_power_mod_square_times(2nat, e1, n, x1, 0nat, x2);
    let x3 = 249nat;
    let e3 = 2 * e2;
    lemma_power_mod_square(2nat, e2, n, x2, 35nat, x3);
    let x4 = 227nat;
    let e4 = 2 * e3;
    lemma_power_mod_square(2nat, e3, n, x3, 134nat, x4);
    let x5 = 255nat;
    let e5 = 2 * e4 + 1;
    lemma_power_mod_square_times(2nat, e4, n, x4, 223nat, x5);
    let x6 = 48nat;
    let e6 = 2 * e5 + 1;
    lemma_power_mod_square_times(2nat, e5, n, x5, 282nat, x6);
    let x7 = 460nat;
    let e7 = 2 * e6;
    lemma_power_mod_square(2nat, e6, n, x6, 4nat, x7);
}

proof fn lemma_power_461_over_2()
    ensures
        power_mod(2nat, 230nat, 461nat) == 460nat,
{
    lemma_power_mod_first(2nat, 461nat);
    lemma_power_461_over_2_part_0();
}

proof fn lemma_power_461_over_5_part_0()
    requires
        power_mod(2nat, 1nat, 461nat) == 2nat,
    ensures
        power_mod(2nat, 92nat, 461nat) == 88nat,
{
    let n = 461nat;
    let e0 = 1nat;
    let x0 = 2nat;
    let x1 = 4nat;
    let e1 = 2 * e0;
    lemma_power_mod_square(2nat, e0, n, x0, 0nat, x1);
    let x2 = 32nat;
    let e2 = 2 * e1 + 1;
    lemma_power_mod_square_times(2nat, e1, n, x1, 0nat, x2);
    let x3 = 204nat;
    let e3 = 2 * e2 + 1;
    lemma_power_mod_square_times(2nat, e2, n, x2, 4nat, x3);
    let x4 = 252nat;
    let e4 = 2 * e3 + 1;
    lemma_power_mod_square_times(2nat, e3, n, x3, 180nat, x4);
    let x5 = 347nat;
    let e5 = 2 * e4;
    lemma_power_mod_square(2nat, e4, n, x4, 137nat, x5);
    let x6 = 88nat;
    let e6 = 2 * e5;
    lemma_power_mod_square(2nat, e5, n, x5, 261nat, x6);
}

proof fn lemma_power_461_over_5()
    ensures
        power_mod(2nat, 92nat, 461nat) == 88nat,
{
    lemma_power_mod_first(2nat, 461nat);
    lemma_power_461_over_5_part_0();
}

proof fn lemma_power_461_over_23_part_0()
    requires
        power_mod(2nat, 1nat, 461nat) == 2nat,
    ensures
        power_mod(2nat, 20nat, 461nat) == 262nat,
{
    let n = 461nat;
    let e0 = 1nat;
    let x0 = 2nat;
    let x1 = 4nat;
    let e1 = 2 * e0;
    lemma_power_mod_square(2nat, e0, n, x0, 0nat, x1);
    let x2 = 32nat;
    let e2 = 2 * e1 + 1;
    lemma_power_mod_square_times(2nat, e1, n, x1, 0nat, x2);
    let x3 = 102nat;
    let e3 = 2 * e2;
    lemma_power_mod_square(2nat, e2, n, x2, 2nat, x3);
    let x4 = 262nat;
    let e4 = 2 * e3;
    lemma_power_mod_square(2nat, e3, n, x3, 22nat, x4);
}

proof fn lemma_power_461_over_23()
    ensures
        power_mod(2nat, 20nat, 461nat) == 262nat,
{
    lemma_power_mod_first(2nat, 461nat);
    lemma_power_461_over_23_part_0();
}

proof fn lemma_certificate_461()
    ensures
        is_certificate(461nat, 2nat, seq![2nat, 2nat, 5nat, 23nat]),
{
    let n = 461nat;
    let factors = seq![2nat, 2nat, 5nat, 23nat];
    lemma_small_primes();
    lemma_small_primes();
    lemma_prime_23();
    lemma_power_461_over_2();
    lemma_fundamental_div_mod_converse(460int, 2int, 230int, 0);
    lemma_power_461_over_5();
    lemma_fundamental_div_mod_converse(460int, 5int, 92int, 0);
    lemma_power_461_over_23();
    lemma_fundamental_div_mod_converse(460int, 23int, 20int, 0);
    lemma_power_mod_square(2nat, 230nat, n, 460nat, 459nat, 1);
    let f0 = Seq::<nat>::empty();
    lemma_product_push(f0, 2nat, 1nat);
    let f1 = f0.push(2nat);
    lemma_product_push(f1, 2nat, 2nat);
    let f2 = f1.push(2nat);
    lemma_product_push(f2, 5nat, 4nat);
    let f3 = f2.push(5nat);
    lemma_product_push(f3, 23nat, 20nat);
    let f4 = f3.push(23nat);
    assert(factors =~= f4);
    assert forall|j: int| 0 <= j < factors.len() implies is_prime(#[trigger] factors[j])
        && power_mod(2nat, ((n - 1) / factors[j] as int) as nat, n) != 1 by {
        if j == 0 {
        } else if j == 1 {
        } else if j == 2 {
        } else if j == 3 {
        }
    }
}

/// 461 is prime.
pub(crate) proof fn lemma_prime_461()
    ensures
        is_prime(461nat),
{
    lemma_certificate_461();
    lemma_certified_prime(461nat, 2nat, seq![2nat, 2nat, 5nat, 23nat]);
}

proof fn lemma_power_631_over_2_part_0()
    requires
        power_mod(3nat, 1nat, 631nat) == 3nat,
    ensures
        power_mod(3nat, 315nat, 631nat) == 630nat,
{
    let n = 631nat;
    let e0 = 1nat;
    let x0 = 3nat;
    let x1 = 9nat;
    let e1 = 2 * e0;
    lemma_power_mod_square(3nat, e0, n, x0, 0nat, x1);
    let x2 = 81nat;
    let e2 = 2 * e1;
    lemma_power_mod_square(3nat, e1, n, x1, 0nat, x2);
    let x3 = 122nat;
    let e3 = 2 * e2 + 1;
    lemma_power_mod_square_times(3nat, e2, n, x2, 31nat, x3);
    let x4 = 482nat;
    let e4 = 2 * e3 + 1;
    lemma_power_mod_square_times(3nat, e3, n, x3, 70nat, x4);
    let x5 = 348nat;
    let e5 = 2 * e4 + 1;
    lemma_power_mod_square_times(3nat, e4, n, x4, 1104nat, x5);
    let x6 = 583nat;
    let e6 = 2 * e5;
    lemma_power_mod_square(3nat, e5, n, x5, 191nat, x6);
    let x7 = 602nat;
    let e7 = 2 * e6 + 1;
    lemma_power_mod_square_times(3nat, e6, n, x6, 1615nat, x7);
    let x8 = 630nat;
    let e8 = 2 * e7 + 1;
    lemma_power_mod_square_times(3nat, e7, n, x7, 1722nat, x8);
}

proof fn lemma_power_631_over_2()
    ensures
        power_mod(3nat, 315nat, 631nat) == 630nat,
{
    lemma_power_mod_first(3nat, 631nat);
    lemma_power_631_over_2_part_0();
}

proof fn lemma_power_631_over_3_part_0()
    requires
        power_mod(3nat, 1nat, 631nat) == 3nat,
    ensures
        power_mod(3nat, 210nat, 631nat) == 587nat,
{
    let n = 631nat;
    let e0 = 1nat;
    let x0 = 3nat;
    let x1 = 27nat;
    let e1 = 2 * e0 + 1;
    lemma_power_mod_square_times(3nat, e0, n, x0, 0nat, x1);
    let x2 = 98nat;
    let e2 = 2 * e1;
    lemma_power_mod_square(3nat, e1, n, x1, 1nat, x2);
    let x3 = 417nat;
    let e3 = 2 * e2 + 1;
    lemma_power_mod_square_times(3nat, e2, n, x2, 45nat, x3);
    let x4 = 364nat;
    let e4 = 2 * e3;
    lemma_power_mod_square(3nat, e3, n, x3, 275nat, x4);
    let x5 = 617nat;
    let e5 = 2 * e4;
    lemma_power_mod_square(3nat, e4, n, x4, 209nat, x5);
    let x6 = 588nat;
    let e6 = 2 * e5 + 1;
    lemma_power_mod_square_times(3nat, e5, n, x5, 1809nat, x6);
    let x7 = 587nat;
    let e7 = 2 * e6;
    lemma_power_mod_square(3nat, e6, n, x6, 547nat, x7);
}

proof fn lemma_power_631_over_3()
    ensures
        power_mod(3nat, 210nat, 631nat) == 587nat,
{
    lemma_power_mod_first(3nat, 631nat);
    lemma_power_631_over_3_part_0();
}

proof fn lemma_power_631_over_5_part_0()
    requires
        power_mod(3nat, 1nat, 631nat) == 3nat,
    ensures
        power_mod(3nat, 126nat, 631nat) == 242nat,
{
    let n = 631nat;
    let e0 = 1nat;
    let x0 = 3nat;
    let x1 = 27nat;
    let e1 = 2 * e0 + 1;
    lemma_power_mod_square_times(3nat, e0, n, x0, 0nat, x1);
    let x2 = 294nat;
    let e2 = 2 * e1 + 1;
    lemma_power_mod_square_times(3nat, e1, n, x1, 3nat, x2);
    let x3 = 598nat;
    let e3 = 2 * e2 + 1;
    lemma_power_mod_square_times(3nat, e2, n, x2, 410nat, x3);
    let x4 = 112nat;
    let e4 = 2 * e3 + 1;
    lemma_power_mod_square_times(3nat, e3, n, x3, 1700nat, x4);
    let x5 = 403nat;
    let e5 = 2 * e4 + 1;
    lemma_power_mod_square_times(3nat, e4, n, x4, 59nat, x5);
    let x6 = 242nat;
    let e6 = 2 * e5;
    lemma_power_mod_square(3nat, e5, n, x5, 257nat, x6);
}

proof fn lemma_power_631_over_5()
    ensures
        power_mod(3nat, 126nat, 631nat) == 242nat,
{
    lemma_power_mod_first(3nat, 631nat);
    lemma_power_631_over_5_part_0();
}

proof fn lemma_power_631_over_7_part_0()
    requires
        power_mod(3nat, 1nat, 631nat) == 3nat,
    ensures
        power_mod(3nat, 90nat, 631nat) == 269nat,
{
    let n = 631nat;
    let e0 = 1nat;
    let x0 = 3nat;
    let x1 = 9nat;
    let e1 = 2 * e0;
    lemma_power_mod_square(3nat, e0, n, x0, 0nat, x1);
    let x2 = 243nat;
    let e2 = 2 * e1 + 1;
    lemma_power_mod_square_times(3nat, e1, n, x1, 0nat, x2);
    let x3 = 467nat;
    let e3 = 2 * e2 + 1;
    lemma_power_mod_square_times(3nat, e2, n, x2, 280nat, x3);
    let x4 = 394nat;
    let e4 = 2 * e3;
    lemma_power_mod_square(3nat, e3, n, x3, 345nat, x4);
    let x5 = 30nat;
    let e5 = 2 * e4 + 1;
    lemma_power_mod_square_times(3nat, e4, n, x4, 738nat, x5);
    let x6 = 269nat;
    let e6 = 2 * e5;
    lemma_power_mod_square(3nat, e5, n, x5, 1nat, x6);
}

proof fn lemma_power_631_over_7()
    ensures
        power_mod(3nat, 90nat, 631nat) == 269nat,
{
    lemma_power_mod_first(3nat, 631nat);
    lemma_power_631_over_7_part_0();
}

proof fn lemma_certificate_631()
    ensures
        is_certificate(631nat, 3nat, seq![2nat, 3nat, 3nat, 5nat, 7nat]),
{
    let n = 631nat;
    let factors = seq![2nat, 3nat, 3nat, 5nat, 7nat];
    lemma_small_primes();
    lemma_small_primes();
    lemma_small_primes();
    lemma_small_primes();
    lemma_power_631_over_2();
    lemma_fundamental_div_mod_converse(630int, 2int, 315int, 0);
    lemma_power_631_over_3();
    lemma_fundamental_div_mod_converse(630int, 3int, 210int, 0);
    lemma_power_631_over_5();
    lemma_fundamental_div_mod_converse(630int, 5int, 126int, 0);
    lemma_power_631_over_7();
    lemma_fundamental_div_mod_converse(630int, 7int, 90int, 0);
    lemma_power_mod_square(3nat, 315nat, n, 630nat, 629nat, 1);
    let f0 = Seq::<nat>::empty();
    lemma_product_push(f0, 2nat, 1nat);
    let f1 = f0.push(2nat);
    lemma_product_push(f1, 3nat, 2nat);
    let f2 = f1.push(3nat);
    lemma_product_push(f2, 3nat, 6nat);
    let f3 = f2.push(3nat);
    lemma_product_push(f3, 5nat, 18nat);
    let f4 = f3.push(5nat);
    lemma_product_push(f4, 7nat, 90nat);
    let f5 = f4.push(7nat);
    assert(factors =~= f5);
    assert forall|j: int| 0 <= j < factors.len() implies is_prime(#[trigger] factors[j])
        && power_mod(3nat, ((n - 1) / factors[j] as int) as nat, n) != 1 by {
        if j == 0 {
        } else if j == 1 {
        } else if j == 2 {
        } else if j == 3 {
        } else if j == 4 {
        }
    }
}

/// 631 is prime.
pub(crate) proof fn lemma_prime_631()
    ensures
        is_prime(631nat),
{
    lemma_certificate_631();
    lemma_certified_prime(631nat, 3nat, seq![2nat, 3nat, 3nat, 5nat, 7nat]);
}

proof fn lemma_power_797_over_2_part_0()
    requires
        power_mod(2nat, 1nat, 797nat) == 2nat,
    ensures
        power_mod(2nat, 398nat, 797nat) == 796nat,
{
    let n = 797nat;
    let e0 = 1nat;
    let x0 = 2nat;
    let x1 = 8nat;
    let e1 = 2 * e0 + 1;
    lemma_power_mod_square_times(2nat, e0, n, x0, 0nat, x1);
    let x2 = 64nat;
    let e2 = 2 * e1;
    lemma_power_mod_square(2nat, e1, n, x1, 0nat, x2);
    let x3 = 111nat;
    let e3 = 2 * e2;
    lemma_power_mod_square(2nat, e2, n, x2, 5nat, x3);
    let x4 = 366nat;
    let e4 = 2 * e3;
    lemma_power_mod_square(2nat, e3, n, x3, 15nat, x4);
    let x5 = 120nat;
    let e5 = 2 * e4 + 1;
    lemma_power_mod_square_times(2nat, e4, n, x4, 336nat, x5);
    let x6 = 108nat;
    let e6 = 2 * e5 + 1;
    lemma_power_mod_square_times(2nat, e5, n, x5, 36nat, x6);
    let x7 = 215nat;
    let e7 = 2 * e6 + 1;
    lemma_power_mod_square_times(2nat, e6, n, x6, 29nat, x7);
    let x8 = 796nat;
    let e8 = 2 * e7;
    lemma_power_mod_square(2nat, e7, n, x7, 57nat, x8);
}

proof fn lemma_power_797_over_2()
    ensures
        power_mod(2nat, 398nat, 797nat) == 796nat,
{
    lemma_power_mod_first(2nat, 797nat);
    lemma_power_797_over_2_part_0();
}

proof fn lemma_power_797_over_199_part_0()
    requires
        power_mod(2nat, 1nat, 797nat) == 2nat,
    ensures
        power_mod(2nat, 4nat, 797nat) == 16nat,
{
    let n = 797nat;
    let e0 = 1nat;
    let x0 = 2nat;
    let x1 = 4nat;
    let e1 = 2 * e0;
    lemma_power_mod_square(2nat, e0, n, x0, 0nat, x1);
    let x2 = 16nat;
    let e2 = 2 * e1;
    lemma_power_mod_square(2nat, e1, n, x1, 0nat, x2);
}

proof fn lemma_power_797_over_199()
    ensures
        power_mod(2nat, 4nat, 797nat) == 16nat,
{
    lemma_power_mod_first(2nat, 797nat);
    lemma_power_797_over_199_part_0();
}

proof fn lemma_certificate_797()
    ensures
        is_certificate(797nat, 2nat, seq![2nat, 2nat, 199nat]),
{
    let n = 797nat;
    let factors = seq![2nat, 2nat, 199nat];
    lemma_small_primes();
    lemma_prime_199();
    lemma_power_797_over_2();
    lemma_fundamental_div_mod_converse(796int, 2int, 398int, 0);
    lemma_power_797_over_199();
    lemma_fundamental_div_mod_converse(796int, 199int, 4int, 0);
    lemma_power_mod_square(2nat, 398nat, n, 796nat, 795nat, 1);
    let f0 = Seq::<nat>::empty();
    lemma_product_push(f0, 2nat, 1nat);
    let f1 = f0.push(2nat);
    lemma_product_push(f1, 2nat, 2nat);
    let f2 = f1.push(2nat);
    lemma_product_push(f2, 199nat, 4nat);
    let f3 = f2.push(199nat);
    assert(factors =~= f3);
    assert forall|j: int| 0 <= j < factors.len() implies is_prime(#[trigger] factors[j])
        && power_mod(2nat, ((n - 1) / factors[j] as int) as nat, n) != 1 by {
        if j == 0 {
        } else if j == 1 {
        } else if j == 2 {
        }
    }
}

/// 797 is prime.
pub(crate) proof fn lemma_prime_797()
    ensures
        is_prime(797nat),
{
    lemma_certificate_797();
    lemma_certified_prime(797nat, 2nat, seq![2nat, 2nat, 199nat]);
}

proof fn lemma_power_887_over_2_part_0()
    requires
        power_mod(5nat, 1nat, 887nat) == 5nat,
    ensures
        power_mod(5nat, 443nat, 887nat) == 886nat,
{
    let n = 887nat;
    let e0 = 1nat;
    let x0 = 5nat;
    let x1 = 125nat;
    let e1 = 2 * e0 + 1;
    lemma_power_mod_square_times(5nat, e0, n, x0, 0nat, x1);
    let x2 = 546nat;
    let e2 = 2 * e1;
    lemma_power_mod_square(5nat, e1, n, x1, 17nat, x2);
    let x3 = 420nat;
    let e3 = 2 * e2 + 1;
    lemma_power_mod_square_times(5nat, e2, n, x2, 1680nat, x3);
    let x4 = 322nat;
    let e4 = 2 * e3 + 1;
    lemma_power_mod_square_times(5nat, e3, n, x3, 994nat, x4);
    let x5 = 412nat;
    let e5 = 2 * e4 + 1;
    lemma_power_mod_square_times(5nat, e4, n, x4, 584nat, x5);
    let x6 = 327nat;
    let e6 = 2 * e5;
    lemma_power_mod_square(5nat, e5, n, x5, 191nat, x6);
    let x7 = 671nat;
    let e7 = 2 * e6 + 1;
    lemma_power_mod_square_times(5nat, e6, n, x6, 602nat, x7);
    let x8 = 886nat;
    let e8 = 2 * e7 + 1;
    lemma_power_mod_square_times(5nat, e7, n, x7, 2537nat, x8);
}

proof fn lemma_power_887_over_2()
    ensures
        power_mod(5nat, 443nat, 887nat) == 886nat,
{
    lemma_power_mod_first(5nat, 887nat);
    lemma_power_887_over_2_part_0();
}

proof fn lemma_power_887_over_443_part_0()
    requires
        power_mod(5nat, 1nat, 887nat) == 5nat,
    ensures
        power_mod(5nat, 2nat, 887nat) == 25nat,
{
    let n = 887nat;
    let e0 = 1nat;
    let x0 = 5nat;
    let x1 = 25nat;
    let e1 = 2 * e0;
    lemma_power_mod_square(5nat, e0, n, x0, 0nat, x1);
}

proof fn lemma_power_887_over_443()
    ensures
        power_mod(5nat, 2nat, 887nat) == 25nat,
{
    lemma_power_mod_first(5nat, 887nat);
    lemma_power_887_over_443_part_0();
}

proof fn lemma_certificate_887()
    ensures
        is_certificate(887nat, 5nat, seq![2nat, 443nat]),
{
    let n = 887nat;
    let factors = seq![2nat, 443nat];
    lemma_small_primes();
    lemma_prime_443();
    lemma_power_887_over_2();
    lemma_fundamental_div_mod_converse(886int, 2int, 443int, 0);
    lemma_power_887_over_443();
    lemma_fundamental_div_mod_converse(886int, 443int, 2int, 0);
    lemma_power_mod_square(5nat, 443nat, n, 886nat, 885nat, 1);
    let f0 = Seq::<nat>::empty();
    lemma_product_push(f0, 2nat, 1nat);
    let f1 = f0.push(2nat);
    lemma_product_push(f1, 443nat, 2nat);
    let f2 = f1.push(443nat);
    assert(factors =~= f2);
    assert forall|j: int| 0 <= j < factors.len() implies is_prime(#[trigger] factors[j])
        && power_mod(5nat, ((n - 1) / factors[j] as int) as nat, n) != 1 by {
        if j == 0 {
        } else if j == 1 {
        }
    }
}

/// 887 is prime.
pub(crate) proof fn lemma_prime_887()
    ensures
        is_prime(887nat),
{
    lemma_certificate_887();
    lemma_certified_prime(887nat, 5nat, seq![2nat, 443nat]);
}

proof fn lemma_power_971_over_2_part_0()
    requires
        power_mod(6nat, 1nat, 971nat) == 6nat,
    ensures
        power_mod(6nat, 485nat, 971nat) == 970nat,
{
    let n = 971nat;
    let e0 = 1nat;
    let x0 = 6nat;
    let x1 = 216nat;
    let e1 = 2 * e0 + 1;
    lemma_power_mod_square_times(6nat, e0, n, x0, 0nat, x1);
    let x2 = 288nat;
    let e2 = 2 * e1 + 1;
    lemma_power_mod_square_times(6nat, e1, n, x1, 288nat, x2);
    let x3 = 512nat;
    let e3 = 2 * e2 + 1;
    lemma_power_mod_square_times(6nat, e2, n, x2, 512nat, x3);
    let x4 = 945nat;
    let e4 = 2 * e3;
    lemma_power_mod_square(6nat, e3, n, x3, 269nat, x4);
    let x5 = 676nat;
    let e5 = 2 * e4;
    lemma_power_mod_square(6nat, e4, n, x4, 919nat, x5);
    let x6 = 723nat;
    let e6 = 2 * e5 + 1;
    lemma_power_mod_square_times(6nat, e5, n, x5, 2823nat, x6);
    let x7 = 331nat;
    let e7 = 2 * e6;
    lemma_power_mod_square(6nat, e6, n, x6, 538nat, x7);
    let x8 = 970nat;
    let e8 = 2 * e7 + 1;
    lemma_power_mod_square_times(6nat, e7, n, x7, 676nat, x8);
}

proof fn lemma_power_971_over_2()
    ensures
        power_mod(6nat, 485nat, 971nat) == 970nat,
{
    lemma_power_mod_first(6nat, 971nat);
    lemma_power_971_over_2_part_0();
}

proof fn lemma_power_971_over_5_part_0()
    requires
        power_mod(6nat, 1nat, 971nat) == 6nat,
    ensures
        power_mod(6nat, 194nat, 971nat) == 341nat,
{
    let n = 971nat;
    let e0 = 1nat;
    let x0 = 6nat;
    let x1 = 216nat;
    let e1 = 2 * e0 + 1;
    lemma_power_mod_square_times(6nat, e0, n, x0, 0nat, x1);
    let x2 = 48nat;
    let e2 = 2 * e1;
    lemma_power_mod_square(6nat, e1, n, x1, 48nat, x2);
    let x3 = 362nat;
    let e3 = 2 * e2;
    lemma_power_mod_square(6nat, e2, n, x2, 2nat, x3);
    let x4 = 930nat;
    let e4 = 2 * e3;
    lemma_power_mod_square(6nat, e3, n, x3, 134nat, x4);
    let x5 = 710nat;
    let e5 = 2 * e4;
    lemma_power_mod_square(6nat, e4, n, x4, 890nat, x5);
    let x6 = 906nat;
    let e6 = 2 * e5 + 1;
    lemma_power_mod_square_times(6nat, e5, n, x5, 3114nat, x6);
    let x7 = 341nat;
    let e7 = 2 * e6;
    lemma_power_mod_square(6nat, e6, n, x6, 845nat, x7);
}

proof fn lemma_power_971_over_5()
    ensures
        power_mod(6nat, 194nat, 971nat) == 341nat,
{
    lemma_power_mod_first(6nat, 971nat);
    lemma_power_971_over_5_part_0();
}

proof fn lemma_power_971_over_97_part_0()
    requires
        power_mod(6nat, 1nat, 971nat) == 6nat,
    ensures
        power_mod(6nat, 10nat, 971nat) == 64nat,
{
    let n = 971nat;
    let e0 = 1nat;
    let x0 = 6nat;
    let x1 = 36nat;
    let e1 = 2 * e0;
    lemma_power_mod_square(6nat, e0, n, x0, 0nat, x1);
    let x2 = 8nat;
    let e2 = 2 * e1 + 1;
    lemma_power_mod_square_times(6nat, e1, n, x1, 8nat, x2);
    let x3 = 64nat;
    let e3 = 2 * e2;
    lemma_power_mod_square(6nat, e2, n, x2, 0nat, x3);
}

proof fn lemma_power_971_over_97()
    ensures
        power_mod(6nat, 10nat, 971nat) == 64nat,
{
    lemma_power_mod_first(6nat, 971nat);
    lemma_power_971_over_97_part_0();
}

proof fn lemma_certificate_971()
    ensures
        is_certificate(971nat, 6nat, seq![2nat, 5nat, 97nat]),
{
    let n = 971nat;
    let factors = seq![2nat, 5nat, 97nat];
    lemma_small_primes();
    lemma_small_primes();
    lemma_prime_97();
    lemma_power_971_over_2();
    lemma_fundamental_div_mod_converse(970int, 2int, 485int, 0);
    lemma_power_971_over_5();
    lemma_fundamental_div_mod_converse(970int, 5int, 194int, 0);
    lemma_power_971_over_97();
    lemma_fundamental_div_mod_converse(970int, 97int, 10int, 0);
    lemma_power_mod_square(6nat, 485nat, n, 970nat, 969nat, 1);
    let f0 = Seq::<nat>::empty();
    lemma_product_push(f0, 2nat, 1nat);
    let f1 = f0.push(2nat);
    lemma_product_push(f1, 5nat, 2nat);
    let f2 = f1.push(5nat);
    lemma_product_push(f2, 97nat, 10nat);
    let f3 = f2.push(97nat);
    assert(factors =~= f3);
    assert forall|j: int| 0 <= j < factors.len() implies is_prime(#[trigger] factors[j])
        && power_mod(6nat, ((n - 1) / factors[j] as int) as nat, n) != 1 by {
        if j == 0 {
        } else if j == 1 {
        } else if j == 2 {
        }
    }
}

/// 971 is prime.
pub(crate) proof fn lemma_prime_971()
    ensures
        is_prime(971nat),
{
    lemma_certificate_971();
    lemma_certified_prime(971nat, 6nat, seq![2nat, 5nat, 97nat]);
}

proof fn lemma_power_1373_over_2_part_0()
    requires
        power_mod(2nat, 1nat, 1373nat) == 2nat,
    ensures
        power_mod(2nat, 686nat, 1373nat) == 1372nat,
{
    let n = 1373nat;
    let e0 = 1nat;
    let x0 = 2nat;
    let x1 = 4nat;
    let e1 = 2 * e0;
    lemma_power_mod_square(2nat, e0, n, x0, 0nat, x1);
    let x2 = 32nat;
    let e2 = 2 * e1 + 1;
    lemma_power_mod_square_times(2nat, e1, n, x1, 0nat, x2);
    let x3 = 1024nat;
    let e3 = 2 * e2;
    lemma_power_mod_square(2nat, e2, n, x2, 0nat, x3);
    let x4 = 581nat;
    let e4 = 2 * e3 + 1;
    lemma_power_mod_square_times(2nat, e3, n, x3, 1527nat, x4);
    let x5 = 1176nat;
    let e5 = 2 * e4;
    lemma_power_mod_square(2nat, e4, n, x4, 245nat, x5);
    let x6 = 730nat;
    let e6 = 2 * e5 + 1;
    lemma_power_mod_square_times(2nat, e5, n, x5, 2014nat, x6);
    let x7 = 352nat;
    let e7 = 2 * e6 + 1;
    lemma_power_mod_square_times(2nat, e6, n, x6, 776nat, x7);
    let x8 = 668nat;
    let e8 = 2 * e7 + 1;
    lemma_power_mod_square_times(2nat, e7, n, x7, 180nat, x8);
    let x9 = 1372nat;
    let e9 = 2 * e8;
    lemma_power_mod_square(2nat, e8, n, x8, 324nat, x9);
}

proof fn lemma_power_1373_over_2()
    ensures
        power_mod(2nat, 686nat, 1373nat) == 1372nat,
{
    lemma_power_mod_first(2nat, 1373nat);
    lemma_power_1373_over_2_part_0();
}

proof fn lemma_power_1373_over_7_part_0()
    requires
        power_mod(2nat, 1nat, 1373nat) == 2nat,
    ensures
        power_mod(2nat, 196nat, 1373nat) == 333nat,
{
    let n = 1373nat;
    let e0 = 1nat;
    let x0 = 2nat;
    let x1 = 8nat;
    let e1 = 2 * e0 + 1;
    lemma_power_mod_square_times(2nat, e0, n, x0, 0nat, x1);
    let x2 = 64nat;
    let e2 = 2 * e1;
    lemma_power_mod_square(2nat, e1, n, x1, 0nat, x2);
    let x3 = 1350nat;
    let e3 = 2 * e2;
    lemma_power_mod_square(2nat, e2, n, x2, 2nat, x3);
    let x4 = 529nat;
    let e4 = 2 * e3;
    lemma_power_mod_square(2nat, e3, n, x3, 1327nat, x4);
    let x5 = 871nat;
    let e5 = 2 * e4 + 1;
    lemma_power_mod_square_times(2nat, e4, n, x4, 407nat, x5);
    let x6 = 745nat;
    let e6 = 2 * e5;
    lemma_power_mod_square(2nat, e5, n, x5, 552nat, x6);
    let x7 = 333nat;
    let e7 = 2 * e6;
    lemma_power_mod_square(2nat, e6, n, x6, 404nat, x7);
}

proof fn lemma_power_1373_over_7()
    ensures
        power_mod(2nat, 196nat, 1373nat) == 333nat,
{
    lemma_power_mod_first(2nat, 1373nat);
    lemma_power_1373_over_7_part_0();
}

proof fn lemma_certificate_1373()
    ensures
        is_certificate(1373nat, 2nat, seq![2nat, 2nat, 7nat, 7nat, 7nat]),
{
    let n = 1373nat;
    let factors = seq![2nat, 2nat, 7nat, 7nat, 7nat];
    lemma_small_primes();
    lemma_small_primes();
    lemma_power_1373_over_2();
    lemma_fundamental_div_mod_converse(1372int, 2int, 686int, 0);
    lemma_power_1373_over_7();
    lemma_fundamental_div_mod_converse(1372int, 7int, 196int, 0);
    lemma_power_mod_square(2nat, 686nat, n, 1372nat, 1371nat, 1);
    let f0 = Seq::<nat>::empty();
    lemma_product_push(f0, 2nat, 1nat);
    let f1 = f0.push(2nat);
    lemma_product_push(f1, 2nat, 2nat);
    let f2 = f1.push(2nat);
    lemma_product_push(f2, 7nat, 4nat);
    let f3 = f2.push(7nat);
    lemma_product_push(f3, 7nat, 28nat);
    let f4 = f3.push(7nat);
    lemma_product_push(f4, 7nat, 196nat);
    let f5 = f4.push(7nat);
    assert(factors =~= f5);
    assert forall|j: int| 0 <= j < factors.len() implies is_prime(#[trigger] factors[j])
        && power_mod(2nat, ((n - 1) / factors[j] as int) as nat, n) != 1 by {
        if j == 0 {
        } else if j == 1 {
        } else if j == 2 {
        } else if j == 3 {
        } else if j == 4 {
        }
    }
}

/// 1373 is prime.
pub(crate) proof fn lemma_prime_1373()
    ensures
        is_prime(1373nat),
{
    lemma_certificate_1373();
    lemma_certified_prime(1373nat, 2nat, seq![2nat, 2nat, 7nat, 7nat, 7nat]);
}

proof fn lemma_power_1409_over_2_part_0()
    requires
        power_mod(3nat, 1nat, 1409nat) == 3nat,
    ensures
        power_mod(3nat, 704nat, 1409nat) == 1408nat,
{
    let n = 1409nat;
    let e0 = 1nat;
    let x0 = 3nat;
    let x1 = 9nat;
    let e1 = 2 * e0;
    lemma_power_mod_square(3nat, e0, n, x0, 0nat, x1);
    let x2 = 243nat;
    let e2 = 2 * e1 + 1;
    lemma_power_mod_square_times(3nat, e1, n, x1, 0nat, x2);
    let x3 = 1022nat;
    let e3 = 2 * e2 + 1;
    lemma_power_mod_square_times(3nat, e2, n, x2, 125nat, x3);
    let x4 = 415nat;
    let e4 = 2 * e3;
    lemma_power_mod_square(3nat, e3, n, x3, 741nat, x4);
    let x5 = 327nat;
    let e5 = 2 * e4;
    lemma_power_mod_square(3nat, e4, n, x4, 122nat, x5);
    let x6 = 1254nat;
    let e6 = 2 * e5;
    lemma_power_mod_square(3nat, e5, n, x5, 75nat, x6);
    let x7 = 72nat;
    let e7 = 2 * e6;
    lemma_power_mod_square(3nat, e6, n, x6, 1116nat, x7);
    let x8 = 957nat;
    let e8 = 2 * e7;
    lemma_power_mod_square(3nat, e7, n, x7, 3nat, x8);
    let x9 = 1408nat;
    let e9 = 2 * e8;
    lemma_power_mod_square(3nat, e8, n, x8, 649nat, x9);
}

proof fn lemma_power_1409_over_2()
    ensures
        power_mod(3nat, 704nat, 1409nat) == 1408nat,
{
    lemma_power_mod_first(3nat, 1409nat);
    lemma_power_1409_over_2_part_0();
}

proof fn lemma_power_1409_over_11_part_0()
    requires
        power_mod(3nat, 1nat, 1409nat) == 3nat,
    ensures
        power_mod(3nat, 128nat, 1409nat) == 992nat,
{
    let n = 1409nat;
    let e0 = 1nat;
    let x0 = 3nat;
    let x1 = 9nat;
    let e1 = 2 * e0;
    lemma_power_mod_square(3nat, e0, n, x0, 0nat, x1);
    let x2 = 81nat;
    let e2 = 2 * e1;
    lemma_power_mod_square(3nat, e1, n, x1, 0nat, x2);
    let x3 = 925nat;
    let e3 = 2 * e2;
    lemma_power_mod_square(3nat, e2, n, x2, 4nat, x3);
    let x4 = 362nat;
    let e4 = 2 * e3;
    lemma_power_mod_square(3nat, e3, n, x3, 607nat, x4);
    let x5 = 7nat;
    let e5 = 2 * e4;
    lemma_power_mod_square(3nat, e4, n, x4, 93nat, x5);
    let x6 = 49nat;
    let e6 = 2 * e5;
    lemma_power_mod_square(3nat, e5, n, x5, 0nat, x6);
    let x7 = 992nat;
    let e7 = 2 * e6;
    lemma_power_mod_square(3nat, e6, n, x6, 1nat, x7);
}

proof fn lemma_power_1409_over_11()
    ensures
        power_mod(3nat, 128nat, 1409nat) == 992nat,
{
    lemma_power_mod_first(3nat, 1409nat);
    lemma_power_1409_over_11_part_0();
}

proof fn lemma_certificate_1409()
    ensures
        is_certificate(1409nat, 3nat, seq![2nat, 2nat, 2nat, 2nat, 2nat, 2nat, 2nat, 11nat]),
{
    let n = 1409nat;
    let factors = seq![2nat, 2nat, 2nat, 2nat, 2nat, 2nat, 2nat, 11nat];
    lemma_small_primes();
    lemma_prime_11();
    lemma_power_1409_over_2();
    lemma_fundamental_div_mod_converse(1408int, 2int, 704int, 0);
    lemma_power_1409_over_11();
    lemma_fundamental_div_mod_converse(1408int, 11int, 128int, 0);
    lemma_power_mod_square(3nat, 704nat, n, 1408nat, 1407nat, 1);
    let f0 = Seq::<nat>::empty();
    lemma_product_push(f0, 2nat, 1nat);
    let f1 = f0.push(2nat);
    lemma_product_push(f1, 2nat, 2nat);
    let f2 = f1.push(2nat);
    lemma_product_push(f2, 2nat, 4nat);
    let f3 = f2.push(2nat);
    lemma_product_push(f3, 2nat, 8nat);
    let f4 = f3.push(2nat);
    lemma_product_push(f4, 2nat, 16nat);
    let f5 = f4.push(2nat);
    lemma_product_push(f5, 2nat, 32nat);
    let f6 = f5.push(2nat);
    lemma_product_push(f6, 2nat, 64nat);
    let f7 = f6.push(2nat);
    lemma_product_push(f7, 11nat, 128nat);
    let f8 = f7.push(11nat);
    assert(factors =~= f8);
    assert forall|j: int| 0 <= j < factors.len() implies is_prime(#[trigger] factors[j])
        && power_mod(3nat, ((n - 1) / factors[j] as int) as nat, n) != 1 by {
        if j == 0 {
        } else if j == 1 {
        } else if j == 2 {
        } else if j == 3 {
        } else if j == 4 {
        } else if j == 5 {
        } else if j == 6 {
        } else if j == 7 {
        }
    }
}

/// 1409 is prime.
pub(crate) proof fn lemma_prime_1409()
    ensures
        is_prime(1409nat),
{
    lemma_certificate_1409();
    lemma_certified_prime(1409nat, 3nat, seq![2nat, 2nat, 2nat, 2nat, 2nat, 2nat, 2nat, 11nat]);
}

proof fn lemma_power_1627_over_2_part_0()
    requires
        power_mod(3nat, 1nat, 1627nat) == 3nat,
    ensures
        power_mod(3nat, 813nat, 1627nat) == 1626nat,
{
    let n = 1627nat;
    let e0 = 1nat;
    let x0 = 3nat;
    let x1 = 27nat;
    let e1 = 2 * e0 + 1;
    lemma_power_mod_square_times(3nat, e0, n, x0, 0nat, x1);
    let x2 = 729nat;
    let e2 = 2 * e1;
    lemma_power_mod_square(3nat, e1, n, x1, 0nat, x2);
    let x3 = 1039nat;
    let e3 = 2 * e2;
    lemma_power_mod_square(3nat, e2, n, x2, 326nat, x3);
    let x4 = 833nat;
    let e4 = 2 * e3 + 1;
    lemma_power_mod_square_times(3nat, e3, n, x3, 1990nat, x4);
    let x5 = 787nat;
    let e5 = 2 * e4;
    lemma_power_mod_square(3nat, e4, n, x4, 426nat, x5);
    let x6 = 73nat;
    let e6 = 2 * e5 + 1;
    lemma_power_mod_square_times(3nat, e5, n, x5, 1142nat, x6);
    let x7 = 1344nat;
    let e7 = 2 * e6 + 1;
    lemma_power_mod_square_times(3nat, e6, n, x6, 9nat, x7);
    let x8 = 366nat;
    let e8 = 2 * e7;
    lemma_power_mod_square(3nat, e7, n, x7, 1110nat, x8);
    let x9 = 1626nat;
    let e9 = 2 * e8 + 1;
    lemma_power_mod_square_times(3nat, e8, n, x8, 246nat, x9);
}

proof fn lemma_power_1627_over_2()
    ensures
        power_mod(3nat, 813nat, 1627nat) == 1626nat,
{
    lemma_power_mod_first(3nat, 1627nat);
    lemma_power_1627_over_2_part_0();
}

proof fn lemma_power_1627_over_3_part_0()
    requires
        power_mod(3nat, 1nat, 1627nat) == 3nat,
    ensures
        power_mod(3nat, 542nat, 1627nat) == 1362nat,
{
    let n = 1627nat;
    let e0 = 1nat;
    let x0 = 3nat;
    let x1 = 9nat;
    let e1 = 2 * e0;
    lemma_power_mod_square(3nat, e0, n, x0, 0nat, x1);
    let x2 = 81nat;
    let e2 = 2 * e1;
    lemma_power_mod_square(3nat, e1, n, x1, 0nat, x2);
    let x3 = 53nat;
    let e3 = 2 * e2;
    lemma_power_mod_square(3nat, e2, n, x2, 4nat, x3);
    let x4 = 1182nat;
    let e4 = 2 * e3;
    lemma_power_mod_square(3nat, e3, n, x3, 1nat, x4);
    let x5 = 220nat;
    let e5 = 2 * e4 + 1;
    lemma_power_mod_square_times(3nat, e4, n, x4, 2576nat, x5);
    let x6 = 397nat;
    let e6 = 2 * e5 + 1;
    lemma_power_mod_square_times(3nat, e5, n, x5, 89nat, x6);
    let x7 = 997nat;
    let e7 = 2 * e6 + 1;
    lemma_power_mod_square_times(3nat, e6, n, x6, 290nat, x7);
    let x8 = 1363nat;
    let e8 = 2 * e7 + 1;
    lemma_power_mod_square_times(3nat, e7, n, x7, 1832nat, x8);
    let x9 = 1362nat;
    let e9 = 2 * e8;
    lemma_power_mod_square(3nat, e8, n, x8, 1141nat, x9);
}

proof fn lemma_power_1627_over_3()
    ensures
        power_mod(3nat, 542nat, 1627nat) == 1362nat,
{
    lemma_power_mod_first(3nat, 1627nat);
    lemma_power_1627_over_3_part_0();
}

proof fn lemma_power_1627_over_271_part_0()
    requires
        power_mod(3nat, 1nat, 1627nat) == 3nat,
    ensures
        power_mod(3nat, 6nat, 1627nat) == 729nat,
{
    let n = 1627nat;
    let e0 = 1nat;
    let x0 = 3nat;
    let x1 = 27nat;
    let e1 = 2 * e0 + 1;
    lemma_power_mod_square_times(3nat, e0, n, x0, 0nat, x1);
    let x2 = 729nat;
    let e2 = 2 * e1;
    lemma_power_mod_square(3nat, e1, n, x1, 0nat, x2);
}

proof fn lemma_power_1627_over_271()
    ensures
        power_mod(3nat, 6nat, 1627nat) == 729nat,
{
    lemma_power_mod_first(3nat, 1627nat);
    lemma_power_1627_over_271_part_0();
}

proof fn lemma_certificate_1627()
    ensures
        is_certificate(1627nat, 3nat, seq![2nat, 3nat, 271nat]),
{
    let n = 1627nat;
    let factors = seq![2nat, 3nat, 271nat];
    lemma_small_primes();
    lemma_small_primes();
    lemma_prime_271();
    lemma_power_1627_over_2();
    lemma_fundamental_div_mod_converse(1626int, 2int, 813int, 0);
    lemma_power_1627_over_3();
    lemma_fundamental_div_mod_converse(1626int, 3int, 542int, 0);
    lemma_power_1627_over_271();
    lemma_fundamental_div_mod_converse(1626int, 271int, 6int, 0);
    lemma_power_mod_square(3nat, 813nat, n, 1626nat, 1625nat, 1);
    let f0 = Seq::<nat>::empty();
    lemma_product_push(f0, 2nat, 1nat);
    let f1 = f0.push(2nat);
    lemma_product_push(f1, 3nat, 2nat);
    let f2 = f1.push(3nat);
    lemma_product_push(f2, 271nat, 6nat);
    let f3 = f2.push(271nat);
    assert(factors =~= f3);
    assert forall|j: int| 0 <= j < factors.len() implies is_prime(#[trigger] factors[j])
        && power_mod(3nat, ((n - 1) / factors[j] as int) as nat, n) != 1 by {
        if j == 0 {
        } else if j == 1 {
        } else if j == 2 {
        }
    }
}

/// 1627 is prime.
pub(crate) proof fn lemma_prime_1627()
    ensures
        is_prime(1627nat),
{
    lemma_certificate_1627();
    lemma_certified_prime(1627nat, 3nat, seq![2nat, 3nat, 271nat]);
}

proof fn lemma_power_1871_over_2_part_0()
    requires
        power_mod(14nat, 1nat, 1871nat) == 14nat,
    ensures
        power_mod(14nat, 935nat, 1871nat) == 1870nat,
{
    let n = 1871nat;
    let e0 = 1nat;
    let x0 = 14nat;
    let x1 = 873nat;
    let e1 = 2 * e0 + 1;
    lemma_power_mod_square_times(14nat, e0, n, x0, 1nat, x1);
    let x2 = 1364nat;
    let e2 = 2 * e1 + 1;
    lemma_power_mod_square_times(14nat, e1, n, x1, 5702nat, x2);
    let x3 = 722nat;
    let e3 = 2 * e2;
    lemma_power_mod_square(14nat, e2, n, x2, 994nat, x3);
    let x4 = 1076nat;
    let e4 = 2 * e3 + 1;
    lemma_power_mod_square_times(14nat, e3, n, x3, 3900nat, x4);
    let x5 = 1498nat;
    let e5 = 2 * e4;
    lemma_power_mod_square(14nat, e4, n, x4, 618nat, x5);
    let x6 = 675nat;
    let e6 = 2 * e5;
    lemma_power_mod_square(14nat, e5, n, x5, 1199nat, x6);
    let x7 = 511nat;
    let e7 = 2 * e6 + 1;
    lemma_power_mod_square_times(14nat, e6, n, x6, 3409nat, x7);
    let x8 = 1631nat;
    let e8 = 2 * e7 + 1;
    lemma_power_mod_square_times(14nat, e7, n, x7, 1953nat, x8);
    let x9 = 1870nat;
    let e9 = 2 * e8 + 1;
    lemma_power_mod_square_times(14nat, e8, n, x8, 19904nat, x9);
}

proof fn lemma_power_1871_over_2()
    ensures
        power_mod(14nat, 935nat, 1871nat) == 1870nat,
{
    lemma_power_mod_first(14nat, 1871nat);
    lemma_power_1871_over_2_part_0();
}

proof fn lemma_power_1871_over_5_part_0()
    requires
        power_mod(14nat, 1nat, 1871nat) == 14nat,
    ensures
        power_mod(14nat, 374nat, 1871nat) == 932nat,
{
    let n = 1871nat;
    let e0 = 1nat;
    let x0 = 14nat;
    let x1 = 196nat;
    let e1 = 2 * e0;
    lemma_power_mod_square(14nat, e0, n, x0, 0nat, x1);
    let x2 = 847nat;
    let e2 = 2 * e1 + 1;
    lemma_power_mod_square_times(14nat, e1, n, x1, 287nat, x2);
    let x3 = 198nat;
    let e3 = 2 * e2 + 1;
    lemma_power_mod_square_times(14nat, e2, n, x2, 5368nat, x3);
    let x4 = 653nat;
    let e4 = 2 * e3 + 1;
    lemma_power_mod_square_times(14nat, e3, n, x3, 293nat, x4);
    let x5 = 1692nat;
    let e5 = 2 * e4;
    lemma_power_mod_square(14nat, e4, n, x4, 227nat, x5);
    let x6 = 1405nat;
    let e6 = 2 * e5 + 1;
    lemma_power_mod_square_times(14nat, e5, n, x5, 21421nat, x6);
    let x7 = 1680nat;
    let e7 = 2 * e6 + 1;
    lemma_power_mod_square_times(14nat, e6, n, x6, 14770nat, x7);
    let x8 = 932nat;
    let e8 = 2 * e7;
    lemma_power_mod_square(14nat, e7, n, x7, 1508nat, x8);
}

proof fn lemma_power_1871_over_5()
    ensures
        power_mod(14nat, 374nat, 1871nat) == 932nat,
{
    lemma_power_mod_first(14nat, 1871nat);
    lemma_power_1871_over_5_part_0();
}

proof fn lemma_power_1871_over_11_part_0()
    requires
        power_mod(14nat, 1nat, 1871nat) == 14nat,
    ensures
        power_mod(14nat, 170nat, 1871nat) == 1838nat,
{
    let n = 1871nat;
    let e0 = 1nat;
    let x0 = 14nat;
    let x1 = 196nat;
    let e1 = 2 * e0;
    lemma_power_mod_square(14nat, e0, n, x0, 0nat, x1);
    let x2 = 847nat;
    let e2 = 2 * e1 + 1;
    lemma_power_mod_square_times(14nat, e1, n, x1, 287nat, x2);
    let x3 = 816nat;
    let e3 = 2 * e2;
    lemma_power_mod_square(14nat, e2, n, x2, 383nat, x3);
    let x4 = 662nat;
    let e4 = 2 * e3 + 1;
    lemma_power_mod_square_times(14nat, e3, n, x3, 4982nat, x4);
    let x5 = 430nat;
    let e5 = 2 * e4;
    lemma_power_mod_square(14nat, e4, n, x4, 234nat, x5);
    let x6 = 1007nat;
    let e6 = 2 * e5 + 1;
    lemma_power_mod_square_times(14nat, e5, n, x5, 1383nat, x6);
    let x7 = 1838nat;
    let e7 = 2 * e6;
    lemma_power_mod_square(14nat, e6, n, x6, 541nat, x7);
}

proof fn lemma_power_1871_over_11()
    ensures
        power_mod(14nat, 170nat, 1871nat) == 1838nat,
{
    lemma_power_mod_first(14nat, 1871nat);
    lemma_power_1871_over_11_part_0();
}

proof fn lemma_power_1871_over_17_part_0()
    requires
        power_mod(14nat, 1nat, 1871nat) == 14nat,
    ensures
        power_mod(14nat, 110nat, 1871nat) == 81nat,
{
    let n = 1871nat;
    let e0 = 1nat;
    let x0 = 14nat;
    let x1 = 873nat;
    let e1 = 2 * e0 + 1;
    lemma_power_mod_square_times(14nat, e0, n, x0, 1nat, x1);
    let x2 = 632nat;
    let e2 = 2 * e1;
    lemma_power_mod_square(14nat, e1, n, x1, 407nat, x2);
    let x3 = 1388nat;
    let e3 = 2 * e2 + 1;
    lemma_power_mod_square_times(14nat, e2, n, x2, 2988nat, x3);
    let x4 = 1151nat;
    let e4 = 2 * e3 + 1;
    lemma_power_mod_square_times(14nat, e3, n, x3, 14415nat, x4);
    let x5 = 1862nat;
    let e5 = 2 * e4 + 1;
    lemma_power_mod_square_times(14nat, e4, n, x4, 9912nat, x5);
    let x6 = 81nat;
    let e6 = 2 * e5;
    lemma_power_mod_square(14nat, e5, n, x5, 1853nat, x6);
}

proof fn lemma_power_1871_over_17()
    ensures
        power_mod(14nat, 110nat, 1871nat) == 81nat,
{
    lemma_power_mod_first(14nat, 1871nat);
    lemma_power_1871_over_17_part_0();
}

proof fn lemma_certificate_1871()
    ensures
        is_certificate(1871nat, 14nat, seq![2nat, 5nat, 11nat, 17nat]),
{
    let n = 1871nat;
    let factors = seq![2nat, 5nat, 11nat, 17nat];
    lemma_small_primes();
    lemma_small_primes();
    lemma_prime_11();
    lemma_prime_17();
    lemma_power_1871_over_2();
    lemma_fundamental_div_mod_converse(1870int, 2int, 935int, 0);
    lemma_power_1871_over_5();
    lemma_fundamental_div_mod_converse(1870int, 5int, 374int, 0);
    lemma_power_1871_over_11();
    lemma_fundamental_div_mod_converse(1870int, 11int, 170int, 0);
    lemma_power_1871_over_17();
    lemma_fundamental_div_mod_converse(1870int, 17int, 110int, 0);
    lemma_power_mod_square(14nat, 935nat, n, 1870nat, 1869nat, 1);
    let f0 = Seq::<nat>::empty();
    lemma_product_push(f0, 2nat, 1nat);
    let f1 = f0.push(2nat);
    lemma_product_push(f1, 5nat, 2nat);
    let f2 = f1.push(5nat);
    lemma_product_push(f2, 11nat, 10nat);
    let f3 = f2.push(11nat);
    lemma_product_push(f3, 17nat, 110nat);
    let f4 = f3.push(17nat);
    assert(factors =~= f4);
    assert forall|j: int| 0 <= j < factors.len() implies is_prime(#[trigger] factors[j])
        && power_mod(14nat, ((n - 1) / factors[j] as int) as nat, n) != 1 by {
        if j == 0 {
        } else if j == 1 {
        } else if j == 2 {
        } else if j == 3 {
        }
    }
}

/// 1871 is prime.
pub(crate) proof fn lemma_prime_1871()
    ensures
        is_prime(1871nat),
{
    lemma_certificate_1871();
    lemma_certified_prime(1871nat, 14nat, seq![2nat, 5nat, 11nat, 17nat]);
}

proof fn lemma_power_2011_over_2_part_0()
    requires
        power_mod(3nat, 1nat, 2011nat) == 3nat,
    ensures
        power_mod(3nat, 1005nat, 2011nat) == 2010nat,
{
    let n = 2011nat;
    let e0 = 1nat;
    let x0 = 3nat;
    let x1 = 27nat;
    let e1 = 2 * e0 + 1;
    lemma_power_mod_square_times(3nat, e0, n, x0, 0nat, x1);
    let x2 = 176nat;
    let e2 = 2 * e1 + 1;
    lemma_power_mod_square_times(3nat, e1, n, x1, 1nat, x2);
    let x3 = 422nat;
    let e3 = 2 * e2 + 1;
    lemma_power_mod_square_times(3nat, e2, n, x2, 46nat, x3);
    let x4 = 1337nat;
    let e4 = 2 * e3 + 1;
    lemma_power_mod_square_times(3nat, e3, n, x3, 265nat, x4);
    let x5 = 1801nat;
    let e5 = 2 * e4;
    lemma_power_mod_square(3nat, e4, n, x4, 888nat, x5);
    let x6 = 1585nat;
    let e6 = 2 * e5 + 1;
    lemma_power_mod_square_times(3nat, e5, n, x5, 4838nat, x6);
    let x7 = 1458nat;
    let e7 = 2 * e6 + 1;
    lemma_power_mod_square_times(3nat, e6, n, x6, 3747nat, x7);
    let x8 = 137nat;
    let e8 = 2 * e7;
    lemma_power_mod_square(3nat, e7, n, x7, 1057nat, x8);
    let x9 = 2010nat;
    let e9 = 2 * e8 + 1;
    lemma_power_mod_square_times(3nat, e8, n, x8, 27nat, x9);
}

proof fn lemma_power_2011_over_2()
    ensures
        power_mod(3nat, 1005nat, 2011nat) == 2010nat,
{
    lemma_power_mod_first(3nat, 2011nat);
    lemma_power_2011_over_2_part_0();
}

proof fn lemma_power_2011_over_3_part_0()
    requires
        power_mod(3nat, 1nat, 2011nat) == 3nat,
    ensures
        power_mod(3nat, 670nat, 2011nat) == 205nat,
{
    let n = 2011nat;
    let e0 = 1nat;
    let x0 = 3nat;
    let x1 = 9nat;
    let e1 = 2 * e0;
    lemma_power_mod_square(3nat, e0, n, x0, 0nat, x1);
    let x2 = 243nat;
    let e2 = 2 * e1 + 1;
    lemma_power_mod_square_times(3nat, e1, n, x1, 0nat, x2);
    let x3 = 730nat;
    let e3 = 2 * e2;
    lemma_power_mod_square(3nat, e2, n, x2, 29nat, x3);
    let x4 = 1996nat;
    let e4 = 2 * e3;
    lemma_power_mod_square(3nat, e3, n, x3, 264nat, x4);
    let x5 = 675nat;
    let e5 = 2 * e4 + 1;
    lemma_power_mod_square_times(3nat, e4, n, x4, 5943nat, x5);
    let x6 = 1406nat;
    let e6 = 2 * e5 + 1;
    lemma_power_mod_square_times(3nat, e5, n, x5, 679nat, x6);
    let x7 = 69nat;
    let e7 = 2 * e6 + 1;
    lemma_power_mod_square_times(3nat, e6, n, x6, 2949nat, x7);
    let x8 = 206nat;
    let e8 = 2 * e7 + 1;
    lemma_power_mod_square_times(3nat, e7, n, x7, 7nat, x8);
    let x9 = 205nat;
    let e9 = 2 * e8;
    lemma_power_mod_square(3nat, e8, n, x8, 21nat, x9);
}

proof fn lemma_power_2011_over_3()
    ensures
        power_mod(3nat, 670nat, 2011nat) == 205nat,
{
    lemma_power_mod_first(3nat, 2011nat);
    lemma_power_2011_over_3_part_0();
}

proof fn lemma_power_2011_over_5_part_0()
    requires
        power_mod(3nat, 1nat, 2011nat) == 3nat,
    ensures
        power_mod(3nat, 402nat, 2011nat) == 1328nat,
{
    let n = 2011nat;
    let e0 = 1nat;
    let x0 = 3nat;
    let x1 = 27nat;
    let e1 = 2 * e0 + 1;
    lemma_power_mod_square_times(3nat, e0, n, x0, 0nat, x1);
    let x2 = 729nat;
    let e2 = 2 * e1;
    lemma_power_mod_square(3nat, e1, n, x1, 0nat, x2);
    let x3 = 537nat;
    let e3 = 2 * e2;
    lemma_power_mod_square(3nat, e2, n, x2, 264nat, x3);
    let x4 = 377nat;
    let e4 = 2 * e3 + 1;
    lemma_power_mod_square_times(3nat, e3, n, x3, 430nat, x4);
    let x5 = 1359nat;
    let e5 = 2 * e4;
    lemma_power_mod_square(3nat, e4, n, x4, 70nat, x5);
    let x6 = 783nat;
    let e6 = 2 * e5;
    lemma_power_mod_square(3nat, e5, n, x5, 918nat, x6);
    let x7 = 1213nat;
    let e7 = 2 * e6 + 1;
    lemma_power_mod_square_times(3nat, e6, n, x6, 914nat, x7);
    let x8 = 1328nat;
    let e8 = 2 * e7;
    lemma_power_mod_square(3nat, e7, n, x7, 731nat, x8);
}

proof fn lemma_power_2011_over_5()
    ensures
        power_mod(3nat, 402nat, 2011nat) == 1328nat,
{
    lemma_power_mod_first(3nat, 2011nat);
    lemma_power_2011_over_5_part_0();
}

proof fn lemma_power_2011_over_67_part_0()
    requires
        power_mod(3nat, 1nat, 2011nat) == 3nat,
    ensures
        power_mod(3nat, 30nat, 2011nat) == 1116nat,
{
    let n = 2011nat;
    let e0 = 1nat;
    let x0 = 3nat;
    let x1 = 27nat;
    let e1 = 2 * e0 + 1;
    lemma_power_mod_square_times(3nat, e0, n, x0, 0nat, x1);
    let x2 = 176nat;
    let e2 = 2 * e1 + 1;
    lemma_power_mod_square_times(3nat, e1, n, x1, 1nat, x2);
    let x3 = 422nat;
    let e3 = 2 * e2 + 1;
    lemma_power_mod_square_times(3nat, e2, n, x2, 46nat, x3);
    let x4 = 1116nat;
    let e4 = 2 * e3;
    lemma_power_mod_square(3nat, e3, n, x3, 88nat, x4);
}

proof fn lemma_power_2011_over_67()
    ensures
        power_mod(3nat, 30nat, 2011nat) == 1116nat,
{
    lemma_power_mod_first(3nat, 2011nat);
    lemma_power_2011_over_67_part_0();
}

proof fn lemma_certificate_2011()
    ensures
        is_certificate(2011nat, 3nat, seq![2nat, 3nat, 5nat, 67nat]),
{
    let n = 2011nat;
    let factors = seq![2nat, 3nat, 5nat, 67nat];
    lemma_small_primes();
    lemma_small_primes();
    lemma_small_primes();
    lemma_prime_67();
    lemma_power_2011_over_2();
    lemma_fundamental_div_mod_converse(2010int, 2int, 1005int, 0);
    lemma_power_2011_over_3();
    lemma_fundamental_div_mod_converse(2010int, 3int, 670int, 0);
    lemma_power_2011_over_5();
    lemma_fundamental_div_mod_converse(2010int, 5int, 402int, 0);
    lemma_power_2011_over_67();
    lemma_fundamental_div_mod_converse(2010int, 67int, 30int, 0);
    lemma_power_mod_square(3nat, 1005nat, n, 2010nat, 2009nat, 1);
    let f0 = Seq::<nat>::empty();
    lemma_product_push(f0, 2nat, 1nat);
    let f1 = f0.push(2nat);
    lemma_product_push(f1, 3nat, 2nat);
    let f2 = f1.push(3nat);
    lemma_product_push(f2, 5nat, 6nat);
    let f3 = f2.push(5nat);
    lemma_product_push(f3, 67nat, 30nat);
    let f4 = f3.push(67nat);
    assert(factors =~= f4);
    assert forall|j: int| 0 <= j < factors.len() implies is_prime(#[trigger] factors[j])
        && power_mod(3nat, ((n - 1) / factors[j] as int) as nat, n) != 1 by {
        if j == 0 {
        } else if j == 1 {
        } else if j == 2 {
        } else if j == 3 {
        }
    }
}

/// 2011 is prime.
pub(crate) proof fn lemma_prime_2011()
    ensures
        is_prime(2011nat),
{
    lemma_certificate_2011();
    lemma_certified_prime(2011nat, 3nat, seq![2nat, 3nat, 5nat, 67nat]);
}

proof fn lemma_power_2621_over_2_part_0()
    requires
        power_mod(2nat, 1nat, 2621nat) == 2nat,
    ensures
        power_mod(2nat, 1310nat, 2621nat) == 2620nat,
{
    let n = 2621nat;
    let e0 = 1nat;
    let x0 = 2nat;
    let x1 = 4nat;
    let e1 = 2 * e0;
    lemma_power_mod_square(2nat, e0, n, x0, 0nat, x1);
    let x2 = 32nat;
    let e2 = 2 * e1 + 1;
    lemma_power_mod_square_times(2nat, e1, n, x1, 0nat, x2);
    let x3 = 1024nat;
    let e3 = 2 * e2;
    lemma_power_mod_square(2nat, e2, n, x2, 0nat, x3);
    let x4 = 176nat;
    let e4 = 2 * e3;
    lemma_power_mod_square(2nat, e3, n, x3, 400nat, x4);
    let x5 = 2145nat;
    let e5 = 2 * e4;
    lemma_power_mod_square(2nat, e4, n, x4, 11nat, x5);
    let x6 = 2340nat;
    let e6 = 2 * e5 + 1;
    lemma_power_mod_square_times(2nat, e5, n, x5, 3510nat, x6);
    let x7 = 662nat;
    let e7 = 2 * e6 + 1;
    lemma_power_mod_square_times(2nat, e6, n, x6, 4178nat, x7);
    let x8 = 1074nat;
    let e8 = 2 * e7 + 1;
    lemma_power_mod_square_times(2nat, e7, n, x7, 334nat, x8);
    let x9 = 472nat;
    let e9 = 2 * e8 + 1;
    lemma_power_mod_square_times(2nat, e8, n, x8, 880nat, x9);
    let x10 = 2620nat;
    let e10 = 2 * e9;
    lemma_power_mod_square(2nat, e9, n, x9, 84nat, x10);
}

proof fn lemma_power_2621_over_2()
    ensures
        power_mod(2nat, 1310nat, 2621nat) == 2620nat,
{
    lemma_power_mod_first(2nat, 2621nat);
    lemma_power_2621_over_2_part_0();
}

proof fn lemma_power_2621_over_5_part_0()
    requires
        power_mod(2nat, 1nat, 2621nat) == 2nat,
    ensures
        power_mod(2nat, 524nat, 2621nat) == 1860nat,
{
    let n = 2621nat;
    let e0 = 1nat;
    let x0 = 2nat;
    let x1 = 4nat;
    let e1 = 2 * e0;
    lemma_power_mod_square(2nat, e0, n, x0, 0nat, x1);
    let x2 = 16nat;
    let e2 = 2 * e1;
    lemma_power_mod_square(2nat, e1, n, x1, 0nat, x2);
    let x3 = 256nat;
    let e3 = 2 * e2;
    lemma_power_mod_square(2nat, e2, n, x2, 0nat, x3);
    let x4 = 11nat;
    let e4 = 2 * e3;
    lemma_power_mod_square(2nat, e3, n, x3, 25nat, x4);
    let x5 = 121nat;
    let e5 = 2 * e4;
    lemma_power_mod_square(2nat, e4, n, x4, 0nat, x5);
    let x6 = 451nat;
    let e6 = 2 * e5 + 1;
    lemma_power_mod_square_times(2nat, e5, n, x5, 11nat, x6);
    let x7 = 547nat;
    let e7 = 2 * e6 + 1;
    lemma_power_mod_square_times(2nat, e6, n, x6, 155nat, x7);
    let x8 = 415nat;
    let e8 = 2 * e7;
    lemma_power_mod_square(2nat, e7, n, x7, 114nat, x8);
    let x9 = 1860nat;
    let e9 = 2 * e8;
    lemma_power_mod_square(2nat, e8, n, x8, 65nat, x9);
}

proof fn lemma_power_2621_over_5()
    ensures
        power_mod(2nat, 524nat, 2621nat) == 1860nat,
{
    lemma_power_mod_first(2nat, 2621nat);
    lemma_power_2621_over_5_part_0();
}

proof fn lemma_power_2621_over_131_part_0()
    requires
        power_mod(2nat, 1nat, 2621nat) == 2nat,
    ensures
        power_mod(2nat, 20nat, 2621nat) == 176nat,
{
    let n = 2621nat;
    let e0 = 1nat;
    let x0 = 2nat;
    let x1 = 4nat;
    let e1 = 2 * e0;
    lemma_power_mod_square(2nat, e0, n, x0, 0nat, x1);
    let x2 = 32nat;
    let e2 = 2 * e1 + 1;
    lemma_power_mod_square_times(2nat, e1, n, x1, 0nat, x2);
    let x3 = 1024nat;
    let e3 = 2 * e2;
    lemma_power_mod_square(2nat, e2, n, x2, 0nat, x3);
    let x4 = 176nat;
    let e4 = 2 * e3;
    lemma_power_mod_square(2nat, e3, n, x3, 400nat, x4);
}

proof fn lemma_power_2621_over_131()
    ensures
        power_mod(2nat, 20nat, 2621nat) == 176nat,
{
    lemma_power_mod_first(2nat, 2621nat);
    lemma_power_2621_over_131_part_0();
}

proof fn lemma_certificate_2621()
    ensures
        is_certificate(2621nat, 2nat, seq![2nat, 2nat, 5nat, 131nat]),
{
    let n = 2621nat;
    let factors = seq![2nat, 2nat, 5nat, 131nat];
    lemma_small_primes();
    lemma_small_primes();
    lemma_prime_131();
    lemma_power_2621_over_2();
    lemma_fundamental_div_mod_converse(2620int, 2int, 1310int, 0);
    lemma_power_2621_over_5();
    lemma_fundamental_div_mod_converse(2620int, 5int, 524int, 0);
    lemma_power_2621_over_131();
    lemma_fundamental_div_mod_converse(2620int, 131int, 20int, 0);
    lemma_power_mod_square(2nat, 1310nat, n, 2620nat, 2619nat, 1);
    let f0 = Seq::<nat>::empty();
    lemma_product_push(f0, 2nat, 1nat);
    let f1 = f0.push(2nat);
    lemma_product_push(f1, 2nat, 2nat);
    let f2 = f1.push(2nat);
    lemma_product_push(f2, 5nat, 4nat);
    let f3 = f2.push(5nat);
    lemma_product_push(f3, 131nat, 20nat);
    let f4 = f3.push(131nat);
    assert(factors =~= f4);
    assert forall|j: int| 0 <= j < factors.len() implies is_prime(#[trigger] factors[j])
        && power_mod(2nat, ((n - 1) / factors[j] as int) as nat, n) != 1 by {
        if j == 0 {
        } else if j == 1 {
        } else if j == 2 {
        } else if j == 3 {
        }
    }
}

/// 2621 is prime.
pub(crate) proof fn lemma_prime_2621()
    ensures
        is_prime(2621nat),
{
    lemma_certificate_2621();
    lemma_certified_prime(2621nat, 2nat, seq![2nat, 2nat, 5nat, 131nat]);
}

proof fn lemma_power_2657_over_2_part_0()
    requires
        power_mod(3nat, 1nat, 2657nat) == 3nat,
    ensures
        power_mod(3nat, 1328nat, 2657nat) == 2656nat,
{
    let n = 2657nat;
    let e0 = 1nat;
    let x0 = 3nat;
    let x1 = 9nat;
    let e1 = 2 * e0;
    lemma_power_mod_square(3nat, e0, n, x0, 0nat, x1);
    let x2 = 243nat;
    let e2 = 2 * e1 + 1;
    lemma_power_mod_square_times(3nat, e1, n, x1, 0nat, x2);
    let x3 = 595nat;
    let e3 = 2 * e2;
    lemma_power_mod_square(3nat, e2, n, x2, 22nat, x3);
    let x4 = 644nat;
    let e4 = 2 * e3;
    lemma_power_mod_square(3nat, e3, n, x3, 133nat, x4);
    let x5 = 732nat;
    let e5 = 2 * e4 + 1;
    lemma_power_mod_square_times(3nat, e4, n, x4, 468nat, x5);
    let x6 = 2644nat;
    let e6 = 2 * e5 + 1;
    lemma_power_mod_square_times(3nat, e5, n, x5, 604nat, x6);
    let x7 = 169nat;
    let e7 = 2 * e6;
    lemma_power_mod_square(3nat, e6, n, x6, 2631nat, x7);
    let x8 = 1991nat;
    let e8 = 2 * e7;
    lemma_power_mod_square(3nat, e7, n, x7, 10nat, x8);
    let x9 = 2494nat;
    let e9 = 2 * e8;
    lemma_power_mod_square(3nat, e8, n, x8, 1491nat, x9);
    let x10 = 2656nat;
    let e10 = 2 * e9;
    lemma_power_mod_square(3nat, e9, n, x9, 2340nat, x10);
}

proof fn lemma_power_2657_over_2()
    ensures
        power_mod(3nat, 1328nat, 2657nat) == 2656nat,
{
    lemma_power_mod_first(3nat, 2657nat);
    lemma_power_2657_over_2_part_0();
}

proof fn lemma_power_2657_over_83_part_0()
    requires
        power_mod(3nat, 1nat, 2657nat) == 3nat,
    ensures
        power_mod(3nat, 32nat, 2657nat) == 2491nat,
{
    let n = 2657nat;
    let e0 = 1nat;
    let x0 = 3nat;
    let x1 = 9nat;
    let e1 = 2 * e0;
    lemma_power_mod_square(3nat, e0, n, x0, 0nat, x1);
    let x2 = 81nat;
    let e2 = 2 * e1;
    lemma_power_mod_square(3nat, e1, n, x1, 0nat, x2);
    let x3 = 1247nat;
    let e3 = 2 * e2;
    lemma_power_mod_square(3nat, e2, n, x2, 2nat, x3);
    let x4 = 664nat;
    let e4 = 2 * e3;
    lemma_power_mod_square(3nat, e3, n, x3, 585nat, x4);
    let x5 = 2491nat;
    let e5 = 2 * e4;
    lemma_power_mod_square(3nat, e4, n, x4, 165nat, x5);
}

proof fn lemma_power_2657_over_83()
    ensures
        power_mod(3nat, 32nat, 2657nat) == 2491nat,
{
    lemma_power_mod_first(3nat, 2657nat);
    lemma_power_2657_over_83_part_0();
}

proof fn lemma_certificate_2657()
    ensures
        is_certificate(2657nat, 3nat, seq![2nat, 2nat, 2nat, 2nat, 2nat, 83nat]),
{
    let n = 2657nat;
    let factors = seq![2nat, 2nat, 2nat, 2nat, 2nat, 83nat];
    lemma_small_primes();
    lemma_prime_83();
    lemma_power_2657_over_2();
    lemma_fundamental_div_mod_converse(2656int, 2int, 1328int, 0);
    lemma_power_2657_over_83();
    lemma_fundamental_div_mod_converse(2656int, 83int, 32int, 0);
    lemma_power_mod_square(3nat, 1328nat, n, 2656nat, 2655nat, 1);
    let f0 = Seq::<nat>::empty();
    lemma_product_push(f0, 2nat, 1nat);
    let f1 = f0.push(2nat);
    lemma_product_push(f1, 2nat, 2nat);
    let f2 = f1.push(2nat);
    lemma_product_push(f2, 2nat, 4nat);
    let f3 = f2.push(2nat);
    lemma_product_push(f3, 2nat, 8nat);
    let f4 = f3.push(2nat);
    lemma_product_push(f4, 2nat, 16nat);
    let f5 = f4.push(2nat);
    lemma_product_push(f5, 83nat, 32nat);
    let f6 = f5.push(83nat);
    assert(factors =~= f6);
    assert forall|j: int| 0 <= j < factors.len() implies is_prime(#[trigger] factors[j])
        && power_mod(3nat, ((n - 1) / factors[j] as int) as nat, n) != 1 by {
        if j == 0 {
        } else if j == 1 {
        } else if j == 2 {
        } else if j == 3 {
        } else if j == 4 {
        } else if j == 5 {
        }
    }
}

/// 2657 is prime.
pub(crate) proof fn lemma_prime_2657()
    ensures
        is_prime(2657nat),
{
    lemma_certificate_2657();
    lemma_certified_prime(2657nat, 3nat, seq![2nat, 2nat, 2nat, 2nat, 2nat, 83nat]);
}

proof fn lemma_power_2731_over_2_part_0()
    requires
        power_mod(3nat, 1nat, 2731nat) == 3nat,
    ensures
        power_mod(3nat, 1365nat, 2731nat) == 2730nat,
{
    let n = 2731nat;
    let e0 = 1nat;
    let x0 = 3nat;
    let x1 = 9nat;
    let e1 = 2 * e0;
    lemma_power_mod_square(3nat, e0, n, x0, 0nat, x1);
    let x2 = 243nat;
    let e2 = 2 * e1 + 1;
    lemma_power_mod_square_times(3nat, e1, n, x1, 0nat, x2);
    let x3 = 1698nat;
    let e3 = 2 * e2;
    lemma_power_mod_square(3nat, e2, n, x2, 21nat, x3);
    let x4 = 535nat;
    let e4 = 2 * e3 + 1;
    lemma_power_mod_square_times(3nat, e3, n, x3, 3167nat, x4);
    let x5 = 2201nat;
    let e5 = 2 * e4;
    lemma_power_mod_square(3nat, e4, n, x4, 104nat, x5);
    let x6 = 1552nat;
    let e6 = 2 * e5 + 1;
    lemma_power_mod_square_times(3nat, e5, n, x5, 5321nat, x6);
    let x7 = 2693nat;
    let e7 = 2 * e6;
    lemma_power_mod_square(3nat, e6, n, x6, 881nat, x7);
    let x8 = 1601nat;
    let e8 = 2 * e7 + 1;
    lemma_power_mod_square_times(3nat, e7, n, x7, 7966nat, x8);
    let x9 = 1523nat;
    let e9 = 2 * e8;
    lemma_power_mod_square(3nat, e8, n, x8, 938nat, x9);
    let x10 = 2730nat;
    let e10 = 2 * e9 + 1;
    lemma_power_mod_square_times(3nat, e9, n, x9, 2547nat, x10);
}

proof fn lemma_power_2731_over_2()
    ensures
        power_mod(3nat, 1365nat, 2731nat) == 2730nat,
{
    lemma_power_mod_first(3nat, 2731nat);
    lemma_power_2731_over_2_part_0();
}

proof fn lemma_power_2731_over_3_part_0()
    requires
        power_mod(3nat, 1nat, 2731nat) == 3nat,
    ensures
        power_mod(3nat, 910nat, 2731nat) == 2284nat,
{
    let n = 2731nat;
    let e0 = 1nat;
    let x0 = 3nat;
    let x1 = 27nat;
    let e1 = 2 * e0 + 1;
    lemma_power_mod_square_times(3nat, e0, n, x0, 0nat, x1);
    let x2 = 2187nat;
    let e2 = 2 * e1 + 1;
    lemma_power_mod_square_times(3nat, e1, n, x1, 0nat, x2);
    let x3 = 988nat;
    let e3 = 2 * e2;
    lemma_power_mod_square(3nat, e2, n, x2, 1751nat, x3);
    let x4 = 1177nat;
    let e4 = 2 * e3;
    lemma_power_mod_square(3nat, e3, n, x3, 357nat, x4);
    let x5 = 712nat;
    let e5 = 2 * e4;
    lemma_power_mod_square(3nat, e4, n, x4, 507nat, x5);
    let x6 = 2396nat;
    let e6 = 2 * e5 + 1;
    lemma_power_mod_square_times(3nat, e5, n, x5, 556nat, x6);
    let x7 = 762nat;
    let e7 = 2 * e6 + 1;
    lemma_power_mod_square_times(3nat, e6, n, x6, 6306nat, x7);
    let x8 = 2285nat;
    let e8 = 2 * e7 + 1;
    lemma_power_mod_square_times(3nat, e7, n, x7, 637nat, x8);
    let x9 = 2284nat;
    let e9 = 2 * e8;
    lemma_power_mod_square(3nat, e8, n, x8, 1911nat, x9);
}

proof fn lemma_power_2731_over_3()
    ensures
        power_mod(3nat, 910nat, 2731nat) == 2284nat,
{
    lemma_power_mod_first(3nat, 2731nat);
    lemma_power_2731_over_3_part_0();
}

proof fn lemma_power_2731_over_5_part_0()
    requires
        power_mod(3nat, 1nat, 2731nat) == 3nat,
    ensures
        power_mod(3nat, 546nat, 2731nat) == 1633nat,
{
    let n = 2731nat;
    let e0 = 1nat;
    let x0 = 3nat;
    let x1 = 9nat;
    let e1 = 2 * e0;
    lemma_power_mod_square(3nat, e0, n, x0, 0nat, x1);
    let x2 = 81nat;
    let e2 = 2 * e1;
    lemma_power_mod_square(3nat, e1, n, x1, 0nat, x2);
    let x3 = 1099nat;
    let e3 = 2 * e2;
    lemma_power_mod_square(3nat, e2, n, x2, 2nat, x3);
    let x4 = 2097nat;
    let e4 = 2 * e3 + 1;
    lemma_power_mod_square_times(3nat, e3, n, x3, 1326nat, x4);
    let x5 = 499nat;
    let e5 = 2 * e4;
    lemma_power_mod_square(3nat, e4, n, x4, 1610nat, x5);
    let x6 = 480nat;
    let e6 = 2 * e5;
    lemma_power_mod_square(3nat, e5, n, x5, 91nat, x6);
    let x7 = 996nat;
    let e7 = 2 * e6;
    lemma_power_mod_square(3nat, e6, n, x6, 84nat, x7);
    let x8 = 1989nat;
    let e8 = 2 * e7 + 1;
    lemma_power_mod_square_times(3nat, e7, n, x7, 1089nat, x8);
    let x9 = 1633nat;
    let e9 = 2 * e8;
    lemma_power_mod_square(3nat, e8, n, x8, 1448nat, x9);
}

proof fn lemma_power_2731_over_5()
    ensures
        power_mod(3nat, 546nat, 2731nat) == 1633nat,
{
    lemma_power_mod_first(3nat, 2731nat);
    lemma_power_2731_over_5_part_0();
}

proof fn lemma_power_2731_over_7_part_0()
    requires
        power_mod(3nat, 1nat, 2731nat) == 3nat,
    ensures
        power_mod(3nat, 390nat, 2731nat) == 1238nat,
{
    let n = 2731nat;
    let e0 = 1nat;
    let x0 = 3nat;
    let x1 = 27nat;
    let e1 = 2 * e0 + 1;
    lemma_power_mod_square_times(3nat, e0, n, x0, 0nat, x1);
    let x2 = 729nat;
    let e2 = 2 * e1;
    lemma_power_mod_square(3nat, e1, n, x1, 0nat, x2);
    let x3 = 1627nat;
    let e3 = 2 * e2;
    lemma_power_mod_square(3nat, e2, n, x2, 194nat, x3);
    let x4 = 790nat;
    let e4 = 2 * e3;
    lemma_power_mod_square(3nat, e3, n, x3, 969nat, x4);
    let x5 = 1432nat;
    let e5 = 2 * e4;
    lemma_power_mod_square(3nat, e4, n, x4, 228nat, x5);
    let x6 = 1660nat;
    let e6 = 2 * e5 + 1;
    lemma_power_mod_square_times(3nat, e5, n, x5, 2252nat, x6);
    let x7 = 63nat;
    let e7 = 2 * e6 + 1;
    lemma_power_mod_square_times(3nat, e6, n, x6, 3027nat, x7);
    let x8 = 1238nat;
    let e8 = 2 * e7;
    lemma_power_mod_square(3nat, e7, n, x7, 1nat, x8);
}

proof fn lemma_power_2731_over_7()
    ensures
        power_mod(3nat, 390nat, 2731nat) == 1238nat,
{
    lemma_power_mod_first(3nat, 2731nat);
    lemma_power_2731_over_7_part_0();
}

proof fn lemma_power_2731_over_13_part_0()
    requires
        power_mod(3nat, 1nat, 2731nat) == 3nat,
    ensures
        power_mod(3nat, 210nat, 2731nat) == 1024nat,
{
    let n = 2731nat;
    let e0 = 1nat;
    let x0 = 3nat;
    let x1 = 27nat;
    let e1 = 2 * e0 + 1;
    lemma_power_mod_square_times(3nat, e0, n, x0, 0nat, x1);
    let x2 = 729nat;
    let e2 = 2 * e1;
    lemma_power_mod_square(3nat, e1, n, x1, 0nat, x2);
    let x3 = 2150nat;
    let e3 = 2 * e2 + 1;
    lemma_power_mod_square_times(3nat, e2, n, x2, 583nat, x3);
    let x4 = 1648nat;
    let e4 = 2 * e3;
    lemma_power_mod_square(3nat, e3, n, x3, 1692nat, x4);
    let x5 = 1290nat;
    let e5 = 2 * e4;
    lemma_power_mod_square(3nat, e4, n, x4, 994nat, x5);
    let x6 = 32nat;
    let e6 = 2 * e5 + 1;
    lemma_power_mod_square_times(3nat, e5, n, x5, 1828nat, x6);
    let x7 = 1024nat;
    let e7 = 2 * e6;
    lemma_power_mod_square(3nat, e6, n, x6, 0nat, x7);
}

proof fn lemma_power_2731_over_13()
    ensures
        power_mod(3nat, 210nat, 2731nat) == 1024nat,
{
    lemma_power_mod_first(3nat, 2731nat);
    lemma_power_2731_over_13_part_0();
}

proof fn lemma_certificate_2731()
    ensures
        is_certificate(2731nat, 3nat, seq![2nat, 3nat, 5nat, 7nat, 13nat]),
{
    let n = 2731nat;
    let factors = seq![2nat, 3nat, 5nat, 7nat, 13nat];
    lemma_small_primes();
    lemma_small_primes();
    lemma_small_primes();
    lemma_small_primes();
    lemma_prime_13();
    lemma_power_2731_over_2();
    lemma_fundamental_div_mod_converse(2730int, 2int, 1365int, 0);
    lemma_power_2731_over_3();
    lemma_fundamental_div_mod_converse(2730int, 3int, 910int, 0);
    lemma_power_2731_over_5();
    lemma_fundamental_div_mod_converse(2730int, 5int, 546int, 0);
    lemma_power_2731_over_7();
    lemma_fundamental_div_mod_converse(2730int, 7int, 390int, 0);
    lemma_power_2731_over_13();
    lemma_fundamental_div_mod_converse(2730int, 13int, 210int, 0);
    lemma_power_mod_square(3nat, 1365nat, n, 2730nat, 2729nat, 1);
    let f0 = Seq::<nat>::empty();
    lemma_product_push(f0, 2nat, 1nat);
    let f1 = f0.push(2nat);
    lemma_product_push(f1, 3nat, 2nat);
    let f2 = f1.push(3nat);
    lemma_product_push(f2, 5nat, 6nat);
    let f3 = f2.push(5nat);
    lemma_product_push(f3, 7nat, 30nat);
    let f4 = f3.push(7nat);
    lemma_product_push(f4, 13nat, 210nat);
    let f5 = f4.push(13nat);
    assert(factors =~= f5);
    assert forall|j: int| 0 <= j < factors.len() implies is_prime(#[trigger] factors[j])
        && power_mod(3nat, ((n - 1) / factors[j] as int) as nat, n) != 1 by {
        if j == 0 {
        } else if j == 1 {
        } else if j == 2 {
        } else if j == 3 {
        } else if j == 4 {
        }
    }
}

/// 2731 is prime.
pub(crate) proof fn lemma_prime_2731()
    ensures
        is_prime(2731nat),
{
    lemma_certificate_2731();
    lemma_certified_prime(2731nat, 3nat, seq![2nat, 3nat, 5nat, 7nat, 13nat]);
}

proof fn lemma_power_2861_over_2_part_0()
    requires
        power_mod(2nat, 1nat, 2861nat) == 2nat,
    ensures
        power_mod(2nat, 1430nat, 2861nat) == 2860nat,
{
    let n = 2861nat;
    let e0 = 1nat;
    let x0 = 2nat;
    let x1 = 4nat;
    let e1 = 2 * e0;
    lemma_power_mod_square(2nat, e0, n, x0, 0nat, x1);
    let x2 = 32nat;
    let e2 = 2 * e1 + 1;
    lemma_power_mod_square_times(2nat, e1, n, x1, 0nat, x2);
    let x3 = 2048nat;
    let e3 = 2 * e2 + 1;
    lemma_power_mod_square_times(2nat, e2, n, x2, 0nat, x3);
    let x4 = 78nat;
    let e4 = 2 * e3;
    lemma_power_mod_square(2nat, e3, n, x3, 1466nat, x4);
    let x5 = 362nat;
    let e5 = 2 * e4;
    lemma_power_mod_square(2nat, e4, n, x4, 2nat, x5);
    let x6 = 1737nat;
    let e6 = 2 * e5 + 1;
    lemma_power_mod_square_times(2nat, e5, n, x5, 91nat, x6);
    let x7 = 1675nat;
    let e7 = 2 * e6;
    lemma_power_mod_square(2nat, e6, n, x6, 1054nat, x7);
    let x8 = 829nat;
    let e8 = 2 * e7 + 1;
    lemma_power_mod_square_times(2nat, e7, n, x7, 1961nat, x8);
    let x9 = 1202nat;
    let e9 = 2 * e8 + 1;
    lemma_power_mod_square_times(2nat, e8, n, x8, 480nat, x9);
    let x10 = 2860nat;
    let e10 = 2 * e9;
    lemma_power_mod_square(2nat, e9, n, x9, 504nat, x10);
}

proof fn lemma_power_2861_over_2()
    ensures
        power_mod(2nat, 1430nat, 2861nat) == 2860nat,
{
    lemma_power_mod_first(2nat, 2861nat);
    lemma_power_2861_over_2_part_0();
}

proof fn lemma_power_2861_over_5_part_0()
    requires
        power_mod(2nat, 1nat, 2861nat) == 2nat,
    ensures
        power_mod(2nat, 572nat, 2861nat) == 2174nat,
{
    let n = 2861nat;
    let e0 = 1nat;
    let x0 = 2nat;
    let x1 = 4nat;
    let e1 = 2 * e0;
    lemma_power_mod_square(2nat, e0, n, x0, 0nat, x1);
    let x2 = 16nat;
    let e2 = 2 * e1;
    lemma_power_mod_square(2nat, e1, n, x1, 0nat, x2);
    let x3 = 256nat;
    let e3 = 2 * e2;
    lemma_power_mod_square(2nat, e2, n, x2, 0nat, x3);
    let x4 = 2327nat;
    let e4 = 2 * e3 + 1;
    lemma_power_mod_square_times(2nat, e3, n, x3, 45nat, x4);
    let x5 = 973nat;
    let e5 = 2 * e4 + 1;
    lemma_power_mod_square_times(2nat, e4, n, x4, 3785nat, x5);
    let x6 = 2337nat;
    let e6 = 2 * e5 + 1;
    lemma_power_mod_square_times(2nat, e5, n, x5, 661nat, x6);
    let x7 = 2701nat;
    let e7 = 2 * e6 + 1;
    lemma_power_mod_square_times(2nat, e6, n, x6, 3817nat, x7);
    let x8 = 2712nat;
    let e8 = 2 * e7;
    lemma_power_mod_square(2nat, e7, n, x7, 2549nat, x8);
    let x9 = 2174nat;
    let e9 = 2 * e8;
    lemma_power_mod_square(2nat, e8, n, x8, 2570nat, x9);
}

proof fn lemma_power_2861_over_5()
    ensures
        power_mod(2nat, 572nat, 2861nat) == 2174nat,
{
    lemma_power_mod_first(2nat, 2861nat);
    lemma_power_2861_over_5_part_0();
}

proof fn lemma_power_2861_over_11_part_0()
    requires
        power_mod(2nat, 1nat, 2861nat) == 2nat,
    ensures
        power_mod(2nat, 260nat, 2861nat) == 2368nat,
{
    let n = 2861nat;
    let e0 = 1nat;
    let x0 = 2nat;
    let x1 = 4nat;
    let e1 = 2 * e0;
    lemma_power_mod_square(2nat, e0, n, x0, 0nat, x1);
    let x2 = 16nat;
    let e2 = 2 * e1;
    lemma_power_mod_square(2nat, e1, n, x1, 0nat, x2);
    let x3 = 256nat;
    let e3 = 2 * e2;
    lemma_power_mod_square(2nat, e2, n, x2, 0nat, x3);
    let x4 = 2594nat;
    let e4 = 2 * e3;
    lemma_power_mod_square(2nat, e3, n, x3, 22nat, x4);
    let x5 = 2625nat;
    let e5 = 2 * e4;
    lemma_power_mod_square(2nat, e4, n, x4, 2351nat, x5);
    let x6 = 2674nat;
    let e6 = 2 * e5 + 1;
    lemma_power_mod_square_times(2nat, e5, n, x5, 4816nat, x6);
    let x7 = 637nat;
    let e7 = 2 * e6;
    lemma_power_mod_square(2nat, e6, n, x6, 2499nat, x7);
    let x8 = 2368nat;
    let e8 = 2 * e7;
    lemma_power_mod_square(2nat, e7, n, x7, 141nat, x8);
}

proof fn lemma_power_2861_over_11()
    ensures
        power_mod(2nat, 260nat, 2861nat) == 2368nat,
{
    lemma_power_mod_first(2nat, 2861nat);
    lemma_power_2861_over_11_part_0();
}

proof fn lemma_power_2861_over_13_part_0()
    requires
        power_mod(2nat, 1nat, 2861nat) == 2nat,
    ensures
        power_mod(2nat, 220nat, 2861nat) == 1385nat,
{
    let n = 2861nat;
    let e0 = 1nat;
    let x0 = 2nat;
    let x1 = 8nat;
    let e1 = 2 * e0 + 1;
    lemma_power_mod_square_times(2nat, e0, n, x0, 0nat, x1);
    let x2 = 64nat;
    let e2 = 2 * e1;
    lemma_power_mod_square(2nat, e1, n, x1, 0nat, x2);
    let x3 = 2470nat;
    let e3 = 2 * e2 + 1;
    lemma_power_mod_square_times(2nat, e2, n, x2, 2nat, x3);
    let x4 = 2496nat;
    let e4 = 2 * e3 + 1;
    lemma_power_mod_square_times(2nat, e3, n, x3, 4264nat, x4);
    let x5 = 377nat;
    let e5 = 2 * e4 + 1;
    lemma_power_mod_square_times(2nat, e4, n, x4, 4355nat, x5);
    let x6 = 1940nat;
    let e6 = 2 * e5;
    lemma_power_mod_square(2nat, e5, n, x5, 49nat, x6);
    let x7 = 1385nat;
    let e7 = 2 * e6;
    lemma_power_mod_square(2nat, e6, n, x6, 1315nat, x7);
}

proof fn lemma_power_2861_over_13()
    ensures
        power_mod(2nat, 220nat, 2861nat) == 1385nat,
{
    lemma_power_mod_first(2nat, 2861nat);
    lemma_power_2861_over_13_part_0();
}

proof fn lemma_certificate_2861()
    ensures
        is_certificate(2861nat, 2nat, seq![2nat, 2nat, 5nat, 11nat, 13nat]),
{
    let n = 2861nat;
    let factors = seq![2nat, 2nat, 5nat, 11nat, 13nat];
    lemma_small_primes();
    lemma_small_primes();
    lemma_prime_11();
    lemma_prime_13();
    lemma_power_2861_over_2();
    lemma_fundamental_div_mod_converse(2860int, 2int, 1430int, 0);
    lemma_power_2861_over_5();
    lemma_fundamental_div_mod_converse(2860int, 5int, 572int, 0);
    lemma_power_2861_over_11();
    lemma_fundamental_div_mod_converse(2860int, 11int, 260int, 0);
    lemma_power_2861_over_13();
    lemma_fundamental_div_mod_converse(2860int, 13int, 220int, 0);
    lemma_power_mod_square(2nat, 1430nat, n, 2860nat, 2859nat, 1);
    let f0 = Seq::<nat>::empty();
    lemma_product_push(f0, 2nat, 1nat);
    let f1 = f0.push(2nat);
    lemma_product_push(f1, 2nat, 2nat);
    let f2 = f1.push(2nat);
    lemma_product_push(f2, 5nat, 4nat);
    let f3 = f2.push(5nat);
    lemma_product_push(f3, 11nat, 20nat);
    let f4 = f3.push(11nat);
    lemma_product_push(f4, 13nat, 220nat);
    let f5 = f4.push(13nat);
    assert(factors =~= f5);
    assert forall|j: int| 0 <= j < factors.len() implies is_prime(#[trigger] factors[j])
        && power_mod(2nat, ((n - 1) / factors[j] as int) as nat, n) != 1 by {
        if j == 0 {
        } else if j == 1 {
        } else if j == 2 {
        } else if j == 3 {
        } else if j == 4 {
        }
    }
}

/// 2861 is prime.
pub(crate) proof fn lemma_prime_2861()
    ensures
        is_prime(2861nat),
{
    lemma_certificate_2861();
    lemma_certified_prime(2861nat, 2nat, seq![2nat, 2nat, 5nat, 11nat, 13nat]);
}

proof fn lemma_power_4051_over_2_part_0()
    requires
        power_mod(10nat, 1nat, 4051nat) == 10nat,
    ensures
        power_mod(10nat, 2025nat, 4051nat) == 4050nat,
{
    let n = 4051nat;
    let e0 = 1nat;
    let x0 = 10nat;
    let x1 = 1000nat;
    let e1 = 2 * e0 + 1;
    lemma_power_mod_square_times(10nat, e0, n, x0, 0nat, x1);
    let x2 = 2132nat;
    let e2 = 2 * e1 + 1;
    lemma_power_mod_square_times(10nat, e1, n, x1, 2468nat, x2);
    let x3 = 2020nat;
    let e3 = 2 * e2 + 1;
    lemma_power_mod_square_times(10nat, e2, n, x2, 11220nat, x3);
    let x4 = 2328nat;
    let e4 = 2 * e3 + 1;
    lemma_power_mod_square_times(10nat, e3, n, x3, 10072nat, x4);
    let x5 = 1562nat;
    let e5 = 2 * e4 + 1;
    lemma_power_mod_square_times(10nat, e4, n, x4, 13378nat, x5);
    let x6 = 1142nat;
    let e6 = 2 * e5;
    lemma_power_mod_square(10nat, e5, n, x5, 602nat, x6);
    let x7 = 1471nat;
    let e7 = 2 * e6 + 1;
    lemma_power_mod_square_times(10nat, e6, n, x6, 3219nat, x7);
    let x8 = 607nat;
    let e8 = 2 * e7;
    lemma_power_mod_square(10nat, e7, n, x7, 534nat, x8);
    let x9 = 3859nat;
    let e9 = 2 * e8;
    lemma_power_mod_square(10nat, e8, n, x8, 90nat, x9);
    let x10 = 4050nat;
    let e10 = 2 * e9 + 1;
    lemma_power_mod_square_times(10nat, e9, n, x9, 36760nat, x10);
}

proof fn lemma_power_4051_over_2()
    ensures
        power_mod(10nat, 2025nat, 4051nat) == 4050nat,
{
    lemma_power_mod_first(10nat, 4051nat);
    lemma_power_4051_over_2_part_0();
}

proof fn lemma_power_4051_over_3_part_0()
    requires
        power_mod(10nat, 1nat, 4051nat) == 10nat,
    ensures
        power_mod(10nat, 1350nat, 4051nat) == 797nat,
{
    let n = 4051nat;
    let e0 = 1nat;
    let x0 = 10nat;
    let x1 = 100nat;
    let e1 = 2 * e0;
    lemma_power_mod_square(10nat, e0, n, x0, 0nat, x1);
    let x2 = 2776nat;
    let e2 = 2 * e1 + 1;
    lemma_power_mod_square_times(10nat, e1, n, x1, 24nat, x2);
    let x3 = 1174nat;
    let e3 = 2 * e2;
    lemma_power_mod_square(10nat, e2, n, x2, 1902nat, x3);
    let x4 = 1258nat;
    let e4 = 2 * e3 + 1;
    lemma_power_mod_square_times(10nat, e3, n, x3, 3402nat, x4);
    let x5 = 2674nat;
    let e5 = 2 * e4;
    lemma_power_mod_square(10nat, e4, n, x4, 390nat, x5);
    let x6 = 261nat;
    let e6 = 2 * e5;
    lemma_power_mod_square(10nat, e5, n, x5, 1765nat, x6);
    let x7 = 3305nat;
    let e7 = 2 * e6;
    lemma_power_mod_square(10nat, e6, n, x6, 16nat, x7);
    let x8 = 3137nat;
    let e8 = 2 * e7 + 1;
    lemma_power_mod_square_times(10nat, e7, n, x7, 26963nat, x8);
    let x9 = 798nat;
    let e9 = 2 * e8 + 1;
    lemma_power_mod_square_times(10nat, e8, n, x8, 24292nat, x9);
    let x10 = 797nat;
    let e10 = 2 * e9;
    lemma_power_mod_square(10nat, e9, n, x9, 157nat, x10);
}

proof fn lemma_power_4051_over_3()
    ensures
        power_mod(10nat, 1350nat, 4051nat) == 797nat,
{
    lemma_power_mod_first(10nat, 4051nat);
    lemma_power_4051_over_3_part_0();
}

proof fn lemma_power_4051_over_5_part_0()
    requires
        power_mod(10nat, 1nat, 4051nat) == 10nat,
    ensures
        power_mod(10nat, 810nat, 4051nat) == 4019nat,
{
    let n = 4051nat;
    let e0 = 1nat;
    let x0 = 10nat;
    let x1 = 1000nat;
    let e1 = 2 * e0 + 1;
    lemma_power_mod_square_times(10nat, e0, n, x0, 0nat, x1);
    let x2 = 3454nat;
    let e2 = 2 * e1;
    lemma_power_mod_square(10nat, e1, n, x1, 246nat, x2);
    let x3 = 3972nat;
    let e3 = 2 * e2;
    lemma_power_mod_square(10nat, e2, n, x2, 2944nat, x3);
    let x4 = 1645nat;
    let e4 = 2 * e3 + 1;
    lemma_power_mod_square_times(10nat, e3, n, x3, 38945nat, x4);
    let x5 = 4008nat;
    let e5 = 2 * e4;
    lemma_power_mod_square(10nat, e4, n, x4, 667nat, x5);
    let x6 = 2286nat;
    let e6 = 2 * e5 + 1;
    lemma_power_mod_square_times(10nat, e5, n, x5, 39654nat, x6);
    let x7 = 6nat;
    let e7 = 2 * e6;
    lemma_power_mod_square(10nat, e6, n, x6, 1290nat, x7);
    let x8 = 360nat;
    let e8 = 2 * e7 + 1;
    lemma_power_mod_square_times(10nat, e7, n, x7, 0nat, x8);
    let x9 = 4019nat;
    let e9 = 2 * e8;
    lemma_power_mod_square(10nat, e8, n, x8, 31nat, x9);
}

proof fn lemma_power_4051_over_5()
    ensures
        power_mod(10nat, 810nat, 4051nat) == 4019nat,
{
    lemma_power_mod_first(10nat, 4051nat);
    lemma_power_4051_over_5_part_0();
}

proof fn lemma_certificate_4051()
    ensures
        is_certificate(4051nat, 10nat, seq![2nat, 3nat, 3nat, 3nat, 3nat, 5nat, 5nat]),
{
    let n = 4051nat;
    let factors = seq![2nat, 3nat, 3nat, 3nat, 3nat, 5nat, 5nat];
    lemma_small_primes();
    lemma_small_primes();
    lemma_small_primes();
    lemma_power_4051_over_2();
    lemma_fundamental_div_mod_converse(4050int, 2int, 2025int, 0);
    lemma_power_4051_over_3();
    lemma_fundamental_div_mod_converse(4050int, 3int, 1350int, 0);
    lemma_power_4051_over_5();
    lemma_fundamental_div_mod_converse(4050int, 5int, 810int, 0);
    lemma_power_mod_square(10nat, 2025nat, n, 4050nat, 4049nat, 1);
    let f0 = Seq::<nat>::empty();
    lemma_product_push(f0, 2nat, 1nat);
    let f1 = f0.push(2nat);
    lemma_product_push(f1, 3nat, 2nat);
    let f2 = f1.push(3nat);
    lemma_product_push(f2, 3nat, 6nat);
    let f3 = f2.push(3nat);
    lemma_product_push(f3, 3nat, 18nat);
    let f4 = f3.push(3nat);
    lemma_product_push(f4, 3nat, 54nat);
    let f5 = f4.push(3nat);
    lemma_product_push(f5, 5nat, 162nat);
    let f6 = f5.push(5nat);
    lemma_product_push(f6, 5nat, 810nat);
    let f7 = f6.push(5nat);
    assert(factors =~= f7);
    assert forall|j: int| 0 <= j < factors.len() implies is_prime(#[trigger] factors[j])
        && power_mod(10nat, ((n - 1) / factors[j] as int) as nat, n) != 1 by {
        if j == 0 {
        } else if j == 1 {
        } else if j == 2 {
        } else if j == 3 {
        } else if j == 4 {
        } else if j == 5 {
        } else if j == 6 {
        }
    }
}

/// 4051 is prime.
pub(crate) proof fn lemma_prime_4051()
    ensures
        is_prime(4051nat),
{
    lemma_certificate_4051();
    lemma_certified_prime(4051nat, 10nat, seq![2nat, 3nat, 3nat, 3nat, 3nat, 5nat, 5nat]);
}

proof fn lemma_power_4423_over_2_part_0()
    requires
        power_mod(3nat, 1nat, 4423nat) == 3nat,
    ensures
        power_mod(3nat, 2211nat, 4423nat) == 4422nat,
{
    let n = 4423nat;
    let e0 = 1nat;
    let x0 = 3nat;
    let x1 = 9nat;
    let e1 = 2 * e0;
    lemma_power_mod_square(3nat, e0, n, x0, 0nat, x1);
    let x2 = 81nat;
    let e2 = 2 * e1;
    lemma_power_mod_square(3nat, e1, n, x1, 0nat, x2);
    let x3 = 2138nat;
    let e3 = 2 * e2;
    lemma_power_mod_square(3nat, e2, n, x2, 1nat, x3);
    let x4 = 1832nat;
    let e4 = 2 * e3 + 1;
    lemma_power_mod_square_times(3nat, e3, n, x3, 3100nat, x4);
    let x5 = 3590nat;
    let e5 = 2 * e4;
    lemma_power_mod_square(3nat, e4, n, x4, 758nat, x5);
    let x6 = 2857nat;
    let e6 = 2 * e5 + 1;
    lemma_power_mod_square_times(3nat, e5, n, x5, 8741nat, x6);
    let x7 = 2014nat;
    let e7 = 2 * e6;
    lemma_power_mod_square(3nat, e6, n, x6, 1845nat, x7);
    let x8 = 305nat;
    let e8 = 2 * e7;
    lemma_power_mod_square(3nat, e7, n, x7, 917nat, x8);
    let x9 = 142nat;
    let e9 = 2 * e8;
    lemma_power_mod_square(3nat, e8, n, x8, 21nat, x9);
    let x10 = 2993nat;
    let e10 = 2 * e9 + 1;
    lemma_power_mod_square_times(3nat, e9, n, x9, 13nat, x10);
    let x11 = 4422nat;
    let e11 = 2 * e10 + 1;
    lemma_power_mod_square_times(3nat, e10, n, x10, 6075nat, x11);
}

proof fn lemma_power_4423_over_2()
    ensures
        power_mod(3nat, 2211nat, 4423nat) == 4422nat,
{
    lemma_power_mod_first(3nat, 4423nat);
    lemma_power_4423_over_2_part_0();
}

proof fn lemma_power_4423_over_3_part_0()
    requires
        power_mod(3nat, 1nat, 4423nat) == 3nat,
    ensures
        power_mod(3nat, 1474nat, 4423nat) == 66nat,
{
    let n = 4423nat;
    let e0 = 1nat;
    let x0 = 3nat;
    let x1 = 9nat;
    let e1 = 2 * e0;
    lemma_power_mod_square(3nat, e0, n, x0, 0nat, x1);
    let x2 = 243nat;
    let e2 = 2 * e1 + 1;
    lemma_power_mod_square_times(3nat, e1, n, x1, 0nat, x2);
    let x3 = 227nat;
    let e3 = 2 * e2 + 1;
    lemma_power_mod_square_times(3nat, e2, n, x2, 40nat, x3);
    let x4 = 4205nat;
    let e4 = 2 * e3 + 1;
    lemma_power_mod_square_times(3nat, e3, n, x3, 34nat, x4);
    let x5 = 3294nat;
    let e5 = 2 * e4;
    lemma_power_mod_square(3nat, e4, n, x4, 3997nat, x5);
    let x6 = 817nat;
    let e6 = 2 * e5;
    lemma_power_mod_square(3nat, e5, n, x5, 2453nat, x6);
    let x7 = 4039nat;
    let e7 = 2 * e6;
    lemma_power_mod_square(3nat, e6, n, x6, 150nat, x7);
    let x8 = 1497nat;
    let e8 = 2 * e7;
    lemma_power_mod_square(3nat, e7, n, x7, 3688nat, x8);
    let x9 = 67nat;
    let e9 = 2 * e8 + 1;
    lemma_power_mod_square_times(3nat, e8, n, x8, 1520nat, x9);
    let x10 = 66nat;
    let e10 = 2 * e9;
    lemma_power_mod_square(3nat, e9, n, x9, 1nat, x10);
}

proof fn lemma_power_4423_over_3()
    ensures
        power_mod(3nat, 1474nat, 4423nat) == 66nat,
{
    lemma_power_mod_first(3nat, 4423nat);
    lemma_power_4423_over_3_part_0();
}

proof fn lemma_power_4423_over_11_part_0()
    requires
        power_mod(3nat, 1nat, 4423nat) == 3nat,
    ensures
        power_mod(3nat, 402nat, 4423nat) == 285nat,
{
    let n = 4423nat;
    let e0 = 1nat;
    let x0 = 3nat;
    let x1 = 27nat;
    let e1 = 2 * e0 + 1;
    lemma_power_mod_square_times(3nat, e0, n, x0, 0nat, x1);
    let x2 = 729nat;
    let e2 = 2 * e1;
    lemma_power_mod_square(3nat, e1, n, x1, 0nat, x2);
    let x3 = 681nat;
    let e3 = 2 * e2;
    lemma_power_mod_square(3nat, e2, n, x2, 120nat, x3);
    let x4 = 2461nat;
    let e4 = 2 * e3 + 1;
    lemma_power_mod_square_times(3nat, e3, n, x3, 314nat, x4);
    let x5 = 1434nat;
    let e5 = 2 * e4;
    lemma_power_mod_square(3nat, e4, n, x4, 1369nat, x5);
    let x6 = 4084nat;
    let e6 = 2 * e5;
    lemma_power_mod_square(3nat, e5, n, x5, 464nat, x6);
    let x7 = 4192nat;
    let e7 = 2 * e6 + 1;
    lemma_power_mod_square_times(3nat, e6, n, x6, 11312nat, x7);
    let x8 = 285nat;
    let e8 = 2 * e7;
    lemma_power_mod_square(3nat, e7, n, x7, 3973nat, x8);
}

proof fn lemma_power_4423_over_11()
    ensures
        power_mod(3nat, 402nat, 4423nat) == 285nat,
{
    lemma_power_mod_first(3nat, 4423nat);
    lemma_power_4423_over_11_part_0();
}

proof fn lemma_power_4423_over_67_part_0()
    requires
        power_mod(3nat, 1nat, 4423nat) == 3nat,
    ensures
        power_mod(3nat, 66nat, 4423nat) == 4365nat,
{
    let n = 4423nat;
    let e0 = 1nat;
    let x0 = 3nat;
    let x1 = 9nat;
    let e1 = 2 * e0;
    lemma_power_mod_square(3nat, e0, n, x0, 0nat, x1);
    let x2 = 81nat;
    let e2 = 2 * e1;
    lemma_power_mod_square(3nat, e1, n, x1, 0nat, x2);
    let x3 = 2138nat;
    let e3 = 2 * e2;
    lemma_power_mod_square(3nat, e2, n, x2, 1nat, x3);
    let x4 = 2085nat;
    let e4 = 2 * e3;
    lemma_power_mod_square(3nat, e3, n, x3, 1033nat, x4);
    let x5 = 2671nat;
    let e5 = 2 * e4 + 1;
    lemma_power_mod_square_times(3nat, e4, n, x4, 2948nat, x5);
    let x6 = 4365nat;
    let e6 = 2 * e5;
    lemma_power_mod_square(3nat, e5, n, x5, 1612nat, x6);
}

proof fn lemma_power_4423_over_67()
    ensures
        power_mod(3nat, 66nat, 4423nat) == 4365nat,
{
    lemma_power_mod_first(3nat, 4423nat);
    lemma_power_4423_over_67_part_0();
}

proof fn lemma_certificate_4423()
    ensures
        is_certificate(4423nat, 3nat, seq![2nat, 3nat, 11nat, 67nat]),
{
    let n = 4423nat;
    let factors = seq![2nat, 3nat, 11nat, 67nat];
    lemma_small_primes();
    lemma_small_primes();
    lemma_prime_11();
    lemma_prime_67();
    lemma_power_4423_over_2();
    lemma_fundamental_div_mod_converse(4422int, 2int, 2211int, 0);
    lemma_power_4423_over_3();
    lemma_fundamental_div_mod_converse(4422int, 3int, 1474int, 0);
    lemma_power_4423_over_11();
    lemma_fundamental_div_mod_converse(4422int, 11int, 402int, 0);
    lemma_power_4423_over_67();
    lemma_fundamental_div_mod_converse(4422int, 67int, 66int, 0);
    lemma_power_mod_square(3nat, 2211nat, n, 4422nat, 4421nat, 1);
    let f0 = Seq::<nat>::empty();
    lemma_product_push(f0, 2nat, 1nat);
    let f1 = f0.push(2nat);
    lemma_product_push(f1, 3nat, 2nat);
    let f2 = f1.push(3nat);
    lemma_product_push(f2, 11nat, 6nat);
    let f3 = f2.push(11nat);
    lemma_product_push(f3, 67nat, 66nat);
    let f4 = f3.push(67nat);
    assert(factors =~= f4);
    assert forall|j: int| 0 <= j < factors.len() implies is_prime(#[trigger] factors[j])
        && power_mod(3nat, ((n - 1) / factors[j] as int) as nat, n) != 1 by {
        if j == 0 {
        } else if j == 1 {
        } else if j == 2 {
        } else if j == 3 {
        }
    }
}

/// 4423 is prime.
pub(crate) proof fn lemma_prime_4423()
    ensures
        is_prime(4423nat),
{
    lemma_certificate_4423();
    lemma_certified_prime(4423nat, 3nat, seq![2nat, 3nat, 11nat, 67nat]);
}

proof fn lemma_power_5323_over_2_part_0()
    requires
        power_mod(5nat, 1nat, 5323nat) == 5nat,
    ensures
        power_mod(5nat, 2661nat, 5323nat) == 5322nat,
{
    let n = 5323nat;
    let e0 = 1nat;
    let x0 = 5nat;
    let x1 = 25nat;
    let e1 = 2 * e0;
    lemma_power_mod_square(5nat, e0, n, x0, 0nat, x1);
    let x2 = 3125nat;
    let e2 = 2 * e1 + 1;
    lemma_power_mod_square_times(5nat, e1, n, x1, 0nat, x2);
    let x3 = 3243nat;
    let e3 = 2 * e2;
    lemma_power_mod_square(5nat, e2, n, x2, 1834nat, x3);
    let x4 = 4124nat;
    let e4 = 2 * e3;
    lemma_power_mod_square(5nat, e3, n, x3, 1975nat, x4);
    let x5 = 1955nat;
    let e5 = 2 * e4 + 1;
    lemma_power_mod_square_times(5nat, e4, n, x4, 15975nat, x5);
    let x6 = 555nat;
    let e6 = 2 * e5 + 1;
    lemma_power_mod_square_times(5nat, e5, n, x5, 3590nat, x6);
    let x7 = 4614nat;
    let e7 = 2 * e6;
    lemma_power_mod_square(5nat, e6, n, x6, 57nat, x7);
    let x8 = 2319nat;
    let e8 = 2 * e7;
    lemma_power_mod_square(5nat, e7, n, x7, 3999nat, x8);
    let x9 = 2332nat;
    let e9 = 2 * e8 + 1;
    lemma_power_mod_square_times(5nat, e8, n, x8, 5051nat, x9);
    let x10 = 3441nat;
    let e10 = 2 * e9;
    lemma_power_mod_square(5nat, e9, n, x9, 1021nat, x10);
    let x11 = 5322nat;
    let e11 = 2 * e10 + 1;
    lemma_power_mod_square_times(5nat, e10, n, x10, 11121nat, x11);
}

proof fn lemma_power_5323_over_2()
    ensures
        power_mod(5nat, 2661nat, 5323nat) == 5322nat,
{
    lemma_power_mod_first(5nat, 5323nat);
    lemma_power_5323_over_2_part_0();
}

proof fn lemma_power_5323_over_3_part_0()
    requires
        power_mod(5nat, 1nat, 5323nat) == 5nat,
    ensures
        power_mod(5nat, 1774nat, 5323nat) == 1282nat,
{
    let n = 5323nat;
    let e0 = 1nat;
    let x0 = 5nat;
    let x1 = 125nat;
    let e1 = 2 * e0 + 1;
    lemma_power_mod_square_times(5nat, e0, n, x0, 0nat, x1);
    let x2 = 4979nat;
    let e2 = 2 * e1;
    lemma_power_mod_square(5nat, e1, n, x1, 2nat, x2);
    let x3 = 827nat;
    let e3 = 2 * e2 + 1;
    lemma_power_mod_square_times(5nat, e2, n, x2, 23286nat, x3);
    let x4 = 2279nat;
    let e4 = 2 * e3 + 1;
    lemma_power_mod_square_times(5nat, e3, n, x3, 642nat, x4);
    let x5 = 3611nat;
    let e5 = 2 * e4 + 1;
    lemma_power_mod_square_times(5nat, e4, n, x4, 4878nat, x5);
    let x6 = 3294nat;
    let e6 = 2 * e5;
    lemma_power_mod_square(5nat, e5, n, x5, 2449nat, x6);
    let x7 = 164nat;
    let e7 = 2 * e6 + 1;
    lemma_power_mod_square_times(5nat, e6, n, x6, 10192nat, x7);
    let x8 = 1405nat;
    let e8 = 2 * e7 + 1;
    lemma_power_mod_square_times(5nat, e7, n, x7, 25nat, x8);
    let x9 = 1283nat;
    let e9 = 2 * e8 + 1;
    lemma_power_mod_square_times(5nat, e8, n, x8, 1854nat, x9);
    let x10 = 1282nat;
    let e10 = 2 * e9;
    lemma_power_mod_square(5nat, e9, n, x9, 309nat, x10);
}

proof fn lemma_power_5323_over_3()
    ensures
        power_mod(5nat, 1774nat, 5323nat) == 1282nat,
{
    lemma_power_mod_first(5nat, 5323nat);
    lemma_power_5323_over_3_part_0();
}

proof fn lemma_power_5323_over_887_part_0()
    requires
        power_mod(5nat, 1nat, 5323nat) == 5nat,
    ensures
        power_mod(5nat, 6nat, 5323nat) == 4979nat,
{
    let n = 5323nat;
    let e0 = 1nat;
    let x0 = 5nat;
    let x1 = 125nat;
    let e1 = 2 * e0 + 1;
    lemma_power_mod_square_times(5nat, e0, n, x0, 0nat, x1);
    let x2 = 4979nat;
    let e2 = 2 * e1;
    lemma_power_mod_square(5nat, e1, n, x1, 2nat, x2);
}

proof fn lemma_power_5323_over_887()
    ensures
        power_mod(5nat, 6nat, 5323nat) == 4979nat,
{
    lemma_power_mod_first(5nat, 5323nat);
    lemma_power_5323_over_887_part_0();
}

proof fn lemma_certificate_5323()
    ensures
        is_certificate(5323nat, 5nat, seq![2nat, 3nat, 887nat]),
{
    let n = 5323nat;
    let factors = seq![2nat, 3nat, 887nat];
    lemma_small_primes();
    lemma_small_primes();
    lemma_prime_887();
    lemma_power_5323_over_2();
    lemma_fundamental_div_mod_converse(5322int, 2int, 2661int, 0);
    lemma_power_5323_over_3();
    lemma_fundamental_div_mod_converse(5322int, 3int, 1774int, 0);
    lemma_power_5323_over_887();
    lemma_fundamental_div_mod_converse(5322int, 887int, 6int, 0);
    lemma_power_mod_square(5nat, 2661nat, n, 5322nat, 5321nat, 1);
    let f0 = Seq::<nat>::empty();
    lemma_product_push(f0, 2nat, 1nat);
    let f1 = f0.push(2nat);
    lemma_product_push(f1, 3nat, 2nat);
    let f2 = f1.push(3nat);
    lemma_product_push(f2, 887nat, 6nat);
    let f3 = f2.push(887nat);
    assert(factors =~= f3);
    assert forall|j: int| 0 <= j < factors.len() implies is_prime(#[trigger] factors[j])
        && power_mod(5nat, ((n - 1) / factors[j] as int) as nat, n) != 1 by {
        if j == 0 {
        } else if j == 1 {
        } else if j == 2 {
        }
    }
}

/// 5323 is prime.
pub(crate) proof fn lemma_prime_5323()
    ensures
        is_prime(5323nat),
{
    lemma_certificate_5323();
    lemma_certified_prime(5323nat, 5nat, seq![2nat, 3nat, 887nat]);
}

proof fn lemma_power_7723_over_2_part_0()
    requires
        power_mod(3nat, 1nat, 7723nat) == 3nat,
    ensures
        power_mod(3nat, 3861nat, 7723nat) == 7722nat,
{
    let n = 7723nat;
    let e0 = 1nat;
    let x0 = 3nat;
    let x1 = 27nat;
    let e1 = 2 * e0 + 1;
    lemma_power_mod_square_times(3nat, e0, n, x0, 0nat, x1);
    let x2 = 2187nat;
    let e2 = 2 * e1 + 1;
    lemma_power_mod_square_times(3nat, e1, n, x1, 0nat, x2);
    let x3 = 7296nat;
    let e3 = 2 * e2 + 1;
    lemma_power_mod_square_times(3nat, e2, n, x2, 1857nat, x3);
    let x4 = 4700nat;
    let e4 = 2 * e3;
    lemma_power_mod_square(3nat, e3, n, x3, 6892nat, x4);
    let x5 = 2220nat;
    let e5 = 2 * e4;
    lemma_power_mod_square(3nat, e4, n, x4, 2860nat, x5);
    let x6 = 1126nat;
    let e6 = 2 * e5;
    lemma_power_mod_square(3nat, e5, n, x5, 638nat, x6);
    let x7 = 3912nat;
    let e7 = 2 * e6 + 1;
    lemma_power_mod_square_times(3nat, e6, n, x6, 492nat, x7);
    let x8 = 4481nat;
    let e8 = 2 * e7;
    lemma_power_mod_square(3nat, e7, n, x7, 1981nat, x8);
    let x9 = 6406nat;
    let e9 = 2 * e8 + 1;
    lemma_power_mod_square_times(3nat, e8, n, x8, 7799nat, x9);
    let x10 = 4537nat;
    let e10 = 2 * e9;
    lemma_power_mod_square(3nat, e9, n, x9, 5313nat, x10);
    let x11 = 7722nat;
    let e11 = 2 * e10 + 1;
    lemma_power_mod_square_times(3nat, e10, n, x10, 7995nat, x11);
}

proof fn lemma_power_7723_over_2()
    ensures
        power_mod(3nat, 3861nat, 7723nat) == 7722nat,
{
    lemma_power_mod_first(3nat, 7723nat);
    lemma_power_7723_over_2_part_0();
}

proof fn lemma_power_7723_over_3_part_0()
    requires
        power_mod(3nat, 1nat, 7723nat) == 3nat,
    ensures
        power_mod(3nat, 2574nat, 7723nat) == 917nat,
{
    let n = 7723nat;
    let e0 = 1nat;
    let x0 = 3nat;
    let x1 = 9nat;
    let e1 = 2 * e0;
    lemma_power_mod_square(3nat, e0, n, x0, 0nat, x1);
    let x2 = 243nat;
    let e2 = 2 * e1 + 1;
    lemma_power_mod_square_times(3nat, e1, n, x1, 0nat, x2);
    let x3 = 4988nat;
    let e3 = 2 * e2;
    lemma_power_mod_square(3nat, e2, n, x2, 7nat, x3);
    let x4 = 4361nat;
    let e4 = 2 * e3;
    lemma_power_mod_square(3nat, e3, n, x3, 3221nat, x4);
    let x5 = 4295nat;
    let e5 = 2 * e4;
    lemma_power_mod_square(3nat, e4, n, x4, 2462nat, x5);
    let x6 = 4501nat;
    let e6 = 2 * e5;
    lemma_power_mod_square(3nat, e5, n, x5, 2388nat, x6);
    let x7 = 1572nat;
    let e7 = 2 * e6;
    lemma_power_mod_square(3nat, e6, n, x6, 2623nat, x7);
    let x8 = 7195nat;
    let e8 = 2 * e7 + 1;
    lemma_power_mod_square_times(3nat, e7, n, x7, 959nat, x8);
    let x9 = 2268nat;
    let e9 = 2 * e8 + 1;
    lemma_power_mod_square_times(3nat, e8, n, x8, 20109nat, x9);
    let x10 = 918nat;
    let e10 = 2 * e9 + 1;
    lemma_power_mod_square_times(3nat, e9, n, x9, 1998nat, x10);
    let x11 = 917nat;
    let e11 = 2 * e10;
    lemma_power_mod_square(3nat, e10, n, x10, 109nat, x11);
}

proof fn lemma_power_7723_over_3()
    ensures
        power_mod(3nat, 2574nat, 7723nat) == 917nat,
{
    lemma_power_mod_first(3nat, 7723nat);
    lemma_power_7723_over_3_part_0();
}

proof fn lemma_power_7723_over_11_part_0()
    requires
        power_mod(3nat, 1nat, 7723nat) == 3nat,
    ensures
        power_mod(3nat, 702nat, 7723nat) == 2429nat,
{
    let n = 7723nat;
    let e0 = 1nat;
    let x0 = 3nat;
    let x1 = 9nat;
    let e1 = 2 * e0;
    lemma_power_mod_square(3nat, e0, n, x0, 0nat, x1);
    let x2 = 243nat;
    let e2 = 2 * e1 + 1;
    lemma_power_mod_square_times(3nat, e1, n, x1, 0nat, x2);
    let x3 = 4988nat;
    let e3 = 2 * e2;
    lemma_power_mod_square(3nat, e2, n, x2, 7nat, x3);
    let x4 = 5360nat;
    let e4 = 2 * e3 + 1;
    lemma_power_mod_square_times(3nat, e3, n, x3, 9664nat, x4);
    let x5 = 120nat;
    let e5 = 2 * e4 + 1;
    lemma_power_mod_square_times(3nat, e4, n, x4, 11160nat, x5);
    let x6 = 4585nat;
    let e6 = 2 * e5 + 1;
    lemma_power_mod_square_times(3nat, e5, n, x5, 5nat, x6);
    let x7 = 657nat;
    let e7 = 2 * e6 + 1;
    lemma_power_mod_square_times(3nat, e6, n, x6, 8166nat, x7);
    let x8 = 5206nat;
    let e8 = 2 * e7 + 1;
    lemma_power_mod_square_times(3nat, e7, n, x7, 167nat, x8);
    let x9 = 2429nat;
    let e9 = 2 * e8;
    lemma_power_mod_square(3nat, e8, n, x8, 3509nat, x9);
}

proof fn lemma_power_7723_over_11()
    ensures
        power_mod(3nat, 702nat, 7723nat) == 2429nat,
{
    lemma_power_mod_first(3nat, 7723nat);
    lemma_power_7723_over_11_part_0();
}

proof fn lemma_power_7723_over_13_part_0()
    requires
        power_mod(3nat, 1nat, 7723nat) == 3nat,
    ensures
        power_mod(3nat, 594nat, 7723nat) == 2889nat,
{
    let n = 7723nat;
    let e0 = 1nat;
    let x0 = 3nat;
    let x1 = 9nat;
    let e1 = 2 * e0;
    lemma_power_mod_square(3nat, e0, n, x0, 0nat, x1);
    let x2 = 81nat;
    let e2 = 2 * e1;
    lemma_power_mod_square(3nat, e1, n, x1, 0nat, x2);
    let x3 = 4237nat;
    let e3 = 2 * e2 + 1;
    lemma_power_mod_square_times(3nat, e2, n, x2, 2nat, x3);
    let x4 = 3917nat;
    let e4 = 2 * e3;
    lemma_power_mod_square(3nat, e3, n, x3, 2324nat, x4);
    let x5 = 7310nat;
    let e5 = 2 * e4 + 1;
    lemma_power_mod_square_times(3nat, e4, n, x4, 5959nat, x5);
    let x6 = 663nat;
    let e6 = 2 * e5;
    lemma_power_mod_square(3nat, e5, n, x5, 6919nat, x6);
    let x7 = 7081nat;
    let e7 = 2 * e6;
    lemma_power_mod_square(3nat, e6, n, x6, 56nat, x7);
    let x8 = 812nat;
    let e8 = 2 * e7 + 1;
    lemma_power_mod_square_times(3nat, e7, n, x7, 19477nat, x8);
    let x9 = 2889nat;
    let e9 = 2 * e8;
    lemma_power_mod_square(3nat, e8, n, x8, 85nat, x9);
}

proof fn lemma_power_7723_over_13()
    ensures
        power_mod(3nat, 594nat, 7723nat) == 2889nat,
{
    lemma_power_mod_first(3nat, 7723nat);
    lemma_power_7723_over_13_part_0();
}

proof fn lemma_certificate_7723()
    ensures
        is_certificate(7723nat, 3nat, seq![2nat, 3nat, 3nat, 3nat, 11nat, 13nat]),
{
    let n = 7723nat;
    let factors = seq![2nat, 3nat, 3nat, 3nat, 11nat, 13nat];
    lemma_small_primes();
    lemma_small_primes();
    lemma_prime_11();
    lemma_prime_13();
    lemma_power_7723_over_2();
    lemma_fundamental_div_mod_converse(7722int, 2int, 3861int, 0);
    lemma_power_7723_over_3();
    lemma_fundamental_div_mod_converse(7722int, 3int, 2574int, 0);
    lemma_power_7723_over_11();
    lemma_fundamental_div_mod_converse(7722int, 11int, 702int, 0);
    lemma_power_7723_over_13();
    lemma_fundamental_div_mod_converse(7722int, 13int, 594int, 0);
    lemma_power_mod_square(3nat, 3861nat, n, 7722nat, 7721nat, 1);
    let f0 = Seq::<nat>::empty();
    lemma_product_push(f0, 2nat, 1nat);
    let f1 = f0.push(2nat);
    lemma_product_push(f1, 3nat, 2nat);
    let f2 = f1.push(3nat);
    lemma_product_push(f2, 3nat, 6nat);
    let f3 = f2.push(3nat);
    lemma_product_push(f3, 3nat, 18nat);
    let f4 = f3.push(3nat);
    lemma_product_push(f4, 11nat, 54nat);
    let f5 = f4.push(11nat);
    lemma_product_push(f5, 13nat, 594nat);
    let f6 = f5.push(13nat);
    assert(factors =~= f6);
    assert forall|j: int| 0 <= j < factors.len() implies is_prime(#[trigger] factors[j])
        && power_mod(3nat, ((n - 1) / factors[j] as int) as nat, n) != 1 by {
        if j == 0 {
        } else if j == 1 {
        } else if j == 2 {
        } else if j == 3 {
        } else if j == 4 {
        } else if j == 5 {
        }
    }
}

/// 7723 is prime.
pub(crate) proof fn lemma_prime_7723()
    ensures
        is_prime(7723nat),
{
    lemma_certificate_7723();
    lemma_certified_prime(7723nat, 3nat, seq![2nat, 3nat, 3nat, 3nat, 11nat, 13nat]);
}

proof fn lemma_power_9349_over_2_part_0()
    requires
        power_mod(2nat, 1nat, 9349nat) == 2nat,
    ensures
        power_mod(2nat, 4674nat, 9349nat) == 9348nat,
{
    let n = 9349nat;
    let e0 = 1nat;
    let x0 = 2nat;
    let x1 = 4nat;
    let e1 = 2 * e0;
    lemma_power_mod_square(2nat, e0, n, x0, 0nat, x1);
    let x2 = 16nat;
    let e2 = 2 * e1;
    lemma_power_mod_square(2nat, e1, n, x1, 0nat, x2);
    let x3 = 512nat;
    let e3 = 2 * e2 + 1;
    lemma_power_mod_square_times(2nat, e2, n, x2, 0nat, x3);
    let x4 = 372nat;
    let e4 = 2 * e3;
    lemma_power_mod_square(2nat, e3, n, x3, 28nat, x4);
    let x5 = 7498nat;
    let e5 = 2 * e4;
    lemma_power_mod_square(2nat, e4, n, x4, 14nat, x5);
    let x6 = 8934nat;
    let e6 = 2 * e5 + 1;
    lemma_power_mod_square_times(2nat, e5, n, x5, 12026nat, x6);
    let x7 = 3943nat;
    let e7 = 2 * e6;
    lemma_power_mod_square(2nat, e6, n, x6, 8537nat, x7);
    let x8 = 9211nat;
    let e8 = 2 * e7;
    lemma_power_mod_square(2nat, e7, n, x7, 1662nat, x8);
    let x9 = 346nat;
    let e9 = 2 * e8;
    lemma_power_mod_square(2nat, e8, n, x8, 9075nat, x9);
    let x10 = 7528nat;
    let e10 = 2 * e9;
    lemma_power_mod_square(2nat, e9, n, x9, 12nat, x10);
    let x11 = 3641nat;
    let e11 = 2 * e10 + 1;
    lemma_power_mod_square_times(2nat, e10, n, x10, 12123nat, x11);
    let x12 = 9348nat;
    let e12 = 2 * e11;
    lemma_power_mod_square(2nat, e11, n, x11, 1417nat, x12);
}

proof fn lemma_power_9349_over_2()
    ensures
        power_mod(2nat, 4674nat, 9349nat) == 9348nat,
{
    lemma_power_mod_first(2nat, 9349nat);
    lemma_power_9349_over_2_part_0();
}

proof fn lemma_power_9349_over_3_part_0()
    requires
        power_mod(2nat, 1nat, 9349nat) == 2nat,
    ensures
        power_mod(2nat, 3116nat, 9349nat) == 4020nat,
{
    let n = 9349nat;
    let e0 = 1nat;
    let x0 = 2nat;
    let x1 = 8nat;
    let e1 = 2 * e0 + 1;
    lemma_power_mod_square_times(2nat, e0, n, x0, 0nat, x1);
    let x2 = 64nat;
    let e2 = 2 * e1;
    lemma_power_mod_square(2nat, e1, n, x1, 0nat, x2);
    let x3 = 4096nat;
    let e3 = 2 * e2;
    lemma_power_mod_square(2nat, e2, n, x2, 0nat, x3);
    let x4 = 5110nat;
    let e4 = 2 * e3;
    lemma_power_mod_square(2nat, e3, n, x3, 1794nat, x4);
    let x5 = 343nat;
    let e5 = 2 * e4;
    lemma_power_mod_square(2nat, e4, n, x4, 2793nat, x5);
    let x6 = 1573nat;
    let e6 = 2 * e5 + 1;
    lemma_power_mod_square_times(2nat, e5, n, x5, 25nat, x6);
    let x7 = 6193nat;
    let e7 = 2 * e6;
    lemma_power_mod_square(2nat, e6, n, x6, 264nat, x7);
    let x8 = 7302nat;
    let e8 = 2 * e7 + 1;
    lemma_power_mod_square_times(2nat, e7, n, x7, 8204nat, x8);
    let x9 = 3714nat;
    let e9 = 2 * e8 + 1;
    lemma_power_mod_square_times(2nat, e8, n, x8, 11406nat, x9);
    let x10 = 4021nat;
    let e10 = 2 * e9;
    lemma_power_mod_square(2nat, e9, n, x9, 1475nat, x10);
    let x11 = 4020nat;
    let e11 = 2 * e10;
    lemma_power_mod_square(2nat, e10, n, x10, 1729nat, x11);
}

proof fn lemma_power_9349_over_3()
    ensures
        power_mod(2nat, 3116nat, 9349nat) == 4020nat,
{
    lemma_power_mod_first(2nat, 9349nat);
    lemma_power_9349_over_3_part_0();
}

proof fn lemma_power_9349_over_19_part_0()
    requires
        power_mod(2nat, 1nat, 9349nat) == 2nat,
    ensures
        power_mod(2nat, 492nat, 9349nat) == 4423nat,
{
    let n = 9349nat;
    let e0 = 1nat;
    let x0 = 2nat;
    let x1 = 8nat;
    let e1 = 2 * e0 + 1;
    lemma_power_mod_square_times(2nat, e0, n, x0, 0nat, x1);
    let x2 = 128nat;
    let e2 = 2 * e1 + 1;
    lemma_power_mod_square_times(2nat, e1, n, x1, 0nat, x2);
    let x3 = 4721nat;
    let e3 = 2 * e2 + 1;
    lemma_power_mod_square_times(2nat, e2, n, x2, 3nat, x3);
    let x4 = 9174nat;
    let e4 = 2 * e3;
    lemma_power_mod_square(2nat, e3, n, x3, 2383nat, x4);
    let x5 = 5156nat;
    let e5 = 2 * e4 + 1;
    lemma_power_mod_square_times(2nat, e4, n, x4, 18004nat, x5);
    let x6 = 909nat;
    let e6 = 2 * e5 + 1;
    lemma_power_mod_square_times(2nat, e5, n, x5, 5687nat, x6);
    let x7 = 3569nat;
    let e7 = 2 * e6;
    lemma_power_mod_square(2nat, e6, n, x6, 88nat, x7);
    let x8 = 4423nat;
    let e8 = 2 * e7;
    lemma_power_mod_square(2nat, e7, n, x7, 1362nat, x8);
}

proof fn lemma_power_9349_over_19()
    ensures
        power_mod(2nat, 492nat, 9349nat) == 4423nat,
{
    lemma_power_mod_first(2nat, 9349nat);
    lemma_power_9349_over_19_part_0();
}

proof fn lemma_power_9349_over_41_part_0()
    requires
        power_mod(2nat, 1nat, 9349nat) == 2nat,
    ensures
        power_mod(2nat, 228nat, 9349nat) == 1995nat,
{
    let n = 9349nat;
    let e0 = 1nat;
    let x0 = 2nat;
    let x1 = 8nat;
    let e1 = 2 * e0 + 1;
    lemma_power_mod_square_times(2nat, e0, n, x0, 0nat, x1);
    let x2 = 128nat;
    let e2 = 2 * e1 + 1;
    lemma_power_mod_square_times(2nat, e1, n, x1, 0nat, x2);
    let x3 = 7035nat;
    let e3 = 2 * e2;
    lemma_power_mod_square(2nat, e2, n, x2, 1nat, x3);
    let x4 = 6968nat;
    let e4 = 2 * e3;
    lemma_power_mod_square(2nat, e3, n, x3, 5293nat, x4);
    let x5 = 7334nat;
    let e5 = 2 * e4 + 1;
    lemma_power_mod_square_times(2nat, e4, n, x4, 10386nat, x5);
    let x6 = 2759nat;
    let e6 = 2 * e5;
    lemma_power_mod_square(2nat, e5, n, x5, 5753nat, x6);
    let x7 = 1995nat;
    let e7 = 2 * e6;
    lemma_power_mod_square(2nat, e6, n, x6, 814nat, x7);
}

proof fn lemma_power_9349_over_41()
    ensures
        power_mod(2nat, 228nat, 9349nat) == 1995nat,
{
    lemma_power_mod_first(2nat, 9349nat);
    lemma_power_9349_over_41_part_0();
}

proof fn lemma_certificate_9349()
    ensures
        is_certificate(9349nat, 2nat, seq![2nat, 2nat, 3nat, 19nat, 41nat]),
{
    let n = 9349nat;
    let factors = seq![2nat, 2nat, 3nat, 19nat, 41nat];
    lemma_small_primes();
    lemma_small_primes();
    lemma_prime_19();
    lemma_prime_41();
    lemma_power_9349_over_2();
    lemma_fundamental_div_mod_converse(9348int, 2int, 4674int, 0);
    lemma_power_9349_over_3();
    lemma_fundamental_div_mod_converse(9348int, 3int, 3116int, 0);
    lemma_power_9349_over_19();
    lemma_fundamental_div_mod_converse(9348int, 19int, 492int, 0);
    lemma_power_9349_over_41();
    lemma_fundamental_div_mod_converse(9348int, 41int, 228int, 0);
    lemma_power_mod_square(2nat, 4674nat, n, 9348nat, 9347nat, 1);
    let f0 = Seq::<nat>::empty();
    lemma_product_push(f0, 2nat, 1nat);
    let f1 = f0.push(2nat);
    lemma_product_push(f1, 2nat, 2nat);
    let f2 = f1.push(2nat);
    lemma_product_push(f2, 3nat, 4nat);
    let f3 = f2.push(3nat);
    lemma_product_push(f3, 19nat, 12nat);
    let f4 = f3.push(19nat);
    lemma_product_push(f4, 41nat, 228nat);
    let f5 = f4.push(41nat);
    assert(factors =~= f5);
    assert forall|j: int| 0 <= j < factors.len() implies is_prime(#[trigger] factors[j])
        && power_mod(2nat, ((n - 1) / factors[j] as int) as nat, n) != 1 by {
        if j == 0 {
        } else if j == 1 {
        } else if j == 2 {
        } else if j == 3 {
        } else if j == 4 {
        }
    }
}

/// 9349 is prime.
pub(crate) proof fn lemma_prime_9349()
    ensures
        is_prime(9349nat),
{
    lemma_certificate_9349();
    lemma_certified_prime(9349nat, 2nat, seq![2nat, 2nat, 3nat, 19nat, 41nat]);
}

proof fn lemma_power_13441_over_2_part_0()
    requires
        power_mod(11nat, 1nat, 13441nat) == 11nat,
    ensures
        power_mod(11nat, 6720nat, 13441nat) == 13440nat,
{
    let n = 13441nat;
    let e0 = 1nat;
    let x0 = 11nat;
    let x1 = 1331nat;
    let e1 = 2 * e0 + 1;
    lemma_power_mod_square_times(11nat, e0, n, x0, 0nat, x1);
    let x2 = 10790nat;
    let e2 = 2 * e1;
    lemma_power_mod_square(11nat, e1, n, x1, 131nat, x2);
    let x3 = 6620nat;
    let e3 = 2 * e2 + 1;
    lemma_power_mod_square_times(11nat, e2, n, x2, 95280nat, x3);
    let x4 = 6740nat;
    let e4 = 2 * e3;
    lemma_power_mod_square(11nat, e3, n, x3, 3260nat, x4);
    let x5 = 10461nat;
    let e5 = 2 * e4;
    lemma_power_mod_square(11nat, e4, n, x4, 3379nat, x5);
    let x6 = 8653nat;
    let e6 = 2 * e5 + 1;
    lemma_power_mod_square_times(11nat, e5, n, x5, 89558nat, x6);
    let x7 = 8039nat;
    let e7 = 2 * e6;
    lemma_power_mod_square(11nat, e6, n, x6, 5570nat, x7);
    let x8 = 1193nat;
    let e8 = 2 * e7;
    lemma_power_mod_square(11nat, e7, n, x7, 4808nat, x8);
    let x9 = 11944nat;
    let e9 = 2 * e8;
    lemma_power_mod_square(11nat, e8, n, x8, 105nat, x9);
    let x10 = 9803nat;
    let e10 = 2 * e9;
    lemma_power_mod_square(11nat, e9, n, x9, 10613nat, x10);
    let x11 = 9100nat;
    let e11 = 2 * e10;
    lemma_power_mod_square(11nat, e10, n, x10, 7149nat, x11);
    let x12 = 13440nat;
    let e12 = 2 * e11;
    lemma_power_mod_square(11nat, e11, n, x11, 6160nat, x12);
}

proof fn lemma_power_13441_over_2()
    ensures
        power_mod(11nat, 6720nat, 13441nat) == 13440nat,
{
    lemma_power_mod_first(11nat, 13441nat);
    lemma_power_13441_over_2_part_0();
}

proof fn lemma_power_13441_over_3_part_0()
    requires
        power_mod(11nat, 1nat, 13441nat) == 11nat,
    ensures
        power_mod(11nat, 4480nat, 13441nat) == 645nat,
{
    let n = 13441nat;
    let e0 = 1nat;
    let x0 = 11nat;
    let x1 = 121nat;
    let e1 = 2 * e0;
    lemma_power_mod_square(11nat, e0, n, x0, 0nat, x1);
    let x2 = 1200nat;
    let e2 = 2 * e1;
    lemma_power_mod_square(11nat, e1, n, x1, 1nat, x2);
    let x3 = 1813nat;
    let e3 = 2 * e2;
    lemma_power_mod_square(11nat, e2, n, x2, 107nat, x3);
    let x4 = 369nat;
    let e4 = 2 * e3 + 1;
    lemma_power_mod_square_times(11nat, e3, n, x3, 2690nat, x4);
    let x5 = 5820nat;
    let e5 = 2 * e4 + 1;
    lemma_power_mod_square_times(11nat, e4, n, x4, 111nat, x5);
    let x6 = 1080nat;
    let e6 = 2 * e5;
    lemma_power_mod_square(11nat, e5, n, x5, 2520nat, x6);
    let x7 = 10474nat;
    let e7 = 2 * e6;
    lemma_power_mod_square(11nat, e6, n, x6, 86nat, x7);
    let x8 = 12675nat;
    let e8 = 2 * e7;
    lemma_power_mod_square(11nat, e7, n, x7, 8161nat, x8);
    let x9 = 8793nat;
    let e9 = 2 * e8;
    lemma_power_mod_square(11nat, e8, n, x8, 11952nat, x9);
    let x10 = 4217nat;
    let e10 = 2 * e9;
    lemma_power_mod_square(11nat, e9, n, x9, 5752nat, x10);
    let x11 = 646nat;
    let e11 = 2 * e10;
    lemma_power_mod_square(11nat, e10, n, x10, 1323nat, x11);
    let x12 = 645nat;
    let e12 = 2 * e11;
    lemma_power_mod_square(11nat, e11, n, x11, 31nat, x12);
}

proof fn lemma_power_13441_over_3()
    ensures
        power_mod(11nat, 4480nat, 13441nat) == 645nat,
{
    lemma_power_mod_first(11nat, 13441nat);
    lemma_power_13441_over_3_part_0();
}

proof fn lemma_power_13441_over_5_part_0()
    requires
        power_mod(11nat, 1nat, 13441nat) == 11nat,
    ensures
        power_mod(11nat, 2688nat, 13441nat) == 8733nat,
{
    let n = 13441nat;
    let e0 = 1nat;
    let x0 = 11nat;
    let x1 = 121nat;
    let e1 = 2 * e0;
    lemma_power_mod_square(11nat, e0, n, x0, 0nat, x1);
    let x2 = 13200nat;
    let e2 = 2 * e1 + 1;
    lemma_power_mod_square_times(11nat, e1, n, x1, 11nat, x2);
    let x3 = 4317nat;
    let e3 = 2 * e2;
    lemma_power_mod_square(11nat, e2, n, x2, 12963nat, x3);
    let x4 = 12688nat;
    let e4 = 2 * e3 + 1;
    lemma_power_mod_square_times(11nat, e3, n, x3, 15251nat, x4);
    let x5 = 2487nat;
    let e5 = 2 * e4;
    lemma_power_mod_square(11nat, e4, n, x4, 11977nat, x5);
    let x6 = 2309nat;
    let e6 = 2 * e5;
    lemma_power_mod_square(11nat, e5, n, x5, 460nat, x6);
    let x7 = 8845nat;
    let e7 = 2 * e6;
    lemma_power_mod_square(11nat, e6, n, x6, 396nat, x7);
    let x8 = 7405nat;
    let e8 = 2 * e7;
    lemma_power_mod_square(11nat, e7, n, x7, 5820nat, x8);
    let x9 = 8186nat;
    let e9 = 2 * e8;
    lemma_power_mod_square(11nat, e8, n, x8, 4079nat, x9);
    let x10 = 7211nat;
    let e10 = 2 * e9;
    lemma_power_mod_square(11nat, e9, n, x9, 4985nat, x10);
    let x11 = 8733nat;
    let e11 = 2 * e10;
    lemma_power_mod_square(11nat, e10, n, x10, 3868nat, x11);
}

proof fn lemma_power_13441_over_5()
    ensures
        power_mod(11nat, 2688nat, 13441nat) == 8733nat,
{
    lemma_power_mod_first(11nat, 13441nat);
    lemma_power_13441_over_5_part_0();
}

proof fn lemma_power_13441_over_7_part_0()
    requires
        power_mod(11nat, 1nat, 13441nat) == 11nat,
    ensures
        power_mod(11nat, 1920nat, 13441nat) == 10662nat,
{
    let n = 13441nat;
    let e0 = 1nat;
    let x0 = 11nat;
    let x1 = 1331nat;
    let e1 = 2 * e0 + 1;
    lemma_power_mod_square_times(11nat, e0, n, x0, 0nat, x1);
    let x2 = 11162nat;
    let e2 = 2 * e1 + 1;
    lemma_power_mod_square_times(11nat, e1, n, x1, 1449nat, x2);
    let x3 = 8001nat;
    let e3 = 2 * e2 + 1;
    lemma_power_mod_square_times(11nat, e2, n, x2, 101963nat, x3);
    let x4 = 9959nat;
    let e4 = 2 * e3;
    lemma_power_mod_square(11nat, e3, n, x3, 4762nat, x4);
    let x5 = 542nat;
    let e5 = 2 * e4;
    lemma_power_mod_square(11nat, e4, n, x4, 7379nat, x5);
    let x6 = 11503nat;
    let e6 = 2 * e5;
    lemma_power_mod_square(11nat, e5, n, x5, 21nat, x6);
    let x7 = 5805nat;
    let e7 = 2 * e6;
    lemma_power_mod_square(11nat, e6, n, x6, 9844nat, x7);
    let x8 = 1438nat;
    let e8 = 2 * e7;
    lemma_power_mod_square(11nat, e7, n, x7, 2507nat, x8);
    let x9 = 11371nat;
    let e9 = 2 * e8;
    lemma_power_mod_square(11nat, e8, n, x8, 153nat, x9);
    let x10 = 10662nat;
    let e10 = 2 * e9;
    lemma_power_mod_square(11nat, e9, n, x9, 9619nat, x10);
}

proof fn lemma_power_13441_over_7()
    ensures
        power_mod(11nat, 1920nat, 13441nat) == 10662nat,
{
    lemma_power_mod_first(11nat, 13441nat);
    lemma_power_13441_over_7_part_0();
}

proof fn lemma_certificate_13441()
    ensures
        is_certificate(13441nat, 11nat, seq![2nat, 2nat, 2nat, 2nat, 2nat, 2nat, 2nat, 3nat, 5nat, 7nat]),
{
    let n = 13441nat;
    let factors = seq![2nat, 2nat, 2nat, 2nat, 2nat, 2nat, 2nat, 3nat, 5nat, 7nat];
    lemma_small_primes();
    lemma_small_primes();
    lemma_small_primes();
    lemma_small_primes();
    lemma_power_13441_over_2();
    lemma_fundamental_div_mod_converse(13440int, 2int, 6720int, 0);
    lemma_power_13441_over_3();
    lemma_fundamental_div_mod_converse(13440int, 3int, 4480int, 0);
    lemma_power_13441_over_5();
    lemma_fundamental_div_mod_converse(13440int, 5int, 2688int, 0);
    lemma_power_13441_over_7();
    lemma_fundamental_div_mod_converse(13440int, 7int, 1920int, 0);
    lemma_power_mod_square(11nat, 6720nat, n, 13440nat, 13439nat, 1);
    let f0 = Seq::<nat>::empty();
    lemma_product_push(f0, 2nat, 1nat);
    let f1 = f0.push(2nat);
    lemma_product_push(f1, 2nat, 2nat);
    let f2 = f1.push(2nat);
    lemma_product_push(f2, 2nat, 4nat);
    let f3 = f2.push(2nat);
    lemma_product_push(f3, 2nat, 8nat);
    let f4 = f3.push(2nat);
    lemma_product_push(f4, 2nat, 16nat);
    let f5 = f4.push(2nat);
    lemma_product_push(f5, 2nat, 32nat);
    let f6 = f5.push(2nat);
    lemma_product_push(f6, 2nat, 64nat);
    let f7 = f6.push(2nat);
    lemma_product_push(f7, 3nat, 128nat);
    let f8 = f7.push(3nat);
    lemma_product_push(f8, 5nat, 384nat);
    let f9 = f8.push(5nat);
    lemma_product_push(f9, 7nat, 1920nat);
    let f10 = f9.push(7nat);
    assert(factors =~= f10);
    assert forall|j: int| 0 <= j < factors.len() implies is_prime(#[trigger] factors[j])
        && power_mod(11nat, ((n - 1) / factors[j] as int) as nat, n) != 1 by {
        if j == 0 {
        } else if j == 1 {
        } else if j == 2 {
        } else if j == 3 {
        } else if j == 4 {
        } else if j == 5 {
        } else if j == 6 {
        } else if j == 7 {
        } else if j == 8 {
        } else if j == 9 {
        }
    }
}

/// 13441 is prime.
pub(crate) proof fn lemma_prime_13441()
    ensures
        is_prime(13441nat),
{
    lemma_certificate_13441();
    lemma_certified_prime(13441nat, 11nat, seq![2nat, 2nat, 2nat, 2nat, 2nat, 2nat, 2nat, 3nat, 5nat, 7nat]);
}

proof fn lemma_power_16699_over_2_part_0()
    requires
        power_mod(3nat, 1nat, 16699nat) == 3nat,
    ensures
        power_mod(3nat, 8349nat, 16699nat) == 16698nat,
{
    let n = 16699nat;
    let e0 = 1nat;
    let x0 = 3nat;
    let x1 = 9nat;
    let e1 = 2 * e0;
    lemma_power_mod_square(3nat, e0, n, x0, 0nat, x1);
    let x2 = 81nat;
    let e2 = 2 * e1;
    lemma_power_mod_square(3nat, e1, n, x1, 0nat, x2);
    let x3 = 6561nat;
    let e3 = 2 * e2;
    lemma_power_mod_square(3nat, e2, n, x2, 0nat, x3);
    let x4 = 13398nat;
    let e4 = 2 * e3;
    lemma_power_mod_square(3nat, e3, n, x3, 2577nat, x4);
    let x5 = 8853nat;
    let e5 = 2 * e4;
    lemma_power_mod_square(3nat, e4, n, x4, 10749nat, x5);
    let x6 = 4907nat;
    let e6 = 2 * e5 + 1;
    lemma_power_mod_square_times(3nat, e5, n, x5, 14080nat, x6);
    let x7 = 15390nat;
    let e7 = 2 * e6;
    lemma_power_mod_square(3nat, e6, n, x6, 1441nat, x7);
    let x8 = 10183nat;
    let e8 = 2 * e7;
    lemma_power_mod_square(3nat, e7, n, x7, 14183nat, x8);
    let x9 = 11495nat;
    let e9 = 2 * e8 + 1;
    lemma_power_mod_square_times(3nat, e8, n, x8, 18628nat, x9);
    let x10 = 4213nat;
    let e10 = 2 * e9 + 1;
    lemma_power_mod_square_times(3nat, e9, n, x9, 23738nat, x10);
    let x11 = 11695nat;
    let e11 = 2 * e10 + 1;
    lemma_power_mod_square_times(3nat, e10, n, x10, 3188nat, x11);
    let x12 = 8215nat;
    let e12 = 2 * e11;
    lemma_power_mod_square(3nat, e11, n, x11, 8190nat, x12);
    let x13 = 16698nat;
    let e13 = 2 * e12 + 1;
    lemma_power_mod_square_times(3nat, e12, n, x12, 12123nat, x13);
}

proof fn lemma_power_16699_over_2()
    ensures
        power_mod(3nat, 8349nat, 16699nat) == 16698nat,
{
    lemma_power_mod_first(3nat, 16699nat);
    lemma_power_16699_over_2_part_0();
}

proof fn lemma_power_16699_over_3_part_0()
    requires
        power_mod(3nat, 1nat, 16699nat) == 3nat,
    ensures
        power_mod(3nat, 5566nat, 16699nat) == 4376nat,
{
    let n = 16699nat;
    let e0 = 1nat;
    let x0 = 3nat;
    let x1 = 9nat;
    let e1 = 2 * e0;
    lemma_power_mod_square(3nat, e0, n, x0, 0nat, x1);
    let x2 = 243nat;
    let e2 = 2 * e1 + 1;
    lemma_power_mod_square_times(3nat, e1, n, x1, 0nat, x2);
    let x3 = 8952nat;
    let e3 = 2 * e2;
    lemma_power_mod_square(3nat, e2, n, x2, 3nat, x3);
    let x4 = 16108nat;
    let e4 = 2 * e3 + 1;
    lemma_power_mod_square_times(3nat, e3, n, x3, 14396nat, x4);
    let x5 = 12505nat;
    let e5 = 2 * e4 + 1;
    lemma_power_mod_square_times(3nat, e4, n, x4, 46613nat, x5);
    let x6 = 5589nat;
    let e6 = 2 * e5;
    lemma_power_mod_square(3nat, e5, n, x5, 9364nat, x6);
    let x7 = 12674nat;
    let e7 = 2 * e6 + 1;
    lemma_power_mod_square_times(3nat, e6, n, x6, 5611nat, x7);
    let x8 = 7785nat;
    let e8 = 2 * e7 + 1;
    lemma_power_mod_square_times(3nat, e7, n, x7, 28857nat, x8);
    let x9 = 16662nat;
    let e9 = 2 * e8 + 1;
    lemma_power_mod_square_times(3nat, e8, n, x8, 10887nat, x9);
    let x10 = 4107nat;
    let e10 = 2 * e9 + 1;
    lemma_power_mod_square_times(3nat, e9, n, x9, 49875nat, x10);
    let x11 = 4377nat;
    let e11 = 2 * e10 + 1;
    lemma_power_mod_square_times(3nat, e10, n, x10, 3030nat, x11);
    let x12 = 4376nat;
    let e12 = 2 * e11;
    lemma_power_mod_square(3nat, e11, n, x11, 1147nat, x12);
}

proof fn lemma_power_16699_over_3()
    ensures
        power_mod(3nat, 5566nat, 16699nat) == 4376nat,
{
    lemma_power_mod_first(3nat, 16699nat);
    lemma_power_16699_over_3_part_0();
}

proof fn lemma_power_16699_over_11_part_0()
    requires
        power_mod(3nat, 1nat, 16699nat) == 3nat,
    ensures
        power_mod(3nat, 1518nat, 16699nat) == 3130nat,
{
    let n = 16699nat;
    let e0 = 1nat;
    let x0 = 3nat;
    let x1 = 9nat;
    let e1 = 2 * e0;
    lemma_power_mod_square(3nat, e0, n, x0, 0nat, x1);
    let x2 = 243nat;
    let e2 = 2 * e1 + 1;
    lemma_power_mod_square_times(3nat, e1, n, x1, 0nat, x2);
    let x3 = 10157nat;
    let e3 = 2 * e2 + 1;
    lemma_power_mod_square_times(3nat, e2, n, x2, 10nat, x3);
    let x4 = 11380nat;
    let e4 = 2 * e3 + 1;
    lemma_power_mod_square_times(3nat, e3, n, x3, 18533nat, x4);
    let x5 = 10965nat;
    let e5 = 2 * e4 + 1;
    lemma_power_mod_square_times(3nat, e4, n, x4, 23265nat, x5);
    let x6 = 15124nat;
    let e6 = 2 * e5;
    lemma_power_mod_square(3nat, e5, n, x5, 7199nat, x6);
    let x7 = 10820nat;
    let e7 = 2 * e6 + 1;
    lemma_power_mod_square_times(3nat, e6, n, x6, 41092nat, x7);
    let x8 = 3832nat;
    let e8 = 2 * e7 + 1;
    lemma_power_mod_square_times(3nat, e7, n, x7, 21032nat, x8);
    let x9 = 710nat;
    let e9 = 2 * e8 + 1;
    lemma_power_mod_square_times(3nat, e8, n, x8, 2638nat, x9);
    let x10 = 3130nat;
    let e10 = 2 * e9;
    lemma_power_mod_square(3nat, e9, n, x9, 30nat, x10);
}

proof fn lemma_power_16699_over_11()
    ensures
        power_mod(3nat, 1518nat, 16699nat) == 3130nat,
{
    lemma_power_mod_first(3nat, 16699nat);
    lemma_power_16699_over_11_part_0();
}

proof fn lemma_power_16699_over_23_part_0()
    requires
        power_mod(3nat, 1nat, 16699nat) == 3nat,
    ensures
        power_mod(3nat, 726nat, 16699nat) == 7706nat,
{
    let n = 16699nat;
    let e0 = 1nat;
    let x0 = 3nat;
    let x1 = 9nat;
    let e1 = 2 * e0;
    lemma_power_mod_square(3nat, e0, n, x0, 0nat, x1);
    let x2 = 243nat;
    let e2 = 2 * e1 + 1;
    lemma_power_mod_square_times(3nat, e1, n, x1, 0nat, x2);
    let x3 = 10157nat;
    let e3 = 2 * e2 + 1;
    lemma_power_mod_square_times(3nat, e2, n, x2, 10nat, x3);
    let x4 = 14926nat;
    let e4 = 2 * e3;
    lemma_power_mod_square(3nat, e3, n, x3, 6177nat, x4);
    let x5 = 12351nat;
    let e5 = 2 * e4 + 1;
    lemma_power_mod_square_times(3nat, e4, n, x4, 40023nat, x5);
    let x6 = 1836nat;
    let e6 = 2 * e5;
    lemma_power_mod_square(3nat, e5, n, x5, 9135nat, x6);
    let x7 = 9793nat;
    let e7 = 2 * e6 + 1;
    lemma_power_mod_square_times(3nat, e6, n, x6, 605nat, x7);
    let x8 = 1476nat;
    let e8 = 2 * e7 + 1;
    lemma_power_mod_square_times(3nat, e7, n, x7, 17229nat, x8);
    let x9 = 7706nat;
    let e9 = 2 * e8;
    lemma_power_mod_square(3nat, e8, n, x8, 130nat, x9);
}

proof fn lemma_power_16699_over_23()
    ensures
        power_mod(3nat, 726nat, 16699nat) == 7706nat,
{
    lemma_power_mod_first(3nat, 16699nat);
    lemma_power_16699_over_23_part_0();
}

proof fn lemma_certificate_16699()
    ensures
        is_certificate(16699nat, 3nat, seq![2nat, 3nat, 11nat, 11nat, 23nat]),
{
    let n = 16699nat;
    let factors = seq![2nat, 3nat, 11nat, 11nat, 23nat];
    lemma_small_primes();
    lemma_small_primes();
    lemma_prime_11();
    lemma_prime_23();
    lemma_power_16699_over_2();
    lemma_fundamental_div_mod_converse(16698int, 2int, 8349int, 0);
    lemma_power_16699_over_3();
    lemma_fundamental_div_mod_converse(16698int, 3int, 5566int, 0);
    lemma_power_16699_over_11();
    lemma_fundamental_div_mod_converse(16698int, 11int, 1518int, 0);
    lemma_power_16699_over_23();
    lemma_fundamental_div_mod_converse(16698int, 23int, 726int, 0);
    lemma_power_mod_square(3nat, 8349nat, n, 16698nat, 16697nat, 1);
    let f0 = Seq::<nat>::empty();
    lemma_product_push(f0, 2nat, 1nat);
    let f1 = f0.push(2nat);
    lemma_product_push(f1, 3nat, 2nat);
    let f2 = f1.push(3nat);
    lemma_product_push(f2, 11nat, 6nat);
    let f3 = f2.push(11nat);
    lemma_product_push(f3, 11nat, 66nat);
    let f4 = f3.push(11nat);
    lemma_product_push(f4, 23nat, 726nat);
    let f5 = f4.push(23nat);
    assert(factors =~= f5);
    assert forall|j: int| 0 <= j < factors.len() implies is_prime(#[trigger] factors[j])
        && power_mod(3nat, ((n - 1) / factors[j] as int) as nat, n) != 1 by {
        if j == 0 {
        } else if j == 1 {
        } else if j == 2 {
        } else if j == 3 {
        } else if j == 4 {
        }
    }
}

/// 16699 is prime.
pub(crate) proof fn lemma_prime_16699()
    ensures
        is_prime(16699nat),
{
    lemma_certificate_16699();
    lemma_certified_prime(16699nat, 3nat, seq![2nat, 3nat, 11nat, 11nat, 23nat]);
}

proof fn lemma_power_20113_over_2_part_0()
    requires
        power_mod(10nat, 1nat, 20113nat) == 10nat,
    ensures
        power_mod(10nat, 10056nat, 20113nat) == 20112nat,
{
    let n = 20113nat;
    let e0 = 1nat;
    let x0 = 10nat;
    let x1 = 100nat;
    let e1 = 2 * e0;
    lemma_power_mod_square(10nat, e0, n, x0, 0nat, x1);
    let x2 = 10000nat;
    let e2 = 2 * e1;
    lemma_power_mod_square(10nat, e1, n, x1, 0nat, x2);
    let x3 = 1753nat;
    let e3 = 2 * e2 + 1;
    lemma_power_mod_square_times(10nat, e2, n, x2, 49719nat, x3);
    let x4 = 17539nat;
    let e4 = 2 * e3 + 1;
    lemma_power_mod_square_times(10nat, e3, n, x3, 1527nat, x4);
    let x5 = 2538nat;
    let e5 = 2 * e4 + 1;
    lemma_power_mod_square_times(10nat, e4, n, x4, 152944nat, x5);
    let x6 = 5284nat;
    let e6 = 2 * e5;
    lemma_power_mod_square(10nat, e5, n, x5, 320nat, x6);
    let x7 = 18007nat;
    let e7 = 2 * e6 + 1;
    lemma_power_mod_square_times(10nat, e6, n, x6, 13881nat, x7);
    let x8 = 10376nat;
    let e8 = 2 * e7;
    lemma_power_mod_square(10nat, e7, n, x7, 16121nat, x8);
    let x9 = 16600nat;
    let e9 = 2 * e8;
    lemma_power_mod_square(10nat, e8, n, x8, 5352nat, x9);
    let x10 = 18435nat;
    let e10 = 2 * e9 + 1;
    lemma_power_mod_square_times(10nat, e9, n, x9, 137005nat, x10);
    let x11 = 19977nat;
    let e11 = 2 * e10;
    lemma_power_mod_square(10nat, e10, n, x10, 16896nat, x11);
    let x12 = 18496nat;
    let e12 = 2 * e11;
    lemma_power_mod_square(10nat, e11, n, x11, 19841nat, x12);
    let x13 = 20112nat;
    let e13 = 2 * e12;
    lemma_power_mod_square(10nat, e12, n, x12, 17008nat, x13);
}

proof fn lemma_power_20113_over_2()
    ensures
        power_mod(10nat, 10056nat, 20113nat) == 20112nat,
{
    lemma_power_mod_first(10nat, 20113nat);
    lemma_power_20113_over_2_part_0();
}

proof fn lemma_power_20113_over_3_part_0()
    requires
        power_mod(10nat, 1nat, 20113nat) == 10nat,
    ensures
        power_mod(10nat, 6704nat, 20113nat) == 5472nat,
{
    let n = 20113nat;
    let e0 = 1nat;
    let x0 = 10nat;
    let x1 = 1000nat;
    let e1 = 2 * e0 + 1;
    lemma_power_mod_square_times(10nat, e0, n, x0, 0nat, x1);
    let x2 = 14463nat;
    let e2 = 2 * e1;
    lemma_power_mod_square(10nat, e1, n, x1, 49nat, x2);
    let x3 = 11577nat;
    let e3 = 2 * e2 + 1;
    lemma_power_mod_square_times(10nat, e2, n, x2, 104001nat, x3);
    let x4 = 14010nat;
    let e4 = 2 * e3;
    lemma_power_mod_square(10nat, e3, n, x3, 6663nat, x4);
    let x5 = 17446nat;
    let e5 = 2 * e4;
    lemma_power_mod_square(10nat, e4, n, x4, 9758nat, x5);
    let x6 = 13000nat;
    let e6 = 2 * e5;
    lemma_power_mod_square(10nat, e5, n, x5, 15132nat, x6);
    let x7 = 5175nat;
    let e7 = 2 * e6 + 1;
    lemma_power_mod_square_times(10nat, e6, n, x6, 84025nat, x7);
    let x8 = 1655nat;
    let e8 = 2 * e7 + 1;
    lemma_power_mod_square_times(10nat, e7, n, x7, 13315nat, x8);
    let x9 = 3657nat;
    let e9 = 2 * e8;
    lemma_power_mod_square(10nat, e8, n, x8, 136nat, x9);
    let x10 = 18617nat;
    let e10 = 2 * e9;
    lemma_power_mod_square(10nat, e9, n, x9, 664nat, x10);
    let x11 = 5473nat;
    let e11 = 2 * e10;
    lemma_power_mod_square(10nat, e10, n, x10, 17232nat, x11);
    let x12 = 5472nat;
    let e12 = 2 * e11;
    lemma_power_mod_square(10nat, e11, n, x11, 1489nat, x12);
}

proof fn lemma_power_20113_over_3()
    ensures
        power_mod(10nat, 6704nat, 20113nat) == 5472nat,
{
    lemma_power_mod_first(10nat, 20113nat);
    lemma_power_20113_over_3_part_0();
}

proof fn lemma_power_20113_over_419_part_0()
    requires
        power_mod(10nat, 1nat, 20113nat) == 10nat,
    ensures
        power_mod(10nat, 48nat, 20113nat) == 4141nat,
{
    let n = 20113nat;
    let e0 = 1nat;
    let x0 = 10nat;
    let x1 = 1000nat;
    let e1 = 2 * e0 + 1;
    lemma_power_mod_square_times(10nat, e0, n, x0, 0nat, x1);
    let x2 = 14463nat;
    let e2 = 2 * e1;
    lemma_power_mod_square(10nat, e1, n, x1, 49nat, x2);
    let x3 = 3169nat;
    let e3 = 2 * e2;
    lemma_power_mod_square(10nat, e2, n, x2, 10400nat, x3);
    let x4 = 6174nat;
    let e4 = 2 * e3;
    lemma_power_mod_square(10nat, e3, n, x3, 499nat, x4);
    let x5 = 4141nat;
    let e5 = 2 * e4;
    lemma_power_mod_square(10nat, e4, n, x4, 1895nat, x5);
}

proof fn lemma_power_20113_over_419()
    ensures
        power_mod(10nat, 48nat, 20113nat) == 4141nat,
{
    lemma_power_mod_first(10nat, 20113nat);
    lemma_power_20113_over_419_part_0();
}

proof fn lemma_certificate_20113()
    ensures
        is_certificate(20113nat, 10nat, seq![2nat, 2nat, 2nat, 2nat, 3nat, 419nat]),
{
    let n = 20113nat;
    let factors = seq![2nat, 2nat, 2nat, 2nat, 3nat, 419nat];
    lemma_small_primes();
    lemma_small_primes();
    lemma_prime_419();
    lemma_power_20113_over_2();
    lemma_fundamental_div_mod_converse(20112int, 2int, 10056int, 0);
    lemma_power_20113_over_3();
    lemma_fundamental_div_mod_converse(20112int, 3int, 6704int, 0);
    lemma_power_20113_over_419();
    lemma_fundamental_div_mod_converse(20112int, 419int, 48int, 0);
    lemma_power_mod_square(10nat, 10056nat, n, 20112nat, 20111nat, 1);
    let f0 = Seq::<nat>::empty();
    lemma_product_push(f0, 2nat, 1nat);
    let f1 = f0.push(2nat);
    lemma_product_push(f1, 2nat, 2nat);
    let f2 = f1.push(2nat);
    lemma_product_push(f2, 2nat, 4nat);
    let f3 = f2.push(2nat);
    lemma_product_push(f3, 2nat, 8nat);
    let f4 = f3.push(2nat);
    lemma_product_push(f4, 3nat, 16nat);
    let f5 = f4.push(3nat);
    lemma_product_push(f5, 419nat, 48nat);
    let f6 = f5.push(419nat);
    assert(factors =~= f6);
    assert forall|j: int| 0 <= j < factors.len() implies is_prime(#[trigger] factors[j])
        && power_mod(10nat, ((n - 1) / factors[j] as int) as nat, n) != 1 by {
        if j == 0 {
        } else if j == 1 {
        } else if j == 2 {
        } else if j == 3 {
        } else if j == 4 {
        } else if j == 5 {
        }
    }
}

/// 20113 is prime.
pub(crate) proof fn lemma_prime_20113()
    ensures
        is_prime(20113nat),
{
    lemma_certificate_20113();
    lemma_certified_prime(20113nat, 10nat, seq![2nat, 2nat, 2nat, 2nat, 3nat, 419nat]);
}

proof fn lemma_power_24809_over_2_part_0()
    requires
        power_mod(6nat, 1nat, 24809nat) == 6nat,
    ensures
        power_mod(6nat, 12404nat, 24809nat) == 24808nat,
{
    let n = 24809nat;
    let e0 = 1nat;
    let x0 = 6nat;
    let x1 = 216nat;
    let e1 = 2 * e0 + 1;
    lemma_power_mod_square_times(6nat, e0, n, x0, 0nat, x1);
    let x2 = 21847nat;
    let e2 = 2 * e1;
    lemma_power_mod_square(6nat, e1, n, x1, 1nat, x2);
    let x3 = 15867nat;
    let e3 = 2 * e2;
    lemma_power_mod_square(6nat, e2, n, x2, 19238nat, x3);
    let x4 = 24766nat;
    let e4 = 2 * e3;
    lemma_power_mod_square(6nat, e3, n, x3, 10147nat, x4);
    let x5 = 1849nat;
    let e5 = 2 * e4;
    lemma_power_mod_square(6nat, e4, n, x4, 24723nat, x5);
    let x6 = 19968nat;
    let e6 = 2 * e5;
    lemma_power_mod_square(6nat, e5, n, x5, 137nat, x6);
    let x7 = 19083nat;
    let e7 = 2 * e6 + 1;
    lemma_power_mod_square_times(6nat, e6, n, x6, 96429nat, x7);
    let x8 = 11895nat;
    let e8 = 2 * e7 + 1;
    lemma_power_mod_square_times(6nat, e7, n, x7, 88071nat, x8);
    let x9 = 6979nat;
    let e9 = 2 * e8 + 1;
    lemma_power_mod_square_times(6nat, e8, n, x8, 34219nat, x9);
    let x10 = 6374nat;
    let e10 = 2 * e9;
    lemma_power_mod_square(6nat, e9, n, x9, 1963nat, x10);
    let x11 = 18831nat;
    let e11 = 2 * e10 + 1;
    lemma_power_mod_square_times(6nat, e10, n, x10, 9825nat, x11);
    let x12 = 11524nat;
    let e12 = 2 * e11;
    lemma_power_mod_square(6nat, e11, n, x11, 14293nat, x12);
    let x13 = 24808nat;
    let e13 = 2 * e12;
    lemma_power_mod_square(6nat, e12, n, x12, 5352nat, x13);
}

proof fn lemma_power_24809_over_2()
    ensures
        power_mod(6nat, 12404nat, 24809nat) == 24808nat,
{
    lemma_power_mod_first(6nat, 24809nat);
    lemma_power_24809_over_2_part_0();
}

proof fn lemma_power_24809_over_7_part_0()
    requires
        power_mod(6nat, 1nat, 24809nat) == 6nat,
    ensures
        power_mod(6nat, 3544nat, 24809nat) == 13134nat,
{
    let n = 24809nat;
    let e0 = 1nat;
    let x0 = 6nat;
    let x1 = 216nat;
    let e1 = 2 * e0 + 1;
    lemma_power_mod_square_times(6nat, e0, n, x0, 0nat, x1);
    let x2 = 21847nat;
    let e2 = 2 * e1;
    lemma_power_mod_square(6nat, e1, n, x1, 1nat, x2);
    let x3 = 20775nat;
    let e3 = 2 * e2 + 1;
    lemma_power_mod_square_times(6nat, e2, n, x2, 115431nat, x3);
    let x4 = 15521nat;
    let e4 = 2 * e3 + 1;
    lemma_power_mod_square_times(6nat, e3, n, x3, 104381nat, x4);
    let x5 = 11497nat;
    let e5 = 2 * e4 + 1;
    lemma_power_mod_square_times(6nat, e4, n, x4, 58261nat, x5);
    let x6 = 23466nat;
    let e6 = 2 * e5;
    lemma_power_mod_square(6nat, e5, n, x5, 5327nat, x6);
    let x7 = 5170nat;
    let e7 = 2 * e6 + 1;
    lemma_power_mod_square_times(6nat, e6, n, x6, 133174nat, x7);
    let x8 = 8024nat;
    let e8 = 2 * e7 + 1;
    lemma_power_mod_square_times(6nat, e7, n, x7, 6464nat, x8);
    let x9 = 5221nat;
    let e9 = 2 * e8;
    lemma_power_mod_square(6nat, e8, n, x8, 2595nat, x9);
    let x10 = 18559nat;
    let e10 = 2 * e9;
    lemma_power_mod_square(6nat, e9, n, x9, 1098nat, x10);
    let x11 = 13134nat;
    let e11 = 2 * e10;
    lemma_power_mod_square(6nat, e10, n, x10, 13883nat, x11);
}

proof fn lemma_power_24809_over_7()
    ensures
        power_mod(6nat, 3544nat, 24809nat) == 13134nat,
{
    lemma_power_mod_first(6nat, 24809nat);
    lemma_power_24809_over_7_part_0();
}

proof fn lemma_power_24809_over_443_part_0()
    requires
        power_mod(6nat, 1nat, 24809nat) == 6nat,
    ensures
        power_mod(6nat, 56nat, 24809nat) == 19364nat,
{
    let n = 24809nat;
    let e0 = 1nat;
    let x0 = 6nat;
    let x1 = 216nat;
    let e1 = 2 * e0 + 1;
    lemma_power_mod_square_times(6nat, e0, n, x0, 0nat, x1);
    let x2 = 7037nat;
    let e2 = 2 * e1 + 1;
    lemma_power_mod_square_times(6nat, e1, n, x1, 11nat, x2);
    let x3 = 605nat;
    let e3 = 2 * e2;
    lemma_power_mod_square(6nat, e2, n, x2, 1996nat, x3);
    let x4 = 18699nat;
    let e4 = 2 * e3;
    lemma_power_mod_square(6nat, e3, n, x3, 14nat, x4);
    let x5 = 19364nat;
    let e5 = 2 * e4;
    lemma_power_mod_square(6nat, e4, n, x4, 14093nat, x5);
}

proof fn lemma_power_24809_over_443()
    ensures
        power_mod(6nat, 56nat, 24809nat) == 19364nat,
{
    lemma_power_mod_first(6nat, 24809nat);
    lemma_power_24809_over_443_part_0();
}

proof fn lemma_certificate_24809()
    ensures
        is_certificate(24809nat, 6nat, seq![2nat, 2nat, 2nat, 7nat, 443nat]),
{
    let n = 24809nat;
    let factors = seq![2nat, 2nat, 2nat, 7nat, 443nat];
    lemma_small_primes();
    lemma_small_primes();
    lemma_prime_443();
    lemma_power_24809_over_2();
    lemma_fundamental_div_mod_converse(24808int, 2int, 12404int, 0);
    lemma_power_24809_over_7();
    lemma_fundamental_div_mod_converse(24808int, 7int, 3544int, 0);
    lemma_power_24809_over_443();
    lemma_fundamental_div_mod_converse(24808int, 443int, 56int, 0);
    lemma_power_mod_square(6nat, 12404nat, n, 24808nat, 24807nat, 1);
    let f0 = Seq::<nat>::empty();
    lemma_product_push(f0, 2nat, 1nat);
    let f1 = f0.push(2nat);
    lemma_product_push(f1, 2nat, 2nat);
    let f2 = f1.push(2nat);
    lemma_product_push(f2, 2nat, 4nat);
    let f3 = f2.push(2nat);
    lemma_product_push(f3, 7nat, 8nat);
    let f4 = f3.push(7nat);
    lemma_product_push(f4, 443nat, 56nat);
    let f5 = f4.push(443nat);
    assert(factors =~= f5);
    assert forall|j: int| 0 <= j < factors.len() implies is_prime(#[trigger] factors[j])
        && power_mod(6nat, ((n - 1) / factors[j] as int) as nat, n) != 1 by {
        if j == 0 {
        } else if j == 1 {
        } else if j == 2 {
        } else if j == 3 {
        } else if j == 4 {
        }
    }
}

/// 24809 is prime.
pub(crate) proof fn lemma_prime_24809()
    ensures
        is_prime(24809nat),
{
    lemma_certificate_24809();
    lemma_certified_prime(24809nat, 6nat, seq![2nat, 2nat, 2nat, 7nat, 443nat]);
}

proof fn lemma_power_28181_over_2_part_0()
    requires
        power_mod(2nat, 1nat, 28181nat) == 2nat,
    ensures
        power_mod(2nat, 14090nat, 28181nat) == 28180nat,
{
    let n = 28181nat;
    let e0 = 1nat;
    let x0 = 2nat;
    let x1 = 8nat;
    let e1 = 2 * e0 + 1;
    lemma_power_mod_square_times(2nat, e0, n, x0, 0nat, x1);
    let x2 = 64nat;
    let e2 = 2 * e1;
    lemma_power_mod_square(2nat, e1, n, x1, 0nat, x2);
    let x3 = 8192nat;
    let e3 = 2 * e2 + 1;
    lemma_power_mod_square_times(2nat, e2, n, x2, 0nat, x3);
    let x4 = 19806nat;
    let e4 = 2 * e3 + 1;
    lemma_power_mod_square_times(2nat, e3, n, x3, 4762nat, x4);
    let x5 = 24413nat;
    let e5 = 2 * e4 + 1;
    lemma_power_mod_square_times(2nat, e4, n, x4, 27839nat, x5);
    let x6 = 22781nat;
    let e6 = 2 * e5;
    lemma_power_mod_square(2nat, e5, n, x5, 21148nat, x6);
    let x7 = 20846nat;
    let e7 = 2 * e6;
    lemma_power_mod_square(2nat, e6, n, x6, 18415nat, x7);
    let x8 = 4696nat;
    let e8 = 2 * e7;
    lemma_power_mod_square(2nat, e7, n, x7, 15420nat, x8);
    let x9 = 14874nat;
    let e9 = 2 * e8;
    lemma_power_mod_square(2nat, e8, n, x8, 782nat, x9);
    let x10 = 1871nat;
    let e10 = 2 * e9 + 1;
    lemma_power_mod_square_times(2nat, e9, n, x9, 15701nat, x10);
    let x11 = 6197nat;
    let e11 = 2 * e10;
    lemma_power_mod_square(2nat, e10, n, x10, 124nat, x11);
    let x12 = 12393nat;
    let e12 = 2 * e11 + 1;
    lemma_power_mod_square_times(2nat, e11, n, x11, 2725nat, x12);
    let x13 = 28180nat;
    let e13 = 2 * e12;
    lemma_power_mod_square(2nat, e12, n, x12, 5449nat, x13);
}

proof fn lemma_power_28181_over_2()
    ensures
        power_mod(2nat, 14090nat, 28181nat) == 28180nat,
{
    lemma_power_mod_first(2nat, 28181nat);
    lemma_power_28181_over_2_part_0();
}

proof fn lemma_power_28181_over_5_part_0()
    requires
        power_mod(2nat, 1nat, 28181nat) == 2nat,
    ensures
        power_mod(2nat, 5636nat, 28181nat) == 26799nat,
{
    let n = 28181nat;
    let e0 = 1nat;
    let x0 = 2nat;
    let x1 = 4nat;
    let e1 = 2 * e0;
    lemma_power_mod_square(2nat, e0, n, x0, 0nat, x1);
    let x2 = 32nat;
    let e2 = 2 * e1 + 1;
    lemma_power_mod_square_times(2nat, e1, n, x1, 0nat, x2);
    let x3 = 2048nat;
    let e3 = 2 * e2 + 1;
    lemma_power_mod_square_times(2nat, e2, n, x2, 0nat, x3);
    let x4 = 23516nat;
    let e4 = 2 * e3;
    lemma_power_mod_square(2nat, e3, n, x3, 148nat, x4);
    let x5 = 6493nat;
    let e5 = 2 * e4;
    lemma_power_mod_square(2nat, e4, n, x4, 19623nat, x5);
    let x6 = 273nat;
    let e6 = 2 * e5;
    lemma_power_mod_square(2nat, e5, n, x5, 1496nat, x6);
    let x7 = 18167nat;
    let e7 = 2 * e6;
    lemma_power_mod_square(2nat, e6, n, x6, 2nat, x7);
    let x8 = 12198nat;
    let e8 = 2 * e7;
    lemma_power_mod_square(2nat, e7, n, x7, 11711nat, x8);
    let x9 = 23705nat;
    let e9 = 2 * e8;
    lemma_power_mod_square(2nat, e8, n, x8, 5279nat, x9);
    let x10 = 23951nat;
    let e10 = 2 * e9 + 1;
    lemma_power_mod_square_times(2nat, e9, n, x9, 39879nat, x10);
    let x11 = 26146nat;
    let e11 = 2 * e10;
    lemma_power_mod_square(2nat, e10, n, x10, 20355nat, x11);
    let x12 = 26799nat;
    let e12 = 2 * e11;
    lemma_power_mod_square(2nat, e11, n, x11, 24257nat, x12);
}

proof fn lemma_power_28181_over_5()
    ensures
        power_mod(2nat, 5636nat, 28181nat) == 26799nat,
{
    lemma_power_mod_first(2nat, 28181nat);
    lemma_power_28181_over_5_part_0();
}

proof fn lemma_power_28181_over_1409_part_0()
    requires
        power_mod(2nat, 1nat, 28181nat) == 2nat,
    ensures
        power_mod(2nat, 20nat, 28181nat) == 5879nat,
{
    let n = 28181nat;
    let e0 = 1nat;
    let x0 = 2nat;
    let x1 = 4nat;
    let e1 = 2 * e0;
    lemma_power_mod_square(2nat, e0, n, x0, 0nat, x1);
    let x2 = 32nat;
    let e2 = 2 * e1 + 1;
    lemma_power_mod_square_times(2nat, e1, n, x1, 0nat, x2);
    let x3 = 1024nat;
    let e3 = 2 * e2;
    lemma_power_mod_square(2nat, e2, n, x2, 0nat, x3);
    let x4 = 5879nat;
    let e4 = 2 * e3;
    lemma_power_mod_square(2nat, e3, n, x3, 37nat, x4);
}

proof fn lemma_power_28181_over_1409()
    ensures
        power_mod(2nat, 20nat, 28181nat) == 5879nat,
{
    lemma_power_mod_first(2nat, 28181nat);
    lemma_power_28181_over_1409_part_0();
}

proof fn lemma_certificate_28181()
    ensures
        is_certificate(28181nat, 2nat, seq![2nat, 2nat, 5nat, 1409nat]),
{
    let n = 28181nat;
    let factors = seq![2nat, 2nat, 5nat, 1409nat];
    lemma_small_primes();
    lemma_small_primes();
    lemma_prime_1409();
    lemma_power_28181_over_2();
    lemma_fundamental_div_mod_converse(28180int, 2int, 14090int, 0);
    lemma_power_28181_over_5();
    lemma_fundamental_div_mod_converse(28180int, 5int, 5636int, 0);
    lemma_power_28181_over_1409();
    lemma_fundamental_div_mod_converse(28180int, 1409int, 20int, 0);
    lemma_power_mod_square(2nat, 14090nat, n, 28180nat, 28179nat, 1);
    let f0 = Seq::<nat>::empty();
    lemma_product_push(f0, 2nat, 1nat);
    let f1 = f0.push(2nat);
    lemma_product_push(f1, 2nat, 2nat);
    let f2 = f1.push(2nat);
    lemma_product_push(f2, 5nat, 4nat);
    let f3 = f2.push(5nat);
    lemma_product_push(f3, 1409nat, 20nat);
    let f4 = f3.push(1409nat);
    assert(factors =~= f4);
    assert forall|j: int| 0 <= j < factors.len() implies is_prime(#[trigger] factors[j])
        && power_mod(2nat, ((n - 1) / factors[j] as int) as nat, n) != 1 by {
        if j == 0 {
        } else if j == 1 {
        } else if j == 2 {
        } else if j == 3 {
        }
    }
}

/// 28181 is prime.
pub(crate) proof fn lemma_prime_28181()
    ensures
        is_prime(28181nat),
{
    lemma_certificate_28181();
    lemma_certified_prime(28181nat, 2nat, seq![2nat, 2nat, 5nat, 1409nat]);
}

proof fn lemma_power_41201_over_2_part_0()
    requires
        power_mod(3nat, 1nat, 41201nat) == 3nat,
    ensures
        power_mod(3nat, 20600nat, 41201nat) == 41200nat,
{
    let n = 41201nat;
    let e0 = 1nat;
    let x0 = 3nat;
    let x1 = 9nat;
    let e1 = 2 * e0;
    lemma_power_mod_square(3nat, e0, n, x0, 0nat, x1);
    let x2 = 243nat;
    let e2 = 2 * e1 + 1;
    lemma_power_mod_square_times(3nat, e1, n, x1, 0nat, x2);
    let x3 = 17848nat;
    let e3 = 2 * e2;
    lemma_power_mod_square(3nat, e2, n, x2, 1nat, x3);
    let x4 = 26173nat;
    let e4 = 2 * e3;
    lemma_power_mod_square(3nat, e3, n, x3, 7731nat, x4);
    let x5 = 18103nat;
    let e5 = 2 * e4;
    lemma_power_mod_square(3nat, e4, n, x4, 16626nat, x5);
    let x6 = 5855nat;
    let e6 = 2 * e5;
    lemma_power_mod_square(3nat, e5, n, x5, 7954nat, x6);
    let x7 = 1793nat;
    let e7 = 2 * e6;
    lemma_power_mod_square(3nat, e6, n, x6, 832nat, x7);
    let x8 = 3513nat;
    let e8 = 2 * e7 + 1;
    lemma_power_mod_square_times(3nat, e7, n, x7, 234nat, x8);
    let x9 = 25009nat;
    let e9 = 2 * e8 + 1;
    lemma_power_mod_square_times(3nat, e8, n, x8, 898nat, x9);
    let x10 = 15502nat;
    let e10 = 2 * e9 + 1;
    lemma_power_mod_square_times(3nat, e9, n, x9, 45541nat, x10);
    let x11 = 914nat;
    let e11 = 2 * e10 + 1;
    lemma_power_mod_square_times(3nat, e10, n, x10, 17498nat, x11);
    let x12 = 11376nat;
    let e12 = 2 * e11;
    lemma_power_mod_square(3nat, e11, n, x11, 20nat, x12);
    let x13 = 1035nat;
    let e13 = 2 * e12;
    lemma_power_mod_square(3nat, e12, n, x12, 3141nat, x13);
    let x14 = 41200nat;
    let e14 = 2 * e13;
    lemma_power_mod_square(3nat, e13, n, x13, 25nat, x14);
}

proof fn lemma_power_41201_over_2()
    ensures
        power_mod(3nat, 20600nat, 41201nat) == 41200nat,
{
    lemma_power_mod_first(3nat, 41201nat);
    lemma_power_41201_over_2_part_0();
}

proof fn lemma_power_41201_over_5_part_0()
    requires
        power_mod(3nat, 1nat, 41201nat) == 3nat,
    ensures
        power_mod(3nat, 8240nat, 41201nat) == 18549nat,
{
    let n = 41201nat;
    let e0 = 1nat;
    let x0 = 3nat;
    let x1 = 9nat;
    let e1 = 2 * e0;
    lemma_power_mod_square(3nat, e0, n, x0, 0nat, x1);
    let x2 = 81nat;
    let e2 = 2 * e1;
    lemma_power_mod_square(3nat, e1, n, x1, 0nat, x2);
    let x3 = 6561nat;
    let e3 = 2 * e2;
    lemma_power_mod_square(3nat, e2, n, x2, 0nat, x3);
    let x4 = 32877nat;
    let e4 = 2 * e3;
    lemma_power_mod_square(3nat, e3, n, x3, 1044nat, x4);
    let x5 = 30095nat;
    let e5 = 2 * e4;
    lemma_power_mod_square(3nat, e4, n, x4, 26234nat, x5);
    let x6 = 28643nat;
    let e6 = 2 * e5;
    lemma_power_mod_square(3nat, e5, n, x5, 21982nat, x6);
    let x7 = 27137nat;
    let e7 = 2 * e6;
    lemma_power_mod_square(3nat, e6, n, x6, 19912nat, x7);
    let x8 = 11486nat;
    let e8 = 2 * e7 + 1;
    lemma_power_mod_square_times(3nat, e7, n, x7, 53621nat, x8);
    let x9 = 7782nat;
    let e9 = 2 * e8 + 1;
    lemma_power_mod_square_times(3nat, e8, n, x8, 9606nat, x9);
    let x10 = 35255nat;
    let e10 = 2 * e9;
    lemma_power_mod_square(3nat, e9, n, x9, 1469nat, x10);
    let x11 = 4458nat;
    let e11 = 2 * e10;
    lemma_power_mod_square(3nat, e10, n, x10, 30167nat, x11);
    let x12 = 14882nat;
    let e12 = 2 * e11;
    lemma_power_mod_square(3nat, e11, n, x11, 482nat, x12);
    let x13 = 18549nat;
    let e13 = 2 * e12;
    lemma_power_mod_square(3nat, e12, n, x12, 5375nat, x13);
}

proof fn lemma_power_41201_over_5()
    ensures
        power_mod(3nat, 8240nat, 41201nat) == 18549nat,
{
    lemma_power_mod_first(3nat, 41201nat);
    lemma_power_41201_over_5_part_0();
}

proof fn lemma_power_41201_over_103_part_0()
    requires
        power_mod(3nat, 1nat, 41201nat) == 3nat,
    ensures
        power_mod(3nat, 400nat, 41201nat) == 16839nat,
{
    let n = 41201nat;
    let e0 = 1nat;
    let x0 = 3nat;
    let x1 = 27nat;
    let e1 = 2 * e0 + 1;
    lemma_power_mod_square_times(3nat, e0, n, x0, 0nat, x1);
    let x2 = 729nat;
    let e2 = 2 * e1;
    lemma_power_mod_square(3nat, e1, n, x1, 0nat, x2);
    let x3 = 37029nat;
    let e3 = 2 * e2;
    lemma_power_mod_square(3nat, e2, n, x2, 12nat, x3);
    let x4 = 15085nat;
    let e4 = 2 * e3 + 1;
    lemma_power_mod_square_times(3nat, e3, n, x3, 99838nat, x4);
    let x5 = 4102nat;
    let e5 = 2 * e4;
    lemma_power_mod_square(3nat, e4, n, x4, 5523nat, x5);
    let x6 = 16396nat;
    let e6 = 2 * e5;
    lemma_power_mod_square(3nat, e5, n, x5, 408nat, x6);
    let x7 = 33492nat;
    let e7 = 2 * e6;
    lemma_power_mod_square(3nat, e6, n, x6, 6524nat, x7);
    let x8 = 16839nat;
    let e8 = 2 * e7;
    lemma_power_mod_square(3nat, e7, n, x7, 27225nat, x8);
}

proof fn lemma_power_41201_over_103()
    ensures
        power_mod(3nat, 400nat, 41201nat) == 16839nat,
{
    lemma_power_mod_first(3nat, 41201nat);
    lemma_power_41201_over_103_part_0();
}

proof fn lemma_certificate_41201()
    ensures
        is_certificate(41201nat, 3nat, seq![2nat, 2nat, 2nat, 2nat, 5nat, 5nat, 103nat]),
{
    let n = 41201nat;
    let factors = seq![2nat, 2nat, 2nat, 2nat, 5nat, 5nat, 103nat];
    lemma_small_primes();
    lemma_small_primes();
    lemma_prime_103();
    lemma_power_41201_over_2();
    lemma_fundamental_div_mod_converse(41200int, 2int, 20600int, 0);
    lemma_power_41201_over_5();
    lemma_fundamental_div_mod_converse(41200int, 5int, 8240int, 0);
    lemma_power_41201_over_103();
    lemma_fundamental_div_mod_converse(41200int, 103int, 400int, 0);
    lemma_power_mod_square(3nat, 20600nat, n, 41200nat, 41199nat, 1);
    let f0 = Seq::<nat>::empty();
    lemma_product_push(f0, 2nat, 1nat);
    let f1 = f0.push(2nat);
    lemma_product_push(f1, 2nat, 2nat);
    let f2 = f1.push(2nat);
    lemma_product_push(f2, 2nat, 4nat);
    let f3 = f2.push(2nat);
    lemma_product_push(f3, 2nat, 8nat);
    let f4 = f3.push(2nat);
    lemma_product_push(f4, 5nat, 16nat);
    let f5 = f4.push(5nat);
    lemma_product_push(f5, 5nat, 80nat);
    let f6 = f5.push(5nat);
    lemma_product_push(f6, 103nat, 400nat);
    let f7 = f6.push(103nat);
    assert(factors =~= f7);
    assert forall|j: int| 0 <= j < factors.len() implies is_prime(#[trigger] factors[j])
        && power_mod(3nat, ((n - 1) / factors[j] as int) as nat, n) != 1 by {
        if j == 0 {
        } else if j == 1 {
        } else if j == 2 {
        } else if j == 3 {
        } else if j == 4 {
        } else if j == 5 {
        } else if j == 6 {
        }
    }
}

/// 41201 is prime.
pub(crate) proof fn lemma_prime_41201()
    ensures
        is_prime(41201nat),
{
    lemma_certificate_41201();
    lemma_certified_prime(41201nat, 3nat, seq![2nat, 2nat, 2nat, 2nat, 5nat, 5nat, 103nat]);
}

proof fn lemma_power_85831_over_2_part_0()
    requires
        power_mod(3nat, 1nat, 85831nat) == 3nat,
    ensures
        power_mod(3nat, 42915nat, 85831nat) == 85830nat,
{
    let n = 85831nat;
    let e0 = 1nat;
    let x0 = 3nat;
    let x1 = 9nat;
    let e1 = 2 * e0;
    lemma_power_mod_square(3nat, e0, n, x0, 0nat, x1);
    let x2 = 243nat;
    let e2 = 2 * e1 + 1;
    lemma_power_mod_square_times(3nat, e1, n, x1, 0nat, x2);
    let x3 = 59049nat;
    let e3 = 2 * e2;
    lemma_power_mod_square(3nat, e2, n, x2, 0nat, x3);
    let x4 = 71688nat;
    let e4 = 2 * e3;
    lemma_power_mod_square(3nat, e3, n, x3, 40623nat, x4);
    let x5 = 28826nat;
    let e5 = 2 * e4 + 1;
    lemma_power_mod_square_times(3nat, e4, n, x4, 179626nat, x5);
    let x6 = 25095nat;
    let e6 = 2 * e5 + 1;
    lemma_power_mod_square_times(3nat, e5, n, x5, 29043nat, x6);
    let x7 = 50934nat;
    let e7 = 2 * e6 + 1;
    lemma_power_mod_square_times(3nat, e6, n, x6, 22011nat, x7);
    let x8 = 5312nat;
    let e8 = 2 * e7 + 1;
    lemma_power_mod_square_times(3nat, e7, n, x7, 90676nat, x8);
    let x9 = 64776nat;
    let e9 = 2 * e8;
    lemma_power_mod_square(3nat, e8, n, x8, 328nat, x9);
    let x10 = 73561nat;
    let e10 = 2 * e9 + 1;
    lemma_power_mod_square_times(3nat, e9, n, x9, 146657nat, x10);
    let x11 = 5326nat;
    let e11 = 2 * e10;
    lemma_power_mod_square(3nat, e10, n, x10, 63045nat, x11);
    let x12 = 42046nat;
    let e12 = 2 * e11;
    lemma_power_mod_square(3nat, e11, n, x11, 330nat, x12);
    let x13 = 5009nat;
    let e13 = 2 * e12;
    lemma_power_mod_square(3nat, e12, n, x12, 20597nat, x13);
    let x14 = 82287nat;
    let e14 = 2 * e13 + 1;
    lemma_power_mod_square_times(3nat, e13, n, x13, 876nat, x14);
    let x15 = 85830nat;
    let e15 = 2 * e14 + 1;
    lemma_power_mod_square_times(3nat, e14, n, x14, 236667nat, x15);
}

proof fn lemma_power_85831_over_2()
    ensures
        power_mod(3nat, 42915nat, 85831nat) == 85830nat,
{
    lemma_power_mod_first(3nat, 85831nat);
    lemma_power_85831_over_2_part_0();
}

proof fn lemma_power_85831_over_3_part_0()
    requires
        power_mod(3nat, 1nat, 85831nat) == 3nat,
    ensures
        power_mod(3nat, 28610nat, 85831nat) == 48231nat,
{
    let n = 85831nat;
    let e0 = 1nat;
    let x0 = 3nat;
    let x1 = 27nat;
    let e1 = 2 * e0 + 1;
    lemma_power_mod_square_times(3nat, e0, n, x0, 0nat, x1);
    let x2 = 729nat;
    let e2 = 2 * e1;
    lemma_power_mod_square(3nat, e1, n, x1, 0nat, x2);
    let x3 = 49365nat;
    let e3 = 2 * e2 + 1;
    lemma_power_mod_square_times(3nat, e2, n, x2, 18nat, x3);
    let x4 = 54250nat;
    let e4 = 2 * e3 + 1;
    lemma_power_mod_square_times(3nat, e3, n, x3, 85175nat, x4);
    let x5 = 10023nat;
    let e5 = 2 * e4 + 1;
    lemma_power_mod_square_times(3nat, e4, n, x4, 102867nat, x5);
    let x6 = 28946nat;
    let e6 = 2 * e5 + 1;
    lemma_power_mod_square_times(3nat, e5, n, x5, 3511nat, x6);
    let x7 = 51913nat;
    let e7 = 2 * e6 + 1;
    lemma_power_mod_square_times(3nat, e6, n, x6, 29285nat, x7);
    let x8 = 27662nat;
    let e8 = 2 * e7 + 1;
    lemma_power_mod_square_times(3nat, e7, n, x7, 94195nat, x8);
    let x9 = 2879nat;
    let e9 = 2 * e8;
    lemma_power_mod_square(3nat, e8, n, x8, 8915nat, x9);
    let x10 = 48865nat;
    let e10 = 2 * e9;
    lemma_power_mod_square(3nat, e9, n, x9, 96nat, x10);
    let x11 = 55636nat;
    let e11 = 2 * e10;
    lemma_power_mod_square(3nat, e10, n, x10, 27819nat, x11);
    let x12 = 41143nat;
    let e12 = 2 * e11;
    lemma_power_mod_square(3nat, e11, n, x11, 36063nat, x12);
    let x13 = 48232nat;
    let e13 = 2 * e12 + 1;
    lemma_power_mod_square_times(3nat, e12, n, x12, 59165nat, x13);
    let x14 = 48231nat;
    let e14 = 2 * e13;
    lemma_power_mod_square(3nat, e13, n, x13, 27103nat, x14);
}

proof fn lemma_power_85831_over_3()
    ensures
        power_mod(3nat, 28610nat, 85831nat) == 48231nat,
{
    lemma_power_mod_first(3nat, 85831nat);
    lemma_power_85831_over_3_part_0();
}

proof fn lemma_power_85831_over_5_part_0()
    requires
        power_mod(3nat, 1nat, 85831nat) == 3nat,
    ensures
        power_mod(3nat, 17166nat, 85831nat) == 63649nat,
{
    let n = 85831nat;
    let e0 = 1nat;
    let x0 = 3nat;
    let x1 = 9nat;
    let e1 = 2 * e0;
    lemma_power_mod_square(3nat, e0, n, x0, 0nat, x1);
    let x2 = 81nat;
    let e2 = 2 * e1;
    lemma_power_mod_square(3nat, e1, n, x1, 0nat, x2);
    let x3 = 6561nat;
    let e3 = 2 * e2;
    lemma_power_mod_square(3nat, e2, n, x2, 0nat, x3);
    let x4 = 45390nat;
    let e4 = 2 * e3;
    lemma_power_mod_square(3nat, e3, n, x3, 501nat, x4);
    let x5 = 65990nat;
    let e5 = 2 * e4 + 1;
    lemma_power_mod_square_times(3nat, e4, n, x4, 72010nat, x5);
    let x6 = 47114nat;
    let e6 = 2 * e5 + 1;
    lemma_power_mod_square_times(3nat, e5, n, x5, 152206nat, x6);
    let x7 = 53505nat;
    let e7 = 2 * e6;
    lemma_power_mod_square(3nat, e6, n, x6, 25861nat, x7);
    let x8 = 63682nat;
    let e8 = 2 * e7;
    lemma_power_mod_square(3nat, e7, n, x7, 33353nat, x8);
    let x9 = 54036nat;
    let e9 = 2 * e8;
    lemma_power_mod_square(3nat, e8, n, x8, 47248nat, x9);
    let x10 = 4507nat;
    let e10 = 2 * e9;
    lemma_power_mod_square(3nat, e9, n, x9, 34019nat, x10);
    let x11 = 84968nat;
    let e11 = 2 * e10 + 1;
    lemma_power_mod_square_times(3nat, e10, n, x10, 709nat, x11);
    let x12 = 2701nat;
    let e12 = 2 * e11 + 1;
    lemma_power_mod_square_times(3nat, e11, n, x11, 252341nat, x12);
    let x13 = 85129nat;
    let e13 = 2 * e12 + 1;
    lemma_power_mod_square_times(3nat, e12, n, x12, 254nat, x13);
    let x14 = 63649nat;
    let e14 = 2 * e13;
    lemma_power_mod_square(3nat, e13, n, x13, 84432nat, x14);
}

proof fn lemma_power_85831_over_5()
    ensures
        power_mod(3nat, 17166nat, 85831nat) == 63649nat,
{
    lemma_power_mod_first(3nat, 85831nat);
    lemma_power_85831_over_5_part_0();
}

proof fn lemma_power_85831_over_2861_part_0()
    requires
        power_mod(3nat, 1nat, 85831nat) == 3nat,
    ensures
        power_mod(3nat, 30nat, 85831nat) == 5623nat,
{
    let n = 85831nat;
    let e0 = 1nat;
    let x0 = 3nat;
    let x1 = 27nat;
    let e1 = 2 * e0 + 1;
    lemma_power_mod_square_times(3nat, e0, n, x0, 0nat, x1);
    let x2 = 2187nat;
    let e2 = 2 * e1 + 1;
    lemma_power_mod_square_times(3nat, e1, n, x1, 0nat, x2);
    let x3 = 15130nat;
    let e3 = 2 * e2 + 1;
    lemma_power_mod_square_times(3nat, e2, n, x2, 167nat, x3);
    let x4 = 5623nat;
    let e4 = 2 * e3;
    lemma_power_mod_square(3nat, e3, n, x3, 2667nat, x4);
}

proof fn lemma_power_85831_over_2861()
    ensures
        power_mod(3nat, 30nat, 85831nat) == 5623nat,
{
    lemma_power_mod_first(3nat, 85831nat);
    lemma_power_85831_over_2861_part_0();
}

proof fn lemma_certificate_85831()
    ensures
        is_certificate(85831nat, 3nat, seq![2nat, 3nat, 5nat, 2861nat]),
{
    let n = 85831nat;
    let factors = seq![2nat, 3nat, 5nat, 2861nat];
    lemma_small_primes();
    lemma_small_primes();
    lemma_small_primes();
    lemma_prime_2861();
    lemma_power_85831_over_2();
    lemma_fundamental_div_mod_converse(85830int, 2int, 42915int, 0);
    lemma_power_85831_over_3();
    lemma_fundamental_div_mod_converse(85830int, 3int, 28610int, 0);
    lemma_power_85831_over_5();
    lemma_fundamental_div_mod_converse(85830int, 5int, 17166int, 0);
    lemma_power_85831_over_2861();
    lemma_fundamental_div_mod_converse(85830int, 2861int, 30int, 0);
    lemma_power_mod_square(3nat, 42915nat, n, 85830nat, 85829nat, 1);
    let f0 = Seq::<nat>::empty();
    lemma_product_push(f0, 2nat, 1nat);
    let f1 = f0.push(2nat);
    lemma_product_push(f1, 3nat, 2nat);
    let f2 = f1.push(3nat);
    lemma_product_push(f2, 5nat, 6nat);
    let f3 = f2.push(5nat);
    lemma_product_push(f3, 2861nat, 30nat);
    let f4 = f3.push(2861nat);
    assert(factors =~= f4);
    assert forall|j: int| 0 <= j < factors.len() implies is_prime(#[trigger] factors[j])
        && power_mod(3nat, ((n - 1) / factors[j] as int) as nat, n) != 1 by {
        if j == 0 {
        } else if j == 1 {
        } else if j == 2 {
        } else if j == 3 {
        }
    }
}

/// 85831 is prime.
pub(crate) proof fn lemma_prime_85831()
    ensures
        is_prime(85831nat),
{
    lemma_certificate_85831();
    lemma_certified_prime(85831nat, 3nat, seq![2nat, 3nat, 5nat, 2861nat]);
}

proof fn lemma_power_96557_over_2_part_0()
    requires
        power_mod(2nat, 1nat, 96557nat) == 2nat,
    ensures
        power_mod(2nat, 48278nat, 96557nat) == 96556nat,
{
    let n = 96557nat;
    let e0 = 1nat;
    let x0 = 2nat;
    let x1 = 4nat;
    let e1 = 2 * e0;
    lemma_power_mod_square(2nat, e0, n, x0, 0nat, x1);
    let x2 = 32nat;
    let e2 = 2 * e1 + 1;
    lemma_power_mod_square_times(2nat, e1, n, x1, 0nat, x2);
    let x3 = 2048nat;
    let e3 = 2 * e2 + 1;
    lemma_power_mod_square_times(2nat, e2, n, x2, 0nat, x3);
    let x4 = 84706nat;
    let e4 = 2 * e3 + 1;
    lemma_power_mod_square_times(2nat, e3, n, x3, 86nat, x4);
    let x5 = 8089nat;
    let e5 = 2 * e4 + 1;
    lemma_power_mod_square_times(2nat, e4, n, x4, 148619nat, x5);
    let x6 = 62832nat;
    let e6 = 2 * e5;
    lemma_power_mod_square(2nat, e5, n, x5, 677nat, x6);
    let x7 = 30722nat;
    let e7 = 2 * e6;
    lemma_power_mod_square(2nat, e6, n, x6, 40886nat, x7);
    let x8 = 89775nat;
    let e8 = 2 * e7 + 1;
    lemma_power_mod_square_times(2nat, e7, n, x7, 19549nat, x8);
    let x9 = 34392nat;
    let e9 = 2 * e8;
    lemma_power_mod_square(2nat, e8, n, x8, 83469nat, x9);
    let x10 = 82971nat;
    let e10 = 2 * e9;
    lemma_power_mod_square(2nat, e9, n, x9, 12249nat, x10);
    let x11 = 21381nat;
    let e11 = 2 * e10 + 1;
    lemma_power_mod_square_times(2nat, e10, n, x10, 142593nat, x11);
    let x12 = 46323nat;
    let e12 = 2 * e11;
    lemma_power_mod_square(2nat, e11, n, x11, 4734nat, x12);
    let x13 = 68236nat;
    let e13 = 2 * e12 + 1;
    lemma_power_mod_square_times(2nat, e12, n, x12, 44446nat, x13);
    let x14 = 56641nat;
    let e14 = 2 * e13 + 1;
    lemma_power_mod_square_times(2nat, e13, n, x13, 96443nat, x14);
    let x15 = 96556nat;
    let e15 = 2 * e14;
    lemma_power_mod_square(2nat, e14, n, x14, 33225nat, x15);
}

proof fn lemma_power_96557_over_2()
    ensures
        power_mod(2nat, 48278nat, 96557nat) == 96556nat,
{
    lemma_power_mod_first(2nat, 96557nat);
    lemma_power_96557_over_2_part_0();
}

proof fn lemma_power_96557_over_101_part_0()
    requires
        power_mod(2nat, 1nat, 96557nat) == 2nat,
    ensures
        power_mod(2nat, 956nat, 96557nat) == 63065nat,
{
    let n = 96557nat;
    let e0 = 1nat;
    let x0 = 2nat;
    let x1 = 8nat;
    let e1 = 2 * e0 + 1;
    lemma_power_mod_square_times(2nat, e0, n, x0, 0nat, x1);
    let x2 = 128nat;
    let e2 = 2 * e1 + 1;
    lemma_power_mod_square_times(2nat, e1, n, x1, 0nat, x2);
    let x3 = 16384nat;
    let e3 = 2 * e2;
    lemma_power_mod_square(2nat, e2, n, x2, 0nat, x3);
    let x4 = 13992nat;
    let e4 = 2 * e3 + 1;
    lemma_power_mod_square_times(2nat, e3, n, x3, 5560nat, x4);
    let x5 = 13493nat;
    let e5 = 2 * e4 + 1;
    lemma_power_mod_square_times(2nat, e4, n, x4, 4055nat, x5);
    let x6 = 5651nat;
    let e6 = 2 * e5 + 1;
    lemma_power_mod_square_times(2nat, e5, n, x5, 3771nat, x6);
    let x7 = 43425nat;
    let e7 = 2 * e6 + 1;
    lemma_power_mod_square_times(2nat, e6, n, x6, 661nat, x7);
    let x8 = 68972nat;
    let e8 = 2 * e7;
    lemma_power_mod_square(2nat, e7, n, x7, 19529nat, x8);
    let x9 = 63065nat;
    let e9 = 2 * e8;
    lemma_power_mod_square(2nat, e8, n, x8, 49267nat, x9);
}

proof fn lemma_power_96557_over_101()
    ensures
        power_mod(2nat, 956nat, 96557nat) == 63065nat,
{
    lemma_power_mod_first(2nat, 96557nat);
    lemma_power_96557_over_101_part_0();
}

proof fn lemma_power_96557_over_239_part_0()
    requires
        power_mod(2nat, 1nat, 96557nat) == 2nat,
    ensures
        power_mod(2nat, 404nat, 96557nat) == 29586nat,
{
    let n = 96557nat;
    let e0 = 1nat;
    let x0 = 2nat;
    let x1 = 8nat;
    let e1 = 2 * e0 + 1;
    lemma_power_mod_square_times(2nat, e0, n, x0, 0nat, x1);
    let x2 = 64nat;
    let e2 = 2 * e1;
    lemma_power_mod_square(2nat, e1, n, x1, 0nat, x2);
    let x3 = 4096nat;
    let e3 = 2 * e2;
    lemma_power_mod_square(2nat, e2, n, x2, 0nat, x3);
    let x4 = 49153nat;
    let e4 = 2 * e3 + 1;
    lemma_power_mod_square_times(2nat, e3, n, x3, 347nat, x4);
    let x5 = 64712nat;
    let e5 = 2 * e4;
    lemma_power_mod_square(2nat, e4, n, x4, 25021nat, x5);
    let x6 = 28265nat;
    let e6 = 2 * e5 + 1;
    lemma_power_mod_square_times(2nat, e5, n, x5, 86739nat, x6);
    let x7 = 94164nat;
    let e7 = 2 * e6;
    lemma_power_mod_square(2nat, e6, n, x6, 8273nat, x7);
    let x8 = 29586nat;
    let e8 = 2 * e7;
    lemma_power_mod_square(2nat, e7, n, x7, 91830nat, x8);
}

proof fn lemma_power_96557_over_239()
    ensures
        power_mod(2nat, 404nat, 96557nat) == 29586nat,
{
    lemma_power_mod_first(2nat, 96557nat);
    lemma_power_96557_over_239_part_0();
}

proof fn lemma_certificate_96557()
    ensures
        is_certificate(96557nat, 2nat, seq![2nat, 2nat, 101nat, 239nat]),
{
    let n = 96557nat;
    let factors = seq![2nat, 2nat, 101nat, 239nat];
    lemma_small_primes();
    lemma_prime_101();
    lemma_prime_239();
    lemma_power_96557_over_2();
    lemma_fundamental_div_mod_converse(96556int, 2int, 48278int, 0);
    lemma_power_96557_over_101();
    lemma_fundamental_div_mod_converse(96556int, 101int, 956int, 0);
    lemma_power_96557_over_239();
    lemma_fundamental_div_mod_converse(96556int, 239int, 404int, 0);
    lemma_power_mod_square(2nat, 48278nat, n, 96556nat, 96555nat, 1);
    let f0 = Seq::<nat>::empty();
    lemma_product_push(f0, 2nat, 1nat);
    let f1 = f0.push(2nat);
    lemma_product_push(f1, 2nat, 2nat);
    let f2 = f1.push(2nat);
    lemma_product_push(f2, 101nat, 4nat);
    let f3 = f2.push(101nat);
    lemma_product_push(f3, 239nat, 404nat);
    let f4 = f3.push(239nat);
    assert(factors =~= f4);
    assert forall|j: int| 0 <= j < factors.len() implies is_prime(#[trigger] factors[j])
        && power_mod(2nat, ((n - 1) / factors[j] as int) as nat, n) != 1 by {
        if j == 0 {
        } else if j == 1 {
        } else if j == 2 {
        } else if j == 3 {
        }
    }
}

/// 96557 is prime.
pub(crate) proof fn lemma_prime_96557()
    ensures
        is_prime(96557nat),
{
    lemma_certificate_96557();
    lemma_certified_prime(96557nat, 2nat, seq![2nat, 2nat, 101nat, 239nat]);
}

proof fn lemma_power_120233_over_2_part_0()
    requires
        power_mod(3nat, 1nat, 120233nat) == 3nat,
    ensures
        power_mod(3nat, 60116nat, 120233nat) == 120232nat,
{
    let n = 120233nat;
    let e0 = 1nat;
    let x0 = 3nat;
    let x1 = 27nat;
    let e1 = 2 * e0 + 1;
    lemma_power_mod_square_times(3nat, e0, n, x0, 0nat, x1);
    let x2 = 2187nat;
    let e2 = 2 * e1 + 1;
    lemma_power_mod_square_times(3nat, e1, n, x1, 0nat, x2);
    let x3 = 93882nat;
    let e3 = 2 * e2;
    lemma_power_mod_square(3nat, e2, n, x2, 39nat, x3);
    let x4 = 88878nat;
    let e4 = 2 * e3 + 1;
    lemma_power_mod_square_times(3nat, e3, n, x3, 219918nat, x4);
    let x5 = 111017nat;
    let e5 = 2 * e4;
    lemma_power_mod_square(3nat, e4, n, x4, 65699nat, x5);
    let x6 = 30241nat;
    let e6 = 2 * e5 + 1;
    lemma_power_mod_square_times(3nat, e5, n, x5, 307522nat, x6);
    let x7 = 25883nat;
    let e7 = 2 * e6;
    lemma_power_mod_square(3nat, e6, n, x6, 7606nat, x7);
    let x8 = 94472nat;
    let e8 = 2 * e7 + 1;
    lemma_power_mod_square_times(3nat, e7, n, x7, 16715nat, x8);
    let x9 = 69349nat;
    let e9 = 2 * e8 + 1;
    lemma_power_mod_square_times(3nat, e8, n, x8, 222691nat, x9);
    let x10 = 84034nat;
    let e10 = 2 * e9;
    lemma_power_mod_square(3nat, e9, n, x9, 39999nat, x10);
    let x11 = 84868nat;
    let e11 = 2 * e10 + 1;
    lemma_power_mod_square_times(3nat, e10, n, x10, 176200nat, x11);
    let x12 = 19559nat;
    let e12 = 2 * e11;
    lemma_power_mod_square(3nat, e11, n, x11, 59905nat, x12);
    let x13 = 39458nat;
    let e13 = 2 * e12 + 1;
    lemma_power_mod_square_times(3nat, e12, n, x12, 9545nat, x13);
    let x14 = 36647nat;
    let e14 = 2 * e13;
    lemma_power_mod_square(3nat, e13, n, x13, 12949nat, x14);
    let x15 = 120232nat;
    let e15 = 2 * e14;
    lemma_power_mod_square(3nat, e14, n, x14, 11169nat, x15);
}

proof fn lemma_power_120233_over_2()
    ensures
        power_mod(3nat, 60116nat, 120233nat) == 120232nat,
{
    lemma_power_mod_first(3nat, 120233nat);
    lemma_power_120233_over_2_part_0();
}

proof fn lemma_power_120233_over_7_part_0()
    requires
        power_mod(3nat, 1nat, 120233nat) == 3nat,
    ensures
        power_mod(3nat, 17176nat, 120233nat) == 41163nat,
{
    let n = 120233nat;
    let e0 = 1nat;
    let x0 = 3nat;
    let x1 = 9nat;
    let e1 = 2 * e0;
    lemma_power_mod_square(3nat, e0, n, x0, 0nat, x1);
    let x2 = 81nat;
    let e2 = 2 * e1;
    lemma_power_mod_square(3nat, e1, n, x1, 0nat, x2);
    let x3 = 6561nat;
    let e3 = 2 * e2;
    lemma_power_mod_square(3nat, e2, n, x2, 0nat, x3);
    let x4 = 3307nat;
    let e4 = 2 * e3;
    lemma_power_mod_square(3nat, e3, n, x3, 358nat, x4);
    let x5 = 105371nat;
    let e5 = 2 * e4 + 1;
    lemma_power_mod_square_times(3nat, e4, n, x4, 272nat, x5);
    let x6 = 33069nat;
    let e6 = 2 * e5 + 1;
    lemma_power_mod_square_times(3nat, e5, n, x5, 277038nat, x6);
    let x7 = 39626nat;
    let e7 = 2 * e6;
    lemma_power_mod_square(3nat, e6, n, x6, 9095nat, x7);
    let x8 = 97129nat;
    let e8 = 2 * e7;
    lemma_power_mod_square(3nat, e7, n, x7, 13059nat, x8);
    let x9 = 80529nat;
    let e9 = 2 * e8;
    lemma_power_mod_square(3nat, e8, n, x8, 78464nat, x9);
    let x10 = 98259nat;
    let e10 = 2 * e9 + 1;
    lemma_power_mod_square_times(3nat, e9, n, x9, 161808nat, x10);
    let x11 = 2844nat;
    let e11 = 2 * e10 + 1;
    lemma_power_mod_square_times(3nat, e10, n, x10, 240903nat, x11);
    let x12 = 32725nat;
    let e12 = 2 * e11;
    lemma_power_mod_square(3nat, e11, n, x11, 67nat, x12);
    let x13 = 10294nat;
    let e13 = 2 * e12;
    lemma_power_mod_square(3nat, e12, n, x12, 8907nat, x13);
    let x14 = 41163nat;
    let e14 = 2 * e13;
    lemma_power_mod_square(3nat, e13, n, x13, 881nat, x14);
}

proof fn lemma_power_120233_over_7()
    ensures
        power_mod(3nat, 17176nat, 120233nat) == 41163nat,
{
    lemma_power_mod_first(3nat, 120233nat);
    lemma_power_120233_over_7_part_0();
}

proof fn lemma_power_120233_over_19_part_0()
    requires
        power_mod(3nat, 1nat, 120233nat) == 3nat,
    ensures
        power_mod(3nat, 6328nat, 120233nat) == 61639nat,
{
    let n = 120233nat;
    let e0 = 1nat;
    let x0 = 3nat;
    let x1 = 27nat;
    let e1 = 2 * e0 + 1;
    lemma_power_mod_square_times(3nat, e0, n, x0, 0nat, x1);
    let x2 = 729nat;
    let e2 = 2 * e1;
    lemma_power_mod_square(3nat, e1, n, x1, 0nat, x2);
    let x3 = 50509nat;
    let e3 = 2 * e2;
    lemma_power_mod_square(3nat, e2, n, x2, 4nat, x3);
    let x4 = 55287nat;
    let e4 = 2 * e3;
    lemma_power_mod_square(3nat, e3, n, x3, 21218nat, x4);
    let x5 = 26663nat;
    let e5 = 2 * e4 + 1;
    lemma_power_mod_square_times(3nat, e4, n, x4, 76268nat, x5);
    let x6 = 98073nat;
    let e6 = 2 * e5;
    lemma_power_mod_square(3nat, e5, n, x5, 5912nat, x6);
    let x7 = 102084nat;
    let e7 = 2 * e6 + 1;
    lemma_power_mod_square_times(3nat, e6, n, x6, 239991nat, x7);
    let x8 = 83809nat;
    let e8 = 2 * e7 + 1;
    lemma_power_mod_square_times(3nat, e7, n, x7, 260023nat, x8);
    let x9 = 50329nat;
    let e9 = 2 * e8 + 1;
    lemma_power_mod_square_times(3nat, e8, n, x8, 175258nat, x9);
    let x10 = 59630nat;
    let e10 = 2 * e9;
    lemma_power_mod_square(3nat, e9, n, x9, 21067nat, x10);
    let x11 = 86391nat;
    let e11 = 2 * e10;
    lemma_power_mod_square(3nat, e10, n, x10, 29573nat, x11);
    let x12 = 61639nat;
    let e12 = 2 * e11;
    lemma_power_mod_square(3nat, e11, n, x11, 62074nat, x12);
}

proof fn lemma_power_120233_over_19()
    ensures
        power_mod(3nat, 6328nat, 120233nat) == 61639nat,
{
    lemma_power_mod_first(3nat, 120233nat);
    lemma_power_120233_over_19_part_0();
}

proof fn lemma_power_120233_over_113_part_0()
    requires
        power_mod(3nat, 1nat, 120233nat) == 3nat,
    ensures
        power_mod(3nat, 1064nat, 120233nat) == 80142nat,
{
    let n = 120233nat;
    let e0 = 1nat;
    let x0 = 3nat;
    let x1 = 9nat;
    let e1 = 2 * e0;
    lemma_power_mod_square(3nat, e0, n, x0, 0nat, x1);
    let x2 = 81nat;
    let e2 = 2 * e1;
    lemma_power_mod_square(3nat, e1, n, x1, 0nat, x2);
    let x3 = 6561nat;
    let e3 = 2 * e2;
    lemma_power_mod_square(3nat, e2, n, x2, 0nat, x3);
    let x4 = 3307nat;
    let e4 = 2 * e3;
    lemma_power_mod_square(3nat, e3, n, x3, 358nat, x4);
    let x5 = 105371nat;
    let e5 = 2 * e4 + 1;
    lemma_power_mod_square_times(3nat, e4, n, x4, 272nat, x5);
    let x6 = 11023nat;
    let e6 = 2 * e5;
    lemma_power_mod_square(3nat, e5, n, x5, 92346nat, x6);
    let x7 = 93364nat;
    let e7 = 2 * e6 + 1;
    lemma_power_mod_square_times(3nat, e6, n, x6, 3031nat, x7);
    let x8 = 64229nat;
    let e8 = 2 * e7;
    lemma_power_mod_square(3nat, e7, n, x7, 72499nat, x8);
    let x9 = 49978nat;
    let e9 = 2 * e8;
    lemma_power_mod_square(3nat, e8, n, x8, 34311nat, x9);
    let x10 = 80142nat;
    let e10 = 2 * e9;
    lemma_power_mod_square(3nat, e9, n, x9, 20774nat, x10);
}

proof fn lemma_power_120233_over_113()
    ensures
        power_mod(3nat, 1064nat, 120233nat) == 80142nat,
{
    lemma_power_mod_first(3nat, 120233nat);
    lemma_power_120233_over_113_part_0();
}

proof fn lemma_certificate_120233()
    ensures
        is_certificate(120233nat, 3nat, seq![2nat, 2nat, 2nat, 7nat, 19nat, 113nat]),
{
    let n = 120233nat;
    let factors = seq![2nat, 2nat, 2nat, 7nat, 19nat, 113nat];
    lemma_small_primes();
    lemma_small_primes();
    lemma_prime_19();
    lemma_prime_113();
    lemma_power_120233_over_2();
    lemma_fundamental_div_mod_converse(120232int, 2int, 60116int, 0);
    lemma_power_120233_over_7();
    lemma_fundamental_div_mod_converse(120232int, 7int, 17176int, 0);
    lemma_power_120233_over_19();
    lemma_fundamental_div_mod_converse(120232int, 19int, 6328int, 0);
    lemma_power_120233_over_113();
    lemma_fundamental_div_mod_converse(120232int, 113int, 1064int, 0);
    lemma_power_mod_square(3nat, 60116nat, n, 120232nat, 120231nat, 1);
    let f0 = Seq::<nat>::empty();
    lemma_product_push(f0, 2nat, 1nat);
    let f1 = f0.push(2nat);
    lemma_product_push(f1, 2nat, 2nat);
    let f2 = f1.push(2nat);
    lemma_product_push(f2, 2nat, 4nat);
    let f3 = f2.push(2nat);
    lemma_product_push(f3, 7nat, 8nat);
    let f4 = f3.push(7nat);
    lemma_product_push(f4, 19nat, 56nat);
    let f5 = f4.push(19nat);
    lemma_product_push(f5, 113nat, 1064nat);
    let f6 = f5.push(113nat);
    assert(factors =~= f6);
    assert forall|j: int| 0 <= j < factors.len() implies is_prime(#[trigger] factors[j])
        && power_mod(3nat, ((n - 1) / factors[j] as int) as nat, n) != 1 by {
        if j == 0 {
        } else if j == 1 {
        } else if j == 2 {
        } else if j == 3 {
        } else if j == 4 {
        } else if j == 5 {
        }
    }
}

/// 120233 is prime.
pub(crate) proof fn lemma_prime_120233()
    ensures
        is_prime(120233nat),
{
    lemma_certificate_120233();
    lemma_certified_prime(120233nat, 3nat, seq![2nat, 2nat, 2nat, 7nat, 19nat, 113nat]);
}

proof fn lemma_power_305873_over_2_part_0()
    requires
        power_mod(3nat, 1nat, 305873nat) == 3nat,
    ensures
        power_mod(3nat, 152936nat, 305873nat) == 305872nat,
{
    let n = 305873nat;
    let e0 = 1nat;
    let x0 = 3nat;
    let x1 = 9nat;
    let e1 = 2 * e0;
    lemma_power_mod_square(3nat, e0, n, x0, 0nat, x1);
    let x2 = 81nat;
    let e2 = 2 * e1;
    lemma_power_mod_square(3nat, e1, n, x1, 0nat, x2);
    let x3 = 19683nat;
    let e3 = 2 * e2 + 1;
    lemma_power_mod_square_times(3nat, e2, n, x2, 0nat, x3);
    let x4 = 185271nat;
    let e4 = 2 * e3;
    lemma_power_mod_square(3nat, e3, n, x3, 1266nat, x4);
    let x5 = 214397nat;
    let e5 = 2 * e4 + 1;
    lemma_power_mod_square_times(3nat, e4, n, x4, 336662nat, x5);
    let x6 = 90915nat;
    let e6 = 2 * e5;
    lemma_power_mod_square(3nat, e5, n, x5, 150278nat, x6);
    let x7 = 99311nat;
    let e7 = 2 * e6 + 1;
    lemma_power_mod_square_times(3nat, e6, n, x6, 81068nat, x7);
    let x8 = 105709nat;
    let e8 = 2 * e7;
    lemma_power_mod_square(3nat, e7, n, x7, 32244nat, x8);
    let x9 = 108989nat;
    let e9 = 2 * e8 + 1;
    lemma_power_mod_square_times(3nat, e8, n, x8, 109598nat, x9);
    let x10 = 24166nat;
    let e10 = 2 * e9;
    lemma_power_mod_square(3nat, e9, n, x9, 38835nat, x10);
    let x11 = 251997nat;
    let e11 = 2 * e10 + 1;
    lemma_power_mod_square_times(3nat, e10, n, x10, 5727nat, x11);
    let x12 = 277564nat;
    let e12 = 2 * e11 + 1;
    lemma_power_mod_square_times(3nat, e11, n, x11, 622831nat, x12);
    let x13 = 12221nat;
    let e13 = 2 * e12;
    lemma_power_mod_square(3nat, e12, n, x12, 251875nat, x13);
    let x14 = 260451nat;
    let e14 = 2 * e13 + 1;
    lemma_power_mod_square_times(3nat, e13, n, x13, 1464nat, x14);
    let x15 = 44699nat;
    let e15 = 2 * e14;
    lemma_power_mod_square(3nat, e14, n, x14, 221774nat, x15);
    let x16 = 38165nat;
    let e16 = 2 * e15;
    lemma_power_mod_square(3nat, e15, n, x15, 6532nat, x16);
    let x17 = 305872nat;
    let e17 = 2 * e16;
    lemma_power_mod_square(3nat, e16, n, x16, 4761nat, x17);
}

proof fn lemma_power_305873_over_2()
    ensures
        power_mod(3nat, 152936nat, 305873nat) == 305872nat,
{
    lemma_power_mod_first(3nat, 305873nat);
    lemma_power_305873_over_2_part_0();
}

proof fn lemma_power_305873_over_7_part_0()
    requires
        power_mod(3nat, 1nat, 305873nat) == 3nat,
    ensures
        power_mod(3nat, 43696nat, 305873nat) == 145208nat,
{
    let n = 305873nat;
    let e0 = 1nat;
    let x0 = 3nat;
    let x1 = 9nat;
    let e1 = 2 * e0;
    lemma_power_mod_square(3nat, e0, n, x0, 0nat, x1);
    let x2 = 243nat;
    let e2 = 2 * e1 + 1;
    lemma_power_mod_square_times(3nat, e1, n, x1, 0nat, x2);
    let x3 = 59049nat;
    let e3 = 2 * e2;
    lemma_power_mod_square(3nat, e2, n, x2, 0nat, x3);
    let x4 = 108349nat;
    let e4 = 2 * e3 + 1;
    lemma_power_mod_square_times(3nat, e3, n, x3, 34198nat, x4);
    let x5 = 100061nat;
    let e5 = 2 * e4;
    lemma_power_mod_square(3nat, e4, n, x4, 38380nat, x5);
    let x6 = 188436nat;
    let e6 = 2 * e5 + 1;
    lemma_power_mod_square_times(3nat, e5, n, x5, 98199nat, x6);
    let x7 = 247145nat;
    let e7 = 2 * e6;
    lemma_power_mod_square(3nat, e6, n, x6, 116087nat, x7);
    let x8 = 167981nat;
    let e8 = 2 * e7 + 1;
    lemma_power_mod_square_times(3nat, e7, n, x7, 599078nat, x8);
    let x9 = 220365nat;
    let e9 = 2 * e8;
    lemma_power_mod_square(3nat, e8, n, x8, 92252nat, x9);
    let x10 = 89616nat;
    let e10 = 2 * e9 + 1;
    lemma_power_mod_square_times(3nat, e9, n, x9, 476283nat, x10);
    let x11 = 77904nat;
    let e11 = 2 * e10 + 1;
    lemma_power_mod_square_times(3nat, e10, n, x10, 78768nat, x11);
    let x12 = 207023nat;
    let e12 = 2 * e11;
    lemma_power_mod_square(3nat, e11, n, x11, 19841nat, x12);
    let x13 = 209515nat;
    let e13 = 2 * e12;
    lemma_power_mod_square(3nat, e12, n, x12, 140118nat, x13);
    let x14 = 89249nat;
    let e14 = 2 * e13;
    lemma_power_mod_square(3nat, e13, n, x13, 143512nat, x14);
    let x15 = 145208nat;
    let e15 = 2 * e14;
    lemma_power_mod_square(3nat, e14, n, x14, 26041nat, x15);
}

proof fn lemma_power_305873_over_7()
    ensures
        power_mod(3nat, 43696nat, 305873nat) == 145208nat,
{
    lemma_power_mod_first(3nat, 305873nat);
    lemma_power_305873_over_7_part_0();
}

proof fn lemma_power_305873_over_2731_part_0()
    requires
        power_mod(3nat, 1nat, 305873nat) == 3nat,
    ensures
        power_mod(3nat, 112nat, 305873nat) == 133117nat,
{
    let n = 305873nat;
    let e0 = 1nat;
    let x0 = 3nat;
    let x1 = 27nat;
    let e1 = 2 * e0 + 1;
    lemma_power_mod_square_times(3nat, e0, n, x0, 0nat, x1);
    let x2 = 2187nat;
    let e2 = 2 * e1 + 1;
    lemma_power_mod_square_times(3nat, e1, n, x1, 0nat, x2);
    let x3 = 194874nat;
    let e3 = 2 * e2;
    lemma_power_mod_square(3nat, e2, n, x2, 15nat, x3);
    let x4 = 213561nat;
    let e4 = 2 * e3;
    lemma_power_mod_square(3nat, e3, n, x3, 124155nat, x4);
    let x5 = 189437nat;
    let e5 = 2 * e4;
    lemma_power_mod_square(3nat, e4, n, x4, 149108nat, x5);
    let x6 = 133117nat;
    let e6 = 2 * e5;
    lemma_power_mod_square(3nat, e5, n, x5, 117324nat, x6);
}

proof fn lemma_power_305873_over_2731()
    ensures
        power_mod(3nat, 112nat, 305873nat) == 133117nat,
{
    lemma_power_mod_first(3nat, 305873nat);
    lemma_power_305873_over_2731_part_0();
}

proof fn lemma_certificate_305873()
    ensures
        is_certificate(305873nat, 3nat, seq![2nat, 2nat, 2nat, 2nat, 7nat, 2731nat]),
{
    let n = 305873nat;
    let factors = seq![2nat, 2nat, 2nat, 2nat, 7nat, 2731nat];
    lemma_small_primes();
    lemma_small_primes();
    lemma_prime_2731();
    lemma_power_305873_over_2();
    lemma_fundamental_div_mod_converse(305872int, 2int, 152936int, 0);
    lemma_power_305873_over_7();
    lemma_fundamental_div_mod_converse(305872int, 7int, 43696int, 0);
    lemma_power_305873_over_2731();
    lemma_fundamental_div_mod_converse(305872int, 2731int, 112int, 0);
    lemma_power_mod_square(3nat, 152936nat, n, 305872nat, 305871nat, 1);
    let f0 = Seq::<nat>::empty();
    lemma_product_push(f0, 2nat, 1nat);
    let f1 = f0.push(2nat);
    lemma_product_push(f1, 2nat, 2nat);
    let f2 = f1.push(2nat);
    lemma_product_push(f2, 2nat, 4nat);
    let f3 = f2.push(2nat);
    lemma_product_push(f3, 2nat, 8nat);
    let f4 = f3.push(2nat);
    lemma_product_push(f4, 7nat, 16nat);
    let f5 = f4.push(7nat);
    lemma_product_push(f5, 2731nat, 112nat);
    let f6 = f5.push(2731nat);
    assert(factors =~= f6);
    assert forall|j: int| 0 <= j < factors.len() implies is_prime(#[trigger] factors[j])
        && power_mod(3nat, ((n - 1) / factors[j] as int) as nat, n) != 1 by {
        if j == 0 {
        } else if j == 1 {
        } else if j == 2 {
        } else if j == 3 {
        } else if j == 4 {
        } else if j == 5 {
        }
    }
}

/// 305873 is prime.
pub(crate) proof fn lemma_prime_305873()
    ensures
        is_prime(305873nat),
{
    lemma_certificate_305873();
    lemma_certified_prime(305873nat, 3nat, seq![2nat, 2nat, 2nat, 2nat, 7nat, 2731nat]);
}

proof fn lemma_power_1206781_over_2_part_0()
    requires
        power_mod(10nat, 1nat, 0x1269fdnat) == 10nat,
    ensures
        power_mod(10nat, 603390nat, 0x1269fdnat) == 0x1269fcnat,
{
    let n = 0x1269fdnat;
    let e0 = 1nat;
    let x0 = 10nat;
    let x1 = 100nat;
    let e1 = 2 * e0;
    lemma_power_mod_square(10nat, e0, n, x0, 0nat, x1);
    let x2 = 10000nat;
    let e2 = 2 * e1;
    lemma_power_mod_square(10nat, e1, n, x1, 0nat, x2);
    let x3 = 785332nat;
    let e3 = 2 * e2 + 1;
    lemma_power_mod_square_times(10nat, e2, n, x2, 828nat, x3);
    let x4 = 404897nat;
    let e4 = 2 * e3;
    lemma_power_mod_square(10nat, e3, n, x3, 511067nat, x4);
    let x5 = 381759nat;
    let e5 = 2 * e4;
    lemma_power_mod_square(10nat, e4, n, x4, 135850nat, x5);
    let x6 = 96635nat;
    let e6 = 2 * e5 + 1;
    lemma_power_mod_square_times(10nat, e5, n, x5, 0x126d7bnat, x6);
    let x7 = 104908nat;
    let e7 = 2 * e6 + 1;
    lemma_power_mod_square_times(10nat, e6, n, x6, 77382nat, x7);
    let x8 = 0x100f6dnat;
    let e8 = 2 * e7;
    lemma_power_mod_square(10nat, e7, n, x7, 9119nat, x8);
    let x9 = 884904nat;
    let e9 = 2 * e8 + 1;
    lemma_power_mod_square_times(10nat, e8, n, x8, 0x8c12danat, x9);
    let x10 = 240717nat;
    let e10 = 2 * e9;
    lemma_power_mod_square(10nat, e9, n, x9, 648879nat, x10);
    let x11 = 0x108bd6nat;
    let e11 = 2 * e10;
    lemma_power_mod_square(10nat, e10, n, x10, 48015nat, x11);
    let x12 = 807530nat;
    let e12 = 2 * e11 + 1;
    lemma_power_mod_square_times(10nat, e11, n, x11, 0x94add6nat, x12);
    let x13 = 722730nat;
    let e13 = 2 * e12 + 1;
    lemma_power_mod_square_times(10nat, e12, n, x12, 0x527416nat, x13);
    let x14 = 299497nat;
    let e14 = 2 * e13 + 1;
    lemma_power_mod_square_times(10nat, e13, n, x13, 0x420babnat, x14);
    let x15 = 0x10e70cnat;
    let e15 = 2 * e14 + 1;
    lemma_power_mod_square_times(10nat, e14, n, x14, 743286nat, x15);
    let x16 = 736161nat;
    let e16 = 2 * e15 + 1;
    lemma_power_mod_square_times(10nat, e15, n, x15, 0x9b26abnat, x16);
    let x17 = 125518nat;
    let e17 = 2 * e16 + 1;
    lemma_power_mod_square_times(10nat, e16, n, x16, 0x4485ecnat, x17);
    let x18 = 10128nat;
    let e18 = 2 * e17 + 1;
    lemma_power_mod_square_times(10nat, e17, n, x17, 130552nat, x18);
    let x19 = 0x1269fcnat;
    let e19 = 2 * e18;
    lemma_power_mod_square(10nat, e18, n, x18, 84nat, x19);
}

proof fn lemma_power_1206781_over_2()
    ensures
        power_mod(10nat, 603390nat, 0x1269fdnat) == 0x1269fcnat,
{
    lemma_power_mod_first(10nat, 0x1269fdnat);
    lemma_power_1206781_over_2_part_0();
}

proof fn lemma_power_1206781_over_3_part_0()
    requires
        power_mod(10nat, 1nat, 0x1269fdnat) == 10nat,
    ensures
        power_mod(10nat, 402260nat, 0x1269fdnat) == 608272nat,
{
    let n = 0x1269fdnat;
    let e0 = 1nat;
    let x0 = 10nat;
    let x1 = 1000nat;
    let e1 = 2 * e0 + 1;
    lemma_power_mod_square_times(10nat, e0, n, x0, 0nat, x1);
    let x2 = 0xf4240nat;
    let e2 = 2 * e1;
    lemma_power_mod_square(10nat, e1, n, x1, 0nat, x2);
    let x3 = 924350nat;
    let e3 = 2 * e2;
    lemma_power_mod_square(10nat, e2, n, x2, 828650nat, x3);
    let x4 = 252442nat;
    let e4 = 2 * e3;
    lemma_power_mod_square(10nat, e3, n, x3, 708018nat, x4);
    let x5 = 0x11dcc3nat;
    let e5 = 2 * e4 + 1;
    lemma_power_mod_square_times(10nat, e4, n, x4, 528073nat, x5);
    let x6 = 167893nat;
    let e6 = 2 * e5;
    lemma_power_mod_square(10nat, e5, n, x5, 0x1153c4nat, x6);
    let x7 = 68851nat;
    let e7 = 2 * e6;
    lemma_power_mod_square(10nat, e6, n, x6, 23358nat, x7);
    let x8 = 224433nat;
    let e8 = 2 * e7;
    lemma_power_mod_square(10nat, e7, n, x7, 3928nat, x8);
    let x9 = 979738nat;
    let e9 = 2 * e8 + 1;
    lemma_power_mod_square_times(10nat, e8, n, x8, 417392nat, x9);
    let x10 = 286873nat;
    let e10 = 2 * e9 + 1;
    lemma_power_mod_square_times(10nat, e9, n, x9, 0x795ebbnat, x10);
    let x11 = 894615nat;
    let e11 = 2 * e10;
    lemma_power_mod_square(10nat, e10, n, x10, 68194nat, x11);
    let x12 = 458060nat;
    let e12 = 2 * e11 + 1;
    lemma_power_mod_square_times(10nat, e11, n, x11, 0x653236nat, x12);
    let x13 = 778254nat;
    let e13 = 2 * e12;
    lemma_power_mod_square(10nat, e12, n, x12, 173866nat, x13);
    let x14 = 76714nat;
    let e14 = 2 * e13 + 1;
    lemma_power_mod_square_times(10nat, e13, n, x13, 0x4c9556nat, x14);
    let x15 = 773640nat;
    let e15 = 2 * e14;
    lemma_power_mod_square(10nat, e14, n, x14, 4876nat, x15);
    let x16 = 38189nat;
    let e16 = 2 * e15 + 1;
    lemma_power_mod_square_times(10nat, e15, n, x15, 0x4bad8fnat, x16);
    let x17 = 608273nat;
    let e17 = 2 * e16;
    lemma_power_mod_square(10nat, e16, n, x16, 1208nat, x17);
    let x18 = 608272nat;
    let e18 = 2 * e17;
    lemma_power_mod_square(10nat, e17, n, x17, 306597nat, x18);
}

proof fn lemma_power_1206781_over_3()
    ensures
        power_mod(10nat, 402260nat, 0x1269fdnat) == 608272nat,
{
    lemma_power_mod_first(10nat, 0x1269fdnat);
    lemma_power_1206781_over_3_part_0();
}

proof fn lemma_power_1206781_over_5_part_0()
    requires
        power_mod(10nat, 1nat, 0x1269fdnat) == 10nat,
    ensures
        power_mod(10nat, 241356nat, 0x1269fdnat) == 0x1041c7nat,
{
    let n = 0x1269fdnat;
    let e0 = 1nat;
    let x0 = 10nat;
    let x1 = 1000nat;
    let e1 = 2 * e0 + 1;
    lemma_power_mod_square_times(10nat, e0, n, x0, 0nat, x1);
    let x2 = 345752nat;
    let e2 = 2 * e1 + 1;
    lemma_power_mod_square_times(10nat, e1, n, x1, 8nat, x2);
    let x3 = 719644nat;
    let e3 = 2 * e2;
    lemma_power_mod_square(10nat, e2, n, x2, 99060nat, x3);
    let x4 = 755042nat;
    let e4 = 2 * e3 + 1;
    lemma_power_mod_square_times(10nat, e3, n, x3, 0x417b96nat, x4);
    let x5 = 250240nat;
    let e5 = 2 * e4;
    lemma_power_mod_square(10nat, e4, n, x4, 472404nat, x5);
    let x6 = 708319nat;
    let e6 = 2 * e5 + 1;
    lemma_power_mod_square_times(10nat, e5, n, x5, 518901nat, x6);
    let x7 = 0xff8e7nat;
    let e7 = 2 * e6 + 1;
    lemma_power_mod_square_times(10nat, e6, n, x6, 0x3f701fnat, x7);
    let x8 = 0x114188nat;
    let e8 = 2 * e7 + 1;
    lemma_power_mod_square_times(10nat, e7, n, x7, 0x8a8b0anat, x8);
    let x9 = 988517nat;
    let e9 = 2 * e8;
    lemma_power_mod_square(10nat, e8, n, x8, 0x102bb7nat, x9);
    let x10 = 455838nat;
    let e10 = 2 * e9 + 1;
    lemma_power_mod_square_times(10nat, e9, n, x9, 0x7b8e0cnat, x10);
    let x11 = 232181nat;
    let e11 = 2 * e10 + 1;
    lemma_power_mod_square_times(10nat, e10, n, x10, 0x1a45efnat, x11);
    let x12 = 0x10edf3nat;
    let e12 = 2 * e11;
    lemma_power_mod_square(10nat, e11, n, x11, 44670nat, x12);
    let x13 = 560717nat;
    let e13 = 2 * e12;
    lemma_power_mod_square(10nat, e12, n, x12, 0xf908cnat, x13);
    let x14 = 554123nat;
    let e14 = 2 * e13 + 1;
    lemma_power_mod_square_times(10nat, e13, n, x13, 0x27c0fbnat, x14);
    let x15 = 275919nat;
    let e15 = 2 * e14 + 1;
    lemma_power_mod_square_times(10nat, e14, n, x14, 0x26d307nat, x15);
    let x16 = 308395nat;
    let e16 = 2 * e15;
    lemma_power_mod_square(10nat, e15, n, x15, 63086nat, x16);
    let x17 = 0x1041c7nat;
    let e17 = 2 * e16;
    lemma_power_mod_square(10nat, e16, n, x16, 78810nat, x17);
}

proof fn lemma_power_1206781_over_5()
    ensures
        power_mod(10nat, 241356nat, 0x1269fdnat) == 0x1041c7nat,
{
    lemma_power_mod_first(10nat, 0x1269fdnat);
    lemma_power_1206781_over_5_part_0();
}

proof fn lemma_power_1206781_over_20113_part_0()
    requires
        power_mod(10nat, 1nat, 0x1269fdnat) == 10nat,
    ensures
        power_mod(10nat, 60nat, 0x1269fdnat) == 888380nat,
{
    let n = 0x1269fdnat;
    let e0 = 1nat;
    let x0 = 10nat;
    let x1 = 1000nat;
    let e1 = 2 * e0 + 1;
    lemma_power_mod_square_times(10nat, e0, n, x0, 0nat, x1);
    let x2 = 345752nat;
    let e2 = 2 * e1 + 1;
    lemma_power_mod_square_times(10nat, e1, n, x1, 8nat, x2);
    let x3 = 0x11bd27nat;
    let e3 = 2 * e2 + 1;
    lemma_power_mod_square_times(10nat, e2, n, x2, 990605nat, x3);
    let x4 = 309734nat;
    let e4 = 2 * e3;
    lemma_power_mod_square(10nat, e3, n, x3, 0x1116a7nat, x4);
    let x5 = 888380nat;
    let e5 = 2 * e4;
    lemma_power_mod_square(10nat, e4, n, x4, 79496nat, x5);
}

proof fn lemma_power_1206781_over_20113()
    ensures
        power_mod(10nat, 60nat, 0x1269fdnat) == 888380nat,
{
    lemma_power_mod_first(10nat, 0x1269fdnat);
    lemma_power_1206781_over_20113_part_0();
}

proof fn lemma_certificate_1206781()
    ensures
        is_certificate(0x1269fdnat, 10nat, seq![2nat, 2nat, 3nat, 5nat, 20113nat]),
{
    let n = 0x1269fdnat;
    let factors = seq![2nat, 2nat, 3nat, 5nat, 20113nat];
    lemma_small_primes();
    lemma_small_primes();
    lemma_small_primes();
    lemma_prime_20113();
    lemma_power_1206781_over_2();
    lemma_fundamental_div_mod_converse(0x1269fcint, 2int, 603390int, 0);
    lemma_power_1206781_over_3();
    lemma_fundamental_div_mod_converse(0x1269fcint, 3int, 402260int, 0);
    lemma_power_1206781_over_5();
    lemma_fundamental_div_mod_converse(0x1269fcint, 5int, 241356int, 0);
    lemma_power_1206781_over_20113();
    lemma_fundamental_div_mod_converse(0x1269fcint, 20113int, 60int, 0);
    lemma_power_mod_square(10nat, 603390nat, n, 0x1269fcnat, 0x1269fbnat, 1);
    let f0 = Seq::<nat>::empty();
    lemma_product_push(f0, 2nat, 1nat);
    let f1 = f0.push(2nat);
    lemma_product_push(f1, 2nat, 2nat);
    let f2 = f1.push(2nat);
    lemma_product_push(f2, 3nat, 4nat);
    let f3 = f2.push(3nat);
    lemma_product_push(f3, 5nat, 12nat);
    let f4 = f3.push(5nat);
    lemma_product_push(f4, 20113nat, 60nat);
    let f5 = f4.push(20113nat);
    assert(factors =~= f5);
    assert forall|j: int| 0 <= j < factors.len() implies is_prime(#[trigger] factors[j])
        && power_mod(10nat, ((n - 1) / factors[j] as int) as nat, n) != 1 by {
        if j == 0 {
        } else if j == 1 {
        } else if j == 2 {
        } else if j == 3 {
        } else if j == 4 {
        }
    }
}

/// 1206781 is prime.
pub(crate) proof fn lemma_prime_1206781()
    ensures
        is_prime(0x1269fdnat),
{
    lemma_certificate_1206781();
    lemma_certified_prime(0x1269fdnat, 10nat, seq![2nat, 2nat, 3nat, 5nat, 20113nat]);
}

proof fn lemma_power_1627771_over_2_part_0()
    requires
        power_mod(3nat, 1nat, 0x18d67bnat) == 3nat,
    ensures
        power_mod(3nat, 813885nat, 0x18d67bnat) == 0x18d67anat,
{
    let n = 0x18d67bnat;
    let e0 = 1nat;
    let x0 = 3nat;
    let x1 = 27nat;
    let e1 = 2 * e0 + 1;
    lemma_power_mod_square_times(3nat, e0, n, x0, 0nat, x1);
    let x2 = 729nat;
    let e2 = 2 * e1;
    lemma_power_mod_square(3nat, e1, n, x1, 0nat, x2);
    let x3 = 531441nat;
    let e3 = 2 * e2;
    lemma_power_mod_square(3nat, e2, n, x2, 0nat, x3);
    let x4 = 0x16e8abnat;
    let e4 = 2 * e3;
    lemma_power_mod_square(3nat, e3, n, x3, 173506nat, x4);
    let x5 = 275905nat;
    let e5 = 2 * e4 + 1;
    lemma_power_mod_square_times(3nat, e4, n, x4, 0x3f639enat, x5);
    let x6 = 946859nat;
    let e6 = 2 * e5 + 1;
    lemma_power_mod_square_times(3nat, e5, n, x5, 140296nat, x6);
    let x7 = 0x170a9bnat;
    let e7 = 2 * e6;
    lemma_power_mod_square(3nat, e6, n, x6, 550778nat, x7);
    let x8 = 0x16c163nat;
    let e8 = 2 * e7 + 1;
    lemma_power_mod_square_times(3nat, e7, n, x7, 0x401ff8nat, x8);
    let x9 = 0x138335nat;
    let e9 = 2 * e8;
    lemma_power_mod_square(3nat, e8, n, x8, 0x14d8fcnat, x9);
    let x10 = 33474nat;
    let e10 = 2 * e9 + 1;
    lemma_power_mod_square_times(3nat, e9, n, x9, 0x2dfcabnat, x10);
    let x11 = 178913nat;
    let e11 = 2 * e10 + 1;
    lemma_power_mod_square_times(3nat, e10, n, x10, 2065nat, x11);
    let x12 = 0x14f1d1nat;
    let e12 = 2 * e11;
    lemma_power_mod_square(3nat, e11, n, x11, 19664nat, x12);
    let x13 = 35713nat;
    let e13 = 2 * e12;
    lemma_power_mod_square(3nat, e12, n, x12, 0x11a960nat, x13);
    let x14 = 993257nat;
    let e14 = 2 * e13 + 1;
    lemma_power_mod_square_times(3nat, e13, n, x13, 2350nat, x14);
    let x15 = 61107nat;
    let e15 = 2 * e14 + 1;
    lemma_power_mod_square_times(3nat, e14, n, x14, 0x1bbe80nat, x15);
    let x16 = 0x16f360nat;
    let e16 = 2 * e15 + 1;
    lemma_power_mod_square_times(3nat, e15, n, x15, 6881nat, x16);
    let x17 = 0x13889cnat;
    let e17 = 2 * e16 + 1;
    lemma_power_mod_square_times(3nat, e16, n, x16, 0x3f9eecnat, x17);
    let x18 = 235811nat;
    let e18 = 2 * e17;
    lemma_power_mod_square(3nat, e17, n, x17, 0xf5cb7nat, x18);
    let x19 = 0x18d67anat;
    let e19 = 2 * e18 + 1;
    lemma_power_mod_square_times(3nat, e18, n, x18, 102483nat, x19);
}

proof fn lemma_power_1627771_over_2()
    ensures
        power_mod(3nat, 813885nat, 0x18d67bnat) == 0x18d67anat,
{
    lemma_power_mod_first(3nat, 0x18d67bnat);
    lemma_power_1627771_over_2_part_0();
}

proof fn lemma_power_1627771_over_3_part_0()
    requires
        power_mod(3nat, 1nat, 0x18d67bnat) == 3nat,
    ensures
        power_mod(3nat, 542590nat, 0x18d67bnat) == 0x1370c6nat,
{
    let n = 0x18d67bnat;
    let e0 = 1nat;
    let x0 = 3nat;
    let x1 = 9nat;
    let e1 = 2 * e0;
    lemma_power_mod_square(3nat, e0, n, x0, 0nat, x1);
    let x2 = 81nat;
    let e2 = 2 * e1;
    lemma_power_mod_square(3nat, e1, n, x1, 0nat, x2);
    let x3 = 6561nat;
    let e3 = 2 * e2;
    lemma_power_mod_square(3nat, e2, n, x2, 0nat, x3);
    let x4 = 724675nat;
    let e4 = 2 * e3;
    lemma_power_mod_square(3nat, e3, n, x3, 26nat, x4);
    let x5 = 615731nat;
    let e5 = 2 * e4 + 1;
    lemma_power_mod_square_times(3nat, e4, n, x4, 967864nat, x5);
    let x6 = 520751nat;
    let e6 = 2 * e5;
    lemma_power_mod_square(3nat, e5, n, x5, 232910nat, x6);
    let x7 = 0x166075nat;
    let e7 = 2 * e6;
    lemma_power_mod_square(3nat, e6, n, x6, 166596nat, x7);
    let x8 = 0x154240nat;
    let e8 = 2 * e7;
    lemma_power_mod_square(3nat, e7, n, x7, 0x1428dbnat, x8);
    let x9 = 303530nat;
    let e9 = 2 * e8 + 1;
    lemma_power_mod_square_times(3nat, e8, n, x8, 0x369622nat, x9);
    let x10 = 750213nat;
    let e10 = 2 * e9 + 1;
    lemma_power_mod_square_times(3nat, e9, n, x9, 169797nat, x10);
    let x11 = 0x1071b5nat;
    let e11 = 2 * e10 + 1;
    lemma_power_mod_square_times(3nat, e10, n, x10, 0xfd3e2nat, x11);
    let x12 = 117351nat;
    let e12 = 2 * e11;
    lemma_power_mod_square(3nat, e11, n, x11, 713494nat, x12);
    let x13 = 943623nat;
    let e13 = 2 * e12 + 1;
    lemma_power_mod_square_times(3nat, e12, n, x12, 25380nat, x13);
    let x14 = 0x18500cnat;
    let e14 = 2 * e13 + 1;
    lemma_power_mod_square_times(3nat, e13, n, x13, 0x190a65nat, x14);
    let x15 = 0x151001nat;
    let e15 = 2 * e14 + 1;
    lemma_power_mod_square_times(3nat, e14, n, x14, 0x47655dnat, x15);
    let x16 = 248181nat;
    let e16 = 2 * e15 + 1;
    lemma_power_mod_square_times(3nat, e15, n, x15, 0x35954anat, x16);
    let x17 = 117905nat;
    let e17 = 2 * e16 + 1;
    lemma_power_mod_square_times(3nat, e16, n, x16, 113518nat, x17);
    let x18 = 0x1370c7nat;
    let e18 = 2 * e17 + 1;
    lemma_power_mod_square_times(3nat, e17, n, x17, 25620nat, x18);
    let x19 = 0x1370c6nat;
    let e19 = 2 * e18;
    lemma_power_mod_square(3nat, e18, n, x18, 997201nat, x19);
}

proof fn lemma_power_1627771_over_3()
    ensures
        power_mod(3nat, 542590nat, 0x18d67bnat) == 0x1370c6nat,
{
    lemma_power_mod_first(3nat, 0x18d67bnat);
    lemma_power_1627771_over_3_part_0();
}

proof fn lemma_power_1627771_over_5_part_0()
    requires
        power_mod(3nat, 1nat, 0x18d67bnat) == 3nat,
    ensures
        power_mod(3nat, 325554nat, 0x18d67bnat) == 528870nat,
{
    let n = 0x18d67bnat;
    let e0 = 1nat;
    let x0 = 3nat;
    let x1 = 9nat;
    let e1 = 2 * e0;
    lemma_power_mod_square(3nat, e0, n, x0, 0nat, x1);
    let x2 = 81nat;
    let e2 = 2 * e1;
    lemma_power_mod_square(3nat, e1, n, x1, 0nat, x2);
    let x3 = 19683nat;
    let e3 = 2 * e2 + 1;
    lemma_power_mod_square_times(3nat, e2, n, x2, 0nat, x3);
    let x4 = 32973nat;
    let e4 = 2 * e3 + 1;
    lemma_power_mod_square_times(3nat, e3, n, x3, 714nat, x4);
    let x5 = 0x12c81anat;
    let e5 = 2 * e4 + 1;
    lemma_power_mod_square_times(3nat, e4, n, x4, 2003nat, x5);
    let x6 = 698023nat;
    let e6 = 2 * e5 + 1;
    lemma_power_mod_square_times(3nat, e5, n, x5, 0x2a9b3fnat, x6);
    let x7 = 298412nat;
    let e7 = 2 * e6;
    lemma_power_mod_square(3nat, e6, n, x6, 299327nat, x7);
    let x8 = 0xf82a3nat;
    let e8 = 2 * e7 + 1;
    lemma_power_mod_square_times(3nat, e7, n, x7, 164119nat, x8);
    let x9 = 841239nat;
    let e9 = 2 * e8 + 1;
    lemma_power_mod_square_times(3nat, e8, n, x8, 0x1d0e8cnat, x9);
    let x10 = 0x11ccaanat;
    let e10 = 2 * e9 + 1;
    lemma_power_mod_square_times(3nat, e9, n, x9, 0x13e6cbnat, x10);
    let x11 = 0x18a0a3nat;
    let e11 = 2 * e10 + 1;
    lemma_power_mod_square_times(3nat, e10, n, x10, 0x26444bnat, x11);
    let x12 = 0x11f684nat;
    let e12 = 2 * e11;
    lemma_power_mod_square(3nat, e11, n, x11, 0x186b3fnat, x12);
    let x13 = 413199nat;
    let e13 = 2 * e12 + 1;
    lemma_power_mod_square_times(3nat, e12, n, x12, 0x26f913nat, x13);
    let x14 = 934630nat;
    let e14 = 2 * e13 + 1;
    lemma_power_mod_square_times(3nat, e13, n, x13, 314663nat, x14);
    let x15 = 0x143473nat;
    let e15 = 2 * e14;
    lemma_power_mod_square(3nat, e14, n, x14, 536643nat, x15);
    let x16 = 350562nat;
    let e16 = 2 * e15;
    lemma_power_mod_square(3nat, e15, n, x15, 0x106fa5nat, x16);
    let x17 = 782658nat;
    let e17 = 2 * e16 + 1;
    lemma_power_mod_square_times(3nat, e16, n, x16, 226494nat, x17);
    let x18 = 528870nat;
    let e18 = 2 * e17;
    lemma_power_mod_square(3nat, e17, n, x17, 376314nat, x18);
}

proof fn lemma_power_1627771_over_5()
    ensures
        power_mod(3nat, 325554nat, 0x18d67bnat) == 528870nat,
{
    lemma_power_mod_first(3nat, 0x18d67bnat);
    lemma_power_1627771_over_5_part_0();
}

proof fn lemma_power_1627771_over_29_part_0()
    requires
        power_mod(3nat, 1nat, 0x18d67bnat) == 3nat,
    ensures
        power_mod(3nat, 56130nat, 0x18d67bnat) == 366762nat,
{
    let n = 0x18d67bnat;
    let e0 = 1nat;
    let x0 = 3nat;
    let x1 = 27nat;
    let e1 = 2 * e0 + 1;
    lemma_power_mod_square_times(3nat, e0, n, x0, 0nat, x1);
    let x2 = 729nat;
    let e2 = 2 * e1;
    lemma_power_mod_square(3nat, e1, n, x1, 0nat, x2);
    let x3 = 0x1853d3nat;
    let e3 = 2 * e2 + 1;
    lemma_power_mod_square_times(3nat, e2, n, x2, 0nat, x3);
    let x4 = 0x166e81nat;
    let e4 = 2 * e3 + 1;
    lemma_power_mod_square_times(3nat, e3, n, x3, 0x477b8enat, x4);
    let x5 = 306304nat;
    let e5 = 2 * e4;
    lemma_power_mod_square(3nat, e4, n, x4, 0x144233nat, x5);
    let x6 = 398783nat;
    let e6 = 2 * e5 + 1;
    lemma_power_mod_square_times(3nat, e5, n, x5, 172915nat, x6);
    let x7 = 240877nat;
    let e7 = 2 * e6 + 1;
    lemma_power_mod_square_times(3nat, e6, n, x6, 293090nat, x7);
    let x8 = 0x164595nat;
    let e8 = 2 * e7;
    lemma_power_mod_square(3nat, e7, n, x7, 35644nat, x8);
    let x9 = 0x18a05fnat;
    let e9 = 2 * e8 + 1;
    lemma_power_mod_square_times(3nat, e8, n, x8, 0x3be9a4nat, x9);
    let x10 = 0x15ccd9nat;
    let e10 = 2 * e9;
    lemma_power_mod_square(3nat, e9, n, x9, 0x186ab8nat, x10);
    let x11 = 744710nat;
    let e11 = 2 * e10;
    lemma_power_mod_square(3nat, e10, n, x10, 0x132251nat, x11);
    let x12 = 10003nat;
    let e12 = 2 * e11;
    lemma_power_mod_square(3nat, e11, n, x11, 340707nat, x12);
    let x13 = 765978nat;
    let e13 = 2 * e12;
    lemma_power_mod_square(3nat, e12, n, x12, 61nat, x13);
    let x14 = 0x11523fnat;
    let e14 = 2 * e13 + 1;
    lemma_power_mod_square_times(3nat, e13, n, x13, 0x107ff7nat, x14);
    let x15 = 366762nat;
    let e15 = 2 * e14;
    lemma_power_mod_square(3nat, e14, n, x14, 791637nat, x15);
}

proof fn lemma_power_1627771_over_29()
    ensures
        power_mod(3nat, 56130nat, 0x18d67bnat) == 366762nat,
{
    lemma_power_mod_first(3nat, 0x18d67bnat);
    lemma_power_1627771_over_29_part_0();
}

proof fn lemma_power_1627771_over_1871_part_0()
    requires
        power_mod(3nat, 1nat, 0x18d67bnat) == 3nat,
    ensures
        power_mod(3nat, 870nat, 0x18d67bnat) == 132478nat,
{
    let n = 0x18d67bnat;
    let e0 = 1nat;
    let x0 = 3nat;
    let x1 = 27nat;
    let e1 = 2 * e0 + 1;
    lemma_power_mod_square_times(3nat, e0, n, x0, 0nat, x1);
    let x2 = 729nat;
    let e2 = 2 * e1;
    lemma_power_mod_square(3nat, e1, n, x1, 0nat, x2);
    let x3 = 0x1853d3nat;
    let e3 = 2 * e2 + 1;
    lemma_power_mod_square_times(3nat, e2, n, x2, 0nat, x3);
    let x4 = 0x166e81nat;
    let e4 = 2 * e3 + 1;
    lemma_power_mod_square_times(3nat, e3, n, x3, 0x477b8enat, x4);
    let x5 = 306304nat;
    let e5 = 2 * e4;
    lemma_power_mod_square(3nat, e4, n, x4, 0x144233nat, x5);
    let x6 = 675518nat;
    let e6 = 2 * e5;
    lemma_power_mod_square(3nat, e5, n, x5, 57638nat, x6);
    let x7 = 388491nat;
    let e7 = 2 * e6 + 1;
    lemma_power_mod_square_times(3nat, e6, n, x6, 841011nat, x7);
    let x8 = 0x16e727nat;
    let e8 = 2 * e7 + 1;
    lemma_power_mod_square_times(3nat, e7, n, x7, 278156nat, x8);
    let x9 = 132478nat;
    let e9 = 2 * e8;
    lemma_power_mod_square(3nat, e8, n, x8, 0x151e69nat, x9);
}

proof fn lemma_power_1627771_over_1871()
    ensures
        power_mod(3nat, 870nat, 0x18d67bnat) == 132478nat,
{
    lemma_power_mod_first(3nat, 0x18d67bnat);
    lemma_power_1627771_over_1871_part_0();
}

proof fn lemma_certificate_1627771()
    ensures
        is_certificate(0x18d67bnat, 3nat, seq![2nat, 3nat, 5nat, 29nat, 1871nat]),
{
    let n = 0x18d67bnat;
    let factors = seq![2nat, 3nat, 5nat, 29nat, 1871nat];
    lemma_small_primes();
    lemma_small_primes();
    lemma_small_primes();
    lemma_prime_29();
    lemma_prime_1871();
    lemma_power_1627771_over_2();
    lemma_fundamental_div_mod_converse(0x18d67aint, 2int, 813885int, 0);
    lemma_power_1627771_over_3();
    lemma_fundamental_div_mod_converse(0x18d67aint, 3int, 542590int, 0);
    lemma_power_1627771_over_5();
    lemma_fundamental_div_mod_converse(0x18d67aint, 5int, 325554int, 0);
    lemma_power_1627771_over_29();
    lemma_fundamental_div_mod_converse(0x18d67aint, 29int, 56130int, 0);
    lemma_power_1627771_over_1871();
    lemma_fundamental_div_mod_converse(0x18d67aint, 1871int, 870int, 0);
    lemma_power_mod_square(3nat, 813885nat, n, 0x18d67anat, 0x18d679nat, 1);
    let f0 = Seq::<nat>::empty();
    lemma_product_push(f0, 2nat, 1nat);
    let f1 = f0.push(2nat);
    lemma_product_push(f1, 3nat, 2nat);
    let f2 = f1.push(3nat);
    lemma_product_push(f2, 5nat, 6nat);
    let f3 = f2.push(5nat);
    lemma_product_push(f3, 29nat, 30nat);
    let f4 = f3.push(29nat);
    lemma_product_push(f4, 1871nat, 870nat);
    let f5 = f4.push(1871nat);
    assert(factors =~= f5);
    assert forall|j: int| 0 <= j < factors.len() implies is_prime(#[trigger] factors[j])
        && power_mod(3nat, ((n - 1) / factors[j] as int) as nat, n) != 1 by {
        if j == 0 {
        } else if j == 1 {
        } else if j == 2 {
        } else if j == 3 {
        } else if j == 4 {
        }
    }
}

/// 1627771 is prime.
pub(crate) proof fn lemma_prime_1627771()
    ensures
        is_prime(0x18d67bnat),
{
    lemma_certificate_1627771();
    lemma_certified_prime(0x18d67bnat, 3nat, seq![2nat, 3nat, 5nat, 29nat, 1871nat]);
}

proof fn lemma_power_4681609_over_2_part_0()
    requires
        power_mod(23nat, 1nat, 0x476f89nat) == 23nat,
    ensures
        power_mod(23nat, 0x23b7c4nat, 0x476f89nat) == 0x476f88nat,
{
    let n = 0x476f89nat;
    let e0 = 1nat;
    let x0 = 23nat;
    let x1 = 529nat;
    let e1 = 2 * e0;
    lemma_power_mod_square(23nat, e0, n, x0, 0nat, x1);
    let x2 = 279841nat;
    let e2 = 2 * e1;
    lemma_power_mod_square(23nat, e1, n, x1, 0nat, x2);
    let x3 = 0x1a1db2nat;
    let e3 = 2 * e2;
    lemma_power_mod_square(23nat, e2, n, x2, 16727nat, x3);
    let x4 = 0x42cccanat;
    let e4 = 2 * e3 + 1;
    lemma_power_mod_square_times(23nat, e3, n, x3, 0xdb98c2nat, x4);
    let x5 = 0x38900fnat;
    let e5 = 2 * e4 + 1;
    lemma_power_mod_square_times(23nat, e4, n, x4, 0x59cb245nat, x5);
    let x6 = 0x3d24ebnat;
    let e6 = 2 * e5 + 1;
    lemma_power_mod_square_times(23nat, e5, n, x5, 0x40615ecnat, x6);
    let x7 = 0x1098fdnat;
    let e7 = 2 * e6;
    lemma_power_mod_square(23nat, e6, n, x6, 0x3455dcnat, x7);
    let x8 = 0x1e67denat;
    let e8 = 2 * e7 + 1;
    lemma_power_mod_square_times(23nat, e7, n, x7, 0x58b229nat, x8);
    let x9 = 0x41b16enat;
    let e9 = 2 * e8 + 1;
    lemma_power_mod_square_times(23nat, e8, n, x8, 0x129a97enat, x9);
    let x10 = 0x4255c4nat;
    let e10 = 2 * e9;
    lemma_power_mod_square(23nat, e9, n, x9, 0x3c6980nat, x10);
    let x11 = 0x15c429nat;
    let e11 = 2 * e10 + 1;
    lemma_power_mod_square_times(23nat, e10, n, x10, 0x588c44fnat, x11);
    let x12 = 0x22e803nat;
    let e12 = 2 * e11 + 1;
    lemma_power_mod_square_times(23nat, e11, n, x11, 0x9889e4nat, x12);
    let x13 = 890565nat;
    let e13 = 2 * e12 + 1;
    lemma_power_mod_square_times(23nat, e12, n, x12, 0x1884d3anat, x13);
    let x14 = 0x2f2554nat;
    let e14 = 2 * e13 + 1;
    lemma_power_mod_square_times(23nat, e13, n, x13, 0x3b7453nat, x14);
    let x15 = 442787nat;
    let e15 = 2 * e14 + 1;
    lemma_power_mod_square_times(23nat, e14, n, x14, 0x2cba5a5nat, x15);
    let x16 = 0x3b9883nat;
    let e16 = 2 * e15;
    lemma_power_mod_square(23nat, e15, n, x15, 41878nat, x16);
    let x17 = 0x2d79d6nat;
    let e17 = 2 * e16;
    lemma_power_mod_square(23nat, e16, n, x16, 0x31b7dbnat, x17);
    let x18 = 0x3f79bdnat;
    let e18 = 2 * e17;
    lemma_power_mod_square(23nat, e17, n, x17, 0x1cf32fnat, x18);
    let x19 = 0x11af37nat;
    let e19 = 2 * e18 + 1;
    lemma_power_mod_square_times(23nat, e18, n, x18, 0x5114158nat, x19);
    let x20 = 0x3e1623nat;
    let e20 = 2 * e19;
    lemma_power_mod_square(23nat, e19, n, x19, 286910nat, x20);
    let x21 = 0x476f88nat;
    let e21 = 2 * e20;
    lemma_power_mod_square(23nat, e20, n, x20, 0x35f5f9nat, x21);
}

proof fn lemma_power_4681609_over_2()
    ensures
        power_mod(23nat, 0x23b7c4nat, 0x476f89nat) == 0x476f88nat,
{
    lemma_power_mod_first(23nat, 0x476f89nat);
    lemma_power_4681609_over_2_part_0();
}

proof fn lemma_power_4681609_over_3_part_0()
    requires
        power_mod(23nat, 1nat, 0x476f89nat) == 23nat,
    ensures
        power_mod(23nat, 0x17cfd8nat, 0x476f89nat) == 0x47090fnat,
{
    let n = 0x476f89nat;
    let e0 = 1nat;
    let x0 = 23nat;
    let x1 = 529nat;
    let e1 = 2 * e0;
    lemma_power_mod_square(23nat, e0, n, x0, 0nat, x1);
    let x2 = 0x1ac66enat;
    let e2 = 2 * e1 + 1;
    lemma_power_mod_square_times(23nat, e1, n, x1, 1nat, x2);
    let x3 = 486014nat;
    let e3 = 2 * e2 + 1;
    lemma_power_mod_square_times(23nat, e2, n, x2, 0xe6d22enat, x3);
    let x4 = 0xf62f0nat;
    let e4 = 2 * e3 + 1;
    lemma_power_mod_square_times(23nat, e3, n, x3, 0x11b50cnat, x4);
    let x5 = 850498nat;
    let e5 = 2 * e4 + 1;
    lemma_power_mod_square_times(23nat, e4, n, x4, 0x4c394enat, x5);
    let x6 = 0x44148dnat;
    let e6 = 2 * e5 + 1;
    lemma_power_mod_square_times(23nat, e5, n, x5, 0x363997nat, x6);
    let x7 = 0x4268f8nat;
    let e7 = 2 * e6;
    lemma_power_mod_square(23nat, e6, n, x6, 0x40e1e9nat, x7);
    let x8 = 0x10e106nat;
    let e8 = 2 * e7;
    lemma_power_mod_square(23nat, e7, n, x7, 0x3dbceanat, x8);
    let x9 = 0x39227fnat;
    let e9 = 2 * e8 + 1;
    lemma_power_mod_square_times(23nat, e8, n, x8, 0x5bba95nat, x9);
    let x10 = 0x42e8a2nat;
    let e10 = 2 * e9 + 1;
    lemma_power_mod_square_times(23nat, e9, n, x9, 0x41b068dnat, x10);
    let x11 = 0x2635e3nat;
    let e11 = 2 * e10 + 1;
    lemma_power_mod_square_times(23nat, e10, n, x10, 0x5a160f1nat, x11);
    let x12 = 0x16c856nat;
    let e12 = 2 * e11 + 1;
    lemma_power_mod_square_times(23nat, e11, n, x11, 0x1d61631nat, x12);
    let x13 = 0x1432f9nat;
    let e13 = 2 * e12 + 1;
    lemma_power_mod_square_times(23nat, e12, n, x12, 0xa71dabnat, x13);
    let x14 = 0x12a6b0nat;
    let e14 = 2 * e13 + 1;
    lemma_power_mod_square_times(23nat, e13, n, x13, 0x835d3fnat, x14);
    let x15 = 894185nat;
    let e15 = 2 * e14;
    lemma_power_mod_square(23nat, e14, n, x14, 319135nat, x15);
    let x16 = 0x24fab7nat;
    let e16 = 2 * e15 + 1;
    lemma_power_mod_square_times(23nat, e15, n, x15, 0x3bf050nat, x16);
    let x17 = 0x3e8e3fnat;
    let e17 = 2 * e16 + 1;
    lemma_power_mod_square_times(23nat, e16, n, x16, 0x1b84848nat, x17);
    let x18 = 0x2ae51enat;
    let e18 = 2 * e17;
    lemma_power_mod_square(23nat, e17, n, x17, 0x36c78bnat, x18);
    let x19 = 0x470910nat;
    let e19 = 2 * e18;
    lemma_power_mod_square(23nat, e18, n, x18, 0x19c1d4nat, x19);
    let x20 = 0x47090fnat;
    let e20 = 2 * e19;
    lemma_power_mod_square(23nat, e19, n, x19, 0x46a329nat, x20);
}

proof fn lemma_power_4681609_over_3()
    ensures
        power_mod(23nat, 0x17cfd8nat, 0x476f89nat) == 0x47090fnat,
{
    lemma_power_mod_first(23nat, 0x476f89nat);
    lemma_power_4681609_over_3_part_0();
}

proof fn lemma_power_4681609_over_97_part_0()
    requires
        power_mod(23nat, 1nat, 0x476f89nat) == 23nat,
    ensures
        power_mod(23nat, 48264nat, 0x476f89nat) == 0x285ce8nat,
{
    let n = 0x476f89nat;
    let e0 = 1nat;
    let x0 = 23nat;
    let x1 = 529nat;
    let e1 = 2 * e0;
    lemma_power_mod_square(23nat, e0, n, x0, 0nat, x1);
    let x2 = 0x1ac66enat;
    let e2 = 2 * e1 + 1;
    lemma_power_mod_square_times(23nat, e1, n, x1, 1nat, x2);
    let x3 = 486014nat;
    let e3 = 2 * e2 + 1;
    lemma_power_mod_square_times(23nat, e2, n, x2, 0xe6d22enat, x3);
    let x4 = 0xf62f0nat;
    let e4 = 2 * e3 + 1;
    lemma_power_mod_square_times(23nat, e3, n, x3, 0x11b50cnat, x4);
    let x5 = 850498nat;
    let e5 = 2 * e4 + 1;
    lemma_power_mod_square_times(23nat, e4, n, x4, 0x4c394enat, x5);
    let x6 = 804632nat;
    let e6 = 2 * e5;
    lemma_power_mod_square(23nat, e5, n, x5, 154508nat, x6);
    let x7 = 0x36ae6cnat;
    let e7 = 2 * e6;
    lemma_power_mod_square(23nat, e6, n, x6, 138292nat, x7);
    let x8 = 0x3c9c47nat;
    let e8 = 2 * e7 + 1;
    lemma_power_mod_square_times(23nat, e7, n, x7, 0x3c2b321nat, x8);
    let x9 = 0x21c2f9nat;
    let e9 = 2 * e8;
    lemma_power_mod_square(23nat, e8, n, x8, 0x336cf8nat, x9);
    let x10 = 0x26717cnat;
    let e10 = 2 * e9;
    lemma_power_mod_square(23nat, e9, n, x9, 0xff4cdnat, x10);
    let x11 = 0x1c1e18nat;
    let e11 = 2 * e10;
    lemma_power_mod_square(23nat, e10, n, x10, 0x14b038nat, x11);
    let x12 = 456283nat;
    let e12 = 2 * e11 + 1;
    lemma_power_mod_square_times(23nat, e11, n, x11, 0xfe8bfdnat, x12);
    let x13 = 0x2e23f3nat;
    let e13 = 2 * e12;
    lemma_power_mod_square(23nat, e12, n, x12, 44470nat, x13);
    let x14 = 0x25fdf6nat;
    let e14 = 2 * e13;
    lemma_power_mod_square(23nat, e13, n, x13, 0x1dcd5bnat, x14);
    let x15 = 0x285ce8nat;
    let e15 = 2 * e14;
    lemma_power_mod_square(23nat, e14, n, x14, 0x14349cnat, x15);
}

proof fn lemma_power_4681609_over_97()
    ensures
        power_mod(23nat, 48264nat, 0x476f89nat) == 0x285ce8nat,
{
    lemma_power_mod_first(23nat, 0x476f89nat);
    lemma_power_4681609_over_97_part_0();
}

proof fn lemma_power_4681609_over_2011_part_0()
    requires
        power_mod(23nat, 1nat, 0x476f89nat) == 23nat,
    ensures
        power_mod(23nat, 2328nat, 0x476f89nat) == 0x2fbafcnat,
{
    let n = 0x476f89nat;
    let e0 = 1nat;
    let x0 = 23nat;
    let x1 = 529nat;
    let e1 = 2 * e0;
    lemma_power_mod_square(23nat, e0, n, x0, 0nat, x1);
    let x2 = 279841nat;
    let e2 = 2 * e1;
    lemma_power_mod_square(23nat, e1, n, x1, 0nat, x2);
    let x3 = 0x1d2eb6nat;
    let e3 = 2 * e2 + 1;
    lemma_power_mod_square_times(23nat, e2, n, x2, 384729nat, x3);
    let x4 = 0x243fe9nat;
    let e4 = 2 * e3;
    lemma_power_mod_square(23nat, e3, n, x3, 781283nat, x4);
    let x5 = 989623nat;
    let e5 = 2 * e4;
    lemma_power_mod_square(23nat, e4, n, x4, 0x12650anat, x5);
    let x6 = 0x3109f2nat;
    let e6 = 2 * e5;
    lemma_power_mod_square(23nat, e5, n, x5, 209191nat, x6);
    let x7 = 0x41e211nat;
    let e7 = 2 * e6 + 1;
    lemma_power_mod_square_times(23nat, e6, n, x6, 0x3064573nat, x7);
    let x8 = 0x3d1609nat;
    let e8 = 2 * e7 + 1;
    lemma_power_mod_square_times(23nat, e7, n, x7, 0x57586fenat, x8);
    let x9 = 552772nat;
    let e9 = 2 * e8;
    lemma_power_mod_square(23nat, e8, n, x8, 0x343c65nat, x9);
    let x10 = 0x233d05nat;
    let e10 = 2 * e9;
    lemma_power_mod_square(23nat, e9, n, x9, 65267nat, x10);
    let x11 = 0x2fbafcnat;
    let e11 = 2 * e10;
    lemma_power_mod_square(23nat, e10, n, x10, 0x1161f5nat, x11);
}

proof fn lemma_power_4681609_over_2011()
    ensures
        power_mod(23nat, 2328nat, 0x476f89nat) == 0x2fbafcnat,
{
    lemma_power_mod_first(23nat, 0x476f89nat);
    lemma_power_4681609_over_2011_part_0();
}

proof fn lemma_certificate_4681609()
    ensures
        is_certificate(0x476f89nat, 23nat, seq![2nat, 2nat, 2nat, 3nat, 97nat, 2011nat]),
{
    let n = 0x476f89nat;
    let factors = seq![2nat, 2nat, 2nat, 3nat, 97nat, 2011nat];
    lemma_small_primes();
    lemma_small_primes();
    lemma_prime_97();
    lemma_prime_2011();
    lemma_power_4681609_over_2();
    lemma_fundamental_div_mod_converse(0x476f88int, 2int, 0x23b7c4int, 0);
    lemma_power_4681609_over_3();
    lemma_fundamental_div_mod_converse(0x476f88int, 3int, 0x17cfd8int, 0);
    lemma_power_4681609_over_97();
    lemma_fundamental_div_mod_converse(0x476f88int, 97int, 48264int, 0);
    lemma_power_4681609_over_2011();
    lemma_fundamental_div_mod_converse(0x476f88int, 2011int, 2328int, 0);
    lemma_power_mod_square(23nat, 0x23b7c4nat, n, 0x476f88nat, 0x476f87nat, 1);
    let f0 = Seq::<nat>::empty();
    lemma_product_push(f0, 2nat, 1nat);
    let f1 = f0.push(2nat);
    lemma_product_push(f1, 2nat, 2nat);
    let f2 = f1.push(2nat);
    lemma_product_push(f2, 2nat, 4nat);
    let f3 = f2.push(2nat);
    lemma_product_push(f3, 3nat, 8nat);
    let f4 = f3.push(3nat);
    lemma_product_push(f4, 97nat, 24nat);
    let f5 = f4.push(97nat);
    lemma_product_push(f5, 2011nat, 2328nat);
    let f6 = f5.push(2011nat);
    assert(factors =~= f6);
    assert forall|j: int| 0 <= j < factors.len() implies is_prime(#[trigger] factors[j])
        && power_mod(23nat, ((n - 1) / factors[j] as int) as nat, n) != 1 by {
        if j == 0 {
        } else if j == 1 {
        } else if j == 2 {
        } else if j == 3 {
        } else if j == 4 {
        } else if j == 5 {
        }
    }
}

/// 4681609 is prime.
pub(crate) proof fn lemma_prime_4681609()
    ensures
        is_prime(0x476f89nat),
{
    lemma_certificate_4681609();
    lemma_certified_prime(0x476f89nat, 23nat, seq![2nat, 2nat, 2nat, 3nat, 97nat, 2011nat]);
}

proof fn lemma_power_7240687_over_2_part_0()
    requires
        power_mod(3nat, 1nat, 0x6e7befnat) == 3nat,
    ensures
        power_mod(3nat, 0x373df7nat, 0x6e7befnat) == 0x6e7beenat,
{
    let n = 0x6e7befnat;
    let e0 = 1nat;
    let x0 = 3nat;
    let x1 = 27nat;
    let e1 = 2 * e0 + 1;
    lemma_power_mod_square_times(3nat, e0, n, x0, 0nat, x1);
    let x2 = 729nat;
    let e2 = 2 * e1;
    lemma_power_mod_square(3nat, e1, n, x1, 0nat, x2);
    let x3 = 0x1853d3nat;
    let e3 = 2 * e2 + 1;
    lemma_power_mod_square_times(3nat, e2, n, x2, 0nat, x3);
    let x4 = 0x2acc12nat;
    let e4 = 2 * e3 + 1;
    lemma_power_mod_square_times(3nat, e3, n, x3, 0x1011e7nat, x4);
    let x5 = 0x1be502nat;
    let e5 = 2 * e4 + 1;
    lemma_power_mod_square_times(3nat, e4, n, x4, 0x31bbd6nat, x5);
    let x6 = 0x3105d2nat;
    let e6 = 2 * e5;
    lemma_power_mod_square(3nat, e5, n, x5, 461550nat, x6);
    let x7 = 688154nat;
    let e7 = 2 * e6;
    lemma_power_mod_square(3nat, e6, n, x6, 0x15c076nat, x7);
    let x8 = 0x17a53anat;
    let e8 = 2 * e7 + 1;
    lemma_power_mod_square_times(3nat, e7, n, x7, 196206nat, x8);
    let x9 = 0x1f6964nat;
    let e9 = 2 * e8 + 1;
    lemma_power_mod_square_times(3nat, e8, n, x8, 994936nat, x9);
    let x10 = 815003nat;
    let e10 = 2 * e9 + 1;
    lemma_power_mod_square_times(3nat, e9, n, x9, 0x1acabbnat, x10);
    let x11 = 0x1d5702nat;
    let e11 = 2 * e10 + 1;
    lemma_power_mod_square_times(3nat, e10, n, x10, 275207nat, x11);
    let x12 = 0x3c383enat;
    let e12 = 2 * e11;
    lemma_power_mod_square(3nat, e11, n, x11, 510618nat, x12);
    let x13 = 0x3d091dnat;
    let e13 = 2 * e12 + 1;
    lemma_power_mod_square_times(3nat, e12, n, x12, 0x627801nat, x13);
    let x14 = 0x251ee0nat;
    let e14 = 2 * e13 + 1;
    lemma_power_mod_square_times(3nat, e13, n, x13, 0x6527b5nat, x14);
    let x15 = 0x6cd02dnat;
    let e15 = 2 * e14 + 1;
    lemma_power_mod_square_times(3nat, e14, n, x14, 0x256a5dnat, x15);
    let x16 = 0x2d26f4nat;
    let e16 = 2 * e15 + 1;
    lemma_power_mod_square_times(3nat, e15, n, x15, 0x14180a9nat, x16);
    let x17 = 0x6af295nat;
    let e17 = 2 * e16 + 1;
    lemma_power_mod_square_times(3nat, e16, n, x16, 0x375b95nat, x17);
    let x18 = 0x5a483enat;
    let e18 = 2 * e17;
    lemma_power_mod_square(3nat, e17, n, x17, 0x678635nat, x18);
    let x19 = 0x570cadnat;
    let e19 = 2 * e18 + 1;
    lemma_power_mod_square_times(3nat, e18, n, x18, 0xdd5291nat, x19);
    let x20 = 0x1d5026nat;
    let e20 = 2 * e19 + 1;
    lemma_power_mod_square_times(3nat, e19, n, x19, 0xcdc1bbnat, x20);
    let x21 = 0x6e7beenat;
    let e21 = 2 * e20 + 1;
    lemma_power_mod_square_times(3nat, e20, n, x20, 0x1754e2nat, x21);
}

proof fn lemma_power_7240687_over_2()
    ensures
        power_mod(3nat, 0x373df7nat, 0x6e7befnat) == 0x6e7beenat,
{
    lemma_power_mod_first(3nat, 0x6e7befnat);
    lemma_power_7240687_over_2_part_0();
}

proof fn lemma_power_7240687_over_3_part_0()
    requires
        power_mod(3nat, 1nat, 0x6e7befnat) == 3nat,
    ensures
        power_mod(3nat, 0x24d3fanat, 0x6e7befnat) == 0x633630nat,
{
    let n = 0x6e7befnat;
    let e0 = 1nat;
    let x0 = 3nat;
    let x1 = 9nat;
    let e1 = 2 * e0;
    lemma_power_mod_square(3nat, e0, n, x0, 0nat, x1);
    let x2 = 81nat;
    let e2 = 2 * e1;
    lemma_power_mod_square(3nat, e1, n, x1, 0nat, x2);
    let x3 = 19683nat;
    let e3 = 2 * e2 + 1;
    lemma_power_mod_square_times(3nat, e2, n, x2, 0nat, x3);
    let x4 = 0x37e8cenat;
    let e4 = 2 * e3;
    lemma_power_mod_square(3nat, e3, n, x3, 53nat, x4);
    let x5 = 0x2d663enat;
    let e5 = 2 * e4;
    lemma_power_mod_square(3nat, e4, n, x4, 0x1c4adanat, x5);
    let x6 = 0x63975enat;
    let e6 = 2 * e5 + 1;
    lemma_power_mod_square_times(3nat, e5, n, x5, 0x37f732nat, x6);
    let x7 = 0x1cbbcdnat;
    let e7 = 2 * e6 + 1;
    lemma_power_mod_square_times(3nat, e6, n, x6, 0x10d5131nat, x7);
    let x8 = 0x57bf7enat;
    let e8 = 2 * e7;
    lemma_power_mod_square(3nat, e7, n, x7, 489733nat, x8);
    let x9 = 0x2c4bafnat;
    let e9 = 2 * e8 + 1;
    lemma_power_mod_square_times(3nat, e8, n, x8, 0xd11273nat, x9);
    let x10 = 0x31c568nat;
    let e10 = 2 * e9;
    lemma_power_mod_square(3nat, e9, n, x9, 0x11c257nat, x10);
    let x11 = 0x3e7a66nat;
    let e11 = 2 * e10;
    lemma_power_mod_square(3nat, e10, n, x10, 0x166bc6nat, x11);
    let x12 = 876435nat;
    let e12 = 2 * e11 + 1;
    lemma_power_mod_square_times(3nat, e11, n, x11, 0x69fe37nat, x12);
    let x13 = 0x11259enat;
    let e13 = 2 * e12 + 1;
    lemma_power_mod_square_times(3nat, e12, n, x12, 318259nat, x13);
    let x14 = 0x2c00d4nat;
    let e14 = 2 * e13 + 1;
    lemma_power_mod_square_times(3nat, e13, n, x13, 523208nat, x14);
    let x15 = 0x118f0dnat;
    let e15 = 2 * e14 + 1;
    lemma_power_mod_square_times(3nat, e14, n, x14, 0x34938dnat, x15);
    let x16 = 0x6bf14enat;
    let e16 = 2 * e15 + 1;
    lemma_power_mod_square_times(3nat, e15, n, x15, 548643nat, x16);
    let x17 = 0x317f09nat;
    let e17 = 2 * e16 + 1;
    lemma_power_mod_square_times(3nat, e16, n, x16, 0x13c60ednat, x17);
    let x18 = 0x3cbee8nat;
    let e18 = 2 * e17 + 1;
    lemma_power_mod_square_times(3nat, e17, n, x17, 0x4285a5nat, x18);
    let x19 = 0x45e60bnat;
    let e19 = 2 * e18;
    lemma_power_mod_square(3nat, e18, n, x18, 0x21661bnat, x19);
    let x20 = 0x633631nat;
    let e20 = 2 * e19 + 1;
    lemma_power_mod_square_times(3nat, e19, n, x19, 0x84aa66nat, x20);
    let x21 = 0x633630nat;
    let e21 = 2 * e20;
    lemma_power_mod_square(3nat, e20, n, x20, 0x5916dfnat, x21);
}

proof fn lemma_power_7240687_over_3()
    ensures
        power_mod(3nat, 0x24d3fanat, 0x6e7befnat) == 0x633630nat,
{
    lemma_power_mod_first(3nat, 0x6e7befnat);
    lemma_power_7240687_over_3_part_0();
}

proof fn lemma_power_7240687_over_1206781_part_0()
    requires
        power_mod(3nat, 1nat, 0x6e7befnat) == 3nat,
    ensures
        power_mod(3nat, 6nat, 0x6e7befnat) == 729nat,
{
    let n = 0x6e7befnat;
    let e0 = 1nat;
    let x0 = 3nat;
    let x1 = 27nat;
    let e1 = 2 * e0 + 1;
    lemma_power_mod_square_times(3nat, e0, n, x0, 0nat, x1);
    let x2 = 729nat;
    let e2 = 2 * e1;
    lemma_power_mod_square(3nat, e1, n, x1, 0nat, x2);
}

proof fn lemma_power_7240687_over_1206781()
    ensures
        power_mod(3nat, 6nat, 0x6e7befnat) == 729nat,
{
    lemma_power_mod_first(3nat, 0x6e7befnat);
    lemma_power_7240687_over_1206781_part_0();
}

proof fn lemma_certificate_7240687()
    ensures
        is_certificate(0x6e7befnat, 3nat, seq![2nat, 3nat, 0x1269fdnat]),
{
    let n = 0x6e7befnat;
    let factors = seq![2nat, 3nat, 0x1269fdnat];
    lemma_small_primes();
    lemma_small_primes();
    lemma_prime_1206781();
    lemma_power_7240687_over_2();
    lemma_fundamental_div_mod_converse(0x6e7beeint, 2int, 0x373df7int, 0);
    lemma_power_7240687_over_3();
    lemma_fundamental_div_mod_converse(0x6e7beeint, 3int, 0x24d3faint, 0);
    lemma_power_7240687_over_1206781();
    lemma_fundamental_div_mod_converse(0x6e7beeint, 0x1269fdint, 6int, 0);
    lemma_power_mod_square(3nat, 0x373df7nat, n, 0x6e7beenat, 0x6e7bednat, 1);
    let f0 = Seq::<nat>::empty();
    lemma_product_push(f0, 2nat, 1nat);
    let f1 = f0.push(2nat);
    lemma_product_push(f1, 3nat, 2nat);
    let f2 = f1.push(3nat);
    lemma_product_push(f2, 0x1269fdnat, 6nat);
    let f3 = f2.push(0x1269fdnat);
    assert(factors =~= f3);
    assert forall|j: int| 0 <= j < factors.len() implies is_prime(#[trigger] factors[j])
        && power_mod(3nat, ((n - 1) / factors[j] as int) as nat, n) != 1 by {
        if j == 0 {
        } else if j == 1 {
        } else if j == 2 {
        }
    }
}

/// 7240687 is prime.
pub(crate) proof fn lemma_prime_7240687()
    ensures
        is_prime(0x6e7befnat),
{
    lemma_certificate_7240687();
    lemma_certified_prime(0x6e7befnat, 3nat, seq![2nat, 3nat, 0x1269fdnat]);
}

proof fn lemma_power_13331831_over_2_part_0()
    requires
        power_mod(13nat, 1nat, 0xcb6d77nat) == 13nat,
    ensures
        power_mod(13nat, 0x65b6bbnat, 0xcb6d77nat) == 0xcb6d76nat,
{
    let n = 0xcb6d77nat;
    let e0 = 1nat;
    let x0 = 13nat;
    let x1 = 2197nat;
    let e1 = 2 * e0 + 1;
    lemma_power_mod_square_times(13nat, e0, n, x0, 0nat, x1);
    let x2 = 0x49a6b9nat;
    let e2 = 2 * e1;
    lemma_power_mod_square(13nat, e1, n, x1, 0nat, x2);
    let x3 = 0x3af19anat;
    let e3 = 2 * e2;
    lemma_power_mod_square(13nat, e2, n, x2, 0x1aaa61nat, x3);
    let x4 = 0x35366cnat;
    let e4 = 2 * e3 + 1;
    lemma_power_mod_square_times(13nat, e3, n, x3, 0xde0758nat, x4);
    let x5 = 0x3e04banat;
    let e5 = 2 * e4;
    lemma_power_mod_square(13nat, e4, n, x4, 912218nat, x5);
    let x6 = 0x75b52bnat;
    let e6 = 2 * e5 + 1;
    lemma_power_mod_square_times(13nat, e5, n, x5, 0xf5cbdfnat, x6);
    let x7 = 579455nat;
    let e7 = 2 * e6 + 1;
    lemma_power_mod_square_times(13nat, e6, n, x6, 0x375684anat, x7);
    let x8 = 0x5a88eanat;
    let e8 = 2 * e7;
    lemma_power_mod_square(13nat, e7, n, x7, 25185nat, x8);
    let x9 = 0xab4d3fnat;
    let e9 = 2 * e8 + 1;
    lemma_power_mod_square_times(13nat, e8, n, x8, 0x20bcc93nat, x9);
    let x10 = 0x5c8edanat;
    let e10 = 2 * e9 + 1;
    lemma_power_mod_square_times(13nat, e9, n, x9, 0x7533da5nat, x10);
    let x11 = 0x3ea76enat;
    let e11 = 2 * e10;
    lemma_power_mod_square(13nat, e10, n, x10, 0x2a1cfanat, x11);
    let x12 = 0x1fbbdcnat;
    let e12 = 2 * e11 + 1;
    lemma_power_mod_square_times(13nat, e11, n, x11, 0xfadc28nat, x12);
    let x13 = 0xbf835anat;
    let e13 = 2 * e12 + 1;
    lemma_power_mod_square_times(13nat, e12, n, x12, 0x405abanat, x13);
    let x14 = 0x28290dnat;
    let e14 = 2 * e13;
    lemma_power_mod_square(13nat, e13, n, x13, 0xb44be1nat, x14);
    let x15 = 0x96944enat;
    let e15 = 2 * e14 + 1;
    lemma_power_mod_square_times(13nat, e14, n, x14, 0x6711b1nat, x15);
    let x16 = 0x7d8a1bnat;
    let e16 = 2 * e15;
    lemma_power_mod_square(13nat, e15, n, x15, 0x6f75dfnat, x16);
    let x17 = 0x1522canat;
    let e17 = 2 * e16 + 1;
    lemma_power_mod_square_times(13nat, e16, n, x16, 0x3ef265dnat, x17);
    let x18 = 0x940b01nat;
    let e18 = 2 * e17 + 1;
    lemma_power_mod_square_times(13nat, e17, n, x17, 0x1c8c45nat, x18);
    let x19 = 0x5b67f2nat;
    let e19 = 2 * e18 + 1;
    lemma_power_mod_square_times(13nat, e18, n, x18, 0x578957dnat, x19);
    let x20 = 0x7d0bd5nat;
    let e20 = 2 * e19;
    lemma_power_mod_square(13nat, e19, n, x19, 0x291249nat, x20);
    let x21 = 0x6e2249nat;
    let e21 = 2 * e20 + 1;
    lemma_power_mod_square_times(13nat, e20, n, x20, 0x3e74044nat, x21);
    let x22 = 0xcb6d76nat;
    let e22 = 2 * e21 + 1;
    lemma_power_mod_square_times(13nat, e21, n, x21, 0x30721d1nat, x22);
}

proof fn lemma_power_13331831_over_2()
    ensures
        power_mod(13nat, 0x65b6bbnat, 0xcb6d77nat) == 0xcb6d76nat,
{
    lemma_power_mod_first(13nat, 0xcb6d77nat);
    lemma_power_13331831_over_2_part_0();
}

proof fn lemma_power_13331831_over_5_part_0()
    requires
        power_mod(13nat, 1nat, 0xcb6d77nat) == 13nat,
    ensures
        power_mod(13nat, 0x28af7enat, 0xcb6d77nat) == 0x143aa1nat,
{
    let n = 0xcb6d77nat;
    let e0 = 1nat;
    let x0 = 13nat;
    let x1 = 169nat;
    let e1 = 2 * e0;
    lemma_power_mod_square(13nat, e0, n, x0, 0nat, x1);
    let x2 = 371293nat;
    let e2 = 2 * e1 + 1;
    lemma_power_mod_square_times(13nat, e1, n, x1, 0nat, x2);
    let x3 = 0x704b4dnat;
    let e3 = 2 * e2;
    lemma_power_mod_square(13nat, e2, n, x2, 10340nat, x3);
    let x4 = 0xb7fb67nat;
    let e4 = 2 * e3;
    lemma_power_mod_square(13nat, e3, n, x3, 0x3dfccenat, x4);
    let x5 = 0xa6aa21nat;
    let e5 = 2 * e4;
    lemma_power_mod_square(13nat, e4, n, x4, 0xa66530nat, x5);
    let x6 = 0x645a6bnat;
    let e6 = 2 * e5 + 1;
    lemma_power_mod_square_times(13nat, e5, n, x5, 0x6ef16aenat, x6);
    let x7 = 0x82f7a2nat;
    let e7 = 2 * e6;
    lemma_power_mod_square(13nat, e6, n, x6, 0x318161nat, x7);
    let x8 = 0x4c4658nat;
    let e8 = 2 * e7 + 1;
    lemma_power_mod_square_times(13nat, e7, n, x7, 0x4481f84nat, x8);
    let x9 = 0x3d5b05nat;
    let e9 = 2 * e8;
    lemma_power_mod_square(13nat, e8, n, x8, 0x1c995dnat, x9);
    let x10 = 0xb3e313nat;
    let e10 = 2 * e9 + 1;
    lemma_power_mod_square_times(13nat, e9, n, x9, 0xf091denat, x10);
    let x11 = 0x23cddfnat;
    let e11 = 2 * e10 + 1;
    lemma_power_mod_square_times(13nat, e10, n, x10, 0x813eabanat, x11);
    let x12 = 0x431acbnat;
    let e12 = 2 * e11 + 1;
    lemma_power_mod_square_times(13nat, e11, n, x11, 0x51ec0enat, x12);
    let x13 = 0xc3d281nat;
    let e13 = 2 * e12 + 1;
    lemma_power_mod_square_times(13nat, e12, n, x12, 0x11fc3fcnat, x13);
    let x14 = 0xbe79f5nat;
    let e14 = 2 * e13;
    lemma_power_mod_square(13nat, e13, n, x13, 0xbc8054nat, x14);
    let x15 = 0x51c43bnat;
    let e15 = 2 * e14 + 1;
    lemma_power_mod_square_times(13nat, e14, n, x14, 0x90e8be6nat, x15);
    let x16 = 0xc5fe65nat;
    let e16 = 2 * e15 + 1;
    lemma_power_mod_square_times(13nat, e15, n, x15, 0x1ab40a0nat, x16);
    let x17 = 0x8b55e0nat;
    let e17 = 2 * e16 + 1;
    lemma_power_mod_square_times(13nat, e16, n, x16, 0x9c92a43nat, x17);
    let x18 = 0x91da98nat;
    let e18 = 2 * e17 + 1;
    lemma_power_mod_square_times(13nat, e17, n, x17, 0x4d8abd8nat, x18);
    let x19 = 0xc0a6f0nat;
    let e19 = 2 * e18 + 1;
    lemma_power_mod_square_times(13nat, e18, n, x18, 0x54f7830nat, x19);
    let x20 = 0xaf0fcenat;
    let e20 = 2 * e19 + 1;
    lemma_power_mod_square_times(13nat, e19, n, x19, 0x943d0denat, x20);
    let x21 = 0x143aa1nat;
    let e21 = 2 * e20;
    lemma_power_mod_square(13nat, e20, n, x20, 0x96a6b5nat, x21);
}

proof fn lemma_power_13331831_over_5()
    ensures
        power_mod(13nat, 0x28af7enat, 0xcb6d77nat) == 0x143aa1nat,
{
    lemma_power_mod_first(13nat, 0xcb6d77nat);
    lemma_power_13331831_over_5_part_0();
}

proof fn lemma_power_13331831_over_971_part_0()
    requires
        power_mod(13nat, 1nat, 0xcb6d77nat) == 13nat,
    ensures
        power_mod(13nat, 13730nat, 0xcb6d77nat) == 54862nat,
{
    let n = 0xcb6d77nat;
    let e0 = 1nat;
    let x0 = 13nat;
    let x1 = 2197nat;
    let e1 = 2 * e0 + 1;
    lemma_power_mod_square_times(13nat, e0, n, x0, 0nat, x1);
    let x2 = 0x49a6b9nat;
    let e2 = 2 * e1;
    lemma_power_mod_square(13nat, e1, n, x1, 0nat, x2);
    let x3 = 0x9bfc6dnat;
    let e3 = 2 * e2 + 1;
    lemma_power_mod_square_times(13nat, e2, n, x2, 0x15aa6f0nat, x3);
    let x4 = 0x517b17nat;
    let e4 = 2 * e3;
    lemma_power_mod_square(13nat, e3, n, x3, 0x779bbenat, x4);
    let x5 = 0xa18047nat;
    let e5 = 2 * e4 + 1;
    lemma_power_mod_square_times(13nat, e4, n, x4, 0x1a8459anat, x5);
    let x6 = 0xc74c5cnat;
    let e6 = 2 * e5 + 1;
    lemma_power_mod_square_times(13nat, e5, n, x5, 0x682cda7nat, x6);
    let x7 = 0x2c2e76nat;
    let e7 = 2 * e6;
    lemma_power_mod_square(13nat, e6, n, x6, 0xc340b6nat, x7);
    let x8 = 0x204f1bnat;
    let e8 = 2 * e7 + 1;
    lemma_power_mod_square_times(13nat, e7, n, x7, 0x7cbe0fnat, x8);
    let x9 = 0x70359dnat;
    let e9 = 2 * e8;
    lemma_power_mod_square(13nat, e8, n, x8, 336292nat, x9);
    let x10 = 0x8d0ba0nat;
    let e10 = 2 * e9;
    lemma_power_mod_square(13nat, e9, n, x9, 0x3de4dfnat, x10);
    let x11 = 0x1e3636nat;
    let e11 = 2 * e10;
    lemma_power_mod_square(13nat, e10, n, x10, 0x61cb06nat, x11);
    let x12 = 0x717766nat;
    let e12 = 2 * e11 + 1;
    lemma_power_mod_square_times(13nat, e11, n, x11, 0x3a5442nat, x12);
    let x13 = 54862nat;
    let e13 = 2 * e12;
    lemma_power_mod_square(13nat, e12, n, x12, 0x3f49danat, x13);
}

proof fn lemma_power_13331831_over_971()
    ensures
        power_mod(13nat, 13730nat, 0xcb6d77nat) == 54862nat,
{
    lemma_power_mod_first(13nat, 0xcb6d77nat);
    lemma_power_13331831_over_971_part_0();
}

proof fn lemma_power_13331831_over_1373_part_0()
    requires
        power_mod(13nat, 1nat, 0xcb6d77nat) == 13nat,
    ensures
        power_mod(13nat, 9710nat, 0xcb6d77nat) == 0x136df8nat,
{
    let n = 0xcb6d77nat;
    let e0 = 1nat;
    let x0 = 13nat;
    let x1 = 169nat;
    let e1 = 2 * e0;
    lemma_power_mod_square(13nat, e0, n, x0, 0nat, x1);
    let x2 = 28561nat;
    let e2 = 2 * e1;
    lemma_power_mod_square(13nat, e1, n, x1, 0nat, x2);
    let x3 = 0x56e120nat;
    let e3 = 2 * e2 + 1;
    lemma_power_mod_square_times(13nat, e2, n, x2, 795nat, x3);
    let x4 = 0x4cec30nat;
    let e4 = 2 * e3;
    lemma_power_mod_square(13nat, e3, n, x3, 0x251ab0nat, x4);
    let x5 = 0x2cb4b3nat;
    let e5 = 2 * e4 + 1;
    lemma_power_mod_square_times(13nat, e4, n, x4, 0x17a215bnat, x5);
    let x6 = 0x804fc0nat;
    let e6 = 2 * e5 + 1;
    lemma_power_mod_square_times(13nat, e5, n, x5, 0x7fb893nat, x6);
    let x7 = 0x834255nat;
    let e7 = 2 * e6 + 1;
    lemma_power_mod_square_times(13nat, e6, n, x6, 0x41c1e6dnat, x7);
    let x8 = 0x74297fnat;
    let e8 = 2 * e7 + 1;
    lemma_power_mod_square_times(13nat, e7, n, x7, 0x44d034anat, x8);
    let x9 = 0xc23a75nat;
    let e9 = 2 * e8;
    lemma_power_mod_square(13nat, e8, n, x8, 0x4254d4nat, x9);
    let x10 = 0xc5d7bfnat;
    let e10 = 2 * e9 + 1;
    lemma_power_mod_square_times(13nat, e9, n, x9, 0x96ac94anat, x10);
    let x11 = 0x6b6f1bnat;
    let e11 = 2 * e10 + 1;
    lemma_power_mod_square_times(13nat, e10, n, x10, 0x9c5589enat, x11);
    let x12 = 0xc4222dnat;
    let e12 = 2 * e11 + 1;
    lemma_power_mod_square_times(13nat, e11, n, x11, 0x2e197e8nat, x12);
    let x13 = 0x136df8nat;
    let e13 = 2 * e12;
    lemma_power_mod_square(13nat, e12, n, x12, 0xbd19d7nat, x13);
}

proof fn lemma_power_13331831_over_1373()
    ensures
        power_mod(13nat, 9710nat, 0xcb6d77nat) == 0x136df8nat,
{
    lemma_power_mod_first(13nat, 0xcb6d77nat);
    lemma_power_13331831_over_1373_part_0();
}

proof fn lemma_certificate_13331831()
    ensures
        is_certificate(0xcb6d77nat, 13nat, seq![2nat, 5nat, 971nat, 1373nat]),
{
    let n = 0xcb6d77nat;
    let factors = seq![2nat, 5nat, 971nat, 1373nat];
    lemma_small_primes();
    lemma_small_primes();
    lemma_prime_971();
    lemma_prime_1373();
    lemma_power_13331831_over_2();
    lemma_fundamental_div_mod_converse(0xcb6d76int, 2int, 0x65b6bbint, 0);
    lemma_power_13331831_over_5();
    lemma_fundamental_div_mod_converse(0xcb6d76int, 5int, 0x28af7eint, 0);
    lemma_power_13331831_over_971();
    lemma_fundamental_div_mod_converse(0xcb6d76int, 971int, 13730int, 0);
    lemma_power_13331831_over_1373();
    lemma_fundamental_div_mod_converse(0xcb6d76int, 1373int, 9710int, 0);
    lemma_power_mod_square(13nat, 0x65b6bbnat, n, 0xcb6d76nat, 0xcb6d75nat, 1);
    let f0 = Seq::<nat>::empty();
    lemma_product_push(f0, 2nat, 1nat);
    let f1 = f0.push(2nat);
    lemma_product_push(f1, 5nat, 2nat);
    let f2 = f1.push(5nat);
    lemma_product_push(f2, 971nat, 10nat);
    let f3 = f2.push(971nat);
    lemma_product_push(f3, 1373nat, 9710nat);
    let f4 = f3.push(1373nat);
    assert(factors =~= f4);
    assert forall|j: int| 0 <= j < factors.len() implies is_prime(#[trigger] factors[j])
        && power_mod(13nat, ((n - 1) / factors[j] as int) as nat, n) != 1 by {
        if j == 0 {
        } else if j == 1 {
        } else if j == 2 {
        } else if j == 3 {
        }
    }
}

/// 13331831 is prime.
pub(crate) proof fn lemma_prime_13331831()
    ensures
        is_prime(0xcb6d77nat),
{
    lemma_certificate_13331831();
    lemma_certified_prime(0xcb6d77nat, 13nat, seq![2nat, 5nat, 971nat, 1373nat]);
}

proof fn lemma_power_44706919_over_2_part_0()
    requires
        power_mod(6nat, 1nat, 0x2aa2c67nat) == 6nat,
    ensures
        power_mod(6nat, 0x1551633nat, 0x2aa2c67nat) == 0x2aa2c66nat,
{
    let n = 0x2aa2c67nat;
    let e0 = 1nat;
    let x0 = 6nat;
    let x1 = 36nat;
    let e1 = 2 * e0;
    lemma_power_mod_square(6nat, e0, n, x0, 0nat, x1);
    let x2 = 7776nat;
    let e2 = 2 * e1 + 1;
    lemma_power_mod_square_times(6nat, e1, n, x1, 0nat, x2);
    let x3 = 0xf07799nat;
    let e3 = 2 * e2;
    lemma_power_mod_square(6nat, e2, n, x2, 1nat, x3);
    let x4 = 0x14bfc62nat;
    let e4 = 2 * e3 + 1;
    lemma_power_mod_square_times(6nat, e3, n, x3, 0x1fc971cnat, x4);
    let x5 = 0xaa0419nat;
    let e5 = 2 * e4;
    lemma_power_mod_square(6nat, e4, n, x4, 0xa1905dnat, x5);
    let x6 = 0x1cecf4anat;
    let e6 = 2 * e5 + 1;
    lemma_power_mod_square_times(6nat, e5, n, x5, 0xfe3c44nat, x6);
    let x7 = 0x17d318fnat;
    let e7 = 2 * e6;
    lemma_power_mod_square(6nat, e6, n, x6, 0x139fc63nat, x7);
    let x8 = 0xd1bee6nat;
    let e8 = 2 * e7 + 1;
    lemma_power_mod_square_times(6nat, e7, n, x7, 0x4fe0ca0nat, x8);
    let x9 = 0xaa3a9anat;
    let e9 = 2 * e8;
    lemma_power_mod_square(6nat, e8, n, x8, 0x407d66nat, x9);
    let x10 = 0x2a14b4nat;
    let e10 = 2 * e9;
    lemma_power_mod_square(6nat, e9, n, x9, 0x2a7a90nat, x10);
    let x11 = 0x1d40c3fnat;
    let e11 = 2 * e10;
    lemma_power_mod_square(6nat, e10, n, x10, 170119nat, x11);
    let x12 = 0x27ff18dnat;
    let e12 = 2 * e11 + 1;
    lemma_power_mod_square_times(6nat, e11, n, x11, 0x786cd1fnat, x12);
    let x13 = 0x1cf95b2nat;
    let e13 = 2 * e12;
    lemma_power_mod_square(6nat, e12, n, x12, 0x25853f1nat, x13);
    let x14 = 0x256a2d3nat;
    let e14 = 2 * e13 + 1;
    lemma_power_mod_square_times(6nat, e13, n, x13, 0x7623af3nat, x14);
    let x15 = 881866nat;
    let e15 = 2 * e14 + 1;
    lemma_power_mod_square_times(6nat, e14, n, x14, 0xc4ff874nat, x15);
    let x16 = 0xa4949fnat;
    let e16 = 2 * e15;
    lemma_power_mod_square(6nat, e15, n, x15, 17395nat, x16);
    let x17 = 0x22ff4a1nat;
    let e17 = 2 * e16;
    lemma_power_mod_square(6nat, e16, n, x16, 0x27b4e0nat, x17);
    let x18 = 0x19d56a4nat;
    let e18 = 2 * e17;
    lemma_power_mod_square(6nat, e17, n, x17, 0x1cba25bnat, x18);
    let x19 = 0x114191enat;
    let e19 = 2 * e18 + 1;
    lemma_power_mod_square_times(6nat, e18, n, x18, 0x5deaf6enat, x19);
    let x20 = 0x1752ec3nat;
    let e20 = 2 * e19 + 1;
    lemma_power_mod_square_times(6nat, e19, n, x19, 0x29e79e3nat, x20);
    let x21 = 0x3c7130nat;
    let e21 = 2 * e20;
    lemma_power_mod_square(6nat, e20, n, x20, 0xcc263fnat, x21);
    let x22 = 0x20fb46dnat;
    let e22 = 2 * e21;
    lemma_power_mod_square(6nat, e21, n, x21, 350965nat, x22);
    let x23 = 0x585897nat;
    let e23 = 2 * e22 + 1;
    lemma_power_mod_square_times(6nat, e22, n, x22, 0x99147c9nat, x23);
    let x24 = 0x2aa2c66nat;
    let e24 = 2 * e23 + 1;
    lemma_power_mod_square_times(6nat, e23, n, x23, 0x44a600nat, x24);
}

proof fn lemma_power_44706919_over_2()
    ensures
        power_mod(6nat, 0x1551633nat, 0x2aa2c67nat) == 0x2aa2c66nat,
{
    lemma_power_mod_first(6nat, 0x2aa2c67nat);
    lemma_power_44706919_over_2_part_0();
}

proof fn lemma_power_44706919_over_3_part_0()
    requires
        power_mod(6nat, 1nat, 0x2aa2c67nat) == 6nat,
    ensures
        power_mod(6nat, 0xe36422nat, 0x2aa2c67nat) == 0x1d1661bnat,
{
    let n = 0x2aa2c67nat;
    let e0 = 1nat;
    let x0 = 6nat;
    let x1 = 216nat;
    let e1 = 2 * e0 + 1;
    lemma_power_mod_square_times(6nat, e0, n, x0, 0nat, x1);
    let x2 = 279936nat;
    let e2 = 2 * e1 + 1;
    lemma_power_mod_square_times(6nat, e1, n, x1, 0nat, x2);
    let x3 = 0x23e5f18nat;
    let e3 = 2 * e2;
    lemma_power_mod_square(6nat, e2, n, x2, 1752nat, x3);
    let x4 = 0x1057281nat;
    let e4 = 2 * e3;
    lemma_power_mod_square(6nat, e3, n, x3, 0x1e39ae9nat, x4);
    let x5 = 0x21adce2nat;
    let e5 = 2 * e4;
    lemma_power_mod_square(6nat, e4, n, x4, 0x643389nat, x5);
    let x6 = 0x166bb21nat;
    let e6 = 2 * e5 + 1;
    lemma_power_mod_square_times(6nat, e5, n, x5, 0x9f9f3f1nat, x6);
    let x7 = 0x8507a3nat;
    let e7 = 2 * e6 + 1;
    lemma_power_mod_square_times(6nat, e6, n, x6, 0x46bdd25nat, x7);
    let x8 = 0x79c37fnat;
    let e8 = 2 * e7;
    lemma_power_mod_square(6nat, e7, n, x7, 0x19f126nat, x8);
    let x9 = 0x270a54nat;
    let e9 = 2 * e8 + 1;
    lemma_power_mod_square_times(6nat, e8, n, x8, 0x82677enat, x9);
    let x10 = 0xb380b0nat;
    let e10 = 2 * e9 + 1;
    lemma_power_mod_square_times(6nat, e9, n, x9, 878544nat, x10);
    let x11 = 198857nat;
    let e11 = 2 * e10;
    lemma_power_mod_square(6nat, e10, n, x10, 0x2f3bb1nat, x11);
    let x12 = 0x161da25nat;
    let e12 = 2 * e11;
    lemma_power_mod_square(6nat, e11, n, x11, 884nat, x12);
    let x13 = 0x2000afbnat;
    let e13 = 2 * e12 + 1;
    lemma_power_mod_square_times(6nat, e12, n, x12, 0x44d492dnat, x13);
    let x14 = 0x27ceff7nat;
    let e14 = 2 * e13;
    lemma_power_mod_square(6nat, e13, n, x13, 0x180578enat, x14);
    let x15 = 0x655573nat;
    let e15 = 2 * e14;
    lemma_power_mod_square(6nat, e14, n, x14, 0x252b372nat, x15);
    let x16 = 0x8bd4c5nat;
    let e16 = 2 * e15;
    lemma_power_mod_square(6nat, e15, n, x15, 986492nat, x16);
    let x17 = 0x1cf350dnat;
    let e17 = 2 * e16;
    lemma_power_mod_square(6nat, e16, n, x16, 0x1ca994nat, x17);
    let x18 = 0x30db45nat;
    let e18 = 2 * e17 + 1;
    lemma_power_mod_square_times(6nat, e17, n, x17, 0x75f2727nat, x18);
    let x19 = 0x2278df2nat;
    let e19 = 2 * e18;
    lemma_power_mod_square(6nat, e18, n, x18, 229313nat, x19);
    let x20 = 0x1796be7nat;
    let e20 = 2 * e19;
    lemma_power_mod_square(6nat, e19, n, x19, 0x1bdf21bnat, x20);
    let x21 = 0x188a5e6nat;
    let e21 = 2 * e20;
    lemma_power_mod_square(6nat, e20, n, x20, 0xd0d03dnat, x21);
    let x22 = 0x1d1661cnat;
    let e22 = 2 * e21 + 1;
    lemma_power_mod_square_times(6nat, e21, n, x21, 0x54c02e4nat, x22);
    let x23 = 0x1d1661bnat;
    let e23 = 2 * e22;
    lemma_power_mod_square(6nat, e22, n, x22, 0x13d8243nat, x23);
}

proof fn lemma_power_44706919_over_3()
    ensures
        power_mod(6nat, 0xe36422nat, 0x2aa2c67nat) == 0x1d1661bnat,
{
    lemma_power_mod_first(6nat, 0x2aa2c67nat);
    lemma_power_44706919_over_3_part_0();
}

proof fn lemma_power_44706919_over_797_part_0()
    requires
        power_mod(6nat, 1nat, 0x2aa2c67nat) == 6nat,
    ensures
        power_mod(6nat, 56094nat, 0x2aa2c67nat) == 0x273feecnat,
{
    let n = 0x2aa2c67nat;
    let e0 = 1nat;
    let x0 = 6nat;
    let x1 = 216nat;
    let e1 = 2 * e0 + 1;
    lemma_power_mod_square_times(6nat, e0, n, x0, 0nat, x1);
    let x2 = 46656nat;
    let e2 = 2 * e1;
    lemma_power_mod_square(6nat, e1, n, x1, 0nat, x2);
    let x3 = 0x5fba84nat;
    let e3 = 2 * e2 + 1;
    lemma_power_mod_square_times(6nat, e2, n, x2, 292nat, x3);
    let x4 = 0x180a949nat;
    let e4 = 2 * e3 + 1;
    lemma_power_mod_square_times(6nat, e3, n, x3, 0x5099d1nat, x4);
    let x5 = 0x80a9fbnat;
    let e5 = 2 * e4;
    lemma_power_mod_square(6nat, e4, n, x4, 0xd8e6banat, x5);
    let x6 = 0x2528bf6nat;
    let e6 = 2 * e5 + 1;
    lemma_power_mod_square_times(6nat, e5, n, x5, 0x919a60nat, x6);
    let x7 = 0x2153de2nat;
    let e7 = 2 * e6 + 1;
    lemma_power_mod_square_times(6nat, e6, n, x6, 0xc250e1anat, x7);
    let x8 = 0x175360bnat;
    let e8 = 2 * e7;
    lemma_power_mod_square(6nat, e7, n, x7, 0x1a0d31fnat, x8);
    let x9 = 0x182c4bfnat;
    let e9 = 2 * e8;
    lemma_power_mod_square(6nat, e8, n, x8, 0xcc2e36nat, x9);
    let x10 = 0x1a2e33enat;
    let e10 = 2 * e9;
    lemma_power_mod_square(6nat, e9, n, x9, 0xdb48c5nat, x10);
    let x11 = 0x16180f2nat;
    let e11 = 2 * e10 + 1;
    lemma_power_mod_square_times(6nat, e10, n, x10, 0x6074deanat, x11);
    let x12 = 0x1a3b42nat;
    let e12 = 2 * e11 + 1;
    lemma_power_mod_square_times(6nat, e11, n, x11, 0x44b1e3anat, x12);
    let x13 = 0x18f7a1anat;
    let e13 = 2 * e12 + 1;
    lemma_power_mod_square_times(6nat, e12, n, x12, 396626nat, x13);
    let x14 = 0x3c44ffnat;
    let e14 = 2 * e13 + 1;
    lemma_power_mod_square_times(6nat, e13, n, x13, 0x57b96bfnat, x14);
    let x15 = 0x273feecnat;
    let e15 = 2 * e14;
    lemma_power_mod_square(6nat, e14, n, x14, 348963nat, x15);
}

proof fn lemma_power_44706919_over_797()
    ensures
        power_mod(6nat, 56094nat, 0x2aa2c67nat) == 0x273feecnat,
{
    lemma_power_mod_first(6nat, 0x2aa2c67nat);
    lemma_power_44706919_over_797_part_0();
}

proof fn lemma_power_44706919_over_9349_part_0()
    requires
        power_mod(6nat, 1nat, 0x2aa2c67nat) == 6nat,
    ensures
        power_mod(6nat, 4782nat, 0x2aa2c67nat) == 0x6668a9nat,
{
    let n = 0x2aa2c67nat;
    let e0 = 1nat;
    let x0 = 6nat;
    let x1 = 36nat;
    let e1 = 2 * e0;
    lemma_power_mod_square(6nat, e0, n, x0, 0nat, x1);
    let x2 = 1296nat;
    let e2 = 2 * e1;
    lemma_power_mod_square(6nat, e1, n, x1, 0nat, x2);
    let x3 = 0x99c600nat;
    let e3 = 2 * e2 + 1;
    lemma_power_mod_square_times(6nat, e2, n, x2, 0nat, x3);
    let x4 = 0x862e8bnat;
    let e4 = 2 * e3;
    lemma_power_mod_square(6nat, e3, n, x3, 0x22a9c3nat, x4);
    let x5 = 0x1aad1a4nat;
    let e5 = 2 * e4 + 1;
    lemma_power_mod_square_times(6nat, e4, n, x4, 0x9e5bfenat, x5);
    let x6 = 0x5e8031nat;
    let e6 = 2 * e5;
    lemma_power_mod_square(6nat, e5, n, x5, 0x10b0cc9nat, x6);
    let x7 = 0x1580deenat;
    let e7 = 2 * e6 + 1;
    lemma_power_mod_square_times(6nat, e6, n, x6, 0x4e8be8nat, x7);
    let x8 = 0xef3996nat;
    let e8 = 2 * e7;
    lemma_power_mod_square(6nat, e7, n, x7, 0xad8622nat, x8);
    let x9 = 0x290dc83nat;
    let e9 = 2 * e8 + 1;
    lemma_power_mod_square_times(6nat, e8, n, x8, 0x1f75963nat, x9);
    let x10 = 0x1a37ccenat;
    let e10 = 2 * e9 + 1;
    lemma_power_mod_square_times(6nat, e9, n, x9, 0xed2ee58nat, x10);
    let x11 = 0x1cfcda3nat;
    let e11 = 2 * e10 + 1;
    lemma_power_mod_square_times(6nat, e10, n, x10, 0x60bba43nat, x11);
    let x12 = 0x6668a9nat;
    let e12 = 2 * e11;
    lemma_power_mod_square(6nat, e11, n, x11, 0x13b55e0nat, x12);
}

proof fn lemma_power_44706919_over_9349()
    ensures
        power_mod(6nat, 4782nat, 0x2aa2c67nat) == 0x6668a9nat,
{
    lemma_power_mod_first(6nat, 0x2aa2c67nat);
    lemma_power_44706919_over_9349_part_0();
}

proof fn lemma_certificate_44706919()
    ensures
        is_certificate(0x2aa2c67nat, 6nat, seq![2nat, 3nat, 797nat, 9349nat]),
{
    let n = 0x2aa2c67nat;
    let factors = seq![2nat, 3nat, 797nat, 9349nat];
    lemma_small_primes();
    lemma_small_primes();
    lemma_prime_797();
    lemma_prime_9349();
    lemma_power_44706919_over_2();
    lemma_fundamental_div_mod_converse(0x2aa2c66int, 2int, 0x1551633int, 0);
    lemma_power_44706919_over_3();
    lemma_fundamental_div_mod_converse(0x2aa2c66int, 3int, 0xe36422int, 0);
    lemma_power_44706919_over_797();
    lemma_fundamental_div_mod_converse(0x2aa2c66int, 797int, 56094int, 0);
    lemma_power_44706919_over_9349();
    lemma_fundamental_div_mod_converse(0x2aa2c66int, 9349int, 4782int, 0);
    lemma_power_mod_square(6nat, 0x1551633nat, n, 0x2aa2c66nat, 0x2aa2c65nat, 1);
    let f0 = Seq::<nat>::empty();
    lemma_product_push(f0, 2nat, 1nat);
    let f1 = f0.push(2nat);
    lemma_product_push(f1, 3nat, 2nat);
    let f2 = f1.push(3nat);
    lemma_product_push(f2, 797nat, 6nat);
    let f3 = f2.push(797nat);
    lemma_product_push(f3, 9349nat, 4782nat);
    let f4 = f3.push(9349nat);
    assert(factors =~= f4);
    assert forall|j: int| 0 <= j < factors.len() implies is_prime(#[trigger] factors[j])
        && power_mod(6nat, ((n - 1) / factors[j] as int) as nat, n) != 1 by {
        if j == 0 {
        } else if j == 1 {
        } else if j == 2 {
        } else if j == 3 {
        }
    }
}

/// 44706919 is prime.
pub(crate) proof fn lemma_prime_44706919()
    ensures
        is_prime(0x2aa2c67nat),
{
    lemma_certificate_44706919();
    lemma_certified_prime(0x2aa2c67nat, 6nat, seq![2nat, 3nat, 797nat, 9349nat]);
}

proof fn lemma_power_107590001_over_2_part_0()
    requires
        power_mod(3nat, 1nat, 0x669b171nat) == 3nat,
    ensures
        power_mod(3nat, 0x334d8b8nat, 0x669b171nat) == 0x669b170nat,
{
    let n = 0x669b171nat;
    let e0 = 1nat;
    let x0 = 3nat;
    let x1 = 27nat;
    let e1 = 2 * e0 + 1;
    lemma_power_mod_square_times(3nat, e0, n, x0, 0nat, x1);
    let x2 = 729nat;
    let e2 = 2 * e1;
    lemma_power_mod_square(3nat, e1, n, x1, 0nat, x2);
    let x3 = 531441nat;
    let e3 = 2 * e2;
    lemma_power_mod_square(3nat, e2, n, x2, 0nat, x3);
    let x4 = 0x108c390nat;
    let e4 = 2 * e3 + 1;
    lemma_power_mod_square_times(3nat, e3, n, x3, 7875nat, x4);
    let x5 = 0x5597ce3nat;
    let e5 = 2 * e4 + 1;
    lemma_power_mod_square_times(3nat, e4, n, x4, 0x80196dnat, x5);
    let x6 = 0x3c017b9nat;
    let e6 = 2 * e5;
    lemma_power_mod_square(3nat, e5, n, x5, 0x4766a90nat, x6);
    let x7 = 0x11fa327nat;
    let e7 = 2 * e6 + 1;
    lemma_power_mod_square_times(3nat, e6, n, x6, 0x69470acnat, x7);
    let x8 = 0x348169fnat;
    let e8 = 2 * e7;
    lemma_power_mod_square(3nat, e7, n, x7, 0x326572nat, x8);
    let x9 = 0x5dd75a3nat;
    let e9 = 2 * e8;
    lemma_power_mod_square(3nat, e8, n, x8, 0x1ade3fenat, x9);
    let x10 = 0x140edbanat;
    let e10 = 2 * e9 + 1;
    lemma_power_mod_square_times(3nat, e9, n, x9, 0x10179d31nat, x10);
    let x11 = 0x1954617nat;
    let e11 = 2 * e10 + 1;
    lemma_power_mod_square_times(3nat, e10, n, x10, 0xbc3625nat, x11);
    let x12 = 153834nat;
    let e12 = 2 * e11;
    lemma_power_mod_square(3nat, e11, n, x11, 0x640c17nat, x12);
    let x13 = 0x5895bc9nat;
    let e13 = 2 * e12 + 1;
    lemma_power_mod_square_times(3nat, e12, n, x12, 659nat, x13);
    let x14 = 0x105a531nat;
    let e14 = 2 * e13 + 1;
    lemma_power_mod_square_times(3nat, e13, n, x13, 0xe570962nat, x14);
    let x15 = 0x1108b0cnat;
    let e15 = 2 * e14;
    lemma_power_mod_square(3nat, e14, n, x14, 0x29b325nat, x15);
    let x16 = 0x4ecb382nat;
    let e16 = 2 * e15;
    lemma_power_mod_square(3nat, e15, n, x15, 0x2d3eeenat, x16);
    let x17 = 0xc60cdenat;
    let e17 = 2 * e16;
    lemma_power_mod_square(3nat, e16, n, x16, 0x3c82086nat, x17);
    let x18 = 0xa3cce9nat;
    let e18 = 2 * e17 + 1;
    lemma_power_mod_square_times(3nat, e17, n, x17, 0x47ad53nat, x18);
    let x19 = 0x2b4e513nat;
    let e19 = 2 * e18;
    lemma_power_mod_square(3nat, e18, n, x18, 0x1057denat, x19);
    let x20 = 0x19c1916nat;
    let e20 = 2 * e19 + 1;
    lemma_power_mod_square_times(3nat, e19, n, x19, 0x36d54f5nat, x20);
    let x21 = 0x475de31nat;
    let e21 = 2 * e20 + 1;
    lemma_power_mod_square_times(3nat, e20, n, x20, 0x13655abnat, x21);
    let x22 = 0xb50385nat;
    let e22 = 2 * e21 + 1;
    lemma_power_mod_square_times(3nat, e21, n, x21, 0x94ea77enat, x22);
    let x23 = 0x26c54fnat;
    let e23 = 2 * e22;
    lemma_power_mod_square(3nat, e22, n, x22, 0x13f56anat, x23);
    let x24 = 0x138b15bnat;
    let e24 = 2 * e23;
    lemma_power_mod_square(3nat, e23, n, x23, 60006nat, x24);
    let x25 = 0x669b170nat;
    let e25 = 2 * e24;
    lemma_power_mod_square(3nat, e24, n, x24, 0x3b8ef9nat, x25);
}

proof fn lemma_power_107590001_over_2()
    ensures
        power_mod(3nat, 0x334d8b8nat, 0x669b171nat) == 0x669b170nat,
{
    lemma_power_mod_first(3nat, 0x669b171nat);
    lemma_power_107590001_over_2_part_0();
}

proof fn lemma_power_107590001_over_5_part_0()
    requires
        power_mod(3nat, 1nat, 0x669b171nat) == 3nat,
    ensures
        power_mod(3nat, 0x14856b0nat, 0x669b171nat) == 0x40100e6nat,
{
    let n = 0x669b171nat;
    let e0 = 1nat;
    let x0 = 3nat;
    let x1 = 9nat;
    let e1 = 2 * e0;
    lemma_power_mod_square(3nat, e0, n, x0, 0nat, x1);
    let x2 = 243nat;
    let e2 = 2 * e1 + 1;
    lemma_power_mod_square_times(3nat, e1, n, x1, 0nat, x2);
    let x3 = 59049nat;
    let e3 = 2 * e2;
    lemma_power_mod_square(3nat, e2, n, x2, 0nat, x3);
    let x4 = 0x29ded71nat;
    let e4 = 2 * e3;
    lemma_power_mod_square(3nat, e3, n, x3, 32nat, x4);
    let x5 = 0x10cf43cnat;
    let e5 = 2 * e4 + 1;
    lemma_power_mod_square_times(3nat, e4, n, x4, 0x3342257nat, x5);
    let x6 = 0x628ef12nat;
    let e6 = 2 * e5;
    lemma_power_mod_square(3nat, e5, n, x5, 0x2c0fdenat, x6);
    let x7 = 0x650111cnat;
    let e7 = 2 * e6;
    lemma_power_mod_square(3nat, e6, n, x6, 0x5eabaa8nat, x7);
    let x8 = 0x3caf1c2nat;
    let e8 = 2 * e7;
    lemma_power_mod_square(3nat, e7, n, x7, 0x636d72enat, x8);
    let x9 = 0x526f38nat;
    let e9 = 2 * e8;
    lemma_power_mod_square(3nat, e8, n, x8, 0x23e3e8cnat, x9);
    let x10 = 0x56c2548nat;
    let e10 = 2 * e9 + 1;
    lemma_power_mod_square_times(3nat, e9, n, x9, 813816nat, x10);
    let x11 = 0x17e8ceanat;
    let e11 = 2 * e10;
    lemma_power_mod_square(3nat, e10, n, x10, 0x495c1b6nat, x11);
    let x12 = 0x1588dc2nat;
    let e12 = 2 * e11 + 1;
    lemma_power_mod_square_times(3nat, e11, n, x11, 0x10b6d8anat, x12);
    let x13 = 0x43e80f7nat;
    let e13 = 2 * e12;
    lemma_power_mod_square(3nat, e12, n, x12, 0x48505dnat, x13);
    let x14 = 0x1b66b6dnat;
    let e14 = 2 * e13 + 1;
    lemma_power_mod_square_times(3nat, e13, n, x13, 0x86d34e6nat, x14);
    let x15 = 0xb891c2nat;
    let e15 = 2 * e14 + 1;
    lemma_power_mod_square_times(3nat, e14, n, x14, 0x15f3e89nat, x15);
    let x16 = 0x4652ea8nat;
    let e16 = 2 * e15;
    lemma_power_mod_square(3nat, e15, n, x15, 0x14c01cnat, x16);
    let x17 = 0x3bda40bnat;
    let e17 = 2 * e16 + 1;
    lemma_power_mod_square_times(3nat, e16, n, x16, 0x9098785nat, x17);
    let x18 = 0x4a244fenat;
    let e18 = 2 * e17;
    lemma_power_mod_square(3nat, e17, n, x17, 0x22e9dabnat, x18);
    let x19 = 0x3ec5170nat;
    let e19 = 2 * e18 + 1;
    lemma_power_mod_square_times(3nat, e18, n, x18, 0xa0b8e5cnat, x19);
    let x20 = 0x3d665c3nat;
    let e20 = 2 * e19 + 1;
    lemma_power_mod_square_times(3nat, e19, n, x19, 0x733328dnat, x20);
    let x21 = 0x5ee0fa5nat;
    let e21 = 2 * e20;
    lemma_power_mod_square(3nat, e20, n, x20, 0x24bdf24nat, x21);
    let x22 = 0x4042e98nat;
    let e22 = 2 * e21;
    lemma_power_mod_square(3nat, e21, n, x21, 0x57bbd51nat, x22);
    let x23 = 0x5e4012fnat;
    let e23 = 2 * e22;
    lemma_power_mod_square(3nat, e22, n, x22, 0x283f1a1nat, x23);
    let x24 = 0x40100e6nat;
    let e24 = 2 * e23;
    lemma_power_mod_square(3nat, e23, n, x23, 0x56933ebnat, x24);
}

proof fn lemma_power_107590001_over_5()
    ensures
        power_mod(3nat, 0x14856b0nat, 0x669b171nat) == 0x40100e6nat,
{
    lemma_power_mod_first(3nat, 0x669b171nat);
    lemma_power_107590001_over_5_part_0();
}

proof fn lemma_power_107590001_over_7_part_0()
    requires
        power_mod(3nat, 1nat, 0x669b171nat) == 3nat,
    ensures
        power_mod(3nat, 0xea8710nat, 0x669b171nat) == 0x23c168cnat,
{
    let n = 0x669b171nat;
    let e0 = 1nat;
    let x0 = 3nat;
    let x1 = 27nat;
    let e1 = 2 * e0 + 1;
    lemma_power_mod_square_times(3nat, e0, n, x0, 0nat, x1);
    let x2 = 2187nat;
    let e2 = 2 * e1 + 1;
    lemma_power_mod_square_times(3nat, e1, n, x1, 0nat, x2);
    let x3 = 0x48fb79nat;
    let e3 = 2 * e2;
    lemma_power_mod_square(3nat, e2, n, x2, 0nat, x3);
    let x4 = 0x67ddd3nat;
    let e4 = 2 * e3 + 1;
    lemma_power_mod_square_times(3nat, e3, n, x3, 637888nat, x4);
    let x5 = 0x26da221nat;
    let e5 = 2 * e4;
    lemma_power_mod_square(3nat, e4, n, x4, 430664nat, x5);
    let x6 = 0x3dc69b0nat;
    let e6 = 2 * e5 + 1;
    lemma_power_mod_square_times(3nat, e5, n, x5, 0x2c226c3nat, x6);
    let x7 = 0x916047nat;
    let e7 = 2 * e6;
    lemma_power_mod_square(3nat, e6, n, x6, 0x25317c9nat, x7);
    let x8 = 0x2a3eb5anat;
    let e8 = 2 * e7 + 1;
    lemma_power_mod_square_times(3nat, e7, n, x7, 0x269ec9nat, x8);
    let x9 = 0x2e68fa0nat;
    let e9 = 2 * e8;
    lemma_power_mod_square(3nat, e8, n, x8, 0x1164a44nat, x9);
    let x10 = 0x63ecc10nat;
    let e10 = 2 * e9;
    lemma_power_mod_square(3nat, e9, n, x9, 0x14fdef0nat, x10);
    let x11 = 0x71c842nat;
    let e11 = 2 * e10;
    lemma_power_mod_square(3nat, e10, n, x10, 0x615059enat, x11);
    let x12 = 0x1e491c3nat;
    let e12 = 2 * e11;
    lemma_power_mod_square(3nat, e11, n, x11, 516817nat, x12);
    let x13 = 0x18fa872nat;
    let e13 = 2 * e12 + 1;
    lemma_power_mod_square_times(3nat, e12, n, x12, 0x1ad1539nat, x13);
    let x14 = 0x5c60670nat;
    let e14 = 2 * e13 + 1;
    lemma_power_mod_square_times(3nat, e13, n, x13, 0x123e19cnat, x14);
    let x15 = 0x719a42nat;
    let e15 = 2 * e14 + 1;
    lemma_power_mod_square_times(3nat, e14, n, x14, 0xf98059enat, x15);
    let x16 = 0x19258b2nat;
    let e16 = 2 * e15;
    lemma_power_mod_square(3nat, e15, n, x15, 515186nat, x16);
    let x17 = 0xa73236nat;
    let e17 = 2 * e16;
    lemma_power_mod_square(3nat, e16, n, x16, 0x629b6enat, x17);
    let x18 = 0x5e87b62nat;
    let e18 = 2 * e17;
    lemma_power_mod_square(3nat, e17, n, x17, 0x110722nat, x18);
    let x19 = 0x191638fnat;
    let e19 = 2 * e18 + 1;
    lemma_power_mod_square_times(3nat, e18, n, x18, 0x1054524dnat, x19);
    let x20 = 0x46dfe17nat;
    let e20 = 2 * e19;
    lemma_power_mod_square(3nat, e19, n, x19, 0x62236anat, x20);
    let x21 = 0x4382303nat;
    let e21 = 2 * e20;
    lemma_power_mod_square(3nat, e20, n, x20, 0x30f4ceenat, x21);
    let x22 = 0x3acd54dnat;
    let e22 = 2 * e21;
    lemma_power_mod_square(3nat, e21, n, x21, 0x2c6aa7cnat, x22);
    let x23 = 0x23c168cnat;
    let e23 = 2 * e22;
    lemma_power_mod_square(3nat, e22, n, x22, 0x21b2dednat, x23);
}

proof fn lemma_power_107590001_over_7()
    ensures
        power_mod(3nat, 0xea8710nat, 0x669b171nat) == 0x23c168cnat,
{
    lemma_power_mod_first(3nat, 0x669b171nat);
    lemma_power_107590001_over_7_part_0();
}

proof fn lemma_power_107590001_over_29_part_0()
    requires
        power_mod(3nat, 1nat, 0x669b171nat) == 3nat,
    ensures
        power_mod(3nat, 0x389c30nat, 0x669b171nat) == 0x1f3240anat,
{
    let n = 0x669b171nat;
    let e0 = 1nat;
    let x0 = 3nat;
    let x1 = 27nat;
    let e1 = 2 * e0 + 1;
    lemma_power_mod_square_times(3nat, e0, n, x0, 0nat, x1);
    let x2 = 2187nat;
    let e2 = 2 * e1 + 1;
    lemma_power_mod_square_times(3nat, e1, n, x1, 0nat, x2);
    let x3 = 0x48fb79nat;
    let e3 = 2 * e2;
    lemma_power_mod_square(3nat, e2, n, x2, 0nat, x3);
    let x4 = 0x245da6cnat;
    let e4 = 2 * e3;
    lemma_power_mod_square(3nat, e3, n, x3, 212629nat, x4);
    let x5 = 0x48b884fnat;
    let e5 = 2 * e4;
    lemma_power_mod_square(3nat, e4, n, x4, 0xce38d1nat, x5);
    let x6 = 0x582ae95nat;
    let e6 = 2 * e5 + 1;
    lemma_power_mod_square_times(3nat, e5, n, x5, 0x9a9ec6enat, x6);
    let x7 = 0x2e7ed14nat;
    let e7 = 2 * e6;
    lemma_power_mod_square(3nat, e6, n, x6, 0x4bc2d75nat, x7);
    let x8 = 0x29c0b65nat;
    let e8 = 2 * e7;
    lemma_power_mod_square(3nat, e7, n, x7, 0x1511b5bnat, x8);
    let x9 = 0x10a38adnat;
    let e9 = 2 * e8 + 1;
    lemma_power_mod_square_times(3nat, e8, n, x8, 0x32f87benat, x9);
    let x10 = 0x1512034nat;
    let e10 = 2 * e9 + 1;
    lemma_power_mod_square_times(3nat, e9, n, x9, 0x818377nat, x10);
    let x11 = 0x15a0df6nat;
    let e11 = 2 * e10 + 1;
    lemma_power_mod_square_times(3nat, e10, n, x10, 0xcfb05anat, x11);
    let x12 = 0x5dcdc28nat;
    let e12 = 2 * e11;
    lemma_power_mod_square(3nat, e11, n, x11, 0x48f1fcnat, x12);
    let x13 = 0x39db4eanat;
    let e13 = 2 * e12;
    lemma_power_mod_square(3nat, e12, n, x12, 0x55c1bb6nat, x13);
    let x14 = 0x256ea07nat;
    let e14 = 2 * e13;
    lemma_power_mod_square(3nat, e13, n, x13, 0x209fb2dnat, x14);
    let x15 = 0x1be11a7nat;
    let e15 = 2 * e14;
    lemma_power_mod_square(3nat, e14, n, x14, 0xda7e2anat, x15);
    let x16 = 0xd69386nat;
    let e16 = 2 * e15 + 1;
    lemma_power_mod_square_times(3nat, e15, n, x15, 0x16b9b9dnat, x16);
    let x17 = 0x40c5b23nat;
    let e17 = 2 * e16 + 1;
    lemma_power_mod_square_times(3nat, e16, n, x16, 0x542359nat, x17);
    let x18 = 0x5acc9e5nat;
    let e18 = 2 * e17;
    lemma_power_mod_square(3nat, e17, n, x17, 0x28e3924nat, x18);
    let x19 = 0x55f633cnat;
    let e19 = 2 * e18;
    lemma_power_mod_square(3nat, e18, n, x18, 0x5059eednat, x19);
    let x20 = 0x2587c0bnat;
    let e20 = 2 * e19;
    lemma_power_mod_square(3nat, e19, n, x19, 0x48047d5nat, x20);
    let x21 = 0x1f3240anat;
    let e21 = 2 * e20;
    lemma_power_mod_square(3nat, e20, n, x20, 0xdba3dfnat, x21);
}

proof fn lemma_power_107590001_over_29()
    ensures
        power_mod(3nat, 0x389c30nat, 0x669b171nat) == 0x1f3240anat,
{
    lemma_power_mod_first(3nat, 0x669b171nat);
    lemma_power_107590001_over_29_part_0();
}

proof fn lemma_power_107590001_over_53_part_0()
    requires
        power_mod(3nat, 1nat, 0x669b171nat) == 3nat,
    ensures
        power_mod(3nat, 0x1ef9b0nat, 0x669b171nat) == 0xe88e20nat,
{
    let n = 0x669b171nat;
    let e0 = 1nat;
    let x0 = 3nat;
    let x1 = 27nat;
    let e1 = 2 * e0 + 1;
    lemma_power_mod_square_times(3nat, e0, n, x0, 0nat, x1);
    let x2 = 2187nat;
    let e2 = 2 * e1 + 1;
    lemma_power_mod_square_times(3nat, e1, n, x1, 0nat, x2);
    let x3 = 0xdaf26bnat;
    let e3 = 2 * e2 + 1;
    lemma_power_mod_square_times(3nat, e2, n, x2, 0nat, x3);
    let x4 = 0x1379979nat;
    let e4 = 2 * e3;
    lemma_power_mod_square(3nat, e3, n, x3, 0x1d3340nat, x4);
    let x5 = 0x16f2b11nat;
    let e5 = 2 * e4 + 1;
    lemma_power_mod_square_times(3nat, e4, n, x4, 0xb16da2nat, x5);
    let x6 = 0x5d35edanat;
    let e6 = 2 * e5 + 1;
    lemma_power_mod_square_times(3nat, e5, n, x5, 0xf65a99nat, x6);
    let x7 = 0x22b8458nat;
    let e7 = 2 * e6 + 1;
    lemma_power_mod_square_times(3nat, e6, n, x6, 0xfe06fd4nat, x7);
    let x8 = 0x3cb8b98nat;
    let e8 = 2 * e7 + 1;
    lemma_power_mod_square_times(3nat, e7, n, x7, 0x233eda8nat, x8);
    let x9 = 0x1a63cdbnat;
    let e9 = 2 * e8 + 1;
    lemma_power_mod_square_times(3nat, e8, n, x8, 0x6bcddb5nat, x9);
    let x10 = 0x306d4dfnat;
    let e10 = 2 * e9;
    lemma_power_mod_square(3nat, e9, n, x9, 0x6c991anat, x10);
    let x11 = 0x14e8a91nat;
    let e11 = 2 * e10;
    lemma_power_mod_square(3nat, e10, n, x10, 0x16db2b0nat, x11);
    let x12 = 0x4e23dd0nat;
    let e12 = 2 * e11 + 1;
    lemma_power_mod_square_times(3nat, e11, n, x11, 0xcc8443nat, x12);
    let x13 = 0x1ed53f7nat;
    let e13 = 2 * e12 + 1;
    lemma_power_mod_square_times(3nat, e12, n, x12, 0xb286319nat, x13);
    let x14 = 0x38f8265nat;
    let e14 = 2 * e13;
    lemma_power_mod_square(3nat, e13, n, x13, 0x943eacnat, x14);
    let x15 = 0x3db522bnat;
    let e15 = 2 * e14 + 1;
    lemma_power_mod_square_times(3nat, e14, n, x14, 0x5ee4760nat, x15);
    let x16 = 0x2e9443fnat;
    let e16 = 2 * e15 + 1;
    lemma_power_mod_square_times(3nat, e15, n, x15, 0x6f5562cnat, x16);
    let x17 = 0x4b7f7acnat;
    let e17 = 2 * e16;
    lemma_power_mod_square(3nat, e16, n, x16, 0x15252a5nat, x17);
    let x18 = 0x5cca012nat;
    let e18 = 2 * e17;
    lemma_power_mod_square(3nat, e17, n, x17, 0x378d45enat, x18);
    let x19 = 0x63aaa41nat;
    let e19 = 2 * e18;
    lemma_power_mod_square(3nat, e18, n, x18, 0x53e95b3nat, x19);
    let x20 = 0xe88e20nat;
    let e20 = 2 * e19;
    lemma_power_mod_square(3nat, e19, n, x19, 0x60cfbf1nat, x20);
}

proof fn lemma_power_107590001_over_53()
    ensures
        power_mod(3nat, 0x1ef9b0nat, 0x669b171nat) == 0xe88e20nat,
{
    lemma_power_mod_first(3nat, 0x669b171nat);
    lemma_power_107590001_over_53_part_0();
}

proof fn lemma_certificate_107590001()
    ensures
        is_certificate(0x669b171nat, 3nat, seq![2nat, 2nat, 2nat, 2nat, 5nat, 5nat, 5nat, 5nat, 7nat, 29nat, 53nat]),
{
    let n = 0x669b171nat;
    let factors = seq![2nat, 2nat, 2nat, 2nat, 5nat, 5nat, 5nat, 5nat, 7nat, 29nat, 53nat];
    lemma_small_primes();
    lemma_small_primes();
    lemma_small_primes();
    lemma_prime_29();
    lemma_prime_53();
    lemma_power_107590001_over_2();
    lemma_fundamental_div_mod_converse(0x669b170int, 2int, 0x334d8b8int, 0);
    lemma_power_107590001_over_5();
    lemma_fundamental_div_mod_converse(0x669b170int, 5int, 0x14856b0int, 0);
    lemma_power_107590001_over_7();
    lemma_fundamental_div_mod_converse(0x669b170int, 7int, 0xea8710int, 0);
    lemma_power_107590001_over_29();
    lemma_fundamental_div_mod_converse(0x669b170int, 29int, 0x389c30int, 0);
    lemma_power_107590001_over_53();
    lemma_fundamental_div_mod_converse(0x669b170int, 53int, 0x1ef9b0int, 0);
    lemma_power_mod_square(3nat, 0x334d8b8nat, n, 0x669b170nat, 0x669b16fnat, 1);
    let f0 = Seq::<nat>::empty();
    lemma_product_push(f0, 2nat, 1nat);
    let f1 = f0.push(2nat);
    lemma_product_push(f1, 2nat, 2nat);
    let f2 = f1.push(2nat);
    lemma_product_push(f2, 2nat, 4nat);
    let f3 = f2.push(2nat);
    lemma_product_push(f3, 2nat, 8nat);
    let f4 = f3.push(2nat);
    lemma_product_push(f4, 5nat, 16nat);
    let f5 = f4.push(5nat);
    lemma_product_push(f5, 5nat, 80nat);
    let f6 = f5.push(5nat);
    lemma_product_push(f6, 5nat, 400nat);
    let f7 = f6.push(5nat);
    lemma_product_push(f7, 5nat, 2000nat);
    let f8 = f7.push(5nat);
    lemma_product_push(f8, 7nat, 10000nat);
    let f9 = f8.push(7nat);
    lemma_product_push(f9, 29nat, 70000nat);
    let f10 = f9.push(29nat);
    lemma_product_push(f10, 53nat, 0x1ef9b0nat);
    let f11 = f10.push(53nat);
    assert(factors =~= f11);
    assert forall|j: int| 0 <= j < factors.len() implies is_prime(#[trigger] factors[j])
        && power_mod(3nat, ((n - 1) / factors[j] as int) as nat, n) != 1 by {
        if j == 0 {
        } else if j == 1 {
        } else if j == 2 {
        } else if j == 3 {
        } else if j == 4 {
        } else if j == 5 {
        } else if j == 6 {
        } else if j == 7 {
        } else if j == 8 {
        } else if j == 9 {
        } else if j == 10 {
        }
    }
}

/// 107590001 is prime.
pub(crate) proof fn lemma_prime_107590001()
    ensures
        is_prime(0x669b171nat),
{
    lemma_certificate_107590001();
    lemma_certified_prime(0x669b171nat, 3nat, seq![2nat, 2nat, 2nat, 2nat, 5nat, 5nat, 5nat, 5nat, 7nat, 29nat, 53nat]);
}

proof fn lemma_power_545358713_over_2_part_0()
    requires
        power_mod(5nat, 1nat, 0x20818379nat) == 5nat,
    ensures
        power_mod(5nat, 0x1040c1bcnat, 0x20818379nat) == 0x20818378nat,
{
    let n = 0x20818379nat;
    let e0 = 1nat;
    let x0 = 5nat;
    let x1 = 25nat;
    let e1 = 2 * e0;
    lemma_power_mod_square(5nat, e0, n, x0, 0nat, x1);
    let x2 = 625nat;
    let e2 = 2 * e1;
    lemma_power_mod_square(5nat, e1, n, x1, 0nat, x2);
    let x3 = 390625nat;
    let e3 = 2 * e2;
    lemma_power_mod_square(5nat, e2, n, x2, 0nat, x3);
    let x4 = 0x19cc26e2nat;
    let e4 = 2 * e3;
    lemma_power_mod_square(5nat, e3, n, x3, 279nat, x4);
    let x5 = 0x2003580dnat;
    let e5 = 2 * e4;
    lemma_power_mod_square(5nat, e4, n, x4, 0x1479366fnat, x5);
    let x6 = 0x16482bf8nat;
    let e6 = 2 * e5 + 1;
    lemma_power_mod_square_times(5nat, e5, n, x5, 0x9da36fbdnat, x6);
    let x7 = 0x1b2ce737nat;
    let e7 = 2 * e6;
    lemma_power_mod_square(5nat, e6, n, x6, 0xf460e11nat, x7);
    let x8 = 0x1e4ff5fanat;
    let e8 = 2 * e7;
    lemma_power_mod_square(5nat, e7, n, x7, 0x16b811cfnat, x8);
    let x9 = 0x13a8be55nat;
    let e9 = 2 * e8;
    lemma_power_mod_square(5nat, e8, n, x8, 0x1c444d87nat, x9);
    let x10 = 0x1fd538adnat;
    let e10 = 2 * e9;
    lemma_power_mod_square(5nat, e9, n, x9, 0xbe3bcecnat, x10);
    let x11 = 0x17c954fcnat;
    let e11 = 2 * e10;
    lemma_power_mod_square(5nat, e10, n, x10, 0x1f2c7f15nat, x11);
    let x12 = 0xd66322enat;
    let e12 = 2 * e11;
    lemma_power_mod_square(5nat, e11, n, x11, 0x1167ea72nat, x12);
    let x13 = 0xd339406nat;
    let e13 = 2 * e12 + 1;
    lemma_power_mod_square_times(5nat, e12, n, x12, 0x1b9dc63enat, x13);
    let x14 = 0x313a397nat;
    let e14 = 2 * e13 + 1;
    lemma_power_mod_square_times(5nat, e13, n, x13, 0x1acea9c5nat, x14);
    let x15 = 0x511818anat;
    let e15 = 2 * e14;
    lemma_power_mod_square(5nat, e14, n, x14, 0x4a8cffnat, x15);
    let x16 = 0x4732924nat;
    let e16 = 2 * e15;
    lemma_power_mod_square(5nat, e15, n, x15, 0xca4f40nat, x16);
    let x17 = 0xc0fa90enat;
    let e17 = 2 * e16;
    lemma_power_mod_square(5nat, e16, n, x16, 0x9bf192nat, x17);
    let x18 = 0x17ddfa8fnat;
    let e18 = 2 * e17;
    lemma_power_mod_square(5nat, e17, n, x17, 0x479a99dnat, x18);
    let x19 = 0x168a1f6dnat;
    let e19 = 2 * e18;
    lemma_power_mod_square(5nat, e18, n, x18, 0x11862f14nat, x19);
    let x20 = 0x2a5fddenat;
    let e20 = 2 * e19 + 1;
    lemma_power_mod_square_times(5nat, e19, n, x19, 0x4e24f6e7nat, x20);
    let x21 = 0x17f89229nat;
    let e21 = 2 * e20 + 1;
    lemma_power_mod_square_times(5nat, e20, n, x20, 0x1143203nat, x21);
    let x22 = 0x110ac494nat;
    let e22 = 2 * e21;
    lemma_power_mod_square(5nat, e21, n, x21, 0x11ad51a5nat, x22);
    let x23 = 0x1d305a3enat;
    let e23 = 2 * e22 + 1;
    lemma_power_mod_square_times(5nat, e22, n, x22, 0x2cac77a2nat, x23);
    let x24 = 0xdc85081nat;
    let e24 = 2 * e23 + 1;
    lemma_power_mod_square_times(5nat, e23, n, x23, 0x830d376bnat, x24);
    let x25 = 0x4926925nat;
    let e25 = 2 * e24 + 1;
    lemma_power_mod_square_times(5nat, e24, n, x24, 0x1d3802e0nat, x25);
    let x26 = 0x15d38618nat;
    let e26 = 2 * e25 + 1;
    lemma_power_mod_square_times(5nat, e25, n, x25, 0x337158dnat, x26);
    let x27 = 0x1354151nat;
    let e27 = 2 * e26;
    lemma_power_mod_square(5nat, e26, n, x26, 0xea7c5a7nat, x27);
    let x28 = 0x20818378nat;
    let e28 = 2 * e27;
    lemma_power_mod_square(5nat, e27, n, x27, 753201nat, x28);
}

proof fn lemma_power_545358713_over_2()
    ensures
        power_mod(5nat, 0x1040c1bcnat, 0x20818379nat) == 0x20818378nat,
{
    lemma_power_mod_first(5nat, 0x20818379nat);
    lemma_power_545358713_over_2_part_0();
}

proof fn lemma_power_545358713_over_41_part_0()
    requires
        power_mod(5nat, 1nat, 0x20818379nat) == 5nat,
    ensures
        power_mod(5nat, 0xcaf6b8nat, 0x20818379nat) == 0xdda6d36nat,
{
    let n = 0x20818379nat;
    let e0 = 1nat;
    let x0 = 5nat;
    let x1 = 125nat;
    let e1 = 2 * e0 + 1;
    lemma_power_mod_square_times(5nat, e0, n, x0, 0nat, x1);
    let x2 = 15625nat;
    let e2 = 2 * e1;
    lemma_power_mod_square(5nat, e1, n, x1, 0nat, x2);
    let x3 = 0xe8d4a51nat;
    let e3 = 2 * e2;
    lemma_power_mod_square(5nat, e2, n, x2, 0nat, x3);
    let x4 = 0x14d8d83cnat;
    let e4 = 2 * e3 + 1;
    lemma_power_mod_square_times(5nat, e3, n, x3, 0x20927ff1nat, x4);
    let x5 = 0x1bf4c731nat;
    let e5 = 2 * e4;
    lemma_power_mod_square(5nat, e4, n, x4, 0xd5eaf17nat, x5);
    let x6 = 0x17e33fbenat;
    let e6 = 2 * e5 + 1;
    lemma_power_mod_square_times(5nat, e5, n, x5, 0x7837559fnat, x6);
    let x7 = 0xe316c46nat;
    let e7 = 2 * e6;
    lemma_power_mod_square(5nat, e6, n, x6, 0x118ded2enat, x7);
    let x8 = 0x2df13bdnat;
    let e8 = 2 * e7 + 1;
    lemma_power_mod_square_times(5nat, e7, n, x7, 0x1efc4eefnat, x8);
    let x9 = 0x83fa62anat;
    let e9 = 2 * e8 + 1;
    lemma_power_mod_square_times(5nat, e8, n, x8, 0x144a9dbnat, x9);
    let x10 = 0x15749198nat;
    let e10 = 2 * e9 + 1;
    lemma_power_mod_square_times(5nat, e9, n, x9, 0xa773cbcnat, x10);
    let x11 = 0x1c48f77anat;
    let e11 = 2 * e10 + 1;
    lemma_power_mod_square_times(5nat, e10, n, x10, 0x46ceb276nat, x11);
    let x12 = 0x204e6755nat;
    let e12 = 2 * e11;
    lemma_power_mod_square(5nat, e11, n, x11, 0x189cba87nat, x12);
    let x13 = 0x180724f2nat;
    let e13 = 2 * e12 + 1;
    lemma_power_mod_square_times(5nat, e12, n, x12, 0xa08a09c3nat, x13);
    let x14 = 0x7ce224dnat;
    let e14 = 2 * e13 + 1;
    lemma_power_mod_square_times(5nat, e13, n, x13, 0x58ce30ffnat, x14);
    let x15 = 0x1c5bf8ccnat;
    let e15 = 2 * e14;
    lemma_power_mod_square(5nat, e14, n, x14, 0x1dfc905nat, x15);
    let x16 = 0x4903af9nat;
    let e16 = 2 * e15 + 1;
    lemma_power_mod_square_times(5nat, e15, n, x15, 0x7bb53bcfnat, x16);
    let x17 = 0xd1da6fenat;
    let e17 = 2 * e16;
    lemma_power_mod_square(5nat, e16, n, x16, 0xa4010bnat, x17);
    let x18 = 0x6ca98f7nat;
    let e18 = 2 * e17 + 1;
    lemma_power_mod_square_times(5nat, e17, n, x17, 0x1a75e7c5nat, x18);
    let x19 = 0x1b370d56nat;
    let e19 = 2 * e18 + 1;
    lemma_power_mod_square_times(5nat, e18, n, x18, 0x7183577nat, x19);
    let x20 = 0x12fc8f64nat;
    let e20 = 2 * e19 + 1;
    lemma_power_mod_square_times(5nat, e19, n, x19, 0x71ed4190nat, x20);
    let x21 = 0x205cca2dnat;
    let e21 = 2 * e20;
    lemma_power_mod_square(5nat, e20, n, x20, 0xb17083bnat, x21);
    let x22 = 0x6335b7bnat;
    let e22 = 2 * e21;
    lemma_power_mod_square(5nat, e21, n, x21, 0x20383a5enat, x22);
    let x23 = 0xdda6d36nat;
    let e23 = 2 * e22;
    lemma_power_mod_square(5nat, e22, n, x22, 0x12ecb3bnat, x23);
}

proof fn lemma_power_545358713_over_41()
    ensures
        power_mod(5nat, 0xcaf6b8nat, 0x20818379nat) == 0xdda6d36nat,
{
    lemma_power_mod_first(5nat, 0x20818379nat);
    lemma_power_545358713_over_41_part_0();
}

proof fn lemma_power_545358713_over_59_part_0()
    requires
        power_mod(5nat, 1nat, 0x20818379nat) == 5nat,
    ensures
        power_mod(5nat, 0x8d0ae8nat, 0x20818379nat) == 0xf4d74d5nat,
{
    let n = 0x20818379nat;
    let e0 = 1nat;
    let x0 = 5nat;
    let x1 = 25nat;
    let e1 = 2 * e0;
    lemma_power_mod_square(5nat, e0, n, x0, 0nat, x1);
    let x2 = 625nat;
    let e2 = 2 * e1;
    lemma_power_mod_square(5nat, e1, n, x1, 0nat, x2);
    let x3 = 390625nat;
    let e3 = 2 * e2;
    lemma_power_mod_square(5nat, e2, n, x2, 0nat, x3);
    let x4 = 0x1f7837ffnat;
    let e4 = 2 * e3 + 1;
    lemma_power_mod_square_times(5nat, e3, n, x3, 1398nat, x4);
    let x5 = 0x367d336nat;
    let e5 = 2 * e4 + 1;
    lemma_power_mod_square_times(5nat, e4, n, x4, 0x9854e887nat, x5);
    let x6 = 0x356abeanat;
    let e6 = 2 * e5;
    lemma_power_mod_square(5nat, e5, n, x5, 0x5b56canat, x6);
    let x7 = 0x1f5b9d48nat;
    let e7 = 2 * e6 + 1;
    lemma_power_mod_square_times(5nat, e6, n, x6, 0x1b6e68cnat, x7);
    let x8 = 0x3b5d3b6nat;
    let e8 = 2 * e7;
    lemma_power_mod_square(5nat, e7, n, x7, 0x1e40185anat, x8);
    let x9 = 0x125bb05bnat;
    let e9 = 2 * e8;
    lemma_power_mod_square(5nat, e8, n, x8, 0x6c6a11nat, x9);
    let x10 = 0x1770bedanat;
    let e10 = 2 * e9;
    lemma_power_mod_square(5nat, e9, n, x9, 0xa5e36b7nat, x10);
    let x11 = 0xc84109bnat;
    let e11 = 2 * e10;
    lemma_power_mod_square(5nat, e10, n, x10, 0x10e73611nat, x11);
    let x12 = 0x1729083enat;
    let e12 = 2 * e11 + 1;
    lemma_power_mod_square_times(5nat, e11, n, x11, 0x18185e37nat, x12);
    let x13 = 0x1aab1d4anat;
    let e13 = 2 * e12;
    lemma_power_mod_square(5nat, e12, n, x12, 0x1080670anat, x13);
    let x14 = 0x1e513759nat;
    let e14 = 2 * e13 + 1;
    lemma_power_mod_square_times(5nat, e13, n, x13, 0x6d656ab3nat, x14);
    let x15 = 0xc8b908fnat;
    let e15 = 2 * e14;
    lemma_power_mod_square(5nat, e14, n, x14, 0x1c46a4f2nat, x15);
    let x16 = 0x110b246nat;
    let e16 = 2 * e15 + 1;
    lemma_power_mod_square_times(5nat, e15, n, x15, 0x18354757nat, x16);
    let x17 = 0x1d2ddf2fnat;
    let e17 = 2 * e16 + 1;
    lemma_power_mod_square_times(5nat, e16, n, x16, 0x2cae6dnat, x17);
    let x18 = 0x1cb5565cnat;
    let e18 = 2 * e17 + 1;
    lemma_power_mod_square_times(5nat, e17, n, x17, 0x82f6f1d1nat, x18);
    let x19 = 0x10f7657anat;
    let e19 = 2 * e18;
    lemma_power_mod_square(5nat, e18, n, x18, 0x195abcc6nat, x19);
    let x20 = 0xbbaef1fnat;
    let e20 = 2 * e19 + 1;
    lemma_power_mod_square_times(5nat, e19, n, x19, 0x2c4721fdnat, x20);
    let x21 = 0xf6f8995nat;
    let e21 = 2 * e20;
    lemma_power_mod_square(5nat, e20, n, x20, 0x43ba68cnat, x21);
    let x22 = 0x110320f7nat;
    let e22 = 2 * e21;
    lemma_power_mod_square(5nat, e21, n, x21, 0x7546b52nat, x22);
    let x23 = 0xf4d74d5nat;
    let e23 = 2 * e22;
    lemma_power_mod_square(5nat, e22, n, x22, 0x8e74a5cnat, x23);
}

proof fn lemma_power_545358713_over_59()
    ensures
        power_mod(5nat, 0x8d0ae8nat, 0x20818379nat) == 0xf4d74d5nat,
{
    lemma_power_mod_first(5nat, 0x20818379nat);
    lemma_power_545358713_over_59_part_0();
}

proof fn lemma_power_545358713_over_28181_part_0()
    requires
        power_mod(5nat, 1nat, 0x20818379nat) == 5nat,
    ensures
        power_mod(5nat, 19352nat, 0x20818379nat) == 0x1b0f43fdnat,
{
    let n = 0x20818379nat;
    let e0 = 1nat;
    let x0 = 5nat;
    let x1 = 25nat;
    let e1 = 2 * e0;
    lemma_power_mod_square(5nat, e0, n, x0, 0nat, x1);
    let x2 = 625nat;
    let e2 = 2 * e1;
    lemma_power_mod_square(5nat, e1, n, x1, 0nat, x2);
    let x3 = 0x1dcd65nat;
    let e3 = 2 * e2 + 1;
    lemma_power_mod_square_times(5nat, e2, n, x2, 0nat, x3);
    let x4 = 0x1b530a17nat;
    let e4 = 2 * e3;
    lemma_power_mod_square(5nat, e3, n, x3, 6994nat, x4);
    let x5 = 0x14209954nat;
    let e5 = 2 * e4 + 1;
    lemma_power_mod_square_times(5nat, e4, n, x4, 0x72d80bc9nat, x5);
    let x6 = 0x1f1c3832nat;
    let e6 = 2 * e5 + 1;
    lemma_power_mod_square_times(5nat, e5, n, x5, 0x3e50310enat, x6);
    let x7 = 0x1682d9e6nat;
    let e7 = 2 * e6 + 1;
    lemma_power_mod_square_times(5nat, e6, n, x6, 0x94df54denat, x7);
    let x8 = 0xd1dc5ddnat;
    let e8 = 2 * e7;
    lemma_power_mod_square(5nat, e7, n, x7, 0xf96ea3fnat, x8);
    let x9 = 0x1e2d8154nat;
    let e9 = 2 * e8;
    lemma_power_mod_square(5nat, e8, n, x8, 0x54ae0ddnat, x9);
    let x10 = 0x4fb5337nat;
    let e10 = 2 * e9 + 1;
    lemma_power_mod_square_times(5nat, e9, n, x9, 0x8c14ec21nat, x10);
    let x11 = 0x88dbb57nat;
    let e11 = 2 * e10 + 1;
    lemma_power_mod_square_times(5nat, e10, n, x10, 0x3d1422enat, x11);
    let x12 = 0xbf706ddnat;
    let e12 = 2 * e11;
    lemma_power_mod_square(5nat, e11, n, x11, 0x2403554nat, x12);
    let x13 = 0x9b7c65nat;
    let e13 = 2 * e12;
    lemma_power_mod_square(5nat, e12, n, x12, 0x4677484nat, x13);
    let x14 = 0x1b0f43fdnat;
    let e14 = 2 * e13;
    lemma_power_mod_square(5nat, e13, n, x13, 190396nat, x14);
}

proof fn lemma_power_545358713_over_28181()
    ensures
        power_mod(5nat, 19352nat, 0x20818379nat) == 0x1b0f43fdnat,
{
    lemma_power_mod_first(5nat, 0x20818379nat);
    lemma_power_545358713_over_28181_part_0();
}

proof fn lemma_certificate_545358713()
    ensures
        is_certificate(0x20818379nat, 5nat, seq![2nat, 2nat, 2nat, 41nat, 59nat, 28181nat]),
{
    let n = 0x20818379nat;
    let factors = seq![2nat, 2nat, 2nat, 41nat, 59nat, 28181nat];
    lemma_small_primes();
    lemma_prime_41();
    lemma_prime_59();
    lemma_prime_28181();
    lemma_power_545358713_over_2();
    lemma_fundamental_div_mod_converse(0x20818378int, 2int, 0x1040c1bcint, 0);
    lemma_power_545358713_over_41();
    lemma_fundamental_div_mod_converse(0x20818378int, 41int, 0xcaf6b8int, 0);
    lemma_power_545358713_over_59();
    lemma_fundamental_div_mod_converse(0x20818378int, 59int, 0x8d0ae8int, 0);
    lemma_power_545358713_over_28181();
    lemma_fundamental_div_mod_converse(0x20818378int, 28181int, 19352int, 0);
    lemma_power_mod_square(5nat, 0x1040c1bcnat, n, 0x20818378nat, 0x20818377nat, 1);
    let f0 = Seq::<nat>::empty();
    lemma_product_push(f0, 2nat, 1nat);
    let f1 = f0.push(2nat);
    lemma_product_push(f1, 2nat, 2nat);
    let f2 = f1.push(2nat);
    lemma_product_push(f2, 2nat, 4nat);
    let f3 = f2.push(2nat);
    lemma_product_push(f3, 41nat, 8nat);
    let f4 = f3.push(41nat);
    lemma_product_push(f4, 59nat, 328nat);
    let f5 = f4.push(59nat);
    lemma_product_push(f5, 28181nat, 19352nat);
    let f6 = f5.push(28181nat);
    assert(factors =~= f6);
    assert forall|j: int| 0 <= j < factors.len() implies is_prime(#[trigger] factors[j])
        && power_mod(5nat, ((n - 1) / factors[j] as int) as nat, n) != 1 by {
        if j == 0 {
        } else if j == 1 {
        } else if j == 2 {
        } else if j == 3 {
        } else if j == 4 {
        } else if j == 5 {
        }
    }
}

/// 545358713 is prime.
pub(crate) proof fn lemma_prime_545358713()
    ensures
        is_prime(0x20818379nat),
{
    lemma_certificate_545358713();
    lemma_certified_prime(0x20818379nat, 5nat, seq![2nat, 2nat, 2nat, 41nat, 59nat, 28181nat]);
}

proof fn lemma_power_297159362677_over_2_part_0()
    requires
        power_mod(2nat, 1nat, 0x4530140875nat) == 2nat,
    ensures
        power_mod(2nat, 0x114c05021nat, 0x4530140875nat) == 0x298ce2c38anat,
{
    let n = 0x4530140875nat;
    let e0 = 1nat;
    let x0 = 2nat;
    let x1 = 4nat;
    let e1 = 2 * e0;
    lemma_power_mod_square(2nat, e0, n, x0, 0nat, x1);
    let x2 = 16nat;
    let e2 = 2 * e1;
    lemma_power_mod_square(2nat, e1, n, x1, 0nat, x2);
    let x3 = 256nat;
    let e3 = 2 * e2;
    lemma_power_mod_square(2nat, e2, n, x2, 0nat, x3);
    let x4 = 131072nat;
    let e4 = 2 * e3 + 1;
    lemma_power_mod_square_times(2nat, e3, n, x3, 0nat, x4);
    let x5 = 0x400000000nat;
    let e5 = 2 * e4;
    lemma_power_mod_square(2nat, e4, n, x4, 0nat, x5);
    let x6 = 0x34bbb3d1a5nat;
    let e6 = 2 * e5 + 1;
    lemma_power_mod_square_times(2nat, e5, n, x5, 0x7667018fnat, x6);
    let x7 = 0x1ff9fcac37nat;
    let e7 = 2 * e6;
    lemma_power_mod_square(2nat, e6, n, x6, 0x283122935anat, x7);
    let x8 = 0x2e448cf027nat;
    let e8 = 2 * e7;
    lemma_power_mod_square(2nat, e7, n, x7, 0xec750cfc2nat, x8);
    let x9 = 0x3ec8e30e33nat;
    let e9 = 2 * e8 + 1;
    lemma_power_mod_square_times(2nat, e8, n, x8, 0x3de18c8913nat, x9);
    let x10 = 0x1a25088dddnat;
    let e10 = 2 * e9 + 1;
    lemma_power_mod_square_times(2nat, e9, n, x9, 0x71f2cb4e01nat, x10);
    let x11 = 0x41885bfcbfnat;
    let e11 = 2 * e10;
    lemma_power_mod_square(2nat, e10, n, x10, 0x9e12932a2nat, x11);
    let x12 = 0x3fcd817aebnat;
    let e12 = 2 * e11;
    lemma_power_mod_square(2nat, e11, n, x11, 0x3e1212ea7enat, x12);
    let x13 = 0x116fd820f8nat;
    let e13 = 2 * e12;
    lemma_power_mod_square(2nat, e12, n, x12, 0x3ad63b179dnat, x13);
    let x14 = 0x1cb6da4f03nat;
    let e14 = 2 * e13;
    lemma_power_mod_square(2nat, e13, n, x13, 0x464fd5ca9nat, x14);
    let x15 = 0x3da1cbd0e9nat;
    let e15 = 2 * e14;
    lemma_power_mod_square(2nat, e14, n, x14, 0xbeabec0a0nat, x15);
    let x16 = 0x1eb30495ecnat;
    let e16 = 2 * e15;
    lemma_power_mod_square(2nat, e15, n, x15, 0x36e6c048f1nat, x16);
    let x17 = 0x3f0e8ac6e9nat;
    let e17 = 2 * e16;
    lemma_power_mod_square(2nat, e16, n, x16, 0xd9f1f032bnat, x17);
    let x18 = 0x1478387c55nat;
    let e18 = 2 * e17 + 1;
    lemma_power_mod_square_times(2nat, e17, n, x17, 0x72f02d62f9nat, x18);
    let x19 = 0x176d879f87nat;
    let e19 = 2 * e18;
    lemma_power_mod_square(2nat, e18, n, x18, 0x60e597baanat, x19);
    let x20 = 0x3398a352f5nat;
    let e20 = 2 * e19 + 1;
    lemma_power_mod_square_times(2nat, e19, n, x19, 0xfddad1c19nat, x20);
    let x21 = 0x43ab2dd1a3nat;
    let e21 = 2 * e20;
    lemma_power_mod_square(2nat, e20, n, x20, 0x267a3beebenat, x21);
    let x22 = 0x1292b6aa02nat;
    let e22 = 2 * e21;
    lemma_power_mod_square(2nat, e21, n, x21, 0x422ed193cbnat, x22);
    let x23 = 0x22788786cdnat;
    let e23 = 2 * e22;
    lemma_power_mod_square(2nat, e22, n, x22, 0x4fc60ad7bnat, x23);
    let x24 = 0x117f00d107nat;
    let e24 = 2 * e23;
    lemma_power_mod_square(2nat, e23, n, x23, 0x112c90de5anat, x24);
    let x25 = 0x3eedadffd7nat;
    let e25 = 2 * e24;
    lemma_power_mod_square(2nat, e24, n, x24, 0x46ca4b9b2nat, x25);
    let x26 = 0x1af88fea7fnat;
    let e26 = 2 * e25;
    lemma_power_mod_square(2nat, e25, n, x25, 0x393c3fb98anat, x26);
    let x27 = 0x27d261efe0nat;
    let e27 = 2 * e26 + 1;
    lemma_power_mod_square_times(2nat, e26, n, x26, 0x15071a995anat, x27);
    let x28 = 0x1c85ce0c49nat;
    let e28 = 2 * e27;
    lemma_power_mod_square(2nat, e27, n, x27, 0x16eb7d59fbnat, x28);
    let x29 = 0x38c57ad8efnat;
    let e29 = 2 * e28;
    lemma_power_mod_square(2nat, e28, n, x28, 0xbc22b581anat, x29);
    let x30 = 0x288d9a1991nat;
    let e30 = 2 * e29;
    lemma_power_mod_square(2nat, e29, n, x29, 0x2e954f8d50nat, x30);
    let x31 = 0x319f313e70nat;
    let e31 = 2 * e30;
    lemma_power_mod_square(2nat, e30, n, x30, 0x17c4fb20cdnat, x31);
    let x32 = 0x298ce2c38anat;
    let e32 = 2 * e31 + 1;
    lemma_power_mod_square_times(2nat, e31, n, x31, 0x472d9685denat, x32);
}

proof fn lemma_power_297159362677_over_2_part_1()
    requires
        power_mod(2nat, 0x114c05021nat, 0x4530140875nat) == 0x298ce2c38anat,
    ensures
        power_mod(2nat, 0x22980a043anat, 0x4530140875nat) == 0x4530140874nat,
{
    let n = 0x4530140875nat;
    let e0 = 0x114c05021nat;
    let x0 = 0x298ce2c38anat;
    let x1 = 0x2f7280e445nat;
    let e1 = 2 * e0 + 1;
    lemma_power_mod_square_times(2nat, e0, n, x0, 0x31e7d70e17nat, x1);
    let x2 = 0x1b958a70cfnat;
    let e2 = 2 * e1 + 1;
    lemma_power_mod_square_times(2nat, e1, n, x1, 0x41138a7e77nat, x2);
    let x3 = 0x15466cb776nat;
    let e3 = 2 * e2;
    lemma_power_mod_square(2nat, e2, n, x2, 0xaff54aadfnat, x3);
    let x4 = 0x1aa33a9988nat;
    let e4 = 2 * e3 + 1;
    lemma_power_mod_square_times(2nat, e3, n, x3, 0xd1586e640nat, x4);
    let x5 = 0x4530140874nat;
    let e5 = 2 * e4;
    lemma_power_mod_square(2nat, e4, n, x4, 0xa416ef71cnat, x5);
}

proof fn lemma_power_297159362677_over_2()
    ensures
        power_mod(2nat, 0x22980a043anat, 0x4530140875nat) == 0x4530140874nat,
{
    lemma_power_mod_first(2nat, 0x4530140875nat);
    lemma_power_297159362677_over_2_part_0();
    lemma_power_297159362677_over_2_part_1();
}

proof fn lemma_power_297159362677_over_3_part_0()
    requires
        power_mod(2nat, 1nat, 0x4530140875nat) == 2nat,
    ensures
        power_mod(2nat, 0x171006ad7nat, 0x4530140875nat) == 0x12a60a538anat,
{
    let n = 0x4530140875nat;
    let e0 = 1nat;
    let x0 = 2nat;
    let x1 = 4nat;
    let e1 = 2 * e0;
    lemma_power_mod_square(2nat, e0, n, x0, 0nat, x1);
    let x2 = 32nat;
    let e2 = 2 * e1 + 1;
    lemma_power_mod_square_times(2nat, e1, n, x1, 0nat, x2);
    let x3 = 2048nat;
    let e3 = 2 * e2 + 1;
    lemma_power_mod_square_times(2nat, e2, n, x2, 0nat, x3);
    let x4 = 0x800000nat;
    let e4 = 2 * e3 + 1;
    lemma_power_mod_square_times(2nat, e3, n, x3, 0nat, x4);
    let x5 = 0x37ad883424nat;
    let e5 = 2 * e4;
    lemma_power_mod_square(2nat, e4, n, x4, 236nat, x5);
    let x6 = 0x3f0e8a1b66nat;
    let e6 = 2 * e5;
    lemma_power_mod_square(2nat, e5, n, x5, 0x2cce517dc2nat, x6);
    let x7 = 0xd761f9018nat;
    let e7 = 2 * e6;
    lemma_power_mod_square(2nat, e6, n, x6, 0x39781578dcnat, x7);
    let x8 = 0x1b0d056911nat;
    let e8 = 2 * e7 + 1;
    lemma_power_mod_square_times(2nat, e7, n, x7, 0x53cfab7d3nat, x8);
    let x9 = 0x3f488112dnat;
    let e9 = 2 * e8;
    lemma_power_mod_square(2nat, e8, n, x8, 0xa9386bba4nat, x9);
    let x10 = 0x40fba08a50nat;
    let e10 = 2 * e9;
    lemma_power_mod_square(2nat, e9, n, x9, 0x39e1ee15nat, x10);
    let x11 = 0x3bb0f4eee3nat;
    let e11 = 2 * e10;
    lemma_power_mod_square(2nat, e10, n, x10, 0x3d0898e609nat, x11);
    let x12 = 0xb86c13ee1nat;
    let e12 = 2 * e11;
    lemma_power_mod_square(2nat, e11, n, x11, 0x337f8697c8nat, x12);
    let x13 = 0x34a9516c03nat;
    let e13 = 2 * e12;
    lemma_power_mod_square(2nat, e12, n, x12, 0x1eb953706nat, x13);
    let x14 = 0x42cf72452cnat;
    let e14 = 2 * e13;
    lemma_power_mod_square(2nat, e13, n, x13, 0x28152143c9nat, x14);
    let x15 = 0x26da68d91fnat;
    let e15 = 2 * e14;
    lemma_power_mod_square(2nat, e14, n, x14, 0x4083ba868dnat, x15);
    let x16 = 0xae2fb504fnat;
    let e16 = 2 * e15;
    lemma_power_mod_square(2nat, e15, n, x15, 0x15d1839d6anat, x16);
    let x17 = 0x35e7378731nat;
    let e17 = 2 * e16;
    lemma_power_mod_square(2nat, e16, n, x16, 0x1b6878670nat, x17);
    let x18 = 0x140c9c0192nat;
    let e18 = 2 * e17 + 1;
    lemma_power_mod_square_times(2nat, e17, n, x17, 0x53fd879270nat, x18);
    let x19 = 0x408434712dnat;
    let e19 = 2 * e18 + 1;
    lemma_power_mod_square_times(2nat, e18, n, x18, 0xb9ea8348fnat, x19);
    let x20 = 0x21e558e720nat;
    let e20 = 2 * e19;
    lemma_power_mod_square(2nat, e19, n, x19, 0x3c2912de85nat, x20);
    let x21 = 0x33186d2ff5nat;
    let e21 = 2 * e20 + 1;
    lemma_power_mod_square_times(2nat, e20, n, x20, 0x213642ce7fnat, x21);
    let x22 = 0x2c06b352f3nat;
    let e22 = 2 * e21;
    lemma_power_mod_square(2nat, e21, n, x21, 0x25bbefd6aenat, x22);
    let x23 = 0x21ade0ed9fnat;
    let e23 = 2 * e22 + 1;
    lemma_power_mod_square_times(2nat, e22, n, x22, 0x3807bc7a87nat, x23);
    let x24 = 0x1bfa24bb59nat;
    let e24 = 2 * e23;
    lemma_power_mod_square(2nat, e23, n, x23, 0x1064f46ac8nat, x24);
    let x25 = 0x2d7e549c51nat;
    let e25 = 2 * e24 + 1;
    lemma_power_mod_square_times(2nat, e24, n, x24, 0x16a03d4d2dnat, x25);
    let x26 = 0x2b07cc413anat;
    let e26 = 2 * e25 + 1;
    lemma_power_mod_square_times(2nat, e25, n, x25, 0x3bd3c3d8e8nat, x26);
    let x27 = 0x4ee57324anat;
    let e27 = 2 * e26;
    lemma_power_mod_square(2nat, e26, n, x26, 0x1ac3220832nat, x27);
    let x28 = 0x25a9ea18d7nat;
    let e28 = 2 * e27 + 1;
    lemma_power_mod_square_times(2nat, e27, n, x27, 0xb3ef240dnat, x28);
    let x29 = 0x3e3ae5db8dnat;
    let e29 = 2 * e28;
    lemma_power_mod_square(2nat, e28, n, x28, 0x1480c38474nat, x29);
    let x30 = 0x3256d24616nat;
    let e30 = 2 * e29 + 1;
    lemma_power_mod_square_times(2nat, e29, n, x29, 0x6ff1ad44ccnat, x30);
    let x31 = 0x389d6ca798nat;
    let e31 = 2 * e30 + 1;
    lemma_power_mod_square_times(2nat, e30, n, x30, 0x494031b570nat, x31);
    let x32 = 0x12a60a538anat;
    let e32 = 2 * e31 + 1;
    lemma_power_mod_square_times(2nat, e31, n, x31, 0x5ca7558e5enat, x32);
}

proof fn lemma_power_297159362677_over_3_part_1()
    requires
        power_mod(2nat, 0x171006ad7nat, 0x4530140875nat) == 0x12a60a538anat,
    ensures
        power_mod(2nat, 0x171006ad7cnat, 0x4530140875nat) == 0x4fa47b1ecnat,
{
    let n = 0x4530140875nat;
    let e0 = 0x171006ad7nat;
    let x0 = 0x12a60a538anat;
    let x1 = 0x3cc8669286nat;
    let e1 = 2 * e0 + 1;
    lemma_power_mod_square_times(2nat, e0, n, x0, 0xa0d8cd8fanat, x1);
    let x2 = 0x26784dd379nat;
    let e2 = 2 * e1 + 1;
    lemma_power_mod_square_times(2nat, e1, n, x1, 0x6acc38a3b3nat, x2);
    let x3 = 0x4fa47b1ednat;
    let e3 = 2 * e2;
    lemma_power_mod_square(2nat, e2, n, x2, 0x1563df7fb4nat, x3);
    let x4 = 0x4fa47b1ecnat;
    let e4 = 2 * e3;
    lemma_power_mod_square(2nat, e3, n, x3, 0x5bad4de9nat, x4);
}

proof fn lemma_power_297159362677_over_3()
    ensures
        power_mod(2nat, 0x171006ad7cnat, 0x4530140875nat) == 0x4fa47b1ecnat,
{
    lemma_power_mod_first(2nat, 0x4530140875nat);
    lemma_power_297159362677_over_3_part_0();
    lemma_power_297159362677_over_3_part_1();
}

proof fn lemma_power_297159362677_over_11_part_0()
    requires
        power_mod(2nat, 1nat, 0x4530140875nat) == 2nat,
    ensures
        power_mod(2nat, 0x1928c1777nat, 0x4530140875nat) == 0x3565fd46e1nat,
{
    let n = 0x4530140875nat;
    let e0 = 1nat;
    let x0 = 2nat;
    let x1 = 8nat;
    let e1 = 2 * e0 + 1;
    lemma_power_mod_square_times(2nat, e0, n, x0, 0nat, x1);
    let x2 = 64nat;
    let e2 = 2 * e1;
    lemma_power_mod_square(2nat, e1, n, x1, 0nat, x2);
    let x3 = 4096nat;
    let e3 = 2 * e2;
    lemma_power_mod_square(2nat, e2, n, x2, 0nat, x3);
    let x4 = 0x2000000nat;
    let e4 = 2 * e3 + 1;
    lemma_power_mod_square_times(2nat, e3, n, x3, 0nat, x4);
    let x5 = 0x3c9792dcc4nat;
    let e5 = 2 * e4;
    lemma_power_mod_square(2nat, e4, n, x4, 3788nat, x5);
    let x6 = 0x15c7dfb383nat;
    let e6 = 2 * e5;
    lemma_power_mod_square(2nat, e5, n, x5, 0x3510744eb9nat, x6);
    let x7 = 0x38e4a1913fnat;
    let e7 = 2 * e6 + 1;
    lemma_power_mod_square_times(2nat, e6, n, x6, 0xdb6a3f327nat, x7);
    let x8 = 0x27022de77fnat;
    let e8 = 2 * e7;
    lemma_power_mod_square(2nat, e7, n, x7, 0x2ec87cbdbanat, x8);
    let x9 = 0x11ac928138nat;
    let e9 = 2 * e8 + 1;
    lemma_power_mod_square_times(2nat, e8, n, x8, 0x2bfc8a1462nat, x9);
    let x10 = 0x415eaec380nat;
    let e10 = 2 * e9;
    lemma_power_mod_square(2nat, e9, n, x9, 0x483cebdc0nat, x10);
    let x11 = 0x139989927dnat;
    let e11 = 2 * e10;
    lemma_power_mod_square(2nat, e10, n, x10, 0x3dc338df17nat, x11);
    let x12 = 0x7e2b1c669nat;
    let e12 = 2 * e11;
    lemma_power_mod_square(2nat, e11, n, x11, 0x58d628c20nat, x12);
    let x13 = 0x2147d2adb0nat;
    let e13 = 2 * e12 + 1;
    lemma_power_mod_square_times(2nat, e12, n, x12, 0x1cc27006anat, x13);
    let x14 = 0x2b2e8a83a5nat;
    let e14 = 2 * e13 + 1;
    lemma_power_mod_square_times(2nat, e13, n, x13, 0x20045f018fnat, x14);
    let x15 = 0x69a78b661nat;
    let e15 = 2 * e14;
    lemma_power_mod_square(2nat, e14, n, x14, 0x1af368cb18nat, x15);
    let x16 = 0x296796496bnat;
    let e16 = 2 * e15;
    lemma_power_mod_square(2nat, e15, n, x15, 0xa1576f3enat, x16);
    let x17 = 0x2d9e8f66aanat;
    let e17 = 2 * e16;
    lemma_power_mod_square(2nat, e16, n, x16, 0x18c73311f3nat, x17);
    let x18 = 0x2cae3bf6e7nat;
    let e18 = 2 * e17;
    lemma_power_mod_square(2nat, e17, n, x17, 0x1e14535269nat, x18);
    let x19 = 0x4389f57403nat;
    let e19 = 2 * e18;
    lemma_power_mod_square(2nat, e18, n, x18, 0x1cdaaa70f6nat, x19);
    let x20 = 0x69ef84ce8nat;
    let e20 = 2 * e19 + 1;
    lemma_power_mod_square_times(2nat, e19, n, x19, 0x83dbcc8142nat, x20);
    let x21 = 0x3efe8134a5nat;
    let e21 = 2 * e20;
    lemma_power_mod_square(2nat, e20, n, x20, 0xa2338bcfnat, x21);
    let x22 = 0x1049f044adnat;
    let e22 = 2 * e21 + 1;
    lemma_power_mod_square_times(2nat, e21, n, x21, 0x72b5bdc751nat, x22);
    let x23 = 0x7d3831a85nat;
    let e23 = 2 * e22 + 1;
    lemma_power_mod_square_times(2nat, e22, n, x22, 0x7ab732079nat, x23);
    let x24 = 0x1a326f19dbnat;
    let e24 = 2 * e23 + 1;
    lemma_power_mod_square_times(2nat, e23, n, x23, 0x1c541c41bnat, x24);
    let x25 = 0xf15d4f8d5nat;
    let e25 = 2 * e24;
    lemma_power_mod_square(2nat, e24, n, x24, 0x9eb4c75f4nat, x25);
    let x26 = 0x998262eb9nat;
    let e26 = 2 * e25 + 1;
    lemma_power_mod_square_times(2nat, e25, n, x25, 0x6940515b5nat, x26);
    let x27 = 0x429352bc51nat;
    let e27 = 2 * e26 + 1;
    lemma_power_mod_square_times(2nat, e26, n, x26, 0x2a93150adnat, x27);
    let x28 = 0x4327c308dnat;
    let e28 = 2 * e27 + 1;
    lemma_power_mod_square_times(2nat, e27, n, x27, 0x801fa2f941nat, x28);
    let x29 = 0x579adbf1enat;
    let e29 = 2 * e28;
    lemma_power_mod_square(2nat, e28, n, x28, 0x412ebaffnat, x29);
    let x30 = 0x1c87adab18nat;
    let e30 = 2 * e29 + 1;
    lemma_power_mod_square_times(2nat, e29, n, x29, 0xddd95630nat, x30);
    let x31 = 0x2691f4bb8fnat;
    let e31 = 2 * e30 + 1;
    lemma_power_mod_square_times(2nat, e30, n, x30, 0x17876daf0dnat, x31);
    let x32 = 0x3565fd46e1nat;
    let e32 = 2 * e31 + 1;
    lemma_power_mod_square_times(2nat, e31, n, x31, 0x2b00df653dnat, x32);
}

proof fn lemma_power_297159362677_over_11_part_1()
    requires
        power_mod(2nat, 0x1928c1777nat, 0x4530140875nat) == 0x3565fd46e1nat,
    ensures
        power_mod(2nat, 0x64a305ddcnat, 0x4530140875nat) == 0x36f10028fdnat,
{
    let n = 0x4530140875nat;
    let e0 = 0x1928c1777nat;
    let x0 = 0x3565fd46e1nat;
    let x1 = 0x1aa91ee4b8nat;
    let e1 = 2 * e0;
    lemma_power_mod_square(2nat, e0, n, x0, 0x2936595fc5nat, x1);
    let x2 = 0x36f10028fdnat;
    let e2 = 2 * e1;
    lemma_power_mod_square(2nat, e1, n, x1, 0xa45f8ddd7nat, x2);
}

proof fn lemma_power_297159362677_over_11()
    ensures
        power_mod(2nat, 0x64a305ddcnat, 0x4530140875nat) == 0x36f10028fdnat,
{
    lemma_power_mod_first(2nat, 0x4530140875nat);
    lemma_power_297159362677_over_11_part_0();
    lemma_power_297159362677_over_11_part_1();
}

proof fn lemma_power_297159362677_over_461_part_0()
    requires
        power_mod(2nat, 1nat, 0x4530140875nat) == 2nat,
    ensures
        power_mod(2nat, 0x266bc644nat, 0x4530140875nat) == 0x37a3b9f73fnat,
{
    let n = 0x4530140875nat;
    let e0 = 1nat;
    let x0 = 2nat;
    let x1 = 4nat;
    let e1 = 2 * e0;
    lemma_power_mod_square(2nat, e0, n, x0, 0nat, x1);
    let x2 = 16nat;
    let e2 = 2 * e1;
    lemma_power_mod_square(2nat, e1, n, x1, 0nat, x2);
    let x3 = 512nat;
    let e3 = 2 * e2 + 1;
    lemma_power_mod_square_times(2nat, e2, n, x2, 0nat, x3);
    let x4 = 524288nat;
    let e4 = 2 * e3 + 1;
    lemma_power_mod_square_times(2nat, e3, n, x3, 0nat, x4);
    let x5 = 0x4000000000nat;
    let e5 = 2 * e4;
    lemma_power_mod_square(2nat, e4, n, x4, 0nat, x5);
    let x6 = 0x26a2519e2bnat;
    let e6 = 2 * e5;
    lemma_power_mod_square(2nat, e5, n, x5, 0x3b3380c7e1nat, x6);
    let x7 = 0x1a350736b8nat;
    let e7 = 2 * e6 + 1;
    lemma_power_mod_square_times(2nat, e6, n, x6, 0x2b2563d992nat, x7);
    let x8 = 0x29d831555anat;
    let e8 = 2 * e7 + 1;
    lemma_power_mod_square_times(2nat, e7, n, x7, 0x13da86f1cenat, x8);
    let x9 = 0x1a74699e3cnat;
    let e9 = 2 * e8;
    lemma_power_mod_square(2nat, e8, n, x8, 0x194eb0c2c8nat, x9);
    let x10 = 0x2ed5895402nat;
    let e10 = 2 * e9 + 1;
    lemma_power_mod_square_times(2nat, e9, n, x9, 0x143b0433e6nat, x10);
    let x11 = 0x26d153e5a0nat;
    let e11 = 2 * e10;
    lemma_power_mod_square(2nat, e10, n, x10, 0x1fb3df9454nat, x11);
    let x12 = 0x2194a6247enat;
    let e12 = 2 * e11 + 1;
    lemma_power_mod_square_times(2nat, e11, n, x11, 0x2b8ea3353anat, x12);
    let x13 = 0x3ee57dd523nat;
    let e13 = 2 * e12 + 1;
    lemma_power_mod_square_times(2nat, e12, n, x12, 0x2098db36b1nat, x13);
    let x14 = 0x21175428f4nat;
    let e14 = 2 * e13 + 1;
    lemma_power_mod_square_times(2nat, e13, n, x13, 0x725ab74666nat, x14);
    let x15 = 0x227497c2cfnat;
    let e15 = 2 * e14 + 1;
    lemma_power_mod_square_times(2nat, e14, n, x14, 0x1fa75492ednat, x15);
    let x16 = 0x1c616cae2bnat;
    let e16 = 2 * e15;
    lemma_power_mod_square(2nat, e15, n, x15, 0x1128a4e99enat, x16);
    let x17 = 0x34fbc17640nat;
    let e17 = 2 * e16;
    lemma_power_mod_square(2nat, e16, n, x16, 0xba43f99f5nat, x17);
    let x18 = 0x2adb09a8a8nat;
    let e18 = 2 * e17;
    lemma_power_mod_square(2nat, e17, n, x17, 0x2893019ef8nat, x18);
    let x19 = 0x33ae3645e1nat;
    let e19 = 2 * e18 + 1;
    lemma_power_mod_square_times(2nat, e18, n, x18, 0x351723e043nat, x19);
    let x20 = 0x443cee220anat;
    let e20 = 2 * e19 + 1;
    lemma_power_mod_square_times(2nat, e19, n, x19, 0x4d34e01898nat, x20);
    let x21 = 0x11a2562becnat;
    let e21 = 2 * e20;
    lemma_power_mod_square(2nat, e20, n, x20, 0x434d1ebb98nat, x21);
    let x22 = 0x25e930a316nat;
    let e22 = 2 * e21;
    lemma_power_mod_square(2nat, e21, n, x21, 0x47e958552nat, x22);
    let x23 = 0x16962bb5b8nat;
    let e23 = 2 * e22 + 1;
    lemma_power_mod_square_times(2nat, e22, n, x22, 0x298bc2bbd0nat, x23);
    let x24 = 0x36604e9f0dnat;
    let e24 = 2 * e23;
    lemma_power_mod_square(2nat, e23, n, x23, 0x75f9c3207nat, x24);
    let x25 = 0x1a0eb94e54nat;
    let e25 = 2 * e24;
    lemma_power_mod_square(2nat, e24, n, x24, 0x2abc459461nat, x25);
    let x26 = 0x2c846b1faenat;
    let e26 = 2 * e25;
    lemma_power_mod_square(2nat, e25, n, x25, 0x9d054101anat, x26);
    let x27 = 0x33553f7c9cnat;
    let e27 = 2 * e26 + 1;
    lemma_power_mod_square_times(2nat, e26, n, x26, 0x3949833abcnat, x27);
    let x28 = 0x3468790892nat;
    let e28 = 2 * e27;
    lemma_power_mod_square(2nat, e27, n, x27, 0x2615fabcc6nat, x28);
    let x29 = 0x37a3b9f73fnat;
    let e29 = 2 * e28;
    lemma_power_mod_square(2nat, e28, n, x28, 0x27b2a7b351nat, x29);
}

proof fn lemma_power_297159362677_over_461()
    ensures
        power_mod(2nat, 0x266bc644nat, 0x4530140875nat) == 0x37a3b9f73fnat,
{
    lemma_power_mod_first(2nat, 0x4530140875nat);
    lemma_power_297159362677_over_461_part_0();
}

proof fn lemma_power_297159362677_over_1627771_part_0()
    requires
        power_mod(2nat, 1nat, 0x4530140875nat) == 2nat,
    ensures
        power_mod(2nat, 182556nat, 0x4530140875nat) == 0x1a951d9805nat,
{
    let n = 0x4530140875nat;
    let e0 = 1nat;
    let x0 = 2nat;
    let x1 = 4nat;
    let e1 = 2 * e0;
    lemma_power_mod_square(2nat, e0, n, x0, 0nat, x1);
    let x2 = 32nat;
    let e2 = 2 * e1 + 1;
    lemma_power_mod_square_times(2nat, e1, n, x1, 0nat, x2);
    let x3 = 2048nat;
    let e3 = 2 * e2 + 1;
    lemma_power_mod_square_times(2nat, e2, n, x2, 0nat, x3);
    let x4 = 0x400000nat;
    let e4 = 2 * e3;
    lemma_power_mod_square(2nat, e3, n, x3, 0nat, x4);
    let x5 = 0xdeb620d09nat;
    let e5 = 2 * e4;
    lemma_power_mod_square(2nat, e4, n, x4, 59nat, x5);
    let x6 = 0x192dd6458anat;
    let e6 = 2 * e5 + 1;
    lemma_power_mod_square_times(2nat, e5, n, x5, 0x599ca2fb8nat, x6);
    let x7 = 0x8dbdaff4fnat;
    let e7 = 2 * e6;
    lemma_power_mod_square(2nat, e6, n, x6, 0x929ca3821nat, x7);
    let x8 = 0x2e1bda41aenat;
    let e8 = 2 * e7;
    lemma_power_mod_square(2nat, e7, n, x7, 0x122605787nat, x8);
    let x9 = 0x2a09321e0nat;
    let e9 = 2 * e8 + 1;
    lemma_power_mod_square_times(2nat, e8, n, x8, 0x3d74df6308nat, x9);
    let x10 = 0xf401d9063nat;
    let e10 = 2 * e9;
    lemma_power_mod_square(2nat, e9, n, x9, 0x198a1989nat, x10);
    let x11 = 0x1f8540d0aanat;
    let e11 = 2 * e10;
    lemma_power_mod_square(2nat, e10, n, x10, 0x35c8ca343nat, x11);
    let x12 = 0x3b2a53d77fnat;
    let e12 = 2 * e11;
    lemma_power_mod_square(2nat, e11, n, x11, 0xe5c2eef31nat, x12);
    let x13 = 0xff38c23f5nat;
    let e13 = 2 * e12 + 1;
    lemma_power_mod_square_times(2nat, e12, n, x12, 0x65307f2c39nat, x13);
    let x14 = 0x111b24d1denat;
    let e14 = 2 * e13 + 1;
    lemma_power_mod_square_times(2nat, e13, n, x13, 0x75aefc044nat, x14);
    let x15 = 0x36f699c9adnat;
    let e15 = 2 * e14 + 1;
    lemma_power_mod_square_times(2nat, e14, n, x14, 0x875675e8fnat, x15);
    let x16 = 0x44f7d66078nat;
    let e16 = 2 * e15;
    lemma_power_mod_square(2nat, e15, n, x15, 0x2ba9c8fe8dnat, x16);
    let x17 = 0x1a951d9805nat;
    let e17 = 2 * e16;
    lemma_power_mod_square(2nat, e16, n, x16, 0x44bfc66fefnat, x17);
}

proof fn lemma_power_297159362677_over_1627771()
    ensures
        power_mod(2nat, 182556nat, 0x4530140875nat) == 0x1a951d9805nat,
{
    lemma_power_mod_first(2nat, 0x4530140875nat);
    lemma_power_297159362677_over_1627771_part_0();
}

proof fn lemma_certificate_297159362677()
    ensures
        is_certificate(0x4530140875nat, 2nat, seq![2nat, 2nat, 3nat, 3nat, 11nat, 461nat, 0x18d67bnat]),
{
    let n = 0x4530140875nat;
    let factors = seq![2nat, 2nat, 3nat, 3nat, 11nat, 461nat, 0x18d67bnat];
    lemma_small_primes();
    lemma_small_primes();
    lemma_prime_11();
    lemma_prime_461();
    lemma_prime_1627771();
    lemma_power_297159362677_over_2();
    lemma_fundamental_div_mod_converse(0x4530140874int, 2int, 0x22980a043aint, 0);
    lemma_power_297159362677_over_3();
    lemma_fundamental_div_mod_converse(0x4530140874int, 3int, 0x171006ad7cint, 0);
    lemma_power_297159362677_over_11();
    lemma_fundamental_div_mod_converse(0x4530140874int, 11int, 0x64a305ddcint, 0);
    lemma_power_297159362677_over_461();
    lemma_fundamental_div_mod_converse(0x4530140874int, 461int, 0x266bc644int, 0);
    lemma_power_297159362677_over_1627771();
    lemma_fundamental_div_mod_converse(0x4530140874int, 0x18d67bint, 182556int, 0);
    lemma_power_mod_square(2nat, 0x22980a043anat, n, 0x4530140874nat, 0x4530140873nat, 1);
    let f0 = Seq::<nat>::empty();
    lemma_product_push(f0, 2nat, 1nat);
    let f1 = f0.push(2nat);
    lemma_product_push(f1, 2nat, 2nat);
    let f2 = f1.push(2nat);
    lemma_product_push(f2, 3nat, 4nat);
    let f3 = f2.push(3nat);
    lemma_product_push(f3, 3nat, 12nat);
    let f4 = f3.push(3nat);
    lemma_product_push(f4, 11nat, 36nat);
    let f5 = f4.push(11nat);
    lemma_product_push(f5, 461nat, 396nat);
    let f6 = f5.push(461nat);
    lemma_product_push(f6, 0x18d67bnat, 182556nat);
    let f7 = f6.push(0x18d67bnat);
    assert(factors =~= f7);
    assert forall|j: int| 0 <= j < factors.len() implies is_prime(#[trigger] factors[j])
        && power_mod(2nat, ((n - 1) / factors[j] as int) as nat, n) != 1 by {
        if j == 0 {
        } else if j == 1 {
        } else if j == 2 {
        } else if j == 3 {
        } else if j == 4 {
        } else if j == 5 {
        } else if j == 6 {
        }
    }
}

/// 297159362677 is prime.
pub(crate) proof fn lemma_prime_297159362677()
    ensures
        is_prime(0x4530140875nat),
{
    lemma_certificate_297159362677();
    lemma_certified_prime(0x4530140875nat, 2nat, seq![2nat, 2nat, 3nat, 3nat, 11nat, 461nat, 0x18d67bnat]);
}

proof fn lemma_power_107361793816595537_over_2_part_0()
    requires
        power_mod(3nat, 1nat, 0x17d6cfb8ee30c51nat) == 3nat,
    ensures
        power_mod(3nat, 0x17d6cfb8enat, 0x17d6cfb8ee30c51nat) == 0x13788ba8f24d9ebnat,
{
    let n = 0x17d6cfb8ee30c51nat;
    let e0 = 1nat;
    let x0 = 3nat;
    let x1 = 9nat;
    let e1 = 2 * e0;
    lemma_power_mod_square(3nat, e0, n, x0, 0nat, x1);
    let x2 = 243nat;
    let e2 = 2 * e1 + 1;
    lemma_power_mod_square_times(3nat, e1, n, x1, 0nat, x2);
    let x3 = 177147nat;
    let e3 = 2 * e2 + 1;
    lemma_power_mod_square_times(3nat, e2, n, x2, 0nat, x3);
    let x4 = 0x15eb5ee84bnat;
    let e4 = 2 * e3 + 1;
    lemma_power_mod_square_times(3nat, e3, n, x3, 0nat, x4);
    let x5 = 0x4dfaf7a3d11a03nat;
    let e5 = 2 * e4 + 1;
    lemma_power_mod_square_times(3nat, e4, n, x4, 247656nat, x5);
    let x6 = 0x168327bfb3b397anat;
    let e6 = 2 * e5 + 1;
    lemma_power_mod_square_times(3nat, e5, n, x5, 0x2fd3f2f6e62551nat, x6);
    let x7 = 0x15b6239a47cd97dnat;
    let e7 = 2 * e6;
    lemma_power_mod_square(3nat, e6, n, x6, 0x154267259ac8b77nat, x7);
    let x8 = 0x835b8c48ad58d1nat;
    let e8 = 2 * e7 + 1;
    lemma_power_mod_square_times(3nat, e7, n, x7, 0x3b523c3987de72anat, x8);
    let x9 = 0x1478bbb1fb447a3nat;
    let e9 = 2 * e8;
    lemma_power_mod_square(3nat, e8, n, x8, 0x2d3cd9d363a99enat, x9);
    let x10 = 0x15f916360f6fff0nat;
    let e10 = 2 * e9 + 1;
    lemma_power_mod_square_times(3nat, e9, n, x9, 0x34bd4b56c42c2fbnat, x10);
    let x11 = 0x9a3dd7b98b139anat;
    let e11 = 2 * e10 + 1;
    lemma_power_mod_square_times(3nat, e10, n, x10, 0x3cc2463dd5e6d86nat, x11);
    let x12 = 0x3551317aa141cbnat;
    let e12 = 2 * e11;
    lemma_power_mod_square(3nat, e11, n, x11, 0x3e5f5a03ad0809nat, x12);
    let x13 = 0x1571c7a47ee7e0cnat;
    let e13 = 2 * e12 + 1;
    lemma_power_mod_square_times(3nat, e12, n, x12, 0x165bcfa173242fnat, x13);
    let x14 = 0x2e8595ae895dc8nat;
    let e14 = 2 * e13 + 1;
    lemma_power_mod_square_times(3nat, e13, n, x13, 0x39defbb248a2368nat, x14);
    let x15 = 0x358116fbd55ceanat;
    let e15 = 2 * e14;
    lemma_power_mod_square(3nat, e14, n, x14, 0x5ac9741714276nat, x15);
    let x16 = 0x1a19f4a024ba12nat;
    let e16 = 2 * e15;
    lemma_power_mod_square(3nat, e15, n, x15, 0x78159cffca432nat, x16);
    let x17 = 0x83dc611f0739b9nat;
    let e17 = 2 * e16 + 1;
    lemma_power_mod_square_times(3nat, e16, n, x16, 0x55bc2d8b1a323nat, x17);
    let x18 = 0x5d11dd5ff92085nat;
    let e18 = 2 * e17 + 1;
    lemma_power_mod_square_times(3nat, e17, n, x17, 0x88c144d162602enat, x18);
    let x19 = 0x1019e441957475bnat;
    let e19 = 2 * e18 + 1;
    lemma_power_mod_square_times(3nat, e18, n, x18, 0x4420e41440fcf0nat, x19);
    let x20 = 0x1271395b3c431cenat;
    let e20 = 2 * e19 + 1;
    lemma_power_mod_square_times(3nat, e19, n, x19, 0x209fe23fede832dnat, x20);
    let x21 = 0xa46454b6bb3b66nat;
    let e21 = 2 * e20 + 1;
    lemma_power_mod_square_times(3nat, e20, n, x20, 0x2acd3940d140006nat, x21);
    let x22 = 0xba289052494c29nat;
    let e22 = 2 * e21;
    lemma_power_mod_square(3nat, e21, n, x21, 0x46da104a0a890bnat, x22);
    let x23 = 0x14cc42d8d2a2b47nat;
    let e23 = 2 * e22 + 1;
    lemma_power_mod_square_times(3nat, e22, n, x22, 0x11091b82f358aacnat, x23);
    let x24 = 0x120c92fb36b37fnat;
    let e24 = 2 * e23 + 1;
    lemma_power_mod_square_times(3nat, e23, n, x23, 0x366f18d953b9b54nat, x24);
    let x25 = 0xde2c60c4e4beednat;
    let e25 = 2 * e24 + 1;
    lemma_power_mod_square_times(3nat, e24, n, x24, 0x28ff04a2a4336nat, x25);
    let x26 = 0xb3a5c4790b0db3nat;
    let e26 = 2 * e25;
    lemma_power_mod_square(3nat, e25, n, x25, 0x81696d71a2eed6nat, x26);
    let x27 = 0xedcbd31c002727nat;
    let e27 = 2 * e26;
    lemma_power_mod_square(3nat, e26, n, x26, 0x549cb34babbd62nat, x27);
    let x28 = 0xd3ce9b8f3521d6nat;
    let e28 = 2 * e27;
    lemma_power_mod_square(3nat, e27, n, x27, 0x9440726ceeccabnat, x28);
    let x29 = 0x83ca5ab2990872nat;
    let e29 = 2 * e28 + 1;
    lemma_power_mod_square_times(3nat, e28, n, x28, 0x160da05eca0141anat, x29);
    let x30 = 0x53e6f1b56a177dnat;
    let e30 = 2 * e29 + 1;
    lemma_power_mod_square_times(3nat, e29, n, x29, 0x889be3fde1731fnat, x30);
    let x31 = 0x11397b42d423bbanat;
    let e31 = 2 * e30 + 1;
    lemma_power_mod_square_times(3nat, e30, n, x30, 0x375e27b4754c11nat, x31);
    let x32 = 0x13788ba8f24d9ebnat;
    let e32 = 2 * e31;
    lemma_power_mod_square(3nat, e31, n, x31, 0xc71febbfc19c69nat, x32);
}

proof fn lemma_power_107361793816595537_over_2_part_1()
    requires
        power_mod(3nat, 0x17d6cfb8enat, 0x17d6cfb8ee30c51nat) == 0x13788ba8f24d9ebnat,
    ensures
        power_mod(3nat, 0xbeb67dc7718628nat, 0x17d6cfb8ee30c51nat) == 0x17d6cfb8ee30c50nat,
{
    let n = 0x17d6cfb8ee30c51nat;
    let e0 = 0x17d6cfb8enat;
    let x0 = 0x13788ba8f24d9ebnat;
    let x1 = 0x9d27caaff2b17anat;
    let e1 = 2 * e0 + 1;
    lemma_power_mod_square_times(3nat, e0, n, x0, 0x2fb590993fa4d61nat, x1);
    let x2 = 0x105a671a784bf60nat;
    let e2 = 2 * e1 + 1;
    lemma_power_mod_square_times(3nat, e1, n, x1, 0xc2410a1e51734cnat, x2);
    let x3 = 0x149eff173d2e9eenat;
    let e3 = 2 * e2 + 1;
    lemma_power_mod_square_times(3nat, e2, n, x2, 0x21a75b98692e672nat, x3);
    let x4 = 0x8ebfc74610b6bfnat;
    let e4 = 2 * e3;
    lemma_power_mod_square(3nat, e3, n, x3, 0x11d66345df4c9f5nat, x4);
    let x5 = 0x1026a23ffdf6458nat;
    let e5 = 2 * e4;
    lemma_power_mod_square(3nat, e4, n, x4, 0x356c9015ee9659nat, x5);
    let x6 = 0xe578ea87029b7bnat;
    let e6 = 2 * e5;
    lemma_power_mod_square(3nat, e5, n, x5, 0xaf133406c5d635nat, x6);
    let x7 = 0xa41e0d7b107e43nat;
    let e7 = 2 * e6 + 1;
    lemma_power_mod_square_times(3nat, e6, n, x6, 0x19e29e20f8e1e88nat, x7);
    let x8 = 0x1920622baeeb2dnat;
    let e8 = 2 * e7 + 1;
    lemma_power_mod_square_times(3nat, e7, n, x7, 0xd3d89b1c87a90enat, x8);
    let x9 = 0xb280c40dd8ec7anat;
    let e9 = 2 * e8;
    lemma_power_mod_square(3nat, e8, n, x8, 0x1a7bc0e72b9bfnat, x9);
    let x10 = 0xe81a2130b71949nat;
    let e10 = 2 * e9;
    lemma_power_mod_square(3nat, e9, n, x9, 0x53899401f97b6bnat, x10);
    let x11 = 0x102ed3e82f2b9d3nat;
    let e11 = 2 * e10;
    lemma_power_mod_square(3nat, e10, n, x10, 0x8d3ca2e92f139enat, x11);
    let x12 = 0x802ae57a360b7bnat;
    let e12 = 2 * e11;
    lemma_power_mod_square(3nat, e11, n, x11, 0xafc50610102c0enat, x12);
    let x13 = 0x15533f6b52fb90bnat;
    let e13 = 2 * e12 + 1;
    lemma_power_mod_square_times(3nat, e12, n, x12, 0x81339559867a40nat, x13);
    let x14 = 0x12f270e5f2fa264nat;
    let e14 = 2 * e13 + 1;
    lemma_power_mod_square_times(3nat, e13, n, x13, 0x393aa689f8ce9d7nat, x14);
    let x15 = 0x153fb5739270a52nat;
    let e15 = 2 * e14;
    lemma_power_mod_square(3nat, e14, n, x14, 0xf0f1274b63f75enat, x15);
    let x16 = 0x9784bd4ac6d105nat;
    let e16 = 2 * e15;
    lemma_power_mod_square(3nat, e15, n, x15, 0x12f0a7e06aad08fnat, x16);
    let x17 = 0x5c68f85ae7342nat;
    let e17 = 2 * e16;
    lemma_power_mod_square(3nat, e16, n, x16, 0x3c30896a094ea7nat, x17);
    let x18 = 0xca7aa9fef30e23nat;
    let e18 = 2 * e17 + 1;
    lemma_power_mod_square_times(3nat, e17, n, x17, 0x432a80244519nat, x18);
    let x19 = 0x3c84ea7fdd5b66nat;
    let e19 = 2 * e18;
    lemma_power_mod_square(3nat, e18, n, x18, 0x6b7c56a8e26573nat, x19);
    let x20 = 0x1017aa71c08ce01nat;
    let e20 = 2 * e19 + 1;
    lemma_power_mod_square_times(3nat, e19, n, x19, 0x1cce96100a3d7bnat, x20);
    let x21 = 0x100776cd5548bc3nat;
    let e21 = 2 * e20;
    lemma_power_mod_square(3nat, e20, n, x20, 0xadcf494517c2denat, x21);
    let x22 = 0xc01f0177064010nat;
    let e22 = 2 * e21;
    lemma_power_mod_square(3nat, e21, n, x21, 0xac71fe8b8065a9nat, x22);
    let x23 = 0x17d6cfb8ee30c50nat;
    let e23 = 2 * e22;
    lemma_power_mod_square(3nat, e22, n, x22, 0x60c517532e6db0nat, x23);
}

proof fn lemma_power_107361793816595537_over_2()
    ensures
        power_mod(3nat, 0xbeb67dc7718628nat, 0x17d6cfb8ee30c51nat) == 0x17d6cfb8ee30c50nat,
{
    lemma_power_mod_first(3nat, 0x17d6cfb8ee30c51nat);
    lemma_power_107361793816595537_over_2_part_0();
    lemma_power_107361793816595537_over_2_part_1();
}

proof fn lemma_power_107361793816595537_over_16699_part_0()
    requires
        power_mod(3nat, 1nat, 0x17d6cfb8ee30c51nat) == 3nat,
    ensures
        power_mod(3nat, 0x1763b10d7nat, 0x17d6cfb8ee30c51nat) == 0xbea19c01da1764nat,
{
    let n = 0x17d6cfb8ee30c51nat;
    let e0 = 1nat;
    let x0 = 3nat;
    let x1 = 9nat;
    let e1 = 2 * e0;
    lemma_power_mod_square(3nat, e0, n, x0, 0nat, x1);
    let x2 = 243nat;
    let e2 = 2 * e1 + 1;
    lemma_power_mod_square_times(3nat, e1, n, x1, 0nat, x2);
    let x3 = 177147nat;
    let e3 = 2 * e2 + 1;
    lemma_power_mod_square_times(3nat, e2, n, x2, 0nat, x3);
    let x4 = 0x15eb5ee84bnat;
    let e4 = 2 * e3 + 1;
    lemma_power_mod_square_times(3nat, e3, n, x3, 0nat, x4);
    let x5 = 0x19fe528bf05e01nat;
    let e5 = 2 * e4;
    lemma_power_mod_square(3nat, e4, n, x4, 82552nat, x5);
    let x6 = 0xfbecd26b4bd457nat;
    let e6 = 2 * e5 + 1;
    lemma_power_mod_square_times(3nat, e5, n, x5, 0x55070545275ecnat, x6);
    let x7 = 0x16e09bba6d6da92nat;
    let e7 = 2 * e6 + 1;
    lemma_power_mod_square_times(3nat, e6, n, x6, 0x1f32d2e0a9938d1nat, x7);
    let x8 = 0x4eb79590728f0cnat;
    let e8 = 2 * e7;
    lemma_power_mod_square(3nat, e7, n, x7, 0x15f4567205df2b8nat, x8);
    let x9 = 0x91caabac272c2cnat;
    let e9 = 2 * e8;
    lemma_power_mod_square(3nat, e8, n, x8, 0x103ecdd4ce3124nat, x9);
    let x10 = 0x14aabfd4cfc296dnat;
    let e10 = 2 * e9;
    lemma_power_mod_square(3nat, e9, n, x9, 0x37b9c76ad66a33nat, x10);
    let x11 = 0x6c679fde4b2667nat;
    let e11 = 2 * e10 + 1;
    lemma_power_mod_square_times(3nat, e10, n, x10, 0x35c03ac1868c494nat, x11);
    let x12 = 0x29a494e3f29b91nat;
    let e12 = 2 * e11 + 1;
    lemma_power_mod_square_times(3nat, e11, n, x11, 0x5c6dd1df0fda22nat, x12);
    let x13 = 0x16e1b3b3810c48dnat;
    let e13 = 2 * e12 + 1;
    lemma_power_mod_square_times(3nat, e12, n, x12, 0xda3ab5f64bef6nat, x13);
    let x14 = 0x189d367820ecbbnat;
    let e14 = 2 * e13;
    lemma_power_mod_square(3nat, e13, n, x13, 0x15f66fda116348enat, x14);
    let x15 = 0x17c12e905c749benat;
    let e15 = 2 * e14 + 1;
    lemma_power_mod_square_times(3nat, e14, n, x14, 0x4c3e313e6bcfdnat, x15);
    let x16 = 0x16a9a452b9773cbnat;
    let e16 = 2 * e15 + 1;
    lemma_power_mod_square_times(3nat, e15, n, x15, 0x4702e3172dbfff1nat, x16);
    let x17 = 0x16944f732cfa807nat;
    let e17 = 2 * e16;
    lemma_power_mod_square(3nat, e16, n, x16, 0x158b55b9db49952nat, x17);
    let x18 = 0x50b93c8826f0anat;
    let e18 = 2 * e17;
    lemma_power_mod_square(3nat, e17, n, x17, 0x1562da0c4352ff7nat, x18);
    let x19 = 0x11bb78257095ce1nat;
    let e19 = 2 * e18;
    lemma_power_mod_square(3nat, e18, n, x18, 0x1115845e2d93nat, x19);
    let x20 = 0x433ede3648f3d6nat;
    let e20 = 2 * e19 + 1;
    lemma_power_mod_square_times(3nat, e19, n, x19, 0x2791d0692d14c5dnat, x20);
    let x21 = 0xef5a1103de8662nat;
    let e21 = 2 * e20;
    lemma_power_mod_square(3nat, e20, n, x20, 0xbdafdcb3041e2nat, x21);
    let x22 = 0x3f5564098982c8nat;
    let e22 = 2 * e21;
    lemma_power_mod_square(3nat, e21, n, x21, 0x9632a1998fabfcnat, x22);
    let x23 = 0x152ea25e13ff3e3nat;
    let e23 = 2 * e22;
    lemma_power_mod_square(3nat, e22, n, x22, 0xa84240a82d44dnat, x23);
    let x24 = 0x3d1c6ef28bdf2fnat;
    let e24 = 2 * e23;
    lemma_power_mod_square(3nat, e23, n, x23, 0x12d243d220b45fanat, x24);
    let x25 = 0xad1466c66c5e1anat;
    let e25 = 2 * e24 + 1;
    lemma_power_mod_square_times(3nat, e24, n, x24, 0x1d5f89058e37f9nat, x25);
    let x26 = 0x8e0ddaff7d81e3nat;
    let e26 = 2 * e25 + 1;
    lemma_power_mod_square_times(3nat, e25, n, x25, 0xeb9d8574351039nat, x26);
    let x27 = 0xbe17e3fc24f00bnat;
    let e27 = 2 * e26;
    lemma_power_mod_square(3nat, e26, n, x26, 0x34e7b6100ca1denat, x27);
    let x28 = 0x4d6542919b645dnat;
    let e28 = 2 * e27 + 1;
    lemma_power_mod_square_times(3nat, e27, n, x27, 0x11c36b52134beaenat, x28);
    let x29 = 0xb2198adadda950nat;
    let e29 = 2 * e28;
    lemma_power_mod_square(3nat, e28, n, x28, 0xfb4550e994fa9nat, x29);
    let x30 = 0xcac34afc1eec84nat;
    let e30 = 2 * e29 + 1;
    lemma_power_mod_square_times(3nat, e29, n, x29, 0xf97b37a1cb43bcnat, x30);
    let x31 = 0x10e86dec5930aefnat;
    let e31 = 2 * e30 + 1;
    lemma_power_mod_square_times(3nat, e30, n, x30, 0x1435c81cc0779f1nat, x31);
    let x32 = 0xbea19c01da1764nat;
    let e32 = 2 * e31 + 1;
    lemma_power_mod_square_times(3nat, e31, n, x31, 0x23f9d676167ad4fnat, x32);
}

proof fn lemma_power_107361793816595537_over_16699_part_1()
    requires
        power_mod(3nat, 0x1763b10d7nat, 0x17d6cfb8ee30c51nat) == 0xbea19c01da1764nat,
    ensures
        power_mod(3nat, 0x5d8ec435ff0nat, 0x17d6cfb8ee30c51nat) == 0x1524d4990f7179nat,
{
    let n = 0x17d6cfb8ee30c51nat;
    let e0 = 0x1763b10d7nat;
    let x0 = 0xbea19c01da1764nat;
    let x1 = 0x685c1c9b1d0d7anat;
    let e1 = 2 * e0 + 1;
    lemma_power_mod_square_times(3nat, e0, n, x0, 0x11dd31ac862c4d6nat, x1);
    let x2 = 0xcf884ba22e84adnat;
    let e2 = 2 * e1 + 1;
    lemma_power_mod_square_times(3nat, e1, n, x1, 0x55a8f309488d0fnat, x2);
    let x3 = 0x8d1e731e45a3cbnat;
    let e3 = 2 * e2 + 1;
    lemma_power_mod_square_times(3nat, e2, n, x2, 0x152c0c3262637f0nat, x3);
    let x4 = 0x70425153656c8fnat;
    let e4 = 2 * e3 + 1;
    lemma_power_mod_square_times(3nat, e3, n, x3, 0x9ca1ec8f860b9cnat, x4);
    let x5 = 0x121575559845563nat;
    let e5 = 2 * e4 + 1;
    lemma_power_mod_square_times(3nat, e4, n, x4, 0x631e4bd1a41e40nat, x5);
    let x6 = 0xe9a26855f38916nat;
    let e6 = 2 * e5 + 1;
    lemma_power_mod_square_times(3nat, e5, n, x5, 0x29276a58f1f6735nat, x6);
    let x7 = 0x133ea003b86e818nat;
    let e7 = 2 * e6;
    lemma_power_mod_square(3nat, e6, n, x6, 0x8f1b9fb2f5720cnat, x7);
    let x8 = 0x177aebcb96d1d6nat;
    let e8 = 2 * e7;
    lemma_power_mod_square(3nat, e7, n, x7, 0xf891f9b0b5d14anat, x8);
    let x9 = 0x87f12f7a669152nat;
    let e9 = 2 * e8;
    lemma_power_mod_square(3nat, e8, n, x8, 0x17206a11b19f2nat, x9);
    let x10 = 0x1524d4990f7179nat;
    let e10 = 2 * e9;
    lemma_power_mod_square(3nat, e9, n, x9, 0x307353582f6c5bnat, x10);
}

proof fn lemma_power_107361793816595537_over_16699()
    ensures
        power_mod(3nat, 0x5d8ec435ff0nat, 0x17d6cfb8ee30c51nat) == 0x1524d4990f7179nat,
{
    lemma_power_mod_first(3nat, 0x17d6cfb8ee30c51nat);
    lemma_power_107361793816595537_over_16699_part_0();
    lemma_power_107361793816595537_over_16699_part_1();
}

proof fn lemma_power_107361793816595537_over_85831_part_0()
    requires
        power_mod(3nat, 1nat, 0x17d6cfb8ee30c51nat) == 3nat,
    ensures
        power_mod(3nat, 0x1233c87d9nat, 0x17d6cfb8ee30c51nat) == 0x15c864a77115c05nat,
{
    let n = 0x17d6cfb8ee30c51nat;
    let e0 = 1nat;
    let x0 = 3nat;
    let x1 = 9nat;
    let e1 = 2 * e0;
    lemma_power_mod_square(3nat, e0, n, x0, 0nat, x1);
    let x2 = 81nat;
    let e2 = 2 * e1;
    lemma_power_mod_square(3nat, e1, n, x1, 0nat, x2);
    let x3 = 19683nat;
    let e3 = 2 * e2 + 1;
    lemma_power_mod_square_times(3nat, e2, n, x2, 0nat, x3);
    let x4 = 0x17179149nat;
    let e4 = 2 * e3;
    lemma_power_mod_square(3nat, e3, n, x3, 0nat, x4);
    let x5 = 0x97d14afcaeba80nat;
    let e5 = 2 * e4;
    lemma_power_mod_square(3nat, e4, n, x4, 1nat, x5);
    let x6 = 0x15fe27039fdc789nat;
    let e6 = 2 * e5;
    lemma_power_mod_square(3nat, e5, n, x5, 0x3c6d6adab9ae47nat, x6);
    let x7 = 0x2eb8511ee54f70nat;
    let e7 = 2 * e6 + 1;
    lemma_power_mod_square_times(3nat, e6, n, x6, 0x3cde4d35ebb3493nat, x7);
    let x8 = 0x164e2e022c8055bnat;
    let e8 = 2 * e7 + 1;
    lemma_power_mod_square_times(3nat, e7, n, x7, 0x112afa56c07b15nat, x8);
    let x9 = 0x16d2d7764873d40nat;
    let e9 = 2 * e8;
    lemma_power_mod_square(3nat, e8, n, x8, 0x14decef70928e49nat, x9);
    let x10 = 0x446842af3bfcfanat;
    let e10 = 2 * e9;
    lemma_power_mod_square(3nat, e9, n, x9, 0x15d9f2380cf0f26nat, x10);
    let x11 = 0x16d7cade9cb72fdnat;
    let e11 = 2 * e10 + 1;
    lemma_power_mod_square_times(3nat, e10, n, x10, 0x24ce4632cff9bfnat, x11);
    let x12 = 0xc9fc21fcc860d8nat;
    let e12 = 2 * e11 + 1;
    lemma_power_mod_square_times(3nat, e11, n, x11, 0x41aa4a3fe8b1b53nat, x12);
    let x13 = 0x17cb2eae44f47ebnat;
    let e13 = 2 * e12 + 1;
    lemma_power_mod_square_times(3nat, e12, n, x12, 0x140e27e7700b945nat, x13);
    let x14 = 0x7430e8c48fece7nat;
    let e14 = 2 * e13 + 1;
    lemma_power_mod_square_times(3nat, e13, n, x13, 0x473eb9ef8f44704nat, x14);
    let x15 = 0x4afdf4044326dnat;
    let e15 = 2 * e14;
    lemma_power_mod_square(3nat, e14, n, x14, 0x2364fbe7f398c4nat, x15);
    let x16 = 0x8601dcc8399071nat;
    let e16 = 2 * e15;
    lemma_power_mod_square(3nat, e15, n, x15, 0xebe8119ac78nat, x16);
    let x17 = 0x171746585c0916fnat;
    let e17 = 2 * e16 + 1;
    lemma_power_mod_square_times(3nat, e16, n, x16, 0x8d3e4cd6f277f4nat, x17);
    let x18 = 0xfb2476fad8d228nat;
    let e18 = 2 * e17;
    lemma_power_mod_square(3nat, e17, n, x17, 0x165dbfe12e53329nat, x18);
    let x19 = 0x131be2e57d9f481nat;
    let e19 = 2 * e18;
    lemma_power_mod_square(3nat, e18, n, x18, 0xa55c23b555290fnat, x19);
    let x20 = 0x3f7869e1027f08nat;
    let e20 = 2 * e19;
    lemma_power_mod_square(3nat, e19, n, x19, 0xf513be86ce6129nat, x20);
    let x21 = 0xb18554430f33b3nat;
    let e21 = 2 * e20;
    lemma_power_mod_square(3nat, e20, n, x20, 0xa8fc8b5d7e97dnat, x21);
    let x22 = 0xd9f9e44b542d0enat;
    let e22 = 2 * e21 + 1;
    lemma_power_mod_square_times(3nat, e21, n, x21, 0xf7dca8cd1d975dnat, x22);
    let x23 = 0xd1da69f4960079nat;
    let e23 = 2 * e22 + 1;
    lemma_power_mod_square_times(3nat, e22, n, x22, 0x175b48b6a6dbae3nat, x23);
    let x24 = 0x17d10a411b04685nat;
    let e24 = 2 * e23 + 1;
    lemma_power_mod_square_times(3nat, e23, n, x23, 0x15a5f27572e26aenat, x24);
    let x25 = 0xde9f11859c16b5nat;
    let e25 = 2 * e24 + 1;
    lemma_power_mod_square_times(3nat, e24, n, x24, 0x4761d28ce91bbb6nat, x25);
    let x26 = 0x13e5fe7858d9f68nat;
    let e26 = 2 * e25 + 1;
    lemma_power_mod_square_times(3nat, e25, n, x25, 0x185cd8454648293nat, x26);
    let x27 = 0x66344d279fd552nat;
    let e27 = 2 * e26;
    lemma_power_mod_square(3nat, e26, n, x26, 0x109bf019caab08enat, x27);
    let x28 = 0x12fcf09a3c96dd9nat;
    let e28 = 2 * e27 + 1;
    lemma_power_mod_square_times(3nat, e27, n, x27, 0x52287004369803nat, x28);
    let x29 = 0xba29efab396e8anat;
    let e29 = 2 * e28 + 1;
    lemma_power_mod_square_times(3nat, e28, n, x28, 0x2d5f562b30eb579nat, x29);
    let x30 = 0x111bfad75c51d36nat;
    let e30 = 2 * e29;
    lemma_power_mod_square(3nat, e29, n, x29, 0x5adc945b4d1ccenat, x30);
    let x31 = 0x153affdffac4eb2nat;
    let e31 = 2 * e30;
    lemma_power_mod_square(3nat, e30, n, x30, 0xc478180554ab12nat, x31);
    let x32 = 0x15c864a77115c05nat;
    let e32 = 2 * e31 + 1;
    lemma_power_mod_square_times(3nat, e31, n, x31, 0x38b8caea3f02417nat, x32);
}

proof fn lemma_power_107361793816595537_over_85831_part_1()
    requires
        power_mod(3nat, 0x1233c87d9nat, 0x17d6cfb8ee30c51nat) == 0x15c864a77115c05nat,
    ensures
        power_mod(3nat, 0x1233c87d930nat, 0x17d6cfb8ee30c51nat) == 0x98fcfe28168e75nat,
{
    let n = 0x17d6cfb8ee30c51nat;
    let e0 = 0x1233c87d9nat;
    let x0 = 0x15c864a77115c05nat;
    let x1 = 0xa3c6f960761330nat;
    let e1 = 2 * e0;
    lemma_power_mod_square(3nat, e0, n, x0, 0x13e7620565f0119nat, x1);
    let x2 = 0x70f649934f6702nat;
    let e2 = 2 * e1;
    lemma_power_mod_square(3nat, e1, n, x1, 0x4652ad830aa89enat, x2);
    let x3 = 0x1581bc6ed171044nat;
    let e3 = 2 * e2 + 1;
    lemma_power_mod_square_times(3nat, e2, n, x2, 0x645d18e80a3d48nat, x3);
    let x4 = 0x14f7f51c406113anat;
    let e4 = 2 * e3 + 1;
    lemma_power_mod_square_times(3nat, e3, n, x3, 0x3a353a8ef47b616nat, x4);
    let x5 = 0xe31f67e3902372nat;
    let e5 = 2 * e4;
    lemma_power_mod_square(3nat, e4, n, x4, 0x127196c970dc012nat, x5);
    let x6 = 0xa0459cd6470a0cnat;
    let e6 = 2 * e5;
    lemma_power_mod_square(3nat, e5, n, x5, 0x873de8897ab338nat, x6);
    let x7 = 0x13ff7647d172a91nat;
    let e7 = 2 * e6;
    lemma_power_mod_square(3nat, e6, n, x6, 0x43584da32c294fnat, x7);
    let x8 = 0x98fcfe28168e75nat;
    let e8 = 2 * e7;
    lemma_power_mod_square(3nat, e7, n, x7, 0x10c68f6e9c5edecnat, x8);
}

proof fn lemma_power_107361793816595537_over_85831()
    ensures
        power_mod(3nat, 0x1233c87d930nat, 0x17d6cfb8ee30c51nat) == 0x98fcfe28168e75nat,
{
    lemma_power_mod_first(3nat, 0x17d6cfb8ee30c51nat);
    lemma_power_107361793816595537_over_85831_part_0();
    lemma_power_107361793816595537_over_85831_part_1();
}

proof fn lemma_power_107361793816595537_over_4681609_part_0()
    requires
        power_mod(3nat, 1nat, 0x17d6cfb8ee30c51nat) == 3nat,
    ensures
        power_mod(3nat, 0x155b93174nat, 0x17d6cfb8ee30c51nat) == 0x243c17961949e3nat,
{
    let n = 0x17d6cfb8ee30c51nat;
    let e0 = 1nat;
    let x0 = 3nat;
    let x1 = 9nat;
    let e1 = 2 * e0;
    lemma_power_mod_square(3nat, e0, n, x0, 0nat, x1);
    let x2 = 243nat;
    let e2 = 2 * e1 + 1;
    lemma_power_mod_square_times(3nat, e1, n, x1, 0nat, x2);
    let x3 = 59049nat;
    let e3 = 2 * e2;
    lemma_power_mod_square(3nat, e2, n, x2, 0nat, x3);
    let x4 = 0x26f7c52b3nat;
    let e4 = 2 * e3 + 1;
    lemma_power_mod_square_times(3nat, e3, n, x3, 0nat, x4);
    let x5 = 0x3d8991b05d22benat;
    let e5 = 2 * e4;
    lemma_power_mod_square(3nat, e4, n, x4, 1019nat, x5);
    let x6 = 0xfac6a4da383500nat;
    let e6 = 2 * e5 + 1;
    lemma_power_mod_square_times(3nat, e5, n, x5, 0x1dc8d059b3924cnat, x6);
    let x7 = 0xcb95a6dd4ffd4enat;
    let e7 = 2 * e6;
    lemma_power_mod_square(3nat, e6, n, x6, 0xa4e0ae3c579512nat, x7);
    let x8 = 0x763bf37f325910nat;
    let e8 = 2 * e7 + 1;
    lemma_power_mod_square_times(3nat, e7, n, x7, 0x145fcd137020b7cnat, x8);
    let x9 = 0x61854eeddbde6enat;
    let e9 = 2 * e8 + 1;
    lemma_power_mod_square_times(3nat, e8, n, x8, 0x6df3573d70e0f2nat, x9);
    let x10 = 0x1179672c7550c18nat;
    let e10 = 2 * e9;
    lemma_power_mod_square(3nat, e9, n, x9, 0x18eefc9433e96cnat, x10);
    let x11 = 0x1463ee78926a600nat;
    let e11 = 2 * e10 + 1;
    lemma_power_mod_square_times(3nat, e10, n, x10, 0x266d1b2d943a4c0nat, x11);
    let x12 = 0x15025a5787fb0a9nat;
    let e12 = 2 * e11 + 1;
    lemma_power_mod_square_times(3nat, e11, n, x11, 0x345253de515bf27nat, x12);
    let x13 = 0xc7b156a11d2630nat;
    let e13 = 2 * e12 + 1;
    lemma_power_mod_square_times(3nat, e12, n, x12, 0x378baead9e45693nat, x13);
    let x14 = 0x305f642e9fc176nat;
    let e14 = 2 * e13;
    lemma_power_mod_square(3nat, e13, n, x13, 0x688c36db530e6anat, x14);
    let x15 = 0x1137d7ac4240d3enat;
    let e15 = 2 * e14;
    lemma_power_mod_square(3nat, e14, n, x14, 0x62277f75f8746nat, x15);
    let x16 = 0x88539bd46c73benat;
    let e16 = 2 * e15 + 1;
    lemma_power_mod_square_times(3nat, e15, n, x15, 0x254ee18b3110aeenat, x16);
    let x17 = 0xf3baa758ed5c6enat;
    let e17 = 2 * e16;
    lemma_power_mod_square(3nat, e16, n, x16, 0x30b994f75833b6nat, x17);
    let x18 = 0xdbd5f00421eeanat;
    let e18 = 2 * e17;
    lemma_power_mod_square(3nat, e17, n, x17, 0x9bbdded73b763anat, x18);
    let x19 = 0x51bc1648711982nat;
    let e19 = 2 * e18 + 1;
    lemma_power_mod_square_times(3nat, e18, n, x18, 0x17c1bcda7e50anat, x19);
    let x20 = 0x607f30e8b163d6nat;
    let e20 = 2 * e19 + 1;
    lemma_power_mod_square_times(3nat, e19, n, x19, 0x348b4d9691fb56nat, x20);
    let x21 = 0x9425d1b282d526nat;
    let e21 = 2 * e20;
    lemma_power_mod_square(3nat, e20, n, x20, 0x1869a830511c5enat, x21);
    let x22 = 0x12a96832dc1a373nat;
    let e22 = 2 * e21;
    lemma_power_mod_square(3nat, e21, n, x21, 0x398a95dd605be1nat, x22);
    let x23 = 0x1591a6a104fd486nat;
    let e23 = 2 * e22;
    lemma_power_mod_square(3nat, e22, n, x22, 0xe9bda618e24d33nat, x23);
    let x24 = 0x237ea813be4a71nat;
    let e24 = 2 * e23 + 1;
    lemma_power_mod_square_times(3nat, e23, n, x23, 0x3a8b7ffce34288bnat, x24);
    let x25 = 0x10a3a8e10d565abnat;
    let e25 = 2 * e24;
    lemma_power_mod_square(3nat, e24, n, x24, 0x34d96452fed56nat, x25);
    let x26 = 0x68d29beaafd424nat;
    let e26 = 2 * e25 + 1;
    lemma_power_mod_square_times(3nat, e25, n, x25, 0x22d7832a3b20d57nat, x26);
    let x27 = 0x100a87a463821anat;
    let e27 = 2 * e26 + 1;
    lemma_power_mod_square_times(3nat, e26, n, x26, 0x566be8c0649436nat, x27);
    let x28 = 0x161632909a86a07nat;
    let e28 = 2 * e27 + 1;
    lemma_power_mod_square_times(3nat, e27, n, x27, 0x2061bf37b0f55nat, x28);
    let x29 = 0x7c5836fe1764f8nat;
    let e29 = 2 * e28;
    lemma_power_mod_square(3nat, e28, n, x28, 0x14768f9a9983a69nat, x29);
    let x30 = 0x126f696e7ddc727nat;
    let e30 = 2 * e29 + 1;
    lemma_power_mod_square_times(3nat, e29, n, x29, 0x799bdb8eea3ec9nat, x30);
    let x31 = 0xd6297f16283976nat;
    let e31 = 2 * e30;
    lemma_power_mod_square(3nat, e30, n, x30, 0xe419ac1eccb70bnat, x31);
    let x32 = 0x243c17961949e3nat;
    let e32 = 2 * e31;
    lemma_power_mod_square(3nat, e31, n, x31, 0x783f4d7e670d31nat, x32);
}

proof fn lemma_power_107361793816595537_over_4681609_part_1()
    requires
        power_mod(3nat, 0x155b93174nat, 0x17d6cfb8ee30c51nat) == 0x243c17961949e3nat,
    ensures
        power_mod(3nat, 0x556e4c5d0nat, 0x17d6cfb8ee30c51nat) == 0x8a175e14862be3nat,
{
    let n = 0x17d6cfb8ee30c51nat;
    let e0 = 0x155b93174nat;
    let x0 = 0x243c17961949e3nat;
    let x1 = 0x400017f9a713d3nat;
    let e1 = 2 * e0;
    lemma_power_mod_square(3nat, e0, n, x0, 0x371362750b496nat, x1);
    let x2 = 0x8a175e14862be3nat;
    let e2 = 2 * e1;
    lemma_power_mod_square(3nat, e1, n, x1, 0xabd20afc90026nat, x2);
}

proof fn lemma_power_107361793816595537_over_4681609()
    ensures
        power_mod(3nat, 0x556e4c5d0nat, 0x17d6cfb8ee30c51nat) == 0x8a175e14862be3nat,
{
    lemma_power_mod_first(3nat, 0x17d6cfb8ee30c51nat);
    lemma_power_107361793816595537_over_4681609_part_0();
    lemma_power_107361793816595537_over_4681609_part_1();
}

proof fn lemma_certificate_107361793816595537()
    ensures
        is_certificate(0x17d6cfb8ee30c51nat, 3nat, seq![2nat, 2nat, 2nat, 2nat, 16699nat, 85831nat, 0x476f89nat]),
{
    let n = 0x17d6cfb8ee30c51nat;
    let factors = seq![2nat, 2nat, 2nat, 2nat, 16699nat, 85831nat, 0x476f89nat];
    lemma_small_primes();
    lemma_prime_16699();
    lemma_prime_85831();
    lemma_prime_4681609();
    lemma_power_107361793816595537_over_2();
    lemma_fundamental_div_mod_converse(0x17d6cfb8ee30c50int, 2int, 0xbeb67dc7718628int, 0);
    lemma_power_107361793816595537_over_16699();
    lemma_fundamental_div_mod_converse(0x17d6cfb8ee30c50int, 16699int, 0x5d8ec435ff0int, 0);
    lemma_power_107361793816595537_over_85831();
    lemma_fundamental_div_mod_converse(0x17d6cfb8ee30c50int, 85831int, 0x1233c87d930int, 0);
    lemma_power_107361793816595537_over_4681609();
    lemma_fundamental_div_mod_converse(0x17d6cfb8ee30c50int, 0x476f89int, 0x556e4c5d0int, 0);
    lemma_power_mod_square(3nat, 0xbeb67dc7718628nat, n, 0x17d6cfb8ee30c50nat, 0x17d6cfb8ee30c4fnat, 1);
    let f0 = Seq::<nat>::empty();
    lemma_product_push(f0, 2nat, 1nat);
    let f1 = f0.push(2nat);
    lemma_product_push(f1, 2nat, 2nat);
    let f2 = f1.push(2nat);
    lemma_product_push(f2, 2nat, 4nat);
    let f3 = f2.push(2nat);
    lemma_product_push(f3, 2nat, 8nat);
    let f4 = f3.push(2nat);
    lemma_product_push(f4, 16699nat, 16nat);
    let f5 = f4.push(16699nat);
    lemma_product_push(f5, 85831nat, 267184nat);
    let f6 = f5.push(85831nat);
    lemma_product_push(f6, 0x476f89nat, 0x556e4c5d0nat);
    let f7 = f6.push(0x476f89nat);
    assert(factors =~= f7);
    assert forall|j: int| 0 <= j < factors.len() implies is_prime(#[trigger] factors[j])
        && power_mod(3nat, ((n - 1) / factors[j] as int) as nat, n) != 1 by {
        if j == 0 {
        } else if j == 1 {
        } else if j == 2 {
        } else if j == 3 {
        } else if j == 4 {
        } else if j == 5 {
        } else if j == 6 {
        }
    }
}

/// 107361793816595537 is prime.
pub(crate) proof fn lemma_prime_107361793816595537()
    ensures
        is_prime(0x17d6cfb8ee30c51nat),
{
    lemma_certificate_107361793816595537();
    lemma_certified_prime(0x17d6cfb8ee30c51nat, 3nat, seq![2nat, 2nat, 2nat, 2nat, 16699nat, 85831nat, 0x476f89nat]);
}

proof fn lemma_power_173378833005251801_over_2_part_0()
    requires
        power_mod(6nat, 1nat, 0x267f72148d98cd9nat) == 6nat,
    ensures
        power_mod(6nat, 0x133fb90a4nat, 0x267f72148d98cd9nat) == 0x10c43d2cd8aa8dnat,
{
    let n = 0x267f72148d98cd9nat;
    let e0 = 1nat;
    let x0 = 6nat;
    let x1 = 36nat;
    let e1 = 2 * e0;
    lemma_power_mod_square(6nat, e0, n, x0, 0nat, x1);
    let x2 = 1296nat;
    let e2 = 2 * e1;
    lemma_power_mod_square(6nat, e1, n, x1, 0nat, x2);
    let x3 = 0x99c600nat;
    let e3 = 2 * e2 + 1;
    lemma_power_mod_square_times(6nat, e2, n, x2, 0nat, x3);
    let x4 = 0x22a359ed80000nat;
    let e4 = 2 * e3 + 1;
    lemma_power_mod_square_times(6nat, e3, n, x3, 0nat, x4);
    let x5 = 0x4d6a157c146dbanat;
    let e5 = 2 * e4;
    lemma_power_mod_square(6nat, e4, n, x4, 0x1f2a526f0b6nat, x5);
    let x6 = 0x6ad038292f440fnat;
    let e6 = 2 * e5;
    lemma_power_mod_square(6nat, e5, n, x5, 0x9babb8153b69dnat, x6);
    let x7 = 0xbfe1cdd532ec19nat;
    let e7 = 2 * e6 + 1;
    lemma_power_mod_square_times(6nat, e6, n, x6, 0x6f223f8fa99a75nat, x7);
    let x8 = 0x1230458d3531b86nat;
    let e8 = 2 * e7 + 1;
    lemma_power_mod_square_times(6nat, e7, n, x7, 0x166a4e1acf62820nat, x8);
    let x9 = 0x1621fea9514b104nat;
    let e9 = 2 * e8 + 1;
    lemma_power_mod_square_times(6nat, e8, n, x8, 0x338f5252b3095f4nat, x9);
    let x10 = 0x1c41438329612d4nat;
    let e10 = 2 * e9 + 1;
    lemma_power_mod_square_times(6nat, e9, n, x9, 0x4c589fc7830026cnat, x10);
    let x11 = 0x59d9f046bd3ddenat;
    let e11 = 2 * e10 + 1;
    lemma_power_mod_square_times(6nat, e10, n, x10, 0x7c6c811a5da7252nat, x11);
    let x12 = 0x24288ca853c76f8nat;
    let e12 = 2 * e11 + 1;
    lemma_power_mod_square_times(6nat, e11, n, x11, 0x4ea3dbe8996120nat, x12);
    let x13 = 0xbf7841d49a411nat;
    let e13 = 2 * e12 + 1;
    lemma_power_mod_square_times(6nat, e12, n, x12, 0xcbc44835f0bcf87nat, x13);
    let x14 = 0x1ddfae591287e7enat;
    let e14 = 2 * e13;
    lemma_power_mod_square(6nat, e13, n, x13, 0x3b84757615dbnat, x14);
    let x15 = 0x2657a5892cf165anat;
    let e15 = 2 * e14 + 1;
    lemma_power_mod_square_times(6nat, e14, n, x14, 0x8b16edd0c6cfceenat, x15);
    let x16 = 0x57e4b65aeb9436nat;
    let e16 = 2 * e15 + 1;
    lemma_power_mod_square_times(6nat, e15, n, x15, 0xe5200cd0326a972nat, x16);
    let x17 = 0x10fa22c88c3e157nat;
    let e17 = 2 * e16 + 1;
    lemma_power_mod_square_times(6nat, e16, n, x16, 0x4b400c1ba36e69nat, x17);
    let x18 = 0x9dcdecd5d46149nat;
    let e18 = 2 * e17;
    lemma_power_mod_square(6nat, e17, n, x17, 0x77c984cb092f88nat, x18);
    let x19 = 0x173930dc85b5d3cnat;
    let e19 = 2 * e18;
    lemma_power_mod_square(6nat, e18, n, x18, 0x286d8f44179d1dnat, x19);
    let x20 = 0x19d016625b4abf2nat;
    let e20 = 2 * e19 + 1;
    lemma_power_mod_square_times(6nat, e19, n, x19, 0x540e3b6b7f80f1enat, x20);
    let x21 = 0x97469bea9deb1nat;
    let e21 = 2 * e20;
    lemma_power_mod_square(6nat, e20, n, x20, 0x114ebae7e2872cbnat, x21);
    let x22 = 0x122eb0b5abd0ff3nat;
    let e22 = 2 * e21;
    lemma_power_mod_square(6nat, e21, n, x21, 0x2526ec71ed1enat, x22);
    let x23 = 0x1dea95adb484455nat;
    let e23 = 2 * e22;
    lemma_power_mod_square(6nat, e22, n, x22, 0x896649404c5a74nat, x23);
    let x24 = 0xf04d7a64a81f47nat;
    let e24 = 2 * e23;
    lemma_power_mod_square(6nat, e23, n, x23, 0x173f6c1edc45d42nat, x24);
    let x25 = 0x4f4384a860675dnat;
    let e25 = 2 * e24 + 1;
    lemma_power_mod_square_times(6nat, e24, n, x24, 0x2327c8980192771nat, x25);
    let x26 = 0x63893ea4127e5enat;
    let e26 = 2 * e25;
    lemma_power_mod_square(6nat, e25, n, x25, 0xa3327f5d51de3nat, x26);
    let x27 = 0x262896f47647fcanat;
    let e27 = 2 * e26 + 1;
    lemma_power_mod_square_times(6nat, e26, n, x26, 0x6081a64e6bc0fenat, x27);
    let x28 = 0x254db324fb3ff53nat;
    let e28 = 2 * e27;
    lemma_power_mod_square(6nat, e27, n, x27, 0x25d27fc99c855f9nat, x28);
    let x29 = 0x1fc8098de1f200nat;
    let e29 = 2 * e28;
    lemma_power_mod_square(6nat, e28, n, x28, 0x242570692261c91nat, x29);
    let x30 = 0x2e07d14f10697anat;
    let e30 = 2 * e29 + 1;
    lemma_power_mod_square_times(6nat, e29, n, x29, 0x9d6b9c47d6ef6nat, x30);
    let x31 = 0x23c7e87096f08f6nat;
    let e31 = 2 * e30;
    lemma_power_mod_square(6nat, e30, n, x30, 0x37098176e89denat, x31);
    let x32 = 0x10c43d2cd8aa8dnat;
    let e32 = 2 * e31;
    lemma_power_mod_square(6nat, e31, n, x31, 0x2141750772d362fnat, x32);
}

proof fn lemma_power_173378833005251801_over_2_part_1()
    requires
        power_mod(6nat, 0x133fb90a4nat, 0x267f72148d98cd9nat) == 0x10c43d2cd8aa8dnat,
    ensures
        power_mod(6nat, 0x133fb90a46cc66cnat, 0x267f72148d98cd9nat) == 0x267f72148d98cd8nat,
{
    let n = 0x267f72148d98cd9nat;
    let e0 = 0x133fb90a4nat;
    let x0 = 0x10c43d2cd8aa8dnat;
    let x1 = 0x17988a89c15bb78nat;
    let e1 = 2 * e0;
    lemma_power_mod_square(6nat, e0, n, x0, 0x74d5a96a9d19nat, x1);
    let x2 = 0x77fd71466dc639nat;
    let e2 = 2 * e1 + 1;
    lemma_power_mod_square_times(6nat, e1, n, x1, 0x56c5fedce02251fnat, x2);
    let x3 = 0x1e073f33ee62d3bnat;
    let e3 = 2 * e2 + 1;
    lemma_power_mod_square_times(6nat, e2, n, x2, 0x8c3e88d909c763nat, x3);
    let x4 = 0x2316ed70f3d6693nat;
    let e4 = 2 * e3;
    lemma_power_mod_square(6nat, e3, n, x3, 0x176c0d51691a176nat, x4);
    let x5 = 0x20b2bcfdae6229enat;
    let e5 = 2 * e4 + 1;
    lemma_power_mod_square_times(6nat, e4, n, x4, 0xbfe5edc09d62798nat, x5);
    let x6 = 0x2211aa5809d74c3nat;
    let e6 = 2 * e5 + 1;
    lemma_power_mod_square_times(6nat, e5, n, x5, 0xa6a232bc04655ddnat, x6);
    let x7 = 0x1a26db38a26c69cnat;
    let e7 = 2 * e6;
    lemma_power_mod_square(6nat, e6, n, x6, 0x1e2650fe91b2535nat, x7);
    let x8 = 0x93ddf8f45ca79bnat;
    let e8 = 2 * e7;
    lemma_power_mod_square(6nat, e7, n, x7, 0x11c3d9ef90e5dfdnat, x8);
    let x9 = 0xdc7784c28c9b31nat;
    let e9 = 2 * e8 + 1;
    lemma_power_mod_square_times(6nat, e8, n, x8, 0xd4fac59000a7ednat, x9);
    let x10 = 0x10cc8799a6f178bnat;
    let e10 = 2 * e9 + 1;
    lemma_power_mod_square_times(6nat, e9, n, x9, 0x1d9754c3d3551b3nat, x10);
    let x11 = 0xaa9a47aa5e493bnat;
    let e11 = 2 * e10;
    lemma_power_mod_square(6nat, e10, n, x10, 0x7549516cb8cf6enat, x11);
    let x12 = 0xc98555e027ecf8nat;
    let e12 = 2 * e11;
    lemma_power_mod_square(6nat, e11, n, x11, 0x2f40601d978b09nat, x12);
    let x13 = 0x2120088d6b3f347nat;
    let e13 = 2 * e12;
    lemma_power_mod_square(6nat, e12, n, x12, 0x41ee1a38da9d21nat, x13);
    let x14 = 0xa119b9159f571enat;
    let e14 = 2 * e13 + 1;
    lemma_power_mod_square_times(6nat, e13, n, x13, 0xab036e4795f6e48nat, x14);
    let x15 = 0x10645ad375850bdnat;
    let e15 = 2 * e14 + 1;
    lemma_power_mod_square_times(6nat, e14, n, x14, 0xfcce861cd3c253nat, x15);
    let x16 = 0x1f0fb7062e185b4nat;
    let e16 = 2 * e15;
    lemma_power_mod_square(6nat, e15, n, x15, 0x6fac492a43f35dnat, x16);
    let x17 = 0x1ff01493732e5bnat;
    let e17 = 2 * e16;
    lemma_power_mod_square(6nat, e16, n, x16, 0x190fb815085bcbdnat, x17);
    let x18 = 0x2170011ec6e542fnat;
    let e18 = 2 * e17 + 1;
    lemma_power_mod_square_times(6nat, e17, n, x17, 0x9ef94562510bfnat, x18);
    let x19 = 0xd8e8d269f51808nat;
    let e19 = 2 * e18 + 1;
    lemma_power_mod_square_times(6nat, e18, n, x18, 0xae410c5a4d8caeenat, x19);
    let x20 = 0x143ad76c190d082nat;
    let e20 = 2 * e19;
    lemma_power_mod_square(6nat, e19, n, x19, 0x4c623a527eeeeenat, x20);
    let x21 = 0x11837d83425dde0nat;
    let e21 = 2 * e20 + 1;
    lemma_power_mod_square_times(6nat, e20, n, x20, 0x3fc845972ff1cf8nat, x21);
    let x22 = 0x13d40e1b9be71d9nat;
    let e22 = 2 * e21 + 1;
    lemma_power_mod_square_times(6nat, e21, n, x21, 0x2fcdea5e113eaffnat, x22);
    let x23 = 0x2aaa22e3d87248nat;
    let e23 = 2 * e22;
    lemma_power_mod_square(6nat, e22, n, x22, 0xa366d1cd691f51nat, x23);
    let x24 = 0x267f72148d98cd8nat;
    let e24 = 2 * e23;
    lemma_power_mod_square(6nat, e23, n, x23, 0x2f48475c861a8nat, x24);
}

proof fn lemma_power_173378833005251801_over_2()
    ensures
        power_mod(6nat, 0x133fb90a46cc66cnat, 0x267f72148d98cd9nat) == 0x267f72148d98cd8nat,
{
    lemma_power_mod_first(6nat, 0x267f72148d98cd9nat);
    lemma_power_173378833005251801_over_2_part_0();
    lemma_power_173378833005251801_over_2_part_1();
}

proof fn lemma_power_173378833005251801_over_5_part_0()
    requires
        power_mod(6nat, 1nat, 0x267f72148d98cd9nat) == 6nat,
    ensures
        power_mod(6nat, 0x1ecc5b43anat, 0x267f72148d98cd9nat) == 0x15ff11b7ed61446nat,
{
    let n = 0x267f72148d98cd9nat;
    let e0 = 1nat;
    let x0 = 6nat;
    let x1 = 216nat;
    let e1 = 2 * e0 + 1;
    lemma_power_mod_square_times(6nat, e0, n, x0, 0nat, x1);
    let x2 = 279936nat;
    let e2 = 2 * e1 + 1;
    lemma_power_mod_square_times(6nat, e1, n, x1, 0nat, x2);
    let x3 = 0x6d79358000nat;
    let e3 = 2 * e2 + 1;
    lemma_power_mod_square_times(6nat, e2, n, x2, 0nat, x3);
    let x4 = 0x1ce70972cc39525nat;
    let e4 = 2 * e3;
    lemma_power_mod_square(6nat, e3, n, x3, 0x1374d3nat, x4);
    let x5 = 0x13b3706c8687e03nat;
    let e5 = 2 * e4 + 1;
    lemma_power_mod_square_times(6nat, e4, n, x4, 0x82313cabde98ecbnat, x5);
    let x6 = 0x1db9e6158aa9c57nat;
    let e6 = 2 * e5 + 1;
    lemma_power_mod_square_times(6nat, e5, n, x5, 0x3c7d9e560e9db77nat, x6);
    let x7 = 0x6897a7fdd596bbnat;
    let e7 = 2 * e6;
    lemma_power_mod_square(6nat, e6, n, x6, 0x16f3fefae2337c6nat, x7);
    let x8 = 0x26729bf4962e003nat;
    let e8 = 2 * e7;
    lemma_power_mod_square(6nat, e7, n, x7, 0x11c2923af3cb86nat, x8);
    let x9 = 0xf9f6ac088c0b47nat;
    let e9 = 2 * e8 + 1;
    lemma_power_mod_square_times(6nat, e8, n, x8, 0xe662bca9ec89307nat, x9);
    let x10 = 0x1b3bbb9bb032c5fnat;
    let e10 = 2 * e9 + 1;
    lemma_power_mod_square_times(6nat, e9, n, x9, 0x2609f7e8eede39fnat, x10);
    let x11 = 0xb26ca4a3d58a9anat;
    let e11 = 2 * e10;
    lemma_power_mod_square(6nat, e10, n, x10, 0x1343cc135e2c97fnat, x11);
    let x12 = 0x1902505415bdaa4nat;
    let e12 = 2 * e11;
    lemma_power_mod_square(6nat, e11, n, x11, 0x33aefba1f89a00nat, x12);
    let x13 = 0x1ef96de9d6d2f7fnat;
    let e13 = 2 * e12;
    lemma_power_mod_square(6nat, e12, n, x12, 0x103f15637fc4f79nat, x13);
    let x14 = 0x2373273078e71a2nat;
    let e14 = 2 * e13 + 1;
    lemma_power_mod_square_times(6nat, e13, n, x13, 0x9586d8eced30904nat, x14);
    let x15 = 0xb259911c74ec95nat;
    let e15 = 2 * e14;
    lemma_power_mod_square(6nat, e14, n, x14, 0x20a4a3a42af4407nat, x15);
    let x16 = 0x443d44bb65d7c2nat;
    let e16 = 2 * e15 + 1;
    lemma_power_mod_square_times(6nat, e15, n, x15, 0x135d79a37c638b4nat, x16);
    let x17 = 0x7dca9f192ece31nat;
    let e17 = 2 * e16 + 1;
    lemma_power_mod_square_times(6nat, e16, n, x16, 0x2d5bee4b99a6bfnat, x17);
    let x18 = 0x16a7e7d65ba3a31nat;
    let e18 = 2 * e17;
    lemma_power_mod_square(6nat, e17, n, x17, 0x19b05e9694c6b0nat, x18);
    let x19 = 0x9b051d123550ebnat;
    let e19 = 2 * e18 + 1;
    lemma_power_mod_square_times(6nat, e18, n, x18, 0x4fff61a9fadfd53nat, x19);
    let x20 = 0xd35650a5332fenat;
    let e20 = 2 * e19 + 1;
    lemma_power_mod_square_times(6nat, e19, n, x19, 0xea154e30dcbf18nat, x20);
    let x21 = 0x1c34e29d9d3fbf1nat;
    let e21 = 2 * e20;
    lemma_power_mod_square(6nat, e20, n, x20, 0x488274dcc8cbnat, x21);
    let x22 = 0x105ae7361dad0f6nat;
    let e22 = 2 * e21 + 1;
    lemma_power_mod_square_times(6nat, e21, n, x21, 0x7bff93c92f5b4d0nat, x22);
    let x23 = 0x8a840564c1ef3anat;
    let e23 = 2 * e22;
    lemma_power_mod_square(6nat, e22, n, x22, 0x6f2ba6546ef43anat, x23);
    let x24 = 0x19cd2c2673686f7nat;
    let e24 = 2 * e23;
    lemma_power_mod_square(6nat, e23, n, x23, 0x1f2619d83d2b75nat, x24);
    let x25 = 0x1536a7d60beea08nat;
    let e25 = 2 * e24;
    lemma_power_mod_square(6nat, e24, n, x24, 0x114ad26cce700f1nat, x25);
    let x26 = 0x11eed3220a3d591nat;
    let e26 = 2 * e25;
    lemma_power_mod_square(6nat, e25, n, x25, 0xbb0759790bfec7nat, x26);
    let x27 = 0x237ef68bc542efanat;
    let e27 = 2 * e26 + 1;
    lemma_power_mod_square_times(6nat, e26, n, x26, 0x321ee10866498acnat, x27);
    let x28 = 0x1d479d215f9a6bfnat;
    let e28 = 2 * e27 + 1;
    lemma_power_mod_square_times(6nat, e27, n, x27, 0xc45e6b6b5c5f741nat, x28);
    let x29 = 0xd8861b02d68d1dnat;
    let e29 = 2 * e28 + 1;
    lemma_power_mod_square_times(6nat, e28, n, x28, 0x859cfbd0f773391nat, x29);
    let x30 = 0x23683a9f7d93f06nat;
    let e30 = 2 * e29;
    lemma_power_mod_square(6nat, e29, n, x29, 0x4c1cc3b7ef1a7bnat, x30);
    let x31 = 0xed85e63dc84070nat;
    let e31 = 2 * e30 + 1;
    lemma_power_mod_square_times(6nat, e30, n, x30, 0xc36332a044d1aa8nat, x31);
    let x32 = 0x15ff11b7ed61446nat;
    let e32 = 2 * e31;
    lemma_power_mod_square(6nat, e31, n, x31, 0x5b976d3292d64anat, x32);
}

proof fn lemma_power_173378833005251801_over_5_part_1()
    requires
        power_mod(6nat, 0x1ecc5b43anat, 0x267f72148d98cd9nat) == 0x15ff11b7ed61446nat,
    ensures
        power_mod(6nat, 0x7b316d0e91e8f8nat, 0x267f72148d98cd9nat) == 0x21c44ac5d473ecfnat,
{
    let n = 0x267f72148d98cd9nat;
    let e0 = 0x1ecc5b43anat;
    let x0 = 0x15ff11b7ed61446nat;
    let x1 = 0x1cd4d66ee3a54c6nat;
    let e1 = 2 * e0;
    lemma_power_mod_square(6nat, e0, n, x0, 0xc91672c0a03e8enat, x1);
    let x2 = 0xf5c4d852aa7534nat;
    let e2 = 2 * e1 + 1;
    lemma_power_mod_square_times(6nat, e1, n, x1, 0x818d7ae076f1844nat, x2);
    let x3 = 0x2634e3d64c5b380nat;
    let e3 = 2 * e2;
    lemma_power_mod_square(6nat, e2, n, x2, 0x620fb18b6dad90nat, x3);
    let x4 = 0x840b356cdbefe1nat;
    let e4 = 2 * e3;
    lemma_power_mod_square(6nat, e3, n, x3, 0x25eae5fad3109b7nat, x4);
    let x5 = 0x30b42293aa568nat;
    let e5 = 2 * e4;
    lemma_power_mod_square(6nat, e4, n, x4, 0x1c4e5adf244d81nat, x5);
    let x6 = 0x3eb0c1c986176anat;
    let e6 = 2 * e5 + 1;
    lemma_power_mod_square_times(6nat, e5, n, x5, 0x171b0b542106nat, x6);
    let x7 = 0x196f380a92a32fnat;
    let e7 = 2 * e6 + 1;
    lemma_power_mod_square_times(6nat, e6, n, x6, 0x264843bf2ec7d1nat, x7);
    let x8 = 0x20937e7474644fnat;
    let e8 = 2 * e7 + 1;
    lemma_power_mod_square_times(6nat, e7, n, x7, 0x64d2b014348cfnat, x8);
    let x9 = 0x23aa3398dc5c95bnat;
    let e9 = 2 * e8 + 1;
    lemma_power_mod_square_times(6nat, e8, n, x8, 0xa564580c80963nat, x9);
    let x10 = 0x4acab4b14b1862nat;
    let e10 = 2 * e9;
    lemma_power_mod_square(6nat, e9, n, x9, 0x210a53ac7e5cf4fnat, x10);
    let x11 = 0xbf258aad43cbfbnat;
    let e11 = 2 * e10 + 1;
    lemma_power_mod_square_times(6nat, e10, n, x10, 0x367d0077d0afe5nat, x11);
    let x12 = 0x1b7e24f57384667nat;
    let e12 = 2 * e11;
    lemma_power_mod_square(6nat, e11, n, x11, 0x3b51142feae802nat, x12);
    let x13 = 0x1c535b5d95e55afnat;
    let e13 = 2 * e12;
    lemma_power_mod_square(6nat, e12, n, x12, 0x13a2341e685f492nat, x13);
    let x14 = 0x2469b0ce1ff446dnat;
    let e14 = 2 * e13;
    lemma_power_mod_square(6nat, e13, n, x13, 0x14d757a705a8254nat, x14);
    let x15 = 0xcdec12819e4a01nat;
    let e15 = 2 * e14 + 1;
    lemma_power_mod_square_times(6nat, e14, n, x14, 0xcea50ecd4d41afdnat, x15);
    let x16 = 0x955e2dada5a3c6nat;
    let e16 = 2 * e15 + 1;
    lemma_power_mod_square_times(6nat, e15, n, x15, 0x19d0c6f4504ce40nat, x16);
    let x17 = 0xe0c5ecfa8f5f89nat;
    let e17 = 2 * e16 + 1;
    lemma_power_mod_square_times(6nat, e16, n, x16, 0xd9532aa1c00467nat, x17);
    let x18 = 0xbd0e3906c22b0bnat;
    let e18 = 2 * e17 + 1;
    lemma_power_mod_square_times(6nat, e17, n, x17, 0x1ec226f3bc29ad3nat, x18);
    let x19 = 0x1801d477e840e67nat;
    let e19 = 2 * e18 + 1;
    lemma_power_mod_square_times(6nat, e18, n, x18, 0x15c27ee95ed6a87nat, x19);
    let x20 = 0x1c47bd83cb21a9anat;
    let e20 = 2 * e19;
    lemma_power_mod_square(6nat, e19, n, x19, 0xef885fc8e9cf2fnat, x20);
    let x21 = 0xcce564f8f7c806nat;
    let e21 = 2 * e20;
    lemma_power_mod_square(6nat, e20, n, x20, 0x14c6430206cf6cenat, x21);
    let x22 = 0x21c44ac5d473ecfnat;
    let e22 = 2 * e21;
    lemma_power_mod_square(6nat, e21, n, x21, 0x44283674559addnat, x22);
}

proof fn lemma_power_173378833005251801_over_5()
    ensures
        power_mod(6nat, 0x7b316d0e91e8f8nat, 0x267f72148d98cd9nat) == 0x21c44ac5d473ecfnat,
{
    lemma_power_mod_first(6nat, 0x267f72148d98cd9nat);
    lemma_power_173378833005251801_over_5_part_0();
    lemma_power_173378833005251801_over_5_part_1();
}

proof fn lemma_power_173378833005251801_over_2621_part_0()
    requires
        power_mod(6nat, 1nat, 0x267f72148d98cd9nat) == 6nat,
    ensures
        power_mod(6nat, 0x1e14dc058nat, 0x267f72148d98cd9nat) == 0x1731e2170ecc983nat,
{
    let n = 0x267f72148d98cd9nat;
    let e0 = 1nat;
    let x0 = 6nat;
    let x1 = 216nat;
    let e1 = 2 * e0 + 1;
    lemma_power_mod_square_times(6nat, e0, n, x0, 0nat, x1);
    let x2 = 279936nat;
    let e2 = 2 * e1 + 1;
    lemma_power_mod_square_times(6nat, e1, n, x1, 0nat, x2);
    let x3 = 0x6d79358000nat;
    let e3 = 2 * e2 + 1;
    lemma_power_mod_square_times(6nat, e2, n, x2, 0nat, x3);
    let x4 = 0x1ce70972cc39525nat;
    let e4 = 2 * e3;
    lemma_power_mod_square(6nat, e3, n, x3, 0x1374d3nat, x4);
    let x5 = 0x235d71cde1c0a60nat;
    let e5 = 2 * e4;
    lemma_power_mod_square(6nat, e4, n, x4, 0x15b2df71fa6ed21nat, x5);
    let x6 = 0x19fb27b89049bb8nat;
    let e6 = 2 * e5;
    lemma_power_mod_square(6nat, e5, n, x5, 0x207cb51c398bd88nat, x6);
    let x7 = 0x244a6c92df65efenat;
    let e7 = 2 * e6;
    lemma_power_mod_square(6nat, e6, n, x6, 0x1188ac165f5be12nat, x7);
    let x8 = 0xab5241da8c6ee2nat;
    let e8 = 2 * e7 + 1;
    lemma_power_mod_square_times(6nat, e7, n, x7, 0xcd42c6571df2926nat, x8);
    let x9 = 0x44eec76d9ca3bfnat;
    let e9 = 2 * e8;
    lemma_power_mod_square(6nat, e8, n, x8, 0x2fa6807155e2cdnat, x9);
    let x10 = 0x2393d0189d9063dnat;
    let e10 = 2 * e9 + 1;
    lemma_power_mod_square_times(6nat, e9, n, x9, 0x2e491d4f83e971nat, x10);
    let x11 = 0x15b6fbf6f4bae90nat;
    let e11 = 2 * e10;
    lemma_power_mod_square(6nat, e10, n, x10, 0x20e0e53bbce3421nat, x11);
    let x12 = 0x17d6073a8fe4fb5nat;
    let e12 = 2 * e11;
    lemma_power_mod_square(6nat, e11, n, x11, 0xc3f8e7128438c3nat, x12);
    let x13 = 0x15740b8cf638a3anat;
    let e13 = 2 * e12 + 1;
    lemma_power_mod_square_times(6nat, e12, n, x12, 0x588c886067134fcnat, x13);
    let x14 = 0x1f964c6429a3350nat;
    let e14 = 2 * e13 + 1;
    lemma_power_mod_square_times(6nat, e13, n, x13, 0x47bafb0d88012c8nat, x14);
    let x15 = 0x1740f7f8320c47enat;
    let e15 = 2 * e14;
    lemma_power_mod_square(6nat, e14, n, x14, 0x19eabae8a7f6f52nat, x15);
    let x16 = 0x1d340cca6cc01d9nat;
    let e16 = 2 * e15 + 1;
    lemma_power_mod_square_times(6nat, e15, n, x15, 0x5446923889708d7nat, x16);
    let x17 = 0x23fa55baf391ec3nat;
    let e17 = 2 * e16 + 1;
    lemma_power_mod_square_times(6nat, e16, n, x16, 0x84eaaa05b3c521bnat, x17);
    let x18 = 0x179226f9a1ebdfenat;
    let e18 = 2 * e17 + 1;
    lemma_power_mod_square_times(6nat, e17, n, x17, 0xc9bcb5429f0bbf8nat, x18);
    let x19 = 0x9a3646fa7555abnat;
    let e19 = 2 * e18;
    lemma_power_mod_square(6nat, e18, n, x18, 0xe6e8148f51e181nat, x19);
    let x20 = 0xf23fd2ae4f98bcnat;
    let e20 = 2 * e19;
    lemma_power_mod_square(6nat, e19, n, x19, 0x269bb697275945nat, x20);
    let x21 = 0x7c01b9c9023288nat;
    let e21 = 2 * e20;
    lemma_power_mod_square(6nat, e20, n, x20, 0x5f45d47ccb3ec8nat, x21);
    let x22 = 0xb3ee72756a2296nat;
    let e22 = 2 * e21;
    lemma_power_mod_square(6nat, e21, n, x21, 0x18f7148b0070banat, x22);
    let x23 = 0x1514ed6284d9ec5nat;
    let e23 = 2 * e22;
    lemma_power_mod_square(6nat, e22, n, x22, 0x348f6f87c4b2b7nat, x23);
    let x24 = 0x4fa0789496ef36nat;
    let e24 = 2 * e23;
    lemma_power_mod_square(6nat, e23, n, x23, 0xb8b677120ad59bnat, x24);
    let x25 = 0x6d221965d6e095nat;
    let e25 = 2 * e24;
    lemma_power_mod_square(6nat, e24, n, x24, 0xa4b22354bbfe7nat, x25);
    let x26 = 0x16fbcdf05558e3fnat;
    let e26 = 2 * e25 + 1;
    lemma_power_mod_square_times(6nat, e25, n, x25, 0x7403788b13286fnat, x26);
    let x27 = 0x529f34128b9ffenat;
    let e27 = 2 * e26;
    lemma_power_mod_square(6nat, e26, n, x26, 0xdb8b167f2b59bbnat, x27);
    let x28 = 0x19a84cf6f87b51enat;
    let e28 = 2 * e27 + 1;
    lemma_power_mod_square_times(6nat, e27, n, x27, 0x427e9248f38e8anat, x28);
    let x29 = 0x22bf46b77793c77nat;
    let e29 = 2 * e28 + 1;
    lemma_power_mod_square_times(6nat, e28, n, x28, 0x6699381ffb8b509nat, x29);
    let x30 = 0x1d36ea0ba9dabbanat;
    let e30 = 2 * e29;
    lemma_power_mod_square(6nat, e29, n, x29, 0x1f5ca6cf81b5defnat, x30);
    let x31 = 0x1e59bfce1e175bcnat;
    let e31 = 2 * e30;
    lemma_power_mod_square(6nat, e30, n, x30, 0x162b7500469b7a8nat, x31);
    let x32 = 0x1731e2170ecc983nat;
    let e32 = 2 * e31;
    lemma_power_mod_square(6nat, e31, n, x31, 0x17ed7242a40a8d5nat, x32);
}

proof fn lemma_power_173378833005251801_over_2621_part_1()
    requires
        power_mod(6nat, 0x1e14dc058nat, 0x267f72148d98cd9nat) == 0x1731e2170ecc983nat,
    ensures
        power_mod(6nat, 0x3c29b80b05b8nat, 0x267f72148d98cd9nat) == 0x5b75f9120c810fnat,
{
    let n = 0x267f72148d98cd9nat;
    let e0 = 0x1e14dc058nat;
    let x0 = 0x1731e2170ecc983nat;
    let x1 = 0x5bd1d54a7b79aanat;
    let e1 = 2 * e0;
    lemma_power_mod_square(6nat, e0, n, x0, 0xdf98f942512af7nat, x1);
    let x2 = 0x96adf952c6c1e1nat;
    let e2 = 2 * e1;
    lemma_power_mod_square(6nat, e1, n, x1, 0xdafed5013353bnat, x2);
    let x3 = 0x1ce1343f3579166nat;
    let e3 = 2 * e2 + 1;
    lemma_power_mod_square_times(6nat, e2, n, x2, 0xdd2898faebd220nat, x3);
    let x4 = 0x15d8396bad98ac8nat;
    let e4 = 2 * e3;
    lemma_power_mod_square(6nat, e3, n, x3, 0x15aa1e44b36ff3cnat, x4);
    let x5 = 0x7ed942e29603e7nat;
    let e5 = 2 * e4 + 1;
    lemma_power_mod_square_times(6nat, e4, n, x4, 0x4a5f002a98826c1nat, x5);
    let x6 = 0xde7db71b570ebdnat;
    let e6 = 2 * e5 + 1;
    lemma_power_mod_square_times(6nat, e5, n, x5, 0x9cbc3d55be3191nat, x6);
    let x7 = 0x1a473359aef3b5fnat;
    let e7 = 2 * e6;
    lemma_power_mod_square(6nat, e6, n, x6, 0x505d885fd6cb3anat, x7);
    let x8 = 0xe52f0cd303db7anat;
    let e8 = 2 * e7 + 1;
    lemma_power_mod_square_times(6nat, e7, n, x7, 0x6b9f677c7dd3cecnat, x8);
    let x9 = 0x1801e9c4592e56anat;
    let e9 = 2 * e8 + 1;
    lemma_power_mod_square_times(6nat, e8, n, x8, 0x1ffa3515b428e1enat, x9);
    let x10 = 0x176e6a5561d106fnat;
    let e10 = 2 * e9 + 1;
    lemma_power_mod_square_times(6nat, e9, n, x9, 0x59d3c34d2764891nat, x10);
    let x11 = 0x2146336e57336afnat;
    let e11 = 2 * e10;
    lemma_power_mod_square(6nat, e10, n, x10, 0xe42dfa8856e5c2nat, x11);
    let x12 = 0x13177d622fce39dnat;
    let e12 = 2 * e11;
    lemma_power_mod_square(6nat, e11, n, x11, 0x1cc266c1bde75a4nat, x12);
    let x13 = 0x5b75f9120c810fnat;
    let e13 = 2 * e12;
    lemma_power_mod_square(6nat, e12, n, x12, 0x977cae8f013acanat, x13);
}

proof fn lemma_power_173378833005251801_over_2621()
    ensures
        power_mod(6nat, 0x3c29b80b05b8nat, 0x267f72148d98cd9nat) == 0x5b75f9120c810fnat,
{
    lemma_power_mod_first(6nat, 0x267f72148d98cd9nat);
    lemma_power_173378833005251801_over_2621_part_0();
    lemma_power_173378833005251801_over_2621_part_1();
}

proof fn lemma_power_173378833005251801_over_24809_part_0()
    requires
        power_mod(6nat, 1nat, 0x267f72148d98cd9nat) == 6nat,
    ensures
        power_mod(6nat, 0x196c97297nat, 0x267f72148d98cd9nat) == 0xb12b0776d71c65nat,
{
    let n = 0x267f72148d98cd9nat;
    let e0 = 1nat;
    let x0 = 6nat;
    let x1 = 216nat;
    let e1 = 2 * e0 + 1;
    lemma_power_mod_square_times(6nat, e0, n, x0, 0nat, x1);
    let x2 = 46656nat;
    let e2 = 2 * e1;
    lemma_power_mod_square(6nat, e1, n, x1, 0nat, x2);
    let x3 = 0x81bf1000nat;
    let e3 = 2 * e2;
    lemma_power_mod_square(6nat, e2, n, x2, 0nat, x3);
    let x4 = 0x25a5223e37b51d5nat;
    let e4 = 2 * e3 + 1;
    lemma_power_mod_square_times(6nat, e3, n, x3, 163nat, x4);
    let x5 = 0x1a5f299bfb3e43anat;
    let e5 = 2 * e4;
    lemma_power_mod_square(6nat, e4, n, x4, 0x24cfa86639ebb97nat, x5);
    let x6 = 0x20c4473c9e3e631nat;
    let e6 = 2 * e5 + 1;
    lemma_power_mod_square_times(6nat, e5, n, x5, 0x6c6406f83f1117fnat, x6);
    let x7 = 0x1cad620bcd3fdf8nat;
    let e7 = 2 * e6 + 1;
    lemma_power_mod_square_times(6nat, e6, n, x6, 0xa75528405f6fbfenat, x7);
    let x8 = 0x1a3bf71e4a30ea2nat;
    let e8 = 2 * e7;
    lemma_power_mod_square(6nat, e7, n, x7, 0x155ca45c886b3cenat, x8);
    let x9 = 0x129e54a14011d0nat;
    let e9 = 2 * e8 + 1;
    lemma_power_mod_square_times(6nat, e8, n, x8, 0x6b4373cfc4d2288nat, x9);
    let x10 = 0xe45aed56825941nat;
    let e10 = 2 * e9 + 1;
    lemma_power_mod_square_times(6nat, e9, n, x9, 0x3606ac3af1757nat, x10);
    let x11 = 0x19330ba0d0687bfnat;
    let e11 = 2 * e10;
    lemma_power_mod_square(6nat, e10, n, x10, 0x54a85245603f92nat, x11);
    let x12 = 0x1928c6a308e6abfnat;
    let e12 = 2 * e11;
    lemma_power_mod_square(6nat, e11, n, x11, 0x107ea38813f1292nat, x12);
    let x13 = 0xe624d14931ff0cnat;
    let e13 = 2 * e12 + 1;
    lemma_power_mod_square_times(6nat, e12, n, x12, 0x62a73b6d6882b8anat, x13);
    let x14 = 0xf1bb3805c43b18nat;
    let e14 = 2 * e13;
    lemma_power_mod_square(6nat, e13, n, x13, 0x55fd27ed720e38nat, x14);
    let x15 = 0x7b53344d39fa0anat;
    let e15 = 2 * e14;
    lemma_power_mod_square(6nat, e14, n, x14, 0x5edda3ae1ab026nat, x15);
    let x16 = 0xc7377a266c17b0nat;
    let e16 = 2 * e15 + 1;
    lemma_power_mod_square_times(6nat, e15, n, x15, 0x942605c50b66e8nat, x16);
    let x17 = 0x1fdcc90a9b74fdnat;
    let e17 = 2 * e16;
    lemma_power_mod_square(6nat, e16, n, x16, 0x406e59877ede3bnat, x17);
    let x18 = 0x177ffff14e8e93cnat;
    let e18 = 2 * e17 + 1;
    lemma_power_mod_square_times(6nat, e17, n, x17, 0x9e3969566a68anat, x18);
    let x19 = 0x204fa12167138f5nat;
    let e19 = 2 * e18 + 1;
    lemma_power_mod_square_times(6nat, e18, n, x18, 0x5611dc6fc985fe3nat, x19);
    let x20 = 0x24d48ec219ae7d2nat;
    let e20 = 2 * e19 + 1;
    lemma_power_mod_square_times(6nat, e19, n, x19, 0xa2b60a0dd29dca4nat, x20);
    let x21 = 0x234a307609dcd8nat;
    let e21 = 2 * e20;
    lemma_power_mod_square(6nat, e20, n, x20, 0x233c290937bf34cnat, x21);
    let x22 = 0x25e08da44def5bfnat;
    let e22 = 2 * e21;
    lemma_power_mod_square(6nat, e21, n, x21, 0x20595e51ce7e9nat, x22);
    let x23 = 0x1a59612e26312fdnat;
    let e23 = 2 * e22 + 1;
    lemma_power_mod_square_times(6nat, e22, n, x22, 0xdf995600f38d6b1nat, x23);
    let x24 = 0x378712580f1de1nat;
    let e24 = 2 * e23;
    lemma_power_mod_square(6nat, e23, n, x23, 0x1208c074554f868nat, x24);
    let x25 = 0x18bba510fb1036nat;
    let e25 = 2 * e24 + 1;
    lemma_power_mod_square_times(6nat, e24, n, x24, 0x1e08b412342ed0nat, x25);
    let x26 = 0x11e15017b71cedanat;
    let e26 = 2 * e25;
    lemma_power_mod_square(6nat, e25, n, x25, 0xfe3c626b129anat, x26);
    let x27 = 0x106789239d898e4nat;
    let e27 = 2 * e26;
    lemma_power_mod_square(6nat, e26, n, x26, 0x84de90736246c0nat, x27);
    let x28 = 0x5bb75fd862b18dnat;
    let e28 = 2 * e27 + 1;
    lemma_power_mod_square_times(6nat, e27, n, x27, 0x29f0ddbc2716f8bnat, x28);
    let x29 = 0x227642b5619336dnat;
    let e29 = 2 * e28;
    lemma_power_mod_square(6nat, e28, n, x28, 0xda80b108f409cnat, x29);
    let x30 = 0xc5b07a19a85120nat;
    let e30 = 2 * e29 + 1;
    lemma_power_mod_square_times(6nat, e29, n, x29, 0xb918548c4dbc646nat, x30);
    let x31 = 0x390812936aa92dnat;
    let e31 = 2 * e30 + 1;
    lemma_power_mod_square_times(6nat, e30, n, x30, 0x17cae6b42bbfd8bnat, x31);
    let x32 = 0xb12b0776d71c65nat;
    let e32 = 2 * e31 + 1;
    lemma_power_mod_square_times(6nat, e31, n, x31, 0x1faed331c410f9nat, x32);
}

proof fn lemma_power_173378833005251801_over_24809_part_1()
    requires
        power_mod(6nat, 0x196c97297nat, 0x267f72148d98cd9nat) == 0xb12b0776d71c65nat,
    ensures
        power_mod(6nat, 0x65b25ca5f18nat, 0x267f72148d98cd9nat) == 0x153d8ceaf9170enat,
{
    let n = 0x267f72148d98cd9nat;
    let e0 = 0x196c97297nat;
    let x0 = 0xb12b0776d71c65nat;
    let x1 = 0x1e00b8a91a507d5nat;
    let e1 = 2 * e0 + 1;
    lemma_power_mod_square_times(6nat, e0, n, x0, 0x131bfe79cdcdca9nat, x1);
    let x2 = 0x1a867a0c1d86b4fnat;
    let e2 = 2 * e1 + 1;
    lemma_power_mod_square_times(6nat, e1, n, x1, 0x8c4b42452e807dfnat, x2);
    let x3 = 0xf716be867b89e7nat;
    let e3 = 2 * e2;
    lemma_power_mod_square(6nat, e2, n, x2, 0x1246b0a0ea1d80anat, x3);
    let x4 = 0x7a88fe422d78c7nat;
    let e4 = 2 * e3;
    lemma_power_mod_square(6nat, e3, n, x3, 0x631e0f4fe740banat, x4);
    let x5 = 0x2afd847cd88178nat;
    let e5 = 2 * e4;
    lemma_power_mod_square(6nat, e4, n, x4, 0x18604abfc9c361nat, x5);
    let x6 = 0x17afdac56d4b4f1nat;
    let e6 = 2 * e5 + 1;
    lemma_power_mod_square_times(6nat, e5, n, x5, 0x1200ac6a2b53a7nat, x6);
    let x7 = 0x1fea8d69bafc5a6nat;
    let e7 = 2 * e6 + 1;
    lemma_power_mod_square_times(6nat, e6, n, x6, 0x5771cbbd1ce14a0nat, x7);
    let x8 = 0x6929b453127eb3nat;
    let e8 = 2 * e7;
    lemma_power_mod_square(6nat, e7, n, x7, 0x1a75b5a6e630dd9nat, x8);
    let x9 = 0xd1ce91c466d85fnat;
    let e9 = 2 * e8;
    lemma_power_mod_square(6nat, e8, n, x8, 0x11f44e1e2628danat, x9);
    let x10 = 0x153d8ceaf9170enat;
    let e10 = 2 * e9;
    lemma_power_mod_square(6nat, e9, n, x9, 0x47769d5428f9ebnat, x10);
}

proof fn lemma_power_173378833005251801_over_24809()
    ensures
        power_mod(6nat, 0x65b25ca5f18nat, 0x267f72148d98cd9nat) == 0x153d8ceaf9170enat,
{
    lemma_power_mod_first(6nat, 0x267f72148d98cd9nat);
    lemma_power_173378833005251801_over_24809_part_0();
    lemma_power_173378833005251801_over_24809_part_1();
}

proof fn lemma_power_173378833005251801_over_13331831_part_0()
    requires
        power_mod(6nat, 1nat, 0x267f72148d98cd9nat) == 6nat,
    ensures
        power_mod(6nat, 0x1839357f4nat, 0x267f72148d98cd9nat) == 0x1bee3e5822243bfnat,
{
    let n = 0x267f72148d98cd9nat;
    let e0 = 1nat;
    let x0 = 6nat;
    let x1 = 216nat;
    let e1 = 2 * e0 + 1;
    lemma_power_mod_square_times(6nat, e0, n, x0, 0nat, x1);
    let x2 = 46656nat;
    let e2 = 2 * e1;
    lemma_power_mod_square(6nat, e1, n, x1, 0nat, x2);
    let x3 = 0x81bf1000nat;
    let e3 = 2 * e2;
    lemma_power_mod_square(6nat, e2, n, x2, 0nat, x3);
    let x4 = 0xcb0c36320e251dnat;
    let e4 = 2 * e3;
    lemma_power_mod_square(6nat, e3, n, x3, 27nat, x4);
    let x5 = 0x1c895aa88293a49nat;
    let e5 = 2 * e4;
    lemma_power_mod_square(6nat, e4, n, x4, 0x42eed4dfa6a300nat, x5);
    let x6 = 0x13868272e4005acnat;
    let e6 = 2 * e5;
    lemma_power_mod_square(6nat, e5, n, x5, 0x152718f614bc92dnat, x6);
    let x7 = 0x334af1e401898nat;
    let e7 = 2 * e6 + 1;
    lemma_power_mod_square_times(6nat, e6, n, x6, 0x3b6af083bbcf608nat, x7);
    let x8 = 0x1877b088271a8ffnat;
    let e8 = 2 * e7 + 1;
    lemma_power_mod_square_times(6nat, e7, n, x7, 0x19a0a6be7be9nat, x8);
    let x9 = 0xd4d5c730c6ead9nat;
    let e9 = 2 * e8 + 1;
    lemma_power_mod_square_times(6nat, e8, n, x8, 0x5d4d8f7cd35da75nat, x9);
    let x10 = 0x536542b9dc014fnat;
    let e10 = 2 * e9;
    lemma_power_mod_square(6nat, e9, n, x9, 0x498a854b1f0272nat, x10);
    let x11 = 0x4cc6b9ffeb0e46nat;
    let e11 = 2 * e10;
    lemma_power_mod_square(6nat, e10, n, x10, 0xb4a79f6525413nat, x11);
    let x12 = 0x1e97921a136310cnat;
    let e12 = 2 * e11 + 1;
    lemma_power_mod_square_times(6nat, e11, n, x11, 0x396b0a9b3010acnat, x12);
    let x13 = 0x1ae82cc9d58b761nat;
    let e13 = 2 * e12;
    lemma_power_mod_square(6nat, e12, n, x12, 0x184f4f8732eb947nat, x13);
    let x14 = 0x19878e6efd61115nat;
    let e14 = 2 * e13;
    lemma_power_mod_square(6nat, e13, n, x13, 0x12ce49be529b38cnat, x14);
    let x15 = 0x1b00e4c26aad93anat;
    let e15 = 2 * e14 + 1;
    lemma_power_mod_square_times(6nat, e14, n, x14, 0x6593ff5b150d47cnat, x15);
    let x16 = 0x1d17efe5dde02dnat;
    let e16 = 2 * e15 + 1;
    lemma_power_mod_square_times(6nat, e15, n, x15, 0x71a56ab01362d23nat, x16);
    let x17 = 0x133b2a80128e6d3nat;
    let e17 = 2 * e16;
    lemma_power_mod_square(6nat, e16, n, x16, 0x15fc8a2a6b406nat, x17);
    let x18 = 0x5cdd3837513a71nat;
    let e18 = 2 * e17 + 1;
    lemma_power_mod_square_times(6nat, e17, n, x17, 0x39a3d71e11f9a0dnat, x18);
    let x19 = 0x82bda4f7388f51nat;
    let e19 = 2 * e18;
    lemma_power_mod_square(6nat, e18, n, x18, 0xe0018d516b110nat, x19);
    let x20 = 0xe8e1c4b806427nat;
    let e20 = 2 * e19 + 1;
    lemma_power_mod_square_times(6nat, e19, n, x19, 0xa6804b3e02bf37nat, x20);
    let x21 = 0x151e04c5463d32cnat;
    let e21 = 2 * e20;
    lemma_power_mod_square(6nat, e20, n, x20, 0x580c10e349cdnat, x21);
    let x22 = 0x17401b60be99ae5nat;
    let e22 = 2 * e21 + 1;
    lemma_power_mod_square_times(6nat, e21, n, x21, 0x4580377df574573nat, x22);
    let x23 = 0x1eba5df29110033nat;
    let e23 = 2 * e22 + 1;
    lemma_power_mod_square_times(6nat, e22, n, x22, 0x54405369de51a1bnat, x23);
    let x24 = 0x9da298fc9b718fnat;
    let e24 = 2 * e23 + 1;
    lemma_power_mod_square_times(6nat, e23, n, x23, 0x932868aa5eaf23fnat, x24);
    let x25 = 0x2204ab24bf36a05nat;
    let e25 = 2 * e24 + 1;
    lemma_power_mod_square_times(6nat, e24, n, x24, 0xf20c3a624a9ea9nat, x25);
    let x26 = 0x22a0f379cc35fb4nat;
    let e26 = 2 * e25 + 1;
    lemma_power_mod_square_times(6nat, e25, n, x25, 0xb45bfb0fcdb9ab2nat, x26);
    let x27 = 0x21a597250843591nat;
    let e27 = 2 * e26 + 1;
    lemma_power_mod_square_times(6nat, e26, n, x26, 0xbae40553b0dcae7nat, x27);
    let x28 = 0x8fc19ba16af38bnat;
    let e28 = 2 * e27 + 1;
    lemma_power_mod_square_times(6nat, e27, n, x27, 0xb0714e503ff9633nat, x28);
    let x29 = 0x1c9675ed90edba4nat;
    let e29 = 2 * e28;
    lemma_power_mod_square(6nat, e28, n, x28, 0x218ce55a7aff5dnat, x29);
    let x30 = 0x901a8b30042efdnat;
    let e30 = 2 * e29 + 1;
    lemma_power_mod_square_times(6nat, e29, n, x29, 0x7f5f45af692109bnat, x30);
    let x31 = 0x1bfc9724e715dc7nat;
    let e31 = 2 * e30;
    lemma_power_mod_square(6nat, e30, n, x30, 0x21b675592f0912nat, x31);
    let x32 = 0x1bee3e5822243bfnat;
    let e32 = 2 * e31;
    lemma_power_mod_square(6nat, e31, n, x31, 0x14586cf6c6e6542nat, x32);
}

proof fn lemma_power_173378833005251801_over_13331831_part_1()
    requires
        power_mod(6nat, 0x1839357f4nat, 0x267f72148d98cd9nat) == 0x1bee3e5822243bfnat,
    ensures
        power_mod(6nat, 0x30726afe8nat, 0x267f72148d98cd9nat) == 0x3fc97fc3250eeanat,
{
    let n = 0x267f72148d98cd9nat;
    let e0 = 0x1839357f4nat;
    let x0 = 0x1bee3e5822243bfnat;
    let x1 = 0x3fc97fc3250eeanat;
    let e1 = 2 * e0;
    lemma_power_mod_square(6nat, e0, n, x0, 0x1443964c078f3efnat, x1);
}

proof fn lemma_power_173378833005251801_over_13331831()
    ensures
        power_mod(6nat, 0x30726afe8nat, 0x267f72148d98cd9nat) == 0x3fc97fc3250eeanat,
{
    lemma_power_mod_first(6nat, 0x267f72148d98cd9nat);
    lemma_power_173378833005251801_over_13331831_part_0();
    lemma_power_173378833005251801_over_13331831_part_1();
}

proof fn lemma_certificate_173378833005251801()
    ensures
        is_certificate(0x267f72148d98cd9nat, 6nat, seq![2nat, 2nat, 2nat, 5nat, 5nat, 2621nat, 24809nat, 0xcb6d77nat]),
{
    let n = 0x267f72148d98cd9nat;
    let factors = seq![2nat, 2nat, 2nat, 5nat, 5nat, 2621nat, 24809nat, 0xcb6d77nat];
    lemma_small_primes();
    lemma_small_primes();
    lemma_prime_2621();
    lemma_prime_24809();
    lemma_prime_13331831();
    lemma_power_173378833005251801_over_2();
    lemma_fundamental_div_mod_converse(0x267f72148d98cd8int, 2int, 0x133fb90a46cc66cint, 0);
    lemma_power_173378833005251801_over_5();
    lemma_fundamental_div_mod_converse(0x267f72148d98cd8int, 5int, 0x7b316d0e91e8f8int, 0);
    lemma_power_173378833005251801_over_2621();
    lemma_fundamental_div_mod_converse(0x267f72148d98cd8int, 2621int, 0x3c29b80b05b8int, 0);
    lemma_power_173378833005251801_over_24809();
    lemma_fundamental_div_mod_converse(0x267f72148d98cd8int, 24809int, 0x65b25ca5f18int, 0);
    lemma_power_173378833005251801_over_13331831();
    lemma_fundamental_div_mod_converse(0x267f72148d98cd8int, 0xcb6d77int, 0x30726afe8int, 0);
    lemma_power_mod_square(6nat, 0x133fb90a46cc66cnat, n, 0x267f72148d98cd8nat, 0x267f72148d98cd7nat, 1);
    let f0 = Seq::<nat>::empty();
    lemma_product_push(f0, 2nat, 1nat);
    let f1 = f0.push(2nat);
    lemma_product_push(f1, 2nat, 2nat);
    let f2 = f1.push(2nat);
    lemma_product_push(f2, 2nat, 4nat);
    let f3 = f2.push(2nat);
    lemma_product_push(f3, 5nat, 8nat);
    let f4 = f3.push(5nat);
    lemma_product_push(f4, 5nat, 40nat);
    let f5 = f4.push(5nat);
    lemma_product_push(f5, 2621nat, 200nat);
    let f6 = f5.push(2621nat);
    lemma_product_push(f6, 24809nat, 524200nat);
    let f7 = f6.push(24809nat);
    lemma_product_push(f7, 0xcb6d77nat, 0x30726afe8nat);
    let f8 = f7.push(0xcb6d77nat);
    assert(factors =~= f8);
    assert forall|j: int| 0 <= j < factors.len() implies is_prime(#[trigger] factors[j])
        && power_mod(6nat, ((n - 1) / factors[j] as int) as nat, n) != 1 by {
        if j == 0 {
        } else if j == 1 {
        } else if j == 2 {
        } else if j == 3 {
        } else if j == 4 {
        } else if j == 5 {
        } else if j == 6 {
        } else if j == 7 {
        }
    }
}

/// 173378833005251801 is prime.
pub(crate) proof fn lemma_prime_173378833005251801()
    ensures
        is_prime(0x267f72148d98cd9nat),
{
    lemma_certificate_173378833005251801();
    lemma_certified_prime(0x267f72148d98cd9nat, 6nat, seq![2nat, 2nat, 2nat, 5nat, 5nat, 2621nat, 24809nat, 0xcb6d77nat]);
}

} // verus!
