//! The primes that the primality of the base prime `q` rests on, each with
//! a generator of its residues: the prime factors of `q - 1`, those of each
//! of these less one, and so on down to 2. The powers that show the order
//! of a generator are written out step by step.

use crate::model::prime::{
    all_units, factors_cover, fermat, lemma_cover_one, lemma_cover_step, lemma_lucas,
    lemma_pow_compose, lemma_start, lemma_step, lemma_two,
};
use vstd::arithmetic::power::pow;
use vstd::prelude::*;

verus! {

/// A power modulo 3.
proof fn lemma_power_3_0()
    ensures
        pow(2int, 1nat) % 3int == 2int,
{
    let g = 2int;
    let n = 3int;
    lemma_start(g, n);
    let (e, x) = (0nat, 1int);
    let (e, x) = lemma_step(g, n, e, x, true);
    assert(x == 2int);
    assert(e == 1nat);
}

/// A power modulo 3.
proof fn lemma_power_3_1()
    ensures
        pow(2int, 2nat) % 3int == 1int,
{
    let g = 2int;
    let n = 3int;
    lemma_start(g, n);
    let (e, x) = (0nat, 1int);
    let (e, x) = lemma_step(g, n, e, x, true);
    assert(x == 2int);
    let (e, x) = lemma_step(g, n, e, x, false);
    assert(x == 1int);
    assert(e == 2nat);
}

/// 3 is prime: 2 generates the residues modulo 3 other than zero.
pub proof fn lemma_prime_3()
    ensures
        all_units(3int),
        fermat(3int),
{
    let g = 2int;
    let n = 3int;
    let ps = seq![2int];
    lemma_two();
    lemma_cover_one(ps);
    lemma_cover_step(1int, 2int, ps, 0);
    assert(2int * 1int == 2int);
    assert(factors_cover(2int, ps));
    lemma_power_3_0();
    lemma_power_3_1();
    lemma_pow_compose(g, 1nat, 2nat, n);
    assert(1nat * 2nat == 2nat);
    assert(pow(g, 2nat) % n == 1);
    assert forall|i: int| 0 <= i < ps.len() implies (#[trigger] ps[i]) > 1 && (n - 1) % ps[i] == 0
        && pow(g, ((n - 1) / ps[i]) as nat) % n != 1 by {
        if i == 0 {
            assert(ps[0] == 2int);
            assert(2int % 2int == 0);
            assert(2int / 2int == 1int);
        }
    }
    lemma_lucas(n, g, ps);
}

/// A power modulo 5.
proof fn lemma_power_5_0()
    ensures
        pow(2int, 2nat) % 5int == 4int,
{
    let g = 2int;
    let n = 5int;
    lemma_start(g, n);
    let (e, x) = (0nat, 1int);
    let (e, x) = lemma_step(g, n, e, x, true);
    assert(x == 2int);
    let (e, x) = lemma_step(g, n, e, x, false);
    assert(x == 4int);
    assert(e == 2nat);
}

/// A power modulo 5.
proof fn lemma_power_5_1()
    ensures
        pow(4int, 2nat) % 5int == 1int,
{
    let g = 4int;
    let n = 5int;
    lemma_start(g, n);
    let (e, x) = (0nat, 1int);
    let (e, x) = lemma_step(g, n, e, x, true);
    assert(x == 4int);
    let (e, x) = lemma_step(g, n, e, x, false);
    assert(x == 1int);
    assert(e == 2nat);
}

/// 5 is prime: 2 generates the residues modulo 5 other than zero.
pub proof fn lemma_prime_5()
    ensures
        all_units(5int),
        fermat(5int),
{
    let g = 2int;
    let n = 5int;
    let ps = seq![2int];
    lemma_two();
    lemma_cover_one(ps);
    lemma_cover_step(1int, 2int, ps, 0);
    assert(2int * 1int == 2int);
    assert(factors_cover(2int, ps));
    lemma_cover_step(2int, 2int, ps, 0);
    assert(2int * 2int == 4int);
    assert(factors_cover(4int, ps));
    lemma_power_5_0();
    lemma_power_5_1();
    lemma_pow_compose(g, 2nat, 2nat, n);
    assert(2nat * 2nat == 4nat);
    assert(pow(g, 4nat) % n == 1);
    assert forall|i: int| 0 <= i < ps.len() implies (#[trigger] ps[i]) > 1 && (n - 1) % ps[i] == 0
        && pow(g, ((n - 1) / ps[i]) as nat) % n != 1 by {
        if i == 0 {
            assert(ps[0] == 2int);
            assert(4int % 2int == 0);
            assert(4int / 2int == 2int);
        }
    }
    lemma_lucas(n, g, ps);
}

/// A power modulo 7.
proof fn lemma_power_7_0()
    ensures
        pow(3int, 1nat) % 7int == 3int,
{
    let g = 3int;
    let n = 7int;
    lemma_start(g, n);
    let (e, x) = (0nat, 1int);
    let (e, x) = lemma_step(g, n, e, x, true);
    assert(x == 3int);
    assert(e == 1nat);
}

/// A power modulo 7.
proof fn lemma_power_7_1()
    ensures
        pow(3int, 3nat) % 7int == 6int,
{
    let g = 3int;
    let n = 7int;
    lemma_start(g, n);
    let (e, x) = (0nat, 1int);
    let (e, x) = lemma_step(g, n, e, x, true);
    assert(x == 3int);
    let (e, x) = lemma_step(g, n, e, x, true);
    assert(x == 6int);
    assert(e == 3nat);
}

/// A power modulo 7.
proof fn lemma_power_7_2()
    ensures
        pow(3int, 2nat) % 7int == 2int,
{
    let g = 3int;
    let n = 7int;
    lemma_start(g, n);
    let (e, x) = (0nat, 1int);
    let (e, x) = lemma_step(g, n, e, x, true);
    assert(x == 3int);
    let (e, x) = lemma_step(g, n, e, x, false);
    assert(x == 2int);
    assert(e == 2nat);
}

/// A power modulo 7.
proof fn lemma_power_7_3()
    ensures
        pow(6int, 2nat) % 7int == 1int,
{
    let g = 6int;
    let n = 7int;
    lemma_start(g, n);
    let (e, x) = (0nat, 1int);
    let (e, x) = lemma_step(g, n, e, x, true);
    assert(x == 6int);
    let (e, x) = lemma_step(g, n, e, x, false);
    assert(x == 1int);
    assert(e == 2nat);
}

/// 7 is prime: 3 generates the residues modulo 7 other than zero.
pub proof fn lemma_prime_7()
    ensures
        all_units(7int),
        fermat(7int),
{
    let g = 3int;
    let n = 7int;
    let ps = seq![2int, 3int];
    lemma_two();
    lemma_prime_3();
    lemma_cover_one(ps);
    lemma_cover_step(1int, 2int, ps, 0);
    assert(2int * 1int == 2int);
    assert(factors_cover(2int, ps));
    lemma_cover_step(2int, 3int, ps, 1);
    assert(3int * 2int == 6int);
    assert(factors_cover(6int, ps));
    lemma_power_7_0();
    lemma_power_7_1();
    lemma_pow_compose(g, 1nat, 3nat, n);
    assert(1nat * 3nat == 3nat);
    assert(pow(g, 3nat) % n == 6int);
    lemma_power_7_2();
    lemma_pow_compose(g, 1nat, 2nat, n);
    assert(1nat * 2nat == 2nat);
    assert(pow(g, 2nat) % n == 2int);
    lemma_power_7_3();
    lemma_pow_compose(g, 3nat, 2nat, n);
    assert(3nat * 2nat == 6nat);
    assert(pow(g, 6nat) % n == 1);
    assert forall|i: int| 0 <= i < ps.len() implies (#[trigger] ps[i]) > 1 && (n - 1) % ps[i] == 0
        && pow(g, ((n - 1) / ps[i]) as nat) % n != 1 by {
        if i == 0 {
            assert(ps[0] == 2int);
            assert(6int % 2int == 0);
            assert(6int / 2int == 3int);
        }
        if i == 1 {
            assert(ps[1] == 3int);
            assert(6int % 3int == 0);
            assert(6int / 3int == 2int);
        }
    }
    lemma_lucas(n, g, ps);
}

/// A power modulo 11.
proof fn lemma_power_11_0()
    ensures
        pow(2int, 1nat) % 11int == 2int,
{
    let g = 2int;
    let n = 11int;
    lemma_start(g, n);
    let (e, x) = (0nat, 1int);
    let (e, x) = lemma_step(g, n, e, x, true);
    assert(x == 2int);
    assert(e == 1nat);
}

/// A power modulo 11.
proof fn lemma_power_11_1()
    ensures
        pow(2int, 5nat) % 11int == 10int,
{
    let g = 2int;
    let n = 11int;
    lemma_start(g, n);
    let (e, x) = (0nat, 1int);
    let (e, x) = lemma_step(g, n, e, x, true);
    assert(x == 2int);
    let (e, x) = lemma_step(g, n, e, x, false);
    assert(x == 4int);
    let (e, x) = lemma_step(g, n, e, x, true);
    assert(x == 10int);
    assert(e == 5nat);
}

/// A power modulo 11.
proof fn lemma_power_11_2()
    ensures
        pow(2int, 2nat) % 11int == 4int,
{
    let g = 2int;
    let n = 11int;
    lemma_start(g, n);
    let (e, x) = (0nat, 1int);
    let (e, x) = lemma_step(g, n, e, x, true);
    assert(x == 2int);
    let (e, x) = lemma_step(g, n, e, x, false);
    assert(x == 4int);
    assert(e == 2nat);
}

/// A power modulo 11.
proof fn lemma_power_11_3()
    ensures
        pow(10int, 2nat) % 11int == 1int,
{
    let g = 10int;
    let n = 11int;
    lemma_start(g, n);
    let (e, x) = (0nat, 1int);
    let (e, x) = lemma_step(g, n, e, x, true);
    assert(x == 10int);
    let (e, x) = lemma_step(g, n, e, x, false);
    assert(x == 1int);
    assert(e == 2nat);
}

/// 11 is prime: 2 generates the residues modulo 11 other than zero.
pub proof fn lemma_prime_11()
    ensures
        all_units(11int),
        fermat(11int),
{
    let g = 2int;
    let n = 11int;
    let ps = seq![2int, 5int];
    lemma_two();
    lemma_prime_5();
    lemma_cover_one(ps);
    lemma_cover_step(1int, 2int, ps, 0);
    assert(2int * 1int == 2int);
    assert(factors_cover(2int, ps));
    lemma_cover_step(2int, 5int, ps, 1);
    assert(5int * 2int == 10int);
    assert(factors_cover(10int, ps));
    lemma_power_11_0();
    lemma_power_11_1();
    lemma_pow_compose(g, 1nat, 5nat, n);
    assert(1nat * 5nat == 5nat);
    assert(pow(g, 5nat) % n == 10int);
    lemma_power_11_2();
    lemma_pow_compose(g, 1nat, 2nat, n);
    assert(1nat * 2nat == 2nat);
    assert(pow(g, 2nat) % n == 4int);
    lemma_power_11_3();
    lemma_pow_compose(g, 5nat, 2nat, n);
    assert(5nat * 2nat == 10nat);
    assert(pow(g, 10nat) % n == 1);
    assert forall|i: int| 0 <= i < ps.len() implies (#[trigger] ps[i]) > 1 && (n - 1) % ps[i] == 0
        && pow(g, ((n - 1) / ps[i]) as nat) % n != 1 by {
        if i == 0 {
            assert(ps[0] == 2int);
            assert(10int % 2int == 0);
            assert(10int / 2int == 5int);
        }
        if i == 1 {
            assert(ps[1] == 5int);
            assert(10int % 5int == 0);
            assert(10int / 5int == 2int);
        }
    }
    lemma_lucas(n, g, ps);
}

/// A power modulo 13.
proof fn lemma_power_13_0()
    ensures
        pow(2int, 2nat) % 13int == 4int,
{
    let g = 2int;
    let n = 13int;
    lemma_start(g, n);
    let (e, x) = (0nat, 1int);
    let (e, x) = lemma_step(g, n, e, x, true);
    assert(x == 2int);
    let (e, x) = lemma_step(g, n, e, x, false);
    assert(x == 4int);
    assert(e == 2nat);
}

/// A power modulo 13.
proof fn lemma_power_13_1()
    ensures
        pow(4int, 3nat) % 13int == 12int,
{
    let g = 4int;
    let n = 13int;
    lemma_start(g, n);
    let (e, x) = (0nat, 1int);
    let (e, x) = lemma_step(g, n, e, x, true);
    assert(x == 4int);
    let (e, x) = lemma_step(g, n, e, x, true);
    assert(x == 12int);
    assert(e == 3nat);
}

/// A power modulo 13.
proof fn lemma_power_13_2()
    ensures
        pow(4int, 2nat) % 13int == 3int,
{
    let g = 4int;
    let n = 13int;
    lemma_start(g, n);
    let (e, x) = (0nat, 1int);
    let (e, x) = lemma_step(g, n, e, x, true);
    assert(x == 4int);
    let (e, x) = lemma_step(g, n, e, x, false);
    assert(x == 3int);
    assert(e == 2nat);
}

/// A power modulo 13.
proof fn lemma_power_13_3()
    ensures
        pow(12int, 2nat) % 13int == 1int,
{
    let g = 12int;
    let n = 13int;
    lemma_start(g, n);
    let (e, x) = (0nat, 1int);
    let (e, x) = lemma_step(g, n, e, x, true);
    assert(x == 12int);
    let (e, x) = lemma_step(g, n, e, x, false);
    assert(x == 1int);
    assert(e == 2nat);
}

/// 13 is prime: 2 generates the residues modulo 13 other than zero.
pub proof fn lemma_prime_13()
    ensures
        all_units(13int),
        fermat(13int),
{
    let g = 2int;
    let n = 13int;
    let ps = seq![2int, 3int];
    lemma_two();
    lemma_prime_3();
    lemma_cover_one(ps);
    lemma_cover_step(1int, 2int, ps, 0);
    assert(2int * 1int == 2int);
    assert(factors_cover(2int, ps));
    lemma_cover_step(2int, 2int, ps, 0);
    assert(2int * 2int == 4int);
    assert(factors_cover(4int, ps));
    lemma_cover_step(4int, 3int, ps, 1);
    assert(3int * 4int == 12int);
    assert(factors_cover(12int, ps));
    lemma_power_13_0();
    lemma_power_13_1();
    lemma_pow_compose(g, 2nat, 3nat, n);
    assert(2nat * 3nat == 6nat);
    assert(pow(g, 6nat) % n == 12int);
    lemma_power_13_2();
    lemma_pow_compose(g, 2nat, 2nat, n);
    assert(2nat * 2nat == 4nat);
    assert(pow(g, 4nat) % n == 3int);
    lemma_power_13_3();
    lemma_pow_compose(g, 6nat, 2nat, n);
    assert(6nat * 2nat == 12nat);
    assert(pow(g, 12nat) % n == 1);
    assert forall|i: int| 0 <= i < ps.len() implies (#[trigger] ps[i]) > 1 && (n - 1) % ps[i] == 0
        && pow(g, ((n - 1) / ps[i]) as nat) % n != 1 by {
        if i == 0 {
            assert(ps[0] == 2int);
            assert(12int % 2int == 0);
            assert(12int / 2int == 6int);
        }
        if i == 1 {
            assert(ps[1] == 3int);
            assert(12int % 3int == 0);
            assert(12int / 3int == 4int);
        }
    }
    lemma_lucas(n, g, ps);
}

/// A power modulo 17.
proof fn lemma_power_17_0()
    ensures
        pow(3int, 8nat) % 17int == 16int,
{
    let g = 3int;
    let n = 17int;
    lemma_start(g, n);
    let (e, x) = (0nat, 1int);
    let (e, x) = lemma_step(g, n, e, x, true);
    assert(x == 3int);
    let (e, x) = lemma_step(g, n, e, x, false);
    assert(x == 9int);
    let (e, x) = lemma_step(g, n, e, x, false);
    assert(x == 13int);
    let (e, x) = lemma_step(g, n, e, x, false);
    assert(x == 16int);
    assert(e == 8nat);
}

/// A power modulo 17.
proof fn lemma_power_17_1()
    ensures
        pow(16int, 2nat) % 17int == 1int,
{
    let g = 16int;
    let n = 17int;
    lemma_start(g, n);
    let (e, x) = (0nat, 1int);
    let (e, x) = lemma_step(g, n, e, x, true);
    assert(x == 16int);
    let (e, x) = lemma_step(g, n, e, x, false);
    assert(x == 1int);
    assert(e == 2nat);
}

/// 17 is prime: 3 generates the residues modulo 17 other than zero.
pub proof fn lemma_prime_17()
    ensures
        all_units(17int),
        fermat(17int),
{
    let g = 3int;
    let n = 17int;
    let ps = seq![2int];
    lemma_two();
    lemma_cover_one(ps);
    lemma_cover_step(1int, 2int, ps, 0);
    assert(2int * 1int == 2int);
    assert(factors_cover(2int, ps));
    lemma_cover_step(2int, 2int, ps, 0);
    assert(2int * 2int == 4int);
    assert(factors_cover(4int, ps));
    lemma_cover_step(4int, 2int, ps, 0);
    assert(2int * 4int == 8int);
    assert(factors_cover(8int, ps));
    lemma_cover_step(8int, 2int, ps, 0);
    assert(2int * 8int == 16int);
    assert(factors_cover(16int, ps));
    lemma_power_17_0();
    lemma_power_17_1();
    lemma_pow_compose(g, 8nat, 2nat, n);
    assert(8nat * 2nat == 16nat);
    assert(pow(g, 16nat) % n == 1);
    assert forall|i: int| 0 <= i < ps.len() implies (#[trigger] ps[i]) > 1 && (n - 1) % ps[i] == 0
        && pow(g, ((n - 1) / ps[i]) as nat) % n != 1 by {
        if i == 0 {
            assert(ps[0] == 2int);
            assert(16int % 2int == 0);
            assert(16int / 2int == 8int);
        }
    }
    lemma_lucas(n, g, ps);
}

/// A power modulo 19.
proof fn lemma_power_19_0()
    ensures
        pow(2int, 3nat) % 19int == 8int,
{
    let g = 2int;
    let n = 19int;
    lemma_start(g, n);
    let (e, x) = (0nat, 1int);
    let (e, x) = lemma_step(g, n, e, x, true);
    assert(x == 2int);
    let (e, x) = lemma_step(g, n, e, x, true);
    assert(x == 8int);
    assert(e == 3nat);
}

/// A power modulo 19.
proof fn lemma_power_19_1()
    ensures
        pow(8int, 3nat) % 19int == 18int,
{
    let g = 8int;
    let n = 19int;
    lemma_start(g, n);
    let (e, x) = (0nat, 1int);
    let (e, x) = lemma_step(g, n, e, x, true);
    assert(x == 8int);
    let (e, x) = lemma_step(g, n, e, x, true);
    assert(x == 18int);
    assert(e == 3nat);
}

/// A power modulo 19.
proof fn lemma_power_19_2()
    ensures
        pow(8int, 2nat) % 19int == 7int,
{
    let g = 8int;
    let n = 19int;
    lemma_start(g, n);
    let (e, x) = (0nat, 1int);
    let (e, x) = lemma_step(g, n, e, x, true);
    assert(x == 8int);
    let (e, x) = lemma_step(g, n, e, x, false);
    assert(x == 7int);
    assert(e == 2nat);
}

/// A power modulo 19.
proof fn lemma_power_19_3()
    ensures
        pow(18int, 2nat) % 19int == 1int,
{
    let g = 18int;
    let n = 19int;
    lemma_start(g, n);
    let (e, x) = (0nat, 1int);
    let (e, x) = lemma_step(g, n, e, x, true);
    assert(x == 18int);
    let (e, x) = lemma_step(g, n, e, x, false);
    assert(x == 1int);
    assert(e == 2nat);
}

/// 19 is prime: 2 generates the residues modulo 19 other than zero.
pub proof fn lemma_prime_19()
    ensures
        all_units(19int),
        fermat(19int),
{
    let g = 2int;
    let n = 19int;
    let ps = seq![2int, 3int];
    lemma_two();
    lemma_prime_3();
    lemma_cover_one(ps);
    lemma_cover_step(1int, 2int, ps, 0);
    assert(2int * 1int == 2int);
    assert(factors_cover(2int, ps));
    lemma_cover_step(2int, 3int, ps, 1);
    assert(3int * 2int == 6int);
    assert(factors_cover(6int, ps));
    lemma_cover_step(6int, 3int, ps, 1);
    assert(3int * 6int == 18int);
    assert(factors_cover(18int, ps));
    lemma_power_19_0();
    lemma_power_19_1();
    lemma_pow_compose(g, 3nat, 3nat, n);
    assert(3nat * 3nat == 9nat);
    assert(pow(g, 9nat) % n == 18int);
    lemma_power_19_2();
    lemma_pow_compose(g, 3nat, 2nat, n);
    assert(3nat * 2nat == 6nat);
    assert(pow(g, 6nat) % n == 7int);
    lemma_power_19_3();
    lemma_pow_compose(g, 9nat, 2nat, n);
    assert(9nat * 2nat == 18nat);
    assert(pow(g, 18nat) % n == 1);
    assert forall|i: int| 0 <= i < ps.len() implies (#[trigger] ps[i]) > 1 && (n - 1) % ps[i] == 0
        && pow(g, ((n - 1) / ps[i]) as nat) % n != 1 by {
        if i == 0 {
            assert(ps[0] == 2int);
            assert(18int % 2int == 0);
            assert(18int / 2int == 9int);
        }
        if i == 1 {
            assert(ps[1] == 3int);
            assert(18int % 3int == 0);
            assert(18int / 3int == 6int);
        }
    }
    lemma_lucas(n, g, ps);
}

/// A power modulo 29.
proof fn lemma_power_29_0()
    ensures
        pow(2int, 2nat) % 29int == 4int,
{
    let g = 2int;
    let n = 29int;
    lemma_start(g, n);
    let (e, x) = (0nat, 1int);
    let (e, x) = lemma_step(g, n, e, x, true);
    assert(x == 2int);
    let (e, x) = lemma_step(g, n, e, x, false);
    assert(x == 4int);
    assert(e == 2nat);
}

/// A power modulo 29.
proof fn lemma_power_29_1()
    ensures
        pow(4int, 7nat) % 29int == 28int,
{
    let g = 4int;
    let n = 29int;
    lemma_start(g, n);
    let (e, x) = (0nat, 1int);
    let (e, x) = lemma_step(g, n, e, x, true);
    assert(x == 4int);
    let (e, x) = lemma_step(g, n, e, x, true);
    assert(x == 6int);
    let (e, x) = lemma_step(g, n, e, x, true);
    assert(x == 28int);
    assert(e == 7nat);
}

/// A power modulo 29.
proof fn lemma_power_29_2()
    ensures
        pow(4int, 2nat) % 29int == 16int,
{
    let g = 4int;
    let n = 29int;
    lemma_start(g, n);
    let (e, x) = (0nat, 1int);
    let (e, x) = lemma_step(g, n, e, x, true);
    assert(x == 4int);
    let (e, x) = lemma_step(g, n, e, x, false);
    assert(x == 16int);
    assert(e == 2nat);
}

/// A power modulo 29.
proof fn lemma_power_29_3()
    ensures
        pow(28int, 2nat) % 29int == 1int,
{
    let g = 28int;
    let n = 29int;
    lemma_start(g, n);
    let (e, x) = (0nat, 1int);
    let (e, x) = lemma_step(g, n, e, x, true);
    assert(x == 28int);
    let (e, x) = lemma_step(g, n, e, x, false);
    assert(x == 1int);
    assert(e == 2nat);
}

/// 29 is prime: 2 generates the residues modulo 29 other than zero.
pub proof fn lemma_prime_29()
    ensures
        all_units(29int),
        fermat(29int),
{
    let g = 2int;
    let n = 29int;
    let ps = seq![2int, 7int];
    lemma_two();
    lemma_prime_7();
    lemma_cover_one(ps);
    lemma_cover_step(1int, 2int, ps, 0);
    assert(2int * 1int == 2int);
    assert(factors_cover(2int, ps));
    lemma_cover_step(2int, 2int, ps, 0);
    assert(2int * 2int == 4int);
    assert(factors_cover(4int, ps));
    lemma_cover_step(4int, 7int, ps, 1);
    assert(7int * 4int == 28int);
    assert(factors_cover(28int, ps));
    lemma_power_29_0();
    lemma_power_29_1();
    lemma_pow_compose(g, 2nat, 7nat, n);
    assert(2nat * 7nat == 14nat);
    assert(pow(g, 14nat) % n == 28int);
    lemma_power_29_2();
    lemma_pow_compose(g, 2nat, 2nat, n);
    assert(2nat * 2nat == 4nat);
    assert(pow(g, 4nat) % n == 16int);
    lemma_power_29_3();
    lemma_pow_compose(g, 14nat, 2nat, n);
    assert(14nat * 2nat == 28nat);
    assert(pow(g, 28nat) % n == 1);
    assert forall|i: int| 0 <= i < ps.len() implies (#[trigger] ps[i]) > 1 && (n - 1) % ps[i] == 0
        && pow(g, ((n - 1) / ps[i]) as nat) % n != 1 by {
        if i == 0 {
            assert(ps[0] == 2int);
            assert(28int % 2int == 0);
            assert(28int / 2int == 14int);
        }
        if i == 1 {
            assert(ps[1] == 7int);
            assert(28int % 7int == 0);
            assert(28int / 7int == 4int);
        }
    }
    lemma_lucas(n, g, ps);
}

/// A power modulo 31.
proof fn lemma_power_31_0()
    ensures
        pow(3int, 1nat) % 31int == 3int,
{
    let g = 3int;
    let n = 31int;
    lemma_start(g, n);
    let (e, x) = (0nat, 1int);
    let (e, x) = lemma_step(g, n, e, x, true);
    assert(x == 3int);
    assert(e == 1nat);
}

/// A power modulo 31.
proof fn lemma_power_31_1()
    ensures
        pow(3int, 6nat) % 31int == 16int,
{
    let g = 3int;
    let n = 31int;
    lemma_start(g, n);
    let (e, x) = (0nat, 1int);
    let (e, x) = lemma_step(g, n, e, x, true);
    assert(x == 3int);
    let (e, x) = lemma_step(g, n, e, x, true);
    assert(x == 27int);
    let (e, x) = lemma_step(g, n, e, x, false);
    assert(x == 16int);
    assert(e == 6nat);
}

/// A power modulo 31.
proof fn lemma_power_31_2()
    ensures
        pow(3int, 5nat) % 31int == 26int,
{
    let g = 3int;
    let n = 31int;
    lemma_start(g, n);
    let (e, x) = (0nat, 1int);
    let (e, x) = lemma_step(g, n, e, x, true);
    assert(x == 3int);
    let (e, x) = lemma_step(g, n, e, x, false);
    assert(x == 9int);
    let (e, x) = lemma_step(g, n, e, x, true);
    assert(x == 26int);
    assert(e == 5nat);
}

/// A power modulo 31.
proof fn lemma_power_31_3()
    ensures
        pow(26int, 3nat) % 31int == 30int,
{
    let g = 26int;
    let n = 31int;
    lemma_start(g, n);
    let (e, x) = (0nat, 1int);
    let (e, x) = lemma_step(g, n, e, x, true);
    assert(x == 26int);
    let (e, x) = lemma_step(g, n, e, x, true);
    assert(x == 30int);
    assert(e == 3nat);
}

/// A power modulo 31.
proof fn lemma_power_31_4()
    ensures
        pow(26int, 2nat) % 31int == 25int,
{
    let g = 26int;
    let n = 31int;
    lemma_start(g, n);
    let (e, x) = (0nat, 1int);
    let (e, x) = lemma_step(g, n, e, x, true);
    assert(x == 26int);
    let (e, x) = lemma_step(g, n, e, x, false);
    assert(x == 25int);
    assert(e == 2nat);
}

/// A power modulo 31.
proof fn lemma_power_31_5()
    ensures
        pow(30int, 2nat) % 31int == 1int,
{
    let g = 30int;
    let n = 31int;
    lemma_start(g, n);
    let (e, x) = (0nat, 1int);
    let (e, x) = lemma_step(g, n, e, x, true);
    assert(x == 30int);
    let (e, x) = lemma_step(g, n, e, x, false);
    assert(x == 1int);
    assert(e == 2nat);
}

/// 31 is prime: 3 generates the residues modulo 31 other than zero.
pub proof fn lemma_prime_31()
    ensures
        all_units(31int),
        fermat(31int),
{
    let g = 3int;
    let n = 31int;
    let ps = seq![2int, 3int, 5int];
    lemma_two();
    lemma_prime_3();
    lemma_prime_5();
    lemma_cover_one(ps);
    lemma_cover_step(1int, 2int, ps, 0);
    assert(2int * 1int == 2int);
    assert(factors_cover(2int, ps));
    lemma_cover_step(2int, 3int, ps, 1);
    assert(3int * 2int == 6int);
    assert(factors_cover(6int, ps));
    lemma_cover_step(6int, 5int, ps, 2);
    assert(5int * 6int == 30int);
    assert(factors_cover(30int, ps));
    lemma_power_31_0();
    lemma_power_31_1();
    lemma_pow_compose(g, 1nat, 6nat, n);
    assert(1nat * 6nat == 6nat);
    assert(pow(g, 6nat) % n == 16int);
    lemma_power_31_2();
    lemma_pow_compose(g, 1nat, 5nat, n);
    assert(1nat * 5nat == 5nat);
    assert(pow(g, 5nat) % n == 26int);
    lemma_power_31_3();
    lemma_pow_compose(g, 5nat, 3nat, n);
    assert(5nat * 3nat == 15nat);
    assert(pow(g, 15nat) % n == 30int);
    lemma_power_31_4();
    lemma_pow_compose(g, 5nat, 2nat, n);
    assert(5nat * 2nat == 10nat);
    assert(pow(g, 10nat) % n == 25int);
    lemma_power_31_5();
    lemma_pow_compose(g, 15nat, 2nat, n);
    assert(15nat * 2nat == 30nat);
    assert(pow(g, 30nat) % n == 1);
    assert forall|i: int| 0 <= i < ps.len() implies (#[trigger] ps[i]) > 1 && (n - 1) % ps[i] == 0
        && pow(g, ((n - 1) / ps[i]) as nat) % n != 1 by {
        if i == 0 {
            assert(ps[0] == 2int);
            assert(30int % 2int == 0);
            assert(30int / 2int == 15int);
        }
        if i == 1 {
            assert(ps[1] == 3int);
            assert(30int % 3int == 0);
            assert(30int / 3int == 10int);
        }
        if i == 2 {
            assert(ps[2] == 5int);
            assert(30int % 5int == 0);
            assert(30int / 5int == 6int);
        }
    }
    lemma_lucas(n, g, ps);
}

/// A power modulo 37.
proof fn lemma_power_37_0()
    ensures
        pow(2int, 6nat) % 37int == 27int,
{
    let g = 2int;
    let n = 37int;
    lemma_start(g, n);
    let (e, x) = (0nat, 1int);
    let (e, x) = lemma_step(g, n, e, x, true);
    assert(x == 2int);
    let (e, x) = lemma_step(g, n, e, x, true);
    assert(x == 8int);
    let (e, x) = lemma_step(g, n, e, x, false);
    assert(x == 27int);
    assert(e == 6nat);
}

/// A power modulo 37.
proof fn lemma_power_37_1()
    ensures
        pow(27int, 3nat) % 37int == 36int,
{
    let g = 27int;
    let n = 37int;
    lemma_start(g, n);
    let (e, x) = (0nat, 1int);
    let (e, x) = lemma_step(g, n, e, x, true);
    assert(x == 27int);
    let (e, x) = lemma_step(g, n, e, x, true);
    assert(x == 36int);
    assert(e == 3nat);
}

/// A power modulo 37.
proof fn lemma_power_37_2()
    ensures
        pow(27int, 2nat) % 37int == 26int,
{
    let g = 27int;
    let n = 37int;
    lemma_start(g, n);
    let (e, x) = (0nat, 1int);
    let (e, x) = lemma_step(g, n, e, x, true);
    assert(x == 27int);
    let (e, x) = lemma_step(g, n, e, x, false);
    assert(x == 26int);
    assert(e == 2nat);
}

/// A power modulo 37.
proof fn lemma_power_37_3()
    ensures
        pow(36int, 2nat) % 37int == 1int,
{
    let g = 36int;
    let n = 37int;
    lemma_start(g, n);
    let (e, x) = (0nat, 1int);
    let (e, x) = lemma_step(g, n, e, x, true);
    assert(x == 36int);
    let (e, x) = lemma_step(g, n, e, x, false);
    assert(x == 1int);
    assert(e == 2nat);
}

/// 37 is prime: 2 generates the residues modulo 37 other than zero.
pub proof fn lemma_prime_37()
    ensures
        all_units(37int),
        fermat(37int),
{
    let g = 2int;
    let n = 37int;
    let ps = seq![2int, 3int];
    lemma_two();
    lemma_prime_3();
    lemma_cover_one(ps);
    lemma_cover_step(1int, 2int, ps, 0);
    assert(2int * 1int == 2int);
    assert(factors_cover(2int, ps));
    lemma_cover_step(2int, 2int, ps, 0);
    assert(2int * 2int == 4int);
    assert(factors_cover(4int, ps));
    lemma_cover_step(4int, 3int, ps, 1);
    assert(3int * 4int == 12int);
    assert(factors_cover(12int, ps));
    lemma_cover_step(12int, 3int, ps, 1);
    assert(3int * 12int == 36int);
    assert(factors_cover(36int, ps));
    lemma_power_37_0();
    lemma_power_37_1();
    lemma_pow_compose(g, 6nat, 3nat, n);
    assert(6nat * 3nat == 18nat);
    assert(pow(g, 18nat) % n == 36int);
    lemma_power_37_2();
    lemma_pow_compose(g, 6nat, 2nat, n);
    assert(6nat * 2nat == 12nat);
    assert(pow(g, 12nat) % n == 26int);
    lemma_power_37_3();
    lemma_pow_compose(g, 18nat, 2nat, n);
    assert(18nat * 2nat == 36nat);
    assert(pow(g, 36nat) % n == 1);
    assert forall|i: int| 0 <= i < ps.len() implies (#[trigger] ps[i]) > 1 && (n - 1) % ps[i] == 0
        && pow(g, ((n - 1) / ps[i]) as nat) % n != 1 by {
        if i == 0 {
            assert(ps[0] == 2int);
            assert(36int % 2int == 0);
            assert(36int / 2int == 18int);
        }
        if i == 1 {
            assert(ps[1] == 3int);
            assert(36int % 3int == 0);
            assert(36int / 3int == 12int);
        }
    }
    lemma_lucas(n, g, ps);
}

/// A power modulo 41.
proof fn lemma_power_41_0()
    ensures
        pow(6int, 4nat) % 41int == 25int,
{
    let g = 6int;
    let n = 41int;
    lemma_start(g, n);
    let (e, x) = (0nat, 1int);
    let (e, x) = lemma_step(g, n, e, x, true);
    assert(x == 6int);
    let (e, x) = lemma_step(g, n, e, x, false);
    assert(x == 36int);
    let (e, x) = lemma_step(g, n, e, x, false);
    assert(x == 25int);
    assert(e == 4nat);
}

/// A power modulo 41.
proof fn lemma_power_41_1()
    ensures
        pow(25int, 5nat) % 41int == 40int,
{
    let g = 25int;
    let n = 41int;
    lemma_start(g, n);
    let (e, x) = (0nat, 1int);
    let (e, x) = lemma_step(g, n, e, x, true);
    assert(x == 25int);
    let (e, x) = lemma_step(g, n, e, x, false);
    assert(x == 10int);
    let (e, x) = lemma_step(g, n, e, x, true);
    assert(x == 40int);
    assert(e == 5nat);
}

/// A power modulo 41.
proof fn lemma_power_41_2()
    ensures
        pow(25int, 2nat) % 41int == 10int,
{
    let g = 25int;
    let n = 41int;
    lemma_start(g, n);
    let (e, x) = (0nat, 1int);
    let (e, x) = lemma_step(g, n, e, x, true);
    assert(x == 25int);
    let (e, x) = lemma_step(g, n, e, x, false);
    assert(x == 10int);
    assert(e == 2nat);
}

/// A power modulo 41.
proof fn lemma_power_41_3()
    ensures
        pow(40int, 2nat) % 41int == 1int,
{
    let g = 40int;
    let n = 41int;
    lemma_start(g, n);
    let (e, x) = (0nat, 1int);
    let (e, x) = lemma_step(g, n, e, x, true);
    assert(x == 40int);
    let (e, x) = lemma_step(g, n, e, x, false);
    assert(x == 1int);
    assert(e == 2nat);
}

/// 41 is prime: 6 generates the residues modulo 41 other than zero.
pub proof fn lemma_prime_41()
    ensures
        all_units(41int),
        fermat(41int),
{
    let g = 6int;
    let n = 41int;
    let ps = seq![2int, 5int];
    lemma_two();
    lemma_prime_5();
    lemma_cover_one(ps);
    lemma_cover_step(1int, 2int, ps, 0);
    assert(2int * 1int == 2int);
    assert(factors_cover(2int, ps));
    lemma_cover_step(2int, 2int, ps, 0);
    assert(2int * 2int == 4int);
    assert(factors_cover(4int, ps));
    lemma_cover_step(4int, 2int, ps, 0);
    assert(2int * 4int == 8int);
    assert(factors_cover(8int, ps));
    lemma_cover_step(8int, 5int, ps, 1);
    assert(5int * 8int == 40int);
    assert(factors_cover(40int, ps));
    lemma_power_41_0();
    lemma_power_41_1();
    lemma_pow_compose(g, 4nat, 5nat, n);
    assert(4nat * 5nat == 20nat);
    assert(pow(g, 20nat) % n == 40int);
    lemma_power_41_2();
    lemma_pow_compose(g, 4nat, 2nat, n);
    assert(4nat * 2nat == 8nat);
    assert(pow(g, 8nat) % n == 10int);
    lemma_power_41_3();
    lemma_pow_compose(g, 20nat, 2nat, n);
    assert(20nat * 2nat == 40nat);
    assert(pow(g, 40nat) % n == 1);
    assert forall|i: int| 0 <= i < ps.len() implies (#[trigger] ps[i]) > 1 && (n - 1) % ps[i] == 0
        && pow(g, ((n - 1) / ps[i]) as nat) % n != 1 by {
        if i == 0 {
            assert(ps[0] == 2int);
            assert(40int % 2int == 0);
            assert(40int / 2int == 20int);
        }
        if i == 1 {
            assert(ps[1] == 5int);
            assert(40int % 5int == 0);
            assert(40int / 5int == 8int);
        }
    }
    lemma_lucas(n, g, ps);
}

/// A power modulo 67.
proof fn lemma_power_67_0()
    ensures
        pow(2int, 1nat) % 67int == 2int,
{
    let g = 2int;
    let n = 67int;
    lemma_start(g, n);
    let (e, x) = (0nat, 1int);
    let (e, x) = lemma_step(g, n, e, x, true);
    assert(x == 2int);
    assert(e == 1nat);
}

/// A power modulo 67.
proof fn lemma_power_67_1()
    ensures
        pow(2int, 6nat) % 67int == 64int,
{
    let g = 2int;
    let n = 67int;
    lemma_start(g, n);
    let (e, x) = (0nat, 1int);
    let (e, x) = lemma_step(g, n, e, x, true);
    assert(x == 2int);
    let (e, x) = lemma_step(g, n, e, x, true);
    assert(x == 8int);
    let (e, x) = lemma_step(g, n, e, x, false);
    assert(x == 64int);
    assert(e == 6nat);
}

/// A power modulo 67.
proof fn lemma_power_67_2()
    ensures
        pow(2int, 11nat) % 67int == 38int,
{
    let g = 2int;
    let n = 67int;
    lemma_start(g, n);
    let (e, x) = (0nat, 1int);
    let (e, x) = lemma_step(g, n, e, x, true);
    assert(x == 2int);
    let (e, x) = lemma_step(g, n, e, x, false);
    assert(x == 4int);
    let (e, x) = lemma_step(g, n, e, x, true);
    assert(x == 32int);
    let (e, x) = lemma_step(g, n, e, x, true);
    assert(x == 38int);
    assert(e == 11nat);
}

/// A power modulo 67.
proof fn lemma_power_67_3()
    ensures
        pow(38int, 3nat) % 67int == 66int,
{
    let g = 38int;
    let n = 67int;
    lemma_start(g, n);
    let (e, x) = (0nat, 1int);
    let (e, x) = lemma_step(g, n, e, x, true);
    assert(x == 38int);
    let (e, x) = lemma_step(g, n, e, x, true);
    assert(x == 66int);
    assert(e == 3nat);
}

/// A power modulo 67.
proof fn lemma_power_67_4()
    ensures
        pow(38int, 2nat) % 67int == 37int,
{
    let g = 38int;
    let n = 67int;
    lemma_start(g, n);
    let (e, x) = (0nat, 1int);
    let (e, x) = lemma_step(g, n, e, x, true);
    assert(x == 38int);
    let (e, x) = lemma_step(g, n, e, x, false);
    assert(x == 37int);
    assert(e == 2nat);
}

/// A power modulo 67.
proof fn lemma_power_67_5()
    ensures
        pow(66int, 2nat) % 67int == 1int,
{
    let g = 66int;
    let n = 67int;
    lemma_start(g, n);
    let (e, x) = (0nat, 1int);
    let (e, x) = lemma_step(g, n, e, x, true);
    assert(x == 66int);
    let (e, x) = lemma_step(g, n, e, x, false);
    assert(x == 1int);
    assert(e == 2nat);
}

/// 67 is prime: 2 generates the residues modulo 67 other than zero.
pub proof fn lemma_prime_67()
    ensures
        all_units(67int),
        fermat(67int),
{
    let g = 2int;
    let n = 67int;
    let ps = seq![2int, 3int, 11int];
    lemma_two();
    lemma_prime_3();
    lemma_prime_11();
    lemma_cover_one(ps);
    lemma_cover_step(1int, 2int, ps, 0);
    assert(2int * 1int == 2int);
    assert(factors_cover(2int, ps));
    lemma_cover_step(2int, 3int, ps, 1);
    assert(3int * 2int == 6int);
    assert(factors_cover(6int, ps));
    lemma_cover_step(6int, 11int, ps, 2);
    assert(11int * 6int == 66int);
    assert(factors_cover(66int, ps));
    lemma_power_67_0();
    lemma_power_67_1();
    lemma_pow_compose(g, 1nat, 6nat, n);
    assert(1nat * 6nat == 6nat);
    assert(pow(g, 6nat) % n == 64int);
    lemma_power_67_2();
    lemma_pow_compose(g, 1nat, 11nat, n);
    assert(1nat * 11nat == 11nat);
    assert(pow(g, 11nat) % n == 38int);
    lemma_power_67_3();
    lemma_pow_compose(g, 11nat, 3nat, n);
    assert(11nat * 3nat == 33nat);
    assert(pow(g, 33nat) % n == 66int);
    lemma_power_67_4();
    lemma_pow_compose(g, 11nat, 2nat, n);
    assert(11nat * 2nat == 22nat);
    assert(pow(g, 22nat) % n == 37int);
    lemma_power_67_5();
    lemma_pow_compose(g, 33nat, 2nat, n);
    assert(33nat * 2nat == 66nat);
    assert(pow(g, 66nat) % n == 1);
    assert forall|i: int| 0 <= i < ps.len() implies (#[trigger] ps[i]) > 1 && (n - 1) % ps[i] == 0
        && pow(g, ((n - 1) / ps[i]) as nat) % n != 1 by {
        if i == 0 {
            assert(ps[0] == 2int);
            assert(66int % 2int == 0);
            assert(66int / 2int == 33int);
        }
        if i == 1 {
            assert(ps[1] == 3int);
            assert(66int % 3int == 0);
            assert(66int / 3int == 22int);
        }
        if i == 2 {
            assert(ps[2] == 11int);
            assert(66int % 11int == 0);
            assert(66int / 11int == 6int);
        }
    }
    lemma_lucas(n, g, ps);
}

/// A power modulo 73.
proof fn lemma_power_73_0()
    ensures
        pow(5int, 12nat) % 73int == 9int,
{
    let g = 5int;
    let n = 73int;
    lemma_start(g, n);
    let (e, x) = (0nat, 1int);
    let (e, x) = lemma_step(g, n, e, x, true);
    assert(x == 5int);
    let (e, x) = lemma_step(g, n, e, x, true);
    assert(x == 52int);
    let (e, x) = lemma_step(g, n, e, x, false);
    assert(x == 3int);
    let (e, x) = lemma_step(g, n, e, x, false);
    assert(x == 9int);
    assert(e == 12nat);
}

/// A power modulo 73.
proof fn lemma_power_73_1()
    ensures
        pow(9int, 3nat) % 73int == 72int,
{
    let g = 9int;
    let n = 73int;
    lemma_start(g, n);
    let (e, x) = (0nat, 1int);
    let (e, x) = lemma_step(g, n, e, x, true);
    assert(x == 9int);
    let (e, x) = lemma_step(g, n, e, x, true);
    assert(x == 72int);
    assert(e == 3nat);
}

/// A power modulo 73.
proof fn lemma_power_73_2()
    ensures
        pow(9int, 2nat) % 73int == 8int,
{
    let g = 9int;
    let n = 73int;
    lemma_start(g, n);
    let (e, x) = (0nat, 1int);
    let (e, x) = lemma_step(g, n, e, x, true);
    assert(x == 9int);
    let (e, x) = lemma_step(g, n, e, x, false);
    assert(x == 8int);
    assert(e == 2nat);
}

/// A power modulo 73.
proof fn lemma_power_73_3()
    ensures
        pow(72int, 2nat) % 73int == 1int,
{
    let g = 72int;
    let n = 73int;
    lemma_start(g, n);
    let (e, x) = (0nat, 1int);
    let (e, x) = lemma_step(g, n, e, x, true);
    assert(x == 72int);
    let (e, x) = lemma_step(g, n, e, x, false);
    assert(x == 1int);
    assert(e == 2nat);
}

/// 73 is prime: 5 generates the residues modulo 73 other than zero.
pub proof fn lemma_prime_73()
    ensures
        all_units(73int),
        fermat(73int),
{
    let g = 5int;
    let n = 73int;
    let ps = seq![2int, 3int];
    lemma_two();
    lemma_prime_3();
    lemma_cover_one(ps);
    lemma_cover_step(1int, 2int, ps, 0);
    assert(2int * 1int == 2int);
    assert(factors_cover(2int, ps));
    lemma_cover_step(2int, 2int, ps, 0);
    assert(2int * 2int == 4int);
    assert(factors_cover(4int, ps));
    lemma_cover_step(4int, 2int, ps, 0);
    assert(2int * 4int == 8int);
    assert(factors_cover(8int, ps));
    lemma_cover_step(8int, 3int, ps, 1);
    assert(3int * 8int == 24int);
    assert(factors_cover(24int, ps));
    lemma_cover_step(24int, 3int, ps, 1);
    assert(3int * 24int == 72int);
    assert(factors_cover(72int, ps));
    lemma_power_73_0();
    lemma_power_73_1();
    lemma_pow_compose(g, 12nat, 3nat, n);
    assert(12nat * 3nat == 36nat);
    assert(pow(g, 36nat) % n == 72int);
    lemma_power_73_2();
    lemma_pow_compose(g, 12nat, 2nat, n);
    assert(12nat * 2nat == 24nat);
    assert(pow(g, 24nat) % n == 8int);
    lemma_power_73_3();
    lemma_pow_compose(g, 36nat, 2nat, n);
    assert(36nat * 2nat == 72nat);
    assert(pow(g, 72nat) % n == 1);
    assert forall|i: int| 0 <= i < ps.len() implies (#[trigger] ps[i]) > 1 && (n - 1) % ps[i] == 0
        && pow(g, ((n - 1) / ps[i]) as nat) % n != 1 by {
        if i == 0 {
            assert(ps[0] == 2int);
            assert(72int % 2int == 0);
            assert(72int / 2int == 36int);
        }
        if i == 1 {
            assert(ps[1] == 3int);
            assert(72int % 3int == 0);
            assert(72int / 3int == 24int);
        }
    }
    lemma_lucas(n, g, ps);
}

/// A power modulo 89.
proof fn lemma_power_89_0()
    ensures
        pow(3int, 4nat) % 89int == 81int,
{
    let g = 3int;
    let n = 89int;
    lemma_start(g, n);
    let (e, x) = (0nat, 1int);
    let (e, x) = lemma_step(g, n, e, x, true);
    assert(x == 3int);
    let (e, x) = lemma_step(g, n, e, x, false);
    assert(x == 9int);
    let (e, x) = lemma_step(g, n, e, x, false);
    assert(x == 81int);
    assert(e == 4nat);
}

/// A power modulo 89.
proof fn lemma_power_89_1()
    ensures
        pow(81int, 11nat) % 89int == 88int,
{
    let g = 81int;
    let n = 89int;
    lemma_start(g, n);
    let (e, x) = (0nat, 1int);
    let (e, x) = lemma_step(g, n, e, x, true);
    assert(x == 81int);
    let (e, x) = lemma_step(g, n, e, x, false);
    assert(x == 64int);
    let (e, x) = lemma_step(g, n, e, x, true);
    assert(x == 73int);
    let (e, x) = lemma_step(g, n, e, x, true);
    assert(x == 88int);
    assert(e == 11nat);
}

/// A power modulo 89.
proof fn lemma_power_89_2()
    ensures
        pow(81int, 2nat) % 89int == 64int,
{
    let g = 81int;
    let n = 89int;
    lemma_start(g, n);
    let (e, x) = (0nat, 1int);
    let (e, x) = lemma_step(g, n, e, x, true);
    assert(x == 81int);
    let (e, x) = lemma_step(g, n, e, x, false);
    assert(x == 64int);
    assert(e == 2nat);
}

/// A power modulo 89.
proof fn lemma_power_89_3()
    ensures
        pow(88int, 2nat) % 89int == 1int,
{
    let g = 88int;
    let n = 89int;
    lemma_start(g, n);
    let (e, x) = (0nat, 1int);
    let (e, x) = lemma_step(g, n, e, x, true);
    assert(x == 88int);
    let (e, x) = lemma_step(g, n, e, x, false);
    assert(x == 1int);
    assert(e == 2nat);
}

/// 89 is prime: 3 generates the residues modulo 89 other than zero.
pub proof fn lemma_prime_89()
    ensures
        all_units(89int),
        fermat(89int),
{
    let g = 3int;
    let n = 89int;
    let ps = seq![2int, 11int];
    lemma_two();
    lemma_prime_11();
    lemma_cover_one(ps);
    lemma_cover_step(1int, 2int, ps, 0);
    assert(2int * 1int == 2int);
    assert(factors_cover(2int, ps));
    lemma_cover_step(2int, 2int, ps, 0);
    assert(2int * 2int == 4int);
    assert(factors_cover(4int, ps));
    lemma_cover_step(4int, 2int, ps, 0);
    assert(2int * 4int == 8int);
    assert(factors_cover(8int, ps));
    lemma_cover_step(8int, 11int, ps, 1);
    assert(11int * 8int == 88int);
    assert(factors_cover(88int, ps));
    lemma_power_89_0();
    lemma_power_89_1();
    lemma_pow_compose(g, 4nat, 11nat, n);
    assert(4nat * 11nat == 44nat);
    assert(pow(g, 44nat) % n == 88int);
    lemma_power_89_2();
    lemma_pow_compose(g, 4nat, 2nat, n);
    assert(4nat * 2nat == 8nat);
    assert(pow(g, 8nat) % n == 64int);
    lemma_power_89_3();
    lemma_pow_compose(g, 44nat, 2nat, n);
    assert(44nat * 2nat == 88nat);
    assert(pow(g, 88nat) % n == 1);
    assert forall|i: int| 0 <= i < ps.len() implies (#[trigger] ps[i]) > 1 && (n - 1) % ps[i] == 0
        && pow(g, ((n - 1) / ps[i]) as nat) % n != 1 by {
        if i == 0 {
            assert(ps[0] == 2int);
            assert(88int % 2int == 0);
            assert(88int / 2int == 44int);
        }
        if i == 1 {
            assert(ps[1] == 11int);
            assert(88int % 11int == 0);
            assert(88int / 11int == 8int);
        }
    }
    lemma_lucas(n, g, ps);
}

/// A power modulo 109.
proof fn lemma_power_109_0()
    ensures
        pow(6int, 18nat) % 109int == 64int,
{
    let g = 6int;
    let n = 109int;
    lemma_start(g, n);
    let (e, x) = (0nat, 1int);
    let (e, x) = lemma_step(g, n, e, x, true);
    assert(x == 6int);
    let (e, x) = lemma_step(g, n, e, x, false);
    assert(x == 36int);
    let (e, x) = lemma_step(g, n, e, x, false);
    assert(x == 97int);
    let (e, x) = lemma_step(g, n, e, x, true);
    assert(x == 101int);
    let (e, x) = lemma_step(g, n, e, x, false);
    assert(x == 64int);
    assert(e == 18nat);
}

/// A power modulo 109.
proof fn lemma_power_109_1()
    ensures
        pow(64int, 3nat) % 109int == 108int,
{
    let g = 64int;
    let n = 109int;
    lemma_start(g, n);
    let (e, x) = (0nat, 1int);
    let (e, x) = lemma_step(g, n, e, x, true);
    assert(x == 64int);
    let (e, x) = lemma_step(g, n, e, x, true);
    assert(x == 108int);
    assert(e == 3nat);
}

/// A power modulo 109.
proof fn lemma_power_109_2()
    ensures
        pow(64int, 2nat) % 109int == 63int,
{
    let g = 64int;
    let n = 109int;
    lemma_start(g, n);
    let (e, x) = (0nat, 1int);
    let (e, x) = lemma_step(g, n, e, x, true);
    assert(x == 64int);
    let (e, x) = lemma_step(g, n, e, x, false);
    assert(x == 63int);
    assert(e == 2nat);
}

/// A power modulo 109.
proof fn lemma_power_109_3()
    ensures
        pow(108int, 2nat) % 109int == 1int,
{
    let g = 108int;
    let n = 109int;
    lemma_start(g, n);
    let (e, x) = (0nat, 1int);
    let (e, x) = lemma_step(g, n, e, x, true);
    assert(x == 108int);
    let (e, x) = lemma_step(g, n, e, x, false);
    assert(x == 1int);
    assert(e == 2nat);
}

/// 109 is prime: 6 generates the residues modulo 109 other than zero.
pub proof fn lemma_prime_109()
    ensures
        all_units(109int),
        fermat(109int),
{
    let g = 6int;
    let n = 109int;
    let ps = seq![2int, 3int];
    lemma_two();
    lemma_prime_3();
    lemma_cover_one(ps);
    lemma_cover_step(1int, 2int, ps, 0);
    assert(2int * 1int == 2int);
    assert(factors_cover(2int, ps));
    lemma_cover_step(2int, 2int, ps, 0);
    assert(2int * 2int == 4int);
    assert(factors_cover(4int, ps));
    lemma_cover_step(4int, 3int, ps, 1);
    assert(3int * 4int == 12int);
    assert(factors_cover(12int, ps));
    lemma_cover_step(12int, 3int, ps, 1);
    assert(3int * 12int == 36int);
    assert(factors_cover(36int, ps));
    lemma_cover_step(36int, 3int, ps, 1);
    assert(3int * 36int == 108int);
    assert(factors_cover(108int, ps));
    lemma_power_109_0();
    lemma_power_109_1();
    lemma_pow_compose(g, 18nat, 3nat, n);
    assert(18nat * 3nat == 54nat);
    assert(pow(g, 54nat) % n == 108int);
    lemma_power_109_2();
    lemma_pow_compose(g, 18nat, 2nat, n);
    assert(18nat * 2nat == 36nat);
    assert(pow(g, 36nat) % n == 63int);
    lemma_power_109_3();
    lemma_pow_compose(g, 54nat, 2nat, n);
    assert(54nat * 2nat == 108nat);
    assert(pow(g, 108nat) % n == 1);
    assert forall|i: int| 0 <= i < ps.len() implies (#[trigger] ps[i]) > 1 && (n - 1) % ps[i] == 0
        && pow(g, ((n - 1) / ps[i]) as nat) % n != 1 by {
        if i == 0 {
            assert(ps[0] == 2int);
            assert(108int % 2int == 0);
            assert(108int / 2int == 54int);
        }
        if i == 1 {
            assert(ps[1] == 3int);
            assert(108int % 3int == 0);
            assert(108int / 3int == 36int);
        }
    }
    lemma_lucas(n, g, ps);
}

/// A power modulo 127.
proof fn lemma_power_127_0()
    ensures
        pow(3int, 3nat) % 127int == 27int,
{
    let g = 3int;
    let n = 127int;
    lemma_start(g, n);
    let (e, x) = (0nat, 1int);
    let (e, x) = lemma_step(g, n, e, x, true);
    assert(x == 3int);
    let (e, x) = lemma_step(g, n, e, x, true);
    assert(x == 27int);
    assert(e == 3nat);
}

/// A power modulo 127.
proof fn lemma_power_127_1()
    ensures
        pow(27int, 6nat) % 127int == 4int,
{
    let g = 27int;
    let n = 127int;
    lemma_start(g, n);
    let (e, x) = (0nat, 1int);
    let (e, x) = lemma_step(g, n, e, x, true);
    assert(x == 27int);
    let (e, x) = lemma_step(g, n, e, x, true);
    assert(x == 125int);
    let (e, x) = lemma_step(g, n, e, x, false);
    assert(x == 4int);
    assert(e == 6nat);
}

/// A power modulo 127.
proof fn lemma_power_127_2()
    ensures
        pow(27int, 7nat) % 127int == 108int,
{
    let g = 27int;
    let n = 127int;
    lemma_start(g, n);
    let (e, x) = (0nat, 1int);
    let (e, x) = lemma_step(g, n, e, x, true);
    assert(x == 27int);
    let (e, x) = lemma_step(g, n, e, x, true);
    assert(x == 125int);
    let (e, x) = lemma_step(g, n, e, x, true);
    assert(x == 108int);
    assert(e == 7nat);
}

/// A power modulo 127.
proof fn lemma_power_127_3()
    ensures
        pow(108int, 3nat) % 127int == 126int,
{
    let g = 108int;
    let n = 127int;
    lemma_start(g, n);
    let (e, x) = (0nat, 1int);
    let (e, x) = lemma_step(g, n, e, x, true);
    assert(x == 108int);
    let (e, x) = lemma_step(g, n, e, x, true);
    assert(x == 126int);
    assert(e == 3nat);
}

/// A power modulo 127.
proof fn lemma_power_127_4()
    ensures
        pow(108int, 2nat) % 127int == 107int,
{
    let g = 108int;
    let n = 127int;
    lemma_start(g, n);
    let (e, x) = (0nat, 1int);
    let (e, x) = lemma_step(g, n, e, x, true);
    assert(x == 108int);
    let (e, x) = lemma_step(g, n, e, x, false);
    assert(x == 107int);
    assert(e == 2nat);
}

/// A power modulo 127.
proof fn lemma_power_127_5()
    ensures
        pow(126int, 2nat) % 127int == 1int,
{
    let g = 126int;
    let n = 127int;
    lemma_start(g, n);
    let (e, x) = (0nat, 1int);
    let (e, x) = lemma_step(g, n, e, x, true);
    assert(x == 126int);
    let (e, x) = lemma_step(g, n, e, x, false);
    assert(x == 1int);
    assert(e == 2nat);
}

/// 127 is prime: 3 generates the residues modulo 127 other than zero.
pub proof fn lemma_prime_127()
    ensures
        all_units(127int),
        fermat(127int),
{
    let g = 3int;
    let n = 127int;
    let ps = seq![2int, 3int, 7int];
    lemma_two();
    lemma_prime_3();
    lemma_prime_7();
    lemma_cover_one(ps);
    lemma_cover_step(1int, 2int, ps, 0);
    assert(2int * 1int == 2int);
    assert(factors_cover(2int, ps));
    lemma_cover_step(2int, 3int, ps, 1);
    assert(3int * 2int == 6int);
    assert(factors_cover(6int, ps));
    lemma_cover_step(6int, 3int, ps, 1);
    assert(3int * 6int == 18int);
    assert(factors_cover(18int, ps));
    lemma_cover_step(18int, 7int, ps, 2);
    assert(7int * 18int == 126int);
    assert(factors_cover(126int, ps));
    lemma_power_127_0();
    lemma_power_127_1();
    lemma_pow_compose(g, 3nat, 6nat, n);
    assert(3nat * 6nat == 18nat);
    assert(pow(g, 18nat) % n == 4int);
    lemma_power_127_2();
    lemma_pow_compose(g, 3nat, 7nat, n);
    assert(3nat * 7nat == 21nat);
    assert(pow(g, 21nat) % n == 108int);
    lemma_power_127_3();
    lemma_pow_compose(g, 21nat, 3nat, n);
    assert(21nat * 3nat == 63nat);
    assert(pow(g, 63nat) % n == 126int);
    lemma_power_127_4();
    lemma_pow_compose(g, 21nat, 2nat, n);
    assert(21nat * 2nat == 42nat);
    assert(pow(g, 42nat) % n == 107int);
    lemma_power_127_5();
    lemma_pow_compose(g, 63nat, 2nat, n);
    assert(63nat * 2nat == 126nat);
    assert(pow(g, 126nat) % n == 1);
    assert forall|i: int| 0 <= i < ps.len() implies (#[trigger] ps[i]) > 1 && (n - 1) % ps[i] == 0
        && pow(g, ((n - 1) / ps[i]) as nat) % n != 1 by {
        if i == 0 {
            assert(ps[0] == 2int);
            assert(126int % 2int == 0);
            assert(126int / 2int == 63int);
        }
        if i == 1 {
            assert(ps[1] == 3int);
            assert(126int % 3int == 0);
            assert(126int / 3int == 42int);
        }
        if i == 2 {
            assert(ps[2] == 7int);
            assert(126int % 7int == 0);
            assert(126int / 7int == 18int);
        }
    }
    lemma_lucas(n, g, ps);
}

/// A power modulo 229.
proof fn lemma_power_229_0()
    ensures
        pow(6int, 2nat) % 229int == 36int,
{
    let g = 6int;
    let n = 229int;
    lemma_start(g, n);
    let (e, x) = (0nat, 1int);
    let (e, x) = lemma_step(g, n, e, x, true);
    assert(x == 6int);
    let (e, x) = lemma_step(g, n, e, x, false);
    assert(x == 36int);
    assert(e == 2nat);
}

/// A power modulo 229.
proof fn lemma_power_229_1()
    ensures
        pow(36int, 19nat) % 229int == 135int,
{
    let g = 36int;
    let n = 229int;
    lemma_start(g, n);
    let (e, x) = (0nat, 1int);
    let (e, x) = lemma_step(g, n, e, x, true);
    assert(x == 36int);
    let (e, x) = lemma_step(g, n, e, x, false);
    assert(x == 151int);
    let (e, x) = lemma_step(g, n, e, x, false);
    assert(x == 130int);
    let (e, x) = lemma_step(g, n, e, x, true);
    assert(x == 176int);
    let (e, x) = lemma_step(g, n, e, x, true);
    assert(x == 135int);
    assert(e == 19nat);
}

/// A power modulo 229.
proof fn lemma_power_229_2()
    ensures
        pow(135int, 3nat) % 229int == 228int,
{
    let g = 135int;
    let n = 229int;
    lemma_start(g, n);
    let (e, x) = (0nat, 1int);
    let (e, x) = lemma_step(g, n, e, x, true);
    assert(x == 135int);
    let (e, x) = lemma_step(g, n, e, x, true);
    assert(x == 228int);
    assert(e == 3nat);
}

/// A power modulo 229.
proof fn lemma_power_229_3()
    ensures
        pow(135int, 2nat) % 229int == 134int,
{
    let g = 135int;
    let n = 229int;
    lemma_start(g, n);
    let (e, x) = (0nat, 1int);
    let (e, x) = lemma_step(g, n, e, x, true);
    assert(x == 135int);
    let (e, x) = lemma_step(g, n, e, x, false);
    assert(x == 134int);
    assert(e == 2nat);
}

/// A power modulo 229.
proof fn lemma_power_229_4()
    ensures
        pow(36int, 6nat) % 229int == 165int,
{
    let g = 36int;
    let n = 229int;
    lemma_start(g, n);
    let (e, x) = (0nat, 1int);
    let (e, x) = lemma_step(g, n, e, x, true);
    assert(x == 36int);
    let (e, x) = lemma_step(g, n, e, x, true);
    assert(x == 169int);
    let (e, x) = lemma_step(g, n, e, x, false);
    assert(x == 165int);
    assert(e == 6nat);
}

/// A power modulo 229.
proof fn lemma_power_229_5()
    ensures
        pow(228int, 2nat) % 229int == 1int,
{
    let g = 228int;
    let n = 229int;
    lemma_start(g, n);
    let (e, x) = (0nat, 1int);
    let (e, x) = lemma_step(g, n, e, x, true);
    assert(x == 228int);
    let (e, x) = lemma_step(g, n, e, x, false);
    assert(x == 1int);
    assert(e == 2nat);
}

/// 229 is prime: 6 generates the residues modulo 229 other than zero.
pub proof fn lemma_prime_229()
    ensures
        all_units(229int),
        fermat(229int),
{
    let g = 6int;
    let n = 229int;
    let ps = seq![2int, 3int, 19int];
    lemma_two();
    lemma_prime_3();
    lemma_prime_19();
    lemma_cover_one(ps);
    lemma_cover_step(1int, 2int, ps, 0);
    assert(2int * 1int == 2int);
    assert(factors_cover(2int, ps));
    lemma_cover_step(2int, 2int, ps, 0);
    assert(2int * 2int == 4int);
    assert(factors_cover(4int, ps));
    lemma_cover_step(4int, 3int, ps, 1);
    assert(3int * 4int == 12int);
    assert(factors_cover(12int, ps));
    lemma_cover_step(12int, 19int, ps, 2);
    assert(19int * 12int == 228int);
    assert(factors_cover(228int, ps));
    lemma_power_229_0();
    lemma_power_229_1();
    lemma_pow_compose(g, 2nat, 19nat, n);
    assert(2nat * 19nat == 38nat);
    assert(pow(g, 38nat) % n == 135int);
    lemma_power_229_2();
    lemma_pow_compose(g, 38nat, 3nat, n);
    assert(38nat * 3nat == 114nat);
    assert(pow(g, 114nat) % n == 228int);
    lemma_power_229_3();
    lemma_pow_compose(g, 38nat, 2nat, n);
    assert(38nat * 2nat == 76nat);
    assert(pow(g, 76nat) % n == 134int);
    lemma_power_229_4();
    lemma_pow_compose(g, 2nat, 6nat, n);
    assert(2nat * 6nat == 12nat);
    assert(pow(g, 12nat) % n == 165int);
    lemma_power_229_5();
    lemma_pow_compose(g, 114nat, 2nat, n);
    assert(114nat * 2nat == 228nat);
    assert(pow(g, 228nat) % n == 1);
    assert forall|i: int| 0 <= i < ps.len() implies (#[trigger] ps[i]) > 1 && (n - 1) % ps[i] == 0
        && pow(g, ((n - 1) / ps[i]) as nat) % n != 1 by {
        if i == 0 {
            assert(ps[0] == 2int);
            assert(228int % 2int == 0);
            assert(228int / 2int == 114int);
        }
        if i == 1 {
            assert(ps[1] == 3int);
            assert(228int % 3int == 0);
            assert(228int / 3int == 76int);
        }
        if i == 2 {
            assert(ps[2] == 19int);
            assert(228int % 19int == 0);
            assert(228int / 19int == 12int);
        }
    }
    lemma_lucas(n, g, ps);
}

/// A power modulo 233.
proof fn lemma_power_233_0()
    ensures
        pow(3int, 4nat) % 233int == 81int,
{
    let g = 3int;
    let n = 233int;
    lemma_start(g, n);
    let (e, x) = (0nat, 1int);
    let (e, x) = lemma_step(g, n, e, x, true);
    assert(x == 3int);
    let (e, x) = lemma_step(g, n, e, x, false);
    assert(x == 9int);
    let (e, x) = lemma_step(g, n, e, x, false);
    assert(x == 81int);
    assert(e == 4nat);
}

/// A power modulo 233.
proof fn lemma_power_233_1()
    ensures
        pow(81int, 29nat) % 233int == 232int,
{
    let g = 81int;
    let n = 233int;
    lemma_start(g, n);
    let (e, x) = (0nat, 1int);
    let (e, x) = lemma_step(g, n, e, x, true);
    assert(x == 81int);
    let (e, x) = lemma_step(g, n, e, x, true);
    assert(x == 201int);
    let (e, x) = lemma_step(g, n, e, x, true);
    assert(x == 229int);
    let (e, x) = lemma_step(g, n, e, x, false);
    assert(x == 16int);
    let (e, x) = lemma_step(g, n, e, x, true);
    assert(x == 232int);
    assert(e == 29nat);
}

/// A power modulo 233.
proof fn lemma_power_233_2()
    ensures
        pow(81int, 2nat) % 233int == 37int,
{
    let g = 81int;
    let n = 233int;
    lemma_start(g, n);
    let (e, x) = (0nat, 1int);
    let (e, x) = lemma_step(g, n, e, x, true);
    assert(x == 81int);
    let (e, x) = lemma_step(g, n, e, x, false);
    assert(x == 37int);
    assert(e == 2nat);
}

/// A power modulo 233.
proof fn lemma_power_233_3()
    ensures
        pow(232int, 2nat) % 233int == 1int,
{
    let g = 232int;
    let n = 233int;
    lemma_start(g, n);
    let (e, x) = (0nat, 1int);
    let (e, x) = lemma_step(g, n, e, x, true);
    assert(x == 232int);
    let (e, x) = lemma_step(g, n, e, x, false);
    assert(x == 1int);
    assert(e == 2nat);
}

/// 233 is prime: 3 generates the residues modulo 233 other than zero.
pub proof fn lemma_prime_233()
    ensures
        all_units(233int),
        fermat(233int),
{
    let g = 3int;
    let n = 233int;
    let ps = seq![2int, 29int];
    lemma_two();
    lemma_prime_29();
    lemma_cover_one(ps);
    lemma_cover_step(1int, 2int, ps, 0);
    assert(2int * 1int == 2int);
    assert(factors_cover(2int, ps));
    lemma_cover_step(2int, 2int, ps, 0);
    assert(2int * 2int == 4int);
    assert(factors_cover(4int, ps));
    lemma_cover_step(4int, 2int, ps, 0);
    assert(2int * 4int == 8int);
    assert(factors_cover(8int, ps));
    lemma_cover_step(8int, 29int, ps, 1);
    assert(29int * 8int == 232int);
    assert(factors_cover(232int, ps));
    lemma_power_233_0();
    lemma_power_233_1();
    lemma_pow_compose(g, 4nat, 29nat, n);
    assert(4nat * 29nat == 116nat);
    assert(pow(g, 116nat) % n == 232int);
    lemma_power_233_2();
    lemma_pow_compose(g, 4nat, 2nat, n);
    assert(4nat * 2nat == 8nat);
    assert(pow(g, 8nat) % n == 37int);
    lemma_power_233_3();
    lemma_pow_compose(g, 116nat, 2nat, n);
    assert(116nat * 2nat == 232nat);
    assert(pow(g, 232nat) % n == 1);
    assert forall|i: int| 0 <= i < ps.len() implies (#[trigger] ps[i]) > 1 && (n - 1) % ps[i] == 0
        && pow(g, ((n - 1) / ps[i]) as nat) % n != 1 by {
        if i == 0 {
            assert(ps[0] == 2int);
            assert(232int % 2int == 0);
            assert(232int / 2int == 116int);
        }
        if i == 1 {
            assert(ps[1] == 29int);
            assert(232int % 29int == 0);
            assert(232int / 29int == 8int);
        }
    }
    lemma_lucas(n, g, ps);
}

/// A power modulo 271.
proof fn lemma_power_271_0()
    ensures
        pow(6int, 9nat) % 271int == 19int,
{
    let g = 6int;
    let n = 271int;
    lemma_start(g, n);
    let (e, x) = (0nat, 1int);
    let (e, x) = lemma_step(g, n, e, x, true);
    assert(x == 6int);
    let (e, x) = lemma_step(g, n, e, x, false);
    assert(x == 36int);
    let (e, x) = lemma_step(g, n, e, x, false);
    assert(x == 212int);
    let (e, x) = lemma_step(g, n, e, x, true);
    assert(x == 19int);
    assert(e == 9nat);
}

/// A power modulo 271.
proof fn lemma_power_271_1()
    ensures
        pow(19int, 6nat) % 271int == 10int,
{
    let g = 19int;
    let n = 271int;
    lemma_start(g, n);
    let (e, x) = (0nat, 1int);
    let (e, x) = lemma_step(g, n, e, x, true);
    assert(x == 19int);
    let (e, x) = lemma_step(g, n, e, x, true);
    assert(x == 84int);
    let (e, x) = lemma_step(g, n, e, x, false);
    assert(x == 10int);
    assert(e == 6nat);
}

/// A power modulo 271.
proof fn lemma_power_271_2()
    ensures
        pow(19int, 5nat) % 271int == 243int,
{
    let g = 19int;
    let n = 271int;
    lemma_start(g, n);
    let (e, x) = (0nat, 1int);
    let (e, x) = lemma_step(g, n, e, x, true);
    assert(x == 19int);
    let (e, x) = lemma_step(g, n, e, x, false);
    assert(x == 90int);
    let (e, x) = lemma_step(g, n, e, x, true);
    assert(x == 243int);
    assert(e == 5nat);
}

/// A power modulo 271.
proof fn lemma_power_271_3()
    ensures
        pow(243int, 3nat) % 271int == 270int,
{
    let g = 243int;
    let n = 271int;
    lemma_start(g, n);
    let (e, x) = (0nat, 1int);
    let (e, x) = lemma_step(g, n, e, x, true);
    assert(x == 243int);
    let (e, x) = lemma_step(g, n, e, x, true);
    assert(x == 270int);
    assert(e == 3nat);
}

/// A power modulo 271.
proof fn lemma_power_271_4()
    ensures
        pow(243int, 2nat) % 271int == 242int,
{
    let g = 243int;
    let n = 271int;
    lemma_start(g, n);
    let (e, x) = (0nat, 1int);
    let (e, x) = lemma_step(g, n, e, x, true);
    assert(x == 243int);
    let (e, x) = lemma_step(g, n, e, x, false);
    assert(x == 242int);
    assert(e == 2nat);
}

/// A power modulo 271.
proof fn lemma_power_271_5()
    ensures
        pow(270int, 2nat) % 271int == 1int,
{
    let g = 270int;
    let n = 271int;
    lemma_start(g, n);
    let (e, x) = (0nat, 1int);
    let (e, x) = lemma_step(g, n, e, x, true);
    assert(x == 270int);
    let (e, x) = lemma_step(g, n, e, x, false);
    assert(x == 1int);
    assert(e == 2nat);
}

/// 271 is prime: 6 generates the residues modulo 271 other than zero.
pub proof fn lemma_prime_271()
    ensures
        all_units(271int),
        fermat(271int),
{
    let g = 6int;
    let n = 271int;
    let ps = seq![2int, 3int, 5int];
    lemma_two();
    lemma_prime_3();
    lemma_prime_5();
    lemma_cover_one(ps);
    lemma_cover_step(1int, 2int, ps, 0);
    assert(2int * 1int == 2int);
    assert(factors_cover(2int, ps));
    lemma_cover_step(2int, 3int, ps, 1);
    assert(3int * 2int == 6int);
    assert(factors_cover(6int, ps));
    lemma_cover_step(6int, 3int, ps, 1);
    assert(3int * 6int == 18int);
    assert(factors_cover(18int, ps));
    lemma_cover_step(18int, 3int, ps, 1);
    assert(3int * 18int == 54int);
    assert(factors_cover(54int, ps));
    lemma_cover_step(54int, 5int, ps, 2);
    assert(5int * 54int == 270int);
    assert(factors_cover(270int, ps));
    lemma_power_271_0();
    lemma_power_271_1();
    lemma_pow_compose(g, 9nat, 6nat, n);
    assert(9nat * 6nat == 54nat);
    assert(pow(g, 54nat) % n == 10int);
    lemma_power_271_2();
    lemma_pow_compose(g, 9nat, 5nat, n);
    assert(9nat * 5nat == 45nat);
    assert(pow(g, 45nat) % n == 243int);
    lemma_power_271_3();
    lemma_pow_compose(g, 45nat, 3nat, n);
    assert(45nat * 3nat == 135nat);
    assert(pow(g, 135nat) % n == 270int);
    lemma_power_271_4();
    lemma_pow_compose(g, 45nat, 2nat, n);
    assert(45nat * 2nat == 90nat);
    assert(pow(g, 90nat) % n == 242int);
    lemma_power_271_5();
    lemma_pow_compose(g, 135nat, 2nat, n);
    assert(135nat * 2nat == 270nat);
    assert(pow(g, 270nat) % n == 1);
    assert forall|i: int| 0 <= i < ps.len() implies (#[trigger] ps[i]) > 1 && (n - 1) % ps[i] == 0
        && pow(g, ((n - 1) / ps[i]) as nat) % n != 1 by {
        if i == 0 {
            assert(ps[0] == 2int);
            assert(270int % 2int == 0);
            assert(270int / 2int == 135int);
        }
        if i == 1 {
            assert(ps[1] == 3int);
            assert(270int % 3int == 0);
            assert(270int / 3int == 90int);
        }
        if i == 2 {
            assert(ps[2] == 5int);
            assert(270int % 5int == 0);
            assert(270int / 5int == 54int);
        }
    }
    lemma_lucas(n, g, ps);
}

/// A power modulo 311.
proof fn lemma_power_311_0()
    ensures
        pow(17int, 1nat) % 311int == 17int,
{
    let g = 17int;
    let n = 311int;
    lemma_start(g, n);
    let (e, x) = (0nat, 1int);
    let (e, x) = lemma_step(g, n, e, x, true);
    assert(x == 17int);
    assert(e == 1nat);
}

/// A power modulo 311.
proof fn lemma_power_311_1()
    ensures
        pow(17int, 10nat) % 311int == 260int,
{
    let g = 17int;
    let n = 311int;
    lemma_start(g, n);
    let (e, x) = (0nat, 1int);
    let (e, x) = lemma_step(g, n, e, x, true);
    assert(x == 17int);
    let (e, x) = lemma_step(g, n, e, x, false);
    assert(x == 289int);
    let (e, x) = lemma_step(g, n, e, x, true);
    assert(x == 142int);
    let (e, x) = lemma_step(g, n, e, x, false);
    assert(x == 260int);
    assert(e == 10nat);
}

/// A power modulo 311.
proof fn lemma_power_311_2()
    ensures
        pow(17int, 31nat) % 311int == 305int,
{
    let g = 17int;
    let n = 311int;
    lemma_start(g, n);
    let (e, x) = (0nat, 1int);
    let (e, x) = lemma_step(g, n, e, x, true);
    assert(x == 17int);
    let (e, x) = lemma_step(g, n, e, x, true);
    assert(x == 248int);
    let (e, x) = lemma_step(g, n, e, x, true);
    assert(x == 297int);
    let (e, x) = lemma_step(g, n, e, x, true);
    assert(x == 222int);
    let (e, x) = lemma_step(g, n, e, x, true);
    assert(x == 305int);
    assert(e == 31nat);
}

/// A power modulo 311.
proof fn lemma_power_311_3()
    ensures
        pow(305int, 5nat) % 311int == 310int,
{
    let g = 305int;
    let n = 311int;
    lemma_start(g, n);
    let (e, x) = (0nat, 1int);
    let (e, x) = lemma_step(g, n, e, x, true);
    assert(x == 305int);
    let (e, x) = lemma_step(g, n, e, x, false);
    assert(x == 36int);
    let (e, x) = lemma_step(g, n, e, x, true);
    assert(x == 310int);
    assert(e == 5nat);
}

/// A power modulo 311.
proof fn lemma_power_311_4()
    ensures
        pow(305int, 2nat) % 311int == 36int,
{
    let g = 305int;
    let n = 311int;
    lemma_start(g, n);
    let (e, x) = (0nat, 1int);
    let (e, x) = lemma_step(g, n, e, x, true);
    assert(x == 305int);
    let (e, x) = lemma_step(g, n, e, x, false);
    assert(x == 36int);
    assert(e == 2nat);
}

/// A power modulo 311.
proof fn lemma_power_311_5()
    ensures
        pow(310int, 2nat) % 311int == 1int,
{
    let g = 310int;
    let n = 311int;
    lemma_start(g, n);
    let (e, x) = (0nat, 1int);
    let (e, x) = lemma_step(g, n, e, x, true);
    assert(x == 310int);
    let (e, x) = lemma_step(g, n, e, x, false);
    assert(x == 1int);
    assert(e == 2nat);
}

/// 311 is prime: 17 generates the residues modulo 311 other than zero.
pub proof fn lemma_prime_311()
    ensures
        all_units(311int),
        fermat(311int),
{
    let g = 17int;
    let n = 311int;
    let ps = seq![2int, 5int, 31int];
    lemma_two();
    lemma_prime_5();
    lemma_prime_31();
    lemma_cover_one(ps);
    lemma_cover_step(1int, 2int, ps, 0);
    assert(2int * 1int == 2int);
    assert(factors_cover(2int, ps));
    lemma_cover_step(2int, 5int, ps, 1);
    assert(5int * 2int == 10int);
    assert(factors_cover(10int, ps));
    lemma_cover_step(10int, 31int, ps, 2);
    assert(31int * 10int == 310int);
    assert(factors_cover(310int, ps));
    lemma_power_311_0();
    lemma_power_311_1();
    lemma_pow_compose(g, 1nat, 10nat, n);
    assert(1nat * 10nat == 10nat);
    assert(pow(g, 10nat) % n == 260int);
    lemma_power_311_2();
    lemma_pow_compose(g, 1nat, 31nat, n);
    assert(1nat * 31nat == 31nat);
    assert(pow(g, 31nat) % n == 305int);
    lemma_power_311_3();
    lemma_pow_compose(g, 31nat, 5nat, n);
    assert(31nat * 5nat == 155nat);
    assert(pow(g, 155nat) % n == 310int);
    lemma_power_311_4();
    lemma_pow_compose(g, 31nat, 2nat, n);
    assert(31nat * 2nat == 62nat);
    assert(pow(g, 62nat) % n == 36int);
    lemma_power_311_5();
    lemma_pow_compose(g, 155nat, 2nat, n);
    assert(155nat * 2nat == 310nat);
    assert(pow(g, 310nat) % n == 1);
    assert forall|i: int| 0 <= i < ps.len() implies (#[trigger] ps[i]) > 1 && (n - 1) % ps[i] == 0
        && pow(g, ((n - 1) / ps[i]) as nat) % n != 1 by {
        if i == 0 {
            assert(ps[0] == 2int);
            assert(310int % 2int == 0);
            assert(310int / 2int == 155int);
        }
        if i == 1 {
            assert(ps[1] == 5int);
            assert(310int % 5int == 0);
            assert(310int / 5int == 62int);
        }
        if i == 2 {
            assert(ps[2] == 31int);
            assert(310int % 31int == 0);
            assert(310int / 31int == 10int);
        }
    }
    lemma_lucas(n, g, ps);
}

/// A power modulo 491.
proof fn lemma_power_491_0()
    ensures
        pow(2int, 7nat) % 491int == 128int,
{
    let g = 2int;
    let n = 491int;
    lemma_start(g, n);
    let (e, x) = (0nat, 1int);
    let (e, x) = lemma_step(g, n, e, x, true);
    assert(x == 2int);
    let (e, x) = lemma_step(g, n, e, x, true);
    assert(x == 8int);
    let (e, x) = lemma_step(g, n, e, x, true);
    assert(x == 128int);
    assert(e == 7nat);
}

/// A power modulo 491.
proof fn lemma_power_491_1()
    ensures
        pow(128int, 10nat) % 491int == 138int,
{
    let g = 128int;
    let n = 491int;
    lemma_start(g, n);
    let (e, x) = (0nat, 1int);
    let (e, x) = lemma_step(g, n, e, x, true);
    assert(x == 128int);
    let (e, x) = lemma_step(g, n, e, x, false);
    assert(x == 181int);
    let (e, x) = lemma_step(g, n, e, x, true);
    assert(x == 268int);
    let (e, x) = lemma_step(g, n, e, x, false);
    assert(x == 138int);
    assert(e == 10nat);
}

/// A power modulo 491.
proof fn lemma_power_491_2()
    ensures
        pow(128int, 7nat) % 491int == 390int,
{
    let g = 128int;
    let n = 491int;
    lemma_start(g, n);
    let (e, x) = (0nat, 1int);
    let (e, x) = lemma_step(g, n, e, x, true);
    assert(x == 128int);
    let (e, x) = lemma_step(g, n, e, x, true);
    assert(x == 91int);
    let (e, x) = lemma_step(g, n, e, x, true);
    assert(x == 390int);
    assert(e == 7nat);
}

/// A power modulo 491.
proof fn lemma_power_491_3()
    ensures
        pow(390int, 5nat) % 491int == 490int,
{
    let g = 390int;
    let n = 491int;
    lemma_start(g, n);
    let (e, x) = (0nat, 1int);
    let (e, x) = lemma_step(g, n, e, x, true);
    assert(x == 390int);
    let (e, x) = lemma_step(g, n, e, x, false);
    assert(x == 381int);
    let (e, x) = lemma_step(g, n, e, x, true);
    assert(x == 490int);
    assert(e == 5nat);
}

/// A power modulo 491.
proof fn lemma_power_491_4()
    ensures
        pow(390int, 2nat) % 491int == 381int,
{
    let g = 390int;
    let n = 491int;
    lemma_start(g, n);
    let (e, x) = (0nat, 1int);
    let (e, x) = lemma_step(g, n, e, x, true);
    assert(x == 390int);
    let (e, x) = lemma_step(g, n, e, x, false);
    assert(x == 381int);
    assert(e == 2nat);
}

/// A power modulo 491.
proof fn lemma_power_491_5()
    ensures
        pow(490int, 2nat) % 491int == 1int,
{
    let g = 490int;
    let n = 491int;
    lemma_start(g, n);
    let (e, x) = (0nat, 1int);
    let (e, x) = lemma_step(g, n, e, x, true);
    assert(x == 490int);
    let (e, x) = lemma_step(g, n, e, x, false);
    assert(x == 1int);
    assert(e == 2nat);
}

/// 491 is prime: 2 generates the residues modulo 491 other than zero.
pub proof fn lemma_prime_491()
    ensures
        all_units(491int),
        fermat(491int),
{
    let g = 2int;
    let n = 491int;
    let ps = seq![2int, 5int, 7int];
    lemma_two();
    lemma_prime_5();
    lemma_prime_7();
    lemma_cover_one(ps);
    lemma_cover_step(1int, 2int, ps, 0);
    assert(2int * 1int == 2int);
    assert(factors_cover(2int, ps));
    lemma_cover_step(2int, 5int, ps, 1);
    assert(5int * 2int == 10int);
    assert(factors_cover(10int, ps));
    lemma_cover_step(10int, 7int, ps, 2);
    assert(7int * 10int == 70int);
    assert(factors_cover(70int, ps));
    lemma_cover_step(70int, 7int, ps, 2);
    assert(7int * 70int == 490int);
    assert(factors_cover(490int, ps));
    lemma_power_491_0();
    lemma_power_491_1();
    lemma_pow_compose(g, 7nat, 10nat, n);
    assert(7nat * 10nat == 70nat);
    assert(pow(g, 70nat) % n == 138int);
    lemma_power_491_2();
    lemma_pow_compose(g, 7nat, 7nat, n);
    assert(7nat * 7nat == 49nat);
    assert(pow(g, 49nat) % n == 390int);
    lemma_power_491_3();
    lemma_pow_compose(g, 49nat, 5nat, n);
    assert(49nat * 5nat == 245nat);
    assert(pow(g, 245nat) % n == 490int);
    lemma_power_491_4();
    lemma_pow_compose(g, 49nat, 2nat, n);
    assert(49nat * 2nat == 98nat);
    assert(pow(g, 98nat) % n == 381int);
    lemma_power_491_5();
    lemma_pow_compose(g, 245nat, 2nat, n);
    assert(245nat * 2nat == 490nat);
    assert(pow(g, 490nat) % n == 1);
    assert forall|i: int| 0 <= i < ps.len() implies (#[trigger] ps[i]) > 1 && (n - 1) % ps[i] == 0
        && pow(g, ((n - 1) / ps[i]) as nat) % n != 1 by {
        if i == 0 {
            assert(ps[0] == 2int);
            assert(490int % 2int == 0);
            assert(490int / 2int == 245int);
        }
        if i == 1 {
            assert(ps[1] == 5int);
            assert(490int % 5int == 0);
            assert(490int / 5int == 98int);
        }
        if i == 2 {
            assert(ps[2] == 7int);
            assert(490int % 7int == 0);
            assert(490int / 7int == 70int);
        }
    }
    lemma_lucas(n, g, ps);
}

/// A power modulo 911.
proof fn lemma_power_911_0()
    ensures
        pow(17int, 1nat) % 911int == 17int,
{
    let g = 17int;
    let n = 911int;
    lemma_start(g, n);
    let (e, x) = (0nat, 1int);
    let (e, x) = lemma_step(g, n, e, x, true);
    assert(x == 17int);
    assert(e == 1nat);
}

/// A power modulo 911.
proof fn lemma_power_911_1()
    ensures
        pow(17int, 91nat) % 911int == 429int,
{
    let g = 17int;
    let n = 911int;
    lemma_start(g, n);
    let (e, x) = (0nat, 1int);
    let (e, x) = lemma_step(g, n, e, x, true);
    assert(x == 17int);
    let (e, x) = lemma_step(g, n, e, x, false);
    assert(x == 289int);
    let (e, x) = lemma_step(g, n, e, x, true);
    assert(x == 519int);
    let (e, x) = lemma_step(g, n, e, x, true);
    assert(x == 451int);
    let (e, x) = lemma_step(g, n, e, x, false);
    assert(x == 248int);
    let (e, x) = lemma_step(g, n, e, x, true);
    assert(x == 651int);
    let (e, x) = lemma_step(g, n, e, x, true);
    assert(x == 429int);
    assert(e == 91nat);
}

/// A power modulo 911.
proof fn lemma_power_911_2()
    ensures
        pow(429int, 5nat) % 911int == 910int,
{
    let g = 429int;
    let n = 911int;
    lemma_start(g, n);
    let (e, x) = (0nat, 1int);
    let (e, x) = lemma_step(g, n, e, x, true);
    assert(x == 429int);
    let (e, x) = lemma_step(g, n, e, x, false);
    assert(x == 19int);
    let (e, x) = lemma_step(g, n, e, x, true);
    assert(x == 910int);
    assert(e == 5nat);
}

/// A power modulo 911.
proof fn lemma_power_911_3()
    ensures
        pow(429int, 2nat) % 911int == 19int,
{
    let g = 429int;
    let n = 911int;
    lemma_start(g, n);
    let (e, x) = (0nat, 1int);
    let (e, x) = lemma_step(g, n, e, x, true);
    assert(x == 429int);
    let (e, x) = lemma_step(g, n, e, x, false);
    assert(x == 19int);
    assert(e == 2nat);
}

/// A power modulo 911.
proof fn lemma_power_911_4()
    ensures
        pow(17int, 10nat) % 911int == 616int,
{
    let g = 17int;
    let n = 911int;
    lemma_start(g, n);
    let (e, x) = (0nat, 1int);
    let (e, x) = lemma_step(g, n, e, x, true);
    assert(x == 17int);
    let (e, x) = lemma_step(g, n, e, x, false);
    assert(x == 289int);
    let (e, x) = lemma_step(g, n, e, x, true);
    assert(x == 519int);
    let (e, x) = lemma_step(g, n, e, x, false);
    assert(x == 616int);
    assert(e == 10nat);
}

/// A power modulo 911.
proof fn lemma_power_911_5()
    ensures
        pow(616int, 13nat) % 911int == 49int,
{
    let g = 616int;
    let n = 911int;
    lemma_start(g, n);
    let (e, x) = (0nat, 1int);
    let (e, x) = lemma_step(g, n, e, x, true);
    assert(x == 616int);
    let (e, x) = lemma_step(g, n, e, x, true);
    assert(x == 516int);
    let (e, x) = lemma_step(g, n, e, x, false);
    assert(x == 244int);
    let (e, x) = lemma_step(g, n, e, x, true);
    assert(x == 49int);
    assert(e == 13nat);
}

/// A power modulo 911.
proof fn lemma_power_911_6()
    ensures
        pow(616int, 7nat) % 911int == 900int,
{
    let g = 616int;
    let n = 911int;
    lemma_start(g, n);
    let (e, x) = (0nat, 1int);
    let (e, x) = lemma_step(g, n, e, x, true);
    assert(x == 616int);
    let (e, x) = lemma_step(g, n, e, x, true);
    assert(x == 516int);
    let (e, x) = lemma_step(g, n, e, x, true);
    assert(x == 900int);
    assert(e == 7nat);
}

/// A power modulo 911.
proof fn lemma_power_911_7()
    ensures
        pow(910int, 2nat) % 911int == 1int,
{
    let g = 910int;
    let n = 911int;
    lemma_start(g, n);
    let (e, x) = (0nat, 1int);
    let (e, x) = lemma_step(g, n, e, x, true);
    assert(x == 910int);
    let (e, x) = lemma_step(g, n, e, x, false);
    assert(x == 1int);
    assert(e == 2nat);
}

/// 911 is prime: 17 generates the residues modulo 911 other than zero.
pub proof fn lemma_prime_911()
    ensures
        all_units(911int),
        fermat(911int),
{
    let g = 17int;
    let n = 911int;
    let ps = seq![2int, 5int, 7int, 13int];
    lemma_two();
    lemma_prime_5();
    lemma_prime_7();
    lemma_prime_13();
    lemma_cover_one(ps);
    lemma_cover_step(1int, 2int, ps, 0);
    assert(2int * 1int == 2int);
    assert(factors_cover(2int, ps));
    lemma_cover_step(2int, 5int, ps, 1);
    assert(5int * 2int == 10int);
    assert(factors_cover(10int, ps));
    lemma_cover_step(10int, 7int, ps, 2);
    assert(7int * 10int == 70int);
    assert(factors_cover(70int, ps));
    lemma_cover_step(70int, 13int, ps, 3);
    assert(13int * 70int == 910int);
    assert(factors_cover(910int, ps));
    lemma_power_911_0();
    lemma_power_911_1();
    lemma_pow_compose(g, 1nat, 91nat, n);
    assert(1nat * 91nat == 91nat);
    assert(pow(g, 91nat) % n == 429int);
    lemma_power_911_2();
    lemma_pow_compose(g, 91nat, 5nat, n);
    assert(91nat * 5nat == 455nat);
    assert(pow(g, 455nat) % n == 910int);
    lemma_power_911_3();
    lemma_pow_compose(g, 91nat, 2nat, n);
    assert(91nat * 2nat == 182nat);
    assert(pow(g, 182nat) % n == 19int);
    lemma_power_911_4();
    lemma_pow_compose(g, 1nat, 10nat, n);
    assert(1nat * 10nat == 10nat);
    assert(pow(g, 10nat) % n == 616int);
    lemma_power_911_5();
    lemma_pow_compose(g, 10nat, 13nat, n);
    assert(10nat * 13nat == 130nat);
    assert(pow(g, 130nat) % n == 49int);
    lemma_power_911_6();
    lemma_pow_compose(g, 10nat, 7nat, n);
    assert(10nat * 7nat == 70nat);
    assert(pow(g, 70nat) % n == 900int);
    lemma_power_911_7();
    lemma_pow_compose(g, 455nat, 2nat, n);
    assert(455nat * 2nat == 910nat);
    assert(pow(g, 910nat) % n == 1);
    assert forall|i: int| 0 <= i < ps.len() implies (#[trigger] ps[i]) > 1 && (n - 1) % ps[i] == 0
        && pow(g, ((n - 1) / ps[i]) as nat) % n != 1 by {
        if i == 0 {
            assert(ps[0] == 2int);
            assert(910int % 2int == 0);
            assert(910int / 2int == 455int);
        }
        if i == 1 {
            assert(ps[1] == 5int);
            assert(910int % 5int == 0);
            assert(910int / 5int == 182int);
        }
        if i == 2 {
            assert(ps[2] == 7int);
            assert(910int % 7int == 0);
            assert(910int / 7int == 130int);
        }
        if i == 3 {
            assert(ps[3] == 13int);
            assert(910int % 13int == 0);
            assert(910int / 13int == 70int);
        }
    }
    lemma_lucas(n, g, ps);
}

/// A power modulo 983.
proof fn lemma_power_983_0()
    ensures
        pow(5int, 1nat) % 983int == 5int,
{
    let g = 5int;
    let n = 983int;
    lemma_start(g, n);
    let (e, x) = (0nat, 1int);
    let (e, x) = lemma_step(g, n, e, x, true);
    assert(x == 5int);
    assert(e == 1nat);
}

/// A power modulo 983.
proof fn lemma_power_983_1()
    ensures
        pow(5int, 491nat) % 983int == 982int,
{
    let g = 5int;
    let n = 983int;
    lemma_start(g, n);
    let (e, x) = (0nat, 1int);
    let (e, x) = lemma_step(g, n, e, x, true);
    assert(x == 5int);
    let (e, x) = lemma_step(g, n, e, x, true);
    assert(x == 125int);
    let (e, x) = lemma_step(g, n, e, x, true);
    assert(x == 468int);
    let (e, x) = lemma_step(g, n, e, x, true);
    assert(x == 58int);
    let (e, x) = lemma_step(g, n, e, x, false);
    assert(x == 415int);
    let (e, x) = lemma_step(g, n, e, x, true);
    assert(x == 17int);
    let (e, x) = lemma_step(g, n, e, x, false);
    assert(x == 289int);
    let (e, x) = lemma_step(g, n, e, x, true);
    assert(x == 813int);
    let (e, x) = lemma_step(g, n, e, x, true);
    assert(x == 982int);
    assert(e == 491nat);
}

/// A power modulo 983.
proof fn lemma_power_983_2()
    ensures
        pow(5int, 2nat) % 983int == 25int,
{
    let g = 5int;
    let n = 983int;
    lemma_start(g, n);
    let (e, x) = (0nat, 1int);
    let (e, x) = lemma_step(g, n, e, x, true);
    assert(x == 5int);
    let (e, x) = lemma_step(g, n, e, x, false);
    assert(x == 25int);
    assert(e == 2nat);
}

/// A power modulo 983.
proof fn lemma_power_983_3()
    ensures
        pow(982int, 2nat) % 983int == 1int,
{
    let g = 982int;
    let n = 983int;
    lemma_start(g, n);
    let (e, x) = (0nat, 1int);
    let (e, x) = lemma_step(g, n, e, x, true);
    assert(x == 982int);
    let (e, x) = lemma_step(g, n, e, x, false);
    assert(x == 1int);
    assert(e == 2nat);
}

/// 983 is prime: 5 generates the residues modulo 983 other than zero.
pub proof fn lemma_prime_983()
    ensures
        all_units(983int),
        fermat(983int),
{
    let g = 5int;
    let n = 983int;
    let ps = seq![2int, 491int];
    lemma_two();
    lemma_prime_491();
    lemma_cover_one(ps);
    lemma_cover_step(1int, 2int, ps, 0);
    assert(2int * 1int == 2int);
    assert(factors_cover(2int, ps));
    lemma_cover_step(2int, 491int, ps, 1);
    assert(491int * 2int == 982int);
    assert(factors_cover(982int, ps));
    lemma_power_983_0();
    lemma_power_983_1();
    lemma_pow_compose(g, 1nat, 491nat, n);
    assert(1nat * 491nat == 491nat);
    assert(pow(g, 491nat) % n == 982int);
    lemma_power_983_2();
    lemma_pow_compose(g, 1nat, 2nat, n);
    assert(1nat * 2nat == 2nat);
    assert(pow(g, 2nat) % n == 25int);
    lemma_power_983_3();
    lemma_pow_compose(g, 491nat, 2nat, n);
    assert(491nat * 2nat == 982nat);
    assert(pow(g, 982nat) % n == 1);
    assert forall|i: int| 0 <= i < ps.len() implies (#[trigger] ps[i]) > 1 && (n - 1) % ps[i] == 0
        && pow(g, ((n - 1) / ps[i]) as nat) % n != 1 by {
        if i == 0 {
            assert(ps[0] == 2int);
            assert(982int % 2int == 0);
            assert(982int / 2int == 491int);
        }
        if i == 1 {
            assert(ps[1] == 491int);
            assert(982int % 491int == 0);
            assert(982int / 491int == 2int);
        }
    }
    lemma_lucas(n, g, ps);
}

/// A power modulo 1231.
proof fn lemma_power_1231_0()
    ensures
        pow(3int, 1nat) % 1231int == 3int,
{
    let g = 3int;
    let n = 1231int;
    lemma_start(g, n);
    let (e, x) = (0nat, 1int);
    let (e, x) = lemma_step(g, n, e, x, true);
    assert(x == 3int);
    assert(e == 1nat);
}

/// A power modulo 1231.
proof fn lemma_power_1231_1()
    ensures
        pow(3int, 30nat) % 1231int == 1000int,
{
    let g = 3int;
    let n = 1231int;
    lemma_start(g, n);
    let (e, x) = (0nat, 1int);
    let (e, x) = lemma_step(g, n, e, x, true);
    assert(x == 3int);
    let (e, x) = lemma_step(g, n, e, x, true);
    assert(x == 27int);
    let (e, x) = lemma_step(g, n, e, x, true);
    assert(x == 956int);
    let (e, x) = lemma_step(g, n, e, x, true);
    assert(x == 371int);
    let (e, x) = lemma_step(g, n, e, x, false);
    assert(x == 1000int);
    assert(e == 30nat);
}

/// A power modulo 1231.
proof fn lemma_power_1231_2()
    ensures
        pow(3int, 41nat) % 1231int == 1176int,
{
    let g = 3int;
    let n = 1231int;
    lemma_start(g, n);
    let (e, x) = (0nat, 1int);
    let (e, x) = lemma_step(g, n, e, x, true);
    assert(x == 3int);
    let (e, x) = lemma_step(g, n, e, x, false);
    assert(x == 9int);
    let (e, x) = lemma_step(g, n, e, x, true);
    assert(x == 243int);
    let (e, x) = lemma_step(g, n, e, x, false);
    assert(x == 1192int);
    let (e, x) = lemma_step(g, n, e, x, false);
    assert(x == 290int);
    let (e, x) = lemma_step(g, n, e, x, true);
    assert(x == 1176int);
    assert(e == 41nat);
}

/// A power modulo 1231.
proof fn lemma_power_1231_3()
    ensures
        pow(1176int, 6nat) % 1231int == 401int,
{
    let g = 1176int;
    let n = 1231int;
    lemma_start(g, n);
    let (e, x) = (0nat, 1int);
    let (e, x) = lemma_step(g, n, e, x, true);
    assert(x == 1176int);
    let (e, x) = lemma_step(g, n, e, x, true);
    assert(x == 1041int);
    let (e, x) = lemma_step(g, n, e, x, false);
    assert(x == 401int);
    assert(e == 6nat);
}

/// A power modulo 1231.
proof fn lemma_power_1231_4()
    ensures
        pow(1176int, 5nat) % 1231int == 127int,
{
    let g = 1176int;
    let n = 1231int;
    lemma_start(g, n);
    let (e, x) = (0nat, 1int);
    let (e, x) = lemma_step(g, n, e, x, true);
    assert(x == 1176int);
    let (e, x) = lemma_step(g, n, e, x, false);
    assert(x == 563int);
    let (e, x) = lemma_step(g, n, e, x, true);
    assert(x == 127int);
    assert(e == 5nat);
}

/// A power modulo 1231.
proof fn lemma_power_1231_5()
    ensures
        pow(127int, 3nat) % 1231int == 1230int,
{
    let g = 127int;
    let n = 1231int;
    lemma_start(g, n);
    let (e, x) = (0nat, 1int);
    let (e, x) = lemma_step(g, n, e, x, true);
    assert(x == 127int);
    let (e, x) = lemma_step(g, n, e, x, true);
    assert(x == 1230int);
    assert(e == 3nat);
}

/// A power modulo 1231.
proof fn lemma_power_1231_6()
    ensures
        pow(127int, 2nat) % 1231int == 126int,
{
    let g = 127int;
    let n = 1231int;
    lemma_start(g, n);
    let (e, x) = (0nat, 1int);
    let (e, x) = lemma_step(g, n, e, x, true);
    assert(x == 127int);
    let (e, x) = lemma_step(g, n, e, x, false);
    assert(x == 126int);
    assert(e == 2nat);
}

/// A power modulo 1231.
proof fn lemma_power_1231_7()
    ensures
        pow(1230int, 2nat) % 1231int == 1int,
{
    let g = 1230int;
    let n = 1231int;
    lemma_start(g, n);
    let (e, x) = (0nat, 1int);
    let (e, x) = lemma_step(g, n, e, x, true);
    assert(x == 1230int);
    let (e, x) = lemma_step(g, n, e, x, false);
    assert(x == 1int);
    assert(e == 2nat);
}

/// 1231 is prime: 3 generates the residues modulo 1231 other than zero.
pub proof fn lemma_prime_1231()
    ensures
        all_units(1231int),
        fermat(1231int),
{
    let g = 3int;
    let n = 1231int;
    let ps = seq![2int, 3int, 5int, 41int];
    lemma_two();
    lemma_prime_3();
    lemma_prime_5();
    lemma_prime_41();
    lemma_cover_one(ps);
    lemma_cover_step(1int, 2int, ps, 0);
    assert(2int * 1int == 2int);
    assert(factors_cover(2int, ps));
    lemma_cover_step(2int, 3int, ps, 1);
    assert(3int * 2int == 6int);
    assert(factors_cover(6int, ps));
    lemma_cover_step(6int, 5int, ps, 2);
    assert(5int * 6int == 30int);
    assert(factors_cover(30int, ps));
    lemma_cover_step(30int, 41int, ps, 3);
    assert(41int * 30int == 1230int);
    assert(factors_cover(1230int, ps));
    lemma_power_1231_0();
    lemma_power_1231_1();
    lemma_pow_compose(g, 1nat, 30nat, n);
    assert(1nat * 30nat == 30nat);
    assert(pow(g, 30nat) % n == 1000int);
    lemma_power_1231_2();
    lemma_pow_compose(g, 1nat, 41nat, n);
    assert(1nat * 41nat == 41nat);
    assert(pow(g, 41nat) % n == 1176int);
    lemma_power_1231_3();
    lemma_pow_compose(g, 41nat, 6nat, n);
    assert(41nat * 6nat == 246nat);
    assert(pow(g, 246nat) % n == 401int);
    lemma_power_1231_4();
    lemma_pow_compose(g, 41nat, 5nat, n);
    assert(41nat * 5nat == 205nat);
    assert(pow(g, 205nat) % n == 127int);
    lemma_power_1231_5();
    lemma_pow_compose(g, 205nat, 3nat, n);
    assert(205nat * 3nat == 615nat);
    assert(pow(g, 615nat) % n == 1230int);
    lemma_power_1231_6();
    lemma_pow_compose(g, 205nat, 2nat, n);
    assert(205nat * 2nat == 410nat);
    assert(pow(g, 410nat) % n == 126int);
    lemma_power_1231_7();
    lemma_pow_compose(g, 615nat, 2nat, n);
    assert(615nat * 2nat == 1230nat);
    assert(pow(g, 1230nat) % n == 1);
    assert forall|i: int| 0 <= i < ps.len() implies (#[trigger] ps[i]) > 1 && (n - 1) % ps[i] == 0
        && pow(g, ((n - 1) / ps[i]) as nat) % n != 1 by {
        if i == 0 {
            assert(ps[0] == 2int);
            assert(1230int % 2int == 0);
            assert(1230int / 2int == 615int);
        }
        if i == 1 {
            assert(ps[1] == 3int);
            assert(1230int % 3int == 0);
            assert(1230int / 3int == 410int);
        }
        if i == 2 {
            assert(ps[2] == 5int);
            assert(1230int % 5int == 0);
            assert(1230int / 5int == 246int);
        }
        if i == 3 {
            assert(ps[3] == 41int);
            assert(1230int % 41int == 0);
            assert(1230int / 41int == 30int);
        }
    }
    lemma_lucas(n, g, ps);
}

/// A power modulo 2221.
proof fn lemma_power_2221_0()
    ensures
        pow(2int, 2nat) % 2221int == 4int,
{
    let g = 2int;
    let n = 2221int;
    lemma_start(g, n);
    let (e, x) = (0nat, 1int);
    let (e, x) = lemma_step(g, n, e, x, true);
    assert(x == 2int);
    let (e, x) = lemma_step(g, n, e, x, false);
    assert(x == 4int);
    assert(e == 2nat);
}

/// A power modulo 2221.
proof fn lemma_power_2221_1()
    ensures
        pow(4int, 30nat) % 2221int == 980int,
{
    let g = 4int;
    let n = 2221int;
    lemma_start(g, n);
    let (e, x) = (0nat, 1int);
    let (e, x) = lemma_step(g, n, e, x, true);
    assert(x == 4int);
    let (e, x) = lemma_step(g, n, e, x, true);
    assert(x == 64int);
    let (e, x) = lemma_step(g, n, e, x, true);
    assert(x == 837int);
    let (e, x) = lemma_step(g, n, e, x, true);
    assert(x == 1595int);
    let (e, x) = lemma_step(g, n, e, x, false);
    assert(x == 980int);
    assert(e == 30nat);
}

/// A power modulo 2221.
proof fn lemma_power_2221_2()
    ensures
        pow(4int, 37nat) % 2221int == 711int,
{
    let g = 4int;
    let n = 2221int;
    lemma_start(g, n);
    let (e, x) = (0nat, 1int);
    let (e, x) = lemma_step(g, n, e, x, true);
    assert(x == 4int);
    let (e, x) = lemma_step(g, n, e, x, false);
    assert(x == 16int);
    let (e, x) = lemma_step(g, n, e, x, false);
    assert(x == 256int);
    let (e, x) = lemma_step(g, n, e, x, true);
    assert(x == 66int);
    let (e, x) = lemma_step(g, n, e, x, false);
    assert(x == 2135int);
    let (e, x) = lemma_step(g, n, e, x, true);
    assert(x == 711int);
    assert(e == 37nat);
}

/// A power modulo 2221.
proof fn lemma_power_2221_3()
    ensures
        pow(711int, 6nat) % 2221int == 330int,
{
    let g = 711int;
    let n = 2221int;
    lemma_start(g, n);
    let (e, x) = (0nat, 1int);
    let (e, x) = lemma_step(g, n, e, x, true);
    assert(x == 711int);
    let (e, x) = lemma_step(g, n, e, x, true);
    assert(x == 1001int);
    let (e, x) = lemma_step(g, n, e, x, false);
    assert(x == 330int);
    assert(e == 6nat);
}

/// A power modulo 2221.
proof fn lemma_power_2221_4()
    ensures
        pow(711int, 5nat) % 2221int == 544int,
{
    let g = 711int;
    let n = 2221int;
    lemma_start(g, n);
    let (e, x) = (0nat, 1int);
    let (e, x) = lemma_step(g, n, e, x, true);
    assert(x == 711int);
    let (e, x) = lemma_step(g, n, e, x, false);
    assert(x == 1354int);
    let (e, x) = lemma_step(g, n, e, x, true);
    assert(x == 544int);
    assert(e == 5nat);
}

/// A power modulo 2221.
proof fn lemma_power_2221_5()
    ensures
        pow(544int, 3nat) % 2221int == 2220int,
{
    let g = 544int;
    let n = 2221int;
    lemma_start(g, n);
    let (e, x) = (0nat, 1int);
    let (e, x) = lemma_step(g, n, e, x, true);
    assert(x == 544int);
    let (e, x) = lemma_step(g, n, e, x, true);
    assert(x == 2220int);
    assert(e == 3nat);
}

/// A power modulo 2221.
proof fn lemma_power_2221_6()
    ensures
        pow(544int, 2nat) % 2221int == 543int,
{
    let g = 544int;
    let n = 2221int;
    lemma_start(g, n);
    let (e, x) = (0nat, 1int);
    let (e, x) = lemma_step(g, n, e, x, true);
    assert(x == 544int);
    let (e, x) = lemma_step(g, n, e, x, false);
    assert(x == 543int);
    assert(e == 2nat);
}

/// A power modulo 2221.
proof fn lemma_power_2221_7()
    ensures
        pow(2220int, 2nat) % 2221int == 1int,
{
    let g = 2220int;
    let n = 2221int;
    lemma_start(g, n);
    let (e, x) = (0nat, 1int);
    let (e, x) = lemma_step(g, n, e, x, true);
    assert(x == 2220int);
    let (e, x) = lemma_step(g, n, e, x, false);
    assert(x == 1int);
    assert(e == 2nat);
}

/// 2221 is prime: 2 generates the residues modulo 2221 other than zero.
pub proof fn lemma_prime_2221()
    ensures
        all_units(2221int),
        fermat(2221int),
{
    let g = 2int;
    let n = 2221int;
    let ps = seq![2int, 3int, 5int, 37int];
    lemma_two();
    lemma_prime_3();
    lemma_prime_5();
    lemma_prime_37();
    lemma_cover_one(ps);
    lemma_cover_step(1int, 2int, ps, 0);
    assert(2int * 1int == 2int);
    assert(factors_cover(2int, ps));
    lemma_cover_step(2int, 2int, ps, 0);
    assert(2int * 2int == 4int);
    assert(factors_cover(4int, ps));
    lemma_cover_step(4int, 3int, ps, 1);
    assert(3int * 4int == 12int);
    assert(factors_cover(12int, ps));
    lemma_cover_step(12int, 5int, ps, 2);
    assert(5int * 12int == 60int);
    assert(factors_cover(60int, ps));
    lemma_cover_step(60int, 37int, ps, 3);
    assert(37int * 60int == 2220int);
    assert(factors_cover(2220int, ps));
    lemma_power_2221_0();
    lemma_power_2221_1();
    lemma_pow_compose(g, 2nat, 30nat, n);
    assert(2nat * 30nat == 60nat);
    assert(pow(g, 60nat) % n == 980int);
    lemma_power_2221_2();
    lemma_pow_compose(g, 2nat, 37nat, n);
    assert(2nat * 37nat == 74nat);
    assert(pow(g, 74nat) % n == 711int);
    lemma_power_2221_3();
    lemma_pow_compose(g, 74nat, 6nat, n);
    assert(74nat * 6nat == 444nat);
    assert(pow(g, 444nat) % n == 330int);
    lemma_power_2221_4();
    lemma_pow_compose(g, 74nat, 5nat, n);
    assert(74nat * 5nat == 370nat);
    assert(pow(g, 370nat) % n == 544int);
    lemma_power_2221_5();
    lemma_pow_compose(g, 370nat, 3nat, n);
    assert(370nat * 3nat == 1110nat);
    assert(pow(g, 1110nat) % n == 2220int);
    lemma_power_2221_6();
    lemma_pow_compose(g, 370nat, 2nat, n);
    assert(370nat * 2nat == 740nat);
    assert(pow(g, 740nat) % n == 543int);
    lemma_power_2221_7();
    lemma_pow_compose(g, 1110nat, 2nat, n);
    assert(1110nat * 2nat == 2220nat);
    assert(pow(g, 2220nat) % n == 1);
    assert forall|i: int| 0 <= i < ps.len() implies (#[trigger] ps[i]) > 1 && (n - 1) % ps[i] == 0
        && pow(g, ((n - 1) / ps[i]) as nat) % n != 1 by {
        if i == 0 {
            assert(ps[0] == 2int);
            assert(2220int % 2int == 0);
            assert(2220int / 2int == 1110int);
        }
        if i == 1 {
            assert(ps[1] == 3int);
            assert(2220int % 3int == 0);
            assert(2220int / 3int == 740int);
        }
        if i == 2 {
            assert(ps[2] == 5int);
            assert(2220int % 5int == 0);
            assert(2220int / 5int == 444int);
        }
        if i == 3 {
            assert(ps[3] == 37int);
            assert(2220int % 37int == 0);
            assert(2220int / 37int == 60int);
        }
    }
    lemma_lucas(n, g, ps);
}

/// A power modulo 3557.
proof fn lemma_power_3557_0()
    ensures
        pow(2int, 2nat) % 3557int == 4int,
{
    let g = 2int;
    let n = 3557int;
    lemma_start(g, n);
    let (e, x) = (0nat, 1int);
    let (e, x) = lemma_step(g, n, e, x, true);
    assert(x == 2int);
    let (e, x) = lemma_step(g, n, e, x, false);
    assert(x == 4int);
    assert(e == 2nat);
}

/// A power modulo 3557.
proof fn lemma_power_3557_1()
    ensures
        pow(4int, 127nat) % 3557int == 583int,
{
    let g = 4int;
    let n = 3557int;
    lemma_start(g, n);
    let (e, x) = (0nat, 1int);
    let (e, x) = lemma_step(g, n, e, x, true);
    assert(x == 4int);
    let (e, x) = lemma_step(g, n, e, x, true);
    assert(x == 64int);
    let (e, x) = lemma_step(g, n, e, x, true);
    assert(x == 2156int);
    let (e, x) = lemma_step(g, n, e, x, true);
    assert(x == 905int);
    let (e, x) = lemma_step(g, n, e, x, true);
    assert(x == 103int);
    let (e, x) = lemma_step(g, n, e, x, true);
    assert(x == 3309int);
    let (e, x) = lemma_step(g, n, e, x, true);
    assert(x == 583int);
    assert(e == 127nat);
}

/// A power modulo 3557.
proof fn lemma_power_3557_2()
    ensures
        pow(583int, 7nat) % 3557int == 3556int,
{
    let g = 583int;
    let n = 3557int;
    lemma_start(g, n);
    let (e, x) = (0nat, 1int);
    let (e, x) = lemma_step(g, n, e, x, true);
    assert(x == 583int);
    let (e, x) = lemma_step(g, n, e, x, true);
    assert(x == 1931int);
    let (e, x) = lemma_step(g, n, e, x, true);
    assert(x == 3556int);
    assert(e == 7nat);
}

/// A power modulo 3557.
proof fn lemma_power_3557_3()
    ensures
        pow(583int, 2nat) % 3557int == 1974int,
{
    let g = 583int;
    let n = 3557int;
    lemma_start(g, n);
    let (e, x) = (0nat, 1int);
    let (e, x) = lemma_step(g, n, e, x, true);
    assert(x == 583int);
    let (e, x) = lemma_step(g, n, e, x, false);
    assert(x == 1974int);
    assert(e == 2nat);
}

/// A power modulo 3557.
proof fn lemma_power_3557_4()
    ensures
        pow(4int, 14nat) % 3557int == 2894int,
{
    let g = 4int;
    let n = 3557int;
    lemma_start(g, n);
    let (e, x) = (0nat, 1int);
    let (e, x) = lemma_step(g, n, e, x, true);
    assert(x == 4int);
    let (e, x) = lemma_step(g, n, e, x, true);
    assert(x == 64int);
    let (e, x) = lemma_step(g, n, e, x, true);
    assert(x == 2156int);
    let (e, x) = lemma_step(g, n, e, x, false);
    assert(x == 2894int);
    assert(e == 14nat);
}

/// A power modulo 3557.
proof fn lemma_power_3557_5()
    ensures
        pow(3556int, 2nat) % 3557int == 1int,
{
    let g = 3556int;
    let n = 3557int;
    lemma_start(g, n);
    let (e, x) = (0nat, 1int);
    let (e, x) = lemma_step(g, n, e, x, true);
    assert(x == 3556int);
    let (e, x) = lemma_step(g, n, e, x, false);
    assert(x == 1int);
    assert(e == 2nat);
}

/// 3557 is prime: 2 generates the residues modulo 3557 other than zero.
pub proof fn lemma_prime_3557()
    ensures
        all_units(3557int),
        fermat(3557int),
{
    let g = 2int;
    let n = 3557int;
    let ps = seq![2int, 7int, 127int];
    lemma_two();
    lemma_prime_7();
    lemma_prime_127();
    lemma_cover_one(ps);
    lemma_cover_step(1int, 2int, ps, 0);
    assert(2int * 1int == 2int);
    assert(factors_cover(2int, ps));
    lemma_cover_step(2int, 2int, ps, 0);
    assert(2int * 2int == 4int);
    assert(factors_cover(4int, ps));
    lemma_cover_step(4int, 7int, ps, 1);
    assert(7int * 4int == 28int);
    assert(factors_cover(28int, ps));
    lemma_cover_step(28int, 127int, ps, 2);
    assert(127int * 28int == 3556int);
    assert(factors_cover(3556int, ps));
    lemma_power_3557_0();
    lemma_power_3557_1();
    lemma_pow_compose(g, 2nat, 127nat, n);
    assert(2nat * 127nat == 254nat);
    assert(pow(g, 254nat) % n == 583int);
    lemma_power_3557_2();
    lemma_pow_compose(g, 254nat, 7nat, n);
    assert(254nat * 7nat == 1778nat);
    assert(pow(g, 1778nat) % n == 3556int);
    lemma_power_3557_3();
    lemma_pow_compose(g, 254nat, 2nat, n);
    assert(254nat * 2nat == 508nat);
    assert(pow(g, 508nat) % n == 1974int);
    lemma_power_3557_4();
    lemma_pow_compose(g, 2nat, 14nat, n);
    assert(2nat * 14nat == 28nat);
    assert(pow(g, 28nat) % n == 2894int);
    lemma_power_3557_5();
    lemma_pow_compose(g, 1778nat, 2nat, n);
    assert(1778nat * 2nat == 3556nat);
    assert(pow(g, 3556nat) % n == 1);
    assert forall|i: int| 0 <= i < ps.len() implies (#[trigger] ps[i]) > 1 && (n - 1) % ps[i] == 0
        && pow(g, ((n - 1) / ps[i]) as nat) % n != 1 by {
        if i == 0 {
            assert(ps[0] == 2int);
            assert(3556int % 2int == 0);
            assert(3556int / 2int == 1778int);
        }
        if i == 1 {
            assert(ps[1] == 7int);
            assert(3556int % 7int == 0);
            assert(3556int / 7int == 508int);
        }
        if i == 2 {
            assert(ps[2] == 127int);
            assert(3556int % 127int == 0);
            assert(3556int / 127int == 28int);
        }
    }
    lemma_lucas(n, g, ps);
}

/// A power modulo 3691.
proof fn lemma_power_3691_0()
    ensures
        pow(2int, 3nat) % 3691int == 8int,
{
    let g = 2int;
    let n = 3691int;
    lemma_start(g, n);
    let (e, x) = (0nat, 1int);
    let (e, x) = lemma_step(g, n, e, x, true);
    assert(x == 2int);
    let (e, x) = lemma_step(g, n, e, x, true);
    assert(x == 8int);
    assert(e == 3nat);
}

/// A power modulo 3691.
proof fn lemma_power_3691_1()
    ensures
        pow(8int, 30nat) % 3691int == 1752int,
{
    let g = 8int;
    let n = 3691int;
    lemma_start(g, n);
    let (e, x) = (0nat, 1int);
    let (e, x) = lemma_step(g, n, e, x, true);
    assert(x == 8int);
    let (e, x) = lemma_step(g, n, e, x, true);
    assert(x == 512int);
    let (e, x) = lemma_step(g, n, e, x, true);
    assert(x == 664int);
    let (e, x) = lemma_step(g, n, e, x, true);
    assert(x == 2263int);
    let (e, x) = lemma_step(g, n, e, x, false);
    assert(x == 1752int);
    assert(e == 30nat);
}

/// A power modulo 3691.
proof fn lemma_power_3691_2()
    ensures
        pow(8int, 41nat) % 3691int == 2763int,
{
    let g = 8int;
    let n = 3691int;
    lemma_start(g, n);
    let (e, x) = (0nat, 1int);
    let (e, x) = lemma_step(g, n, e, x, true);
    assert(x == 8int);
    let (e, x) = lemma_step(g, n, e, x, false);
    assert(x == 64int);
    let (e, x) = lemma_step(g, n, e, x, true);
    assert(x == 3240int);
    let (e, x) = lemma_step(g, n, e, x, false);
    assert(x == 396int);
    let (e, x) = lemma_step(g, n, e, x, false);
    assert(x == 1794int);
    let (e, x) = lemma_step(g, n, e, x, true);
    assert(x == 2763int);
    assert(e == 41nat);
}

/// A power modulo 3691.
proof fn lemma_power_3691_3()
    ensures
        pow(2763int, 6nat) % 3691int == 643int,
{
    let g = 2763int;
    let n = 3691int;
    lemma_start(g, n);
    let (e, x) = (0nat, 1int);
    let (e, x) = lemma_step(g, n, e, x, true);
    assert(x == 2763int);
    let (e, x) = lemma_step(g, n, e, x, true);
    assert(x == 259int);
    let (e, x) = lemma_step(g, n, e, x, false);
    assert(x == 643int);
    assert(e == 6nat);
}

/// A power modulo 3691.
proof fn lemma_power_3691_4()
    ensures
        pow(2763int, 5nat) % 3691int == 3217int,
{
    let g = 2763int;
    let n = 3691int;
    lemma_start(g, n);
    let (e, x) = (0nat, 1int);
    let (e, x) = lemma_step(g, n, e, x, true);
    assert(x == 2763int);
    let (e, x) = lemma_step(g, n, e, x, false);
    assert(x == 1181int);
    let (e, x) = lemma_step(g, n, e, x, true);
    assert(x == 3217int);
    assert(e == 5nat);
}

/// A power modulo 3691.
proof fn lemma_power_3691_5()
    ensures
        pow(3217int, 3nat) % 3691int == 3690int,
{
    let g = 3217int;
    let n = 3691int;
    lemma_start(g, n);
    let (e, x) = (0nat, 1int);
    let (e, x) = lemma_step(g, n, e, x, true);
    assert(x == 3217int);
    let (e, x) = lemma_step(g, n, e, x, true);
    assert(x == 3690int);
    assert(e == 3nat);
}

/// A power modulo 3691.
proof fn lemma_power_3691_6()
    ensures
        pow(3217int, 2nat) % 3691int == 3216int,
{
    let g = 3217int;
    let n = 3691int;
    lemma_start(g, n);
    let (e, x) = (0nat, 1int);
    let (e, x) = lemma_step(g, n, e, x, true);
    assert(x == 3217int);
    let (e, x) = lemma_step(g, n, e, x, false);
    assert(x == 3216int);
    assert(e == 2nat);
}

/// A power modulo 3691.
proof fn lemma_power_3691_7()
    ensures
        pow(3690int, 2nat) % 3691int == 1int,
{
    let g = 3690int;
    let n = 3691int;
    lemma_start(g, n);
    let (e, x) = (0nat, 1int);
    let (e, x) = lemma_step(g, n, e, x, true);
    assert(x == 3690int);
    let (e, x) = lemma_step(g, n, e, x, false);
    assert(x == 1int);
    assert(e == 2nat);
}

/// 3691 is prime: 2 generates the residues modulo 3691 other than zero.
pub proof fn lemma_prime_3691()
    ensures
        all_units(3691int),
        fermat(3691int),
{
    let g = 2int;
    let n = 3691int;
    let ps = seq![2int, 3int, 5int, 41int];
    lemma_two();
    lemma_prime_3();
    lemma_prime_5();
    lemma_prime_41();
    lemma_cover_one(ps);
    lemma_cover_step(1int, 2int, ps, 0);
    assert(2int * 1int == 2int);
    assert(factors_cover(2int, ps));
    lemma_cover_step(2int, 3int, ps, 1);
    assert(3int * 2int == 6int);
    assert(factors_cover(6int, ps));
    lemma_cover_step(6int, 3int, ps, 1);
    assert(3int * 6int == 18int);
    assert(factors_cover(18int, ps));
    lemma_cover_step(18int, 5int, ps, 2);
    assert(5int * 18int == 90int);
    assert(factors_cover(90int, ps));
    lemma_cover_step(90int, 41int, ps, 3);
    assert(41int * 90int == 3690int);
    assert(factors_cover(3690int, ps));
    lemma_power_3691_0();
    lemma_power_3691_1();
    lemma_pow_compose(g, 3nat, 30nat, n);
    assert(3nat * 30nat == 90nat);
    assert(pow(g, 90nat) % n == 1752int);
    lemma_power_3691_2();
    lemma_pow_compose(g, 3nat, 41nat, n);
    assert(3nat * 41nat == 123nat);
    assert(pow(g, 123nat) % n == 2763int);
    lemma_power_3691_3();
    lemma_pow_compose(g, 123nat, 6nat, n);
    assert(123nat * 6nat == 738nat);
    assert(pow(g, 738nat) % n == 643int);
    lemma_power_3691_4();
    lemma_pow_compose(g, 123nat, 5nat, n);
    assert(123nat * 5nat == 615nat);
    assert(pow(g, 615nat) % n == 3217int);
    lemma_power_3691_5();
    lemma_pow_compose(g, 615nat, 3nat, n);
    assert(615nat * 3nat == 1845nat);
    assert(pow(g, 1845nat) % n == 3690int);
    lemma_power_3691_6();
    lemma_pow_compose(g, 615nat, 2nat, n);
    assert(615nat * 2nat == 1230nat);
    assert(pow(g, 1230nat) % n == 3216int);
    lemma_power_3691_7();
    lemma_pow_compose(g, 1845nat, 2nat, n);
    assert(1845nat * 2nat == 3690nat);
    assert(pow(g, 3690nat) % n == 1);
    assert forall|i: int| 0 <= i < ps.len() implies (#[trigger] ps[i]) > 1 && (n - 1) % ps[i] == 0
        && pow(g, ((n - 1) / ps[i]) as nat) % n != 1 by {
        if i == 0 {
            assert(ps[0] == 2int);
            assert(3690int % 2int == 0);
            assert(3690int / 2int == 1845int);
        }
        if i == 1 {
            assert(ps[1] == 3int);
            assert(3690int % 3int == 0);
            assert(3690int / 3int == 1230int);
        }
        if i == 2 {
            assert(ps[2] == 5int);
            assert(3690int % 5int == 0);
            assert(3690int / 5int == 738int);
        }
        if i == 3 {
            assert(ps[3] == 41int);
            assert(3690int % 41int == 0);
            assert(3690int / 41int == 90int);
        }
    }
    lemma_lucas(n, g, ps);
}

/// A power modulo 4999.
proof fn lemma_power_4999_0()
    ensures
        pow(3int, 7nat) % 4999int == 2187int,
{
    let g = 3int;
    let n = 4999int;
    lemma_start(g, n);
    let (e, x) = (0nat, 1int);
    let (e, x) = lemma_step(g, n, e, x, true);
    assert(x == 3int);
    let (e, x) = lemma_step(g, n, e, x, true);
    assert(x == 27int);
    let (e, x) = lemma_step(g, n, e, x, true);
    assert(x == 2187int);
    assert(e == 7nat);
}

/// A power modulo 4999.
proof fn lemma_power_4999_1()
    ensures
        pow(2187int, 42nat) % 4999int == 2420int,
{
    let g = 2187int;
    let n = 4999int;
    lemma_start(g, n);
    let (e, x) = (0nat, 1int);
    let (e, x) = lemma_step(g, n, e, x, true);
    assert(x == 2187int);
    let (e, x) = lemma_step(g, n, e, x, false);
    assert(x == 3925int);
    let (e, x) = lemma_step(g, n, e, x, true);
    assert(x == 1643int);
    let (e, x) = lemma_step(g, n, e, x, false);
    assert(x == 4988int);
    let (e, x) = lemma_step(g, n, e, x, true);
    assert(x == 4679int);
    let (e, x) = lemma_step(g, n, e, x, false);
    assert(x == 2420int);
    assert(e == 42nat);
}

/// A power modulo 4999.
proof fn lemma_power_4999_2()
    ensures
        pow(2187int, 17nat) % 4999int == 4284int,
{
    let g = 2187int;
    let n = 4999int;
    lemma_start(g, n);
    let (e, x) = (0nat, 1int);
    let (e, x) = lemma_step(g, n, e, x, true);
    assert(x == 2187int);
    let (e, x) = lemma_step(g, n, e, x, false);
    assert(x == 3925int);
    let (e, x) = lemma_step(g, n, e, x, false);
    assert(x == 3706int);
    let (e, x) = lemma_step(g, n, e, x, false);
    assert(x == 2183int);
    let (e, x) = lemma_step(g, n, e, x, true);
    assert(x == 4284int);
    assert(e == 17nat);
}

/// A power modulo 4999.
proof fn lemma_power_4999_3()
    ensures
        pow(4284int, 6nat) % 4999int == 227int,
{
    let g = 4284int;
    let n = 4999int;
    lemma_start(g, n);
    let (e, x) = (0nat, 1int);
    let (e, x) = lemma_step(g, n, e, x, true);
    assert(x == 4284int);
    let (e, x) = lemma_step(g, n, e, x, true);
    assert(x == 1005int);
    let (e, x) = lemma_step(g, n, e, x, false);
    assert(x == 227int);
    assert(e == 6nat);
}

/// A power modulo 4999.
proof fn lemma_power_4999_4()
    ensures
        pow(4284int, 7nat) % 4999int == 2662int,
{
    let g = 4284int;
    let n = 4999int;
    lemma_start(g, n);
    let (e, x) = (0nat, 1int);
    let (e, x) = lemma_step(g, n, e, x, true);
    assert(x == 4284int);
    let (e, x) = lemma_step(g, n, e, x, true);
    assert(x == 1005int);
    let (e, x) = lemma_step(g, n, e, x, true);
    assert(x == 2662int);
    assert(e == 7nat);
}

/// A power modulo 4999.
proof fn lemma_power_4999_5()
    ensures
        pow(2662int, 3nat) % 4999int == 4998int,
{
    let g = 2662int;
    let n = 4999int;
    lemma_start(g, n);
    let (e, x) = (0nat, 1int);
    let (e, x) = lemma_step(g, n, e, x, true);
    assert(x == 2662int);
    let (e, x) = lemma_step(g, n, e, x, true);
    assert(x == 4998int);
    assert(e == 3nat);
}

/// A power modulo 4999.
proof fn lemma_power_4999_6()
    ensures
        pow(2662int, 2nat) % 4999int == 2661int,
{
    let g = 2662int;
    let n = 4999int;
    lemma_start(g, n);
    let (e, x) = (0nat, 1int);
    let (e, x) = lemma_step(g, n, e, x, true);
    assert(x == 2662int);
    let (e, x) = lemma_step(g, n, e, x, false);
    assert(x == 2661int);
    assert(e == 2nat);
}

/// A power modulo 4999.
proof fn lemma_power_4999_7()
    ensures
        pow(4998int, 2nat) % 4999int == 1int,
{
    let g = 4998int;
    let n = 4999int;
    lemma_start(g, n);
    let (e, x) = (0nat, 1int);
    let (e, x) = lemma_step(g, n, e, x, true);
    assert(x == 4998int);
    let (e, x) = lemma_step(g, n, e, x, false);
    assert(x == 1int);
    assert(e == 2nat);
}

/// 4999 is prime: 3 generates the residues modulo 4999 other than zero.
pub proof fn lemma_prime_4999()
    ensures
        all_units(4999int),
        fermat(4999int),
{
    let g = 3int;
    let n = 4999int;
    let ps = seq![2int, 3int, 7int, 17int];
    lemma_two();
    lemma_prime_3();
    lemma_prime_7();
    lemma_prime_17();
    lemma_cover_one(ps);
    lemma_cover_step(1int, 2int, ps, 0);
    assert(2int * 1int == 2int);
    assert(factors_cover(2int, ps));
    lemma_cover_step(2int, 3int, ps, 1);
    assert(3int * 2int == 6int);
    assert(factors_cover(6int, ps));
    lemma_cover_step(6int, 7int, ps, 2);
    assert(7int * 6int == 42int);
    assert(factors_cover(42int, ps));
    lemma_cover_step(42int, 7int, ps, 2);
    assert(7int * 42int == 294int);
    assert(factors_cover(294int, ps));
    lemma_cover_step(294int, 17int, ps, 3);
    assert(17int * 294int == 4998int);
    assert(factors_cover(4998int, ps));
    lemma_power_4999_0();
    lemma_power_4999_1();
    lemma_pow_compose(g, 7nat, 42nat, n);
    assert(7nat * 42nat == 294nat);
    assert(pow(g, 294nat) % n == 2420int);
    lemma_power_4999_2();
    lemma_pow_compose(g, 7nat, 17nat, n);
    assert(7nat * 17nat == 119nat);
    assert(pow(g, 119nat) % n == 4284int);
    lemma_power_4999_3();
    lemma_pow_compose(g, 119nat, 6nat, n);
    assert(119nat * 6nat == 714nat);
    assert(pow(g, 714nat) % n == 227int);
    lemma_power_4999_4();
    lemma_pow_compose(g, 119nat, 7nat, n);
    assert(119nat * 7nat == 833nat);
    assert(pow(g, 833nat) % n == 2662int);
    lemma_power_4999_5();
    lemma_pow_compose(g, 833nat, 3nat, n);
    assert(833nat * 3nat == 2499nat);
    assert(pow(g, 2499nat) % n == 4998int);
    lemma_power_4999_6();
    lemma_pow_compose(g, 833nat, 2nat, n);
    assert(833nat * 2nat == 1666nat);
    assert(pow(g, 1666nat) % n == 2661int);
    lemma_power_4999_7();
    lemma_pow_compose(g, 2499nat, 2nat, n);
    assert(2499nat * 2nat == 4998nat);
    assert(pow(g, 4998nat) % n == 1);
    assert forall|i: int| 0 <= i < ps.len() implies (#[trigger] ps[i]) > 1 && (n - 1) % ps[i] == 0
        && pow(g, ((n - 1) / ps[i]) as nat) % n != 1 by {
        if i == 0 {
            assert(ps[0] == 2int);
            assert(4998int % 2int == 0);
            assert(4998int / 2int == 2499int);
        }
        if i == 1 {
            assert(ps[1] == 3int);
            assert(4998int % 3int == 0);
            assert(4998int / 3int == 1666int);
        }
        if i == 2 {
            assert(ps[2] == 7int);
            assert(4998int % 7int == 0);
            assert(4998int / 7int == 714int);
        }
        if i == 3 {
            assert(ps[3] == 17int);
            assert(4998int % 17int == 0);
            assert(4998int / 17int == 294int);
        }
    }
    lemma_lucas(n, g, ps);
}

/// A power modulo 5501.
proof fn lemma_power_5501_0()
    ensures
        pow(2int, 50nat) % 5501int == 4219int,
{
    let g = 2int;
    let n = 5501int;
    lemma_start(g, n);
    let (e, x) = (0nat, 1int);
    let (e, x) = lemma_step(g, n, e, x, true);
    assert(x == 2int);
    let (e, x) = lemma_step(g, n, e, x, true);
    assert(x == 8int);
    let (e, x) = lemma_step(g, n, e, x, false);
    assert(x == 64int);
    let (e, x) = lemma_step(g, n, e, x, false);
    assert(x == 4096int);
    let (e, x) = lemma_step(g, n, e, x, true);
    assert(x == 3833int);
    let (e, x) = lemma_step(g, n, e, x, false);
    assert(x == 4219int);
    assert(e == 50nat);
}

/// A power modulo 5501.
proof fn lemma_power_5501_1()
    ensures
        pow(4219int, 10nat) % 5501int == 4772int,
{
    let g = 4219int;
    let n = 5501int;
    lemma_start(g, n);
    let (e, x) = (0nat, 1int);
    let (e, x) = lemma_step(g, n, e, x, true);
    assert(x == 4219int);
    let (e, x) = lemma_step(g, n, e, x, false);
    assert(x == 4226int);
    let (e, x) = lemma_step(g, n, e, x, true);
    assert(x == 2600int);
    let (e, x) = lemma_step(g, n, e, x, false);
    assert(x == 4772int);
    assert(e == 10nat);
}

/// A power modulo 5501.
proof fn lemma_power_5501_2()
    ensures
        pow(4219int, 11nat) % 5501int == 4909int,
{
    let g = 4219int;
    let n = 5501int;
    lemma_start(g, n);
    let (e, x) = (0nat, 1int);
    let (e, x) = lemma_step(g, n, e, x, true);
    assert(x == 4219int);
    let (e, x) = lemma_step(g, n, e, x, false);
    assert(x == 4226int);
    let (e, x) = lemma_step(g, n, e, x, true);
    assert(x == 2600int);
    let (e, x) = lemma_step(g, n, e, x, true);
    assert(x == 4909int);
    assert(e == 11nat);
}

/// A power modulo 5501.
proof fn lemma_power_5501_3()
    ensures
        pow(4909int, 5nat) % 5501int == 5500int,
{
    let g = 4909int;
    let n = 5501int;
    lemma_start(g, n);
    let (e, x) = (0nat, 1int);
    let (e, x) = lemma_step(g, n, e, x, true);
    assert(x == 4909int);
    let (e, x) = lemma_step(g, n, e, x, false);
    assert(x == 3901int);
    let (e, x) = lemma_step(g, n, e, x, true);
    assert(x == 5500int);
    assert(e == 5nat);
}

/// A power modulo 5501.
proof fn lemma_power_5501_4()
    ensures
        pow(4909int, 2nat) % 5501int == 3901int,
{
    let g = 4909int;
    let n = 5501int;
    lemma_start(g, n);
    let (e, x) = (0nat, 1int);
    let (e, x) = lemma_step(g, n, e, x, true);
    assert(x == 4909int);
    let (e, x) = lemma_step(g, n, e, x, false);
    assert(x == 3901int);
    assert(e == 2nat);
}

/// A power modulo 5501.
proof fn lemma_power_5501_5()
    ensures
        pow(5500int, 2nat) % 5501int == 1int,
{
    let g = 5500int;
    let n = 5501int;
    lemma_start(g, n);
    let (e, x) = (0nat, 1int);
    let (e, x) = lemma_step(g, n, e, x, true);
    assert(x == 5500int);
    let (e, x) = lemma_step(g, n, e, x, false);
    assert(x == 1int);
    assert(e == 2nat);
}

/// 5501 is prime: 2 generates the residues modulo 5501 other than zero.
pub proof fn lemma_prime_5501()
    ensures
        all_units(5501int),
        fermat(5501int),
{
    let g = 2int;
    let n = 5501int;
    let ps = seq![2int, 5int, 11int];
    lemma_two();
    lemma_prime_5();
    lemma_prime_11();
    lemma_cover_one(ps);
    lemma_cover_step(1int, 2int, ps, 0);
    assert(2int * 1int == 2int);
    assert(factors_cover(2int, ps));
    lemma_cover_step(2int, 2int, ps, 0);
    assert(2int * 2int == 4int);
    assert(factors_cover(4int, ps));
    lemma_cover_step(4int, 5int, ps, 1);
    assert(5int * 4int == 20int);
    assert(factors_cover(20int, ps));
    lemma_cover_step(20int, 5int, ps, 1);
    assert(5int * 20int == 100int);
    assert(factors_cover(100int, ps));
    lemma_cover_step(100int, 5int, ps, 1);
    assert(5int * 100int == 500int);
    assert(factors_cover(500int, ps));
    lemma_cover_step(500int, 11int, ps, 2);
    assert(11int * 500int == 5500int);
    assert(factors_cover(5500int, ps));
    lemma_power_5501_0();
    lemma_power_5501_1();
    lemma_pow_compose(g, 50nat, 10nat, n);
    assert(50nat * 10nat == 500nat);
    assert(pow(g, 500nat) % n == 4772int);
    lemma_power_5501_2();
    lemma_pow_compose(g, 50nat, 11nat, n);
    assert(50nat * 11nat == 550nat);
    assert(pow(g, 550nat) % n == 4909int);
    lemma_power_5501_3();
    lemma_pow_compose(g, 550nat, 5nat, n);
    assert(550nat * 5nat == 2750nat);
    assert(pow(g, 2750nat) % n == 5500int);
    lemma_power_5501_4();
    lemma_pow_compose(g, 550nat, 2nat, n);
    assert(550nat * 2nat == 1100nat);
    assert(pow(g, 1100nat) % n == 3901int);
    lemma_power_5501_5();
    lemma_pow_compose(g, 2750nat, 2nat, n);
    assert(2750nat * 2nat == 5500nat);
    assert(pow(g, 5500nat) % n == 1);
    assert forall|i: int| 0 <= i < ps.len() implies (#[trigger] ps[i]) > 1 && (n - 1) % ps[i] == 0
        && pow(g, ((n - 1) / ps[i]) as nat) % n != 1 by {
        if i == 0 {
            assert(ps[0] == 2int);
            assert(5500int % 2int == 0);
            assert(5500int / 2int == 2750int);
        }
        if i == 1 {
            assert(ps[1] == 5int);
            assert(5500int % 5int == 0);
            assert(5500int / 5int == 1100int);
        }
        if i == 2 {
            assert(ps[2] == 11int);
            assert(5500int % 11int == 0);
            assert(5500int / 11int == 500int);
        }
    }
    lemma_lucas(n, g, ps);
}

/// A power modulo 11003.
proof fn lemma_power_11003_0()
    ensures
        pow(2int, 1nat) % 11003int == 2int,
{
    let g = 2int;
    let n = 11003int;
    lemma_start(g, n);
    let (e, x) = (0nat, 1int);
    let (e, x) = lemma_step(g, n, e, x, true);
    assert(x == 2int);
    assert(e == 1nat);
}

/// A power modulo 11003.
proof fn lemma_power_11003_1()
    ensures
        pow(2int, 5501nat) % 11003int == 11002int,
{
    let g = 2int;
    let n = 11003int;
    lemma_start(g, n);
    let (e, x) = (0nat, 1int);
    let (e, x) = lemma_step(g, n, e, x, true);
    assert(x == 2int);
    let (e, x) = lemma_step(g, n, e, x, false);
    assert(x == 4int);
    let (e, x) = lemma_step(g, n, e, x, true);
    assert(x == 32int);
    let (e, x) = lemma_step(g, n, e, x, false);
    assert(x == 1024int);
    let (e, x) = lemma_step(g, n, e, x, true);
    assert(x == 6582int);
    let (e, x) = lemma_step(g, n, e, x, false);
    assert(x == 3913int);
    let (e, x) = lemma_step(g, n, e, x, true);
    assert(x == 1789int);
    let (e, x) = lemma_step(g, n, e, x, true);
    assert(x == 8299int);
    let (e, x) = lemma_step(g, n, e, x, true);
    assert(x == 245int);
    let (e, x) = lemma_step(g, n, e, x, true);
    assert(x == 10020int);
    let (e, x) = lemma_step(g, n, e, x, true);
    assert(x == 7053int);
    let (e, x) = lemma_step(g, n, e, x, false);
    assert(x == 246int);
    let (e, x) = lemma_step(g, n, e, x, true);
    assert(x == 11002int);
    assert(e == 5501nat);
}

/// A power modulo 11003.
proof fn lemma_power_11003_2()
    ensures
        pow(2int, 2nat) % 11003int == 4int,
{
    let g = 2int;
    let n = 11003int;
    lemma_start(g, n);
    let (e, x) = (0nat, 1int);
    let (e, x) = lemma_step(g, n, e, x, true);
    assert(x == 2int);
    let (e, x) = lemma_step(g, n, e, x, false);
    assert(x == 4int);
    assert(e == 2nat);
}

/// A power modulo 11003.
proof fn lemma_power_11003_3()
    ensures
        pow(11002int, 2nat) % 11003int == 1int,
{
    let g = 11002int;
    let n = 11003int;
    lemma_start(g, n);
    let (e, x) = (0nat, 1int);
    let (e, x) = lemma_step(g, n, e, x, true);
    assert(x == 11002int);
    let (e, x) = lemma_step(g, n, e, x, false);
    assert(x == 1int);
    assert(e == 2nat);
}

/// 11003 is prime: 2 generates the residues modulo 11003 other than zero.
pub proof fn lemma_prime_11003()
    ensures
        all_units(11003int),
        fermat(11003int),
{
    let g = 2int;
    let n = 11003int;
    let ps = seq![2int, 5501int];
    lemma_two();
    lemma_prime_5501();
    lemma_cover_one(ps);
    lemma_cover_step(1int, 2int, ps, 0);
    assert(2int * 1int == 2int);
    assert(factors_cover(2int, ps));
    lemma_cover_step(2int, 5501int, ps, 1);
    assert(5501int * 2int == 11002int);
    assert(factors_cover(11002int, ps));
    lemma_power_11003_0();
    lemma_power_11003_1();
    lemma_pow_compose(g, 1nat, 5501nat, n);
    assert(1nat * 5501nat == 5501nat);
    assert(pow(g, 5501nat) % n == 11002int);
    lemma_power_11003_2();
    lemma_pow_compose(g, 1nat, 2nat, n);
    assert(1nat * 2nat == 2nat);
    assert(pow(g, 2nat) % n == 4int);
    lemma_power_11003_3();
    lemma_pow_compose(g, 5501nat, 2nat, n);
    assert(5501nat * 2nat == 11002nat);
    assert(pow(g, 11002nat) % n == 1);
    assert forall|i: int| 0 <= i < ps.len() implies (#[trigger] ps[i]) > 1 && (n - 1) % ps[i] == 0
        && pow(g, ((n - 1) / ps[i]) as nat) % n != 1 by {
        if i == 0 {
            assert(ps[0] == 2int);
            assert(11002int % 2int == 0);
            assert(11002int / 2int == 5501int);
        }
        if i == 1 {
            assert(ps[1] == 5501int);
            assert(11002int % 5501int == 0);
            assert(11002int / 5501int == 2int);
        }
    }
    lemma_lucas(n, g, ps);
}

/// A power modulo 13327.
proof fn lemma_power_13327_0()
    ensures
        pow(3int, 1nat) % 13327int == 3int,
{
    let g = 3int;
    let n = 13327int;
    lemma_start(g, n);
    let (e, x) = (0nat, 1int);
    let (e, x) = lemma_step(g, n, e, x, true);
    assert(x == 3int);
    assert(e == 1nat);
}

/// A power modulo 13327.
proof fn lemma_power_13327_1()
    ensures
        pow(3int, 2221nat) % 13327int == 3143int,
{
    let g = 3int;
    let n = 13327int;
    lemma_start(g, n);
    let (e, x) = (0nat, 1int);
    let (e, x) = lemma_step(g, n, e, x, true);
    assert(x == 3int);
    let (e, x) = lemma_step(g, n, e, x, false);
    assert(x == 9int);
    let (e, x) = lemma_step(g, n, e, x, false);
    assert(x == 81int);
    let (e, x) = lemma_step(g, n, e, x, false);
    assert(x == 6561int);
    let (e, x) = lemma_step(g, n, e, x, true);
    assert(x == 1533int);
    let (e, x) = lemma_step(g, n, e, x, false);
    assert(x == 4537int);
    let (e, x) = lemma_step(g, n, e, x, true);
    assert(x == 9116int);
    let (e, x) = lemma_step(g, n, e, x, false);
    assert(x == 7611int);
    let (e, x) = lemma_step(g, n, e, x, true);
    assert(x == 11210int);
    let (e, x) = lemma_step(g, n, e, x, true);
    assert(x == 11451int);
    let (e, x) = lemma_step(g, n, e, x, false);
    assert(x == 1048int);
    let (e, x) = lemma_step(g, n, e, x, true);
    assert(x == 3143int);
    assert(e == 2221nat);
}

/// A power modulo 13327.
proof fn lemma_power_13327_2()
    ensures
        pow(3143int, 3nat) % 13327int == 13326int,
{
    let g = 3143int;
    let n = 13327int;
    lemma_start(g, n);
    let (e, x) = (0nat, 1int);
    let (e, x) = lemma_step(g, n, e, x, true);
    assert(x == 3143int);
    let (e, x) = lemma_step(g, n, e, x, true);
    assert(x == 13326int);
    assert(e == 3nat);
}

/// A power modulo 13327.
proof fn lemma_power_13327_3()
    ensures
        pow(3143int, 2nat) % 13327int == 3142int,
{
    let g = 3143int;
    let n = 13327int;
    lemma_start(g, n);
    let (e, x) = (0nat, 1int);
    let (e, x) = lemma_step(g, n, e, x, true);
    assert(x == 3143int);
    let (e, x) = lemma_step(g, n, e, x, false);
    assert(x == 3142int);
    assert(e == 2nat);
}

/// A power modulo 13327.
proof fn lemma_power_13327_4()
    ensures
        pow(3int, 6nat) % 13327int == 729int,
{
    let g = 3int;
    let n = 13327int;
    lemma_start(g, n);
    let (e, x) = (0nat, 1int);
    let (e, x) = lemma_step(g, n, e, x, true);
    assert(x == 3int);
    let (e, x) = lemma_step(g, n, e, x, true);
    assert(x == 27int);
    let (e, x) = lemma_step(g, n, e, x, false);
    assert(x == 729int);
    assert(e == 6nat);
}

/// A power modulo 13327.
proof fn lemma_power_13327_5()
    ensures
        pow(13326int, 2nat) % 13327int == 1int,
{
    let g = 13326int;
    let n = 13327int;
    lemma_start(g, n);
    let (e, x) = (0nat, 1int);
    let (e, x) = lemma_step(g, n, e, x, true);
    assert(x == 13326int);
    let (e, x) = lemma_step(g, n, e, x, false);
    assert(x == 1int);
    assert(e == 2nat);
}

/// 13327 is prime: 3 generates the residues modulo 13327 other than zero.
pub proof fn lemma_prime_13327()
    ensures
        all_units(13327int),
        fermat(13327int),
{
    let g = 3int;
    let n = 13327int;
    let ps = seq![2int, 3int, 2221int];
    lemma_two();
    lemma_prime_3();
    lemma_prime_2221();
    lemma_cover_one(ps);
    lemma_cover_step(1int, 2int, ps, 0);
    assert(2int * 1int == 2int);
    assert(factors_cover(2int, ps));
    lemma_cover_step(2int, 3int, ps, 1);
    assert(3int * 2int == 6int);
    assert(factors_cover(6int, ps));
    lemma_cover_step(6int, 2221int, ps, 2);
    assert(2221int * 6int == 13326int);
    assert(factors_cover(13326int, ps));
    lemma_power_13327_0();
    lemma_power_13327_1();
    lemma_pow_compose(g, 1nat, 2221nat, n);
    assert(1nat * 2221nat == 2221nat);
    assert(pow(g, 2221nat) % n == 3143int);
    lemma_power_13327_2();
    lemma_pow_compose(g, 2221nat, 3nat, n);
    assert(2221nat * 3nat == 6663nat);
    assert(pow(g, 6663nat) % n == 13326int);
    lemma_power_13327_3();
    lemma_pow_compose(g, 2221nat, 2nat, n);
    assert(2221nat * 2nat == 4442nat);
    assert(pow(g, 4442nat) % n == 3142int);
    lemma_power_13327_4();
    lemma_pow_compose(g, 1nat, 6nat, n);
    assert(1nat * 6nat == 6nat);
    assert(pow(g, 6nat) % n == 729int);
    lemma_power_13327_5();
    lemma_pow_compose(g, 6663nat, 2nat, n);
    assert(6663nat * 2nat == 13326nat);
    assert(pow(g, 13326nat) % n == 1);
    assert forall|i: int| 0 <= i < ps.len() implies (#[trigger] ps[i]) > 1 && (n - 1) % ps[i] == 0
        && pow(g, ((n - 1) / ps[i]) as nat) % n != 1 by {
        if i == 0 {
            assert(ps[0] == 2int);
            assert(13326int % 2int == 0);
            assert(13326int / 2int == 6663int);
        }
        if i == 1 {
            assert(ps[1] == 3int);
            assert(13326int % 3int == 0);
            assert(13326int / 3int == 4442int);
        }
        if i == 2 {
            assert(ps[2] == 2221int);
            assert(13326int % 2221int == 0);
            assert(13326int / 2221int == 6int);
        }
    }
    lemma_lucas(n, g, ps);
}

/// A power modulo 327599.
proof fn lemma_power_327599_0()
    ensures
        pow(19int, 1nat) % 327599int == 19int,
{
    let g = 19int;
    let n = 327599int;
    lemma_start(g, n);
    let (e, x) = (0nat, 1int);
    let (e, x) = lemma_step(g, n, e, x, true);
    assert(x == 19int);
    assert(e == 1nat);
}

/// A power modulo 327599.
proof fn lemma_power_327599_1()
    ensures
        pow(19int, 1406nat) % 327599int == 110252int,
{
    let g = 19int;
    let n = 327599int;
    lemma_start(g, n);
    let (e, x) = (0nat, 1int);
    let (e, x) = lemma_step(g, n, e, x, true);
    assert(x == 19int);
    let (e, x) = lemma_step(g, n, e, x, false);
    assert(x == 361int);
    let (e, x) = lemma_step(g, n, e, x, true);
    assert(x == 182906int);
    let (e, x) = lemma_step(g, n, e, x, false);
    assert(x == 194956int);
    let (e, x) = lemma_step(g, n, e, x, true);
    assert(x == 244352int);
    let (e, x) = lemma_step(g, n, e, x, true);
    assert(x == 313898int);
    let (e, x) = lemma_step(g, n, e, x, true);
    assert(x == 60306int);
    let (e, x) = lemma_step(g, n, e, x, true);
    assert(x == 312410int);
    let (e, x) = lemma_step(g, n, e, x, true);
    assert(x == 134079int);
    let (e, x) = lemma_step(g, n, e, x, true);
    assert(x == 203214int);
    let (e, x) = lemma_step(g, n, e, x, false);
    assert(x == 110252int);
    assert(e == 1406nat);
}

/// A power modulo 327599.
proof fn lemma_power_327599_2()
    ensures
        pow(19int, 233nat) % 327599int == 275692int,
{
    let g = 19int;
    let n = 327599int;
    lemma_start(g, n);
    let (e, x) = (0nat, 1int);
    let (e, x) = lemma_step(g, n, e, x, true);
    assert(x == 19int);
    let (e, x) = lemma_step(g, n, e, x, true);
    assert(x == 6859int);
    let (e, x) = lemma_step(g, n, e, x, true);
    assert(x == 181667int);
    let (e, x) = lemma_step(g, n, e, x, false);
    assert(x == 248030int);
    let (e, x) = lemma_step(g, n, e, x, true);
    assert(x == 247055int);
    let (e, x) = lemma_step(g, n, e, x, false);
    assert(x == 220538int);
    let (e, x) = lemma_step(g, n, e, x, false);
    assert(x == 23909int);
    let (e, x) = lemma_step(g, n, e, x, true);
    assert(x == 275692int);
    assert(e == 233nat);
}

/// A power modulo 327599.
proof fn lemma_power_327599_3()
    ensures
        pow(275692int, 38nat) % 327599int == 283020int,
{
    let g = 275692int;
    let n = 327599int;
    lemma_start(g, n);
    let (e, x) = (0nat, 1int);
    let (e, x) = lemma_step(g, n, e, x, true);
    assert(x == 275692int);
    let (e, x) = lemma_step(g, n, e, x, false);
    assert(x == 162473int);
    let (e, x) = lemma_step(g, n, e, x, false);
    assert(x == 203507int);
    let (e, x) = lemma_step(g, n, e, x, true);
    assert(x == 309713int);
    let (e, x) = lemma_step(g, n, e, x, true);
    assert(x == 70484int);
    let (e, x) = lemma_step(g, n, e, x, false);
    assert(x == 283020int);
    assert(e == 38nat);
}

/// A power modulo 327599.
proof fn lemma_power_327599_4()
    ensures
        pow(275692int, 37nat) % 327599int == 131534int,
{
    let g = 275692int;
    let n = 327599int;
    lemma_start(g, n);
    let (e, x) = (0nat, 1int);
    let (e, x) = lemma_step(g, n, e, x, true);
    assert(x == 275692int);
    let (e, x) = lemma_step(g, n, e, x, false);
    assert(x == 162473int);
    let (e, x) = lemma_step(g, n, e, x, false);
    assert(x == 203507int);
    let (e, x) = lemma_step(g, n, e, x, true);
    assert(x == 309713int);
    let (e, x) = lemma_step(g, n, e, x, false);
    assert(x == 172372int);
    let (e, x) = lemma_step(g, n, e, x, true);
    assert(x == 131534int);
    assert(e == 37nat);
}

/// A power modulo 327599.
proof fn lemma_power_327599_5()
    ensures
        pow(131534int, 19nat) % 327599int == 327598int,
{
    let g = 131534int;
    let n = 327599int;
    lemma_start(g, n);
    let (e, x) = (0nat, 1int);
    let (e, x) = lemma_step(g, n, e, x, true);
    assert(x == 131534int);
    let (e, x) = lemma_step(g, n, e, x, false);
    assert(x == 34768int);
    let (e, x) = lemma_step(g, n, e, x, false);
    assert(x == 301113int);
    let (e, x) = lemma_step(g, n, e, x, true);
    assert(x == 325431int);
    let (e, x) = lemma_step(g, n, e, x, true);
    assert(x == 327598int);
    assert(e == 19nat);
}

/// A power modulo 327599.
proof fn lemma_power_327599_6()
    ensures
        pow(131534int, 2nat) % 327599int == 34768int,
{
    let g = 131534int;
    let n = 327599int;
    lemma_start(g, n);
    let (e, x) = (0nat, 1int);
    let (e, x) = lemma_step(g, n, e, x, true);
    assert(x == 131534int);
    let (e, x) = lemma_step(g, n, e, x, false);
    assert(x == 34768int);
    assert(e == 2nat);
}

/// A power modulo 327599.
proof fn lemma_power_327599_7()
    ensures
        pow(327598int, 2nat) % 327599int == 1int,
{
    let g = 327598int;
    let n = 327599int;
    lemma_start(g, n);
    let (e, x) = (0nat, 1int);
    let (e, x) = lemma_step(g, n, e, x, true);
    assert(x == 327598int);
    let (e, x) = lemma_step(g, n, e, x, false);
    assert(x == 1int);
    assert(e == 2nat);
}

/// 327599 is prime: 19 generates the residues modulo 327599 other than zero.
pub proof fn lemma_prime_327599()
    ensures
        all_units(327599int),
        fermat(327599int),
{
    let g = 19int;
    let n = 327599int;
    let ps = seq![2int, 19int, 37int, 233int];
    lemma_two();
    lemma_prime_19();
    lemma_prime_37();
    lemma_prime_233();
    lemma_cover_one(ps);
    lemma_cover_step(1int, 2int, ps, 0);
    assert(2int * 1int == 2int);
    assert(factors_cover(2int, ps));
    lemma_cover_step(2int, 19int, ps, 1);
    assert(19int * 2int == 38int);
    assert(factors_cover(38int, ps));
    lemma_cover_step(38int, 37int, ps, 2);
    assert(37int * 38int == 1406int);
    assert(factors_cover(1406int, ps));
    lemma_cover_step(1406int, 233int, ps, 3);
    assert(233int * 1406int == 327598int);
    assert(factors_cover(327598int, ps));
    lemma_power_327599_0();
    lemma_power_327599_1();
    lemma_pow_compose(g, 1nat, 1406nat, n);
    assert(1nat * 1406nat == 1406nat);
    assert(pow(g, 1406nat) % n == 110252int);
    lemma_power_327599_2();
    lemma_pow_compose(g, 1nat, 233nat, n);
    assert(1nat * 233nat == 233nat);
    assert(pow(g, 233nat) % n == 275692int);
    lemma_power_327599_3();
    lemma_pow_compose(g, 233nat, 38nat, n);
    assert(233nat * 38nat == 8854nat);
    assert(pow(g, 8854nat) % n == 283020int);
    lemma_power_327599_4();
    lemma_pow_compose(g, 233nat, 37nat, n);
    assert(233nat * 37nat == 8621nat);
    assert(pow(g, 8621nat) % n == 131534int);
    lemma_power_327599_5();
    lemma_pow_compose(g, 8621nat, 19nat, n);
    assert(8621nat * 19nat == 163799nat);
    assert(pow(g, 163799nat) % n == 327598int);
    lemma_power_327599_6();
    lemma_pow_compose(g, 8621nat, 2nat, n);
    assert(8621nat * 2nat == 17242nat);
    assert(pow(g, 17242nat) % n == 34768int);
    lemma_power_327599_7();
    lemma_pow_compose(g, 163799nat, 2nat, n);
    assert(163799nat * 2nat == 327598nat);
    assert(pow(g, 327598nat) % n == 1);
    assert forall|i: int| 0 <= i < ps.len() implies (#[trigger] ps[i]) > 1 && (n - 1) % ps[i] == 0
        && pow(g, ((n - 1) / ps[i]) as nat) % n != 1 by {
        if i == 0 {
            assert(ps[0] == 2int);
            assert(327598int % 2int == 0);
            assert(327598int / 2int == 163799int);
        }
        if i == 1 {
            assert(ps[1] == 19int);
            assert(327598int % 19int == 0);
            assert(327598int / 19int == 17242int);
        }
        if i == 2 {
            assert(ps[2] == 37int);
            assert(327598int % 37int == 0);
            assert(327598int / 37int == 8854int);
        }
        if i == 3 {
            assert(ps[3] == 233int);
            assert(327598int % 233int == 0);
            assert(327598int / 233int == 1406int);
        }
    }
    lemma_lucas(n, g, ps);
}

/// A power modulo 0x1c48c9.
proof fn lemma_power_1853641_0()
    ensures
        pow(17int, 12nat) % 0x1c48c9int == 707103int,
{
    let g = 17int;
    let n = 0x1c48c9int;
    lemma_start(g, n);
    let (e, x) = (0nat, 1int);
    let (e, x) = lemma_step(g, n, e, x, true);
    assert(x == 17int);
    let (e, x) = lemma_step(g, n, e, x, true);
    assert(x == 4913int);
    let (e, x) = lemma_step(g, n, e, x, false);
    assert(x == 40236int);
    let (e, x) = lemma_step(g, n, e, x, false);
    assert(x == 707103int);
    assert(e == 12nat);
}

/// A power modulo 0x1c48c9.
proof fn lemma_power_1853641_1()
    ensures
        pow(707103int, 570nat) % 0x1c48c9int == 763656int,
{
    let g = 707103int;
    let n = 0x1c48c9int;
    lemma_start(g, n);
    let (e, x) = (0nat, 1int);
    let (e, x) = lemma_step(g, n, e, x, true);
    assert(x == 707103int);
    let (e, x) = lemma_step(g, n, e, x, false);
    assert(x == 943833int);
    let (e, x) = lemma_step(g, n, e, x, false);
    assert(x == 0x19231fint);
    let (e, x) = lemma_step(g, n, e, x, false);
    assert(x == 0x1a1320int);
    let (e, x) = lemma_step(g, n, e, x, true);
    assert(x == 0x105792int);
    let (e, x) = lemma_step(g, n, e, x, true);
    assert(x == 0x1bdbb0int);
    let (e, x) = lemma_step(g, n, e, x, true);
    assert(x == 595951int);
    let (e, x) = lemma_step(g, n, e, x, false);
    assert(x == 0x1bf5faint);
    let (e, x) = lemma_step(g, n, e, x, true);
    assert(x == 0x181486int);
    let (e, x) = lemma_step(g, n, e, x, false);
    assert(x == 763656int);
    assert(e == 570nat);
}

/// A power modulo 0x1c48c9.
proof fn lemma_power_1853641_2()
    ensures
        pow(707103int, 271nat) % 0x1c48c9int == 956606int,
{
    let g = 707103int;
    let n = 0x1c48c9int;
    lemma_start(g, n);
    let (e, x) = (0nat, 1int);
    let (e, x) = lemma_step(g, n, e, x, true);
    assert(x == 707103int);
    let (e, x) = lemma_step(g, n, e, x, false);
    assert(x == 943833int);
    let (e, x) = lemma_step(g, n, e, x, false);
    assert(x == 0x19231fint);
    let (e, x) = lemma_step(g, n, e, x, false);
    assert(x == 0x1a1320int);
    let (e, x) = lemma_step(g, n, e, x, false);
    assert(x == 0x1337e1int);
    let (e, x) = lemma_step(g, n, e, x, true);
    assert(x == 0x146b31int);
    let (e, x) = lemma_step(g, n, e, x, true);
    assert(x == 403628int);
    let (e, x) = lemma_step(g, n, e, x, true);
    assert(x == 340889int);
    let (e, x) = lemma_step(g, n, e, x, true);
    assert(x == 956606int);
    assert(e == 271nat);
}

/// A power modulo 0x1c48c9.
proof fn lemma_power_1853641_3()
    ensures
        pow(956606int, 30nat) % 0x1c48c9int == 0x1b77deint,
{
    let g = 956606int;
    let n = 0x1c48c9int;
    lemma_start(g, n);
    let (e, x) = (0nat, 1int);
    let (e, x) = lemma_step(g, n, e, x, true);
    assert(x == 956606int);
    let (e, x) = lemma_step(g, n, e, x, true);
    assert(x == 696230int);
    let (e, x) = lemma_step(g, n, e, x, true);
    assert(x == 895574int);
    let (e, x) = lemma_step(g, n, e, x, true);
    assert(x == 680421int);
    let (e, x) = lemma_step(g, n, e, x, false);
    assert(x == 0x1b77deint);
    assert(e == 30nat);
}

/// A power modulo 0x1c48c9.
proof fn lemma_power_1853641_4()
    ensures
        pow(956606int, 19nat) % 0x1c48c9int == 0x11243eint,
{
    let g = 956606int;
    let n = 0x1c48c9int;
    lemma_start(g, n);
    let (e, x) = (0nat, 1int);
    let (e, x) = lemma_step(g, n, e, x, true);
    assert(x == 956606int);
    let (e, x) = lemma_step(g, n, e, x, false);
    assert(x == 672202int);
    let (e, x) = lemma_step(g, n, e, x, false);
    assert(x == 876798int);
    let (e, x) = lemma_step(g, n, e, x, true);
    assert(x == 0x16e373int);
    let (e, x) = lemma_step(g, n, e, x, true);
    assert(x == 0x11243eint);
    assert(e == 19nat);
}

/// A power modulo 0x1c48c9.
proof fn lemma_power_1853641_5()
    ensures
        pow(0x11243eint, 6nat) % 0x1c48c9int == 0x13c136int,
{
    let g = 0x11243eint;
    let n = 0x1c48c9int;
    lemma_start(g, n);
    let (e, x) = (0nat, 1int);
    let (e, x) = lemma_step(g, n, e, x, true);
    assert(x == 0x11243eint);
    let (e, x) = lemma_step(g, n, e, x, true);
    assert(x == 0x15c1c2int);
    let (e, x) = lemma_step(g, n, e, x, false);
    assert(x == 0x13c136int);
    assert(e == 6nat);
}

/// A power modulo 0x1c48c9.
proof fn lemma_power_1853641_6()
    ensures
        pow(0x11243eint, 5nat) % 0x1c48c9int == 536486int,
{
    let g = 0x11243eint;
    let n = 0x1c48c9int;
    lemma_start(g, n);
    let (e, x) = (0nat, 1int);
    let (e, x) = lemma_step(g, n, e, x, true);
    assert(x == 0x11243eint);
    let (e, x) = lemma_step(g, n, e, x, false);
    assert(x == 0x1ba5ccint);
    let (e, x) = lemma_step(g, n, e, x, true);
    assert(x == 536486int);
    assert(e == 5nat);
}

/// A power modulo 0x1c48c9.
proof fn lemma_power_1853641_7()
    ensures
        pow(536486int, 3nat) % 0x1c48c9int == 0x1c48c8int,
{
    let g = 536486int;
    let n = 0x1c48c9int;
    lemma_start(g, n);
    let (e, x) = (0nat, 1int);
    let (e, x) = lemma_step(g, n, e, x, true);
    assert(x == 536486int);
    let (e, x) = lemma_step(g, n, e, x, true);
    assert(x == 0x1c48c8int);
    assert(e == 3nat);
}

/// A power modulo 0x1c48c9.
proof fn lemma_power_1853641_8()
    ensures
        pow(536486int, 2nat) % 0x1c48c9int == 536485int,
{
    let g = 536486int;
    let n = 0x1c48c9int;
    lemma_start(g, n);
    let (e, x) = (0nat, 1int);
    let (e, x) = lemma_step(g, n, e, x, true);
    assert(x == 536486int);
    let (e, x) = lemma_step(g, n, e, x, false);
    assert(x == 536485int);
    assert(e == 2nat);
}

/// A power modulo 0x1c48c9.
proof fn lemma_power_1853641_9()
    ensures
        pow(0x1c48c8int, 2nat) % 0x1c48c9int == 1int,
{
    let g = 0x1c48c8int;
    let n = 0x1c48c9int;
    lemma_start(g, n);
    let (e, x) = (0nat, 1int);
    let (e, x) = lemma_step(g, n, e, x, true);
    assert(x == 0x1c48c8int);
    let (e, x) = lemma_step(g, n, e, x, false);
    assert(x == 1int);
    assert(e == 2nat);
}

/// 1853641 is prime: 17 generates the residues modulo 1853641 other than zero.
pub proof fn lemma_prime_1853641()
    ensures
        all_units(0x1c48c9int),
        fermat(0x1c48c9int),
{
    let g = 17int;
    let n = 0x1c48c9int;
    let ps = seq![2int, 3int, 5int, 19int, 271int];
    lemma_two();
    lemma_prime_3();
    lemma_prime_5();
    lemma_prime_19();
    lemma_prime_271();
    lemma_cover_one(ps);
    lemma_cover_step(1int, 2int, ps, 0);
    assert(2int * 1int == 2int);
    assert(factors_cover(2int, ps));
    lemma_cover_step(2int, 2int, ps, 0);
    assert(2int * 2int == 4int);
    assert(factors_cover(4int, ps));
    lemma_cover_step(4int, 2int, ps, 0);
    assert(2int * 4int == 8int);
    assert(factors_cover(8int, ps));
    lemma_cover_step(8int, 3int, ps, 1);
    assert(3int * 8int == 24int);
    assert(factors_cover(24int, ps));
    lemma_cover_step(24int, 3int, ps, 1);
    assert(3int * 24int == 72int);
    assert(factors_cover(72int, ps));
    lemma_cover_step(72int, 5int, ps, 2);
    assert(5int * 72int == 360int);
    assert(factors_cover(360int, ps));
    lemma_cover_step(360int, 19int, ps, 3);
    assert(19int * 360int == 6840int);
    assert(factors_cover(6840int, ps));
    lemma_cover_step(6840int, 271int, ps, 4);
    assert(271int * 6840int == 0x1c48c8int);
    assert(factors_cover(0x1c48c8int, ps));
    lemma_power_1853641_0();
    lemma_power_1853641_1();
    lemma_pow_compose(g, 12nat, 570nat, n);
    assert(12nat * 570nat == 6840nat);
    assert(pow(g, 6840nat) % n == 763656int);
    lemma_power_1853641_2();
    lemma_pow_compose(g, 12nat, 271nat, n);
    assert(12nat * 271nat == 3252nat);
    assert(pow(g, 3252nat) % n == 956606int);
    lemma_power_1853641_3();
    lemma_pow_compose(g, 3252nat, 30nat, n);
    assert(3252nat * 30nat == 97560nat);
    assert(pow(g, 97560nat) % n == 0x1b77deint);
    lemma_power_1853641_4();
    lemma_pow_compose(g, 3252nat, 19nat, n);
    assert(3252nat * 19nat == 61788nat);
    assert(pow(g, 61788nat) % n == 0x11243eint);
    lemma_power_1853641_5();
    lemma_pow_compose(g, 61788nat, 6nat, n);
    assert(61788nat * 6nat == 370728nat);
    assert(pow(g, 370728nat) % n == 0x13c136int);
    lemma_power_1853641_6();
    lemma_pow_compose(g, 61788nat, 5nat, n);
    assert(61788nat * 5nat == 308940nat);
    assert(pow(g, 308940nat) % n == 536486int);
    lemma_power_1853641_7();
    lemma_pow_compose(g, 308940nat, 3nat, n);
    assert(308940nat * 3nat == 926820nat);
    assert(pow(g, 926820nat) % n == 0x1c48c8int);
    lemma_power_1853641_8();
    lemma_pow_compose(g, 308940nat, 2nat, n);
    assert(308940nat * 2nat == 617880nat);
    assert(pow(g, 617880nat) % n == 536485int);
    lemma_power_1853641_9();
    lemma_pow_compose(g, 926820nat, 2nat, n);
    assert(926820nat * 2nat == 0x1c48c8nat);
    assert(pow(g, 0x1c48c8nat) % n == 1);
    assert forall|i: int| 0 <= i < ps.len() implies (#[trigger] ps[i]) > 1 && (n - 1) % ps[i] == 0
        && pow(g, ((n - 1) / ps[i]) as nat) % n != 1 by {
        if i == 0 {
            assert(ps[0] == 2int);
            assert(0x1c48c8int % 2int == 0);
            assert(0x1c48c8int / 2int == 926820int);
        }
        if i == 1 {
            assert(ps[1] == 3int);
            assert(0x1c48c8int % 3int == 0);
            assert(0x1c48c8int / 3int == 617880int);
        }
        if i == 2 {
            assert(ps[2] == 5int);
            assert(0x1c48c8int % 5int == 0);
            assert(0x1c48c8int / 5int == 370728int);
        }
        if i == 3 {
            assert(ps[3] == 19int);
            assert(0x1c48c8int % 19int == 0);
            assert(0x1c48c8int / 19int == 97560int);
        }
        if i == 4 {
            assert(ps[4] == 271int);
            assert(0x1c48c8int % 271int == 0);
            assert(0x1c48c8int / 271int == 6840int);
        }
    }
    lemma_lucas(n, g, ps);
}

/// A power modulo 0x459ca7.
proof fn lemma_power_4562087_0()
    ensures
        pow(5int, 1nat) % 0x459ca7int == 5int,
{
    let g = 5int;
    let n = 0x459ca7int;
    lemma_start(g, n);
    let (e, x) = (0nat, 1int);
    let (e, x) = lemma_step(g, n, e, x, true);
    assert(x == 5int);
    assert(e == 1nat);
}

/// A power modulo 0x459ca7.
proof fn lemma_power_4562087_1()
    ensures
        pow(5int, 3706nat) % 0x459ca7int == 0x43421bint,
{
    let g = 5int;
    let n = 0x459ca7int;
    lemma_start(g, n);
    let (e, x) = (0nat, 1int);
    let (e, x) = lemma_step(g, n, e, x, true);
    assert(x == 5int);
    let (e, x) = lemma_step(g, n, e, x, true);
    assert(x == 125int);
    let (e, x) = lemma_step(g, n, e, x, true);
    assert(x == 78125int);
    let (e, x) = lemma_step(g, n, e, x, false);
    assert(x == 0x3d1dbaint);
    let (e, x) = lemma_step(g, n, e, x, false);
    assert(x == 0x20bf59int);
    let (e, x) = lemma_step(g, n, e, x, true);
    assert(x == 9844int);
    let (e, x) = lemma_step(g, n, e, x, true);
    assert(x == 940458int);
    let (e, x) = lemma_step(g, n, e, x, true);
    assert(x == 0x185484int);
    let (e, x) = lemma_step(g, n, e, x, true);
    assert(x == 752501int);
    let (e, x) = lemma_step(g, n, e, x, false);
    assert(x == 0x248143int);
    let (e, x) = lemma_step(g, n, e, x, true);
    assert(x == 0x2cda16int);
    let (e, x) = lemma_step(g, n, e, x, false);
    assert(x == 0x43421bint);
    assert(e == 3706nat);
}

/// A power modulo 0x459ca7.
proof fn lemma_power_4562087_2()
    ensures
        pow(5int, 1231nat) % 0x459ca7int == 0x3824a8int,
{
    let g = 5int;
    let n = 0x459ca7int;
    lemma_start(g, n);
    let (e, x) = (0nat, 1int);
    let (e, x) = lemma_step(g, n, e, x, true);
    assert(x == 5int);
    let (e, x) = lemma_step(g, n, e, x, false);
    assert(x == 25int);
    let (e, x) = lemma_step(g, n, e, x, false);
    assert(x == 625int);
    let (e, x) = lemma_step(g, n, e, x, true);
    assert(x == 0x1dcd65int);
    let (e, x) = lemma_step(g, n, e, x, true);
    assert(x == 0x2a5e21int);
    let (e, x) = lemma_step(g, n, e, x, false);
    assert(x == 37928int);
    let (e, x) = lemma_step(g, n, e, x, false);
    assert(x == 0x1684c3int);
    let (e, x) = lemma_step(g, n, e, x, true);
    assert(x == 0x32468aint);
    let (e, x) = lemma_step(g, n, e, x, true);
    assert(x == 578813int);
    let (e, x) = lemma_step(g, n, e, x, true);
    assert(x == 0x193ca4int);
    let (e, x) = lemma_step(g, n, e, x, true);
    assert(x == 0x3824a8int);
    assert(e == 1231nat);
}

/// A power modulo 0x459ca7.
proof fn lemma_power_4562087_3()
    ensures
        pow(0x3824a8int, 34nat) % 0x459ca7int == 0x2b6a9fint,
{
    let g = 0x3824a8int;
    let n = 0x459ca7int;
    lemma_start(g, n);
    let (e, x) = (0nat, 1int);
    let (e, x) = lemma_step(g, n, e, x, true);
    assert(x == 0x3824a8int);
    let (e, x) = lemma_step(g, n, e, x, false);
    assert(x == 311674int);
    let (e, x) = lemma_step(g, n, e, x, false);
    assert(x == 163785int);
    let (e, x) = lemma_step(g, n, e, x, false);
    assert(x == 454665int);
    let (e, x) = lemma_step(g, n, e, x, true);
    assert(x == 0x1f4b33int);
    let (e, x) = lemma_step(g, n, e, x, false);
    assert(x == 0x2b6a9fint);
    assert(e == 34nat);
}

/// A power modulo 0x459ca7.
proof fn lemma_power_4562087_4()
    ensures
        pow(0x3824a8int, 109nat) % 0x459ca7int == 213303int,
{
    let g = 0x3824a8int;
    let n = 0x459ca7int;
    lemma_start(g, n);
    let (e, x) = (0nat, 1int);
    let (e, x) = lemma_step(g, n, e, x, true);
    assert(x == 0x3824a8int);
    let (e, x) = lemma_step(g, n, e, x, true);
    assert(x == 0x16fc6aint);
    let (e, x) = lemma_step(g, n, e, x, false);
    assert(x == 0x239fb7int);
    let (e, x) = lemma_step(g, n, e, x, true);
    assert(x == 0x13d0fbint);
    let (e, x) = lemma_step(g, n, e, x, true);
    assert(x == 0x2cb319int);
    let (e, x) = lemma_step(g, n, e, x, false);
    assert(x == 80921int);
    let (e, x) = lemma_step(g, n, e, x, true);
    assert(x == 213303int);
    assert(e == 109nat);
}

/// A power modulo 0x459ca7.
proof fn lemma_power_4562087_5()
    ensures
        pow(213303int, 17nat) % 0x459ca7int == 0x459ca6int,
{
    let g = 213303int;
    let n = 0x459ca7int;
    lemma_start(g, n);
    let (e, x) = (0nat, 1int);
    let (e, x) = lemma_step(g, n, e, x, true);
    assert(x == 213303int);
    let (e, x) = lemma_step(g, n, e, x, false);
    assert(x == 476158int);
    let (e, x) = lemma_step(g, n, e, x, false);
    assert(x == 0x43307dint);
    let (e, x) = lemma_step(g, n, e, x, false);
    assert(x == 0x433358int);
    let (e, x) = lemma_step(g, n, e, x, true);
    assert(x == 0x459ca6int);
    assert(e == 17nat);
}

/// A power modulo 0x459ca7.
proof fn lemma_power_4562087_6()
    ensures
        pow(213303int, 2nat) % 0x459ca7int == 476158int,
{
    let g = 213303int;
    let n = 0x459ca7int;
    lemma_start(g, n);
    let (e, x) = (0nat, 1int);
    let (e, x) = lemma_step(g, n, e, x, true);
    assert(x == 213303int);
    let (e, x) = lemma_step(g, n, e, x, false);
    assert(x == 476158int);
    assert(e == 2nat);
}

/// A power modulo 0x459ca7.
proof fn lemma_power_4562087_7()
    ensures
        pow(0x459ca6int, 2nat) % 0x459ca7int == 1int,
{
    let g = 0x459ca6int;
    let n = 0x459ca7int;
    lemma_start(g, n);
    let (e, x) = (0nat, 1int);
    let (e, x) = lemma_step(g, n, e, x, true);
    assert(x == 0x459ca6int);
    let (e, x) = lemma_step(g, n, e, x, false);
    assert(x == 1int);
    assert(e == 2nat);
}

/// 4562087 is prime: 5 generates the residues modulo 4562087 other than zero.
pub proof fn lemma_prime_4562087()
    ensures
        all_units(0x459ca7int),
        fermat(0x459ca7int),
{
    let g = 5int;
    let n = 0x459ca7int;
    let ps = seq![2int, 17int, 109int, 1231int];
    lemma_two();
    lemma_prime_17();
    lemma_prime_109();
    lemma_prime_1231();
    lemma_cover_one(ps);
    lemma_cover_step(1int, 2int, ps, 0);
    assert(2int * 1int == 2int);
    assert(factors_cover(2int, ps));
    lemma_cover_step(2int, 17int, ps, 1);
    assert(17int * 2int == 34int);
    assert(factors_cover(34int, ps));
    lemma_cover_step(34int, 109int, ps, 2);
    assert(109int * 34int == 3706int);
    assert(factors_cover(3706int, ps));
    lemma_cover_step(3706int, 1231int, ps, 3);
    assert(1231int * 3706int == 0x459ca6int);
    assert(factors_cover(0x459ca6int, ps));
    lemma_power_4562087_0();
    lemma_power_4562087_1();
    lemma_pow_compose(g, 1nat, 3706nat, n);
    assert(1nat * 3706nat == 3706nat);
    assert(pow(g, 3706nat) % n == 0x43421bint);
    lemma_power_4562087_2();
    lemma_pow_compose(g, 1nat, 1231nat, n);
    assert(1nat * 1231nat == 1231nat);
    assert(pow(g, 1231nat) % n == 0x3824a8int);
    lemma_power_4562087_3();
    lemma_pow_compose(g, 1231nat, 34nat, n);
    assert(1231nat * 34nat == 41854nat);
    assert(pow(g, 41854nat) % n == 0x2b6a9fint);
    lemma_power_4562087_4();
    lemma_pow_compose(g, 1231nat, 109nat, n);
    assert(1231nat * 109nat == 134179nat);
    assert(pow(g, 134179nat) % n == 213303int);
    lemma_power_4562087_5();
    lemma_pow_compose(g, 134179nat, 17nat, n);
    assert(134179nat * 17nat == 0x22ce53nat);
    assert(pow(g, 0x22ce53nat) % n == 0x459ca6int);
    lemma_power_4562087_6();
    lemma_pow_compose(g, 134179nat, 2nat, n);
    assert(134179nat * 2nat == 268358nat);
    assert(pow(g, 268358nat) % n == 476158int);
    lemma_power_4562087_7();
    lemma_pow_compose(g, 0x22ce53nat, 2nat, n);
    assert(0x22ce53nat * 2nat == 0x459ca6nat);
    assert(pow(g, 0x459ca6nat) % n == 1);
    assert forall|i: int| 0 <= i < ps.len() implies (#[trigger] ps[i]) > 1 && (n - 1) % ps[i] == 0
        && pow(g, ((n - 1) / ps[i]) as nat) % n != 1 by {
        if i == 0 {
            assert(ps[0] == 2int);
            assert(0x459ca6int % 2int == 0);
            assert(0x459ca6int / 2int == 0x22ce53int);
        }
        if i == 1 {
            assert(ps[1] == 17int);
            assert(0x459ca6int % 17int == 0);
            assert(0x459ca6int / 17int == 268358int);
        }
        if i == 2 {
            assert(ps[2] == 109int);
            assert(0x459ca6int % 109int == 0);
            assert(0x459ca6int / 109int == 41854int);
        }
        if i == 3 {
            assert(ps[3] == 1231int);
            assert(0x459ca6int % 1231int == 0);
            assert(0x459ca6int / 1231int == 3706int);
        }
    }
    lemma_lucas(n, g, ps);
}

/// A power modulo 0xa52615f.
proof fn lemma_power_173171039_0()
    ensures
        pow(13int, 1nat) % 0xa52615fint == 13int,
{
    let g = 13int;
    let n = 0xa52615fint;
    lemma_start(g, n);
    let (e, x) = (0nat, 1int);
    let (e, x) = lemma_step(g, n, e, x, true);
    assert(x == 13int);
    assert(e == 1nat);
}

/// A power modulo 0xa52615f.
proof fn lemma_power_173171039_1()
    ensures
        pow(13int, 12994nat) % 0xa52615fint == 0x6220643int,
{
    let g = 13int;
    let n = 0xa52615fint;
    lemma_start(g, n);
    let (e, x) = (0nat, 1int);
    let (e, x) = lemma_step(g, n, e, x, true);
    assert(x == 13int);
    let (e, x) = lemma_step(g, n, e, x, true);
    assert(x == 2197int);
    let (e, x) = lemma_step(g, n, e, x, false);
    assert(x == 0x49a6b9int);
    let (e, x) = lemma_step(g, n, e, x, false);
    assert(x == 0xa5082daint);
    let (e, x) = lemma_step(g, n, e, x, true);
    assert(x == 0x597f66bint);
    let (e, x) = lemma_step(g, n, e, x, false);
    assert(x == 0x2ee40f8int);
    let (e, x) = lemma_step(g, n, e, x, true);
    assert(x == 0x238ad2aint);
    let (e, x) = lemma_step(g, n, e, x, true);
    assert(x == 0x21fc679int);
    let (e, x) = lemma_step(g, n, e, x, false);
    assert(x == 0x54f86bbint);
    let (e, x) = lemma_step(g, n, e, x, false);
    assert(x == 0x55e5a7eint);
    let (e, x) = lemma_step(g, n, e, x, false);
    assert(x == 0x77f34fcint);
    let (e, x) = lemma_step(g, n, e, x, false);
    assert(x == 0x83649c9int);
    let (e, x) = lemma_step(g, n, e, x, true);
    assert(x == 0xa1a33beint);
    let (e, x) = lemma_step(g, n, e, x, false);
    assert(x == 0x6220643int);
    assert(e == 12994nat);
}

/// A power modulo 0xa52615f.
proof fn lemma_power_173171039_2()
    ensures
        pow(13int, 13327nat) % 0xa52615fint == 0x6bb2060int,
{
    let g = 13int;
    let n = 0xa52615fint;
    lemma_start(g, n);
    let (e, x) = (0nat, 1int);
    let (e, x) = lemma_step(g, n, e, x, true);
    assert(x == 13int);
    let (e, x) = lemma_step(g, n, e, x, true);
    assert(x == 2197int);
    let (e, x) = lemma_step(g, n, e, x, false);
    assert(x == 0x49a6b9int);
    let (e, x) = lemma_step(g, n, e, x, true);
    assert(x == 0xa3a149eint);
    let (e, x) = lemma_step(g, n, e, x, false);
    assert(x == 0x76d9d6int);
    let (e, x) = lemma_step(g, n, e, x, false);
    assert(x == 0xa290347int);
    let (e, x) = lemma_step(g, n, e, x, false);
    assert(x == 0x882924aint);
    let (e, x) = lemma_step(g, n, e, x, false);
    assert(x == 0x3be396dint);
    let (e, x) = lemma_step(g, n, e, x, false);
    assert(x == 0x459c64eint);
    let (e, x) = lemma_step(g, n, e, x, false);
    assert(x == 0x17624d9int);
    let (e, x) = lemma_step(g, n, e, x, true);
    assert(x == 0x92da28dint);
    let (e, x) = lemma_step(g, n, e, x, true);
    assert(x == 0x61b5b26int);
    let (e, x) = lemma_step(g, n, e, x, true);
    assert(x == 0x5da8ff3int);
    let (e, x) = lemma_step(g, n, e, x, true);
    assert(x == 0x6bb2060int);
    assert(e == 13327nat);
}

/// A power modulo 0xa52615f.
proof fn lemma_power_173171039_3()
    ensures
        pow(0x6bb2060int, 146nat) % 0xa52615fint == 0x3c15d03int,
{
    let g = 0x6bb2060int;
    let n = 0xa52615fint;
    lemma_start(g, n);
    let (e, x) = (0nat, 1int);
    let (e, x) = lemma_step(g, n, e, x, true);
    assert(x == 0x6bb2060int);
    let (e, x) = lemma_step(g, n, e, x, false);
    assert(x == 0x8ca4e24int);
    let (e, x) = lemma_step(g, n, e, x, false);
    assert(x == 0x8eb11a1int);
    let (e, x) = lemma_step(g, n, e, x, true);
    assert(x == 0x4abb5ddint);
    let (e, x) = lemma_step(g, n, e, x, false);
    assert(x == 0x1a2259cint);
    let (e, x) = lemma_step(g, n, e, x, false);
    assert(x == 0x321f9e2int);
    let (e, x) = lemma_step(g, n, e, x, true);
    assert(x == 0x250b5bfint);
    let (e, x) = lemma_step(g, n, e, x, false);
    assert(x == 0x3c15d03int);
    assert(e == 146nat);
}

/// A power modulo 0xa52615f.
proof fn lemma_power_173171039_4()
    ensures
        pow(0x6bb2060int, 89nat) % 0xa52615fint == 0xa3b5234int,
{
    let g = 0x6bb2060int;
    let n = 0xa52615fint;
    lemma_start(g, n);
    let (e, x) = (0nat, 1int);
    let (e, x) = lemma_step(g, n, e, x, true);
    assert(x == 0x6bb2060int);
    let (e, x) = lemma_step(g, n, e, x, false);
    assert(x == 0x8ca4e24int);
    let (e, x) = lemma_step(g, n, e, x, true);
    assert(x == 0x4202eb9int);
    let (e, x) = lemma_step(g, n, e, x, true);
    assert(x == 0x97fbbd1int);
    let (e, x) = lemma_step(g, n, e, x, false);
    assert(x == 0x82555c1int);
    let (e, x) = lemma_step(g, n, e, x, false);
    assert(x == 0x2c3e390int);
    let (e, x) = lemma_step(g, n, e, x, true);
    assert(x == 0xa3b5234int);
    assert(e == 89nat);
}

/// A power modulo 0xa52615f.
proof fn lemma_power_173171039_5()
    ensures
        pow(0xa3b5234int, 73nat) % 0xa52615fint == 0xa52615eint,
{
    let g = 0xa3b5234int;
    let n = 0xa52615fint;
    lemma_start(g, n);
    let (e, x) = (0nat, 1int);
    let (e, x) = lemma_step(g, n, e, x, true);
    assert(x == 0xa3b5234int);
    let (e, x) = lemma_step(g, n, e, x, false);
    assert(x == 0x912509cint);
    let (e, x) = lemma_step(g, n, e, x, false);
    assert(x == 0x9557cb8int);
    let (e, x) = lemma_step(g, n, e, x, true);
    assert(x == 0xa3472ccint);
    let (e, x) = lemma_step(g, n, e, x, false);
    assert(x == 0x54826b5int);
    let (e, x) = lemma_step(g, n, e, x, false);
    assert(x == 0x9de9614int);
    let (e, x) = lemma_step(g, n, e, x, true);
    assert(x == 0xa52615eint);
    assert(e == 73nat);
}

/// A power modulo 0xa52615f.
proof fn lemma_power_173171039_6()
    ensures
        pow(0xa3b5234int, 2nat) % 0xa52615fint == 0x912509cint,
{
    let g = 0xa3b5234int;
    let n = 0xa52615fint;
    lemma_start(g, n);
    let (e, x) = (0nat, 1int);
    let (e, x) = lemma_step(g, n, e, x, true);
    assert(x == 0xa3b5234int);
    let (e, x) = lemma_step(g, n, e, x, false);
    assert(x == 0x912509cint);
    assert(e == 2nat);
}

/// A power modulo 0xa52615f.
proof fn lemma_power_173171039_7()
    ensures
        pow(0xa52615eint, 2nat) % 0xa52615fint == 1int,
{
    let g = 0xa52615eint;
    let n = 0xa52615fint;
    lemma_start(g, n);
    let (e, x) = (0nat, 1int);
    let (e, x) = lemma_step(g, n, e, x, true);
    assert(x == 0xa52615eint);
    let (e, x) = lemma_step(g, n, e, x, false);
    assert(x == 1int);
    assert(e == 2nat);
}

/// 173171039 is prime: 13 generates the residues modulo 173171039 other than zero.
pub proof fn lemma_prime_173171039()
    ensures
        all_units(0xa52615fint),
        fermat(0xa52615fint),
{
    let g = 13int;
    let n = 0xa52615fint;
    let ps = seq![2int, 73int, 89int, 13327int];
    lemma_two();
    lemma_prime_73();
    lemma_prime_89();
    lemma_prime_13327();
    lemma_cover_one(ps);
    lemma_cover_step(1int, 2int, ps, 0);
    assert(2int * 1int == 2int);
    assert(factors_cover(2int, ps));
    lemma_cover_step(2int, 73int, ps, 1);
    assert(73int * 2int == 146int);
    assert(factors_cover(146int, ps));
    lemma_cover_step(146int, 89int, ps, 2);
    assert(89int * 146int == 12994int);
    assert(factors_cover(12994int, ps));
    lemma_cover_step(12994int, 13327int, ps, 3);
    assert(13327int * 12994int == 0xa52615eint);
    assert(factors_cover(0xa52615eint, ps));
    lemma_power_173171039_0();
    lemma_power_173171039_1();
    lemma_pow_compose(g, 1nat, 12994nat, n);
    assert(1nat * 12994nat == 12994nat);
    assert(pow(g, 12994nat) % n == 0x6220643int);
    lemma_power_173171039_2();
    lemma_pow_compose(g, 1nat, 13327nat, n);
    assert(1nat * 13327nat == 13327nat);
    assert(pow(g, 13327nat) % n == 0x6bb2060int);
    lemma_power_173171039_3();
    lemma_pow_compose(g, 13327nat, 146nat, n);
    assert(13327nat * 146nat == 0x1db08enat);
    assert(pow(g, 0x1db08enat) % n == 0x3c15d03int);
    lemma_power_173171039_4();
    lemma_pow_compose(g, 13327nat, 89nat, n);
    assert(13327nat * 89nat == 0x121937nat);
    assert(pow(g, 0x121937nat) % n == 0xa3b5234int);
    lemma_power_173171039_5();
    lemma_pow_compose(g, 0x121937nat, 73nat, n);
    assert(0x121937nat * 73nat == 0x52930afnat);
    assert(pow(g, 0x52930afnat) % n == 0xa52615eint);
    lemma_power_173171039_6();
    lemma_pow_compose(g, 0x121937nat, 2nat, n);
    assert(0x121937nat * 2nat == 0x24326enat);
    assert(pow(g, 0x24326enat) % n == 0x912509cint);
    lemma_power_173171039_7();
    lemma_pow_compose(g, 0x52930afnat, 2nat, n);
    assert(0x52930afnat * 2nat == 0xa52615enat);
    assert(pow(g, 0xa52615enat) % n == 1);
    assert forall|i: int| 0 <= i < ps.len() implies (#[trigger] ps[i]) > 1 && (n - 1) % ps[i] == 0
        && pow(g, ((n - 1) / ps[i]) as nat) % n != 1 by {
        if i == 0 {
            assert(ps[0] == 2int);
            assert(0xa52615eint % 2int == 0);
            assert(0xa52615eint / 2int == 0x52930afint);
        }
        if i == 1 {
            assert(ps[1] == 73int);
            assert(0xa52615eint % 73int == 0);
            assert(0xa52615eint / 73int == 0x24326eint);
        }
        if i == 2 {
            assert(ps[2] == 89int);
            assert(0xa52615eint % 89int == 0);
            assert(0xa52615eint / 89int == 0x1db08eint);
        }
        if i == 3 {
            assert(ps[3] == 13327int);
            assert(0xa52615eint % 13327int == 0);
            assert(0xa52615eint / 13327int == 12994int);
        }
    }
    lemma_lucas(n, g, ps);
}

/// A power modulo 0x1831fb5f.
proof fn lemma_power_405928799_0()
    ensures
        pow(22int, 1nat) % 0x1831fb5fint == 22int,
{
    let g = 22int;
    let n = 0x1831fb5fint;
    lemma_start(g, n);
    let (e, x) = (0nat, 1int);
    let (e, x) = lemma_step(g, n, e, x, true);
    assert(x == 22int);
    assert(e == 1nat);
}

/// A power modulo 0x1831fb5f.
proof fn lemma_power_405928799_1()
    ensures
        pow(22int, 81202nat) % 0x1831fb5fint == 0x3afb90aint,
{
    let g = 22int;
    let n = 0x1831fb5fint;
    lemma_start(g, n);
    let (e, x) = (0nat, 1int);
    let (e, x) = lemma_step(g, n, e, x, true);
    assert(x == 22int);
    let (e, x) = lemma_step(g, n, e, x, false);
    assert(x == 484int);
    let (e, x) = lemma_step(g, n, e, x, false);
    assert(x == 234256int);
    let (e, x) = lemma_step(g, n, e, x, true);
    assert(x == 0x2341c5eint);
    let (e, x) = lemma_step(g, n, e, x, true);
    assert(x == 0x11a365ceint);
    let (e, x) = lemma_step(g, n, e, x, true);
    assert(x == 0x1070b8d4int);
    let (e, x) = lemma_step(g, n, e, x, true);
    assert(x == 0xe14fd0bint);
    let (e, x) = lemma_step(g, n, e, x, false);
    assert(x == 0x865dd37int);
    let (e, x) = lemma_step(g, n, e, x, true);
    assert(x == 0x1812d735int);
    let (e, x) = lemma_step(g, n, e, x, false);
    assert(x == 0x14195b78int);
    let (e, x) = lemma_step(g, n, e, x, false);
    assert(x == 0xd5f07d4int);
    let (e, x) = lemma_step(g, n, e, x, true);
    assert(x == 0xa0a86d6int);
    let (e, x) = lemma_step(g, n, e, x, true);
    assert(x == 0x118e1b3int);
    let (e, x) = lemma_step(g, n, e, x, false);
    assert(x == 0xc65cea7int);
    let (e, x) = lemma_step(g, n, e, x, false);
    assert(x == 0xe0a82a1int);
    let (e, x) = lemma_step(g, n, e, x, true);
    assert(x == 0x3cf8188int);
    let (e, x) = lemma_step(g, n, e, x, false);
    assert(x == 0x3afb90aint);
    assert(e == 81202nat);
}

/// A power modulo 0x1831fb5f.
proof fn lemma_power_405928799_2()
    ensures
        pow(22int, 4999nat) % 0x1831fb5fint == 0x8cb3136int,
{
    let g = 22int;
    let n = 0x1831fb5fint;
    lemma_start(g, n);
    let (e, x) = (0nat, 1int);
    let (e, x) = lemma_step(g, n, e, x, true);
    assert(x == 22int);
    let (e, x) = lemma_step(g, n, e, x, false);
    assert(x == 484int);
    let (e, x) = lemma_step(g, n, e, x, false);
    assert(x == 234256int);
    let (e, x) = lemma_step(g, n, e, x, true);
    assert(x == 0x2341c5eint);
    let (e, x) = lemma_step(g, n, e, x, true);
    assert(x == 0x11a365ceint);
    let (e, x) = lemma_step(g, n, e, x, true);
    assert(x == 0x1070b8d4int);
    let (e, x) = lemma_step(g, n, e, x, false);
    assert(x == 0x3f07f3cint);
    let (e, x) = lemma_step(g, n, e, x, false);
    assert(x == 0xa2a54bbint);
    let (e, x) = lemma_step(g, n, e, x, false);
    assert(x == 0xdeed291int);
    let (e, x) = lemma_step(g, n, e, x, false);
    assert(x == 0x6b4e514int);
    let (e, x) = lemma_step(g, n, e, x, true);
    assert(x == 0x41e56dbint);
    let (e, x) = lemma_step(g, n, e, x, true);
    assert(x == 0xd290f4eint);
    let (e, x) = lemma_step(g, n, e, x, true);
    assert(x == 0x8cb3136int);
    assert(e == 4999nat);
}

/// A power modulo 0x1831fb5f.
proof fn lemma_power_405928799_3()
    ensures
        pow(0x8cb3136int, 3691nat) % 0x1831fb5fint == 0x305cfacint,
{
    let g = 0x8cb3136int;
    let n = 0x1831fb5fint;
    lemma_start(g, n);
    let (e, x) = (0nat, 1int);
    let (e, x) = lemma_step(g, n, e, x, true);
    assert(x == 0x8cb3136int);
    let (e, x) = lemma_step(g, n, e, x, true);
    assert(x == 0x10cd5f80int);
    let (e, x) = lemma_step(g, n, e, x, true);
    assert(x == 0x180076b8int);
    let (e, x) = lemma_step(g, n, e, x, false);
    assert(x == 0x34fc149int);
    let (e, x) = lemma_step(g, n, e, x, false);
    assert(x == 0x256dce8int);
    let (e, x) = lemma_step(g, n, e, x, true);
    assert(x == 0x16514426int);
    let (e, x) = lemma_step(g, n, e, x, true);
    assert(x == 0x4cf0875int);
    let (e, x) = lemma_step(g, n, e, x, false);
    assert(x == 0x317f71fint);
    let (e, x) = lemma_step(g, n, e, x, true);
    assert(x == 0x533d07dint);
    let (e, x) = lemma_step(g, n, e, x, false);
    assert(x == 0xff9f5cfint);
    let (e, x) = lemma_step(g, n, e, x, true);
    assert(x == 0xb983bbdint);
    let (e, x) = lemma_step(g, n, e, x, true);
    assert(x == 0x305cfacint);
    assert(e == 3691nat);
}

/// A power modulo 0x1831fb5f.
proof fn lemma_power_405928799_4()
    ensures
        pow(0x305cfacint, 11nat) % 0x1831fb5fint == 0x1831fb5eint,
{
    let g = 0x305cfacint;
    let n = 0x1831fb5fint;
    lemma_start(g, n);
    let (e, x) = (0nat, 1int);
    let (e, x) = lemma_step(g, n, e, x, true);
    assert(x == 0x305cfacint);
    let (e, x) = lemma_step(g, n, e, x, false);
    assert(x == 0xcddc2efint);
    let (e, x) = lemma_step(g, n, e, x, true);
    assert(x == 0x17df7e5aint);
    let (e, x) = lemma_step(g, n, e, x, true);
    assert(x == 0x1831fb5eint);
    assert(e == 11nat);
}

/// A power modulo 0x1831fb5f.
proof fn lemma_power_405928799_5()
    ensures
        pow(0x305cfacint, 2nat) % 0x1831fb5fint == 0xcddc2efint,
{
    let g = 0x305cfacint;
    let n = 0x1831fb5fint;
    lemma_start(g, n);
    let (e, x) = (0nat, 1int);
    let (e, x) = lemma_step(g, n, e, x, true);
    assert(x == 0x305cfacint);
    let (e, x) = lemma_step(g, n, e, x, false);
    assert(x == 0xcddc2efint);
    assert(e == 2nat);
}

/// A power modulo 0x1831fb5f.
proof fn lemma_power_405928799_6()
    ensures
        pow(0x8cb3136int, 22nat) % 0x1831fb5fint == 0x8d10919int,
{
    let g = 0x8cb3136int;
    let n = 0x1831fb5fint;
    lemma_start(g, n);
    let (e, x) = (0nat, 1int);
    let (e, x) = lemma_step(g, n, e, x, true);
    assert(x == 0x8cb3136int);
    let (e, x) = lemma_step(g, n, e, x, false);
    assert(x == 0x1703384aint);
    let (e, x) = lemma_step(g, n, e, x, true);
    assert(x == 0x1162ea4dint);
    let (e, x) = lemma_step(g, n, e, x, true);
    assert(x == 0xc13dad6int);
    let (e, x) = lemma_step(g, n, e, x, false);
    assert(x == 0x8d10919int);
    assert(e == 22nat);
}

/// A power modulo 0x1831fb5f.
proof fn lemma_power_405928799_7()
    ensures
        pow(0x1831fb5eint, 2nat) % 0x1831fb5fint == 1int,
{
    let g = 0x1831fb5eint;
    let n = 0x1831fb5fint;
    lemma_start(g, n);
    let (e, x) = (0nat, 1int);
    let (e, x) = lemma_step(g, n, e, x, true);
    assert(x == 0x1831fb5eint);
    let (e, x) = lemma_step(g, n, e, x, false);
    assert(x == 1int);
    assert(e == 2nat);
}

/// 405928799 is prime: 22 generates the residues modulo 405928799 other than zero.
pub proof fn lemma_prime_405928799()
    ensures
        all_units(0x1831fb5fint),
        fermat(0x1831fb5fint),
{
    let g = 22int;
    let n = 0x1831fb5fint;
    let ps = seq![2int, 11int, 3691int, 4999int];
    lemma_two();
    lemma_prime_11();
    lemma_prime_3691();
    lemma_prime_4999();
    lemma_cover_one(ps);
    lemma_cover_step(1int, 2int, ps, 0);
    assert(2int * 1int == 2int);
    assert(factors_cover(2int, ps));
    lemma_cover_step(2int, 11int, ps, 1);
    assert(11int * 2int == 22int);
    assert(factors_cover(22int, ps));
    lemma_cover_step(22int, 3691int, ps, 2);
    assert(3691int * 22int == 81202int);
    assert(factors_cover(81202int, ps));
    lemma_cover_step(81202int, 4999int, ps, 3);
    assert(4999int * 81202int == 0x1831fb5eint);
    assert(factors_cover(0x1831fb5eint, ps));
    lemma_power_405928799_0();
    lemma_power_405928799_1();
    lemma_pow_compose(g, 1nat, 81202nat, n);
    assert(1nat * 81202nat == 81202nat);
    assert(pow(g, 81202nat) % n == 0x3afb90aint);
    lemma_power_405928799_2();
    lemma_pow_compose(g, 1nat, 4999nat, n);
    assert(1nat * 4999nat == 4999nat);
    assert(pow(g, 4999nat) % n == 0x8cb3136int);
    lemma_power_405928799_3();
    lemma_pow_compose(g, 4999nat, 3691nat, n);
    assert(4999nat * 3691nat == 0x1198b6dnat);
    assert(pow(g, 0x1198b6dnat) % n == 0x305cfacint);
    lemma_power_405928799_4();
    lemma_pow_compose(g, 0x1198b6dnat, 11nat, n);
    assert(0x1198b6dnat * 11nat == 0xc18fdafnat);
    assert(pow(g, 0xc18fdafnat) % n == 0x1831fb5eint);
    lemma_power_405928799_5();
    lemma_pow_compose(g, 0x1198b6dnat, 2nat, n);
    assert(0x1198b6dnat * 2nat == 0x23316danat);
    assert(pow(g, 0x23316danat) % n == 0xcddc2efint);
    lemma_power_405928799_6();
    lemma_pow_compose(g, 4999nat, 22nat, n);
    assert(4999nat * 22nat == 109978nat);
    assert(pow(g, 109978nat) % n == 0x8d10919int);
    lemma_power_405928799_7();
    lemma_pow_compose(g, 0xc18fdafnat, 2nat, n);
    assert(0xc18fdafnat * 2nat == 0x1831fb5enat);
    assert(pow(g, 0x1831fb5enat) % n == 1);
    assert forall|i: int| 0 <= i < ps.len() implies (#[trigger] ps[i]) > 1 && (n - 1) % ps[i] == 0
        && pow(g, ((n - 1) / ps[i]) as nat) % n != 1 by {
        if i == 0 {
            assert(ps[0] == 2int);
            assert(0x1831fb5eint % 2int == 0);
            assert(0x1831fb5eint / 2int == 0xc18fdafint);
        }
        if i == 1 {
            assert(ps[1] == 11int);
            assert(0x1831fb5eint % 11int == 0);
            assert(0x1831fb5eint / 11int == 0x23316daint);
        }
        if i == 2 {
            assert(ps[2] == 3691int);
            assert(0x1831fb5eint % 3691int == 0);
            assert(0x1831fb5eint / 3691int == 109978int);
        }
        if i == 3 {
            assert(ps[3] == 4999int);
            assert(0x1831fb5eint % 4999int == 0);
            assert(0x1831fb5eint / 4999int == 81202int);
        }
    }
    lemma_lucas(n, g, ps);
}

/// A power modulo 0x4b538c03.
proof fn lemma_power_1263766531_0()
    ensures
        pow(10int, 1nat) % 0x4b538c03int == 10int,
{
    let g = 10int;
    let n = 0x4b538c03int;
    lemma_start(g, n);
    let (e, x) = (0nat, 1int);
    let (e, x) = lemma_step(g, n, e, x, true);
    assert(x == 10int);
    assert(e == 1nat);
}

/// A power modulo 0x4b538c03.
proof fn lemma_power_1263766531_1()
    ensures
        pow(10int, 355290nat) % 0x4b538c03int == 0x37f7e2e2int,
{
    let g = 10int;
    let n = 0x4b538c03int;
    lemma_start(g, n);
    let (e, x) = (0nat, 1int);
    let (e, x) = lemma_step(g, n, e, x, true);
    assert(x == 10int);
    let (e, x) = lemma_step(g, n, e, x, false);
    assert(x == 100int);
    let (e, x) = lemma_step(g, n, e, x, true);
    assert(x == 100000int);
    let (e, x) = lemma_step(g, n, e, x, false);
    assert(x == 0x44c30febint);
    let (e, x) = lemma_step(g, n, e, x, true);
    assert(x == 0x18033904int);
    let (e, x) = lemma_step(g, n, e, x, true);
    assert(x == 0x2acb41bbint);
    let (e, x) = lemma_step(g, n, e, x, false);
    assert(x == 0x193f13dfint);
    let (e, x) = lemma_step(g, n, e, x, true);
    assert(x == 0x225fd839int);
    let (e, x) = lemma_step(g, n, e, x, false);
    assert(x == 0x4b0fce1fint);
    let (e, x) = lemma_step(g, n, e, x, true);
    assert(x == 0x1d995f01int);
    let (e, x) = lemma_step(g, n, e, x, true);
    assert(x == 0x4440b2e7int);
    let (e, x) = lemma_step(g, n, e, x, true);
    assert(x == 0x1593092fint);
    let (e, x) = lemma_step(g, n, e, x, true);
    assert(x == 0x28283c19int);
    let (e, x) = lemma_step(g, n, e, x, false);
    assert(x == 0x35b57c7fint);
    let (e, x) = lemma_step(g, n, e, x, true);
    assert(x == 0x28f09912int);
    let (e, x) = lemma_step(g, n, e, x, true);
    assert(x == 0x38e75f72int);
    let (e, x) = lemma_step(g, n, e, x, false);
    assert(x == 0x230cbcd9int);
    let (e, x) = lemma_step(g, n, e, x, true);
    assert(x == 0x3da8d440int);
    let (e, x) = lemma_step(g, n, e, x, false);
    assert(x == 0x37f7e2e2int);
    assert(e == 355290nat);
}

/// A power modulo 0x4b538c03.
proof fn lemma_power_1263766531_2()
    ensures
        pow(10int, 3557nat) % 0x4b538c03int == 0xf56fab9int,
{
    let g = 10int;
    let n = 0x4b538c03int;
    lemma_start(g, n);
    let (e, x) = (0nat, 1int);
    let (e, x) = lemma_step(g, n, e, x, true);
    assert(x == 10int);
    let (e, x) = lemma_step(g, n, e, x, true);
    assert(x == 1000int);
    let (e, x) = lemma_step(g, n, e, x, false);
    assert(x == 0xf4240int);
    let (e, x) = lemma_step(g, n, e, x, true);
    assert(x == 0x40536348int);
    let (e, x) = lemma_step(g, n, e, x, true);
    assert(x == 0x353de14cint);
    let (e, x) = lemma_step(g, n, e, x, true);
    assert(x == 0x33abb2c4int);
    let (e, x) = lemma_step(g, n, e, x, true);
    assert(x == 0x13cc299cint);
    let (e, x) = lemma_step(g, n, e, x, false);
    assert(x == 0x4706c7b2int);
    let (e, x) = lemma_step(g, n, e, x, false);
    assert(x == 0x4a94981fint);
    let (e, x) = lemma_step(g, n, e, x, true);
    assert(x == 0xaaa38a5int);
    let (e, x) = lemma_step(g, n, e, x, false);
    assert(x == 0x15ef65d6int);
    let (e, x) = lemma_step(g, n, e, x, true);
    assert(x == 0xf56fab9int);
    assert(e == 3557nat);
}

/// A power modulo 0x4b538c03.
proof fn lemma_power_1263766531_3()
    ensures
        pow(0xf56fab9int, 390nat) % 0x4b538c03int == 0x77e5cb9int,
{
    let g = 0xf56fab9int;
    let n = 0x4b538c03int;
    lemma_start(g, n);
    let (e, x) = (0nat, 1int);
    let (e, x) = lemma_step(g, n, e, x, true);
    assert(x == 0xf56fab9int);
    let (e, x) = lemma_step(g, n, e, x, true);
    assert(x == 0x17145956int);
    let (e, x) = lemma_step(g, n, e, x, false);
    assert(x == 0x407fb1eint);
    let (e, x) = lemma_step(g, n, e, x, false);
    assert(x == 0x6c1e0b2int);
    let (e, x) = lemma_step(g, n, e, x, false);
    assert(x == 0xac60b4bint);
    let (e, x) = lemma_step(g, n, e, x, false);
    assert(x == 0x12220df5int);
    let (e, x) = lemma_step(g, n, e, x, true);
    assert(x == 0x8c63a0aint);
    let (e, x) = lemma_step(g, n, e, x, true);
    assert(x == 0x11c8241int);
    let (e, x) = lemma_step(g, n, e, x, false);
    assert(x == 0x77e5cb9int);
    assert(e == 390nat);
}

/// A power modulo 0x4b538c03.
proof fn lemma_power_1263766531_4()
    ensures
        pow(0xf56fab9int, 911nat) % 0x4b538c03int == 0x2c4fce97int,
{
    let g = 0xf56fab9int;
    let n = 0x4b538c03int;
    lemma_start(g, n);
    let (e, x) = (0nat, 1int);
    let (e, x) = lemma_step(g, n, e, x, true);
    assert(x == 0xf56fab9int);
    let (e, x) = lemma_step(g, n, e, x, true);
    assert(x == 0x17145956int);
    let (e, x) = lemma_step(g, n, e, x, true);
    assert(x == 0x34f8404bint);
    let (e, x) = lemma_step(g, n, e, x, false);
    assert(x == 0x48046061int);
    let (e, x) = lemma_step(g, n, e, x, false);
    assert(x == 0x36a0afcint);
    let (e, x) = lemma_step(g, n, e, x, false);
    assert(x == 0x3b67c26dint);
    let (e, x) = lemma_step(g, n, e, x, true);
    assert(x == 0x19053caeint);
    let (e, x) = lemma_step(g, n, e, x, true);
    assert(x == 0x4574589int);
    let (e, x) = lemma_step(g, n, e, x, true);
    assert(x == 0x1adeb595int);
    let (e, x) = lemma_step(g, n, e, x, true);
    assert(x == 0x2c4fce97int);
    assert(e == 911nat);
}

/// A power modulo 0x4b538c03.
proof fn lemma_power_1263766531_5()
    ensures
        pow(0x2c4fce97int, 65nat) % 0x4b538c03int == 0x2dd1ef29int,
{
    let g = 0x2c4fce97int;
    let n = 0x4b538c03int;
    lemma_start(g, n);
    let (e, x) = (0nat, 1int);
    let (e, x) = lemma_step(g, n, e, x, true);
    assert(x == 0x2c4fce97int);
    let (e, x) = lemma_step(g, n, e, x, false);
    assert(x == 0x2e982ba1int);
    let (e, x) = lemma_step(g, n, e, x, false);
    assert(x == 0x108a66e4int);
    let (e, x) = lemma_step(g, n, e, x, false);
    assert(x == 0x1daad804int);
    let (e, x) = lemma_step(g, n, e, x, false);
    assert(x == 0x40188e51int);
    let (e, x) = lemma_step(g, n, e, x, false);
    assert(x == 0x3811fd49int);
    let (e, x) = lemma_step(g, n, e, x, true);
    assert(x == 0x2dd1ef29int);
    assert(e == 65nat);
}

/// A power modulo 0x4b538c03.
proof fn lemma_power_1263766531_6()
    ensures
        pow(0x2dd1ef29int, 3nat) % 0x4b538c03int == 0x4b538c02int,
{
    let g = 0x2dd1ef29int;
    let n = 0x4b538c03int;
    lemma_start(g, n);
    let (e, x) = (0nat, 1int);
    let (e, x) = lemma_step(g, n, e, x, true);
    assert(x == 0x2dd1ef29int);
    let (e, x) = lemma_step(g, n, e, x, true);
    assert(x == 0x4b538c02int);
    assert(e == 3nat);
}

/// A power modulo 0x4b538c03.
proof fn lemma_power_1263766531_7()
    ensures
        pow(0x2dd1ef29int, 2nat) % 0x4b538c03int == 0x2dd1ef28int,
{
    let g = 0x2dd1ef29int;
    let n = 0x4b538c03int;
    lemma_start(g, n);
    let (e, x) = (0nat, 1int);
    let (e, x) = lemma_step(g, n, e, x, true);
    assert(x == 0x2dd1ef29int);
    let (e, x) = lemma_step(g, n, e, x, false);
    assert(x == 0x2dd1ef28int);
    assert(e == 2nat);
}

/// A power modulo 0x4b538c03.
proof fn lemma_power_1263766531_8()
    ensures
        pow(0x2c4fce97int, 6nat) % 0x4b538c03int == 0x46f66ff2int,
{
    let g = 0x2c4fce97int;
    let n = 0x4b538c03int;
    lemma_start(g, n);
    let (e, x) = (0nat, 1int);
    let (e, x) = lemma_step(g, n, e, x, true);
    assert(x == 0x2c4fce97int);
    let (e, x) = lemma_step(g, n, e, x, true);
    assert(x == 0x16f78d16int);
    let (e, x) = lemma_step(g, n, e, x, false);
    assert(x == 0x46f66ff2int);
    assert(e == 6nat);
}

/// A power modulo 0x4b538c03.
proof fn lemma_power_1263766531_9()
    ensures
        pow(0x46f66ff2int, 13nat) % 0x4b538c03int == 0x2be83403int,
{
    let g = 0x46f66ff2int;
    let n = 0x4b538c03int;
    lemma_start(g, n);
    let (e, x) = (0nat, 1int);
    let (e, x) = lemma_step(g, n, e, x, true);
    assert(x == 0x46f66ff2int);
    let (e, x) = lemma_step(g, n, e, x, true);
    assert(x == 0x2b7cf941int);
    let (e, x) = lemma_step(g, n, e, x, false);
    assert(x == 0x3a09d202int);
    let (e, x) = lemma_step(g, n, e, x, true);
    assert(x == 0x2be83403int);
    assert(e == 13nat);
}

/// A power modulo 0x4b538c03.
proof fn lemma_power_1263766531_10()
    ensures
        pow(0x46f66ff2int, 5nat) % 0x4b538c03int == 0x4c06035int,
{
    let g = 0x46f66ff2int;
    let n = 0x4b538c03int;
    lemma_start(g, n);
    let (e, x) = (0nat, 1int);
    let (e, x) = lemma_step(g, n, e, x, true);
    assert(x == 0x46f66ff2int);
    let (e, x) = lemma_step(g, n, e, x, false);
    assert(x == 0x264ec00cint);
    let (e, x) = lemma_step(g, n, e, x, true);
    assert(x == 0x4c06035int);
    assert(e == 5nat);
}

/// A power modulo 0x4b538c03.
proof fn lemma_power_1263766531_11()
    ensures
        pow(0x4b538c02int, 2nat) % 0x4b538c03int == 1int,
{
    let g = 0x4b538c02int;
    let n = 0x4b538c03int;
    lemma_start(g, n);
    let (e, x) = (0nat, 1int);
    let (e, x) = lemma_step(g, n, e, x, true);
    assert(x == 0x4b538c02int);
    let (e, x) = lemma_step(g, n, e, x, false);
    assert(x == 1int);
    assert(e == 2nat);
}

/// 1263766531 is prime: 10 generates the residues modulo 1263766531 other than zero.
pub proof fn lemma_prime_1263766531()
    ensures
        all_units(0x4b538c03int),
        fermat(0x4b538c03int),
{
    let g = 10int;
    let n = 0x4b538c03int;
    let ps = seq![2int, 3int, 5int, 13int, 911int, 3557int];
    lemma_two();
    lemma_prime_3();
    lemma_prime_5();
    lemma_prime_13();
    lemma_prime_911();
    lemma_prime_3557();
    lemma_cover_one(ps);
    lemma_cover_step(1int, 2int, ps, 0);
    assert(2int * 1int == 2int);
    assert(factors_cover(2int, ps));
    lemma_cover_step(2int, 3int, ps, 1);
    assert(3int * 2int == 6int);
    assert(factors_cover(6int, ps));
    lemma_cover_step(6int, 5int, ps, 2);
    assert(5int * 6int == 30int);
    assert(factors_cover(30int, ps));
    lemma_cover_step(30int, 13int, ps, 3);
    assert(13int * 30int == 390int);
    assert(factors_cover(390int, ps));
    lemma_cover_step(390int, 911int, ps, 4);
    assert(911int * 390int == 355290int);
    assert(factors_cover(355290int, ps));
    lemma_cover_step(355290int, 3557int, ps, 5);
    assert(3557int * 355290int == 0x4b538c02int);
    assert(factors_cover(0x4b538c02int, ps));
    lemma_power_1263766531_0();
    lemma_power_1263766531_1();
    lemma_pow_compose(g, 1nat, 355290nat, n);
    assert(1nat * 355290nat == 355290nat);
    assert(pow(g, 355290nat) % n == 0x37f7e2e2int);
    lemma_power_1263766531_2();
    lemma_pow_compose(g, 1nat, 3557nat, n);
    assert(1nat * 3557nat == 3557nat);
    assert(pow(g, 3557nat) % n == 0xf56fab9int);
    lemma_power_1263766531_3();
    lemma_pow_compose(g, 3557nat, 390nat, n);
    assert(3557nat * 390nat == 0x152adenat);
    assert(pow(g, 0x152adenat) % n == 0x77e5cb9int);
    lemma_power_1263766531_4();
    lemma_pow_compose(g, 3557nat, 911nat, n);
    assert(3557nat * 911nat == 0x3171ebnat);
    assert(pow(g, 0x3171ebnat) % n == 0x2c4fce97int);
    lemma_power_1263766531_5();
    lemma_pow_compose(g, 0x3171ebnat, 65nat, n);
    assert(0x3171ebnat * 65nat == 0xc8decabnat);
    assert(pow(g, 0xc8decabnat) % n == 0x2dd1ef29int);
    lemma_power_1263766531_6();
    lemma_pow_compose(g, 0xc8decabnat, 3nat, n);
    assert(0xc8decabnat * 3nat == 0x25a9c601nat);
    assert(pow(g, 0x25a9c601nat) % n == 0x4b538c02int);
    lemma_power_1263766531_7();
    lemma_pow_compose(g, 0xc8decabnat, 2nat, n);
    assert(0xc8decabnat * 2nat == 0x191bd956nat);
    assert(pow(g, 0x191bd956nat) % n == 0x2dd1ef28int);
    lemma_power_1263766531_8();
    lemma_pow_compose(g, 0x3171ebnat, 6nat, n);
    assert(0x3171ebnat * 6nat == 0x128ab82nat);
    assert(pow(g, 0x128ab82nat) % n == 0x46f66ff2int);
    lemma_power_1263766531_9();
    lemma_pow_compose(g, 0x128ab82nat, 13nat, n);
    assert(0x128ab82nat * 13nat == 0xf10b59anat);
    assert(pow(g, 0xf10b59anat) % n == 0x2be83403int);
    lemma_power_1263766531_10();
    lemma_pow_compose(g, 0x128ab82nat, 5nat, n);
    assert(0x128ab82nat * 5nat == 0x5cb598anat);
    assert(pow(g, 0x5cb598anat) % n == 0x4c06035int);
    lemma_power_1263766531_11();
    lemma_pow_compose(g, 0x25a9c601nat, 2nat, n);
    assert(0x25a9c601nat * 2nat == 0x4b538c02nat);
    assert(pow(g, 0x4b538c02nat) % n == 1);
    assert forall|i: int| 0 <= i < ps.len() implies (#[trigger] ps[i]) > 1 && (n - 1) % ps[i] == 0
        && pow(g, ((n - 1) / ps[i]) as nat) % n != 1 by {
        if i == 0 {
            assert(ps[0] == 2int);
            assert(0x4b538c02int % 2int == 0);
            assert(0x4b538c02int / 2int == 0x25a9c601int);
        }
        if i == 1 {
            assert(ps[1] == 3int);
            assert(0x4b538c02int % 3int == 0);
            assert(0x4b538c02int / 3int == 0x191bd956int);
        }
        if i == 2 {
            assert(ps[2] == 5int);
            assert(0x4b538c02int % 5int == 0);
            assert(0x4b538c02int / 5int == 0xf10b59aint);
        }
        if i == 3 {
            assert(ps[3] == 13int);
            assert(0x4b538c02int % 13int == 0);
            assert(0x4b538c02int / 13int == 0x5cb598aint);
        }
        if i == 4 {
            assert(ps[4] == 911int);
            assert(0x4b538c02int % 911int == 0);
            assert(0x4b538c02int / 911int == 0x152adeint);
        }
        if i == 5 {
            assert(ps[5] == 3557int);
            assert(0x4b538c02int % 3557int == 0);
            assert(0x4b538c02int / 3557int == 355290int);
        }
    }
    lemma_lucas(n, g, ps);
}

/// A power modulo 0x2ab6cbdc9.
proof fn lemma_power_11465965001_0()
    ensures
        pow(3int, 500nat) % 0x2ab6cbdc9int == 0x13ec0cfbcint,
{
    let g = 3int;
    let n = 0x2ab6cbdc9int;
    lemma_start(g, n);
    let (e, x) = (0nat, 1int);
    let (e, x) = lemma_step(g, n, e, x, true);
    assert(x == 3int);
    let (e, x) = lemma_step(g, n, e, x, true);
    assert(x == 27int);
    let (e, x) = lemma_step(g, n, e, x, true);
    assert(x == 2187int);
    let (e, x) = lemma_step(g, n, e, x, true);
    assert(x == 0xdaf26bint);
    let (e, x) = lemma_step(g, n, e, x, true);
    assert(x == 0x6ef6fbcdint);
    let (e, x) = lemma_step(g, n, e, x, false);
    assert(x == 0xef6a18fcint);
    let (e, x) = lemma_step(g, n, e, x, true);
    assert(x == 0x18d466ffeint);
    let (e, x) = lemma_step(g, n, e, x, false);
    assert(x == 0x5af0cc02int);
    let (e, x) = lemma_step(g, n, e, x, false);
    assert(x == 0x13ec0cfbcint);
    assert(e == 500nat);
}

/// A power modulo 0x2ab6cbdc9.
proof fn lemma_power_11465965001_1()
    ensures
        pow(0x13ec0cfbcint, 327599nat) % 0x2ab6cbdc9int == 0xf728388dint,
{
    let g = 0x13ec0cfbcint;
    let n = 0x2ab6cbdc9int;
    lemma_start(g, n);
    let (e, x) = (0nat, 1int);
    let (e, x) = lemma_step(g, n, e, x, true);
    assert(x == 0x13ec0cfbcint);
    let (e, x) = lemma_step(g, n, e, x, false);
    assert(x == 0x25cf79373int);
    let (e, x) = lemma_step(g, n, e, x, false);
    assert(x == 0x19a64af37int);
    let (e, x) = lemma_step(g, n, e, x, true);
    assert(x == 0x12d3c03eint);
    let (e, x) = lemma_step(g, n, e, x, true);
    assert(x == 0x1d9985a9cint);
    let (e, x) = lemma_step(g, n, e, x, true);
    assert(x == 0x25573e99dint);
    let (e, x) = lemma_step(g, n, e, x, true);
    assert(x == 0x263c6809int);
    let (e, x) = lemma_step(g, n, e, x, true);
    assert(x == 0x23547c99fint);
    let (e, x) = lemma_step(g, n, e, x, true);
    assert(x == 0x227cadea5int);
    let (e, x) = lemma_step(g, n, e, x, true);
    assert(x == 0x1f1c1c15aint);
    let (e, x) = lemma_step(g, n, e, x, true);
    assert(x == 0x1aa4fdfa8int);
    let (e, x) = lemma_step(g, n, e, x, true);
    assert(x == 0x2a253320eint);
    let (e, x) = lemma_step(g, n, e, x, false);
    assert(x == 0x14a7839f7int);
    let (e, x) = lemma_step(g, n, e, x, true);
    assert(x == 0x1f7bc85c5int);
    let (e, x) = lemma_step(g, n, e, x, false);
    assert(x == 0x2a32f1c6cint);
    let (e, x) = lemma_step(g, n, e, x, true);
    assert(x == 0x213fb724fint);
    let (e, x) = lemma_step(g, n, e, x, true);
    assert(x == 0x9be4efc5int);
    let (e, x) = lemma_step(g, n, e, x, true);
    assert(x == 0x28bc09d30int);
    let (e, x) = lemma_step(g, n, e, x, true);
    assert(x == 0xf728388dint);
    assert(e == 327599nat);
}

/// A power modulo 0x2ab6cbdc9.
proof fn lemma_power_11465965001_2()
    ensures
        pow(0xf728388dint, 10nat) % 0x2ab6cbdc9int == 0x110969267int,
{
    let g = 0xf728388dint;
    let n = 0x2ab6cbdc9int;
    lemma_start(g, n);
    let (e, x) = (0nat, 1int);
    let (e, x) = lemma_step(g, n, e, x, true);
    assert(x == 0xf728388dint);
    let (e, x) = lemma_step(g, n, e, x, false);
    assert(x == 0x1a7f126afint);
    let (e, x) = lemma_step(g, n, e, x, true);
    assert(x == 0x1222f4b25int);
    let (e, x) = lemma_step(g, n, e, x, false);
    assert(x == 0x110969267int);
    assert(e == 10nat);
}

/// A power modulo 0x2ab6cbdc9.
proof fn lemma_power_11465965001_3()
    ensures
        pow(0xf728388dint, 7nat) % 0x2ab6cbdc9int == 0x1967becd4int,
{
    let g = 0xf728388dint;
    let n = 0x2ab6cbdc9int;
    lemma_start(g, n);
    let (e, x) = (0nat, 1int);
    let (e, x) = lemma_step(g, n, e, x, true);
    assert(x == 0xf728388dint);
    let (e, x) = lemma_step(g, n, e, x, true);
    assert(x == 0xfdfc786eint);
    let (e, x) = lemma_step(g, n, e, x, true);
    assert(x == 0x1967becd4int);
    assert(e == 7nat);
}

/// A power modulo 0x2ab6cbdc9.
proof fn lemma_power_11465965001_4()
    ensures
        pow(0x1967becd4int, 5nat) % 0x2ab6cbdc9int == 0x2ab6cbdc8int,
{
    let g = 0x1967becd4int;
    let n = 0x2ab6cbdc9int;
    lemma_start(g, n);
    let (e, x) = (0nat, 1int);
    let (e, x) = lemma_step(g, n, e, x, true);
    assert(x == 0x1967becd4int);
    let (e, x) = lemma_step(g, n, e, x, false);
    assert(x == 0x1aa1f7aint);
    let (e, x) = lemma_step(g, n, e, x, true);
    assert(x == 0x2ab6cbdc8int);
    assert(e == 5nat);
}

/// A power modulo 0x2ab6cbdc9.
proof fn lemma_power_11465965001_5()
    ensures
        pow(0x1967becd4int, 2nat) % 0x2ab6cbdc9int == 0x1aa1f7aint,
{
    let g = 0x1967becd4int;
    let n = 0x2ab6cbdc9int;
    lemma_start(g, n);
    let (e, x) = (0nat, 1int);
    let (e, x) = lemma_step(g, n, e, x, true);
    assert(x == 0x1967becd4int);
    let (e, x) = lemma_step(g, n, e, x, false);
    assert(x == 0x1aa1f7aint);
    assert(e == 2nat);
}

/// A power modulo 0x2ab6cbdc9.
proof fn lemma_power_11465965001_6()
    ensures
        pow(0x13ec0cfbcint, 70nat) % 0x2ab6cbdc9int == 0x1c5158e49int,
{
    let g = 0x13ec0cfbcint;
    let n = 0x2ab6cbdc9int;
    lemma_start(g, n);
    let (e, x) = (0nat, 1int);
    let (e, x) = lemma_step(g, n, e, x, true);
    assert(x == 0x13ec0cfbcint);
    let (e, x) = lemma_step(g, n, e, x, false);
    assert(x == 0x25cf79373int);
    let (e, x) = lemma_step(g, n, e, x, false);
    assert(x == 0x19a64af37int);
    let (e, x) = lemma_step(g, n, e, x, false);
    assert(x == 0x123987574int);
    let (e, x) = lemma_step(g, n, e, x, true);
    assert(x == 0xd5b4fbd2int);
    let (e, x) = lemma_step(g, n, e, x, true);
    assert(x == 0x1e4b8455eint);
    let (e, x) = lemma_step(g, n, e, x, false);
    assert(x == 0x1c5158e49int);
    assert(e == 70nat);
}

/// A power modulo 0x2ab6cbdc9.
proof fn lemma_power_11465965001_7()
    ensures
        pow(0x2ab6cbdc8int, 2nat) % 0x2ab6cbdc9int == 1int,
{
    let g = 0x2ab6cbdc8int;
    let n = 0x2ab6cbdc9int;
    lemma_start(g, n);
    let (e, x) = (0nat, 1int);
    let (e, x) = lemma_step(g, n, e, x, true);
    assert(x == 0x2ab6cbdc8int);
    let (e, x) = lemma_step(g, n, e, x, false);
    assert(x == 1int);
    assert(e == 2nat);
}

/// 11465965001 is prime: 3 generates the residues modulo 11465965001 other than zero.
pub proof fn lemma_prime_11465965001()
    ensures
        all_units(0x2ab6cbdc9int),
        fermat(0x2ab6cbdc9int),
{
    let g = 3int;
    let n = 0x2ab6cbdc9int;
    let ps = seq![2int, 5int, 7int, 327599int];
    lemma_two();
    lemma_prime_5();
    lemma_prime_7();
    lemma_prime_327599();
    lemma_cover_one(ps);
    lemma_cover_step(1int, 2int, ps, 0);
    assert(2int * 1int == 2int);
    assert(factors_cover(2int, ps));
    lemma_cover_step(2int, 2int, ps, 0);
    assert(2int * 2int == 4int);
    assert(factors_cover(4int, ps));
    lemma_cover_step(4int, 2int, ps, 0);
    assert(2int * 4int == 8int);
    assert(factors_cover(8int, ps));
    lemma_cover_step(8int, 5int, ps, 1);
    assert(5int * 8int == 40int);
    assert(factors_cover(40int, ps));
    lemma_cover_step(40int, 5int, ps, 1);
    assert(5int * 40int == 200int);
    assert(factors_cover(200int, ps));
    lemma_cover_step(200int, 5int, ps, 1);
    assert(5int * 200int == 1000int);
    assert(factors_cover(1000int, ps));
    lemma_cover_step(1000int, 5int, ps, 1);
    assert(5int * 1000int == 5000int);
    assert(factors_cover(5000int, ps));
    lemma_cover_step(5000int, 7int, ps, 2);
    assert(7int * 5000int == 35000int);
    assert(factors_cover(35000int, ps));
    lemma_cover_step(35000int, 327599int, ps, 3);
    assert(327599int * 35000int == 0x2ab6cbdc8int);
    assert(factors_cover(0x2ab6cbdc8int, ps));
    lemma_power_11465965001_0();
    lemma_power_11465965001_1();
    lemma_pow_compose(g, 500nat, 327599nat, n);
    assert(500nat * 327599nat == 0x9c361ccnat);
    assert(pow(g, 0x9c361ccnat) % n == 0xf728388dint);
    lemma_power_11465965001_2();
    lemma_pow_compose(g, 0x9c361ccnat, 10nat, n);
    assert(0x9c361ccnat * 10nat == 0x61a1d1f8nat);
    assert(pow(g, 0x61a1d1f8nat) % n == 0x110969267int);
    lemma_power_11465965001_3();
    lemma_pow_compose(g, 0x9c361ccnat, 7nat, n);
    assert(0x9c361ccnat * 7nat == 0x4457ac94nat);
    assert(pow(g, 0x4457ac94nat) % n == 0x1967becd4int);
    lemma_power_11465965001_4();
    lemma_pow_compose(g, 0x4457ac94nat, 5nat, n);
    assert(0x4457ac94nat * 5nat == 0x155b65ee4nat);
    assert(pow(g, 0x155b65ee4nat) % n == 0x2ab6cbdc8int);
    lemma_power_11465965001_5();
    lemma_pow_compose(g, 0x4457ac94nat, 2nat, n);
    assert(0x4457ac94nat * 2nat == 0x88af5928nat);
    assert(pow(g, 0x88af5928nat) % n == 0x1aa1f7aint);
    lemma_power_11465965001_6();
    lemma_pow_compose(g, 500nat, 70nat, n);
    assert(500nat * 70nat == 35000nat);
    assert(pow(g, 35000nat) % n == 0x1c5158e49int);
    lemma_power_11465965001_7();
    lemma_pow_compose(g, 0x155b65ee4nat, 2nat, n);
    assert(0x155b65ee4nat * 2nat == 0x2ab6cbdc8nat);
    assert(pow(g, 0x2ab6cbdc8nat) % n == 1);
    assert forall|i: int| 0 <= i < ps.len() implies (#[trigger] ps[i]) > 1 && (n - 1) % ps[i] == 0
        && pow(g, ((n - 1) / ps[i]) as nat) % n != 1 by {
        if i == 0 {
            assert(ps[0] == 2int);
            assert(0x2ab6cbdc8int % 2int == 0);
            assert(0x2ab6cbdc8int / 2int == 0x155b65ee4int);
        }
        if i == 1 {
            assert(ps[1] == 5int);
            assert(0x2ab6cbdc8int % 5int == 0);
            assert(0x2ab6cbdc8int / 5int == 0x88af5928int);
        }
        if i == 2 {
            assert(ps[2] == 7int);
            assert(0x2ab6cbdc8int % 7int == 0);
            assert(0x2ab6cbdc8int / 7int == 0x61a1d1f8int);
        }
        if i == 3 {
            assert(ps[3] == 327599int);
            assert(0x2ab6cbdc8int % 327599int == 0);
            assert(0x2ab6cbdc8int / 327599int == 35000int);
        }
    }
    lemma_lucas(n, g, ps);
}

/// A power modulo 0x83d235055.
proof fn lemma_power_35385462869_0()
    ensures
        pow(2int, 2nat) % 0x83d235055int == 4int,
{
    let g = 2int;
    let n = 0x83d235055int;
    lemma_start(g, n);
    let (e, x) = (0nat, 1int);
    let (e, x) = lemma_step(g, n, e, x, true);
    assert(x == 2int);
    let (e, x) = lemma_step(g, n, e, x, false);
    assert(x == 4int);
    assert(e == 2nat);
}

/// A power modulo 0x83d235055.
proof fn lemma_power_35385462869_1()
    ensures
        pow(4int, 0x4b538c03nat) % 0x83d235055int == 0x67824a2b2int,
{
    let g = 4int;
    let n = 0x83d235055int;
    lemma_start(g, n);
    let (e, x) = (0nat, 1int);
    let (e, x) = lemma_step(g, n, e, x, true);
    assert(x == 4int);
    let (e, x) = lemma_step(g, n, e, x, false);
    assert(x == 16int);
    let (e, x) = lemma_step(g, n, e, x, false);
    assert(x == 256int);
    let (e, x) = lemma_step(g, n, e, x, true);
    assert(x == 262144int);
    let (e, x) = lemma_step(g, n, e, x, false);
    assert(x == 0x7c2dcafabint);
    let (e, x) = lemma_step(g, n, e, x, true);
    assert(x == 0x6013b3053int);
    let (e, x) = lemma_step(g, n, e, x, true);
    assert(x == 0x339f01c4aint);
    let (e, x) = lemma_step(g, n, e, x, false);
    assert(x == 0x1ae1f880eint);
    let (e, x) = lemma_step(g, n, e, x, true);
    assert(x == 0x2a7d7a8cbint);
    let (e, x) = lemma_step(g, n, e, x, false);
    assert(x == 0x5a90fe2baint);
    let (e, x) = lemma_step(g, n, e, x, true);
    assert(x == 0x4183c119bint);
    let (e, x) = lemma_step(g, n, e, x, false);
    assert(x == 0x2fa7ea19aint);
    let (e, x) = lemma_step(g, n, e, x, false);
    assert(x == 0x4f2e2a669int);
    let (e, x) = lemma_step(g, n, e, x, true);
    assert(x == 0x104c8e803int);
    let (e, x) = lemma_step(g, n, e, x, true);
    assert(x == 0x51d3bd6aint);
    let (e, x) = lemma_step(g, n, e, x, true);
    assert(x == 0x602c20c9cint);
    let (e, x) = lemma_step(g, n, e, x, false);
    assert(x == 0x45e33b7b8int);
    let (e, x) = lemma_step(g, n, e, x, false);
    assert(x == 0x12993773cint);
    let (e, x) = lemma_step(g, n, e, x, false);
    assert(x == 0x4df8f66e6int);
    let (e, x) = lemma_step(g, n, e, x, true);
    assert(x == 0xb941e26aint);
    let (e, x) = lemma_step(g, n, e, x, true);
    assert(x == 0x77f7f8a68int);
    let (e, x) = lemma_step(g, n, e, x, false);
    assert(x == 0x18dbd9f2aint);
    let (e, x) = lemma_step(g, n, e, x, false);
    assert(x == 0x3376016e5int);
    let (e, x) = lemma_step(g, n, e, x, false);
    assert(x == 0x76f7a87a7int);
    let (e, x) = lemma_step(g, n, e, x, false);
    assert(x == 0x16e5c8443int);
    let (e, x) = lemma_step(g, n, e, x, false);
    assert(x == 0x3578fbd75int);
    let (e, x) = lemma_step(g, n, e, x, false);
    assert(x == 0x3dd25c4f9int);
    let (e, x) = lemma_step(g, n, e, x, false);
    assert(x == 0x6dc357e6cint);
    let (e, x) = lemma_step(g, n, e, x, false);
    assert(x == 0x19f8d26d3int);
    let (e, x) = lemma_step(g, n, e, x, true);
    assert(x == 0x63386ad13int);
    let (e, x) = lemma_step(g, n, e, x, true);
    assert(x == 0x67824a2b2int);
    assert(e == 0x4b538c03nat);
}

/// A power modulo 0x83d235055.
proof fn lemma_power_35385462869_2()
    ensures
        pow(0x67824a2b2int, 7nat) % 0x83d235055int == 0x83d235054int,
{
    let g = 0x67824a2b2int;
    let n = 0x83d235055int;
    lemma_start(g, n);
    let (e, x) = (0nat, 1int);
    let (e, x) = lemma_step(g, n, e, x, true);
    assert(x == 0x67824a2b2int);
    let (e, x) = lemma_step(g, n, e, x, true);
    assert(x == 0x16bbb16e6int);
    let (e, x) = lemma_step(g, n, e, x, true);
    assert(x == 0x83d235054int);
    assert(e == 7nat);
}

/// A power modulo 0x83d235055.
proof fn lemma_power_35385462869_3()
    ensures
        pow(0x67824a2b2int, 2nat) % 0x83d235055int == 0x28e376619int,
{
    let g = 0x67824a2b2int;
    let n = 0x83d235055int;
    lemma_start(g, n);
    let (e, x) = (0nat, 1int);
    let (e, x) = lemma_step(g, n, e, x, true);
    assert(x == 0x67824a2b2int);
    let (e, x) = lemma_step(g, n, e, x, false);
    assert(x == 0x28e376619int);
    assert(e == 2nat);
}

/// A power modulo 0x83d235055.
proof fn lemma_power_35385462869_4()
    ensures
        pow(4int, 14nat) % 0x83d235055int == 0x10000000int,
{
    let g = 4int;
    let n = 0x83d235055int;
    lemma_start(g, n);
    let (e, x) = (0nat, 1int);
    let (e, x) = lemma_step(g, n, e, x, true);
    assert(x == 4int);
    let (e, x) = lemma_step(g, n, e, x, true);
    assert(x == 64int);
    let (e, x) = lemma_step(g, n, e, x, true);
    assert(x == 16384int);
    let (e, x) = lemma_step(g, n, e, x, false);
    assert(x == 0x10000000int);
    assert(e == 14nat);
}

/// A power modulo 0x83d235055.
proof fn lemma_power_35385462869_5()
    ensures
        pow(0x83d235054int, 2nat) % 0x83d235055int == 1int,
{
    let g = 0x83d235054int;
    let n = 0x83d235055int;
    lemma_start(g, n);
    let (e, x) = (0nat, 1int);
    let (e, x) = lemma_step(g, n, e, x, true);
    assert(x == 0x83d235054int);
    let (e, x) = lemma_step(g, n, e, x, false);
    assert(x == 1int);
    assert(e == 2nat);
}

/// 35385462869 is prime: 2 generates the residues modulo 35385462869 other than zero.
pub proof fn lemma_prime_35385462869()
    ensures
        all_units(0x83d235055int),
        fermat(0x83d235055int),
{
    let g = 2int;
    let n = 0x83d235055int;
    let ps = seq![2int, 7int, 0x4b538c03int];
    lemma_two();
    lemma_prime_7();
    lemma_prime_1263766531();
    lemma_cover_one(ps);
    lemma_cover_step(1int, 2int, ps, 0);
    assert(2int * 1int == 2int);
    assert(factors_cover(2int, ps));
    lemma_cover_step(2int, 2int, ps, 0);
    assert(2int * 2int == 4int);
    assert(factors_cover(4int, ps));
    lemma_cover_step(4int, 7int, ps, 1);
    assert(7int * 4int == 28int);
    assert(factors_cover(28int, ps));
    lemma_cover_step(28int, 0x4b538c03int, ps, 2);
    assert(0x4b538c03int * 28int == 0x83d235054int);
    assert(factors_cover(0x83d235054int, ps));
    lemma_power_35385462869_0();
    lemma_power_35385462869_1();
    lemma_pow_compose(g, 2nat, 0x4b538c03nat, n);
    assert(2nat * 0x4b538c03nat == 0x96a71806nat);
    assert(pow(g, 0x96a71806nat) % n == 0x67824a2b2int);
    lemma_power_35385462869_2();
    lemma_pow_compose(g, 0x96a71806nat, 7nat, n);
    assert(0x96a71806nat * 7nat == 0x41e91a82anat);
    assert(pow(g, 0x41e91a82anat) % n == 0x83d235054int);
    lemma_power_35385462869_3();
    lemma_pow_compose(g, 0x96a71806nat, 2nat, n);
    assert(0x96a71806nat * 2nat == 0x12d4e300cnat);
    assert(pow(g, 0x12d4e300cnat) % n == 0x28e376619int);
    lemma_power_35385462869_4();
    lemma_pow_compose(g, 2nat, 14nat, n);
    assert(2nat * 14nat == 28nat);
    assert(pow(g, 28nat) % n == 0x10000000int);
    lemma_power_35385462869_5();
    lemma_pow_compose(g, 0x41e91a82anat, 2nat, n);
    assert(0x41e91a82anat * 2nat == 0x83d235054nat);
    assert(pow(g, 0x83d235054nat) % n == 1);
    assert forall|i: int| 0 <= i < ps.len() implies (#[trigger] ps[i]) > 1 && (n - 1) % ps[i] == 0
        && pow(g, ((n - 1) / ps[i]) as nat) % n != 1 by {
        if i == 0 {
            assert(ps[0] == 2int);
            assert(0x83d235054int % 2int == 0);
            assert(0x83d235054int / 2int == 0x41e91a82aint);
        }
        if i == 1 {
            assert(ps[1] == 7int);
            assert(0x83d235054int % 7int == 0);
            assert(0x83d235054int / 7int == 0x12d4e300cint);
        }
        if i == 2 {
            assert(ps[2] == 0x4b538c03int);
            assert(0x83d235054int % 0x4b538c03int == 0);
            assert(0x83d235054int / 0x4b538c03int == 28int);
        }
    }
    lemma_lucas(n, g, ps);
}

/// A power modulo 0x8d057ad4a4eb7.
proof fn lemma_power_2480874801745591_0()
    ensures
        pow(6int, 3nat) % 0x8d057ad4a4eb7int == 216int,
{
    let g = 6int;
    let n = 0x8d057ad4a4eb7int;
    lemma_start(g, n);
    let (e, x) = (0nat, 1int);
    let (e, x) = lemma_step(g, n, e, x, true);
    assert(x == 6int);
    let (e, x) = lemma_step(g, n, e, x, true);
    assert(x == 216int);
    assert(e == 3nat);
}

/// A power modulo 0x8d057ad4a4eb7.
proof fn lemma_power_2480874801745591_1()
    ensures
        pow(216int, 0x83d235055nat) % 0x8d057ad4a4eb7int == 0x7caaaebd4afbaint,
{
    let g = 216int;
    let n = 0x8d057ad4a4eb7int;
    lemma_start(g, n);
    let (e, x) = (0nat, 1int);
    let (e, x) = lemma_step(g, n, e, x, true);
    assert(x == 216int);
    let (e, x) = lemma_step(g, n, e, x, false);
    assert(x == 46656int);
    let (e, x) = lemma_step(g, n, e, x, false);
    assert(x == 0x81bf1000int);
    let (e, x) = lemma_step(g, n, e, x, false);
    assert(x == 0x87ee9a5e3055dint);
    let (e, x) = lemma_step(g, n, e, x, false);
    assert(x == 0x7413c21de5a00int);
    let (e, x) = lemma_step(g, n, e, x, false);
    assert(x == 0x5d26e72eb9602int);
    let (e, x) = lemma_step(g, n, e, x, true);
    assert(x == 0x4b187a14eef86int);
    let (e, x) = lemma_step(g, n, e, x, true);
    assert(x == 0x45236a2e8fd49int);
    let (e, x) = lemma_step(g, n, e, x, true);
    assert(x == 0x75dd9465e84e5int);
    let (e, x) = lemma_step(g, n, e, x, true);
    assert(x == 0x2e9388a2667d0int);
    let (e, x) = lemma_step(g, n, e, x, false);
    assert(x == 0x4bb3629aa7d09int);
    let (e, x) = lemma_step(g, n, e, x, true);
    assert(x == 0x51eefbe901132int);
    let (e, x) = lemma_step(g, n, e, x, false);
    assert(x == 0x173a02b4705bdint);
    let (e, x) = lemma_step(g, n, e, x, false);
    assert(x == 0xfc4ee4d27a9eint);
    let (e, x) = lemma_step(g, n, e, x, true);
    assert(x == 0x7b587fa516af1int);
    let (e, x) = lemma_step(g, n, e, x, false);
    assert(x == 0x50d253d9a0d21int);
    let (e, x) = lemma_step(g, n, e, x, false);
    assert(x == 0x3c16040937ae9int);
    let (e, x) = lemma_step(g, n, e, x, false);
    assert(x == 0x1e7dd7f2fbacdint);
    let (e, x) = lemma_step(g, n, e, x, true);
    assert(x == 0x77f1c4ebef429int);
    let (e, x) = lemma_step(g, n, e, x, true);
    assert(x == 0x5129be9304dcdint);
    let (e, x) = lemma_step(g, n, e, x, false);
    assert(x == 0xe981eb0d4214int);
    let (e, x) = lemma_step(g, n, e, x, true);
    assert(x == 0x342ebf5b6d7ecint);
    let (e, x) = lemma_step(g, n, e, x, false);
    assert(x == 0x77461e9ac0bfint);
    let (e, x) = lemma_step(g, n, e, x, true);
    assert(x == 0x1510ab9ce2ef0int);
    let (e, x) = lemma_step(g, n, e, x, false);
    assert(x == 0x42af8eaf70e27int);
    let (e, x) = lemma_step(g, n, e, x, false);
    assert(x == 0x82ad0a6f315e4int);
    let (e, x) = lemma_step(g, n, e, x, false);
    assert(x == 0x436d4ea5abdaeint);
    let (e, x) = lemma_step(g, n, e, x, false);
    assert(x == 0x46ff58b8122b9int);
    let (e, x) = lemma_step(g, n, e, x, false);
    assert(x == 0x700bd8cef3de9int);
    let (e, x) = lemma_step(g, n, e, x, true);
    assert(x == 0x31aa535e4de2cint);
    let (e, x) = lemma_step(g, n, e, x, false);
    assert(x == 0x32a535cbabd68int);
    let (e, x) = lemma_step(g, n, e, x, true);
    assert(x == 0x410402f56439bint);
    let (e, x) = lemma_step(g, n, e, x, false);
    assert(x == 0x1d9d1fff46164int);
    let (e, x) = lemma_step(g, n, e, x, true);
    assert(x == 0x6ac90264a4ec2int);
    let (e, x) = lemma_step(g, n, e, x, false);
    assert(x == 0x5cd0f5741e6cint);
    let (e, x) = lemma_step(g, n, e, x, true);
    assert(x == 0x7caaaebd4afbaint);
    assert(e == 0x83d235055nat);
}

/// A power modulo 0x8d057ad4a4eb7.
proof fn lemma_power_2480874801745591_2()
    ensures
        pow(0x7caaaebd4afbaint, 779nat) % 0x8d057ad4a4eb7int == 0x4c9ba5fd40892int,
{
    let g = 0x7caaaebd4afbaint;
    let n = 0x8d057ad4a4eb7int;
    lemma_start(g, n);
    let (e, x) = (0nat, 1int);
    let (e, x) = lemma_step(g, n, e, x, true);
    assert(x == 0x7caaaebd4afbaint);
    let (e, x) = lemma_step(g, n, e, x, true);
    assert(x == 0x6c786c133e4e8int);
    let (e, x) = lemma_step(g, n, e, x, false);
    assert(x == 0x9738b4e2a764int);
    let (e, x) = lemma_step(g, n, e, x, false);
    assert(x == 0x6cee984759370int);
    let (e, x) = lemma_step(g, n, e, x, false);
    assert(x == 0x817a9fe5c287bint);
    let (e, x) = lemma_step(g, n, e, x, false);
    assert(x == 0xb89ef1926aadint);
    let (e, x) = lemma_step(g, n, e, x, true);
    assert(x == 0x7d035aba82372int);
    let (e, x) = lemma_step(g, n, e, x, false);
    assert(x == 0x2081f961c7ce3int);
    let (e, x) = lemma_step(g, n, e, x, true);
    assert(x == 0x33a40bac40a95int);
    let (e, x) = lemma_step(g, n, e, x, true);
    assert(x == 0x4c9ba5fd40892int);
    assert(e == 779nat);
}

/// A power modulo 0x8d057ad4a4eb7.
proof fn lemma_power_2480874801745591_3()
    ensures
        pow(0x4c9ba5fd40892int, 6nat) % 0x8d057ad4a4eb7int == 0x67e0437bc462bint,
{
    let g = 0x4c9ba5fd40892int;
    let n = 0x8d057ad4a4eb7int;
    lemma_start(g, n);
    let (e, x) = (0nat, 1int);
    let (e, x) = lemma_step(g, n, e, x, true);
    assert(x == 0x4c9ba5fd40892int);
    let (e, x) = lemma_step(g, n, e, x, true);
    assert(x == 0x14f68bde30414int);
    let (e, x) = lemma_step(g, n, e, x, false);
    assert(x == 0x67e0437bc462bint);
    assert(e == 6nat);
}

/// A power modulo 0x8d057ad4a4eb7.
proof fn lemma_power_2480874801745591_4()
    ensures
        pow(0x4c9ba5fd40892int, 5nat) % 0x8d057ad4a4eb7int == 0x88db7ec09baa0int,
{
    let g = 0x4c9ba5fd40892int;
    let n = 0x8d057ad4a4eb7int;
    lemma_start(g, n);
    let (e, x) = (0nat, 1int);
    let (e, x) = lemma_step(g, n, e, x, true);
    assert(x == 0x4c9ba5fd40892int);
    let (e, x) = lemma_step(g, n, e, x, false);
    assert(x == 0x59743c44bf9f8int);
    let (e, x) = lemma_step(g, n, e, x, true);
    assert(x == 0x88db7ec09baa0int);
    assert(e == 5nat);
}

/// A power modulo 0x8d057ad4a4eb7.
proof fn lemma_power_2480874801745591_5()
    ensures
        pow(0x88db7ec09baa0int, 3nat) % 0x8d057ad4a4eb7int == 0x8d057ad4a4eb6int,
{
    let g = 0x88db7ec09baa0int;
    let n = 0x8d057ad4a4eb7int;
    lemma_start(g, n);
    let (e, x) = (0nat, 1int);
    let (e, x) = lemma_step(g, n, e, x, true);
    assert(x == 0x88db7ec09baa0int);
    let (e, x) = lemma_step(g, n, e, x, true);
    assert(x == 0x8d057ad4a4eb6int);
    assert(e == 3nat);
}

/// A power modulo 0x8d057ad4a4eb7.
proof fn lemma_power_2480874801745591_6()
    ensures
        pow(0x88db7ec09baa0int, 2nat) % 0x8d057ad4a4eb7int == 0x88db7ec09ba9fint,
{
    let g = 0x88db7ec09baa0int;
    let n = 0x8d057ad4a4eb7int;
    lemma_start(g, n);
    let (e, x) = (0nat, 1int);
    let (e, x) = lemma_step(g, n, e, x, true);
    assert(x == 0x88db7ec09baa0int);
    let (e, x) = lemma_step(g, n, e, x, false);
    assert(x == 0x88db7ec09ba9fint);
    assert(e == 2nat);
}

/// A power modulo 0x8d057ad4a4eb7.
proof fn lemma_power_2480874801745591_7()
    ensures
        pow(0x7caaaebd4afbaint, 30nat) % 0x8d057ad4a4eb7int == 0x83eeae90b2ca3int,
{
    let g = 0x7caaaebd4afbaint;
    let n = 0x8d057ad4a4eb7int;
    lemma_start(g, n);
    let (e, x) = (0nat, 1int);
    let (e, x) = lemma_step(g, n, e, x, true);
    assert(x == 0x7caaaebd4afbaint);
    let (e, x) = lemma_step(g, n, e, x, true);
    assert(x == 0x6c786c133e4e8int);
    let (e, x) = lemma_step(g, n, e, x, true);
    assert(x == 0x1ec09a3233727int);
    let (e, x) = lemma_step(g, n, e, x, true);
    assert(x == 0x8c6c477e14e78int);
    let (e, x) = lemma_step(g, n, e, x, false);
    assert(x == 0x83eeae90b2ca3int);
    assert(e == 30nat);
}

/// A power modulo 0x8d057ad4a4eb7.
proof fn lemma_power_2480874801745591_8()
    ensures
        pow(0x83eeae90b2ca3int, 41nat) % 0x8d057ad4a4eb7int == 0x42a35346a34bbint,
{
    let g = 0x83eeae90b2ca3int;
    let n = 0x8d057ad4a4eb7int;
    lemma_start(g, n);
    let (e, x) = (0nat, 1int);
    let (e, x) = lemma_step(g, n, e, x, true);
    assert(x == 0x83eeae90b2ca3int);
    let (e, x) = lemma_step(g, n, e, x, false);
    assert(x == 0x478902839cdfint);
    let (e, x) = lemma_step(g, n, e, x, true);
    assert(x == 0x20b612d1f8ddbint);
    let (e, x) = lemma_step(g, n, e, x, false);
    assert(x == 0x28078a78528d6int);
    let (e, x) = lemma_step(g, n, e, x, false);
    assert(x == 0x631bf6ac056baint);
    let (e, x) = lemma_step(g, n, e, x, true);
    assert(x == 0x42a35346a34bbint);
    assert(e == 41nat);
}

/// A power modulo 0x8d057ad4a4eb7.
proof fn lemma_power_2480874801745591_9()
    ensures
        pow(0x83eeae90b2ca3int, 19nat) % 0x8d057ad4a4eb7int == 0x8199e60ece2d0int,
{
    let g = 0x83eeae90b2ca3int;
    let n = 0x8d057ad4a4eb7int;
    lemma_start(g, n);
    let (e, x) = (0nat, 1int);
    let (e, x) = lemma_step(g, n, e, x, true);
    assert(x == 0x83eeae90b2ca3int);
    let (e, x) = lemma_step(g, n, e, x, false);
    assert(x == 0x478902839cdfint);
    let (e, x) = lemma_step(g, n, e, x, false);
    assert(x == 0x665a17e3c0275int);
    let (e, x) = lemma_step(g, n, e, x, true);
    assert(x == 0x61f4b1871e2cfint);
    let (e, x) = lemma_step(g, n, e, x, true);
    assert(x == 0x8199e60ece2d0int);
    assert(e == 19nat);
}

/// A power modulo 0x8d057ad4a4eb7.
proof fn lemma_power_2480874801745591_10()
    ensures
        pow(216int, 23370nat) % 0x8d057ad4a4eb7int == 0x66f656c41b976int,
{
    let g = 216int;
    let n = 0x8d057ad4a4eb7int;
    lemma_start(g, n);
    let (e, x) = (0nat, 1int);
    let (e, x) = lemma_step(g, n, e, x, true);
    assert(x == 216int);
    let (e, x) = lemma_step(g, n, e, x, false);
    assert(x == 46656int);
    let (e, x) = lemma_step(g, n, e, x, true);
    assert(x == 0x6d79358000int);
    let (e, x) = lemma_step(g, n, e, x, true);
    assert(x == 0xdb624379e487int);
    let (e, x) = lemma_step(g, n, e, x, false);
    assert(x == 0x639fceab720abint);
    let (e, x) = lemma_step(g, n, e, x, true);
    assert(x == 0x135f1b317788cint);
    let (e, x) = lemma_step(g, n, e, x, true);
    assert(x == 0x5491b89a53a58int);
    let (e, x) = lemma_step(g, n, e, x, false);
    assert(x == 0xbd82e310fa8aint);
    let (e, x) = lemma_step(g, n, e, x, true);
    assert(x == 0x6c6cec2a3118bint);
    let (e, x) = lemma_step(g, n, e, x, false);
    assert(x == 0xd46dff7de919int);
    let (e, x) = lemma_step(g, n, e, x, false);
    assert(x == 0x61cff8321482cint);
    let (e, x) = lemma_step(g, n, e, x, true);
    assert(x == 0x3fba031528277int);
    let (e, x) = lemma_step(g, n, e, x, false);
    assert(x == 0x8529d363b2377int);
    let (e, x) = lemma_step(g, n, e, x, true);
    assert(x == 0x79e2630c59b53int);
    let (e, x) = lemma_step(g, n, e, x, false);
    assert(x == 0x66f656c41b976int);
    assert(e == 23370nat);
}

/// A power modulo 0x8d057ad4a4eb7.
proof fn lemma_power_2480874801745591_11()
    ensures
        pow(0x8d057ad4a4eb6int, 2nat) % 0x8d057ad4a4eb7int == 1int,
{
    let g = 0x8d057ad4a4eb6int;
    let n = 0x8d057ad4a4eb7int;
    lemma_start(g, n);
    let (e, x) = (0nat, 1int);
    let (e, x) = lemma_step(g, n, e, x, true);
    assert(x == 0x8d057ad4a4eb6int);
    let (e, x) = lemma_step(g, n, e, x, false);
    assert(x == 1int);
    assert(e == 2nat);
}

/// 2480874801745591 is prime: 6 generates the residues modulo 2480874801745591 other than zero.
pub proof fn lemma_prime_2480874801745591()
    ensures
        all_units(0x8d057ad4a4eb7int),
        fermat(0x8d057ad4a4eb7int),
{
    let g = 6int;
    let n = 0x8d057ad4a4eb7int;
    let ps = seq![2int, 3int, 5int, 19int, 41int, 0x83d235055int];
    lemma_two();
    lemma_prime_3();
    lemma_prime_5();
    lemma_prime_19();
    lemma_prime_41();
    lemma_prime_35385462869();
    lemma_cover_one(ps);
    lemma_cover_step(1int, 2int, ps, 0);
    assert(2int * 1int == 2int);
    assert(factors_cover(2int, ps));
    lemma_cover_step(2int, 3int, ps, 1);
    assert(3int * 2int == 6int);
    assert(factors_cover(6int, ps));
    lemma_cover_step(6int, 3int, ps, 1);
    assert(3int * 6int == 18int);
    assert(factors_cover(18int, ps));
    lemma_cover_step(18int, 5int, ps, 2);
    assert(5int * 18int == 90int);
    assert(factors_cover(90int, ps));
    lemma_cover_step(90int, 19int, ps, 3);
    assert(19int * 90int == 1710int);
    assert(factors_cover(1710int, ps));
    lemma_cover_step(1710int, 41int, ps, 4);
    assert(41int * 1710int == 70110int);
    assert(factors_cover(70110int, ps));
    lemma_cover_step(70110int, 0x83d235055int, ps, 5);
    assert(0x83d235055int * 70110int == 0x8d057ad4a4eb6int);
    assert(factors_cover(0x8d057ad4a4eb6int, ps));
    lemma_power_2480874801745591_0();
    lemma_power_2480874801745591_1();
    lemma_pow_compose(g, 3nat, 0x83d235055nat, n);
    assert(3nat * 0x83d235055nat == 0x18b769f0ffnat);
    assert(pow(g, 0x18b769f0ffnat) % n == 0x7caaaebd4afbaint);
    lemma_power_2480874801745591_2();
    lemma_pow_compose(g, 0x18b769f0ffnat, 779nat, n);
    assert(0x18b769f0ffnat * 779nat == 0x4b361f6057f5nat);
    assert(pow(g, 0x4b361f6057f5nat) % n == 0x4c9ba5fd40892int);
    lemma_power_2480874801745591_3();
    lemma_pow_compose(g, 0x4b361f6057f5nat, 6nat, n);
    assert(0x4b361f6057f5nat * 6nat == 0x1c344bc420fbenat);
    assert(pow(g, 0x1c344bc420fbenat) % n == 0x67e0437bc462bint);
    lemma_power_2480874801745591_4();
    lemma_pow_compose(g, 0x4b361f6057f5nat, 5nat, n);
    assert(0x4b361f6057f5nat * 5nat == 0x1780e9ce1b7c9nat);
    assert(pow(g, 0x1780e9ce1b7c9nat) % n == 0x88db7ec09baa0int);
    lemma_power_2480874801745591_5();
    lemma_pow_compose(g, 0x1780e9ce1b7c9nat, 3nat, n);
    assert(0x1780e9ce1b7c9nat * 3nat == 0x4682bd6a5275bnat);
    assert(pow(g, 0x4682bd6a5275bnat) % n == 0x8d057ad4a4eb6int);
    lemma_power_2480874801745591_6();
    lemma_pow_compose(g, 0x1780e9ce1b7c9nat, 2nat, n);
    assert(0x1780e9ce1b7c9nat * 2nat == 0x2f01d39c36f92nat);
    assert(pow(g, 0x2f01d39c36f92nat) % n == 0x88db7ec09ba9fint);
    lemma_power_2480874801745591_7();
    lemma_pow_compose(g, 0x18b769f0ffnat, 30nat, n);
    assert(0x18b769f0ffnat * 30nat == 0x2e57e6a3de2nat);
    assert(pow(g, 0x2e57e6a3de2nat) % n == 0x83eeae90b2ca3int);
    lemma_power_2480874801745591_8();
    lemma_pow_compose(g, 0x2e57e6a3de2nat, 41nat, n);
    assert(0x2e57e6a3de2nat * 41nat == 0x76c13f03e932nat);
    assert(pow(g, 0x76c13f03e932nat) % n == 0x42a35346a34bbint);
    lemma_power_2480874801745591_9();
    lemma_pow_compose(g, 0x2e57e6a3de2nat, 19nat, n);
    assert(0x2e57e6a3de2nat * 19nat == 0x370861e297c6nat);
    assert(pow(g, 0x370861e297c6nat) % n == 0x8199e60ece2d0int);
    lemma_power_2480874801745591_10();
    lemma_pow_compose(g, 3nat, 23370nat, n);
    assert(3nat * 23370nat == 70110nat);
    assert(pow(g, 70110nat) % n == 0x66f656c41b976int);
    lemma_power_2480874801745591_11();
    lemma_pow_compose(g, 0x4682bd6a5275bnat, 2nat, n);
    assert(0x4682bd6a5275bnat * 2nat == 0x8d057ad4a4eb6nat);
    assert(pow(g, 0x8d057ad4a4eb6nat) % n == 1);
    assert forall|i: int| 0 <= i < ps.len() implies (#[trigger] ps[i]) > 1 && (n - 1) % ps[i] == 0
        && pow(g, ((n - 1) / ps[i]) as nat) % n != 1 by {
        if i == 0 {
            assert(ps[0] == 2int);
            assert(0x8d057ad4a4eb6int % 2int == 0);
            assert(0x8d057ad4a4eb6int / 2int == 0x4682bd6a5275bint);
        }
        if i == 1 {
            assert(ps[1] == 3int);
            assert(0x8d057ad4a4eb6int % 3int == 0);
            assert(0x8d057ad4a4eb6int / 3int == 0x2f01d39c36f92int);
        }
        if i == 2 {
            assert(ps[2] == 5int);
            assert(0x8d057ad4a4eb6int % 5int == 0);
            assert(0x8d057ad4a4eb6int / 5int == 0x1c344bc420fbeint);
        }
        if i == 3 {
            assert(ps[3] == 19int);
            assert(0x8d057ad4a4eb6int % 19int == 0);
            assert(0x8d057ad4a4eb6int / 19int == 0x76c13f03e932int);
        }
        if i == 4 {
            assert(ps[4] == 41int);
            assert(0x8d057ad4a4eb6int % 41int == 0);
            assert(0x8d057ad4a4eb6int / 41int == 0x370861e297c6int);
        }
        if i == 5 {
            assert(ps[5] == 0x83d235055int);
            assert(0x8d057ad4a4eb6int % 0x83d235055int == 0);
            assert(0x8d057ad4a4eb6int / 0x83d235055int == 70110int);
        }
    }
    lemma_lucas(n, g, ps);
}

/// A power modulo 0x2775dec4d2fd445d02a32aa0f59b66aa11.
proof fn lemma_power_13427688667394608761327070753331941386769_0()
    ensures
        pow(17int, 8nat) % 0x2775dec4d2fd445d02a32aa0f59b66aa11int == 0x19fc99c81int,
{
    let g = 17int;
    let n = 0x2775dec4d2fd445d02a32aa0f59b66aa11int;
    lemma_start(g, n);
    let (e, x) = (0nat, 1int);
    let (e, x) = lemma_step(g, n, e, x, true);
    assert(x == 17int);
    let (e, x) = lemma_step(g, n, e, x, false);
    assert(x == 289int);
    let (e, x) = lemma_step(g, n, e, x, false);
    assert(x == 83521int);
    let (e, x) = lemma_step(g, n, e, x, false);
    assert(x == 0x19fc99c81int);
    assert(e == 8nat);
}

/// A power modulo 0x2775dec4d2fd445d02a32aa0f59b66aa11.
proof fn lemma_power_13427688667394608761327070753331941386769_1()
    ensures
        pow(0x19fc99c81int, 0x8f446682ce4f560c72cenat) % 0x2775dec4d2fd445d02a32aa0f59b66aa11int == 0x1e2a8b989b2992b243f0fa4d66f97a8244int,
{
    let g = 0x19fc99c81int;
    let n = 0x2775dec4d2fd445d02a32aa0f59b66aa11int;
    lemma_start(g, n);
    let (e, x) = (0nat, 1int);
    let (e, x) = lemma_step(g, n, e, x, true);
    assert(x == 0x19fc99c81int);
    let (e, x) = lemma_step(g, n, e, x, false);
    assert(x == 0x2a34f4831603f7901int);
    let (e, x) = lemma_step(g, n, e, x, false);
    assert(x == 0x6f56b2f420463eef1a52a8cdf87aff201int);
    let (e, x) = lemma_step(g, n, e, x, false);
    assert(x == 0x9e69e5415b678357cf4e3440311f7805dint);
    let (e, x) = lemma_step(g, n, e, x, true);
    assert(x == 0xb8a930002c871e5a670c74c0dd9dd5dccint);
    let (e, x) = lemma_step(g, n, e, x, true);
    assert(x == 0x1f2cf0aa137a4f1cffe54951d069c4da5eint);
    let (e, x) = lemma_step(g, n, e, x, true);
    assert(x == 0x1cf2bf0e6b7a130a4c2a15ff16f37ef7a8int);
    let (e, x) = lemma_step(g, n, e, x, true);
    assert(x == 0xd7f4bf67503807a624eec639834007760int);
    let (e, x) = lemma_step(g, n, e, x, false);
    assert(x == 0x1e44332b2c05c35fec27f57e6ec773bd2dint);
    let (e, x) = lemma_step(g, n, e, x, true);
    assert(x == 0x1ade1fbd076cee6dbe2362ac984265a38eint);
    let (e, x) = lemma_step(g, n, e, x, false);
    assert(x == 0xee73c6f8630e3320c734afedff865295dint);
    let (e, x) = lemma_step(g, n, e, x, false);
    assert(x == 0x953f6218c9718c21e5e2f38f55cf35645int);
    let (e, x) = lemma_step(g, n, e, x, false);
    assert(x == 0xf94ecb7cfcd7e98b62f01d77c5df15d9dint);
    let (e, x) = lemma_step(g, n, e, x, true);
    assert(x == 0x151c6fbd566bafd47828e81769c6f68c25int);
    let (e, x) = lemma_step(g, n, e, x, false);
    assert(x == 0x152e9af3acbbdc05bd95f5eb219ebd32c5int);
    let (e, x) = lemma_step(g, n, e, x, false);
    assert(x == 0x10b9a3073609550d66ccb34012219fda0aint);
    let (e, x) = lemma_step(g, n, e, x, false);
    assert(x == 0x1a86ed3d87e9fee2623c88b59b0abba64bint);
    let (e, x) = lemma_step(g, n, e, x, true);
    assert(x == 0x1d5fa965c0806bb31fba0f3d344f4c51baint);
    let (e, x) = lemma_step(g, n, e, x, true);
    assert(x == 0x907e13b4dc2adc29ffd22863bcf40db28int);
    let (e, x) = lemma_step(g, n, e, x, false);
    assert(x == 0x1434865fd86d16804d46335727e2e42d1aint);
    let (e, x) = lemma_step(g, n, e, x, false);
    assert(x == 0x1ab6e312cb4164c852cc438c5322e5e1c1int);
    let (e, x) = lemma_step(g, n, e, x, true);
    assert(x == 0xbb946b2eb405ef6d581e57aebeff3ccedint);
    let (e, x) = lemma_step(g, n, e, x, true);
    assert(x == 0x1479ad466f7e180c669a4538fe9179042dint);
    let (e, x) = lemma_step(g, n, e, x, false);
    assert(x == 0x448488dd0d2f7895ff8c759399a02d47cint);
    let (e, x) = lemma_step(g, n, e, x, true);
    assert(x == 0xf7381e439896111fdf2d916f5b43c32d3int);
    let (e, x) = lemma_step(g, n, e, x, false);
    assert(x == 0x2373060f3d6b4f0d895f76c1aa14c8106bint);
    let (e, x) = lemma_step(g, n, e, x, false);
    assert(x == 0x196d3f4ede580024054f59f3bed5e20faeint);
    let (e, x) = lemma_step(g, n, e, x, false);
    assert(x == 0x26f100541434ceee77582b9544e24c74f5int);
    let (e, x) = lemma_step(g, n, e, x, false);
    assert(x == 0x259a6f777d5efb983d241ec84e699b6b70int);
    let (e, x) = lemma_step(g, n, e, x, false);
    assert(x == 0xd89ba076e502f5ac125af5ed7e304f71fint);
    let (e, x) = lemma_step(g, n, e, x, true);
    assert(x == 0xa519c0aa7b55394599d7062e25f8b3c60int);
    let (e, x) = lemma_step(g, n, e, x, false);
    assert(x == 0x1bc97b59f523bb05e46e472841c7f6b307int);
    let (e, x) = lemma_step(g, n, e, x, true);
    assert(x == 0xb54b2b0993dad2e44aacdeb6793cd6af9int);
    let (e, x) = lemma_step(g, n, e, x, true);
    assert(x == 0x7bbd5633956e8278573f21f9a0e0d67baint);
    let (e, x) = lemma_step(g, n, e, x, false);
    assert(x == 0x13debea63d2b8a79e59e83ef602b924e67int);
    let (e, x) = lemma_step(g, n, e, x, false);
    assert(x == 0x18ba064dc6a590d004b8ac06a6e512d5e0int);
    let (e, x) = lemma_step(g, n, e, x, true);
    assert(x == 0xfc2f69a6f0ae9716d8f8d4069967fe957int);
    let (e, x) = lemma_step(g, n, e, x, true);
    assert(x == 0x1f9f51377dde9458473025c3689dcc5ebint);
    let (e, x) = lemma_step(g, n, e, x, true);
    assert(x == 0x13e79e979991f6e2fa62882413bbd75db8int);
    let (e, x) = lemma_step(g, n, e, x, false);
    assert(x == 0x269613a5c7d0ec41c0a667dbf95327ab13int);
    let (e, x) = lemma_step(g, n, e, x, false);
    assert(x == 0xe15cdc4605a85c6e33f659206b7dd3066int);
    let (e, x) = lemma_step(g, n, e, x, true);
    assert(x == 0x16c71229c0d115fb15f1cf3ebd4a485a09int);
    let (e, x) = lemma_step(g, n, e, x, false);
    assert(x == 0x238b8dd17ea1af7a8794ec315c68536e83int);
    let (e, x) = lemma_step(g, n, e, x, false);
    assert(x == 0x22c30eb4dabc0fa83b0baca4bc4db65789int);
    let (e, x) = lemma_step(g, n, e, x, true);
    assert(x == 0x26ea276e16d3937b9f4fe94746cdb79fc1int);
    let (e, x) = lemma_step(g, n, e, x, true);
    assert(x == 0x17cefa6c79ac5aec4824c954e30c9daaf5int);
    let (e, x) = lemma_step(g, n, e, x, true);
    assert(x == 0x17f255ffb7951d7eff8b8262f69c2541eaint);
    let (e, x) = lemma_step(g, n, e, x, true);
    assert(x == 0x1fd7365da91443aa541ee04499fee354f6int);
    let (e, x) = lemma_step(g, n, e, x, false);
    assert(x == 0x4c6247c797759987f2bffc5211e945912int);
    let (e, x) = lemma_step(g, n, e, x, true);
    assert(x == 0x199659423a431507bf4bc5bebe4a0fe097int);
    let (e, x) = lemma_step(g, n, e, x, false);
    assert(x == 0x359e6f533ac3008a04c55e97908f764cdint);
    let (e, x) = lemma_step(g, n, e, x, true);
    assert(x == 0x71e239fbed8d5149ec234887d04cc1b66int);
    let (e, x) = lemma_step(g, n, e, x, false);
    assert(x == 0x79d566d546107554c1b9ae20191b8bc48int);
    let (e, x) = lemma_step(g, n, e, x, true);
    assert(x == 0x261493caefd0b080c07be9fb21f83a8734int);
    let (e, x) = lemma_step(g, n, e, x, true);
    assert(x == 0x2ef19e2b1ea673a0c9e5945125581941eint);
    let (e, x) = lemma_step(g, n, e, x, false);
    assert(x == 0xfdb9782a279220b9a86c00d0ca3d577d3int);
    let (e, x) = lemma_step(g, n, e, x, false);
    assert(x == 0x121de543b8c12ec8b1b3fe20c08f37639bint);
    let (e, x) = lemma_step(g, n, e, x, false);
    assert(x == 0x164c6703f3f9fcead74d92f11548768f0bint);
    let (e, x) = lemma_step(g, n, e, x, false);
    assert(x == 0x1f113719a30ed6f6be1b580616f70b18c6int);
    let (e, x) = lemma_step(g, n, e, x, false);
    assert(x == 0x343cff935d4f7f0c2ccec344439ba7117int);
    let (e, x) = lemma_step(g, n, e, x, true);
    assert(x == 0x15d0f056727cac6d414f46f3ed1e1699ddint);
    let (e, x) = lemma_step(g, n, e, x, true);
    assert(x == 0x9dd6b79774cd6911bed5dba2ca315276aint);
    let (e, x) = lemma_step(g, n, e, x, false);
    assert(x == 0x15dad2be7317a21f1190b5f1e5d4f7eb67int);
    let (e, x) = lemma_step(g, n, e, x, false);
    assert(x == 0x2477f5ebe3273b0dc6001c2ae32ced01feint);
    let (e, x) = lemma_step(g, n, e, x, false);
    assert(x == 0x208dc97b410ec30365bf6d96720c15c9c7int);
    let (e, x) = lemma_step(g, n, e, x, true);
    assert(x == 0x19eb650efa0750c8697b1e59412d88356eint);
    let (e, x) = lemma_step(g, n, e, x, true);
    assert(x == 0x1bafeda5fd9e5c098191da11f03f7cfb86int);
    let (e, x) = lemma_step(g, n, e, x, true);
    assert(x == 0xa5db1bf8a04703869ddb23b80105cb7b2int);
    let (e, x) = lemma_step(g, n, e, x, false);
    assert(x == 0x255dbb55b426e50c4110c96c9581cf295fint);
    let (e, x) = lemma_step(g, n, e, x, false);
    assert(x == 0x258d29d88487e4de3969f8cd02635f8b73int);
    let (e, x) = lemma_step(g, n, e, x, true);
    assert(x == 0x901ae7e2c8fcbf8cf2977be767868a556int);
    let (e, x) = lemma_step(g, n, e, x, false);
    assert(x == 0x8d9920062378dbd994cb97a983166e9bcint);
    let (e, x) = lemma_step(g, n, e, x, true);
    assert(x == 0x56e21593bb9f7a4e2c0951c842a9282c2int);
    let (e, x) = lemma_step(g, n, e, x, true);
    assert(x == 0x5dba75b6ddb8545566481c1f49f85439bint);
    let (e, x) = lemma_step(g, n, e, x, false);
    assert(x == 0x100b3a5bb4b06a5ff67cef87a93b2e754aint);
    let (e, x) = lemma_step(g, n, e, x, false);
    assert(x == 0x8030f2ea6a014046a334c8a4562cb30c7int);
    let (e, x) = lemma_step(g, n, e, x, true);
    assert(x == 0x6a2eba9aa7388eba62042c94182d2271fint);
    let (e, x) = lemma_step(g, n, e, x, true);
    assert(x == 0x91f54f65876232ffe02bcd8d1daa246e1int);
    let (e, x) = lemma_step(g, n, e, x, true);
    assert(x == 0x1778c1749efae85f55c0653b3fffe1efa3int);
    let (e, x) = lemma_step(g, n, e, x, false);
    assert(x == 0x1e2a8b989b2992b243f0fa4d66f97a8244int);
    assert(e == 0x8f446682ce4f560c72cenat);
}

/// A power modulo 0x2775dec4d2fd445d02a32aa0f59b66aa11.
proof fn lemma_power_13427688667394608761327070753331941386769_2()
    ensures
        pow(0x19fc99c81int, 0x8d057ad4a4eb7nat) % 0x2775dec4d2fd445d02a32aa0f59b66aa11int == 0x2009c0c806550b805e31ecd0eb8ac2bc06int,
{
    let g = 0x19fc99c81int;
    let n = 0x2775dec4d2fd445d02a32aa0f59b66aa11int;
    lemma_start(g, n);
    let (e, x) = (0nat, 1int);
    let (e, x) = lemma_step(g, n, e, x, true);
    assert(x == 0x19fc99c81int);
    let (e, x) = lemma_step(g, n, e, x, false);
    assert(x == 0x2a34f4831603f7901int);
    let (e, x) = lemma_step(g, n, e, x, false);
    assert(x == 0x6f56b2f420463eef1a52a8cdf87aff201int);
    let (e, x) = lemma_step(g, n, e, x, false);
    assert(x == 0x9e69e5415b678357cf4e3440311f7805dint);
    let (e, x) = lemma_step(g, n, e, x, true);
    assert(x == 0xb8a930002c871e5a670c74c0dd9dd5dccint);
    let (e, x) = lemma_step(g, n, e, x, true);
    assert(x == 0x1f2cf0aa137a4f1cffe54951d069c4da5eint);
    let (e, x) = lemma_step(g, n, e, x, false);
    assert(x == 0x26fe5f7e3d222174f0489d9bb1e60542f2int);
    let (e, x) = lemma_step(g, n, e, x, true);
    assert(x == 0x29501f90c301f86f6f1de3f460c55b097int);
    let (e, x) = lemma_step(g, n, e, x, false);
    assert(x == 0x16085142bf4ea62eb051d33c5733babaa4int);
    let (e, x) = lemma_step(g, n, e, x, false);
    assert(x == 0x40a28c0e5ca78c10465cc56d98b44566eint);
    let (e, x) = lemma_step(g, n, e, x, false);
    assert(x == 0x57117219f75d8c775eaf558e1e00dcc83int);
    let (e, x) = lemma_step(g, n, e, x, false);
    assert(x == 0x11f7d66a351eabc106236059df718679f1int);
    let (e, x) = lemma_step(g, n, e, x, false);
    assert(x == 0x23272fd66047bbe5d5a0aff0b7d3787fb3int);
    let (e, x) = lemma_step(g, n, e, x, true);
    assert(x == 0x2080ea7654693aec53b5913961e2ffa227int);
    let (e, x) = lemma_step(g, n, e, x, false);
    assert(x == 0x21944e009700359acf231a692e65ed10d7int);
    let (e, x) = lemma_step(g, n, e, x, true);
    assert(x == 0x144c69e2000228bb464e3dc9a5c14fdd6dint);
    let (e, x) = lemma_step(g, n, e, x, false);
    assert(x == 0xedc8b7d7be57f19118cb3c329fc1e86b3int);
    let (e, x) = lemma_step(g, n, e, x, true);
    assert(x == 0x833ca08fab9f23924ff5ae6ad04b9a2c8int);
    let (e, x) = lemma_step(g, n, e, x, true);
    assert(x == 0x1f2e407e6547f545eb0e618eec63903e70int);
    let (e, x) = lemma_step(g, n, e, x, true);
    assert(x == 0x7eeb357b388638054e77a90d168738306int);
    let (e, x) = lemma_step(g, n, e, x, true);
    assert(x == 0x1bf52d0900fae4312af8957f2a952db7a4int);
    let (e, x) = lemma_step(g, n, e, x, false);
    assert(x == 0x1c310c55d6969416b74736edd7a4483fe1int);
    let (e, x) = lemma_step(g, n, e, x, true);
    assert(x == 0x207eae958706b1f64c1e9701b6c6c49767int);
    let (e, x) = lemma_step(g, n, e, x, false);
    assert(x == 0x74f096beccc267779abac6857ef17de57int);
    let (e, x) = lemma_step(g, n, e, x, true);
    assert(x == 0x264da6f1d468a262640429bca8d5d8ce0cint);
    let (e, x) = lemma_step(g, n, e, x, true);
    assert(x == 0x244b1091c6299d60f46cb221350b2be8fint);
    let (e, x) = lemma_step(g, n, e, x, false);
    assert(x == 0x8f00c9ed1a41ccbd34f4883c250f8df30int);
    let (e, x) = lemma_step(g, n, e, x, true);
    assert(x == 0x25adc0da50a73b4ebbe39b1412c6e1fc5cint);
    let (e, x) = lemma_step(g, n, e, x, false);
    assert(x == 0x123063f72fe8ba7841543257833681c1c3int);
    let (e, x) = lemma_step(g, n, e, x, true);
    assert(x == 0x354093e6d7d15a7b7804a5528666a18cint);
    let (e, x) = lemma_step(g, n, e, x, false);
    assert(x == 0x23b290f44512887cbd0a20555bcae4ec35int);
    let (e, x) = lemma_step(g, n, e, x, false);
    assert(x == 0x161711fccb4e87d09649d16abf6c7afbe7int);
    let (e, x) = lemma_step(g, n, e, x, true);
    assert(x == 0xe80265d8190a2a7785d58a29ea71e84f1int);
    let (e, x) = lemma_step(g, n, e, x, false);
    assert(x == 0x94a850e8d7092009676810b7b280923cdint);
    let (e, x) = lemma_step(g, n, e, x, true);
    assert(x == 0x1a6cbdb51c1950b163139b842c0c2c00adint);
    let (e, x) = lemma_step(g, n, e, x, false);
    assert(x == 0x1df587d4e9ab9fa8bb516df808c946f854int);
    let (e, x) = lemma_step(g, n, e, x, false);
    assert(x == 0x22b7ca5605df2551e9384e0e3102ef9db9int);
    let (e, x) = lemma_step(g, n, e, x, true);
    assert(x == 0x1e67581cdd4b46dff2fd37097d1a144int);
    let (e, x) = lemma_step(g, n, e, x, false);
    assert(x == 0x2140ad6851acda97bbb7a07e4bbce31d3fint);
    let (e, x) = lemma_step(g, n, e, x, false);
    assert(x == 0xeebed304162fc0ec58d5eefc6f03d1456int);
    let (e, x) = lemma_step(g, n, e, x, true);
    assert(x == 0x1becea8bac3756ff7ed04e862fe558d3b3int);
    let (e, x) = lemma_step(g, n, e, x, true);
    assert(x == 0x2149de3c4e4509f7b17c11d29ce24268ecint);
    let (e, x) = lemma_step(g, n, e, x, true);
    assert(x == 0x240cf33aa0a12146a5b1d1b243f4a8379int);
    let (e, x) = lemma_step(g, n, e, x, false);
    assert(x == 0x8015e3d70b77025dbd67cf0b82d3c8bd4int);
    let (e, x) = lemma_step(g, n, e, x, true);
    assert(x == 0x129136bc2e02a1ebeceedd033a04c776d0int);
    let (e, x) = lemma_step(g, n, e, x, false);
    assert(x == 0x95144e641c4b2a5f39b37a2c92c9bbba1int);
    let (e, x) = lemma_step(g, n, e, x, true);
    assert(x == 0x669d729e4c6678aad4636017eb2480bdint);
    let (e, x) = lemma_step(g, n, e, x, true);
    assert(x == 0x16778edf51d4b8eacc457877d095cdae26int);
    let (e, x) = lemma_step(g, n, e, x, false);
    assert(x == 0x133ab255e10d46c3b36abe8c97938a9784int);
    let (e, x) = lemma_step(g, n, e, x, true);
    assert(x == 0xe76016df40917b3fa236273b86ac9b258int);
    let (e, x) = lemma_step(g, n, e, x, true);
    assert(x == 0xc4f300042f30063c1dca833dcc655a1ebint);
    let (e, x) = lemma_step(g, n, e, x, true);
    assert(x == 0x2009c0c806550b805e31ecd0eb8ac2bc06int);
    assert(e == 0x8d057ad4a4eb7nat);
}

/// A power modulo 0x2775dec4d2fd445d02a32aa0f59b66aa11.
proof fn lemma_power_13427688667394608761327070753331941386769_3()
    ensures
        pow(0x2009c0c806550b805e31ecd0eb8ac2bc06int, 0x2ce852dae68f9nat) % 0x2775dec4d2fd445d02a32aa0f59b66aa11int == 0x19cf3f2398e25049cc7adf9edc46deb365int,
{
    let g = 0x2009c0c806550b805e31ecd0eb8ac2bc06int;
    let n = 0x2775dec4d2fd445d02a32aa0f59b66aa11int;
    lemma_start(g, n);
    let (e, x) = (0nat, 1int);
    let (e, x) = lemma_step(g, n, e, x, true);
    assert(x == 0x2009c0c806550b805e31ecd0eb8ac2bc06int);
    let (e, x) = lemma_step(g, n, e, x, false);
    assert(x == 0x1ad73bf9d90b358dcdef4eb33e7d761f03int);
    let (e, x) = lemma_step(g, n, e, x, true);
    assert(x == 0x667638db94d37667bda722022ccbce797int);
    let (e, x) = lemma_step(g, n, e, x, true);
    assert(x == 0x22bc73d00518a1f816ceda1a6947faa2f0int);
    let (e, x) = lemma_step(g, n, e, x, false);
    assert(x == 0x2e5b55d1de4ea5a3d4bd2f6e07c96d111int);
    let (e, x) = lemma_step(g, n, e, x, false);
    assert(x == 0x1720101ab5e5e1e652390f1f7a73e8f0efint);
    let (e, x) = lemma_step(g, n, e, x, true);
    assert(x == 0x654b478eca91fdd36644058233006043bint);
    let (e, x) = lemma_step(g, n, e, x, true);
    assert(x == 0x229184d47bf55c42a07f509c8213e45254int);
    let (e, x) = lemma_step(g, n, e, x, true);
    assert(x == 0x1c887ee7caf53b26d99f22a4527876b616int);
    let (e, x) = lemma_step(g, n, e, x, false);
    assert(x == 0x209e15001c9189e089f3d9581f4fccb308int);
    let (e, x) = lemma_step(g, n, e, x, true);
    assert(x == 0x1e29344e1361a7bc7716d81c45bad4bf5dint);
    let (e, x) = lemma_step(g, n, e, x, false);
    assert(x == 0x185b73bd6f99538fdf5711654eabc66139int);
    let (e, x) = lemma_step(g, n, e, x, false);
    assert(x == 0x11a2dd60130e9ef88a6249b8cad368f6fcint);
    let (e, x) = lemma_step(g, n, e, x, false);
    assert(x == 0xe46134ae8bf1b01fd39735bc2f3d63a29int);
    let (e, x) = lemma_step(g, n, e, x, false);
    assert(x == 0x5b4baafabe396d6ddd05c0aeb260cdf68int);
    let (e, x) = lemma_step(g, n, e, x, true);
    assert(x == 0x1506061b0173b1fb8ca913fd82f7daf367int);
    let (e, x) = lemma_step(g, n, e, x, false);
    assert(x == 0x22301e58c9cdb4a74add6d0fe46843bdd4int);
    let (e, x) = lemma_step(g, n, e, x, true);
    assert(x == 0x2720e1ab43e5d329086ec50682bf9f789eint);
    let (e, x) = lemma_step(g, n, e, x, false);
    assert(x == 0x143fbaf8b42ccd7b6c83fb422b63e9d260int);
    let (e, x) = lemma_step(g, n, e, x, false);
    assert(x == 0xe4ba3ddf87a38c35d0cfc43201ae1e98eint);
    let (e, x) = lemma_step(g, n, e, x, true);
    assert(x == 0x15842de46437fafff9b53c51e7507e18cint);
    let (e, x) = lemma_step(g, n, e, x, false);
    assert(x == 0xd244b595e023c6b48bd074480d2c438acint);
    let (e, x) = lemma_step(g, n, e, x, true);
    assert(x == 0x19e0f43331c7e0135d9c006195f7d52268int);
    let (e, x) = lemma_step(g, n, e, x, true);
    assert(x == 0x1c0f93e2e1d4dd4f33108529de21573d73int);
    let (e, x) = lemma_step(g, n, e, x, false);
    assert(x == 0x1148c9c6396eea12aef1300822fd7c5fd7int);
    let (e, x) = lemma_step(g, n, e, x, true);
    assert(x == 0xd9865e1c66d66a2f05b990b2db0faed0cint);
    let (e, x) = lemma_step(g, n, e, x, true);
    assert(x == 0x127423c3cde93e74d770732353e7aaab97int);
    let (e, x) = lemma_step(g, n, e, x, false);
    assert(x == 0x15e7f9a98f570615a5c7603d8a413a2b7fint);
    let (e, x) = lemma_step(g, n, e, x, true);
    assert(x == 0x105e5cc7cb709287d1bc2aecce00457050int);
    let (e, x) = lemma_step(g, n, e, x, false);
    assert(x == 0x18899c4713a2577cd97f17b467573886daint);
    let (e, x) = lemma_step(g, n, e, x, true);
    assert(x == 0x23d07e1abb02f76ae2a783d5864b1d8cacint);
    let (e, x) = lemma_step(g, n, e, x, true);
    assert(x == 0x302be5756b876f0486ea9aa42329f8a41int);
    let (e, x) = lemma_step(g, n, e, x, true);
    assert(x == 0x1d552fbba791d881b0b6f32797f7b5ca64int);
    let (e, x) = lemma_step(g, n, e, x, false);
    assert(x == 0x1444dd775cecfb4000b3cb9d2cf7dd005aint);
    let (e, x) = lemma_step(g, n, e, x, false);
    assert(x == 0x20ad7acd92a1835bd6e57a4de9d098e65int);
    let (e, x) = lemma_step(g, n, e, x, true);
    assert(x == 0xdc879ee19628f609dba502a9727c51d82int);
    let (e, x) = lemma_step(g, n, e, x, true);
    assert(x == 0x1aeac45a98b9956272d808a729b95a80c8int);
    let (e, x) = lemma_step(g, n, e, x, false);
    assert(x == 0x7a982fcd40894d3fa4e5c9eb1c989e8c2int);
    let (e, x) = lemma_step(g, n, e, x, true);
    assert(x == 0x2337288bc996ddd2f7bcd30701333ef25eint);
    let (e, x) = lemma_step(g, n, e, x, false);
    assert(x == 0x1e54bf92c712bab75f3f542f5e09f9042aint);
    let (e, x) = lemma_step(g, n, e, x, false);
    assert(x == 0x1826d2b0c280f186dc28e2c40019c46022int);
    let (e, x) = lemma_step(g, n, e, x, false);
    assert(x == 0x114458e1175f7a9488ad02e9777a343f0bint);
    let (e, x) = lemma_step(g, n, e, x, true);
    assert(x == 0x159a0cd0aba8412f9b406970db4908ca28int);
    let (e, x) = lemma_step(g, n, e, x, true);
    assert(x == 0x9452322484745c8c3b034a980e501fe4dint);
    let (e, x) = lemma_step(g, n, e, x, true);
    assert(x == 0x47269801460e95f180e410334881d1306int);
    let (e, x) = lemma_step(g, n, e, x, true);
    assert(x == 0xb87c6abfed1e74d9fea38d56701adea7dint);
    let (e, x) = lemma_step(g, n, e, x, true);
    assert(x == 0x196d7a02cdfff43743e5bdc95fad1ca68bint);
    let (e, x) = lemma_step(g, n, e, x, false);
    assert(x == 0x2651832a7a182d1590675770e4b51569f7int);
    let (e, x) = lemma_step(g, n, e, x, false);
    assert(x == 0x17689a2e72f8591da3277339f085ec8845int);
    let (e, x) = lemma_step(g, n, e, x, true);
    assert(x == 0x19cf3f2398e25049cc7adf9edc46deb365int);
    assert(e == 0x2ce852dae68f9nat);
}

/// A power modulo 0x2775dec4d2fd445d02a32aa0f59b66aa11.
proof fn lemma_power_13427688667394608761327070753331941386769_4()
    ensures
        pow(0x19cf3f2398e25049cc7adf9edc46deb365int, 0x1c48c9nat) % 0x2775dec4d2fd445d02a32aa0f59b66aa11int == 0x262407bd93629c0887cf7622fa7724b6bint,
{
    let g = 0x19cf3f2398e25049cc7adf9edc46deb365int;
    let n = 0x2775dec4d2fd445d02a32aa0f59b66aa11int;
    lemma_start(g, n);
    let (e, x) = (0nat, 1int);
    let (e, x) = lemma_step(g, n, e, x, true);
    assert(x == 0x19cf3f2398e25049cc7adf9edc46deb365int);
    let (e, x) = lemma_step(g, n, e, x, true);
    assert(x == 0x243aca3d9f10146e107bb56776f78fb0fint);
    let (e, x) = lemma_step(g, n, e, x, true);
    assert(x == 0x21bc8167d07c92f125ae3785baa800c0a4int);
    let (e, x) = lemma_step(g, n, e, x, false);
    assert(x == 0xe25e3edfa0d5376489e84e17c7b99e445int);
    let (e, x) = lemma_step(g, n, e, x, false);
    assert(x == 0x6ffb2c71ced6d8d92554be0227117b6a6int);
    let (e, x) = lemma_step(g, n, e, x, false);
    assert(x == 0xc6f26547f0a09ae722e0b1508928c10a3int);
    let (e, x) = lemma_step(g, n, e, x, true);
    assert(x == 0x2322518e0fe59aa477f353d8cbdb9a43f9int);
    let (e, x) = lemma_step(g, n, e, x, false);
    assert(x == 0x7b5f833c425f7529889fd87d4f94ce68dint);
    let (e, x) = lemma_step(g, n, e, x, false);
    assert(x == 0x21dd396dbfa4aef97c09ab1d41b9d1974bint);
    let (e, x) = lemma_step(g, n, e, x, true);
    assert(x == 0x15979e7d7f9e11139a4d551ab557e184cbint);
    let (e, x) = lemma_step(g, n, e, x, false);
    assert(x == 0x168134fc5a21060b791f8831ca0ebb186cint);
    let (e, x) = lemma_step(g, n, e, x, false);
    assert(x == 0x54c5ea00022d35f033fa426e8e9d1135aint);
    let (e, x) = lemma_step(g, n, e, x, false);
    assert(x == 0x2302db0299044898d3729a709ab516f6a3int);
    let (e, x) = lemma_step(g, n, e, x, true);
    assert(x == 0x22191abf17bf6b16c16b03f924abc7a8b1int);
    let (e, x) = lemma_step(g, n, e, x, true);
    assert(x == 0x17e3ab3cf2f5c9eec4269684b6e934234bint);
    let (e, x) = lemma_step(g, n, e, x, false);
    assert(x == 0x9a5d0ef433c3cecd73b634cd5e2d0d521int);
    let (e, x) = lemma_step(g, n, e, x, false);
    assert(x == 0x234ffd80816d2a320e785e9a438e526f55int);
    let (e, x) = lemma_step(g, n, e, x, true);
    assert(x == 0x8bd0c46de9f832c1943179a6895c92d1cint);
    let (e, x) = lemma_step(g, n, e, x, false);
    assert(x == 0xcd12a3a123f580f2d6934a444c95d2797int);
    let (e, x) = lemma_step(g, n, e, x, false);
    assert(x == 0x9b05a9a5849d106644ef26562f01f01cfint);
    let (e, x) = lemma_step(g, n, e, x, true);
    assert(x == 0x262407bd93629c0887cf7622fa7724b6bint);
    assert(e == 0x1c48c9nat);
}

/// A power modulo 0x2775dec4d2fd445d02a32aa0f59b66aa11.
proof fn lemma_power_13427688667394608761327070753331941386769_5()
    ensures
        pow(0x262407bd93629c0887cf7622fa7724b6bint, 77nat) % 0x2775dec4d2fd445d02a32aa0f59b66aa11int == 0x7e465b3a7e5da88c8a3c83b83d6dde3ddint,
{
    let g = 0x262407bd93629c0887cf7622fa7724b6bint;
    let n = 0x2775dec4d2fd445d02a32aa0f59b66aa11int;
    lemma_start(g, n);
    let (e, x) = (0nat, 1int);
    let (e, x) = lemma_step(g, n, e, x, true);
    assert(x == 0x262407bd93629c0887cf7622fa7724b6bint);
    let (e, x) = lemma_step(g, n, e, x, false);
    assert(x == 0x621d32fa5116afa3db0a789bf7da7b93fint);
    let (e, x) = lemma_step(g, n, e, x, false);
    assert(x == 0x214a9e8c1ab0b338d187c4261b14098c55int);
    let (e, x) = lemma_step(g, n, e, x, true);
    assert(x == 0x221442e9fd1bbf6dc0f8143e778293c89eint);
    let (e, x) = lemma_step(g, n, e, x, true);
    assert(x == 0x1fed669b5971040bd568d77dda4b5ba70int);
    let (e, x) = lemma_step(g, n, e, x, false);
    assert(x == 0x1a371f8db2914fb325bd7985121ede2257int);
    let (e, x) = lemma_step(g, n, e, x, true);
    assert(x == 0x7e465b3a7e5da88c8a3c83b83d6dde3ddint);
    assert(e == 77nat);
}

/// A power modulo 0x2775dec4d2fd445d02a32aa0f59b66aa11.
proof fn lemma_power_13427688667394608761327070753331941386769_6()
    ensures
        pow(0x7e465b3a7e5da88c8a3c83b83d6dde3ddint, 3nat) % 0x2775dec4d2fd445d02a32aa0f59b66aa11int == 0x2775dec4d2fd445d02a32aa0f59b66aa10int,
{
    let g = 0x7e465b3a7e5da88c8a3c83b83d6dde3ddint;
    let n = 0x2775dec4d2fd445d02a32aa0f59b66aa11int;
    lemma_start(g, n);
    let (e, x) = (0nat, 1int);
    let (e, x) = lemma_step(g, n, e, x, true);
    assert(x == 0x7e465b3a7e5da88c8a3c83b83d6dde3ddint);
    let (e, x) = lemma_step(g, n, e, x, true);
    assert(x == 0x2775dec4d2fd445d02a32aa0f59b66aa10int);
    assert(e == 3nat);
}

/// A power modulo 0x2775dec4d2fd445d02a32aa0f59b66aa11.
proof fn lemma_power_13427688667394608761327070753331941386769_7()
    ensures
        pow(0x7e465b3a7e5da88c8a3c83b83d6dde3ddint, 2nat) % 0x2775dec4d2fd445d02a32aa0f59b66aa11int == 0x7e465b3a7e5da88c8a3c83b83d6dde3dcint,
{
    let g = 0x7e465b3a7e5da88c8a3c83b83d6dde3ddint;
    let n = 0x2775dec4d2fd445d02a32aa0f59b66aa11int;
    lemma_start(g, n);
    let (e, x) = (0nat, 1int);
    let (e, x) = lemma_step(g, n, e, x, true);
    assert(x == 0x7e465b3a7e5da88c8a3c83b83d6dde3ddint);
    let (e, x) = lemma_step(g, n, e, x, false);
    assert(x == 0x7e465b3a7e5da88c8a3c83b83d6dde3dcint);
    assert(e == 2nat);
}

/// A power modulo 0x2775dec4d2fd445d02a32aa0f59b66aa11.
proof fn lemma_power_13427688667394608761327070753331941386769_8()
    ensures
        pow(0x262407bd93629c0887cf7622fa7724b6bint, 6nat) % 0x2775dec4d2fd445d02a32aa0f59b66aa11int == 0x168d40d16082661ab4699ebc38a1e1be99int,
{
    let g = 0x262407bd93629c0887cf7622fa7724b6bint;
    let n = 0x2775dec4d2fd445d02a32aa0f59b66aa11int;
    lemma_start(g, n);
    let (e, x) = (0nat, 1int);
    let (e, x) = lemma_step(g, n, e, x, true);
    assert(x == 0x262407bd93629c0887cf7622fa7724b6bint);
    let (e, x) = lemma_step(g, n, e, x, true);
    assert(x == 0x251de33a3c1bdfdd8cff521119ef29e233int);
    let (e, x) = lemma_step(g, n, e, x, false);
    assert(x == 0x168d40d16082661ab4699ebc38a1e1be99int);
    assert(e == 6nat);
}

/// A power modulo 0x2775dec4d2fd445d02a32aa0f59b66aa11.
proof fn lemma_power_13427688667394608761327070753331941386769_9()
    ensures
        pow(0x168d40d16082661ab4699ebc38a1e1be99int, 11nat) % 0x2775dec4d2fd445d02a32aa0f59b66aa11int == 0x9e3ab98f0678228222a27f0da706b0b60int,
{
    let g = 0x168d40d16082661ab4699ebc38a1e1be99int;
    let n = 0x2775dec4d2fd445d02a32aa0f59b66aa11int;
    lemma_start(g, n);
    let (e, x) = (0nat, 1int);
    let (e, x) = lemma_step(g, n, e, x, true);
    assert(x == 0x168d40d16082661ab4699ebc38a1e1be99int);
    let (e, x) = lemma_step(g, n, e, x, false);
    assert(x == 0x213931301847b3b3832a1cb544c6a290b8int);
    let (e, x) = lemma_step(g, n, e, x, true);
    assert(x == 0x1c874d68fcba27dc7bef3354c2b218abddint);
    let (e, x) = lemma_step(g, n, e, x, true);
    assert(x == 0x9e3ab98f0678228222a27f0da706b0b60int);
    assert(e == 11nat);
}

/// A power modulo 0x2775dec4d2fd445d02a32aa0f59b66aa11.
proof fn lemma_power_13427688667394608761327070753331941386769_10()
    ensures
        pow(0x168d40d16082661ab4699ebc38a1e1be99int, 7nat) % 0x2775dec4d2fd445d02a32aa0f59b66aa11int == 0x982c093fdb569f2c24654d3c114d71acdint,
{
    let g = 0x168d40d16082661ab4699ebc38a1e1be99int;
    let n = 0x2775dec4d2fd445d02a32aa0f59b66aa11int;
    lemma_start(g, n);
    let (e, x) = (0nat, 1int);
    let (e, x) = lemma_step(g, n, e, x, true);
    assert(x == 0x168d40d16082661ab4699ebc38a1e1be99int);
    let (e, x) = lemma_step(g, n, e, x, true);
    assert(x == 0x136645ef694e12864e54cd63b214ad912int);
    let (e, x) = lemma_step(g, n, e, x, true);
    assert(x == 0x982c093fdb569f2c24654d3c114d71acdint);
    assert(e == 7nat);
}

/// A power modulo 0x2775dec4d2fd445d02a32aa0f59b66aa11.
proof fn lemma_power_13427688667394608761327070753331941386769_11()
    ensures
        pow(0x19cf3f2398e25049cc7adf9edc46deb365int, 462nat) % 0x2775dec4d2fd445d02a32aa0f59b66aa11int == 0x7d6d6330254ba4c7d3a5d95be6ffdc6a9int,
{
    let g = 0x19cf3f2398e25049cc7adf9edc46deb365int;
    let n = 0x2775dec4d2fd445d02a32aa0f59b66aa11int;
    lemma_start(g, n);
    let (e, x) = (0nat, 1int);
    let (e, x) = lemma_step(g, n, e, x, true);
    assert(x == 0x19cf3f2398e25049cc7adf9edc46deb365int);
    let (e, x) = lemma_step(g, n, e, x, true);
    assert(x == 0x243aca3d9f10146e107bb56776f78fb0fint);
    let (e, x) = lemma_step(g, n, e, x, true);
    assert(x == 0x21bc8167d07c92f125ae3785baa800c0a4int);
    let (e, x) = lemma_step(g, n, e, x, false);
    assert(x == 0xe25e3edfa0d5376489e84e17c7b99e445int);
    let (e, x) = lemma_step(g, n, e, x, false);
    assert(x == 0x6ffb2c71ced6d8d92554be0227117b6a6int);
    let (e, x) = lemma_step(g, n, e, x, true);
    assert(x == 0x19cb67d9c013d523ca54734f2dfe78764eint);
    let (e, x) = lemma_step(g, n, e, x, true);
    assert(x == 0x28716e3fc22529f647468372c20ab048aint);
    let (e, x) = lemma_step(g, n, e, x, true);
    assert(x == 0x395ee52012e6a7a3e3bb5c95b6f50667aint);
    let (e, x) = lemma_step(g, n, e, x, false);
    assert(x == 0x7d6d6330254ba4c7d3a5d95be6ffdc6a9int);
    assert(e == 462nat);
}

/// A power modulo 0x2775dec4d2fd445d02a32aa0f59b66aa11.
proof fn lemma_power_13427688667394608761327070753331941386769_12()
    ensures
        pow(0x2009c0c806550b805e31ecd0eb8ac2bc06int, 0x330b5abenat) % 0x2775dec4d2fd445d02a32aa0f59b66aa11int == 0x21ac476e0a93280d269b4b1acc16431137int,
{
    let g = 0x2009c0c806550b805e31ecd0eb8ac2bc06int;
    let n = 0x2775dec4d2fd445d02a32aa0f59b66aa11int;
    lemma_start(g, n);
    let (e, x) = (0nat, 1int);
    let (e, x) = lemma_step(g, n, e, x, true);
    assert(x == 0x2009c0c806550b805e31ecd0eb8ac2bc06int);
    let (e, x) = lemma_step(g, n, e, x, true);
    assert(x == 0x14ed91b8c9bddfd7e3a51e2598a417ad28int);
    let (e, x) = lemma_step(g, n, e, x, false);
    assert(x == 0x102991c90a150eaebd4d412274e2a3bfb7int);
    let (e, x) = lemma_step(g, n, e, x, false);
    assert(x == 0x22f8ee4ba234fdcae4574c8541015c3a8bint);
    let (e, x) = lemma_step(g, n, e, x, true);
    assert(x == 0x1b862d5d0b9ccb3b0edda7ad2befe27d9dint);
    let (e, x) = lemma_step(g, n, e, x, true);
    assert(x == 0x151a3071e6d64c24e1176790f0de2a24c3int);
    let (e, x) = lemma_step(g, n, e, x, false);
    assert(x == 0x2e2b664ae2ad7238f3041b98382970618int);
    let (e, x) = lemma_step(g, n, e, x, false);
    assert(x == 0x26a5d3c95e9336cbb6fca1d2c7f52835b5int);
    let (e, x) = lemma_step(g, n, e, x, false);
    assert(x == 0x9f4e8cd9e3afc6f11145a48e323199f1eint);
    let (e, x) = lemma_step(g, n, e, x, false);
    assert(x == 0x2205d6c6c239f4e756e9ecad677b75feedint);
    let (e, x) = lemma_step(g, n, e, x, true);
    assert(x == 0x45cc1fe0375699f1457a0463fe7f35bf7int);
    let (e, x) = lemma_step(g, n, e, x, false);
    assert(x == 0x13ef68883c69263ea868376d14492294bdint);
    let (e, x) = lemma_step(g, n, e, x, true);
    assert(x == 0x19cf605619e3374cfd95dffe5e2c4c28edint);
    let (e, x) = lemma_step(g, n, e, x, true);
    assert(x == 0x2df5c2eace30a0a56e78ac00132643c1dint);
    let (e, x) = lemma_step(g, n, e, x, false);
    assert(x == 0x83389af9a8ca53c5a89009c6fe3f960aint);
    let (e, x) = lemma_step(g, n, e, x, true);
    assert(x == 0x19d73670cec95f1135ad341f9bc458047aint);
    let (e, x) = lemma_step(g, n, e, x, false);
    assert(x == 0xf4ed4f0aa79829a719ef804b566592521int);
    let (e, x) = lemma_step(g, n, e, x, true);
    assert(x == 0x11a39f651619ea52b0a21398624db6bfecint);
    let (e, x) = lemma_step(g, n, e, x, true);
    assert(x == 0x2ec60d2f74bdabc200bce1d39592f97a7int);
    let (e, x) = lemma_step(g, n, e, x, false);
    assert(x == 0x19473fd445e3ebd7ba75656e7b66e321edint);
    let (e, x) = lemma_step(g, n, e, x, true);
    assert(x == 0x1e676a416e860cb1facdb5082e451b44dint);
    let (e, x) = lemma_step(g, n, e, x, false);
    assert(x == 0x229cfebff308650e39a0f686ea941140fint);
    let (e, x) = lemma_step(g, n, e, x, true);
    assert(x == 0x62f758e3a6e38a6b00a91d31cd4c24c18int);
    let (e, x) = lemma_step(g, n, e, x, false);
    assert(x == 0x2584f8f27c10ca46e30989ffe93675532fint);
    let (e, x) = lemma_step(g, n, e, x, true);
    assert(x == 0x23ec7c76392fd099a924cee5912fa08fc0int);
    let (e, x) = lemma_step(g, n, e, x, true);
    assert(x == 0x18688a4b724f4395b46f616a4562f794e7int);
    let (e, x) = lemma_step(g, n, e, x, true);
    assert(x == 0x4dc0bbd599a9647ab374c8c274c5fa2f4int);
    let (e, x) = lemma_step(g, n, e, x, true);
    assert(x == 0x179ef696974c008a4823989a7ba09c97c3int);
    let (e, x) = lemma_step(g, n, e, x, true);
    assert(x == 0x22288a17f2e0238d21b598380f9ed68346int);
    let (e, x) = lemma_step(g, n, e, x, false);
    assert(x == 0x21ac476e0a93280d269b4b1acc16431137int);
    assert(e == 0x330b5abenat);
}

/// A power modulo 0x2775dec4d2fd445d02a32aa0f59b66aa11.
proof fn lemma_power_13427688667394608761327070753331941386769_13()
    ensures
        pow(0x21ac476e0a93280d269b4b1acc16431137int, 0xa52615fnat) % 0x2775dec4d2fd445d02a32aa0f59b66aa11int == 0xd11ba0a5d8474bb82f438f5372484a1f6int,
{
    let g = 0x21ac476e0a93280d269b4b1acc16431137int;
    let n = 0x2775dec4d2fd445d02a32aa0f59b66aa11int;
    lemma_start(g, n);
    let (e, x) = (0nat, 1int);
    let (e, x) = lemma_step(g, n, e, x, true);
    assert(x == 0x21ac476e0a93280d269b4b1acc16431137int);
    let (e, x) = lemma_step(g, n, e, x, false);
    assert(x == 0x23411fd0a64b734f8482541158256cb35dint);
    let (e, x) = lemma_step(g, n, e, x, true);
    assert(x == 0xce79bda6fdd2624609ab1e32f3407c4feint);
    let (e, x) = lemma_step(g, n, e, x, false);
    assert(x == 0x77e10d4fe3d40958406246673d2a304e4int);
    let (e, x) = lemma_step(g, n, e, x, false);
    assert(x == 0x187a8f54d839d25d047dad3a07c7ff26beint);
    let (e, x) = lemma_step(g, n, e, x, true);
    assert(x == 0x18308988aae73c603615b04283200dd12dint);
    let (e, x) = lemma_step(g, n, e, x, false);
    assert(x == 0x25dff99ea31e98974b358685bd49702cc6int);
    let (e, x) = lemma_step(g, n, e, x, true);
    assert(x == 0x2453d26a91cdff69e3fb2a621ca6169fbbint);
    let (e, x) = lemma_step(g, n, e, x, false);
    assert(x == 0x269b388fbce59b98ee48961a9cba6208c3int);
    let (e, x) = lemma_step(g, n, e, x, false);
    assert(x == 0x76334f24a7ac738f07c6043f39a8e139bint);
    let (e, x) = lemma_step(g, n, e, x, true);
    assert(x == 0x1919b799108fefae841d69d369a458b804int);
    let (e, x) = lemma_step(g, n, e, x, false);
    assert(x == 0x473307c3dd5a9486bc518b0b319e06b8int);
    let (e, x) = lemma_step(g, n, e, x, false);
    assert(x == 0x608c9dbb4491fb9863a2d8d4925184631int);
    let (e, x) = lemma_step(g, n, e, x, true);
    assert(x == 0x238a53a65e5c5d40dd1f335ca402042fc9int);
    let (e, x) = lemma_step(g, n, e, x, true);
    assert(x == 0x26197422e92c62de79ad090dfaa2d6b7f2int);
    let (e, x) = lemma_step(g, n, e, x, false);
    assert(x == 0x21d30327ce84bce73aff5778a075be251cint);
    let (e, x) = lemma_step(g, n, e, x, false);
    assert(x == 0xa537fa76c7093b548638805f634d220a5int);
    let (e, x) = lemma_step(g, n, e, x, false);
    assert(x == 0x25dbdc67fdeebf6cb69378a338512de53bint);
    let (e, x) = lemma_step(g, n, e, x, false);
    assert(x == 0x21db85dc9aeb6741b8fb24c316bffd0bffint);
    let (e, x) = lemma_step(g, n, e, x, true);
    assert(x == 0x10d09bab41fa2d3fee1a7c5905372a0b4int);
    let (e, x) = lemma_step(g, n, e, x, false);
    assert(x == 0x22f6135ffa27de53e637e785e9c83c892bint);
    let (e, x) = lemma_step(g, n, e, x, true);
    assert(x == 0xa6ff24fc228786de3a33f8b5ba66953deint);
    let (e, x) = lemma_step(g, n, e, x, false);
    assert(x == 0x251bbeab5b3ec38f2aa4be8574f1eeb183int);
    let (e, x) = lemma_step(g, n, e, x, true);
    assert(x == 0x123ab6d567acc7a0db3ac1eed5986a70a0int);
    let (e, x) = lemma_step(g, n, e, x, true);
    assert(x == 0x248c4650228e4d0c1f516978f332b06508int);
    let (e, x) = lemma_step(g, n, e, x, true);
    assert(x == 0x3bb581cf4c3f5ca1e26a7fcf503ac6c3fint);
    let (e, x) = lemma_step(g, n, e, x, true);
    assert(x == 0x1fca505df0dc42c041ef8d1cbe893cced9int);
    let (e, x) = lemma_step(g, n, e, x, true);
    assert(x == 0xd11ba0a5d8474bb82f438f5372484a1f6int);
    assert(e == 0xa52615fnat);
}

/// A power modulo 0x2775dec4d2fd445d02a32aa0f59b66aa11.
proof fn lemma_power_13427688667394608761327070753331941386769_14()
    ensures
        pow(0x21ac476e0a93280d269b4b1acc16431137int, 0x459ca7nat) % 0x2775dec4d2fd445d02a32aa0f59b66aa11int == 0x1e46e45b58559c2a83e556aa5c37a64b56int,
{
    let g = 0x21ac476e0a93280d269b4b1acc16431137int;
    let n = 0x2775dec4d2fd445d02a32aa0f59b66aa11int;
    lemma_start(g, n);
    let (e, x) = (0nat, 1int);
    let (e, x) = lemma_step(g, n, e, x, true);
    assert(x == 0x21ac476e0a93280d269b4b1acc16431137int);
    let (e, x) = lemma_step(g, n, e, x, false);
    assert(x == 0x23411fd0a64b734f8482541158256cb35dint);
    let (e, x) = lemma_step(g, n, e, x, false);
    assert(x == 0x2622e8a2503a1964b1660cf87be4754c97int);
    let (e, x) = lemma_step(g, n, e, x, false);
    assert(x == 0x8700fb44378014ee80e21f2291d2ab6e1int);
    let (e, x) = lemma_step(g, n, e, x, true);
    assert(x == 0x189f40eb05a73b93c8751f317ea769ed1dint);
    let (e, x) = lemma_step(g, n, e, x, false);
    assert(x == 0x19d80051cc56d1d2812c64cf49052bb645int);
    let (e, x) = lemma_step(g, n, e, x, true);
    assert(x == 0x104eac458312e0070c584db2fa9fc92b4eint);
    let (e, x) = lemma_step(g, n, e, x, true);
    assert(x == 0xf759bde9061a189343c22d80ab1966968int);
    let (e, x) = lemma_step(g, n, e, x, false);
    assert(x == 0x24e57bf388f7d0cb58e122da3bf47438e0int);
    let (e, x) = lemma_step(g, n, e, x, false);
    assert(x == 0x24360176c36f4ca88da85e2894ee4035d3int);
    let (e, x) = lemma_step(g, n, e, x, true);
    assert(x == 0x4f2a81be48104757f0ecda609a263bcd1int);
    let (e, x) = lemma_step(g, n, e, x, true);
    assert(x == 0xc6c1930a8674297eacd8a57288f0666f8int);
    let (e, x) = lemma_step(g, n, e, x, true);
    assert(x == 0x23c8983777023c3f4d01b609e239d39271int);
    let (e, x) = lemma_step(g, n, e, x, false);
    assert(x == 0x7f2e9eefa71ad90f63fc714c7e5684fe8int);
    let (e, x) = lemma_step(g, n, e, x, false);
    assert(x == 0x16552f0d4bc7c939820b25da8d0a177fa8int);
    let (e, x) = lemma_step(g, n, e, x, true);
    assert(x == 0x1472d13202adcb3b30d6caa012d7eaafe5int);
    let (e, x) = lemma_step(g, n, e, x, false);
    assert(x == 0x17f48e19b7ec7ee664b258eef2eb20c3dint);
    let (e, x) = lemma_step(g, n, e, x, true);
    assert(x == 0x9c716693f82257683301f9f884bcf26f3int);
    let (e, x) = lemma_step(g, n, e, x, false);
    assert(x == 0x2197a62153d26f080c02bf3d6da6f7ec74int);
    let (e, x) = lemma_step(g, n, e, x, false);
    assert(x == 0x18414bf4455e909d955aa0d68e18639554int);
    let (e, x) = lemma_step(g, n, e, x, true);
    assert(x == 0x77023c12a8674eb2aa3af68abbc9ae890int);
    let (e, x) = lemma_step(g, n, e, x, true);
    assert(x == 0x212b3d959b9b44a5cfaddabc3811775810int);
    let (e, x) = lemma_step(g, n, e, x, true);
    assert(x == 0x1e46e45b58559c2a83e556aa5c37a64b56int);
    assert(e == 0x459ca7nat);
}

/// A power modulo 0x2775dec4d2fd445d02a32aa0f59b66aa11.
proof fn lemma_power_13427688667394608761327070753331941386769_15()
    ensures
        pow(0x2775dec4d2fd445d02a32aa0f59b66aa10int, 2nat) % 0x2775dec4d2fd445d02a32aa0f59b66aa11int == 1int,
{
    let g = 0x2775dec4d2fd445d02a32aa0f59b66aa10int;
    let n = 0x2775dec4d2fd445d02a32aa0f59b66aa11int;
    lemma_start(g, n);
    let (e, x) = (0nat, 1int);
    let (e, x) = lemma_step(g, n, e, x, true);
    assert(x == 0x2775dec4d2fd445d02a32aa0f59b66aa10int);
    let (e, x) = lemma_step(g, n, e, x, false);
    assert(x == 1int);
    assert(e == 2nat);
}

/// 13427688667394608761327070753331941386769 is prime: 17 generates the residues modulo 13427688667394608761327070753331941386769 other than zero.
pub proof fn lemma_prime_13427688667394608761327070753331941386769()
    ensures
        all_units(0x2775dec4d2fd445d02a32aa0f59b66aa11int),
        fermat(0x2775dec4d2fd445d02a32aa0f59b66aa11int),
{
    let g = 17int;
    let n = 0x2775dec4d2fd445d02a32aa0f59b66aa11int;
    let ps = seq![2int, 3int, 7int, 11int, 0x1c48c9int, 0x459ca7int, 0xa52615fint, 0x8d057ad4a4eb7int];
    lemma_two();
    lemma_prime_3();
    lemma_prime_7();
    lemma_prime_11();
    lemma_prime_1853641();
    lemma_prime_4562087();
    lemma_prime_173171039();
    lemma_prime_2480874801745591();
    lemma_cover_one(ps);
    lemma_cover_step(1int, 2int, ps, 0);
    assert(2int * 1int == 2int);
    assert(factors_cover(2int, ps));
    lemma_cover_step(2int, 2int, ps, 0);
    assert(2int * 2int == 4int);
    assert(factors_cover(4int, ps));
    lemma_cover_step(4int, 2int, ps, 0);
    assert(2int * 4int == 8int);
    assert(factors_cover(8int, ps));
    lemma_cover_step(8int, 2int, ps, 0);
    assert(2int * 8int == 16int);
    assert(factors_cover(16int, ps));
    lemma_cover_step(16int, 3int, ps, 1);
    assert(3int * 16int == 48int);
    assert(factors_cover(48int, ps));
    lemma_cover_step(48int, 7int, ps, 2);
    assert(7int * 48int == 336int);
    assert(factors_cover(336int, ps));
    lemma_cover_step(336int, 11int, ps, 3);
    assert(11int * 336int == 3696int);
    assert(factors_cover(3696int, ps));
    lemma_cover_step(3696int, 0x1c48c9int, ps, 4);
    assert(0x1c48c9int * 3696int == 0x1985ad5f0int);
    assert(factors_cover(0x1985ad5f0int, ps));
    lemma_cover_step(0x1985ad5f0int, 0x459ca7int, ps, 5);
    assert(0x459ca7int * 0x1985ad5f0int == 0x6f0a5d674fcf90int);
    assert(factors_cover(0x6f0a5d674fcf90int, ps));
    lemma_cover_step(0x6f0a5d674fcf90int, 0xa52615fint, ps, 6);
    assert(0xa52615fint * 0x6f0a5d674fcf90int == 0x47a233416727ab0639670int);
    assert(factors_cover(0x47a233416727ab0639670int, ps));
    lemma_cover_step(0x47a233416727ab0639670int, 0x8d057ad4a4eb7int, ps, 7);
    assert(0x8d057ad4a4eb7int * 0x47a233416727ab0639670int == 0x2775dec4d2fd445d02a32aa0f59b66aa10int);
    assert(factors_cover(0x2775dec4d2fd445d02a32aa0f59b66aa10int, ps));
    lemma_power_13427688667394608761327070753331941386769_0();
    lemma_power_13427688667394608761327070753331941386769_1();
    lemma_pow_compose(g, 8nat, 0x8f446682ce4f560c72cenat, n);
    assert(8nat * 0x8f446682ce4f560c72cenat == 0x47a233416727ab0639670nat);
    assert(pow(g, 0x47a233416727ab0639670nat) % n == 0x1e2a8b989b2992b243f0fa4d66f97a8244int);
    lemma_power_13427688667394608761327070753331941386769_2();
    lemma_pow_compose(g, 8nat, 0x8d057ad4a4eb7nat, n);
    assert(8nat * 0x8d057ad4a4eb7nat == 0x4682bd6a5275b8nat);
    assert(pow(g, 0x4682bd6a5275b8nat) % n == 0x2009c0c806550b805e31ecd0eb8ac2bc06int);
    lemma_power_13427688667394608761327070753331941386769_3();
    lemma_pow_compose(g, 0x4682bd6a5275b8nat, 0x2ce852dae68f9nat, n);
    assert(0x4682bd6a5275b8nat * 0x2ce852dae68f9nat == 0xc5e75dc1a0952218c345173ff8nat);
    assert(pow(g, 0xc5e75dc1a0952218c345173ff8nat) % n == 0x19cf3f2398e25049cc7adf9edc46deb365int);
    lemma_power_13427688667394608761327070753331941386769_4();
    lemma_pow_compose(g, 0xc5e75dc1a0952218c345173ff8nat, 0x1c48c9nat, n);
    assert(0xc5e75dc1a0952218c345173ff8nat * 0x1c48c9nat == 0x15dd92b634a280c16417eb4ac85ef9b8nat);
    assert(pow(g, 0x15dd92b634a280c16417eb4ac85ef9b8nat) % n == 0x262407bd93629c0887cf7622fa7724b6bint);
    lemma_power_13427688667394608761327070753331941386769_5();
    lemma_pow_compose(g, 0x15dd92b634a280c16417eb4ac85ef9b8nat, 77nat, n);
    assert(0x15dd92b634a280c16417eb4ac85ef9b8nat * 77nat == 0x693a520cdd4e0ba2b1b31c57e44911c58nat);
    assert(pow(g, 0x693a520cdd4e0ba2b1b31c57e44911c58nat) % n == 0x7e465b3a7e5da88c8a3c83b83d6dde3ddint);
    lemma_power_13427688667394608761327070753331941386769_6();
    lemma_pow_compose(g, 0x693a520cdd4e0ba2b1b31c57e44911c58nat, 3nat, n);
    assert(0x693a520cdd4e0ba2b1b31c57e44911c58nat * 3nat == 0x13baef62697ea22e815195507acdb35508nat);
    assert(pow(g, 0x13baef62697ea22e815195507acdb35508nat) % n == 0x2775dec4d2fd445d02a32aa0f59b66aa10int);
    lemma_power_13427688667394608761327070753331941386769_7();
    lemma_pow_compose(g, 0x693a520cdd4e0ba2b1b31c57e44911c58nat, 2nat, n);
    assert(0x693a520cdd4e0ba2b1b31c57e44911c58nat * 2nat == 0xd274a419ba9c1745636638afc892238b0nat);
    assert(pow(g, 0xd274a419ba9c1745636638afc892238b0nat) % n == 0x7e465b3a7e5da88c8a3c83b83d6dde3dcint);
    lemma_power_13427688667394608761327070753331941386769_8();
    lemma_pow_compose(g, 0x15dd92b634a280c16417eb4ac85ef9b8nat, 6nat, n);
    assert(0x15dd92b634a280c16417eb4ac85ef9b8nat * 6nat == 0x833170453bcf0488588f83c0b239da50nat);
    assert(pow(g, 0x833170453bcf0488588f83c0b239da50nat) % n == 0x168d40d16082661ab4699ebc38a1e1be99int);
    lemma_power_13427688667394608761327070753331941386769_9();
    lemma_pow_compose(g, 0x833170453bcf0488588f83c0b239da50nat, 11nat, n);
    assert(0x833170453bcf0488588f83c0b239da50nat * 11nat == 0x5a31fd2f991e531dbce2aa947a87c6170nat);
    assert(pow(g, 0x5a31fd2f991e531dbce2aa947a87c6170nat) % n == 0x9e3ab98f0678228222a27f0da706b0b60int);
    lemma_power_13427688667394608761327070753331941386769_10();
    lemma_pow_compose(g, 0x833170453bcf0488588f83c0b239da50nat, 7nat, n);
    assert(0x833170453bcf0488588f83c0b239da50nat * 7nat == 0x3965a11e4a2a91fba6bec9a44df94f830nat);
    assert(pow(g, 0x3965a11e4a2a91fba6bec9a44df94f830nat) % n == 0x982c093fdb569f2c24654d3c114d71acdint);
    lemma_power_13427688667394608761327070753331941386769_11();
    lemma_pow_compose(g, 0xc5e75dc1a0952218c345173ff8nat, 462nat, n);
    assert(0xc5e75dc1a0952218c345173ff8nat * 462nat == 0x165278b336fcd2388b066aff57190nat);
    assert(pow(g, 0x165278b336fcd2388b066aff57190nat) % n == 0x7d6d6330254ba4c7d3a5d95be6ffdc6a9int);
    lemma_power_13427688667394608761327070753331941386769_12();
    lemma_pow_compose(g, 0x4682bd6a5275b8nat, 0x330b5abenat, n);
    assert(0x4682bd6a5275b8nat * 0x330b5abenat == 0xe0f2c589d9ef49d7e0e90nat);
    assert(pow(g, 0xe0f2c589d9ef49d7e0e90nat) % n == 0x21ac476e0a93280d269b4b1acc16431137int);
    lemma_power_13427688667394608761327070753331941386769_13();
    lemma_pow_compose(g, 0xe0f2c589d9ef49d7e0e90nat, 0xa52615fnat, n);
    assert(0xe0f2c589d9ef49d7e0e90nat * 0xa52615fnat == 0x911df0a1f9bb143a0b657f6bf770nat);
    assert(pow(g, 0x911df0a1f9bb143a0b657f6bf770nat) % n == 0xd11ba0a5d8474bb82f438f5372484a1f6int);
    lemma_power_13427688667394608761327070753331941386769_14();
    lemma_pow_compose(g, 0xe0f2c589d9ef49d7e0e90nat, 0x459ca7nat, n);
    assert(0xe0f2c589d9ef49d7e0e90nat * 0x459ca7nat == 0x3d2b15ece69b39e34857aeb3ff0nat);
    assert(pow(g, 0x3d2b15ece69b39e34857aeb3ff0nat) % n == 0x1e46e45b58559c2a83e556aa5c37a64b56int);
    lemma_power_13427688667394608761327070753331941386769_15();
    lemma_pow_compose(g, 0x13baef62697ea22e815195507acdb35508nat, 2nat, n);
    assert(0x13baef62697ea22e815195507acdb35508nat * 2nat == 0x2775dec4d2fd445d02a32aa0f59b66aa10nat);
    assert(pow(g, 0x2775dec4d2fd445d02a32aa0f59b66aa10nat) % n == 1);
    assert forall|i: int| 0 <= i < ps.len() implies (#[trigger] ps[i]) > 1 && (n - 1) % ps[i] == 0
        && pow(g, ((n - 1) / ps[i]) as nat) % n != 1 by {
        if i == 0 {
            assert(ps[0] == 2int);
            assert(0x2775dec4d2fd445d02a32aa0f59b66aa10int % 2int == 0);
            assert(0x2775dec4d2fd445d02a32aa0f59b66aa10int / 2int == 0x13baef62697ea22e815195507acdb35508int);
        }
        if i == 1 {
            assert(ps[1] == 3int);
            assert(0x2775dec4d2fd445d02a32aa0f59b66aa10int % 3int == 0);
            assert(0x2775dec4d2fd445d02a32aa0f59b66aa10int / 3int == 0xd274a419ba9c1745636638afc892238b0int);
        }
        if i == 2 {
            assert(ps[2] == 7int);
            assert(0x2775dec4d2fd445d02a32aa0f59b66aa10int % 7int == 0);
            assert(0x2775dec4d2fd445d02a32aa0f59b66aa10int / 7int == 0x5a31fd2f991e531dbce2aa947a87c6170int);
        }
        if i == 3 {
            assert(ps[3] == 11int);
            assert(0x2775dec4d2fd445d02a32aa0f59b66aa10int % 11int == 0);
            assert(0x2775dec4d2fd445d02a32aa0f59b66aa10int / 11int == 0x3965a11e4a2a91fba6bec9a44df94f830int);
        }
        if i == 4 {
            assert(ps[4] == 0x1c48c9int);
            assert(0x2775dec4d2fd445d02a32aa0f59b66aa10int % 0x1c48c9int == 0);
            assert(0x2775dec4d2fd445d02a32aa0f59b66aa10int / 0x1c48c9int == 0x165278b336fcd2388b066aff57190int);
        }
        if i == 5 {
            assert(ps[5] == 0x459ca7int);
            assert(0x2775dec4d2fd445d02a32aa0f59b66aa10int % 0x459ca7int == 0);
            assert(0x2775dec4d2fd445d02a32aa0f59b66aa10int / 0x459ca7int == 0x911df0a1f9bb143a0b657f6bf770int);
        }
        if i == 6 {
            assert(ps[6] == 0xa52615fint);
            assert(0x2775dec4d2fd445d02a32aa0f59b66aa10int % 0xa52615fint == 0);
            assert(0x2775dec4d2fd445d02a32aa0f59b66aa10int / 0xa52615fint == 0x3d2b15ece69b39e34857aeb3ff0int);
        }
        if i == 7 {
            assert(ps[7] == 0x8d057ad4a4eb7int);
            assert(0x2775dec4d2fd445d02a32aa0f59b66aa10int % 0x8d057ad4a4eb7int == 0);
            assert(0x2775dec4d2fd445d02a32aa0f59b66aa10int / 0x8d057ad4a4eb7int == 0x47a233416727ab0639670int);
        }
    }
    lemma_lucas(n, g, ps);
}

/// A power modulo 0x30644e72e131a029b85045b68181585d97816a916871ca8d3c208c16d87cfd47.
proof fn lemma_power_q_0()
    ensures
        pow(3int, 3nat) % 0x30644e72e131a029b85045b68181585d97816a916871ca8d3c208c16d87cfd47int == 27int,
{
    let g = 3int;
    let n = 0x30644e72e131a029b85045b68181585d97816a916871ca8d3c208c16d87cfd47int;
    lemma_start(g, n);
    let (e, x) = (0nat, 1int);
    let (e, x) = lemma_step(g, n, e, x, true);
    assert(x == 3int);
    let (e, x) = lemma_step(g, n, e, x, true);
    assert(x == 27int);
    assert(e == 3nat);
}

/// A power modulo 0x30644e72e131a029b85045b68181585d97816a916871ca8d3c208c16d87cfd47.
#[verifier::rlimit(50)]
proof fn lemma_power_q_1()
    ensures
        pow(27int, 0x2775dec4d2fd445d02a32aa0f59b66aa11nat) % 0x30644e72e131a029b85045b68181585d97816a916871ca8d3c208c16d87cfd47int == 0x1f974bffd9f16587e9c917aa9422f17cb18398699947cee64b6739911241a6fint,
{
    let g = 27int;
    let n = 0x30644e72e131a029b85045b68181585d97816a916871ca8d3c208c16d87cfd47int;
    lemma_start(g, n);
    let (e, x) = (0nat, 1int);
    let (e, x) = lemma_step(g, n, e, x, true);
    assert(x == 27int);
    let (e, x) = lemma_step(g, n, e, x, false);
    assert(x == 729int);
    let (e, x) = lemma_step(g, n, e, x, false);
    assert(x == 531441int);
    let (e, x) = lemma_step(g, n, e, x, true);
    assert(x == 0x6ef79077fbbint);
    let (e, x) = lemma_step(g, n, e, x, true);
    assert(x == 0x512b5841aa0817b34d8f623int);
    let (e, x) = lemma_step(g, n, e, x, true);
    assert(x == 0x2b6e05c18a8432d50f398d3119cf9ea168daa8d7854ad33int);
    let (e, x) = lemma_step(g, n, e, x, false);
    assert(x == 0x219234213437ff324c7d219548c242ba4deb2b5f911ae0b962c96daae9c3f06fint);
    let (e, x) = lemma_step(g, n, e, x, true);
    assert(x == 0x1534faa898e3c2e2ab5943ba23b4a8a6fcda766fe2c96e6655e6e6e7f65baad2int);
    let (e, x) = lemma_step(g, n, e, x, true);
    assert(x == 0x261bebe7c70f2e5b3dc7d941533676692f5cd3fbf36bd6c121162665d8d2a35fint);
    let (e, x) = lemma_step(g, n, e, x, true);
    assert(x == 0xff29ac2389bc530bf58ffdc5180d712318b3eb9228c893192fbe14fa888d38bint);
    let (e, x) = lemma_step(g, n, e, x, false);
    assert(x == 0x1abb73ce8ebd4150b44868256ab521ee1576d3e36e1ca7e404ccbb7111a00c7bint);
    let (e, x) = lemma_step(g, n, e, x, true);
    assert(x == 0xde236d17b6008c20fe12761d0727a8470e7d36e58d72643be0fd7407608a232int);
    let (e, x) = lemma_step(g, n, e, x, false);
    assert(x == 0x2c4c7c1d6e50342b3d5f952b9b3c8f11cbbaa26c1ba5887feeaa05a102b52409int);
    let (e, x) = lemma_step(g, n, e, x, true);
    assert(x == 0x2602a8b412b2270f3df254190f20b238e27f62aa4611147257130f1997323216int);
    let (e, x) = lemma_step(g, n, e, x, true);
    assert(x == 0x337d12369a4107bbf58a4e08a44939a93f5ccdeba393529aad28ef3e3c48088int);
    let (e, x) = lemma_step(g, n, e, x, true);
    assert(x == 0x2bfcab9e412339ab249c56686e2b1bb8e7f04ffea8c08a10ab8c97af111811b6int);
    let (e, x) = lemma_step(g, n, e, x, false);
    assert(x == 0xa217805da943377e3798eae8950784667c8629b3f220ea2a7bebfb0207e7adcint);
    let (e, x) = lemma_step(g, n, e, x, true);
    assert(x == 0x29c7b6b89294681bdffdfa79c4a2d53a89116b0ceaa7b3b03ea6d86ca65ee627int);
    let (e, x) = lemma_step(g, n, e, x, true);
    assert(x == 0x3a0705551beb61c77d57537f4ce97c3766d9bf10ccbcdeb950f6ced0c9bbd42int);
    let (e, x) = lemma_step(g, n, e, x, true);
    assert(x == 0xadee615384f21707fcc8460493caf6d7243ed4fcee643c49b81d09c5f0c2189int);
    let (e, x) = lemma_step(g, n, e, x, true);
    assert(x == 0x174ff16b57a1c80bfdf5e3b021d74808bedd76c48db345b0ac4b46b714bfc89aint);
    let (e, x) = lemma_step(g, n, e, x, false);
    assert(x == 0x2782ca0685f2eaa0df5b2b4c51c19d283e68198db246da7dbb35c5e00fde5844int);
    let (e, x) = lemma_step(g, n, e, x, true);
    assert(x == 0x2d909abcb6f37bfb2c0cf7b62aeeb0e9b6c238bcc66db923470750f2b5835700int);
    let (e, x) = lemma_step(g, n, e, x, true);
    assert(x == 0xa64ba2d1901dc3245d559c129cb77934aa18af68f60dd7fe357c3436bb20817int);
    let (e, x) = lemma_step(g, n, e, x, false);
    assert(x == 0x218a7d513f288c452dfbfd1feb1df8e8de529f8bd2503640ffe3ba784ce163b4int);
    let (e, x) = lemma_step(g, n, e, x, false);
    assert(x == 0xafc6e2401d0d1021650f2a6b2fd7f6656dbe92bf609f03f357ac07738a6f605int);
    let (e, x) = lemma_step(g, n, e, x, false);
    assert(x == 0x1312b386c8257f5caaeab206e0d86ef4956ad8c812179fc552a2e23298848ad9int);
    let (e, x) = lemma_step(g, n, e, x, true);
    assert(x == 0x1902a83846dd49044426b6121bdc6cedfa57a17c8df2a84766fe193733ee9893int);
    let (e, x) = lemma_step(g, n, e, x, false);
    assert(x == 0x24968ea94989372ef757067184e35c283aaf1f403358d053273d19f347c0a93eint);
    let (e, x) = lemma_step(g, n, e, x, false);
    assert(x == 0xb645cabf45ccf9fff954b51bbf62b31009824fe4a491e05586e383e7c5c0daint);
    let (e, x) = lemma_step(g, n, e, x, true);
    assert(x == 0x1c6afea86fda3f1fdc66f4e0fd909c2a523b129ff4f8a76a8e9183a4944b3e5aint);
    let (e, x) = lemma_step(g, n, e, x, true);
    assert(x == 0x1842a33bf7c45cc6a2ce5c092dfa3ead13cd6b595312be16f52a17cc4c603870int);
    let (e, x) = lemma_step(g, n, e, x, false);
    assert(x == 0x2cf92bc35114051007edaba25922088ac7a480ea0e4da5d9a19a7d1597d5fc98int);
    let (e, x) = lemma_step(g, n, e, x, true);
    assert(x == 0x18720f56678010f1eae21e3e51715d1482373632466b22d87227f15a3c04a938int);
    let (e, x) = lemma_step(g, n, e, x, false);
    assert(x == 0xdb8d9e79b0806aa759175a052b8aa59179326867418ced25dca3201967124c9int);
    let (e, x) = lemma_step(g, n, e, x, false);
    assert(x == 0x250f84fa197eb941bfa48de95ced6b6ff3bae461abb1f4ead26a30bc47d65c66int);
    let (e, x) = lemma_step(g, n, e, x, true);
    assert(x == 0x166397bbbd6b33845d2fb83aec445aad489e768a14efd06ccb71650b3f218c54int);
    let (e, x) = lemma_step(g, n, e, x, false);
    assert(x == 0xc020f6590d89408a7ecf4ea6553b1d4a0ce3867e8a918cf102a3e7082a499e0int);
    let (e, x) = lemma_step(g, n, e, x, true);
    assert(x == 0x22cef99e0c189130393f7cb7413239d8c934d11b667c9824011625beaabaa87aint);
    let (e, x) = lemma_step(g, n, e, x, true);
    assert(x == 0xceda64b09ce2634b1b5c1e0a2779fd215a80e4eeebba684a4b0153def5394deint);
    let (e, x) = lemma_step(g, n, e, x, true);
    assert(x == 0x1a6a4ae2604216527009d6e334d97454be57063d6f20a7073905e73f89bf57d5int);
    let (e, x) = lemma_step(g, n, e, x, true);
    assert(x == 0x1264ad1214c0fee06f417984e6d488616a440c001bec821ad1998af0041c308int);
    let (e, x) = lemma_step(g, n, e, x, true);
    assert(x == 0x87ab65382200caa1d275c97eb4f370c77fb10c56fbeafb69c29a71f66628b9aint);
    let (e, x) = lemma_step(g, n, e, x, true);
    assert(x == 0x2a55d1a9c54cd92898f6c1956db237376f247b1519cd100ec0ed664e8f2809c9int);
    let (e, x) = lemma_step(g, n, e, x, false);
    assert(x == 0x34a4ed68f3ccb0d438074f01847af076ea4deca41671f0adb47fcf03a14f6e4int);
    let (e, x) = lemma_step(g, n, e, x, true);
    assert(x == 0x22a8b6f546801d467db6f10d90e0fbdbc84090ec5d9392e5f99852f3444afccaint);
    let (e, x) = lemma_step(g, n, e, x, false);
    assert(x == 0xc8c99ebfa901a2f385e0ab04dceefc7ba92dbe4c43befec2fcd8bcc566b66b0int);
    let (e, x) = lemma_step(g, n, e, x, true);
    assert(x == 0x2c52ee223d1676e1de93d33daedd78800c84d8dbe326f2e386dcfe75abd9ec6dint);
    let (e, x) = lemma_step(g, n, e, x, false);
    assert(x == 0x11385c78e125653da99e7e5228c98f16dd34a6aef6eee55bc145834e42d7d0b9int);
    let (e, x) = lemma_step(g, n, e, x, false);
    assert(x == 0x1d2cbfca4c3e8b5901bf4bb493a5f56d2a38dfc7455567f59dc6d93d187d0c08int);
    let (e, x) = lemma_step(g, n, e, x, false);
    assert(x == 0x12c8d8b02bd65e17d2d4dc6a1f2bd2896357c2b1244d8fc048331d92ddab04fcint);
    let (e, x) = lemma_step(g, n, e, x, true);
    assert(x == 0x1eb36add7c740d8b5b0aa70706c52d9020acce2c0ab96e182b9eef7e377242a9int);
    let (e, x) = lemma_step(g, n, e, x, false);
    assert(x == 0x20bba139ef42859d19277014948cfb87505833e5b80d8bc34d93f1a7150ce0a5int);
    let (e, x) = lemma_step(g, n, e, x, false);
    assert(x == 0x96854d61b2b167a9ca027744c77135540293c0b8a51ce6e0d68b384e01d28fdint);
    let (e, x) = lemma_step(g, n, e, x, false);
    assert(x == 0x1eaa748adc1f65d41012feaf81b294701740c9be2a6b636bdd0a03b25c90dad0int);
    let (e, x) = lemma_step(g, n, e, x, true);
    assert(x == 0x2cb8da09eb34171720b5398ffcf7169bff184a91439cf9c992e3394489df41cdint);
    let (e, x) = lemma_step(g, n, e, x, false);
    assert(x == 0x1cdfd02e19bee17b65dad53be50370b508484a0afa92d13fead80b8b2cb054e1int);
    let (e, x) = lemma_step(g, n, e, x, true);
    assert(x == 0x2c01ef1c428d2d734afecb55ef58e0cfdeed382872f3cb3053f544dd963a5231int);
    let (e, x) = lemma_step(g, n, e, x, true);
    assert(x == 0x18cffaf02742cc210ed936147780bdee6ad164d4b032e1b4a5ddba6af66b3f44int);
    let (e, x) = lemma_step(g, n, e, x, true);
    assert(x == 0x12d552114a896a35d13cc8772c5649e2546885fd6c33a877d0757847aa9d08e1int);
    let (e, x) = lemma_step(g, n, e, x, false);
    assert(x == 0x69e67756caa697cb5c2e9b3a4e037c9aeb325278b3391ade99dd7e2a61e1b64int);
    let (e, x) = lemma_step(g, n, e, x, true);
    assert(x == 0xe3ea33ea9afd9b4ea8319a0b5a271d6363916302e4818a8b92fe1b29458ec3int);
    let (e, x) = lemma_step(g, n, e, x, false);
    assert(x == 0x19e1eb034bca69906904a98f5a9ad46447d9fa6bbe4013ddc2222164a29ef80dint);
    let (e, x) = lemma_step(g, n, e, x, false);
    assert(x == 0x1dc39bcef6c3f982d804ddb9cfaa09b7e04d9e30719a07707b3e0a7b32e5e1f6int);
    let (e, x) = lemma_step(g, n, e, x, false);
    assert(x == 0x7d2754d0aa2dcf0d176cf704a75bfa6c6006bc247ad272c3e6185acbe69fc13int);
    let (e, x) = lemma_step(g, n, e, x, false);
    assert(x == 0x3cd41608ee96a37019769f528f31e58ffe5548ff60f40977e7b1e2eeed34b65int);
    let (e, x) = lemma_step(g, n, e, x, false);
    assert(x == 0x199a16508173706eec663ccb8829965c15d0a4124597e7dedadf176ad5ff937int);
    let (e, x) = lemma_step(g, n, e, x, false);
    assert(x == 0x229228ccc0f97b9a421b1b36bded0bbfe9de72d11fb7655a83d192f7e3f18ff8int);
    let (e, x) = lemma_step(g, n, e, x, true);
    assert(x == 0x1c274d5d84d4edd8cd61998d8cb889fa8ca7518f7f5853d2ef10a41ee20acd9int);
    let (e, x) = lemma_step(g, n, e, x, false);
    assert(x == 0xa9932f45394e2b0896733c53ccf81dd2cdbe1f5be401171f687db49d39ff966int);
    let (e, x) = lemma_step(g, n, e, x, true);
    assert(x == 0x1c4f16cfa76cd770468845a566b7b6d89c08c729618eff11244cf77c39522bafint);
    let (e, x) = lemma_step(g, n, e, x, false);
    assert(x == 0x21ea214427b0630a6895e7f7b54efe793a7514b7a20e4d94172852f966928433int);
    let (e, x) = lemma_step(g, n, e, x, true);
    assert(x == 0x189b6db7f32f6a158335b5156dcaa8055cfcfc2dfc02208b7de99f994eea97ceint);
    let (e, x) = lemma_step(g, n, e, x, false);
    assert(x == 0x1cc914b4686488e012e6c494863e1cbf35821dd2c4980d3efe302ea4f31beae8int);
    let (e, x) = lemma_step(g, n, e, x, false);
    assert(x == 0xd0c6a1087c30d8bbc6eb8cb21148389031bc94814edd6e35cf98f697423a4bdint);
    let (e, x) = lemma_step(g, n, e, x, false);
    assert(x == 0xcc2e2d3b633de00c9cb2df90ea0b48f790e8d95c2a4d018436c4fda24930758int);
    let (e, x) = lemma_step(g, n, e, x, true);
    assert(x == 0x1a6470684e98cdff18d0e1ed7799c483ed63a96403287a5038dbe4331b4b88caint);
    let (e, x) = lemma_step(g, n, e, x, true);
    assert(x == 0x2997298b7ab9822b9e30bc43fc6277cf3810f6a5f08725b73e902808d94136ffint);
    let (e, x) = lemma_step(g, n, e, x, false);
    assert(x == 0x2ffb9a7c54266bcb4924764beb68cba73eee2361b8a88bb17db3ef4746fb43f1int);
    let (e, x) = lemma_step(g, n, e, x, false);
    assert(x == 0xd7b7e7aa5627e3bf0b4be464c987440811e927e063dea9774cb19efc16d25b0int);
    let (e, x) = lemma_step(g, n, e, x, true);
    assert(x == 0x1707353b171a1d8bd591f8f02393ad85ec2f4e76ae7990006d3d38c577ff40aaint);
    let (e, x) = lemma_step(g, n, e, x, false);
    assert(x == 0x1bc0574d8ee569fe2257d2ea3c8b6957257bd9146abc9de65d631941a0447a5eint);
    let (e, x) = lemma_step(g, n, e, x, true);
    assert(x == 0xd92181f5a0332485afede5d53f8a48bac93b14dae74f8f744e3ac1cc29b70beint);
    let (e, x) = lemma_step(g, n, e, x, false);
    assert(x == 0x27d84e645b0363c5df19b630b1b617f3fc596b6457de33aa6d61ac1ec0bc423cint);
    let (e, x) = lemma_step(g, n, e, x, true);
    assert(x == 0xe87b3e1d03390db06f9672bf7356c898da8fde65f76840236782ba024000506int);
    let (e, x) = lemma_step(g, n, e, x, false);
    assert(x == 0x1918d2ffcd8a31a02094707a208997f17ee5f8fc99e4ddd5f93e78f5d47eac78int);
    let (e, x) = lemma_step(g, n, e, x, true);
    assert(x == 0xc2578e50d2ec053e45ca377d6daf646eb2758cb91588f67d47db35b095b678eint);
    let (e, x) = lemma_step(g, n, e, x, false);
    assert(x == 0x5ed835b331d438dc7ad0edf764c9c82663a29dd314350dcda20f05fb6a13f03int);
    let (e, x) = lemma_step(g, n, e, x, true);
    assert(x == 0x1f49f57b65fedb766f00d3a37f9e85202934ab60ca7ec64f49094daf1e26d352int);
    let (e, x) = lemma_step(g, n, e, x, false);
    assert(x == 0x169986da1eedf5cad0e85aa1b6ce230c76c0c8e7507520026704068a76ef40a9int);
    let (e, x) = lemma_step(g, n, e, x, false);
    assert(x == 0x855b13abcd0bb3bf2cb35ad37e36c43882d677927225a52dc39277cb792fd6dint);
    let (e, x) = lemma_step(g, n, e, x, false);
    assert(x == 0x82d55a57eb124ed855f9fcb5c3717318a81070885d1340f9a7f38a9a72a9bf0int);
    let (e, x) = lemma_step(g, n, e, x, false);
    assert(x == 0x976a863f067997cfd57cc14b07269e9ac193fdb5285e37d73d664b1a00c1aa1int);
    let (e, x) = lemma_step(g, n, e, x, false);
    assert(x == 0x349f7ac1e7c56f36cebfebae5a62cbd366b3bee5cde0f0058781c3003bf3adaint);
    let (e, x) = lemma_step(g, n, e, x, true);
    assert(x == 0xb0273d6c7c78426e3a153c2e3c7e798dfd9f02827f184a0c6b9ee5515bab009int);
    let (e, x) = lemma_step(g, n, e, x, true);
    assert(x == 0x3eb1516d084e7e5a7e0a616fb31ecfaf15727533d3e561f1cca1997138b7d1cint);
    let (e, x) = lemma_step(g, n, e, x, true);
    assert(x == 0x12ecbc443af6d645d1f1d44f6a0c51ab5314a3b0f73196090e6ed0caf76b274bint);
    let (e, x) = lemma_step(g, n, e, x, true);
    assert(x == 0x84ed71d025825f35c8701fbe36ced148a3b0930f3c798b3965cf7c347980773int);
    let (e, x) = lemma_step(g, n, e, x, false);
    assert(x == 0x50277428016df6bc705ad0e4755b2e6438927c11b3dce337b6b5e3a00fd00bdint);
    let (e, x) = lemma_step(g, n, e, x, true);
    assert(x == 0x142c829baf28775af94c54407a80207775471918eeca88f38d92924a3b1048c1int);
    let (e, x) = lemma_step(g, n, e, x, false);
    assert(x == 0x9fd64a06cd9646467475904fab2f22c81d26fe921e716cd00ba9682f0c9dd2aint);
    let (e, x) = lemma_step(g, n, e, x, true);
    assert(x == 0x2095bba8b37ce07f9e27b6c103a6b07ffde76c5ac461f7e70c7c3c244fad32dfint);
    let (e, x) = lemma_step(g, n, e, x, true);
    assert(x == 0x1a8654c3ab5ef13417a98d5d263f0c3a0e1c12e8697b43e907386859a240042int);
    let (e, x) = lemma_step(g, n, e, x, false);
    assert(x == 0x152c0e3423111b99044eb7d79d12844d29827aacb506ccd3039c8e547c3c8ea7int);
    let (e, x) = lemma_step(g, n, e, x, false);
    assert(x == 0x1ae78552aa8f1365146c41670d6225af25f95fec6c796af8141261f39414cccfint);
    let (e, x) = lemma_step(g, n, e, x, true);
    assert(x == 0x983239695b74c8ba5c624717c6a160d9a34b402355d8a2a152067075648d333int);
    let (e, x) = lemma_step(g, n, e, x, true);
    assert(x == 0x11e43092f537b557b5d31281ad83029b7b639dc82b6ca7455899bf877322db15int);
    let (e, x) = lemma_step(g, n, e, x, false);
    assert(x == 0x1a693a70b99ca4a87c07315b7f9e1c0195d816da21479449e9c58183cd75bbbfint);
    let (e, x) = lemma_step(g, n, e, x, true);
    assert(x == 0x25d5d93409f2fe2040b5d088b903b3e401e27f7a1afd44e979acd1b1e0bf2748int);
    let (e, x) = lemma_step(g, n, e, x, true);
    assert(x == 0xce7f34b65aa06bcf6db82af876a1bd7ea7a85da74b46d5ffc3a67a8cdfa14b9int);
    let (e, x) = lemma_step(g, n, e, x, false);
    assert(x == 0x7c6ac141b54c94f0e509b63701ca7290d16dabc253ef8129f9556e45fd76d58int);
    let (e, x) = lemma_step(g, n, e, x, true);
    assert(x == 0x16239168959057ffb94af93d8869c6e003ab3a6654b3db4cfed9a1431615d24fint);
    let (e, x) = lemma_step(g, n, e, x, true);
    assert(x == 0x954e317c0bf2681708b8e8c30100f4aa49550b63c4b66c04786d55105478093int);
    let (e, x) = lemma_step(g, n, e, x, false);
    assert(x == 0xfd16d84726c0c06d9ae476dcb2532a19b71f3a902f4e27144f8c96ea51fdb29int);
    let (e, x) = lemma_step(g, n, e, x, false);
    assert(x == 0x7bdb45d17804b933c6a6bf7bfc27ed0b2229dd70a81698e4c9fdf520960ed89int);
    let (e, x) = lemma_step(g, n, e, x, true);
    assert(x == 0x2345161088ca0465773da07f2cf50f715b16285d3a6c38cf388917213f1255aint);
    let (e, x) = lemma_step(g, n, e, x, true);
    assert(x == 0x98c61aba76fa0c5b36bf9f8a3fb3e85744485b322bcc1d95c82db3021db0131int);
    let (e, x) = lemma_step(g, n, e, x, false);
    assert(x == 0x919d857d8ffd39904a1048776a5143653ab38373d43b9cb81f1b11d807fcf6cint);
    let (e, x) = lemma_step(g, n, e, x, true);
    assert(x == 0x26a481c2bbf44a0995fcb591fe87c224ceb28f68bdd119d1ecda967178f4fa7dint);
    let (e, x) = lemma_step(g, n, e, x, false);
    assert(x == 0x2714a1fd0478a4fae2f7375963ab4d3fb12a5ad2b3bbe6f306eb86b729c04c01int);
    let (e, x) = lemma_step(g, n, e, x, true);
    assert(x == 0x117011e087c040202386001c29653ed6448545bc43bdf7f178c2a6738d857894int);
    let (e, x) = lemma_step(g, n, e, x, false);
    assert(x == 0xa885f520559db3d411aadf24e833f10c9dcd97d921b2299433f3989d43a9efaint);
    let (e, x) = lemma_step(g, n, e, x, true);
    assert(x == 0xf6269f1620413f921ec719cd9692601788c68b0805b8053747545c97d035275int);
    let (e, x) = lemma_step(g, n, e, x, false);
    assert(x == 0x242d3b272f96ca7f5212ab05437eb5d4a7531411d8d5705702c98c38cc7d9af9int);
    let (e, x) = lemma_step(g, n, e, x, true);
    assert(x == 0x200cc71b95c7d81a331645ae79a551dfcc05f2b14e88f33bf4640abf89f67385int);
    let (e, x) = lemma_step(g, n, e, x, false);
    assert(x == 0xfcd46092cee417bda8a64196ddf30ea0ea9fee679fb0ac742270920678a0f02int);
    let (e, x) = lemma_step(g, n, e, x, false);
    assert(x == 0x1b9ae207cbf7ebbfedd5660704749430c00973194e122adc891a06de3024646cint);
    let (e, x) = lemma_step(g, n, e, x, false);
    assert(x == 0x60769ff295a59f1220f1b981e7a6c1c62f480865e92668cccc8336e104e9ab9int);
    let (e, x) = lemma_step(g, n, e, x, false);
    assert(x == 0x28e93a54710b985bc00583b43a5fb4afba535a4eddf5b2d03233b196608f8d54int);
    let (e, x) = lemma_step(g, n, e, x, true);
    assert(x == 0x50ea6261efdbebc7e7447b15d86eb399370aaa6c0248456fce72d0c2d522e17int);
    let (e, x) = lemma_step(g, n, e, x, false);
    assert(x == 0xa61ac87a7c88e3bf3b67bbfe6edeb7b0032780155a1a69b01fa613dd0626bbfint);
    let (e, x) = lemma_step(g, n, e, x, false);
    assert(x == 0x2de2fe81cd9501ba4dd40c4a10af98a2384ab30720fb92d06b439b6771e6f202int);
    let (e, x) = lemma_step(g, n, e, x, false);
    assert(x == 0xa1499782008126326a9dcf86ae1c3c8036a12fdf8a165c9582ef719f5e31aa8int);
    let (e, x) = lemma_step(g, n, e, x, true);
    assert(x == 0x1f974bffd9f16587e9c917aa9422f17cb18398699947cee64b6739911241a6fint);
    assert(e == 0x2775dec4d2fd445d02a32aa0f59b66aa11nat);
}

/// A power modulo 0x30644e72e131a029b85045b68181585d97816a916871ca8d3c208c16d87cfd47.
proof fn lemma_power_q_2()
    ensures
        pow(0x1f974bffd9f16587e9c917aa9422f17cb18398699947cee64b6739911241a6fint, 0x364e8fc7589228896nat) % 0x30644e72e131a029b85045b68181585d97816a916871ca8d3c208c16d87cfd47int == 0xc4141a2fff51ff80b59bc5d4be00cc4a3e7b0d2a27914b83979d4ffceb31c08int,
{
    let g = 0x1f974bffd9f16587e9c917aa9422f17cb18398699947cee64b6739911241a6fint;
    let n = 0x30644e72e131a029b85045b68181585d97816a916871ca8d3c208c16d87cfd47int;
    lemma_start(g, n);
    let (e, x) = (0nat, 1int);
    let (e, x) = lemma_step(g, n, e, x, true);
    assert(x == 0x1f974bffd9f16587e9c917aa9422f17cb18398699947cee64b6739911241a6fint);
    let (e, x) = lemma_step(g, n, e, x, true);
    assert(x == 0x6ce4ca241f3ff2dd4f0805b811dea088f90424fcfeb0f8407ceda6c10c1131dint);
    let (e, x) = lemma_step(g, n, e, x, false);
    assert(x == 0x971ce5cce94413ea6eda5e93546ae63775eff5b196e83a517fd5a70d10b1155int);
    let (e, x) = lemma_step(g, n, e, x, true);
    assert(x == 0x3fac7cf0a8fc8b46714d35d8c3ef4bfd07c509484a47b6326d38bfbc26fa3bfint);
    let (e, x) = lemma_step(g, n, e, x, true);
    assert(x == 0x289f8a171c03b43ed214597ee7269ecc9b8a69b7f66298f5ca49e4bdd87d68faint);
    let (e, x) = lemma_step(g, n, e, x, false);
    assert(x == 0x2e253aeb1b672299c751124368034e005eb4190f1b8f4d0131885db2c5c687a8int);
    let (e, x) = lemma_step(g, n, e, x, false);
    assert(x == 0xc5075f5b21f9da9a862407b7e7840cc05029f84edf1ed71d43b2129cfa74ba7int);
    let (e, x) = lemma_step(g, n, e, x, true);
    assert(x == 0xcf4da6995d27bac094ca5a1ac92340fc34e2dfe6d4d453727e93e947c50664fint);
    let (e, x) = lemma_step(g, n, e, x, false);
    assert(x == 0x19142762c3858eb841b6a26f4f97356eff8f4e0be5a1caf20019c20b36f1c1e1int);
    let (e, x) = lemma_step(g, n, e, x, false);
    assert(x == 0x2c801a70cb537895693fbe5ac77c90f57fc1ed3b063469bc2f213fe9d979893aint);
    let (e, x) = lemma_step(g, n, e, x, true);
    assert(x == 0x24eee426a784a787fd0d1466056667b1432c025360ef766b64f192e7b684b0fint);
    let (e, x) = lemma_step(g, n, e, x, true);
    assert(x == 0x29d3e32b05d8421fb1d19cd46a354a3753118b2327716cb3469179b37a256068int);
    let (e, x) = lemma_step(g, n, e, x, true);
    assert(x == 0x20499f8e9990e44347517fe0c47699b7c07622587a8457f3702bf84dfc2ea35aint);
    let (e, x) = lemma_step(g, n, e, x, false);
    assert(x == 0xe6626897cacb5766a54c855f09c49d3574a8bc4aa19c53fc9fa26f3d4477bb5int);
    let (e, x) = lemma_step(g, n, e, x, true);
    assert(x == 0x16b5128c445d851b527df6f8bc059f29e76ca41144abe4ee30477d9abd5637c5int);
    let (e, x) = lemma_step(g, n, e, x, false);
    assert(x == 0x1e5603868089db93849f2313e956abfc894bb443b916c4b07924c00c0743576cint);
    let (e, x) = lemma_step(g, n, e, x, false);
    assert(x == 0xf3aaa6a8b3c6035213074ba8a7a947323d932e8dbb8fb6914648b795f3cb87bint);
    let (e, x) = lemma_step(g, n, e, x, false);
    assert(x == 0xba412a32f9bc44dc2b52222f86cdee477cf492a4c54f1a533e128ddb78076b1int);
    let (e, x) = lemma_step(g, n, e, x, true);
    assert(x == 0x998ace9c21bb906b92b8b95c6551751c425736a63de42699b3d653a9ec734f2int);
    let (e, x) = lemma_step(g, n, e, x, true);
    assert(x == 0x1885d77618fad264f06b9dbbe2e016ecc29a1ca0bded9c4b1e0a8907c2c1b044int);
    let (e, x) = lemma_step(g, n, e, x, true);
    assert(x == 0x2e0c945f52b2cc5e6333fe6a19675eef5dc3ef630ca1caba3f0854baac3c6d6int);
    let (e, x) = lemma_step(g, n, e, x, true);
    assert(x == 0x2a9405d2e55560f1b6a219ddcefd7c39d2be5a95271f107e580f937d637ce37int);
    let (e, x) = lemma_step(g, n, e, x, true);
    assert(x == 0x2a94143be342696ba8a6376dc2d590b8af54f5bdc956d793806f896fda1e2f7bint);
    let (e, x) = lemma_step(g, n, e, x, true);
    assert(x == 0x1ff6111a969c367fad6703571050a4919fc9654ed8eec386d4569b220fd0a9ddint);
    let (e, x) = lemma_step(g, n, e, x, false);
    assert(x == 0x1519c607de6b9a3135f463814031124ee9cf2873ba14e8a45f742e437f1df8aint);
    let (e, x) = lemma_step(g, n, e, x, false);
    assert(x == 0x17c47131078ccf98d5276d22f4a861584f448df895011389beaea6d5d729ab94int);
    let (e, x) = lemma_step(g, n, e, x, false);
    assert(x == 0x1cb600ab2559c54f38795ef5045e3a26b77ef038ba7faf2a1a5d5f132034645fint);
    let (e, x) = lemma_step(g, n, e, x, true);
    assert(x == 0xa9205a30489dff6cb7f811be64527177d1acdd7e8388fb0cf7acae1011c00c9int);
    let (e, x) = lemma_step(g, n, e, x, true);
    assert(x == 0x22b3b900b1febb31c823b7e911228c87351d44d6fcae7878c61646742898ae25int);
    let (e, x) = lemma_step(g, n, e, x, true);
    assert(x == 0xe491b4f3cd51d6596bbb9a64c8c3dd482f0f0dc4074725336b52cdeed12e8cfint);
    let (e, x) = lemma_step(g, n, e, x, false);
    assert(x == 0x18815bc0e8c82a51b06c719269615eee32e573b67b18edf38dadb129fadfb3fdint);
    let (e, x) = lemma_step(g, n, e, x, true);
    assert(x == 0x7530cacbc86c955fbe0dab7bc60d345e261550eeebfa2c90551228d959a4125int);
    let (e, x) = lemma_step(g, n, e, x, false);
    assert(x == 0x12804762132a70afdcb49f2836cb7e4c06cbe071b92ddf42400cd239ac4fe72cint);
    let (e, x) = lemma_step(g, n, e, x, true);
    assert(x == 0x2058916b2e05b5d8fa7bcfd416462945bc0985da7d38a3a0aef60e468ceb6890int);
    let (e, x) = lemma_step(g, n, e, x, true);
    assert(x == 0x18496e9a6461dc06662177be314fc0417b36640f23f63f19ceffb9781c3c3417int);
    let (e, x) = lemma_step(g, n, e, x, false);
    assert(x == 0x866e60a8dcb4375afd8a7991d4091913dbdf8fd0fb07d11bd042870039f347aint);
    let (e, x) = lemma_step(g, n, e, x, false);
    assert(x == 0x2e1ac89ecb3ac9c26559645bf51eac8a6489987a45144570d4e2c61f3aea3040int);
    let (e, x) = lemma_step(g, n, e, x, false);
    assert(x == 0xf74a6b207f9109a75654e94be97eb6b1d7d7d2a74437e83860b8e371651ce77int);
    let (e, x) = lemma_step(g, n, e, x, true);
    assert(x == 0x12615eb2ace8494d27ffa2263cf549a49462ca944a79b36e6d5bc3208a44eb2dint);
    let (e, x) = lemma_step(g, n, e, x, false);
    assert(x == 0x2c80f7ac2e6b6e6cdff41c1b77f608ac9b66e4a062e74c2dc8e3c600bd36ff45int);
    let (e, x) = lemma_step(g, n, e, x, false);
    assert(x == 0x1af736574d4087ea6549ade2c13b0ed93a0802482f7f50c03302d4cabb452625int);
    let (e, x) = lemma_step(g, n, e, x, true);
    assert(x == 0xb7b35da4cb7e66464f4e0fbbd51bda9c6de661d8098e499df02add78888c20dint);
    let (e, x) = lemma_step(g, n, e, x, false);
    assert(x == 0x131b33192d3fc87c8408c0db6d9a6064fe71fccff6d62402c7c754267ef343f3int);
    let (e, x) = lemma_step(g, n, e, x, false);
    assert(x == 0x17a5e2da5ab371ebc255bf563ce17f3d0adc8e0186e5f99ee56d639449ef26abint);
    let (e, x) = lemma_step(g, n, e, x, true);
    assert(x == 0x224579fcbad1fcdf527cd5dd4e674cd19d654361ce80ff0313460f18d18a149bint);
    let (e, x) = lemma_step(g, n, e, x, false);
    assert(x == 0x2ffd4533430c27922fbc8a9588d6d9a2a38b76444bd70258f9a7287d99a1dcc3int);
    let (e, x) = lemma_step(g, n, e, x, false);
    assert(x == 0x2ed1335ff107570786fb8b9a7f9aa6ff22ae3175fba1dd2e1474374d5e7ab3c1int);
    let (e, x) = lemma_step(g, n, e, x, false);
    assert(x == 0x20dab43c87acb2216c028f0a0ea5c45d8ce2ac546c687af40fd6e577d939fabcint);
    let (e, x) = lemma_step(g, n, e, x, true);
    assert(x == 0xa0ab1876fb5215507349bf2e8afb2040fa15cd9038c6169a53fa4896d731615int);
    let (e, x) = lemma_step(g, n, e, x, false);
    assert(x == 0x73274a8c8ed54364a4f9a9341e6c1a8fb42f1aec9dcc062df76a17ff662a884int);
    let (e, x) = lemma_step(g, n, e, x, true);
    assert(x == 0x2ac8e7cc5d2799711959107c5d89347bd3e118e98d35a3c099eff9e4a9e24114int);
    let (e, x) = lemma_step(g, n, e, x, false);
    assert(x == 0xbd42a68929305b54a1adbcf97179b85c44a223b276ea913a7f4c3a5397467ffint);
    let (e, x) = lemma_step(g, n, e, x, false);
    assert(x == 0x8405b51a4b155236ddc41e8f1da458d02fc556392cca8248f3ab65591655dfeint);
    let (e, x) = lemma_step(g, n, e, x, false);
    assert(x == 0x19d8e8e8ac38ed1b1356e0ee8a1e29b514bcbef556ae37b344ecb0c07c555c9int);
    let (e, x) = lemma_step(g, n, e, x, true);
    assert(x == 0x2a5e886f3979f609de37aa1f9c1686db4e0eb92d9fdb28d32a5704178a6d5139int);
    let (e, x) = lemma_step(g, n, e, x, false);
    assert(x == 0x1056cc387d19f93073a7c5f6a54fffa1c78cc447e9cb7526855b44f78676bf53int);
    let (e, x) = lemma_step(g, n, e, x, false);
    assert(x == 0x13eccb696a8d3192b423ac9802aea99a03306b185904c65ad56ad541f760e594int);
    let (e, x) = lemma_step(g, n, e, x, false);
    assert(x == 0x16549173eccdb40fd4410a605f4866c298b65924ec63e8c6981eadafb6b0a3b7int);
    let (e, x) = lemma_step(g, n, e, x, true);
    assert(x == 0x30476eb344787cdf3b12154a00a909f55589c5e14f1bed5ee2b3dca77708af6aint);
    let (e, x) = lemma_step(g, n, e, x, false);
    assert(x == 0x1e0fbbfe7b50ea32c0a334a11a89a90f7e65330a72c02f7cdf6486f79666d9d7int);
    let (e, x) = lemma_step(g, n, e, x, false);
    assert(x == 0x1c0a54cbeecc4f6b111472488251b6de46c31eb3584c0788f6b1e3492ff46a68int);
    let (e, x) = lemma_step(g, n, e, x, true);
    assert(x == 0x2ebdafb6c0f717a4c9d00ddf4e020d5a271a437bf68d2d0ee2cb9d1b3f89546aint);
    let (e, x) = lemma_step(g, n, e, x, false);
    assert(x == 0x1778192fa4219e0a79ffb3b993ab0f86a6d36052e11fbfb844befbaa32005229int);
    let (e, x) = lemma_step(g, n, e, x, true);
    assert(x == 0x1293bbc35ac883d975c19c42c4140dfb3ce7a64e126279d2a58cfacbc4d8db0fint);
    let (e, x) = lemma_step(g, n, e, x, true);
    assert(x == 0x2ba094dfae2e230d58d6cf1418c037671222db32cbe9cda56f08fd1916c5b1cint);
    let (e, x) = lemma_step(g, n, e, x, false);
    assert(x == 0xc4141a2fff51ff80b59bc5d4be00cc4a3e7b0d2a27914b83979d4ffceb31c08int);
    assert(e == 0x364e8fc7589228896nat);
}

/// A power modulo 0x30644e72e131a029b85045b68181585d97816a916871ca8d3c208c16d87cfd47.
proof fn lemma_power_q_3()
    ensures
        pow(0xc4141a2fff51ff80b59bc5d4be00cc4a3e7b0d2a27914b83979d4ffceb31c08int, 0x1831fb5fnat) % 0x30644e72e131a029b85045b68181585d97816a916871ca8d3c208c16d87cfd47int == 0x2b107de633f0db9732f8b0c9c5c2d0dd34edd5e465439764be453d282e17d5d7int,
{
    let g = 0xc4141a2fff51ff80b59bc5d4be00cc4a3e7b0d2a27914b83979d4ffceb31c08int;
    let n = 0x30644e72e131a029b85045b68181585d97816a916871ca8d3c208c16d87cfd47int;
    lemma_start(g, n);
    let (e, x) = (0nat, 1int);
    let (e, x) = lemma_step(g, n, e, x, true);
    assert(x == 0xc4141a2fff51ff80b59bc5d4be00cc4a3e7b0d2a27914b83979d4ffceb31c08int);
    let (e, x) = lemma_step(g, n, e, x, true);
    assert(x == 0x11e91650b84c8fe3b3353a90e9249dc5e92175f2a9d42f0a51e3f86eb2f1bfa3int);
    let (e, x) = lemma_step(g, n, e, x, false);
    assert(x == 0x2ed987d6cb15e2b6aec696d2a1afb2a1873f99d469c0228537e42c3e7a52762eint);
    let (e, x) = lemma_step(g, n, e, x, false);
    assert(x == 0x2b9a115c3e5a6823f534064b69d9e4ea35fb7474531961bd65ac59f9ee591b30int);
    let (e, x) = lemma_step(g, n, e, x, false);
    assert(x == 0x10911c21a24aa31d1332d72f5b035c83e851ab90b3ca32d863647f9c204df63int);
    let (e, x) = lemma_step(g, n, e, x, false);
    assert(x == 0x1b5f0d0fc2147a078e81bdd476f12c4c8b971e382c22c93b7376de5ee2875655int);
    let (e, x) = lemma_step(g, n, e, x, false);
    assert(x == 0xf4b4eb1d1767679539c99e4a5a7b9473349bedd0c87f2ec6822a95102b85f39int);
    let (e, x) = lemma_step(g, n, e, x, true);
    assert(x == 0x27cd2febe65d80eaaf193c664969f472bbf087ac11a2c2bf4ac131d61ad0f996int);
    let (e, x) = lemma_step(g, n, e, x, true);
    assert(x == 0x11535070b0dd267320bae8130fc51dbbbad51f805ee9c4778e155d150403c4b0int);
    let (e, x) = lemma_step(g, n, e, x, false);
    assert(x == 0x2dbff16ea6e0db4ca45bd69f9036d030c93c82f6676b23ef742ca43b6000d22bint);
    let (e, x) = lemma_step(g, n, e, x, false);
    assert(x == 0x1abcaf8a752162431fb7f3c8a2fa9731eebf766b6ba15ac4583fa07ff7560967int);
    let (e, x) = lemma_step(g, n, e, x, false);
    assert(x == 0x1e84594d8bc664de0564ba43826762a1d405a7bb6b3d4398986725639de38ef4int);
    let (e, x) = lemma_step(g, n, e, x, true);
    assert(x == 0x2dc67a68ad73bf8e13a37222f73e8e43888c8ddc38250ec795f00eb24de1106dint);
    let (e, x) = lemma_step(g, n, e, x, true);
    assert(x == 0x12c3d24d95f4d03d19b52a1a611e45626cbd2c67e7c0d1c907ae49b333be737int);
    let (e, x) = lemma_step(g, n, e, x, true);
    assert(x == 0x27c2116c47baa098d09717c3bf6ee9d1f216234175499c758eaa836441f2cd94int);
    let (e, x) = lemma_step(g, n, e, x, true);
    assert(x == 0x282583d21fd6bc300b7e6a1f6051c349cd5bece1b4e4c05f4492d0267aa7bfd9int);
    let (e, x) = lemma_step(g, n, e, x, true);
    assert(x == 0x11c2099b52edb71e3b7dcd5180cc7d225a9c2325f933ddb4034970e72f359b63int);
    let (e, x) = lemma_step(g, n, e, x, true);
    assert(x == 0x2a683682a18ae7be0fea9a9d8e8142298778c72ef5ff16e8a606871b687db476int);
    let (e, x) = lemma_step(g, n, e, x, false);
    assert(x == 0x20c484203afbb5dbcf3848d8d2d10fa3f510ad4f408ca3965004134cbc2a8e94int);
    let (e, x) = lemma_step(g, n, e, x, true);
    assert(x == 0x112ed847bbda22c4b8c517457b0252b83703ede7cef378a919410f0de7cc465fint);
    let (e, x) = lemma_step(g, n, e, x, true);
    assert(x == 0xaf3b846cc95b42a7aaba16d45e977501d943d0953610ef81fa646605b67be65int);
    let (e, x) = lemma_step(g, n, e, x, false);
    assert(x == 0x11de627ba08870cbd09f35ac9e57c6b5db2a9b1d0efcb8921364c155e8fddbe4int);
    let (e, x) = lemma_step(g, n, e, x, true);
    assert(x == 0x2fc05806b769197af820ee13cdbb479ac6cb75de427b42c411980097523576bint);
    let (e, x) = lemma_step(g, n, e, x, false);
    assert(x == 0xfa8c9d517ab25bf7fa23690b76572084f436aa2974da441710d98f4348e49d2int);
    let (e, x) = lemma_step(g, n, e, x, true);
    assert(x == 0x504409ba126d2790d6830b87cb7926be2f6e39eba6c772814dce54a6b54fc5eint);
    let (e, x) = lemma_step(g, n, e, x, true);
    assert(x == 0x1f96244916367407779a8fe2142c72ccfee88cae1306ae4f1c12ea24a1fe9006int);
    let (e, x) = lemma_step(g, n, e, x, true);
    assert(x == 0x73a012d6ffe3e59ce801355911fda3d68edf903b9b2ac6c3dd8500a42eaa710int);
    let (e, x) = lemma_step(g, n, e, x, true);
    assert(x == 0x242b91333f5930f1e3c0876c807318e0a3e064eb7388512ae992001d2f23a527int);
    let (e, x) = lemma_step(g, n, e, x, true);
    assert(x == 0x2b107de633f0db9732f8b0c9c5c2d0dd34edd5e465439764be453d282e17d5d7int);
    assert(e == 0x1831fb5fnat);
}

/// A power modulo 0x30644e72e131a029b85045b68181585d97816a916871ca8d3c208c16d87cfd47.
proof fn lemma_power_q_4()
    ensures
        pow(0x2b107de633f0db9732f8b0c9c5c2d0dd34edd5e465439764be453d282e17d5d7int, 11003nat) % 0x30644e72e131a029b85045b68181585d97816a916871ca8d3c208c16d87cfd47int == 0x9322b10c52053bf93b0140600d5afbf507ae3cae33ac590980531a44c4a6692int,
{
    let g = 0x2b107de633f0db9732f8b0c9c5c2d0dd34edd5e465439764be453d282e17d5d7int;
    let n = 0x30644e72e131a029b85045b68181585d97816a916871ca8d3c208c16d87cfd47int;
    lemma_start(g, n);
    let (e, x) = (0nat, 1int);
    let (e, x) = lemma_step(g, n, e, x, true);
    assert(x == 0x2b107de633f0db9732f8b0c9c5c2d0dd34edd5e465439764be453d282e17d5d7int);
    let (e, x) = lemma_step(g, n, e, x, false);
    assert(x == 0xce1e52b86d15fa76e75917381027ca2894a38ac562fed889db432ad8c9a1d32int);
    let (e, x) = lemma_step(g, n, e, x, true);
    assert(x == 0x1300a0a7f493e49d1077ee4dfa7327cbcfd5764f26d79f617411f7e1aa0fd094int);
    let (e, x) = lemma_step(g, n, e, x, false);
    assert(x == 0x32f0ed7c1a42aebb1dda522906064907ab6f279a2c99fdcb82345e4a15518beint);
    let (e, x) = lemma_step(g, n, e, x, true);
    assert(x == 0x49cb8cb37d946172899c72b8c19fedd64b7e909038f0ffb1a40ff625732ee1aint);
    let (e, x) = lemma_step(g, n, e, x, false);
    assert(x == 0x1da7623b547ac17a4e8fe38354032b15ea202e3d3b48031ee92f86919fa4df3bint);
    let (e, x) = lemma_step(g, n, e, x, true);
    assert(x == 0x147c2d20f480da80a73c76e769f1dad0146aed74174ddf36ad3fd7513e46fb2int);
    let (e, x) = lemma_step(g, n, e, x, true);
    assert(x == 0x495619a767415073ec8b4fdf13128090102a9d8acf89fe9d0a71b7b94010dbcint);
    let (e, x) = lemma_step(g, n, e, x, true);
    assert(x == 0x241c7e1dde843e953023aa6e83f5d9e183810aa65889759eee34dc8aa0d33851int);
    let (e, x) = lemma_step(g, n, e, x, true);
    assert(x == 0x5e65e0a603260ae11b78a250fb3e2971cd22e82b960aee44d83c51223edcd47int);
    let (e, x) = lemma_step(g, n, e, x, true);
    assert(x == 0x2c6c7852ce52b775a2207dd7d7d82a21cd9087830c81993685a36090ea8e603fint);
    let (e, x) = lemma_step(g, n, e, x, false);
    assert(x == 0x2752009d2305760f0680018f9be58733a3f8c27b560a405117ae83efa3acbeb9int);
    let (e, x) = lemma_step(g, n, e, x, true);
    assert(x == 0x1b41824a36b51cca2feb1c059d3120bec5b9017c9f42296b031b89cbb5419894int);
    let (e, x) = lemma_step(g, n, e, x, true);
    assert(x == 0x9322b10c52053bf93b0140600d5afbf507ae3cae33ac590980531a44c4a6692int);
    assert(e == 11003nat);
}

/// A power modulo 0x30644e72e131a029b85045b68181585d97816a916871ca8d3c208c16d87cfd47.
proof fn lemma_power_q_5()
    ensures
        pow(0x9322b10c52053bf93b0140600d5afbf507ae3cae33ac590980531a44c4a6692int, 67nat) % 0x30644e72e131a029b85045b68181585d97816a916871ca8d3c208c16d87cfd47int == 0x2af6d5f7482c9dcb59a1fcaf28062dbf1f0b1c08499a7dc93398ca9eb5f63281int,
{
    let g = 0x9322b10c52053bf93b0140600d5afbf507ae3cae33ac590980531a44c4a6692int;
    let n = 0x30644e72e131a029b85045b68181585d97816a916871ca8d3c208c16d87cfd47int;
    lemma_start(g, n);
    let (e, x) = (0nat, 1int);
    let (e, x) = lemma_step(g, n, e, x, true);
    assert(x == 0x9322b10c52053bf93b0140600d5afbf507ae3cae33ac590980531a44c4a6692int);
    let (e, x) = lemma_step(g, n, e, x, false);
    assert(x == 0x21d27b17243ba9922a189fcbdcdfb0153c12c8b088b05fc19dbca5137936812cint);
    let (e, x) = lemma_step(g, n, e, x, false);
    assert(x == 0x1d4ec38d9d539c1c4bcebe9d29eacc02d30e7fb8bc5bdde402bfb1e533e251fbint);
    let (e, x) = lemma_step(g, n, e, x, false);
    assert(x == 0x23fc2cc7ecf382dc6dbed4f9a7998a96d2feaecd58bed884513f7d23a021e2c5int);
    let (e, x) = lemma_step(g, n, e, x, false);
    assert(x == 0x530e7dc5882dab01911083b877c2d06b59753fe468d8345fd8324a246e91a43int);
    let (e, x) = lemma_step(g, n, e, x, true);
    assert(x == 0x225f242e37d54b78c7b4a35e3431e68c613171b21871a62adeaa46c6a8ebba91int);
    let (e, x) = lemma_step(g, n, e, x, true);
    assert(x == 0x2af6d5f7482c9dcb59a1fcaf28062dbf1f0b1c08499a7dc93398ca9eb5f63281int);
    assert(e == 67nat);
}

/// A power modulo 0x30644e72e131a029b85045b68181585d97816a916871ca8d3c208c16d87cfd47.
proof fn lemma_power_q_6()
    ensures
        pow(0x9322b10c52053bf93b0140600d5afbf507ae3cae33ac590980531a44c4a6692int, 29nat) % 0x30644e72e131a029b85045b68181585d97816a916871ca8d3c208c16d87cfd47int == 0x2f590d13a940168d511a866fc6ac5f0051b43a9c6c61c20ec89403d4b3b1b1f3int,
{
    let g = 0x9322b10c52053bf93b0140600d5afbf507ae3cae33ac590980531a44c4a6692int;
    let n = 0x30644e72e131a029b85045b68181585d97816a916871ca8d3c208c16d87cfd47int;
    lemma_start(g, n);
    let (e, x) = (0nat, 1int);
    let (e, x) = lemma_step(g, n, e, x, true);
    assert(x == 0x9322b10c52053bf93b0140600d5afbf507ae3cae33ac590980531a44c4a6692int);
    let (e, x) = lemma_step(g, n, e, x, true);
    assert(x == 0x915c8f650aeaa7d0c185bcd9e40aee51bfb87409a9afafc42c669092d97fb20int);
    let (e, x) = lemma_step(g, n, e, x, true);
    assert(x == 0x1db1ff5072fd8c881c1c88386d8a01b4dc6b5f1135521c9ae4b1b9f6ca83b5a5int);
    let (e, x) = lemma_step(g, n, e, x, false);
    assert(x == 0x5e6efd466cf060d086b8231fbf94b09d1a7e67da1054c911011358d1c62db82int);
    let (e, x) = lemma_step(g, n, e, x, true);
    assert(x == 0x2f590d13a940168d511a866fc6ac5f0051b43a9c6c61c20ec89403d4b3b1b1f3int);
    assert(e == 29nat);
}

/// A power modulo 0x30644e72e131a029b85045b68181585d97816a916871ca8d3c208c16d87cfd47.
proof fn lemma_power_q_7()
    ensures
        pow(0x2b107de633f0db9732f8b0c9c5c2d0dd34edd5e465439764be453d282e17d5d7int, 1943nat) % 0x30644e72e131a029b85045b68181585d97816a916871ca8d3c208c16d87cfd47int == 0xf0fe2f599d651d01a180e7dc5692bc3dae21ed2cc8b21d6de7752bd89fbfef6int,
{
    let g = 0x2b107de633f0db9732f8b0c9c5c2d0dd34edd5e465439764be453d282e17d5d7int;
    let n = 0x30644e72e131a029b85045b68181585d97816a916871ca8d3c208c16d87cfd47int;
    lemma_start(g, n);
    let (e, x) = (0nat, 1int);
    let (e, x) = lemma_step(g, n, e, x, true);
    assert(x == 0x2b107de633f0db9732f8b0c9c5c2d0dd34edd5e465439764be453d282e17d5d7int);
    let (e, x) = lemma_step(g, n, e, x, true);
    assert(x == 0x21fdd7b07b7ecac9895a6d0d642f0a3da98ae52fc85811406e48a3754edd741fint);
    let (e, x) = lemma_step(g, n, e, x, true);
    assert(x == 0x127b5a9f350371d72254b81c81e781a765523ef592f957de8f4669cfce5ddcefint);
    let (e, x) = lemma_step(g, n, e, x, true);
    assert(x == 0x2ea90e94c6f7f99a4c971ea32c73f5f936860945e7e4ebbce42ce16eaf851ae0int);
    let (e, x) = lemma_step(g, n, e, x, false);
    assert(x == 0x57472fa021b34a6f17ac7fef7813676c0d68adc879892979a0f0165d3e5e977int);
    let (e, x) = lemma_step(g, n, e, x, false);
    assert(x == 0x274d198b365406a06683059ac0e00efaa268dda0cdf65b05229f72159c3b3c52int);
    let (e, x) = lemma_step(g, n, e, x, true);
    assert(x == 0x2832e298cfd4da8ef6a31f7a7b1ea68736a15131c1414e350e6d59e1cd4ad816int);
    let (e, x) = lemma_step(g, n, e, x, false);
    assert(x == 0x1a1e3b2af47554c8b8b45740b9371d9afb7ae831696330dd0b57b047d144d9cfint);
    let (e, x) = lemma_step(g, n, e, x, true);
    assert(x == 0xda3662c2cf2b1d95c7dfe1f39b122b261c20aeb6169263ed63535ab580b6c07int);
    let (e, x) = lemma_step(g, n, e, x, true);
    assert(x == 0xf682b101c97daa0bb33eaba5353ece8a11d086b4f9432cac29b75ebfe68d821int);
    let (e, x) = lemma_step(g, n, e, x, true);
    assert(x == 0xf0fe2f599d651d01a180e7dc5692bc3dae21ed2cc8b21d6de7752bd89fbfef6int);
    assert(e == 1943nat);
}

/// A power modulo 0x30644e72e131a029b85045b68181585d97816a916871ca8d3c208c16d87cfd47.
proof fn lemma_power_q_8()
    ensures
        pow(0xc4141a2fff51ff80b59bc5d4be00cc4a3e7b0d2a27914b83979d4ffceb31c08int, 0x146370dnat) % 0x30644e72e131a029b85045b68181585d97816a916871ca8d3c208c16d87cfd47int == 0x8ed6a1c6cc9087cc8e500bf58bec0083de2671b6b6c1e0939325e44b3689bc2int,
{
    let g = 0xc4141a2fff51ff80b59bc5d4be00cc4a3e7b0d2a27914b83979d4ffceb31c08int;
    let n = 0x30644e72e131a029b85045b68181585d97816a916871ca8d3c208c16d87cfd47int;
    lemma_start(g, n);
    let (e, x) = (0nat, 1int);
    let (e, x) = lemma_step(g, n, e, x, true);
    assert(x == 0xc4141a2fff51ff80b59bc5d4be00cc4a3e7b0d2a27914b83979d4ffceb31c08int);
    let (e, x) = lemma_step(g, n, e, x, false);
    assert(x == 0x15609fb63ff39ab1dd4a818204c3a53e111604d376d49792309d0ece2af2a397int);
    let (e, x) = lemma_step(g, n, e, x, true);
    assert(x == 0x9ef314f9413977b608dc79cbc5c830f7093d27271ca0702a5fb1a79b38b5876int);
    let (e, x) = lemma_step(g, n, e, x, false);
    assert(x == 0xbb2c9e7cc224e15941c499e39aa933ef3e6f0588036322d01cf8afad48da970int);
    let (e, x) = lemma_step(g, n, e, x, false);
    assert(x == 0x2db4c3d8c7f71ac877047c3176db59923429dec0f6b5e04e7f7381a6d3fb8fc5int);
    let (e, x) = lemma_step(g, n, e, x, false);
    assert(x == 0xd929911cb4cf0feb5de591513320d3ec229cd60fa0dee845ca246260c13f8aeint);
    let (e, x) = lemma_step(g, n, e, x, true);
    assert(x == 0x2c8ba474b54beb19ba2cb3959222fb309bb576c69fc2097f3515c8b3452969d1int);
    let (e, x) = lemma_step(g, n, e, x, true);
    assert(x == 0x3007d2e59496de89874f9369b19888878aeee7ce79f22f59a4021841a45cd9d5int);
    let (e, x) = lemma_step(g, n, e, x, false);
    assert(x == 0x34481a8f3b07f6ff236c92c28c602294389cdaa234bde73f0c2ac243a21c6c6int);
    let (e, x) = lemma_step(g, n, e, x, false);
    assert(x == 0x1c8d74e0035b376faf066f2cce0b7a7e78d6547c2a8e4fc8d0bc532fe34e7ff9int);
    let (e, x) = lemma_step(g, n, e, x, false);
    assert(x == 0x22ff92a44ad64947c320d2e3b75aec23369edabe5488d4dd6299bd328b0c713cint);
    let (e, x) = lemma_step(g, n, e, x, true);
    assert(x == 0x5ef37b8adb86a77dd868a92ae0506c4887352e4f8dc43273c4f53d77eb3ad4bint);
    let (e, x) = lemma_step(g, n, e, x, true);
    assert(x == 0xa4342b13915a44ec2fe47791a83463c9fe46f1eb3baf1eec6c501ba764a9ee2int);
    let (e, x) = lemma_step(g, n, e, x, false);
    assert(x == 0x20f3c8949045f79f0f188193e80d5901101477e1d57281871d2a56202c215143int);
    let (e, x) = lemma_step(g, n, e, x, true);
    assert(x == 0x1f0efa925fbb687dff5726422333890c2fb2231fe981bd3da5eefe083e7e2f28int);
    let (e, x) = lemma_step(g, n, e, x, true);
    assert(x == 0xb9c67c729ddabed853b21e41be6c29e9822b4c409dc1e784db488c60d8d01dcint);
    let (e, x) = lemma_step(g, n, e, x, true);
    assert(x == 0x1cb595f0f84979c6d75319fa1a3f4cea96ebe464c0cbe86ecdf3536bb9007ee2int);
    let (e, x) = lemma_step(g, n, e, x, false);
    assert(x == 0x163ea1ce995b5f5bf212f71cd02d85a8e81ee59a57285e073be93b19409e1709int);
    let (e, x) = lemma_step(g, n, e, x, false);
    assert(x == 0x6a750691a8ee4c3e7b316da9e6ea243c91d52981c9c77ffc8c8879ab0034da7int);
    let (e, x) = lemma_step(g, n, e, x, false);
    assert(x == 0x243d7bf060888e7c248a00c709a558c5d7f835081bbaa79feb7da9a4b6dd182aint);
    let (e, x) = lemma_step(g, n, e, x, false);
    assert(x == 0x1c680fccb4b9a833e8303c2bf3c28bb49599ad0052ef6c150b315354ac0cab0int);
    let (e, x) = lemma_step(g, n, e, x, true);
    assert(x == 0x1f87258836efa4d466ce6080a861eb985c307a9c6569f2f2a86306099a61e713int);
    let (e, x) = lemma_step(g, n, e, x, true);
    assert(x == 0x2b73f8cd6b9d6f15412a41110b5c86b950ea9f28abf951a7014aa6cba0377276int);
    let (e, x) = lemma_step(g, n, e, x, false);
    assert(x == 0x2538b2f5f491cc7f6596317fb57132782e76c4786f5f1d4f255b0e7925507227int);
    let (e, x) = lemma_step(g, n, e, x, true);
    assert(x == 0x8ed6a1c6cc9087cc8e500bf58bec0083de2671b6b6c1e0939325e44b3689bc2int);
    assert(e == 0x146370dnat);
}

/// A power modulo 0x30644e72e131a029b85045b68181585d97816a916871ca8d3c208c16d87cfd47.
proof fn lemma_power_q_9()
    ensures
        pow(0x1f974bffd9f16587e9c917aa9422f17cb18398699947cee64b6739911241a6fint, 0x1ed4da12852cd3nat) % 0x30644e72e131a029b85045b68181585d97816a916871ca8d3c208c16d87cfd47int == 0x2d03999cfd6de35bde4ae36fc87135be6f7242a4b85428c37f9fd81468bff696int,
{
    let g = 0x1f974bffd9f16587e9c917aa9422f17cb18398699947cee64b6739911241a6fint;
    let n = 0x30644e72e131a029b85045b68181585d97816a916871ca8d3c208c16d87cfd47int;
    lemma_start(g, n);
    let (e, x) = (0nat, 1int);
    let (e, x) = lemma_step(g, n, e, x, true);
    assert(x == 0x1f974bffd9f16587e9c917aa9422f17cb18398699947cee64b6739911241a6fint);
    let (e, x) = lemma_step(g, n, e, x, true);
    assert(x == 0x6ce4ca241f3ff2dd4f0805b811dea088f90424fcfeb0f8407ceda6c10c1131dint);
    let (e, x) = lemma_step(g, n, e, x, true);
    assert(x == 0xee3589a1bd6c41b9e09df41ef4ceefcdfc1d5f737921d481248a057c01c7a0bint);
    let (e, x) = lemma_step(g, n, e, x, true);
    assert(x == 0x29e6be66061502625ce5cd8b91a437036be524ac2321c06a355765d9d76de928int);
    let (e, x) = lemma_step(g, n, e, x, false);
    assert(x == 0x19cc4d7ba4664b588249577616ab1dafe0384a158b91b9920ec5c21248d08f13int);
    let (e, x) = lemma_step(g, n, e, x, true);
    assert(x == 0xf7074d173b706812b74618980eacc39f892096ecbebcbc1232e99d26a7837fbint);
    let (e, x) = lemma_step(g, n, e, x, true);
    assert(x == 0xf140808eed685ffdef38e97d07b5eb905ada91d6bdb06d71e11b07365420486int);
    let (e, x) = lemma_step(g, n, e, x, false);
    assert(x == 0x2daebbdf492e71953407fbe7852aabd6c3301aeb20ff22841586a6820a7d947cint);
    let (e, x) = lemma_step(g, n, e, x, true);
    assert(x == 0x61e0098ae2b2c52e0db8b0f0f837bf78cb7511995e01dd58960164e165df35fint);
    let (e, x) = lemma_step(g, n, e, x, false);
    assert(x == 0x194a792eb7bfdb24a5ea484f24c20ac84667cf6e8a6f80d5c874b5d09b9cdcafint);
    let (e, x) = lemma_step(g, n, e, x, true);
    assert(x == 0xdff9ae4ee88a0b9c3a9665debe6fb65f7aab8c28d0bbf6307be9493a183a4a3int);
    let (e, x) = lemma_step(g, n, e, x, false);
    assert(x == 0x1cdcaf854ccbc4e404aaf15f04ffe7fe24bdf2674b9060743438887dd02119c4int);
    let (e, x) = lemma_step(g, n, e, x, false);
    assert(x == 0x40da776aa587b2c684f597d8e4e51414307bb7f21ec7bdf0ad21b00ee66c991int);
    let (e, x) = lemma_step(g, n, e, x, true);
    assert(x == 0x7e752f11d1b217cf704e734189a751519b5adf2fe124820ef80716854a0300int);
    let (e, x) = lemma_step(g, n, e, x, true);
    assert(x == 0xae9b70dce91ac7f150f0a323fca7ef48ff972916b3b79e5397d30cb3aa419e5int);
    let (e, x) = lemma_step(g, n, e, x, false);
    assert(x == 0x196291ff4224c9fbcede6a0a46e89112bb5c80256a3930b5b9b1b1c44e8089ffint);
    let (e, x) = lemma_step(g, n, e, x, true);
    assert(x == 0x13d9483dd4c07206466611c93df3d839a8ccdd84753ea606c9562806ade8f267int);
    let (e, x) = lemma_step(g, n, e, x, true);
    assert(x == 0x23f8c86d603e86dc85568f9c30ccdf4cebde94ee5c7388978358019fb7851f74int);
    let (e, x) = lemma_step(g, n, e, x, false);
    assert(x == 0x1e050cd8d76f2e00d7ad0baed5654dab6e9aff86471aa5a1d46c6d14615c87caint);
    let (e, x) = lemma_step(g, n, e, x, true);
    assert(x == 0x136fe3921505b7aea0d0582a9b9312092c1ebd142bb14d0834e7a3abec728b3fint);
    let (e, x) = lemma_step(g, n, e, x, false);
    assert(x == 0x12dacf7873216c35eca53132512a959a55eada2d81cc01e26acdc9380834e0a1int);
    let (e, x) = lemma_step(g, n, e, x, false);
    assert(x == 0x30a9696c4fe7e167c424adb0a77a4434d82555956a7d7c012d60839fd0d8137int);
    let (e, x) = lemma_step(g, n, e, x, false);
    assert(x == 0xe2d449e0122d7d03f04697f2e1218c2253ca6d476882fa785bdacd5e063f8f6int);
    let (e, x) = lemma_step(g, n, e, x, false);
    assert(x == 0x1b30e851dc7ed2fac532da56afa23a00cfb36d7c223cb46208e8ac4185b9cc6fint);
    let (e, x) = lemma_step(g, n, e, x, true);
    assert(x == 0x2acbda157a0da54e7149dabd4b84fbd6d09e2404cf8a035c1bdbc250dfd852aint);
    let (e, x) = lemma_step(g, n, e, x, false);
    assert(x == 0x9b8b821c45c85a066bf995bd9f922e175f870e9c682009f7f3d3398a4ba59caint);
    let (e, x) = lemma_step(g, n, e, x, false);
    assert(x == 0x1c82345ede68f7aeb0fc96634b9723a80789c4941f95a296df9338577359e7cfint);
    let (e, x) = lemma_step(g, n, e, x, true);
    assert(x == 0x12adfae63824afbff40888aa7d0eaac831a098574be7c6aac25f0270c2f591b4int);
    let (e, x) = lemma_step(g, n, e, x, false);
    assert(x == 0xa658fe49624ddcbceef91415ba823d6e1d6a20679c0ab9a527da1c68d4f08a9int);
    let (e, x) = lemma_step(g, n, e, x, true);
    assert(x == 0x1668b1d8a8a7d35afa105ab9698cf6ddb9b31b6e05945fcfde09259fed33f5e5int);
    let (e, x) = lemma_step(g, n, e, x, false);
    assert(x == 0x2215bc5739075389ab7886555898d8a01760442ceaa0ce4168ec0a93b102e543int);
    let (e, x) = lemma_step(g, n, e, x, false);
    assert(x == 0x23f7cff4c7e01227d893a726afef6a865a68ba0c34890ad4c51c37a3ecc2a9bfint);
    let (e, x) = lemma_step(g, n, e, x, false);
    assert(x == 0x2c67ae333a5e436bfa2aa1a5339819a1862d1787718ebc6f6e027e1f9ae9a918int);
    let (e, x) = lemma_step(g, n, e, x, false);
    assert(x == 0x2a6cda016ef1587cf1435f890fb8e58a30e276a415cf7609e35290bd3402ce94int);
    let (e, x) = lemma_step(g, n, e, x, true);
    assert(x == 0x19f13ba775f3f6f34939d91c6fe0aa430a26d8082c73b6a8a6ea0de0ecb51df6int);
    let (e, x) = lemma_step(g, n, e, x, false);
    assert(x == 0x2ff76d78496fd074dc7dda9096abe2e54aaa18d1df4a4920620c9dd2e3852f8dint);
    let (e, x) = lemma_step(g, n, e, x, true);
    assert(x == 0xeb27f44c8f08f37db80888bf1cf70c4938926aa0e624c8319b4de486dd2bb3bint);
    let (e, x) = lemma_step(g, n, e, x, false);
    assert(x == 0x1784c51fc8e5de15ef388ad66fe0fcae6aaeee6c31f4abecdac10ff0e9025721int);
    let (e, x) = lemma_step(g, n, e, x, false);
    assert(x == 0x1d1bcb9de7e43d7427a0b36841450b8558203bd8581202ac640d4551253f0ee4int);
    let (e, x) = lemma_step(g, n, e, x, true);
    assert(x == 0x204a5d92c77cd3c5572e9b538378694f5b934455e1a11c90700212896d594840int);
    let (e, x) = lemma_step(g, n, e, x, false);
    assert(x == 0x29b09607e82a9be0058ec4b996dac1ad10bc4dea878b69eddba17ea764155f3aint);
    let (e, x) = lemma_step(g, n, e, x, true);
    assert(x == 0x245e270cbd441886fc0fc541ef07cab4b49c42b3559ec8df2e42de995814e2e9int);
    let (e, x) = lemma_step(g, n, e, x, true);
    assert(x == 0x1b81891c34f30cc9f78fc3df2051ad959cfb51b9fee740fc4e83dc2753aab6b7int);
    let (e, x) = lemma_step(g, n, e, x, false);
    assert(x == 0xaef5f2cfce8ef798ce7156acf75c3b365c2c967f3b6737d4f80440ed69f957eint);
    let (e, x) = lemma_step(g, n, e, x, false);
    assert(x == 0x2af7441ecbac273827d78d0f0a230a0a62c985c0fe56bb08b4525998442cc3cbint);
    let (e, x) = lemma_step(g, n, e, x, true);
    assert(x == 0x1e73f74e8a4d9f6d328b703235ad09cecf495cf1271f55bdc61c005314c07925int);
    let (e, x) = lemma_step(g, n, e, x, true);
    assert(x == 0x27a47db45fd8cdead865f0f8f01658b6e23908f926fdc6113ed65d0b82a4ad22int);
    let (e, x) = lemma_step(g, n, e, x, false);
    assert(x == 0x23dd3e2893d97976ade3bc12e1bfe1d4e446febb665dfa5f90260bd6aee7f19int);
    let (e, x) = lemma_step(g, n, e, x, true);
    assert(x == 0xacc21d540a2be2e450727862d83c5c5a8440120429d7320f46f6bca61c8709eint);
    let (e, x) = lemma_step(g, n, e, x, false);
    assert(x == 0x9ee31cb77b24ec8c1d45b2872e2fd6630cbf7f3cda6b7c07db8fb5fa0e20ff7int);
    let (e, x) = lemma_step(g, n, e, x, false);
    assert(x == 0xda53bb64245002eba6a2b2dac0ec248a2aae1bcc37ff26da726213c743d1830int);
    let (e, x) = lemma_step(g, n, e, x, true);
    assert(x == 0x1c3ee3a340c87bb9bd83b4efbe7521337b6e5c64f5104c804111a7854b310c4int);
    let (e, x) = lemma_step(g, n, e, x, true);
    assert(x == 0x2d03999cfd6de35bde4ae36fc87135be6f7242a4b85428c37f9fd81468bff696int);
    assert(e == 0x1ed4da12852cd3nat);
}

/// A power modulo 0x30644e72e131a029b85045b68181585d97816a916871ca8d3c208c16d87cfd47.
proof fn lemma_power_q_10()
    ensures
        pow(0x2d03999cfd6de35bde4ae36fc87135be6f7242a4b85428c37f9fd81468bff696int, 0x1457ad6e6nat) % 0x30644e72e131a029b85045b68181585d97816a916871ca8d3c208c16d87cfd47int == 0xcab6cf3dfbbffe8fe8a59f8949c20457e261d98a716bede96569e94447b3530int,
{
    let g = 0x2d03999cfd6de35bde4ae36fc87135be6f7242a4b85428c37f9fd81468bff696int;
    let n = 0x30644e72e131a029b85045b68181585d97816a916871ca8d3c208c16d87cfd47int;
    lemma_start(g, n);
    let (e, x) = (0nat, 1int);
    let (e, x) = lemma_step(g, n, e, x, true);
    assert(x == 0x2d03999cfd6de35bde4ae36fc87135be6f7242a4b85428c37f9fd81468bff696int);
    let (e, x) = lemma_step(g, n, e, x, false);
    assert(x == 0x2a6080ad15ade847c4227a28e89bd625722062e7058de747ed9abc187a061aa1int);
    let (e, x) = lemma_step(g, n, e, x, true);
    assert(x == 0x18d732d73954f9d26d97c38d38c55b187e0923a919cb095b5ad9cdc72d2fbc9bint);
    let (e, x) = lemma_step(g, n, e, x, false);
    assert(x == 0x2cc51b0f1df20f5a22fb2d79f5e1b66cc87be4a3b6c089832b8301a057828da2int);
    let (e, x) = lemma_step(g, n, e, x, false);
    assert(x == 0x2dfad40b881dca3ea7df6cc149beeba10d259d38520deba14dbe3648a1e36c84int);
    let (e, x) = lemma_step(g, n, e, x, false);
    assert(x == 0x228145f4eced8ab812bc0f40601ca2c0ccf1232e4da1734e27b44ca6783a6fdeint);
    let (e, x) = lemma_step(g, n, e, x, true);
    assert(x == 0x1b39d49d3667038e42603843aa95d48a2f20ebd834dfa441eab354f7eaeea168int);
    let (e, x) = lemma_step(g, n, e, x, false);
    assert(x == 0x1c2e1a34cc7ab8fbbf5c2e09213ab34e98a752ab2e8572320040c83e4298f209int);
    let (e, x) = lemma_step(g, n, e, x, true);
    assert(x == 0x1d4e4ca5566db8aa00cd67438bb0c30e855bd2f165c14ae32a3e5c6c8b9d279aint);
    let (e, x) = lemma_step(g, n, e, x, false);
    assert(x == 0x1122ccb75cfdd97fa4bba8273bbf6c68bb17220476f0f195139eeb08a99f9b32int);
    let (e, x) = lemma_step(g, n, e, x, true);
    assert(x == 0x731373afe8686924ac8d8b0297d5d86ebfe819e98d5a04f9dc331d1fe127c8cint);
    let (e, x) = lemma_step(g, n, e, x, true);
    assert(x == 0x3032cf051bfc15757595dc6627f36038c7c75fc2d0453bb0cb400709405a6d55int);
    let (e, x) = lemma_step(g, n, e, x, true);
    assert(x == 0x6cc0de1616dfefbf878a76a227f9863fac1c8247527bbec848de1feca07e613int);
    let (e, x) = lemma_step(g, n, e, x, true);
    assert(x == 0x134536bded67497b65fb53045c30bc966f0b278dbbcae7beb6eb822fe2e54409int);
    let (e, x) = lemma_step(g, n, e, x, false);
    assert(x == 0xe5ccde2bd6ee0db8244475da766e25d4b30cdce2ba72997aba8baf9d0f9ea01int);
    let (e, x) = lemma_step(g, n, e, x, true);
    assert(x == 0x2833e1421a9f33f18a96844f9ab45d75e78bd737a130cad9537d2a3046411139int);
    let (e, x) = lemma_step(g, n, e, x, false);
    assert(x == 0x144027e4cd0d344bf74760b2c262081272e39444a8ebb8c1796b841d79730303int);
    let (e, x) = lemma_step(g, n, e, x, true);
    assert(x == 0x67e877c4c8e819344ec46be7c2f4bb6e2b76394dc02112bca2bf005cba78498int);
    let (e, x) = lemma_step(g, n, e, x, true);
    assert(x == 0x5289c310752570ce1ff3c0f509c550957654becee8f8ab704d89c0b86f820c1int);
    let (e, x) = lemma_step(g, n, e, x, false);
    assert(x == 0x4cb0c5bac4a8f893bff1f8aa26601e6c8949a5ea55e43da7e1b2774f08d04fint);
    let (e, x) = lemma_step(g, n, e, x, true);
    assert(x == 0x70aeb8841562e04ff6b01611a71d76bcdc70a6b32fca7311d081f724f4a8000int);
    let (e, x) = lemma_step(g, n, e, x, false);
    assert(x == 0xb8d9838243a838678265972eaf1aedb9b64ac82b9fe112010437b00a9425e5bint);
    let (e, x) = lemma_step(g, n, e, x, true);
    assert(x == 0x23be7ed862e55fa8076da67e3d4afedb290f3a37b460a7bcb355995ea11c5304int);
    let (e, x) = lemma_step(g, n, e, x, true);
    assert(x == 0x2ab7b064631c4d42ec0824945d9c3e446c135a6f640f6e9048c96896a4ba5ab1int);
    let (e, x) = lemma_step(g, n, e, x, false);
    assert(x == 0x2d6e0383e4ff56ec7ef7e257ba0608fa31ac331ac11a41ffc42532b5ec7d641eint);
    let (e, x) = lemma_step(g, n, e, x, true);
    assert(x == 0x4765c27d37384b316b82129aedf128a28e0693cac8b5e8285b7480026538bdbint);
    let (e, x) = lemma_step(g, n, e, x, true);
    assert(x == 0x2c826a9335e401050d98b9d6dd536ffbaae62e1a855e2791c229d0036534fa95int);
    let (e, x) = lemma_step(g, n, e, x, true);
    assert(x == 0x13a6e8b876d44abd153b5d6d8d1e6cd859449b2426bfa51355a03f47b000e486int);
    let (e, x) = lemma_step(g, n, e, x, false);
    assert(x == 0x2eab6c3c3a4c2207e67ee3124cd8029c3aab20c9f6fcc704417e03094931523fint);
    let (e, x) = lemma_step(g, n, e, x, false);
    assert(x == 0x2cf16ed2d17437d4baf949d76f36aa94d363b71d84ab5dfac9ea22b877b7835eint);
    let (e, x) = lemma_step(g, n, e, x, true);
    assert(x == 0xcbd54457500de3e85bfa10a5c5df31d7afa0a3e4990900c79175719a9b37290int);
    let (e, x) = lemma_step(g, n, e, x, true);
    assert(x == 0x1ca12330465652b69185470d326c2a471022691f39013c7d8651c1467f59812dint);
    let (e, x) = lemma_step(g, n, e, x, false);
    assert(x == 0xcab6cf3dfbbffe8fe8a59f8949c20457e261d98a716bede96569e94447b3530int);
    assert(e == 0x1457ad6e6nat);
}

/// A power modulo 0x30644e72e131a029b85045b68181585d97816a916871ca8d3c208c16d87cfd47.
proof fn lemma_power_q_11()
    ensures
        pow(0x2d03999cfd6de35bde4ae36fc87135be6f7242a4b85428c37f9fd81468bff696int, 0x2ab6cbdc9nat) % 0x30644e72e131a029b85045b68181585d97816a916871ca8d3c208c16d87cfd47int == 0x144dd9d9a6371929ccaeee9c8cfec77e73acf753045b87566ecb2d68adf80fc0int,
{
    let g = 0x2d03999cfd6de35bde4ae36fc87135be6f7242a4b85428c37f9fd81468bff696int;
    let n = 0x30644e72e131a029b85045b68181585d97816a916871ca8d3c208c16d87cfd47int;
    lemma_start(g, n);
    let (e, x) = (0nat, 1int);
    let (e, x) = lemma_step(g, n, e, x, true);
    assert(x == 0x2d03999cfd6de35bde4ae36fc87135be6f7242a4b85428c37f9fd81468bff696int);
    let (e, x) = lemma_step(g, n, e, x, false);
    assert(x == 0x2a6080ad15ade847c4227a28e89bd625722062e7058de747ed9abc187a061aa1int);
    let (e, x) = lemma_step(g, n, e, x, true);
    assert(x == 0x18d732d73954f9d26d97c38d38c55b187e0923a919cb095b5ad9cdc72d2fbc9bint);
    let (e, x) = lemma_step(g, n, e, x, false);
    assert(x == 0x2cc51b0f1df20f5a22fb2d79f5e1b66cc87be4a3b6c089832b8301a057828da2int);
    let (e, x) = lemma_step(g, n, e, x, true);
    assert(x == 0x20a4fbf6e478a7aa49fc0b3d38003bb66a43f89990f34867a782e76353be0c1bint);
    let (e, x) = lemma_step(g, n, e, x, false);
    assert(x == 0x3023277ef920f83e05b9a2de9c178199933626a354eb99ff5fc5012db3492d12int);
    let (e, x) = lemma_step(g, n, e, x, true);
    assert(x == 0x174873bb0ad9705673fa721bdf7a03ad4ab8b66bc552f3649348228c6994f8bdint);
    let (e, x) = lemma_step(g, n, e, x, false);
    assert(x == 0x1ba96196b117a2250b8fedd1fb50c2796d0e24a121afad40ae90ff84e1c2de99int);
    let (e, x) = lemma_step(g, n, e, x, true);
    assert(x == 0x21d1b105ba9c575343e9233f20cbaf5cbf38dc643b44622384d0cebaaf836ac6int);
    let (e, x) = lemma_step(g, n, e, x, true);
    assert(x == 0xdb12a4789fa7552ff81d31ff07613cec9f9f88fb3b373d2f31859ac34af5134int);
    let (e, x) = lemma_step(g, n, e, x, false);
    assert(x == 0x21ca4ca737dbdaa1278aa4732abecc2a626dd52036b98f2399dcb3f3a943a547int);
    let (e, x) = lemma_step(g, n, e, x, true);
    assert(x == 0x1844b970ce3b3daba0234e57243ba3597600caea70f859dc531e8d5278e152abint);
    let (e, x) = lemma_step(g, n, e, x, true);
    assert(x == 0x30483771beab29954426c1c4c34580fe9fbbb1a7a32ba6af6772604329b03d69int);
    let (e, x) = lemma_step(g, n, e, x, false);
    assert(x == 0x14e5297e7c404aa81cad158c463a93ff36d583576940f55876ba4db4f584feedint);
    let (e, x) = lemma_step(g, n, e, x, true);
    assert(x == 0x18f7b78cd797efab26b03c0b354eeb50ecb19fdf3c59b71b6c634a11ad961264int);
    let (e, x) = lemma_step(g, n, e, x, true);
    assert(x == 0x28ec5c627da40d278fe7ef19a5100fba1dca427845e75f84b1afb36c4413e974int);
    let (e, x) = lemma_step(g, n, e, x, false);
    assert(x == 0x101d8802d7ecb265876d80a65c6ad2f71fd750e15872cab76f52f847c08a8215int);
    let (e, x) = lemma_step(g, n, e, x, false);
    assert(x == 0x2c9f266bee5e39b28a9e4411edc5d6acdad39e23e2955e6e3fbae5371be1f783int);
    let (e, x) = lemma_step(g, n, e, x, true);
    assert(x == 0x27a2c3fada27b007cb3b105a21a152805c094684dae5bb13d29fae5b00bf96e0int);
    let (e, x) = lemma_step(g, n, e, x, false);
    assert(x == 0x1978cd8ff58c11767d80ed2a984bb6404226b6e292ae778832d2b627f2abe9d7int);
    let (e, x) = lemma_step(g, n, e, x, true);
    assert(x == 0x1558dfc7cf218a34ea7f112a36b50ce0794e2ba9532982771fb25dfbf816cd11int);
    let (e, x) = lemma_step(g, n, e, x, true);
    assert(x == 0x12eccac89d4a4d3c98fa6354b2ba1034808e018cb8b24d395f41ed2cb3164589int);
    let (e, x) = lemma_step(g, n, e, x, true);
    assert(x == 0x2e1adce7941d6ee15b56263a9319748bc9fb7b422e7d33fe380f109733ca93d2int);
    let (e, x) = lemma_step(g, n, e, x, true);
    assert(x == 0x167b808cc1de10d1677e8a09f5adf09db80b16a8ff14777f75a80fc5bbc9043bint);
    let (e, x) = lemma_step(g, n, e, x, false);
    assert(x == 0x2f557c43d6ab7d6cde7bb71f111b50f2b11e78cc8abb0f8049fc5856c62a98int);
    let (e, x) = lemma_step(g, n, e, x, true);
    assert(x == 0x3d0798f56cf9662eb0f9a6df4eac86eca0e6624e1f00fd782bdd00cc7815216int);
    let (e, x) = lemma_step(g, n, e, x, true);
    assert(x == 0xb348d9b6900a2902b035be197c9139d5a9e0933a948cb694c5864c4852ae7d6int);
    let (e, x) = lemma_step(g, n, e, x, true);
    assert(x == 0x298daaf53f3ce1c10f5b37b40ab6cdd764cded925c54c3ef0cf847369cae0dc2int);
    let (e, x) = lemma_step(g, n, e, x, false);
    assert(x == 0x13207434fbb939fea6416f61cc1938d95a6f1a23ee3bdb67435f8588250989f8int);
    let (e, x) = lemma_step(g, n, e, x, false);
    assert(x == 0x17c2ffffd0a4dfa18ebecbcbd58e638c874e0926bfac96c140a977df664116bint);
    let (e, x) = lemma_step(g, n, e, x, true);
    assert(x == 0x1510ce45223c7635e610051f6bd1cc35090e907f888940f70e93d6ddf6dd8b17int);
    let (e, x) = lemma_step(g, n, e, x, false);
    assert(x == 0x16146778273bd0384791247a07c5c34decbd417e304823d5aeda389e795094cint);
    let (e, x) = lemma_step(g, n, e, x, false);
    assert(x == 0x11b259576b94409e597c524133b1d97cc0b86501539eee03fc9ef77bd2a0adaeint);
    let (e, x) = lemma_step(g, n, e, x, true);
    assert(x == 0x144dd9d9a6371929ccaeee9c8cfec77e73acf753045b87566ecb2d68adf80fc0int);
    assert(e == 0x2ab6cbdc9nat);
}

/// A power modulo 0x30644e72e131a029b85045b68181585d97816a916871ca8d3c208c16d87cfd47.
proof fn lemma_power_q_12()
    ensures
        pow(0x144dd9d9a6371929ccaeee9c8cfec77e73acf753045b87566ecb2d68adf80fc0int, 305713nat) % 0x30644e72e131a029b85045b68181585d97816a916871ca8d3c208c16d87cfd47int == 0x185936751451469834973bd506cea74387d55952414a72984b1a63d4fbbd04b2int,
{
    let g = 0x144dd9d9a6371929ccaeee9c8cfec77e73acf753045b87566ecb2d68adf80fc0int;
    let n = 0x30644e72e131a029b85045b68181585d97816a916871ca8d3c208c16d87cfd47int;
    lemma_start(g, n);
    let (e, x) = (0nat, 1int);
    let (e, x) = lemma_step(g, n, e, x, true);
    assert(x == 0x144dd9d9a6371929ccaeee9c8cfec77e73acf753045b87566ecb2d68adf80fc0int);
    let (e, x) = lemma_step(g, n, e, x, false);
    assert(x == 0x2f5d0bb8fdfafd6c956a770ba0bb1d19e5bc449d64d2c5a09b166f16b059788fint);
    let (e, x) = lemma_step(g, n, e, x, false);
    assert(x == 0xf78990a13563276e4b794aa5b6a91a45f00beb0f5285483fc8d53ade7b609f4int);
    let (e, x) = lemma_step(g, n, e, x, true);
    assert(x == 0x262d0958b5bf76e8c68502efbb94aae632599bce7461fe7d828784a268a4fe6cint);
    let (e, x) = lemma_step(g, n, e, x, false);
    assert(x == 0x1d88c4dfb1ef3626a42268ee3881a77f7badb3f0cf72415ddbae06c2607986c8int);
    let (e, x) = lemma_step(g, n, e, x, true);
    assert(x == 0x1b03179646ea689fd1393d6b4423a1227b43cccc7505b446288442f99c8afcd3int);
    let (e, x) = lemma_step(g, n, e, x, false);
    assert(x == 0x1339017518cfaafbbe27ba4c1f5efc000d09f5ca3e14ed04affcd4674c827c66int);
    let (e, x) = lemma_step(g, n, e, x, true);
    assert(x == 0x231da0f1271d248bebf9055d73c707f185ae6d83cdaa74cc4498af8bd26b3d39int);
    let (e, x) = lemma_step(g, n, e, x, false);
    assert(x == 0x2e0994869b1420861018893cf081cd9daf0e942940374c2c2d335e04157e02b8int);
    let (e, x) = lemma_step(g, n, e, x, true);
    assert(x == 0x12f5923fa09f1e70653c4849ee5562b365de190d2690753a44a9aacf670e2988int);
    let (e, x) = lemma_step(g, n, e, x, false);
    assert(x == 0x36a4117046f449d87acce99a4e9702656b491cbf76d2c912c4e5fdd471b8be3int);
    let (e, x) = lemma_step(g, n, e, x, false);
    assert(x == 0x60d93be285f11b39859033103303641da7470dc7d3ec318f6a2e44e111baa90int);
    let (e, x) = lemma_step(g, n, e, x, false);
    assert(x == 0x6869604c7cde2c290674c98b8032c7ab8e7a5f4f7710474cbc1a32d4a00c83cint);
    let (e, x) = lemma_step(g, n, e, x, true);
    assert(x == 0x16a394a58cf38929db5e6443883305491ae9adedb638d7cca7e73f81a53c9f73int);
    let (e, x) = lemma_step(g, n, e, x, true);
    assert(x == 0x290c695cd49b0408dd2902da73c7d3d8ce4403643ea548c613c4bafea79329a4int);
    let (e, x) = lemma_step(g, n, e, x, false);
    assert(x == 0x11f3e9b3a3d347fff94f4bf805d9fc56285726be95cdf2df7297768e5da17664int);
    let (e, x) = lemma_step(g, n, e, x, false);
    assert(x == 0x15535f3e0af7d4b6454f4977ca7a6ba42e6f6af36945ddacaa9041a014b2e1b8int);
    let (e, x) = lemma_step(g, n, e, x, false);
    assert(x == 0x25051a14dc14822adb33609b8d69b3563375d3d82c421455b45ae1ddcb7ab88dint);
    let (e, x) = lemma_step(g, n, e, x, true);
    assert(x == 0x185936751451469834973bd506cea74387d55952414a72984b1a63d4fbbd04b2int);
    assert(e == 305713nat);
}

/// A power modulo 0x30644e72e131a029b85045b68181585d97816a916871ca8d3c208c16d87cfd47.
proof fn lemma_power_q_13()
    ensures
        pow(0x185936751451469834973bd506cea74387d55952414a72984b1a63d4fbbd04b2int, 78nat) % 0x30644e72e131a029b85045b68181585d97816a916871ca8d3c208c16d87cfd47int == 0x16a7dfbef107b2fb1c294fd8913b0a66e2e7a5f03923f94246b7e8302c071a2eint,
{
    let g = 0x185936751451469834973bd506cea74387d55952414a72984b1a63d4fbbd04b2int;
    let n = 0x30644e72e131a029b85045b68181585d97816a916871ca8d3c208c16d87cfd47int;
    lemma_start(g, n);
    let (e, x) = (0nat, 1int);
    let (e, x) = lemma_step(g, n, e, x, true);
    assert(x == 0x185936751451469834973bd506cea74387d55952414a72984b1a63d4fbbd04b2int);
    let (e, x) = lemma_step(g, n, e, x, false);
    assert(x == 0x1f334c1f7fd0df145f7a973c60f4b1a5b5471bf853720845016857c9df41b709int);
    let (e, x) = lemma_step(g, n, e, x, false);
    assert(x == 0xa78f879168f6477119e68ee99670294630d76eb34a3376765f69e6f6da2a25int);
    let (e, x) = lemma_step(g, n, e, x, true);
    assert(x == 0x1f52144e718f1072d7d7a2cefe1cdbf9ddcd744522941cbad04639c84d8f8707int);
    let (e, x) = lemma_step(g, n, e, x, true);
    assert(x == 0x16b6062258b078242176e1d792795ef615c94a96113862796edc9c323c1ee47fint);
    let (e, x) = lemma_step(g, n, e, x, true);
    assert(x == 0x2b494d2acd06873c93acbafae16becd9980a1f4d71d73cb6c57f58a36d5da4f0int);
    let (e, x) = lemma_step(g, n, e, x, false);
    assert(x == 0x16a7dfbef107b2fb1c294fd8913b0a66e2e7a5f03923f94246b7e8302c071a2eint);
    assert(e == 78nat);
}

/// A power modulo 0x30644e72e131a029b85045b68181585d97816a916871ca8d3c208c16d87cfd47.
proof fn lemma_power_q_14()
    ensures
        pow(0x185936751451469834973bd506cea74387d55952414a72984b1a63d4fbbd04b2int, 229nat) % 0x30644e72e131a029b85045b68181585d97816a916871ca8d3c208c16d87cfd47int == 0x20cd4d50fa9c5ffd8f57c6d3fa8277c9be9b04bbb72d061467a0af54a845144eint,
{
    let g = 0x185936751451469834973bd506cea74387d55952414a72984b1a63d4fbbd04b2int;
    let n = 0x30644e72e131a029b85045b68181585d97816a916871ca8d3c208c16d87cfd47int;
    lemma_start(g, n);
    let (e, x) = (0nat, 1int);
    let (e, x) = lemma_step(g, n, e, x, true);
    assert(x == 0x185936751451469834973bd506cea74387d55952414a72984b1a63d4fbbd04b2int);
    let (e, x) = lemma_step(g, n, e, x, true);
    assert(x == 0x22748ba846d2d2c7ee3dad0dd43b45488c5526de6cfa8809a32fe5be99a64aaeint);
    let (e, x) = lemma_step(g, n, e, x, true);
    assert(x == 0x2f15df375ba1d244f24d6fe2c78444004516cd56492d281362cfec2ff09b4915int);
    let (e, x) = lemma_step(g, n, e, x, false);
    assert(x == 0x2ae57378a32d7fd53e009c127cbf1b19bf3bfb2922c44df55ab04288660a29f2int);
    let (e, x) = lemma_step(g, n, e, x, false);
    assert(x == 0x181f8bef265b84d15b98b02422b24e0ef69c611b2e31132f8af775f4ab86bd00int);
    let (e, x) = lemma_step(g, n, e, x, true);
    assert(x == 0x2ce5865660db1213729a6612d563a8b3e2f1d203dc8d04bf1b95ae9ccc0141e4int);
    let (e, x) = lemma_step(g, n, e, x, false);
    assert(x == 0x9de5bfef60dc735a7cfe4e3093569a88c85e7c9e0c378990a06554ff820e719int);
    let (e, x) = lemma_step(g, n, e, x, true);
    assert(x == 0x20cd4d50fa9c5ffd8f57c6d3fa8277c9be9b04bbb72d061467a0af54a845144eint);
    assert(e == 229nat);
}

/// A power modulo 0x30644e72e131a029b85045b68181585d97816a916871ca8d3c208c16d87cfd47.
proof fn lemma_power_q_15()
    ensures
        pow(0x20cd4d50fa9c5ffd8f57c6d3fa8277c9be9b04bbb72d061467a0af54a845144eint, 6nat) % 0x30644e72e131a029b85045b68181585d97816a916871ca8d3c208c16d87cfd47int == 0x2aa30a0493cd4fa12055d6c821ff8497e5f29bcaaac4fb1f6a0fdb311dc14991int,
{
    let g = 0x20cd4d50fa9c5ffd8f57c6d3fa8277c9be9b04bbb72d061467a0af54a845144eint;
    let n = 0x30644e72e131a029b85045b68181585d97816a916871ca8d3c208c16d87cfd47int;
    lemma_start(g, n);
    let (e, x) = (0nat, 1int);
    let (e, x) = lemma_step(g, n, e, x, true);
    assert(x == 0x20cd4d50fa9c5ffd8f57c6d3fa8277c9be9b04bbb72d061467a0af54a845144eint);
    let (e, x) = lemma_step(g, n, e, x, true);
    assert(x == 0x161e1898aec7bdff8ec5a275ea771a5b6bba669607843ea892fb5f8a7f7bf667int);
    let (e, x) = lemma_step(g, n, e, x, false);
    assert(x == 0x2aa30a0493cd4fa12055d6c821ff8497e5f29bcaaac4fb1f6a0fdb311dc14991int);
    assert(e == 6nat);
}

/// A power modulo 0x30644e72e131a029b85045b68181585d97816a916871ca8d3c208c16d87cfd47.
proof fn lemma_power_q_16()
    ensures
        pow(0x20cd4d50fa9c5ffd8f57c6d3fa8277c9be9b04bbb72d061467a0af54a845144eint, 13nat) % 0x30644e72e131a029b85045b68181585d97816a916871ca8d3c208c16d87cfd47int == 0x30644e72e131a0295e6dd9e7e0acccb0c28f069fbb966e3de4bd44e5607cfd49int,
{
    let g = 0x20cd4d50fa9c5ffd8f57c6d3fa8277c9be9b04bbb72d061467a0af54a845144eint;
    let n = 0x30644e72e131a029b85045b68181585d97816a916871ca8d3c208c16d87cfd47int;
    lemma_start(g, n);
    let (e, x) = (0nat, 1int);
    let (e, x) = lemma_step(g, n, e, x, true);
    assert(x == 0x20cd4d50fa9c5ffd8f57c6d3fa8277c9be9b04bbb72d061467a0af54a845144eint);
    let (e, x) = lemma_step(g, n, e, x, true);
    assert(x == 0x161e1898aec7bdff8ec5a275ea771a5b6bba669607843ea892fb5f8a7f7bf667int);
    let (e, x) = lemma_step(g, n, e, x, false);
    assert(x == 0x2aa30a0493cd4fa12055d6c821ff8497e5f29bcaaac4fb1f6a0fdb311dc14991int);
    let (e, x) = lemma_step(g, n, e, x, true);
    assert(x == 0x30644e72e131a0295e6dd9e7e0acccb0c28f069fbb966e3de4bd44e5607cfd49int);
    assert(e == 13nat);
}

/// A power modulo 0x30644e72e131a029b85045b68181585d97816a916871ca8d3c208c16d87cfd47.
proof fn lemma_power_q_17()
    ensures
        pow(0x30644e72e131a0295e6dd9e7e0acccb0c28f069fbb966e3de4bd44e5607cfd49int, 3nat) % 0x30644e72e131a029b85045b68181585d97816a916871ca8d3c208c16d87cfd47int == 0x30644e72e131a029b85045b68181585d97816a916871ca8d3c208c16d87cfd46int,
{
    let g = 0x30644e72e131a0295e6dd9e7e0acccb0c28f069fbb966e3de4bd44e5607cfd49int;
    let n = 0x30644e72e131a029b85045b68181585d97816a916871ca8d3c208c16d87cfd47int;
    lemma_start(g, n);
    let (e, x) = (0nat, 1int);
    let (e, x) = lemma_step(g, n, e, x, true);
    assert(x == 0x30644e72e131a0295e6dd9e7e0acccb0c28f069fbb966e3de4bd44e5607cfd49int);
    let (e, x) = lemma_step(g, n, e, x, true);
    assert(x == 0x30644e72e131a029b85045b68181585d97816a916871ca8d3c208c16d87cfd46int);
    assert(e == 3nat);
}

/// A power modulo 0x30644e72e131a029b85045b68181585d97816a916871ca8d3c208c16d87cfd47.
proof fn lemma_power_q_18()
    ensures
        pow(0x30644e72e131a0295e6dd9e7e0acccb0c28f069fbb966e3de4bd44e5607cfd49int, 2nat) % 0x30644e72e131a029b85045b68181585d97816a916871ca8d3c208c16d87cfd47int == 0x30644e72e131a0295e6dd9e7e0acccb0c28f069fbb966e3de4bd44e5607cfd48int,
{
    let g = 0x30644e72e131a0295e6dd9e7e0acccb0c28f069fbb966e3de4bd44e5607cfd49int;
    let n = 0x30644e72e131a029b85045b68181585d97816a916871ca8d3c208c16d87cfd47int;
    lemma_start(g, n);
    let (e, x) = (0nat, 1int);
    let (e, x) = lemma_step(g, n, e, x, true);
    assert(x == 0x30644e72e131a0295e6dd9e7e0acccb0c28f069fbb966e3de4bd44e5607cfd49int);
    let (e, x) = lemma_step(g, n, e, x, false);
    assert(x == 0x30644e72e131a0295e6dd9e7e0acccb0c28f069fbb966e3de4bd44e5607cfd48int);
    assert(e == 2nat);
}

/// A power modulo 0x30644e72e131a029b85045b68181585d97816a916871ca8d3c208c16d87cfd47.
proof fn lemma_power_q_19()
    ensures
        pow(0x144dd9d9a6371929ccaeee9c8cfec77e73acf753045b87566ecb2d68adf80fc0int, 17862nat) % 0x30644e72e131a029b85045b68181585d97816a916871ca8d3c208c16d87cfd47int == 0x1e71f9c6327c0afe7202facc653a0aaada3e539b481fc944729854a06d85040eint,
{
    let g = 0x144dd9d9a6371929ccaeee9c8cfec77e73acf753045b87566ecb2d68adf80fc0int;
    let n = 0x30644e72e131a029b85045b68181585d97816a916871ca8d3c208c16d87cfd47int;
    lemma_start(g, n);
    let (e, x) = (0nat, 1int);
    let (e, x) = lemma_step(g, n, e, x, true);
    assert(x == 0x144dd9d9a6371929ccaeee9c8cfec77e73acf753045b87566ecb2d68adf80fc0int);
    let (e, x) = lemma_step(g, n, e, x, false);
    assert(x == 0x2f5d0bb8fdfafd6c956a770ba0bb1d19e5bc449d64d2c5a09b166f16b059788fint);
    let (e, x) = lemma_step(g, n, e, x, false);
    assert(x == 0xf78990a13563276e4b794aa5b6a91a45f00beb0f5285483fc8d53ade7b609f4int);
    let (e, x) = lemma_step(g, n, e, x, false);
    assert(x == 0x358d548b1331a322c536c6d6d07c3779cf14e3023996d8fe55d498eaede7801int);
    let (e, x) = lemma_step(g, n, e, x, true);
    assert(x == 0x202b1ea400d20980a5ed544045f0d7475e520421137637f77ba3e8060aa9bb02int);
    let (e, x) = lemma_step(g, n, e, x, false);
    assert(x == 0x2201f29a44a729948cd49dbdc49216b75b7792b8f70d9410585b7b9ef1a7ba25int);
    let (e, x) = lemma_step(g, n, e, x, true);
    assert(x == 0x136aa1686078690cbbbf846f5a1ef7f93544944abd72ea858e95aca1aee71e1cint);
    let (e, x) = lemma_step(g, n, e, x, true);
    assert(x == 0x1eebe78635b9b09f3d47ce264478a881ce1cf2783536cd31c2498ebb23ac6bbcint);
    let (e, x) = lemma_step(g, n, e, x, true);
    assert(x == 0xa52a32fa0dc0bd59a37726b78e376705254e3067be894d5da3a32b75a4b531eint);
    let (e, x) = lemma_step(g, n, e, x, false);
    assert(x == 0x15ec12c142b51a51492cb5840cbe2526caad731000e3ae74402a9537d548316int);
    let (e, x) = lemma_step(g, n, e, x, false);
    assert(x == 0xddabda8a195c5cfc68d775d21d70c0646282da1be7af4201d418c3746f7fe9eint);
    let (e, x) = lemma_step(g, n, e, x, false);
    assert(x == 0x49f80a3147fac93f4e8213d62ff602b38aabde9037de66bdf85a8ef0c5a0c5fint);
    let (e, x) = lemma_step(g, n, e, x, true);
    assert(x == 0x157fe371ef9c6d2d7908d26005c6557c22c408219a04129f296cf141733436e8int);
    let (e, x) = lemma_step(g, n, e, x, true);
    assert(x == 0x2b7cf844936bef4579289eb819dc976416c602548922a822b4989107ac32d618int);
    let (e, x) = lemma_step(g, n, e, x, false);
    assert(x == 0x1e71f9c6327c0afe7202facc653a0aaada3e539b481fc944729854a06d85040eint);
    assert(e == 17862nat);
}

/// A power modulo 0x30644e72e131a029b85045b68181585d97816a916871ca8d3c208c16d87cfd47.
proof fn lemma_power_q_20()
    ensures
        pow(0x1e71f9c6327c0afe7202facc653a0aaada3e539b481fc944729854a06d85040eint, 983nat) % 0x30644e72e131a029b85045b68181585d97816a916871ca8d3c208c16d87cfd47int == 0xad31ff96ac781f00d65a9cd70313bff6de7c06ed9bb8903e75e06da461e32b1int,
{
    let g = 0x1e71f9c6327c0afe7202facc653a0aaada3e539b481fc944729854a06d85040eint;
    let n = 0x30644e72e131a029b85045b68181585d97816a916871ca8d3c208c16d87cfd47int;
    lemma_start(g, n);
    let (e, x) = (0nat, 1int);
    let (e, x) = lemma_step(g, n, e, x, true);
    assert(x == 0x1e71f9c6327c0afe7202facc653a0aaada3e539b481fc944729854a06d85040eint);
    let (e, x) = lemma_step(g, n, e, x, true);
    assert(x == 0x1c6d0d70346f01414a228bf814fbf221791a627b396f355478b6e4fea06aa4cint);
    let (e, x) = lemma_step(g, n, e, x, true);
    assert(x == 0x31859674f41c8b78d2d66812c2654d369aef81c743f3c0a09916bd5f1474620int);
    let (e, x) = lemma_step(g, n, e, x, true);
    assert(x == 0x151a4b91603cb05623c881c7d9ca8ef9488d52fc64db6ac5aab8e55f64b7f145int);
    let (e, x) = lemma_step(g, n, e, x, false);
    assert(x == 0x1ff6e45a01389e2637685e183b5a7a862eb233d44d70560d6f7a4077276af7dfint);
    let (e, x) = lemma_step(g, n, e, x, true);
    assert(x == 0x1bd59dc3d261745dfe0e5d1bd2536d4e04b49f006843f912801c39069462fd8dint);
    let (e, x) = lemma_step(g, n, e, x, false);
    assert(x == 0x16210e26224b9078f372fa037692da0455d7d6efaa30643a7b96f0223f7e32fdint);
    let (e, x) = lemma_step(g, n, e, x, true);
    assert(x == 0x19cb6e57ac3c6cd01fefdfc9fc76b9f19ef21b355564a0cfdc7a18b324f5f9a1int);
    let (e, x) = lemma_step(g, n, e, x, true);
    assert(x == 0xaf540dabf1c568b8404167df3abf7744b1ef03fb7aadacc59d22e47a6623f5int);
    let (e, x) = lemma_step(g, n, e, x, true);
    assert(x == 0xad31ff96ac781f00d65a9cd70313bff6de7c06ed9bb8903e75e06da461e32b1int);
    assert(e == 983nat);
}

/// A power modulo 0x30644e72e131a029b85045b68181585d97816a916871ca8d3c208c16d87cfd47.
proof fn lemma_power_q_21()
    ensures
        pow(0x1e71f9c6327c0afe7202facc653a0aaada3e539b481fc944729854a06d85040eint, 311nat) % 0x30644e72e131a029b85045b68181585d97816a916871ca8d3c208c16d87cfd47int == 0x24e5695b1772fe1d3570be27cefde2058621c691cf99a1983c41e74eb81e5712int,
{
    let g = 0x1e71f9c6327c0afe7202facc653a0aaada3e539b481fc944729854a06d85040eint;
    let n = 0x30644e72e131a029b85045b68181585d97816a916871ca8d3c208c16d87cfd47int;
    lemma_start(g, n);
    let (e, x) = (0nat, 1int);
    let (e, x) = lemma_step(g, n, e, x, true);
    assert(x == 0x1e71f9c6327c0afe7202facc653a0aaada3e539b481fc944729854a06d85040eint);
    let (e, x) = lemma_step(g, n, e, x, false);
    assert(x == 0x9596a1b6cd4b3e6987e34b852fbeefe4f6e4f12e440d39f5a28905746d53f9dint);
    let (e, x) = lemma_step(g, n, e, x, false);
    assert(x == 0xe3c2ee1143d2c778184a5bb816bcc6c415f76ffa4d52773fce38a8f340db0c5int);
    let (e, x) = lemma_step(g, n, e, x, true);
    assert(x == 0x15c69fb202c2c579bcb890073f143f0d6501e97b26643cd75341541d3f87d814int);
    let (e, x) = lemma_step(g, n, e, x, true);
    assert(x == 0x97c4de018f0e056ccbdc4d6ad494edd24b5cd0537cb729944d69fe2b828cint);
    let (e, x) = lemma_step(g, n, e, x, false);
    assert(x == 0x1297ce9b5c0ddc9be483fb60e2d6e5538b33fa7d7af56079e4634e027ede1684int);
    let (e, x) = lemma_step(g, n, e, x, true);
    assert(x == 0x209c3db5418d7e393936c245c5af4252d88ae2db08bff894b0a1675f282c0687int);
    let (e, x) = lemma_step(g, n, e, x, true);
    assert(x == 0x25069ebe33d411879868dfa94f6435fb46324d491dcd0fe74a2f97d9b544a489int);
    let (e, x) = lemma_step(g, n, e, x, true);
    assert(x == 0x24e5695b1772fe1d3570be27cefde2058621c691cf99a1983c41e74eb81e5712int);
    assert(e == 311nat);
}

/// A power modulo 0x30644e72e131a029b85045b68181585d97816a916871ca8d3c208c16d87cfd47.
#[verifier::rlimit(50)]
proof fn lemma_power_q_22()
    ensures
        pow(27int, 0x68a5c2b41acaa306397cb978de5ba2nat) % 0x30644e72e131a029b85045b68181585d97816a916871ca8d3c208c16d87cfd47int == 0x6cf222ff4a4405830b08492547762e8eb299d573147e9ceb28b46c399549ea5int,
{
    let g = 27int;
    let n = 0x30644e72e131a029b85045b68181585d97816a916871ca8d3c208c16d87cfd47int;
    lemma_start(g, n);
    let (e, x) = (0nat, 1int);
    let (e, x) = lemma_step(g, n, e, x, true);
    assert(x == 27int);
    let (e, x) = lemma_step(g, n, e, x, true);
    assert(x == 19683int);
    let (e, x) = lemma_step(g, n, e, x, false);
    assert(x == 0x17179149int);
    let (e, x) = lemma_step(g, n, e, x, true);
    assert(x == 0x383d9170b85ff80bint);
    let (e, x) = lemma_step(g, n, e, x, false);
    assert(x == 0xc5afe6ff302bcbf94fd9829d87f5079int);
    let (e, x) = lemma_step(g, n, e, x, false);
    assert(x == 0x98a832626176ccbe4694b88a96dc004171b143838aa52d36988ddf2159d931int);
    let (e, x) = lemma_step(g, n, e, x, false);
    assert(x == 0x18a1a952cabb5df8aa813b46a7bc3953a441fa11365542ce806f89a347321909int);
    let (e, x) = lemma_step(g, n, e, x, true);
    assert(x == 0x237afc82ac354e926417cdf1feded700ce63c9598ed9496b05f28dc8df9e2c47int);
    let (e, x) = lemma_step(g, n, e, x, false);
    assert(x == 0x2a890970a05e40aa76bee3feb1b1830e96372f10866c65f8a78befcd945787bbint);
    let (e, x) = lemma_step(g, n, e, x, true);
    assert(x == 0xaa318333c7b29de697700801df8d54ce10dc9f7b900ad3059bae6ba04e7b2b1int);
    let (e, x) = lemma_step(g, n, e, x, false);
    assert(x == 0x2fabbffc578f2ac709cbd821f92c59eb96b6d70e8da7e7536b3068e59a54991int);
    let (e, x) = lemma_step(g, n, e, x, false);
    assert(x == 0x8577e1f395c1bfa7a9eef6fa1b0ebb4fb61c51e6a6514de2d7edb573dfa53aaint);
    let (e, x) = lemma_step(g, n, e, x, true);
    assert(x == 0xce845f94f23d558fb1e5ac7df35fa58b9dda193637d3c1932dec54f126f25a0int);
    let (e, x) = lemma_step(g, n, e, x, false);
    assert(x == 0x189012d7aa5bfc2672bbfa988f347a0edfaf828187eddeec2ea5d9ccd1a02a37int);
    let (e, x) = lemma_step(g, n, e, x, true);
    assert(x == 0x943f37d37eb596f087875091b73977900b596f494b7c72c44133ab76d16c862int);
    let (e, x) = lemma_step(g, n, e, x, true);
    assert(x == 0x328ab30080b4a2b15928d1254292eb895b560e316a265eb1026d784b1dceb26int);
    let (e, x) = lemma_step(g, n, e, x, true);
    assert(x == 0xa78854d54cb14acefae46567830e51846be25be85ee97fe502906913f1e15c5int);
    let (e, x) = lemma_step(g, n, e, x, false);
    assert(x == 0x20d893923f0e68cbb18c65fae71693974d735a6bf489c3bd218d1e8552e5775fint);
    let (e, x) = lemma_step(g, n, e, x, false);
    assert(x == 0x270b2b277cb0b1cd2fc51cac00f8eb350858390ccd32d762a1c94d0a58f3ea22int);
    let (e, x) = lemma_step(g, n, e, x, false);
    assert(x == 0xab6f758a4712439fbaa94079d9bbd7a5fe804f70e5b2495837085c653887504int);
    let (e, x) = lemma_step(g, n, e, x, false);
    assert(x == 0xa88fe153ea2dbbfb9fa11a707dec141ff8263620389c7f02048b1121785db1fint);
    let (e, x) = lemma_step(g, n, e, x, true);
    assert(x == 0x2bfe1f7891a73d6bf74b31f909b057a2ad625b3b6045ea3129a9d490c4eb0a00int);
    let (e, x) = lemma_step(g, n, e, x, false);
    assert(x == 0x293d1b07a8dce4f85fe2ea0c7883af22e2bca4658033812b69d5db6c295f07f0int);
    let (e, x) = lemma_step(g, n, e, x, true);
    assert(x == 0xd55b2be5a59245d6218a57b1f834a308d8f38e73ec50dcec8c24d31f060564dint);
    let (e, x) = lemma_step(g, n, e, x, false);
    assert(x == 0xcf8bf5759e85a0200952b40eee5ac1c62dc94834e48ffbb49078bcfe9ef9733int);
    let (e, x) = lemma_step(g, n, e, x, true);
    assert(x == 0x2adc52eee2eac1c676315c0ccf96557c6ccb1fd23bbd6bf2934320e243f34d8bint);
    let (e, x) = lemma_step(g, n, e, x, true);
    assert(x == 0x7dc7df9dd29cee1fbb651e4c92ed0c9e3cb49b8ccccd9dba5ab7249991e50b6int);
    let (e, x) = lemma_step(g, n, e, x, false);
    assert(x == 0x8df98f747ffb3043e8af68948542d32c937e38fc65c56f6b7857ecc69f1a9adint);
    let (e, x) = lemma_step(g, n, e, x, true);
    assert(x == 0x1395a68aaa7a8beea4f56eea6d127751aa858f6e1406d5bff9d0928eb0a188c3int);
    let (e, x) = lemma_step(g, n, e, x, false);
    assert(x == 0x1e182be2cca7b2113a8aa3cba176bcf7326a787c8f15949edbf6a78a46844fa6int);
    let (e, x) = lemma_step(g, n, e, x, false);
    assert(x == 0x4026f1e9aee4eb7d010056facb272c46650f4b6feb87f4e88abcc1d66975a87int);
    let (e, x) = lemma_step(g, n, e, x, false);
    assert(x == 0xd5e36e6ffa0aa60e2f4ff49d5b15c9bf53ab3ff42b2af72297f250291a11d6bint);
    let (e, x) = lemma_step(g, n, e, x, false);
    assert(x == 0x259905e8151c5480f08b87347967da89b4bd9f1570ad935f908192ba5a1a1de3int);
    let (e, x) = lemma_step(g, n, e, x, false);
    assert(x == 0xe2cafbce4d9237620a830e02116dc3a748822b0177c1823adb2a7d17f4b589cint);
    let (e, x) = lemma_step(g, n, e, x, true);
    assert(x == 0x2369ecbe23ea4fd84a3e72c3600d5b010fefc67a0851e2465a38df502b5bff52int);
    let (e, x) = lemma_step(g, n, e, x, true);
    assert(x == 0x47de80654c95d75ced09171c7159a165f7532ae7ac0799721cf4302d6afcb1int);
    let (e, x) = lemma_step(g, n, e, x, false);
    assert(x == 0x1a51b3ba62e61654426e29217206283ffb90c94d30e423ab84a2b261f3214ea2int);
    let (e, x) = lemma_step(g, n, e, x, true);
    assert(x == 0x40c8e9ec6cec78c0a9347b4029d3d85391ebbeec808e6ff32229cac6fee3a91int);
    let (e, x) = lemma_step(g, n, e, x, false);
    assert(x == 0xe7830d086bc6a4f6aba48431d493b7710946148ebd0a84f5546fe4096848465int);
    let (e, x) = lemma_step(g, n, e, x, true);
    assert(x == 0x19730fbe38731ec3b2eebd6558b0bfebe9eac93f26c215efc179f6f076b500dint);
    let (e, x) = lemma_step(g, n, e, x, true);
    assert(x == 0x1c4a3d58e24b281025298d98f7b100599826a3e5b029edb8ba0b269a7096f2c5int);
    let (e, x) = lemma_step(g, n, e, x, false);
    assert(x == 0x74a7f7aabb398c9e305dcc70a7285bc0af75b6b381c0346ee3e7852bddd3d4eint);
    let (e, x) = lemma_step(g, n, e, x, false);
    assert(x == 0x222cca5c1a8f8b179ae6dd0538c1564fbf09d11762b87c6aca36f414f9a3098aint);
    let (e, x) = lemma_step(g, n, e, x, true);
    assert(x == 0x1d6866047f73af64bbf283fe2ae2c99a5ed5fefb2aac1495afddfce259229b70int);
    let (e, x) = lemma_step(g, n, e, x, false);
    assert(x == 0xa8df85d765e931a70194f08a18f3d276bf9da3833326522ab996037f39dce23int);
    let (e, x) = lemma_step(g, n, e, x, true);
    assert(x == 0x2f685e27805485072d27c2747b8dd74d2854017d628da1c43e6c4527298c98ebint);
    let (e, x) = lemma_step(g, n, e, x, false);
    assert(x == 0x1120f0bba23cf3149675ef6e10465eed0418d4a7d5613fa1ff74335ed5a70a8fint);
    let (e, x) = lemma_step(g, n, e, x, true);
    assert(x == 0x53bf8f7174113b664a5c6a9c45d1c91536629a0d7b2beb5086a5194afbde8bdint);
    let (e, x) = lemma_step(g, n, e, x, false);
    assert(x == 0x10e936451e6a7cfdb3ba1a8a3ae05dc6a7f640d3319e4a8d108d679b175fe24eint);
    let (e, x) = lemma_step(g, n, e, x, true);
    assert(x == 0x23a1ae8494256b0d89850ae0cf0e51985c4544ccf3bef95050a1d3063ab2f242int);
    let (e, x) = lemma_step(g, n, e, x, false);
    assert(x == 0x462441101c55f9d999c396cb2f9a44dc36ebefae710b068cd28c67c78c1f294int);
    let (e, x) = lemma_step(g, n, e, x, false);
    assert(x == 0x20092b1ee95d70a98d4a1608f7472793e02cfe2f344789c991248c6e5ff29205int);
    let (e, x) = lemma_step(g, n, e, x, false);
    assert(x == 0x1dc269f9c1156a3cd6d6f36122a63ed095b2ff585212fa95eda4a9cd13a12309int);
    let (e, x) = lemma_step(g, n, e, x, true);
    assert(x == 0x1f57c3e127b7fbfe8e722c5cdbeeea2f6d10deed82556ba095041ef943c7b5acint);
    let (e, x) = lemma_step(g, n, e, x, true);
    assert(x == 0x24446ccd178e5bdfccb95dc3938f770f08859070340151e3c59e99ff7e4bedf6int);
    let (e, x) = lemma_step(g, n, e, x, false);
    assert(x == 0x10834d6426f90b108def617aa84e483f9fe1237b3ca9b43d60a63c4c57f0a4bint);
    let (e, x) = lemma_step(g, n, e, x, false);
    assert(x == 0xfc44a2335bf8fde6f3ccf59b400215b46d0a45b1a9b272b0cdd59e044a9b185int);
    let (e, x) = lemma_step(g, n, e, x, false);
    assert(x == 0x9fb5255dbc1aa3d5d78ba7890bce4a5b591ccf718792ea8589965885791a085int);
    let (e, x) = lemma_step(g, n, e, x, false);
    assert(x == 0x2ebad6cabf63062340f01aed62e912d3af2c21975aa1d2db3c2e8c437ff9d18cint);
    let (e, x) = lemma_step(g, n, e, x, false);
    assert(x == 0x30029249de424b5a7fc81495a2e4dc44a187a11ce482b5048703088d2591bb48int);
    let (e, x) = lemma_step(g, n, e, x, true);
    assert(x == 0xcd8e50cdc13eeb984de0deb713001a51551e4400684a8a667036e0356203dfeint);
    let (e, x) = lemma_step(g, n, e, x, true);
    assert(x == 0x3fd8a989160a2191192d9d24ef0bad742c72d300469ff88ebf6ea2816ebe512int);
    let (e, x) = lemma_step(g, n, e, x, false);
    assert(x == 0x58dbaa7155591c2de05801aac7c58468c271dbb40b5b1be645e2e26eae4536cint);
    let (e, x) = lemma_step(g, n, e, x, false);
    assert(x == 0x1799815bd04f15c2566f3f77c09a2f5471027950702a2b8fe9448c13ea7c5550int);
    let (e, x) = lemma_step(g, n, e, x, false);
    assert(x == 0xc3b90632d05dd0f61e1fd5580eaf5b39729303be306c0bf8af98ece8eb767a6int);
    let (e, x) = lemma_step(g, n, e, x, true);
    assert(x == 0xb22cd0c6253d372f20de0a1eba66af6c261369514c9d115c3954c45f1d0a1caint);
    let (e, x) = lemma_step(g, n, e, x, true);
    assert(x == 0x26ba73a33c64d1b626ff386e446539b0e1a71c9a2d6f3b641349d0efc9d7855dint);
    let (e, x) = lemma_step(g, n, e, x, true);
    assert(x == 0x284d190c36460db88315bdff3a21d86bd100bb8519e6cdd3da3e4154161da3a5int);
    let (e, x) = lemma_step(g, n, e, x, false);
    assert(x == 0x1887298543ee98800d4ce5ba829feee223740bc9304129a0042e05a750f7af65int);
    let (e, x) = lemma_step(g, n, e, x, false);
    assert(x == 0xde642cbae917cd26a8473bd9325388fc95b33611b6e9fbac8552adbb74d7a97int);
    let (e, x) = lemma_step(g, n, e, x, true);
    assert(x == 0x4b54ec00783aec55f145ec309344b9d2489025b0e7ea09e663d4984b39787b1int);
    let (e, x) = lemma_step(g, n, e, x, false);
    assert(x == 0x23076db81c2edc1e6a2d12f8b5eba56174116324170666dcd8ef137ac296948bint);
    let (e, x) = lemma_step(g, n, e, x, true);
    assert(x == 0x150789025ed120026df6e42816c50e56a51c191e450e4725738a63bcb6aba2cfint);
    let (e, x) = lemma_step(g, n, e, x, true);
    assert(x == 0x2c07c0539b117ca7698faba820d7894bf00ed1539402a71bb863b79526fe0299int);
    let (e, x) = lemma_step(g, n, e, x, true);
    assert(x == 0xdc63e79d556607eee6e90864049c7fb56f5c0280272438694739758630358f1int);
    let (e, x) = lemma_step(g, n, e, x, true);
    assert(x == 0xef9ced8c1c4813b5960f74fd124dc7dffd2bb9e3615d8a673f4764508ae37e5int);
    let (e, x) = lemma_step(g, n, e, x, true);
    assert(x == 0x219e04e5595cb5d24c37f5e2a0959c7da4598bd59fd45904c015909d34803e0eint);
    let (e, x) = lemma_step(g, n, e, x, false);
    assert(x == 0x1a0ea4787946fcfb4319d2ad80cd98e1456e483c037c71f245b1635052318971int);
    let (e, x) = lemma_step(g, n, e, x, false);
    assert(x == 0x2542820374c91ec862f72d4ab9bf6391e365665193bd2a595dbf985a22a59ba2int);
    let (e, x) = lemma_step(g, n, e, x, true);
    assert(x == 0x17ccf3d7e5364da140d9d546ba6d847bf84867ea44ab866fcad3d027548863e7int);
    let (e, x) = lemma_step(g, n, e, x, false);
    assert(x == 0x2f05199090e60ee26b7fafb4ecce0ffdf997319d4127caa57c3c2d46824b1f04int);
    let (e, x) = lemma_step(g, n, e, x, true);
    assert(x == 0xec95f8a55be1ca4ac4e489c0081efb6442b05590a556b982b85c344d1d85c11int);
    let (e, x) = lemma_step(g, n, e, x, true);
    assert(x == 0xe1d8a59fb6e61ee9acd001bf25612b2b5ec37fa2231762565e014ba4c90a3d5int);
    let (e, x) = lemma_step(g, n, e, x, true);
    assert(x == 0xf82194b0fd59c393c1c09c4179762c0bcb3d1e6fc324e601b5562b2fa0605fbint);
    let (e, x) = lemma_step(g, n, e, x, false);
    assert(x == 0x2cb4396e08832cef0142909347d2a41a7d44d157e700518d39ef21ffe9cd484aint);
    let (e, x) = lemma_step(g, n, e, x, false);
    assert(x == 0x24a4a61d51a3478d95d3869edf3ae3c9b2cc138cb956079761d1c9ea182122e2int);
    let (e, x) = lemma_step(g, n, e, x, true);
    assert(x == 0x1281798780c70757d032a8c76b968c304d26dc90194afc7472e378b6f9407d13int);
    let (e, x) = lemma_step(g, n, e, x, false);
    assert(x == 0x2c2b96293b8474bb24a1cd8b8e4592833516e7b6d33a305dedfa1249adc2f209int);
    let (e, x) = lemma_step(g, n, e, x, true);
    assert(x == 0x2a3be847afda14168b0637afabc24c600c66f5b6bb5c9c262b8e99e346d41a8aint);
    let (e, x) = lemma_step(g, n, e, x, true);
    assert(x == 0x297d766f9d472b0da864cc5b273df59dc89a3f1099fd9b746f35d178bc1c1c0cint);
    let (e, x) = lemma_step(g, n, e, x, true);
    assert(x == 0x1dd738d0ba430e23930a87bad016a6adddf47476bdabf8ee86c257f6ef297fdbint);
    let (e, x) = lemma_step(g, n, e, x, true);
    assert(x == 0x2db0a4ef591379a9e89302a01f78a57d0aab41540853051d65598834cef0d2dcint);
    let (e, x) = lemma_step(g, n, e, x, false);
    assert(x == 0x2d5f3064c3f012facadd315c13575309b3843c8393da49e7aef4b297f555230eint);
    let (e, x) = lemma_step(g, n, e, x, false);
    assert(x == 0x1362820ce3845c61e20c51a490b3c8aac626d8b0af4bf3be2aa2ee8b8921e46int);
    let (e, x) = lemma_step(g, n, e, x, false);
    assert(x == 0x207e4e5f31c4e9a0a2b7f7b140e07d9a470b962899f783d5f81742a8ad6299a8int);
    let (e, x) = lemma_step(g, n, e, x, true);
    assert(x == 0x2a8eaa12196be6fccd4d3fb4b9c6abf42e435d0e2ea4d09fd453dc744c765148int);
    let (e, x) = lemma_step(g, n, e, x, true);
    assert(x == 0x31079b0bf3927842edf5fea66b1602ff5d63d0a83454462cbcecd84eabb5ff4int);
    let (e, x) = lemma_step(g, n, e, x, false);
    assert(x == 0x8847d25e81d1d2d95ed7bf0660e30721480d3785adbd10108b777d4698305acint);
    let (e, x) = lemma_step(g, n, e, x, true);
    assert(x == 0x2259bae2c9aa2f768272f80820b021835effc85a051f15f8457a30d493b9be99int);
    let (e, x) = lemma_step(g, n, e, x, true);
    assert(x == 0x155063bc88836f3069366a2acc0015dec25776ec3317273956a589d3ae6a1a65int);
    let (e, x) = lemma_step(g, n, e, x, true);
    assert(x == 0x2168483b894d149191fccee15b080b9b78064e015f46982a0587e7b21fdc39e5int);
    let (e, x) = lemma_step(g, n, e, x, true);
    assert(x == 0x250b6f8a3b866c5a95f8d178152c2b1c583a76735ba7ef963dde67518bf2bf79int);
    let (e, x) = lemma_step(g, n, e, x, false);
    assert(x == 0x762330db0d23f320bda6aef65859e8d4576af333547fe92964156e587b0a8c2int);
    let (e, x) = lemma_step(g, n, e, x, false);
    assert(x == 0x1f84072e54bdae1658da7adb7a2f66b0e627818ecf52624f5dde0bbafe2b2f3aint);
    let (e, x) = lemma_step(g, n, e, x, true);
    assert(x == 0xecea3d420d90aad329e6394a46dd59653bc65dfcdcc3e60c365ffae1bcc796cint);
    let (e, x) = lemma_step(g, n, e, x, false);
    assert(x == 0x11fa0d5d57925c076f65f61d39b7fa342b44e8ac4f7c31345d0aef0d827fb33eint);
    let (e, x) = lemma_step(g, n, e, x, true);
    assert(x == 0x22e2273905652a31ca7ed03206bb30fa8da52b79de19483a0f530e13a7122058int);
    let (e, x) = lemma_step(g, n, e, x, true);
    assert(x == 0x1bc45d9219ea504be5052daae9b45ede01234f45a33f6c3e4d3d35be2c86d1b9int);
    let (e, x) = lemma_step(g, n, e, x, false);
    assert(x == 0x240dc0540ac377119d34968b09e528b6ae398084b65db9cb1bc407b8f923a234int);
    let (e, x) = lemma_step(g, n, e, x, true);
    assert(x == 0x215e048b22ec4d4f6f35d1847e1a9e4b437387f420edf7562e3dd83d482b9187int);
    let (e, x) = lemma_step(g, n, e, x, true);
    assert(x == 0x223b88424a628396aee8140a32123790c835d7585088912727001e47e79a8373int);
    let (e, x) = lemma_step(g, n, e, x, true);
    assert(x == 0x1f69bacb08f2e3eb3ec5f61b15df14362f407f09af6f3849862986cd92a8167fint);
    let (e, x) = lemma_step(g, n, e, x, false);
    assert(x == 0xde85dee009ab899f8f3cf5fc151f0b6ee6f3e488c97ae766c8584dcc1720e51int);
    let (e, x) = lemma_step(g, n, e, x, true);
    assert(x == 0x293a07397c0790f877670a800d049e110418e15e8a8e426f522b08eb4e8e55c6int);
    let (e, x) = lemma_step(g, n, e, x, false);
    assert(x == 0x161a1e741d1c7ff4dc6a82b1e09936f8ad78087f56aad27a1a0b3e150aae01f1int);
    let (e, x) = lemma_step(g, n, e, x, false);
    assert(x == 0x15814351742cc8f168203b98cb5ef4a3d7a00257708bace034f138b63e1827e3int);
    let (e, x) = lemma_step(g, n, e, x, false);
    assert(x == 0x1a7a18da072fadfb727bf180e88cc48d1210abd5fa7cb56a35b3e097cd8c30a2int);
    let (e, x) = lemma_step(g, n, e, x, true);
    assert(x == 0x2b42b707d03d5e55244124dceacb560858f03a2b502a2c246a9837adfba2268aint);
    let (e, x) = lemma_step(g, n, e, x, false);
    assert(x == 0x6cf222ff4a4405830b08492547762e8eb299d573147e9ceb28b46c399549ea5int);
    assert(e == 0x68a5c2b41acaa306397cb978de5ba2nat);
}

/// A power modulo 0x30644e72e131a029b85045b68181585d97816a916871ca8d3c208c16d87cfd47.
proof fn lemma_power_q_23()
    ensures
        pow(0x30644e72e131a029b85045b68181585d97816a916871ca8d3c208c16d87cfd46int, 2nat) % 0x30644e72e131a029b85045b68181585d97816a916871ca8d3c208c16d87cfd47int == 1int,
{
    let g = 0x30644e72e131a029b85045b68181585d97816a916871ca8d3c208c16d87cfd46int;
    let n = 0x30644e72e131a029b85045b68181585d97816a916871ca8d3c208c16d87cfd47int;
    lemma_start(g, n);
    let (e, x) = (0nat, 1int);
    let (e, x) = lemma_step(g, n, e, x, true);
    assert(x == 0x30644e72e131a029b85045b68181585d97816a916871ca8d3c208c16d87cfd46int);
    let (e, x) = lemma_step(g, n, e, x, false);
    assert(x == 1int);
    assert(e == 2nat);
}

/// The base prime `q` is prime: 3 generates the residues modulo `q` other
/// than zero, so that each has an inverse and Fermat's little theorem holds.
#[verifier::rlimit(50)]
pub proof fn lemma_prime_q()
    ensures
        all_units(0x30644e72e131a029b85045b68181585d97816a916871ca8d3c208c16d87cfd47int),
        fermat(0x30644e72e131a029b85045b68181585d97816a916871ca8d3c208c16d87cfd47int),
{
    let g = 3int;
    let n = 0x30644e72e131a029b85045b68181585d97816a916871ca8d3c208c16d87cfd47int;
    let ps = seq![2int, 3int, 13int, 29int, 67int, 229int, 311int, 983int, 11003int, 0x1831fb5fint, 0x2ab6cbdc9int, 0x2775dec4d2fd445d02a32aa0f59b66aa11int];
    lemma_two();
    lemma_prime_3();
    lemma_prime_13();
    lemma_prime_29();
    lemma_prime_67();
    lemma_prime_229();
    lemma_prime_311();
    lemma_prime_983();
    lemma_prime_11003();
    lemma_prime_405928799();
    lemma_prime_11465965001();
    lemma_prime_13427688667394608761327070753331941386769();
    lemma_cover_one(ps);
    lemma_cover_step(1int, 2int, ps, 0);
    assert(2int * 1int == 2int);
    assert(factors_cover(2int, ps));
    lemma_cover_step(2int, 3int, ps, 1);
    assert(3int * 2int == 6int);
    assert(factors_cover(6int, ps));
    lemma_cover_step(6int, 3int, ps, 1);
    assert(3int * 6int == 18int);
    assert(factors_cover(18int, ps));
    lemma_cover_step(18int, 13int, ps, 2);
    assert(13int * 18int == 234int);
    assert(factors_cover(234int, ps));
    lemma_cover_step(234int, 29int, ps, 3);
    assert(29int * 234int == 6786int);
    assert(factors_cover(6786int, ps));
    lemma_cover_step(6786int, 67int, ps, 4);
    assert(67int * 6786int == 454662int);
    assert(factors_cover(454662int, ps));
    lemma_cover_step(454662int, 229int, ps, 5);
    assert(229int * 454662int == 0x634b55eint);
    assert(factors_cover(0x634b55eint, ps));
    lemma_cover_step(0x634b55eint, 311int, ps, 6);
    assert(311int * 0x634b55eint == 0x78a085532int);
    assert(factors_cover(0x78a085532int, ps));
    lemma_cover_step(0x78a085532int, 983int, ps, 7);
    assert(983int * 0x78a085532int == 0x1cf305ff22feint);
    assert(factors_cover(0x1cf305ff22feint, ps));
    lemma_cover_step(0x1cf305ff22feint, 11003int, ps, 8);
    assert(11003int * 0x1cf305ff22feint == 0x4dc4142bce4fb0aint);
    assert(factors_cover(0x4dc4142bce4fb0aint, ps));
    lemma_cover_step(0x4dc4142bce4fb0aint, 0x1831fb5fint, ps, 9);
    assert(0x1831fb5fint * 0x4dc4142bce4fb0aint == 0x75990c813446559805f6b6int);
    assert(factors_cover(0x75990c813446559805f6b6int, ps));
    lemma_cover_step(0x75990c813446559805f6b6int, 0x2ab6cbdc9int, ps, 10);
    assert(0x2ab6cbdc9int * 0x75990c813446559805f6b6int == 0x139f1481c505fe912ac762c6a9b12e6int);
    assert(factors_cover(0x139f1481c505fe912ac762c6a9b12e6int, ps));
    lemma_cover_step(0x139f1481c505fe912ac762c6a9b12e6int, 0x2775dec4d2fd445d02a32aa0f59b66aa11int, ps, 11);
    assert(0x2775dec4d2fd445d02a32aa0f59b66aa11int * 0x139f1481c505fe912ac762c6a9b12e6int == 0x30644e72e131a029b85045b68181585d97816a916871ca8d3c208c16d87cfd46int);
    assert(factors_cover(0x30644e72e131a029b85045b68181585d97816a916871ca8d3c208c16d87cfd46int, ps));
    lemma_power_q_0();
    lemma_power_q_1();
    lemma_pow_compose(g, 3nat, 0x2775dec4d2fd445d02a32aa0f59b66aa11nat, n);
    assert(3nat * 0x2775dec4d2fd445d02a32aa0f59b66aa11nat == 0x76619c4e78f7cd1707e97fe2e0d233fe33nat);
    assert(pow(g, 0x76619c4e78f7cd1707e97fe2e0d233fe33nat) % n == 0x1f974bffd9f16587e9c917aa9422f17cb18398699947cee64b6739911241a6fint);
    lemma_power_q_2();
    lemma_pow_compose(g, 0x76619c4e78f7cd1707e97fe2e0d233fe33nat, 0x364e8fc7589228896nat, n);
    assert(0x76619c4e78f7cd1707e97fe2e0d233fe33nat * 0x364e8fc7589228896nat == 0x191ceb32e2929b7ab243a3c72b5f0a8eec3be057ea6d74809e2nat);
    assert(pow(g, 0x191ceb32e2929b7ab243a3c72b5f0a8eec3be057ea6d74809e2nat) % n == 0xc4141a2fff51ff80b59bc5d4be00cc4a3e7b0d2a27914b83979d4ffceb31c08int);
    lemma_power_q_3();
    lemma_pow_compose(g, 0x191ceb32e2929b7ab243a3c72b5f0a8eec3be057ea6d74809e2nat, 0x1831fb5fnat, n);
    assert(0x191ceb32e2929b7ab243a3c72b5f0a8eec3be057ea6d74809e2nat * 0x1831fb5fnat == 0x25f9d3e765148ab160b759d7dde449db31fe1268dfc9558ab499ae40denat);
    assert(pow(g, 0x25f9d3e765148ab160b759d7dde449db31fe1268dfc9558ab499ae40denat) % n == 0x2b107de633f0db9732f8b0c9c5c2d0dd34edd5e465439764be453d282e17d5d7int);
    lemma_power_q_4();
    lemma_pow_compose(g, 0x25f9d3e765148ab160b759d7dde449db31fe1268dfc9558ab499ae40denat, 11003nat, n);
    assert(0x25f9d3e765148ab160b759d7dde449db31fe1268dfc9558ab499ae40denat * 11003nat == 0x66038b6ba7579e515c7e882810e02f2601db321418a726fa0a049447e05aanat);
    assert(pow(g, 0x66038b6ba7579e515c7e882810e02f2601db321418a726fa0a049447e05aanat) % n == 0x9322b10c52053bf93b0140600d5afbf507ae3cae33ac590980531a44c4a6692int);
    lemma_power_q_5();
    lemma_pow_compose(g, 0x66038b6ba7579e515c7e882810e02f2601db321418a726fa0a049447e05aanat, 67nat, n);
    assert(0x66038b6ba7579e515c7e882810e02f2601db321418a726fa0a049447e05aanat * 67nat == 0x1ab2ed7d2ccbee6f4b351da27c6aac56f27c5e1b4273bf33709f32cecfb7b7enat);
    assert(pow(g, 0x1ab2ed7d2ccbee6f4b351da27c6aac56f27c5e1b4273bf33709f32cecfb7b7enat) % n == 0x2af6d5f7482c9dcb59a1fcaf28062dbf1f0b1c08499a7dc93398ca9eb5f63281int);
    lemma_power_q_6();
    lemma_pow_compose(g, 0x66038b6ba7579e515c7e882810e02f2601db321418a726fa0a049447e05aanat, 29nat, n);
    assert(0x66038b6ba7579e515c7e882810e02f2601db321418a726fa0a049447e05aanat * 29nat == 0xb8e66cb31f4ecef377a556c89e965574e35d4ac46caef6a532284cc246a442nat);
    assert(pow(g, 0xb8e66cb31f4ecef377a556c89e965574e35d4ac46caef6a532284cc246a442nat) % n == 0x2f590d13a940168d511a866fc6ac5f0051b43a9c6c61c20ec89403d4b3b1b1f3int);
    lemma_power_q_7();
    lemma_pow_compose(g, 0x25f9d3e765148ab160b759d7dde449db31fe1268dfc9558ab499ae40denat, 1943nat, n);
    assert(0x25f9d3e765148ab160b759d7dde449db31fe1268dfc9558ab499ae40denat * 1943nat == 0x1203b2751402ee8a8450f9ae5651fac8ea86f5db9fa81183fc0ba698e54f2nat);
    assert(pow(g, 0x1203b2751402ee8a8450f9ae5651fac8ea86f5db9fa81183fc0ba698e54f2nat) % n == 0xf0fe2f599d651d01a180e7dc5692bc3dae21ed2cc8b21d6de7752bd89fbfef6int);
    lemma_power_q_8();
    lemma_pow_compose(g, 0x191ceb32e2929b7ab243a3c72b5f0a8eec3be057ea6d74809e2nat, 0x146370dnat, n);
    assert(0x191ceb32e2929b7ab243a3c72b5f0a8eec3be057ea6d74809e2nat * 0x146370dnat == 0x200039ffcc66f4ff1843aa25405676111912428c31cf36c75fe940e7anat);
    assert(pow(g, 0x200039ffcc66f4ff1843aa25405676111912428c31cf36c75fe940e7anat) % n == 0x8ed6a1c6cc9087cc8e500bf58bec0083de2671b6b6c1e0939325e44b3689bc2int);
    lemma_power_q_9();
    lemma_pow_compose(g, 0x76619c4e78f7cd1707e97fe2e0d233fe33nat, 0x1ed4da12852cd3nat, n);
    assert(0x76619c4e78f7cd1707e97fe2e0d233fe33nat * 0x1ed4da12852cd3nat == 0xe41ddfe52b67854263c288e58a8a8a9f5be33bed70a4809nat);
    assert(pow(g, 0xe41ddfe52b67854263c288e58a8a8a9f5be33bed70a4809nat) % n == 0x2d03999cfd6de35bde4ae36fc87135be6f7242a4b85428c37f9fd81468bff696int);
    lemma_power_q_10();
    lemma_pow_compose(g, 0xe41ddfe52b67854263c288e58a8a8a9f5be33bed70a4809nat, 0x1457ad6e6nat, n);
    assert(0xe41ddfe52b67854263c288e58a8a8a9f5be33bed70a4809nat * 0x1457ad6e6nat == 0x1220762f88f51d5b052b0bb8ae57cc80ca7f3075b8168d918cbe3e16nat);
    assert(pow(g, 0x1220762f88f51d5b052b0bb8ae57cc80ca7f3075b8168d918cbe3e16nat) % n == 0xcab6cf3dfbbffe8fe8a59f8949c20457e261d98a716bede96569e94447b3530int);
    lemma_power_q_11();
    lemma_pow_compose(g, 0xe41ddfe52b67854263c288e58a8a8a9f5be33bed70a4809nat, 0x2ab6cbdc9nat, n);
    assert(0xe41ddfe52b67854263c288e58a8a8a9f5be33bed70a4809nat * 0x2ab6cbdc9nat == 0x260fc9a10093c7c2ed9d3be151c4505cbb48082b5ac5ac1fd50d3411nat);
    assert(pow(g, 0x260fc9a10093c7c2ed9d3be151c4505cbb48082b5ac5ac1fd50d3411nat) % n == 0x144dd9d9a6371929ccaeee9c8cfec77e73acf753045b87566ecb2d68adf80fc0int);
    lemma_power_q_12();
    lemma_pow_compose(g, 0x260fc9a10093c7c2ed9d3be151c4505cbb48082b5ac5ac1fd50d3411nat, 305713nat, n);
    assert(0x260fc9a10093c7c2ed9d3be151c4505cbb48082b5ac5ac1fd50d3411nat * 305713nat == 0xb18ceb6e84825dfc648ed4615d7e4563e33dcee3c5aa54a269c75c5e4141nat);
    assert(pow(g, 0xb18ceb6e84825dfc648ed4615d7e4563e33dcee3c5aa54a269c75c5e4141nat) % n == 0x185936751451469834973bd506cea74387d55952414a72984b1a63d4fbbd04b2int);
    lemma_power_q_13();
    lemma_pow_compose(g, 0xb18ceb6e84825dfc648ed4615d7e4563e33dcee3c5aa54a269c75c5e4141nat, 78nat, n);
    assert(0xb18ceb6e84825dfc648ed4615d7e4563e33dcee3c5aa54a269c75c5e4141nat * 78nat == 0x3618efbbac5fb8a2e6a384b5aa7c79246f3cd5096639e5c97c3abe24b7e1cenat);
    assert(pow(g, 0x3618efbbac5fb8a2e6a384b5aa7c79246f3cd5096639e5c97c3abe24b7e1cenat) % n == 0x16a7dfbef107b2fb1c294fd8913b0a66e2e7a5f03923f94246b7e8302c071a2eint);
    lemma_power_q_14();
    lemma_pow_compose(g, 0xb18ceb6e84825dfc648ed4615d7e4563e33dcee3c5aa54a269c75c5e4141nat, 229nat, n);
    assert(0xb18ceb6e84825dfc648ed4615d7e4563e33dcee3c5aa54a269c75c5e4141nat * 229nat == 0x9ed30e99dc889e12c5f3c3fb18a1f4125a464a11bfd15db5489f55a0505f25nat);
    assert(pow(g, 0x9ed30e99dc889e12c5f3c3fb18a1f4125a464a11bfd15db5489f55a0505f25nat) % n == 0x20cd4d50fa9c5ffd8f57c6d3fa8277c9be9b04bbb72d061467a0af54a845144eint);
    lemma_power_q_15();
    lemma_pow_compose(g, 0x9ed30e99dc889e12c5f3c3fb18a1f4125a464a11bfd15db5489f55a0505f25nat, 6nat, n);
    assert(0x9ed30e99dc889e12c5f3c3fb18a1f4125a464a11bfd15db5489f55a0505f25nat * 6nat == 0x3b8f2579b2b33b470a3b697e293cbb86e1da5bc6a7ee8323fb3bc01c1e23adenat);
    assert(pow(g, 0x3b8f2579b2b33b470a3b697e293cbb86e1da5bc6a7ee8323fb3bc01c1e23adenat) % n == 0x2aa30a0493cd4fa12055d6c821ff8497e5f29bcaaac4fb1f6a0fdb311dc14991int);
    lemma_power_q_16();
    lemma_pow_compose(g, 0x9ed30e99dc889e12c5f3c3fb18a1f4125a464a11bfd15db5489f55a0505f25nat, 13nat, n);
    assert(0x9ed30e99dc889e12c5f3c3fb18a1f4125a464a11bfd15db5489f55a0505f25nat * 13nat == 0x810b7bdd032f006f40d60f3c0403964ee9591c2e6bda1c234b017592414d4e1nat);
    assert(pow(g, 0x810b7bdd032f006f40d60f3c0403964ee9591c2e6bda1c234b017592414d4e1nat) % n == 0x30644e72e131a0295e6dd9e7e0acccb0c28f069fbb966e3de4bd44e5607cfd49int);
    lemma_power_q_17();
    lemma_pow_compose(g, 0x810b7bdd032f006f40d60f3c0403964ee9591c2e6bda1c234b017592414d4e1nat, 3nat, n);
    assert(0x810b7bdd032f006f40d60f3c0403964ee9591c2e6bda1c234b017592414d4e1nat * 3nat == 0x183227397098d014dc2822db40c0ac2ecbc0b548b438e5469e10460b6c3e7ea3nat);
    assert(pow(g, 0x183227397098d014dc2822db40c0ac2ecbc0b548b438e5469e10460b6c3e7ea3nat) % n == 0x30644e72e131a029b85045b68181585d97816a916871ca8d3c208c16d87cfd46int);
    lemma_power_q_18();
    lemma_pow_compose(g, 0x810b7bdd032f006f40d60f3c0403964ee9591c2e6bda1c234b017592414d4e1nat, 2nat, n);
    assert(0x810b7bdd032f006f40d60f3c0403964ee9591c2e6bda1c234b017592414d4e1nat * 2nat == 0x10216f7ba065e00de81ac1e7808072c9dd2b2385cd7b438469602eb24829a9c2nat);
    assert(pow(g, 0x10216f7ba065e00de81ac1e7808072c9dd2b2385cd7b438469602eb24829a9c2nat) % n == 0x30644e72e131a0295e6dd9e7e0acccb0c28f069fbb966e3de4bd44e5607cfd48int);
    lemma_power_q_19();
    lemma_pow_compose(g, 0x260fc9a10093c7c2ed9d3be151c4505cbb48082b5ac5ac1fd50d3411nat, 17862nat, n);
    assert(0x260fc9a10093c7c2ed9d3be151c4505cbb48082b5ac5ac1fd50d3411nat * 17862nat == 0xa5fb18e57ae47240acf28c00b4f277f263343ea00ff7c47b50b573eda26nat);
    assert(pow(g, 0xa5fb18e57ae47240acf28c00b4f277f263343ea00ff7c47b50b573eda26nat) % n == 0x1e71f9c6327c0afe7202facc653a0aaada3e539b481fc944729854a06d85040eint);
    lemma_power_q_20();
    lemma_pow_compose(g, 0xa5fb18e57ae47240acf28c00b4f277f263343ea00ff7c47b50b573eda26nat, 983nat, n);
    assert(0xa5fb18e57ae47240acf28c00b4f277f263343ea00ff7c47b50b573eda26nat * 983nat == 0x27d572c992ae332b658175796b6cf0a93baed9c789d50637582e8c0257a7eanat);
    assert(pow(g, 0x27d572c992ae332b658175796b6cf0a93baed9c789d50637582e8c0257a7eanat) % n == 0xad31ff96ac781f00d65a9cd70313bff6de7c06ed9bb8903e75e06da461e32b1int);
    lemma_power_q_21();
    lemma_pow_compose(g, 0xa5fb18e57ae47240acf28c00b4f277f263343ea00ff7c47b50b573eda26nat, 311nat, n);
    assert(0xa5fb18e57ae47240acf28c00b4f277f263343ea00ff7c47b50b573eda26nat * 311nat == 0xc9a40b3ec84b86cc921aa814dbd28fb7768478147365ffb1cf0c6fd5b042anat);
    assert(pow(g, 0xc9a40b3ec84b86cc921aa814dbd28fb7768478147365ffb1cf0c6fd5b042anat) % n == 0x24e5695b1772fe1d3570be27cefde2058621c691cf99a1983c41e74eb81e5712int);
    lemma_power_q_22();
    lemma_pow_compose(g, 3nat, 0x68a5c2b41acaa306397cb978de5ba2nat, n);
    assert(3nat * 0x68a5c2b41acaa306397cb978de5ba2nat == 0x139f1481c505fe912ac762c6a9b12e6nat);
    assert(pow(g, 0x139f1481c505fe912ac762c6a9b12e6nat) % n == 0x6cf222ff4a4405830b08492547762e8eb299d573147e9ceb28b46c399549ea5int);
    lemma_power_q_23();
    lemma_pow_compose(g, 0x183227397098d014dc2822db40c0ac2ecbc0b548b438e5469e10460b6c3e7ea3nat, 2nat, n);
    assert(0x183227397098d014dc2822db40c0ac2ecbc0b548b438e5469e10460b6c3e7ea3nat * 2nat == 0x30644e72e131a029b85045b68181585d97816a916871ca8d3c208c16d87cfd46nat);
    assert(pow(g, 0x30644e72e131a029b85045b68181585d97816a916871ca8d3c208c16d87cfd46nat) % n == 1);
    assert forall|i: int| 0 <= i < ps.len() implies (#[trigger] ps[i]) > 1 && (n - 1) % ps[i] == 0
        && pow(g, ((n - 1) / ps[i]) as nat) % n != 1 by {
        if i == 0 {
            assert(ps[0] == 2int);
            assert(0x30644e72e131a029b85045b68181585d97816a916871ca8d3c208c16d87cfd46int % 2int == 0);
            assert(0x30644e72e131a029b85045b68181585d97816a916871ca8d3c208c16d87cfd46int / 2int == 0x183227397098d014dc2822db40c0ac2ecbc0b548b438e5469e10460b6c3e7ea3int);
        }
        if i == 1 {
            assert(ps[1] == 3int);
            assert(0x30644e72e131a029b85045b68181585d97816a916871ca8d3c208c16d87cfd46int % 3int == 0);
            assert(0x30644e72e131a029b85045b68181585d97816a916871ca8d3c208c16d87cfd46int / 3int == 0x10216f7ba065e00de81ac1e7808072c9dd2b2385cd7b438469602eb24829a9c2int);
        }
        if i == 2 {
            assert(ps[2] == 13int);
            assert(0x30644e72e131a029b85045b68181585d97816a916871ca8d3c208c16d87cfd46int % 13int == 0);
            assert(0x30644e72e131a029b85045b68181585d97816a916871ca8d3c208c16d87cfd46int / 13int == 0x3b8f2579b2b33b470a3b697e293cbb86e1da5bc6a7ee8323fb3bc01c1e23adeint);
        }
        if i == 3 {
            assert(ps[3] == 29int);
            assert(0x30644e72e131a029b85045b68181585d97816a916871ca8d3c208c16d87cfd46int % 29int == 0);
            assert(0x30644e72e131a029b85045b68181585d97816a916871ca8d3c208c16d87cfd46int / 29int == 0x1ab2ed7d2ccbee6f4b351da27c6aac56f27c5e1b4273bf33709f32cecfb7b7eint);
        }
        if i == 4 {
            assert(ps[4] == 67int);
            assert(0x30644e72e131a029b85045b68181585d97816a916871ca8d3c208c16d87cfd46int % 67int == 0);
            assert(0x30644e72e131a029b85045b68181585d97816a916871ca8d3c208c16d87cfd46int / 67int == 0xb8e66cb31f4ecef377a556c89e965574e35d4ac46caef6a532284cc246a442int);
        }
        if i == 5 {
            assert(ps[5] == 229int);
            assert(0x30644e72e131a029b85045b68181585d97816a916871ca8d3c208c16d87cfd46int % 229int == 0);
            assert(0x30644e72e131a029b85045b68181585d97816a916871ca8d3c208c16d87cfd46int / 229int == 0x3618efbbac5fb8a2e6a384b5aa7c79246f3cd5096639e5c97c3abe24b7e1ceint);
        }
        if i == 6 {
            assert(ps[6] == 311int);
            assert(0x30644e72e131a029b85045b68181585d97816a916871ca8d3c208c16d87cfd46int % 311int == 0);
            assert(0x30644e72e131a029b85045b68181585d97816a916871ca8d3c208c16d87cfd46int / 311int == 0x27d572c992ae332b658175796b6cf0a93baed9c789d50637582e8c0257a7eaint);
        }
        if i == 7 {
            assert(ps[7] == 983int);
            assert(0x30644e72e131a029b85045b68181585d97816a916871ca8d3c208c16d87cfd46int % 983int == 0);
            assert(0x30644e72e131a029b85045b68181585d97816a916871ca8d3c208c16d87cfd46int / 983int == 0xc9a40b3ec84b86cc921aa814dbd28fb7768478147365ffb1cf0c6fd5b042aint);
        }
        if i == 8 {
            assert(ps[8] == 11003int);
            assert(0x30644e72e131a029b85045b68181585d97816a916871ca8d3c208c16d87cfd46int % 11003int == 0);
            assert(0x30644e72e131a029b85045b68181585d97816a916871ca8d3c208c16d87cfd46int / 11003int == 0x1203b2751402ee8a8450f9ae5651fac8ea86f5db9fa81183fc0ba698e54f2int);
        }
        if i == 9 {
            assert(ps[9] == 0x1831fb5fint);
            assert(0x30644e72e131a029b85045b68181585d97816a916871ca8d3c208c16d87cfd46int % 0x1831fb5fint == 0);
            assert(0x30644e72e131a029b85045b68181585d97816a916871ca8d3c208c16d87cfd46int / 0x1831fb5fint == 0x200039ffcc66f4ff1843aa25405676111912428c31cf36c75fe940e7aint);
        }
        if i == 10 {
            assert(ps[10] == 0x2ab6cbdc9int);
            assert(0x30644e72e131a029b85045b68181585d97816a916871ca8d3c208c16d87cfd46int % 0x2ab6cbdc9int == 0);
            assert(0x30644e72e131a029b85045b68181585d97816a916871ca8d3c208c16d87cfd46int / 0x2ab6cbdc9int == 0x1220762f88f51d5b052b0bb8ae57cc80ca7f3075b8168d918cbe3e16int);
        }
        if i == 11 {
            assert(ps[11] == 0x2775dec4d2fd445d02a32aa0f59b66aa11int);
            assert(0x30644e72e131a029b85045b68181585d97816a916871ca8d3c208c16d87cfd46int % 0x2775dec4d2fd445d02a32aa0f59b66aa11int == 0);
            assert(0x30644e72e131a029b85045b68181585d97816a916871ca8d3c208c16d87cfd46int / 0x2775dec4d2fd445d02a32aa0f59b66aa11int == 0x139f1481c505fe912ac762c6a9b12e6int);
        }
    }
    lemma_lucas(n, g, ps);
}

} // verus!
