//! How the coefficients of the Frobenius maps follow from one another: the
//! conjugate of the coefficient of the `j`-th map times that of the first is
//! that of the map after it.

use crate::model::base::q;
use crate::model::frobenius::lemma_mul_value;
use crate::model::quadratic::Fq2Value;
use crate::params::{frobenius_coeff_fq12_c1, frobenius_coeff_fq6_c1, frobenius_coeff_fq6_c2};
use vstd::prelude::*;

verus! {

/// The conjugate of `g` times `h` is `n`. The definition is kept out of
/// sight of the solver where the numbers are checked.
#[verifier::opaque]
pub open spec fn follows(g: Fq2Value, h: Fq2Value, n: Fq2Value) -> bool {
    g.conjugate().mul(h) == n
}

/// A check of `follows` on the conjugate `c` of `g` and the four reduced
/// products `p` of the coefficients of `c` and `h`, written so that no
/// number below zero is reduced.
pub proof fn lemma_follows(
    g: Fq2Value,
    c: Fq2Value,
    h: Fq2Value,
    n: Fq2Value,
    p: (int, int, int, int),
)
    requires
        c.c0 == g.c0 % q(),
        c.c1 == (q() - g.c1 % q()) % q(),
        p.0 == (c.c0 * h.c0) % q(),
        p.1 == (c.c1 * h.c1) % q(),
        p.2 == (c.c0 * h.c1) % q(),
        p.3 == (c.c1 * h.c0) % q(),
        n.c0 == (p.0 + q() - p.1) % q(),
        n.c1 == (p.2 + p.3) % q(),
    ensures
        follows(g, h, n),
{
    reveal(follows);
    vstd::arithmetic::div_mod::lemma_sub_mod_noop_right(0, g.c1, q());
    vstd::arithmetic::div_mod::lemma_mod_multiples_vanish(1, -(g.c1 % q()), q());
    assert(g.conjugate() == c);
    lemma_mul_value(c, h, n);
}

/// The relation for `j = 0`.
proof fn lemma_next_c1_0()
    ensures
        follows(frobenius_coeff_fq6_c1(0), frobenius_coeff_fq6_c1(1), frobenius_coeff_fq6_c1(1)),
{
    lemma_follows(
        Fq2Value { c0: 1int, c1: 0int },
        Fq2Value { c0: 1int, c1: 0int },
        Fq2Value {
            c0: 0x2fb347984f7911f74c0bec3cf559b143b78cc310c2c3330c99e39557176f553dint,
            c1: 0x16c9e55061ebae204ba4cc8bd75a079432ae2a1d0b7c9dce1665d51c640fcba2int,
        },
        Fq2Value {
            c0: 0x2fb347984f7911f74c0bec3cf559b143b78cc310c2c3330c99e39557176f553dint,
            c1: 0x16c9e55061ebae204ba4cc8bd75a079432ae2a1d0b7c9dce1665d51c640fcba2int,
        },
        (
            0x2fb347984f7911f74c0bec3cf559b143b78cc310c2c3330c99e39557176f553dint,
            0int,
            0x16c9e55061ebae204ba4cc8bd75a079432ae2a1d0b7c9dce1665d51c640fcba2int,
            0int,
        ),
    );
}

/// The relation for `j = 1`.
proof fn lemma_next_c1_1()
    ensures
        follows(frobenius_coeff_fq6_c1(1), frobenius_coeff_fq6_c1(1), frobenius_coeff_fq6_c1(2)),
{
    lemma_follows(
        Fq2Value {
            c0: 0x2fb347984f7911f74c0bec3cf559b143b78cc310c2c3330c99e39557176f553dint,
            c1: 0x16c9e55061ebae204ba4cc8bd75a079432ae2a1d0b7c9dce1665d51c640fcba2int,
        },
        Fq2Value {
            c0: 0x2fb347984f7911f74c0bec3cf559b143b78cc310c2c3330c99e39557176f553dint,
            c1: 0x199a69227f45f2096cab792aaa2750c964d340745cf52cbf25bab6fa746d31a5int,
        },
        Fq2Value {
            c0: 0x2fb347984f7911f74c0bec3cf559b143b78cc310c2c3330c99e39557176f553dint,
            c1: 0x16c9e55061ebae204ba4cc8bd75a079432ae2a1d0b7c9dce1665d51c640fcba2int,
        },
        Fq2Value {
            c0: 0x30644e72e131a0295e6dd9e7e0acccb0c28f069fbb966e3de4bd44e5607cfd48int,
            c1: 0int,
        },
        (
            0x1b0ccee8a31024156fb0cd4f9d62759acae1364bbd15ad5834a3b21d794dd255int,
            0x1b0ccee8a3102415c993391e3e3701479fd39a3d69f109a78c06f94ef14dd254int,
            0x160a2f6df3fec5774f9d40581d858e491b42e9750def63b1e09da388e695c093int,
            0x1a5a1f04ed32dab268b3055e63fbca147c3e811c5a8266db5b82e88df1e73cb4int,
        ),
    );
}

/// The relation for `j = 2`.
proof fn lemma_next_c1_2()
    ensures
        follows(frobenius_coeff_fq6_c1(2), frobenius_coeff_fq6_c1(1), frobenius_coeff_fq6_c1(3)),
{
    lemma_follows(
        Fq2Value {
            c0: 0x30644e72e131a0295e6dd9e7e0acccb0c28f069fbb966e3de4bd44e5607cfd48int,
            c1: 0int,
        },
        Fq2Value {
            c0: 0x30644e72e131a0295e6dd9e7e0acccb0c28f069fbb966e3de4bd44e5607cfd48int,
            c1: 0int,
        },
        Fq2Value {
            c0: 0x2fb347984f7911f74c0bec3cf559b143b78cc310c2c3330c99e39557176f553dint,
            c1: 0x16c9e55061ebae204ba4cc8bd75a079432ae2a1d0b7c9dce1665d51c640fcba2int,
        },
        Fq2Value {
            c0: 0x856e078b755ef0abaff1c77959f25ac805ffd3d5d6942d37b746ee87bdcfb6dint,
            c1: 0x4f1de41b3d1766fa9f30e6dec26094f0fdf31bf98ff2631380cab2baaa586deint,
        },
        (
            0x856e078b755ef0abaff1c77959f25ac805ffd3d5d6942d37b746ee87bdcfb6dint,
            0int,
            0x4f1de41b3d1766fa9f30e6dec26094f0fdf31bf98ff2631380cab2baaa586deint,
            0int,
        ),
    );
}

/// The relation for `j = 3`.
proof fn lemma_next_c1_3()
    ensures
        follows(frobenius_coeff_fq6_c1(3), frobenius_coeff_fq6_c1(1), frobenius_coeff_fq6_c1(4)),
{
    lemma_follows(
        Fq2Value {
            c0: 0x856e078b755ef0abaff1c77959f25ac805ffd3d5d6942d37b746ee87bdcfb6dint,
            c1: 0x4f1de41b3d1766fa9f30e6dec26094f0fdf31bf98ff2631380cab2baaa586deint,
        },
        Fq2Value {
            c0: 0x856e078b755ef0abaff1c77959f25ac805ffd3d5d6942d37b746ee87bdcfb6dint,
            c1: 0x2b7270312d6029ba0e5d3748955b4f0e87a238d1cf72a45c0413e0eb2dd77669int,
        },
        Fq2Value {
            c0: 0x2fb347984f7911f74c0bec3cf559b143b78cc310c2c3330c99e39557176f553dint,
            c1: 0x16c9e55061ebae204ba4cc8bd75a079432ae2a1d0b7c9dce1665d51c640fcba2int,
        },
        Fq2Value {
            c0: 0x59e26bcea0d48bacd4f263f1acdb5c4f5763473177fffffeint,
            c1: 0int,
        },
        (
            0x27a6e090a5da055397e82ac64a066cca254764eba4bccc961e7fd6a6ad07b162int,
            0x27a6e090a5da05533e05bef7a931e11d505500f9f7e17046c71c8f753507b164int,
            0x20a151716d0325bdc582acc21e5367c0f5d9e760d4fb80af49a137caa49fa988int,
            0xfc2fd01742e7a6bf2cd98f4632df09ca1a78330937649ddf27f544c33dd53bfint,
        ),
    );
}

/// The relation for `j = 4`.
proof fn lemma_next_c1_4()
    ensures
        follows(frobenius_coeff_fq6_c1(4), frobenius_coeff_fq6_c1(1), frobenius_coeff_fq6_c1(5)),
{
    lemma_follows(
        Fq2Value {
            c0: 0x59e26bcea0d48bacd4f263f1acdb5c4f5763473177fffffeint,
            c1: 0int,
        },
        Fq2Value {
            c0: 0x59e26bcea0d48bacd4f263f1acdb5c4f5763473177fffffeint,
            c1: 0int,
        },
        Fq2Value {
            c0: 0x2fb347984f7911f74c0bec3cf559b143b78cc310c2c3330c99e39557176f553dint,
            c1: 0x16c9e55061ebae204ba4cc8bd75a079432ae2a1d0b7c9dce1665d51c640fcba2int,
        },
        Fq2Value {
            c0: 0x28be74d4bb943f51699582b87809d9caf71614d4b0b71f3a62e913ee1dada9e4int,
            c1: 0x14a88ae0cb747b99c2b86abcbe01477a54f40eb4c3f6068dedae0bcec9c7aac7int,
        },
        (
            0x28be74d4bb943f51699582b87809d9caf71614d4b0b71f3a62e913ee1dada9e4int,
            0int,
            0x14a88ae0cb747b99c2b86abcbe01477a54f40eb4c3f6068dedae0bcec9c7aac7int,
            0int,
        ),
    );
}

/// The relation for `j = 5`.
proof fn lemma_next_c1_5()
    ensures
        follows(frobenius_coeff_fq6_c1(5), frobenius_coeff_fq6_c1(1), frobenius_coeff_fq6_c1(0)),
{
    lemma_follows(
        Fq2Value {
            c0: 0x28be74d4bb943f51699582b87809d9caf71614d4b0b71f3a62e913ee1dada9e4int,
            c1: 0x14a88ae0cb747b99c2b86abcbe01477a54f40eb4c3f6068dedae0bcec9c7aac7int,
        },
        Fq2Value {
            c0: 0x28be74d4bb943f51699582b87809d9caf71614d4b0b71f3a62e913ee1dada9e4int,
            c1: 0x1bbbc39215bd248ff597daf9c38010e3428d5bdca47bc3ff4e7280480eb55280int,
        },
        Fq2Value {
            c0: 0x2fb347984f7911f74c0bec3cf559b143b78cc310c2c3330c99e39557176f553dint,
            c1: 0x16c9e55061ebae204ba4cc8bd75a079432ae2a1d0b7c9dce1665d51c640fcba2int,
        },
        Fq2Value { c0: 1int, c1: 0int },
        (
            0x1e14ed6c797916ea690793571b99ce563eda39eb6f111b2c251d8f698aa476d7int,
            0x1e14ed6c797916ea690793571b99ce563eda39eb6f111b2c251d8f698aa476d6int,
            0x2a1d1c066161551e5b809e52c729bab11de6044cedf8b0b94e023cda25c49073int,
            0x647326c7fd04b0b5ccfa763ba579dac799b66447a7919d3ee1e4f3cb2b86cd4int,
        ),
    );
}

/// The coefficients of `v` in Fq6.
pub proof fn lemma_next_c1(j: int)
    requires
        0 <= j < 6,
    ensures
        follows(frobenius_coeff_fq6_c1(j), frobenius_coeff_fq6_c1(1), frobenius_coeff_fq6_c1((j + 1) % 6)),
{
    if j == 0 {
        lemma_next_c1_0();
    } else if j == 1 {
        lemma_next_c1_1();
    } else if j == 2 {
        lemma_next_c1_2();
    } else if j == 3 {
        lemma_next_c1_3();
    } else if j == 4 {
        lemma_next_c1_4();
    } else {
        lemma_next_c1_5();
    }
}

/// The relation for `j = 0`.
proof fn lemma_next_c2_0()
    ensures
        follows(frobenius_coeff_fq6_c2(0), frobenius_coeff_fq6_c2(1), frobenius_coeff_fq6_c2(1)),
{
    lemma_follows(
        Fq2Value { c0: 1int, c1: 0int },
        Fq2Value { c0: 1int, c1: 0int },
        Fq2Value {
            c0: 0x5b54f5e64eea80180f3c0b75a181e84d33365f7be94ec72848a1f55921ea762int,
            c1: 0x2c145edbe7fd8aee9f3a80b03b0b1c923685d2ea1bdec763c13b4711cd2b8126int,
        },
        Fq2Value {
            c0: 0x5b54f5e64eea80180f3c0b75a181e84d33365f7be94ec72848a1f55921ea762int,
            c1: 0x2c145edbe7fd8aee9f3a80b03b0b1c923685d2ea1bdec763c13b4711cd2b8126int,
        },
        (
            0x5b54f5e64eea80180f3c0b75a181e84d33365f7be94ec72848a1f55921ea762int,
            0int,
            0x2c145edbe7fd8aee9f3a80b03b0b1c923685d2ea1bdec763c13b4711cd2b8126int,
            0int,
        ),
    );
}

/// The relation for `j = 1`.
proof fn lemma_next_c2_1()
    ensures
        follows(frobenius_coeff_fq6_c2(1), frobenius_coeff_fq6_c2(1), frobenius_coeff_fq6_c2(2)),
{
    lemma_follows(
        Fq2Value {
            c0: 0x5b54f5e64eea80180f3c0b75a181e84d33365f7be94ec72848a1f55921ea762int,
            c1: 0x2c145edbe7fd8aee9f3a80b03b0b1c923685d2ea1bdec763c13b4711cd2b8126int,
        },
        Fq2Value {
            c0: 0x5b54f5e64eea80180f3c0b75a181e84d33365f7be94ec72848a1f55921ea762int,
            c1: 0x44fef96f934153b1915c50646763bcb60fb97a74c9303297ae545050b517c21int,
        },
        Fq2Value {
            c0: 0x5b54f5e64eea80180f3c0b75a181e84d33365f7be94ec72848a1f55921ea762int,
            c1: 0x2c145edbe7fd8aee9f3a80b03b0b1c923685d2ea1bdec763c13b4711cd2b8126int,
        },
        Fq2Value {
            c0: 0x59e26bcea0d48bacd4f263f1acdb5c4f5763473177fffffeint,
            c1: 0int,
        },
        (
            0xdf77d407777a6c35917e08a39e7621fb759fee0bc70c6319962552e07c2247eint,
            0xdf77d407777a6c2ff3574bb9912d672e2679aef0f9569e241ff0dfc8fc22480int,
            0x14a2768dcf9a455bde1ca0aa3d68ba02db5a3bb8a90b9e1ab1d491e2ab8edc45int,
            0x1bc1d7e511975acdda33a50c44189e5abc272ed8bf662c728a4bfa342cee2102int,
        ),
    );
}

/// The relation for `j = 2`.
proof fn lemma_next_c2_2()
    ensures
        follows(frobenius_coeff_fq6_c2(2), frobenius_coeff_fq6_c2(1), frobenius_coeff_fq6_c2(3)),
{
    lemma_follows(
        Fq2Value {
            c0: 0x59e26bcea0d48bacd4f263f1acdb5c4f5763473177fffffeint,
            c1: 0int,
        },
        Fq2Value {
            c0: 0x59e26bcea0d48bacd4f263f1acdb5c4f5763473177fffffeint,
            c1: 0int,
        },
        Fq2Value {
            c0: 0x5b54f5e64eea80180f3c0b75a181e84d33365f7be94ec72848a1f55921ea762int,
            c1: 0x2c145edbe7fd8aee9f3a80b03b0b1c923685d2ea1bdec763c13b4711cd2b8126int,
        },
        Fq2Value {
            c0: 0xbc58c6611c08dab19bee0f7b5b2444ee633094575b06bcb0e1a92bc3ccbf066int,
            c1: 0x23d5e999e1910a12feb0f6ef0cd21d04a44a9e08737f96e55fe3ed9d730c239fint,
        },
        (
            0xbc58c6611c08dab19bee0f7b5b2444ee633094575b06bcb0e1a92bc3ccbf066int,
            0int,
            0x23d5e999e1910a12feb0f6ef0cd21d04a44a9e08737f96e55fe3ed9d730c239fint,
            0int,
        ),
    );
}

/// The relation for `j = 3`.
proof fn lemma_next_c2_3()
    ensures
        follows(frobenius_coeff_fq6_c2(3), frobenius_coeff_fq6_c2(1), frobenius_coeff_fq6_c2(4)),
{
    lemma_follows(
        Fq2Value {
            c0: 0xbc58c6611c08dab19bee0f7b5b2444ee633094575b06bcb0e1a92bc3ccbf066int,
            c1: 0x23d5e999e1910a12feb0f6ef0cd21d04a44a9e08737f96e55fe3ed9d730c239fint,
        },
        Fq2Value {
            c0: 0xbc58c6611c08dab19bee0f7b5b2444ee633094575b06bcb0e1a92bc3ccbf066int,
            c1: 0xc8e64d8ffa09616b99f4ec774af3b58f336cc88f4f233a7dc3c9e796570d9a8int,
        },
        Fq2Value {
            c0: 0x5b54f5e64eea80180f3c0b75a181e84d33365f7be94ec72848a1f55921ea762int,
            c1: 0x2c145edbe7fd8aee9f3a80b03b0b1c923685d2ea1bdec763c13b4711cd2b8126int,
        },
        Fq2Value {
            c0: 0x30644e72e131a0295e6dd9e7e0acccb0c28f069fbb966e3de4bd44e5607cfd48int,
            c1: 0int,
        },
        (
            0x244e52b4ccb7eaf0550055b0509b1109b41d2af1fec72cb0d8d351fbecab4ef8int,
            0x244e52b4ccb7eaf0aee2c17ef16f9cb6890f8ee3aba289003036992d64ab4ef7int,
            0x244af847be3ea765e4605b4b2b00655761e90a0730c50cb47c7baa75529a7a40int,
            0xc19562b22f2f8c3d3efea6b5680f3063598608a37acbdd8bfa4e1a185e28307int,
        ),
    );
}

/// The relation for `j = 4`.
proof fn lemma_next_c2_4()
    ensures
        follows(frobenius_coeff_fq6_c2(4), frobenius_coeff_fq6_c2(1), frobenius_coeff_fq6_c2(5)),
{
    lemma_follows(
        Fq2Value {
            c0: 0x30644e72e131a0295e6dd9e7e0acccb0c28f069fbb966e3de4bd44e5607cfd48int,
            c1: 0int,
        },
        Fq2Value {
            c0: 0x30644e72e131a0295e6dd9e7e0acccb0c28f069fbb966e3de4bd44e5607cfd48int,
            c1: 0int,
        },
        Fq2Value {
            c0: 0x5b54f5e64eea80180f3c0b75a181e84d33365f7be94ec72848a1f55921ea762int,
            c1: 0x2c145edbe7fd8aee9f3a80b03b0b1c923685d2ea1bdec763c13b4711cd2b8126int,
        },
        Fq2Value {
            c0: 0x1ee972ae6a826a7d1d9da40771b6f589de1afb54342c724fa97bda050992657fint,
            c1: 0x10de546ff8d4ab51d2b513cdbb25772454326430418536d15721e37e70c255c9int,
        },
        (
            0x1ee972ae6a826a7d1d9da40771b6f589de1afb54342c724fa97bda050992657fint,
            0int,
            0x10de546ff8d4ab51d2b513cdbb25772454326430418536d15721e37e70c255c9int,
            0int,
        ),
    );
}

/// The relation for `j = 5`.
proof fn lemma_next_c2_5()
    ensures
        follows(frobenius_coeff_fq6_c2(5), frobenius_coeff_fq6_c2(1), frobenius_coeff_fq6_c2(0)),
{
    lemma_follows(
        Fq2Value {
            c0: 0x1ee972ae6a826a7d1d9da40771b6f589de1afb54342c724fa97bda050992657fint,
            c1: 0x10de546ff8d4ab51d2b513cdbb25772454326430418536d15721e37e70c255c9int,
        },
        Fq2Value {
            c0: 0x1ee972ae6a826a7d1d9da40771b6f589de1afb54342c724fa97bda050992657fint,
            c1: 0x1f85fa02e85cf4d7e59b31e8c65be139434f066126ec93bbe4fea89867baa77eint,
        },
        Fq2Value {
            c0: 0x5b54f5e64eea80180f3c0b75a181e84d33365f7be94ec72848a1f55921ea762int,
            c1: 0x2c145edbe7fd8aee9f3a80b03b0b1c923685d2ea1bdec763c13b4711cd2b8126int,
        },
        Fq2Value { c0: 1int, c1: 0int },
        (
            0x2e82ccf07e33ae9fc288553278803d91c38bab5015aba238060b7103bc8c8718int,
            0x2e82ccf07e33ae9fc288553278803d91c38bab5015aba238060b7103bc8c8717int,
            0x27db2e10348a5391ae238f779a999160f1bf8f62f712ea4b49f0dbd5b2d0a409int,
            0x8892062aca74c980a2cb63ee6e7c6fca5c1db2e715ee041f22fb04125ac593eint,
        ),
    );
}

/// The coefficients of `v^2` in Fq6.
pub proof fn lemma_next_c2(j: int)
    requires
        0 <= j < 6,
    ensures
        follows(frobenius_coeff_fq6_c2(j), frobenius_coeff_fq6_c2(1), frobenius_coeff_fq6_c2((j + 1) % 6)),
{
    if j == 0 {
        lemma_next_c2_0();
    } else if j == 1 {
        lemma_next_c2_1();
    } else if j == 2 {
        lemma_next_c2_2();
    } else if j == 3 {
        lemma_next_c2_3();
    } else if j == 4 {
        lemma_next_c2_4();
    } else {
        lemma_next_c2_5();
    }
}

/// The relation for `j = 0`.
proof fn lemma_next_c12_0()
    ensures
        follows(frobenius_coeff_fq12_c1(0), frobenius_coeff_fq12_c1(1), frobenius_coeff_fq12_c1(1)),
{
    lemma_follows(
        Fq2Value { c0: 1int, c1: 0int },
        Fq2Value { c0: 1int, c1: 0int },
        Fq2Value {
            c0: 0x1284b71c2865a7dfe8b99fdd76e68b605c521e08292f2176d60b35dadcc9e470int,
            c1: 0x246996f3b4fae7e6a6327cfe12150b8e747992778eeec7e5ca5cf05f80f362acint,
        },
        Fq2Value {
            c0: 0x1284b71c2865a7dfe8b99fdd76e68b605c521e08292f2176d60b35dadcc9e470int,
            c1: 0x246996f3b4fae7e6a6327cfe12150b8e747992778eeec7e5ca5cf05f80f362acint,
        },
        (
            0x1284b71c2865a7dfe8b99fdd76e68b605c521e08292f2176d60b35dadcc9e470int,
            0int,
            0x246996f3b4fae7e6a6327cfe12150b8e747992778eeec7e5ca5cf05f80f362acint,
            0int,
        ),
    );
}

/// The relation for `j = 1`.
proof fn lemma_next_c12_1()
    ensures
        follows(frobenius_coeff_fq12_c1(1), frobenius_coeff_fq12_c1(1), frobenius_coeff_fq12_c1(2)),
{
    lemma_follows(
        Fq2Value {
            c0: 0x1284b71c2865a7dfe8b99fdd76e68b605c521e08292f2176d60b35dadcc9e470int,
            c1: 0x246996f3b4fae7e6a6327cfe12150b8e747992778eeec7e5ca5cf05f80f362acint,
        },
        Fq2Value {
            c0: 0x1284b71c2865a7dfe8b99fdd76e68b605c521e08292f2176d60b35dadcc9e470int,
            c1: 0xbfab77f2c36b843121dc8b86f6c4ccf2307d819d98302a771c39bb757899a9bint,
        },
        Fq2Value {
            c0: 0x1284b71c2865a7dfe8b99fdd76e68b605c521e08292f2176d60b35dadcc9e470int,
            c1: 0x246996f3b4fae7e6a6327cfe12150b8e747992778eeec7e5ca5cf05f80f362acint,
        },
        Fq2Value {
            c0: 0x30644e72e131a0295e6dd9e7e0acccb0c28f069fbb966e3de4bd44e5607cfd49int,
            c1: 0int,
        },
        (
            0x300bcb0598555910553ce3126b033efa3d0de4d83f2cd0a53f506d1e3bf62943int,
            0x300bcb0598555910af1f4ee10bd7caa7120048c9ec082cf496b3b44fb3f62941int,
            0xb64f2a830f5d71025d26645ebad03ca1957150e85be4ee70b32ea8e3207e5d1int,
            0x24ff5bcab03bc919927ddf7095d454937e2a5582e2b37ba630eda188a6751776int,
        ),
    );
}

/// The relation for `j = 2`.
proof fn lemma_next_c12_2()
    ensures
        follows(frobenius_coeff_fq12_c1(2), frobenius_coeff_fq12_c1(1), frobenius_coeff_fq12_c1(3)),
{
    lemma_follows(
        Fq2Value {
            c0: 0x30644e72e131a0295e6dd9e7e0acccb0c28f069fbb966e3de4bd44e5607cfd49int,
            c1: 0int,
        },
        Fq2Value {
            c0: 0x30644e72e131a0295e6dd9e7e0acccb0c28f069fbb966e3de4bd44e5607cfd49int,
            c1: 0int,
        },
        Fq2Value {
            c0: 0x1284b71c2865a7dfe8b99fdd76e68b605c521e08292f2176d60b35dadcc9e470int,
            c1: 0x246996f3b4fae7e6a6327cfe12150b8e747992778eeec7e5ca5cf05f80f362acint,
        },
        Fq2Value {
            c0: 0x19dc81cfcc82e4bbefe9608cd0acaa90894cb38dbe55d24ae86f7d391ed4a67fint,
            c1: 0xabf8b60be77d7306cbeee33576139d7f03a5e397d439ec7694aa2bf4c0c101int,
        },
        (
            0x19dc81cfcc82e4bbefe9608cd0acaa90894cb38dbe55d24ae86f7d391ed4a67fint,
            0int,
            0xabf8b60be77d7306cbeee33576139d7f03a5e397d439ec7694aa2bf4c0c101int,
            0int,
        ),
    );
}

/// The relation for `j = 3`.
proof fn lemma_next_c12_3()
    ensures
        follows(frobenius_coeff_fq12_c1(3), frobenius_coeff_fq12_c1(1), frobenius_coeff_fq12_c1(4)),
{
    lemma_follows(
        Fq2Value {
            c0: 0x19dc81cfcc82e4bbefe9608cd0acaa90894cb38dbe55d24ae86f7d391ed4a67fint,
            c1: 0xabf8b60be77d7306cbeee33576139d7f03a5e397d439ec7694aa2bf4c0c101int,
        },
        Fq2Value {
            c0: 0x19dc81cfcc82e4bbefe9608cd0acaa90894cb38dbe55d24ae86f7d391ed4a67fint,
            c1: 0x2fb855bcd54a22b6b18456d34c0b44c0187dc4add09d90a0c58be1eae3bc3c46int,
        },
        Fq2Value {
            c0: 0x1284b71c2865a7dfe8b99fdd76e68b605c521e08292f2176d60b35dadcc9e470int,
            c1: 0x246996f3b4fae7e6a6327cfe12150b8e747992778eeec7e5ca5cf05f80f362acint,
        },
        Fq2Value {
            c0: 0x30644e72e131a0295e6dd9e7e0acccb0c28f069fbb966e3de4bd44e5607cfd48int,
            c1: 0int,
        },
        (
            0x3d2eccf12ceb06bfa6c2b97b4517972e5bc78e5856fa781c0ea187ba167a9b2int,
            0x3d2eccf12ceb06c544e97665526051fbaaedcd7324b03d1184d5fad1967a9b1int,
            0xddde1c90ade9247facbed7ce1c00871a146adee523de1ffa7394024075aa940int,
            0x22866ca9d6530de1bd8458399fc14febf63abca31633e88d94e74bf2d1225407int,
        ),
    );
}

/// The relation for `j = 4`.
proof fn lemma_next_c12_4()
    ensures
        follows(frobenius_coeff_fq12_c1(4), frobenius_coeff_fq12_c1(1), frobenius_coeff_fq12_c1(5)),
{
    lemma_follows(
        Fq2Value {
            c0: 0x30644e72e131a0295e6dd9e7e0acccb0c28f069fbb966e3de4bd44e5607cfd48int,
            c1: 0int,
        },
        Fq2Value {
            c0: 0x30644e72e131a0295e6dd9e7e0acccb0c28f069fbb966e3de4bd44e5607cfd48int,
            c1: 0int,
        },
        Fq2Value {
            c0: 0x1284b71c2865a7dfe8b99fdd76e68b605c521e08292f2176d60b35dadcc9e470int,
            c1: 0x246996f3b4fae7e6a6327cfe12150b8e747992778eeec7e5ca5cf05f80f362acint,
        },
        Fq2Value {
            c0: 0x757cab3a41d3cdc072fc0af59c61f302cfa95859526b0d41264475e420ac20fint,
            c1: 0xca6b035381e35b618e9b79ba4e2606ca20b7dfd71573c93e85845e34c4a5b9cint,
        },
        (
            0x757cab3a41d3cdc072fc0af59c61f302cfa95859526b0d41264475e420ac20fint,
            0int,
            0xca6b035381e35b618e9b79ba4e2606ca20b7dfd71573c93e85845e34c4a5b9cint,
            0int,
        ),
    );
}

/// The relation for `j = 5`.
proof fn lemma_next_c12_5()
    ensures
        follows(frobenius_coeff_fq12_c1(5), frobenius_coeff_fq12_c1(1), frobenius_coeff_fq12_c1(6)),
{
    lemma_follows(
        Fq2Value {
            c0: 0x757cab3a41d3cdc072fc0af59c61f302cfa95859526b0d41264475e420ac20fint,
            c1: 0xca6b035381e35b618e9b79ba4e2606ca20b7dfd71573c93e85845e34c4a5b9cint,
        },
        Fq2Value {
            c0: 0x757cab3a41d3cdc072fc0af59c61f302cfa95859526b0d41264475e420ac20fint,
            c1: 0x23bd9e3da9136a739f668e1adc9ef7f0f575ec93f71a8df953c846338c32a1abint,
        },
        Fq2Value {
            c0: 0x1284b71c2865a7dfe8b99fdd76e68b605c521e08292f2176d60b35dadcc9e470int,
            c1: 0x246996f3b4fae7e6a6327cfe12150b8e747992778eeec7e5ca5cf05f80f362acint,
        },
        Fq2Value {
            c0: 0x30644e72e131a029b85045b68181585d97816a916871ca8d3c208c16d87cfd46int,
            c1: 0int,
        },
        (
            0x42b703c5baaf7855d7f8e3bcacf92d6402ffe9eaeb4a169bdba37743dee7db6int,
            0x42b703c5baaf7855d7f8e3bcacf92d6402ffe9eaeb4a169bdba37743dee7db7int,
            0x278ef20d9e8bb37d4f98736f61304a787ef98dfcc7f93189c065595d552c36fint,
            0x2deb5f520748e4f1e356be7f8b6e53b60f91d1b19bf23774a01a3681032a39d8int,
        ),
    );
}

/// The relation for `j = 6`.
proof fn lemma_next_c12_6()
    ensures
        follows(frobenius_coeff_fq12_c1(6), frobenius_coeff_fq12_c1(1), frobenius_coeff_fq12_c1(7)),
{
    lemma_follows(
        Fq2Value {
            c0: 0x30644e72e131a029b85045b68181585d97816a916871ca8d3c208c16d87cfd46int,
            c1: 0int,
        },
        Fq2Value {
            c0: 0x30644e72e131a029b85045b68181585d97816a916871ca8d3c208c16d87cfd46int,
            c1: 0int,
        },
        Fq2Value {
            c0: 0x1284b71c2865a7dfe8b99fdd76e68b605c521e08292f2176d60b35dadcc9e470int,
            c1: 0x246996f3b4fae7e6a6327cfe12150b8e747992778eeec7e5ca5cf05f80f362acint,
        },
        Fq2Value {
            c0: 0x1ddf9756b8cbf849cf96a5d90a9accfd3b2f4c893f42a9166615563bfbb318d7int,
            c1: 0xbfab77f2c36b843121dc8b86f6c4ccf2307d819d98302a771c39bb757899a9bint,
        },
        (
            0x1ddf9756b8cbf849cf96a5d90a9accfd3b2f4c893f42a9166615563bfbb318d7int,
            0int,
            0xbfab77f2c36b843121dc8b86f6c4ccf2307d819d98302a771c39bb757899a9bint,
            0int,
        ),
    );
}

/// The relation for `j = 7`.
proof fn lemma_next_c12_7()
    ensures
        follows(frobenius_coeff_fq12_c1(7), frobenius_coeff_fq12_c1(1), frobenius_coeff_fq12_c1(8)),
{
    lemma_follows(
        Fq2Value {
            c0: 0x1ddf9756b8cbf849cf96a5d90a9accfd3b2f4c893f42a9166615563bfbb318d7int,
            c1: 0xbfab77f2c36b843121dc8b86f6c4ccf2307d819d98302a771c39bb757899a9bint,
        },
        Fq2Value {
            c0: 0x1ddf9756b8cbf849cf96a5d90a9accfd3b2f4c893f42a9166615563bfbb318d7int,
            c1: 0x246996f3b4fae7e6a6327cfe12150b8e747992778eeec7e5ca5cf05f80f362acint,
        },
        Fq2Value {
            c0: 0x1284b71c2865a7dfe8b99fdd76e68b605c521e08292f2176d60b35dadcc9e470int,
            c1: 0x246996f3b4fae7e6a6327cfe12150b8e747992778eeec7e5ca5cf05f80f362acint,
        },
        Fq2Value {
            c0: 0x59e26bcea0d48bacd4f263f1acdb5c4f5763473177fffffeint,
            c1: 0int,
        },
        (
            0x58836d48dc4719631362a4167e19635a7385b92944f9e7fcd01ef89c86d404int,
            0x58836d48dc47190930f6d575a98db6858121c77c699d98a56cd7c72486d406int,
            0x24ff5bcab03bc919927ddf7095d454937e2a5582e2b37ba630eda188a6751776int,
            0xb64f2a830f5d71025d26645ebad03ca1957150e85be4ee70b32ea8e3207e5d1int,
        ),
    );
}

/// The relation for `j = 8`.
proof fn lemma_next_c12_8()
    ensures
        follows(frobenius_coeff_fq12_c1(8), frobenius_coeff_fq12_c1(1), frobenius_coeff_fq12_c1(9)),
{
    lemma_follows(
        Fq2Value {
            c0: 0x59e26bcea0d48bacd4f263f1acdb5c4f5763473177fffffeint,
            c1: 0int,
        },
        Fq2Value {
            c0: 0x59e26bcea0d48bacd4f263f1acdb5c4f5763473177fffffeint,
            c1: 0int,
        },
        Fq2Value {
            c0: 0x1284b71c2865a7dfe8b99fdd76e68b605c521e08292f2176d60b35dadcc9e470int,
            c1: 0x246996f3b4fae7e6a6327cfe12150b8e747992778eeec7e5ca5cf05f80f362acint,
        },
        Fq2Value {
            c0: 0x1687cca314aebb6dc866e529b0d4adcd0e34b703aa1bf84253b10eddb9a856c8int,
            c1: 0x2fb855bcd54a22b6b18456d34c0b44c0187dc4add09d90a0c58be1eae3bc3c46int,
        },
        (
            0x1687cca314aebb6dc866e529b0d4adcd0e34b703aa1bf84253b10eddb9a856c8int,
            0int,
            0x2fb855bcd54a22b6b18456d34c0b44c0187dc4add09d90a0c58be1eae3bc3c46int,
            0int,
        ),
    );
}

/// The relation for `j = 9`.
proof fn lemma_next_c12_9()
    ensures
        follows(frobenius_coeff_fq12_c1(9), frobenius_coeff_fq12_c1(1), frobenius_coeff_fq12_c1(10)),
{
    lemma_follows(
        Fq2Value {
            c0: 0x1687cca314aebb6dc866e529b0d4adcd0e34b703aa1bf84253b10eddb9a856c8int,
            c1: 0x2fb855bcd54a22b6b18456d34c0b44c0187dc4add09d90a0c58be1eae3bc3c46int,
        },
        Fq2Value {
            c0: 0x1687cca314aebb6dc866e529b0d4adcd0e34b703aa1bf84253b10eddb9a856c8int,
            c1: 0xabf8b60be77d7306cbeee33576139d7f03a5e397d439ec7694aa2bf4c0c101int,
        },
        Fq2Value {
            c0: 0x1284b71c2865a7dfe8b99fdd76e68b605c521e08292f2176d60b35dadcc9e470int,
            c1: 0x246996f3b4fae7e6a6327cfe12150b8e747992778eeec7e5ca5cf05f80f362acint,
        },
        Fq2Value {
            c0: 0x59e26bcea0d48bacd4f263f1acdb5c4f5763473177ffffffint,
            c1: 0int,
        },
        (
            0x2c9161a3ce62efbdbde41a1ecd2fdeeab1c4f1abe302230b7b36739b37155395int,
            0x2c9161a3ce62efbd6401ae502c5b533ddcd28dba3626c6bc23d32c69bf155396int,
            0x22866ca9d6530de1bd8458399fc14febf63abca31633e88d94e74bf2d1225407int,
            0xddde1c90ade9247facbed7ce1c00871a146adee523de1ffa7394024075aa940int,
        ),
    );
}

/// The relation for `j = 10`.
proof fn lemma_next_c12_10()
    ensures
        follows(frobenius_coeff_fq12_c1(10), frobenius_coeff_fq12_c1(1), frobenius_coeff_fq12_c1(11)),
{
    lemma_follows(
        Fq2Value {
            c0: 0x59e26bcea0d48bacd4f263f1acdb5c4f5763473177ffffffint,
            c1: 0int,
        },
        Fq2Value {
            c0: 0x59e26bcea0d48bacd4f263f1acdb5c4f5763473177ffffffint,
            c1: 0int,
        },
        Fq2Value {
            c0: 0x1284b71c2865a7dfe8b99fdd76e68b605c521e08292f2176d60b35dadcc9e470int,
            c1: 0x246996f3b4fae7e6a6327cfe12150b8e747992778eeec7e5ca5cf05f80f362acint,
        },
        Fq2Value {
            c0: 0x290c83bf3d14634db120850727bb392d6a86d50bd34b19b929bc44b896723b38int,
            c1: 0x23bd9e3da9136a739f668e1adc9ef7f0f575ec93f71a8df953c846338c32a1abint,
        },
        (
            0x290c83bf3d14634db120850727bb392d6a86d50bd34b19b929bc44b896723b38int,
            0int,
            0x23bd9e3da9136a739f668e1adc9ef7f0f575ec93f71a8df953c846338c32a1abint,
            0int,
        ),
    );
}

/// The relation for `j = 11`.
proof fn lemma_next_c12_11()
    ensures
        follows(frobenius_coeff_fq12_c1(11), frobenius_coeff_fq12_c1(1), frobenius_coeff_fq12_c1(0)),
{
    lemma_follows(
        Fq2Value {
            c0: 0x290c83bf3d14634db120850727bb392d6a86d50bd34b19b929bc44b896723b38int,
            c1: 0x23bd9e3da9136a739f668e1adc9ef7f0f575ec93f71a8df953c846338c32a1abint,
        },
        Fq2Value {
            c0: 0x290c83bf3d14634db120850727bb392d6a86d50bd34b19b929bc44b896723b38int,
            c1: 0xca6b035381e35b618e9b79ba4e2606ca20b7dfd71573c93e85845e34c4a5b9cint,
        },
        Fq2Value {
            c0: 0x1284b71c2865a7dfe8b99fdd76e68b605c521e08292f2176d60b35dadcc9e470int,
            c1: 0x246996f3b4fae7e6a6327cfe12150b8e747992778eeec7e5ca5cf05f80f362acint,
        },
        Fq2Value { c0: 1int, c1: 0int },
        (
            0x2c38de368586a8a45ad0b77ab6b1c58757516bf2b9bd29237e6654a29a8e7f91int,
            0x2c38de368586a8a45ad0b77ab6b1c58757516bf2b9bd29237e6654a29a8e7f90int,
            0x2deb5f520748e4f1e356be7f8b6e53b60f91d1b19bf23774a01a3681032a39d8int,
            0x278ef20d9e8bb37d4f98736f61304a787ef98dfcc7f93189c065595d552c36fint,
        ),
    );
}

/// The coefficients of `w` in Fq12.
pub proof fn lemma_next_c12(j: int)
    requires
        0 <= j < 12,
    ensures
        follows(frobenius_coeff_fq12_c1(j), frobenius_coeff_fq12_c1(1), frobenius_coeff_fq12_c1((j + 1) % 12)),
{
    if j == 0 {
        lemma_next_c12_0();
    } else if j == 1 {
        lemma_next_c12_1();
    } else if j == 2 {
        lemma_next_c12_2();
    } else if j == 3 {
        lemma_next_c12_3();
    } else if j == 4 {
        lemma_next_c12_4();
    } else if j == 5 {
        lemma_next_c12_5();
    } else if j == 6 {
        lemma_next_c12_6();
    } else if j == 7 {
        lemma_next_c12_7();
    } else if j == 8 {
        lemma_next_c12_8();
    } else if j == 9 {
        lemma_next_c12_9();
    } else if j == 10 {
        lemma_next_c12_10();
    } else {
        lemma_next_c12_11();
    }
}

} // verus!
