//! The exponent of the final exponentiation: the easy part raises to the
//! power `(q^6 - 1)(q^2 + 1)`, the hard part to a power that is
//! `(q^4 - q^2 + 1) / r` up to a multiple of `q^4 - q^2 + 1`, so that the
//! whole is the power `(q^12 - 1) / r`.

use crate::model::base::q;
use crate::params::BN_X;
use vstd::arithmetic::power::pow;
use vstd::prelude::*;

verus! {

/// `q^k` as a natural number.
pub open spec fn q_power(k: nat) -> nat {
    pow(q(), k) as nat
}

/// The exponent of the easy part: `(q^6 - 1)(q^2 + 1)`.
pub open spec fn easy_exponent() -> nat {
    ((q_power(6) - 1) * (q_power(2) + 1)) as nat
}

/// The exponent of the hard part, as its steps put it together, with the
/// conjugation as the power `q^6`.
pub open spec fn hard_exponent() -> nat {
    let u = BN_X as nat;
    let q1 = q_power(1);
    let q2 = q_power(2);
    let q6 = q_power(6);
    let fu = u;
    let fu2 = fu * u;
    let fu3 = fu2 * u;
    let y3 = (fu * q1) * q6;
    let fu2p = fu2 * q1;
    let fu3p = fu3 * q1;
    let y2 = fu2 * q2;
    let fp3 = q2 * q1;
    let y0 = q1 + q2 + fp3;
    let y5 = fu2 * q6;
    let y4 = (fu + fu2p) * q6;
    let yx = (fu3 + fu3p) * q6;
    let y6 = 2 * yx + y4 + y5;
    let t1 = y3 + y5 + y6;
    let y7 = y6 + y2;
    let ts = 2 * (2 * t1 + y7);
    let t0 = ts + q6;
    let tt = ts + y0;
    2 * t0 + tt
}

/// The order `r` of the groups of the pairing.
pub open spec fn group_order() -> nat {
    0x30644e72e131a029b85045b68181585d2833e84879b9709143e1f593f0000001nat
}

/// The exponent of the final exponentiation: `(q^12 - 1) / r`.
pub open spec fn final_exponent() -> nat {
    0x2f4b6dc97020fddadf107d20bc842d43bf6369b1ff6a1c71015f3f7be2e1e30a73bb94fec0daf15466b2383a5d3ec3d15ad524d8f70c54efee1bd8c3b21377e563a09a1b705887e72eceaddea3790364a61f676baaf977870e88d5c6c8fef0781361e443ae77f5b63a2a2264487f2940a8b1ddb3d15062cd0fb2015dfc6668449aed3cc48a82d0d602d268c7daab6a41294c0cc4ebe5664568dfc50e1648a45a4a1e3a5195846a3ed011a337a02088ec80e0ebae8755cfe107acf3aafb40494e406f804216bb10cf430b0f37856b42db8dc5514724ee93dfb10826f0dd4a0364b9580291d2cd65664814fde37ca80bb4ea44eacc5e641bbadf423f9a2cbf813b8d145da90029baee7ddadda71c7f3811c4105262945bba1668c3be69a3c230974d83561841d766f9c9d570bb7fbe04c7e8a6c3c760c0de81def35692da361102b6b9b2b918837fa97896e84abb40a4efb7e54523a486964b64ca86f120nat
}

/// How often `q^12 - 1` goes into the product of the exponents of the two
/// parts.
pub open spec fn surplus() -> nat {
    0x136d98c5e53969549b30d1e3a7406297b70dbc5385f7255be5f484a9330cdaa0c32032afe924369668ace1517bb4d54d2beb35f9ff3184782677ae70f1056eaabfccdd7aff03b54d928275d905e7b59d54dd3c658d2e746d5e228a2c13b600acb810e1320eb06f697afb9ea4e4253458da5570348391448nat
}

/// The powers of `q`.
pub proof fn lemma_q_powers()
    ensures
        q_power(1) == 0x30644e72e131a029b85045b68181585d97816a916871ca8d3c208c16d87cfd47nat,
        q_power(2) == 0x925c4b8763cbf9c599a6f7c0348d21cb00b85511637560626edfa5c34c6b38d04689e957a1242c84a50189c6d96cadca602072d09eac1013b5458a2275d69b1nat,
        q_power(6) == 0x2fd70ffd469f22a255aea70a6ec3af1f18061c3d3019453500facde502233d9df3dc41c5830ecea5ef61762dd07aa2ee8ac393e1f970864ed3d397a42c302aebe67f05f148be14661aaf35ddfdf5c7e1c1d370decdf2128ec557b543fe50a1e1342fb2628372f294d13656f6eb1608005dfa955bf9647ae01ee1f7c6ee6576cc7afd0826c9a44a0903665952d6b925408128686d835cbdd0e6a4e64b8148fd65418b4cf130588725d28e938e58016bda8be6dec90ce20f4e90a2716e3f811nat,
        q_power(12) == 0x8f0ac8adc5ab6df1836f1770c2cc29793fa9c753a7f447128e8041da44bf43f7f5933d90dc1e6c4bcfeaa38d34db41b22a5b9ba9f1046ab2684b00eb6380fdb292b696a8d4dacf90e8e139c69d2ccf14141d6f9a0b8ec71a82a5fa88811cbb900dad55c8dc90efb9439cba604e5ff67475f1f3adda523759e261408ac219b8a10ddbe11231a7aa25767c1cec5eaa7a4a16d1a05dccc2713bf84c279d91ce1c9500aa55b90382ee9c8e530232f0b409dd086eac626c93a85ccb6522fbadd600ba556c2761cb5914d60d8b15012abade6714d68aa10fbb3d91be7b7ff4927a80e4dbd46d78ca4e3b439782980469a6bdf0be72b9bb639b9e7c33466ebc5faffdcd3e420af5f04f734402c7e9c876acc85ff3050d845bf03a7eac45865ca5954b6865c929f152092f07caae3590d00ffb72d2b1bd509149dda742c67f3ebdddc3cd5778ab175e967b77365acbfb6bde30ec3ac19e53a5d1390d0ad44cde3db3f4157d4f4c1a623c5b159f8e334f741bf0e6b068aafdbc1d4e2d2ca86f121nat,
{
    let n = q();
    vstd::arithmetic::power::lemma_pow1(n);
    vstd::arithmetic::power::lemma_pow_adds(n, 1, 1);
    vstd::arithmetic::power::lemma_pow_adds(n, 2, 1);
    vstd::arithmetic::power::lemma_pow_adds(n, 3, 3);
    vstd::arithmetic::power::lemma_pow_adds(n, 6, 6);
    assert(pow(n, 1) == 0x30644e72e131a029b85045b68181585d97816a916871ca8d3c208c16d87cfd47int);
    assert(0x30644e72e131a029b85045b68181585d97816a916871ca8d3c208c16d87cfd47int * 0x30644e72e131a029b85045b68181585d97816a916871ca8d3c208c16d87cfd47int == 0x925c4b8763cbf9c599a6f7c0348d21cb00b85511637560626edfa5c34c6b38d04689e957a1242c84a50189c6d96cadca602072d09eac1013b5458a2275d69b1int);
    assert(pow(n, 2) == 0x925c4b8763cbf9c599a6f7c0348d21cb00b85511637560626edfa5c34c6b38d04689e957a1242c84a50189c6d96cadca602072d09eac1013b5458a2275d69b1int);
    assert(0x925c4b8763cbf9c599a6f7c0348d21cb00b85511637560626edfa5c34c6b38d04689e957a1242c84a50189c6d96cadca602072d09eac1013b5458a2275d69b1int * 0x30644e72e131a029b85045b68181585d97816a916871ca8d3c208c16d87cfd47int == 0x1baaa710b0759ad331ec15183177faf68148fd2e5e487f1c2421c372dee2ddce66b93cd82baed12052190e7055930e66f109f0d7daa46749f7c3a768bcabfe1bf9f92e991d982cf433677e3c56733c20972118389b2a303b9b29982c6183d17int);
    assert(pow(n, 3) == 0x1baaa710b0759ad331ec15183177faf68148fd2e5e487f1c2421c372dee2ddce66b93cd82baed12052190e7055930e66f109f0d7daa46749f7c3a768bcabfe1bf9f92e991d982cf433677e3c56733c20972118389b2a303b9b29982c6183d17int);
    assert(0x1baaa710b0759ad331ec15183177faf68148fd2e5e487f1c2421c372dee2ddce66b93cd82baed12052190e7055930e66f109f0d7daa46749f7c3a768bcabfe1bf9f92e991d982cf433677e3c56733c20972118389b2a303b9b29982c6183d17int * 0x1baaa710b0759ad331ec15183177faf68148fd2e5e487f1c2421c372dee2ddce66b93cd82baed12052190e7055930e66f109f0d7daa46749f7c3a768bcabfe1bf9f92e991d982cf433677e3c56733c20972118389b2a303b9b29982c6183d17int == 0x2fd70ffd469f22a255aea70a6ec3af1f18061c3d3019453500facde502233d9df3dc41c5830ecea5ef61762dd07aa2ee8ac393e1f970864ed3d397a42c302aebe67f05f148be14661aaf35ddfdf5c7e1c1d370decdf2128ec557b543fe50a1e1342fb2628372f294d13656f6eb1608005dfa955bf9647ae01ee1f7c6ee6576cc7afd0826c9a44a0903665952d6b925408128686d835cbdd0e6a4e64b8148fd65418b4cf130588725d28e938e58016bda8be6dec90ce20f4e90a2716e3f811int);
    assert(pow(n, 6) == 0x2fd70ffd469f22a255aea70a6ec3af1f18061c3d3019453500facde502233d9df3dc41c5830ecea5ef61762dd07aa2ee8ac393e1f970864ed3d397a42c302aebe67f05f148be14661aaf35ddfdf5c7e1c1d370decdf2128ec557b543fe50a1e1342fb2628372f294d13656f6eb1608005dfa955bf9647ae01ee1f7c6ee6576cc7afd0826c9a44a0903665952d6b925408128686d835cbdd0e6a4e64b8148fd65418b4cf130588725d28e938e58016bda8be6dec90ce20f4e90a2716e3f811int);
    assert(0x2fd70ffd469f22a255aea70a6ec3af1f18061c3d3019453500facde502233d9df3dc41c5830ecea5ef61762dd07aa2ee8ac393e1f970864ed3d397a42c302aebe67f05f148be14661aaf35ddfdf5c7e1c1d370decdf2128ec557b543fe50a1e1342fb2628372f294d13656f6eb1608005dfa955bf9647ae01ee1f7c6ee6576cc7afd0826c9a44a0903665952d6b925408128686d835cbdd0e6a4e64b8148fd65418b4cf130588725d28e938e58016bda8be6dec90ce20f4e90a2716e3f811int * 0x2fd70ffd469f22a255aea70a6ec3af1f18061c3d3019453500facde502233d9df3dc41c5830ecea5ef61762dd07aa2ee8ac393e1f970864ed3d397a42c302aebe67f05f148be14661aaf35ddfdf5c7e1c1d370decdf2128ec557b543fe50a1e1342fb2628372f294d13656f6eb1608005dfa955bf9647ae01ee1f7c6ee6576cc7afd0826c9a44a0903665952d6b925408128686d835cbdd0e6a4e64b8148fd65418b4cf130588725d28e938e58016bda8be6dec90ce20f4e90a2716e3f811int == 0x8f0ac8adc5ab6df1836f1770c2cc29793fa9c753a7f447128e8041da44bf43f7f5933d90dc1e6c4bcfeaa38d34db41b22a5b9ba9f1046ab2684b00eb6380fdb292b696a8d4dacf90e8e139c69d2ccf14141d6f9a0b8ec71a82a5fa88811cbb900dad55c8dc90efb9439cba604e5ff67475f1f3adda523759e261408ac219b8a10ddbe11231a7aa25767c1cec5eaa7a4a16d1a05dccc2713bf84c279d91ce1c9500aa55b90382ee9c8e530232f0b409dd086eac626c93a85ccb6522fbadd600ba556c2761cb5914d60d8b15012abade6714d68aa10fbb3d91be7b7ff4927a80e4dbd46d78ca4e3b439782980469a6bdf0be72b9bb639b9e7c33466ebc5faffdcd3e420af5f04f734402c7e9c876acc85ff3050d845bf03a7eac45865ca5954b6865c929f152092f07caae3590d00ffb72d2b1bd509149dda742c67f3ebdddc3cd5778ab175e967b77365acbfb6bde30ec3ac19e53a5d1390d0ad44cde3db3f4157d4f4c1a623c5b159f8e334f741bf0e6b068aafdbc1d4e2d2ca86f121int);
}

/// The exponents of the two parts multiply to `(q^12 - 1) / r` and a
/// multiple of `q^12 - 1`, and `r` times `(q^12 - 1) / r` is `q^12 - 1`.
pub proof fn lemma_exponents()
    ensures
        easy_exponent() * hard_exponent() == surplus() * (q_power(12) - 1) + final_exponent(),
        group_order() * final_exponent() == q_power(12) - 1,
        q_power(12) > 1,
{
    lemma_q_powers();
    let u = BN_X as nat;
    let q1 = q_power(1);
    let q2 = q_power(2);
    let q6 = q_power(6);
    let fu = u;
    assert(0x44e992b44a6909f1nat == 0x44e992b44a6909f1nat);
    assert(fu == 0x44e992b44a6909f1nat);
    let fu2 = fu * u;
    assert(0x44e992b44a6909f1nat * 0x44e992b44a6909f1nat == 0x128ceb0c27c96454a95fc3c07c14d4e1nat);
    assert(fu2 == 0x128ceb0c27c96454a95fc3c07c14d4e1nat);
    let fu3 = fu2 * u;
    assert(0x128ceb0c27c96454a95fc3c07c14d4e1nat * 0x44e992b44a6909f1nat == 0x4fe5b52972840a5f947a8ba28ed762163b0f6d9e56150d1nat);
    assert(fu3 == 0x4fe5b52972840a5f947a8ba28ed762163b0f6d9e56150d1nat);
    let y3 = (fu * q1) * q6;
    assert((0x44e992b44a6909f1nat * 0x30644e72e131a029b85045b68181585d97816a916871ca8d3c208c16d87cfd47nat) * 0x2fd70ffd469f22a255aea70a6ec3af1f18061c3d3019453500facde502233d9df3dc41c5830ecea5ef61762dd07aa2ee8ac393e1f970864ed3d397a42c302aebe67f05f148be14661aaf35ddfdf5c7e1c1d370decdf2128ec557b543fe50a1e1342fb2628372f294d13656f6eb1608005dfa955bf9647ae01ee1f7c6ee6576cc7afd0826c9a44a0903665952d6b925408128686d835cbdd0e6a4e64b8148fd65418b4cf130588725d28e938e58016bda8be6dec90ce20f4e90a2716e3f811nat == 0x26f30f31c862c72f5f3d5d3cd823cea4325dfaeb2545253740db75c7141bd1dd7ff944436da86364e6c8ee46b96db983f6fb62e9a8d68d04ced641a5a96eb53ee1f6f579fb96f0aba8fca95a154467039b356f8ba485792a43f26652a0f7a139f9ba9aa208654ee714323cdaa5b16d4b18b955836ad105af6567f63f0cca8a9a95ee4fd75f80e79c3b6577e8f261339d1f2c2b32132b8bea2d1b27fea3fa325b1967a8d25ebb4d9266c0c14398b3653a3c7b7bdf14307633703ea7033beb197351c06c8562ca2d50961bca39f13b201ca1bc674b48f85ea36ee1e8a369b38ecac5d4efc52447nat);
    assert(y3 == 0x26f30f31c862c72f5f3d5d3cd823cea4325dfaeb2545253740db75c7141bd1dd7ff944436da86364e6c8ee46b96db983f6fb62e9a8d68d04ced641a5a96eb53ee1f6f579fb96f0aba8fca95a154467039b356f8ba485792a43f26652a0f7a139f9ba9aa208654ee714323cdaa5b16d4b18b955836ad105af6567f63f0cca8a9a95ee4fd75f80e79c3b6577e8f261339d1f2c2b32132b8bea2d1b27fea3fa325b1967a8d25ebb4d9266c0c14398b3653a3c7b7bdf14307633703ea7033beb197351c06c8562ca2d50961bca39f13b201ca1bc674b48f85ea36ee1e8a369b38ecac5d4efc52447nat);
    let fu2p = fu2 * q1;
    assert(0x128ceb0c27c96454a95fc3c07c14d4e1nat * 0x30644e72e131a029b85045b68181585d97816a916871ca8d3c208c16d87cfd47nat == 0x381b0cd5ae5202dea348dfd6916b5a3212a91a189982b1ab13ed2b61b0dc6b2ce309bb0c21d9b3e3e478a0df5256767nat);
    assert(fu2p == 0x381b0cd5ae5202dea348dfd6916b5a3212a91a189982b1ab13ed2b61b0dc6b2ce309bb0c21d9b3e3e478a0df5256767nat);
    let fu3p = fu3 * q1;
    assert(0x4fe5b52972840a5f947a8ba28ed762163b0f6d9e56150d1nat * 0x30644e72e131a029b85045b68181585d97816a916871ca8d3c208c16d87cfd47nat == 0xf1a602e616f2c0ce441c3349da33164f9f7d1e6fd1d04aff2cbcc8e239abd35a941b627d4dc7b0f8644c4f65b7a52af9ce43694817f6f7nat);
    assert(fu3p == 0xf1a602e616f2c0ce441c3349da33164f9f7d1e6fd1d04aff2cbcc8e239abd35a941b627d4dc7b0f8644c4f65b7a52af9ce43694817f6f7nat);
    let y2 = fu2 * q2;
    assert(0x128ceb0c27c96454a95fc3c07c14d4e1nat * 0x925c4b8763cbf9c599a6f7c0348d21cb00b85511637560626edfa5c34c6b38d04689e957a1242c84a50189c6d96cadca602072d09eac1013b5458a2275d69b1nat == 0xa9b0e2a7f76f166cad6a5addeee04261ec49cd4ec2e8f7df6e93af6118f2d017851fc52bfdde2bdc71dd41650ebe949d12d5d1477a0187b088fcf6209ca976338f79e0d5d63ada3584995bf2747891nat);
    assert(y2 == 0xa9b0e2a7f76f166cad6a5addeee04261ec49cd4ec2e8f7df6e93af6118f2d017851fc52bfdde2bdc71dd41650ebe949d12d5d1477a0187b088fcf6209ca976338f79e0d5d63ada3584995bf2747891nat);
    let fp3 = q2 * q1;
    assert(0x925c4b8763cbf9c599a6f7c0348d21cb00b85511637560626edfa5c34c6b38d04689e957a1242c84a50189c6d96cadca602072d09eac1013b5458a2275d69b1nat * 0x30644e72e131a029b85045b68181585d97816a916871ca8d3c208c16d87cfd47nat == 0x1baaa710b0759ad331ec15183177faf68148fd2e5e487f1c2421c372dee2ddce66b93cd82baed12052190e7055930e66f109f0d7daa46749f7c3a768bcabfe1bf9f92e991d982cf433677e3c56733c20972118389b2a303b9b29982c6183d17nat);
    assert(fp3 == 0x1baaa710b0759ad331ec15183177faf68148fd2e5e487f1c2421c372dee2ddce66b93cd82baed12052190e7055930e66f109f0d7daa46749f7c3a768bcabfe1bf9f92e991d982cf433677e3c56733c20972118389b2a303b9b29982c6183d17nat);
    let y0 = q1 + q2 + fp3;
    assert(0x30644e72e131a029b85045b68181585d97816a916871ca8d3c208c16d87cfd47nat + 0x925c4b8763cbf9c599a6f7c0348d21cb00b85511637560626edfa5c34c6b38d04689e957a1242c84a50189c6d96cadca602072d09eac1013b5458a2275d69b1nat + 0x1baaa710b0759ad331ec15183177faf68148fd2e5e487f1c2421c372dee2ddce66b93cd82baed12052190e7055930e66f109f0d7daa46749f7c3a768bcabfe1bf9f92e991d982cf433677e3c56733c20972118389b2a303b9b29982c6183d17nat == 0x1baaa710b0759ad331ec15183177faf68148fd2e5e487f1c2421c372dee2ddcef915885f8f7acae5ebc006308a203031f1c245e93e19c7ac66a34d2c091736ef46c7ff1ed1d65c145d6d636b47f56fc46f58341fc0f2e9231277e3bc5f2a40fnat);
    assert(y0 == 0x1baaa710b0759ad331ec15183177faf68148fd2e5e487f1c2421c372dee2ddcef915885f8f7acae5ebc006308a203031f1c245e93e19c7ac66a34d2c091736ef46c7ff1ed1d65c145d6d636b47f56fc46f58341fc0f2e9231277e3bc5f2a40fnat);
    let y5 = fu2 * q6;
    assert(0x128ceb0c27c96454a95fc3c07c14d4e1nat * 0x2fd70ffd469f22a255aea70a6ec3af1f18061c3d3019453500facde502233d9df3dc41c5830ecea5ef61762dd07aa2ee8ac393e1f970864ed3d397a42c302aebe67f05f148be14661aaf35ddfdf5c7e1c1d370decdf2128ec557b543fe50a1e1342fb2628372f294d13656f6eb1608005dfa955bf9647ae01ee1f7c6ee6576cc7afd0826c9a44a0903665952d6b925408128686d835cbdd0e6a4e64b8148fd65418b4cf130588725d28e938e58016bda8be6dec90ce20f4e90a2716e3f811nat == 0x37774a93eab7534b72386619b8ca3ce230a1a3fdcb1a7007a07b7cebbdebb561b6a7ef908333f185acef042b4aa8a3ef37ba1da3928e348af3c2b2411f9fcd92ecba2245d8fd13b2a2e28d24ecd081772de2311a6b00fe6fe651f613dac9db62d5711981c68e12ab35e4ced80ea918bd802c3a9ff58d04d77bfdbcf3d4149336127125ea1ab0e1d09afcb9e1e369ceda380bc3294db2505f3f0f1b285a29275de29bf8077152c0973f7fbbfbaeff01db7ce32b0cc9c0543a5505da731be20c04fc79975ae3990f9c8107851f1af1nat);
    assert(y5 == 0x37774a93eab7534b72386619b8ca3ce230a1a3fdcb1a7007a07b7cebbdebb561b6a7ef908333f185acef042b4aa8a3ef37ba1da3928e348af3c2b2411f9fcd92ecba2245d8fd13b2a2e28d24ecd081772de2311a6b00fe6fe651f613dac9db62d5711981c68e12ab35e4ced80ea918bd802c3a9ff58d04d77bfdbcf3d4149336127125ea1ab0e1d09afcb9e1e369ceda380bc3294db2505f3f0f1b285a29275de29bf8077152c0973f7fbbfbaeff01db7ce32b0cc9c0543a5505da731be20c04fc79975ae3990f9c8107851f1af1nat);
    let y4 = (fu + fu2p) * q6;
    assert((0x44e992b44a6909f1nat + 0x381b0cd5ae5202dea348dfd6916b5a3212a91a189982b1ab13ed2b61b0dc6b2ce309bb0c21d9b3e3e478a0df5256767nat) * 0x2fd70ffd469f22a255aea70a6ec3af1f18061c3d3019453500facde502233d9df3dc41c5830ecea5ef61762dd07aa2ee8ac393e1f970864ed3d397a42c302aebe67f05f148be14661aaf35ddfdf5c7e1c1d370decdf2128ec557b543fe50a1e1342fb2628372f294d13656f6eb1608005dfa955bf9647ae01ee1f7c6ee6576cc7afd0826c9a44a0903665952d6b925408128686d835cbdd0e6a4e64b8148fd65418b4cf130588725d28e938e58016bda8be6dec90ce20f4e90a2716e3f811nat == 0xa7c19941a6cefb1f028d93e7e107897bb54a8a8ccfaf3d5cbdfc2a997d30edd7a0cbced321ae29aefaf8a506339266b236290109cd6d605851f2d08e79efca167286602b67bb6f460002e46e0e596f95d3c8407f8bce60c4bd15269f444c19c80b757e6360331e6298519957eb5aa201f56c6ef2ea7c2c2af24ce454f8a153f817fde1251d5cd8ba1dd5d5edc5463d17ea6c8cb0bf10870506a6d7440e422e7f0358f9bb042e6dfc5b5a4d4484e32fc619a634e9138e28675bbbaadb36c99e76760d36b89e0c17c76b51d1a79a471cebd63a7302a6aa24160d02411bea4eea417a5458dfb03c40c63ec474ac6d8nat);
    assert(y4 == 0xa7c19941a6cefb1f028d93e7e107897bb54a8a8ccfaf3d5cbdfc2a997d30edd7a0cbced321ae29aefaf8a506339266b236290109cd6d605851f2d08e79efca167286602b67bb6f460002e46e0e596f95d3c8407f8bce60c4bd15269f444c19c80b757e6360331e6298519957eb5aa201f56c6ef2ea7c2c2af24ce454f8a153f817fde1251d5cd8ba1dd5d5edc5463d17ea6c8cb0bf10870506a6d7440e422e7f0358f9bb042e6dfc5b5a4d4484e32fc619a634e9138e28675bbbaadb36c99e76760d36b89e0c17c76b51d1a79a471cebd63a7302a6aa24160d02411bea4eea417a5458dfb03c40c63ec474ac6d8nat);
    let yx = (fu3 + fu3p) * q6;
    assert((0x4fe5b52972840a5f947a8ba28ed762163b0f6d9e56150d1nat + 0xf1a602e616f2c0ce441c3349da33164f9f7d1e6fd1d04aff2cbcc8e239abd35a941b627d4dc7b0f8644c4f65b7a52af9ce43694817f6f7nat) * 0x2fd70ffd469f22a255aea70a6ec3af1f18061c3d3019453500facde502233d9df3dc41c5830ecea5ef61762dd07aa2ee8ac393e1f970864ed3d397a42c302aebe67f05f148be14661aaf35ddfdf5c7e1c1d370decdf2128ec557b543fe50a1e1342fb2628372f294d13656f6eb1608005dfa955bf9647ae01ee1f7c6ee6576cc7afd0826c9a44a0903665952d6b925408128686d835cbdd0e6a4e64b8148fd65418b4cf130588725d28e938e58016bda8be6dec90ce20f4e90a2716e3f811nat == 0x2d287c0c7b59cb9ab271048f05db85dc9617e40ebed3fab445eb27dc97a345c32bf0622c4bcbe20579ce7916d13abb3b4e9a2cf8742264080a94f096412a32dfb168418a969bad4d5a79d1c1a5267bcbd4b9f1d36829e9fbc4817cea339acd4ba456b21a5371b0c930d4f9919abaa22b18433ecb8798c0b9766ba75407e070f0f4d8f25cc4df7659639eea0c95c2c65e30383ed8cc4f9b73dc3cbd573d848cd671232fbb8f59cfda7813dd72201a0268f2d9f1d2b634ad8e9d14dbc60fd0920ef5e7c28e892967ff70a194f9f6c160bde069702dfa477f3186ea9d9473ef971da22413fb5ee73076eb97cb9064784ad70b158ef8448nat);
    assert(yx == 0x2d287c0c7b59cb9ab271048f05db85dc9617e40ebed3fab445eb27dc97a345c32bf0622c4bcbe20579ce7916d13abb3b4e9a2cf8742264080a94f096412a32dfb168418a969bad4d5a79d1c1a5267bcbd4b9f1d36829e9fbc4817cea339acd4ba456b21a5371b0c930d4f9919abaa22b18433ecb8798c0b9766ba75407e070f0f4d8f25cc4df7659639eea0c95c2c65e30383ed8cc4f9b73dc3cbd573d848cd671232fbb8f59cfda7813dd72201a0268f2d9f1d2b634ad8e9d14dbc60fd0920ef5e7c28e892967ff70a194f9f6c160bde069702dfa477f3186ea9d9473ef971da22413fb5ee73076eb97cb9064784ad70b158ef8448nat);
    let y6 = 2 * yx + y4 + y5;
    assert(2 * 0x2d287c0c7b59cb9ab271048f05db85dc9617e40ebed3fab445eb27dc97a345c32bf0622c4bcbe20579ce7916d13abb3b4e9a2cf8742264080a94f096412a32dfb168418a969bad4d5a79d1c1a5267bcbd4b9f1d36829e9fbc4817cea339acd4ba456b21a5371b0c930d4f9919abaa22b18433ecb8798c0b9766ba75407e070f0f4d8f25cc4df7659639eea0c95c2c65e30383ed8cc4f9b73dc3cbd573d848cd671232fbb8f59cfda7813dd72201a0268f2d9f1d2b634ad8e9d14dbc60fd0920ef5e7c28e892967ff70a194f9f6c160bde069702dfa477f3186ea9d9473ef971da22413fb5ee73076eb97cb9064784ad70b158ef8448nat + 0xa7c19941a6cefb1f028d93e7e107897bb54a8a8ccfaf3d5cbdfc2a997d30edd7a0cbced321ae29aefaf8a506339266b236290109cd6d605851f2d08e79efca167286602b67bb6f460002e46e0e596f95d3c8407f8bce60c4bd15269f444c19c80b757e6360331e6298519957eb5aa201f56c6ef2ea7c2c2af24ce454f8a153f817fde1251d5cd8ba1dd5d5edc5463d17ea6c8cb0bf10870506a6d7440e422e7f0358f9bb042e6dfc5b5a4d4484e32fc619a634e9138e28675bbbaadb36c99e76760d36b89e0c17c76b51d1a79a471cebd63a7302a6aa24160d02411bea4eea417a5458dfb03c40c63ec474ac6d8nat + 0x37774a93eab7534b72386619b8ca3ce230a1a3fdcb1a7007a07b7cebbdebb561b6a7ef908333f185acef042b4aa8a3ef37ba1da3928e348af3c2b2411f9fcd92ecba2245d8fd13b2a2e28d24ecd081772de2311a6b00fe6fe651f613dac9db62d5711981c68e12ab35e4ced80ea918bd802c3a9ff58d04d77bfdbcf3d4149336127125ea1ab0e1d09afcb9e1e369ceda380bc3294db2505f3f0f1b285a29275de29bf8077152c0973f7fbbfbaeff01db7ce32b0cc9c0543a5505da731be20c04fc79975ae3990f9c8107851f1af1nat == 0x5a50f818f6b397360ca3a25fb28606d82ebd5c055eaf7ee44120da45fef5c8e315dceef214c8b1e60bdd6a3f6f98d4dcbbb36092a87afce5556d22130168c691bc7b225f85e27acc91f8fcb6e5477f3878670ac989378280d86d148d1be7440b41edaee5e52c548938c195e425799de2f700e93dc7943ae7c066cf41aa4cf50b411e2a4c2efdf6d8364d4d5ab1c39029dc9341204876ffd7a5a9b15e92e9ee29a8c905f86e3f01951a931340ef708fd7f0d9cf0827e97886d48c1f0a0e545279387ce27debaee453810fe123a0bae2b7242071be7ec63906b2425ef82a8e95f6a1a81044663e0b7f191d65aeb2bdd03c6567e48ea59nat);
    assert(y6 == 0x5a50f818f6b397360ca3a25fb28606d82ebd5c055eaf7ee44120da45fef5c8e315dceef214c8b1e60bdd6a3f6f98d4dcbbb36092a87afce5556d22130168c691bc7b225f85e27acc91f8fcb6e5477f3878670ac989378280d86d148d1be7440b41edaee5e52c548938c195e425799de2f700e93dc7943ae7c066cf41aa4cf50b411e2a4c2efdf6d8364d4d5ab1c39029dc9341204876ffd7a5a9b15e92e9ee29a8c905f86e3f01951a931340ef708fd7f0d9cf0827e97886d48c1f0a0e545279387ce27debaee453810fe123a0bae2b7242071be7ec63906b2425ef82a8e95f6a1a81044663e0b7f191d65aeb2bdd03c6567e48ea59nat);
    let t1 = y3 + y5 + y6;
    assert(0x26f30f31c862c72f5f3d5d3cd823cea4325dfaeb2545253740db75c7141bd1dd7ff944436da86364e6c8ee46b96db983f6fb62e9a8d68d04ced641a5a96eb53ee1f6f579fb96f0aba8fca95a154467039b356f8ba485792a43f26652a0f7a139f9ba9aa208654ee714323cdaa5b16d4b18b955836ad105af6567f63f0cca8a9a95ee4fd75f80e79c3b6577e8f261339d1f2c2b32132b8bea2d1b27fea3fa325b1967a8d25ebb4d9266c0c14398b3653a3c7b7bdf14307633703ea7033beb197351c06c8562ca2d50961bca39f13b201ca1bc674b48f85ea36ee1e8a369b38ecac5d4efc52447nat + 0x37774a93eab7534b72386619b8ca3ce230a1a3fdcb1a7007a07b7cebbdebb561b6a7ef908333f185acef042b4aa8a3ef37ba1da3928e348af3c2b2411f9fcd92ecba2245d8fd13b2a2e28d24ecd081772de2311a6b00fe6fe651f613dac9db62d5711981c68e12ab35e4ced80ea918bd802c3a9ff58d04d77bfdbcf3d4149336127125ea1ab0e1d09afcb9e1e369ceda380bc3294db2505f3f0f1b285a29275de29bf8077152c0973f7fbbfbaeff01db7ce32b0cc9c0543a5505da731be20c04fc79975ae3990f9c8107851f1af1nat + 0x5a50f818f6b397360ca3a25fb28606d82ebd5c055eaf7ee44120da45fef5c8e315dceef214c8b1e60bdd6a3f6f98d4dcbbb36092a87afce5556d22130168c691bc7b225f85e27acc91f8fcb6e5477f3878670ac989378280d86d148d1be7440b41edaee5e52c548938c195e425799de2f700e93dc7943ae7c066cf41aa4cf50b411e2a4c2efdf6d8364d4d5ab1c39029dc9341204876ffd7a5a9b15e92e9ee29a8c905f86e3f01951a931340ef708fd7f0d9cf0827e97886d48c1f0a0e545279387ce27debaee453810fe123a0bae2b7242071be7ec63906b2425ef82a8e95f6a1a81044663e0b7f191d65aeb2bdd03c6567e48ea59nat == 0x5a50f818f6b397360ca3a25fb28606da9dee4f21e4dbf1da34f6ae138132b3263bbc9da4691b055d91096fef5ccb276bdece06650fa50156cc16465b49eb5f4b33e91fb5f206a134e9dc1019af71eb8166c6a51ded30cc2ee3d984679910fcf4316fcbb22780c05c438a1f6bc4c4ecacc0d365ad1af140cbe1adae92b573b0bb31d2e3c088ac07fbe3de4967e74d648699c52c172b1705735ec4d9ed11cd75735b678856e240f3991357f1ccda21d293371ffa4c4a3b3f50c15465d874afac10f12652f4d148bd68aeb9d1ce749883603822f9cf9b592bc7e231b363da45db660dcc2c2ab3e4b605ced565938787b6b0d32f32d2991nat);
    assert(t1 == 0x5a50f818f6b397360ca3a25fb28606da9dee4f21e4dbf1da34f6ae138132b3263bbc9da4691b055d91096fef5ccb276bdece06650fa50156cc16465b49eb5f4b33e91fb5f206a134e9dc1019af71eb8166c6a51ded30cc2ee3d984679910fcf4316fcbb22780c05c438a1f6bc4c4ecacc0d365ad1af140cbe1adae92b573b0bb31d2e3c088ac07fbe3de4967e74d648699c52c172b1705735ec4d9ed11cd75735b678856e240f3991357f1ccda21d293371ffa4c4a3b3f50c15465d874afac10f12652f4d148bd68aeb9d1ce749883603822f9cf9b592bc7e231b363da45db660dcc2c2ab3e4b605ced565938787b6b0d32f32d2991nat);
    let y7 = y6 + y2;
    assert(0x5a50f818f6b397360ca3a25fb28606d82ebd5c055eaf7ee44120da45fef5c8e315dceef214c8b1e60bdd6a3f6f98d4dcbbb36092a87afce5556d22130168c691bc7b225f85e27acc91f8fcb6e5477f3878670ac989378280d86d148d1be7440b41edaee5e52c548938c195e425799de2f700e93dc7943ae7c066cf41aa4cf50b411e2a4c2efdf6d8364d4d5ab1c39029dc9341204876ffd7a5a9b15e92e9ee29a8c905f86e3f01951a931340ef708fd7f0d9cf0827e97886d48c1f0a0e545279387ce27debaee453810fe123a0bae2b7242071be7ec63906b2425ef82a8e95f6a1a81044663e0b7f191d65aeb2bdd03c6567e48ea59nat + 0xa9b0e2a7f76f166cad6a5addeee04261ec49cd4ec2e8f7df6e93af6118f2d017851fc52bfdde2bdc71dd41650ebe949d12d5d1477a0187b088fcf6209ca976338f79e0d5d63ada3584995bf2747891nat == 0x5a50f818f6b397360ca3a25fb28606d82ebd5c055eaf7ee44120da45fef5c8e315dceef214c8b1e60bdd6a3f6f98d4dcbbb36092a87afce5556d22130168c691bc7b225f85e27acc91f8fcb6e5477f3878670ac989378280d86d148d1be7440b41edaee5e52c548938c195e425799de2f700e93dc7943ae7c066cf41aa4cf50b411e2a4c2efdf6d8364d4d5ab1c39029dc9341204876ffd7a5a9b15e92e9ee29a8c905f86e3f0c3028bd92b7e0d75aae9687adf62c0f974b71610b389dd249627372f40d18b05ca57d62a1018378a9d4f836c2aa68100a340f56d69843099e86710a1a0efda14476b72ac31260612885fb270bd62eanat);
    assert(y7 == 0x5a50f818f6b397360ca3a25fb28606d82ebd5c055eaf7ee44120da45fef5c8e315dceef214c8b1e60bdd6a3f6f98d4dcbbb36092a87afce5556d22130168c691bc7b225f85e27acc91f8fcb6e5477f3878670ac989378280d86d148d1be7440b41edaee5e52c548938c195e425799de2f700e93dc7943ae7c066cf41aa4cf50b411e2a4c2efdf6d8364d4d5ab1c39029dc9341204876ffd7a5a9b15e92e9ee29a8c905f86e3f0c3028bd92b7e0d75aae9687adf62c0f974b71610b389dd249627372f40d18b05ca57d62a1018378a9d4f836c2aa68100a340f56d69843099e86710a1a0efda14476b72ac31260612885fb270bd62eanat);
    let ts = 2 * (2 * t1 + y7);
    assert(2 * (2 * 0x5a50f818f6b397360ca3a25fb28606da9dee4f21e4dbf1da34f6ae138132b3263bbc9da4691b055d91096fef5ccb276bdece06650fa50156cc16465b49eb5f4b33e91fb5f206a134e9dc1019af71eb8166c6a51ded30cc2ee3d984679910fcf4316fcbb22780c05c438a1f6bc4c4ecacc0d365ad1af140cbe1adae92b573b0bb31d2e3c088ac07fbe3de4967e74d648699c52c172b1705735ec4d9ed11cd75735b678856e240f3991357f1ccda21d293371ffa4c4a3b3f50c15465d874afac10f12652f4d148bd68aeb9d1ce749883603822f9cf9b592bc7e231b363da45db660dcc2c2ab3e4b605ced565938787b6b0d32f32d2991nat + 0x5a50f818f6b397360ca3a25fb28606d82ebd5c055eaf7ee44120da45fef5c8e315dceef214c8b1e60bdd6a3f6f98d4dcbbb36092a87afce5556d22130168c691bc7b225f85e27acc91f8fcb6e5477f3878670ac989378280d86d148d1be7440b41edaee5e52c548938c195e425799de2f700e93dc7943ae7c066cf41aa4cf50b411e2a4c2efdf6d8364d4d5ab1c39029dc9341204876ffd7a5a9b15e92e9ee29a8c905f86e3f0c3028bd92b7e0d75aae9687adf62c0f974b71610b389dd249627372f40d18b05ca57d62a1018378a9d4f836c2aa68100a340f56d69843099e86710a1a0efda14476b72ac31260612885fb270bd62eanat) == 0x21de5d095c8358b444bd5ce3e2f24291ad533f49250cec531561c6cda02b65e5f1aac5475cdfd79425be0943c525e4768f29edab98f89ff25db335d932a7f0a50489ac396d3df7a6ccb6239d48856ac768be8aa0ac73235bd40403ab89c127be7499a8c94685baa837faba9775e06ee78f14f692ffaed78ff078458ce2a68ad034987e39a80ac0d9ffc13c05500bcb26e203b329d3d4a157cc666ca716d09b220bf302d4c6581e6c49edaeca32a35ffaa098f451d810c2bd9e813add30e634308ab7f33ed7683aeedb5ac893cd953612ad0f96c933d84c387a7747abfef2aaaa51944e4c8cad56104a9ab1c72dee12bcf430ae2f6c18nat);
    assert(ts == 0x21de5d095c8358b444bd5ce3e2f24291ad533f49250cec531561c6cda02b65e5f1aac5475cdfd79425be0943c525e4768f29edab98f89ff25db335d932a7f0a50489ac396d3df7a6ccb6239d48856ac768be8aa0ac73235bd40403ab89c127be7499a8c94685baa837faba9775e06ee78f14f692ffaed78ff078458ce2a68ad034987e39a80ac0d9ffc13c05500bcb26e203b329d3d4a157cc666ca716d09b220bf302d4c6581e6c49edaeca32a35ffaa098f451d810c2bd9e813add30e634308ab7f33ed7683aeedb5ac893cd953612ad0f96c933d84c387a7747abfef2aaaa51944e4c8cad56104a9ab1c72dee12bcf430ae2f6c18nat);
    let t0 = ts + q6;
    assert(0x21de5d095c8358b444bd5ce3e2f24291ad533f49250cec531561c6cda02b65e5f1aac5475cdfd79425be0943c525e4768f29edab98f89ff25db335d932a7f0a50489ac396d3df7a6ccb6239d48856ac768be8aa0ac73235bd40403ab89c127be7499a8c94685baa837faba9775e06ee78f14f692ffaed78ff078458ce2a68ad034987e39a80ac0d9ffc13c05500bcb26e203b329d3d4a157cc666ca716d09b220bf302d4c6581e6c49edaeca32a35ffaa098f451d810c2bd9e813add30e634308ab7f33ed7683aeedb5ac893cd953612ad0f96c933d84c387a7747abfef2aaaa51944e4c8cad56104a9ab1c72dee12bcf430ae2f6c18nat + 0x2fd70ffd469f22a255aea70a6ec3af1f18061c3d3019453500facde502233d9df3dc41c5830ecea5ef61762dd07aa2ee8ac393e1f970864ed3d397a42c302aebe67f05f148be14661aaf35ddfdf5c7e1c1d370decdf2128ec557b543fe50a1e1342fb2628372f294d13656f6eb1608005dfa955bf9647ae01ee1f7c6ee6576cc7afd0826c9a44a0903665952d6b925408128686d835cbdd0e6a4e64b8148fd65418b4cf130588725d28e938e58016bda8be6dec90ce20f4e90a2716e3f811nat == 0x21de5d095c8358b444bd5ce3e2f24291ad533f49250cec531561c6cda02b65e5f1aac5475cdfd79425be0943c525e4768f29edab98f89ff55b2435ad9c9a1aca5f741ce05978e9984d17e7704a19be17786b68f0cea6fd3b11c82003baae121d6ab10ba64e2fe990e433f8b70ce8d3d4cc4e70d5c2b1864e5868a4a16e87d131df8bdc1987673ef61cf849f22f2cf413377f0769b8debf6b0f6192cf4dffc46f1f58724377b89e7229970489c8eb0dfc8eb870c0be682f854e51bd49cb2ad4c0c11d886c42fa8ef6ede14f6c03611321175dfb814868228c932c16bf047b1d077a7d87320cc413b909089e57fc0f07a5fe57c5136429nat);
    assert(t0 == 0x21de5d095c8358b444bd5ce3e2f24291ad533f49250cec531561c6cda02b65e5f1aac5475cdfd79425be0943c525e4768f29edab98f89ff55b2435ad9c9a1aca5f741ce05978e9984d17e7704a19be17786b68f0cea6fd3b11c82003baae121d6ab10ba64e2fe990e433f8b70ce8d3d4cc4e70d5c2b1864e5868a4a16e87d131df8bdc1987673ef61cf849f22f2cf413377f0769b8debf6b0f6192cf4dffc46f1f58724377b89e7229970489c8eb0dfc8eb870c0be682f854e51bd49cb2ad4c0c11d886c42fa8ef6ede14f6c03611321175dfb814868228c932c16bf047b1d077a7d87320cc413b909089e57fc0f07a5fe57c5136429nat);
    let tt = ts + y0;
    assert(0x21de5d095c8358b444bd5ce3e2f24291ad533f49250cec531561c6cda02b65e5f1aac5475cdfd79425be0943c525e4768f29edab98f89ff25db335d932a7f0a50489ac396d3df7a6ccb6239d48856ac768be8aa0ac73235bd40403ab89c127be7499a8c94685baa837faba9775e06ee78f14f692ffaed78ff078458ce2a68ad034987e39a80ac0d9ffc13c05500bcb26e203b329d3d4a157cc666ca716d09b220bf302d4c6581e6c49edaeca32a35ffaa098f451d810c2bd9e813add30e634308ab7f33ed7683aeedb5ac893cd953612ad0f96c933d84c387a7747abfef2aaaa51944e4c8cad56104a9ab1c72dee12bcf430ae2f6c18nat + 0x1baaa710b0759ad331ec15183177faf68148fd2e5e487f1c2421c372dee2ddcef915885f8f7acae5ebc006308a203031f1c245e93e19c7ac66a34d2c091736ef46c7ff1ed1d65c145d6d636b47f56fc46f58341fc0f2e9231277e3bc5f2a40fnat == 0x21de5d095c8358b444bd5ce3e2f24291ad533f49250cec531561c6cda02b65e5f1aac5475cdfd79425be0943c525e4768f29edab98f89ff25db335d932a7f0a50489ac396d3df7a6ccb6239d48856ac768be8aa0ac73235bd40403ab89c127be7499a8c94685baa837faba9775e06ee78f14f692ffaed78ff078458ce2a68ad034987e39a80ac0d9ffc13c05500bcb26e203b329d3d4a31276d777ae707dce40cd4485ec46078680d9c094aeba95223cbcd0224005edb24ef70733d4dd9492ec8b1afbe0da6b5a0affb95c756a0ffc7ce1e2575aa74740a4fa6934c964b3f08127cb02cbe3a99d05cddcadd65c8043e4726c74221027nat);
    assert(tt == 0x21de5d095c8358b444bd5ce3e2f24291ad533f49250cec531561c6cda02b65e5f1aac5475cdfd79425be0943c525e4768f29edab98f89ff25db335d932a7f0a50489ac396d3df7a6ccb6239d48856ac768be8aa0ac73235bd40403ab89c127be7499a8c94685baa837faba9775e06ee78f14f692ffaed78ff078458ce2a68ad034987e39a80ac0d9ffc13c05500bcb26e203b329d3d4a31276d777ae707dce40cd4485ec46078680d9c094aeba95223cbcd0224005edb24ef70733d4dd9492ec8b1afbe0da6b5a0affb95c756a0ffc7ce1e2575aa74740a4fa6934c964b3f08127cb02cbe3a99d05cddcadd65c8043e4726c74221027nat);
    let hard = 2 * t0 + tt;
    assert(2 * 0x21de5d095c8358b444bd5ce3e2f24291ad533f49250cec531561c6cda02b65e5f1aac5475cdfd79425be0943c525e4768f29edab98f89ff55b2435ad9c9a1aca5f741ce05978e9984d17e7704a19be17786b68f0cea6fd3b11c82003baae121d6ab10ba64e2fe990e433f8b70ce8d3d4cc4e70d5c2b1864e5868a4a16e87d131df8bdc1987673ef61cf849f22f2cf413377f0769b8debf6b0f6192cf4dffc46f1f58724377b89e7229970489c8eb0dfc8eb870c0be682f854e51bd49cb2ad4c0c11d886c42fa8ef6ede14f6c03611321175dfb814868228c932c16bf047b1d077a7d87320cc413b909089e57fc0f07a5fe57c5136429nat + 0x21de5d095c8358b444bd5ce3e2f24291ad533f49250cec531561c6cda02b65e5f1aac5475cdfd79425be0943c525e4768f29edab98f89ff25db335d932a7f0a50489ac396d3df7a6ccb6239d48856ac768be8aa0ac73235bd40403ab89c127be7499a8c94685baa837faba9775e06ee78f14f692ffaed78ff078458ce2a68ad034987e39a80ac0d9ffc13c05500bcb26e203b329d3d4a31276d777ae707dce40cd4485ec46078680d9c094aeba95223cbcd0224005edb24ef70733d4dd9492ec8b1afbe0da6b5a0affb95c756a0ffc7ce1e2575aa74740a4fa6934c964b3f08127cb02cbe3a99d05cddcadd65c8043e4726c74221027nat == 0x659b171c158a0a1cce3816aba8d6c7b507f9bddb6f26c4f940255468e08231b1d5004fd6169f86bc713a1bcb4f71ad63ad7dc902cae9dfdd13fba1346bdc2639c371e5fa202fcad766e5f27ddcb8e6f659955c8249c11dd1f79443b2ff1d4bf949fbc015e2e58dca0062ac058fb2169127b1d83e8511e42ca1498ecfbfb62d33f3b0366cb6d93ec639b1cfe9ae65b34d5101c1fd459221e8959a9d4d0c7d571f0bf56a733578c3652cee9dc24c6b3e35da4103c182be115993aaae6873ea3c6e0d560cb9606077f8db7bfb4d70d222bf109e4e5d381785be20c162476daa2a901cc6112ffd31c477dfedea86549e53306f1bfe48d879nat);
    assert(hard == 0x659b171c158a0a1cce3816aba8d6c7b507f9bddb6f26c4f940255468e08231b1d5004fd6169f86bc713a1bcb4f71ad63ad7dc902cae9dfdd13fba1346bdc2639c371e5fa202fcad766e5f27ddcb8e6f659955c8249c11dd1f79443b2ff1d4bf949fbc015e2e58dca0062ac058fb2169127b1d83e8511e42ca1498ecfbfb62d33f3b0366cb6d93ec639b1cfe9ae65b34d5101c1fd459221e8959a9d4d0c7d571f0bf56a733578c3652cee9dc24c6b3e35da4103c182be115993aaae6873ea3c6e0d560cb9606077f8db7bfb4d70d222bf109e4e5d381785be20c162476daa2a901cc6112ffd31c477dfedea86549e53306f1bfe48d879nat);
    assert(hard_exponent() == hard);
    assert((0x2fd70ffd469f22a255aea70a6ec3af1f18061c3d3019453500facde502233d9df3dc41c5830ecea5ef61762dd07aa2ee8ac393e1f970864ed3d397a42c302aebe67f05f148be14661aaf35ddfdf5c7e1c1d370decdf2128ec557b543fe50a1e1342fb2628372f294d13656f6eb1608005dfa955bf9647ae01ee1f7c6ee6576cc7afd0826c9a44a0903665952d6b925408128686d835cbdd0e6a4e64b8148fd65418b4cf130588725d28e938e58016bda8be6dec90ce20f4e90a2716e3f811int - 1) * (0x925c4b8763cbf9c599a6f7c0348d21cb00b85511637560626edfa5c34c6b38d04689e957a1242c84a50189c6d96cadca602072d09eac1013b5458a2275d69b1int + 1) == 0x1b59e685800b0e97a02f2739dcf3e8809c2c51000097223eaadf9b381c712d5b0867d19408a1a3df56ffaff05a834d2a25ff065eb9038cabad13097c3c762a2ce31f8f0d01044c05f030809f6505ea10af7b063fb6d237cd075497b1b6686ca3fffc37db0759ad8c7c82ecaf3f333c4a7ccbcfffdab33ee1e2cb94f42a1d208847a342f135b022c60855715fb2d037018c9976be9e50f1f3ac284dd0152c6ac0657132447defaefe7d8fff4f3dff1ba650a506fe3ed015f3f80815d4b9fa49c8a9c36c6fee886f93e1753d4af731e1db0edd8549f5a5d5439cc568e9448a2dfcbbaca5d608461ba98b1bc336a6d5973cd2a37a1b423672ab9d4cf9110b20int);
    assert(easy_exponent() == 0x1b59e685800b0e97a02f2739dcf3e8809c2c51000097223eaadf9b381c712d5b0867d19408a1a3df56ffaff05a834d2a25ff065eb9038cabad13097c3c762a2ce31f8f0d01044c05f030809f6505ea10af7b063fb6d237cd075497b1b6686ca3fffc37db0759ad8c7c82ecaf3f333c4a7ccbcfffdab33ee1e2cb94f42a1d208847a342f135b022c60855715fb2d037018c9976be9e50f1f3ac284dd0152c6ac0657132447defaefe7d8fff4f3dff1ba650a506fe3ed015f3f80815d4b9fa49c8a9c36c6fee886f93e1753d4af731e1db0edd8549f5a5d5439cc568e9448a2dfcbbaca5d608461ba98b1bc336a6d5973cd2a37a1b423672ab9d4cf9110b20nat);
    assert(0x1b59e685800b0e97a02f2739dcf3e8809c2c51000097223eaadf9b381c712d5b0867d19408a1a3df56ffaff05a834d2a25ff065eb9038cabad13097c3c762a2ce31f8f0d01044c05f030809f6505ea10af7b063fb6d237cd075497b1b6686ca3fffc37db0759ad8c7c82ecaf3f333c4a7ccbcfffdab33ee1e2cb94f42a1d208847a342f135b022c60855715fb2d037018c9976be9e50f1f3ac284dd0152c6ac0657132447defaefe7d8fff4f3dff1ba650a506fe3ed015f3f80815d4b9fa49c8a9c36c6fee886f93e1753d4af731e1db0edd8549f5a5d5439cc568e9448a2dfcbbaca5d608461ba98b1bc336a6d5973cd2a37a1b423672ab9d4cf9110b20nat * 0x659b171c158a0a1cce3816aba8d6c7b507f9bddb6f26c4f940255468e08231b1d5004fd6169f86bc713a1bcb4f71ad63ad7dc902cae9dfdd13fba1346bdc2639c371e5fa202fcad766e5f27ddcb8e6f659955c8249c11dd1f79443b2ff1d4bf949fbc015e2e58dca0062ac058fb2169127b1d83e8511e42ca1498ecfbfb62d33f3b0366cb6d93ec639b1cfe9ae65b34d5101c1fd459221e8959a9d4d0c7d571f0bf56a733578c3652cee9dc24c6b3e35da4103c182be115993aaae6873ea3c6e0d560cb9606077f8db7bfb4d70d222bf109e4e5d381785be20c162476daa2a901cc6112ffd31c477dfedea86549e53306f1bfe48d879nat == 0xadb09d95231380275dc8058feae8a2c10ffa61963efa8f8c12680e0c9730aa08cd98d473e3e843549a33bafeecb4b6c8afb40b5a75359829ef0afb4b379fafd4d457e1b0214f2e8ec88b094834953980df8ec70e163eeb2afecf404add7b5ce7366b66479a34f7c0457194a1366531c16bbfb7e798172417903344e46a41d963b56578b83178916f0adcfe306b38e538eecd1f5dd695f82f79220bd9608b1f94bda856607a8700752f6346d1d289766c9f6583b450eb57ace711aa41fda6988540bdbf423a0f28f8b4976d8fb588e8127b94cb8636ebfa0b6a3a1e562d7cb64f38804cbecace8d641d6d45bcfa331001532d849e0b9c03747108d6869d642b0fdba68e5c4b771cac6c3298a77e8e2bd812008dfb2402ec56d1b5880c20fcaee6400b3dfea628beafbb6ee80b410d7558756bb10753a2bff922bb0100e3ecef54a440a78b01fe91a347a0de4684bb0b21acbc3d412040c979298d6eca08dd0ccaf2f0543980a03516c10cb8647b05d52728065458c4655de803d99ee6f784a4e65903d70c33a1c4ad0e77a0ccd77660c00ef72ca3bbdbff28d7ac6751fb2714a61a8a05612d051718a6ca8b3e531961bf4d07255ade2861d6cf12797cfaf909142de02386eaa245504bcdb2e99d4e798262949383ac1702a1115de21676ba14a2b15aa0de368143eb33f517dbb3a4dbcfb714220nat);
    assert(0x136d98c5e53969549b30d1e3a7406297b70dbc5385f7255be5f484a9330cdaa0c32032afe924369668ace1517bb4d54d2beb35f9ff3184782677ae70f1056eaabfccdd7aff03b54d928275d905e7b59d54dd3c658d2e746d5e228a2c13b600acb810e1320eb06f697afb9ea4e4253458da5570348391448nat * (0x8f0ac8adc5ab6df1836f1770c2cc29793fa9c753a7f447128e8041da44bf43f7f5933d90dc1e6c4bcfeaa38d34db41b22a5b9ba9f1046ab2684b00eb6380fdb292b696a8d4dacf90e8e139c69d2ccf14141d6f9a0b8ec71a82a5fa88811cbb900dad55c8dc90efb9439cba604e5ff67475f1f3adda523759e261408ac219b8a10ddbe11231a7aa25767c1cec5eaa7a4a16d1a05dccc2713bf84c279d91ce1c9500aa55b90382ee9c8e530232f0b409dd086eac626c93a85ccb6522fbadd600ba556c2761cb5914d60d8b15012abade6714d68aa10fbb3d91be7b7ff4927a80e4dbd46d78ca4e3b439782980469a6bdf0be72b9bb639b9e7c33466ebc5faffdcd3e420af5f04f734402c7e9c876acc85ff3050d845bf03a7eac45865ca5954b6865c929f152092f07caae3590d00ffb72d2b1bd509149dda742c67f3ebdddc3cd5778ab175e967b77365acbfb6bde30ec3ac19e53a5d1390d0ad44cde3db3f4157d4f4c1a623c5b159f8e334f741bf0e6b068aafdbc1d4e2d2ca86f121int - 1) + 0x2f4b6dc97020fddadf107d20bc842d43bf6369b1ff6a1c71015f3f7be2e1e30a73bb94fec0daf15466b2383a5d3ec3d15ad524d8f70c54efee1bd8c3b21377e563a09a1b705887e72eceaddea3790364a61f676baaf977870e88d5c6c8fef0781361e443ae77f5b63a2a2264487f2940a8b1ddb3d15062cd0fb2015dfc6668449aed3cc48a82d0d602d268c7daab6a41294c0cc4ebe5664568dfc50e1648a45a4a1e3a5195846a3ed011a337a02088ec80e0ebae8755cfe107acf3aafb40494e406f804216bb10cf430b0f37856b42db8dc5514724ee93dfb10826f0dd4a0364b9580291d2cd65664814fde37ca80bb4ea44eacc5e641bbadf423f9a2cbf813b8d145da90029baee7ddadda71c7f3811c4105262945bba1668c3be69a3c230974d83561841d766f9c9d570bb7fbe04c7e8a6c3c760c0de81def35692da361102b6b9b2b918837fa97896e84abb40a4efb7e54523a486964b64ca86f120nat == 0xadb09d95231380275dc8058feae8a2c10ffa61963efa8f8c12680e0c9730aa08cd98d473e3e843549a33bafeecb4b6c8afb40b5a75359829ef0afb4b379fafd4d457e1b0214f2e8ec88b094834953980df8ec70e163eeb2afecf404add7b5ce7366b66479a34f7c0457194a1366531c16bbfb7e798172417903344e46a41d963b56578b83178916f0adcfe306b38e538eecd1f5dd695f82f79220bd9608b1f94bda856607a8700752f6346d1d289766c9f6583b450eb57ace711aa41fda6988540bdbf423a0f28f8b4976d8fb588e8127b94cb8636ebfa0b6a3a1e562d7cb64f38804cbecace8d641d6d45bcfa331001532d849e0b9c03747108d6869d642b0fdba68e5c4b771cac6c3298a77e8e2bd812008dfb2402ec56d1b5880c20fcaee6400b3dfea628beafbb6ee80b410d7558756bb10753a2bff922bb0100e3ecef54a440a78b01fe91a347a0de4684bb0b21acbc3d412040c979298d6eca08dd0ccaf2f0543980a03516c10cb8647b05d52728065458c4655de803d99ee6f784a4e65903d70c33a1c4ad0e77a0ccd77660c00ef72ca3bbdbff28d7ac6751fb2714a61a8a05612d051718a6ca8b3e531961bf4d07255ade2861d6cf12797cfaf909142de02386eaa245504bcdb2e99d4e798262949383ac1702a1115de21676ba14a2b15aa0de368143eb33f517dbb3a4dbcfb714220int);
    assert(0x30644e72e131a029b85045b68181585d2833e84879b9709143e1f593f0000001nat * 0x2f4b6dc97020fddadf107d20bc842d43bf6369b1ff6a1c71015f3f7be2e1e30a73bb94fec0daf15466b2383a5d3ec3d15ad524d8f70c54efee1bd8c3b21377e563a09a1b705887e72eceaddea3790364a61f676baaf977870e88d5c6c8fef0781361e443ae77f5b63a2a2264487f2940a8b1ddb3d15062cd0fb2015dfc6668449aed3cc48a82d0d602d268c7daab6a41294c0cc4ebe5664568dfc50e1648a45a4a1e3a5195846a3ed011a337a02088ec80e0ebae8755cfe107acf3aafb40494e406f804216bb10cf430b0f37856b42db8dc5514724ee93dfb10826f0dd4a0364b9580291d2cd65664814fde37ca80bb4ea44eacc5e641bbadf423f9a2cbf813b8d145da90029baee7ddadda71c7f3811c4105262945bba1668c3be69a3c230974d83561841d766f9c9d570bb7fbe04c7e8a6c3c760c0de81def35692da361102b6b9b2b918837fa97896e84abb40a4efb7e54523a486964b64ca86f120nat == 0x8f0ac8adc5ab6df1836f1770c2cc29793fa9c753a7f447128e8041da44bf43f7f5933d90dc1e6c4bcfeaa38d34db41b22a5b9ba9f1046ab2684b00eb6380fdb292b696a8d4dacf90e8e139c69d2ccf14141d6f9a0b8ec71a82a5fa88811cbb900dad55c8dc90efb9439cba604e5ff67475f1f3adda523759e261408ac219b8a10ddbe11231a7aa25767c1cec5eaa7a4a16d1a05dccc2713bf84c279d91ce1c9500aa55b90382ee9c8e530232f0b409dd086eac626c93a85ccb6522fbadd600ba556c2761cb5914d60d8b15012abade6714d68aa10fbb3d91be7b7ff4927a80e4dbd46d78ca4e3b439782980469a6bdf0be72b9bb639b9e7c33466ebc5faffdcd3e420af5f04f734402c7e9c876acc85ff3050d845bf03a7eac45865ca5954b6865c929f152092f07caae3590d00ffb72d2b1bd509149dda742c67f3ebdddc3cd5778ab175e967b77365acbfb6bde30ec3ac19e53a5d1390d0ad44cde3db3f4157d4f4c1a623c5b159f8e334f741bf0e6b068aafdbc1d4e2d2ca86f121int - 1);
}

/// `(q^6 + 1) / r`.
pub open spec fn conjugate_cofactor() -> nat {
    0xfd14cc52f5b83fbdea556c23998e4150e578c5084015bb37f601919667af5051c6d1aa5afdd1707409206c82d647ec2d1ea74a391cae91d2e5726e39276a1ca64c0fd82eb59e1df6d76bdcf51b0d8a733cd65b14bb3b5c901bf1887c6042c758e4408ecc9952c0fcc420e48c3454c42ad1f5e50ef364494f69f6b84e09bf6a8ce2533be36c7a2d1138bf54d5bd1d4a5635f15967890515250a54036e3f812nat
}

/// Half of `(q^12 - 1) / r`.
pub open spec fn half_exponent() -> nat {
    0x17a5b6e4b8107eed6f883e905e4216a1dfb1b4d8ffb50e3880af9fbdf170f18539ddca7f606d78aa33591c1d2e9f61e8ad6a926c7b862a77f70dec61d909bbf2b1d04d0db82c43f3976756ef51bc81b2530fb3b5d57cbbc387446ae3647f783c09b0f221d73bfadb1d151132243f94a05458eed9e8a8316687d900aefe3334224d769e624541686b01693463ed55b52094a6066275f2b322b46fe2870b24522d250f1d28cac2351f6808d19bd0104476407075d743aae7f083d679d57da024a72037c0210b5d8867a185879bc2b5a16dc6e2a8a3927749efd88413786ea501b25cac0148e966b2b3240a7ef1be5405da752275662f320ddd6fa11fcd165fc09dc68a2ed48014dd773eed6ed38e3f9c08e20829314a2ddd0b3461df34d1e1184ba6c1ab0c20ebb37ce4eab85dbfdf0263f45361e3b0606f40ef79ab496d1b08815b5cd95c8c41bfd4bc4b74255da05277dbf2a291d2434b25b265437890nat
}

/// `(q^12 - 1) / r` is even, and `((q^12 - 1) / r)(q^6 + 1)` is a multiple
/// of `q^12 - 1`.
pub proof fn lemma_exponent_of_conjugate()
    ensures
        final_exponent() == 2 * half_exponent(),
        final_exponent() * (q_power(6) + 1) == (q_power(12) - 1) * conjugate_cofactor(),
{
    lemma_q_powers();
    assert(2 * 0x17a5b6e4b8107eed6f883e905e4216a1dfb1b4d8ffb50e3880af9fbdf170f18539ddca7f606d78aa33591c1d2e9f61e8ad6a926c7b862a77f70dec61d909bbf2b1d04d0db82c43f3976756ef51bc81b2530fb3b5d57cbbc387446ae3647f783c09b0f221d73bfadb1d151132243f94a05458eed9e8a8316687d900aefe3334224d769e624541686b01693463ed55b52094a6066275f2b322b46fe2870b24522d250f1d28cac2351f6808d19bd0104476407075d743aae7f083d679d57da024a72037c0210b5d8867a185879bc2b5a16dc6e2a8a3927749efd88413786ea501b25cac0148e966b2b3240a7ef1be5405da752275662f320ddd6fa11fcd165fc09dc68a2ed48014dd773eed6ed38e3f9c08e20829314a2ddd0b3461df34d1e1184ba6c1ab0c20ebb37ce4eab85dbfdf0263f45361e3b0606f40ef79ab496d1b08815b5cd95c8c41bfd4bc4b74255da05277dbf2a291d2434b25b265437890nat == 0x2f4b6dc97020fddadf107d20bc842d43bf6369b1ff6a1c71015f3f7be2e1e30a73bb94fec0daf15466b2383a5d3ec3d15ad524d8f70c54efee1bd8c3b21377e563a09a1b705887e72eceaddea3790364a61f676baaf977870e88d5c6c8fef0781361e443ae77f5b63a2a2264487f2940a8b1ddb3d15062cd0fb2015dfc6668449aed3cc48a82d0d602d268c7daab6a41294c0cc4ebe5664568dfc50e1648a45a4a1e3a5195846a3ed011a337a02088ec80e0ebae8755cfe107acf3aafb40494e406f804216bb10cf430b0f37856b42db8dc5514724ee93dfb10826f0dd4a0364b9580291d2cd65664814fde37ca80bb4ea44eacc5e641bbadf423f9a2cbf813b8d145da90029baee7ddadda71c7f3811c4105262945bba1668c3be69a3c230974d83561841d766f9c9d570bb7fbe04c7e8a6c3c760c0de81def35692da361102b6b9b2b918837fa97896e84abb40a4efb7e54523a486964b64ca86f120nat);
    assert(0x2f4b6dc97020fddadf107d20bc842d43bf6369b1ff6a1c71015f3f7be2e1e30a73bb94fec0daf15466b2383a5d3ec3d15ad524d8f70c54efee1bd8c3b21377e563a09a1b705887e72eceaddea3790364a61f676baaf977870e88d5c6c8fef0781361e443ae77f5b63a2a2264487f2940a8b1ddb3d15062cd0fb2015dfc6668449aed3cc48a82d0d602d268c7daab6a41294c0cc4ebe5664568dfc50e1648a45a4a1e3a5195846a3ed011a337a02088ec80e0ebae8755cfe107acf3aafb40494e406f804216bb10cf430b0f37856b42db8dc5514724ee93dfb10826f0dd4a0364b9580291d2cd65664814fde37ca80bb4ea44eacc5e641bbadf423f9a2cbf813b8d145da90029baee7ddadda71c7f3811c4105262945bba1668c3be69a3c230974d83561841d766f9c9d570bb7fbe04c7e8a6c3c760c0de81def35692da361102b6b9b2b918837fa97896e84abb40a4efb7e54523a486964b64ca86f120nat * (0x2fd70ffd469f22a255aea70a6ec3af1f18061c3d3019453500facde502233d9df3dc41c5830ecea5ef61762dd07aa2ee8ac393e1f970864ed3d397a42c302aebe67f05f148be14661aaf35ddfdf5c7e1c1d370decdf2128ec557b543fe50a1e1342fb2628372f294d13656f6eb1608005dfa955bf9647ae01ee1f7c6ee6576cc7afd0826c9a44a0903665952d6b925408128686d835cbdd0e6a4e64b8148fd65418b4cf130588725d28e938e58016bda8be6dec90ce20f4e90a2716e3f811nat + 1) == 0x8d6947565c98e3a682a460c016e5c03203504a2d932ea29d38b37e4247509ab31ed43fd79c1a58e733e6c8536f024b228b0e63030597cc07446e927dbce2365461052f0158cb443227a444cd7b6482652bfc297dc3ee05a3ebbc8f0d30d9d6d4fa85e47ae290751f0b292c6dc9794d64dff0cc81509cbf63349d1170fed5dd2883f3a4c78b0ecb50cecd4bc1bb172a6183483ffd9f3d20f2d4cd1cb319c0179aef916e765cf9131eb8aea95636faecb06c45167938d1ed000dcc1de32711405174f701033132a3002eb8379b6d9b7739e3d481da009c91cb016ed6af3a95aabb49b2fb5f4fbe36ea4c21b1bfff356cf01d1d52d5333ea31ac8169b5a8bbe11f114b3e9ec3e517aa8a7f77dbaf842299ad2070921494f8e76c8af90335da35102d8db4284f58bf94b6bc05bc43ae152c0ddecd52ad6bbdddc69d820bdb798e547f65ec78dcb0f9a341a22679f5ec4df0be41ee4e72dec0862e115776f4d8c4a18455b4fa5fab3c14c145b6adb8fab739ea4a667709fabc969b0398158624a7aee3217139c2a8d2eac5b52d5c1f7d2fc59d76a4e5122dc6b314ac17e80254fad37774adb9cf5d81a13864a98e7d000f53114d3aeda259677c02f70c22c0c8f09b153dbc57738097e7ec0f9a845520f3dd47247f1ca4ded5aff8e06884c8f86e0fb29669ca8c02c0cfdeaa5236c0cdecc0738b95a5c71ca8ebdb74265ec9a6bb97e4875478a227cb0130db0f9e9cf1cc3f05a689aa97c1b898673f440nat);
    assert((0x8f0ac8adc5ab6df1836f1770c2cc29793fa9c753a7f447128e8041da44bf43f7f5933d90dc1e6c4bcfeaa38d34db41b22a5b9ba9f1046ab2684b00eb6380fdb292b696a8d4dacf90e8e139c69d2ccf14141d6f9a0b8ec71a82a5fa88811cbb900dad55c8dc90efb9439cba604e5ff67475f1f3adda523759e261408ac219b8a10ddbe11231a7aa25767c1cec5eaa7a4a16d1a05dccc2713bf84c279d91ce1c9500aa55b90382ee9c8e530232f0b409dd086eac626c93a85ccb6522fbadd600ba556c2761cb5914d60d8b15012abade6714d68aa10fbb3d91be7b7ff4927a80e4dbd46d78ca4e3b439782980469a6bdf0be72b9bb639b9e7c33466ebc5faffdcd3e420af5f04f734402c7e9c876acc85ff3050d845bf03a7eac45865ca5954b6865c929f152092f07caae3590d00ffb72d2b1bd509149dda742c67f3ebdddc3cd5778ab175e967b77365acbfb6bde30ec3ac19e53a5d1390d0ad44cde3db3f4157d4f4c1a623c5b159f8e334f741bf0e6b068aafdbc1d4e2d2ca86f121int - 1) * 0xfd14cc52f5b83fbdea556c23998e4150e578c5084015bb37f601919667af5051c6d1aa5afdd1707409206c82d647ec2d1ea74a391cae91d2e5726e39276a1ca64c0fd82eb59e1df6d76bdcf51b0d8a733cd65b14bb3b5c901bf1887c6042c758e4408ecc9952c0fcc420e48c3454c42ad1f5e50ef364494f69f6b84e09bf6a8ce2533be36c7a2d1138bf54d5bd1d4a5635f15967890515250a54036e3f812nat == 0x8d6947565c98e3a682a460c016e5c03203504a2d932ea29d38b37e4247509ab31ed43fd79c1a58e733e6c8536f024b228b0e63030597cc07446e927dbce2365461052f0158cb443227a444cd7b6482652bfc297dc3ee05a3ebbc8f0d30d9d6d4fa85e47ae290751f0b292c6dc9794d64dff0cc81509cbf63349d1170fed5dd2883f3a4c78b0ecb50cecd4bc1bb172a6183483ffd9f3d20f2d4cd1cb319c0179aef916e765cf9131eb8aea95636faecb06c45167938d1ed000dcc1de32711405174f701033132a3002eb8379b6d9b7739e3d481da009c91cb016ed6af3a95aabb49b2fb5f4fbe36ea4c21b1bfff356cf01d1d52d5333ea31ac8169b5a8bbe11f114b3e9ec3e517aa8a7f77dbaf842299ad2070921494f8e76c8af90335da35102d8db4284f58bf94b6bc05bc43ae152c0ddecd52ad6bbdddc69d820bdb798e547f65ec78dcb0f9a341a22679f5ec4df0be41ee4e72dec0862e115776f4d8c4a18455b4fa5fab3c14c145b6adb8fab739ea4a667709fabc969b0398158624a7aee3217139c2a8d2eac5b52d5c1f7d2fc59d76a4e5122dc6b314ac17e80254fad37774adb9cf5d81a13864a98e7d000f53114d3aeda259677c02f70c22c0c8f09b153dbc57738097e7ec0f9a845520f3dd47247f1ca4ded5aff8e06884c8f86e0fb29669ca8c02c0cfdeaa5236c0cdecc0738b95a5c71ca8ebdb74265ec9a6bb97e4875478a227cb0130db0f9e9cf1cc3f05a689aa97c1b898673f440int);
}

} // verus!
