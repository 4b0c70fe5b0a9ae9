//! The fixed numbers of the curve: the loop scalar, the coefficients of the
//! Frobenius maps and the generators. Field elements are in Montgomery form,
//! least significant limb first.

use crate::model::quadratic::Fq2Value;
use vstd::prelude::*;

verus! {

/// The parameter `u` that the BN curve family is built from.
pub const BN_X: u64 = 0x44e992b44a6909f1;

/// The digits of `6u + 2` in non-adjacent form, least significant first.
pub const SIX_U_PLUS_2_NAF: [i8; 65] = [
    0, 0, 0, 1, 0, 1, 0, -1, 0, 0, 1, -1, 0, 0, 1, 0, 0, 1, 1, 0, -1, 0, 0, 1, 0, -1, 0, 0, 0, 0,
    1, 1, 1, 0, 0, -1, 0, 0, 1, 0, 0, 0, 0, 0, -1, 0, 0, 1, 1, 0, 0, -1, 0, 0, 0, 1, 1, 0, -1, 0,
    0, 1, 0, 1, 1,
];

/// The factors of the imaginary part under the Frobenius maps of Fq2: 1 and -1.
pub const FROBENIUS_COEFF_FQ2_C1: [[u64; 4]; 2] = [
    [0xd35d438dc58f0d9d, 0x0a78eb28f5c70b3d, 0x666ea36f7879462c, 0x0e0a77c19a07df2f],
    [0x68c3488912edefaa, 0x8d087f6872aabf4f, 0x51e1a24709081231, 0x2259d6b14729c0fa],
];

/// `xi^((q^k - 1) / 3)` for `k` from 0 to 5.
pub const FROBENIUS_COEFF_FQ6_C1: [[[u64; 4]; 2]; 6] = [
    [
        [0xd35d438dc58f0d9d, 0x0a78eb28f5c70b3d, 0x666ea36f7879462c, 0x0e0a77c19a07df2f],
        [0x0000000000000000, 0x0000000000000000, 0x0000000000000000, 0x0000000000000000],
    ],
    [
        [0xb5773b104563ab30, 0x347f91c8a9aa6454, 0x7a007127242e0991, 0x1956bcd8118214ec],
        [0x6e849f1ea0aa4757, 0xaa1c7b6d89f89141, 0xb6e713cdfae0ca3a, 0x26694fbb4e82ebc3],
    ],
    [
        [0x3350c88e13e80b9c, 0x7dce557cdb5e56b9, 0x6001b4b8b615564a, 0x2682e617020217e0],
        [0x0000000000000000, 0x0000000000000000, 0x0000000000000000, 0x0000000000000000],
    ],
    [
        [0xc9af22f716ad6bad, 0xb311782a4aa662b2, 0x19eeaf64e248c7f4, 0x20273e77e3439f82],
        [0xacc02860f7ce93ac, 0x3933d5817ba76b4c, 0x69e6188b446c8467, 0x0a46036d4417cc55],
    ],
    [
        [0x71930c11d782e155, 0xa6bb947cffbe3323, 0xaa303344d4741444, 0x2c3b3f0d26594943],
        [0x0000000000000000, 0x0000000000000000, 0x0000000000000000, 0x0000000000000000],
    ],
    [
        [0xf91aba2654e8e3b1, 0x4771cb2fdc92ce12, 0xdcb16ae0fc8bdf35, 0x274aa195cd9d8be4],
        [0x5cfc50ae18811f8b, 0x4bb28433cb43988c, 0x4fd35f13c3b56219, 0x301949bd2fc8883a],
    ],
];

/// `xi^((2 q^k - 2) / 3)` for `k` from 0 to 5.
pub const FROBENIUS_COEFF_FQ6_C2: [[[u64; 4]; 2]; 6] = [
    [
        [0xd35d438dc58f0d9d, 0x0a78eb28f5c70b3d, 0x666ea36f7879462c, 0x0e0a77c19a07df2f],
        [0x0000000000000000, 0x0000000000000000, 0x0000000000000000, 0x0000000000000000],
    ],
    [
        [0x7361d77f843abe92, 0xa5bb2bd3273411fb, 0x9c941f314b3e2399, 0x15df9cddbb9fd3ec],
        [0x5dddfd154bd8c949, 0x62cb29a5a4445b60, 0x37bc870a0c7dd2b9, 0x24830a9d3171f0fd],
    ],
    [
        [0x71930c11d782e155, 0xa6bb947cffbe3323, 0xaa303344d4741444, 0x2c3b3f0d26594943],
        [0x0000000000000000, 0x0000000000000000, 0x0000000000000000, 0x0000000000000000],
    ],
    [
        [0x448a93a57b6762df, 0xbfd62df528fdeadf, 0xd858f5d00e9bd47a, 0x06b03d4d3476ec58],
        [0x2b19daf4bcc936d1, 0xa1a54e7a56f4299f, 0xb533eee05adeaef1, 0x170c812b84dda0b2],
    ],
    [
        [0x3350c88e13e80b9c, 0x7dce557cdb5e56b9, 0x6001b4b8b615564a, 0x2682e617020217e0],
        [0x0000000000000000, 0x0000000000000000, 0x0000000000000000, 0x0000000000000000],
    ],
    [
        [0x843420f1d8dadbd6, 0x31f010c9183fcdb2, 0x436330b527a76049, 0x13d47447f11adfe4],
        [0xef494023a857fa74, 0x2a925d02d5ab101a, 0x83b015829ba62f10, 0x2539111d0c13aea3],
    ],
];

/// `xi^((q^k - 1) / 6)` for `k` from 0 to 11.
pub const FROBENIUS_COEFF_FQ12_C1: [[[u64; 4]; 2]; 12] = [
    [
        [0xd35d438dc58f0d9d, 0x0a78eb28f5c70b3d, 0x666ea36f7879462c, 0x0e0a77c19a07df2f],
        [0x0000000000000000, 0x0000000000000000, 0x0000000000000000, 0x0000000000000000],
    ],
    [
        [0xaf9ba69633144907, 0xca6b1d7387afb78a, 0x11bded5ef08a2087, 0x02f34d751a1f3a7c],
        [0xa222ae234c492d72, 0xd00f02a4565de15b, 0xdc2ff3a253dfc926, 0x10a75716b3899551],
    ],
    [
        [0xca8d800500fa1bf2, 0xf0c5d61468b39769, 0x0e201271ad0d4418, 0x04290f65bad856e6],
        [0x0000000000000000, 0x0000000000000000, 0x0000000000000000, 0x0000000000000000],
    ],
    [
        [0x365316184e46d97d, 0x0af7129ed4c96d9f, 0x659da72fca1009b5, 0x08116d8983a20d23],
        [0xb1df4af7c39c1939, 0x3d9f02878a73bf7f, 0x9b2220928caf0ae0, 0x26684515eff054a6],
    ],
    [
        [0x3350c88e13e80b9c, 0x7dce557cdb5e56b9, 0x6001b4b8b615564a, 0x2682e617020217e0],
        [0x0000000000000000, 0x0000000000000000, 0x0000000000000000, 0x0000000000000000],
    ],
    [
        [0x86b76f821b329076, 0x408bf52b4d19b614, 0x53dfb9d0d985e92d, 0x051e20146982d2a7],
        [0x0fbc9cd47752ebc7, 0x6d8fffe33415de24, 0xbef22cf038cf41b9, 0x15c0edff3c66bf54],
    ],
    [
        [0x68c3488912edefaa, 0x8d087f6872aabf4f, 0x51e1a24709081231, 0x2259d6b14729c0fa],
        [0x0000000000000000, 0x0000000000000000, 0x0000000000000000, 0x0000000000000000],
    ],
    [
        [0x8c84e580a568b440, 0xcd164d1de0c21302, 0xa692585790f737d5, 0x2d7100fdc71265ad],
        [0x99fdddf38c33cfd5, 0xc77267ed1213e931, 0xdc2052142da18f36, 0x1fbcf75c2da80ad7],
    ],
    [
        [0x71930c11d782e155, 0xa6bb947cffbe3323, 0xaa303344d4741444, 0x2c3b3f0d26594943],
        [0x0000000000000000, 0x0000000000000000, 0x0000000000000000, 0x0000000000000000],
    ],
    [
        [0x05cd75fe8a3623ca, 0x8c8a57f293a85cee, 0x52b29e86b7714ea8, 0x2852e0e95d8f9306],
        [0x8a41411f14e0e40e, 0x59e26809ddfe0b0d, 0x1d2e2523f4d24d7d, 0x09fc095cf1414b83],
    ],
    [
        [0x08cfc388c494f1ab, 0x19b315148d1373d4, 0x584e90fdcb6c0213, 0x09e1685bdf2f8849],
        [0x0000000000000000, 0x0000000000000000, 0x0000000000000000, 0x0000000000000000],
    ],
    [
        [0xb5691c94bd4a6cd1, 0x56f575661b581478, 0x64708be5a7fb6f30, 0x2b462e5e77aecd82],
        [0x2c63ef42612a1180, 0x29f16aae345bec69, 0xf95e18c648b216a4, 0x1aa36073a4cae0d4],
    ],
];

/// `xi^((q - 1) / 2)`.
pub const XI_TO_Q_MINUS_1_OVER_2: [[u64; 4]; 2] = [
    [0xe4bbdd0c2936b629, 0xbb30f162e133bacb, 0x31a9d1b6f9645366, 0x253570bea500f8dd],
    [0xa1d77ce45ffe77c7, 0x07affd117826d1db, 0x6d16bd27bb7edc6b, 0x2c87200285defecc],
];

/// The value of entry `k` of `FROBENIUS_COEFF_FQ6_C1`.
pub open spec fn frobenius_coeff_fq6_c1(k: int) -> Fq2Value {
    if k == 0 {
        Fq2Value {
            c0: 1,
            c1: 0,
        }
    } else if k == 1 {
        Fq2Value {
            c0: 0x2fb347984f7911f74c0bec3cf559b143b78cc310c2c3330c99e39557176f553dint,
            c1: 0x16c9e55061ebae204ba4cc8bd75a079432ae2a1d0b7c9dce1665d51c640fcba2int,
        }
    } else if k == 2 {
        Fq2Value {
            c0: 0x30644e72e131a0295e6dd9e7e0acccb0c28f069fbb966e3de4bd44e5607cfd48int,
            c1: 0,
        }
    } else if k == 3 {
        Fq2Value {
            c0: 0x856e078b755ef0abaff1c77959f25ac805ffd3d5d6942d37b746ee87bdcfb6dint,
            c1: 0x4f1de41b3d1766fa9f30e6dec26094f0fdf31bf98ff2631380cab2baaa586deint,
        }
    } else if k == 4 {
        Fq2Value {
            c0: 0x59e26bcea0d48bacd4f263f1acdb5c4f5763473177fffffeint,
            c1: 0,
        }
    } else {
        Fq2Value {
            c0: 0x28be74d4bb943f51699582b87809d9caf71614d4b0b71f3a62e913ee1dada9e4int,
            c1: 0x14a88ae0cb747b99c2b86abcbe01477a54f40eb4c3f6068dedae0bcec9c7aac7int,
        }
    }
}

/// The value of entry `k` of `FROBENIUS_COEFF_FQ6_C2`.
pub open spec fn frobenius_coeff_fq6_c2(k: int) -> Fq2Value {
    if k == 0 {
        Fq2Value {
            c0: 1,
            c1: 0,
        }
    } else if k == 1 {
        Fq2Value {
            c0: 0x5b54f5e64eea80180f3c0b75a181e84d33365f7be94ec72848a1f55921ea762int,
            c1: 0x2c145edbe7fd8aee9f3a80b03b0b1c923685d2ea1bdec763c13b4711cd2b8126int,
        }
    } else if k == 2 {
        Fq2Value {
            c0: 0x59e26bcea0d48bacd4f263f1acdb5c4f5763473177fffffeint,
            c1: 0,
        }
    } else if k == 3 {
        Fq2Value {
            c0: 0xbc58c6611c08dab19bee0f7b5b2444ee633094575b06bcb0e1a92bc3ccbf066int,
            c1: 0x23d5e999e1910a12feb0f6ef0cd21d04a44a9e08737f96e55fe3ed9d730c239fint,
        }
    } else if k == 4 {
        Fq2Value {
            c0: 0x30644e72e131a0295e6dd9e7e0acccb0c28f069fbb966e3de4bd44e5607cfd48int,
            c1: 0,
        }
    } else {
        Fq2Value {
            c0: 0x1ee972ae6a826a7d1d9da40771b6f589de1afb54342c724fa97bda050992657fint,
            c1: 0x10de546ff8d4ab51d2b513cdbb25772454326430418536d15721e37e70c255c9int,
        }
    }
}

/// The value of entry `k` of `FROBENIUS_COEFF_FQ12_C1`.
pub open spec fn frobenius_coeff_fq12_c1(k: int) -> Fq2Value {
    if k == 0 {
        Fq2Value {
            c0: 1,
            c1: 0,
        }
    } else if k == 1 {
        Fq2Value {
            c0: 0x1284b71c2865a7dfe8b99fdd76e68b605c521e08292f2176d60b35dadcc9e470int,
            c1: 0x246996f3b4fae7e6a6327cfe12150b8e747992778eeec7e5ca5cf05f80f362acint,
        }
    } else if k == 2 {
        Fq2Value {
            c0: 0x30644e72e131a0295e6dd9e7e0acccb0c28f069fbb966e3de4bd44e5607cfd49int,
            c1: 0,
        }
    } else if k == 3 {
        Fq2Value {
            c0: 0x19dc81cfcc82e4bbefe9608cd0acaa90894cb38dbe55d24ae86f7d391ed4a67fint,
            c1: 0xabf8b60be77d7306cbeee33576139d7f03a5e397d439ec7694aa2bf4c0c101int,
        }
    } else if k == 4 {
        Fq2Value {
            c0: 0x30644e72e131a0295e6dd9e7e0acccb0c28f069fbb966e3de4bd44e5607cfd48int,
            c1: 0,
        }
    } else if k == 5 {
        Fq2Value {
            c0: 0x757cab3a41d3cdc072fc0af59c61f302cfa95859526b0d41264475e420ac20fint,
            c1: 0xca6b035381e35b618e9b79ba4e2606ca20b7dfd71573c93e85845e34c4a5b9cint,
        }
    } else if k == 6 {
        Fq2Value {
            c0: 0x30644e72e131a029b85045b68181585d97816a916871ca8d3c208c16d87cfd46int,
            c1: 0,
        }
    } else if k == 7 {
        Fq2Value {
            c0: 0x1ddf9756b8cbf849cf96a5d90a9accfd3b2f4c893f42a9166615563bfbb318d7int,
            c1: 0xbfab77f2c36b843121dc8b86f6c4ccf2307d819d98302a771c39bb757899a9bint,
        }
    } else if k == 8 {
        Fq2Value {
            c0: 0x59e26bcea0d48bacd4f263f1acdb5c4f5763473177fffffeint,
            c1: 0,
        }
    } else if k == 9 {
        Fq2Value {
            c0: 0x1687cca314aebb6dc866e529b0d4adcd0e34b703aa1bf84253b10eddb9a856c8int,
            c1: 0x2fb855bcd54a22b6b18456d34c0b44c0187dc4add09d90a0c58be1eae3bc3c46int,
        }
    } else if k == 10 {
        Fq2Value {
            c0: 0x59e26bcea0d48bacd4f263f1acdb5c4f5763473177ffffffint,
            c1: 0,
        }
    } else {
        Fq2Value {
            c0: 0x290c83bf3d14634db120850727bb392d6a86d50bd34b19b929bc44b896723b38int,
            c1: 0x23bd9e3da9136a739f668e1adc9ef7f0f575ec93f71a8df953c846338c32a1abint,
        }
    }
}

/// The value of `XI_TO_Q_MINUS_1_OVER_2`.
pub open spec fn xi_to_q_minus_1_over_2() -> Fq2Value {
    Fq2Value {
        c0: 0x63cf305489af5dcdc5ec698b6e2f9b9dbaae0eda9c95998dc54014671a0135aint,
        c1: 0x7c03cbcac41049a0704b5a7ec796f2b21807dc98fa25bd282d37f632623b0e3int,
    }
}

/// The generator of G2.
pub open spec fn g2_generator() -> (Fq2Value, Fq2Value) {
    (
        Fq2Value {
            c0: 0x1800deef121f1e76426a00665e5c4479674322d4f75edadd46debd5cd992f6edint,
            c1: 0x198e9393920d483a7260bfb731fb5d25f1aa493335a9e71297e485b7aef312c2int,
        },
        Fq2Value {
            c0: 0x12c85ea5db8c6deb4aab71808dcb408fe3d1e7690c43d37b4ce6cc0166fa7daaint,
            c1: 0x90689d0585ff075ec9e99ad690c3395bc4b313370b38ef355acdadcd122975bint,
        },
    )
}

/// The six coefficients in Fq2 of the generator of the target group, the
/// value of the pairing at the generators of G1 and G2.
pub open spec fn gt_generator(k: int) -> Fq2Value {
    if k == 0 {
        Fq2Value {
            c0: 0x12c70e90e12b7874510cd1707e8856f71bf7f61d72631e268fca81000db9a1f5int,
            c1: 0x84f330485b09e866bc2f2ea2b897394deaf3f12aa31f28cb0552990967d4704int,
        }
    } else if k == 1 {
        Fq2Value {
            c0: 0xe841c2ac18a4003ac9326b9558380e0bc27fdd375e3605f96b819a358d34bdeint,
            c1: 0x2067586885c3318eeffa1938c754fe3c60224ee5ae15e66af6b5104c47c8c5d8int,
        }
    } else if k == 2 {
        Fq2Value {
            c0: 0x1676555de427abc409c4a394bc5426886302996919d4bf4bdd02236e14b3636int,
            c1: 0x2b03614464f04dd772d86df88674c270ffc8747ea13e72da95e3594468f222c4int,
        }
    } else if k == 3 {
        Fq2Value {
            c0: 0x2c53748bcd21a7c038fb30ddc8ac3bf0af25d7859cfbc12c30c866276c565909int,
            c1: 0x27ed208e7a0b55ae6e710bbfbd2fd922669c026360e37cc5b2ab862411536104int,
        }
    } else if k == 4 {
        Fq2Value {
            c0: 0x1ad9db1937fd72f4ac462173d31d3d6117411fa48dba8d499d762b47edb3b54aint,
            c1: 0x279db296f9d479292532c7c493d8e0722b6efae42158387564889c79fc038ee3int,
        }
    } else {
        Fq2Value {
            c0: 0xdc26f240656bbe2029bd441d77c221f0ba4c70c94b29b5f17f0f6d08745a069int,
            c1: 0x108c19d15f9446f744d0f110405d3856d6cc3bda6c4d537663729f5257628417int,
        }
    }
}

} // verus!
