//! The power of `xi = 9 + u` with exponent `(q - 1) / 6`, which the
//! coefficients of the Frobenius maps are made of, step by step.

use crate::model::frobenius::{lemma_xi_next, lemma_xi_square, lemma_xi_start, xi_power_is};
use vstd::prelude::*;

verus! {

/// `(q - 1) / 6`.
pub open spec fn sixth() -> nat {
    0x810b7bdd032f006f40d60f3c0403964ee9591c2e6bda1c234b017592414d4e1nat
}

/// The bits from 0 on of the exponent, from the top.
proof fn lemma_xi_power_0()
    ensures
        xi_power_is(
            0x810b7bddnat,
            0x26b3148f1db52e091e70c6ff422aefe0f65dfdb471425fdc19dc0cfcad3692ffint,
            0xbd2b5a7953b98f7c173fca6772c670841a1ae8e4b8e602196af500c3a8991f3int,
        ),
{
    lemma_xi_start();
    lemma_xi_square(
        0nat,
        1int,
        0int,
        1int,
        0int,
        0int,
    );
    assert(xi_power_is(0nat, 1int, 0int));
    lemma_xi_next(0nat, 1int, 0int);
    assert(xi_power_is(1nat, 9int, 1int));
    lemma_xi_square(
        1nat,
        9int,
        1int,
        81int,
        1int,
        9int,
    );
    assert(xi_power_is(2nat, 80int, 18int));
    lemma_xi_square(
        2nat,
        80int,
        18int,
        0x1900int,
        324int,
        0x5a0int,
    );
    assert(xi_power_is(4nat, 0x17bcint, 0xb40int));
    lemma_xi_square(
        4nat,
        0x17bcint,
        0xb40int,
        0x2335210int,
        0x7e9000int,
        0x10b0300int,
    );
    assert(xi_power_is(8nat, 0x1b4c210int, 0x2160600int));
    lemma_xi_square(
        8nat,
        0x1b4c210int,
        0x2160600int,
        0x2e925999c4100int,
        0x459fd08240000int,
        0x38f1709ec6000int,
    );
    assert(xi_power_is(16nat, 0x30644e72e131a029b85045b68181585d97816a916871ca8d3c1f1b3f69f53e47int, 0x71e2e13d8c000int));
    lemma_xi_square(
        16nat,
        0x30644e72e131a029b85045b68181585d97816a916871ca8d3c1f1b3f69f53e47int,
        0x71e2e13d8c000int,
        0x2136c13111cdbc21f00810000int,
        0x32aa13eacc706ee40490000000int,
        0x30644e72e131a029b85045b68181585d97816a8727122294f6bf517ae13cfd47int,
    );
    assert(xi_power_is(32nat, 0x30644e72e131a029b85045b68181585d97816a60d1c9f2d1e88d6a3148fdfd47int, 0x30644e72e131a029b85045b68181585d97816a7ce5b27a9cb15e16dee9fcfd47int));
    lemma_xi_square(
        32nat,
        0x30644e72e131a029b85045b68181585d97816a60d1c9f2d1e88d6a3148fdfd47int,
        0x30644e72e131a029b85045b68181585d97816a7ce5b27a9cb15e16dee9fcfd47int,
        0x938d79a051a09505b396475e4a3c2b622b2c7a5210100000000int,
        0x1a4b0ab59be5d35359d77da6b285b93a6395932400000000000int,
        0x3e495eda98efbbeab49a37c26f25fd7fa393d78d18000000000int,
    );
    assert(xi_power_is(64nat, 0x79426eeab5bac1b259bec9b797b67227c796e72e10100000000int, 0x7c92bdb531df77d569346f84de4bfaff4727af1a30000000000int));
    lemma_xi_square(
        64nat,
        0x79426eeab5bac1b259bec9b797b67227c796e72e10100000000int,
        0x7c92bdb531df77d569346f84de4bfaff4727af1a30000000000int,
        0xda3f99be77fbbf87534eeb86b3edce1b490504537cefcfc1235e07f423d2d55int,
        0x2b9911bca5aaad73211f82322f760d4e78c5ed1b94f316381aa473a5deee0e86int,
        0x1f80a69f842066388d0b5211a79a9cbd671be18c2b5f8ceda1e1461e81d4ff6aint,
    );
    assert(xi_power_is(128nat, 0x126f36522306aeaf0c65b23cbd4a27f0d34bcdbb0b4db15133b1f8f03bcc1c16int, 0xe9cfecc270f2c4761c65e6ccdb3e11d36b65886ee4d4f4e07a200262b2d018dint));
    lemma_xi_next(128nat, 0x126f36522306aeaf0c65b23cbd4a27f0d34bcdbb0b4db15133b1f8f03bcc1c16int, 0xe9cfecc270f2c4761c65e6ccdb3e11d36b65886ee4d4f4e07a200262b2d018dint);
    assert(xi_power_is(129nat, 0x61efebe70981762e4dc149255637d41706fa3583e188ce5153e1c0765890364int, 0x4c74026defa5cb4536e32ec741908def930aac532b01b67c402560336ea3236int));
    lemma_xi_square(
        129nat,
        0x61efebe70981762e4dc149255637d41706fa3583e188ce5153e1c0765890364int,
        0x4c74026defa5cb4536e32ec741908def930aac532b01b67c402560336ea3236int,
        0x2cf853bfa5bc928083f64183e25ddfc4e139734d816648f7932d498403b3b65dint,
        0xa2283b087e54ab05439a4ef199d1a469381ac739096893ed2b58f19377be959int,
        0x131f0191ca37f99b6fe820633aeb9b43ec43665f5f804363d916f00d21c4a86bint,
    );
    assert(xi_power_is(258nat, 0x22d5d00f1dd747d02fbc9c94c8c0c57e4db7c6d9f0cfbfb8c077ba6acc37cd04int, 0x263e0323946ff336dfd040c675d73687d886ccbebf0086c7b22de01a438950d6int));
    lemma_xi_square(
        258nat,
        0x22d5d00f1dd747d02fbc9c94c8c0c57e4db7c6d9f0cfbfb8c077ba6acc37cd04int,
        0x263e0323946ff336dfd040c675d73687d886ccbebf0086c7b22de01a438950d6int,
        0x2eae47e39a49050255308c5e512416c363dbdf115f69c6e17bc9258a1bffebccint,
        0x260f6deb89202257b2a77582c55870e729d00500da9ac5dce5a7ee1027933d59int,
        0x1881c66c6515d13caf22caada22292cc540e057f59db436e8c55410f577418f9int,
    );
    assert(xi_power_is(516nat, 0x89ed9f81128e2aaa28916db8bcba5dc3a0bda1084cf010496213779f46cae73int, 0x9f3e65e8fa024fa5f54fa4c2c3cd3b109aa06d4b44bc4fdc89f607d66b34abint));
    lemma_xi_square(
        516nat,
        0x89ed9f81128e2aaa28916db8bcba5dc3a0bda1084cf010496213779f46cae73int,
        0x9f3e65e8fa024fa5f54fa4c2c3cd3b109aa06d4b44bc4fdc89f607d66b34abint,
        0x180ec359ef32b90bb5d01c410d4a05cf08f3def36cbfd839495b2d06b1afca31int,
        0x29b663c6305f2e9a5e4d16a27d18189e525b01653c148ef66e137d77363fa01eint,
        0x13a70d6a70f6da8840dcb3eab605806dccd2e825e6ca96e099c34dc773015d66int,
    );
    assert(xi_power_is(0x408nat, 0x1ebcae06a0052a9b0fd34b5511b3458e4e1a481f991d13d017683ba653ed275aint, 0x274e1ad4e1edb51081b967d56c0b00db99a5d04bcd952dc133869b8ee602baccint));
    lemma_xi_square(
        0x408nat,
        0x1ebcae06a0052a9b0fd34b5511b3458e4e1a481f991d13d017683ba653ed275aint,
        0x274e1ad4e1edb51081b967d56c0b00db99a5d04bcd952dc133869b8ee602baccint,
        0x2ceeb80d73dcb16056e2f182b68405b0620abc0d6cbb6d45bf21e694b1be8a40int,
        0x2d91cb8a2d7ac7575c3e3a3a68064eb261e4a9dbcc4865b7d7fba6f9b6fc0c44int,
        0x16b9b05dfc90a1501d1e043bf71ca5f2a78f7d7e20cbd00850aae55c0d35687dint,
    );
    assert(xi_power_is(0x810nat, 0x2fc13af627938a32b2f4fcfecfff0f5b97a77cc308e4d21b2346cbb1d33f7b43int, 0x2d7360bbf92142a03a3c0877ee394be54f1efafc4197a010a155cab81a6ad0faint));
    lemma_xi_square(
        0x810nat,
        0x2fc13af627938a32b2f4fcfecfff0f5b97a77cc308e4d21b2346cbb1d33f7b43int,
        0x2d7360bbf92142a03a3c0877ee394be54f1efafc4197a010a155cab81a6ad0faint,
        0xe0a723c691bd3335440113d975d1646e35ed20ad2939fb216df109efae832b9int,
        0x2b9536e5a2edaf076137b74b01256a4083af5c9532d575d46137ed4cb6b624a7int,
        0x303c35ae02a2846cba01bfa1cc05e47ebd341ab0c6d6698675b0164e6b93cfcdint,
    );
    assert(xi_power_is(0x1020nat, 0x12d989c9a75fc455ab589fa917b90463f730e007082ff46af1c7af691caf0b59int, 0x30141ce9241368afbbb3398d168a709fe2e6cad0253b087faf3fa085feaaa253int));
    lemma_xi_next(0x1020nat, 0x12d989c9a75fc455ab589fa917b90463f730e007082ff46af1c7af691caf0b59int, 0x30141ce9241368afbbb3398d168a709fe2e6cad0253b087faf3fa085feaaa253int);
    assert(xi_power_is(0x1021nat, 0x18c91e47fbe73dffd9c9d7f7bbf406289ece404c5390fa28588471fe5282c940int, 0x1007cbf2014fd10bc9d33234550adeb89dc1423bab4321f0fddf67517449d8c5int));
    lemma_xi_square(
        0x1021nat,
        0x18c91e47fbe73dffd9c9d7f7bbf406289ece404c5390fa28588471fe5282c940int,
        0x1007cbf2014fd10bc9d33234550adeb89dc1423bab4321f0fddf67517449d8c5int,
        0x977e1c1a8aaf435a7dfd42516891bcfd3c0bcbf3b2893da1550c1653a57ddcbint,
        0x238c0e022d9e32ce6d9659c836d40fd0dcb3f8f75fb02d8781235e96307be719int,
        0x2a7a67ef8dc8484bfc676869a1fcff5b2600b2749b430b996987a214571898fcint,
    );
    assert(xi_power_is(0x2042nat, 0x165022325c3e6190f299c0136136645c8e8e2e5943ea30dfd04deee5e258f3f9int, 0x2490816c3a5ef06e407e8b1cc278a658b47ffa57ce144ca596eeb811d5b434b1int));
    lemma_xi_square(
        0x2042nat,
        0x165022325c3e6190f299c0136136645c8e8e2e5943ea30dfd04deee5e258f3f9int,
        0x2490816c3a5ef06e407e8b1cc278a658b47ffa57ce144ca596eeb811d5b434b1int,
        0x2b614ce8de1ff35a280dd9fa498efc11f580f54a31b7ec3fb8ad5a8433f7877dint,
        0x17607336fb060c8afb9a656356362a6d85e6a467e5bbb081ce92ae89c38829fint,
        0x16fb23b81ccedb5d4e1b0df9da8a63ad147daf5019bc70f867c2306febfce1d1int,
    );
    assert(xi_power_is(0x4084nat, 0x29eb45b56e6f9291785433a4142b996b1d228b03b35c31379bc42f9b97bf04deint, 0x2df64770399db6ba9c361bf3b514c75a28fb5ea03378e1f0cf8460dfd7f9c3a2int));
    lemma_xi_next(0x4084nat, 0x29eb45b56e6f9291785433a4142b996b1d228b03b35c31379bc42f9b97bf04deint, 0x2df64770399db6ba9c361bf3b514c75a28fb5ea03378e1f0cf8460dfd7f9c3a2int);
    assert(xi_power_is(0x4085nat, 0x28f5553f6124af684cde1289f76b8b3850330518a81a19b4419e030f6acf7882int, 0x140d069d8a3c5da97b68bbcae45a804c3a6c1f88d69c03b7ca46aaac9321fe11int));
    lemma_xi_square(
        0x4085nat,
        0x28f5553f6124af684cde1289f76b8b3850330518a81a19b4419e030f6acf7882int,
        0x140d069d8a3c5da97b68bbcae45a804c3a6c1f88d69c03b7ca46aaac9321fe11int,
        0x1ff40a27086f89a6a03040ac62c602803a0ba3087b43efe62de9fa7d78e96d3bint,
        0x971cf35657f6022dfa2f987ea160d8c4c38d4ce172049f3a7e53964ea325eddint,
        0x22df74223e32c1cb37780923e4ae4a2fe734923663b48e8b5a7afec4539f30e0int,
    );
    assert(xi_power_is(0x810anat, 0x16823af1a2f02983c08d472478aff4f3edd2ce3a6423a5f28604c1188eb70e5eint, 0x155a99d19b33e36cb69fcc9147db3c0236e7b9db5ef7528978d57171cec16479int));
    lemma_xi_next(0x810anat, 0x16823af1a2f02983c08d472478aff4f3edd2ce3a6423a5f28604c1188eb70e5eint, 0x155a99d19b33e36cb69fcc9147db3c0236e7b9db5ef7528978d57171cec16479int);
    assert(xi_power_is(0x810bnat, 0x240c8d547ba8b1b7e566e29371d057785efd467decf4235588f3b426ac372500int, 0x1520698492fca7af4aea6165f95faf917df2acab190e6292d5038dbd718fa183int));
    lemma_xi_square(
        0x810bnat,
        0x240c8d547ba8b1b7e566e29371d057785efd467decf4235588f3b426ac372500int,
        0x1520698492fca7af4aea6165f95faf917df2acab190e6292d5038dbd718fa183int,
        0x2679b426c8dfc193d3f73ce21a2b1f06b2e6b1de89747190399f005757151478int,
        0xd5f37af03fa37301fdc9bdfc99fb087012d5dc7fb191a92f65a59142b324095int,
        0x22b9eb64bdda2f9976473bb76ac1988d2adfbd68d44b0597c2fed22b8ee14782int,
    );
    assert(xi_power_is(0x10216nat, 0x191a7c77c4e58a63b41aa102508b6e7fb1b954168e5b56fd4344a7432be2d3e3int, 0x150f88569a82bf09343e31b85401d8bcbe3e1040402440a249dd1840454591bdint));
    lemma_xi_square(
        0x10216nat,
        0x191a7c77c4e58a63b41aa102508b6e7fb1b954168e5b56fd4344a7432be2d3e3int,
        0x150f88569a82bf09343e31b85401d8bcbe3e1040402440a249dd1840454591bdint,
        0x25876de0959621c6f17fb623cf5e09989c7ebe46b316f7f23cf827128cb562c6int,
        0x1c12fff0da0e91012c0cbe178f7cf612e62a1002cb47e33a100a377b68f02787int,
        0x187d653f80a78a8933a98c6a48c3bbbe9f227cf17c4adf8f6621a1fa130cedc1int,
    );
    assert(xi_power_is(0x2042cnat, 0x9746defbb8790c5c572f80c3fe11385b654ae43e7cf14b82cedef9723c53b3fint, 0x967c0c201d74e8af02d31e10061f1fa6c38f519023f4919022b7dd4d9cde3bint));
    lemma_xi_next(0x2042cnat, 0x9746defbb8790c5c572f80c3fe11385b654ae43e7cf14b82cedef9723c53b3fint, 0x967c0c201d74e8af02d31e10061f1fa6c38f519023f4919022b7dd4d9cde3bint);
    assert(xi_power_is(0x2042dnat, 0x241d12ee967501e189b79f99ad6238362ab526802db1fb5ac81a285c1bd539b5int, 0xebeca5cdc90acf3ec8c641ad0182ba29334b821f912add63e26665ede490b52int));
    lemma_xi_square(
        0x2042dnat,
        0x241d12ee967501e189b79f99ad6238362ab526802db1fb5ac81a285c1bd539b5int,
        0xebeca5cdc90acf3ec8c641ad0182ba29334b821f912add63e26665ede490b52int,
        0x161991caafb899dd6a89b13c6f8602960568ac6e43f4d765bb97ede06f0c7680int,
        0x1f0db5abd78815ea96b521b2c291316bbac64d69a2bc62e6d9b6756b4de94a8dint,
        0x21a9cc0cc21279c11ec34081bc9a06845a2538d94ecc2c47fe96458711372656int,
    );
    assert(xi_power_is(0x4085anat, 0x27702a91b962241c8c24d5402e762987e223c99609aa3f0c1e02048bf9a0293aint, 0x12ef49a6a2f3535885363b4cf7b2b4ab1cc9072135268e02c10bfef749f14f65int));
    lemma_xi_next(0x4085anat, 0x27702a91b962241c8c24d5402e762987e223c99609aa3f0c1e02048bf9a0293aint, 0x12ef49a6a2f3535885363b4cf7b2b4ab1cc9072135268e02c10bfef749f14f65int);
    assert(xi_power_is(0x4085bnat, 0x2da85ec79a5630ae1633a1ada16caeea49708fbcaf2aea1ae442e16b69c233fbint, 0x104887a1ef29919259cbd41addb92215872f5f7b463e12eff6ebcae23127feabint));
    lemma_xi_square(
        0x4085bnat,
        0x2da85ec79a5630ae1633a1ada16caeea49708fbcaf2aea1ae442e16b69c233fbint,
        0x104887a1ef29919259cbd41addb92215872f5f7b463e12eff6ebcae23127feabint,
        0x20128466fa1bf191eff868063d19e7555f999174b8bf1c74e4b12c1cc3ef020dint,
        0x19ecae4087656ec9039fd1840b9e71a54e09219d39c1d488f6b5ddda8397cdbeint,
        0x2ff6050e52f265212ab991cd8d08c1e28aa0400c31e9d8a46c1cc5a39b5fe8f9int,
    );
    assert(xi_power_is(0x810b6nat, 0x625d62672b682c8ec589682317b75b011906fd77efd47ebedfb4e424057344fint, 0x2f87bba9c4b32a189d22dde498902b677dbf1586fb61e6bb9c18ff305e42d4abint));
    lemma_xi_next(0x810b6nat, 0x625d62672b682c8ec589682317b75b011906fd77efd47ebedfb4e424057344fint, 0x2f87bba9c4b32a189d22dde498902b677dbf1586fb61e6bb9c18ff305e42d4abint);
    assert(xi_power_is(0x810b7nat, 0x7cccbb043b76ef7b1fa6caf24c6f7c92054d90c7b85a08fc1bcc123e4ce021cint, 0x2ec8fb875375fc58b01035d782823966c13cdd0b11e0101a89d7e63eccc8c41aint));
    lemma_xi_square(
        0x810b7nat,
        0x7cccbb043b76ef7b1fa6caf24c6f7c92054d90c7b85a08fc1bcc123e4ce021cint,
        0x2ec8fb875375fc58b01035d782823966c13cdd0b11e0101a89d7e63eccc8c41aint,
        0x933c89f7d6f8d2d6b4d583df7a4b1c6e21e51e178afeecdd943d9f01646d22aint,
        0x29e105bae1b4159ffa07b69ecdf83610de75d998cb10195df680fb61fc0b487int,
        0x10173bdb48c27b0c8276785fe08aff5e0884d3db1eac352830f0b3ecde2d8129int,
    );
    assert(xi_power_is(0x10216enat, 0x695b843cf544bd36bacdcd40ac52e65d436f447ebfeed37f9dbca39f6861da3int, 0x202e77b69184f61904ecf0bfc115febc1109a7b63d586a5061e167d9bc5b0252int));
    lemma_xi_next(0x10216enat, 0x695b843cf544bd36bacdcd40ac52e65d436f447ebfeed37f9dbca39f6861da3int, 0x202e77b69184f61904ecf0bfc115febc1109a7b63d586a5061e167d9bc5b0252int);
    assert(xi_power_is(0x10216fnat, 0x1b1502abb871b455c426d2b49fd8a2d864e4eed10e9deca766d8b42fee5c0869int, 0x5de16fda5d731ba461fb14acb8310d0e0855a47a16feabc0205285882cb42dbint));
    lemma_xi_square(
        0x10216fnat,
        0x1b1502abb871b455c426d2b49fd8a2d864e4eed10e9deca766d8b42fee5c0869int,
        0x5de16fda5d731ba461fb14acb8310d0e0855a47a16feabc0205285882cb42dbint,
        0x2c3f0b9467ef869863af404fecf83660fe723399c7a347f9b54857402281c6b5int,
        0x1dbc6beeac5a23ab1fe5212b228dac7e46b5af882a9bc31a70294da7f99ef577int,
        0x22bb722bab125b378c2221079d82dd8e31dc09d4f02b469325e3643d57e95c9eint,
    );
    assert(xi_power_is(0x2042denat, 0xe829fa5bb9562ed43ca1f24ca6a89e2b7bc84119d0784df451f099828e2d13eint, 0x151295e474f316455ff3fc58b98462becc36a91877e4c2990fa63c63d755bbf5int));
    lemma_xi_square(
        0x2042denat,
        0xe829fa5bb9562ed43ca1f24ca6a89e2b7bc84119d0784df451f099828e2d13eint,
        0x151295e474f316455ff3fc58b98462becc36a91877e4c2990fa63c63d755bbf5int,
        0x251df903ea8b018b14885db2ed830abe0cbc6cc822996041546c76b85a3b0a1cint,
        0x13a584588968ebd90f068c674ec2461588932ef94563550ee89656a363983aaint,
        0x1a869dd75be092bac46f2e5ac34968f75605c02ecb374a74942f1555395be887int,
    );
    assert(xi_power_is(0x4085bcnat, 0x23e3a0be61f472cd8397f4ec7896e65cb43339d88e432af065e3114e24018672int, 0x4a8ed3bd68f854bd08e16ff05117991148a15cc2dfcca5bec3d9e939a3ad3c7int));
    lemma_xi_next(0x4085bcnat, 0x23e3a0be61f472cd8397f4ec7896e65cb43339d88e432af065e3114e24018672int, 0x4a8ed3bd68f854bd08e16ff05117991148a15cc2dfcca5bec3d9e939a3ad3c7int);
    assert(xi_power_is(0x4085bdnat, 0x1bfde2c453dec2f37de7e30a2f348d7fb43a73685fb4f8c83ffab4a296e4f691int, 0x1d6fa9660bce824e20467e2d24b2d418d58c9374c3b47d9e77ed1867b795fb2aint));
    lemma_xi_square(
        0x4085bdnat,
        0x1bfde2c453dec2f37de7e30a2f348d7fb43a73685fb4f8c83ffab4a296e4f691int,
        0x1d6fa9660bce824e20467e2d24b2d418d58c9374c3b47d9e77ed1867b795fb2aint,
        0x1c5cb02b9dd5b1316b6183e33c9a5f10318597323ff99a4c983434c46644c908int,
        0x22a4b11d3888fdb2b2ddb4e30ae067f353ad2c1aed8705facaa711aee343c80fint,
        0x206df20096ad5be269ad72a10d52e03f0bdebfa662bbc3c96aab6c37564f5ca0int,
    );
    assert(xi_power_is(0x810b7anat, 0x2a1c4d81467e53a870d414b6b33b4f7a7559d5a8bae45edf09adaf2c5b7dfe40int, 0x1077958e4c29179b1b0a9f8b99246820803c14bb5d05bd0599364c57d421bbf9int));
    lemma_xi_next(0x810b7anat, 0x2a1c4d81467e53a870d414b6b33b4f7a7559d5a8bae45edf09adaf2c5b7dfe40int, 0x1077958e4c29179b1b0a9f8b99246820803c14bb5d05bd0599364c57d421bbf9int);
    assert(xi_power_is(0x810b7bnat, 0x17c8fed905ec782cd23832e32967f89e7b62843959e50ef51901079777e14756int, 0x2d23a429505b479f3b42df7b90feef8630f2508ac6c2a469b834b9fe4736a22cint));
    lemma_xi_square(
        0x810b7bnat,
        0x17c8fed905ec782cd23832e32967f89e7b62843959e50ef51901079777e14756int,
        0x2d23a429505b479f3b42df7b90feef8630f2508ac6c2a469b834b9fe4736a22cint,
        0x94d95ac6ae8d975426a7a36f38ebafc74cd2641ad204b07798c1703fd48837bint,
        0x41fc62fbd20357ee00ec9426d73af3ee2488e76f2610822435239e9e0d5779eint,
        0x7ba567c3ca2b3590d1228651598af57a29142c53e5db51c3801ba5ed31f0a10int,
    );
    assert(xi_power_is(0x10216f6nat, 0x52dcf7cadc8a3f6625bb0f4861b0bbd928497cababf42e53639dd1a1c730bddint, 0xf74acf8794566b21a2450ca2b315eaf4522858a7cbb6a38700374bda63e1420int));
    lemma_xi_next(0x10216f6nat, 0x52dcf7cadc8a3f6625bb0f4861b0bbd928497cababf42e53639dd1a1c730bddint, 0xf74acf8794566b21a2450ca2b315eaf4522858a7cbb6a38700374bda63e1420int);
    assert(xi_power_is(0x10216f7nat, 0x1f279e69a2c85cf75b14e7ce8bc20afae186d09613fdefd67805512d59cd56a5int, 0x2f7f47532ed5ffe5dd01fca307d4af2bd1b874864c7269c6ae17df9743a7c66fint));
    lemma_xi_square(
        0x10216f7nat,
        0x1f279e69a2c85cf75b14e7ce8bc20afae186d09613fdefd67805512d59cd56a5int,
        0x2f7f47532ed5ffe5dd01fca307d4af2bd1b874864c7269c6ae17df9743a7c66fint,
        0x30eb236c965ec17596f6a690de5053594293309716da8cb9c717f88618b504int,
        0xaf5f5a5f1b706a29ea1db883c9ad3bf587c7e590f2406dacbb19d537cca338dint,
        0x25bc0cb5bf53a8ba6aaac2648f3addb224cf4802dadae5fe1c09362023ba1cf7int,
    );
    assert(xi_power_is(0x2042deenat, 0x259f43f05c10f8488f4560d4d5c4d4f198477f68f0649e3f2a3606bbe1cb7ebeint, 0x1b13caf89d75b14b1d053f129cf46306b21d25744d44016efbf1e0296ef73ca7int));
    lemma_xi_next(0x2042deenat, 0x259f43f05c10f8488f4560d4d5c4d4f198477f68f0649e3f2a3606bbe1cb7ebeint, 0x1b13caf89d75b14b1d053f129cf46306b21d25744d44016efbf1e0296ef73ca7int);
    assert(xi_power_is(0x2042defnat, 0x152bc1c957f948479a898621ddef07461b5dd5d3b39acf7a173113e86e42485dint, 0x275bde6f7f3c131bfae33bebd2d59659e5c6bba89d8fb663d9142bbe8e0bae3aint));
    lemma_xi_square(
        0x2042defnat,
        0x152bc1c957f948479a898621ddef07461b5dd5d3b39acf7a173113e86e42485dint,
        0x275bde6f7f3c131bfae33bebd2d59659e5c6bba89d8fb663d9142bbe8e0bae3aint,
        0x5f52fa313479dfbcc554ea7c19865061c5b468c141757673a5dfca214dff136int,
        0x285866a3f62b0383bc6a5357adccdc073ee485f5f46d2e1b3e5438d1f3f3ef08int,
        0x1e2ada5a8c38a436a04bbc4c5b2dd28ff2388893bc0cc0a1b7569672b70745bdint,
    );
    assert(xi_power_is(0x4085bdenat, 0xe011771fe4e3aa1c83b4106954ce15c74f82b27881bf3d9382a4fe6f968ff75int, 0xbf16642373fa843884732e234da4cc24cefa6960fa7b6b6328ca0ce95918e33int));
    lemma_xi_square(
        0x4085bdenat,
        0xe011771fe4e3aa1c83b4106954ce15c74f82b27881bf3d9382a4fe6f968ff75int,
        0xbf16642373fa843884732e234da4cc24cefa6960fa7b6b6328ca0ce95918e33int,
        0x6556d3fef0248a3eda7dab55d45588a8020f5a09708ab046cee49fcb92644fint,
        0x27a73244309f0e9b4fca9fc7b9acec7523edaebaa1fd7bf8719ac1ee0b152759int,
        0x2dec5caa809ea0cc933155846cf45a32f7aca30a4b08e61de118a975d9e3b93dint,
    );
    assert(xi_power_is(0x810b7bcnat, 0x9227302af82b618a760239a1da8c1711b95cb30cfe4d9451154aec898fa3a3dint, 0x2b746ae2200ba16f6e12655258675c0857d7db832da001ae8610c6d4db4a7533int));
    lemma_xi_next(0x810b7bcnat, 0x9227302af82b618a760239a1da8c1711b95cb30cfe4d9451154aec898fa3a3dint, 0x2b746ae2200ba16f6e12655258675c0857d7db832da001ae8610c6d4db4a7533int);
    assert(xi_power_is(0x810b7bdnat, 0x26c1a0360b8cc56e744edb18b28770f1a06c4934216ba1bf15e95e38858196f2int, 0xd17c15ec65e61b5c38385cb2d403acf76212e4226f693fde6e74b8d8ab06ed0int));
    lemma_xi_square(
        0x810b7bdnat,
        0x26c1a0360b8cc56e744edb18b28770f1a06c4934216ba1bf15e95e38858196f2int,
        0xd17c15ec65e61b5c38385cb2d403acf76212e4226f693fde6e74b8d8ab06ed0int,
        0x297fe4ce148d892a5f7dd9f6d647de49abed56fcbc7d97041a857c478c01347dint,
        0x274b199baf85b317fa5c837f00d7b8ff37572158987bd45e62ed6bf0dd78008dint,
        0x1ce88c31e84b6d85977dc878e17b1b39320a48e56cb3941a92a36d62e0767f6aint,
    );
    assert(xi_power_is(0x10216f7anat, 0x234cb326507d61265215677d570254a749635a42401c2a5b7981056ae8933f0int, 0x96cc9f0ef653ae176ab4b3b4174de14cc93273970f55da7e9264eaee870018dint));
    lemma_xi_next(0x10216f7anat, 0x234cb326507d61265215677d570254a749635a42401c2a5b7981056ae8933f0int, 0x96cc9f0ef653ae176ab4b3b4174de14cc93273970f55da7e9264eaee870018dint);
    assert(xi_power_is(0x10216f7bnat, 0xa6e5ad49de14bc41780befb3f7c71894cb4bb8bd31a7a2b8b32445d3a62d1e3int, 0x26a39637ee6547d5d8d6b5d6a10a9ba80e412c17b43042ffadd0486601fc449eint));
    lemma_xi_square(
        0x10216f7bnat,
        0xa6e5ad49de14bc41780befb3f7c71894cb4bb8bd31a7a2b8b32445d3a62d1e3int,
        0x26a39637ee6547d5d8d6b5d6a10a9ba80e412c17b43042ffadd0486601fc449eint,
        0xf3defedb8b6a51b8ba93dab333be212dd61c88dd923948c95d48fb4fa442b42int,
        0x20bb701fa9ca5ce06826cd8d14c1a0efe0a14bcc4ea0e9b27ebd5be7564f32e5int,
        0x28033d07f0e73ca71d73b5df76f576d9be892ba07160d1b8e25692936bcd58fdint,
    );
    assert(xi_power_is(0x2042def6nat, 0x1ee6ce40f01de864dbd2b5d49ffb99809441e752f2f475675337bfe47c71f5a4int, 0x1fa22b9d009cd924829726086c699555e590ecaf7a4fd8e4888c990fff1db4b3int));
    lemma_xi_next(0x2042def6nat, 0x1ee6ce40f01de864dbd2b5d49ffb99809441e752f2f475675337bfe47c71f5a4int, 0x1fa22b9d009cd924829726086c699555e590ecaf7a4fd8e4888c990fff1db4b3int);
    assert(xi_power_is(0x2042def7nat, 0x4858c6d0a7831969e3fe1e0abe8165b5b392064060f52fb37c669862672fbaeint, 0x19408014ae77c9b3214169d966a9c7541951ba15cd185620b765d8eb618f6045int));
    lemma_xi_square(
        0x2042def7nat,
        0x4858c6d0a7831969e3fe1e0abe8165b5b392064060f52fb37c669862672fbaeint,
        0x19408014ae77c9b3214169d966a9c7541951ba15cd185620b765d8eb618f6045int,
        0x207b3f2561f7e11d05928fd3d9e11d6f329229ea9fbbd737a6ce3e1cee09c919int,
        0xfefbe9bc4c77cd83ffe50b3f735ece6923d6e7f332ecf929899dfa861bb0242int,
        0x2534d4c7307bb7782e0797da4f07bf6e1d657f22ff6d46655aeb07a7ffab6a10int,
    );
    assert(xi_power_is(0x4085bdeenat, 0x108b80899d306444c5943f1fe2ab3088a054bb6b6c8d07a50e345e748c4ec6d7int, 0x1a055b1b7fc5cec6a3bee9fe1c8e267ea34993b49668c23d79b5833926d9d6d9int));
    lemma_xi_square(
        0x4085bdeenat,
        0x108b80899d306444c5943f1fe2ab3088a054bb6b6c8d07a50e345e748c4ec6d7int,
        0x1a055b1b7fc5cec6a3bee9fe1c8e267ea34993b49668c23d79b5833926d9d6d9int,
        0x155fbb10c596ae65acd3837e8452c76d0f204c1a55ab735860b73a50ba0bed0int,
        0x12307a70f3800e331668e99befd33deb041b6cfb8da91d6a926679ac2b3d3831int,
        0x197d83ea35aca75952b89ab3fedea3fcd99814402e1993db3b9768f4c1e8edaint,
    );
    assert(xi_power_is(0x810b7bdcnat, 0x1f89cfb2fa0afcdcfcb4945279f346e964580257802364582fc5860fb8e083e6int, 0x32fb07d46b594eb2a5713567fdbd47f9b33028805c3327b6772ed1e983d1db4int));
    lemma_xi_next(0x810b7bdcnat, 0x1f89cfb2fa0afcdcfcb4945279f346e964580257802364582fc5860fb8e083e6int, 0x32fb07d46b594eb2a5713567fdbd47f9b33028805c3327b6772ed1e983d1db4int);
    assert(xi_power_is(0x810b7bddnat, 0x26b3148f1db52e091e70c6ff422aefe0f65dfdb471425fdc19dc0cfcad3692ffint, 0xbd2b5a7953b98f7c173fca6772c670841a1ae8e4b8e602196af500c3a8991f3int));
}

/// The bits from 32 on of the exponent, from the top.
proof fn lemma_xi_power_1()
    requires
        xi_power_is(
            0x810b7bddnat,
            0x26b3148f1db52e091e70c6ff422aefe0f65dfdb471425fdc19dc0cfcad3692ffint,
            0xbd2b5a7953b98f7c173fca6772c670841a1ae8e4b8e602196af500c3a8991f3int,
        ),
    ensures
        xi_power_is(
            0x810b7bdd032f006fnat,
            0x263d7e75840f32990b2b18c6b8047e54aae917035aadd2415e9d1bb97648bf75int,
            0x188115568c0087df8125aa6da8b23ba333b8f9f9bd554358363a95b7a3a7b20cint,
        ),
{
    lemma_xi_square(
        0x810b7bddnat,
        0x26b3148f1db52e091e70c6ff422aefe0f65dfdb471425fdc19dc0cfcad3692ffint,
        0xbd2b5a7953b98f7c173fca6772c670841a1ae8e4b8e602196af500c3a8991f3int,
        0x2c599550d942e6fdc67183571275207d2bbb69d700ec3ad9f18127c1cf26f430int,
        0x1aed164f8b73d9bc2c32803de3a3f7bd8acaa97d1d45682efa8a168cd8dc68dint,
        0x1af56c91dc072f1139a51f442ad47561ad53b52ffa9283ee886c1bb3b01bdb10int,
    );
    assert(xi_power_is(0x10216f7banat, 0x2aaac3ebe08ba96203ae5b53343ae101530ebf3f2f17e45701d8865901992da3int, 0x5868ab0d6dcbdf8baf9f8d1d4279265c325ffce8cb33d4fd4b7ab5087bab8d9int));
    lemma_xi_square(
        0x10216f7banat,
        0x2aaac3ebe08ba96203ae5b53343ae101530ebf3f2f17e45701d8865901992da3int,
        0x5868ab0d6dcbdf8baf9f8d1d4279265c325ffce8cb33d4fd4b7ab5087bab8d9int,
        0x12ccfbb5930c1d23404149dcbecbc11e92affabafbe2e575da7e616c35271137int,
        0x30191cf56c4d01a652320a29eb2be1ab4ad69f23dc3f70e2c518850afc4e13fbint,
        0x1aa1d073d401cbfc07f3decde991244fa1c587268d3f13bcd841d979583c4e27int,
    );
    assert(xi_power_is(0x2042def74nat, 0x13182d3307f0bba6a65f8569552137d0df5ac62888153f20518668781155fa83int, 0x4df5274c6d1f7ce579777e551a0f041ac09a3bbb20c5cec746326dbd7fb9f07int));
    lemma_xi_square(
        0x2042def74nat,
        0x13182d3307f0bba6a65f8569552137d0df5ac62888153f20518668781155fa83int,
        0x4df5274c6d1f7ce579777e551a0f041ac09a3bbb20c5cec746326dbd7fb9f07int,
        0x1b8dcde816724ce6d39e418959b39e2a8ae9484e08ff47306cb96d138c1004c7int,
        0x2e77b09d709534f7fa82a478ac8fd5d0406c02042430ac2db13df1d787ec3ef9int,
        0xd165dba5d0a7cf4b9409ef03975803494cedafebc02002f54738c2c9027eb25int,
    );
    assert(xi_power_is(0x4085bdee8nat, 0x1d7a6bbd870eb818916be2c72ea520b7e1feb0db4d40658ff79c0752dca0c315int, 0x1a2cbb74ba14f9e972813de072eb0069299db5fd7804005ea8e71859204fd64aint));
    lemma_xi_square(
        0x4085bdee8nat,
        0x1d7a6bbd870eb818916be2c72ea520b7e1feb0db4d40658ff79c0752dca0c315int,
        0x1a2cbb74ba14f9e972813de072eb0069299db5fd7804005ea8e71859204fd64aint,
        0x45547625fe7e4a80af500fddb5a460f039f7013bf58db0aa8d8f37cb861b6f2int,
        0x1724466bdef26788ef2b44ab941cf7bf527149c11539e7529dc6985d09c5dbcbint,
        0x63edcb9164b91776a112c8b7bf9fbdcd37703b6af843267fcb9abe10265cb41int,
    );
    assert(xi_power_is(0x810b7bdd0nat, 0x1d954f6962271d48d41a0208c8bea6ad48af90e41290be454732e7368718d86eint, 0xc7db9722c9722eed4225916f7f3f7b9a6ee076d5f0864cff97357c204cb9682int));
    lemma_xi_square(
        0x810b7bdd0nat,
        0x1d954f6962271d48d41a0208c8bea6ad48af90e41290be454732e7368718d86eint,
        0xc7db9722c9722eed4225916f7f3f7b9a6ee076d5f0864cff97357c204cb9682int,
        0x1c049570027dfd195cb9e8d40944cca9ce2f81223c373528610bfcc0fffc8f80int,
        0x166b3382a9b6eaf24e924150ff437c5c2caf83a57bf41c1095f95e85701262b3int,
        0x101da85378059fb7b29df073984fb42f21f4f68bc714e34a42ec9a9095abd45dint,
    );
    assert(xi_power_is(0x10216f7ba0nat, 0x59961ed58c712270e27a7830a01504da17ffd7cc0431917cb129e3b8fea2ccdint, 0x203b50a6f00b3f6f653be0e7309f685e43e9ed178e29c69485d935212b57a8baint));
    lemma_xi_square(
        0x10216f7ba0nat,
        0x59961ed58c712270e27a7830a01504da17ffd7cc0431917cb129e3b8fea2ccdint,
        0x203b50a6f00b3f6f653be0e7309f685e43e9ed178e29c69485d935212b57a8baint,
        0x2a2e2ba354a5c6921970ea52ec010e8ad2f753b4b19850eebe28e45740784d1dint,
        0x1eb13987a17a284929f5aadd0238840299221124cac56208344ca022f90cfd19int,
        0x813c1a3e5a08d7cd55e221ade03ac249f6c8c0e82b93d3d5d0436ac34ffcb14int,
    );
    assert(xi_power_is(0x2042def740nat, 0xb7cf21bb32b9e48ef7b3f75e9c88a8839d5428fe6d2eee689dc4434476b5004int, 0x10278347cb411af9aabc4435bc0758493ed9181d05727a7aba086d5869ff9628int));
    lemma_xi_square(
        0x2042def740nat,
        0xb7cf21bb32b9e48ef7b3f75e9c88a8839d5428fe6d2eee689dc4434476b5004int,
        0x10278347cb411af9aabc4435bc0758493ed9181d05727a7aba086d5869ff9628int,
        0x21486c2ed366c28bc2cac6f0686a6994eb5271e6ebea5aa02408d377bba8da1aint,
        0x1cb614ab8e95d00094b8bc1729afd74f5e7f876ba771af42a054c573204f87a5int,
        0x25fc8a2223aaee14d6fbfc1a6669b745fb92096239e6195fbba4085682f1fb22int,
    );
    assert(xi_power_is(0x4085bdee80nat, 0x492578344d0f28b2e120ad93eba92458cd2ea7b4478ab5d83b40e049b595275int, 0x1b94c5d166243bfff5a7b27e4b52162e5fa2a8330b5a68323b2784962d66f8fdint));
    lemma_xi_next(0x4085bdee80nat, 0x492578344d0f28b2e120ad93eba92458cd2ea7b4478ab5d83b40e049b595275int, 0x1b94c5d166243bfff5a7b27e4b52162e5fa2a8330b5a68323b2784962d66f8fdint);
    assert(xi_power_is(0x4085bdee81nat, 0xd904dcc05344ae4a8faaf24e93d0e4393c796225ce39e17662cf99348bced20int, 0xad7c3a1761eedba3765f4b95d16a012f403bf6fa06d605f6b74fad9f98720f7int));
    lemma_xi_square(
        0x4085bdee81nat,
        0xd904dcc05344ae4a8faaf24e93d0e4393c796225ce39e17662cf99348bced20int,
        0xad7c3a1761eedba3765f4b95d16a012f403bf6fa06d605f6b74fad9f98720f7int,
        0x2f7e73263cdc57dd5a6963b6f167a301deba9d77f789c5a6c1cd556577b6c131int,
        0xaf328a07895d625614ce5a502ebdf260ec8460ccf3ec4c70d1a5db150fa5693int,
        0x23bfc05fa674ba03a91d16ce40fdd0cdc6f850b7f0a73f91f1d8fb87113355eint,
    );
    assert(xi_power_is(0x810b7bdd02nat, 0x248b4a85c44681b7f91c7e11ee7bc3dbcff2576b284b00dfb4b2f7b426bc6a9eint, 0x477f80bf4ce97407523a2d9c81fba19b8df0a16fe14e7f23e3b1f70e2266abcint));
    lemma_xi_next(0x810b7bdd02nat, 0x248b4a85c44681b7f91c7e11ee7bc3dbcff2576b284b00dfb4b2f7b426bc6a9eint, 0x477f80bf4ce97407523a2d9c81fba19b8df0a16fe14e7f23e3b1f70e2266abcint);
    assert(xi_power_is(0x810b7bdd03nat, 0x2213cff6aa82373cfafb29809132166f099d8944f9e3609bb34c4d5b678b6528int, 0x1c5eb47e7e5832d25f0cf2037617f665b84847a8ae955dd6a8a6869541992df3int));
    lemma_xi_square(
        0x810b7bdd03nat,
        0x2213cff6aa82373cfafb29809132166f099d8944f9e3609bb34c4d5b678b6528int,
        0x1c5eb47e7e5832d25f0cf2037617f665b84847a8ae955dd6a8a6869541992df3int,
        0xc2f29b84fd8b2e97f191739c758001ac45b5c702c3386327cf659485d59452aint,
        0x1e18574073eac0c9be55bba152b4be3d49f3112cf3bdd0ed73119058d0c8dc5cint,
        0x2751ecea2113712c1e98693da1dbb00049a027ec29ef746b80f958ae58a7719fint,
    );
    assert(xi_power_is(0x10216f7ba06nat, 0x1e7b20eabd1f92497913a14ef6249a3b11e9b5d4a0e77fd246055506650d6615int, 0x1e3f8b6160f5422e84e08cc4c23607a2fbbee546eb6d1e49c5d22545d8d1e5f7int));
    lemma_xi_square(
        0x10216f7ba06nat,
        0x1e7b20eabd1f92497913a14ef6249a3b11e9b5d4a0e77fd246055506650d6615int,
        0x1e3f8b6160f5422e84e08cc4c23607a2fbbee546eb6d1e49c5d22545d8d1e5f7int,
        0x21479a97f0c62cfef1ae9a53b8b15aaa470d1aa130745b132e08ef9ebc20bee5int,
        0x2e7e49d4e02cd476b95ab177e0b6d93d2de34bdb2d94cad9391fe2453a7e1703int,
        0x15261ac677f48b6321b4b59cd11f5c74427ef568a3d6edbd7003acd62c9433bdint,
    );
    assert(xi_power_is(0x2042def740cnat, 0x232d9f35f1caf8b1f0a42e92597bd9cab0ab39576b515ac7310999705a1fa529int, 0x2a4c358cefe916c643696b39a23eb8e884fdead147addb7ae00759ac5928677aint));
    lemma_xi_square(
        0x2042def740cnat,
        0x232d9f35f1caf8b1f0a42e92597bd9cab0ab39576b515ac7310999705a1fa529int,
        0x2a4c358cefe916c643696b39a23eb8e884fdead147addb7ae00759ac5928677aint,
        0x221dc88fe8c639670a3fabf52ca488df98ee29e09b055db1e5a4c7c9e591987eint,
        0x13e1dd3cb6d2032dde6ff383a837e6a959086293e6b75c5bfc2272ec9cd847d1int,
        0x2f4f2f05471f2e35a4eb4fe3f760f276ede71b8f40b7593636d1cea43bafc151int,
    );
    assert(xi_power_is(0x4085bdee818nat, 0xe3beb5331f436392bcfb871846ca2363fe5c74cb44e0155e98254dd48b950adint, 0x2e3a0f97ad0cbc4191865a116d408c90444ccc8d18fce7df318311319ee2855bint));
    lemma_xi_next(0x4085bdee818nat, 0xe3beb5331f436392bcfb871846ca2363fe5c74cb44e0155e98254dd48b950adint, 0x2e3a0f97ad0cbc4191865a116d408c90444ccc8d18fce7df318311319ee2855bint);
    assert(xi_power_is(0x4085bdee819nat, 0x217ce7e233578b974076dc35b90fcefa6345ca93d54f5998c7f15e7f17245373int, 0x2b2404113dd9d3398706b55a4fa6d05bea8da3b751a3d3c4c6198ee51ac816a8int));
    lemma_xi_square(
        0x4085bdee819nat,
        0x217ce7e233578b974076dc35b90fcefa6345ca93d54f5998c7f15e7f17245373int,
        0x2b2404113dd9d3398706b55a4fa6d05bea8da3b751a3d3c4c6198ee51ac816a8int,
        0xd8d5161682e0a7c1e07ce4d59b8e098bcee4d7c200472c57b09df0b72acc64eint,
        0x2d9f03f31aab25bf0a2c65a622fdb4b0b16fbf6b7fabc3e094dfc94c5476d515int,
        0x2c93223513304e53aa33bd7d5503ff8c633c2d741e2dfec0c45fd7bd072aba5cint,
    );
    assert(xi_power_is(0x810b7bdd032nat, 0x10529be12eb484e6cc2bae5db83c8445a2fff8a208ca7972224aa1d5f6b2ee80int, 0x28c1f5f7452efc7d9c1735442886a6bb2ef6f056d3ea32f44c9f236335d87771int));
    lemma_xi_square(
        0x810b7bdd032nat,
        0x10529be12eb484e6cc2bae5db83c8445a2fff8a208ca7972224aa1d5f6b2ee80int,
        0x28c1f5f7452efc7d9c1735442886a6bb2ef6f056d3ea32f44c9f236335d87771int,
        0x60c790673f730c17bcc597c2eb7a67d45946312e7905abb5224b316b99025fcint,
        0x12d888154a7f0b61bb264b29b8c04b0a714265d08e603237f91b9054e7f51316int,
        0x2aaeb6c76c1c17acaea8821611aee01e85147bd334a254e7ace917d4a386004int,
    );
    assert(xi_power_is(0x10216f7ba064nat, 0x23983f640aa9c58978f65408f778b3d06bd367d3c1a1f3109529aed8aa18102dint, 0x555d6d8ed8382f595d51042c235dc03d0a28f7a66944a9cf59d22fa9470c008int));
    lemma_xi_next(0x10216f7ba064nat, 0x23983f640aa9c58978f65408f778b3d06bd367d3c1a1f3109529aed8aa18102dint, 0x555d6d8ed8382f595d51042c235dc03d0a28f7a66944a9cf59d22fa9470c008int);
    assert(xi_power_is(0x10216f7ba065nat, 0x18aa8cfa2b4aade558f241c6e800641e6cc3978ef57281a8e016ba1a5379e1e3int, 0x23387e918317c0020523a0ab49dc17952a09088ff466c807fb8f5d910991d32eint));
    lemma_xi_square(
        0x10216f7ba065nat,
        0x18aa8cfa2b4aade558f241c6e800641e6cc3978ef57281a8e016ba1a5379e1e3int,
        0x23387e918317c0020523a0ab49dc17952a09088ff466c807fb8f5d910991d32eint,
        0xd0b661c2539daa4b97fdafeeae70f7948c16741a3c24b2eb43ce962ffbbb395int,
        0x2d819cf3394c9e76663e9186296a0fff45ffcb7a59d75add78e2c67cff0879f8int,
        0x230aa6f04b6e6619e348940711dd83f96f458f28df15a999fd2c6ed5779d5d00int,
    );
    assert(xi_power_is(0x2042def740canat, 0xfee179bcd1edc580b918f2f42fe57d79a430658b25cbade777aaefcd93036e4int, 0x15b0ff6db5ab2c0a0e40e257a239af954709b3c055b988a6be38519416bdbcb9int));
    lemma_xi_next(0x2042def740canat, 0xfee179bcd1edc580b918f2f42fe57d79a430658b25cbade777aaefcd93036e4int, 0x15b0ff6db5ab2c0a0e40e257a239af954709b3c055b988a6be38519416bdbcb9int);
    assert(xi_power_is(0x2042def740cbnat, 0x18e53826be0752bae93c9ae4b5b4b643f64eb03b1ea57410fcd6bd21dafa36bdint, 0x1195d8abab5ce80baa986d69f10022a0bb94add6141b5e8636f35cd643e7e449int));
    lemma_xi_square(
        0x2042def740cbnat,
        0x18e53826be0752bae93c9ae4b5b4b643f64eb03b1ea57410fcd6bd21dafa36bdint,
        0x1195d8abab5ce80baa986d69f10022a0bb94add6141b5e8636f35cd643e7e449int,
        0x1ab93f9d5c7473c901016e4a5fb6d0df753907a8dc1cf733cf4b230e93fd86f0int,
        0x10a5b89f35bbb655059bedf9dc1b6fc27dedb1bf11566ccff60d3bc927fe5553int,
        0x137319adec3ed6742bb07bf572c17b4d0f804dfdbc8e71474c5dfb81dc022a84int,
    );
    assert(xi_power_is(0x4085bdee8196nat, 0xa1386fe26b8bd73fb658050839b611cf74b55e9cac68a63d93de7456bff319dint, 0x26e6335bd87dace85760f7eae582f69a1f009bfb791ce28e98bbf703b8045508int));
    lemma_xi_next(0x4085bdee8196nat, 0xa1386fe26b8bd73fb658050839b611cf74b55e9cac68a63d93de7456bff319dint, 0x26e6335bd87dace85760f7eae582f69a1f009bfb791ce28e98bbf703b8045508int);
    assert(xi_power_is(0x4085bdee8197nat, 0x3653d20a2cf5c01c6e0453339721b0cfb23feab3f6c3066ce509e563b776c36int, 0x156d30149ac8707b039c4f950aaca1f8e9c6e7c731adf78a92f5c1c6f8bb41f4int));
    lemma_xi_square(
        0x4085bdee8197nat,
        0x3653d20a2cf5c01c6e0453339721b0cfb23feab3f6c3066ce509e563b776c36int,
        0x156d30149ac8707b039c4f950aaca1f8e9c6e7c731adf78a92f5c1c6f8bb41f4int,
        0x4c5b56e5cbc9c6482f1b49574e68f8b452ddae3da11c2a6e60c4af349b9b5d4int,
        0x14fca45bb2f20c66cbc41d8dc9cff5fe8d443049b5550a1eb60ed276df2a5ba7int,
        0x1a91ce015005eddb508e951e72791bfcbe9cc27123765dbca65607f0b1daa489int,
    );
    assert(xi_power_is(0x810b7bdd032enat, 0x202d5f858afc30276f7ddcbe2c97f1ea4f6b152b8d2e83156c1e0493430c5774int, 0x4bf4d8fbeda3b8ce8cce4866370df9be5b81a50de7af0ec108b83ca8b384bcbint));
    lemma_xi_next(0x810b7bdd032enat, 0x202d5f858afc30276f7ddcbe2c97f1ea4f6b152b8d2e83156c1e0493430c5774int, 0x4bf4d8fbeda3b8ce8cce4866370df9be5b81a50de7af0ec108b83ca8b384bcbint);
    assert(xi_power_is(0x810b7bdd032fnat, 0x2ae385e3be0b5505690e8198a65fe7ccef848f600deeb6128fdfe8f095c5d4e6int, 0x1a82cb205f76a7f1e6619fc12a0e7607cb629771f70f30d4c4e51a9b4f8a0450int));
    lemma_xi_square(
        0x810b7bdd032fnat,
        0x2ae385e3be0b5505690e8198a65fe7ccef848f600deeb6128fdfe8f095c5d4e6int,
        0x1a82cb205f76a7f1e6619fc12a0e7607cb629771f70f30d4c4e51a9b4f8a0450int,
        0xefd7d988e624b430c021693a3fe230d5a0ab11ea389d036e6c1baea7c2a7471int,
        0x2c71c3142fc43267534659de2510aaf1b08951511aa39831e92e780f8c059c15int,
        0x23304c829c27f3e958d2e5a6e07baca1acf6feb8fe3bf4066941f007b6badb43int,
    );
    assert(xi_power_is(0x10216f7ba065enat, 0x12f008f73fcfb905710c026c006ed0794102ca5ef158029239b3cef1c8a1d5a3int, 0x15fc4a92571e47a8f95585973f7600e5c26c92e094061d7f966353f894f8b93fint));
    lemma_xi_square(
        0x10216f7ba065enat,
        0x12f008f73fcfb905710c026c006ed0794102ca5ef158029239b3cef1c8a1d5a3int,
        0x15fc4a92571e47a8f95585973f7600e5c26c92e094061d7f966353f894f8b93fint,
        0xb4b075cf8da55ec060391eb21c63b37eeff576ed272b533fea59cdf2b261202int,
        0x2441823380e02b48bc03e5adeaa78e2fb805e50edffd21ace9c27d889e42be49int,
        0x268864383910cd66a55f513b6e194f4207a3d15c35bf616a3b63e33723dbd7edint,
    );
    assert(xi_power_is(0x2042def740cbcnat, 0x176dd39c592bcacd024ff1f3b8a00565ce7adcf15ae75e145103ab6d65605100int, 0x1cac79fd90effaa3926e5cc05ab1462677c63827030cf8473aa73a576f3ab293int));
    lemma_xi_square(
        0x2042def740cbcnat,
        0x176dd39c592bcacd024ff1f3b8a00565ce7adcf15ae75e145103ab6d65605100int,
        0x1cac79fd90effaa3926e5cc05ab1462677c63827030cf8473aa73a576f3ab293int,
        0xeb9389177d9826daa643ba8aba3aa4e2b8216c9588d5e72636b480ed28d4cadint,
        0x23a40249cff882f946846923a48db6e40a221ed97de28a8dd21a3b797bed6c83int,
        0x173e226ebc42f62a7c92b3b31351ea88319529c7c68857431fb050539d3dee2eint,
    );
    assert(xi_power_is(0x4085bdee81978nat, 0x1b7984ba89129f9e1c30183b88974bc7b8e16281431c9e71cd7198ac2f1cdd71int, 0x2e7c44dd7885ec54f925676626a3d510632a538f8d10ae863f60a0a73a7bdc5cint));
    lemma_xi_square(
        0x4085bdee81978nat,
        0x1b7984ba89129f9e1c30183b88974bc7b8e16281431c9e71cd7198ac2f1cdd71int,
        0x2e7c44dd7885ec54f925676626a3d510632a538f8d10ae863f60a0a73a7bdc5cint,
        0x218836c6ec46912e6052903955803951d6e6d9dc162ee7e33b47df2c229fd98eint,
        0x1619405362065336960de2b2327d94f9c08c3650247ed3d54d3484da95b37e3int,
        0x200c15238cc57a94b98a9337b3a9e0499499d77196ca35db9f490e27f9b83fecint,
    );
    assert(xi_power_is(0x810b7bdd032f0nat, 0x2026a2c1b6262bfaf6f1b20e325860023ade167713e6faa5e67496de7944a1abint, 0xfb3dbd4385954ffbac4e0b8e5d2683591b24451c522a12a027190391af38291int));
    lemma_xi_square(
        0x810b7bdd032f0nat,
        0x2026a2c1b6262bfaf6f1b20e325860023ade167713e6faa5e67496de7944a1abint,
        0xfb3dbd4385954ffbac4e0b8e5d2683591b24451c522a12a027190391af38291int,
        0x23f1ccac2b21be07a2e918adb67407089f895c96b1c1b371ff72e214b271a35int,
        0x24fefa22bf7b492997f649a90714ee98ab1d48c41136e33041f2e496db9a5322int,
        0x2a5d75fe9762101f437060a9fcc1a55a7af5a31d46700a9d172232dce2ba7351int,
    );
    assert(xi_power_is(0x10216f7ba065e0nat, 0xda4711ae46872e09a888d9855d3aa35765cb796c25702941a24d5a14809c45aint, 0x24569d8a4d928014ce907b9d7801f2575e69dba9246e4aacf223d9a2ecf7e95bint));
    lemma_xi_square(
        0x10216f7ba065e0nat,
        0xda4711ae46872e09a888d9855d3aa35765cb796c25702941a24d5a14809c45aint,
        0x24569d8a4d928014ce907b9d7801f2575e69dba9246e4aacf223d9a2ecf7e95bint,
        0x22b94d364a359f3b483598f9823d061ec105026866b9958e751811dd5b92b889int,
        0x11979e32db03e984523394d31b9cf9065ed6d3df08bf3429a07235d5400e5c3bint,
        0x2987ab260977d369743383588a7ccd7bf43dbc7a58fb1c406e4411546d523f44int,
    );
    assert(xi_power_is(0x2042def740cbc0nat, 0x1121af036f31b5b6f602042666a00d18622e2e895dfa6164d4a5dc081b845c4eint, 0x22ab07d931be06a93016c0fa9378429a50fa0e6349846df3a067969202278141int));
    lemma_xi_square(
        0x2042def740cbc0nat,
        0x1121af036f31b5b6f602042666a00d18622e2e895dfa6164d4a5dc081b845c4eint,
        0x22ab07d931be06a93016c0fa9378429a50fa0e6349846df3a067969202278141int,
        0x2b8e2e6678a016ad715e1ba6c4ecaa3e893ca177726d83e4f7297ea5ce823194int,
        0x251a10804fdb9ccaa778878dd784b0030f9a8e462f39301b926c9ee5ed14617cint,
        0xc2b92282caf518eb49fc0bfc472933c7915dc2cd2f787ccecc8c54253c486efint,
    );
    assert(xi_power_is(0x4085bdee819780nat, 0x6741de628c479e2c9e59418ed67fa3b79a21331433453c964bcdfbfe16dd018int, 0x18572450595ea31d693f817f88e52678f22bb859a5ef0f99d9918a84a7890ddeint));
    lemma_xi_square(
        0x4085bdee819780nat,
        0x6741de628c479e2c9e59418ed67fa3b79a21331433453c964bcdfbfe16dd018int,
        0x18572450595ea31d693f817f88e52678f22bb859a5ef0f99d9918a84a7890ddeint,
        0xf5d6afb13feaee83f1aeaf2eeda22e0260c36a037e7372fab0e286961a5cf6int,
        0x95dfb0dc1f0e1cde4b526aa1abe688fa1a8be2f1c66c6176a30cc2466b885e0int,
        0x1d433baf62b6f943e0f633223f9f250361883c1a9f45c3bc1a1c2a12359e62f5int,
    );
    assert(xi_power_is(0x810b7bdd032f00nat, 0x27fc2a14d080a94a578ccdbb95b091fbf8396fcc4f8977e8cca0a27907ded45dint, 0xa2228ebe43c525e099c208dfdbcf1a92b8f0da3d619bceaf817c80d92bfc8a3int));
    lemma_xi_square(
        0x810b7bdd032f00nat,
        0x27fc2a14d080a94a578ccdbb95b091fbf8396fcc4f8977e8cca0a27907ded45dint,
        0xa2228ebe43c525e099c208dfdbcf1a92b8f0da3d619bceaf817c80d92bfc8a3int,
        0xe17235e9f17133047f4a3704e936100c95568a9577d6bf501f5566fda0f4d61int,
        0x20fc6719740b4f65be6686850c134e3418c23c38ac5d09f0a329ad069fc36edfint,
        0x1b214437a4106d7aa239532472ea1019a412714c2731636cbf5cb26ec38956a6int,
    );
    assert(xi_power_is(0x10216f7ba065e00nat, 0x1d7f0ab80c3d63f441de62a1c4016b2a4814970213922c919aec358012c8dbc9int, 0x5de39fc66ef3acb8c2260926452c7d5b0a37806e5f0fc4c4298d8c6ae95b005int));
    lemma_xi_square(
        0x10216f7ba065e00nat,
        0x1d7f0ab80c3d63f441de62a1c4016b2a4814970213922c919aec358012c8dbc9int,
        0x5de39fc66ef3acb8c2260926452c7d5b0a37806e5f0fc4c4298d8c6ae95b005int,
        0xaeb98c7cd5e52a6b86beca0d6698768da00c9641011be21cb7dccff41c9f307int,
        0xe6abbf69013b1f55a5d3d2ab2cbe9f95b735e24851a94f2b7d1ae1a563a3e5dint,
        0xd3d792aa391563a59756dbc8aa5cba66cfc8273535ca9d4fec05e1fc5ea7dedint,
    );
    assert(xi_power_is(0x2042def740cbc00nat, 0x2ce52b441e7c40db165ef52ca51ef5cd160ed5d0f368f3bc4fccaafbc40cb1f1int, 0x1a7af2554722ac74b2eadb79154b974cd9f904e6a6b953a9fd80bc3f8bd4fbdaint));
    lemma_xi_next(0x2042def740cbc00nat, 0x2ce52b441e7c40db165ef52ca51ef5cd160ed5d0f368f3bc4fccaafbc40cb1f1int, 0x1a7af2554722ac74b2eadb79154b974cd9f904e6a6b953a9fd80bc3f8bd4fbdaint);
    assert(xi_power_is(0x2042def740cbc01nat, 0x26d56deba2e03a1b0c39db1b2e41a259c80295780cdab4182bcd71fa6d3258aeint, 0x2942280538bc3024c70f4fdddd408dacca48ed15c5b3eff40cb08cc574189a38int));
    lemma_xi_square(
        0x2042def740cbc01nat,
        0x26d56deba2e03a1b0c39db1b2e41a259c80295780cdab4182bcd71fa6d3258aeint,
        0x2942280538bc3024c70f4fdddd408dacca48ed15c5b3eff40cb08cc574189a38int,
        0x27cbdc0117d1cc5085a4e486688f4fe9c8e9998cf3213b48e934240b2cdc1381int,
        0xd7e6de9e5de5ba588f47fb40f1cf6ff39cb4a7135b32a5692ba95b107d35655int,
        0x2996f87d86524a4ba943ddf815cd3584c3320d069f13d742f2c7a9e63cb1d6e9int,
    );
    assert(xi_power_is(0x4085bdee8197802nat, 0x1a4d6e1731f370aafcb064d2597258ea8f1e4f1bbd6e10f256798e5a2508bd2cint, 0x22c9a2882b72f46d9a377639aa1912abeee2af7bd5b5e3f8a96ec7b5a0e6b08bint));
    lemma_xi_next(0x4085bdee8197802nat, 0x1a4d6e1731f370aafcb064d2597258ea8f1e4f1bbd6e10f256798e5a2508bd2cint, 0x22c9a2882b72f46d9a377639aa1912abeee2af7bd5b5e3f8a96ec7b5a0e6b08bint);
    assert(xi_power_is(0x4085bdee8197803nat, 0x85e027d115580ee66bafe5174e6ac1cbb286e3831618a577055091a4a7400e5int, 0xa5ffbc90a2a7615e71a4dbc9ca9666d08c907c65b68ad3a67abf1ce1ba051eint));
    lemma_xi_square(
        0x4085bdee8197803nat,
        0x85e027d115580ee66bafe5174e6ac1cbb286e3831618a577055091a4a7400e5int,
        0xa5ffbc90a2a7615e71a4dbc9ca9666d08c907c65b68ad3a67abf1ce1ba051eint,
        0x1fbcebbed074397237556614af67cd8f1fbc097442cd161b1fe161d8fe34aeaeint,
        0x2cab5da2fe3efa2cb0694019f16f5ee5d7ddde73bfe835362ad383930b280808int,
        0x2080815de2d9afb574fecf16011f20dc8cfc0273598a06a4f3ff1216f4c9d602int,
    );
    assert(xi_power_is(0x810b7bdd032f006nat, 0x2375dc8eb366df6f3f3c6bb13f79c706df5f9591eb56ab72312e6a5ccb89a3edint, 0x109cb448e481bf4131ad587580bce95b82769a554aa242bcabdd98171116aebdint));
    lemma_xi_square(
        0x810b7bdd032f006nat,
        0x2375dc8eb366df6f3f3c6bb13f79c706df5f9591eb56ab72312e6a5ccb89a3edint,
        0x109cb448e481bf4131ad587580bce95b82769a554aa242bcabdd98171116aebdint,
        0x2e85939baf82773e3b0801334cafd46da05e39b7be49f783972749b038f93e1dint,
        0x2033a8a1cb07cb4ac551311ffe8a3fbab77614016a41c4585dc9b834315e6b83int,
        0x256ca75f148a5e56f4ed407bafbe5ea7fb73e98610ad3f79e7dd30bae2f134bfint,
    );
    assert(xi_power_is(0x10216f7ba065e00cnat, 0xe51eaf9e47aabf375b6d0134e2594b2e8e825b65408332b395d917c079ad29aint, 0x1a75004b47e31c84318a3b40ddfb64f25f66687ab8e8b4669399d55eed656c37int));
    lemma_xi_next(0x10216f7ba065e00cnat, 0xe51eaf9e47aabf375b6d0134e2594b2e8e825b65408332b395d917c079ad29aint, 0x1a75004b47e31c84318a3b40ddfb64f25f66687ab8e8b4669399d55eed656c37int);
    assert(xi_power_is(0x10216f7ba065e00dnat, 0x5a3a597fe09aeb7814289ffde54249ca1c015cb6a7d8303f86f2fcfa61200a5int, 0xa796561057e8bc89a0188ca947567644dfabd2fc9fd96043d23556025baae26int));
    lemma_xi_square(
        0x10216f7ba065e00dnat,
        0x5a3a597fe09aeb7814289ffde54249ca1c015cb6a7d8303f86f2fcfa61200a5int,
        0xa796561057e8bc89a0188ca947567644dfabd2fc9fd96043d23556025baae26int,
        0x7721be7ac88e60768b8e70bcdbfdf458da50af7f69f05ec1679f3601bf9be3eint,
        0x164abef1a191944bc36de01eebc456f55c24643fa2cb257961965e7eb07eb2e5int,
        0xd73528b850a06901ab9b9afa5822706953ca24e607460d38d3be1d5d222b550int,
    );
    assert(xi_power_is(0x2042def740cbc01anat, 0x218bab68ec28f1e55d9b4ca3637ce0adc9021149bc45aafff10420f843f808a0int, 0x1ae6a5170a140d203573735f4b044e0d2a79449cc0e8c1a71a77c3aba4456aa0int));
    lemma_xi_next(0x2042def740cbc01anat, 0x218bab68ec28f1e55d9b4ca3637ce0adc9021149bc45aafff10420f843f808a0int, 0x1ae6a5170a140d203573735f4b044e0d2a79449cc0e8c1a71a77c3aba4456aa0int);
    assert(xi_power_is(0x2042def740cbc01bnat, 0x210cd95add64531f7b70e1ceacd8de3af1124223d3514c96320aa89c8501f09dint, 0x21b1f0f9e0e54736a518fe6c7f1ce55051be65f57a3b851db297458ecff7d5ddint));
    lemma_xi_square(
        0x2042def740cbc01bnat,
        0x210cd95add64531f7b70e1ceacd8de3af1124223d3514c96320aa89c8501f09dint,
        0x21b1f0f9e0e54736a518fe6c7f1ce55051be65f57a3b851db297458ecff7d5ddint,
        0x80261dc7a01e2f49544bd58466fc61b0c7dceaf888c7ebadabbcdc5d9d82e26int,
        0x21d122a6b657b97ebdd56209927c2e96915ee97e6f081ba6893990dbca7f10b6int,
        0x2146fc489c3843b4ab2a89acfc18384dbee1afedd8aecb34c291040c7028a198int,
    );
    assert(xi_power_is(0x4085bdee81978036nat, 0x16958da8a4dbc99f8fbfa1053574efe212a04fc281f62da18da2c900e7d61ab7int, 0x1229aa1e573ee73f9e04cda376af183de641f54a48ebcbdc49017c0207d445e9int));
    lemma_xi_next(0x4085bdee81978036nat, 0x16958da8a4dbc99f8fbfa1053574efe212a04fc281f62da18da2c900e7d61ab7int, 0x1229aa1e573ee73f9e04cda376af183de641f54a48ebcbdc49017c0207d445e9int);
    assert(xi_power_is(0x4085bdee81978037nat, 0x27eb6576d0e64edf46c70a67e5e94d9bfadc98d80f666f29fd55f0c1953bb2b1int, 0x28df9d61127d0a5ef4fa0aa0dd18c0f6646dafaad8eaf8b86a4e80cea4d59813int));
    lemma_xi_square(
        0x4085bdee81978037nat,
        0x27eb6576d0e64edf46c70a67e5e94d9bfadc98d80f666f29fd55f0c1953bb2b1int,
        0x28df9d61127d0a5ef4fa0aa0dd18c0f6646dafaad8eaf8b86a4e80cea4d59813int,
        0x13b0c4a507013f07859a296cce4e134fe7e79de8ecdfd303f64babf4ed56a0d8int,
        0x1df2bbb0bb75b9d1e3947851fba1ac25d6ffb8d3677ae3046df8b5b3588ecd83int,
        0x1f8105f6544f7e7844249c025b0841ce25a1d081fbd2e3f7ae67de781358d1d2int,
    );
    assert(xi_power_is(0x810b7bdd032f006enat, 0x262257672cbd255f5a55f6d1542dbf87a8694fa6edd6ba8cc47382586d44d09cint, 0xe9dbd79c76d5cc6cff8f24e348f2b3eb3c236728f33fd6220af30d94e34a65dint));
    lemma_xi_next(0x810b7bdd032f006enat, 0x262257672cbd255f5a55f6d1542dbf87a8694fa6edd6ba8cc47382586d44d09cint, 0xe9dbd79c76d5cc6cff8f24e348f2b3eb3c236728f33fd6220af30d94e34a65dint);
    assert(xi_power_is(0x810b7bdd032f006fnat, 0x263d7e75840f32990b2b18c6b8047e54aae917035aadd2415e9d1bb97648bf75int, 0x188115568c0087df8125aa6da8b23ba333b8f9f9bd554358363a95b7a3a7b20cint));
}

/// The bits from 64 on of the exponent, from the top.
proof fn lemma_xi_power_2()
    requires
        xi_power_is(
            0x810b7bdd032f006fnat,
            0x263d7e75840f32990b2b18c6b8047e54aae917035aadd2415e9d1bb97648bf75int,
            0x188115568c0087df8125aa6da8b23ba333b8f9f9bd554358363a95b7a3a7b20cint,
        ),
    ensures
        xi_power_is(
            0x810b7bdd032f006f40d60f3cnat,
            0x2fc4d196f3a61d53fcd63ebf9261a78935ff65558fb398b87ce3bd1849fcb0fint,
            0x27c54a4a04ac11fa392e2a21e6536f5e7147e7d2021b9d5f2f594e96a0d6fa3bint,
        ),
{
    lemma_xi_square(
        0x810b7bdd032f006fnat,
        0x263d7e75840f32990b2b18c6b8047e54aae917035aadd2415e9d1bb97648bf75int,
        0x188115568c0087df8125aa6da8b23ba333b8f9f9bd554358363a95b7a3a7b20cint,
        0x96271fde57508eaa925ee22709de3e957e99d5a3ade3e187102645010eb35aint,
        0x1796f6c16cd04573b463e457e8257d3777de55bd7291a94814df832b1a033e2eint,
        0xaef629360c236234bb3981ae71626572a9a6ab5ef638bf7ee03f5c7964e53aaint,
    );
    assert(xi_power_is(0x10216f7ba065e00denat, 0x19637ed152b8ab44ae7ec040c065b964b521aea9998e0526ae512f30bf887273int, 0x15dec526c1846c4697673035ce2c4cae5534d56bdec717efdc07eb8f2c9ca754int));
    lemma_xi_square(
        0x10216f7ba065e00denat,
        0x19637ed152b8ab44ae7ec040c065b964b521aea9998e0526ae512f30bf887273int,
        0x15dec526c1846c4697673035ce2c4cae5534d56bdec717efdc07eb8f2c9ca754int,
        0x18dbb695b3a81cf51f215e016d365482e8ed0744cfacfd28cda450e7f5488dc7int,
        0x2962f6892ee9979d9823b503cee60489f8f7895d5fdcc8e4e22fbd5554a53851int,
        0x2d1e058808783ab4c5206a439f444eb755a8ae4a0a74dbd761409264bffa4317int,
    );
    assert(xi_power_is(0x2042def740cbc01bcnat, 0x1fdd0e7f65f025813f4deeb41fd1a8568776e878d841fed127951fa9792052bdint, 0x29d7bc9d2fbed53fd1f08ed0bd07451113cff202ac77ed21866098b2a77788e7int));
    lemma_xi_next(0x2042def740cbc01bcnat, 0x1fdd0e7f65f025813f4deeb41fd1a8568776e878d841fed127951fa9792052bdint, 0x29d7bc9d2fbed53fd1f08ed0bd07451113cff202ac77ed21866098b2a77788e7int);
    assert(xi_power_is(0x2042def740cbc01bdnat, 0x2f83d9effba5b7ace3b78f3d9d0ec25b9d72565e3a11376b13ac7d0603a6d5bint, 0x15503c6f0a18a371de40c656b90853037dbb1605a4eb0094fff61d3a986c38a4int));
    lemma_xi_square(
        0x2042def740cbc01bdnat,
        0x2f83d9effba5b7ace3b78f3d9d0ec25b9d72565e3a11376b13ac7d0603a6d5bint,
        0x15503c6f0a18a371de40c656b90853037dbb1605a4eb0094fff61d3a986c38a4int,
        0x236a45c806d726da81ca7655d75aa774ada7f41db4225b175b142f6b9bd53e60int,
        0x2b27e283955fd3e6f45c4f47679ebb5e6e43eecf223d59203f1133e0957d5f41int,
        0x270e879b0836ef56f755c891b410e7658463764289e1fe515eea3fed6a395eeaint,
    );
    assert(xi_power_is(0x4085bdee81978037anat, 0x28a6b1b752a8f31d45be6cc4f13d4473d6e56fdffa56cc84582387a1ded4dc66int, 0x1db8c0c32f3c3e84365b4b6ce6a0766d714581f3ab52321581b3f3c3fbf5c08dint));
    lemma_xi_square(
        0x4085bdee81978037anat,
        0x28a6b1b752a8f31d45be6cc4f13d4473d6e56fdffa56cc84582387a1ded4dc66int,
        0x1db8c0c32f3c3e84365b4b6ce6a0766d714581f3ab52321581b3f3c3fbf5c08dint,
        0x53de97818f3d24fcf3a810b7d64c31b10c21cfefbde4d2e2e8db5074fcc82fcint,
        0xab815f6f44825544d4b96b9fbe8c62e5f66d9ab2a0ee4a1b60261bfb5b98481int,
        0x2a01f4eb687c2b4fa601afc4fc9923976d91eadf2a4eeb4fe37ef24a710730a9int,
    );
    assert(xi_power_is(0x810b7bdd032f006f4nat, 0x2aea21f405dd4d253a3f300802fd554a48dcade53a413319b4abdf5e728ffbc2int, 0x239f9b63efc6b67593b319d377b0eed143a26b2cec2c0c128add587e0991640bint));
    lemma_xi_square(
        0x810b7bdd032f006f4nat,
        0x2aea21f405dd4d253a3f300802fd554a48dcade53a413319b4abdf5e728ffbc2int,
        0x239f9b63efc6b67593b319d377b0eed143a26b2cec2c0c128add587e0991640bint,
        0x229513b5b0d1acf0b633de0df818c03b5573751f1d0a764effa159c1c640ad12int,
        0x9b1870fc518d540b624eb44320ef197e94fa06ef7ab108f41e96c9551ea1227int,
        0x144960e2c7879ebdc3fd3a5650146560f833b610467f2f04c5adf9bfc7e80cddint,
    );
    assert(xi_power_is(0x10216f7ba065e00de8nat, 0x18e38ca5ebb8d7b0000ef2c9c609cea36c23d4b0255f65bfbdb7ed2c74569aebint, 0x2892c1c58f0f3d7b87fa74aca028cac1f0676c208cfe5e098b5bf37f8fd019baint));
    lemma_xi_square(
        0x10216f7ba065e00de8nat,
        0x18e38ca5ebb8d7b0000ef2c9c609cea36c23d4b0255f65bfbdb7ed2c74569aebint,
        0x2892c1c58f0f3d7b87fa74aca028cac1f0676c208cfe5e098b5bf37f8fd019baint,
        0x2564e60ef90d3749cea4d52039bebf577e4f443e4fa5d4529f79ed5ab762e25aint,
        0x2f8103e1358a8bcd5360531dca86774230d9dda79026b155149f6b0831c66e6eint,
        0x15b66c9529bdaedc89209738574cd2671ad85d520a7089775139c461408d0cf4int,
    );
    assert(xi_power_is(0x2042def740cbc01bd0nat, 0x264830a0a4b44ba63394c7b8f0b9a072e4f6d12827f0ed8ac6fb0e695e197133int, 0x2b6cd92a537b5db912412e70ae99a4ce35b0baa414e112eea27388c2811a19e8int));
    lemma_xi_square(
        0x2042def740cbc01bd0nat,
        0x264830a0a4b44ba63394c7b8f0b9a072e4f6d12827f0ed8ac6fb0e695e197133int,
        0x2b6cd92a537b5db912412e70ae99a4ce35b0baa414e112eea27388c2811a19e8int,
        0x2ae0e24dac7772c63cde05df06e24b100b37d1e60c40d8a161a57bfd70618726int,
        0x13f65f009f6dc0547d90f9aa4a0e99960e47127bb0fba5c6ef820cff6699b2b6int,
        0x202b3c29dab80d878c2f7636966e38fb32a56c74cc11e7fb6591a6968b527aa3int,
    );
    assert(xi_power_is(0x4085bdee81978037a0nat, 0x16ea834d0d09b271bf4d0c34bcd3b179fcf0bf6a5b4532da72236efe09c7d470int, 0xff229e0d43e7ae5600ea6b6ab5b1998cdc96e582fb205698f02c1163e27f7ffint));
    lemma_xi_square(
        0x4085bdee81978037a0nat,
        0x16ea834d0d09b271bf4d0c34bcd3b179fcf0bf6a5b4532da72236efe09c7d470int,
        0xff229e0d43e7ae5600ea6b6ab5b1998cdc96e582fb205698f02c1163e27f7ffint,
        0x224a8bce2885aebef99428fda215f8ec84f03e6530c656bc4ebc569277fa314cint,
        0x8b652a74056865aa1f9cda7386aa40d1a18d8338d4aa1333abd7c17d95ba752int,
        0xe4b995ab7f8a0ca2a210e92b05d64e8866243507cff3b23191bb73fc05d4d7dint,
    );
    assert(xi_power_is(0x810b7bdd032f006f40nat, 0x19943926e82f2864579a5b5669ab54df6ad76631a37bb58913feda7a9e9e89faint, 0x1c9732b56ff1419454421d2560bac9d10cc486a0f9fe764632376e7f80ba9afaint));
    lemma_xi_square(
        0x810b7bdd032f006f40nat,
        0x19943926e82f2864579a5b5669ab54df6ad76631a37bb58913feda7a9e9e89faint,
        0x1c9732b56ff1419454421d2560bac9d10cc486a0f9fe764632376e7f80ba9afaint,
        0x2bfea995c4d5b8479032529430ce444c77cd2fbcd49b27819f29b5ef6ce139e5int,
        0x6c48d1dcd66bee9f529abae89fb065c84d59c527551693655074d7ac1a89f9bint,
        0x1c5d899b28a011316d79e1ee4cc4cff0752d4f19beb2f303f57cea84a1547dbcint,
    );
    assert(xi_power_is(0x10216f7ba065e00de80nat, 0x253a1c77f76ef95d9b08a6e5a6d33deff2f7936a5f49be4b4a226874ab389a4aint, 0x856c4c3700e823922a37e261808478352d933a214f41b7aaed948f26a2bfe31int));
    lemma_xi_next(0x10216f7ba065e00de80nat, 0x253a1c77f76ef95d9b08a6e5a6d33deff2f7936a5f49be4b4a226874ab389a4aint, 0x856c4c3700e823922a37e261808478352d933a214f41b7aaed948f26a2bfe31int);
    assert(xi_power_is(0x10216f7ba065e00de81nat, 0x245a64c2fbae8116fec8bda5bc5cd3baaad27bb2d1f8d5db83991a9e87e37ebfint, 0xf7e6a71258e4d0c62278acf7c1b10d2ad978efa4afb2080f784e0ccb5ca8f75int));
    lemma_xi_square(
        0x10216f7ba065e00de81nat,
        0x245a64c2fbae8116fec8bda5bc5cd3baaad27bb2d1f8d5db83991a9e87e37ebfint,
        0xf7e6a71258e4d0c62278acf7c1b10d2ad978efa4afb2080f784e0ccb5ca8f75int,
        0x2f7eb3d6a363e4c96ffdba18748bf21102710e6c0abc6dcc3a173fb41ec9f5a3int,
        0x27a2ba201af002aeb1bf7f04ebb121c5d591bc06158e9a82c761183c27130ceeint,
        0x1a2712b21a0b4d6f3ff64629725dc53cca07e31c0d8fd431996dff6695e294f5int,
    );
    assert(xi_power_is(0x2042def740cbc01bd02nat, 0x7dbf9b68873e21abe3e3b1388dad04b2cdf5265f52dd34972b62777f7b6e8b5int, 0x3e9d6f152e4fab4c79c469c633a321bfc8e5ba6b2adddd5f6bb72b653482ca3int));
    lemma_xi_next(0x2042def740cbc01bd02nat, 0x7dbf9b68873e21abe3e3b1388dad04b2cdf5265f52dd34972b62777f7b6e8b5int, 0x3e9d6f152e4fab4c79c469c633a321bfc8e5ba6b2adddd5f6bb72b653482ca3int);
    assert(xi_power_is(0x2042def740cbc01bd03nat, 0x126da20697fc58123043875ceaf5c82affca1f5d837cc531d58b646a89a90473int, 0x2b1488327280b275c2bcb69305e693470de08b423d4a9fcf1f4d2fe0e5407a70int));
    lemma_xi_square(
        0x2042def740cbc01bd03nat,
        0x126da20697fc58123043875ceaf5c82affca1f5d837cc531d58b646a89a90473int,
        0x2b1488327280b275c2bcb69305e693470de08b423d4a9fcf1f4d2fe0e5407a70int,
        0x4c046938cc87ffbb30e6f29d696a323b350d8eb0a671e1d2faa576aa096da5eint,
        0x2b75c7136b2e8ad6a265dfb854ec2f9cc4cf808a1a3255f3488b6872136f5dd3int,
        0x295a128343926cf8cf9d509f5a881bc126e9c392718810f4fa5d6520da80ab4fint,
    );
    assert(xi_power_is(0x4085bdee81978037a06nat, 0x9aecdf302cb954ec8f8d528032bcbe48602c2f258a692b7233f7b0f65a479d2int, 0x224fd693a5f339c7e6ea5b88338edf24b6521c937a9e575cb89a3e2adc845957int));
    lemma_xi_square(
        0x4085bdee81978037a06nat,
        0x9aecdf302cb954ec8f8d528032bcbe48602c2f258a692b7233f7b0f65a479d2int,
        0x224fd693a5f339c7e6ea5b88338edf24b6521c937a9e575cb89a3e2adc845957int,
        0x255cbe5b5268ca6f60dc1e8800caa8e7982988c2fd90f881ad4143d8859da3e3int,
        0x1d9615d93395ddd4a055a2fd91229ad83ed98b180f4dd3c77090054759984024int,
        0x12860507c9b502f1ae6b14d04b9d32b4f1ed49b1e994533601fc3fa72974f1c4int,
    );
    assert(xi_power_is(0x810b7bdd032f006f40cnat, 0x7c6a8821ed2ec9ac0867b8a6fa80e0f594ffdaaee4324ba3cb13e912c0563bfint, 0x250c0a0f936a05e35cd629a0973a6569e3da9363d328a66c03f87f4e52e9e388int));
    lemma_xi_next(0x810b7bdd032f006f40cnat, 0x7c6a8821ed2ec9ac0867b8a6fa80e0f594ffdaaee4324ba3cb13e912c0563bfint, 0x250c0a0f936a05e35cd629a0973a6569e3da9363d328a66c03f87f4e52e9e388int);
    assert(xi_power_is(0x810b7bdd032f006f40dnat, 0x20efe28382004b8d67e42e3d55ae19203ff5579e8d33a4201e42b3cc39469e2fint, 0x274ddea2531c074f9dc0a32362c3439377542337f9474a9bb89e3b22ad37696int));
    lemma_xi_square(
        0x810b7bdd032f006f40dnat,
        0x20efe28382004b8d67e42e3d55ae19203ff5579e8d33a4201e42b3cc39469e2fint,
        0x274ddea2531c074f9dc0a32362c3439377542337f9474a9bb89e3b22ad37696int,
        0x4be87cea59b294923d1212928475190ee35def262f62ad6308b729d381eb718int,
        0x2659c80dbdc8b42d1cdbe9e29ee68bca0f1876f30d761ceb45f35dce1ac5e36aint,
        0x1ede481e194f0eca6fefcdb8b4c5c905ccb7bbc9ef7c4c4912d998384e9bbf35int,
    );
    assert(xi_power_is(0x10216f7ba065e00de81anat, 0xec90e33c9041545bf457cfd0ae21e24769ed290bdf1d87826b8a0e5f5d5d0f5int, 0xd5841c9516c7d6b278f55bae80a39ae01ee0d027686ce04e992a459c4ba8123int));
    lemma_xi_square(
        0x10216f7ba065e00de81anat,
        0xec90e33c9041545bf457cfd0ae21e24769ed290bdf1d87826b8a0e5f5d5d0f5int,
        0xd5841c9516c7d6b278f55bae80a39ae01ee0d027686ce04e992a459c4ba8123int,
        0x15160dbe6082b30fab3424292734829a7d22db4d479d99deb514295ef3a251e2int,
        0xb8a19061721f854b97229a82bb3e50afc9da6f5bfe0ed67a8338eb51ed253c4int,
        0x2a9fe96a0f6d5584cdb05db887b5a16308bdb1d7a2575016f5756102dccbbc35int,
    );
    assert(xi_power_is(0x2042def740cbc01bd034nat, 0x98bf4b84960babaf1c1fa80fb809d8f8085345787bcac770ce09aa9d4cffe1eint, 0x24db84613da90adfe31075ba8de9ea6879f9f91ddc3cd5a0aeca35eee11a7b23int));
    lemma_xi_next(0x2042def740cbc01bd034nat, 0x98bf4b84960babaf1c1fa80fb809d8f8085345787bcac770ce09aa9d4cffe1eint, 0x24db84613da90adfe31075ba8de9ea6879f9f91ddc3cd5a0aeca35eee11a7b23int);
    assert(xi_power_is(0x2042def740cbc01bd035nat, 0xabc7a6758be588e4711317c81a47457333736480f3700188faadf2c1b876a4int, 0x28576ff4bf6bb75e32436126e3070aca5c50c6a6ac3a5408d18ab6fd3536568int));
    lemma_xi_square(
        0x2042def740cbc01bd035nat,
        0xabc7a6758be588e4711317c81a47457333736480f3700188faadf2c1b876a4int,
        0x28576ff4bf6bb75e32436126e3070aca5c50c6a6ac3a5408d18ab6fd3536568int,
        0x15c536c3560d9e1edc8a165facc722f280abb217dec29828c077d89adf1de4d6int,
        0x116308eb992f1ddabdbffdd3069f949ec97428b5e52f49e88e36da7b1b70abbint,
        0x4ade3d656ed851c57223033063a5ba51e81914160aa4f38b1d8eee0f440d36dint,
    );
    assert(xi_power_is(0x4085bdee81978037a06anat, 0x14af06349c7aac4130ae16827c5d29a894146f8c806fa38a37946af32d66da1bint, 0x95bc7acaddb0a38ae4460660c74b74a3d032282c1549e7163b1ddc1e881a6daint));
    lemma_xi_next(0x4085bdee81978037a06anat, 0x14af06349c7aac4130ae16827c5d29a894146f8c806fa38a37946af32d66da1bint, 0x95bc7acaddb0a38ae4460660c74b74a3d032282c1549e7163b1ddc1e881a6daint);
    assert(xi_power_is(0x4085bdee81978037a06bnat, 0x1f9e84d42ee02394dee9990cce4db68a313089b98942c1c2dc24408626a50c44int, 0x8206e60f6cac7ebe074eeabe974ea898a2dd1027b85a06c40941e96a8fbbd37int));
    lemma_xi_square(
        0x4085bdee81978037a06bnat,
        0x1f9e84d42ee02394dee9990cce4db68a313089b98942c1c2dc24408626a50c44int,
        0x8206e60f6cac7ebe074eeabe974ea898a2dd1027b85a06c40941e96a8fbbd37int,
        0x21f4f43d521ed94e589ad9d652920d0cc9b86a11acb854b2d7f2135497b37aeeint,
        0xf1b72d88c4014e8f1fb483ed2f0f8455312a6915d9ea95b57f3c93d0ca15e4bint,
        0x1d3b0d027d9c29299eca7fc5ba923d509d140b01c6add08580f269bbc70aeaabint,
    );
    assert(xi_power_is(0x810b7bdd032f006f40d6nat, 0x12d98164c5dec465669f91977fa114c776a5c3804f19ab577ffe4a178b121ca3int, 0xa11cb921a06b2298544b9d4f3a32243a2a6ab7224e9d67dc5c44760b598d80fint));
    lemma_xi_square(
        0x810b7bdd032f006f40d6nat,
        0x12d98164c5dec465669f91977fa114c776a5c3804f19ab577ffe4a178b121ca3int,
        0xa11cb921a06b2298544b9d4f3a32243a2a6ab7224e9d67dc5c44760b598d80fint,
        0x12395fe8ea89736fb3cdd76a695b74260663739405e3e4b251fdf02b9626baefint,
        0x1d1024e004eadd15d3cfd5bce7f3db93ef16b7aee4ccc6c9003573d7084e5098int,
        0x2ae6e83a14020564ed456c2d2b322fcf9d814966d1054179a96b3b481731c846int,
    );
    assert(xi_power_is(0x10216f7ba065e00de81acnat, 0x258d897bc6d03683984e476402e8f0efaece26768988e8768de9086b6655679eint, 0x2569820146d26aa0223a92a3d4e30741a381283c3998b86616b5ea7955e69345int));
    lemma_xi_square(
        0x10216f7ba065e00de81acnat,
        0x258d897bc6d03683984e476402e8f0efaece26768988e8768de9086b6655679eint,
        0x2569820146d26aa0223a92a3d4e30741a381283c3998b86616b5ea7955e69345int,
        0x2cd419a75a17604d9b94074a1d3bf000327f45fb0d755bc830fab2965dfeb983int,
        0x1407c8bac966343827f1d767ef85e407e0f1251b2060418c0230a9e030c7f77eint,
        0x196bbd94c75b54e35f3f76415baed1553a296fd74868a9c751273f777825679bint,
    );
    assert(xi_power_is(0x2042def740cbc01bd0358nat, 0x18cc50ec90b12c1573a22fe22db60bf8518e20dfed151a3c2eca08b62d36c205int, 0x2732cb6ad85099d062ea6cc35dc4a4cdcd1751d285f8901662df2d817cdd1efint));
    lemma_xi_square(
        0x2042def740cbc01bd0358nat,
        0x18cc50ec90b12c1573a22fe22db60bf8518e20dfed151a3c2eca08b62d36c205int,
        0x2732cb6ad85099d062ea6cc35dc4a4cdcd1751d285f8901662df2d817cdd1efint,
        0x1473a09dd11865f36bb94395886c549ab7995ae891aa1872184c7cdbd45daf9eint,
        0x247ebc8205209461258dc2cf6fcaa4e288047d01b5373f9b13c6f3b9e00a4ca7int,
        0x1f63b204d18eae05a92863500199c2285a5ff029a0adf89d04a2629d2917a093int,
    );
    assert(xi_power_is(0x4085bdee81978037a06b0nat, 0x2059328ead2971bbfe7bc67c9a230815c716487844e4a36440a61538ccd0603eint, 0xe631596c1ebbbe19a0080e981b22bf31d3e75c1d8ea26accd24392379b243dfint));
    lemma_xi_square(
        0x4085bdee81978037a06b0nat,
        0x2059328ead2971bbfe7bc67c9a230815c716487844e4a36440a61538ccd0603eint,
        0xe631596c1ebbbe19a0080e981b22bf31d3e75c1d8ea26accd24392379b243dfint,
        0x2e4f0717d2f994af39ee07b594883efe037418188acd5b808b14ecd49ae351f9int,
        0x2e6a63b160ef7936842e6eb88f8b4ca6106aa8cb4f2e4f20a966c3820c3b6b1bint,
        0xad0690770eac4434e932f3a6f9190846b6967616f1df25ab73e2a55a14b88f6int,
    );
    assert(xi_power_is(0x810b7bdd032f006f40d60nat, 0x3048f1d9533bbba26e0fdeb3867e4ab58a8ad9dea410d6ed1dceb5696724e425int, 0x15a0d20ee1d588869d265e74df232108d6d2cec2de3be4b56e7c54ab429711ecint));
    lemma_xi_square(
        0x810b7bdd032f006f40d60nat,
        0x3048f1d9533bbba26e0fdeb3867e4ab58a8ad9dea410d6ed1dceb5696724e425int,
        0x15a0d20ee1d588869d265e74df232108d6d2cec2de3be4b56e7c54ab429711ecint,
        0x25b60f53b5e8fd304fcc92de906a90a40d719fce05e12752ea1da740fd0ed586int,
        0x61ac5757f072bd5c85008fe1538fd9e4a7b2f60becbf0da0c8f61e95fd0a644int,
        0x20b8b3f6a4cc86868924bb1dc020ef4c5ab41d3ffa62401220c0824c02c4aeeaint,
    );
    assert(xi_power_is(0x10216f7ba065e00de81ac0nat, 0x1f9b49de36e1d15a877c89e07b319305c2f6706d47153678dd8e45579d3e2f42int, 0x110d197a68676ce359f93084fec0863b1de6cfee8c52b597056078812d0c608dint));
    lemma_xi_next(0x10216f7ba065e00de81ac0nat, 0x1f9b49de36e1d15a877c89e07b319305c2f6706d47153678dd8e45579d3e2f42int, 0x110d197a68676ce359f93084fec0863b1de6cfee8c52b597056078812d0c608dint);
    assert(xi_power_is(0x10216f7ba065e00de81ac1nat, 0x1972f7171f90ce7acfd64bcece76eb24c73c0f11e9333fe697fd3b211fb25662int, 0x27e443d33eefc4db884e6d69eb724201098f801bfca839205990dd9da9369c62int));
    lemma_xi_square(
        0x10216f7ba065e00de81ac1nat,
        0x1972f7171f90ce7acfd64bcece76eb24c73c0f11e9333fe697fd3b211fb25662int,
        0x27e443d33eefc4db884e6d69eb724201098f801bfca839205990dd9da9369c62int,
        0x11fd811c751467d4846ca73df730f2f9ff11109617fad71d5fb7c94613491f74int,
        0x203f1893a57da4577458d92f9491627e823ce5a0934e6d638de5901196646aa8int,
        0x123e8d4a4cd06d4a930398272805ecd148e46f85ef8b5d72329a9a4e7aeaa61int,
    );
    assert(xi_power_is(0x2042def740cbc01bd03582nat, 0x2222b6fbb0c863a6c86413c4e420e8d914559586ed1e34470df2c54b5561b213int, 0x247d1a9499a0da952607304e500bd9a291c8df0bdf16bae46535349cf5d54c2int));
    lemma_xi_next(0x2042def740cbc01bd03582nat, 0x2222b6fbb0c863a6c86413c4e420e8d914559586ed1e34470df2c54b5561b213int, 0x247d1a9499a0da952607304e500bd9a291c8df0bdf16bae46535349cf5d54c2int);
    assert(xi_power_is(0x2042def740cbc01bd03583nat, 0xe96c67ea647b23967429ca0171f5fd600dd34652573ab81ce7253d31e23fe3fint, 0x644c77c66013e70f577d93a6fa63ae6eed5286c322932da4ac026ccc72caf9eint));
    lemma_xi_square(
        0x2042def740cbc01bd03583nat,
        0xe96c67ea647b23967429ca0171f5fd600dd34652573ab81ce7253d31e23fe3fint,
        0x644c77c66013e70f577d93a6fa63ae6eed5286c322932da4ac026ccc72caf9eint,
        0x63a0a4d9acc67d2ac0efd1b0466adf3817a015b9d80d8302565972f96d4dd21int,
        0x2c3a85ef1284cdd04716d9a2e6c0c33f6a77476405f67fe94fc82b5d0458b1deint,
        0xdf046d8726c8deb8a27fe3110fb02618e9358f32f3b8c67b3d2d5c0c3d65540int,
    );
    assert(xi_power_is(0x4085bdee81978037a06b06nat, 0xa63d2d169793a2c1d48692e9f274311ae842488fffc22d411bdf7e96af9288aint, 0x1be08db0e4d91bd7144ffc6221f604c31d26b1e65e7718cf67a5ab8187acaa80int));
    lemma_xi_next(0x4085bdee81978037a06b06nat, 0xa63d2d169793a2c1d48692e9f274311ae842488fffc22d411bdf7e96af9288aint, 0x1be08db0e4d91bd7144ffc6221f604c31d26b1e65e7718cf67a5ab8187acaa80int);
    assert(xi_power_is(0x4085bdee81978037a06b07nat, 0x113d8d38ef384f8c3aeb708af4e9fe7e6dfd2c5938f45617fbe77f9c6298c513int, 0x135345cb0f2313eb3a86ec114946b419bf5950cb47f30d5c89ee4304f59a34a7int));
    lemma_xi_square(
        0x4085bdee81978037a06b07nat,
        0x113d8d38ef384f8c3aeb708af4e9fe7e6dfd2c5938f45617fbe77f9c6298c513int,
        0x135345cb0f2313eb3a86ec114946b419bf5950cb47f30d5c89ee4304f59a34a7int,
        0x22cae8ec2cfb37b3dd12e7f9eee5bfeb3a86501422b17551772627e073504e0fint,
        0xd763ceca14c72b64a93e5b4b09512d52905f844c54c45c76f372f2c59c1a8d2int,
        0x280959a1cc56a8920a55e1363fc82f65361c57bc60497deeef1f9d4fb48ebf93int,
    );
    assert(xi_power_is(0x810b7bdd032f006f40d60enat, 0x1554abff8baec4fd927f02453e50ad16118057cf5d652f8a07eef8b4198ea53dint, 0x1fae64d0b77bb0fa5c5b7cb5fe0f066cd4b744e758213150a21eae8890a081dfint));
    lemma_xi_next(0x810b7bdd032f006f40d60enat, 0x1554abff8baec4fd927f02453e50ad16118057cf5d652f8a07eef8b4198ea53dint, 0x1fae64d0b77bb0fa5c5b7cb5fe0f066cd4b744e758213150a21eae8890a081dfint);
    assert(xi_power_is(0x810b7bdd032f006f40d60fnat, 0xf1ebbd28e145b72a12ac695ae430641024791aeb7181ae1f0e66b87cbec5571int, 0x101c60a4b7de3cd07fd4c26423cfd4b7fee9448903e52c10523fd2f81c45466aint));
    lemma_xi_square(
        0x810b7bdd032f006f40d60fnat,
        0xf1ebbd28e145b72a12ac695ae430641024791aeb7181ae1f0e66b87cbec5571int,
        0x101c60a4b7de3cd07fd4c26423cfd4b7fee9448903e52c10523fd2f81c45466aint,
        0x26cd9e9198108d5e0e10fcbf41ba1712b480b127d03245dc315a0a7bf6026c35int,
        0x49584111e3f641d662f2c7fca52721e06c618bd1e2297c5e2a3f9e6fcecd8f3int,
        0x245df0890514aab82c027b562a09984ad328dade0051af64a86cc0c30c3dbd51int,
    );
    assert(xi_power_is(0x10216f7ba065e00de81ac1enat, 0x22381a8079d12940a7e1d03f7767a4f4adba986ab20fae164eb61094f9159342int, 0x1857929f28f7b5469fb4b0f5d291d8380ed04b2a9831943c14b8f56f3ffe7d5bint));
    lemma_xi_square(
        0x10216f7ba065e00de81ac1enat,
        0x22381a8079d12940a7e1d03f7767a4f4adba986ab20fae164eb61094f9159342int,
        0x1857929f28f7b5469fb4b0f5d291d8380ed04b2a9831943c14b8f56f3ffe7d5bint,
        0xefb94cc1ef6a800d33755a67d12cee399a1545fcac60e66eb4156f40ac2b475int,
        0x867693c3dcae626c58302d8fbcc6e47e730a451be212651661522c7d11c8b32int,
        0x1aeef6c1bfc813027041681f910fa4500daefe6aebc205f963477a6c79672965int,
    );
    assert(xi_power_is(0x2042def740cbc01bd03583cnat, 0x6942b8fe12bc1da0db452cd8146609bb270b00e0ca4e815852c342c39a62943int, 0x5799f109e5e85db28328a88a09df04283dc92446f1241658a6e68c21a515583int));
    lemma_xi_square(
        0x2042def740cbc01bd03583cnat,
        0x6942b8fe12bc1da0db452cd8146609bb270b00e0ca4e815852c342c39a62943int,
        0x5799f109e5e85db28328a88a09df04283dc92446f1241658a6e68c21a515583int,
        0xd0bcbddf216ec2bac6e1091506c7df57dbf8b545dbc44c492c91af7d9274bd3int,
        0x1caa19dde8a8e6f27686f14040dcf77631c34d801723004cfe764dc543048705int,
        0x17a8edc79048d8d92c297f79d6b089d753b8031387c1632f1b2eebb08539846fint,
    );
    assert(xi_power_is(0x4085bdee81978037a06b078nat, 0x20c60072ea9fa562ee3765079110dedce37da865af0b0f04d07359496e9fc215int, 0x2f51db8f2091b1b25852fef3ad6113aea77006270f82c65e365dd7610a7308deint));
    lemma_xi_next(0x4085bdee81978037a06b078nat, 0x20c60072ea9fa562ee3765079110dedce37da865af0b0f04d07359496e9fc215int, 0x2f51db8f2091b1b25852fef3ad6113aea77006270f82c65e365dd7610a7308deint);
    assert(xi_power_is(0x4085bdee81978037a06b079nat, 0x5aea03cb912fdf76e0e31bfe4b008416273d0950da7cc0af10d8fc19eb9d77cint, 0x171ff671250043308e4fe82e1bee74b672e120a88ea3e95d9c9afee530462a64int));
    lemma_xi_square(
        0x4085bdee81978037a06b079nat,
        0x5aea03cb912fdf76e0e31bfe4b008416273d0950da7cc0af10d8fc19eb9d77cint,
        0x171ff671250043308e4fe82e1bee74b672e120a88ea3e95d9c9afee530462a64int,
        0x194e9b1cf29337bdd867b24dcabd4981bc2dbb713a5a4fa465596e096937aef3int,
        0x98a744f085b645f9df33be4b76e5df060ae5a898423036729e227bd081bb7aeint,
        0x2fd9069627a54ac0475244f0249e72aee0fceca2a2f619e7b1acfa1a8a2d0cbdint,
    );
    assert(xi_power_is(0x810b7bdd032f006f40d60f2nat, 0xfc426cdea37d35e3a747669134eeb915b7f60e7b6374c3d3b77464c611bf745int, 0x2f4dbeb96e18f556d6544429c7bb8d002a786eb3dd7a69422739681e3bdd1c33int));
    lemma_xi_next(0x810b7bdd032f006f40d60f2nat, 0xfc426cdea37d35e3a747669134eeb915b7f60e7b6374c3d3b77464c611bf745int, 0x2f4dbeb96e18f556d6544429c7bb8d002a786eb3dd7a69422739681e3bdd1c33int);
    assert(xi_power_is(0x810b7bdd032f006f40d60f3nat, 0x2e335010ecabd8cf7f739fd1648962be75808ee022057a57b3d7847a55a197f3int, 0x5f91948de59d1f4489868768b5ac548862e861dd384e0997f57028edf7d0d91int));
    lemma_xi_square(
        0x810b7bdd032f006f40d60f3nat,
        0x2e335010ecabd8cf7f739fd1648962be75808ee022057a57b3d7847a55a197f3int,
        0x5f91948de59d1f4489868768b5ac548862e861dd384e0997f57028edf7d0d91int,
        0x2faca31eba706d9269692d06379d4ca5544c2788466cccbd3123478b22cc8011int,
        0x16bbf3c9ae6b977045100dfea0eff4c34cb28981ecb4bdfd30c4cb266057e7fdint,
        0x1f0ad9f81280d245ac2d5312b11359fdaae1a0273f9e96ddf0f03aa151a9e560int,
    );
    assert(xi_power_is(0x10216f7ba065e00de81ac1e6nat, 0x18f0af550c04d62224591f0796ad57e207999e0659b80ec0005e7c64c2749814int, 0xdb1657d43d00461a00a606ee0a55b9dbe41d5bd16cb632ea5bfe92bcad6cd79int));
    lemma_xi_next(0x10216f7ba065e00de81ac1e6nat, 0x18f0af550c04d62224591f0796ad57e207999e0659b80ec0005e7c64c2749814int, 0xdb1657d43d00461a00a606ee0a55b9dbe41d5bd16cb632ea5bfe92bcad6cd79int);
    assert(xi_power_is(0x10216f7ba065e00de81ac1e7nat, 0x11338ab4a395022ac5d69ffb656d59de281f0e366ee5f75c6d104603a94e961fint, 0x3005563cac01d139bc5b1c9f7f98754f165e1f7ed892bbc1fbc0aaa5a8ad980int));
    lemma_xi_square(
        0x10216f7ba065e00de81ac1e7nat,
        0x11338ab4a395022ac5d69ffb656d59de281f0e366ee5f75c6d104603a94e961fint,
        0x3005563cac01d139bc5b1c9f7f98754f165e1f7ed892bbc1fbc0aaa5a8ad980int,
        0x2954f04a07913340192c384229b3a80b3035f9087e98780fa50e891512413659int,
        0x196a3e004211e1d86bab0941b9eb24fe433e7dd10b3df707e5102d606949b159int,
        0x220f5ebe47d20b212034254c6ea52a8b269cbd14d0487592c15c582a8e5979d0int,
    );
    assert(xi_power_is(0x2042def740cbc01bd03583cenat, 0xfeab249c57f5167ad812f006fc8830cecf77b37735a8107bffe5bb4a8f78500int, 0x13ba6f09ae727618881804e25bc8fcb8b5b80f98381f20984698243e4435f659int));
    lemma_xi_next(0x2042def740cbc01bd03583cenat, 0xfeab249c57f5167ad812f006fc8830cecf77b37735a8107bffe5bb4a8f78500int, 0x13ba6f09ae727618881804e25bc8fcb8b5b80f98381f20984698243e4435f659int);
    assert(xi_power_is(0x2042def740cbc01bd03583cfnat, 0x1abd38a880a4263920d216b48f40ee006ff87038052bd3930117fcedfb83bc19int, 0x304bae4843f097c74d6889d225555c7289ebc7dd331d46ba86f5fda08566364cint));
    lemma_xi_square(
        0x2042def740cbc01bd03583cfnat,
        0x1abd38a880a4263920d216b48f40ee006ff87038052bd3930117fcedfb83bc19int,
        0x304bae4843f097c74d6889d225555c7289ebc7dd331d46ba86f5fda08566364cint,
        0x2c8e90a66bb23410cce7b9114fbecea43c8ba150caf7c9a5a3dd812f16179d60int,
        0x8d1cabd5014f6e2f086161a4a05e914731d1242a4bc33714f5a1eba8ccad556int,
        0x23480fedad1d5aace7cff9f56da09dfae3e371ad725b3c409ee73afbeebc6861int,
    );
    assert(xi_power_is(0x4085bdee81978037a06b079enat, 0x23bcc5e91b9d3d2ddc61a2f705b8e58fc96e8f0e263b963454836274894cc80aint, 0x162bd16879091530174fae3459bfe398304578c97c44adf401ade9e104fbd37bint));
    lemma_xi_square(
        0x4085bdee81978037a06b079enat,
        0x23bcc5e91b9d3d2ddc61a2f705b8e58fc96e8f0e263b963454836274894cc80aint,
        0x162bd16879091530174fae3459bfe398304578c97c44adf401ade9e104fbd37bint,
        0x22909a9a689b60a320c2ae6210be250278482fca8b446b7ac9c8045679e858b2int,
        0x1f944d80f960fecde0f54a7617980a89e4e83975324931ef41f9c884f5488da3int,
        0x2c14cc5e72eed911f8bf37ec33ea63de0464a931b546b3f635bced56bca9fbc1int,
    );
    assert(xi_power_is(0x810b7bdd032f006f40d60f3cnat, 0x2fc4d196f3a61d53fcd63ebf9261a78935ff65558fb398b87ce3bd1849fcb0fint, 0x27c54a4a04ac11fa392e2a21e6536f5e7147e7d2021b9d5f2f594e96a0d6fa3bint));
}

/// The bits from 96 on of the exponent, from the top.
proof fn lemma_xi_power_3()
    requires
        xi_power_is(
            0x810b7bdd032f006f40d60f3cnat,
            0x2fc4d196f3a61d53fcd63ebf9261a78935ff65558fb398b87ce3bd1849fcb0fint,
            0x27c54a4a04ac11fa392e2a21e6536f5e7147e7d2021b9d5f2f594e96a0d6fa3bint,
        ),
    ensures
        xi_power_is(
            0x810b7bdd032f006f40d60f3c0403964enat,
            0x115dfe14948d4d13f4d43a4fc67bffc14c23035d38de0063a56a28fd4d1d5730int,
            0x3c79a01a1c04ea373a873d70aeed2ede14b16e0776f53834066dba1298e3c11int,
        ),
{
    lemma_xi_square(
        0x810b7bdd032f006f40d60f3cnat,
        0x2fc4d196f3a61d53fcd63ebf9261a78935ff65558fb398b87ce3bd1849fcb0fint,
        0x27c54a4a04ac11fa392e2a21e6536f5e7147e7d2021b9d5f2f594e96a0d6fa3bint,
        0x2de340b9d025032c1340dc177f70fda9dffa049e32125e85d3c026fd26ed84e5int,
        0x209379f1b627e09758c0063fbc7bfc9cf41e57b3b68f4de17c89242c9a3fe957int,
        0x5b824c27f08ce5c24e447a16b148711943ddde309f5f5231e71e9a870f106ccint,
    );
    assert(xi_power_is(0x10216f7ba065e00de81ac1e78nat, 0xd4fc6c819fd2294ba80d5d7c2f5010cebdbacea7b8310a4573702d08cad9b8eint, 0xb704984fe119cb849c88f42d6290e23287bbbc613ebea463ce3d350e1e20d98int));
    lemma_xi_square(
        0x10216f7ba065e00de81ac1e78nat,
        0xd4fc6c819fd2294ba80d5d7c2f5010cebdbacea7b8310a4573702d08cad9b8eint,
        0xb704984fe119cb849c88f42d6290e23287bbbc613ebea463ce3d350e1e20d98int,
        0x8a5f88240cc55038f509ca578d4cf39c50c7a7955e69484bc02d0e8ebc82547int,
        0x33a51beaf4ad0260a6001866ab78829effffb31366eae8354db0fbf6b12be7cint,
        0xa3559c82c8d25bc586b9d7658584ecb9583a0fd9ffd3b354d3e53d8c4945cd1int,
    );
    assert(xi_power_is(0x2042def740cbc01bd03583cf0nat, 0x56ba6c3918184dd84f09b1f0e1d470fd50c7f481f77e6016727c12980b566cbint, 0x146ab390591a4b78b0d73aecb0b09d972b0741fb3ffa766a9a7ca7b18928b9a2int));
    lemma_xi_square(
        0x2042def740cbc01bd03583cf0nat,
        0x56ba6c3918184dd84f09b1f0e1d470fd50c7f481f77e6016727c12980b566cbint,
        0x146ab390591a4b78b0d73aecb0b09d972b0741fb3ffa766a9a7ca7b18928b9a2int,
        0xd702b2fbfdb85488a6f412cc4ad6c00c027af4b55677c384dafa5e2babc662fint,
        0x110d40fce080f7e337a7388464b32368e1f59ec986eaf2b6b000d5d6dc4aedceint,
        0x2f440c3d1a5c7e7cfcbdc548295af85086eca163afc0f8581db3af721290e983int,
    );
    assert(xi_power_is(0x4085bdee81978037a06b079e0nat, 0x2cc738a5c08c2d8f0b184e5ee17ba0f575b37b1336ee540ed9cf5c22b6ee75a8int, 0x2e23ca0753875cd0412b44d9d13498437657d835f7102622ff46d2cd4ca4d5bfint));
    lemma_xi_square(
        0x4085bdee81978037a06b079e0nat,
        0x2cc738a5c08c2d8f0b184e5ee17ba0f575b37b1336ee540ed9cf5c22b6ee75a8int,
        0x2e23ca0753875cd0412b44d9d13498437657d835f7102622ff46d2cd4ca4d5bfint,
        0xdb730acbe850f3cacf97c3d5341536ab29c72a9a4f06fc179d10d19b58730a3int,
        0x2b110eed6068b06027ec1be719bf7cdce1303957e3312e0ba24ee171c7d2c3b5int,
        0x7d522d43b52f000205458ed8dfe9159f1e935959208f45b12a3511078ff7debint,
    );
    assert(xi_power_is(0x810b7bdd032f006f40d60f3c0nat, 0x130a70323f4dff063d5da60cbb032eeb68eda3e32a310c4313a2b7bec6316a35int, 0xfaa45a876a5e00040a8b1db1bfd22b3e3d26b2b2411e8b62546a220f1fefbd6int));
    lemma_xi_square(
        0x810b7bdd032f006f40d60f3c0nat,
        0x130a70323f4dff063d5da60cbb032eeb68eda3e32a310c4313a2b7bec6316a35int,
        0xfaa45a876a5e00040a8b1db1bfd22b3e3d26b2b2411e8b62546a220f1fefbd6int,
        0x2018919ecc76867bd70c3f48aa2b4ed3a93fd5dfcea06fca7b28854341f489b7int,
        0x1367a2cf735a6e049815aa8d17362257642a046640b60a05b532c226e6e1a185int,
        0x1af30da115ed55bf3035d1e6c51b1ba901ec5d2f66d6c49868c1bed738cc6b64int,
    );
    assert(xi_power_is(0x10216f7ba065e00de81ac1e780nat, 0xcb0eecf591c18773ef694bb92f52c7c4515d1798dea65c4c5f5c31c5b12e832int, 0x581cccf4aa90b54a81b5e1708b4def46c574fcd653bbea39562f197991bd981int));
    lemma_xi_square(
        0x10216f7ba065e00de81ac1e780nat,
        0xcb0eecf591c18773ef694bb92f52c7c4515d1798dea65c4c5f5c31c5b12e832int,
        0x581cccf4aa90b54a81b5e1708b4def46c574fcd653bbea39562f197991bd981int,
        0x1d8f2cae7f87d52f25d220de91fd536b93ec2e525971e55e573439fd4a3ac996int,
        0x29a889f77b2fe85cd0fc0d2a69556e9d6899893bab03c35faebe2b4660bf7a95int,
        0x12af60dcd2324a1aec87a0cb23db1d3f8dfb264e048618cab0a02e552f680f8dint,
    );
    assert(xi_power_is(0x2042def740cbc01bd03583cf00nat, 0x244af129e5898cfc0d26596aaa293d2bc2d40fa816dfec8be4969acdc1f84c48int, 0x255ec1b9a4649435d90f419647b63a7f1bf64c9c090c319561405caa5ed01f1aint));
    lemma_xi_next(0x2042def740cbc01bd03583cf00nat, 0x244af129e5898cfc0d26596aaa293d2bc2d40fa816dfec8be4969acdc1f84c48int, 0x255ec1b9a4649435d90f419647b63a7f1bf64c9c090c319561405caa5ed01f1aint);
    assert(xi_power_is(0x2042def740cbc01bd03583cf01nat, 0x2f4e308107793fd603b886992c363236c7f72b75ba9a2a937b68581f38799d0bint, 0x21e19b8c84b761bca47dbfb5a507e11499f2d72a8d3120efaaf6082b2bde7741int));
    lemma_xi_square(
        0x2042def740cbc01bd03583cf01nat,
        0x2f4e308107793fd603b886992c363236c7f72b75ba9a2a937b68581f38799d0bint,
        0x21e19b8c84b761bca47dbfb5a507e11499f2d72a8d3120efaaf6082b2bde7741int,
        0x260e0a67acbdbda840fc86d433890234ca056211eae7d9d1b5a7b045ae8d494int,
        0x178d51e5dfb64fff890e9ba94254016fc94cea9572d3a03f2330703b59f75201int,
        0x2fae957d8bf1957ba0da36a3b6e4363cb1c949811a76f0d16566ac9338bb0155int,
    );
    assert(xi_power_is(0x4085bdee81978037a06b079e02nat, 0x1b37dd337c472c04b351727a8265e7111ad4d61d144ca7eb344a96dfd96e7fdaint, 0x2ef8dc8836b18acd89642790ec47141bcc112870cc7c17158eaccd0f98f90563int));
    lemma_xi_square(
        0x4085bdee81978037a06b079e02nat,
        0x1b37dd337c472c04b351727a8265e7111ad4d61d144ca7eb344a96dfd96e7fdaint,
        0x2ef8dc8836b18acd89642790ec47141bcc112870cc7c17158eaccd0f98f90563int,
        0xbf765562d704222593672dca50c2b22e3a74cc275f15e78905808cd1517490bint,
        0x23d300d6d380296977dd93ad2deae84b431dab99158228d6be4a320f48ec9139int,
        0x2c2c7250a61dd43aafbab0349926b71d75599abfdbbc8befe38343e5652fd437int,
    );
    assert(xi_power_is(0x810b7bdd032f006f40d60f3c04nat, 0x1888b2f23b21b8e299a924e5f8a29b35380b0bbac8e1002f0e2e62d4a4a7b519int, 0x27f4962e6b0a084ba7251ab2b0cc15dd5331caee4f074d528ae5fbb3f1e2ab27int));
    lemma_xi_square(
        0x810b7bdd032f006f40d60f3c04nat,
        0x1888b2f23b21b8e299a924e5f8a29b35380b0bbac8e1002f0e2e62d4a4a7b519int,
        0x27f4962e6b0a084ba7251ab2b0cc15dd5331caee4f074d528ae5fbb3f1e2ab27int,
        0x12698742be650ac139bb8309c9a6e553c2f085b7c0d0eaa9977f32cd26248e32int,
        0x2821ab5380c0dd2619550ce49a449f386e53fa1f9e03d2057d71f44be0924148int,
        0x93932bdf0266cbaa7338819808ede13b02c48e8ca3dadd0c760d6303f1df14cint,
    );
    assert(xi_power_is(0x10216f7ba065e00de81ac1e7808nat, 0x1aac2a621ed5cdc4d8b6bbdbb0e39e78ec1df6298b3ee331562dca981e0f4a31int, 0x1272657be04cd9754e671033011dbc27605891d1947b5ba18ec1ac607e3be298int));
    lemma_xi_square(
        0x10216f7ba065e00de81ac1e7808nat,
        0x1aac2a621ed5cdc4d8b6bbdbb0e39e78ec1df6298b3ee331562dca981e0f4a31int,
        0x1272657be04cd9754e671033011dbc27605891d1947b5ba18ec1ac607e3be298int,
        0x1b2dbfaf8601fe0505e8a1709ca2f3855c5860e2f2809d6f2202c717bab40968int,
        0x2ad7b3e31bccaa97fbf71ef0f8d6411f2b0db3593b66cdf4869b58f85937fe49int,
        0x25b6aaa3bb1c58568b286f9865160c0387a0af95806bb76976d2732b69eb3b82int,
    );
    assert(xi_power_is(0x2042def740cbc01bd03583cf010nat, 0x20ba5a3f4b66f396c241c836254e0ac3c8cc181b1f8b9a07d787fa3639f90866int, 0x1b0906d4950710835e00997a48aabfa977bff4999865a445b1845a3ffb5979bdint));
    lemma_xi_square(
        0x2042def740cbc01bd03583cf010nat,
        0x20ba5a3f4b66f396c241c836254e0ac3c8cc181b1f8b9a07d787fa3639f90866int,
        0x1b0906d4950710835e00997a48aabfa977bff4999865a445b1845a3ffb5979bdint,
        0x180efe10bb2fd942c210099820e9d0b4a4bb3f6c01ed92720b076df69f595257int,
        0x217f193d6e3282b60e5bd7ac8aaa21cb131b7e04e21d720de140aef1e8a5ff7fint,
        0xdc0b3dd8e563401b6e124c03bd3447310b38c347dfbbc119358249c766a0aeaint,
    );
    assert(xi_power_is(0x4085bdee81978037a06b079e020nat, 0x26f433462e2ef6b66c0477a217c1074729212bf88841eaf165e74b1b8f30501fint, 0x1b8167bb1cac68036dc2498077a688e621671868fbf7782326b04938ecd415d4int));
    lemma_xi_square(
        0x4085bdee81978037a06b079e020nat,
        0x26f433462e2ef6b66c0477a217c1074729212bf88841eaf165e74b1b8f30501fint,
        0x1b8167bb1cac68036dc2498077a688e621671868fbf7782326b04938ecd415d4int,
        0x13e79485f5c675c239d70ba526d724b1531037e4f1dbc7176003c079115cff6bint,
        0x8e9a3e9876722e8d511d1749f8bd90d705fcbddff65018f841d25870bc8ce9bint,
        0x247c36579d87c8848894d1cfa9399e24ed10637f05288256f01ce03f3a00b13bint,
    );
    assert(xi_power_is(0x810b7bdd032f006f40d60f3c040nat, 0xafdf09c6e5f52d964c53a30874b4ba3e2b06c06f276c587dbe69af2059430d0int, 0x18941e3c59ddf0df58d95de8d0f1e3ec429f5c6ca1df3a20a41934679b84652fint));
    lemma_xi_square(
        0x810b7bdd032f006f40d60f3c040nat,
        0xafdf09c6e5f52d964c53a30874b4ba3e2b06c06f276c587dbe69af2059430d0int,
        0x18941e3c59ddf0df58d95de8d0f1e3ec429f5c6ca1df3a20a41934679b84652fint,
        0x3cbf78f02b06efd0cc62e1f70aec09559c39e7ba8692867f29c464a6f1c6fbint,
        0xf4f8f9157fbcd486b08e778dcf93f1a3300027bbf661aa874a5274e738d47afint,
        0x16164ccf68a6774a978bc7ffe28096e3af326d63b1844037655fa3923c0e417dint,
    );
    assert(xi_power_is(0x10216f7ba065e00de81ac1e78080nat, 0x21517e5a7960d9d11e13c11f9b93054cba1da1fd6392426b46a5292d0be17c93int, 0x2c2c999ed14cee952f178fffc5012dc75e64dac76308806ecabf4724781c82faint));
    lemma_xi_square(
        0x10216f7ba065e00de81ac1e78080nat,
        0x21517e5a7960d9d11e13c11f9b93054cba1da1fd6392426b46a5292d0be17c93int,
        0x2c2c999ed14cee952f178fffc5012dc75e64dac76308806ecabf4724781c82faint,
        0x12c5473fef5c25b4738e1f0de8b7d7e1828a7b8e2e595bf2aa4dd6f4e2c616bcint,
        0x2db587f9396d12d9542c8cac3389b23a0d4a7db12506628a63693aa0bb4c6cceint,
        0x2d759639389c7f74c0c9f2ba84e5b93f83fcb9e3770f3eac659e704432f1b9eint,
    );
    assert(xi_power_is(0x2042def740cbc01bd03583cf0100nat, 0x15740db99720b304d7b1d81836af7e050cc1686e71c4c3f58305286afff6a735int, 0x5aeb2c727138fee98193e57509cb727f07f973c6ee1e7d58cb3ce08865e373cint));
    lemma_xi_square(
        0x2042def740cbc01bd03583cf0100nat,
        0x15740db99720b304d7b1d81836af7e050cc1686e71c4c3f58305286afff6a735int,
        0x5aeb2c727138fee98193e57509cb727f07f973c6ee1e7d58cb3ce08865e373cint,
        0x2011a41033aba96b8aa9df76753b588338f688ea3d6f26edb288c580b5c6398fint,
        0x2ab1f969739effc338c6921579c8f0acaa3b8d4cb43f46deacb1935d9cc9c13eint,
        0x780592ca07d65205ffcd0f50d1aa726867e020714b303633d5491b595e569b8int,
    );
    assert(xi_power_is(0x4085bdee81978037a06b079e0200nat, 0x25c3f919a13e49d20a3393177cf3c034263c662ef1a1aa9c41f7be39f1797598int, 0xf00b25940faca40bff9a1ea1a354e4d0cfc040e296606c67aa9236b2bcad370int));
    lemma_xi_next(0x4085bdee81978037a06b079e0200nat, 0x25c3f919a13e49d20a3393177cf3c034263c662ef1a1aa9c41f7be39f1797598int, 0xf00b25940faca40bff9a1ea1a354e4d0cfc040e296606c67aa9236b2bcad370int);
    assert(xi_power_is(0x4085bdee81978037a06b079e0201nat, 0x228938dc230c0d2749f4e7a241546156be1b142fe29e39686e4944153e8c5f3eint, 0x1b9d52e4467a859ba109732ee44f77d0d4944afa2ce287eedd8858b9f223ecb3int));
    lemma_xi_square(
        0x4085bdee81978037a06b079e0201nat,
        0x228938dc230c0d2749f4e7a241546156be1b142fe29e39686e4944153e8c5f3eint,
        0x1b9d52e4467a859ba109732ee44f77d0d4944afa2ce287eedd8858b9f223ecb3int,
        0x2f6eebc8a5ffdfd79a4d4dd10c5e3a64f062daf7e00a0f1dd921c979829f7ad4int,
        0xa6334404544709608e90ddd6c5d45ec64cc46fad2ea9d32e6113112ec032ab3int,
        0x419632dd894ada0439db58a52ba50f5fc33defaa1af9f7ad38ac7ef15744360int,
    );
    assert(xi_power_is(0x810b7bdd032f006f40d60f3c0402nat, 0x250bb78860bb6f4191643ff3a000f4788b9693fd0d1f71eaf3109866969c5021int, 0x832c65bb1295b40873b6b14a574a1ebf867bdf5435f3ef5a7158fde2ae886c0int));
    lemma_xi_next(0x810b7bdd032f006f40d60f3c0402nat, 0x250bb78860bb6f4191643ff3a000f4788b9693fd0d1f71eaf3109866969c5021int, 0x832c65bb1295b40873b6b14a574a1ebf867bdf5435f3ef5a7158fde2ae886c0int);
    assert(xi_power_is(0x810b7bdd032f006f40d60f3c0403nat, 0x22dcd6be6e43cd1343693234f18be41f62daf687c01102fd7bbc83340da85abfint, 0xe0c13dbd8cc6432e1da78406e17f50918396c799a9513735a918f0867cf1253int));
    lemma_xi_square(
        0x810b7bdd032f006f40d60f3c0403nat,
        0x22dcd6be6e43cd1343693234f18be41f62daf687c01102fd7bbc83340da85abfint,
        0xe0c13dbd8cc6432e1da78406e17f50918396c799a9513735a918f0867cf1253int,
        0x297aebf606b01bc51616ba866638c4201797d6396a6815e9dda4b907cba06e6aint,
        0x1f82a5e8d9c9d8a4ba25865333e40e6dea31cbf876fea1985816761b8b7527acint,
        0x110a203dd51e1249c10a5f31d4e2179ac6aa9ca556e00baa001250ed1aee00b8int,
    );
    assert(xi_power_is(0x10216f7ba065e00de81ac1e780806nat, 0x9f8460d2ce643205bf134333254b5b22d660a40f3697451858e42ec402b46beint, 0x2214407baa3c24938214be63a9c42f358d55394aadc017540024a1da35dc0170int));
    lemma_xi_next(0x10216f7ba065e00de81ac1e780806nat, 0x9f8460d2ce643205bf134333254b5b22d660a40f3697451858e42ec402b46beint, 0x2214407baa3c24938214be63a9c42f358d55394aadc017540024a1da35dc0170int);
    assert(xi_power_is(0x10216f7ba065e00de81ac1e780807nat, 0x741e78808aa97660115d1b299b4dbb073bfb86c788334fc75bb2c5d332c7df7int, 0x1a54b3b4e1d9cb559cca436d21324c62985c8e789c7f86f61e14ab0f11f96404int));
    lemma_xi_square(
        0x10216f7ba065e00de81ac1e780807nat,
        0x741e78808aa97660115d1b299b4dbb073bfb86c788334fc75bb2c5d332c7df7int,
        0x1a54b3b4e1d9cb559cca436d21324c62985c8e789c7f86f61e14ab0f11f96404int,
        0x6aa6bd42df8964c1b063ede1db17bb5a00f0b51285c4b24748d5e4399b59a20int,
        0x293dfbb52fbd687453c0d0ed64f05ce0c4759b31f883285d511c752325a1055int,
        0x2d1ef333657118a061e223477f3d658d669bb4964e08f9a2ca9b95ec841ede4dint,
    );
    assert(xi_power_is(0x2042def740cbc01bd03583cf0100enat, 0x4168c18dafcbfc4d5ca31cf476275e793c7b19e08d4189e9f7b96f1675b89cbint, 0x29d997f3e9b091170b7400d87cf972bd35b5fe9b33a028b859169fc22fc0bf53int));
    lemma_xi_square(
        0x2042def740cbc01bd03583cf0100enat,
        0x4168c18dafcbfc4d5ca31cf476275e793c7b19e08d4189e9f7b96f1675b89cbint,
        0x29d997f3e9b091170b7400d87cf972bd35b5fe9b33a028b859169fc22fc0bf53int,
        0x17734533f61b92aab76be18e8bc5e45cf67b1c21e0f9fe93772626ed88b80f47int,
        0x14d484d23ad06de60298c10c7d6ef8e51c1869f7e6cb7bf7516836d3d7d8fe67int,
        0x29ed0aa401446e573093e75cf709c52619c49b0977739e8c1fb3e7ff384a2469int,
    );
    assert(xi_power_is(0x4085bdee81978037a06b079e0201cnat, 0x29ec061bb4b24c4b4d320820e56eb77da62b229fa2e829c25bdf019b0df10e0int, 0x2375c6d521573c84a8d789036c9231ee9c07cb818675728b034743e798174b8bint));
    lemma_xi_square(
        0x4085bdee81978037a06b079e0201cnat,
        0x29ec061bb4b24c4b4d320820e56eb77da62b229fa2e829c25bdf019b0df10e0int,
        0x2375c6d521573c84a8d789036c9231ee9c07cb818675728b034743e798174b8bint,
        0x2b43cfe4219a4abf29d07c23731207abb31c90ebfdd52638b6947e243d787a15int,
        0x22fc99d6770d7bdadd6ad8bef69580a3ed8484bb7be6320bb2ef4ad9f200077fint,
        0x29a7a023c8ed65bf065c26d5c69ae31e3fc60516819c2ddcce9df7a289129a8int,
    );
    assert(xi_power_is(0x810b7bdd032f006f40d60f3c04038nat, 0x847360daa8ccee44c65a3647c7c8707c5980c3081eef42d03a5334a4b787296int, 0x534f404791dacb7e0cb84dab8d35c63c7f8c0a2d03385bb99d3bef451225350int));
    lemma_xi_next(0x810b7bdd032f006f40d60f3c04038nat, 0x847360daa8ccee44c65a3647c7c8707c5980c3081eef42d03a5334a4b787296int, 0x534f404791dacb7e0cb84dab8d35c63c7f8c0a2d03385bb99d3bef451225350int);
    assert(xi_power_is(0x810b7bdd032f006f40d60f3c04039nat, 0x14e7a403a4a3f9251676f3f7260c0a8492de428058c1454c4ada82917d9cb6afint, 0x6bf7bc30b6641317b3d095e7a696e2c35d567586b4cdd382ff65dca4d30631fint));
    lemma_xi_square(
        0x810b7bdd032f006f40d60f3c04039nat,
        0x14e7a403a4a3f9251676f3f7260c0a8492de428058c1454c4ada82917d9cb6afint,
        0x6bf7bc30b6641317b3d095e7a696e2c35d567586b4cdd382ff65dca4d30631fint,
        0xf3778be4cd85cd03cc61aa0ef4662d4b3608e0aee2dd2548ffb499d0a8a12b8int,
        0x1cca03d4de5889f505aedf6acf36a21c9d98733b1c94e7e26ac014b22a849da1int,
        0x5802515d4cbfa4bb20cea85f17e60f9019b687c6b22eb24acfc6a0c7d9b20edint,
    );
    assert(xi_power_is(0x10216f7ba065e00de81ac1e7808072nat, 0x22d1c35c4fb17304ef6780eca1911915ad4985613a0ab4ff615bc101b882725eint, 0xb004a2ba997f4976419d50be2fcc1f20336d0f8d645d64959f8d418fb3641daint));
    lemma_xi_square(
        0x10216f7ba065e00de81ac1e7808072nat,
        0x22d1c35c4fb17304ef6780eca1911915ad4985613a0ab4ff615bc101b882725eint,
        0xb004a2ba997f4976419d50be2fcc1f20336d0f8d645d64959f8d418fb3641daint,
        0x2902f45698fa5c294e2547898098184e1192219b7816d298317812e6441a1dceint,
        0x1097f50eb923a882f3724017457ba130b7edc806aaaf66776b5439ca98fba8aeint,
        0x6422f58c141496c02f32765afe86e0f373af0b4a5be3a43929aa919fd237bf2int,
    );
    assert(xi_power_is(0x2042def740cbc01bd03583cf0100e4nat, 0x186aff47dfd6b3a65ab307723b1c771d59a45994cd676c20c623d91bab1e7520int, 0xc845eb1828292d805e64ecb5fd0dc1e6e75e1694b7c748725355233fa46f7e4int));
    lemma_xi_next(0x2042def740cbc01bd03583cf0100e4nat, 0x186aff47dfd6b3a65ab307723b1c771d59a45994cd676c20c623d91bab1e7520int, 0xc845eb1828292d805e64ecb5fd0dc1e6e75e1694b7c748725355233fa46f7e4int);
    assert(xi_power_is(0x2042def740cbc01bd03583cf0100e5nat, 0xdad6109d7433d5a4923dd5eae29f2735a4b9a8c4b5f2e6ae18b1f69a7d73120int, 0x2849b69fb40a9ceb1f2b412b967183740cc67125a3e3efc69cc2a4c1c6a33196int));
    lemma_xi_square(
        0x2042def740cbc01bd03583cf0100e5nat,
        0xdad6109d7433d5a4923dd5eae29f2735a4b9a8c4b5f2e6ae18b1f69a7d73120int,
        0x2849b69fb40a9ceb1f2b412b967183740cc67125a3e3efc69cc2a4c1c6a33196int,
        0x212b8b17c02c8b7fc5ef4023e784e796de411f5236a87bbc26961b4bb69bd69dint,
        0xbd887ee38d9b3d3d4d3f4e8cdbee5b210ed07a4685c21a34bf122c585adec3bint,
        0x32b55cd2318c22a22fd44dffb03510236a1ba2a3b5eac19c403fd58c0af11int,
    );
    assert(xi_power_is(0x4085bdee81978037a06b079e0201canat, 0x155303298752d7abf11b4b3b19c601e4cd5417adce4c5a18daa4f88630edea62int, 0x656ab9a4631845445fa89bff606a2046d43745476bd58338807fab1815e22int));
    lemma_xi_next(0x4085bdee81978037a06b079e0201canat, 0x155303298752d7abf11b4b3b19c601e4cd5417adce4c5a18daa4f88630edea62int, 0x656ab9a4631845445fa89bff606a2046d43745476bd58338807fab1815e22int);
    assert(xi_power_is(0x4085bdee81978037a06b079e0201cbnat, 0x2eb7da71840e8309fcbed966a37c01506d0351f3b2e30ddfc7e310787d64e77bint, 0x158c0f31f3ca9552e7911a12d96c3d96f52b76c4c6790232aa6d40566e7a3994int));
    lemma_xi_square(
        0x4085bdee81978037a06b079e0201cbnat,
        0x2eb7da71840e8309fcbed966a37c01506d0351f3b2e30ddfc7e310787d64e77bint,
        0x158c0f31f3ca9552e7911a12d96c3d96f52b76c4c6790232aa6d40566e7a3994int,
        0x3d304ae7a77e3a467ffa913f4a978efc6aa069d620c35b785d5cab85ab4897bint,
        0x2e9782fdf667a6aca0d979990135c2c77b30244bd7833a20d9f0a285d772251fint,
        0x194ac5536f5534e642255b8e597b0ec18d0c6cbec9c6da7fc4f74c54210a6a3cint,
    );
    assert(xi_power_is(0x810b7bdd032f006f40d60f3c040396nat, 0x59fd0236541dd217f76753174f50e85e2fb4ce2f2fac623e805b4495bbf61a3int, 0x2313c33fd78c9a2cbfa71663174c52582976eec2b1bea724dce0c916997d731int));
    lemma_xi_square(
        0x810b7bdd032f006f40d60f3c040396nat,
        0x59fd0236541dd217f76753174f50e85e2fb4ce2f2fac623e805b4495bbf61a3int,
        0x2313c33fd78c9a2cbfa71663174c52582976eec2b1bea724dce0c916997d731int,
        0x1e9090963bd944c7186ac82af6131977d1618d508237d516d39a58d7879876c2int,
        0x2a0094668da811d79b0e786e2d582210fcb0befdceb59c1e524be04522600cf8int,
        0x197d59778a84b3d13aba41ff4a3ad98af553fba83415cff0f2ee9fda89b02b2bint,
    );
    assert(xi_power_is(0x10216f7ba065e00de81ac1e7808072cnat, 0x24f44aa28f62d31935ac95734a3c4fc46c3238e41bf40385bd6f04a93db56711int, 0x296647c33d7c778bd243e4812f45ab853268cbeffb9d554a9bcb39e3ae3590fint));
    lemma_xi_square(
        0x10216f7ba065e00de81ac1e7808072cnat,
        0x24f44aa28f62d31935ac95734a3c4fc46c3238e41bf40385bd6f04a93db56711int,
        0x296647c33d7c778bd243e4812f45ab853268cbeffb9d554a9bcb39e3ae3590fint,
        0x2ac25f8081fa8645ee560fe8377ceedbad62dc6e178584ba1258a879eaef3b0aint,
        0x22928d0ac47a4b7045118282142d436e240e8560edf9c8f8287520d00e656abbint,
        0x26b6c59a1f63b90f5df5251e460f42947892d5aa878eeb2193e2c0bb081b9723int,
    );
    assert(xi_power_is(0x2042def740cbc01bd03583cf0100e58nat, 0x82fd275bd803ad5a9448d66234fab6d8954570d298bbbc1e9e387a9dc89d04fint, 0x1d093cc15d95d1f5039a04860a9d2ccb59a440c3a6ac0bb5eba4f55f37ba30ffint));
    lemma_xi_next(0x2042def740cbc01bd03583cf0100e58nat, 0x82fd275bd803ad5a9448d66234fab6d8954570d298bbbc1e9e387a9dc89d04fint, 0x1d093cc15d95d1f5039a04860a9d2ccb59a440c3a6ac0bb5eba4f55f37ba30ffint);
    assert(xi_power_is(0x2042def740cbc01bd03583cf0100e59nat, 0x2ca529624bec3f8defcef411332fda0e7a52ceb2cf3d8e1b4d5acf99891e21c8int, 0x1b8d6d03a1cc7ba2301d598bfb4f84bfba938916fb5f3065060d6b9097a496e3int));
    lemma_xi_square(
        0x2042def740cbc01bd03583cf0100e59nat,
        0x2ca529624bec3f8defcef411332fda0e7a52ceb2cf3d8e1b4d5acf99891e21c8int,
        0x1b8d6d03a1cc7ba2301d598bfb4f84bfba938916fb5f3065060d6b9097a496e3int,
        0x2712d25da3b78dead2ead9fa8aa1522695f3b01d6e2f3504971a81c3c8bd7340int,
        0x2244dfbf14c47e912dccb6c668c5a673fd6a509f4d991e034dfebe9de86bc8e3int,
        0x29362a70efb055ab0493450386107c236c339264c263d6897d4761f3696ee469int,
    );
    assert(xi_power_is(0x4085bdee81978037a06b079e0201cb2nat, 0x4cdf29e8ef30f59a51e233421dbabb298895f7e20961701491bc325e051aa5dint, 0x2208066efe2f0b2c50d644508a9f9fe940e5ba381c55e285be6e37cffa60cb8bint));
    lemma_xi_square(
        0x4085bdee81978037a06b079e0201cb2nat,
        0x4cdf29e8ef30f59a51e233421dbabb298895f7e20961701491bc325e051aa5dint,
        0x2208066efe2f0b2c50d644508a9f9fe940e5ba381c55e285be6e37cffa60cb8bint,
        0x23342249bf5ed3b015c54221ba10ee3b9923c7a8d35acba30cd0721d73d16831int,
        0x2c4047ddb5ad72a0cca1e2ea6f5c5f60eccc05849fcb2841b4f927b3bb937dd0int,
        0x6b98dcbbfacd8182f7a53be41dd6720f9cc4b2f9726e4486357866adea633a8int,
    );
    assert(xi_power_is(0x810b7bdd032f006f40d60f3c0403964nat, 0x275828deeae301390173a4edcc35e73843d92cb59c016dee93f7d68090bae7a8int, 0xd731b977f59b0305ef4a77c83bace41f398965f2e4dc890c6af0cd5bd4c6750int));
    lemma_xi_square(
        0x810b7bdd032f006f40d60f3c0403964nat,
        0x275828deeae301390173a4edcc35e73843d92cb59c016dee93f7d68090bae7a8int,
        0xd731b977f59b0305ef4a77c83bace41f398965f2e4dc890c6af0cd5bd4c6750int,
        0xde0bcaab89d76753eec2af1f4d96018f7da46e4f47a6578fe2bd2dfd6487287int,
        0x1052a7248c761839a1803341ac9682ab8bbb1b8f6e23599d8700c253fbd742f6int,
        0x1fd0c81f43dd71d7b2a01fa18101185294e0a8df824f0d3def3bc22d6d610a5dint,
    );
    assert(xi_power_is(0x10216f7ba065e00de81ac1e7808072c8nat, 0x2df263f90d58fe6555bc3d66c9c435cb03a095e6eec8d668b34b9ca2b2ee2cd8int, 0xf3d41cba6894385aceff98c8080d847923fe72d9c2c4feea256f84402451773int));
    lemma_xi_next(0x10216f7ba065e00de81ac1e7808072c8nat, 0x2df263f90d58fe6555bc3d66c9c435cb03a095e6eec8d668b34b9ca2b2ee2cd8int, 0xf3d41cba6894385aceff98c8080d847923fe72d9c2c4feea256f84402451773int);
    assert(xi_power_is(0x10216f7ba065e00de81ac1e7808072c9nat, 0xb25ce5ec80aacbc942c015c8b5a48eed25a09658554e555ca4d28bd843291edint, 0x25ecc8c944977d9b413b3233c9c7c736615b76cd33024624b3f8b2c23de5080eint));
    lemma_xi_square(
        0x10216f7ba065e00de81ac1e7808072c9nat,
        0xb25ce5ec80aacbc942c015c8b5a48eed25a09658554e555ca4d28bd843291edint,
        0x25ecc8c944977d9b413b3233c9c7c736615b76cd33024624b3f8b2c23de5080eint,
        0xaefe29a750028a592c8653a60a722a1bcba3614c47805846d03f2f9b8e0be7fint,
        0xe33d8eeeffcd0709bd0430ef896eceadc24d108256fe01a1af92eb8369973a5int,
        0x45298a00dde09ef35a5f9052864965d93f7b976666511e3971c6552ed33efa6int,
    );
    assert(xi_power_is(0x2042def740cbc01bd03583cf0100e592nat, 0x2d20581e6634f85eaf4867e1e9918e147816cf9e0779eff78e2b50585ac44821int, 0x8a531401bbc13de6b4bf20a50c92cbb27ef72ecccca23c72e38caa5da67df4cint));
    lemma_xi_next(0x2042def740cbc01bd03583cf0100e592nat, 0x2d20581e6634f85eaf4867e1e9918e147816cf9e0779eff78e2b50585ac44821int, 0x8a531401bbc13de6b4bf20a50c92cbb27ef72ecccca23c72e38caa5da67df4cint);
    assert(xi_power_is(0x2042def740cbc01bd03583cf0100e593nat, 0xa5b743a7293a627fbbd8732d94a0f1054d2851632f0f782f048a7be9296bfa5int, 0x1a2676799d6e6add04535ed1bda16fedb07f04ce69b19cddb5e957ff5771273fint));
    lemma_xi_square(
        0x2042def740cbc01bd03583cf0100e593nat,
        0xa5b743a7293a627fbbd8732d94a0f1054d2851632f0f782f048a7be9296bfa5int,
        0x1a2676799d6e6add04535ed1bda16fedb07f04ce69b19cddb5e957ff5771273fint,
        0x1f25ede82a38ca6ff38a8e835d0de117c811914810ecb7ada4d3c815cac8f217int,
        0x1e8296e22eb0a5e7547431084b0e807a0c9d5ac178fcd6aa4f04432795c8321int,
        0x2b0a63c21cea231918513f502443a48cb20326e96df4fb2ce87496e51efedb7int,
    );
    assert(xi_power_is(0x4085bdee81978037a06b079e0201cb26nat, 0x1d3dc47a074dc0117e434b72d85cf9102747bb9bf95cea42ffe383e3516c6ef6int, 0x5614c78439d4463230a27ea04887491964064dd2dbe9f659d0e92dca3dfdb6eint));
    lemma_xi_next(0x4085bdee81978037a06b079e0201cb26nat, 0x1d3dc47a074dc0117e434b72d85cf9102747bb9bf95cea42ffe383e3516c6ef6int, 0x5614c78439d4463230a27ea04887491964064dd2dbe9f659d0e92dca3dfdb6eint);
    assert(xi_power_is(0x4085bdee81978037a06b079e0201cb27nat, 0xfd5139398265b69b3c2228f0f35932bd5be1ec78c4ca833354e53aefe7f18d5int, 0x1d45264186a38764014e6cf67fa7b9d0d809dcd12c9eba484946218e3bce288dint));
    lemma_xi_square(
        0x4085bdee81978037a06b079e0201cb27nat,
        0xfd5139398265b69b3c2228f0f35932bd5be1ec78c4ca833354e53aefe7f18d5int,
        0x1d45264186a38764014e6cf67fa7b9d0d809dcd12c9eba484946218e3bce288dint,
        0x33bdfcbb0dc9bf70dafde9dd39839b1f8be4bec7afac10c7e561e9e0c733b59int,
        0x22423029fd80ef0cd12bea048e9d924e441cb320aa8e8b36150c81b797d2e170int,
        0x1a15f43a4178f76695fc5cc6c63815a5bc6640b8eff08f083e43b3dc01059cacint,
    );
    assert(xi_power_is(0x810b7bdd032f006f40d60f3c0403964enat, 0x115dfe14948d4d13f4d43a4fc67bffc14c23035d38de0063a56a28fd4d1d5730int, 0x3c79a01a1c04ea373a873d70aeed2ede14b16e0776f53834066dba1298e3c11int));
}

/// The bits from 128 on of the exponent, from the top.
proof fn lemma_xi_power_4()
    requires
        xi_power_is(
            0x810b7bdd032f006f40d60f3c0403964enat,
            0x115dfe14948d4d13f4d43a4fc67bffc14c23035d38de0063a56a28fd4d1d5730int,
            0x3c79a01a1c04ea373a873d70aeed2ede14b16e0776f53834066dba1298e3c11int,
        ),
    ensures
        xi_power_is(
            0x810b7bdd032f006f40d60f3c0403964ee9591c2enat,
            0x1a3f0444fc1028b08b514da2d2c2a69623b9eed6e654bd7a79230dae13d1e599int,
            0x1c0ddf71af2d765c2571c5a7e7a3d5defe3d03e553de6cd8d7346258887a3005int,
        ),
{
    lemma_xi_square(
        0x810b7bdd032f006f40d60f3c0403964enat,
        0x115dfe14948d4d13f4d43a4fc67bffc14c23035d38de0063a56a28fd4d1d5730int,
        0x3c79a01a1c04ea373a873d70aeed2ede14b16e0776f53834066dba1298e3c11int,
        0xa39035242527c2e118b2a06c0a345ef227eb68970e0154cba48efaf60a3242dint,
        0x26c665960c2833a338ee8a41afc5d6375924b40586c3490008547f286bb63ea5int,
        0x20f11bbc4a2a146f6ae6f004394392aee52861f74bc9e2c4a740a07c4dda0d5cint,
    );
    assert(xi_power_is(0x10216f7ba065e00de81ac1e7808072c9cnat, 0x13d6ec2f175be8b490ece57b925ec81560db6d15528e96d9ee14fc9dcd69e2cfint, 0x117de905b32288b51d7d9a51f105cd0032cf595d2f21fafc1260b4e1c3371d71int));
    lemma_xi_next(0x10216f7ba065e00de81ac1e7808072c9cnat, 0x13d6ec2f175be8b490ece57b925ec81560db6d15528e96d9ee14fc9dcd69e2cfint, 0x117de905b32288b51d7d9a51f105cd0032cf595d2f21fafc1260b4e1c3371d71int);
    assert(xi_power_is(0x10216f7ba065e00de81ac1e7808072c9dnat, 0xfe379497b83c526d1e5a5e2afcb32a76e633cae7e8bf30597fa8865ec0ae401int, 0x20173209bffdd69571668139870ef3fe63a151a7c16b0a0edf19b44920e2f3f3int));
    lemma_xi_square(
        0x10216f7ba065e00de81ac1e7808072c9dnat,
        0xfe379497b83c526d1e5a5e2afcb32a76e633cae7e8bf30597fa8865ec0ae401int,
        0x20173209bffdd69571668139870ef3fe63a151a7c16b0a0edf19b44920e2f3f3int,
        0x15392f51f4b827485cda509ad4a038612941fe3206cc8847ea960a6611e8035fint,
        0x96b522f8af5c4c36212154082fa9a9a669d31f1f67db1020431687d116933edint,
        0x2bba41a5bce0f497b0a79400dcb274f788488d3f82ceb1fb7f15c1be8aba2d49int,
    );
    assert(xi_power_is(0x2042def740cbc01bd03583cf0100e593anat, 0xbcddd2269c26284fac83b5a51a59dc6c2a4cc40104ed745e664a1e9007ecf72int, 0x271034d898904905a8fee24b37e39191790fafed9d2b9969c20af7663cf75d4bint));
    lemma_xi_next(0x2042def740cbc01bd03583cf0100e593anat, 0xbcddd2269c26284fac83b5a51a59dc6c2a4cc40104ed745e664a1e9007ecf72int, 0x271034d898904905a8fee24b37e39191790fafed9d2b9969c20af7663cf75d4bint);
    assert(xi_power_is(0x2042def740cbc01bd03583cf0100e593bnat, 0x12c842ea3e138d7d6fbaee2b256da20dc73a13c18d282d7e1b5e2db3ef00f070int, 0x18a1939b9e799293e18c4801be1c5154dfa811a0bbbab22113e37fe139c62a24int));
    lemma_xi_square(
        0x2042def740cbc01bd03583cf0100e593bnat,
        0x12c842ea3e138d7d6fbaee2b256da20dc73a13c18d282d7e1b5e2db3ef00f070int,
        0x18a1939b9e799293e18c4801be1c5154dfa811a0bbbab22113e37fe139c62a24int,
        0x12339f7485b01490b99a45816af904781de1916b709165e06bd1f8790a257941int,
        0x450da60933a4127806eb817b3e740a4638d6c872200108815f5af2eb41872daint,
        0x22879c6b2309cb770a0c597956c4a28af92414f7e8d191654b9b9f1885c6c1d2int,
    );
    assert(xi_power_is(0x4085bdee81978037a06b079e0201cb276nat, 0xde2c513f275d369392b8d69b711c3d3ba5424e44e91555855dc494a560d0667int, 0x14aaea6364e1f6c45bc86d3c2c07ecb85ac6bf5e6931583d5b16b21a3310865dint));
    lemma_xi_next(0x4085bdee81978037a06b079e0201cb276nat, 0xde2c513f275d369392b8d69b711c3d3ba5424e44e91555855dc494a560d0667int, 0x14aaea6364e1f6c45bc86d3c2c07ecb85ac6bf5e6931583d5b16b21a3310865dint);
    assert(xi_power_is(0x4085bdee81978037a06b079e0201cb277nat, 0x785666a5edf379b361f000e409544fe032bb785890712c33166c955226ab8b4int, 0x653c8c6f9a0ffa991f64dad3d53b4d88d4b34f05f86454b99265bdabfadca90int));
    lemma_xi_square(
        0x4085bdee81978037a06b079e0201cb277nat,
        0x785666a5edf379b361f000e409544fe032bb785890712c33166c955226ab8b4int,
        0x653c8c6f9a0ffa991f64dad3d53b4d88d4b34f05f86454b99265bdabfadca90int,
        0x2703e02281cad04b720ecd62f705bc4b84bb7b6c458ae1d1ddb5bb2169b55e64int,
        0x2a4f7101135d80e18b843ee25dd90d4b6e9996119d4adcdd5c736458f3bf8effint,
        0x25987ed4786393f0659c0cfd18a8ef46465d99a2ee308138414433a856a3e70fint,
    );
    assert(xi_power_is(0x810b7bdd032f006f40d60f3c0403964eenat, 0x2d18bd944f9eef939edad4371aae075dada34fec10b1cf81bd62e2df4e72ccacint, 0x1accaf360f9587b712e7d443afd0862ef539c8b473ef37e34667db39d4cad0d7int));
    lemma_xi_square(
        0x810b7bdd032f006f40d60f3c0403964eenat,
        0x2d18bd944f9eef939edad4371aae075dada34fec10b1cf81bd62e2df4e72ccacint,
        0x1accaf360f9587b712e7d443afd0862ef539c8b473ef37e34667db39d4cad0d7int,
        0x18f06f17ca62c2fd87af8062dc4a1da0f6bb98dbcffac62f8a7f076d5cbda42cint,
        0x2f83ac44023c9e6ea9bc1f7afbc3664c51476ece2f054800c02c2e6ffa8e268aint,
        0x1bcbcdf42f8b50ef49062b8314ba614a35a5c0d0c5d061592313561f115e9c2bint,
    );
    assert(xi_power_is(0x10216f7ba065e00de81ac1e7808072c9dcnat, 0x19d11146a957c4b89643a69e62080fb23cf5949f096748bc067365143aac7ae9int, 0x7334d757de501b4d9bc114fa7f36a36d3ca1710232ef8250a0620274a403b0fint));
    lemma_xi_next(0x10216f7ba065e00de81ac1e7808072c9dcnat, 0x19d11146a957c4b89643a69e62080fb23cf5949f096748bc067365143aac7ae9int, 0x7334d757de501b4d9bc114fa7f36a36d3ca1710232ef8250a0620274a403b0fint);
    assert(xi_power_is(0x10216f7ba065e00de81ac1e7808072c9ddnat, 0x1f95143af16a68218d63b367c44fc196f2d278418fab6c423f863d3363dc2206int, 0x2a3a7bf5353333ea858ffcb4c8157342178ef99edd9c377c2489fa5efe719129int));
    lemma_xi_square(
        0x10216f7ba065e00de81ac1e7808072c9ddnat,
        0x1f95143af16a68218d63b367c44fc196f2d278418fab6c423f863d3363dc2206int,
        0x2a3a7bf5353333ea858ffcb4c8157342178ef99edd9c377c2489fa5efe719129int,
        0x8b90ecffdd623a0ba05ba00209e6b09776b21e1df997ab72a65d7b6bd4a1abcint,
        0x2a1a70b378d52c357092074d0e0cf3b38c21b4493b263e0d4fdc70add8c55aacint,
        0x1c75f100898a683490e6d1499285d033b436e944b4260c6ac057f37c73e86030int,
    );
    assert(xi_power_is(0x2042def740cbc01bd03583cf0100e593banat, 0xf02ec8f6632979501c3f8699412cfb382cad82a0ce5073716a9f31fbd01bd57int, 0x887938e31e3303f697d5cdca38a4809d0ec67f7ffda4e48448f5ae20f53c319int));
    lemma_xi_square(
        0x2042def740cbc01bd03583cf0100e593banat,
        0xf02ec8f6632979501c3f8699412cfb382cad82a0ce5073716a9f31fbd01bd57int,
        0x887938e31e3303f697d5cdca38a4809d0ec67f7ffda4e48448f5ae20f53c319int,
        0xbf8b0e4894ed42aff91bda6217519cca3a5af9942373caeba36c4e675fad108int,
        0xacee1d981b1facb71c3f0153335cfe9882a9995a6d78eb66111f5e90e097dd4int,
        0x1db7ee34ab1392274b7d201113597d11feb2cf259717ab13208d898b915c3a88int,
    );
    assert(xi_power_is(0x4085bdee81978037a06b079e0201cb2774nat, 0x129cf0b079cd95f8dcdcd90ee3f49e31b7b16039b5fadf85924cefd67f15334int, 0xb0b8df674f58424dea9fa6ba531a1c665e433b9c5bd8b9904fa87004a3b77c9int));
    lemma_xi_square(
        0x4085bdee81978037a06b079e0201cb2774nat,
        0x129cf0b079cd95f8dcdcd90ee3f49e31b7b16039b5fadf85924cefd67f15334int,
        0xb0b8df674f58424dea9fa6ba531a1c665e433b9c5bd8b9904fa87004a3b77c9int,
        0x29149bf6ffcc15cb9b7e15e2424dee7ffb5c40e3054b14cd5d998ea5dfac29a6int,
        0x28770e34822e17f24be2f93ef60adc5754ca42f7c72a772d1453db67306a86f8int,
        0x13064482898ddf31c7b0c9f1963e93395a4f6bb3b006f8f27af61f9d914babbfint,
    );
    assert(xi_power_is(0x810b7bdd032f006f40d60f3c0403964ee8nat, 0x9d8dc27d9dfdd94f9b1ca34c431228a691fdeb3e209da04945b33eaf41a2aeint, 0x260c8905131bbe638f6193e32c7d2672b49ed767600df1e4f5ec3f3b2297577eint));
    lemma_xi_next(0x810b7bdd032f006f40d60f3c0403964ee8nat, 0x9d8dc27d9dfdd94f9b1ca34c431228a691fdeb3e209da04945b33eaf41a2aeint, 0x260c8905131bbe638f6193e32c7d2672b49ed767600df1e4f5ec3f3b2297577eint);
    assert(xi_power_is(0x810b7bdd032f006f40d60f3c0403964ee9nat, 0xfe1c14438a3ce69f562b391035fd558be04806f3789634ad9a79a0fdf345de7int, 0x45039cc013c4e354fd767a2522001a1db9da693c38194d049b017b2fb28c92bint));
    lemma_xi_square(
        0x810b7bdd032f006f40d60f3c0403964ee9nat,
        0xfe1c14438a3ce69f562b391035fd558be04806f3789634ad9a79a0fdf345de7int,
        0x45039cc013c4e354fd767a2522001a1db9da693c38194d049b017b2fb28c92bint,
        0x2ebf5b1110180537e4f0a27e4c0ba6ee3864fb891ca85c61d130daa672e6b5dfint,
        0x26c0d4e7c0512bc9bf08f27b8d3e8b87c40a505407929ace4e541418b06b80c4int,
        0x53bda2cf0bb644fbf444977cced1d00987de1827affcbe9d259e92f040080bdint,
    );
    assert(xi_power_is(0x10216f7ba065e00de81ac1e7808072c9dd2nat, 0x7fe86294fc6d96e25e7b002becd1b66745aab351515c19382dcc68dc27b351bint, 0xa77b459e176c89f7e8892ef99da3a0130fbc304f5ff97d3a4b3d25e0801017aint));
    lemma_xi_square(
        0x10216f7ba065e00de81ac1e7808072c9dd2nat,
        0x7fe86294fc6d96e25e7b002becd1b66745aab351515c19382dcc68dc27b351bint,
        0xa77b459e176c89f7e8892ef99da3a0130fbc304f5ff97d3a4b3d25e0801017aint,
        0x9658c54373fe47db538a1eee98e1f8ad0fcb6f52fa5d329d9a51936d0835f46int,
        0xa9ea5c2dad2f39aee8db49b137ca8d186cf2a669ee224efa734a20dc56d6d4aint,
        0x201b805c0b8173b705102f5a14e7b192032581b0720707e103c0a65dc8f69beaint,
    );
    assert(xi_power_is(0x2042def740cbc01bd03583cf0100e593ba4nat, 0x2f2b35043d9e910c7efb330a5792cf16e1aef71ff93578c76e91033fe392ef43int, 0xfd2b24535d1474451d018fda84e0ac66ec998cf7b9c4534cb60c0a4b9703a8dint));
    lemma_xi_next(0x2042def740cbc01bd03583cf0100e593ba4nat, 0x2f2b35043d9e910c7efb330a5792cf16e1aef71ff93578c76e91033fe392ef43int, 0xfd2b24535d1474451d018fda84e0ac66ec998cf7b9c4534cb60c0a4b9703a8dint);
    assert(xi_power_is(0x2042def740cbc01bd03583cf0100e593ba5nat, 0x158fb749eb34d0de628284ab5fd07a1ac451c2c503b6a56436b3fbe382d24496int, 0x2c668e1a7e6531f6365b42d1bdcd26f8004116b7185e87fae09624c5df0e0663int));
    lemma_xi_square(
        0x2042def740cbc01bd03583cf0100e593ba5nat,
        0x158fb749eb34d0de628284ab5fd07a1ac451c2c503b6a56436b3fbe382d24496int,
        0x2c668e1a7e6531f6365b42d1bdcd26f8004116b7185e87fae09624c5df0e0663int,
        0x75168b7aac4d2d422eb4e3d5a053a89a3b2ee784d5100093933fba5bb2fa65aint,
        0x27d043c662e9c3d881cb3611b7fcd3f0b5ca59a8c780aee331b245dcf261b1f1int,
        0x1320a7edbe4c055f1e4c250d11fa78b98cd8a87de26db0931925cb45465735f9int,
    );
    assert(xi_power_is(0x4085bdee81978037a06b079e0201cb2774anat, 0xfe57364290caf2559705de22389bef68569ff60ee421bb343a241dfa14af1b0int, 0x26414fdb7c980abe3c984a1a23f4f17319b150fbc4db6126324b968a8cae6bf2int));
    lemma_xi_square(
        0x4085bdee81978037a06b079e0201cb2774anat,
        0xfe57364290caf2559705de22389bef68569ff60ee421bb343a241dfa14af1b0int,
        0x26414fdb7c980abe3c984a1a23f4f17319b150fbc4db6126324b968a8cae6bf2int,
        0xbeabf7a146c8fc4fa2034da2bfa6ba24232fbd1d631e04ca77eef7fb7e6f9e3int,
        0x81b955a38840338c4f363a73c182477752c9d2ff6756aee7b71132bd3d5af94int,
        0x2a2a2a1e2f0b923ced519e52b2b81f82aca12f1cbde8be456796315bc448ae72int,
    );
    assert(xi_power_is(0x810b7bdd032f006f40d60f3c0403964ee94nat, 0x3cf2a1fdbe88c8c352cd132efe2472acd065ea1dfbc755e2c0ddc53e4114a4fint, 0x23f005c97ce584502252f6eee3eee6a7c1c0f3a8135fb1fd930bd6a0b0145f9dint));
    lemma_xi_next(0x810b7bdd032f006f40d60f3c0403964ee94nat, 0x3cf2a1fdbe88c8c352cd132efe2472acd065ea1dfbc755e2c0ddc53e4114a4fint, 0x23f005c97ce584502252f6eee3eee6a7c1c0f3a8135fb1fd930bd6a0b0145f9dint);
    assert(xi_power_is(0x810b7bdd032f006f40d60f3c0403964ee95nat, 0x2ebcc3c81f790cc77490a9920c86f2370af9ca9a32b238df359174692d043a71int, 0x24e58783f8d072631835dd51ea4050df0fc670221b6ef7f8eeb51f7101dab72aint));
    lemma_xi_square(
        0x810b7bdd032f006f40d60f3c0403964ee95nat,
        0x2ebcc3c81f790cc77490a9920c86f2370af9ca9a32b238df359174692d043a71int,
        0x24e58783f8d072631835dd51ea4050df0fc670221b6ef7f8eeb51f7101dab72aint,
        0x1f3c71a3b40fb60744f272c4db67655f543c4c3cbb91a3031ff068fd79cd6806int,
        0x1f82b9230acbaaada549f17166f18ca5da1a7c6f7f2fed91bfc0edc62b222c6int,
        0x24e02e0a576e8523c1696c25bbee868964b687732e489abb8d6ce2b256399538int,
    );
    assert(xi_power_is(0x10216f7ba065e00de81ac1e7808072c9dd2anat, 0x1d4446118362fb5c6a9dd3adc4f84c94f69aa475c39ea42a03f45a21171b4540int, 0x195c0da1cdab6a1dca829294f65bb4b531eba454f41f6ae9deb9394dd3f62d29int));
    lemma_xi_next(0x10216f7ba065e00de81ac1e7808072c9dd2anat, 0x1d4446118362fb5c6a9dd3adc4f84c94f69aa475c39ea42a03f45a21171b4540int, 0x195c0da1cdab6a1dca829294f65bb4b531eba454f41f6ae9deb9394dd3f62d29int);
    assert(xi_power_is(0x10216f7ba065e00de81ac1e7808072c9dd2bnat, 0x2c792f304c08eb7b13c8c7acf0599b111b7e79894aad305b545bc1809a0b4cfbint, 0xf8b388358719597efa39e59e6aaed1fc25c569b4e8071a0abd4a16b5051e94eint));
    lemma_xi_square(
        0x10216f7ba065e00de81ac1e7808072c9dd2bnat,
        0x2c792f304c08eb7b13c8c7acf0599b111b7e79894aad305b545bc1809a0b4cfbint,
        0xf8b388358719597efa39e59e6aaed1fc25c569b4e8071a0abd4a16b5051e94eint,
        0x266e1cdb882841479cce2a280c0ded50175732b30637e7d7e66880c92d098156int,
        0x1b9113ad231b1efba51b08a3841019ea3a53f3d26fa701765c4655ba2230098bint,
        0x224c5a29f439af68d881441d6b2f0a211fd9f3a20443a2698416c8aca9559148int,
    );
    assert(xi_power_is(0x2042def740cbc01bd03583cf0100e593ba56nat, 0xadd092e650d224bf7b3218487fdd365dd033ee09690e6618a222b0f0ad977cbint, 0x143465e10741bea7f8b2428454dcbbe4a8327cb2a0157a45cc0d05427a2e2549int));
    lemma_xi_square(
        0x2042def740cbc01bd03583cf0100e593ba56nat,
        0xadd092e650d224bf7b3218487fdd365dd033ee09690e6618a222b0f0ad977cbint,
        0x143465e10741bea7f8b2428454dcbbe4a8327cb2a0157a45cc0d05427a2e2549int,
        0xa286c798aba2da4582db7f7a010f48d2e52ecbb95075af62ff6be1edb24ac05int,
        0x253f7c842ab734457b6414111e269c43b0f44c2b67d221c0774bef0c515ba08aint,
        0xb681a45674793db25b6629bd74fcbd1a89a03245c461103a2414f5c33e1766eint,
    );
    assert(xi_power_is(0x4085bdee81978037a06b079e0201cb2774acnat, 0x154d3e68413499889519e99d036bb0a714e00b2195a703c2f4cb5b29624608c2int, 0x16d0348ace8f27b64b6cc537ae9f97a351340648b88c220744829eb867c2ecdcint));
    lemma_xi_square(
        0x4085bdee81978037a06b079e0201cb2774acnat,
        0x154d3e68413499889519e99d036bb0a714e00b2195a703c2f4cb5b29624608c2int,
        0x16d0348ace8f27b64b6cc537ae9f97a351340648b88c220744829eb867c2ecdcint,
        0x24a116b1e44fc162f9b9e16c81cb71ef6958893ac5c46146e22816defb783ee9int,
        0x2fe7a0afc769b7258497554ed86e769335faeb417bcfb26f1d96ee38217983dbint,
        0x300e2f574971c7488cd1ede11b01936efba8ecf477d285a717cde8be2941dbdint,
    );
    assert(xi_power_is(0x810b7bdd032f006f40d60f3c0403964ee958nat, 0x251dc474fe17aa672d72d1d42ade53b9cadf088ab266796500b1b4bdb27bb855int, 0x601c5eae92e38e9119a3dbc2360326ddf751d9e8efa50b4e2f9bd17c5283b7aint));
    lemma_xi_next(0x810b7bdd032f006f40d60f3c0403964ee958nat, 0x251dc474fe17aa672d72d1d42ade53b9cadf088ab266796500b1b4bdb27bb855int, 0x601c5eae92e38e9119a3dbc2360326ddf751d9e8efa50b4e2f9bd17c5283b7aint);
    assert(xi_power_is(0x810b7bdd032f006f40d60f3c0403964ee959nat, 0x25b04b80be7d03bd358d80725568ace8b559afd943f53488ba82550a6e434fd9int, 0x2ac96b444f860a6f138eb7bae7bec1390e7ba88c50c18533bf58ce7cc868d258int));
    lemma_xi_square(
        0x810b7bdd032f006f40d60f3c0403964ee959nat,
        0x25b04b80be7d03bd358d80725568ace8b559afd943f53488ba82550a6e434fd9int,
        0x2ac96b444f860a6f138eb7bae7bec1390e7ba88c50c18533bf58ce7cc868d258int,
        0x21f448e550e18b83926b68424070e3276bcbae06e9cd85bc63f02f362095d3d5int,
        0x265b5ec0c45a14cef92289531f863fd3d91d2a919e09658c0efec423713646f5int,
        0x21810deb6ece53aea75e7923be75e30cca6e148a0b30e106a93e2c545dc2f5ccint,
    );
    assert(xi_power_is(0x10216f7ba065e00de81ac1e7808072c9dd2b2nat, 0x2bfd38976db916de519924a5a26bfbb12a2fee06b435eabd9111f72987dc8a27int, 0x129dcd63fc6b0733966cac90fb6a6dbbfd5abe82adeff780165bcc91e308ee51int));
    lemma_xi_square(
        0x10216f7ba065e00de81ac1e7808072c9dd2b2nat,
        0x2bfd38976db916de519924a5a26bfbb12a2fee06b435eabd9111f72987dc8a27int,
        0x129dcd63fc6b0733966cac90fb6a6dbbfd5abe82adeff780165bcc91e308ee51int,
        0x151c791a3f85d0f5de6827c92ffbfbb1f84c9ed1aaeedcccc77a270300f05e03int,
        0x2e04afee5e6bc7af9e6ec6cadc9767c788407602b4d6c37a5ec70518fe5d896fint,
        0x2b4c6ff9c57aa6bb81e4add78196dadf92de7399b87106b0a65006f1273767aeint,
    );
    assert(xi_power_is(0x2042def740cbc01bd03583cf0100e593ba564nat, 0x177c179ec24ba96ff849a6b4d4e5ec48078d93605e89e3dfa4d3ae00db0fd1dbint, 0x26349180a9c3ad4d4b7915f881ac5d618e3b7ca2087042d4107f81cb75f1d215int));
    lemma_xi_square(
        0x2042def740cbc01bd03583cf0100e593ba564nat,
        0x177c179ec24ba96ff849a6b4d4e5ec48078d93605e89e3dfa4d3ae00db0fd1dbint,
        0x26349180a9c3ad4d4b7915f881ac5d618e3b7ca2087042d4107f81cb75f1d215int,
        0x1e9c10dde7ecf9cdb1b9a21e42c2bd99cc7d5390a284311d2ff3a98f647d5543int,
        0x15d3cf498c510d4dbd1bb644afca48d7dfb776c0f1759e5dc893cec60f31b756int,
        0x2f0bcf7973482fd24d0dd6593e8d091d1f06c5edbae9e0369c8a6b95ec3dc45int,
    );
    assert(xi_power_is(0x4085bdee81978037a06b079e0201cb2774ac8nat, 0x8c841945b9bec7ff49debd992f874c1ecc5dccfb10e92bf675fdac9554b9dedint, 0x5e179ef2e6905fa49a1bacb27d1a123a3e0d8bdb75d3c06d3914d72bd87b88aint));
    lemma_xi_square(
        0x4085bdee81978037a06b079e0201cb2774ac8nat,
        0x8c841945b9bec7ff49debd992f874c1ecc5dccfb10e92bf675fdac9554b9dedint,
        0x5e179ef2e6905fa49a1bacb27d1a123a3e0d8bdb75d3c06d3914d72bd87b88aint,
        0x37084849dd43aa63dc0c8b1769c5891041144980edb5bdf5659e33bc41119c4int,
        0x296f6c8505244046e9cfc81da375c49add8288b57c45e1901d7081eaca6dfc05int,
        0x47418fdcf226ab70bf0cac3179c4bd7a82a9d17822bace37659bdbb2e119a8bint,
    );
    assert(xi_power_is(0x810b7bdd032f006f40d60f3c0403964ee9590nat, 0xa65667279e19a890c41464a54a7ec53be102673fb0744dc7509ed67d2201b06int, 0x8e831fb9e44d56e17e195862f3897af50553a2f045759c6ecb37b765c233516int));
    lemma_xi_next(0x810b7bdd032f006f40d60f3c0403964ee9590nat, 0xa65667279e19a890c41464a54a7ec53be102673fb0744dc7509ed67d2201b06int, 0x8e831fb9e44d56e17e195862f3897af50553a2f045759c6ecb37b765c233516int);
    assert(xi_power_is(0x810b7bdd032f006f40d60f3c0403964ee9591nat, 0x24441997c977f9399e199d60492d5ee4c6bab5536678476bf48551192e80c0d9int, 0x2a2ad9d8291b7b3e2adf424b7c23e91ff98dc789b9a7a24d8b38b87a36dffb85int));
    lemma_xi_square(
        0x810b7bdd032f006f40d60f3c0403964ee9591nat,
        0x24441997c977f9399e199d60492d5ee4c6bab5536678476bf48551192e80c0d9int,
        0x2a2ad9d8291b7b3e2adf424b7c23e91ff98dc789b9a7a24d8b38b87a36dffb85int,
        0x1c516f56c2f67e1ab05072190e56cdb3bc6eeab3dcea7c961b9ef11a21f1c693int,
        0xdc0ca30e1b6612c8b0968d24f068b442e5ea2332ff1825f16594ddf56767c9cint,
        0x195369c516c272ecb21f9a720fd8d928e21f8c29dd25b1787b5559bf87fd64e1int,
    );
    assert(xi_power_is(0x10216f7ba065e00de81ac1e7808072c9dd2b22nat, 0xe90a525e1401cee25470946bf50426f8e104880acf8fa370545a33acb7b49f7int, 0x24285174c5345afabeeef2d9e3059f42cbdadc251d99863ba8a2768377dcc7bint));
    lemma_xi_next(0x10216f7ba065e00de81ac1e7808072c9dd2b22nat, 0xe90a525e1401cee25470946bf50426f8e104880acf8fa370545a33acb7b49f7int, 0x24285174c5345afabeeef2d9e3059f42cbdadc251d99863ba8a2768377dcc7bint);
    assert(xi_power_is(0x10216f7ba065e00de81ac1e7808072c9dd2b23nat, 0x200aac57dc8a7e5c32efd8e2189f4b3ca2d209a0f2039e70fca77d7b3eddd2a6int, 0x22e752f7902d901b30ad71e14f036c0520bb64558d9f55b8942105e4bee77a4aint));
    lemma_xi_square(
        0x10216f7ba065e00de81ac1e7808072c9dd2b23nat,
        0x200aac57dc8a7e5c32efd8e2189f4b3ca2d209a0f2039e70fca77d7b3eddd2a6int,
        0x22e752f7902d901b30ad71e14f036c0520bb64558d9f55b8942105e4bee77a4aint,
        0xbe570217099dbf7ffa0efff37b1e6b6bba01d9b27d3a95a3241ba7dd64b87ecint,
        0x2677e4719bdf237cbd8841eaa71af1d0ed633297bfb21759d10ccf96ef3ccc93int,
        0x2deb34bae1e3a5a88201561b073d8b757842d05944888ec367e3b1c3252ef667int,
    );
    assert(xi_power_is(0x2042def740cbc01bd03583cf0100e593ba5646nat, 0x15d1da22b5ec58a4fa68f3cb12184d4365be5594d0935c8d9d5576fdbf8bb8a0int, 0x2b721b02e295ab274bb2667f8cf9be8d59043621209f52f993a6d76f71e0ef87int));
    lemma_xi_next(0x2042def740cbc01bd03583cf0100e593ba5646nat, 0x15d1da22b5ec58a4fa68f3cb12184d4365be5594d0935c8d9d5576fdbf8bb8a0int, 0x2b721b02e295ab274bb2667f8cf9be8d59043621209f52f993a6d76f71e0ef87int);
    assert(xi_power_is(0x2042def740cbc01bd03583cf0100e593ba5647nat, 0x7c1a4dcdf249228590d5a80915cefb874288c65fb398e593ff8b337c0919644int, 0x19b259a5a3a25bb8e12c6092fad53d4ecad8e833b29ef2e9ed2ea931fc8c3a27int));
    lemma_xi_square(
        0x2042def740cbc01bd03583cf0100e593ba5647nat,
        0x7c1a4dcdf249228590d5a80915cefb874288c65fb398e593ff8b337c0919644int,
        0x19b259a5a3a25bb8e12c6092fad53d4ecad8e833b29ef2e9ed2ea931fc8c3a27int,
        0x27241edf1036f95abb625c6654e2624a62ccad0995ff557d6fb31372696326beint,
        0x1fe96fa1e2a96cbb01e1cfdb3b47ac0d20d32822a22d7abec8e95f6f7caf2c7aint,
        0xefca81a0ee17a32cf978645513f6d84bb643c03d79ceeeb09ddb1384017ee58int,
    );
    assert(xi_power_is(0x4085bdee81978037a06b079e0201cb2774ac8enat, 0x73aaf3d2d8d8c9fb9808c8b199ab63d41f984e6f3d1dabea6c9b402ecb3fa44int, 0x1df950341dc2f4659f2f0c8aa27edb0976c87807af39ddd613bb6270802fdcb0int));
    lemma_xi_square(
        0x4085bdee81978037a06b079e0201cb2774ac8enat,
        0x73aaf3d2d8d8c9fb9808c8b199ab63d41f984e6f3d1dabea6c9b402ecb3fa44int,
        0x1df950341dc2f4659f2f0c8aa27edb0976c87807af39ddd613bb6270802fdcb0int,
        0x2dae537159e2f41d659a059afefc6697a6fefa7f3ba239efa2face655bef6ff8int,
        0x8a901ec582eb6dbc242d1181950dc168cc8761188e7f37ee4cbea7534962698int,
        0x2112fed11f5915358173671e66b29f6eefff0f6107972910aa50187bf30e48a5int,
    );
    assert(xi_power_is(0x810b7bdd032f006f40d60f3c0403964ee9591cnat, 0x2505518501b43d41a3573482e5ab8a811a36846db2ba4670be2ee3f027594960int, 0x11c1af2f5d808a414a9688864be3e680487cb430a6bc8794187fa4e10d9f9403int));
    lemma_xi_square(
        0x810b7bdd032f006f40d60f3c0403964ee9591cnat,
        0x2505518501b43d41a3573482e5ab8a811a36846db2ba4670be2ee3f027594960int,
        0x11c1af2f5d808a414a9688864be3e680487cb430a6bc8794187fa4e10d9f9403int,
        0x119ea5651e4c449d17139e6d4c543a86bc97ebcea65c1c6b0ed5261089ba9b1int,
        0x81b97f04b605b1bd50c50ec1aac9516ca873053baa5f5140f8fe4b7e28cc296int,
        0x2e034583a8cb6f7195b29c4f10c2abd89bee421e89c37898d6c4d071cf8dbb2dint,
    );
    assert(xi_power_is(0x10216f7ba065e00de81ac1e7808072c9dd2b238nat, 0x2962a0d8e7b60957b4b52eb13b9a06ef38c3b8fa9831973fdd7df9bffe8be462int, 0x2ba23c9470653eb97314f2e7a003ff53a05b19abab1526a4716914ccc69e7913int));
    lemma_xi_square(
        0x10216f7ba065e00de81ac1e7808072c9dd2b238nat,
        0x2962a0d8e7b60957b4b52eb13b9a06ef38c3b8fa9831973fdd7df9bffe8be462int,
        0x2ba23c9470653eb97314f2e7a003ff53a05b19abab1526a4716914ccc69e7913int,
        0x1c4a24eab2b7b29c12177b08641deabfae024d1becd5aa648295bf4a9ee154aeint,
        0x1106bf085d39125aef9ad8ed1027e59279cbd59bec4414f3e7c42eef8b3a26aaint,
        0xd4a079a7adddfa924b7463229aef5c9586c88d42e79a8c3019f62d0e6e17b14int,
    );
    assert(xi_power_is(0x2042def740cbc01bd03583cf0100e593ba56470nat, 0xb4365e2557ea041227ca21b53f6052d34367780009195709ad1905b13a72e04int, 0x1a940f34f5bbbf52496e8c64535deb92b0d911a85cf35186033ec5a1cdc2f628int));
    lemma_xi_square(
        0x2042def740cbc01bd03583cf0100e593ba56470nat,
        0xb4365e2557ea041227ca21b53f6052d34367780009195709ad1905b13a72e04int,
        0x1a940f34f5bbbf52496e8c64535deb92b0d911a85cf35186033ec5a1cdc2f628int,
        0x44c6a5b41085d8c54ecb1d409d36b190e4e3b0885b3d92bcf6d5a101ad3d092int,
        0xa81e74cef8b308f55b8c901b4999b02c886c1928fc26c7887853786c646c41dint,
        0x169e06fdf3017759de958a78ff075e3f7a5267abfecea70e1ba8f804bffd0e37int,
    );
    assert(xi_power_is(0x4085bdee81978037a06b079e0201cb2774ac8e0nat, 0x2a2ed18132aecd26b7842e88d6bb2873dd48e4075e6337408408aea02d0a09bcint, 0x2d3c0dfbe602eeb3bd2b14f1fe0ebc7ef4a4cf57fd9d4e1c3751f0097ffa1c6eint));
    lemma_xi_next(0x4085bdee81978037a06b079e0201cb2774ac8e0nat, 0x2a2ed18132aecd26b7842e88d6bb2873dd48e4075e6337408408aea02d0a09bcint, 0x2d3c0dfbe602eeb3bd2b14f1fe0ebc7ef4a4cf57fd9d4e1c3751f0097ffa1c6eint);
    assert(xi_power_is(0x4085bdee81978037a06b079e0201cb2774ac8e1nat, 0x2c0f78dd9af886ae6498eb96857d9d6245e2b581e134e3d90438eb0f02724b84int, 0xdc48d525e0a9000e33577a037b3ada023876f029cead74758c532281070221bint));
    lemma_xi_square(
        0x4085bdee81978037a06b079e0201cb2774ac8e1nat,
        0x2c0f78dd9af886ae6498eb96857d9d6245e2b581e134e3d90438eb0f02724b84int,
        0xdc48d525e0a9000e33577a037b3ada023876f029cead74758c532281070221bint,
        0x7f6af0f8f9acb0cad4c7052641e2c9cfa4af1fdc743074104bc0d7d657b4becint,
        0x2082dd97d4c93904b01f99601941b74d20dd2508417271d53bc8958e2a169006int,
        0x62d6d50f3a867ae04d2e2ef49b2cbe9f8b413a10af619fbb9f5022fb47e40e5int,
    );
    assert(xi_power_is(0x810b7bdd032f006f40d60f3c0403964ee9591c2nat, 0x17d81fea9c033231b57d1ca8cc5dcdad70ef3786ee425ff90514040613e1b92dint, 0xc5adaa1e750cf5c09a5c5de936597d3f168274215ec33f773ea045f68fc81caint));
    lemma_xi_square(
        0x810b7bdd032f006f40d60f3c0403964ee9591c2nat,
        0x17d81fea9c033231b57d1ca8cc5dcdad70ef3786ee425ff90514040613e1b92dint,
        0xc5adaa1e750cf5c09a5c5de936597d3f168274215ec33f773ea045f68fc81caint,
        0xf1b424a8cff5dc2d99e21b44e4b5bd554df1d9a50d6858d16aedae99fc5466cint,
        0x3e2025f7c5681f0d46cb40e34ecb0f3ade7abea54723f60e86c041bbee6bcb7int,
        0x9a9588a8d077da43fa646d4f5c0747c7158ce9a8ecc492087580e50f828dea0int,
    );
    assert(xi_power_is(0x10216f7ba065e00de81ac1e7808072c9dd2b2384nat, 0xb393feb10a8dbd205316da6195eaae1a6f771affc64462c2e42d6cde0de89b5int, 0x1352b1151a0efb487f4c8da9eb80e8f8e2b19d351d9892410eb01ca1f051bd40int));
    lemma_xi_next(0x10216f7ba065e00de81ac1e7808072c9dd2b2384nat, 0xb393feb10a8dbd205316da6195eaae1a6f771affc64462c2e42d6cde0de89b5int, 0x1352b1151a0efb487f4c8da9eb80e8f8e2b19d351d9892410eb01ca1f051bd40int);
    assert(xi_power_is(0x10216f7ba065e00de81ac1e7808072c9dd2b2385nat, 0x214c3fbb9aaf1eeff72007767751c098647ff769597c1abf5588e4841f041cd6int, 0x27f48e50579ad0e155f1977bdc62d288d8b1b8d9cd6c0acdfe12343aca473920int));
    lemma_xi_square(
        0x10216f7ba065e00de81ac1e7808072c9dd2b2385nat,
        0x214c3fbb9aaf1eeff72007767751c098647ff769597c1abf5588e4841f041cd6int,
        0x27f48e50579ad0e155f1977bdc62d288d8b1b8d9cd6c0acdfe12343aca473920int,
        0x869d4fb75d7c23bcba8d06133eeebd8447b6443e0130d0f1636b2b157cc2850int,
        0x2357fe0fb2a2c496f822da730214000cbfb7a1387e21d872bab96d31220cb277int,
        0x164e00f47ad806e800087c3ea4874699c9729a406bfb4ec9d42004b5fc9bdf1int,
    );
    assert(xi_power_is(0x2042def740cbc01bd03583cf0100e593ba56470anat, 0x1576255ea4669dce8bd63ba4b35c44291c452d9cca62ff29979dd1970e3c7320int, 0x2c9c01e8f5b00dd00010f87d490e8d3392e53480d7f69d93a840096bf937be2int));
    lemma_xi_next(0x2042def740cbc01bd03583cf0100e593ba56470anat, 0x1576255ea4669dce8bd63ba4b35c44291c452d9cca62ff29979dd1970e3c7320int, 0x2c9c01e8f5b00dd00010f87d490e8d3392e53480d7f69d93a840096bf937be2int);
    assert(xi_power_is(0x2042def740cbc01bd03583cf0100e593ba56470bnat, 0x2d30a4dc94abaae8c196381ef5297385febc0786d6a62ef565a6b97437159869int, 0x2e8de671ae99a5938bdfc76b2c7473961ee61b2543ddb7cca641d6e3ca6bce12int));
    lemma_xi_square(
        0x2042def740cbc01bd03583cf0100e593ba56470bnat,
        0x2d30a4dc94abaae8c196381ef5297385febc0786d6a62ef565a6b97437159869int,
        0x2e8de671ae99a5938bdfc76b2c7473961ee61b2543ddb7cca641d6e3ca6bce12int,
        0x1fa60ddaa10ea48871bdb34dedf6922c17f4c1efe5ed208206673c6cec1e91b2int,
        0x1ba30b677eb0039df033876d4433a113be78713cb1e4659eb8ff344af17fef4fint,
        0x2c46bc8482d075f35394527a5841403222bcb70dac7d3cd9c092029a36e1a7c7int,
    );
    assert(xi_power_is(0x4085bdee81978037a06b079e0201cb2774ac8e16nat, 0x4030273225ea0ea818a2be0a9c2f118597c50b33408bae34d680821fa9ea263int, 0x28292a96246f4bbceed85f3e2f012806adf80389f088af264503791d95465247int));
    lemma_xi_next(0x4085bdee81978037a06b079e0201cb2774ac8e16nat, 0x4030273225ea0ea818a2be0a9c2f118597c50b33408bae34d680821fa9ea263int, 0x28292a96246f4bbceed85f3e2f012806adf80389f088af264503791d95465247int);
    assert(xi_power_is(0x4085bdee81978037a06b079e0201cb2774ac8e17nat, 0x2c5639e8f215fcab5753715e4a5aaa320ee83d544c37ad64afc55c2b12ca607bint, 0x1ab75c9641ece96adcf39d12c643eec552aa8692cdba595f15a3758c4eac99f1int));
    lemma_xi_square(
        0x4085bdee81978037a06b079e0201cb2774ac8e17nat,
        0x2c5639e8f215fcab5753715e4a5aaa320ee83d544c37ad64afc55c2b12ca607bint,
        0x1ab75c9641ece96adcf39d12c643eec552aa8692cdba595f15a3758c4eac99f1int,
        0x208900a98bee3ec049a476a17e9c883af7e0ce20074b749811db320bc5155ee8int,
        0x649fc648fde160fbe5328feabd9e1a4d426df4920f6b71d98b8245db143794fint,
        0x263916f2482f8b42eee105af3492971e4adf373b5e281bb309aa7737b07b96a6int,
    );
    assert(xi_power_is(0x810b7bdd032f006f40d60f3c0403964ee9591c2enat, 0x1a3f0444fc1028b08b514da2d2c2a69623b9eed6e654bd7a79230dae13d1e599int, 0x1c0ddf71af2d765c2571c5a7e7a3d5defe3d03e553de6cd8d7346258887a3005int));
}

/// The bits from 160 on of the exponent, from the top.
proof fn lemma_xi_power_5()
    requires
        xi_power_is(
            0x810b7bdd032f006f40d60f3c0403964ee9591c2enat,
            0x1a3f0444fc1028b08b514da2d2c2a69623b9eed6e654bd7a79230dae13d1e599int,
            0x1c0ddf71af2d765c2571c5a7e7a3d5defe3d03e553de6cd8d7346258887a3005int,
        ),
    ensures
        xi_power_is(
            0x810b7bdd032f006f40d60f3c0403964ee9591c2e6bda1c23nat,
            0x2d1cb6a0e67279f18b9161d2e93ece53215c09698c68747df3ef266677ff811fint,
            0x110c19a6fcf51eaf3e2d229bfecdbc12ae9869a9f30355d5bd7509775c396b40int,
        ),
{
    lemma_xi_square(
        0x810b7bdd032f006f40d60f3c0403964ee9591c2enat,
        0x1a3f0444fc1028b08b514da2d2c2a69623b9eed6e654bd7a79230dae13d1e599int,
        0x1c0ddf71af2d765c2571c5a7e7a3d5defe3d03e553de6cd8d7346258887a3005int,
        0x1d526a0c87d6f18d1d5941973a851e08b663d839947986a0ebd6f6c8e5c6a911int,
        0x16c7c529815881beada8408e382ce2154978790064179233aa0cb5c77a4d0834int,
        0xe264921856ba2000d8e8808ddd7764ba7dfa111d5949860b11ab43f7dcd15cbint,
    );
    assert(xi_power_is(0x10216f7ba065e00de81ac1e7808072c9dd2b2385cnat, 0x68aa4e3067e6fce6fb1010902583bf36ceb5f393061f46d41ca41016b79a0ddint, 0x1c4c92430ad744001b1d1011bbaeec974fbf4223ab2930c16235687efb9a2b96int));
    lemma_xi_square(
        0x10216f7ba065e00de81ac1e7808072c9dd2b2385cnat,
        0x68aa4e3067e6fce6fb1010902583bf36ceb5f393061f46d41ca41016b79a0ddint,
        0x1c4c92430ad744001b1d1011bbaeec974fbf4223ab2930c16235687efb9a2b96int,
        0x132a92f95a64332f58fe8a613d6437c358f8ac954d0cef4f539b8e3ecbb810acint,
        0x2fb29b0d330f3dab6114ce40c428de56a3077b9976006503c034ad9750bbec83int,
        0x911620c0b84ec4b862226a117e17d56c3e86e6084b67fbf7b69958dc524849eint,
    );
    assert(xi_power_is(0x2042def740cbc01bd03583cf0100e593ba56470b8nat, 0x13dc465f088695adb03a01d6fabcb1ca4d729b8d3f7e54d8cf876cbe53792170int, 0x1222c4181709d8970c444d422fc2faad87d0dcc1096cff7ef6d32b1b8a49093cint));
    lemma_xi_next(0x2042def740cbc01bd03583cf0100e593ba56470b8nat, 0x13dc465f088695adb03a01d6fabcb1ca4d729b8d3f7e54d8cf876cbe53792170int, 0x1222c4181709d8970c444d422fc2faad87d0dcc1096cff7ef6d32b1b8a49093cint);
    assert(xi_power_is(0x2042def740cbc01bd03583cf0100e593ba56470b9nat, 0xf6ec9e6921c8a06fcd4f2291c5b3c566ab25b81f8ae9c78a08e0350db822bdfint, 0x25e83fdf344a527ff5afe807241378cb4d461ea25afdf0a7c8924c71a6937cb7int));
    lemma_xi_square(
        0x2042def740cbc01bd03583cf0100e593ba56470b9nat,
        0xf6ec9e6921c8a06fcd4f2291c5b3c566ab25b81f8ae9c78a08e0350db822bdfint,
        0x25e83fdf344a527ff5afe807241378cb4d461ea25afdf0a7c8924c71a6937cb7int,
        0x2afea64bcac86c98d6f7e2794babd8948611949896bc4fbf43be7cb1f7d741b1int,
        0x702e556aca27fffc7265f60d038d7326b9dcff591640ba4a446e8c0ee6a81ceint,
        0x1c8c2e1c5fc938888c6cf767c53fd683d0d13282b3be7a6dd292c42cc95b2c1bint,
    );
    assert(xi_power_is(0x4085bdee81978037a06b079e0201cb2774ac8e172nat, 0x23fbc0f51e25ec990fd183187b7301621a73c4a30558441a9f7793f1096cbfe3int, 0x8b40dc5de60d0e76089a91908fe54aa0a20fa73ff0b2a4e6904fc42ba395aefint));
    lemma_xi_next(0x4085bdee81978037a06b079e0201cb2774ac8e172nat, 0x23fbc0f51e25ec990fd183187b7301621a73c4a30558441a9f7793f1096cbfe3int, 0x8b40dc5de60d0e76089a91908fe54aa0a20fa73ff0b2a4e6904fc42ba395aefint);
    assert(xi_power_is(0x4085bdee81978037a06b079e0201cb2774ac8e173nat, 0x18cbe426e9cabf7fdbf2507c4504a59756e86fdebe647b51c96beead87ab7462int, 0x1187a0042d2a04680407e98cc9614aa14699bd942bd92bc1d8635a1be476f7bcint));
    lemma_xi_square(
        0x4085bdee81978037a06b079e0201cb2774ac8e173nat,
        0x18cbe426e9cabf7fdbf2507c4504a59756e86fdebe647b51c96beead87ab7462int,
        0x1187a0042d2a04680407e98cc9614aa14699bd942bd92bc1d8635a1be476f7bcint,
        0x5582e184d68edce5902ffd01fb0332f118b35a650572c93281467ed092046f6int,
        0x2fa6478448aec4e0161b1eadd6c149afe6191b5b8b40be5c83af648e1eb351e9int,
        0xbfdaf4d8c148508ce807f437f833da557143517d3ce85bf42019a01df58e127int,
    );
    assert(xi_power_is(0x810b7bdd032f006f40d60f3c0403964ee9591c2e6nat, 0x6163506e5ebc917fb3826d8ca7041dcc2f384dc2d8838c3e0858f75c2e9f254int, 0x17fb5e9b18290a119d00fe86ff067b4aae286a2fa79d0b7e84033403beb1c24eint));
    lemma_xi_square(
        0x810b7bdd032f006f40d60f3c0403964ee9591c2e6nat,
        0x6163506e5ebc917fb3826d8ca7041dcc2f384dc2d8838c3e0858f75c2e9f254int,
        0x17fb5e9b18290a119d00fe86ff067b4aae286a2fa79d0b7e84033403beb1c24eint,
        0xbf56a0cd98e18367102b9a2a441e6083e762d924fc7f450db71509f69b8c4f8int,
        0xc73a7d5870640b3124877af3ec248c50758d29ee33a6d5808ab1750d6ee516bint,
        0x18116ef9262493830b2f0b4d31acf3953046720083da55afb33f10d52855b392int,
    );
    assert(xi_power_is(0x10216f7ba065e00de81ac1e7808072c9dd2b2385ccnat, 0x2fe610aa33b977ad170a87a9e700f5a0ce9ec584d4ff51860ee6c5656b4770d4int, 0x3022ddf24c492706165e169a6359e72a608ce40107b4ab5f667e21aa50ab6724int));
    lemma_xi_next(0x10216f7ba065e00de81ac1e7808072c9dd2b2385ccnat, 0x2fe610aa33b977ad170a87a9e700f5a0ce9ec584d4ff51860ee6c5656b4770d4int, 0x3022ddf24c492706165e169a6359e72a608ce40107b4ab5f667e21aa50ab6724int);
    assert(xi_power_is(0x10216f7ba065e00de81ac1e7808072c9dd2b2385cdnat, 0x2c3592e55ce0acebaecec661312550edbe7e23b09a28a87a7abafa46896ca35fint, 0x2d991c24f78d356c6586dfacd79dfad3e0060a716e5938e98c310794a4e92999int));
    lemma_xi_square(
        0x10216f7ba065e00de81ac1e7808072c9dd2b2385cdnat,
        0x2c3592e55ce0acebaecec661312550edbe7e23b09a28a87a7abafa46896ca35fint,
        0x2d991c24f78d356c6586dfacd79dfad3e0060a716e5938e98c310794a4e92999int,
        0x2683e1d69ee8f7d53304f2ebff2c559681218156bb0f7a35c2a3f6b951882c32int,
        0x6fcf9afeb01ca4038010ce55002add65fe112e8f7bd2b130ba06a8011b4d934int,
        0x18c4f8d0a311ed4621650a4e51986336084d72ec569f282c82da69afd3c8ec15int,
    );
    assert(xi_power_is(0x2042def740cbc01bd03583cf0100e593ba56470b9anat, 0x1f86e826b3e72d94fb03e606af29a7c021406e6dc3524f22b7038c393fd352feint, 0x125a32e64f23a628a79cee621af6e0e79197b4744cc85cbc9944748cf14dae3int));
    lemma_xi_square(
        0x2042def740cbc01bd03583cf0100e593ba56470b9anat,
        0x1f86e826b3e72d94fb03e606af29a7c021406e6dc3524f22b7038c393fd352feint,
        0x125a32e64f23a628a79cee621af6e0e79197b4744cc85cbc9944748cf14dae3int,
        0x2340c08cd037c1e98f9aa07b7706dc8d75acf0413275c7a132695350b57af5a4int,
        0x2ae460eb75a571277544ceb6d790024c04cc0959ca39530f91f275a05d0227d8int,
        0x1baa6057f2699fa003b325b23160c4396c995a23efb009779d8347f85bc78122int,
    );
    assert(xi_power_is(0x4085bdee81978037a06b079e0201cb2774ac8e1734nat, 0x28c0ae143bc3f0ebd2a6177b20f8329f08625178d0ae3f1edc9769c730f5cb13int, 0x6f0723d03a19f164f1605ade140301541b149b676ee4861fee603d9df1204fdint));
    lemma_xi_next(0x4085bdee81978037a06b079e0201cb2774ac8e1734nat, 0x28c0ae143bc3f0ebd2a6177b20f8329f08625178d0ae3f1edc9769c730f5cb13int, 0x6f0723d03a19f164f1605ade140301541b149b676ee4861fee603d9df1204fdint);
    assert(xi_power_is(0x4085bdee81978037a06b079e0201cb2774ac8e1735nat, 0x15178754ede678100e8ee5a8bcf02cf2e539a98f041565d71d88df86ee2731bdint, 0x66c15539a0f486129cbbf2b093732a3289b13c02e2b35765a6c7442579dfd6aint));
    lemma_xi_square(
        0x4085bdee81978037a06b079e0201cb2774ac8e1735nat,
        0x15178754ede678100e8ee5a8bcf02cf2e539a98f041565d71d88df86ee2731bdint,
        0x66c15539a0f486129cbbf2b093732a3289b13c02e2b35765a6c7442579dfd6aint,
        0x2477cdcb1a496ba0a4fb831de0803b532be4aafdbc0a5d4e57055293058dca40int,
        0x206c107c831559b3705f3c3726b0a3b62c41886f142fb6fa78d30d54cca97a21int,
        0x10644f8bee132ecf8e3119dfac2f66db85aa924260f3cd854ecf0b20caa148caint,
    );
    assert(xi_power_is(0x810b7bdd032f006f40d60f3c0403964ee9591c2e6anat, 0x40bbd4e973411ed349c46e6b9cf979cffa3228ea7daa653de32453e38e4501fint, 0x20c89f17dc265d9f1c6233bf585ecdb70b552484c1e79b0a9d9e164195429194int));
    lemma_xi_next(0x810b7bdd032f006f40d60f3c0403964ee9591c2e6anat, 0x40bbd4e973411ed349c46e6b9cf979cffa3228ea7daa653de32453e38e4501fint, 0x20c89f17dc265d9f1c6233bf585ecdb70b552484c1e79b0a9d9e164195429194int);
    assert(xi_power_is(0x810b7bdd032f006f40d60f3c0403964ee9591c2e6bnat, 0x3a108ab74ae43b7bd1c4a5d2fed86cdf167127f24c83de8322658ee6ac43f83int, 0x8bf7e740d639b8ae22e7659cc1cc0dad898ebd106545a63fffdc503654d7ea9int));
    lemma_xi_square(
        0x810b7bdd032f006f40d60f3c0403964ee9591c2e6bnat,
        0x3a108ab74ae43b7bd1c4a5d2fed86cdf167127f24c83de8322658ee6ac43f83int,
        0x8bf7e740d639b8ae22e7659cc1cc0dad898ebd106545a63fffdc503654d7ea9int,
        0x5705df2aa5b7f39f7a3441fc485605e7d02d67985de5cef11af1998274f7686int,
        0x204f38330a9eef3bd4a49909599bcbae6b16f034d1285f2bd2d7acac1c843e00int,
        0x25e4ee3ba60eac274c2d3fc8f081cbe26ecdd2b76ebf9867a9fd4c5aaa0f6cd5int,
    );
    assert(xi_power_is(0x10216f7ba065e00de81ac1e7808072c9dd2b2385cd6nat, 0x1585743280ee3027db4ef0ccec6aed0da96d50d61d27c8507af7f902e34835cdint, 0x1b658e046aebb824e00a39db5f823f67461a3add750d664217da0c9e7ba1dc63int));
    lemma_xi_next(0x10216f7ba065e00de81ac1e7808072c9dd2b2385cd6nat, 0x1585743280ee3027db4ef0ccec6aed0da96d50d61d27c8507af7f902e34835cdint, 0x1b658e046aebb824e00a39db5f823f67461a3add750d664217da0c9e7ba1dc63int);
    assert(xi_power_is(0x10216f7ba065e00de81ac1e7808072c9dd2b2385cd7nat, 0x151e9c6979df18c4accb6c356bbc0cfae8395cf5580344ea867c1036f8710ffdint, 0x1a21ea1bdd3f88a322199cf2c0786ddb2ad24dc830676be124ffae23018802e5int));
    lemma_xi_square(
        0x10216f7ba065e00de81ac1e7808072c9dd2b2385cd7nat,
        0x151e9c6979df18c4accb6c356bbc0cfae8395cf5580344ea867c1036f8710ffdint,
        0x1a21ea1bdd3f88a322199cf2c0786ddb2ad24dc830676be124ffae23018802e5int,
        0x1623736d6d6db8864f087e6eb53e9567cb327e31b6277dfe6ea31ae519e319c6int,
        0x1d79f110ec7dbab3ea961a510a8a0251d648c2002f589faaee6405ff23596b11int,
        0x1fabf5ab4d4d53b11a5b6569f197607333db8bce5e5f93c4837607ffd03b784cint,
    );
    assert(xi_power_is(0x2042def740cbc01bd03583cf0100e593ba56470b9aenat, 0x290dd0cf62219dfc1cc2a9d42c35eb738c6b26c2ef40a8e0bc5fa0fccf06abfcint, 0xef39ce3b96907387c66851d61ad6888d035ad0b544d5cfbcacb83e8c7f9f351int));
    lemma_xi_next(0x2042def740cbc01bd03583cf0100e593ba56470b9aenat, 0x290dd0cf62219dfc1cc2a9d42c35eb738c6b26c2ef40a8e0bc5fa0fccf06abfcint, 0xef39ce3b96907387c66851d61ad6888d035ad0b544d5cfbcacb83e8c7f9f351int);
    assert(xi_power_is(0x2042def740cbc01bd03583cf0100e593ba56470b9afnat, 0xfca9542916a25807c3f8b5aa1ae73f7fb04c5d539dc090e2fad505a93d72b9aint, 0x1e716978433dfe7b536c86b916ca8f2a17c9fc74aca38e1329259fe74d594200int));
    lemma_xi_square(
        0x2042def740cbc01bd03583cf0100e593ba56470b9afnat,
        0xfca9542916a25807c3f8b5aa1ae73f7fb04c5d539dc090e2fad505a93d72b9aint,
        0x1e716978433dfe7b536c86b916ca8f2a17c9fc74aca38e1329259fe74d594200int,
        0x2e1c31c4d5908de80a2525a0f4aebc66f08f5c3b910b8d7a03d1f465a84c8241int,
        0x1c0285bcf795c3450bc4cade3bb57bc111e452cf35fd32548a782ea7293a5506int,
        0x21b78c69cb4cf4f8167da3c3d94d4e3f093d7bd0010f7e8d0fdf0d2007798018int,
    );
    assert(xi_power_is(0x4085bdee81978037a06b079e0201cb2774ac8e1735enat, 0x1219ac07ddfacaa2fe605ac2b8f940a5deab096c5b0e5b257959c5be7f122d3bint, 0x130aca60b56849c674ab01d1311944207af98d0e99ad328ce39d8e29367602e9int));
    lemma_xi_square(
        0x4085bdee81978037a06b079e0201cb2774ac8e1735enat,
        0x1219ac07ddfacaa2fe605ac2b8f940a5deab096c5b0e5b257959c5be7f122d3bint,
        0x130aca60b56849c674ab01d1311944207af98d0e99ad328ce39d8e29367602e9int,
        0x96518e080c951b329212da3f3fa5f2dc4bba5843c96751f0f9b1b74582e7af3int,
        0x303e70cf99e9c2beb61b7c8f322e629c539677dd1d273d6918c8e977f06b7771int,
        0x29bf68594d645f13dbb77b88c11c16d339afdf76bfe55f7191530b0adbce8acdint,
    );
    assert(xi_power_is(0x810b7bdd032f006f40d60f3c0403964ee9591c2e6bcnat, 0x98af683c8112f1e2b55f6cb434d54ef08a6983887e1024332f2be13404000c9int, 0x231a823fb9971dfdff1eb15b00b6d548dbde545c1758f455e68589fedf201853int));
    lemma_xi_next(0x810b7bdd032f006f40d60f3c0403964ee9591c2e6bcnat, 0x98af683c8112f1e2b55f6cb434d54ef08a6983887e1024332f2be13404000c9int, 0x231a823fb9971dfdff1eb15b00b6d548dbde545c1758f455e68589fedf201853int);
    assert(xi_power_is(0x810b7bdd032f006f40d60f3c0403964ee9591c2e6bdnat, 0x263d9ef6dd1e9e7ce96b613db7fcec0da7b9b0f471e5579a7e298978aa2f177int, 0x231fb41007377c11d18890b740b2c24d366f100ce756d9f8e4e14f800572ec0aint));
    lemma_xi_square(
        0x810b7bdd032f006f40d60f3c0403964ee9591c2e6bdnat,
        0x263d9ef6dd1e9e7ce96b613db7fcec0da7b9b0f471e5579a7e298978aa2f177int,
        0x231fb41007377c11d18890b740b2c24d366f100ce756d9f8e4e14f800572ec0aint,
        0x2d6396f350cd5bd6d98c1329b240ff9d255198acce55e12e4793d1256af1d7dcint,
        0xf1e2a2934142addd38ea43bbec06aec6d25a8d429f442c8f2ba1bf462e0a59int,
        0x280fe02e0f662717e480f6837cf2fe69d5162196709a2c5e60c7de2dfb280b22int,
    );
    assert(xi_power_is(0x10216f7ba065e00de81ac1e7808072c9dd2b2385cd7anat, 0x2c71b450bd8c1928fc5328e5f654f8ee5e7f3e1f8bb69d01b8682f6624c3cd83int, 0x1fbb71e93d9aae0610b1a7507864a47612aad89b78c28e2f856f30451dd318fdint));
    lemma_xi_next(0x10216f7ba065e00de81ac1e7808072c9dd2b2385cd7anat, 0x2c71b450bd8c1928fc5328e5f654f8ee5e7f3e1f8bb69d01b8682f6624c3cd83int, 0x1fbb71e93d9aae0610b1a7507864a47612aad89b78c28e2f856f30451dd318fdint);
    assert(xi_power_is(0x10216f7ba065e00de81ac1e7808072c9dd2b2385cd7bnat, 0x1d85bfc943f6d346c408e0c7a60eb15c1b446c86958c6d035156a5b241a433adint, 0x27aeded2a0d2766540b0687328d6aee379785c2e57e2dd5e008d994b1e41bebeint));
    lemma_xi_square(
        0x10216f7ba065e00de81ac1e7808072c9dd2b2385cd7bnat,
        0x1d85bfc943f6d346c408e0c7a60eb15c1b446c86958c6d035156a5b241a433adint,
        0x27aeded2a0d2766540b0687328d6aee379785c2e57e2dd5e008d994b1e41bebeint,
        0x26ae8e8b284a722ce9ecf37e340eeb8f38cbab43bdb0b0411d3a5a00ba737dd1int,
        0x24a11e6b89f3143bfa5172140ed4e510a58d3cd515e7f20873e61c73808d5b30int,
        0x1c43a944e7d8570020b6ed6ceba59c29810dc87f596ac752f59129ce47ab3b90int,
    );
    assert(xi_power_is(0x2042def740cbc01bd03583cf0100e593ba56470b9af6nat, 0x20d701f9e575df0ef9b816a253a067e933e6e6ea7c8be38a9543d8d39e622a1int, 0x8230416ee7f0dd6891d952355c9dff56a9a266d4a63c418af01c785b6d979d9int));
    lemma_xi_square(
        0x2042def740cbc01bd03583cf0100e593ba56470b9af6nat,
        0x20d701f9e575df0ef9b816a253a067e933e6e6ea7c8be38a9543d8d39e622a1int,
        0x8230416ee7f0dd6891d952355c9dff56a9a266d4a63c418af01c785b6d979d9int,
        0x1275c3980d74f265676583b554c4c855b545c4b49f76eb5744946044aa3fceacint,
        0x138438dab6782567c6106525d80a9b390d41b69d482a4eb5d1c687cc025a80a4int,
        0x23dbe5f3f5c729c406c879a2d014eaa731ec0d015badf95cfafbb48a623c5b34int,
    );
    assert(xi_power_is(0x4085bdee81978037a06b079e0201cb2774ac8e1735ecnat, 0x2f55d930382e6d2759a56445fe3b857a3f8578a8bfbe672eaeee648f80624b4fint, 0x17537d750a5cb35e5540ad8f1ea87cf0cc56af714eea282cb9d6dcfdebfbb921int));
    lemma_xi_next(0x4085bdee81978037a06b079e0201cb2774ac8e1735ecnat, 0x2f55d930382e6d2759a56445fe3b857a3f8578a8bfbe672eaeee648f80624b4fint, 0x17537d750a5cb35e5540ad8f1ea87cf0cc56af714eea282cb9d6dcfdebfbb921int);
    assert(xi_power_is(0x4085bdee81978037a06b079e0201cb2774ac8e1735ednat, 0xf8eb1a5e5b821b60f0dab32c564716eb34f39f22b39240d8b864b56d391026eint, 0xf4fba0f2f789aa7bf5a21bd8aa1301d790a8ecd7bc0dbff0ad96d0a91cadb15int));
    lemma_xi_square(
        0x4085bdee81978037a06b079e0201cb2774ac8e1735ednat,
        0xf8eb1a5e5b821b60f0dab32c564716eb34f39f22b39240d8b864b56d391026eint,
        0xf4fba0f2f789aa7bf5a21bd8aa1301d790a8ecd7bc0dbff0ad96d0a91cadb15int,
        0x7efb33a50ee68f9eeae91110b50592645788a5e19b1fbe3b18fac3f66b83ec8int,
        0x25e1df277f3cd233822a0697ab168903569edcf856b455e9d9158f9a609160a5int,
        0xc89cab0e0231e470d2602c9bcd3de1233815f23ba7be64676ec855803a35b62int,
    );
    assert(xi_power_is(0x810b7bdd032f006f40d60f3c0403964ee9591c2e6bdanat, 0x12722285b2e336f024d4d02fe1bb2880865b17f72b6f7087149aa8bbdea3db6aint, 0x19139561c0463c8e1a4c059379a7bc246702be4774f7cc8cedd90ab00746b6c4int));
    lemma_xi_square(
        0x810b7bdd032f006f40d60f3c0403964ee9591c2e6bdanat,
        0x12722285b2e336f024d4d02fe1bb2880865b17f72b6f7087149aa8bbdea3db6aint,
        0x19139561c0463c8e1a4c059379a7bc246702be4774f7cc8cedd90ab00746b6c4int,
        0x1796f0bc589ccc0235e86f68aca53ca241b951d909c50b53c077c67ef0c6a26int,
        0xa1c0efb28ca47a4ffd9e580a16992e2f9ae10ee02bfeccd313fb1d23e23c92cint,
        0x1873431bba79641ef28478d9795adc2bf929ac16c90b1306a4086510ccdf2151int,
    );
    assert(xi_power_is(0x10216f7ba065e00de81ac1e7808072c9dd2b2385cd7b4nat, 0x27c1ae837df12544dbd4e72c6ae21944c1eeeec0f64e2e7546e856ac89659e41int, 0x8237c493c128142cb8abfc71345ffa5ad1ed9c29a45b800bf03e0ac141455bint));
    lemma_xi_square(
        0x10216f7ba065e00de81ac1e7808072c9dd2b2385cd7b4nat,
        0x27c1ae837df12544dbd4e72c6ae21944c1eeeec0f64e2e7546e856ac89659e41int,
        0x8237c493c128142cb8abfc71345ffa5ad1ed9c29a45b800bf03e0ac141455bint,
        0x1fcaa9c14d3528f14082e366488de0bc0530bff490e8b04746f445ebe36f3ffcint,
        0x3e3b2d076ddd0d8da6175898fa544e52245f5782630406075df0d2791507186int,
        0x1fb9e528a8ca8c4cbcb432fb8fd495979b346592f4719301fdb0764f520d8a54int,
    );
    assert(xi_power_is(0x2042def740cbc01bd03583cf0100e593ba56470b9af68nat, 0x1be6f6f0d657581866216ddcb8e89bd6e2eaca7c6ab86fe6d11538c4521ece76int, 0xf0f7bde7063786fc11820409e27d2d19ee7609480715b76bf406087cb9e1761int));
    lemma_xi_square(
        0x2042def740cbc01bd03583cf0100e593ba56470b9af68nat,
        0x1be6f6f0d657581866216ddcb8e89bd6e2eaca7c6ab86fe6d11538c4521ece76int,
        0xf0f7bde7063786fc11820409e27d2d19ee7609480715b76bf406087cb9e1761int,
        0x20f6a950bb30aac17cd9f45d998b2f4296247a88ba9336c27447053678666ed3int,
        0x219d4708410321e47dfdf10d31860e46eb75b85bbb8c15be23851583b36c3c8aint,
        0xa22f0c76157495c09abda320910990fc0619de47b418cb1d4e15108c20adb24int,
    );
    assert(xi_power_is(0x4085bdee81978037a06b079e0201cb2774ac8e1735ed0nat, 0x2fbdb0bb5b5f2906b72c4906e986795942302cbe6778eb918ce27bc99d772f90int, 0x1445e18ec2ae92b81357b4641221321f80c33bc8f6831963a9c2a2118415b648int));
    lemma_xi_square(
        0x4085bdee81978037a06b079e0201cb2774ac8e1735ed0nat,
        0x2fbdb0bb5b5f2906b72c4906e986795942302cbe6778eb918ce27bc99d772f90int,
        0x1445e18ec2ae92b81357b4641221321f80c33bc8f6831963a9c2a2118415b648int,
        0x2ee00ebbc83303334f8e720a57a6da66a4a0988e53e3093214a2b96b9171b923int,
        0x140b1060f23ea017fa8adabc33b0a81873384617361ffa55714410ee764a78d1int,
        0x2520e69478a4b8f8ca2cecbbe71ba0e79aab038f64a9030002b11746425991cint,
    );
    assert(xi_power_is(0x810b7bdd032f006f40d60f3c0403964ee9591c2e6bda0nat, 0x1ad4fe5ad5f4631b5503974e23f6324e316852771dc30edca35ea87d1b274052int, 0x4a41cd28f14971f19459d977ce3741cf3556071ec952060005622e8c84b3238int));
    lemma_xi_next(0x810b7bdd032f006f40d60f3c0403964ee9591c2e6bda0nat, 0x1ad4fe5ad5f4631b5503974e23f6324e316852771dc30edca35ea87d1b274052int, 0x4a41cd28f14971f19459d977ce3741cf3556071ec952060005622e8c84b3238int);
    assert(xi_power_is(0x810b7bdd032f006f40d60f3c0403964ee9591c2e6bda1nat, 0x2b479a9371bc643002999d4dc0beef2c6b4fdb787d7f3b2ccd7b9921ca221b8eint, 0x1435b34efc7c13098025dbeb0673eef527e74be7068f67af6a4556954d4f0703int));
    lemma_xi_square(
        0x810b7bdd032f006f40d60f3c0403964ee9591c2e6bda1nat,
        0x2b479a9371bc643002999d4dc0beef2c6b4fdb787d7f3b2ccd7b9921ca221b8eint,
        0x1435b34efc7c13098025dbeb0673eef527e74be7068f67af6a4556954d4f0703int,
        0x24734178fc8e66d0fa88b50acffa66bdb91e06702077c08f852032fe48477e4dint,
        0x5512f46c2f612ff0b6d6c9b882fd536b07bf6fed2bf2083f9e673ff312b9007int,
        0x18ed537843406ac3d023d567cfc887438799892738cb701cdc916edbeb11b45int,
    );
    assert(xi_power_is(0x10216f7ba065e00de81ac1e7808072c9dd2b2385cd7b42nat, 0x1f221232399853d1ef1b486f47ca918708a20f714db8a00b8b39beff171bee46int, 0x31daa6f08680d587a047aacf9f910e870f33124e7196e039b922ddb7d62368aint));
    lemma_xi_next(0x10216f7ba065e00de81ac1e7808072c9dd2b2385cd7b42nat, 0x1f221232399853d1ef1b486f47ca918708a20f714db8a00b8b39beff171bee46int, 0x31daa6f08680d587a047aacf9f910e870f33124e7196e039b922ddb7d62368aint);
    assert(xi_power_is(0x10216f7ba065e00de81ac1e7808072c9dd2b2385cd7b43nat, 0x231f711697fac438545fb4ac049f5302e73844ffca2b3da21cd2ccaa18283789int, 0xac8c1a6a40f2bc480f352cd900ad15569ad5f2c052bb39ec73ccf9fa712dbd9int));
    lemma_xi_square(
        0x10216f7ba065e00de81ac1e7808072c9dd2b2385cd7b43nat,
        0x231f711697fac438545fb4ac049f5302e73844ffca2b3da21cd2ccaa18283789int,
        0xac8c1a6a40f2bc480f352cd900ad15569ad5f2c052bb39ec73ccf9fa712dbd9int,
        0x113f84ab9ca2bdf9e1c5aa4ad71c874751a4c2e3446005b53c4c4c64466bbf1dint,
        0x18638abaf45c2f9f3079ab61e081cd55eb787b41bda0f415351e292b6d281779int,
        0x20f4e3824ac09b1c8b772c42b48293a4979cbb115b4c32afdc7cef91dc539950int,
    );
    assert(xi_power_is(0x2042def740cbc01bd03583cf0100e593ba56470b9af686nat, 0x2940486389782e84699c449f781c124efdadb232ef30dc2d434eaf4fb1c0a4ebint, 0x11857891b44f960f5e9e12cee783ceeb97b80b914e269ad27cd9530ce02a3559int));
    lemma_xi_next(0x2042def740cbc01bd03583cf0100e593ba56470b9af686nat, 0x2940486389782e84699c449f781c124efdadb232ef30dc2d434eaf4fb1c0a4ebint, 0x11857891b44f960f5e9e12cee783ceeb97b80b914e269ad27cd9530ce02a3559int);
    assert(xi_power_is(0x2042def740cbc01bd03583cf0100e593ba56470b9af687nat, 0xefeedc9f88eab744dae6ecec6ef6b4c2ed94e3f3f7498e83c0702207430a9f9int, 0x5604bb75b7df467dbe9d70b95b8f720f52070090cc5235eb6706a6831488ff0int));
    lemma_xi_square(
        0x2042def740cbc01bd03583cf0100e593ba56470b9af687nat,
        0xefeedc9f88eab744dae6ecec6ef6b4c2ed94e3f3f7498e83c0702207430a9f9int,
        0x5604bb75b7df467dbe9d70b95b8f720f52070090cc5235eb6706a6831488ff0int,
        0x2dad8796ef58b25a7ffc140b5d63abde1a614bc4063c97cc669b040b23cbb8cdint,
        0x23aeeeb5197e5372e6885c50d6d8c1a141177921cf3def4fb0e4ee3678581ac3int,
        0xf1877195ab6e81ae5dbc3801813f56bfa6a7726bd93e3ed3e32365c6406d31cint,
    );
    assert(xi_power_is(0x4085bdee81978037a06b079e0201cb2774ac8e1735ed0enat, 0x9fe98e1d5da5ee79973b7ba868aea3cd949d2a236fea87cb5b615d4ab739e0aint, 0x1e30ee32b56dd035cbb787003027ead7f4d4ee4d7b27c7da7c646cb8c80da638int));
    lemma_xi_square(
        0x4085bdee81978037a06b079e0201cb2774ac8e1735ed0enat,
        0x9fe98e1d5da5ee79973b7ba868aea3cd949d2a236fea87cb5b615d4ab739e0aint,
        0x1e30ee32b56dd035cbb787003027ead7f4d4ee4d7b27c7da7c646cb8c80da638int,
        0x1145b3a57ad6104d6bf694a5576bb9326e867a22ba9f17fd2c9de7ffe198dcd0int,
        0x2de6151163a4a4adacc69115feb7b9a3ef73733d510ff09cf5df58311154d48aint,
        0x37513537941daca06b8978ac16a031c78310ce5b5dce288b65951cd6d97cac8int,
    );
    assert(xi_power_is(0x810b7bdd032f006f40d60f3c0403964ee9591c2e6bda1cnat, 0x13c3ed06f8630bc977804945da3557ec16947176d200f1ed72df1be5a8c1058dint, 0x6ea26a6f283b5940d712f1582d40638f06219cb6bb9c5116cb2a39adb2f9590int));
    lemma_xi_square(
        0x810b7bdd032f006f40d60f3c0403964ee9591c2e6bda1cnat,
        0x13c3ed06f8630bc977804945da3557ec16947176d200f1ed72df1be5a8c1058dint,
        0x6ea26a6f283b5940d712f1582d40638f06219cb6bb9c5116cb2a39adb2f9590int,
        0x2488bd40bcf84ec46677a1dc86227b1dc110c868ed42b7a4c1217e3eac5af98eint,
        0x288a022dcfb9d63deedefe397a091a20f3434d1e0066c98913dd1762334bf672int,
        0x1c46288e163282d5ea930f009481583696a341f96c57bc41c8f4b797d6bba758int,
    );
    assert(xi_power_is(0x10216f7ba065e00de81ac1e7808072c9dd2b2385cd7b438nat, 0x2c630985ce7018b02fe8e9598d9ab95a654ee5dc554db8a8e964f2f3518c0063int, 0x82802a94b3365821cd5d84aa781580f95c51961703dadf655c8e318d4fa5169int));
    lemma_xi_square(
        0x10216f7ba065e00de81ac1e7808072c9dd2b2385cd7b438nat,
        0x2c630985ce7018b02fe8e9598d9ab95a654ee5dc554db8a8e964f2f3518c0063int,
        0x82802a94b3365821cd5d84aa781580f95c51961703dadf655c8e318d4fa5169int,
        0xefb1a180756697ede0af554b1556f2fa6fa9fd93fa6916e6f74fcbf99abd772int,
        0x13da960b5e186bb1ed42f29e01cac4f88833c7d60bfd6335f798197f87797155int,
        0x1d031755505d0b82734670794ca3861b7a6bdb12f41f531a3d7246dbf260e51fint,
    );
    assert(xi_power_is(0x2042def740cbc01bd03583cf0100e593ba56470b9af6870nat, 0x2b84d27f8a6f9df6a918486d310c0294b64842949c1af8c5b3fd6f56eaaf6364int, 0x9a1e037bf8876db2e3c9b3c17c5b3d95d564b947fccdba73ec401a10c44ccf7int));
    lemma_xi_square(
        0x2042def740cbc01bd03583cf0100e593ba56470b9af6870nat,
        0x2b84d27f8a6f9df6a918486d310c0294b64842949c1af8c5b3fd6f56eaaf6364int,
        0x9a1e037bf8876db2e3c9b3c17c5b3d95d564b947fccdba73ec401a10c44ccf7int,
        0x25223653468f2302d93927ee3edba6928e8f3b40d879f691d7c08c50ed61726aint,
        0x19288d408adec9c3d59ec66bfb701c38e4cacf3aa642ec64ef9e7ef8305d2b7eint,
        0x26b6b6b34ed35c4cf2c3ee726f4b5a5c3e21e24ce5d7f0ba7e929b1f067cf1c4int,
    );
    assert(xi_power_is(0x4085bdee81978037a06b079e0201cb2774ac8e1735ed0e0nat, 0xbf9a912bbb0593f039a6182436b8a59a9c46c0632370a2ce8220d58bd0446ecint, 0x1d091ef3bc7518702d37972e5d155c5ae4c25a08633e16e7c104aa27347ce641int));
    lemma_xi_next(0x4085bdee81978037a06b079e0201cb2774ac8e1735ed0e0nat, 0xbf9a912bbb0593f039a6182436b8a59a9c46c0632370a2ce8220d58bd0446ecint, 0x1d091ef3bc7518702d37972e5d155c5ae4c25a08633e16e7c104aa27347ce641int);
    assert(xi_power_is(0x4085bdee81978037a06b079e0201cb2774ac8e1735ed0e1nat, 0x1e598441fb8c6a9d3ae590af8031286e7ba4079df83f7a1f2c0d41e0982c9ac4int, 0x1f563765f5d6146000fd559301a50fb7bf12817aa52ce39084a94c475af76cd2int));
    lemma_xi_square(
        0x4085bdee81978037a06b079e0201cb2774ac8e1735ed0e1nat,
        0x1e598441fb8c6a9d3ae590af8031286e7ba4079df83f7a1f2c0d41e0982c9ac4int,
        0x1f563765f5d6146000fd559301a50fb7bf12817aa52ce39084a94c475af76cd2int,
        0x298479d5c4e0c201e35f1735c18e16d4fa629daeaa34ea987da4be43e906a7cfint,
        0x1e013ca2afba488c185d15f622104c5269703f5faa4b76b5ceed5ecb0ad5c860int,
        0x21f855ee5971d7cbb053e46e9ec22b59e47e390a3438438fef0b9e6ae9e2ec6cint,
    );
    assert(xi_power_is(0x810b7bdd032f006f40d60f3c0403964ee9591c2e6bda1c2nat, 0xb833d3315267975cb02013f9f7dca8290f25e4effe973e2aeb75f78de30df6fint, 0x138c5d69d1b20f6da8578326bc02fe56317b0782fffebc92a1f6b0befb48db91int));
    lemma_xi_square(
        0x810b7bdd032f006f40d60f3c0403964ee9591c2e6bda1c2nat,
        0xb833d3315267975cb02013f9f7dca8290f25e4effe973e2aeb75f78de30df6fint,
        0x138c5d69d1b20f6da8578326bc02fe56317b0782fffebc92a1f6b0befb48db91int,
        0x180d37f97c70c211b622b6413b4b1af72b35d1bd674b29232b748436df592b31int,
        0x83718b527f7f3a74a6f412cb127c425fe38b2b7c090beda376ddd1a1a9cc4deint,
        0x16f48848ebae65e3dc37721e63ad9ed410090759f23146bc223ced4e92b73e87int,
    );
    assert(xi_power_is(0x10216f7ba065e00de81ac1e7808072c9dd2b2385cd7b4384nat, 0xfd61f445478ce6a6bb375148a2356d12cfd1f05a6ba6a48f406a71cc4bc6653int, 0x2de91091d75ccbc7b86ee43cc75b3da820120eb3e4628d784479da9d256e7d0eint));
    lemma_xi_square(
        0x10216f7ba065e00de81ac1e7808072c9dd2b2385cd7b4384nat,
        0xfd61f445478ce6a6bb375148a2356d12cfd1f05a6ba6a48f406a71cc4bc6653int,
        0x2de91091d75ccbc7b86ee43cc75b3da820120eb3e4628d784479da9d256e7d0eint,
        0xfe1bceda1e09637863812752c28a9acfa566d18526e95c71e3b0f68d7498decint,
        0x1deedba397cadce057eb214eccb6173d4ad01d77ea3c49d27b82284d516546a2int,
        0x16637a49cf17a2f754fdf90c79ad34ec158731d3c14e48a19e2a4ccf208d1a38int,
    );
    assert(xi_power_is(0x2042def740cbc01bd03583cf0100e593ba56470b9af68708nat, 0x22572fbceb475980e69d36dce0f3eacd4707ba31d0a41681ded973325e614491int, 0x2cc6f4939e2f45eea9fbf218f35a69d82b0e63a7829c91433c54999e411a3470int));
    lemma_xi_square(
        0x2042def740cbc01bd03583cf0100e593ba56470b9af68708nat,
        0x22572fbceb475980e69d36dce0f3eacd4707ba31d0a41681ded973325e614491int,
        0x2cc6f4939e2f45eea9fbf218f35a69d82b0e63a7829c91433c54999e411a3470int,
        0x1cc7f88e2aa6881c21d541855918a3bdcc27f15a43b740e05714210bb80d3a04int,
        0x2ea855589cdfd709863bc38658f4980b05b6a815b596447c872a75c5d8968db5int,
        0x27c5a186aeeaefed31675fd9e0c1a661c697fd753f8264d6fae7c3999ca061c7int,
    );
    assert(xi_power_is(0x4085bdee81978037a06b079e0201cb2774ac8e1735ed0e10nat, 0x1e83f1a86ef8513c53e9c3b581a564105df2b3d5f692c6f10c0a375cb7f3a996int, 0x1f26f49a7ca43fb0aa7e79fd4001f465f5ae90591692ff20b9aefb1c60c3c647int));
    lemma_xi_next(0x4085bdee81978037a06b079e0201cb2774ac8e1735ed0e10nat, 0x1e83f1a86ef8513c53e9c3b581a564105df2b3d5f692c6f10c0a375cb7f3a996int, 0x1f26f49a7ca43fb0aa7e79fd4001f465f5ae90591692ff20b9aefb1c60c3c647int);
    assert(xi_power_is(0x4085bdee81978037a06b079e0201cb2774ac8e1735ed0e11nat, 0x1870213041e7a9daf280ad3c747d6596252ad558a5d0a96860a3ab3dc5c3d9cint, 0x1488b4658994cd78007a6b55b8aee974740d478f4f12ffc82a6dc2d30be7b26bint));
    lemma_xi_square(
        0x4085bdee81978037a06b079e0201cb2774ac8e1735ed0e11nat,
        0x1870213041e7a9daf280ad3c747d6596252ad558a5d0a96860a3ab3dc5c3d9cint,
        0x1488b4658994cd78007a6b55b8aee974740d478f4f12ffc82a6dc2d30be7b26bint,
        0x1e84b3fb5bdac02cf13311302033fd0fdc4ef734a79c1308a1d6bb542dc8090aint,
        0x38618530bd0e706d5c305caf7e3bc402e40ce2a11d0bc89a4f10da431508d85int,
        0x222c43f328fd3df450ef6f0bdc70bc1cf8eded80afb35e1ffd0e237031ff0b9int,
    );
    assert(xi_power_is(0x810b7bdd032f006f40d60f3c0403964ee9591c2e6bda1c22nat, 0x1afe9ba85009d9261b700b65285040cfae0e290a95cb567efce5adaffc777b85int, 0x445887e651fa7be8a1dede17b8e17839f1dbdb015f66bc3ffa1c46e063fe172int));
    lemma_xi_next(0x810b7bdd032f006f40d60f3c0403964ee9591c2e6bda1c22nat, 0x1afe9ba85009d9261b700b65285040cfae0e290a95cb567efce5adaffc777b85int, 0x445887e651fa7be8a1dede17b8e17839f1dbdb015f66bc3ffa1c46e063fe172int);
    assert(xi_power_is(0x810b7bdd032f006f40d60f3c0403964ee9591c2e6bda1c23nat, 0x2d1cb6a0e67279f18b9161d2e93ece53215c09698c68747df3ef266677ff811fint, 0x110c19a6fcf51eaf3e2d229bfecdbc12ae9869a9f30355d5bd7509775c396b40int));
}

/// The bits from 192 on of the exponent, from the top.
proof fn lemma_xi_power_6()
    requires
        xi_power_is(
            0x810b7bdd032f006f40d60f3c0403964ee9591c2e6bda1c23nat,
            0x2d1cb6a0e67279f18b9161d2e93ece53215c09698c68747df3ef266677ff811fint,
            0x110c19a6fcf51eaf3e2d229bfecdbc12ae9869a9f30355d5bd7509775c396b40int,
        ),
    ensures
        xi_power_is(
            0x810b7bdd032f006f40d60f3c0403964ee9591c2e6bda1c234b017592nat,
            0x104a248fb9afb7aed22c3b0e0843936a6ceff716604ddfcd7315622e95b97653int,
            0x22d5740cef7792502a8af815122718b755f94d83386b0d61a48ec3ab576d5467int,
        ),
{
    lemma_xi_square(
        0x810b7bdd032f006f40d60f3c0403964ee9591c2e6bda1c23nat,
        0x2d1cb6a0e67279f18b9161d2e93ece53215c09698c68747df3ef266677ff811fint,
        0x110c19a6fcf51eaf3e2d229bfecdbc12ae9869a9f30355d5bd7509775c396b40int,
        0x2329d0ef4df279d647d6def2a289dbc39a1a2c2d3115ce73044521c33e3bd60aint,
        0x3b5a1da8a29d8d28d8f5b220314995a9b614b6665e609253f87417a7bb96de3int,
        0x1b2f947c1a486925825eb1ee9fd39b676665d66922958d8117cb1b64eea4c281int,
    );
    assert(xi_power_is(0x10216f7ba065e00de81ac1e7808072c9dd2b2385cd7b43846nat, 0x1f742f14c3c8a103ba4783d09f754268feb8e0c6cb2fc54dc4bde048c2826827int, 0x5fada85535f32214c6d1e26be25de71354a4240dcb95074f375aab304cc87bbint));
    lemma_xi_square(
        0x10216f7ba065e00de81ac1e7808072c9dd2b2385cd7b43846nat,
        0x1f742f14c3c8a103ba4783d09f754268feb8e0c6cb2fc54dc4bde048c2826827int,
        0x5fada85535f32214c6d1e26be25de71354a4240dcb95074f375aab304cc87bbint,
        0x16caaa3a9facb5c56a97b49ea6533b91f92e05ab0e17dd43035273fdb9267999int,
        0x25151aecd0145ed748fad0c6340b687858e72623181b5c3f4b9744a7722f9a8int,
        0x20c338e31bed93dcfadab2a457d5dc8b476f445c37c614c0d5cafad63afb56d5int,
    );
    assert(xi_power_is(0x2042def740cbc01bd03583cf0100e593ba56470b9af68708cnat, 0x1479588bd2ab6fd7f60807924312850a739f9348dc96277f0e98ffb342037ff1int, 0x1122235356a987903d651f922e2a60b8f75d1e27071a5ef46f7569959d79b063int));
    lemma_xi_next(0x2042def740cbc01bd03583cf0100e593ba56470b9af68708cnat, 0x1479588bd2ab6fd7f60807924312850a739f9348dc96277f0e98ffb342037ff1int, 0x1122235356a987903d651f922e2a60b8f75d1e27071a5ef46f7569959d79b063int);
    assert(xi_power_is(0x2042def740cbc01bd03583cf0100e593ba56470b9af68708dnat, 0x15f50e3e6dc8868a3ff2536ea8f8438c52bacfb480d7a4db5f89ef732b2ed741int, 0x1d7fab213b0c536cf5a552925e0be2725f6162f3e32e1e6f455811b141d3bb97int));
    lemma_xi_square(
        0x2042def740cbc01bd03583cf0100e593ba56470b9af68708dnat,
        0x15f50e3e6dc8868a3ff2536ea8f8438c52bacfb480d7a4db5f89ef732b2ed741int,
        0x1d7fab213b0c536cf5a552925e0be2725f6162f3e32e1e6f455811b141d3bb97int,
        0x26cc974aaffc08ba2ba3d5f55f078dfe058677a31c0d0ec1086a639b18df40c9int,
        0x261ac6c3e15e87f42d551be62ac7cdb4997556cfbfc61c33b669c9a826a89272int,
        0xd0966fd73ae5180f6a1eb54c5f649e94aaf8c48c2d0d8aa0b4c588205649431int,
    );
    assert(xi_power_is(0x4085bdee81978037a06b079e0201cb2774ac8e1735ed0e11anat, 0xb1d086ce9d80c5fe4eba0f343fc0496c1120d35c46f28d520099f2f236ae57int, 0x1a12cdfae75ca301ed43d6a98bec93d2955f189185a1b1541698b1040ac92862int));
    lemma_xi_square(
        0x4085bdee81978037a06b079e0201cb2774ac8e1735ed0e11anat,
        0xb1d086ce9d80c5fe4eba0f343fc0496c1120d35c46f28d520099f2f236ae57int,
        0x1a12cdfae75ca301ed43d6a98bec93d2955f189185a1b1541698b1040ac92862int,
        0x3baab82b3598d58dcb2d5eead1a9152bc5eaac4f99a5d2dfff26b5dcb24acb9int,
        0x1e7eb59ab527389f7b72470cc384ae0b39c146a2f3bd0a60751c232fad2a19cint,
        0x141c8c6ab1b150e981b6c5b9436cd381e0bf7169840c1bc3662d19858fa64701int,
    );
    assert(xi_power_is(0x810b7bdd032f006f40d60f3c0403964ee9591c2e6bda1c234nat, 0x1d2c029080719cee4fbb17de0e2467208c2965aca5e8c87f8a0a92ad0520b1dint, 0x283918d56362a1d3036d8b7286d9a703c17ee2d308183786cc5a330b1f4c8e02int));
    lemma_xi_square(
        0x810b7bdd032f006f40d60f3c0403964ee9591c2e6bda1c234nat,
        0x1d2c029080719cee4fbb17de0e2467208c2965aca5e8c87f8a0a92ad0520b1dint,
        0x283918d56362a1d3036d8b7286d9a703c17ee2d308183786cc5a330b1f4c8e02int,
        0x132f39960119b28d3f03a04bbbf616962e0e6149941785a08a29f83669bced58int,
        0x2af787318c4fac434bd36e67a42cc268efe64e275a95d680a165072e2eaa49f5int,
        0x149fb3e86a0d0eaddb5f69c1269365da9aedf77cee30d192da3e770516acd3dcint,
    );
    assert(xi_power_is(0x10216f7ba065e00de81ac1e7808072c9dd2b2385cd7b438468nat, 0x189c00d755fba673ab80779a994aac8ad5a97db3a1f379ad24e57d1f138fa0aaint, 0x293f67d0d41a1d5bb6bed3824d26cbb535dbeef9dc61a325b47cee0a2d59a7b8int));
    lemma_xi_next(0x10216f7ba065e00de81ac1e7808072c9dd2b2385cd7b438468nat, 0x189c00d755fba673ab80779a994aac8ad5a97db3a1f379ad24e57d1f138fa0aaint, 0x293f67d0d41a1d5bb6bed3824d26cbb535dbeef9dc61a325b47cee0a2d59a7b8int);
    assert(xi_power_is(0x10216f7ba065e00de81ac1e7808072c9dd2b2385cd7b438469nat, 0x230fb4688e29dc3827d48fc991f53c1386953ca29bd84448e332d3c8f93c066dint, 0x8b43397c159ad5f55b3b97b439d12fcfe598ff11dd3e1969c457ac3e7ce9beaint));
    lemma_xi_square(
        0x10216f7ba065e00de81ac1e7808072c9dd2b2385cd7b438469nat,
        0x230fb4688e29dc3827d48fc991f53c1386953ca29bd84448e332d3c8f93c066dint,
        0x8b43397c159ad5f55b3b97b439d12fcfe598ff11dd3e1969c457ac3e7ce9beaint,
        0x29791342e32267a22184a88613bde9130486baea6d10933b5e96800546d07c8dint,
        0x54f4b9499baf8adf35cdfa2f0c0db1a8890f7c44a3fd958e4dae48ebb805b6eint,
        0x1aaba6a3825dfbba0e32502d6e185e61fc3c5b825bcdb398f75c646b0ed56277int,
    );
    assert(xi_power_is(0x2042def740cbc01bd03583cf0100e593ba56470b9af68708d2nat, 0x2429c7ae49676ef42e27c8e322fd0df87bf5c32622d0b9e279bb9b768b50211fint, 0x4f2fed4238a574a64145aa45aaf646660f74c734f299ca4b2983cbf452dc7a7int));
    lemma_xi_square(
        0x2042def740cbc01bd03583cf0100e593ba56470b9af68708d2nat,
        0x2429c7ae49676ef42e27c8e322fd0df87bf5c32622d0b9e279bb9b768b50211fint,
        0x4f2fed4238a574a64145aa45aaf646660f74c734f299ca4b2983cbf452dc7a7int,
        0xf569d56c0d369b33b1cf45cbccdd27eec2f43363fd2ee5837b1e75e274d0ae2int,
        0x118b2881bb20e7fcc0b45633766cfe3c735595241a4fda54e7ecc912723db3a3int,
        0x16adf470cac8dd463e883fc789551dc61a9913e15c02c2098b090eeeeea96084int,
    );
    assert(xi_power_is(0x4085bdee81978037a06b079e0201cb2774ac8e1735ed0e11a4nat, 0x2e2fc347e6e421e032b8e3dfc7e22ca0105b18a38df4de908be5aa628d8c5486int, 0x2d5be8e19591ba8c7d107f8f12aa3b8c353227c2b805841316121ddddd52c108int));
    lemma_xi_next(0x4085bdee81978037a06b079e0201cb2774ac8e1735ed0e11a4nat, 0x2e2fc347e6e421e032b8e3dfc7e22ca0105b18a38df4de908be5aa628d8c5486int, 0x2d5be8e19591ba8c7d107f8f12aa3b8c353227c2b805841316121ddddd52c108int);
    assert(xi_power_is(0x4085bdee81978037a06b079e0201cb2774ac8e1735ed0e11a5nat, 0x1f93cf8160181531413d9b5169bfeb853977cc036a79c525301d0af931314abdint, 0x12e4312c3e450f591d7aec7ce25229439b91bf5f5a2664453563ca61b910364fint));
    lemma_xi_square(
        0x4085bdee81978037a06b079e0201cb2774ac8e1735ed0e11a5nat,
        0x1f93cf8160181531413d9b5169bfeb853977cc036a79c525301d0af931314abdint,
        0x12e4312c3e450f591d7aec7ce25229439b91bf5f5a2664453563ca61b910364fint,
        0xc2a4dd4a638ef1b21f6c9e28a300b489bbd139f1584ec97ec0a187cc0df590eint,
        0x542de4176cb23e0c76c64e7469f1603aead47036ef510b19f63244cc07724b5int,
        0x42482513c561c2badee2a48c87483c336942afedb9f2aaa02d06322283549c4int,
    );
    assert(xi_power_is(0x810b7bdd032f006f40d60f3c0403964ee9591c2e6bda1c234anat, 0x6e76f932f6dcb3a5a8a64fb4390f544ed0fcc9ba68fdbe64ca6f43000683459int, 0x84904a278ac38575bdc549190e907866d2855fdb73e555405a0c644506a9388int));
    lemma_xi_next(0x810b7bdd032f006f40d60f3c0403964ee9591c2e6bda1c234anat, 0x6e76f932f6dcb3a5a8a64fb4390f544ed0fcc9ba68fdbe64ca6f43000683459int, 0x84904a278ac38575bdc549190e907866d2855fdb73e555405a0c644506a9388int);
    assert(xi_power_is(0x810b7bdd032f006f40d60f3c0403964ee9591c2e6bda1c234bnat, 0x575991750fe4c8c1ab0f28d4dae3f8850e470e9bb5e9b37701d4354dac24652int, 0x21144ad68c4a2622dcf91862da40e0a12bf967f5af4f114d432d607ffbaa66daint));
    lemma_xi_square(
        0x810b7bdd032f006f40d60f3c0403964ee9591c2e6bda1c234bnat,
        0x575991750fe4c8c1ab0f28d4dae3f8850e470e9bb5e9b37701d4354dac24652int,
        0x21144ad68c4a2622dcf91862da40e0a12bf967f5af4f114d432d607ffbaa66daint,
        0x15be6faff5f01844b9c886cbaf8cad3c205021f7275bee7f26ae395b9a477ff3int,
        0xa99a4549980febe8651bd120656e90d249787b67965f7bf884f226a4a4bba6int,
        0x1e584befff3abd226976dfd6113d6297d4987d0107f5797bd13ef43c559b59ebint,
    );
    assert(xi_power_is(0x10216f7ba065e00de81ac1e7808072c9dd2b2385cd7b4384696nat, 0x1514d56aac580858d1636afa8f273eab4e06a97bbfc58f032e294734f5a2c44dint, 0xc4c496d1d43da1b1a9d79f5a0f96cd211af8f70a779286a665d5c61d2b9b68fint));
    lemma_xi_square(
        0x10216f7ba065e00de81ac1e7808072c9dd2b2385cd7b4384696nat,
        0x1514d56aac580858d1636afa8f273eab4e06a97bbfc58f032e294734f5a2c44dint,
        0xc4c496d1d43da1b1a9d79f5a0f96cd211af8f70a779286a665d5c61d2b9b68fint,
        0x14a7a5c97b015f0fb2b31dbc15d3fc90e96fc84c76ab1e0e09b764f81664fe6eint,
        0x585a2e01f3abc72a5c141c27335ba921d7c03916dbfbf5191b045cb24586114int,
        0x9684197f265ef3ddfcc63a8c7dd2974b2cb722ab7802a39935e79524671b445int,
    );
    assert(xi_power_is(0x2042def740cbc01bd03583cf0100e593ba56470b9af68708d2cnat, 0xf2202e95bc6a29d0cf1dbf9a29e41fecbf3c4bb08eb5ebc78071f2cf20c9d5aint, 0x12d0832fe4cbde7bbf98c7518fba52e96596e4556f00547326bcf2a48ce3688aint));
    lemma_xi_square(
        0x2042def740cbc01bd03583cf0100e593ba56470b9af68708d2cnat,
        0xf2202e95bc6a29d0cf1dbf9a29e41fecbf3c4bb08eb5ebc78071f2cf20c9d5aint,
        0x12d0832fe4cbde7bbf98c7518fba52e96596e4556f00547326bcf2a48ce3688aint,
        0xbf0ddf470c6d58703b8ae1df803d2aed2ed806992805c757fdc066d27e04774int,
        0x179310e23975cf7cb388a9740bdd961142e1b3fd3a40faf195d8024a6a34c6ffint,
        0x1ce8ec8e8fe2ad603013af1fa30cd1d5b682f01f3fdf843e05e2d272e9f4d987int,
    );
    assert(xi_power_is(0x4085bdee81978037a06b079e0201cb2774ac8e1735ed0e11a58nat, 0x24c21b851882a63408804a606da794fb278d36fdc0b12c112624903996287dbcint, 0x96d8aaa3e93ba96a7d71888c4984b4dd58475ad174d3deecfa518cefb6cb5c7int));
    lemma_xi_square(
        0x4085bdee81978037a06b079e0201cb2774ac8e1735ed0e11a58nat,
        0x24c21b851882a63408804a606da794fb278d36fdc0b12c112624903996287dbcint,
        0x96d8aaa3e93ba96a7d71888c4984b4dd58475ad174d3deecfa518cefb6cb5c7int,
        0x1828a8fe87c0b108a0493f7e4df4d851c5dbcfdd9c9074390c38cae76d375e07int,
        0x27852f016ec572c31d801ed75c3505a8e744d158009e8f29c01cddc97d3109e9int,
        0xc5911ccad1720192d8a253ff95ae41d4190632aabc72775247adbc178390129int,
    );
    assert(xi_power_is(0x810b7bdd032f006f40d60f3c0403964ee9591c2e6bda1c234b0nat, 0x2107c86ffa2cde6f3b19665d73412b06761869170463af9c883c7934c8835165int, 0x18b223995a2e40325b144a7ff2b5c83a8320c655578e4eea48f5b782f0720252int));
    lemma_xi_square(
        0x810b7bdd032f006f40d60f3c0403964ee9591c2e6bda1c234b0nat,
        0x2107c86ffa2cde6f3b19665d73412b06761869170463af9c883c7934c8835165int,
        0x18b223995a2e40325b144a7ff2b5c83a8320c655578e4eea48f5b782f0720252int,
        0xa2529cf4266f01de9c39f369483d5a0745a08e1e4d613cdfffce40ed600df22int,
        0x228b82950a5c965e188f993d05bf490617087a1886d2964cb8e68c5f00e159e2int,
        0x214e992f879eee82ba5546a7a603dfde9ec61297d63de2c5aed75351511e0c22int,
    );
    assert(xi_power_is(0x10216f7ba065e00de81ac1e7808072c9dd2b2385cd7b43846960nat, 0x17fdf5ad193bf9e989844bb01045e4f7f4d2f95ac675480e8336e3c6ad9c8287int, 0x1238e3ec2e0c3cdbbc5a4798ca86675fa60aba9e4409fafe218e1a8bc9bf1afdint));
    lemma_xi_square(
        0x10216f7ba065e00de81ac1e7808072c9dd2b2385cd7b43846960nat,
        0x17fdf5ad193bf9e989844bb01045e4f7f4d2f95ac675480e8336e3c6ad9c8287int,
        0x1238e3ec2e0c3cdbbc5a4798ca86675fa60aba9e4409fafe218e1a8bc9bf1afdint,
        0x2c5712b5e3f139b159a54064cd7dc741966e0d34499db7557aae75c0ccb8adbbint,
        0x1c2c50ade878fc9a7d8379fa371e34a94758dad076ec470bc8a34636be460422int,
        0x7ce3e5b830292c6492f80f158a01b1e57a16dfdca917ac5ebed6b1f1a165192int,
    );
    assert(xi_power_is(0x2042def740cbc01bd03583cf0100e593ba56470b9af68708d2c0nat, 0x102ac207fb783d16dc21c66a965f92984f153263d2b17049b20b2f8a0e72a999int, 0xf9c7cb70605258c925f01e2b140363caf42dbfb9522f58bd7dad63e342ca324int));
    lemma_xi_square(
        0x2042def740cbc01bd03583cf0100e593ba56470b9af68708d2c0nat,
        0x102ac207fb783d16dc21c66a965f92984f153263d2b17049b20b2f8a0e72a999int,
        0xf9c7cb70605258c925f01e2b140363caf42dbfb9522f58bd7dad63e342ca324int,
        0x257e02486788108eea8556120c8c67d6206b6913c0cea9ce613b97c9442b6105int,
        0x2523ea3faff495fb70c4d288f57e65786d0fedf38ce7da2805e949f4413fdce5int,
        0x184f14ec4450d58462dcb754097f61096c6d816607d6989bcf454993ee890bb4int,
    );
    assert(xi_power_is(0x4085bdee81978037a06b079e0201cb2774ac8e1735ed0e11a580nat, 0x5a1808b7937a9379c08389170e025db35b7b2033e6cfa65b524dd502eb8420int, 0x39db65a7700adf0d6928f1917d69b54159983aa73b66aa626a071104951a21int));
    lemma_xi_square(
        0x4085bdee81978037a06b079e0201cb2774ac8e1735ed0e11a580nat,
        0x5a1808b7937a9379c08389170e025db35b7b2033e6cfa65b524dd502eb8420int,
        0x39db65a7700adf0d6928f1917d69b54159983aa73b66aa626a071104951a21int,
        0x279803a0cb22d32931cc3e92561f66db278cf77244de08dcc3c6fa18c492f0f4int,
        0x2a57e16b70caf31e4734c3085cd859cd405ef5ac59e88e131f6f19a8b497f448int,
        0x9000d7ea2e8aa4be83406979e90d51ad8a37efd1dd4b4995a6a533ad7c2c47aint,
    );
    assert(xi_power_is(0x810b7bdd032f006f40d60f3c0403964ee9591c2e6bda1c234b00nat, 0x2da470a83b898034a2e7c1407ac8656b7eaf6c5753674556e0786c86e877f9f3int, 0x12001afd45d15497d0680d2f3d21aa35b146fdfa3ba96932b4d4a675af8588f4int));
    lemma_xi_next(0x810b7bdd032f006f40d60f3c0403964ee9591c2e6bda1c234b00nat, 0x2da470a83b898034a2e7c1407ac8656b7eaf6c5753674556e0786c86e877f9f3int, 0x12001afd45d15497d0680d2f3d21aa35b146fdfa3ba96932b4d4a675af8588f4int);
    assert(xi_power_is(0x810b7bdd032f006f40d60f3c0403964ee9591c2e6bda1c234b01nat, 0x5a56755c8772bf4273b906107df23a506d87c8c6f69b2714e62c991b8ca565fint, 0xe1429c42b1ef8e4154f210f9af1ffd85c28afddca94cdea4b70164eb235d56bint));
    lemma_xi_square(
        0x810b7bdd032f006f40d60f3c0403964ee9591c2e6bda1c234b01nat,
        0x5a56755c8772bf4273b906107df23a506d87c8c6f69b2714e62c991b8ca565fint,
        0xe1429c42b1ef8e4154f210f9af1ffd85c28afddca94cdea4b70164eb235d56bint,
        0x201adb4e8dccfd4b96ce5fcaca1ed8dcf9d87035f7547f07b36ed2b93bfcf0f9int,
        0x3a65d95a2af7a70c8d9e67b1ab619ef02696c1e5914756c3a81a2afe0a27e2aint,
        0x9847c5d558662ead0b8baf9cef18a3e7642d6fa8be1526cd314e730d39810f7int,
    );
    assert(xi_power_is(0x10216f7ba065e00de81ac1e7808072c9dd2b2385cd7b438469602nat, 0x1c747db8eb1d82dacdf4794faf68beedf76f04179e40099b78ed30095b5a72cfint, 0x1308f8baab0cc5d5a17175f39de3147cec85adf517c2a4d9a629ce61a73021eeint));
    lemma_xi_square(
        0x10216f7ba065e00de81ac1e7808072c9dd2b2385cd7b438469602nat,
        0x1c747db8eb1d82dacdf4794faf68beedf76f04179e40099b78ed30095b5a72cfint,
        0x1308f8baab0cc5d5a17175f39de3147cec85adf517c2a4d9a629ce61a73021eeint,
        0x897a6b892ff987e8063a8dc647fcfaa6367fb50af6ec48716f4a7a0009af0cbint,
        0x2ef0095ce37fe7bc0c1508e0588f64434be550c699ed79890e7d0c37bc90ef2eint,
        0x303749ab78855bd0b8d543e4d7d50c00003dcbc2d7bbc58aa34d0ec8c9f378eint,
    );
    assert(xi_power_is(0x2042def740cbc01bd03583cf0100e593ba56470b9af68708d2c04nat, 0xa0bebce90b150ec2c9ee5b28d71c3c4af04151b7df3158b4498277f1c86fee4int, 0x606e9356f10ab7a171aa87c9afaa1800007b9785af778b15469a1d9193e6f1cint));
    lemma_xi_next(0x2042def740cbc01bd03583cf0100e593ba56470b9af68708d2c04nat, 0xa0bebce90b150ec2c9ee5b28d71c3c4af04151b7df3158b4498277f1c86fee4int, 0x606e9356f10ab7a171aa87c9afaa1800007b9785af778b15469a1d9193e6f1cint);
    assert(xi_power_is(0x2042def740cbc01bd03583cf0100e593ba56470b9af68708d2c05nat, 0x2400129ac5f98ca9c22b2513dc83e80c8f9b99edaa227ea6d8cf35880f0389a1int, 0xfe5d03c9715b80d443e8c5d7ec018e717c82fc54834893a002e4c0a273be999int));
    lemma_xi_square(
        0x2042def740cbc01bd03583cf0100e593ba56470b9af68708d2c05nat,
        0x2400129ac5f98ca9c22b2513dc83e80c8f9b99edaa227ea6d8cf35880f0389a1int,
        0xfe5d03c9715b80d443e8c5d7ec018e717c82fc54834893a002e4c0a273be999int,
        0x154ccfa309896a9454309a1b0597c6d94d021053b88721383550edc30d9216b9int,
        0x2f2e8f37dc45315c8c258faca4451eea91e0f4654de33dfd796f2adecb7e23f0int,
        0x15a817fbb98cd311b33105e3201c5fe5ec5b40922232f51168bd851eb7719b18int,
    );
    assert(xi_power_is(0x4085bdee81978037a06b079e0201cb2774ac8e1735ed0e11a580anat, 0x16828ede0e75d961805b5024e2d4004c52a2867fd315adc7f8024efb1a90f010int, 0x2b502ff77319a62366620bc64038bfcbd8b681244465ea22d17b0a3d6ee33630int));
    lemma_xi_next(0x4085bdee81978037a06b079e0201cb2774ac8e1735ed0e11a580anat, 0x16828ede0e75d961805b5024e2d4004c52a2867fd315adc7f8024efb1a90f010int, 0x2b502ff77319a62366620bc64038bfcbd8b681244465ea22d17b0a3d6ee33630int);
    assert(xi_power_is(0x4085bdee81978037a06b079e0201cb2774ac8e1735ed0e11a580bnat, 0xe19ea7e6b761dccf3e2f46234b739ca487bf9a5ee07d23d32381851f6be428bint, 0x1931cafa10cfaf52574b8c6918c7fb8a3501bc3af71c949774514a6d3ca5ed88int));
    lemma_xi_square(
        0x4085bdee81978037a06b079e0201cb2774ac8e1735ed0e11a580bnat,
        0xe19ea7e6b761dccf3e2f46234b739ca487bf9a5ee07d23d32381851f6be428bint,
        0x1931cafa10cfaf52574b8c6918c7fb8a3501bc3af71c949774514a6d3ca5ed88int,
        0x2fa0ad46e37621b80643a48116b919819e68e301319207bc1276ea7652e11a69int,
        0x170f667013c071423392cb8a835b48e0071aa79378e94fede39fd12094129895int,
        0xab06f6f65ccf437cfec8919bd9ba21293114cdaa96a821996cebc459d642a2fint,
    );
    assert(xi_power_is(0x810b7bdd032f006f40d60f3c0403964ee9591c2e6bda1c234b016nat, 0x189146d6cfb5b075d2b0d8f6935dd0a1974e3b6db8a8b7ce2ed71955bece81d4int, 0x1560dedecb99e86f9fd912337b374425262299b552d504332d9d788b3ac8545eint));
    lemma_xi_next(0x810b7bdd032f006f40d60f3c0403964ee9591c2e6bda1c234b016nat, 0x189146d6cfb5b075d2b0d8f6935dd0a1974e3b6db8a8b7ce2ed71955bece81d4int, 0x1560dedecb99e86f9fd912337b374425262299b552d504332d9d788b3ac8545eint);
    assert(xi_power_is(0x810b7bdd032f006f40d60f3c0403964ee9591c2e6bda1c234b017nat, 0x62964e2fd02cb0de71d779dad0fb012cd97d2e0895247d787703b1d188646faint, 0x1767e2e073585bbb901165ebe249d479907ff888005eb365d8de25df6de58406int));
    lemma_xi_square(
        0x810b7bdd032f006f40d60f3c0403964ee9591c2e6bda1c234b017nat,
        0x62964e2fd02cb0de71d779dad0fb012cd97d2e0895247d787703b1d188646faint,
        0x1767e2e073585bbb901165ebe249d479907ff888005eb365d8de25df6de58406int,
        0x2465f1313d54503c1aaa2d407a2ff9e866fc16e46c6b91809cbde78bb7c2ece2int,
        0x20637dd65d0cf45873f58f55a759fa38a0548028fbaffafef7b193f9fa05d1ecint,
        0x2c09c4a63821d5d0cd1fb038d4e8932928e8ec7176e262c4dd1cfc888a5ac463int,
    );
    assert(xi_power_is(0x10216f7ba065e00de81ac1e7808072c9dd2b2385cd7b438469602enat, 0x402735ae0475be3a6b49dead2d5ffafc6a796bb70bb9681a50c5391bdbd1af6int, 0x27af3ad98f120b77e1ef1abb284fcdf4ba506e518552fafc7e196cfa3c388b7fint));
    lemma_xi_square(
        0x10216f7ba065e00de81ac1e7808072c9dd2b2385cd7b438469602enat,
        0x402735ae0475be3a6b49dead2d5ffafc6a796bb70bb9681a50c5391bdbd1af6int,
        0x27af3ad98f120b77e1ef1abb284fcdf4ba506e518552fafc7e196cfa3c388b7fint,
        0x2ecb3547ecf96c8fd90b9e1ef4efc8cf683fee8f1aac5ca4be4d1730d53e744eint,
        0x19e9008d844d378e93df09eca2155aaebaa73a5544c928d1581caf9651dc9eb8int,
        0x98fc4210b54e8478a0a303998d0cceadcb5111285e43aae9d2c9d07217b87eeint,
    );
    assert(xi_power_is(0x2042def740cbc01bd03583cf0100e593ba56470b9af68708d2c05cnat, 0x14e234ba68ac3501452c943252da6e20ad98b439d5e333d36630679a8361d596int, 0x131f884216a9d08f1414607331a199d5b96a22250bc8755d3a593a0e42f70fdcint));
    lemma_xi_next(0x2042def740cbc01bd03583cf0100e593ba56470b9af68708d2c05cnat, 0x14e234ba68ac3501452c943252da6e20ad98b439d5e333d36630679a8361d596int, 0x131f884216a9d08f1414607331a199d5b96a22250bc8755d3a593a0e42f70fdcint);
    assert(xi_power_is(0x2042def740cbc01bd03583cf0100e593ba56470b9af68708d2c05dnat, 0x17a766f2f3cf2bff318c042e33883c379a6ff42f3fdefd69a8f8c61bd2027a95int, 0x2fd113b4910fa98bd0f3271b8d04cd8b6bcfa7d30699f472bef1cdd6549a6c7dint));
    lemma_xi_square(
        0x2042def740cbc01bd03583cf0100e593ba56470b9af68708d2c05dnat,
        0x17a766f2f3cf2bff318c042e33883c379a6ff42f3fdefd69a8f8c61bd2027a95int,
        0x2fd113b4910fa98bd0f3271b8d04cd8b6bcfa7d30699f472bef1cdd6549a6c7dint,
        0x19ce031db544eff1d07152f2ad2fa0923c2966df2bf2320aa344f7fc09af58d5int,
        0x87c4f94f382a562bac5214f1f633d143bc268e2dcbc2e13f8ce8b2e9e624aa6int,
        0x7b8fcbe07a5f608b24b26a55e2551882690c031a445251a587217b52e701f29int,
    );
    assert(xi_power_is(0x4085bdee81978037a06b079e0201cb2774ac8e1735ed0e11a580banat, 0x1151b388c1c24a8f15ac31a38dcc637e0066fdfc4f3603f6aa766ccd6b4d0e2fint, 0xf71f97c0f4bec1164964d4abc4aa3104d218063488a4a34b0e42f6a5ce03e52int));
    lemma_xi_square(
        0x4085bdee81978037a06b079e0201cb2774ac8e1735ed0e11a580banat,
        0x1151b388c1c24a8f15ac31a38dcc637e0066fdfc4f3603f6aa766ccd6b4d0e2fint,
        0xf71f97c0f4bec1164964d4abc4aa3104d218063488a4a34b0e42f6a5ce03e52int,
        0xa264f2be723d11f300a3bc828afefaa8d3d2b351a274d164a1b7acae0d064cint,
        0x1d6c64f3831c5ccf7ceeb49e54accd26cea481c04dc9bc62427040eb28631fe3int,
        0x8d41d5a998116327099e4302bb5f03627b617c356ba4fab3dbf82bbbdca1a21int,
    );
    assert(xi_power_is(0x810b7bdd032f006f40d60f3c0403964ee9591c2e6bda1c234b0174nat, 0x139a4e721c87806c2e6234d4af5f8a3171b0bb846c4a82fc5e5202d85e26e3b0int, 0x11a83ab533022c64e133c860576be06c4f6c2f86ad749f567b7f05777b943442int));
    lemma_xi_next(0x810b7bdd032f006f40d60f3c0403964ee9591c2e6bda1c234b0174nat, 0x139a4e721c87806c2e6234d4af5f8a3171b0bb846c4a82fc5e5202d85e26e3b0int, 0x11a83ab533022c64e133c860576be06c4f6c2f86ad749f567b7f05777b943442int);
    assert(xi_power_is(0x810b7bdd032f006f40d60f3c0403964ee9591c2e6bda1c234b0175nat, 0xd979bf52a2c76eb974f41f64e6bf237e946286ce7d49be121016fdf4a52d519int, 0x2157737844062f7af0436f143da664e775fa278c4c0ebd5f01678fc72ce5c22dint));
    lemma_xi_square(
        0x810b7bdd032f006f40d60f3c0403964ee9591c2e6bda1c234b0175nat,
        0xd979bf52a2c76eb974f41f64e6bf237e946286ce7d49be121016fdf4a52d519int,
        0x2157737844062f7af0436f143da664e775fa278c4c0ebd5f01678fc72ce5c22dint,
        0x1ea1daf2b23225293a23af76ecb375d80db7aad5bcc77ca96ec121bcaba6570int,
        0x1854a35faa034cd958f3a2120e641520b3012b174786672b209e1222bad053b7int,
        0x1bdf22a95e2e1e6b808379c8b40003f302485a05958d0f029cb9f141788ac415int,
    );
    assert(xi_power_is(0x10216f7ba065e00de81ac1e7808072c9dd2b2385cd7b438469602eanat, 0x19f9c8c2625175a2f2fede9be1e87a9a655bba277cb7db2cb26e8c0fe8670f00int, 0x759f6dfdb2a9cad48b6addae67eaf886d0f4979c2a85377fd53566c18988ae3int));
    lemma_xi_next(0x10216f7ba065e00de81ac1e7808072c9dd2b2385cd7b438469602eanat, 0x19f9c8c2625175a2f2fede9be1e87a9a655bba277cb7db2cb26e8c0fe8670f00int, 0x759f6dfdb2a9cad48b6addae67eaf886d0f4979c2a85377fd53566c18988ae3int);
    assert(xi_power_is(0x10216f7ba065e00de81ac1e7808072c9dd2b2385cd7b438469602ebnat, 0x20dcde2a14ec056660fe0ec604a83e6ec52497a3fe0736e5580d65c7b1130701int, 0x2bbf282e359f5790c91ab5977adb4e08a363e4ddec30ffd75e3c09c5ed46f3b4int));
    lemma_xi_square(
        0x10216f7ba065e00de81ac1e7808072c9dd2b2385cd7b438469602ebnat,
        0x20dcde2a14ec056660fe0ec604a83e6ec52497a3fe0736e5580d65c7b1130701int,
        0x2bbf282e359f5790c91ab5977adb4e08a363e4ddec30ffd75e3c09c5ed46f3b4int,
        0x5e01252eaa2b994db0f7f52d0478b9f19f0de4cd969484a7276ee53e6679675int,
        0x15b81459ac758f37bae71abb667269adcdf131c09e52288fa883f7cc0d3f9eb0int,
        0xe56a5dead052b27f4a224da7784abbd3b84fc95b2a97f244583f9a0bfeb239fint,
    );
    assert(xi_power_is(0x2042def740cbc01bd03583cf0100e593ba56470b9af68708d2c05d6nat, 0x208c4c6c1f5eca86d878aa4deb567a4ee381171da388ea480613829eb1a4f50cint, 0x1cad4bbd5a0a564fe94449b4ef09577a7709f92b6552fe488b07f3417fd6473eint));
    lemma_xi_square(
        0x2042def740cbc01bd03583cf0100e593ba56470b9af68708d2c05d6nat,
        0x208c4c6c1f5eca86d878aa4deb567a4ee381171da388ea480613829eb1a4f50cint,
        0x1cad4bbd5a0a564fe94449b4ef09577a7709f92b6552fe488b07f3417fd6473eint,
        0x2956d5c2f84f15a4954f8b84295a44a5f00ca3f662ae57dbc330ab215d496a36int,
        0x2afa5b8a053a2ddf40138d270b0f33bfdce73e0d1eae61c677587094ae183b4dint,
        0x159b61a5b9965d73c5bd6bbe9dfb8ca7f0e56b14c57429983a01a62bf408a6c0int,
    );
    assert(xi_power_is(0x4085bdee81978037a06b079e0201cb2774ac8e1735ed0e11a580bacnat, 0x2ec0c8abd44687ef0d8c44139fcc6943aaa6d07aac71c0a287f8c6a387ae2c30int, 0x2b36c34b732cbae78b7ad77d3bf7194fe1cad6298ae8533074034c57e8114d80int));
    lemma_xi_square(
        0x4085bdee81978037a06b079e0201cb2774ac8e1735ed0e11a580bacnat,
        0x2ec0c8abd44687ef0d8c44139fcc6943aaa6d07aac71c0a287f8c6a387ae2c30int,
        0x2b36c34b732cbae78b7ad77d3bf7194fe1cad6298ae8533074034c57e8114d80int,
        0x1924d03afe84ae14eea01cdfd5b039c600d7d7be3feba7df8fd01fd545c1120cint,
        0x14e4f7bee349a42adbe41043b9cf1dfe75734339ac1407fc57420527c8ce4c48int,
        0x3b4d2cf093e3d572f41b0a9eff049227e625bb69fd10d3a0c26c355b97f1a2aint,
    );
    assert(xi_power_is(0x810b7bdd032f006f40d60f3c0403964ee9591c2e6bda1c234b01758nat, 0x43fd87c1b3b09ea12bc0c9c1be11bc78b64948493d79fe3388e1aad7cf2c5c4int, 0x769a59e127c7aae5e836153dfe09244fcc4b76d3fa21a74184d86ab72fe3454int));
    lemma_xi_next(0x810b7bdd032f006f40d60f3c0403964ee9591c2e6bda1c234b01758nat, 0x43fd87c1b3b09ea12bc0c9c1be11bc78b64948493d79fe3388e1aad7cf2c5c4int, 0x769a59e127c7aae5e836153dfe09244fcc4b76d3fa21a74184d86ab72fe3454int);
    assert(xi_power_is(0x810b7bdd032f006f40d60f3c0403964ee9591c2e6bda1c234b01759nat, 0x1ed4f6bee296de8c4a1910291b0967bee9c4813bf2f28488e4b1696df18abf90int, 0x16925c97e069b9e1ad0a32d87944e7d6d6cd9cca6818c36ad7274a9daf659f71int));
    lemma_xi_square(
        0x810b7bdd032f006f40d60f3c0403964ee9591c2e6bda1c234b01759nat,
        0x1ed4f6bee296de8c4a1910291b0967bee9c4813bf2f28488e4b1696df18abf90int,
        0x16925c97e069b9e1ad0a32d87944e7d6d6cd9cca6818c36ad7274a9daf659f71int,
        0x1de3ae4a01688b5a010f0de78f8fa0673c8909ca7b3b7c7624ef9555bba779efint,
        0x1a381551822d563b500814a100bca80be75249d5e792f65e1aa956a7e11d9cc4int,
        0x21a7d11f2891bb2fe2de502bd2a3b5485772abf964f595f84e192625d4f1031int,
    );
    assert(xi_power_is(0x10216f7ba065e00de81ac1e7808072c9dd2b2385cd7b438469602eb2nat, 0x3ab98f87f3b351eb106f9468ed2f85b5536bff493a886180a463eadda89dd2bint, 0x434fa23e5123765fc5bca057a5476a90aee557f2c9eb2bf09c324c4ba9e2062int));
    lemma_xi_square(
        0x10216f7ba065e00de81ac1e7808072c9dd2b2385cd7b438469602eb2nat,
        0x3ab98f87f3b351eb106f9468ed2f85b5536bff493a886180a463eadda89dd2bint,
        0x434fa23e5123765fc5bca057a5476a90aee557f2c9eb2bf09c324c4ba9e2062int,
        0x17d519bd14e37f49729de3e365900b595a0fd5824d2fd6b951c6015a9ec5ba19int,
        0x1e1c68b1138328ef7dae4ccb5d5f13dbb60219f4f90d2988427da0bb725ca2ddint,
        0x11a290078ff2227e0f3f67d8b7503be829d0d6c0c836eb68ce871c316842a9ccint,
    );
    assert(xi_power_is(0x2042def740cbc01bd03583cf0100e593ba56470b9af68708d2c05d64nat, 0x2a1cff7ee291f683ad3fdcce89b24fdb3b8f261ebc9477be4b68ecb604e61483int, 0x2345200f1fe444fc1e7ecfb16ea077d053a1ad81906dd6d19d0e3862d0855398int));
    lemma_xi_square(
        0x2042def740cbc01bd03583cf0100e593ba56470b9af68708d2c05d64nat,
        0x2a1cff7ee291f683ad3fdcce89b24fdb3b8f261ebc9477be4b68ecb604e61483int,
        0x2345200f1fe444fc1e7ecfb16ea077d053a1ad81906dd6d19d0e3862d0855398int,
        0x14c3493581e16d9f5e4e384eb84596faca9457c7f448469dd49028ffc2a81e8bint,
        0x1a9023e688e64a6f64cafbdab68ac6bd735152372bb1bbcc46238a51157898d0int,
        0x1556a7da54747cf987c7f481c8e82e8a0cc6908a495db7369c27edd1576e181bint,
    );
    assert(xi_power_is(0x4085bdee81978037a06b079e0201cb2774ac8e1735ed0e11a580bac8nat, 0x2a9773c1da2cc359b1d3822a833c289aeec470223108555eca8d2ac585ac8302int, 0x2aad4fb4a8e8f9f30f8fe90391d05d14198d211492bb6e6d384fdba2aedc3036int));
    lemma_xi_next(0x4085bdee81978037a06b079e0201cb2774ac8e1735ed0e11a580bac8nat, 0x2a9773c1da2cc359b1d3822a833c289aeec470223108555eca8d2ac585ac8302int, 0x2aad4fb4a8e8f9f30f8fe90391d05d14198d211492bb6e6d384fdba2aedc3036int);
    assert(xi_power_is(0x4085bdee81978037a06b079e0201cb2774ac8e1735ed0e11a580bac9nat, 0x1e79cf7da4e831026adc27d80c3a5cf26d0e6254b73080b41c2d0af18c97debint, 0x278ccd84c0d08b977b6085969784ab6318af45501610e2cbe45782c6e7824ab0int));
    lemma_xi_square(
        0x4085bdee81978037a06b079e0201cb2774ac8e1735ed0e11a580bac9nat,
        0x1e79cf7da4e831026adc27d80c3a5cf26d0e6254b73080b41c2d0af18c97debint,
        0x278ccd84c0d08b977b6085969784ab6318af45501610e2cbe45782c6e7824ab0int,
        0x291053679c707eeb5b11f8fc749ca10d269ca4f22fa27896397f1e036195c712int,
        0x18c62ed7e2c0c73c88e5bdee6c590da2b9acaddbcf5498c8c669bbd4cbdc50bfint,
        0x299ce13fe854993cf16d9ee5c9d4388a76bd5c0a506e6bf77057a7e117f528d7int,
    );
    assert(xi_power_is(0x810b7bdd032f006f40d60f3c0403964ee9591c2e6bda1c234b017592nat, 0x104a248fb9afb7aed22c3b0e0843936a6ceff716604ddfcd7315622e95b97653int, 0x22d5740cef7792502a8af815122718b755f94d83386b0d61a48ec3ab576d5467int));
}

/// The bits from 224 on of the exponent, from the top.
proof fn lemma_xi_power_7()
    requires
        xi_power_is(
            0x810b7bdd032f006f40d60f3c0403964ee9591c2e6bda1c234b017592nat,
            0x104a248fb9afb7aed22c3b0e0843936a6ceff716604ddfcd7315622e95b97653int,
            0x22d5740cef7792502a8af815122718b755f94d83386b0d61a48ec3ab576d5467int,
        ),
    ensures
        xi_power_is(
            0x810b7bdd032f006f40d60f3c0403964ee9591c2e6bda1c234b017592414d4e1nat,
            0x1284b71c2865a7dfe8b99fdd76e68b605c521e08292f2176d60b35dadcc9e470int,
            0x246996f3b4fae7e6a6327cfe12150b8e747992778eeec7e5ca5cf05f80f362acint,
        ),
{
    lemma_xi_square(
        0x810b7bdd032f006f40d60f3c0403964ee9591c2e6bda1c234b017592nat,
        0x104a248fb9afb7aed22c3b0e0843936a6ceff716604ddfcd7315622e95b97653int,
        0x22d5740cef7792502a8af815122718b755f94d83386b0d61a48ec3ab576d5467int,
        0x1f69ab26d7c3e0829fb69d52c7060e47a30a0150c7559e16401ed47fa66834d9int,
        0x1b3939d40122821eeaf831b36806e4413df692ee1d9d74d86fa0b52227aba09fint,
        0x29f4a90fb19cd2f8adf82c7bab0fbe75b454155395452ad70f68bcf6fe73ddf9int,
    );
    assert(xi_power_is(0x10216f7ba065e00de81ac1e7808072c9dd2b2385cd7b438469602eb24nat, 0x4307152d6a15e63b4be6b9f5eff2a0665136e62a9b8293dd07e1f5d7ebc943aint, 0x238503ac820805c7a3a01340d49e248dd126c015c2188b20e2b0edd7246abeabint));
    lemma_xi_square(
        0x10216f7ba065e00de81ac1e7808072c9dd2b2385cd7b438469602eb24nat,
        0x4307152d6a15e63b4be6b9f5eff2a0665136e62a9b8293dd07e1f5d7ebc943aint,
        0x238503ac820805c7a3a01340d49e248dd126c015c2188b20e2b0edd7246abeabint,
        0x262a166f3996ea2df4f5bda9c178ba240b0009402e54c64aaddf612b438425c9int,
        0x2d664d36447291b85627f511fa3090690d94826bb7477df0338fde72e29963efint,
        0x2f5dc370b0a7068b71e1fd3c9f95698dfe14cbd0ab03996e97cac557fddad91dint,
    );
    assert(xi_power_is(0x2042def740cbc01bd03583cf0100e593ba56470b9af68708d2c05d648nat, 0x292817abd655f89f571e0e4e48c9821894ecf165df7f12e7b6700ecf3967bf21int, 0x2e57386e801c6ced2b73b4c2bda97abe64a82d0fed95684ff374fe992338b4f3int));
    lemma_xi_next(0x2042def740cbc01bd03583cf0100e593ba56470b9af68708d2c05d648nat, 0x292817abd655f89f571e0e4e48c9821894ecf165df7f12e7b6700ecf3967bf21int, 0x2e57386e801c6ced2b73b4c2bda97abe64a82d0fed95684ff374fe992338b4f3int);
    assert(xi_power_is(0x2042def740cbc01bd03583cf0100e593ba56470b9af68708d2c05d649nat, 0x21b7c5eac1bf8fb292b929b6c86405ed4aa3d01c7b3782860db83e26ce7f138cint, 0x16b251846c972b7e635cf5bc6632b77fcb49c7d88dbf9ec028681563da01342dint));
    lemma_xi_square(
        0x2042def740cbc01bd03583cf0100e593ba56470b9af68708d2c05d649nat,
        0x21b7c5eac1bf8fb292b929b6c86405ed4aa3d01c7b3782860db83e26ce7f138cint,
        0x16b251846c972b7e635cf5bc6632b77fcb49c7d88dbf9ec028681563da01342dint,
        0x1eae9474c44fd238f46017978dd6775f388c03f31cf1a267ead78d978f91947dint,
        0x4b21d819ea097670b0c4996718e8d0c69173d25b8e4c2f988b2983e0179acc3int,
        0x40c230eab77715f53bd3431e290b6b96512edfd8e6e8943a4bb805d4e45dbe9int,
    );
    assert(xi_power_is(0x4085bdee81978037a06b079e0201cb2774ac8e1735ed0e11a580bac92nat, 0x19fc76f325af3ad1e953ce011c47ea52cf74c6cd640cdf6e6224f5598e17e7baint, 0x818461d56eee2bea77a6863c5216d72ca25dbfb1cdd1287497700ba9c8bb7d2int));
    lemma_xi_square(
        0x4085bdee81978037a06b079e0201cb2774ac8e1735ed0e11a580bac92nat,
        0x19fc76f325af3ad1e953ce011c47ea52cf74c6cd640cdf6e6224f5598e17e7baint,
        0x818461d56eee2bea77a6863c5216d72ca25dbfb1cdd1287497700ba9c8bb7d2int,
        0x14465c3ff2cf2b9a86edc88606cca85a3037131a2973e708cb58dcc8e7823160int,
        0x1b694a24fe22cead2fe8ebf0378e574dd2d225b57fe28415575d50bc60f1c05cint,
        0x2e3893ac0a442bb2d04b7a81c5040aa64906d67666e0265748d941b34b3d1535int,
    );
    assert(xi_power_is(0x810b7bdd032f006f40d60f3c0403964ee9591c2e6bda1c234b0175924nat, 0x2941608dd5ddfd170f55224c50bfa969f4e657f612032d80b01c18235f0d6e4bint, 0x2c0cd8e53356b73be846af4d0886bceefa8c425b654e82215591f74fbdfd2d23int));
    lemma_xi_square(
        0x810b7bdd032f006f40d60f3c0403964ee9591c2e6bda1c234b0175924nat,
        0x2941608dd5ddfd170f55224c50bfa969f4e657f612032d80b01c18235f0d6e4bint,
        0x2c0cd8e53356b73be846af4d0886bceefa8c425b654e82215591f74fbdfd2d23int,
        0x1325e2c098008c3dc615322ce12c2f8a356affbcd811e683bbe188a6513f9b41int,
        0x35d7247dd39ba312f668eb752db8fb7eb9fa70255d1437b05fa7b0d921f1961int,
        0x22d194667011a2e890133c2aeec6e71b29bbd9557bd3bcd5e3b326424a06ad27int,
    );
    assert(xi_power_is(0x10216f7ba065e00de81ac1e7808072c9dd2b2385cd7b438469602eb248nat, 0xfc87078bac6d20c96aea3758e509fd249cb58ba8240a308b5e70d98bf2081e0int, 0x153eda59fef1a5a767d6329f5c0c75d8bbf648198f35af1e8b45c06dbb905d07int));
    lemma_xi_square(
        0x10216f7ba065e00de81ac1e7808072c9dd2b2385cd7b438469602eb248nat,
        0xfc87078bac6d20c96aea3758e509fd249cb58ba8240a308b5e70d98bf2081e0int,
        0x153eda59fef1a5a767d6329f5c0c75d8bbf648198f35af1e8b45c06dbb905d07int,
        0x2271032152c3c9309551b31dac0c5e7befbf8be99bd42375079cee73314bef80int,
        0x1650189dac682f0dfa6c6e5fb9585546c8ebe1d2643e508649385fd8ed246065int,
        0x18f9a35361d7e55721b40027bee6fb0d97f4b5f91b09c689e713af3a1372d19int,
    );
    assert(xi_power_is(0x2042def740cbc01bd03583cf0100e593ba56470b9af68708d2c05d6490nat, 0xc20ea83a65b9a229ae544bdf2b4093526d3aa173795d2eebe648e9a44278f1bint, 0x31f346a6c3afcaae4368004f7dcdf61b2fe96bf236138d13ce275e7426e5a32int));
    lemma_xi_square(
        0x2042def740cbc01bd03583cf0100e593ba56470b9af68708d2c05d6490nat,
        0xc20ea83a65b9a229ae544bdf2b4093526d3aa173795d2eebe648e9a44278f1bint,
        0x31f346a6c3afcaae4368004f7dcdf61b2fe96bf236138d13ce275e7426e5a32int,
        0x18753387ef3daf474cd55fda8cb5db033f72915b2bce4452820367681318af95int,
        0x2ace0dd105bc7d0160496e038c34f17d078efa7b9b5afd278d070f92786eb802int,
        0x12466bf83c7fa1f6b7c0943b35f907be9a5fc76e16734717410ae04a3ebf6413int,
    );
    assert(xi_power_is(0x4085bdee81978037a06b079e0201cb2774ac8e1735ed0e11a580bac920nat, 0x1e0b7429cab2d26fa4dc378d820241e3cf650170f8e511b8311ce3ec7326f4daint, 0x248cd7f078ff43ed6f8128766bf20f7d34bf8edc2ce68e2e8215c0947d7ec826int));
    lemma_xi_square(
        0x4085bdee81978037a06b079e0201cb2774ac8e1735ed0e11a580bac920nat,
        0x1e0b7429cab2d26fa4dc378d820241e3cf650170f8e511b8311ce3ec7326f4daint,
        0x248cd7f078ff43ed6f8128766bf20f7d34bf8edc2ce68e2e8215c0947d7ec826int,
        0x13bd7c63af59a008bde0aa0b2ba8423d3ff4ac1fcb866d302b55367cd82ca786int,
        0x300bbc5ed6030b460633d8628c3bfd7c4b9a0fbc3c83977fc2970a65dcca5c85int,
        0x2c053940d081afb7b645fe6c1b745752aca30c4a353ef84ca5322ba5b3149744int,
    );
    assert(xi_power_is(0x810b7bdd032f006f40d60f3c0403964ee9591c2e6bda1c234b01759240nat, 0x14160e77ba8834ec6ffd175f20ed9d1e8bdc06f4f774a03da4deb82dd3df4848int, 0x27a6240ebfd1bf45b43bb721b5675647c1c4ae03020c260c0e43cb348dac3141int));
    lemma_xi_next(0x810b7bdd032f006f40d60f3c0403964ee9591c2e6bda1c234b01759240nat, 0x14160e77ba8834ec6ffd175f20ed9d1e8bdc06f4f774a03da4deb82dd3df4848int, 0x27a6240ebfd1bf45b43bb721b5675647c1c4ae03020c260c0e43cb348dac3141int);
    assert(xi_power_is(0x810b7bdd032f006f40d60f3c0403964ee9591c2e6bda1c234b01759241nat, 0x2c57c1410c94dcb6cb098fc96ff07f0ff9f4bb76e029e704454f963a34335eb9int, 0x262f2dd8508c8d3bbbe49f90f7063b15373c3b162ec56ccd805d0866e38216a0int));
    lemma_xi_square(
        0x810b7bdd032f006f40d60f3c0403964ee9591c2e6bda1c234b01759241nat,
        0x2c57c1410c94dcb6cb098fc96ff07f0ff9f4bb76e029e704454f963a34335eb9int,
        0x262f2dd8508c8d3bbbe49f90f7063b15373c3b162ec56ccd805d0866e38216a0int,
        0x22c9fb010e2a8804d28184ad676a8b06e9a13b4c6db951e7effc526ab68198d0int,
        0x1446f4ec1651a757982c3958339b10ed01e5ce134c12c59fa0ed2a31a9221b6bint,
        0x2efba1c2ce3f52638e58f9bee7c5b9195e4df3a06b7cb88df72192bdbc3be74eint,
    );
    assert(xi_power_is(0x10216f7ba065e00de81ac1e7808072c9dd2b2385cd7b438469602eb2482nat, 0xe830614f7d8e0ad3a554b5533cf7a19e7bb6d3921a68c484f0f28390d5f7d65int, 0x2d92f512bb4d049d6461adc74e0a19d5251a7caf6e87a68eb22299649ffad155int));
    lemma_xi_square(
        0x10216f7ba065e00de81ac1e7808072c9dd2b2385cd7b438469602eb2482nat,
        0xe830614f7d8e0ad3a554b5533cf7a19e7bb6d3921a68c484f0f28390d5f7d65int,
        0x2d92f512bb4d049d6461adc74e0a19d5251a7caf6e87a68eb22299649ffad155int,
        0x122261a56ebbbc32fe5b3991d5ab0a670c3eff4aac3836b13d147f2a0a49a803int,
        0x1a239fbe592c28831187d40dd50592d727689745b63202e5e9dd1d5af04255cdint,
        0x954dc667df5b86916b169d9f39f8559817e29d60981be7cd1dc8f0608adfdefint,
    );
    assert(xi_power_is(0x2042def740cbc01bd03583cf0100e593ba56470b9af68708d2c05d64904nat, 0x28631059f6c133d9a523ab3a8226cfed7c57d2965e77fe588f57ede5f2844f7dint, 0x12a9b8ccfbeb70d22d62d3b3e73f0ab302fc53ac13037cf9a3b91e0c115bfbdeint));
    lemma_xi_next(0x2042def740cbc01bd03583cf0100e593ba56470b9af68708d2c05d64904nat, 0x28631059f6c133d9a523ab3a8226cfed7c57d2965e77fe588f57ede5f2844f7dint, 0x12a9b8ccfbeb70d22d62d3b3e73f0ab302fc53ac13037cf9a3b91e0c115bfbdeint);
    assert(xi_power_is(0x2042def740cbc01bd03583cf0100e593ba56470b9af68708d2c05d64905nat, 0x613b538888400b096ac495d2194da17379029a36417ea46c17a6a6989dfe296int, 0xec955c34d41aa965c5c05b39d58cec23931195d67d038ea6057cbf72ccc352fint));
    lemma_xi_square(
        0x2042def740cbc01bd03583cf0100e593ba56470b9af68708d2c05d64905nat,
        0x613b538888400b096ac495d2194da17379029a36417ea46c17a6a6989dfe296int,
        0xec955c34d41aa965c5c05b39d58cec23931195d67d038ea6057cbf72ccc352fint,
        0x2017f2f918622db3f04862963644c42cfab9e96c60029fd5970d23be73b48f41int,
        0x27b720fd162cd93699289970a2c2068d2e9d33ce2ab05301d01c599dabf5bb27int,
        0xc5772418a9cbd872079a94d5269fa59d664df913958fcc8a5c9c818dcd7bdafint,
    );
    assert(xi_power_is(0x4085bdee81978037a06b079e0201cb2774ac8e1735ed0e11a580bac920anat, 0x28c5206ee366f4a70f700edc150415fd639e202f9dc4176103115637a03bd161int, 0x18aee48315397b0e40f3529aa4d3f4b3acc9bf2272b1f9914b939031b9af7b5eint));
    lemma_xi_square(
        0x4085bdee81978037a06b079e0201cb2774ac8e1735ed0e11a580bac920anat,
        0x28c5206ee366f4a70f700edc150415fd639e202f9dc4176103115637a03bd161int,
        0x18aee48315397b0e40f3529aa4d3f4b3acc9bf2272b1f9914b939031b9af7b5eint,
        0x10371b324a116c777f0e30c98503037627126588eda776d9aed6d81438f8674dint,
        0x250c97bc4f6214f9279f07754655a4922d2fbe60ec418dfb50a2b8276a57dc0eint,
        0x9a60cbd06419a1ef46ade757a2942f915cc598ff65e196d7f570c8852f291b8int,
    );
    assert(xi_power_is(0x810b7bdd032f006f40d60f3c0403964ee9591c2e6bda1c234b017592414nat, 0x1b8ed1e8dbe0f7a80fbf6f0ac02eb741916411b969d7b36b9a54ac03a71d8886int, 0x134c197a0c83343de8d5bceaf45285f22b98b31fecbc32dafeae1910a5e52370int));
    lemma_xi_square(
        0x810b7bdd032f006f40d60f3c0403964ee9591c2e6bda1c234b017592414nat,
        0x1b8ed1e8dbe0f7a80fbf6f0ac02eb741916411b969d7b36b9a54ac03a71d8886int,
        0x134c197a0c83343de8d5bceaf45285f22b98b31fecbc32dafeae1910a5e52370int,
        0x140102f04779e222f7cf5bd15b398311f90bdb853fff949eebd706bf61d0ab53int,
        0x2afd2d92cbdf310b1c6c10352696170363cfdfe51a495c64077a4e365e759011int,
        0x27b79d926ba3f79ce4c2e18ca858471c147046974a07113027b7e1dae9b74c47int,
    );
    assert(xi_power_is(0x10216f7ba065e00de81ac1e7808072c9dd2b2385cd7b438469602eb24828nat, 0x196823d05ccc514193b39152b624c46c2cbd66318e2802c8207d449fdbd81889int, 0x1f0aecb1f6164f1011357d62cf2f35da915f229d2b9c57d3134f379efaf19b47int));
    lemma_xi_next(0x10216f7ba065e00de81ac1e7808072c9dd2b2385cd7b438469602eb24828nat, 0x196823d05ccc514193b39152b624c46c2cbd66318e2802c8207d449fdbd81889int, 0x1f0aecb1f6164f1011357d62cf2f35da915f229d2b9c57d3134f379efaf19b47int);
    assert(xi_power_is(0x10216f7ba065e00de81ac1e7808072c9dd2b2385cd7b438469602eb24829nat, 0x40d1bd5c8520b973ed987ab9216507ca343cadb32049701209601a45db34c6eint, 0xe709f60bc6b57d7dcb35784f5c596e9bc0d1e4fa3fc59e46582f0ad9b689e5eint));
    lemma_xi_square(
        0x10216f7ba065e00de81ac1e7808072c9dd2b2385cd7b438469602eb24829nat,
        0x40d1bd5c8520b973ed987ab9216507ca343cadb32049701209601a45db34c6eint,
        0xe709f60bc6b57d7dcb35784f5c596e9bc0d1e4fa3fc59e46582f0ad9b689e5eint,
        0xa13a645fb5957e0167b069fc2538102632f018a0defbeaa2790bfeae0a3d1aaint,
        0x250dbbbd919fc12ce134e95e2b6085b655709ba2781388ad965e60b69142383int,
        0x14ca2881311cf7431213c83be0f4a1d0137368bbfffd807d4c71d95c1db304d8int,
    );
    assert(xi_power_is(0x2042def740cbc01bd03583cf0100e593ba56470b9af68708d2c05d649052nat, 0x7c2ca8a223f5bcd4867b809df9d78a6fdd7f7cfe66e861f4e2ad9df778fae27int, 0x299451026239ee8624279077c1e943a026e6d177fffb00fa98e3b2b83b6609b0int));
    lemma_xi_next(0x2042def740cbc01bd03583cf0100e593ba56470b9af68708d2c05d649052nat, 0x7c2ca8a223f5bcd4867b809df9d78a6fdd7f7cfe66e861f4e2ad9df778fae27int, 0x299451026239ee8624279077c1e943a026e6d177fffb00fa98e3b2b83b6609b0int);
    assert(xi_power_is(0x2042def740cbc01bd03583cf0100e593ba56470b9af68708d2c05d649053nat, 0x1c44cdd8d2004bb1677de7e11a9ffa3ec5b0e4d719e7b61f269df622f8a715afint, 0x2b3b7e7b6ded5d608399e44226476eb9376b6b0e0b25051209484db9a2bb1866int));
    lemma_xi_square(
        0x2042def740cbc01bd03583cf0100e593ba56470b9af68708d2c05d649053nat,
        0x1c44cdd8d2004bb1677de7e11a9ffa3ec5b0e4d719e7b61f269df622f8a715afint,
        0x2b3b7e7b6ded5d608399e44226476eb9376b6b0e0b25051209484db9a2bb1866int,
        0x8242c37ae4069f58d13b9f6dadf589e200d0d1655786320b8f40ce79522e85bint,
        0x107696bac303557ce2a3897a1fb3e9ec8277cb39e8180f1438a8a535f59ea790int,
        0x296fd0614e7e57c841d3083a32deb389770cd36cae72df38121f64c05ae4ee06int,
    );
    assert(xi_power_is(0x4085bdee81978037a06b079e0201cb2774ac8e1735ed0e11a580bac920a6nat, 0x2811e3efcc6eb4a262c076333cacc70f3516ac6dd5d21e99bc6bf3c878013e12int, 0x227b524fbbcb0f66cb55cabde43c0eb556983c47f473f3e2e81e3d69dd4cdec5int));
    lemma_xi_square(
        0x4085bdee81978037a06b079e0201cb2774ac8e1735ed0e11a580bac920a6nat,
        0x2811e3efcc6eb4a262c076333cacc70f3516ac6dd5d21e99bc6bf3c878013e12int,
        0x227b524fbbcb0f66cb55cabde43c0eb556983c47f473f3e2e81e3d69dd4cdec5int,
        0x105b5fe5857f03007894d67f65565ed86b2899ec608ea96dddf4451687e4631dint,
        0x112c62a099c7d35df563e6d5639c1a580469aa16b61d86cebd1f3c1c9c068f94int,
        0x1ae58b653d329662d8ee86b7bc30b0e5260a95c6c33327bc2b1880eea780ce8fint,
    );
    assert(xi_power_is(0x810b7bdd032f006f40d60f3c0403964ee9591c2e6bda1c234b017592414cnat, 0x2f934bb7cce8cfcc3b813560833b9cddfe405a6712e2ed2c5cf59510c45ad0d0int, 0x566c85799338c9bf98cc7b8f6e0096cb493c0fc1df484eb1a1075c676849fd7int));
    lemma_xi_next(0x810b7bdd032f006f40d60f3c0403964ee9591c2e6bda1c234b017592414cnat, 0x2f934bb7cce8cfcc3b813560833b9cddfe405a6712e2ed2c5cf59510c45ad0d0int, 0x566c85799338c9bf98cc7b8f6e0096cb493c0fc1df484eb1a1075c676849fd7int);
    assert(xi_power_is(0x810b7bdd032f006f40d60f3c0403964ee9591c2e6bda1c234b017592414dnat, 0x23a46d87916ec0445b7beaf79a2db7747fa4181848777d3a498d6719acc4cd41int, 0x2fcc08594e87211e4923f52aaf9a9952bff0b8b2b809cee30b692cf416877218int));
    lemma_xi_square(
        0x810b7bdd032f006f40d60f3c0403964ee9591c2e6bda1c234b017592414dnat,
        0x23a46d87916ec0445b7beaf79a2db7747fa4181848777d3a498d6719acc4cd41int,
        0x2fcc08594e87211e4923f52aaf9a9952bff0b8b2b809cee30b692cf416877218int,
        0x207af882aed1089bb000b6f04a11a0825b7fe113f8ade9075714e241a3312f23int,
        0x4b67e5f6921a5593179f3596190efa5629309c4c2071ebff8752fa4ad18f8cint,
        0x28b505a80cd38d8e37c2d180bdecaa0c89cd94e4367096aaa947a5ee5c90a25eint,
    );
    assert(xi_power_is(0x10216f7ba065e00de81ac1e7808072c9dd2b2385cd7b438469602eb24829anat, 0x202f909cb83eee461ce917bab3f891880556b077ac8d771b578d8f47585f9f97int, 0x2105bcdd38757af2b7355d4afa57fbbb7c19bf37046f62c8166ebfc5e0a44775int));
    lemma_xi_square(
        0x10216f7ba065e00de81ac1e7808072c9dd2b2385cd7b438469602eb24829anat,
        0x202f909cb83eee461ce917bab3f891880556b077ac8d771b578d8f47585f9f97int,
        0x2105bcdd38757af2b7355d4afa57fbbb7c19bf37046f62c8166ebfc5e0a44775int,
        0x2fe991773244308b9cdae479c771138669e1b741e504d455ed918e085dfaca83int,
        0x240dfaf92a938860b16a8d9930e57c9d1179395641b72b8dddef6689c6c15e21int,
        0x167503f19c9ad6cabc2b74b5d56d61b7d4105a7d6b589e8e628a868845f86d32int,
    );
    assert(xi_power_is(0x2042def740cbc01bd03583cf0100e593ba56470b9af68708d2c05d6490534nat, 0xbdb967e07b0a82aeb7056e0968b96e958687deba34da8c80fa2277e97396c62int, 0x2cea07e33935ad957856e96baadac36fa820b4fad6b13d1cc5150d108bf0da64int));
    lemma_xi_next(0x2042def740cbc01bd03583cf0100e593ba56470b9af68708d2c05d6490534nat, 0xbdb967e07b0a82aeb7056e0968b96e958687deba34da8c80fa2277e97396c62int, 0x2cea07e33935ad957856e96baadac36fa820b4fad6b13d1cc5150d108bf0da64int);
    assert(xi_power_is(0x2042def740cbc01bd03583cf0100e593ba56470b9af68708d2c05d6490535nat, 0xd69f4182ace9bc3164bdec31e8c3266dc0a4dbc7e97e75e8b7dca4bec96f7c7int, 0x1cf369e40106c11e63fc5df58c31b2e985838631ebfa7a611c5b3c5cbec92faeint));
    lemma_xi_square(
        0x2042def740cbc01bd03583cf0100e593ba56470b9af68708d2c05d6490535nat,
        0xd69f4182ace9bc3164bdec31e8c3266dc0a4dbc7e97e75e8b7dca4bec96f7c7int,
        0x1cf369e40106c11e63fc5df58c31b2e985838631ebfa7a611c5b3c5cbec92faeint,
        0x22148a1c52fcb9051b53c29cd492ddcbb37ee6a30413b8aafd99b30a267b861bint,
        0xe5bb98fdd55e44449073c36363ee11adf8ae1532d0c9b46565d278c95230e2fint,
        0x17dd656a78f478af3de6a112a16063f1de6f182f8747c555c87fcd307e3b2652int,
    );
    assert(xi_power_is(0x4085bdee81978037a06b079e0201cb2774ac8e1735ed0e11a580bac920a6anat, 0x13b8d08c75a6d4c0d24c86669e53fcb0d3f4054fd7071d64a73c8b7d915877ecint, 0x2fbacad4f1e8f15e7bcd422542c0c7e3bcde305f0e8f8aab90ff9a60fc764ca4int));
    lemma_xi_square(
        0x4085bdee81978037a06b079e0201cb2774ac8e1735ed0e11a580bac920a6anat,
        0x13b8d08c75a6d4c0d24c86669e53fcb0d3f4054fd7071d64a73c8b7d915877ecint,
        0x2fbacad4f1e8f15e7bcd422542c0c7e3bcde305f0e8f8aab90ff9a60fc764ca4int,
        0x2ac54531de39589fa2d085999eb7d3e98552d007d8a020f02f70bfad2f4d70aint,
        0x17b8e2343cf2f93d9c16d9cca1cf17af1e32ce38eb87927f26a58337cd79edd7int,
        0xdb1beec25b707191439466822fc17ba6101ccea83c983356a4ce52290209c0dint,
    );
    assert(xi_power_is(0x810b7bdd032f006f40d60f3c0403964ee9591c2e6bda1c234b017592414d4nat, 0x1b57c091c2223c7616667443799dbded11a3c958fa743a1d187214d9ddf7e67aint, 0x1b637dd84b6e0e3228728cd045f82f74c20399d50793066ad499ca452041381aint));
    lemma_xi_square(
        0x810b7bdd032f006f40d60f3c0403964ee9591c2e6bda1c234b017592414d4nat,
        0x1b57c091c2223c7616667443799dbded11a3c958fa743a1d187214d9ddf7e67aint,
        0x1b637dd84b6e0e3228728cd045f82f74c20399d50793066ad499ca452041381aint,
        0x1f666a95a67f8296fd50d44a287065acf4c106fdb03ea9f02bb13933a76b663cint,
        0xa618aa1347aafc901015f02d2de19f5082a36c39191a4d1eb9cf879a76654daint,
        0x11f33e1993c9606401d1d1da1050c7b6ad72a406640595c974097fca0b38ac1bint,
    );
    assert(xi_power_is(0x10216f7ba065e00de81ac1e7808072c9dd2b2385cd7b438469602eb24829a8nat, 0x1504dff47204d2cdfc4f754755924bb7ec96d03a1ead051e401440ba00051162int, 0x23e67c332792c0c803a3a3b420a18f6d5ae5480cc80b2b92e812ff9416715836int));
    lemma_xi_next(0x10216f7ba065e00de81ac1e7808072c9dd2b2385cd7b438469602eb24829a8nat, 0x1504dff47204d2cdfc4f754755924bb7ec96d03a1ead051e401440ba00051162int, 0x23e67c332792c0c803a3a3b420a18f6d5ae5480cc80b2b92e812ff9416715836int);
    assert(xi_power_is(0x10216f7ba065e00de81ac1e7808072c9dd2b2385cd7b438469602eb24829a9nat, 0x818780c3703c7f8b236aaaa5cff10f12fe3ca4a12b4a2d5a441a2b160454c67int, 0x561189cadd238b212de4e9ef0b6ec00fa1c6eb34bf5036bc3db684ede963e57int));
    lemma_xi_square(
        0x10216f7ba065e00de81ac1e7808072c9dd2b2385cd7b438469602eb24829a9nat,
        0x818780c3703c7f8b236aaaa5cff10f12fe3ca4a12b4a2d5a441a2b160454c67int,
        0x561189cadd238b212de4e9ef0b6ec00fa1c6eb34bf5036bc3db684ede963e57int,
        0x3055c7f84db639a90ff2ff31920e6061ece4c441d360d8fb9ba227b4e7158513int,
        0x2b6a52c820eb1a2f8ab4e0023f432d5df9093197cbfaddb727a1239264ea52a0int,
        0x12e2b085d16d72e6938aebfec3bae98a9b452198461de626a8ae198e669b9cb1int,
    );
    assert(xi_power_is(0x2042def740cbc01bd03583cf0100e593ba56470b9af68708d2c05d64905352nat, 0x4eb75302ccb1f79853e1f2f52cb3303f3db92aa0765fb4474010422822b3273int, 0x25c5610ba2dae5cd2715d7fd8775d315368a43308c3bcc4d515c331ccd373962int));
    lemma_xi_next(0x2042def740cbc01bd03583cf0100e593ba56470b9af68708d2c05d64905352nat, 0x4eb75302ccb1f79853e1f2f52cb3303f3db92aa0765fb4474010422822b3273int, 0x25c5610ba2dae5cd2715d7fd8775d315368a43308c3bcc4d515c331ccd373962int);
    assert(xi_power_is(0x2042def740cbc01bd03583cf0100e593ba56470b9af68708d2c05d64905353nat, 0x681bda5f0493578881940ac61aef80e5c2de4c9b65a091ac2acf219c64d8ca9int, 0x61db974be21d28bdad0cf1b8b663433ba2e05651a63a01fab5afb85cdb149f4int));
    lemma_xi_square(
        0x2042def740cbc01bd03583cf0100e593ba56470b9af68708d2c05d64905353nat,
        0x681bda5f0493578881940ac61aef80e5c2de4c9b65a091ac2acf219c64d8ca9int,
        0x61db974be21d28bdad0cf1b8b663433ba2e05651a63a01fab5afb85cdb149f4int,
        0x11010dd38be766545f349005345d790a207ca8d60a284f8c02017d627eb5eb9cint,
        0x887c6fede69834923c246dcbb29f2aa548b980751a60aa48036e7f201d1b4c3int,
        0x19829bcc49e1bd40b366726fe71c30523692d7533b3688159573f99f9826e521int,
    );
    assert(xi_power_is(0x4085bdee81978037a06b079e0201cb2774ac8e1735ed0e11a580bac920a6a6nat, 0x87946d4ad7de30b3b7249287933865fcbf110ceb88244e781ca95707ce436d9int, 0x2a0e925b291da57ae7c9f294cb70846d5a444150dfb459deec7672857d0ccfbint));
    lemma_xi_next(0x4085bdee81978037a06b079e0201cb2774ac8e1735ed0e11a580bac920a6a6nat, 0x87946d4ad7de30b3b7249287933865fcbf110ceb88244e781ca95707ce436d9int, 0x2a0e925b291da57ae7c9f294cb70846d5a444150dfb459deec7672857d0ccfbint);
    assert(xi_power_is(0x4085bdee81978037a06b079e0201cb2774ac8e1735ed0e11a580bac920a6a7nat, 0x193e45e185a980e3b037ad8c749758b9be53e89e06275bf865374db533b8235fint, 0x20217927f49e90205dd3e19c2ba2d0dd4eb7758c3657b774e6cd35db933b6bacint));
    lemma_xi_square(
        0x4085bdee81978037a06b079e0201cb2774ac8e1735ed0e11a580bac920a6a7nat,
        0x193e45e185a980e3b037ad8c749758b9be53e89e06275bf865374db533b8235fint,
        0x20217927f49e90205dd3e19c2ba2d0dd4eb7758c3657b774e6cd35db933b6bacint,
        0x1f94b94310652a7dd3916106e0ad8226ce20a0d631686240f7be816b0aa57756int,
        0x283ce4e821410d20b0f79ea109f11032d0f752dc123723fe311c88218213b373int,
        0x243fb43599a305cc799626a0573f8a170714f479fc6b7fb4e0dc9adf8bea5441int,
    );
    assert(xi_power_is(0x810b7bdd032f006f40d60f3c0403964ee9591c2e6bda1c234b017592414d4enat, 0x27bc22cdd055bd86daea081c583dca5194aab88b87a308d002c28560610ec12aint, 0x181b19f852146b6f3adc078a2cfdbbd076a87e62906534dc8598a9a83f57ab3bint));
    lemma_xi_square(
        0x810b7bdd032f006f40d60f3c0403964ee9591c2e6bda1c234b017592414d4enat,
        0x27bc22cdd055bd86daea081c583dca5194aab88b87a308d002c28560610ec12aint,
        0x181b19f852146b6f3adc078a2cfdbbd076a87e62906534dc8598a9a83f57ab3bint,
        0x25a7d452ab6986ce643e3d5c540b6a2dfa612b8a786ce13177c7d21b4d36d3cdint,
        0x79f6abc031c07b441ffd4dc22c12509d1dc680853f5b2562b0a41bed0800536int,
        0x9bf98786c191c8bbc7113eeb053054ad7782cc1d99488b377ce4a89c55bcd5fint,
    );
    assert(xi_power_is(0x10216f7ba065e00de81ac1e7808072c9dd2b2385cd7b438469602eb24829a9cnat, 0x1e086996a84d7f1a223e6880314a45242884c38224772edb4cbd905c7cb6ce97int, 0x137f30f0d832391778e227dd60a60a95aef05983b3291166ef9c95138ab79abeint));
    lemma_xi_square(
        0x10216f7ba065e00de81ac1e7808072c9dd2b2385cd7b438469602eb24829a9cnat,
        0x1e086996a84d7f1a223e6880314a45242884c38224772edb4cbd905c7cb6ce97int,
        0x137f30f0d832391778e227dd60a60a95aef05983b3291166ef9c95138ab79abeint,
        0x5f2ab4827b01f3c0256cb6869e70142be5d655667f3f9b2d0f5a5eee0b6b55aint,
        0x950f1c4a6f4d54c40aba79b0b93857238e2b10d94a0a40249045140d25f57f9int,
        0x150afb29509e8d91f384ec005ad06def68f2f9d0f7046a6bc11e298572966258int,
    );
    assert(xi_power_is(0x2042def740cbc01bd03583cf0100e593ba56470b9af68708d2c05d649053538nat, 0x2d0607f661ecea1979fb6983dfd4d42e1cfc1eda3bc5203dc411e0c4e6d45aa8int, 0x2a15f652a13d1b23e709d800b5a0dbded1e5f3a1ee08d4d7823c530ae52cc4b0int));
    lemma_xi_square(
        0x2042def740cbc01bd03583cf0100e593ba56470b9af68708d2c05d649053538nat,
        0x2d0607f661ecea1979fb6983dfd4d42e1cfc1eda3bc5203dc411e0c4e6d45aa8int,
        0x2a15f652a13d1b23e709d800b5a0dbded1e5f3a1ee08d4d7823c530ae52cc4b0int,
        0x244f7abf74501658c0ae4940727496c39a2538df58451df9077738404d84b4e2int,
        0x1c3c536a3732f54cccafaffc1f00efaa07d1f4dc913f8ca4eecfb795cf44e3b2int,
        0x107ec8010fb5fd2566c53dfc970a88f322374967ca25a85644203a31010073a8int,
    );
    assert(xi_power_is(0x4085bdee81978037a06b079e0201cb2774ac8e1735ed0e11a580bac920a6a70nat, 0x81327553d1d210bf3fe99445373a71992534402c705915418a780aa7e3fd130int, 0x20fd90021f6bfa4acd8a7bf92e1511e6446e92cf944b50ac884074620200e750int));
    lemma_xi_square(
        0x4085bdee81978037a06b079e0201cb2774ac8e1735ed0e11a580bac920a6a70nat,
        0x81327553d1d210bf3fe99445373a71992534402c705915418a780aa7e3fd130int,
        0x20fd90021f6bfa4acd8a7bf92e1511e6446e92cf944b50ac884074620200e750int,
        0x2e11854eadbb53f59d2890b29764e21b2b73ac017c0e13c9b5d6867690483159int,
        0x1b115df28f44c036204f94a6ea63d6d5ec2a40f92fc9488365013e2cfdb975a9int,
        0x1bda071d93b124c40523588f4d9014a9d71fe80fda2c3773c4999e46cca05d19int,
    );
    assert(xi_power_is(0x810b7bdd032f006f40d60f3c0403964ee9591c2e6bda1c234b017592414d4e0nat, 0x1300275c1e7693bf7cd8fc0bad010b453f496b084c44cb4650d54849928ebbb0int, 0x74fbfc84630a95e51f66b68199ed0f616be658e4be6a45a4d12b076c0c3bcebint));
    lemma_xi_next(0x810b7bdd032f006f40d60f3c0403964ee9591c2e6bda1c234b017592414d4e0nat, 0x1300275c1e7693bf7cd8fc0bad010b453f496b084c44cb4650d54849928ebbb0int, 0x74fbfc84630a95e51f66b68199ed0f616be658e4be6a45a4d12b076c0c3bcebint);
    assert(xi_power_is(0x810b7bdd032f006f40d60f3c0403964ee9591c2e6bda1c234b017592414d4e1nat, 0x1284b71c2865a7dfe8b99fdd76e68b605c521e08292f2176d60b35dadcc9e470int, 0x246996f3b4fae7e6a6327cfe12150b8e747992778eeec7e5ca5cf05f80f362acint));
}

/// `xi^((q - 1) / 6)` is the first coefficient of the Frobenius map of Fq12.
pub proof fn lemma_xi_power()
    ensures
        xi_power_is(
            sixth(),
            0x1284b71c2865a7dfe8b99fdd76e68b605c521e08292f2176d60b35dadcc9e470int,
            0x246996f3b4fae7e6a6327cfe12150b8e747992778eeec7e5ca5cf05f80f362acint,
        ),
{
    lemma_xi_power_0();
    lemma_xi_power_1();
    lemma_xi_power_2();
    lemma_xi_power_3();
    lemma_xi_power_4();
    lemma_xi_power_5();
    lemma_xi_power_6();
    lemma_xi_power_7();
}

} // verus!
