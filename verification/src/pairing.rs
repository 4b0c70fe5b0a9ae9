//! The Miller loop of the optimal ate pairing.

use crate::fq12::Fq12;
use crate::g1::G1Affine;
use crate::g2::G2PairingAffine;
use crate::model::curve::{lemma_lines_before, lemma_lines_grow, lines_before, naf};
use crate::model::pairing::{miller_loop, miller_state, untwist_all, PairValue};
use crate::params::SIX_U_PLUS_2_NAF;
use vstd::prelude::*;

verus! {

/// The optimal ate pairing on BN254: the Miller loop here, and the final
/// exponentiation on its result in Fq12.
pub struct AteParing;

/// What the loop reads of a pair. A pair with the point at infinity on
/// either side takes no part.
pub open spec fn pair_value(p: (G1Affine, G2PairingAffine)) -> PairValue {
    PairValue {
        active: !p.0.is_infinity && !p.1.is_infinity,
        x: p.0.x@,
        y: p.0.y@,
        lines: p.1.lines(),
    }
}

/// What the loop reads of a list of pairs.
pub open spec fn pair_values(s: Seq<(G1Affine, G2PairingAffine)>) -> Seq<PairValue> {
    Seq::new(s.len(), |i: int| pair_value(s[i]))
}

/// Every pair of the list is well formed.
pub open spec fn pairs_wf(s: Seq<(G1Affine, G2PairingAffine)>) -> bool {
    forall|i: int| 0 <= i < s.len() ==> (#[trigger] s[i]).0.wf() && s[i].1.wf()
}

/// `acc` times line number `pos` of every pair that takes part.
fn untwist_pairs(acc: Fq12, pairs: &[(G1Affine, G2PairingAffine)], pos: usize) -> (r: Fq12)
    requires
        acc.wf(),
        pairs_wf(pairs@),
        pos < 91,
    ensures
        r.wf(),
        r@ == untwist_all(acc@, pair_values(pairs@), pos as int),
{
    let mut res = acc;
    let mut j: usize = 0;
    proof {
        assert(pair_values(pairs@).take(0) =~= Seq::empty());
    }
    while j < pairs.len()
        invariant
            j <= pairs.len(),
            pairs_wf(pairs@),
            pos < 91,
            res.wf(),
            res@ == untwist_all(acc@, pair_values(pairs@).take(j as int), pos as int),
        decreases pairs.len() - j,
    {
        let p = pairs[j].0;
        let q = &pairs[j].1;
        proof {
            let all = pair_values(pairs@);
            assert(all.take(j + 1).drop_last() =~= all.take(j as int));
            assert(all.take(j + 1).last() == pair_value(pairs@[j as int]));
            assert(pairs@[j as int].1.wf());
        }
        if !p.is_identity() && !q.is_identity() {
            let c = q.coeffs[pos];
            res = res.untwist(c, p);
        }
        j = j + 1;
    }
    proof {
        assert(pair_values(pairs@).take(pairs@.len() as int) =~= pair_values(pairs@));
    }
    res
}

impl AteParing {
    /// The product of the Miller values of the pairs, without the pairs that
    /// hold a point at infinity: from one on, for each digit of `6u + 2` below
    /// the highest, a square but at the first digit, a line of each pair,
    /// and one more line of each pair where the digit is not zero; at the end
    /// the two last lines of each pair.
    pub fn multi_miller_loop(pairs: &[(G1Affine, G2PairingAffine)]) -> (r: Fq12)
        requires
            pairs_wf(pairs@),
        ensures
            r.wf(),
            r@ == miller_loop(pair_values(pairs@)),
    {
        let mut acc = Fq12::one();
        let mut pos: usize = 0;
        let ghost all = pair_values(pairs@);
        proof {
            lemma_lines_before();
        }

        let mut i: usize = 64;
        while i >= 1
            invariant
                i <= 64,
                pairs_wf(pairs@),
                all == pair_values(pairs@),
                acc.wf(),
                acc@ == miller_state(all, (64 - i) as nat),
                pos == lines_before((64 - i) as nat),
                lines_before(64) == 89,
            decreases i,
        {
            proof {
                lemma_lines_grow((65 - i) as nat, 64);
                assert(naf(64 - (65 - i)) == SIX_U_PLUS_2_NAF[i - 1] as int);
            }
            if i != 64 {
                acc.square_assign();
            }
            acc = untwist_pairs(acc, pairs, pos);
            pos = pos + 1;
            let x = SIX_U_PLUS_2_NAF[i - 1];
            if x == 1 || x == -1 {
                acc = untwist_pairs(acc, pairs, pos);
                pos = pos + 1;
            }
            i = i - 1;
        }

        acc = untwist_pairs(acc, pairs, pos);
        acc = untwist_pairs(acc, pairs, pos + 1);
        acc
    }
}

} // verus!
