//! The Miller loop on the model: for a list of pairs of a point of G1 and the
//! lines of a point of G2, the product over the pairs of the Miller values.

use crate::model::curve::{lines_before, naf, LineValue};
use crate::model::dodecic::{lemma_mul_laws12, Fq12Value};
use vstd::prelude::*;

verus! {

/// What the loop reads of one pair: whether the pair takes part, the
/// coordinates of the point of G1 and the lines of the point of G2.
pub struct PairValue {
    pub active: bool,
    pub x: int,
    pub y: int,
    pub lines: Seq<LineValue>,
}

impl Fq12Value {
    /// The product with a line at the point `(x, y)` of G1: the line's `c0`
    /// scaled by `y`, its `c3` by `x`.
    pub open spec fn untwist(self, l: LineValue, x: int, y: int) -> Self {
        self.mul_by_034(l.c0.scale(y), l.c3.scale(x), l.c4)
    }
}

/// `f` times line number `pos` of every active pair, in the order of the
/// list.
pub open spec fn untwist_all(f: Fq12Value, pairs: Seq<PairValue>, pos: int) -> Fq12Value
    decreases pairs.len(),
{
    if pairs.len() == 0 {
        f
    } else {
        let g = untwist_all(f, pairs.drop_last(), pos);
        let p = pairs.last();
        if p.active {
            g.untwist(p.lines[pos], p.x, p.y)
        } else {
            g
        }
    }
}

/// The accumulator after the first `n` steps, which take the digits
/// `63, ..., 64 - n` of the loop scalar: every step but the first squares,
/// every step takes one line of each pair, and one more where the digit is 1
/// or -1.
pub open spec fn miller_state(pairs: Seq<PairValue>, n: nat) -> Fq12Value
    decreases n,
{
    if n == 0 {
        Fq12Value::one()
    } else {
        let f = miller_state(pairs, (n - 1) as nat);
        let pos = lines_before((n - 1) as nat) as int;
        let f1 = if n == 1 {
            f
        } else {
            f.square()
        };
        let f2 = untwist_all(f1, pairs, pos);
        if naf(64 - n) == 1 || naf(64 - n) == -1 {
            untwist_all(f2, pairs, pos + 1)
        } else {
            f2
        }
    }
}

/// The value of the Miller loop: the 64 steps, then the two last lines of
/// each pair.
pub open spec fn miller_loop(pairs: Seq<PairValue>) -> Fq12Value {
    let f = miller_state(pairs, 64);
    untwist_all(untwist_all(f, pairs, 89), pairs, 90)
}

/// A factor of the accumulator goes through the lines.
pub proof fn lemma_untwist_factor(x: Fq12Value, y: Fq12Value, s: Seq<PairValue>, pos: int)
    ensures
        untwist_all(x.mul(y), s, pos) == untwist_all(x, s, pos).mul(y),
    decreases s.len(),
{
    if s.len() > 0 {
        let rest = s.drop_last();
        let p = s.last();
        lemma_untwist_factor(x, y, rest, pos);
        if p.active {
            let g = untwist_all(x, rest, pos);
            let l = Fq12Value::sparse(
                p.lines[pos].c0.scale(p.y),
                p.lines[pos].c3.scale(p.x),
                p.lines[pos].c4,
            );
            // (g y) l = g (y l) = g (l y) = (g l) y
            lemma_mul_laws12(g, y, l);
            lemma_mul_laws12(y, l, l);
            lemma_mul_laws12(g, l, y);
        }
    }
}

/// The lines of one more pair, taken apart from those of the others.
pub proof fn lemma_untwist_push(
    a: Fq12Value,
    b: Fq12Value,
    s: Seq<PairValue>,
    p: PairValue,
    pos: int,
)
    ensures
        untwist_all(a.mul(b), s.push(p), pos) == untwist_all(a, s, pos).mul(
            untwist_all(b, seq![p], pos),
        ),
{
    let all = s.push(p);
    assert(all.drop_last() =~= s);
    assert(all.last() == p);
    let one = seq![p];
    assert(one.drop_last() =~= Seq::<PairValue>::empty());
    assert(one.last() == p);
    assert(untwist_all(b, one.drop_last(), pos) == b);
    lemma_untwist_factor(a, b, s, pos);
    if p.active {
        let g = untwist_all(a, s, pos);
        let l = Fq12Value::sparse(
            p.lines[pos].c0.scale(p.y),
            p.lines[pos].c3.scale(p.x),
            p.lines[pos].c4,
        );
        lemma_mul_laws12(g, b, l);
    }
}

/// The square of a product is the product of the squares.
pub proof fn lemma_square_product(x: Fq12Value, y: Fq12Value)
    ensures
        x.mul(y).square() == x.square().mul(y.square()),
{
    // (x y)(x y) = x (y (x y)) = x ((y x) y) = x ((x y) y) = x (x (y y)) = (x x)(y y)
    lemma_mul_laws12(x, y, x.mul(y));
    lemma_mul_laws12(y, x, y);
    lemma_mul_laws12(x, y, y);
    lemma_mul_laws12(x, x, y.mul(y));
}

/// The accumulator of a list with one more pair is the product of the
/// accumulators of the list and of the pair.
#[verifier::rlimit(50)]
pub proof fn lemma_state_push(s: Seq<PairValue>, p: PairValue, n: nat)
    ensures
        miller_state(s.push(p), n) == miller_state(s, n).mul(miller_state(seq![p], n)),
    decreases n,
{
    let one = Fq12Value::one();
    if n == 0 {
        crate::model::final_exp::lemma_units12();
    } else {
        let m = (n - 1) as nat;
        lemma_state_push(s, p, m);
        let f1 = miller_state(s, m);
        let f2 = miller_state(seq![p], m);
        let pos = lines_before(m) as int;
        let g1 = if n == 1 {
            f1
        } else {
            f1.square()
        };
        let g2 = if n == 1 {
            f2
        } else {
            f2.square()
        };
        lemma_square_product(f1, f2);
        lemma_untwist_push(g1, g2, s, p, pos);
        let h1 = untwist_all(g1, s, pos);
        let h2 = untwist_all(g2, seq![p], pos);
        lemma_untwist_push(h1, h2, s, p, pos + 1);
    }
}

/// The Miller loop of a list with one more pair is the product of the
/// Miller loops of the list and of the pair.
pub proof fn lemma_loop_push(s: Seq<PairValue>, p: PairValue)
    ensures
        miller_loop(s.push(p)) == miller_loop(s).mul(miller_loop(seq![p])),
{
    lemma_state_push(s, p, 64);
    let f1 = miller_state(s, 64);
    let f2 = miller_state(seq![p], 64);
    lemma_untwist_push(f1, f2, s, p, 89);
    lemma_untwist_push(untwist_all(f1, s, 89), untwist_all(f2, seq![p], 89), s, p, 90);
}

/// The lines leave a canonical accumulator canonical.
pub proof fn lemma_untwist_canonical(f: Fq12Value, s: Seq<PairValue>, pos: int)
    requires
        f.canonical(),
    ensures
        untwist_all(f, s, pos).canonical(),
    decreases s.len(),
{
    if s.len() > 0 {
        lemma_untwist_canonical(f, s.drop_last(), pos);
        let g = untwist_all(f, s.drop_last(), pos);
        lemma_mul_laws12(g, g, g);
        let p = s.last();
        lemma_mul_laws12(
            g,
            Fq12Value::sparse(
                p.lines[pos].c0.scale(p.y),
                p.lines[pos].c3.scale(p.x),
                p.lines[pos].c4,
            ),
            g,
        );
    }
}

/// The value of the Miller loop is canonical.
pub proof fn lemma_loop_canonical(s: Seq<PairValue>)
    ensures
        miller_loop(s).canonical(),
{
    lemma_state_canonical(s, 64);
    lemma_untwist_canonical(miller_state(s, 64), s, 89);
    lemma_untwist_canonical(untwist_all(miller_state(s, 64), s, 89), s, 90);
}

/// The accumulator is canonical.
#[verifier::rlimit(60)]
pub proof fn lemma_state_canonical(s: Seq<PairValue>, n: nat)
    ensures
        miller_state(s, n).canonical(),
    decreases n,
{
    if n == 0 {
        crate::model::final_exp::lemma_one_canonical();
        assert(miller_state(s, 0) == Fq12Value::one());
    } else {
        let m = (n - 1) as nat;
        lemma_state_canonical(s, m);
        let f = miller_state(s, m);
        let pos = lines_before(m) as int;
        if n == 1 {
            lemma_untwist_canonical(f, s, pos);
            let f2 = untwist_all(f, s, pos);
            lemma_untwist_canonical(f2, s, pos + 1);
            if naf(64 - n) == 1 || naf(64 - n) == -1 {
                assert(miller_state(s, n) == untwist_all(f2, s, pos + 1));
            } else {
                assert(miller_state(s, n) == f2);
            }
        } else {
            lemma_mul_laws12(f, f, f);
            let f1 = f.square();
            assert(f1 == f.mul(f));
            lemma_untwist_canonical(f1, s, pos);
            let f2 = untwist_all(f1, s, pos);
            lemma_untwist_canonical(f2, s, pos + 1);
            if naf(64 - n) == 1 || naf(64 - n) == -1 {
                assert(miller_state(s, n) == untwist_all(f2, s, pos + 1));
            } else {
                assert(miller_state(s, n) == f2);
            }
        }
    }
}

} // verus!
