//! The cyclotomic subgroup of Fq12, on which the squaring of Granger and
//! Scott is the square.
//!
//! An element is written as `A + B w + C w^2` over Fq4 = Fq2[s]/(s^2 - xi),
//! with `s = w^3`: `A = z0 + z1 s`, `B = z2 + z3 s` and `C = z4 + z5 s`. Its
//! adjugate is `(A^2 - s B C) + (s C^2 - A B) w + (B^2 - A C) w^2`, the
//! product of its two conjugates over Fq4. On the subgroup the adjugate is
//! the conjugate over Fq6, and the formula of the squaring follows.

use crate::model::dodecic::{lemma_reduce12, Fq12Value};
use crate::model::final_exp::fp4_square;
use crate::model::norm::{lemma_multiple_of_q, lemma_scaled_times};
use crate::model::quadratic::{
    lemma_canonical_equal2, lemma_eqv_minus2, lemma_eqv_plus2, lemma_eqv_times2,
    lemma_eqv_unary2, lemma_reduce2, lemma_times_distributes2, Fq2Value,
};
use crate::model::sextic::Fq6Value;
use vstd::prelude::*;

verus! {

/// The six coefficients in the order `z0, ..., z5`.
pub open spec fn coefficients(x: Fq12Value) -> (
    Fq2Value,
    Fq2Value,
    Fq2Value,
    Fq2Value,
    Fq2Value,
    Fq2Value,
) {
    (x.c0.c0, x.c1.c1, x.c1.c0, x.c0.c2, x.c0.c1, x.c1.c2)
}

/// The element with the coefficients `z0, ..., z5`.
pub open spec fn from_coefficients(
    z0: Fq2Value,
    z1: Fq2Value,
    z2: Fq2Value,
    z3: Fq2Value,
    z4: Fq2Value,
    z5: Fq2Value,
) -> Fq12Value {
    Fq12Value {
        c0: Fq6Value { c0: z0, c1: z4, c2: z3 },
        c1: Fq6Value { c0: z2, c1: z1, c2: z5 },
    }
}

/// The adjugate over Fq4, without reduction.
pub open spec fn adjugate(x: Fq12Value) -> Fq12Value {
    let (z0, z1, z2, z3, z4, z5) = coefficients(x);
    from_coefficients(
        z0.times(z0).plus(z1.times(z1).times_xi()).minus(
            z2.times(z5).plus(z3.times(z4)).times_xi(),
        ),
        z0.times(z1).plus(z0.times(z1)).minus(z2.times(z4)).minus(z3.times(z5).times_xi()),
        z4.times(z5).plus(z4.times(z5)).times_xi().minus(z0.times(z2)).minus(
            z1.times(z3).times_xi(),
        ),
        z4.times(z4).plus(z5.times(z5).times_xi()).minus(z0.times(z3)).minus(z1.times(z2)),
        z2.times(z2).plus(z3.times(z3).times_xi()).minus(z0.times(z4)).minus(
            z1.times(z5).times_xi(),
        ),
        z2.times(z3).plus(z2.times(z3)).minus(z0.times(z5)).minus(z1.times(z4)),
    )
}

/// The square in Fq4, without reduction.
proof fn lemma_fp4_square(a: Fq2Value, b: Fq2Value)
    ensures
        fp4_square(a, b).0.eqv(b.times(b).times_xi().plus(a.times(a))),
        fp4_square(a, b).1.eqv(a.times(b).plus(a.times(b))),
        fp4_square(a, b).0.canonical(),
        fp4_square(a, b).1.canonical(),
{
    let t0 = a.square();
    let t1 = b.square();
    lemma_reduce2(a.times(a));
    lemma_reduce2(b.times(b));
    lemma_eqv_unary2(t1, b.times(b));
    lemma_eqv_plus2(t1.mul_by_nonres(), t0, b.times(b).times_xi(), a.times(a));
    lemma_reduce2(t1.mul_by_nonres().plus(t0));
    crate::model::quadratic::lemma_cross2(a, b, a, b);
    lemma_times_distributes2(a, b, a);
    lemma_reduce2(a.times(b).plus(b.times(a)));
}

/// Three times `t` less twice `z`, and three times `t` and twice `z`, as the
/// squaring computes them.
proof fn lemma_triple(t: Fq2Value, z: Fq2Value, r: Fq2Value)
    requires
        t.eqv(r),
    ensures
        t.sub(z).double().add(t).eqv(r.plus(r).plus(r).minus(z.plus(z))),
        t.add(z).double().add(t).eqv(r.plus(r).plus(r).plus(z.plus(z))),
        t.sub(z).double().add(t).canonical(),
        t.add(z).double().add(t).canonical(),
{
    lemma_eqv_minus2(t, z, r, z);
    lemma_eqv_plus2(t.sub(z), t.sub(z), r.minus(z), r.minus(z));
    lemma_eqv_plus2(t.sub(z).double(), t, r.minus(z).plus(r.minus(z)), r);
    lemma_reduce2(t.sub(z).double().plus(t));
    lemma_eqv_plus2(t, z, r, z);
    lemma_eqv_plus2(t.add(z), t.add(z), r.plus(z), r.plus(z));
    lemma_eqv_plus2(t.add(z).double(), t, r.plus(z).plus(r.plus(z)), r);
    lemma_reduce2(t.add(z).double().plus(t));
    assert(r.minus(z).plus(r.minus(z)).plus(r) == r.plus(r).plus(r).minus(z.plus(z)));
    assert(r.plus(z).plus(r.plus(z)).plus(r) == r.plus(r).plus(r).plus(z.plus(z)));
}

/// What is the same in the field but for twice a difference that is zero
/// in the field is the same in the field.
proof fn lemma_close(s: Fq2Value, c: Fq2Value, a: Fq2Value, b: Fq2Value)
    requires
        a.eqv(b),
        s == c.minus(a.minus(b).plus(a.minus(b))),
    ensures
        s.eqv(c),
{
    lemma_eqv_minus2(a, b, b, b);
    lemma_eqv_plus2(a.minus(b), a.minus(b), b.minus(b), b.minus(b));
    lemma_eqv_minus2(c, a.minus(b).plus(a.minus(b)), c, b.minus(b).plus(b.minus(b)));
    assert(c.minus(b.minus(b).plus(b.minus(b))) == c);
}

/// The coefficient `z0` of the square, from that of the squaring and the
/// difference of the adjugate and the conjugate.
proof fn lemma_slot0(x: Fq12Value)
    ensures
        ({
            let (z0, z1, z2, z3, z4, z5) = coefficients(x);
            let adj = adjugate(x);
            let sq = x.times(x);
            let cj = x.conj();
            let ra0 = z1.times(z1).times_xi().plus(z0.times(z0));
            let ra1 = z0.times(z1).plus(z0.times(z1));
            let rb0 = z3.times(z3).times_xi().plus(z2.times(z2));
            let rb1 = z2.times(z3).plus(z2.times(z3));
            let rc0 = z5.times(z5).times_xi().plus(z4.times(z4));
            let rc1 = z4.times(z5).plus(z4.times(z5));
            sq.c0.c0 == ra0.plus(ra0).plus(ra0).minus(z0.plus(z0)).minus(
                adj.c0.c0.minus(cj.c0.c0).plus(adj.c0.c0.minus(cj.c0.c0)),
            )
        }),
{
    lemma_square_coefficients(x);
}

/// The coefficient `z1` of the square, from that of the squaring and the
/// difference of the adjugate and the conjugate.
proof fn lemma_slot1(x: Fq12Value)
    ensures
        ({
            let (z0, z1, z2, z3, z4, z5) = coefficients(x);
            let adj = adjugate(x);
            let sq = x.times(x);
            let cj = x.conj();
            let ra0 = z1.times(z1).times_xi().plus(z0.times(z0));
            let ra1 = z0.times(z1).plus(z0.times(z1));
            let rb0 = z3.times(z3).times_xi().plus(z2.times(z2));
            let rb1 = z2.times(z3).plus(z2.times(z3));
            let rc0 = z5.times(z5).times_xi().plus(z4.times(z4));
            let rc1 = z4.times(z5).plus(z4.times(z5));
            sq.c1.c1 == ra1.plus(ra1).plus(ra1).plus(z1.plus(z1)).minus(
                adj.c1.c1.minus(cj.c1.c1).plus(adj.c1.c1.minus(cj.c1.c1)),
            )
        }),
{
    lemma_square_coefficients(x);
}

/// The coefficient `z2` of the square, from that of the squaring and the
/// difference of the adjugate and the conjugate.
proof fn lemma_slot2(x: Fq12Value)
    ensures
        ({
            let (z0, z1, z2, z3, z4, z5) = coefficients(x);
            let adj = adjugate(x);
            let sq = x.times(x);
            let cj = x.conj();
            let ra0 = z1.times(z1).times_xi().plus(z0.times(z0));
            let ra1 = z0.times(z1).plus(z0.times(z1));
            let rb0 = z3.times(z3).times_xi().plus(z2.times(z2));
            let rb1 = z2.times(z3).plus(z2.times(z3));
            let rc0 = z5.times(z5).times_xi().plus(z4.times(z4));
            let rc1 = z4.times(z5).plus(z4.times(z5));
            sq.c1.c0 == rc1.times_xi().plus(rc1.times_xi()).plus(rc1.times_xi()).plus(z2.plus(z2)).minus(
                adj.c1.c0.minus(cj.c1.c0).plus(adj.c1.c0.minus(cj.c1.c0)),
            )
        }),
{
    lemma_square_coefficients(x);
}

/// The coefficient `z3` of the square, from that of the squaring and the
/// difference of the adjugate and the conjugate.
proof fn lemma_slot3(x: Fq12Value)
    ensures
        ({
            let (z0, z1, z2, z3, z4, z5) = coefficients(x);
            let adj = adjugate(x);
            let sq = x.times(x);
            let cj = x.conj();
            let ra0 = z1.times(z1).times_xi().plus(z0.times(z0));
            let ra1 = z0.times(z1).plus(z0.times(z1));
            let rb0 = z3.times(z3).times_xi().plus(z2.times(z2));
            let rb1 = z2.times(z3).plus(z2.times(z3));
            let rc0 = z5.times(z5).times_xi().plus(z4.times(z4));
            let rc1 = z4.times(z5).plus(z4.times(z5));
            sq.c0.c2 == rc0.plus(rc0).plus(rc0).minus(z3.plus(z3)).minus(
                adj.c0.c2.minus(cj.c0.c2).plus(adj.c0.c2.minus(cj.c0.c2)),
            )
        }),
{
    lemma_square_coefficients(x);
}

/// The coefficient `z4` of the square, from that of the squaring and the
/// difference of the adjugate and the conjugate.
proof fn lemma_slot4(x: Fq12Value)
    ensures
        ({
            let (z0, z1, z2, z3, z4, z5) = coefficients(x);
            let adj = adjugate(x);
            let sq = x.times(x);
            let cj = x.conj();
            let ra0 = z1.times(z1).times_xi().plus(z0.times(z0));
            let ra1 = z0.times(z1).plus(z0.times(z1));
            let rb0 = z3.times(z3).times_xi().plus(z2.times(z2));
            let rb1 = z2.times(z3).plus(z2.times(z3));
            let rc0 = z5.times(z5).times_xi().plus(z4.times(z4));
            let rc1 = z4.times(z5).plus(z4.times(z5));
            sq.c0.c1 == rb0.plus(rb0).plus(rb0).minus(z4.plus(z4)).minus(
                adj.c0.c1.minus(cj.c0.c1).plus(adj.c0.c1.minus(cj.c0.c1)),
            )
        }),
{
    lemma_square_coefficients(x);
}

/// The coefficient `z5` of the square, from that of the squaring and the
/// difference of the adjugate and the conjugate.
proof fn lemma_slot5(x: Fq12Value)
    ensures
        ({
            let (z0, z1, z2, z3, z4, z5) = coefficients(x);
            let adj = adjugate(x);
            let sq = x.times(x);
            let cj = x.conj();
            let ra0 = z1.times(z1).times_xi().plus(z0.times(z0));
            let ra1 = z0.times(z1).plus(z0.times(z1));
            let rb0 = z3.times(z3).times_xi().plus(z2.times(z2));
            let rb1 = z2.times(z3).plus(z2.times(z3));
            let rc0 = z5.times(z5).times_xi().plus(z4.times(z4));
            let rc1 = z4.times(z5).plus(z4.times(z5));
            sq.c1.c2 == rb1.plus(rb1).plus(rb1).plus(z5.plus(z5)).minus(
                adj.c1.c2.minus(cj.c1.c2).plus(adj.c1.c2.minus(cj.c1.c2)),
            )
        }),
{
    lemma_square_coefficients(x);
}

/// The coefficients of the square, without reduction.
proof fn lemma_square_coefficients(x: Fq12Value)
    ensures
        ({
            let (z0, z1, z2, z3, z4, z5) = coefficients(x);
            let s = x.times(x);
            &&& s.c0.c0 == z0.times(z0).plus(z3.times(z4).plus(z3.times(z4)).times_xi()).plus(
                z2.times(z5).plus(z1.times(z1)).plus(z2.times(z5)).times_xi(),
            )
            &&& s.c0.c1 == z0.times(z4).plus(z0.times(z4)).plus(z3.times(z3).times_xi()).plus(
                z2.times(z2).plus(z1.times(z5).plus(z1.times(z5)).times_xi()),
            )
            &&& s.c0.c2 == z0.times(z3).plus(z4.times(z4)).plus(z0.times(z3)).plus(
                z1.times(z2).plus(z1.times(z2)).plus(z5.times(z5).times_xi()),
            )
            &&& s.c1.c0 == z0.times(z2).plus(z4.times(z5).plus(z1.times(z3)).times_xi()).plus(
                z0.times(z2).plus(z1.times(z3).plus(z4.times(z5)).times_xi()),
            )
            &&& s.c1.c1 == z0.times(z1).plus(z2.times(z4)).plus(z3.times(z5).times_xi()).plus(
                z0.times(z1).plus(z2.times(z4)).plus(z3.times(z5).times_xi()),
            )
            &&& s.c1.c2 == z0.times(z5).plus(z1.times(z4)).plus(z2.times(z3)).plus(
                z2.times(z3).plus(z1.times(z4)).plus(z0.times(z5)),
            )
        }),
{
    let (z0, z1, z2, z3, z4, z5) = coefficients(x);
    lemma_times_distributes2(z0, z1, z0);
    lemma_times_distributes2(z0, z2, z0);
    lemma_times_distributes2(z0, z3, z0);
    lemma_times_distributes2(z0, z4, z0);
    lemma_times_distributes2(z0, z5, z0);
    lemma_times_distributes2(z1, z2, z0);
    lemma_times_distributes2(z1, z3, z0);
    lemma_times_distributes2(z1, z4, z0);
    lemma_times_distributes2(z1, z5, z0);
    lemma_times_distributes2(z2, z3, z0);
    lemma_times_distributes2(z2, z4, z0);
    lemma_times_distributes2(z2, z5, z0);
    lemma_times_distributes2(z3, z4, z0);
    lemma_times_distributes2(z3, z5, z0);
    lemma_times_distributes2(z4, z5, z0);
}

/// Where the adjugate of an element is its conjugate, the squaring of
/// Granger and Scott gives the square.
#[verifier::rlimit(50)]
pub proof fn lemma_granger_scott(x: Fq12Value)
    requires
        x.canonical(),
        x.conj().eqv(adjugate(x)),
    ensures
        x.cyclotomic_square() == x.square(),
{
    reveal(Fq12Value::cyclotomic_square);
    let (z0, z1, z2, z3, z4, z5) = coefficients(x);
    let adj = adjugate(x);
    let sq = x.times(x);
    let out = x.cyclotomic_square();
    lemma_reduce12(sq);
    lemma_square_coefficients(x);
    lemma_fp4_square(z0, z1);
    lemma_fp4_square(z2, z3);
    lemma_fp4_square(z4, z5);
    let (a0, a1) = fp4_square(z0, z1);
    let (b0, b1) = fp4_square(z2, z3);
    let (c0, c1) = fp4_square(z4, z5);
    let ra0 = z1.times(z1).times_xi().plus(z0.times(z0));
    let ra1 = z0.times(z1).plus(z0.times(z1));
    let rb0 = z3.times(z3).times_xi().plus(z2.times(z2));
    let rb1 = z2.times(z3).plus(z2.times(z3));
    let rc0 = z5.times(z5).times_xi().plus(z4.times(z4));
    let rc1 = z4.times(z5).plus(z4.times(z5));
    let n1 = c1.mul_by_nonres();
    lemma_eqv_unary2(c1, rc1);
    lemma_triple(a0, z0, ra0);
    lemma_triple(a1, z1, ra1);
    lemma_triple(b0, z4, rb0);
    lemma_triple(b1, z5, rb1);
    lemma_triple(c0, z3, rc0);
    lemma_triple(n1, z2, rc1.times_xi());
    let cj = x.conj();
    lemma_slot0(x);
    lemma_slot1(x);
    lemma_slot2(x);
    lemma_slot3(x);
    lemma_slot4(x);
    lemma_slot5(x);
    lemma_close(sq.c0.c0, ra0.plus(ra0).plus(ra0).minus(z0.plus(z0)), adj.c0.c0, cj.c0.c0);
    lemma_close(sq.c1.c1, ra1.plus(ra1).plus(ra1).plus(z1.plus(z1)), adj.c1.c1, cj.c1.c1);
    lemma_close(
        sq.c1.c0,
        rc1.times_xi().plus(rc1.times_xi()).plus(rc1.times_xi()).plus(z2.plus(z2)),
        adj.c1.c0,
        cj.c1.c0,
    );
    lemma_close(sq.c0.c2, rc0.plus(rc0).plus(rc0).minus(z3.plus(z3)), adj.c0.c2, cj.c0.c2);
    lemma_close(sq.c0.c1, rb0.plus(rb0).plus(rb0).minus(z4.plus(z4)), adj.c0.c1, cj.c0.c1);
    lemma_close(sq.c1.c2, rb1.plus(rb1).plus(rb1).plus(z5.plus(z5)), adj.c1.c2, cj.c1.c2);
    lemma_canonical_equal2(out.c0.c0, sq.c0.c0.reduce());
    lemma_canonical_equal2(out.c0.c1, sq.c0.c1.reduce());
    lemma_canonical_equal2(out.c0.c2, sq.c0.c2.reduce());
    lemma_canonical_equal2(out.c1.c0, sq.c1.c0.reduce());
    lemma_canonical_equal2(out.c1.c1, sq.c1.c1.reduce());
    lemma_canonical_equal2(out.c1.c2, sq.c1.c2.reduce());
}

/// The image under the fourth Frobenius map, without reduction: the
/// coefficients times powers of a third root of one.
pub open spec fn twisted4(x: Fq12Value) -> Fq12Value {
    Fq12Value {
        c0: Fq6Value {
            c0: x.c0.c0,
            c1: x.c0.c1.scaled(0x59e26bcea0d48bacd4f263f1acdb5c4f5763473177fffffeint),
            c2: x.c0.c2.scaled(0x30644e72e131a0295e6dd9e7e0acccb0c28f069fbb966e3de4bd44e5607cfd48int),
        },
        c1: Fq6Value {
            c0: x.c1.c0.scaled(0x30644e72e131a0295e6dd9e7e0acccb0c28f069fbb966e3de4bd44e5607cfd48int),
            c1: x.c1.c1.scaled(0x10fdac342d9d118ea05932d36365b92ed50fca0c8e8d0801badbc7e7fc04587928fec9e6bff155ff87c001a929107d1b48c37fb6ff060570int),
            c2: x.c1.c2.scaled(0x925c4b8763cbf9c379f1713a80eaeff4fc9e8721d5dc20acbb83d93947d3847c722a42415b28b3150b7353ba54a63f51b1f4ed2c6b458ce66d95dcc58576440int),
        },
    }
}

/// The image under the eighth Frobenius map, without reduction.
pub open spec fn twisted8(x: Fq12Value) -> Fq12Value {
    Fq12Value {
        c0: Fq6Value {
            c0: x.c0.c0,
            c1: x.c0.c1.scaled(0x30644e72e131a0295e6dd9e7e0acccb0c28f069fbb966e3de4bd44e5607cfd48int),
            c2: x.c0.c2.scaled(0x59e26bcea0d48bacd4f263f1acdb5c4f5763473177fffffeint),
        },
        c1: Fq6Value {
            c0: x.c1.c0.scaled(0x59e26bcea0d48bacd4f263f1acdb5c4f5763473177fffffeint),
            c1: x.c1.c1.scaled(0x10fdac342d9d118ea05932d36365b92ed50fca0c8e8d0801badbc7e7fc04587928fec9e6bff155ff87c001a929107d1b48c37fb6ff060570int),
            c2: x.c1.c2.scaled(0x1f8f3738320e219db11628af832f6b4166c5cdbba9f3c65136fac42645670a2d4c5fdfe52031d8e1cab2e33a20000004int),
        },
    }
}

/// The coefficient `z0` of the product of the two images is that of the
/// adjugate, in the field.
proof fn lemma_adjugate_0(x: Fq12Value)
    ensures
        twisted8(x).times(twisted4(x)).c0.c0.eqv(adjugate(x).c0.c0),
{
    let (z0, z1, z2, z3, z4, z5) = coefficients(x);
    lemma_scaled_times(z0, 1int, z0, 1int);
    assert(1int * 1int == 1int);
    lemma_scaled_times(z4, 0x30644e72e131a0295e6dd9e7e0acccb0c28f069fbb966e3de4bd44e5607cfd48int, z3, 0x30644e72e131a0295e6dd9e7e0acccb0c28f069fbb966e3de4bd44e5607cfd48int);
    assert(0x30644e72e131a0295e6dd9e7e0acccb0c28f069fbb966e3de4bd44e5607cfd48int * 0x30644e72e131a0295e6dd9e7e0acccb0c28f069fbb966e3de4bd44e5607cfd48int == 0x925c4b8763cbf9c379f1713a80eaeff4fc9e8721d5dc20acbb83d93947d3847c722a42415b28b3150b7353ba54a63f51b1f4ed2c6b458ce66d95dcc58576440int);
    lemma_times_distributes2(z3, z4, z0);
    lemma_scaled_times(z3, 0x59e26bcea0d48bacd4f263f1acdb5c4f5763473177fffffeint, z4, 0x59e26bcea0d48bacd4f263f1acdb5c4f5763473177fffffeint);
    assert(0x59e26bcea0d48bacd4f263f1acdb5c4f5763473177fffffeint * 0x59e26bcea0d48bacd4f263f1acdb5c4f5763473177fffffeint == 0x1f8f3738320e219db11628af832f6b4166c5cdbba9f3c65136fac42645670a2d4c5fdfe52031d8e1cab2e33a20000004int);
    lemma_scaled_times(z2, 0x59e26bcea0d48bacd4f263f1acdb5c4f5763473177fffffeint, z5, 0x925c4b8763cbf9c379f1713a80eaeff4fc9e8721d5dc20acbb83d93947d3847c722a42415b28b3150b7353ba54a63f51b1f4ed2c6b458ce66d95dcc58576440int);
    assert(0x59e26bcea0d48bacd4f263f1acdb5c4f5763473177fffffeint * 0x925c4b8763cbf9c379f1713a80eaeff4fc9e8721d5dc20acbb83d93947d3847c722a42415b28b3150b7353ba54a63f51b1f4ed2c6b458ce66d95dcc58576440int == 0x3363895f7501950e1ac0ace28862073b390280b076ab6b105e10caa2b48e6720b4333b12a7e4dc22a0e8972dd7d5f41f9d22efdc2310fe47c8fac6121dfd17fc85cbf25f7a57e343f4f9b1f51369f95a5fe2ba54f513780int);
    lemma_scaled_times(z1, 0x10fdac342d9d118ea05932d36365b92ed50fca0c8e8d0801badbc7e7fc04587928fec9e6bff155ff87c001a929107d1b48c37fb6ff060570int, z1, 0x10fdac342d9d118ea05932d36365b92ed50fca0c8e8d0801badbc7e7fc04587928fec9e6bff155ff87c001a929107d1b48c37fb6ff060570int);
    assert(0x10fdac342d9d118ea05932d36365b92ed50fca0c8e8d0801badbc7e7fc04587928fec9e6bff155ff87c001a929107d1b48c37fb6ff060570int * 0x10fdac342d9d118ea05932d36365b92ed50fca0c8e8d0801badbc7e7fc04587928fec9e6bff155ff87c001a929107d1b48c37fb6ff060570int == 0x120b0e458abf294277b789c914c2bafbbbb05fcb3aa68a63433e7781ad99cd28256fa2bfb7e93686718e873c01a57248dd9433f73060fe989f89708841df4d5a030b6582ea01de0b3d4dd9fff3656a257b1103c2c88c0ed9bfbc24a34eb84cef7320f26fa877fb2dca1da39615d9100int);
    lemma_scaled_times(z5, 0x1f8f3738320e219db11628af832f6b4166c5cdbba9f3c65136fac42645670a2d4c5fdfe52031d8e1cab2e33a20000004int, z2, 0x30644e72e131a0295e6dd9e7e0acccb0c28f069fbb966e3de4bd44e5607cfd48int);
    assert(0x1f8f3738320e219db11628af832f6b4166c5cdbba9f3c65136fac42645670a2d4c5fdfe52031d8e1cab2e33a20000004int * 0x30644e72e131a0295e6dd9e7e0acccb0c28f069fbb966e3de4bd44e5607cfd48int == 0x5f737f7e7b2e7c9dd2d711d6b8f9ef7d4e65c974ee4cd98e49cc72309dabf5c4e0231a908d7337e1e1b4a54bfd12e0f7224b2e195e663981eb4765517f8966789a5a017f5e17525dbfced8e81f3f520int);
    lemma_times_distributes2(z2, z5, z0);
    let m = z1.times(z1).scaled(0x5f737f7e7b2e7c9d218bd31cd65e2554f00f6840976622c935ee533745dfe2d1db3fbe50b8fc0cfcaf5a3013a716785a4f9375f669a3f73ed60e4c3749cdc6d517a51182ab1d3a696952008b460ca89int).times_xi().plus(
        z2.times(z5).scaled(0x10fdac342d9d118ea05932d36365b92ed50fca0c8e8d0801badbc7e7fc045878cf1c5e181f1cca5359c1e124e249a7c851f442a08172dad7int).times_xi(),
    ).plus(
        z3.times(z4).scaled(0x30644e72e131a029048b6e193fd841053b852988dae41fe74e8211e9dd56a813int).times_xi(),
    );
    lemma_multiple_of_q(
        twisted8(x).times(twisted4(x)).c0.c0,
        adjugate(x).c0.c0,
        m,
    );
}

/// The coefficient `z1` of the product of the two images is that of the
/// adjugate, in the field.
proof fn lemma_adjugate_1(x: Fq12Value)
    ensures
        twisted8(x).times(twisted4(x)).c1.c1.eqv(adjugate(x).c1.c1),
{
    let (z0, z1, z2, z3, z4, z5) = coefficients(x);
    lemma_scaled_times(z0, 1int, z1, 0x10fdac342d9d118ea05932d36365b92ed50fca0c8e8d0801badbc7e7fc04587928fec9e6bff155ff87c001a929107d1b48c37fb6ff060570int);
    assert(1int * 0x10fdac342d9d118ea05932d36365b92ed50fca0c8e8d0801badbc7e7fc04587928fec9e6bff155ff87c001a929107d1b48c37fb6ff060570int == 0x10fdac342d9d118ea05932d36365b92ed50fca0c8e8d0801badbc7e7fc04587928fec9e6bff155ff87c001a929107d1b48c37fb6ff060570int);
    lemma_scaled_times(z4, 0x30644e72e131a0295e6dd9e7e0acccb0c28f069fbb966e3de4bd44e5607cfd48int, z2, 0x30644e72e131a0295e6dd9e7e0acccb0c28f069fbb966e3de4bd44e5607cfd48int);
    assert(0x30644e72e131a0295e6dd9e7e0acccb0c28f069fbb966e3de4bd44e5607cfd48int * 0x30644e72e131a0295e6dd9e7e0acccb0c28f069fbb966e3de4bd44e5607cfd48int == 0x925c4b8763cbf9c379f1713a80eaeff4fc9e8721d5dc20acbb83d93947d3847c722a42415b28b3150b7353ba54a63f51b1f4ed2c6b458ce66d95dcc58576440int);
    lemma_times_distributes2(z2, z4, z0);
    lemma_scaled_times(z3, 0x59e26bcea0d48bacd4f263f1acdb5c4f5763473177fffffeint, z5, 0x925c4b8763cbf9c379f1713a80eaeff4fc9e8721d5dc20acbb83d93947d3847c722a42415b28b3150b7353ba54a63f51b1f4ed2c6b458ce66d95dcc58576440int);
    assert(0x59e26bcea0d48bacd4f263f1acdb5c4f5763473177fffffeint * 0x925c4b8763cbf9c379f1713a80eaeff4fc9e8721d5dc20acbb83d93947d3847c722a42415b28b3150b7353ba54a63f51b1f4ed2c6b458ce66d95dcc58576440int == 0x3363895f7501950e1ac0ace28862073b390280b076ab6b105e10caa2b48e6720b4333b12a7e4dc22a0e8972dd7d5f41f9d22efdc2310fe47c8fac6121dfd17fc85cbf25f7a57e343f4f9b1f51369f95a5fe2ba54f513780int);
    lemma_scaled_times(z2, 0x59e26bcea0d48bacd4f263f1acdb5c4f5763473177fffffeint, z4, 0x59e26bcea0d48bacd4f263f1acdb5c4f5763473177fffffeint);
    assert(0x59e26bcea0d48bacd4f263f1acdb5c4f5763473177fffffeint * 0x59e26bcea0d48bacd4f263f1acdb5c4f5763473177fffffeint == 0x1f8f3738320e219db11628af832f6b4166c5cdbba9f3c65136fac42645670a2d4c5fdfe52031d8e1cab2e33a20000004int);
    lemma_scaled_times(z1, 0x10fdac342d9d118ea05932d36365b92ed50fca0c8e8d0801badbc7e7fc04587928fec9e6bff155ff87c001a929107d1b48c37fb6ff060570int, z0, 1int);
    assert(0x10fdac342d9d118ea05932d36365b92ed50fca0c8e8d0801badbc7e7fc04587928fec9e6bff155ff87c001a929107d1b48c37fb6ff060570int * 1int == 0x10fdac342d9d118ea05932d36365b92ed50fca0c8e8d0801badbc7e7fc04587928fec9e6bff155ff87c001a929107d1b48c37fb6ff060570int);
    lemma_times_distributes2(z0, z1, z0);
    lemma_scaled_times(z5, 0x1f8f3738320e219db11628af832f6b4166c5cdbba9f3c65136fac42645670a2d4c5fdfe52031d8e1cab2e33a20000004int, z3, 0x30644e72e131a0295e6dd9e7e0acccb0c28f069fbb966e3de4bd44e5607cfd48int);
    assert(0x1f8f3738320e219db11628af832f6b4166c5cdbba9f3c65136fac42645670a2d4c5fdfe52031d8e1cab2e33a20000004int * 0x30644e72e131a0295e6dd9e7e0acccb0c28f069fbb966e3de4bd44e5607cfd48int == 0x5f737f7e7b2e7c9dd2d711d6b8f9ef7d4e65c974ee4cd98e49cc72309dabf5c4e0231a908d7337e1e1b4a54bfd12e0f7224b2e195e663981eb4765517f8966789a5a017f5e17525dbfced8e81f3f520int);
    lemma_times_distributes2(z3, z5, z0);
    let m = z0.times(z1).scaled(0xb3c4d79d41a917585bfc41088d8daaa5ed9e7a2cfb265532int).plus(
        z2.times(z4).scaled(0x30644e72e131a029048b6e193fd841053b852988dae41fe74e8211e9dd56a813int),
    ).plus(
        z3.times(z5).scaled(0x10fdac342d9d118ea05932d36365b92ed50fca0c8e8d0801badbc7e7fc045878cf1c5e181f1cca5359c1e124e249a7c851f442a08172dad7int).times_xi(),
    );
    lemma_multiple_of_q(
        twisted8(x).times(twisted4(x)).c1.c1,
        adjugate(x).c1.c1,
        m,
    );
}

/// The coefficient `z2` of the product of the two images is that of the
/// adjugate, in the field.
proof fn lemma_adjugate_2(x: Fq12Value)
    ensures
        twisted8(x).times(twisted4(x)).c1.c0.eqv(adjugate(x).c1.c0),
{
    let (z0, z1, z2, z3, z4, z5) = coefficients(x);
    lemma_scaled_times(z0, 1int, z2, 0x30644e72e131a0295e6dd9e7e0acccb0c28f069fbb966e3de4bd44e5607cfd48int);
    assert(1int * 0x30644e72e131a0295e6dd9e7e0acccb0c28f069fbb966e3de4bd44e5607cfd48int == 0x30644e72e131a0295e6dd9e7e0acccb0c28f069fbb966e3de4bd44e5607cfd48int);
    lemma_scaled_times(z4, 0x30644e72e131a0295e6dd9e7e0acccb0c28f069fbb966e3de4bd44e5607cfd48int, z5, 0x925c4b8763cbf9c379f1713a80eaeff4fc9e8721d5dc20acbb83d93947d3847c722a42415b28b3150b7353ba54a63f51b1f4ed2c6b458ce66d95dcc58576440int);
    assert(0x30644e72e131a0295e6dd9e7e0acccb0c28f069fbb966e3de4bd44e5607cfd48int * 0x925c4b8763cbf9c379f1713a80eaeff4fc9e8721d5dc20acbb83d93947d3847c722a42415b28b3150b7353ba54a63f51b1f4ed2c6b458ce66d95dcc58576440int == 0x1baaa710b0759ad297c178f9d2733bcb12ac780b5396f3904f49cd236d5703fa029a92d6204778fc1636e44f4502a42fa4d16102a4760eb0d9829289eb0756b42eba03fe25754a81363d8be6e977a0f61f3a91e9c54ea780efe91f3c5a77200int);
    lemma_scaled_times(z3, 0x59e26bcea0d48bacd4f263f1acdb5c4f5763473177fffffeint, z1, 0x10fdac342d9d118ea05932d36365b92ed50fca0c8e8d0801badbc7e7fc04587928fec9e6bff155ff87c001a929107d1b48c37fb6ff060570int);
    assert(0x59e26bcea0d48bacd4f263f1acdb5c4f5763473177fffffeint * 0x10fdac342d9d118ea05932d36365b92ed50fca0c8e8d0801badbc7e7fc04587928fec9e6bff155ff87c001a929107d1b48c37fb6ff060570int == 0x5f737f7e7b2e7c9dd2d711d6b8f9ef7d4e65c974ee4cd98e49cc72309dabf5c4e0231a908d7337e1e1b4a54bfd12e0f7224b2e195e663981eb4765517f8966789a5a017f5e17525dbfced8e81f3f520int);
    lemma_times_distributes2(z1, z3, z0);
    lemma_scaled_times(z2, 0x59e26bcea0d48bacd4f263f1acdb5c4f5763473177fffffeint, z0, 1int);
    assert(0x59e26bcea0d48bacd4f263f1acdb5c4f5763473177fffffeint * 1int == 0x59e26bcea0d48bacd4f263f1acdb5c4f5763473177fffffeint);
    lemma_times_distributes2(z0, z2, z0);
    lemma_scaled_times(z1, 0x10fdac342d9d118ea05932d36365b92ed50fca0c8e8d0801badbc7e7fc04587928fec9e6bff155ff87c001a929107d1b48c37fb6ff060570int, z3, 0x30644e72e131a0295e6dd9e7e0acccb0c28f069fbb966e3de4bd44e5607cfd48int);
    assert(0x10fdac342d9d118ea05932d36365b92ed50fca0c8e8d0801badbc7e7fc04587928fec9e6bff155ff87c001a929107d1b48c37fb6ff060570int * 0x30644e72e131a0295e6dd9e7e0acccb0c28f069fbb966e3de4bd44e5607cfd48int == 0x3363895f7501950e1ac0ace28862073b390280b076ab6b105e10caa2b48e6720b4333b12a7e4dc22a0e8972dd7d5f41f9d22efdc2310fe47c8fac6121dfd17fc85cbf25f7a57e343f4f9b1f51369f95a5fe2ba54f513780int);
    lemma_scaled_times(z5, 0x1f8f3738320e219db11628af832f6b4166c5cdbba9f3c65136fac42645670a2d4c5fdfe52031d8e1cab2e33a20000004int, z4, 0x59e26bcea0d48bacd4f263f1acdb5c4f5763473177fffffeint);
    assert(0x1f8f3738320e219db11628af832f6b4166c5cdbba9f3c65136fac42645670a2d4c5fdfe52031d8e1cab2e33a20000004int * 0x59e26bcea0d48bacd4f263f1acdb5c4f5763473177fffffeint == 0xb14b3eb9e29bca29a7a60b24f771a8c674ee3b16a2368f1fc6ec7b65dbf2b36d551b641c8bf75f43489e479bd8da703c49f860263b52462211ce0ec33aa96fd272756519ffffff8int);
    lemma_times_distributes2(z4, z5, z0);
    let m = z0.times(z2).scaled(1int).plus(
        z1.times(z3).scaled(0x10fdac342d9d118ea05932d36365b92ed50fca0c8e8d0801badbc7e7fc045878cf1c5e181f1cca5359c1e124e249a7c851f442a08172dad7int).times_xi(),
    ).plus(
        z4.times(z5).scaled(0x925c4b8763cbf9c26a16adf7a719d70ceffecd6ec062a79a7be9c36891f9b8742a85b84e27058e0b40a2d308bbc62c9d238240a29b86a009115ec7c198de15aint).times_xi(),
    );
    lemma_multiple_of_q(
        twisted8(x).times(twisted4(x)).c1.c0,
        adjugate(x).c1.c0,
        m,
    );
}

/// The coefficient `z3` of the product of the two images is that of the
/// adjugate, in the field.
proof fn lemma_adjugate_3(x: Fq12Value)
    ensures
        twisted8(x).times(twisted4(x)).c0.c2.eqv(adjugate(x).c0.c2),
{
    let (z0, z1, z2, z3, z4, z5) = coefficients(x);
    lemma_scaled_times(z0, 1int, z3, 0x30644e72e131a0295e6dd9e7e0acccb0c28f069fbb966e3de4bd44e5607cfd48int);
    assert(1int * 0x30644e72e131a0295e6dd9e7e0acccb0c28f069fbb966e3de4bd44e5607cfd48int == 0x30644e72e131a0295e6dd9e7e0acccb0c28f069fbb966e3de4bd44e5607cfd48int);
    lemma_scaled_times(z4, 0x30644e72e131a0295e6dd9e7e0acccb0c28f069fbb966e3de4bd44e5607cfd48int, z4, 0x59e26bcea0d48bacd4f263f1acdb5c4f5763473177fffffeint);
    assert(0x30644e72e131a0295e6dd9e7e0acccb0c28f069fbb966e3de4bd44e5607cfd48int * 0x59e26bcea0d48bacd4f263f1acdb5c4f5763473177fffffeint == 0x10fdac342d9d118ea05932d36365b92ed50fca0c8e8d0801badbc7e7fc04587928fec9e6bff155ff87c001a929107d1b48c37fb6ff060570int);
    lemma_scaled_times(z3, 0x59e26bcea0d48bacd4f263f1acdb5c4f5763473177fffffeint, z0, 1int);
    assert(0x59e26bcea0d48bacd4f263f1acdb5c4f5763473177fffffeint * 1int == 0x59e26bcea0d48bacd4f263f1acdb5c4f5763473177fffffeint);
    lemma_times_distributes2(z0, z3, z0);
    lemma_scaled_times(z2, 0x59e26bcea0d48bacd4f263f1acdb5c4f5763473177fffffeint, z1, 0x10fdac342d9d118ea05932d36365b92ed50fca0c8e8d0801badbc7e7fc04587928fec9e6bff155ff87c001a929107d1b48c37fb6ff060570int);
    assert(0x59e26bcea0d48bacd4f263f1acdb5c4f5763473177fffffeint * 0x10fdac342d9d118ea05932d36365b92ed50fca0c8e8d0801badbc7e7fc04587928fec9e6bff155ff87c001a929107d1b48c37fb6ff060570int == 0x5f737f7e7b2e7c9dd2d711d6b8f9ef7d4e65c974ee4cd98e49cc72309dabf5c4e0231a908d7337e1e1b4a54bfd12e0f7224b2e195e663981eb4765517f8966789a5a017f5e17525dbfced8e81f3f520int);
    lemma_times_distributes2(z1, z2, z0);
    lemma_scaled_times(z1, 0x10fdac342d9d118ea05932d36365b92ed50fca0c8e8d0801badbc7e7fc04587928fec9e6bff155ff87c001a929107d1b48c37fb6ff060570int, z2, 0x30644e72e131a0295e6dd9e7e0acccb0c28f069fbb966e3de4bd44e5607cfd48int);
    assert(0x10fdac342d9d118ea05932d36365b92ed50fca0c8e8d0801badbc7e7fc04587928fec9e6bff155ff87c001a929107d1b48c37fb6ff060570int * 0x30644e72e131a0295e6dd9e7e0acccb0c28f069fbb966e3de4bd44e5607cfd48int == 0x3363895f7501950e1ac0ace28862073b390280b076ab6b105e10caa2b48e6720b4333b12a7e4dc22a0e8972dd7d5f41f9d22efdc2310fe47c8fac6121dfd17fc85cbf25f7a57e343f4f9b1f51369f95a5fe2ba54f513780int);
    lemma_scaled_times(z5, 0x1f8f3738320e219db11628af832f6b4166c5cdbba9f3c65136fac42645670a2d4c5fdfe52031d8e1cab2e33a20000004int, z5, 0x925c4b8763cbf9c379f1713a80eaeff4fc9e8721d5dc20acbb83d93947d3847c722a42415b28b3150b7353ba54a63f51b1f4ed2c6b458ce66d95dcc58576440int);
    assert(0x1f8f3738320e219db11628af832f6b4166c5cdbba9f3c65136fac42645670a2d4c5fdfe52031d8e1cab2e33a20000004int * 0x925c4b8763cbf9c379f1713a80eaeff4fc9e8721d5dc20acbb83d93947d3847c722a42415b28b3150b7353ba54a63f51b1f4ed2c6b458ce66d95dcc58576440int == 0x120b0e458abf294277b789c914c2bafbbbb05fcb3aa68a63433e7781ad99cd28256fa2bfb7e93686718e873c01a57248dd9433f73060fe989f89708841df4d5a030b6582ea01de0b3d4dd9fff3656a257b1103c2c88c0ed9bfbc24a34eb84cef7320f26fa877fb2dca1da39615d9100int);
    let m = z0.times(z3).scaled(1int).plus(
        z1.times(z2).scaled(0x10fdac342d9d118ea05932d36365b92ed50fca0c8e8d0801badbc7e7fc045878cf1c5e181f1cca5359c1e124e249a7c851f442a08172dad7int),
    ).plus(
        z4.times(z4).scaled(0x59e26bcea0d48bac2dfe208446c6d552f6cf3d167d932a99int),
    ).plus(
        z5.times(z5).scaled(0x5f737f7e7b2e7c9d218bd31cd65e2554f00f6840976622c935ee533745dfe2d1db3fbe50b8fc0cfcaf5a3013a716785a4f9375f669a3f73ed60e4c3749cdc6d517a51182ab1d3a696952008b460ca89int).times_xi(),
    );
    lemma_multiple_of_q(
        twisted8(x).times(twisted4(x)).c0.c2,
        adjugate(x).c0.c2,
        m,
    );
}

/// The coefficient `z4` of the product of the two images is that of the
/// adjugate, in the field.
proof fn lemma_adjugate_4(x: Fq12Value)
    ensures
        twisted8(x).times(twisted4(x)).c0.c1.eqv(adjugate(x).c0.c1),
{
    let (z0, z1, z2, z3, z4, z5) = coefficients(x);
    lemma_scaled_times(z0, 1int, z4, 0x59e26bcea0d48bacd4f263f1acdb5c4f5763473177fffffeint);
    assert(1int * 0x59e26bcea0d48bacd4f263f1acdb5c4f5763473177fffffeint == 0x59e26bcea0d48bacd4f263f1acdb5c4f5763473177fffffeint);
    lemma_scaled_times(z4, 0x30644e72e131a0295e6dd9e7e0acccb0c28f069fbb966e3de4bd44e5607cfd48int, z0, 1int);
    assert(0x30644e72e131a0295e6dd9e7e0acccb0c28f069fbb966e3de4bd44e5607cfd48int * 1int == 0x30644e72e131a0295e6dd9e7e0acccb0c28f069fbb966e3de4bd44e5607cfd48int);
    lemma_times_distributes2(z0, z4, z0);
    lemma_scaled_times(z3, 0x59e26bcea0d48bacd4f263f1acdb5c4f5763473177fffffeint, z3, 0x30644e72e131a0295e6dd9e7e0acccb0c28f069fbb966e3de4bd44e5607cfd48int);
    assert(0x59e26bcea0d48bacd4f263f1acdb5c4f5763473177fffffeint * 0x30644e72e131a0295e6dd9e7e0acccb0c28f069fbb966e3de4bd44e5607cfd48int == 0x10fdac342d9d118ea05932d36365b92ed50fca0c8e8d0801badbc7e7fc04587928fec9e6bff155ff87c001a929107d1b48c37fb6ff060570int);
    lemma_scaled_times(z2, 0x59e26bcea0d48bacd4f263f1acdb5c4f5763473177fffffeint, z2, 0x30644e72e131a0295e6dd9e7e0acccb0c28f069fbb966e3de4bd44e5607cfd48int);
    assert(0x59e26bcea0d48bacd4f263f1acdb5c4f5763473177fffffeint * 0x30644e72e131a0295e6dd9e7e0acccb0c28f069fbb966e3de4bd44e5607cfd48int == 0x10fdac342d9d118ea05932d36365b92ed50fca0c8e8d0801badbc7e7fc04587928fec9e6bff155ff87c001a929107d1b48c37fb6ff060570int);
    lemma_scaled_times(z1, 0x10fdac342d9d118ea05932d36365b92ed50fca0c8e8d0801badbc7e7fc04587928fec9e6bff155ff87c001a929107d1b48c37fb6ff060570int, z5, 0x925c4b8763cbf9c379f1713a80eaeff4fc9e8721d5dc20acbb83d93947d3847c722a42415b28b3150b7353ba54a63f51b1f4ed2c6b458ce66d95dcc58576440int);
    assert(0x10fdac342d9d118ea05932d36365b92ed50fca0c8e8d0801badbc7e7fc04587928fec9e6bff155ff87c001a929107d1b48c37fb6ff060570int * 0x925c4b8763cbf9c379f1713a80eaeff4fc9e8721d5dc20acbb83d93947d3847c722a42415b28b3150b7353ba54a63f51b1f4ed2c6b458ce66d95dcc58576440int == 0x9b6cc62f29cb4aa29824c66be21dec69de4c7cbf78b3e4bbf16810ee41c9cd64f309c960fedfb7b53acdf89ed25178f06d72024a1b8723229145c6a91e653be449d69f3ee09a4d0b339782506f2355acd01b95c4e62f782f8b3f86598dd34609f13fb4031b94c9e14086f382a7907382542b8874b11c00int);
    lemma_scaled_times(z5, 0x1f8f3738320e219db11628af832f6b4166c5cdbba9f3c65136fac42645670a2d4c5fdfe52031d8e1cab2e33a20000004int, z1, 0x10fdac342d9d118ea05932d36365b92ed50fca0c8e8d0801badbc7e7fc04587928fec9e6bff155ff87c001a929107d1b48c37fb6ff060570int);
    assert(0x1f8f3738320e219db11628af832f6b4166c5cdbba9f3c65136fac42645670a2d4c5fdfe52031d8e1cab2e33a20000004int * 0x10fdac342d9d118ea05932d36365b92ed50fca0c8e8d0801badbc7e7fc04587928fec9e6bff155ff87c001a929107d1b48c37fb6ff060570int == 0x2183937bd7adcd0938139176d4d10082497717623a3a534eef9a2e3ac6d8f582da6e66b566f5ecb05970140c3e159ca86ed3e0b5d1989b2ad3f444d2d83b0506152de75168fb88ba423ebcecfaa5f4e54f87f737e300842925d1fb959adf1e648fe4ae9fc1815c0int);
    lemma_times_distributes2(z1, z5, z0);
    let m = z0.times(z4).scaled(1int).plus(
        z1.times(z5).scaled(0x3363895f7501950dbb4d2d640d338a9ec8c1ec4d82e90fe3cc57c396740efb1b82484391dffff359c4f907e6bcf57f1acf269437e9266e6e9e6289bee8d5db73d330ddc0747916dcc3eb7e20f6ac5a602dc9681e710bcb7int).times_xi(),
    ).plus(
        z2.times(z2).scaled(0x59e26bcea0d48bac2dfe208446c6d552f6cf3d167d932a99int),
    ).plus(
        z3.times(z3).scaled(0x59e26bcea0d48bac2dfe208446c6d552f6cf3d167d932a99int).times_xi(),
    );
    lemma_multiple_of_q(
        twisted8(x).times(twisted4(x)).c0.c1,
        adjugate(x).c0.c1,
        m,
    );
}

/// The coefficient `z5` of the product of the two images is that of the
/// adjugate, in the field.
proof fn lemma_adjugate_5(x: Fq12Value)
    ensures
        twisted8(x).times(twisted4(x)).c1.c2.eqv(adjugate(x).c1.c2),
{
    let (z0, z1, z2, z3, z4, z5) = coefficients(x);
    lemma_scaled_times(z0, 1int, z5, 0x925c4b8763cbf9c379f1713a80eaeff4fc9e8721d5dc20acbb83d93947d3847c722a42415b28b3150b7353ba54a63f51b1f4ed2c6b458ce66d95dcc58576440int);
    assert(1int * 0x925c4b8763cbf9c379f1713a80eaeff4fc9e8721d5dc20acbb83d93947d3847c722a42415b28b3150b7353ba54a63f51b1f4ed2c6b458ce66d95dcc58576440int == 0x925c4b8763cbf9c379f1713a80eaeff4fc9e8721d5dc20acbb83d93947d3847c722a42415b28b3150b7353ba54a63f51b1f4ed2c6b458ce66d95dcc58576440int);
    lemma_scaled_times(z4, 0x30644e72e131a0295e6dd9e7e0acccb0c28f069fbb966e3de4bd44e5607cfd48int, z1, 0x10fdac342d9d118ea05932d36365b92ed50fca0c8e8d0801badbc7e7fc04587928fec9e6bff155ff87c001a929107d1b48c37fb6ff060570int);
    assert(0x30644e72e131a0295e6dd9e7e0acccb0c28f069fbb966e3de4bd44e5607cfd48int * 0x10fdac342d9d118ea05932d36365b92ed50fca0c8e8d0801badbc7e7fc04587928fec9e6bff155ff87c001a929107d1b48c37fb6ff060570int == 0x3363895f7501950e1ac0ace28862073b390280b076ab6b105e10caa2b48e6720b4333b12a7e4dc22a0e8972dd7d5f41f9d22efdc2310fe47c8fac6121dfd17fc85cbf25f7a57e343f4f9b1f51369f95a5fe2ba54f513780int);
    lemma_times_distributes2(z1, z4, z0);
    lemma_scaled_times(z3, 0x59e26bcea0d48bacd4f263f1acdb5c4f5763473177fffffeint, z2, 0x30644e72e131a0295e6dd9e7e0acccb0c28f069fbb966e3de4bd44e5607cfd48int);
    assert(0x59e26bcea0d48bacd4f263f1acdb5c4f5763473177fffffeint * 0x30644e72e131a0295e6dd9e7e0acccb0c28f069fbb966e3de4bd44e5607cfd48int == 0x10fdac342d9d118ea05932d36365b92ed50fca0c8e8d0801badbc7e7fc04587928fec9e6bff155ff87c001a929107d1b48c37fb6ff060570int);
    lemma_times_distributes2(z2, z3, z0);
    lemma_scaled_times(z2, 0x59e26bcea0d48bacd4f263f1acdb5c4f5763473177fffffeint, z3, 0x30644e72e131a0295e6dd9e7e0acccb0c28f069fbb966e3de4bd44e5607cfd48int);
    assert(0x59e26bcea0d48bacd4f263f1acdb5c4f5763473177fffffeint * 0x30644e72e131a0295e6dd9e7e0acccb0c28f069fbb966e3de4bd44e5607cfd48int == 0x10fdac342d9d118ea05932d36365b92ed50fca0c8e8d0801badbc7e7fc04587928fec9e6bff155ff87c001a929107d1b48c37fb6ff060570int);
    lemma_scaled_times(z1, 0x10fdac342d9d118ea05932d36365b92ed50fca0c8e8d0801badbc7e7fc04587928fec9e6bff155ff87c001a929107d1b48c37fb6ff060570int, z4, 0x59e26bcea0d48bacd4f263f1acdb5c4f5763473177fffffeint);
    assert(0x10fdac342d9d118ea05932d36365b92ed50fca0c8e8d0801badbc7e7fc04587928fec9e6bff155ff87c001a929107d1b48c37fb6ff060570int * 0x59e26bcea0d48bacd4f263f1acdb5c4f5763473177fffffeint == 0x5f737f7e7b2e7c9dd2d711d6b8f9ef7d4e65c974ee4cd98e49cc72309dabf5c4e0231a908d7337e1e1b4a54bfd12e0f7224b2e195e663981eb4765517f8966789a5a017f5e17525dbfced8e81f3f520int);
    lemma_scaled_times(z5, 0x1f8f3738320e219db11628af832f6b4166c5cdbba9f3c65136fac42645670a2d4c5fdfe52031d8e1cab2e33a20000004int, z0, 1int);
    assert(0x1f8f3738320e219db11628af832f6b4166c5cdbba9f3c65136fac42645670a2d4c5fdfe52031d8e1cab2e33a20000004int * 1int == 0x1f8f3738320e219db11628af832f6b4166c5cdbba9f3c65136fac42645670a2d4c5fdfe52031d8e1cab2e33a20000004int);
    lemma_times_distributes2(z0, z5, z0);
    let m = z0.times(z5).scaled(0x30644e72e131a029048b6e193fd841053b852988dae41fe74e8211e9dd56a813int).plus(
        z1.times(z4).scaled(0x10fdac342d9d118ea05932d36365b92ed50fca0c8e8d0801badbc7e7fc045878cf1c5e181f1cca5359c1e124e249a7c851f442a08172dad7int),
    ).plus(
        z2.times(z3).scaled(0xb3c4d79d41a917585bfc41088d8daaa5ed9e7a2cfb265532int),
    );
    lemma_multiple_of_q(
        twisted8(x).times(twisted4(x)).c1.c2,
        adjugate(x).c1.c2,
        m,
    );
}

/// The product of the images under the eighth and the fourth Frobenius map,
/// without reduction, is the adjugate, in the field.
pub proof fn lemma_adjugate_twisted(x: Fq12Value)
    ensures
        twisted8(x).times(twisted4(x)).eqv(adjugate(x)),
{
    lemma_adjugate_0(x);
    lemma_adjugate_1(x);
    lemma_adjugate_2(x);
    lemma_adjugate_3(x);
    lemma_adjugate_4(x);
    lemma_adjugate_5(x);
}

/// A product with an integer of the field, and one more, as a multiple.
proof fn lemma_scaled_eqv(z: Fq2Value, y: Fq2Value, a: int, b: int, c: int)
    requires
        z.eqv(y),
        c == a * b,
    ensures
        z.mul(Fq2Value { c0: a, c1: 0 }).eqv(y.scaled(a)),
        z.mul(Fq2Value { c0: a, c1: 0 }).mul(Fq2Value { c0: b, c1: 0 }).eqv(y.scaled(c)),
        z.mul(Fq2Value { c0: a, c1: 0 }).times(Fq2Value { c0: b, c1: 0 }).reduce().eqv(
            y.scaled(c),
        ),
{
    let ka = Fq2Value { c0: a, c1: 0 };
    let kb = Fq2Value { c0: b, c1: 0 };
    lemma_eqv_times2(z, ka, y, ka);
    assert(y.c0 * 0 == 0 && y.c1 * 0 == 0);
    assert(y.times(ka) == y.scaled(a));
    lemma_eqv_times2(z.mul(ka), kb, y.scaled(a), kb);
    assert((y.c0 * a) * 0 == 0 && (y.c1 * a) * 0 == 0);
    vstd::arithmetic::mul::lemma_mul_is_associative(y.c0, a, b);
    vstd::arithmetic::mul::lemma_mul_is_associative(y.c1, a, b);
    assert(y.scaled(a).times(kb) == y.scaled(c));
    lemma_reduce2(z.mul(ka).times(kb));
}

/// The images under the fourth and the eighth Frobenius map have the
/// coefficients of the element times powers of a third root of one.
pub proof fn lemma_twisted(x: Fq12Value)
    requires
        x.canonical(),
    ensures
        x.frobenius(4).eqv(twisted4(x)),
        x.frobenius(8).eqv(twisted8(x)),
{
    let w1 = 0x30644e72e131a0295e6dd9e7e0acccb0c28f069fbb966e3de4bd44e5607cfd48int;
    let w2 = 0x59e26bcea0d48bacd4f263f1acdb5c4f5763473177fffffeint;
    let (z0, z1, z2, z3, z4, z5) = coefficients(x);
    lemma_reduce2(z0);
    lemma_reduce2(z1);
    lemma_reduce2(z2);
    lemma_reduce2(z3);
    lemma_reduce2(z4);
    lemma_reduce2(z5);
    assert(crate::params::frobenius_coeff_fq6_c1(4) == (Fq2Value { c0: w2, c1: 0 }));
    assert(crate::params::frobenius_coeff_fq6_c2(4) == (Fq2Value { c0: w1, c1: 0 }));
    assert(crate::params::frobenius_coeff_fq12_c1(4) == (Fq2Value { c0: w1, c1: 0 }));
    assert(crate::params::frobenius_coeff_fq6_c1(2) == (Fq2Value { c0: w1, c1: 0 }));
    assert(crate::params::frobenius_coeff_fq6_c2(2) == (Fq2Value { c0: w2, c1: 0 }));
    assert(crate::params::frobenius_coeff_fq12_c1(8) == (Fq2Value { c0: w2, c1: 0 }));
    assert(w2 * w1 == 0x10fdac342d9d118ea05932d36365b92ed50fca0c8e8d0801badbc7e7fc04587928fec9e6bff155ff87c001a929107d1b48c37fb6ff060570int);
    assert(w1 * w1 == 0x925c4b8763cbf9c379f1713a80eaeff4fc9e8721d5dc20acbb83d93947d3847c722a42415b28b3150b7353ba54a63f51b1f4ed2c6b458ce66d95dcc58576440int);
    assert(w1 * w2 == 0x10fdac342d9d118ea05932d36365b92ed50fca0c8e8d0801badbc7e7fc04587928fec9e6bff155ff87c001a929107d1b48c37fb6ff060570int);
    assert(w2 * w2 == 0x1f8f3738320e219db11628af832f6b4166c5cdbba9f3c65136fac42645670a2d4c5fdfe52031d8e1cab2e33a20000004int);
    assert(w1 * 1 == w1 && w2 * 1 == w2 && 1 * w1 == w1 && 1 * w2 == w2);
    // the fourth map
    lemma_scaled_eqv(z4, z4, w2, 1, w2);
    lemma_scaled_eqv(z3, z3, w1, 1, w1);
    lemma_scaled_eqv(z2, z2, 1, w1, w1);
    lemma_scaled_eqv(z1, z1, w2, w1, 0x10fdac342d9d118ea05932d36365b92ed50fca0c8e8d0801badbc7e7fc04587928fec9e6bff155ff87c001a929107d1b48c37fb6ff060570int);
    lemma_scaled_eqv(z5, z5, w1, w1, 0x925c4b8763cbf9c379f1713a80eaeff4fc9e8721d5dc20acbb83d93947d3847c722a42415b28b3150b7353ba54a63f51b1f4ed2c6b458ce66d95dcc58576440int);
    // the eighth map
    lemma_scaled_eqv(z4, z4, w1, 1, w1);
    lemma_scaled_eqv(z3, z3, w2, 1, w2);
    lemma_scaled_eqv(z2, z2, 1, w2, w2);
    lemma_scaled_eqv(z1, z1, w1, w2, 0x10fdac342d9d118ea05932d36365b92ed50fca0c8e8d0801badbc7e7fc04587928fec9e6bff155ff87c001a929107d1b48c37fb6ff060570int);
    lemma_scaled_eqv(z5, z5, w2, w2, 0x1f8f3738320e219db11628af832f6b4166c5cdbba9f3c65136fac42645670a2d4c5fdfe52031d8e1cab2e33a20000004int);
    lemma_times_one(z2);
}

/// The product with one, in the field.
proof fn lemma_times_one(z: Fq2Value)
    requires
        z.canonical(),
    ensures
        z.mul(Fq2Value { c0: 1, c1: 0 }) == z,
{
    assert(z.c0 * 1 == z.c0 && z.c1 * 1 == z.c1 && z.c0 * 0 == 0 && z.c1 * 0 == 0);
    lemma_reduce2(z);
}

/// The elements of the cyclotomic subgroup: those with
/// `x^(q^4) x = x^(q^2)`, which is `x^(q^4 - q^2 + 1) = 1`.
pub open spec fn cyclotomic(x: Fq12Value) -> bool {
    x.canonical() && x.frobenius(4).mul(x) == x.frobenius(2)
}

/// On the cyclotomic subgroup the adjugate is the conjugate.
pub proof fn lemma_adjugate(x: Fq12Value)
    requires
        cyclotomic(x),
    ensures
        x.conj().eqv(adjugate(x)),
{
    let x4 = x.frobenius(4);
    let x8 = x.frobenius(8);
    crate::model::frobenius::lemma_frobenius_canonical(x, 4);
    crate::model::frobenius::lemma_frobenius_product(x4, x, 4);
    crate::model::frobenius::lemma_frobenius_adds(x, 4, 4);
    crate::model::frobenius::lemma_frobenius_adds(x, 2, 4);
    crate::model::frobenius::lemma_frobenius_six(x);
    assert(x8.mul(x4) == x.conjugate());
    lemma_twisted(x);
    crate::model::dodecic::lemma_eqv_times12(x8, x4, twisted8(x), twisted4(x));
    lemma_adjugate_twisted(x);
    lemma_reduce12(x.conj());
}

/// On the cyclotomic subgroup the squaring of Granger and Scott is the
/// square.
pub proof fn lemma_cyclotomic_square(x: Fq12Value)
    requires
        cyclotomic(x),
    ensures
        x.cyclotomic_square() == x.square(),
{
    lemma_adjugate(x);
    lemma_granger_scott(x);
}

/// The easy part of the final exponentiation takes an invertible element
/// into the cyclotomic subgroup.
#[verifier::rlimit(50)]
pub proof fn lemma_easy_part(f: Fq12Value)
    requires
        f.canonical(),
        f.invertible(),
    ensures
        cyclotomic(f.easy_part()),
{
    let one = Fq12Value::one();
    let i = f.inv();
    let c = f.conjugate();
    let g = i.mul(c);
    let r = g.frobenius(2).mul(g);
    crate::model::dodecic::lemma_inverse12(f);
    crate::model::dodecic::lemma_mul_laws12(i, c, f);
    lemma_reduce12(f.conj());
    lemma_reduce12(
        Fq12Value { c0: f.c0.times(f.norm().inv()), c1: f.c1.times(f.norm().inv().negated()) },
    );
    // the conjugate of g times g is one
    crate::model::frobenius::lemma_frobenius_six(g);
    crate::model::frobenius::lemma_frobenius_six(i);
    crate::model::frobenius::lemma_frobenius_six(c);
    crate::model::frobenius::lemma_frobenius_six(f);
    crate::model::frobenius::lemma_frobenius_six(i.mul(f));
    crate::model::frobenius::lemma_frobenius_product(i, c, 6);
    crate::model::frobenius::lemma_frobenius_product(i, f, 6);
    crate::model::frobenius::lemma_frobenius_adds(f, 6, 6);
    crate::model::frobenius::lemma_frobenius_adds(f, 12, 0);
    crate::model::frobenius::lemma_frobenius_zero(f);
    let ci = i.conjugate();
    assert(c.conjugate() == f);
    assert(g.conjugate() == ci.mul(f));
    // (ci f)(i c) = (ci c)(i f) = ci c = conj(i f) = conj(1) = 1
    crate::model::dodecic::lemma_mul_laws12(ci, f, i.mul(c));
    crate::model::dodecic::lemma_mul_laws12(f, i, c);
    crate::model::dodecic::lemma_mul_laws12(i, f, c);
    crate::model::dodecic::lemma_mul_laws12(c, one, one);
    crate::model::final_exp::lemma_units12();
    assert(ci.mul(c) == one);
    assert(g.conjugate().mul(g) == one);
    // r^(q^4) r = g^(q^6) g^(q^4) g^(q^2) g = g^(q^4) g^(q^2) = r^(q^2)
    let (g2, g4, g6) = (g.frobenius(2), g.frobenius(4), g.frobenius(6));
    crate::model::frobenius::lemma_frobenius_canonical(g, 2);
    crate::model::frobenius::lemma_frobenius_canonical(g, 4);
    crate::model::frobenius::lemma_frobenius_product(g2, g, 4);
    crate::model::frobenius::lemma_frobenius_product(g2, g, 2);
    crate::model::frobenius::lemma_frobenius_adds(g, 2, 4);
    crate::model::frobenius::lemma_frobenius_adds(g, 2, 2);
    assert(r.frobenius(4) == g6.mul(g4));
    assert(r.frobenius(2) == g4.mul(g2));
    // (g6 g4)(g2 g) = (g4 g2)(g6 g)
    crate::model::dodecic::lemma_mul_laws12(g6, g4, g2.mul(g));
    crate::model::dodecic::lemma_mul_laws12(g4, g2, g);
    crate::model::dodecic::lemma_mul_laws12(g4.mul(g2), g, g6);
    crate::model::dodecic::lemma_mul_laws12(g6, g4.mul(g2), g);
    crate::model::dodecic::lemma_mul_laws12(g4.mul(g2), g6, g);
    crate::model::dodecic::lemma_mul_laws12(g4.mul(g2), one, one);
}

} // verus!
