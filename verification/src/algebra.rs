//! The mathematical side of the geometry: unbounded integer 3-vectors, the
//! usual vector operations as spec functions, and the algebraic identities
//! (orthogonality of a cross product, antisymmetry of the triple product,
//! Cramer's rule) that the intersection proofs rest on.

use vstd::prelude::*;

verus! {

/// A mathematical 3-vector (or point) with unbounded integer components.
/// Exact values of the fixed-point executable types are modelled by this.
pub struct Vec3 {
    pub x: int,
    pub y: int,
    pub z: int,
}

/// A mathematical rational point: `num / den` componentwise, with `den > 0`.
pub struct RatVec3 {
    pub num: Vec3,
    pub den: int,
}

pub open spec fn v3_add(a: Vec3, b: Vec3) -> Vec3 {
    Vec3 { x: a.x + b.x, y: a.y + b.y, z: a.z + b.z }
}

pub open spec fn v3_sub(a: Vec3, b: Vec3) -> Vec3 {
    Vec3 { x: a.x - b.x, y: a.y - b.y, z: a.z - b.z }
}

pub open spec fn v3_neg(a: Vec3) -> Vec3 {
    Vec3 { x: -a.x, y: -a.y, z: -a.z }
}

pub open spec fn v3_scale(k: int, a: Vec3) -> Vec3 {
    Vec3 { x: k * a.x, y: k * a.y, z: k * a.z }
}

pub open spec fn v3_dot(a: Vec3, b: Vec3) -> int {
    a.x * b.x + a.y * b.y + a.z * b.z
}

pub open spec fn v3_cross(a: Vec3, b: Vec3) -> Vec3 {
    Vec3 {
        x: a.y * b.z - a.z * b.y,
        y: a.z * b.x - a.x * b.z,
        z: a.x * b.y - a.y * b.x,
    }
}

/// Every component of `a` has magnitude at most `b`.
pub open spec fn v3_bounded(a: Vec3, b: int) -> bool {
    &&& -b <= a.x <= b
    &&& -b <= a.y <= b
    &&& -b <= a.z <= b
}

/// The product of two bounded values is bounded by the product of the bounds.
pub proof fn lemma_mul_bound(x: int, y: int, bx: int, by: int) by (nonlinear_arith)
    requires
        -bx <= x <= bx,
        -by <= y <= by,
    ensures
        -(bx * by) <= x * y <= bx * by,
{
}

/// The dot product of two bounded vectors is bounded.
pub proof fn lemma_dot_bound(a: Vec3, b: Vec3, ba: int, bb: int)
    requires
        v3_bounded(a, ba),
        v3_bounded(b, bb),
    ensures
        -3 * (ba * bb) <= v3_dot(a, b) <= 3 * (ba * bb),
{
    lemma_mul_bound(a.x, b.x, ba, bb);
    lemma_mul_bound(a.y, b.y, ba, bb);
    lemma_mul_bound(a.z, b.z, ba, bb);
}

/// Every component of the cross product of two bounded vectors is bounded.
pub proof fn lemma_cross_bound(a: Vec3, b: Vec3, ba: int, bb: int)
    requires
        v3_bounded(a, ba),
        v3_bounded(b, bb),
    ensures
        v3_bounded(v3_cross(a, b), 2 * (ba * bb)),
{
    lemma_mul_bound(a.y, b.z, ba, bb);
    lemma_mul_bound(a.z, b.y, ba, bb);
    lemma_mul_bound(a.z, b.x, ba, bb);
    lemma_mul_bound(a.x, b.z, ba, bb);
    lemma_mul_bound(a.x, b.y, ba, bb);
    lemma_mul_bound(a.y, b.x, ba, bb);
}

/// The dot product is commutative.
pub proof fn lemma_dot_comm(a: Vec3, b: Vec3)
    ensures
        v3_dot(a, b) == v3_dot(b, a),
{
    broadcast use vstd::arithmetic::mul::lemma_mul_is_commutative;

}

/// A cross product is orthogonal to both of its factors.
pub proof fn lemma_cross_orthogonal(a: Vec3, b: Vec3)
    ensures
        v3_dot(a, v3_cross(a, b)) == 0,
        v3_dot(b, v3_cross(a, b)) == 0,
{
    broadcast use vstd::arithmetic::mul::group_mul_is_commutative_and_distributive;
    broadcast use vstd::arithmetic::mul::lemma_mul_is_associative;

}

/// Swapping the first two vectors of the scalar triple product flips its sign:
/// `e1 . (d x e2) == -(d . (e1 x e2))`.
pub proof fn lemma_triple_swap(d: Vec3, e1: Vec3, e2: Vec3)
    ensures
        v3_dot(e1, v3_cross(d, e2)) == -v3_dot(d, v3_cross(e1, e2)),
{
    broadcast use vstd::arithmetic::mul::group_mul_is_commutative_and_distributive;
    broadcast use vstd::arithmetic::mul::lemma_mul_is_associative;

}

/// Scaling distributes over vector addition.
pub proof fn lemma_scale_add(k: int, a: Vec3, b: Vec3)
    ensures
        v3_scale(k, v3_add(a, b)) == v3_add(v3_scale(k, a), v3_scale(k, b)),
{
    broadcast use vstd::arithmetic::mul::group_mul_is_commutative_and_distributive;

}

/// Scaling distributes over vector subtraction.
pub proof fn lemma_scale_sub(k: int, a: Vec3, b: Vec3)
    ensures
        v3_scale(k, v3_sub(a, b)) == v3_sub(v3_scale(k, a), v3_scale(k, b)),
{
    broadcast use vstd::arithmetic::mul::group_mul_is_commutative_and_distributive;

}

/// Negating the scalar negates the scaled vector.
pub proof fn lemma_scale_neg(k: int, a: Vec3)
    ensures
        v3_scale(-k, a) == v3_neg(v3_scale(k, a)),
{
    broadcast use vstd::arithmetic::mul::group_mul_is_commutative_and_distributive;

}

/// The dot product is linear in its second argument.
pub proof fn lemma_dot_scale_add(n: Vec3, k1: int, a: Vec3, k2: int, b: Vec3)
    ensures
        v3_dot(n, v3_add(v3_scale(k1, a), v3_scale(k2, b))) == k1 * v3_dot(n, a) + k2 * v3_dot(
            n,
            b,
        ),
{
    broadcast use vstd::arithmetic::mul::group_mul_is_commutative_and_distributive;
    broadcast use vstd::arithmetic::mul::lemma_mul_is_associative;

}

/// The cross product is anticommutative.
pub proof fn lemma_cross_antisym(a: Vec3, b: Vec3)
    ensures
        v3_cross(a, b) == v3_neg(v3_cross(b, a)),
{
    broadcast use vstd::arithmetic::mul::lemma_mul_is_commutative;

}

/// The Lagrange triple-product expansion: `a x (b x c) == (a.c) b - (a.b) c`.
pub proof fn lemma_lagrange(a: Vec3, b: Vec3, c: Vec3)
    ensures
        v3_cross(a, v3_cross(b, c)) == v3_sub(
            v3_scale(v3_dot(a, c), b),
            v3_scale(v3_dot(a, b), c),
        ),
{
    broadcast use vstd::arithmetic::mul::group_mul_is_commutative_and_distributive;
    broadcast use vstd::arithmetic::mul::lemma_mul_is_associative;

}

/// Cramer's rule for the intersection system: with
/// `det = e1 . (d x e2)`, `u = s . (d x e2)`, `v = d . (s x e1)` and
/// `t = e2 . (s x e1)`, the vector identity `det*s + t*d == u*e1 + v*e2`
/// holds for all vectors.
pub proof fn lemma_cramer(d: Vec3, e1: Vec3, e2: Vec3, s: Vec3)
    ensures
        v3_add(
            v3_scale(v3_dot(e1, v3_cross(d, e2)), s),
            v3_scale(v3_dot(e2, v3_cross(s, e1)), d),
        ) == v3_add(
            v3_scale(v3_dot(s, v3_cross(d, e2)), e1),
            v3_scale(v3_dot(d, v3_cross(s, e1)), e2),
        ),
{
    let h = v3_cross(d, e2);
    let q = v3_cross(s, e1);
    // h x q == (h.e1) s - (h.s) e1, and q x h == (q.e2) d - (q.d) e2.
    lemma_lagrange(h, s, e1);
    lemma_lagrange(q, d, e2);
    // Rewrite the dot products to put the short factor first.
    lemma_dot_comm(h, e1);
    lemma_dot_comm(h, s);
    lemma_dot_comm(q, e2);
    lemma_dot_comm(q, d);
    // h x q == -(q x h) turns the two expansions into the claim.
    lemma_cross_antisym(h, q);
}

} // verus!
