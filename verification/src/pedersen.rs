use vstd::prelude::*;
use crate::modular::{lemma_reduce_add, lemma_reduce_mul, lemma_reduce_sub};
use crate::ristretto::{
    linear_combination, point_index, point_indices, ristretto_base_mul, ristretto_from_sha512,
    scalar_values, RistrettoPoint,
};
use crate::scalar::{add_mod, reduce, sub_mod, Scalar};

verus! {

/// The index of the commitment `value * G + blinding * H`, where `g` and `h`
/// are the indices of the two generators.
pub open spec fn commitment_index(g: nat, h: nat, value: nat, blinding: nat) -> nat {
    reduce((value * g + blinding * h) as int)
}

/// The two generators of a Pedersen commitment scheme. A commitment to `v`
/// under the blinding factor `r` is `v * g + r * h`; it binds because nobody
/// knows the index of `h`, and it hides because `r` is uniform.
#[derive(Clone, Copy)]
pub struct PedersenCommitment {
    /// The generator that carries the value.
    pub g: RistrettoPoint,
    /// The generator that carries the blinding factor.
    pub h: RistrettoPoint,
}

/// Whether a commitment enters a combination as it is or negated.
#[derive(Clone, Copy, Debug, PartialEq, Eq, Structural)]
pub enum Sign {
    Plus,
    Minus,
}

/// The sum of the indices of `terms`, each taken with its sign.
pub open spec fn signed_sum(terms: Seq<(Sign, RistrettoPoint)>) -> int
    decreases terms.len(),
{
    if terms.len() == 0 {
        0
    } else {
        signed_sum(terms.drop_last()) + match terms.last().0 {
            Sign::Plus => terms.last().1@ as int,
            Sign::Minus => -(terms.last().1@ as int),
        }
    }
}

impl PedersenCommitment {
    /// The scheme whose value generator is the basepoint of the group and
    /// whose blinding generator is the SHA-512 hash-to-group of the
    /// basepoint's encoding: always the same two elements.
    ///
    /// The range proofs are about another scheme, whose blinding generator is
    /// derived with SHA3-512 (see `ZKProofSystem::commitments`). A commitment
    /// made here does not verify there.
    pub fn new() -> (pc: PedersenCommitment)
        ensures
            pc.g@ == 1,
            pc.g.encoding() == ristretto_base_mul(1),
            pc.h.encoding() == ristretto_from_sha512(ristretto_base_mul(1)),
            pc.h@ == point_index(ristretto_from_sha512(ristretto_base_mul(1))),
    {
        let g = RistrettoPoint::basepoint();
        let encoded = g.compress();
        let h = RistrettoPoint::hash_from_bytes(encoded.as_bytes().as_slice());
        PedersenCommitment { g, h }
    }

    /// The index of the commitment to `value` under `blinding` in this scheme.
    pub open spec fn commit_spec(&self, value: nat, blinding: nat) -> nat {
        commitment_index(self.g@, self.h@, value, blinding)
    }

    /// Commits to `value`: the element `value * g + blinding * h`.
    pub fn commit(&self, value: u64, blinding: Scalar) -> (c: RistrettoPoint)
        ensures
            c@ == self.commit_spec(value as nat, blinding@),
    {
        let scalars = vec![Scalar::from_u64(value), blinding];
        let points = vec![self.g, self.h];
        proof {
            lemma_linear_combination_of_two(
                scalar_values(scalars@),
                point_indices(points@),
            );
        }
        RistrettoPoint::multiscalar_mul(&scalars, &points)
    }
}

/// A combination of two terms is the sum of the two products.
pub proof fn lemma_linear_combination_of_two(coefficients: Seq<nat>, indices: Seq<nat>)
    requires
        coefficients.len() == 2,
        indices.len() == 2,
    ensures
        linear_combination(coefficients, indices) == coefficients[0] * indices[0]
            + coefficients[1] * indices[1],
{
    let c1 = coefficients.drop_last();
    let i1 = indices.drop_last();
    assert(linear_combination(c1.drop_last(), i1.drop_last()) == 0);
    assert(linear_combination(c1, i1) == c1.last() * i1.last());
}

/// Appending one coefficient and one index adds their product.
pub proof fn lemma_linear_combination_push(
    coefficients: Seq<nat>,
    indices: Seq<nat>,
    coefficient: nat,
    index: nat,
)
    requires
        coefficients.len() == indices.len(),
    ensures
        linear_combination(coefficients.push(coefficient), indices.push(index))
            == linear_combination(coefficients, indices) + coefficient * index,
{
    assert(coefficients.push(coefficient).drop_last() =~= coefficients);
    assert(indices.push(index).drop_last() =~= indices);
}

/// The signed linear combination of commitments, computed on the group
/// elements alone: `sum of sign[k] * terms[k]`.
pub fn combine(terms: &Vec<(Sign, RistrettoPoint)>) -> (c: RistrettoPoint)
    ensures
        c@ == reduce(signed_sum(terms@)),
{
    let one = Scalar::one();
    let minus_one = Scalar::zero().sub(&one);
    let mut scalars: Vec<Scalar> = Vec::new();
    let mut points: Vec<RistrettoPoint> = Vec::new();
    let mut i: usize = 0;
    while i < terms.len()
        invariant
            i <= terms.len(),
            one@ == 1,
            minus_one@ == sub_mod(0, 1),
            scalars.len() == i,
            points.len() == i,
            reduce(linear_combination(scalar_values(scalars@), point_indices(points@)) as int)
                == reduce(signed_sum(terms@.take(i as int))),
        decreases terms.len() - i,
    {
        let ghost before_scalars = scalar_values(scalars@);
        let ghost before_points = point_indices(points@);
        let ghost before = linear_combination(before_scalars, before_points) as int;
        let ghost partial = signed_sum(terms@.take(i as int));
        let (sign, point) = terms[i];
        let scalar = match sign {
            Sign::Plus => one,
            Sign::Minus => minus_one,
        };
        scalars.push(scalar);
        points.push(point);
        proof {
            assert(scalar_values(scalars@) =~= before_scalars.push(scalar@));
            assert(point_indices(points@) =~= before_points.push(point@));
            lemma_linear_combination_push(before_scalars, before_points, scalar@, point@);
            assert(terms@.take(i + 1).drop_last() =~= terms@.take(i as int));
            assert(terms@.take(i + 1).last() == terms@[i as int]);
            let p = point@ as int;
            match sign {
                Sign::Plus => {
                    assert(scalar@ * point@ == p) by (nonlinear_arith)
                        requires
                            scalar@ == 1,
                            p == point@,
                    ;
                    lemma_reduce_add(before, p);
                    lemma_reduce_add(partial, p);
                },
                Sign::Minus => {
                    // (l - 1) * p is congruent to -p.
                    lemma_reduce_mul(-1, p);
                    assert(reduce(-1) == scalar@);
                    assert((-1) * p == -p) by (nonlinear_arith);
                    assert(reduce((scalar@ * point@) as int) == reduce(-p));
                    lemma_reduce_add(before, (scalar@ * point@) as int);
                    lemma_reduce_add(before, -p);
                    lemma_reduce_add(partial, -p);
                },
            }
        }
        i += 1;
    }
    assert(terms@.take(terms.len() as int) =~= terms@);
    RistrettoPoint::multiscalar_mul(&scalars, &points)
}

/// Commitments add up: the sum of a commitment to `v1` under `r1` and one to
/// `v2` under `r2` is the commitment to `v1 + v2` under `r1 + r2`, the
/// blinding factors added modulo the group order.
pub proof fn lemma_commitments_add(g: nat, h: nat, v1: nat, r1: nat, v2: nat, r2: nat)
    ensures
        add_mod(commitment_index(g, h, v1, r1), commitment_index(g, h, v2, r2))
            == commitment_index(g, h, v1 + v2, add_mod(r1, r2)),
{
    let a = (v1 * g + r1 * h) as int;
    let b = (v2 * g + r2 * h) as int;
    lemma_reduce_add(a, b);
    lemma_reduce_mul((r1 + r2) as int, h as int);
    lemma_reduce_add(((v1 + v2) * g) as int, (add_mod(r1, r2) * h) as int);
    lemma_reduce_add(((v1 + v2) * g) as int, ((r1 + r2) * h) as int);
    assert(a + b == (v1 + v2) * g + (r1 + r2) * h) by (nonlinear_arith)
        requires
            a == v1 * g + r1 * h,
            b == v2 * g + r2 * h,
    ;
}

/// Commitments subtract: taking the commitments to `v2` and to `v3` away from
/// the commitment to `v1` leaves the commitment to `v1 - v2 - v3` under
/// `r1 - r2 - r3`, provided the values do not go below zero.
pub proof fn lemma_commitments_subtract(
    g: nat,
    h: nat,
    v1: nat,
    r1: nat,
    v2: nat,
    r2: nat,
    v3: nat,
    r3: nat,
)
    requires
        v1 >= v2 + v3,
    ensures
        reduce(
            commitment_index(g, h, v1, r1) - commitment_index(g, h, v2, r2) - commitment_index(
                g,
                h,
                v3,
                r3,
            ),
        ) == commitment_index(g, h, (v1 - v2 - v3) as nat, sub_mod(sub_mod(r1, r2), r3)),
{
    let a = (v1 * g + r1 * h) as int;
    let b = (v2 * g + r2 * h) as int;
    let c = (v3 * g + r3 * h) as int;
    let v = (v1 - v2 - v3) as nat;
    let r = sub_mod(sub_mod(r1, r2), r3);
    // Left: reduce(a - b - c).
    lemma_reduce_sub(a, b);
    lemma_reduce_sub(reduce(a) - reduce(b), reduce(c) as int);
    lemma_reduce_sub(a - b, c);
    assert(reduce(reduce(a) - reduce(b) - reduce(c)) == reduce(a - b - c));
    // Right: the blinding factor may be replaced by r1 - r2 - r3.
    lemma_reduce_sub(r1 - r2, r3 as int);
    assert(r == reduce(r1 - r2 - r3));
    lemma_reduce_mul(r1 - r2 - r3, h as int);
    lemma_reduce_add((v * g) as int, (r * h) as int);
    lemma_reduce_add((v * g) as int, (r1 - r2 - r3) * h);
    assert(a - b - c == v * g + (r1 - r2 - r3) * h) by (nonlinear_arith)
        requires
            a == v1 * g + r1 * h,
            b == v2 * g + r2 * h,
            c == v3 * g + r3 * h,
            v == v1 - v2 - v3,
    ;
}

} // verus!
