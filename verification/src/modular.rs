use vstd::prelude::*;
use vstd::arithmetic::div_mod::*;
use crate::scalar::{group_order, reduce};

verus! {

/// A reduced integer is below the group order, and an integer that already is
/// stays as it is.
pub proof fn lemma_reduce_range(x: int)
    ensures
        reduce(x) < group_order(),
        0 <= x < group_order() ==> reduce(x) == x,
{
    lemma_mod_bound(x, group_order() as int);
    if 0 <= x < group_order() {
        lemma_small_mod(x as nat, group_order());
    }
}

/// Reducing the terms of a sum first changes nothing.
pub proof fn lemma_reduce_add(x: int, y: int)
    ensures
        reduce((reduce(x) + reduce(y)) as int) == reduce(x + y),
        reduce(reduce(x) + y) == reduce(x + y),
        reduce(x + reduce(y)) == reduce(x + y),
{
    let m = group_order() as int;
    lemma_add_mod_noop(x, y, m);
    lemma_add_mod_noop(x % m, y, m);
    lemma_add_mod_noop(x, y % m, m);
    lemma_mod_twice(x, m);
    lemma_mod_twice(y, m);
}

/// Reducing the terms of a difference first changes nothing.
pub proof fn lemma_reduce_sub(x: int, y: int)
    ensures
        reduce(reduce(x) - reduce(y)) == reduce(x - y),
        reduce(reduce(x) - y) == reduce(x - y),
        reduce(x - reduce(y)) == reduce(x - y),
{
    let m = group_order() as int;
    lemma_sub_mod_noop(x, y, m);
    lemma_sub_mod_noop(x % m, y, m);
    lemma_sub_mod_noop(x, y % m, m);
    lemma_mod_twice(x, m);
    lemma_mod_twice(y, m);
}

/// Reducing the factors of a product first changes nothing.
pub proof fn lemma_reduce_mul(x: int, y: int)
    ensures
        reduce((reduce(x) * reduce(y)) as int) == reduce(x * y),
        reduce(reduce(x) * y) == reduce(x * y),
        reduce(x * reduce(y)) == reduce(x * y),
{
    let m = group_order() as int;
    lemma_mul_mod_noop_general(x, y, m);
}

} // verus!
