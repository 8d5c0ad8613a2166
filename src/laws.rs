use vstd::arithmetic::div_mod::lemma_fundamental_div_mod_converse;
use vstd::prelude::*;

use crate::elementwise::{differences, sums};
use crate::number::Number;
use crate::vector::{
    blank_vector, entries, outer, populate_outcome, product_defined, resolved, vector_difference,
    vector_eq, vector_product, vector_sum, vector_text, Direction, VectorView,
};

verus! {

/// Whether the recorded length of `v` is the number of its elements.
pub open spec fn consistent(v: VectorView) -> bool {
    v.length == entries(v).len()
}

/// A new vector reads `<T> Undirected []`.
pub proof fn blank_vector_text(element_type: Seq<char>)
    ensures
        vector_text(blank_vector(element_type)) == "<"@ + element_type + "> Undirected []"@,
{
}

/// Populating a vector without values succeeds and stores them; populating it
/// again then fails and leaves it as the first call left it.
pub proof fn populate_succeeds_once(v: VectorView, first: Seq<int>, second: Seq<int>)
    requires
        v.values is None,
    ensures
        populate_outcome(v, first).0,
        populate_outcome(v, first).1.values == Some(first),
        populate_outcome(populate_outcome(v, first).1, second) == (
            false,
            populate_outcome(v, first).1,
        ),
{
}

/// Equality does not look at direction.
pub proof fn equality_ignores_direction(v: VectorView, direction: Option<Direction>)
    ensures
        vector_eq(v, VectorView { direction, ..v }),
{
}

/// Vectors of different lengths are not equal.
pub proof fn equality_needs_equal_lengths(a: VectorView, b: VectorView)
    requires
        a.length != b.length,
    ensures
        !vector_eq(a, b),
{
}

/// Vectors that differ at some position are not equal.
pub proof fn equality_needs_equal_elements(a: VectorView, b: VectorView, i: int)
    requires
        0 <= i < entries(a).len(),
        i < entries(b).len(),
        entries(a)[i] != entries(b)[i],
    ensures
        !vector_eq(a, b),
{
}

/// The sum of two non-empty vectors of one length adds position by position,
/// takes the left direction, else the right one, else `Row`, and equals the
/// vector of those sums in either direction.
pub proof fn sum_is_elementwise(a: VectorView, b: VectorView, direction: Direction)
    requires
        consistent(a),
        consistent(b),
        a.length == b.length,
        a.length > 0,
    ensures
        vector_sum(a, b).length == a.length,
        forall|i: int|
            0 <= i < a.length ==> #[trigger] entries(vector_sum(a, b))[i] == entries(a)[i]
                + entries(b)[i],
        vector_sum(a, b).direction == Some(
            match a.direction {
                Some(d) => d,
                None => match b.direction {
                    Some(d) => d,
                    None => Direction::Row,
                },
            },
        ),
        vector_eq(
            vector_sum(a, b),
            VectorView {
                values: Some(sums(entries(a), entries(b))),
                direction: Some(direction),
                element_type: a.element_type,
                length: a.length,
            },
        ),
{
}

/// The difference of two non-empty vectors of one length subtracts position
/// by position and takes its direction as a sum does.
pub proof fn difference_is_elementwise(a: VectorView, b: VectorView, direction: Direction)
    requires
        consistent(a),
        consistent(b),
        a.length == b.length,
        a.length > 0,
    ensures
        vector_difference(a, b).length == a.length,
        forall|i: int|
            0 <= i < a.length ==> #[trigger] entries(vector_difference(a, b))[i] == entries(a)[i]
                - entries(b)[i],
        vector_difference(a, b).direction == Some(resolved(a, b)),
        vector_eq(
            vector_difference(a, b),
            VectorView {
                values: Some(differences(entries(a), entries(b))),
                direction: Some(direction),
                element_type: a.element_type,
                length: a.length,
            },
        ),
{
}

/// Subtraction does not commute: where two vectors of one length differ at
/// some position, `a - b` and `b - a` are not equal.
pub proof fn difference_does_not_commute(a: VectorView, b: VectorView, i: int)
    requires
        consistent(a),
        consistent(b),
        a.length == b.length,
        0 <= i < a.length,
        entries(a)[i] != entries(b)[i],
    ensures
        !vector_eq(vector_difference(a, b), vector_difference(b, a)),
{
    assert(entries(vector_difference(a, b))[i] != entries(vector_difference(b, a))[i]);
}

/// A column times a row is a matrix with as many columns as the column has
/// elements, whose element at `j * n + i` is the column's `i`-th element times
/// the row's `j`-th.
pub proof fn column_times_row_layout<T: Number>(a: VectorView, b: VectorView, i: int, j: int)
    requires
        consistent(a),
        consistent(b),
        product_defined::<T>(a, b),
        a.direction == Some(Direction::Column),
        0 <= i < a.length,
        0 <= j < b.length,
    ensures
        vector_product(a, b).columns == a.length,
        vector_product(a, b).values->0.len() == a.length * b.length,
        vector_product(a, b).values->0[j * a.length + i] == entries(a)[i] * entries(b)[j],
{
    let n = a.length as int;
    let m = b.length as int;
    assert(j * n + i < n * m) by (nonlinear_arith)
        requires
            0 <= i < n,
            0 <= j < m,
    ;
    lemma_fundamental_div_mod_converse(j * n + i, n, j, i);
    assert(outer(entries(a), entries(b))[j * n + i] == entries(a)[i] * entries(b)[j]);
}

/// Two vectors of one direction have no product.
pub proof fn same_directions_have_no_product<T: Number>(a: VectorView, b: VectorView)
    requires
        a.direction == b.direction,
    ensures
        !product_defined::<T>(a, b),
{
}

} // verus!
