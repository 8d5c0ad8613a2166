use vstd::arithmetic::div_mod::lemma_fundamental_div_mod_converse;
use vstd::prelude::*;

use crate::elementwise::{
    add_items, agree, copy_items, differences, differences_fit, sub_items, sums, sums_fit,
};
use crate::matrix::{Matrix, MatrixView};
use crate::number::Number;
use crate::text::{bracketed, ints, joined, push_joined};

verus! {

/// The orientation of a vector.
#[derive(Debug, Clone, Copy, PartialEq, Eq, Structural)]
pub enum Direction {
    Row,
    Column,
}

/// The error of populating a vector that already holds values.
#[derive(Debug, Clone)]
pub struct VectorError;

/// A vector as plain values: its elements, if it has been populated, its
/// direction, if it has one, the name of its element type and its length.
pub struct VectorView {
    pub values: Option<Seq<int>>,
    pub direction: Option<Direction>,
    pub element_type: Seq<char>,
    pub length: nat,
}

/// A sequence of numbers that may not be populated yet and may carry a
/// direction.
#[derive(Debug, Clone)]
pub struct Vector<T: Number> {
    values: Option<Vec<T>>,
    direction: Option<Direction>,
    element_type: String,
    length: usize,
}

/// The elements of a vector; none where it is not populated.
pub open spec fn entries(v: VectorView) -> Seq<int> {
    match v.values {
        Some(s) => s,
        None => Seq::empty(),
    }
}

/// A vector that is not populated and has no direction.
pub open spec fn blank_vector(element_type: Seq<char>) -> VectorView {
    VectorView { values: None, direction: None, element_type, length: 0 }
}

/// Vector equality: equal type names, equal lengths and equal elements
/// wherever both have one. Direction plays no part, and a vector that is not
/// populated has no elements to differ.
pub open spec fn vector_eq(a: VectorView, b: VectorView) -> bool {
    &&& a.element_type == b.element_type
    &&& a.length == b.length
    &&& agree(entries(a), entries(b))
}

/// What `populate` does: whether it succeeds, and the vector after it.
pub open spec fn populate_outcome(v: VectorView, values: Seq<int>) -> (bool, VectorView) {
    match v.values {
        None => (
            true,
            VectorView {
                values: Some(values),
                direction: v.direction,
                element_type: v.element_type,
                length: values.len(),
            },
        ),
        Some(_) => (false, v),
    }
}

/// The direction of a sum or a difference: the left one's, else the right
/// one's, else `Row`.
pub open spec fn resolved(a: VectorView, b: VectorView) -> Direction {
    match a.direction {
        Some(d) => d,
        None => match b.direction {
            Some(d) => d,
            None => Direction::Row,
        },
    }
}

/// The sum of two vectors of one length; an empty left operand is returned
/// as it is.
pub open spec fn vector_sum(a: VectorView, b: VectorView) -> VectorView {
    if a.length == 0 {
        a
    } else {
        VectorView {
            values: Some(sums(entries(a), entries(b))),
            direction: Some(resolved(a, b)),
            element_type: a.element_type,
            length: a.length,
        }
    }
}

/// The difference of two vectors of one length; an empty left operand is
/// returned as it is.
pub open spec fn vector_difference(a: VectorView, b: VectorView) -> VectorView {
    if a.length == 0 {
        a
    } else {
        VectorView {
            values: Some(differences(entries(a), entries(b))),
            direction: Some(resolved(a, b)),
            element_type: a.element_type,
            length: a.length,
        }
    }
}

/// The products of a column `x` and a row `y`, in rows of `x.len()`: the
/// element at `j * x.len() + i` is `x[i] * y[j]`.
pub open spec fn outer(x: Seq<int>, y: Seq<int>) -> Seq<int> {
    Seq::new(x.len() * y.len(), |k: int| x[k % (x.len() as int)] * y[k / (x.len() as int)])
}

/// The sum of the first `k` position-by-position products of `x` and `y`.
pub open spec fn dot(x: Seq<int>, y: Seq<int>, k: int) -> int
    decreases k,
{
    if k <= 0 {
        0
    } else {
        dot(x, y, k - 1) + x[k - 1] * y[k - 1]
    }
}

/// The length of the shorter of `x` and `y`.
pub open spec fn shorter(x: Seq<int>, y: Seq<int>) -> int {
    if x.len() < y.len() {
        x.len() as int
    } else {
        y.len() as int
    }
}

/// Whether `T` holds every product of an element of `x` and one of `y`.
pub open spec fn outer_fits<T: Number>(x: Seq<int>, y: Seq<int>) -> bool {
    forall|i: int, j: int|
        #![trigger x[i], y[j]]
        0 <= i < x.len() && 0 <= j < y.len() ==> T::holds(x[i] * y[j])
}

/// Whether `T` holds each product of the inner product of `x` and `y`, and
/// each partial sum of them.
pub open spec fn dot_fits<T: Number>(x: Seq<int>, y: Seq<int>) -> bool {
    forall|k: int|
        0 < k <= shorter(x, y) ==> T::holds(#[trigger] dot(x, y, k)) && T::holds(
            x[k - 1] * y[k - 1],
        )
}

/// The inputs on which a product is defined: a column times a row, with a
/// non-empty column and a populated row, or a row times a column, both
/// non-empty; and `T` holds what is computed.
pub open spec fn product_defined<T: Number>(a: VectorView, b: VectorView) -> bool {
    ||| {
        &&& a.direction == Some(Direction::Column)
        &&& b.direction == Some(Direction::Row)
        &&& a.length > 0
        &&& b.values is Some
        &&& outer_fits::<T>(entries(a), entries(b))
    }
    ||| {
        &&& a.direction == Some(Direction::Row)
        &&& b.direction == Some(Direction::Column)
        &&& a.length > 0
        &&& b.length > 0
        &&& dot_fits::<T>(entries(a), entries(b))
    }
}

/// The product of two vectors: for a column times a row, the matrix of all
/// products in rows of the column's length; for a row times a column, the
/// one-element matrix of the inner product.
pub open spec fn vector_product(a: VectorView, b: VectorView) -> MatrixView {
    if a.direction == Some(Direction::Column) {
        MatrixView {
            values: Some(outer(entries(a), entries(b))),
            columns: a.length,
            element_type: a.element_type,
        }
    } else {
        MatrixView {
            values: Some(seq![dot(entries(a), entries(b), shorter(entries(a), entries(b)))]),
            columns: 1,
            element_type: a.element_type,
        }
    }
}

/// The text of a vector: a column one element per line, a row as a list,
/// and the direction's name or `Undirected` where something is missing.
pub open spec fn vector_text(v: VectorView) -> Seq<char> {
    let head = "<"@ + v.element_type;
    match v.direction {
        Some(Direction::Column) => match v.values {
            Some(vs) => head + ">\n[  "@ + joined(vs, ",\n   "@) + "  ]"@,
            None => head + "> Column []"@,
        },
        Some(Direction::Row) => match v.values {
            Some(vs) => head + "> "@ + bracketed(vs),
            None => head + "> Row []"@,
        },
        None => match v.values {
            Some(vs) => head + "> Undirected "@ + bracketed(vs),
            None => head + "> Undirected []"@,
        },
    }
}

impl<T: Number> View for Vector<T> {
    type V = VectorView;

    closed spec fn view(&self) -> VectorView {
        VectorView {
            values: match self.values {
                Some(v) => Some(ints(v@)),
                None => None,
            },
            direction: self.direction,
            element_type: self.element_type@,
            length: self.length as nat,
        }
    }
}

impl<T: Number> Vector<T> {
    /// The length is the number of elements, and the vector is labelled with
    /// its element type.
    pub open spec fn wf(&self) -> bool {
        &&& self@.length == entries(self@).len()
        &&& self@.element_type == T::label()
    }

    /// An undirected vector that is not populated.
    pub fn new() -> (r: Vector<T>)
        ensures
            r.wf(),
            r@ == blank_vector(T::label()),
    {
        Vector { values: None, direction: None, element_type: T::type_label(), length: 0 }
    }

    /// A vector of `values` in `direction`.
    pub fn build(values: Vec<T>, direction: Direction) -> (r: Vector<T>)
        ensures
            r.wf(),
            r@ == (VectorView {
                values: Some(ints(values@)),
                direction: Some(direction),
                element_type: T::label(),
                length: values@.len(),
            }),
    {
        Vector {
            length: values.len(),
            values: Some(values),
            direction: Some(direction),
            element_type: T::type_label(),
        }
    }

    /// Gives the vector its values, once: an error where it already has some,
    /// and then the vector is left as it was.
    pub fn populate(&mut self, values: Vec<T>) -> (r: Result<(), VectorError>)
        requires
            old(self).wf(),
        ensures
            final(self).wf(),
            (r is Ok, final(self)@) == populate_outcome(old(self)@, ints(values@)),
    {
        match self.values {
            None => {
                self.length = values.len();
                self.values = Some(values);
                Ok(())
            },
            Some(_) => Err(VectorError),
        }
    }

    /// Sets the direction.
    pub fn direct(&mut self, direction: Direction)
        requires
            old(self).wf(),
        ensures
            final(self).wf(),
            final(self)@ == (VectorView { direction: Some(direction), ..old(self)@ }),
    {
        self.direction = Some(direction);
    }

    fn duplicate(&self) -> (r: Vector<T>)
        ensures
            r@ == self@,
    {
        let values = match &self.values {
            Some(v) => Some(copy_items(v)),
            None => None,
        };
        Vector {
            values,
            direction: self.direction,
            element_type: self.element_type.clone(),
            length: self.length,
        }
    }

    fn resolve(&self, rhs: &Vector<T>) -> (r: Direction)
        ensures
            r == resolved(self@, rhs@),
    {
        match self.direction {
            Some(d) => d,
            None => match rhs.direction {
                Some(d) => d,
                None => Direction::Row,
            },
        }
    }

    /// The elementwise sum of two vectors of one length.
    pub fn add(&self, rhs: &Vector<T>) -> (r: Vector<T>)
        requires
            self.wf(),
            rhs.wf(),
            self@.length == rhs@.length,
            sums_fit::<T>(entries(self@), entries(rhs@)),
        ensures
            r.wf(),
            r@ == vector_sum(self@, rhs@),
    {
        if self.length == 0 {
            return self.duplicate();
        }
        let direction = self.resolve(rhs);
        let x = self.values.as_ref().unwrap();
        let y = rhs.values.as_ref().unwrap();
        Vector::build(add_items(x, y), direction)
    }

    /// The elementwise difference of two vectors of one length.
    pub fn sub(&self, rhs: &Vector<T>) -> (r: Vector<T>)
        requires
            self.wf(),
            rhs.wf(),
            self@.length == rhs@.length,
            differences_fit::<T>(entries(self@), entries(rhs@)),
        ensures
            r.wf(),
            r@ == vector_difference(self@, rhs@),
    {
        if self.length == 0 {
            return self.duplicate();
        }
        let direction = self.resolve(rhs);
        let x = self.values.as_ref().unwrap();
        let y = rhs.values.as_ref().unwrap();
        Vector::build(sub_items(x, y), direction)
    }

    /// The product of two directed vectors: a column times a row gives the
    /// matrix of all products, a row times a column their inner product.
    pub fn mul(&self, rhs: &Vector<T>) -> (r: Matrix<T>)
        requires
            self.wf(),
            rhs.wf(),
            product_defined::<T>(self@, rhs@),
        ensures
            r.wf(),
            r@ == vector_product(self@, rhs@),
    {
        let xs = self.values.as_ref().unwrap();
        let ys = rhs.values.as_ref().unwrap();
        let ghost ix = ints(xs@);
        let ghost iy = ints(ys@);
        match self.direction {
            Some(Direction::Column) => {
                let n = xs.len();
                let m = ys.len();
                let mut out: Vec<T> = Vec::new();
                let mut j: usize = 0;
                while j < m
                    invariant
                        n == xs@.len(),
                        m == ys@.len(),
                        ix == ints(xs@),
                        iy == ints(ys@),
                        n > 0,
                        j <= m,
                        outer_fits::<T>(ix, iy),
                        ints(out@) =~= outer(ix, iy).take(j * n),
                    decreases m - j,
                {
                    let mut i: usize = 0;
                    while i < n
                        invariant
                            n == xs@.len(),
                            m == ys@.len(),
                            ix == ints(xs@),
                            iy == ints(ys@),
                            n > 0,
                            j < m,
                            i <= n,
                            outer_fits::<T>(ix, iy),
                            ints(out@) =~= outer(ix, iy).take(j * n + i),
                        decreases n - i,
                    {
                        proof {
                            assert((j + 1) * n <= m * n) by (nonlinear_arith)
                                requires
                                    j + 1 <= m,
                            ;
                            lemma_fundamental_div_mod_converse(
                                j * n + i,
                                n as int,
                                j as int,
                                i as int,
                            );
                            assert(ix[i as int] == xs@[i as int].value());
                            assert(iy[j as int] == ys@[j as int].value());
                            assert(T::holds(ix[i as int] * iy[j as int]));
                            assert(j * n + i < n * m) by (nonlinear_arith)
                                requires
                                    j < m,
                                    i < n,
                            ;
                            assert(outer(ix, iy)[j * n + i] == ix[i as int] * iy[j as int]);
                        }
                        let p = xs[i].times(ys[j]);
                        let ghost before = out@;
                        out.push(p);
                        assert(ints(out@) =~= ints(before).push(p.value()));
                        i = i + 1;
                        assert(ints(out@) =~= outer(ix, iy).take(j * n + i));
                    }
                    j = j + 1;
                    assert(j * n == (j - 1) * n + n) by (nonlinear_arith);
                }
                proof {
                    assert(outer(ix, iy).len() == m * n) by (nonlinear_arith)
                        requires
                            ix.len() == n,
                            iy.len() == m,
                    ;
                    assert(ints(out@) =~= outer(ix, iy));
                    lemma_fundamental_div_mod_converse((m * n) as int, n as int, m as int, 0);
                }
                Matrix::build(out, n).unwrap()
            },
            _ => {
                let n = if xs.len() < ys.len() {
                    xs.len()
                } else {
                    ys.len()
                };
                proof {
                    assert(ix[0] == xs@[0].value());
                    assert(iy[0] == ys@[0].value());
                    assert(dot(ix, iy, 0) == 0);
                    assert(dot(ix, iy, 1) == ix[0] * iy[0]);
                }
                let mut sum = xs[0].times(ys[0]);
                let mut k: usize = 1;
                while k < n
                    invariant
                        n == shorter(ix, iy),
                        n <= xs@.len(),
                        n <= ys@.len(),
                        ix == ints(xs@),
                        iy == ints(ys@),
                        1 <= k <= n,
                        dot_fits::<T>(ix, iy),
                        sum.value() == dot(ix, iy, k as int),
                    decreases n - k,
                {
                    proof {
                        assert(ix[k as int] == xs@[k as int].value());
                        assert(iy[k as int] == ys@[k as int].value());
                        assert(T::holds(dot(ix, iy, k + 1)));
                    }
                    let p = xs[k].times(ys[k]);
                    sum = sum.plus(p);
                    k = k + 1;
                }
                let out = vec![sum];
                assert(ints(out@) =~= seq![dot(ix, iy, shorter(ix, iy))]);
                Matrix::build(out, 1).unwrap()
            },
        }
    }

    /// The text of the vector.
    pub fn render(&self) -> (r: String)
        ensures
            r@ == vector_text(self@),
    {
        let mut out = String::from_str("<");
        out.append(self.element_type.as_str());
        match self.direction {
            Some(Direction::Column) => match &self.values {
                Some(vs) => {
                    out.append(">\n[  ");
                    push_joined(&mut out, vs, ",\n   ");
                    out.append("  ]");
                    assert(out@ =~= vector_text(self@));
                },
                None => {
                    out.append("> Column []");
                },
            },
            Some(Direction::Row) => match &self.values {
                Some(vs) => {
                    out.append("> ");
                    out.append("[");
                    push_joined(&mut out, vs, ", ");
                    out.append("]");
                    assert(out@ =~= vector_text(self@));
                },
                None => {
                    out.append("> Row []");
                },
            },
            None => match &self.values {
                Some(vs) => {
                    out.append("> Undirected ");
                    out.append("[");
                    push_joined(&mut out, vs, ", ");
                    out.append("]");
                    assert(out@ =~= vector_text(self@));
                },
                None => {
                    out.append("> Undirected []");
                },
            },
        }
        out
    }
}

impl<T: Number> PartialEq for Vector<T> {
    fn eq(&self, other: &Vector<T>) -> (r: bool) {
        if self.length != other.length {
            return false;
        }
        if !(self.element_type == other.element_type) {
            return false;
        }
        match (&self.values, &other.values) {
            (Some(v1), Some(v2)) => {
                let n = if v1.len() < v2.len() {
                    v1.len()
                } else {
                    v2.len()
                };
                let mut i: usize = 0;
                while i < n
                    invariant
                        self@.values == Some(ints(v1@)),
                        other@.values == Some(ints(v2@)),
                        n <= v1@.len(),
                        n <= v2@.len(),
                        n == v1@.len() || n == v2@.len(),
                        i <= n,
                        forall|k: int| 0 <= k < i ==> #[trigger] ints(v1@)[k] == ints(v2@)[k],
                    decreases n - i,
                {
                    if !v1[i].same(&v2[i]) {
                        assert(ints(v1@).len() == v1@.len() && ints(v2@).len() == v2@.len());
                        assert(ints(v1@)[i as int] == v1@[i as int].value());
                        assert(ints(v2@)[i as int] == v2@[i as int].value());
                        return false;
                    }
                    i = i + 1;
                }
                assert(ints(v1@).len() == v1@.len() && ints(v2@).len() == v2@.len());
                true
            },
            _ => true,
        }
    }
}

impl<T: Number> vstd::std_specs::cmp::PartialEqSpecImpl for Vector<T> {
    open spec fn obeys_eq_spec() -> bool {
        true
    }

    open spec fn eq_spec(&self, other: &Vector<T>) -> bool {
        vector_eq(self@, other@)
    }
}

} // verus!
