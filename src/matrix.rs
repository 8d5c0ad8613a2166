use vstd::prelude::*;

use crate::elementwise::{
    add_items, agree, copy_items, differences, differences_fit, sub_items, sums, sums_fit,
};
use crate::number::Number;
use crate::text::{decimal, ints, push_decimal};

verus! {

/// The error of a matrix whose column count does not divide its element count.
#[derive(Debug, Clone)]
pub struct MatrixError;

/// A matrix as plain values: its row-major elements, if any, its column
/// count and the name of its element type.
pub struct MatrixView {
    pub values: Option<Seq<int>>,
    pub columns: nat,
    pub element_type: Seq<char>,
}

/// A matrix stored as a flat row-major buffer with a column count.
#[derive(Debug, Clone)]
pub struct Matrix<T: Number> {
    element_type: String,
    values: Option<Vec<T>>,
    columns: usize,
}

/// Whether `len` elements can be laid out in rows of `columns`.
pub open spec fn dims_ok(len: nat, columns: nat) -> bool {
    columns > 0 && len % columns == 0
}

/// Matrix equality: equal column counts, both buffers present, and equal
/// elements wherever both buffers have one.
pub open spec fn matrix_eq(a: MatrixView, b: MatrixView) -> bool {
    &&& a.columns == b.columns
    &&& a.values matches Some(x)
    &&& b.values matches Some(y)
    &&& agree(x, y)
}

/// What matrix addition and subtraction need: where both buffers are present,
/// equal lengths and equal column counts.
pub open spec fn same_shape(a: MatrixView, b: MatrixView) -> bool {
    match (a.values, b.values) {
        (Some(x), Some(y)) => x.len() == y.len() && a.columns == b.columns,
        _ => true,
    }
}

/// The sum of two matrices; a matrix without a buffer leaves the other as it is.
pub open spec fn matrix_sum(a: MatrixView, b: MatrixView) -> MatrixView {
    match (a.values, b.values) {
        (None, _) => b,
        (_, None) => a,
        (Some(x), Some(y)) => MatrixView {
            values: Some(sums(x, y)),
            columns: a.columns,
            element_type: a.element_type,
        },
    }
}

/// The difference of two matrices; a matrix without a buffer leaves the other
/// as it is.
pub open spec fn matrix_difference(a: MatrixView, b: MatrixView) -> MatrixView {
    match (a.values, b.values) {
        (None, _) => b,
        (_, None) => a,
        (Some(x), Some(y)) => MatrixView {
            values: Some(differences(x, y)),
            columns: a.columns,
            element_type: a.element_type,
        },
    }
}

/// What closes the element at position `i` of `n` in rows of `c`.
pub open spec fn cell_end(n: nat, c: nat, i: int) -> Seq<char> {
    if i == n - 1 {
        " |"@
    } else if (i + 1) % (c as int) == 0 {
        " |\n|  "@
    } else {
        ",\t"@
    }
}

/// The text of the first `k` elements of `vs`, laid out in rows of `c`.
pub open spec fn cells(vs: Seq<int>, c: nat, k: int) -> Seq<char>
    decreases k,
{
    if k <= 0 {
        Seq::empty()
    } else {
        cells(vs, c, k - 1) + decimal(vs[k - 1]) + cell_end(vs.len(), c, k - 1)
    }
}

/// The text of a matrix: `<i32>\n|  1,\t2 |\n|  3,\t4 |`, or `<i32>\n[ ]`
/// without a buffer.
pub open spec fn matrix_text(m: MatrixView) -> Seq<char> {
    match m.values {
        None => "<"@ + m.element_type + ">\n[ ]"@,
        Some(vs) => "<"@ + m.element_type + ">\n|  "@ + if vs.len() == 0 {
            " |"@
        } else {
            cells(vs, m.columns, vs.len() as int)
        },
    }
}

impl<T: Number> View for Matrix<T> {
    type V = MatrixView;

    closed spec fn view(&self) -> MatrixView {
        MatrixView {
            values: match self.values {
                Some(v) => Some(ints(v@)),
                None => None,
            },
            columns: self.columns as nat,
            element_type: self.element_type@,
        }
    }
}

impl<T: Number> Matrix<T> {
    /// The matrix is labelled with its element type, and a present buffer
    /// fills whole rows.
    pub open spec fn wf(&self) -> bool {
        &&& self@.element_type == T::label()
        &&& match self@.values {
            Some(vs) => dims_ok(vs.len(), self@.columns),
            None => true,
        }
    }

    /// A matrix without a buffer and with no columns.
    pub fn new() -> (r: Matrix<T>)
        ensures
            r.wf(),
            r@ == (MatrixView { values: None, columns: 0, element_type: T::label() }),
    {
        Matrix { element_type: T::type_label(), values: None, columns: 0 }
    }

    /// A matrix of `values` in rows of `columns`; an error where `columns` is
    /// zero or does not divide the number of values.
    pub fn build(values: Vec<T>, columns: usize) -> (r: Result<Matrix<T>, MatrixError>)
        ensures
            r is Ok <==> dims_ok(values@.len(), columns as nat),
            r matches Ok(m) ==> m.wf() && m@ == (MatrixView {
                values: Some(ints(values@)),
                columns: columns as nat,
                element_type: T::label(),
            }),
    {
        if columns != 0 && values.len() % columns == 0 {
            Ok(Matrix { element_type: T::type_label(), values: Some(values), columns })
        } else {
            Err(MatrixError)
        }
    }

    fn duplicate(&self) -> (r: Matrix<T>)
        ensures
            r@ == self@,
    {
        let values = match &self.values {
            Some(v) => Some(copy_items(v)),
            None => None,
        };
        Matrix { element_type: self.element_type.clone(), values, columns: self.columns }
    }

    /// The elementwise sum; a matrix without a buffer yields the other one.
    pub fn add(&self, rhs: &Matrix<T>) -> (r: Matrix<T>)
        requires
            self.wf(),
            rhs.wf(),
            same_shape(self@, rhs@),
            self@.values is Some && rhs@.values is Some ==> sums_fit::<T>(
                self@.values->0,
                rhs@.values->0,
            ),
        ensures
            r.wf(),
            r@ == matrix_sum(self@, rhs@),
    {
        match (&self.values, &rhs.values) {
            (None, _) => rhs.duplicate(),
            (_, None) => self.duplicate(),
            (Some(v1), Some(v2)) => {
                let items = add_items(v1, v2);
                assert(ints(items@).len() == items@.len());
                assert(ints(v1@).len() == v1@.len());
                Matrix::build(items, self.columns).unwrap()
            },
        }
    }

    /// The elementwise difference; a matrix without a buffer yields the other
    /// one.
    pub fn sub(&self, rhs: &Matrix<T>) -> (r: Matrix<T>)
        requires
            self.wf(),
            rhs.wf(),
            same_shape(self@, rhs@),
            self@.values is Some && rhs@.values is Some ==> differences_fit::<T>(
                self@.values->0,
                rhs@.values->0,
            ),
        ensures
            r.wf(),
            r@ == matrix_difference(self@, rhs@),
    {
        match (&self.values, &rhs.values) {
            (None, _) => rhs.duplicate(),
            (_, None) => self.duplicate(),
            (Some(v1), Some(v2)) => {
                let items = sub_items(v1, v2);
                assert(ints(items@).len() == items@.len());
                assert(ints(v1@).len() == v1@.len());
                Matrix::build(items, self.columns).unwrap()
            },
        }
    }

    /// The text of the matrix, one line per row.
    pub fn render(&self) -> (r: String)
        requires
            self.wf(),
        ensures
            r@ == matrix_text(self@),
    {
        let mut out = String::from_str("<");
        out.append(self.element_type.as_str());
        match &self.values {
            None => {
                out.append(">\n[ ]");
            },
            Some(vs) => {
                out.append(">\n|  ");
                let n = vs.len();
                if n == 0 {
                    out.append(" |");
                } else {
                    let ghost start = out@;
                    let ghost xs = ints(vs@);
                    let mut i: usize = 0;
                    while i < n
                        invariant
                            n == vs@.len(),
                            xs == ints(vs@),
                            self.columns > 0,
                            i <= n,
                            out@ == start + cells(xs, self.columns as nat, i as int),
                        decreases n - i,
                    {
                        push_decimal(&mut out, vs[i].widen());
                        if i == n - 1 {
                            out.append(" |");
                        } else if (i + 1) % self.columns == 0 {
                            out.append(" |\n|  ");
                        } else {
                            out.append(",\t");
                        }
                        i = i + 1;
                        assert(out@ =~= start + cells(xs, self.columns as nat, i as int));
                    }
                }
            },
        }
        out
    }
}

impl<T: Number> PartialEq for Matrix<T> {
    fn eq(&self, other: &Matrix<T>) -> (r: bool) {
        if self.columns != other.columns {
            return false;
        }
        match (&self.values, &other.values) {
            (Some(v1), Some(v2)) => {
                let n = if v1.len() < v2.len() {
                    v1.len()
                } else {
                    v2.len()
                };
                let mut i: usize = 0;
                while i < n
                    invariant
                        self@.values == Some(ints(v1@)),
                        other@.values == Some(ints(v2@)),
                        self.columns == other.columns,
                        n <= v1@.len(),
                        n <= v2@.len(),
                        n == v1@.len() || n == v2@.len(),
                        i <= n,
                        forall|k: int| 0 <= k < i ==> #[trigger] ints(v1@)[k] == ints(v2@)[k],
                    decreases n - i,
                {
                    if !v1[i].same(&v2[i]) {
                        assert(ints(v1@).len() == v1@.len() && ints(v2@).len() == v2@.len());
                        assert(ints(v1@)[i as int] == v1@[i as int].value());
                        assert(ints(v2@)[i as int] == v2@[i as int].value());
                        assert(ints(v1@)[i as int] != ints(v2@)[i as int]);
                        return false;
                    }
                    i = i + 1;
                }
                true
            },
            _ => false,
        }
    }
}

impl<T: Number> vstd::std_specs::cmp::PartialEqSpecImpl for Matrix<T> {
    open spec fn obeys_eq_spec() -> bool {
        true
    }

    open spec fn eq_spec(&self, other: &Matrix<T>) -> bool {
        matrix_eq(self@, other@)
    }
}

} // verus!
