use vstd::prelude::*;

use crate::number::Number;
use crate::text::ints;

verus! {

/// The position-by-position sums of `x` and `y`, over the length of `x`.
pub open spec fn sums(x: Seq<int>, y: Seq<int>) -> Seq<int> {
    Seq::new(x.len(), |i: int| x[i] + y[i])
}

/// The position-by-position differences of `x` and `y`, over the length of `x`.
pub open spec fn differences(x: Seq<int>, y: Seq<int>) -> Seq<int> {
    Seq::new(x.len(), |i: int| x[i] - y[i])
}

/// Whether `x` and `y` have equal elements wherever both have one.
pub open spec fn agree(x: Seq<int>, y: Seq<int>) -> bool {
    forall|i: int| 0 <= i < x.len() && i < y.len() ==> #[trigger] x[i] == y[i]
}

/// Whether `T` holds every position-by-position sum of `x` and `y`.
pub open spec fn sums_fit<T: Number>(x: Seq<int>, y: Seq<int>) -> bool {
    forall|i: int| 0 <= i < x.len() ==> T::holds(#[trigger] x[i] + y[i])
}

/// Whether `T` holds every position-by-position difference of `x` and `y`.
pub open spec fn differences_fit<T: Number>(x: Seq<int>, y: Seq<int>) -> bool {
    forall|i: int| 0 <= i < x.len() ==> T::holds(#[trigger] x[i] - y[i])
}

pub fn add_items<T: Number>(x: &Vec<T>, y: &Vec<T>) -> (r: Vec<T>)
    requires
        x@.len() == y@.len(),
        sums_fit::<T>(ints(x@), ints(y@)),
    ensures
        ints(r@) == sums(ints(x@), ints(y@)),
{
    let mut r: Vec<T> = Vec::new();
    let n = x.len();
    let mut i: usize = 0;
    while i < n
        invariant
            n == x@.len(),
            n == y@.len(),
            i <= n,
            sums_fit::<T>(ints(x@), ints(y@)),
            ints(r@) =~= sums(ints(x@), ints(y@)).take(i as int),
        decreases n - i,
    {
        assert(T::holds(ints(x@)[i as int] + ints(y@)[i as int]));
        let v = x[i].plus(y[i]);
        let ghost before = r@;
        r.push(v);
        assert(ints(r@) =~= ints(before).push(v.value()));
        i = i + 1;
        assert(ints(r@) =~= sums(ints(x@), ints(y@)).take(i as int));
    }
    assert(ints(r@) =~= sums(ints(x@), ints(y@)));
    r
}

pub fn sub_items<T: Number>(x: &Vec<T>, y: &Vec<T>) -> (r: Vec<T>)
    requires
        x@.len() == y@.len(),
        differences_fit::<T>(ints(x@), ints(y@)),
    ensures
        ints(r@) == differences(ints(x@), ints(y@)),
{
    let mut r: Vec<T> = Vec::new();
    let n = x.len();
    let mut i: usize = 0;
    while i < n
        invariant
            n == x@.len(),
            n == y@.len(),
            i <= n,
            differences_fit::<T>(ints(x@), ints(y@)),
            ints(r@) =~= differences(ints(x@), ints(y@)).take(i as int),
        decreases n - i,
    {
        assert(T::holds(ints(x@)[i as int] - ints(y@)[i as int]));
        let v = x[i].minus(y[i]);
        let ghost before = r@;
        r.push(v);
        assert(ints(r@) =~= ints(before).push(v.value()));
        i = i + 1;
        assert(ints(r@) =~= differences(ints(x@), ints(y@)).take(i as int));
    }
    assert(ints(r@) =~= differences(ints(x@), ints(y@)));
    r
}

pub fn copy_items<T: Number>(x: &Vec<T>) -> (r: Vec<T>)
    ensures
        r@ == x@,
{
    let mut r: Vec<T> = Vec::new();
    let n = x.len();
    let mut i: usize = 0;
    while i < n
        invariant
            n == x@.len(),
            i <= n,
            r@ =~= x@.take(i as int),
        decreases n - i,
    {
        r.push(x[i]);
        i = i + 1;
        assert(r@ =~= x@.take(i as int));
    }
    assert(r@ =~= x@);
    r
}

} // verus!
