use linear::Direction::{Column, Row};
use linear::{Matrix, Vector};

#[test]
fn new_vector_of_any_type_is_blank() {
    assert_eq!(Vector::<u8>::new().render(), "<u8> Undirected []");
    assert_eq!(Vector::<i64>::new().render(), "<i64> Undirected []");
    assert_eq!(Vector::<u16>::new(), Vector::<u16>::new());
}

#[test]
fn populate_succeeds_only_once() {
    let mut v = Vector::<i32>::new();
    assert!(v.populate(vec![5, 6]).is_ok());
    assert!(v.populate(vec![7, 8, 9]).is_err());
    assert_eq!(v, Vector::<i32>::build(vec![5, 6], Row));
    assert_eq!(v.render(), "<i32> Undirected [5, 6]");
}

#[test]
fn populate_fails_on_built_vector() {
    let mut v = Vector::<i32>::build(vec![], Row);
    assert!(v.populate(vec![1]).is_err());
    assert_eq!(v.render(), "<i32> []");
}

#[test]
fn unpopulated_vectors_of_one_type_are_equal() {
    let mut a = Vector::<i32>::new();
    a.direct(Column);
    let b = Vector::<i32>::new();
    assert_eq!(a, b);
    let empty = Vector::<i32>::build(vec![], Row);
    assert_eq!(a, empty);
}

#[test]
fn direct_overwrites_direction() {
    let mut v = Vector::<i8>::build(vec![-3, 5], Row);
    assert_eq!(v.render(), "<i8> [-3, 5]");
    v.direct(Column);
    assert_eq!(v.render(), "<i8>\n[  -3,\n   5  ]");
}

#[test]
fn render_directed_unpopulated_column() {
    let mut v = Vector::<u32>::new();
    v.direct(Column);
    assert_eq!(v.render(), "<u32> Column []");
}

#[test]
fn render_large_and_negative_numbers() {
    let v = Vector::<i64>::build(vec![i64::MIN, 0, i64::MAX], Row);
    assert_eq!(
        v.render(),
        "<i64> [-9223372036854775808, 0, 9223372036854775807]"
    );
    let w = Vector::<u64>::build(vec![u64::MAX, 10, 100], Row);
    assert_eq!(w.render(), "<u64> [18446744073709551615, 10, 100]");
}

#[test]
fn render_empty_column() {
    let v = Vector::<u8>::build(vec![], Column);
    assert_eq!(v.render(), "<u8>\n[    ]");
}

#[test]
fn sum_direction_resolution() {
    let mut left = Vector::<i32>::new();
    left.populate(vec![1, 2]).unwrap();
    let right = Vector::<i32>::build(vec![10, 20], Column);
    assert_eq!(left.add(&right).render(), "<i32>\n[  11,\n   22  ]");

    let mut other = Vector::<i32>::new();
    other.populate(vec![1, 1]).unwrap();
    assert_eq!(left.add(&other).render(), "<i32> [2, 3]");

    let row = Vector::<i32>::build(vec![1, 1], Row);
    assert_eq!(row.add(&right).render(), "<i32> [11, 21]");
}

#[test]
fn sum_of_empty_vectors_keeps_left() {
    let left = Vector::<i32>::new();
    let right = Vector::<i32>::build(vec![], Column);
    assert_eq!(left.add(&right).render(), "<i32> Undirected []");
    assert_eq!(right.sub(&left).render(), "<i32>\n[    ]");
}

#[test]
fn subtraction_does_not_commute() {
    let a = Vector::<i32>::build(vec![7, 6, 5], Row);
    let b = Vector::<i32>::build(vec![3, 2, 1], Row);
    assert_ne!(a.sub(&b), b.sub(&a));
    assert_eq!(a.sub(&b).render(), "<i32> [4, 4, 4]");
    assert_eq!(b.sub(&a).render(), "<i32> [-4, -4, -4]");
}

#[test]
fn column_times_row_is_outer_product() {
    let c = Vector::<i32>::build(vec![1, 2], Column);
    let r = Vector::<i32>::build(vec![3, 4], Row);
    let m = c.mul(&r);
    assert_eq!(m, Matrix::build(vec![3, 6, 4, 8], 2).unwrap());
    assert_eq!(m.render(), "<i32>\n|  3,\t6 |\n|  4,\t8 |");
}

#[test]
fn column_times_longer_row() {
    let c = Vector::<i32>::build(vec![1, 2], Column);
    let r = Vector::<i32>::build(vec![1, 10, 100], Row);
    let m = c.mul(&r);
    assert_eq!(m.render(), "<i32>\n|  1,\t2 |\n|  10,\t20 |\n|  100,\t200 |");
}

#[test]
fn row_times_column_is_inner_product() {
    let r = Vector::<i32>::build(vec![1, 2, 3], Row);
    let c = Vector::<i32>::build(vec![1, 1, 1], Column);
    let m = r.mul(&c);
    assert_eq!(m, Matrix::build(vec![6], 1).unwrap());
    assert_eq!(m.render(), "<i32>\n|  6 |");

    let r2 = Vector::<i32>::build(vec![2, 3], Row);
    let c2 = Vector::<i32>::build(vec![4, 5], Column);
    assert_eq!(r2.mul(&c2).render(), "<i32>\n|  23 |");
}

#[test]
fn matrix_build_rejects_bad_dimensions() {
    assert!(Matrix::<i32>::build(vec![1, 2, 3], 2).is_err());
    assert!(Matrix::<i32>::build(vec![1, 2, 3], 0).is_err());
    assert!(Matrix::<i32>::build(vec![], 0).is_err());
    assert!(Matrix::<i32>::build(vec![], 3).is_ok());
    assert!(Matrix::<i32>::build(vec![1, 2, 3, 4, 5, 6], 3).is_ok());
}

#[test]
fn matrix_render_layouts() {
    let m = Matrix::<i32>::build(vec![1, 2, 3, 4, 5, 6], 3).unwrap();
    assert_eq!(m.render(), "<i32>\n|  1,\t2,\t3 |\n|  4,\t5,\t6 |");
    let col = Matrix::<u8>::build(vec![7, 8], 1).unwrap();
    assert_eq!(col.render(), "<u8>\n|  7 |\n|  8 |");
    let empty = Matrix::<i16>::build(vec![], 2).unwrap();
    assert_eq!(empty.render(), "<i16>\n|   |");
}

#[test]
fn matrix_equality_rules() {
    let a = Matrix::<i32>::build(vec![1, 2, 3, 4], 2).unwrap();
    let same = Matrix::<i32>::build(vec![1, 2, 3, 4], 2).unwrap();
    let wider = Matrix::<i32>::build(vec![1, 2, 3, 4], 4).unwrap();
    assert_eq!(a, same);
    assert_ne!(a, wider);
    assert_ne!(Matrix::<i32>::new(), Matrix::<i32>::new());
    assert_ne!(a, Matrix::<i32>::new());
}

#[test]
fn matrix_sub_and_missing_buffers() {
    let a = Matrix::<i32>::build(vec![5, 5, 5, 5], 2).unwrap();
    let b = Matrix::<i32>::build(vec![1, 2, 3, 4], 2).unwrap();
    assert_eq!(a.sub(&b), Matrix::build(vec![4, 3, 2, 1], 2).unwrap());
    assert_eq!(b.sub(&a).render(), "<i32>\n|  -4,\t-3 |\n|  -2,\t-1 |");
    let none = Matrix::<i32>::new();
    assert_eq!(none.add(&b), b);
    assert_eq!(b.sub(&none), b);
    assert_eq!(none.sub(&a), a);
}
