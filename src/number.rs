use vstd::prelude::*;

verus! {

/// The element types that vectors and matrices hold: integers with checked
/// arithmetic, a widening to `i128` for printing, and a type name.
pub trait Number: Copy + Sized {
    /// The integer that a value stands for.
    spec fn value(self) -> int;

    /// Whether the type can hold the integer `v`.
    spec fn holds(v: int) -> bool;

    /// The name of the type, as it is printed before a vector or a matrix.
    spec fn label() -> Seq<char>;

    /// The sum, where the type holds it.
    fn plus(self, o: Self) -> (r: Self)
        requires
            Self::holds(self.value() + o.value()),
        ensures
            r.value() == self.value() + o.value(),
    ;

    /// The difference, where the type holds it.
    fn minus(self, o: Self) -> (r: Self)
        requires
            Self::holds(self.value() - o.value()),
        ensures
            r.value() == self.value() - o.value(),
    ;

    /// The product, where the type holds it.
    fn times(self, o: Self) -> (r: Self)
        requires
            Self::holds(self.value() * o.value()),
        ensures
            r.value() == self.value() * o.value(),
    ;

    /// Whether two values are equal.
    fn same(&self, o: &Self) -> (r: bool)
        ensures
            r == (self.value() == o.value()),
    ;

    /// The value as an `i128`, which holds every value of the type.
    fn widen(self) -> (r: i128)
        ensures
            r as int == self.value(),
    ;

    /// The name of the type.
    fn type_label() -> (r: String)
        ensures
            r@ == Self::label(),
    ;
}

impl Number for i32 {
    open spec fn value(self) -> int {
        self as int
    }

    open spec fn holds(v: int) -> bool {
        i32::MIN <= v <= i32::MAX
    }

    open spec fn label() -> Seq<char> {
        seq!['i', '3', '2']
    }

    fn plus(self, o: Self) -> (r: Self) {
        self + o
    }

    fn minus(self, o: Self) -> (r: Self) {
        self - o
    }

    fn times(self, o: Self) -> (r: Self) {
        self * o
    }

    fn same(&self, o: &Self) -> (r: bool) {
        *self == *o
    }

    fn widen(self) -> (r: i128) {
        self as i128
    }

    fn type_label() -> (r: String) {
        proof {
            reveal_strlit("i32");
        }
        String::from_str("i32")
    }
}
impl Number for i8 {
    open spec fn value(self) -> int {
        self as int
    }

    open spec fn holds(v: int) -> bool {
        i8::MIN <= v <= i8::MAX
    }

    open spec fn label() -> Seq<char> {
        seq!['i', '8']
    }

    fn plus(self, o: Self) -> (r: Self) {
        self + o
    }

    fn minus(self, o: Self) -> (r: Self) {
        self - o
    }

    fn times(self, o: Self) -> (r: Self) {
        self * o
    }

    fn same(&self, o: &Self) -> (r: bool) {
        *self == *o
    }

    fn widen(self) -> (r: i128) {
        self as i128
    }

    fn type_label() -> (r: String) {
        proof {
            reveal_strlit("i8");
        }
        String::from_str("i8")
    }
}

impl Number for i16 {
    open spec fn value(self) -> int {
        self as int
    }

    open spec fn holds(v: int) -> bool {
        i16::MIN <= v <= i16::MAX
    }

    open spec fn label() -> Seq<char> {
        seq!['i', '1', '6']
    }

    fn plus(self, o: Self) -> (r: Self) {
        self + o
    }

    fn minus(self, o: Self) -> (r: Self) {
        self - o
    }

    fn times(self, o: Self) -> (r: Self) {
        self * o
    }

    fn same(&self, o: &Self) -> (r: bool) {
        *self == *o
    }

    fn widen(self) -> (r: i128) {
        self as i128
    }

    fn type_label() -> (r: String) {
        proof {
            reveal_strlit("i16");
        }
        String::from_str("i16")
    }
}

impl Number for i64 {
    open spec fn value(self) -> int {
        self as int
    }

    open spec fn holds(v: int) -> bool {
        i64::MIN <= v <= i64::MAX
    }

    open spec fn label() -> Seq<char> {
        seq!['i', '6', '4']
    }

    fn plus(self, o: Self) -> (r: Self) {
        self + o
    }

    fn minus(self, o: Self) -> (r: Self) {
        self - o
    }

    fn times(self, o: Self) -> (r: Self) {
        self * o
    }

    fn same(&self, o: &Self) -> (r: bool) {
        *self == *o
    }

    fn widen(self) -> (r: i128) {
        self as i128
    }

    fn type_label() -> (r: String) {
        proof {
            reveal_strlit("i64");
        }
        String::from_str("i64")
    }
}

impl Number for u8 {
    open spec fn value(self) -> int {
        self as int
    }

    open spec fn holds(v: int) -> bool {
        u8::MIN <= v <= u8::MAX
    }

    open spec fn label() -> Seq<char> {
        seq!['u', '8']
    }

    fn plus(self, o: Self) -> (r: Self) {
        self + o
    }

    fn minus(self, o: Self) -> (r: Self) {
        self - o
    }

    fn times(self, o: Self) -> (r: Self) {
        self * o
    }

    fn same(&self, o: &Self) -> (r: bool) {
        *self == *o
    }

    fn widen(self) -> (r: i128) {
        self as i128
    }

    fn type_label() -> (r: String) {
        proof {
            reveal_strlit("u8");
        }
        String::from_str("u8")
    }
}

impl Number for u16 {
    open spec fn value(self) -> int {
        self as int
    }

    open spec fn holds(v: int) -> bool {
        u16::MIN <= v <= u16::MAX
    }

    open spec fn label() -> Seq<char> {
        seq!['u', '1', '6']
    }

    fn plus(self, o: Self) -> (r: Self) {
        self + o
    }

    fn minus(self, o: Self) -> (r: Self) {
        self - o
    }

    fn times(self, o: Self) -> (r: Self) {
        self * o
    }

    fn same(&self, o: &Self) -> (r: bool) {
        *self == *o
    }

    fn widen(self) -> (r: i128) {
        self as i128
    }

    fn type_label() -> (r: String) {
        proof {
            reveal_strlit("u16");
        }
        String::from_str("u16")
    }
}

impl Number for u32 {
    open spec fn value(self) -> int {
        self as int
    }

    open spec fn holds(v: int) -> bool {
        u32::MIN <= v <= u32::MAX
    }

    open spec fn label() -> Seq<char> {
        seq!['u', '3', '2']
    }

    fn plus(self, o: Self) -> (r: Self) {
        self + o
    }

    fn minus(self, o: Self) -> (r: Self) {
        self - o
    }

    fn times(self, o: Self) -> (r: Self) {
        self * o
    }

    fn same(&self, o: &Self) -> (r: bool) {
        *self == *o
    }

    fn widen(self) -> (r: i128) {
        self as i128
    }

    fn type_label() -> (r: String) {
        proof {
            reveal_strlit("u32");
        }
        String::from_str("u32")
    }
}

impl Number for u64 {
    open spec fn value(self) -> int {
        self as int
    }

    open spec fn holds(v: int) -> bool {
        u64::MIN <= v <= u64::MAX
    }

    open spec fn label() -> Seq<char> {
        seq!['u', '6', '4']
    }

    fn plus(self, o: Self) -> (r: Self) {
        self + o
    }

    fn minus(self, o: Self) -> (r: Self) {
        self - o
    }

    fn times(self, o: Self) -> (r: Self) {
        self * o
    }

    fn same(&self, o: &Self) -> (r: bool) {
        *self == *o
    }

    fn widen(self) -> (r: i128) {
        self as i128
    }

    fn type_label() -> (r: String) {
        proof {
            reveal_strlit("u64");
        }
        String::from_str("u64")
    }
}

impl Number for usize {
    open spec fn value(self) -> int {
        self as int
    }

    open spec fn holds(v: int) -> bool {
        usize::MIN <= v <= usize::MAX
    }

    open spec fn label() -> Seq<char> {
        seq!['u', 's', 'i', 'z', 'e']
    }

    fn plus(self, o: Self) -> (r: Self) {
        self + o
    }

    fn minus(self, o: Self) -> (r: Self) {
        self - o
    }

    fn times(self, o: Self) -> (r: Self) {
        self * o
    }

    fn same(&self, o: &Self) -> (r: bool) {
        *self == *o
    }

    fn widen(self) -> (r: i128) {
        self as i128
    }

    fn type_label() -> (r: String) {
        proof {
            reveal_strlit("usize");
        }
        String::from_str("usize")
    }
}

} // verus!
