use vstd::prelude::*;

verus! {

/// Integers that can be compared with zero.
pub trait Signed: Copy {
    spec fn spec_is_positive(&self) -> bool;

    fn is_positive(&self) -> (r: bool)
        ensures
            r == self.spec_is_positive(),
    ;
}

impl Signed for u8 {
    open spec fn spec_is_positive(&self) -> bool {
        *self > 0
    }

    fn is_positive(&self) -> (r: bool) {
        *self > 0
    }
}

impl Signed for u16 {
    open spec fn spec_is_positive(&self) -> bool {
        *self > 0
    }

    fn is_positive(&self) -> (r: bool) {
        *self > 0
    }
}

impl Signed for u32 {
    open spec fn spec_is_positive(&self) -> bool {
        *self > 0
    }

    fn is_positive(&self) -> (r: bool) {
        *self > 0
    }
}

impl Signed for u64 {
    open spec fn spec_is_positive(&self) -> bool {
        *self > 0
    }

    fn is_positive(&self) -> (r: bool) {
        *self > 0
    }
}

impl Signed for i8 {
    open spec fn spec_is_positive(&self) -> bool {
        *self > 0
    }

    fn is_positive(&self) -> (r: bool) {
        *self > 0
    }
}

impl Signed for i16 {
    open spec fn spec_is_positive(&self) -> bool {
        *self > 0
    }

    fn is_positive(&self) -> (r: bool) {
        *self > 0
    }
}

impl Signed for i32 {
    open spec fn spec_is_positive(&self) -> bool {
        *self > 0
    }

    fn is_positive(&self) -> (r: bool) {
        *self > 0
    }
}

impl Signed for i64 {
    open spec fn spec_is_positive(&self) -> bool {
        *self > 0
    }

    fn is_positive(&self) -> (r: bool) {
        *self > 0
    }
}

/// A number greater than zero.
#[derive(Clone, PartialEq, Eq, PartialOrd, Ord, Debug)]
pub struct Positive<T>(T);

impl<T: Signed> Positive<T> {
    /// The number held.
    pub closed spec fn view(self) -> T {
        self.0
    }

    /// Every `Positive` made by `new` holds a number above zero.
    pub open spec fn wf(self) -> bool {
        self@.spec_is_positive()
    }

    /// `Some` exactly when `value` is above zero.
    pub fn new(value: T) -> (r: Option<Self>)
        ensures
            r is Some <==> value.spec_is_positive(),
            r matches Some(p) ==> p@ == value && p.wf(),
    {
        if value.is_positive() {
            Some(Positive(value))
        } else {
            None
        }
    }

    pub fn value(&self) -> (r: T)
        ensures
            r == self@,
    {
        self.0
    }
}

} // verus!
