use vstd::prelude::*;

verus! {

/// Unsigned integers whose parity can be tested.
pub trait Parity: Copy {
    spec fn spec_is_odd(&self) -> bool;

    fn is_odd(&self) -> (r: bool)
        ensures
            r == self.spec_is_odd(),
    ;
}

impl Parity for u8 {
    open spec fn spec_is_odd(&self) -> bool {
        *self % 2 == 1
    }

    fn is_odd(&self) -> (r: bool) {
        *self % 2 == 1
    }
}

impl Parity for u16 {
    open spec fn spec_is_odd(&self) -> bool {
        *self % 2 == 1
    }

    fn is_odd(&self) -> (r: bool) {
        *self % 2 == 1
    }
}

impl Parity for u32 {
    open spec fn spec_is_odd(&self) -> bool {
        *self % 2 == 1
    }

    fn is_odd(&self) -> (r: bool) {
        *self % 2 == 1
    }
}

impl Parity for u64 {
    open spec fn spec_is_odd(&self) -> bool {
        *self % 2 == 1
    }

    fn is_odd(&self) -> (r: bool) {
        *self % 2 == 1
    }
}

impl Parity for usize {
    open spec fn spec_is_odd(&self) -> bool {
        *self % 2 == 1
    }

    fn is_odd(&self) -> (r: bool) {
        *self % 2 == 1
    }
}

/// An odd number: the span of a footprint with a well-defined centre.
#[derive(Clone, Copy, Debug, Hash, PartialEq, Eq)]
pub struct Odd<T>(T);

impl<T: Parity> Odd<T> {
    /// The number held.
    pub closed spec fn view(self) -> T {
        self.0
    }

    /// Every `Odd` made by the constructors holds an odd number.
    pub open spec fn wf(self) -> bool {
        self@.spec_is_odd()
    }

    /// `Some` exactly when `value` is odd.
    pub fn new(value: T) -> (r: Option<Self>)
        ensures
            r is Some <==> value.spec_is_odd(),
            r matches Some(o) ==> o@ == value && o.wf(),
    {
        if value.is_odd() {
            Some(Odd(value))
        } else {
            None
        }
    }

    /// For a value already known to be odd.
    pub fn new_panics(value: T) -> (r: Self)
        requires
            value.spec_is_odd(),
        ensures
            r@ == value,
            r.wf(),
    {
        Odd(value)
    }

    pub fn value(&self) -> (r: T)
        ensures
            r == self@,
    {
        self.0
    }
}

} // verus!
