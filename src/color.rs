use vstd::prelude::*;

verus! {

/// A colour as its red, green and blue channels.
#[derive(Debug, Copy, Clone, PartialEq, Eq, Structural)]
pub struct Rgb(pub u8, pub u8, pub u8);

impl Rgb {
    pub fn new(r: u8, g: u8, b: u8) -> (c: Self)
        ensures
            c == Rgb(r, g, b),
    {
        Rgb(r, g, b)
    }

    pub fn black() -> (c: Self)
        ensures
            c == Rgb(0, 0, 0),
    {
        Rgb(0, 0, 0)
    }

    pub fn green() -> (c: Self)
        ensures
            c == Rgb(22, 163, 74),
    {
        Rgb(22, 163, 74)
    }

    pub fn yellow() -> (c: Self)
        ensures
            c == Rgb(234, 179, 8),
    {
        Rgb(234, 179, 8)
    }

    pub fn pink() -> (c: Self)
        ensures
            c == Rgb(219, 39, 119),
    {
        Rgb(219, 39, 119)
    }
}

impl From<Rgb> for (u8, u8, u8) {
    fn from(value: Rgb) -> (t: (u8, u8, u8)) {
        (value.0, value.1, value.2)
    }
}

impl vstd::std_specs::convert::FromSpecImpl<Rgb> for (u8, u8, u8) {
    open spec fn obeys_from_spec() -> bool {
        true
    }

    open spec fn from_spec(v: Rgb) -> (u8, u8, u8) {
        (v.0, v.1, v.2)
    }
}

} // verus!
