use vstd::prelude::*;

verus! {

/// A pair of values, one for each axis of a stick.
#[derive(Debug, Clone, Copy)]
pub struct TwoDimensional<T> {
    pub x: T,
    pub y: T,
}

/// For each axis, the delay in milliseconds before a held stick repeats a step;
/// `None` while the stick rests in its dead zone.
pub type ActivationTimes = TwoDimensional<Option<u64>>;

/// For each axis, the step that a held stick asks for.
pub type Movement = TwoDimensional<i16>;

} // verus!
