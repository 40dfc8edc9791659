//! The soft clipper that sits between a played buffer and the mixer.
//!
//! Its per-sample curve is a floating-point `tanh`, applied where the samples
//! are streamed; the library holds the wrapper and what it wraps.

use vstd::prelude::*;

verus! {

/// A source whose samples are to be passed through a soft-clipping curve.
pub struct SoftClip<S> {
    input: S,
}

impl<S> SoftClip<S> {
    /// The wrapped source.
    pub closed spec fn source(&self) -> S {
        self.input
    }

    /// Wraps `input`.
    pub fn new(input: S) -> (clip: Self)
        ensures
            clip.source() == input,
    {
        SoftClip { input }
    }

    /// Gives back the wrapped source.
    pub fn into_inner(self) -> (input: S)
        ensures
            input == self.source(),
    {
        self.input
    }
}

} // verus!
