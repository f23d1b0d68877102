//! The value computed by the first phase of the protocol.
//!
//! A [`Metadata`] pairs the unpadded rendered width of a value with an
//! implementation-chosen auxiliary payload. It is produced once per
//! formatting call by the compute phase and consumed by the render phase;
//! the two phases must agree on the width or padding would come out wrong.

use vstd::prelude::*;

verus! {

/// The result of the compute phase: the unpadded rendered width of a
/// value, together with auxiliary data private to the implementing type.
#[derive(Clone, Copy, Debug)]
pub struct Metadata<M> {
    unpadded_width: usize,
    extra: M,
}

impl<M> Metadata<M> {
    /// The number of output positions the value's natural rendering
    /// occupies before any padding is applied.
    pub closed spec fn spec_unpadded_width(&self) -> usize {
        self.unpadded_width
    }

    /// The auxiliary payload.
    pub closed spec fn spec_extra(&self) -> M {
        self.extra
    }

    /// Pair a computed width with its auxiliary payload.
    pub fn new(unpadded_width: usize, extra: M) -> (r: Self)
        ensures
            r.spec_unpadded_width() == unpadded_width,
            r.spec_extra() == extra,
    {
        Metadata { unpadded_width, extra }
    }

    /// The unpadded rendered width.
    pub fn unpadded_width(&self) -> (r: usize)
        ensures
            r == self.spec_unpadded_width(),
    {
        self.unpadded_width
    }

    /// A reference to the auxiliary payload.
    pub fn extra(&self) -> (r: &M)
        ensures
            r == self.spec_extra(),
    {
        &self.extra
    }

    /// Give up the pair, handing the auxiliary payload back out.
    pub fn into_extra(self) -> (r: M)
        ensures
            r == self.spec_extra(),
    {
        self.extra
    }
}

} // verus!
