//! The short-string buffer: code units held inline up to a fixed count,
//! on the heap beyond it.

use smallvec::SmallVec;
use vstd::prelude::*;

verus! {

/// A `SmallVec` of UTF-16 code units whose first 64 live inline. What it
/// holds is known only through [`buffered`].
#[verifier::external_body]
pub struct WideBuf {
    units: SmallVec<[u16; 64]>,
}

/// The code units that a buffer holds, in order.
pub uninterp spec fn buffered(buf: WideBuf) -> Seq<u16>;

impl WideBuf {
    /// `SmallVec::new`: a buffer that holds nothing.
    #[verifier::external_body]
    pub(crate) fn new() -> (buf: WideBuf)
        ensures
            buffered(buf) == Seq::<u16>::empty(),
    {
        WideBuf { units: SmallVec::new() }
    }

    /// `SmallVec::push`: the buffer afterwards holds what it held, then `unit`.
    #[verifier::external_body]
    pub(crate) fn push(&mut self, unit: u16)
        ensures
            buffered(*final(self)) == buffered(*old(self)).push(unit),
    {
        self.units.push(unit)
    }

    /// `SmallVec::as_slice`: the buffer's code units as a slice.
    #[verifier::external_body]
    pub(crate) fn as_slice(&self) -> (units: &[u16])
        ensures
            units@ == buffered(*self),
    {
        self.units.as_slice()
    }
}

} // verus!
