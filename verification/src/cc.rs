use crate::byte::U7;
use vstd::prelude::*;

verus! {

/// A Control Change signal: one of the 128 control functions addressed by a
/// `ControlChange` message. The symbolic catalog of standard assignments is
/// external to the codec; the codec treats the value as an opaque data byte.
#[derive(Copy, Clone, Debug, Eq, Hash, Ord, PartialEq, PartialOrd, Structural)]
pub struct ControlFunction(pub U7);

impl View for ControlFunction {
    type V = u8;

    open spec fn view(&self) -> u8 {
        self.0@
    }
}

impl ControlFunction {
    /// The range invariant, inherited from the wrapped data byte.
    pub open spec fn wf(&self) -> bool {
        self.0.wf()
    }

    /// Wrap a data byte as a control function.
    pub fn from_u7(data: U7) -> (r: ControlFunction)
        ensures
            r@ == data@,
    {
        ControlFunction(data)
    }

    /// The wrapped data byte.
    pub fn to_u7(self) -> (r: U7)
        ensures
            r@ == self@,
    {
        self.0
    }

    /// The control function number as a plain byte.
    pub fn to_u8(self) -> (r: u8)
        ensures
            r == self@,
    {
        self.0.to_u8()
    }
}

} // verus!
