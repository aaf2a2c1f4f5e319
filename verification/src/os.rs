//! Operating-system status codes.

use vstd::prelude::*;

verus! {

/// A status code a lower-level session or codec call returns: zero for
/// success, a nonzero code for the failure it names.
#[derive(Clone, Copy, Debug, PartialEq, Eq, Structural)]
pub struct Status(pub i32);

impl Status {
    pub open spec fn is_ok_spec(&self) -> bool {
        self.0 == 0
    }

    #[verifier::when_used_as_spec(is_ok_spec)]
    pub fn is_ok(&self) -> (r: bool)
        ensures
            r == self.is_ok_spec(),
    {
        self.0 == 0
    }

    /// The status as a result: a non-success code is always surfaced, never
    /// silently ignored.
    pub fn result(self) -> (r: Result<(), Status>)
        ensures
            self.is_ok_spec() ==> r == Result::<(), Status>::Ok(()),
            !self.is_ok_spec() ==> r == Result::<(), Status>::Err(self),
    {
        if self.0 == 0 {
            Ok(())
        } else {
            Err(self)
        }
    }
}

} // verus!
