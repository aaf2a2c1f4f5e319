//! Core-foundation value types: allocators, dictionaries, numbers, arrays,
//! and the notification center.

pub mod array;
pub mod notification_center;

use vstd::prelude::*;

verus! {

/// An allocator a creation call may name; the model carries no allocation
/// state, so the type is a marker.
#[derive(Clone, Copy, Debug, PartialEq, Eq, Structural)]
pub struct Allocator {
}

/// A property dictionary handed to creation calls. Its contents steer
/// native tuning knobs the model does not reproduce, so the type is a
/// marker.
#[derive(Clone, Copy, Debug, PartialEq, Eq, Structural)]
pub struct Dictionary {
}

/// A boxed number.
#[derive(Clone, Copy, Debug, PartialEq, Eq, Structural)]
pub struct Number {
    pub value: i32,
}

impl Number {
    pub fn from_i32(value: i32) -> (n: Number)
        ensures
            n.value == value,
    {
        Number { value }
    }

    pub fn to_i32(&self) -> (r: Option<i32>)
        ensures
            r == Some(self.value),
    {
        Some(self.value)
    }
}

} // verus!
