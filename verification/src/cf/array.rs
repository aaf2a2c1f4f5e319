//! Arrays of type references, immutable and mutable. An element is a plain
//! reference value: the identity of the object it designates.

use vstd::prelude::*;

use crate::cf::Allocator;

verus! {

/// The callbacks an array applies to its elements as they enter and leave;
/// the model's elements are plain values, so the type is a marker.
#[derive(Clone, Copy, Debug, PartialEq, Eq, Structural)]
pub struct ArrayCallbacks {
}

impl ArrayCallbacks {
    /// The callbacks for arrays of type references.
    pub fn default_callbacks() -> (r: Option<ArrayCallbacks>)
        ensures
            r is Some,
    {
        Some(ArrayCallbacks {  })
    }
}

/// An immutable array of type references.
#[derive(Debug)]
pub struct Array {
    pub items: Vec<u64>,
}

impl Array {
    /// The type identifier the framework registers for arrays.
    pub fn type_id() -> (r: u64)
        ensures
            r == 19,
    {
        19
    }

    /// How many values the array holds.
    pub fn get_count(&self) -> (r: usize)
        ensures
            r == self.items@.len(),
    {
        self.items.len()
    }

    pub fn len(&self) -> (r: usize)
        ensures
            r == self.items@.len(),
    {
        self.get_count()
    }

    pub fn is_empty(&self) -> (r: bool)
        ensures
            r == (self.items@.len() == 0),
    {
        self.len() == 0
    }

    /// The native creation entry point: an array over the first
    /// `num_values` of the given values.
    pub fn create(
        allocator: Option<&Allocator>,
        values: Option<&Vec<u64>>,
        num_values: usize,
        callbacks: Option<&ArrayCallbacks>,
    ) -> (r: Option<Array>)
        requires
            match values {
                Some(v) => num_values <= v@.len(),
                None => num_values == 0,
            },
        ensures
            match r {
                Some(arr) => arr.items@ == match values {
                    Some(v) => v@.take(num_values as int),
                    None => Seq::<u64>::empty(),
                },
                None => false,
            },
    {
        let mut items: Vec<u64> = Vec::new();
        match values {
            Some(v) => {
                let mut i: usize = 0;
                while i < num_values
                    invariant
                        0 <= i <= num_values <= v@.len(),
                        items@ =~= v@.take(i as int),
                    decreases num_values - i,
                {
                    items.push(v[i]);
                    i = i + 1;
                }
                proof {
                    assert(items@ =~= v@.take(num_values as int));
                }
            },
            None => {
                proof {
                    assert(items@ =~= Seq::<u64>::empty());
                }
            },
        }
        Some(Array { items })
    }

    /// An empty array.
    pub fn new() -> (r: Option<Array>)
        ensures
            match r {
                Some(arr) => arr.items@.len() == 0,
                None => false,
            },
    {
        Self::create(None, None, 0, None)
    }

    /// An array over the given type references.
    pub fn from_type_refs(values: &Vec<u64>) -> (r: Option<Array>)
        ensures
            match r {
                Some(arr) => arr.items@ == values@,
                None => false,
            },
    {
        let r = Self::create(None, Some(values), values.len(), None);
        proof {
            assert(values@.take(values@.len() as int) =~= values@);
        }
        r
    }

    /// The native copy entry point.
    pub fn create_copy(&self, allocator: Option<&Allocator>) -> (r: Option<Array>)
        ensures
            match r {
                Some(arr) => arr.items@ == self.items@,
                None => false,
            },
    {
        let r = Self::create(allocator, Some(&self.items), self.items.len(), None);
        proof {
            assert(self.items@.take(self.items@.len() as int) =~= self.items@);
        }
        r
    }

    /// A copy of this array.
    pub fn copy(&self) -> (r: Option<Array>)
        ensures
            match r {
                Some(arr) => arr.items@ == self.items@,
                None => false,
            },
    {
        self.create_copy(None)
    }

    /// The native mutable-copy entry point; the capacity is a hint the
    /// model need not keep.
    pub fn create_mutable_copy(&self, allocator: Option<&Allocator>, capacity: usize) -> (r:
        Option<MutableArray>)
        ensures
            match r {
                Some(arr) => arr.array.items@ == self.items@,
                None => false,
            },
    {
        let _ = capacity;
        match self.create_copy(allocator) {
            Some(array) => Some(MutableArray { array }),
            None => unreached(),
        }
    }

    /// A mutable copy of this array.
    pub fn mutable_copy(&self) -> (r: Option<MutableArray>)
        ensures
            match r {
                Some(arr) => arr.array.items@ == self.items@,
                None => false,
            },
    {
        self.create_mutable_copy(None, self.len())
    }
}

/// A growable array of type references.
#[derive(Debug)]
pub struct MutableArray {
    pub array: Array,
}

impl MutableArray {
    pub fn len(&self) -> (r: usize)
        ensures
            r == self.array.items@.len(),
    {
        self.array.len()
    }

    /// The native append entry point.
    pub fn append_value(&mut self, value: u64)
        requires
            old(self).array.items@.len() < usize::MAX,
        ensures
            final(self).array.items@ == old(self).array.items@.push(value),
    {
        self.array.items.push(value);
    }

    /// Append one type reference.
    pub fn append(&mut self, value: u64)
        requires
            old(self).array.items@.len() < usize::MAX,
        ensures
            final(self).array.items@ == old(self).array.items@.push(value),
    {
        self.append_value(value);
    }

    /// Empty the array.
    pub fn remove_all_values(&mut self)
        ensures
            final(self).array.items@.len() == 0,
    {
        self.array.items.clear();
    }

    /// The native creation entry point; the capacity is a hint the model
    /// need not keep.
    pub fn create(
        allocator: Option<&Allocator>,
        capacity: usize,
        callbacks: Option<&ArrayCallbacks>,
    ) -> (r: Option<MutableArray>)
        ensures
            match r {
                Some(arr) => arr.array.items@.len() == 0,
                None => false,
            },
    {
        let _ = capacity;
        match Array::create(allocator, None, 0, callbacks) {
            Some(array) => Some(MutableArray { array }),
            None => unreached(),
        }
    }

    /// An empty mutable array with room for the given count.
    pub fn with_capacity(capacity: usize) -> (r: Option<MutableArray>)
        ensures
            match r {
                Some(arr) => arr.array.items@.len() == 0,
                None => false,
            },
    {
        Self::create(None, capacity, None)
    }

    /// An empty mutable array.
    pub fn new() -> (r: Option<MutableArray>)
        ensures
            match r {
                Some(arr) => arr.array.items@.len() == 0,
                None => false,
            },
    {
        Self::with_capacity(0)
    }
}

} // verus!
