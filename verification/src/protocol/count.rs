use vstd::prelude::*;

verus! {

/// The number of elements a traversal reached.
#[derive(Debug, Clone, Copy, PartialEq, Eq, Structural)]
pub struct Count {
    value: usize,
}

impl Count {
    pub closed spec fn spec_value(&self) -> usize {
        self.value
    }

    pub fn new(value: usize) -> (count: Count)
        ensures
            count.spec_value() == value,
    {
        Count { value }
    }

    #[verifier::when_used_as_spec(spec_value)]
    pub fn value(&self) -> (value: usize)
        ensures
            value == self.spec_value(),
    {
        self.value
    }
}

} // verus!
