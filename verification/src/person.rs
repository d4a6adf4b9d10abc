use vstd::prelude::*;

verus! {

/// A person: a name, an age in years, and an email address. No field is
/// validated; any representable values are accepted.
#[derive(Debug)]
pub struct Person {
    pub name: String,
    pub age: u32,
    pub email: String,
}

impl Person {
    /// Returns the stored age, unchanged. The receiver is read-only, so
    /// two calls on the same person return the same value.
    pub fn age(&self) -> (r: u32)
        ensures
            r == self.age,
    {
        self.age
    }
}

} // verus!
