//! A holder of one number.

use vstd::prelude::*;

verus! {

/// Holds one number.
#[derive(Debug, Clone, Copy, PartialEq, Eq, Structural, Hash)]
pub struct Foo {
    pub(crate) x: usize,
}

impl Foo {
    /// The number held.
    pub closed spec fn held(self) -> usize {
        self.x
    }

    /// Holds `x`.
    pub fn new(x: usize) -> (foo: Foo)
        ensures
            foo.held() == x,
    {
        Foo { x }
    }

    /// The number held.
    pub fn this(&self) -> (x: usize)
        ensures
            x == self.held(),
    {
        self.x
    }
}

/// A holder of `x`.
pub fn create_foo(x: usize) -> (foo: Foo)
    ensures
        foo.held() == x,
{
    Foo::new(x)
}

} // verus!
