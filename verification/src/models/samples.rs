use vstd::prelude::*;

verus! {

/// The smallest object the view layer can instantiate; it has no state.
#[derive(Debug, Clone, Copy, PartialEq, Eq, Structural)]
pub struct MyObjectRust;

/// An object with one invokable method, used to check the view bridge.
#[derive(Debug, Clone, Copy, PartialEq, Eq, Structural)]
pub struct TestObjectRust;

impl TestObjectRust {
    /// The line the test method prints.
    pub fn test_method(&self) -> (r: &'static str)
        ensures
            r@ == "Test method called"@,
    {
        let s = "Test method called";
        proof {
            reveal_strlit("Test method called");
        }
        s
    }
}

} // verus!
