//! The persisted record of the bridge. It holds one placeholder text, which
//! no operation reads or writes.

use vstd::prelude::*;

verus! {

/// The persisted state.
#[derive(Clone, Debug, PartialEq, Eq)]
pub struct Contract {
    greeting: String,
}

impl View for Contract {
    type V = Seq<char>;

    /// The persisted state is its greeting text.
    closed spec fn view(&self) -> Seq<char> {
        self.greeting@
    }
}

impl Contract {
    /// A record that holds `greeting`.
    pub fn new(greeting: String) -> (contract: Contract)
        ensures
            contract@ == greeting@,
    {
        Contract { greeting }
    }

    /// The text held.
    pub fn greeting(&self) -> (greeting: &String)
        ensures
            greeting@ == self@,
    {
        &self.greeting
    }
}

impl Default for Contract {
    /// The state at first deployment.
    fn default() -> (contract: Contract)
        ensures
            contract@ == "Hello"@,
    {
        Contract { greeting: "Hello".to_owned() }
    }
}

} // verus!
