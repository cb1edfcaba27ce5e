//! The state behind the `com.fyralabs.d5` bus interface.

use vstd::prelude::*;

verus! {

/// The object d5 serves on the session bus.
#[derive(Debug)]
pub struct D5 {
    /// The last name a client gave with `AddName`.
    pub data: String,
}

/// The greeting `Hello` answers with, for the stored name `data`.
pub open spec fn spec_greeting(data: Seq<char>) -> Seq<char> {
    "Hello from d5! "@ + data
}

impl D5 {
    /// `AddName`: stores `name`, replacing the name held before.
    pub fn add_name(&mut self, name: String)
        ensures
            final(self).data@ == name@,
    {
        self.data = name;
    }

    /// `Hello`: greets with the stored name.
    pub fn hello(&self) -> (greeting: String)
        ensures
            greeting@ == spec_greeting(self.data@),
    {
        let mut greeting = String::from_str("Hello from d5! ");
        greeting.append(self.data.as_str());
        greeting
    }
}


/// Whatever name was held before, after `AddName(name)` the greeting is the
/// fixed prefix followed by exactly `name`.
pub proof fn lemma_hello_greets_added_name(name: Seq<char>)
    ensures
        spec_greeting(name).len() == 15 + name.len(),
        spec_greeting(name).subrange(0, 15) == "Hello from d5! "@,
        spec_greeting(name).subrange(15, spec_greeting(name).len() as int) == name,
{
    reveal_strlit("Hello from d5! ");
    assert(spec_greeting(name).subrange(0, 15) =~= "Hello from d5! "@);
    assert(spec_greeting(name).subrange(15, spec_greeting(name).len() as int) =~= name);
}

} // verus!
