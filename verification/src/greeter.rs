//! A greeter that counts its greetings.

use vstd::prelude::*;
use vstd::string::StringExecFns;
use crate::text::{decimal, push_decimal};

verus! {

/// The greeting for `name`, given as greeting number `count`.
pub open spec fn greeting_text(name: Seq<char>, count: nat) -> Seq<char> {
    "Hello "@ + name + "! I have been called "@ + decimal(count) + " times."@
}

/// Greets by name and keeps count of the greetings it has given.
pub struct Greeter {
    count: u64,
}

impl View for Greeter {
    type V = nat;

    /// The number of greetings given so far.
    closed spec fn view(&self) -> nat {
        self.count as nat
    }
}

impl Greeter {
    /// A greeter that has not greeted anyone yet.
    pub fn new() -> (greeter: Greeter)
        ensures
            greeter@ == 0,
    {
        Greeter { count: 0 }
    }

    /// The number of greetings given so far.
    pub fn count(&self) -> (count: u64)
        ensures
            count == self@,
    {
        self.count
    }

    /// Counts one more greeting and words it for `name`.
    pub fn say_hello(&mut self, name: &str) -> (greeting: String)
        requires
            old(self)@ < u64::MAX,
        ensures
            final(self)@ == old(self)@ + 1,
            greeting@ == greeting_text(name@, final(self)@),
    {
        self.count += 1;
        let mut greeting = String::new();
        greeting.append("Hello ");
        greeting.append(name);
        greeting.append("! I have been called ");
        push_decimal(&mut greeting, self.count);
        greeting.append(" times.");
        greeting
    }
}

} // verus!
