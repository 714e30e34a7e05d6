//! The ordered collection of basic holiday rules.  Registration order is
//! evaluation order: the engine and the derived rules try the rules first
//! to last and stop at the first match.

use vstd::prelude::*;

use crate::holidays::BasicRule;

verus! {

/// An ordered sequence of basic holiday rules.
pub struct Registry {
    registry: Vec<BasicRule>,
}

impl View for Registry {
    type V = Seq<BasicRule>;

    closed spec fn view(&self) -> Seq<BasicRule> {
        self.registry@
    }
}

impl Registry {
    /// An empty registry.
    pub fn new() -> (r: Self)
        ensures
            r@ == Seq::<BasicRule>::empty(),
    {
        Registry { registry: Vec::new() }
    }

    /// The registered rules, in registration order.
    pub fn get_registry(&self) -> (r: &Vec<BasicRule>)
        ensures
            r@ == self@,
    {
        &self.registry
    }

    /// Appends a rule; it is evaluated after every rule registered before it.
    pub fn register(&mut self, holiday: BasicRule)
        ensures
            final(self)@ == old(self)@.push(holiday),
    {
        self.registry.push(holiday)
    }
}

} // verus!
