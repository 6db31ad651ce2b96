//! Routing requests among language-model providers.
use vstd::prelude::*;

verus! {

/// The providers a request can go to, in the order they were added.
pub struct LLMRouter<P> {
    pub providers: Vec<P>,
}

impl<P> LLMRouter<P> {
    pub fn new() -> (res: Self)
        ensures
            res.providers@.len() == 0,
    {
        LLMRouter { providers: Vec::new() }
    }

    /// Adds a provider after the others.
    pub fn add_provider(&mut self, provider: P)
        ensures
            final(self).providers@ == old(self).providers@.push(provider),
    {
        self.providers.push(provider);
    }
}

} // verus!
