use vstd::prelude::*;

verus! {

/// A widget that takes values from an environment `E` before it is used and
/// gives them back afterwards.
pub trait StateSync<E> {
    fn capture_state(&mut self, env: &mut E);

    fn release_state(&mut self, env: &mut E);
}

/// A widget without local state: syncing it does nothing.
pub trait NoLocalStateSync {}

impl<E, T: NoLocalStateSync> StateSync<E> for T {
    fn capture_state(&mut self, env: &mut E)
        ensures
            *final(self) == *old(self),
            *final(env) == *old(env),
    {
    }

    fn release_state(&mut self, env: &mut E)
        ensures
            *final(self) == *old(self),
            *final(env) == *old(env),
    {
    }
}

} // verus!
