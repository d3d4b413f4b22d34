//! The borrowing side of dynamic dispatch: when a handler's concrete type is
//! fixed, it can be handed out as itself; only when it must be erased does it
//! travel as a trait object, owned or borrowed.

use vstd::prelude::*;

use crate::dispatch::{Test, A, B};

verus! {

/// The plain handler, boxed concretely: no erasure, so a full contract.
pub fn _construct_1() -> (r: Box<A>)
    ensures
        r.value == 1,
{
    Box::new(A { value: 1 })
}

/// The plain handler as a bare trait object. (The verifier takes neither
/// marker bounds nor a contract on a bare trait-object return, so nothing
/// more is stated here; [`_construct_3`] hands out the same handler with
/// its behaviour stated.)
pub fn _construct_2() -> Box<dyn Test> {
    Box::new(A { value: 1 })
}

/// The plain handler with value one behind `impl Trait`: it behaves as
/// that value, and may always be driven.
pub fn _construct_3() -> (r: impl Test)
    ensures
        forall|n: usize|
            #[trigger] r.spec_test(n) == (A { value: 1 }).spec_test(n) && r.test_allowed(n),
{
    A { value: 1 }
}

/// Holds at most one plain handler and lends or yields it.
pub struct Cat {
    /// The held handler, if any.
    pub a: Option<A>,
}

impl Cat {
    /// Borrows the held handler as a trait object, exactly when one is
    /// held; [`Cat::_meow2`] lends the same handler with its type.
    pub fn _meow1(&self) -> (r: Option<&dyn Test>)
        ensures
            r is Some <==> self.a is Some,
    {
        match &self.a {
            Some(a) => Some(a),
            None => None,
        }
    }

    /// Borrows the held handler behind its concrete type, if one is held.
    pub fn _meow2(&self) -> (r: Option<&A>)
        ensures
            r == (match self.a {
                Some(_) => Some(&self.a->Some_0),
                None => None::<&A>,
            }),
    {
        match &self.a {
            Some(a) => Some(a),
            None => None,
        }
    }

    /// Moves the held handler out, leaving nothing behind: the result
    /// behaves as the value that was held.
    pub fn _meow3(&mut self) -> (r: impl Test)
        requires
            old(self).a is Some,
        ensures
            final(self).a is None,
            forall|n: usize|
                #[trigger] r.spec_test(n) == (old(self).a->Some_0).spec_test(n)
                && r.test_allowed(n),
    {
        let mut slot: Option<A> = None;
        core::mem::swap(&mut self.a, &mut slot);
        match slot {
            Some(a) => a,
            None => vstd::pervasive::unreached(),
        }
    }
}

} // verus!
