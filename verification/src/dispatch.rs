//! Dynamic dispatch over a small closed set of handler types: a trait with a
//! contract, two implementors, and constructors that hand the caller either
//! one behind a trait object, behind `impl Trait`, or concretely. Each
//! constructor's contract ties the opaque handler back to the concrete value
//! it holds, through the trait's spec functions; a name outside the closed
//! set yields `None`, since this library's functions do not panic.

use vstd::prelude::*;

verus! {

/// A handler that emits a sequence of numbers when driven `count` times.
pub trait Test {
    /// The numbers this handler emits for `count` rounds.
    spec fn spec_test(&self, count: usize) -> Seq<usize>;

    /// When driving the handler stays within machine limits.
    spec fn test_allowed(&self, count: usize) -> bool;

    /// Drives the handler and returns what it emitted.
    fn test(&self, count: usize) -> (r: Vec<usize>)
        requires
            self.test_allowed(count),
        ensures
            r@ == self.spec_test(count),
    ;
}

/// Emits its value once per round.
pub struct A {
    /// The number this handler emits.
    pub value: usize,
}

impl Test for A {
    open spec fn spec_test(&self, count: usize) -> Seq<usize> {
        Seq::new(count as nat, |i: int| self.value)
    }

    open spec fn test_allowed(&self, count: usize) -> bool {
        true
    }

    fn test(&self, count: usize) -> (r: Vec<usize>) {
        let mut out: Vec<usize> = Vec::new();
        let mut i: usize = 0;
        while i < count
            invariant
                i <= count,
                out@ == Seq::new(i as nat, |j: int| self.value),
            decreases count - i,
        {
            out.push(self.value);
            i = i + 1;
            assert(out@ =~= Seq::new(i as nat, |j: int| self.value));
        }
        assert(out@ =~= self.spec_test(count));
        out
    }
}

/// Sums its inner handler's value over all rounds and emits the total once.
pub struct B {
    /// The handler whose value is accumulated.
    pub item: A,
}

impl Test for B {
    open spec fn spec_test(&self, count: usize) -> Seq<usize> {
        seq![(self.item.value * count) as usize]
    }

    open spec fn test_allowed(&self, count: usize) -> bool {
        self.item.value * count <= usize::MAX
    }

    fn test(&self, count: usize) -> (r: Vec<usize>) {
        let mut temp: usize = 0;
        let mut i: usize = 0;
        while i < count
            invariant
                i <= count,
                temp == i * self.item.value,
                self.item.value * count <= usize::MAX,
        decreases count - i,
        {
            assert((i + 1) * self.item.value == i * self.item.value + self.item.value)
                by (nonlinear_arith);
            assert((i + 1) * self.item.value <= count * self.item.value) by (nonlinear_arith)
                requires
                    i < count,
            ;
            assert(count * self.item.value == self.item.value * count) by (nonlinear_arith);
            temp = temp + self.item.value;
            i = i + 1;
        }
        assert(count * self.item.value == self.item.value * count) by (nonlinear_arith);
        let mut out: Vec<usize> = Vec::new();
        out.push(temp);
        assert(out@ =~= seq![(self.item.value * count) as usize]);
        out
    }
}

/// Picks a handler by name: `"a"` the plain one, `"b"` the summing one,
/// both with value one. The set of names is closed: exactly the other names
/// yield `None`, in place of a panic. What the verifier can state of a
/// trait object ends at its existence — behind the erasure the handler's
/// behaviour is fixed by the trait's own contract, and [`constructor_a`]
/// and [`constructor_b`] hand out the same handlers with it stated.
pub fn constructor(s: &str) -> (r: Option<Box<dyn Test>>)
    ensures
        r is Some <==> (s@ == "a"@ || s@ == "b"@),
{
    proof {
        reveal_strlit("a");
        reveal_strlit("b");
    }
    if s.unicode_len() == 1 {
        let c = s.get_char(0);
        if c == 'a' {
            assert(s@ =~= "a"@);
            Some(Box::new(A { value: 1 }))
        } else if c == 'b' {
            assert(s@ =~= "b"@);
            Some(Box::new(B { item: A { value: 1 } }))
        } else {
            None
        }
    } else {
        None
    }
}

/// Hands out the plain handler concretely: no trait object is needed when
/// the type is fixed.
pub fn a() -> (r: Box<A>)
    ensures
        r.value == 1,
{
    Box::new(A { value: 1 })
}

/// The plain handler with value one, behind `impl Trait`: it behaves as
/// that value, and may always be driven.
pub fn constructor_a() -> (r: impl Test)
    ensures
        forall|n: usize|
            #[trigger] r.spec_test(n) == (A { value: 1 }).spec_test(n) && r.test_allowed(n),
{
    A { value: 1 }
}

/// The summing handler with value one, behind `impl Trait`: it behaves as
/// that value.
pub fn constructor_b() -> (r: impl Test)
    ensures
        forall|n: usize|
            #[trigger] r.spec_test(n) == (B { item: A { value: 1 } }).spec_test(n) && (
            r.test_allowed(n) <==> (B { item: A { value: 1 } }).test_allowed(n)),
{
    B { item: A { value: 1 } }
}

/// Holds at most one plain handler and hands it out in various shapes.
pub struct Cat {
    /// The held handler, if any.
    pub a: Option<A>,
}

impl Cat {
    /// Borrows the held handler as a trait object, exactly when one is
    /// held. (The borrowing is stated; the behaviour behind the erasure is
    /// the trait's contract, and [`Cat::meow2`] lends the same handler with
    /// its type.)
    pub fn meow1(&self) -> (r: Option<&dyn Test>)
        ensures
            r is Some <==> self.a is Some,
    {
        match &self.a {
            Some(a) => Some(a),
            None => None,
        }
    }

    /// Borrows the held handler behind its concrete type, if one is held.
    pub fn meow2(&self) -> (r: Option<&A>)
        ensures
            r == (match self.a {
                Some(_) => Some(&self.a->Some_0),
                None => None::<&A>,
            }),
    {
        match &self.a {
            Some(a) => Some(a),
            None => None,
        }
    }

    /// Moves the held handler out, leaving nothing behind: the result
    /// behaves as the value that was held.
    pub fn meow3(&mut self) -> (r: impl Test)
        requires
            old(self).a is Some,
        ensures
            final(self).a is None,
            forall|n: usize|
                #[trigger] r.spec_test(n) == (old(self).a->Some_0).spec_test(n)
                && r.test_allowed(n),
    {
        let mut slot: Option<A> = None;
        core::mem::swap(&mut self.a, &mut slot);
        match slot {
            Some(a) => a,
            None => vstd::pervasive::unreached(),
        }
    }
}

} // verus!


