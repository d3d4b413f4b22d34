//! Constructors that pick a handler at run time and hand it out behind an
//! owning pointer: a `Box` when the caller wants sole ownership, and a
//! reference-counted wrapper when the caller wants to share it. The return
//! type cannot be fixed at compile time, so the handler travels as a trait
//! object.

use vstd::prelude::*;

use crate::dispatch::{Test, A, B};

verus! {

/// Picks a handler by name and boxes it: `"a"` the plain handler with
/// value one, `"b"` the summing one, exactly any other name `None`, in
/// place of a panic. Behind the erasure the handler's behaviour is fixed
/// by the trait's own contract.
pub fn constructor_1(s: &str) -> (r: Option<Box<dyn Test>>)
    ensures
        r is Some <==> (s@ == "a"@ || s@ == "b"@),
{
    proof {
        reveal_strlit("a");
        reveal_strlit("b");
    }
    if s.unicode_len() == 1 {
        let c = s.get_char(0);
        if c == 'a' {
            assert(s@ =~= "a"@);
            Some(Box::new(A { value: 1 }))
        } else if c == 'b' {
            assert(s@ =~= "b"@);
            Some(Box::new(B { item: A { value: 1 } }))
        } else {
            None
        }
    } else {
        None
    }
}

/// The same choice behind a reference count, with the same closed set of
/// names. The verifier does not coerce `Rc<A>` to a reference-counted trait
/// object directly, so the handler is boxed first and the box is shared.
pub fn constructor_2(s: &str) -> (r: Option<std::rc::Rc<Box<dyn Test>>>)
    ensures
        r is Some <==> (s@ == "a"@ || s@ == "b"@),
{
    match constructor_1(s) {
        Some(b) => Some(std::rc::Rc::new(b)),
        None => None,
    }
}

} // verus!
