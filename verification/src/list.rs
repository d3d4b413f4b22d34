//! A recursive structure on the heap: a singly linked list where each node
//! owns the rest of the list behind a `Box`. Appending walks to the end, so
//! the elements stay in insertion order.

use vstd::prelude::*;

verus! {

/// A boxed singly linked list.
#[derive(Debug)]
pub enum List<T> {
    /// One element, then the rest of the list.
    List(T, Box<List<T>>),
    /// The end of the list.
    Empty,
}

/// The elements of a list, front first.
pub open spec fn elems<T>(l: List<T>) -> Seq<T>
    decreases l,
{
    match l {
        List::List(head, rest) => seq![head] + elems(*rest),
        List::Empty => Seq::empty(),
    }
}

impl<T> View for List<T> {
    type V = Seq<T>;

    open spec fn view(&self) -> Seq<T> {
        elems(*self)
    }
}

impl<T> List<T> {
    /// An empty list.
    pub fn new() -> (r: Self)
        ensures
            r@ == Seq::<T>::empty(),
    {
        List::Empty
    }

    /// Appends one element at the back.
    pub fn append(self, item: T) -> (r: Self)
        ensures
            r@ == self@.push(item),
        decreases self,
    {
        match self {
            List::Empty => {
                let r = List::List(item, Box::new(List::Empty));
                assert(elems(List::<T>::Empty) == Seq::<T>::empty());
                assert(r@ =~= Seq::<T>::empty().push(item));
                r
            },
            List::List(head, next) => {
                let ghost old_tail = next@;
                let tail = (*next).append(item);
                let r = List::List(head, Box::new(tail));
                assert(r@ =~= (seq![head] + old_tail).push(item));
                r
            },
        }
    }
}

} // verus!
