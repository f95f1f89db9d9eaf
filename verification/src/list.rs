//! The sequence of values that a traversal yields.
use vstd::prelude::*;

verus! {

/// A finite sequence of values, first to last.
///
/// Two lists are equal exactly when they hold equal values in the same
/// order, so a fetch that yields a list has one possible result.
pub enum List<T> {
    /// The empty sequence.
    Nil,
    /// A first value and the values after it.
    Cons(T, Box<List<T>>),
}

impl<T> List<T> {
    /// The values of the list, first to last.
    pub open spec fn view(self) -> Seq<T>
        decreases self,
    {
        match self {
            List::Nil => Seq::empty(),
            List::Cons(head, tail) => seq![head] + tail@,
        }
    }

    /// The list with `last` added after its values.
    pub open spec fn snoc(self, last: T) -> List<T>
        decreases self,
    {
        match self {
            List::Nil => List::Cons(last, Box::new(List::Nil)),
            List::Cons(head, tail) => List::Cons(head, Box::new(tail.snoc(last))),
        }
    }

    /// Adding a value at the end of a list adds it at the end of its values.
    pub proof fn lemma_snoc_view(self, last: T)
        ensures
            self.snoc(last)@ == self@.push(last),
        decreases self,
    {
        if let List::Cons(_, tail) = self {
            tail.lemma_snoc_view(last);
        }
    }

    /// The empty list.
    pub fn new() -> (list: List<T>)
        ensures
            list == List::<T>::Nil,
    {
        List::Nil
    }

    /// Adds `last` after the values of the list.
    pub fn push(self, last: T) -> (list: List<T>)
        ensures
            list == self.snoc(last),
        decreases self,
    {
        match self {
            List::Nil => List::Cons(last, Box::new(List::Nil)),
            List::Cons(head, tail) => List::Cons(head, Box::new((*tail).push(last))),
        }
    }

    /// The values of the list as a vector, in the same order.
    pub fn into_vec(self) -> (values: Vec<T>)
        ensures
            values@ == self@,
    {
        let mut values: Vec<T> = Vec::new();
        let mut rest = self;
        loop
            invariant
                values@ + rest@ == self@,
            decreases rest,
        {
            match rest {
                List::Nil => {
                    return values;
                },
                List::Cons(head, tail) => {
                    values.push(head);
                    rest = *tail;
                },
            }
        }
    }
}

} // verus!
