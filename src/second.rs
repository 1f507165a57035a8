//! A generic last-in, first-out stack over the node chain, with peeking and
//! owning and borrowing iteration.

use vstd::prelude::*;
use crate::model::{top, rest};
use crate::chain::{
    Link,
    Node,
    values,
    cursor_values,
    detach,
    free_chain,
    push_front,
    pop_front,
    first_node,
    step,
};

verus! {

/// A last-in, first-out stack.
#[derive(Debug)]
pub struct List<T> {
    head: Link<T>,
}

impl<T> View for List<T> {
    type V = Seq<T>;

    /// The elements from the top of the stack down.
    closed spec fn view(&self) -> Seq<T> {
        values(self.head)
    }
}

impl<T> List<T> {
    /// An empty stack.
    pub fn new() -> (r: Self)
        ensures
            r@ == Seq::<T>::empty(),
    {
        List { head: None }
    }

    /// Puts `elem` on top of the stack.
    pub fn push(&mut self, elem: T)
        ensures
            final(self)@ == seq![elem] + old(self)@,
    {
        push_front(&mut self.head, elem);
    }

    /// Removes and returns the top element, or `None` when the stack is empty.
    pub fn pop(&mut self) -> (r: Option<T>)
        ensures
            r == top(old(self)@),
            final(self)@ == rest(old(self)@),
    {
        pop_front(&mut self.head)
    }

    /// The top element, left in place, or `None` when the stack is empty.
    pub fn peek(&self) -> (r: Option<&T>)
        ensures
            self@.len() == 0 ==> r is None,
            self@.len() > 0 ==> r is Some && *r.unwrap() == self@[0],
    {
        match &self.head {
            None => None,
            Some(node) => Some(&node.elem),
        }
    }

    /// The top element, lent out for writing, or `None` when the stack is
    /// empty. What is written there becomes the top element; the rest of the
    /// stack stays as it is.
    pub fn peek_mut(&mut self) -> (r: Option<&mut T>)
        ensures
            old(self)@.len() == 0 ==> r is None && final(self)@ == old(self)@,
            old(self)@.len() > 0 ==> r is Some && *r.unwrap() == old(self)@[0] && final(self)@
                == old(self)@.update(0, *final(r.unwrap())),
    {
        match &mut self.head {
            None => None,
            Some(node) => Some(&mut node.elem),
        }
    }

    /// An iterator that takes the stack over and yields its elements from
    /// the top down.
    pub fn into_iter(self) -> (r: IntoIter<T>)
        ensures
            r@ == self@,
    {
        IntoIter(self)
    }

    /// An iterator over the elements from the top down, by reference.
    pub fn iter(&self) -> (r: Iter<'_, T>)
        ensures
            r@ == self@,
    {
        Iter { next: first_node(&self.head) }
    }
}

impl<T> Drop for List<T> {
    /// Verus stops with an internal error on a `drop` body that passes a
    /// mutable borrow to a call, so this body is not verified: it only
    /// detaches the chain and hands it to the verified `free_chain`.
    #[verifier::external_body]
    fn drop(&mut self)
        opens_invariants none
        no_unwind
    {
        free_chain(detach(&mut self.head));
    }
}

/// Yields the elements of a stack it owns, popping them one by one.
pub struct IntoIter<T>(List<T>);

impl<T> View for IntoIter<T> {
    type V = Seq<T>;

    /// The elements not yet yielded, next one first.
    closed spec fn view(&self) -> Seq<T> {
        self.0@
    }
}

impl<T> IntoIter<T> {
    /// The next element, or `None` once the stack is empty.
    pub fn next(&mut self) -> (r: Option<T>)
        ensures
            r == top(old(self)@),
            final(self)@ == rest(old(self)@),
    {
        self.0.pop()
    }
}

/// Yields references to the elements of a stack, from the top down.
pub struct Iter<'a, T> {
    next: Option<&'a Node<T>>,
}

impl<'a, T> View for Iter<'a, T> {
    type V = Seq<T>;

    /// The elements not yet yielded, next one first.
    closed spec fn view(&self) -> Seq<T> {
        cursor_values(self.next)
    }
}

impl<'a, T> Iter<'a, T> {
    /// A reference to the next element, or `None` at the end of the stack.
    pub fn next(&mut self) -> (r: Option<&'a T>)
        ensures
            match r {
                None => top(old(self)@) is None,
                Some(v) => top(old(self)@) == Some(*v),
            },
            final(self)@ == rest(old(self)@),
    {
        step(&mut self.next)
    }
}

} // verus!
