//! A generic first-in, first-out queue over the node chain: elements join
//! after the last node and leave from the first.
//!
//! The chain has one owner, the queue's head link, and no second handle on
//! its last node: `push` finds the end by walking the chain, so no reference
//! into the chain is ever aliased or kept past the call that made it.

use vstd::prelude::*;
use crate::model::{top, rest};
use crate::chain::{
    Link,
    Node,
    values,
    node_values,
    cursor_values,
    cursor_mut_values,
    detach,
    free_chain,
    push_back,
    pop_front,
    first_node,
    first_node_mut,
    step,
    step_mut,
    lemma_cursor_mut,
};

verus! {

/// A first-in, first-out queue.
pub struct List<T> {
    head: Link<T>,
}

impl<T> View for List<T> {
    type V = Seq<T>;

    /// The elements from the front of the queue to the back.
    closed spec fn view(&self) -> Seq<T> {
        values(self.head)
    }
}

impl<T> List<T> {
    /// An empty queue.
    pub fn new() -> (r: Self)
        ensures
            r@ == Seq::<T>::empty(),
    {
        List { head: None }
    }

    /// Puts `elem` at the back of the queue.
    pub fn push(&mut self, elem: T)
        ensures
            final(self)@ == old(self)@.push(elem),
    {
        push_back(&mut self.head, elem);
    }

    /// Removes and returns the front element, or `None` when the queue is
    /// empty.
    pub fn pop(&mut self) -> (r: Option<T>)
        ensures
            r == top(old(self)@),
            final(self)@ == rest(old(self)@),
    {
        pop_front(&mut self.head)
    }

    /// The front element, left in place, or `None` when the queue is empty.
    pub fn peek(&self) -> (r: Option<&T>)
        ensures
            self@.len() == 0 ==> r is None,
            self@.len() > 0 ==> r is Some && *r.unwrap() == self@[0],
    {
        match &self.head {
            None => None,
            Some(node) => Some(&node.elem),
        }
    }

    /// The front element, lent out for writing, or `None` when the queue is
    /// empty. What is written there becomes the front element; the rest of
    /// the queue stays as it is.
    pub fn peek_mut(&mut self) -> (r: Option<&mut T>)
        ensures
            old(self)@.len() == 0 ==> r is None && final(self)@ == old(self)@,
            old(self)@.len() > 0 ==> r is Some && *r.unwrap() == old(self)@[0] && final(self)@
                == old(self)@.update(0, *final(r.unwrap())),
    {
        match &mut self.head {
            None => None,
            Some(node) => Some(&mut node.elem),
        }
    }

    /// An iterator that takes the queue over and yields its elements from
    /// the front.
    pub fn into_iter(self) -> (r: IntoIter<T>)
        ensures
            r@ == self@,
    {
        IntoIter(self)
    }

    /// An iterator over the elements from the front, by reference.
    pub fn iter(&self) -> (r: Iter<'_, T>)
        ensures
            r@ == self@,
    {
        Iter { next: first_node(&self.head) }
    }

    /// An iterator over the elements from the front, by mutable reference.
    /// When it is done with, the queue holds what was written through it.
    pub fn iter_mut(&mut self) -> (r: IterMut<'_, T>)
        ensures
            r@ == old(self)@,
            (r.cursor() is None) == (r@.len() == 0),
            match r.cursor() {
                None => true,
                Some(node) => node_values(*node) == r@,
            },
            final(self)@ == match r.cursor() {
                None => Seq::empty(),
                Some(node) => node_values(*final(node)),
            },
    {
        let r = IterMut { next: first_node_mut(&mut self.head) };
        proof {
            lemma_cursor_mut(r.next);
        }
        r
    }
}

impl<T> Drop for List<T> {
    /// Verus stops with an internal error on a `drop` body that passes a
    /// mutable borrow to a call, so this body is not verified: it only
    /// detaches the chain and hands it to the verified `free_chain`.
    #[verifier::external_body]
    fn drop(&mut self)
        opens_invariants none
        no_unwind
    {
        free_chain(detach(&mut self.head));
    }
}

/// Yields the elements of a queue it owns, popping them one by one.
pub struct IntoIter<T>(List<T>);

impl<T> View for IntoIter<T> {
    type V = Seq<T>;

    /// The elements not yet yielded, next one first.
    closed spec fn view(&self) -> Seq<T> {
        self.0@
    }
}

impl<T> IntoIter<T> {
    /// The next element, or `None` once the queue is empty.
    pub fn next(&mut self) -> (r: Option<T>)
        ensures
            r == top(old(self)@),
            final(self)@ == rest(old(self)@),
    {
        self.0.pop()
    }
}

/// Yields references to the elements of a queue, from the front.
pub struct Iter<'a, T> {
    next: Option<&'a Node<T>>,
}

impl<'a, T> View for Iter<'a, T> {
    type V = Seq<T>;

    /// The elements not yet yielded, next one first.
    closed spec fn view(&self) -> Seq<T> {
        cursor_values(self.next)
    }
}

impl<'a, T> Iter<'a, T> {
    /// A reference to the next element, or `None` at the end of the queue.
    pub fn next(&mut self) -> (r: Option<&'a T>)
        ensures
            match r {
                None => top(old(self)@) is None,
                Some(v) => top(old(self)@) == Some(*v),
            },
            final(self)@ == rest(old(self)@),
    {
        step(&mut self.next)
    }
}

/// Yields mutable references to the elements of a queue, from the front.
pub struct IterMut<'a, T> {
    /// The node that the next call of `next` lends out, if any. It is open
    /// so that a caller's proof sees the loan end when the iterator does.
    pub next: Option<&'a mut Node<T>>,
}

impl<'a, T> View for IterMut<'a, T> {
    type V = Seq<T>;

    /// The elements not yet yielded, next one first, as they stand now.
    closed spec fn view(&self) -> Seq<T> {
        cursor_mut_values(self.next)
    }
}

impl<'a, T> IterMut<'a, T> {
    /// The node that the next call of `next` lends out, if any.
    pub open spec fn cursor(self) -> Option<&'a mut Node<T>> {
        self.next
    }

    /// A mutable reference to the next element, or `None` at the end of the
    /// queue. The queue ends up holding, in that place, what is written
    /// through the reference, followed by what the iterator leaves behind.
    /// The iterator has a cursor node exactly when elements are left, and
    /// that node holds them.
    pub fn next(&mut self) -> (r: Option<&'a mut T>)
        ensures
            (old(self).cursor() is None) == (old(self)@.len() == 0),
            (final(self).cursor() is None) == (final(self)@.len() == 0),
            match old(self).cursor() {
                None => true,
                Some(node) => node_values(*node) == old(self)@,
            },
            match final(self).cursor() {
                None => true,
                Some(node) => node_values(*node) == final(self)@,
            },
            match old(self).cursor() {
                None => r is None && final(self)@ == old(self)@,
                Some(node) => {
                    &&& r is Some
                    &&& *r.unwrap() == old(self)@[0]
                    &&& final(self)@ == old(self)@.drop_first()
                    &&& node_values(*final(node)) == seq![*final(r.unwrap())] + match final(self).cursor() {
                        None => Seq::empty(),
                        Some(next) => node_values(*final(next)),
                    }
                },
            },
    {
        proof {
            lemma_cursor_mut(self.next);
        }
        let r = step_mut(&mut self.next);
        proof {
            lemma_cursor_mut(self.next);
        }
        r
    }
}


} // verus!
