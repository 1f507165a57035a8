//! A stack of `i32` values held in a chain of boxed nodes.

use vstd::prelude::*;
use crate::model::{top, rest};

verus! {

/// The link from one place in the chain to the next node, if any.
#[derive(Debug)]
enum Link {
    Empty,
    More(Box<Node>),
}

#[derive(Debug)]
struct Node {
    elem: i32,
    next: Link,
}

/// The values of the chain that starts at `link`, first node first.
spec fn link_values(link: Link) -> Seq<i32>
    decreases link,
{
    match link {
        Link::Empty => seq![],
        Link::More(node) => seq![node.elem] + link_values(node.next),
    }
}

impl Link {
    /// Moves the link out, leaving `Empty` in its place.
    fn take(&mut self) -> (r: Link)
        ensures
            r == *old(self),
            *final(self) == Link::Empty,
        no_unwind
    {
        let mut r = Link::Empty;
        std::mem::swap(self, &mut r);
        r
    }
}

/// A last-in, first-out stack of `i32`.
#[derive(Debug)]
pub struct List {
    head: Link,
}

impl View for List {
    type V = Seq<i32>;

    /// The elements from the top of the stack down.
    closed spec fn view(&self) -> Seq<i32> {
        link_values(self.head)
    }
}

impl List {
    /// An empty stack.
    pub fn new() -> (r: Self)
        ensures
            r@ == Seq::<i32>::empty(),
    {
        List { head: Link::Empty }
    }

    /// Puts `elem` on top of the stack.
    pub fn push(&mut self, elem: i32)
        ensures
            final(self)@ == seq![elem] + old(self)@,
    {
        let next = self.head.take();
        self.head = Link::More(Box::new(Node { elem, next }));
    }

    /// Removes and returns the top element, or `None` when the stack is empty.
    pub fn pop(&mut self) -> (r: Option<i32>)
        ensures
            r == top(old(self)@),
            final(self)@ == rest(old(self)@),
    {
        match self.head.take() {
            Link::Empty => None,
            Link::More(node) => {
                let node = *node;
                self.head = node.next;
                Some(node.elem)
            },
        }
    }
}

/// Frees the chain that starts at `link` one node at a time, so that a long
/// chain does not make the drop glue recurse once per node.
fn free_chain(link: Link)
    no_unwind
{
    let mut cur = link;
    loop
        decreases link_values(cur).len(),
    {
        match cur {
            Link::Empty => break,
            Link::More(mut node) => {
                cur = node.next.take();
            },
        }
    }
}

impl Drop for List {
    /// Verus stops with an internal error on a `drop` body that passes a
    /// mutable borrow to a call, so this body is not verified: it only
    /// detaches the chain and hands it to the verified `free_chain`.
    #[verifier::external_body]
    fn drop(&mut self)
        opens_invariants none
        no_unwind
    {
        free_chain(self.head.take());
    }
}

} // verus!
