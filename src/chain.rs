//! The node chain shared by the generic stack and the queue: each node owns
//! the next one, and the container owns the first.

use vstd::prelude::*;

verus! {

/// One element and the link to the rest of the chain.
#[derive(Debug)]
pub struct Node<T> {
    pub(crate) elem: T,
    pub(crate) next: Link<T>,
}

/// Either the end of the chain or exclusive ownership of the next node.
pub(crate) type Link<T> = Option<Box<Node<T>>>;

/// The elements of the chain that starts at `link`, first node first.
pub(crate) open spec fn values<T>(link: Link<T>) -> Seq<T>
    decreases link,
{
    match link {
        None => Seq::empty(),
        Some(node) => seq![node.elem] + values(node.next),
    }
}

/// Frees the chain one node at a time: each node is cut from its successor
/// before it is dropped, so the drop glue never recurses along the chain.
pub(crate) fn free_chain<T>(link: Link<T>)
    no_unwind
{
    let mut cur = link;
    loop
        decreases values(cur).len(),
    {
        match cur {
            None => break,
            Some(mut node) => {
                cur = detach(&mut node.next);
            },
        }
    }
}

/// Moves the chain out of `link`, leaving the empty chain in its place.
pub(crate) fn detach<T>(link: &mut Link<T>) -> (r: Link<T>)
    ensures
        r == *old(link),
        *final(link) is None,
    no_unwind
{
    let mut r = None;
    std::mem::swap(link, &mut r);
    r
}

/// Puts `elem` in front of the chain.
pub(crate) fn push_front<T>(link: &mut Link<T>, elem: T)
    ensures
        values(*final(link)) == seq![elem] + values(*old(link)),
{
    let next = link.take();
    *link = Some(Box::new(Node { elem, next }));
}

/// Removes the first node of the chain and returns its element.
pub(crate) fn pop_front<T>(link: &mut Link<T>) -> (r: Option<T>)
    ensures
        values(*old(link)).len() == 0 ==> r is None && values(*final(link)) == values(*old(link)),
        values(*old(link)).len() > 0 ==> r == Some(values(*old(link))[0]) && values(*final(link))
            == values(*old(link)).drop_first(),
{
    match link.take() {
        None => None,
        Some(node) => {
            let node = *node;
            *link = node.next;
            Some(node.elem)
        },
    }
}

/// Appends `elem` after the last node, walking the chain from its start.
pub(crate) fn push_back<T>(link: &mut Link<T>, elem: T)
    ensures
        values(*final(link)) == values(*old(link)).push(elem),
{
    let mut chain = link.take();
    let ghost whole = values(chain);
    let mut cur = &mut chain;
    let ghost mut prefix: Seq<T> = Seq::empty();
    loop
        invariant_except_break
            prefix + values(*cur) == whole,
        invariant
            values(after_borrow(chain)) == prefix + values(*final(cur)),
        ensures
            prefix == whole,
            values(*cur) == seq![elem],
        decreases values(*cur).len(),
    {
        match cur {
            Some(node) => {
                proof {
                    prefix = prefix.push(node.elem);
                }
                cur = &mut node.next;
            },
            None => {
                *cur = Some(Box::new(Node { elem, next: None }));
                assert(values(*cur) =~= seq![elem]);
                break;
            },
        }
    }
    assert(values(chain) =~= whole.push(elem));
    *link = chain;
}

/// The elements of the chain that starts at `node`.
pub closed spec fn node_values<T>(node: Node<T>) -> Seq<T> {
    seq![node.elem] + values(node.next)
}

/// The elements from the node that `cur` points at to the end of the chain.
pub(crate) open spec fn cursor_values<T>(cur: Option<&Node<T>>) -> Seq<T> {
    match cur {
        None => Seq::empty(),
        Some(node) => seq![node.elem] + values(node.next),
    }
}

/// The elements from the node that `cur` lends out to the end of the chain,
/// as they stand now.
pub(crate) open spec fn cursor_mut_values<T>(cur: Option<&mut Node<T>>) -> Seq<T> {
    match cur {
        None => Seq::empty(),
        Some(node) => seq![node.elem] + values(node.next),
    }
}

/// A mutable cursor is at no node exactly when nothing is left under it, and
/// the node it is at holds what is left under it.
pub(crate) proof fn lemma_cursor_mut<T>(cur: Option<&mut Node<T>>)
    ensures
        (cur is None) == (cursor_mut_values(cur).len() == 0),
        match cur {
            None => true,
            Some(node) => node_values(*node) == cursor_mut_values(cur),
        },
{
}

/// A shared cursor at the first node of the chain.
pub(crate) fn first_node<T>(link: &Link<T>) -> (r: Option<&Node<T>>)
    ensures
        cursor_values(r) == values(*link),
{
    match link {
        None => None,
        Some(node) => Some(&**node),
    }
}

/// A mutable cursor at the first node of the chain.
pub(crate) fn first_node_mut<T>(link: &mut Link<T>) -> (r: Option<&mut Node<T>>)
    ensures
        cursor_mut_values(r) == values(*old(link)),
        values(*final(link)) == match r {
            None => Seq::empty(),
            Some(node) => node_values(*final(node)),
        },
{
    match link {
        None => None,
        Some(node) => Some(&mut **node),
    }
}

/// Yields the element under a shared cursor and moves the cursor on.
pub(crate) fn step<'a, T>(cur: &mut Option<&'a Node<T>>) -> (r: Option<&'a T>)
    ensures
        cursor_values(*old(cur)).len() == 0 ==> r is None && *final(cur) == *old(cur),
        cursor_values(*old(cur)).len() > 0 ==> r is Some && *r.unwrap() == cursor_values(
            *old(cur),
        )[0] && cursor_values(*final(cur)) == cursor_values(*old(cur)).drop_first(),
{
    match *cur {
        None => None,
        Some(node) => {
            *cur = first_node(&node.next);
            Some(&node.elem)
        },
    }
}

/// Yields the element under a mutable cursor and moves the cursor on. The
/// cursor is moved out first, so the node is never lent out twice.
pub(crate) fn step_mut<'a, T>(cur: &mut Option<&'a mut Node<T>>) -> (r: Option<&'a mut T>)
    ensures
        match *old(cur) {
            None => r is None && *final(cur) is None,
            Some(node) => {
                &&& r is Some
                &&& *r.unwrap() == node.elem
                &&& cursor_mut_values(*final(cur)) == values(node.next)
                &&& node_values(*final(node)) == seq![*final(r.unwrap())] + match *final(cur) {
                    None => Seq::empty(),
                    Some(next) => node_values(*final(next)),
                }
            },
        },
{
    match cur.take() {
        None => None,
        Some(node) => {
            *cur = first_node_mut(&mut node.next);
            Some(&mut node.elem)
        },
    }
}

} // verus!
