//! What pushes and pops do to the elements of a container, stated over
//! sequences, and the laws of the containers that follow from it.
//!
//! The containers' contracts speak of `top` and `rest`; the laws here hold
//! for any run of calls that those contracts describe.

use vstd::prelude::*;

verus! {

/// What `pop` hands back when the container holds `s`, first element first.
pub open spec fn top<T>(s: Seq<T>) -> Option<T> {
    if s.len() == 0 {
        None
    } else {
        Some(s[0])
    }
}

/// What the container holds after `pop` when it held `s`.
pub open spec fn rest<T>(s: Seq<T>) -> Seq<T> {
    if s.len() == 0 {
        s
    } else {
        s.drop_first()
    }
}

/// The results of `n` pops in a row from a container that holds `s`.
pub open spec fn pops<T>(s: Seq<T>, n: nat) -> Seq<Option<T>>
    decreases n,
{
    if n == 0 {
        Seq::empty()
    } else {
        seq![top(s)] + pops(rest(s), (n - 1) as nat)
    }
}

/// What a container that holds `s` holds after `n` pops in a row.
pub open spec fn after_pops<T>(s: Seq<T>, n: nat) -> Seq<T>
    decreases n,
{
    if n == 0 {
        s
    } else {
        after_pops(rest(s), (n - 1) as nat)
    }
}

/// What a stack that holds `s` holds after pushing the elements of `ps`,
/// `ps[0]` first.
pub open spec fn stacked<T>(s: Seq<T>, ps: Seq<T>) -> Seq<T>
    decreases ps.len(),
{
    if ps.len() == 0 {
        s
    } else {
        stacked(seq![ps[0]] + s, ps.drop_first())
    }
}

/// What a queue that holds `s` holds after pushing the elements of `ps`,
/// `ps[0]` first.
pub open spec fn queued<T>(s: Seq<T>, ps: Seq<T>) -> Seq<T>
    decreases ps.len(),
{
    if ps.len() == 0 {
        s
    } else {
        queued(s.push(ps[0]), ps.drop_first())
    }
}

proof fn lemma_stacked<T>(s: Seq<T>, ps: Seq<T>)
    ensures
        stacked(s, ps) =~= ps.reverse() + s,
    decreases ps.len(),
{
    if ps.len() > 0 {
        lemma_stacked(seq![ps[0]] + s, ps.drop_first());
        assert(ps.drop_first().reverse() + (seq![ps[0]] + s) =~= ps.reverse() + s);
    }
}

proof fn lemma_queued<T>(s: Seq<T>, ps: Seq<T>)
    ensures
        queued(s, ps) =~= s + ps,
    decreases ps.len(),
{
    if ps.len() > 0 {
        lemma_queued(s.push(ps[0]), ps.drop_first());
        assert(s.push(ps[0]) + ps.drop_first() =~= s + ps);
    }
}

/// Popping the first `n = p.len()` elements of `p + s` gives them back in
/// order and leaves `s`.
proof fn lemma_pops_prefix<T>(p: Seq<T>, s: Seq<T>)
    ensures
        pops(p + s, p.len()) =~= Seq::new(p.len(), |i: int| Some(p[i])),
        after_pops(p + s, p.len()) =~= s,
    decreases p.len(),
{
    if p.len() > 0 {
        assert(rest(p + s) =~= p.drop_first() + s);
        lemma_pops_prefix(p.drop_first(), s);
    }
}

/// A stack gives its elements back last pushed first: after pushing the
/// elements of `ps` onto an empty stack, as many pops return them in reverse
/// order and leave the stack empty.
pub proof fn lemma_stack_pops_in_reverse<T>(ps: Seq<T>)
    ensures
        pops(stacked(Seq::empty(), ps), ps.len()) =~= Seq::new(
            ps.len(),
            |i: int| Some(ps[ps.len() - 1 - i]),
        ),
        after_pops(stacked(Seq::empty(), ps), ps.len()) =~= Seq::<T>::empty(),
{
    lemma_stacked(Seq::empty(), ps);
    lemma_pops_prefix(ps.reverse(), Seq::empty());
    assert(ps.reverse() + Seq::empty() =~= ps.reverse());
}

/// A queue gives its elements back first pushed first: after pushing the
/// elements of `ps` onto an empty queue, as many pops return them in the
/// same order and leave the queue empty.
pub proof fn lemma_queue_pops_in_order<T>(ps: Seq<T>)
    ensures
        pops(queued(Seq::empty(), ps), ps.len()) =~= Seq::new(ps.len(), |i: int| Some(ps[i])),
        after_pops(queued(Seq::empty(), ps), ps.len()) =~= Seq::<T>::empty(),
{
    lemma_queued(Seq::empty(), ps);
    assert(Seq::<T>::empty() + ps =~= ps + Seq::empty());
    lemma_pops_prefix(ps, Seq::empty());
}

/// Stepping through a container that holds `s` by `top` and `rest`, as
/// `pop` and the owning and shared iterators do, yields the elements of `s`
/// in order and then `None`: all of them traverse in the same order.
pub proof fn lemma_steps_yield_in_order<T>(s: Seq<T>)
    ensures
        pops(s, s.len() + 1) =~= Seq::new(s.len(), |i: int| Some(s[i])).push(None),
        after_pops(s, s.len()) =~= Seq::<T>::empty(),
{
    lemma_pops_prefix(s, Seq::empty());
    assert(s + Seq::<T>::empty() =~= s);
    lemma_pops_append(s, s.len());
}

/// One pop more after `n` pops.
proof fn lemma_pops_append<T>(s: Seq<T>, n: nat)
    ensures
        pops(s, n + 1) =~= pops(s, n).push(top(after_pops(s, n))),
    decreases n,
{
    assert(pops(s, n + 1) == seq![top(s)] + pops(rest(s), n));
    if n > 0 {
        lemma_pops_append(rest(s), (n - 1) as nat);
        assert(pops(s, n) == seq![top(s)] + pops(rest(s), (n - 1) as nat));
        assert(after_pops(s, n) == after_pops(rest(s), (n - 1) as nat));
        assert(pops(rest(s), n) == pops(rest(s), ((n - 1) + 1) as nat));
    } else {
        assert(pops(rest(s), 0) == Seq::<Option<T>>::empty());
    }
}

/// An empty container stays empty under pops, and every one of them
/// returns `None`.
pub proof fn lemma_pops_on_empty<T>(n: nat)
    ensures
        pops(Seq::<T>::empty(), n) =~= Seq::new(n, |i: int| None::<T>),
        after_pops(Seq::<T>::empty(), n) =~= Seq::<T>::empty(),
    decreases n,
{
    if n > 0 {
        lemma_pops_on_empty::<T>((n - 1) as nat);
    }
}

/// One call on a container: a push of an element, or a pop.
pub enum Op<T> {
    Push(T),
    Pop,
}

/// What a container that holds `s` holds after `op`. A push puts its
/// element at the back when `at_back` holds (a queue), else at the front
/// (a stack).
pub open spec fn apply<T>(s: Seq<T>, op: Op<T>, at_back: bool) -> Seq<T> {
    match op {
        Op::Push(x) => if at_back {
            s.push(x)
        } else {
            seq![x] + s
        },
        Op::Pop => rest(s),
    }
}

/// What a container that holds `s` holds after the calls `ops`, in order.
pub open spec fn run<T>(s: Seq<T>, ops: Seq<Op<T>>, at_back: bool) -> Seq<T>
    decreases ops.len(),
{
    if ops.len() == 0 {
        s
    } else {
        run(apply(s, ops[0], at_back), ops.drop_first(), at_back)
    }
}

/// How many of `ops` are pushes.
pub open spec fn push_count<T>(ops: Seq<Op<T>>) -> nat
    decreases ops.len(),
{
    if ops.len() == 0 {
        0
    } else {
        (if ops[0] is Push {
            1nat
        } else {
            0nat
        }) + push_count(ops.drop_first())
    }
}

/// How many of `ops`, made on a container that holds `s`, are pops that
/// return an element.
pub open spec fn hit_count<T>(s: Seq<T>, ops: Seq<Op<T>>, at_back: bool) -> nat
    decreases ops.len(),
{
    if ops.len() == 0 {
        0
    } else {
        (if ops[0] is Pop && top(s) is Some {
            1nat
        } else {
            0nat
        }) + hit_count(apply(s, ops[0], at_back), ops.drop_first(), at_back)
    }
}

/// Pushes and pops, interleaved in any order, keep the count: after any run
/// of calls, a stack or a queue holds as many elements as it held before,
/// plus the pushes, less the pops that returned an element.
pub proof fn lemma_count_after_run<T>(s: Seq<T>, ops: Seq<Op<T>>, at_back: bool)
    ensures
        run(s, ops, at_back).len() + hit_count(s, ops, at_back) == s.len() + push_count(ops),
    decreases ops.len(),
{
    if ops.len() > 0 {
        lemma_count_after_run(apply(s, ops[0], at_back), ops.drop_first(), at_back);
    }
}

} // verus!
