//! Peano numbers are natural numbers expressed as successions of zero.
//! They count the layers that `Escape` leaves.

use vstd::prelude::*;
use std::marker::PhantomData;
use crate::session_types::{Modeled, Session, SessionType};

verus! {

/// Represents a peano number.
pub trait Peano {
    spec fn value() -> nat;
}

/// Peano numbers: Zero
pub struct Z;

/// Peano numbers: Increment
pub struct S<N>(PhantomData<N>);

impl Peano for Z {
    open spec fn value() -> nat {
        0
    }
}

impl<N: Peano> Peano for S<N> {
    open spec fn value() -> nat {
        N::value() + 1
    }
}

/// The frames of an environment stack, top first.
pub open spec fn frames(env: Session) -> Seq<Session>
    decreases env,
{
    match env {
        Session::Frame(a, b) => seq![*a] + frames(*b),
        _ => Seq::empty(),
    }
}

/// Popping `n` layers from `env`, as a pair (head, tail): popping zero
/// layers from `(A, B)` gives `A` over the unchanged stack `(A, B)`, so that
/// escaping zero layers continues the enclosing loop; popping `n + 1`
/// layers from `(A, B)` pops `n` layers from `B`.
pub open spec fn pop_env(env: Session, n: nat) -> (Session, Session)
    decreases env,
{
    match env {
        Session::Frame(a, b) => if n == 0 {
            (*a, env)
        } else {
            pop_env(*b, (n - 1) as nat)
        },
        _ => (env, env),
    }
}

/// Pop correctness: on a stack of at least `n + 1` frames, popping `n`
/// layers gives the `n`-th frame from the top, over the stack that starts
/// with that frame.
pub proof fn lemma_pop_correct(env: Session, n: nat)
    requires
        n < frames(env).len(),
    ensures
        pop_env(env, n).0 == frames(env)[n as int],
        frames(pop_env(env, n).1) == frames(env).subrange(n as int, frames(env).len() as int),
    decreases env,
{
    if let Session::Frame(a, b) = env {
        if n > 0 {
            lemma_pop_correct(*b, (n - 1) as nat);
            assert(frames(env).subrange(n as int, frames(env).len() as int) =~= frames(*b).subrange(
                n - 1,
                frames(*b).len() as int,
            ));
        } else {
            assert(frames(env).subrange(0, frames(env).len() as int) =~= frames(env));
        }
    }
}

/// This represents the types obtained by popping `N` layers from a stack.
pub trait Pop<N: Peano>: Modeled {
    type Head: SessionType;
    type Tail: SessionType;

    /// `Head` and `Tail` are the two halves of `pop_env`.
    proof fn lemma_pop()
        ensures
            <Self::Head as Modeled>::model() == pop_env(Self::model(), N::value()).0,
            <Self::Tail as Modeled>::model() == pop_env(Self::model(), N::value()).1,
    ;
}

impl<A: SessionType, B: SessionType> Pop<Z> for (A, B) {
    type Head = A;
    type Tail = (A, B);

    proof fn lemma_pop() {
    }
}

impl<N: Peano, A: SessionType, B: Pop<N>> Pop<S<N>> for (A, B) {
    type Head = B::Head;
    type Tail = B::Tail;

    proof fn lemma_pop() {
        B::lemma_pop();
    }
}

} // verus!
