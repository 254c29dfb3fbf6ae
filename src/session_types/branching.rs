//! Branching: `Choose` and `Accept` form right-leaning lists of branches
//! terminated by `Finally`. `Chooser` gives the position of a branch;
//! `Acceptor` dispatches a received position back to its handler.

use vstd::prelude::*;
use std::marker::PhantomData;
use super::{dual, Modeled, Session, SessionType};
use crate::peano::{Peano, S, Z};
use crate::protocol::{handler_step, Channel, Defer, Handler, Protocol, Step};

verus! {

/// Choose from `S` or something in `Q`.
pub struct Choose<S, Q>(PhantomData<(S, Q)>);

/// Accept either `S` or something in `Q`.
pub struct Accept<S, Q>(PhantomData<(S, Q)>);

/// Finally choose (or accept) `S`.
pub struct Finally<S>(PhantomData<S>);

impl<S: Modeled, Q: Modeled> Modeled for Choose<S, Q> {
    open spec fn model() -> Session {
        Session::Choose(Box::new(S::model()), Box::new(Q::model()))
    }
}

impl<S: SessionType, Q: SessionType> SessionType for Choose<S, Q> {
    type Dual = Accept<S::Dual, Q::Dual>;

    proof fn lemma_dual() {
        S::lemma_dual();
        Q::lemma_dual();
    }
}

impl<S: Modeled, Q: Modeled> Modeled for Accept<S, Q> {
    open spec fn model() -> Session {
        Session::Accept(Box::new(S::model()), Box::new(Q::model()))
    }
}

impl<S: SessionType, Q: SessionType> SessionType for Accept<S, Q> {
    type Dual = Choose<S::Dual, Q::Dual>;

    proof fn lemma_dual() {
        S::lemma_dual();
        Q::lemma_dual();
    }
}

impl<S: Modeled> Modeled for Finally<S> {
    open spec fn model() -> Session {
        Session::Finally(Box::new(S::model()))
    }
}

impl<S: SessionType> SessionType for Finally<S> {
    type Dual = Finally<S::Dual>;

    proof fn lemma_dual() {
        S::lemma_dual();
    }
}

/// The branches of a `Choose` or `Accept` list, first to last.
pub open spec fn branches(list: Session) -> Seq<Session>
    decreases list,
{
    match list {
        Session::Choose(a, b) => seq![*a] + branches(*b),
        Session::Accept(a, b) => seq![*a] + branches(*b),
        Session::Finally(a) => seq![*a],
        _ => Seq::empty(),
    }
}

/// A well-formed list of `Choose` nodes ending in `Finally`.
pub open spec fn is_choice_list(list: Session) -> bool
    decreases list,
{
    match list {
        Session::Choose(_, b) => is_choice_list(*b),
        Session::Finally(_) => true,
        _ => false,
    }
}

/// A well-formed list of `Accept` nodes ending in `Finally`.
pub open spec fn is_accept_list(list: Session) -> bool
    decreases list,
{
    match list {
        Session::Accept(_, b) => is_accept_list(*b),
        Session::Finally(_) => true,
        _ => false,
    }
}

/// Index `i` selects branch `target` of `list`.
pub open spec fn chooses(list: Session, target: Session, i: nat) -> bool {
    i < branches(list).len() && branches(list)[i as int] == target
}

/// The branch that an acceptor reaches with index `i`: at `Accept` index
/// zero takes the head and any other index moves on with one less; at
/// `Finally` every index takes the final branch.
pub open spec fn accept_branch(list: Session, i: nat) -> Session
    decreases list,
{
    match list {
        Session::Accept(a, b) => if i == 0 {
            *a
        } else {
            accept_branch(*b, (i - 1) as nat)
        },
        Session::Finally(a) => *a,
        _ => list,
    }
}

/// This trait selects for the de-Bruijn index `N` of a protocol `T`
/// embedded within a `Choose` decision tree. The index is a type parameter
/// so that the compiler infers it; a target that occurs twice in one list
/// leaves it ambiguous, and the program is rejected. A caller who writes
/// the index out picks one of the two occurrences, and `num` is that
/// position.
pub trait Chooser<T: Modeled, N: Peano>: Modeled {
    /// The position of `T`, as sent over the wire.
    fn num() -> (r: usize)
        requires
            N::value() <= usize::MAX,
        ensures
            r == N::value(),
    ;

    /// Position `N` of this list holds `T`.
    proof fn lemma_chooses()
        ensures
            chooses(Self::model(), T::model(), N::value()),
    ;
}

impl<S: Modeled, Q: Modeled> Chooser<S, Z> for Choose<S, Q> {
    fn num() -> (r: usize) {
        0
    }

    proof fn lemma_chooses() {
    }
}

impl<S: Modeled> Chooser<S, Z> for Finally<S> {
    fn num() -> (r: usize) {
        0
    }

    proof fn lemma_chooses() {
    }
}

impl<R: Modeled, T: Modeled, N: Peano, Q: Chooser<T, N>> Chooser<T, S<N>> for Choose<R, Q> {
    fn num() -> (r: usize) {
        Q::num() + 1
    }

    proof fn lemma_chooses() {
        Q::lemma_chooses();
        assert(branches(Self::model()) == seq![R::model()] + branches(Q::model()));
    }
}

/// A protocol that handles `T` must handle more than one state: for
/// `Accept<S, Q>` it handles `S` and accepts `Q`; for `Finally<S>` it
/// handles `S`. `defer` suspends the channel in the branch that a received
/// index selects.
pub trait Acceptor<I, E: Modeled, T: Modeled>: Protocol + Sized {
    /// The step of the handler that index `num` selects.
    spec fn dispatched(num: usize) -> Step<Self, I>;

    fn defer<Y>(chan: Channel<Self, I, E, Y>, num: usize) -> (r: Defer<Self, I>)
        ensures
            r.is_open(),
            r.next() == Self::dispatched(num),
            r.env() == E::model(),
            r.state() == accept_branch(T::model(), num as nat),
            r.transport() == Some(chan.transport()),
            r.context() == Some(chan.context()),
    ;
}

impl<I, E: Modeled + 'static, H: Handler<I, E, S> + Acceptor<I, E, Q>, S: Modeled + 'static, Q: Modeled> Acceptor<
    I,
    E,
    Accept<S, Q>,
> for H {
    open spec fn dispatched(num: usize) -> Step<Self, I> {
        if num == 0 {
            handler_step::<Self, I, E, S>()
        } else {
            <Self as Acceptor<I, E, Q>>::dispatched((num - 1) as usize)
        }
    }

    fn defer<Y>(chan: Channel<Self, I, E, Y>, num: usize) -> (r: Defer<Self, I>) {
        if num == 0 {
            chan.into_session::<E, S>().defer()
        } else {
            <Self as Acceptor<I, E, Q>>::defer(chan, num - 1)
        }
    }
}

impl<I, E: Modeled + 'static, H: Handler<I, E, S>, S: Modeled + 'static> Acceptor<I, E, Finally<S>> for H {
    open spec fn dispatched(num: usize) -> Step<Self, I> {
        handler_step::<Self, I, E, S>()
    }

    fn defer<Y>(chan: Channel<Self, I, E, Y>, num: usize) -> (r: Defer<Self, I>) {
        // no index leads past the final branch
        chan.into_session::<E, S>().defer()
    }
}

/// Chooser correctness: in a list whose branches are pairwise distinct, the
/// index that selects the `i`-th branch is `i`, and no other index does.
pub proof fn lemma_chooser_correct(list: Session, i: nat)
    requires
        is_choice_list(list),
        branches(list).no_duplicates(),
        i < branches(list).len(),
    ensures
        chooses(list, branches(list)[i as int], i),
        forall|j: nat| chooses(list, branches(list)[i as int], j) ==> j == i,
{
}

/// The branches of the dual of a list are the duals of its branches.
pub proof fn lemma_dual_branches(list: Session)
    requires
        is_choice_list(list),
    ensures
        is_accept_list(dual(list)),
        branches(dual(list)) == branches(list).map_values(|s: Session| dual(s)),
    decreases list,
{
    match list {
        Session::Choose(a, b) => {
            lemma_dual_branches(*b);
            assert(branches(dual(list)) =~= branches(list).map_values(|s: Session| dual(s)));
        },
        Session::Finally(a) => {
            assert(branches(dual(list)) =~= branches(list).map_values(|s: Session| dual(s)));
        },
        _ => {},
    }
}

/// An acceptor reaches branch `i` for every index `i` of its list, and the
/// final branch for every larger index.
pub proof fn lemma_accept_branch(list: Session, i: nat)
    requires
        is_accept_list(list),
    ensures
        i < branches(list).len() ==> accept_branch(list, i) == branches(list)[i as int],
        i >= branches(list).len() ==> accept_branch(list, i) == branches(list).last(),
    decreases list,
{
    match list {
        Session::Accept(a, b) => {
            if i > 0 {
                lemma_accept_branch(*b, (i - 1) as nat);
            }
            lemma_branches_nonempty(*b);
        },
        _ => {},
    }
}

proof fn lemma_branches_nonempty(list: Session)
    requires
        is_accept_list(list),
    ensures
        branches(list).len() > 0,
    decreases list,
{
    if let Session::Accept(_, b) = list {
        lemma_branches_nonempty(*b);
    }
}

/// The acceptor inverts the chooser: when one endpoint chooses branch `i`
/// of its list, the peer, in the dual list, dispatches index `i` to the
/// dual of that branch; an index past the end reaches the dual of the
/// final branch.
pub proof fn lemma_acceptor_inverts_chooser(list: Session, i: nat)
    requires
        is_choice_list(list),
    ensures
        i < branches(list).len() ==> accept_branch(dual(list), i) == dual(branches(list)[i as int]),
        i >= branches(list).len() ==> accept_branch(dual(list), i) == dual(branches(list).last()),
{
    lemma_dual_branches(list);
    lemma_accept_branch(dual(list), i);
}

} // verus!
