//! Session types encode the current state of a communication channel. It is
//! not possible to change to another state without following the protocol.
//!
//! Each constructor is an empty type tag. `Session` is the shape of such a
//! tag as a value, and `Modeled::model` maps each tag to its shape, so that
//! the laws of the algebra can be stated and proved.

use vstd::prelude::*;
use std::marker::PhantomData;
use crate::peano::Peano;

pub mod branching;

pub use self::branching::{Accept, Acceptor, Choose, Chooser, Finally};

verus! {

/// The shape of a session type. `Goto` and `GotoDual` are opaque
/// boundaries: the body of an alias is consulted only when crossing them.
pub enum Session {
    End,
    Send(Box<Session>),
    Recv(Box<Session>),
    Nest(Box<Session>),
    Escape(nat),
    Choose(Box<Session>, Box<Session>),
    Accept(Box<Session>, Box<Session>),
    Finally(Box<Session>),
    Goto,
    GotoDual,
    /// The empty environment `()`.
    Empty,
    /// An environment frame `(S, E)`: loop body `S` above the stack `E`.
    Frame(Box<Session>, Box<Session>),
}

/// The duality relation between the states of two communicating endpoints.
pub open spec fn dual(s: Session) -> Session
    decreases s,
{
    match s {
        Session::End => Session::End,
        Session::Send(k) => Session::Recv(Box::new(dual(*k))),
        Session::Recv(k) => Session::Send(Box::new(dual(*k))),
        Session::Nest(k) => Session::Nest(Box::new(dual(*k))),
        Session::Escape(n) => Session::Escape(n),
        Session::Choose(a, b) => Session::Accept(Box::new(dual(*a)), Box::new(dual(*b))),
        Session::Accept(a, b) => Session::Choose(Box::new(dual(*a)), Box::new(dual(*b))),
        Session::Finally(a) => Session::Finally(Box::new(dual(*a))),
        Session::Goto => Session::GotoDual,
        Session::GotoDual => Session::Goto,
        Session::Empty => Session::Empty,
        Session::Frame(a, b) => Session::Frame(a, b),
    }
}

/// Duality is an involution: the dual of the dual of any session is the
/// session itself.
pub proof fn lemma_dual_involutive(s: Session)
    ensures
        dual(dual(s)) == s,
    decreases s,
{
    match s {
        Session::Send(k) => lemma_dual_involutive(*k),
        Session::Recv(k) => lemma_dual_involutive(*k),
        Session::Nest(k) => lemma_dual_involutive(*k),
        Session::Choose(a, b) => {
            lemma_dual_involutive(*a);
            lemma_dual_involutive(*b);
        },
        Session::Accept(a, b) => {
            lemma_dual_involutive(*a);
            lemma_dual_involutive(*b);
        },
        Session::Finally(a) => lemma_dual_involutive(*a),
        _ => {},
    }
}

/// A type tag with a shape.
pub trait Modeled {
    spec fn model() -> Session;
}

/// All session types have duality. Two clients that communicate will
/// always have a session type that is the dual of their counterpart.
pub trait SessionType: Modeled {
    type Dual: Modeled;

    /// The associated `Dual` type has the shape `dual(model())`.
    proof fn lemma_dual()
        ensures
            <Self::Dual as Modeled>::model() == dual(Self::model()),
    ;
}

/// Duality is involutive on the type tags as well: wherever the dual of `T`
/// is itself a session type, the dual of that dual has the shape of `T`.
pub proof fn lemma_dual_dual<T: SessionType>() where T::Dual: SessionType
    ensures
        <<T::Dual as SessionType>::Dual as Modeled>::model() == T::model(),
{
    T::lemma_dual();
    <T::Dual as SessionType>::lemma_dual();
    lemma_dual_involutive(T::model());
}

/// A named protocol fragment, whose body is `Id`.
pub trait Alias {
    type Id: SessionType;
}

/// The session is at the end of communication.
/// The channel can now be gracefully closed.
pub struct End;

/// The session expects to send `T` and proceed to session `S`.
pub struct Send<T, S>(PhantomData<(T, S)>);

/// The session expects to receive `T` and proceed to session `S`.
pub struct Recv<T, S>(PhantomData<(T, S)>);

/// Enter a loop whose body is `S`: the body is pushed on the environment.
pub struct Nest<S>(PhantomData<S>);

/// Escape from a nested scope by `N` layers, using peano numbers.
pub struct Escape<N>(PhantomData<N>);

/// Continue as the body named by `A`.
pub struct Goto<A>(PhantomData<A>);

/// Continue as the dual of the body named by `A`.
pub struct GotoDual<A>(PhantomData<A>);

impl Modeled for End {
    open spec fn model() -> Session {
        Session::End
    }
}

impl SessionType for End {
    type Dual = End;

    proof fn lemma_dual() {
    }
}

impl<T, S: Modeled> Modeled for Send<T, S> {
    open spec fn model() -> Session {
        Session::Send(Box::new(S::model()))
    }
}

impl<T, S: SessionType> SessionType for Send<T, S> {
    type Dual = Recv<T, S::Dual>;

    proof fn lemma_dual() {
        S::lemma_dual();
    }
}

impl<T, S: Modeled> Modeled for Recv<T, S> {
    open spec fn model() -> Session {
        Session::Recv(Box::new(S::model()))
    }
}

impl<T, S: SessionType> SessionType for Recv<T, S> {
    type Dual = Send<T, S::Dual>;

    proof fn lemma_dual() {
        S::lemma_dual();
    }
}

impl<S: Modeled> Modeled for Nest<S> {
    open spec fn model() -> Session {
        Session::Nest(Box::new(S::model()))
    }
}

impl<S: SessionType> SessionType for Nest<S> {
    type Dual = Nest<S::Dual>;

    proof fn lemma_dual() {
        S::lemma_dual();
    }
}

impl<N: Peano> Modeled for Escape<N> {
    open spec fn model() -> Session {
        Session::Escape(N::value())
    }
}

impl<N: Peano> SessionType for Escape<N> {
    type Dual = Escape<N>;

    proof fn lemma_dual() {
    }
}

impl<A: Alias> Modeled for Goto<A> {
    open spec fn model() -> Session {
        Session::Goto
    }
}

impl<A: Alias> SessionType for Goto<A> {
    type Dual = GotoDual<A>;

    proof fn lemma_dual() {
    }
}

impl<A: Alias> Modeled for GotoDual<A> {
    open spec fn model() -> Session {
        Session::GotoDual
    }
}

impl<A: Alias> SessionType for GotoDual<A> {
    type Dual = Goto<A>;

    proof fn lemma_dual() {
    }
}

impl Modeled for () {
    open spec fn model() -> Session {
        Session::Empty
    }
}

impl SessionType for () {
    type Dual = ();

    proof fn lemma_dual() {
    }
}

impl<S: Modeled, Q: Modeled> Modeled for (S, Q) {
    open spec fn model() -> Session {
        Session::Frame(Box::new(S::model()), Box::new(Q::model()))
    }
}

impl<S: Modeled, Q: Modeled> SessionType for (S, Q) {
    type Dual = (S, Q);

    proof fn lemma_dual() {
    }
}

} // verus!
