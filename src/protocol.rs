//! Protocols, channels and suspended sessions.

use vstd::prelude::*;
use std::marker::PhantomData;
use crate::io::{Transfers, IO};
use crate::peano::{pop_env, Peano, Pop};
use crate::resume::Continuation;
use crate::session_types::branching::{accept_branch, chooses, Accept, Acceptor, Chooser};
use crate::session_types::{Alias, End, Escape, Goto, GotoDual, Modeled, Nest, Recv, Send, Session, SessionType};

verus! {

/// A `Protocol` describes the underlying protocol, including the "initial"
/// session type. `Handler`s are defined over concrete `Protocol`s to
/// implement the behavior of a protocol in a given `SessionType`. The
/// protocol value itself is the endpoint's context.
pub trait Protocol {
    type Initial: SessionType;
}

/// One step of a suspended session, on its transport and context: the
/// parts of the session that follows, as `Defer::parts` gives them.
pub type Step<P, I> = spec_fn(I, P) -> (Option<I>, Option<P>, bool, Session, Session);

/// The step that runs the handler of environment `E`, state `S`.
pub open spec fn handler_step<P: Handler<I, E, S>, I, E, S>() -> Step<P, I> {
    |io: I, proto: P| P::outcome(Channel::<P, I, E, S>::from_parts(io, proto))
}

/// A suspended session: the transport, the context, the continuation that
/// resumes it, and whether the session is still open. Handlers return a
/// `Defer`, obtained by calling `.defer()` on the channel, or `.close()`
/// when the session is at `End`.
#[verifier::reject_recursive_types(P)]
#[verifier::reject_recursive_types(I)]
pub struct Defer<P, I> {
    io: Option<I>,
    proto: Option<P>,
    func: Option<Continuation<P, I>>,
    open: bool,
    env: Ghost<Session>,
    state: Ghost<Session>,
}

impl<P, I> Defer<P, I> {
    /// The session can be stepped: it is open and holds its transport,
    /// context and continuation.
    pub closed spec fn is_open(&self) -> bool {
        self.open && self.io.is_some() && self.proto.is_some() && self.func.is_some()
    }

    /// The environment in which the session was suspended.
    pub closed spec fn env(&self) -> Session {
        self.env@
    }

    /// The state in which the session was suspended.
    pub closed spec fn state(&self) -> Session {
        self.state@
    }

    /// The transport held.
    pub closed spec fn transport(&self) -> Option<I> {
        self.io
    }

    /// The context held.
    pub closed spec fn context(&self) -> Option<P> {
        self.proto
    }

    /// The step that stepping the session takes.
    pub closed spec fn next(&self) -> Step<P, I> {
        self.func.unwrap().step()
    }

    /// Transport, context, openness, environment and state.
    pub open spec fn parts(&self) -> (Option<I>, Option<P>, bool, Session, Session) {
        (self.transport(), self.context(), self.is_open(), self.env(), self.state())
    }

    pub(crate) fn new<E: Modeled, S: Modeled>(
        chan: Channel<P, I, E, S>,
        next: Option<Continuation<P, I>>,
        open: bool,
    ) -> (r: Defer<P, I>)
        requires
            next matches Some(c) ==> c.env() == E::model() && c.state() == S::model(),
        ensures
            r.is_open() == (open && next.is_some()),
            next matches Some(c) ==> r.next() == c.step(),
            r.env() == E::model(),
            r.state() == S::model(),
            r.transport() == Some(chan.transport()),
            r.context() == Some(chan.context()),
    {
        Defer {
            io: Some(chan.io),
            proto: Some(chan.proto),
            func: next,
            open,
            env: Ghost(E::model()),
            state: Ghost(S::model()),
        }
    }

    fn resumable(&self) -> (r: bool)
        ensures
            r == self.is_open(),
    {
        self.open && self.io.is_some() && self.proto.is_some() && self.func.is_some()
    }

    /// Runs one step of the session: the handler of the state it was
    /// suspended in runs, on the transport and context held, until it
    /// defers again or closes, and the session becomes the one it returned.
    /// Returns whether the session is still open. A closed session cannot
    /// be stepped.
    pub fn with(&mut self) -> (r: bool)
        requires
            old(self).is_open(),
        ensures
            final(self).parts() == (old(self).next())(
                old(self).transport().unwrap(),
                old(self).context().unwrap(),
            ),
            r == final(self).is_open(),
    {
        let io = self.io.take().unwrap();
        let proto = self.proto.take().unwrap();
        let chan: Channel<P, I, (), ()> = Channel::new(io, proto);
        let next = self.func.as_ref().unwrap().resume(chan);
        *self = next;
        self.resumable()
    }
}

/// Channels are provided to handlers to act as a "courier" for the session
/// type and a guard for the IO backend. `E` is the environment stack of
/// enclosing loop bodies and `S` the current state.
pub struct Channel<P, I, E, S> {
    io: I,
    pub proto: P,
    _marker: PhantomData<(E, S)>,
}

impl<P, I, E, S> Channel<P, I, E, S> {
    /// The transport owned by the channel.
    pub closed spec fn transport(&self) -> I {
        self.io
    }

    /// The endpoint's context.
    pub closed spec fn context(&self) -> P {
        self.proto
    }

    /// The channel that owns `io`, with context `proto`.
    pub closed spec fn from_parts(io: I, proto: P) -> Self {
        Channel { io, proto, _marker: PhantomData }
    }

    fn new(io: I, proto: P) -> (r: Channel<P, I, E, S>)
        ensures
            r == Self::from_parts(io, proto),
            r.transport() == io,
            r.context() == proto,
    {
        Channel { io, proto, _marker: PhantomData }
    }

    /// Re-types the channel. Only the library does this, where the type
    /// system cannot see that the new environment and state are right.
    pub(crate) fn into_session<F, N>(self) -> (r: Channel<P, I, F, N>)
        ensures
            r == Channel::<P, I, F, N>::from_parts(self.transport(), self.context()),
            r.transport() == self.transport(),
            r.context() == self.context(),
    {
        Channel::new(self.io, self.proto)
    }
}

/// `Handler` is implemented on `Protocol` for every session type you
/// expect to defer, including the initial state.
pub trait Handler<I, E, S>: Protocol + Sized {
    /// The parts of what `with` returns on `chan`. A handler whose body is
    /// verified states its own; the default tells nothing.
    closed spec fn outcome(chan: Channel<Self, I, E, S>) -> (
        Option<I>,
        Option<Self>,
        bool,
        Session,
        Session,
    ) {
        arbitrary()
    }

    /// Given a channel in a particular state, with a particular
    /// environment, do whatever you'd like with the channel and return
    /// `Defer`, which you can obtain by doing `.defer()` on the channel or
    /// `.close()` on the channel.
    fn with(chan: Channel<Self, I, E, S>) -> (r: Defer<Self, I>)
        ensures
            r.parts() == Self::outcome(chan),
    ;
}

/// The channel of the endpoint that starts in the protocol's initial state.
pub fn channel<P: Protocol, I: IO>(io: I, proto: P) -> (r: Channel<P, I, (), P::Initial>)
    ensures
        r.transport() == io,
        r.context() == proto,
{
    Channel::new(io, proto)
}

/// The channel of the endpoint that starts in the dual of the initial state.
pub fn channel_dual<P: Protocol, I: IO>(io: I, proto: P) -> (r: Channel<
    P,
    I,
    (),
    <P::Initial as SessionType>::Dual,
>)
    ensures
        r.transport() == io,
        r.context() == proto,
{
    Channel::new(io, proto)
}

impl<P: Handler<I, E, S>, I, E: Modeled + 'static, S: Modeled + 'static> Channel<P, I, E, S> {
    /// Defer the rest of the protocol execution. Useful for returning early.
    /// There must be a `Handler` implemented for the state deferred in.
    pub fn defer(self) -> (r: Defer<P, I>)
        ensures
            r.is_open(),
            r.next() == handler_step::<P, I, E, S>(),
            r.env() == E::model(),
            r.state() == S::model(),
            r.transport() == Some(self.transport()),
            r.context() == Some(self.context()),
    {
        Defer::new(self, Some(Continuation::resuming::<E, S>()), true)
    }
}

impl<P, I: IO, E: Modeled> Channel<P, I, E, End> {
    /// Close the channel. Only possible if it's in the `End` state. The
    /// returned session is closed and cannot be stepped.
    pub fn close(self) -> (r: Defer<P, I>)
        ensures
            !r.is_open(),
            r.env() == E::model(),
            r.state() == Session::End,
            r.transport().is_some(),
            r.transport().unwrap().is_closed(),
            r.transport().unwrap().discriminants_sent() == self.transport().discriminants_sent(),
            r.context() == Some(self.context()),
    {
        let mut io = self.io;
        io.close();
        Defer::new(Channel::<P, I, E, End>::new(io, self.proto), None, false)
    }
}

impl<P, I: Transfers<T>, T, E, S> Channel<P, I, E, Send<T, S>> {
    /// Send a `T` to IO.
    pub fn send(self, a: T) -> (r: Channel<P, I, E, S>)
        ensures
            r.transport().values_sent() == self.transport().values_sent().push(a),
            r.context() == self.context(),
    {
        let mut io = self.io;
        io.send(a);
        Channel::new(io, self.proto)
    }
}

impl<P, I: Transfers<T>, T, E, S> Channel<P, I, E, Recv<T, S>> {
    /// Receive a `T` from IO. When none is ready the channel comes back
    /// unchanged, so that the caller may defer.
    pub fn recv(self) -> (r: Result<(T, Channel<P, I, E, S>), Self>)
        ensures
            match r {
                Ok((_, next)) => next.context() == self.context(),
                Err(same) => same == self,
            },
    {
        let mut io = self.io;
        let got = io.recv();
        Channel::<P, I, E, Recv<T, S>>::new(io, self.proto).received(got)
    }

    /// The outcome of a receive once `got` has come from the transport.
    fn received(self, got: Option<T>) -> (r: Result<(T, Channel<P, I, E, S>), Self>)
        ensures
            match got {
                Some(v) => match r {
                    Ok((w, next)) => w == v && next.transport() == self.transport() && next.context()
                        == self.context(),
                    Err(_) => false,
                },
                None => r == Err::<(T, Channel<P, I, E, S>), Self>(self),
            },
    {
        match got {
            Some(res) => Ok((res, Channel::new(self.io, self.proto))),
            None => Err(self),
        }
    }
}

impl<P, I, E, S> Channel<P, I, E, Nest<S>> {
    /// Enter into a nested protocol: its body is pushed on the environment.
    pub fn enter(self) -> (r: Channel<P, I, (S, E), S>)
        ensures
            r.transport() == self.transport(),
            r.context() == self.context(),
    {
        Channel::new(self.io, self.proto)
    }
}

impl<P, I, N: Peano, E: Pop<N>> Channel<P, I, E, Escape<N>> {
    /// Escape from a nested protocol by `N` layers: the new state is the
    /// body of the `N`-th frame, over the stack from that frame down.
    pub fn pop(self) -> (r: Channel<P, I, E::Tail, E::Head>)
        ensures
            r.transport() == self.transport(),
            r.context() == self.context(),
            <E::Head as Modeled>::model() == pop_env(E::model(), N::value()).0,
            <E::Tail as Modeled>::model() == pop_env(E::model(), N::value()).1,
    {
        proof {
            E::lemma_pop();
        }
        Channel::new(self.io, self.proto)
    }
}

impl<P, I, E, A: Alias> Channel<P, I, E, Goto<A>> {
    /// Continue as the body of `A`. No wire traffic.
    pub fn goto(self) -> (r: Channel<P, I, E, A::Id>)
        ensures
            r.transport() == self.transport(),
            r.context() == self.context(),
    {
        Channel::new(self.io, self.proto)
    }
}

impl<P, I, E, A: Alias> Channel<P, I, E, GotoDual<A>> {
    /// Continue as the dual of the body of `A`. No wire traffic.
    pub fn goto(self) -> (r: Channel<P, I, E, <A::Id as SessionType>::Dual>)
        ensures
            r.transport() == self.transport(),
            r.context() == self.context(),
    {
        Channel::new(self.io, self.proto)
    }
}

impl<P, I: IO, E, R: Modeled> Channel<P, I, E, R> {
    /// Select the branch `S` to advance to: its position `N` in the list
    /// `R` is sent as a discriminant.
    pub fn choose_branch<S: Modeled, N: Peano>(self) -> (r: Channel<P, I, E, S>) where R: Chooser<S, N>
        requires
            N::value() <= usize::MAX,
        ensures
            r.transport().discriminants_sent() == self.transport().discriminants_sent().push(
                N::value() as usize,
            ),
            r.context() == self.context(),
            chooses(R::model(), S::model(), N::value()),
    {
        proof {
            R::lemma_chooses();
        }
        let mut io = self.io;
        io.send_discriminant(R::num());
        Channel::new(io, self.proto)
    }
}

impl<P, I: IO, E: Modeled + 'static, S: Modeled + 'static, Q: Modeled + 'static> Channel<
    P,
    I,
    E,
    Accept<S, Q>,
> where P: Acceptor<I, E, Accept<S, Q>> + Handler<I, E, Accept<S, Q>> {
    /// Accept one of many protocols: a received discriminant leads to the
    /// handler of its branch; when none is ready yet, the session is
    /// deferred to accept again when next stepped.
    pub fn accept(self) -> (r: Defer<P, I>)
        ensures
            r.is_open(),
            r.env() == E::model(),
            r.context() == Some(self.context()),
            r.state() == Accept::<S, Q>::model() && r.next() == handler_step::<
                P,
                I,
                E,
                Accept<S, Q>,
            >() || exists|d: usize|
                r.state() == accept_branch(Accept::<S, Q>::model(), d as nat) && r.next()
                    == P::dispatched(d),
    {
        let mut io = self.io;
        let received = io.recv_discriminant();
        Channel::<P, I, E, Accept<S, Q>>::new(io, self.proto).dispatch(received)
    }

    /// The session after `received` has come from the transport: the
    /// handler of the branch it selects, or, when nothing was received,
    /// this state's own handler.
    fn dispatch(self, received: Option<usize>) -> (r: Defer<P, I>)
        ensures
            r.is_open(),
            r.env() == E::model(),
            r.transport() == Some(self.transport()),
            r.context() == Some(self.context()),
            r.state() == match received {
                Some(d) => accept_branch(Accept::<S, Q>::model(), d as nat),
                None => Accept::<S, Q>::model(),
            },
            r.next() == match received {
                Some(d) => P::dispatched(d),
                None => handler_step::<P, I, E, Accept<S, Q>>(),
            },
    {
        match received {
            Some(num) => P::defer(self, num),
            None => self.defer(),
        }
    }
}

} // verus!
