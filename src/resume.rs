//! The erased continuation of a suspended session. A `Defer` has one type
//! whatever state its session is in, so the state is kept in the type of a
//! zero-sized `Resumer<E, S>` and erased behind `dyn Resume`: resuming
//! re-types the channel to `E`, `S` and runs that state's handler. Beside
//! the erased value a continuation records, as ghost state, the step it
//! runs and the environment and state it resumes in.

use vstd::prelude::*;
use std::marker::PhantomData;
use crate::protocol::{handler_step, Channel, Defer, Handler, Step};
use crate::session_types::{Modeled, Session};

verus! {

/// Resumes a suspended session whose channel has been erased to the unit
/// environment and state.
pub trait Resume<P, I> {
    /// The step that `resume` takes.
    spec fn step(&self) -> Step<P, I>;

    fn resume(&self, chan: Channel<P, I, (), ()>) -> (r: Defer<P, I>)
        ensures
            r.parts() == (self.step())(chan.transport(), chan.context()),
    ;
}

/// Resumes in environment `E` and state `S`.
pub struct Resumer<E, S>(PhantomData<(E, S)>);

impl<P: Handler<I, E, S>, I, E, S> Resume<P, I> for Resumer<E, S> {
    open spec fn step(&self) -> Step<P, I> {
        handler_step::<P, I, E, S>()
    }

    fn resume(&self, chan: Channel<P, I, (), ()>) -> (r: Defer<P, I>) {
        P::with(chan.into_session())
    }
}

/// A `dyn Resume` held inline, without a heap allocation.
#[verifier::external_body]
#[verifier::reject_recursive_types(P)]
#[verifier::reject_recursive_types(I)]
pub struct Inline<P, I> {
    value: stack_dst::ValueU<dyn Resume<P, I>, 2>,
}

/// A `dyn Resume` held on the heap.
#[verifier::external_body]
#[verifier::reject_recursive_types(P)]
#[verifier::reject_recursive_types(I)]
pub struct Boxed<P, I> {
    value: Box<dyn Resume<P, I>>,
}

/// A resumer held inline, with its step. Only `store_inline` builds one.
#[verifier::reject_recursive_types(P)]
#[verifier::reject_recursive_types(I)]
pub struct InlineResumer<P, I> {
    value: Inline<P, I>,
    step: Ghost<Step<P, I>>,
}

/// A resumer held on the heap, with its step. Only `store_boxed` builds one.
#[verifier::reject_recursive_types(P)]
#[verifier::reject_recursive_types(I)]
pub struct BoxedResumer<P, I> {
    value: Boxed<P, I>,
    step: Ghost<Step<P, I>>,
}

impl<P, I> InlineResumer<P, I> {
    pub closed spec fn step(&self) -> Step<P, I> {
        self.step@
    }

    /// It takes the step of `resumer`.
    pub open spec fn holds<E, S>(&self, resumer: Resumer<E, S>) -> bool where P: Handler<I, E, S> {
        self.step() == handler_step::<P, I, E, S>()
    }
}

impl<P, I> BoxedResumer<P, I> {
    pub closed spec fn step(&self) -> Step<P, I> {
        self.step@
    }

    /// It takes the step of `resumer`.
    pub open spec fn holds<E, S>(&self, resumer: Resumer<E, S>) -> bool where P: Handler<I, E, S> {
        self.step() == handler_step::<P, I, E, S>()
    }
}

/// Relies on `stack_dst::Value::new_stable`: stores the resumer inline when
/// it fits the buffer, and hands it back otherwise.
#[verifier::external_body]
fn store_inline<P: Handler<I, E, S>, I, E: 'static, S: 'static>(resumer: Resumer<E, S>) -> (r: Result<InlineResumer<P, I>, Resumer<E, S>>)
    ensures
        r matches Ok(stored) ==> stored.holds(resumer),
{
    stack_dst::ValueU::new_stable(resumer, |p| p as _).map(
        |value| InlineResumer { value: Inline { value }, step: Ghost(handler_step::<P, I, E, S>()) },
    )
}

/// Relies on `Box::new`: stores the resumer on the heap.
#[verifier::external_body]
fn store_boxed<P: Handler<I, E, S>, I, E: 'static, S: 'static>(resumer: Resumer<E, S>) -> (r: BoxedResumer<P, I>)
    ensures
        r.holds(resumer),
{
    BoxedResumer { value: Boxed { value: Box::new(resumer) }, step: Ghost(handler_step::<P, I, E, S>()) }
}

/// Relies on `stack_dst::Value`'s `Deref` to reach the resumer stored, and
/// runs it: the result is that resumer's step.
#[verifier::external_body]
fn resume_inline<P, I>(stored: &InlineResumer<P, I>, chan: Channel<P, I, (), ()>) -> (r: Defer<P, I>)
    ensures
        r.parts() == (stored.step())(chan.transport(), chan.context()),
{
    stored.value.value.resume(chan)
}

/// Relies on `Box`'s `Deref` to reach the resumer stored, and runs it: the
/// result is that resumer's step.
#[verifier::external_body]
fn resume_boxed<P, I>(stored: &BoxedResumer<P, I>, chan: Channel<P, I, (), ()>) -> (r: Defer<P, I>)
    ensures
        r.parts() == (stored.step())(chan.transport(), chan.context()),
{
    stored.value.value.resume(chan)
}

/// An erased resumer, inline or boxed.
#[verifier::reject_recursive_types(P)]
#[verifier::reject_recursive_types(I)]
pub enum Stored<P, I> {
    Inline(InlineResumer<P, I>),
    Boxed(BoxedResumer<P, I>),
}

impl<P, I> Stored<P, I> {
    pub open spec fn step(&self) -> Step<P, I> {
        match self {
            Stored::Inline(stored) => stored.step(),
            Stored::Boxed(stored) => stored.step(),
        }
    }
}

/// A continuation: the erased resumer, and the environment and state it
/// resumes in.
#[verifier::reject_recursive_types(P)]
#[verifier::reject_recursive_types(I)]
pub struct Continuation<P, I> {
    stored: Stored<P, I>,
    env: Ghost<Session>,
    state: Ghost<Session>,
}

impl<P, I> Continuation<P, I> {
    pub closed spec fn step(&self) -> Step<P, I> {
        self.stored.step()
    }

    pub closed spec fn env(&self) -> Session {
        self.env@
    }

    pub closed spec fn state(&self) -> Session {
        self.state@
    }

    /// The continuation that runs the handler of environment `E`, state `S`.
    pub fn resuming<E: Modeled + 'static, S: Modeled + 'static>() -> (r: Self) where
        P: Handler<I, E, S>,

        ensures
            r.step() == handler_step::<P, I, E, S>(),
            r.env() == E::model(),
            r.state() == S::model(),
    {
        let stored = match store_inline::<P, I, E, S>(Resumer(PhantomData)) {
            Ok(stored) => Stored::Inline(stored),
            Err(resumer) => Stored::Boxed(store_boxed::<P, I, E, S>(resumer)),
        };
        Continuation { stored, env: Ghost(E::model()), state: Ghost(S::model()) }
    }

    pub fn resume(&self, chan: Channel<P, I, (), ()>) -> (r: Defer<P, I>)
        ensures
            r.parts() == (self.step())(chan.transport(), chan.context()),
    {
        match &self.stored {
            Stored::Inline(stored) => resume_inline(stored, chan),
            Stored::Boxed(stored) => resume_boxed(stored, chan),
        }
    }
}

} // verus!
