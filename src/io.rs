//! The transport interface. A transport offers a scalar channel for branch
//! discriminants and one typed channel per message type. `Channel` calls
//! these methods only when the protocol expects that transfer, so long as
//! the backing channel cannot be reached in any other way while a
//! `Channel` owns the transport.

use vstd::prelude::*;

verus! {

/// Backing IO structures implement this trait to offer an interface for
/// bi-directional channels. Discriminants are sent and received by
/// `Channel` to indicate branch choices; they tend to be small numbers, so
/// a variable length integer could be sent over a network instead of the
/// raw `usize`.
pub trait IO: Sized {
    /// The discriminants sent so far, oldest first. A transport whose
    /// methods are verified states its own; the default tells nothing.
    closed spec fn discriminants_sent(&self) -> Seq<usize> {
        arbitrary()
    }

    /// The channel has been closed.
    closed spec fn is_closed(&self) -> bool {
        arbitrary()
    }

    /// Closes the channel; closing twice has no further effect.
    fn close(&mut self)
        ensures
            final(self).is_closed(),
            final(self).discriminants_sent() == old(self).discriminants_sent(),
    ;

    /// Sends a discriminant over the channel.
    fn send_discriminant(&mut self, num: usize)
        ensures
            final(self).discriminants_sent() == old(self).discriminants_sent().push(num),
    ;

    /// Receives the next discriminant, or `None` when none is ready yet; a
    /// transport that has nothing to give leaves its state untouched.
    fn recv_discriminant(&mut self) -> (r: Option<usize>)
        ensures
            r.is_none() ==> *final(self) == *old(self),
    ;
}

/// Sending and receiving of values of type `T`, in FIFO order with respect
/// to the other transfers of the same transport.
pub trait Transfers<T>: IO {
    /// The values of type `T` sent so far, oldest first. A transport whose
    /// methods are verified states its own; the default tells nothing.
    closed spec fn values_sent(&self) -> Seq<T> {
        arbitrary()
    }

    /// Sends an object from the handler to the outside channel.
    fn send(&mut self, obj: T)
        ensures
            final(self).values_sent() == old(self).values_sent().push(obj),
    ;

    /// Attempts to retrieve an object from the outside channel. This may
    /// block, depending on the implementation; a transport that returns
    /// `None` leaves its state untouched.
    fn recv(&mut self) -> (r: Option<T>)
        ensures
            r.is_none() ==> *final(self) == *old(self),
    ;
}

} // verus!
