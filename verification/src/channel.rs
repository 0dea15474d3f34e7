//! The channels through which worker threads receive their messages.
//!
//! These are the channels of the `crossbeam_channel` crate. What goes through a channel is decided
//! by all the threads that hold an end of it, so no contract here says which message comes out.
//! Contracts elsewhere say which channel was asked, by what was handed to it and what it answered.

use crossbeam_channel::{Receiver, RecvError, SendError, Sender, TrySendError};
use vstd::layout::{align_of, size_of};
use vstd::prelude::*;

use crate::call::call1;

verus! {

/// The sending end of a channel.
#[verifier::external_type_specification]
#[verifier::external_body]
#[verifier::reject_recursive_types(T)]
pub struct ExSender<T>(Sender<T>);

/// The receiving end of a channel.
#[verifier::external_type_specification]
#[verifier::external_body]
#[verifier::reject_recursive_types(T)]
pub struct ExReceiver<T>(Receiver<T>);

/// The error of a message that nobody is left to receive. It carries the message.
#[verifier::external_type_specification]
#[verifier::reject_recursive_types(T)]
pub struct ExSendError<T>(SendError<T>);

/// The error of a message that could not be sent at once. It carries the message.
#[verifier::external_type_specification]
#[verifier::reject_recursive_types(T)]
pub struct ExTrySendError<T>(TrySendError<T>);

/// The error of receiving from an empty channel that nobody is left to send to.
#[verifier::external_type_specification]
pub struct ExRecvError(RecvError);

/// Whether a channel for `capacity` messages of type `T` fits into the address space. Every message
/// has a slot of its own, which is a counter beside the message.
pub open spec fn fits<T>(capacity: usize) -> bool {
    capacity == 0 || capacity * (size_of::<T>() + align_of::<T>() + 16) <= isize::MAX
}

/// Checks whether a channel for `capacity` messages of type `T` fits into the address space.
pub fn has_room<T>(capacity: usize) -> (room: bool)
    ensures
        room == fits::<T>(capacity),
{
    let slot: u128 = core::mem::size_of::<T>() as u128 + core::mem::align_of::<T>() as u128 + 16;
    let limit: u128 = isize::MAX as u128;
    if capacity == 0 {
        return true;
    }
    if slot > limit {
        assert(capacity * slot >= slot) by (nonlinear_arith)
            requires
                capacity >= 1,
                slot >= 0,
        ;
        return false;
    }
    assert(capacity * slot <= usize::MAX * limit) by (nonlinear_arith)
        requires
            0 <= capacity <= usize::MAX,
            0 <= slot <= limit,
    ;
    assert(usize::MAX * limit <= u128::MAX) by (nonlinear_arith)
        requires
            usize::MAX <= 0xffff_ffff_ffff_ffff,
            0 <= limit <= 0x7fff_ffff_ffff_ffff,
    ;
    capacity as u128 * slot <= limit
}

/// A channel that holds no messages always has room. Any other has room exactly if all its slots
/// together can be addressed, and so a channel has room wherever a larger one has.
pub proof fn room_is_what_the_slots_take<T>(capacity: usize, room: bool, larger: usize, more: bool)
    requires
        call_ensures(has_room::<T>, (capacity,), room),
        call_ensures(has_room::<T>, (larger,), more),
        capacity <= larger,
    ensures
        capacity == 0 ==> room,
        capacity > 0 ==> (room <==> capacity * (size_of::<T>() + align_of::<T>() + 16)
            <= isize::MAX),
        more ==> room,
{
    let slot = size_of::<T>() + align_of::<T>() + 16;
    assert(capacity * slot <= larger * slot) by (nonlinear_arith)
        requires
            capacity <= larger,
            slot >= 0,
    ;
}

/// [`crossbeam_channel::bounded`]: makes a channel that buffers up to `cap` messages. It panics if
/// that is too many to allocate a buffer for.
pub assume_specification<T>[ crossbeam_channel::bounded::<T> ](cap: usize) -> (Sender<T>, Receiver<T>)
    requires
        fits::<T>(cap),
;

/// [`Sender::send`]: blocks until the message is in the channel or nobody is left to receive it, and
/// hands the message back in the latter case.
pub assume_specification<T>[ Sender::<T>::send ](sender: &Sender<T>, msg: T) -> (sent: Result<
    (),
    SendError<T>,
>)
    ensures
        sent matches Err(error) ==> error.0 == msg,
;

/// [`Sender::try_send`]: puts the message into the channel if that is possible at once, and hands
/// it back if it is not.
pub assume_specification<T>[ Sender::<T>::try_send ](sender: &Sender<T>, msg: T) -> (sent: Result<
    (),
    TrySendError<T>,
>)
    ensures
        sent matches Err(TrySendError::Full(back)) ==> back == msg,
        sent matches Err(TrySendError::Disconnected(back)) ==> back == msg,
;

/// [`Receiver::recv`]: blocks until there is a message, and fails once the channel is empty and
/// nobody is left to send to it.
pub assume_specification<T>[ Receiver::<T>::recv ](receiver: &Receiver<T>) -> Result<T, RecvError>;

/// [`Receiver::clone`]: another receiving end of the same channel.
pub assume_specification<T>[ <Receiver<T> as Clone>::clone ](receiver: &Receiver<T>) -> Receiver<T>;

/// The messages among the answers that a receiver has been given.
pub open spec fn messages<T>(received: Seq<Result<T, RecvError>>) -> Seq<T>
    decreases received.len(),
{
    if received.len() == 0 {
        Seq::empty()
    } else {
        match received.last() {
            Ok(message) => messages(received.drop_last()).push(message),
            Err(_) => messages(received.drop_last()),
        }
    }
}

/// The receiving end of a channel, with a record of what has been received.
///
/// There is no way to receive but through [`Inbox::receive`], so that [`Inbox::received`] is what the
/// channel has given out here, no more and no less.
#[verifier::reject_recursive_types(T)]
pub struct Inbox<T> {
    receiver: Receiver<T>,
    received: Ghost<Seq<Result<T, RecvError>>>,
}

impl<T> Inbox<T> {
    /// The receiving end of the channel.
    pub closed spec fn receiver(&self) -> Receiver<T> {
        self.receiver
    }

    /// What the channel has answered so far, the first answer first.
    pub closed spec fn received(&self) -> Seq<Result<T, RecvError>> {
        self.received@
    }

    /// An inbox that nothing has been received from yet.
    pub(crate) fn new(receiver: Receiver<T>) -> (inbox: Self)
        ensures
            inbox.receiver() == receiver,
            inbox.received() == Seq::<Result<T, RecvError>>::empty(),
    {
        Inbox { receiver, received: Ghost(Seq::empty()) }
    }

    /// Waits for a message. There is none once nobody is left to send any.
    pub(crate) fn receive(&mut self) -> (answer: Result<T, RecvError>)
        ensures
            call_ensures(Receiver::<T>::recv, (&old(self).receiver(),), answer),
            final(self).receiver() == old(self).receiver(),
            final(self).received() == old(self).received().push(answer),
    {
        let answer = call1(Receiver::<T>::recv, &self.receiver);
        self.received = Ghost(self.received@.push(answer));
        answer
    }
}

/// Lets go of the sending end of a channel. Once nobody is left to send, the receivers fail after
/// they have received what was sent.
fn hang_up<T>(_sender: Option<Sender<T>>) {
}

/// Whether `sender`, if there was one, has been let go of.
pub closed spec fn has_hung_up<T>(sender: Option<Sender<T>>) -> bool {
    call_ensures(hang_up::<T>, (sender,), ())
}

/// [`hang_up`] for callers that rely on its having happened.
pub(crate) fn close<T>(sender: Option<Sender<T>>)
    ensures
        has_hung_up(sender),
{
    call1(hang_up::<T>, sender)
}

/// The messages among no answers are none. An answer that is a message adds that message behind the
/// others, and an answer that is none adds nothing.
pub proof fn messages_are_what_was_answered<T>(
    received: Seq<Result<T, RecvError>>,
    message: T,
    error: RecvError,
)
    ensures
        messages(Seq::<Result<T, RecvError>>::empty()).len() == 0,
        messages(received.push(Ok(message))) == messages(received).push(message),
        messages(received.push(Err(error))) == messages(received),
{
    assert(received.push(Ok(message)).drop_last() == received);
    assert(received.push(Err(error)).drop_last() == received);
}

} // verus!
