//! Futures that are polled by the methods of this library.

use std::future::Future;
use std::task::{Context, Poll};

use vstd::future::FutureAdditionalSpecFns;
use vstd::prelude::*;

use crate::promise::{PromiseDropped, PromiseHandle};
use crate::reactive::{Disconnected, Reader};

verus! {

/// [`std::future::poll_fn`]: makes a future that is polled by calling [`PromiseHandle::poll`]. Once it
/// has been awaited, its output is what that method has given last.
#[verifier::external_body]
pub fn of_promise<T>(handle: PromiseHandle<T>) -> (future: impl Future<
    Output = Result<T, PromiseDropped>,
>)
    ensures
        future.awaited() ==> exists|polled: &mut PromiseHandle<T>, context: &mut Context<'_>|
            {
                &&& polled.slot().is_shared_with(&handle.slot())
                &&& #[trigger] call_ensures(
                    PromiseHandle::<T>::poll,
                    (polled, context),
                    Poll::Ready(future@),
                )
            },
{
    let mut handle = handle;
    std::future::poll_fn(move |context| handle.poll(context))
}

/// [`std::future::poll_fn`]: makes a future that is polled by calling [`Reader::poll`]. Once it has
/// been awaited, its output is what that method has given last, and the reader is as that call has left
/// it. The calls before it were pending, and left the reader where it was.
#[verifier::external_body]
pub fn of_reader<T: Clone>(reader: &mut Reader<T>) -> (future: impl Future<
    Output = Result<T, Disconnected>,
> + '_)
    ensures
        future.awaited() ==> exists|polled: &mut Reader<T>, context: &mut Context<'_>|
            {
                &&& polled.reads_same_as(old(reader))
                &&& polled.position() == old(reader).position()
                &&& *final(polled) == *final(reader)
                &&& #[trigger] call_ensures(
                    Reader::<T>::poll,
                    (polled, context),
                    Poll::Ready(future@),
                )
            },
{
    std::future::poll_fn(move |context| reader.poll(context))
}

} // verus!
