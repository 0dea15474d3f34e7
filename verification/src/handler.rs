//! Functions that handle messages, with a record of what they have handled.

use std::sync::Arc;

use vstd::prelude::*;

use crate::call::call2;

verus! {

/// A function that handles messages of type `M`.
///
/// There is no way to call the function but through the methods of this type, so that
/// [`Handler::handled`] is what it has been called for, no more and no less.
#[verifier::reject_recursive_types(M)]
pub struct Handler<M, F> {
    function: F,
    handled: Ghost<Seq<M>>,
}

impl<M, F> Handler<M, F> {
    /// The function that handles the messages.
    pub closed spec fn function(&self) -> F {
        self.function
    }

    /// The messages that have been handled so far, the first one first.
    pub closed spec fn handled(&self) -> Seq<M> {
        self.handled@
    }

    /// A function that has not handled anything yet.
    pub(crate) fn new(function: F) -> (handler: Self)
        ensures
            handler.function() == function,
            handler.handled() == Seq::<M>::empty(),
    {
        Handler { function, handled: Ghost(Seq::empty()) }
    }
}

impl<M, F: FnMut(M)> Handler<M, F> {
    /// Handles a message.
    pub(crate) fn handle(&mut self, message: M)
        requires
            call_requires(old(self).function(), (message,)),
        ensures
            call_ensures(old(self).function(), (message,), ()),
            final(self).function() == old(self).function(),
            final(self).handled() == old(self).handled().push(message),
    {
        let ghost handled = self.handled@.push(message);
        (self.function)(message);
        self.handled = Ghost(handled);
    }
}

impl<M, F: Fn(M)> Handler<M, Arc<F>> {
    /// Handles a message by a function that is shared.
    pub(crate) fn handle_shared(&mut self, message: M)
        requires
            call_requires(*old(self).function(), (message,)),
        ensures
            call_ensures(*old(self).function(), (message,), ()),
            final(self).function() == old(self).function(),
            final(self).handled() == old(self).handled().push(message),
    {
        let ghost handled = self.handled@.push(message);
        (*self.function)(message);
        self.handled = Ghost(handled);
    }
}

impl<I, A, F> Handler<(I, A), Arc<F>> {
    /// Handles the first half of a message by a function that is shared, which is called by `attempt`.
    /// Hands the other half out along with the result.
    pub(crate) fn attempt<R, C: FnOnce(&F, I) -> R>(&mut self, attempt: C, message: (I, A)) -> (out:
        (R, A))
        requires
            call_requires(attempt, (&*old(self).function(), message.0)),
        ensures
            call_ensures(attempt, (&*old(self).function(), message.0), out.0),
            out.1 == message.1,
            final(self).function() == old(self).function(),
            final(self).handled() == old(self).handled().push(message),
    {
        let ghost handled = self.handled@.push(message);
        let (input, rest) = message;
        let result = call2(attempt, &*self.function, input);
        self.handled = Ghost(handled);
        (result, rest)
    }
}

} // verus!
