//! The two ends of a reply.

use vstd::prelude::*;

use core::marker::PhantomData;

verus! {

/// The end that the service answers through.
pub struct ReplySender<T> {
    _phantom: PhantomData<T>,
}

/// The end that the caller waits on.
pub struct ReplyReceiver<T> {
    _phantom: PhantomData<T>,
}

impl<T> ReplySender<T> {
    /// The sending end for values of type `T`.
    pub closed spec fn end() -> Self {
        ReplySender { _phantom: PhantomData }
    }
}

impl<T> ReplyReceiver<T> {
    /// The receiving end for values of type `T`.
    pub closed spec fn end() -> Self {
        ReplyReceiver { _phantom: PhantomData }
    }
}

/// The two ends of one reply.
pub fn reply_pair<T>() -> (pair: (ReplySender<T>, ReplyReceiver<T>))
    ensures
        pair == (ReplySender::<T>::end(), ReplyReceiver::<T>::end()),
{
    (ReplySender { _phantom: PhantomData }, ReplyReceiver { _phantom: PhantomData })
}

} // verus!
