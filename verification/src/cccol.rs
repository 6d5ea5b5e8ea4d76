//! The collection of credential caches, walked by a cursor.

use crate::ccache::Krb5CCache;
use crate::context::Krb5Context;
use crate::error::{check_status, spec_error_message, Krb5Error, Krb5ErrorView};
use crate::native::{Krb5Step, NativeCall, NativeCallView, NativeReply};
use crate::strconv::spec_bytes_of;
use vstd::prelude::*;
use vstd::slice::slice_subrange;

verus! {

/// A cursor over the caches that the native library shows, owned by this value.
///
/// The walk goes forward only and ends once: after the native library has
/// answered an advance with no cache, or with a nonzero status, the cursor is
/// exhausted and asks nothing more of it. The cursor is given up once, by
/// [`Krb5CCCol::release`], wherever the walk stands.
#[derive(Debug)]
pub struct Krb5CCCol<'a> {
    pub(crate) context: &'a Krb5Context,
    pub(crate) cursor: u64,
    pub(crate) exhausted: bool,
}

/// Whether the cursor is exhausted after an advance, `reply` being what the
/// native library answered where it was asked.
pub open spec fn spec_exhausted_after(exhausted: bool, reply: NativeReply) -> bool {
    exhausted || reply.code != 0 || reply.handle == 0
}

/// The handle of the cache that an advance yields, where it yields one.
pub open spec fn spec_yields(exhausted: bool, reply: NativeReply) -> Option<u64> {
    if !exhausted && reply.code == 0 && reply.handle != 0 {
        Some(reply.handle)
    } else {
        None
    }
}

/// The handles of the caches that a walk yields, `replies` being the answers
/// of the native library to its advances, in order.
pub open spec fn spec_walk(exhausted: bool, replies: Seq<NativeReply>) -> Seq<u64>
    decreases replies.len(),
{
    if replies.len() == 0 {
        Seq::empty()
    } else {
        let rest = spec_walk(spec_exhausted_after(exhausted, replies[0]), replies.drop_first());
        match spec_yields(exhausted, replies[0]) {
            Some(handle) => seq![handle] + rest,
            None => rest,
        }
    }
}

/// Whether the cursor is exhausted at the end of a walk.
pub open spec fn spec_walk_exhausted(exhausted: bool, replies: Seq<NativeReply>) -> bool
    decreases replies.len(),
{
    if replies.len() == 0 {
        exhausted
    } else {
        spec_walk_exhausted(spec_exhausted_after(exhausted, replies[0]), replies.drop_first())
    }
}

impl<'a> Krb5CCCol<'a> {
    /// The handle of the cursor.
    pub closed spec fn handle(&self) -> u64 {
        self.cursor
    }

    /// The handle of the context that the cursor borrows.
    pub closed spec fn context_handle(&self) -> u64 {
        self.context.handle()
    }

    /// Whether the walk has ended.
    pub closed spec fn exhausted(&self) -> bool {
        self.exhausted
    }

    /// Makes a cursor at the start of the collection.
    pub fn new(context: &'a Krb5Context, replies: &[NativeReply]) -> (step: Krb5Step<
        Result<Krb5CCCol<'a>, Krb5Error>,
    >)
        ensures
            if replies@.len() == 0 {
                step.calls(NativeCallView::CursorNew { context: context.handle() })
            } else if replies@[0].code != 0 {
                step.translates(context.handle(), replies@[0].code, replies@.skip(1))
            } else {
                step matches Krb5Step::Done(Ok(cursor)) && cursor.handle() == replies@[0].handle
                    && cursor.context_handle() == context.handle() && !cursor.exhausted()
            },
    {
        if replies.len() == 0 {
            return Krb5Step::Call(NativeCall::CursorNew { context: context.raw_handle() });
        }
        let later = slice_subrange(replies, 1, replies.len());
        if let Some(failed) = check_status(context, replies[0].code, later) {
            return failed;
        }
        Krb5Step::Done(Ok(Krb5CCCol { context, cursor: replies[0].handle, exhausted: false }))
    }

    /// Advances the cursor: the next cache, a failure, or `None` at the end.
    ///
    /// An exhausted cursor answers `None` at once. Else the native library is
    /// asked for the next cache. A cache is yielded and the walk goes on. No
    /// cache ends the walk. A nonzero status ends it too, after it was
    /// yielded as a failure. Until the advance is over the cursor is unchanged.
    pub fn next(&mut self, replies: &[NativeReply]) -> (step: Krb5Step<
        Option<Result<Krb5CCache<'a>, Krb5Error>>,
    >)
        ensures
            final(self).handle() == old(self).handle(),
            final(self).context_handle() == old(self).context_handle(),
            old(self).exhausted() ==> (step matches Krb5Step::Done(None) && final(self).exhausted()),
            !old(self).exhausted() && replies@.len() == 0 ==> {
                &&& !final(self).exhausted()
                &&& step.calls(
                    NativeCallView::CursorNext {
                        context: old(self).context_handle(),
                        cursor: old(self).handle(),
                    },
                )
            },
            !old(self).exhausted() && replies@.len() == 1 && replies@[0].code != 0 ==> {
                &&& !final(self).exhausted()
                &&& step.calls(
                    NativeCallView::GetErrorMessage {
                        context: old(self).context_handle(),
                        code: replies@[0].code,
                    },
                )
            },
            !old(self).exhausted() && replies@.len() > 0 && (replies@[0].code == 0 || replies@.len()
                > 1) ==> {
                &&& final(self).exhausted() == spec_exhausted_after(false, replies@[0])
                &&& match spec_yields(false, replies@[0]) {
                    Some(handle) => step matches Krb5Step::Done(Some(Ok(cache))) && cache.handle()
                        == handle && cache.context_handle() == old(self).context_handle(),
                    None => if replies@[0].code != 0 {
                        step matches Krb5Step::Done(Some(Err(e))) && e@
                            == (Krb5ErrorView::LibraryError {
                            message: spec_error_message(spec_bytes_of(replies@[1].text)),
                        })
                    } else {
                        step matches Krb5Step::Done(None)
                    },
                }
            },
    {
        if self.exhausted {
            return Krb5Step::Done(None);
        }
        if replies.len() == 0 {
            return Krb5Step::Call(
                NativeCall::CursorNext { context: self.context.raw_handle(), cursor: self.cursor },
            );
        }
        let later = slice_subrange(replies, 1, replies.len());
        match check_status::<()>(self.context, replies[0].code, later) {
            Some(Krb5Step::Call(call)) => {
                return Krb5Step::Call(call);
            },
            Some(Krb5Step::Done(Err(error))) => {
                self.exhausted = true;
                return Krb5Step::Done(Some(Err(error)));
            },
            _ => {},
        }
        if replies[0].handle == 0 {
            self.exhausted = true;
            return Krb5Step::Done(None);
        }
        Krb5Step::Done(Some(Ok(Krb5CCache::from_handle(self.context, replies[0].handle))))
    }

    /// Gives the cursor up: the one native call that frees it.
    pub fn release(self) -> (call: NativeCall)
        ensures
            call@ == (NativeCallView::CursorFree {
                context: self.context_handle(),
                cursor: self.handle(),
            }),
    {
        NativeCall::CursorFree { context: self.context.raw_handle(), cursor: self.cursor }
    }
}

/// A walk over a collection of `n` caches yields exactly those `n` caches, in
/// order, and then ends: whatever the native library might answer after it
/// has answered with no cache, the cursor asks it nothing more. This holds
/// for `n == 0` too.
pub proof fn lemma_walk_yields_each_cache_once(
    caches: Seq<NativeReply>,
    end: NativeReply,
    after: Seq<NativeReply>,
)
    requires
        forall|i: int| 0 <= i < caches.len() ==> (#[trigger] caches[i]).code == 0 && caches[i].handle != 0,
        end.code == 0,
        end.handle == 0,
    ensures
        spec_walk(false, caches + seq![end] + after) == caches.map_values(
            |reply: NativeReply| reply.handle,
        ),
        spec_walk_exhausted(false, caches + seq![end] + after),
    decreases caches.len(),
{
    let replies = caches + seq![end] + after;
    let handles = caches.map_values(|reply: NativeReply| reply.handle);
    if caches.len() == 0 {
        assert(replies[0] == end);
        lemma_exhausted_walk_is_over(replies.drop_first());
        assert(spec_walk(false, replies) =~= handles);
    } else {
        assert(replies[0] == caches[0]);
        assert(replies.drop_first() =~= caches.drop_first() + seq![end] + after);
        lemma_walk_yields_each_cache_once(caches.drop_first(), end, after);
        assert(caches.drop_first().map_values(|reply: NativeReply| reply.handle)
            =~= handles.drop_first());
        assert(spec_walk(false, replies) =~= handles);
    }
}

/// An exhausted cursor yields nothing and stays exhausted.
pub proof fn lemma_exhausted_walk_is_over(replies: Seq<NativeReply>)
    ensures
        spec_walk(true, replies) == Seq::<u64>::empty(),
        spec_walk_exhausted(true, replies),
    decreases replies.len(),
{
    if replies.len() > 0 {
        lemma_exhausted_walk_is_over(replies.drop_first());
    }
}

} // verus!
