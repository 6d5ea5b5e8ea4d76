//! Credential caches.

use crate::context::Krb5Context;
use crate::error::{check_status, krb5_error_code_escape_hatch, Krb5Error, Krb5ErrorView};
use crate::native::{Krb5Step, NativeCall, NativeCallView, NativeReply};
use crate::principal::Krb5Principal;
use crate::strconv::{
    c_string_to_string, spec_bytes_of, spec_c_string, spec_has_nul, spec_text_of,
    string_to_c_string,
};
use vstd::prelude::*;
use vstd::slice::slice_subrange;

verus! {

/// A credential cache of the native library, owned by this value.
///
/// It borrows the context it was opened in. It is given up once: closed by
/// [`Krb5CCache::release`], or destroyed by [`Krb5CCache::destroy`]. Both take
/// the value, so neither can follow the other.
#[derive(Debug)]
pub struct Krb5CCache<'a> {
    pub(crate) context: &'a Krb5Context,
    pub(crate) ccache: u64,
}

/// The destruction of a cache, under way: the cache itself is gone.
#[derive(Debug)]
pub struct Krb5Destroy<'a> {
    pub(crate) context: &'a Krb5Context,
    pub(crate) ccache: u64,
}

/// The steps of an operation that opens a cache by one native call.
pub open spec fn spec_opens_cache<'a>(
    step: Krb5Step<Result<Krb5CCache<'a>, Krb5Error>>,
    context: u64,
    call: NativeCallView,
    replies: Seq<NativeReply>,
) -> bool {
    if replies.len() == 0 {
        step.calls(call)
    } else if replies[0].code != 0 {
        step.translates(context, replies[0].code, replies.skip(1))
    } else {
        step matches Krb5Step::Done(Ok(cache)) && cache.handle() == replies[0].handle
            && cache.context_handle() == context
    }
}

/// The steps of an operation that reads one C string from the native library.
pub open spec fn spec_reads_text(
    step: Krb5Step<Result<String, Krb5Error>>,
    call: NativeCallView,
    replies: Seq<NativeReply>,
) -> bool {
    if replies.len() == 0 {
        step.calls(call)
    } else {
        match spec_text_of(spec_bytes_of(replies[0].text)) {
            Ok(s) => step matches Krb5Step::Done(Ok(text)) && text@ == s,
            Err(e) => step.fails_with(e),
        }
    }
}

/// The steps of an operation that is one native call with a status and no result.
pub open spec fn spec_reports_status(
    step: Krb5Step<Result<(), Krb5Error>>,
    context: u64,
    call: NativeCallView,
    replies: Seq<NativeReply>,
) -> bool {
    if replies.len() == 0 {
        step.calls(call)
    } else if replies[0].code != 0 {
        step.translates(context, replies[0].code, replies.skip(1))
    } else {
        step matches Krb5Step::Done(Ok(_))
    }
}

/// Reads one C string by the given native call.
fn read_text(call: NativeCall, replies: &[NativeReply]) -> (step: Krb5Step<Result<String, Krb5Error>>)
    ensures
        spec_reads_text(step, call@, replies@),
{
    if replies.len() == 0 {
        Krb5Step::Call(call)
    } else {
        Krb5Step::Done(c_string_to_string(&replies[0].text))
    }
}

/// Makes the given native call and translates its status.
fn report_status(context: &Krb5Context, call: NativeCall, replies: &[NativeReply]) -> (step: Krb5Step<
    Result<(), Krb5Error>,
>)
    ensures
        spec_reports_status(step, context.handle(), call@, replies@),
{
    if replies.len() == 0 {
        Krb5Step::Call(call)
    } else {
        krb5_error_code_escape_hatch(
            context,
            replies[0].code,
            slice_subrange(replies, 1, replies.len()),
        )
    }
}

impl<'a> Krb5CCache<'a> {
    /// The handle of the cache.
    pub closed spec fn handle(&self) -> u64 {
        self.ccache
    }

    /// The handle of the context that the cache borrows.
    pub closed spec fn context_handle(&self) -> u64 {
        self.context.handle()
    }

    /// Takes ownership of a cache that the native library handed out.
    pub(crate) fn from_handle(context: &'a Krb5Context, ccache: u64) -> (made: Self)
        ensures
            made.handle() == ccache,
            made.context_handle() == context.handle(),
    {
        Krb5CCache { context, ccache }
    }

    /// Opens a cache by the given native call.
    fn open_cache(context: &'a Krb5Context, call: NativeCall, replies: &[NativeReply]) -> (step:
        Krb5Step<Result<Krb5CCache<'a>, Krb5Error>>)
        ensures
            spec_opens_cache(step, context.handle(), call@, replies@),
    {
        if replies.len() == 0 {
            return Krb5Step::Call(call);
        }
        let later = slice_subrange(replies, 1, replies.len());
        if let Some(failed) = check_status(context, replies[0].code, later) {
            return failed;
        }
        Krb5Step::Done(Ok(Krb5CCache::from_handle(context, replies[0].handle)))
    }

    /// Opens the default cache.
    pub fn default(context: &'a Krb5Context, replies: &[NativeReply]) -> (step: Krb5Step<
        Result<Krb5CCache<'a>, Krb5Error>,
    >)
        ensures
            spec_opens_cache(
                step,
                context.handle(),
                NativeCallView::CcDefault { context: context.handle() },
                replies@,
            ),
    {
        Krb5CCache::open_cache(
            context,
            NativeCall::CcDefault { context: context.raw_handle() },
            replies,
        )
    }

    /// The name of the default cache; no cache is opened.
    pub fn default_name(context: &Krb5Context, replies: &[NativeReply]) -> (step: Krb5Step<
        Result<String, Krb5Error>,
    >)
        ensures
            spec_reads_text(
                step,
                NativeCallView::CcDefaultName { context: context.handle() },
                replies@,
            ),
    {
        read_text(NativeCall::CcDefaultName { context: context.raw_handle() }, replies)
    }

    /// Destroys the cache: its contents are erased and its handle is given up.
    ///
    /// The cache is taken by value, so nothing can use it afterwards; what is
    /// left is the destruction, to be carried through by [`Krb5Destroy::step`].
    pub fn destroy(self) -> (pending: Krb5Destroy<'a>)
        ensures
            pending.handle() == self.handle(),
            pending.context_handle() == self.context_handle(),
    {
        Krb5Destroy { context: self.context, ccache: self.ccache }
    }

    /// The name of the cache.
    pub fn get_name(&self, replies: &[NativeReply]) -> (step: Krb5Step<Result<String, Krb5Error>>)
        ensures
            spec_reads_text(
                step,
                NativeCallView::CcGetName { context: self.context_handle(), ccache: self.handle() },
                replies@,
            ),
    {
        read_text(
            NativeCall::CcGetName { context: self.context.raw_handle(), ccache: self.ccache },
            replies,
        )
    }

    /// The default principal of the cache, or `None` where it has none.
    ///
    /// A null principal with a zero status is no failure.
    pub fn get_principal(&self, replies: &[NativeReply]) -> (step: Krb5Step<
        Result<Option<Krb5Principal<'a>>, Krb5Error>,
    >)
        ensures
            if replies@.len() == 0 {
                step.calls(
                    NativeCallView::CcGetPrincipal {
                        context: self.context_handle(),
                        ccache: self.handle(),
                    },
                )
            } else if replies@[0].code != 0 {
                step.translates(self.context_handle(), replies@[0].code, replies@.skip(1))
            } else if replies@[0].handle == 0 {
                step matches Krb5Step::Done(Ok(None))
            } else {
                step matches Krb5Step::Done(Ok(Some(principal))) && principal.handle()
                    == replies@[0].handle && principal.context_handle() == self.context_handle()
            },
    {
        if replies.len() == 0 {
            return Krb5Step::Call(
                NativeCall::CcGetPrincipal {
                    context: self.context.raw_handle(),
                    ccache: self.ccache,
                },
            );
        }
        let later = slice_subrange(replies, 1, replies.len());
        if let Some(failed) = check_status(self.context, replies[0].code, later) {
            return failed;
        }
        if replies[0].handle == 0 {
            return Krb5Step::Done(Ok(None));
        }
        Krb5Step::Done(Ok(Some(Krb5Principal::from_handle(self.context, replies[0].handle))))
    }

    /// The type of the cache.
    pub fn get_type(&self, replies: &[NativeReply]) -> (step: Krb5Step<Result<String, Krb5Error>>)
        ensures
            spec_reads_text(
                step,
                NativeCallView::CcGetType { context: self.context_handle(), ccache: self.handle() },
                replies@,
            ),
    {
        read_text(
            NativeCall::CcGetType { context: self.context.raw_handle(), ccache: self.ccache },
            replies,
        )
    }

    /// Initializes the cache for a principal; credentials held for an earlier
    /// one are dropped by the native library.
    ///
    /// The cache stays the same handle in the same context.
    pub fn initialize(&mut self, principal: &Krb5Principal, replies: &[NativeReply]) -> (step:
        Krb5Step<Result<(), Krb5Error>>)
        ensures
            final(self).handle() == old(self).handle(),
            final(self).context_handle() == old(self).context_handle(),
            spec_reports_status(
                step,
                old(self).context_handle(),
                NativeCallView::CcInitialize {
                    context: old(self).context_handle(),
                    ccache: old(self).handle(),
                    principal: principal.handle(),
                },
                replies@,
            ),
    {
        report_status(
            self.context,
            NativeCall::CcInitialize {
                context: self.context.raw_handle(),
                ccache: self.ccache,
                principal: principal.raw_handle(),
            },
            replies,
        )
    }

    /// Makes a new cache of the given type, under a name that the native
    /// library picks.
    ///
    /// A type that cannot be marshalled fails with `StringConversion`, and no
    /// native call is made.
    pub fn new_unique(context: &'a Krb5Context, cctype: &str, replies: &[NativeReply]) -> (step:
        Krb5Step<Result<Krb5CCache<'a>, Krb5Error>>)
        ensures
            spec_has_nul(cctype@) ==> step.fails_with(
                Krb5ErrorView::StringConversion { error: None },
            ),
            !spec_has_nul(cctype@) ==> spec_opens_cache(
                step,
                context.handle(),
                NativeCallView::CcNewUnique {
                    context: context.handle(),
                    cctype: spec_c_string(cctype@),
                },
                replies@,
            ),
    {
        match string_to_c_string(cctype) {
            Ok(cctype) => Krb5CCache::open_cache(
                context,
                NativeCall::CcNewUnique { context: context.raw_handle(), cctype },
                replies,
            ),
            Err(error) => Krb5Step::Done(Err(error)),
        }
    }

    /// Opens the cache of the given name; the cache is not initialized.
    ///
    /// A name that cannot be marshalled fails with `StringConversion`, and no
    /// native call is made.
    pub fn resolve(context: &'a Krb5Context, name: &str, replies: &[NativeReply]) -> (step: Krb5Step<
        Result<Krb5CCache<'a>, Krb5Error>,
    >)
        ensures
            spec_has_nul(name@) ==> step.fails_with(Krb5ErrorView::StringConversion { error: None }),
            !spec_has_nul(name@) ==> spec_opens_cache(
                step,
                context.handle(),
                NativeCallView::CcResolve { context: context.handle(), name: spec_c_string(name@) },
                replies@,
            ),
    {
        match string_to_c_string(name) {
            Ok(name) => Krb5CCache::open_cache(
                context,
                NativeCall::CcResolve { context: context.raw_handle(), name },
                replies,
            ),
            Err(error) => Krb5Step::Done(Err(error)),
        }
    }

    /// Gives the cache up without touching its contents: the one native call
    /// that closes it.
    pub fn release(self) -> (call: NativeCall)
        ensures
            call@ == (NativeCallView::CcClose {
                context: self.context_handle(),
                ccache: self.handle(),
            }),
    {
        NativeCall::CcClose { context: self.context.raw_handle(), ccache: self.ccache }
    }
}

impl<'a> Krb5Destroy<'a> {
    /// The handle of the cache that is destroyed.
    pub closed spec fn handle(&self) -> u64 {
        self.ccache
    }

    /// The handle of the context that the cache borrowed.
    pub closed spec fn context_handle(&self) -> u64 {
        self.context.handle()
    }

    /// Carries the destruction through: the native call that destroys the
    /// cache, then its status. No call closes the cache afterwards.
    pub fn step(&self, replies: &[NativeReply]) -> (step: Krb5Step<Result<(), Krb5Error>>)
        ensures
            spec_reports_status(
                step,
                self.context_handle(),
                NativeCallView::CcDestroy { context: self.context_handle(), ccache: self.handle() },
                replies@,
            ),
    {
        report_status(
            self.context,
            NativeCall::CcDestroy { context: self.context.raw_handle(), ccache: self.ccache },
            replies,
        )
    }
}

} // verus!
