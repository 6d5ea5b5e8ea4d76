//! The context: the handle through which every other native call is made.

use crate::error::{check_status, spec_error_message, Krb5Error, Krb5ErrorView};
use crate::native::{Krb5Step, NativeCall, NativeCallView, NativeReply};
use crate::principal::Krb5Principal;
use crate::strconv::{
    bytes_to_string, c_string_to_string, lemma_c_string_content, lemma_c_string_round_trip,
    spec_bytes_of, spec_c_string, spec_c_string_content, spec_has_nul, spec_text_of,
    string_to_c_string,
};
use vstd::prelude::*;
use vstd::slice::slice_subrange;
use vstd::utf8::{decode_utf8, encode_utf8, valid_utf8};

verus! {

/// The status by which the native library says that no default realm is configured.
pub const KRB5_CONFIG_NODEFREALM: i32 = -1765328160;

/// The most name components that the native call to build a principal takes.
pub const MAX_NAME_COMPONENTS: usize = 4;

/// The realm and the name components can all be marshalled: none holds the
/// NUL character, and the length of the realm fits the native length field.
pub open spec fn spec_marshals(realm: Seq<char>, args: Seq<String>) -> bool {
    &&& !spec_has_nul(realm)
    &&& encode_utf8(realm).len() <= u32::MAX
    &&& forall|i: int| 0 <= i < args.len() ==> !spec_has_nul(#[trigger] args[i]@)
}

/// The native call that builds a principal from a realm and name components.
pub open spec fn spec_build_principal_call(
    context: u64,
    realm: Seq<char>,
    args: Seq<String>,
) -> NativeCallView {
    NativeCallView::BuildPrincipal {
        context,
        realm_len: encode_utf8(realm).len() as u32,
        realm: spec_c_string(realm),
        components: Seq::new(args.len(), |i: int| spec_c_string(args[i]@)),
    }
}

/// Every entry of the list is valid UTF-8.
pub open spec fn spec_all_text(list: Seq<Vec<u8>>) -> bool {
    forall|i: int| 0 <= i < list.len() ==> valid_utf8(#[trigger] list[i]@)
}

/// Entry `k` of the list is the first that is not valid UTF-8.
pub open spec fn spec_first_not_text(list: Seq<Vec<u8>>, k: int) -> bool {
    &&& 0 <= k < list.len()
    &&& !valid_utf8(list[k]@)
    &&& forall|j: int| 0 <= j < k ==> valid_utf8(#[trigger] list[j]@)
}

/// The host cannot be marshalled.
pub open spec fn spec_host_has_nul(host: Option<&str>) -> bool {
    host matches Some(h) && spec_has_nul(h@)
}

/// The native call that asks for the realms of a host.
pub open spec fn spec_host_realm_call(context: u64, host: Option<&str>) -> NativeCallView {
    NativeCallView::GetHostRealm {
        context,
        host: match host {
            Some(h) => Some(spec_c_string(h@)),
            None => None,
        },
    }
}

/// The steps by which a context is made, `first` being the native call that makes it.
///
/// Where that call fails, the message is asked for through the handle it
/// left, that handle is freed unless it is null, and the failure is returned.
pub open spec fn spec_init_step(
    step: Krb5Step<Result<Krb5Context, Krb5Error>>,
    first: NativeCallView,
    replies: Seq<NativeReply>,
) -> bool {
    if replies.len() == 0 {
        step.calls(first)
    } else if replies[0].code == 0 {
        step matches Krb5Step::Done(Ok(context)) && context.handle() == replies[0].handle
    } else if replies.len() == 1 {
        step.calls(
            NativeCallView::GetErrorMessage { context: replies[0].handle, code: replies[0].code },
        )
    } else if replies.len() == 2 && replies[0].handle != 0 {
        step.calls(NativeCallView::FreeContext { context: replies[0].handle })
    } else {
        step.fails_with(
            Krb5ErrorView::LibraryError {
                message: spec_error_message(spec_bytes_of(replies[1].text)),
            },
        )
    }
}

/// Building a principal hands the native library the realm unchanged: the
/// call holds the realm as a C string with its exact length, and what a
/// reader of C strings takes from it is read back as the realm that was given.
pub proof fn lemma_build_principal_keeps_realm(context: u64, realm: Seq<char>, args: Seq<String>)
    requires
        args.len() <= MAX_NAME_COMPONENTS,
        spec_marshals(realm, args),
    ensures
        spec_build_principal_call(context, realm, args) matches NativeCallView::BuildPrincipal {
            realm_len,
            realm: buffer,
            ..
        } && realm_len == spec_c_string_content(buffer).len() && spec_text_of(
            Some(spec_c_string_content(buffer)),
        ) == Ok::<Seq<char>, Krb5ErrorView>(realm),
{
    lemma_c_string_content(realm);
    lemma_c_string_round_trip(realm);
}

/// A context of the native library, owned by this value.
///
/// Everything else borrows it, so nothing outlives it. It is given up once,
/// by [`Krb5Context::release`].
#[derive(Debug)]
pub struct Krb5Context {
    pub(crate) context: u64,
}

impl Krb5Context {
    /// The handle of the context.
    pub closed spec fn handle(&self) -> u64 {
        self.context
    }

    /// The handle, for the calls made through this context.
    pub(crate) fn raw_handle(&self) -> (handle: u64)
        ensures
            handle == self.handle(),
    {
        self.context
    }

    /// Makes a context by either native call.
    fn open_context(secure: bool, replies: &[NativeReply]) -> (step: Krb5Step<
        Result<Krb5Context, Krb5Error>,
    >)
        ensures
            spec_init_step(
                step,
                if secure {
                    NativeCallView::InitSecureContext
                } else {
                    NativeCallView::InitContext
                },
                replies@,
            ),
    {
        if replies.len() == 0 {
            return Krb5Step::Call(
                if secure {
                    NativeCall::InitSecureContext
                } else {
                    NativeCall::InitContext
                },
            );
        }
        let context = Krb5Context { context: replies[0].handle };
        match check_status(&context, replies[0].code, slice_subrange(replies, 1, replies.len())) {
            None => Krb5Step::Done(Ok(context)),
            Some(Krb5Step::Done(failure)) => {
                if replies.len() == 2 && context.context != 0 {
                    Krb5Step::Call(context.release())
                } else {
                    Krb5Step::Done(failure)
                }
            },
            Some(step) => step,
        }
    }

    /// Makes a context.
    ///
    /// The native call is made under the process-wide lock. Fails with the
    /// library's message where the call reports a nonzero status.
    pub fn init(replies: &[NativeReply]) -> (step: Krb5Step<Result<Krb5Context, Krb5Error>>)
        ensures
            spec_init_step(step, NativeCallView::InitContext, replies@),
    {
        Krb5Context::open_context(false, replies)
    }

    /// Makes a context that reads the system configuration only, and nothing
    /// that the environment supplies.
    pub fn init_secure(replies: &[NativeReply]) -> (step: Krb5Step<Result<Krb5Context, Krb5Error>>)
        ensures
            spec_init_step(step, NativeCallView::InitSecureContext, replies@),
    {
        Krb5Context::open_context(true, replies)
    }

    /// Builds a principal from a realm and up to four name components.
    ///
    /// More components fail with `MaxVarArgsExceeded`, and a realm or a
    /// component that cannot be marshalled with `StringConversion`; either
    /// way no native call is made.
    #[verifier::loop_isolation(false)]
    pub fn build_principal<'a>(
        &'a self,
        realm: &str,
        args: &[String],
        replies: &[NativeReply],
    ) -> (step: Krb5Step<Result<Krb5Principal<'a>, Krb5Error>>)
        ensures
            args@.len() > MAX_NAME_COMPONENTS ==> step.fails_with(Krb5ErrorView::MaxVarArgsExceeded),
            args@.len() <= MAX_NAME_COMPONENTS && !spec_marshals(realm@, args@) ==> step.fails_with(
                Krb5ErrorView::StringConversion { error: None },
            ),
            args@.len() <= MAX_NAME_COMPONENTS && spec_marshals(realm@, args@) ==> (if replies@.len()
                == 0 {
                step.calls(spec_build_principal_call(self.handle(), realm@, args@))
            } else if replies@[0].code == 0 {
                step matches Krb5Step::Done(Ok(principal)) && principal.handle()
                    == replies@[0].handle && principal.context_handle() == self.handle()
            } else {
                step.translates(self.handle(), replies@[0].code, replies@.skip(1))
            }),
    {
        if args.len() > MAX_NAME_COMPONENTS {
            return Krb5Step::Done(Err(Krb5Error::MaxVarArgsExceeded));
        }
        let crealm = match string_to_c_string(realm) {
            Ok(buffer) => buffer,
            Err(error) => {
                return Krb5Step::Done(Err(error));
            },
        };
        let realm_len = realm.as_bytes().len();
        if realm_len > u32::MAX as usize {
            return Krb5Step::Done(Err(Krb5Error::StringConversion { error: None }));
        }
        let realml = realm_len as u32;

        let mut varargs: Vec<Vec<u8>> = Vec::new();
        let mut i: usize = 0;
        while i < args.len()
            invariant
                i <= args@.len(),
                varargs@.len() == i,
                forall|j: int| 0 <= j < i ==> !spec_has_nul(#[trigger] args@[j]@),
                forall|j: int| 0 <= j < i ==> (#[trigger] varargs@[j])@ == spec_c_string(args@[j]@),
            decreases args@.len() - i,
        {
            match string_to_c_string(args[i].as_str()) {
                Ok(buffer) => {
                    varargs.push(buffer);
                },
                Err(error) => {
                    return Krb5Step::Done(Err(error));
                },
            }
            i += 1;
        }
        assert(varargs@.map_values(|c: Vec<u8>| c@) =~= Seq::new(
            args@.len(),
            |i: int| spec_c_string(args@[i]@),
        ));

        if replies.len() == 0 {
            return Krb5Step::Call(
                NativeCall::BuildPrincipal {
                    context: self.context,
                    realm_len: realml,
                    realm: crealm,
                    components: varargs,
                },
            );
        }
        let later = slice_subrange(replies, 1, replies.len());
        if let Some(failed) = check_status(self, replies[0].code, later) {
            return failed;
        }
        Krb5Step::Done(Ok(Krb5Principal::from_handle(self, replies[0].handle)))
    }

    /// The default realm, or `None` where none is configured.
    ///
    /// That no default realm is configured is no failure; any other nonzero
    /// status is.
    pub fn get_default_realm(&self, replies: &[NativeReply]) -> (step: Krb5Step<
        Result<Option<String>, Krb5Error>,
    >)
        ensures
            if replies@.len() == 0 {
                step.calls(NativeCallView::GetDefaultRealm { context: self.handle() })
            } else if replies@[0].code == KRB5_CONFIG_NODEFREALM {
                step matches Krb5Step::Done(Ok(None))
            } else if replies@[0].code != 0 {
                step.translates(self.handle(), replies@[0].code, replies@.skip(1))
            } else {
                match spec_text_of(spec_bytes_of(replies@[0].text)) {
                    Ok(realm) => step matches Krb5Step::Done(Ok(Some(text))) && text@ == realm,
                    Err(e) => step.fails_with(e),
                }
            },
    {
        if replies.len() == 0 {
            return Krb5Step::Call(NativeCall::GetDefaultRealm { context: self.context });
        }
        if replies[0].code == KRB5_CONFIG_NODEFREALM {
            return Krb5Step::Done(Ok(None));
        }
        let later = slice_subrange(replies, 1, replies.len());
        if let Some(failed) = check_status(self, replies[0].code, later) {
            return failed;
        }
        match c_string_to_string(&replies[0].text) {
            Ok(realm) => Krb5Step::Done(Ok(Some(realm))),
            Err(error) => Krb5Step::Done(Err(error)),
        }
    }

    /// The realms of a host, in the order of the native library; without a
    /// host, those of the local host.
    ///
    /// Each entry is read as text; the first that is not valid UTF-8 fails
    /// the whole with `StringConversion`.
    #[verifier::loop_isolation(false)]
    pub fn get_host_realms(&self, host: Option<&str>, replies: &[NativeReply]) -> (step: Krb5Step<
        Result<Vec<String>, Krb5Error>,
    >)
        ensures
            spec_host_has_nul(host) ==> step.fails_with(
                Krb5ErrorView::StringConversion { error: None },
            ),
            !spec_host_has_nul(host) ==> (if replies@.len() == 0 {
                step.calls(spec_host_realm_call(self.handle(), host))
            } else if replies@[0].code != 0 {
                step.translates(self.handle(), replies@[0].code, replies@.skip(1))
            } else if spec_all_text(replies@[0].list@) {
                &&& step matches Krb5Step::Done(Ok(realms))
                &&& realms@.len() == replies@[0].list@.len()
                &&& forall|i: int|
                    0 <= i < realms@.len() ==> (#[trigger] realms@[i])@ == decode_utf8(
                        replies@[0].list@[i]@,
                    )
            } else {
                exists|k: int|
                    spec_first_not_text(replies@[0].list@, k) && step.fails_with(
                        Krb5ErrorView::StringConversion { error: Some(replies@[0].list@[k]@) },
                    )
            }),
    {
        let c_host = match host {
            Some(host) => match string_to_c_string(host) {
                Ok(buffer) => Some(buffer),
                Err(error) => {
                    return Krb5Step::Done(Err(error));
                },
            },
            None => None,
        };
        if replies.len() == 0 {
            return Krb5Step::Call(NativeCall::GetHostRealm { context: self.context, host: c_host });
        }
        let later = slice_subrange(replies, 1, replies.len());
        if let Some(failed) = check_status(self, replies[0].code, later) {
            return failed;
        }
        let c_realms = &replies[0].list;
        let mut realms: Vec<String> = Vec::new();
        let mut index: usize = 0;
        while index < c_realms.len()
            invariant
                index <= c_realms@.len(),
                realms@.len() == index,
                forall|j: int| 0 <= j < index ==> valid_utf8(#[trigger] c_realms@[j]@),
                forall|j: int|
                    0 <= j < index ==> (#[trigger] realms@[j])@ == decode_utf8(c_realms@[j]@),
            decreases c_realms@.len() - index,
        {
            match bytes_to_string(&c_realms[index]) {
                Ok(realm) => {
                    realms.push(realm);
                },
                Err(error) => {
                    assert(spec_first_not_text(c_realms@, index as int));
                    return Krb5Step::Done(Err(error));
                },
            }
            index += 1;
        }
        Krb5Step::Done(Ok(realms))
    }

    /// The message of the native library for a status code.
    ///
    /// Never fails: where the text that the library returned cannot be read,
    /// the message is the text of that failure.
    pub fn error_code_to_message(&self, code: i32, replies: &[NativeReply]) -> (step: Krb5Step<
        String,
    >)
        ensures
            replies@.len() == 0 ==> step.calls(
                NativeCallView::GetErrorMessage { context: self.handle(), code },
            ),
            replies@.len() > 0 ==> (step matches Krb5Step::Done(message) && message@
                == spec_error_message(spec_bytes_of(replies@[0].text))),
    {
        if replies.len() == 0 {
            Krb5Step::Call(NativeCall::GetErrorMessage { context: self.context, code })
        } else {
            match c_string_to_string(&replies[0].text) {
                Ok(message) => Krb5Step::Done(message),
                Err(error) => Krb5Step::Done(error.to_string()),
            }
        }
    }

    /// Gives the context up: the one native call that frees it.
    pub fn release(self) -> (call: NativeCall)
        ensures
            call@ == (NativeCallView::FreeContext { context: self.handle() }),
            call.needs_init_lock(),
    {
        NativeCall::FreeContext { context: self.context }
    }
}

} // verus!
