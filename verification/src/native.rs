//! The boundary with the native library, as plain values.
//!
//! A handle is the address the native library gave out, kept as a `u64`; zero
//! is the null handle. A C string is a byte vector. The caller of this crate
//! performs each [`NativeCall`] and reports what came back in a
//! [`NativeReply`].

use vstd::prelude::*;

verus! {

/// What the native library handed back for one call.
///
/// A field that the call does not produce is left at its empty value:
/// `0`, `None`, or no entries.
#[derive(Clone, Debug, PartialEq, Eq)]
pub struct NativeReply {
    /// The status code; zero is success.
    pub code: i32,
    /// The handle written by the call; zero is the null handle.
    pub handle: u64,
    /// The C string returned, without its terminator; `None` is the null pointer.
    pub text: Option<Vec<u8>>,
    /// The entries of a null-terminated array of C strings, each without its terminator.
    pub list: Vec<Vec<u8>>,
}

/// One step of an operation.
#[derive(Debug)]
pub enum Krb5Step<T> {
    /// Perform this native call, append its reply to the replies, and ask again.
    Call(NativeCall),
    /// The operation is over, with this result.
    Done(T),
}

/// A native call, with its arguments marshalled.
///
/// Every C string among the arguments ends with its terminator.
#[derive(Clone, Debug, PartialEq, Eq)]
pub enum NativeCall {
    /// `krb5_init_context`; the reply holds the status and the new context.
    InitContext,
    /// `krb5_init_secure_context`; the reply holds the status and the new context.
    InitSecureContext,
    /// `krb5_free_context`.
    FreeContext { context: u64 },
    /// `krb5_get_error_message`, then `krb5_free_error_message` once the text
    /// is copied; the reply holds the text.
    GetErrorMessage { context: u64, code: i32 },
    /// `krb5_build_principal` with the realm and up to four components; the
    /// reply holds the status and the new principal.
    BuildPrincipal { context: u64, realm_len: u32, realm: Vec<u8>, components: Vec<Vec<u8>> },
    /// `krb5_get_default_realm`, then `krb5_free_default_realm` once the text
    /// is copied; the reply holds the status and the text.
    GetDefaultRealm { context: u64 },
    /// `krb5_get_host_realm` for a host, or for the local host where there is
    /// none, then `krb5_free_host_realm` once the entries are copied; the
    /// reply holds the status and the entries.
    GetHostRealm { context: u64, host: Option<Vec<u8>> },
    /// `krb5_free_principal`.
    FreePrincipal { context: u64, principal: u64 },
    /// Reads the realm of a principal; the reply holds the text.
    PrincipalRealm { context: u64, principal: u64 },
    /// `krb5_cc_default`; the reply holds the status and the cache.
    CcDefault { context: u64 },
    /// `krb5_cc_default_name`; the reply holds the text.
    CcDefaultName { context: u64 },
    /// `krb5_cc_resolve`; the reply holds the status and the cache.
    CcResolve { context: u64, name: Vec<u8> },
    /// `krb5_cc_new_unique` with no hint; the reply holds the status and the cache.
    CcNewUnique { context: u64, cctype: Vec<u8> },
    /// `krb5_cc_initialize`; the reply holds the status.
    CcInitialize { context: u64, ccache: u64, principal: u64 },
    /// `krb5_cc_destroy`; the reply holds the status.
    CcDestroy { context: u64, ccache: u64 },
    /// `krb5_cc_get_name`; the reply holds the text.
    CcGetName { context: u64, ccache: u64 },
    /// `krb5_cc_get_type`; the reply holds the text.
    CcGetType { context: u64, ccache: u64 },
    /// `krb5_cc_get_principal`; the reply holds the status and the principal.
    CcGetPrincipal { context: u64, ccache: u64 },
    /// `krb5_cc_close`.
    CcClose { context: u64, ccache: u64 },
    /// `krb5_cccol_cursor_new`; the reply holds the status and the cursor.
    CursorNew { context: u64 },
    /// `krb5_cccol_cursor_next`; the reply holds the status and the next cache.
    CursorNext { context: u64, cursor: u64 },
    /// `krb5_cccol_cursor_free`.
    CursorFree { context: u64, cursor: u64 },
}

/// A native call with its byte strings as sequences.
pub enum NativeCallView {
    InitContext,
    InitSecureContext,
    FreeContext { context: u64 },
    GetErrorMessage { context: u64, code: i32 },
    BuildPrincipal { context: u64, realm_len: u32, realm: Seq<u8>, components: Seq<Seq<u8>> },
    GetDefaultRealm { context: u64 },
    GetHostRealm { context: u64, host: Option<Seq<u8>> },
    FreePrincipal { context: u64, principal: u64 },
    PrincipalRealm { context: u64, principal: u64 },
    CcDefault { context: u64 },
    CcDefaultName { context: u64 },
    CcResolve { context: u64, name: Seq<u8> },
    CcNewUnique { context: u64, cctype: Seq<u8> },
    CcInitialize { context: u64, ccache: u64, principal: u64 },
    CcDestroy { context: u64, ccache: u64 },
    CcGetName { context: u64, ccache: u64 },
    CcGetType { context: u64, ccache: u64 },
    CcGetPrincipal { context: u64, ccache: u64 },
    CcClose { context: u64, ccache: u64 },
    CursorNew { context: u64 },
    CursorNext { context: u64, cursor: u64 },
    CursorFree { context: u64, cursor: u64 },
}

impl View for NativeCall {
    type V = NativeCallView;

    open spec fn view(&self) -> NativeCallView {
        match *self {
            NativeCall::InitContext => NativeCallView::InitContext,
            NativeCall::InitSecureContext => NativeCallView::InitSecureContext,
            NativeCall::FreeContext { context } => NativeCallView::FreeContext { context },
            NativeCall::GetErrorMessage { context, code } => NativeCallView::GetErrorMessage {
                context,
                code,
            },
            NativeCall::BuildPrincipal {
                context,
                realm_len,
                realm,
                components,
            } => NativeCallView::BuildPrincipal {
                context,
                realm_len,
                realm: realm@,
                components: components@.map_values(|c: Vec<u8>| c@),
            },
            NativeCall::GetDefaultRealm { context } => NativeCallView::GetDefaultRealm { context },
            NativeCall::GetHostRealm { context, host } => NativeCallView::GetHostRealm {
                context,
                host: match host {
                    Some(h) => Some(h@),
                    None => None,
                },
            },
            NativeCall::FreePrincipal { context, principal } => NativeCallView::FreePrincipal {
                context,
                principal,
            },
            NativeCall::PrincipalRealm { context, principal } => NativeCallView::PrincipalRealm {
                context,
                principal,
            },
            NativeCall::CcDefault { context } => NativeCallView::CcDefault { context },
            NativeCall::CcDefaultName { context } => NativeCallView::CcDefaultName { context },
            NativeCall::CcResolve { context, name } => NativeCallView::CcResolve {
                context,
                name: name@,
            },
            NativeCall::CcNewUnique { context, cctype } => NativeCallView::CcNewUnique {
                context,
                cctype: cctype@,
            },
            NativeCall::CcInitialize { context, ccache, principal } => NativeCallView::CcInitialize {
                context,
                ccache,
                principal,
            },
            NativeCall::CcDestroy { context, ccache } => NativeCallView::CcDestroy {
                context,
                ccache,
            },
            NativeCall::CcGetName { context, ccache } => NativeCallView::CcGetName {
                context,
                ccache,
            },
            NativeCall::CcGetType { context, ccache } => NativeCallView::CcGetType {
                context,
                ccache,
            },
            NativeCall::CcGetPrincipal { context, ccache } => NativeCallView::CcGetPrincipal {
                context,
                ccache,
            },
            NativeCall::CcClose { context, ccache } => NativeCallView::CcClose { context, ccache },
            NativeCall::CursorNew { context } => NativeCallView::CursorNew { context },
            NativeCall::CursorNext { context, cursor } => NativeCallView::CursorNext {
                context,
                cursor,
            },
            NativeCall::CursorFree { context, cursor } => NativeCallView::CursorFree {
                context,
                cursor,
            },
        }
    }
}

impl NativeCall {
    /// The native library is thread safe but for creating and freeing a
    /// context: exactly those calls are made under the process-wide lock.
    pub open spec fn spec_needs_init_lock(&self) -> bool {
        self is InitContext || self is InitSecureContext || self is FreeContext
    }

    /// Whether the call must be made while holding the process-wide lock.
    #[verifier::when_used_as_spec(spec_needs_init_lock)]
    pub fn needs_init_lock(&self) -> (locked: bool)
        ensures
            locked == self.spec_needs_init_lock(),
    {
        match self {
            NativeCall::InitContext => true,
            NativeCall::InitSecureContext => true,
            NativeCall::FreeContext { .. } => true,
            _ => false,
        }
    }
}

impl<T> Krb5Step<T> {
    /// The step asks for exactly this native call.
    pub open spec fn calls(self, call: NativeCallView) -> bool {
        self matches Krb5Step::Call(c) && c@ == call
    }
}

} // verus!
