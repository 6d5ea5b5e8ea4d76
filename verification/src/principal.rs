//! Principals: Kerberos identities, and the read-only view of their fields.

use crate::context::Krb5Context;
use crate::error::Krb5Error;
use crate::native::{Krb5Step, NativeCall, NativeCallView, NativeReply};
use crate::strconv::{c_string_to_string, spec_bytes_of, spec_text_of};
use vstd::prelude::*;

verus! {

/// A principal of the native library, owned by this value.
///
/// It borrows the context it was made in, and is given up once, by
/// [`Krb5Principal::release`].
#[derive(Debug)]
pub struct Krb5Principal<'a> {
    pub(crate) context: &'a Krb5Context,
    pub(crate) principal: u64,
}

/// The fields of a principal, as they were read.
#[derive(Debug)]
pub struct Krb5PrincipalData<'a> {
    pub(crate) context: &'a Krb5Context,
    pub(crate) realm: Option<Vec<u8>>,
}

impl<'a> Krb5Principal<'a> {
    /// The handle of the principal.
    pub closed spec fn handle(&self) -> u64 {
        self.principal
    }

    /// The handle of the context that the principal borrows.
    pub closed spec fn context_handle(&self) -> u64 {
        self.context.handle()
    }

    /// Takes ownership of a principal that the native library handed out.
    pub(crate) fn from_handle(context: &'a Krb5Context, principal: u64) -> (made: Self)
        ensures
            made.handle() == principal,
            made.context_handle() == context.handle(),
    {
        Krb5Principal { context, principal }
    }

    /// The handle, for the calls that take this principal.
    pub(crate) fn raw_handle(&self) -> (handle: u64)
        ensures
            handle == self.handle(),
    {
        self.principal
    }

    /// Reads the fields of the principal.
    ///
    /// The realm is asked of the native library first.
    pub fn data(&self, replies: &[NativeReply]) -> (step: Krb5Step<Krb5PrincipalData<'_>>)
        ensures
            replies@.len() == 0 ==> step.calls(
                NativeCallView::PrincipalRealm {
                    context: self.context_handle(),
                    principal: self.handle(),
                },
            ),
            replies@.len() > 0 ==> (step matches Krb5Step::Done(data) && data.context_handle()
                == self.context_handle() && data.realm_bytes() == spec_bytes_of(
                replies@[0].text,
            )),
    {
        if replies.len() == 0 {
            Krb5Step::Call(
                NativeCall::PrincipalRealm {
                    context: self.context.raw_handle(),
                    principal: self.principal,
                },
            )
        } else {
            let realm = match &replies[0].text {
                Some(bytes) => Some(vstd::slice::slice_to_vec(bytes.as_slice())),
                None => None,
            };
            Krb5Step::Done(Krb5PrincipalData { context: self.context, realm })
        }
    }

    /// Gives the principal up: the one native call that frees it.
    pub fn release(self) -> (call: NativeCall)
        ensures
            call@ == (NativeCallView::FreePrincipal {
                context: self.context_handle(),
                principal: self.handle(),
            }),
    {
        NativeCall::FreePrincipal { context: self.context.raw_handle(), principal: self.principal }
    }
}

impl<'a> Krb5PrincipalData<'a> {
    /// The handle of the context that the view borrows.
    pub closed spec fn context_handle(&self) -> u64 {
        self.context.handle()
    }

    /// The bytes of the realm field; `None` where the field was null.
    pub closed spec fn realm_bytes(&self) -> Option<Seq<u8>> {
        spec_bytes_of(self.realm)
    }

    /// The realm of the principal, as text.
    pub fn realm(&self) -> (text: Result<String, Krb5Error>)
        ensures
            match spec_text_of(self.realm_bytes()) {
                Ok(s) => text matches Ok(t) && t@ == s,
                Err(e) => text matches Err(f) && f@ == e,
            },
    {
        c_string_to_string(&self.realm)
    }
}

} // verus!
