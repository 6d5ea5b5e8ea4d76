//! The failures of this crate, and their text.

use crate::context::Krb5Context;
use crate::native::{Krb5Step, NativeCall, NativeCallView, NativeReply};
use crate::strconv::{spec_bytes_of, spec_text_of};
use vstd::prelude::*;
use vstd::string::StringExecFns;
use vstd::utf8::{decode_utf8, valid_utf8};

verus! {

/// A C string that was not valid UTF-8, kept as the bytes it held.
#[derive(Clone, Debug, PartialEq, Eq)]
pub struct IntoStringError {
    /// The bytes of the C string, without its terminator.
    pub bytes: Vec<u8>,
}

/// Why an operation failed.
#[derive(Clone, Debug, PartialEq, Eq)]
pub enum Krb5Error {
    /// The native library reported a nonzero status; `message` is its own text for it.
    LibraryError { message: String },
    /// The native library returned a null pointer where a C string was due.
    NullPointerDereference,
    /// A string could not be carried across the boundary: a C string was not
    /// valid UTF-8 (`error` then holds its bytes), or a string of the caller
    /// does not fit a C string.
    StringConversion { error: Option<IntoStringError> },
    /// More name components were given than the native call can take.
    MaxVarArgsExceeded,
}

/// A failure with its strings as sequences.
pub enum Krb5ErrorView {
    LibraryError { message: Seq<char> },
    NullPointerDereference,
    StringConversion { error: Option<Seq<u8>> },
    MaxVarArgsExceeded,
}

impl View for Krb5Error {
    type V = Krb5ErrorView;

    open spec fn view(&self) -> Krb5ErrorView {
        match *self {
            Krb5Error::LibraryError { message } => Krb5ErrorView::LibraryError { message: message@ },
            Krb5Error::NullPointerDereference => Krb5ErrorView::NullPointerDereference,
            Krb5Error::StringConversion { error } => Krb5ErrorView::StringConversion {
                error: match error {
                    Some(e) => Some(e.bytes@),
                    None => None,
                },
            },
            Krb5Error::MaxVarArgsExceeded => Krb5ErrorView::MaxVarArgsExceeded,
        }
    }
}

/// The text of a failure.
pub open spec fn spec_error_text(error: Krb5ErrorView) -> Seq<char> {
    match error {
        Krb5ErrorView::LibraryError { message } => "Library error: "@ + message,
        Krb5ErrorView::NullPointerDereference => "NULL Pointer dereference error"@,
        Krb5ErrorView::StringConversion { error: Some(_) } => "String conversion / UTF8 error: "@
            + "C string contained non-utf8 bytes"@,
        Krb5ErrorView::StringConversion { error: None } => "String conversion / UTF8 error"@,
        Krb5ErrorView::MaxVarArgsExceeded =>
            "Maximum number of supported arguments for a variadic function exceeded."@,
    }
}

impl Krb5Error {
    /// The text of this failure, for display.
    pub fn to_string(&self) -> (text: String)
        ensures
            text@ == spec_error_text(self@),
    {
        match self {
            Krb5Error::LibraryError { message } => String::from_str("Library error: ").concat(
                message.as_str(),
            ),
            Krb5Error::NullPointerDereference => String::from_str("NULL Pointer dereference error"),
            Krb5Error::StringConversion { error: Some(_) } => String::from_str(
                "String conversion / UTF8 error: ",
            ).concat("C string contained non-utf8 bytes"),
            Krb5Error::StringConversion { error: None } => String::from_str(
                "String conversion / UTF8 error",
            ),
            Krb5Error::MaxVarArgsExceeded => String::from_str(
                "Maximum number of supported arguments for a variadic function exceeded.",
            ),
        }
    }
}

/// The message for a status code, from what the native library returned for
/// it: its text, or, where that cannot be read, the text of the failure to
/// read it.
pub open spec fn spec_error_message(text: Option<Seq<u8>>) -> Seq<char> {
    match spec_text_of(text) {
        Ok(message) => message,
        Err(e) => spec_error_text(e),
    }
}

impl<T> Krb5Step<Result<T, Krb5Error>> {
    /// The operation is over and failed with this error.
    pub open spec fn fails_with(self, error: Krb5ErrorView) -> bool {
        self matches Krb5Step::Done(Err(e)) && e@ == error
    }

    /// The step that translates a nonzero status: ask the native library for
    /// its message, then fail with it. `later` holds the replies that came
    /// after the one with the status.
    pub open spec fn translates(self, context: u64, code: i32, later: Seq<NativeReply>) -> bool {
        if later.len() == 0 {
            self.calls(NativeCallView::GetErrorMessage { context, code })
        } else {
            self.fails_with(
                Krb5ErrorView::LibraryError {
                    message: spec_error_message(spec_bytes_of(later[0].text)),
                },
            )
        }
    }
}

/// Turns a status code of the native library into success or a failure.
///
/// Zero is success, and nothing is asked of the native library. Any other
/// code fails with the library's own message for it, which is asked for
/// first. `replies` holds the replies that came after the one with the status.
pub fn krb5_error_code_escape_hatch(context: &Krb5Context, code: i32, replies: &[NativeReply]) -> (step:
    Krb5Step<Result<(), Krb5Error>>)
    ensures
        code == 0 ==> step matches Krb5Step::Done(Ok(_)),
        code != 0 ==> step.translates(context.handle(), code, replies@),
{
    if code == 0 {
        Krb5Step::Done(Ok(()))
    } else {
        match context.error_code_to_message(code, replies) {
            Krb5Step::Call(call) => Krb5Step::Call(call),
            Krb5Step::Done(message) => Krb5Step::Done(Err(Krb5Error::LibraryError { message })),
        }
    }
}

/// The status check inside an operation: `None` where the status is zero and
/// the operation goes on, else the step that translates it.
pub(crate) fn check_status<T>(context: &Krb5Context, code: i32, later: &[NativeReply]) -> (step:
    Option<Krb5Step<Result<T, Krb5Error>>>)
    ensures
        code == 0 ==> step is None,
        code != 0 ==> (step matches Some(s) && s.translates(context.handle(), code, later@)),
{
    match krb5_error_code_escape_hatch(context, code, later) {
        Krb5Step::Call(call) => Some(Krb5Step::Call(call)),
        Krb5Step::Done(Err(e)) => Some(Krb5Step::Done(Err(e))),
        Krb5Step::Done(Ok(_)) => None,
    }
}

/// The message for a status code is the text of the native library wherever
/// that text can be read, and it is empty only where that text is.
pub proof fn lemma_error_message_is_native_text(text: Option<Seq<u8>>)
    ensures
        text matches Some(bytes) ==> (valid_utf8(bytes) ==> spec_error_message(text)
            == decode_utf8(bytes)),
        spec_error_message(text).len() == 0 <==> text == Some(Seq::<u8>::empty()),
{
    match text {
        Some(bytes) => {
            if valid_utf8(bytes) {
                if bytes.len() == 0 {
                    assert(bytes =~= Seq::<u8>::empty());
                }
            } else {
                assert(bytes.len() != 0);
                lemma_error_text_nonempty(Krb5ErrorView::StringConversion { error: Some(bytes) });
            }
        },
        None => {
            lemma_error_text_nonempty(Krb5ErrorView::NullPointerDereference);
        },
    }
}

/// The text of a failure is never empty.
pub proof fn lemma_error_text_nonempty(error: Krb5ErrorView)
    ensures
        spec_error_text(error).len() > 0,
{
    reveal_strlit("Library error: ");
    reveal_strlit("NULL Pointer dereference error");
    reveal_strlit("String conversion / UTF8 error: ");
    reveal_strlit("String conversion / UTF8 error");
    reveal_strlit("Maximum number of supported arguments for a variadic function exceeded.");
}

} // verus!
