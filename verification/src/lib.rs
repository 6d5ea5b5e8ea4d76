//! A verified decision core for a Kerberos client binding.
//!
//! The native Kerberos library is reached through opaque handles and C calls.
//! This crate holds everything that is decided around those calls: how
//! arguments are marshalled, which native call is made next, how a status code
//! becomes an error, and when a handle is given up. It makes no native call
//! itself. Each operation is a function from the replies received so far to
//! the next step: either one more native call to perform, or the result.

pub mod ccache;
pub mod cccol;
pub mod context;
pub mod error;
pub mod native;
pub mod principal;
pub mod strconv;
