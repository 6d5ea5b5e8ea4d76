use libkrb5::ccache::Krb5CCache;
use libkrb5::cccol::Krb5CCCol;
use libkrb5::context::Krb5Context;
use libkrb5::error::{IntoStringError, Krb5Error};
use libkrb5::native::{Krb5Step, NativeCall, NativeReply};

const KRB5_FCC_NOFILE: i32 = -1765328189;

fn empty() -> NativeReply {
    NativeReply { code: 0, handle: 0, text: None, list: Vec::new() }
}

fn status(code: i32) -> NativeReply {
    NativeReply { code, ..empty() }
}

fn handle(handle: u64) -> NativeReply {
    NativeReply { handle, ..empty() }
}

fn text(bytes: &[u8]) -> NativeReply {
    NativeReply { text: Some(bytes.to_vec()), ..empty() }
}

fn context(at: u64) -> Krb5Context {
    match Krb5Context::init(&[handle(at)]) {
        Krb5Step::Done(Ok(context)) => context,
        other => panic!("no context: {:?}", other),
    }
}

fn cache(context: &Krb5Context, at: u64) -> Krb5CCache<'_> {
    match Krb5CCache::default(context, &[handle(at)]) {
        Krb5Step::Done(Ok(cache)) => cache,
        other => panic!("no cache: {:?}", other),
    }
}

fn cursor(context: &Krb5Context, at: u64) -> Krb5CCCol<'_> {
    match Krb5CCCol::new(context, &[handle(at)]) {
        Krb5Step::Done(Ok(cursor)) => cursor,
        other => panic!("no cursor: {:?}", other),
    }
}

fn call<T: std::fmt::Debug>(step: Krb5Step<T>) -> NativeCall {
    match step {
        Krb5Step::Call(call) => call,
        other => panic!("no call: {:?}", other),
    }
}

fn done<T: std::fmt::Debug>(step: Krb5Step<T>) -> T {
    match step {
        Krb5Step::Done(result) => result,
        other => panic!("not done: {:?}", other),
    }
}

#[test]
fn default_cache_is_opened_through_the_context() {
    let context = context(0x100);
    assert_eq!(call(Krb5CCache::default(&context, &[])), NativeCall::CcDefault { context: 0x100 });
    let cache = done(Krb5CCache::default(&context, &[handle(0x200)])).unwrap();
    assert_eq!(cache.release(), NativeCall::CcClose { context: 0x100, ccache: 0x200 });
}

#[test]
fn default_cache_failure_is_translated() {
    let context = context(0x100);
    assert_eq!(
        call(Krb5CCache::default(&context, &[status(KRB5_FCC_NOFILE)])),
        NativeCall::GetErrorMessage { context: 0x100, code: KRB5_FCC_NOFILE }
    );
    assert_eq!(
        done(Krb5CCache::default(
            &context,
            &[status(KRB5_FCC_NOFILE), text(b"No credentials cache found")]
        ))
        .unwrap_err(),
        Krb5Error::LibraryError { message: String::from("No credentials cache found") }
    );
}

#[test]
fn default_name_reads_text_and_opens_nothing() {
    let context = context(0x100);
    assert_eq!(
        call(Krb5CCache::default_name(&context, &[])),
        NativeCall::CcDefaultName { context: 0x100 }
    );
    assert_eq!(
        done(Krb5CCache::default_name(&context, &[text(b"FILE:/tmp/krb5cc_1000")])),
        Ok(String::from("FILE:/tmp/krb5cc_1000"))
    );
    assert_eq!(
        done(Krb5CCache::default_name(&context, &[empty()])),
        Err(Krb5Error::NullPointerDereference)
    );
}

#[test]
fn resolve_marshals_the_name() {
    let context = context(0x100);
    assert_eq!(
        call(Krb5CCache::resolve(&context, "MEMORY:test", &[])),
        NativeCall::CcResolve { context: 0x100, name: b"MEMORY:test\0".to_vec() }
    );
    let cache = done(Krb5CCache::resolve(&context, "MEMORY:test", &[handle(0x201)])).unwrap();
    assert_eq!(cache.release(), NativeCall::CcClose { context: 0x100, ccache: 0x201 });
}

#[test]
fn resolve_refuses_name_with_nul_without_a_call() {
    let context = context(0x100);
    assert_eq!(
        done(Krb5CCache::resolve(&context, "MEMORY:\0test", &[])).unwrap_err(),
        Krb5Error::StringConversion { error: None }
    );
    assert_eq!(
        done(Krb5CCache::resolve(&context, "MEMORY:\0test", &[handle(1)])).unwrap_err(),
        Krb5Error::StringConversion { error: None }
    );
}

#[test]
fn resolve_failure_is_translated() {
    let context = context(0x100);
    assert_eq!(
        done(Krb5CCache::resolve(
            &context,
            "BOGUS:x",
            &[status(-1765328244), text(b"Unknown credential cache type")]
        ))
        .unwrap_err(),
        Krb5Error::LibraryError { message: String::from("Unknown credential cache type") }
    );
}

#[test]
fn new_unique_marshals_the_type() {
    let context = context(0x100);
    assert_eq!(
        call(Krb5CCache::new_unique(&context, "MEMORY", &[])),
        NativeCall::CcNewUnique { context: 0x100, cctype: b"MEMORY\0".to_vec() }
    );
    let cache = done(Krb5CCache::new_unique(&context, "MEMORY", &[handle(0x202)])).unwrap();
    assert_eq!(
        call(cache.get_name(&[])),
        NativeCall::CcGetName { context: 0x100, ccache: 0x202 }
    );
    assert_eq!(done(cache.get_name(&[text(b"aB3xZ9")])), Ok(String::from("aB3xZ9")));
}

#[test]
fn new_unique_refuses_type_with_nul_without_a_call() {
    let context = context(0x100);
    assert_eq!(
        done(Krb5CCache::new_unique(&context, "MEM\0ORY", &[])).unwrap_err(),
        Krb5Error::StringConversion { error: None }
    );
}

#[test]
fn new_unique_failure_is_translated() {
    let context = context(0x100);
    assert_eq!(
        call(Krb5CCache::new_unique(&context, "NOPE", &[status(-1765328244)])),
        NativeCall::GetErrorMessage { context: 0x100, code: -1765328244 }
    );
}

#[test]
fn name_and_type_are_read_as_text() {
    let context = context(0x100);
    let cache = cache(&context, 0x200);
    assert_eq!(
        call(cache.get_type(&[])),
        NativeCall::CcGetType { context: 0x100, ccache: 0x200 }
    );
    assert_eq!(done(cache.get_type(&[text(b"FILE")])), Ok(String::from("FILE")));
    assert_eq!(
        done(cache.get_name(&[text(b"/tmp/krb5cc_1000")])),
        Ok(String::from("/tmp/krb5cc_1000"))
    );
    assert_eq!(done(cache.get_type(&[empty()])), Err(Krb5Error::NullPointerDereference));
    assert_eq!(
        done(cache.get_name(&[text(&[0xFF])])),
        Err(Krb5Error::StringConversion { error: Some(IntoStringError { bytes: vec![0xFF] }) })
    );
}

#[test]
fn principal_of_cache_may_be_absent() {
    let context = context(0x100);
    let cache = cache(&context, 0x200);
    assert_eq!(
        call(cache.get_principal(&[])),
        NativeCall::CcGetPrincipal { context: 0x100, ccache: 0x200 }
    );
    assert!(done(cache.get_principal(&[empty()])).unwrap().is_none());
}

#[test]
fn principal_of_cache_is_owned_by_the_caller() {
    let context = context(0x100);
    let cache = cache(&context, 0x200);
    let principal = done(cache.get_principal(&[handle(0x300)])).unwrap().unwrap();
    assert_eq!(
        principal.release(),
        NativeCall::FreePrincipal { context: 0x100, principal: 0x300 }
    );
}

#[test]
fn principal_of_cache_failure_is_translated() {
    let context = context(0x100);
    let cache = cache(&context, 0x200);
    assert_eq!(
        call(cache.get_principal(&[status(KRB5_FCC_NOFILE)])),
        NativeCall::GetErrorMessage { context: 0x100, code: KRB5_FCC_NOFILE }
    );
    assert_eq!(
        done(cache.get_principal(&[status(KRB5_FCC_NOFILE), text(b"No credentials cache found")]))
            .unwrap_err(),
        Krb5Error::LibraryError { message: String::from("No credentials cache found") }
    );
}

#[test]
fn initialize_names_cache_and_principal() {
    let context = context(0x100);
    let mut cache = cache(&context, 0x200);
    let principal = done(context.build_principal("EXAMPLE.COM", &[], &[handle(0x300)])).unwrap();
    assert_eq!(
        call(cache.initialize(&principal, &[])),
        NativeCall::CcInitialize { context: 0x100, ccache: 0x200, principal: 0x300 }
    );
    assert_eq!(done(cache.initialize(&principal, &[empty()])), Ok(()));
    assert_eq!(cache.release(), NativeCall::CcClose { context: 0x100, ccache: 0x200 });
}

#[test]
fn initialize_failure_is_translated() {
    let context = context(0x100);
    let mut cache = cache(&context, 0x200);
    let principal = done(context.build_principal("EXAMPLE.COM", &[], &[handle(0x300)])).unwrap();
    assert_eq!(
        call(cache.initialize(&principal, &[status(13)])),
        NativeCall::GetErrorMessage { context: 0x100, code: 13 }
    );
    assert_eq!(
        done(cache.initialize(&principal, &[status(13), text(b"Permission denied")])),
        Err(Krb5Error::LibraryError { message: String::from("Permission denied") })
    );
}

#[test]
fn destroy_consumes_the_cache_and_never_closes_it() {
    let context = context(0x100);
    let pending = cache(&context, 0x200).destroy();
    assert_eq!(
        call(pending.step(&[])),
        NativeCall::CcDestroy { context: 0x100, ccache: 0x200 }
    );
    assert_eq!(done(pending.step(&[empty()])), Ok(()));
}

#[test]
fn destroy_failure_is_translated() {
    let context = context(0x100);
    let pending = cache(&context, 0x200).destroy();
    assert_eq!(
        call(pending.step(&[status(KRB5_FCC_NOFILE)])),
        NativeCall::GetErrorMessage { context: 0x100, code: KRB5_FCC_NOFILE }
    );
    assert_eq!(
        done(pending.step(&[status(KRB5_FCC_NOFILE), text(b"No credentials cache found")])),
        Err(Krb5Error::LibraryError { message: String::from("No credentials cache found") })
    );
}

#[test]
fn cursor_is_made_through_the_context() {
    let context = context(0x100);
    assert_eq!(call(Krb5CCCol::new(&context, &[])), NativeCall::CursorNew { context: 0x100 });
    let cursor = done(Krb5CCCol::new(&context, &[handle(0x400)])).unwrap();
    assert_eq!(cursor.release(), NativeCall::CursorFree { context: 0x100, cursor: 0x400 });
}

#[test]
fn cursor_failure_is_translated() {
    let context = context(0x100);
    assert_eq!(
        call(Krb5CCCol::new(&context, &[status(12)])),
        NativeCall::GetErrorMessage { context: 0x100, code: 12 }
    );
    assert_eq!(
        done(Krb5CCCol::new(&context, &[status(12), text(b"Cannot allocate memory")]))
            .unwrap_err(),
        Krb5Error::LibraryError { message: String::from("Cannot allocate memory") }
    );
}

#[test]
fn walk_over_empty_collection_ends_at_once() {
    let context = context(0x100);
    let mut cursor = cursor(&context, 0x400);
    assert_eq!(
        call(cursor.next(&[])),
        NativeCall::CursorNext { context: 0x100, cursor: 0x400 }
    );
    assert!(done(cursor.next(&[empty()])).is_none());
    assert!(done(cursor.next(&[])).is_none());
}

#[test]
fn walk_yields_each_cache_then_ends() {
    let context = context(0x100);
    let mut cursor = cursor(&context, 0x400);
    let handles = [0x501u64, 0x502, 0x503];
    let mut seen = Vec::new();
    let mut native = handles.iter().map(|h| handle(*h)).chain(std::iter::once(empty()));
    let mut asked = 0;
    loop {
        let mut replies = Vec::new();
        let item = loop {
            match cursor.next(&replies) {
                Krb5Step::Call(call) => {
                    assert_eq!(call, NativeCall::CursorNext { context: 0x100, cursor: 0x400 });
                    asked += 1;
                    replies.push(native.next().unwrap());
                }
                Krb5Step::Done(item) => break item,
            }
        };
        match item {
            Some(cache) => seen.push(cache.unwrap().release()),
            None => break,
        }
    }
    assert_eq!(asked, 4);
    assert_eq!(
        seen,
        vec![
            NativeCall::CcClose { context: 0x100, ccache: 0x501 },
            NativeCall::CcClose { context: 0x100, ccache: 0x502 },
            NativeCall::CcClose { context: 0x100, ccache: 0x503 },
        ]
    );
    assert!(done(cursor.next(&[])).is_none());
    assert!(done(cursor.next(&[handle(0x504)])).is_none());
    assert_eq!(cursor.release(), NativeCall::CursorFree { context: 0x100, cursor: 0x400 });
}

#[test]
fn walk_failure_is_yielded_once_and_ends_the_walk() {
    let context = context(0x100);
    let mut cursor = cursor(&context, 0x400);
    assert!(done(cursor.next(&[handle(0x501)])).unwrap().is_ok());
    assert_eq!(
        call(cursor.next(&[status(5)])),
        NativeCall::GetErrorMessage { context: 0x100, code: 5 }
    );
    assert_eq!(
        done(cursor.next(&[status(5), text(b"Input/output error")])).unwrap().unwrap_err(),
        Krb5Error::LibraryError { message: String::from("Input/output error") }
    );
    assert!(done(cursor.next(&[])).is_none());
    assert!(done(cursor.next(&[handle(0x502)])).is_none());
}

#[test]
fn cursor_abandoned_early_is_still_freed_once() {
    let context = context(0x100);
    let mut cursor = cursor(&context, 0x400);
    assert!(done(cursor.next(&[handle(0x501)])).unwrap().is_ok());
    assert_eq!(cursor.release(), NativeCall::CursorFree { context: 0x100, cursor: 0x400 });
}

#[test]
fn default_cache_principal_realm_scenario() {
    let context = context(0x100);
    let mut calls = Vec::new();
    let mut native = |call: &NativeCall| -> NativeReply {
        calls.push(call.clone());
        match call {
            NativeCall::CcDefault { .. } => handle(0x200),
            NativeCall::CcGetPrincipal { .. } => handle(0x300),
            NativeCall::PrincipalRealm { .. } => text(b"EXAMPLE.COM"),
            other => panic!("unexpected call: {:?}", other),
        }
    };

    let mut replies = Vec::new();
    let cache = loop {
        match Krb5CCache::default(&context, &replies) {
            Krb5Step::Call(call) => replies.push(native(&call)),
            Krb5Step::Done(cache) => break cache.unwrap(),
        }
    };
    let mut replies = Vec::new();
    let principal = loop {
        match cache.get_principal(&replies) {
            Krb5Step::Call(call) => replies.push(native(&call)),
            Krb5Step::Done(principal) => break principal.unwrap(),
        }
    };
    if let Some(principal) = principal {
        let mut replies = Vec::new();
        let data = loop {
            match principal.data(&replies) {
                Krb5Step::Call(call) => replies.push(native(&call)),
                Krb5Step::Done(data) => break data,
            }
        };
        let realm = data.realm().unwrap();
        assert!(!realm.is_empty());
        assert_eq!(realm, "EXAMPLE.COM");
    } else {
        panic!("the scripted cache has a principal");
    }
    assert_eq!(
        calls,
        vec![
            NativeCall::CcDefault { context: 0x100 },
            NativeCall::CcGetPrincipal { context: 0x100, ccache: 0x200 },
            NativeCall::PrincipalRealm { context: 0x100, principal: 0x300 },
        ]
    );
}
