use openssl_provider_forge::bindings::{GenericFnPtr, OSSL_DISPATCH};
use openssl_provider_forge::ossl_callback::OSSLCallback;
use openssl_provider_forge::upcalls::{
    upcall_status, require_upcall, BioReadSession, BioReadStep, BioWriteSession, BioWriteStep,
    CoreDispatch, CoreDispatchWithCoreHandle, CoreUpcaller, CoreUpcallerWithCoreHandle,
    OSSL_CORE_HANDLE,
};
use openssl_provider_forge::{CoreUpcall, OurError};

fn entry(id: i32, f: Option<usize>) -> OSSL_DISPATCH {
    OSSL_DISPATCH::new(id, f.map(GenericFnPtr))
}

#[test]
fn dispatch_table_lookup() {
    let table = [
        entry(1, Some(0x1000)),
        entry(2, None),
        entry(1, Some(0x2000)),
        entry(-1, Some(0x3000)),
        OSSL_DISPATCH::END(),
        entry(5, Some(0x5000)),
    ];
    let d = CoreDispatch::try_from(Some(&table[..])).unwrap();
    // the last entry with an id wins
    assert_eq!(d.fn_from_core_dispatch(1), Some(GenericFnPtr(0x2000)));
    // a NULL function gives nothing
    assert_eq!(d.fn_from_core_dispatch(2), None);
    // ids are looked up as unsigned numbers
    assert_eq!(d.fn_from_core_dispatch(u32::MAX), Some(GenericFnPtr(0x3000)));
    // entries after the end are not part of the table
    assert_eq!(d.fn_from_core_dispatch(5), None);
    assert_eq!(CoreUpcaller::fn_from_core_dispatch(&d, 7), None);
}

#[test]
fn dispatch_table_errors() {
    assert_eq!(CoreDispatch::try_from(None).unwrap_err(), OurError::NullDispatchTable);
    let mut long: Vec<OSSL_DISPATCH> = (1..=513).map(|i| entry(i, Some(i as usize))).collect();
    assert_eq!(CoreDispatch::try_from(Some(&long[..])).unwrap_err(), OurError::DispatchTableTooLong);
    // an end entry at index 512 is still found
    long[512] = OSSL_DISPATCH::END();
    let d = CoreDispatch::try_from(Some(&long[..])).unwrap();
    assert_eq!(d.fn_from_core_dispatch(512), Some(GenericFnPtr(512)));
    let empty = CoreDispatch::new_mock_for_testing();
    assert_eq!(empty.fn_from_core_dispatch(1), None);
}

#[test]
fn dispatch_with_core_handle() {
    let table = [entry(3, Some(0x30)), OSSL_DISPATCH::END()];
    let d = CoreDispatch::try_from(Some(&table[..])).unwrap();
    let with = CoreDispatchWithCoreHandle::from((d, OSSL_CORE_HANDLE(0xabc)));
    assert_eq!(with.get_core_handle(), OSSL_CORE_HANDLE(0xabc));
    assert_eq!(CoreUpcallerWithCoreHandle::get_core_handle(&with), OSSL_CORE_HANDLE(0xabc));
    assert_eq!(with.fn_from_core_dispatch(3), Some(GenericFnPtr(0x30)));
    let (d, h) = with.into_parts();
    assert_eq!(h, OSSL_CORE_HANDLE(0xabc));
    assert_eq!(d.fn_from_core_dispatch(3), Some(GenericFnPtr(0x30)));
}

#[test]
fn upcall_return_codes() {
    assert_eq!(upcall_status(CoreUpcall::ObjCreate, 1), Ok(()));
    assert_eq!(
        upcall_status(CoreUpcall::ObjAddSigid, 0),
        Err(OurError::UpcallFailed(CoreUpcall::ObjAddSigid))
    );
    assert_eq!(require_upcall(CoreUpcall::GetParams, Some(GenericFnPtr(9))), Ok(GenericFnPtr(9)));
    assert_eq!(
        require_upcall(CoreUpcall::GetParams, None),
        Err(OurError::NoUpcallPointer(CoreUpcall::GetParams))
    );
}

#[test]
fn bio_read_collects_until_end_of_input() {
    let mut s = BioReadSession::new();
    assert_eq!(s.on_upcall(1, b"hello "), BioReadStep::Continue);
    assert_eq!(s.on_upcall(1, b""), BioReadStep::Continue);
    assert_eq!(s.on_upcall(0, b"world"), BioReadStep::Continue);
    assert_eq!(s.on_upcall(0, b""), BioReadStep::Finished);
    assert_eq!(s.into_data(), b"hello world".to_vec());
}

#[test]
fn bio_read_fails_after_ten_calls() {
    let mut s = BioReadSession::new();
    for _ in 0..10 {
        assert_eq!(s.on_upcall(1, b"x"), BioReadStep::Continue);
    }
    assert_eq!(s.on_upcall(1, b"x"), BioReadStep::TooManyCalls);
    assert!(s.into_data().is_empty());
}

#[test]
fn bio_write_counts_written_bytes() {
    let mut s = BioWriteSession::new(10);
    assert!(!s.is_complete());
    assert_eq!(s.on_upcall(1, 4), BioWriteStep::Continue);
    assert_eq!(s.written_bytes(), 4);
    assert_eq!(s.on_upcall(1, 0), BioWriteStep::Continue);
    assert_eq!(s.on_upcall(7, 6), BioWriteStep::Continue);
    assert!(s.is_complete());
    assert_eq!(s.written_bytes(), 10);
    let mut e = BioWriteSession::new(3);
    assert_eq!(e.on_upcall(0, 0), BioWriteStep::Finished);
    assert_eq!(e.written_bytes(), 0);
    assert!(BioWriteSession::new(0).is_complete());
}

#[test]
fn bio_write_fails_after_ten_calls() {
    let mut s = BioWriteSession::new(100);
    for _ in 0..10 {
        assert_eq!(s.on_upcall(1, 1), BioWriteStep::Continue);
    }
    assert_eq!(s.on_upcall(1, 1), BioWriteStep::TooManyCalls);
}

#[test]
fn callback_needs_a_function() {
    assert_eq!(OSSLCallback::try_new(None, 5).unwrap_err(), OurError::NullCallback);
    let cb = OSSLCallback::try_new(Some(GenericFnPtr(0x40)), 5).unwrap();
    assert_eq!(cb.cb_fn(), GenericFnPtr(0x40));
    assert_eq!(cb.args(), 5);
}

#[test]
fn dispatch_entries_and_defaults() {
    let e = OSSL_DISPATCH::new(7, Some(GenericFnPtr(1)));
    assert_eq!(e.function_id, 7);
    assert_eq!(OSSL_DISPATCH::default(), OSSL_DISPATCH::END());
    let a = openssl_provider_forge::bindings::OSSL_ALGORITHM::default();
    assert!(a.algorithm_names.is_none() && a.implementation.is_none());
}

#[test]
fn bio_write_of_everything_within_the_limit_completes() {
    let mut s = BioWriteSession::new(10);
    for _ in 0..9 {
        assert_eq!(s.on_upcall(1, 1), BioWriteStep::Continue);
    }
    assert!(!s.is_complete());
    assert_eq!(s.on_upcall(1, 1), BioWriteStep::Continue);
    assert!(s.is_complete());
    assert_eq!(s.written_bytes(), 10);
}
