use openssl_provider_forge::{DTLSVersion, TLSVersion, TryFromPrimitiveError};
use std::cmp::Ordering;

#[test]
fn tls_version_to_raw() {
    let tls_version = TLSVersion::TLSv1_2;
    let raw_value: i32 = tls_version.into();
    assert_eq!(raw_value, 0x0303);
    assert_eq!(i32::from(TLSVersion::SSLv3_0), 0x0300);
    assert_eq!(i32::from(TLSVersion::Disabled), -1);
    assert_eq!(i32::from(TLSVersion::NoVersion), 0);
}

#[test]
fn tls_version_from_raw() {
    assert_eq!(TLSVersion::try_from(0x0304).unwrap(), TLSVersion::TLSv1_3);
    assert_eq!(TLSVersion::try_from(-1).unwrap(), TLSVersion::Disabled);
    assert_eq!(TLSVersion::try_from(0).unwrap(), TLSVersion::NoVersion);
    assert_eq!(TLSVersion::try_from(0x0305), Err(TryFromPrimitiveError { number: 0x0305 }));
}

#[test]
fn tls_version_default_and_order() {
    assert_eq!(TLSVersion::default(), TLSVersion::NoVersion);
    assert!(TLSVersion::TLSv1_3 > TLSVersion::TLSv1_2);
    assert!(TLSVersion::SSLv3_0 < TLSVersion::TLSv1_0);
    assert_eq!(TLSVersion::TLSv1_1.partial_cmp(&TLSVersion::TLSv1_1), Some(Ordering::Equal));
    assert_eq!(TLSVersion::NoVersion.partial_cmp(&TLSVersion::TLSv1_2), None);
    assert_eq!(TLSVersion::TLSv1_2.partial_cmp(&TLSVersion::Disabled), None);
    assert!(!(TLSVersion::Disabled < TLSVersion::TLSv1_0));
    assert!(!(TLSVersion::Disabled > TLSVersion::TLSv1_0));
}

#[test]
fn dtls_version_conversions() {
    let raw_value: i32 = DTLSVersion::DTLSv1_2.into();
    assert_eq!(raw_value, 0xFEFD);
    assert_eq!(DTLSVersion::try_from(0xFEFD).unwrap(), DTLSVersion::DTLSv1_2);
    assert_eq!(DTLSVersion::try_from(0xFEFF).unwrap(), DTLSVersion::DTLSv1_0);
    assert_eq!(DTLSVersion::try_from(-1).unwrap(), DTLSVersion::Disabled);
    assert_eq!(DTLSVersion::try_from(0).unwrap(), DTLSVersion::NoVersion);
    assert!(DTLSVersion::try_from(0xFEFE).is_err());
    assert_eq!(DTLSVersion::default(), DTLSVersion::NoVersion);
}

#[test]
fn dtls_newer_is_greater() {
    assert!(DTLSVersion::DTLSv1_2 > DTLSVersion::DTLSv1_0);
    assert_eq!(DTLSVersion::DTLSv1_0.partial_cmp(&DTLSVersion::DTLSv1_2), Some(Ordering::Less));
    assert_eq!(DTLSVersion::Disabled.partial_cmp(&DTLSVersion::DTLSv1_2), None);
}

#[test]
fn raw_roundtrip_for_every_version() {
    for v in [
        TLSVersion::NoVersion,
        TLSVersion::Disabled,
        TLSVersion::SSLv3_0,
        TLSVersion::TLSv1_0,
        TLSVersion::TLSv1_1,
        TLSVersion::TLSv1_2,
        TLSVersion::TLSv1_3,
    ] {
        assert_eq!(TLSVersion::try_from(i32::from(v)), Ok(v));
    }
    for v in [
        DTLSVersion::NoVersion,
        DTLSVersion::Disabled,
        DTLSVersion::DTLSv1_0,
        DTLSVersion::DTLSv1_2,
    ] {
        assert_eq!(DTLSVersion::try_from(i32::from(v)), Ok(v));
    }
}
