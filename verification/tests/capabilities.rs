use openssl_provider_forge::bindings::{
    OSSL_CAPABILITY_TLS_GROUP_ID, OSSL_CAPABILITY_TLS_GROUP_IS_KEM,
    OSSL_CAPABILITY_TLS_GROUP_MAX_DTLS, OSSL_CAPABILITY_TLS_GROUP_MIN_TLS,
    OSSL_CAPABILITY_TLS_GROUP_NAME, OSSL_PARAM_UNMODIFIED,
};
use openssl_provider_forge::capabilities::tls_group::{as_params, TLSGroup};
use openssl_provider_forge::osslparams::{OSSLParam, OSSLParamIterator};
use openssl_provider_forge::{DTLSVersion, TLSVersion};

pub struct X25519MLKEM768Group;

impl TLSGroup for X25519MLKEM768Group {
    const IANA_GROUP_NAME: &'static str = "X25519MLKEM768";
    const IANA_GROUP_ID: u32 = 0x4588;
    const GROUP_NAME_INTERNAL: &'static str = "X25519MLKEM768";
    const GROUP_ALG: &'static str = "X25519MLKEM768";
    const SECURITY_BITS: u32 = 192;
    const MIN_TLS: TLSVersion = TLSVersion::TLSv1_3;
    const MAX_TLS: TLSVersion = TLSVersion::NoVersion;
    const MIN_DTLS: DTLSVersion = DTLSVersion::Disabled;
    const MAX_DTLS: DTLSVersion = DTLSVersion::Disabled;
    const IS_KEM: bool = true;
}

pub struct P256Group;

impl TLSGroup for P256Group {
    const IANA_GROUP_NAME: &'static str = "SecP256r1MLKEM768";
    const IANA_GROUP_ID: u32 = 4587;
    const GROUP_NAME_INTERNAL: &'static str = "SecP256r1MLKEM768";
    const GROUP_ALG: &'static str = "SecP256r1MLKEM768";
    const SECURITY_BITS: u32 = 192;
    const MIN_TLS: TLSVersion = TLSVersion::TLSv1_3;
}

#[test]
fn tls_group_params_describe_the_group() {
    let mut params = as_params::<X25519MLKEM768Group>();
    assert_eq!(params.len(), 11);
    assert!(params[10].key.is_none());
    let mut it = OSSLParamIterator::new(&mut params);
    let mut seen = Vec::new();
    while let Some(p) = it.next() {
        assert_eq!(p.get_c_struct().return_size, OSSL_PARAM_UNMODIFIED);
        seen.push(p);
    }
    assert_eq!(seen.len(), 10);
    assert_eq!(seen[0].get_key(), Some(OSSL_CAPABILITY_TLS_GROUP_NAME));
    assert_eq!(seen[0].get::<String>(), Some("X25519MLKEM768".to_string()));
    assert_eq!(seen[3].get_key(), Some(OSSL_CAPABILITY_TLS_GROUP_ID));
    assert_eq!(seen[3].get::<u32>(), Some(0x4588));
    assert_eq!(seen[4].get::<u32>(), Some(192));
    assert_eq!(seen[5].get_key(), Some(OSSL_CAPABILITY_TLS_GROUP_MIN_TLS));
    assert_eq!(seen[5].get::<i32>(), Some(0x0304));
    assert_eq!(seen[6].get::<i32>(), Some(0));
    assert_eq!(seen[8].get_key(), Some(OSSL_CAPABILITY_TLS_GROUP_MAX_DTLS));
    assert_eq!(seen[8].get::<i32>(), Some(-1));
    assert_eq!(seen[9].get_key(), Some(OSSL_CAPABILITY_TLS_GROUP_IS_KEM));
    assert_eq!(seen[9].get::<u32>(), Some(1));
}

#[test]
fn tls_group_defaults() {
    let mut params = as_params::<P256Group>();
    assert_eq!(OSSLParam::try_from(&mut params[3]).unwrap().get::<u32>(), Some(4587));
    // no maximum TLS version
    assert_eq!(OSSLParam::try_from(&mut params[6]).unwrap().get::<i32>(), Some(0));
    // DTLS disabled
    assert_eq!(OSSLParam::try_from(&mut params[7]).unwrap().get::<i32>(), Some(-1));
    assert_eq!(OSSLParam::try_from(&mut params[8]).unwrap().get::<i32>(), Some(-1));
    // not a KEM
    assert_eq!(OSSLParam::try_from(&mut params[9]).unwrap().get::<u32>(), Some(0));
    assert_eq!(
        OSSLParam::try_from(&mut params[2]).unwrap().get::<String>(),
        Some("SecP256r1MLKEM768".to_string())
    );
}
