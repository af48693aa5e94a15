//! The "TLS-GROUP" capability: the TLS groups (key exchange or key
//! encapsulation methods) that a provider adds to those `libssl` supports,
//! and the parameter list that describes one to OpenSSL.
use vstd::prelude::*;
use vstd::utf8::encode_utf8;
use crate::bindings::{
    OSSL_CAPABILITY_TLS_GROUP_ALG, OSSL_CAPABILITY_TLS_GROUP_ID, OSSL_CAPABILITY_TLS_GROUP_IS_KEM,
    OSSL_CAPABILITY_TLS_GROUP_MAX_DTLS, OSSL_CAPABILITY_TLS_GROUP_MAX_TLS,
    OSSL_CAPABILITY_TLS_GROUP_MIN_DTLS, OSSL_CAPABILITY_TLS_GROUP_MIN_TLS,
    OSSL_CAPABILITY_TLS_GROUP_NAME, OSSL_CAPABILITY_TLS_GROUP_NAME_INTERNAL,
    OSSL_CAPABILITY_TLS_GROUP_SECURITY_BITS, OSSL_PARAM_INTEGER, OSSL_PARAM_UNSIGNED_INTEGER,
    OSSL_PARAM_UTF8_STRING,
};
use crate::osslparams::{
    const_param, stored_int, OSSLParam, OSSLParamGetter, OSSLParamView, OsslParamView, ParamKind,
    OSSL_PARAM,
};
use crate::osslparams::laws::{
    lemma_const_int_reads_back, lemma_const_uint_reads_back, lemma_const_utf8string_reads_back,
};
use crate::osslparams::encoding::lemma_pow256_values;
use crate::osslparams::encoding::{le_encode, twos_complement};
use crate::{dtls_version_raw, tls_version_raw, DTLSVersion, TLSVersion};

verus! {

/// A TLS group that a provider supports.
pub trait TLSGroup {
    /// The name of the group in the IANA TLS Supported Groups registry.
    const IANA_GROUP_NAME: &'static str;
    /// The id of the group in the IANA TLS Supported Groups registry.
    const IANA_GROUP_ID: u32;
    /// The provider's own name of the group.
    const GROUP_NAME_INTERNAL: &'static str;
    /// The key management algorithm of the group.
    const GROUP_ALG: &'static str;
    /// The bits of security of the group.
    const SECURITY_BITS: u32;
    /// The lowest TLS version the group can be used with.
    const MIN_TLS: TLSVersion;
    /// The highest TLS version (by default no set maximum).
    const MAX_TLS: TLSVersion = TLSVersion::NoVersion;
    /// The lowest DTLS version (by default the group is not used with DTLS).
    const MIN_DTLS: DTLSVersion = DTLSVersion::Disabled;
    /// The highest DTLS version (by default the group is not used with DTLS).
    const MAX_DTLS: DTLSVersion = DTLSVersion::Disabled;
    /// Whether the group is a key encapsulation method.
    const IS_KEM: bool = false;
}

/// The constant record of a string capability entry.
pub open spec fn string_entry(key: &str, value: &str) -> OsslParamView {
    const_param(key@, OSSL_PARAM_UTF8_STRING, Some(encode_utf8(value@)))
}

/// The constant record of a 32-bit unsigned capability entry.
pub open spec fn u32_entry(key: &str, value: u32) -> OsslParamView {
    const_param(key@, OSSL_PARAM_UNSIGNED_INTEGER, Some(le_encode(value as nat, 4)))
}

/// The constant record of a 32-bit signed capability entry.
pub open spec fn i32_entry(key: &str, value: i32) -> OsslParamView {
    const_param(key@, OSSL_PARAM_INTEGER, Some(le_encode(twos_complement(value as int, 4), 4)))
}

/// The parameter list that describes the group `G`, in the order OpenSSL
/// reads it, ending with the end record.
pub open spec fn tls_group_entries<G: TLSGroup>() -> Seq<OsslParamView> {
    seq![
        string_entry(OSSL_CAPABILITY_TLS_GROUP_NAME, G::IANA_GROUP_NAME),
        string_entry(OSSL_CAPABILITY_TLS_GROUP_NAME_INTERNAL, G::GROUP_NAME_INTERNAL),
        string_entry(OSSL_CAPABILITY_TLS_GROUP_ALG, G::GROUP_ALG),
        u32_entry(OSSL_CAPABILITY_TLS_GROUP_ID, G::IANA_GROUP_ID),
        u32_entry(OSSL_CAPABILITY_TLS_GROUP_SECURITY_BITS, G::SECURITY_BITS),
        i32_entry(OSSL_CAPABILITY_TLS_GROUP_MIN_TLS, tls_version_raw(G::MIN_TLS)),
        i32_entry(OSSL_CAPABILITY_TLS_GROUP_MAX_TLS, tls_version_raw(G::MAX_TLS)),
        i32_entry(OSSL_CAPABILITY_TLS_GROUP_MIN_DTLS, dtls_version_raw(G::MIN_DTLS)),
        i32_entry(OSSL_CAPABILITY_TLS_GROUP_MAX_DTLS, dtls_version_raw(G::MAX_DTLS)),
        u32_entry(OSSL_CAPABILITY_TLS_GROUP_IS_KEM, if G::IS_KEM { 1u32 } else { 0u32 }),
        OsslParamView { key: None, data_type: 0, data: None, data_size: 0, return_size: 0 },
    ]
}

/// The capability parameter list of the group `G`: its names, id, security
/// bits, TLS and DTLS version bounds and KEM flag, ending with the end record.
pub fn as_params<G: TLSGroup>() -> (r: Vec<OSSL_PARAM>)
    ensures
        r@.len() == 11,
        forall|i: int| 0 <= i < 11 ==> #[trigger] r@[i]@ == tls_group_entries::<G>()[i],
{
    let is_kem: u32 = if G::IS_KEM { 1 } else { 0 };
    let min_tls: i32 = i32::from(G::MIN_TLS);
    let max_tls: i32 = i32::from(G::MAX_TLS);
    let min_dtls: i32 = i32::from(G::MIN_DTLS);
    let max_dtls: i32 = i32::from(G::MAX_DTLS);
    let mut r: Vec<OSSL_PARAM> = Vec::new();
    r.push(OSSLParam::new_const_utf8string(OSSL_CAPABILITY_TLS_GROUP_NAME, Some(G::IANA_GROUP_NAME)));
    r.push(
        OSSLParam::new_const_utf8string(
            OSSL_CAPABILITY_TLS_GROUP_NAME_INTERNAL,
            Some(G::GROUP_NAME_INTERNAL),
        ),
    );
    r.push(OSSLParam::new_const_utf8string(OSSL_CAPABILITY_TLS_GROUP_ALG, Some(G::GROUP_ALG)));
    r.push(OSSLParam::new_const_uint(OSSL_CAPABILITY_TLS_GROUP_ID, Some(&G::IANA_GROUP_ID)));
    r.push(OSSLParam::new_const_uint(OSSL_CAPABILITY_TLS_GROUP_SECURITY_BITS, Some(&G::SECURITY_BITS)));
    r.push(OSSLParam::new_const_int(OSSL_CAPABILITY_TLS_GROUP_MIN_TLS, Some(&min_tls)));
    r.push(OSSLParam::new_const_int(OSSL_CAPABILITY_TLS_GROUP_MAX_TLS, Some(&max_tls)));
    r.push(OSSLParam::new_const_int(OSSL_CAPABILITY_TLS_GROUP_MIN_DTLS, Some(&min_dtls)));
    r.push(OSSLParam::new_const_int(OSSL_CAPABILITY_TLS_GROUP_MAX_DTLS, Some(&max_dtls)));
    r.push(OSSLParam::new_const_uint(OSSL_CAPABILITY_TLS_GROUP_IS_KEM, Some(&is_kem)));
    r.push(OSSL_PARAM::END());
    r
}

/// Each number in a group's capability list reads back as the group's
/// property: the id, the security bits, the four version bounds (by their
/// raw numbers) and the KEM flag (1 for yes, 0 for no).
pub proof fn lemma_tls_group_numbers_read_back<G: TLSGroup>()
    ensures
        stored_int(tls_group_entries::<G>()[3], false) == Some(G::IANA_GROUP_ID as int),
        stored_int(tls_group_entries::<G>()[4], false) == Some(G::SECURITY_BITS as int),
        stored_int(tls_group_entries::<G>()[5], true) == Some(tls_version_raw(G::MIN_TLS) as int),
        stored_int(tls_group_entries::<G>()[6], true) == Some(tls_version_raw(G::MAX_TLS) as int),
        stored_int(tls_group_entries::<G>()[7], true) == Some(dtls_version_raw(G::MIN_DTLS) as int),
        stored_int(tls_group_entries::<G>()[8], true) == Some(dtls_version_raw(G::MAX_DTLS) as int),
        stored_int(tls_group_entries::<G>()[9], false) == Some(if G::IS_KEM { 1int } else { 0int }),
{
    lemma_pow256_values();
    lemma_const_uint_reads_back(OSSL_CAPABILITY_TLS_GROUP_ID@, G::IANA_GROUP_ID as nat, 4);
    lemma_const_uint_reads_back(OSSL_CAPABILITY_TLS_GROUP_SECURITY_BITS@, G::SECURITY_BITS as nat, 4);
    lemma_const_int_reads_back(OSSL_CAPABILITY_TLS_GROUP_MIN_TLS@, tls_version_raw(G::MIN_TLS) as int, 4);
    lemma_const_int_reads_back(OSSL_CAPABILITY_TLS_GROUP_MAX_TLS@, tls_version_raw(G::MAX_TLS) as int, 4);
    lemma_const_int_reads_back(OSSL_CAPABILITY_TLS_GROUP_MIN_DTLS@, dtls_version_raw(G::MIN_DTLS) as int, 4);
    lemma_const_int_reads_back(OSSL_CAPABILITY_TLS_GROUP_MAX_DTLS@, dtls_version_raw(G::MAX_DTLS) as int, 4);
    lemma_const_uint_reads_back(
        OSSL_CAPABILITY_TLS_GROUP_IS_KEM@,
        if G::IS_KEM { 1nat } else { 0nat },
        4,
    );
}

/// The string entries of a group's capability list each carry their own
/// key and read back, as strings, as the group's own property: entry 0 its
/// IANA name, entry 1 its internal name, entry 2 its key management
/// algorithm (when none of them holds a NUL byte). The list ends with the
/// end record.
pub proof fn lemma_tls_group_strings_read_back<G: TLSGroup>()
    requires
        !encode_utf8(G::IANA_GROUP_NAME@).contains(0u8),
        !encode_utf8(G::GROUP_NAME_INTERNAL@).contains(0u8),
        !encode_utf8(G::GROUP_ALG@).contains(0u8),
    ensures
        tls_group_entries::<G>()[0].key == Some(OSSL_CAPABILITY_TLS_GROUP_NAME@),
        tls_group_entries::<G>()[1].key == Some(OSSL_CAPABILITY_TLS_GROUP_NAME_INTERNAL@),
        tls_group_entries::<G>()[2].key == Some(OSSL_CAPABILITY_TLS_GROUP_ALG@),
        <OSSLParam as OSSLParamGetter<String>>::get_spec(
            OSSLParamView { kind: ParamKind::Utf8String, param: tls_group_entries::<G>()[0] },
        ) == Some(G::IANA_GROUP_NAME@),
        <OSSLParam as OSSLParamGetter<String>>::get_spec(
            OSSLParamView { kind: ParamKind::Utf8String, param: tls_group_entries::<G>()[1] },
        ) == Some(G::GROUP_NAME_INTERNAL@),
        <OSSLParam as OSSLParamGetter<String>>::get_spec(
            OSSLParamView { kind: ParamKind::Utf8String, param: tls_group_entries::<G>()[2] },
        ) == Some(G::GROUP_ALG@),
        tls_group_entries::<G>()[10].key is None,
{
    lemma_const_utf8string_reads_back(OSSL_CAPABILITY_TLS_GROUP_NAME@, G::IANA_GROUP_NAME@);
    lemma_const_utf8string_reads_back(
        OSSL_CAPABILITY_TLS_GROUP_NAME_INTERNAL@,
        G::GROUP_NAME_INTERNAL@,
    );
    lemma_const_utf8string_reads_back(OSSL_CAPABILITY_TLS_GROUP_ALG@, G::GROUP_ALG@);
}

} // verus!
