//! Building blocks for OpenSSL 3 providers: typed OpenSSL parameters,
//! TLS/DTLS protocol versions, key-selection flags, capability tables and the
//! decision logic of the core upcalls, each with a machine-checked contract.
use vstd::prelude::*;
use std::cmp::Ordering;

pub mod bindings;
pub mod capabilities;
pub mod operations;
pub mod ossl_callback;
pub mod osslparams;
pub mod upcalls;

verus! {

/// TLS protocol versions, as OpenSSL numbers them.
///
/// `NoVersion` (0) means "no version set", `Disabled` (-1) means the protocol
/// must not be used; the others carry the on-the-wire version number.
#[derive(Debug, Clone, Copy, PartialEq, Eq, Structural)]
pub enum TLSVersion {
    /// No defined version (0)
    NoVersion,
    /// Protocol should not be used (-1)
    Disabled,
    /// SSL v3.0 (0x0300)
    SSLv3_0,
    /// TLS v1.0 (0x0301)
    TLSv1_0,
    /// TLS v1.1 (0x0302)
    TLSv1_1,
    /// TLS v1.2 (0x0303)
    TLSv1_2,
    /// TLS v1.3 (0x0304)
    TLSv1_3,
}

/// DTLS protocol versions, as OpenSSL numbers them.
///
/// DTLS version numbers decrease as the protocol gets newer.
#[derive(Debug, Clone, Copy, PartialEq, Eq, Structural)]
pub enum DTLSVersion {
    /// No defined version (0)
    NoVersion,
    /// Protocol should not be used (-1)
    Disabled,
    /// DTLS v1.0 (0xFEFF), the counterpart of TLS v1.1
    DTLSv1_0,
    /// DTLS v1.2 (0xFEFD), the counterpart of TLS v1.2
    DTLSv1_2,
}

/// The error of converting a raw number that names no version.
#[derive(Debug, Clone, Copy, PartialEq, Eq, Structural)]
pub struct TryFromPrimitiveError {
    /// The number that was refused.
    pub number: i32,
}

/// The raw OpenSSL number of a TLS version.
pub open spec fn tls_version_raw(v: TLSVersion) -> i32 {
    match v {
        TLSVersion::NoVersion => 0,
        TLSVersion::Disabled => -1i32,
        TLSVersion::SSLv3_0 => 0x0300,
        TLSVersion::TLSv1_0 => 0x0301,
        TLSVersion::TLSv1_1 => 0x0302,
        TLSVersion::TLSv1_2 => 0x0303,
        TLSVersion::TLSv1_3 => 0x0304,
    }
}

/// The raw OpenSSL number of a DTLS version.
pub open spec fn dtls_version_raw(v: DTLSVersion) -> i32 {
    match v {
        DTLSVersion::NoVersion => 0,
        DTLSVersion::Disabled => -1i32,
        DTLSVersion::DTLSv1_0 => 0xFEFF,
        DTLSVersion::DTLSv1_2 => 0xFEFD,
    }
}

/// The TLS version with the given raw number, if there is one.
pub open spec fn tls_version_of_raw(n: i32) -> Option<TLSVersion> {
    if n == 0 {
        Some(TLSVersion::NoVersion)
    } else if n == -1 {
        Some(TLSVersion::Disabled)
    } else if n == 0x0300 {
        Some(TLSVersion::SSLv3_0)
    } else if n == 0x0301 {
        Some(TLSVersion::TLSv1_0)
    } else if n == 0x0302 {
        Some(TLSVersion::TLSv1_1)
    } else if n == 0x0303 {
        Some(TLSVersion::TLSv1_2)
    } else if n == 0x0304 {
        Some(TLSVersion::TLSv1_3)
    } else {
        None
    }
}

/// The DTLS version with the given raw number, if there is one.
pub open spec fn dtls_version_of_raw(n: i32) -> Option<DTLSVersion> {
    if n == 0 {
        Some(DTLSVersion::NoVersion)
    } else if n == -1 {
        Some(DTLSVersion::Disabled)
    } else if n == 0xFEFF {
        Some(DTLSVersion::DTLSv1_0)
    } else if n == 0xFEFD {
        Some(DTLSVersion::DTLSv1_2)
    } else {
        None
    }
}

/// Whether a TLS version names an actual protocol (it is neither `NoVersion` nor `Disabled`).
pub open spec fn tls_is_protocol(v: TLSVersion) -> bool {
    v != TLSVersion::NoVersion && v != TLSVersion::Disabled
}

/// Whether a DTLS version names an actual protocol (it is neither `NoVersion` nor `Disabled`).
pub open spec fn dtls_is_protocol(v: DTLSVersion) -> bool {
    v != DTLSVersion::NoVersion && v != DTLSVersion::Disabled
}

/// The order of two integers.
pub open spec fn int_order(a: i32, b: i32) -> Ordering {
    if a < b {
        Ordering::Less
    } else if a == b {
        Ordering::Equal
    } else {
        Ordering::Greater
    }
}

/// How two TLS versions compare: by their raw numbers, and not at all when
/// either one is `NoVersion` or `Disabled`.
pub open spec fn tls_version_order(a: TLSVersion, b: TLSVersion) -> Option<Ordering> {
    if tls_is_protocol(a) && tls_is_protocol(b) {
        Some(int_order(tls_version_raw(a), tls_version_raw(b)))
    } else {
        None
    }
}

/// How two DTLS versions compare: newer is greater, which is the reverse of
/// their raw numbers, and not at all when either one is `NoVersion` or `Disabled`.
pub open spec fn dtls_version_order(a: DTLSVersion, b: DTLSVersion) -> Option<Ordering> {
    if dtls_is_protocol(a) && dtls_is_protocol(b) {
        Some(int_order(dtls_version_raw(b), dtls_version_raw(a)))
    } else {
        None
    }
}

impl From<TLSVersion> for i32 {
    /// The raw OpenSSL number of the version.
    fn from(v: TLSVersion) -> (r: i32) {
        match v {
            TLSVersion::NoVersion => 0,
            TLSVersion::Disabled => -1,
            TLSVersion::SSLv3_0 => 0x0300,
            TLSVersion::TLSv1_0 => 0x0301,
            TLSVersion::TLSv1_1 => 0x0302,
            TLSVersion::TLSv1_2 => 0x0303,
            TLSVersion::TLSv1_3 => 0x0304,
        }
    }
}

impl vstd::std_specs::convert::FromSpecImpl<TLSVersion> for i32 {
    open spec fn obeys_from_spec() -> bool {
        true
    }

    open spec fn from_spec(v: TLSVersion) -> i32 {
        tls_version_raw(v)
    }
}

impl From<DTLSVersion> for i32 {
    /// The raw OpenSSL number of the version.
    fn from(v: DTLSVersion) -> (r: i32) {
        match v {
            DTLSVersion::NoVersion => 0,
            DTLSVersion::Disabled => -1,
            DTLSVersion::DTLSv1_0 => 0xFEFF,
            DTLSVersion::DTLSv1_2 => 0xFEFD,
        }
    }
}

impl vstd::std_specs::convert::FromSpecImpl<DTLSVersion> for i32 {
    open spec fn obeys_from_spec() -> bool {
        true
    }

    open spec fn from_spec(v: DTLSVersion) -> i32 {
        dtls_version_raw(v)
    }
}

impl TryFrom<i32> for TLSVersion {
    type Error = TryFromPrimitiveError;

    /// The version with the given raw number; an error that carries the
    /// number when no version has it.
    fn try_from(n: i32) -> (r: Result<TLSVersion, TryFromPrimitiveError>) {
        if n == 0 {
            Ok(TLSVersion::NoVersion)
        } else if n == -1 {
            Ok(TLSVersion::Disabled)
        } else if n == 0x0300 {
            Ok(TLSVersion::SSLv3_0)
        } else if n == 0x0301 {
            Ok(TLSVersion::TLSv1_0)
        } else if n == 0x0302 {
            Ok(TLSVersion::TLSv1_1)
        } else if n == 0x0303 {
            Ok(TLSVersion::TLSv1_2)
        } else if n == 0x0304 {
            Ok(TLSVersion::TLSv1_3)
        } else {
            Err(TryFromPrimitiveError { number: n })
        }
    }
}

impl vstd::std_specs::convert::TryFromSpecImpl<i32> for TLSVersion {
    open spec fn obeys_try_from_spec() -> bool {
        true
    }

    open spec fn try_from_spec(n: i32) -> Result<TLSVersion, TryFromPrimitiveError> {
        match tls_version_of_raw(n) {
            Some(v) => Ok(v),
            None => Err(TryFromPrimitiveError { number: n }),
        }
    }
}

impl TryFrom<i32> for DTLSVersion {
    type Error = TryFromPrimitiveError;

    /// The version with the given raw number; an error that carries the
    /// number when no version has it.
    fn try_from(n: i32) -> (r: Result<DTLSVersion, TryFromPrimitiveError>) {
        if n == 0 {
            Ok(DTLSVersion::NoVersion)
        } else if n == -1 {
            Ok(DTLSVersion::Disabled)
        } else if n == 0xFEFF {
            Ok(DTLSVersion::DTLSv1_0)
        } else if n == 0xFEFD {
            Ok(DTLSVersion::DTLSv1_2)
        } else {
            Err(TryFromPrimitiveError { number: n })
        }
    }
}

impl vstd::std_specs::convert::TryFromSpecImpl<i32> for DTLSVersion {
    open spec fn obeys_try_from_spec() -> bool {
        true
    }

    open spec fn try_from_spec(n: i32) -> Result<DTLSVersion, TryFromPrimitiveError> {
        match dtls_version_of_raw(n) {
            Some(v) => Ok(v),
            None => Err(TryFromPrimitiveError { number: n }),
        }
    }
}

impl Default for TLSVersion {
    /// `NoVersion`: no version set.
    fn default() -> (r: TLSVersion)
        ensures
            r == TLSVersion::NoVersion,
    {
        TLSVersion::NoVersion
    }
}

impl Default for DTLSVersion {
    /// `NoVersion`: no version set.
    fn default() -> (r: DTLSVersion)
        ensures
            r == DTLSVersion::NoVersion,
    {
        DTLSVersion::NoVersion
    }
}

impl PartialOrd for TLSVersion {
    /// Versions compare by their raw numbers; `NoVersion` and `Disabled`
    /// compare with nothing.
    fn partial_cmp(&self, other: &TLSVersion) -> (r: Option<Ordering>) {
        if *self == TLSVersion::NoVersion || *self == TLSVersion::Disabled
            || *other == TLSVersion::NoVersion || *other == TLSVersion::Disabled {
            None
        } else {
            let s: i32 = i32::from(*self);
            let o: i32 = i32::from(*other);
            if s < o {
                Some(Ordering::Less)
            } else if s == o {
                Some(Ordering::Equal)
            } else {
                Some(Ordering::Greater)
            }
        }
    }
}

impl vstd::std_specs::cmp::PartialOrdSpecImpl for TLSVersion {
    open spec fn obeys_partial_cmp_spec() -> bool {
        true
    }

    open spec fn partial_cmp_spec(&self, other: &TLSVersion) -> Option<Ordering> {
        tls_version_order(*self, *other)
    }
}

impl PartialOrd for DTLSVersion {
    /// Newer versions are greater, the reverse of their raw numbers;
    /// `NoVersion` and `Disabled` compare with nothing.
    fn partial_cmp(&self, other: &DTLSVersion) -> (r: Option<Ordering>) {
        if *self == DTLSVersion::NoVersion || *self == DTLSVersion::Disabled
            || *other == DTLSVersion::NoVersion || *other == DTLSVersion::Disabled {
            None
        } else {
            let s: i32 = i32::from(*self);
            let o: i32 = i32::from(*other);
            if o < s {
                Some(Ordering::Less)
            } else if o == s {
                Some(Ordering::Equal)
            } else {
                Some(Ordering::Greater)
            }
        }
    }
}

impl vstd::std_specs::cmp::PartialOrdSpecImpl for DTLSVersion {
    open spec fn obeys_partial_cmp_spec() -> bool {
        true
    }

    open spec fn partial_cmp_spec(&self, other: &DTLSVersion) -> Option<Ordering> {
        dtls_version_order(*self, *other)
    }
}

/// The order seen from the other side.
pub open spec fn flip_order(o: Option<Ordering>) -> Option<Ordering> {
    match o {
        Some(Ordering::Less) => Some(Ordering::Greater),
        Some(Ordering::Greater) => Some(Ordering::Less),
        other => other,
    }
}

/// The TLS version that a DTLS version corresponds to.
pub open spec fn dtls_counterpart(v: DTLSVersion) -> TLSVersion {
    match v {
        DTLSVersion::NoVersion => TLSVersion::NoVersion,
        DTLSVersion::Disabled => TLSVersion::Disabled,
        DTLSVersion::DTLSv1_0 => TLSVersion::TLSv1_1,
        DTLSVersion::DTLSv1_2 => TLSVersion::TLSv1_2,
    }
}

/// Converting a TLS version to its raw number and back gives the version,
/// and a raw number that converts to a version is that version's number.
pub proof fn lemma_tls_version_raw_roundtrip(v: TLSVersion, n: i32)
    ensures
        tls_version_of_raw(tls_version_raw(v)) == Some(v),
        tls_version_of_raw(n) matches Some(w) ==> tls_version_raw(w) == n,
{
}

/// Converting a DTLS version to its raw number and back gives the version,
/// and a raw number that converts to a version is that version's number.
pub proof fn lemma_dtls_version_raw_roundtrip(v: DTLSVersion, n: i32)
    ensures
        dtls_version_of_raw(dtls_version_raw(v)) == Some(v),
        dtls_version_of_raw(n) matches Some(w) ==> dtls_version_raw(w) == n,
{
}

/// Comparing two TLS versions the other way round gives the opposite answer,
/// a version that compares at all equals only itself, and the order is transitive.
pub proof fn lemma_tls_version_order_is_partial_order(a: TLSVersion, b: TLSVersion, c: TLSVersion)
    ensures
        tls_version_order(a, b) == flip_order(tls_version_order(b, a)),
        tls_version_order(a, b) == Some(Ordering::Equal) <==> (tls_is_protocol(a) && a == b),
        (tls_version_order(a, b) == Some(Ordering::Less) && tls_version_order(b, c) == Some(
            Ordering::Less,
        )) ==> tls_version_order(a, c) == Some(Ordering::Less),
{
}

/// Comparing two DTLS versions the other way round gives the opposite answer,
/// a version that compares at all equals only itself, and the order is transitive.
pub proof fn lemma_dtls_version_order_is_partial_order(a: DTLSVersion, b: DTLSVersion, c: DTLSVersion)
    ensures
        dtls_version_order(a, b) == flip_order(dtls_version_order(b, a)),
        dtls_version_order(a, b) == Some(Ordering::Equal) <==> (dtls_is_protocol(a) && a == b),
        (dtls_version_order(a, b) == Some(Ordering::Less) && dtls_version_order(b, c) == Some(
            Ordering::Less,
        )) ==> dtls_version_order(a, c) == Some(Ordering::Less),
{
}

/// DTLS versions compare as the TLS versions they correspond to: newer is
/// greater, though DTLS numbers run downwards.
pub proof fn lemma_dtls_order_follows_tls(a: DTLSVersion, b: DTLSVersion)
    ensures
        dtls_version_order(a, b) == tls_version_order(dtls_counterpart(a), dtls_counterpart(b)),
{
}

/// The TLS protocol versions carry their on-the-wire numbers: each is
/// `0x03` followed by its minor number, the releases in order (SSL 3.0,
/// TLS 1.0, 1.1, 1.2, 1.3) have consecutive numbers from `0x0300` to
/// `0x0304`, each compares below the next, and no two versions share a number.
pub proof fn lemma_tls_versions_follow_the_wire(v: TLSVersion, w: TLSVersion)
    ensures
        tls_is_protocol(v) ==> 0x0300 <= tls_version_raw(v) <= 0x0304,
        tls_version_raw(TLSVersion::SSLv3_0) == 0x0300,
        tls_version_raw(TLSVersion::TLSv1_0) == tls_version_raw(TLSVersion::SSLv3_0) + 1,
        tls_version_raw(TLSVersion::TLSv1_1) == tls_version_raw(TLSVersion::TLSv1_0) + 1,
        tls_version_raw(TLSVersion::TLSv1_2) == tls_version_raw(TLSVersion::TLSv1_1) + 1,
        tls_version_raw(TLSVersion::TLSv1_3) == tls_version_raw(TLSVersion::TLSv1_2) + 1,
        tls_version_order(TLSVersion::SSLv3_0, TLSVersion::TLSv1_0) == Some(Ordering::Less),
        tls_version_order(TLSVersion::TLSv1_0, TLSVersion::TLSv1_1) == Some(Ordering::Less),
        tls_version_order(TLSVersion::TLSv1_1, TLSVersion::TLSv1_2) == Some(Ordering::Less),
        tls_version_order(TLSVersion::TLSv1_2, TLSVersion::TLSv1_3) == Some(Ordering::Less),
        tls_version_raw(TLSVersion::NoVersion) == 0,
        tls_version_raw(TLSVersion::Disabled) == -1,
        tls_version_raw(v) == tls_version_raw(w) ==> v == w,
{
}

/// The DTLS protocol versions carry their on-the-wire numbers: `0xFE`
/// followed by 255 minus the minor number of the DTLS 1.x release (DTLS 1.0
/// is `0xFEFF`, DTLS 1.2 is `0xFEFD`), the newer compares above the older,
/// and no two versions share a number.
pub proof fn lemma_dtls_versions_follow_the_wire(v: DTLSVersion, w: DTLSVersion)
    ensures
        dtls_version_raw(DTLSVersion::DTLSv1_0) == 0xFE00 + (255 - 0),
        dtls_version_raw(DTLSVersion::DTLSv1_2) == 0xFE00 + (255 - 2),
        dtls_version_order(DTLSVersion::DTLSv1_0, DTLSVersion::DTLSv1_2) == Some(Ordering::Less),
        dtls_version_raw(DTLSVersion::NoVersion) == 0,
        dtls_version_raw(DTLSVersion::Disabled) == -1,
        dtls_version_raw(v) == dtls_version_raw(w) ==> v == w,
{
}

/// The core upcalls whose outcome the library reports.
#[derive(Debug, Clone, Copy, PartialEq, Eq, Structural)]
pub enum CoreUpcall {
    /// `BIO_read_ex`
    BioReadEx,
    /// `BIO_write_ex`
    BioWriteEx,
    /// `core_obj_create`
    ObjCreate,
    /// `core_obj_add_sigid`
    ObjAddSigid,
    /// `core_gettable_params`
    GettableParams,
    /// `core_get_params`
    GetParams,
}

/// The errors of the library's operations.
#[derive(Debug, Clone, Copy, PartialEq, Eq, Structural)]
pub enum OurError {
    /// A callback was `NULL`.
    NullCallback,
    /// A key selection value held an undefined flag bit.
    InvalidSelection(u32),
    /// The core dispatch table was `NULL`.
    NullDispatchTable,
    /// The core dispatch table had no end entry within its first 513 entries.
    DispatchTableTooLong,
    /// The core offered no function for an upcall.
    NoUpcallPointer(CoreUpcall),
    /// An upcall reported failure.
    UpcallFailed(CoreUpcall),
    /// An upcall was repeated more often than allowed.
    TooManyUpcalls(CoreUpcall),
}

} // verus!
