//! OpenSSL parameters (`OSSL_PARAM`): the record that OpenSSL passes around,
//! and [`OSSLParam`], a typed view of one that reads and writes its value
//! the way OpenSSL's own parameter functions do.
//!
//! A parameter record holds a key, a data type, the buffer that its data
//! pointer refers to (`None` standing for `NULL`), the declared size of that
//! data and the size that a responder returned. Integers are stored in the
//! buffer in little-endian two's complement (the native form on the
//! little-endian targets the library is built for), strings as C strings.
use vstd::prelude::*;
use vstd::utf8::{valid_utf8, decode_utf8, encode_utf8};
use crate::bindings::{
    OSSL_PARAM_INTEGER, OSSL_PARAM_OCTET_STRING, OSSL_PARAM_UNSIGNED_INTEGER, OSSL_PARAM_UTF8_PTR,
    OSSL_PARAM_UTF8_STRING, OSSL_PARAM_UNMODIFIED,
};
use self::data::int_data::PrimIntMarker;
use self::data::uint_data::PrimUIntMarker;
use self::encoding::{
    copy_prefix, cstr_bytes, cstr_prefix, encode_le, fits_signed, fits_unsigned, le_encode,
    le_value, lemma_le_encode_len, lemma_le_value_bound, lemma_pow256_values, overwrite_prefix,
    pow256_exec, read_le, signed_of, twos_complement,
};

pub mod as_ossl_param_ptr;
pub mod data;
pub mod encoding;
pub mod laws;

verus! {

/// One OpenSSL parameter record.
///
/// In a list of parameters, the record whose `key` is `None` ends the list.
#[allow(non_camel_case_types)]
#[derive(Debug)]
pub struct OSSL_PARAM {
    /// The name of the parameter, or `None` for `NULL`.
    pub key: Option<String>,
    /// What kind of content the data is (one of the `OSSL_PARAM_*` types).
    pub data_type: u32,
    /// The memory that the data pointer refers to, or `None` for `NULL`.
    /// For a pointer type (`OSSL_PARAM_UTF8_PTR`) it is the memory of the
    /// string that the stored pointer refers to.
    pub data: Option<Vec<u8>>,
    /// The size of the data in bytes.
    pub data_size: usize,
    /// The size that a responder returned, or [`OSSL_PARAM_UNMODIFIED`].
    pub return_size: usize,
}

/// A parameter record with constant content: the same record.
#[allow(non_camel_case_types)]
pub type CONST_OSSL_PARAM = OSSL_PARAM;

/// The type of a parameter's key.
pub type KeyType = str;

/// The error of a parameter operation: a description of what went wrong.
pub type OSSLParamError = String;

/// The mathematical content of a parameter record.
pub struct OsslParamView {
    /// The key, or `None` for `NULL`.
    pub key: Option<Seq<char>>,
    /// The data type.
    pub data_type: u32,
    /// The data memory, or `None` for `NULL`.
    pub data: Option<Seq<u8>>,
    /// The declared data size.
    pub data_size: usize,
    /// The returned size.
    pub return_size: usize,
}

impl View for OSSL_PARAM {
    type V = OsslParamView;

    open spec fn view(&self) -> OsslParamView {
        OsslParamView {
            key: match self.key {
                Some(k) => Some(k@),
                None => None,
            },
            data_type: self.data_type,
            data: match self.data {
                Some(d) => Some(d@),
                None => None,
            },
            data_size: self.data_size,
            return_size: self.return_size,
        }
    }
}

/// The view of an optional value.
pub open spec fn opt_view<T: View>(o: Option<T>) -> Option<T::V> {
    match o {
        Some(t) => Some(t@),
        None => None,
    }
}

impl OSSL_PARAM {
    /// The record that ends a parameter list: no key, no data.
    #[allow(non_snake_case)]
    pub fn END() -> (r: OSSL_PARAM)
        ensures
            r@ == (OsslParamView { key: None, data_type: 0, data: None, data_size: 0, return_size: 0 }),
    {
        OSSL_PARAM { key: None, data_type: 0, data: None, data_size: 0, return_size: 0 }
    }
}

/// The record that ends a parameter list.
#[allow(non_snake_case)]
pub fn OSSL_PARAM_END() -> (r: OSSL_PARAM)
    ensures
        r@ == (OsslParamView { key: None, data_type: 0, data: None, data_size: 0, return_size: 0 }),
{
    OSSL_PARAM::END()
}

/// A parameter list without parameters: only the end record.
#[allow(non_snake_case)]
pub fn EMPTY_PARAMS() -> (r: [OSSL_PARAM; 1])
    ensures
        r@.len() == 1,
        r@[0]@ == (OsslParamView { key: None, data_type: 0, data: None, data_size: 0, return_size: 0 }),
{
    [OSSL_PARAM::END()]
}

/// The data of a record when its memory holds all `data_size` declared
/// bytes: the first `data_size` bytes.
pub open spec fn param_region(p: OsslParamView) -> Option<Seq<u8>> {
    match p.data {
        Some(buf) => if p.data_size <= buf.len() {
            Some(buf.subrange(0, p.data_size as int))
        } else {
            None
        },
        None => None,
    }
}

/// The integer that a record holds: its `data_size` bytes (one to eight)
/// read as a little-endian number, signed or not.
pub open spec fn stored_int(p: OsslParamView, signed: bool) -> Option<int> {
    match param_region(p) {
        Some(r) => if 1 <= p.data_size <= 8 {
            if signed {
                Some(signed_of(le_value(r), p.data_size as nat))
            } else {
                Some(le_value(r) as int)
            }
        } else {
            None
        },
        None => None,
    }
}

/// Storing the integer `v` in a record: it succeeds when there is data
/// memory of one to eight declared bytes, all present, and `v` fits in them;
/// the bytes then hold `v` and `return_size` is `data_size`. A failure
/// changes nothing.
pub open spec fn store_int(p: OsslParamView, v: int, signed: bool) -> (OsslParamView, bool) {
    let n = p.data_size;
    match p.data {
        Some(buf) => if 1 <= n <= 8 && n <= buf.len() && (if signed {
            fits_signed(v, n as nat)
        } else {
            fits_unsigned(v, n as nat)
        }) {
            (
                OsslParamView {
                    data: Some(le_encode(twos_complement(v, n as nat), n as nat) + buf.skip(n as int)),
                    return_size: n,
                    ..p
                },
                true,
            )
        } else {
            (p, false)
        },
        None => (p, false),
    }
}

/// Storing a byte string in a record: `return_size` becomes its length.
/// With a `NULL` data pointer that is all, and it succeeds: the caller asked
/// for the size. Otherwise it fails when the string is longer than
/// `data_size` or the memory is shorter than `data_size`, and else the
/// string overwrites the start of the memory.
pub open spec fn store_octets(p: OsslParamView, value: Seq<u8>) -> (OsslParamView, bool) {
    let q = OsslParamView { return_size: value.len() as usize, ..p };
    match p.data {
        None => (q, true),
        Some(buf) => if p.data_size < value.len() || buf.len() < p.data_size {
            (q, false)
        } else {
            (OsslParamView { data: Some(value + buf.skip(value.len() as int)), ..q }, true)
        },
    }
}

/// The bytes written for a C string of bytes `b` in a buffer of `data_size`
/// bytes: with its terminating NUL when there is room for it.
pub open spec fn cstring_image(b: Seq<u8>, data_size: usize) -> Seq<u8> {
    if data_size > b.len() {
        b.push(0)
    } else {
        b
    }
}

/// Storing a string in a record that holds it in its own buffer: as
/// [`store_octets`], with the string's UTF-8 bytes, followed by a NUL byte
/// when `data_size` leaves room for one.
pub open spec fn store_utf8_string(p: OsslParamView, value: Seq<char>) -> (OsslParamView, bool) {
    let b = encode_utf8(value);
    let q = OsslParamView { return_size: b.len() as usize, ..p };
    match p.data {
        None => (q, true),
        Some(buf) => if p.data_size < b.len() || buf.len() < p.data_size {
            (q, false)
        } else {
            let w = cstring_image(b, p.data_size);
            (OsslParamView { data: Some(w + buf.skip(w.len() as int)), ..q }, true)
        },
    }
}

/// Storing a string in a record that holds a pointer to it: with a `NULL`
/// data pointer it fails and `return_size` becomes 0; otherwise it
/// succeeds, the record refers to the string (with its terminating NUL)
/// and `return_size` is its length.
pub open spec fn store_utf8_ptr(p: OsslParamView, value: Seq<char>) -> (OsslParamView, bool) {
    let b = encode_utf8(value);
    match p.data {
        None => (OsslParamView { return_size: 0, ..p }, false),
        Some(_) => (OsslParamView { data: Some(b.push(0)), return_size: b.len() as usize, ..p }, true),
    }
}

/// The bytes of a C string, without its terminating NUL, whatever they
/// are: what a string parameter holds, read as C reads it. Unlike a
/// `String`, it need not be valid UTF-8.
#[derive(Debug, Clone, PartialEq, Eq)]
pub struct CStrBytes {
    /// The bytes before the NUL.
    pub bytes: Vec<u8>,
}

impl View for CStrBytes {
    type V = Seq<u8>;

    open spec fn view(&self) -> Seq<u8> {
        self.bytes@
    }
}

/// The string held as a C string at the start of `bytes`, when it is valid UTF-8.
pub open spec fn string_of(bytes: Seq<u8>) -> Option<Seq<char>> {
    if valid_utf8(cstr_prefix(bytes)) {
        Some(decode_utf8(cstr_prefix(bytes)))
    } else {
        None
    }
}

/// Calls `String::from_utf8`, which returns the string that the bytes
/// encode when they are valid UTF-8, and an error otherwise.
#[verifier::external_body]
fn string_from_utf8(bytes: Vec<u8>) -> (r: Option<String>)
    ensures
        r is Some <==> valid_utf8(bytes@),
        r matches Some(s) ==> s@ == decode_utf8(bytes@),
{
    String::from_utf8(bytes).ok()
}

/// The string held as a C string at the start of `bytes`, when it is valid UTF-8.
pub fn read_c_string(bytes: &[u8]) -> (r: Option<String>)
    ensures
        opt_view(r) == string_of(bytes@),
{
    let prefix = cstr_bytes(bytes);
    string_from_utf8(prefix)
}

/// The integer that a record holds, when it holds one: see [`stored_int`].
pub fn read_stored_int(p: &OSSL_PARAM, signed: bool) -> (r: Option<i128>)
    ensures
        match stored_int(p@, signed) {
            Some(v) => r == Some(v as i128) && -0x8000_0000_0000_0000 <= v < 0x1_0000_0000_0000_0000,
            None => r is None,
        },
{
    let n = p.data_size;
    match &p.data {
        Some(buf) => {
            if n < 1 || n > 8 || n > buf.len() {
                return None;
            }
            let u = read_le(buf.as_slice(), n);
            proof {
                lemma_pow256_values();
                lemma_le_value_bound(buf@.subrange(0, n as int));
            }
            if !signed {
                return Some(u as i128);
            }
            let m = pow256_exec(n);
            if (u as u128) >= m / 2 {
                Some((u as i128) - (m as i128))
            } else {
                Some(u as i128)
            }
        },
        None => None,
    }
}

/// Stores an integer in a record: see [`store_int`].
pub fn write_stored_int(p: &mut OSSL_PARAM, v: i128, signed: bool) -> (r: Result<(), OSSLParamError>)
    requires
        -0x8000_0000_0000_0000 <= v < 0x1_0000_0000_0000_0000,
    ensures
        final(p)@ == store_int(old(p)@, v as int, signed).0,
        r is Ok <==> store_int(old(p)@, v as int, signed).1,
        r matches Err(e) ==> e@ == if !(1 <= old(p).data_size <= 8) {
            "data_size of the parameter is not a supported integer size"@
        } else if !(if signed {
            fits_signed(v as int, old(p).data_size as nat)
        } else {
            fits_unsigned(v as int, old(p).data_size as nat)
        }) {
            "the value does not fit in the parameter's data_size"@
        } else if old(p).data is None {
            "the parameter's data pointer is NULL"@
        } else {
            "the parameter's data memory is shorter than data_size"@
        },
{
    let n = p.data_size;
    let ghost old_p = p@;
    if n < 1 || n > 8 {
        return Err(String::from_str("data_size of the parameter is not a supported integer size"));
    }
    let m = pow256_exec(n);
    let fits = if signed {
        -((m / 2) as i128) <= v && v < (m / 2) as i128
    } else {
        0 <= v && v < m as i128
    };
    if !fits {
        return Err(String::from_str("the value does not fit in the parameter's data_size"));
    }
    let u: u64 = if v >= 0 {
        v as u64
    } else {
        (v + m as i128) as u64
    };
    proof {
        lemma_pow256_values();
    }
    assert(u == twos_complement(v as int, n as nat));
    match &mut p.data {
        Some(buf) => {
            if n > buf.len() {
                return Err(String::from_str("the parameter's data memory is shorter than data_size"));
            }
            let bytes = encode_le(u, n);
            proof {
                lemma_le_encode_len(u as nat, n as nat);
            }
            overwrite_prefix(buf, bytes.as_slice());
        },
        None => {
            return Err(String::from_str("the parameter's data pointer is NULL"));
        },
    }
    p.return_size = n;
    Ok(())
}

/// The variants of [`OSSLParam`]: which parameter data types it can view.
#[derive(Debug, Clone, Copy, PartialEq, Eq, Structural)]
pub enum ParamKind {
    /// `OSSL_PARAM_UTF8_PTR`
    Utf8Ptr,
    /// `OSSL_PARAM_UTF8_STRING`
    Utf8String,
    /// `OSSL_PARAM_INTEGER`
    Int,
    /// `OSSL_PARAM_UNSIGNED_INTEGER`
    UInt,
    /// `OSSL_PARAM_OCTET_STRING`
    OctetString,
}

/// The variant that views a record of the given data type, if any does.
pub open spec fn kind_of_data_type(t: u32) -> Option<ParamKind> {
    if t == OSSL_PARAM_UTF8_PTR {
        Some(ParamKind::Utf8Ptr)
    } else if t == OSSL_PARAM_UTF8_STRING {
        Some(ParamKind::Utf8String)
    } else if t == OSSL_PARAM_INTEGER {
        Some(ParamKind::Int)
    } else if t == OSSL_PARAM_UNSIGNED_INTEGER {
        Some(ParamKind::UInt)
    } else if t == OSSL_PARAM_OCTET_STRING {
        Some(ParamKind::OctetString)
    } else {
        None
    }
}

/// The name of a variant.
pub open spec fn kind_name(k: ParamKind) -> Seq<char> {
    match k {
        ParamKind::Utf8Ptr => "Utf8Ptr"@,
        ParamKind::Utf8String => "Utf8String"@,
        ParamKind::Int => "Int"@,
        ParamKind::UInt => "UInt"@,
        ParamKind::OctetString => "OctetString"@,
    }
}

/// A typed view of one parameter record: which variant, and the record.
pub struct OSSLParamView {
    /// The variant.
    pub kind: ParamKind,
    /// The record.
    pub param: OsslParamView,
}

/// The data of an `OSSL_PARAM_UTF8_PTR` record: the caller's record, borrowed.
#[derive(Debug)]
pub struct Utf8PtrData<'a> {
    /// The record.
    pub param: &'a mut OSSL_PARAM,
}

/// The data of an `OSSL_PARAM_UTF8_STRING` record: the caller's record, borrowed.
#[derive(Debug)]
pub struct Utf8StringData<'a> {
    /// The record.
    pub param: &'a mut OSSL_PARAM,
}

/// The data of an `OSSL_PARAM_INTEGER` record: the caller's record, borrowed.
#[derive(Debug)]
pub struct IntData<'a> {
    /// The record.
    pub param: &'a mut OSSL_PARAM,
}

/// The data of an `OSSL_PARAM_UNSIGNED_INTEGER` record: the caller's record, borrowed.
#[derive(Debug)]
pub struct UIntData<'a> {
    /// The record.
    pub param: &'a mut OSSL_PARAM,
}

/// The data of an `OSSL_PARAM_OCTET_STRING` record: the caller's record, borrowed.
#[derive(Debug)]
pub struct OctetStringData<'a> {
    /// The record.
    pub param: &'a mut OSSL_PARAM,
}

impl<'a> View for Utf8PtrData<'a> {
    type V = OsslParamView;

    open spec fn view(&self) -> OsslParamView {
        (*self.param)@
    }
}

impl<'a> View for Utf8StringData<'a> {
    type V = OsslParamView;

    open spec fn view(&self) -> OsslParamView {
        (*self.param)@
    }
}

impl<'a> View for IntData<'a> {
    type V = OsslParamView;

    open spec fn view(&self) -> OsslParamView {
        (*self.param)@
    }
}

impl<'a> View for UIntData<'a> {
    type V = OsslParamView;

    open spec fn view(&self) -> OsslParamView {
        (*self.param)@
    }
}

impl<'a> View for OctetStringData<'a> {
    type V = OsslParamView;

    open spec fn view(&self) -> OsslParamView {
        (*self.param)@
    }
}

/// A parameter record of one of the data types that the library reads and
/// writes, viewed through that type. It borrows the caller's record: what
/// is set through it is written into that record.
#[derive(Debug)]
pub enum OSSLParam<'a> {
    /// A record of type `OSSL_PARAM_UTF8_PTR`: its data refers to a string.
    Utf8Ptr(Utf8PtrData<'a>),
    /// A record of type `OSSL_PARAM_UTF8_STRING`: its data is a string.
    Utf8String(Utf8StringData<'a>),
    /// A record of type `OSSL_PARAM_INTEGER`: a signed integer.
    Int(IntData<'a>),
    /// A record of type `OSSL_PARAM_UNSIGNED_INTEGER`: an unsigned integer.
    UInt(UIntData<'a>),
    /// A record of type `OSSL_PARAM_OCTET_STRING`: a string of bytes.
    OctetString(OctetStringData<'a>),
}

impl<'a> View for OSSLParam<'a> {
    type V = OSSLParamView;

    open spec fn view(&self) -> OSSLParamView {
        match self {
            OSSLParam::Utf8Ptr(d) => OSSLParamView { kind: ParamKind::Utf8Ptr, param: d@ },
            OSSLParam::Utf8String(d) => OSSLParamView { kind: ParamKind::Utf8String, param: d@ },
            OSSLParam::Int(d) => OSSLParamView { kind: ParamKind::Int, param: d@ },
            OSSLParam::UInt(d) => OSSLParamView { kind: ParamKind::UInt, param: d@ },
            OSSLParam::OctetString(d) => OSSLParamView { kind: ParamKind::OctetString, param: d@ },
        }
    }
}

/// A value that borrows one parameter record.
///
/// `place` is that borrow: its current value is the record as the value
/// sees it now, and its final value is what the record's owner finds in it
/// once the value is gone.
pub trait BorrowedRecord: View {
    /// The borrow of the record.
    spec fn place(&self) -> &mut OSSL_PARAM;
}

impl<'a> BorrowedRecord for Utf8PtrData<'a> {
    open spec fn place(&self) -> &mut OSSL_PARAM {
        self.param
    }
}

impl<'a> BorrowedRecord for Utf8StringData<'a> {
    open spec fn place(&self) -> &mut OSSL_PARAM {
        self.param
    }
}

impl<'a> BorrowedRecord for IntData<'a> {
    open spec fn place(&self) -> &mut OSSL_PARAM {
        self.param
    }
}

impl<'a> BorrowedRecord for UIntData<'a> {
    open spec fn place(&self) -> &mut OSSL_PARAM {
        self.param
    }
}

impl<'a> BorrowedRecord for OctetStringData<'a> {
    open spec fn place(&self) -> &mut OSSL_PARAM {
        self.param
    }
}

impl<'a> BorrowedRecord for OSSLParam<'a> {
    open spec fn place(&self) -> &mut OSSL_PARAM {
        match self {
            OSSLParam::Utf8Ptr(d) => d.param,
            OSSLParam::Utf8String(d) => d.param,
            OSSLParam::Int(d) => d.param,
            OSSLParam::UInt(d) => d.param,
            OSSLParam::OctetString(d) => d.param,
        }
    }
}

impl<'a> Utf8PtrData<'a> {
    /// Views a record as `OSSL_PARAM_UTF8_PTR` data, borrowing it; an error
    /// when the record has another data type.
    pub fn try_from(param: &'a mut OSSL_PARAM) -> (r: Result<Utf8PtrData<'a>, OSSLParamError>)
        ensures
            r is Ok <==> old(param).data_type == OSSL_PARAM_UTF8_PTR,
            r matches Ok(d) ==> d@ == old(param)@ && *final(d.param) == *final(param),
            r matches Err(e) ==> *final(param) == *old(param) && e@ == "tried to make Utf8PtrData from OSSL_PARAM with data_type != OSSL_PARAM_UTF8_PTR"@,
    {
        if param.data_type == OSSL_PARAM_UTF8_PTR {
            Ok(Utf8PtrData { param })
        } else {
            Err(String::from_str("tried to make Utf8PtrData from OSSL_PARAM with data_type != OSSL_PARAM_UTF8_PTR"))
        }
    }
}

impl<'a> Utf8StringData<'a> {
    /// Views a record as `OSSL_PARAM_UTF8_STRING` data, borrowing it; an
    /// error when the record has another data type.
    pub fn try_from(param: &'a mut OSSL_PARAM) -> (r: Result<Utf8StringData<'a>, OSSLParamError>)
        ensures
            r is Ok <==> old(param).data_type == OSSL_PARAM_UTF8_STRING,
            r matches Ok(d) ==> d@ == old(param)@ && *final(d.param) == *final(param),
            r matches Err(e) ==> *final(param) == *old(param) && e@ == "tried to make Utf8StringData from OSSL_PARAM with data_type != OSSL_PARAM_UTF8_STRING"@,
    {
        if param.data_type == OSSL_PARAM_UTF8_STRING {
            Ok(Utf8StringData { param })
        } else {
            Err(String::from_str("tried to make Utf8StringData from OSSL_PARAM with data_type != OSSL_PARAM_UTF8_STRING"))
        }
    }
}

impl<'a> IntData<'a> {
    /// Views a record as `OSSL_PARAM_INTEGER` data, borrowing it; an error
    /// when the record has another data type.
    pub fn try_from(param: &'a mut OSSL_PARAM) -> (r: Result<IntData<'a>, OSSLParamError>)
        ensures
            r is Ok <==> old(param).data_type == OSSL_PARAM_INTEGER,
            r matches Ok(d) ==> d@ == old(param)@ && *final(d.param) == *final(param),
            r matches Err(e) ==> *final(param) == *old(param) && e@ == "tried to make IntData from OSSL_PARAM with data_type != OSSL_PARAM_INTEGER"@,
    {
        if param.data_type == OSSL_PARAM_INTEGER {
            Ok(IntData { param })
        } else {
            Err(String::from_str("tried to make IntData from OSSL_PARAM with data_type != OSSL_PARAM_INTEGER"))
        }
    }
}

impl<'a> UIntData<'a> {
    /// Views a record as `OSSL_PARAM_UNSIGNED_INTEGER` data, borrowing it;
    /// an error when the record has another data type.
    pub fn try_from(param: &'a mut OSSL_PARAM) -> (r: Result<UIntData<'a>, OSSLParamError>)
        ensures
            r is Ok <==> old(param).data_type == OSSL_PARAM_UNSIGNED_INTEGER,
            r matches Ok(d) ==> d@ == old(param)@ && *final(d.param) == *final(param),
            r matches Err(e) ==> *final(param) == *old(param) && e@ == "tried to make UIntData from OSSL_PARAM with data_type != OSSL_PARAM_UNSIGNED_INTEGER"@,
    {
        if param.data_type == OSSL_PARAM_UNSIGNED_INTEGER {
            Ok(UIntData { param })
        } else {
            Err(String::from_str("tried to make UIntData from OSSL_PARAM with data_type != OSSL_PARAM_UNSIGNED_INTEGER"))
        }
    }
}

impl<'a> OctetStringData<'a> {
    /// Views a record as `OSSL_PARAM_OCTET_STRING` data, borrowing it; an
    /// error when the record has another data type.
    pub fn try_from(param: &'a mut OSSL_PARAM) -> (r: Result<OctetStringData<'a>, OSSLParamError>)
        ensures
            r is Ok <==> old(param).data_type == OSSL_PARAM_OCTET_STRING,
            r matches Ok(d) ==> d@ == old(param)@ && *final(d.param) == *final(param),
            r matches Err(e) ==> *final(param) == *old(param) && e@ == "tried to make OctetStringData from OSSL_PARAM with data_type != OSSL_PARAM_OCTET_STRING"@,
    {
        if param.data_type == OSSL_PARAM_OCTET_STRING {
            Ok(OctetStringData { param })
        } else {
            Err(String::from_str("tried to make OctetStringData from OSSL_PARAM with data_type != OSSL_PARAM_OCTET_STRING"))
        }
    }
}

impl<'a> OSSLParam<'a> {
    /// Views a record through its data type, borrowing it, so that what is
    /// set through the parameter is written into the record; an error when
    /// the library does not handle that data type.
    pub fn try_from(p: &'a mut OSSL_PARAM) -> (r: Result<OSSLParam<'a>, OSSLParamError>)
        ensures
            r is Ok <==> kind_of_data_type(old(p).data_type) is Some,
            r matches Ok(q) ==> q@.param == old(p)@ && Some(q@.kind) == kind_of_data_type(
                old(p).data_type,
            ) && *q.place() == *old(p) && *final(q.place()) == *final(p),
            r matches Err(e) ==> *final(p) == *old(p) && e@
                == "Couldn't convert to OSSLParam from *mut OSSL_PARAM"@,
    {
        if p.data_type == OSSL_PARAM_UTF8_PTR {
            Ok(OSSLParam::Utf8Ptr(Utf8PtrData { param: p }))
        } else if p.data_type == OSSL_PARAM_UTF8_STRING {
            Ok(OSSLParam::Utf8String(Utf8StringData { param: p }))
        } else if p.data_type == OSSL_PARAM_INTEGER {
            Ok(OSSLParam::Int(IntData { param: p }))
        } else if p.data_type == OSSL_PARAM_UNSIGNED_INTEGER {
            Ok(OSSLParam::UInt(UIntData { param: p }))
        } else if p.data_type == OSSL_PARAM_OCTET_STRING {
            Ok(OSSLParam::OctetString(OctetStringData { param: p }))
        } else {
            Err(String::from_str("Couldn't convert to OSSLParam from *mut OSSL_PARAM"))
        }
    }

    /// Views the record that a possibly `NULL` reference gives; an error for
    /// `NULL` (`None`), and otherwise as [`OSSLParam::try_from`].
    pub fn try_from_nullable(p: Option<&'a mut OSSL_PARAM>) -> (r: Result<OSSLParam<'a>, OSSLParamError>)
        ensures
            match p {
                None => r matches Err(e) && e@ == "Couldn't convert to OSSLParam from null pointer"@,
                Some(q) => (r is Ok <==> kind_of_data_type(q.data_type) is Some) && (r matches Ok(v)
                    ==> v@.param == q@ && Some(v@.kind) == kind_of_data_type(q.data_type)
                    && *final(v.place()) == *final(q)) && (r matches Err(e) ==> *final(q) == *q && e@
                    == "Couldn't convert to OSSLParam from *mut OSSL_PARAM"@),
            },
    {
        match p {
            Some(q) => OSSLParam::try_from(q),
            None => Err(String::from_str("Couldn't convert to OSSLParam from null pointer")),
        }
    }

    /// The caller's record that this parameter views.
    pub fn get_c_struct(&self) -> (r: &OSSL_PARAM)
        ensures
            *r == *self.place(),
            r@ == self@.param,
    {
        match self {
            OSSLParam::Utf8Ptr(d) => &*d.param,
            OSSLParam::Utf8String(d) => &*d.param,
            OSSLParam::Int(d) => &*d.param,
            OSSLParam::UInt(d) => &*d.param,
            OSSLParam::OctetString(d) => &*d.param,
        }
    }

    /// The caller's record that this parameter views, for changing it in place.
    pub fn get_c_struct_mut(&mut self) -> (r: &mut OSSL_PARAM)
        ensures
            *r == *old(self).place(),
            final(self)@.kind == old(self)@.kind,
            *final(self).place() == *final(r),
            *final(final(self).place()) == *final(old(self).place()),
    {
        match self {
            OSSLParam::Utf8Ptr(d) => &mut *d.param,
            OSSLParam::Utf8String(d) => &mut *d.param,
            OSSLParam::Int(d) => &mut *d.param,
            OSSLParam::UInt(d) => &mut *d.param,
            OSSLParam::OctetString(d) => &mut *d.param,
        }
    }

    /// The key (the name) of the parameter; `None` when the record has none,
    /// as only the record that ends a list should.
    pub fn get_key(&self) -> (r: Option<&KeyType>)
        ensures
            match r {
                Some(k) => self@.param.key == Some(k@),
                None => self@.param.key is None,
            },
    {
        match &self.get_c_struct().key {
            Some(k) => Some(k.as_str()),
            None => None,
        }
    }

    /// The data type of the record; `None` when it has no key, which marks
    /// the end of a list and carries no data type.
    pub fn get_data_type(&self) -> (r: Option<u32>)
        ensures
            r == (if self@.param.key is Some {
                Some(self@.param.data_type)
            } else {
                None
            }),
    {
        let p = self.get_c_struct();
        if p.key.is_none() {
            return None;
        }
        Some(p.data_type)
    }

    /// Whether the parameter has been set: its `return_size` is no longer
    /// [`OSSL_PARAM_UNMODIFIED`].
    pub fn modified(&self) -> (r: bool)
        ensures
            r == (self@.param.return_size != OSSL_PARAM_UNMODIFIED),
    {
        self.get_c_struct().return_size != OSSL_PARAM_UNMODIFIED
    }

    /// The name of the variant, such as `"Int"` for [`OSSLParam::Int`].
    pub fn variant_name(&self) -> (r: String)
        ensures
            r@ == kind_name(self@.kind),
    {
        match self {
            OSSLParam::Utf8Ptr(_) => {
                proof {
                    reveal_strlit("Utf8Ptr");
                }
                String::from_str("Utf8Ptr")
            },
            OSSLParam::Utf8String(_) => {
                proof {
                    reveal_strlit("Utf8String");
                }
                String::from_str("Utf8String")
            },
            OSSLParam::Int(_) => {
                proof {
                    reveal_strlit("Int");
                }
                String::from_str("Int")
            },
            OSSLParam::UInt(_) => {
                proof {
                    reveal_strlit("UInt");
                }
                String::from_str("UInt")
            },
            OSSLParam::OctetString(_) => {
                proof {
                    reveal_strlit("OctetString");
                }
                String::from_str("OctetString")
            },
        }
    }
}

/// Stores values of type `T` in a parameter.
///
/// The library implements it on [`OSSLParam`] for `i32`, `i64` (integer
/// parameters), `u32`, `u64` (unsigned integer parameters), `&[u8]` (octet
/// string parameters) and `&str` (both string parameter types).
pub trait OSSLParamSetter<T>: View<V = OSSLParamView> + BorrowedRecord {
    /// The parameter after storing `value` in `p`, and whether that succeeded.
    spec fn set_spec(p: OSSLParamView, value: T) -> (OSSLParamView, bool);

    /// Whether a parameter of variant `kind` holds values of type `T`.
    spec fn holds(kind: ParamKind) -> bool;

    /// The name of the type `T`, as an error message gives it.
    spec fn value_type_name() -> Seq<char>;

    /// Stores `value` in the parameter, when its variant holds values of
    /// type `T`; an error otherwise, or when the data does not fit.
    fn set_inner(&mut self, value: T) -> (r: Result<(), OSSLParamError>)
        ensures
            final(self)@ == Self::set_spec(old(self)@, value).0,
            r is Ok <==> Self::set_spec(old(self)@, value).1,
            !Self::holds(old(self)@.kind) ==> (r matches Err(e) && e@ == type_error_message(
                Self::value_type_name(),
                old(self)@.kind,
            )),
            !Self::holds(old(self)@.kind) ==> final(self)@ == old(self)@,
            *final(final(self).place()) == *final(old(self).place()),
    ;
}

/// Reads values of type `T` from a parameter.
///
/// The library implements it on [`OSSLParam`] for `i32`, `i64`, `u32`,
/// `u64`, `Vec<u8>` (octet strings), [`CStrBytes`] and `String` (both
/// string types).
pub trait OSSLParamGetter<T: View>: View<V = OSSLParamView> {
    /// The value of type `T` that `p` holds, if it holds one.
    spec fn get_spec(p: OSSLParamView) -> Option<T::V>;

    /// The value of type `T` that the parameter holds: `None` when its
    /// variant holds no such values, when it has no data, or when the data
    /// does not fit in `T`.
    fn get_inner(&self) -> (r: Option<T>)
        ensures
            opt_view(r) == Self::get_spec(self@),
    ;
}

/// The data of one parameter data type.
pub trait OSSLParamData: View<V = OsslParamView> + BorrowedRecord + Sized {
    /// The record that `new_null` makes for `key`.
    spec fn null_spec(key: Seq<char>) -> OsslParamView;

    /// A new record of this data type under `key`, whose value is `NULL`:
    /// no data, data size 0.
    fn new_null(key: &KeyType) -> (r: Self)
        ensures
            r@ == Self::null_spec(key@),
    ;
}

/// The data of one parameter data type that can store values of type `T`.
pub trait TypedOSSLParamData<T>: OSSLParamData {
    /// The record after storing `value` in `p`, and whether that succeeded.
    spec fn typed_set_spec(p: OsslParamView, value: T) -> (OsslParamView, bool);

    /// Stores `value` in the record, adjusting its `return_size`; an error
    /// when the data pointer is `NULL` or the value does not fit.
    fn set(&mut self, value: T) -> (r: Result<(), OSSLParamError>)
        ensures
            final(self)@ == Self::typed_set_spec(old(self)@, value).0,
            r is Ok <==> Self::typed_set_spec(old(self)@, value).1,
            *final(final(self).place()) == *final(old(self).place()),
    ;
}

/// The record that every `new_null` makes: the key, the data type, and no
/// data.
pub open spec fn null_record(key: Seq<char>, data_type: u32) -> OsslParamView {
    OsslParamView { key: Some(key), data_type, data: None, data_size: 0, return_size: 0 }
}

/// Calls `Box::leak`, which gives up the box and hands back a mutable
/// reference to the record it held, for as long as the program runs.
#[verifier::external_body]
fn leak_record<'a>(b: Box<OSSL_PARAM>) -> (r: &'a mut OSSL_PARAM)
    ensures
        *r == *b,
{
    Box::leak(b)
}

/// A new record with `key` and `data_type` and no data, that lives as
/// long as the program.
pub fn new_null_record<'a>(key: &KeyType, data_type: u32) -> (r: &'a mut OSSL_PARAM)
    ensures
        r@ == null_record(key@, data_type),
{
    let rec = OSSL_PARAM {
        key: Some(key.to_owned()),
        data_type,
        data: None,
        data_size: 0,
        return_size: 0,
    };
    leak_record(Box::new(rec))
}

/// The error message for a value of type `value_type` that a parameter of
/// variant `kind` cannot hold.
pub open spec fn type_error_message(value_type: Seq<char>, kind: ParamKind) -> Seq<char> {
    "Type "@ + value_type + " could not be stored in OSSLParam::"@ + kind_name(kind)
}

/// The error message for a value of type `value_type` that a parameter of
/// variant `variant` cannot hold.
pub fn type_error(value_type: &str, param: &OSSLParam) -> (r: OSSLParamError)
    ensures
        r@ == type_error_message(value_type@, param@.kind),
{
    String::from_str("Type ").concat(value_type).concat(" could not be stored in OSSLParam::").concat(
        param.variant_name().as_str(),
    )
}

impl<'a> OSSLParam<'a> {
    /// Stores `value` in the parameter, and so in the caller's record: see
    /// [`OSSLParamSetter`].
    pub fn set<T>(&mut self, value: T) -> (r: Result<(), OSSLParamError>)
        where Self: OSSLParamSetter<T>,
        ensures
            final(self)@ == <Self as OSSLParamSetter<T>>::set_spec(old(self)@, value).0,
            r is Ok <==> <Self as OSSLParamSetter<T>>::set_spec(old(self)@, value).1,
            !<Self as OSSLParamSetter<T>>::holds(old(self)@.kind) ==> (r matches Err(e) && e@
                == type_error_message(<Self as OSSLParamSetter<T>>::value_type_name(), old(self)@.kind)),
            *final(final(self).place()) == *final(old(self).place()),
    {
        self.set_inner(value)
    }

    /// The value of type `T` that the parameter holds: see [`OSSLParamGetter`].
    pub fn get<T: View>(&self) -> (r: Option<T>)
        where Self: OSSLParamGetter<T>,
        ensures
            opt_view(r) == <Self as OSSLParamGetter<T>>::get_spec(self@),
    {
        self.get_inner()
    }
}

/// The `n`-byte two's complement form of `v`, as a number.
fn twos_complement_exec(v: i128, n: usize) -> (u: u64)
    requires
        1 <= n <= 8,
        fits_signed(v as int, n as nat) || fits_unsigned(v as int, n as nat),
    ensures
        u == twos_complement(v as int, n as nat),
{
    proof {
        lemma_pow256_values();
    }
    let m = pow256_exec(n);
    if v >= 0 {
        v as u64
    } else {
        (v + m as i128) as u64
    }
}

/// The content of a constant parameter record: the key, the type, the data
/// (whose length is the declared size) and an unmodified return size.
pub open spec fn const_param(key: Seq<char>, data_type: u32, data: Option<Seq<u8>>) -> OsslParamView {
    OsslParamView {
        key: Some(key),
        data_type,
        data,
        data_size: match data {
            Some(d) => d.len() as usize,
            None => 0,
        },
        return_size: OSSL_PARAM_UNMODIFIED,
    }
}

impl<'a> OSSLParam<'a> {
    /// A constant `OSSL_PARAM_UTF8_PTR` record: for `Some` it refers to the
    /// string (its UTF-8 bytes and a terminating NUL), with the data size the
    /// string's length, not that of a pointer; for `None` it has no data.
    pub fn new_const_utf8ptr(key: &KeyType, value: Option<&str>) -> (r: CONST_OSSL_PARAM)
        ensures
            r@ == match value {
                Some(v) => OsslParamView {
                    key: Some(key@),
                    data_type: OSSL_PARAM_UTF8_PTR,
                    data: Some(encode_utf8(v@).push(0u8)),
                    data_size: encode_utf8(v@).len() as usize,
                    return_size: OSSL_PARAM_UNMODIFIED,
                },
                None => const_param(key@, OSSL_PARAM_UTF8_PTR, None),
            },
    {
        let (data, data_size) = match value {
            Some(v) => {
                let bytes = v.as_bytes();
                let mut target = copy_prefix(bytes, bytes.len());
                assert(bytes@.subrange(0, bytes@.len() as int) =~= bytes@);
                target.push(0u8);
                (Some(target), bytes.len())
            },
            None => (None, 0),
        };
        OSSL_PARAM {
            key: Some(key.to_owned()),
            data_type: OSSL_PARAM_UTF8_PTR,
            data,
            data_size,
            return_size: OSSL_PARAM_UNMODIFIED,
        }
    }

    /// A constant `OSSL_PARAM_UTF8_STRING` record holding `value` (its UTF-8
    /// bytes, whose count is the data size), or no data for `None`.
    pub fn new_const_utf8string(key: &KeyType, value: Option<&str>) -> (r: CONST_OSSL_PARAM)
        ensures
            r@ == const_param(
                key@,
                OSSL_PARAM_UTF8_STRING,
                match value {
                    Some(v) => Some(encode_utf8(v@)),
                    None => None,
                },
            ),
    {
        let (data, data_size) = match value {
            Some(v) => {
                let bytes = v.as_bytes();
                let copy = copy_prefix(bytes, bytes.len());
                assert(bytes@.subrange(0, bytes@.len() as int) =~= bytes@);
                (Some(copy), bytes.len())
            },
            None => (None, 0),
        };
        OSSL_PARAM {
            key: Some(key.to_owned()),
            data_type: OSSL_PARAM_UTF8_STRING,
            data,
            data_size,
            return_size: OSSL_PARAM_UNMODIFIED,
        }
    }

    /// A constant `OSSL_PARAM_INTEGER` record holding `value` in the size of
    /// its type, or no data for `None`.
    pub fn new_const_int<T: PrimIntMarker>(key: &KeyType, value: Option<&T>) -> (r: CONST_OSSL_PARAM)
        ensures
            r@ == const_param(
                key@,
                OSSL_PARAM_INTEGER,
                match value {
                    Some(v) => Some(
                        le_encode(twos_complement(v.spec_value(), T::spec_width()), T::spec_width()),
                    ),
                    None => None,
                },
            ),
    {
        let (data, data_size) = match value {
            Some(v) => {
                let n = T::width();
                let u = twos_complement_exec(v.widen(), n);
                let bytes = encode_le(u, n);
                proof {
                    lemma_le_encode_len(u as nat, n as nat);
                }
                (Some(bytes), n)
            },
            None => (None, 0),
        };
        OSSL_PARAM {
            key: Some(key.to_owned()),
            data_type: OSSL_PARAM_INTEGER,
            data,
            data_size,
            return_size: OSSL_PARAM_UNMODIFIED,
        }
    }

    /// A constant `OSSL_PARAM_UNSIGNED_INTEGER` record holding `value` in the
    /// size of its type, or no data for `None`.
    pub fn new_const_uint<T: PrimUIntMarker>(key: &KeyType, value: Option<&T>) -> (r: CONST_OSSL_PARAM)
        ensures
            r@ == const_param(
                key@,
                OSSL_PARAM_UNSIGNED_INTEGER,
                match value {
                    Some(v) => Some(le_encode(v.spec_value() as nat, T::spec_width())),
                    None => None,
                },
            ),
    {
        let (data, data_size) = match value {
            Some(v) => {
                let n = T::width();
                let u = twos_complement_exec(v.widen(), n);
                let bytes = encode_le(u, n);
                proof {
                    lemma_le_encode_len(u as nat, n as nat);
                }
                (Some(bytes), n)
            },
            None => (None, 0),
        };
        OSSL_PARAM {
            key: Some(key.to_owned()),
            data_type: OSSL_PARAM_UNSIGNED_INTEGER,
            data,
            data_size,
            return_size: OSSL_PARAM_UNMODIFIED,
        }
    }

    /// A constant `OSSL_PARAM_OCTET_STRING` record holding `value` (whose
    /// length is the data size), or no data for `None`.
    pub fn new_const_octetstring(key: &KeyType, value: Option<&[u8]>) -> (r: CONST_OSSL_PARAM)
        ensures
            r@ == const_param(
                key@,
                OSSL_PARAM_OCTET_STRING,
                match value {
                    Some(v) => Some(v@),
                    None => None,
                },
            ),
    {
        let (data, data_size) = match value {
            Some(v) => {
                let copy = copy_prefix(v, v.len());
                assert(v@.subrange(0, v@.len() as int) =~= v@);
                (Some(copy), v.len())
            },
            None => (None, 0),
        };
        OSSL_PARAM {
            key: Some(key.to_owned()),
            data_type: OSSL_PARAM_OCTET_STRING,
            data,
            data_size,
            return_size: OSSL_PARAM_UNMODIFIED,
        }
    }
}

/// The typed view of a record, when the library handles its data type.
pub open spec fn typed_view(p: OsslParamView) -> Option<OSSLParamView> {
    match kind_of_data_type(p.data_type) {
        Some(k) => Some(OSSLParamView { kind: k, param: p }),
        None => None,
    }
}

/// The parameters that iterating over `ps` from position `pos` yields: one
/// per record, up to the record that ends the list (the one without a key)
/// or the end of `ps`, passing over the records of data types that the
/// library does not handle.
pub open spec fn params_from(ps: Seq<OsslParamView>, pos: int) -> Seq<OSSLParamView>
    decreases ps.len() - pos,
{
    if pos < 0 || pos >= ps.len() || ps[pos].key is None {
        Seq::empty()
    } else {
        match typed_view(ps[pos]) {
            Some(v) => seq![v] + params_from(ps, pos + 1),
            None => params_from(ps, pos + 1),
        }
    }
}

/// The views of a sequence of parameter records.
pub open spec fn params_view(ps: Seq<OSSL_PARAM>) -> Seq<OsslParamView> {
    ps.map_values(|p: OSSL_PARAM| p@)
}

/// Walks the records of a parameter list, viewing each through its data
/// type and borrowing it, until the record that ends the list. What is set
/// through a parameter it yields is written into the list.
pub struct OSSLParamIterator<'a> {
    rest: Option<&'a mut [OSSL_PARAM]>,
}

impl<'a> OSSLParamIterator<'a> {
    /// The borrow of the records not walked yet; `None` once the walk is over.
    pub closed spec fn rest_place(&self) -> Option<&'a mut [OSSL_PARAM]> {
        self.rest
    }

    /// The records not walked yet.
    pub open spec fn records(&self) -> Seq<OsslParamView> {
        match self.rest_place() {
            Some(s) => params_view(s@),
            None => Seq::empty(),
        }
    }

    /// The parameters that the iterator has yet to yield.
    pub open spec fn remaining(&self) -> Seq<OSSLParamView> {
        params_from(self.records(), 0)
    }

    /// An iterator over `params`, starting at its first record.
    pub fn new(params: &'a mut [OSSL_PARAM]) -> (r: OSSLParamIterator<'a>)
        ensures
            r.rest_place() matches Some(s) && s@ == old(params)@ && final(s)@ == final(params)@,
            r.records() == params_view(old(params)@),
    {
        OSSLParamIterator { rest: Some(params) }
    }

    /// The next parameter, borrowing the next record. `None` past the last
    /// record and at the record that ends the list, where the walk is over;
    /// `None` also at a record of a data type that the library does not
    /// handle, which the walk then steps over, so that the following call
    /// goes on with the record after it.
    pub fn next(&mut self) -> (r: Option<OSSLParam<'a>>)
        ensures
            match old(self).rest_place() {
                None => r is None && final(self).rest_place() is None,
                Some(s) => if s@.len() == 0 || s@[0].key is None {
                    &&& r is None
                    &&& final(self).rest_place() is None
                    &&& final(s)@ == s@
                } else if typed_view(s@[0]@) is None {
                    &&& r is None
                    &&& final(self).rest_place() matches Some(t)
                    &&& t@ == s@.skip(1)
                    &&& final(s)@ == seq![s@[0]] + final(t)@
                } else {
                    &&& r matches Some(q)
                    &&& Some(q@) == typed_view(s@[0]@)
                    &&& final(self).rest_place() matches Some(t)
                    &&& t@ == s@.skip(1)
                    &&& final(s)@ == seq![*final(q.place())] + final(t)@
                },
            },
            match r {
                Some(p) => old(self).remaining() == seq![p@] + final(self).remaining(),
                None => old(self).remaining() == final(self).remaining(),
            },
    {
        let rest = match self.rest.take() {
            Some(rest) => rest,
            None => {
                return None;
            },
        };
        if rest.len() == 0 {
            return None;
        }
        if rest[0].key.is_none() {
            return None;
        }
        let ghost whole = rest@;
        let (head, tail) = rest.split_at_mut(1);
        proof {
            lemma_params_from_shift(params_view(whole), 0);
            assert(params_view(tail@) =~= params_view(whole).skip(1));
        }
        self.rest = Some(tail);
        let first = match head.first_mut() {
            Some(first) => first,
            None => {
                return None;
            },
        };
        match OSSLParam::try_from(first) {
            Ok(q) => Some(q),
            Err(_) => None,
        }
    }
}

/// Walking from position `i + 1` yields what walking the list without its
/// first record yields from position `i`.
pub proof fn lemma_params_from_shift(ps: Seq<OsslParamView>, i: int)
    requires
        0 <= i,
        ps.len() > 0,
    ensures
        params_from(ps, i + 1) == params_from(ps.skip(1), i),
    decreases ps.len() - i,
{
    if i + 1 < ps.len() && ps[i + 1].key is Some {
        lemma_params_from_shift(ps, i + 1);
    }
}

} // verus!
