//! What holds of parameters across operations: a value read back after it
//! was stored is the value stored, a refused store changes nothing, a store
//! marks the parameter modified, and a list is walked up to its end record.
use vstd::prelude::*;
use vstd::utf8::{encode_utf8, encode_utf8_decode_utf8, encode_utf8_valid_utf8};
use crate::bindings::{
    OSSL_PARAM_INTEGER, OSSL_PARAM_OCTET_STRING, OSSL_PARAM_UNMODIFIED,
    OSSL_PARAM_UNSIGNED_INTEGER, OSSL_PARAM_UTF8_PTR, OSSL_PARAM_UTF8_STRING,
};
use super::{
    const_param, cstr_prefix, kind_of_data_type, param_region, params_from, store_int, stored_int,
    string_of, typed_view, CStrBytes, OSSLParam, OSSLParamGetter, OSSLParamSetter, OSSLParamView,
    OsslParamView, ParamKind,
};
use super::encoding::{
    fits_signed, fits_unsigned, le_encode, lemma_le_roundtrip, lemma_pow256_step,
    lemma_signed_of_fits, lemma_twos_complement_roundtrip, pow256, twos_complement,
};

verus! {

/// Whether a record has data memory that holds its declared size, and that
/// size is one to eight bytes: the records an integer can be stored in.
pub open spec fn int_storable(p: OsslParamView) -> bool {
    &&& p.data is Some
    &&& 1 <= p.data_size <= 8
    &&& p.data_size <= p.data->0.len()
}

/// Storing an integer that fits in such a record succeeds, and the record
/// then holds that integer, with `return_size` the data size and key, type
/// and data size unchanged.
pub proof fn lemma_store_int_then_read(p: OsslParamView, v: int, signed: bool)
    requires
        int_storable(p),
        if signed {
            fits_signed(v, p.data_size as nat)
        } else {
            fits_unsigned(v, p.data_size as nat)
        },
    ensures
        store_int(p, v, signed).1,
        stored_int(store_int(p, v, signed).0, signed) == Some(v),
        store_int(p, v, signed).0.return_size == p.data_size,
        store_int(p, v, signed).0.key == p.key,
        store_int(p, v, signed).0.data_type == p.data_type,
        store_int(p, v, signed).0.data_size == p.data_size,
{
    let n = p.data_size as nat;
    let buf = p.data->0;
    lemma_pow256_step((n - 1) as nat);
    let u = twos_complement(v, n);
    if signed {
        lemma_twos_complement_roundtrip(v, n);
    }
    lemma_le_roundtrip(u, n);
    let nb = le_encode(u, n) + buf.skip(n as int);
    assert(nb.subrange(0, n as int) =~= le_encode(u, n));
}

/// An integer store succeeds only with a value that fits the record's
/// size, and what it stored then reads back as that value, with
/// `return_size` the data size; nothing else of the record changes but its
/// data bytes.
pub proof fn lemma_store_int_success_means_fit(p: OsslParamView, v: int, signed: bool)
    ensures
        store_int(p, v, signed).1 ==> (if signed {
            fits_signed(v, p.data_size as nat)
        } else {
            fits_unsigned(v, p.data_size as nat)
        }),
        store_int(p, v, signed).1 ==> !signed ==> 0 <= v < pow256(p.data_size as nat),
        store_int(p, v, signed).1 ==> stored_int(store_int(p, v, signed).0, signed) == Some(v),
        store_int(p, v, signed).1 ==> store_int(p, v, signed).0.return_size == p.data_size,
        store_int(p, v, signed).0.key == p.key,
        store_int(p, v, signed).0.data_type == p.data_type,
        store_int(p, v, signed).0.data_size == p.data_size,
{
    if store_int(p, v, signed).1 {
        lemma_store_int_then_read(p, v, signed);
    }
}

/// A refused integer store leaves the record as it was.
pub proof fn lemma_store_int_refused_unchanged(p: OsslParamView, v: int, signed: bool)
    ensures
        !store_int(p, v, signed).1 ==> store_int(p, v, signed).0 == p,
{
}

/// The signed value of an integer record fits in its size.
pub proof fn lemma_stored_int_fits(p: OsslParamView)
    ensures
        stored_int(p, true) matches Some(v) ==> fits_signed(v, p.data_size as nat),
        stored_int(p, false) matches Some(v) ==> fits_unsigned(v, p.data_size as nat),
{
    if let Some(r) = param_region(p) {
        if 1 <= p.data_size <= 8 {
            super::encoding::lemma_le_value_bound(r);
            lemma_signed_of_fits(super::encoding::le_value(r), p.data_size as nat);
        }
    }
}

/// Setting an `i64` on an integer parameter whose record has room for it
/// succeeds, reading an `i64` back gives it, and the parameter is then
/// modified.
pub proof fn lemma_set_get_i64(p: OSSLParamView, v: i64)
    requires
        p.kind == ParamKind::Int,
        int_storable(p.param),
        fits_signed(v as int, p.param.data_size as nat),
    ensures
        <OSSLParam as OSSLParamSetter<i64>>::set_spec(p, v).1,
        <OSSLParam as OSSLParamGetter<i64>>::get_spec(
            <OSSLParam as OSSLParamSetter<i64>>::set_spec(p, v).0,
        ) == Some(v),
        <OSSLParam as OSSLParamSetter<i64>>::set_spec(p, v).0.param.return_size
            != OSSL_PARAM_UNMODIFIED,
{
    lemma_store_int_then_read(p.param, v as int, true);
}

/// Setting an `i32` on an integer parameter whose record has room for it
/// succeeds, reading an `i32` back gives it, and the parameter is then
/// modified.
pub proof fn lemma_set_get_i32(p: OSSLParamView, v: i32)
    requires
        p.kind == ParamKind::Int,
        int_storable(p.param),
        fits_signed(v as int, p.param.data_size as nat),
    ensures
        <OSSLParam as OSSLParamSetter<i32>>::set_spec(p, v).1,
        <OSSLParam as OSSLParamGetter<i32>>::get_spec(
            <OSSLParam as OSSLParamSetter<i32>>::set_spec(p, v).0,
        ) == Some(v),
        <OSSLParam as OSSLParamSetter<i32>>::set_spec(p, v).0.param.return_size
            != OSSL_PARAM_UNMODIFIED,
{
    lemma_store_int_then_read(p.param, v as int, true);
}

/// Setting a `u64` on an unsigned integer parameter whose record has room
/// for it succeeds, reading a `u64` back gives it, and the parameter is then
/// modified.
pub proof fn lemma_set_get_u64(p: OSSLParamView, v: u64)
    requires
        p.kind == ParamKind::UInt,
        int_storable(p.param),
        fits_unsigned(v as int, p.param.data_size as nat),
    ensures
        <OSSLParam as OSSLParamSetter<u64>>::set_spec(p, v).1,
        <OSSLParam as OSSLParamGetter<u64>>::get_spec(
            <OSSLParam as OSSLParamSetter<u64>>::set_spec(p, v).0,
        ) == Some(v),
        <OSSLParam as OSSLParamSetter<u64>>::set_spec(p, v).0.param.return_size
            != OSSL_PARAM_UNMODIFIED,
{
    lemma_store_int_then_read(p.param, v as int, false);
}

/// Setting a `u32` on an unsigned integer parameter whose record has room
/// for it succeeds, reading a `u32` back gives it, and the parameter is then
/// modified.
pub proof fn lemma_set_get_u32(p: OSSLParamView, v: u32)
    requires
        p.kind == ParamKind::UInt,
        int_storable(p.param),
        fits_unsigned(v as int, p.param.data_size as nat),
    ensures
        <OSSLParam as OSSLParamSetter<u32>>::set_spec(p, v).1,
        <OSSLParam as OSSLParamGetter<u32>>::get_spec(
            <OSSLParam as OSSLParamSetter<u32>>::set_spec(p, v).0,
        ) == Some(v),
        <OSSLParam as OSSLParamSetter<u32>>::set_spec(p, v).0.param.return_size
            != OSSL_PARAM_UNMODIFIED,
{
    lemma_store_int_then_read(p.param, v as int, false);
}

/// An integer value is refused by every parameter that is not an integer
/// parameter of its signedness, and the parameter stays as it was.
pub proof fn lemma_set_int_wrong_kind(p: OSSLParamView, a: i32, b: i64, c: u32, d: u64)
    ensures
        p.kind != ParamKind::Int ==> <OSSLParam as OSSLParamSetter<i32>>::set_spec(p, a) == (p, false),
        p.kind != ParamKind::Int ==> <OSSLParam as OSSLParamSetter<i64>>::set_spec(p, b) == (p, false),
        p.kind != ParamKind::UInt ==> <OSSLParam as OSSLParamSetter<u32>>::set_spec(p, c) == (p, false),
        p.kind != ParamKind::UInt ==> <OSSLParam as OSSLParamSetter<u64>>::set_spec(p, d) == (p, false),
{
}

/// A refused integer set leaves the parameter as it was.
pub proof fn lemma_set_int_refused_unchanged(p: OSSLParamView, b: i64, d: u64)
    ensures
        !<OSSLParam as OSSLParamSetter<i64>>::set_spec(p, b).1
            ==> <OSSLParam as OSSLParamSetter<i64>>::set_spec(p, b).0 == p,
        !<OSSLParam as OSSLParamSetter<u64>>::set_spec(p, d).1
            ==> <OSSLParam as OSSLParamSetter<u64>>::set_spec(p, d).0 == p,
{
}

/// Reading a C string from bytes that start with a NUL-free string `b`
/// followed by a NUL gives `b`; so does reading it from `b` alone.
pub proof fn lemma_cstr_prefix_of_string(b: Seq<u8>, rest: Seq<u8>)
    requires
        !b.contains(0u8),
    ensures
        cstr_prefix(b.push(0u8) + rest) == b,
        cstr_prefix(b) == b,
    decreases b.len(),
{
    if b.len() == 0 {
        assert((b.push(0u8) + rest)[0] == 0u8);
    } else {
        let t = b.drop_first();
        assert(!t.contains(0u8)) by {
            if t.contains(0u8) {
                let i = choose|i: int| 0 <= i < t.len() && t[i] == 0u8;
                assert(b[i + 1] == 0u8);
            }
        }
        lemma_cstr_prefix_of_string(t, rest);
        assert((b.push(0u8) + rest).drop_first() =~= t.push(0u8) + rest);
        assert(b[0] != 0u8) by {
            assert(b.contains(b[0]) || b[0] != 0u8);
        }
        assert(seq![b[0]] + t =~= b);
    }
}

/// Setting a string on an own-buffer string parameter whose declared size
/// has room for its bytes and a terminating NUL, and whose memory holds that
/// size, succeeds, and reading the string back gives it, when its bytes hold
/// no NUL.
pub proof fn lemma_set_get_utf8_string(p: OSSLParamView, s: &str)
    requires
        p.kind == ParamKind::Utf8String,
        p.param.data is Some,
        encode_utf8(s@).len() < p.param.data_size <= p.param.data->0.len(),
        !encode_utf8(s@).contains(0u8),
    ensures
        <OSSLParam as OSSLParamSetter<&str>>::set_spec(p, s).1,
        <OSSLParam as OSSLParamGetter<String>>::get_spec(
            <OSSLParam as OSSLParamSetter<&str>>::set_spec(p, s).0,
        ) == Some(s@),
        <OSSLParam as OSSLParamGetter<CStrBytes>>::get_spec(
            <OSSLParam as OSSLParamSetter<&str>>::set_spec(p, s).0,
        ) == Some(encode_utf8(s@)),
{
    broadcast use encode_utf8_valid_utf8, encode_utf8_decode_utf8;

    let b = encode_utf8(s@);
    let buf = p.param.data->0;
    let w = b.push(0u8);
    let rest = buf.skip(w.len() as int);
    lemma_cstr_prefix_of_string(b, rest);
}

/// Setting a string on a pointer string parameter that has data memory
/// succeeds, and reading the string back gives it, when its bytes hold no NUL.
pub proof fn lemma_set_get_utf8_ptr(p: OSSLParamView, s: &str)
    requires
        p.kind == ParamKind::Utf8Ptr,
        p.param.data is Some,
        !encode_utf8(s@).contains(0u8),
    ensures
        <OSSLParam as OSSLParamSetter<&str>>::set_spec(p, s).1,
        <OSSLParam as OSSLParamGetter<String>>::get_spec(
            <OSSLParam as OSSLParamSetter<&str>>::set_spec(p, s).0,
        ) == Some(s@),
        <OSSLParam as OSSLParamGetter<CStrBytes>>::get_spec(
            <OSSLParam as OSSLParamSetter<&str>>::set_spec(p, s).0,
        ) == Some(encode_utf8(s@)),
{
    broadcast use encode_utf8_valid_utf8, encode_utf8_decode_utf8;

    let b = encode_utf8(s@);
    lemma_cstr_prefix_of_string(b, Seq::empty());
    assert(b.push(0u8) + Seq::<u8>::empty() =~= b.push(0u8));
}

/// Setting bytes on an octet string parameter whose declared size has room
/// for them and whose memory holds that size succeeds, and reading back
/// gives the bytes followed by what the rest of the declared size held.
pub proof fn lemma_set_get_octets(p: OSSLParamView, v: &[u8])
    requires
        p.kind == ParamKind::OctetString,
        p.param.data is Some,
        v@.len() <= p.param.data_size <= p.param.data->0.len(),
    ensures
        <OSSLParam as OSSLParamSetter<&[u8]>>::set_spec(p, v).1,
        <OSSLParam as OSSLParamGetter<Vec<u8>>>::get_spec(
            <OSSLParam as OSSLParamSetter<&[u8]>>::set_spec(p, v).0,
        ) == Some(v@ + param_region(p.param)->0.skip(v@.len() as int)),
{
    let buf = p.param.data->0;
    let n = p.param.data_size as int;
    assert((v@ + buf.skip(v@.len() as int)).subrange(0, n) =~= v@ + buf.subrange(0, n).skip(
        v@.len() as int,
    ));
}

/// A successful set of a string or of bytes shorter than the largest size
/// marks the parameter modified; a failed one leaves key, type and data as
/// they were.
pub proof fn lemma_set_bytes_marks_modified(p: OSSLParamView, s: &str, v: &[u8])
    ensures
        encode_utf8(s@).len() < OSSL_PARAM_UNMODIFIED ==> (
        <OSSLParam as OSSLParamSetter<&str>>::set_spec(p, s).0.param.return_size
            != OSSL_PARAM_UNMODIFIED || p.kind != ParamKind::Utf8String),
        v@.len() < OSSL_PARAM_UNMODIFIED && p.kind == ParamKind::OctetString ==> (
        <OSSLParam as OSSLParamSetter<&[u8]>>::set_spec(p, v).0.param.return_size
            != OSSL_PARAM_UNMODIFIED),
        !<OSSLParam as OSSLParamSetter<&[u8]>>::set_spec(p, v).1 ==> (
        <OSSLParam as OSSLParamSetter<&[u8]>>::set_spec(p, v).0.param.data == p.param.data
            && <OSSLParam as OSSLParamSetter<&[u8]>>::set_spec(p, v).0.kind == p.kind),
        !<OSSLParam as OSSLParamSetter<&str>>::set_spec(p, s).1 ==> (
        <OSSLParam as OSSLParamSetter<&str>>::set_spec(p, s).0.param.data == p.param.data
            && <OSSLParam as OSSLParamSetter<&str>>::set_spec(p, s).0.kind == p.kind),
{
}

/// On a parameter whose data pointer is `NULL`, setting an integer fails,
/// and so does setting a string on a pointer string parameter; setting a
/// string on an own-buffer string parameter, or bytes on an octet string
/// parameter, is a size query: it succeeds, leaves the data `NULL` and sets
/// `return_size` to the length of what would be stored.
pub proof fn lemma_set_without_data(
    p: OSSLParamView,
    a: i32,
    b: i64,
    c: u32,
    d: u64,
    s: &str,
    v: &[u8],
)
    requires
        p.param.data is None,
    ensures
        !<OSSLParam as OSSLParamSetter<i32>>::set_spec(p, a).1,
        !<OSSLParam as OSSLParamSetter<i64>>::set_spec(p, b).1,
        !<OSSLParam as OSSLParamSetter<u32>>::set_spec(p, c).1,
        !<OSSLParam as OSSLParamSetter<u64>>::set_spec(p, d).1,
        p.kind == ParamKind::Utf8Ptr ==> !<OSSLParam as OSSLParamSetter<&str>>::set_spec(p, s).1,
        p.kind == ParamKind::Utf8String ==> <OSSLParam as OSSLParamSetter<&str>>::set_spec(p, s)
            == (OSSLParamView {
            kind: p.kind,
            param: OsslParamView { return_size: encode_utf8(s@).len() as usize, ..p.param },
        }, true),
        p.kind == ParamKind::OctetString ==> <OSSLParam as OSSLParamSetter<&[u8]>>::set_spec(p, v)
            == (OSSLParamView {
            kind: p.kind,
            param: OsslParamView { return_size: v@.len() as usize, ..p.param },
        }, true),
{
}

/// A string parameter reads, as a C string, the bytes before the first NUL
/// of what it holds, whether or not they are valid UTF-8; when they are,
/// reading it as a `String` gives the string they encode, and otherwise
/// `None`.
pub proof fn lemma_string_read_is_cstr_decoded(p: OSSLParamView)
    ensures
        <OSSLParam as OSSLParamGetter<String>>::get_spec(p) == match <OSSLParam as OSSLParamGetter<
            CStrBytes,
        >>::get_spec(p) {
            Some(b) => if vstd::utf8::valid_utf8(b) {
                Some(vstd::utf8::decode_utf8(b))
            } else {
                None
            },
            None => None,
        },
{
}

/// A constant pointer string record made from a string reads back as that
/// string, when its bytes hold no NUL.
pub proof fn lemma_const_utf8ptr_reads_back(key: Seq<char>, s: Seq<char>)
    requires
        !encode_utf8(s).contains(0u8),
        encode_utf8(s).len() <= usize::MAX,
    ensures
        <OSSLParam as OSSLParamGetter<String>>::get_spec(
            OSSLParamView {
                kind: ParamKind::Utf8Ptr,
                param: OsslParamView {
                    key: Some(key),
                    data_type: OSSL_PARAM_UTF8_PTR,
                    data: Some(encode_utf8(s).push(0u8)),
                    data_size: encode_utf8(s).len() as usize,
                    return_size: OSSL_PARAM_UNMODIFIED,
                },
            },
        ) == Some(s),
{
    broadcast use encode_utf8_valid_utf8, encode_utf8_decode_utf8;

    let b = encode_utf8(s);
    lemma_cstr_prefix_of_string(b, Seq::empty());
    assert(b.push(0u8) + Seq::<u8>::empty() =~= b.push(0u8));
}

/// Setting bytes on an octet string parameter, or a string on an
/// own-buffer string parameter, sets `return_size` to their length on every
/// outcome, so that a caller learns the size it needs; on a pointer string
/// parameter it is the length when there is data memory and 0 otherwise.
/// The key, the data type and the data size never change.
pub proof fn lemma_set_bytes_reports_length(p: OSSLParamView, s: &str, v: &[u8])
    ensures
        p.kind == ParamKind::OctetString ==> <OSSLParam as OSSLParamSetter<&[u8]>>::set_spec(
            p,
            v,
        ).0.param.return_size == v@.len() as usize,
        p.kind == ParamKind::Utf8String ==> <OSSLParam as OSSLParamSetter<&str>>::set_spec(
            p,
            s,
        ).0.param.return_size == encode_utf8(s@).len() as usize,
        p.kind == ParamKind::Utf8Ptr ==> <OSSLParam as OSSLParamSetter<&str>>::set_spec(
            p,
            s,
        ).0.param.return_size == if p.param.data is Some {
            encode_utf8(s@).len() as usize
        } else {
            0
        },
        <OSSLParam as OSSLParamSetter<&[u8]>>::set_spec(p, v).0.param.key == p.param.key,
        <OSSLParam as OSSLParamSetter<&[u8]>>::set_spec(p, v).0.param.data_type == p.param.data_type,
        <OSSLParam as OSSLParamSetter<&[u8]>>::set_spec(p, v).0.param.data_size == p.param.data_size,
        <OSSLParam as OSSLParamSetter<&str>>::set_spec(p, s).0.param.key == p.param.key,
        <OSSLParam as OSSLParamSetter<&str>>::set_spec(p, s).0.param.data_type == p.param.data_type,
        <OSSLParam as OSSLParamSetter<&str>>::set_spec(p, s).0.param.data_size == p.param.data_size,
{
}

/// A constant integer record made from a value reads back as that value.
pub proof fn lemma_const_int_reads_back(key: Seq<char>, v: int, w: nat)
    requires
        1 <= w <= 8,
        fits_signed(v, w),
    ensures
        stored_int(
            const_param(key, OSSL_PARAM_INTEGER, Some(le_encode(twos_complement(v, w), w))),
            true,
        ) == Some(v),
{
    lemma_twos_complement_roundtrip(v, w);
    lemma_le_roundtrip(twos_complement(v, w), w);
    let e = le_encode(twos_complement(v, w), w);
    assert(e.subrange(0, w as int) =~= e);
}

/// A constant unsigned integer record made from a value reads back as that value.
pub proof fn lemma_const_uint_reads_back(key: Seq<char>, v: nat, w: nat)
    requires
        1 <= w <= 8,
        v < pow256(w),
    ensures
        stored_int(const_param(key, OSSL_PARAM_UNSIGNED_INTEGER, Some(le_encode(v, w))), false)
            == Some(v as int),
{
    lemma_le_roundtrip(v, w);
    let e = le_encode(v, w);
    assert(e.subrange(0, w as int) =~= e);
}

/// A constant string record made from a string reads back as that string,
/// when its bytes hold no NUL.
pub proof fn lemma_const_utf8string_reads_back(key: Seq<char>, s: Seq<char>)
    requires
        !encode_utf8(s).contains(0u8),
    ensures
        <OSSLParam as OSSLParamGetter<String>>::get_spec(
            OSSLParamView {
                kind: ParamKind::Utf8String,
                param: const_param(key, OSSL_PARAM_UTF8_STRING, Some(encode_utf8(s))),
            },
        ) == Some(s),
{
    broadcast use encode_utf8_valid_utf8, encode_utf8_decode_utf8;

    let b = encode_utf8(s);
    lemma_cstr_prefix_of_string(b, Seq::empty());
}

/// A constant octet string record made from bytes reads back as those bytes.
pub proof fn lemma_const_octets_reads_back(key: Seq<char>, v: Seq<u8>)
    requires
        v.len() <= usize::MAX,
    ensures
        param_region(const_param(key, OSSL_PARAM_OCTET_STRING, Some(v))) == Some(v),
{
    assert(v.subrange(0, v.len() as int) =~= v);
}

/// Viewing a record succeeds exactly for the five handled data types, each
/// giving its own variant.
pub proof fn lemma_kind_of_data_type(t: u32)
    ensures
        kind_of_data_type(t) is Some <==> (t == 1 || t == 2 || t == 4 || t == 5 || t == 6),
        t == 1 ==> kind_of_data_type(t) == Some(ParamKind::Int),
        t == 2 ==> kind_of_data_type(t) == Some(ParamKind::UInt),
        t == 4 ==> kind_of_data_type(t) == Some(ParamKind::Utf8String),
        t == 5 ==> kind_of_data_type(t) == Some(ParamKind::OctetString),
        t == 6 ==> kind_of_data_type(t) == Some(ParamKind::Utf8Ptr),
{
}

/// Walking a list whose first `k` records have keys and handled data types
/// and whose record `k` ends it yields exactly `k` parameters, the `i`-th
/// viewing record `i`.
pub proof fn lemma_walk_to_end(ps: Seq<OsslParamView>, k: int, start: int)
    requires
        0 <= start <= k < ps.len(),
        ps[k].key is None,
        forall|i: int| 0 <= i < k ==> ps[i].key is Some && (#[trigger] typed_view(ps[i])) is Some,
    ensures
        params_from(ps, start).len() == k - start,
        forall|i: int| 0 <= i < k - start ==> Some(#[trigger] params_from(ps, start)[i]) == typed_view(ps[start + i]),
    decreases k - start,
{
    if start < k {
        lemma_walk_to_end(ps, k, start + 1);
        assert(typed_view(ps[start]) is Some);
        let rest = params_from(ps, start + 1);
        assert forall|i: int| 0 <= i < k - start implies Some(#[trigger] params_from(ps, start)[i]) == typed_view(ps[start + i]) by {
            if i > 0 {
                assert(params_from(ps, start)[i] == rest[i - 1]);
            }
        }
    }
}

} // verus!
