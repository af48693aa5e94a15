//! String parameters: those that hold the string in their own buffer
//! (`OSSL_PARAM_UTF8_STRING`) and those that point to it (`OSSL_PARAM_UTF8_PTR`).
use vstd::prelude::*;
use vstd::utf8::encode_utf8;
use crate::bindings::{OSSL_PARAM_UTF8_PTR, OSSL_PARAM_UTF8_STRING};
use crate::osslparams::{
    cstring_image, CStrBytes, read_c_string, store_utf8_ptr, store_utf8_string, string_of,
    type_error, new_null_record, null_record, KeyType, OSSLParam, OSSLParamData, OSSLParamError,
    OSSLParamGetter, OSSLParamSetter, OSSLParamView, OsslParamView, ParamKind,
    TypedOSSLParamData, Utf8PtrData, Utf8StringData, OSSL_PARAM,
};
use crate::osslparams::encoding::{copy_prefix, cstr_bytes, cstr_prefix, overwrite_prefix};

verus! {

/// Makes a record refer to a string: see [`store_utf8_ptr`].
pub fn write_utf8_ptr(p: &mut OSSL_PARAM, value: &str) -> (r: Result<(), OSSLParamError>)
    ensures
        final(p)@ == store_utf8_ptr(old(p)@, value@).0,
        r is Ok <==> store_utf8_ptr(old(p)@, value@).1,
        r matches Err(e) ==> e@ == "the parameter's data pointer is NULL"@,
{
    let bytes = value.as_bytes();
    if p.data.is_none() {
        p.return_size = 0;
        return Err(String::from_str("the parameter's data pointer is NULL"));
    } else {
        let mut target = copy_prefix(bytes, bytes.len());
        assert(bytes@.subrange(0, bytes@.len() as int) =~= bytes@);
        target.push(0u8);
        p.data = Some(target);
        p.return_size = bytes.len();
    }
    Ok(())
}

/// Writes a string into a record's own buffer: see [`store_utf8_string`].
pub fn write_utf8_string(p: &mut OSSL_PARAM, value: &str) -> (r: Result<(), OSSLParamError>)
    ensures
        final(p)@ == store_utf8_string(old(p)@, value@).0,
        r is Ok <==> store_utf8_string(old(p)@, value@).1,
        r matches Err(e) ==> e@ == if old(p).data_size < encode_utf8(value@).len() {
            "p.data_size in param is too small to fit the string"@
        } else {
            "the parameter's data memory is shorter than data_size"@
        },
{
    let bytes = value.as_bytes();
    let len = bytes.len();
    p.return_size = len;
    let data_size = p.data_size;
    match &mut p.data {
        None => Ok(()),
        Some(buf) => {
            if data_size < len {
                return Err(String::from_str("p.data_size in param is too small to fit the string"));
            }
            if buf.len() < data_size {
                return Err(String::from_str("the parameter's data memory is shorter than data_size"));
            }
            let mut image = copy_prefix(bytes, len);
            assert(bytes@.subrange(0, len as int) =~= bytes@);
            if data_size > len {
                image.push(0u8);
            }
            assert(image@ == cstring_image(bytes@, data_size));
            overwrite_prefix(buf, image.as_slice());
            Ok(())
        },
    }
}

impl<'a> OSSLParamData for Utf8PtrData<'a> {
    /// A record without data.
    open spec fn null_spec(key: Seq<char>) -> OsslParamView {
        null_record(key, OSSL_PARAM_UTF8_PTR)
    }

    fn new_null(key: &KeyType) -> (r: Utf8PtrData<'a>) {
        Utf8PtrData { param: new_null_record(key, OSSL_PARAM_UTF8_PTR) }
    }
}

impl<'a> OSSLParamData for Utf8StringData<'a> {
    /// A record without data.
    open spec fn null_spec(key: Seq<char>) -> OsslParamView {
        null_record(key, OSSL_PARAM_UTF8_STRING)
    }

    fn new_null(key: &KeyType) -> (r: Utf8StringData<'a>) {
        Utf8StringData { param: new_null_record(key, OSSL_PARAM_UTF8_STRING) }
    }
}

impl<'a, 'b> TypedOSSLParamData<&'b str> for Utf8PtrData<'a> {
    open spec fn typed_set_spec(p: OsslParamView, value: &'b str) -> (OsslParamView, bool) {
        store_utf8_ptr(p, value@)
    }

    fn set(&mut self, value: &'b str) -> (r: Result<(), OSSLParamError>) {
        write_utf8_ptr(self.param, value)
    }
}

impl<'a, 'b> TypedOSSLParamData<&'b str> for Utf8StringData<'a> {
    open spec fn typed_set_spec(p: OsslParamView, value: &'b str) -> (OsslParamView, bool) {
        store_utf8_string(p, value@)
    }

    fn set(&mut self, value: &'b str) -> (r: Result<(), OSSLParamError>) {
        write_utf8_string(self.param, value)
    }
}

/// Storing a string in a parameter: both string parameter types take it.
pub open spec fn set_string_spec(p: OSSLParamView, value: Seq<char>) -> (OSSLParamView, bool) {
    if p.kind == ParamKind::Utf8Ptr {
        let (q, ok) = store_utf8_ptr(p.param, value);
        (OSSLParamView { kind: ParamKind::Utf8Ptr, param: q }, ok)
    } else if p.kind == ParamKind::Utf8String {
        let (q, ok) = store_utf8_string(p.param, value);
        (OSSLParamView { kind: ParamKind::Utf8String, param: q }, ok)
    } else {
        (p, false)
    }
}

/// The string of a string parameter, when it has a valid one: the C
/// string at the start of the memory that its data pointer refers to (for a
/// pointer parameter, the memory of the string it points to), read up to
/// the first NUL whatever `data_size` says, or to the end of the memory
/// when it holds none.
pub open spec fn get_string_spec(p: OSSLParamView) -> Option<Seq<char>> {
    if p.kind == ParamKind::Utf8Ptr || p.kind == ParamKind::Utf8String {
        match p.param.data {
            Some(s) => string_of(s),
            None => None,
        }
    } else {
        None
    }
}

impl<'a, 'b> OSSLParamSetter<&'b str> for OSSLParam<'a> {
    open spec fn holds(kind: ParamKind) -> bool {
        kind == ParamKind::Utf8Ptr || kind == ParamKind::Utf8String
    }

    open spec fn value_type_name() -> Seq<char> {
        "&str"@
    }

    open spec fn set_spec(p: OSSLParamView, value: &'b str) -> (OSSLParamView, bool) {
        set_string_spec(p, value@)
    }

    fn set_inner(&mut self, value: &'b str) -> (r: Result<(), OSSLParamError>) {
        if let OSSLParam::Utf8Ptr(d) = self {
            d.set(value)
        } else if let OSSLParam::Utf8String(d) = self {
            d.set(value)
        } else {
            Err(type_error("&str", self))
        }
    }
}

impl<'a> OSSLParamGetter<String> for OSSLParam<'a> {
    open spec fn get_spec(p: OSSLParamView) -> Option<Seq<char>> {
        get_string_spec(p)
    }

    fn get_inner(&self) -> (r: Option<String>) {
        match self {
            OSSLParam::Utf8Ptr(d) => match &d.param.data {
                Some(s) => read_c_string(s.as_slice()),
                None => None,
            },
            OSSLParam::Utf8String(d) => match &d.param.data {
                Some(buf) => read_c_string(buf.as_slice()),
                None => None,
            },
            _ => None,
        }
    }
}

/// The C string of a string parameter, whatever bytes it holds: the bytes
/// at the start of the memory that its data pointer refers to, up to the
/// first NUL whatever `data_size` says, or to the end of the memory when it
/// holds none.
pub open spec fn get_cstr_spec(p: OSSLParamView) -> Option<Seq<u8>> {
    if p.kind == ParamKind::Utf8Ptr || p.kind == ParamKind::Utf8String {
        match p.param.data {
            Some(s) => Some(cstr_prefix(s)),
            None => None,
        }
    } else {
        None
    }
}

impl<'a> OSSLParamGetter<CStrBytes> for OSSLParam<'a> {
    open spec fn get_spec(p: OSSLParamView) -> Option<Seq<u8>> {
        get_cstr_spec(p)
    }

    fn get_inner(&self) -> (r: Option<CStrBytes>) {
        match self {
            OSSLParam::Utf8Ptr(d) => match &d.param.data {
                Some(s) => Some(CStrBytes { bytes: cstr_bytes(s.as_slice()) }),
                None => None,
            },
            OSSLParam::Utf8String(d) => match &d.param.data {
                Some(buf) => Some(CStrBytes { bytes: cstr_bytes(buf.as_slice()) }),
                None => None,
            },
            _ => None,
        }
    }
}

} // verus!
