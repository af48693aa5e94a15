//! Octet string parameters (`OSSL_PARAM_OCTET_STRING`).
use vstd::prelude::*;
use crate::bindings::OSSL_PARAM_OCTET_STRING;
use crate::osslparams::{
    new_null_record, null_record, param_region, store_octets, type_error, KeyType, OSSLParam, OSSLParamData,
    OSSLParamError, OSSLParamGetter, OSSLParamSetter, OSSLParamView, OctetStringData,
    OsslParamView, ParamKind, TypedOSSLParamData, OSSL_PARAM,
};
use crate::osslparams::encoding::{copy_prefix, overwrite_prefix};

verus! {

/// Stores a byte string in a record: see [`store_octets`].
pub fn write_octets(p: &mut OSSL_PARAM, value: &[u8]) -> (r: Result<(), OSSLParamError>)
    ensures
        final(p)@ == store_octets(old(p)@, value@).0,
        r is Ok <==> store_octets(old(p)@, value@).1,
        r matches Err(e) ==> e@ == if old(p).data_size < value@.len() {
            "p.data_size in param is too small to fit the octet string"@
        } else {
            "the parameter's data memory is shorter than data_size"@
        },
{
    let len = value.len();
    p.return_size = len;
    let data_size = p.data_size;
    match &mut p.data {
        None => Ok(()),
        Some(buf) => {
            if data_size < len {
                return Err(String::from_str("p.data_size in param is too small to fit the octet string"));
            }
            if buf.len() < data_size {
                return Err(String::from_str("the parameter's data memory is shorter than data_size"));
            }
            overwrite_prefix(buf, value);
            Ok(())
        },
    }
}

/// The data of a record when its memory holds all its declared bytes:
/// see [`param_region`].
pub fn read_region(p: &OSSL_PARAM) -> (r: Option<Vec<u8>>)
    ensures
        opt_bytes(r) == param_region(p@),
{
    match &p.data {
        Some(buf) => if p.data_size <= buf.len() {
            Some(copy_prefix(buf.as_slice(), p.data_size))
        } else {
            None
        },
        None => None,
    }
}

/// The view of an optional byte vector.
pub open spec fn opt_bytes(o: Option<Vec<u8>>) -> Option<Seq<u8>> {
    match o {
        Some(v) => Some(v@),
        None => None,
    }
}

impl<'a> OSSLParamData for OctetStringData<'a> {
    /// A record without data.
    open spec fn null_spec(key: Seq<char>) -> OsslParamView {
        null_record(key, OSSL_PARAM_OCTET_STRING)
    }

    fn new_null(key: &KeyType) -> (r: OctetStringData<'a>) {
        OctetStringData { param: new_null_record(key, OSSL_PARAM_OCTET_STRING) }
    }
}

impl<'a, 'b> TypedOSSLParamData<&'b [u8]> for OctetStringData<'a> {
    open spec fn typed_set_spec(p: OsslParamView, value: &'b [u8]) -> (OsslParamView, bool) {
        store_octets(p, value@)
    }

    fn set(&mut self, value: &'b [u8]) -> (r: Result<(), OSSLParamError>) {
        write_octets(self.param, value)
    }
}

/// Storing a byte string in a parameter: only an octet string parameter takes it.
pub open spec fn set_octets_spec(p: OSSLParamView, value: Seq<u8>) -> (OSSLParamView, bool) {
    if p.kind == ParamKind::OctetString {
        let (q, ok) = store_octets(p.param, value);
        (OSSLParamView { kind: ParamKind::OctetString, param: q }, ok)
    } else {
        (p, false)
    }
}

/// The bytes of an octet string parameter, when it has them.
pub open spec fn get_octets_spec(p: OSSLParamView) -> Option<Seq<u8>> {
    if p.kind == ParamKind::OctetString {
        param_region(p.param)
    } else {
        None
    }
}

impl<'a, 'b> OSSLParamSetter<&'b [u8]> for OSSLParam<'a> {
    open spec fn holds(kind: ParamKind) -> bool {
        kind == ParamKind::OctetString
    }

    open spec fn value_type_name() -> Seq<char> {
        "&[u8]"@
    }

    open spec fn set_spec(p: OSSLParamView, value: &'b [u8]) -> (OSSLParamView, bool) {
        set_octets_spec(p, value@)
    }

    fn set_inner(&mut self, value: &'b [u8]) -> (r: Result<(), OSSLParamError>) {
        if let OSSLParam::OctetString(d) = self {
            d.set(value)
        } else {
            Err(type_error("&[u8]", self))
        }
    }
}

impl<'a> OSSLParamGetter<Vec<u8>> for OSSLParam<'a> {
    open spec fn get_spec(p: OSSLParamView) -> Option<Seq<u8>> {
        get_octets_spec(p)
    }

    fn get_inner(&self) -> (r: Option<Vec<u8>>) {
        match self {
            OSSLParam::OctetString(d) => read_region(&*d.param),
            _ => None,
        }
    }
}

} // verus!
