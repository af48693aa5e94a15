//! Unsigned integer parameters (`OSSL_PARAM_UNSIGNED_INTEGER`).
use vstd::prelude::*;
use crate::bindings::OSSL_PARAM_UNSIGNED_INTEGER;
use crate::osslparams::{
    new_null_record, null_record,
    read_stored_int, store_int, stored_int, type_error, write_stored_int, UIntData,
    KeyType, OSSLParam, OSSLParamData, OSSLParamError, OSSLParamGetter, OSSLParamSetter,
    OSSLParamView, OsslParamView, ParamKind, TypedOSSLParamData, OSSL_PARAM,
};
use crate::osslparams::encoding::fits_unsigned;

verus! {

/// The unsigned machine integers that can initialise an integer parameter.
pub trait PrimUIntMarker: Copy {
    /// The value.
    spec fn spec_value(&self) -> int;

    /// The size of the type in bytes.
    spec fn spec_width() -> nat;

    /// The size of the type in bytes.
    fn width() -> (r: usize)
        ensures
            r == Self::spec_width(),
            1 <= r <= 8,
    ;

    /// The value, widened.
    fn widen(&self) -> (r: i128)
        ensures
            r == self.spec_value(),
            fits_unsigned(r as int, Self::spec_width()),
    ;
}

impl PrimUIntMarker for u8 {
    open spec fn spec_value(&self) -> int {
        *self as int
    }

    open spec fn spec_width() -> nat {
        1
    }

    fn width() -> (r: usize) {
        1
    }

    fn widen(&self) -> (r: i128) {
        proof {
            crate::osslparams::encoding::lemma_pow256_values();
        }
        *self as i128
    }
}

impl PrimUIntMarker for u16 {
    open spec fn spec_value(&self) -> int {
        *self as int
    }

    open spec fn spec_width() -> nat {
        2
    }

    fn width() -> (r: usize) {
        2
    }

    fn widen(&self) -> (r: i128) {
        proof {
            crate::osslparams::encoding::lemma_pow256_values();
        }
        *self as i128
    }
}

impl PrimUIntMarker for u32 {
    open spec fn spec_value(&self) -> int {
        *self as int
    }

    open spec fn spec_width() -> nat {
        4
    }

    fn width() -> (r: usize) {
        4
    }

    fn widen(&self) -> (r: i128) {
        proof {
            crate::osslparams::encoding::lemma_pow256_values();
        }
        *self as i128
    }
}

impl PrimUIntMarker for u64 {
    open spec fn spec_value(&self) -> int {
        *self as int
    }

    open spec fn spec_width() -> nat {
        8
    }

    fn width() -> (r: usize) {
        8
    }

    fn widen(&self) -> (r: i128) {
        proof {
            crate::osslparams::encoding::lemma_pow256_values();
        }
        *self as i128
    }
}

impl<'a> OSSLParamData for UIntData<'a> {
    /// A record without data.
    open spec fn null_spec(key: Seq<char>) -> OsslParamView {
        null_record(key, OSSL_PARAM_UNSIGNED_INTEGER)
    }

    fn new_null(key: &KeyType) -> (r: UIntData<'a>) {
        UIntData { param: new_null_record(key, OSSL_PARAM_UNSIGNED_INTEGER) }
    }
}

impl<'a> TypedOSSLParamData<u32> for UIntData<'a> {
    open spec fn typed_set_spec(p: OsslParamView, value: u32) -> (OsslParamView, bool) {
        store_int(p, value as int, false)
    }

    fn set(&mut self, value: u32) -> (r: Result<(), OSSLParamError>) {
        write_stored_int(self.param, value as i128, false)
    }
}

impl<'a> TypedOSSLParamData<u64> for UIntData<'a> {
    open spec fn typed_set_spec(p: OsslParamView, value: u64) -> (OsslParamView, bool) {
        store_int(p, value as int, false)
    }

    fn set(&mut self, value: u64) -> (r: Result<(), OSSLParamError>) {
        write_stored_int(self.param, value as i128, false)
    }
}

/// Storing an unsigned value in a parameter: only an unsigned integer parameter takes it.
pub open spec fn set_unsigned_spec(p: OSSLParamView, v: int) -> (OSSLParamView, bool) {
    if p.kind == ParamKind::UInt {
        let (q, ok) = store_int(p.param, v, false);
        (OSSLParamView { kind: ParamKind::UInt, param: q }, ok)
    } else {
        (p, false)
    }
}

/// The value of an unsigned integer parameter, when it has one.
pub open spec fn get_unsigned_spec(p: OSSLParamView) -> Option<int> {
    if p.kind == ParamKind::UInt {
        stored_int(p.param, false)
    } else {
        None
    }
}

impl<'a> OSSLParamSetter<u32> for OSSLParam<'a> {
    open spec fn holds(kind: ParamKind) -> bool {
        kind == ParamKind::UInt
    }

    open spec fn value_type_name() -> Seq<char> {
        "u32"@
    }

    open spec fn set_spec(p: OSSLParamView, value: u32) -> (OSSLParamView, bool) {
        set_unsigned_spec(p, value as int)
    }

    fn set_inner(&mut self, value: u32) -> (r: Result<(), OSSLParamError>) {
        if let OSSLParam::UInt(d) = self {
            d.set(value)
        } else {
            Err(type_error("u32", self))
        }
    }
}

impl<'a> OSSLParamSetter<u64> for OSSLParam<'a> {
    open spec fn holds(kind: ParamKind) -> bool {
        kind == ParamKind::UInt
    }

    open spec fn value_type_name() -> Seq<char> {
        "u64"@
    }

    open spec fn set_spec(p: OSSLParamView, value: u64) -> (OSSLParamView, bool) {
        set_unsigned_spec(p, value as int)
    }

    fn set_inner(&mut self, value: u64) -> (r: Result<(), OSSLParamError>) {
        if let OSSLParam::UInt(d) = self {
            d.set(value)
        } else {
            Err(type_error("u64", self))
        }
    }
}

impl<'a> OSSLParamGetter<u32> for OSSLParam<'a> {
    open spec fn get_spec(p: OSSLParamView) -> Option<u32> {
        match get_unsigned_spec(p) {
            Some(v) => if u32::MIN <= v <= u32::MAX {
                Some(v as u32)
            } else {
                None
            },
            None => None,
        }
    }

    fn get_inner(&self) -> (r: Option<u32>) {
        match self {
            OSSLParam::UInt(d) => match read_stored_int(&*d.param, false) {
                Some(v) => if u32::MIN as i128 <= v && v <= u32::MAX as i128 {
                    Some(v as u32)
                } else {
                    None
                },
                None => None,
            },
            _ => None,
        }
    }
}

impl<'a> OSSLParamGetter<u64> for OSSLParam<'a> {
    open spec fn get_spec(p: OSSLParamView) -> Option<u64> {
        match get_unsigned_spec(p) {
            Some(v) => if u64::MIN <= v <= u64::MAX {
                Some(v as u64)
            } else {
                None
            },
            None => None,
        }
    }

    fn get_inner(&self) -> (r: Option<u64>) {
        match self {
            OSSLParam::UInt(d) => match read_stored_int(&*d.param, false) {
                Some(v) => if u64::MIN as i128 <= v && v <= u64::MAX as i128 {
                    Some(v as u64)
                } else {
                    None
                },
                None => None,
            },
            _ => None,
        }
    }
}

} // verus!
