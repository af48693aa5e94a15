//! Signed integer parameters (`OSSL_PARAM_INTEGER`).
use vstd::prelude::*;
use crate::bindings::OSSL_PARAM_INTEGER;
use crate::osslparams::{
    new_null_record, null_record,
    read_stored_int, store_int, stored_int, type_error, write_stored_int, IntData,
    KeyType, OSSLParam, OSSLParamData, OSSLParamError, OSSLParamGetter, OSSLParamSetter,
    OSSLParamView, OsslParamView, ParamKind, TypedOSSLParamData, OSSL_PARAM,
};
use crate::osslparams::encoding::fits_signed;

verus! {

/// The signed machine integers that can initialise an integer parameter.
pub trait PrimIntMarker: Copy {
    /// The value.
    spec fn spec_value(&self) -> int;

    /// The size of the type in bytes.
    spec fn spec_width() -> nat;

    /// The size of the type in bytes.
    fn width() -> (r: usize)
        ensures
            r == Self::spec_width(),
            1 <= r <= 8,
    ;

    /// The value, widened.
    fn widen(&self) -> (r: i128)
        ensures
            r == self.spec_value(),
            fits_signed(r as int, Self::spec_width()),
    ;
}

impl PrimIntMarker for i8 {
    open spec fn spec_value(&self) -> int {
        *self as int
    }

    open spec fn spec_width() -> nat {
        1
    }

    fn width() -> (r: usize) {
        1
    }

    fn widen(&self) -> (r: i128) {
        proof {
            crate::osslparams::encoding::lemma_pow256_values();
        }
        *self as i128
    }
}

impl PrimIntMarker for i16 {
    open spec fn spec_value(&self) -> int {
        *self as int
    }

    open spec fn spec_width() -> nat {
        2
    }

    fn width() -> (r: usize) {
        2
    }

    fn widen(&self) -> (r: i128) {
        proof {
            crate::osslparams::encoding::lemma_pow256_values();
        }
        *self as i128
    }
}

impl PrimIntMarker for i32 {
    open spec fn spec_value(&self) -> int {
        *self as int
    }

    open spec fn spec_width() -> nat {
        4
    }

    fn width() -> (r: usize) {
        4
    }

    fn widen(&self) -> (r: i128) {
        proof {
            crate::osslparams::encoding::lemma_pow256_values();
        }
        *self as i128
    }
}

impl PrimIntMarker for i64 {
    open spec fn spec_value(&self) -> int {
        *self as int
    }

    open spec fn spec_width() -> nat {
        8
    }

    fn width() -> (r: usize) {
        8
    }

    fn widen(&self) -> (r: i128) {
        proof {
            crate::osslparams::encoding::lemma_pow256_values();
        }
        *self as i128
    }
}

impl<'a> OSSLParamData for IntData<'a> {
    /// A record without data.
    open spec fn null_spec(key: Seq<char>) -> OsslParamView {
        null_record(key, OSSL_PARAM_INTEGER)
    }

    fn new_null(key: &KeyType) -> (r: IntData<'a>) {
        IntData { param: new_null_record(key, OSSL_PARAM_INTEGER) }
    }
}

impl<'a> TypedOSSLParamData<i32> for IntData<'a> {
    open spec fn typed_set_spec(p: OsslParamView, value: i32) -> (OsslParamView, bool) {
        store_int(p, value as int, true)
    }

    fn set(&mut self, value: i32) -> (r: Result<(), OSSLParamError>) {
        write_stored_int(self.param, value as i128, true)
    }
}

impl<'a> TypedOSSLParamData<i64> for IntData<'a> {
    open spec fn typed_set_spec(p: OsslParamView, value: i64) -> (OsslParamView, bool) {
        store_int(p, value as int, true)
    }

    fn set(&mut self, value: i64) -> (r: Result<(), OSSLParamError>) {
        write_stored_int(self.param, value as i128, true)
    }
}

/// Storing a signed value in a parameter: only an integer parameter takes it.
pub open spec fn set_signed_spec(p: OSSLParamView, v: int) -> (OSSLParamView, bool) {
    if p.kind == ParamKind::Int {
        let (q, ok) = store_int(p.param, v, true);
        (OSSLParamView { kind: ParamKind::Int, param: q }, ok)
    } else {
        (p, false)
    }
}

/// The signed value of an integer parameter, when it has one.
pub open spec fn get_signed_spec(p: OSSLParamView) -> Option<int> {
    if p.kind == ParamKind::Int {
        stored_int(p.param, true)
    } else {
        None
    }
}

impl<'a> OSSLParamSetter<i32> for OSSLParam<'a> {
    open spec fn holds(kind: ParamKind) -> bool {
        kind == ParamKind::Int
    }

    open spec fn value_type_name() -> Seq<char> {
        "i32"@
    }

    open spec fn set_spec(p: OSSLParamView, value: i32) -> (OSSLParamView, bool) {
        set_signed_spec(p, value as int)
    }

    fn set_inner(&mut self, value: i32) -> (r: Result<(), OSSLParamError>) {
        if let OSSLParam::Int(d) = self {
            d.set(value)
        } else {
            Err(type_error("i32", self))
        }
    }
}

impl<'a> OSSLParamSetter<i64> for OSSLParam<'a> {
    open spec fn holds(kind: ParamKind) -> bool {
        kind == ParamKind::Int
    }

    open spec fn value_type_name() -> Seq<char> {
        "i64"@
    }

    open spec fn set_spec(p: OSSLParamView, value: i64) -> (OSSLParamView, bool) {
        set_signed_spec(p, value as int)
    }

    fn set_inner(&mut self, value: i64) -> (r: Result<(), OSSLParamError>) {
        if let OSSLParam::Int(d) = self {
            d.set(value)
        } else {
            Err(type_error("i64", self))
        }
    }
}

impl<'a> OSSLParamGetter<i32> for OSSLParam<'a> {
    open spec fn get_spec(p: OSSLParamView) -> Option<i32> {
        match get_signed_spec(p) {
            Some(v) => if i32::MIN <= v <= i32::MAX {
                Some(v as i32)
            } else {
                None
            },
            None => None,
        }
    }

    fn get_inner(&self) -> (r: Option<i32>) {
        match self {
            OSSLParam::Int(d) => match read_stored_int(&*d.param, true) {
                Some(v) => if i32::MIN as i128 <= v && v <= i32::MAX as i128 {
                    Some(v as i32)
                } else {
                    None
                },
                None => None,
            },
            _ => None,
        }
    }
}

impl<'a> OSSLParamGetter<i64> for OSSLParam<'a> {
    open spec fn get_spec(p: OSSLParamView) -> Option<i64> {
        match get_signed_spec(p) {
            Some(v) => if i64::MIN <= v <= i64::MAX {
                Some(v as i64)
            } else {
                None
            },
            None => None,
        }
    }

    fn get_inner(&self) -> (r: Option<i64>) {
        match self {
            OSSLParam::Int(d) => match read_stored_int(&*d.param, true) {
                Some(v) => if i64::MIN as i128 <= v && v <= i64::MAX as i128 {
                    Some(v as i64)
                } else {
                    None
                },
                None => None,
            },
            _ => None,
        }
    }
}

} // verus!
