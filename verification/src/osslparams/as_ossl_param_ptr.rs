//! Lists of parameter records as OpenSSL takes them.
use vstd::prelude::*;
use super::OSSL_PARAM;

verus! {

/// Gives the parameter records of a list, as they are handed to OpenSSL
/// functions and callbacks. The list should end with the end record.
pub trait AsOsslParamPtr {
    /// The records of the list.
    fn as_ossl_param_ptr(&self) -> (r: &[OSSL_PARAM]);
}

impl AsOsslParamPtr for [OSSL_PARAM] {
    fn as_ossl_param_ptr(&self) -> (r: &[OSSL_PARAM])
        ensures
            r@ == self@,
    {
        self
    }
}

impl<const N: usize> AsOsslParamPtr for [OSSL_PARAM; N] {
    fn as_ossl_param_ptr(&self) -> (r: &[OSSL_PARAM])
        ensures
            r@ == self@,
    {
        self.as_slice()
    }
}

impl AsOsslParamPtr for Vec<OSSL_PARAM> {
    fn as_ossl_param_ptr(&self) -> (r: &[OSSL_PARAM])
        ensures
            r@ == self@,
    {
        self.as_slice()
    }
}

} // verus!
