//! Callbacks that OpenSSL hands to a provider, with the argument to pass them.
use vstd::prelude::*;
use crate::bindings::{GenericFnPtr, GenericNullableFnPtr};
use crate::OurError;

verus! {

/// A callback function of OpenSSL together with the opaque argument that
/// OpenSSL asked to be passed back to it. Its function is never `NULL`.
#[derive(Debug, Clone, Copy)]
pub struct OSSLCallback {
    cb_fn: GenericFnPtr,
    args: usize,
}

impl OSSLCallback {
    /// The callback function.
    pub closed spec fn spec_cb_fn(&self) -> GenericFnPtr {
        self.cb_fn
    }

    /// The argument for the callback.
    pub closed spec fn spec_args(&self) -> usize {
        self.args
    }

    /// A callback from the function that OpenSSL passed and its argument; an
    /// error when the function is `NULL`.
    pub fn try_new(cb: GenericNullableFnPtr, args: usize) -> (r: Result<OSSLCallback, OurError>)
        ensures
            r is Ok <==> cb is Some,
            r matches Ok(c) ==> c.spec_cb_fn() == cb->0 && c.spec_args() == args,
            r matches Err(e) ==> e == OurError::NullCallback,
    {
        match cb {
            Some(cb_fn) => Ok(OSSLCallback { cb_fn, args }),
            None => Err(OurError::NullCallback),
        }
    }

    /// The callback function.
    pub fn cb_fn(&self) -> (r: GenericFnPtr)
        ensures
            r == self.spec_cb_fn(),
    {
        self.cb_fn
    }

    /// The argument for the callback.
    pub fn args(&self) -> (r: usize)
        ensures
            r == self.spec_args(),
    {
        self.args
    }
}

} // verus!
