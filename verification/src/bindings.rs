//! The OpenSSL core and provider definitions that the library works with,
//! as plain values.
use vstd::prelude::*;

verus! {

/// Key management selection bit: the private key.
pub const OSSL_KEYMGMT_SELECT_PRIVATE_KEY: u32 = 0x01;
/// Key management selection bit: the public key.
pub const OSSL_KEYMGMT_SELECT_PUBLIC_KEY: u32 = 0x02;
/// Key management selection bit: the domain parameters.
pub const OSSL_KEYMGMT_SELECT_DOMAIN_PARAMETERS: u32 = 0x04;
/// Key management selection bit: other parameters.
pub const OSSL_KEYMGMT_SELECT_OTHER_PARAMETERS: u32 = 0x80;
/// Key management selection: all parameters.
pub const OSSL_KEYMGMT_SELECT_ALL_PARAMETERS: u32 = 0x84;
/// Key management selection: both halves of a key pair.
pub const OSSL_KEYMGMT_SELECT_KEYPAIR: u32 = 0x03;
/// Key management selection: everything.
pub const OSSL_KEYMGMT_SELECT_ALL: u32 = 0x87;


/// The address of a C function in an OpenSSL dispatch table.
///
/// The library only carries it from table to caller; the code at the
/// FFI edge turns it back into a callable function pointer.
#[derive(Debug, Clone, Copy, PartialEq, Eq, Structural)]
pub struct GenericFnPtr(pub usize);

/// A function slot of a dispatch table: `None` stands for `NULL`.
pub type GenericNullableFnPtr = Option<GenericFnPtr>;

/// One entry of an OpenSSL dispatch table: a function id and the function.
///
/// A table ends with the entry whose `function_id` is 0.
#[allow(non_camel_case_types)]
#[derive(Debug, Clone, Copy, PartialEq, Eq, Structural)]
pub struct OSSL_DISPATCH {
    /// The id of the function, as the OpenSSL headers number them.
    pub function_id: i32,
    /// The function, or `None` for `NULL`.
    pub function: GenericNullableFnPtr,
}

impl OSSL_DISPATCH {
    /// The entry that ends a dispatch table.
    #[allow(non_snake_case)]
    pub fn END() -> (r: OSSL_DISPATCH)
        ensures
            r.function_id == 0,
            r.function is None,
    {
        OSSL_DISPATCH { function_id: 0, function: None }
    }

    /// An entry for the function `fnpt` under the id `fnid`.
    pub fn new(fnid: i32, fnpt: GenericNullableFnPtr) -> (r: OSSL_DISPATCH)
        ensures
            r.function_id == fnid,
            r.function == fnpt,
    {
        OSSL_DISPATCH { function_id: fnid, function: fnpt }
    }
}

impl Default for OSSL_DISPATCH {
    /// The end-of-table entry.
    fn default() -> (r: OSSL_DISPATCH)
        ensures
            r.function_id == 0,
            r.function is None,
    {
        OSSL_DISPATCH::END()
    }
}

/// One algorithm implementation that a provider offers for an operation.
///
/// A list of them ends with the entry whose `algorithm_names` is `None`.
#[allow(non_camel_case_types)]
#[derive(Debug)]
pub struct OSSL_ALGORITHM {
    /// The names of the algorithm, separated by colons.
    pub algorithm_names: Option<String>,
    /// The property definition string of the implementation.
    pub property_definition: Option<String>,
    /// The dispatch table of the implementation.
    pub implementation: Option<Vec<OSSL_DISPATCH>>,
    /// A human readable description.
    pub algorithm_description: Option<String>,
}

impl OSSL_ALGORITHM {
    /// The entry that ends an algorithm list.
    #[allow(non_snake_case)]
    pub fn END() -> (r: OSSL_ALGORITHM)
        ensures
            r.algorithm_names is None,
            r.property_definition is None,
            r.implementation is None,
            r.algorithm_description is None,
    {
        OSSL_ALGORITHM {
            algorithm_names: None,
            property_definition: None,
            implementation: None,
            algorithm_description: None,
        }
    }
}

impl Default for OSSL_ALGORITHM {
    /// The end-of-list entry.
    fn default() -> (r: OSSL_ALGORITHM)
        ensures
            r.algorithm_names is None,
            r.property_definition is None,
            r.implementation is None,
            r.algorithm_description is None,
    {
        OSSL_ALGORITHM::END()
    }
}

/// Parameter data type: a signed integer in native byte order.
pub const OSSL_PARAM_INTEGER: u32 = 1;
/// Parameter data type: an unsigned integer in native byte order.
pub const OSSL_PARAM_UNSIGNED_INTEGER: u32 = 2;
/// Parameter data type: a floating point number.
pub const OSSL_PARAM_REAL: u32 = 3;
/// Parameter data type: a printable string stored in the parameter's buffer.
pub const OSSL_PARAM_UTF8_STRING: u32 = 4;
/// Parameter data type: an arbitrary string of bytes stored in the parameter's buffer.
pub const OSSL_PARAM_OCTET_STRING: u32 = 5;
/// Parameter data type: a pointer to a printable string.
pub const OSSL_PARAM_UTF8_PTR: u32 = 6;
/// Parameter data type: a pointer to a string of bytes.
pub const OSSL_PARAM_OCTET_PTR: u32 = 7;

/// The `return_size` of a parameter that nobody has set.
pub const OSSL_PARAM_UNMODIFIED: usize = usize::MAX;

/// Capability key: the IANA name of a TLS group.
pub const OSSL_CAPABILITY_TLS_GROUP_NAME: &'static str = "tls-group-name";
/// Capability key: the provider's own name of a TLS group.
pub const OSSL_CAPABILITY_TLS_GROUP_NAME_INTERNAL: &'static str = "tls-group-name-internal";
/// Capability key: the IANA id of a TLS group.
pub const OSSL_CAPABILITY_TLS_GROUP_ID: &'static str = "tls-group-id";
/// Capability key: the key management algorithm of a TLS group.
pub const OSSL_CAPABILITY_TLS_GROUP_ALG: &'static str = "tls-group-alg";
/// Capability key: the security bits of a TLS group.
pub const OSSL_CAPABILITY_TLS_GROUP_SECURITY_BITS: &'static str = "tls-group-sec-bits";
/// Capability key: whether a TLS group is a key encapsulation method.
pub const OSSL_CAPABILITY_TLS_GROUP_IS_KEM: &'static str = "tls-group-is-kem";
/// Capability key: the lowest TLS version of a TLS group.
pub const OSSL_CAPABILITY_TLS_GROUP_MIN_TLS: &'static str = "tls-min-tls";
/// Capability key: the highest TLS version of a TLS group.
pub const OSSL_CAPABILITY_TLS_GROUP_MAX_TLS: &'static str = "tls-max-tls";
/// Capability key: the lowest DTLS version of a TLS group.
pub const OSSL_CAPABILITY_TLS_GROUP_MIN_DTLS: &'static str = "tls-min-dtls";
/// Capability key: the highest DTLS version of a TLS group.
pub const OSSL_CAPABILITY_TLS_GROUP_MAX_DTLS: &'static str = "tls-max-dtls";
/// Capability key: the lowest DTLS version of a TLS signature algorithm.
pub const OSSL_CAPABILITY_TLS_SIGALG_MIN_DTLS: &'static str = "tls-min-dtls";
/// Capability key: the highest DTLS version of a TLS signature algorithm.
pub const OSSL_CAPABILITY_TLS_SIGALG_MAX_DTLS: &'static str = "tls-max-dtls";

/// Core function id: `BIO_read_ex`.
pub const OSSL_FUNC_BIO_READ_EX: u32 = 42;
/// Core function id: `BIO_write_ex`.
pub const OSSL_FUNC_BIO_WRITE_EX: u32 = 43;
/// Core function id: `core_gettable_params`.
pub const OSSL_FUNC_CORE_GETTABLE_PARAMS: u32 = 1;
/// Core function id: `core_get_params`.
pub const OSSL_FUNC_CORE_GET_PARAMS: u32 = 2;
/// Core function id: `core_obj_add_sigid`.
pub const OSSL_FUNC_CORE_OBJ_ADD_SIGID: u32 = 11;
/// Core function id: `core_obj_create`.
pub const OSSL_FUNC_CORE_OBJ_CREATE: u32 = 12;

} // verus!
