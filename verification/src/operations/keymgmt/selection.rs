//! The flags that say which parts of a key a key management operation targets.
use vstd::prelude::*;
use crate::bindings;
use crate::OurError;

verus! {

/// Which parts of a key (private key, public key, domain parameters, other
/// parameters) a key management operation targets, as a set of bits.
#[derive(Debug, Clone, Copy, PartialEq, Eq, Structural)]
pub struct Selection {
    bits: u32,
}

/// The union of the bits of all defined selection flags.
pub open spec fn selection_known_bits() -> u32 {
    bindings::OSSL_KEYMGMT_SELECT_ALL
}

/// Whether a raw value is made only of bits of defined flags.
pub open spec fn selection_bits_valid(bits: u32) -> bool {
    bits & !selection_known_bits() == 0
}

impl Selection {
    /// The raw bits of the selection.
    pub closed spec fn view_bits(&self) -> u32 {
        self.bits
    }

    /// Whether every bit of `other` is set in `self`.
    pub open spec fn spec_contains(&self, other: Selection) -> bool {
        self.view_bits() & other.view_bits() == other.view_bits()
    }

    /// Selects the private key.
    #[allow(non_snake_case)]
    pub fn PRIVATE_KEY() -> (r: Selection)
        ensures
            r.view_bits() == bindings::OSSL_KEYMGMT_SELECT_PRIVATE_KEY,
    {
        Selection { bits: bindings::OSSL_KEYMGMT_SELECT_PRIVATE_KEY }
    }

    /// Selects the public key.
    #[allow(non_snake_case)]
    pub fn PUBLIC_KEY() -> (r: Selection)
        ensures
            r.view_bits() == bindings::OSSL_KEYMGMT_SELECT_PUBLIC_KEY,
    {
        Selection { bits: bindings::OSSL_KEYMGMT_SELECT_PUBLIC_KEY }
    }

    /// Selects the domain parameters.
    #[allow(non_snake_case)]
    pub fn DOMAIN_PARAMETERS() -> (r: Selection)
        ensures
            r.view_bits() == bindings::OSSL_KEYMGMT_SELECT_DOMAIN_PARAMETERS,
    {
        Selection { bits: bindings::OSSL_KEYMGMT_SELECT_DOMAIN_PARAMETERS }
    }

    /// Selects the other parameters.
    #[allow(non_snake_case)]
    pub fn OTHER_PARAMETERS() -> (r: Selection)
        ensures
            r.view_bits() == bindings::OSSL_KEYMGMT_SELECT_OTHER_PARAMETERS,
    {
        Selection { bits: bindings::OSSL_KEYMGMT_SELECT_OTHER_PARAMETERS }
    }

    /// Selects all parameters (domain and other).
    #[allow(non_snake_case)]
    pub fn ALL_PARAMETERS() -> (r: Selection)
        ensures
            r.view_bits() == bindings::OSSL_KEYMGMT_SELECT_ALL_PARAMETERS,
    {
        Selection { bits: bindings::OSSL_KEYMGMT_SELECT_ALL_PARAMETERS }
    }

    /// Selects both halves of a key pair.
    #[allow(non_snake_case)]
    pub fn KEYPAIR() -> (r: Selection)
        ensures
            r.view_bits() == bindings::OSSL_KEYMGMT_SELECT_KEYPAIR,
    {
        Selection { bits: bindings::OSSL_KEYMGMT_SELECT_KEYPAIR }
    }

    /// Selects every part of a key.
    #[allow(non_snake_case)]
    pub fn ALL() -> (r: Selection)
        ensures
            r.view_bits() == bindings::OSSL_KEYMGMT_SELECT_ALL,
    {
        Selection { bits: bindings::OSSL_KEYMGMT_SELECT_ALL }
    }

    /// Selects nothing.
    pub fn empty() -> (r: Selection)
        ensures
            r.view_bits() == 0,
    {
        Selection { bits: 0 }
    }

    /// The raw bits of the selection.
    pub fn bits(&self) -> (r: u32)
        ensures
            r == self.view_bits(),
    {
        self.bits
    }

    /// The selection with the given bits, if each of them is the bit of a
    /// defined flag.
    pub fn from_bits(bits: u32) -> (r: Option<Selection>)
        ensures
            r is Some <==> selection_bits_valid(bits),
            r matches Some(s) ==> s.view_bits() == bits,
    {
        if bits & !bindings::OSSL_KEYMGMT_SELECT_ALL == 0 {
            Some(Selection { bits })
        } else {
            None
        }
    }

    /// The selection with exactly the given bits, defined flags or not.
    pub fn from_bits_retain(bits: u32) -> (r: Selection)
        ensures
            r.view_bits() == bits,
    {
        Selection { bits }
    }

    /// Converts a raw flag value, refusing one that holds an undefined bit.
    pub fn try_from(value: u32) -> (r: Result<Selection, OurError>)
        ensures
            r is Ok <==> selection_bits_valid(value),
            r matches Ok(s) ==> s.view_bits() == value,
            r matches Err(e) ==> e == OurError::InvalidSelection(value),
    {
        match Selection::from_bits(value) {
            Some(s) => Ok(s),
            None => Err(OurError::InvalidSelection(value)),
        }
    }

    /// Whether nothing is selected.
    pub fn is_empty(&self) -> (r: bool)
        ensures
            r == (self.view_bits() == 0),
    {
        self.bits == 0
    }

    /// Whether every part selected by `other` is selected by `self`.
    pub fn contains(&self, other: Selection) -> (r: bool)
        ensures
            r == self.spec_contains(other),
    {
        self.bits & other.bits == other.bits
    }
}

/// The composite flags are the unions of the simple ones: a key pair is
/// the private and the public key, all parameters are the domain and the
/// other parameters, and everything is the key pair and all parameters.
pub proof fn lemma_selection_composites()
    ensures
        bindings::OSSL_KEYMGMT_SELECT_KEYPAIR == bindings::OSSL_KEYMGMT_SELECT_PRIVATE_KEY
            | bindings::OSSL_KEYMGMT_SELECT_PUBLIC_KEY,
        bindings::OSSL_KEYMGMT_SELECT_ALL_PARAMETERS == bindings::OSSL_KEYMGMT_SELECT_DOMAIN_PARAMETERS
            | bindings::OSSL_KEYMGMT_SELECT_OTHER_PARAMETERS,
        bindings::OSSL_KEYMGMT_SELECT_ALL == bindings::OSSL_KEYMGMT_SELECT_KEYPAIR
            | bindings::OSSL_KEYMGMT_SELECT_ALL_PARAMETERS,
{
    assert(0x03u32 == 0x01u32 | 0x02u32) by (bit_vector);
    assert(0x84u32 == 0x04u32 | 0x80u32) by (bit_vector);
    assert(0x87u32 == 0x03u32 | 0x84u32) by (bit_vector);
}

/// A raw value is a valid selection exactly when every bit of it is one of
/// the bits of [`Selection::ALL`].
pub proof fn lemma_selection_valid_within_all(bits: u32)
    ensures
        selection_bits_valid(bits) <==> bits & bindings::OSSL_KEYMGMT_SELECT_ALL == bits,
{
    assert(bits & !0x87u32 == 0 <==> bits & 0x87u32 == bits) by (bit_vector);
}

/// Containment of selections orders them: every selection contains itself
/// and the empty one, containment is transitive, two selections that
/// contain each other are equal, a selection contains the union of any two
/// parts it contains, and one that contains another holds each bit that
/// the other holds.
pub proof fn lemma_selection_contains_is_subset(a: Selection, b: Selection, c: Selection, k: u32)
    requires
        k < 32,
    ensures
        a.spec_contains(a),
        a.view_bits() & 0 == 0,
        a.spec_contains(b) && b.spec_contains(c) ==> a.spec_contains(c),
        a.spec_contains(b) && b.spec_contains(a) ==> a.view_bits() == b.view_bits(),
        a.spec_contains(b) && a.spec_contains(c) ==> a.view_bits() & (b.view_bits()
            | c.view_bits()) == b.view_bits() | c.view_bits(),
        a.spec_contains(b) && (b.view_bits() >> k) & 1 == 1 ==> (a.view_bits() >> k) & 1 == 1,
{
    let x = a.view_bits();
    let y = b.view_bits();
    let z = c.view_bits();
    assert(x & x == x) by (bit_vector);
    assert(x & 0 == 0) by (bit_vector);
    assert((x & y == y && y & z == z) ==> x & z == z) by (bit_vector);
    assert((x & y == y && y & x == x) ==> x == y) by (bit_vector);
    assert((x & y == y && x & z == z) ==> x & (y | z) == y | z) by (bit_vector);
    assert((x & y == y && k < 32 && (y >> k) & 1 == 1) ==> (x >> k) & 1 == 1) by (bit_vector);
}

} // verus!
