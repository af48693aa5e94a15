//! Decoders and encoders: what a provider declares for them, and whether a
//! decoder handles a requested key selection.
use vstd::prelude::*;
use super::keymgmt::selection::Selection;
use crate::bindings::{self, OSSL_DISPATCH};

verus! {

/// A decoder implementation offered by a provider.
pub trait Decoder {
    /// The property definition string of the implementation.
    const PROPERTY_DEFINITION: &'static str;
    /// The dispatch table of the implementation.
    const DISPATCH_TABLE: &'static [OSSL_DISPATCH];
}

/// An encoder implementation offered by a provider.
pub trait Encoder {
    /// The property definition string of the implementation.
    const PROPERTY_DEFINITION: &'static str;
    /// The dispatch table of the implementation.
    const DISPATCH_TABLE: &'static [OSSL_DISPATCH];
}

/// Whether `bits` sets every bit of `part`.
pub open spec fn bits_contain(bits: u32, part: u32) -> bool {
    bits & part == part
}

/// The answer to "does an implementation that offers the parts in `mask`
/// handle `selection`?": an empty selection is answered by `support_guessing`;
/// otherwise the first of private key, public key, all parameters that the
/// selection holds decides, by whether the mask holds it too; a selection
/// that holds none of them is refused.
pub open spec fn selection_verdict(mask: u32, support_guessing: bool, selection: u32) -> bool {
    if selection == 0 {
        support_guessing
    } else if bits_contain(selection, bindings::OSSL_KEYMGMT_SELECT_PRIVATE_KEY) {
        bits_contain(mask, bindings::OSSL_KEYMGMT_SELECT_PRIVATE_KEY)
    } else if bits_contain(selection, bindings::OSSL_KEYMGMT_SELECT_PUBLIC_KEY) {
        bits_contain(mask, bindings::OSSL_KEYMGMT_SELECT_PUBLIC_KEY)
    } else if bits_contain(selection, bindings::OSSL_KEYMGMT_SELECT_ALL_PARAMETERS) {
        bits_contain(mask, bindings::OSSL_KEYMGMT_SELECT_ALL_PARAMETERS)
    } else {
        false
    }
}

/// Decides whether an implementation handles a requested key selection.
pub fn selection_supported(mask: Selection, support_guessing: bool, selection: Selection) -> (r: bool)
    ensures
        r == selection_verdict(mask.view_bits(), support_guessing, selection.view_bits()),
{
    if selection.is_empty() {
        return support_guessing;
    }
    let checks: [Selection; 3] = [
        Selection::PRIVATE_KEY(),
        Selection::PUBLIC_KEY(),
        Selection::ALL_PARAMETERS(),
    ];
    let ghost wanted: Seq<u32> = seq![
        bindings::OSSL_KEYMGMT_SELECT_PRIVATE_KEY,
        bindings::OSSL_KEYMGMT_SELECT_PUBLIC_KEY,
        bindings::OSSL_KEYMGMT_SELECT_ALL_PARAMETERS,
    ];
    assert(wanted[0] == bindings::OSSL_KEYMGMT_SELECT_PRIVATE_KEY);
    assert(wanted[1] == bindings::OSSL_KEYMGMT_SELECT_PUBLIC_KEY);
    assert(wanted[2] == bindings::OSSL_KEYMGMT_SELECT_ALL_PARAMETERS);
    for i in 0..3
        invariant
            selection.view_bits() != 0,
            wanted.len() == 3,
            wanted[0] == bindings::OSSL_KEYMGMT_SELECT_PRIVATE_KEY,
            wanted[1] == bindings::OSSL_KEYMGMT_SELECT_PUBLIC_KEY,
            wanted[2] == bindings::OSSL_KEYMGMT_SELECT_ALL_PARAMETERS,
            forall|j: int| 0 <= j < 3 ==> #[trigger] checks@[j].view_bits() == wanted[j],
            forall|j: int| 0 <= j < i ==> !bits_contain(selection.view_bits(), #[trigger] wanted[j]),
    {
        let check = checks[i];
        if selection.contains(check) {
            return mask.contains(check);
        }
    }
    false
}

/// What an implementation's answer means, for every mask and selection:
/// an empty selection gets the guessing answer; a selection that holds the
/// private key (bit 0x01) is handled exactly when the mask offers the
/// private key; one that holds the public key (0x02) but not the private key
/// exactly when the mask offers the public key; and a handled non-empty
/// selection always shares a part with the mask. An implementation that
/// offers everything (0x87) handles every selection that holds one of the
/// three parts, and one that offers nothing handles no non-empty selection.
pub proof fn lemma_selection_verdict_meaning(mask: u32, support_guessing: bool, selection: u32)
    ensures
        selection == 0 ==> selection_verdict(mask, support_guessing, selection) == support_guessing,
        selection != 0 && selection & 0x01 == 0x01 ==> (selection_verdict(
            mask,
            support_guessing,
            selection,
        ) <==> mask & 0x01 == 0x01),
        selection != 0 && selection & 0x01 == 0 && selection & 0x02 == 0x02 ==> (
        selection_verdict(mask, support_guessing, selection) <==> mask & 0x02 == 0x02),
        selection != 0 && selection & 0x03 == 0 && selection & 0x84 == 0x84 ==> (
        selection_verdict(mask, support_guessing, selection) <==> mask & 0x84 == 0x84),
        selection != 0 && selection_verdict(mask, support_guessing, selection) ==> mask & selection
            != 0,
        selection != 0 && (selection & 0x03 != 0 || selection & 0x84 == 0x84)
            ==> selection_verdict(0x87, support_guessing, selection),
        selection != 0 ==> !selection_verdict(0, support_guessing, selection),
{
    assert(selection & 0x01 == 0x01 && mask & 0x01 == 0x01 ==> mask & selection != 0)
        by (bit_vector);
    assert(selection & 0x02 == 0x02 && mask & 0x02 == 0x02 ==> mask & selection != 0)
        by (bit_vector);
    assert(selection & 0x84 == 0x84 && mask & 0x84 == 0x84 ==> mask & selection != 0)
        by (bit_vector);
    assert(selection & 0x01 == 0x01 ==> 0x87u32 & 0x01 == 0x01) by (bit_vector);
    assert(0x87u32 & 0x02 == 0x02 && 0x87u32 & 0x84 == 0x84) by (bit_vector);
    assert(selection & 0x03 != 0 ==> (selection & 0x01 == 0x01 || selection & 0x02 == 0x02))
        by (bit_vector);
    assert(selection & 0x03 == 0 <==> (selection & 0x01 == 0 && selection & 0x02 == 0))
        by (bit_vector);
    assert(selection & 0x01 != 0x01 <==> selection & 0x01 == 0) by (bit_vector);
    assert(selection & 0x02 != 0x02 <==> selection & 0x02 == 0) by (bit_vector);
    assert(0u32 & 0x01 != 0x01 && 0u32 & 0x02 != 0x02 && 0u32 & 0x84 != 0x84) by (bit_vector);
}

/// Says whether a decoder handles a key selection.
pub trait DoesSelection {
    /// The parts of a key (raw selection bits) that the implementation offers.
    const SELECTION_MASK: u32;
    /// The answer for an empty selection, where OpenSSL asks the decoder to guess.
    const SUPPORT_GUESSING: bool = true;

    /// Whether the implementation handles `selection`: see [`selection_verdict`].
    fn does_selection(selection: Selection) -> (r: bool)
        ensures
            r == selection_verdict(Self::SELECTION_MASK, Self::SUPPORT_GUESSING, selection.view_bits()),
    {
        let mask = Selection::from_bits_retain(Self::SELECTION_MASK);
        selection_supported(mask, Self::SUPPORT_GUESSING, selection)
    }
}

} // verus!
