use openssl_provider_forge::bindings::{OSSL_DISPATCH, OSSL_KEYMGMT_SELECT_KEYPAIR, OSSL_KEYMGMT_SELECT_PRIVATE_KEY};
use openssl_provider_forge::operations::keymgmt::selection::Selection;
use openssl_provider_forge::operations::transcoders::{
    selection_supported, Decoder, DoesSelection, Encoder,
};
use openssl_provider_forge::OurError;

#[test]
fn selection_from_raw_values() {
    let keypair_selection = Selection::KEYPAIR();
    assert_eq!(keypair_selection.bits(), 0x03);
    let raw_value: u32 = 0x03;
    assert_eq!(Selection::try_from(raw_value).unwrap(), keypair_selection);
    assert_eq!(Selection::try_from(0x08), Err(OurError::InvalidSelection(0x08)));
    assert_eq!(Selection::from_bits(0x87), Some(Selection::ALL()));
    assert_eq!(Selection::from_bits(0x100), None);
    assert!(Selection::empty().is_empty());
}

#[test]
fn selection_contains() {
    assert!(Selection::ALL().contains(Selection::KEYPAIR()));
    assert!(Selection::KEYPAIR().contains(Selection::PUBLIC_KEY()));
    assert!(!Selection::KEYPAIR().contains(Selection::DOMAIN_PARAMETERS()));
    assert!(Selection::ALL_PARAMETERS().contains(Selection::OTHER_PARAMETERS()));
    assert!(!Selection::DOMAIN_PARAMETERS().contains(Selection::ALL_PARAMETERS()));
}

struct PrivOnly;
impl DoesSelection for PrivOnly {
    const SELECTION_MASK: u32 = OSSL_KEYMGMT_SELECT_PRIVATE_KEY;
}

struct KeyPairNoGuess;
impl DoesSelection for KeyPairNoGuess {
    const SELECTION_MASK: u32 = OSSL_KEYMGMT_SELECT_KEYPAIR;
    const SUPPORT_GUESSING: bool = false;
}

#[test]
fn does_selection_decisions() {
    // an empty selection asks the decoder to guess
    assert!(PrivOnly::does_selection(Selection::empty()));
    assert!(!KeyPairNoGuess::does_selection(Selection::empty()));
    // the private key decides first
    assert!(PrivOnly::does_selection(Selection::KEYPAIR()));
    assert!(KeyPairNoGuess::does_selection(Selection::PRIVATE_KEY()));
    // then the public key
    assert!(!PrivOnly::does_selection(Selection::PUBLIC_KEY()));
    assert!(KeyPairNoGuess::does_selection(Selection::PUBLIC_KEY()));
    // then all parameters, which must be selected together
    assert!(!KeyPairNoGuess::does_selection(Selection::ALL_PARAMETERS()));
    assert!(selection_supported(Selection::ALL(), false, Selection::ALL_PARAMETERS()));
    // a selection of only some parameters matches no check
    assert!(!selection_supported(Selection::ALL(), true, Selection::DOMAIN_PARAMETERS()));
}

struct MyDecoder;
impl Decoder for MyDecoder {
    const PROPERTY_DEFINITION: &'static str = "provider=example,input=der";
    const DISPATCH_TABLE: &'static [OSSL_DISPATCH] = &[OSSL_DISPATCH { function_id: 0, function: None }];
}

struct MyEncoder;
impl Encoder for MyEncoder {
    const PROPERTY_DEFINITION: &'static str = "provider=example,output=pem";
    const DISPATCH_TABLE: &'static [OSSL_DISPATCH] = &[];
}

#[test]
fn transcoder_declarations() {
    assert_eq!(MyDecoder::DISPATCH_TABLE.len(), 1);
    assert_eq!(MyDecoder::DISPATCH_TABLE[0], OSSL_DISPATCH::END());
    assert!(MyEncoder::PROPERTY_DEFINITION.contains("output=pem"));
}

#[test]
fn composite_selections_are_unions() {
    assert_eq!(
        Selection::KEYPAIR().bits(),
        Selection::PRIVATE_KEY().bits() | Selection::PUBLIC_KEY().bits()
    );
    assert_eq!(
        Selection::ALL_PARAMETERS().bits(),
        Selection::DOMAIN_PARAMETERS().bits() | Selection::OTHER_PARAMETERS().bits()
    );
    assert_eq!(
        Selection::ALL().bits(),
        Selection::KEYPAIR().bits() | Selection::ALL_PARAMETERS().bits()
    );
}
