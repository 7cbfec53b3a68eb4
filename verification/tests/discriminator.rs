use anchor_idl::account_discriminator;
use anchor_idl::derive_discriminator;
use anchor_idl::instruction_discriminator;
use anchor_idl::Namespace;

/// First 8 bytes of SHA-256 over the UTF-8 bytes of "account:User",
/// computed independently.
const USER_ACCOUNT_DISCRIM: [u8; 8] = [0x9f, 0x75, 0x5f, 0xe3, 0xef, 0x97, 0x3a, 0xec];

/// First 8 bytes of SHA-256 over the UTF-8 bytes of "global:place_order",
/// computed independently.
const PLACE_ORDER_IX_DISCRIM: [u8; 8] = [0x33, 0xc2, 0x9b, 0xaf, 0x6d, 0x82, 0x60, 0x6a];

#[test]
fn reference_vector_account_user() {
    assert_eq!(account_discriminator("User"), USER_ACCOUNT_DISCRIM);
    assert_eq!(
        derive_discriminator(Namespace::Account, "User"),
        USER_ACCOUNT_DISCRIM
    );
}

#[test]
fn reference_vector_instruction_place_order() {
    assert_eq!(instruction_discriminator("place_order"), PLACE_ORDER_IX_DISCRIM);
    assert_eq!(
        derive_discriminator(Namespace::Instruction, "place_order"),
        PLACE_ORDER_IX_DISCRIM
    );
}

#[test]
fn derivation_is_deterministic() {
    let a = derive_discriminator(Namespace::Account, "User");
    let b = derive_discriminator(Namespace::Account, "User");
    assert_eq!(a, b);
    let c = derive_discriminator(Namespace::Instruction, "place_order");
    let d = derive_discriminator(Namespace::Instruction, "place_order");
    assert_eq!(c, d);
}

#[test]
fn account_names_normalize_to_pascal_case() {
    assert_eq!(
        derive_discriminator(Namespace::Account, "myAccount"),
        derive_discriminator(Namespace::Account, "MyAccount")
    );
    assert_eq!(
        derive_discriminator(Namespace::Account, "my_account"),
        derive_discriminator(Namespace::Account, "MyAccount")
    );
}

#[test]
fn instruction_names_normalize_to_snake_case() {
    assert_eq!(
        derive_discriminator(Namespace::Instruction, "PlaceOrder"),
        derive_discriminator(Namespace::Instruction, "place_order")
    );
    assert_eq!(
        derive_discriminator(Namespace::Instruction, "placeOrder"),
        derive_discriminator(Namespace::Instruction, "place_order")
    );
}

#[test]
fn namespaces_tag_differently() {
    assert_ne!(
        derive_discriminator(Namespace::Account, "User"),
        derive_discriminator(Namespace::Instruction, "User")
    );
}

#[test]
fn empty_name_hashes_the_bare_prefix() {
    // First 8 bytes of SHA-256 over "account:" and over "global:",
    // computed independently: an empty name normalizes to itself.
    assert_eq!(
        derive_discriminator(Namespace::Account, ""),
        [0xcc, 0xf1, 0xf0, 0xfb, 0x14, 0xc5, 0xc3, 0x12]
    );
    assert_eq!(
        derive_discriminator(Namespace::Instruction, ""),
        [0xc1, 0x4c, 0x18, 0x13, 0x10, 0xce, 0x50, 0x45]
    );
}

#[test]
fn account_discriminator_differs_from_raw_name_bytes() {
    let d = account_discriminator("UserData");
    assert_ne!(&d[..], "UserData".as_bytes());
    assert_ne!(&d[..], "account:UserData".as_bytes());
}
