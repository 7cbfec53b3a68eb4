use anchor_idl::account_discriminator;
use anchor_idl::BuildError;
use anchor_idl::LookupError;
use anchor_idl::Namespace;
use anchor_idl::TaggedUnion;

fn fixture_names() -> Vec<String> {
    vec![
        "User".to_string(),
        "Order".to_string(),
        "Escrow".to_string(),
        "Market".to_string(),
        "Position".to_string(),
    ]
}

#[test]
fn build_keeps_declaration_order() {
    let reg = TaggedUnion::build(Namespace::Account, fixture_names()).unwrap();
    assert_eq!(reg.len(), 5);
    assert_eq!(reg.namespace(), Namespace::Account);
    assert_eq!(reg.variant_at(0).name, "User");
    assert_eq!(reg.variant_at(4).name, "Position");
    assert_eq!(reg.variant_at(0).discriminator, account_discriminator("User"));
}

#[test]
fn discriminators_pairwise_distinct() {
    let reg = TaggedUnion::build(Namespace::Account, fixture_names()).unwrap();
    let n = reg.len();
    for i in 0..n {
        for j in 0..n {
            if i != j {
                assert_ne!(
                    reg.variant_at(i).discriminator,
                    reg.variant_at(j).discriminator
                );
            }
        }
    }
}

#[test]
fn duplicate_name_rejected() {
    let names = vec!["User".to_string(), "Order".to_string(), "User".to_string()];
    let err = TaggedUnion::build(Namespace::Account, names).unwrap_err();
    assert_eq!(err, BuildError::DuplicateName { name: "User".to_string() });
}

#[test]
fn name_to_discrim_finds_registered_name() {
    let reg = TaggedUnion::build(Namespace::Account, fixture_names()).unwrap();
    let d = reg.name_to_discrim("User").unwrap();
    assert_eq!(d, account_discriminator("User"));
    let d = reg.name_to_discrim("Position").unwrap();
    assert_eq!(d, account_discriminator("Position"));
}

#[test]
fn name_to_discrim_rejects_unregistered_name() {
    let reg = TaggedUnion::build(Namespace::Account, fixture_names()).unwrap();
    assert_eq!(reg.name_to_discrim("Nonexistent").unwrap_err(), LookupError::UnknownName);
    // No hash is recomputed for arbitrary input: a decodable name that was
    // never registered is refused even though it has a derivable tag.
    assert_eq!(reg.name_to_discrim("Admin").unwrap_err(), LookupError::UnknownName);
}

#[test]
fn discrim_to_name_finds_registered_tag() {
    let reg = TaggedUnion::build(Namespace::Account, fixture_names()).unwrap();
    let name = reg.discrim_to_name(account_discriminator("Escrow")).unwrap();
    assert_eq!(name, "Escrow");
}

#[test]
fn discrim_to_name_rejects_unknown_tag() {
    let reg = TaggedUnion::build(Namespace::Account, fixture_names()).unwrap();
    let err = reg.discrim_to_name([0xAA, 0x01, 0x55, 0xFE, 0x07, 0xB2, 0x9C, 0x40]).unwrap_err();
    assert_eq!(err, LookupError::UnknownDiscriminator);
}

#[test]
fn empty_registry_builds_and_answers_nothing() {
    let reg = TaggedUnion::build(Namespace::Instruction, Vec::new()).unwrap();
    assert_eq!(reg.len(), 0);
    assert_eq!(reg.name_to_discrim("anything").unwrap_err(), LookupError::UnknownName);
    assert_eq!(reg.discrim_to_name([0u8; 8]).unwrap_err(), LookupError::UnknownDiscriminator);
}
