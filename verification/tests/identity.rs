use noughts_and_crosses::error::AddressError;
use noughts_and_crosses::identity::Identity;
use solana_program::pubkey::Pubkey;

fn numbered(first: u8) -> [u8; 32] {
    let mut bytes = [0u8; 32];
    for (i, byte) in bytes.iter_mut().enumerate() {
        *byte = first.wrapping_add(i as u8);
    }
    bytes
}

#[test]
fn an_identity_keeps_its_bytes() {
    let id = Identity::new(numbered(9));
    assert_eq!(id.to_bytes(), numbered(9));
    assert_eq!(id.bytes, numbered(9));
}

#[test]
fn identities_are_the_same_by_their_bytes() {
    let id = Identity::new(numbered(9));
    assert!(id.same_as(&Identity::new(numbered(9))));
    assert!(!id.same_as(&Identity::new(numbered(10))));
    let mut last = numbered(9);
    last[31] ^= 1;
    assert!(!id.same_as(&Identity::new(last)));
    let mut first = numbered(9);
    first[0] ^= 1;
    assert!(!id.same_as(&Identity::new(first)));
}

#[test]
fn the_text_of_an_identity_is_base_58() {
    assert_eq!(Identity::new([0u8; 32]).to_text(), "11111111111111111111111111111111");
    let mut one = [0u8; 32];
    one[31] = 1;
    assert_eq!(Identity::new(one).to_text(), "11111111111111111111111111111112");
    assert_eq!(
        Identity::new([255u8; 32]).to_text(),
        "JEKNVnkbo3jma5nREBBJCDoXFVeKkD56V3xKrvRmWxFG"
    );
    assert_eq!(Identity::new(numbered(7)).to_text(), Pubkey::new_from_array(numbered(7)).to_string());
}

#[test]
fn an_address_is_derived_as_the_ledger_derives_it() {
    let base = Identity::new(numbered(1));
    let owner = Identity::new(numbered(2));
    let address = Identity::create_with_seed(&base, "a seed", &owner).unwrap();
    let expected = Pubkey::create_with_seed(
        &Pubkey::new_from_array(numbered(1)),
        "a seed",
        &Pubkey::new_from_array(numbered(2)),
    )
    .unwrap();
    assert_eq!(address.to_bytes(), expected.to_bytes());
    assert_ne!(address, base);
    assert_ne!(address, owner);
    assert_eq!(Identity::create_with_seed(&base, "a seed", &owner), Ok(address));
    assert_ne!(Identity::create_with_seed(&base, "b seed", &owner), Ok(address));
    assert_ne!(Identity::create_with_seed(&owner, "a seed", &owner), Ok(address));
    assert_ne!(Identity::create_with_seed(&base, "a seed", &base), Ok(address));
}

#[test]
fn a_seed_of_32_bytes_is_the_longest() {
    let base = Identity::new(numbered(1));
    let owner = Identity::new(numbered(2));
    let longest = "a".repeat(32);
    assert!(Identity::create_with_seed(&base, &longest, &owner).is_ok());
    let too_long = "a".repeat(33);
    assert_eq!(
        Identity::create_with_seed(&base, &too_long, &owner),
        Err(AddressError::MaxSeedLengthExceeded)
    );
    let eleven_characters = "\u{20ac}".repeat(11);
    assert_eq!(
        Identity::create_with_seed(&base, &eleven_characters, &owner),
        Err(AddressError::MaxSeedLengthExceeded)
    );
    assert!(Identity::create_with_seed(&base, "", &owner).is_ok());
}

#[test]
fn a_reserved_owner_is_refused() {
    let base = Identity::new(numbered(1));
    let mut bytes = [0u8; 32];
    bytes[11..].copy_from_slice(b"ProgramDerivedAddress");
    let reserved = Identity::new(bytes);
    assert_eq!(
        Identity::create_with_seed(&base, "seed", &reserved),
        Err(AddressError::IllegalOwner)
    );
    let too_long = "a".repeat(33);
    assert_eq!(
        Identity::create_with_seed(&base, &too_long, &reserved),
        Err(AddressError::MaxSeedLengthExceeded)
    );
    bytes[31] = b'z';
    assert!(Identity::create_with_seed(&base, "seed", &Identity::new(bytes)).is_ok());
}
