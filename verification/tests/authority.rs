use anchor_lang::prelude::Pubkey;
use subscribe::authority::Authority;
use subscribe::error::SubscribeError;
use subscribe::identity::Identity;

const PROGRAM: [u8; 32] = [1; 32];

const DERIVED: [u8; 32] = [
    127, 120, 38, 174, 154, 186, 244, 18, 121, 157, 18, 204, 107, 150, 143, 177, 105, 239, 234,
    237, 40, 137, 220, 159, 34, 86, 123, 46, 239, 159, 217, 150,
];

#[test]
fn label_spells_authority() {
    assert_eq!(Authority::label(), b"authority".to_vec());
}

#[test]
fn derived_address_is_authorized() {
    let authority =
        Authority::authorize(&Identity::new(DERIVED), &Identity::new(PROGRAM)).unwrap();
    assert_eq!(authority.address(), Identity::new(DERIVED));
    assert_eq!(authority.bump(), 254);
}

#[test]
fn authorization_agrees_with_the_runtime_derivation() {
    for fill in [0u8, 1, 7, 200] {
        let program = Pubkey::new_from_array([fill; 32]);
        let (address, bump) = Pubkey::find_program_address(&[b"authority"], &program);
        let authority = Authority::authorize(
            &Identity::new(address.to_bytes()),
            &Identity::new(program.to_bytes()),
        )
        .unwrap();
        assert_eq!(authority.address().bytes, address.to_bytes());
        assert_eq!(authority.bump(), bump);
    }
}

#[test]
fn other_addresses_are_unauthorized() {
    let program = Identity::new(PROGRAM);
    assert_eq!(Authority::authorize(&program, &program), Err(SubscribeError::Unauthorized));
    let mut near = DERIVED;
    near[0] ^= 1;
    assert_eq!(
        Authority::authorize(&Identity::new(near), &program),
        Err(SubscribeError::Unauthorized)
    );
    assert_eq!(
        Authority::authorize(&Identity::new(DERIVED), &Identity::new([7; 32])),
        Err(SubscribeError::Unauthorized)
    );
}

#[test]
fn matching_bump_compares_the_derived_address() {
    let claimed = Identity::new(DERIVED);
    assert_eq!(Authority::matching_bump(Some((claimed, 254)), &claimed), Some(254));
    assert_eq!(Authority::matching_bump(Some((Identity::new(PROGRAM), 254)), &claimed), None);
    assert_eq!(Authority::matching_bump(None, &claimed), None);
}

#[test]
fn signer_seeds_are_label_and_bump() {
    let authority =
        Authority::authorize(&Identity::new(DERIVED), &Identity::new(PROGRAM)).unwrap();
    assert_eq!(authority.signer_seeds(), vec![b"authority".to_vec(), vec![254u8]]);
    let seeds = authority.signer_seeds();
    let parts: Vec<&[u8]> = seeds.iter().map(|seed| seed.as_slice()).collect();
    let signed_for = Pubkey::create_program_address(&parts, &Pubkey::new_from_array(PROGRAM));
    assert_eq!(signed_for.unwrap().to_bytes(), DERIVED);
}
