use account_auth::{Account, AccountError, DataKey, Signature, UpgradeError};

fn key(b: u8) -> [u8; 32] {
    [b; 32]
}

fn sig(public_key: [u8; 32], fill: u8) -> Signature {
    Signature { public_key, signature: [fill; 64] }
}

#[test]
fn unknown_signer_is_rejected() {
    let acct = Account::new("GADMIN".to_string(), key(1));
    for digest in [[0u8; 32], [7u8; 32], [255u8; 32]] {
        for fill in [0u8, 1, 200] {
            let r = acct.check_auth(&digest, &vec![sig(key(2), fill)]);
            assert_eq!(r, Err(AccountError::UnknownSigner));
        }
    }
}

#[test]
fn key_differing_in_last_byte_is_unknown() {
    let mut other = key(1);
    other[31] = 0;
    let acct = Account::new("GADMIN".to_string(), key(1));
    assert!(!acct.is_trusted(&other));
    let r = acct.check_auth(&[3u8; 32], &vec![sig(other, 9)]);
    assert_eq!(r, Err(AccountError::UnknownSigner));
}

#[test]
fn two_signatures_are_too_many_before_lookup() {
    let acct = Account::new("GADMIN".to_string(), key(1));
    let r = acct.check_auth(&[0u8; 32], &vec![sig(key(2), 0), sig(key(1), 0)]);
    assert_eq!(r, Err(AccountError::TooManySignatures));
    let r = acct.check_auth(&[0u8; 32], &vec![sig(key(1), 0), sig(key(1), 0), sig(key(1), 0)]);
    assert_eq!(r, Err(AccountError::TooManySignatures));
}

#[test]
fn trusted_signer_yields_exact_signature_check() {
    let acct = Account::new("GADMIN".to_string(), key(1));
    let digest = [42u8; 32];
    let mut s = [5u8; 64];
    s[63] = 17;
    let r = acct.check_auth(&digest, &vec![Signature { public_key: key(1), signature: s }]);
    let check = r.unwrap();
    assert_eq!(check.public_key, key(1));
    assert_eq!(check.payload, digest);
    assert_eq!(check.signature, s);
}

#[test]
fn flipped_bit_changes_the_signature_check() {
    let acct = Account::new("GADMIN".to_string(), key(1));
    let digest = [42u8; 32];
    let s = [5u8; 64];
    let mut flipped = s;
    flipped[10] ^= 0x08;
    let a = acct.check_auth(&digest, &vec![Signature { public_key: key(1), signature: s }]).unwrap();
    let b = acct
        .check_auth(&digest, &vec![Signature { public_key: key(1), signature: flipped }])
        .unwrap();
    assert_ne!(a, b);
    assert_eq!(b.signature, flipped);
}

#[test]
fn check_auth_twice_gives_same_result() {
    let acct = Account::new("GADMIN".to_string(), key(1));
    let bundle = vec![sig(key(1), 3)];
    let first = acct.check_auth(&[9u8; 32], &bundle);
    let second = acct.check_auth(&[9u8; 32], &bundle);
    assert_eq!(first, second);
    let bad = vec![sig(key(4), 3)];
    assert_eq!(acct.check_auth(&[9u8; 32], &bad), acct.check_auth(&[9u8; 32], &bad));
}

#[test]
fn error_codes() {
    assert_eq!(AccountError::UnknownSigner.code(), 1);
    assert_eq!(AccountError::TooManySignatures.code(), 2);
}

#[test]
fn storage_entries_after_initialize() {
    let mut acct = Account::uninitialized();
    assert!(!acct.has(&DataKey::Admin));
    assert!(!acct.has(&DataKey::Signer(key(1))));
    acct.initialize("GADMIN".to_string(), key(1));
    assert!(acct.has(&DataKey::Admin));
    assert!(acct.has(&DataKey::Signer(key(1))));
    assert!(!acct.has(&DataKey::Signer(key(2))));
}

#[test]
fn reinitialize_replaces_the_signer() {
    let mut acct = Account::new("GADMIN".to_string(), key(1));
    acct.initialize("GOTHER".to_string(), key(2));
    assert!(!acct.is_trusted(&key(1)));
    assert!(acct.is_trusted(&key(2)));
    assert_eq!(acct.upgrade([0u8; 32]).unwrap().admin, "GOTHER");
}

#[test]
fn upgrade_before_initialize_fails() {
    let acct = Account::uninitialized();
    assert!(matches!(acct.upgrade([1u8; 32]), Err(UpgradeError::NotInitialized)));
}

#[test]
fn upgrade_demands_admin_for_its_own_hash() {
    let acct = Account::new("GADMIN".to_string(), key(1));
    // Authorizing some other digest does not change what the upgrade demands.
    assert!(acct.check_auth(&[8u8; 32], &vec![sig(key(1), 0)]).is_ok());
    let plan = acct.upgrade([6u8; 32]).unwrap();
    assert_eq!(plan.admin, "GADMIN");
    assert_eq!(plan.new_wasm_hash, [6u8; 32]);
}
