use quarry_core::error::ErrorCode;
use quarry_core::key::Key;
use quarry_core::Key as KeyReexport;

fn key(n: u8) -> Key {
    Key { bytes: [n; 32] }
}

#[test]
fn key_eq_equal_keys() {
    let a = key(3);
    let b = key(3);
    assert!(a.key_eq(&b));
}

#[test]
fn key_eq_detects_single_byte_difference() {
    let a = key(3);
    let mut b = key(3);
    b.bytes[31] = 4;
    assert!(!a.key_eq(&b));
    let mut c = key(3);
    c.bytes[0] = 4;
    assert!(!a.key_eq(&c));
}

#[test]
fn zero_key_is_zero() {
    let z = Key::zero();
    assert!(z.is_zero());
    assert_eq!(z.bytes, [0u8; 32]);
    assert!(!key(1).is_zero());
    let mut almost = Key::zero();
    almost.bytes[16] = 1;
    assert!(!almost.is_zero());
}

#[test]
fn key_to_vec_round_trip() {
    let a = key(5);
    let v = a.to_vec();
    assert_eq!(v.len(), 32);
    assert!(v.iter().all(|b| *b == 5));
}

#[test]
fn key_reexport_is_same_type() {
    let a: KeyReexport = key(1);
    assert_eq!(a, key(1));
}

#[test]
fn error_labels_name_each_failure() {
    assert_eq!(ErrorCode::Unauthorized.label(), "Unauthorized.");
    assert_eq!(ErrorCode::Paused.label(), "Rewarder is paused.");
    assert_eq!(ErrorCode::PendingAuthorityNotSet.label(), "Pending authority not set.");
    assert_eq!(ErrorCode::KeyMismatch.label(), "Key mismatch.");
    assert_eq!(ErrorCode::AssociatedAccountMismatch.label(), "Associated token account mismatch.");
    assert_eq!(ErrorCode::ArithmeticOverflow.label(), "Arithmetic overflow.");
}
