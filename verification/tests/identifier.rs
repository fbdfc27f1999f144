use rio_notifier::identifier::{identifier_for, next_identifier};
use std::sync::atomic::AtomicU64;

#[test]
fn identifiers_spell_the_number() {
    assert_eq!(identifier_for(0), "rio-notification-0");
    assert_eq!(identifier_for(7), "rio-notification-7");
    assert_eq!(identifier_for(42), "rio-notification-42");
    assert_eq!(identifier_for(1000), "rio-notification-1000");
    assert_eq!(identifier_for(u64::MAX), "rio-notification-18446744073709551615");
}

#[test]
fn successive_identifiers_differ() {
    let source = AtomicU64::new(0);
    let first = next_identifier(&source);
    let second = next_identifier(&source);
    assert_eq!(first, "rio-notification-0");
    assert_eq!(second, "rio-notification-1");
    assert_ne!(first, second);
}

#[test]
fn identifiers_of_different_numbers_differ() {
    assert_ne!(identifier_for(1), identifier_for(11));
    assert_ne!(identifier_for(10), identifier_for(100));
}
