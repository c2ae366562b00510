use std::collections::hash_map::DefaultHasher;
use std::hash::{Hash, Hasher};

use validity::phone::{InvalidPhoneNumber, PhoneNumber};
use validity::percent::{InvalidPercent, Percent};
use validity::{Valid, Validate, ValidateDefault};

fn digits(s: &str) -> Vec<u8> {
    s.as_bytes().to_vec()
}

#[test]
fn construction_soundness_unwraps_to_same_value() {
    let p = PhoneNumber {
        digits: digits("01234567890"),
    };
    let w = p.clone().validate().unwrap();
    assert_eq!(w.into_inner(), p);
}

#[test]
fn construction_rejection_returns_exact_error() {
    let p = Percent { value: 101 };
    let r = p.validate();
    assert_eq!(r.unwrap_err(), InvalidPercent::OverOneHundred);
}

#[test]
fn transparency_read_access_equals_unwrap() {
    let p = Percent { value: 42 };
    let w = p.validate().unwrap();
    let seen = *w;
    assert_eq!(seen, w.into_inner());
}

#[test]
fn transparency_unwrap_then_rewrap_round_trips() {
    let w = PhoneNumber {
        digits: digits("01234567890"),
    }
    .validate()
    .unwrap();
    let again = w.clone().into_inner().validate().unwrap();
    assert_eq!(w, again);
}

#[test]
fn default_context_entry_point_matches_explicit_unit_context() {
    let good = Percent { value: 7 };
    assert_eq!(good.validate_with(&()), good.validate());

    let bad = Percent { value: 200 };
    assert_eq!(bad.validate_with(&()), bad.validate());

    let short = PhoneNumber {
        digits: digits("123"),
    };
    assert_eq!(
        short.clone().validate_with(&()).unwrap_err(),
        short.validate().unwrap_err()
    );
}

#[test]
fn equality_forwards_to_payload() {
    let a = PhoneNumber {
        digits: digits("01234567890"),
    };
    let b = PhoneNumber {
        digits: digits("01234567890"),
    };
    let c = PhoneNumber {
        digits: digits("09876543210"),
    };
    let wa = a.validate().unwrap();
    let wb = b.validate().unwrap();
    let wc = c.validate().unwrap();
    assert_eq!(wa, wb);
    assert_ne!(wa, wc);
    assert_eq!(wa == wb, *wa == *wb);
    assert_eq!(wa == wc, *wa == *wc);
}

#[test]
fn ordering_forwards_to_payload() {
    let small = Percent { value: 10 }.validate().unwrap();
    let large = Percent { value: 90 }.validate().unwrap();
    assert!(small < large);
    assert!(large > small);
    assert_eq!(small.partial_cmp(&large), (*small).partial_cmp(&*large));
    assert_eq!(small.cmp(&large), (*small).cmp(&*large));
}

#[test]
fn hashing_forwards_to_payload() {
    let p = PhoneNumber {
        digits: digits("01234567890"),
    };
    let w = p.clone().validate().unwrap();

    let mut payload_hasher = DefaultHasher::new();
    p.hash(&mut payload_hasher);
    let mut wrapper_hasher = DefaultHasher::new();
    w.hash(&mut wrapper_hasher);
    assert_eq!(payload_hasher.finish(), wrapper_hasher.finish());
}

#[test]
fn escape_hatch_bypasses_the_predicate() {
    let bad = PhoneNumber {
        digits: digits("not a phone number"),
    };
    assert_eq!(
        bad.clone().validate().unwrap_err(),
        InvalidPhoneNumber::WrongLength
    );
    let w: Valid<PhoneNumber> = Valid::danger_new_unvalidated(bad.clone());
    assert_eq!(*w, bad);
    assert_eq!(w.into_inner(), bad);
}
