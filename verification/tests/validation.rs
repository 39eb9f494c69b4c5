//! The validators on concrete inputs.

use validated_values::email::Email;
use validated_values::id::Id;
use validated_values::invalid::Invalid;
use validated_values::text::Text;
use validated_values::username::check_username;
use validated_values::username::sanitize_username;
use validated_values::username::Username;
use validated_values::value::ValidatedValue;
use validated_values::Error;
use validated_values::Kind;

#[test]
fn username_accepts_plain_names() {
    for ok in ["alice", "a", "A9", "9lives", "user_name_42", "X_"] {
        let parsed = Username::parse(ok).expect("should parse");
        assert_eq!(parsed.as_text(), ok);
        assert_eq!(parsed.render(), ok.to_string());
    }
}

#[test]
fn username_rejects_bad_names() {
    for bad in ["", "_alice", "has space", "tail!", "dot.ted", "héllo", "a-b"] {
        match Username::parse(bad) {
            Ok(_) => panic!("should reject {:?}", bad),
            Err(Error::FailedParsing(kind, raw)) => {
                assert_eq!(kind, Kind::Username);
                assert_eq!(raw, bad.to_string());
            }
            Err(other) => panic!("wrong error {:?}", other),
        }
    }
}

#[test]
fn username_checker_matches_grammar() {
    assert!(check_username("abc_123"));
    assert!(!check_username(""));
    assert!(!check_username("_x"));
    assert!(!check_username("x y"));
}

#[test]
fn username_sanitizer_repairs_raw_names() {
    assert_eq!(sanitize_username("john.doe"), "john_doe".to_string());
    assert_eq!(sanitize_username("_tail"), "u_tail".to_string());
    assert_eq!(sanitize_username(""), "u".to_string());
    assert_eq!(sanitize_username("a b!c"), "abc".to_string());
    assert!(check_username(&sanitize_username("...")));
}

#[test]
fn email_accepts_and_rejects() {
    let parsed = Email::parse("user@example.com").expect("should parse");
    assert_eq!(parsed.as_text(), "user@example.com");
    match Email::parse("not-an-address") {
        Ok(_) => panic!("should reject"),
        Err(Error::FailedParsing(kind, raw)) => {
            assert_eq!(kind, Kind::Email);
            assert_eq!(raw, "not-an-address".to_string());
        }
        Err(other) => panic!("wrong error {:?}", other),
    }
}

#[test]
fn text_accepts_everything() {
    for any in ["", "hello world", "héllo\nthere"] {
        let parsed = Text::parse(any).expect("text always parses");
        assert_eq!(parsed.as_text(), any);
    }
}

#[test]
fn id_round_trips_canonical_text() {
    let raw = "550e8400-e29b-41d4-a716-446655440000";
    let id = Id::<()>::parse(raw).expect("should parse");
    assert_eq!(id.render(), raw.to_string());
    assert_eq!(id.value(), 0x550e8400_e29b_41d4_a716_446655440000u128);
    let again = Id::<()>::parse(&id.render()).expect("canonical text parses");
    assert_eq!(again.value(), id.value());
}

#[test]
fn id_rejects_junk() {
    match Id::<()>::parse("zz") {
        Ok(_) => panic!("should reject"),
        Err(Error::FailedParsing(kind, raw)) => {
            assert_eq!(kind, Kind::Id);
            assert_eq!(raw, "zz".to_string());
        }
        Err(other) => panic!("wrong error {:?}", other),
    }
}

#[test]
fn id_from_u128_keeps_value() {
    let id = Id::<()>::from_u128(42);
    assert_eq!(id.value(), 42);
    let rendered = id.render();
    assert_eq!(rendered, "00000000-0000-0000-0000-00000000002a".to_string());
}

#[test]
fn invalid_wrapper_parses_like_inner() {
    let wrapped = Invalid::<Username>::parse("alice").expect("valid inner text parses");
    assert_eq!(wrapped.get(), "alice".to_string());
    assert!(Invalid::<Username>::parse("_alice").is_err());
}

#[test]
fn kind_names_are_stable() {
    assert_eq!(Kind::Email.as_text(), "email".to_string());
    assert_eq!(Kind::Username.as_text(), "username".to_string());
    assert_eq!(Kind::Id.as_text(), "id".to_string());
    assert_eq!(Kind::Text.as_text(), "text".to_string());
}
