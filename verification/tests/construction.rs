use key_expr::{ErrorKind, KeyExpr, KeyExprError};
use std::collections::hash_map::DefaultHasher;
use std::hash::{Hash, Hasher};
use std::str::FromStr;

fn hash_of(k: &KeyExpr) -> u64 {
    let mut h = DefaultHasher::new();
    k.hash(&mut h);
    h.finish()
}

fn hash_of_str(s: &str) -> u64 {
    let mut h = DefaultHasher::new();
    s.hash(&mut h);
    h.finish()
}

#[test]
fn borrowed_text_round_trips() {
    for s in ["a", "a/b", "a/*/c", "a/**", "**", "*", "a/b$*", "dem$*/x", "été/ñ", "a/*/**"] {
        let k = KeyExpr::try_from(s).unwrap();
        assert_eq!(k.as_keyexpr(), s);
        assert!(!k.is_owned());
        assert_eq!(k.wire(), None);
    }
}

#[test]
fn owned_text_round_trips() {
    for s in ["a", "a/b", "a/*/c", "a/**", "**", "été/ñ"] {
        let k = KeyExpr::try_from(s.to_string()).unwrap();
        assert_eq!(k.as_keyexpr(), s);
        assert!(k.is_owned());
        assert_eq!(k.wire(), None);
    }
}

#[test]
fn parsed_text_round_trips() {
    let k: KeyExpr<'static> = "demo/example/**".parse().unwrap();
    assert_eq!(k.as_keyexpr(), "demo/example/**");
    assert!(k.is_owned());
    let k = KeyExpr::from_str("demo/example").unwrap();
    assert_eq!(k.to_string(), "demo/example");
}

#[test]
fn string_reference_round_trips() {
    let s = String::from("some/workspace");
    let k = KeyExpr::try_from(&s).unwrap();
    assert_eq!(k.as_keyexpr(), "some/workspace");
    assert!(!k.is_owned());
}

#[test]
fn mutable_string_round_trips_and_is_left_alone() {
    let mut s = String::from("some/workspace");
    {
        let k = KeyExpr::try_from(&mut s).unwrap();
        assert_eq!(k.as_keyexpr(), "some/workspace");
        assert!(!k.is_owned());
    }
    assert_eq!(s, "some/workspace");
}

#[test]
fn mutable_str_round_trips_and_is_left_alone() {
    let mut s: Box<str> = Box::from("hello/*/**");
    {
        let m: &mut str = &mut s;
        let k = KeyExpr::try_from(m).unwrap();
        assert_eq!(k.as_keyexpr(), "hello/*/**");
    }
    assert_eq!(&*s, "hello/*/**");
}

#[test]
fn text_out_of_canon_form_is_not_rewritten() {
    let mut s: Box<str> = Box::from("hello/**/*");
    let m: &mut str = &mut s;
    let r = KeyExpr::try_from(m);
    assert!(matches!(r, Err(KeyExprError::InvalidKeyExpression(_))));
    assert_eq!(&*s, "hello/**/*");
}

#[test]
fn malformed_text_is_refused() {
    for s in [
        "", "/", "a/", "/a", "a//b", "a/#", "a?b", "a/$*", "$*", "**/**", "**/*", "a/**b", "a**",
        "a/b$", "a$b", "a/$*$*",
    ] {
        let r = KeyExpr::try_from(s);
        match r {
            Err(KeyExprError::InvalidKeyExpression(reason)) => assert!(!reason.is_empty()),
            other => panic!("{:?} gave {:?}", s, other),
        }
        let r = KeyExpr::try_from(s.to_string());
        assert_eq!(r.unwrap_err().kind(), ErrorKind::InvalidKeyExpression);
        let r = KeyExpr::from_str(s);
        assert_eq!(r.unwrap_err().kind(), ErrorKind::InvalidKeyExpression);
        let owned = s.to_string();
        let r = KeyExpr::try_from(&owned);
        assert_eq!(r.unwrap_err().kind(), ErrorKind::InvalidKeyExpression);
    }
}

#[test]
fn unchecked_constructors_take_the_text_as_it_is() {
    let k = owned_unchecked("a//b");
    assert_eq!(k.as_keyexpr(), "a//b");
    assert!(k.is_owned());
    let k = KeyExpr::from_boxed_string_unchecked(Box::from("x/#"));
    assert_eq!(k.as_keyexpr(), "x/#");
    assert!(k.is_owned());
    let k = KeyExpr::from_str_uncheckend("");
    assert_eq!(k.as_keyexpr(), "");
    assert!(!k.is_owned());
    assert_eq!(k.wire(), None);
}

fn owned_unchecked(s: &str) -> KeyExpr<'static> {
    KeyExpr::from_string_unchecked(s.to_string())
}

#[test]
fn confirm_follows_the_judgement() {
    let k = KeyExpr::from_str_uncheckend("a/b");
    let r = k.confirm(Ok(()));
    assert_eq!(r.unwrap().as_keyexpr(), "a/b");
    let k = KeyExpr::from_str_uncheckend("a/b");
    let r = k.confirm(Err(String::from("said no")));
    assert_eq!(
        r,
        Err(KeyExprError::InvalidKeyExpression(String::from("said no")))
    );
}

#[test]
fn constructors_agree_on_equality_and_hash() {
    let text = "demo/example/*";
    let validated_owned = KeyExpr::try_from(text.to_string()).unwrap();
    let validated_borrowed = KeyExpr::try_from(text).unwrap();
    let parsed = KeyExpr::from_str(text).unwrap();
    let unchecked_owned = KeyExpr::from_string_unchecked(text.to_string());
    let unchecked_boxed = KeyExpr::from_boxed_string_unchecked(Box::from(text));
    let unchecked_borrowed = KeyExpr::from_str_uncheckend(text);
    let all = [
        validated_owned,
        validated_borrowed,
        parsed,
        unchecked_owned,
        unchecked_boxed,
        unchecked_borrowed,
    ];
    for a in &all {
        for b in &all {
            assert!(a == b);
            assert!(!(a != b));
            assert_eq!(hash_of(a), hash_of(b));
        }
        assert_eq!(hash_of(a), hash_of_str(text));
    }
}

#[test]
fn different_texts_are_different_keys() {
    let a = KeyExpr::try_from("a/b").unwrap();
    let b = KeyExpr::try_from("a/c").unwrap();
    assert!(a != b);
    assert!(!(a == b));
}

#[test]
fn owned_then_borrowed_is_the_same_key() {
    let source = KeyExpr::try_from("a/b/**").unwrap();
    let owned = source.clone().into_owned();
    assert!(owned.is_owned());
    assert_eq!(owned.as_keyexpr(), "a/b/**");
    let borrowed = owned.borrowing_clone();
    assert!(!borrowed.is_owned());
    assert_eq!(borrowed.as_keyexpr(), "a/b/**");
    assert_eq!(borrowed, source);
    assert_eq!(hash_of(&borrowed), hash_of(&source));
}

#[test]
fn clone_keeps_shape_and_text() {
    let b = KeyExpr::try_from("a/b").unwrap();
    let c = b.clone();
    assert!(!c.is_owned());
    assert_eq!(c.as_keyexpr(), "a/b");
    let o = KeyExpr::try_from(String::from("a/b")).unwrap();
    let c = o.clone();
    assert!(c.is_owned());
    assert_eq!(c.as_keyexpr(), "a/b");
    assert_eq!(c, o);
}

#[test]
fn text_is_reached_in_every_way() {
    let k = KeyExpr::try_from(String::from("a/b")).unwrap();
    assert_eq!(&*k, "a/b");
    let r: &str = k.as_ref();
    assert_eq!(r, "a/b");
    assert_eq!(k.len(), 3);
    assert_eq!(k.to_string(), "a/b");
    let from_ref = KeyExpr::from(&k);
    assert_eq!(from_ref.as_keyexpr(), "a/b");
    assert!(!from_ref.is_owned());
    let boxed: Box<str> = k.into();
    assert_eq!(&*boxed, "a/b");
    let b = KeyExpr::try_from("x/y").unwrap();
    let boxed: Box<str> = Box::from(b);
    assert_eq!(&*boxed, "x/y");
}

#[test]
fn error_kinds_and_copies() {
    let e = KeyExprError::InvalidKeyExpression(String::from("why"));
    assert_eq!(e.kind(), ErrorKind::InvalidKeyExpression);
    assert_eq!(e.clone(), e);
    let e = KeyExprError::AmbiguousConcatenation;
    assert_eq!(e.kind(), ErrorKind::AmbiguousConcatenation);
    assert_eq!(e.clone(), KeyExprError::AmbiguousConcatenation);
}
