use authy::{Email, GetUser, Name, Password, UserError};

#[test]
fn email_accepts_inner_whitespace() {
    let e = Email::new("ab c").unwrap();
    assert_eq!(e.into_inner(), "ab c");
}

#[test]
fn email_keeps_surrounding_whitespace_verbatim() {
    let e = Email::new(" a@b.c ").unwrap();
    assert_eq!(e.into_inner(), " a@b.c ");
}

#[test]
fn email_rejects_empty() {
    assert!(matches!(Email::new(""), Err(UserError::InvalidEmail(_))));
}

#[test]
fn email_rejects_all_whitespace() {
    assert!(matches!(Email::new("   "), Err(UserError::InvalidEmail(_))));
    assert!(matches!(Email::new(" \t\r\n "), Err(UserError::InvalidEmail(_))));
    assert!(matches!(Email::new("\u{2003}\u{00A0}"), Err(UserError::InvalidEmail(_))));
}

#[test]
fn name_accepts_non_trim_empty() {
    let n = Name::new("Ann B").unwrap();
    assert_eq!(n.into_inner(), "Ann B");
}

#[test]
fn name_rejects_empty_and_whitespace() {
    assert!(matches!(Name::new(""), Err(UserError::EmptyName)));
    assert!(matches!(Name::new(" \t "), Err(UserError::EmptyName)));
}

#[test]
fn password_length_boundary() {
    assert!(matches!(Password::new(""), Err(UserError::InvalidPassword(_))));
    assert!(matches!(Password::new("abcd"), Err(UserError::InvalidPassword(_))));
    let p = Password::new("abcde").unwrap();
    assert_eq!(p.into_inner(), "abcde");
    assert!(Password::new("a much longer secret").is_ok());
}

#[test]
fn password_equality_is_exact() {
    let a = Password::new("secret1").unwrap();
    let b = Password::new("secret1").unwrap();
    let c = Password::new("Secret1").unwrap();
    assert!(a == b);
    assert!(a != c);
}

#[test]
fn email_equality_preserves_case_and_space() {
    let a = Email::new("a@x").unwrap();
    let b = Email::new("a@x").unwrap();
    let c = Email::new("A@x").unwrap();
    let d = Email::new("a@x ").unwrap();
    assert!(a == b);
    assert!(a != c);
    assert!(a != d);
}

#[test]
fn get_user_from_raw_carries_both_parts() {
    let req = GetUser::from_raw("a@x", "secret1");
    assert_eq!(req.email.into_inner(), "a@x");
    assert_eq!(req.password.unwrap().into_inner(), "secret1");
}
