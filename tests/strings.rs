use capped::{CapString, CapStringLengthError};

#[test]
fn manipulate_string_ok() {
    let s = String::from("abc");
    let mut cap_s = CapString::<5>::try_from(s).unwrap();

    cap_s.push('d').unwrap();
    assert_eq!(cap_s.as_str(), "abcd");

    cap_s.pop();
    assert_eq!(cap_s.as_ref(), "abc");

    cap_s.push_str("de").unwrap();
    assert_eq!(cap_s.to_string(), "abcde");

    cap_s.truncate(2);
    assert_eq!(cap_s.as_ref(), "ab");

    cap_s.clear();
    assert_eq!(cap_s.into_inner(), "");
}

#[test]
fn manipulate_string_err() {
    assert!(CapString::<3>::try_from(String::from("abcd")).is_err());
    // The emoji takes four bytes, so the string is over the cap.
    assert!(CapString::<3>::try_from(String::from("ab\u{1F603}")).is_err());

    let mut cap_s = CapString::<3>::try_from(String::from("hi")).unwrap();
    assert!(cap_s.push_str("abc").is_err());
    assert!(cap_s.push('h').is_ok());
    assert!(cap_s
        .push('h')
        .unwrap_err()
        .to_string()
        .contains("length 4 must be in range 0..=3"));
    assert!(cap_s.push('h').is_err());
    assert_eq!(String::from(cap_s), "hih");
}

#[test]
fn push_str_is_all_or_nothing() {
    let mut s = CapString::<4>::try_from(String::from("ab")).unwrap();
    assert_eq!(s.push_str("cde"), Err(CapStringLengthError::<4>(5)));
    assert_eq!(s.as_str(), "ab");
    assert_eq!(s.push_str("cd"), Ok(()));
    assert_eq!(s.as_str(), "abcd");
    assert_eq!(s.push_str(""), Ok(()));
    assert_eq!(s.len(), 4);
}

#[test]
fn push_counts_utf8_bytes() {
    let mut s = CapString::<3>::default();
    assert_eq!(s.push('\u{e9}'), Ok(()));
    assert_eq!(s.len(), 2);
    assert_eq!(s.push('\u{20ac}'), Err(CapStringLengthError::<3>(5)));
    assert_eq!(s.push('x'), Ok(()));
    assert_eq!(s.as_str(), "\u{e9}x");
    assert_eq!(s.pop(), Some('x'));
    assert_eq!(s.pop(), Some('\u{e9}'));
    assert_eq!(s.pop(), None);
}

#[test]
fn string_length_error_message() {
    let err = CapString::<3>::try_from(String::from("abcd")).unwrap_err();
    assert_eq!(err, CapStringLengthError::<3>(4));
    assert_eq!(
        err.to_string(),
        "cap string length error, length 4 must be in range 0..=3"
    );
}

#[test]
fn empty_and_exact_cap_strings() {
    assert!(CapString::<0>::try_from(String::new()).is_ok());
    assert!(CapString::<0>::try_from(String::from("a")).is_err());
    let full = CapString::<3>::try_from(String::from("abc")).unwrap();
    assert_eq!(full.len(), 3);
    let mut t = CapString::<8>::try_from(String::from("a\u{e9}b")).unwrap();
    t.truncate(10);
    assert_eq!(t.as_str(), "a\u{e9}b");
    t.truncate(3);
    assert_eq!(t.as_str(), "a\u{e9}");
}
