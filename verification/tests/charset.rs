use mail_chars::{is_vchar, is_ws, rfc2045, rfc5322, rfc6838, rfc7230, CharMatchExt, Charset};

fn all_charsets() -> [Charset; 8] {
    [
        Charset::QTextWs,
        Charset::CText,
        Charset::DText,
        Charset::AText,
        Charset::RestrictedToken,
        Charset::Token,
        Charset::ObsNoWsCtl,
        Charset::Rfc7230Token,
    ]
}

#[test]
fn lookup_result_ascii() {
    let res = Charset::lookup('<');
    assert!(res.is_ascii());
    assert!(res.is(Charset::QTextWs));
    assert!(res.is_inkl_non_ascii(Charset::QTextWs));
    assert!(res.is(Charset::CText));
    assert!(res.is_inkl_non_ascii(Charset::CText));
    assert!(!res.is(Charset::AText));
    assert!(!res.is_inkl_non_ascii(Charset::AText));
}

#[test]
fn lookup_result_utf8() {
    let res = Charset::lookup('↓');
    assert!(!res.is_ascii());
    assert!(!res.is(Charset::QTextWs));
    assert!(res.is_inkl_non_ascii(Charset::QTextWs));
}

#[test]
fn is_part_of_charset() {
    // just a "general" check if it works, any specific checks
    // about which chars belong to which set of chars is handled
    // in the lookup table tests
    assert!('<'.is(Charset::QTextWs));
    assert!('<'.is_inkl_non_ascii(Charset::QTextWs));
    assert!(!'<'.is(Charset::AText));
    assert!(!'<'.is_inkl_non_ascii(Charset::AText));

    let first_char_not_in_table = '\u{80}';
    assert!(!first_char_not_in_table.is(Charset::CText));
    assert!(first_char_not_in_table.is_inkl_non_ascii(Charset::CText));
}

#[test]
fn is_vchar_boundaries() {
    let min = '!';
    let min_m1 = ' ';
    assert_eq!(min as u32 - 1, min_m1 as u32);
    let max = '~';
    let max_p1 = '\u{7f}';
    assert_eq!(max as u32 + 1, max_p1 as u32);

    assert!(is_vchar(min));
    assert!(!is_vchar(min_m1));
    assert!(is_vchar(max));
    assert!(!is_vchar(max_p1));
}

#[test]
fn non_ascii_rejected_by_every_charset() {
    for &charset in all_charsets().iter() {
        for ch in ['\u{80}', 'ä', '↓', '\u{10ffff}'] {
            assert!(!charset.contains(ch));
            assert!(charset.contains_or_non_ascii(ch));
            let res = Charset::lookup(ch);
            assert!(!res.is_ascii());
            assert!(!res.is(charset));
            assert!(res.is_inkl_non_ascii(charset));
        }
    }
}

#[test]
fn lookup_agrees_with_contains_on_ascii() {
    for cp in 0u32..0x80 {
        let ch = char::from_u32(cp).unwrap();
        let res = Charset::lookup(ch);
        assert!(res.is_ascii());
        for &charset in all_charsets().iter() {
            assert_eq!(res.is(charset), charset.contains(ch));
            assert_eq!(res.is_inkl_non_ascii(charset), charset.contains_or_non_ascii(ch));
            assert_eq!(ch.is(charset), charset.contains(ch));
            assert_eq!(ch.is_inkl_non_ascii(charset), charset.contains_or_non_ascii(ch));
        }
    }
}

#[test]
fn ws_is_exactly_space_and_tab() {
    assert!(is_ws(' '));
    assert!(is_ws('\t'));
    assert!(!is_ws('\n'));
    assert!(!is_ws('\r'));
    for cp in 0u32..0x80 {
        let ch = char::from_u32(cp).unwrap();
        assert_eq!(is_ws(ch), ch == ' ' || ch == '\t');
    }
    assert!(!is_ws('↓'));
}

#[test]
fn atom_text_scenarios() {
    assert!(Charset::AText.contains('d'));
    assert!(!Charset::AText.contains('@'));
    assert!(!Charset::AText.contains('.'));
}

#[test]
fn token_scenarios() {
    assert!(Charset::Token.contains('-'));
    assert!("abc-def".chars().all(|ch| ch.is(rfc2045::Token)));
    assert!(!"abc def".chars().all(|ch| ch.is(rfc2045::Token)));
}

#[test]
fn first_char_past_table_boundary() {
    let ch = '\u{80}';
    assert!(!Charset::CText.contains(ch));
    assert!(Charset::CText.contains_or_non_ascii(ch));
}

#[test]
fn rfc_modules_name_the_same_charsets() {
    assert_eq!(Charset::QTextWs, rfc5322::QTextWs);
    assert_eq!(Charset::CText, rfc5322::CText);
    assert_eq!(Charset::DText, rfc5322::DText);
    assert_eq!(Charset::AText, rfc5322::AText);
    assert_eq!(Charset::ObsNoWsCtl, rfc5322::ObsNoWsCtl);
    assert_eq!(Charset::Token, rfc2045::Token);
    assert_eq!(Charset::RestrictedToken, rfc6838::RestrictedToken);
    assert_eq!(Charset::Rfc7230Token, rfc7230::Token);
}
