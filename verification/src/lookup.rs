//! The classification core: one bit flag per character set, spec-level
//! grammar predicates for each set, and the classification byte that
//! unions the flags of every set a code point belongs to.

use vstd::prelude::*;

verus! {

/// Flag for `ctext` (RFC 5322).
pub const CT: u8 = 0b00000001;

/// Flag for `dtext` plus horizontal tab and space (RFC 5322).
pub const DT: u8 = 0b00000010;

/// Flag for `atext` (RFC 5322).
pub const AT: u8 = 0b00000100;

/// Flag for `qtext` plus horizontal tab and space (RFC 5322).
pub const QC: u8 = 0b00001000;

/// Flag for `restricted-name-char` (RFC 6838).
pub const RT: u8 = 0b00010000;

/// Flag for `token` (RFC 2045).
pub const TO: u8 = 0b00100000;

/// Flag for `obs-NO-WS-CTL` (RFC 5322).
pub const NC: u8 = 0b01000000;

/// Flag for `token` (RFC 7230, HTTP/1.1).
pub const HT: u8 = 0b10000000;

/// VCHAR: a visible (printing) US-ASCII character, `0x21` (`!`) through
/// `0x7E` (`~`).
pub open spec fn vchar(cp: u32) -> bool {
    0x21 <= cp <= 0x7e
}

/// `specials` of RFC 5322: `( ) < > [ ] : ; @ \ , . "`.
pub open spec fn special(cp: u32) -> bool {
    ||| cp == 0x28  // (
    ||| cp == 0x29  // )
    ||| cp == 0x3c  // <
    ||| cp == 0x3e  // >
    ||| cp == 0x5b  // [
    ||| cp == 0x5d  // ]
    ||| cp == 0x3a  // :
    ||| cp == 0x3b  // ;
    ||| cp == 0x40  // @
    ||| cp == 0x5c  // backslash
    ||| cp == 0x2c  // ,
    ||| cp == 0x2e  // .
    ||| cp == 0x22  // "
}

/// `tspecials` of RFC 2045: `( ) < > @ , ; : \ " / [ ] ? =`.
pub open spec fn tspecial(cp: u32) -> bool {
    ||| cp == 0x28  // (
    ||| cp == 0x29  // )
    ||| cp == 0x3c  // <
    ||| cp == 0x3e  // >
    ||| cp == 0x40  // @
    ||| cp == 0x2c  // ,
    ||| cp == 0x3b  // ;
    ||| cp == 0x3a  // :
    ||| cp == 0x5c  // backslash
    ||| cp == 0x22  // "
    ||| cp == 0x2f  // /
    ||| cp == 0x5b  // [
    ||| cp == 0x5d  // ]
    ||| cp == 0x3f  // ?
    ||| cp == 0x3d  // =
}

/// An ASCII letter or digit.
pub open spec fn alnum(cp: u32) -> bool {
    ||| 0x30 <= cp <= 0x39  // 0-9
    ||| 0x41 <= cp <= 0x5a  // A-Z
    ||| 0x61 <= cp <= 0x7a  // a-z
}

/// `ctext` of RFC 5322: VCHAR without `(`, `)` and `\`. Whitespace is
/// excluded; folding white space around comment content is the grammar
/// composition's business, not this set's.
pub open spec fn ctext(cp: u32) -> bool {
    ||| 0x21 <= cp <= 0x27
    ||| 0x2a <= cp <= 0x5b
    ||| 0x5d <= cp <= 0x7e
}

/// `dtext` of RFC 5322 (VCHAR without `[`, `]` and `\`), with horizontal
/// tab and space folded in.
pub open spec fn dtext_ws(cp: u32) -> bool {
    ||| cp == 0x09
    ||| 0x20 <= cp <= 0x5a
    ||| 0x5e <= cp <= 0x7e
}

/// `atext` of RFC 5322: VCHAR without the `specials`.
pub open spec fn atext(cp: u32) -> bool {
    vchar(cp) && !special(cp)
}

/// `qtext` of RFC 5322 (VCHAR without `"` and `\`), with horizontal tab
/// and space folded in: everything that may stand in a quoted string
/// without being escaped as a quoted-pair.
pub open spec fn qtext_ws(cp: u32) -> bool {
    ||| cp == 0x09
    ||| cp == 0x20
    ||| cp == 0x21
    ||| 0x23 <= cp <= 0x5b
    ||| 0x5d <= cp <= 0x7e
}

/// `restricted-name-char` of RFC 6838: letters, digits and
/// `! # $ & - ^ _ + .`.
pub open spec fn restricted_token_char(cp: u32) -> bool {
    ||| alnum(cp)
    ||| cp == 0x21  // !
    ||| cp == 0x23  // #
    ||| cp == 0x24  // $
    ||| cp == 0x26  // &
    ||| cp == 0x2d  // -
    ||| cp == 0x5e  // ^
    ||| cp == 0x5f  // _
    ||| cp == 0x2b  // +
    ||| cp == 0x2e  // .
}

/// `token` of RFC 2045: VCHAR without the `tspecials`.
pub open spec fn token_char(cp: u32) -> bool {
    vchar(cp) && !tspecial(cp)
}

/// `obs-NO-WS-CTL` of RFC 5322: the control characters that are neither
/// NUL nor whitespace, that is 1-8, 11, 12, 14-31 and 127.
pub open spec fn obs_no_ws_ctl(cp: u32) -> bool {
    ||| 1 <= cp <= 8
    ||| cp == 11
    ||| cp == 12
    ||| 14 <= cp <= 31
    ||| cp == 127
}

/// `token` of RFC 7230: letters, digits and
/// ``! # $ % & ' * + - . ^ _ ` | ~``.
pub open spec fn http_token_char(cp: u32) -> bool {
    ||| alnum(cp)
    ||| cp == 0x21  // !
    ||| cp == 0x23  // #
    ||| cp == 0x24  // $
    ||| cp == 0x25  // %
    ||| cp == 0x26  // &
    ||| cp == 0x27  // '
    ||| cp == 0x2a  // *
    ||| cp == 0x2b  // +
    ||| cp == 0x2d  // -
    ||| cp == 0x2e  // .
    ||| cp == 0x5e  // ^
    ||| cp == 0x5f  // _
    ||| cp == 0x60  // `
    ||| cp == 0x7c  // |
    ||| cp == 0x7e  // ~
}

/// A classification byte is correct for a code point when, for every
/// defined character set, the set's flag bit is set in the byte exactly
/// when the code point satisfies the set's grammar predicate.
pub open spec fn classification_byte_ok(b: u8, cp: u32) -> bool {
    &&& ((b & CT) != 0) == ctext(cp)
    &&& ((b & DT) != 0) == dtext_ws(cp)
    &&& ((b & AT) != 0) == atext(cp)
    &&& ((b & QC) != 0) == qtext_ws(cp)
    &&& ((b & RT) != 0) == restricted_token_char(cp)
    &&& ((b & TO) != 0) == token_char(cp)
    &&& ((b & NC) != 0) == obs_no_ws_ctl(cp)
    &&& ((b & HT) != 0) == http_token_char(cp)
}

fn is_ctext(cp: u32) -> (r: bool)
    ensures
        r == ctext(cp),
{
    (0x21 <= cp && cp <= 0x27) || (0x2a <= cp && cp <= 0x5b) || (0x5d <= cp && cp <= 0x7e)
}

fn is_dtext_ws(cp: u32) -> (r: bool)
    ensures
        r == dtext_ws(cp),
{
    cp == 0x09 || (0x20 <= cp && cp <= 0x5a) || (0x5e <= cp && cp <= 0x7e)
}

fn is_special(cp: u32) -> (r: bool)
    ensures
        r == special(cp),
{
    cp == 0x28 || cp == 0x29 || cp == 0x3c || cp == 0x3e || cp == 0x5b || cp == 0x5d || cp == 0x3a
        || cp == 0x3b || cp == 0x40 || cp == 0x5c || cp == 0x2c || cp == 0x2e || cp == 0x22
}

fn is_atext(cp: u32) -> (r: bool)
    ensures
        r == atext(cp),
{
    0x21 <= cp && cp <= 0x7e && !is_special(cp)
}

fn is_qtext_ws(cp: u32) -> (r: bool)
    ensures
        r == qtext_ws(cp),
{
    cp == 0x09 || cp == 0x20 || cp == 0x21 || (0x23 <= cp && cp <= 0x5b) || (0x5d <= cp
        && cp <= 0x7e)
}

fn is_alnum(cp: u32) -> (r: bool)
    ensures
        r == alnum(cp),
{
    (0x30 <= cp && cp <= 0x39) || (0x41 <= cp && cp <= 0x5a) || (0x61 <= cp && cp <= 0x7a)
}

fn is_restricted_token_char(cp: u32) -> (r: bool)
    ensures
        r == restricted_token_char(cp),
{
    is_alnum(cp) || cp == 0x21 || cp == 0x23 || cp == 0x24 || cp == 0x26 || cp == 0x2d
        || cp == 0x5e || cp == 0x5f || cp == 0x2b || cp == 0x2e
}

fn is_tspecial(cp: u32) -> (r: bool)
    ensures
        r == tspecial(cp),
{
    cp == 0x28 || cp == 0x29 || cp == 0x3c || cp == 0x3e || cp == 0x40 || cp == 0x2c || cp == 0x3b
        || cp == 0x3a || cp == 0x5c || cp == 0x22 || cp == 0x2f || cp == 0x5b || cp == 0x5d
        || cp == 0x3f || cp == 0x3d
}

fn is_token_char(cp: u32) -> (r: bool)
    ensures
        r == token_char(cp),
{
    0x21 <= cp && cp <= 0x7e && !is_tspecial(cp)
}

fn is_obs_no_ws_ctl(cp: u32) -> (r: bool)
    ensures
        r == obs_no_ws_ctl(cp),
{
    (1 <= cp && cp <= 8) || cp == 11 || cp == 12 || (14 <= cp && cp <= 31) || cp == 127
}

fn is_http_token_char(cp: u32) -> (r: bool)
    ensures
        r == http_token_char(cp),
{
    is_alnum(cp) || cp == 0x21 || cp == 0x23 || cp == 0x24 || cp == 0x25 || cp == 0x26
        || cp == 0x27 || cp == 0x2a || cp == 0x2b || cp == 0x2d || cp == 0x2e || cp == 0x5e
        || cp == 0x5f || cp == 0x60 || cp == 0x7c || cp == 0x7e
}

/// Computes the classification byte of an ASCII code point: the union of
/// the flags of every character set the code point belongs to.
pub fn classify(cp: u32) -> (r: u8)
    requires
        cp < 0x80,
    ensures
        classification_byte_ok(r, cp),
{
    let a: u8 = if is_ctext(cp) { CT } else { 0 };
    let b: u8 = if is_dtext_ws(cp) { DT } else { 0 };
    let c: u8 = if is_atext(cp) { AT } else { 0 };
    let d: u8 = if is_qtext_ws(cp) { QC } else { 0 };
    let e: u8 = if is_restricted_token_char(cp) { RT } else { 0 };
    let f: u8 = if is_token_char(cp) { TO } else { 0 };
    let g: u8 = if is_obs_no_ws_ctl(cp) { NC } else { 0 };
    let h: u8 = if is_http_token_char(cp) { HT } else { 0 };
    let r: u8 = a | b | c | d | e | f | g | h;
    proof {
        let or: u8 = a | b | c | d | e | f | g | h;
        assert({
            &&& ((or & 0x01u8) != 0) == (a == 0x01u8)
            &&& ((or & 0x02u8) != 0) == (b == 0x02u8)
            &&& ((or & 0x04u8) != 0) == (c == 0x04u8)
            &&& ((or & 0x08u8) != 0) == (d == 0x08u8)
            &&& ((or & 0x10u8) != 0) == (e == 0x10u8)
            &&& ((or & 0x20u8) != 0) == (f == 0x20u8)
            &&& ((or & 0x40u8) != 0) == (g == 0x40u8)
            &&& ((or & 0x80u8) != 0) == (h == 0x80u8)
        }) by (bit_vector)
            requires
                or == (a | b | c | d | e | f | g | h),
                a == 0x00u8 || a == 0x01u8,
                b == 0x00u8 || b == 0x02u8,
                c == 0x00u8 || c == 0x04u8,
                d == 0x00u8 || d == 0x08u8,
                e == 0x00u8 || e == 0x10u8,
                f == 0x00u8 || f == 0x20u8,
                g == 0x00u8 || g == 0x40u8,
                h == 0x00u8 || h == 0x80u8,
        ;
    }
    r
}

/// Builds the full 128-entry lookup table, one classification byte per
/// ASCII code point, each entry proved to match the grammar predicates
/// of every defined character set.
pub fn us_ascii_lookup() -> (t: Vec<u8>)
    ensures
        t@.len() == 128,
        forall|i: int| 0 <= i < 128 ==> classification_byte_ok(t@[i], i as u32),
{
    let mut t: Vec<u8> = Vec::new();
    let mut cp: u32 = 0;
    while cp < 128
        invariant
            cp <= 128,
            t@.len() == cp as int,
            forall|i: int| 0 <= i < cp as int ==> classification_byte_ok(t@[i], i as u32),
        decreases 128 - cp,
    {
        let b: u8 = classify(cp);
        t.push(b);
        cp = cp + 1;
    }
    t
}

} // verus!
