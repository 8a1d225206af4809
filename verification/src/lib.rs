//! Character classification for mail-related grammars.
//!
//! Answers whether a given `char` belongs to a named character set of
//! RFC 5322 (`atext`, `ctext`, `dtext`, `qtext`), RFC 2045 / RFC 6838
//! (`token`, `restricted-name-char`) or RFC 7230 (`token`), via a compact
//! bitmask classification of the 128 ASCII code points.
//!
//! The [`Charset`] enum names each set. Membership is tested with
//! `Charset::contains(&self, char)`, or with `ch.is(charset)` through the
//! [`CharMatchExt`] extension trait. [`Charset::lookup`] classifies a
//! character once and hands back a [`LookupResult`] that can be queried
//! against several sets without repeating the table lookup.
//!
//! Every variant is also re-exported under a module named after the RFC
//! that defines it, e.g. `Charset::CText` as `rfc5322::CText`.

use vstd::prelude::*;

pub mod lookup;
mod sealed;
pub mod rfc2045;
pub mod rfc5322;
pub mod rfc6838;
pub mod rfc7230;

pub use sealed::Seal;

use crate::lookup::{AT, CT, DT, HT, NC, QC, RT, TO};
use crate::lookup::classification_byte_ok;

verus! {

/// True when the character lies in the US-ASCII range, code points 0
/// through 127.
pub open spec fn is_ascii_char(ch: char) -> bool {
    (ch as u32) < 0x80
}

/// The charsets represented through the internal lookup table.
#[derive(Copy, Clone, Ord, PartialOrd, Eq, PartialEq, Hash, Debug)]
pub enum Charset {
    /// `qtext` + ws: anything which can appear in a quoted string
    /// without being part of a quoted-pair.
    ///
    /// **rfc: 5322**
    QTextWs,
    /// `ctext`
    ///
    /// **rfc: 5322**
    ///
    /// Strictly the visible characters valid in a comment; folding
    /// white space between them is handled by the surrounding grammar,
    /// so tab and space are not in this set.
    CText,
    /// `dtext`
    ///
    /// **rfc: 5322**
    DText,
    /// `atext`
    ///
    /// **rfc: 5322**
    AText,
    /// `restricted-name-char`: the subset of the RFC 2045 token chars
    /// with which ietf-tokens and iana-tokens have to comply.
    ///
    /// **rfc: 6838** (related rfc2045)
    RestrictedToken,
    /// `token`
    ///
    /// **rfc: 2045**
    ///
    /// Note there are multiple mail related definitions of token; this
    /// is the RFC 2045 one.
    Token,
    /// `obs-NO-WS-CTL`
    ///
    /// **rfc: 5322**
    ///
    /// Combine with CText or QTextWs to support the obsolete part of
    /// the grammar.
    ObsNoWsCtl,
    /// `token`
    ///
    /// **rfc: 7230**
    ///
    /// Token as defined in RFC 7230 (HTTP/1.1); not directly a mail
    /// grammar, but relevant for shared utilities such as anything
    /// Media Type related.
    Rfc7230Token,
}

impl Charset {
    /// The flag bit of this charset in a classification byte.
    pub open spec fn flag_spec(self) -> u8 {
        match self {
            Charset::QTextWs => QC,
            Charset::CText => CT,
            Charset::DText => DT,
            Charset::AText => AT,
            Charset::RestrictedToken => RT,
            Charset::Token => TO,
            Charset::ObsNoWsCtl => NC,
            Charset::Rfc7230Token => HT,
        }
    }

    /// The grammar predicate of this charset, over an ASCII code point.
    pub open spec fn cp_in_set(self, cp: u32) -> bool {
        match self {
            Charset::QTextWs => lookup::qtext_ws(cp),
            Charset::CText => lookup::ctext(cp),
            Charset::DText => lookup::dtext_ws(cp),
            Charset::AText => lookup::atext(cp),
            Charset::RestrictedToken => lookup::restricted_token_char(cp),
            Charset::Token => lookup::token_char(cp),
            Charset::ObsNoWsCtl => lookup::obs_no_ws_ctl(cp),
            Charset::Rfc7230Token => lookup::http_token_char(cp),
        }
    }

    fn flag(&self) -> (r: u8)
        ensures
            r == self.flag_spec(),
    {
        match *self {
            Charset::QTextWs => QC,
            Charset::CText => CT,
            Charset::DText => DT,
            Charset::AText => AT,
            Charset::RestrictedToken => RT,
            Charset::Token => TO,
            Charset::ObsNoWsCtl => NC,
            Charset::Rfc7230Token => HT,
        }
    }
}

/// True when the character is in the given charset: it is ASCII and its
/// code point satisfies the charset's grammar predicate.
pub open spec fn char_in_set(ch: char, charset: Charset) -> bool {
    is_ascii_char(ch) && charset.cp_in_set(ch as u32)
}

/// True when the character is in the given charset or is not ASCII at
/// all: the RFC 6532 reading, under which every non-US-ASCII character
/// is valid in the *text productions.
pub open spec fn char_in_set_or_non_ascii(ch: char, charset: Charset) -> bool {
    !is_ascii_char(ch) || char_in_set(ch, charset)
}

/// In a correct classification byte, the flag bit of a charset is set
/// exactly when the code point satisfies that charset's grammar
/// predicate.
proof fn lemma_byte_matches_set(b: u8, cp: u32, charset: Charset)
    requires
        classification_byte_ok(b, cp),
    ensures
        ((b & charset.flag_spec()) != 0) == charset.cp_in_set(cp),
{
}

impl Charset {
    /// Returns true if the char is part of this set of chars.
    pub fn contains(&self, ch: char) -> (r: bool)
        ensures
            r == char_in_set(ch, *self),
    {
        self.contains_lookup(ch, false)
    }

    /// Returns true if the char is part of this set of chars or is not
    /// an ASCII char.
    ///
    /// This is mainly meant to be used in combination with RFC 6532,
    /// which extends all *text grammar parts / character sets to
    /// contain any non-US-ASCII character.
    pub fn contains_or_non_ascii(&self, ch: char) -> (r: bool)
        ensures
            r == char_in_set_or_non_ascii(ch, *self),
    {
        self.contains_lookup(ch, true)
    }

    fn contains_lookup(&self, ch: char, out_of_table_value: bool) -> (r: bool)
        ensures
            r == if is_ascii_char(ch) {
                self.cp_in_set(ch as u32)
            } else {
                out_of_table_value
            },
    {
        let index: u32 = ch as u32;
        if index < 0x80 {
            let b: u8 = lookup::classify(index);
            proof {
                lemma_byte_matches_set(b, index, *self);
            }
            (b & self.flag()) != 0
        } else {
            out_of_table_value
        }
    }

    /// Uses the internal lookup table to classify a char.
    pub fn lookup(ch: char) -> (r: LookupResult)
        ensures
            r.is_ascii_spec() == is_ascii_char(ch),
            forall|charset: Charset| #[trigger]
                r.in_set_spec(charset) == char_in_set(ch, charset),
            forall|charset: Charset| #[trigger]
                r.in_set_or_non_ascii_spec(charset) == char_in_set_or_non_ascii(ch, charset),
    {
        let index: u32 = ch as u32;
        if index < 0x80 {
            let b: u8 = lookup::classify(index);
            let r = LookupResult(Some(b));
            proof {
                assert forall|charset: Charset| #[trigger]
                    r.in_set_spec(charset) == char_in_set(ch, charset) by {
                    lemma_byte_matches_set(b, index, charset);
                }
            }
            r
        } else {
            LookupResult(None)
        }
    }
}

/// The result of classifying one char against the lookup table: either
/// the char's classification byte, or the marker that the char was not
/// ASCII and has no table entry.
///
/// `CharMatchExt` is implemented on it, so it can be queried the same
/// way as a char (wrt. that trait) without repeating the table lookup.
#[derive(Copy, Clone, Debug, PartialEq, Eq, Hash)]
pub struct LookupResult(Option<u8>);

impl LookupResult {
    /// The classification byte this result carries, if the char was
    /// ASCII.
    pub closed spec fn byte_spec(self) -> Option<u8> {
        self.0
    }

    /// True when the result came from an ASCII char, so a table entry
    /// was found.
    pub open spec fn is_ascii_spec(self) -> bool {
        self.byte_spec() is Some
    }

    /// True when the classified char was ASCII and its classification
    /// byte carries the charset's flag.
    pub open spec fn in_set_spec(self, charset: Charset) -> bool {
        match self.byte_spec() {
            Some(b) => (b & charset.flag_spec()) != 0,
            None => false,
        }
    }

    /// Like [`LookupResult::in_set_spec`], but true for a non-ASCII
    /// char whatever the charset.
    pub open spec fn in_set_or_non_ascii_spec(self, charset: Charset) -> bool {
        match self.byte_spec() {
            Some(b) => (b & charset.flag_spec()) != 0,
            None => true,
        }
    }

    /// True when the looked-up char was an ASCII char.
    pub fn is_ascii(&self) -> (r: bool)
        ensures
            r == self.is_ascii_spec(),
    {
        self.0.is_some()
    }

    fn lookup_contains(&self, charset: Charset, default: bool) -> (r: bool)
        ensures
            r == match self.byte_spec() {
                Some(b) => (b & charset.flag_spec()) != 0,
                None => default,
            },
    {
        match self.0 {
            Some(res) => (res & charset.flag()) != 0,
            None => default,
        }
    }
}

/// The query capability over a char-like carrier. Sealed: exactly
/// `char` and [`LookupResult`] implement it, so every implementation is
/// backed by the same classification table.
pub trait CharMatchExt: Seal + Copy {
    /// What `is` returns for this carrier.
    spec fn matches_spec(self, charset: Charset) -> bool;

    /// What `is_inkl_non_ascii` returns for this carrier.
    spec fn matches_or_non_ascii_spec(self, charset: Charset) -> bool;

    /// Returns true if the char is a char belonging to the given charset.
    fn is(self, charset: Charset) -> (r: bool)
        ensures
            r == self.matches_spec(charset),
    ;

    /// Returns true if the char is a char belonging to the given charset
    /// or a non-US-ASCII char.
    fn is_inkl_non_ascii(self, charset: Charset) -> (r: bool)
        ensures
            r == self.matches_or_non_ascii_spec(charset),
    ;
}

impl Seal for char {

}

impl CharMatchExt for char {
    open spec fn matches_spec(self, charset: Charset) -> bool {
        char_in_set(self, charset)
    }

    open spec fn matches_or_non_ascii_spec(self, charset: Charset) -> bool {
        char_in_set_or_non_ascii(self, charset)
    }

    fn is(self, charset: Charset) -> (r: bool) {
        charset.contains(self)
    }

    fn is_inkl_non_ascii(self, charset: Charset) -> (r: bool) {
        charset.contains_or_non_ascii(self)
    }
}

impl Seal for LookupResult {

}

impl CharMatchExt for LookupResult {
    open spec fn matches_spec(self, charset: Charset) -> bool {
        self.in_set_spec(charset)
    }

    open spec fn matches_or_non_ascii_spec(self, charset: Charset) -> bool {
        self.in_set_or_non_ascii_spec(charset)
    }

    fn is(self, charset: Charset) -> (r: bool) {
        self.lookup_contains(charset, false)
    }

    fn is_inkl_non_ascii(self, charset: Charset) -> (r: bool) {
        self.lookup_contains(charset, true)
    }
}

/// Returns true for exactly the horizontal whitespace characters, space
/// and horizontal tab.
pub fn is_ws(ch: char) -> (r: bool)
    ensures
        r == (ch == ' ' || ch == '\t'),
{
    ch == ' ' || ch == '\t'
}

/// Returns true for exactly the visible (printing) US-ASCII characters:
/// strictly above space (0x20), up to and including `~` (0x7E).
pub fn is_vchar(ch: char) -> (r: bool)
    ensures
        r == lookup::vchar(ch as u32),
{
    let cp: u32 = ch as u32;
    0x20 < cp && cp <= 0x7e
}

/// A character outside US-ASCII belongs to no charset, while every
/// charset's non-ASCII-inclusive query accepts it.
pub proof fn lemma_non_ascii_in_no_charset(ch: char, charset: Charset)
    requires
        !is_ascii_char(ch),
    ensures
        !char_in_set(ch, charset),
        char_in_set_or_non_ascii(ch, charset),
{
}

} // verus!
