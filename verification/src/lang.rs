//! Compact identifiers for natural languages and for regions of the world.

use vstd::prelude::*;
use vstd::string::*;
use vstd::utf8::*;
use crate::geom::Dir;

verus! {

broadcast use {vstd::string::group_string_axioms, vstd::utf8::group_utf8_lib};

/// The lowercase form of an ASCII letter; any other byte is left as it is.
pub open spec fn spec_lower_byte(b: u8) -> u8 {
    if 65 <= b <= 90 {
        (b + 32) as u8
    } else {
        b
    }
}

/// The uppercase form of an ASCII letter; any other byte is left as it is.
pub open spec fn spec_upper_byte(b: u8) -> u8 {
    if 97 <= b <= 122 {
        (b - 32) as u8
    } else {
        b
    }
}

/// The text with each ASCII letter in lowercase.
pub open spec fn lowercase(s: Seq<char>) -> Seq<char> {
    Seq::new(s.len(), |i: int| spec_lower_byte(s[i] as u8) as char)
}

/// The text with each ASCII letter in uppercase.
pub open spec fn uppercase(s: Seq<char>) -> Seq<char> {
    Seq::new(s.len(), |i: int| spec_upper_byte(s[i] as u8) as char)
}

/// The characters that a sequence of ASCII bytes stands for.
pub open spec fn ascii_text(bytes: Seq<u8>) -> Seq<char> {
    Seq::new(bytes.len(), |i: int| bytes[i] as char)
}

/// Whether a character is one of the letters `a` to `z` and `A` to `Z`.
pub open spec fn is_ascii_letter(c: char) -> bool {
    ('a' <= c <= 'z') || ('A' <= c <= 'Z')
}

/// Whether a byte stands for one of the letters `a` to `z` and `A` to `Z`.
pub open spec fn is_letter_byte(b: u8) -> bool {
    (97 <= b <= 122) || (65 <= b <= 90)
}

/// Whether the text has the form of a language code: two or three
/// characters, all of them ASCII letters.
pub open spec fn is_lang_code(s: Seq<char>) -> bool {
    2 <= s.len() <= 3 && forall|i: int| 0 <= i < s.len() ==> is_ascii_letter(#[trigger] s[i])
}

/// Whether the text has the outer form of a region code: two characters,
/// both of them ASCII.
pub open spec fn is_region_code(s: Seq<char>) -> bool {
    s.len() == 2 && is_ascii_chars(s)
}

/// Whether a normalized language code names a language that is written from
/// right to left.
pub open spec fn is_rtl_code(code: Seq<char>) -> bool {
    ||| code == seq!['a', 'r']
    ||| code == seq!['d', 'v']
    ||| code == seq!['f', 'a']
    ||| code == seq!['h', 'e']
    ||| code == seq!['k', 's']
    ||| code == seq!['p', 'a']
    ||| code == seq!['p', 's']
    ||| code == seq!['s', 'd']
    ||| code == seq!['u', 'g']
    ||| code == seq!['u', 'r']
    ||| code == seq!['y', 'i']
}

fn lower_byte(b: u8) -> (r: u8)
    ensures
        r == spec_lower_byte(b),
{
    if b >= 65 && b <= 90 {
        b + 32
    } else {
        b
    }
}

fn upper_byte(b: u8) -> (r: u8)
    ensures
        r == spec_upper_byte(b),
{
    if b >= 97 && b <= 122 {
        b - 32
    } else {
        b
    }
}

/// Whether all of the bytes are ASCII.
pub open spec fn is_ascii_bytes(bytes: Seq<u8>) -> bool {
    forall|i: int| 0 <= i < bytes.len() ==> bytes[i] < 128
}

/// `core::str::from_utf8`, with the error dropped: a string slice that comes
/// back has exactly the bytes that went in, and for bytes that are all ASCII
/// one does come back.
#[verifier::external_body]
fn utf8_to_str(bytes: &[u8]) -> (r: Option<&str>)
    ensures
        is_ascii_bytes(bytes@) ==> r is Some,
        r matches Some(s) ==> s.spec_bytes() == bytes@,
{
    core::str::from_utf8(bytes).ok()
}

/// ASCII bytes are the UTF-8 encoding of the characters they stand for.
proof fn lemma_ascii_bytes_encode(bytes: Seq<u8>)
    requires
        forall|i: int| 0 <= i < bytes.len() ==> bytes[i] < 128,
    ensures
        is_ascii_chars(ascii_text(bytes)),
        encode_utf8(ascii_text(bytes)) == bytes,
        valid_utf8(bytes),
{
    let chars = ascii_text(bytes);
    assert(is_ascii_chars(chars));
    is_ascii_chars_encode_utf8(chars);
    assert(encode_utf8(chars) =~= bytes);
    encode_utf8_valid_utf8(chars);
}

/// A string slice whose bytes are ASCII holds the characters they stand for.
proof fn lemma_ascii_str(s: &str, bytes: Seq<u8>)
    requires
        s.spec_bytes() == bytes,
        forall|i: int| 0 <= i < bytes.len() ==> bytes[i] < 128,
    ensures
        s@ == ascii_text(bytes),
{
    lemma_ascii_bytes_encode(bytes);
    encode_utf8_decode_utf8(s@);
    encode_utf8_decode_utf8(ascii_text(bytes));
}

/// An identifier for a natural language: a two- or three-letter ISO 639 code,
/// held in lowercase.
#[derive(Clone, Copy, Debug, PartialEq, Eq, PartialOrd, Ord, Hash)]
pub struct Lang {
    bytes: [u8; 3],
    len: u8,
}

impl View for Lang {
    type V = Seq<char>;

    /// The characters of the code.
    closed spec fn view(&self) -> Seq<char> {
        ascii_text(self.bytes@.subrange(0, self.len as int))
    }
}

impl Lang {
    #[verifier::type_invariant]
    spec fn well_formed(self) -> bool {
        &&& 2 <= self.len <= 3
        &&& forall|i: int| 0 <= i < self.len ==> 97 <= #[trigger] self.bytes@[i] <= 122
        &&& forall|i: int| self.len <= i < 3 ==> self.bytes@[i] == 32
    }

    /// The message with which [`Lang::from_str`] rejects its input.
    pub open spec fn spec_error() -> Seq<char> {
        "expected two or three letter language code (ISO 639-1/2/3)"@
    }

    /// The code for English.
    pub fn english() -> (r: Lang)
        ensures
            r@ == seq!['e', 'n'],
    {
        let r = Lang { bytes: [101, 110, 32], len: 2 };
        assert(r@ =~= seq!['e', 'n']);
        r
    }

    /// The code for German.
    pub fn german() -> (r: Lang)
        ensures
            r@ == seq!['d', 'e'],
    {
        let r = Lang { bytes: [100, 101, 32], len: 2 };
        assert(r@ =~= seq!['d', 'e']);
        r
    }

    /// Constructs a language from a two- or three-letter ISO 639-1/2/3 code.
    ///
    /// The input is accepted exactly when it is two or three ASCII letters
    /// long. The letters are stored in lowercase.
    pub fn from_str(iso: &str) -> (r: Result<Lang, &'static str>)
        ensures
            r is Ok <==> is_lang_code(iso@),
            r matches Ok(lang) ==> lang@ == lowercase(iso@),
            r matches Err(msg) ==> msg@ == Lang::spec_error(),
    {
        let src = iso.as_bytes();
        let len = src.len();
        if len >= 2 && len <= 3 && iso.is_ascii() {
            let mut bytes: [u8; 3] = [32, 32, 32];
            let mut i: usize = 0;
            while i < len
                invariant
                    i <= len <= 3,
                    src@.len() == len,
                    iso@.len() == len,
                    forall|j: int| 0 <= j < len ==> src@[j] < 128 && src@[j] == iso@[j] as u8,
                    forall|j: int| 0 <= j < i ==> is_letter_byte(#[trigger] src@[j]),
                    forall|j: int| 0 <= j < i ==> bytes@[j] == spec_lower_byte(src@[j]),
                    forall|j: int| i <= j < 3 ==> bytes@[j] == 32,
                decreases len - i,
            {
                let b = src[i];
                if !((b >= 97 && b <= 122) || (b >= 65 && b <= 90)) {
                    assert(!is_ascii_letter(iso@[i as int]));
                    return Err("expected two or three letter language code (ISO 639-1/2/3)");
                }
                bytes[i] = lower_byte(b);
                i += 1;
            }
            let lang = Lang { bytes, len: len as u8 };
            assert(lang@ =~= lowercase(iso@));
            assert forall|j: int| 0 <= j < iso@.len() implies is_ascii_letter(
                #[trigger] iso@[j],
            ) by {
                assert(is_letter_byte(src@[j]));
            }
            Ok(lang)
        } else {
            proof {
                if is_lang_code(iso@) {
                    assert forall|j: int| 0 <= j < iso@.len() implies '\0' <= #[trigger] iso@[j]
                        <= '\u{7f}' by {
                        assert(is_ascii_letter(iso@[j]));
                    }
                    assert(is_ascii_chars(iso@));
                }
            }
            Err("expected two or three letter language code (ISO 639-1/2/3)")
        }
    }

    /// The language code as an all lowercase string slice.
    pub fn as_str(&self) -> (r: &str)
        ensures
            r@ == self@,
            is_lang_code(r@),
            lowercase(r@) == r@,
    {
        proof {
            use_type_invariant(self);
        }
        let code = &self.bytes[0..self.len as usize];
        proof {
            lemma_ascii_bytes_encode(code@);
        }
        match utf8_to_str(code) {
            Some(s) => {
                proof {
                    lemma_ascii_str(s, code@);
                    assert(lowercase(s@) =~= s@);
                }
                s
            },
            None => "",
        }
    }

    /// The default direction for the language.
    pub fn dir(self) -> (r: Dir)
        ensures
            r == (if is_rtl_code(self@) {
                Dir::RTL
            } else {
                Dir::LTR
            }),
    {
        proof {
            use_type_invariant(self);
        }
        let rtl = self.len == 2 && match (self.bytes[0], self.bytes[1]) {
            (97, 114) | (100, 118) | (102, 97) | (104, 101) | (107, 115) | (112, 97) | (112, 115)
            | (115, 100) | (117, 103) | (117, 114) | (121, 105) => true,
            _ => false,
        };
        proof {
            let code = self@;
            if self.len == 2 {
                assert(code.len() == 2);
                assert(code[0] == self.bytes@[0] as char);
                assert(code[1] == self.bytes@[1] as char);
                assert(code =~= seq![code[0], code[1]]);
            } else {
                assert(code.len() == 3);
            }
        }
        if rtl {
            Dir::RTL
        } else {
            Dir::LTR
        }
    }
}

impl core::str::FromStr for Lang {
    type Err = &'static str;

    /// Constructs a language from a two- or three-byte ISO 639-1/2/3 code,
    /// as [`Lang::from_str`] does.
    fn from_str(iso: &str) -> (r: Result<Self, Self::Err>)
        ensures
            r is Ok <==> is_lang_code(iso@),
            r matches Ok(lang) ==> lang@ == lowercase(iso@),
            r matches Err(msg) ==> msg@ == Lang::spec_error(),
    {
        Lang::from_str(iso)
    }
}

/// An identifier for a region somewhere in the world: a two-letter ISO 3166-1
/// alpha-2 code, held in uppercase.
#[derive(Clone, Copy, Debug, PartialEq, Eq, PartialOrd, Ord, Hash)]
pub struct Region {
    bytes: [u8; 2],
}

impl View for Region {
    type V = Seq<char>;

    /// The characters of the code.
    closed spec fn view(&self) -> Seq<char> {
        ascii_text(self.bytes@)
    }
}

impl Region {
    #[verifier::type_invariant]
    spec fn well_formed(self) -> bool {
        &&& forall|i: int| 0 <= i < 2 ==> self.bytes@[i] < 128
        &&& forall|i: int| 0 <= i < 2 ==> !(97 <= #[trigger] self.bytes@[i] <= 122)
    }

    /// The message with which [`Region::from_str`] rejects its input.
    pub open spec fn spec_error() -> Seq<char> {
        "expected two letter region code (ISO 3166-1 alpha-2)"@
    }

    /// Constructs a region from its two-byte ISO 3166-1 alpha-2 code.
    ///
    /// The input is accepted exactly when it is two ASCII characters long.
    /// Its letters are stored in uppercase.
    pub fn from_str(iso: &str) -> (r: Result<Region, &'static str>)
        ensures
            r is Ok <==> is_region_code(iso@),
            r matches Ok(region) ==> region@ == uppercase(iso@),
            r matches Err(msg) ==> msg@ == Region::spec_error(),
    {
        let src = iso.as_bytes();
        if src.len() == 2 && iso.is_ascii() {
            let bytes: [u8; 2] = [upper_byte(src[0]), upper_byte(src[1])];
            let region = Region { bytes };
            assert(region@ =~= uppercase(iso@));
            Ok(region)
        } else {
            Err("expected two letter region code (ISO 3166-1 alpha-2)")
        }
    }

    /// The region code as an all uppercase string slice.
    pub fn as_str(&self) -> (r: &str)
        ensures
            r@ == self@,
            is_region_code(r@),
            uppercase(r@) == r@,
    {
        proof {
            use_type_invariant(self);
        }
        let code = &self.bytes[0..2];
        proof {
            lemma_ascii_bytes_encode(code@);
        }
        match utf8_to_str(code) {
            Some(s) => {
                proof {
                    lemma_ascii_str(s, code@);
                    assert(uppercase(s@) =~= s@);
                }
                s
            },
            None => "",
        }
    }
}

impl core::str::FromStr for Region {
    type Err = &'static str;

    /// Constructs a region from its two-byte ISO 3166-1 alpha-2 code, as
    /// [`Region::from_str`] does.
    fn from_str(iso: &str) -> (r: Result<Self, Self::Err>)
        ensures
            r is Ok <==> is_region_code(iso@),
            r matches Ok(region) ==> region@ == uppercase(iso@),
            r matches Err(msg) ==> msg@ == Region::spec_error(),
    {
        Region::from_str(iso)
    }
}

} // verus!
