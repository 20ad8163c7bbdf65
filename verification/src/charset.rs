//! The `Charset` encoding identifier: a label parser producing it and a
//! decoder dispatching on it.

use vstd::prelude::*;
use vstd::utf8::{decode_utf8, valid_utf8};

use crate::ShellParseError;

verus! {

/// A character-encoding identifier. The five labeled variants are
/// produced by [`parse_charset`]; `Default` is a caller-supplied
/// fallback with no label, whose decode path is lossy and never fails.
#[derive(Debug, PartialEq, Eq, Clone, Copy, Structural)]
pub enum Charset {
    ASCII,
    ShiftJIS,
    ISO2022JP,
    EUCJP,
    UTF8,
    Default,
}

/// The label text of each labeled identifier; `Default` has no label
/// and is never produced by parsing.
pub open spec fn spec_label(c: Charset) -> Seq<char>
    recommends
        c != Charset::Default,
{
    match c {
        Charset::ASCII => "ASCII"@,
        Charset::ShiftJIS => "Shift_JIS"@,
        Charset::ISO2022JP => "ISO-2022-JP"@,
        Charset::EUCJP => "EUC-JP"@,
        Charset::UTF8 => "UTF-8"@,
        Charset::Default => Seq::empty(),
    }
}

/// What parsing a text yields: the first label, in priority order, that
/// is an exact prefix of the input, with the unconsumed remainder; or
/// nothing when no label matches.
pub open spec fn spec_parse(s: Seq<char>) -> Option<(Charset, Seq<char>)> {
    if "ASCII"@.is_prefix_of(s) {
        Some((Charset::ASCII, s.skip("ASCII"@.len() as int)))
    } else if "Shift_JIS"@.is_prefix_of(s) {
        Some((Charset::ShiftJIS, s.skip("Shift_JIS"@.len() as int)))
    } else if "ISO-2022-JP"@.is_prefix_of(s) {
        Some((Charset::ISO2022JP, s.skip("ISO-2022-JP"@.len() as int)))
    } else if "EUC-JP"@.is_prefix_of(s) {
        Some((Charset::EUCJP, s.skip("EUC-JP"@.len() as int)))
    } else if "UTF-8"@.is_prefix_of(s) {
        Some((Charset::UTF8, s.skip("UTF-8"@.len() as int)))
    } else {
        None
    }
}

/// Matches `label` as an exact, case-sensitive prefix of `input`;
/// on success returns the unconsumed remainder.
fn try_label<'a>(input: &'a str, label: &str) -> (r: Option<&'a str>)
    ensures
        match r {
            Some(rem) => label@.is_prefix_of(input@) && rem@ == input@.skip(
                label@.len() as int,
            ),
            None => !label@.is_prefix_of(input@),
        },
{
    let label_len = label.unicode_len();
    let input_len = input.unicode_len();
    if input_len < label_len {
        return None;
    }
    let mut i: usize = 0;
    while i < label_len
        invariant
            label_len == label@.len(),
            input_len == input@.len(),
            label_len <= input_len,
            i <= label_len,
            forall|j: int| 0 <= j < i ==> input@[j] == label@[j],
        decreases label_len - i,
    {
        if input.get_char(i) != label.get_char(i) {
            proof {
                assert(input@[i as int] != label@[i as int]);
                assert(!label@.is_prefix_of(input@)) by {
                    if label@.is_prefix_of(input@) {
                        assert(label@ =~= input@.subrange(0, label@.len() as int));
                        assert(label@[i as int] == input@[i as int]);
                    }
                };
            }
            return None;
        }
        i += 1;
    }
    let rem = input.substring_char(label_len, input_len);
    proof {
        assert(label@ =~= input@.subrange(0, label@.len() as int));
        assert(rem@ =~= input@.skip(label@.len() as int));
    }
    Some(rem)
}

proof fn lemma_diff_first_not_prefix(p: Seq<char>, a: Seq<char>, suffix: Seq<char>)
    requires
        p.len() > 0,
        a.len() > 0,
        p[0] != a[0],
    ensures
        !p.is_prefix_of(a + suffix),
{
    if p.is_prefix_of(a + suffix) {
        assert(p[0] == (a + suffix).subrange(0, p.len() as int)[0]);
        assert((a + suffix)[0] == a[0]);
    }
}

proof fn lemma_self_prefix(p: Seq<char>, suffix: Seq<char>)
    ensures
        p.is_prefix_of(p + suffix),
        (p + suffix).skip(p.len() as int) == suffix,
{
    assert(p =~= (p + suffix).subrange(0, p.len() as int));
    assert((p + suffix).skip(p.len() as int) =~= suffix);
}

/// Law: each recognized label, followed by any suffix whatever, parses
/// to exactly that label's identifier, with the suffix returned
/// unconsumed and untouched.
pub proof fn lemma_parse_label(c: Charset, suffix: Seq<char>)
    requires
        c != Charset::Default,
    ensures
        spec_parse(spec_label(c) + suffix) == Some((c, suffix)),
{
    reveal_strlit("ASCII");
    reveal_strlit("Shift_JIS");
    reveal_strlit("ISO-2022-JP");
    reveal_strlit("EUC-JP");
    reveal_strlit("UTF-8");
    lemma_self_prefix(spec_label(c), suffix);
    match c {
        Charset::ASCII => {
        },
        Charset::ShiftJIS => {
            lemma_diff_first_not_prefix("ASCII"@, "Shift_JIS"@, suffix);
        },
        Charset::ISO2022JP => {
            lemma_diff_first_not_prefix("ASCII"@, "ISO-2022-JP"@, suffix);
            lemma_diff_first_not_prefix("Shift_JIS"@, "ISO-2022-JP"@, suffix);
        },
        Charset::EUCJP => {
            lemma_diff_first_not_prefix("ASCII"@, "EUC-JP"@, suffix);
            lemma_diff_first_not_prefix("Shift_JIS"@, "EUC-JP"@, suffix);
            lemma_diff_first_not_prefix("ISO-2022-JP"@, "EUC-JP"@, suffix);
        },
        Charset::UTF8 => {
            lemma_diff_first_not_prefix("ASCII"@, "UTF-8"@, suffix);
            lemma_diff_first_not_prefix("Shift_JIS"@, "UTF-8"@, suffix);
            lemma_diff_first_not_prefix("ISO-2022-JP"@, "UTF-8"@, suffix);
            lemma_diff_first_not_prefix("EUC-JP"@, "UTF-8"@, suffix);
        },
        Charset::Default => {
        },
    }
}

/// Law: parsing fails exactly on the inputs that no recognized label
/// begins; `Default`, having no label, never decides the outcome.
pub proof fn lemma_parse_no_match(s: Seq<char>)
    ensures
        (spec_parse(s) is None) <==> (forall|c: Charset|
            c != Charset::Default ==> !spec_label(c).is_prefix_of(s)),
{
    if spec_parse(s) is None {
        assert forall|c: Charset| c != Charset::Default implies !spec_label(c).is_prefix_of(
            s,
        ) by {
            assert(spec_label(c) == "ASCII"@ || spec_label(c) == "Shift_JIS"@ || spec_label(c)
                == "ISO-2022-JP"@ || spec_label(c) == "EUC-JP"@ || spec_label(c) == "UTF-8"@);
        }
    }
    if forall|c: Charset| c != Charset::Default ==> !spec_label(c).is_prefix_of(s) {
        assert(!spec_label(Charset::ASCII).is_prefix_of(s));
        assert(!spec_label(Charset::ShiftJIS).is_prefix_of(s));
        assert(!spec_label(Charset::ISO2022JP).is_prefix_of(s));
        assert(!spec_label(Charset::EUCJP).is_prefix_of(s));
        assert(!spec_label(Charset::UTF8).is_prefix_of(s));
    }
}

/// Parser for [`Charset`].
///
/// Attempts each of the five known labels, in priority order, as an
/// exact literal prefix of `input`. On success returns the unconsumed
/// remainder and the matched identifier; otherwise fails with
/// `NoMatch` carrying the offending input.
pub fn parse_charset<'a>(input: &'a str) -> (r: Result<(&'a str, Charset), ShellParseError<'a>>)
    ensures
        match r {
            Ok((rem, c)) => spec_parse(input@) == Some((c, rem@)),
            Err(e) => spec_parse(input@) is None && (e matches ShellParseError::NoMatch(s)
                && s@ == input@),
        },
{
    if let Some(rem) = try_label(input, "ASCII") {
        return Ok((rem, Charset::ASCII));
    }
    if let Some(rem) = try_label(input, "Shift_JIS") {
        return Ok((rem, Charset::ShiftJIS));
    }
    if let Some(rem) = try_label(input, "ISO-2022-JP") {
        return Ok((rem, Charset::ISO2022JP));
    }
    if let Some(rem) = try_label(input, "EUC-JP") {
        return Ok((rem, Charset::EUCJP));
    }
    if let Some(rem) = try_label(input, "UTF-8") {
        return Ok((rem, Charset::UTF8));
    }
    Err(ShellParseError::NoMatch(input))
}

/// Error of the decoder: the requested encoding could not losslessly
/// and exactly account for the given bytes.
#[derive(Debug, Clone, Copy, PartialEq, Eq, Structural)]
pub struct DecodeMismatch;

/// What decoding `bytes` under the encoding whose canonical name is
/// `encoding` yields: the decoded text, the canonical name of the
/// encoding actually used (which byte-order-mark sniffing may change),
/// and whether any malformed sequence was replaced.
pub uninterp spec fn rs_decoded(encoding: Seq<char>, bytes: Seq<u8>) -> (Seq<char>, Seq<char>, bool);

/// The canonical name of the text encoding each labeled identifier
/// selects; `ASCII` is decoded as UTF-8.
pub open spec fn rs_name(c: Charset) -> Seq<char>
    recommends
        c != Charset::Default,
{
    match c {
        Charset::ASCII => "UTF-8"@,
        Charset::ShiftJIS => "Shift_JIS"@,
        Charset::ISO2022JP => "ISO-2022-JP"@,
        Charset::EUCJP => "EUC-JP"@,
        Charset::UTF8 => "UTF-8"@,
        Charset::Default => "UTF-8"@,
    }
}

/// What the result of the lossy platform fallback is, as a function of
/// the bytes alone.
pub uninterp spec fn lossy_utf8(bytes: Seq<u8>) -> Seq<char>;

/// What `decode` yields: for `Default`, the lossy fallback text, always
/// a success; for every labeled identifier, the text its encoding
/// decodes, but only when nothing was replaced and the encoding
/// actually used is the encoding requested.
pub open spec fn spec_decode(c: Charset, bytes: Seq<u8>) -> Option<Seq<char>> {
    if c == Charset::Default {
        Some(lossy_utf8(bytes))
    } else {
        let (text, used, had_errors) = rs_decoded(rs_name(c), bytes);
        if had_errors || used != rs_name(c) {
            None
        } else {
            Some(text)
        }
    }
}

/// Relies on encoding_rs::Encoding::decode on encoding_rs::UTF_8, and
/// on encoding_rs::Encoding::name for the encoding actually used: the
/// result depends on the encoding and the bytes alone.
#[verifier::external_body]
fn rs_decode_utf_8(input: &[u8]) -> (r: (String, String, bool))
    requires
        input@.len() < usize::MAX / 8,
    ensures
        (r.0@, r.1@, r.2) == rs_decoded("UTF-8"@, input@),
{
    let (text, used, had_errors) = encoding_rs::UTF_8.decode(input);
    (text.into_owned(), used.name().to_owned(), had_errors)
}

/// Relies on encoding_rs::Encoding::decode on encoding_rs::SHIFT_JIS,
/// and on encoding_rs::Encoding::name for the encoding actually used:
/// the result depends on the encoding and the bytes alone.
#[verifier::external_body]
fn rs_decode_shift_jis(input: &[u8]) -> (r: (String, String, bool))
    requires
        input@.len() < usize::MAX / 8,
    ensures
        (r.0@, r.1@, r.2) == rs_decoded("Shift_JIS"@, input@),
{
    let (text, used, had_errors) = encoding_rs::SHIFT_JIS.decode(input);
    (text.into_owned(), used.name().to_owned(), had_errors)
}

/// Relies on encoding_rs::Encoding::decode on encoding_rs::ISO_2022_JP,
/// and on encoding_rs::Encoding::name for the encoding actually used:
/// the result depends on the encoding and the bytes alone.
#[verifier::external_body]
fn rs_decode_iso_2022_jp(input: &[u8]) -> (r: (String, String, bool))
    requires
        input@.len() < usize::MAX / 8,
    ensures
        (r.0@, r.1@, r.2) == rs_decoded("ISO-2022-JP"@, input@),
{
    let (text, used, had_errors) = encoding_rs::ISO_2022_JP.decode(input);
    (text.into_owned(), used.name().to_owned(), had_errors)
}

/// Relies on encoding_rs::Encoding::decode on encoding_rs::EUC_JP, and
/// on encoding_rs::Encoding::name for the encoding actually used: the
/// result depends on the encoding and the bytes alone.
#[verifier::external_body]
fn rs_decode_euc_jp(input: &[u8]) -> (r: (String, String, bool))
    requires
        input@.len() < usize::MAX / 8,
    ensures
        (r.0@, r.1@, r.2) == rs_decoded("EUC-JP"@, input@),
{
    let (text, used, had_errors) = encoding_rs::EUC_JP.decode(input);
    (text.into_owned(), used.name().to_owned(), had_errors)
}

/// Relies on String::from_utf8_lossy: the result depends on the bytes
/// alone, and on valid UTF-8 it is exactly the decoded text.
#[verifier::external_body]
fn lossy_decode(input: &[u8]) -> (r: String)
    ensures
        r@ == lossy_utf8(input@),
        valid_utf8(input@) ==> r@ == decode_utf8(input@),
{
    String::from_utf8_lossy(input).into_owned()
}

/// The validation half of a decode: accepts the decoder's output only
/// when nothing was replaced and the encoding actually used carries
/// the expected canonical name.
fn check_decoded(out: (String, String, bool), expected: &str) -> (r: Result<
    String,
    DecodeMismatch,
>)
    ensures
        match r {
            Ok(text) => !out.2 && out.1@ == expected@ && text@ == out.0@,
            Err(_) => out.2 || out.1@ != expected@,
        },
{
    let (text, used, had_errors) = out;
    if had_errors {
        return Err(DecodeMismatch);
    }
    let expected_owned: String = expected.to_owned();
    if used == expected_owned {
        Ok(text)
    } else {
        Err(DecodeMismatch)
    }
}

impl Charset {
    /// Decodes bytes under the encoding this identifier represents.
    ///
    /// Every labeled identifier validates: any replacement, or any
    /// switch to another encoding than the one requested, fails with
    /// `DecodeMismatch`. `Default` is the lossy fallback and never
    /// fails; on bytes that are already valid UTF-8 it returns exactly
    /// their decoded text.
    pub fn decode(&self, input: &[u8]) -> (r: Result<String, DecodeMismatch>)
        requires
            input@.len() < usize::MAX / 8,
        ensures
            match r {
                Ok(text) => spec_decode(*self, input@) == Some(text@),
                Err(_) => spec_decode(*self, input@) is None,
            },
            *self is Default ==> r is Ok,
            *self is Default && valid_utf8(input@) ==> (r matches Ok(text) && text@
                == decode_utf8(input@)),
    {
        match self {
            Charset::Default => Ok(lossy_decode(input)),
            Charset::ASCII => check_decoded(rs_decode_utf_8(input), "UTF-8"),
            Charset::UTF8 => check_decoded(rs_decode_utf_8(input), "UTF-8"),
            Charset::ShiftJIS => check_decoded(rs_decode_shift_jis(input), "Shift_JIS"),
            Charset::ISO2022JP => check_decoded(rs_decode_iso_2022_jp(input), "ISO-2022-JP"),
            Charset::EUCJP => check_decoded(rs_decode_euc_jp(input), "EUC-JP"),
        }
    }
}

/// Law: the platform-default path never fails, whatever the bytes.
pub proof fn lemma_default_decode_total(bytes: Seq<u8>)
    ensures
        spec_decode(Charset::Default, bytes) is Some,
{
}

} // verus!
