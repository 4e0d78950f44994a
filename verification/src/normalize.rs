//! Turning raw user input into the canonical search key: Unicode NFC
//! composition, lowercasing, and removal of the dataset's wildcard
//! metacharacters and of all whitespace. The length bound is checked on the
//! raw input, in bytes, before any transformation.

use vstd::prelude::*;
use vstd::string::StringSliceAdditionalSpecFns;
use unicode_normalization::UnicodeNormalization;
use crate::errors::AutocompleteError;
use crate::strutil::chars_vec;

verus! {

/// The Unicode NFC (canonical composition) of a character sequence; a pure
/// function of the characters, computed by the `unicode_normalization` crate.
pub uninterp spec fn nfc_of(s: Seq<char>) -> Seq<char>;

/// The Unicode lowercasing of a character sequence; a pure function of the
/// characters, computed by `str::to_lowercase`.
pub uninterp spec fn lower_of(s: Seq<char>) -> Seq<char>;

/// Whether a character is Unicode whitespace, as `char::is_whitespace`
/// decides it.
pub uninterp spec fn char_is_whitespace(c: char) -> bool;

/// Relies on `unicode_normalization::UnicodeNormalization::nfc` on `&str`:
/// the canonically composed form, a function of the characters alone.
#[verifier::external_body]
fn nfc_string(s: &str) -> (r: String)
    ensures
        r@ == nfc_of(s@),
{
    s.nfc().collect()
}

/// Relies on `str::to_lowercase`: the Unicode lowercase form, a function of
/// the characters alone.
pub assume_specification[ str::to_lowercase ](s: &str) -> (r: String)
    ensures
        r@ == lower_of(s@),
;

/// Relies on `char::is_whitespace`: a fixed predicate on the character.
pub assume_specification[ char::is_whitespace ](c: char) -> (r: bool)
    ensures
        r == char_is_whitespace(c),
;

/// A character survives canonicalization when it is neither a wildcard
/// metacharacter of the dataset or the store, nor whitespace.
pub open spec fn keeps_char(c: char) -> bool {
    c != '*' && c != '%' && !char_is_whitespace(c)
}

/// The stripping stage alone: the sequence with wildcard metacharacters and
/// whitespace removed.
pub open spec fn strip_spec(s: Seq<char>) -> Seq<char> {
    s.filter(|c: char| keeps_char(c))
}

/// The canonical key a raw input normalizes to: NFC composition, then
/// lowercasing, then stripping.
pub open spec fn canonical_of(raw: Seq<char>) -> Seq<char> {
    strip_spec(lower_of(nfc_of(raw)))
}

/// Whether an input's UTF-8 byte length disqualifies it before
/// normalization.
pub open spec fn len_rejected(raw: Seq<char>) -> bool {
    vstd::utf8::encode_utf8(raw).len() > 100 || vstd::utf8::encode_utf8(raw).len() < 3
}

/// Whether a raw input's byte length disqualifies it before normalization.
pub open spec fn raw_len_rejected(raw: &str) -> bool {
    len_rejected(raw@)
}

/// Every character of a canonical key survives the stripping stage, so no
/// canonical key holds a wildcard metacharacter (`*` or `%`) or whitespace.
pub proof fn lemma_canonical_free_of_metacharacters(raw: Seq<char>)
    ensures
        forall|i: int|
            0 <= i < canonical_of(raw).len() ==> keeps_char(#[trigger] canonical_of(raw)[i]),
{
    broadcast use vstd::seq_lib::group_filter_ensures;

    assert forall|i: int|
        0 <= i < canonical_of(raw).len() implies keeps_char(#[trigger] canonical_of(raw)[i]) by {
        assert(canonical_of(raw)[i] == lower_of(nfc_of(raw)).filter(|c: char| keeps_char(c))[i]);
    }
}

/// Validates the raw input's length and normalizes it into the canonical
/// search key. Rejection is decided on the raw byte length, before any
/// transformation; the transformed key may be empty and still flows through.
pub fn validate_transform_tag(tag: &str) -> (r: Result<String, AutocompleteError>)
    requires
        tag.spec_bytes().len() <= usize::MAX,
    ensures
        r is Err <==> raw_len_rejected(tag),
        r matches Err(e) ==> e == AutocompleteError::BadRequest,
        r matches Ok(key) ==> key@ == canonical_of(tag@),
{
    if tag.len() > 100 {
        return Err(AutocompleteError::BadRequest);
    }
    if tag.len() < 3 {
        return Err(AutocompleteError::BadRequest);
    }
    let composed = nfc_string(tag);
    let lowered = composed.as_str().to_lowercase();
    let chars = chars_vec(lowered.as_str());
    let mut out = String::new();
    let mut i: usize = 0;
    while i < chars.len()
        invariant
            chars@ == lower_of(nfc_of(tag@)),
            i <= chars@.len(),
            out@ == strip_spec(chars@.take(i as int)),
        decreases chars@.len() - i,
    {
        let c = chars[i];
        let keep = !(c == '*' || c == '%' || c.is_whitespace());
        proof {
            reveal(Seq::filter);
            assert(chars@.take(i as int + 1).drop_last() =~= chars@.take(i as int));
            assert(chars@.take(i as int + 1).last() == chars@[i as int]);
        }
        if keep {
            out.push(c);
        }
        i = i + 1;
    }
    proof {
        assert(chars@.take(chars@.len() as int) =~= chars@);
    }
    Ok(out)
}

} // verus!
