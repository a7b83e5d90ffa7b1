//! Text normalisation used when frames are matched lexically: lower-casing,
//! removal of trailing periods and UTF-8 decoding of raw frame bytes.

use vstd::prelude::*;
use vstd::utf8::*;

verus! {

/// The content of an optional text.
pub open spec fn text_view(text: Option<String>) -> Option<Seq<char>> {
    match text {
        Some(text) => Some(text@),
        None => None,
    }
}

/// The Unicode lower-case form of a text, as the standard library computes it.
pub uninterp spec fn lowercase_of(text: Seq<char>) -> Seq<char>;

/// Lower-case form of one character under ASCII rules: `A`..`Z` move to
/// `a`..`z`, every other character stays.
pub open spec fn ascii_lower_char(c: char) -> char {
    if 'A' <= c && c <= 'Z' {
        ((c as u8 + 32) as u8) as char
    } else {
        c
    }
}

/// Character-wise ASCII lower-casing of a text.
pub open spec fn ascii_lowercase(text: Seq<char>) -> Seq<char> {
    Seq::new(text.len(), |i: int| ascii_lower_char(text[i]))
}

/// The text without the periods at its end.
pub open spec fn strip_trailing_periods(text: Seq<char>) -> Seq<char>
    decreases text.len(),
{
    if text.len() > 0 && text.last() == '.' {
        strip_trailing_periods(text.drop_last())
    } else {
        text
    }
}

/// The form under which frame content is looked up: lower-cased, then
/// stripped of trailing periods.
pub open spec fn normalized(text: Seq<char>) -> Seq<char> {
    strip_trailing_periods(lowercase_of(text))
}

/// Calls `str::to_lowercase`. The result is the Unicode lower-case form of
/// the input; on input made of ASCII characters only it is the character-wise
/// ASCII lower-casing.
#[verifier::external_body]
pub(crate) fn to_lowercase(text: &str) -> (lowered: String)
    ensures
        lowered@ == lowercase_of(text@),
        is_ascii_chars(text@) ==> lowered@ == ascii_lowercase(text@),
{
    text.to_lowercase()
}

/// Calls `core::str::from_utf8`. The bytes decode exactly when they are
/// well-formed UTF-8, and then to the text they encode.
#[verifier::external_body]
pub(crate) fn utf8_text(bytes: &[u8]) -> (text: Option<&str>)
    ensures
        text is Some <==> valid_utf8(bytes@),
        text is Some ==> text->0@ == decode_utf8(bytes@),
{
    match core::str::from_utf8(bytes) {
        Ok(text) => Some(text),
        Err(_) => None,
    }
}

/// Cutting trailing periods from a prefix that has only periods behind it
/// gives what cutting them from the whole text gives.
pub proof fn lemma_strip_prefix(text: Seq<char>, end: int)
    requires
        0 <= end <= text.len(),
        forall|i: int| end <= i < text.len() ==> text[i] == '.',
    ensures
        strip_trailing_periods(text) == strip_trailing_periods(text.subrange(0, end)),
    decreases text.len() - end,
{
    if end < text.len() {
        assert(text.last() == '.');
        let shorter = text.drop_last();
        assert(shorter.subrange(0, end) =~= text.subrange(0, end));
        lemma_strip_prefix(shorter, end);
    } else {
        assert(text.subrange(0, end) =~= text);
    }
}

/// Removes the periods at the end of `text`.
pub fn trim_trailing_periods(text: &str) -> (trimmed: &str)
    ensures
        trimmed@ == strip_trailing_periods(text@),
{
    let length: usize = text.unicode_len();
    let mut end: usize = length;
    loop
        invariant
            end <= length,
            length == text@.len(),
            forall|i: int| end <= i < length ==> text@[i] == '.',
        ensures
            end == 0 || text@[end - 1] != '.',
        decreases end,
    {
        if end == 0 {
            break ;
        }
        if text.get_char(end - 1) != '.' {
            break ;
        }
        end = end - 1;
    }
    proof {
        lemma_strip_prefix(text@, end as int);
        let kept = text@.subrange(0, end as int);
        assert(strip_trailing_periods(kept) == kept) by {
            if kept.len() > 0 {
                assert(kept.last() == text@[end - 1]);
            }
        }
    }
    text.substring_char(0, end)
}

/// `content` spells `key` in some mix of upper and lower case, with any
/// number of periods behind it.
pub open spec fn spells(content: Seq<char>, key: Seq<char>) -> bool {
    &&& key.len() <= content.len()
    &&& forall|i: int|
        0 <= i < key.len() ==> '\0' <= #[trigger] content[i] <= '\u{7f}' && ascii_lower_char(
            content[i],
        ) == key[i]
    &&& forall|i: int| key.len() <= i < content.len() ==> #[trigger] content[i] == '.'
}

/// A text that spells a key is ASCII, and lower-casing it character by
/// character and cutting the trailing periods leaves the key, provided the
/// key itself does not end in a period.
pub proof fn lemma_spelled_key(content: Seq<char>, key: Seq<char>)
    requires
        spells(content, key),
        key.len() > 0 ==> key.last() != '.',
    ensures
        is_ascii_chars(content),
        strip_trailing_periods(ascii_lowercase(content)) == key,
{
    let lowered = ascii_lowercase(content);
    let width = key.len() as int;
    assert(lowered.subrange(0, width) =~= key);
    assert forall|i: int| width <= i < lowered.len() implies lowered[i] == '.' by {
        assert(content[i] == '.');
    }
    lemma_strip_prefix(lowered, width);
    assert(is_ascii_chars(content)) by {
        assert forall|i: int| 0 <= i < content.len() implies '\0' <= #[trigger] content[i]
            <= '\u{7f}' by {
            if i >= width {
                assert(content[i] == '.');
            }
        }
    }
}

} // verus!
