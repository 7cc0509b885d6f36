use vstd::prelude::*;

verus! {

/// Compares two string slices character by character.
pub fn str_eq(a: &str, b: &str) -> (equal: bool)
    ensures
        equal == (a@ == b@),
{
    let left = a.to_owned();
    let right = b.to_owned();
    left == right
}

/// Whether `text` ends with `suffix`, comparing characters.
pub open spec fn has_suffix(text: Seq<char>, suffix: Seq<char>) -> bool {
    suffix.len() <= text.len() && text.subrange(text.len() - suffix.len(), text.len() as int)
        == suffix
}

/// Checks whether `text` ends with `suffix`.
pub fn ends_with(text: &str, suffix: &str) -> (result: bool)
    ensures
        result == has_suffix(text@, suffix@),
{
    let text_len = text.unicode_len();
    let suffix_len = suffix.unicode_len();
    if text_len < suffix_len {
        return false;
    }
    let tail = text.substring_char(text_len - suffix_len, text_len);
    str_eq(tail, suffix)
}

/// Whether `needle` occurs in `text` as a run of consecutive characters.
pub open spec fn has_substring(text: Seq<char>, needle: Seq<char>) -> bool {
    exists|start: int|
        0 <= start && start + needle.len() <= text.len() && #[trigger] text.subrange(
            start,
            start + needle.len(),
        ) == needle
}

/// Checks whether `needle` occurs in `text`.
pub fn contains_str(text: &str, needle: &str) -> (found: bool)
    ensures
        found == has_substring(text@, needle@),
{
    let text_len = text.unicode_len();
    let needle_len = needle.unicode_len();
    if needle_len > text_len {
        assert forall|start: int|
            0 <= start && start + needle@.len() <= text@.len() implies #[trigger] text@.subrange(
            start,
            start + needle@.len(),
        ) != needle@ by {}
        return false;
    }
    let last_start = text_len - needle_len;
    let mut start: usize = 0;
    loop
        invariant
            text_len == text@.len(),
            needle_len == needle@.len(),
            last_start == text_len - needle_len,
            start <= last_start,
            forall|s: int|
                0 <= s < start ==> #[trigger] text@.subrange(s, s + needle@.len()) != needle@,
        decreases last_start - start,
    {
        let window = text.substring_char(start, start + needle_len);
        if str_eq(window, needle) {
            return true;
        }
        if start == last_start {
            return false;
        }
        start = start + 1;
    }
}

} // verus!
