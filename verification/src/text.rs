//! Small functions on text: prefixes and the bounded preview of a line.

use vstd::prelude::*;
use vstd::utf8::encode_utf8;

verus! {

/// The most characters of a line that a preview holds.
pub const PREVIEW_CHARS: usize = 50;

/// The preview of a line: the line itself, or its first fifty characters where
/// it is longer.
pub open spec fn line_preview(line: Seq<char>) -> Seq<char> {
    if line.len() > PREVIEW_CHARS {
        line.take(PREVIEW_CHARS as int)
    } else {
        line
    }
}

/// The number of bytes that the text takes in UTF-8.
pub open spec fn utf8_len(text: Seq<char>) -> nat {
    encode_utf8(text).len()
}

/// The preview of a line: at most its first fifty characters.
pub fn preview(line: &str) -> (p: String)
    ensures
        p@ == line_preview(line@),
{
    let n = line.unicode_len();
    if n > PREVIEW_CHARS {
        String::from_str(line.substring_char(0, PREVIEW_CHARS))
    } else {
        String::from_str(line)
    }
}

/// A preview never holds more than fifty characters, is a prefix of its line,
/// and is the whole line exactly when the line has at most fifty characters.
pub proof fn lemma_preview_bounded(line: Seq<char>)
    ensures
        line_preview(line).len() <= PREVIEW_CHARS,
        line_preview(line).is_prefix_of(line),
        line.len() > PREVIEW_CHARS ==> line_preview(line) == line.subrange(0, 50),
        line.len() <= PREVIEW_CHARS ==> line_preview(line) == line,
        line_preview(line) == line <==> line.len() <= PREVIEW_CHARS,
{
    if line.len() > PREVIEW_CHARS {
        assert(line.take(50).len() == 50);
    }
}

/// The preview of a preview is the preview.
pub proof fn lemma_preview_idempotent(line: Seq<char>)
    ensures
        line_preview(line_preview(line)) == line_preview(line),
{
    lemma_preview_bounded(line);
}

/// Whether two texts hold the same characters.
pub fn str_eq(a: &str, b: &str) -> (e: bool)
    ensures
        e == (a@ == b@),
{
    a.to_owned() == b.to_owned()
}

/// Whether `text` begins with `prefix`.
pub fn starts_with(text: &str, prefix: &str) -> (b: bool)
    ensures
        b == prefix@.is_prefix_of(text@),
{
    let n = prefix.unicode_len();
    let m = text.unicode_len();
    if n > m {
        return false;
    }
    let mut i: usize = 0;
    while i < n
        invariant
            n == prefix@.len(),
            m == text@.len(),
            n <= m,
            i <= n,
            forall|j: int| 0 <= j < i ==> text@[j] == prefix@[j],
        decreases n - i,
    {
        if text.get_char(i) != prefix.get_char(i) {
            assert(text@.subrange(0, n as int)[i as int] != prefix@[i as int]);
            return false;
        }
        i += 1;
    }
    assert(prefix@ =~= text@.subrange(0, n as int));
    true
}

} // verus!
